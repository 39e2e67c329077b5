//! Error values that the API answers with: an HTTP status and a list of
//! human-readable details, serialised as `{"errors": [{"detail": ...}, ...]}`.

use vstd::prelude::*;
use crate::text::{
    debug_str, decimal, decimal_string, join, join_strings, lemma_join_push, str_debug_text,
    string_views,
};
use crate::time::Timestamp;

verus! {

/// The HTTP status codes that the rules of this crate answer with.
pub const BAD_REQUEST: u16 = 400;
pub const UNAUTHORIZED: u16 = 401;
pub const FORBIDDEN: u16 = 403;
pub const NOT_FOUND: u16 = 404;
pub const CONFLICT: u16 = 409;
pub const UNPROCESSABLE_ENTITY: u16 = 422;
pub const TOO_MANY_REQUESTS: u16 = 429;
pub const SERVICE_UNAVAILABLE: u16 = 503;

/// The details an error carries.
#[derive(Debug)]
enum Detail {
    Empty,
    Single(String),
    Multiple(Vec<String>),
}

/// An error with a status of its own and any number of details.
#[derive(Debug)]
pub struct CustomApiError {
    status: u16,
    detail: Detail,
}

impl CustomApiError {
    /// A `Multiple` detail holds at least two messages: it only arises from a second push.
    #[verifier::type_invariant]
    spec fn well_formed(self) -> bool {
        self.detail matches Detail::Multiple(v) ==> v@.len() >= 2
    }

    /// The HTTP status of the error.
    pub closed spec fn status_code(self) -> u16 {
        self.status
    }

    /// The details of the error, in the order in which they were added.
    pub closed spec fn details(self) -> Seq<Seq<char>> {
        match self.detail {
            Detail::Empty => Seq::empty(),
            Detail::Single(m) => seq![m@],
            Detail::Multiple(v) => string_views(v@),
        }
    }

    /// An error with the given status and no details.
    pub fn new(status: u16) -> (r: Self)
        ensures
            r.status_code() == status,
            r.details() == Seq::<Seq<char>>::empty(),
    {
        CustomApiError { status, detail: Detail::Empty }
    }

    /// An error with the given status and a single detail.
    pub(crate) fn single(status: u16, detail: &str) -> (r: Self)
        ensures
            r.status_code() == status,
            r.details() == seq![detail@],
    {
        CustomApiError { status, detail: Detail::Single(detail.to_owned()) }
    }

    /// Whether the error holds at least one detail.
    pub fn contains_errors(&self) -> (r: bool)
        ensures
            r == (self.details().len() > 0),
    {
        !self.is_empty()
    }

    /// Whether the error holds no detail at all.
    pub fn is_empty(&self) -> (r: bool)
        ensures
            r == (self.details().len() == 0),
    {
        proof {
            use_type_invariant(self);
        }
        match &self.detail {
            Detail::Empty => true,
            _ => false,
        }
    }

    /// Adds a detail after those already present; the status stays. The error itself
    /// is handed back, so that pushes can be chained.
    pub fn push(&mut self, detail: &str) -> (r: &mut Self)
        ensures
            r.status_code() == old(self).status_code(),
            r.details() == old(self).details().push(detail@),
            *final(self) == *final(r),
    {
        proof {
            use_type_invariant(&*self);
        }
        let mut taken = Detail::Empty;
        std::mem::swap(&mut taken, &mut self.detail);
        let next = match taken {
            Detail::Empty => Detail::Single(detail.to_owned()),
            Detail::Single(msg) => {
                let mut v: Vec<String> = Vec::new();
                v.push(msg);
                v.push(detail.to_owned());
                proof {
                    assert(string_views(v@) =~= seq![msg@].push(detail@));
                }
                Detail::Multiple(v)
            },
            Detail::Multiple(msgs) => {
                let ghost before = msgs@;
                let mut msgs = msgs;
                msgs.push(detail.to_owned());
                proof {
                    assert(string_views(msgs@) =~= string_views(before).push(detail@));
                }
                Detail::Multiple(msgs)
            },
        };
        self.detail = next;
        self
    }

    /// How `Debug` writes the error, field by field: its status as a number and its
    /// details as `Empty`, `Single("…")` or `Multiple(["…", …])`.
    pub open spec fn debug_text_of(self) -> Seq<char> {
        "CustomApiError { status: "@ + decimal(self.status_code() as nat) + ", detail: "@
            + detail_debug_text(self.details()) + " }"@
    }

    /// The text that `Debug` writes for the error.
    pub fn debug_text(&self) -> (r: String)
        ensures
            r@ == self.debug_text_of(),
    {
        proof {
            use_type_invariant(self);
        }
        let mut out = String::from_str("CustomApiError { status: ");
        out.append(decimal_string(self.status as u64).as_str());
        out.append(", detail: ");
        match &self.detail {
            Detail::Empty => {
                out.append("Empty");
            },
            Detail::Single(msg) => {
                out.append("Single(");
                out.append(debug_str(msg.as_str()).as_str());
                out.append(")");
            },
            Detail::Multiple(msgs) => {
                out.append("Multiple([");
                out.append(debug_list(msgs).as_str());
                out.append("])");
            },
        }
        out.append(" }");
        out
    }

    /// The details, in order, as the body of the response lists them.
    pub fn details_vec(&self) -> (r: Vec<String>)
        ensures
            string_views(r@) == self.details(),
    {
        match &self.detail {
            Detail::Empty => Vec::new(),
            Detail::Single(msg) => {
                let mut v: Vec<String> = Vec::new();
                v.push(msg.clone());
                proof {
                    assert(string_views(v@) =~= seq![msg@]);
                }
                v
            },
            Detail::Multiple(msgs) => {
                let mut v: Vec<String> = Vec::new();
                let n: usize = msgs.len();
                let mut i: usize = 0;
                while i < n
                    invariant
                        n == msgs@.len(),
                        i <= n,
                        string_views(v@) =~= string_views(msgs@).take(i as int),
                    decreases n - i,
                {
                    let ghost prev = v@;
                    let item = msgs[i].clone();
                    v.push(item);
                    proof {
                        assert(string_views(v@) =~= string_views(prev).push(msgs@[i as int]@));
                        assert(string_views(msgs@).take(i + 1) =~= string_views(msgs@).take(
                            i as int,
                        ).push(msgs@[i as int]@));
                    }
                    i = i + 1;
                }
                proof {
                    assert(string_views(msgs@).take(n as int) =~= string_views(msgs@));
                }
                v
            },
        }
    }

    /// The text of the error: its details joined by `", "`.
    pub fn message(&self) -> (r: String)
        ensures
            r@ == join(self.details(), ", "@),
    {
        let parts = self.details_vec();
        join_strings(&parts, ", ")
    }

    /// The HTTP status of the error.
    pub fn status(&self) -> (r: u16)
        ensures
            r == self.status_code(),
    {
        self.status
    }
}

/// How `Debug` writes a list of details: nothing, one, or several of them.
pub open spec fn detail_debug_text(details: Seq<Seq<char>>) -> Seq<char> {
    if details.len() == 0 {
        "Empty"@
    } else if details.len() == 1 {
        "Single("@ + str_debug_text(details[0]) + ")"@
    } else {
        "Multiple(["@ + join(quoted(details), ", "@) + "])"@
    }
}

/// Each text as `Debug` writes it.
pub open spec fn quoted(texts: Seq<Seq<char>>) -> Seq<Seq<char>> {
    texts.map_values(|t: Seq<char>| str_debug_text(t))
}

/// The `Debug` texts of `v`, joined by `", "`.
fn debug_list(v: &Vec<String>) -> (r: String)
    ensures
        r@ == join(quoted(string_views(v@)), ", "@),
{
    let ghost items = quoted(string_views(v@));
    let mut out = String::new();
    let n: usize = v.len();
    let mut i: usize = 0;
    while i < n
        invariant
            n == v@.len(),
            items == quoted(string_views(v@)),
            i <= n,
            out@ == join(items.take(i as int), ", "@),
        decreases n - i,
    {
        proof {
            assert(items.take(i + 1).drop_last() =~= items.take(i as int));
            assert(items.take(i + 1).last() == str_debug_text(v@[i as int]@));
        }
        if i > 0 {
            out.append(", ");
        }
        out.append(debug_str(v[i].as_str()).as_str());
        i = i + 1;
    }
    proof {
        assert(items.take(n as int) =~= items);
    }
    out
}

/// Why a request could not be served while the registry is read-only.
pub const READ_ONLY_DETAIL: &'static str = "crates.io is currently in read-only mode for maintenance. \
                      Please try again later.";

/// The text of a read-only-mode error.
pub const READ_ONLY_MESSAGE: &'static str = "Tried to write in read only mode";

/// What a client is told who presents a token in an old, insecure format.
pub const TOKEN_FORMAT_ERROR: &'static str =
    "The given API token does not match the format used by crates.io. \
    \
    Tokens generated before 2020-07-14 were generated with an insecure \
    random number generator, and have been revoked. You can generate a \
    new token at https://crates.io/me. \
    \
    For more information please see \
    https://blog.rust-lang.org/2020/07/14/crates-io-security-advisory.html. \
    We apologize for any inconvenience.";

/// The cause recorded in the request log beside an insecure-token error.
pub const INSECURE_TOKEN_CAUSE: &'static str = "insecurely generated, revoked 2020-07";

/// The registry is in read-only mode.
#[derive(Debug, Clone, Copy)]
pub struct ReadOnlyMode;

/// The token presented was generated by the old, insecure generator and has been revoked.
#[derive(Debug, Clone, Copy)]
pub struct InsecurelyGeneratedTokenRevoked;

/// A rate limit was hit on an action, and another attempt is allowed at
/// `retry_after`. `action` is the name of the limited action as `Debug` writes it (the
/// variant's name, such as `PublishNew`), and `action_message` is the sentence that
/// tells the client which action is limited.
#[derive(Debug)]
pub struct TooManyRequests {
    pub action: String,
    pub action_message: String,
    pub retry_after: Timestamp,
}

/// The text of a rate-limit error.
pub const TOO_MANY_REQUESTS_MESSAGE: &'static str = "Too many requests";

pub const RETRY_AFTER_TEXT: &'static str = ". Please try again after ";

pub const RAISE_LIMIT_TEXT: &'static str = " or email help@crates.io to have your limit increased.";

/// How an instant is written in HTTP headers, as `NaiveDateTime::format` renders it
/// with the pattern `%a, %d %b %Y %H:%M:%S GMT` (for instance
/// `Sun, 06 Nov 1994 08:49:37 GMT`).
pub uninterp spec fn http_date_text(t: Timestamp) -> Seq<char>;

/// The earliest and the latest instant that `chrono` can represent, in microseconds:
/// the start of January 1st of the year -262143 and the last microsecond of
/// December 31st, 262142. A rate-limit error names an instant in this range.
pub const EARLIEST_RETRY: i64 = -8_334_601_228_800_000_000;
pub const LATEST_RETRY: i64 = 8_210_266_876_799_999_999;

/// `DateTime::from_timestamp_micros`, then `naive_utc` and
/// `format("%a, %d %b %Y %H:%M:%S GMT")` of `chrono`, written to a string. The
/// instant lies within `chrono`'s range, where the conversion succeeds.
#[verifier::external_body]
fn format_http_date(t: Timestamp) -> (r: String)
    requires
        EARLIEST_RETRY <= t <= LATEST_RETRY,
    ensures
        r@ == http_date_text(t),
{
    chrono::DateTime::from_timestamp_micros(t).unwrap().naive_utc().format(
        "%a, %d %b %Y %H:%M:%S GMT",
    ).to_string()
}

/// How `Debug` writes the instant `t` as a `chrono::NaiveDateTime` (for instance
/// `1994-11-06T08:49:37`).
pub uninterp spec fn naive_datetime_debug_text(t: Timestamp) -> Seq<char>;

/// `DateTime::from_timestamp_micros`, then `naive_utc` of `chrono`, written by
/// `<NaiveDateTime as Debug>::fmt`. The instant lies within `chrono`'s range, where the
/// conversion succeeds.
#[verifier::external_body]
fn debug_naive_datetime(t: Timestamp) -> (r: String)
    requires
        EARLIEST_RETRY <= t <= LATEST_RETRY,
    ensures
        r@ == naive_datetime_debug_text(t),
{
    format!("{:?}", chrono::DateTime::from_timestamp_micros(t).unwrap().naive_utc())
}

impl TooManyRequests {
    /// The detail of the answer.
    pub open spec fn detail_text(self) -> Seq<char> {
        self.action_message@ + RETRY_AFTER_TEXT@ + http_date_text(self.retry_after)
            + RAISE_LIMIT_TEXT@
    }
}

/// Any error that a request handler answers with.
#[derive(Debug)]
pub enum AppError {
    Custom(CustomApiError),
    ReadOnlyMode(ReadOnlyMode),
    InsecurelyGeneratedTokenRevoked(InsecurelyGeneratedTokenRevoked),
    TooManyRequests(TooManyRequests),
}

/// An error on the heap, as handlers return it.
pub type BoxedAppError = Box<AppError>;

/// What an error is answered with: a status, the details of the JSON body, the
/// cause that the request log records, if any, and the `Retry-After` header, if any.
#[derive(Debug)]
pub struct ErrorResponse {
    pub status: u16,
    pub details: Vec<String>,
    pub cause: Option<String>,
    pub retry_after: Option<String>,
}

impl AppError {
    /// The status that the error is answered with.
    pub open spec fn status_of(self) -> u16 {
        match self {
            AppError::Custom(e) => e.status_code(),
            AppError::ReadOnlyMode(_) => SERVICE_UNAVAILABLE,
            AppError::InsecurelyGeneratedTokenRevoked(_) => UNAUTHORIZED,
            AppError::TooManyRequests(_) => TOO_MANY_REQUESTS,
        }
    }

    /// Whether the error can be answered: the instant a rate-limit error names lies
    /// within the range that can be written as a date.
    pub open spec fn answerable(self) -> bool {
        self matches AppError::TooManyRequests(e) ==> EARLIEST_RETRY <= e.retry_after <= LATEST_RETRY
    }

    /// Whether the error can be answered, as `answerable` says.
    pub fn is_answerable(&self) -> (r: bool)
        ensures
            r == self.answerable(),
    {
        match self {
            AppError::TooManyRequests(e) => EARLIEST_RETRY <= e.retry_after && e.retry_after
                <= LATEST_RETRY,
            _ => true,
        }
    }

    /// The `Retry-After` header of the answer.
    pub open spec fn retry_after_of(self) -> Option<Seq<char>> {
        match self {
            AppError::TooManyRequests(e) => Some(http_date_text(e.retry_after)),
            _ => None,
        }
    }

    /// The details that the body of the answer lists.
    pub open spec fn details_of(self) -> Seq<Seq<char>> {
        match self {
            AppError::Custom(e) => e.details(),
            AppError::ReadOnlyMode(_) => seq![READ_ONLY_DETAIL@],
            AppError::InsecurelyGeneratedTokenRevoked(_) => seq![TOKEN_FORMAT_ERROR@],
            AppError::TooManyRequests(e) => seq![e.detail_text()],
        }
    }

    /// The cause that the request log records.
    pub open spec fn cause_of(self) -> Option<Seq<char>> {
        match self {
            AppError::InsecurelyGeneratedTokenRevoked(_) => Some(INSECURE_TOKEN_CAUSE@),
            _ => None,
        }
    }

    /// The text of the error.
    pub open spec fn message_of(self) -> Seq<char> {
        match self {
            AppError::Custom(e) => join(e.details(), ", "@),
            AppError::ReadOnlyMode(_) => READ_ONLY_MESSAGE@,
            AppError::InsecurelyGeneratedTokenRevoked(_) => TOKEN_FORMAT_ERROR@,
            AppError::TooManyRequests(_) => TOO_MANY_REQUESTS_MESSAGE@,
        }
    }

    /// How `Debug` writes the error: as the error value it holds.
    pub open spec fn debug_text_of(self) -> Seq<char> {
        match self {
            AppError::Custom(e) => e.debug_text_of(),
            AppError::ReadOnlyMode(_) => "ReadOnlyMode"@,
            AppError::InsecurelyGeneratedTokenRevoked(_) => "InsecurelyGeneratedTokenRevoked"@,
            AppError::TooManyRequests(e) => "TooManyRequests { action: "@ + e.action@
                + ", retry_after: "@ + naive_datetime_debug_text(e.retry_after) + " }"@,
        }
    }

    /// The text that `Debug` writes for the error.
    pub fn debug_text(&self) -> (r: String)
        requires
            self.answerable(),
        ensures
            r@ == self.debug_text_of(),
    {
        match self {
            AppError::Custom(e) => e.debug_text(),
            AppError::ReadOnlyMode(_) => String::from_str("ReadOnlyMode"),
            AppError::InsecurelyGeneratedTokenRevoked(_) => String::from_str(
                "InsecurelyGeneratedTokenRevoked",
            ),
            AppError::TooManyRequests(e) => {
                let mut out = String::from_str("TooManyRequests { action: ");
                out.append(e.action.as_str());
                out.append(", retry_after: ");
                out.append(debug_naive_datetime(e.retry_after).as_str());
                out.append(" }");
                out
            },
        }
    }

    /// The answer to the request that failed with this error.
    pub fn response(&self) -> (r: ErrorResponse)
        requires
            self.answerable(),
        ensures
            r.status == self.status_of(),
            string_views(r.details@) == self.details_of(),
            r.cause is Some == self.cause_of() is Some,
            r.cause matches Some(c) ==> Some(c@) == self.cause_of(),
            r.retry_after is Some == self.retry_after_of() is Some,
            r.retry_after matches Some(h) ==> Some(h@) == self.retry_after_of(),
    {
        match self {
            AppError::Custom(e) => ErrorResponse {
                status: e.status(),
                details: e.details_vec(),
                cause: None,
                retry_after: None,
            },
            AppError::ReadOnlyMode(_) => ErrorResponse {
                status: SERVICE_UNAVAILABLE,
                details: single_detail(READ_ONLY_DETAIL),
                cause: None,
                retry_after: None,
            },
            AppError::InsecurelyGeneratedTokenRevoked(_) => ErrorResponse {
                status: UNAUTHORIZED,
                details: single_detail(TOKEN_FORMAT_ERROR),
                cause: Some(INSECURE_TOKEN_CAUSE.to_owned()),
                retry_after: None,
            },
            AppError::TooManyRequests(e) => {
                let date = format_http_date(e.retry_after);
                let detail = String::from_str(e.action_message.as_str()).concat(
                    RETRY_AFTER_TEXT,
                ).concat(date.as_str()).concat(RAISE_LIMIT_TEXT);
                ErrorResponse {
                    status: TOO_MANY_REQUESTS,
                    details: single_detail(detail.as_str()),
                    cause: None,
                    retry_after: Some(date),
                }
            },
        }
    }

    /// The text of the error, as its `Display` prints it.
    pub fn message(&self) -> (r: String)
        ensures
            r@ == self.message_of(),
    {
        match self {
            AppError::Custom(e) => e.message(),
            AppError::ReadOnlyMode(_) => READ_ONLY_MESSAGE.to_owned(),
            AppError::InsecurelyGeneratedTokenRevoked(_) => TOKEN_FORMAT_ERROR.to_owned(),
            AppError::TooManyRequests(_) => TOO_MANY_REQUESTS_MESSAGE.to_owned(),
        }
    }

    /// The HTTP status of the error.
    pub fn status(&self) -> (r: u16)
        ensures
            r == self.status_of(),
    {
        match self {
            AppError::Custom(e) => e.status(),
            AppError::ReadOnlyMode(_) => SERVICE_UNAVAILABLE,
            AppError::InsecurelyGeneratedTokenRevoked(_) => UNAUTHORIZED,
            AppError::TooManyRequests(_) => TOO_MANY_REQUESTS,
        }
    }
}

/// A body with exactly one detail.
fn single_detail(detail: &str) -> (r: Vec<String>)
    ensures
        string_views(r@) == seq![detail@],
{
    let mut v: Vec<String> = Vec::new();
    v.push(detail.to_owned());
    proof {
        assert(string_views(v@) =~= seq![detail@]);
    }
    v
}

impl CustomApiError {
    /// The error on the heap, as a handler returns it.
    pub fn into_boxed(self) -> (r: BoxedAppError)
        ensures
            *r == AppError::Custom(self),
    {
        Box::new(AppError::Custom(self))
    }
}

impl InsecurelyGeneratedTokenRevoked {
    /// The error on the heap, as a handler returns it.
    pub fn boxed() -> (r: BoxedAppError)
        ensures
            *r == AppError::InsecurelyGeneratedTokenRevoked(InsecurelyGeneratedTokenRevoked),
    {
        Box::new(AppError::InsecurelyGeneratedTokenRevoked(InsecurelyGeneratedTokenRevoked))
    }
}

/// The text of an error grows with each detail pushed: the first detail is the whole
/// text, and each later one follows the earlier text after `", "`.
pub proof fn lemma_message_after_push(before: CustomApiError, after: CustomApiError, detail: Seq<char>)
    requires
        after.details() == before.details().push(detail),
    ensures
        before.details().len() == 0 ==> join(after.details(), ", "@) == detail,
        before.details().len() > 0 ==> join(after.details(), ", "@) == join(before.details(), ", "@)
            + ", "@ + detail,
{
    lemma_join_push(before.details(), detail, ", "@);
    if before.details().len() == 0 {
        assert(before.details().push(detail) =~= seq![detail]);
    }
}

/// An error made by `new` and then given the details `ds` by successive pushes
/// (`states[k]` is the error after the first `k` of them) holds exactly `ds`, in push
/// order, keeps its status, and its text is `ds` joined by `", "`.
pub proof fn lemma_pushes(states: Seq<CustomApiError>, ds: Seq<Seq<char>>)
    requires
        states.len() == ds.len() + 1,
        states[0].details() == Seq::<Seq<char>>::empty(),
        forall|k: int|
            0 <= k < ds.len() ==> (#[trigger] states[k + 1]).details() == states[k].details().push(
                ds[k],
            ) && states[k + 1].status_code() == states[k].status_code(),
    ensures
        states.last().details() == ds,
        states.last().status_code() == states[0].status_code(),
        join(states.last().details(), ", "@) == join(ds, ", "@),
        (states.last().details().len() == 0) == (ds.len() == 0),
        forall|k: int| 0 <= k <= ds.len() ==> #[trigger] states[k].details() == ds.take(k),
{
    assert forall|k: int| 0 <= k <= ds.len() implies #[trigger] states[k].details() == ds.take(
        k,
    ) by {
        lemma_pushes_prefix(states, ds, k);
    }
    lemma_pushes_prefix(states, ds, ds.len() as int);
    assert(ds.take(ds.len() as int) =~= ds);
}

/// After the first `k` pushes the error holds the first `k` details.
proof fn lemma_pushes_prefix(states: Seq<CustomApiError>, ds: Seq<Seq<char>>, k: int)
    requires
        0 <= k <= ds.len(),
        states.len() == ds.len() + 1,
        states[0].details() == Seq::<Seq<char>>::empty(),
        forall|j: int|
            0 <= j < ds.len() ==> (#[trigger] states[j + 1]).details() == states[j].details().push(
                ds[j],
            ) && states[j + 1].status_code() == states[j].status_code(),
    ensures
        states[k].details() == ds.take(k),
        states[k].status_code() == states[0].status_code(),
    decreases k,
{
    if k == 0 {
        assert(ds.take(0) =~= Seq::<Seq<char>>::empty());
    } else {
        lemma_pushes_prefix(states, ds, k - 1);
        assert(states[(k - 1) + 1].details() == states[k - 1].details().push(ds[k - 1]));
        assert(ds.take(k) =~= ds.take(k - 1).push(ds[k - 1]));
    }
}

/// Whether `e` is an error with the given status and the single detail `detail`.
pub open spec fn is_custom(e: AppError, status: u16, detail: Seq<char>) -> bool {
    &&& e is Custom
    &&& e.status_of() == status
    &&& e.details_of() == seq![detail]
}

/// An error with the given status and a single detail.
pub fn custom(status: u16, detail: &str) -> (r: BoxedAppError)
    ensures
        is_custom(*r, status, detail@),
{
    CustomApiError::single(status, detail).into_boxed()
}

/// A 400 error with the given detail.
pub fn bad_request(detail: &str) -> (r: BoxedAppError)
    ensures
        is_custom(*r, BAD_REQUEST, detail@),
{
    custom(BAD_REQUEST, detail)
}

/// A 409 error with the given detail.
pub fn conflict(detail: &str) -> (r: BoxedAppError)
    ensures
        is_custom(*r, CONFLICT, detail@),
{
    custom(CONFLICT, detail)
}

/// The text of the 404 error for a crate that does not exist.
pub open spec fn crate_not_found_detail(name: Seq<char>) -> Seq<char> {
    "crate `"@ + name + "` does not exist"@
}

/// A 404 error saying that the named crate does not exist.
pub fn crate_not_found(name: &str) -> (r: BoxedAppError)
    ensures
        is_custom(*r, NOT_FOUND, crate_not_found_detail(name@)),
{
    let mut text = String::from_str("crate `");
    text.append(name);
    text.append("` does not exist");
    custom(NOT_FOUND, text.as_str())
}

} // verus!
