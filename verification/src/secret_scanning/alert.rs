//! Reports of exposed API tokens, and what becomes of the reported token.

use vstd::prelude::*;

verus! {

/// A report that an API token has been found exposed.
pub trait SecretAlert {
    /// The service that sends the report.
    spec fn alert_reporter(&self) -> Seq<char>;

    /// Where the service found the token, if it says.
    spec fn alert_source(&self) -> Option<Seq<char>>;

    /// The token as found.
    spec fn alert_token(&self) -> Seq<char>;

    /// The address at which the token was found, if the service says.
    spec fn alert_url(&self) -> Option<Seq<char>>;

    fn reporter(&self) -> (r: &str)
        ensures
            r@ == self.alert_reporter(),
    ;

    fn source(&self) -> (r: Option<&str>)
        ensures
            r is Some == self.alert_source() is Some,
            r matches Some(s) ==> s@ == self.alert_source()->0,
    ;

    fn token(&self) -> (r: &str)
        ensures
            r@ == self.alert_token(),
    ;

    fn url(&self) -> (r: Option<&str>)
        ensures
            r is Some == self.alert_url() is Some,
            r matches Some(s) ==> s@ == self.alert_url()->0,
    ;
}

/// What the registry answers the reporting service about a reported token.
#[derive(Debug, Clone, Copy, PartialEq, Eq, Structural)]
pub enum FeedbackLabel {
    /// The token was a live or revoked token of the registry.
    TruePositive,
    /// The registry knows no such token.
    FalsePositive,
}

/// What to do with a reported token: whether to revoke it, whether to tell its owner
/// by e-mail, and what to answer the reporter.
#[derive(Debug, Clone, Copy, PartialEq, Eq, Structural)]
pub struct Revocation {
    pub revoke: bool,
    pub notify: bool,
    pub label: FeedbackLabel,
}

/// The decision for a reported token, given whether the registry holds a token with
/// the reported value and, if so, whether it is already revoked (`Some(revoked)`).
pub open spec fn revocation_decision(stored: Option<bool>) -> Revocation {
    match stored {
        None => Revocation { revoke: false, notify: false, label: FeedbackLabel::FalsePositive },
        Some(true) => Revocation { revoke: false, notify: false, label: FeedbackLabel::TruePositive },
        Some(false) => Revocation { revoke: true, notify: true, label: FeedbackLabel::TruePositive },
    }
}

/// Decides what becomes of a reported token: an unknown token is a false positive; a
/// token already revoked is a true positive and nothing more is done; a live token is
/// revoked, its owner is told, and it is a true positive.
pub fn revocation_for(stored: Option<bool>) -> (r: Revocation)
    ensures
        r == revocation_decision(stored),
{
    match stored {
        None => Revocation { revoke: false, notify: false, label: FeedbackLabel::FalsePositive },
        Some(true) => Revocation { revoke: false, notify: false, label: FeedbackLabel::TruePositive },
        Some(false) => Revocation { revoke: true, notify: true, label: FeedbackLabel::TruePositive },
    }
}

/// Reporting a token a second time, after it has been revoked, gives the same answer
/// and neither revokes it again nor sends another e-mail.
pub proof fn lemma_revocation_is_idempotent(stored: Option<bool>)
    requires
        revocation_decision(stored).revoke,
    ensures
        revocation_decision(Some(true)).label == revocation_decision(stored).label,
        !revocation_decision(Some(true)).revoke,
        !revocation_decision(Some(true)).notify,
{
}

/// The owner of a token is told by e-mail exactly when the token is revoked, and a token
/// is only revoked when the registry holds it unrevoked.
pub proof fn lemma_notify_exactly_on_revocation(stored: Option<bool>)
    ensures
        revocation_decision(stored).notify == revocation_decision(stored).revoke,
        revocation_decision(stored).revoke == (stored == Some(false)),
        (revocation_decision(stored).label == FeedbackLabel::TruePositive) == (stored is Some),
{
}

pub const SUBJECT_START: &'static str = "crates.io: Your API token \"";

pub const SUBJECT_END: &'static str = "\" has been revoked";

pub const BODY_AFTER_REPORTER: &'static str = " has notified us that your crates.io API token ";

pub const BODY_AFTER_TOKEN_NAME: &'static str =
    " has been exposed publicly. We have revoked this token as a precaution.\n\nPlease review your account at https://";

pub const BODY_AFTER_DOMAIN: &'static str =
    " to confirm that no unexpected changes have been made to your settings or crates.";

pub const BODY_SOURCE: &'static str = "\n\nSource type: ";

pub const BODY_URL: &'static str = "\n\nURL where the token was found: ";

pub const BODY_NO_URL: &'static str = "\n\nWe were not informed of the URL where the token was found.";

/// The subject of the e-mail about the revoked token named `token_name`.
pub open spec fn subject_text(token_name: Seq<char>) -> Seq<char> {
    SUBJECT_START@ + token_name + SUBJECT_END@
}

/// The body of the e-mail about a revoked token.
pub open spec fn body_text(
    domain: Seq<char>,
    reporter: Seq<char>,
    source: Option<Seq<char>>,
    token_name: Seq<char>,
    url: Option<Seq<char>>,
) -> Seq<char> {
    reporter + BODY_AFTER_REPORTER@ + token_name + BODY_AFTER_TOKEN_NAME@ + domain
        + BODY_AFTER_DOMAIN@ + match source {
        Some(s) => BODY_SOURCE@ + s,
        None => Seq::empty(),
    } + match url {
        Some(u) => BODY_URL@ + u,
        None => BODY_NO_URL@,
    }
}

/// How the body opens: who reported the token, the token's name, and the domain of the
/// registry where the account can be reviewed.
pub open spec fn body_opening(domain: Seq<char>, reporter: Seq<char>, token_name: Seq<char>) -> Seq<char> {
    reporter + BODY_AFTER_REPORTER@ + token_name + BODY_AFTER_TOKEN_NAME@ + domain + BODY_AFTER_DOMAIN@
}

/// The layout of the body. It opens with [`body_opening`]; when the report gave a source
/// type, the source line follows right after; it ends with the address where the token
/// was found when the report gave one, and with the note that none was given otherwise,
/// whatever the source type; and it holds nothing else.
pub proof fn lemma_body_layout(
    domain: Seq<char>,
    reporter: Seq<char>,
    source: Option<Seq<char>>,
    token_name: Seq<char>,
    url: Option<Seq<char>>,
)
    ensures
        body_opening(domain, reporter, token_name).is_prefix_of(
            body_text(domain, reporter, source, token_name, url),
        ),
        source matches Some(s) ==> (body_opening(domain, reporter, token_name) + BODY_SOURCE@
            + s).is_prefix_of(body_text(domain, reporter, source, token_name, url)),
        url matches Some(u) ==> (BODY_URL@ + u).is_suffix_of(
            body_text(domain, reporter, source, token_name, url),
        ),
        url is None ==> BODY_NO_URL@.is_suffix_of(
            body_text(domain, reporter, source, token_name, url),
        ),
        body_text(domain, reporter, source, token_name, url).len() == body_opening(
            domain,
            reporter,
            token_name,
        ).len() + match source {
            Some(s) => BODY_SOURCE@.len() + s.len(),
            None => 0,
        } + match url {
            Some(u) => BODY_URL@.len() + u.len(),
            None => BODY_NO_URL@.len(),
        },
{
    let opening = body_opening(domain, reporter, token_name);
    let src = match source {
        Some(s) => BODY_SOURCE@ + s,
        None => Seq::<char>::empty(),
    };
    let tail = match url {
        Some(u) => BODY_URL@ + u,
        None => BODY_NO_URL@,
    };
    let body = body_text(domain, reporter, source, token_name, url);
    assert(body =~= opening + src + tail);
    assert(opening =~= body.subrange(0, opening.len() as int));
    assert((opening + src) =~= body.subrange(0, (opening + src).len() as int));
    assert(tail =~= body.subrange((body.len() - tail.len()) as int, body.len() as int));
}

/// The e-mail that tells the owner of a token that it was revoked after a report.
#[derive(Debug)]
pub struct TokenExposedEmail {
    pub domain: String,
    pub reporter: String,
    pub source: Option<String>,
    pub token_name: String,
    pub url: Option<String>,
}

impl TokenExposedEmail {
    /// The e-mail about the token named `token_name`, revoked after `alert`, for the
    /// registry served at `domain`.
    pub fn new<A: SecretAlert>(domain: &str, alert: &A, token_name: &str) -> (r: Self)
        ensures
            r.domain@ == domain@,
            r.reporter@ == alert.alert_reporter(),
            r.source is Some == alert.alert_source() is Some,
            r.source matches Some(s) ==> s@ == alert.alert_source()->0,
            r.token_name@ == token_name@,
            r.url is Some == alert.alert_url() is Some,
            r.url matches Some(u) ==> u@ == alert.alert_url()->0,
    {
        let source = match alert.source() {
            Some(s) => Some(s.to_owned()),
            None => None,
        };
        let url = match alert.url() {
            Some(u) => Some(u.to_owned()),
            None => None,
        };
        TokenExposedEmail {
            domain: domain.to_owned(),
            reporter: alert.reporter().to_owned(),
            source,
            token_name: token_name.to_owned(),
            url,
        }
    }

    /// The body's view of the optional source.
    pub open spec fn source_text(&self) -> Option<Seq<char>> {
        match self.source {
            Some(s) => Some(s@),
            None => None,
        }
    }

    /// The body's view of the optional address.
    pub open spec fn url_text(&self) -> Option<Seq<char>> {
        match self.url {
            Some(u) => Some(u@),
            None => None,
        }
    }

    /// The subject line.
    pub fn subject(&self) -> (r: String)
        ensures
            r@ == subject_text(self.token_name@),
    {
        String::from_str(SUBJECT_START).concat(self.token_name.as_str()).concat(SUBJECT_END)
    }

    /// The text of the e-mail.
    pub fn body(&self) -> (r: String)
        ensures
            r@ == body_text(
                self.domain@,
                self.reporter@,
                self.source_text(),
                self.token_name@,
                self.url_text(),
            ),
    {
        let mut body = String::from_str(self.reporter.as_str());
        body.append(BODY_AFTER_REPORTER);
        body.append(self.token_name.as_str());
        body.append(BODY_AFTER_TOKEN_NAME);
        body.append(self.domain.as_str());
        body.append(BODY_AFTER_DOMAIN);
        let ghost head = body@;
        match &self.source {
            Some(s) => {
                body.append(BODY_SOURCE);
                body.append(s.as_str());
            },
            None => {},
        }
        let ghost middle = body@;
        match &self.url {
            Some(u) => {
                body.append(BODY_URL);
                body.append(u.as_str());
            },
            None => {
                body.append(BODY_NO_URL);
            },
        }
        proof {
            let src = match self.source_text() {
                Some(s) => BODY_SOURCE@ + s,
                None => Seq::<char>::empty(),
            };
            let tail = match self.url_text() {
                Some(u) => BODY_URL@ + u,
                None => BODY_NO_URL@,
            };
            assert(middle =~= head + src);
            assert(body@ =~= head + src + tail);
        }
        body
    }
}

} // verus!
