//! Whether a crate may be deleted by the user who asks.
//!
//! A crate may be deleted by one of its user owners (team owners may not) while it is
//! less than 72 hours old. After that it may only be deleted when all of these hold:
//! it has a single owner, it has been downloaded fewer than 100 times for each month it
//! has been published, and no other crate depends on it.
//!
//! The facts that the rule reads come from the database, and two of them are only
//! looked up when the rule needs them. [`next_step`] says, for the facts gathered so
//! far, whether to look up the next one, to delete the crate, or to refuse.

use vstd::prelude::*;
use crate::errors::{custom, is_custom, BoxedAppError, FORBIDDEN, UNPROCESSABLE_ENTITY};
use crate::time::{is_clock_reading, read_clock, whole_days, Timestamp, MICROS_PER_DAY, MICROS_PER_HOUR};

verus! {

/// How old a crate may get before the stricter rules apply: 72 hours.
pub const DELETION_GRACE_PERIOD: i64 = 72 * MICROS_PER_HOUR;

/// How many downloads a crate may have for each month it has been published.
pub const DOWNLOADS_PER_MONTH_LIMIT: u64 = 100;

/// The length of a month, in days, when counting how long a crate has been published.
pub const DAYS_PER_MONTH: u64 = 30;

pub const TEAM_OWNER_MESSAGE: &'static str = "team members don't have permission to delete crates";

pub const NOT_OWNER_MESSAGE: &'static str = "only owners have permission to delete crates";

pub const TOO_MANY_OWNERS_MESSAGE: &'static str =
    "only crates with a single owner can be deleted after 72 hours";

pub const TOO_MANY_DOWNLOADS_MESSAGE: &'static str =
    "only crates with less than 100 downloads per month can be deleted after 72 hours";

pub const REVERSE_DEPENDENCY_MESSAGE: &'static str =
    "only crates without reverse dependencies can be deleted after 72 hours";

/// The rights a user holds on a crate.
#[derive(Debug, Clone, Copy, PartialEq, Eq, Structural)]
pub enum Rights {
    /// The user owns the crate.
    Full,
    /// The user may publish through a team that owns the crate.
    Publish,
    /// The user holds no right on the crate.
    NoRights,
}

/// The facts about a deletion request gathered so far.
#[derive(Debug)]
pub struct DeletionCheck {
    /// The rights of the user who asks.
    pub rights: Rights,
    /// When the crate was created.
    pub created_at: Timestamp,
    /// When the request is decided.
    pub now: Timestamp,
    /// How many owners the crate has.
    pub owner_count: usize,
    /// The download count of the crate, once looked up: `Some(None)` when the
    /// database holds no count for it.
    pub downloads: Option<Option<i64>>,
    /// Whether another crate depends on this one, once looked up.
    pub has_reverse_dependency: Option<bool>,
}

/// What to do next with a deletion request.
#[derive(Debug)]
pub enum DeletionStep {
    /// Look up the download count and record it in `downloads`.
    FetchDownloads,
    /// Look up whether a reverse dependency exists and record it.
    FetchReverseDependency,
    /// Delete the crate.
    Delete,
    /// Refuse the request with this error.
    Refuse(BoxedAppError),
}

/// The decision of the rule, for the facts gathered so far.
pub enum DeletionDecision {
    FetchDownloads,
    FetchReverseDependency,
    Delete,
    Refuse(u16, Seq<char>),
}

/// Whether a crate created at `created_at` is past the grace period at `now`.
pub open spec fn is_old(created_at: int, now: int) -> bool {
    created_at <= now - DELETION_GRACE_PERIOD
}

/// How many whole days lie between `created_at` and `now`.
pub open spec fn age_in_days(created_at: int, now: int) -> int {
    whole_days(now - created_at)
}

/// How many months a crate has been published, counting a started month as a whole one.
pub open spec fn months_published(days: nat) -> nat {
    (days / (DAYS_PER_MONTH as nat) + if days % (DAYS_PER_MONTH as nat) != 0 { 1nat } else { 0nat }) as nat
}

/// How many downloads a crate of the given age may have and still be deleted.
pub open spec fn max_downloads(days: nat) -> nat {
    (DOWNLOADS_PER_MONTH_LIMIT as nat) * months_published(days)
}

/// The download count as the rule reads it: none recorded counts as zero, and a
/// negative count as the largest one.
pub open spec fn download_count(downloads: Option<i64>) -> nat {
    match downloads {
        Some(n) => if n >= 0 { n as nat } else { u64::MAX as nat },
        None => 0,
    }
}

/// The rule, step by step.
pub open spec fn deletion_decision(c: DeletionCheck) -> DeletionDecision {
    if c.rights == Rights::Publish {
        DeletionDecision::Refuse(FORBIDDEN, TEAM_OWNER_MESSAGE@)
    } else if c.rights == Rights::NoRights {
        DeletionDecision::Refuse(FORBIDDEN, NOT_OWNER_MESSAGE@)
    } else if !is_old(c.created_at as int, c.now as int) {
        DeletionDecision::Delete
    } else if c.owner_count > 1 {
        DeletionDecision::Refuse(UNPROCESSABLE_ENTITY, TOO_MANY_OWNERS_MESSAGE@)
    } else {
        match c.downloads {
            None => DeletionDecision::FetchDownloads,
            Some(d) => if download_count(d) > max_downloads(
                age_in_days(c.created_at as int, c.now as int) as nat,
            ) {
                DeletionDecision::Refuse(UNPROCESSABLE_ENTITY, TOO_MANY_DOWNLOADS_MESSAGE@)
            } else {
                match c.has_reverse_dependency {
                    None => DeletionDecision::FetchReverseDependency,
                    Some(true) => DeletionDecision::Refuse(
                        UNPROCESSABLE_ENTITY,
                        REVERSE_DEPENDENCY_MESSAGE@,
                    ),
                    Some(false) => DeletionDecision::Delete,
                }
            },
        }
    }
}

/// Whether `step` carries out `decision`.
pub open spec fn step_follows(step: DeletionStep, decision: DeletionDecision) -> bool {
    match decision {
        DeletionDecision::FetchDownloads => step is FetchDownloads,
        DeletionDecision::FetchReverseDependency => step is FetchReverseDependency,
        DeletionDecision::Delete => step is Delete,
        DeletionDecision::Refuse(status, detail) => step matches DeletionStep::Refuse(e)
            && is_custom(*e, status, detail),
    }
}

/// Whether the crate may be deleted, once every fact is known.
pub open spec fn may_delete(
    rights: Rights,
    created_at: int,
    now: int,
    owner_count: int,
    downloads: Option<i64>,
    has_reverse_dependency: bool,
) -> bool {
    &&& rights == Rights::Full
    &&& is_old(created_at, now) ==> {
        &&& owner_count <= 1
        &&& download_count(downloads) <= max_downloads(age_in_days(created_at, now) as nat)
        &&& !has_reverse_dependency
    }
}

/// `bigdecimal::ToPrimitive::to_u64` on an `i64` (from `num-traits`): the value
/// itself when it is not negative, nothing otherwise.
#[verifier::external_body]
fn i64_to_u64(v: i64) -> (r: Option<u64>)
    ensures
        r == (if v >= 0 { Some(v as u64) } else { None::<u64> }),
{
    bigdecimal::ToPrimitive::to_u64(&v)
}

impl DeletionCheck {
    /// A check for a request decided now, before any download count or reverse
    /// dependency has been looked up. The clock is read for `now`.
    pub fn new(rights: Rights, created_at: Timestamp, owner_count: usize) -> (r: Self)
        ensures
            r.rights == rights,
            r.created_at == created_at,
            r.owner_count == owner_count,
            is_clock_reading(r.now),
            r.now >= 0,
            r.downloads is None,
            r.has_reverse_dependency is None,
    {
        DeletionCheck {
            rights,
            created_at,
            now: read_clock(),
            owner_count,
            downloads: None,
            has_reverse_dependency: None,
        }
    }
}

/// The months, counted as the rule counts them, for a crate `days` days old.
fn months_for(days: u64) -> (r: u64)
    ensures
        r == months_published(days as nat),
{
    days / DAYS_PER_MONTH + if days % DAYS_PER_MONTH != 0 { 1 } else { 0 }
}

/// What to do next with the request, given the facts gathered so far.
pub fn next_step(check: &DeletionCheck) -> (r: DeletionStep)
    ensures
        step_follows(r, deletion_decision(*check)),
{
    match check.rights {
        Rights::Publish => {
            return DeletionStep::Refuse(custom(FORBIDDEN, TEAM_OWNER_MESSAGE));
        },
        Rights::NoRights => {
            return DeletionStep::Refuse(custom(FORBIDDEN, NOT_OWNER_MESSAGE));
        },
        Rights::Full => {},
    }
    let cutoff: i128 = check.now as i128 - DELETION_GRACE_PERIOD as i128;
    if !((check.created_at as i128) <= cutoff) {
        return DeletionStep::Delete;
    }
    if check.owner_count > 1 {
        return DeletionStep::Refuse(custom(UNPROCESSABLE_ENTITY, TOO_MANY_OWNERS_MESSAGE));
    }
    let age: i128 = check.now as i128 - check.created_at as i128;
    let age_micros: u128 = age as u128;
    let whole: u128 = age_micros / (MICROS_PER_DAY as u128);
    proof {
        assert(age_micros <= 0x1_0000_0000_0000_0000u128);
        assert(whole <= 0x1_0000_0000_0000_0000u128 / 86_400_000_000u128) by (nonlinear_arith)
            requires
                age_micros <= 0x1_0000_0000_0000_0000u128,
                whole == age_micros / 86_400_000_000u128,
        ;
    }
    let days_signed: i64 = whole as i64;
    let days: u64 = match i64_to_u64(days_signed) {
        Some(d) => d,
        None => u64::MAX,
    };
    let months: u64 = months_for(days);
    let max: u64 = DOWNLOADS_PER_MONTH_LIMIT * months;
    let downloads = match check.downloads {
        None => {
            return DeletionStep::FetchDownloads;
        },
        Some(d) => d,
    };
    let raw: i64 = match downloads {
        Some(n) => n,
        None => 0,
    };
    let count: u64 = match i64_to_u64(raw) {
        Some(c) => c,
        None => u64::MAX,
    };
    if count > max {
        return DeletionStep::Refuse(custom(UNPROCESSABLE_ENTITY, TOO_MANY_DOWNLOADS_MESSAGE));
    }
    match check.has_reverse_dependency {
        None => DeletionStep::FetchReverseDependency,
        Some(true) => DeletionStep::Refuse(custom(UNPROCESSABLE_ENTITY, REVERSE_DEPENDENCY_MESSAGE)),
        Some(false) => DeletionStep::Delete,
    }
}

/// Once the download count and the reverse dependencies are known, the rule either
/// deletes the crate or refuses, and it deletes it exactly when [`may_delete`] holds:
/// an owner may delete a crate younger than 72 hours; an older one only when it has a
/// single owner, at most 100 downloads for each started month, and no reverse
/// dependency.
pub proof fn lemma_decision_with_all_facts(c: DeletionCheck)
    requires
        c.downloads is Some,
        c.has_reverse_dependency is Some,
    ensures
        deletion_decision(c) is Delete || deletion_decision(c) is Refuse,
        (deletion_decision(c) is Delete) == may_delete(
            c.rights,
            c.created_at as int,
            c.now as int,
            c.owner_count as int,
            c.downloads->0,
            c.has_reverse_dependency->0,
        ),
{
}

/// A fact is only looked up when the rule needs it: the download count only for an
/// owner's request on an old crate with a single owner, the reverse dependencies only
/// when the download count is within the limit as well.
pub proof fn lemma_lookups_only_when_needed(c: DeletionCheck)
    ensures
        deletion_decision(c) is FetchDownloads ==> {
            &&& c.rights == Rights::Full
            &&& is_old(c.created_at as int, c.now as int)
            &&& c.owner_count <= 1
            &&& c.downloads is None
        },
        deletion_decision(c) is FetchReverseDependency ==> {
            &&& c.rights == Rights::Full
            &&& is_old(c.created_at as int, c.now as int)
            &&& c.owner_count <= 1
            &&& c.downloads is Some
            &&& download_count(c.downloads->0) <= max_downloads(
                age_in_days(c.created_at as int, c.now as int) as nat,
            )
            &&& c.has_reverse_dependency is None
        },
{
}

/// A started month counts as a whole one: a crate `days` days old has been published
/// for the least number of 30-day months that covers its age, and for none on the day
/// it was created.
pub proof fn lemma_months_published(days: nat)
    ensures
        months_published(days) * DAYS_PER_MONTH >= days,
        days > 0 ==> (months_published(days) - 1) * DAYS_PER_MONTH < days,
        days == 0 ==> months_published(days) == 0,
{
    let q: int = days as int / 30;
    let r: int = days as int % 30;
    assert(days == 30 * q + r && 0 <= r < 30) by (nonlinear_arith)
        requires
            q == days as int / 30,
            r == days as int % 30,
    ;
}

/// Past the grace period, an owner's request on a crate with a single owner and a
/// known download count is refused for its downloads exactly when the count exceeds
/// 100 for each started month of the crate's age: `months` is the number of 30-day
/// months that covers the age in whole days with less than a month to spare. Within
/// that limit the rule goes on to the reverse dependencies.
pub proof fn lemma_download_limit(c: DeletionCheck, months: nat)
    requires
        c.rights == Rights::Full,
        is_old(c.created_at as int, c.now as int),
        c.owner_count <= 1,
        c.downloads is Some,
        age_in_days(c.created_at as int, c.now as int) <= months * DAYS_PER_MONTH,
        months * DAYS_PER_MONTH < age_in_days(c.created_at as int, c.now as int) + DAYS_PER_MONTH,
    ensures
        download_count(c.downloads->0) > DOWNLOADS_PER_MONTH_LIMIT * months
            ==> deletion_decision(c) == DeletionDecision::Refuse(
            UNPROCESSABLE_ENTITY,
            TOO_MANY_DOWNLOADS_MESSAGE@,
        ),
        download_count(c.downloads->0) <= DOWNLOADS_PER_MONTH_LIMIT * months
            ==> deletion_decision(c) == match c.has_reverse_dependency {
            None => DeletionDecision::FetchReverseDependency,
            Some(true) => DeletionDecision::Refuse(UNPROCESSABLE_ENTITY, REVERSE_DEPENDENCY_MESSAGE@),
            Some(false) => DeletionDecision::Delete,
        },
{
    let days: nat = age_in_days(c.created_at as int, c.now as int) as nat;
    assert(age_in_days(c.created_at as int, c.now as int) >= 0) by (nonlinear_arith)
        requires
            c.now - c.created_at >= 0,
            age_in_days(c.created_at as int, c.now as int) == (c.now - c.created_at) / 86_400_000_000int,
    ;
    lemma_months_published(days);
    let m: int = months_published(days) as int;
    assert(m == months) by (nonlinear_arith)
        requires
            m * 30 >= days,
            days > 0 ==> (m - 1) * 30 < days,
            days == 0 ==> m == 0,
            days <= months * 30,
            months * 30 < days + 30,
            m >= 0,
    ;
}

/// Once the rule has deleted or refused, learning more facts does not change its
/// decision: a check `d` that agrees with `c` on everything `c` knows decides alike.
pub proof fn lemma_decision_is_final(c: DeletionCheck, d: DeletionCheck)
    requires
        deletion_decision(c) is Delete || deletion_decision(c) is Refuse,
        d.rights == c.rights,
        d.created_at == c.created_at,
        d.now == c.now,
        d.owner_count == c.owner_count,
        c.downloads is Some ==> d.downloads == c.downloads,
        c.has_reverse_dependency is Some ==> d.has_reverse_dependency == c.has_reverse_dependency,
    ensures
        deletion_decision(d) == deletion_decision(c),
{
}

} // verus!
