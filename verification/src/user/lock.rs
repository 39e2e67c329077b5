//! Locking an account, as administrators do through `/api/v1/users/{user}/lock`.
//!
//! An account is locked while it holds a lock reason and its lock has no end or ends
//! later than now. Locking an account that holds a reason, or unlocking one that holds
//! none, is refused with a conflict.

use vstd::prelude::*;
use crate::errors::{conflict, is_custom, BoxedAppError, CONFLICT};
use crate::time::{is_clock_reading, read_clock, Timestamp};

verus! {

pub const ALREADY_LOCKED: &'static str = "user is already locked";

pub const NOT_LOCKED: &'static str = "user is not currently locked";

/// The lock fields of an account, as the database holds them.
#[derive(Debug)]
pub struct AccountLock {
    pub reason: Option<String>,
    pub until: Option<Timestamp>,
}

/// What an account's lock fields hold.
pub struct LockView {
    pub reason: Option<Seq<char>>,
    pub until: Option<Timestamp>,
}

impl View for AccountLock {
    type V = LockView;

    open spec fn view(&self) -> LockView {
        LockView {
            reason: match self.reason {
                Some(r) => Some(r@),
                None => None,
            },
            until: self.until,
        }
    }
}

/// The lock of an account as the API shows it.
#[derive(Debug)]
pub struct EncodableUserLock {
    pub reason: String,
    pub until: Option<Timestamp>,
}

/// The answer to `GET /api/v1/users/{user}/lock`.
#[derive(Debug)]
pub struct UserLockGetResponse {
    pub lock: Option<EncodableUserLock>,
}

/// The body of `PUT /api/v1/users/{user}/lock`.
#[derive(Debug)]
pub struct PutRequest {
    pub reason: String,
    pub until: Option<Timestamp>,
}

/// The lock in force at `now`, if any: its reason and its end.
pub open spec fn lock_in_force(lock: LockView, now: int) -> Option<(Seq<char>, Option<Timestamp>)> {
    match lock.reason {
        None => None,
        Some(reason) => match lock.until {
            Some(until) => if until <= now {
                None
            } else {
                Some((reason, lock.until))
            },
            None => Some((reason, None)),
        },
    }
}

/// The lock fields after a `PUT`, or `None` when it is refused.
pub open spec fn locked(lock: LockView, reason: Seq<char>, until: Option<Timestamp>) -> Option<LockView> {
    if lock.reason is Some {
        None
    } else {
        Some(LockView { reason: Some(reason), until })
    }
}

/// The lock fields after a `DELETE`, or `None` when it is refused.
pub open spec fn unlocked(lock: LockView) -> Option<LockView> {
    if lock.reason is None {
        None
    } else {
        Some(LockView { reason: None, until: lock.until })
    }
}

/// Whether `r` is the answer that shows `shown`.
pub open spec fn response_shows(r: UserLockGetResponse, shown: Option<(Seq<char>, Option<Timestamp>)>) -> bool {
    match shown {
        None => r.lock is None,
        Some((reason, until)) => r.lock matches Some(l) && l.reason@ == reason && l.until == until,
    }
}

/// Whether `r` is the outcome `expected` of a change, refused with the conflict
/// `detail` when `expected` is `None`.
pub open spec fn change_follows(r: Result<AccountLock, BoxedAppError>, expected: Option<LockView>, detail: Seq<char>) -> bool {
    match expected {
        None => r matches Err(e) && is_custom(*e, CONFLICT, detail),
        Some(v) => r matches Ok(l) && l@ == v,
    }
}

/// The lock of `user` in force at `now`, as `GET` shows it.
pub fn get_at(user: &AccountLock, now: Timestamp) -> (r: UserLockGetResponse)
    ensures
        response_shows(r, lock_in_force(user@, now as int)),
{
    let lock = match &user.reason {
        None => None,
        Some(reason) => match user.until {
            Some(until) => if until <= now {
                None
            } else {
                Some(EncodableUserLock { reason: reason.clone(), until: user.until })
            },
            None => Some(EncodableUserLock { reason: reason.clone(), until: None }),
        },
    };
    UserLockGetResponse { lock }
}

/// The lock of `user` in force now, as `GET` shows it: the clock is read once, and the
/// response shows the lock in force at the instant it gave.
pub fn get(user: &AccountLock) -> (r: UserLockGetResponse)
    ensures
        exists|now: Timestamp|
            is_clock_reading(now) && now >= 0 && response_shows(
                r,
                #[trigger] lock_in_force(user@, now as int),
            ),
{
    let now: Timestamp = read_clock();
    let r = get_at(user, now);
    assert(is_clock_reading(now) && now >= 0 && response_shows(r, lock_in_force(user@, now as int)));
    r
}

/// `DELETE`: clears the lock reason of a locked account; the end of the lock stays.
pub fn delete(user: &AccountLock) -> (r: Result<AccountLock, BoxedAppError>)
    ensures
        change_follows(r, unlocked(user@), NOT_LOCKED@),
{
    if user.reason.is_none() {
        return Err(conflict(NOT_LOCKED));
    }
    Ok(AccountLock { reason: None, until: user.until })
}

/// `PUT`: locks an account that holds no lock reason, with the reason and end given.
pub fn put(user: &AccountLock, request: PutRequest) -> (r: Result<AccountLock, BoxedAppError>)
    ensures
        change_follows(r, locked(user@, request.reason@, request.until), ALREADY_LOCKED@),
{
    if user.reason.is_some() {
        return Err(conflict(ALREADY_LOCKED));
    }
    let PutRequest { reason, until } = request;
    Ok(AccountLock { reason: Some(reason), until })
}

/// Once an account is locked with no end, `GET` shows that lock at every instant; with
/// an end, until that end.
pub proof fn lemma_get_shows_put(lock: LockView, reason: Seq<char>, until: Option<Timestamp>, now: int)
    requires
        locked(lock, reason, until) is Some,
        until matches Some(u) ==> now < u,
    ensures
        lock_in_force(locked(lock, reason, until)->0, now) == Some((reason, until)),
{
}

/// Unlocking a locked account lifts the lock at every instant, and unlocking it again
/// is refused.
pub proof fn lemma_delete_lifts_lock(lock: LockView, now: int)
    requires
        unlocked(lock) is Some,
    ensures
        lock_in_force(unlocked(lock)->0, now) is None,
        unlocked(unlocked(lock)->0) is None,
{
}

/// Locking a locked account is refused, and so is unlocking an account with no lock.
pub proof fn lemma_conflicts(lock: LockView, reason: Seq<char>, until: Option<Timestamp>)
    ensures
        locked(lock, reason, until) is None <==> lock.reason is Some,
        unlocked(lock) is None <==> lock.reason is None,
        locked(lock, reason, until) matches Some(l) ==> locked(l, reason, until) is None,
{
}

/// Locking an unlocked account and then unlocking it leaves no lock reason, and the
/// account can be locked again.
pub proof fn lemma_lock_unlock_round_trip(lock: LockView, reason: Seq<char>, until: Option<Timestamp>)
    requires
        lock.reason is None,
    ensures
        unlocked(locked(lock, reason, until)->0) matches Some(l) && l.reason is None && l.until
            == until && locked(l, reason, until) is Some,
{
}

} // verus!
