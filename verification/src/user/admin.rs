//! The administrators' view of an account, and their lock and unlock, through
//! `/users/{user}/admin` and `/users/{user}/lock`.
//!
//! An administrator's lock sets the reason and the end whatever the account held
//! before; the unlock keeps the reason and ends the lock now, so that the account
//! keeps a record of having been locked.

use vstd::prelude::*;
use crate::time::{is_clock_reading, read_clock, Timestamp};
use crate::user::lock::{lock_in_force, AccountLock, LockView};

verus! {

/// The body of an administrator's lock.
#[derive(Debug)]
pub struct LockRequest {
    pub reason: String,
    pub until: Option<Timestamp>,
}

/// The e-mail fields of the administrators' view of an account.
#[derive(Debug, Clone, Copy, PartialEq, Eq, Structural)]
pub struct EmailStatus {
    /// Whether the account's address is verified.
    pub verified: bool,
    /// Whether a verification e-mail was sent (a verified address counts as such).
    pub verification_sent: bool,
}

/// The lock fields after an administrator locks the account.
pub fn lock(request: LockRequest) -> (r: AccountLock)
    ensures
        r@ == (LockView { reason: Some(request.reason@), until: request.until }),
{
    let LockRequest { reason, until } = request;
    AccountLock { reason: Some(reason), until }
}

/// The lock fields after an administrator unlocks the account at `now`.
pub fn unlock_at(user: &AccountLock, now: Timestamp) -> (r: AccountLock)
    ensures
        r@ == (LockView { reason: user@.reason, until: Some(now) }),
{
    let reason = match &user.reason {
        Some(r) => Some(r.clone()),
        None => None,
    };
    AccountLock { reason, until: Some(now) }
}

/// The lock fields after an administrator unlocks the account now: the lock ends at
/// the instant the clock gives.
pub fn unlock(user: &AccountLock) -> (r: AccountLock)
    ensures
        r@.reason == user@.reason,
        r@.until matches Some(t) && is_clock_reading(t) && t >= 0,
{
    unlock_at(user, read_clock())
}

/// The e-mail fields of the administrators' view, from what the database holds: the
/// verification flag of the account's address, if it has one, and whether a
/// verification token was generated.
pub fn get_user(verified: Option<bool>, token_generated: bool) -> (r: EmailStatus)
    ensures
        r.verified == (verified == Some(true)),
        r.verification_sent == (verified == Some(true) || token_generated),
{
    let verified: bool = match verified {
        Some(v) => v,
        None => false,
    };
    EmailStatus { verified, verification_sent: verified || token_generated }
}

/// After an administrator unlocks an account at some instant, no lock is in force from
/// then on.
pub proof fn lemma_unlock_ends_lock(lock: LockView, at: Timestamp, now: int)
    requires
        at <= now,
    ensures
        lock_in_force(LockView { reason: lock.reason, until: Some(at) }, now) is None,
{
}

/// An administrator's lock with no end is in force at every instant, with the reason
/// given.
pub proof fn lemma_lock_without_end(reason: Seq<char>, now: int)
    ensures
        lock_in_force(LockView { reason: Some(reason), until: None }, now) == Some((reason, None::<Timestamp>)),
{
}

} // verus!
