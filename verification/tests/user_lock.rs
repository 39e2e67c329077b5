use crates_io::user::admin::{self, LockRequest};
use crates_io::user::lock::{self, AccountLock, PutRequest};

const NOW: i64 = 1_700_000_000_000_000;

fn unlocked_user() -> AccountLock {
    AccountLock { reason: None, until: None }
}

fn locked_user() -> AccountLock {
    AccountLock { reason: Some("test".to_string()), until: None }
}

#[test]
fn get_admin_unlocked() {
    assert!(lock::get(&unlocked_user()).lock.is_none());
}

#[test]
fn get_admin_locked() {
    let r = lock::get(&locked_user());
    let l = r.lock.unwrap();
    assert_eq!(l.reason, "test");
    assert_eq!(l.until, None);
}

#[test]
fn delete_admin_unlocked() {
    let e = lock::delete(&unlocked_user()).unwrap_err();
    assert_eq!(e.status(), 409);
    assert_eq!(e.message(), "user is not currently locked");
}

#[test]
fn delete_admin_locked() {
    let after = lock::delete(&locked_user()).unwrap();
    assert!(after.reason.is_none());
    assert!(lock::get(&after).lock.is_none());
}

#[test]
fn put_admin_unlocked() {
    let after = lock::put(
        &unlocked_user(),
        PutRequest { reason: "test".to_string(), until: None },
    )
    .unwrap();
    let l = lock::get(&after).lock.unwrap();
    assert_eq!(l.reason, "test");
    assert_eq!(l.until, None);
}

#[test]
fn put_admin_locked() {
    let e = lock::put(&locked_user(), PutRequest { reason: "test".to_string(), until: None })
        .unwrap_err();
    assert_eq!(e.status(), 409);
    assert_eq!(e.message(), "user is already locked");
}

#[test]
fn lock_with_an_end_lapses() {
    let user = AccountLock { reason: Some("spam".to_string()), until: Some(NOW + 10) };
    assert_eq!(lock::get_at(&user, NOW).lock.unwrap().until, Some(NOW + 10));
    assert!(lock::get_at(&user, NOW + 10).lock.is_none());
}

#[test]
fn admin_lock_and_unlock() {
    let locked = admin::lock(LockRequest { reason: "abuse".to_string(), until: None });
    assert_eq!(lock::get_at(&locked, NOW).lock.unwrap().reason, "abuse");
    let unlocked = admin::unlock_at(&locked, NOW);
    assert_eq!(unlocked.reason.as_deref(), Some("abuse"));
    assert_eq!(unlocked.until, Some(NOW));
    assert!(lock::get_at(&unlocked, NOW).lock.is_none());
    assert!(lock::get(&admin::unlock(&locked)).lock.is_none());
}

#[test]
fn admin_email_status() {
    let s = admin::get_user(None, true);
    assert!(!s.verified && s.verification_sent);
    let s = admin::get_user(Some(true), false);
    assert!(s.verified && s.verification_sent);
    let s = admin::get_user(Some(false), false);
    assert!(!s.verified && !s.verification_sent);
}
