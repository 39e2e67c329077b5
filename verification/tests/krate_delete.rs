use crates_io::errors::crate_not_found;
use crates_io::krate::delete::{next_step, DeletionCheck, DeletionStep, Rights};
use crates_io::time::MICROS_PER_HOUR;

const NOW: i64 = 1_700_000_000_000_000;

fn check(rights: Rights, hours_old: i64, owners: usize) -> DeletionCheck {
    DeletionCheck {
        rights,
        created_at: NOW - hours_old * MICROS_PER_HOUR,
        now: NOW,
        owner_count: owners,
        downloads: None,
        has_reverse_dependency: None,
    }
}

fn refusal(step: DeletionStep) -> (u16, String) {
    match step {
        DeletionStep::Refuse(e) => (e.status(), e.message()),
        other => panic!("expected a refusal, got {other:?}"),
    }
}

#[test]
fn test_happy_path_new_crate() {
    let mut c = check(Rights::Full, 71, 1);
    c.downloads = Some(Some(10_000));
    assert!(matches!(next_step(&c), DeletionStep::Delete));
    let fresh = check(Rights::Full, 71, 1);
    assert!(matches!(next_step(&fresh), DeletionStep::Delete));
}

#[test]
fn test_happy_path_old_crate() {
    let mut c = check(Rights::Full, 73, 1);
    assert!(matches!(next_step(&c), DeletionStep::FetchDownloads));
    c.downloads = Some(Some(100));
    assert!(matches!(next_step(&c), DeletionStep::FetchReverseDependency));
    c.has_reverse_dependency = Some(false);
    assert!(matches!(next_step(&c), DeletionStep::Delete));
}

#[test]
fn test_missing_crate() {
    let e = crate_not_found("foo");
    assert_eq!(e.status(), 404);
    assert_eq!(e.message(), "crate `foo` does not exist");
}

#[test]
fn test_not_owner() {
    let (status, msg) = refusal(next_step(&check(Rights::NoRights, 1, 1)));
    assert_eq!(status, 403);
    assert_eq!(msg, "only owners have permission to delete crates");
}

#[test]
fn test_team_owner() {
    let (status, msg) = refusal(next_step(&check(Rights::Publish, 1, 1)));
    assert_eq!(status, 403);
    assert_eq!(msg, "team members don't have permission to delete crates");
}

#[test]
fn test_too_many_owners() {
    let (status, msg) = refusal(next_step(&check(Rights::Full, 73, 2)));
    assert_eq!(status, 422);
    assert_eq!(msg, "only crates with a single owner can be deleted after 72 hours");
}

#[test]
fn test_too_many_downloads() {
    let mut c = check(Rights::Full, 73, 1);
    c.downloads = Some(Some(101));
    let (status, msg) = refusal(next_step(&c));
    assert_eq!(status, 422);
    assert_eq!(
        msg,
        "only crates with less than 100 downloads per month can be deleted after 72 hours"
    );
}

#[test]
fn test_rev_deps() {
    let mut c = check(Rights::Full, 73, 1);
    c.downloads = Some(Some(0));
    c.has_reverse_dependency = Some(true);
    let (status, msg) = refusal(next_step(&c));
    assert_eq!(status, 422);
    assert_eq!(msg, "only crates without reverse dependencies can be deleted after 72 hours");
}

#[test]
fn download_limit_grows_with_started_months() {
    // 31 days: two started months, so up to 200 downloads.
    let mut c = check(Rights::Full, 31 * 24, 1);
    c.downloads = Some(Some(200));
    assert!(matches!(next_step(&c), DeletionStep::FetchReverseDependency));
    c.downloads = Some(Some(201));
    assert!(matches!(next_step(&c), DeletionStep::Refuse(_)));
    // 30 days exactly: one month, 100 downloads.
    let mut d = check(Rights::Full, 30 * 24, 1);
    d.downloads = Some(Some(101));
    assert!(matches!(next_step(&d), DeletionStep::Refuse(_)));
}

#[test]
fn missing_or_negative_download_counts() {
    let mut c = check(Rights::Full, 100, 1);
    c.downloads = Some(None);
    assert!(matches!(next_step(&c), DeletionStep::FetchReverseDependency));
    c.downloads = Some(Some(-1));
    assert!(matches!(next_step(&c), DeletionStep::Refuse(_)));
}

#[test]
fn exactly_seventy_two_hours_is_old() {
    let c = check(Rights::Full, 72, 1);
    assert!(matches!(next_step(&c), DeletionStep::FetchDownloads));
}

#[test]
fn deciding_once_facts_are_known_is_stable() {
    let mut c = check(Rights::Full, 73, 2);
    assert!(matches!(next_step(&c), DeletionStep::Refuse(_)));
    c.downloads = Some(Some(0));
    c.has_reverse_dependency = Some(false);
    assert!(matches!(next_step(&c), DeletionStep::Refuse(_)));
}

#[test]
fn check_reads_the_clock() {
    let c = DeletionCheck::new(Rights::Full, 0, 1);
    assert!(c.now > 0);
    assert!(c.downloads.is_none());
    assert!(matches!(next_step(&c), DeletionStep::FetchDownloads));
}
