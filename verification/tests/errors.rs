use crates_io::errors::{
    bad_request, conflict, crate_not_found, custom, AppError, CustomApiError,
    InsecurelyGeneratedTokenRevoked, ReadOnlyMode, TooManyRequests, CONFLICT, EARLIEST_RETRY, LATEST_RETRY,
    INSECURE_TOKEN_CAUSE, NOT_FOUND, TOKEN_FORMAT_ERROR,
};

#[test]
fn new_error_is_empty() {
    let e = CustomApiError::new(400);
    assert!(e.is_empty());
    assert!(!e.contains_errors());
    assert_eq!(e.status(), 400);
    assert_eq!(e.message(), "");
    assert!(e.details_vec().is_empty());
}

#[test]
fn pushed_details_keep_their_order() {
    let mut e = CustomApiError::new(422);
    e.push("first");
    assert!(e.contains_errors());
    assert_eq!(e.details_vec(), vec!["first".to_string()]);
    assert_eq!(e.message(), "first");
    e.push("second");
    e.push("third");
    assert_eq!(
        e.details_vec(),
        vec!["first".to_string(), "second".to_string(), "third".to_string()]
    );
    assert_eq!(e.message(), "first, second, third");
    assert_eq!(e.status(), 422);
}

#[test]
fn pushes_chain() {
    let mut e = CustomApiError::new(400);
    e.push("a").push("b").push("c");
    assert_eq!(e.message(), "a, b, c");
    assert_eq!(e.details_vec().len(), 3);
}

#[test]
fn debug_texts() {
    let mut e = CustomApiError::new(422);
    assert_eq!(e.debug_text(), "CustomApiError { status: 422, detail: Empty }");
    e.push("one");
    assert_eq!(e.debug_text(), "CustomApiError { status: 422, detail: Single(\"one\") }");
    e.push("two\tthree");
    assert_eq!(
        e.debug_text(),
        "CustomApiError { status: 422, detail: Multiple([\"one\", \"two\\tthree\"]) }"
    );
    assert_eq!(AppError::ReadOnlyMode(ReadOnlyMode).debug_text(), "ReadOnlyMode");
    assert_eq!(
        InsecurelyGeneratedTokenRevoked::boxed().debug_text(),
        "InsecurelyGeneratedTokenRevoked"
    );
    let t = AppError::TooManyRequests(TooManyRequests {
        action: "PublishNew".to_string(),
        action_message: "x".to_string(),
        retry_after: 784_111_777_000_000,
    });
    assert!(t.is_answerable());
    assert_eq!(
        t.debug_text(),
        "TooManyRequests { action: PublishNew, retry_after: 1994-11-06T08:49:37 }"
    );
}

#[test]
fn retry_bounds_are_chrono_range() {
    assert!(chrono::DateTime::from_timestamp_micros(EARLIEST_RETRY).is_some());
    assert!(chrono::DateTime::from_timestamp_micros(EARLIEST_RETRY - 1).is_none());
    assert!(chrono::DateTime::from_timestamp_micros(LATEST_RETRY).is_some());
    assert!(chrono::DateTime::from_timestamp_micros(LATEST_RETRY + 1).is_none());
    let e = AppError::TooManyRequests(TooManyRequests {
        action: "PublishNew".to_string(),
        action_message: "limited".to_string(),
        retry_after: LATEST_RETRY,
    });
    assert_eq!(e.response().status, 429);
    let outside = AppError::TooManyRequests(TooManyRequests {
        action: "PublishNew".to_string(),
        action_message: "limited".to_string(),
        retry_after: EARLIEST_RETRY - 1,
    });
    assert!(!outside.is_answerable());
}

#[test]
fn custom_error_answers_with_its_status_and_detail() {
    let e = custom(403, "only owners have permission to delete crates");
    let r = e.response();
    assert_eq!(r.status, 403);
    assert_eq!(r.details, vec!["only owners have permission to delete crates".to_string()]);
    assert!(r.cause.is_none());
    assert!(r.retry_after.is_none());
    assert_eq!(e.message(), "only owners have permission to delete crates");
}

#[test]
fn bad_request_and_conflict_statuses() {
    assert_eq!(bad_request("x").status(), 400);
    let c = conflict("user is already locked");
    assert_eq!(c.status(), CONFLICT);
    assert_eq!(c.message(), "user is already locked");
}

#[test]
fn missing_crate_detail() {
    let e = crate_not_found("foo");
    assert_eq!(e.status(), NOT_FOUND);
    assert_eq!(e.response().details, vec!["crate `foo` does not exist".to_string()]);
}

#[test]
fn insecure_token_error() {
    let e = InsecurelyGeneratedTokenRevoked::boxed();
    let r = e.response();
    assert_eq!(r.status, 401);
    assert_eq!(r.details, vec![TOKEN_FORMAT_ERROR.to_string()]);
    assert_eq!(r.cause.as_deref(), Some(INSECURE_TOKEN_CAUSE));
    assert!(TOKEN_FORMAT_ERROR.starts_with(
        "The given API token does not match the format used by crates.io. Tokens generated before 2020-07-14"
    ));
    assert!(TOKEN_FORMAT_ERROR.ends_with("We apologize for any inconvenience."));
    assert!(!TOKEN_FORMAT_ERROR.contains("  "));
    assert_eq!(e.message(), TOKEN_FORMAT_ERROR);
}

#[test]
fn read_only_error() {
    let e = AppError::ReadOnlyMode(ReadOnlyMode);
    let r = e.response();
    assert_eq!(r.status, 503);
    assert_eq!(
        r.details,
        vec!["crates.io is currently in read-only mode for maintenance. Please try again later."
            .to_string()]
    );
    assert_eq!(e.message(), "Tried to write in read only mode");
}

#[test]
fn too_many_requests_error() {
    let e = AppError::TooManyRequests(TooManyRequests {
        action: "PublishNew".to_string(),
        action_message: "You have published too many new crates in a short period of time"
            .to_string(),
        retry_after: 784_111_777_000_000,
    });
    let r = e.response();
    assert_eq!(r.status, 429);
    assert_eq!(r.retry_after.as_deref(), Some("Sun, 06 Nov 1994 08:49:37 GMT"));
    assert_eq!(
        r.details,
        vec!["You have published too many new crates in a short period of time. Please try again after Sun, 06 Nov 1994 08:49:37 GMT or email help@crates.io to have your limit increased.".to_string()]
    );
    assert_eq!(e.message(), "Too many requests");
}
