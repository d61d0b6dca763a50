use graph::error::{from_backoff, retry_error, Error, RetryFailure};

#[test]
fn test_error_display() {
    let err = Error::DatabaseError("test error".to_string());
    assert_eq!(err.to_string(), "Database error: test error");
}

#[test]
fn test_error_conversion() {
    let err = Error::Json("invalid json".to_string());
    assert!(matches!(err, Error::Json(_)));
}

#[test]
fn error_messages_name_their_kind() {
    assert_eq!(Error::Io("disk".to_string()).to_string(), "IO error: disk");
    assert_eq!(
        Error::InvalidTemporalRange("x".to_string()).to_string(),
        "Invalid temporal range: x"
    );
    assert_eq!(
        Error::TemporalOverlap("y".to_string()).to_string(),
        "Temporal overlap detected: y"
    );
    assert_eq!(Error::Other(String::new()).to_string(), "Other error: ");
}

#[test]
fn test_retry_error_conversion() {
    let original = Error::NeptuneConnection("connection failed".to_string());
    let retry_err = backoff::Error::Transient { err: original.to_string(), retry_after: None };
    let err = from_backoff(retry_err);
    assert!(matches!(err, Error::Retry(_)));
    assert_eq!(err.to_string(), "Retry error: Transient error: Neptune connection error: connection failed");
}

#[test]
fn test_permanent_error_conversion() {
    let original = Error::NodeNotFound("test".to_string());
    let permanent_err = backoff::Error::Permanent(original.to_string());
    let err = from_backoff(permanent_err);
    assert!(matches!(err, Error::Backoff(_)));
}

#[test]
fn retry_errors_carry_the_failure_text() {
    assert!(matches!(retry_error(RetryFailure::Permanent("x".to_string())), Error::Backoff(m) if m == "x"));
    assert!(matches!(retry_error(RetryFailure::Transient("y".to_string())), Error::Retry(m) if m == "Transient error: y"));
}
