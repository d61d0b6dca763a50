//! Error kinds of the knowledge graph, and their messages.

use vstd::prelude::*;

verus! {

/// Errors of the temporal knowledge graph.  Each carries the detail of what
/// went wrong.
#[derive(Debug)]
pub enum Error {
    /// An I/O failure.
    Io(String),
    OpenSearch(String),
    Neptune(String),
    DynamoDB(String),
    Serialization(String),
    /// A date or time that could not be parsed.
    Parse(String),
    ValueConversion(String),
    InvalidTemporalRange(String),
    EntityNotFound(String),
    InvalidDataFormat(String),
    OperationFailed(String),
    DatabaseError(String),
    Gremlin(String),
    Json(String),
    Uuid(String),
    Backoff(String),
    NodeNotFound(String),
    EdgeNotFound(String),
    ConnectionPool(String),
    Retry(String),
    TemporalOverlap(String),
    VersionNotFound(String),
    InvalidTemporalOperation(String),
    TemporalConsistencyViolation(String),
    TransactionTimeInconsistency(String),
    AwsError(String),
    ConfigurationError(String),
    ValidationError(String),
    InternalError(String),
    NeptuneConnection(String),
    NeptuneQuery(String),
    NeptuneResponseParsing(String),
    NeptuneTransaction(String),
    InvalidId(String),
    NotFound(String),
    InvalidEntityType(String),
    /// A request whose input is malformed.
    InvalidInput(String),
    /// A query that lacks what it needs.
    InvalidQueryFormat(String),
    /// Data of a kind that cannot be stored.
    InvalidDataType(String),
    /// A request the library cannot serve as asked.
    Generic(String),
    Other(String),
}

/// The text that introduces each kind of error in its message.
pub open spec fn error_prefix(e: Error) -> Seq<char> {
    match e {
        Error::Io(_) => "IO error"@,
        Error::OpenSearch(_) => "OpenSearch error"@,
        Error::Neptune(_) => "Neptune error"@,
        Error::DynamoDB(_) => "DynamoDB error"@,
        Error::Serialization(_) => "Serialization error"@,
        Error::Parse(_) => "Parse error"@,
        Error::ValueConversion(_) => "Value conversion error"@,
        Error::InvalidTemporalRange(_) => "Invalid temporal range"@,
        Error::EntityNotFound(_) => "Entity not found"@,
        Error::InvalidDataFormat(_) => "Invalid data format"@,
        Error::OperationFailed(_) => "Operation failed"@,
        Error::DatabaseError(_) => "Database error"@,
        Error::Gremlin(_) => "Gremlin error"@,
        Error::Json(_) => "JSON error"@,
        Error::Uuid(_) => "UUID error"@,
        Error::Backoff(_) => "Backoff error"@,
        Error::NodeNotFound(_) => "Node not found"@,
        Error::EdgeNotFound(_) => "Edge not found"@,
        Error::ConnectionPool(_) => "Connection pool error"@,
        Error::Retry(_) => "Retry error"@,
        Error::TemporalOverlap(_) => "Temporal overlap detected"@,
        Error::VersionNotFound(_) => "Version not found"@,
        Error::InvalidTemporalOperation(_) => "Invalid temporal operation"@,
        Error::TemporalConsistencyViolation(_) => "Temporal consistency violation"@,
        Error::TransactionTimeInconsistency(_) => "Transaction time inconsistency"@,
        Error::AwsError(_) => "AWS error"@,
        Error::ConfigurationError(_) => "Configuration error"@,
        Error::ValidationError(_) => "Validation error"@,
        Error::InternalError(_) => "Internal error"@,
        Error::NeptuneConnection(_) => "Neptune connection error"@,
        Error::NeptuneQuery(_) => "Neptune query error"@,
        Error::NeptuneResponseParsing(_) => "Neptune response parsing error"@,
        Error::NeptuneTransaction(_) => "Neptune transaction error"@,
        Error::InvalidId(_) => "Invalid ID"@,
        Error::NotFound(_) => "Not found"@,
        Error::InvalidEntityType(_) => "Invalid entity type"@,
        Error::InvalidInput(_) => "Invalid input"@,
        Error::InvalidQueryFormat(_) => "Invalid query format"@,
        Error::InvalidDataType(_) => "Invalid data type"@,
        Error::Generic(_) => "Error"@,
        Error::Other(_) => "Other error"@,
    }
}

/// The detail carried by an error.
pub open spec fn error_detail(e: Error) -> Seq<char> {
    match e {
        Error::Io(m) => m@,
        Error::OpenSearch(m) => m@,
        Error::Neptune(m) => m@,
        Error::DynamoDB(m) => m@,
        Error::Serialization(m) => m@,
        Error::Parse(m) => m@,
        Error::ValueConversion(m) => m@,
        Error::InvalidTemporalRange(m) => m@,
        Error::EntityNotFound(m) => m@,
        Error::InvalidDataFormat(m) => m@,
        Error::OperationFailed(m) => m@,
        Error::DatabaseError(m) => m@,
        Error::Gremlin(m) => m@,
        Error::Json(m) => m@,
        Error::Uuid(m) => m@,
        Error::Backoff(m) => m@,
        Error::NodeNotFound(m) => m@,
        Error::EdgeNotFound(m) => m@,
        Error::ConnectionPool(m) => m@,
        Error::Retry(m) => m@,
        Error::TemporalOverlap(m) => m@,
        Error::VersionNotFound(m) => m@,
        Error::InvalidTemporalOperation(m) => m@,
        Error::TemporalConsistencyViolation(m) => m@,
        Error::TransactionTimeInconsistency(m) => m@,
        Error::AwsError(m) => m@,
        Error::ConfigurationError(m) => m@,
        Error::ValidationError(m) => m@,
        Error::InternalError(m) => m@,
        Error::NeptuneConnection(m) => m@,
        Error::NeptuneQuery(m) => m@,
        Error::NeptuneResponseParsing(m) => m@,
        Error::NeptuneTransaction(m) => m@,
        Error::InvalidId(m) => m@,
        Error::NotFound(m) => m@,
        Error::InvalidEntityType(m) => m@,
        Error::InvalidInput(m) => m@,
        Error::InvalidQueryFormat(m) => m@,
        Error::InvalidDataType(m) => m@,
        Error::Generic(m) => m@,
        Error::Other(m) => m@,
    }
}

/// The message of an error: its kind, a colon, and its detail.
pub open spec fn error_text(e: Error) -> Seq<char> {
    error_prefix(e) + ": "@ + error_detail(e)
}

impl Error {
    /// The message of this error, as in `Database error: connection lost`.
    pub fn to_string(&self) -> (s: String)
        ensures
            s@ == error_text(*self),
    {
        let (prefix, detail) = match self {
            Error::Io(m) => ("IO error", m),
            Error::OpenSearch(m) => ("OpenSearch error", m),
            Error::Neptune(m) => ("Neptune error", m),
            Error::DynamoDB(m) => ("DynamoDB error", m),
            Error::Serialization(m) => ("Serialization error", m),
            Error::Parse(m) => ("Parse error", m),
            Error::ValueConversion(m) => ("Value conversion error", m),
            Error::InvalidTemporalRange(m) => ("Invalid temporal range", m),
            Error::EntityNotFound(m) => ("Entity not found", m),
            Error::InvalidDataFormat(m) => ("Invalid data format", m),
            Error::OperationFailed(m) => ("Operation failed", m),
            Error::DatabaseError(m) => ("Database error", m),
            Error::Gremlin(m) => ("Gremlin error", m),
            Error::Json(m) => ("JSON error", m),
            Error::Uuid(m) => ("UUID error", m),
            Error::Backoff(m) => ("Backoff error", m),
            Error::NodeNotFound(m) => ("Node not found", m),
            Error::EdgeNotFound(m) => ("Edge not found", m),
            Error::ConnectionPool(m) => ("Connection pool error", m),
            Error::Retry(m) => ("Retry error", m),
            Error::TemporalOverlap(m) => ("Temporal overlap detected", m),
            Error::VersionNotFound(m) => ("Version not found", m),
            Error::InvalidTemporalOperation(m) => ("Invalid temporal operation", m),
            Error::TemporalConsistencyViolation(m) => ("Temporal consistency violation", m),
            Error::TransactionTimeInconsistency(m) => ("Transaction time inconsistency", m),
            Error::AwsError(m) => ("AWS error", m),
            Error::ConfigurationError(m) => ("Configuration error", m),
            Error::ValidationError(m) => ("Validation error", m),
            Error::InternalError(m) => ("Internal error", m),
            Error::NeptuneConnection(m) => ("Neptune connection error", m),
            Error::NeptuneQuery(m) => ("Neptune query error", m),
            Error::NeptuneResponseParsing(m) => ("Neptune response parsing error", m),
            Error::NeptuneTransaction(m) => ("Neptune transaction error", m),
            Error::InvalidId(m) => ("Invalid ID", m),
            Error::NotFound(m) => ("Not found", m),
            Error::InvalidEntityType(m) => ("Invalid entity type", m),
            Error::InvalidInput(m) => ("Invalid input", m),
            Error::InvalidQueryFormat(m) => ("Invalid query format", m),
            Error::InvalidDataType(m) => ("Invalid data type", m),
            Error::Generic(m) => ("Error", m),
            Error::Other(m) => ("Other error", m),
        };
        proof {
            reveal_strlit("IO error");
            reveal_strlit("OpenSearch error");
            reveal_strlit("Neptune error");
            reveal_strlit("DynamoDB error");
            reveal_strlit("Serialization error");
            reveal_strlit("Parse error");
            reveal_strlit("Value conversion error");
            reveal_strlit("Invalid temporal range");
            reveal_strlit("Entity not found");
            reveal_strlit("Invalid data format");
            reveal_strlit("Operation failed");
            reveal_strlit("Database error");
            reveal_strlit("Gremlin error");
            reveal_strlit("JSON error");
            reveal_strlit("UUID error");
            reveal_strlit("Backoff error");
            reveal_strlit("Node not found");
            reveal_strlit("Edge not found");
            reveal_strlit("Connection pool error");
            reveal_strlit("Retry error");
            reveal_strlit("Temporal overlap detected");
            reveal_strlit("Version not found");
            reveal_strlit("Invalid temporal operation");
            reveal_strlit("Temporal consistency violation");
            reveal_strlit("Transaction time inconsistency");
            reveal_strlit("AWS error");
            reveal_strlit("Configuration error");
            reveal_strlit("Validation error");
            reveal_strlit("Internal error");
            reveal_strlit("Neptune connection error");
            reveal_strlit("Neptune query error");
            reveal_strlit("Neptune response parsing error");
            reveal_strlit("Neptune transaction error");
            reveal_strlit("Invalid ID");
            reveal_strlit("Not found");
            reveal_strlit("Invalid entity type");
            reveal_strlit("Invalid input");
            reveal_strlit("Invalid query format");
            reveal_strlit("Invalid data type");
            reveal_strlit("Other error");
            reveal_strlit(": ");
        }
        let mut s = String::from_str(prefix);
        s.append(": ");
        s.append(detail.as_str());
        s
    }
}

/// Why a retried operation finally failed, with the failure's text: for
/// good, or still transient when the retries ran out.
#[derive(Debug)]
pub enum RetryFailure {
    Permanent(String),
    Transient(String),
}

/// The error a failed retry gives: a permanent failure is a `Backoff` error
/// with its text; a transient one is a `Retry` error reading
/// `Transient error: ` and its text.
pub fn retry_error(failure: RetryFailure) -> (r: Error)
    ensures
        match failure {
            RetryFailure::Permanent(d) => r matches Error::Backoff(m) && m@ == d@,
            RetryFailure::Transient(d) => r matches Error::Retry(m) && m@ == "Transient error: "@ + d@,
        },
{
    match failure {
        RetryFailure::Permanent(d) => Error::Backoff(d),
        RetryFailure::Transient(d) => {
            let mut m = String::from_str("Transient error: ");
            m.append(d.as_str());
            Error::Retry(m)
        },
    }
}

/// Tells the two kinds of `backoff::Error` apart (`Permanent(err)` and
/// `Transient { err, .. }`), keeping the failure's text.  The error is opaque
/// here, so which kind it is is not stated.
#[verifier::external_body]
fn retry_failure(err: backoff::Error<String>) -> (r: RetryFailure) {
    match err {
        backoff::Error::Permanent(e) => RetryFailure::Permanent(e),
        backoff::Error::Transient { err, .. } => RetryFailure::Transient(err),
    }
}

/// The error a failed retry of the `backoff` crate gives (see
/// `retry_error`): a `Backoff` error for a permanent failure, a `Retry` error
/// for a transient one.
pub fn from_backoff(err: backoff::Error<String>) -> (r: Error)
    ensures
        exists|f: RetryFailure| #[trigger] retry_error_spec(f, r),
{
    let f = retry_failure(err);
    let ghost g = f;
    let r = retry_error(f);
    assert(retry_error_spec(g, r));
    r
}

/// Whether `r` is the error `retry_error` gives for `failure`.
pub open spec fn retry_error_spec(failure: RetryFailure, r: Error) -> bool {
    match failure {
        RetryFailure::Permanent(d) => r matches Error::Backoff(m) && m@ == d@,
        RetryFailure::Transient(d) => r matches Error::Retry(m) && m@ == "Transient error: "@ + d@,
    }
}

} // verus!
