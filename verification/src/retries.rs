//! The outside error type of retried operations.

use vstd::prelude::*;
use backoff::Error as BackoffError;

verus! {

/// The error type of the `backoff` crate's retries.
#[verifier::external_type_specification]
#[verifier::external_body]
#[verifier::reject_recursive_types(E)]
pub struct ExBackoffError<E>(BackoffError<E>);

} // verus!
