//! What a query of the store comes to.

use vstd::prelude::*;

verus! {

/// What `query_outcome` makes of the answer to a query.
pub open spec fn spec_query_outcome<T, E, F>(result: Result<Result<T, E>, F>) -> Option<T> {
    match result {
        Ok(Ok(value)) => Some(value),
        _ => None,
    }
}

/// The value that a query found. A query can fail twice over, on the way to
/// the store and in the store; either way there is no value, and the caller
/// is not told which it was.
pub fn query_outcome<T, E, F>(result: Result<Result<T, E>, F>) -> (r: Option<T>)
    ensures
        r == spec_query_outcome(result),
{
    match result {
        Ok(inner) => match inner {
            Ok(value) => Some(value),
            Err(_) => None,
        },
        Err(_) => None,
    }
}

} // verus!
