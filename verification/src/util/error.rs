use vstd::prelude::*;

verus! {

/// Failures of the time utilities.
#[derive(Clone, Copy, Debug, PartialEq, Eq, Structural)]
pub enum Error {
    /// Something went wrong while parsing or formatting a timestamp.
    TimeError,
}

/// Failures of the external refresh-token store.
#[derive(Clone, Copy, Debug, PartialEq, Eq, Structural)]
pub enum RedisError {
    /// The connection to the store could not be established.
    RedisConnFailed,
    /// A query against the store failed or timed out.
    RedisQueryFailed,
}

} // verus!
