//! The closed error taxonomy of the client.

use vstd::prelude::*;

verus! {

/// Every failure a client operation can report, as a closed set.
///
/// - `ClientCreation`: the transport handle could not be initialized from
///   its configuration. Fatal to that client; retrying without
///   reconfiguring cannot help.
/// - `Request`: the transport call itself failed (name resolution,
///   connection, timeout). Transient; the caller may retry.
/// - `Deserialization`: the response body did not match the expected
///   shape. `cause` describes the mismatch and `payload` holds the body
///   as it was received, for diagnostics. Re-sending the same request
///   cannot help.
///
/// The two transport variants carry the transport library's rendering of
/// what went wrong; the library itself only ever constructs
/// `Deserialization`.
#[derive(Debug)]
pub enum Error {
    ClientCreation(String),
    Request(String),
    Deserialization { cause: String, payload: Vec<u8> },
}

} // verus!
