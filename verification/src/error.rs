//! Errors of the pipeline.

use vstd::prelude::*;

verus! {

/// Why a part of the pipeline could not be set up.
#[derive(Debug)]
pub enum AppError {
    /// A component could not be built, with the message saying why.
    Client(String),
}

/// `prefix` followed by `reason`, the message of a refused configuration.
pub fn prefixed_message(prefix: &str, reason: String) -> (r: String)
    ensures r@ == prefix@ + reason@,
{
    let mut s = prefix.to_owned();
    s.append(reason.as_str());
    s
}

} // verus!
