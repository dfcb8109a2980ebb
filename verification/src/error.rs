use vstd::prelude::*;

verus! {

/// Why a call could not be served.
#[derive(Debug, PartialEq, Eq)]
pub enum BridgeError {
    /// A call argument was malformed or outside the accepted vocabulary.
    /// Detected before the engine is involved.
    BadArgument,
    /// The engine rejected or failed the operation; carries its description.
    EngineFailure(String),
    /// A queried flag has no value. An expected outcome, not a fault.
    NotSet,
    /// Bytes produced by the engine are not valid UTF-8.
    DecodeFailure,
}

} // verus!
