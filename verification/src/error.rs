//! Shared error type.

use vstd::prelude::*;

verus! {

/// Core error type shared across components.
#[derive(Debug, Clone, PartialEq, Eq)]
pub enum NaisuError {
    /// EVM-side failure
    Evm(String),
    /// Bridge protocol failure
    Bridge(String),
    /// Sui-side failure
    Sui(String),
    /// No intent stored under the given id
    IntentNotFound(String),
    /// An operation found the intent in the wrong lifecycle state
    InvalidState { expected: String, actual: String },
    /// Configuration failure
    Config(String),
    /// Storage failure
    Database(String),
    /// Upstream service failure
    Api(String),
    /// Serialization failure
    Serialization(String),
    /// Anything else
    Unknown(String),
}

impl NaisuError {
    pub fn evm(msg: String) -> (r: Self)
        ensures
            r == NaisuError::Evm(msg),
    {
        NaisuError::Evm(msg)
    }

    pub fn bridge(msg: String) -> (r: Self)
        ensures
            r == NaisuError::Bridge(msg),
    {
        NaisuError::Bridge(msg)
    }

    pub fn sui(msg: String) -> (r: Self)
        ensures
            r == NaisuError::Sui(msg),
    {
        NaisuError::Sui(msg)
    }
}

} // verus!
