//! The two fatal startup errors. Both fail closed: the process aborts rather
//! than starting in a partially secured state.

use vstd::prelude::*;
use vstd::string::*;

verus! {

/// An unrecoverable startup error. There is no retry and no degraded mode.
#[derive(Debug, Clone, Copy, PartialEq, Eq, Structural)]
pub enum FatalError {
    /// The app-local data directory could not be determined by the host
    /// environment, so no persistent salt location exists.
    PathResolutionFailure,
    /// The secret store failed to initialize: a malformed salt file, a
    /// permission error, or a key-derivation setup error.
    SecretStoreInitFailure,
}

impl FatalError {
    /// The human-readable diagnostic shown when the process aborts.
    pub open spec fn spec_message(self) -> Seq<char> {
        match self {
            FatalError::PathResolutionFailure => "could not resolve app local data path"@,
            FatalError::SecretStoreInitFailure => "could not initialize the secret store"@,
        }
    }

    /// The human-readable diagnostic shown when the process aborts.
    pub fn message(&self) -> (r: String)
        ensures
            r@ == self.spec_message(),
    {
        match self {
            FatalError::PathResolutionFailure => String::from_str(
                "could not resolve app local data path",
            ),
            FatalError::SecretStoreInitFailure => String::from_str(
                "could not initialize the secret store",
            ),
        }
    }
}

} // verus!
