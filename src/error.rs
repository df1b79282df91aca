//! What can go wrong between a request and the store.

use vstd::prelude::*;

verus! {

/// The failures of a store operation.
#[derive(Debug, Clone, Copy, PartialEq, Eq, Structural)]
pub enum GatewayError {
    /// The identifier text is not 24 hexadecimal digits.
    InvalidIdentifier,
    /// No stored record has the identifier.
    NotFound,
    /// The store could not carry out the operation.
    StorageUnavailable,
}

} // verus!
