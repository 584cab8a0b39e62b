use vstd::prelude::*;

verus! {

/// Error taxonomy of the feature store core.
///
/// `UnknownType` (a typed vertex/edge accessor given an unrecognized type) is
/// deliberately *not* here: it is modeled as an absent `Option` result so that
/// callers branch normally.
#[derive(Debug, PartialEq, Eq, Structural)]
pub enum GfsError {
    /// A `get` on a key that is not in the backend.
    NotFound,
    /// A stored value does not match the shape expected for its kind.
    DecodeError,
    /// An I/O failure reported by the key-value backend or query collaborator.
    BackendError,
    /// A k-hop parameter list whose length is neither 1 nor k.
    ConfigurationError,
    /// A malformed selection/projection expression.
    ValidationError,
}

} // verus!
