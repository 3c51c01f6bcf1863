use vstd::prelude::*;

verus! {

/// Why a link-added event was rejected. Both kinds are link-level errors: the
/// offending event is skipped and every part of the state is left unchanged.
#[derive(Clone, Copy, Debug, PartialEq, Eq, Structural)]
pub enum Error {
    /// A required endpoint key was absent from the event's property bag.
    MissingEndpoint,
    /// An endpoint value was present but was not a decimal unsigned 32-bit
    /// integer.
    MalformedEndpoint,
}

} // verus!
