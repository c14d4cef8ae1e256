//! The error taxonomy of the admission path.
//!
//! Every failure aborts the whole admission with no partial state: the
//! caller observes exactly one of these tags and every entity is left as it
//! was before the call.

use vstd::prelude::*;

verus! {

/// Why an admission was rejected.
#[derive(Clone, Copy, Debug, PartialEq, Eq, Structural)]
pub enum CronosError {
    /// An identity-equality or address re-derivation check failed.
    AuthorizationFailure,
    /// A counter or timestamp addition would exceed the representable range.
    ArithmeticOverflow,
    /// The host could not allocate the task account at the required size.
    AllocationFailure,
    /// A task account already exists at the derived address.
    AlreadyExists,
}

} // verus!
