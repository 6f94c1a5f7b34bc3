//! The way in which the dispatch mechanism itself can fail.

use vstd::prelude::*;

verus! {

/// A failure of the mechanism, as opposed to a failure that a handler reports
/// in its own error type. It shows a defect in how the application was wired,
/// so a caller is expected to stop rather than to recover.
#[derive(Clone, Copy, Debug, PartialEq, Eq, Structural)]
pub enum MechanismFailure {
    /// A hidden value did not have the type that was asked of it.
    TypeMismatch,
}

} // verus!
