//! Errors raised by the library.

use vstd::prelude::*;

verus! {

/// Everything that can go wrong in this library.
///
/// Each operation either fully succeeds or fails with exactly one of these;
/// none is recoverable, and the caller decides how to present it.
#[derive(Debug, Clone, PartialEq, Eq)]
pub enum Error {
    /// A user-facing token did not name a repeat state.
    InvalidRepeatStateToken,
    /// A sharing URL failed structural or domain validation, or named an
    /// unsupported resource kind.
    InvalidURL,
    /// A required configuration field is missing; carries the path of the
    /// configuration file the caller read.
    IncompleteConfig(String),
}

} // verus!
