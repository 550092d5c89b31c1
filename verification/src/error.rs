//! The errors of building an instruction.

use vstd::prelude::*;

verus! {

/// Why an instruction could not be built.
#[derive(Clone, Copy, Debug, PartialEq, Eq)]
pub enum BuildError {
    /// A length-prefixed field is longer than its one-byte prefix can say.
    OversizedField,
    /// Creators are listed and their shares do not add up to 100.
    InvalidCreatorShares,
    /// A required account identifier is missing.
    StructuralIncompleteness,
}

} // verus!
