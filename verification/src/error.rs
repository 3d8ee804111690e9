//! The ways in which an input is turned down.

use vstd::prelude::*;

verus! {

/// Why a transform or a reconstruction turned its input down.
#[derive(Clone, Copy, Debug, PartialEq, Eq, Structural)]
pub enum DftError {
    /// The sample set is empty: there is nothing to transform and no count
    /// to divide by.
    InvalidInput,
    /// The number of coefficients is not the number of bins that the
    /// frequencies were laid out for.
    LengthMismatch,
}

} // verus!
