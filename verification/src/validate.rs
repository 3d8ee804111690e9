//! The rules on the sizes that a transform and a reconstruction accept.

use vstd::prelude::*;
use crate::error::DftError;

verus! {

/// What a transform or a normalisation says to a path of `sample_count`
/// samples: an empty path is turned down, every other one is accepted.
pub open spec fn sample_count_verdict(sample_count: int) -> Result<(), DftError> {
    if sample_count == 0 {
        Err(DftError::InvalidInput)
    } else {
        Ok(())
    }
}

/// What a reconstruction says to `coefficient_count` coefficients when the
/// frequencies were laid out for `bin_count` bins: the two must be equal.
pub open spec fn coefficient_count_verdict(coefficient_count: int, bin_count: int) -> Result<
    (),
    DftError,
> {
    if coefficient_count == bin_count {
        Ok(())
    } else {
        Err(DftError::LengthMismatch)
    }
}

/// Accepts a path of at least one sample.
pub fn validate_sample_count(sample_count: usize) -> (verdict: Result<(), DftError>)
    ensures
        verdict == sample_count_verdict(sample_count as int),
{
    if sample_count == 0 {
        Err(DftError::InvalidInput)
    } else {
        Ok(())
    }
}

/// Accepts a coefficient set that has one coefficient for each bin.
pub fn validate_coefficient_count(coefficient_count: usize, bin_count: usize) -> (verdict: Result<
    (),
    DftError,
>)
    ensures
        verdict == coefficient_count_verdict(coefficient_count as int, bin_count as int),
{
    if coefficient_count == bin_count {
        Ok(())
    } else {
        Err(DftError::LengthMismatch)
    }
}

} // verus!
