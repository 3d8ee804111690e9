//! Integer core of an epicycle (discrete Fourier series) drawing: which way and
//! how fast each term of a spectrum turns, and which sizes a transform and a
//! reconstruction accept.

pub mod error;
pub mod frequency;
pub mod validate;

pub use crate::error::DftError;
pub use crate::frequency::frequency_table;
pub use crate::frequency::index_to_frequency;
pub use crate::validate::validate_coefficient_count;
pub use crate::validate::validate_sample_count;
