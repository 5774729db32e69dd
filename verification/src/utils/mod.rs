//! Numeric and spatial helpers.

pub mod math;
pub mod spatial;
