//! A pointwise metric over ordered scalar domains.
//!
//! The [`Measure`] trait gives each supported scalar type (and each ordered
//! pair of integer types) a `distance` and a `len` operation whose result
//! type is chosen wide enough that the computation can never overflow.

pub mod measure;
pub mod mixed;
pub mod native;
pub mod signed;
pub mod unsigned;

pub use measure::Measure;
pub use measure::char_distance;
pub use measure::abs_diff;
pub use measure::char_dist;
