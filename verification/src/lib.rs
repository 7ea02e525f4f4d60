//! Numbers extended with infinities.
//!
//! [`DoubleInfiniteNumber`] adds a positive and a negative infinity to a signed
//! numeric type, [`SingleInfiniteNumber`] adds one infinity to a type without
//! negative values. Arithmetic on them never wraps: a finite result that does
//! not fit is promoted to an infinity, and a combination without a defined
//! value, such as infinity minus infinity, is excluded by the operator's
//! precondition.

pub mod integer_laws;
pub mod intfinity;
pub mod laws;
pub mod numeric_impls;
pub mod operations;
pub mod traits;

pub use intfinity::{DoubleInfiniteNumber, SingleInfiniteNumber};
