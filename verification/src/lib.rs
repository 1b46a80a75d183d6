//! Metron: SI quantities with verified dimensional analysis.
//!
//! A [`Quantity`] is a value tagged with a [`Unit`], a vector of integer
//! exponents over the SI base units `[m, kg, s, A, K, mol, cd]`. Adding or
//! subtracting quantities requires equal units; multiplying and dividing them
//! adds and subtracts exponents.

pub mod dim;
pub mod prefix;
pub mod quantity;
pub mod tensor;
pub mod unit;
pub mod unit_name;
pub mod vector;

pub use prefix::SiPrefix;
pub use quantity::Quantity;
pub use tensor::TensorQuantity;
pub use unit::Unit;
pub use unit_name::UnitName;
pub use vector::VectorQuantity;
