//! Abstract algebra
pub mod ops;
pub mod unary;
pub mod group;
pub mod field;
