//! Numeric tensors: a trait hierarchy shared by scalars and shaped containers,
//! a data-parallel elementwise engine, and values with measurement uncertainty.
pub mod shape;
pub mod tensor_traits;
pub mod scalar;
mod parallel;
pub mod tensor2;
pub mod tensor;
pub mod dual;
pub mod utils;
pub mod algebra;
pub mod laws;
