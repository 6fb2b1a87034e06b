//! Recursive state estimation: the linear Kalman filter, the g-h and g-h-k
//! filters and the discrete Bayes filter, with the array helpers they share.
//!
//! The scalar filters compute in any number type with the arithmetic
//! operators (`f32`, `f64`, ...); their contracts state each result as the
//! expression of those operators that it is. The Kalman filter keeps its
//! matrices in nalgebra and states their shapes.
pub mod common;
pub mod discrete_bayes;
pub mod gh;
pub mod kalman;
pub mod matrix;
pub mod scalar;
pub mod stats;
