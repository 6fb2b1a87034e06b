//! The linear Kalman filter.
pub mod kalman_filter;
