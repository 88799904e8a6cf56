//! Host integration: platform gateway backends, kernel installation and
//! service units.

pub mod kernel;
pub mod platform;
pub mod service;
