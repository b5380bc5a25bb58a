//! Helpers that belong to no single peripheral.

pub mod bytes;
pub mod morse;
