//! Utility layer: the bit-level register abstraction.

pub mod register;
