//! The boards that carry a microcontroller and its hardware.

pub mod quty;
