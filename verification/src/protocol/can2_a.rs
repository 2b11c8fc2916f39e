//! The original CAN 2.0 specification, with an 11-bit identifier.

pub mod identifier;
