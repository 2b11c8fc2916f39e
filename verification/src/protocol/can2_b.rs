//! The extended CAN 2.0 specification, with a 29-bit identifier.

pub mod identifier;
