//! The CAN protocols supported by this crate.
//!
//! - **CAN 2.0 A**: the original specification, with an 11-bit identifier.
//! - **CAN 2.0 B**: the extended frame format, with a 29-bit identifier.
//! - **J1939**: a higher-layer protocol over the 29-bit extended frame,
//!   used in heavy-duty vehicles, which assigns field meanings (priority,
//!   parameter group, source address) to the identifier bits.

pub mod can2_a;
pub mod can2_b;
pub mod j1939;
