//! Encoding and decoding of Controller Area Network (CAN) data types,
//! including the identifier layouts of the SAE J1939 higher-layer protocol.
//!
//! The crate models every entity as a bit-packed unsigned integer with named,
//! contiguous, MSB-first bit ranges.  Each public operation carries a contract
//! that states exactly which bits it reads or writes.

pub mod conversion;
pub mod data;
pub mod hex;
pub mod id;
pub mod identifier;
pub mod laws;
pub mod message;
pub mod name;
pub mod payload;
pub mod pgn;
pub mod protocol;
