//! A higher-layer protocol over the 29-bit extended CAN frame, designed for
//! heavy-duty vehicles and off-road equipment.

pub mod address;
pub mod identifier;
pub mod pgn;
