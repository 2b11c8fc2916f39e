//! The bare 8-byte data field: a free-standing counterpart of the
//! [`crate::payload`] data payload, with the same layout and contracts, for
//! callers that do not need the `Pdu` wrapper.

use vstd::prelude::*;

use crate::conversion::{CanError, Conversion};
use crate::hex::{hex_render, hex_value, parse_hex_u64, render_hex, valid_hex};
use crate::payload::{
    be_bytes_u64, le_bytes_u64, ne_bytes_u64, spec_be_bytes_u64, spec_byte_of_u64,
    spec_le_bytes_u64, spec_swap_bytes_u64, swap_bytes_u64,
};

verus! {

/// Bit layout of an 8-byte data field, stored in a `u64` with byte 0 the
/// most significant byte.
#[derive(Debug, Clone, Copy, PartialEq, Eq)]
pub struct Data(pub u64);

impl Conversion<u64> for Data {
    type Error = CanError;

    open spec fn from_bits_spec(bits: u64) -> Self {
        Data(bits)
    }

    open spec fn from_hex_spec(hex: Seq<char>) -> Self {
        if valid_hex(hex) && hex_value(hex) <= u64::MAX {
            Data(hex_value(hex) as u64)
        } else {
            Data(0)
        }
    }

    open spec fn try_from_bits_spec(bits: u64) -> Result<Self, CanError> {
        Ok(Data(bits))
    }

    open spec fn try_from_hex_spec(hex: Seq<char>) -> Result<Self, CanError> {
        if valid_hex(hex) && hex_value(hex) <= u64::MAX {
            Ok(Data(hex_value(hex) as u64))
        } else {
            Err(CanError::ParseFailure)
        }
    }

    open spec fn into_bits_spec(self) -> u64 {
        self.0
    }

    open spec fn into_hex_spec(self) -> Seq<char> {
        hex_render(self.0 as nat, 16)
    }

    /// Creates a new `Data` bitfield from a 64-bit integer.
    fn from_bits(bits: u64) -> Self {
        Data(bits)
    }

    /// Creates a new `Data` bitfield from hexadecimal text, substituting
    /// the zero value when the text does not parse.
    fn from_hex(hex_str: &str) -> Self {
        match parse_hex_u64(hex_str) {
            Some(bits) => Data(bits),
            None => Data(0),
        }
    }

    /// Creates a new `Data` bitfield from a 64-bit integer; every 64-bit
    /// value is valid, so this never fails.
    fn try_from_bits(bits: u64) -> Result<Self, CanError> {
        Ok(Data(bits))
    }

    /// Creates a new `Data` bitfield from hexadecimal text, rejecting
    /// malformed text.
    fn try_from_hex(hex_str: &str) -> Result<Self, CanError> {
        match parse_hex_u64(hex_str) {
            Some(bits) => Ok(Data(bits)),
            None => Err(CanError::ParseFailure),
        }
    }

    /// Returns the stored 64-bit value.
    fn into_bits(self) -> u64 {
        self.0
    }

    /// Renders the stored value as uppercase hexadecimal text, zero-padded
    /// to 16 digits.
    fn into_hex(self) -> String {
        render_hex(self.0, 16)
    }
}

impl Data {
    /// Retrieve byte 0, the most significant byte.
    pub fn byte_0(self) -> (r: u8)
        ensures
            r == spec_byte_of_u64(self.0, 0),
    {
        ((self.0 >> 56) & 0xFF) as u8
    }

    /// Retrieve byte 1.
    pub fn byte_1(self) -> (r: u8)
        ensures
            r == spec_byte_of_u64(self.0, 1),
    {
        ((self.0 >> 48) & 0xFF) as u8
    }

    /// Retrieve byte 2.
    pub fn byte_2(self) -> (r: u8)
        ensures
            r == spec_byte_of_u64(self.0, 2),
    {
        ((self.0 >> 40) & 0xFF) as u8
    }

    /// Retrieve byte 3.
    pub fn byte_3(self) -> (r: u8)
        ensures
            r == spec_byte_of_u64(self.0, 3),
    {
        ((self.0 >> 32) & 0xFF) as u8
    }

    /// Retrieve byte 4.
    pub fn byte_4(self) -> (r: u8)
        ensures
            r == spec_byte_of_u64(self.0, 4),
    {
        ((self.0 >> 24) & 0xFF) as u8
    }

    /// Retrieve byte 5.
    pub fn byte_5(self) -> (r: u8)
        ensures
            r == spec_byte_of_u64(self.0, 5),
    {
        ((self.0 >> 16) & 0xFF) as u8
    }

    /// Retrieve byte 6.
    pub fn byte_6(self) -> (r: u8)
        ensures
            r == spec_byte_of_u64(self.0, 6),
    {
        ((self.0 >> 8) & 0xFF) as u8
    }

    /// Retrieve byte 7, the least significant byte.
    pub fn byte_7(self) -> (r: u8)
        ensures
            r == spec_byte_of_u64(self.0, 7),
    {
        ((self.0 >> 0) & 0xFF) as u8
    }

    /// Return the 64-bit bitfield as bytes in little-endian order.
    pub fn to_le_bytes(&self) -> (r: [u8; 8])
        ensures
            r@ == spec_le_bytes_u64(self.0),
    {
        le_bytes_u64(self.0)
    }

    /// Return the 64-bit bitfield as bytes in big-endian order.
    pub fn to_be_bytes(&self) -> (r: [u8; 8])
        ensures
            r@ == spec_be_bytes_u64(self.0),
    {
        be_bytes_u64(self.0)
    }

    /// Return the 64-bit bitfield as bytes in the machine's native order,
    /// which is the little-endian or the big-endian ordering of its bytes.
    pub fn to_ne_bytes(&self) -> (r: [u8; 8])
        ensures
            r@ == spec_le_bytes_u64(self.0) || r@ == spec_be_bytes_u64(self.0),
    {
        ne_bytes_u64(self.0)
    }

    /// Convert the bitfield to little-endian byte format; the stored value
    /// is already held least significant byte first, so this is the
    /// identity.
    pub fn to_le(&self) -> (r: Self)
        ensures
            r == *self,
    {
        Data(self.0)
    }

    /// Convert the bitfield to big-endian byte format by reversing the
    /// order of its eight bytes.
    pub fn to_be(&self) -> (r: Self)
        ensures
            r.0 == spec_swap_bytes_u64(self.0),
    {
        Data(swap_bytes_u64(self.0))
    }
}

} // verus!
