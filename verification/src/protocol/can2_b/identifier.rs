//! The extended 29-bit CAN 2.0 B identifier.

use vstd::prelude::*;

use crate::conversion::{CanError, Conversion};
use crate::hex::{hex_render, hex_value, parse_hex_u32, render_hex, valid_hex};
use crate::identifier::{Id, IsProtocol};

verus! {

/// Bit layout of an extended 29-bit CAN identifier, stored in a `u32`.
///
/// | Field      | Bits  |
/// |------------|-------|
/// | Padding    | 31-29 |
/// | Identifier | 28-0  |
#[derive(Debug, Clone, Copy, PartialEq, Eq, PartialOrd, Ord)]
pub struct Can2B(pub u32);

impl Can2B {
    /// The identifier field: the low 29 bits of the stored value.
    pub open spec fn spec_id(self) -> u32 {
        self.0 & 0x1FFF_FFFF
    }
}

impl IsProtocol for Can2B {

}

pub type IdCan2B = Id<Can2B>;

impl IdCan2B {
    /// Returns the value of the identifier field, truncated to 29 bits.
    pub fn id(self) -> (r: u32)
        ensures
            r == self.0.spec_id(),
    {
        self.0.0 & 0x1FFF_FFFF
    }
}

impl Conversion<u32> for IdCan2B {
    type Error = CanError;

    open spec fn from_bits_spec(bits: u32) -> Self {
        Id(Can2B(bits))
    }

    open spec fn from_hex_spec(hex: Seq<char>) -> Self {
        if valid_hex(hex) && hex_value(hex) <= u32::MAX {
            Id(Can2B(hex_value(hex) as u32))
        } else {
            Id(Can2B(0))
        }
    }

    open spec fn try_from_bits_spec(bits: u32) -> Result<Self, CanError> {
        if bits > 0x1FFF_FFFF {
            Err(CanError::OutOfRange)
        } else {
            Ok(Id(Can2B(bits)))
        }
    }

    open spec fn try_from_hex_spec(hex: Seq<char>) -> Result<Self, CanError> {
        if !(valid_hex(hex) && hex_value(hex) <= u32::MAX) {
            Err(CanError::ParseFailure)
        } else if hex_value(hex) > 0x1FFF_FFFF {
            Err(CanError::OutOfRange)
        } else {
            Ok(Id(Can2B(hex_value(hex) as u32)))
        }
    }

    open spec fn into_bits_spec(self) -> u32 {
        self.0.0
    }

    open spec fn into_hex_spec(self) -> Seq<char> {
        hex_render(self.0.0 as nat, 8)
    }

    /// Creates a new 29-bit extended identifier from a 32-bit integer; the
    /// stored value keeps every bit as given, padding included.
    fn from_bits(bits: u32) -> Self {
        Id(Can2B(bits))
    }

    /// Creates a new 29-bit extended identifier from hexadecimal text,
    /// substituting the zero value when the text does not parse.
    fn from_hex(hex_str: &str) -> Self {
        match parse_hex_u32(hex_str) {
            Some(bits) => Id(Can2B(bits)),
            None => Id(Can2B(0)),
        }
    }

    /// Creates a new 29-bit extended identifier from a 32-bit integer,
    /// rejecting values above `0x1FFF_FFFF`.
    fn try_from_bits(bits: u32) -> Result<Self, CanError> {
        if bits > 0x1FFF_FFFF {
            Err(CanError::OutOfRange)
        } else {
            Ok(Id(Can2B(bits)))
        }
    }

    /// Creates a new 29-bit extended identifier from hexadecimal text,
    /// rejecting malformed text and values above `0x1FFF_FFFF`.
    fn try_from_hex(hex_str: &str) -> Result<Self, CanError> {
        match parse_hex_u32(hex_str) {
            Some(bits) => {
                if bits > 0x1FFF_FFFF {
                    Err(CanError::OutOfRange)
                } else {
                    Ok(Id(Can2B(bits)))
                }
            },
            None => Err(CanError::ParseFailure),
        }
    }

    /// Returns the stored 32-bit value, padding bits included.
    fn into_bits(self) -> u32 {
        self.0.0
    }

    /// Renders the stored value as uppercase hexadecimal text, zero-padded
    /// to 8 digits.
    fn into_hex(self) -> String {
        render_hex(self.0.0 as u64, 8)
    }
}

} // verus!
