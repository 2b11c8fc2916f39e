//! The standard 11-bit CAN 2.0 A identifier.

use vstd::prelude::*;

use crate::conversion::{CanError, Conversion};
use crate::hex::{hex_render, hex_value, parse_hex_u16, render_hex, valid_hex};
use crate::identifier::{Id, IsProtocol};

verus! {

/// Bit layout of a standard 11-bit CAN identifier, stored in a `u16`.
///
/// | Field      | Bits  |
/// |------------|-------|
/// | Padding    | 15-11 |
/// | Identifier | 10-0  |
#[derive(Debug, Clone, Copy, PartialEq, Eq, PartialOrd, Ord)]
pub struct Can2A(pub u16);

impl Can2A {
    /// The identifier field: the low 11 bits of the stored value.
    pub open spec fn spec_id(self) -> u16 {
        self.0 & 0x7FF
    }
}

impl IsProtocol for Can2A {

}

pub type IdCan2A = Id<Can2A>;

impl IdCan2A {
    /// Returns the value of the identifier field, truncated to 11 bits.
    pub fn id(self) -> (r: u16)
        ensures
            r == self.0.spec_id(),
    {
        self.0.0 & 0x7FF
    }
}

impl Conversion<u16> for IdCan2A {
    type Error = CanError;

    open spec fn from_bits_spec(bits: u16) -> Self {
        Id(Can2A(bits))
    }

    open spec fn from_hex_spec(hex: Seq<char>) -> Self {
        if valid_hex(hex) && hex_value(hex) <= u16::MAX {
            Id(Can2A(hex_value(hex) as u16))
        } else {
            Id(Can2A(0))
        }
    }

    open spec fn try_from_bits_spec(bits: u16) -> Result<Self, CanError> {
        if bits > 0x7FF {
            Err(CanError::OutOfRange)
        } else {
            Ok(Id(Can2A(bits)))
        }
    }

    open spec fn try_from_hex_spec(hex: Seq<char>) -> Result<Self, CanError> {
        if !(valid_hex(hex) && hex_value(hex) <= u16::MAX) {
            Err(CanError::ParseFailure)
        } else if hex_value(hex) > 0x7FF {
            Err(CanError::OutOfRange)
        } else {
            Ok(Id(Can2A(hex_value(hex) as u16)))
        }
    }

    open spec fn into_bits_spec(self) -> u16 {
        self.0.0
    }

    open spec fn into_hex_spec(self) -> Seq<char> {
        hex_render(self.0.0 as nat, 3)
    }

    /// Creates a new 11-bit standard identifier from a 16-bit integer; the
    /// stored value keeps every bit as given, padding included.
    fn from_bits(bits: u16) -> Self {
        Id(Can2A(bits))
    }

    /// Creates a new 11-bit standard identifier from hexadecimal text,
    /// substituting the zero value when the text does not parse.
    fn from_hex(hex_str: &str) -> Self {
        match parse_hex_u16(hex_str) {
            Some(bits) => Id(Can2A(bits)),
            None => Id(Can2A(0)),
        }
    }

    /// Creates a new 11-bit standard identifier from a 16-bit integer,
    /// rejecting values above `0x7FF`.
    fn try_from_bits(bits: u16) -> Result<Self, CanError> {
        if bits > 0x7FF {
            Err(CanError::OutOfRange)
        } else {
            Ok(Id(Can2A(bits)))
        }
    }

    /// Creates a new 11-bit standard identifier from hexadecimal text,
    /// rejecting malformed text and values above `0x7FF`.
    fn try_from_hex(hex_str: &str) -> Result<Self, CanError> {
        match parse_hex_u16(hex_str) {
            Some(bits) => {
                if bits > 0x7FF {
                    Err(CanError::OutOfRange)
                } else {
                    Ok(Id(Can2A(bits)))
                }
            },
            None => Err(CanError::ParseFailure),
        }
    }

    /// Returns the stored 16-bit value, padding bits included.
    fn into_bits(self) -> u16 {
        self.0.0
    }

    /// Renders the stored value as uppercase hexadecimal text, zero-padded
    /// to 3 digits.
    fn into_hex(self) -> String {
        render_hex(self.0.0 as u64, 3)
    }
}

} // verus!
