//! The 29-bit J1939 CAN identifier.

use vstd::prelude::*;

use crate::conversion::{CanError, Conversion};
use crate::hex::{hex_render, hex_value, parse_hex_u32, render_hex, valid_hex};
use crate::identifier::{Id, IsProtocol};
use crate::protocol::j1939::address::SourceAddr;

verus! {

/// Bit layout of a 29-bit J1939 CAN identifier, stored in a `u32`.
///
/// | Field          | Bits  |
/// |----------------|-------|
/// | Padding        | 31-29 |
/// | Priority       | 28-26 |
/// | Reserved       | 25    |
/// | Data page      | 24    |
/// | PDU format     | 23-16 |
/// | PDU specific   | 15-8  |
/// | Source address | 7-0   |
#[derive(Debug, Clone, Copy, PartialEq, Eq, PartialOrd, Ord)]
pub struct J1939(pub u32);

impl J1939 {
    /// The 3-bit priority field.
    pub open spec fn spec_priority(self) -> u8 {
        ((self.0 >> 26) & 0x7) as u8
    }

    /// The reserved flag.
    pub open spec fn spec_reserved(self) -> bool {
        (self.0 >> 25) & 1 == 1
    }

    /// The data page flag.
    pub open spec fn spec_data_page(self) -> bool {
        (self.0 >> 24) & 1 == 1
    }

    /// The 8-bit PDU format field.
    pub open spec fn spec_pdu_format(self) -> u8 {
        ((self.0 >> 16) & 0xFF) as u8
    }

    /// The 8-bit PDU specific field.
    pub open spec fn spec_pdu_specific(self) -> u8 {
        ((self.0 >> 8) & 0xFF) as u8
    }

    /// The 8-bit source address field.
    pub open spec fn spec_source_address(self) -> u8 {
        (self.0 & 0xFF) as u8
    }
}

/// The packed 29-bit identifier assembled from its named fields, with the
/// priority already reduced to its low 3 bits and the padding bits zero.
pub open spec fn spec_j1939_from_parts(
    priority: u8,
    reserved: bool,
    data_page: bool,
    pdu_format: u8,
    pdu_specific: u8,
    source_address: u8,
) -> u32 {
    (((priority & 0x7) as u32) << 26) | ((if reserved {
        1u32
    } else {
        0u32
    }) << 25) | ((if data_page {
        1u32
    } else {
        0u32
    }) << 24) | ((pdu_format as u32) << 16) | ((pdu_specific as u32) << 8) | (source_address
        as u32)
}

impl IsProtocol for J1939 {

}

pub type IdJ1939 = Id<J1939>;

impl Conversion<u32> for Id<J1939> {
    type Error = CanError;

    open spec fn from_bits_spec(bits: u32) -> Self {
        Id(J1939(bits))
    }

    open spec fn from_hex_spec(hex: Seq<char>) -> Self {
        if valid_hex(hex) && hex_value(hex) <= u32::MAX {
            Id(J1939(hex_value(hex) as u32))
        } else {
            Id(J1939(0))
        }
    }

    open spec fn try_from_bits_spec(bits: u32) -> Result<Self, CanError> {
        if bits > 0x1FFF_FFFF {
            Err(CanError::OutOfRange)
        } else {
            Ok(Id(J1939(bits)))
        }
    }

    open spec fn try_from_hex_spec(hex: Seq<char>) -> Result<Self, CanError> {
        if !(valid_hex(hex) && hex_value(hex) <= u32::MAX) {
            Err(CanError::ParseFailure)
        } else if hex_value(hex) > 0x1FFF_FFFF {
            Err(CanError::OutOfRange)
        } else {
            Ok(Id(J1939(hex_value(hex) as u32)))
        }
    }

    open spec fn into_bits_spec(self) -> u32 {
        self.0.0
    }

    open spec fn into_hex_spec(self) -> Seq<char> {
        hex_render(self.0.0 as nat, 8)
    }

    /// Creates a new 29-bit J1939 identifier from a 32-bit integer; the
    /// stored value keeps every bit as given, padding included.
    fn from_bits(bits: u32) -> Self {
        Id(J1939(bits))
    }

    /// Creates a new 29-bit J1939 identifier from hexadecimal text,
    /// substituting the zero value when the text does not parse.
    fn from_hex(hex_str: &str) -> Self {
        match parse_hex_u32(hex_str) {
            Some(bits) => Id(J1939(bits)),
            None => Id(J1939(0)),
        }
    }

    /// Creates a new 29-bit J1939 identifier from a 32-bit integer,
    /// rejecting values above `0x1FFF_FFFF`.
    fn try_from_bits(bits: u32) -> Result<Self, CanError> {
        if bits > 0x1FFF_FFFF {
            Err(CanError::OutOfRange)
        } else {
            Ok(Id(J1939(bits)))
        }
    }

    /// Creates a new 29-bit J1939 identifier from hexadecimal text,
    /// rejecting malformed text and values above `0x1FFF_FFFF`.
    fn try_from_hex(hex_str: &str) -> Result<Self, CanError> {
        match parse_hex_u32(hex_str) {
            Some(bits) => {
                if bits > 0x1FFF_FFFF {
                    Err(CanError::OutOfRange)
                } else {
                    Ok(Id(J1939(bits)))
                }
            },
            None => Err(CanError::ParseFailure),
        }
    }

    /// Returns the stored 32-bit value, padding bits included.
    fn into_bits(self) -> u32 {
        self.0.0
    }

    /// Renders the stored value as uppercase hexadecimal text, zero-padded
    /// to 8 digits.
    fn into_hex(self) -> String {
        render_hex(self.0.0 as u64, 8)
    }
}

impl Id<J1939> {
    /// Decomposes the 29-bit J1939 identifier into its raw parts: priority,
    /// reserved flag, data page flag, PDU format, PDU specific, and source
    /// address.
    pub fn into_raw_parts(self) -> (r: (u8, bool, bool, u8, u8, u8))
        ensures
            r.0 == self.0.spec_priority(),
            r.1 == self.0.spec_reserved(),
            r.2 == self.0.spec_data_page(),
            r.3 == self.0.spec_pdu_format(),
            r.4 == self.0.spec_pdu_specific(),
            r.5 == self.0.spec_source_address(),
    {
        let p = ((self.0.0 >> 26) & 0x7) as u8;
        let r = (self.0.0 >> 25) & 1 == 1;
        let dp = (self.0.0 >> 24) & 1 == 1;
        let pf = ((self.0.0 >> 16) & 0xFF) as u8;
        let ps = ((self.0.0 >> 8) & 0xFF) as u8;
        let sa = (self.0.0 & 0xFF) as u8;

        (p, r, dp, pf, ps, sa)
    }

    /// Constructs a 29-bit J1939 identifier from its raw parts.
    ///
    /// Succeeds exactly when `priority` fits its 3-bit field; the result is
    /// assembled from the validated fields only, so each accessor reads back
    /// the given part and the padding bits are zero.
    pub fn from_raw_parts(
        priority: u8,
        reserved: bool,
        data_page: bool,
        pdu_format: u8,
        pdu_specific: u8,
        source_addr: u8,
    ) -> (result: Result<Self, CanError>)
        ensures
            result is Ok <==> priority <= 0x7,
            priority > 0x7 ==> result == Err::<Self, CanError>(CanError::InvalidPriority),
            result matches Ok(id) ==> {
                &&& id.0.0 == spec_j1939_from_parts(
                    priority,
                    reserved,
                    data_page,
                    pdu_format,
                    pdu_specific,
                    source_addr,
                )
                &&& id.0.spec_priority() == priority
                &&& id.0.spec_reserved() == reserved
                &&& id.0.spec_data_page() == data_page
                &&& id.0.spec_pdu_format() == pdu_format
                &&& id.0.spec_pdu_specific() == pdu_specific
                &&& id.0.spec_source_address() == source_addr
                &&& id.0.0 <= 0x1FFF_FFFF
            },
    {
        if priority > 0x7 {
            return Err(CanError::InvalidPriority);
        }

        let r_bit: u32 = if reserved {
            1
        } else {
            0
        };
        let dp_bit: u32 = if data_page {
            1
        } else {
            0
        };
        let bits: u32 = (((priority & 0x7) as u32) << 26) | (r_bit << 25) | (dp_bit << 24) | (
        (pdu_format as u32) << 16) | ((pdu_specific as u32) << 8) | (source_addr as u32);

        proof {
            assert((((bits >> 26) & 0x7) == priority as u32) && ((bits >> 25) & 1 == r_bit) && ((
            bits >> 24) & 1 == dp_bit) && (((bits >> 16) & 0xFF) == pdu_format as u32) && (((bits
                >> 8) & 0xFF) == pdu_specific as u32) && ((bits & 0xFF) == source_addr as u32) && (
            bits <= 0x1FFF_FFFF)) by (bit_vector)
                requires
                    priority <= 0x7,
                    r_bit <= 1,
                    dp_bit <= 1,
                    bits == (((priority & 0x7) as u32) << 26) | (r_bit << 25) | (dp_bit << 24) | ((
                    pdu_format as u32) << 16) | ((pdu_specific as u32) << 8) | (source_addr as u32),
            ;
        }

        Ok(Id(J1939(bits)))
    }

    /// Returns the priority field; 0 is the highest priority.
    pub fn priority(&self) -> (r: u8)
        ensures
            r == self.0.spec_priority(),
    {
        ((self.0.0 >> 26) & 0x7) as u8
    }

    /// Returns the reserved flag.
    pub fn reserved(&self) -> (r: bool)
        ensures
            r == self.0.spec_reserved(),
    {
        (self.0.0 >> 25) & 1 == 1
    }

    /// Returns the data page flag.
    pub fn data_page(&self) -> (r: bool)
        ensures
            r == self.0.spec_data_page(),
    {
        (self.0.0 >> 24) & 1 == 1
    }

    /// Returns the PDU format field of the identifier.
    pub fn pdu_format(&self) -> (r: u8)
        ensures
            r == self.0.spec_pdu_format(),
    {
        ((self.0.0 >> 16) & 0xFF) as u8
    }

    /// Returns the PDU specific field of the identifier.
    pub fn pdu_specific(&self) -> (r: u8)
        ensures
            r == self.0.spec_pdu_specific(),
    {
        ((self.0.0 >> 8) & 0xFF) as u8
    }

    /// Returns the source address field, identifying the sender.
    pub fn source_address(&self) -> (r: SourceAddr)
        ensures
            r == SourceAddr::Present(self.0.spec_source_address()),
    {
        SourceAddr::Present((self.0.0 & 0xFF) as u8)
    }
}

} // verus!
