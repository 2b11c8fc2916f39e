//! Free-standing 11-bit and 29-bit identifier layouts with field-wise
//! builders and `u8`-typed flag accessors, for callers that want the named
//! fields without the protocol-tagged wrapper of [`crate::identifier`].

use vstd::prelude::*;

use crate::conversion::CanError;
use crate::hex::{hex_value, parse_hex_u16, parse_hex_u32, valid_hex};

verus! {

/// Marks a bit layout usable by the [`Id`] wrapper of this module.
pub trait IdKind {}

/// Bit layout of a standard 11-bit identifier, stored in a `u16`.
///
/// | Field      | Bits  |
/// |------------|-------|
/// | Padding    | 15-11 |
/// | Priority   | 10-8  |
/// | Reserved   | 7     |
/// | Data page  | 6     |
/// | PDU format | 5-0   |
#[derive(Debug, Clone, Copy, PartialEq, Eq)]
pub struct Standard(pub u16);

/// Bit layout of an extended 29-bit identifier, stored in a `u32`.
///
/// | Field          | Bits  |
/// |----------------|-------|
/// | Padding        | 31-29 |
/// | Priority       | 28-26 |
/// | Reserved       | 25    |
/// | Data page      | 24    |
/// | PDU format     | 23-16 |
/// | PDU specific   | 15-8  |
/// | Source address | 7-0   |
#[derive(Debug, Clone, Copy, PartialEq, Eq)]
pub struct Extended(pub u32);

impl IdKind for Standard {

}

impl IdKind for Extended {

}

impl Standard {
    /// The 3-bit priority field.
    pub open spec fn spec_priority(self) -> u8 {
        ((self.0 >> 8) & 0x7) as u8
    }

    /// The reserved bit, as 0 or 1.
    pub open spec fn spec_reserved(self) -> u8 {
        ((self.0 >> 7) & 0x1) as u8
    }

    /// The data page bit, as 0 or 1.
    pub open spec fn spec_data_page(self) -> u8 {
        ((self.0 >> 6) & 0x1) as u8
    }

    /// The 6-bit PDU format field.
    pub open spec fn spec_pdu_format(self) -> u8 {
        (self.0 & 0x3F) as u8
    }

    /// Returns the all-zero layout.
    pub fn new() -> (r: Self)
        ensures
            r == (Standard(0)),
    {
        Standard(0)
    }

    /// Returns `self` with the priority field set to the low 3 bits of
    /// `value` and every other bit unchanged.
    pub fn with_priority(self, value: u8) -> (r: Self)
        ensures
            r.0 == (self.0 & !(0x7u16 << 8)) | (((value & 0x7) as u16) << 8),
    {
        Standard((self.0 & !(0x7u16 << 8)) | (((value & 0x7) as u16) << 8))
    }

    /// Returns `self` with the reserved bit set to the low bit of `value`
    /// and every other bit unchanged.
    pub fn with_reserved(self, value: u8) -> (r: Self)
        ensures
            r.0 == (self.0 & !(0x1u16 << 7)) | (((value & 0x1) as u16) << 7),
    {
        Standard((self.0 & !(0x1u16 << 7)) | (((value & 0x1) as u16) << 7))
    }

    /// Returns `self` with the data page bit set to the low bit of `value`
    /// and every other bit unchanged.
    pub fn with_data_page(self, value: u8) -> (r: Self)
        ensures
            r.0 == (self.0 & !(0x1u16 << 6)) | (((value & 0x1) as u16) << 6),
    {
        Standard((self.0 & !(0x1u16 << 6)) | (((value & 0x1) as u16) << 6))
    }

    /// Returns `self` with the PDU format field set to the low 6 bits of
    /// `value` and every other bit unchanged.
    pub fn with_pdu_format(self, value: u8) -> (r: Self)
        ensures
            r.0 == (self.0 & !0x3Fu16) | ((value & 0x3F) as u16),
    {
        Standard((self.0 & !0x3Fu16) | ((value & 0x3F) as u16))
    }
}

impl Extended {
    /// The 3-bit priority field.
    pub open spec fn spec_priority(self) -> u8 {
        ((self.0 >> 26) & 0x7) as u8
    }

    /// The reserved bit, as 0 or 1.
    pub open spec fn spec_reserved(self) -> u8 {
        ((self.0 >> 25) & 0x1) as u8
    }

    /// The data page bit, as 0 or 1.
    pub open spec fn spec_data_page(self) -> u8 {
        ((self.0 >> 24) & 0x1) as u8
    }

    /// The 8-bit PDU format field.
    pub open spec fn spec_pdu_format(self) -> u8 {
        ((self.0 >> 16) & 0xFF) as u8
    }

    /// The 8-bit PDU specific field.
    pub open spec fn spec_pdu_specific(self) -> u8 {
        ((self.0 >> 8) & 0xFF) as u8
    }

    /// The 8-bit source address field.
    pub open spec fn spec_source_address(self) -> u8 {
        ((self.0 >> 0) & 0xFF) as u8
    }

    /// Returns the all-zero layout.
    pub fn new() -> (r: Self)
        ensures
            r == (Extended(0)),
    {
        Extended(0)
    }

    /// Returns `self` with the priority field set to the low 3 bits of
    /// `value` and every other bit unchanged.
    pub fn with_priority(self, value: u8) -> (r: Self)
        ensures
            r.0 == (self.0 & !(0x7u32 << 26)) | (((value & 0x7) as u32) << 26),
    {
        Extended((self.0 & !(0x7u32 << 26)) | (((value & 0x7) as u32) << 26))
    }

    /// Returns `self` with the reserved bit set to the low bit of `value`
    /// and every other bit unchanged.
    pub fn with_reserved(self, value: u8) -> (r: Self)
        ensures
            r.0 == (self.0 & !(0x1u32 << 25)) | (((value & 0x1) as u32) << 25),
    {
        Extended((self.0 & !(0x1u32 << 25)) | (((value & 0x1) as u32) << 25))
    }

    /// Returns `self` with the data page bit set to the low bit of `value`
    /// and every other bit unchanged.
    pub fn with_data_page(self, value: u8) -> (r: Self)
        ensures
            r.0 == (self.0 & !(0x1u32 << 24)) | (((value & 0x1) as u32) << 24),
    {
        Extended((self.0 & !(0x1u32 << 24)) | (((value & 0x1) as u32) << 24))
    }

    /// Returns `self` with the PDU format field set to `value` and every
    /// other bit unchanged.
    pub fn with_pdu_format(self, value: u8) -> (r: Self)
        ensures
            r.0 == (self.0 & !(0xFFu32 << 16)) | ((value as u32) << 16),
    {
        Extended((self.0 & !(0xFFu32 << 16)) | ((value as u32) << 16))
    }

    /// Returns `self` with the PDU specific field set to `value` and every
    /// other bit unchanged.
    pub fn with_pdu_specific(self, value: u8) -> (r: Self)
        ensures
            r.0 == (self.0 & !(0xFFu32 << 8)) | ((value as u32) << 8),
    {
        Extended((self.0 & !(0xFFu32 << 8)) | ((value as u32) << 8))
    }

    /// Returns `self` with the source address field set to `value` and
    /// every other bit unchanged.
    pub fn with_source_address(self, value: u8) -> (r: Self)
        ensures
            r.0 == (self.0 & !0xFFu32) | (value as u32),
    {
        Extended((self.0 & !0xFFu32) | (value as u32))
    }
}

/// An identifier wrapping the bit layout `T`.
#[derive(Debug, Clone, Copy, PartialEq, Eq)]
pub struct Id<T: IdKind> {
    pub bitfield: T,
}

/// The packed 29-bit extended identifier assembled from its named fields,
/// each reduced to its own width, with the padding bits zero.
pub open spec fn spec_extended_from_parts(
    priority: u8,
    reserved: u8,
    data_page: u8,
    pdu_format: u8,
    pdu_specific: u8,
    source_address: u8,
) -> u32 {
    (((priority & 0x7) as u32) << 26) | (((reserved & 0x1) as u32) << 25) | (((data_page
        & 0x1) as u32) << 24) | ((pdu_format as u32) << 16) | ((pdu_specific as u32) << 8) | (
    source_address as u32)
}

/// The packed 11-bit standard identifier assembled from its named fields,
/// each reduced to its own width, with the padding bits zero.
pub open spec fn spec_standard_from_parts(
    priority: u8,
    reserved: u8,
    data_page: u8,
    pdu_format: u8,
) -> u16 {
    (((priority & 0x7) as u16) << 8) | (((reserved & 0x1) as u16) << 7) | (((data_page
        & 0x1) as u16) << 6) | ((pdu_format & 0x3F) as u16)
}

impl Id<Extended> {
    /// Creates an extended identifier from hexadecimal text, rejecting
    /// malformed text; the parsed 32-bit value is stored as given.
    pub fn from_hex(hex_str: &str) -> (r: Result<Self, CanError>)
        ensures
            r == (if valid_hex(hex_str@) && hex_value(hex_str@) <= u32::MAX {
                Ok::<Self, CanError>((Id { bitfield: Extended(hex_value(hex_str@) as u32) }))
            } else {
                Err::<Self, CanError>(CanError::ParseFailure)
            }),
    {
        match parse_hex_u32(hex_str) {
            Some(bits) => Ok(Id { bitfield: Extended(bits) }),
            None => Err(CanError::ParseFailure),
        }
    }

    /// Renders nothing; the hexadecimal rendering of an identifier lives on
    /// the conversion trait of the protocol-tagged identifier types.
    pub fn as_hex(&self) {
    }

    /// Creates an extended identifier from a 32-bit integer, stored as
    /// given; this never fails.
    pub fn from_bits(bits: u32) -> (r: Result<Self, CanError>)
        ensures
            r == Ok::<Self, CanError>((Id { bitfield: Extended(bits) })),
    {
        Ok(Id { bitfield: Extended(bits) })
    }

    /// Decomposes the identifier into its raw parts: priority, reserved
    /// bit, data page bit, PDU format, PDU specific, and source address.
    pub fn into_raw_parts(&self) -> (r: (u8, u8, u8, u8, u8, u8))
        ensures
            r.0 == self.bitfield.spec_priority(),
            r.1 == self.bitfield.spec_reserved(),
            r.2 == self.bitfield.spec_data_page(),
            r.3 == self.bitfield.spec_pdu_format(),
            r.4 == self.bitfield.spec_pdu_specific(),
            r.5 == self.bitfield.spec_source_address(),
    {
        let p = ((self.bitfield.0 >> 26) & 0x7) as u8;
        let r = ((self.bitfield.0 >> 25) & 0x1) as u8;
        let dp = ((self.bitfield.0 >> 24) & 0x1) as u8;
        let pf = ((self.bitfield.0 >> 16) & 0xFF) as u8;
        let ps = ((self.bitfield.0 >> 8) & 0xFF) as u8;
        let sa = ((self.bitfield.0 >> 0) & 0xFF) as u8;

        (p, r, dp, pf, ps, sa)
    }

    /// Constructs an extended identifier from its raw parts.
    ///
    /// Succeeds exactly when the priority fits 3 bits and the reserved and
    /// data page bits fit 1 bit each; the result is assembled from the
    /// validated fields only, so each accessor reads back the given part
    /// and the padding bits are zero.
    pub fn from_raw_parts(
        priority: u8,
        reserved: u8,
        data_page: u8,
        pdu_format: u8,
        pdu_specific: u8,
        source_addr: u8,
    ) -> (result: Result<Self, CanError>)
        ensures
            result == (if priority > 0x7 {
                Err::<Self, CanError>(CanError::InvalidPriority)
            } else if reserved > 0x1 || data_page > 0x1 {
                Err::<Self, CanError>(CanError::OutOfRange)
            } else {
                Ok::<Self, CanError>(
                    (Id {
                        bitfield: Extended(
                            spec_extended_from_parts(
                                priority,
                                reserved,
                                data_page,
                                pdu_format,
                                pdu_specific,
                                source_addr,
                            ),
                        ),
                    }),
                )
            }),
            result matches Ok(id) ==> {
                &&& id.bitfield.spec_priority() == priority
                &&& id.bitfield.spec_reserved() == reserved
                &&& id.bitfield.spec_data_page() == data_page
                &&& id.bitfield.spec_pdu_format() == pdu_format
                &&& id.bitfield.spec_pdu_specific() == pdu_specific
                &&& id.bitfield.spec_source_address() == source_addr
                &&& id.bitfield.0 <= 0x1FFF_FFFF
            },
    {
        if priority > 0x7 {
            return Err(CanError::InvalidPriority);
        }
        if reserved > 0x1 {
            return Err(CanError::OutOfRange);
        }
        if data_page > 0x1 {
            return Err(CanError::OutOfRange);
        }

        let bits: u32 = (((priority & 0x7) as u32) << 26) | (((reserved & 0x1) as u32) << 25) | ((
        (data_page & 0x1) as u32) << 24) | ((pdu_format as u32) << 16) | ((pdu_specific as u32)
            << 8) | (source_addr as u32);

        proof {
            assert((((bits >> 26) & 0x7) == priority as u32) && (((bits >> 25) & 0x1)
                == reserved as u32) && (((bits >> 24) & 0x1) == data_page as u32) && (((bits >> 16)
                & 0xFF) == pdu_format as u32) && (((bits >> 8) & 0xFF) == pdu_specific as u32) && ((
            (bits >> 0) & 0xFF) == source_addr as u32) && (bits <= 0x1FFF_FFFF)) by (bit_vector)
                requires
                    priority <= 0x7,
                    reserved <= 0x1,
                    data_page <= 0x1,
                    bits == (((priority & 0x7) as u32) << 26) | (((reserved & 0x1) as u32) << 25)
                        | (((data_page & 0x1) as u32) << 24) | ((pdu_format as u32) << 16) | ((
                    pdu_specific as u32) << 8) | (source_addr as u32),
            ;
        }

        Ok(Id { bitfield: Extended(bits) })
    }

    /// Returns the priority field; 0 is the highest priority.
    pub fn priority(&self) -> (r: u8)
        ensures
            r == self.bitfield.spec_priority(),
    {
        ((self.bitfield.0 >> 26) & 0x7) as u8
    }

    /// Returns the reserved bit, as 0 or 1.
    pub fn reserved(&self) -> (r: u8)
        ensures
            r == self.bitfield.spec_reserved(),
    {
        ((self.bitfield.0 >> 25) & 0x1) as u8
    }

    /// Returns the data page bit, as 0 or 1.
    pub fn data_page(&self) -> (r: u8)
        ensures
            r == self.bitfield.spec_data_page(),
    {
        ((self.bitfield.0 >> 24) & 0x1) as u8
    }

    /// Returns the PDU format field of the identifier.
    pub fn pdu_format(&self) -> (r: u8)
        ensures
            r == self.bitfield.spec_pdu_format(),
    {
        ((self.bitfield.0 >> 16) & 0xFF) as u8
    }

    /// Returns the PDU specific field of the identifier.
    pub fn pdu_specific(&self) -> (r: u8)
        ensures
            r == self.bitfield.spec_pdu_specific(),
    {
        ((self.bitfield.0 >> 8) & 0xFF) as u8
    }

    /// Returns the source address field, identifying the sender.
    pub fn source_address(&self) -> (r: u8)
        ensures
            r == self.bitfield.spec_source_address(),
    {
        ((self.bitfield.0 >> 0) & 0xFF) as u8
    }
}

impl Id<Standard> {
    /// Creates a standard identifier from hexadecimal text, rejecting
    /// malformed text; the parsed 16-bit value is stored as given.
    pub fn from_hex(hex_str: &str) -> (r: Result<Self, CanError>)
        ensures
            r == (if valid_hex(hex_str@) && hex_value(hex_str@) <= u16::MAX {
                Ok::<Self, CanError>((Id { bitfield: Standard(hex_value(hex_str@) as u16) }))
            } else {
                Err::<Self, CanError>(CanError::ParseFailure)
            }),
    {
        match parse_hex_u16(hex_str) {
            Some(bits) => Ok(Id { bitfield: Standard(bits) }),
            None => Err(CanError::ParseFailure),
        }
    }

    /// Renders nothing; the hexadecimal rendering of an identifier lives on
    /// the conversion trait of the protocol-tagged identifier types.
    pub fn as_hex(&self) {
    }

    /// Creates a standard identifier from a 16-bit integer, stored as
    /// given; this never fails.
    pub fn from_bits(bits: u16) -> (r: Result<Self, CanError>)
        ensures
            r == Ok::<Self, CanError>((Id { bitfield: Standard(bits) })),
    {
        Ok(Id { bitfield: Standard(bits) })
    }

    /// Decomposes the identifier into its raw parts: priority, reserved
    /// bit, data page bit, and PDU format.
    pub fn into_raw_parts(&self) -> (r: (u8, u8, u8, u8))
        ensures
            r.0 == self.bitfield.spec_priority(),
            r.1 == self.bitfield.spec_reserved(),
            r.2 == self.bitfield.spec_data_page(),
            r.3 == self.bitfield.spec_pdu_format(),
    {
        let p = ((self.bitfield.0 >> 8) & 0x7) as u8;
        let r = ((self.bitfield.0 >> 7) & 0x1) as u8;
        let dp = ((self.bitfield.0 >> 6) & 0x1) as u8;
        let pf = (self.bitfield.0 & 0x3F) as u8;

        (p, r, dp, pf)
    }

    /// Constructs a standard identifier from its raw parts.
    ///
    /// Succeeds exactly when the priority fits 3 bits, the reserved and
    /// data page bits fit 1 bit each, and the PDU format fits 6 bits; the
    /// result is assembled from the validated fields only, so each accessor
    /// reads back the given part and the padding bits are zero.
    pub fn from_raw_parts(priority: u8, reserved: u8, data_page: u8, pdu_format: u8) -> (result:
        Result<Self, CanError>)
        ensures
            result == (if priority > 0x7 {
                Err::<Self, CanError>(CanError::InvalidPriority)
            } else if reserved > 0x1 || data_page > 0x1 {
                Err::<Self, CanError>(CanError::OutOfRange)
            } else if pdu_format > 0x3F {
                Err::<Self, CanError>(CanError::InvalidPduFormat)
            } else {
                Ok::<Self, CanError>(
                    (Id {
                        bitfield: Standard(
                            spec_standard_from_parts(priority, reserved, data_page, pdu_format),
                        ),
                    }),
                )
            }),
            result matches Ok(id) ==> {
                &&& id.bitfield.spec_priority() == priority
                &&& id.bitfield.spec_reserved() == reserved
                &&& id.bitfield.spec_data_page() == data_page
                &&& id.bitfield.spec_pdu_format() == pdu_format
                &&& id.bitfield.0 <= 0x7FF
            },
    {
        if priority > 0x7 {
            return Err(CanError::InvalidPriority);
        }
        if reserved > 0x1 {
            return Err(CanError::OutOfRange);
        }
        if data_page > 0x1 {
            return Err(CanError::OutOfRange);
        }
        if pdu_format > 0x3F {
            return Err(CanError::InvalidPduFormat);
        }

        let bits: u16 = (((priority & 0x7) as u16) << 8) | (((reserved & 0x1) as u16) << 7) | (((
        data_page & 0x1) as u16) << 6) | ((pdu_format & 0x3F) as u16);

        proof {
            assert((((bits >> 8) & 0x7) == priority as u16) && (((bits >> 7) & 0x1)
                == reserved as u16) && (((bits >> 6) & 0x1) == data_page as u16) && ((bits & 0x3F)
                == pdu_format as u16) && (bits <= 0x7FF)) by (bit_vector)
                requires
                    priority <= 0x7,
                    reserved <= 0x1,
                    data_page <= 0x1,
                    pdu_format <= 0x3F,
                    bits == (((priority & 0x7) as u16) << 8) | (((reserved & 0x1) as u16) << 7) | ((
                    (data_page & 0x1) as u16) << 6) | ((pdu_format & 0x3F) as u16),
            ;
        }

        Ok(Id { bitfield: Standard(bits) })
    }

    /// Returns the priority field; 0 is the highest priority.
    pub fn priority(&self) -> (r: u8)
        ensures
            r == self.bitfield.spec_priority(),
    {
        ((self.bitfield.0 >> 8) & 0x7) as u8
    }

    /// Returns the reserved bit, as 0 or 1.
    pub fn reserved(&self) -> (r: u8)
        ensures
            r == self.bitfield.spec_reserved(),
    {
        ((self.bitfield.0 >> 7) & 0x1) as u8
    }

    /// Returns the data page bit, as 0 or 1.
    pub fn data_page(&self) -> (r: u8)
        ensures
            r == self.bitfield.spec_data_page(),
    {
        ((self.bitfield.0 >> 6) & 0x1) as u8
    }

    /// Returns the PDU format field of the identifier.
    pub fn pdu_format(&self) -> (r: u8)
        ensures
            r == self.bitfield.spec_pdu_format(),
    {
        (self.bitfield.0 & 0x3F) as u8
    }
}

} // verus!
