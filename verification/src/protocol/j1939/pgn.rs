//! The J1939 Parameter Group Number (PGN).
//!
//! The PGN is an 18-bit value identifying a J1939 message's data group.  It
//! is derived from a 29-bit identifier by copying the reserved, data page,
//! PDU format and PDU specific fields and discarding the priority and source
//! address.  Classification follows the standard's single threshold: a PDU
//! format below 240 is format 1 (point-to-point, the PDU specific byte is a
//! destination address); 240 and above is format 2 (broadcast, the PDU
//! specific byte is a group extension).

use vstd::prelude::*;

use crate::conversion::{CanError, Conversion};
use crate::hex::{hex_render, hex_value, parse_hex_u32, render_hex, valid_hex};
use crate::identifier::Id;
use crate::protocol::j1939::address::DestinationAddr;
use crate::protocol::j1939::identifier::J1939;

verus! {

/// The assignment authority of a Parameter Group Number.
///
/// The numeric PGN space has deliberate gaps between the SAE-reserved and
/// manufacturer-proprietary ranges; a value in a gap classifies as
/// `Unknown` rather than failing.
#[derive(Debug, Clone, Copy, PartialEq, Eq)]
pub enum PduAssignment {
    /// Society of Automotive Engineers (SAE) assigned PDU.
    /// Contains the PDU value.
    Sae(u32),
    /// Manufacturer/proprietary assigned PDU.
    /// Contains the PDU value.
    Manufacturer(u32),
    /// Unknown or unrecognized PDU assignment.
    /// Contains the PDU value.
    Unknown(u32),
}

/// The format of a Protocol Data Unit (PDU).
#[derive(Debug, Clone, Copy, PartialEq, Eq)]
pub enum PduFormat {
    /// PDU format 1 (point-to-point).
    /// Contains the PDU format value.
    Pdu1(u8),
    /// PDU format 2 (broadcast).
    /// Contains the PDU format value.
    Pdu2(u8),
}

/// The communication mode of a Parameter Group Number.
#[derive(Debug, Clone, Copy, PartialEq, Eq)]
pub enum CommunicationMode {
    /// Point-to-point communication; the PGN carries a destination address.
    P2P,
    /// Broadcast communication.
    Broadcast,
}

/// The group extension of a format-2 Parameter Group Number.
#[derive(Debug, Clone, Copy, PartialEq, Eq)]
pub enum GroupExtension {
    /// No group extension.
    Absent,
    /// Group extension with a specific value.
    Present(u8),
}

/// Bit layout of an 18-bit Parameter Group Number, stored in a `u32`.
///
/// | Field        | Bits  |
/// |--------------|-------|
/// | Padding      | 31-18 |
/// | Reserved     | 17    |
/// | Data page    | 16    |
/// | PDU format   | 15-8  |
/// | PDU specific | 7-0   |
#[derive(Debug, Clone, Copy, PartialEq, Eq)]
pub struct Pgn(pub u32);

impl Pgn {
    /// The reserved flag.
    pub open spec fn spec_reserved(self) -> bool {
        (self.0 >> 17) & 1 == 1
    }

    /// The data page flag.
    pub open spec fn spec_data_page(self) -> bool {
        (self.0 >> 16) & 1 == 1
    }

    /// The 8-bit PDU format field.
    pub open spec fn spec_pdu_format(self) -> u8 {
        ((self.0 >> 8) & 0xFF) as u8
    }

    /// The 8-bit PDU specific field.
    pub open spec fn spec_pdu_specific(self) -> u8 {
        (self.0 & 0xFF) as u8
    }

    /// The PDU format classification: format 1 below 240, format 2 at 240
    /// and above, always carrying the PDU format value.
    pub open spec fn spec_pdu_format_class(self) -> PduFormat {
        if self.spec_pdu_format() < 240 {
            PduFormat::Pdu1(self.spec_pdu_format())
        } else {
            PduFormat::Pdu2(self.spec_pdu_format())
        }
    }

    /// The group extension: present with the PDU specific value exactly for
    /// format-2 PGNs.
    pub open spec fn spec_group_extension(self) -> GroupExtension {
        match self.spec_pdu_format_class() {
            PduFormat::Pdu1(_) => GroupExtension::Absent,
            PduFormat::Pdu2(_) => GroupExtension::Present(self.spec_pdu_specific()),
        }
    }

    /// The destination address: present with the PDU specific value exactly
    /// for format-1 PGNs.
    pub open spec fn spec_destination_address(self) -> DestinationAddr {
        match self.spec_pdu_format_class() {
            PduFormat::Pdu1(_) => DestinationAddr::Present(self.spec_pdu_specific()),
            PduFormat::Pdu2(_) => DestinationAddr::Absent,
        }
    }

    /// The communication mode: a pure function of the format
    /// classification, point-to-point for format 1 and broadcast for
    /// format 2.
    pub open spec fn spec_communication_mode(self) -> CommunicationMode {
        match self.spec_pdu_format_class() {
            PduFormat::Pdu1(_) => CommunicationMode::P2P,
            PduFormat::Pdu2(_) => CommunicationMode::Broadcast,
        }
    }

    /// The assignment authority of the stored PGN value.
    pub open spec fn spec_pdu_assignment(self) -> PduAssignment {
        let v = self.0;
        if v <= 0xEE00 || (0xF000 <= v && v <= 0xFEFF) || (0x1_0000 <= v && v <= 0x1_EE00) || (
        0x1_F000 <= v && v <= 0x1_FEFF) {
            PduAssignment::Sae(v)
        } else if v == 0xEF00 || (0xFF00 <= v && v <= 0xFFFF) || v == 0x1_EF00 || (0x1_FF00 <= v
            && v <= 0x1_FFFF) {
            PduAssignment::Manufacturer(v)
        } else {
            PduAssignment::Unknown(v)
        }
    }
}

impl Conversion<u32> for Pgn {
    type Error = CanError;

    open spec fn from_bits_spec(bits: u32) -> Self {
        Pgn(bits)
    }

    open spec fn from_hex_spec(hex: Seq<char>) -> Self {
        if valid_hex(hex) && hex_value(hex) <= u32::MAX {
            Pgn(hex_value(hex) as u32)
        } else {
            Pgn(0)
        }
    }

    open spec fn try_from_bits_spec(bits: u32) -> Result<Self, CanError> {
        if bits > 0x3FFFF {
            Err(CanError::OutOfRange)
        } else {
            Ok(Pgn(bits))
        }
    }

    open spec fn try_from_hex_spec(hex: Seq<char>) -> Result<Self, CanError> {
        if !(valid_hex(hex) && hex_value(hex) <= u32::MAX) {
            Err(CanError::ParseFailure)
        } else if hex_value(hex) > 0x3FFFF {
            Err(CanError::OutOfRange)
        } else {
            Ok(Pgn(hex_value(hex) as u32))
        }
    }

    open spec fn into_bits_spec(self) -> u32 {
        self.0
    }

    open spec fn into_hex_spec(self) -> Seq<char> {
        hex_render(self.0 as nat, 5)
    }

    /// Creates a new PGN bitfield from a 32-bit integer; the stored value
    /// keeps every bit as given, padding included.
    fn from_bits(bits: u32) -> Self {
        Pgn(bits)
    }

    /// Creates a new PGN bitfield from hexadecimal text, substituting the
    /// zero value when the text does not parse.
    fn from_hex(hex_str: &str) -> Self {
        match parse_hex_u32(hex_str) {
            Some(bits) => Pgn(bits),
            None => Pgn(0),
        }
    }

    /// Creates a new PGN bitfield from a 32-bit integer, rejecting values
    /// above the 18-bit range `0x3FFFF`.
    fn try_from_bits(bits: u32) -> Result<Self, CanError> {
        if bits > 0x3FFFF {
            Err(CanError::OutOfRange)
        } else {
            Ok(Pgn(bits))
        }
    }

    /// Creates a new PGN bitfield from hexadecimal text, rejecting
    /// malformed text and values above the 18-bit range `0x3FFFF`.
    fn try_from_hex(hex_str: &str) -> Result<Self, CanError> {
        match parse_hex_u32(hex_str) {
            Some(bits) => {
                if bits > 0x3FFFF {
                    Err(CanError::OutOfRange)
                } else {
                    Ok(Pgn(bits))
                }
            },
            None => Err(CanError::ParseFailure),
        }
    }

    /// Returns the stored 32-bit value, padding bits included.
    fn into_bits(self) -> u32 {
        self.0
    }

    /// Renders the stored value as uppercase hexadecimal text, zero-padded
    /// to 5 digits.
    fn into_hex(self) -> String {
        render_hex(self.0 as u64, 5)
    }
}

impl Pgn {
    /// Returns the PDU format classification.
    ///
    /// `PduFormat::Pdu1` when the PDU format value is below 240, otherwise
    /// `PduFormat::Pdu2`; either way carrying the PDU format value.
    pub fn pdu_format(&self) -> (r: PduFormat)
        ensures
            r == self.spec_pdu_format_class(),
    {
        let bits = ((self.0 >> 8) & 0xFF) as u8;
        if bits < 240 {
            PduFormat::Pdu1(bits)
        } else {
            PduFormat::Pdu2(bits)
        }
    }

    /// Returns the group extension.
    ///
    /// `GroupExtension::Present` with the PDU specific value exactly when
    /// the PGN is format 2; `GroupExtension::Absent` for format 1.
    pub fn group_extension(&self) -> (r: GroupExtension)
        ensures
            r == self.spec_group_extension(),
    {
        match self.pdu_format() {
            PduFormat::Pdu1(_) => GroupExtension::Absent,
            PduFormat::Pdu2(_) => GroupExtension::Present((self.0 & 0xFF) as u8),
        }
    }

    /// Returns the destination address.
    ///
    /// `DestinationAddr::Present` with the PDU specific value exactly when
    /// the PGN is format 1 (point-to-point); `DestinationAddr::Absent` for
    /// format 2, whose PDU specific byte is a group extension, not an
    /// address.
    pub fn destination_address(&self) -> (r: DestinationAddr)
        ensures
            r == self.spec_destination_address(),
    {
        match self.pdu_format() {
            PduFormat::Pdu1(_) => DestinationAddr::Present((self.0 & 0xFF) as u8),
            PduFormat::Pdu2(_) => DestinationAddr::Absent,
        }
    }

    /// Returns the communication mode: point-to-point for format 1,
    /// broadcast for format 2.
    pub fn communication_mode(&self) -> (r: CommunicationMode)
        ensures
            r == self.spec_communication_mode(),
    {
        match self.pdu_format() {
            PduFormat::Pdu1(_) => CommunicationMode::P2P,
            PduFormat::Pdu2(_) => CommunicationMode::Broadcast,
        }
    }

    /// True exactly when the communication mode is point-to-point.
    pub fn is_p2p(&self) -> (r: bool)
        ensures
            r == (self.spec_communication_mode() == CommunicationMode::P2P),
    {
        match self.communication_mode() {
            CommunicationMode::P2P => true,
            CommunicationMode::Broadcast => false,
        }
    }

    /// True exactly when the communication mode is broadcast.
    pub fn is_broadcast(&self) -> (r: bool)
        ensures
            r == (self.spec_communication_mode() == CommunicationMode::Broadcast),
    {
        match self.communication_mode() {
            CommunicationMode::P2P => false,
            CommunicationMode::Broadcast => true,
        }
    }

    /// Classifies the stored PGN value against the fixed SAE-reserved and
    /// manufacturer-proprietary ranges.
    ///
    /// Values in the deliberate gaps between those ranges classify as
    /// `PduAssignment::Unknown` rather than failing; every variant carries
    /// the stored value.
    pub fn pdu_assignment(&self) -> (r: PduAssignment)
        ensures
            r == self.spec_pdu_assignment(),
    {
        let v = self.0;
        if v <= 0xEE00 || (0xF000 <= v && v <= 0xFEFF) || (0x1_0000 <= v && v <= 0x1_EE00) || (
        0x1_F000 <= v && v <= 0x1_FEFF) {
            PduAssignment::Sae(v)
        } else if v == 0xEF00 || (0xFF00 <= v && v <= 0xFFFF) || v == 0x1_EF00 || (0x1_FF00 <= v
            && v <= 0x1_FFFF) {
            PduAssignment::Manufacturer(v)
        } else {
            PduAssignment::Unknown(v)
        }
    }
}

/// The 18-bit PGN assembled from the four PGN fields of the identifier
/// layout `id`: reserved, data page, PDU format, and PDU specific.
pub open spec fn spec_pgn_of(id: J1939) -> u32 {
    ((if id.spec_reserved() {
        1u32
    } else {
        0u32
    }) << 17) | ((if id.spec_data_page() {
        1u32
    } else {
        0u32
    }) << 16) | ((id.spec_pdu_format() as u32) << 8) | (id.spec_pdu_specific() as u32)
}

impl Id<J1939> {
    /// Computes the PGN value from the 29-bit identifier's fields.
    ///
    /// The result copies the identifier's reserved, data page, PDU format
    /// and PDU specific fields into the 18-bit PGN layout; priority and
    /// source address are discarded.
    pub fn pgn_bits(&self) -> (r: u32)
        ensures
            r == spec_pgn_of(self.0),
            r <= 0x3FFFF,
    {
        self.pgn().0
    }

    /// Constructs the [`Pgn`] derived from the 29-bit identifier's fields.
    ///
    /// Deriving a PGN never fails: it copies the reserved, data page, PDU
    /// format and PDU specific fields and discards priority and source
    /// address.  Each PGN field accessor reads back the identifier's
    /// corresponding field, and the PGN's padding bits are zero.
    pub fn pgn(&self) -> (r: Pgn)
        ensures
            r.0 == spec_pgn_of(self.0),
            r.spec_reserved() == self.0.spec_reserved(),
            r.spec_data_page() == self.0.spec_data_page(),
            r.spec_pdu_format() == self.0.spec_pdu_format(),
            r.spec_pdu_specific() == self.0.spec_pdu_specific(),
            r.0 <= 0x3FFFF,
    {
        let r_bit: u32 = if self.reserved() {
            1
        } else {
            0
        };
        let dp_bit: u32 = if self.data_page() {
            1
        } else {
            0
        };
        let pf = self.pdu_format();
        let ps = self.pdu_specific();
        let bits: u32 = (r_bit << 17) | (dp_bit << 16) | ((pf as u32) << 8) | (ps as u32);

        proof {
            assert(((bits >> 17) & 1 == r_bit) && ((bits >> 16) & 1 == dp_bit) && (((bits >> 8)
                & 0xFF) == pf as u32) && ((bits & 0xFF) == ps as u32) && (bits
                <= 0x3FFFF)) by (bit_vector)
                requires
                    r_bit <= 1,
                    dp_bit <= 1,
                    bits == (r_bit << 17) | (dp_bit << 16) | ((pf as u32) << 8) | (ps as u32),
            ;
        }

        Pgn(bits)
    }
}

} // verus!
