//! The contents of a protocol data unit (PDU): either 8 bytes of generic
//! `Data`, or the structured J1939 `Name` identity record.
//!
//! Both interpretations are views of the same packed 64 bits, so a payload
//! converts between them by bit reinterpretation alone.

use vstd::prelude::*;

use crate::conversion::{CanError, Conversion};
use crate::hex::{hex_render, hex_value, parse_hex_u64, render_hex, valid_hex};

verus! {

/// Marks a type, associating it with a protocol data unit (PDU).
pub trait IsDataUnit {}

/// Bit layout of an 8-byte data field, stored in a `u64` with byte 0 the
/// most significant byte.
///
/// | Field  | Bits  |
/// |--------|-------|
/// | Byte 0 | 63-56 |
/// | Byte 1 | 55-48 |
/// | Byte 2 | 47-40 |
/// | Byte 3 | 39-32 |
/// | Byte 4 | 31-24 |
/// | Byte 5 | 23-16 |
/// | Byte 6 | 15-8  |
/// | Byte 7 | 7-0   |
#[derive(Debug, Clone, Copy, PartialEq, Eq, PartialOrd, Ord)]
pub struct Data(pub u64);

impl Data {
    /// Byte `i` of the payload, counted from the most significant byte;
    /// meaningful only for `i < 8`.
    pub open spec fn spec_byte(self, i: int) -> u8 {
        spec_byte_of_u64(self.0, i)
    }
}

/// Byte `i` of `v`, counted from the most significant byte; meaningful only
/// for `i < 8`.
pub open spec fn spec_byte_of_u64(v: u64, i: int) -> u8 {
    ((v >> ((56 - 8 * i) as u64)) & 0xFF) as u8
}

/// The eight bytes of `v` in big-endian order: most significant first.
pub open spec fn spec_be_bytes_u64(v: u64) -> Seq<u8> {
    seq![
        spec_byte_of_u64(v, 0),
        spec_byte_of_u64(v, 1),
        spec_byte_of_u64(v, 2),
        spec_byte_of_u64(v, 3),
        spec_byte_of_u64(v, 4),
        spec_byte_of_u64(v, 5),
        spec_byte_of_u64(v, 6),
        spec_byte_of_u64(v, 7),
    ]
}

/// The eight bytes of `v` in little-endian order: least significant first.
pub open spec fn spec_le_bytes_u64(v: u64) -> Seq<u8> {
    seq![
        spec_byte_of_u64(v, 7),
        spec_byte_of_u64(v, 6),
        spec_byte_of_u64(v, 5),
        spec_byte_of_u64(v, 4),
        spec_byte_of_u64(v, 3),
        spec_byte_of_u64(v, 2),
        spec_byte_of_u64(v, 1),
        spec_byte_of_u64(v, 0),
    ]
}

/// Returns the eight bytes of `v` in little-endian order.
pub(crate) fn le_bytes_u64(v: u64) -> (r: [u8; 8])
    ensures
        r@ == spec_le_bytes_u64(v),
{
    let r = [
        ((v >> 0) & 0xFF) as u8,
        ((v >> 8) & 0xFF) as u8,
        ((v >> 16) & 0xFF) as u8,
        ((v >> 24) & 0xFF) as u8,
        ((v >> 32) & 0xFF) as u8,
        ((v >> 40) & 0xFF) as u8,
        ((v >> 48) & 0xFF) as u8,
        ((v >> 56) & 0xFF) as u8,
    ];
    proof {
        assert(r@ =~= spec_le_bytes_u64(v));
    }
    r
}

/// Returns the eight bytes of `v` in big-endian order.
pub(crate) fn be_bytes_u64(v: u64) -> (r: [u8; 8])
    ensures
        r@ == spec_be_bytes_u64(v),
{
    let r = [
        ((v >> 56) & 0xFF) as u8,
        ((v >> 48) & 0xFF) as u8,
        ((v >> 40) & 0xFF) as u8,
        ((v >> 32) & 0xFF) as u8,
        ((v >> 24) & 0xFF) as u8,
        ((v >> 16) & 0xFF) as u8,
        ((v >> 8) & 0xFF) as u8,
        ((v >> 0) & 0xFF) as u8,
    ];
    proof {
        assert(r@ =~= spec_be_bytes_u64(v));
    }
    r
}

/// Relies on `u64::to_ne_bytes`: the native byte order of every target is
/// either little endian or big endian, so the result is one of the two
/// orderings of the value's bytes.
#[verifier::external_body]
pub(crate) fn ne_bytes_u64(v: u64) -> (r: [u8; 8])
    ensures
        r@ == spec_le_bytes_u64(v) || r@ == spec_be_bytes_u64(v),
{
    v.to_ne_bytes()
}

/// Bit layout of a J1939 NAME, the 64-bit structured identity record of a
/// network participant.
///
/// | Field                   | Bits  |
/// |-------------------------|-------|
/// | Arbitrary address       | 63    |
/// | Industry group          | 62-60 |
/// | Vehicle system instance | 59-56 |
/// | Vehicle system          | 55-49 |
/// | Reserved                | 48    |
/// | Function                | 47-40 |
/// | Function instance       | 39-35 |
/// | ECU instance            | 34-32 |
/// | Manufacturer code       | 31-21 |
/// | Identity number         | 20-0  |
#[derive(Debug, Clone, Copy, PartialEq, Eq, PartialOrd, Ord)]
pub struct Name(pub u64);

impl Name {
    /// The arbitrary-address flag.
    pub open spec fn spec_arbitrary_address(self) -> bool {
        (self.0 >> 63) & 1 == 1
    }

    /// The 3-bit industry group field.
    pub open spec fn spec_industry_group(self) -> u8 {
        ((self.0 >> 60) & 0x7) as u8
    }

    /// The 4-bit vehicle system instance field.
    pub open spec fn spec_vehicle_system_instance(self) -> u8 {
        ((self.0 >> 56) & 0xF) as u8
    }

    /// The 7-bit vehicle system field.
    pub open spec fn spec_vehicle_system(self) -> u8 {
        ((self.0 >> 49) & 0x7F) as u8
    }

    /// The reserved flag.
    pub open spec fn spec_reserved(self) -> bool {
        (self.0 >> 48) & 1 == 1
    }

    /// The 8-bit function field.
    pub open spec fn spec_function(self) -> u8 {
        ((self.0 >> 40) & 0xFF) as u8
    }

    /// The 5-bit function instance field.
    pub open spec fn spec_function_instance(self) -> u8 {
        ((self.0 >> 35) & 0x1F) as u8
    }

    /// The 3-bit ECU instance field.
    pub open spec fn spec_ecu_instance(self) -> u8 {
        ((self.0 >> 32) & 0x7) as u8
    }

    /// The 11-bit manufacturer code field.
    pub open spec fn spec_manufacturer_code(self) -> u16 {
        ((self.0 >> 21) & 0x7FF) as u16
    }

    /// The 21-bit identity number field.
    pub open spec fn spec_identity_number(self) -> u32 {
        (self.0 & 0x1F_FFFF) as u32
    }

    /// Returns the all-zero NAME.
    pub fn new() -> (r: Self)
        ensures
            r == (Name(0)),
    {
        Name(0)
    }

    /// Returns `self` with the arbitrary-address flag set to `value` and
    /// every other bit unchanged.
    pub fn with_arbitrary_address_bits(self, value: bool) -> (r: Self)
        ensures
            r.0 == (self.0 & !(0x1u64 << 63)) | ((if value {
                1u64
            } else {
                0u64
            }) << 63),
    {
        Name((self.0 & !(0x1u64 << 63)) | ((if value {
            1u64
        } else {
            0u64
        }) << 63))
    }

    /// Returns `self` with the industry group field set to the low 3 bits
    /// of `value` and every other bit unchanged.
    pub fn with_industry_group_bits(self, value: u8) -> (r: Self)
        ensures
            r.0 == (self.0 & !(0x7u64 << 60)) | (((value & 0x7) as u64) << 60),
    {
        Name((self.0 & !(0x7u64 << 60)) | (((value & 0x7) as u64) << 60))
    }

    /// Returns `self` with the vehicle system instance field set to the low
    /// 4 bits of `value` and every other bit unchanged.
    pub fn with_vehicle_system_instance_bits(self, value: u8) -> (r: Self)
        ensures
            r.0 == (self.0 & !(0xFu64 << 56)) | (((value & 0xF) as u64) << 56),
    {
        Name((self.0 & !(0xFu64 << 56)) | (((value & 0xF) as u64) << 56))
    }

    /// Returns `self` with the vehicle system field set to the low 7 bits
    /// of `value` and every other bit unchanged.
    pub fn with_vehicle_system_bits(self, value: u8) -> (r: Self)
        ensures
            r.0 == (self.0 & !(0x7Fu64 << 49)) | (((value & 0x7F) as u64) << 49),
    {
        Name((self.0 & !(0x7Fu64 << 49)) | (((value & 0x7F) as u64) << 49))
    }

    /// Returns `self` with the reserved flag set to `value` and every other
    /// bit unchanged.
    pub fn with_reserved_bits(self, value: bool) -> (r: Self)
        ensures
            r.0 == (self.0 & !(0x1u64 << 48)) | ((if value {
                1u64
            } else {
                0u64
            }) << 48),
    {
        Name((self.0 & !(0x1u64 << 48)) | ((if value {
            1u64
        } else {
            0u64
        }) << 48))
    }

    /// Returns `self` with the function field set to `value` and every
    /// other bit unchanged.
    pub fn with_function_bits(self, value: u8) -> (r: Self)
        ensures
            r.0 == (self.0 & !(0xFFu64 << 40)) | ((value as u64) << 40),
    {
        Name((self.0 & !(0xFFu64 << 40)) | ((value as u64) << 40))
    }

    /// Returns `self` with the function instance field set to the low 5
    /// bits of `value` and every other bit unchanged.
    pub fn with_function_instance_bits(self, value: u8) -> (r: Self)
        ensures
            r.0 == (self.0 & !(0x1Fu64 << 35)) | (((value & 0x1F) as u64) << 35),
    {
        Name((self.0 & !(0x1Fu64 << 35)) | (((value & 0x1F) as u64) << 35))
    }

    /// Returns `self` with the ECU instance field set to the low 3 bits of
    /// `value` and every other bit unchanged.
    pub fn with_ecu_instance_bits(self, value: u8) -> (r: Self)
        ensures
            r.0 == (self.0 & !(0x7u64 << 32)) | (((value & 0x7) as u64) << 32),
    {
        Name((self.0 & !(0x7u64 << 32)) | (((value & 0x7) as u64) << 32))
    }

    /// Returns `self` with the manufacturer code field set to the low 11
    /// bits of `value` and every other bit unchanged.
    pub fn with_manufacturer_code_bits(self, value: u16) -> (r: Self)
        ensures
            r.0 == (self.0 & !(0x7FFu64 << 21)) | (((value & 0x7FF) as u64) << 21),
    {
        Name((self.0 & !(0x7FFu64 << 21)) | (((value & 0x7FF) as u64) << 21))
    }

    /// Returns `self` with the identity number field set to the low 21 bits
    /// of `value` and every other bit unchanged.
    pub fn with_identity_number_bits(self, value: u32) -> (r: Self)
        ensures
            r.0 == (self.0 & !0x1F_FFFFu64) | ((value & 0x1F_FFFF) as u64),
    {
        Name((self.0 & !0x1F_FFFFu64) | ((value & 0x1F_FFFF) as u64))
    }
}

impl IsDataUnit for Data {

}

impl IsDataUnit for Name {

}

/// A protocol data unit (PDU): 64 bits of payload under the interpretation
/// `U`.
#[derive(Debug, Clone, Copy, PartialEq, Eq, PartialOrd, Ord)]
pub struct Pdu<U: IsDataUnit>(pub U);

impl Conversion<u64> for Pdu<Data> {
    type Error = CanError;

    open spec fn from_bits_spec(bits: u64) -> Self {
        Pdu(Data(bits))
    }

    open spec fn from_hex_spec(hex: Seq<char>) -> Self {
        if valid_hex(hex) && hex_value(hex) <= u64::MAX {
            Pdu(Data(hex_value(hex) as u64))
        } else {
            Pdu(Data(0))
        }
    }

    open spec fn try_from_bits_spec(bits: u64) -> Result<Self, CanError> {
        Ok(Pdu(Data(bits)))
    }

    open spec fn try_from_hex_spec(hex: Seq<char>) -> Result<Self, CanError> {
        if valid_hex(hex) && hex_value(hex) <= u64::MAX {
            Ok(Pdu(Data(hex_value(hex) as u64)))
        } else {
            Err(CanError::ParseFailure)
        }
    }

    open spec fn into_bits_spec(self) -> u64 {
        self.0.0
    }

    open spec fn into_hex_spec(self) -> Seq<char> {
        hex_render(self.0.0 as nat, 16)
    }

    /// Creates a new [`Data`] payload from a 64-bit integer.
    fn from_bits(bits: u64) -> Self {
        Pdu(Data(bits))
    }

    /// Creates a new [`Data`] payload from hexadecimal text, substituting
    /// the zero value when the text does not parse.
    fn from_hex(hex_str: &str) -> Self {
        match parse_hex_u64(hex_str) {
            Some(bits) => Pdu(Data(bits)),
            None => Pdu(Data(0)),
        }
    }

    /// Creates a new [`Data`] payload from a 64-bit integer; every 64-bit
    /// value is valid, so this never fails.
    fn try_from_bits(bits: u64) -> Result<Self, CanError> {
        Ok(Pdu(Data(bits)))
    }

    /// Creates a new [`Data`] payload from hexadecimal text, rejecting
    /// malformed text.
    fn try_from_hex(hex_str: &str) -> Result<Self, CanError> {
        match parse_hex_u64(hex_str) {
            Some(bits) => Ok(Pdu(Data(bits))),
            None => Err(CanError::ParseFailure),
        }
    }

    /// Returns the stored 64-bit value.
    fn into_bits(self) -> u64 {
        self.0.0
    }

    /// Renders the stored value as uppercase hexadecimal text, zero-padded
    /// to 16 digits.
    fn into_hex(self) -> String {
        render_hex(self.0.0, 16)
    }
}

impl Pdu<Data> {
    /// Retrieve byte 0, the most significant byte.
    pub fn byte_0(self) -> (r: u8)
        ensures
            r == self.0.spec_byte(0),
    {
        ((self.0.0 >> 56) & 0xFF) as u8
    }

    /// Retrieve byte 1.
    pub fn byte_1(self) -> (r: u8)
        ensures
            r == self.0.spec_byte(1),
    {
        ((self.0.0 >> 48) & 0xFF) as u8
    }

    /// Retrieve byte 2.
    pub fn byte_2(self) -> (r: u8)
        ensures
            r == self.0.spec_byte(2),
    {
        ((self.0.0 >> 40) & 0xFF) as u8
    }

    /// Retrieve byte 3.
    pub fn byte_3(self) -> (r: u8)
        ensures
            r == self.0.spec_byte(3),
    {
        ((self.0.0 >> 32) & 0xFF) as u8
    }

    /// Retrieve byte 4.
    pub fn byte_4(self) -> (r: u8)
        ensures
            r == self.0.spec_byte(4),
    {
        ((self.0.0 >> 24) & 0xFF) as u8
    }

    /// Retrieve byte 5.
    pub fn byte_5(self) -> (r: u8)
        ensures
            r == self.0.spec_byte(5),
    {
        ((self.0.0 >> 16) & 0xFF) as u8
    }

    /// Retrieve byte 6.
    pub fn byte_6(self) -> (r: u8)
        ensures
            r == self.0.spec_byte(6),
    {
        ((self.0.0 >> 8) & 0xFF) as u8
    }

    /// Retrieve byte 7, the least significant byte.
    pub fn byte_7(self) -> (r: u8)
        ensures
            r == self.0.spec_byte(7),
    {
        ((self.0.0 >> 0) & 0xFF) as u8
    }

    /// Return the payload as bytes in little-endian order: the least
    /// significant byte first.
    pub fn to_le_bytes(&self) -> (r: [u8; 8])
        ensures
            r@ == spec_le_bytes_u64(self.0.0),
    {
        le_bytes_u64(self.0.0)
    }

    /// Return the payload as bytes in big-endian order: the most
    /// significant byte first.
    pub fn to_be_bytes(&self) -> (r: [u8; 8])
        ensures
            r@ == spec_be_bytes_u64(self.0.0),
    {
        be_bytes_u64(self.0.0)
    }

    /// Return the payload as bytes in the machine's native order, which is
    /// the little-endian or the big-endian ordering of its bytes.
    pub fn to_ne_bytes(&self) -> (r: [u8; 8])
        ensures
            r@ == spec_le_bytes_u64(self.0.0) || r@ == spec_be_bytes_u64(self.0.0),
    {
        ne_bytes_u64(self.0.0)
    }

    /// Convert the payload to little-endian byte format; the stored value
    /// is already held least significant byte first, so this is the
    /// identity.
    pub fn to_le(&self) -> (r: Self)
        ensures
            r == *self,
    {
        Pdu(Data(self.0.0))
    }

    /// Convert the payload to big-endian byte format by reversing the order
    /// of its eight bytes.
    pub fn to_be(&self) -> (r: Self)
        ensures
            r.0.0 == spec_swap_bytes_u64(self.0.0),
    {
        Pdu(Data(swap_bytes_u64(self.0.0)))
    }
}

/// The 64-bit value whose eight bytes are those of `v` in reverse order.
pub open spec fn spec_swap_bytes_u64(v: u64) -> u64 {
    ((v & 0xFF) << 56) | (((v >> 8) & 0xFF) << 48) | (((v >> 16) & 0xFF) << 40) | (((v >> 24)
        & 0xFF) << 32) | (((v >> 32) & 0xFF) << 24) | (((v >> 40) & 0xFF) << 16) | (((v >> 48)
        & 0xFF) << 8) | ((v >> 56) & 0xFF)
}

/// Reverses the order of the eight bytes of `v`.
pub fn swap_bytes_u64(v: u64) -> (r: u64)
    ensures
        r == spec_swap_bytes_u64(v),
{
    ((v & 0xFF) << 56) | (((v >> 8) & 0xFF) << 48) | (((v >> 16) & 0xFF) << 40) | (((v >> 24)
        & 0xFF) << 32) | (((v >> 32) & 0xFF) << 24) | (((v >> 40) & 0xFF) << 16) | (((v >> 48)
        & 0xFF) << 8) | ((v >> 56) & 0xFF)
}

impl Conversion<u64> for Pdu<Name> {
    type Error = CanError;

    open spec fn from_bits_spec(bits: u64) -> Self {
        Pdu(Name(bits))
    }

    open spec fn from_hex_spec(hex: Seq<char>) -> Self {
        if valid_hex(hex) && hex_value(hex) <= u64::MAX {
            Pdu(Name(hex_value(hex) as u64))
        } else {
            Pdu(Name(0))
        }
    }

    open spec fn try_from_bits_spec(bits: u64) -> Result<Self, CanError> {
        Ok(Pdu(Name(bits)))
    }

    open spec fn try_from_hex_spec(hex: Seq<char>) -> Result<Self, CanError> {
        if valid_hex(hex) && hex_value(hex) <= u64::MAX {
            Ok(Pdu(Name(hex_value(hex) as u64)))
        } else {
            Err(CanError::ParseFailure)
        }
    }

    open spec fn into_bits_spec(self) -> u64 {
        self.0.0
    }

    open spec fn into_hex_spec(self) -> Seq<char> {
        hex_render(self.0.0 as nat, 16)
    }

    /// Creates a new [`Name`] payload from a 64-bit integer.
    fn from_bits(bits: u64) -> Self {
        Pdu(Name(bits))
    }

    /// Creates a new [`Name`] payload from hexadecimal text, substituting
    /// the zero value when the text does not parse.
    fn from_hex(hex_str: &str) -> Self {
        match parse_hex_u64(hex_str) {
            Some(bits) => Pdu(Name(bits)),
            None => Pdu(Name(0)),
        }
    }

    /// Creates a new [`Name`] payload from a 64-bit integer; every 64-bit
    /// value is valid, so this never fails.
    fn try_from_bits(bits: u64) -> Result<Self, CanError> {
        Ok(Pdu(Name(bits)))
    }

    /// Creates a new [`Name`] payload from hexadecimal text, rejecting
    /// malformed text.
    fn try_from_hex(hex_str: &str) -> Result<Self, CanError> {
        match parse_hex_u64(hex_str) {
            Some(bits) => Ok(Pdu(Name(bits))),
            None => Err(CanError::ParseFailure),
        }
    }

    /// Returns the stored 64-bit value.
    fn into_bits(self) -> u64 {
        self.0.0
    }

    /// Renders the stored value as uppercase hexadecimal text, zero-padded
    /// to 16 digits.
    fn into_hex(self) -> String {
        render_hex(self.0.0, 16)
    }
}

impl Pdu<Name> {
    /// Indicates whether the ECU can negotiate an address on the network.
    pub fn arbitrary_address(&self) -> (r: bool)
        ensures
            r == self.0.spec_arbitrary_address(),
    {
        (self.0.0 >> 63) & 1 == 1
    }

    /// The industry group, associating the device with an industry such as
    /// on-highway or agricultural equipment.
    pub fn industry_group(&self) -> (r: u8)
        ensures
            r == self.0.spec_industry_group(),
    {
        ((self.0.0 >> 60) & 0x7) as u8
    }

    /// The instance number of the vehicle system on the network.
    pub fn vehicle_system_instance(&self) -> (r: u8)
        ensures
            r == self.0.spec_vehicle_system_instance(),
    {
        ((self.0.0 >> 56) & 0xF) as u8
    }

    /// The vehicle system, interpreted within the industry group.
    pub fn vehicle_system(&self) -> (r: u8)
        ensures
            r == self.0.spec_vehicle_system(),
    {
        ((self.0.0 >> 49) & 0x7F) as u8
    }

    /// The reserved flag; always zero in conforming records.
    pub fn reserved(&self) -> (r: bool)
        ensures
            r == self.0.spec_reserved(),
    {
        (self.0.0 >> 48) & 1 == 1
    }

    /// The function code, assigned according to the industry group when at
    /// or above 128.
    pub fn function(&self) -> (r: u8)
        ensures
            r == self.0.spec_function(),
    {
        ((self.0.0 >> 40) & 0xFF) as u8
    }

    /// The function instance.
    pub fn function_instance(&self) -> (r: u8)
        ensures
            r == self.0.spec_function_instance(),
    {
        ((self.0.0 >> 35) & 0x1F) as u8
    }

    /// The ECU instance, separating multiple ECUs of the same kind.
    pub fn ecu_instance(&self) -> (r: u8)
        ensures
            r == self.0.spec_ecu_instance(),
    {
        ((self.0.0 >> 32) & 0x7) as u8
    }

    /// The 11-bit manufacturer code assigned by the SAE.
    pub fn manufacturer_code(&self) -> (r: u16)
        ensures
            r == self.0.spec_manufacturer_code(),
    {
        ((self.0.0 >> 21) & 0x7FF) as u16
    }

    /// The identity number assigned by the manufacturer, akin to a serial
    /// number.
    pub fn identity_number(&self) -> (r: u32)
        ensures
            r == self.0.spec_identity_number(),
    {
        (self.0.0 & 0x1F_FFFF) as u32
    }
}

} // verus!
