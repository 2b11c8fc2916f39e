//! The bare J1939 NAME bitfield: a free-standing counterpart of the
//! [`crate::payload`] NAME payload, with the same layout and contracts, for
//! callers that do not need the `Pdu` wrapper.

use vstd::prelude::*;

use crate::conversion::{CanError, Conversion};
use crate::hex::{hex_render, hex_value, parse_hex_u64, render_hex, valid_hex};

verus! {

/// Bit layout of a J1939 NAME, the 64-bit structured identity record of a
/// network participant.
///
/// | Field                   | Bits  |
/// |-------------------------|-------|
/// | Arbitrary address       | 63    |
/// | Industry group          | 62-60 |
/// | Vehicle system instance | 59-56 |
/// | Vehicle system          | 55-49 |
/// | Reserved                | 48    |
/// | Function                | 47-40 |
/// | Function instance       | 39-35 |
/// | ECU instance            | 34-32 |
/// | Manufacturer code       | 31-21 |
/// | Identity number         | 20-0  |
#[derive(Debug, Clone, Copy, PartialEq, Eq)]
pub struct Name(pub u64);

impl Conversion<u64> for Name {
    type Error = CanError;

    open spec fn from_bits_spec(bits: u64) -> Self {
        Name(bits)
    }

    open spec fn from_hex_spec(hex: Seq<char>) -> Self {
        if valid_hex(hex) && hex_value(hex) <= u64::MAX {
            Name(hex_value(hex) as u64)
        } else {
            Name(0)
        }
    }

    open spec fn try_from_bits_spec(bits: u64) -> Result<Self, CanError> {
        Ok(Name(bits))
    }

    open spec fn try_from_hex_spec(hex: Seq<char>) -> Result<Self, CanError> {
        if valid_hex(hex) && hex_value(hex) <= u64::MAX {
            Ok(Name(hex_value(hex) as u64))
        } else {
            Err(CanError::ParseFailure)
        }
    }

    open spec fn into_bits_spec(self) -> u64 {
        self.0
    }

    open spec fn into_hex_spec(self) -> Seq<char> {
        hex_render(self.0 as nat, 16)
    }

    /// Creates a new `Name` bitfield from a 64-bit integer.
    fn from_bits(bits: u64) -> Self {
        Name(bits)
    }

    /// Creates a new `Name` bitfield from hexadecimal text, substituting
    /// the zero value when the text does not parse.
    fn from_hex(hex_str: &str) -> Self {
        match parse_hex_u64(hex_str) {
            Some(bits) => Name(bits),
            None => Name(0),
        }
    }

    /// Creates a new `Name` bitfield from a 64-bit integer; every 64-bit
    /// value is valid, so this never fails.
    fn try_from_bits(bits: u64) -> Result<Self, CanError> {
        Ok(Name(bits))
    }

    /// Creates a new `Name` bitfield from hexadecimal text, rejecting
    /// malformed text.
    fn try_from_hex(hex_str: &str) -> Result<Self, CanError> {
        match parse_hex_u64(hex_str) {
            Some(bits) => Ok(Name(bits)),
            None => Err(CanError::ParseFailure),
        }
    }

    /// Returns the stored 64-bit value.
    fn into_bits(self) -> u64 {
        self.0
    }

    /// Renders the stored value as uppercase hexadecimal text, zero-padded
    /// to 16 digits.
    fn into_hex(self) -> String {
        render_hex(self.0, 16)
    }
}

impl Name {
    /// Returns the all-zero NAME.
    pub fn new() -> (r: Self)
        ensures
            r == (Name(0)),
    {
        Name(0)
    }

    /// Returns `self` with the arbitrary-address flag set to `value` and
    /// every other bit unchanged.
    pub fn with_arbitrary_address_bits(self, value: bool) -> (r: Self)
        ensures
            r.0 == (self.0 & !(0x1u64 << 63)) | ((if value {
                1u64
            } else {
                0u64
            }) << 63),
    {
        Name((self.0 & !(0x1u64 << 63)) | ((if value {
            1u64
        } else {
            0u64
        }) << 63))
    }

    /// Returns `self` with the industry group field set to the low 3 bits
    /// of `value` and every other bit unchanged.
    pub fn with_industry_group_bits(self, value: u8) -> (r: Self)
        ensures
            r.0 == (self.0 & !(0x7u64 << 60)) | (((value & 0x7) as u64) << 60),
    {
        Name((self.0 & !(0x7u64 << 60)) | (((value & 0x7) as u64) << 60))
    }

    /// Returns `self` with the vehicle system instance field set to the low
    /// 4 bits of `value` and every other bit unchanged.
    pub fn with_vehicle_system_instance_bits(self, value: u8) -> (r: Self)
        ensures
            r.0 == (self.0 & !(0xFu64 << 56)) | (((value & 0xF) as u64) << 56),
    {
        Name((self.0 & !(0xFu64 << 56)) | (((value & 0xF) as u64) << 56))
    }

    /// Returns `self` with the vehicle system field set to the low 7 bits
    /// of `value` and every other bit unchanged.
    pub fn with_vehicle_system_bits(self, value: u8) -> (r: Self)
        ensures
            r.0 == (self.0 & !(0x7Fu64 << 49)) | (((value & 0x7F) as u64) << 49),
    {
        Name((self.0 & !(0x7Fu64 << 49)) | (((value & 0x7F) as u64) << 49))
    }

    /// Returns `self` with the reserved flag set to `value` and every other
    /// bit unchanged.
    pub fn with_reserved_bits(self, value: bool) -> (r: Self)
        ensures
            r.0 == (self.0 & !(0x1u64 << 48)) | ((if value {
                1u64
            } else {
                0u64
            }) << 48),
    {
        Name((self.0 & !(0x1u64 << 48)) | ((if value {
            1u64
        } else {
            0u64
        }) << 48))
    }

    /// Returns `self` with the function field set to `value` and every
    /// other bit unchanged.
    pub fn with_function_bits(self, value: u8) -> (r: Self)
        ensures
            r.0 == (self.0 & !(0xFFu64 << 40)) | ((value as u64) << 40),
    {
        Name((self.0 & !(0xFFu64 << 40)) | ((value as u64) << 40))
    }

    /// Returns `self` with the function instance field set to the low 5
    /// bits of `value` and every other bit unchanged.
    pub fn with_function_instance_bits(self, value: u8) -> (r: Self)
        ensures
            r.0 == (self.0 & !(0x1Fu64 << 35)) | (((value & 0x1F) as u64) << 35),
    {
        Name((self.0 & !(0x1Fu64 << 35)) | (((value & 0x1F) as u64) << 35))
    }

    /// Returns `self` with the ECU instance field set to the low 3 bits of
    /// `value` and every other bit unchanged.
    pub fn with_ecu_instance_bits(self, value: u8) -> (r: Self)
        ensures
            r.0 == (self.0 & !(0x7u64 << 32)) | (((value & 0x7) as u64) << 32),
    {
        Name((self.0 & !(0x7u64 << 32)) | (((value & 0x7) as u64) << 32))
    }

    /// Returns `self` with the manufacturer code field set to the low 11
    /// bits of `value` and every other bit unchanged.
    pub fn with_manufacturer_code_bits(self, value: u16) -> (r: Self)
        ensures
            r.0 == (self.0 & !(0x7FFu64 << 21)) | (((value & 0x7FF) as u64) << 21),
    {
        Name((self.0 & !(0x7FFu64 << 21)) | (((value & 0x7FF) as u64) << 21))
    }

    /// Returns `self` with the identity number field set to the low 21 bits
    /// of `value` and every other bit unchanged.
    pub fn with_identity_number_bits(self, value: u32) -> (r: Self)
        ensures
            r.0 == (self.0 & !0x1F_FFFFu64) | ((value & 0x1F_FFFF) as u64),
    {
        Name((self.0 & !0x1F_FFFFu64) | ((value & 0x1F_FFFF) as u64))
    }

    /// Indicates whether the ECU can negotiate an address on the network.
    pub fn arbitrary_address(&self) -> (r: bool)
        ensures
            r == ((self.0 >> 63) & 1 == 1),
    {
        (self.0 >> 63) & 1 == 1
    }

    /// The industry group, associating the device with an industry such as
    /// on-highway or agricultural equipment.
    pub fn industry_group(&self) -> (r: u8)
        ensures
            r == (((self.0 >> 60) & 0x7) as u8),
    {
        ((self.0 >> 60) & 0x7) as u8
    }

    /// The instance number of the vehicle system on the network.
    pub fn vehicle_system_instance(&self) -> (r: u8)
        ensures
            r == (((self.0 >> 56) & 0xF) as u8),
    {
        ((self.0 >> 56) & 0xF) as u8
    }

    /// The vehicle system, interpreted within the industry group.
    pub fn vehicle_system(&self) -> (r: u8)
        ensures
            r == (((self.0 >> 49) & 0x7F) as u8),
    {
        ((self.0 >> 49) & 0x7F) as u8
    }

    /// The reserved flag; always zero in conforming records.
    pub fn reserved(&self) -> (r: bool)
        ensures
            r == ((self.0 >> 48) & 1 == 1),
    {
        (self.0 >> 48) & 1 == 1
    }

    /// The function code, assigned according to the industry group when at
    /// or above 128.
    pub fn function(&self) -> (r: u8)
        ensures
            r == (((self.0 >> 40) & 0xFF) as u8),
    {
        ((self.0 >> 40) & 0xFF) as u8
    }

    /// The function instance.
    pub fn function_instance(&self) -> (r: u8)
        ensures
            r == (((self.0 >> 35) & 0x1F) as u8),
    {
        ((self.0 >> 35) & 0x1F) as u8
    }

    /// The ECU instance, separating multiple ECUs of the same kind.
    pub fn ecu_instance(&self) -> (r: u8)
        ensures
            r == (((self.0 >> 32) & 0x7) as u8),
    {
        ((self.0 >> 32) & 0x7) as u8
    }

    /// The 11-bit manufacturer code assigned by the SAE.
    pub fn manufacturer_code(&self) -> (r: u16)
        ensures
            r == (((self.0 >> 21) & 0x7FF) as u16),
    {
        ((self.0 >> 21) & 0x7FF) as u16
    }

    /// The identity number assigned by the manufacturer, akin to a serial
    /// number.
    pub fn identity_number(&self) -> (r: u32)
        ensures
            r == ((self.0 & 0x1F_FFFF) as u32),
    {
        (self.0 & 0x1F_FFFF) as u32
    }
}

} // verus!
