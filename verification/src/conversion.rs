//! The standard conversion contract between the crate's bit-packed entities,
//! raw unsigned integers, and hexadecimal text.
//!
//! Every typed entity implements [`Conversion`] twice over: a best-effort
//! family (`from_bits`, `from_hex`) for trusted input, which never fails and
//! substitutes the zero value for unparseable text, and a fallible family
//! (`try_from_bits`, `try_from_hex`) for untrusted wire data, which reports a
//! typed [`CanError`].

use vstd::prelude::*;

use crate::identifier::Id;
use crate::payload::{Data, Name, Pdu};
use crate::protocol::can2_a::identifier::{Can2A, IdCan2A};
use crate::protocol::can2_b::identifier::{Can2B, IdCan2B};

verus! {

/// The ways a conversion or a field-wise construction can fail.
#[derive(Debug, Clone, Copy, PartialEq, Eq)]
pub enum CanError {
    /// The text is not valid hexadecimal, or denotes a value that does not
    /// fit the entity's storage integer.
    ParseFailure,
    /// The numeric value exceeds the protocol's valid bit-width range.
    OutOfRange,
    /// A priority above 7 was given when constructing from named parts.
    InvalidPriority,
    /// A PDU format above `0x3F` was given when constructing an 11-bit
    /// identifier from named parts.
    InvalidPduFormat,
}

/// Conversion between an entity, its bitfield representation as an unsigned
/// integer of type `T`, and hexadecimal text.
///
/// Each implementation fixes the meaning of the six operations through the
/// six specification functions, so that every call site sees an exact
/// contract: what the entity's bits are, when a fallible conversion is owed
/// success, and which error it returns otherwise.
pub trait Conversion<T>: Sized {
    type Error;

    /// The entity constructed from a raw integer, without validation.
    spec fn from_bits_spec(bits: T) -> Self;

    /// The entity constructed from hexadecimal text, with the zero value
    /// substituted for text that does not parse.
    spec fn from_hex_spec(hex: Seq<char>) -> Self;

    /// The result of the validating construction from a raw integer.
    spec fn try_from_bits_spec(bits: T) -> Result<Self, Self::Error>;

    /// The result of the validating construction from hexadecimal text.
    spec fn try_from_hex_spec(hex: Seq<char>) -> Result<Self, Self::Error>;

    /// The entity's raw integer value.
    spec fn into_bits_spec(self) -> T;

    /// The entity's hexadecimal rendering.
    spec fn into_hex_spec(self) -> Seq<char>;

    /// Convert an integer of type `T` into `Self`, without validation.
    fn from_bits(bits: T) -> (result: Self)
        ensures
            result == Self::from_bits_spec(bits),
    ;

    /// Convert a hexadecimal string slice into `Self`, substituting the zero
    /// value when the text does not parse.
    fn from_hex(hex_str: &str) -> (result: Self)
        ensures
            result == Self::from_hex_spec(hex_str@),
    ;

    /// Convert an integer of type `T` into `Self`, rejecting out-of-range
    /// values.
    fn try_from_bits(bits: T) -> (result: Result<Self, Self::Error>)
        ensures
            result == Self::try_from_bits_spec(bits),
    ;

    /// Convert a hexadecimal string slice into `Self`, rejecting malformed
    /// text and out-of-range values.
    fn try_from_hex(hex_str: &str) -> (result: Result<Self, Self::Error>)
        ensures
            result == Self::try_from_hex_spec(hex_str@),
    ;

    /// Convert `self` into an integer of type `T`; lossless.
    fn into_bits(self) -> (result: T)
        ensures
            result == self.into_bits_spec(),
    ;

    /// Convert `self` into zero-padded uppercase hexadecimal text at the
    /// entity's natural digit width.
    fn into_hex(self) -> (result: String)
        ensures
            result@ == self.into_hex_spec(),
    ;
}

impl From<Pdu<Data>> for Pdu<Name> {
    /// Reinterprets the 64 payload bits as a NAME record, unchanged.
    fn from(value: Pdu<Data>) -> Self {
        Self::from_bits(value.into_bits())
    }
}

impl vstd::std_specs::convert::FromSpecImpl<Pdu<Data>> for Pdu<Name> {
    open spec fn obeys_from_spec() -> bool {
        true
    }

    open spec fn from_spec(v: Pdu<Data>) -> Self {
        Pdu(Name(v.0.0))
    }
}

impl From<Pdu<Name>> for Pdu<Data> {
    /// Reinterprets the 64 payload bits as generic data, unchanged.
    fn from(value: Pdu<Name>) -> Self {
        Self::from_bits(value.into_bits())
    }
}

impl vstd::std_specs::convert::FromSpecImpl<Pdu<Name>> for Pdu<Data> {
    open spec fn obeys_from_spec() -> bool {
        true
    }

    open spec fn from_spec(v: Pdu<Name>) -> Self {
        Pdu(Data(v.0.0))
    }
}

impl From<IdCan2A> for IdCan2B {
    /// Widens an 11-bit standard identifier into the 29-bit extended layout
    /// by zero-extending its raw value; the numeric value is preserved, not
    /// remapped field by field.
    fn from(value: IdCan2A) -> Self {
        Self::from_bits(value.into_bits() as u32)
    }
}

impl vstd::std_specs::convert::FromSpecImpl<IdCan2A> for IdCan2B {
    open spec fn obeys_from_spec() -> bool {
        true
    }

    open spec fn from_spec(v: IdCan2A) -> Self {
        Id(Can2B(v.0.0 as u32))
    }
}

} // verus!
