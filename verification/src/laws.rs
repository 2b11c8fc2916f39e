//! Crate-wide laws: round trips, the PDU classification threshold, payload
//! reinterpretation, and cross-protocol widening, each proved for every
//! input its statement allows.

use vstd::prelude::*;

use vstd::std_specs::convert::FromSpec;

use crate::conversion::Conversion;
use crate::hex::lemma_hex_render_round_trip;
use crate::identifier::Id;
use crate::payload::{Data, Name, Pdu};
use crate::protocol::can2_a::identifier::{Can2A, IdCan2A};
use crate::protocol::can2_b::identifier::{Can2B, IdCan2B};
use crate::protocol::j1939::address::DestinationAddr;
use crate::protocol::j1939::identifier::{IdJ1939, J1939};
use crate::protocol::j1939::pgn::{CommunicationMode, GroupExtension, PduFormat, Pgn};

verus! {

/// Every valid 11-bit integer survives the round trip through a standard
/// identifier: building from bits and reading the bits back returns the
/// value unchanged.
pub proof fn lemma_standard_bits_round_trip(v: u16)
    requires
        v <= 0x7FF,
    ensures
        IdCan2A::from_bits_spec(v).into_bits_spec() == v,
{
}

/// Every valid 29-bit integer survives the round trip through an extended
/// identifier: building from bits and reading the bits back returns the
/// value unchanged.
pub proof fn lemma_extended_bits_round_trip(v: u32)
    requires
        v <= 0x1FFF_FFFF,
    ensures
        IdCan2B::from_bits_spec(v).into_bits_spec() == v,
        IdJ1939::from_bits_spec(v).into_bits_spec() == v,
{
}

/// Every valid 11-bit value survives the round trip through its 3-digit
/// zero-padded hexadecimal rendering: parsing the rendered text rebuilds
/// the same identifier.
pub proof fn lemma_standard_hex_round_trip(v: u16)
    requires
        v <= 0x7FF,
    ensures
        IdCan2A::from_hex_spec(IdCan2A::from_bits_spec(v).into_hex_spec())
            == IdCan2A::from_bits_spec(v),
{
    lemma_hex_render_round_trip(v as nat, 3);
}

/// Every valid 29-bit value survives the round trip through its 8-digit
/// zero-padded hexadecimal rendering: parsing the rendered text rebuilds
/// the same identifier, in the extended and in the J1939 layout alike.
pub proof fn lemma_extended_hex_round_trip(v: u32)
    requires
        v <= 0x1FFF_FFFF,
    ensures
        IdCan2B::from_hex_spec(IdCan2B::from_bits_spec(v).into_hex_spec())
            == IdCan2B::from_bits_spec(v),
        IdJ1939::from_hex_spec(IdJ1939::from_bits_spec(v).into_hex_spec())
            == IdJ1939::from_bits_spec(v),
{
    lemma_hex_render_round_trip(v as nat, 8);
}

/// Range enforcement for the standard identifier: the validating
/// constructor accepts a 16-bit value exactly when it fits 11 bits, and
/// stores an accepted value unchanged.
pub proof fn lemma_standard_range_enforcement(v: u16)
    ensures
        IdCan2A::try_from_bits_spec(v) is Ok <==> v <= 0x7FF,
        IdCan2A::try_from_bits_spec(v) matches Ok(id) ==> id.into_bits_spec() == v,
{
}

/// Range enforcement for the extended identifiers: the validating
/// constructors accept a 32-bit value exactly when it fits 29 bits, and
/// store an accepted value unchanged.
pub proof fn lemma_extended_range_enforcement(v: u32)
    ensures
        IdCan2B::try_from_bits_spec(v) is Ok <==> v <= 0x1FFF_FFFF,
        IdCan2B::try_from_bits_spec(v) matches Ok(id) ==> id.into_bits_spec() == v,
        IdJ1939::try_from_bits_spec(v) is Ok <==> v <= 0x1FFF_FFFF,
        IdJ1939::try_from_bits_spec(v) matches Ok(id) ==> id.into_bits_spec() == v,
{
}

/// The single 239/240 threshold decides every classification of a PGN: a
/// PDU format below 240 is format 1, point-to-point, with the PDU specific
/// byte as destination address and no group extension; a PDU format of 240
/// or above is format 2, broadcast, with the PDU specific byte as group
/// extension and no destination address.
pub proof fn lemma_pgn_threshold(p: Pgn)
    ensures
        p.spec_pdu_format() < 240 ==> {
            &&& p.spec_pdu_format_class() == PduFormat::Pdu1(p.spec_pdu_format())
            &&& p.spec_communication_mode() == CommunicationMode::P2P
            &&& p.spec_destination_address() == DestinationAddr::Present(p.spec_pdu_specific())
            &&& p.spec_group_extension() == GroupExtension::Absent
        },
        p.spec_pdu_format() >= 240 ==> {
            &&& p.spec_pdu_format_class() == PduFormat::Pdu2(p.spec_pdu_format())
            &&& p.spec_communication_mode() == CommunicationMode::Broadcast
            &&& p.spec_destination_address() == DestinationAddr::Absent
            &&& p.spec_group_extension() == GroupExtension::Present(p.spec_pdu_specific())
        },
{
}

/// Reinterpreting a Data payload as a NAME and back is the identity: the
/// 64-bit value is unchanged by the round trip.
pub proof fn lemma_payload_reinterpret_round_trip(value: Pdu<Data>)
    ensures
        <Pdu<Data> as FromSpec<Pdu<Name>>>::from_spec(
            <Pdu<Name> as FromSpec<Pdu<Data>>>::from_spec(value),
        ) == value,
{
}

/// Widening a standard identifier into the extended layout preserves its
/// numeric value: the conversion zero-extends the raw bits rather than
/// remapping fields.
pub proof fn lemma_standard_widen_preserves_value(value: IdCan2A)
    ensures
        <IdCan2B as FromSpec<IdCan2A>>::from_spec(value).into_bits_spec()
            == value.into_bits_spec() as u32,
{
}

} // verus!
