use can_types::conversion::{CanError, Conversion};
use can_types::pgn::IdExtended;
use can_types::protocol::j1939::address::{Addr, DestinationAddr};
use can_types::protocol::j1939::identifier::IdJ1939;
use can_types::protocol::j1939::pgn::{CommunicationMode, GroupExtension, PduAssignment, PduFormat, Pgn};
use can_types::pgn::CommunicationMode as BareCommunicationMode;
use can_types::pgn::DestinationAddress as BareDestinationAddress;
use can_types::pgn::GroupExtension as BareGroupExtension;
use can_types::pgn::PduAssignment as BarePduAssignment;
use can_types::pgn::PduFormat as BarePduFormat;
use can_types::protocol::j1939::address::SourceAddr;

#[test]
fn pgn_test_pdu_assignment() -> Result<(), CanError> {
    let id_a = IdJ1939::try_from_hex("18FEF200")?;
    let id_b = IdJ1939::try_from_hex("1CFE9201")?;
    let id_c = IdJ1939::try_from_hex("10FF2121")?;
    let id_d = IdJ1939::try_from_hex("0C00290B")?;

    let assignment_a = id_a.pgn().pdu_assignment();
    let assignment_b = id_b.pgn().pdu_assignment();
    let assignment_c = id_c.pgn().pdu_assignment();
    let assignment_d = id_d.pgn().pdu_assignment();

    assert_eq!(PduAssignment::Sae(65266), assignment_a);
    assert_eq!(PduAssignment::Sae(65170), assignment_b);
    assert_eq!(PduAssignment::Manufacturer(65313), assignment_c);
    assert_eq!(PduAssignment::Sae(41), assignment_d);
    let legacy_a = IdExtended::from_hex("18FEF200")?;
    let legacy_c = IdExtended::from_hex("10FF2121")?;
    assert_eq!(BarePduAssignment::Sae(65266), legacy_a.pgn().pdu_assignment());
    assert_eq!(BarePduAssignment::Manufacturer(65313), legacy_c.pgn().pdu_assignment());

    Ok(())
}

#[test]
fn pgn_test_communication_mode() -> Result<(), CanError> {
    let id_a = IdJ1939::try_from_hex("18FEF200")?;
    let id_b = IdJ1939::try_from_hex("1CFE9201")?;
    let id_c = IdJ1939::try_from_hex("10FF2121")?;
    let id_d = IdJ1939::try_from_hex("0C00290B")?;

    let comms_mode_a = id_a.pgn().communication_mode();
    let comms_mode_b = id_b.pgn().communication_mode();
    let comms_mode_c = id_c.pgn().communication_mode();
    let comms_mode_d = id_d.pgn().communication_mode();

    assert_eq!(CommunicationMode::Broadcast, comms_mode_a);
    assert_eq!(CommunicationMode::Broadcast, comms_mode_b);
    assert_eq!(CommunicationMode::Broadcast, comms_mode_c);
    assert_eq!(CommunicationMode::P2P, comms_mode_d);
    let legacy_a = IdExtended::from_hex("18FEF200")?;
    let legacy_d = IdExtended::from_hex("0C00290B")?;
    assert_eq!(BareCommunicationMode::Broadcast, legacy_a.pgn().communication_mode());
    assert_eq!(BareCommunicationMode::P2P, legacy_d.pgn().communication_mode());
    assert!(legacy_d.pgn().is_p2p());
    assert!(legacy_a.pgn().is_broadcast());

    Ok(())
}

#[test]
fn pgn_test_destination_address() -> Result<(), CanError> {
    let id_a = IdJ1939::try_from_hex("18FEF200")?;
    let id_b = IdJ1939::try_from_hex("1CFE9201")?;
    let id_c = IdJ1939::try_from_hex("10FF2121")?;
    let id_d = IdJ1939::try_from_hex("0C00290B")?;

    let dest_addr_a = id_a.pgn().destination_address();
    let dest_addr_b = id_b.pgn().destination_address();
    let dest_addr_c = id_c.pgn().destination_address();
    let dest_addr_d = id_d.pgn().destination_address();

    assert_eq!(DestinationAddr::Absent, dest_addr_a);
    assert_eq!(DestinationAddr::Absent, dest_addr_b);
    assert_eq!(DestinationAddr::Absent, dest_addr_c);
    assert_eq!(DestinationAddr::Present(41), dest_addr_d);
    assert_eq!(Some(Addr::RetarderExhaustEngine1), dest_addr_d.lookup());
    let legacy_d = IdExtended::from_hex("0C00290B")?;
    assert_eq!(BareDestinationAddress::Present(41), legacy_d.pgn().destination_address());

    Ok(())
}

#[test]
fn pgn_test_group_extension() -> Result<(), CanError> {
    let id_a = IdJ1939::try_from_hex("18FEF200")?;
    let id_b = IdJ1939::try_from_hex("1CFE9201")?;
    let id_c = IdJ1939::try_from_hex("10FF2121")?;
    let id_d = IdJ1939::try_from_hex("0C00290B")?;

    let group_ext_a = id_a.pgn().group_extension();
    let group_ext_b = id_b.pgn().group_extension();
    let group_ext_c = id_c.pgn().group_extension();
    let group_ext_d = id_d.pgn().group_extension();

    assert_eq!(GroupExtension::Present(242), group_ext_a);
    assert_eq!(GroupExtension::Present(146), group_ext_b);
    assert_eq!(GroupExtension::Present(33), group_ext_c);
    assert_eq!(GroupExtension::Absent, group_ext_d);
    let legacy_a = IdExtended::from_hex("18FEF200")?;
    let legacy_d = IdExtended::from_hex("0C00290B")?;
    assert_eq!(BareGroupExtension::Present(242), legacy_a.pgn().group_extension());
    assert_eq!(BareGroupExtension::Absent, legacy_d.pgn().group_extension());

    Ok(())
}

#[test]
fn pgn_test_pdu_format() -> Result<(), CanError> {
    let id_a = IdJ1939::try_from_hex("18FEF200")?;
    let id_b = IdJ1939::try_from_hex("1CFE9201")?;
    let id_c = IdJ1939::try_from_hex("10FF2121")?;
    let id_d = IdJ1939::try_from_hex("0C00290B")?;

    let pdu_format_a = id_a.pgn().pdu_format();
    let pdu_format_b = id_b.pgn().pdu_format();
    let pdu_format_c = id_c.pgn().pdu_format();
    let pdu_format_d = id_d.pgn().pdu_format();

    assert_eq!(PduFormat::Pdu2(254), pdu_format_a);
    assert_eq!(PduFormat::Pdu2(254), pdu_format_b);
    assert_eq!(PduFormat::Pdu2(255), pdu_format_c);
    assert_eq!(PduFormat::Pdu1(0), pdu_format_d);
    let legacy_a = IdExtended::from_hex("18FEF200")?;
    let legacy_d = IdExtended::from_hex("0C00290B")?;
    assert_eq!(BarePduFormat::Pdu2(254), legacy_a.pgn().pdu_format());
    assert_eq!(BarePduFormat::Pdu1(0), legacy_d.pgn().pdu_format());

    Ok(())
}

#[test]
fn pgn_test_pgn_bits() -> Result<(), CanError> {
    let id_a = IdJ1939::try_from_hex("18FEF200")?;
    let id_b = IdJ1939::try_from_hex("1CFE9201")?;
    let id_c = IdJ1939::try_from_hex("10FF2121")?;
    let id_d = IdJ1939::try_from_hex("0C00290B")?;

    let pgn_bits_a = id_a.pgn();
    let pgn_bits_b = id_b.pgn();
    let pgn_bits_c = id_c.pgn();
    let pgn_bits_d = id_d.pgn();

    assert_eq!(65266, pgn_bits_a.into_bits());
    assert_eq!(65170, pgn_bits_b.into_bits());
    assert_eq!(65313, pgn_bits_c.into_bits());
    assert_eq!(41, pgn_bits_d.into_bits());

    let legacy_a = IdExtended::from_hex("18FEF200")?;
    let legacy_d = IdExtended::from_hex("0C00290B")?;
    assert_eq!(65266, legacy_a.pgn_bits());
    assert_eq!(41, legacy_d.pgn_bits());

    Ok(())
}

#[test]
fn test_translate() {
    let sa_translated: Addr = 41.into();
    assert_eq!("Retarder, Exhaust, Engine #1", sa_translated.label());

    let sa_value: u8 = Addr::RetarderExhaustEngine1.into();
    assert_eq!(41, sa_value)
}

#[test]
fn test_pdu_format_threshold() {
    // PDU format 239 is the last format-1 value; 240 is the first format-2.
    let pgn_a = Pgn::from_bits(239 << 8 | 0x29);
    assert_eq!(PduFormat::Pdu1(239), pgn_a.pdu_format());
    assert_eq!(CommunicationMode::P2P, pgn_a.communication_mode());
    assert!(pgn_a.is_p2p());
    assert!(!pgn_a.is_broadcast());
    assert_eq!(DestinationAddr::Present(0x29), pgn_a.destination_address());
    assert_eq!(GroupExtension::Absent, pgn_a.group_extension());

    let pgn_b = Pgn::from_bits(240 << 8 | 0x29);
    assert_eq!(PduFormat::Pdu2(240), pgn_b.pdu_format());
    assert_eq!(CommunicationMode::Broadcast, pgn_b.communication_mode());
    assert!(!pgn_b.is_p2p());
    assert!(pgn_b.is_broadcast());
    assert_eq!(DestinationAddr::Absent, pgn_b.destination_address());
    assert_eq!(GroupExtension::Present(0x29), pgn_b.group_extension());
}

#[test]
fn test_pgn_range_and_rendering() {
    assert!(Pgn::try_from_bits(0x3FFFF).is_ok());
    assert_eq!(Err(CanError::OutOfRange), Pgn::try_from_bits(0x40000));
    assert_eq!(Err(CanError::OutOfRange), Pgn::try_from_hex("40000"));
    assert_eq!(Err(CanError::ParseFailure), Pgn::try_from_hex("FEF2Z"));

    let pgn_a = Pgn::from_bits(65266);
    assert_eq!("0FEF2", pgn_a.into_hex());
    assert_eq!(pgn_a, Pgn::try_from_hex("0FEF2").unwrap());
}

#[test]
fn test_pdu_assignment_gaps_are_unknown() {
    // Values between the SAE and manufacturer ranges classify as unknown.
    assert_eq!(PduAssignment::Unknown(0xEE01), Pgn::from_bits(0xEE01).pdu_assignment());
    assert_eq!(PduAssignment::Unknown(0xEF01), Pgn::from_bits(0xEF01).pdu_assignment());
    assert_eq!(PduAssignment::Unknown(0x1_EFFF), Pgn::from_bits(0x1_EFFF).pdu_assignment());
    assert_eq!(PduAssignment::Manufacturer(0xEF00), Pgn::from_bits(0xEF00).pdu_assignment());
    assert_eq!(PduAssignment::Sae(0x1_0000), Pgn::from_bits(0x1_0000).pdu_assignment());
}

#[test]
fn test_lookup_absent_addresses() {

    assert_eq!(None, SourceAddr::Absent.lookup());
    assert_eq!(None, DestinationAddr::Absent.lookup());
    assert_eq!(Some(Addr::Unknown(206)), SourceAddr::Present(206).lookup());
    assert_eq!("Unknown", Addr::Unknown(206).label());
}
