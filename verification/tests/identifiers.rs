use can_types::conversion::{CanError, Conversion};
use can_types::protocol::can2_a::identifier::IdCan2A;
use can_types::protocol::can2_b::identifier::IdCan2B;
use can_types::protocol::j1939::address::{Addr, SourceAddr};
use can_types::protocol::j1939::identifier::IdJ1939;

#[test]
fn test_identifier_value() {
    let id_a = IdCan2A::from_bits(u16::MAX);

    assert_eq!(0x7FF, id_a.id())
}

#[test]
fn identifier_test_identifier_value() {
    let id_a = IdCan2B::from_bits(u32::MAX);

    assert_eq!(0x1FFFFFFF, id_a.id())
}

#[test]
fn test_from_bits() {
    let id_a = IdCan2A::from_bits(15);

    assert_eq!(0b000_0000_1111, id_a.0 .0)
}

#[test]
fn identifier_test_from_bits() {
    let id_a = IdCan2B::from_bits(16711935);
    let id_b = IdJ1939::from_bits(16711935);

    assert_eq!(0b00000_11111111_00000000_11111111, id_a.0 .0);
    assert_eq!(0b000_0_0_11111111_00000000_11111111, id_b.0 .0)
}

#[test]
fn test_from_hex() {
    let id_a = IdCan2A::from_hex("00F");

    assert_eq!(0b000_0000_1111, id_a.0 .0)
}

#[test]
fn identifier_test_from_hex() {
    let id_a = IdCan2B::from_hex("00FF00FF");
    let id_b = IdJ1939::from_hex("00FF00FF");

    assert_eq!(0b00000_11111111_00000000_11111111, id_a.0 .0);
    assert_eq!(0b000_0_0_11111111_00000000_11111111, id_b.0 .0)
}

#[test]
fn test_try_from_bits() {
    let id_a = IdCan2A::try_from_bits(15).unwrap();
    let id_b = IdCan2A::try_from_bits(2048);

    assert_eq!(0b000_0000_1111, id_a.0 .0);
    assert!(id_b.is_err())
}

#[test]
fn identifier_test_try_from_bits() {
    let id_a = IdCan2B::try_from_bits(16711935).unwrap();
    let id_b = IdCan2B::try_from_bits(536870912);
    let id_c = IdJ1939::try_from_bits(16711935).unwrap();
    let id_d = IdJ1939::try_from_bits(536870912);

    assert_eq!(0b00000_11111111_00000000_11111111, id_a.0 .0);
    assert!(id_b.is_err());
    assert_eq!(0b000_0_0_11111111_00000000_11111111, id_c.0 .0);
    assert!(id_d.is_err())
}

#[test]
fn test_try_from_hex() {
    let id_a = IdCan2A::try_from_hex("00F").unwrap();
    let id_b = IdCan2A::try_from_hex("FFF");

    assert_eq!(0b000_0000_1111, id_a.0 .0);
    assert!(id_b.is_err())
}

#[test]
fn identifier_test_try_from_hex() {
    let id_a = IdCan2B::try_from_hex("00FF00FF").unwrap();
    let id_b = IdCan2B::try_from_hex("20000000");
    let id_c = IdJ1939::try_from_hex("00FF00FF").unwrap();
    let id_d = IdJ1939::try_from_hex("20000000");

    assert_eq!(0b00000_11111111_00000000_11111111, id_a.0 .0);
    assert!(id_b.is_err());
    assert_eq!(0b000_0_0_11111111_00000000_11111111, id_c.0 .0);
    assert!(id_d.is_err())
}

#[test]
fn test_into_bits() {
    let id_a = IdCan2A::from_bits(15);

    assert_eq!(15, id_a.into_bits())
}

#[test]
fn identifier_test_into_bits() {
    let id_a = IdCan2B::from_bits(16711935);
    let id_b = IdJ1939::from_bits(16711935);

    assert_eq!(16711935, id_a.into_bits());
    assert_eq!(16711935, id_b.into_bits())
}

#[test]
fn test_into_hex() {
    let id_a = IdCan2A::from_bits(15);

    assert_eq!("00F", id_a.into_hex())
}

#[test]
fn identifier_test_into_hex() {
    let id_a = IdCan2B::from_bits(16711935);
    let id_b = IdJ1939::from_bits(16711935);

    assert_eq!("00FF00FF", id_a.into_hex());
    assert_eq!("00FF00FF", id_b.into_hex())
}

#[test]
fn test_range_boundaries() {
    assert!(IdCan2A::try_from_bits(0x7FF).is_ok());
    assert_eq!(Err(CanError::OutOfRange), IdCan2A::try_from_bits(0x800));
    assert!(IdCan2B::try_from_bits(0x1FFF_FFFF).is_ok());
    assert_eq!(Err(CanError::OutOfRange), IdCan2B::try_from_bits(0x2000_0000));
    assert!(IdJ1939::try_from_bits(0x1FFF_FFFF).is_ok());
    assert_eq!(Err(CanError::OutOfRange), IdJ1939::try_from_bits(0x2000_0000));
}

#[test]
fn test_try_from_hex_errors() {
    assert_eq!(Err(CanError::ParseFailure), IdCan2A::try_from_hex(""));
    assert_eq!(Err(CanError::ParseFailure), IdCan2A::try_from_hex("0x0F"));
    assert_eq!(Err(CanError::ParseFailure), IdCan2A::try_from_hex("+F"));
    assert_eq!(Err(CanError::ParseFailure), IdCan2A::try_from_hex("10000"));
    assert_eq!(Err(CanError::OutOfRange), IdCan2A::try_from_hex("801"));
    assert_eq!(Err(CanError::ParseFailure), IdJ1939::try_from_hex("1FFFFFFFF"));
    assert_eq!(Err(CanError::OutOfRange), IdJ1939::try_from_hex("20000000"));
}

#[test]
fn test_bits_round_trip() {
    assert_eq!(0x7FF, IdCan2A::from_bits(0x7FF).into_bits());
    assert_eq!(0x1FFF_FFFF, IdCan2B::from_bits(0x1FFF_FFFF).into_bits());
    assert_eq!(217056256, IdJ1939::from_bits(217056256).into_bits());
}

#[test]
fn test_hex_round_trip() {
    let id_a = IdCan2A::from_bits(0x00F);
    assert_eq!(id_a, IdCan2A::from_hex(&id_a.into_hex()));

    let id_b = IdJ1939::from_bits(217056256);
    assert_eq!(id_b, IdJ1939::from_hex(&id_b.into_hex()));
}

#[test]
fn test_into_hex_grows_past_natural_width() {
    // A raw value kept above the protocol's bit width still renders whole.
    assert_eq!("FFF", IdCan2A::from_bits(0xFFF).into_hex());
    assert_eq!("FFFF", IdCan2A::from_bits(0xFFFF).into_hex());
    assert_eq!("000", IdCan2A::from_bits(0).into_hex());
}

#[test]
fn test_decode_engine_identifier() {
    let id_a = IdJ1939::try_from_hex("0CF00400").unwrap();

    assert_eq!(217056256, id_a.into_bits());
    assert_eq!(3, id_a.priority());
    assert!(!id_a.reserved());
    assert!(!id_a.data_page());
    assert_eq!(240, id_a.pdu_format());
    assert_eq!(SourceAddr::Present(0), id_a.source_address());
    assert_eq!(Some(Addr::PrimaryEngineController), id_a.source_address().lookup());
}

#[test]
fn test_j1939_raw_parts_round_trip() {
    let id_a = IdJ1939::from_raw_parts(0x0, false, false, 0xFF, 0x00, 0xFF).unwrap();
    assert_eq!(IdJ1939::from_hex("00FF00FF"), id_a);

    let (p, r, dp, pf, ps, sa) = id_a.into_raw_parts();
    assert_eq!((0x0, false, false, 0xFF, 0x00, 0xFF), (p, r, dp, pf, ps, sa));
}

#[test]
fn test_j1939_raw_parts_invalid_priority() {
    assert_eq!(
        Err(CanError::InvalidPriority),
        IdJ1939::from_raw_parts(8, false, false, 0xF0, 0x04, 0x00)
    );
}
