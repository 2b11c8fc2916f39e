use can_types::conversion::CanError;
use can_types::id::{Extended, Id, Standard};

#[test]
fn test_new_id_bits() {
    let id_std_a = Standard::new()
        .with_priority(0)
        .with_reserved(0)
        .with_data_page(0)
        .with_pdu_format(0);

    let id_std_b = Standard::new()
        .with_priority(3)
        .with_reserved(1)
        .with_data_page(1)
        .with_pdu_format(31);

    let id_ext_a = Extended::new()
        .with_priority(0)
        .with_reserved(0)
        .with_data_page(0)
        .with_pdu_format(0)
        .with_pdu_specific(0)
        .with_source_address(0);

    let id_ext_b = Extended::new()
        .with_priority(3)
        .with_reserved(1)
        .with_data_page(1)
        .with_pdu_format(9)
        .with_pdu_specific(0)
        .with_source_address(255);

    assert_eq!(0b00000_000_0_0_000000, id_std_a.0);
    assert_eq!(0b00000_011_1_1_011111, id_std_b.0);
    assert_eq!(0b000_000_0_0_00000000_00000000_00000000, id_ext_a.0);
    assert_eq!(0b000_011_1_1_00001001_00000000_11111111, id_ext_b.0);
}

#[test]
fn test_extended_id() -> Result<(), CanError> {
    let id_a = Id::<Extended>::from_bits(0)?;

    assert_eq!(0b000_000_0_0_00000000_00000000_00000000, id_a.bitfield.0);
    Ok(())
}

#[test]
fn test_extended_from_hex() -> Result<(), CanError> {
    let hex_str = "0CF00400";

    let id_ext_a = Id::<Extended>::from_hex(hex_str)?;

    assert_eq!(0b00001100111100000000010000000000, id_ext_a.bitfield.0);
    assert_eq!(3, id_ext_a.priority());
    assert_eq!(0, id_ext_a.reserved());
    assert_eq!(0, id_ext_a.data_page());
    assert_eq!(240, id_ext_a.pdu_format());

    Ok(())
}

#[test]
fn test_standard_from_hex() -> Result<(), CanError> {
    let hex_str = "000F";

    let id_ext_a = Id::<Standard>::from_hex(hex_str)?;

    assert_eq!(0b00000_000_0_0_001111, id_ext_a.bitfield.0);
    assert_eq!(0, id_ext_a.priority());
    assert_eq!(0, id_ext_a.reserved());
    assert_eq!(0, id_ext_a.data_page());
    assert_eq!(15, id_ext_a.pdu_format());

    Ok(())
}

#[test]
fn test_extended_raw_parts() {
    let id_a = Id::<Extended>::from_raw_parts(3, 1, 1, 9, 0, 255).unwrap();
    assert_eq!(0b000_011_1_1_00001001_00000000_11111111, id_a.bitfield.0);

    let (p, r, dp, pf, ps, sa) = id_a.into_raw_parts();
    assert_eq!((3, 1, 1, 9, 0, 255), (p, r, dp, pf, ps, sa));

    assert_eq!(Err(CanError::InvalidPriority), Id::<Extended>::from_raw_parts(8, 0, 0, 0, 0, 0));
    assert_eq!(Err(CanError::OutOfRange), Id::<Extended>::from_raw_parts(0, 2, 0, 0, 0, 0));
    assert_eq!(Err(CanError::OutOfRange), Id::<Extended>::from_raw_parts(0, 0, 2, 0, 0, 0));
}

#[test]
fn test_standard_raw_parts() {
    let id_a = Id::<Standard>::from_raw_parts(3, 1, 1, 31).unwrap();
    assert_eq!(0b00000_011_1_1_011111, id_a.bitfield.0);

    let (p, r, dp, pf) = id_a.into_raw_parts();
    assert_eq!((3, 1, 1, 31), (p, r, dp, pf));

    assert_eq!(Err(CanError::InvalidPduFormat), Id::<Standard>::from_raw_parts(0, 0, 0, 64));
}
