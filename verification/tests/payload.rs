use can_types::conversion::{CanError, Conversion};
use can_types::payload::{Data, Name, Pdu};
use can_types::data::Data as BareData;
use can_types::name::Name as BareName;

#[test]
fn test_data_bitfield() {
    let data_a = Pdu::<Data>::from_hex("FFFF82DF1AFFFFFF");
    let be_bytes_a: [u8; 8] = [0xFF, 0xFF, 0x82, 0xDF, 0x1A, 0xFF, 0xFF, 0xFF];
    let le_bytes_a: [u8; 8] = [0xFF, 0xFF, 0xFF, 0x1A, 0xDF, 0x82, 0xFF, 0xFF];

    assert_eq!(be_bytes_a, data_a.to_be_bytes());
    assert_eq!(le_bytes_a, data_a.to_le_bytes());

    assert_eq!(18446606493475143679, data_a.into_bits());

    assert_eq!(Pdu::<Data>(Data(18446743089616977919)), data_a.to_be());
    assert_eq!(Pdu::<Data>(Data(18446606493475143679)), data_a.to_le());
}

#[test]
fn payload_test_name_bitfield() {
    let name_a = Name::new()
        .with_arbitrary_address_bits(true)
        .with_industry_group_bits(0)
        .with_vehicle_system_instance_bits(0x5)
        .with_vehicle_system_bits(0x6)
        .with_reserved_bits(false)
        .with_function_bits(0x5)
        .with_function_instance_bits(0x2)
        .with_ecu_instance_bits(0x1)
        .with_manufacturer_code_bits(0x122)
        .with_identity_number_bits(0xB0309);

    let pdu_name = Pdu::<Name>(name_a);

    let bytes_a: [u8; 8] = [0x09, 0x03, 0x4B, 0x24, 0x11, 0x05, 0x0C, 0x85];
    let name_a_bytes = pdu_name.into_bits().to_le_bytes();

    assert_eq!(bytes_a, name_a_bytes);
}

#[test]
fn test_data_field() {

    let data_a = BareData::from_hex("FFFF82DF1AFFFFFF");
    let be_bytes_a: [u8; 8] = [0xFF, 0xFF, 0x82, 0xDF, 0x1A, 0xFF, 0xFF, 0xFF];
    let le_bytes_a: [u8; 8] = [0xFF, 0xFF, 0xFF, 0x1A, 0xDF, 0x82, 0xFF, 0xFF];

    assert_eq!(be_bytes_a, data_a.to_be_bytes());
    assert_eq!(le_bytes_a, data_a.to_le_bytes());

    assert_eq!(18446606493475143679, data_a.into_bits());

    assert_eq!(BareData(18446743089616977919), data_a.to_be());
    assert_eq!(BareData(18446606493475143679), data_a.to_le());
}

#[test]
fn name_test_name_bitfield() {

    let name_a = BareName::new()
        .with_arbitrary_address_bits(true)
        .with_industry_group_bits(0)
        .with_vehicle_system_instance_bits(0x5)
        .with_vehicle_system_bits(0x6)
        .with_reserved_bits(false)
        .with_function_bits(0x5)
        .with_function_instance_bits(0x2)
        .with_ecu_instance_bits(0x1)
        .with_manufacturer_code_bits(0x122)
        .with_identity_number_bits(0xB0309);

    let bytes_a: [u8; 8] = [0x09, 0x03, 0x4B, 0x24, 0x11, 0x05, 0x0C, 0x85];
    let name_a_bytes = name_a.into_bits().to_le_bytes();

    assert_eq!(bytes_a, name_a_bytes);
}

#[test]
fn test_data_byte_accessors() {
    let data_a = Pdu::<Data>::from_bits(0x0123_4567_89AB_CDEF);

    assert_eq!(0x01, data_a.byte_0());
    assert_eq!(0x23, data_a.byte_1());
    assert_eq!(0x45, data_a.byte_2());
    assert_eq!(0x67, data_a.byte_3());
    assert_eq!(0x89, data_a.byte_4());
    assert_eq!(0xAB, data_a.byte_5());
    assert_eq!(0xCD, data_a.byte_6());
    assert_eq!(0xEF, data_a.byte_7());
}

#[test]
fn test_data_ne_bytes_matches_an_endianness() {
    let data_a = Pdu::<Data>::from_bits(0x0123_4567_89AB_CDEF);
    let ne = data_a.to_ne_bytes();

    assert!(ne == data_a.to_le_bytes() || ne == data_a.to_be_bytes());
}

#[test]
fn test_name_field_accessors() {
    let name_a = Pdu::<Name>::from_bits(0x850C_0511_244B_0309);

    assert!(name_a.arbitrary_address());
    assert_eq!(0, name_a.industry_group());
    assert_eq!(0x5, name_a.vehicle_system_instance());
    assert_eq!(0x6, name_a.vehicle_system());
    assert!(!name_a.reserved());
    assert_eq!(0x5, name_a.function());
    assert_eq!(0x2, name_a.function_instance());
    assert_eq!(0x1, name_a.ecu_instance());
    assert_eq!(0x122, name_a.manufacturer_code());
    assert_eq!(0xB0309, name_a.identity_number());
}

#[test]
fn test_payload_hex_rendering() {
    let data_a = Pdu::<Data>::from_bits(0x0000_0000_0000_00FF);
    assert_eq!("00000000000000FF", data_a.into_hex());

    let name_a = Pdu::<Name>::from_bits(0x850C_0511_244B_0309);
    assert_eq!("850C0511244B0309", name_a.into_hex());
}

#[test]
fn test_payload_try_from_hex() {
    assert!(Pdu::<Data>::try_from_bits(u64::MAX).is_ok());
    assert_eq!(18446606493475143679, Pdu::<Data>::try_from_hex("FFFF82DF1AFFFFFF").unwrap().into_bits());
    assert_eq!(Err(CanError::ParseFailure), Pdu::<Data>::try_from_hex("FFFF82DF1AFFFFF-"));
    // Seventeen digits denote a value above the 64-bit storage.
    assert_eq!(Err(CanError::ParseFailure), Pdu::<Name>::try_from_hex("1FFFF82DF1AFFFFFF"));
    assert_eq!(Err(CanError::ParseFailure), Pdu::<Name>::try_from_hex(""));
}
