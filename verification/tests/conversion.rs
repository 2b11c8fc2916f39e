use can_types::conversion::Conversion;
use can_types::payload::{Data, Name, Pdu};
use can_types::protocol::can2_a::identifier::IdCan2A;
use can_types::protocol::can2_b::identifier::IdCan2B;

#[test]
fn test_data_from() {
    let name_a = Pdu::<Name>::from_hex("FFFF82DF1AFFFFFF");
    let data_a = Pdu::<Data>::from(name_a);

    assert_eq!(Pdu::<Data>::from_hex("FFFF82DF1AFFFFFF"), data_a);
}

#[test]
fn test_name_from() {
    let data_a = Pdu::<Data>::from_hex("FFFF82DF1AFFFFFF");
    let name_a = Pdu::<Name>::from(data_a);

    assert_eq!(Pdu::<Name>::from_hex("FFFF82DF1AFFFFFF"), name_a);
}

#[test]
fn test_extended_from() {
    let id_std_a = IdCan2A::from_hex("00F");
    let id_ext_a = IdCan2B::from(id_std_a);

    assert_eq!(IdCan2B::from_hex("0000000F"), id_ext_a);
}

#[test]
fn test_data_name_reinterpret_round_trip() {
    let data_a = Pdu::<Data>::from_bits(0x850C_0511_244B_0309);
    let name_a = Pdu::<Name>::from(data_a);
    let data_b = Pdu::<Data>::from(name_a);

    assert_eq!(data_a, data_b);
    assert_eq!(0x850C_0511_244B_0309, data_b.into_bits());
}

#[test]
fn test_standard_widen_value() {
    let id_std_a = IdCan2A::from_bits(0x00F);
    let id_ext_a = IdCan2B::from(id_std_a);

    assert_eq!(15, id_ext_a.into_bits());
}

#[test]
fn test_hex_parse_is_case_insensitive() {
    assert_eq!(IdCan2B::from_hex("00ff00ff"), IdCan2B::from_hex("00FF00FF"));
    assert_eq!(Pdu::<Data>::from_hex("ffff82df1affffff"), Pdu::<Data>::from_hex("FFFF82DF1AFFFFFF"));
}

#[test]
fn test_from_hex_substitutes_zero_on_malformed_text() {
    assert_eq!(0, IdCan2B::from_hex("").into_bits());
    assert_eq!(0, IdCan2B::from_hex("XYZ").into_bits());
    assert_eq!(0, IdCan2B::from_hex("0CF004G0").into_bits());
    // The value overflows the 32-bit storage, so the text does not parse.
    assert_eq!(0, IdCan2B::from_hex("100000000").into_bits());
}
