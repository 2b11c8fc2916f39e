use can_types::conversion::{CanError, Conversion};
use can_types::message::Message;
use can_types::payload::{Data, Name, Pdu};
use can_types::protocol::j1939::identifier::{IdJ1939, J1939};

#[test]
fn test_message_from_parts() {
    let id = IdJ1939::from_bits(217056256);
    let pdu = Pdu::<Data>::from_bits(0x0102_0304_0506_0708);
    let msg = Message::<J1939, Data>::from_parts(id, pdu);

    assert_eq!(id, msg.id());
    assert_eq!(pdu, msg.pdu());
    assert_eq!((id, pdu), msg.into_parts());
}

#[test]
fn test_message_try_from_bits() {
    let msg = Message::<J1939, Data>::try_from_bits(217056256, 0xFF).unwrap();
    assert_eq!(217056256, msg.id().into_bits());
    assert_eq!(0xFF, msg.pdu().into_bits());

    assert_eq!(
        Err(CanError::OutOfRange),
        Message::<J1939, Data>::try_from_bits(0x2000_0000, 0)
    );
    assert_eq!(
        Err(CanError::OutOfRange),
        Message::<J1939, Name>::try_from_bits(0x2000_0000, 0)
    );
}

#[test]
fn test_message_try_from_hex() {
    let msg = Message::<J1939, Data>::try_from_hex("18FEF200", "FFFF82DF1AFFFFFF").unwrap();
    assert_eq!(0x18FE_F200, msg.id().into_bits());
    assert_eq!(18446606493475143679, msg.pdu().into_bits());

    assert_eq!(
        Err(CanError::ParseFailure),
        Message::<J1939, Data>::try_from_hex("18FEF2Z0", "FFFF82DF1AFFFFFF")
    );
    assert_eq!(
        Err(CanError::OutOfRange),
        Message::<J1939, Data>::try_from_hex("20000000", "FFFF82DF1AFFFFFF")
    );
    assert_eq!(
        Err(CanError::ParseFailure),
        Message::<J1939, Name>::try_from_hex("18FEF200", "")
    );
}

#[test]
fn test_message_from_hex_best_effort() {
    let msg = Message::<J1939, Name>::from_hex("0C00290B", "850C0511244B0309");
    assert_eq!(0x0C00_290B, msg.id().into_bits());
    assert_eq!(0x850C_0511_244B_0309, msg.pdu().into_bits());

    let zeroed = Message::<J1939, Name>::from_hex("not hex", "also not hex");
    assert_eq!(0, zeroed.id().into_bits());
    assert_eq!(0, zeroed.pdu().into_bits());
}

#[test]
fn test_message_payload_reinterpretation() {
    let msg_data = Message::<J1939, Data>::from_bits(217056256, 0x850C_0511_244B_0309);
    let msg_name = Message::<J1939, Name>::from(msg_data);

    assert_eq!(msg_data.id(), msg_name.id());
    assert_eq!(0x850C_0511_244B_0309, msg_name.pdu().into_bits());

    let msg_back = Message::<J1939, Data>::from(msg_name);
    assert_eq!(msg_data, msg_back);
}
