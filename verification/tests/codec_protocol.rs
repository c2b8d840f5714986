use donet::codec::{decode_datagram, encode_datagram};
use donet::datagram::Datagram;
use donet::protocol::{is_control_opcode, Message};

#[test]
fn encode_has_documented_layout() {
    let dg = Datagram::new(0x0102, 0x1122334455667788, vec![0x0A0B], vec![0xFF]);
    let bytes = encode_datagram(&dg);
    assert_eq!(
        bytes,
        vec![
            0x02, 0x01, // opcode, little endian
            0x88, 0x77, 0x66, 0x55, 0x44, 0x33, 0x22, 0x11, // sender
            0x01, 0x00, // recipient count
            0x0B, 0x0A, 0x00, 0x00, 0x00, 0x00, 0x00, 0x00, // recipient
            0xFF, // payload
        ]
    );
}

#[test]
fn encode_decode_round_trip_is_byte_identical() {
    let dg = Datagram::new(2014, 9000000000, vec![1, u64::MAX, 42], vec![0, 1, 2, 3, 255]);
    let bytes = encode_datagram(&dg);
    let back = decode_datagram(&bytes).unwrap();
    assert_eq!(back.opcode, 2014);
    assert_eq!(back.sender, 9000000000);
    assert_eq!(back.recipients, vec![1, u64::MAX, 42]);
    assert_eq!(back.payload, vec![0, 1, 2, 3, 255]);
}

#[test]
fn empty_recipient_list_round_trips() {
    let dg = Datagram::new(9011, 7, Vec::new(), Vec::new());
    let bytes = encode_datagram(&dg);
    assert_eq!(bytes.len(), 12);
    let back = decode_datagram(&bytes).unwrap();
    assert_eq!(back.opcode, 9011);
    assert_eq!(back.sender, 7);
    assert!(back.recipients.is_empty());
    assert!(back.payload.is_empty());
}

#[test]
fn short_buffer_does_not_decode() {
    assert!(decode_datagram(&[]).is_none());
    assert!(decode_datagram(&[1, 2, 3]).is_none());
    assert!(decode_datagram(&[0; 11]).is_none());
}

#[test]
fn truncated_recipient_list_does_not_decode() {
    // header claims two recipients but only one fits
    let mut bytes = vec![0u8; 12];
    bytes[10] = 2;
    bytes.extend_from_slice(&[0u8; 8]);
    assert!(decode_datagram(&bytes).is_none());
}

#[test]
fn message_values_match_the_catalog() {
    assert_eq!(Message::ClientHello.value(), 1);
    assert_eq!(Message::ClientHeartbeat.value(), 5);
    assert_eq!(Message::ClientAddInterest.value(), 200);
    assert_eq!(Message::CAOpenChannel.value(), 1100);
    assert_eq!(Message::SSObjectGetAll.value(), 2014);
    assert_eq!(Message::DBSSObjectGetActivated.value(), 2207);
    assert_eq!(Message::DBCreateObject.value(), 3000);
    assert_eq!(Message::MDAddChannel.value(), 9000);
    assert_eq!(Message::MDRemoveChannel.value(), 9001);
    assert_eq!(Message::MDAddRange.value(), 9002);
    assert_eq!(Message::MDRemoveRange.value(), 9003);
    assert_eq!(Message::MDAddPostRemove.value(), 9010);
    assert_eq!(Message::MDClearPostRemoves.value(), 9011);
}

#[test]
fn message_from_value_round_trips() {
    for v in [1u16, 5, 120, 204, 1000, 1203, 2000, 2124, 2232, 3032, 9000, 9011] {
        let m = Message::from_value(v).unwrap();
        assert_eq!(m.value(), v);
    }
}

#[test]
fn unassigned_opcodes_have_no_message() {
    assert!(Message::from_value(0).is_none());
    assert!(Message::from_value(6).is_none());
    assert!(Message::from_value(9999).is_none());
    assert!(Message::from_value(u16::MAX).is_none());
}

#[test]
fn control_opcodes_are_exactly_the_md_ones() {
    for v in [9000u16, 9001, 9002, 9003, 9010, 9011] {
        assert!(is_control_opcode(v));
    }
    for v in [0u16, 1, 1100, 2000, 9004, 9012] {
        assert!(!is_control_opcode(v));
    }
}
