use deconz::frame::{read_frame, DeconzCrc, DeconzStreamError, OutgoingPacket};
use deconz::protocol::{CommandId, ProtocolError, StatusCode};

fn version_request_packet() -> OutgoingPacket {
    OutgoingPacket::new(CommandId::Version, 0, Some(vec![0x00, 0x00]))
}

#[test]
pub fn test_frame() {
    let packet_bytes = version_request_packet().packet_bytes();
    let crc = DeconzCrc::generate(&packet_bytes);
    assert_eq!(crc, DeconzCrc(234, 255))
}

#[test]
fn version_request_wire_bytes() {
    let encoded = version_request_packet().encode();
    assert_eq!(
        encoded,
        vec![0x0D, 0x00, 0x00, 0x07, 0x00, 0x02, 0x00, 0x00, 0x00, 0xEA, 0xFF]
    );
}

#[test]
fn encode_without_payload() {
    let encoded = OutgoingPacket::new(CommandId::DeviceState, 3, None).encode();
    assert_eq!(encoded.len(), 7);
    assert_eq!(&encoded[..5], &[0x07, 0x03, 0x00, 0x05, 0x00]);
}

#[test]
fn encode_then_decode_round_trip() {
    let packet = OutgoingPacket::new(CommandId::Version, 9, Some(vec![0xAB, 0xCD]));
    let frame = read_frame(packet.encode()).expect("own encoding must decode");
    assert_eq!(frame.command_id(), CommandId::Version);
    assert_eq!(frame.sequence_id(), 9);
    assert_eq!(frame.status(), StatusCode::Success);
    // The bytes after the header: the payload length field, then the body.
    assert_eq!(frame.remaining(), 4);
    let mut frame = frame;
    assert_eq!(frame.get_u16_le(), 2);
    assert_eq!(frame.get_u8(), 0xAB);
    assert_eq!(frame.get_u8(), 0xCD);
}

#[test]
fn crc_is_negated_byte_sum() {
    let data = vec![0x01u8, 0x02, 0xFF, 0x30];
    let sum: u32 = data.iter().map(|b| *b as u32).sum();
    let expected = ((0x10000 - (sum % 0x10000)) % 0x10000) as u16;
    let crc = DeconzCrc::generate(&data);
    assert_eq!(crc.as_slice(), expected.to_le_bytes());
}

#[test]
fn crc_of_empty_input() {
    let crc = DeconzCrc::generate(&[]);
    assert_eq!(crc.as_slice(), [0x00, 0x00]);
}

#[test]
fn crc_from_values_rejects_wrong_size() {
    assert!(matches!(
        DeconzCrc::from_values(&[1, 2, 3]),
        Err(deconz::frame::CrcError::WrongSize(3))
    ));
    assert!(matches!(DeconzCrc::from_values(&[1, 2]), Ok(DeconzCrc(1, 2))));
}

#[test]
fn crc_mismatch_is_a_protocol_error() {
    let mut encoded = version_request_packet().encode();
    let last = encoded.len() - 1;
    encoded[last] ^= 0xFF;
    match read_frame(encoded) {
        Err(DeconzStreamError::Protocol(ProtocolError::CrcError(
            deconz::frame::CrcError::Mismatch,
        ))) => {}
        other => panic!("expected a checksum mismatch, got {:?}", other),
    }
}

#[test]
fn too_short_packet_is_a_read_error() {
    match read_frame(vec![0x42]) {
        Err(DeconzStreamError::Read(bytes)) => assert_eq!(bytes, vec![0x42]),
        other => panic!("expected a read error, got {:?}", other),
    }
}

fn with_crc(mut packet: Vec<u8>) -> Vec<u8> {
    let crc = DeconzCrc::generate(&packet);
    packet.extend_from_slice(&crc.as_slice());
    packet
}

#[test]
fn small_frame_is_rejected() {
    match read_frame(with_crc(vec![0x0D, 0x00, 0x00])) {
        Err(DeconzStreamError::Protocol(ProtocolError::SmallFrame(3))) => {}
        other => panic!("expected a small-frame error, got {:?}", other),
    }
}

#[test]
fn unknown_command_id_is_rejected() {
    match read_frame(with_crc(vec![0x99, 0x00, 0x00, 0x05, 0x00])) {
        Err(DeconzStreamError::Protocol(ProtocolError::UnknownCommandId(0x99))) => {}
        other => panic!("expected an unknown-command error, got {:?}", other),
    }
}

#[test]
fn unknown_status_code_is_rejected() {
    match read_frame(with_crc(vec![0x0D, 0x00, 0x44, 0x05, 0x00])) {
        Err(DeconzStreamError::Protocol(ProtocolError::UnknownStatusCode(0x44))) => {}
        other => panic!("expected an unknown-status error, got {:?}", other),
    }
}

#[test]
fn undersized_declared_length_is_rejected() {
    // A five-byte header declaring a total length of three.
    match read_frame(with_crc(vec![0x0D, 0x00, 0x00, 0x03, 0x00])) {
        Err(DeconzStreamError::Protocol(ProtocolError::SmallFrame(3))) => {}
        other => panic!("expected a small-frame error, got {:?}", other),
    }
}

#[test]
fn oversized_frame_is_rejected() {
    // Nine payload bytes after the header, but a declared total of five.
    let mut packet = vec![0x0D, 0x00, 0x00, 0x05, 0x00];
    packet.extend_from_slice(&[0u8; 9]);
    match read_frame(with_crc(packet)) {
        Err(DeconzStreamError::Protocol(ProtocolError::LargeFrame(9))) => {}
        other => panic!("expected a large-frame error, got {:?}", other),
    }
}
