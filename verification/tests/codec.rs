use rcon::error::RconError;
use rcon::message::Message;
use rcon::message::CLIENT_MAX_MESSAGE_SIZE;
use rcon::message::COMMAND;
use rcon::message::LOGIN;
use rcon::message::MULTI_PACKET;
use rcon::text::decode_text;
use rcon::text::encode_text;

const ONLINE: &str = "There are 0 of a max of 20 players online:";

fn frame(length: u32, request_id: u32, packet_type: u32, rest: &[u8]) -> Vec<u8> {
    let mut bytes = Vec::new();
    bytes.extend_from_slice(&length.to_le_bytes());
    bytes.extend_from_slice(&request_id.to_le_bytes());
    bytes.extend_from_slice(&packet_type.to_le_bytes());
    bytes.extend_from_slice(rest);
    bytes
}

#[test]
fn packet_types_are_those_of_the_protocol() {
    assert_eq!(LOGIN, 3);
    assert_eq!(COMMAND, 2);
    assert_eq!(MULTI_PACKET, 0);
    assert_eq!(CLIENT_MAX_MESSAGE_SIZE, 1460);
}

#[test]
fn new_sets_length_to_ten_more_than_the_payload() {
    for n in [0usize, 1, 5, 42, 1449, 1450] {
        let m = Message::new(7, COMMAND, vec![b'x'; n]).unwrap();
        assert_eq!(m.length() as usize, 10 + n);
        assert_eq!(m.request_id(), 7);
        assert_eq!(m.packet_type(), COMMAND);
        assert_eq!(m.payload(), &vec![b'x'; n]);
    }
}

#[test]
fn new_accepts_the_longest_payload() {
    let m = Message::new(100, COMMAND, vec![0u8; 1450]).unwrap();
    assert_eq!(m.length(), 1460);
}

#[test]
fn new_rejects_a_payload_one_byte_too_long() {
    assert_eq!(Message::new(100, COMMAND, vec![0u8; 1451]), Err(RconError::OversizeMessage));
    assert_eq!(Message::new(100, LOGIN, vec![0u8; 5000]), Err(RconError::OversizeMessage));
}

#[test]
fn list_command_serializes_to_nineteen_bytes() {
    let m = Message::new(100, 2, b"/list".to_vec()).unwrap();
    let bytes = m.serialize();
    assert_eq!(bytes.len(), 4 + 4 + 4 + 5 + 2);
    assert_eq!(u32::from_le_bytes([bytes[0], bytes[1], bytes[2], bytes[3]]), 15);
    assert_eq!(
        bytes,
        vec![15, 0, 0, 0, 100, 0, 0, 0, 2, 0, 0, 0, b'/', b'l', b'i', b's', b't', 0, 0]
    );
}

#[test]
fn words_are_written_least_significant_byte_first() {
    let m = Message::new(0x1234_5678, 0xA1B2_C3D4, Vec::new()).unwrap();
    assert_eq!(
        m.serialize(),
        vec![10, 0, 0, 0, 0x78, 0x56, 0x34, 0x12, 0xD4, 0xC3, 0xB2, 0xA1, 0, 0]
    );
    let m = Message::new(u32::MAX, 0, vec![0u8; 300]).unwrap();
    assert_eq!(&m.serialize()[..8], &[0x36, 0x01, 0, 0, 0xFF, 0xFF, 0xFF, 0xFF]);
}

#[test]
fn words_are_read_least_significant_byte_first() {
    let bytes = vec![9, 0, 0, 0, 0x78, 0x56, 0x34, 0x12, 0xD4, 0xC3, 0xB2, 0xA1];
    let m = Message::from_deserialize(&bytes).unwrap();
    assert_eq!(m.length(), 9);
    assert_eq!(m.request_id(), 0x1234_5678);
    assert_eq!(m.packet_type(), 0xA1B2_C3D4);
    assert_eq!(m.payload(), &Vec::<u8>::new());
}

#[test]
fn payload_ends_three_past_the_declared_length() {
    let bytes = frame(12, 1, 0, b"abcdef");
    let m = Message::from_deserialize(&bytes).unwrap();
    assert_eq!(m.length(), 12);
    assert_eq!(m.payload(), &b"abc".to_vec());
    assert_eq!(m.into_payload(), b"abc".to_vec());
}

#[test]
fn response_frame_reads_back_with_its_terminator() {
    let response = Message::new(100, MULTI_PACKET, ONLINE.as_bytes().to_vec()).unwrap();
    let m = Message::from_deserialize(&response.serialize()).unwrap();
    assert_eq!(m.length(), 10 + 42);
    assert_eq!(m.request_id(), 100);
    assert_eq!(m.packet_type(), MULTI_PACKET);
    let mut expected = ONLINE.as_bytes().to_vec();
    expected.push(0);
    assert_eq!(m.payload(), &expected);
}

#[test]
fn written_frames_read_back_for_every_payload_length() {
    for n in [0usize, 1, 2, 700, 1450] {
        let payload: Vec<u8> = (0..n).map(|i| (i % 251) as u8 + 1).collect();
        let sent = Message::new(100, COMMAND, payload.clone()).unwrap();
        let got = Message::from_deserialize(&sent.serialize()).unwrap();
        assert_eq!(got.length(), sent.length());
        assert_eq!(got.request_id(), sent.request_id());
        assert_eq!(got.packet_type(), sent.packet_type());
        let mut expected = payload;
        expected.push(0);
        assert_eq!(got.payload(), &expected);
    }
}

#[test]
fn a_frame_that_was_read_is_stable() {
    let first = Message::from_deserialize(&frame(14, 5, 0, b"hello\0\0")).unwrap();
    assert_eq!(first.payload(), &b"hello".to_vec());
    let again = Message::from_deserialize(&first.serialize()).unwrap();
    assert_eq!(again, first);
}

#[test]
fn deserialize_ignores_what_follows_the_payload() {
    let mut buffer = vec![0xFFu8; 4110];
    let bytes = frame(11, 100, 0, b"ok\0\0");
    buffer[..bytes.len()].copy_from_slice(&bytes);
    let m = Message::from_deserialize(&buffer).unwrap();
    assert_eq!(m.length(), 11);
    assert_eq!(m.payload(), &b"ok".to_vec());
}

#[test]
fn deserialize_rejects_short_input() {
    assert_eq!(Message::from_deserialize(&[]), Err(RconError::MalformedFrame));
    assert_eq!(Message::from_deserialize(&[10, 0, 0, 0]), Err(RconError::MalformedFrame));
    assert_eq!(
        Message::from_deserialize(&[9, 0, 0, 0, 1, 0, 0, 0, 0, 0, 0]),
        Err(RconError::MalformedFrame)
    );
}

#[test]
fn deserialize_rejects_a_length_under_nine() {
    assert_eq!(Message::from_deserialize(&frame(0, 1, 0, b"\0\0")), Err(RconError::MalformedFrame));
    assert_eq!(Message::from_deserialize(&frame(8, 1, 0, b"\0\0")), Err(RconError::MalformedFrame));
    assert!(Message::from_deserialize(&frame(9, 1, 0, b"\0\0")).is_ok());
}

#[test]
fn deserialize_rejects_a_payload_past_the_input() {
    assert_eq!(Message::from_deserialize(&frame(12, 1, 0, b"ab")), Err(RconError::MalformedFrame));
    assert!(Message::from_deserialize(&frame(11, 1, 0, b"ab")).is_ok());
    assert_eq!(
        Message::from_deserialize(&frame(u32::MAX, 1, 0, b"ab\0\0")),
        Err(RconError::MalformedFrame)
    );
    assert_eq!(
        Message::from_deserialize(&frame(u32::MAX - 2, 1, 0, b"ab\0\0")),
        Err(RconError::MalformedFrame)
    );
}

#[test]
fn text_is_encoded_as_utf8() {
    assert_eq!(encode_text(""), Vec::<u8>::new());
    assert_eq!(encode_text("/list"), b"/list".to_vec());
    assert_eq!(encode_text("h\u{e9}\u{20ac}"), vec![b'h', 0xC3, 0xA9, 0xE2, 0x82, 0xAC]);
}

#[test]
fn utf8_payload_decodes_to_its_text() {
    assert_eq!(decode_text(Vec::new()), Ok(String::new()));
    assert_eq!(decode_text(ONLINE.as_bytes().to_vec()), Ok(ONLINE.to_string()));
    assert_eq!(
        decode_text(vec![b'h', 0xC3, 0xA9, 0xE2, 0x82, 0xAC, 0xF0, 0x9F, 0x98, 0x80]),
        Ok("h\u{e9}\u{20ac}\u{1f600}".to_string())
    );
}

#[test]
fn payload_that_is_not_utf8_is_handed_back() {
    assert_eq!(
        decode_text(vec![b'a', 0xFF, b'b']),
        Err(RconError::InvalidResponseEncoding { raw: vec![b'a', 0xFF, b'b'] })
    );
    assert_eq!(
        decode_text(vec![0xC3]),
        Err(RconError::InvalidResponseEncoding { raw: vec![0xC3] })
    );
    assert_eq!(
        decode_text(vec![0xED, 0xA0, 0x80]),
        Err(RconError::InvalidResponseEncoding { raw: vec![0xED, 0xA0, 0x80] })
    );
    assert_eq!(
        decode_text(vec![0xC0, 0x80]),
        Err(RconError::InvalidResponseEncoding { raw: vec![0xC0, 0x80] })
    );
}
