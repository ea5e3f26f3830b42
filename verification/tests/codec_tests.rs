use hyrcon_client::codec::{
    decode_packet_body, encode_packet, packet_body_len, SERVERDATA_AUTH, SERVERDATA_EXECCOMMAND,
};
use hyrcon_client::error::RconError;

fn round_trip(id: i32, kind: i32, payload: &str) {
    let frame = encode_packet(id, kind, payload).expect("encode");
    assert_eq!(frame.len(), payload.len() + 14);
    let body_len = packet_body_len(&frame[0..4]).expect("length prefix");
    assert_eq!(body_len, frame.len() - 4);
    let packet = decode_packet_body(&frame[4..]).expect("decode");
    assert_eq!(packet.id, id);
    assert_eq!(packet.kind, kind);
    assert_eq!(packet.payload, payload);
}

#[test]
fn frame_round_trips() {
    round_trip(1, SERVERDATA_AUTH, "secret");
    round_trip(7, SERVERDATA_EXECCOMMAND, "say hello world");
    round_trip(-1, 2, "negative id");
    round_trip(i32::MAX, 0, "");
}

#[test]
fn frame_round_trips_empty_payload() {
    round_trip(3, SERVERDATA_EXECCOMMAND, "");
}

#[test]
fn frame_round_trips_large_payload() {
    let payload = "x".repeat(5000);
    round_trip(42, SERVERDATA_EXECCOMMAND, &payload);
}

#[test]
fn frame_round_trips_multibyte_text() {
    round_trip(9, SERVERDATA_EXECCOMMAND, "héllo wörld — ≤≥");
}

#[test]
fn frame_layout_is_little_endian() {
    let frame = encode_packet(0x0102_0304, 2, "AB").unwrap();
    assert_eq!(
        frame,
        vec![
            12, 0, 0, 0, // length: id + kind + payload + terminators
            4, 3, 2, 1, // id, little-endian
            2, 0, 0, 0, // kind
            b'A', b'B', 0, 0,
        ]
    );
}

#[test]
fn encode_rejects_nul_payload() {
    assert_eq!(
        encode_packet(1, SERVERDATA_EXECCOMMAND, "bad\0payload").unwrap_err(),
        RconError::NulInPayload
    );
}

#[test]
fn length_prefix_rejects_undersized_frames() {
    assert_eq!(
        packet_body_len(&9i32.to_le_bytes()).unwrap_err(),
        RconError::InvalidLength(9)
    );
    assert_eq!(
        packet_body_len(&0i32.to_le_bytes()).unwrap_err(),
        RconError::InvalidLength(0)
    );
    assert_eq!(
        packet_body_len(&(-3i32).to_le_bytes()).unwrap_err(),
        RconError::InvalidLength(-3)
    );
    assert_eq!(packet_body_len(&10i32.to_le_bytes()).unwrap(), 10);
}

#[test]
fn decode_rejects_short_bodies() {
    let body = [1u8, 0, 0, 0, 2, 0, 0, 0, 0];
    assert_eq!(decode_packet_body(&body).unwrap_err(), RconError::ShortPacket);
}

#[test]
fn decode_rejects_missing_terminators() {
    let mut frame = encode_packet(5, 0, "data").unwrap();
    let end = frame.len() - 1;
    frame[end] = 7;
    assert_eq!(
        decode_packet_body(&frame[4..]).unwrap_err(),
        RconError::MissingTerminator
    );
}

#[test]
fn decode_rejects_invalid_utf8() {
    let mut frame = encode_packet(5, 0, "data").unwrap();
    frame[12] = 0xff;
    assert_eq!(decode_packet_body(&frame[4..]).unwrap_err(), RconError::InvalidUtf8);
}

#[test]
fn decode_cuts_payload_at_first_nul() {
    // Build a frame whose payload carries NUL padding by hand.
    let payload = b"real\0padding";
    let mut frame: Vec<u8> = Vec::new();
    frame.extend_from_slice(&(10i32 + payload.len() as i32).to_le_bytes());
    frame.extend_from_slice(&8i32.to_le_bytes());
    frame.extend_from_slice(&0i32.to_le_bytes());
    frame.extend_from_slice(payload);
    frame.extend_from_slice(&[0, 0]);
    let packet = decode_packet_body(&frame[4..]).unwrap();
    assert_eq!(packet.payload, "real");
}
