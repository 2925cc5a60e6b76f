//! Wire codec and framing behaviour.

use small_network::error::ConnectionError;
use small_network::framing::{decode_frame_stream, read_frame, write_frame, FrameError};
use small_network::handshake::read_handshake_frame;
use small_network::wire::{
    read_bool, read_bytes, read_u16_le, read_u32_be, read_u32_le, write_bool, write_bytes,
    write_u16_le, write_u32_be, write_u32_le,
};

#[test]
fn u32_le_exact_bytes() {
    let mut out: Vec<u8> = Vec::new();
    write_u32_le(&mut out, 0x0a0b0c0d);
    assert_eq!(out, vec![0x0d, 0x0c, 0x0b, 0x0a]);
    let (v, pos) = read_u32_le(&out, 0).unwrap();
    assert_eq!(v, 0x0a0b0c0d);
    assert_eq!(pos, 4);
}

#[test]
fn u32_be_exact_bytes() {
    let mut out: Vec<u8> = Vec::new();
    write_u32_be(&mut out, 0x0a0b0c0d);
    assert_eq!(out, vec![0x0a, 0x0b, 0x0c, 0x0d]);
    let (v, pos) = read_u32_be(&out, 0).unwrap();
    assert_eq!(v, 0x0a0b0c0d);
    assert_eq!(pos, 4);
}

#[test]
fn u16_le_round_trip() {
    let mut out: Vec<u8> = Vec::new();
    write_u16_le(&mut out, 34567);
    assert_eq!(out.len(), 2);
    let (v, _) = read_u16_le(&out, 0).unwrap();
    assert_eq!(v, 34567);
}

#[test]
fn bytes_are_length_prefixed() {
    let mut out: Vec<u8> = Vec::new();
    write_bytes(&mut out, &vec![9, 8, 7]);
    assert_eq!(out, vec![3, 0, 0, 0, 9, 8, 7]);
    let (v, pos) = read_bytes(&out, 0).unwrap();
    assert_eq!(v, vec![9, 8, 7]);
    assert_eq!(pos, 7);
}

#[test]
fn bool_tag_rejects_other_bytes() {
    let mut out: Vec<u8> = Vec::new();
    write_bool(&mut out, true);
    write_bool(&mut out, false);
    assert_eq!(out, vec![1, 0]);
    assert_eq!(read_bool(&out, 0).unwrap().0, true);
    assert_eq!(read_bool(&out, 1).unwrap().0, false);
    assert!(read_bool(&vec![2u8], 0).is_none());
}

#[test]
fn frame_header_is_big_endian_length() {
    let mut out: Vec<u8> = Vec::new();
    write_frame(&mut out, &vec![42; 300]);
    assert_eq!(&out[0..4], &[0, 0, 1, 44]);
    assert_eq!(out.len(), 304);
    let (payload, pos) = read_frame(&out, 0, 4096).unwrap().unwrap();
    assert_eq!(payload, vec![42; 300]);
    assert_eq!(pos, 304);
}

#[test]
fn incomplete_frame_asks_for_more() {
    let mut out: Vec<u8> = Vec::new();
    write_frame(&mut out, &vec![1, 2, 3, 4, 5]);
    out.pop();
    assert!(read_frame(&out, 0, 4096).unwrap().is_none());
    assert!(read_frame(&vec![0, 0], 0, 4096).unwrap().is_none());
}

#[test]
fn overlong_frame_is_refused() {
    let mut out: Vec<u8> = Vec::new();
    write_frame(&mut out, &vec![0; 5000]);
    assert_eq!(read_frame(&out, 0, 4096).unwrap_err(), FrameError::TooLarge);
}

#[test]
fn overlong_handshake_frame_is_protocol_violation() {
    let mut out: Vec<u8> = Vec::new();
    write_frame(&mut out, &vec![0; 4097]);
    assert_eq!(
        read_handshake_frame(&out, 0).unwrap_err(),
        ConnectionError::ProtocolViolation
    );
}

#[test]
fn handshake_frame_at_cap_is_accepted() {
    let mut out: Vec<u8> = Vec::new();
    write_frame(&mut out, &vec![7; 4096]);
    let (payload, _) = read_handshake_frame(&out, 0).unwrap().unwrap();
    assert_eq!(payload.len(), 4096);
}

#[test]
fn frame_stream_keeps_order() {
    let messages: Vec<Vec<u8>> = vec![vec![1], vec![2, 2], vec![3, 3, 3], vec![], vec![5; 100]];
    let mut stream: Vec<u8> = Vec::new();
    for m in &messages {
        write_frame(&mut stream, m);
    }
    let decoded = decode_frame_stream(&stream, 4096).unwrap();
    assert_eq!(decoded, messages);
}

#[test]
fn truncated_frame_stream_is_refused() {
    let mut stream: Vec<u8> = Vec::new();
    write_frame(&mut stream, &vec![1, 2, 3]);
    stream.push(0);
    assert!(decode_frame_stream(&stream, 4096).is_none());
}
