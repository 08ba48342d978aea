//! Frames: the length prefix and the negotiated compression.

use statik::server::framing::{
    data_length_prefixed, frame_packet, length_prefixed, take_frame, FrameError, MAX_PACKET_SIZE,
};
use std::io::Write;

fn buffer(bytes: &[u8]) -> bytes::BytesMut {
    let mut b = bytes::BytesMut::new();
    b.extend_from_slice(bytes);
    b
}

#[test]
fn uncompressed_frame_is_length_then_body() {
    let f = frame_packet(&[0x00, 0x01, 0x02], None);
    assert_eq!(f, [3, 0x00, 0x01, 0x02]);
    let mut b = buffer(&f);
    b.extend_from_slice(&[0xaa]);
    assert_eq!(take_frame(&mut b, None).unwrap(), Some(vec![0x00, 0x01, 0x02]));
    assert_eq!(&b[..], &[0xaa]);
}

#[test]
fn below_threshold_carries_data_length_zero() {
    let f = frame_packet(&[0x05, 0x06], Some(256));
    assert_eq!(f, [3, 0x00, 0x05, 0x06]);
    let mut b = buffer(&f);
    assert_eq!(take_frame(&mut b, Some(256)).unwrap(), Some(vec![0x05, 0x06]));
    assert!(b.is_empty());
}

#[test]
fn negative_threshold_never_compresses() {
    let body = vec![7u8; 300];
    let f = frame_packet(&body, Some(-1));
    assert_eq!(f[2], 0x00);
    assert_eq!(&f[3..], &body[..]);
}

#[test]
fn compressed_frame_round_trips() {
    let body: Vec<u8> = (0..600u32).map(|i| (i % 7) as u8).collect();
    let f = frame_packet(&body, Some(256));
    assert!(f.len() < body.len());
    // The data length is the uncompressed size, 600 = VarInt [0xd8, 0x04].
    let mut b = buffer(&f);
    let (len, h) = statik::varint::VarInt::read(&f, 0).map(|(v, e)| (v.0, e)).unwrap();
    assert_eq!(len as usize, f.len() - h);
    assert_eq!(&f[h..h + 2], &[0xd8, 0x04]);
    assert_eq!(take_frame(&mut b, Some(256)).unwrap(), Some(body.clone()));
    // The payload is a zlib stream that flate2 inflates back.
    let mut d = flate2::read::ZlibDecoder::new(&f[h + 2..]);
    let mut v = Vec::new();
    d.read_to_end(&mut v).unwrap();
    assert_eq!(v, body);
}

#[test]
fn threshold_zero_compresses_even_small_bodies() {
    let f = frame_packet(&[1, 2, 3], Some(0));
    let mut b = buffer(&f);
    assert_eq!(f[1], 3);
    assert_eq!(take_frame(&mut b, Some(0)).unwrap(), Some(vec![1, 2, 3]));
}

use statik::codec::Wire;
use std::io::Read;

#[test]
fn incomplete_frames_consume_nothing() {
    let mut b = buffer(&[0x05, 0x00, 0x01]);
    assert_eq!(take_frame(&mut b, None).unwrap(), None);
    assert_eq!(b.len(), 3);
    let mut b = buffer(&[0x80]);
    assert_eq!(take_frame(&mut b, None).unwrap(), None);
    assert_eq!(b.len(), 1);
}

#[test]
fn cut_short_data_length_is_malformed() {
    let mut b = buffer(&[0x01, 0x80, 0x42]);
    assert_eq!(
        take_frame(&mut b, Some(16)),
        Err(FrameError::Decode(statik::error::DecodeError::UnexpectedEof))
    );
    assert_eq!(&b[..], &[0x80, 0x42]);
}

#[test]
fn data_length_below_threshold_is_refused() {
    let mut b = buffer(&[0x02, 0x05, 0x00]);
    assert_eq!(take_frame(&mut b, Some(16)), Err(FrameError::BelowThreshold));
    assert_eq!(&b[..], &[0x05, 0x00]);
}

#[test]
fn data_length_above_the_maximum_is_refused() {
    // Data length 2^21 = 2097152, one above the maximum.
    let mut b = buffer(&[0x04, 0x80, 0x80, 0x80, 0x01]);
    assert_eq!(take_frame(&mut b, Some(16)), Err(FrameError::DataTooLong));
    assert_eq!(MAX_PACKET_SIZE, 2_097_151);
}

#[test]
fn garbage_instead_of_zlib_is_refused() {
    let mut b = buffer(&[0x04, 0x20, 0x01, 0x02, 0x03]);
    assert_eq!(take_frame(&mut b, Some(16)), Err(FrameError::Inflate));
}

#[test]
fn negative_and_oversized_lengths_are_refused() {
    let mut b = buffer(&[0xff, 0xff, 0xff, 0xff, 0x0f]);
    assert_eq!(take_frame(&mut b, None), Err(FrameError::NegativeLength));
    assert_eq!(b.len(), 5);
    let mut b = buffer(&[0x80, 0x80, 0x80, 0x01]);
    assert_eq!(take_frame(&mut b, None), Err(FrameError::TooLong));
}

#[test]
fn frames_built_from_a_foreign_zlib_stream_are_taken() {
    let body: Vec<u8> = (0..300u32).map(|i| (i * 3) as u8).collect();
    let mut e = flate2::write::ZlibEncoder::new(Vec::new(), flate2::Compression::best());
    e.write_all(&body).unwrap();
    let z = e.finish().unwrap();
    let framed = data_length_prefixed(body.len() as i32, &z);
    assert_eq!(&framed[..2], &[0xac, 0x02]);
    let f = length_prefixed(&framed);
    let mut b = buffer(&f);
    assert_eq!(take_frame(&mut b, Some(256)).unwrap(), Some(body));
    assert!(b.is_empty());
}
