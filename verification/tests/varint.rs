use statik::codec::Wire;
use statik::varint::VarInt;
use statik::error::DecodeError;

fn roundtrip(v: i32) {
    let mut buf = Vec::new();
    VarInt(v).write(&mut buf);
    let (decoded, end) = VarInt::read(&buf, 0).expect("decode");
    assert_eq!(decoded.0, v, "roundtrip for {v} (bytes {buf:?})");
    assert_eq!(end, buf.len());
}

#[test]
fn roundtrip_basic() {
    for &v in &[
        0,
        1,
        -1,
        127,
        128,
        255,
        1024,
        16_383,
        16_384,
        2_097_151,
        2_097_152,
        134_217_728,
        i32::MAX,
        i32::MIN,
        -2_097_151,
    ] {
        roundtrip(v);
    }
}

#[test]
fn known_wire_bytes() {
    let mut buf = Vec::new();
    VarInt(0).write(&mut buf);
    assert_eq!(buf, [0x00]);

    buf.clear();
    VarInt(127).write(&mut buf);
    assert_eq!(buf, [0x7f]);

    buf.clear();
    VarInt(128).write(&mut buf);
    assert_eq!(buf, [0x80, 0x01]);

    buf.clear();
    VarInt(255).write(&mut buf);
    assert_eq!(buf, [0xff, 0x01]);
}

#[test]
fn rejects_overlong_varint() {
    let malformed = [0x80, 0x80, 0x80, 0x80, 0x80, 0x80, 0x01];
    let result = VarInt::read(&malformed, 0);
    assert!(result.is_err(), "expected an error for an overlong VarInt");
}

#[test]
fn negative_one_decodes_without_panic() {
    let mut buf = Vec::new();
    VarInt(-1).write(&mut buf);
    assert_eq!(buf, [0xff, 0xff, 0xff, 0xff, 0x0f]);
    let (decoded, _) = VarInt::read(&buf, 0).unwrap();
    assert_eq!(decoded.0, -1);
}

#[test]
fn varint_errors_name_the_failure() {
    assert_eq!(VarInt::read(&[0x80, 0x80], 0).unwrap_err(), DecodeError::UnexpectedEof);
    assert_eq!(
        VarInt::read(&[0x80, 0x80, 0x80, 0x80, 0x80, 0x01], 0).unwrap_err(),
        DecodeError::VarIntTooLong
    );
    assert_eq!(VarInt::read(&[], 0).unwrap_err(), DecodeError::UnexpectedEof);
}

#[test]
fn varint_reads_at_an_offset() {
    let buf = [0xaa, 0xac, 0x02, 0x01];
    let (v, end) = VarInt::read(&buf, 1).unwrap();
    assert_eq!(v.0, 300);
    assert_eq!(end, 3);
}
