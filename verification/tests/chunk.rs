//! The empty-chunk bodies of both versions.

use statik::common::{void_chunk_bytes_v1_20_1, void_chunk_bytes_v1_21_1};

#[test]
fn the_two_versions_differ_only_in_the_root_name() {
    let a = void_chunk_bytes_v1_20_1();
    let b = void_chunk_bytes_v1_21_1();
    assert_eq!(a.len(), b.len() + 2);
    assert_eq!(&a[..9], &b[..9]);
    assert_eq!(&a[9..11], &[0, 0]);
    assert_eq!(&a[11..], &b[9..]);
}

#[test]
fn heightmaps_hold_two_zero_long_arrays() {
    let b = void_chunk_bytes_v1_21_1();
    // 0x0A, then MOTION_BLOCKING: 0x0C, u16 15, the name, i32 256, 2048 zeros.
    assert_eq!(b[9], 0x0c);
    assert_eq!(&b[10..12], &[0, 15]);
    assert_eq!(&b[12..27], b"MOTION_BLOCKING");
    assert_eq!(&b[27..31], &[0, 0, 1, 0]);
    assert!(b[31..31 + 2048].iter().all(|&x| x == 0));
    let w = 31 + 2048;
    assert_eq!(b[w], 0x0c);
    assert_eq!(&b[w + 1..w + 3], &[0, 13]);
    assert_eq!(&b[w + 3..w + 16], b"WORLD_SURFACE");
    // Total: 8 + heightmaps (1 + 2 fields + end) + 2 + 192 + 1 + 4 + 2.
    let fields = (1 + 2 + 15 + 4 + 2048) + (1 + 2 + 13 + 4 + 2048);
    assert_eq!(b.len(), 8 + 1 + fields + 1 + 2 + 192 + 1 + 4 + 2);
}
