//! Minecraft `VarInt`: a 32-bit signed integer sent as 1 to 5 little-endian
//! groups of 7 bits, each byte but the last carrying the continuation bit.

use vstd::prelude::*;

use crate::error::DecodeError;

verus! {

/// A Minecraft variable-length 32-bit signed integer.
#[derive(Copy, Clone, Debug, PartialEq, Eq, PartialOrd, Ord, Structural)]
pub struct VarInt(pub i32);

/// Byte `i` (counting from 0) of the encoding of `v`, given that the
/// encoding is `len` bytes long.
pub open spec fn varint_byte(v: u32, i: nat, len: nat) -> u8 {
    let group = ((v >> (7 * i) as u32) & 0x7f) as u8;
    if i + 1 < len {
        group | 0x80
    } else {
        group
    }
}

/// Number of bytes of the encoding of `v`.
pub open spec fn varint_len(v: u32) -> nat {
    if v < 0x80 {
        1
    } else if v < 0x4000 {
        2
    } else if v < 0x20_0000 {
        3
    } else if v < 0x1000_0000 {
        4
    } else {
        5
    }
}

/// The wire bytes of the unsigned 32-bit pattern `v`.
pub open spec fn varint_bytes(v: u32) -> Seq<u8> {
    Seq::new(varint_len(v), |i: int| varint_byte(v, i as nat, varint_len(v)))
}

/// The wire bytes of a `VarInt` holding `v`: the bytes of its two's-complement
/// bit pattern.
pub open spec fn spec_varint_encode(v: i32) -> Seq<u8> {
    varint_bytes(v as u32)
}

/// A value in `0..128` is encoded as the single byte holding it.
pub proof fn lemma_varint_encode_one_byte(v: i32)
    requires
        0 <= v < 0x80,
    ensures
        spec_varint_encode(v) == seq![v as u8],
{
    let u = v as u32;
    assert(((u >> 0u32) & 0x7f) as u8 == u as u8) by (bit_vector)
        requires
            u < 0x80,
    ;
    assert(spec_varint_encode(v) =~= seq![v as u8]);
}

/// What reading a `VarInt` from the front of a byte sequence gives.
pub enum VarIntRead {
    /// The value and the number of bytes it took.
    Value(i32, nat),
    /// The sequence ended before the last byte of the `VarInt`.
    Truncated,
    /// A fifth byte still had its continuation bit set.
    TooLong,
}

/// Reads bytes `i..` of `s` into the accumulator `acc`, which holds the
/// groups of bytes `0..i`.
pub open spec fn varint_read_from(s: Seq<u8>, i: nat, acc: u32) -> VarIntRead
    decreases 5 - i,
{
    if i >= 5 {
        VarIntRead::TooLong
    } else if i >= s.len() {
        VarIntRead::Truncated
    } else {
        let b = s[i as int];
        let acc2 = acc | (((b & 0x7f) as u32) << (7 * i) as u32);
        if b & 0x80 == 0 {
            VarIntRead::Value(acc2 as i32, i + 1)
        } else if i + 1 >= 5 {
            VarIntRead::TooLong
        } else {
            varint_read_from(s, i + 1, acc2)
        }
    }
}

/// Reading a `VarInt` from the front of `s`.
pub open spec fn spec_varint_read(s: Seq<u8>) -> VarIntRead {
    varint_read_from(s, 0, 0)
}


/// The bits of `v` below bit `7 * i`.
pub open spec fn varint_mask(i: nat) -> u32 {
    if i == 0 {
        0
    } else if i == 1 {
        0x7f
    } else if i == 2 {
        0x3fff
    } else if i == 3 {
        0x1f_ffff
    } else if i == 4 {
        0xfff_ffff
    } else {
        0xffff_ffff
    }
}

proof fn lemma_group_step(v: u32, i: nat)
    requires
        i < 5,
    ensures
        (v & varint_mask(i)) | (((((v >> (7 * i) as u32) & 0x7f) as u8 & 0x7f) as u32) << (7
            * i) as u32) == v & varint_mask(i + 1),
        (((v >> (7 * i) as u32) & 0x7f) as u8) & 0x80 == 0,
        ((((v >> (7 * i) as u32) & 0x7f) as u8) | 0x80) & 0x80 != 0,
        ((((v >> (7 * i) as u32) & 0x7f) as u8) | 0x80) & 0x7f == ((v >> (7 * i) as u32)
            & 0x7f) as u8 & 0x7f,
{
    if i == 0 {
        assert((v & 0) | (((((v >> 0u32) & 0x7f) as u8 & 0x7f) as u32) << 0u32) == v & 0x7f
            && (((v >> 0u32) & 0x7f) as u8) & 0x80 == 0 && ((((v >> 0u32) & 0x7f) as u8) | 0x80)
            & 0x80 != 0 && ((((v >> 0u32) & 0x7f) as u8) | 0x80) & 0x7f == ((v >> 0u32) & 0x7f) as u8
            & 0x7f) by (bit_vector);
    } else if i == 1 {
        assert((v & 0x7f) | (((((v >> 7u32) & 0x7f) as u8 & 0x7f) as u32) << 7u32) == v & 0x3fff
            && (((v >> 7u32) & 0x7f) as u8) & 0x80 == 0 && ((((v >> 7u32) & 0x7f) as u8) | 0x80)
            & 0x80 != 0 && ((((v >> 7u32) & 0x7f) as u8) | 0x80) & 0x7f == ((v >> 7u32) & 0x7f) as u8
            & 0x7f) by (bit_vector);
    } else if i == 2 {
        assert((v & 0x3fff) | (((((v >> 14u32) & 0x7f) as u8 & 0x7f) as u32) << 14u32) == v
            & 0x1f_ffff && (((v >> 14u32) & 0x7f) as u8) & 0x80 == 0 && ((((v >> 14u32) & 0x7f) as u8)
            | 0x80) & 0x80 != 0 && ((((v >> 14u32) & 0x7f) as u8) | 0x80) & 0x7f == ((v >> 14u32)
            & 0x7f) as u8 & 0x7f) by (bit_vector);
    } else if i == 3 {
        assert((v & 0x1f_ffff) | (((((v >> 21u32) & 0x7f) as u8 & 0x7f) as u32) << 21u32) == v
            & 0xfff_ffff && (((v >> 21u32) & 0x7f) as u8) & 0x80 == 0 && ((((v >> 21u32) & 0x7f) as u8)
            | 0x80) & 0x80 != 0 && ((((v >> 21u32) & 0x7f) as u8) | 0x80) & 0x7f == ((v >> 21u32)
            & 0x7f) as u8 & 0x7f) by (bit_vector);
    } else {
        assert((v & 0xfff_ffff) | (((((v >> 28u32) & 0x7f) as u8 & 0x7f) as u32) << 28u32) == v
            & 0xffff_ffff && (((v >> 28u32) & 0x7f) as u8) & 0x80 == 0 && ((((v >> 28u32) & 0x7f) as u8)
            | 0x80) & 0x80 != 0 && ((((v >> 28u32) & 0x7f) as u8) | 0x80) & 0x7f == ((v >> 28u32)
            & 0x7f) as u8 & 0x7f) by (bit_vector);
    }
}

/// `v` fits in the groups of its own encoding, and in no fewer.
proof fn lemma_len_bounds(v: u32)
    ensures
        v & varint_mask(varint_len(v)) == v,
        1 <= varint_len(v) <= 5,
{
    assert(v < 0x80 ==> v & 0x7f == v) by (bit_vector);
    assert(v < 0x4000 ==> v & 0x3fff == v) by (bit_vector);
    assert(v < 0x20_0000 ==> v & 0x1f_ffff == v) by (bit_vector);
    assert(v < 0x1000_0000 ==> v & 0xfff_ffff == v) by (bit_vector);
    assert(v & 0xffff_ffff == v) by (bit_vector);
    assert((v >> 7u32) == 0 <==> v < 0x80) by (bit_vector);
    assert((v >> 14u32) == 0 <==> v < 0x4000) by (bit_vector);
    assert((v >> 21u32) == 0 <==> v < 0x20_0000) by (bit_vector);
    assert((v >> 28u32) == 0 <==> v < 0x1000_0000) by (bit_vector);
}

/// The groups of `v` from group `i + 1` on are all zero exactly when the
/// encoding of `v` ends at byte `i`.
proof fn lemma_shift_zero(v: u32, i: nat)
    requires
        i < 5,
    ensures
        ((v >> (7 * i) as u32) >> 7u32 == 0) <==> i + 1 >= varint_len(v),
{
    assert((v >> 0u32) >> 7u32 == 0 <==> v < 0x80) by (bit_vector);
    assert((v >> 7u32) >> 7u32 == 0 <==> v < 0x4000) by (bit_vector);
    assert((v >> 14u32) >> 7u32 == 0 <==> v < 0x20_0000) by (bit_vector);
    assert((v >> 21u32) >> 7u32 == 0 <==> v < 0x1000_0000) by (bit_vector);
    assert((v >> 28u32) >> 7u32 == 0) by (bit_vector);
}

proof fn lemma_read_encoded_from(v: u32, rest: Seq<u8>, i: nat)
    requires
        i < varint_len(v),
    ensures
        varint_read_from(varint_bytes(v) + rest, i, v & varint_mask(i)) == VarIntRead::Value(
            v as i32,
            varint_len(v),
        ),
    decreases varint_len(v) - i,
{
    lemma_len_bounds(v);
    lemma_group_step(v, i);
    let s = varint_bytes(v) + rest;
    let len = varint_len(v);
    assert(s[i as int] == varint_byte(v, i, len));
    if i + 1 < len {
        lemma_read_encoded_from(v, rest, i + 1);
    } else {
        assert(v & varint_mask(i + 1) == v);
    }
}

proof fn lemma_read_prefix_from(v: u32, k: nat, i: nat)
    requires
        i <= k < varint_len(v),
    ensures
        varint_read_from(varint_bytes(v).take(k as int), i, v & varint_mask(i))
            == VarIntRead::Truncated,
    decreases k - i,
{
    lemma_len_bounds(v);
    if i < k {
        lemma_group_step(v, i);
        let s = varint_bytes(v).take(k as int);
        let len = varint_len(v);
        assert(s[i as int] == varint_byte(v, i, len));
        lemma_read_prefix_from(v, k, i + 1);
    }
}

/// Every proper prefix of the encoding of a `VarInt` reads as cut short.
pub proof fn lemma_varint_prefix_truncated(v: i32, k: nat)
    requires
        k < spec_varint_encode(v).len(),
    ensures
        spec_varint_read(spec_varint_encode(v).take(k as int)) == VarIntRead::Truncated,
{
    let u = v as u32;
    assert(u & 0 == 0) by (bit_vector);
    lemma_read_prefix_from(u, k, 0);
}

/// Reading back the encoding of a `VarInt` gives the same value and consumes
/// exactly its bytes, whatever follows them.
pub proof fn lemma_varint_roundtrip(v: i32, rest: Seq<u8>)
    ensures
        spec_varint_read(spec_varint_encode(v) + rest) == VarIntRead::Value(
            v,
            spec_varint_encode(v).len(),
        ),
{
    let u = v as u32;
    assert(u & 0 == 0) by (bit_vector);
    lemma_read_encoded_from(u, rest, 0);
    assert((v as u32) as i32 == v) by (bit_vector);
}


/// The result a byte reader gives for a `VarInt` read, as a `Result`.
pub open spec fn varint_read_result(r: VarIntRead, pos: int) -> Result<(i32, int), DecodeError> {
    match r {
        VarIntRead::Value(v, n) => Ok((v, pos + n)),
        VarIntRead::Truncated => Err(DecodeError::UnexpectedEof),
        VarIntRead::TooLong => Err(DecodeError::VarIntTooLong),
    }
}

proof fn lemma_shift_chain(v: u32, i: nat)
    requires
        i < 4,
    ensures
        (v >> (7 * i) as u32) >> 7u32 == v >> (7 * (i + 1)) as u32,
{
    if i == 0 {
        assert((v >> 0u32) >> 7u32 == v >> 7u32) by (bit_vector);
    } else if i == 1 {
        assert((v >> 7u32) >> 7u32 == v >> 14u32) by (bit_vector);
    } else if i == 2 {
        assert((v >> 14u32) >> 7u32 == v >> 21u32) by (bit_vector);
    } else {
        assert((v >> 21u32) >> 7u32 == v >> 28u32) by (bit_vector);
    }
}

/// Appends the encoding of `value` to `out`.
pub fn write_varint(value: i32, out: &mut Vec<u8>)
    ensures
        final(out)@ == old(out)@ + spec_varint_encode(value),
{
    let ghost orig: u32 = value as u32;
    let ghost start = out@;
    let mut v: u32 = value as u32;
    let mut i: usize = 0;
    assert(orig >> 0u32 == orig) by (bit_vector);
    loop
        invariant
            i < 5,
            start == old(out)@,
            orig == value as u32,
            i < varint_len(orig),
            v == orig >> (7 * i) as u32,
            out@ == start + varint_bytes(orig).take(i as int),
        decreases 5 - i,
    {
        let part = v as u8;
        proof {
            lemma_shift_zero(orig, i as nat);
            lemma_group_step(orig, i as nat);
            assert((v as u8) & 0x7f == ((v & 0x7f) as u8) & 0x7f) by (bit_vector);
            assert((v as u8) | 0x80 == ((v & 0x7f) as u8) | 0x80) by (bit_vector);
            assert(((v & 0x7f) as u8) & 0x7f == ((v & 0x7f) as u8)) by (bit_vector);
        }
        v = v >> 7;
        if v == 0 {
            out.push(part & 0x7f);
            assert(out@ =~= start + varint_bytes(orig));
            return;
        } else {
            out.push(part | 0x80);
            proof {
                if i < 4 {
                    lemma_shift_chain(orig, i as nat);
                } else {
                    assert((orig >> 28u32) >> 7u32 == 0) by (bit_vector);
                }
            }
            assert(out@ =~= start + varint_bytes(orig).take(i + 1));
            i = i + 1;
        }
    }
}

/// Reads a `VarInt` from `buf` starting at `pos`; on success also gives the
/// position just past it.
pub fn read_varint(buf: &[u8], pos: usize) -> (r: Result<(i32, usize), DecodeError>)
    requires
        pos <= buf@.len(),
    ensures
        match r {
            Ok((v, end)) => varint_read_result(spec_varint_read(buf@.skip(pos as int)), pos as int)
                == Ok::<(i32, int), DecodeError>((v, end as int)),
            Err(e) => varint_read_result(spec_varint_read(buf@.skip(pos as int)), pos as int)
                == Err::<(i32, int), DecodeError>(e),
        },
{
    let ghost s = buf@.skip(pos as int);
    let mut acc: u32 = 0;
    let mut i: usize = 0;
    while i < 5
        invariant
            pos <= buf@.len(),
            s == buf@.skip(pos as int),
            i < 5,
            spec_varint_read(s) == varint_read_from(s, i as nat, acc),
        decreases 5 - i,
    {
        if i >= buf.len() - pos {
            return Err(DecodeError::UnexpectedEof);
        }
        let b = buf[pos + i];
        assert(s[i as int] == b);
        acc = acc | (((b & 0x7f) as u32) << (7 * i) as u32);
        if b & 0x80 == 0 {
            return Ok((acc as i32, pos + i + 1));
        }
        if i + 1 >= 5 {
            return Err(DecodeError::VarIntTooLong);
        }
        i = i + 1;
    }
    Err(DecodeError::VarIntTooLong)
}


proof fn lemma_varint_read_from_len(s: Seq<u8>, i: nat, acc: u32)
    ensures
        varint_read_from(s, i, acc) matches VarIntRead::Value(_, n) ==> n <= s.len() && n
            >= 1,
    decreases 5 - i,
{
    if i < 5 && i < s.len() {
        let b = s[i as int];
        let acc2 = acc | (((b & 0x7f) as u32) << (7 * i) as u32);
        if b & 0x80 != 0 && i + 1 < 5 {
            lemma_varint_read_from_len(s, i + 1, acc2);
        }
    }
}

/// A `VarInt` read never claims more bytes than there are.
pub proof fn lemma_varint_read_len(s: Seq<u8>)
    ensures
        spec_varint_read(s) matches VarIntRead::Value(_, n) ==> 1 <= n <= s.len(),
{
    lemma_varint_read_from_len(s, 0, 0);
}

/// Converts `i32` into `VarInt`: the same value.
impl From<i32> for VarInt {
    fn from(value: i32) -> (r: VarInt) {
        VarInt(value)
    }
}

impl vstd::std_specs::convert::FromSpecImpl<i32> for VarInt {
    open spec fn obeys_from_spec() -> bool {
        true
    }

    open spec fn from_spec(v: i32) -> VarInt {
        VarInt(v)
    }
}

/// Converts `u32` into `VarInt`: the bits of the value, truncated or sign-extended as `as` does.
impl From<u32> for VarInt {
    fn from(value: u32) -> (r: VarInt) {
        VarInt(value as i32)
    }
}

impl vstd::std_specs::convert::FromSpecImpl<u32> for VarInt {
    open spec fn obeys_from_spec() -> bool {
        true
    }

    open spec fn from_spec(v: u32) -> VarInt {
        VarInt(v as i32)
    }
}

/// Converts `usize` into `VarInt`: the bits of the value, truncated or sign-extended as `as` does.
impl From<usize> for VarInt {
    fn from(value: usize) -> (r: VarInt) {
        VarInt(value as i32)
    }
}

impl vstd::std_specs::convert::FromSpecImpl<usize> for VarInt {
    open spec fn obeys_from_spec() -> bool {
        true
    }

    open spec fn from_spec(v: usize) -> VarInt {
        VarInt(v as i32)
    }
}

/// Converts `isize` into `VarInt`: the bits of the value, truncated or sign-extended as `as` does.
impl From<isize> for VarInt {
    fn from(value: isize) -> (r: VarInt) {
        VarInt(value as i32)
    }
}

impl vstd::std_specs::convert::FromSpecImpl<isize> for VarInt {
    open spec fn obeys_from_spec() -> bool {
        true
    }

    open spec fn from_spec(v: isize) -> VarInt {
        VarInt(v as i32)
    }
}

/// Converts `VarInt` into `i32`: the same value.
impl From<VarInt> for i32 {
    fn from(value: VarInt) -> (r: i32) {
        value.0
    }
}

impl vstd::std_specs::convert::FromSpecImpl<VarInt> for i32 {
    open spec fn obeys_from_spec() -> bool {
        true
    }

    open spec fn from_spec(v: VarInt) -> i32 {
        v.0
    }
}

/// Converts `VarInt` into `u32`: the bits of the value, truncated or sign-extended as `as` does.
impl From<VarInt> for u32 {
    fn from(value: VarInt) -> (r: u32) {
        value.0 as u32
    }
}

impl vstd::std_specs::convert::FromSpecImpl<VarInt> for u32 {
    open spec fn obeys_from_spec() -> bool {
        true
    }

    open spec fn from_spec(v: VarInt) -> u32 {
        v.0 as u32
    }
}

/// Converts `VarInt` into `usize`: the bits of the value, truncated or sign-extended as `as` does.
impl From<VarInt> for usize {
    fn from(value: VarInt) -> (r: usize) {
        value.0 as usize
    }
}

impl vstd::std_specs::convert::FromSpecImpl<VarInt> for usize {
    open spec fn obeys_from_spec() -> bool {
        true
    }

    open spec fn from_spec(v: VarInt) -> usize {
        v.0 as usize
    }
}

/// Converts `VarInt` into `isize`: the bits of the value, truncated or sign-extended as `as` does.
impl From<VarInt> for isize {
    fn from(value: VarInt) -> (r: isize) {
        value.0 as isize
    }
}

impl vstd::std_specs::convert::FromSpecImpl<VarInt> for isize {
    open spec fn obeys_from_spec() -> bool {
        true
    }

    open spec fn from_spec(v: VarInt) -> isize {
        v.0 as isize
    }
}

} // verus!
