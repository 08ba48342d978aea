//! Fixed-width values: big-endian integers, booleans and the `VarInt`.

use vstd::prelude::*;

use crate::codec::{lemma_skip_prefix, Wire};
use crate::error::DecodeError;
use crate::varint::{
    lemma_varint_prefix_truncated, lemma_varint_roundtrip, read_varint, spec_varint_encode, spec_varint_read, varint_len,
    varint_read_from, write_varint, VarInt, VarIntRead,
};

verus! {

/// The 2 big-endian bytes of `v`.
pub open spec fn be_u16_bytes(v: u16) -> Seq<u8> {
    seq![(v >> 8u16) as u8, v as u8]
}

/// The `u16` whose big-endian bytes start `s`.
pub open spec fn be_u16_value(s: Seq<u8>) -> u16
    recommends
        s.len() >= 2,
{
    ((s[0] as u16) << 8u16) | (s[1] as u16)
}

/// Reading the big-endian bytes of `v` gives `v`.
pub proof fn lemma_be_u16(v: u16, rest: Seq<u8>)
    ensures
        be_u16_value(be_u16_bytes(v) + rest) == v,
{
    let s = be_u16_bytes(v) + rest;
    let b0 = (v >> 8u16) as u8;
    let b1 = v as u8;
    assert(((b0 as u16) << 8u16) | (b1 as u16) == v) by (bit_vector)
        requires
            b0 == (v >> 8u16) as u8 && b1 == v as u8,
    ;
}

/// Reading a big-endian `u16` from the front of `s`.
pub open spec fn spec_read_u16(s: Seq<u8>) -> Result<(u16, nat), DecodeError> {
    if s.len() < 2 {
        Err(DecodeError::UnexpectedEof)
    } else {
        Ok((be_u16_value(s), 2))
    }
}

/// Appends the big-endian bytes of `v`.
pub fn write_u16(v: u16, out: &mut Vec<u8>)
    ensures
        final(out)@ == old(out)@ + be_u16_bytes(v),
{
    let ghost start = out@;
    out.push((v >> 8u16) as u8);
    out.push(v as u8);
    assert(out@ =~= start + be_u16_bytes(v));
}

/// Reads a big-endian `u16` at `pos`.
pub fn read_u16(buf: &[u8], pos: usize) -> (r: Result<(u16, usize), DecodeError>)
    requires
        pos <= buf@.len(),
    ensures
        match spec_read_u16(buf@.skip(pos as int)) {
            Ok((v, n)) => r matches Ok((w, end)) && w == v && end == pos + n,
            Err(e) => r == Err::<(u16, usize), DecodeError>(e),
        },
        r matches Ok((_, end)) ==> pos <= end <= buf@.len(),
{
    if buf.len() - pos < 2 {
        return Err(DecodeError::UnexpectedEof);
    }
    let v = ((buf[pos + 0] as u16) << 8u16) | (buf[pos + 1] as u16);
    Ok((v, pos + 2))
}

/// The 4 big-endian bytes of `v`.
pub open spec fn be_u32_bytes(v: u32) -> Seq<u8> {
    seq![(v >> 24u32) as u8, (v >> 16u32) as u8, (v >> 8u32) as u8, v as u8]
}

/// The `u32` whose big-endian bytes start `s`.
pub open spec fn be_u32_value(s: Seq<u8>) -> u32
    recommends
        s.len() >= 4,
{
    ((s[0] as u32) << 24u32) | ((s[1] as u32) << 16u32) | ((s[2] as u32) << 8u32) | (s[3] as u32)
}

/// Reading the big-endian bytes of `v` gives `v`.
pub proof fn lemma_be_u32(v: u32, rest: Seq<u8>)
    ensures
        be_u32_value(be_u32_bytes(v) + rest) == v,
{
    let s = be_u32_bytes(v) + rest;
    let b0 = (v >> 24u32) as u8;
    let b1 = (v >> 16u32) as u8;
    let b2 = (v >> 8u32) as u8;
    let b3 = v as u8;
    assert(((b0 as u32) << 24u32) | ((b1 as u32) << 16u32) | ((b2 as u32) << 8u32) | (b3 as u32) == v) by (bit_vector)
        requires
            b0 == (v >> 24u32) as u8 && b1 == (v >> 16u32) as u8 && b2 == (v >> 8u32) as u8 && b3 == v as u8,
    ;
}

/// Reading a big-endian `u32` from the front of `s`.
pub open spec fn spec_read_u32(s: Seq<u8>) -> Result<(u32, nat), DecodeError> {
    if s.len() < 4 {
        Err(DecodeError::UnexpectedEof)
    } else {
        Ok((be_u32_value(s), 4))
    }
}

/// Appends the big-endian bytes of `v`.
pub fn write_u32(v: u32, out: &mut Vec<u8>)
    ensures
        final(out)@ == old(out)@ + be_u32_bytes(v),
{
    let ghost start = out@;
    out.push((v >> 24u32) as u8);
    out.push((v >> 16u32) as u8);
    out.push((v >> 8u32) as u8);
    out.push(v as u8);
    assert(out@ =~= start + be_u32_bytes(v));
}

/// Reads a big-endian `u32` at `pos`.
pub fn read_u32(buf: &[u8], pos: usize) -> (r: Result<(u32, usize), DecodeError>)
    requires
        pos <= buf@.len(),
    ensures
        match spec_read_u32(buf@.skip(pos as int)) {
            Ok((v, n)) => r matches Ok((w, end)) && w == v && end == pos + n,
            Err(e) => r == Err::<(u32, usize), DecodeError>(e),
        },
        r matches Ok((_, end)) ==> pos <= end <= buf@.len(),
{
    if buf.len() - pos < 4 {
        return Err(DecodeError::UnexpectedEof);
    }
    let v = ((buf[pos + 0] as u32) << 24u32) | ((buf[pos + 1] as u32) << 16u32) | ((buf[pos + 2] as u32) << 8u32) | (buf[pos + 3] as u32);
    Ok((v, pos + 4))
}

/// The 8 big-endian bytes of `v`.
pub open spec fn be_u64_bytes(v: u64) -> Seq<u8> {
    seq![(v >> 56u64) as u8, (v >> 48u64) as u8, (v >> 40u64) as u8, (v >> 32u64) as u8, (v >> 24u64) as u8, (v >> 16u64) as u8, (v >> 8u64) as u8, v as u8]
}

/// The `u64` whose big-endian bytes start `s`.
pub open spec fn be_u64_value(s: Seq<u8>) -> u64
    recommends
        s.len() >= 8,
{
    ((s[0] as u64) << 56u64) | ((s[1] as u64) << 48u64) | ((s[2] as u64) << 40u64) | ((s[3] as u64) << 32u64) | ((s[4] as u64) << 24u64) | ((s[5] as u64) << 16u64) | ((s[6] as u64) << 8u64) | (s[7] as u64)
}

/// Reading the big-endian bytes of `v` gives `v`.
pub proof fn lemma_be_u64(v: u64, rest: Seq<u8>)
    ensures
        be_u64_value(be_u64_bytes(v) + rest) == v,
{
    let s = be_u64_bytes(v) + rest;
    let b0 = (v >> 56u64) as u8;
    let b1 = (v >> 48u64) as u8;
    let b2 = (v >> 40u64) as u8;
    let b3 = (v >> 32u64) as u8;
    let b4 = (v >> 24u64) as u8;
    let b5 = (v >> 16u64) as u8;
    let b6 = (v >> 8u64) as u8;
    let b7 = v as u8;
    assert(((b0 as u64) << 56u64) | ((b1 as u64) << 48u64) | ((b2 as u64) << 40u64) | ((b3 as u64) << 32u64) | ((b4 as u64) << 24u64) | ((b5 as u64) << 16u64) | ((b6 as u64) << 8u64) | (b7 as u64) == v) by (bit_vector)
        requires
            b0 == (v >> 56u64) as u8 && b1 == (v >> 48u64) as u8 && b2 == (v >> 40u64) as u8 && b3 == (v >> 32u64) as u8 && b4 == (v >> 24u64) as u8 && b5 == (v >> 16u64) as u8 && b6 == (v >> 8u64) as u8 && b7 == v as u8,
    ;
}

/// Reading a big-endian `u64` from the front of `s`.
pub open spec fn spec_read_u64(s: Seq<u8>) -> Result<(u64, nat), DecodeError> {
    if s.len() < 8 {
        Err(DecodeError::UnexpectedEof)
    } else {
        Ok((be_u64_value(s), 8))
    }
}

/// Appends the big-endian bytes of `v`.
pub fn write_u64(v: u64, out: &mut Vec<u8>)
    ensures
        final(out)@ == old(out)@ + be_u64_bytes(v),
{
    let ghost start = out@;
    out.push((v >> 56u64) as u8);
    out.push((v >> 48u64) as u8);
    out.push((v >> 40u64) as u8);
    out.push((v >> 32u64) as u8);
    out.push((v >> 24u64) as u8);
    out.push((v >> 16u64) as u8);
    out.push((v >> 8u64) as u8);
    out.push(v as u8);
    assert(out@ =~= start + be_u64_bytes(v));
}

/// Reads a big-endian `u64` at `pos`.
pub fn read_u64(buf: &[u8], pos: usize) -> (r: Result<(u64, usize), DecodeError>)
    requires
        pos <= buf@.len(),
    ensures
        match spec_read_u64(buf@.skip(pos as int)) {
            Ok((v, n)) => r matches Ok((w, end)) && w == v && end == pos + n,
            Err(e) => r == Err::<(u64, usize), DecodeError>(e),
        },
        r matches Ok((_, end)) ==> pos <= end <= buf@.len(),
{
    if buf.len() - pos < 8 {
        return Err(DecodeError::UnexpectedEof);
    }
    let v = ((buf[pos + 0] as u64) << 56u64) | ((buf[pos + 1] as u64) << 48u64) | ((buf[pos + 2] as u64) << 40u64) | ((buf[pos + 3] as u64) << 32u64) | ((buf[pos + 4] as u64) << 24u64) | ((buf[pos + 5] as u64) << 16u64) | ((buf[pos + 6] as u64) << 8u64) | (buf[pos + 7] as u64);
    Ok((v, pos + 8))
}

/// A big-endian unsigned 16-bit integer (e.g. a port).
impl Wire for u16 {
    type Model = u16;

    open spec fn model(&self) -> u16 {
        *self
    }

    open spec fn encodable(m: u16) -> bool {
        true
    }

    open spec fn greedy() -> bool {
        false
    }

    open spec fn decodable() -> bool {
        true
    }

    open spec fn spec_write(m: u16) -> Seq<u8> {
        be_u16_bytes(m)
    }

    open spec fn spec_read(s: Seq<u8>) -> Result<(u16, nat), DecodeError> {
        spec_read_u16(s)
    }

    fn write(&self, out: &mut Vec<u8>) {
        write_u16(*self, out);
    }

    fn read(buf: &[u8], pos: usize) -> (r: Result<(u16, usize), DecodeError>) {
        read_u16(buf, pos)
    }

    proof fn lemma_read_len(s: Seq<u8>) {
    }

    proof fn lemma_roundtrip(m: u16, rest: Seq<u8>) {
        lemma_be_u16(m, rest);
    }
}

/// A big-endian 32-bit pattern; `f32` fields travel as their IEEE-754 bits.
impl Wire for u32 {
    type Model = u32;

    open spec fn model(&self) -> u32 {
        *self
    }

    open spec fn encodable(m: u32) -> bool {
        true
    }

    open spec fn greedy() -> bool {
        false
    }

    open spec fn decodable() -> bool {
        true
    }

    open spec fn spec_write(m: u32) -> Seq<u8> {
        be_u32_bytes(m)
    }

    open spec fn spec_read(s: Seq<u8>) -> Result<(u32, nat), DecodeError> {
        spec_read_u32(s)
    }

    fn write(&self, out: &mut Vec<u8>) {
        write_u32(*self, out);
    }

    fn read(buf: &[u8], pos: usize) -> (r: Result<(u32, usize), DecodeError>) {
        read_u32(buf, pos)
    }

    proof fn lemma_read_len(s: Seq<u8>) {
    }

    proof fn lemma_roundtrip(m: u32, rest: Seq<u8>) {
        lemma_be_u32(m, rest);
    }
}

/// A big-endian 64-bit pattern; `f64` fields travel as their IEEE-754 bits.
impl Wire for u64 {
    type Model = u64;

    open spec fn model(&self) -> u64 {
        *self
    }

    open spec fn encodable(m: u64) -> bool {
        true
    }

    open spec fn greedy() -> bool {
        false
    }

    open spec fn decodable() -> bool {
        true
    }

    open spec fn spec_write(m: u64) -> Seq<u8> {
        be_u64_bytes(m)
    }

    open spec fn spec_read(s: Seq<u8>) -> Result<(u64, nat), DecodeError> {
        spec_read_u64(s)
    }

    fn write(&self, out: &mut Vec<u8>) {
        write_u64(*self, out);
    }

    fn read(buf: &[u8], pos: usize) -> (r: Result<(u64, usize), DecodeError>) {
        read_u64(buf, pos)
    }

    proof fn lemma_read_len(s: Seq<u8>) {
    }

    proof fn lemma_roundtrip(m: u64, rest: Seq<u8>) {
        lemma_be_u64(m, rest);
    }
}

/// A big-endian signed 16-bit integer.
impl Wire for i16 {
    type Model = i16;

    open spec fn model(&self) -> i16 {
        *self
    }

    open spec fn encodable(m: i16) -> bool {
        true
    }

    open spec fn greedy() -> bool {
        false
    }

    open spec fn decodable() -> bool {
        true
    }

    open spec fn spec_write(m: i16) -> Seq<u8> {
        be_u16_bytes(m as u16)
    }

    open spec fn spec_read(s: Seq<u8>) -> Result<(i16, nat), DecodeError> {
        match spec_read_u16(s) {
            Ok((v, k)) => Ok((v as i16, k)),
            Err(e) => Err(e),
        }
    }

    fn write(&self, out: &mut Vec<u8>) {
        write_u16(*self as u16, out);
    }

    fn read(buf: &[u8], pos: usize) -> (r: Result<(i16, usize), DecodeError>) {
        match read_u16(buf, pos) {
            Ok((v, end)) => Ok((v as i16, end)),
            Err(e) => Err(e),
        }
    }

    proof fn lemma_read_len(s: Seq<u8>) {
    }

    proof fn lemma_roundtrip(m: i16, rest: Seq<u8>) {
        lemma_be_u16(m as u16, rest);
        assert((m as u16) as i16 == m) by (bit_vector);
    }
}

/// A big-endian signed 32-bit integer.
impl Wire for i32 {
    type Model = i32;

    open spec fn model(&self) -> i32 {
        *self
    }

    open spec fn encodable(m: i32) -> bool {
        true
    }

    open spec fn greedy() -> bool {
        false
    }

    open spec fn decodable() -> bool {
        true
    }

    open spec fn spec_write(m: i32) -> Seq<u8> {
        be_u32_bytes(m as u32)
    }

    open spec fn spec_read(s: Seq<u8>) -> Result<(i32, nat), DecodeError> {
        match spec_read_u32(s) {
            Ok((v, k)) => Ok((v as i32, k)),
            Err(e) => Err(e),
        }
    }

    fn write(&self, out: &mut Vec<u8>) {
        write_u32(*self as u32, out);
    }

    fn read(buf: &[u8], pos: usize) -> (r: Result<(i32, usize), DecodeError>) {
        match read_u32(buf, pos) {
            Ok((v, end)) => Ok((v as i32, end)),
            Err(e) => Err(e),
        }
    }

    proof fn lemma_read_len(s: Seq<u8>) {
    }

    proof fn lemma_roundtrip(m: i32, rest: Seq<u8>) {
        lemma_be_u32(m as u32, rest);
        assert((m as u32) as i32 == m) by (bit_vector);
    }
}

/// A big-endian signed 64-bit integer.
impl Wire for i64 {
    type Model = i64;

    open spec fn model(&self) -> i64 {
        *self
    }

    open spec fn encodable(m: i64) -> bool {
        true
    }

    open spec fn greedy() -> bool {
        false
    }

    open spec fn decodable() -> bool {
        true
    }

    open spec fn spec_write(m: i64) -> Seq<u8> {
        be_u64_bytes(m as u64)
    }

    open spec fn spec_read(s: Seq<u8>) -> Result<(i64, nat), DecodeError> {
        match spec_read_u64(s) {
            Ok((v, k)) => Ok((v as i64, k)),
            Err(e) => Err(e),
        }
    }

    fn write(&self, out: &mut Vec<u8>) {
        write_u64(*self as u64, out);
    }

    fn read(buf: &[u8], pos: usize) -> (r: Result<(i64, usize), DecodeError>) {
        match read_u64(buf, pos) {
            Ok((v, end)) => Ok((v as i64, end)),
            Err(e) => Err(e),
        }
    }

    proof fn lemma_read_len(s: Seq<u8>) {
    }

    proof fn lemma_roundtrip(m: i64, rest: Seq<u8>) {
        lemma_be_u64(m as u64, rest);
        assert((m as u64) as i64 == m) by (bit_vector);
    }
}

/// Reading one byte from the front of `s`.
pub open spec fn spec_read_u8(s: Seq<u8>) -> Result<(u8, nat), DecodeError> {
    if s.len() < 1 {
        Err(DecodeError::UnexpectedEof)
    } else {
        Ok((s[0], 1))
    }
}

/// Reads one byte at `pos`.
pub fn read_u8(buf: &[u8], pos: usize) -> (r: Result<(u8, usize), DecodeError>)
    requires
        pos <= buf@.len(),
    ensures
        match spec_read_u8(buf@.skip(pos as int)) {
            Ok((v, n)) => r matches Ok((w, end)) && w == v && end == pos + n,
            Err(e) => r == Err::<(u8, usize), DecodeError>(e),
        },
        r matches Ok((_, end)) ==> pos <= end <= buf@.len(),
{
    if pos >= buf.len() {
        return Err(DecodeError::UnexpectedEof);
    }
    Ok((buf[pos], pos + 1))
}

/// One unsigned byte.
impl Wire for u8 {
    type Model = u8;

    open spec fn model(&self) -> u8 {
        *self
    }

    open spec fn encodable(m: u8) -> bool {
        true
    }

    open spec fn greedy() -> bool {
        false
    }

    open spec fn decodable() -> bool {
        true
    }

    open spec fn spec_write(m: u8) -> Seq<u8> {
        seq![m]
    }

    open spec fn spec_read(s: Seq<u8>) -> Result<(u8, nat), DecodeError> {
        spec_read_u8(s)
    }

    fn write(&self, out: &mut Vec<u8>) {
        out.push(*self);
    }

    fn read(buf: &[u8], pos: usize) -> (r: Result<(u8, usize), DecodeError>) {
        read_u8(buf, pos)
    }

    proof fn lemma_read_len(s: Seq<u8>) {
    }

    proof fn lemma_roundtrip(m: u8, rest: Seq<u8>) {
    }
}

/// One signed byte, two's complement.
impl Wire for i8 {
    type Model = i8;

    open spec fn model(&self) -> i8 {
        *self
    }

    open spec fn encodable(m: i8) -> bool {
        true
    }

    open spec fn greedy() -> bool {
        false
    }

    open spec fn decodable() -> bool {
        true
    }

    open spec fn spec_write(m: i8) -> Seq<u8> {
        seq![m as u8]
    }

    open spec fn spec_read(s: Seq<u8>) -> Result<(i8, nat), DecodeError> {
        match spec_read_u8(s) {
            Ok((v, k)) => Ok((v as i8, k)),
            Err(e) => Err(e),
        }
    }

    fn write(&self, out: &mut Vec<u8>) {
        out.push(*self as u8);
    }

    fn read(buf: &[u8], pos: usize) -> (r: Result<(i8, usize), DecodeError>) {
        match read_u8(buf, pos) {
            Ok((v, end)) => Ok((v as i8, end)),
            Err(e) => Err(e),
        }
    }

    proof fn lemma_read_len(s: Seq<u8>) {
    }

    proof fn lemma_roundtrip(m: i8, rest: Seq<u8>) {
        assert((m as u8) as i8 == m) by (bit_vector);
    }
}

/// One byte: 1 for true, 0 for false; any non-zero byte reads as true.
impl Wire for bool {
    type Model = bool;

    open spec fn model(&self) -> bool {
        *self
    }

    open spec fn encodable(m: bool) -> bool {
        true
    }

    open spec fn greedy() -> bool {
        false
    }

    open spec fn decodable() -> bool {
        true
    }

    open spec fn spec_write(m: bool) -> Seq<u8> {
        seq![if m { 1u8 } else { 0u8 }]
    }

    open spec fn spec_read(s: Seq<u8>) -> Result<(bool, nat), DecodeError> {
        match spec_read_u8(s) {
            Ok((v, k)) => Ok((v != 0, k)),
            Err(e) => Err(e),
        }
    }

    fn write(&self, out: &mut Vec<u8>) {
        out.push(if *self { 1u8 } else { 0u8 });
    }

    fn read(buf: &[u8], pos: usize) -> (r: Result<(bool, usize), DecodeError>) {
        match read_u8(buf, pos) {
            Ok((v, end)) => Ok((v != 0, end)),
            Err(e) => Err(e),
        }
    }

    proof fn lemma_read_len(s: Seq<u8>) {
    }

    proof fn lemma_roundtrip(m: bool, rest: Seq<u8>) {
    }
}

/// A 128-bit value (a UUID) as two big-endian 64-bit halves, most
/// significant first.
impl Wire for u128 {
    type Model = u128;

    open spec fn model(&self) -> u128 {
        *self
    }

    open spec fn encodable(m: u128) -> bool {
        true
    }

    open spec fn greedy() -> bool {
        false
    }

    open spec fn decodable() -> bool {
        true
    }

    open spec fn spec_write(m: u128) -> Seq<u8> {
        be_u64_bytes((m >> 64u128) as u64) + be_u64_bytes(m as u64)
    }

    open spec fn spec_read(s: Seq<u8>) -> Result<(u128, nat), DecodeError> {
        if s.len() < 16 {
            Err(DecodeError::UnexpectedEof)
        } else {
            Ok(
                (
                    ((be_u64_value(s) as u128) << 64u128) | (be_u64_value(s.skip(8)) as u128),
                    16,
                ),
            )
        }
    }

    fn write(&self, out: &mut Vec<u8>) {
        let ghost start = out@;
        write_u64((*self >> 64u128) as u64, out);
        write_u64(*self as u64, out);
        assert(out@ =~= start + Self::spec_write(*self));
    }

    fn read(buf: &[u8], pos: usize) -> (r: Result<(u128, usize), DecodeError>) {
        if buf.len() - pos < 16 {
            return Err(DecodeError::UnexpectedEof);
        }
        let (hi, p) = match read_u64(buf, pos) {
            Ok(x) => x,
            Err(e) => return Err(e),
        };
        let (lo, end) = match read_u64(buf, p) {
            Ok(x) => x,
            Err(e) => return Err(e),
        };
        proof {
            assert(buf@.skip(pos as int).skip(8) =~= buf@.skip(p as int));
        }
        Ok((((hi as u128) << 64u128) | (lo as u128), end))
    }

    proof fn lemma_read_len(s: Seq<u8>) {
    }

    proof fn lemma_roundtrip(m: u128, rest: Seq<u8>) {
        let hi = (m >> 64u128) as u64;
        let lo = m as u64;
        let s = Self::spec_write(m) + rest;
        assert(s == be_u64_bytes(hi) + (be_u64_bytes(lo) + rest));
        lemma_be_u64(hi, be_u64_bytes(lo) + rest);
        lemma_skip_prefix(be_u64_bytes(hi), be_u64_bytes(lo) + rest);
        lemma_be_u64(lo, rest);
        assert(((hi as u128) << 64u128) | (lo as u128) == m) by (bit_vector)
            requires
                hi == (m >> 64u128) as u64,
                lo == m as u64,
        ;
    }
}

/// A `VarInt` on the wire.
impl Wire for VarInt {
    type Model = i32;

    open spec fn model(&self) -> i32 {
        self.0
    }

    open spec fn encodable(m: i32) -> bool {
        true
    }

    open spec fn greedy() -> bool {
        false
    }

    open spec fn decodable() -> bool {
        true
    }

    open spec fn spec_write(m: i32) -> Seq<u8> {
        spec_varint_encode(m)
    }

    open spec fn spec_read(s: Seq<u8>) -> Result<(i32, nat), DecodeError> {
        match spec_varint_read(s) {
            VarIntRead::Value(v, n) => Ok((v, n)),
            VarIntRead::Truncated => Err(DecodeError::UnexpectedEof),
            VarIntRead::TooLong => Err(DecodeError::VarIntTooLong),
        }
    }

    fn write(&self, out: &mut Vec<u8>) {
        write_varint(self.0, out);
    }

    fn read(buf: &[u8], pos: usize) -> (r: Result<(VarInt, usize), DecodeError>) {
        match read_varint(buf, pos) {
            Ok((v, end)) => {
                proof {
                    crate::varint::lemma_varint_read_len(buf@.skip(pos as int));
                }
                Ok((VarInt(v), end))
            },
            Err(e) => Err(e),
        }
    }

    proof fn lemma_read_len(s: Seq<u8>) {
        crate::varint::lemma_varint_read_len(s);
    }

    proof fn lemma_roundtrip(m: i32, rest: Seq<u8>) {
        lemma_varint_roundtrip(m, rest);
    }
}

/// Decoding a `VarInt` from a proper prefix of its encoding fails as cut
/// short (never as too long, and never with a value).
pub proof fn lemma_varint_decode_truncated(v: i32, k: nat)
    requires
        k < spec_varint_encode(v).len(),
    ensures
        <VarInt as Wire>::spec_read(spec_varint_encode(v).take(k as int)) == Err::<
            (i32, nat),
            DecodeError,
        >(DecodeError::UnexpectedEof),
{
    lemma_varint_prefix_truncated(v, k);
}

} // verus!
