//! Minecraft's packed block position.
//!
//! On the wire a block position is one signed 64-bit integer packing the
//! three coordinates: `((x & 0x3FFFFFF) << 38) | ((z & 0x3FFFFFF) << 12) |
//! (y & 0xFFF)`. `x` and `z` are 26-bit signed, `y` is 12-bit signed.

use vstd::prelude::*;

use crate::codec::Wire;
use crate::error::DecodeError;
use crate::primitives::{be_u64_bytes, lemma_be_u64, read_u64, spec_read_u64, write_u64};

verus! {

/// A block position; it travels packed into one `i64`.
#[derive(Clone, Copy, Debug, PartialEq, Eq, Default, Structural)]
pub struct BlockPos {
    pub x: i32,
    pub y: i32,
    pub z: i32,
}

/// The packed form of the coordinates `x`, `y`, `z`.
pub open spec fn spec_pack(x: i32, y: i32, z: i32) -> i64 {
    (((x as i64) & 0x3ff_ffffi64) << 38i64) | (((z as i64) & 0x3ff_ffffi64) << 12i64) | ((
    y as i64) & 0xfffi64)
}

/// The position a packed value stands for, each field sign-extended.
pub open spec fn spec_unpack(v: i64) -> BlockPos {
    BlockPos {
        x: (v >> 38i64) as i32,
        y: ((v << 52i64) >> 52i64) as i32,
        z: ((v << 26i64) >> 38i64) as i32,
    }
}

/// The coordinates fit their fields: 26 bits for `x` and `z`, 12 for `y`.
pub open spec fn in_packed_range(p: BlockPos) -> bool {
    &&& -0x200_0000 <= p.x < 0x200_0000
    &&& -0x800 <= p.y < 0x800
    &&& -0x200_0000 <= p.z < 0x200_0000
}

impl BlockPos {
    /// The position `(x, y, z)`.
    pub fn new(x: i32, y: i32, z: i32) -> (r: BlockPos)
        ensures
            r == (BlockPos { x, y, z }),
    {
        BlockPos { x, y, z }
    }

    /// Packs into Minecraft's 64-bit wire encoding.
    pub fn to_packed(self) -> (r: i64)
        ensures
            r == spec_pack(self.x, self.y, self.z),
    {
        (((self.x as i64) & 0x3ff_ffff) << 38) | (((self.z as i64) & 0x3ff_ffff) << 12) | ((
        self.y as i64) & 0xfff)
    }

    /// Unpacks Minecraft's 64-bit wire encoding, sign-extending each field.
    pub fn from_packed(value: i64) -> (r: BlockPos)
        ensures
            r == spec_unpack(value),
    {
        let x = (value >> 38) as i32;
        let y = ((value << 52) >> 52) as i32;
        let z = ((value << 26) >> 38) as i32;
        BlockPos { x, y, z }
    }
}

/// Unpacking a packed position gives the position back when its coordinates
/// fit their fields.
pub proof fn lemma_unpack_pack(p: BlockPos)
    requires
        in_packed_range(p),
    ensures
        spec_unpack(spec_pack(p.x, p.y, p.z)) == p,
{
    let x = p.x;
    let y = p.y;
    let z = p.z;
    let v = spec_pack(x, y, z);
    assert((v >> 38i64) as i32 == x && ((v << 52i64) >> 52i64) as i32 == y && ((v << 26i64)
        >> 38i64) as i32 == z) by (bit_vector)
        requires
            v == (((x as i64) & 0x3ff_ffffi64) << 38i64) | (((z as i64) & 0x3ff_ffffi64) << 12i64)
                | ((y as i64) & 0xfffi64),
            -0x200_0000 <= x < 0x200_0000,
            -0x800 <= y < 0x800,
            -0x200_0000 <= z < 0x200_0000,
    ;
}

/// Every 64-bit value is the packed form of the position it unpacks to, and
/// that position fits the fields.
pub proof fn lemma_pack_unpack(v: i64)
    ensures
        spec_pack(spec_unpack(v).x, spec_unpack(v).y, spec_unpack(v).z) == v,
        in_packed_range(spec_unpack(v)),
{
    let x = (v >> 38i64) as i32;
    let y = ((v << 52i64) >> 52i64) as i32;
    let z = ((v << 26i64) >> 38i64) as i32;
    assert((((x as i64) & 0x3ff_ffffi64) << 38i64) | (((z as i64) & 0x3ff_ffffi64) << 12i64) | ((
    y as i64) & 0xfffi64) == v && -0x200_0000 <= x < 0x200_0000 && -0x800 <= y < 0x800
        && -0x200_0000 <= z < 0x200_0000) by (bit_vector)
        requires
            x == (v >> 38i64) as i32,
            y == ((v << 52i64) >> 52i64) as i32,
            z == ((v << 26i64) >> 38i64) as i32,
    ;
}

/// A position travels as its packed `i64`; its wire model is that value.
impl Wire for BlockPos {
    type Model = i64;

    open spec fn model(&self) -> i64 {
        spec_pack(self.x, self.y, self.z)
    }

    open spec fn encodable(m: i64) -> bool {
        true
    }

    open spec fn greedy() -> bool {
        false
    }

    open spec fn decodable() -> bool {
        true
    }

    open spec fn spec_write(m: i64) -> Seq<u8> {
        be_u64_bytes(m as u64)
    }

    open spec fn spec_read(s: Seq<u8>) -> Result<(i64, nat), DecodeError> {
        match spec_read_u64(s) {
            Ok((v, k)) => Ok((v as i64, k)),
            Err(e) => Err(e),
        }
    }

    fn write(&self, out: &mut Vec<u8>) {
        write_u64(self.to_packed() as u64, out);
    }

    fn read(buf: &[u8], pos: usize) -> (r: Result<(BlockPos, usize), DecodeError>) {
        match read_u64(buf, pos) {
            Ok((v, end)) => {
                proof {
                    lemma_pack_unpack(v as i64);
                }
                Ok((BlockPos::from_packed(v as i64), end))
            },
            Err(e) => Err(e),
        }
    }

    proof fn lemma_read_len(s: Seq<u8>) {
    }

    proof fn lemma_roundtrip(m: i64, rest: Seq<u8>) {
        lemma_be_u64(m as u64, rest);
        assert((m as u64) as i64 == m) by (bit_vector);
    }
}

} // verus!
