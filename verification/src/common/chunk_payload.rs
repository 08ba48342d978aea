//! The body of `S2CLevelChunkWithLight` for one empty air chunk at (0, 0).
//!
//! After the packet id: x and z (`i32` BE, both 0); the heightmaps NBT; the
//! chunk data buffer (a `VarInt` byte count, then 24 all-air sections, the
//! overworld's y range -64..320, with no leading section count); a `VarInt`
//! 0 block-entity count; then the light data: four empty masks (one
//! `VarInt(0)` byte each) and two empty light-update arrays (`VarInt(0)`).
//!
//! Only the heightmaps NBT differs between versions. 1.20.1 writes a named
//! root compound (`0x0A`, then a `u16` BE zero-length root name); 1.21.1
//! writes it anonymously (`0x0A` directly followed by the fields).

use vstd::prelude::*;
use vstd::string::StringSliceAdditionalSpecFns;

use crate::containers::append_bytes;
use crate::primitives::{be_u16_bytes, be_u32_bytes, write_u16, write_u32};
use crate::varint::{lemma_varint_encode_one_byte, spec_varint_encode, write_varint};

verus! {

/// `n` zero bytes.
pub open spec fn zeros(n: nat) -> Seq<u8> {
    Seq::new(n, |i: int| 0u8)
}

/// An NBT string: its `u16` BE byte length, then its bytes.
pub open spec fn nbt_string(name: Seq<u8>) -> Seq<u8> {
    be_u16_bytes(name.len() as u16) + name
}

/// A `TAG_Long_Array` (`0x0C`) field named `name` holding 256 zero longs:
/// the tag byte, the name, the `i32` BE length 256 (NBT array lengths are
/// `i32`, not `VarInt`), then 256 * 8 zero bytes.
pub open spec fn zero_long_array_field(name: Seq<u8>) -> Seq<u8> {
    seq![0x0cu8] + nbt_string(name) + be_u32_bytes(256) + zeros(2048)
}

/// The bytes of the name `MOTION_BLOCKING`.
pub open spec fn motion_blocking() -> Seq<u8> {
    "MOTION_BLOCKING".spec_bytes()
}

/// The bytes of the name `WORLD_SURFACE`.
pub open spec fn world_surface() -> Seq<u8> {
    "WORLD_SURFACE".spec_bytes()
}

/// The fields of the heightmaps compound, `MOTION_BLOCKING` then
/// `WORLD_SURFACE`, each 256 zero longs, then `TAG_End` (`0x00`).
pub open spec fn heightmap_fields() -> Seq<u8> {
    zero_long_array_field(motion_blocking()) + zero_long_array_field(world_surface()) + seq![
        0x00u8,
    ]
}

/// The 1.20.1 heightmaps: `TAG_Compound` (`0x0A`), a `u16` BE zero-length
/// root name, then the fields.
pub open spec fn spec_heightmaps_v1_20_1() -> Seq<u8> {
    seq![0x0au8] + be_u16_bytes(0) + heightmap_fields()
}

/// The 1.21.1 heightmaps: `TAG_Compound` (`0x0A`) directly followed by the
/// fields, with no root name.
pub open spec fn spec_heightmaps_v1_21_1() -> Seq<u8> {
    seq![0x0au8] + heightmap_fields()
}

/// A paletted container holding one value: bits per entry as a byte (0),
/// the value id as a `VarInt` (0: air, or the default biome), and the
/// `VarInt` length (0) of the packed array.
pub open spec fn spec_single_value_palette() -> Seq<u8> {
    seq![0u8] + spec_varint_encode(0) + spec_varint_encode(0)
}

/// An all-air section: block count 0 (`i16` BE), the block-state palette,
/// then the biome palette.
pub open spec fn spec_section() -> Seq<u8> {
    be_u16_bytes(0) + spec_single_value_palette() + spec_single_value_palette()
}

/// `n` all-air sections back to back.
pub open spec fn spec_sections(n: nat) -> Seq<u8>
    decreases n,
{
    if n == 0 {
        Seq::empty()
    } else {
        spec_sections((n - 1) as nat) + spec_section()
    }
}

/// The number of sections of the overworld (y = -64..320, 16 blocks each).
pub const NUM_SECTIONS: u32 = 24;

/// The chunk data buffer: the sections of the overworld.
pub open spec fn spec_chunk_data() -> Seq<u8> {
    spec_sections(NUM_SECTIONS as nat)
}

/// The whole body for the given heightmaps NBT.
pub open spec fn spec_chunk_payload(heightmaps: Seq<u8>) -> Seq<u8> {
    zeros(8) + heightmaps + spec_varint_encode(spec_chunk_data().len() as i32)
        + spec_chunk_data() + spec_varint_encode(0) + zeros(4) + spec_varint_encode(0)
        + spec_varint_encode(0)
}

/// Each section is 8 bytes, so the chunk data is 192.
pub proof fn lemma_chunk_data_len()
    ensures
        spec_section().len() == 8,
        spec_chunk_data().len() == 192,
        spec_chunk_data() == zeros(192),
{
    reveal_with_fuel(spec_sections, 25);
    lemma_varint_encode_one_byte(0);
    assert((0u16 >> 8u16) as u8 == 0u8) by (bit_vector);
    assert(be_u16_bytes(0) =~= zeros(2));
    assert(spec_single_value_palette() =~= zeros(3));
    assert(spec_section() =~= zeros(8));
    assert forall|n: nat| n <= 24 implies #[trigger] spec_sections(n) == zeros(8 * n) by {
        lemma_sections_zero(n);
    }
    assert(spec_chunk_data() == zeros(8 * 24));
}

proof fn lemma_sections_zero(n: nat)
    requires
        spec_section() == zeros(8),
    ensures
        spec_sections(n) == zeros(8 * n),
    decreases n,
{
    if n > 0 {
        lemma_sections_zero((n - 1) as nat);
        assert(spec_sections(n) =~= zeros(8 * n));
    } else {
        assert(spec_sections(0) =~= zeros(0));
    }
}

/// Appends `n` zero bytes.
fn push_zeros(buf: &mut Vec<u8>, n: usize)
    ensures
        final(buf)@ == old(buf)@ + zeros(n as nat),
{
    let ghost start = buf@;
    let mut i: usize = 0;
    while i < n
        invariant
            i <= n,
            buf@ == start + zeros(i as nat),
        decreases n - i,
    {
        buf.push(0u8);
        i = i + 1;
        assert(buf@ =~= start + zeros(i as nat));
    }
}

/// Appends `s` as an NBT string: its `u16` BE byte length, then its bytes.
fn write_nbt_string(buf: &mut Vec<u8>, s: &str)
    requires
        s.spec_bytes().len() <= u16::MAX,
    ensures
        final(buf)@ == old(buf)@ + nbt_string(s.spec_bytes()),
{
    let ghost start = buf@;
    let bytes = s.as_bytes();
    write_u16(bytes.len() as u16, buf);
    append_bytes(buf, bytes);
    assert(buf@ =~= start + nbt_string(s.spec_bytes()));
}

/// Appends a `TAG_Long_Array` field of 256 zero longs named `name`.
fn write_zero_long_array(buf: &mut Vec<u8>, name: &str)
    requires
        name.spec_bytes().len() <= u16::MAX,
    ensures
        final(buf)@ == old(buf)@ + zero_long_array_field(name.spec_bytes()),
{
    let ghost start = buf@;
    buf.push(0x0c);
    write_nbt_string(buf, name);
    write_u32(256, buf);
    push_zeros(buf, 256 * 8);
    assert(buf@ =~= start + zero_long_array_field(name.spec_bytes()));
}

/// Appends the heightmap fields and the closing `TAG_End`.
fn write_heightmap_fields(buf: &mut Vec<u8>)
    ensures
        final(buf)@ == old(buf)@ + heightmap_fields(),
{
    let ghost start = buf@;
    proof {
        reveal_strlit("MOTION_BLOCKING");
        reveal_strlit("WORLD_SURFACE");
        vstd::string::is_ascii_spec_bytes("MOTION_BLOCKING");
        vstd::string::is_ascii_spec_bytes("WORLD_SURFACE");
    }
    write_zero_long_array(buf, "MOTION_BLOCKING");
    write_zero_long_array(buf, "WORLD_SURFACE");
    buf.push(0x00);
    assert(buf@ =~= start + heightmap_fields());
}

/// The 1.20.1 heightmaps NBT (named root compound).
fn heightmaps_nbt_v1_20_1() -> (r: Vec<u8>)
    ensures
        r@ == spec_heightmaps_v1_20_1(),
{
    let mut buf: Vec<u8> = Vec::new();
    buf.push(0x0a);
    write_u16(0, &mut buf);
    write_heightmap_fields(&mut buf);
    assert(buf@ =~= spec_heightmaps_v1_20_1());
    buf
}

/// The 1.21.1 heightmaps NBT (anonymous root compound).
fn heightmaps_nbt_v1_21_1() -> (r: Vec<u8>)
    ensures
        r@ == spec_heightmaps_v1_21_1(),
{
    let mut buf: Vec<u8> = Vec::new();
    buf.push(0x0a);
    write_heightmap_fields(&mut buf);
    assert(buf@ =~= spec_heightmaps_v1_21_1());
    buf
}

/// Appends a paletted container holding the single value 0.
fn write_single_value_palette(buf: &mut Vec<u8>)
    ensures
        final(buf)@ == old(buf)@ + spec_single_value_palette(),
{
    let ghost start = buf@;
    buf.push(0u8);
    write_varint(0, buf);
    write_varint(0, buf);
    assert(buf@ =~= start + spec_single_value_palette());
}

/// Appends one all-air section.
fn write_section(buf: &mut Vec<u8>)
    ensures
        final(buf)@ == old(buf)@ + spec_section(),
{
    let ghost start = buf@;
    write_u16(0, buf);
    write_single_value_palette(buf);
    write_single_value_palette(buf);
    assert(buf@ =~= start + spec_section());
}

/// The chunk data buffer: the sections back to back, with no count in
/// front (the client reads as many as the dimension has).
fn chunk_data_buffer() -> (r: Vec<u8>)
    ensures
        r@ == spec_chunk_data(),
{
    let mut buf: Vec<u8> = Vec::new();
    let mut i: u32 = 0;
    while i < NUM_SECTIONS
        invariant
            i <= NUM_SECTIONS,
            buf@ == spec_sections(i as nat),
        decreases NUM_SECTIONS - i,
    {
        write_section(&mut buf);
        i = i + 1;
    }
    buf
}

/// Appends everything after the packet id, around the given heightmaps.
fn append_common_chunk(buf: &mut Vec<u8>, heightmaps: &[u8])
    ensures
        final(buf)@ == old(buf)@ + spec_chunk_payload(heightmaps@),
{
    let ghost start = buf@;
    push_zeros(buf, 8);
    append_bytes(buf, heightmaps);
    let data_buf = chunk_data_buffer();
    proof {
        lemma_chunk_data_len();
    }
    write_varint(data_buf.len() as i32, buf);
    append_bytes(buf, data_buf.as_slice());
    write_varint(0, buf);
    push_zeros(buf, 4);
    write_varint(0, buf);
    write_varint(0, buf);
    assert(buf@ =~= start + spec_chunk_payload(heightmaps@));
}

/// Builds the 1.20.1 body.
fn build_v1_20_1() -> (r: Vec<u8>)
    ensures
        r@ == spec_chunk_payload(spec_heightmaps_v1_20_1()),
{
    let mut buf: Vec<u8> = Vec::new();
    let heightmaps = heightmaps_nbt_v1_20_1();
    append_common_chunk(&mut buf, heightmaps.as_slice());
    assert(buf@ =~= spec_chunk_payload(spec_heightmaps_v1_20_1()));
    buf
}

/// Builds the 1.21.1 body.
fn build_v1_21_1() -> (r: Vec<u8>)
    ensures
        r@ == spec_chunk_payload(spec_heightmaps_v1_21_1()),
{
    let mut buf: Vec<u8> = Vec::new();
    let heightmaps = heightmaps_nbt_v1_21_1();
    append_common_chunk(&mut buf, heightmaps.as_slice());
    assert(buf@ =~= spec_chunk_payload(spec_heightmaps_v1_21_1()));
    buf
}

/// The body of `S2CLevelChunkWithLight` (1.20.1) for one empty air chunk at
/// (0, 0), with the named heightmaps compound.
pub fn void_chunk_bytes_v1_20_1() -> (r: Vec<u8>)
    ensures
        r@ == spec_chunk_payload(spec_heightmaps_v1_20_1()),
{
    build_v1_20_1()
}

/// The body of `S2CLevelChunkWithLight` (1.21.1) for one empty air chunk at
/// (0, 0), with the anonymous heightmaps compound.
pub fn void_chunk_bytes_v1_21_1() -> (r: Vec<u8>)
    ensures
        r@ == spec_chunk_payload(spec_heightmaps_v1_21_1()),
{
    build_v1_21_1()
}

/// The two versions' bodies differ only in the heightmaps' root name: the
/// 1.20.1 body is the 1.21.1 body with the two bytes of the zero `u16`
/// root-name length inserted right after the compound tag byte (offset 9).
pub proof fn lemma_versions_differ_in_root_name()
    ensures
        spec_chunk_payload(spec_heightmaps_v1_20_1()) == spec_chunk_payload(
            spec_heightmaps_v1_21_1(),
        ).take(9) + seq![0u8, 0u8] + spec_chunk_payload(spec_heightmaps_v1_21_1()).skip(9),
{
    assert((0u16 >> 8u16) as u8 == 0u8) by (bit_vector);
    assert(be_u16_bytes(0) =~= seq![0u8, 0u8]);
    let tail = heightmap_fields() + spec_varint_encode(spec_chunk_data().len() as i32)
        + spec_chunk_data() + spec_varint_encode(0) + zeros(4) + spec_varint_encode(0)
        + spec_varint_encode(0);
    let p21 = spec_chunk_payload(spec_heightmaps_v1_21_1());
    assert(p21 =~= zeros(8) + seq![0x0au8] + tail);
    assert(p21.take(9) =~= zeros(8) + seq![0x0au8]);
    assert(p21.skip(9) =~= tail);
    assert(spec_chunk_payload(spec_heightmaps_v1_20_1()) =~= zeros(8) + seq![0x0au8] + seq![
        0u8,
        0u8,
    ] + tail);
}

/// The 1.21.1 heightmaps are the 1.20.1 ones without the root name: the
/// compound tag byte, then what follows the two root-name bytes.
pub proof fn lemma_heightmaps_without_root_name()
    ensures
        spec_heightmaps_v1_21_1() == spec_heightmaps_v1_20_1().take(1)
            + spec_heightmaps_v1_20_1().skip(3),
        spec_heightmaps_v1_20_1().subrange(1, 3) == seq![0u8, 0u8],
{
    assert((0u16 >> 8u16) as u8 == 0u8) by (bit_vector);
    assert(be_u16_bytes(0) =~= seq![0u8, 0u8]);
    let h = spec_heightmaps_v1_20_1();
    assert(h =~= seq![0x0au8, 0u8, 0u8] + heightmap_fields());
    assert(h.take(1) =~= seq![0x0au8]);
    assert(h.skip(3) =~= heightmap_fields());
    assert(h.subrange(1, 3) =~= seq![0u8, 0u8]);
    assert(spec_heightmaps_v1_21_1() =~= h.take(1) + h.skip(3));
}

} // verus!
