//! The registries that the 1.21.1 Configuration burst streams, in order.
//!
//! A 1.21.1 vanilla client requires all of them before it leaves the
//! Configuration state (sending only some leaves it waiting). Each one's
//! `RegistryData.data` is a `VarInt` entry count, then per entry the key
//! (a string), `true` (value present) and the value as anonymous NBT; those
//! blobs were captured from a vanilla 1.21.1 server and are supplied by the
//! caller.

use vstd::prelude::*;

use crate::server::bursts::ascii_string;

verus! {

/// The registry ids, in the order they are sent.
pub open spec fn spec_registry_ids() -> Seq<Seq<char>> {
    seq![
        "minecraft:dimension_type"@,
        "minecraft:worldgen/biome"@,
        "minecraft:chat_type"@,
        "minecraft:damage_type"@,
        "minecraft:trim_pattern"@,
        "minecraft:trim_material"@,
        "minecraft:wolf_variant"@,
        "minecraft:painting_variant"@,
        "minecraft:banner_pattern"@,
        "minecraft:enchantment"@,
        "minecraft:jukebox_song"@,
    ]
}

/// The ids of the registries sent during Configuration, in order.
pub fn all() -> (r: Vec<String>)
    ensures
        r@.len() == spec_registry_ids().len(),
        forall|i: int| 0 <= i < r@.len() ==> #[trigger] r@[i]@ == spec_registry_ids()[i],
        forall|i: int| 0 <= i < r@.len() ==> crate::server::connection::fits(#[trigger] r@[i]@),
{
    proof {
        reveal_strlit("minecraft:dimension_type");
        reveal_strlit("minecraft:worldgen/biome");
        reveal_strlit("minecraft:chat_type");
        reveal_strlit("minecraft:damage_type");
        reveal_strlit("minecraft:trim_pattern");
        reveal_strlit("minecraft:trim_material");
        reveal_strlit("minecraft:wolf_variant");
        reveal_strlit("minecraft:painting_variant");
        reveal_strlit("minecraft:banner_pattern");
        reveal_strlit("minecraft:enchantment");
        reveal_strlit("minecraft:jukebox_song");
    }
    let mut v: Vec<String> = Vec::new();
    v.push(ascii_string("minecraft:dimension_type"));
    v.push(ascii_string("minecraft:worldgen/biome"));
    v.push(ascii_string("minecraft:chat_type"));
    v.push(ascii_string("minecraft:damage_type"));
    v.push(ascii_string("minecraft:trim_pattern"));
    v.push(ascii_string("minecraft:trim_material"));
    v.push(ascii_string("minecraft:wolf_variant"));
    v.push(ascii_string("minecraft:painting_variant"));
    v.push(ascii_string("minecraft:banner_pattern"));
    v.push(ascii_string("minecraft:enchantment"));
    v.push(ascii_string("minecraft:jukebox_song"));
    v
}

} // verus!
