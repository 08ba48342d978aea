//! Types shared across protocol versions: game-profile properties, known
//! packs, tag groups, the abilities bit flags, and the empty-chunk payloads.

pub mod abilities;
pub mod chunk_payload;
pub mod response;

pub use chunk_payload::{void_chunk_bytes_v1_20_1, void_chunk_bytes_v1_21_1};

use vstd::prelude::*;

use crate::codec::Wire;
use crate::containers::lemma_write_step;
use crate::error::DecodeError;
use crate::varint::VarInt;

verus! {

/// One property entry on a game profile (Login Success `properties`).
///
/// Identical on the wire in 1.20.1 and 1.21.1. `signature` is `None` for
/// unsigned properties.
#[derive(Debug, Clone, PartialEq)]
pub struct Property {
    pub name: String,
    pub value: String,
    pub signature: Option<String>,
}

/// The fields of [`Property`], in order.
impl Wire for Property {
    type Model = <(String, (String, (Option<String>, ()))) as Wire>::Model;

    open spec fn model(&self) -> Self::Model {
        (self.name.model(), (self.value.model(), (self.signature.model(), ())))
    }

    open spec fn encodable(m: Self::Model) -> bool {
        <(String, (String, (Option<String>, ()))) as Wire>::encodable(m)
    }

    open spec fn greedy() -> bool {
        <(String, (String, (Option<String>, ()))) as Wire>::greedy()
    }

    open spec fn decodable() -> bool {
        <(String, (String, (Option<String>, ()))) as Wire>::decodable()
    }

    closed spec fn spec_write(m: Self::Model) -> Seq<u8> {
        <(String, (String, (Option<String>, ()))) as Wire>::spec_write(m)
    }

    closed spec fn spec_read(s: Seq<u8>) -> Result<(Self::Model, nat), DecodeError> {
        <(String, (String, (Option<String>, ()))) as Wire>::spec_read(s)
    }

    fn write(&self, out: &mut Vec<u8>) {
        let ghost o0 = out@;
        self.name.write(out);
        proof { lemma_write_step::<String, (String, (Option<String>, ()))>(o0, out@, self.name.model(), (self.value.model(), (self.signature.model(), ()))); }
        let ghost o1 = out@;
        self.value.write(out);
        proof { lemma_write_step::<String, (Option<String>, ())>(o1, out@, self.value.model(), (self.signature.model(), ())); }
        let ghost o2 = out@;
        self.signature.write(out);
        proof { lemma_write_step::<Option<String>, ()>(o2, out@, self.signature.model(), ()); }
        let ghost o3 = out@;
        assert(o3 + Seq::<u8>::empty() =~= o3);
    }

    fn read(buf: &[u8], pos: usize) -> (r: Result<(Property, usize), DecodeError>) {
        match <(String, (String, (Option<String>, ()))) as Wire>::read(buf, pos) {
            Ok(((name, (value, (signature, ()))), end)) => Ok((Property { name, value, signature }, end)),
            Err(e) => Err(e),
        }
    }

    proof fn lemma_read_len(s: Seq<u8>) {
        <(String, (String, (Option<String>, ()))) as Wire>::lemma_read_len(s);
    }

    proof fn lemma_roundtrip(m: Self::Model, rest: Seq<u8>) {
        <(String, (String, (Option<String>, ()))) as Wire>::lemma_roundtrip(m, rest);
    }
}

/// A `KnownPack` entry, exchanged during the 1.21.1 Configuration state
/// (`Known Packs` S2C 0x0E / `Select Known Packs` C2S 0x07): three strings.
#[derive(Debug, Clone, PartialEq)]
pub struct KnownPack {
    pub namespace: String,
    pub id: String,
    pub version: String,
}

/// The fields of [`KnownPack`], in order.
impl Wire for KnownPack {
    type Model = <(String, (String, (String, ()))) as Wire>::Model;

    open spec fn model(&self) -> Self::Model {
        (self.namespace.model(), (self.id.model(), (self.version.model(), ())))
    }

    open spec fn encodable(m: Self::Model) -> bool {
        <(String, (String, (String, ()))) as Wire>::encodable(m)
    }

    open spec fn greedy() -> bool {
        <(String, (String, (String, ()))) as Wire>::greedy()
    }

    open spec fn decodable() -> bool {
        <(String, (String, (String, ()))) as Wire>::decodable()
    }

    closed spec fn spec_write(m: Self::Model) -> Seq<u8> {
        <(String, (String, (String, ()))) as Wire>::spec_write(m)
    }

    closed spec fn spec_read(s: Seq<u8>) -> Result<(Self::Model, nat), DecodeError> {
        <(String, (String, (String, ()))) as Wire>::spec_read(s)
    }

    fn write(&self, out: &mut Vec<u8>) {
        let ghost o0 = out@;
        self.namespace.write(out);
        proof { lemma_write_step::<String, (String, (String, ()))>(o0, out@, self.namespace.model(), (self.id.model(), (self.version.model(), ()))); }
        let ghost o1 = out@;
        self.id.write(out);
        proof { lemma_write_step::<String, (String, ())>(o1, out@, self.id.model(), (self.version.model(), ())); }
        let ghost o2 = out@;
        self.version.write(out);
        proof { lemma_write_step::<String, ()>(o2, out@, self.version.model(), ()); }
        let ghost o3 = out@;
        assert(o3 + Seq::<u8>::empty() =~= o3);
    }

    fn read(buf: &[u8], pos: usize) -> (r: Result<(KnownPack, usize), DecodeError>) {
        match <(String, (String, (String, ()))) as Wire>::read(buf, pos) {
            Ok(((namespace, (id, (version, ()))), end)) => Ok((KnownPack { namespace, id, version }, end)),
            Err(e) => Err(e),
        }
    }

    proof fn lemma_read_len(s: Seq<u8>) {
        <(String, (String, (String, ()))) as Wire>::lemma_read_len(s);
    }

    proof fn lemma_roundtrip(m: Self::Model, rest: Seq<u8>) {
        <(String, (String, (String, ()))) as Wire>::lemma_roundtrip(m, rest);
    }
}

/// One tag registry group (e.g. `"minecraft:block"`) in the Configuration
/// `Update Tags` packet: the registry id, then a `VarInt`-counted list of tags.
#[derive(Debug, Clone, PartialEq)]
pub struct TagGroup {
    pub tag_type: String,
    pub tags: Vec<Tag>,
}

/// The fields of [`TagGroup`], in order.
impl Wire for TagGroup {
    type Model = <(String, (Vec<Tag>, ())) as Wire>::Model;

    open spec fn model(&self) -> Self::Model {
        (self.tag_type.model(), (self.tags.model(), ()))
    }

    open spec fn encodable(m: Self::Model) -> bool {
        <(String, (Vec<Tag>, ())) as Wire>::encodable(m)
    }

    open spec fn greedy() -> bool {
        <(String, (Vec<Tag>, ())) as Wire>::greedy()
    }

    open spec fn decodable() -> bool {
        <(String, (Vec<Tag>, ())) as Wire>::decodable()
    }

    closed spec fn spec_write(m: Self::Model) -> Seq<u8> {
        <(String, (Vec<Tag>, ())) as Wire>::spec_write(m)
    }

    closed spec fn spec_read(s: Seq<u8>) -> Result<(Self::Model, nat), DecodeError> {
        <(String, (Vec<Tag>, ())) as Wire>::spec_read(s)
    }

    fn write(&self, out: &mut Vec<u8>) {
        let ghost o0 = out@;
        self.tag_type.write(out);
        proof { lemma_write_step::<String, (Vec<Tag>, ())>(o0, out@, self.tag_type.model(), (self.tags.model(), ())); }
        let ghost o1 = out@;
        self.tags.write(out);
        proof { lemma_write_step::<Vec<Tag>, ()>(o1, out@, self.tags.model(), ()); }
        let ghost o2 = out@;
        assert(o2 + Seq::<u8>::empty() =~= o2);
    }

    fn read(buf: &[u8], pos: usize) -> (r: Result<(TagGroup, usize), DecodeError>) {
        match <(String, (Vec<Tag>, ())) as Wire>::read(buf, pos) {
            Ok(((tag_type, (tags, ())), end)) => Ok((TagGroup { tag_type, tags }, end)),
            Err(e) => Err(e),
        }
    }

    proof fn lemma_read_len(s: Seq<u8>) {
        <(String, (Vec<Tag>, ())) as Wire>::lemma_read_len(s);
    }

    proof fn lemma_roundtrip(m: Self::Model, rest: Seq<u8>) {
        <(String, (Vec<Tag>, ())) as Wire>::lemma_roundtrip(m, rest);
    }
}

/// One named tag: a list of registry-local entry ids.
#[derive(Debug, Clone, PartialEq)]
pub struct Tag {
    pub name: String,
    pub entries: Vec<VarInt>,
}

/// The fields of [`Tag`], in order.
impl Wire for Tag {
    type Model = <(String, (Vec<VarInt>, ())) as Wire>::Model;

    open spec fn model(&self) -> Self::Model {
        (self.name.model(), (self.entries.model(), ()))
    }

    open spec fn encodable(m: Self::Model) -> bool {
        <(String, (Vec<VarInt>, ())) as Wire>::encodable(m)
    }

    open spec fn greedy() -> bool {
        <(String, (Vec<VarInt>, ())) as Wire>::greedy()
    }

    open spec fn decodable() -> bool {
        <(String, (Vec<VarInt>, ())) as Wire>::decodable()
    }

    closed spec fn spec_write(m: Self::Model) -> Seq<u8> {
        <(String, (Vec<VarInt>, ())) as Wire>::spec_write(m)
    }

    closed spec fn spec_read(s: Seq<u8>) -> Result<(Self::Model, nat), DecodeError> {
        <(String, (Vec<VarInt>, ())) as Wire>::spec_read(s)
    }

    fn write(&self, out: &mut Vec<u8>) {
        let ghost o0 = out@;
        self.name.write(out);
        proof { lemma_write_step::<String, (Vec<VarInt>, ())>(o0, out@, self.name.model(), (self.entries.model(), ())); }
        let ghost o1 = out@;
        self.entries.write(out);
        proof { lemma_write_step::<Vec<VarInt>, ()>(o1, out@, self.entries.model(), ()); }
        let ghost o2 = out@;
        assert(o2 + Seq::<u8>::empty() =~= o2);
    }

    fn read(buf: &[u8], pos: usize) -> (r: Result<(Tag, usize), DecodeError>) {
        match <(String, (Vec<VarInt>, ())) as Wire>::read(buf, pos) {
            Ok(((name, (entries, ())), end)) => Ok((Tag { name, entries }, end)),
            Err(e) => Err(e),
        }
    }

    proof fn lemma_read_len(s: Seq<u8>) {
        <(String, (Vec<VarInt>, ())) as Wire>::lemma_read_len(s);
    }

    proof fn lemma_roundtrip(m: Self::Model, rest: Seq<u8>) {
        <(String, (Vec<VarInt>, ())) as Wire>::lemma_roundtrip(m, rest);
    }
}

} // verus!
