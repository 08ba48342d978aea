//! Server-to-client packets of the Configuration state (1.21.1): brand,
//! feature flags, registry data, tags, known packs and the finish signal.

use vstd::prelude::*;

use crate::codec::Wire;
use crate::containers::lemma_write_step;
use crate::error::DecodeError;
use crate::common::KnownPack;
use crate::common::TagGroup;
use crate::containers::RawBytes;
use crate::packet::Chat;
use crate::packet::Packet;
use crate::state::State;
use crate::varint::VarInt;

verus! {

/// 0x01 - Custom Payload (plugin message, e.g. the server brand).
#[derive(Debug, Clone, PartialEq)]
pub struct S2CCustomPayload {
    pub channel: String,
    pub data: RawBytes,
}

/// The fields of [`S2CCustomPayload`], in order.
impl Wire for S2CCustomPayload {
    type Model = <(String, (RawBytes, ())) as Wire>::Model;

    open spec fn model(&self) -> Self::Model {
        (self.channel.model(), (self.data.model(), ()))
    }

    open spec fn encodable(m: Self::Model) -> bool {
        <(String, (RawBytes, ())) as Wire>::encodable(m)
    }

    open spec fn greedy() -> bool {
        <(String, (RawBytes, ())) as Wire>::greedy()
    }

    open spec fn decodable() -> bool {
        <(String, (RawBytes, ())) as Wire>::decodable()
    }

    closed spec fn spec_write(m: Self::Model) -> Seq<u8> {
        <(String, (RawBytes, ())) as Wire>::spec_write(m)
    }

    closed spec fn spec_read(s: Seq<u8>) -> Result<(Self::Model, nat), DecodeError> {
        <(String, (RawBytes, ())) as Wire>::spec_read(s)
    }

    fn write(&self, out: &mut Vec<u8>) {
        let ghost o0 = out@;
        self.channel.write(out);
        proof { lemma_write_step::<String, (RawBytes, ())>(o0, out@, self.channel.model(), (self.data.model(), ())); }
        let ghost o1 = out@;
        self.data.write(out);
        proof { lemma_write_step::<RawBytes, ()>(o1, out@, self.data.model(), ()); }
        let ghost o2 = out@;
        assert(o2 + Seq::<u8>::empty() =~= o2);
    }

    fn read(buf: &[u8], pos: usize) -> (r: Result<(S2CCustomPayload, usize), DecodeError>) {
        match <(String, (RawBytes, ())) as Wire>::read(buf, pos) {
            Ok(((channel, (data, ())), end)) => Ok((S2CCustomPayload { channel, data }, end)),
            Err(e) => Err(e),
        }
    }

    proof fn lemma_read_len(s: Seq<u8>) {
        <(String, (RawBytes, ())) as Wire>::lemma_read_len(s);
    }

    proof fn lemma_roundtrip(m: Self::Model, rest: Seq<u8>) {
        <(String, (RawBytes, ())) as Wire>::lemma_roundtrip(m, rest);
    }
}

impl Packet for S2CCustomPayload {
    open spec fn spec_id() -> i32 {
        0x01
    }

    open spec fn spec_state() -> State {
        State::Configuration
    }

    fn id(&self) -> (r: VarInt) {
        VarInt(0x01)
    }

    fn state(&self) -> (r: State) {
        State::Configuration
    }
}

/// 0x02 - Disconnect (Configuration).
#[derive(Debug, Clone, PartialEq)]
pub struct S2CDisconnectConfiguration {
    pub reason: Chat,
}

/// The fields of [`S2CDisconnectConfiguration`], in order.
impl Wire for S2CDisconnectConfiguration {
    type Model = <(Chat, ()) as Wire>::Model;

    open spec fn model(&self) -> Self::Model {
        (self.reason.model(), ())
    }

    open spec fn encodable(m: Self::Model) -> bool {
        <(Chat, ()) as Wire>::encodable(m)
    }

    open spec fn greedy() -> bool {
        <(Chat, ()) as Wire>::greedy()
    }

    open spec fn decodable() -> bool {
        <(Chat, ()) as Wire>::decodable()
    }

    closed spec fn spec_write(m: Self::Model) -> Seq<u8> {
        <(Chat, ()) as Wire>::spec_write(m)
    }

    closed spec fn spec_read(s: Seq<u8>) -> Result<(Self::Model, nat), DecodeError> {
        <(Chat, ()) as Wire>::spec_read(s)
    }

    fn write(&self, out: &mut Vec<u8>) {
        let ghost o0 = out@;
        self.reason.write(out);
        proof { lemma_write_step::<Chat, ()>(o0, out@, self.reason.model(), ()); }
        let ghost o1 = out@;
        assert(o1 + Seq::<u8>::empty() =~= o1);
    }

    fn read(buf: &[u8], pos: usize) -> (r: Result<(S2CDisconnectConfiguration, usize), DecodeError>) {
        match <(Chat, ()) as Wire>::read(buf, pos) {
            Ok(((reason, ()), end)) => Ok((S2CDisconnectConfiguration { reason }, end)),
            Err(e) => Err(e),
        }
    }

    proof fn lemma_read_len(s: Seq<u8>) {
        <(Chat, ()) as Wire>::lemma_read_len(s);
    }

    proof fn lemma_roundtrip(m: Self::Model, rest: Seq<u8>) {
        <(Chat, ()) as Wire>::lemma_roundtrip(m, rest);
    }
}

impl Packet for S2CDisconnectConfiguration {
    open spec fn spec_id() -> i32 {
        0x02
    }

    open spec fn spec_state() -> State {
        State::Configuration
    }

    fn id(&self) -> (r: VarInt) {
        VarInt(0x02)
    }

    fn state(&self) -> (r: State) {
        State::Configuration
    }
}

/// 0x03 - Finish Configuration; no fields. Moves the client to Play.
#[derive(Debug, Clone, PartialEq)]
pub struct S2CFinishConfiguration {}

/// The fields of [`S2CFinishConfiguration`], in order.
impl Wire for S2CFinishConfiguration {
    type Model = <() as Wire>::Model;

    open spec fn model(&self) -> Self::Model {
        ()
    }

    open spec fn encodable(m: Self::Model) -> bool {
        <() as Wire>::encodable(m)
    }

    open spec fn greedy() -> bool {
        <() as Wire>::greedy()
    }

    open spec fn decodable() -> bool {
        <() as Wire>::decodable()
    }

    closed spec fn spec_write(m: Self::Model) -> Seq<u8> {
        <() as Wire>::spec_write(m)
    }

    closed spec fn spec_read(s: Seq<u8>) -> Result<(Self::Model, nat), DecodeError> {
        <() as Wire>::spec_read(s)
    }

    fn write(&self, out: &mut Vec<u8>) {
        let ghost o0 = out@;

        assert(o0 + Seq::<u8>::empty() =~= o0);
    }

    fn read(buf: &[u8], pos: usize) -> (r: Result<(S2CFinishConfiguration, usize), DecodeError>) {
        match <() as Wire>::read(buf, pos) {
            Ok(((), end)) => Ok((S2CFinishConfiguration {}, end)),
            Err(e) => Err(e),
        }
    }

    proof fn lemma_read_len(s: Seq<u8>) {
        <() as Wire>::lemma_read_len(s);
    }

    proof fn lemma_roundtrip(m: Self::Model, rest: Seq<u8>) {
        <() as Wire>::lemma_roundtrip(m, rest);
    }
}

impl Packet for S2CFinishConfiguration {
    open spec fn spec_id() -> i32 {
        0x03
    }

    open spec fn spec_state() -> State {
        State::Configuration
    }

    fn id(&self) -> (r: VarInt) {
        VarInt(0x03)
    }

    fn state(&self) -> (r: State) {
        State::Configuration
    }
}

/// 0x04 - Keep Alive (Configuration); the id is an `i64`.
#[derive(Debug, Clone, PartialEq)]
pub struct S2CConfigurationKeepAlive {
    pub keep_alive_id: i64,
}

/// The fields of [`S2CConfigurationKeepAlive`], in order.
impl Wire for S2CConfigurationKeepAlive {
    type Model = <(i64, ()) as Wire>::Model;

    open spec fn model(&self) -> Self::Model {
        (self.keep_alive_id.model(), ())
    }

    open spec fn encodable(m: Self::Model) -> bool {
        <(i64, ()) as Wire>::encodable(m)
    }

    open spec fn greedy() -> bool {
        <(i64, ()) as Wire>::greedy()
    }

    open spec fn decodable() -> bool {
        <(i64, ()) as Wire>::decodable()
    }

    closed spec fn spec_write(m: Self::Model) -> Seq<u8> {
        <(i64, ()) as Wire>::spec_write(m)
    }

    closed spec fn spec_read(s: Seq<u8>) -> Result<(Self::Model, nat), DecodeError> {
        <(i64, ()) as Wire>::spec_read(s)
    }

    fn write(&self, out: &mut Vec<u8>) {
        let ghost o0 = out@;
        self.keep_alive_id.write(out);
        proof { lemma_write_step::<i64, ()>(o0, out@, self.keep_alive_id.model(), ()); }
        let ghost o1 = out@;
        assert(o1 + Seq::<u8>::empty() =~= o1);
    }

    fn read(buf: &[u8], pos: usize) -> (r: Result<(S2CConfigurationKeepAlive, usize), DecodeError>) {
        match <(i64, ()) as Wire>::read(buf, pos) {
            Ok(((keep_alive_id, ()), end)) => Ok((S2CConfigurationKeepAlive { keep_alive_id }, end)),
            Err(e) => Err(e),
        }
    }

    proof fn lemma_read_len(s: Seq<u8>) {
        <(i64, ()) as Wire>::lemma_read_len(s);
    }

    proof fn lemma_roundtrip(m: Self::Model, rest: Seq<u8>) {
        <(i64, ()) as Wire>::lemma_roundtrip(m, rest);
    }
}

impl Packet for S2CConfigurationKeepAlive {
    open spec fn spec_id() -> i32 {
        0x04
    }

    open spec fn spec_state() -> State {
        State::Configuration
    }

    fn id(&self) -> (r: VarInt) {
        VarInt(0x04)
    }

    fn state(&self) -> (r: State) {
        State::Configuration
    }
}

/// 0x05 - Ping (Configuration).
#[derive(Debug, Clone, PartialEq)]
pub struct S2CPingConfiguration {
    pub id: i32,
}

/// The fields of [`S2CPingConfiguration`], in order.
impl Wire for S2CPingConfiguration {
    type Model = <(i32, ()) as Wire>::Model;

    open spec fn model(&self) -> Self::Model {
        (self.id.model(), ())
    }

    open spec fn encodable(m: Self::Model) -> bool {
        <(i32, ()) as Wire>::encodable(m)
    }

    open spec fn greedy() -> bool {
        <(i32, ()) as Wire>::greedy()
    }

    open spec fn decodable() -> bool {
        <(i32, ()) as Wire>::decodable()
    }

    closed spec fn spec_write(m: Self::Model) -> Seq<u8> {
        <(i32, ()) as Wire>::spec_write(m)
    }

    closed spec fn spec_read(s: Seq<u8>) -> Result<(Self::Model, nat), DecodeError> {
        <(i32, ()) as Wire>::spec_read(s)
    }

    fn write(&self, out: &mut Vec<u8>) {
        let ghost o0 = out@;
        self.id.write(out);
        proof { lemma_write_step::<i32, ()>(o0, out@, self.id.model(), ()); }
        let ghost o1 = out@;
        assert(o1 + Seq::<u8>::empty() =~= o1);
    }

    fn read(buf: &[u8], pos: usize) -> (r: Result<(S2CPingConfiguration, usize), DecodeError>) {
        match <(i32, ()) as Wire>::read(buf, pos) {
            Ok(((id, ()), end)) => Ok((S2CPingConfiguration { id }, end)),
            Err(e) => Err(e),
        }
    }

    proof fn lemma_read_len(s: Seq<u8>) {
        <(i32, ()) as Wire>::lemma_read_len(s);
    }

    proof fn lemma_roundtrip(m: Self::Model, rest: Seq<u8>) {
        <(i32, ()) as Wire>::lemma_roundtrip(m, rest);
    }
}

impl Packet for S2CPingConfiguration {
    open spec fn spec_id() -> i32 {
        0x05
    }

    open spec fn spec_state() -> State {
        State::Configuration
    }

    fn id(&self) -> (r: VarInt) {
        VarInt(0x05)
    }

    fn state(&self) -> (r: State) {
        State::Configuration
    }
}

/// 0x07 - Registry Data: the registry id, then the precomputed entry list
/// (a `VarInt` count and the entries) as raw bytes.
#[derive(Debug, Clone, PartialEq)]
pub struct S2CRegistryData {
    pub registry_id: String,
    pub data: RawBytes,
}

/// The fields of [`S2CRegistryData`], in order.
impl Wire for S2CRegistryData {
    type Model = <(String, (RawBytes, ())) as Wire>::Model;

    open spec fn model(&self) -> Self::Model {
        (self.registry_id.model(), (self.data.model(), ()))
    }

    open spec fn encodable(m: Self::Model) -> bool {
        <(String, (RawBytes, ())) as Wire>::encodable(m)
    }

    open spec fn greedy() -> bool {
        <(String, (RawBytes, ())) as Wire>::greedy()
    }

    open spec fn decodable() -> bool {
        <(String, (RawBytes, ())) as Wire>::decodable()
    }

    closed spec fn spec_write(m: Self::Model) -> Seq<u8> {
        <(String, (RawBytes, ())) as Wire>::spec_write(m)
    }

    closed spec fn spec_read(s: Seq<u8>) -> Result<(Self::Model, nat), DecodeError> {
        <(String, (RawBytes, ())) as Wire>::spec_read(s)
    }

    fn write(&self, out: &mut Vec<u8>) {
        let ghost o0 = out@;
        self.registry_id.write(out);
        proof { lemma_write_step::<String, (RawBytes, ())>(o0, out@, self.registry_id.model(), (self.data.model(), ())); }
        let ghost o1 = out@;
        self.data.write(out);
        proof { lemma_write_step::<RawBytes, ()>(o1, out@, self.data.model(), ()); }
        let ghost o2 = out@;
        assert(o2 + Seq::<u8>::empty() =~= o2);
    }

    fn read(buf: &[u8], pos: usize) -> (r: Result<(S2CRegistryData, usize), DecodeError>) {
        match <(String, (RawBytes, ())) as Wire>::read(buf, pos) {
            Ok(((registry_id, (data, ())), end)) => Ok((S2CRegistryData { registry_id, data }, end)),
            Err(e) => Err(e),
        }
    }

    proof fn lemma_read_len(s: Seq<u8>) {
        <(String, (RawBytes, ())) as Wire>::lemma_read_len(s);
    }

    proof fn lemma_roundtrip(m: Self::Model, rest: Seq<u8>) {
        <(String, (RawBytes, ())) as Wire>::lemma_roundtrip(m, rest);
    }
}

impl Packet for S2CRegistryData {
    open spec fn spec_id() -> i32 {
        0x07
    }

    open spec fn spec_state() -> State {
        State::Configuration
    }

    fn id(&self) -> (r: VarInt) {
        VarInt(0x07)
    }

    fn state(&self) -> (r: State) {
        State::Configuration
    }
}

/// 0x0C - Feature Flags: the enabled feature flag ids.
#[derive(Debug, Clone, PartialEq)]
pub struct S2CFeatureFlags {
    pub features: Vec<String>,
}

/// The fields of [`S2CFeatureFlags`], in order.
impl Wire for S2CFeatureFlags {
    type Model = <(Vec<String>, ()) as Wire>::Model;

    open spec fn model(&self) -> Self::Model {
        (self.features.model(), ())
    }

    open spec fn encodable(m: Self::Model) -> bool {
        <(Vec<String>, ()) as Wire>::encodable(m)
    }

    open spec fn greedy() -> bool {
        <(Vec<String>, ()) as Wire>::greedy()
    }

    open spec fn decodable() -> bool {
        <(Vec<String>, ()) as Wire>::decodable()
    }

    closed spec fn spec_write(m: Self::Model) -> Seq<u8> {
        <(Vec<String>, ()) as Wire>::spec_write(m)
    }

    closed spec fn spec_read(s: Seq<u8>) -> Result<(Self::Model, nat), DecodeError> {
        <(Vec<String>, ()) as Wire>::spec_read(s)
    }

    fn write(&self, out: &mut Vec<u8>) {
        let ghost o0 = out@;
        self.features.write(out);
        proof { lemma_write_step::<Vec<String>, ()>(o0, out@, self.features.model(), ()); }
        let ghost o1 = out@;
        assert(o1 + Seq::<u8>::empty() =~= o1);
    }

    fn read(buf: &[u8], pos: usize) -> (r: Result<(S2CFeatureFlags, usize), DecodeError>) {
        match <(Vec<String>, ()) as Wire>::read(buf, pos) {
            Ok(((features, ()), end)) => Ok((S2CFeatureFlags { features }, end)),
            Err(e) => Err(e),
        }
    }

    proof fn lemma_read_len(s: Seq<u8>) {
        <(Vec<String>, ()) as Wire>::lemma_read_len(s);
    }

    proof fn lemma_roundtrip(m: Self::Model, rest: Seq<u8>) {
        <(Vec<String>, ()) as Wire>::lemma_roundtrip(m, rest);
    }
}

impl Packet for S2CFeatureFlags {
    open spec fn spec_id() -> i32 {
        0x0C
    }

    open spec fn spec_state() -> State {
        State::Configuration
    }

    fn id(&self) -> (r: VarInt) {
        VarInt(0x0C)
    }

    fn state(&self) -> (r: State) {
        State::Configuration
    }
}

/// 0x0D - Update Tags: one group per tagged registry.
#[derive(Debug, Clone, PartialEq)]
pub struct S2CUpdateTags {
    pub tags: Vec<TagGroup>,
}

/// The fields of [`S2CUpdateTags`], in order.
impl Wire for S2CUpdateTags {
    type Model = <(Vec<TagGroup>, ()) as Wire>::Model;

    open spec fn model(&self) -> Self::Model {
        (self.tags.model(), ())
    }

    open spec fn encodable(m: Self::Model) -> bool {
        <(Vec<TagGroup>, ()) as Wire>::encodable(m)
    }

    open spec fn greedy() -> bool {
        <(Vec<TagGroup>, ()) as Wire>::greedy()
    }

    open spec fn decodable() -> bool {
        <(Vec<TagGroup>, ()) as Wire>::decodable()
    }

    closed spec fn spec_write(m: Self::Model) -> Seq<u8> {
        <(Vec<TagGroup>, ()) as Wire>::spec_write(m)
    }

    closed spec fn spec_read(s: Seq<u8>) -> Result<(Self::Model, nat), DecodeError> {
        <(Vec<TagGroup>, ()) as Wire>::spec_read(s)
    }

    fn write(&self, out: &mut Vec<u8>) {
        let ghost o0 = out@;
        self.tags.write(out);
        proof { lemma_write_step::<Vec<TagGroup>, ()>(o0, out@, self.tags.model(), ()); }
        let ghost o1 = out@;
        assert(o1 + Seq::<u8>::empty() =~= o1);
    }

    fn read(buf: &[u8], pos: usize) -> (r: Result<(S2CUpdateTags, usize), DecodeError>) {
        match <(Vec<TagGroup>, ()) as Wire>::read(buf, pos) {
            Ok(((tags, ()), end)) => Ok((S2CUpdateTags { tags }, end)),
            Err(e) => Err(e),
        }
    }

    proof fn lemma_read_len(s: Seq<u8>) {
        <(Vec<TagGroup>, ()) as Wire>::lemma_read_len(s);
    }

    proof fn lemma_roundtrip(m: Self::Model, rest: Seq<u8>) {
        <(Vec<TagGroup>, ()) as Wire>::lemma_roundtrip(m, rest);
    }
}

impl Packet for S2CUpdateTags {
    open spec fn spec_id() -> i32 {
        0x0D
    }

    open spec fn spec_state() -> State {
        State::Configuration
    }

    fn id(&self) -> (r: VarInt) {
        VarInt(0x0D)
    }

    fn state(&self) -> (r: State) {
        State::Configuration
    }
}

/// 0x0E - Known Packs: the datapacks the server has.
#[derive(Debug, Clone, PartialEq)]
pub struct S2CKnownPacks {
    pub packs: Vec<KnownPack>,
}

/// The fields of [`S2CKnownPacks`], in order.
impl Wire for S2CKnownPacks {
    type Model = <(Vec<KnownPack>, ()) as Wire>::Model;

    open spec fn model(&self) -> Self::Model {
        (self.packs.model(), ())
    }

    open spec fn encodable(m: Self::Model) -> bool {
        <(Vec<KnownPack>, ()) as Wire>::encodable(m)
    }

    open spec fn greedy() -> bool {
        <(Vec<KnownPack>, ()) as Wire>::greedy()
    }

    open spec fn decodable() -> bool {
        <(Vec<KnownPack>, ()) as Wire>::decodable()
    }

    closed spec fn spec_write(m: Self::Model) -> Seq<u8> {
        <(Vec<KnownPack>, ()) as Wire>::spec_write(m)
    }

    closed spec fn spec_read(s: Seq<u8>) -> Result<(Self::Model, nat), DecodeError> {
        <(Vec<KnownPack>, ()) as Wire>::spec_read(s)
    }

    fn write(&self, out: &mut Vec<u8>) {
        let ghost o0 = out@;
        self.packs.write(out);
        proof { lemma_write_step::<Vec<KnownPack>, ()>(o0, out@, self.packs.model(), ()); }
        let ghost o1 = out@;
        assert(o1 + Seq::<u8>::empty() =~= o1);
    }

    fn read(buf: &[u8], pos: usize) -> (r: Result<(S2CKnownPacks, usize), DecodeError>) {
        match <(Vec<KnownPack>, ()) as Wire>::read(buf, pos) {
            Ok(((packs, ()), end)) => Ok((S2CKnownPacks { packs }, end)),
            Err(e) => Err(e),
        }
    }

    proof fn lemma_read_len(s: Seq<u8>) {
        <(Vec<KnownPack>, ()) as Wire>::lemma_read_len(s);
    }

    proof fn lemma_roundtrip(m: Self::Model, rest: Seq<u8>) {
        <(Vec<KnownPack>, ()) as Wire>::lemma_roundtrip(m, rest);
    }
}

impl Packet for S2CKnownPacks {
    open spec fn spec_id() -> i32 {
        0x0E
    }

    open spec fn spec_state() -> State {
        State::Configuration
    }

    fn id(&self) -> (r: VarInt) {
        VarInt(0x0E)
    }

    fn state(&self) -> (r: State) {
        State::Configuration
    }
}

} // verus!
