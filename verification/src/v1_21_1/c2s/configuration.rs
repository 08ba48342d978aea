//! Client-to-server packets of the Configuration state (1.21.1), the state
//! between `LoginSuccess` and Play.

use vstd::prelude::*;

use crate::codec::Wire;
use crate::containers::lemma_write_step;
use crate::error::DecodeError;
use crate::common::KnownPack;
use crate::containers::RawBytes;
use crate::packet::Packet;
use crate::state::State;
use crate::varint::VarInt;

verus! {

/// 0x00 - Client Information (client settings).
#[derive(Debug, Clone, PartialEq)]
pub struct C2SClientInformation {
    pub locale: String,
    pub view_distance: i8,
    pub chat_mode: VarInt,
    pub chat_colors: bool,
    pub skin_parts: u8,
    pub main_hand: VarInt,
    pub text_filtering_enabled: bool,
    pub allows_listing: bool,
}

/// The fields of [`C2SClientInformation`], in order.
impl Wire for C2SClientInformation {
    type Model = <(String, (i8, (VarInt, (bool, (u8, (VarInt, (bool, (bool, ())))))))) as Wire>::Model;

    open spec fn model(&self) -> Self::Model {
        (self.locale.model(), (self.view_distance.model(), (self.chat_mode.model(), (self.chat_colors.model(), (self.skin_parts.model(), (self.main_hand.model(), (self.text_filtering_enabled.model(), (self.allows_listing.model(), ()))))))))
    }

    open spec fn encodable(m: Self::Model) -> bool {
        <(String, (i8, (VarInt, (bool, (u8, (VarInt, (bool, (bool, ())))))))) as Wire>::encodable(m)
    }

    open spec fn greedy() -> bool {
        <(String, (i8, (VarInt, (bool, (u8, (VarInt, (bool, (bool, ())))))))) as Wire>::greedy()
    }

    open spec fn decodable() -> bool {
        <(String, (i8, (VarInt, (bool, (u8, (VarInt, (bool, (bool, ())))))))) as Wire>::decodable()
    }

    closed spec fn spec_write(m: Self::Model) -> Seq<u8> {
        <(String, (i8, (VarInt, (bool, (u8, (VarInt, (bool, (bool, ())))))))) as Wire>::spec_write(m)
    }

    closed spec fn spec_read(s: Seq<u8>) -> Result<(Self::Model, nat), DecodeError> {
        <(String, (i8, (VarInt, (bool, (u8, (VarInt, (bool, (bool, ())))))))) as Wire>::spec_read(s)
    }

    fn write(&self, out: &mut Vec<u8>) {
        let ghost o0 = out@;
        self.locale.write(out);
        proof { lemma_write_step::<String, (i8, (VarInt, (bool, (u8, (VarInt, (bool, (bool, ())))))))>(o0, out@, self.locale.model(), (self.view_distance.model(), (self.chat_mode.model(), (self.chat_colors.model(), (self.skin_parts.model(), (self.main_hand.model(), (self.text_filtering_enabled.model(), (self.allows_listing.model(), ())))))))); }
        let ghost o1 = out@;
        self.view_distance.write(out);
        proof { lemma_write_step::<i8, (VarInt, (bool, (u8, (VarInt, (bool, (bool, ()))))))>(o1, out@, self.view_distance.model(), (self.chat_mode.model(), (self.chat_colors.model(), (self.skin_parts.model(), (self.main_hand.model(), (self.text_filtering_enabled.model(), (self.allows_listing.model(), ()))))))); }
        let ghost o2 = out@;
        self.chat_mode.write(out);
        proof { lemma_write_step::<VarInt, (bool, (u8, (VarInt, (bool, (bool, ())))))>(o2, out@, self.chat_mode.model(), (self.chat_colors.model(), (self.skin_parts.model(), (self.main_hand.model(), (self.text_filtering_enabled.model(), (self.allows_listing.model(), ())))))); }
        let ghost o3 = out@;
        self.chat_colors.write(out);
        proof { lemma_write_step::<bool, (u8, (VarInt, (bool, (bool, ()))))>(o3, out@, self.chat_colors.model(), (self.skin_parts.model(), (self.main_hand.model(), (self.text_filtering_enabled.model(), (self.allows_listing.model(), ()))))); }
        let ghost o4 = out@;
        self.skin_parts.write(out);
        proof { lemma_write_step::<u8, (VarInt, (bool, (bool, ())))>(o4, out@, self.skin_parts.model(), (self.main_hand.model(), (self.text_filtering_enabled.model(), (self.allows_listing.model(), ())))); }
        let ghost o5 = out@;
        self.main_hand.write(out);
        proof { lemma_write_step::<VarInt, (bool, (bool, ()))>(o5, out@, self.main_hand.model(), (self.text_filtering_enabled.model(), (self.allows_listing.model(), ()))); }
        let ghost o6 = out@;
        self.text_filtering_enabled.write(out);
        proof { lemma_write_step::<bool, (bool, ())>(o6, out@, self.text_filtering_enabled.model(), (self.allows_listing.model(), ())); }
        let ghost o7 = out@;
        self.allows_listing.write(out);
        proof { lemma_write_step::<bool, ()>(o7, out@, self.allows_listing.model(), ()); }
        let ghost o8 = out@;
        assert(o8 + Seq::<u8>::empty() =~= o8);
    }

    fn read(buf: &[u8], pos: usize) -> (r: Result<(C2SClientInformation, usize), DecodeError>) {
        match <(String, (i8, (VarInt, (bool, (u8, (VarInt, (bool, (bool, ())))))))) as Wire>::read(buf, pos) {
            Ok(((locale, (view_distance, (chat_mode, (chat_colors, (skin_parts, (main_hand, (text_filtering_enabled, (allows_listing, ())))))))), end)) => Ok((C2SClientInformation { locale, view_distance, chat_mode, chat_colors, skin_parts, main_hand, text_filtering_enabled, allows_listing }, end)),
            Err(e) => Err(e),
        }
    }

    proof fn lemma_read_len(s: Seq<u8>) {
        <(String, (i8, (VarInt, (bool, (u8, (VarInt, (bool, (bool, ())))))))) as Wire>::lemma_read_len(s);
    }

    proof fn lemma_roundtrip(m: Self::Model, rest: Seq<u8>) {
        <(String, (i8, (VarInt, (bool, (u8, (VarInt, (bool, (bool, ())))))))) as Wire>::lemma_roundtrip(m, rest);
    }
}

impl Packet for C2SClientInformation {
    open spec fn spec_id() -> i32 {
        0x00
    }

    open spec fn spec_state() -> State {
        State::Configuration
    }

    fn id(&self) -> (r: VarInt) {
        VarInt(0x00)
    }

    fn state(&self) -> (r: State) {
        State::Configuration
    }
}

/// 0x01 - Cookie Response (Configuration).
#[derive(Debug, Clone, PartialEq)]
pub struct C2SCookieResponse {
    pub key: String,
    pub payload: Option<RawBytes>,
}

/// The fields of [`C2SCookieResponse`], in order.
impl Wire for C2SCookieResponse {
    type Model = <(String, (Option<RawBytes>, ())) as Wire>::Model;

    open spec fn model(&self) -> Self::Model {
        (self.key.model(), (self.payload.model(), ()))
    }

    open spec fn encodable(m: Self::Model) -> bool {
        <(String, (Option<RawBytes>, ())) as Wire>::encodable(m)
    }

    open spec fn greedy() -> bool {
        <(String, (Option<RawBytes>, ())) as Wire>::greedy()
    }

    open spec fn decodable() -> bool {
        <(String, (Option<RawBytes>, ())) as Wire>::decodable()
    }

    closed spec fn spec_write(m: Self::Model) -> Seq<u8> {
        <(String, (Option<RawBytes>, ())) as Wire>::spec_write(m)
    }

    closed spec fn spec_read(s: Seq<u8>) -> Result<(Self::Model, nat), DecodeError> {
        <(String, (Option<RawBytes>, ())) as Wire>::spec_read(s)
    }

    fn write(&self, out: &mut Vec<u8>) {
        let ghost o0 = out@;
        self.key.write(out);
        proof { lemma_write_step::<String, (Option<RawBytes>, ())>(o0, out@, self.key.model(), (self.payload.model(), ())); }
        let ghost o1 = out@;
        self.payload.write(out);
        proof { lemma_write_step::<Option<RawBytes>, ()>(o1, out@, self.payload.model(), ()); }
        let ghost o2 = out@;
        assert(o2 + Seq::<u8>::empty() =~= o2);
    }

    fn read(buf: &[u8], pos: usize) -> (r: Result<(C2SCookieResponse, usize), DecodeError>) {
        match <(String, (Option<RawBytes>, ())) as Wire>::read(buf, pos) {
            Ok(((key, (payload, ())), end)) => Ok((C2SCookieResponse { key, payload }, end)),
            Err(e) => Err(e),
        }
    }

    proof fn lemma_read_len(s: Seq<u8>) {
        <(String, (Option<RawBytes>, ())) as Wire>::lemma_read_len(s);
    }

    proof fn lemma_roundtrip(m: Self::Model, rest: Seq<u8>) {
        <(String, (Option<RawBytes>, ())) as Wire>::lemma_roundtrip(m, rest);
    }
}

impl Packet for C2SCookieResponse {
    open spec fn spec_id() -> i32 {
        0x01
    }

    open spec fn spec_state() -> State {
        State::Configuration
    }

    fn id(&self) -> (r: VarInt) {
        VarInt(0x01)
    }

    fn state(&self) -> (r: State) {
        State::Configuration
    }
}

/// 0x02 - Custom Payload (plugin message, e.g. `minecraft:brand`).
#[derive(Debug, Clone, PartialEq)]
pub struct C2SConfigurationCustomPayload {
    pub channel: String,
    pub data: RawBytes,
}

/// The fields of [`C2SConfigurationCustomPayload`], in order.
impl Wire for C2SConfigurationCustomPayload {
    type Model = <(String, (RawBytes, ())) as Wire>::Model;

    open spec fn model(&self) -> Self::Model {
        (self.channel.model(), (self.data.model(), ()))
    }

    open spec fn encodable(m: Self::Model) -> bool {
        <(String, (RawBytes, ())) as Wire>::encodable(m)
    }

    open spec fn greedy() -> bool {
        <(String, (RawBytes, ())) as Wire>::greedy()
    }

    open spec fn decodable() -> bool {
        <(String, (RawBytes, ())) as Wire>::decodable()
    }

    closed spec fn spec_write(m: Self::Model) -> Seq<u8> {
        <(String, (RawBytes, ())) as Wire>::spec_write(m)
    }

    closed spec fn spec_read(s: Seq<u8>) -> Result<(Self::Model, nat), DecodeError> {
        <(String, (RawBytes, ())) as Wire>::spec_read(s)
    }

    fn write(&self, out: &mut Vec<u8>) {
        let ghost o0 = out@;
        self.channel.write(out);
        proof { lemma_write_step::<String, (RawBytes, ())>(o0, out@, self.channel.model(), (self.data.model(), ())); }
        let ghost o1 = out@;
        self.data.write(out);
        proof { lemma_write_step::<RawBytes, ()>(o1, out@, self.data.model(), ()); }
        let ghost o2 = out@;
        assert(o2 + Seq::<u8>::empty() =~= o2);
    }

    fn read(buf: &[u8], pos: usize) -> (r: Result<(C2SConfigurationCustomPayload, usize), DecodeError>) {
        match <(String, (RawBytes, ())) as Wire>::read(buf, pos) {
            Ok(((channel, (data, ())), end)) => Ok((C2SConfigurationCustomPayload { channel, data }, end)),
            Err(e) => Err(e),
        }
    }

    proof fn lemma_read_len(s: Seq<u8>) {
        <(String, (RawBytes, ())) as Wire>::lemma_read_len(s);
    }

    proof fn lemma_roundtrip(m: Self::Model, rest: Seq<u8>) {
        <(String, (RawBytes, ())) as Wire>::lemma_roundtrip(m, rest);
    }
}

impl Packet for C2SConfigurationCustomPayload {
    open spec fn spec_id() -> i32 {
        0x02
    }

    open spec fn spec_state() -> State {
        State::Configuration
    }

    fn id(&self) -> (r: VarInt) {
        VarInt(0x02)
    }

    fn state(&self) -> (r: State) {
        State::Configuration
    }
}

/// 0x03 - Finish Configuration; no fields. The server answers with its own
/// Finish Configuration and moves to Play.
#[derive(Debug, Clone, PartialEq)]
pub struct C2SFinishConfiguration {}

/// The fields of [`C2SFinishConfiguration`], in order.
impl Wire for C2SFinishConfiguration {
    type Model = <() as Wire>::Model;

    open spec fn model(&self) -> Self::Model {
        ()
    }

    open spec fn encodable(m: Self::Model) -> bool {
        <() as Wire>::encodable(m)
    }

    open spec fn greedy() -> bool {
        <() as Wire>::greedy()
    }

    open spec fn decodable() -> bool {
        <() as Wire>::decodable()
    }

    closed spec fn spec_write(m: Self::Model) -> Seq<u8> {
        <() as Wire>::spec_write(m)
    }

    closed spec fn spec_read(s: Seq<u8>) -> Result<(Self::Model, nat), DecodeError> {
        <() as Wire>::spec_read(s)
    }

    fn write(&self, out: &mut Vec<u8>) {
        let ghost o0 = out@;

        assert(o0 + Seq::<u8>::empty() =~= o0);
    }

    fn read(buf: &[u8], pos: usize) -> (r: Result<(C2SFinishConfiguration, usize), DecodeError>) {
        match <() as Wire>::read(buf, pos) {
            Ok(((), end)) => Ok((C2SFinishConfiguration {}, end)),
            Err(e) => Err(e),
        }
    }

    proof fn lemma_read_len(s: Seq<u8>) {
        <() as Wire>::lemma_read_len(s);
    }

    proof fn lemma_roundtrip(m: Self::Model, rest: Seq<u8>) {
        <() as Wire>::lemma_roundtrip(m, rest);
    }
}

impl Packet for C2SFinishConfiguration {
    open spec fn spec_id() -> i32 {
        0x03
    }

    open spec fn spec_state() -> State {
        State::Configuration
    }

    fn id(&self) -> (r: VarInt) {
        VarInt(0x03)
    }

    fn state(&self) -> (r: State) {
        State::Configuration
    }
}

/// 0x04 - Keep Alive (Configuration); `id` is an `i64`, not a `VarInt`.
#[derive(Debug, Clone, PartialEq)]
pub struct C2SConfigurationKeepAlive {
    pub id: i64,
}

/// The fields of [`C2SConfigurationKeepAlive`], in order.
impl Wire for C2SConfigurationKeepAlive {
    type Model = <(i64, ()) as Wire>::Model;

    open spec fn model(&self) -> Self::Model {
        (self.id.model(), ())
    }

    open spec fn encodable(m: Self::Model) -> bool {
        <(i64, ()) as Wire>::encodable(m)
    }

    open spec fn greedy() -> bool {
        <(i64, ()) as Wire>::greedy()
    }

    open spec fn decodable() -> bool {
        <(i64, ()) as Wire>::decodable()
    }

    closed spec fn spec_write(m: Self::Model) -> Seq<u8> {
        <(i64, ()) as Wire>::spec_write(m)
    }

    closed spec fn spec_read(s: Seq<u8>) -> Result<(Self::Model, nat), DecodeError> {
        <(i64, ()) as Wire>::spec_read(s)
    }

    fn write(&self, out: &mut Vec<u8>) {
        let ghost o0 = out@;
        self.id.write(out);
        proof { lemma_write_step::<i64, ()>(o0, out@, self.id.model(), ()); }
        let ghost o1 = out@;
        assert(o1 + Seq::<u8>::empty() =~= o1);
    }

    fn read(buf: &[u8], pos: usize) -> (r: Result<(C2SConfigurationKeepAlive, usize), DecodeError>) {
        match <(i64, ()) as Wire>::read(buf, pos) {
            Ok(((id, ()), end)) => Ok((C2SConfigurationKeepAlive { id }, end)),
            Err(e) => Err(e),
        }
    }

    proof fn lemma_read_len(s: Seq<u8>) {
        <(i64, ()) as Wire>::lemma_read_len(s);
    }

    proof fn lemma_roundtrip(m: Self::Model, rest: Seq<u8>) {
        <(i64, ()) as Wire>::lemma_roundtrip(m, rest);
    }
}

impl Packet for C2SConfigurationKeepAlive {
    open spec fn spec_id() -> i32 {
        0x04
    }

    open spec fn spec_state() -> State {
        State::Configuration
    }

    fn id(&self) -> (r: VarInt) {
        VarInt(0x04)
    }

    fn state(&self) -> (r: State) {
        State::Configuration
    }
}

/// 0x05 - Pong (Configuration).
#[derive(Debug, Clone, PartialEq)]
pub struct C2SPongConfiguration {
    pub id: i32,
}

/// The fields of [`C2SPongConfiguration`], in order.
impl Wire for C2SPongConfiguration {
    type Model = <(i32, ()) as Wire>::Model;

    open spec fn model(&self) -> Self::Model {
        (self.id.model(), ())
    }

    open spec fn encodable(m: Self::Model) -> bool {
        <(i32, ()) as Wire>::encodable(m)
    }

    open spec fn greedy() -> bool {
        <(i32, ()) as Wire>::greedy()
    }

    open spec fn decodable() -> bool {
        <(i32, ()) as Wire>::decodable()
    }

    closed spec fn spec_write(m: Self::Model) -> Seq<u8> {
        <(i32, ()) as Wire>::spec_write(m)
    }

    closed spec fn spec_read(s: Seq<u8>) -> Result<(Self::Model, nat), DecodeError> {
        <(i32, ()) as Wire>::spec_read(s)
    }

    fn write(&self, out: &mut Vec<u8>) {
        let ghost o0 = out@;
        self.id.write(out);
        proof { lemma_write_step::<i32, ()>(o0, out@, self.id.model(), ()); }
        let ghost o1 = out@;
        assert(o1 + Seq::<u8>::empty() =~= o1);
    }

    fn read(buf: &[u8], pos: usize) -> (r: Result<(C2SPongConfiguration, usize), DecodeError>) {
        match <(i32, ()) as Wire>::read(buf, pos) {
            Ok(((id, ()), end)) => Ok((C2SPongConfiguration { id }, end)),
            Err(e) => Err(e),
        }
    }

    proof fn lemma_read_len(s: Seq<u8>) {
        <(i32, ()) as Wire>::lemma_read_len(s);
    }

    proof fn lemma_roundtrip(m: Self::Model, rest: Seq<u8>) {
        <(i32, ()) as Wire>::lemma_roundtrip(m, rest);
    }
}

impl Packet for C2SPongConfiguration {
    open spec fn spec_id() -> i32 {
        0x05
    }

    open spec fn spec_state() -> State {
        State::Configuration
    }

    fn id(&self) -> (r: VarInt) {
        VarInt(0x05)
    }

    fn state(&self) -> (r: State) {
        State::Configuration
    }
}

/// 0x06 - Resource Pack Response: the pack's UUID (its 128 bits), then the
/// result code.
#[derive(Debug, Clone, PartialEq)]
pub struct C2SResourcePackResponse {
    pub uuid: u128,
    pub result: VarInt,
}

/// The fields of [`C2SResourcePackResponse`], in order.
impl Wire for C2SResourcePackResponse {
    type Model = <(u128, (VarInt, ())) as Wire>::Model;

    open spec fn model(&self) -> Self::Model {
        (self.uuid.model(), (self.result.model(), ()))
    }

    open spec fn encodable(m: Self::Model) -> bool {
        <(u128, (VarInt, ())) as Wire>::encodable(m)
    }

    open spec fn greedy() -> bool {
        <(u128, (VarInt, ())) as Wire>::greedy()
    }

    open spec fn decodable() -> bool {
        <(u128, (VarInt, ())) as Wire>::decodable()
    }

    closed spec fn spec_write(m: Self::Model) -> Seq<u8> {
        <(u128, (VarInt, ())) as Wire>::spec_write(m)
    }

    closed spec fn spec_read(s: Seq<u8>) -> Result<(Self::Model, nat), DecodeError> {
        <(u128, (VarInt, ())) as Wire>::spec_read(s)
    }

    fn write(&self, out: &mut Vec<u8>) {
        let ghost o0 = out@;
        self.uuid.write(out);
        proof { lemma_write_step::<u128, (VarInt, ())>(o0, out@, self.uuid.model(), (self.result.model(), ())); }
        let ghost o1 = out@;
        self.result.write(out);
        proof { lemma_write_step::<VarInt, ()>(o1, out@, self.result.model(), ()); }
        let ghost o2 = out@;
        assert(o2 + Seq::<u8>::empty() =~= o2);
    }

    fn read(buf: &[u8], pos: usize) -> (r: Result<(C2SResourcePackResponse, usize), DecodeError>) {
        match <(u128, (VarInt, ())) as Wire>::read(buf, pos) {
            Ok(((uuid, (result, ())), end)) => Ok((C2SResourcePackResponse { uuid, result }, end)),
            Err(e) => Err(e),
        }
    }

    proof fn lemma_read_len(s: Seq<u8>) {
        <(u128, (VarInt, ())) as Wire>::lemma_read_len(s);
    }

    proof fn lemma_roundtrip(m: Self::Model, rest: Seq<u8>) {
        <(u128, (VarInt, ())) as Wire>::lemma_roundtrip(m, rest);
    }
}

impl Packet for C2SResourcePackResponse {
    open spec fn spec_id() -> i32 {
        0x06
    }

    open spec fn spec_state() -> State {
        State::Configuration
    }

    fn id(&self) -> (r: VarInt) {
        VarInt(0x06)
    }

    fn state(&self) -> (r: State) {
        State::Configuration
    }
}

/// 0x07 - Select Known Packs.
#[derive(Debug, Clone, PartialEq)]
pub struct C2SSelectKnownPacks {
    pub known_packs: Vec<KnownPack>,
}

/// The fields of [`C2SSelectKnownPacks`], in order.
impl Wire for C2SSelectKnownPacks {
    type Model = <(Vec<KnownPack>, ()) as Wire>::Model;

    open spec fn model(&self) -> Self::Model {
        (self.known_packs.model(), ())
    }

    open spec fn encodable(m: Self::Model) -> bool {
        <(Vec<KnownPack>, ()) as Wire>::encodable(m)
    }

    open spec fn greedy() -> bool {
        <(Vec<KnownPack>, ()) as Wire>::greedy()
    }

    open spec fn decodable() -> bool {
        <(Vec<KnownPack>, ()) as Wire>::decodable()
    }

    closed spec fn spec_write(m: Self::Model) -> Seq<u8> {
        <(Vec<KnownPack>, ()) as Wire>::spec_write(m)
    }

    closed spec fn spec_read(s: Seq<u8>) -> Result<(Self::Model, nat), DecodeError> {
        <(Vec<KnownPack>, ()) as Wire>::spec_read(s)
    }

    fn write(&self, out: &mut Vec<u8>) {
        let ghost o0 = out@;
        self.known_packs.write(out);
        proof { lemma_write_step::<Vec<KnownPack>, ()>(o0, out@, self.known_packs.model(), ()); }
        let ghost o1 = out@;
        assert(o1 + Seq::<u8>::empty() =~= o1);
    }

    fn read(buf: &[u8], pos: usize) -> (r: Result<(C2SSelectKnownPacks, usize), DecodeError>) {
        match <(Vec<KnownPack>, ()) as Wire>::read(buf, pos) {
            Ok(((known_packs, ()), end)) => Ok((C2SSelectKnownPacks { known_packs }, end)),
            Err(e) => Err(e),
        }
    }

    proof fn lemma_read_len(s: Seq<u8>) {
        <(Vec<KnownPack>, ()) as Wire>::lemma_read_len(s);
    }

    proof fn lemma_roundtrip(m: Self::Model, rest: Seq<u8>) {
        <(Vec<KnownPack>, ()) as Wire>::lemma_roundtrip(m, rest);
    }
}

impl Packet for C2SSelectKnownPacks {
    open spec fn spec_id() -> i32 {
        0x07
    }

    open spec fn spec_state() -> State {
        State::Configuration
    }

    fn id(&self) -> (r: VarInt) {
        VarInt(0x07)
    }

    fn state(&self) -> (r: State) {
        State::Configuration
    }
}

} // verus!
