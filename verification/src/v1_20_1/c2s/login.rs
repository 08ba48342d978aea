//! Client-to-server Login packets (1.20.1).

use vstd::prelude::*;

use crate::codec::Wire;
use crate::containers::lemma_write_step;
use crate::error::DecodeError;
use crate::containers::RawBytes;
use crate::packet::Packet;
use crate::state::State;
use crate::varint::VarInt;

verus! {

/// 0x00 - Login Start: the player name and, optionally, the profile UUID
/// (as its 128 bits).
#[derive(Debug, Clone, PartialEq)]
pub struct C2SLoginStart {
    pub username: String,
    pub uuid: Option<u128>,
}

/// The fields of [`C2SLoginStart`], in order.
impl Wire for C2SLoginStart {
    type Model = <(String, (Option<u128>, ())) as Wire>::Model;

    open spec fn model(&self) -> Self::Model {
        (self.username.model(), (self.uuid.model(), ()))
    }

    open spec fn encodable(m: Self::Model) -> bool {
        <(String, (Option<u128>, ())) as Wire>::encodable(m)
    }

    open spec fn greedy() -> bool {
        <(String, (Option<u128>, ())) as Wire>::greedy()
    }

    open spec fn decodable() -> bool {
        <(String, (Option<u128>, ())) as Wire>::decodable()
    }

    closed spec fn spec_write(m: Self::Model) -> Seq<u8> {
        <(String, (Option<u128>, ())) as Wire>::spec_write(m)
    }

    closed spec fn spec_read(s: Seq<u8>) -> Result<(Self::Model, nat), DecodeError> {
        <(String, (Option<u128>, ())) as Wire>::spec_read(s)
    }

    fn write(&self, out: &mut Vec<u8>) {
        let ghost o0 = out@;
        self.username.write(out);
        proof { lemma_write_step::<String, (Option<u128>, ())>(o0, out@, self.username.model(), (self.uuid.model(), ())); }
        let ghost o1 = out@;
        self.uuid.write(out);
        proof { lemma_write_step::<Option<u128>, ()>(o1, out@, self.uuid.model(), ()); }
        let ghost o2 = out@;
        assert(o2 + Seq::<u8>::empty() =~= o2);
    }

    fn read(buf: &[u8], pos: usize) -> (r: Result<(C2SLoginStart, usize), DecodeError>) {
        match <(String, (Option<u128>, ())) as Wire>::read(buf, pos) {
            Ok(((username, (uuid, ())), end)) => Ok((C2SLoginStart { username, uuid }, end)),
            Err(e) => Err(e),
        }
    }

    proof fn lemma_read_len(s: Seq<u8>) {
        <(String, (Option<u128>, ())) as Wire>::lemma_read_len(s);
    }

    proof fn lemma_roundtrip(m: Self::Model, rest: Seq<u8>) {
        <(String, (Option<u128>, ())) as Wire>::lemma_roundtrip(m, rest);
    }
}

impl Packet for C2SLoginStart {
    open spec fn spec_id() -> i32 {
        0x00
    }

    open spec fn spec_state() -> State {
        State::Login
    }

    fn id(&self) -> (r: VarInt) {
        VarInt(0x00)
    }

    fn state(&self) -> (r: State) {
        State::Login
    }
}

/// 0x01 - Encryption Response. This server never requests encryption, so
/// receiving it is a protocol violation.
#[derive(Debug, Clone, PartialEq)]
pub struct C2SEncryptionResponse {
    pub shared_secret: Vec<u8>,
    pub verify_token: Vec<u8>,
}

/// The fields of [`C2SEncryptionResponse`], in order.
impl Wire for C2SEncryptionResponse {
    type Model = <(Vec<u8>, (Vec<u8>, ())) as Wire>::Model;

    open spec fn model(&self) -> Self::Model {
        (self.shared_secret.model(), (self.verify_token.model(), ()))
    }

    open spec fn encodable(m: Self::Model) -> bool {
        <(Vec<u8>, (Vec<u8>, ())) as Wire>::encodable(m)
    }

    open spec fn greedy() -> bool {
        <(Vec<u8>, (Vec<u8>, ())) as Wire>::greedy()
    }

    open spec fn decodable() -> bool {
        <(Vec<u8>, (Vec<u8>, ())) as Wire>::decodable()
    }

    closed spec fn spec_write(m: Self::Model) -> Seq<u8> {
        <(Vec<u8>, (Vec<u8>, ())) as Wire>::spec_write(m)
    }

    closed spec fn spec_read(s: Seq<u8>) -> Result<(Self::Model, nat), DecodeError> {
        <(Vec<u8>, (Vec<u8>, ())) as Wire>::spec_read(s)
    }

    fn write(&self, out: &mut Vec<u8>) {
        let ghost o0 = out@;
        self.shared_secret.write(out);
        proof { lemma_write_step::<Vec<u8>, (Vec<u8>, ())>(o0, out@, self.shared_secret.model(), (self.verify_token.model(), ())); }
        let ghost o1 = out@;
        self.verify_token.write(out);
        proof { lemma_write_step::<Vec<u8>, ()>(o1, out@, self.verify_token.model(), ()); }
        let ghost o2 = out@;
        assert(o2 + Seq::<u8>::empty() =~= o2);
    }

    fn read(buf: &[u8], pos: usize) -> (r: Result<(C2SEncryptionResponse, usize), DecodeError>) {
        match <(Vec<u8>, (Vec<u8>, ())) as Wire>::read(buf, pos) {
            Ok(((shared_secret, (verify_token, ())), end)) => Ok((C2SEncryptionResponse { shared_secret, verify_token }, end)),
            Err(e) => Err(e),
        }
    }

    proof fn lemma_read_len(s: Seq<u8>) {
        <(Vec<u8>, (Vec<u8>, ())) as Wire>::lemma_read_len(s);
    }

    proof fn lemma_roundtrip(m: Self::Model, rest: Seq<u8>) {
        <(Vec<u8>, (Vec<u8>, ())) as Wire>::lemma_roundtrip(m, rest);
    }
}

impl Packet for C2SEncryptionResponse {
    open spec fn spec_id() -> i32 {
        0x01
    }

    open spec fn spec_state() -> State {
        State::Login
    }

    fn id(&self) -> (r: VarInt) {
        VarInt(0x01)
    }

    fn state(&self) -> (r: State) {
        State::Login
    }
}

/// 0x02 - Login Plugin Response. This server never sends a plugin request.
#[derive(Debug, Clone, PartialEq)]
pub struct C2SLoginPluginResponse {
    pub message_id: VarInt,
    pub data: Option<RawBytes>,
}

/// The fields of [`C2SLoginPluginResponse`], in order.
impl Wire for C2SLoginPluginResponse {
    type Model = <(VarInt, (Option<RawBytes>, ())) as Wire>::Model;

    open spec fn model(&self) -> Self::Model {
        (self.message_id.model(), (self.data.model(), ()))
    }

    open spec fn encodable(m: Self::Model) -> bool {
        <(VarInt, (Option<RawBytes>, ())) as Wire>::encodable(m)
    }

    open spec fn greedy() -> bool {
        <(VarInt, (Option<RawBytes>, ())) as Wire>::greedy()
    }

    open spec fn decodable() -> bool {
        <(VarInt, (Option<RawBytes>, ())) as Wire>::decodable()
    }

    closed spec fn spec_write(m: Self::Model) -> Seq<u8> {
        <(VarInt, (Option<RawBytes>, ())) as Wire>::spec_write(m)
    }

    closed spec fn spec_read(s: Seq<u8>) -> Result<(Self::Model, nat), DecodeError> {
        <(VarInt, (Option<RawBytes>, ())) as Wire>::spec_read(s)
    }

    fn write(&self, out: &mut Vec<u8>) {
        let ghost o0 = out@;
        self.message_id.write(out);
        proof { lemma_write_step::<VarInt, (Option<RawBytes>, ())>(o0, out@, self.message_id.model(), (self.data.model(), ())); }
        let ghost o1 = out@;
        self.data.write(out);
        proof { lemma_write_step::<Option<RawBytes>, ()>(o1, out@, self.data.model(), ()); }
        let ghost o2 = out@;
        assert(o2 + Seq::<u8>::empty() =~= o2);
    }

    fn read(buf: &[u8], pos: usize) -> (r: Result<(C2SLoginPluginResponse, usize), DecodeError>) {
        match <(VarInt, (Option<RawBytes>, ())) as Wire>::read(buf, pos) {
            Ok(((message_id, (data, ())), end)) => Ok((C2SLoginPluginResponse { message_id, data }, end)),
            Err(e) => Err(e),
        }
    }

    proof fn lemma_read_len(s: Seq<u8>) {
        <(VarInt, (Option<RawBytes>, ())) as Wire>::lemma_read_len(s);
    }

    proof fn lemma_roundtrip(m: Self::Model, rest: Seq<u8>) {
        <(VarInt, (Option<RawBytes>, ())) as Wire>::lemma_roundtrip(m, rest);
    }
}

impl Packet for C2SLoginPluginResponse {
    open spec fn spec_id() -> i32 {
        0x02
    }

    open spec fn spec_state() -> State {
        State::Login
    }

    fn id(&self) -> (r: VarInt) {
        VarInt(0x02)
    }

    fn state(&self) -> (r: State) {
        State::Login
    }
}

} // verus!
