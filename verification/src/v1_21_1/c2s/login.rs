//! Client-to-server Login packets (1.21.1, protocol 767).
//!
//! `Hello` carries a mandatory profile UUID; `Login Acknowledged` moves the
//! connection into Configuration.

use vstd::prelude::*;

use crate::codec::Wire;
use crate::containers::lemma_write_step;
use crate::error::DecodeError;
use crate::containers::RawBytes;
use crate::packet::Packet;
use crate::state::State;
use crate::varint::VarInt;

verus! {

/// 0x00 - Hello. `profile_id` is a mandatory UUID, held as its 128 bits.
#[derive(Debug, Clone, PartialEq)]
pub struct C2SHello {
    pub name: String,
    pub profile_id: u128,
}

/// The fields of [`C2SHello`], in order.
impl Wire for C2SHello {
    type Model = <(String, (u128, ())) as Wire>::Model;

    open spec fn model(&self) -> Self::Model {
        (self.name.model(), (self.profile_id.model(), ()))
    }

    open spec fn encodable(m: Self::Model) -> bool {
        <(String, (u128, ())) as Wire>::encodable(m)
    }

    open spec fn greedy() -> bool {
        <(String, (u128, ())) as Wire>::greedy()
    }

    open spec fn decodable() -> bool {
        <(String, (u128, ())) as Wire>::decodable()
    }

    closed spec fn spec_write(m: Self::Model) -> Seq<u8> {
        <(String, (u128, ())) as Wire>::spec_write(m)
    }

    closed spec fn spec_read(s: Seq<u8>) -> Result<(Self::Model, nat), DecodeError> {
        <(String, (u128, ())) as Wire>::spec_read(s)
    }

    fn write(&self, out: &mut Vec<u8>) {
        let ghost o0 = out@;
        self.name.write(out);
        proof { lemma_write_step::<String, (u128, ())>(o0, out@, self.name.model(), (self.profile_id.model(), ())); }
        let ghost o1 = out@;
        self.profile_id.write(out);
        proof { lemma_write_step::<u128, ()>(o1, out@, self.profile_id.model(), ()); }
        let ghost o2 = out@;
        assert(o2 + Seq::<u8>::empty() =~= o2);
    }

    fn read(buf: &[u8], pos: usize) -> (r: Result<(C2SHello, usize), DecodeError>) {
        match <(String, (u128, ())) as Wire>::read(buf, pos) {
            Ok(((name, (profile_id, ())), end)) => Ok((C2SHello { name, profile_id }, end)),
            Err(e) => Err(e),
        }
    }

    proof fn lemma_read_len(s: Seq<u8>) {
        <(String, (u128, ())) as Wire>::lemma_read_len(s);
    }

    proof fn lemma_roundtrip(m: Self::Model, rest: Seq<u8>) {
        <(String, (u128, ())) as Wire>::lemma_roundtrip(m, rest);
    }
}

impl Packet for C2SHello {
    open spec fn spec_id() -> i32 {
        0x00
    }

    open spec fn spec_state() -> State {
        State::Login
    }

    fn id(&self) -> (r: VarInt) {
        VarInt(0x00)
    }

    fn state(&self) -> (r: State) {
        State::Login
    }
}

/// 0x01 - Key (encryption response). This server never sends an
/// `EncryptionRequest`, so receiving this is a protocol violation.
#[derive(Debug, Clone, PartialEq)]
pub struct C2SKey {
    pub public_key: Vec<u8>,
    pub verify_token: Vec<u8>,
}

/// The fields of [`C2SKey`], in order.
impl Wire for C2SKey {
    type Model = <(Vec<u8>, (Vec<u8>, ())) as Wire>::Model;

    open spec fn model(&self) -> Self::Model {
        (self.public_key.model(), (self.verify_token.model(), ()))
    }

    open spec fn encodable(m: Self::Model) -> bool {
        <(Vec<u8>, (Vec<u8>, ())) as Wire>::encodable(m)
    }

    open spec fn greedy() -> bool {
        <(Vec<u8>, (Vec<u8>, ())) as Wire>::greedy()
    }

    open spec fn decodable() -> bool {
        <(Vec<u8>, (Vec<u8>, ())) as Wire>::decodable()
    }

    closed spec fn spec_write(m: Self::Model) -> Seq<u8> {
        <(Vec<u8>, (Vec<u8>, ())) as Wire>::spec_write(m)
    }

    closed spec fn spec_read(s: Seq<u8>) -> Result<(Self::Model, nat), DecodeError> {
        <(Vec<u8>, (Vec<u8>, ())) as Wire>::spec_read(s)
    }

    fn write(&self, out: &mut Vec<u8>) {
        let ghost o0 = out@;
        self.public_key.write(out);
        proof { lemma_write_step::<Vec<u8>, (Vec<u8>, ())>(o0, out@, self.public_key.model(), (self.verify_token.model(), ())); }
        let ghost o1 = out@;
        self.verify_token.write(out);
        proof { lemma_write_step::<Vec<u8>, ()>(o1, out@, self.verify_token.model(), ()); }
        let ghost o2 = out@;
        assert(o2 + Seq::<u8>::empty() =~= o2);
    }

    fn read(buf: &[u8], pos: usize) -> (r: Result<(C2SKey, usize), DecodeError>) {
        match <(Vec<u8>, (Vec<u8>, ())) as Wire>::read(buf, pos) {
            Ok(((public_key, (verify_token, ())), end)) => Ok((C2SKey { public_key, verify_token }, end)),
            Err(e) => Err(e),
        }
    }

    proof fn lemma_read_len(s: Seq<u8>) {
        <(Vec<u8>, (Vec<u8>, ())) as Wire>::lemma_read_len(s);
    }

    proof fn lemma_roundtrip(m: Self::Model, rest: Seq<u8>) {
        <(Vec<u8>, (Vec<u8>, ())) as Wire>::lemma_roundtrip(m, rest);
    }
}

impl Packet for C2SKey {
    open spec fn spec_id() -> i32 {
        0x01
    }

    open spec fn spec_state() -> State {
        State::Login
    }

    fn id(&self) -> (r: VarInt) {
        VarInt(0x01)
    }

    fn state(&self) -> (r: State) {
        State::Login
    }
}

/// 0x02 - Custom Query Answer (response to a `LoginPluginRequest`).
#[derive(Debug, Clone, PartialEq)]
pub struct C2SCustomQueryAnswer {
    pub transaction_id: VarInt,
    pub data: Option<RawBytes>,
}

/// The fields of [`C2SCustomQueryAnswer`], in order.
impl Wire for C2SCustomQueryAnswer {
    type Model = <(VarInt, (Option<RawBytes>, ())) as Wire>::Model;

    open spec fn model(&self) -> Self::Model {
        (self.transaction_id.model(), (self.data.model(), ()))
    }

    open spec fn encodable(m: Self::Model) -> bool {
        <(VarInt, (Option<RawBytes>, ())) as Wire>::encodable(m)
    }

    open spec fn greedy() -> bool {
        <(VarInt, (Option<RawBytes>, ())) as Wire>::greedy()
    }

    open spec fn decodable() -> bool {
        <(VarInt, (Option<RawBytes>, ())) as Wire>::decodable()
    }

    closed spec fn spec_write(m: Self::Model) -> Seq<u8> {
        <(VarInt, (Option<RawBytes>, ())) as Wire>::spec_write(m)
    }

    closed spec fn spec_read(s: Seq<u8>) -> Result<(Self::Model, nat), DecodeError> {
        <(VarInt, (Option<RawBytes>, ())) as Wire>::spec_read(s)
    }

    fn write(&self, out: &mut Vec<u8>) {
        let ghost o0 = out@;
        self.transaction_id.write(out);
        proof { lemma_write_step::<VarInt, (Option<RawBytes>, ())>(o0, out@, self.transaction_id.model(), (self.data.model(), ())); }
        let ghost o1 = out@;
        self.data.write(out);
        proof { lemma_write_step::<Option<RawBytes>, ()>(o1, out@, self.data.model(), ()); }
        let ghost o2 = out@;
        assert(o2 + Seq::<u8>::empty() =~= o2);
    }

    fn read(buf: &[u8], pos: usize) -> (r: Result<(C2SCustomQueryAnswer, usize), DecodeError>) {
        match <(VarInt, (Option<RawBytes>, ())) as Wire>::read(buf, pos) {
            Ok(((transaction_id, (data, ())), end)) => Ok((C2SCustomQueryAnswer { transaction_id, data }, end)),
            Err(e) => Err(e),
        }
    }

    proof fn lemma_read_len(s: Seq<u8>) {
        <(VarInt, (Option<RawBytes>, ())) as Wire>::lemma_read_len(s);
    }

    proof fn lemma_roundtrip(m: Self::Model, rest: Seq<u8>) {
        <(VarInt, (Option<RawBytes>, ())) as Wire>::lemma_roundtrip(m, rest);
    }
}

impl Packet for C2SCustomQueryAnswer {
    open spec fn spec_id() -> i32 {
        0x02
    }

    open spec fn spec_state() -> State {
        State::Login
    }

    fn id(&self) -> (r: VarInt) {
        VarInt(0x02)
    }

    fn state(&self) -> (r: State) {
        State::Login
    }
}

/// 0x03 - Login Acknowledged; no fields. Sent after `LoginSuccess`, it moves
/// the connection into Configuration.
#[derive(Debug, Clone, PartialEq)]
pub struct C2SLoginAcknowledged {}

/// The fields of [`C2SLoginAcknowledged`], in order.
impl Wire for C2SLoginAcknowledged {
    type Model = <() as Wire>::Model;

    open spec fn model(&self) -> Self::Model {
        ()
    }

    open spec fn encodable(m: Self::Model) -> bool {
        <() as Wire>::encodable(m)
    }

    open spec fn greedy() -> bool {
        <() as Wire>::greedy()
    }

    open spec fn decodable() -> bool {
        <() as Wire>::decodable()
    }

    closed spec fn spec_write(m: Self::Model) -> Seq<u8> {
        <() as Wire>::spec_write(m)
    }

    closed spec fn spec_read(s: Seq<u8>) -> Result<(Self::Model, nat), DecodeError> {
        <() as Wire>::spec_read(s)
    }

    fn write(&self, out: &mut Vec<u8>) {
        let ghost o0 = out@;

        assert(o0 + Seq::<u8>::empty() =~= o0);
    }

    fn read(buf: &[u8], pos: usize) -> (r: Result<(C2SLoginAcknowledged, usize), DecodeError>) {
        match <() as Wire>::read(buf, pos) {
            Ok(((), end)) => Ok((C2SLoginAcknowledged {}, end)),
            Err(e) => Err(e),
        }
    }

    proof fn lemma_read_len(s: Seq<u8>) {
        <() as Wire>::lemma_read_len(s);
    }

    proof fn lemma_roundtrip(m: Self::Model, rest: Seq<u8>) {
        <() as Wire>::lemma_roundtrip(m, rest);
    }
}

impl Packet for C2SLoginAcknowledged {
    open spec fn spec_id() -> i32 {
        0x03
    }

    open spec fn spec_state() -> State {
        State::Login
    }

    fn id(&self) -> (r: VarInt) {
        VarInt(0x03)
    }

    fn state(&self) -> (r: State) {
        State::Login
    }
}

/// 0x04 - Cookie Response (Login).
#[derive(Debug, Clone, PartialEq)]
pub struct C2SLoginCookieResponse {
    pub key: String,
    pub payload: Option<RawBytes>,
}

/// The fields of [`C2SLoginCookieResponse`], in order.
impl Wire for C2SLoginCookieResponse {
    type Model = <(String, (Option<RawBytes>, ())) as Wire>::Model;

    open spec fn model(&self) -> Self::Model {
        (self.key.model(), (self.payload.model(), ()))
    }

    open spec fn encodable(m: Self::Model) -> bool {
        <(String, (Option<RawBytes>, ())) as Wire>::encodable(m)
    }

    open spec fn greedy() -> bool {
        <(String, (Option<RawBytes>, ())) as Wire>::greedy()
    }

    open spec fn decodable() -> bool {
        <(String, (Option<RawBytes>, ())) as Wire>::decodable()
    }

    closed spec fn spec_write(m: Self::Model) -> Seq<u8> {
        <(String, (Option<RawBytes>, ())) as Wire>::spec_write(m)
    }

    closed spec fn spec_read(s: Seq<u8>) -> Result<(Self::Model, nat), DecodeError> {
        <(String, (Option<RawBytes>, ())) as Wire>::spec_read(s)
    }

    fn write(&self, out: &mut Vec<u8>) {
        let ghost o0 = out@;
        self.key.write(out);
        proof { lemma_write_step::<String, (Option<RawBytes>, ())>(o0, out@, self.key.model(), (self.payload.model(), ())); }
        let ghost o1 = out@;
        self.payload.write(out);
        proof { lemma_write_step::<Option<RawBytes>, ()>(o1, out@, self.payload.model(), ()); }
        let ghost o2 = out@;
        assert(o2 + Seq::<u8>::empty() =~= o2);
    }

    fn read(buf: &[u8], pos: usize) -> (r: Result<(C2SLoginCookieResponse, usize), DecodeError>) {
        match <(String, (Option<RawBytes>, ())) as Wire>::read(buf, pos) {
            Ok(((key, (payload, ())), end)) => Ok((C2SLoginCookieResponse { key, payload }, end)),
            Err(e) => Err(e),
        }
    }

    proof fn lemma_read_len(s: Seq<u8>) {
        <(String, (Option<RawBytes>, ())) as Wire>::lemma_read_len(s);
    }

    proof fn lemma_roundtrip(m: Self::Model, rest: Seq<u8>) {
        <(String, (Option<RawBytes>, ())) as Wire>::lemma_roundtrip(m, rest);
    }
}

impl Packet for C2SLoginCookieResponse {
    open spec fn spec_id() -> i32 {
        0x04
    }

    open spec fn spec_state() -> State {
        State::Login
    }

    fn id(&self) -> (r: VarInt) {
        VarInt(0x04)
    }

    fn state(&self) -> (r: State) {
        State::Login
    }
}

} // verus!
