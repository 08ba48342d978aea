//! Server-to-client Login packets (1.21.1).

use vstd::prelude::*;

use crate::codec::Wire;
use crate::containers::lemma_write_step;
use crate::error::DecodeError;
use crate::common::Property;
use crate::packet::Chat;
use crate::packet::Packet;
use crate::state::State;
use crate::varint::VarInt;

verus! {

/// 0x00 - Disconnect (Login).
#[derive(Debug, Clone, PartialEq)]
pub struct S2CDisconnect {
    pub reason: Chat,
}

/// The fields of [`S2CDisconnect`], in order.
impl Wire for S2CDisconnect {
    type Model = <(Chat, ()) as Wire>::Model;

    open spec fn model(&self) -> Self::Model {
        (self.reason.model(), ())
    }

    open spec fn encodable(m: Self::Model) -> bool {
        <(Chat, ()) as Wire>::encodable(m)
    }

    open spec fn greedy() -> bool {
        <(Chat, ()) as Wire>::greedy()
    }

    open spec fn decodable() -> bool {
        <(Chat, ()) as Wire>::decodable()
    }

    closed spec fn spec_write(m: Self::Model) -> Seq<u8> {
        <(Chat, ()) as Wire>::spec_write(m)
    }

    closed spec fn spec_read(s: Seq<u8>) -> Result<(Self::Model, nat), DecodeError> {
        <(Chat, ()) as Wire>::spec_read(s)
    }

    fn write(&self, out: &mut Vec<u8>) {
        let ghost o0 = out@;
        self.reason.write(out);
        proof { lemma_write_step::<Chat, ()>(o0, out@, self.reason.model(), ()); }
        let ghost o1 = out@;
        assert(o1 + Seq::<u8>::empty() =~= o1);
    }

    fn read(buf: &[u8], pos: usize) -> (r: Result<(S2CDisconnect, usize), DecodeError>) {
        match <(Chat, ()) as Wire>::read(buf, pos) {
            Ok(((reason, ()), end)) => Ok((S2CDisconnect { reason }, end)),
            Err(e) => Err(e),
        }
    }

    proof fn lemma_read_len(s: Seq<u8>) {
        <(Chat, ()) as Wire>::lemma_read_len(s);
    }

    proof fn lemma_roundtrip(m: Self::Model, rest: Seq<u8>) {
        <(Chat, ()) as Wire>::lemma_roundtrip(m, rest);
    }
}

impl Packet for S2CDisconnect {
    open spec fn spec_id() -> i32 {
        0x00
    }

    open spec fn spec_state() -> State {
        State::Login
    }

    fn id(&self) -> (r: VarInt) {
        VarInt(0x00)
    }

    fn state(&self) -> (r: State) {
        State::Login
    }
}

/// 0x01 - Encryption Request.
#[derive(Debug, Clone, PartialEq)]
pub struct S2CEncryptionRequest {
    pub server_id: String,
    pub public_key: Vec<u8>,
    pub verify_token: Vec<u8>,
}

/// The fields of [`S2CEncryptionRequest`], in order.
impl Wire for S2CEncryptionRequest {
    type Model = <(String, (Vec<u8>, (Vec<u8>, ()))) as Wire>::Model;

    open spec fn model(&self) -> Self::Model {
        (self.server_id.model(), (self.public_key.model(), (self.verify_token.model(), ())))
    }

    open spec fn encodable(m: Self::Model) -> bool {
        <(String, (Vec<u8>, (Vec<u8>, ()))) as Wire>::encodable(m)
    }

    open spec fn greedy() -> bool {
        <(String, (Vec<u8>, (Vec<u8>, ()))) as Wire>::greedy()
    }

    open spec fn decodable() -> bool {
        <(String, (Vec<u8>, (Vec<u8>, ()))) as Wire>::decodable()
    }

    closed spec fn spec_write(m: Self::Model) -> Seq<u8> {
        <(String, (Vec<u8>, (Vec<u8>, ()))) as Wire>::spec_write(m)
    }

    closed spec fn spec_read(s: Seq<u8>) -> Result<(Self::Model, nat), DecodeError> {
        <(String, (Vec<u8>, (Vec<u8>, ()))) as Wire>::spec_read(s)
    }

    fn write(&self, out: &mut Vec<u8>) {
        let ghost o0 = out@;
        self.server_id.write(out);
        proof { lemma_write_step::<String, (Vec<u8>, (Vec<u8>, ()))>(o0, out@, self.server_id.model(), (self.public_key.model(), (self.verify_token.model(), ()))); }
        let ghost o1 = out@;
        self.public_key.write(out);
        proof { lemma_write_step::<Vec<u8>, (Vec<u8>, ())>(o1, out@, self.public_key.model(), (self.verify_token.model(), ())); }
        let ghost o2 = out@;
        self.verify_token.write(out);
        proof { lemma_write_step::<Vec<u8>, ()>(o2, out@, self.verify_token.model(), ()); }
        let ghost o3 = out@;
        assert(o3 + Seq::<u8>::empty() =~= o3);
    }

    fn read(buf: &[u8], pos: usize) -> (r: Result<(S2CEncryptionRequest, usize), DecodeError>) {
        match <(String, (Vec<u8>, (Vec<u8>, ()))) as Wire>::read(buf, pos) {
            Ok(((server_id, (public_key, (verify_token, ()))), end)) => Ok((S2CEncryptionRequest { server_id, public_key, verify_token }, end)),
            Err(e) => Err(e),
        }
    }

    proof fn lemma_read_len(s: Seq<u8>) {
        <(String, (Vec<u8>, (Vec<u8>, ()))) as Wire>::lemma_read_len(s);
    }

    proof fn lemma_roundtrip(m: Self::Model, rest: Seq<u8>) {
        <(String, (Vec<u8>, (Vec<u8>, ()))) as Wire>::lemma_roundtrip(m, rest);
    }
}

impl Packet for S2CEncryptionRequest {
    open spec fn spec_id() -> i32 {
        0x01
    }

    open spec fn spec_state() -> State {
        State::Login
    }

    fn id(&self) -> (r: VarInt) {
        VarInt(0x01)
    }

    fn state(&self) -> (r: State) {
        State::Login
    }
}

/// 0x02 - Login Success. 1.21.1 adds the trailing `strict_error_handling`;
/// `uuid` holds the UUID's 128 bits.
#[derive(Debug, Clone, PartialEq)]
pub struct S2CLoginSuccess {
    pub uuid: u128,
    pub username: String,
    pub properties: Vec<Property>,
    pub strict_error_handling: bool,
}

/// The fields of [`S2CLoginSuccess`], in order.
impl Wire for S2CLoginSuccess {
    type Model = <(u128, (String, (Vec<Property>, (bool, ())))) as Wire>::Model;

    open spec fn model(&self) -> Self::Model {
        (self.uuid.model(), (self.username.model(), (self.properties.model(), (self.strict_error_handling.model(), ()))))
    }

    open spec fn encodable(m: Self::Model) -> bool {
        <(u128, (String, (Vec<Property>, (bool, ())))) as Wire>::encodable(m)
    }

    open spec fn greedy() -> bool {
        <(u128, (String, (Vec<Property>, (bool, ())))) as Wire>::greedy()
    }

    open spec fn decodable() -> bool {
        <(u128, (String, (Vec<Property>, (bool, ())))) as Wire>::decodable()
    }

    closed spec fn spec_write(m: Self::Model) -> Seq<u8> {
        <(u128, (String, (Vec<Property>, (bool, ())))) as Wire>::spec_write(m)
    }

    closed spec fn spec_read(s: Seq<u8>) -> Result<(Self::Model, nat), DecodeError> {
        <(u128, (String, (Vec<Property>, (bool, ())))) as Wire>::spec_read(s)
    }

    fn write(&self, out: &mut Vec<u8>) {
        let ghost o0 = out@;
        self.uuid.write(out);
        proof { lemma_write_step::<u128, (String, (Vec<Property>, (bool, ())))>(o0, out@, self.uuid.model(), (self.username.model(), (self.properties.model(), (self.strict_error_handling.model(), ())))); }
        let ghost o1 = out@;
        self.username.write(out);
        proof { lemma_write_step::<String, (Vec<Property>, (bool, ()))>(o1, out@, self.username.model(), (self.properties.model(), (self.strict_error_handling.model(), ()))); }
        let ghost o2 = out@;
        self.properties.write(out);
        proof { lemma_write_step::<Vec<Property>, (bool, ())>(o2, out@, self.properties.model(), (self.strict_error_handling.model(), ())); }
        let ghost o3 = out@;
        self.strict_error_handling.write(out);
        proof { lemma_write_step::<bool, ()>(o3, out@, self.strict_error_handling.model(), ()); }
        let ghost o4 = out@;
        assert(o4 + Seq::<u8>::empty() =~= o4);
    }

    fn read(buf: &[u8], pos: usize) -> (r: Result<(S2CLoginSuccess, usize), DecodeError>) {
        match <(u128, (String, (Vec<Property>, (bool, ())))) as Wire>::read(buf, pos) {
            Ok(((uuid, (username, (properties, (strict_error_handling, ())))), end)) => Ok((S2CLoginSuccess { uuid, username, properties, strict_error_handling }, end)),
            Err(e) => Err(e),
        }
    }

    proof fn lemma_read_len(s: Seq<u8>) {
        <(u128, (String, (Vec<Property>, (bool, ())))) as Wire>::lemma_read_len(s);
    }

    proof fn lemma_roundtrip(m: Self::Model, rest: Seq<u8>) {
        <(u128, (String, (Vec<Property>, (bool, ())))) as Wire>::lemma_roundtrip(m, rest);
    }
}

impl Packet for S2CLoginSuccess {
    open spec fn spec_id() -> i32 {
        0x02
    }

    open spec fn spec_state() -> State {
        State::Login
    }

    fn id(&self) -> (r: VarInt) {
        VarInt(0x02)
    }

    fn state(&self) -> (r: State) {
        State::Login
    }
}

/// 0x03 - Set Compression.
#[derive(Debug, Clone, PartialEq)]
pub struct S2CSetCompression {
    pub threshold: VarInt,
}

/// The fields of [`S2CSetCompression`], in order.
impl Wire for S2CSetCompression {
    type Model = <(VarInt, ()) as Wire>::Model;

    open spec fn model(&self) -> Self::Model {
        (self.threshold.model(), ())
    }

    open spec fn encodable(m: Self::Model) -> bool {
        <(VarInt, ()) as Wire>::encodable(m)
    }

    open spec fn greedy() -> bool {
        <(VarInt, ()) as Wire>::greedy()
    }

    open spec fn decodable() -> bool {
        <(VarInt, ()) as Wire>::decodable()
    }

    closed spec fn spec_write(m: Self::Model) -> Seq<u8> {
        <(VarInt, ()) as Wire>::spec_write(m)
    }

    closed spec fn spec_read(s: Seq<u8>) -> Result<(Self::Model, nat), DecodeError> {
        <(VarInt, ()) as Wire>::spec_read(s)
    }

    fn write(&self, out: &mut Vec<u8>) {
        let ghost o0 = out@;
        self.threshold.write(out);
        proof { lemma_write_step::<VarInt, ()>(o0, out@, self.threshold.model(), ()); }
        let ghost o1 = out@;
        assert(o1 + Seq::<u8>::empty() =~= o1);
    }

    fn read(buf: &[u8], pos: usize) -> (r: Result<(S2CSetCompression, usize), DecodeError>) {
        match <(VarInt, ()) as Wire>::read(buf, pos) {
            Ok(((threshold, ()), end)) => Ok((S2CSetCompression { threshold }, end)),
            Err(e) => Err(e),
        }
    }

    proof fn lemma_read_len(s: Seq<u8>) {
        <(VarInt, ()) as Wire>::lemma_read_len(s);
    }

    proof fn lemma_roundtrip(m: Self::Model, rest: Seq<u8>) {
        <(VarInt, ()) as Wire>::lemma_roundtrip(m, rest);
    }
}

impl Packet for S2CSetCompression {
    open spec fn spec_id() -> i32 {
        0x03
    }

    open spec fn spec_state() -> State {
        State::Login
    }

    fn id(&self) -> (r: VarInt) {
        VarInt(0x03)
    }

    fn state(&self) -> (r: State) {
        State::Login
    }
}

/// 0x04 - Login Plugin Request.
#[derive(Debug, Clone, PartialEq)]
pub struct S2CLoginPluginRequest {
    pub message_id: VarInt,
    pub channel: String,
    pub data: Vec<u8>,
}

/// The fields of [`S2CLoginPluginRequest`], in order.
impl Wire for S2CLoginPluginRequest {
    type Model = <(VarInt, (String, (Vec<u8>, ()))) as Wire>::Model;

    open spec fn model(&self) -> Self::Model {
        (self.message_id.model(), (self.channel.model(), (self.data.model(), ())))
    }

    open spec fn encodable(m: Self::Model) -> bool {
        <(VarInt, (String, (Vec<u8>, ()))) as Wire>::encodable(m)
    }

    open spec fn greedy() -> bool {
        <(VarInt, (String, (Vec<u8>, ()))) as Wire>::greedy()
    }

    open spec fn decodable() -> bool {
        <(VarInt, (String, (Vec<u8>, ()))) as Wire>::decodable()
    }

    closed spec fn spec_write(m: Self::Model) -> Seq<u8> {
        <(VarInt, (String, (Vec<u8>, ()))) as Wire>::spec_write(m)
    }

    closed spec fn spec_read(s: Seq<u8>) -> Result<(Self::Model, nat), DecodeError> {
        <(VarInt, (String, (Vec<u8>, ()))) as Wire>::spec_read(s)
    }

    fn write(&self, out: &mut Vec<u8>) {
        let ghost o0 = out@;
        self.message_id.write(out);
        proof { lemma_write_step::<VarInt, (String, (Vec<u8>, ()))>(o0, out@, self.message_id.model(), (self.channel.model(), (self.data.model(), ()))); }
        let ghost o1 = out@;
        self.channel.write(out);
        proof { lemma_write_step::<String, (Vec<u8>, ())>(o1, out@, self.channel.model(), (self.data.model(), ())); }
        let ghost o2 = out@;
        self.data.write(out);
        proof { lemma_write_step::<Vec<u8>, ()>(o2, out@, self.data.model(), ()); }
        let ghost o3 = out@;
        assert(o3 + Seq::<u8>::empty() =~= o3);
    }

    fn read(buf: &[u8], pos: usize) -> (r: Result<(S2CLoginPluginRequest, usize), DecodeError>) {
        match <(VarInt, (String, (Vec<u8>, ()))) as Wire>::read(buf, pos) {
            Ok(((message_id, (channel, (data, ()))), end)) => Ok((S2CLoginPluginRequest { message_id, channel, data }, end)),
            Err(e) => Err(e),
        }
    }

    proof fn lemma_read_len(s: Seq<u8>) {
        <(VarInt, (String, (Vec<u8>, ()))) as Wire>::lemma_read_len(s);
    }

    proof fn lemma_roundtrip(m: Self::Model, rest: Seq<u8>) {
        <(VarInt, (String, (Vec<u8>, ()))) as Wire>::lemma_roundtrip(m, rest);
    }
}

impl Packet for S2CLoginPluginRequest {
    open spec fn spec_id() -> i32 {
        0x04
    }

    open spec fn spec_state() -> State {
        State::Login
    }

    fn id(&self) -> (r: VarInt) {
        VarInt(0x04)
    }

    fn state(&self) -> (r: State) {
        State::Login
    }
}

} // verus!
