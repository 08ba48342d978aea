//! Client-to-server Play packets (protocol 763, MC 1.20.1).
//!
//! Every C2S Play packet is modeled so that the decode loop can parse whatever
//! a vanilla client sends. Only a handful are acted on; the rest are decoded
//! and ignored. Trailing payloads of types without a first-class layout (item
//! stacks, action-dependent tails) are kept as [`RawBytes`].

use vstd::prelude::*;

use crate::codec::Wire;
use crate::containers::lemma_write_step;
use crate::error::DecodeError;
use crate::containers::RawBytes;
use crate::packet::Packet;
use crate::position::BlockPos;
use crate::state::State;
use crate::varint::VarInt;

verus! {

/// 0x00 - Accept Teleportation: acks a `Synchronize Player Position`.
#[derive(Debug, Clone, PartialEq)]
pub struct C2SAcceptTeleportation {
    pub id: VarInt,
}

/// The fields of [`C2SAcceptTeleportation`], in order.
impl Wire for C2SAcceptTeleportation {
    type Model = <(VarInt, ()) as Wire>::Model;

    open spec fn model(&self) -> Self::Model {
        (self.id.model(), ())
    }

    open spec fn encodable(m: Self::Model) -> bool {
        <(VarInt, ()) as Wire>::encodable(m)
    }

    open spec fn greedy() -> bool {
        <(VarInt, ()) as Wire>::greedy()
    }

    open spec fn decodable() -> bool {
        <(VarInt, ()) as Wire>::decodable()
    }

    closed spec fn spec_write(m: Self::Model) -> Seq<u8> {
        <(VarInt, ()) as Wire>::spec_write(m)
    }

    closed spec fn spec_read(s: Seq<u8>) -> Result<(Self::Model, nat), DecodeError> {
        <(VarInt, ()) as Wire>::spec_read(s)
    }

    fn write(&self, out: &mut Vec<u8>) {
        let ghost o0 = out@;
        self.id.write(out);
        proof { lemma_write_step::<VarInt, ()>(o0, out@, self.id.model(), ()); }
        let ghost o1 = out@;
        assert(o1 + Seq::<u8>::empty() =~= o1);
    }

    fn read(buf: &[u8], pos: usize) -> (r: Result<(C2SAcceptTeleportation, usize), DecodeError>) {
        match <(VarInt, ()) as Wire>::read(buf, pos) {
            Ok(((id, ()), end)) => Ok((C2SAcceptTeleportation { id }, end)),
            Err(e) => Err(e),
        }
    }

    proof fn lemma_read_len(s: Seq<u8>) {
        <(VarInt, ()) as Wire>::lemma_read_len(s);
    }

    proof fn lemma_roundtrip(m: Self::Model, rest: Seq<u8>) {
        <(VarInt, ()) as Wire>::lemma_roundtrip(m, rest);
    }
}

impl Packet for C2SAcceptTeleportation {
    open spec fn spec_id() -> i32 {
        0x00
    }

    open spec fn spec_state() -> State {
        State::Play
    }

    fn id(&self) -> (r: VarInt) {
        VarInt(0x00)
    }

    fn state(&self) -> (r: State) {
        State::Play
    }
}

/// 0x01 - Query Block Entity Tag.
#[derive(Debug, Clone, PartialEq)]
pub struct C2SQueryBlockNbt {
    pub transaction_id: VarInt,
    pub location: BlockPos,
}

/// The fields of [`C2SQueryBlockNbt`], in order.
impl Wire for C2SQueryBlockNbt {
    type Model = <(VarInt, (BlockPos, ())) as Wire>::Model;

    open spec fn model(&self) -> Self::Model {
        (self.transaction_id.model(), (self.location.model(), ()))
    }

    open spec fn encodable(m: Self::Model) -> bool {
        <(VarInt, (BlockPos, ())) as Wire>::encodable(m)
    }

    open spec fn greedy() -> bool {
        <(VarInt, (BlockPos, ())) as Wire>::greedy()
    }

    open spec fn decodable() -> bool {
        <(VarInt, (BlockPos, ())) as Wire>::decodable()
    }

    closed spec fn spec_write(m: Self::Model) -> Seq<u8> {
        <(VarInt, (BlockPos, ())) as Wire>::spec_write(m)
    }

    closed spec fn spec_read(s: Seq<u8>) -> Result<(Self::Model, nat), DecodeError> {
        <(VarInt, (BlockPos, ())) as Wire>::spec_read(s)
    }

    fn write(&self, out: &mut Vec<u8>) {
        let ghost o0 = out@;
        self.transaction_id.write(out);
        proof { lemma_write_step::<VarInt, (BlockPos, ())>(o0, out@, self.transaction_id.model(), (self.location.model(), ())); }
        let ghost o1 = out@;
        self.location.write(out);
        proof { lemma_write_step::<BlockPos, ()>(o1, out@, self.location.model(), ()); }
        let ghost o2 = out@;
        assert(o2 + Seq::<u8>::empty() =~= o2);
    }

    fn read(buf: &[u8], pos: usize) -> (r: Result<(C2SQueryBlockNbt, usize), DecodeError>) {
        match <(VarInt, (BlockPos, ())) as Wire>::read(buf, pos) {
            Ok(((transaction_id, (location, ())), end)) => Ok((C2SQueryBlockNbt { transaction_id, location }, end)),
            Err(e) => Err(e),
        }
    }

    proof fn lemma_read_len(s: Seq<u8>) {
        <(VarInt, (BlockPos, ())) as Wire>::lemma_read_len(s);
    }

    proof fn lemma_roundtrip(m: Self::Model, rest: Seq<u8>) {
        <(VarInt, (BlockPos, ())) as Wire>::lemma_roundtrip(m, rest);
    }
}

impl Packet for C2SQueryBlockNbt {
    open spec fn spec_id() -> i32 {
        0x01
    }

    open spec fn spec_state() -> State {
        State::Play
    }

    fn id(&self) -> (r: VarInt) {
        VarInt(0x01)
    }

    fn state(&self) -> (r: State) {
        State::Play
    }
}

/// 0x02 - Change Difficulty.
#[derive(Debug, Clone, PartialEq)]
pub struct C2SChangeDifficulty {
    pub new_difficulty: u8,
}

/// The fields of [`C2SChangeDifficulty`], in order.
impl Wire for C2SChangeDifficulty {
    type Model = <(u8, ()) as Wire>::Model;

    open spec fn model(&self) -> Self::Model {
        (self.new_difficulty.model(), ())
    }

    open spec fn encodable(m: Self::Model) -> bool {
        <(u8, ()) as Wire>::encodable(m)
    }

    open spec fn greedy() -> bool {
        <(u8, ()) as Wire>::greedy()
    }

    open spec fn decodable() -> bool {
        <(u8, ()) as Wire>::decodable()
    }

    closed spec fn spec_write(m: Self::Model) -> Seq<u8> {
        <(u8, ()) as Wire>::spec_write(m)
    }

    closed spec fn spec_read(s: Seq<u8>) -> Result<(Self::Model, nat), DecodeError> {
        <(u8, ()) as Wire>::spec_read(s)
    }

    fn write(&self, out: &mut Vec<u8>) {
        let ghost o0 = out@;
        self.new_difficulty.write(out);
        proof { lemma_write_step::<u8, ()>(o0, out@, self.new_difficulty.model(), ()); }
        let ghost o1 = out@;
        assert(o1 + Seq::<u8>::empty() =~= o1);
    }

    fn read(buf: &[u8], pos: usize) -> (r: Result<(C2SChangeDifficulty, usize), DecodeError>) {
        match <(u8, ()) as Wire>::read(buf, pos) {
            Ok(((new_difficulty, ()), end)) => Ok((C2SChangeDifficulty { new_difficulty }, end)),
            Err(e) => Err(e),
        }
    }

    proof fn lemma_read_len(s: Seq<u8>) {
        <(u8, ()) as Wire>::lemma_read_len(s);
    }

    proof fn lemma_roundtrip(m: Self::Model, rest: Seq<u8>) {
        <(u8, ()) as Wire>::lemma_roundtrip(m, rest);
    }
}

impl Packet for C2SChangeDifficulty {
    open spec fn spec_id() -> i32 {
        0x02
    }

    open spec fn spec_state() -> State {
        State::Play
    }

    fn id(&self) -> (r: VarInt) {
        VarInt(0x02)
    }

    fn state(&self) -> (r: State) {
        State::Play
    }
}

/// 0x03 - Chat Acknowledgement.
#[derive(Debug, Clone, PartialEq)]
pub struct C2SChatAck {
    pub count: VarInt,
}

/// The fields of [`C2SChatAck`], in order.
impl Wire for C2SChatAck {
    type Model = <(VarInt, ()) as Wire>::Model;

    open spec fn model(&self) -> Self::Model {
        (self.count.model(), ())
    }

    open spec fn encodable(m: Self::Model) -> bool {
        <(VarInt, ()) as Wire>::encodable(m)
    }

    open spec fn greedy() -> bool {
        <(VarInt, ()) as Wire>::greedy()
    }

    open spec fn decodable() -> bool {
        <(VarInt, ()) as Wire>::decodable()
    }

    closed spec fn spec_write(m: Self::Model) -> Seq<u8> {
        <(VarInt, ()) as Wire>::spec_write(m)
    }

    closed spec fn spec_read(s: Seq<u8>) -> Result<(Self::Model, nat), DecodeError> {
        <(VarInt, ()) as Wire>::spec_read(s)
    }

    fn write(&self, out: &mut Vec<u8>) {
        let ghost o0 = out@;
        self.count.write(out);
        proof { lemma_write_step::<VarInt, ()>(o0, out@, self.count.model(), ()); }
        let ghost o1 = out@;
        assert(o1 + Seq::<u8>::empty() =~= o1);
    }

    fn read(buf: &[u8], pos: usize) -> (r: Result<(C2SChatAck, usize), DecodeError>) {
        match <(VarInt, ()) as Wire>::read(buf, pos) {
            Ok(((count, ()), end)) => Ok((C2SChatAck { count }, end)),
            Err(e) => Err(e),
        }
    }

    proof fn lemma_read_len(s: Seq<u8>) {
        <(VarInt, ()) as Wire>::lemma_read_len(s);
    }

    proof fn lemma_roundtrip(m: Self::Model, rest: Seq<u8>) {
        <(VarInt, ()) as Wire>::lemma_roundtrip(m, rest);
    }
}

impl Packet for C2SChatAck {
    open spec fn spec_id() -> i32 {
        0x03
    }

    open spec fn spec_state() -> State {
        State::Play
    }

    fn id(&self) -> (r: VarInt) {
        VarInt(0x03)
    }

    fn state(&self) -> (r: State) {
        State::Play
    }
}

/// 0x04 - Chat Command. `acknowledged` is the 3-byte bitset of the last seen
/// messages.
#[derive(Debug, Clone, PartialEq)]
pub struct C2SChatCommand {
    pub command: String,
    pub timestamp: i64,
    pub salt: i64,
    pub argument_signatures: Vec<ArgumentSignature>,
    pub message_count: VarInt,
    pub acknowledged: [u8; 3],
}

/// The fields of [`C2SChatCommand`], in order.
impl Wire for C2SChatCommand {
    type Model = <(String, (i64, (i64, (Vec<ArgumentSignature>, (VarInt, ([u8; 3], ())))))) as Wire>::Model;

    open spec fn model(&self) -> Self::Model {
        (self.command.model(), (self.timestamp.model(), (self.salt.model(), (self.argument_signatures.model(), (self.message_count.model(), (self.acknowledged.model(), ()))))))
    }

    open spec fn encodable(m: Self::Model) -> bool {
        <(String, (i64, (i64, (Vec<ArgumentSignature>, (VarInt, ([u8; 3], ())))))) as Wire>::encodable(m)
    }

    open spec fn greedy() -> bool {
        <(String, (i64, (i64, (Vec<ArgumentSignature>, (VarInt, ([u8; 3], ())))))) as Wire>::greedy()
    }

    open spec fn decodable() -> bool {
        <(String, (i64, (i64, (Vec<ArgumentSignature>, (VarInt, ([u8; 3], ())))))) as Wire>::decodable()
    }

    closed spec fn spec_write(m: Self::Model) -> Seq<u8> {
        <(String, (i64, (i64, (Vec<ArgumentSignature>, (VarInt, ([u8; 3], ())))))) as Wire>::spec_write(m)
    }

    closed spec fn spec_read(s: Seq<u8>) -> Result<(Self::Model, nat), DecodeError> {
        <(String, (i64, (i64, (Vec<ArgumentSignature>, (VarInt, ([u8; 3], ())))))) as Wire>::spec_read(s)
    }

    fn write(&self, out: &mut Vec<u8>) {
        let ghost o0 = out@;
        self.command.write(out);
        proof { lemma_write_step::<String, (i64, (i64, (Vec<ArgumentSignature>, (VarInt, ([u8; 3], ())))))>(o0, out@, self.command.model(), (self.timestamp.model(), (self.salt.model(), (self.argument_signatures.model(), (self.message_count.model(), (self.acknowledged.model(), ())))))); }
        let ghost o1 = out@;
        self.timestamp.write(out);
        proof { lemma_write_step::<i64, (i64, (Vec<ArgumentSignature>, (VarInt, ([u8; 3], ()))))>(o1, out@, self.timestamp.model(), (self.salt.model(), (self.argument_signatures.model(), (self.message_count.model(), (self.acknowledged.model(), ()))))); }
        let ghost o2 = out@;
        self.salt.write(out);
        proof { lemma_write_step::<i64, (Vec<ArgumentSignature>, (VarInt, ([u8; 3], ())))>(o2, out@, self.salt.model(), (self.argument_signatures.model(), (self.message_count.model(), (self.acknowledged.model(), ())))); }
        let ghost o3 = out@;
        self.argument_signatures.write(out);
        proof { lemma_write_step::<Vec<ArgumentSignature>, (VarInt, ([u8; 3], ()))>(o3, out@, self.argument_signatures.model(), (self.message_count.model(), (self.acknowledged.model(), ()))); }
        let ghost o4 = out@;
        self.message_count.write(out);
        proof { lemma_write_step::<VarInt, ([u8; 3], ())>(o4, out@, self.message_count.model(), (self.acknowledged.model(), ())); }
        let ghost o5 = out@;
        self.acknowledged.write(out);
        proof { lemma_write_step::<[u8; 3], ()>(o5, out@, self.acknowledged.model(), ()); }
        let ghost o6 = out@;
        assert(o6 + Seq::<u8>::empty() =~= o6);
    }

    fn read(buf: &[u8], pos: usize) -> (r: Result<(C2SChatCommand, usize), DecodeError>) {
        match <(String, (i64, (i64, (Vec<ArgumentSignature>, (VarInt, ([u8; 3], ())))))) as Wire>::read(buf, pos) {
            Ok(((command, (timestamp, (salt, (argument_signatures, (message_count, (acknowledged, ())))))), end)) => Ok((C2SChatCommand { command, timestamp, salt, argument_signatures, message_count, acknowledged }, end)),
            Err(e) => Err(e),
        }
    }

    proof fn lemma_read_len(s: Seq<u8>) {
        <(String, (i64, (i64, (Vec<ArgumentSignature>, (VarInt, ([u8; 3], ())))))) as Wire>::lemma_read_len(s);
    }

    proof fn lemma_roundtrip(m: Self::Model, rest: Seq<u8>) {
        <(String, (i64, (i64, (Vec<ArgumentSignature>, (VarInt, ([u8; 3], ())))))) as Wire>::lemma_roundtrip(m, rest);
    }
}

impl Packet for C2SChatCommand {
    open spec fn spec_id() -> i32 {
        0x04
    }

    open spec fn spec_state() -> State {
        State::Play
    }

    fn id(&self) -> (r: VarInt) {
        VarInt(0x04)
    }

    fn state(&self) -> (r: State) {
        State::Play
    }
}

/// 0x05 - Chat Message.
#[derive(Debug, Clone, PartialEq)]
pub struct C2SChatMessage {
    pub message: String,
    pub timestamp: i64,
    pub salt: i64,
    pub signature: Option<[u8; 256]>,
    pub offset: VarInt,
    pub acknowledged: [u8; 3],
}

/// The fields of [`C2SChatMessage`], in order.
impl Wire for C2SChatMessage {
    type Model = <(String, (i64, (i64, (Option<[u8; 256]>, (VarInt, ([u8; 3], ())))))) as Wire>::Model;

    open spec fn model(&self) -> Self::Model {
        (self.message.model(), (self.timestamp.model(), (self.salt.model(), (self.signature.model(), (self.offset.model(), (self.acknowledged.model(), ()))))))
    }

    open spec fn encodable(m: Self::Model) -> bool {
        <(String, (i64, (i64, (Option<[u8; 256]>, (VarInt, ([u8; 3], ())))))) as Wire>::encodable(m)
    }

    open spec fn greedy() -> bool {
        <(String, (i64, (i64, (Option<[u8; 256]>, (VarInt, ([u8; 3], ())))))) as Wire>::greedy()
    }

    open spec fn decodable() -> bool {
        <(String, (i64, (i64, (Option<[u8; 256]>, (VarInt, ([u8; 3], ())))))) as Wire>::decodable()
    }

    closed spec fn spec_write(m: Self::Model) -> Seq<u8> {
        <(String, (i64, (i64, (Option<[u8; 256]>, (VarInt, ([u8; 3], ())))))) as Wire>::spec_write(m)
    }

    closed spec fn spec_read(s: Seq<u8>) -> Result<(Self::Model, nat), DecodeError> {
        <(String, (i64, (i64, (Option<[u8; 256]>, (VarInt, ([u8; 3], ())))))) as Wire>::spec_read(s)
    }

    fn write(&self, out: &mut Vec<u8>) {
        let ghost o0 = out@;
        self.message.write(out);
        proof { lemma_write_step::<String, (i64, (i64, (Option<[u8; 256]>, (VarInt, ([u8; 3], ())))))>(o0, out@, self.message.model(), (self.timestamp.model(), (self.salt.model(), (self.signature.model(), (self.offset.model(), (self.acknowledged.model(), ())))))); }
        let ghost o1 = out@;
        self.timestamp.write(out);
        proof { lemma_write_step::<i64, (i64, (Option<[u8; 256]>, (VarInt, ([u8; 3], ()))))>(o1, out@, self.timestamp.model(), (self.salt.model(), (self.signature.model(), (self.offset.model(), (self.acknowledged.model(), ()))))); }
        let ghost o2 = out@;
        self.salt.write(out);
        proof { lemma_write_step::<i64, (Option<[u8; 256]>, (VarInt, ([u8; 3], ())))>(o2, out@, self.salt.model(), (self.signature.model(), (self.offset.model(), (self.acknowledged.model(), ())))); }
        let ghost o3 = out@;
        self.signature.write(out);
        proof { lemma_write_step::<Option<[u8; 256]>, (VarInt, ([u8; 3], ()))>(o3, out@, self.signature.model(), (self.offset.model(), (self.acknowledged.model(), ()))); }
        let ghost o4 = out@;
        self.offset.write(out);
        proof { lemma_write_step::<VarInt, ([u8; 3], ())>(o4, out@, self.offset.model(), (self.acknowledged.model(), ())); }
        let ghost o5 = out@;
        self.acknowledged.write(out);
        proof { lemma_write_step::<[u8; 3], ()>(o5, out@, self.acknowledged.model(), ()); }
        let ghost o6 = out@;
        assert(o6 + Seq::<u8>::empty() =~= o6);
    }

    fn read(buf: &[u8], pos: usize) -> (r: Result<(C2SChatMessage, usize), DecodeError>) {
        match <(String, (i64, (i64, (Option<[u8; 256]>, (VarInt, ([u8; 3], ())))))) as Wire>::read(buf, pos) {
            Ok(((message, (timestamp, (salt, (signature, (offset, (acknowledged, ())))))), end)) => Ok((C2SChatMessage { message, timestamp, salt, signature, offset, acknowledged }, end)),
            Err(e) => Err(e),
        }
    }

    proof fn lemma_read_len(s: Seq<u8>) {
        <(String, (i64, (i64, (Option<[u8; 256]>, (VarInt, ([u8; 3], ())))))) as Wire>::lemma_read_len(s);
    }

    proof fn lemma_roundtrip(m: Self::Model, rest: Seq<u8>) {
        <(String, (i64, (i64, (Option<[u8; 256]>, (VarInt, ([u8; 3], ())))))) as Wire>::lemma_roundtrip(m, rest);
    }
}

impl Packet for C2SChatMessage {
    open spec fn spec_id() -> i32 {
        0x05
    }

    open spec fn spec_state() -> State {
        State::Play
    }

    fn id(&self) -> (r: VarInt) {
        VarInt(0x05)
    }

    fn state(&self) -> (r: State) {
        State::Play
    }
}

/// 0x06 - Chat Session Update; `session_uuid` holds the UUID's 128 bits.
#[derive(Debug, Clone, PartialEq)]
pub struct C2SChatSessionUpdate {
    pub session_uuid: u128,
    pub expire_time: i64,
    pub public_key: Vec<u8>,
    pub signature: Vec<u8>,
}

/// The fields of [`C2SChatSessionUpdate`], in order.
impl Wire for C2SChatSessionUpdate {
    type Model = <(u128, (i64, (Vec<u8>, (Vec<u8>, ())))) as Wire>::Model;

    open spec fn model(&self) -> Self::Model {
        (self.session_uuid.model(), (self.expire_time.model(), (self.public_key.model(), (self.signature.model(), ()))))
    }

    open spec fn encodable(m: Self::Model) -> bool {
        <(u128, (i64, (Vec<u8>, (Vec<u8>, ())))) as Wire>::encodable(m)
    }

    open spec fn greedy() -> bool {
        <(u128, (i64, (Vec<u8>, (Vec<u8>, ())))) as Wire>::greedy()
    }

    open spec fn decodable() -> bool {
        <(u128, (i64, (Vec<u8>, (Vec<u8>, ())))) as Wire>::decodable()
    }

    closed spec fn spec_write(m: Self::Model) -> Seq<u8> {
        <(u128, (i64, (Vec<u8>, (Vec<u8>, ())))) as Wire>::spec_write(m)
    }

    closed spec fn spec_read(s: Seq<u8>) -> Result<(Self::Model, nat), DecodeError> {
        <(u128, (i64, (Vec<u8>, (Vec<u8>, ())))) as Wire>::spec_read(s)
    }

    fn write(&self, out: &mut Vec<u8>) {
        let ghost o0 = out@;
        self.session_uuid.write(out);
        proof { lemma_write_step::<u128, (i64, (Vec<u8>, (Vec<u8>, ())))>(o0, out@, self.session_uuid.model(), (self.expire_time.model(), (self.public_key.model(), (self.signature.model(), ())))); }
        let ghost o1 = out@;
        self.expire_time.write(out);
        proof { lemma_write_step::<i64, (Vec<u8>, (Vec<u8>, ()))>(o1, out@, self.expire_time.model(), (self.public_key.model(), (self.signature.model(), ()))); }
        let ghost o2 = out@;
        self.public_key.write(out);
        proof { lemma_write_step::<Vec<u8>, (Vec<u8>, ())>(o2, out@, self.public_key.model(), (self.signature.model(), ())); }
        let ghost o3 = out@;
        self.signature.write(out);
        proof { lemma_write_step::<Vec<u8>, ()>(o3, out@, self.signature.model(), ()); }
        let ghost o4 = out@;
        assert(o4 + Seq::<u8>::empty() =~= o4);
    }

    fn read(buf: &[u8], pos: usize) -> (r: Result<(C2SChatSessionUpdate, usize), DecodeError>) {
        match <(u128, (i64, (Vec<u8>, (Vec<u8>, ())))) as Wire>::read(buf, pos) {
            Ok(((session_uuid, (expire_time, (public_key, (signature, ())))), end)) => Ok((C2SChatSessionUpdate { session_uuid, expire_time, public_key, signature }, end)),
            Err(e) => Err(e),
        }
    }

    proof fn lemma_read_len(s: Seq<u8>) {
        <(u128, (i64, (Vec<u8>, (Vec<u8>, ())))) as Wire>::lemma_read_len(s);
    }

    proof fn lemma_roundtrip(m: Self::Model, rest: Seq<u8>) {
        <(u128, (i64, (Vec<u8>, (Vec<u8>, ())))) as Wire>::lemma_roundtrip(m, rest);
    }
}

impl Packet for C2SChatSessionUpdate {
    open spec fn spec_id() -> i32 {
        0x06
    }

    open spec fn spec_state() -> State {
        State::Play
    }

    fn id(&self) -> (r: VarInt) {
        VarInt(0x06)
    }

    fn state(&self) -> (r: State) {
        State::Play
    }
}

/// 0x07 - Client Command (e.g. respawn / request stats).
#[derive(Debug, Clone, PartialEq)]
pub struct C2SClientCommand {
    pub action_id: VarInt,
}

/// The fields of [`C2SClientCommand`], in order.
impl Wire for C2SClientCommand {
    type Model = <(VarInt, ()) as Wire>::Model;

    open spec fn model(&self) -> Self::Model {
        (self.action_id.model(), ())
    }

    open spec fn encodable(m: Self::Model) -> bool {
        <(VarInt, ()) as Wire>::encodable(m)
    }

    open spec fn greedy() -> bool {
        <(VarInt, ()) as Wire>::greedy()
    }

    open spec fn decodable() -> bool {
        <(VarInt, ()) as Wire>::decodable()
    }

    closed spec fn spec_write(m: Self::Model) -> Seq<u8> {
        <(VarInt, ()) as Wire>::spec_write(m)
    }

    closed spec fn spec_read(s: Seq<u8>) -> Result<(Self::Model, nat), DecodeError> {
        <(VarInt, ()) as Wire>::spec_read(s)
    }

    fn write(&self, out: &mut Vec<u8>) {
        let ghost o0 = out@;
        self.action_id.write(out);
        proof { lemma_write_step::<VarInt, ()>(o0, out@, self.action_id.model(), ()); }
        let ghost o1 = out@;
        assert(o1 + Seq::<u8>::empty() =~= o1);
    }

    fn read(buf: &[u8], pos: usize) -> (r: Result<(C2SClientCommand, usize), DecodeError>) {
        match <(VarInt, ()) as Wire>::read(buf, pos) {
            Ok(((action_id, ()), end)) => Ok((C2SClientCommand { action_id }, end)),
            Err(e) => Err(e),
        }
    }

    proof fn lemma_read_len(s: Seq<u8>) {
        <(VarInt, ()) as Wire>::lemma_read_len(s);
    }

    proof fn lemma_roundtrip(m: Self::Model, rest: Seq<u8>) {
        <(VarInt, ()) as Wire>::lemma_roundtrip(m, rest);
    }
}

impl Packet for C2SClientCommand {
    open spec fn spec_id() -> i32 {
        0x07
    }

    open spec fn spec_state() -> State {
        State::Play
    }

    fn id(&self) -> (r: VarInt) {
        VarInt(0x07)
    }

    fn state(&self) -> (r: State) {
        State::Play
    }
}

/// 0x08 - Client Information (client settings), sent on entering Play and
/// whenever options change.
#[derive(Debug, Clone, PartialEq)]
pub struct C2SClientInformation {
    pub language: String,
    pub view_distance: i8,
    pub chat_visibility: VarInt,
    pub chat_colors: bool,
    pub skin_parts: u8,
    pub main_hand: VarInt,
    pub text_filtering_enabled: bool,
    pub allows_listing: bool,
}

/// The fields of [`C2SClientInformation`], in order.
impl Wire for C2SClientInformation {
    type Model = <(String, (i8, (VarInt, (bool, (u8, (VarInt, (bool, (bool, ())))))))) as Wire>::Model;

    open spec fn model(&self) -> Self::Model {
        (self.language.model(), (self.view_distance.model(), (self.chat_visibility.model(), (self.chat_colors.model(), (self.skin_parts.model(), (self.main_hand.model(), (self.text_filtering_enabled.model(), (self.allows_listing.model(), ()))))))))
    }

    open spec fn encodable(m: Self::Model) -> bool {
        <(String, (i8, (VarInt, (bool, (u8, (VarInt, (bool, (bool, ())))))))) as Wire>::encodable(m)
    }

    open spec fn greedy() -> bool {
        <(String, (i8, (VarInt, (bool, (u8, (VarInt, (bool, (bool, ())))))))) as Wire>::greedy()
    }

    open spec fn decodable() -> bool {
        <(String, (i8, (VarInt, (bool, (u8, (VarInt, (bool, (bool, ())))))))) as Wire>::decodable()
    }

    closed spec fn spec_write(m: Self::Model) -> Seq<u8> {
        <(String, (i8, (VarInt, (bool, (u8, (VarInt, (bool, (bool, ())))))))) as Wire>::spec_write(m)
    }

    closed spec fn spec_read(s: Seq<u8>) -> Result<(Self::Model, nat), DecodeError> {
        <(String, (i8, (VarInt, (bool, (u8, (VarInt, (bool, (bool, ())))))))) as Wire>::spec_read(s)
    }

    fn write(&self, out: &mut Vec<u8>) {
        let ghost o0 = out@;
        self.language.write(out);
        proof { lemma_write_step::<String, (i8, (VarInt, (bool, (u8, (VarInt, (bool, (bool, ())))))))>(o0, out@, self.language.model(), (self.view_distance.model(), (self.chat_visibility.model(), (self.chat_colors.model(), (self.skin_parts.model(), (self.main_hand.model(), (self.text_filtering_enabled.model(), (self.allows_listing.model(), ())))))))); }
        let ghost o1 = out@;
        self.view_distance.write(out);
        proof { lemma_write_step::<i8, (VarInt, (bool, (u8, (VarInt, (bool, (bool, ()))))))>(o1, out@, self.view_distance.model(), (self.chat_visibility.model(), (self.chat_colors.model(), (self.skin_parts.model(), (self.main_hand.model(), (self.text_filtering_enabled.model(), (self.allows_listing.model(), ()))))))); }
        let ghost o2 = out@;
        self.chat_visibility.write(out);
        proof { lemma_write_step::<VarInt, (bool, (u8, (VarInt, (bool, (bool, ())))))>(o2, out@, self.chat_visibility.model(), (self.chat_colors.model(), (self.skin_parts.model(), (self.main_hand.model(), (self.text_filtering_enabled.model(), (self.allows_listing.model(), ())))))); }
        let ghost o3 = out@;
        self.chat_colors.write(out);
        proof { lemma_write_step::<bool, (u8, (VarInt, (bool, (bool, ()))))>(o3, out@, self.chat_colors.model(), (self.skin_parts.model(), (self.main_hand.model(), (self.text_filtering_enabled.model(), (self.allows_listing.model(), ()))))); }
        let ghost o4 = out@;
        self.skin_parts.write(out);
        proof { lemma_write_step::<u8, (VarInt, (bool, (bool, ())))>(o4, out@, self.skin_parts.model(), (self.main_hand.model(), (self.text_filtering_enabled.model(), (self.allows_listing.model(), ())))); }
        let ghost o5 = out@;
        self.main_hand.write(out);
        proof { lemma_write_step::<VarInt, (bool, (bool, ()))>(o5, out@, self.main_hand.model(), (self.text_filtering_enabled.model(), (self.allows_listing.model(), ()))); }
        let ghost o6 = out@;
        self.text_filtering_enabled.write(out);
        proof { lemma_write_step::<bool, (bool, ())>(o6, out@, self.text_filtering_enabled.model(), (self.allows_listing.model(), ())); }
        let ghost o7 = out@;
        self.allows_listing.write(out);
        proof { lemma_write_step::<bool, ()>(o7, out@, self.allows_listing.model(), ()); }
        let ghost o8 = out@;
        assert(o8 + Seq::<u8>::empty() =~= o8);
    }

    fn read(buf: &[u8], pos: usize) -> (r: Result<(C2SClientInformation, usize), DecodeError>) {
        match <(String, (i8, (VarInt, (bool, (u8, (VarInt, (bool, (bool, ())))))))) as Wire>::read(buf, pos) {
            Ok(((language, (view_distance, (chat_visibility, (chat_colors, (skin_parts, (main_hand, (text_filtering_enabled, (allows_listing, ())))))))), end)) => Ok((C2SClientInformation { language, view_distance, chat_visibility, chat_colors, skin_parts, main_hand, text_filtering_enabled, allows_listing }, end)),
            Err(e) => Err(e),
        }
    }

    proof fn lemma_read_len(s: Seq<u8>) {
        <(String, (i8, (VarInt, (bool, (u8, (VarInt, (bool, (bool, ())))))))) as Wire>::lemma_read_len(s);
    }

    proof fn lemma_roundtrip(m: Self::Model, rest: Seq<u8>) {
        <(String, (i8, (VarInt, (bool, (u8, (VarInt, (bool, (bool, ())))))))) as Wire>::lemma_roundtrip(m, rest);
    }
}

impl Packet for C2SClientInformation {
    open spec fn spec_id() -> i32 {
        0x08
    }

    open spec fn spec_state() -> State {
        State::Play
    }

    fn id(&self) -> (r: VarInt) {
        VarInt(0x08)
    }

    fn state(&self) -> (r: State) {
        State::Play
    }
}

/// 0x09 - Command Suggestion (tab-complete request).
#[derive(Debug, Clone, PartialEq)]
pub struct C2SCommandSuggestion {
    pub transaction_id: VarInt,
    pub text: String,
}

/// The fields of [`C2SCommandSuggestion`], in order.
impl Wire for C2SCommandSuggestion {
    type Model = <(VarInt, (String, ())) as Wire>::Model;

    open spec fn model(&self) -> Self::Model {
        (self.transaction_id.model(), (self.text.model(), ()))
    }

    open spec fn encodable(m: Self::Model) -> bool {
        <(VarInt, (String, ())) as Wire>::encodable(m)
    }

    open spec fn greedy() -> bool {
        <(VarInt, (String, ())) as Wire>::greedy()
    }

    open spec fn decodable() -> bool {
        <(VarInt, (String, ())) as Wire>::decodable()
    }

    closed spec fn spec_write(m: Self::Model) -> Seq<u8> {
        <(VarInt, (String, ())) as Wire>::spec_write(m)
    }

    closed spec fn spec_read(s: Seq<u8>) -> Result<(Self::Model, nat), DecodeError> {
        <(VarInt, (String, ())) as Wire>::spec_read(s)
    }

    fn write(&self, out: &mut Vec<u8>) {
        let ghost o0 = out@;
        self.transaction_id.write(out);
        proof { lemma_write_step::<VarInt, (String, ())>(o0, out@, self.transaction_id.model(), (self.text.model(), ())); }
        let ghost o1 = out@;
        self.text.write(out);
        proof { lemma_write_step::<String, ()>(o1, out@, self.text.model(), ()); }
        let ghost o2 = out@;
        assert(o2 + Seq::<u8>::empty() =~= o2);
    }

    fn read(buf: &[u8], pos: usize) -> (r: Result<(C2SCommandSuggestion, usize), DecodeError>) {
        match <(VarInt, (String, ())) as Wire>::read(buf, pos) {
            Ok(((transaction_id, (text, ())), end)) => Ok((C2SCommandSuggestion { transaction_id, text }, end)),
            Err(e) => Err(e),
        }
    }

    proof fn lemma_read_len(s: Seq<u8>) {
        <(VarInt, (String, ())) as Wire>::lemma_read_len(s);
    }

    proof fn lemma_roundtrip(m: Self::Model, rest: Seq<u8>) {
        <(VarInt, (String, ())) as Wire>::lemma_roundtrip(m, rest);
    }
}

impl Packet for C2SCommandSuggestion {
    open spec fn spec_id() -> i32 {
        0x09
    }

    open spec fn spec_state() -> State {
        State::Play
    }

    fn id(&self) -> (r: VarInt) {
        VarInt(0x09)
    }

    fn state(&self) -> (r: State) {
        State::Play
    }
}

/// 0x0A - Click Container Button (enchant item).
#[derive(Debug, Clone, PartialEq)]
pub struct C2SEnchantItem {
    pub window_id: i8,
    pub enchantment: i8,
}

/// The fields of [`C2SEnchantItem`], in order.
impl Wire for C2SEnchantItem {
    type Model = <(i8, (i8, ())) as Wire>::Model;

    open spec fn model(&self) -> Self::Model {
        (self.window_id.model(), (self.enchantment.model(), ()))
    }

    open spec fn encodable(m: Self::Model) -> bool {
        <(i8, (i8, ())) as Wire>::encodable(m)
    }

    open spec fn greedy() -> bool {
        <(i8, (i8, ())) as Wire>::greedy()
    }

    open spec fn decodable() -> bool {
        <(i8, (i8, ())) as Wire>::decodable()
    }

    closed spec fn spec_write(m: Self::Model) -> Seq<u8> {
        <(i8, (i8, ())) as Wire>::spec_write(m)
    }

    closed spec fn spec_read(s: Seq<u8>) -> Result<(Self::Model, nat), DecodeError> {
        <(i8, (i8, ())) as Wire>::spec_read(s)
    }

    fn write(&self, out: &mut Vec<u8>) {
        let ghost o0 = out@;
        self.window_id.write(out);
        proof { lemma_write_step::<i8, (i8, ())>(o0, out@, self.window_id.model(), (self.enchantment.model(), ())); }
        let ghost o1 = out@;
        self.enchantment.write(out);
        proof { lemma_write_step::<i8, ()>(o1, out@, self.enchantment.model(), ()); }
        let ghost o2 = out@;
        assert(o2 + Seq::<u8>::empty() =~= o2);
    }

    fn read(buf: &[u8], pos: usize) -> (r: Result<(C2SEnchantItem, usize), DecodeError>) {
        match <(i8, (i8, ())) as Wire>::read(buf, pos) {
            Ok(((window_id, (enchantment, ())), end)) => Ok((C2SEnchantItem { window_id, enchantment }, end)),
            Err(e) => Err(e),
        }
    }

    proof fn lemma_read_len(s: Seq<u8>) {
        <(i8, (i8, ())) as Wire>::lemma_read_len(s);
    }

    proof fn lemma_roundtrip(m: Self::Model, rest: Seq<u8>) {
        <(i8, (i8, ())) as Wire>::lemma_roundtrip(m, rest);
    }
}

impl Packet for C2SEnchantItem {
    open spec fn spec_id() -> i32 {
        0x0A
    }

    open spec fn spec_state() -> State {
        State::Play
    }

    fn id(&self) -> (r: VarInt) {
        VarInt(0x0A)
    }

    fn state(&self) -> (r: State) {
        State::Play
    }
}

/// 0x0B - Click Container. The changed slots and carried item are kept as
/// raw bytes.
#[derive(Debug, Clone, PartialEq)]
pub struct C2SContainerClick {
    pub window_id: u8,
    pub state_id: VarInt,
    pub slot: i16,
    pub mouse_button: i8,
    pub mode: VarInt,
    pub rest: RawBytes,
}

/// The fields of [`C2SContainerClick`], in order.
impl Wire for C2SContainerClick {
    type Model = <(u8, (VarInt, (i16, (i8, (VarInt, (RawBytes, ())))))) as Wire>::Model;

    open spec fn model(&self) -> Self::Model {
        (self.window_id.model(), (self.state_id.model(), (self.slot.model(), (self.mouse_button.model(), (self.mode.model(), (self.rest.model(), ()))))))
    }

    open spec fn encodable(m: Self::Model) -> bool {
        <(u8, (VarInt, (i16, (i8, (VarInt, (RawBytes, ())))))) as Wire>::encodable(m)
    }

    open spec fn greedy() -> bool {
        <(u8, (VarInt, (i16, (i8, (VarInt, (RawBytes, ())))))) as Wire>::greedy()
    }

    open spec fn decodable() -> bool {
        <(u8, (VarInt, (i16, (i8, (VarInt, (RawBytes, ())))))) as Wire>::decodable()
    }

    closed spec fn spec_write(m: Self::Model) -> Seq<u8> {
        <(u8, (VarInt, (i16, (i8, (VarInt, (RawBytes, ())))))) as Wire>::spec_write(m)
    }

    closed spec fn spec_read(s: Seq<u8>) -> Result<(Self::Model, nat), DecodeError> {
        <(u8, (VarInt, (i16, (i8, (VarInt, (RawBytes, ())))))) as Wire>::spec_read(s)
    }

    fn write(&self, out: &mut Vec<u8>) {
        let ghost o0 = out@;
        self.window_id.write(out);
        proof { lemma_write_step::<u8, (VarInt, (i16, (i8, (VarInt, (RawBytes, ())))))>(o0, out@, self.window_id.model(), (self.state_id.model(), (self.slot.model(), (self.mouse_button.model(), (self.mode.model(), (self.rest.model(), ())))))); }
        let ghost o1 = out@;
        self.state_id.write(out);
        proof { lemma_write_step::<VarInt, (i16, (i8, (VarInt, (RawBytes, ()))))>(o1, out@, self.state_id.model(), (self.slot.model(), (self.mouse_button.model(), (self.mode.model(), (self.rest.model(), ()))))); }
        let ghost o2 = out@;
        self.slot.write(out);
        proof { lemma_write_step::<i16, (i8, (VarInt, (RawBytes, ())))>(o2, out@, self.slot.model(), (self.mouse_button.model(), (self.mode.model(), (self.rest.model(), ())))); }
        let ghost o3 = out@;
        self.mouse_button.write(out);
        proof { lemma_write_step::<i8, (VarInt, (RawBytes, ()))>(o3, out@, self.mouse_button.model(), (self.mode.model(), (self.rest.model(), ()))); }
        let ghost o4 = out@;
        self.mode.write(out);
        proof { lemma_write_step::<VarInt, (RawBytes, ())>(o4, out@, self.mode.model(), (self.rest.model(), ())); }
        let ghost o5 = out@;
        self.rest.write(out);
        proof { lemma_write_step::<RawBytes, ()>(o5, out@, self.rest.model(), ()); }
        let ghost o6 = out@;
        assert(o6 + Seq::<u8>::empty() =~= o6);
    }

    fn read(buf: &[u8], pos: usize) -> (r: Result<(C2SContainerClick, usize), DecodeError>) {
        match <(u8, (VarInt, (i16, (i8, (VarInt, (RawBytes, ())))))) as Wire>::read(buf, pos) {
            Ok(((window_id, (state_id, (slot, (mouse_button, (mode, (rest, ())))))), end)) => Ok((C2SContainerClick { window_id, state_id, slot, mouse_button, mode, rest }, end)),
            Err(e) => Err(e),
        }
    }

    proof fn lemma_read_len(s: Seq<u8>) {
        <(u8, (VarInt, (i16, (i8, (VarInt, (RawBytes, ())))))) as Wire>::lemma_read_len(s);
    }

    proof fn lemma_roundtrip(m: Self::Model, rest: Seq<u8>) {
        <(u8, (VarInt, (i16, (i8, (VarInt, (RawBytes, ())))))) as Wire>::lemma_roundtrip(m, rest);
    }
}

impl Packet for C2SContainerClick {
    open spec fn spec_id() -> i32 {
        0x0B
    }

    open spec fn spec_state() -> State {
        State::Play
    }

    fn id(&self) -> (r: VarInt) {
        VarInt(0x0B)
    }

    fn state(&self) -> (r: State) {
        State::Play
    }
}

/// 0x0C - Close Container.
#[derive(Debug, Clone, PartialEq)]
pub struct C2SContainerClose {
    pub window_id: u8,
}

/// The fields of [`C2SContainerClose`], in order.
impl Wire for C2SContainerClose {
    type Model = <(u8, ()) as Wire>::Model;

    open spec fn model(&self) -> Self::Model {
        (self.window_id.model(), ())
    }

    open spec fn encodable(m: Self::Model) -> bool {
        <(u8, ()) as Wire>::encodable(m)
    }

    open spec fn greedy() -> bool {
        <(u8, ()) as Wire>::greedy()
    }

    open spec fn decodable() -> bool {
        <(u8, ()) as Wire>::decodable()
    }

    closed spec fn spec_write(m: Self::Model) -> Seq<u8> {
        <(u8, ()) as Wire>::spec_write(m)
    }

    closed spec fn spec_read(s: Seq<u8>) -> Result<(Self::Model, nat), DecodeError> {
        <(u8, ()) as Wire>::spec_read(s)
    }

    fn write(&self, out: &mut Vec<u8>) {
        let ghost o0 = out@;
        self.window_id.write(out);
        proof { lemma_write_step::<u8, ()>(o0, out@, self.window_id.model(), ()); }
        let ghost o1 = out@;
        assert(o1 + Seq::<u8>::empty() =~= o1);
    }

    fn read(buf: &[u8], pos: usize) -> (r: Result<(C2SContainerClose, usize), DecodeError>) {
        match <(u8, ()) as Wire>::read(buf, pos) {
            Ok(((window_id, ()), end)) => Ok((C2SContainerClose { window_id }, end)),
            Err(e) => Err(e),
        }
    }

    proof fn lemma_read_len(s: Seq<u8>) {
        <(u8, ()) as Wire>::lemma_read_len(s);
    }

    proof fn lemma_roundtrip(m: Self::Model, rest: Seq<u8>) {
        <(u8, ()) as Wire>::lemma_roundtrip(m, rest);
    }
}

impl Packet for C2SContainerClose {
    open spec fn spec_id() -> i32 {
        0x0C
    }

    open spec fn spec_state() -> State {
        State::Play
    }

    fn id(&self) -> (r: VarInt) {
        VarInt(0x0C)
    }

    fn state(&self) -> (r: State) {
        State::Play
    }
}

/// 0x0D - Custom Payload (plugin message).
#[derive(Debug, Clone, PartialEq)]
pub struct C2SCustomPayload {
    pub channel: String,
    pub data: RawBytes,
}

/// The fields of [`C2SCustomPayload`], in order.
impl Wire for C2SCustomPayload {
    type Model = <(String, (RawBytes, ())) as Wire>::Model;

    open spec fn model(&self) -> Self::Model {
        (self.channel.model(), (self.data.model(), ()))
    }

    open spec fn encodable(m: Self::Model) -> bool {
        <(String, (RawBytes, ())) as Wire>::encodable(m)
    }

    open spec fn greedy() -> bool {
        <(String, (RawBytes, ())) as Wire>::greedy()
    }

    open spec fn decodable() -> bool {
        <(String, (RawBytes, ())) as Wire>::decodable()
    }

    closed spec fn spec_write(m: Self::Model) -> Seq<u8> {
        <(String, (RawBytes, ())) as Wire>::spec_write(m)
    }

    closed spec fn spec_read(s: Seq<u8>) -> Result<(Self::Model, nat), DecodeError> {
        <(String, (RawBytes, ())) as Wire>::spec_read(s)
    }

    fn write(&self, out: &mut Vec<u8>) {
        let ghost o0 = out@;
        self.channel.write(out);
        proof { lemma_write_step::<String, (RawBytes, ())>(o0, out@, self.channel.model(), (self.data.model(), ())); }
        let ghost o1 = out@;
        self.data.write(out);
        proof { lemma_write_step::<RawBytes, ()>(o1, out@, self.data.model(), ()); }
        let ghost o2 = out@;
        assert(o2 + Seq::<u8>::empty() =~= o2);
    }

    fn read(buf: &[u8], pos: usize) -> (r: Result<(C2SCustomPayload, usize), DecodeError>) {
        match <(String, (RawBytes, ())) as Wire>::read(buf, pos) {
            Ok(((channel, (data, ())), end)) => Ok((C2SCustomPayload { channel, data }, end)),
            Err(e) => Err(e),
        }
    }

    proof fn lemma_read_len(s: Seq<u8>) {
        <(String, (RawBytes, ())) as Wire>::lemma_read_len(s);
    }

    proof fn lemma_roundtrip(m: Self::Model, rest: Seq<u8>) {
        <(String, (RawBytes, ())) as Wire>::lemma_roundtrip(m, rest);
    }
}

impl Packet for C2SCustomPayload {
    open spec fn spec_id() -> i32 {
        0x0D
    }

    open spec fn spec_state() -> State {
        State::Play
    }

    fn id(&self) -> (r: VarInt) {
        VarInt(0x0D)
    }

    fn state(&self) -> (r: State) {
        State::Play
    }
}

/// 0x0E - Edit Book.
#[derive(Debug, Clone, PartialEq)]
pub struct C2SEditBook {
    pub hand: VarInt,
    pub pages: Vec<String>,
    pub title: Option<String>,
}

/// The fields of [`C2SEditBook`], in order.
impl Wire for C2SEditBook {
    type Model = <(VarInt, (Vec<String>, (Option<String>, ()))) as Wire>::Model;

    open spec fn model(&self) -> Self::Model {
        (self.hand.model(), (self.pages.model(), (self.title.model(), ())))
    }

    open spec fn encodable(m: Self::Model) -> bool {
        <(VarInt, (Vec<String>, (Option<String>, ()))) as Wire>::encodable(m)
    }

    open spec fn greedy() -> bool {
        <(VarInt, (Vec<String>, (Option<String>, ()))) as Wire>::greedy()
    }

    open spec fn decodable() -> bool {
        <(VarInt, (Vec<String>, (Option<String>, ()))) as Wire>::decodable()
    }

    closed spec fn spec_write(m: Self::Model) -> Seq<u8> {
        <(VarInt, (Vec<String>, (Option<String>, ()))) as Wire>::spec_write(m)
    }

    closed spec fn spec_read(s: Seq<u8>) -> Result<(Self::Model, nat), DecodeError> {
        <(VarInt, (Vec<String>, (Option<String>, ()))) as Wire>::spec_read(s)
    }

    fn write(&self, out: &mut Vec<u8>) {
        let ghost o0 = out@;
        self.hand.write(out);
        proof { lemma_write_step::<VarInt, (Vec<String>, (Option<String>, ()))>(o0, out@, self.hand.model(), (self.pages.model(), (self.title.model(), ()))); }
        let ghost o1 = out@;
        self.pages.write(out);
        proof { lemma_write_step::<Vec<String>, (Option<String>, ())>(o1, out@, self.pages.model(), (self.title.model(), ())); }
        let ghost o2 = out@;
        self.title.write(out);
        proof { lemma_write_step::<Option<String>, ()>(o2, out@, self.title.model(), ()); }
        let ghost o3 = out@;
        assert(o3 + Seq::<u8>::empty() =~= o3);
    }

    fn read(buf: &[u8], pos: usize) -> (r: Result<(C2SEditBook, usize), DecodeError>) {
        match <(VarInt, (Vec<String>, (Option<String>, ()))) as Wire>::read(buf, pos) {
            Ok(((hand, (pages, (title, ()))), end)) => Ok((C2SEditBook { hand, pages, title }, end)),
            Err(e) => Err(e),
        }
    }

    proof fn lemma_read_len(s: Seq<u8>) {
        <(VarInt, (Vec<String>, (Option<String>, ()))) as Wire>::lemma_read_len(s);
    }

    proof fn lemma_roundtrip(m: Self::Model, rest: Seq<u8>) {
        <(VarInt, (Vec<String>, (Option<String>, ()))) as Wire>::lemma_roundtrip(m, rest);
    }
}

impl Packet for C2SEditBook {
    open spec fn spec_id() -> i32 {
        0x0E
    }

    open spec fn spec_state() -> State {
        State::Play
    }

    fn id(&self) -> (r: VarInt) {
        VarInt(0x0E)
    }

    fn state(&self) -> (r: State) {
        State::Play
    }
}

/// 0x0F - Query Entity Tag.
#[derive(Debug, Clone, PartialEq)]
pub struct C2SQueryEntityNbt {
    pub transaction_id: VarInt,
    pub entity_id: VarInt,
}

/// The fields of [`C2SQueryEntityNbt`], in order.
impl Wire for C2SQueryEntityNbt {
    type Model = <(VarInt, (VarInt, ())) as Wire>::Model;

    open spec fn model(&self) -> Self::Model {
        (self.transaction_id.model(), (self.entity_id.model(), ()))
    }

    open spec fn encodable(m: Self::Model) -> bool {
        <(VarInt, (VarInt, ())) as Wire>::encodable(m)
    }

    open spec fn greedy() -> bool {
        <(VarInt, (VarInt, ())) as Wire>::greedy()
    }

    open spec fn decodable() -> bool {
        <(VarInt, (VarInt, ())) as Wire>::decodable()
    }

    closed spec fn spec_write(m: Self::Model) -> Seq<u8> {
        <(VarInt, (VarInt, ())) as Wire>::spec_write(m)
    }

    closed spec fn spec_read(s: Seq<u8>) -> Result<(Self::Model, nat), DecodeError> {
        <(VarInt, (VarInt, ())) as Wire>::spec_read(s)
    }

    fn write(&self, out: &mut Vec<u8>) {
        let ghost o0 = out@;
        self.transaction_id.write(out);
        proof { lemma_write_step::<VarInt, (VarInt, ())>(o0, out@, self.transaction_id.model(), (self.entity_id.model(), ())); }
        let ghost o1 = out@;
        self.entity_id.write(out);
        proof { lemma_write_step::<VarInt, ()>(o1, out@, self.entity_id.model(), ()); }
        let ghost o2 = out@;
        assert(o2 + Seq::<u8>::empty() =~= o2);
    }

    fn read(buf: &[u8], pos: usize) -> (r: Result<(C2SQueryEntityNbt, usize), DecodeError>) {
        match <(VarInt, (VarInt, ())) as Wire>::read(buf, pos) {
            Ok(((transaction_id, (entity_id, ())), end)) => Ok((C2SQueryEntityNbt { transaction_id, entity_id }, end)),
            Err(e) => Err(e),
        }
    }

    proof fn lemma_read_len(s: Seq<u8>) {
        <(VarInt, (VarInt, ())) as Wire>::lemma_read_len(s);
    }

    proof fn lemma_roundtrip(m: Self::Model, rest: Seq<u8>) {
        <(VarInt, (VarInt, ())) as Wire>::lemma_roundtrip(m, rest);
    }
}

impl Packet for C2SQueryEntityNbt {
    open spec fn spec_id() -> i32 {
        0x0F
    }

    open spec fn spec_state() -> State {
        State::Play
    }

    fn id(&self) -> (r: VarInt) {
        VarInt(0x0F)
    }

    fn state(&self) -> (r: State) {
        State::Play
    }
}

/// 0x10 - Interact; the action-dependent tail is kept as raw bytes.
#[derive(Debug, Clone, PartialEq)]
pub struct C2SInteract {
    pub target: VarInt,
    pub mouse: VarInt,
    pub rest: RawBytes,
}

/// The fields of [`C2SInteract`], in order.
impl Wire for C2SInteract {
    type Model = <(VarInt, (VarInt, (RawBytes, ()))) as Wire>::Model;

    open spec fn model(&self) -> Self::Model {
        (self.target.model(), (self.mouse.model(), (self.rest.model(), ())))
    }

    open spec fn encodable(m: Self::Model) -> bool {
        <(VarInt, (VarInt, (RawBytes, ()))) as Wire>::encodable(m)
    }

    open spec fn greedy() -> bool {
        <(VarInt, (VarInt, (RawBytes, ()))) as Wire>::greedy()
    }

    open spec fn decodable() -> bool {
        <(VarInt, (VarInt, (RawBytes, ()))) as Wire>::decodable()
    }

    closed spec fn spec_write(m: Self::Model) -> Seq<u8> {
        <(VarInt, (VarInt, (RawBytes, ()))) as Wire>::spec_write(m)
    }

    closed spec fn spec_read(s: Seq<u8>) -> Result<(Self::Model, nat), DecodeError> {
        <(VarInt, (VarInt, (RawBytes, ()))) as Wire>::spec_read(s)
    }

    fn write(&self, out: &mut Vec<u8>) {
        let ghost o0 = out@;
        self.target.write(out);
        proof { lemma_write_step::<VarInt, (VarInt, (RawBytes, ()))>(o0, out@, self.target.model(), (self.mouse.model(), (self.rest.model(), ()))); }
        let ghost o1 = out@;
        self.mouse.write(out);
        proof { lemma_write_step::<VarInt, (RawBytes, ())>(o1, out@, self.mouse.model(), (self.rest.model(), ())); }
        let ghost o2 = out@;
        self.rest.write(out);
        proof { lemma_write_step::<RawBytes, ()>(o2, out@, self.rest.model(), ()); }
        let ghost o3 = out@;
        assert(o3 + Seq::<u8>::empty() =~= o3);
    }

    fn read(buf: &[u8], pos: usize) -> (r: Result<(C2SInteract, usize), DecodeError>) {
        match <(VarInt, (VarInt, (RawBytes, ()))) as Wire>::read(buf, pos) {
            Ok(((target, (mouse, (rest, ()))), end)) => Ok((C2SInteract { target, mouse, rest }, end)),
            Err(e) => Err(e),
        }
    }

    proof fn lemma_read_len(s: Seq<u8>) {
        <(VarInt, (VarInt, (RawBytes, ()))) as Wire>::lemma_read_len(s);
    }

    proof fn lemma_roundtrip(m: Self::Model, rest: Seq<u8>) {
        <(VarInt, (VarInt, (RawBytes, ()))) as Wire>::lemma_roundtrip(m, rest);
    }
}

impl Packet for C2SInteract {
    open spec fn spec_id() -> i32 {
        0x10
    }

    open spec fn spec_state() -> State {
        State::Play
    }

    fn id(&self) -> (r: VarInt) {
        VarInt(0x10)
    }

    fn state(&self) -> (r: State) {
        State::Play
    }
}

/// 0x11 - Jigsaw Generate.
#[derive(Debug, Clone, PartialEq)]
pub struct C2SGenerateStructure {
    pub location: BlockPos,
    pub levels: VarInt,
    pub keep_jigsaws: bool,
}

/// The fields of [`C2SGenerateStructure`], in order.
impl Wire for C2SGenerateStructure {
    type Model = <(BlockPos, (VarInt, (bool, ()))) as Wire>::Model;

    open spec fn model(&self) -> Self::Model {
        (self.location.model(), (self.levels.model(), (self.keep_jigsaws.model(), ())))
    }

    open spec fn encodable(m: Self::Model) -> bool {
        <(BlockPos, (VarInt, (bool, ()))) as Wire>::encodable(m)
    }

    open spec fn greedy() -> bool {
        <(BlockPos, (VarInt, (bool, ()))) as Wire>::greedy()
    }

    open spec fn decodable() -> bool {
        <(BlockPos, (VarInt, (bool, ()))) as Wire>::decodable()
    }

    closed spec fn spec_write(m: Self::Model) -> Seq<u8> {
        <(BlockPos, (VarInt, (bool, ()))) as Wire>::spec_write(m)
    }

    closed spec fn spec_read(s: Seq<u8>) -> Result<(Self::Model, nat), DecodeError> {
        <(BlockPos, (VarInt, (bool, ()))) as Wire>::spec_read(s)
    }

    fn write(&self, out: &mut Vec<u8>) {
        let ghost o0 = out@;
        self.location.write(out);
        proof { lemma_write_step::<BlockPos, (VarInt, (bool, ()))>(o0, out@, self.location.model(), (self.levels.model(), (self.keep_jigsaws.model(), ()))); }
        let ghost o1 = out@;
        self.levels.write(out);
        proof { lemma_write_step::<VarInt, (bool, ())>(o1, out@, self.levels.model(), (self.keep_jigsaws.model(), ())); }
        let ghost o2 = out@;
        self.keep_jigsaws.write(out);
        proof { lemma_write_step::<bool, ()>(o2, out@, self.keep_jigsaws.model(), ()); }
        let ghost o3 = out@;
        assert(o3 + Seq::<u8>::empty() =~= o3);
    }

    fn read(buf: &[u8], pos: usize) -> (r: Result<(C2SGenerateStructure, usize), DecodeError>) {
        match <(BlockPos, (VarInt, (bool, ()))) as Wire>::read(buf, pos) {
            Ok(((location, (levels, (keep_jigsaws, ()))), end)) => Ok((C2SGenerateStructure { location, levels, keep_jigsaws }, end)),
            Err(e) => Err(e),
        }
    }

    proof fn lemma_read_len(s: Seq<u8>) {
        <(BlockPos, (VarInt, (bool, ()))) as Wire>::lemma_read_len(s);
    }

    proof fn lemma_roundtrip(m: Self::Model, rest: Seq<u8>) {
        <(BlockPos, (VarInt, (bool, ()))) as Wire>::lemma_roundtrip(m, rest);
    }
}

impl Packet for C2SGenerateStructure {
    open spec fn spec_id() -> i32 {
        0x11
    }

    open spec fn spec_state() -> State {
        State::Play
    }

    fn id(&self) -> (r: VarInt) {
        VarInt(0x11)
    }

    fn state(&self) -> (r: State) {
        State::Play
    }
}

/// 0x12 - Keep Alive: the client's reply to a server keep-alive.
#[derive(Debug, Clone, PartialEq)]
pub struct C2SKeepAlive {
    pub id: i64,
}

/// The fields of [`C2SKeepAlive`], in order.
impl Wire for C2SKeepAlive {
    type Model = <(i64, ()) as Wire>::Model;

    open spec fn model(&self) -> Self::Model {
        (self.id.model(), ())
    }

    open spec fn encodable(m: Self::Model) -> bool {
        <(i64, ()) as Wire>::encodable(m)
    }

    open spec fn greedy() -> bool {
        <(i64, ()) as Wire>::greedy()
    }

    open spec fn decodable() -> bool {
        <(i64, ()) as Wire>::decodable()
    }

    closed spec fn spec_write(m: Self::Model) -> Seq<u8> {
        <(i64, ()) as Wire>::spec_write(m)
    }

    closed spec fn spec_read(s: Seq<u8>) -> Result<(Self::Model, nat), DecodeError> {
        <(i64, ()) as Wire>::spec_read(s)
    }

    fn write(&self, out: &mut Vec<u8>) {
        let ghost o0 = out@;
        self.id.write(out);
        proof { lemma_write_step::<i64, ()>(o0, out@, self.id.model(), ()); }
        let ghost o1 = out@;
        assert(o1 + Seq::<u8>::empty() =~= o1);
    }

    fn read(buf: &[u8], pos: usize) -> (r: Result<(C2SKeepAlive, usize), DecodeError>) {
        match <(i64, ()) as Wire>::read(buf, pos) {
            Ok(((id, ()), end)) => Ok((C2SKeepAlive { id }, end)),
            Err(e) => Err(e),
        }
    }

    proof fn lemma_read_len(s: Seq<u8>) {
        <(i64, ()) as Wire>::lemma_read_len(s);
    }

    proof fn lemma_roundtrip(m: Self::Model, rest: Seq<u8>) {
        <(i64, ()) as Wire>::lemma_roundtrip(m, rest);
    }
}

impl Packet for C2SKeepAlive {
    open spec fn spec_id() -> i32 {
        0x12
    }

    open spec fn spec_state() -> State {
        State::Play
    }

    fn id(&self) -> (r: VarInt) {
        VarInt(0x12)
    }

    fn state(&self) -> (r: State) {
        State::Play
    }
}

/// 0x13 - Lock Difficulty.
#[derive(Debug, Clone, PartialEq)]
pub struct C2SLockDifficulty {
    pub locked: bool,
}

/// The fields of [`C2SLockDifficulty`], in order.
impl Wire for C2SLockDifficulty {
    type Model = <(bool, ()) as Wire>::Model;

    open spec fn model(&self) -> Self::Model {
        (self.locked.model(), ())
    }

    open spec fn encodable(m: Self::Model) -> bool {
        <(bool, ()) as Wire>::encodable(m)
    }

    open spec fn greedy() -> bool {
        <(bool, ()) as Wire>::greedy()
    }

    open spec fn decodable() -> bool {
        <(bool, ()) as Wire>::decodable()
    }

    closed spec fn spec_write(m: Self::Model) -> Seq<u8> {
        <(bool, ()) as Wire>::spec_write(m)
    }

    closed spec fn spec_read(s: Seq<u8>) -> Result<(Self::Model, nat), DecodeError> {
        <(bool, ()) as Wire>::spec_read(s)
    }

    fn write(&self, out: &mut Vec<u8>) {
        let ghost o0 = out@;
        self.locked.write(out);
        proof { lemma_write_step::<bool, ()>(o0, out@, self.locked.model(), ()); }
        let ghost o1 = out@;
        assert(o1 + Seq::<u8>::empty() =~= o1);
    }

    fn read(buf: &[u8], pos: usize) -> (r: Result<(C2SLockDifficulty, usize), DecodeError>) {
        match <(bool, ()) as Wire>::read(buf, pos) {
            Ok(((locked, ()), end)) => Ok((C2SLockDifficulty { locked }, end)),
            Err(e) => Err(e),
        }
    }

    proof fn lemma_read_len(s: Seq<u8>) {
        <(bool, ()) as Wire>::lemma_read_len(s);
    }

    proof fn lemma_roundtrip(m: Self::Model, rest: Seq<u8>) {
        <(bool, ()) as Wire>::lemma_roundtrip(m, rest);
    }
}

impl Packet for C2SLockDifficulty {
    open spec fn spec_id() -> i32 {
        0x13
    }

    open spec fn spec_state() -> State {
        State::Play
    }

    fn id(&self) -> (r: VarInt) {
        VarInt(0x13)
    }

    fn state(&self) -> (r: State) {
        State::Play
    }
}

/// 0x14 - Move Player Pos. `x`, `y`, `z` hold the IEEE-754 bits of `f64`s.
#[derive(Debug, Clone, PartialEq)]
pub struct C2SPlayerPos {
    pub x: u64,
    pub y: u64,
    pub z: u64,
    pub on_ground: bool,
}

/// The fields of [`C2SPlayerPos`], in order.
impl Wire for C2SPlayerPos {
    type Model = <(u64, (u64, (u64, (bool, ())))) as Wire>::Model;

    open spec fn model(&self) -> Self::Model {
        (self.x.model(), (self.y.model(), (self.z.model(), (self.on_ground.model(), ()))))
    }

    open spec fn encodable(m: Self::Model) -> bool {
        <(u64, (u64, (u64, (bool, ())))) as Wire>::encodable(m)
    }

    open spec fn greedy() -> bool {
        <(u64, (u64, (u64, (bool, ())))) as Wire>::greedy()
    }

    open spec fn decodable() -> bool {
        <(u64, (u64, (u64, (bool, ())))) as Wire>::decodable()
    }

    closed spec fn spec_write(m: Self::Model) -> Seq<u8> {
        <(u64, (u64, (u64, (bool, ())))) as Wire>::spec_write(m)
    }

    closed spec fn spec_read(s: Seq<u8>) -> Result<(Self::Model, nat), DecodeError> {
        <(u64, (u64, (u64, (bool, ())))) as Wire>::spec_read(s)
    }

    fn write(&self, out: &mut Vec<u8>) {
        let ghost o0 = out@;
        self.x.write(out);
        proof { lemma_write_step::<u64, (u64, (u64, (bool, ())))>(o0, out@, self.x.model(), (self.y.model(), (self.z.model(), (self.on_ground.model(), ())))); }
        let ghost o1 = out@;
        self.y.write(out);
        proof { lemma_write_step::<u64, (u64, (bool, ()))>(o1, out@, self.y.model(), (self.z.model(), (self.on_ground.model(), ()))); }
        let ghost o2 = out@;
        self.z.write(out);
        proof { lemma_write_step::<u64, (bool, ())>(o2, out@, self.z.model(), (self.on_ground.model(), ())); }
        let ghost o3 = out@;
        self.on_ground.write(out);
        proof { lemma_write_step::<bool, ()>(o3, out@, self.on_ground.model(), ()); }
        let ghost o4 = out@;
        assert(o4 + Seq::<u8>::empty() =~= o4);
    }

    fn read(buf: &[u8], pos: usize) -> (r: Result<(C2SPlayerPos, usize), DecodeError>) {
        match <(u64, (u64, (u64, (bool, ())))) as Wire>::read(buf, pos) {
            Ok(((x, (y, (z, (on_ground, ())))), end)) => Ok((C2SPlayerPos { x, y, z, on_ground }, end)),
            Err(e) => Err(e),
        }
    }

    proof fn lemma_read_len(s: Seq<u8>) {
        <(u64, (u64, (u64, (bool, ())))) as Wire>::lemma_read_len(s);
    }

    proof fn lemma_roundtrip(m: Self::Model, rest: Seq<u8>) {
        <(u64, (u64, (u64, (bool, ())))) as Wire>::lemma_roundtrip(m, rest);
    }
}

impl Packet for C2SPlayerPos {
    open spec fn spec_id() -> i32 {
        0x14
    }

    open spec fn spec_state() -> State {
        State::Play
    }

    fn id(&self) -> (r: VarInt) {
        VarInt(0x14)
    }

    fn state(&self) -> (r: State) {
        State::Play
    }
}

/// 0x15 - Move Player Pos Rot. Coordinates hold `f64` bits, rotations `f32`
/// bits.
#[derive(Debug, Clone, PartialEq)]
pub struct C2SPlayerPosRot {
    pub x: u64,
    pub y: u64,
    pub z: u64,
    pub y_rot: u32,
    pub x_rot: u32,
    pub on_ground: bool,
}

/// The fields of [`C2SPlayerPosRot`], in order.
impl Wire for C2SPlayerPosRot {
    type Model = <(u64, (u64, (u64, (u32, (u32, (bool, ())))))) as Wire>::Model;

    open spec fn model(&self) -> Self::Model {
        (self.x.model(), (self.y.model(), (self.z.model(), (self.y_rot.model(), (self.x_rot.model(), (self.on_ground.model(), ()))))))
    }

    open spec fn encodable(m: Self::Model) -> bool {
        <(u64, (u64, (u64, (u32, (u32, (bool, ())))))) as Wire>::encodable(m)
    }

    open spec fn greedy() -> bool {
        <(u64, (u64, (u64, (u32, (u32, (bool, ())))))) as Wire>::greedy()
    }

    open spec fn decodable() -> bool {
        <(u64, (u64, (u64, (u32, (u32, (bool, ())))))) as Wire>::decodable()
    }

    closed spec fn spec_write(m: Self::Model) -> Seq<u8> {
        <(u64, (u64, (u64, (u32, (u32, (bool, ())))))) as Wire>::spec_write(m)
    }

    closed spec fn spec_read(s: Seq<u8>) -> Result<(Self::Model, nat), DecodeError> {
        <(u64, (u64, (u64, (u32, (u32, (bool, ())))))) as Wire>::spec_read(s)
    }

    fn write(&self, out: &mut Vec<u8>) {
        let ghost o0 = out@;
        self.x.write(out);
        proof { lemma_write_step::<u64, (u64, (u64, (u32, (u32, (bool, ())))))>(o0, out@, self.x.model(), (self.y.model(), (self.z.model(), (self.y_rot.model(), (self.x_rot.model(), (self.on_ground.model(), ())))))); }
        let ghost o1 = out@;
        self.y.write(out);
        proof { lemma_write_step::<u64, (u64, (u32, (u32, (bool, ()))))>(o1, out@, self.y.model(), (self.z.model(), (self.y_rot.model(), (self.x_rot.model(), (self.on_ground.model(), ()))))); }
        let ghost o2 = out@;
        self.z.write(out);
        proof { lemma_write_step::<u64, (u32, (u32, (bool, ())))>(o2, out@, self.z.model(), (self.y_rot.model(), (self.x_rot.model(), (self.on_ground.model(), ())))); }
        let ghost o3 = out@;
        self.y_rot.write(out);
        proof { lemma_write_step::<u32, (u32, (bool, ()))>(o3, out@, self.y_rot.model(), (self.x_rot.model(), (self.on_ground.model(), ()))); }
        let ghost o4 = out@;
        self.x_rot.write(out);
        proof { lemma_write_step::<u32, (bool, ())>(o4, out@, self.x_rot.model(), (self.on_ground.model(), ())); }
        let ghost o5 = out@;
        self.on_ground.write(out);
        proof { lemma_write_step::<bool, ()>(o5, out@, self.on_ground.model(), ()); }
        let ghost o6 = out@;
        assert(o6 + Seq::<u8>::empty() =~= o6);
    }

    fn read(buf: &[u8], pos: usize) -> (r: Result<(C2SPlayerPosRot, usize), DecodeError>) {
        match <(u64, (u64, (u64, (u32, (u32, (bool, ())))))) as Wire>::read(buf, pos) {
            Ok(((x, (y, (z, (y_rot, (x_rot, (on_ground, ())))))), end)) => Ok((C2SPlayerPosRot { x, y, z, y_rot, x_rot, on_ground }, end)),
            Err(e) => Err(e),
        }
    }

    proof fn lemma_read_len(s: Seq<u8>) {
        <(u64, (u64, (u64, (u32, (u32, (bool, ())))))) as Wire>::lemma_read_len(s);
    }

    proof fn lemma_roundtrip(m: Self::Model, rest: Seq<u8>) {
        <(u64, (u64, (u64, (u32, (u32, (bool, ())))))) as Wire>::lemma_roundtrip(m, rest);
    }
}

impl Packet for C2SPlayerPosRot {
    open spec fn spec_id() -> i32 {
        0x15
    }

    open spec fn spec_state() -> State {
        State::Play
    }

    fn id(&self) -> (r: VarInt) {
        VarInt(0x15)
    }

    fn state(&self) -> (r: State) {
        State::Play
    }
}

/// 0x16 - Move Player Rot. Rotations hold `f32` bits.
#[derive(Debug, Clone, PartialEq)]
pub struct C2SPlayerRot {
    pub y_rot: u32,
    pub x_rot: u32,
    pub on_ground: bool,
}

/// The fields of [`C2SPlayerRot`], in order.
impl Wire for C2SPlayerRot {
    type Model = <(u32, (u32, (bool, ()))) as Wire>::Model;

    open spec fn model(&self) -> Self::Model {
        (self.y_rot.model(), (self.x_rot.model(), (self.on_ground.model(), ())))
    }

    open spec fn encodable(m: Self::Model) -> bool {
        <(u32, (u32, (bool, ()))) as Wire>::encodable(m)
    }

    open spec fn greedy() -> bool {
        <(u32, (u32, (bool, ()))) as Wire>::greedy()
    }

    open spec fn decodable() -> bool {
        <(u32, (u32, (bool, ()))) as Wire>::decodable()
    }

    closed spec fn spec_write(m: Self::Model) -> Seq<u8> {
        <(u32, (u32, (bool, ()))) as Wire>::spec_write(m)
    }

    closed spec fn spec_read(s: Seq<u8>) -> Result<(Self::Model, nat), DecodeError> {
        <(u32, (u32, (bool, ()))) as Wire>::spec_read(s)
    }

    fn write(&self, out: &mut Vec<u8>) {
        let ghost o0 = out@;
        self.y_rot.write(out);
        proof { lemma_write_step::<u32, (u32, (bool, ()))>(o0, out@, self.y_rot.model(), (self.x_rot.model(), (self.on_ground.model(), ()))); }
        let ghost o1 = out@;
        self.x_rot.write(out);
        proof { lemma_write_step::<u32, (bool, ())>(o1, out@, self.x_rot.model(), (self.on_ground.model(), ())); }
        let ghost o2 = out@;
        self.on_ground.write(out);
        proof { lemma_write_step::<bool, ()>(o2, out@, self.on_ground.model(), ()); }
        let ghost o3 = out@;
        assert(o3 + Seq::<u8>::empty() =~= o3);
    }

    fn read(buf: &[u8], pos: usize) -> (r: Result<(C2SPlayerRot, usize), DecodeError>) {
        match <(u32, (u32, (bool, ()))) as Wire>::read(buf, pos) {
            Ok(((y_rot, (x_rot, (on_ground, ()))), end)) => Ok((C2SPlayerRot { y_rot, x_rot, on_ground }, end)),
            Err(e) => Err(e),
        }
    }

    proof fn lemma_read_len(s: Seq<u8>) {
        <(u32, (u32, (bool, ()))) as Wire>::lemma_read_len(s);
    }

    proof fn lemma_roundtrip(m: Self::Model, rest: Seq<u8>) {
        <(u32, (u32, (bool, ()))) as Wire>::lemma_roundtrip(m, rest);
    }
}

impl Packet for C2SPlayerRot {
    open spec fn spec_id() -> i32 {
        0x16
    }

    open spec fn spec_state() -> State {
        State::Play
    }

    fn id(&self) -> (r: VarInt) {
        VarInt(0x16)
    }

    fn state(&self) -> (r: State) {
        State::Play
    }
}

/// 0x17 - Move Player Status Only.
#[derive(Debug, Clone, PartialEq)]
pub struct C2SPlayerStatusOnly {
    pub on_ground: bool,
}

/// The fields of [`C2SPlayerStatusOnly`], in order.
impl Wire for C2SPlayerStatusOnly {
    type Model = <(bool, ()) as Wire>::Model;

    open spec fn model(&self) -> Self::Model {
        (self.on_ground.model(), ())
    }

    open spec fn encodable(m: Self::Model) -> bool {
        <(bool, ()) as Wire>::encodable(m)
    }

    open spec fn greedy() -> bool {
        <(bool, ()) as Wire>::greedy()
    }

    open spec fn decodable() -> bool {
        <(bool, ()) as Wire>::decodable()
    }

    closed spec fn spec_write(m: Self::Model) -> Seq<u8> {
        <(bool, ()) as Wire>::spec_write(m)
    }

    closed spec fn spec_read(s: Seq<u8>) -> Result<(Self::Model, nat), DecodeError> {
        <(bool, ()) as Wire>::spec_read(s)
    }

    fn write(&self, out: &mut Vec<u8>) {
        let ghost o0 = out@;
        self.on_ground.write(out);
        proof { lemma_write_step::<bool, ()>(o0, out@, self.on_ground.model(), ()); }
        let ghost o1 = out@;
        assert(o1 + Seq::<u8>::empty() =~= o1);
    }

    fn read(buf: &[u8], pos: usize) -> (r: Result<(C2SPlayerStatusOnly, usize), DecodeError>) {
        match <(bool, ()) as Wire>::read(buf, pos) {
            Ok(((on_ground, ()), end)) => Ok((C2SPlayerStatusOnly { on_ground }, end)),
            Err(e) => Err(e),
        }
    }

    proof fn lemma_read_len(s: Seq<u8>) {
        <(bool, ()) as Wire>::lemma_read_len(s);
    }

    proof fn lemma_roundtrip(m: Self::Model, rest: Seq<u8>) {
        <(bool, ()) as Wire>::lemma_roundtrip(m, rest);
    }
}

impl Packet for C2SPlayerStatusOnly {
    open spec fn spec_id() -> i32 {
        0x17
    }

    open spec fn spec_state() -> State {
        State::Play
    }

    fn id(&self) -> (r: VarInt) {
        VarInt(0x17)
    }

    fn state(&self) -> (r: State) {
        State::Play
    }
}

/// 0x18 - Move Vehicle. Coordinates hold `f64` bits, rotations `f32` bits.
#[derive(Debug, Clone, PartialEq)]
pub struct C2SMoveVehicle {
    pub x: u64,
    pub y: u64,
    pub z: u64,
    pub y_rot: u32,
    pub x_rot: u32,
}

/// The fields of [`C2SMoveVehicle`], in order.
impl Wire for C2SMoveVehicle {
    type Model = <(u64, (u64, (u64, (u32, (u32, ()))))) as Wire>::Model;

    open spec fn model(&self) -> Self::Model {
        (self.x.model(), (self.y.model(), (self.z.model(), (self.y_rot.model(), (self.x_rot.model(), ())))))
    }

    open spec fn encodable(m: Self::Model) -> bool {
        <(u64, (u64, (u64, (u32, (u32, ()))))) as Wire>::encodable(m)
    }

    open spec fn greedy() -> bool {
        <(u64, (u64, (u64, (u32, (u32, ()))))) as Wire>::greedy()
    }

    open spec fn decodable() -> bool {
        <(u64, (u64, (u64, (u32, (u32, ()))))) as Wire>::decodable()
    }

    closed spec fn spec_write(m: Self::Model) -> Seq<u8> {
        <(u64, (u64, (u64, (u32, (u32, ()))))) as Wire>::spec_write(m)
    }

    closed spec fn spec_read(s: Seq<u8>) -> Result<(Self::Model, nat), DecodeError> {
        <(u64, (u64, (u64, (u32, (u32, ()))))) as Wire>::spec_read(s)
    }

    fn write(&self, out: &mut Vec<u8>) {
        let ghost o0 = out@;
        self.x.write(out);
        proof { lemma_write_step::<u64, (u64, (u64, (u32, (u32, ()))))>(o0, out@, self.x.model(), (self.y.model(), (self.z.model(), (self.y_rot.model(), (self.x_rot.model(), ()))))); }
        let ghost o1 = out@;
        self.y.write(out);
        proof { lemma_write_step::<u64, (u64, (u32, (u32, ())))>(o1, out@, self.y.model(), (self.z.model(), (self.y_rot.model(), (self.x_rot.model(), ())))); }
        let ghost o2 = out@;
        self.z.write(out);
        proof { lemma_write_step::<u64, (u32, (u32, ()))>(o2, out@, self.z.model(), (self.y_rot.model(), (self.x_rot.model(), ()))); }
        let ghost o3 = out@;
        self.y_rot.write(out);
        proof { lemma_write_step::<u32, (u32, ())>(o3, out@, self.y_rot.model(), (self.x_rot.model(), ())); }
        let ghost o4 = out@;
        self.x_rot.write(out);
        proof { lemma_write_step::<u32, ()>(o4, out@, self.x_rot.model(), ()); }
        let ghost o5 = out@;
        assert(o5 + Seq::<u8>::empty() =~= o5);
    }

    fn read(buf: &[u8], pos: usize) -> (r: Result<(C2SMoveVehicle, usize), DecodeError>) {
        match <(u64, (u64, (u64, (u32, (u32, ()))))) as Wire>::read(buf, pos) {
            Ok(((x, (y, (z, (y_rot, (x_rot, ()))))), end)) => Ok((C2SMoveVehicle { x, y, z, y_rot, x_rot }, end)),
            Err(e) => Err(e),
        }
    }

    proof fn lemma_read_len(s: Seq<u8>) {
        <(u64, (u64, (u64, (u32, (u32, ()))))) as Wire>::lemma_read_len(s);
    }

    proof fn lemma_roundtrip(m: Self::Model, rest: Seq<u8>) {
        <(u64, (u64, (u64, (u32, (u32, ()))))) as Wire>::lemma_roundtrip(m, rest);
    }
}

impl Packet for C2SMoveVehicle {
    open spec fn spec_id() -> i32 {
        0x18
    }

    open spec fn spec_state() -> State {
        State::Play
    }

    fn id(&self) -> (r: VarInt) {
        VarInt(0x18)
    }

    fn state(&self) -> (r: State) {
        State::Play
    }
}

/// 0x19 - Paddle Boat.
#[derive(Debug, Clone, PartialEq)]
pub struct C2SPaddleBoat {
    pub left_paddle: bool,
    pub right_paddle: bool,
}

/// The fields of [`C2SPaddleBoat`], in order.
impl Wire for C2SPaddleBoat {
    type Model = <(bool, (bool, ())) as Wire>::Model;

    open spec fn model(&self) -> Self::Model {
        (self.left_paddle.model(), (self.right_paddle.model(), ()))
    }

    open spec fn encodable(m: Self::Model) -> bool {
        <(bool, (bool, ())) as Wire>::encodable(m)
    }

    open spec fn greedy() -> bool {
        <(bool, (bool, ())) as Wire>::greedy()
    }

    open spec fn decodable() -> bool {
        <(bool, (bool, ())) as Wire>::decodable()
    }

    closed spec fn spec_write(m: Self::Model) -> Seq<u8> {
        <(bool, (bool, ())) as Wire>::spec_write(m)
    }

    closed spec fn spec_read(s: Seq<u8>) -> Result<(Self::Model, nat), DecodeError> {
        <(bool, (bool, ())) as Wire>::spec_read(s)
    }

    fn write(&self, out: &mut Vec<u8>) {
        let ghost o0 = out@;
        self.left_paddle.write(out);
        proof { lemma_write_step::<bool, (bool, ())>(o0, out@, self.left_paddle.model(), (self.right_paddle.model(), ())); }
        let ghost o1 = out@;
        self.right_paddle.write(out);
        proof { lemma_write_step::<bool, ()>(o1, out@, self.right_paddle.model(), ()); }
        let ghost o2 = out@;
        assert(o2 + Seq::<u8>::empty() =~= o2);
    }

    fn read(buf: &[u8], pos: usize) -> (r: Result<(C2SPaddleBoat, usize), DecodeError>) {
        match <(bool, (bool, ())) as Wire>::read(buf, pos) {
            Ok(((left_paddle, (right_paddle, ())), end)) => Ok((C2SPaddleBoat { left_paddle, right_paddle }, end)),
            Err(e) => Err(e),
        }
    }

    proof fn lemma_read_len(s: Seq<u8>) {
        <(bool, (bool, ())) as Wire>::lemma_read_len(s);
    }

    proof fn lemma_roundtrip(m: Self::Model, rest: Seq<u8>) {
        <(bool, (bool, ())) as Wire>::lemma_roundtrip(m, rest);
    }
}

impl Packet for C2SPaddleBoat {
    open spec fn spec_id() -> i32 {
        0x19
    }

    open spec fn spec_state() -> State {
        State::Play
    }

    fn id(&self) -> (r: VarInt) {
        VarInt(0x19)
    }

    fn state(&self) -> (r: State) {
        State::Play
    }
}

/// 0x1A - Pick Item.
#[derive(Debug, Clone, PartialEq)]
pub struct C2SPickItem {
    pub slot: VarInt,
}

/// The fields of [`C2SPickItem`], in order.
impl Wire for C2SPickItem {
    type Model = <(VarInt, ()) as Wire>::Model;

    open spec fn model(&self) -> Self::Model {
        (self.slot.model(), ())
    }

    open spec fn encodable(m: Self::Model) -> bool {
        <(VarInt, ()) as Wire>::encodable(m)
    }

    open spec fn greedy() -> bool {
        <(VarInt, ()) as Wire>::greedy()
    }

    open spec fn decodable() -> bool {
        <(VarInt, ()) as Wire>::decodable()
    }

    closed spec fn spec_write(m: Self::Model) -> Seq<u8> {
        <(VarInt, ()) as Wire>::spec_write(m)
    }

    closed spec fn spec_read(s: Seq<u8>) -> Result<(Self::Model, nat), DecodeError> {
        <(VarInt, ()) as Wire>::spec_read(s)
    }

    fn write(&self, out: &mut Vec<u8>) {
        let ghost o0 = out@;
        self.slot.write(out);
        proof { lemma_write_step::<VarInt, ()>(o0, out@, self.slot.model(), ()); }
        let ghost o1 = out@;
        assert(o1 + Seq::<u8>::empty() =~= o1);
    }

    fn read(buf: &[u8], pos: usize) -> (r: Result<(C2SPickItem, usize), DecodeError>) {
        match <(VarInt, ()) as Wire>::read(buf, pos) {
            Ok(((slot, ()), end)) => Ok((C2SPickItem { slot }, end)),
            Err(e) => Err(e),
        }
    }

    proof fn lemma_read_len(s: Seq<u8>) {
        <(VarInt, ()) as Wire>::lemma_read_len(s);
    }

    proof fn lemma_roundtrip(m: Self::Model, rest: Seq<u8>) {
        <(VarInt, ()) as Wire>::lemma_roundtrip(m, rest);
    }
}

impl Packet for C2SPickItem {
    open spec fn spec_id() -> i32 {
        0x1A
    }

    open spec fn spec_state() -> State {
        State::Play
    }

    fn id(&self) -> (r: VarInt) {
        VarInt(0x1A)
    }

    fn state(&self) -> (r: State) {
        State::Play
    }
}

/// 0x1B - Place Recipe.
#[derive(Debug, Clone, PartialEq)]
pub struct C2SPlaceRecipe {
    pub window_id: i8,
    pub recipe: String,
    pub make_all: bool,
}

/// The fields of [`C2SPlaceRecipe`], in order.
impl Wire for C2SPlaceRecipe {
    type Model = <(i8, (String, (bool, ()))) as Wire>::Model;

    open spec fn model(&self) -> Self::Model {
        (self.window_id.model(), (self.recipe.model(), (self.make_all.model(), ())))
    }

    open spec fn encodable(m: Self::Model) -> bool {
        <(i8, (String, (bool, ()))) as Wire>::encodable(m)
    }

    open spec fn greedy() -> bool {
        <(i8, (String, (bool, ()))) as Wire>::greedy()
    }

    open spec fn decodable() -> bool {
        <(i8, (String, (bool, ()))) as Wire>::decodable()
    }

    closed spec fn spec_write(m: Self::Model) -> Seq<u8> {
        <(i8, (String, (bool, ()))) as Wire>::spec_write(m)
    }

    closed spec fn spec_read(s: Seq<u8>) -> Result<(Self::Model, nat), DecodeError> {
        <(i8, (String, (bool, ()))) as Wire>::spec_read(s)
    }

    fn write(&self, out: &mut Vec<u8>) {
        let ghost o0 = out@;
        self.window_id.write(out);
        proof { lemma_write_step::<i8, (String, (bool, ()))>(o0, out@, self.window_id.model(), (self.recipe.model(), (self.make_all.model(), ()))); }
        let ghost o1 = out@;
        self.recipe.write(out);
        proof { lemma_write_step::<String, (bool, ())>(o1, out@, self.recipe.model(), (self.make_all.model(), ())); }
        let ghost o2 = out@;
        self.make_all.write(out);
        proof { lemma_write_step::<bool, ()>(o2, out@, self.make_all.model(), ()); }
        let ghost o3 = out@;
        assert(o3 + Seq::<u8>::empty() =~= o3);
    }

    fn read(buf: &[u8], pos: usize) -> (r: Result<(C2SPlaceRecipe, usize), DecodeError>) {
        match <(i8, (String, (bool, ()))) as Wire>::read(buf, pos) {
            Ok(((window_id, (recipe, (make_all, ()))), end)) => Ok((C2SPlaceRecipe { window_id, recipe, make_all }, end)),
            Err(e) => Err(e),
        }
    }

    proof fn lemma_read_len(s: Seq<u8>) {
        <(i8, (String, (bool, ()))) as Wire>::lemma_read_len(s);
    }

    proof fn lemma_roundtrip(m: Self::Model, rest: Seq<u8>) {
        <(i8, (String, (bool, ()))) as Wire>::lemma_roundtrip(m, rest);
    }
}

impl Packet for C2SPlaceRecipe {
    open spec fn spec_id() -> i32 {
        0x1B
    }

    open spec fn spec_state() -> State {
        State::Play
    }

    fn id(&self) -> (r: VarInt) {
        VarInt(0x1B)
    }

    fn state(&self) -> (r: State) {
        State::Play
    }
}

/// 0x1C - Player Abilities.
#[derive(Debug, Clone, PartialEq)]
pub struct C2SPlayerAbilities {
    pub flags: i8,
}

/// The fields of [`C2SPlayerAbilities`], in order.
impl Wire for C2SPlayerAbilities {
    type Model = <(i8, ()) as Wire>::Model;

    open spec fn model(&self) -> Self::Model {
        (self.flags.model(), ())
    }

    open spec fn encodable(m: Self::Model) -> bool {
        <(i8, ()) as Wire>::encodable(m)
    }

    open spec fn greedy() -> bool {
        <(i8, ()) as Wire>::greedy()
    }

    open spec fn decodable() -> bool {
        <(i8, ()) as Wire>::decodable()
    }

    closed spec fn spec_write(m: Self::Model) -> Seq<u8> {
        <(i8, ()) as Wire>::spec_write(m)
    }

    closed spec fn spec_read(s: Seq<u8>) -> Result<(Self::Model, nat), DecodeError> {
        <(i8, ()) as Wire>::spec_read(s)
    }

    fn write(&self, out: &mut Vec<u8>) {
        let ghost o0 = out@;
        self.flags.write(out);
        proof { lemma_write_step::<i8, ()>(o0, out@, self.flags.model(), ()); }
        let ghost o1 = out@;
        assert(o1 + Seq::<u8>::empty() =~= o1);
    }

    fn read(buf: &[u8], pos: usize) -> (r: Result<(C2SPlayerAbilities, usize), DecodeError>) {
        match <(i8, ()) as Wire>::read(buf, pos) {
            Ok(((flags, ()), end)) => Ok((C2SPlayerAbilities { flags }, end)),
            Err(e) => Err(e),
        }
    }

    proof fn lemma_read_len(s: Seq<u8>) {
        <(i8, ()) as Wire>::lemma_read_len(s);
    }

    proof fn lemma_roundtrip(m: Self::Model, rest: Seq<u8>) {
        <(i8, ()) as Wire>::lemma_roundtrip(m, rest);
    }
}

impl Packet for C2SPlayerAbilities {
    open spec fn spec_id() -> i32 {
        0x1C
    }

    open spec fn spec_state() -> State {
        State::Play
    }

    fn id(&self) -> (r: VarInt) {
        VarInt(0x1C)
    }

    fn state(&self) -> (r: State) {
        State::Play
    }
}

/// 0x1D - Player Action.
#[derive(Debug, Clone, PartialEq)]
pub struct C2SPlayerAction {
    pub status: VarInt,
    pub location: BlockPos,
    pub face: i8,
    pub sequence: VarInt,
}

/// The fields of [`C2SPlayerAction`], in order.
impl Wire for C2SPlayerAction {
    type Model = <(VarInt, (BlockPos, (i8, (VarInt, ())))) as Wire>::Model;

    open spec fn model(&self) -> Self::Model {
        (self.status.model(), (self.location.model(), (self.face.model(), (self.sequence.model(), ()))))
    }

    open spec fn encodable(m: Self::Model) -> bool {
        <(VarInt, (BlockPos, (i8, (VarInt, ())))) as Wire>::encodable(m)
    }

    open spec fn greedy() -> bool {
        <(VarInt, (BlockPos, (i8, (VarInt, ())))) as Wire>::greedy()
    }

    open spec fn decodable() -> bool {
        <(VarInt, (BlockPos, (i8, (VarInt, ())))) as Wire>::decodable()
    }

    closed spec fn spec_write(m: Self::Model) -> Seq<u8> {
        <(VarInt, (BlockPos, (i8, (VarInt, ())))) as Wire>::spec_write(m)
    }

    closed spec fn spec_read(s: Seq<u8>) -> Result<(Self::Model, nat), DecodeError> {
        <(VarInt, (BlockPos, (i8, (VarInt, ())))) as Wire>::spec_read(s)
    }

    fn write(&self, out: &mut Vec<u8>) {
        let ghost o0 = out@;
        self.status.write(out);
        proof { lemma_write_step::<VarInt, (BlockPos, (i8, (VarInt, ())))>(o0, out@, self.status.model(), (self.location.model(), (self.face.model(), (self.sequence.model(), ())))); }
        let ghost o1 = out@;
        self.location.write(out);
        proof { lemma_write_step::<BlockPos, (i8, (VarInt, ()))>(o1, out@, self.location.model(), (self.face.model(), (self.sequence.model(), ()))); }
        let ghost o2 = out@;
        self.face.write(out);
        proof { lemma_write_step::<i8, (VarInt, ())>(o2, out@, self.face.model(), (self.sequence.model(), ())); }
        let ghost o3 = out@;
        self.sequence.write(out);
        proof { lemma_write_step::<VarInt, ()>(o3, out@, self.sequence.model(), ()); }
        let ghost o4 = out@;
        assert(o4 + Seq::<u8>::empty() =~= o4);
    }

    fn read(buf: &[u8], pos: usize) -> (r: Result<(C2SPlayerAction, usize), DecodeError>) {
        match <(VarInt, (BlockPos, (i8, (VarInt, ())))) as Wire>::read(buf, pos) {
            Ok(((status, (location, (face, (sequence, ())))), end)) => Ok((C2SPlayerAction { status, location, face, sequence }, end)),
            Err(e) => Err(e),
        }
    }

    proof fn lemma_read_len(s: Seq<u8>) {
        <(VarInt, (BlockPos, (i8, (VarInt, ())))) as Wire>::lemma_read_len(s);
    }

    proof fn lemma_roundtrip(m: Self::Model, rest: Seq<u8>) {
        <(VarInt, (BlockPos, (i8, (VarInt, ())))) as Wire>::lemma_roundtrip(m, rest);
    }
}

impl Packet for C2SPlayerAction {
    open spec fn spec_id() -> i32 {
        0x1D
    }

    open spec fn spec_state() -> State {
        State::Play
    }

    fn id(&self) -> (r: VarInt) {
        VarInt(0x1D)
    }

    fn state(&self) -> (r: State) {
        State::Play
    }
}

/// 0x1E - Player Command.
#[derive(Debug, Clone, PartialEq)]
pub struct C2SPlayerCommand {
    pub entity_id: VarInt,
    pub action_id: VarInt,
    pub jump_boost: VarInt,
}

/// The fields of [`C2SPlayerCommand`], in order.
impl Wire for C2SPlayerCommand {
    type Model = <(VarInt, (VarInt, (VarInt, ()))) as Wire>::Model;

    open spec fn model(&self) -> Self::Model {
        (self.entity_id.model(), (self.action_id.model(), (self.jump_boost.model(), ())))
    }

    open spec fn encodable(m: Self::Model) -> bool {
        <(VarInt, (VarInt, (VarInt, ()))) as Wire>::encodable(m)
    }

    open spec fn greedy() -> bool {
        <(VarInt, (VarInt, (VarInt, ()))) as Wire>::greedy()
    }

    open spec fn decodable() -> bool {
        <(VarInt, (VarInt, (VarInt, ()))) as Wire>::decodable()
    }

    closed spec fn spec_write(m: Self::Model) -> Seq<u8> {
        <(VarInt, (VarInt, (VarInt, ()))) as Wire>::spec_write(m)
    }

    closed spec fn spec_read(s: Seq<u8>) -> Result<(Self::Model, nat), DecodeError> {
        <(VarInt, (VarInt, (VarInt, ()))) as Wire>::spec_read(s)
    }

    fn write(&self, out: &mut Vec<u8>) {
        let ghost o0 = out@;
        self.entity_id.write(out);
        proof { lemma_write_step::<VarInt, (VarInt, (VarInt, ()))>(o0, out@, self.entity_id.model(), (self.action_id.model(), (self.jump_boost.model(), ()))); }
        let ghost o1 = out@;
        self.action_id.write(out);
        proof { lemma_write_step::<VarInt, (VarInt, ())>(o1, out@, self.action_id.model(), (self.jump_boost.model(), ())); }
        let ghost o2 = out@;
        self.jump_boost.write(out);
        proof { lemma_write_step::<VarInt, ()>(o2, out@, self.jump_boost.model(), ()); }
        let ghost o3 = out@;
        assert(o3 + Seq::<u8>::empty() =~= o3);
    }

    fn read(buf: &[u8], pos: usize) -> (r: Result<(C2SPlayerCommand, usize), DecodeError>) {
        match <(VarInt, (VarInt, (VarInt, ()))) as Wire>::read(buf, pos) {
            Ok(((entity_id, (action_id, (jump_boost, ()))), end)) => Ok((C2SPlayerCommand { entity_id, action_id, jump_boost }, end)),
            Err(e) => Err(e),
        }
    }

    proof fn lemma_read_len(s: Seq<u8>) {
        <(VarInt, (VarInt, (VarInt, ()))) as Wire>::lemma_read_len(s);
    }

    proof fn lemma_roundtrip(m: Self::Model, rest: Seq<u8>) {
        <(VarInt, (VarInt, (VarInt, ()))) as Wire>::lemma_roundtrip(m, rest);
    }
}

impl Packet for C2SPlayerCommand {
    open spec fn spec_id() -> i32 {
        0x1E
    }

    open spec fn spec_state() -> State {
        State::Play
    }

    fn id(&self) -> (r: VarInt) {
        VarInt(0x1E)
    }

    fn state(&self) -> (r: State) {
        State::Play
    }
}

/// 0x1F - Player Input. `sideways` and `forward` hold `f32` bits.
#[derive(Debug, Clone, PartialEq)]
pub struct C2SPlayerInput {
    pub sideways: u32,
    pub forward: u32,
    pub flags: u8,
}

/// The fields of [`C2SPlayerInput`], in order.
impl Wire for C2SPlayerInput {
    type Model = <(u32, (u32, (u8, ()))) as Wire>::Model;

    open spec fn model(&self) -> Self::Model {
        (self.sideways.model(), (self.forward.model(), (self.flags.model(), ())))
    }

    open spec fn encodable(m: Self::Model) -> bool {
        <(u32, (u32, (u8, ()))) as Wire>::encodable(m)
    }

    open spec fn greedy() -> bool {
        <(u32, (u32, (u8, ()))) as Wire>::greedy()
    }

    open spec fn decodable() -> bool {
        <(u32, (u32, (u8, ()))) as Wire>::decodable()
    }

    closed spec fn spec_write(m: Self::Model) -> Seq<u8> {
        <(u32, (u32, (u8, ()))) as Wire>::spec_write(m)
    }

    closed spec fn spec_read(s: Seq<u8>) -> Result<(Self::Model, nat), DecodeError> {
        <(u32, (u32, (u8, ()))) as Wire>::spec_read(s)
    }

    fn write(&self, out: &mut Vec<u8>) {
        let ghost o0 = out@;
        self.sideways.write(out);
        proof { lemma_write_step::<u32, (u32, (u8, ()))>(o0, out@, self.sideways.model(), (self.forward.model(), (self.flags.model(), ()))); }
        let ghost o1 = out@;
        self.forward.write(out);
        proof { lemma_write_step::<u32, (u8, ())>(o1, out@, self.forward.model(), (self.flags.model(), ())); }
        let ghost o2 = out@;
        self.flags.write(out);
        proof { lemma_write_step::<u8, ()>(o2, out@, self.flags.model(), ()); }
        let ghost o3 = out@;
        assert(o3 + Seq::<u8>::empty() =~= o3);
    }

    fn read(buf: &[u8], pos: usize) -> (r: Result<(C2SPlayerInput, usize), DecodeError>) {
        match <(u32, (u32, (u8, ()))) as Wire>::read(buf, pos) {
            Ok(((sideways, (forward, (flags, ()))), end)) => Ok((C2SPlayerInput { sideways, forward, flags }, end)),
            Err(e) => Err(e),
        }
    }

    proof fn lemma_read_len(s: Seq<u8>) {
        <(u32, (u32, (u8, ()))) as Wire>::lemma_read_len(s);
    }

    proof fn lemma_roundtrip(m: Self::Model, rest: Seq<u8>) {
        <(u32, (u32, (u8, ()))) as Wire>::lemma_roundtrip(m, rest);
    }
}

impl Packet for C2SPlayerInput {
    open spec fn spec_id() -> i32 {
        0x1F
    }

    open spec fn spec_state() -> State {
        State::Play
    }

    fn id(&self) -> (r: VarInt) {
        VarInt(0x1F)
    }

    fn state(&self) -> (r: State) {
        State::Play
    }
}

/// 0x20 - Pong.
#[derive(Debug, Clone, PartialEq)]
pub struct C2SPong {
    pub id: i32,
}

/// The fields of [`C2SPong`], in order.
impl Wire for C2SPong {
    type Model = <(i32, ()) as Wire>::Model;

    open spec fn model(&self) -> Self::Model {
        (self.id.model(), ())
    }

    open spec fn encodable(m: Self::Model) -> bool {
        <(i32, ()) as Wire>::encodable(m)
    }

    open spec fn greedy() -> bool {
        <(i32, ()) as Wire>::greedy()
    }

    open spec fn decodable() -> bool {
        <(i32, ()) as Wire>::decodable()
    }

    closed spec fn spec_write(m: Self::Model) -> Seq<u8> {
        <(i32, ()) as Wire>::spec_write(m)
    }

    closed spec fn spec_read(s: Seq<u8>) -> Result<(Self::Model, nat), DecodeError> {
        <(i32, ()) as Wire>::spec_read(s)
    }

    fn write(&self, out: &mut Vec<u8>) {
        let ghost o0 = out@;
        self.id.write(out);
        proof { lemma_write_step::<i32, ()>(o0, out@, self.id.model(), ()); }
        let ghost o1 = out@;
        assert(o1 + Seq::<u8>::empty() =~= o1);
    }

    fn read(buf: &[u8], pos: usize) -> (r: Result<(C2SPong, usize), DecodeError>) {
        match <(i32, ()) as Wire>::read(buf, pos) {
            Ok(((id, ()), end)) => Ok((C2SPong { id }, end)),
            Err(e) => Err(e),
        }
    }

    proof fn lemma_read_len(s: Seq<u8>) {
        <(i32, ()) as Wire>::lemma_read_len(s);
    }

    proof fn lemma_roundtrip(m: Self::Model, rest: Seq<u8>) {
        <(i32, ()) as Wire>::lemma_roundtrip(m, rest);
    }
}

impl Packet for C2SPong {
    open spec fn spec_id() -> i32 {
        0x20
    }

    open spec fn spec_state() -> State {
        State::Play
    }

    fn id(&self) -> (r: VarInt) {
        VarInt(0x20)
    }

    fn state(&self) -> (r: State) {
        State::Play
    }
}

/// 0x21 - Change Recipe Book Settings.
#[derive(Debug, Clone, PartialEq)]
pub struct C2SRecipeBookChangeSettings {
    pub book_id: VarInt,
    pub book_open: bool,
    pub filter_active: bool,
}

/// The fields of [`C2SRecipeBookChangeSettings`], in order.
impl Wire for C2SRecipeBookChangeSettings {
    type Model = <(VarInt, (bool, (bool, ()))) as Wire>::Model;

    open spec fn model(&self) -> Self::Model {
        (self.book_id.model(), (self.book_open.model(), (self.filter_active.model(), ())))
    }

    open spec fn encodable(m: Self::Model) -> bool {
        <(VarInt, (bool, (bool, ()))) as Wire>::encodable(m)
    }

    open spec fn greedy() -> bool {
        <(VarInt, (bool, (bool, ()))) as Wire>::greedy()
    }

    open spec fn decodable() -> bool {
        <(VarInt, (bool, (bool, ()))) as Wire>::decodable()
    }

    closed spec fn spec_write(m: Self::Model) -> Seq<u8> {
        <(VarInt, (bool, (bool, ()))) as Wire>::spec_write(m)
    }

    closed spec fn spec_read(s: Seq<u8>) -> Result<(Self::Model, nat), DecodeError> {
        <(VarInt, (bool, (bool, ()))) as Wire>::spec_read(s)
    }

    fn write(&self, out: &mut Vec<u8>) {
        let ghost o0 = out@;
        self.book_id.write(out);
        proof { lemma_write_step::<VarInt, (bool, (bool, ()))>(o0, out@, self.book_id.model(), (self.book_open.model(), (self.filter_active.model(), ()))); }
        let ghost o1 = out@;
        self.book_open.write(out);
        proof { lemma_write_step::<bool, (bool, ())>(o1, out@, self.book_open.model(), (self.filter_active.model(), ())); }
        let ghost o2 = out@;
        self.filter_active.write(out);
        proof { lemma_write_step::<bool, ()>(o2, out@, self.filter_active.model(), ()); }
        let ghost o3 = out@;
        assert(o3 + Seq::<u8>::empty() =~= o3);
    }

    fn read(buf: &[u8], pos: usize) -> (r: Result<(C2SRecipeBookChangeSettings, usize), DecodeError>) {
        match <(VarInt, (bool, (bool, ()))) as Wire>::read(buf, pos) {
            Ok(((book_id, (book_open, (filter_active, ()))), end)) => Ok((C2SRecipeBookChangeSettings { book_id, book_open, filter_active }, end)),
            Err(e) => Err(e),
        }
    }

    proof fn lemma_read_len(s: Seq<u8>) {
        <(VarInt, (bool, (bool, ()))) as Wire>::lemma_read_len(s);
    }

    proof fn lemma_roundtrip(m: Self::Model, rest: Seq<u8>) {
        <(VarInt, (bool, (bool, ()))) as Wire>::lemma_roundtrip(m, rest);
    }
}

impl Packet for C2SRecipeBookChangeSettings {
    open spec fn spec_id() -> i32 {
        0x21
    }

    open spec fn spec_state() -> State {
        State::Play
    }

    fn id(&self) -> (r: VarInt) {
        VarInt(0x21)
    }

    fn state(&self) -> (r: State) {
        State::Play
    }
}

/// 0x22 - Set Seen Recipe.
#[derive(Debug, Clone, PartialEq)]
pub struct C2SRecipeBookSeenRecipe {
    pub recipe_id: String,
}

/// The fields of [`C2SRecipeBookSeenRecipe`], in order.
impl Wire for C2SRecipeBookSeenRecipe {
    type Model = <(String, ()) as Wire>::Model;

    open spec fn model(&self) -> Self::Model {
        (self.recipe_id.model(), ())
    }

    open spec fn encodable(m: Self::Model) -> bool {
        <(String, ()) as Wire>::encodable(m)
    }

    open spec fn greedy() -> bool {
        <(String, ()) as Wire>::greedy()
    }

    open spec fn decodable() -> bool {
        <(String, ()) as Wire>::decodable()
    }

    closed spec fn spec_write(m: Self::Model) -> Seq<u8> {
        <(String, ()) as Wire>::spec_write(m)
    }

    closed spec fn spec_read(s: Seq<u8>) -> Result<(Self::Model, nat), DecodeError> {
        <(String, ()) as Wire>::spec_read(s)
    }

    fn write(&self, out: &mut Vec<u8>) {
        let ghost o0 = out@;
        self.recipe_id.write(out);
        proof { lemma_write_step::<String, ()>(o0, out@, self.recipe_id.model(), ()); }
        let ghost o1 = out@;
        assert(o1 + Seq::<u8>::empty() =~= o1);
    }

    fn read(buf: &[u8], pos: usize) -> (r: Result<(C2SRecipeBookSeenRecipe, usize), DecodeError>) {
        match <(String, ()) as Wire>::read(buf, pos) {
            Ok(((recipe_id, ()), end)) => Ok((C2SRecipeBookSeenRecipe { recipe_id }, end)),
            Err(e) => Err(e),
        }
    }

    proof fn lemma_read_len(s: Seq<u8>) {
        <(String, ()) as Wire>::lemma_read_len(s);
    }

    proof fn lemma_roundtrip(m: Self::Model, rest: Seq<u8>) {
        <(String, ()) as Wire>::lemma_roundtrip(m, rest);
    }
}

impl Packet for C2SRecipeBookSeenRecipe {
    open spec fn spec_id() -> i32 {
        0x22
    }

    open spec fn spec_state() -> State {
        State::Play
    }

    fn id(&self) -> (r: VarInt) {
        VarInt(0x22)
    }

    fn state(&self) -> (r: State) {
        State::Play
    }
}

/// 0x23 - Rename Item.
#[derive(Debug, Clone, PartialEq)]
pub struct C2SRenameItem {
    pub name: String,
}

/// The fields of [`C2SRenameItem`], in order.
impl Wire for C2SRenameItem {
    type Model = <(String, ()) as Wire>::Model;

    open spec fn model(&self) -> Self::Model {
        (self.name.model(), ())
    }

    open spec fn encodable(m: Self::Model) -> bool {
        <(String, ()) as Wire>::encodable(m)
    }

    open spec fn greedy() -> bool {
        <(String, ()) as Wire>::greedy()
    }

    open spec fn decodable() -> bool {
        <(String, ()) as Wire>::decodable()
    }

    closed spec fn spec_write(m: Self::Model) -> Seq<u8> {
        <(String, ()) as Wire>::spec_write(m)
    }

    closed spec fn spec_read(s: Seq<u8>) -> Result<(Self::Model, nat), DecodeError> {
        <(String, ()) as Wire>::spec_read(s)
    }

    fn write(&self, out: &mut Vec<u8>) {
        let ghost o0 = out@;
        self.name.write(out);
        proof { lemma_write_step::<String, ()>(o0, out@, self.name.model(), ()); }
        let ghost o1 = out@;
        assert(o1 + Seq::<u8>::empty() =~= o1);
    }

    fn read(buf: &[u8], pos: usize) -> (r: Result<(C2SRenameItem, usize), DecodeError>) {
        match <(String, ()) as Wire>::read(buf, pos) {
            Ok(((name, ()), end)) => Ok((C2SRenameItem { name }, end)),
            Err(e) => Err(e),
        }
    }

    proof fn lemma_read_len(s: Seq<u8>) {
        <(String, ()) as Wire>::lemma_read_len(s);
    }

    proof fn lemma_roundtrip(m: Self::Model, rest: Seq<u8>) {
        <(String, ()) as Wire>::lemma_roundtrip(m, rest);
    }
}

impl Packet for C2SRenameItem {
    open spec fn spec_id() -> i32 {
        0x23
    }

    open spec fn spec_state() -> State {
        State::Play
    }

    fn id(&self) -> (r: VarInt) {
        VarInt(0x23)
    }

    fn state(&self) -> (r: State) {
        State::Play
    }
}

/// 0x24 - Resource Pack result.
#[derive(Debug, Clone, PartialEq)]
pub struct C2SResourcePack {
    pub result: VarInt,
}

/// The fields of [`C2SResourcePack`], in order.
impl Wire for C2SResourcePack {
    type Model = <(VarInt, ()) as Wire>::Model;

    open spec fn model(&self) -> Self::Model {
        (self.result.model(), ())
    }

    open spec fn encodable(m: Self::Model) -> bool {
        <(VarInt, ()) as Wire>::encodable(m)
    }

    open spec fn greedy() -> bool {
        <(VarInt, ()) as Wire>::greedy()
    }

    open spec fn decodable() -> bool {
        <(VarInt, ()) as Wire>::decodable()
    }

    closed spec fn spec_write(m: Self::Model) -> Seq<u8> {
        <(VarInt, ()) as Wire>::spec_write(m)
    }

    closed spec fn spec_read(s: Seq<u8>) -> Result<(Self::Model, nat), DecodeError> {
        <(VarInt, ()) as Wire>::spec_read(s)
    }

    fn write(&self, out: &mut Vec<u8>) {
        let ghost o0 = out@;
        self.result.write(out);
        proof { lemma_write_step::<VarInt, ()>(o0, out@, self.result.model(), ()); }
        let ghost o1 = out@;
        assert(o1 + Seq::<u8>::empty() =~= o1);
    }

    fn read(buf: &[u8], pos: usize) -> (r: Result<(C2SResourcePack, usize), DecodeError>) {
        match <(VarInt, ()) as Wire>::read(buf, pos) {
            Ok(((result, ()), end)) => Ok((C2SResourcePack { result }, end)),
            Err(e) => Err(e),
        }
    }

    proof fn lemma_read_len(s: Seq<u8>) {
        <(VarInt, ()) as Wire>::lemma_read_len(s);
    }

    proof fn lemma_roundtrip(m: Self::Model, rest: Seq<u8>) {
        <(VarInt, ()) as Wire>::lemma_roundtrip(m, rest);
    }
}

impl Packet for C2SResourcePack {
    open spec fn spec_id() -> i32 {
        0x24
    }

    open spec fn spec_state() -> State {
        State::Play
    }

    fn id(&self) -> (r: VarInt) {
        VarInt(0x24)
    }

    fn state(&self) -> (r: State) {
        State::Play
    }
}

/// 0x25 - Seen Advancements; the optional tab id is kept as raw bytes.
#[derive(Debug, Clone, PartialEq)]
pub struct C2SSeenAdvancements {
    pub action: VarInt,
    pub rest: RawBytes,
}

/// The fields of [`C2SSeenAdvancements`], in order.
impl Wire for C2SSeenAdvancements {
    type Model = <(VarInt, (RawBytes, ())) as Wire>::Model;

    open spec fn model(&self) -> Self::Model {
        (self.action.model(), (self.rest.model(), ()))
    }

    open spec fn encodable(m: Self::Model) -> bool {
        <(VarInt, (RawBytes, ())) as Wire>::encodable(m)
    }

    open spec fn greedy() -> bool {
        <(VarInt, (RawBytes, ())) as Wire>::greedy()
    }

    open spec fn decodable() -> bool {
        <(VarInt, (RawBytes, ())) as Wire>::decodable()
    }

    closed spec fn spec_write(m: Self::Model) -> Seq<u8> {
        <(VarInt, (RawBytes, ())) as Wire>::spec_write(m)
    }

    closed spec fn spec_read(s: Seq<u8>) -> Result<(Self::Model, nat), DecodeError> {
        <(VarInt, (RawBytes, ())) as Wire>::spec_read(s)
    }

    fn write(&self, out: &mut Vec<u8>) {
        let ghost o0 = out@;
        self.action.write(out);
        proof { lemma_write_step::<VarInt, (RawBytes, ())>(o0, out@, self.action.model(), (self.rest.model(), ())); }
        let ghost o1 = out@;
        self.rest.write(out);
        proof { lemma_write_step::<RawBytes, ()>(o1, out@, self.rest.model(), ()); }
        let ghost o2 = out@;
        assert(o2 + Seq::<u8>::empty() =~= o2);
    }

    fn read(buf: &[u8], pos: usize) -> (r: Result<(C2SSeenAdvancements, usize), DecodeError>) {
        match <(VarInt, (RawBytes, ())) as Wire>::read(buf, pos) {
            Ok(((action, (rest, ())), end)) => Ok((C2SSeenAdvancements { action, rest }, end)),
            Err(e) => Err(e),
        }
    }

    proof fn lemma_read_len(s: Seq<u8>) {
        <(VarInt, (RawBytes, ())) as Wire>::lemma_read_len(s);
    }

    proof fn lemma_roundtrip(m: Self::Model, rest: Seq<u8>) {
        <(VarInt, (RawBytes, ())) as Wire>::lemma_roundtrip(m, rest);
    }
}

impl Packet for C2SSeenAdvancements {
    open spec fn spec_id() -> i32 {
        0x25
    }

    open spec fn spec_state() -> State {
        State::Play
    }

    fn id(&self) -> (r: VarInt) {
        VarInt(0x25)
    }

    fn state(&self) -> (r: State) {
        State::Play
    }
}

/// 0x26 - Select Trade.
#[derive(Debug, Clone, PartialEq)]
pub struct C2SSelectTrade {
    pub slot: VarInt,
}

/// The fields of [`C2SSelectTrade`], in order.
impl Wire for C2SSelectTrade {
    type Model = <(VarInt, ()) as Wire>::Model;

    open spec fn model(&self) -> Self::Model {
        (self.slot.model(), ())
    }

    open spec fn encodable(m: Self::Model) -> bool {
        <(VarInt, ()) as Wire>::encodable(m)
    }

    open spec fn greedy() -> bool {
        <(VarInt, ()) as Wire>::greedy()
    }

    open spec fn decodable() -> bool {
        <(VarInt, ()) as Wire>::decodable()
    }

    closed spec fn spec_write(m: Self::Model) -> Seq<u8> {
        <(VarInt, ()) as Wire>::spec_write(m)
    }

    closed spec fn spec_read(s: Seq<u8>) -> Result<(Self::Model, nat), DecodeError> {
        <(VarInt, ()) as Wire>::spec_read(s)
    }

    fn write(&self, out: &mut Vec<u8>) {
        let ghost o0 = out@;
        self.slot.write(out);
        proof { lemma_write_step::<VarInt, ()>(o0, out@, self.slot.model(), ()); }
        let ghost o1 = out@;
        assert(o1 + Seq::<u8>::empty() =~= o1);
    }

    fn read(buf: &[u8], pos: usize) -> (r: Result<(C2SSelectTrade, usize), DecodeError>) {
        match <(VarInt, ()) as Wire>::read(buf, pos) {
            Ok(((slot, ()), end)) => Ok((C2SSelectTrade { slot }, end)),
            Err(e) => Err(e),
        }
    }

    proof fn lemma_read_len(s: Seq<u8>) {
        <(VarInt, ()) as Wire>::lemma_read_len(s);
    }

    proof fn lemma_roundtrip(m: Self::Model, rest: Seq<u8>) {
        <(VarInt, ()) as Wire>::lemma_roundtrip(m, rest);
    }
}

impl Packet for C2SSelectTrade {
    open spec fn spec_id() -> i32 {
        0x26
    }

    open spec fn spec_state() -> State {
        State::Play
    }

    fn id(&self) -> (r: VarInt) {
        VarInt(0x26)
    }

    fn state(&self) -> (r: State) {
        State::Play
    }
}

/// 0x27 - Set Beacon Effect.
#[derive(Debug, Clone, PartialEq)]
pub struct C2SSetBeacon {
    pub primary_effect: Option<VarInt>,
    pub secondary_effect: Option<VarInt>,
}

/// The fields of [`C2SSetBeacon`], in order.
impl Wire for C2SSetBeacon {
    type Model = <(Option<VarInt>, (Option<VarInt>, ())) as Wire>::Model;

    open spec fn model(&self) -> Self::Model {
        (self.primary_effect.model(), (self.secondary_effect.model(), ()))
    }

    open spec fn encodable(m: Self::Model) -> bool {
        <(Option<VarInt>, (Option<VarInt>, ())) as Wire>::encodable(m)
    }

    open spec fn greedy() -> bool {
        <(Option<VarInt>, (Option<VarInt>, ())) as Wire>::greedy()
    }

    open spec fn decodable() -> bool {
        <(Option<VarInt>, (Option<VarInt>, ())) as Wire>::decodable()
    }

    closed spec fn spec_write(m: Self::Model) -> Seq<u8> {
        <(Option<VarInt>, (Option<VarInt>, ())) as Wire>::spec_write(m)
    }

    closed spec fn spec_read(s: Seq<u8>) -> Result<(Self::Model, nat), DecodeError> {
        <(Option<VarInt>, (Option<VarInt>, ())) as Wire>::spec_read(s)
    }

    fn write(&self, out: &mut Vec<u8>) {
        let ghost o0 = out@;
        self.primary_effect.write(out);
        proof { lemma_write_step::<Option<VarInt>, (Option<VarInt>, ())>(o0, out@, self.primary_effect.model(), (self.secondary_effect.model(), ())); }
        let ghost o1 = out@;
        self.secondary_effect.write(out);
        proof { lemma_write_step::<Option<VarInt>, ()>(o1, out@, self.secondary_effect.model(), ()); }
        let ghost o2 = out@;
        assert(o2 + Seq::<u8>::empty() =~= o2);
    }

    fn read(buf: &[u8], pos: usize) -> (r: Result<(C2SSetBeacon, usize), DecodeError>) {
        match <(Option<VarInt>, (Option<VarInt>, ())) as Wire>::read(buf, pos) {
            Ok(((primary_effect, (secondary_effect, ())), end)) => Ok((C2SSetBeacon { primary_effect, secondary_effect }, end)),
            Err(e) => Err(e),
        }
    }

    proof fn lemma_read_len(s: Seq<u8>) {
        <(Option<VarInt>, (Option<VarInt>, ())) as Wire>::lemma_read_len(s);
    }

    proof fn lemma_roundtrip(m: Self::Model, rest: Seq<u8>) {
        <(Option<VarInt>, (Option<VarInt>, ())) as Wire>::lemma_roundtrip(m, rest);
    }
}

impl Packet for C2SSetBeacon {
    open spec fn spec_id() -> i32 {
        0x27
    }

    open spec fn spec_state() -> State {
        State::Play
    }

    fn id(&self) -> (r: VarInt) {
        VarInt(0x27)
    }

    fn state(&self) -> (r: State) {
        State::Play
    }
}

/// 0x28 - Set Held Item.
#[derive(Debug, Clone, PartialEq)]
pub struct C2SSetCarriedItem {
    pub slot: i16,
}

/// The fields of [`C2SSetCarriedItem`], in order.
impl Wire for C2SSetCarriedItem {
    type Model = <(i16, ()) as Wire>::Model;

    open spec fn model(&self) -> Self::Model {
        (self.slot.model(), ())
    }

    open spec fn encodable(m: Self::Model) -> bool {
        <(i16, ()) as Wire>::encodable(m)
    }

    open spec fn greedy() -> bool {
        <(i16, ()) as Wire>::greedy()
    }

    open spec fn decodable() -> bool {
        <(i16, ()) as Wire>::decodable()
    }

    closed spec fn spec_write(m: Self::Model) -> Seq<u8> {
        <(i16, ()) as Wire>::spec_write(m)
    }

    closed spec fn spec_read(s: Seq<u8>) -> Result<(Self::Model, nat), DecodeError> {
        <(i16, ()) as Wire>::spec_read(s)
    }

    fn write(&self, out: &mut Vec<u8>) {
        let ghost o0 = out@;
        self.slot.write(out);
        proof { lemma_write_step::<i16, ()>(o0, out@, self.slot.model(), ()); }
        let ghost o1 = out@;
        assert(o1 + Seq::<u8>::empty() =~= o1);
    }

    fn read(buf: &[u8], pos: usize) -> (r: Result<(C2SSetCarriedItem, usize), DecodeError>) {
        match <(i16, ()) as Wire>::read(buf, pos) {
            Ok(((slot, ()), end)) => Ok((C2SSetCarriedItem { slot }, end)),
            Err(e) => Err(e),
        }
    }

    proof fn lemma_read_len(s: Seq<u8>) {
        <(i16, ()) as Wire>::lemma_read_len(s);
    }

    proof fn lemma_roundtrip(m: Self::Model, rest: Seq<u8>) {
        <(i16, ()) as Wire>::lemma_roundtrip(m, rest);
    }
}

impl Packet for C2SSetCarriedItem {
    open spec fn spec_id() -> i32 {
        0x28
    }

    open spec fn spec_state() -> State {
        State::Play
    }

    fn id(&self) -> (r: VarInt) {
        VarInt(0x28)
    }

    fn state(&self) -> (r: State) {
        State::Play
    }
}

/// 0x29 - Program Command Block.
#[derive(Debug, Clone, PartialEq)]
pub struct C2SSetCommandBlock {
    pub location: BlockPos,
    pub command: String,
    pub mode: VarInt,
    pub flags: u8,
}

/// The fields of [`C2SSetCommandBlock`], in order.
impl Wire for C2SSetCommandBlock {
    type Model = <(BlockPos, (String, (VarInt, (u8, ())))) as Wire>::Model;

    open spec fn model(&self) -> Self::Model {
        (self.location.model(), (self.command.model(), (self.mode.model(), (self.flags.model(), ()))))
    }

    open spec fn encodable(m: Self::Model) -> bool {
        <(BlockPos, (String, (VarInt, (u8, ())))) as Wire>::encodable(m)
    }

    open spec fn greedy() -> bool {
        <(BlockPos, (String, (VarInt, (u8, ())))) as Wire>::greedy()
    }

    open spec fn decodable() -> bool {
        <(BlockPos, (String, (VarInt, (u8, ())))) as Wire>::decodable()
    }

    closed spec fn spec_write(m: Self::Model) -> Seq<u8> {
        <(BlockPos, (String, (VarInt, (u8, ())))) as Wire>::spec_write(m)
    }

    closed spec fn spec_read(s: Seq<u8>) -> Result<(Self::Model, nat), DecodeError> {
        <(BlockPos, (String, (VarInt, (u8, ())))) as Wire>::spec_read(s)
    }

    fn write(&self, out: &mut Vec<u8>) {
        let ghost o0 = out@;
        self.location.write(out);
        proof { lemma_write_step::<BlockPos, (String, (VarInt, (u8, ())))>(o0, out@, self.location.model(), (self.command.model(), (self.mode.model(), (self.flags.model(), ())))); }
        let ghost o1 = out@;
        self.command.write(out);
        proof { lemma_write_step::<String, (VarInt, (u8, ()))>(o1, out@, self.command.model(), (self.mode.model(), (self.flags.model(), ()))); }
        let ghost o2 = out@;
        self.mode.write(out);
        proof { lemma_write_step::<VarInt, (u8, ())>(o2, out@, self.mode.model(), (self.flags.model(), ())); }
        let ghost o3 = out@;
        self.flags.write(out);
        proof { lemma_write_step::<u8, ()>(o3, out@, self.flags.model(), ()); }
        let ghost o4 = out@;
        assert(o4 + Seq::<u8>::empty() =~= o4);
    }

    fn read(buf: &[u8], pos: usize) -> (r: Result<(C2SSetCommandBlock, usize), DecodeError>) {
        match <(BlockPos, (String, (VarInt, (u8, ())))) as Wire>::read(buf, pos) {
            Ok(((location, (command, (mode, (flags, ())))), end)) => Ok((C2SSetCommandBlock { location, command, mode, flags }, end)),
            Err(e) => Err(e),
        }
    }

    proof fn lemma_read_len(s: Seq<u8>) {
        <(BlockPos, (String, (VarInt, (u8, ())))) as Wire>::lemma_read_len(s);
    }

    proof fn lemma_roundtrip(m: Self::Model, rest: Seq<u8>) {
        <(BlockPos, (String, (VarInt, (u8, ())))) as Wire>::lemma_roundtrip(m, rest);
    }
}

impl Packet for C2SSetCommandBlock {
    open spec fn spec_id() -> i32 {
        0x29
    }

    open spec fn spec_state() -> State {
        State::Play
    }

    fn id(&self) -> (r: VarInt) {
        VarInt(0x29)
    }

    fn state(&self) -> (r: State) {
        State::Play
    }
}

/// 0x2A - Program Command Block Minecart.
#[derive(Debug, Clone, PartialEq)]
pub struct C2SSetCommandMinecart {
    pub entity_id: VarInt,
    pub command: String,
    pub track_output: bool,
}

/// The fields of [`C2SSetCommandMinecart`], in order.
impl Wire for C2SSetCommandMinecart {
    type Model = <(VarInt, (String, (bool, ()))) as Wire>::Model;

    open spec fn model(&self) -> Self::Model {
        (self.entity_id.model(), (self.command.model(), (self.track_output.model(), ())))
    }

    open spec fn encodable(m: Self::Model) -> bool {
        <(VarInt, (String, (bool, ()))) as Wire>::encodable(m)
    }

    open spec fn greedy() -> bool {
        <(VarInt, (String, (bool, ()))) as Wire>::greedy()
    }

    open spec fn decodable() -> bool {
        <(VarInt, (String, (bool, ()))) as Wire>::decodable()
    }

    closed spec fn spec_write(m: Self::Model) -> Seq<u8> {
        <(VarInt, (String, (bool, ()))) as Wire>::spec_write(m)
    }

    closed spec fn spec_read(s: Seq<u8>) -> Result<(Self::Model, nat), DecodeError> {
        <(VarInt, (String, (bool, ()))) as Wire>::spec_read(s)
    }

    fn write(&self, out: &mut Vec<u8>) {
        let ghost o0 = out@;
        self.entity_id.write(out);
        proof { lemma_write_step::<VarInt, (String, (bool, ()))>(o0, out@, self.entity_id.model(), (self.command.model(), (self.track_output.model(), ()))); }
        let ghost o1 = out@;
        self.command.write(out);
        proof { lemma_write_step::<String, (bool, ())>(o1, out@, self.command.model(), (self.track_output.model(), ())); }
        let ghost o2 = out@;
        self.track_output.write(out);
        proof { lemma_write_step::<bool, ()>(o2, out@, self.track_output.model(), ()); }
        let ghost o3 = out@;
        assert(o3 + Seq::<u8>::empty() =~= o3);
    }

    fn read(buf: &[u8], pos: usize) -> (r: Result<(C2SSetCommandMinecart, usize), DecodeError>) {
        match <(VarInt, (String, (bool, ()))) as Wire>::read(buf, pos) {
            Ok(((entity_id, (command, (track_output, ()))), end)) => Ok((C2SSetCommandMinecart { entity_id, command, track_output }, end)),
            Err(e) => Err(e),
        }
    }

    proof fn lemma_read_len(s: Seq<u8>) {
        <(VarInt, (String, (bool, ()))) as Wire>::lemma_read_len(s);
    }

    proof fn lemma_roundtrip(m: Self::Model, rest: Seq<u8>) {
        <(VarInt, (String, (bool, ()))) as Wire>::lemma_roundtrip(m, rest);
    }
}

impl Packet for C2SSetCommandMinecart {
    open spec fn spec_id() -> i32 {
        0x2A
    }

    open spec fn spec_state() -> State {
        State::Play
    }

    fn id(&self) -> (r: VarInt) {
        VarInt(0x2A)
    }

    fn state(&self) -> (r: State) {
        State::Play
    }
}

/// 0x2B - Set Creative Mode Slot; the item stack is kept as raw bytes.
#[derive(Debug, Clone, PartialEq)]
pub struct C2SSetCreativeModeSlot {
    pub slot: i16,
    pub item: RawBytes,
}

/// The fields of [`C2SSetCreativeModeSlot`], in order.
impl Wire for C2SSetCreativeModeSlot {
    type Model = <(i16, (RawBytes, ())) as Wire>::Model;

    open spec fn model(&self) -> Self::Model {
        (self.slot.model(), (self.item.model(), ()))
    }

    open spec fn encodable(m: Self::Model) -> bool {
        <(i16, (RawBytes, ())) as Wire>::encodable(m)
    }

    open spec fn greedy() -> bool {
        <(i16, (RawBytes, ())) as Wire>::greedy()
    }

    open spec fn decodable() -> bool {
        <(i16, (RawBytes, ())) as Wire>::decodable()
    }

    closed spec fn spec_write(m: Self::Model) -> Seq<u8> {
        <(i16, (RawBytes, ())) as Wire>::spec_write(m)
    }

    closed spec fn spec_read(s: Seq<u8>) -> Result<(Self::Model, nat), DecodeError> {
        <(i16, (RawBytes, ())) as Wire>::spec_read(s)
    }

    fn write(&self, out: &mut Vec<u8>) {
        let ghost o0 = out@;
        self.slot.write(out);
        proof { lemma_write_step::<i16, (RawBytes, ())>(o0, out@, self.slot.model(), (self.item.model(), ())); }
        let ghost o1 = out@;
        self.item.write(out);
        proof { lemma_write_step::<RawBytes, ()>(o1, out@, self.item.model(), ()); }
        let ghost o2 = out@;
        assert(o2 + Seq::<u8>::empty() =~= o2);
    }

    fn read(buf: &[u8], pos: usize) -> (r: Result<(C2SSetCreativeModeSlot, usize), DecodeError>) {
        match <(i16, (RawBytes, ())) as Wire>::read(buf, pos) {
            Ok(((slot, (item, ())), end)) => Ok((C2SSetCreativeModeSlot { slot, item }, end)),
            Err(e) => Err(e),
        }
    }

    proof fn lemma_read_len(s: Seq<u8>) {
        <(i16, (RawBytes, ())) as Wire>::lemma_read_len(s);
    }

    proof fn lemma_roundtrip(m: Self::Model, rest: Seq<u8>) {
        <(i16, (RawBytes, ())) as Wire>::lemma_roundtrip(m, rest);
    }
}

impl Packet for C2SSetCreativeModeSlot {
    open spec fn spec_id() -> i32 {
        0x2B
    }

    open spec fn spec_state() -> State {
        State::Play
    }

    fn id(&self) -> (r: VarInt) {
        VarInt(0x2B)
    }

    fn state(&self) -> (r: State) {
        State::Play
    }
}

/// 0x2C - Program Jigsaw Block.
#[derive(Debug, Clone, PartialEq)]
pub struct C2SSetJigsawBlock {
    pub location: BlockPos,
    pub name: String,
    pub target: String,
    pub pool: String,
    pub final_state: String,
    pub joint_type: String,
}

/// The fields of [`C2SSetJigsawBlock`], in order.
impl Wire for C2SSetJigsawBlock {
    type Model = <(BlockPos, (String, (String, (String, (String, (String, ())))))) as Wire>::Model;

    open spec fn model(&self) -> Self::Model {
        (self.location.model(), (self.name.model(), (self.target.model(), (self.pool.model(), (self.final_state.model(), (self.joint_type.model(), ()))))))
    }

    open spec fn encodable(m: Self::Model) -> bool {
        <(BlockPos, (String, (String, (String, (String, (String, ())))))) as Wire>::encodable(m)
    }

    open spec fn greedy() -> bool {
        <(BlockPos, (String, (String, (String, (String, (String, ())))))) as Wire>::greedy()
    }

    open spec fn decodable() -> bool {
        <(BlockPos, (String, (String, (String, (String, (String, ())))))) as Wire>::decodable()
    }

    closed spec fn spec_write(m: Self::Model) -> Seq<u8> {
        <(BlockPos, (String, (String, (String, (String, (String, ())))))) as Wire>::spec_write(m)
    }

    closed spec fn spec_read(s: Seq<u8>) -> Result<(Self::Model, nat), DecodeError> {
        <(BlockPos, (String, (String, (String, (String, (String, ())))))) as Wire>::spec_read(s)
    }

    fn write(&self, out: &mut Vec<u8>) {
        let ghost o0 = out@;
        self.location.write(out);
        proof { lemma_write_step::<BlockPos, (String, (String, (String, (String, (String, ())))))>(o0, out@, self.location.model(), (self.name.model(), (self.target.model(), (self.pool.model(), (self.final_state.model(), (self.joint_type.model(), ())))))); }
        let ghost o1 = out@;
        self.name.write(out);
        proof { lemma_write_step::<String, (String, (String, (String, (String, ()))))>(o1, out@, self.name.model(), (self.target.model(), (self.pool.model(), (self.final_state.model(), (self.joint_type.model(), ()))))); }
        let ghost o2 = out@;
        self.target.write(out);
        proof { lemma_write_step::<String, (String, (String, (String, ())))>(o2, out@, self.target.model(), (self.pool.model(), (self.final_state.model(), (self.joint_type.model(), ())))); }
        let ghost o3 = out@;
        self.pool.write(out);
        proof { lemma_write_step::<String, (String, (String, ()))>(o3, out@, self.pool.model(), (self.final_state.model(), (self.joint_type.model(), ()))); }
        let ghost o4 = out@;
        self.final_state.write(out);
        proof { lemma_write_step::<String, (String, ())>(o4, out@, self.final_state.model(), (self.joint_type.model(), ())); }
        let ghost o5 = out@;
        self.joint_type.write(out);
        proof { lemma_write_step::<String, ()>(o5, out@, self.joint_type.model(), ()); }
        let ghost o6 = out@;
        assert(o6 + Seq::<u8>::empty() =~= o6);
    }

    fn read(buf: &[u8], pos: usize) -> (r: Result<(C2SSetJigsawBlock, usize), DecodeError>) {
        match <(BlockPos, (String, (String, (String, (String, (String, ())))))) as Wire>::read(buf, pos) {
            Ok(((location, (name, (target, (pool, (final_state, (joint_type, ())))))), end)) => Ok((C2SSetJigsawBlock { location, name, target, pool, final_state, joint_type }, end)),
            Err(e) => Err(e),
        }
    }

    proof fn lemma_read_len(s: Seq<u8>) {
        <(BlockPos, (String, (String, (String, (String, (String, ())))))) as Wire>::lemma_read_len(s);
    }

    proof fn lemma_roundtrip(m: Self::Model, rest: Seq<u8>) {
        <(BlockPos, (String, (String, (String, (String, (String, ())))))) as Wire>::lemma_roundtrip(m, rest);
    }
}

impl Packet for C2SSetJigsawBlock {
    open spec fn spec_id() -> i32 {
        0x2C
    }

    open spec fn spec_state() -> State {
        State::Play
    }

    fn id(&self) -> (r: VarInt) {
        VarInt(0x2C)
    }

    fn state(&self) -> (r: State) {
        State::Play
    }
}

/// 0x2D - Program Structure Block. `integrity` holds `f32` bits.
#[derive(Debug, Clone, PartialEq)]
pub struct C2SSetStructureBlock {
    pub location: BlockPos,
    pub action: VarInt,
    pub mode: VarInt,
    pub name: String,
    pub offset_x: i8,
    pub offset_y: i8,
    pub offset_z: i8,
    pub size_x: i8,
    pub size_y: i8,
    pub size_z: i8,
    pub mirror: VarInt,
    pub rotation: VarInt,
    pub metadata: String,
    pub integrity: u32,
    pub seed: VarInt,
    pub flags: u8,
}

/// The fields of [`C2SSetStructureBlock`], in order.
impl Wire for C2SSetStructureBlock {
    type Model = <(BlockPos, (VarInt, (VarInt, (String, (i8, (i8, (i8, (i8, (i8, (i8, (VarInt, (VarInt, (String, (u32, (VarInt, (u8, ())))))))))))))))) as Wire>::Model;

    open spec fn model(&self) -> Self::Model {
        (self.location.model(), (self.action.model(), (self.mode.model(), (self.name.model(), (self.offset_x.model(), (self.offset_y.model(), (self.offset_z.model(), (self.size_x.model(), (self.size_y.model(), (self.size_z.model(), (self.mirror.model(), (self.rotation.model(), (self.metadata.model(), (self.integrity.model(), (self.seed.model(), (self.flags.model(), ()))))))))))))))))
    }

    open spec fn encodable(m: Self::Model) -> bool {
        <(BlockPos, (VarInt, (VarInt, (String, (i8, (i8, (i8, (i8, (i8, (i8, (VarInt, (VarInt, (String, (u32, (VarInt, (u8, ())))))))))))))))) as Wire>::encodable(m)
    }

    open spec fn greedy() -> bool {
        <(BlockPos, (VarInt, (VarInt, (String, (i8, (i8, (i8, (i8, (i8, (i8, (VarInt, (VarInt, (String, (u32, (VarInt, (u8, ())))))))))))))))) as Wire>::greedy()
    }

    open spec fn decodable() -> bool {
        <(BlockPos, (VarInt, (VarInt, (String, (i8, (i8, (i8, (i8, (i8, (i8, (VarInt, (VarInt, (String, (u32, (VarInt, (u8, ())))))))))))))))) as Wire>::decodable()
    }

    closed spec fn spec_write(m: Self::Model) -> Seq<u8> {
        <(BlockPos, (VarInt, (VarInt, (String, (i8, (i8, (i8, (i8, (i8, (i8, (VarInt, (VarInt, (String, (u32, (VarInt, (u8, ())))))))))))))))) as Wire>::spec_write(m)
    }

    closed spec fn spec_read(s: Seq<u8>) -> Result<(Self::Model, nat), DecodeError> {
        <(BlockPos, (VarInt, (VarInt, (String, (i8, (i8, (i8, (i8, (i8, (i8, (VarInt, (VarInt, (String, (u32, (VarInt, (u8, ())))))))))))))))) as Wire>::spec_read(s)
    }

    fn write(&self, out: &mut Vec<u8>) {
        let ghost o0 = out@;
        self.location.write(out);
        proof { lemma_write_step::<BlockPos, (VarInt, (VarInt, (String, (i8, (i8, (i8, (i8, (i8, (i8, (VarInt, (VarInt, (String, (u32, (VarInt, (u8, ())))))))))))))))>(o0, out@, self.location.model(), (self.action.model(), (self.mode.model(), (self.name.model(), (self.offset_x.model(), (self.offset_y.model(), (self.offset_z.model(), (self.size_x.model(), (self.size_y.model(), (self.size_z.model(), (self.mirror.model(), (self.rotation.model(), (self.metadata.model(), (self.integrity.model(), (self.seed.model(), (self.flags.model(), ())))))))))))))))); }
        let ghost o1 = out@;
        self.action.write(out);
        proof { lemma_write_step::<VarInt, (VarInt, (String, (i8, (i8, (i8, (i8, (i8, (i8, (VarInt, (VarInt, (String, (u32, (VarInt, (u8, ()))))))))))))))>(o1, out@, self.action.model(), (self.mode.model(), (self.name.model(), (self.offset_x.model(), (self.offset_y.model(), (self.offset_z.model(), (self.size_x.model(), (self.size_y.model(), (self.size_z.model(), (self.mirror.model(), (self.rotation.model(), (self.metadata.model(), (self.integrity.model(), (self.seed.model(), (self.flags.model(), ()))))))))))))))); }
        let ghost o2 = out@;
        self.mode.write(out);
        proof { lemma_write_step::<VarInt, (String, (i8, (i8, (i8, (i8, (i8, (i8, (VarInt, (VarInt, (String, (u32, (VarInt, (u8, ())))))))))))))>(o2, out@, self.mode.model(), (self.name.model(), (self.offset_x.model(), (self.offset_y.model(), (self.offset_z.model(), (self.size_x.model(), (self.size_y.model(), (self.size_z.model(), (self.mirror.model(), (self.rotation.model(), (self.metadata.model(), (self.integrity.model(), (self.seed.model(), (self.flags.model(), ())))))))))))))); }
        let ghost o3 = out@;
        self.name.write(out);
        proof { lemma_write_step::<String, (i8, (i8, (i8, (i8, (i8, (i8, (VarInt, (VarInt, (String, (u32, (VarInt, (u8, ()))))))))))))>(o3, out@, self.name.model(), (self.offset_x.model(), (self.offset_y.model(), (self.offset_z.model(), (self.size_x.model(), (self.size_y.model(), (self.size_z.model(), (self.mirror.model(), (self.rotation.model(), (self.metadata.model(), (self.integrity.model(), (self.seed.model(), (self.flags.model(), ()))))))))))))); }
        let ghost o4 = out@;
        self.offset_x.write(out);
        proof { lemma_write_step::<i8, (i8, (i8, (i8, (i8, (i8, (VarInt, (VarInt, (String, (u32, (VarInt, (u8, ())))))))))))>(o4, out@, self.offset_x.model(), (self.offset_y.model(), (self.offset_z.model(), (self.size_x.model(), (self.size_y.model(), (self.size_z.model(), (self.mirror.model(), (self.rotation.model(), (self.metadata.model(), (self.integrity.model(), (self.seed.model(), (self.flags.model(), ())))))))))))); }
        let ghost o5 = out@;
        self.offset_y.write(out);
        proof { lemma_write_step::<i8, (i8, (i8, (i8, (i8, (VarInt, (VarInt, (String, (u32, (VarInt, (u8, ()))))))))))>(o5, out@, self.offset_y.model(), (self.offset_z.model(), (self.size_x.model(), (self.size_y.model(), (self.size_z.model(), (self.mirror.model(), (self.rotation.model(), (self.metadata.model(), (self.integrity.model(), (self.seed.model(), (self.flags.model(), ()))))))))))); }
        let ghost o6 = out@;
        self.offset_z.write(out);
        proof { lemma_write_step::<i8, (i8, (i8, (i8, (VarInt, (VarInt, (String, (u32, (VarInt, (u8, ())))))))))>(o6, out@, self.offset_z.model(), (self.size_x.model(), (self.size_y.model(), (self.size_z.model(), (self.mirror.model(), (self.rotation.model(), (self.metadata.model(), (self.integrity.model(), (self.seed.model(), (self.flags.model(), ())))))))))); }
        let ghost o7 = out@;
        self.size_x.write(out);
        proof { lemma_write_step::<i8, (i8, (i8, (VarInt, (VarInt, (String, (u32, (VarInt, (u8, ()))))))))>(o7, out@, self.size_x.model(), (self.size_y.model(), (self.size_z.model(), (self.mirror.model(), (self.rotation.model(), (self.metadata.model(), (self.integrity.model(), (self.seed.model(), (self.flags.model(), ()))))))))); }
        let ghost o8 = out@;
        self.size_y.write(out);
        proof { lemma_write_step::<i8, (i8, (VarInt, (VarInt, (String, (u32, (VarInt, (u8, ())))))))>(o8, out@, self.size_y.model(), (self.size_z.model(), (self.mirror.model(), (self.rotation.model(), (self.metadata.model(), (self.integrity.model(), (self.seed.model(), (self.flags.model(), ())))))))); }
        let ghost o9 = out@;
        self.size_z.write(out);
        proof { lemma_write_step::<i8, (VarInt, (VarInt, (String, (u32, (VarInt, (u8, ()))))))>(o9, out@, self.size_z.model(), (self.mirror.model(), (self.rotation.model(), (self.metadata.model(), (self.integrity.model(), (self.seed.model(), (self.flags.model(), ()))))))); }
        let ghost o10 = out@;
        self.mirror.write(out);
        proof { lemma_write_step::<VarInt, (VarInt, (String, (u32, (VarInt, (u8, ())))))>(o10, out@, self.mirror.model(), (self.rotation.model(), (self.metadata.model(), (self.integrity.model(), (self.seed.model(), (self.flags.model(), ())))))); }
        let ghost o11 = out@;
        self.rotation.write(out);
        proof { lemma_write_step::<VarInt, (String, (u32, (VarInt, (u8, ()))))>(o11, out@, self.rotation.model(), (self.metadata.model(), (self.integrity.model(), (self.seed.model(), (self.flags.model(), ()))))); }
        let ghost o12 = out@;
        self.metadata.write(out);
        proof { lemma_write_step::<String, (u32, (VarInt, (u8, ())))>(o12, out@, self.metadata.model(), (self.integrity.model(), (self.seed.model(), (self.flags.model(), ())))); }
        let ghost o13 = out@;
        self.integrity.write(out);
        proof { lemma_write_step::<u32, (VarInt, (u8, ()))>(o13, out@, self.integrity.model(), (self.seed.model(), (self.flags.model(), ()))); }
        let ghost o14 = out@;
        self.seed.write(out);
        proof { lemma_write_step::<VarInt, (u8, ())>(o14, out@, self.seed.model(), (self.flags.model(), ())); }
        let ghost o15 = out@;
        self.flags.write(out);
        proof { lemma_write_step::<u8, ()>(o15, out@, self.flags.model(), ()); }
        let ghost o16 = out@;
        assert(o16 + Seq::<u8>::empty() =~= o16);
    }

    fn read(buf: &[u8], pos: usize) -> (r: Result<(C2SSetStructureBlock, usize), DecodeError>) {
        match <(BlockPos, (VarInt, (VarInt, (String, (i8, (i8, (i8, (i8, (i8, (i8, (VarInt, (VarInt, (String, (u32, (VarInt, (u8, ())))))))))))))))) as Wire>::read(buf, pos) {
            Ok(((location, (action, (mode, (name, (offset_x, (offset_y, (offset_z, (size_x, (size_y, (size_z, (mirror, (rotation, (metadata, (integrity, (seed, (flags, ())))))))))))))))), end)) => Ok((C2SSetStructureBlock { location, action, mode, name, offset_x, offset_y, offset_z, size_x, size_y, size_z, mirror, rotation, metadata, integrity, seed, flags }, end)),
            Err(e) => Err(e),
        }
    }

    proof fn lemma_read_len(s: Seq<u8>) {
        <(BlockPos, (VarInt, (VarInt, (String, (i8, (i8, (i8, (i8, (i8, (i8, (VarInt, (VarInt, (String, (u32, (VarInt, (u8, ())))))))))))))))) as Wire>::lemma_read_len(s);
    }

    proof fn lemma_roundtrip(m: Self::Model, rest: Seq<u8>) {
        <(BlockPos, (VarInt, (VarInt, (String, (i8, (i8, (i8, (i8, (i8, (i8, (VarInt, (VarInt, (String, (u32, (VarInt, (u8, ())))))))))))))))) as Wire>::lemma_roundtrip(m, rest);
    }
}

impl Packet for C2SSetStructureBlock {
    open spec fn spec_id() -> i32 {
        0x2D
    }

    open spec fn spec_state() -> State {
        State::Play
    }

    fn id(&self) -> (r: VarInt) {
        VarInt(0x2D)
    }

    fn state(&self) -> (r: State) {
        State::Play
    }
}

/// 0x2E - Update Sign.
#[derive(Debug, Clone, PartialEq)]
pub struct C2SSignUpdate {
    pub location: BlockPos,
    pub is_front_text: bool,
    pub line1: String,
    pub line2: String,
    pub line3: String,
    pub line4: String,
}

/// The fields of [`C2SSignUpdate`], in order.
impl Wire for C2SSignUpdate {
    type Model = <(BlockPos, (bool, (String, (String, (String, (String, ())))))) as Wire>::Model;

    open spec fn model(&self) -> Self::Model {
        (self.location.model(), (self.is_front_text.model(), (self.line1.model(), (self.line2.model(), (self.line3.model(), (self.line4.model(), ()))))))
    }

    open spec fn encodable(m: Self::Model) -> bool {
        <(BlockPos, (bool, (String, (String, (String, (String, ())))))) as Wire>::encodable(m)
    }

    open spec fn greedy() -> bool {
        <(BlockPos, (bool, (String, (String, (String, (String, ())))))) as Wire>::greedy()
    }

    open spec fn decodable() -> bool {
        <(BlockPos, (bool, (String, (String, (String, (String, ())))))) as Wire>::decodable()
    }

    closed spec fn spec_write(m: Self::Model) -> Seq<u8> {
        <(BlockPos, (bool, (String, (String, (String, (String, ())))))) as Wire>::spec_write(m)
    }

    closed spec fn spec_read(s: Seq<u8>) -> Result<(Self::Model, nat), DecodeError> {
        <(BlockPos, (bool, (String, (String, (String, (String, ())))))) as Wire>::spec_read(s)
    }

    fn write(&self, out: &mut Vec<u8>) {
        let ghost o0 = out@;
        self.location.write(out);
        proof { lemma_write_step::<BlockPos, (bool, (String, (String, (String, (String, ())))))>(o0, out@, self.location.model(), (self.is_front_text.model(), (self.line1.model(), (self.line2.model(), (self.line3.model(), (self.line4.model(), ())))))); }
        let ghost o1 = out@;
        self.is_front_text.write(out);
        proof { lemma_write_step::<bool, (String, (String, (String, (String, ()))))>(o1, out@, self.is_front_text.model(), (self.line1.model(), (self.line2.model(), (self.line3.model(), (self.line4.model(), ()))))); }
        let ghost o2 = out@;
        self.line1.write(out);
        proof { lemma_write_step::<String, (String, (String, (String, ())))>(o2, out@, self.line1.model(), (self.line2.model(), (self.line3.model(), (self.line4.model(), ())))); }
        let ghost o3 = out@;
        self.line2.write(out);
        proof { lemma_write_step::<String, (String, (String, ()))>(o3, out@, self.line2.model(), (self.line3.model(), (self.line4.model(), ()))); }
        let ghost o4 = out@;
        self.line3.write(out);
        proof { lemma_write_step::<String, (String, ())>(o4, out@, self.line3.model(), (self.line4.model(), ())); }
        let ghost o5 = out@;
        self.line4.write(out);
        proof { lemma_write_step::<String, ()>(o5, out@, self.line4.model(), ()); }
        let ghost o6 = out@;
        assert(o6 + Seq::<u8>::empty() =~= o6);
    }

    fn read(buf: &[u8], pos: usize) -> (r: Result<(C2SSignUpdate, usize), DecodeError>) {
        match <(BlockPos, (bool, (String, (String, (String, (String, ())))))) as Wire>::read(buf, pos) {
            Ok(((location, (is_front_text, (line1, (line2, (line3, (line4, ())))))), end)) => Ok((C2SSignUpdate { location, is_front_text, line1, line2, line3, line4 }, end)),
            Err(e) => Err(e),
        }
    }

    proof fn lemma_read_len(s: Seq<u8>) {
        <(BlockPos, (bool, (String, (String, (String, (String, ())))))) as Wire>::lemma_read_len(s);
    }

    proof fn lemma_roundtrip(m: Self::Model, rest: Seq<u8>) {
        <(BlockPos, (bool, (String, (String, (String, (String, ())))))) as Wire>::lemma_roundtrip(m, rest);
    }
}

impl Packet for C2SSignUpdate {
    open spec fn spec_id() -> i32 {
        0x2E
    }

    open spec fn spec_state() -> State {
        State::Play
    }

    fn id(&self) -> (r: VarInt) {
        VarInt(0x2E)
    }

    fn state(&self) -> (r: State) {
        State::Play
    }
}

/// 0x2F - Swing Arm.
#[derive(Debug, Clone, PartialEq)]
pub struct C2SSwing {
    pub hand: VarInt,
}

/// The fields of [`C2SSwing`], in order.
impl Wire for C2SSwing {
    type Model = <(VarInt, ()) as Wire>::Model;

    open spec fn model(&self) -> Self::Model {
        (self.hand.model(), ())
    }

    open spec fn encodable(m: Self::Model) -> bool {
        <(VarInt, ()) as Wire>::encodable(m)
    }

    open spec fn greedy() -> bool {
        <(VarInt, ()) as Wire>::greedy()
    }

    open spec fn decodable() -> bool {
        <(VarInt, ()) as Wire>::decodable()
    }

    closed spec fn spec_write(m: Self::Model) -> Seq<u8> {
        <(VarInt, ()) as Wire>::spec_write(m)
    }

    closed spec fn spec_read(s: Seq<u8>) -> Result<(Self::Model, nat), DecodeError> {
        <(VarInt, ()) as Wire>::spec_read(s)
    }

    fn write(&self, out: &mut Vec<u8>) {
        let ghost o0 = out@;
        self.hand.write(out);
        proof { lemma_write_step::<VarInt, ()>(o0, out@, self.hand.model(), ()); }
        let ghost o1 = out@;
        assert(o1 + Seq::<u8>::empty() =~= o1);
    }

    fn read(buf: &[u8], pos: usize) -> (r: Result<(C2SSwing, usize), DecodeError>) {
        match <(VarInt, ()) as Wire>::read(buf, pos) {
            Ok(((hand, ()), end)) => Ok((C2SSwing { hand }, end)),
            Err(e) => Err(e),
        }
    }

    proof fn lemma_read_len(s: Seq<u8>) {
        <(VarInt, ()) as Wire>::lemma_read_len(s);
    }

    proof fn lemma_roundtrip(m: Self::Model, rest: Seq<u8>) {
        <(VarInt, ()) as Wire>::lemma_roundtrip(m, rest);
    }
}

impl Packet for C2SSwing {
    open spec fn spec_id() -> i32 {
        0x2F
    }

    open spec fn spec_state() -> State {
        State::Play
    }

    fn id(&self) -> (r: VarInt) {
        VarInt(0x2F)
    }

    fn state(&self) -> (r: State) {
        State::Play
    }
}

/// 0x30 - Teleport To Entity; `target` holds the UUID's 128 bits.
#[derive(Debug, Clone, PartialEq)]
pub struct C2SSpectate {
    pub target: u128,
}

/// The fields of [`C2SSpectate`], in order.
impl Wire for C2SSpectate {
    type Model = <(u128, ()) as Wire>::Model;

    open spec fn model(&self) -> Self::Model {
        (self.target.model(), ())
    }

    open spec fn encodable(m: Self::Model) -> bool {
        <(u128, ()) as Wire>::encodable(m)
    }

    open spec fn greedy() -> bool {
        <(u128, ()) as Wire>::greedy()
    }

    open spec fn decodable() -> bool {
        <(u128, ()) as Wire>::decodable()
    }

    closed spec fn spec_write(m: Self::Model) -> Seq<u8> {
        <(u128, ()) as Wire>::spec_write(m)
    }

    closed spec fn spec_read(s: Seq<u8>) -> Result<(Self::Model, nat), DecodeError> {
        <(u128, ()) as Wire>::spec_read(s)
    }

    fn write(&self, out: &mut Vec<u8>) {
        let ghost o0 = out@;
        self.target.write(out);
        proof { lemma_write_step::<u128, ()>(o0, out@, self.target.model(), ()); }
        let ghost o1 = out@;
        assert(o1 + Seq::<u8>::empty() =~= o1);
    }

    fn read(buf: &[u8], pos: usize) -> (r: Result<(C2SSpectate, usize), DecodeError>) {
        match <(u128, ()) as Wire>::read(buf, pos) {
            Ok(((target, ()), end)) => Ok((C2SSpectate { target }, end)),
            Err(e) => Err(e),
        }
    }

    proof fn lemma_read_len(s: Seq<u8>) {
        <(u128, ()) as Wire>::lemma_read_len(s);
    }

    proof fn lemma_roundtrip(m: Self::Model, rest: Seq<u8>) {
        <(u128, ()) as Wire>::lemma_roundtrip(m, rest);
    }
}

impl Packet for C2SSpectate {
    open spec fn spec_id() -> i32 {
        0x30
    }

    open spec fn spec_state() -> State {
        State::Play
    }

    fn id(&self) -> (r: VarInt) {
        VarInt(0x30)
    }

    fn state(&self) -> (r: State) {
        State::Play
    }
}

/// 0x31 - Use Item On. The cursor coordinates hold `f32` bits.
#[derive(Debug, Clone, PartialEq)]
pub struct C2SUseItemOn {
    pub hand: VarInt,
    pub location: BlockPos,
    pub direction: VarInt,
    pub cursor_x: u32,
    pub cursor_y: u32,
    pub cursor_z: u32,
    pub inside_block: bool,
    pub sequence: VarInt,
}

/// The fields of [`C2SUseItemOn`], in order.
impl Wire for C2SUseItemOn {
    type Model = <(VarInt, (BlockPos, (VarInt, (u32, (u32, (u32, (bool, (VarInt, ())))))))) as Wire>::Model;

    open spec fn model(&self) -> Self::Model {
        (self.hand.model(), (self.location.model(), (self.direction.model(), (self.cursor_x.model(), (self.cursor_y.model(), (self.cursor_z.model(), (self.inside_block.model(), (self.sequence.model(), ()))))))))
    }

    open spec fn encodable(m: Self::Model) -> bool {
        <(VarInt, (BlockPos, (VarInt, (u32, (u32, (u32, (bool, (VarInt, ())))))))) as Wire>::encodable(m)
    }

    open spec fn greedy() -> bool {
        <(VarInt, (BlockPos, (VarInt, (u32, (u32, (u32, (bool, (VarInt, ())))))))) as Wire>::greedy()
    }

    open spec fn decodable() -> bool {
        <(VarInt, (BlockPos, (VarInt, (u32, (u32, (u32, (bool, (VarInt, ())))))))) as Wire>::decodable()
    }

    closed spec fn spec_write(m: Self::Model) -> Seq<u8> {
        <(VarInt, (BlockPos, (VarInt, (u32, (u32, (u32, (bool, (VarInt, ())))))))) as Wire>::spec_write(m)
    }

    closed spec fn spec_read(s: Seq<u8>) -> Result<(Self::Model, nat), DecodeError> {
        <(VarInt, (BlockPos, (VarInt, (u32, (u32, (u32, (bool, (VarInt, ())))))))) as Wire>::spec_read(s)
    }

    fn write(&self, out: &mut Vec<u8>) {
        let ghost o0 = out@;
        self.hand.write(out);
        proof { lemma_write_step::<VarInt, (BlockPos, (VarInt, (u32, (u32, (u32, (bool, (VarInt, ())))))))>(o0, out@, self.hand.model(), (self.location.model(), (self.direction.model(), (self.cursor_x.model(), (self.cursor_y.model(), (self.cursor_z.model(), (self.inside_block.model(), (self.sequence.model(), ())))))))); }
        let ghost o1 = out@;
        self.location.write(out);
        proof { lemma_write_step::<BlockPos, (VarInt, (u32, (u32, (u32, (bool, (VarInt, ()))))))>(o1, out@, self.location.model(), (self.direction.model(), (self.cursor_x.model(), (self.cursor_y.model(), (self.cursor_z.model(), (self.inside_block.model(), (self.sequence.model(), ()))))))); }
        let ghost o2 = out@;
        self.direction.write(out);
        proof { lemma_write_step::<VarInt, (u32, (u32, (u32, (bool, (VarInt, ())))))>(o2, out@, self.direction.model(), (self.cursor_x.model(), (self.cursor_y.model(), (self.cursor_z.model(), (self.inside_block.model(), (self.sequence.model(), ())))))); }
        let ghost o3 = out@;
        self.cursor_x.write(out);
        proof { lemma_write_step::<u32, (u32, (u32, (bool, (VarInt, ()))))>(o3, out@, self.cursor_x.model(), (self.cursor_y.model(), (self.cursor_z.model(), (self.inside_block.model(), (self.sequence.model(), ()))))); }
        let ghost o4 = out@;
        self.cursor_y.write(out);
        proof { lemma_write_step::<u32, (u32, (bool, (VarInt, ())))>(o4, out@, self.cursor_y.model(), (self.cursor_z.model(), (self.inside_block.model(), (self.sequence.model(), ())))); }
        let ghost o5 = out@;
        self.cursor_z.write(out);
        proof { lemma_write_step::<u32, (bool, (VarInt, ()))>(o5, out@, self.cursor_z.model(), (self.inside_block.model(), (self.sequence.model(), ()))); }
        let ghost o6 = out@;
        self.inside_block.write(out);
        proof { lemma_write_step::<bool, (VarInt, ())>(o6, out@, self.inside_block.model(), (self.sequence.model(), ())); }
        let ghost o7 = out@;
        self.sequence.write(out);
        proof { lemma_write_step::<VarInt, ()>(o7, out@, self.sequence.model(), ()); }
        let ghost o8 = out@;
        assert(o8 + Seq::<u8>::empty() =~= o8);
    }

    fn read(buf: &[u8], pos: usize) -> (r: Result<(C2SUseItemOn, usize), DecodeError>) {
        match <(VarInt, (BlockPos, (VarInt, (u32, (u32, (u32, (bool, (VarInt, ())))))))) as Wire>::read(buf, pos) {
            Ok(((hand, (location, (direction, (cursor_x, (cursor_y, (cursor_z, (inside_block, (sequence, ())))))))), end)) => Ok((C2SUseItemOn { hand, location, direction, cursor_x, cursor_y, cursor_z, inside_block, sequence }, end)),
            Err(e) => Err(e),
        }
    }

    proof fn lemma_read_len(s: Seq<u8>) {
        <(VarInt, (BlockPos, (VarInt, (u32, (u32, (u32, (bool, (VarInt, ())))))))) as Wire>::lemma_read_len(s);
    }

    proof fn lemma_roundtrip(m: Self::Model, rest: Seq<u8>) {
        <(VarInt, (BlockPos, (VarInt, (u32, (u32, (u32, (bool, (VarInt, ())))))))) as Wire>::lemma_roundtrip(m, rest);
    }
}

impl Packet for C2SUseItemOn {
    open spec fn spec_id() -> i32 {
        0x31
    }

    open spec fn spec_state() -> State {
        State::Play
    }

    fn id(&self) -> (r: VarInt) {
        VarInt(0x31)
    }

    fn state(&self) -> (r: State) {
        State::Play
    }
}

/// 0x32 - Use Item.
#[derive(Debug, Clone, PartialEq)]
pub struct C2SUseItem {
    pub hand: VarInt,
    pub sequence: VarInt,
}

/// The fields of [`C2SUseItem`], in order.
impl Wire for C2SUseItem {
    type Model = <(VarInt, (VarInt, ())) as Wire>::Model;

    open spec fn model(&self) -> Self::Model {
        (self.hand.model(), (self.sequence.model(), ()))
    }

    open spec fn encodable(m: Self::Model) -> bool {
        <(VarInt, (VarInt, ())) as Wire>::encodable(m)
    }

    open spec fn greedy() -> bool {
        <(VarInt, (VarInt, ())) as Wire>::greedy()
    }

    open spec fn decodable() -> bool {
        <(VarInt, (VarInt, ())) as Wire>::decodable()
    }

    closed spec fn spec_write(m: Self::Model) -> Seq<u8> {
        <(VarInt, (VarInt, ())) as Wire>::spec_write(m)
    }

    closed spec fn spec_read(s: Seq<u8>) -> Result<(Self::Model, nat), DecodeError> {
        <(VarInt, (VarInt, ())) as Wire>::spec_read(s)
    }

    fn write(&self, out: &mut Vec<u8>) {
        let ghost o0 = out@;
        self.hand.write(out);
        proof { lemma_write_step::<VarInt, (VarInt, ())>(o0, out@, self.hand.model(), (self.sequence.model(), ())); }
        let ghost o1 = out@;
        self.sequence.write(out);
        proof { lemma_write_step::<VarInt, ()>(o1, out@, self.sequence.model(), ()); }
        let ghost o2 = out@;
        assert(o2 + Seq::<u8>::empty() =~= o2);
    }

    fn read(buf: &[u8], pos: usize) -> (r: Result<(C2SUseItem, usize), DecodeError>) {
        match <(VarInt, (VarInt, ())) as Wire>::read(buf, pos) {
            Ok(((hand, (sequence, ())), end)) => Ok((C2SUseItem { hand, sequence }, end)),
            Err(e) => Err(e),
        }
    }

    proof fn lemma_read_len(s: Seq<u8>) {
        <(VarInt, (VarInt, ())) as Wire>::lemma_read_len(s);
    }

    proof fn lemma_roundtrip(m: Self::Model, rest: Seq<u8>) {
        <(VarInt, (VarInt, ())) as Wire>::lemma_roundtrip(m, rest);
    }
}

impl Packet for C2SUseItem {
    open spec fn spec_id() -> i32 {
        0x32
    }

    open spec fn spec_state() -> State {
        State::Play
    }

    fn id(&self) -> (r: VarInt) {
        VarInt(0x32)
    }

    fn state(&self) -> (r: State) {
        State::Play
    }
}

/// A single argument signature in [`C2SChatCommand`]: the argument name plus a
/// fixed 256-byte signature.
#[derive(Debug, Clone, PartialEq)]
pub struct ArgumentSignature {
    pub argument_name: String,
    pub signature: [u8; 256],
}

/// The fields of [`ArgumentSignature`], in order.
impl Wire for ArgumentSignature {
    type Model = <(String, ([u8; 256], ())) as Wire>::Model;

    open spec fn model(&self) -> Self::Model {
        (self.argument_name.model(), (self.signature.model(), ()))
    }

    open spec fn encodable(m: Self::Model) -> bool {
        <(String, ([u8; 256], ())) as Wire>::encodable(m)
    }

    open spec fn greedy() -> bool {
        <(String, ([u8; 256], ())) as Wire>::greedy()
    }

    open spec fn decodable() -> bool {
        <(String, ([u8; 256], ())) as Wire>::decodable()
    }

    closed spec fn spec_write(m: Self::Model) -> Seq<u8> {
        <(String, ([u8; 256], ())) as Wire>::spec_write(m)
    }

    closed spec fn spec_read(s: Seq<u8>) -> Result<(Self::Model, nat), DecodeError> {
        <(String, ([u8; 256], ())) as Wire>::spec_read(s)
    }

    fn write(&self, out: &mut Vec<u8>) {
        let ghost o0 = out@;
        self.argument_name.write(out);
        proof { lemma_write_step::<String, ([u8; 256], ())>(o0, out@, self.argument_name.model(), (self.signature.model(), ())); }
        let ghost o1 = out@;
        self.signature.write(out);
        proof { lemma_write_step::<[u8; 256], ()>(o1, out@, self.signature.model(), ()); }
        let ghost o2 = out@;
        assert(o2 + Seq::<u8>::empty() =~= o2);
    }

    fn read(buf: &[u8], pos: usize) -> (r: Result<(ArgumentSignature, usize), DecodeError>) {
        match <(String, ([u8; 256], ())) as Wire>::read(buf, pos) {
            Ok(((argument_name, (signature, ())), end)) => Ok((ArgumentSignature { argument_name, signature }, end)),
            Err(e) => Err(e),
        }
    }

    proof fn lemma_read_len(s: Seq<u8>) {
        <(String, ([u8; 256], ())) as Wire>::lemma_read_len(s);
    }

    proof fn lemma_roundtrip(m: Self::Model, rest: Seq<u8>) {
        <(String, ([u8; 256], ())) as Wire>::lemma_roundtrip(m, rest);
    }
}

} // verus!
