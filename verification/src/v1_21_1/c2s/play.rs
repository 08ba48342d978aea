//! Client-to-server Play packets (1.21.1). Only teleport acks, keep-alive
//! replies and movement are modeled.

use vstd::prelude::*;

use crate::codec::Wire;
use crate::containers::lemma_write_step;
use crate::error::DecodeError;
use crate::packet::Packet;
use crate::state::State;
use crate::varint::VarInt;

verus! {

/// 0x00 - Accept Teleportation (Teleport Confirm).
#[derive(Debug, Clone, PartialEq)]
pub struct C2SAcceptTeleportation {
    pub id: VarInt,
}

/// The fields of [`C2SAcceptTeleportation`], in order.
impl Wire for C2SAcceptTeleportation {
    type Model = <(VarInt, ()) as Wire>::Model;

    open spec fn model(&self) -> Self::Model {
        (self.id.model(), ())
    }

    open spec fn encodable(m: Self::Model) -> bool {
        <(VarInt, ()) as Wire>::encodable(m)
    }

    open spec fn greedy() -> bool {
        <(VarInt, ()) as Wire>::greedy()
    }

    open spec fn decodable() -> bool {
        <(VarInt, ()) as Wire>::decodable()
    }

    closed spec fn spec_write(m: Self::Model) -> Seq<u8> {
        <(VarInt, ()) as Wire>::spec_write(m)
    }

    closed spec fn spec_read(s: Seq<u8>) -> Result<(Self::Model, nat), DecodeError> {
        <(VarInt, ()) as Wire>::spec_read(s)
    }

    fn write(&self, out: &mut Vec<u8>) {
        let ghost o0 = out@;
        self.id.write(out);
        proof { lemma_write_step::<VarInt, ()>(o0, out@, self.id.model(), ()); }
        let ghost o1 = out@;
        assert(o1 + Seq::<u8>::empty() =~= o1);
    }

    fn read(buf: &[u8], pos: usize) -> (r: Result<(C2SAcceptTeleportation, usize), DecodeError>) {
        match <(VarInt, ()) as Wire>::read(buf, pos) {
            Ok(((id, ()), end)) => Ok((C2SAcceptTeleportation { id }, end)),
            Err(e) => Err(e),
        }
    }

    proof fn lemma_read_len(s: Seq<u8>) {
        <(VarInt, ()) as Wire>::lemma_read_len(s);
    }

    proof fn lemma_roundtrip(m: Self::Model, rest: Seq<u8>) {
        <(VarInt, ()) as Wire>::lemma_roundtrip(m, rest);
    }
}

impl Packet for C2SAcceptTeleportation {
    open spec fn spec_id() -> i32 {
        0x00
    }

    open spec fn spec_state() -> State {
        State::Play
    }

    fn id(&self) -> (r: VarInt) {
        VarInt(0x00)
    }

    fn state(&self) -> (r: State) {
        State::Play
    }
}

/// 0x18 - Keep Alive; `id` is an `i64`.
#[derive(Debug, Clone, PartialEq)]
pub struct C2SKeepAlive {
    pub id: i64,
}

/// The fields of [`C2SKeepAlive`], in order.
impl Wire for C2SKeepAlive {
    type Model = <(i64, ()) as Wire>::Model;

    open spec fn model(&self) -> Self::Model {
        (self.id.model(), ())
    }

    open spec fn encodable(m: Self::Model) -> bool {
        <(i64, ()) as Wire>::encodable(m)
    }

    open spec fn greedy() -> bool {
        <(i64, ()) as Wire>::greedy()
    }

    open spec fn decodable() -> bool {
        <(i64, ()) as Wire>::decodable()
    }

    closed spec fn spec_write(m: Self::Model) -> Seq<u8> {
        <(i64, ()) as Wire>::spec_write(m)
    }

    closed spec fn spec_read(s: Seq<u8>) -> Result<(Self::Model, nat), DecodeError> {
        <(i64, ()) as Wire>::spec_read(s)
    }

    fn write(&self, out: &mut Vec<u8>) {
        let ghost o0 = out@;
        self.id.write(out);
        proof { lemma_write_step::<i64, ()>(o0, out@, self.id.model(), ()); }
        let ghost o1 = out@;
        assert(o1 + Seq::<u8>::empty() =~= o1);
    }

    fn read(buf: &[u8], pos: usize) -> (r: Result<(C2SKeepAlive, usize), DecodeError>) {
        match <(i64, ()) as Wire>::read(buf, pos) {
            Ok(((id, ()), end)) => Ok((C2SKeepAlive { id }, end)),
            Err(e) => Err(e),
        }
    }

    proof fn lemma_read_len(s: Seq<u8>) {
        <(i64, ()) as Wire>::lemma_read_len(s);
    }

    proof fn lemma_roundtrip(m: Self::Model, rest: Seq<u8>) {
        <(i64, ()) as Wire>::lemma_roundtrip(m, rest);
    }
}

impl Packet for C2SKeepAlive {
    open spec fn spec_id() -> i32 {
        0x18
    }

    open spec fn spec_state() -> State {
        State::Play
    }

    fn id(&self) -> (r: VarInt) {
        VarInt(0x18)
    }

    fn state(&self) -> (r: State) {
        State::Play
    }
}

/// 0x14 - Move Player Pos. Coordinates hold `f64` bits.
#[derive(Debug, Clone, PartialEq)]
pub struct C2SPlayerPos {
    pub x: u64,
    pub y: u64,
    pub z: u64,
    pub on_ground: bool,
}

/// The fields of [`C2SPlayerPos`], in order.
impl Wire for C2SPlayerPos {
    type Model = <(u64, (u64, (u64, (bool, ())))) as Wire>::Model;

    open spec fn model(&self) -> Self::Model {
        (self.x.model(), (self.y.model(), (self.z.model(), (self.on_ground.model(), ()))))
    }

    open spec fn encodable(m: Self::Model) -> bool {
        <(u64, (u64, (u64, (bool, ())))) as Wire>::encodable(m)
    }

    open spec fn greedy() -> bool {
        <(u64, (u64, (u64, (bool, ())))) as Wire>::greedy()
    }

    open spec fn decodable() -> bool {
        <(u64, (u64, (u64, (bool, ())))) as Wire>::decodable()
    }

    closed spec fn spec_write(m: Self::Model) -> Seq<u8> {
        <(u64, (u64, (u64, (bool, ())))) as Wire>::spec_write(m)
    }

    closed spec fn spec_read(s: Seq<u8>) -> Result<(Self::Model, nat), DecodeError> {
        <(u64, (u64, (u64, (bool, ())))) as Wire>::spec_read(s)
    }

    fn write(&self, out: &mut Vec<u8>) {
        let ghost o0 = out@;
        self.x.write(out);
        proof { lemma_write_step::<u64, (u64, (u64, (bool, ())))>(o0, out@, self.x.model(), (self.y.model(), (self.z.model(), (self.on_ground.model(), ())))); }
        let ghost o1 = out@;
        self.y.write(out);
        proof { lemma_write_step::<u64, (u64, (bool, ()))>(o1, out@, self.y.model(), (self.z.model(), (self.on_ground.model(), ()))); }
        let ghost o2 = out@;
        self.z.write(out);
        proof { lemma_write_step::<u64, (bool, ())>(o2, out@, self.z.model(), (self.on_ground.model(), ())); }
        let ghost o3 = out@;
        self.on_ground.write(out);
        proof { lemma_write_step::<bool, ()>(o3, out@, self.on_ground.model(), ()); }
        let ghost o4 = out@;
        assert(o4 + Seq::<u8>::empty() =~= o4);
    }

    fn read(buf: &[u8], pos: usize) -> (r: Result<(C2SPlayerPos, usize), DecodeError>) {
        match <(u64, (u64, (u64, (bool, ())))) as Wire>::read(buf, pos) {
            Ok(((x, (y, (z, (on_ground, ())))), end)) => Ok((C2SPlayerPos { x, y, z, on_ground }, end)),
            Err(e) => Err(e),
        }
    }

    proof fn lemma_read_len(s: Seq<u8>) {
        <(u64, (u64, (u64, (bool, ())))) as Wire>::lemma_read_len(s);
    }

    proof fn lemma_roundtrip(m: Self::Model, rest: Seq<u8>) {
        <(u64, (u64, (u64, (bool, ())))) as Wire>::lemma_roundtrip(m, rest);
    }
}

impl Packet for C2SPlayerPos {
    open spec fn spec_id() -> i32 {
        0x14
    }

    open spec fn spec_state() -> State {
        State::Play
    }

    fn id(&self) -> (r: VarInt) {
        VarInt(0x14)
    }

    fn state(&self) -> (r: State) {
        State::Play
    }
}

/// 0x15 - Move Player Pos Rot. Coordinates hold `f64` bits, rotations `f32`
/// bits.
#[derive(Debug, Clone, PartialEq)]
pub struct C2SPlayerPosRot {
    pub x: u64,
    pub y: u64,
    pub z: u64,
    pub y_rot: u32,
    pub x_rot: u32,
    pub on_ground: bool,
}

/// The fields of [`C2SPlayerPosRot`], in order.
impl Wire for C2SPlayerPosRot {
    type Model = <(u64, (u64, (u64, (u32, (u32, (bool, ())))))) as Wire>::Model;

    open spec fn model(&self) -> Self::Model {
        (self.x.model(), (self.y.model(), (self.z.model(), (self.y_rot.model(), (self.x_rot.model(), (self.on_ground.model(), ()))))))
    }

    open spec fn encodable(m: Self::Model) -> bool {
        <(u64, (u64, (u64, (u32, (u32, (bool, ())))))) as Wire>::encodable(m)
    }

    open spec fn greedy() -> bool {
        <(u64, (u64, (u64, (u32, (u32, (bool, ())))))) as Wire>::greedy()
    }

    open spec fn decodable() -> bool {
        <(u64, (u64, (u64, (u32, (u32, (bool, ())))))) as Wire>::decodable()
    }

    closed spec fn spec_write(m: Self::Model) -> Seq<u8> {
        <(u64, (u64, (u64, (u32, (u32, (bool, ())))))) as Wire>::spec_write(m)
    }

    closed spec fn spec_read(s: Seq<u8>) -> Result<(Self::Model, nat), DecodeError> {
        <(u64, (u64, (u64, (u32, (u32, (bool, ())))))) as Wire>::spec_read(s)
    }

    fn write(&self, out: &mut Vec<u8>) {
        let ghost o0 = out@;
        self.x.write(out);
        proof { lemma_write_step::<u64, (u64, (u64, (u32, (u32, (bool, ())))))>(o0, out@, self.x.model(), (self.y.model(), (self.z.model(), (self.y_rot.model(), (self.x_rot.model(), (self.on_ground.model(), ())))))); }
        let ghost o1 = out@;
        self.y.write(out);
        proof { lemma_write_step::<u64, (u64, (u32, (u32, (bool, ()))))>(o1, out@, self.y.model(), (self.z.model(), (self.y_rot.model(), (self.x_rot.model(), (self.on_ground.model(), ()))))); }
        let ghost o2 = out@;
        self.z.write(out);
        proof { lemma_write_step::<u64, (u32, (u32, (bool, ())))>(o2, out@, self.z.model(), (self.y_rot.model(), (self.x_rot.model(), (self.on_ground.model(), ())))); }
        let ghost o3 = out@;
        self.y_rot.write(out);
        proof { lemma_write_step::<u32, (u32, (bool, ()))>(o3, out@, self.y_rot.model(), (self.x_rot.model(), (self.on_ground.model(), ()))); }
        let ghost o4 = out@;
        self.x_rot.write(out);
        proof { lemma_write_step::<u32, (bool, ())>(o4, out@, self.x_rot.model(), (self.on_ground.model(), ())); }
        let ghost o5 = out@;
        self.on_ground.write(out);
        proof { lemma_write_step::<bool, ()>(o5, out@, self.on_ground.model(), ()); }
        let ghost o6 = out@;
        assert(o6 + Seq::<u8>::empty() =~= o6);
    }

    fn read(buf: &[u8], pos: usize) -> (r: Result<(C2SPlayerPosRot, usize), DecodeError>) {
        match <(u64, (u64, (u64, (u32, (u32, (bool, ())))))) as Wire>::read(buf, pos) {
            Ok(((x, (y, (z, (y_rot, (x_rot, (on_ground, ())))))), end)) => Ok((C2SPlayerPosRot { x, y, z, y_rot, x_rot, on_ground }, end)),
            Err(e) => Err(e),
        }
    }

    proof fn lemma_read_len(s: Seq<u8>) {
        <(u64, (u64, (u64, (u32, (u32, (bool, ())))))) as Wire>::lemma_read_len(s);
    }

    proof fn lemma_roundtrip(m: Self::Model, rest: Seq<u8>) {
        <(u64, (u64, (u64, (u32, (u32, (bool, ())))))) as Wire>::lemma_roundtrip(m, rest);
    }
}

impl Packet for C2SPlayerPosRot {
    open spec fn spec_id() -> i32 {
        0x15
    }

    open spec fn spec_state() -> State {
        State::Play
    }

    fn id(&self) -> (r: VarInt) {
        VarInt(0x15)
    }

    fn state(&self) -> (r: State) {
        State::Play
    }
}

/// 0x16 - Move Player Rot. Rotations hold `f32` bits.
#[derive(Debug, Clone, PartialEq)]
pub struct C2SPlayerRot {
    pub y_rot: u32,
    pub x_rot: u32,
    pub on_ground: bool,
}

/// The fields of [`C2SPlayerRot`], in order.
impl Wire for C2SPlayerRot {
    type Model = <(u32, (u32, (bool, ()))) as Wire>::Model;

    open spec fn model(&self) -> Self::Model {
        (self.y_rot.model(), (self.x_rot.model(), (self.on_ground.model(), ())))
    }

    open spec fn encodable(m: Self::Model) -> bool {
        <(u32, (u32, (bool, ()))) as Wire>::encodable(m)
    }

    open spec fn greedy() -> bool {
        <(u32, (u32, (bool, ()))) as Wire>::greedy()
    }

    open spec fn decodable() -> bool {
        <(u32, (u32, (bool, ()))) as Wire>::decodable()
    }

    closed spec fn spec_write(m: Self::Model) -> Seq<u8> {
        <(u32, (u32, (bool, ()))) as Wire>::spec_write(m)
    }

    closed spec fn spec_read(s: Seq<u8>) -> Result<(Self::Model, nat), DecodeError> {
        <(u32, (u32, (bool, ()))) as Wire>::spec_read(s)
    }

    fn write(&self, out: &mut Vec<u8>) {
        let ghost o0 = out@;
        self.y_rot.write(out);
        proof { lemma_write_step::<u32, (u32, (bool, ()))>(o0, out@, self.y_rot.model(), (self.x_rot.model(), (self.on_ground.model(), ()))); }
        let ghost o1 = out@;
        self.x_rot.write(out);
        proof { lemma_write_step::<u32, (bool, ())>(o1, out@, self.x_rot.model(), (self.on_ground.model(), ())); }
        let ghost o2 = out@;
        self.on_ground.write(out);
        proof { lemma_write_step::<bool, ()>(o2, out@, self.on_ground.model(), ()); }
        let ghost o3 = out@;
        assert(o3 + Seq::<u8>::empty() =~= o3);
    }

    fn read(buf: &[u8], pos: usize) -> (r: Result<(C2SPlayerRot, usize), DecodeError>) {
        match <(u32, (u32, (bool, ()))) as Wire>::read(buf, pos) {
            Ok(((y_rot, (x_rot, (on_ground, ()))), end)) => Ok((C2SPlayerRot { y_rot, x_rot, on_ground }, end)),
            Err(e) => Err(e),
        }
    }

    proof fn lemma_read_len(s: Seq<u8>) {
        <(u32, (u32, (bool, ()))) as Wire>::lemma_read_len(s);
    }

    proof fn lemma_roundtrip(m: Self::Model, rest: Seq<u8>) {
        <(u32, (u32, (bool, ()))) as Wire>::lemma_roundtrip(m, rest);
    }
}

impl Packet for C2SPlayerRot {
    open spec fn spec_id() -> i32 {
        0x16
    }

    open spec fn spec_state() -> State {
        State::Play
    }

    fn id(&self) -> (r: VarInt) {
        VarInt(0x16)
    }

    fn state(&self) -> (r: State) {
        State::Play
    }
}

/// 0x17 - Move Player Flying (`StatusOnly` in 1.20.1): just `on_ground`.
#[derive(Debug, Clone, PartialEq)]
pub struct C2SPlayerFlying {
    pub on_ground: bool,
}

/// The fields of [`C2SPlayerFlying`], in order.
impl Wire for C2SPlayerFlying {
    type Model = <(bool, ()) as Wire>::Model;

    open spec fn model(&self) -> Self::Model {
        (self.on_ground.model(), ())
    }

    open spec fn encodable(m: Self::Model) -> bool {
        <(bool, ()) as Wire>::encodable(m)
    }

    open spec fn greedy() -> bool {
        <(bool, ()) as Wire>::greedy()
    }

    open spec fn decodable() -> bool {
        <(bool, ()) as Wire>::decodable()
    }

    closed spec fn spec_write(m: Self::Model) -> Seq<u8> {
        <(bool, ()) as Wire>::spec_write(m)
    }

    closed spec fn spec_read(s: Seq<u8>) -> Result<(Self::Model, nat), DecodeError> {
        <(bool, ()) as Wire>::spec_read(s)
    }

    fn write(&self, out: &mut Vec<u8>) {
        let ghost o0 = out@;
        self.on_ground.write(out);
        proof { lemma_write_step::<bool, ()>(o0, out@, self.on_ground.model(), ()); }
        let ghost o1 = out@;
        assert(o1 + Seq::<u8>::empty() =~= o1);
    }

    fn read(buf: &[u8], pos: usize) -> (r: Result<(C2SPlayerFlying, usize), DecodeError>) {
        match <(bool, ()) as Wire>::read(buf, pos) {
            Ok(((on_ground, ()), end)) => Ok((C2SPlayerFlying { on_ground }, end)),
            Err(e) => Err(e),
        }
    }

    proof fn lemma_read_len(s: Seq<u8>) {
        <(bool, ()) as Wire>::lemma_read_len(s);
    }

    proof fn lemma_roundtrip(m: Self::Model, rest: Seq<u8>) {
        <(bool, ()) as Wire>::lemma_roundtrip(m, rest);
    }
}

impl Packet for C2SPlayerFlying {
    open spec fn spec_id() -> i32 {
        0x17
    }

    open spec fn spec_state() -> State {
        State::Play
    }

    fn id(&self) -> (r: VarInt) {
        VarInt(0x17)
    }

    fn state(&self) -> (r: State) {
        State::Play
    }
}

} // verus!
