//! Server-to-client Play packets (1.21.1). The Login packet no longer carries
//! the registries; its spawn data sits in the nested [`SpawnInfo`].

use vstd::prelude::*;

use crate::codec::Wire;
use crate::containers::lemma_write_step;
use crate::error::DecodeError;
use crate::containers::RawBytes;
use crate::packet::Chat;
use crate::packet::Packet;
use crate::position::BlockPos;
use crate::state::State;
use crate::varint::VarInt;

pub use crate::common::chunk_payload::void_chunk_bytes_v1_21_1;

verus! {

/// 0x1A - Disconnect (Play).
#[derive(Debug, Clone, PartialEq)]
pub struct S2CDisconnectPlay {
    pub reason: Chat,
}

/// The fields of [`S2CDisconnectPlay`], in order.
impl Wire for S2CDisconnectPlay {
    type Model = <(Chat, ()) as Wire>::Model;

    open spec fn model(&self) -> Self::Model {
        (self.reason.model(), ())
    }

    open spec fn encodable(m: Self::Model) -> bool {
        <(Chat, ()) as Wire>::encodable(m)
    }

    open spec fn greedy() -> bool {
        <(Chat, ()) as Wire>::greedy()
    }

    open spec fn decodable() -> bool {
        <(Chat, ()) as Wire>::decodable()
    }

    closed spec fn spec_write(m: Self::Model) -> Seq<u8> {
        <(Chat, ()) as Wire>::spec_write(m)
    }

    closed spec fn spec_read(s: Seq<u8>) -> Result<(Self::Model, nat), DecodeError> {
        <(Chat, ()) as Wire>::spec_read(s)
    }

    fn write(&self, out: &mut Vec<u8>) {
        let ghost o0 = out@;
        self.reason.write(out);
        proof { lemma_write_step::<Chat, ()>(o0, out@, self.reason.model(), ()); }
        let ghost o1 = out@;
        assert(o1 + Seq::<u8>::empty() =~= o1);
    }

    fn read(buf: &[u8], pos: usize) -> (r: Result<(S2CDisconnectPlay, usize), DecodeError>) {
        match <(Chat, ()) as Wire>::read(buf, pos) {
            Ok(((reason, ()), end)) => Ok((S2CDisconnectPlay { reason }, end)),
            Err(e) => Err(e),
        }
    }

    proof fn lemma_read_len(s: Seq<u8>) {
        <(Chat, ()) as Wire>::lemma_read_len(s);
    }

    proof fn lemma_roundtrip(m: Self::Model, rest: Seq<u8>) {
        <(Chat, ()) as Wire>::lemma_roundtrip(m, rest);
    }
}

impl Packet for S2CDisconnectPlay {
    open spec fn spec_id() -> i32 {
        0x1A
    }

    open spec fn spec_state() -> State {
        State::Play
    }

    fn id(&self) -> (r: VarInt) {
        VarInt(0x1A)
    }

    fn state(&self) -> (r: State) {
        State::Play
    }
}

/// 0x22 - Game Event. `param` holds `f32` bits.
#[derive(Debug, Clone, PartialEq)]
pub struct S2CGameEvent {
    pub event: u8,
    pub param: u32,
}

/// The fields of [`S2CGameEvent`], in order.
impl Wire for S2CGameEvent {
    type Model = <(u8, (u32, ())) as Wire>::Model;

    open spec fn model(&self) -> Self::Model {
        (self.event.model(), (self.param.model(), ()))
    }

    open spec fn encodable(m: Self::Model) -> bool {
        <(u8, (u32, ())) as Wire>::encodable(m)
    }

    open spec fn greedy() -> bool {
        <(u8, (u32, ())) as Wire>::greedy()
    }

    open spec fn decodable() -> bool {
        <(u8, (u32, ())) as Wire>::decodable()
    }

    closed spec fn spec_write(m: Self::Model) -> Seq<u8> {
        <(u8, (u32, ())) as Wire>::spec_write(m)
    }

    closed spec fn spec_read(s: Seq<u8>) -> Result<(Self::Model, nat), DecodeError> {
        <(u8, (u32, ())) as Wire>::spec_read(s)
    }

    fn write(&self, out: &mut Vec<u8>) {
        let ghost o0 = out@;
        self.event.write(out);
        proof { lemma_write_step::<u8, (u32, ())>(o0, out@, self.event.model(), (self.param.model(), ())); }
        let ghost o1 = out@;
        self.param.write(out);
        proof { lemma_write_step::<u32, ()>(o1, out@, self.param.model(), ()); }
        let ghost o2 = out@;
        assert(o2 + Seq::<u8>::empty() =~= o2);
    }

    fn read(buf: &[u8], pos: usize) -> (r: Result<(S2CGameEvent, usize), DecodeError>) {
        match <(u8, (u32, ())) as Wire>::read(buf, pos) {
            Ok(((event, (param, ())), end)) => Ok((S2CGameEvent { event, param }, end)),
            Err(e) => Err(e),
        }
    }

    proof fn lemma_read_len(s: Seq<u8>) {
        <(u8, (u32, ())) as Wire>::lemma_read_len(s);
    }

    proof fn lemma_roundtrip(m: Self::Model, rest: Seq<u8>) {
        <(u8, (u32, ())) as Wire>::lemma_roundtrip(m, rest);
    }
}

impl Packet for S2CGameEvent {
    open spec fn spec_id() -> i32 {
        0x22
    }

    open spec fn spec_state() -> State {
        State::Play
    }

    fn id(&self) -> (r: VarInt) {
        VarInt(0x22)
    }

    fn state(&self) -> (r: State) {
        State::Play
    }
}

/// 0x26 - Keep Alive.
#[derive(Debug, Clone, PartialEq)]
pub struct S2CKeepAlive {
    pub id: i64,
}

/// The fields of [`S2CKeepAlive`], in order.
impl Wire for S2CKeepAlive {
    type Model = <(i64, ()) as Wire>::Model;

    open spec fn model(&self) -> Self::Model {
        (self.id.model(), ())
    }

    open spec fn encodable(m: Self::Model) -> bool {
        <(i64, ()) as Wire>::encodable(m)
    }

    open spec fn greedy() -> bool {
        <(i64, ()) as Wire>::greedy()
    }

    open spec fn decodable() -> bool {
        <(i64, ()) as Wire>::decodable()
    }

    closed spec fn spec_write(m: Self::Model) -> Seq<u8> {
        <(i64, ()) as Wire>::spec_write(m)
    }

    closed spec fn spec_read(s: Seq<u8>) -> Result<(Self::Model, nat), DecodeError> {
        <(i64, ()) as Wire>::spec_read(s)
    }

    fn write(&self, out: &mut Vec<u8>) {
        let ghost o0 = out@;
        self.id.write(out);
        proof { lemma_write_step::<i64, ()>(o0, out@, self.id.model(), ()); }
        let ghost o1 = out@;
        assert(o1 + Seq::<u8>::empty() =~= o1);
    }

    fn read(buf: &[u8], pos: usize) -> (r: Result<(S2CKeepAlive, usize), DecodeError>) {
        match <(i64, ()) as Wire>::read(buf, pos) {
            Ok(((id, ()), end)) => Ok((S2CKeepAlive { id }, end)),
            Err(e) => Err(e),
        }
    }

    proof fn lemma_read_len(s: Seq<u8>) {
        <(i64, ()) as Wire>::lemma_read_len(s);
    }

    proof fn lemma_roundtrip(m: Self::Model, rest: Seq<u8>) {
        <(i64, ()) as Wire>::lemma_roundtrip(m, rest);
    }
}

impl Packet for S2CKeepAlive {
    open spec fn spec_id() -> i32 {
        0x26
    }

    open spec fn spec_state() -> State {
        State::Play
    }

    fn id(&self) -> (r: VarInt) {
        VarInt(0x26)
    }

    fn state(&self) -> (r: State) {
        State::Play
    }
}

/// 0x27 - Level Chunk With Light; the body is precomputed bytes.
#[derive(Debug, Clone, PartialEq)]
pub struct S2CLevelChunkWithLight {
    pub payload: RawBytes,
}

/// The fields of [`S2CLevelChunkWithLight`], in order.
impl Wire for S2CLevelChunkWithLight {
    type Model = <(RawBytes, ()) as Wire>::Model;

    open spec fn model(&self) -> Self::Model {
        (self.payload.model(), ())
    }

    open spec fn encodable(m: Self::Model) -> bool {
        <(RawBytes, ()) as Wire>::encodable(m)
    }

    open spec fn greedy() -> bool {
        <(RawBytes, ()) as Wire>::greedy()
    }

    open spec fn decodable() -> bool {
        <(RawBytes, ()) as Wire>::decodable()
    }

    closed spec fn spec_write(m: Self::Model) -> Seq<u8> {
        <(RawBytes, ()) as Wire>::spec_write(m)
    }

    closed spec fn spec_read(s: Seq<u8>) -> Result<(Self::Model, nat), DecodeError> {
        <(RawBytes, ()) as Wire>::spec_read(s)
    }

    fn write(&self, out: &mut Vec<u8>) {
        let ghost o0 = out@;
        self.payload.write(out);
        proof { lemma_write_step::<RawBytes, ()>(o0, out@, self.payload.model(), ()); }
        let ghost o1 = out@;
        assert(o1 + Seq::<u8>::empty() =~= o1);
    }

    fn read(buf: &[u8], pos: usize) -> (r: Result<(S2CLevelChunkWithLight, usize), DecodeError>) {
        match <(RawBytes, ()) as Wire>::read(buf, pos) {
            Ok(((payload, ()), end)) => Ok((S2CLevelChunkWithLight { payload }, end)),
            Err(e) => Err(e),
        }
    }

    proof fn lemma_read_len(s: Seq<u8>) {
        <(RawBytes, ()) as Wire>::lemma_read_len(s);
    }

    proof fn lemma_roundtrip(m: Self::Model, rest: Seq<u8>) {
        <(RawBytes, ()) as Wire>::lemma_roundtrip(m, rest);
    }
}

impl Packet for S2CLevelChunkWithLight {
    open spec fn spec_id() -> i32 {
        0x27
    }

    open spec fn spec_state() -> State {
        State::Play
    }

    fn id(&self) -> (r: VarInt) {
        VarInt(0x27)
    }

    fn state(&self) -> (r: State) {
        State::Play
    }
}

/// 0x2B - Login (Play). Registries arrive during Configuration.
#[derive(Debug, Clone, PartialEq)]
pub struct S2CLogin {
    pub entity_id: i32,
    pub is_hardcore: bool,
    pub world_names: Vec<String>,
    pub max_players: VarInt,
    pub view_distance: VarInt,
    pub simulation_distance: VarInt,
    pub reduced_debug_info: bool,
    pub enable_respawn_screen: bool,
    pub do_limited_crafting: bool,
    pub world_state: SpawnInfo,
    pub enforces_secure_chat: bool,
}

/// The fields of [`S2CLogin`], in order.
impl Wire for S2CLogin {
    type Model = <(i32, (bool, (Vec<String>, (VarInt, (VarInt, (VarInt, (bool, (bool, (bool, (SpawnInfo, (bool, ()))))))))))) as Wire>::Model;

    open spec fn model(&self) -> Self::Model {
        (self.entity_id.model(), (self.is_hardcore.model(), (self.world_names.model(), (self.max_players.model(), (self.view_distance.model(), (self.simulation_distance.model(), (self.reduced_debug_info.model(), (self.enable_respawn_screen.model(), (self.do_limited_crafting.model(), (self.world_state.model(), (self.enforces_secure_chat.model(), ())))))))))))
    }

    open spec fn encodable(m: Self::Model) -> bool {
        <(i32, (bool, (Vec<String>, (VarInt, (VarInt, (VarInt, (bool, (bool, (bool, (SpawnInfo, (bool, ()))))))))))) as Wire>::encodable(m)
    }

    open spec fn greedy() -> bool {
        <(i32, (bool, (Vec<String>, (VarInt, (VarInt, (VarInt, (bool, (bool, (bool, (SpawnInfo, (bool, ()))))))))))) as Wire>::greedy()
    }

    open spec fn decodable() -> bool {
        <(i32, (bool, (Vec<String>, (VarInt, (VarInt, (VarInt, (bool, (bool, (bool, (SpawnInfo, (bool, ()))))))))))) as Wire>::decodable()
    }

    closed spec fn spec_write(m: Self::Model) -> Seq<u8> {
        <(i32, (bool, (Vec<String>, (VarInt, (VarInt, (VarInt, (bool, (bool, (bool, (SpawnInfo, (bool, ()))))))))))) as Wire>::spec_write(m)
    }

    closed spec fn spec_read(s: Seq<u8>) -> Result<(Self::Model, nat), DecodeError> {
        <(i32, (bool, (Vec<String>, (VarInt, (VarInt, (VarInt, (bool, (bool, (bool, (SpawnInfo, (bool, ()))))))))))) as Wire>::spec_read(s)
    }

    fn write(&self, out: &mut Vec<u8>) {
        let ghost o0 = out@;
        self.entity_id.write(out);
        proof { lemma_write_step::<i32, (bool, (Vec<String>, (VarInt, (VarInt, (VarInt, (bool, (bool, (bool, (SpawnInfo, (bool, ()))))))))))>(o0, out@, self.entity_id.model(), (self.is_hardcore.model(), (self.world_names.model(), (self.max_players.model(), (self.view_distance.model(), (self.simulation_distance.model(), (self.reduced_debug_info.model(), (self.enable_respawn_screen.model(), (self.do_limited_crafting.model(), (self.world_state.model(), (self.enforces_secure_chat.model(), ()))))))))))); }
        let ghost o1 = out@;
        self.is_hardcore.write(out);
        proof { lemma_write_step::<bool, (Vec<String>, (VarInt, (VarInt, (VarInt, (bool, (bool, (bool, (SpawnInfo, (bool, ())))))))))>(o1, out@, self.is_hardcore.model(), (self.world_names.model(), (self.max_players.model(), (self.view_distance.model(), (self.simulation_distance.model(), (self.reduced_debug_info.model(), (self.enable_respawn_screen.model(), (self.do_limited_crafting.model(), (self.world_state.model(), (self.enforces_secure_chat.model(), ())))))))))); }
        let ghost o2 = out@;
        self.world_names.write(out);
        proof { lemma_write_step::<Vec<String>, (VarInt, (VarInt, (VarInt, (bool, (bool, (bool, (SpawnInfo, (bool, ()))))))))>(o2, out@, self.world_names.model(), (self.max_players.model(), (self.view_distance.model(), (self.simulation_distance.model(), (self.reduced_debug_info.model(), (self.enable_respawn_screen.model(), (self.do_limited_crafting.model(), (self.world_state.model(), (self.enforces_secure_chat.model(), ()))))))))); }
        let ghost o3 = out@;
        self.max_players.write(out);
        proof { lemma_write_step::<VarInt, (VarInt, (VarInt, (bool, (bool, (bool, (SpawnInfo, (bool, ())))))))>(o3, out@, self.max_players.model(), (self.view_distance.model(), (self.simulation_distance.model(), (self.reduced_debug_info.model(), (self.enable_respawn_screen.model(), (self.do_limited_crafting.model(), (self.world_state.model(), (self.enforces_secure_chat.model(), ())))))))); }
        let ghost o4 = out@;
        self.view_distance.write(out);
        proof { lemma_write_step::<VarInt, (VarInt, (bool, (bool, (bool, (SpawnInfo, (bool, ()))))))>(o4, out@, self.view_distance.model(), (self.simulation_distance.model(), (self.reduced_debug_info.model(), (self.enable_respawn_screen.model(), (self.do_limited_crafting.model(), (self.world_state.model(), (self.enforces_secure_chat.model(), ()))))))); }
        let ghost o5 = out@;
        self.simulation_distance.write(out);
        proof { lemma_write_step::<VarInt, (bool, (bool, (bool, (SpawnInfo, (bool, ())))))>(o5, out@, self.simulation_distance.model(), (self.reduced_debug_info.model(), (self.enable_respawn_screen.model(), (self.do_limited_crafting.model(), (self.world_state.model(), (self.enforces_secure_chat.model(), ())))))); }
        let ghost o6 = out@;
        self.reduced_debug_info.write(out);
        proof { lemma_write_step::<bool, (bool, (bool, (SpawnInfo, (bool, ()))))>(o6, out@, self.reduced_debug_info.model(), (self.enable_respawn_screen.model(), (self.do_limited_crafting.model(), (self.world_state.model(), (self.enforces_secure_chat.model(), ()))))); }
        let ghost o7 = out@;
        self.enable_respawn_screen.write(out);
        proof { lemma_write_step::<bool, (bool, (SpawnInfo, (bool, ())))>(o7, out@, self.enable_respawn_screen.model(), (self.do_limited_crafting.model(), (self.world_state.model(), (self.enforces_secure_chat.model(), ())))); }
        let ghost o8 = out@;
        self.do_limited_crafting.write(out);
        proof { lemma_write_step::<bool, (SpawnInfo, (bool, ()))>(o8, out@, self.do_limited_crafting.model(), (self.world_state.model(), (self.enforces_secure_chat.model(), ()))); }
        let ghost o9 = out@;
        self.world_state.write(out);
        proof { lemma_write_step::<SpawnInfo, (bool, ())>(o9, out@, self.world_state.model(), (self.enforces_secure_chat.model(), ())); }
        let ghost o10 = out@;
        self.enforces_secure_chat.write(out);
        proof { lemma_write_step::<bool, ()>(o10, out@, self.enforces_secure_chat.model(), ()); }
        let ghost o11 = out@;
        assert(o11 + Seq::<u8>::empty() =~= o11);
    }

    fn read(buf: &[u8], pos: usize) -> (r: Result<(S2CLogin, usize), DecodeError>) {
        match <(i32, (bool, (Vec<String>, (VarInt, (VarInt, (VarInt, (bool, (bool, (bool, (SpawnInfo, (bool, ()))))))))))) as Wire>::read(buf, pos) {
            Ok(((entity_id, (is_hardcore, (world_names, (max_players, (view_distance, (simulation_distance, (reduced_debug_info, (enable_respawn_screen, (do_limited_crafting, (world_state, (enforces_secure_chat, ()))))))))))), end)) => Ok((S2CLogin { entity_id, is_hardcore, world_names, max_players, view_distance, simulation_distance, reduced_debug_info, enable_respawn_screen, do_limited_crafting, world_state, enforces_secure_chat }, end)),
            Err(e) => Err(e),
        }
    }

    proof fn lemma_read_len(s: Seq<u8>) {
        <(i32, (bool, (Vec<String>, (VarInt, (VarInt, (VarInt, (bool, (bool, (bool, (SpawnInfo, (bool, ()))))))))))) as Wire>::lemma_read_len(s);
    }

    proof fn lemma_roundtrip(m: Self::Model, rest: Seq<u8>) {
        <(i32, (bool, (Vec<String>, (VarInt, (VarInt, (VarInt, (bool, (bool, (bool, (SpawnInfo, (bool, ()))))))))))) as Wire>::lemma_roundtrip(m, rest);
    }
}

impl Packet for S2CLogin {
    open spec fn spec_id() -> i32 {
        0x2B
    }

    open spec fn spec_state() -> State {
        State::Play
    }

    fn id(&self) -> (r: VarInt) {
        VarInt(0x2B)
    }

    fn state(&self) -> (r: State) {
        State::Play
    }
}

/// 0x38 - Player Abilities. `flags` is a bitfield (see
/// [`crate::common::abilities`]); the speeds hold `f32` bits.
#[derive(Debug, Clone, PartialEq)]
pub struct S2CPlayerAbilities {
    pub flags: u8,
    pub flying_speed: u32,
    pub walking_speed: u32,
}

/// The fields of [`S2CPlayerAbilities`], in order.
impl Wire for S2CPlayerAbilities {
    type Model = <(u8, (u32, (u32, ()))) as Wire>::Model;

    open spec fn model(&self) -> Self::Model {
        (self.flags.model(), (self.flying_speed.model(), (self.walking_speed.model(), ())))
    }

    open spec fn encodable(m: Self::Model) -> bool {
        <(u8, (u32, (u32, ()))) as Wire>::encodable(m)
    }

    open spec fn greedy() -> bool {
        <(u8, (u32, (u32, ()))) as Wire>::greedy()
    }

    open spec fn decodable() -> bool {
        <(u8, (u32, (u32, ()))) as Wire>::decodable()
    }

    closed spec fn spec_write(m: Self::Model) -> Seq<u8> {
        <(u8, (u32, (u32, ()))) as Wire>::spec_write(m)
    }

    closed spec fn spec_read(s: Seq<u8>) -> Result<(Self::Model, nat), DecodeError> {
        <(u8, (u32, (u32, ()))) as Wire>::spec_read(s)
    }

    fn write(&self, out: &mut Vec<u8>) {
        let ghost o0 = out@;
        self.flags.write(out);
        proof { lemma_write_step::<u8, (u32, (u32, ()))>(o0, out@, self.flags.model(), (self.flying_speed.model(), (self.walking_speed.model(), ()))); }
        let ghost o1 = out@;
        self.flying_speed.write(out);
        proof { lemma_write_step::<u32, (u32, ())>(o1, out@, self.flying_speed.model(), (self.walking_speed.model(), ())); }
        let ghost o2 = out@;
        self.walking_speed.write(out);
        proof { lemma_write_step::<u32, ()>(o2, out@, self.walking_speed.model(), ()); }
        let ghost o3 = out@;
        assert(o3 + Seq::<u8>::empty() =~= o3);
    }

    fn read(buf: &[u8], pos: usize) -> (r: Result<(S2CPlayerAbilities, usize), DecodeError>) {
        match <(u8, (u32, (u32, ()))) as Wire>::read(buf, pos) {
            Ok(((flags, (flying_speed, (walking_speed, ()))), end)) => Ok((S2CPlayerAbilities { flags, flying_speed, walking_speed }, end)),
            Err(e) => Err(e),
        }
    }

    proof fn lemma_read_len(s: Seq<u8>) {
        <(u8, (u32, (u32, ()))) as Wire>::lemma_read_len(s);
    }

    proof fn lemma_roundtrip(m: Self::Model, rest: Seq<u8>) {
        <(u8, (u32, (u32, ()))) as Wire>::lemma_roundtrip(m, rest);
    }
}

impl Packet for S2CPlayerAbilities {
    open spec fn spec_id() -> i32 {
        0x38
    }

    open spec fn spec_state() -> State {
        State::Play
    }

    fn id(&self) -> (r: VarInt) {
        VarInt(0x38)
    }

    fn state(&self) -> (r: State) {
        State::Play
    }
}

/// 0x40 - Synchronize Player Position. Coordinates hold `f64` bits, rotations
/// `f32` bits.
#[derive(Debug, Clone, PartialEq)]
pub struct S2CPlayerPosition {
    pub x: u64,
    pub y: u64,
    pub z: u64,
    pub y_rot: u32,
    pub x_rot: u32,
    pub relative_arguments: u8,
    pub id: VarInt,
}

/// The fields of [`S2CPlayerPosition`], in order.
impl Wire for S2CPlayerPosition {
    type Model = <(u64, (u64, (u64, (u32, (u32, (u8, (VarInt, ()))))))) as Wire>::Model;

    open spec fn model(&self) -> Self::Model {
        (self.x.model(), (self.y.model(), (self.z.model(), (self.y_rot.model(), (self.x_rot.model(), (self.relative_arguments.model(), (self.id.model(), ())))))))
    }

    open spec fn encodable(m: Self::Model) -> bool {
        <(u64, (u64, (u64, (u32, (u32, (u8, (VarInt, ()))))))) as Wire>::encodable(m)
    }

    open spec fn greedy() -> bool {
        <(u64, (u64, (u64, (u32, (u32, (u8, (VarInt, ()))))))) as Wire>::greedy()
    }

    open spec fn decodable() -> bool {
        <(u64, (u64, (u64, (u32, (u32, (u8, (VarInt, ()))))))) as Wire>::decodable()
    }

    closed spec fn spec_write(m: Self::Model) -> Seq<u8> {
        <(u64, (u64, (u64, (u32, (u32, (u8, (VarInt, ()))))))) as Wire>::spec_write(m)
    }

    closed spec fn spec_read(s: Seq<u8>) -> Result<(Self::Model, nat), DecodeError> {
        <(u64, (u64, (u64, (u32, (u32, (u8, (VarInt, ()))))))) as Wire>::spec_read(s)
    }

    fn write(&self, out: &mut Vec<u8>) {
        let ghost o0 = out@;
        self.x.write(out);
        proof { lemma_write_step::<u64, (u64, (u64, (u32, (u32, (u8, (VarInt, ()))))))>(o0, out@, self.x.model(), (self.y.model(), (self.z.model(), (self.y_rot.model(), (self.x_rot.model(), (self.relative_arguments.model(), (self.id.model(), ()))))))); }
        let ghost o1 = out@;
        self.y.write(out);
        proof { lemma_write_step::<u64, (u64, (u32, (u32, (u8, (VarInt, ())))))>(o1, out@, self.y.model(), (self.z.model(), (self.y_rot.model(), (self.x_rot.model(), (self.relative_arguments.model(), (self.id.model(), ())))))); }
        let ghost o2 = out@;
        self.z.write(out);
        proof { lemma_write_step::<u64, (u32, (u32, (u8, (VarInt, ()))))>(o2, out@, self.z.model(), (self.y_rot.model(), (self.x_rot.model(), (self.relative_arguments.model(), (self.id.model(), ()))))); }
        let ghost o3 = out@;
        self.y_rot.write(out);
        proof { lemma_write_step::<u32, (u32, (u8, (VarInt, ())))>(o3, out@, self.y_rot.model(), (self.x_rot.model(), (self.relative_arguments.model(), (self.id.model(), ())))); }
        let ghost o4 = out@;
        self.x_rot.write(out);
        proof { lemma_write_step::<u32, (u8, (VarInt, ()))>(o4, out@, self.x_rot.model(), (self.relative_arguments.model(), (self.id.model(), ()))); }
        let ghost o5 = out@;
        self.relative_arguments.write(out);
        proof { lemma_write_step::<u8, (VarInt, ())>(o5, out@, self.relative_arguments.model(), (self.id.model(), ())); }
        let ghost o6 = out@;
        self.id.write(out);
        proof { lemma_write_step::<VarInt, ()>(o6, out@, self.id.model(), ()); }
        let ghost o7 = out@;
        assert(o7 + Seq::<u8>::empty() =~= o7);
    }

    fn read(buf: &[u8], pos: usize) -> (r: Result<(S2CPlayerPosition, usize), DecodeError>) {
        match <(u64, (u64, (u64, (u32, (u32, (u8, (VarInt, ()))))))) as Wire>::read(buf, pos) {
            Ok(((x, (y, (z, (y_rot, (x_rot, (relative_arguments, (id, ()))))))), end)) => Ok((S2CPlayerPosition { x, y, z, y_rot, x_rot, relative_arguments, id }, end)),
            Err(e) => Err(e),
        }
    }

    proof fn lemma_read_len(s: Seq<u8>) {
        <(u64, (u64, (u64, (u32, (u32, (u8, (VarInt, ()))))))) as Wire>::lemma_read_len(s);
    }

    proof fn lemma_roundtrip(m: Self::Model, rest: Seq<u8>) {
        <(u64, (u64, (u64, (u32, (u32, (u8, (VarInt, ()))))))) as Wire>::lemma_roundtrip(m, rest);
    }
}

impl Packet for S2CPlayerPosition {
    open spec fn spec_id() -> i32 {
        0x40
    }

    open spec fn spec_state() -> State {
        State::Play
    }

    fn id(&self) -> (r: VarInt) {
        VarInt(0x40)
    }

    fn state(&self) -> (r: State) {
        State::Play
    }
}

/// 0x54 - Set Center Chunk.
#[derive(Debug, Clone, PartialEq)]
pub struct S2CSetChunkCacheCenter {
    pub x: VarInt,
    pub z: VarInt,
}

/// The fields of [`S2CSetChunkCacheCenter`], in order.
impl Wire for S2CSetChunkCacheCenter {
    type Model = <(VarInt, (VarInt, ())) as Wire>::Model;

    open spec fn model(&self) -> Self::Model {
        (self.x.model(), (self.z.model(), ()))
    }

    open spec fn encodable(m: Self::Model) -> bool {
        <(VarInt, (VarInt, ())) as Wire>::encodable(m)
    }

    open spec fn greedy() -> bool {
        <(VarInt, (VarInt, ())) as Wire>::greedy()
    }

    open spec fn decodable() -> bool {
        <(VarInt, (VarInt, ())) as Wire>::decodable()
    }

    closed spec fn spec_write(m: Self::Model) -> Seq<u8> {
        <(VarInt, (VarInt, ())) as Wire>::spec_write(m)
    }

    closed spec fn spec_read(s: Seq<u8>) -> Result<(Self::Model, nat), DecodeError> {
        <(VarInt, (VarInt, ())) as Wire>::spec_read(s)
    }

    fn write(&self, out: &mut Vec<u8>) {
        let ghost o0 = out@;
        self.x.write(out);
        proof { lemma_write_step::<VarInt, (VarInt, ())>(o0, out@, self.x.model(), (self.z.model(), ())); }
        let ghost o1 = out@;
        self.z.write(out);
        proof { lemma_write_step::<VarInt, ()>(o1, out@, self.z.model(), ()); }
        let ghost o2 = out@;
        assert(o2 + Seq::<u8>::empty() =~= o2);
    }

    fn read(buf: &[u8], pos: usize) -> (r: Result<(S2CSetChunkCacheCenter, usize), DecodeError>) {
        match <(VarInt, (VarInt, ())) as Wire>::read(buf, pos) {
            Ok(((x, (z, ())), end)) => Ok((S2CSetChunkCacheCenter { x, z }, end)),
            Err(e) => Err(e),
        }
    }

    proof fn lemma_read_len(s: Seq<u8>) {
        <(VarInt, (VarInt, ())) as Wire>::lemma_read_len(s);
    }

    proof fn lemma_roundtrip(m: Self::Model, rest: Seq<u8>) {
        <(VarInt, (VarInt, ())) as Wire>::lemma_roundtrip(m, rest);
    }
}

impl Packet for S2CSetChunkCacheCenter {
    open spec fn spec_id() -> i32 {
        0x54
    }

    open spec fn spec_state() -> State {
        State::Play
    }

    fn id(&self) -> (r: VarInt) {
        VarInt(0x54)
    }

    fn state(&self) -> (r: State) {
        State::Play
    }
}

/// 0x55 - Set Render Distance.
#[derive(Debug, Clone, PartialEq)]
pub struct S2CSetChunkCacheRadius {
    pub radius: VarInt,
}

/// The fields of [`S2CSetChunkCacheRadius`], in order.
impl Wire for S2CSetChunkCacheRadius {
    type Model = <(VarInt, ()) as Wire>::Model;

    open spec fn model(&self) -> Self::Model {
        (self.radius.model(), ())
    }

    open spec fn encodable(m: Self::Model) -> bool {
        <(VarInt, ()) as Wire>::encodable(m)
    }

    open spec fn greedy() -> bool {
        <(VarInt, ()) as Wire>::greedy()
    }

    open spec fn decodable() -> bool {
        <(VarInt, ()) as Wire>::decodable()
    }

    closed spec fn spec_write(m: Self::Model) -> Seq<u8> {
        <(VarInt, ()) as Wire>::spec_write(m)
    }

    closed spec fn spec_read(s: Seq<u8>) -> Result<(Self::Model, nat), DecodeError> {
        <(VarInt, ()) as Wire>::spec_read(s)
    }

    fn write(&self, out: &mut Vec<u8>) {
        let ghost o0 = out@;
        self.radius.write(out);
        proof { lemma_write_step::<VarInt, ()>(o0, out@, self.radius.model(), ()); }
        let ghost o1 = out@;
        assert(o1 + Seq::<u8>::empty() =~= o1);
    }

    fn read(buf: &[u8], pos: usize) -> (r: Result<(S2CSetChunkCacheRadius, usize), DecodeError>) {
        match <(VarInt, ()) as Wire>::read(buf, pos) {
            Ok(((radius, ()), end)) => Ok((S2CSetChunkCacheRadius { radius }, end)),
            Err(e) => Err(e),
        }
    }

    proof fn lemma_read_len(s: Seq<u8>) {
        <(VarInt, ()) as Wire>::lemma_read_len(s);
    }

    proof fn lemma_roundtrip(m: Self::Model, rest: Seq<u8>) {
        <(VarInt, ()) as Wire>::lemma_roundtrip(m, rest);
    }
}

impl Packet for S2CSetChunkCacheRadius {
    open spec fn spec_id() -> i32 {
        0x55
    }

    open spec fn spec_state() -> State {
        State::Play
    }

    fn id(&self) -> (r: VarInt) {
        VarInt(0x55)
    }

    fn state(&self) -> (r: State) {
        State::Play
    }
}

/// 0x56 - Set Default Spawn Position. `angle` holds `f32` bits.
#[derive(Debug, Clone, PartialEq)]
pub struct S2CSetDefaultSpawnPosition {
    pub location: BlockPos,
    pub angle: u32,
}

/// The fields of [`S2CSetDefaultSpawnPosition`], in order.
impl Wire for S2CSetDefaultSpawnPosition {
    type Model = <(BlockPos, (u32, ())) as Wire>::Model;

    open spec fn model(&self) -> Self::Model {
        (self.location.model(), (self.angle.model(), ()))
    }

    open spec fn encodable(m: Self::Model) -> bool {
        <(BlockPos, (u32, ())) as Wire>::encodable(m)
    }

    open spec fn greedy() -> bool {
        <(BlockPos, (u32, ())) as Wire>::greedy()
    }

    open spec fn decodable() -> bool {
        <(BlockPos, (u32, ())) as Wire>::decodable()
    }

    closed spec fn spec_write(m: Self::Model) -> Seq<u8> {
        <(BlockPos, (u32, ())) as Wire>::spec_write(m)
    }

    closed spec fn spec_read(s: Seq<u8>) -> Result<(Self::Model, nat), DecodeError> {
        <(BlockPos, (u32, ())) as Wire>::spec_read(s)
    }

    fn write(&self, out: &mut Vec<u8>) {
        let ghost o0 = out@;
        self.location.write(out);
        proof { lemma_write_step::<BlockPos, (u32, ())>(o0, out@, self.location.model(), (self.angle.model(), ())); }
        let ghost o1 = out@;
        self.angle.write(out);
        proof { lemma_write_step::<u32, ()>(o1, out@, self.angle.model(), ()); }
        let ghost o2 = out@;
        assert(o2 + Seq::<u8>::empty() =~= o2);
    }

    fn read(buf: &[u8], pos: usize) -> (r: Result<(S2CSetDefaultSpawnPosition, usize), DecodeError>) {
        match <(BlockPos, (u32, ())) as Wire>::read(buf, pos) {
            Ok(((location, (angle, ())), end)) => Ok((S2CSetDefaultSpawnPosition { location, angle }, end)),
            Err(e) => Err(e),
        }
    }

    proof fn lemma_read_len(s: Seq<u8>) {
        <(BlockPos, (u32, ())) as Wire>::lemma_read_len(s);
    }

    proof fn lemma_roundtrip(m: Self::Model, rest: Seq<u8>) {
        <(BlockPos, (u32, ())) as Wire>::lemma_roundtrip(m, rest);
    }
}

impl Packet for S2CSetDefaultSpawnPosition {
    open spec fn spec_id() -> i32 {
        0x56
    }

    open spec fn spec_state() -> State {
        State::Play
    }

    fn id(&self) -> (r: VarInt) {
        VarInt(0x56)
    }

    fn state(&self) -> (r: State) {
        State::Play
    }
}

/// The nested `world_state` of [`S2CLogin`] ("CommonPlayerSpawnInfo").
///
/// `previous_gamemode` 255 means no previous game mode.
#[derive(Debug, Clone, PartialEq)]
pub struct SpawnInfo {
    pub dimension: VarInt,
    pub name: String,
    pub hashed_seed: i64,
    pub gamemode: i8,
    pub previous_gamemode: u8,
    pub is_debug: bool,
    pub is_flat: bool,
    pub death: Option<DeathLocation>,
    pub portal_cooldown: VarInt,
}

/// The fields of [`SpawnInfo`], in order.
impl Wire for SpawnInfo {
    type Model = <(VarInt, (String, (i64, (i8, (u8, (bool, (bool, (Option<DeathLocation>, (VarInt, ()))))))))) as Wire>::Model;

    open spec fn model(&self) -> Self::Model {
        (self.dimension.model(), (self.name.model(), (self.hashed_seed.model(), (self.gamemode.model(), (self.previous_gamemode.model(), (self.is_debug.model(), (self.is_flat.model(), (self.death.model(), (self.portal_cooldown.model(), ())))))))))
    }

    open spec fn encodable(m: Self::Model) -> bool {
        <(VarInt, (String, (i64, (i8, (u8, (bool, (bool, (Option<DeathLocation>, (VarInt, ()))))))))) as Wire>::encodable(m)
    }

    open spec fn greedy() -> bool {
        <(VarInt, (String, (i64, (i8, (u8, (bool, (bool, (Option<DeathLocation>, (VarInt, ()))))))))) as Wire>::greedy()
    }

    open spec fn decodable() -> bool {
        <(VarInt, (String, (i64, (i8, (u8, (bool, (bool, (Option<DeathLocation>, (VarInt, ()))))))))) as Wire>::decodable()
    }

    closed spec fn spec_write(m: Self::Model) -> Seq<u8> {
        <(VarInt, (String, (i64, (i8, (u8, (bool, (bool, (Option<DeathLocation>, (VarInt, ()))))))))) as Wire>::spec_write(m)
    }

    closed spec fn spec_read(s: Seq<u8>) -> Result<(Self::Model, nat), DecodeError> {
        <(VarInt, (String, (i64, (i8, (u8, (bool, (bool, (Option<DeathLocation>, (VarInt, ()))))))))) as Wire>::spec_read(s)
    }

    fn write(&self, out: &mut Vec<u8>) {
        let ghost o0 = out@;
        self.dimension.write(out);
        proof { lemma_write_step::<VarInt, (String, (i64, (i8, (u8, (bool, (bool, (Option<DeathLocation>, (VarInt, ()))))))))>(o0, out@, self.dimension.model(), (self.name.model(), (self.hashed_seed.model(), (self.gamemode.model(), (self.previous_gamemode.model(), (self.is_debug.model(), (self.is_flat.model(), (self.death.model(), (self.portal_cooldown.model(), ()))))))))); }
        let ghost o1 = out@;
        self.name.write(out);
        proof { lemma_write_step::<String, (i64, (i8, (u8, (bool, (bool, (Option<DeathLocation>, (VarInt, ())))))))>(o1, out@, self.name.model(), (self.hashed_seed.model(), (self.gamemode.model(), (self.previous_gamemode.model(), (self.is_debug.model(), (self.is_flat.model(), (self.death.model(), (self.portal_cooldown.model(), ())))))))); }
        let ghost o2 = out@;
        self.hashed_seed.write(out);
        proof { lemma_write_step::<i64, (i8, (u8, (bool, (bool, (Option<DeathLocation>, (VarInt, ()))))))>(o2, out@, self.hashed_seed.model(), (self.gamemode.model(), (self.previous_gamemode.model(), (self.is_debug.model(), (self.is_flat.model(), (self.death.model(), (self.portal_cooldown.model(), ()))))))); }
        let ghost o3 = out@;
        self.gamemode.write(out);
        proof { lemma_write_step::<i8, (u8, (bool, (bool, (Option<DeathLocation>, (VarInt, ())))))>(o3, out@, self.gamemode.model(), (self.previous_gamemode.model(), (self.is_debug.model(), (self.is_flat.model(), (self.death.model(), (self.portal_cooldown.model(), ())))))); }
        let ghost o4 = out@;
        self.previous_gamemode.write(out);
        proof { lemma_write_step::<u8, (bool, (bool, (Option<DeathLocation>, (VarInt, ()))))>(o4, out@, self.previous_gamemode.model(), (self.is_debug.model(), (self.is_flat.model(), (self.death.model(), (self.portal_cooldown.model(), ()))))); }
        let ghost o5 = out@;
        self.is_debug.write(out);
        proof { lemma_write_step::<bool, (bool, (Option<DeathLocation>, (VarInt, ())))>(o5, out@, self.is_debug.model(), (self.is_flat.model(), (self.death.model(), (self.portal_cooldown.model(), ())))); }
        let ghost o6 = out@;
        self.is_flat.write(out);
        proof { lemma_write_step::<bool, (Option<DeathLocation>, (VarInt, ()))>(o6, out@, self.is_flat.model(), (self.death.model(), (self.portal_cooldown.model(), ()))); }
        let ghost o7 = out@;
        self.death.write(out);
        proof { lemma_write_step::<Option<DeathLocation>, (VarInt, ())>(o7, out@, self.death.model(), (self.portal_cooldown.model(), ())); }
        let ghost o8 = out@;
        self.portal_cooldown.write(out);
        proof { lemma_write_step::<VarInt, ()>(o8, out@, self.portal_cooldown.model(), ()); }
        let ghost o9 = out@;
        assert(o9 + Seq::<u8>::empty() =~= o9);
    }

    fn read(buf: &[u8], pos: usize) -> (r: Result<(SpawnInfo, usize), DecodeError>) {
        match <(VarInt, (String, (i64, (i8, (u8, (bool, (bool, (Option<DeathLocation>, (VarInt, ()))))))))) as Wire>::read(buf, pos) {
            Ok(((dimension, (name, (hashed_seed, (gamemode, (previous_gamemode, (is_debug, (is_flat, (death, (portal_cooldown, ()))))))))), end)) => Ok((SpawnInfo { dimension, name, hashed_seed, gamemode, previous_gamemode, is_debug, is_flat, death, portal_cooldown }, end)),
            Err(e) => Err(e),
        }
    }

    proof fn lemma_read_len(s: Seq<u8>) {
        <(VarInt, (String, (i64, (i8, (u8, (bool, (bool, (Option<DeathLocation>, (VarInt, ()))))))))) as Wire>::lemma_read_len(s);
    }

    proof fn lemma_roundtrip(m: Self::Model, rest: Seq<u8>) {
        <(VarInt, (String, (i64, (i8, (u8, (bool, (bool, (Option<DeathLocation>, (VarInt, ()))))))))) as Wire>::lemma_roundtrip(m, rest);
    }
}

/// Last-death marker inside [`SpawnInfo`]: a dimension and a position.
#[derive(Debug, Clone, PartialEq)]
pub struct DeathLocation {
    pub dimension_name: String,
    pub location: BlockPos,
}

/// The fields of [`DeathLocation`], in order.
impl Wire for DeathLocation {
    type Model = <(String, (BlockPos, ())) as Wire>::Model;

    open spec fn model(&self) -> Self::Model {
        (self.dimension_name.model(), (self.location.model(), ()))
    }

    open spec fn encodable(m: Self::Model) -> bool {
        <(String, (BlockPos, ())) as Wire>::encodable(m)
    }

    open spec fn greedy() -> bool {
        <(String, (BlockPos, ())) as Wire>::greedy()
    }

    open spec fn decodable() -> bool {
        <(String, (BlockPos, ())) as Wire>::decodable()
    }

    closed spec fn spec_write(m: Self::Model) -> Seq<u8> {
        <(String, (BlockPos, ())) as Wire>::spec_write(m)
    }

    closed spec fn spec_read(s: Seq<u8>) -> Result<(Self::Model, nat), DecodeError> {
        <(String, (BlockPos, ())) as Wire>::spec_read(s)
    }

    fn write(&self, out: &mut Vec<u8>) {
        let ghost o0 = out@;
        self.dimension_name.write(out);
        proof { lemma_write_step::<String, (BlockPos, ())>(o0, out@, self.dimension_name.model(), (self.location.model(), ())); }
        let ghost o1 = out@;
        self.location.write(out);
        proof { lemma_write_step::<BlockPos, ()>(o1, out@, self.location.model(), ()); }
        let ghost o2 = out@;
        assert(o2 + Seq::<u8>::empty() =~= o2);
    }

    fn read(buf: &[u8], pos: usize) -> (r: Result<(DeathLocation, usize), DecodeError>) {
        match <(String, (BlockPos, ())) as Wire>::read(buf, pos) {
            Ok(((dimension_name, (location, ())), end)) => Ok((DeathLocation { dimension_name, location }, end)),
            Err(e) => Err(e),
        }
    }

    proof fn lemma_read_len(s: Seq<u8>) {
        <(String, (BlockPos, ())) as Wire>::lemma_read_len(s);
    }

    proof fn lemma_roundtrip(m: Self::Model, rest: Seq<u8>) {
        <(String, (BlockPos, ())) as Wire>::lemma_roundtrip(m, rest);
    }
}

} // verus!
