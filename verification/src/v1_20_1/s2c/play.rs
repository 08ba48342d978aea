//! Server-to-client Play packets (protocol 763, MC 1.20.1), with the
//! empty-chunk body and the block-position packing the limbo sends them with.

use vstd::prelude::*;

use crate::codec::Wire;
use crate::containers::lemma_write_step;
use crate::error::DecodeError;
use crate::containers::RawBytes;
use crate::packet::Chat;
use crate::packet::Packet;
use crate::position::BlockPos;
use crate::state::State;
use crate::varint::VarInt;
use crate::common::chunk_payload::{
    spec_chunk_payload, spec_heightmaps_v1_20_1, void_chunk_bytes_v1_20_1,
};
use crate::position::spec_pack;

verus! {

/// 0x1A - Disconnect (Play), to end a connection gracefully.
#[derive(Debug, Clone, PartialEq)]
pub struct S2CDisconnectPlay {
    pub reason: Chat,
}

/// The fields of [`S2CDisconnectPlay`], in order.
impl Wire for S2CDisconnectPlay {
    type Model = <(Chat, ()) as Wire>::Model;

    open spec fn model(&self) -> Self::Model {
        (self.reason.model(), ())
    }

    open spec fn encodable(m: Self::Model) -> bool {
        <(Chat, ()) as Wire>::encodable(m)
    }

    open spec fn greedy() -> bool {
        <(Chat, ()) as Wire>::greedy()
    }

    open spec fn decodable() -> bool {
        <(Chat, ()) as Wire>::decodable()
    }

    closed spec fn spec_write(m: Self::Model) -> Seq<u8> {
        <(Chat, ()) as Wire>::spec_write(m)
    }

    closed spec fn spec_read(s: Seq<u8>) -> Result<(Self::Model, nat), DecodeError> {
        <(Chat, ()) as Wire>::spec_read(s)
    }

    fn write(&self, out: &mut Vec<u8>) {
        let ghost o0 = out@;
        self.reason.write(out);
        proof { lemma_write_step::<Chat, ()>(o0, out@, self.reason.model(), ()); }
        let ghost o1 = out@;
        assert(o1 + Seq::<u8>::empty() =~= o1);
    }

    fn read(buf: &[u8], pos: usize) -> (r: Result<(S2CDisconnectPlay, usize), DecodeError>) {
        match <(Chat, ()) as Wire>::read(buf, pos) {
            Ok(((reason, ()), end)) => Ok((S2CDisconnectPlay { reason }, end)),
            Err(e) => Err(e),
        }
    }

    proof fn lemma_read_len(s: Seq<u8>) {
        <(Chat, ()) as Wire>::lemma_read_len(s);
    }

    proof fn lemma_roundtrip(m: Self::Model, rest: Seq<u8>) {
        <(Chat, ()) as Wire>::lemma_roundtrip(m, rest);
    }
}

impl Packet for S2CDisconnectPlay {
    open spec fn spec_id() -> i32 {
        0x1A
    }

    open spec fn spec_state() -> State {
        State::Play
    }

    fn id(&self) -> (r: VarInt) {
        VarInt(0x1A)
    }

    fn state(&self) -> (r: State) {
        State::Play
    }
}

/// 0x1F - Game Event. `param` holds `f32` bits.
#[derive(Debug, Clone, PartialEq)]
pub struct S2CGameEvent {
    pub event: u8,
    pub param: u32,
}

/// The fields of [`S2CGameEvent`], in order.
impl Wire for S2CGameEvent {
    type Model = <(u8, (u32, ())) as Wire>::Model;

    open spec fn model(&self) -> Self::Model {
        (self.event.model(), (self.param.model(), ()))
    }

    open spec fn encodable(m: Self::Model) -> bool {
        <(u8, (u32, ())) as Wire>::encodable(m)
    }

    open spec fn greedy() -> bool {
        <(u8, (u32, ())) as Wire>::greedy()
    }

    open spec fn decodable() -> bool {
        <(u8, (u32, ())) as Wire>::decodable()
    }

    closed spec fn spec_write(m: Self::Model) -> Seq<u8> {
        <(u8, (u32, ())) as Wire>::spec_write(m)
    }

    closed spec fn spec_read(s: Seq<u8>) -> Result<(Self::Model, nat), DecodeError> {
        <(u8, (u32, ())) as Wire>::spec_read(s)
    }

    fn write(&self, out: &mut Vec<u8>) {
        let ghost o0 = out@;
        self.event.write(out);
        proof { lemma_write_step::<u8, (u32, ())>(o0, out@, self.event.model(), (self.param.model(), ())); }
        let ghost o1 = out@;
        self.param.write(out);
        proof { lemma_write_step::<u32, ()>(o1, out@, self.param.model(), ()); }
        let ghost o2 = out@;
        assert(o2 + Seq::<u8>::empty() =~= o2);
    }

    fn read(buf: &[u8], pos: usize) -> (r: Result<(S2CGameEvent, usize), DecodeError>) {
        match <(u8, (u32, ())) as Wire>::read(buf, pos) {
            Ok(((event, (param, ())), end)) => Ok((S2CGameEvent { event, param }, end)),
            Err(e) => Err(e),
        }
    }

    proof fn lemma_read_len(s: Seq<u8>) {
        <(u8, (u32, ())) as Wire>::lemma_read_len(s);
    }

    proof fn lemma_roundtrip(m: Self::Model, rest: Seq<u8>) {
        <(u8, (u32, ())) as Wire>::lemma_roundtrip(m, rest);
    }
}

impl Packet for S2CGameEvent {
    open spec fn spec_id() -> i32 {
        0x1F
    }

    open spec fn spec_state() -> State {
        State::Play
    }

    fn id(&self) -> (r: VarInt) {
        VarInt(0x1F)
    }

    fn state(&self) -> (r: State) {
        State::Play
    }
}

/// 0x23 - Keep Alive.
#[derive(Debug, Clone, PartialEq)]
pub struct S2CKeepAlive {
    pub id: i64,
}

/// The fields of [`S2CKeepAlive`], in order.
impl Wire for S2CKeepAlive {
    type Model = <(i64, ()) as Wire>::Model;

    open spec fn model(&self) -> Self::Model {
        (self.id.model(), ())
    }

    open spec fn encodable(m: Self::Model) -> bool {
        <(i64, ()) as Wire>::encodable(m)
    }

    open spec fn greedy() -> bool {
        <(i64, ()) as Wire>::greedy()
    }

    open spec fn decodable() -> bool {
        <(i64, ()) as Wire>::decodable()
    }

    closed spec fn spec_write(m: Self::Model) -> Seq<u8> {
        <(i64, ()) as Wire>::spec_write(m)
    }

    closed spec fn spec_read(s: Seq<u8>) -> Result<(Self::Model, nat), DecodeError> {
        <(i64, ()) as Wire>::spec_read(s)
    }

    fn write(&self, out: &mut Vec<u8>) {
        let ghost o0 = out@;
        self.id.write(out);
        proof { lemma_write_step::<i64, ()>(o0, out@, self.id.model(), ()); }
        let ghost o1 = out@;
        assert(o1 + Seq::<u8>::empty() =~= o1);
    }

    fn read(buf: &[u8], pos: usize) -> (r: Result<(S2CKeepAlive, usize), DecodeError>) {
        match <(i64, ()) as Wire>::read(buf, pos) {
            Ok(((id, ()), end)) => Ok((S2CKeepAlive { id }, end)),
            Err(e) => Err(e),
        }
    }

    proof fn lemma_read_len(s: Seq<u8>) {
        <(i64, ()) as Wire>::lemma_read_len(s);
    }

    proof fn lemma_roundtrip(m: Self::Model, rest: Seq<u8>) {
        <(i64, ()) as Wire>::lemma_roundtrip(m, rest);
    }
}

impl Packet for S2CKeepAlive {
    open spec fn spec_id() -> i32 {
        0x23
    }

    open spec fn spec_state() -> State {
        State::Play
    }

    fn id(&self) -> (r: VarInt) {
        VarInt(0x23)
    }

    fn state(&self) -> (r: State) {
        State::Play
    }
}

/// 0x24 - Level Chunk With Light; the whole body is precomputed bytes.
#[derive(Debug, Clone, PartialEq)]
pub struct S2CLevelChunkWithLight {
    pub payload: RawBytes,
}

/// The fields of [`S2CLevelChunkWithLight`], in order.
impl Wire for S2CLevelChunkWithLight {
    type Model = <(RawBytes, ()) as Wire>::Model;

    open spec fn model(&self) -> Self::Model {
        (self.payload.model(), ())
    }

    open spec fn encodable(m: Self::Model) -> bool {
        <(RawBytes, ()) as Wire>::encodable(m)
    }

    open spec fn greedy() -> bool {
        <(RawBytes, ()) as Wire>::greedy()
    }

    open spec fn decodable() -> bool {
        <(RawBytes, ()) as Wire>::decodable()
    }

    closed spec fn spec_write(m: Self::Model) -> Seq<u8> {
        <(RawBytes, ()) as Wire>::spec_write(m)
    }

    closed spec fn spec_read(s: Seq<u8>) -> Result<(Self::Model, nat), DecodeError> {
        <(RawBytes, ()) as Wire>::spec_read(s)
    }

    fn write(&self, out: &mut Vec<u8>) {
        let ghost o0 = out@;
        self.payload.write(out);
        proof { lemma_write_step::<RawBytes, ()>(o0, out@, self.payload.model(), ()); }
        let ghost o1 = out@;
        assert(o1 + Seq::<u8>::empty() =~= o1);
    }

    fn read(buf: &[u8], pos: usize) -> (r: Result<(S2CLevelChunkWithLight, usize), DecodeError>) {
        match <(RawBytes, ()) as Wire>::read(buf, pos) {
            Ok(((payload, ()), end)) => Ok((S2CLevelChunkWithLight { payload }, end)),
            Err(e) => Err(e),
        }
    }

    proof fn lemma_read_len(s: Seq<u8>) {
        <(RawBytes, ()) as Wire>::lemma_read_len(s);
    }

    proof fn lemma_roundtrip(m: Self::Model, rest: Seq<u8>) {
        <(RawBytes, ()) as Wire>::lemma_roundtrip(m, rest);
    }
}

impl Packet for S2CLevelChunkWithLight {
    open spec fn spec_id() -> i32 {
        0x24
    }

    open spec fn spec_state() -> State {
        State::Play
    }

    fn id(&self) -> (r: VarInt) {
        VarInt(0x24)
    }

    fn state(&self) -> (r: State) {
        State::Play
    }
}

/// 0x28 - Login (Play).
#[derive(Debug, Clone, PartialEq)]
pub struct S2CLogin {
    pub player_id: i32,
    pub hardcore: bool,
    pub game_type: VarInt,
    pub previous_game_type: VarInt,
    pub levels: Vec<String>,
    pub registry_holder: RawBytes,
    pub dimension_type: String,
    pub dimension: String,
    pub seed: i64,
    pub max_players: VarInt,
    pub chunk_radius: VarInt,
    pub simulation_distance: VarInt,
    pub reduced_debug_info: bool,
    pub show_death_screen: bool,
    pub is_debug: bool,
    pub is_flat: bool,
    pub last_death_location: Option<RawBytes>,
    pub portal_cooldown: VarInt,
}

/// The fields of [`S2CLogin`], in order.
impl Wire for S2CLogin {
    type Model = <(i32, (bool, (VarInt, (VarInt, (Vec<String>, (RawBytes, (String, (String, (i64, (VarInt, (VarInt, (VarInt, (bool, (bool, (bool, (bool, (Option<RawBytes>, (VarInt, ())))))))))))))))))) as Wire>::Model;

    open spec fn model(&self) -> Self::Model {
        (self.player_id.model(), (self.hardcore.model(), (self.game_type.model(), (self.previous_game_type.model(), (self.levels.model(), (self.registry_holder.model(), (self.dimension_type.model(), (self.dimension.model(), (self.seed.model(), (self.max_players.model(), (self.chunk_radius.model(), (self.simulation_distance.model(), (self.reduced_debug_info.model(), (self.show_death_screen.model(), (self.is_debug.model(), (self.is_flat.model(), (self.last_death_location.model(), (self.portal_cooldown.model(), ()))))))))))))))))))
    }

    open spec fn encodable(m: Self::Model) -> bool {
        <(i32, (bool, (VarInt, (VarInt, (Vec<String>, (RawBytes, (String, (String, (i64, (VarInt, (VarInt, (VarInt, (bool, (bool, (bool, (bool, (Option<RawBytes>, (VarInt, ())))))))))))))))))) as Wire>::encodable(m)
    }

    open spec fn greedy() -> bool {
        <(i32, (bool, (VarInt, (VarInt, (Vec<String>, (RawBytes, (String, (String, (i64, (VarInt, (VarInt, (VarInt, (bool, (bool, (bool, (bool, (Option<RawBytes>, (VarInt, ())))))))))))))))))) as Wire>::greedy()
    }

    open spec fn decodable() -> bool {
        <(i32, (bool, (VarInt, (VarInt, (Vec<String>, (RawBytes, (String, (String, (i64, (VarInt, (VarInt, (VarInt, (bool, (bool, (bool, (bool, (Option<RawBytes>, (VarInt, ())))))))))))))))))) as Wire>::decodable()
    }

    closed spec fn spec_write(m: Self::Model) -> Seq<u8> {
        <(i32, (bool, (VarInt, (VarInt, (Vec<String>, (RawBytes, (String, (String, (i64, (VarInt, (VarInt, (VarInt, (bool, (bool, (bool, (bool, (Option<RawBytes>, (VarInt, ())))))))))))))))))) as Wire>::spec_write(m)
    }

    closed spec fn spec_read(s: Seq<u8>) -> Result<(Self::Model, nat), DecodeError> {
        <(i32, (bool, (VarInt, (VarInt, (Vec<String>, (RawBytes, (String, (String, (i64, (VarInt, (VarInt, (VarInt, (bool, (bool, (bool, (bool, (Option<RawBytes>, (VarInt, ())))))))))))))))))) as Wire>::spec_read(s)
    }

    fn write(&self, out: &mut Vec<u8>) {
        let ghost o0 = out@;
        self.player_id.write(out);
        proof { lemma_write_step::<i32, (bool, (VarInt, (VarInt, (Vec<String>, (RawBytes, (String, (String, (i64, (VarInt, (VarInt, (VarInt, (bool, (bool, (bool, (bool, (Option<RawBytes>, (VarInt, ())))))))))))))))))>(o0, out@, self.player_id.model(), (self.hardcore.model(), (self.game_type.model(), (self.previous_game_type.model(), (self.levels.model(), (self.registry_holder.model(), (self.dimension_type.model(), (self.dimension.model(), (self.seed.model(), (self.max_players.model(), (self.chunk_radius.model(), (self.simulation_distance.model(), (self.reduced_debug_info.model(), (self.show_death_screen.model(), (self.is_debug.model(), (self.is_flat.model(), (self.last_death_location.model(), (self.portal_cooldown.model(), ())))))))))))))))))); }
        let ghost o1 = out@;
        self.hardcore.write(out);
        proof { lemma_write_step::<bool, (VarInt, (VarInt, (Vec<String>, (RawBytes, (String, (String, (i64, (VarInt, (VarInt, (VarInt, (bool, (bool, (bool, (bool, (Option<RawBytes>, (VarInt, ()))))))))))))))))>(o1, out@, self.hardcore.model(), (self.game_type.model(), (self.previous_game_type.model(), (self.levels.model(), (self.registry_holder.model(), (self.dimension_type.model(), (self.dimension.model(), (self.seed.model(), (self.max_players.model(), (self.chunk_radius.model(), (self.simulation_distance.model(), (self.reduced_debug_info.model(), (self.show_death_screen.model(), (self.is_debug.model(), (self.is_flat.model(), (self.last_death_location.model(), (self.portal_cooldown.model(), ()))))))))))))))))); }
        let ghost o2 = out@;
        self.game_type.write(out);
        proof { lemma_write_step::<VarInt, (VarInt, (Vec<String>, (RawBytes, (String, (String, (i64, (VarInt, (VarInt, (VarInt, (bool, (bool, (bool, (bool, (Option<RawBytes>, (VarInt, ())))))))))))))))>(o2, out@, self.game_type.model(), (self.previous_game_type.model(), (self.levels.model(), (self.registry_holder.model(), (self.dimension_type.model(), (self.dimension.model(), (self.seed.model(), (self.max_players.model(), (self.chunk_radius.model(), (self.simulation_distance.model(), (self.reduced_debug_info.model(), (self.show_death_screen.model(), (self.is_debug.model(), (self.is_flat.model(), (self.last_death_location.model(), (self.portal_cooldown.model(), ())))))))))))))))); }
        let ghost o3 = out@;
        self.previous_game_type.write(out);
        proof { lemma_write_step::<VarInt, (Vec<String>, (RawBytes, (String, (String, (i64, (VarInt, (VarInt, (VarInt, (bool, (bool, (bool, (bool, (Option<RawBytes>, (VarInt, ()))))))))))))))>(o3, out@, self.previous_game_type.model(), (self.levels.model(), (self.registry_holder.model(), (self.dimension_type.model(), (self.dimension.model(), (self.seed.model(), (self.max_players.model(), (self.chunk_radius.model(), (self.simulation_distance.model(), (self.reduced_debug_info.model(), (self.show_death_screen.model(), (self.is_debug.model(), (self.is_flat.model(), (self.last_death_location.model(), (self.portal_cooldown.model(), ()))))))))))))))); }
        let ghost o4 = out@;
        self.levels.write(out);
        proof { lemma_write_step::<Vec<String>, (RawBytes, (String, (String, (i64, (VarInt, (VarInt, (VarInt, (bool, (bool, (bool, (bool, (Option<RawBytes>, (VarInt, ())))))))))))))>(o4, out@, self.levels.model(), (self.registry_holder.model(), (self.dimension_type.model(), (self.dimension.model(), (self.seed.model(), (self.max_players.model(), (self.chunk_radius.model(), (self.simulation_distance.model(), (self.reduced_debug_info.model(), (self.show_death_screen.model(), (self.is_debug.model(), (self.is_flat.model(), (self.last_death_location.model(), (self.portal_cooldown.model(), ())))))))))))))); }
        let ghost o5 = out@;
        self.registry_holder.write(out);
        proof { lemma_write_step::<RawBytes, (String, (String, (i64, (VarInt, (VarInt, (VarInt, (bool, (bool, (bool, (bool, (Option<RawBytes>, (VarInt, ()))))))))))))>(o5, out@, self.registry_holder.model(), (self.dimension_type.model(), (self.dimension.model(), (self.seed.model(), (self.max_players.model(), (self.chunk_radius.model(), (self.simulation_distance.model(), (self.reduced_debug_info.model(), (self.show_death_screen.model(), (self.is_debug.model(), (self.is_flat.model(), (self.last_death_location.model(), (self.portal_cooldown.model(), ()))))))))))))); }
        let ghost o6 = out@;
        self.dimension_type.write(out);
        proof { lemma_write_step::<String, (String, (i64, (VarInt, (VarInt, (VarInt, (bool, (bool, (bool, (bool, (Option<RawBytes>, (VarInt, ())))))))))))>(o6, out@, self.dimension_type.model(), (self.dimension.model(), (self.seed.model(), (self.max_players.model(), (self.chunk_radius.model(), (self.simulation_distance.model(), (self.reduced_debug_info.model(), (self.show_death_screen.model(), (self.is_debug.model(), (self.is_flat.model(), (self.last_death_location.model(), (self.portal_cooldown.model(), ())))))))))))); }
        let ghost o7 = out@;
        self.dimension.write(out);
        proof { lemma_write_step::<String, (i64, (VarInt, (VarInt, (VarInt, (bool, (bool, (bool, (bool, (Option<RawBytes>, (VarInt, ()))))))))))>(o7, out@, self.dimension.model(), (self.seed.model(), (self.max_players.model(), (self.chunk_radius.model(), (self.simulation_distance.model(), (self.reduced_debug_info.model(), (self.show_death_screen.model(), (self.is_debug.model(), (self.is_flat.model(), (self.last_death_location.model(), (self.portal_cooldown.model(), ()))))))))))); }
        let ghost o8 = out@;
        self.seed.write(out);
        proof { lemma_write_step::<i64, (VarInt, (VarInt, (VarInt, (bool, (bool, (bool, (bool, (Option<RawBytes>, (VarInt, ())))))))))>(o8, out@, self.seed.model(), (self.max_players.model(), (self.chunk_radius.model(), (self.simulation_distance.model(), (self.reduced_debug_info.model(), (self.show_death_screen.model(), (self.is_debug.model(), (self.is_flat.model(), (self.last_death_location.model(), (self.portal_cooldown.model(), ())))))))))); }
        let ghost o9 = out@;
        self.max_players.write(out);
        proof { lemma_write_step::<VarInt, (VarInt, (VarInt, (bool, (bool, (bool, (bool, (Option<RawBytes>, (VarInt, ()))))))))>(o9, out@, self.max_players.model(), (self.chunk_radius.model(), (self.simulation_distance.model(), (self.reduced_debug_info.model(), (self.show_death_screen.model(), (self.is_debug.model(), (self.is_flat.model(), (self.last_death_location.model(), (self.portal_cooldown.model(), ()))))))))); }
        let ghost o10 = out@;
        self.chunk_radius.write(out);
        proof { lemma_write_step::<VarInt, (VarInt, (bool, (bool, (bool, (bool, (Option<RawBytes>, (VarInt, ())))))))>(o10, out@, self.chunk_radius.model(), (self.simulation_distance.model(), (self.reduced_debug_info.model(), (self.show_death_screen.model(), (self.is_debug.model(), (self.is_flat.model(), (self.last_death_location.model(), (self.portal_cooldown.model(), ())))))))); }
        let ghost o11 = out@;
        self.simulation_distance.write(out);
        proof { lemma_write_step::<VarInt, (bool, (bool, (bool, (bool, (Option<RawBytes>, (VarInt, ()))))))>(o11, out@, self.simulation_distance.model(), (self.reduced_debug_info.model(), (self.show_death_screen.model(), (self.is_debug.model(), (self.is_flat.model(), (self.last_death_location.model(), (self.portal_cooldown.model(), ()))))))); }
        let ghost o12 = out@;
        self.reduced_debug_info.write(out);
        proof { lemma_write_step::<bool, (bool, (bool, (bool, (Option<RawBytes>, (VarInt, ())))))>(o12, out@, self.reduced_debug_info.model(), (self.show_death_screen.model(), (self.is_debug.model(), (self.is_flat.model(), (self.last_death_location.model(), (self.portal_cooldown.model(), ())))))); }
        let ghost o13 = out@;
        self.show_death_screen.write(out);
        proof { lemma_write_step::<bool, (bool, (bool, (Option<RawBytes>, (VarInt, ()))))>(o13, out@, self.show_death_screen.model(), (self.is_debug.model(), (self.is_flat.model(), (self.last_death_location.model(), (self.portal_cooldown.model(), ()))))); }
        let ghost o14 = out@;
        self.is_debug.write(out);
        proof { lemma_write_step::<bool, (bool, (Option<RawBytes>, (VarInt, ())))>(o14, out@, self.is_debug.model(), (self.is_flat.model(), (self.last_death_location.model(), (self.portal_cooldown.model(), ())))); }
        let ghost o15 = out@;
        self.is_flat.write(out);
        proof { lemma_write_step::<bool, (Option<RawBytes>, (VarInt, ()))>(o15, out@, self.is_flat.model(), (self.last_death_location.model(), (self.portal_cooldown.model(), ()))); }
        let ghost o16 = out@;
        self.last_death_location.write(out);
        proof { lemma_write_step::<Option<RawBytes>, (VarInt, ())>(o16, out@, self.last_death_location.model(), (self.portal_cooldown.model(), ())); }
        let ghost o17 = out@;
        self.portal_cooldown.write(out);
        proof { lemma_write_step::<VarInt, ()>(o17, out@, self.portal_cooldown.model(), ()); }
        let ghost o18 = out@;
        assert(o18 + Seq::<u8>::empty() =~= o18);
    }

    fn read(buf: &[u8], pos: usize) -> (r: Result<(S2CLogin, usize), DecodeError>) {
        match <(i32, (bool, (VarInt, (VarInt, (Vec<String>, (RawBytes, (String, (String, (i64, (VarInt, (VarInt, (VarInt, (bool, (bool, (bool, (bool, (Option<RawBytes>, (VarInt, ())))))))))))))))))) as Wire>::read(buf, pos) {
            Ok(((player_id, (hardcore, (game_type, (previous_game_type, (levels, (registry_holder, (dimension_type, (dimension, (seed, (max_players, (chunk_radius, (simulation_distance, (reduced_debug_info, (show_death_screen, (is_debug, (is_flat, (last_death_location, (portal_cooldown, ())))))))))))))))))), end)) => Ok((S2CLogin { player_id, hardcore, game_type, previous_game_type, levels, registry_holder, dimension_type, dimension, seed, max_players, chunk_radius, simulation_distance, reduced_debug_info, show_death_screen, is_debug, is_flat, last_death_location, portal_cooldown }, end)),
            Err(e) => Err(e),
        }
    }

    proof fn lemma_read_len(s: Seq<u8>) {
        <(i32, (bool, (VarInt, (VarInt, (Vec<String>, (RawBytes, (String, (String, (i64, (VarInt, (VarInt, (VarInt, (bool, (bool, (bool, (bool, (Option<RawBytes>, (VarInt, ())))))))))))))))))) as Wire>::lemma_read_len(s);
    }

    proof fn lemma_roundtrip(m: Self::Model, rest: Seq<u8>) {
        <(i32, (bool, (VarInt, (VarInt, (Vec<String>, (RawBytes, (String, (String, (i64, (VarInt, (VarInt, (VarInt, (bool, (bool, (bool, (bool, (Option<RawBytes>, (VarInt, ())))))))))))))))))) as Wire>::lemma_roundtrip(m, rest);
    }
}

impl Packet for S2CLogin {
    open spec fn spec_id() -> i32 {
        0x28
    }

    open spec fn spec_state() -> State {
        State::Play
    }

    fn id(&self) -> (r: VarInt) {
        VarInt(0x28)
    }

    fn state(&self) -> (r: State) {
        State::Play
    }
}

/// 0x34 - Player Abilities. `flags` is a bitfield (see
/// [`crate::common::abilities`]); the speeds hold `f32` bits.
#[derive(Debug, Clone, PartialEq)]
pub struct S2CPlayerAbilities {
    pub flags: u8,
    pub flying_speed: u32,
    pub walking_speed: u32,
}

/// The fields of [`S2CPlayerAbilities`], in order.
impl Wire for S2CPlayerAbilities {
    type Model = <(u8, (u32, (u32, ()))) as Wire>::Model;

    open spec fn model(&self) -> Self::Model {
        (self.flags.model(), (self.flying_speed.model(), (self.walking_speed.model(), ())))
    }

    open spec fn encodable(m: Self::Model) -> bool {
        <(u8, (u32, (u32, ()))) as Wire>::encodable(m)
    }

    open spec fn greedy() -> bool {
        <(u8, (u32, (u32, ()))) as Wire>::greedy()
    }

    open spec fn decodable() -> bool {
        <(u8, (u32, (u32, ()))) as Wire>::decodable()
    }

    closed spec fn spec_write(m: Self::Model) -> Seq<u8> {
        <(u8, (u32, (u32, ()))) as Wire>::spec_write(m)
    }

    closed spec fn spec_read(s: Seq<u8>) -> Result<(Self::Model, nat), DecodeError> {
        <(u8, (u32, (u32, ()))) as Wire>::spec_read(s)
    }

    fn write(&self, out: &mut Vec<u8>) {
        let ghost o0 = out@;
        self.flags.write(out);
        proof { lemma_write_step::<u8, (u32, (u32, ()))>(o0, out@, self.flags.model(), (self.flying_speed.model(), (self.walking_speed.model(), ()))); }
        let ghost o1 = out@;
        self.flying_speed.write(out);
        proof { lemma_write_step::<u32, (u32, ())>(o1, out@, self.flying_speed.model(), (self.walking_speed.model(), ())); }
        let ghost o2 = out@;
        self.walking_speed.write(out);
        proof { lemma_write_step::<u32, ()>(o2, out@, self.walking_speed.model(), ()); }
        let ghost o3 = out@;
        assert(o3 + Seq::<u8>::empty() =~= o3);
    }

    fn read(buf: &[u8], pos: usize) -> (r: Result<(S2CPlayerAbilities, usize), DecodeError>) {
        match <(u8, (u32, (u32, ()))) as Wire>::read(buf, pos) {
            Ok(((flags, (flying_speed, (walking_speed, ()))), end)) => Ok((S2CPlayerAbilities { flags, flying_speed, walking_speed }, end)),
            Err(e) => Err(e),
        }
    }

    proof fn lemma_read_len(s: Seq<u8>) {
        <(u8, (u32, (u32, ()))) as Wire>::lemma_read_len(s);
    }

    proof fn lemma_roundtrip(m: Self::Model, rest: Seq<u8>) {
        <(u8, (u32, (u32, ()))) as Wire>::lemma_roundtrip(m, rest);
    }
}

impl Packet for S2CPlayerAbilities {
    open spec fn spec_id() -> i32 {
        0x34
    }

    open spec fn spec_state() -> State {
        State::Play
    }

    fn id(&self) -> (r: VarInt) {
        VarInt(0x34)
    }

    fn state(&self) -> (r: State) {
        State::Play
    }
}

/// 0x3C - Synchronize Player Position. Coordinates hold `f64` bits, rotations
/// `f32` bits; `relative_arguments` is a one-byte bitfield.
#[derive(Debug, Clone, PartialEq)]
pub struct S2CPlayerPosition {
    pub x: u64,
    pub y: u64,
    pub z: u64,
    pub y_rot: u32,
    pub x_rot: u32,
    pub relative_arguments: u8,
    pub id: VarInt,
}

/// The fields of [`S2CPlayerPosition`], in order.
impl Wire for S2CPlayerPosition {
    type Model = <(u64, (u64, (u64, (u32, (u32, (u8, (VarInt, ()))))))) as Wire>::Model;

    open spec fn model(&self) -> Self::Model {
        (self.x.model(), (self.y.model(), (self.z.model(), (self.y_rot.model(), (self.x_rot.model(), (self.relative_arguments.model(), (self.id.model(), ())))))))
    }

    open spec fn encodable(m: Self::Model) -> bool {
        <(u64, (u64, (u64, (u32, (u32, (u8, (VarInt, ()))))))) as Wire>::encodable(m)
    }

    open spec fn greedy() -> bool {
        <(u64, (u64, (u64, (u32, (u32, (u8, (VarInt, ()))))))) as Wire>::greedy()
    }

    open spec fn decodable() -> bool {
        <(u64, (u64, (u64, (u32, (u32, (u8, (VarInt, ()))))))) as Wire>::decodable()
    }

    closed spec fn spec_write(m: Self::Model) -> Seq<u8> {
        <(u64, (u64, (u64, (u32, (u32, (u8, (VarInt, ()))))))) as Wire>::spec_write(m)
    }

    closed spec fn spec_read(s: Seq<u8>) -> Result<(Self::Model, nat), DecodeError> {
        <(u64, (u64, (u64, (u32, (u32, (u8, (VarInt, ()))))))) as Wire>::spec_read(s)
    }

    fn write(&self, out: &mut Vec<u8>) {
        let ghost o0 = out@;
        self.x.write(out);
        proof { lemma_write_step::<u64, (u64, (u64, (u32, (u32, (u8, (VarInt, ()))))))>(o0, out@, self.x.model(), (self.y.model(), (self.z.model(), (self.y_rot.model(), (self.x_rot.model(), (self.relative_arguments.model(), (self.id.model(), ()))))))); }
        let ghost o1 = out@;
        self.y.write(out);
        proof { lemma_write_step::<u64, (u64, (u32, (u32, (u8, (VarInt, ())))))>(o1, out@, self.y.model(), (self.z.model(), (self.y_rot.model(), (self.x_rot.model(), (self.relative_arguments.model(), (self.id.model(), ())))))); }
        let ghost o2 = out@;
        self.z.write(out);
        proof { lemma_write_step::<u64, (u32, (u32, (u8, (VarInt, ()))))>(o2, out@, self.z.model(), (self.y_rot.model(), (self.x_rot.model(), (self.relative_arguments.model(), (self.id.model(), ()))))); }
        let ghost o3 = out@;
        self.y_rot.write(out);
        proof { lemma_write_step::<u32, (u32, (u8, (VarInt, ())))>(o3, out@, self.y_rot.model(), (self.x_rot.model(), (self.relative_arguments.model(), (self.id.model(), ())))); }
        let ghost o4 = out@;
        self.x_rot.write(out);
        proof { lemma_write_step::<u32, (u8, (VarInt, ()))>(o4, out@, self.x_rot.model(), (self.relative_arguments.model(), (self.id.model(), ()))); }
        let ghost o5 = out@;
        self.relative_arguments.write(out);
        proof { lemma_write_step::<u8, (VarInt, ())>(o5, out@, self.relative_arguments.model(), (self.id.model(), ())); }
        let ghost o6 = out@;
        self.id.write(out);
        proof { lemma_write_step::<VarInt, ()>(o6, out@, self.id.model(), ()); }
        let ghost o7 = out@;
        assert(o7 + Seq::<u8>::empty() =~= o7);
    }

    fn read(buf: &[u8], pos: usize) -> (r: Result<(S2CPlayerPosition, usize), DecodeError>) {
        match <(u64, (u64, (u64, (u32, (u32, (u8, (VarInt, ()))))))) as Wire>::read(buf, pos) {
            Ok(((x, (y, (z, (y_rot, (x_rot, (relative_arguments, (id, ()))))))), end)) => Ok((S2CPlayerPosition { x, y, z, y_rot, x_rot, relative_arguments, id }, end)),
            Err(e) => Err(e),
        }
    }

    proof fn lemma_read_len(s: Seq<u8>) {
        <(u64, (u64, (u64, (u32, (u32, (u8, (VarInt, ()))))))) as Wire>::lemma_read_len(s);
    }

    proof fn lemma_roundtrip(m: Self::Model, rest: Seq<u8>) {
        <(u64, (u64, (u64, (u32, (u32, (u8, (VarInt, ()))))))) as Wire>::lemma_roundtrip(m, rest);
    }
}

impl Packet for S2CPlayerPosition {
    open spec fn spec_id() -> i32 {
        0x3C
    }

    open spec fn spec_state() -> State {
        State::Play
    }

    fn id(&self) -> (r: VarInt) {
        VarInt(0x3C)
    }

    fn state(&self) -> (r: State) {
        State::Play
    }
}

/// 0x4E - Set Center Chunk.
#[derive(Debug, Clone, PartialEq)]
pub struct S2CSetChunkCacheCenter {
    pub x: VarInt,
    pub z: VarInt,
}

/// The fields of [`S2CSetChunkCacheCenter`], in order.
impl Wire for S2CSetChunkCacheCenter {
    type Model = <(VarInt, (VarInt, ())) as Wire>::Model;

    open spec fn model(&self) -> Self::Model {
        (self.x.model(), (self.z.model(), ()))
    }

    open spec fn encodable(m: Self::Model) -> bool {
        <(VarInt, (VarInt, ())) as Wire>::encodable(m)
    }

    open spec fn greedy() -> bool {
        <(VarInt, (VarInt, ())) as Wire>::greedy()
    }

    open spec fn decodable() -> bool {
        <(VarInt, (VarInt, ())) as Wire>::decodable()
    }

    closed spec fn spec_write(m: Self::Model) -> Seq<u8> {
        <(VarInt, (VarInt, ())) as Wire>::spec_write(m)
    }

    closed spec fn spec_read(s: Seq<u8>) -> Result<(Self::Model, nat), DecodeError> {
        <(VarInt, (VarInt, ())) as Wire>::spec_read(s)
    }

    fn write(&self, out: &mut Vec<u8>) {
        let ghost o0 = out@;
        self.x.write(out);
        proof { lemma_write_step::<VarInt, (VarInt, ())>(o0, out@, self.x.model(), (self.z.model(), ())); }
        let ghost o1 = out@;
        self.z.write(out);
        proof { lemma_write_step::<VarInt, ()>(o1, out@, self.z.model(), ()); }
        let ghost o2 = out@;
        assert(o2 + Seq::<u8>::empty() =~= o2);
    }

    fn read(buf: &[u8], pos: usize) -> (r: Result<(S2CSetChunkCacheCenter, usize), DecodeError>) {
        match <(VarInt, (VarInt, ())) as Wire>::read(buf, pos) {
            Ok(((x, (z, ())), end)) => Ok((S2CSetChunkCacheCenter { x, z }, end)),
            Err(e) => Err(e),
        }
    }

    proof fn lemma_read_len(s: Seq<u8>) {
        <(VarInt, (VarInt, ())) as Wire>::lemma_read_len(s);
    }

    proof fn lemma_roundtrip(m: Self::Model, rest: Seq<u8>) {
        <(VarInt, (VarInt, ())) as Wire>::lemma_roundtrip(m, rest);
    }
}

impl Packet for S2CSetChunkCacheCenter {
    open spec fn spec_id() -> i32 {
        0x4E
    }

    open spec fn spec_state() -> State {
        State::Play
    }

    fn id(&self) -> (r: VarInt) {
        VarInt(0x4E)
    }

    fn state(&self) -> (r: State) {
        State::Play
    }
}

/// 0x4F - Set Render Distance.
#[derive(Debug, Clone, PartialEq)]
pub struct S2CSetChunkCacheRadius {
    pub radius: VarInt,
}

/// The fields of [`S2CSetChunkCacheRadius`], in order.
impl Wire for S2CSetChunkCacheRadius {
    type Model = <(VarInt, ()) as Wire>::Model;

    open spec fn model(&self) -> Self::Model {
        (self.radius.model(), ())
    }

    open spec fn encodable(m: Self::Model) -> bool {
        <(VarInt, ()) as Wire>::encodable(m)
    }

    open spec fn greedy() -> bool {
        <(VarInt, ()) as Wire>::greedy()
    }

    open spec fn decodable() -> bool {
        <(VarInt, ()) as Wire>::decodable()
    }

    closed spec fn spec_write(m: Self::Model) -> Seq<u8> {
        <(VarInt, ()) as Wire>::spec_write(m)
    }

    closed spec fn spec_read(s: Seq<u8>) -> Result<(Self::Model, nat), DecodeError> {
        <(VarInt, ()) as Wire>::spec_read(s)
    }

    fn write(&self, out: &mut Vec<u8>) {
        let ghost o0 = out@;
        self.radius.write(out);
        proof { lemma_write_step::<VarInt, ()>(o0, out@, self.radius.model(), ()); }
        let ghost o1 = out@;
        assert(o1 + Seq::<u8>::empty() =~= o1);
    }

    fn read(buf: &[u8], pos: usize) -> (r: Result<(S2CSetChunkCacheRadius, usize), DecodeError>) {
        match <(VarInt, ()) as Wire>::read(buf, pos) {
            Ok(((radius, ()), end)) => Ok((S2CSetChunkCacheRadius { radius }, end)),
            Err(e) => Err(e),
        }
    }

    proof fn lemma_read_len(s: Seq<u8>) {
        <(VarInt, ()) as Wire>::lemma_read_len(s);
    }

    proof fn lemma_roundtrip(m: Self::Model, rest: Seq<u8>) {
        <(VarInt, ()) as Wire>::lemma_roundtrip(m, rest);
    }
}

impl Packet for S2CSetChunkCacheRadius {
    open spec fn spec_id() -> i32 {
        0x4F
    }

    open spec fn spec_state() -> State {
        State::Play
    }

    fn id(&self) -> (r: VarInt) {
        VarInt(0x4F)
    }

    fn state(&self) -> (r: State) {
        State::Play
    }
}

/// 0x50 - Set Default Spawn Position. `angle` holds `f32` bits.
#[derive(Debug, Clone, PartialEq)]
pub struct S2CSetDefaultSpawnPosition {
    pub location: BlockPos,
    pub angle: u32,
}

/// The fields of [`S2CSetDefaultSpawnPosition`], in order.
impl Wire for S2CSetDefaultSpawnPosition {
    type Model = <(BlockPos, (u32, ())) as Wire>::Model;

    open spec fn model(&self) -> Self::Model {
        (self.location.model(), (self.angle.model(), ()))
    }

    open spec fn encodable(m: Self::Model) -> bool {
        <(BlockPos, (u32, ())) as Wire>::encodable(m)
    }

    open spec fn greedy() -> bool {
        <(BlockPos, (u32, ())) as Wire>::greedy()
    }

    open spec fn decodable() -> bool {
        <(BlockPos, (u32, ())) as Wire>::decodable()
    }

    closed spec fn spec_write(m: Self::Model) -> Seq<u8> {
        <(BlockPos, (u32, ())) as Wire>::spec_write(m)
    }

    closed spec fn spec_read(s: Seq<u8>) -> Result<(Self::Model, nat), DecodeError> {
        <(BlockPos, (u32, ())) as Wire>::spec_read(s)
    }

    fn write(&self, out: &mut Vec<u8>) {
        let ghost o0 = out@;
        self.location.write(out);
        proof { lemma_write_step::<BlockPos, (u32, ())>(o0, out@, self.location.model(), (self.angle.model(), ())); }
        let ghost o1 = out@;
        self.angle.write(out);
        proof { lemma_write_step::<u32, ()>(o1, out@, self.angle.model(), ()); }
        let ghost o2 = out@;
        assert(o2 + Seq::<u8>::empty() =~= o2);
    }

    fn read(buf: &[u8], pos: usize) -> (r: Result<(S2CSetDefaultSpawnPosition, usize), DecodeError>) {
        match <(BlockPos, (u32, ())) as Wire>::read(buf, pos) {
            Ok(((location, (angle, ())), end)) => Ok((S2CSetDefaultSpawnPosition { location, angle }, end)),
            Err(e) => Err(e),
        }
    }

    proof fn lemma_read_len(s: Seq<u8>) {
        <(BlockPos, (u32, ())) as Wire>::lemma_read_len(s);
    }

    proof fn lemma_roundtrip(m: Self::Model, rest: Seq<u8>) {
        <(BlockPos, (u32, ())) as Wire>::lemma_roundtrip(m, rest);
    }
}

impl Packet for S2CSetDefaultSpawnPosition {
    open spec fn spec_id() -> i32 {
        0x50
    }

    open spec fn spec_state() -> State {
        State::Play
    }

    fn id(&self) -> (r: VarInt) {
        VarInt(0x50)
    }

    fn state(&self) -> (r: State) {
        State::Play
    }
}

/// Packs a block position into Minecraft's 64-bit wire encoding:
/// `((x & 0x3FFFFFF) << 38) | ((z & 0x3FFFFFF) << 12) | (y & 0xFFF)`.
pub fn pack_block_pos(x: i32, y: i32, z: i32) -> (r: i64)
    ensures
        r == spec_pack(x, y, z),
{
    BlockPos::new(x, y, z).to_packed()
}

/// The body of [`S2CLevelChunkWithLight`] for one empty air chunk at (0, 0)
/// in the 1.20.1 layout (named heightmaps compound); see
/// [`crate::common::chunk_payload`].
pub fn void_chunk_bytes() -> (r: Vec<u8>)
    ensures
        r@ == spec_chunk_payload(spec_heightmaps_v1_20_1()),
{
    void_chunk_bytes_v1_20_1()
}

} // verus!
