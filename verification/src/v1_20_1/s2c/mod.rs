//! Server-to-client packets of 1.20.1 and their aggregation.

pub mod status;
pub mod login;
pub mod play;

use vstd::prelude::*;

use crate::codec::Wire;
use crate::error::DecodeError;
use crate::packet::lemma_header_roundtrip;
use crate::state::State;
use crate::varint::{spec_varint_encode, VarInt};
use status::{S2CPong, S2CStatusResponse};
use login::{S2CDisconnect, S2CEncryptionRequest, S2CLoginPluginRequest, S2CLoginSuccess, S2CSetCompression};
use play::{S2CDisconnectPlay, S2CGameEvent, S2CKeepAlive, S2CLevelChunkWithLight, S2CLogin, S2CPlayerAbilities, S2CPlayerPosition, S2CSetChunkCacheCenter, S2CSetChunkCacheRadius, S2CSetDefaultSpawnPosition};

verus! {

/// The server-to-client packets of protocol 763 (MC 1.20.1).
#[derive(Debug)]
pub enum S2CPacket {
    StatusResponse(S2CStatusResponse),
    Pong(S2CPong),
    Disconnect(S2CDisconnect),
    EncryptionRequest(S2CEncryptionRequest),
    LoginSuccess(S2CLoginSuccess),
    SetCompression(S2CSetCompression),
    LoginPluginRequest(S2CLoginPluginRequest),
    DisconnectPlay(S2CDisconnectPlay),
    GameEvent(S2CGameEvent),
    KeepAlive(S2CKeepAlive),
    LevelChunkWithLight(S2CLevelChunkWithLight),
    Login(S2CLogin),
    PlayerAbilities(S2CPlayerAbilities),
    PlayerPosition(S2CPlayerPosition),
    SetChunkCacheCenter(S2CSetChunkCacheCenter),
    SetChunkCacheRadius(S2CSetChunkCacheRadius),
    SetDefaultSpawnPosition(S2CSetDefaultSpawnPosition),
}

/// The models of the variants of [`S2CPacket`].
pub ghost enum S2CPacketModel {
    StatusResponse(<S2CStatusResponse as Wire>::Model),
    Pong(<S2CPong as Wire>::Model),
    Disconnect(<S2CDisconnect as Wire>::Model),
    EncryptionRequest(<S2CEncryptionRequest as Wire>::Model),
    LoginSuccess(<S2CLoginSuccess as Wire>::Model),
    SetCompression(<S2CSetCompression as Wire>::Model),
    LoginPluginRequest(<S2CLoginPluginRequest as Wire>::Model),
    DisconnectPlay(<S2CDisconnectPlay as Wire>::Model),
    GameEvent(<S2CGameEvent as Wire>::Model),
    KeepAlive(<S2CKeepAlive as Wire>::Model),
    LevelChunkWithLight(<S2CLevelChunkWithLight as Wire>::Model),
    Login(<S2CLogin as Wire>::Model),
    PlayerAbilities(<S2CPlayerAbilities as Wire>::Model),
    PlayerPosition(<S2CPlayerPosition as Wire>::Model),
    SetChunkCacheCenter(<S2CSetChunkCacheCenter as Wire>::Model),
    SetChunkCacheRadius(<S2CSetChunkCacheRadius as Wire>::Model),
    SetDefaultSpawnPosition(<S2CSetDefaultSpawnPosition as Wire>::Model),
}

/// A [`S2CStatusResponse`] is the [`S2CPacket::StatusResponse`] packet.
impl From<S2CStatusResponse> for S2CPacket {
    fn from(p: S2CStatusResponse) -> (r: S2CPacket) {
        S2CPacket::StatusResponse(p)
    }
}

impl vstd::std_specs::convert::FromSpecImpl<S2CStatusResponse> for S2CPacket {
    open spec fn obeys_from_spec() -> bool {
        true
    }

    open spec fn from_spec(p: S2CStatusResponse) -> S2CPacket {
        S2CPacket::StatusResponse(p)
    }
}

/// A [`S2CPong`] is the [`S2CPacket::Pong`] packet.
impl From<S2CPong> for S2CPacket {
    fn from(p: S2CPong) -> (r: S2CPacket) {
        S2CPacket::Pong(p)
    }
}

impl vstd::std_specs::convert::FromSpecImpl<S2CPong> for S2CPacket {
    open spec fn obeys_from_spec() -> bool {
        true
    }

    open spec fn from_spec(p: S2CPong) -> S2CPacket {
        S2CPacket::Pong(p)
    }
}

/// A [`S2CDisconnect`] is the [`S2CPacket::Disconnect`] packet.
impl From<S2CDisconnect> for S2CPacket {
    fn from(p: S2CDisconnect) -> (r: S2CPacket) {
        S2CPacket::Disconnect(p)
    }
}

impl vstd::std_specs::convert::FromSpecImpl<S2CDisconnect> for S2CPacket {
    open spec fn obeys_from_spec() -> bool {
        true
    }

    open spec fn from_spec(p: S2CDisconnect) -> S2CPacket {
        S2CPacket::Disconnect(p)
    }
}

/// A [`S2CEncryptionRequest`] is the [`S2CPacket::EncryptionRequest`] packet.
impl From<S2CEncryptionRequest> for S2CPacket {
    fn from(p: S2CEncryptionRequest) -> (r: S2CPacket) {
        S2CPacket::EncryptionRequest(p)
    }
}

impl vstd::std_specs::convert::FromSpecImpl<S2CEncryptionRequest> for S2CPacket {
    open spec fn obeys_from_spec() -> bool {
        true
    }

    open spec fn from_spec(p: S2CEncryptionRequest) -> S2CPacket {
        S2CPacket::EncryptionRequest(p)
    }
}

/// A [`S2CLoginSuccess`] is the [`S2CPacket::LoginSuccess`] packet.
impl From<S2CLoginSuccess> for S2CPacket {
    fn from(p: S2CLoginSuccess) -> (r: S2CPacket) {
        S2CPacket::LoginSuccess(p)
    }
}

impl vstd::std_specs::convert::FromSpecImpl<S2CLoginSuccess> for S2CPacket {
    open spec fn obeys_from_spec() -> bool {
        true
    }

    open spec fn from_spec(p: S2CLoginSuccess) -> S2CPacket {
        S2CPacket::LoginSuccess(p)
    }
}

/// A [`S2CSetCompression`] is the [`S2CPacket::SetCompression`] packet.
impl From<S2CSetCompression> for S2CPacket {
    fn from(p: S2CSetCompression) -> (r: S2CPacket) {
        S2CPacket::SetCompression(p)
    }
}

impl vstd::std_specs::convert::FromSpecImpl<S2CSetCompression> for S2CPacket {
    open spec fn obeys_from_spec() -> bool {
        true
    }

    open spec fn from_spec(p: S2CSetCompression) -> S2CPacket {
        S2CPacket::SetCompression(p)
    }
}

/// A [`S2CLoginPluginRequest`] is the [`S2CPacket::LoginPluginRequest`] packet.
impl From<S2CLoginPluginRequest> for S2CPacket {
    fn from(p: S2CLoginPluginRequest) -> (r: S2CPacket) {
        S2CPacket::LoginPluginRequest(p)
    }
}

impl vstd::std_specs::convert::FromSpecImpl<S2CLoginPluginRequest> for S2CPacket {
    open spec fn obeys_from_spec() -> bool {
        true
    }

    open spec fn from_spec(p: S2CLoginPluginRequest) -> S2CPacket {
        S2CPacket::LoginPluginRequest(p)
    }
}

/// A [`S2CDisconnectPlay`] is the [`S2CPacket::DisconnectPlay`] packet.
impl From<S2CDisconnectPlay> for S2CPacket {
    fn from(p: S2CDisconnectPlay) -> (r: S2CPacket) {
        S2CPacket::DisconnectPlay(p)
    }
}

impl vstd::std_specs::convert::FromSpecImpl<S2CDisconnectPlay> for S2CPacket {
    open spec fn obeys_from_spec() -> bool {
        true
    }

    open spec fn from_spec(p: S2CDisconnectPlay) -> S2CPacket {
        S2CPacket::DisconnectPlay(p)
    }
}

/// A [`S2CGameEvent`] is the [`S2CPacket::GameEvent`] packet.
impl From<S2CGameEvent> for S2CPacket {
    fn from(p: S2CGameEvent) -> (r: S2CPacket) {
        S2CPacket::GameEvent(p)
    }
}

impl vstd::std_specs::convert::FromSpecImpl<S2CGameEvent> for S2CPacket {
    open spec fn obeys_from_spec() -> bool {
        true
    }

    open spec fn from_spec(p: S2CGameEvent) -> S2CPacket {
        S2CPacket::GameEvent(p)
    }
}

/// A [`S2CKeepAlive`] is the [`S2CPacket::KeepAlive`] packet.
impl From<S2CKeepAlive> for S2CPacket {
    fn from(p: S2CKeepAlive) -> (r: S2CPacket) {
        S2CPacket::KeepAlive(p)
    }
}

impl vstd::std_specs::convert::FromSpecImpl<S2CKeepAlive> for S2CPacket {
    open spec fn obeys_from_spec() -> bool {
        true
    }

    open spec fn from_spec(p: S2CKeepAlive) -> S2CPacket {
        S2CPacket::KeepAlive(p)
    }
}

/// A [`S2CLevelChunkWithLight`] is the [`S2CPacket::LevelChunkWithLight`] packet.
impl From<S2CLevelChunkWithLight> for S2CPacket {
    fn from(p: S2CLevelChunkWithLight) -> (r: S2CPacket) {
        S2CPacket::LevelChunkWithLight(p)
    }
}

impl vstd::std_specs::convert::FromSpecImpl<S2CLevelChunkWithLight> for S2CPacket {
    open spec fn obeys_from_spec() -> bool {
        true
    }

    open spec fn from_spec(p: S2CLevelChunkWithLight) -> S2CPacket {
        S2CPacket::LevelChunkWithLight(p)
    }
}

/// A [`S2CLogin`] is the [`S2CPacket::Login`] packet.
impl From<S2CLogin> for S2CPacket {
    fn from(p: S2CLogin) -> (r: S2CPacket) {
        S2CPacket::Login(p)
    }
}

impl vstd::std_specs::convert::FromSpecImpl<S2CLogin> for S2CPacket {
    open spec fn obeys_from_spec() -> bool {
        true
    }

    open spec fn from_spec(p: S2CLogin) -> S2CPacket {
        S2CPacket::Login(p)
    }
}

/// A [`S2CPlayerAbilities`] is the [`S2CPacket::PlayerAbilities`] packet.
impl From<S2CPlayerAbilities> for S2CPacket {
    fn from(p: S2CPlayerAbilities) -> (r: S2CPacket) {
        S2CPacket::PlayerAbilities(p)
    }
}

impl vstd::std_specs::convert::FromSpecImpl<S2CPlayerAbilities> for S2CPacket {
    open spec fn obeys_from_spec() -> bool {
        true
    }

    open spec fn from_spec(p: S2CPlayerAbilities) -> S2CPacket {
        S2CPacket::PlayerAbilities(p)
    }
}

/// A [`S2CPlayerPosition`] is the [`S2CPacket::PlayerPosition`] packet.
impl From<S2CPlayerPosition> for S2CPacket {
    fn from(p: S2CPlayerPosition) -> (r: S2CPacket) {
        S2CPacket::PlayerPosition(p)
    }
}

impl vstd::std_specs::convert::FromSpecImpl<S2CPlayerPosition> for S2CPacket {
    open spec fn obeys_from_spec() -> bool {
        true
    }

    open spec fn from_spec(p: S2CPlayerPosition) -> S2CPacket {
        S2CPacket::PlayerPosition(p)
    }
}

/// A [`S2CSetChunkCacheCenter`] is the [`S2CPacket::SetChunkCacheCenter`] packet.
impl From<S2CSetChunkCacheCenter> for S2CPacket {
    fn from(p: S2CSetChunkCacheCenter) -> (r: S2CPacket) {
        S2CPacket::SetChunkCacheCenter(p)
    }
}

impl vstd::std_specs::convert::FromSpecImpl<S2CSetChunkCacheCenter> for S2CPacket {
    open spec fn obeys_from_spec() -> bool {
        true
    }

    open spec fn from_spec(p: S2CSetChunkCacheCenter) -> S2CPacket {
        S2CPacket::SetChunkCacheCenter(p)
    }
}

/// A [`S2CSetChunkCacheRadius`] is the [`S2CPacket::SetChunkCacheRadius`] packet.
impl From<S2CSetChunkCacheRadius> for S2CPacket {
    fn from(p: S2CSetChunkCacheRadius) -> (r: S2CPacket) {
        S2CPacket::SetChunkCacheRadius(p)
    }
}

impl vstd::std_specs::convert::FromSpecImpl<S2CSetChunkCacheRadius> for S2CPacket {
    open spec fn obeys_from_spec() -> bool {
        true
    }

    open spec fn from_spec(p: S2CSetChunkCacheRadius) -> S2CPacket {
        S2CPacket::SetChunkCacheRadius(p)
    }
}

/// A [`S2CSetDefaultSpawnPosition`] is the [`S2CPacket::SetDefaultSpawnPosition`] packet.
impl From<S2CSetDefaultSpawnPosition> for S2CPacket {
    fn from(p: S2CSetDefaultSpawnPosition) -> (r: S2CPacket) {
        S2CPacket::SetDefaultSpawnPosition(p)
    }
}

impl vstd::std_specs::convert::FromSpecImpl<S2CSetDefaultSpawnPosition> for S2CPacket {
    open spec fn obeys_from_spec() -> bool {
        true
    }

    open spec fn from_spec(p: S2CSetDefaultSpawnPosition) -> S2CPacket {
        S2CPacket::SetDefaultSpawnPosition(p)
    }
}

impl S2CPacket {
    /// The model of this packet.
    pub open spec fn model(&self) -> S2CPacketModel {
        match self {
            S2CPacket::StatusResponse(p) => S2CPacketModel::StatusResponse(p.model()),
            S2CPacket::Pong(p) => S2CPacketModel::Pong(p.model()),
            S2CPacket::Disconnect(p) => S2CPacketModel::Disconnect(p.model()),
            S2CPacket::EncryptionRequest(p) => S2CPacketModel::EncryptionRequest(p.model()),
            S2CPacket::LoginSuccess(p) => S2CPacketModel::LoginSuccess(p.model()),
            S2CPacket::SetCompression(p) => S2CPacketModel::SetCompression(p.model()),
            S2CPacket::LoginPluginRequest(p) => S2CPacketModel::LoginPluginRequest(p.model()),
            S2CPacket::DisconnectPlay(p) => S2CPacketModel::DisconnectPlay(p.model()),
            S2CPacket::GameEvent(p) => S2CPacketModel::GameEvent(p.model()),
            S2CPacket::KeepAlive(p) => S2CPacketModel::KeepAlive(p.model()),
            S2CPacket::LevelChunkWithLight(p) => S2CPacketModel::LevelChunkWithLight(p.model()),
            S2CPacket::Login(p) => S2CPacketModel::Login(p.model()),
            S2CPacket::PlayerAbilities(p) => S2CPacketModel::PlayerAbilities(p.model()),
            S2CPacket::PlayerPosition(p) => S2CPacketModel::PlayerPosition(p.model()),
            S2CPacket::SetChunkCacheCenter(p) => S2CPacketModel::SetChunkCacheCenter(p.model()),
            S2CPacket::SetChunkCacheRadius(p) => S2CPacketModel::SetChunkCacheRadius(p.model()),
            S2CPacket::SetDefaultSpawnPosition(p) => S2CPacketModel::SetDefaultSpawnPosition(p.model()),
        }
    }

    /// Decodes a packet from `buf`: its leading `VarInt` id, then the fields
    /// of the variant whose state is `state` and whose id is that id. Ids are
    /// reused across states, so the state decides between them.
    pub fn decode_in_state(state: State, buf: &[u8]) -> (r: Result<S2CPacket, DecodeError>)
        ensures
            match spec_decode_s2c_packet(state, buf@) {
                Ok(m) => r matches Ok(p) && p.model() == m,
                Err(e) => r == Err::<S2CPacket, DecodeError>(e),
            },
    {
        assert(buf@.skip(0) =~= buf@);
        let (id, p) = match <VarInt as Wire>::read(buf, 0) {
            Ok(x) => x,
            Err(e) => return Err(e),
        };
        match state {
            State::Handshake => Err(DecodeError::UnknownPacket),
            State::Status => Self::decode_status(id.0, buf, p),
            State::Login => Self::decode_login(id.0, buf, p),
            State::Configuration => Err(DecodeError::UnknownPacket),
            State::Play => Self::decode_play(id.0, buf, p),
        }
    }

    fn decode_status(id: i32, buf: &[u8], p: usize) -> (r: Result<S2CPacket, DecodeError>)
        requires
            p <= buf@.len(),
        ensures
            match spec_decode_s2c_packet_status(id, buf@.skip(p as int)) {
                Ok(m) => r matches Ok(x) && x.model() == m,
                Err(e) => r == Err::<S2CPacket, DecodeError>(e),
            },
    {
        if id == 0x00 {
            match <S2CStatusResponse as Wire>::read(buf, p) {
                Ok((x, _)) => Ok(S2CPacket::StatusResponse(x)),
                Err(e) => Err(e),
            }
        } else if id == 0x01 {
            match <S2CPong as Wire>::read(buf, p) {
                Ok((x, _)) => Ok(S2CPacket::Pong(x)),
                Err(e) => Err(e),
            }
        } else {
            Err(DecodeError::UnknownPacket)
        }
    }

    fn decode_login(id: i32, buf: &[u8], p: usize) -> (r: Result<S2CPacket, DecodeError>)
        requires
            p <= buf@.len(),
        ensures
            match spec_decode_s2c_packet_login(id, buf@.skip(p as int)) {
                Ok(m) => r matches Ok(x) && x.model() == m,
                Err(e) => r == Err::<S2CPacket, DecodeError>(e),
            },
    {
        if id == 0x00 {
            match <S2CDisconnect as Wire>::read(buf, p) {
                Ok((x, _)) => Ok(S2CPacket::Disconnect(x)),
                Err(e) => Err(e),
            }
        } else if id == 0x01 {
            match <S2CEncryptionRequest as Wire>::read(buf, p) {
                Ok((x, _)) => Ok(S2CPacket::EncryptionRequest(x)),
                Err(e) => Err(e),
            }
        } else if id == 0x02 {
            match <S2CLoginSuccess as Wire>::read(buf, p) {
                Ok((x, _)) => Ok(S2CPacket::LoginSuccess(x)),
                Err(e) => Err(e),
            }
        } else if id == 0x03 {
            match <S2CSetCompression as Wire>::read(buf, p) {
                Ok((x, _)) => Ok(S2CPacket::SetCompression(x)),
                Err(e) => Err(e),
            }
        } else if id == 0x04 {
            match <S2CLoginPluginRequest as Wire>::read(buf, p) {
                Ok((x, _)) => Ok(S2CPacket::LoginPluginRequest(x)),
                Err(e) => Err(e),
            }
        } else {
            Err(DecodeError::UnknownPacket)
        }
    }

    fn decode_play(id: i32, buf: &[u8], p: usize) -> (r: Result<S2CPacket, DecodeError>)
        requires
            p <= buf@.len(),
        ensures
            match spec_decode_s2c_packet_play(id, buf@.skip(p as int)) {
                Ok(m) => r matches Ok(x) && x.model() == m,
                Err(e) => r == Err::<S2CPacket, DecodeError>(e),
            },
    {
        if id < 0x3C {
            Self::decode_play_0(id, buf, p)
        } else {
            Self::decode_play_1(id, buf, p)
        }
    }

    fn decode_play_0(id: i32, buf: &[u8], p: usize) -> (r: Result<S2CPacket, DecodeError>)
        requires
            p <= buf@.len(),
        ensures
            match spec_decode_s2c_packet_play_0(id, buf@.skip(p as int)) {
                Ok(m) => r matches Ok(x) && x.model() == m,
                Err(e) => r == Err::<S2CPacket, DecodeError>(e),
            },
    {
        if id == 0x1A {
            match <S2CDisconnectPlay as Wire>::read(buf, p) {
                Ok((x, _)) => Ok(S2CPacket::DisconnectPlay(x)),
                Err(e) => Err(e),
            }
        } else if id == 0x1F {
            match <S2CGameEvent as Wire>::read(buf, p) {
                Ok((x, _)) => Ok(S2CPacket::GameEvent(x)),
                Err(e) => Err(e),
            }
        } else if id == 0x23 {
            match <S2CKeepAlive as Wire>::read(buf, p) {
                Ok((x, _)) => Ok(S2CPacket::KeepAlive(x)),
                Err(e) => Err(e),
            }
        } else if id == 0x24 {
            match <S2CLevelChunkWithLight as Wire>::read(buf, p) {
                Ok((x, _)) => Ok(S2CPacket::LevelChunkWithLight(x)),
                Err(e) => Err(e),
            }
        } else if id == 0x28 {
            match <S2CLogin as Wire>::read(buf, p) {
                Ok((x, _)) => Ok(S2CPacket::Login(x)),
                Err(e) => Err(e),
            }
        } else if id == 0x34 {
            match <S2CPlayerAbilities as Wire>::read(buf, p) {
                Ok((x, _)) => Ok(S2CPacket::PlayerAbilities(x)),
                Err(e) => Err(e),
            }
        } else {
            Err(DecodeError::UnknownPacket)
        }
    }

    fn decode_play_1(id: i32, buf: &[u8], p: usize) -> (r: Result<S2CPacket, DecodeError>)
        requires
            p <= buf@.len(),
        ensures
            match spec_decode_s2c_packet_play_1(id, buf@.skip(p as int)) {
                Ok(m) => r matches Ok(x) && x.model() == m,
                Err(e) => r == Err::<S2CPacket, DecodeError>(e),
            },
    {
        if id == 0x3C {
            match <S2CPlayerPosition as Wire>::read(buf, p) {
                Ok((x, _)) => Ok(S2CPacket::PlayerPosition(x)),
                Err(e) => Err(e),
            }
        } else if id == 0x4E {
            match <S2CSetChunkCacheCenter as Wire>::read(buf, p) {
                Ok((x, _)) => Ok(S2CPacket::SetChunkCacheCenter(x)),
                Err(e) => Err(e),
            }
        } else if id == 0x4F {
            match <S2CSetChunkCacheRadius as Wire>::read(buf, p) {
                Ok((x, _)) => Ok(S2CPacket::SetChunkCacheRadius(x)),
                Err(e) => Err(e),
            }
        } else if id == 0x50 {
            match <S2CSetDefaultSpawnPosition as Wire>::read(buf, p) {
                Ok((x, _)) => Ok(S2CPacket::SetDefaultSpawnPosition(x)),
                Err(e) => Err(e),
            }
        } else {
            Err(DecodeError::UnknownPacket)
        }
    }

}

/// What decoding a packet of [`S2CPacket`] from `s` in `state` gives: the
/// leading `VarInt` id, then the fields of the packet that the state and id
/// stand for.
pub open spec fn spec_decode_s2c_packet(state: State, s: Seq<u8>) -> Result<S2CPacketModel, DecodeError> {
    match <VarInt as Wire>::spec_read(s) {
        Ok((id, n)) => match state {
            State::Handshake => Err(DecodeError::UnknownPacket),
            State::Status => spec_decode_s2c_packet_status(id, s.skip(n as int)),
            State::Login => spec_decode_s2c_packet_login(id, s.skip(n as int)),
            State::Configuration => Err(DecodeError::UnknownPacket),
            State::Play => spec_decode_s2c_packet_play(id, s.skip(n as int)),
        },
        Err(e) => Err(e),
    }
}

/// What the fields after id `id` decode to in the Status state.
pub open spec fn spec_decode_s2c_packet_status(id: i32, body: Seq<u8>) -> Result<S2CPacketModel, DecodeError> {
    if id == 0x00 {
        match <S2CStatusResponse as Wire>::spec_read(body) {
            Ok((m, _)) => Ok(S2CPacketModel::StatusResponse(m)),
            Err(e) => Err(e),
        }
    } else if id == 0x01 {
        match <S2CPong as Wire>::spec_read(body) {
            Ok((m, _)) => Ok(S2CPacketModel::Pong(m)),
            Err(e) => Err(e),
        }
    } else {
        Err(DecodeError::UnknownPacket)
    }
}

/// What the fields after id `id` decode to in the Login state.
pub open spec fn spec_decode_s2c_packet_login(id: i32, body: Seq<u8>) -> Result<S2CPacketModel, DecodeError> {
    if id == 0x00 {
        match <S2CDisconnect as Wire>::spec_read(body) {
            Ok((m, _)) => Ok(S2CPacketModel::Disconnect(m)),
            Err(e) => Err(e),
        }
    } else if id == 0x01 {
        match <S2CEncryptionRequest as Wire>::spec_read(body) {
            Ok((m, _)) => Ok(S2CPacketModel::EncryptionRequest(m)),
            Err(e) => Err(e),
        }
    } else if id == 0x02 {
        match <S2CLoginSuccess as Wire>::spec_read(body) {
            Ok((m, _)) => Ok(S2CPacketModel::LoginSuccess(m)),
            Err(e) => Err(e),
        }
    } else if id == 0x03 {
        match <S2CSetCompression as Wire>::spec_read(body) {
            Ok((m, _)) => Ok(S2CPacketModel::SetCompression(m)),
            Err(e) => Err(e),
        }
    } else if id == 0x04 {
        match <S2CLoginPluginRequest as Wire>::spec_read(body) {
            Ok((m, _)) => Ok(S2CPacketModel::LoginPluginRequest(m)),
            Err(e) => Err(e),
        }
    } else {
        Err(DecodeError::UnknownPacket)
    }
}

/// What the fields after id `id` decode to in the Play state.
pub open spec fn spec_decode_s2c_packet_play(id: i32, body: Seq<u8>) -> Result<S2CPacketModel, DecodeError> {
    if id < 0x3C {
        spec_decode_s2c_packet_play_0(id, body)
    } else {
        spec_decode_s2c_packet_play_1(id, body)
    }
}

/// The Play packets with ids from 0x1A to 0x34.
pub open spec fn spec_decode_s2c_packet_play_0(id: i32, body: Seq<u8>) -> Result<S2CPacketModel, DecodeError> {
    if id == 0x1A {
        match <S2CDisconnectPlay as Wire>::spec_read(body) {
            Ok((m, _)) => Ok(S2CPacketModel::DisconnectPlay(m)),
            Err(e) => Err(e),
        }
    } else if id == 0x1F {
        match <S2CGameEvent as Wire>::spec_read(body) {
            Ok((m, _)) => Ok(S2CPacketModel::GameEvent(m)),
            Err(e) => Err(e),
        }
    } else if id == 0x23 {
        match <S2CKeepAlive as Wire>::spec_read(body) {
            Ok((m, _)) => Ok(S2CPacketModel::KeepAlive(m)),
            Err(e) => Err(e),
        }
    } else if id == 0x24 {
        match <S2CLevelChunkWithLight as Wire>::spec_read(body) {
            Ok((m, _)) => Ok(S2CPacketModel::LevelChunkWithLight(m)),
            Err(e) => Err(e),
        }
    } else if id == 0x28 {
        match <S2CLogin as Wire>::spec_read(body) {
            Ok((m, _)) => Ok(S2CPacketModel::Login(m)),
            Err(e) => Err(e),
        }
    } else if id == 0x34 {
        match <S2CPlayerAbilities as Wire>::spec_read(body) {
            Ok((m, _)) => Ok(S2CPacketModel::PlayerAbilities(m)),
            Err(e) => Err(e),
        }
    } else {
        Err(DecodeError::UnknownPacket)
    }
}

/// The Play packets with ids from 0x3C to 0x50.
pub open spec fn spec_decode_s2c_packet_play_1(id: i32, body: Seq<u8>) -> Result<S2CPacketModel, DecodeError> {
    if id == 0x3C {
        match <S2CPlayerPosition as Wire>::spec_read(body) {
            Ok((m, _)) => Ok(S2CPacketModel::PlayerPosition(m)),
            Err(e) => Err(e),
        }
    } else if id == 0x4E {
        match <S2CSetChunkCacheCenter as Wire>::spec_read(body) {
            Ok((m, _)) => Ok(S2CPacketModel::SetChunkCacheCenter(m)),
            Err(e) => Err(e),
        }
    } else if id == 0x4F {
        match <S2CSetChunkCacheRadius as Wire>::spec_read(body) {
            Ok((m, _)) => Ok(S2CPacketModel::SetChunkCacheRadius(m)),
            Err(e) => Err(e),
        }
    } else if id == 0x50 {
        match <S2CSetDefaultSpawnPosition as Wire>::spec_read(body) {
            Ok((m, _)) => Ok(S2CPacketModel::SetDefaultSpawnPosition(m)),
            Err(e) => Err(e),
        }
    } else {
        Err(DecodeError::UnknownPacket)
    }
}

/// The bytes of a packet of the group: its id, then its fields.
pub open spec fn spec_encode_s2c_packet(g: S2CPacketModel) -> Seq<u8> {
    match g {
        S2CPacketModel::StatusResponse(m) => spec_varint_encode(0x00) + <S2CStatusResponse as Wire>::spec_write(m),
        S2CPacketModel::Pong(m) => spec_varint_encode(0x01) + <S2CPong as Wire>::spec_write(m),
        S2CPacketModel::Disconnect(m) => spec_varint_encode(0x00) + <S2CDisconnect as Wire>::spec_write(m),
        S2CPacketModel::EncryptionRequest(m) => spec_varint_encode(0x01) + <S2CEncryptionRequest as Wire>::spec_write(m),
        S2CPacketModel::LoginSuccess(m) => spec_varint_encode(0x02) + <S2CLoginSuccess as Wire>::spec_write(m),
        S2CPacketModel::SetCompression(m) => spec_varint_encode(0x03) + <S2CSetCompression as Wire>::spec_write(m),
        S2CPacketModel::LoginPluginRequest(m) => spec_varint_encode(0x04) + <S2CLoginPluginRequest as Wire>::spec_write(m),
        S2CPacketModel::DisconnectPlay(m) => spec_varint_encode(0x1A) + <S2CDisconnectPlay as Wire>::spec_write(m),
        S2CPacketModel::GameEvent(m) => spec_varint_encode(0x1F) + <S2CGameEvent as Wire>::spec_write(m),
        S2CPacketModel::KeepAlive(m) => spec_varint_encode(0x23) + <S2CKeepAlive as Wire>::spec_write(m),
        S2CPacketModel::LevelChunkWithLight(m) => spec_varint_encode(0x24) + <S2CLevelChunkWithLight as Wire>::spec_write(m),
        S2CPacketModel::Login(m) => spec_varint_encode(0x28) + <S2CLogin as Wire>::spec_write(m),
        S2CPacketModel::PlayerAbilities(m) => spec_varint_encode(0x34) + <S2CPlayerAbilities as Wire>::spec_write(m),
        S2CPacketModel::PlayerPosition(m) => spec_varint_encode(0x3C) + <S2CPlayerPosition as Wire>::spec_write(m),
        S2CPacketModel::SetChunkCacheCenter(m) => spec_varint_encode(0x4E) + <S2CSetChunkCacheCenter as Wire>::spec_write(m),
        S2CPacketModel::SetChunkCacheRadius(m) => spec_varint_encode(0x4F) + <S2CSetChunkCacheRadius as Wire>::spec_write(m),
        S2CPacketModel::SetDefaultSpawnPosition(m) => spec_varint_encode(0x50) + <S2CSetDefaultSpawnPosition as Wire>::spec_write(m),
    }
}

/// The state a packet of the group belongs to.
pub open spec fn state_of_s2c_packet(g: S2CPacketModel) -> State {
    match g {
        S2CPacketModel::StatusResponse(m) => State::Status,
        S2CPacketModel::Pong(m) => State::Status,
        S2CPacketModel::Disconnect(m) => State::Login,
        S2CPacketModel::EncryptionRequest(m) => State::Login,
        S2CPacketModel::LoginSuccess(m) => State::Login,
        S2CPacketModel::SetCompression(m) => State::Login,
        S2CPacketModel::LoginPluginRequest(m) => State::Login,
        S2CPacketModel::DisconnectPlay(m) => State::Play,
        S2CPacketModel::GameEvent(m) => State::Play,
        S2CPacketModel::KeepAlive(m) => State::Play,
        S2CPacketModel::LevelChunkWithLight(m) => State::Play,
        S2CPacketModel::Login(m) => State::Play,
        S2CPacketModel::PlayerAbilities(m) => State::Play,
        S2CPacketModel::PlayerPosition(m) => State::Play,
        S2CPacketModel::SetChunkCacheCenter(m) => State::Play,
        S2CPacketModel::SetChunkCacheRadius(m) => State::Play,
        S2CPacketModel::SetDefaultSpawnPosition(m) => State::Play,
    }
}

/// The packet's fields have a layout.
pub open spec fn encodable_s2c_packet(g: S2CPacketModel) -> bool {
    match g {
        S2CPacketModel::StatusResponse(m) => <S2CStatusResponse as Wire>::encodable(m),
        S2CPacketModel::Pong(m) => <S2CPong as Wire>::encodable(m),
        S2CPacketModel::Disconnect(m) => <S2CDisconnect as Wire>::encodable(m),
        S2CPacketModel::EncryptionRequest(m) => <S2CEncryptionRequest as Wire>::encodable(m),
        S2CPacketModel::LoginSuccess(m) => <S2CLoginSuccess as Wire>::encodable(m),
        S2CPacketModel::SetCompression(m) => <S2CSetCompression as Wire>::encodable(m),
        S2CPacketModel::LoginPluginRequest(m) => <S2CLoginPluginRequest as Wire>::encodable(m),
        S2CPacketModel::DisconnectPlay(m) => <S2CDisconnectPlay as Wire>::encodable(m),
        S2CPacketModel::GameEvent(m) => <S2CGameEvent as Wire>::encodable(m),
        S2CPacketModel::KeepAlive(m) => <S2CKeepAlive as Wire>::encodable(m),
        S2CPacketModel::LevelChunkWithLight(m) => <S2CLevelChunkWithLight as Wire>::encodable(m),
        S2CPacketModel::Login(m) => <S2CLogin as Wire>::encodable(m),
        S2CPacketModel::PlayerAbilities(m) => <S2CPlayerAbilities as Wire>::encodable(m),
        S2CPacketModel::PlayerPosition(m) => <S2CPlayerPosition as Wire>::encodable(m),
        S2CPacketModel::SetChunkCacheCenter(m) => <S2CSetChunkCacheCenter as Wire>::encodable(m),
        S2CPacketModel::SetChunkCacheRadius(m) => <S2CSetChunkCacheRadius as Wire>::encodable(m),
        S2CPacketModel::SetDefaultSpawnPosition(m) => <S2CSetDefaultSpawnPosition as Wire>::encodable(m),
    }
}

/// The packet's last field takes every remaining byte.
pub open spec fn greedy_s2c_packet(g: S2CPacketModel) -> bool {
    match g {
        S2CPacketModel::StatusResponse(m) => <S2CStatusResponse as Wire>::greedy(),
        S2CPacketModel::Pong(m) => <S2CPong as Wire>::greedy(),
        S2CPacketModel::Disconnect(m) => <S2CDisconnect as Wire>::greedy(),
        S2CPacketModel::EncryptionRequest(m) => <S2CEncryptionRequest as Wire>::greedy(),
        S2CPacketModel::LoginSuccess(m) => <S2CLoginSuccess as Wire>::greedy(),
        S2CPacketModel::SetCompression(m) => <S2CSetCompression as Wire>::greedy(),
        S2CPacketModel::LoginPluginRequest(m) => <S2CLoginPluginRequest as Wire>::greedy(),
        S2CPacketModel::DisconnectPlay(m) => <S2CDisconnectPlay as Wire>::greedy(),
        S2CPacketModel::GameEvent(m) => <S2CGameEvent as Wire>::greedy(),
        S2CPacketModel::KeepAlive(m) => <S2CKeepAlive as Wire>::greedy(),
        S2CPacketModel::LevelChunkWithLight(m) => <S2CLevelChunkWithLight as Wire>::greedy(),
        S2CPacketModel::Login(m) => <S2CLogin as Wire>::greedy(),
        S2CPacketModel::PlayerAbilities(m) => <S2CPlayerAbilities as Wire>::greedy(),
        S2CPacketModel::PlayerPosition(m) => <S2CPlayerPosition as Wire>::greedy(),
        S2CPacketModel::SetChunkCacheCenter(m) => <S2CSetChunkCacheCenter as Wire>::greedy(),
        S2CPacketModel::SetChunkCacheRadius(m) => <S2CSetChunkCacheRadius as Wire>::greedy(),
        S2CPacketModel::SetDefaultSpawnPosition(m) => <S2CSetDefaultSpawnPosition as Wire>::greedy(),
    }
}

/// The packet's layout can be read back (no greedy field is followed by another).
pub open spec fn decodable_s2c_packet(g: S2CPacketModel) -> bool {
    match g {
        S2CPacketModel::StatusResponse(m) => <S2CStatusResponse as Wire>::decodable(),
        S2CPacketModel::Pong(m) => <S2CPong as Wire>::decodable(),
        S2CPacketModel::Disconnect(m) => <S2CDisconnect as Wire>::decodable(),
        S2CPacketModel::EncryptionRequest(m) => <S2CEncryptionRequest as Wire>::decodable(),
        S2CPacketModel::LoginSuccess(m) => <S2CLoginSuccess as Wire>::decodable(),
        S2CPacketModel::SetCompression(m) => <S2CSetCompression as Wire>::decodable(),
        S2CPacketModel::LoginPluginRequest(m) => <S2CLoginPluginRequest as Wire>::decodable(),
        S2CPacketModel::DisconnectPlay(m) => <S2CDisconnectPlay as Wire>::decodable(),
        S2CPacketModel::GameEvent(m) => <S2CGameEvent as Wire>::decodable(),
        S2CPacketModel::KeepAlive(m) => <S2CKeepAlive as Wire>::decodable(),
        S2CPacketModel::LevelChunkWithLight(m) => <S2CLevelChunkWithLight as Wire>::decodable(),
        S2CPacketModel::Login(m) => <S2CLogin as Wire>::decodable(),
        S2CPacketModel::PlayerAbilities(m) => <S2CPlayerAbilities as Wire>::decodable(),
        S2CPacketModel::PlayerPosition(m) => <S2CPlayerPosition as Wire>::decodable(),
        S2CPacketModel::SetChunkCacheCenter(m) => <S2CSetChunkCacheCenter as Wire>::decodable(),
        S2CPacketModel::SetChunkCacheRadius(m) => <S2CSetChunkCacheRadius as Wire>::decodable(),
        S2CPacketModel::SetDefaultSpawnPosition(m) => <S2CSetDefaultSpawnPosition as Wire>::decodable(),
    }
}

proof fn lemma_s2c_packet_roundtrip_status(g: S2CPacketModel, rest: Seq<u8>)
    requires
        state_of_s2c_packet(g) == State::Status,
        decodable_s2c_packet(g),
        encodable_s2c_packet(g),
        !greedy_s2c_packet(g) || rest.len() == 0,
    ensures
        spec_decode_s2c_packet_status(
            match g {
                S2CPacketModel::StatusResponse(_) => 0x00,
                S2CPacketModel::Pong(_) => 0x01,
                S2CPacketModel::Disconnect(_) => 0x00,
                S2CPacketModel::EncryptionRequest(_) => 0x01,
                S2CPacketModel::LoginSuccess(_) => 0x02,
                S2CPacketModel::SetCompression(_) => 0x03,
                S2CPacketModel::LoginPluginRequest(_) => 0x04,
                S2CPacketModel::DisconnectPlay(_) => 0x1A,
                S2CPacketModel::GameEvent(_) => 0x1F,
                S2CPacketModel::KeepAlive(_) => 0x23,
                S2CPacketModel::LevelChunkWithLight(_) => 0x24,
                S2CPacketModel::Login(_) => 0x28,
                S2CPacketModel::PlayerAbilities(_) => 0x34,
                S2CPacketModel::PlayerPosition(_) => 0x3C,
                S2CPacketModel::SetChunkCacheCenter(_) => 0x4E,
                S2CPacketModel::SetChunkCacheRadius(_) => 0x4F,
                S2CPacketModel::SetDefaultSpawnPosition(_) => 0x50,
            },
            match g {
                S2CPacketModel::StatusResponse(m) => <S2CStatusResponse as Wire>::spec_write(m) + rest,
                S2CPacketModel::Pong(m) => <S2CPong as Wire>::spec_write(m) + rest,
                S2CPacketModel::Disconnect(m) => <S2CDisconnect as Wire>::spec_write(m) + rest,
                S2CPacketModel::EncryptionRequest(m) => <S2CEncryptionRequest as Wire>::spec_write(m) + rest,
                S2CPacketModel::LoginSuccess(m) => <S2CLoginSuccess as Wire>::spec_write(m) + rest,
                S2CPacketModel::SetCompression(m) => <S2CSetCompression as Wire>::spec_write(m) + rest,
                S2CPacketModel::LoginPluginRequest(m) => <S2CLoginPluginRequest as Wire>::spec_write(m) + rest,
                S2CPacketModel::DisconnectPlay(m) => <S2CDisconnectPlay as Wire>::spec_write(m) + rest,
                S2CPacketModel::GameEvent(m) => <S2CGameEvent as Wire>::spec_write(m) + rest,
                S2CPacketModel::KeepAlive(m) => <S2CKeepAlive as Wire>::spec_write(m) + rest,
                S2CPacketModel::LevelChunkWithLight(m) => <S2CLevelChunkWithLight as Wire>::spec_write(m) + rest,
                S2CPacketModel::Login(m) => <S2CLogin as Wire>::spec_write(m) + rest,
                S2CPacketModel::PlayerAbilities(m) => <S2CPlayerAbilities as Wire>::spec_write(m) + rest,
                S2CPacketModel::PlayerPosition(m) => <S2CPlayerPosition as Wire>::spec_write(m) + rest,
                S2CPacketModel::SetChunkCacheCenter(m) => <S2CSetChunkCacheCenter as Wire>::spec_write(m) + rest,
                S2CPacketModel::SetChunkCacheRadius(m) => <S2CSetChunkCacheRadius as Wire>::spec_write(m) + rest,
                S2CPacketModel::SetDefaultSpawnPosition(m) => <S2CSetDefaultSpawnPosition as Wire>::spec_write(m) + rest,
            },
        ) == Ok::<S2CPacketModel, DecodeError>(g),
{
    match g {
        S2CPacketModel::StatusResponse(m) => {
            <S2CStatusResponse as Wire>::lemma_roundtrip(m, rest);
        },
        S2CPacketModel::Pong(m) => {
            <S2CPong as Wire>::lemma_roundtrip(m, rest);
        },
        _ => {},
    }
}

proof fn lemma_s2c_packet_roundtrip_login(g: S2CPacketModel, rest: Seq<u8>)
    requires
        state_of_s2c_packet(g) == State::Login,
        decodable_s2c_packet(g),
        encodable_s2c_packet(g),
        !greedy_s2c_packet(g) || rest.len() == 0,
    ensures
        spec_decode_s2c_packet_login(
            match g {
                S2CPacketModel::StatusResponse(_) => 0x00,
                S2CPacketModel::Pong(_) => 0x01,
                S2CPacketModel::Disconnect(_) => 0x00,
                S2CPacketModel::EncryptionRequest(_) => 0x01,
                S2CPacketModel::LoginSuccess(_) => 0x02,
                S2CPacketModel::SetCompression(_) => 0x03,
                S2CPacketModel::LoginPluginRequest(_) => 0x04,
                S2CPacketModel::DisconnectPlay(_) => 0x1A,
                S2CPacketModel::GameEvent(_) => 0x1F,
                S2CPacketModel::KeepAlive(_) => 0x23,
                S2CPacketModel::LevelChunkWithLight(_) => 0x24,
                S2CPacketModel::Login(_) => 0x28,
                S2CPacketModel::PlayerAbilities(_) => 0x34,
                S2CPacketModel::PlayerPosition(_) => 0x3C,
                S2CPacketModel::SetChunkCacheCenter(_) => 0x4E,
                S2CPacketModel::SetChunkCacheRadius(_) => 0x4F,
                S2CPacketModel::SetDefaultSpawnPosition(_) => 0x50,
            },
            match g {
                S2CPacketModel::StatusResponse(m) => <S2CStatusResponse as Wire>::spec_write(m) + rest,
                S2CPacketModel::Pong(m) => <S2CPong as Wire>::spec_write(m) + rest,
                S2CPacketModel::Disconnect(m) => <S2CDisconnect as Wire>::spec_write(m) + rest,
                S2CPacketModel::EncryptionRequest(m) => <S2CEncryptionRequest as Wire>::spec_write(m) + rest,
                S2CPacketModel::LoginSuccess(m) => <S2CLoginSuccess as Wire>::spec_write(m) + rest,
                S2CPacketModel::SetCompression(m) => <S2CSetCompression as Wire>::spec_write(m) + rest,
                S2CPacketModel::LoginPluginRequest(m) => <S2CLoginPluginRequest as Wire>::spec_write(m) + rest,
                S2CPacketModel::DisconnectPlay(m) => <S2CDisconnectPlay as Wire>::spec_write(m) + rest,
                S2CPacketModel::GameEvent(m) => <S2CGameEvent as Wire>::spec_write(m) + rest,
                S2CPacketModel::KeepAlive(m) => <S2CKeepAlive as Wire>::spec_write(m) + rest,
                S2CPacketModel::LevelChunkWithLight(m) => <S2CLevelChunkWithLight as Wire>::spec_write(m) + rest,
                S2CPacketModel::Login(m) => <S2CLogin as Wire>::spec_write(m) + rest,
                S2CPacketModel::PlayerAbilities(m) => <S2CPlayerAbilities as Wire>::spec_write(m) + rest,
                S2CPacketModel::PlayerPosition(m) => <S2CPlayerPosition as Wire>::spec_write(m) + rest,
                S2CPacketModel::SetChunkCacheCenter(m) => <S2CSetChunkCacheCenter as Wire>::spec_write(m) + rest,
                S2CPacketModel::SetChunkCacheRadius(m) => <S2CSetChunkCacheRadius as Wire>::spec_write(m) + rest,
                S2CPacketModel::SetDefaultSpawnPosition(m) => <S2CSetDefaultSpawnPosition as Wire>::spec_write(m) + rest,
            },
        ) == Ok::<S2CPacketModel, DecodeError>(g),
{
    match g {
        S2CPacketModel::Disconnect(m) => {
            <S2CDisconnect as Wire>::lemma_roundtrip(m, rest);
        },
        S2CPacketModel::EncryptionRequest(m) => {
            <S2CEncryptionRequest as Wire>::lemma_roundtrip(m, rest);
        },
        S2CPacketModel::LoginSuccess(m) => {
            <S2CLoginSuccess as Wire>::lemma_roundtrip(m, rest);
        },
        S2CPacketModel::SetCompression(m) => {
            <S2CSetCompression as Wire>::lemma_roundtrip(m, rest);
        },
        S2CPacketModel::LoginPluginRequest(m) => {
            <S2CLoginPluginRequest as Wire>::lemma_roundtrip(m, rest);
        },
        _ => {},
    }
}

proof fn lemma_s2c_packet_roundtrip_play(g: S2CPacketModel, rest: Seq<u8>)
    requires
        state_of_s2c_packet(g) == State::Play,
        decodable_s2c_packet(g),
        encodable_s2c_packet(g),
        !greedy_s2c_packet(g) || rest.len() == 0,
    ensures
        spec_decode_s2c_packet_play(
            match g {
                S2CPacketModel::StatusResponse(_) => 0x00,
                S2CPacketModel::Pong(_) => 0x01,
                S2CPacketModel::Disconnect(_) => 0x00,
                S2CPacketModel::EncryptionRequest(_) => 0x01,
                S2CPacketModel::LoginSuccess(_) => 0x02,
                S2CPacketModel::SetCompression(_) => 0x03,
                S2CPacketModel::LoginPluginRequest(_) => 0x04,
                S2CPacketModel::DisconnectPlay(_) => 0x1A,
                S2CPacketModel::GameEvent(_) => 0x1F,
                S2CPacketModel::KeepAlive(_) => 0x23,
                S2CPacketModel::LevelChunkWithLight(_) => 0x24,
                S2CPacketModel::Login(_) => 0x28,
                S2CPacketModel::PlayerAbilities(_) => 0x34,
                S2CPacketModel::PlayerPosition(_) => 0x3C,
                S2CPacketModel::SetChunkCacheCenter(_) => 0x4E,
                S2CPacketModel::SetChunkCacheRadius(_) => 0x4F,
                S2CPacketModel::SetDefaultSpawnPosition(_) => 0x50,
            },
            match g {
                S2CPacketModel::StatusResponse(m) => <S2CStatusResponse as Wire>::spec_write(m) + rest,
                S2CPacketModel::Pong(m) => <S2CPong as Wire>::spec_write(m) + rest,
                S2CPacketModel::Disconnect(m) => <S2CDisconnect as Wire>::spec_write(m) + rest,
                S2CPacketModel::EncryptionRequest(m) => <S2CEncryptionRequest as Wire>::spec_write(m) + rest,
                S2CPacketModel::LoginSuccess(m) => <S2CLoginSuccess as Wire>::spec_write(m) + rest,
                S2CPacketModel::SetCompression(m) => <S2CSetCompression as Wire>::spec_write(m) + rest,
                S2CPacketModel::LoginPluginRequest(m) => <S2CLoginPluginRequest as Wire>::spec_write(m) + rest,
                S2CPacketModel::DisconnectPlay(m) => <S2CDisconnectPlay as Wire>::spec_write(m) + rest,
                S2CPacketModel::GameEvent(m) => <S2CGameEvent as Wire>::spec_write(m) + rest,
                S2CPacketModel::KeepAlive(m) => <S2CKeepAlive as Wire>::spec_write(m) + rest,
                S2CPacketModel::LevelChunkWithLight(m) => <S2CLevelChunkWithLight as Wire>::spec_write(m) + rest,
                S2CPacketModel::Login(m) => <S2CLogin as Wire>::spec_write(m) + rest,
                S2CPacketModel::PlayerAbilities(m) => <S2CPlayerAbilities as Wire>::spec_write(m) + rest,
                S2CPacketModel::PlayerPosition(m) => <S2CPlayerPosition as Wire>::spec_write(m) + rest,
                S2CPacketModel::SetChunkCacheCenter(m) => <S2CSetChunkCacheCenter as Wire>::spec_write(m) + rest,
                S2CPacketModel::SetChunkCacheRadius(m) => <S2CSetChunkCacheRadius as Wire>::spec_write(m) + rest,
                S2CPacketModel::SetDefaultSpawnPosition(m) => <S2CSetDefaultSpawnPosition as Wire>::spec_write(m) + rest,
            },
        ) == Ok::<S2CPacketModel, DecodeError>(g),
{
    match g {
        S2CPacketModel::DisconnectPlay(m) => {
            <S2CDisconnectPlay as Wire>::lemma_roundtrip(m, rest);
        },
        S2CPacketModel::GameEvent(m) => {
            <S2CGameEvent as Wire>::lemma_roundtrip(m, rest);
        },
        S2CPacketModel::KeepAlive(m) => {
            <S2CKeepAlive as Wire>::lemma_roundtrip(m, rest);
        },
        S2CPacketModel::LevelChunkWithLight(m) => {
            <S2CLevelChunkWithLight as Wire>::lemma_roundtrip(m, rest);
        },
        S2CPacketModel::Login(m) => {
            <S2CLogin as Wire>::lemma_roundtrip(m, rest);
        },
        S2CPacketModel::PlayerAbilities(m) => {
            <S2CPlayerAbilities as Wire>::lemma_roundtrip(m, rest);
        },
        S2CPacketModel::PlayerPosition(m) => {
            <S2CPlayerPosition as Wire>::lemma_roundtrip(m, rest);
        },
        S2CPacketModel::SetChunkCacheCenter(m) => {
            <S2CSetChunkCacheCenter as Wire>::lemma_roundtrip(m, rest);
        },
        S2CPacketModel::SetChunkCacheRadius(m) => {
            <S2CSetChunkCacheRadius as Wire>::lemma_roundtrip(m, rest);
        },
        S2CPacketModel::SetDefaultSpawnPosition(m) => {
            <S2CSetDefaultSpawnPosition as Wire>::lemma_roundtrip(m, rest);
        },
        _ => {},
    }
}

/// Decoding, in its own state, the bytes of any packet of the group gives
/// that packet back, whatever follows it (nothing may follow a packet that
/// ends in raw bytes, and a packet whose raw bytes are followed by more
/// fields cannot be read back).
pub proof fn lemma_s2c_packet_roundtrip(g: S2CPacketModel, rest: Seq<u8>)
    requires
        decodable_s2c_packet(g),
        encodable_s2c_packet(g),
        !greedy_s2c_packet(g) || rest.len() == 0,
    ensures
        spec_decode_s2c_packet(state_of_s2c_packet(g), spec_encode_s2c_packet(g) + rest) == Ok::<S2CPacketModel, DecodeError>(g),
{
    match g {
        S2CPacketModel::StatusResponse(m) => {
            lemma_header_roundtrip(0x00, <S2CStatusResponse as Wire>::spec_write(m), rest);
            lemma_s2c_packet_roundtrip_status(g, rest);
        },
        S2CPacketModel::Pong(m) => {
            lemma_header_roundtrip(0x01, <S2CPong as Wire>::spec_write(m), rest);
            lemma_s2c_packet_roundtrip_status(g, rest);
        },
        S2CPacketModel::Disconnect(m) => {
            lemma_header_roundtrip(0x00, <S2CDisconnect as Wire>::spec_write(m), rest);
            lemma_s2c_packet_roundtrip_login(g, rest);
        },
        S2CPacketModel::EncryptionRequest(m) => {
            lemma_header_roundtrip(0x01, <S2CEncryptionRequest as Wire>::spec_write(m), rest);
            lemma_s2c_packet_roundtrip_login(g, rest);
        },
        S2CPacketModel::LoginSuccess(m) => {
            lemma_header_roundtrip(0x02, <S2CLoginSuccess as Wire>::spec_write(m), rest);
            lemma_s2c_packet_roundtrip_login(g, rest);
        },
        S2CPacketModel::SetCompression(m) => {
            lemma_header_roundtrip(0x03, <S2CSetCompression as Wire>::spec_write(m), rest);
            lemma_s2c_packet_roundtrip_login(g, rest);
        },
        S2CPacketModel::LoginPluginRequest(m) => {
            lemma_header_roundtrip(0x04, <S2CLoginPluginRequest as Wire>::spec_write(m), rest);
            lemma_s2c_packet_roundtrip_login(g, rest);
        },
        S2CPacketModel::DisconnectPlay(m) => {
            lemma_header_roundtrip(0x1A, <S2CDisconnectPlay as Wire>::spec_write(m), rest);
            lemma_s2c_packet_roundtrip_play(g, rest);
        },
        S2CPacketModel::GameEvent(m) => {
            lemma_header_roundtrip(0x1F, <S2CGameEvent as Wire>::spec_write(m), rest);
            lemma_s2c_packet_roundtrip_play(g, rest);
        },
        S2CPacketModel::KeepAlive(m) => {
            lemma_header_roundtrip(0x23, <S2CKeepAlive as Wire>::spec_write(m), rest);
            lemma_s2c_packet_roundtrip_play(g, rest);
        },
        S2CPacketModel::LevelChunkWithLight(m) => {
            lemma_header_roundtrip(0x24, <S2CLevelChunkWithLight as Wire>::spec_write(m), rest);
            lemma_s2c_packet_roundtrip_play(g, rest);
        },
        S2CPacketModel::Login(m) => {
            lemma_header_roundtrip(0x28, <S2CLogin as Wire>::spec_write(m), rest);
            lemma_s2c_packet_roundtrip_play(g, rest);
        },
        S2CPacketModel::PlayerAbilities(m) => {
            lemma_header_roundtrip(0x34, <S2CPlayerAbilities as Wire>::spec_write(m), rest);
            lemma_s2c_packet_roundtrip_play(g, rest);
        },
        S2CPacketModel::PlayerPosition(m) => {
            lemma_header_roundtrip(0x3C, <S2CPlayerPosition as Wire>::spec_write(m), rest);
            lemma_s2c_packet_roundtrip_play(g, rest);
        },
        S2CPacketModel::SetChunkCacheCenter(m) => {
            lemma_header_roundtrip(0x4E, <S2CSetChunkCacheCenter as Wire>::spec_write(m), rest);
            lemma_s2c_packet_roundtrip_play(g, rest);
        },
        S2CPacketModel::SetChunkCacheRadius(m) => {
            lemma_header_roundtrip(0x4F, <S2CSetChunkCacheRadius as Wire>::spec_write(m), rest);
            lemma_s2c_packet_roundtrip_play(g, rest);
        },
        S2CPacketModel::SetDefaultSpawnPosition(m) => {
            lemma_header_roundtrip(0x50, <S2CSetDefaultSpawnPosition as Wire>::spec_write(m), rest);
            lemma_s2c_packet_roundtrip_play(g, rest);
        },
    }
}

} // verus!
