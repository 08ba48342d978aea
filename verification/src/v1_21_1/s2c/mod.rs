//! Server-to-client packets of 1.21.1 and their aggregation.

pub mod status;
pub mod login;
pub mod configuration;
pub mod play;

use vstd::prelude::*;

use crate::codec::Wire;
use crate::error::DecodeError;
use crate::packet::lemma_header_roundtrip;
use crate::state::State;
use crate::varint::{spec_varint_encode, VarInt};
use status::{S2CPong, S2CStatusResponse};
use login::{S2CDisconnect, S2CEncryptionRequest, S2CLoginPluginRequest, S2CLoginSuccess, S2CSetCompression};
use configuration::{S2CConfigurationKeepAlive, S2CCustomPayload, S2CDisconnectConfiguration, S2CFeatureFlags, S2CFinishConfiguration, S2CKnownPacks, S2CPingConfiguration, S2CRegistryData, S2CUpdateTags};
use play::{S2CDisconnectPlay, S2CGameEvent, S2CKeepAlive, S2CLevelChunkWithLight, S2CLogin, S2CPlayerAbilities, S2CPlayerPosition, S2CSetChunkCacheCenter, S2CSetChunkCacheRadius, S2CSetDefaultSpawnPosition};

verus! {

/// The server-to-client packets of protocol 767 (MC 1.21.1).
#[derive(Debug)]
pub enum S2CPacket {
    StatusResponse(S2CStatusResponse),
    Pong(S2CPong),
    Disconnect(S2CDisconnect),
    EncryptionRequest(S2CEncryptionRequest),
    LoginSuccess(S2CLoginSuccess),
    SetCompression(S2CSetCompression),
    LoginPluginRequest(S2CLoginPluginRequest),
    CustomPayload(S2CCustomPayload),
    DisconnectConfiguration(S2CDisconnectConfiguration),
    FinishConfiguration(S2CFinishConfiguration),
    ConfigurationKeepAlive(S2CConfigurationKeepAlive),
    PingConfiguration(S2CPingConfiguration),
    RegistryData(S2CRegistryData),
    FeatureFlags(S2CFeatureFlags),
    UpdateTags(S2CUpdateTags),
    KnownPacks(S2CKnownPacks),
    DisconnectPlay(S2CDisconnectPlay),
    GameEvent(S2CGameEvent),
    KeepAlive(S2CKeepAlive),
    LevelChunkWithLight(S2CLevelChunkWithLight),
    Login(S2CLogin),
    PlayerAbilities(S2CPlayerAbilities),
    PlayerPosition(S2CPlayerPosition),
    SetChunkCacheCenter(S2CSetChunkCacheCenter),
    SetChunkCacheRadius(S2CSetChunkCacheRadius),
    SetDefaultSpawnPosition(S2CSetDefaultSpawnPosition),
}

/// The models of the variants of [`S2CPacket`].
pub ghost enum S2CPacketModel {
    StatusResponse(<S2CStatusResponse as Wire>::Model),
    Pong(<S2CPong as Wire>::Model),
    Disconnect(<S2CDisconnect as Wire>::Model),
    EncryptionRequest(<S2CEncryptionRequest as Wire>::Model),
    LoginSuccess(<S2CLoginSuccess as Wire>::Model),
    SetCompression(<S2CSetCompression as Wire>::Model),
    LoginPluginRequest(<S2CLoginPluginRequest as Wire>::Model),
    CustomPayload(<S2CCustomPayload as Wire>::Model),
    DisconnectConfiguration(<S2CDisconnectConfiguration as Wire>::Model),
    FinishConfiguration(<S2CFinishConfiguration as Wire>::Model),
    ConfigurationKeepAlive(<S2CConfigurationKeepAlive as Wire>::Model),
    PingConfiguration(<S2CPingConfiguration as Wire>::Model),
    RegistryData(<S2CRegistryData as Wire>::Model),
    FeatureFlags(<S2CFeatureFlags as Wire>::Model),
    UpdateTags(<S2CUpdateTags as Wire>::Model),
    KnownPacks(<S2CKnownPacks as Wire>::Model),
    DisconnectPlay(<S2CDisconnectPlay as Wire>::Model),
    GameEvent(<S2CGameEvent as Wire>::Model),
    KeepAlive(<S2CKeepAlive as Wire>::Model),
    LevelChunkWithLight(<S2CLevelChunkWithLight as Wire>::Model),
    Login(<S2CLogin as Wire>::Model),
    PlayerAbilities(<S2CPlayerAbilities as Wire>::Model),
    PlayerPosition(<S2CPlayerPosition as Wire>::Model),
    SetChunkCacheCenter(<S2CSetChunkCacheCenter as Wire>::Model),
    SetChunkCacheRadius(<S2CSetChunkCacheRadius as Wire>::Model),
    SetDefaultSpawnPosition(<S2CSetDefaultSpawnPosition as Wire>::Model),
}

/// A [`S2CStatusResponse`] is the [`S2CPacket::StatusResponse`] packet.
impl From<S2CStatusResponse> for S2CPacket {
    fn from(p: S2CStatusResponse) -> (r: S2CPacket) {
        S2CPacket::StatusResponse(p)
    }
}

impl vstd::std_specs::convert::FromSpecImpl<S2CStatusResponse> for S2CPacket {
    open spec fn obeys_from_spec() -> bool {
        true
    }

    open spec fn from_spec(p: S2CStatusResponse) -> S2CPacket {
        S2CPacket::StatusResponse(p)
    }
}

/// A [`S2CPong`] is the [`S2CPacket::Pong`] packet.
impl From<S2CPong> for S2CPacket {
    fn from(p: S2CPong) -> (r: S2CPacket) {
        S2CPacket::Pong(p)
    }
}

impl vstd::std_specs::convert::FromSpecImpl<S2CPong> for S2CPacket {
    open spec fn obeys_from_spec() -> bool {
        true
    }

    open spec fn from_spec(p: S2CPong) -> S2CPacket {
        S2CPacket::Pong(p)
    }
}

/// A [`S2CDisconnect`] is the [`S2CPacket::Disconnect`] packet.
impl From<S2CDisconnect> for S2CPacket {
    fn from(p: S2CDisconnect) -> (r: S2CPacket) {
        S2CPacket::Disconnect(p)
    }
}

impl vstd::std_specs::convert::FromSpecImpl<S2CDisconnect> for S2CPacket {
    open spec fn obeys_from_spec() -> bool {
        true
    }

    open spec fn from_spec(p: S2CDisconnect) -> S2CPacket {
        S2CPacket::Disconnect(p)
    }
}

/// A [`S2CEncryptionRequest`] is the [`S2CPacket::EncryptionRequest`] packet.
impl From<S2CEncryptionRequest> for S2CPacket {
    fn from(p: S2CEncryptionRequest) -> (r: S2CPacket) {
        S2CPacket::EncryptionRequest(p)
    }
}

impl vstd::std_specs::convert::FromSpecImpl<S2CEncryptionRequest> for S2CPacket {
    open spec fn obeys_from_spec() -> bool {
        true
    }

    open spec fn from_spec(p: S2CEncryptionRequest) -> S2CPacket {
        S2CPacket::EncryptionRequest(p)
    }
}

/// A [`S2CLoginSuccess`] is the [`S2CPacket::LoginSuccess`] packet.
impl From<S2CLoginSuccess> for S2CPacket {
    fn from(p: S2CLoginSuccess) -> (r: S2CPacket) {
        S2CPacket::LoginSuccess(p)
    }
}

impl vstd::std_specs::convert::FromSpecImpl<S2CLoginSuccess> for S2CPacket {
    open spec fn obeys_from_spec() -> bool {
        true
    }

    open spec fn from_spec(p: S2CLoginSuccess) -> S2CPacket {
        S2CPacket::LoginSuccess(p)
    }
}

/// A [`S2CSetCompression`] is the [`S2CPacket::SetCompression`] packet.
impl From<S2CSetCompression> for S2CPacket {
    fn from(p: S2CSetCompression) -> (r: S2CPacket) {
        S2CPacket::SetCompression(p)
    }
}

impl vstd::std_specs::convert::FromSpecImpl<S2CSetCompression> for S2CPacket {
    open spec fn obeys_from_spec() -> bool {
        true
    }

    open spec fn from_spec(p: S2CSetCompression) -> S2CPacket {
        S2CPacket::SetCompression(p)
    }
}

/// A [`S2CLoginPluginRequest`] is the [`S2CPacket::LoginPluginRequest`] packet.
impl From<S2CLoginPluginRequest> for S2CPacket {
    fn from(p: S2CLoginPluginRequest) -> (r: S2CPacket) {
        S2CPacket::LoginPluginRequest(p)
    }
}

impl vstd::std_specs::convert::FromSpecImpl<S2CLoginPluginRequest> for S2CPacket {
    open spec fn obeys_from_spec() -> bool {
        true
    }

    open spec fn from_spec(p: S2CLoginPluginRequest) -> S2CPacket {
        S2CPacket::LoginPluginRequest(p)
    }
}

/// A [`S2CCustomPayload`] is the [`S2CPacket::CustomPayload`] packet.
impl From<S2CCustomPayload> for S2CPacket {
    fn from(p: S2CCustomPayload) -> (r: S2CPacket) {
        S2CPacket::CustomPayload(p)
    }
}

impl vstd::std_specs::convert::FromSpecImpl<S2CCustomPayload> for S2CPacket {
    open spec fn obeys_from_spec() -> bool {
        true
    }

    open spec fn from_spec(p: S2CCustomPayload) -> S2CPacket {
        S2CPacket::CustomPayload(p)
    }
}

/// A [`S2CDisconnectConfiguration`] is the [`S2CPacket::DisconnectConfiguration`] packet.
impl From<S2CDisconnectConfiguration> for S2CPacket {
    fn from(p: S2CDisconnectConfiguration) -> (r: S2CPacket) {
        S2CPacket::DisconnectConfiguration(p)
    }
}

impl vstd::std_specs::convert::FromSpecImpl<S2CDisconnectConfiguration> for S2CPacket {
    open spec fn obeys_from_spec() -> bool {
        true
    }

    open spec fn from_spec(p: S2CDisconnectConfiguration) -> S2CPacket {
        S2CPacket::DisconnectConfiguration(p)
    }
}

/// A [`S2CFinishConfiguration`] is the [`S2CPacket::FinishConfiguration`] packet.
impl From<S2CFinishConfiguration> for S2CPacket {
    fn from(p: S2CFinishConfiguration) -> (r: S2CPacket) {
        S2CPacket::FinishConfiguration(p)
    }
}

impl vstd::std_specs::convert::FromSpecImpl<S2CFinishConfiguration> for S2CPacket {
    open spec fn obeys_from_spec() -> bool {
        true
    }

    open spec fn from_spec(p: S2CFinishConfiguration) -> S2CPacket {
        S2CPacket::FinishConfiguration(p)
    }
}

/// A [`S2CConfigurationKeepAlive`] is the [`S2CPacket::ConfigurationKeepAlive`] packet.
impl From<S2CConfigurationKeepAlive> for S2CPacket {
    fn from(p: S2CConfigurationKeepAlive) -> (r: S2CPacket) {
        S2CPacket::ConfigurationKeepAlive(p)
    }
}

impl vstd::std_specs::convert::FromSpecImpl<S2CConfigurationKeepAlive> for S2CPacket {
    open spec fn obeys_from_spec() -> bool {
        true
    }

    open spec fn from_spec(p: S2CConfigurationKeepAlive) -> S2CPacket {
        S2CPacket::ConfigurationKeepAlive(p)
    }
}

/// A [`S2CPingConfiguration`] is the [`S2CPacket::PingConfiguration`] packet.
impl From<S2CPingConfiguration> for S2CPacket {
    fn from(p: S2CPingConfiguration) -> (r: S2CPacket) {
        S2CPacket::PingConfiguration(p)
    }
}

impl vstd::std_specs::convert::FromSpecImpl<S2CPingConfiguration> for S2CPacket {
    open spec fn obeys_from_spec() -> bool {
        true
    }

    open spec fn from_spec(p: S2CPingConfiguration) -> S2CPacket {
        S2CPacket::PingConfiguration(p)
    }
}

/// A [`S2CRegistryData`] is the [`S2CPacket::RegistryData`] packet.
impl From<S2CRegistryData> for S2CPacket {
    fn from(p: S2CRegistryData) -> (r: S2CPacket) {
        S2CPacket::RegistryData(p)
    }
}

impl vstd::std_specs::convert::FromSpecImpl<S2CRegistryData> for S2CPacket {
    open spec fn obeys_from_spec() -> bool {
        true
    }

    open spec fn from_spec(p: S2CRegistryData) -> S2CPacket {
        S2CPacket::RegistryData(p)
    }
}

/// A [`S2CFeatureFlags`] is the [`S2CPacket::FeatureFlags`] packet.
impl From<S2CFeatureFlags> for S2CPacket {
    fn from(p: S2CFeatureFlags) -> (r: S2CPacket) {
        S2CPacket::FeatureFlags(p)
    }
}

impl vstd::std_specs::convert::FromSpecImpl<S2CFeatureFlags> for S2CPacket {
    open spec fn obeys_from_spec() -> bool {
        true
    }

    open spec fn from_spec(p: S2CFeatureFlags) -> S2CPacket {
        S2CPacket::FeatureFlags(p)
    }
}

/// A [`S2CUpdateTags`] is the [`S2CPacket::UpdateTags`] packet.
impl From<S2CUpdateTags> for S2CPacket {
    fn from(p: S2CUpdateTags) -> (r: S2CPacket) {
        S2CPacket::UpdateTags(p)
    }
}

impl vstd::std_specs::convert::FromSpecImpl<S2CUpdateTags> for S2CPacket {
    open spec fn obeys_from_spec() -> bool {
        true
    }

    open spec fn from_spec(p: S2CUpdateTags) -> S2CPacket {
        S2CPacket::UpdateTags(p)
    }
}

/// A [`S2CKnownPacks`] is the [`S2CPacket::KnownPacks`] packet.
impl From<S2CKnownPacks> for S2CPacket {
    fn from(p: S2CKnownPacks) -> (r: S2CPacket) {
        S2CPacket::KnownPacks(p)
    }
}

impl vstd::std_specs::convert::FromSpecImpl<S2CKnownPacks> for S2CPacket {
    open spec fn obeys_from_spec() -> bool {
        true
    }

    open spec fn from_spec(p: S2CKnownPacks) -> S2CPacket {
        S2CPacket::KnownPacks(p)
    }
}

/// A [`S2CDisconnectPlay`] is the [`S2CPacket::DisconnectPlay`] packet.
impl From<S2CDisconnectPlay> for S2CPacket {
    fn from(p: S2CDisconnectPlay) -> (r: S2CPacket) {
        S2CPacket::DisconnectPlay(p)
    }
}

impl vstd::std_specs::convert::FromSpecImpl<S2CDisconnectPlay> for S2CPacket {
    open spec fn obeys_from_spec() -> bool {
        true
    }

    open spec fn from_spec(p: S2CDisconnectPlay) -> S2CPacket {
        S2CPacket::DisconnectPlay(p)
    }
}

/// A [`S2CGameEvent`] is the [`S2CPacket::GameEvent`] packet.
impl From<S2CGameEvent> for S2CPacket {
    fn from(p: S2CGameEvent) -> (r: S2CPacket) {
        S2CPacket::GameEvent(p)
    }
}

impl vstd::std_specs::convert::FromSpecImpl<S2CGameEvent> for S2CPacket {
    open spec fn obeys_from_spec() -> bool {
        true
    }

    open spec fn from_spec(p: S2CGameEvent) -> S2CPacket {
        S2CPacket::GameEvent(p)
    }
}

/// A [`S2CKeepAlive`] is the [`S2CPacket::KeepAlive`] packet.
impl From<S2CKeepAlive> for S2CPacket {
    fn from(p: S2CKeepAlive) -> (r: S2CPacket) {
        S2CPacket::KeepAlive(p)
    }
}

impl vstd::std_specs::convert::FromSpecImpl<S2CKeepAlive> for S2CPacket {
    open spec fn obeys_from_spec() -> bool {
        true
    }

    open spec fn from_spec(p: S2CKeepAlive) -> S2CPacket {
        S2CPacket::KeepAlive(p)
    }
}

/// A [`S2CLevelChunkWithLight`] is the [`S2CPacket::LevelChunkWithLight`] packet.
impl From<S2CLevelChunkWithLight> for S2CPacket {
    fn from(p: S2CLevelChunkWithLight) -> (r: S2CPacket) {
        S2CPacket::LevelChunkWithLight(p)
    }
}

impl vstd::std_specs::convert::FromSpecImpl<S2CLevelChunkWithLight> for S2CPacket {
    open spec fn obeys_from_spec() -> bool {
        true
    }

    open spec fn from_spec(p: S2CLevelChunkWithLight) -> S2CPacket {
        S2CPacket::LevelChunkWithLight(p)
    }
}

/// A [`S2CLogin`] is the [`S2CPacket::Login`] packet.
impl From<S2CLogin> for S2CPacket {
    fn from(p: S2CLogin) -> (r: S2CPacket) {
        S2CPacket::Login(p)
    }
}

impl vstd::std_specs::convert::FromSpecImpl<S2CLogin> for S2CPacket {
    open spec fn obeys_from_spec() -> bool {
        true
    }

    open spec fn from_spec(p: S2CLogin) -> S2CPacket {
        S2CPacket::Login(p)
    }
}

/// A [`S2CPlayerAbilities`] is the [`S2CPacket::PlayerAbilities`] packet.
impl From<S2CPlayerAbilities> for S2CPacket {
    fn from(p: S2CPlayerAbilities) -> (r: S2CPacket) {
        S2CPacket::PlayerAbilities(p)
    }
}

impl vstd::std_specs::convert::FromSpecImpl<S2CPlayerAbilities> for S2CPacket {
    open spec fn obeys_from_spec() -> bool {
        true
    }

    open spec fn from_spec(p: S2CPlayerAbilities) -> S2CPacket {
        S2CPacket::PlayerAbilities(p)
    }
}

/// A [`S2CPlayerPosition`] is the [`S2CPacket::PlayerPosition`] packet.
impl From<S2CPlayerPosition> for S2CPacket {
    fn from(p: S2CPlayerPosition) -> (r: S2CPacket) {
        S2CPacket::PlayerPosition(p)
    }
}

impl vstd::std_specs::convert::FromSpecImpl<S2CPlayerPosition> for S2CPacket {
    open spec fn obeys_from_spec() -> bool {
        true
    }

    open spec fn from_spec(p: S2CPlayerPosition) -> S2CPacket {
        S2CPacket::PlayerPosition(p)
    }
}

/// A [`S2CSetChunkCacheCenter`] is the [`S2CPacket::SetChunkCacheCenter`] packet.
impl From<S2CSetChunkCacheCenter> for S2CPacket {
    fn from(p: S2CSetChunkCacheCenter) -> (r: S2CPacket) {
        S2CPacket::SetChunkCacheCenter(p)
    }
}

impl vstd::std_specs::convert::FromSpecImpl<S2CSetChunkCacheCenter> for S2CPacket {
    open spec fn obeys_from_spec() -> bool {
        true
    }

    open spec fn from_spec(p: S2CSetChunkCacheCenter) -> S2CPacket {
        S2CPacket::SetChunkCacheCenter(p)
    }
}

/// A [`S2CSetChunkCacheRadius`] is the [`S2CPacket::SetChunkCacheRadius`] packet.
impl From<S2CSetChunkCacheRadius> for S2CPacket {
    fn from(p: S2CSetChunkCacheRadius) -> (r: S2CPacket) {
        S2CPacket::SetChunkCacheRadius(p)
    }
}

impl vstd::std_specs::convert::FromSpecImpl<S2CSetChunkCacheRadius> for S2CPacket {
    open spec fn obeys_from_spec() -> bool {
        true
    }

    open spec fn from_spec(p: S2CSetChunkCacheRadius) -> S2CPacket {
        S2CPacket::SetChunkCacheRadius(p)
    }
}

/// A [`S2CSetDefaultSpawnPosition`] is the [`S2CPacket::SetDefaultSpawnPosition`] packet.
impl From<S2CSetDefaultSpawnPosition> for S2CPacket {
    fn from(p: S2CSetDefaultSpawnPosition) -> (r: S2CPacket) {
        S2CPacket::SetDefaultSpawnPosition(p)
    }
}

impl vstd::std_specs::convert::FromSpecImpl<S2CSetDefaultSpawnPosition> for S2CPacket {
    open spec fn obeys_from_spec() -> bool {
        true
    }

    open spec fn from_spec(p: S2CSetDefaultSpawnPosition) -> S2CPacket {
        S2CPacket::SetDefaultSpawnPosition(p)
    }
}

impl S2CPacket {
    /// The model of this packet.
    pub open spec fn model(&self) -> S2CPacketModel {
        match self {
            S2CPacket::StatusResponse(p) => S2CPacketModel::StatusResponse(p.model()),
            S2CPacket::Pong(p) => S2CPacketModel::Pong(p.model()),
            S2CPacket::Disconnect(p) => S2CPacketModel::Disconnect(p.model()),
            S2CPacket::EncryptionRequest(p) => S2CPacketModel::EncryptionRequest(p.model()),
            S2CPacket::LoginSuccess(p) => S2CPacketModel::LoginSuccess(p.model()),
            S2CPacket::SetCompression(p) => S2CPacketModel::SetCompression(p.model()),
            S2CPacket::LoginPluginRequest(p) => S2CPacketModel::LoginPluginRequest(p.model()),
            S2CPacket::CustomPayload(p) => S2CPacketModel::CustomPayload(p.model()),
            S2CPacket::DisconnectConfiguration(p) => S2CPacketModel::DisconnectConfiguration(p.model()),
            S2CPacket::FinishConfiguration(p) => S2CPacketModel::FinishConfiguration(p.model()),
            S2CPacket::ConfigurationKeepAlive(p) => S2CPacketModel::ConfigurationKeepAlive(p.model()),
            S2CPacket::PingConfiguration(p) => S2CPacketModel::PingConfiguration(p.model()),
            S2CPacket::RegistryData(p) => S2CPacketModel::RegistryData(p.model()),
            S2CPacket::FeatureFlags(p) => S2CPacketModel::FeatureFlags(p.model()),
            S2CPacket::UpdateTags(p) => S2CPacketModel::UpdateTags(p.model()),
            S2CPacket::KnownPacks(p) => S2CPacketModel::KnownPacks(p.model()),
            S2CPacket::DisconnectPlay(p) => S2CPacketModel::DisconnectPlay(p.model()),
            S2CPacket::GameEvent(p) => S2CPacketModel::GameEvent(p.model()),
            S2CPacket::KeepAlive(p) => S2CPacketModel::KeepAlive(p.model()),
            S2CPacket::LevelChunkWithLight(p) => S2CPacketModel::LevelChunkWithLight(p.model()),
            S2CPacket::Login(p) => S2CPacketModel::Login(p.model()),
            S2CPacket::PlayerAbilities(p) => S2CPacketModel::PlayerAbilities(p.model()),
            S2CPacket::PlayerPosition(p) => S2CPacketModel::PlayerPosition(p.model()),
            S2CPacket::SetChunkCacheCenter(p) => S2CPacketModel::SetChunkCacheCenter(p.model()),
            S2CPacket::SetChunkCacheRadius(p) => S2CPacketModel::SetChunkCacheRadius(p.model()),
            S2CPacket::SetDefaultSpawnPosition(p) => S2CPacketModel::SetDefaultSpawnPosition(p.model()),
        }
    }

    /// Decodes a packet from `buf`: its leading `VarInt` id, then the fields
    /// of the variant whose state is `state` and whose id is that id. Ids are
    /// reused across states, so the state decides between them.
    pub fn decode_in_state(state: State, buf: &[u8]) -> (r: Result<S2CPacket, DecodeError>)
        ensures
            match spec_decode_s2c_packet(state, buf@) {
                Ok(m) => r matches Ok(p) && p.model() == m,
                Err(e) => r == Err::<S2CPacket, DecodeError>(e),
            },
    {
        assert(buf@.skip(0) =~= buf@);
        let (id, p) = match <VarInt as Wire>::read(buf, 0) {
            Ok(x) => x,
            Err(e) => return Err(e),
        };
        match state {
            State::Handshake => Err(DecodeError::UnknownPacket),
            State::Status => Self::decode_status(id.0, buf, p),
            State::Login => Self::decode_login(id.0, buf, p),
            State::Configuration => Self::decode_configuration(id.0, buf, p),
            State::Play => Self::decode_play(id.0, buf, p),
        }
    }

    fn decode_status(id: i32, buf: &[u8], p: usize) -> (r: Result<S2CPacket, DecodeError>)
        requires
            p <= buf@.len(),
        ensures
            match spec_decode_s2c_packet_status(id, buf@.skip(p as int)) {
                Ok(m) => r matches Ok(x) && x.model() == m,
                Err(e) => r == Err::<S2CPacket, DecodeError>(e),
            },
    {
        if id == 0x00 {
            match <S2CStatusResponse as Wire>::read(buf, p) {
                Ok((x, _)) => Ok(S2CPacket::StatusResponse(x)),
                Err(e) => Err(e),
            }
        } else if id == 0x01 {
            match <S2CPong as Wire>::read(buf, p) {
                Ok((x, _)) => Ok(S2CPacket::Pong(x)),
                Err(e) => Err(e),
            }
        } else {
            Err(DecodeError::UnknownPacket)
        }
    }

    fn decode_login(id: i32, buf: &[u8], p: usize) -> (r: Result<S2CPacket, DecodeError>)
        requires
            p <= buf@.len(),
        ensures
            match spec_decode_s2c_packet_login(id, buf@.skip(p as int)) {
                Ok(m) => r matches Ok(x) && x.model() == m,
                Err(e) => r == Err::<S2CPacket, DecodeError>(e),
            },
    {
        if id == 0x00 {
            match <S2CDisconnect as Wire>::read(buf, p) {
                Ok((x, _)) => Ok(S2CPacket::Disconnect(x)),
                Err(e) => Err(e),
            }
        } else if id == 0x01 {
            match <S2CEncryptionRequest as Wire>::read(buf, p) {
                Ok((x, _)) => Ok(S2CPacket::EncryptionRequest(x)),
                Err(e) => Err(e),
            }
        } else if id == 0x02 {
            match <S2CLoginSuccess as Wire>::read(buf, p) {
                Ok((x, _)) => Ok(S2CPacket::LoginSuccess(x)),
                Err(e) => Err(e),
            }
        } else if id == 0x03 {
            match <S2CSetCompression as Wire>::read(buf, p) {
                Ok((x, _)) => Ok(S2CPacket::SetCompression(x)),
                Err(e) => Err(e),
            }
        } else if id == 0x04 {
            match <S2CLoginPluginRequest as Wire>::read(buf, p) {
                Ok((x, _)) => Ok(S2CPacket::LoginPluginRequest(x)),
                Err(e) => Err(e),
            }
        } else {
            Err(DecodeError::UnknownPacket)
        }
    }

    fn decode_configuration(id: i32, buf: &[u8], p: usize) -> (r: Result<S2CPacket, DecodeError>)
        requires
            p <= buf@.len(),
        ensures
            match spec_decode_s2c_packet_configuration(id, buf@.skip(p as int)) {
                Ok(m) => r matches Ok(x) && x.model() == m,
                Err(e) => r == Err::<S2CPacket, DecodeError>(e),
            },
    {
        if id < 0x0C {
            Self::decode_configuration_0(id, buf, p)
        } else {
            Self::decode_configuration_1(id, buf, p)
        }
    }

    fn decode_configuration_0(id: i32, buf: &[u8], p: usize) -> (r: Result<S2CPacket, DecodeError>)
        requires
            p <= buf@.len(),
        ensures
            match spec_decode_s2c_packet_configuration_0(id, buf@.skip(p as int)) {
                Ok(m) => r matches Ok(x) && x.model() == m,
                Err(e) => r == Err::<S2CPacket, DecodeError>(e),
            },
    {
        if id == 0x01 {
            match <S2CCustomPayload as Wire>::read(buf, p) {
                Ok((x, _)) => Ok(S2CPacket::CustomPayload(x)),
                Err(e) => Err(e),
            }
        } else if id == 0x02 {
            match <S2CDisconnectConfiguration as Wire>::read(buf, p) {
                Ok((x, _)) => Ok(S2CPacket::DisconnectConfiguration(x)),
                Err(e) => Err(e),
            }
        } else if id == 0x03 {
            match <S2CFinishConfiguration as Wire>::read(buf, p) {
                Ok((x, _)) => Ok(S2CPacket::FinishConfiguration(x)),
                Err(e) => Err(e),
            }
        } else if id == 0x04 {
            match <S2CConfigurationKeepAlive as Wire>::read(buf, p) {
                Ok((x, _)) => Ok(S2CPacket::ConfigurationKeepAlive(x)),
                Err(e) => Err(e),
            }
        } else if id == 0x05 {
            match <S2CPingConfiguration as Wire>::read(buf, p) {
                Ok((x, _)) => Ok(S2CPacket::PingConfiguration(x)),
                Err(e) => Err(e),
            }
        } else if id == 0x07 {
            match <S2CRegistryData as Wire>::read(buf, p) {
                Ok((x, _)) => Ok(S2CPacket::RegistryData(x)),
                Err(e) => Err(e),
            }
        } else {
            Err(DecodeError::UnknownPacket)
        }
    }

    fn decode_configuration_1(id: i32, buf: &[u8], p: usize) -> (r: Result<S2CPacket, DecodeError>)
        requires
            p <= buf@.len(),
        ensures
            match spec_decode_s2c_packet_configuration_1(id, buf@.skip(p as int)) {
                Ok(m) => r matches Ok(x) && x.model() == m,
                Err(e) => r == Err::<S2CPacket, DecodeError>(e),
            },
    {
        if id == 0x0C {
            match <S2CFeatureFlags as Wire>::read(buf, p) {
                Ok((x, _)) => Ok(S2CPacket::FeatureFlags(x)),
                Err(e) => Err(e),
            }
        } else if id == 0x0D {
            match <S2CUpdateTags as Wire>::read(buf, p) {
                Ok((x, _)) => Ok(S2CPacket::UpdateTags(x)),
                Err(e) => Err(e),
            }
        } else if id == 0x0E {
            match <S2CKnownPacks as Wire>::read(buf, p) {
                Ok((x, _)) => Ok(S2CPacket::KnownPacks(x)),
                Err(e) => Err(e),
            }
        } else {
            Err(DecodeError::UnknownPacket)
        }
    }

    fn decode_play(id: i32, buf: &[u8], p: usize) -> (r: Result<S2CPacket, DecodeError>)
        requires
            p <= buf@.len(),
        ensures
            match spec_decode_s2c_packet_play(id, buf@.skip(p as int)) {
                Ok(m) => r matches Ok(x) && x.model() == m,
                Err(e) => r == Err::<S2CPacket, DecodeError>(e),
            },
    {
        if id < 0x40 {
            Self::decode_play_0(id, buf, p)
        } else {
            Self::decode_play_1(id, buf, p)
        }
    }

    fn decode_play_0(id: i32, buf: &[u8], p: usize) -> (r: Result<S2CPacket, DecodeError>)
        requires
            p <= buf@.len(),
        ensures
            match spec_decode_s2c_packet_play_0(id, buf@.skip(p as int)) {
                Ok(m) => r matches Ok(x) && x.model() == m,
                Err(e) => r == Err::<S2CPacket, DecodeError>(e),
            },
    {
        if id == 0x1A {
            match <S2CDisconnectPlay as Wire>::read(buf, p) {
                Ok((x, _)) => Ok(S2CPacket::DisconnectPlay(x)),
                Err(e) => Err(e),
            }
        } else if id == 0x22 {
            match <S2CGameEvent as Wire>::read(buf, p) {
                Ok((x, _)) => Ok(S2CPacket::GameEvent(x)),
                Err(e) => Err(e),
            }
        } else if id == 0x26 {
            match <S2CKeepAlive as Wire>::read(buf, p) {
                Ok((x, _)) => Ok(S2CPacket::KeepAlive(x)),
                Err(e) => Err(e),
            }
        } else if id == 0x27 {
            match <S2CLevelChunkWithLight as Wire>::read(buf, p) {
                Ok((x, _)) => Ok(S2CPacket::LevelChunkWithLight(x)),
                Err(e) => Err(e),
            }
        } else if id == 0x2B {
            match <S2CLogin as Wire>::read(buf, p) {
                Ok((x, _)) => Ok(S2CPacket::Login(x)),
                Err(e) => Err(e),
            }
        } else if id == 0x38 {
            match <S2CPlayerAbilities as Wire>::read(buf, p) {
                Ok((x, _)) => Ok(S2CPacket::PlayerAbilities(x)),
                Err(e) => Err(e),
            }
        } else {
            Err(DecodeError::UnknownPacket)
        }
    }

    fn decode_play_1(id: i32, buf: &[u8], p: usize) -> (r: Result<S2CPacket, DecodeError>)
        requires
            p <= buf@.len(),
        ensures
            match spec_decode_s2c_packet_play_1(id, buf@.skip(p as int)) {
                Ok(m) => r matches Ok(x) && x.model() == m,
                Err(e) => r == Err::<S2CPacket, DecodeError>(e),
            },
    {
        if id == 0x40 {
            match <S2CPlayerPosition as Wire>::read(buf, p) {
                Ok((x, _)) => Ok(S2CPacket::PlayerPosition(x)),
                Err(e) => Err(e),
            }
        } else if id == 0x54 {
            match <S2CSetChunkCacheCenter as Wire>::read(buf, p) {
                Ok((x, _)) => Ok(S2CPacket::SetChunkCacheCenter(x)),
                Err(e) => Err(e),
            }
        } else if id == 0x55 {
            match <S2CSetChunkCacheRadius as Wire>::read(buf, p) {
                Ok((x, _)) => Ok(S2CPacket::SetChunkCacheRadius(x)),
                Err(e) => Err(e),
            }
        } else if id == 0x56 {
            match <S2CSetDefaultSpawnPosition as Wire>::read(buf, p) {
                Ok((x, _)) => Ok(S2CPacket::SetDefaultSpawnPosition(x)),
                Err(e) => Err(e),
            }
        } else {
            Err(DecodeError::UnknownPacket)
        }
    }

}

/// What decoding a packet of [`S2CPacket`] from `s` in `state` gives: the
/// leading `VarInt` id, then the fields of the packet that the state and id
/// stand for.
pub open spec fn spec_decode_s2c_packet(state: State, s: Seq<u8>) -> Result<S2CPacketModel, DecodeError> {
    match <VarInt as Wire>::spec_read(s) {
        Ok((id, n)) => match state {
            State::Handshake => Err(DecodeError::UnknownPacket),
            State::Status => spec_decode_s2c_packet_status(id, s.skip(n as int)),
            State::Login => spec_decode_s2c_packet_login(id, s.skip(n as int)),
            State::Configuration => spec_decode_s2c_packet_configuration(id, s.skip(n as int)),
            State::Play => spec_decode_s2c_packet_play(id, s.skip(n as int)),
        },
        Err(e) => Err(e),
    }
}

/// What the fields after id `id` decode to in the Status state.
pub open spec fn spec_decode_s2c_packet_status(id: i32, body: Seq<u8>) -> Result<S2CPacketModel, DecodeError> {
    if id == 0x00 {
        match <S2CStatusResponse as Wire>::spec_read(body) {
            Ok((m, _)) => Ok(S2CPacketModel::StatusResponse(m)),
            Err(e) => Err(e),
        }
    } else if id == 0x01 {
        match <S2CPong as Wire>::spec_read(body) {
            Ok((m, _)) => Ok(S2CPacketModel::Pong(m)),
            Err(e) => Err(e),
        }
    } else {
        Err(DecodeError::UnknownPacket)
    }
}

/// What the fields after id `id` decode to in the Login state.
pub open spec fn spec_decode_s2c_packet_login(id: i32, body: Seq<u8>) -> Result<S2CPacketModel, DecodeError> {
    if id == 0x00 {
        match <S2CDisconnect as Wire>::spec_read(body) {
            Ok((m, _)) => Ok(S2CPacketModel::Disconnect(m)),
            Err(e) => Err(e),
        }
    } else if id == 0x01 {
        match <S2CEncryptionRequest as Wire>::spec_read(body) {
            Ok((m, _)) => Ok(S2CPacketModel::EncryptionRequest(m)),
            Err(e) => Err(e),
        }
    } else if id == 0x02 {
        match <S2CLoginSuccess as Wire>::spec_read(body) {
            Ok((m, _)) => Ok(S2CPacketModel::LoginSuccess(m)),
            Err(e) => Err(e),
        }
    } else if id == 0x03 {
        match <S2CSetCompression as Wire>::spec_read(body) {
            Ok((m, _)) => Ok(S2CPacketModel::SetCompression(m)),
            Err(e) => Err(e),
        }
    } else if id == 0x04 {
        match <S2CLoginPluginRequest as Wire>::spec_read(body) {
            Ok((m, _)) => Ok(S2CPacketModel::LoginPluginRequest(m)),
            Err(e) => Err(e),
        }
    } else {
        Err(DecodeError::UnknownPacket)
    }
}

/// What the fields after id `id` decode to in the Configuration state.
pub open spec fn spec_decode_s2c_packet_configuration(id: i32, body: Seq<u8>) -> Result<S2CPacketModel, DecodeError> {
    if id < 0x0C {
        spec_decode_s2c_packet_configuration_0(id, body)
    } else {
        spec_decode_s2c_packet_configuration_1(id, body)
    }
}

/// The Configuration packets with ids from 0x01 to 0x07.
pub open spec fn spec_decode_s2c_packet_configuration_0(id: i32, body: Seq<u8>) -> Result<S2CPacketModel, DecodeError> {
    if id == 0x01 {
        match <S2CCustomPayload as Wire>::spec_read(body) {
            Ok((m, _)) => Ok(S2CPacketModel::CustomPayload(m)),
            Err(e) => Err(e),
        }
    } else if id == 0x02 {
        match <S2CDisconnectConfiguration as Wire>::spec_read(body) {
            Ok((m, _)) => Ok(S2CPacketModel::DisconnectConfiguration(m)),
            Err(e) => Err(e),
        }
    } else if id == 0x03 {
        match <S2CFinishConfiguration as Wire>::spec_read(body) {
            Ok((m, _)) => Ok(S2CPacketModel::FinishConfiguration(m)),
            Err(e) => Err(e),
        }
    } else if id == 0x04 {
        match <S2CConfigurationKeepAlive as Wire>::spec_read(body) {
            Ok((m, _)) => Ok(S2CPacketModel::ConfigurationKeepAlive(m)),
            Err(e) => Err(e),
        }
    } else if id == 0x05 {
        match <S2CPingConfiguration as Wire>::spec_read(body) {
            Ok((m, _)) => Ok(S2CPacketModel::PingConfiguration(m)),
            Err(e) => Err(e),
        }
    } else if id == 0x07 {
        match <S2CRegistryData as Wire>::spec_read(body) {
            Ok((m, _)) => Ok(S2CPacketModel::RegistryData(m)),
            Err(e) => Err(e),
        }
    } else {
        Err(DecodeError::UnknownPacket)
    }
}

/// The Configuration packets with ids from 0x0C to 0x0E.
pub open spec fn spec_decode_s2c_packet_configuration_1(id: i32, body: Seq<u8>) -> Result<S2CPacketModel, DecodeError> {
    if id == 0x0C {
        match <S2CFeatureFlags as Wire>::spec_read(body) {
            Ok((m, _)) => Ok(S2CPacketModel::FeatureFlags(m)),
            Err(e) => Err(e),
        }
    } else if id == 0x0D {
        match <S2CUpdateTags as Wire>::spec_read(body) {
            Ok((m, _)) => Ok(S2CPacketModel::UpdateTags(m)),
            Err(e) => Err(e),
        }
    } else if id == 0x0E {
        match <S2CKnownPacks as Wire>::spec_read(body) {
            Ok((m, _)) => Ok(S2CPacketModel::KnownPacks(m)),
            Err(e) => Err(e),
        }
    } else {
        Err(DecodeError::UnknownPacket)
    }
}

/// What the fields after id `id` decode to in the Play state.
pub open spec fn spec_decode_s2c_packet_play(id: i32, body: Seq<u8>) -> Result<S2CPacketModel, DecodeError> {
    if id < 0x40 {
        spec_decode_s2c_packet_play_0(id, body)
    } else {
        spec_decode_s2c_packet_play_1(id, body)
    }
}

/// The Play packets with ids from 0x1A to 0x38.
pub open spec fn spec_decode_s2c_packet_play_0(id: i32, body: Seq<u8>) -> Result<S2CPacketModel, DecodeError> {
    if id == 0x1A {
        match <S2CDisconnectPlay as Wire>::spec_read(body) {
            Ok((m, _)) => Ok(S2CPacketModel::DisconnectPlay(m)),
            Err(e) => Err(e),
        }
    } else if id == 0x22 {
        match <S2CGameEvent as Wire>::spec_read(body) {
            Ok((m, _)) => Ok(S2CPacketModel::GameEvent(m)),
            Err(e) => Err(e),
        }
    } else if id == 0x26 {
        match <S2CKeepAlive as Wire>::spec_read(body) {
            Ok((m, _)) => Ok(S2CPacketModel::KeepAlive(m)),
            Err(e) => Err(e),
        }
    } else if id == 0x27 {
        match <S2CLevelChunkWithLight as Wire>::spec_read(body) {
            Ok((m, _)) => Ok(S2CPacketModel::LevelChunkWithLight(m)),
            Err(e) => Err(e),
        }
    } else if id == 0x2B {
        match <S2CLogin as Wire>::spec_read(body) {
            Ok((m, _)) => Ok(S2CPacketModel::Login(m)),
            Err(e) => Err(e),
        }
    } else if id == 0x38 {
        match <S2CPlayerAbilities as Wire>::spec_read(body) {
            Ok((m, _)) => Ok(S2CPacketModel::PlayerAbilities(m)),
            Err(e) => Err(e),
        }
    } else {
        Err(DecodeError::UnknownPacket)
    }
}

/// The Play packets with ids from 0x40 to 0x56.
pub open spec fn spec_decode_s2c_packet_play_1(id: i32, body: Seq<u8>) -> Result<S2CPacketModel, DecodeError> {
    if id == 0x40 {
        match <S2CPlayerPosition as Wire>::spec_read(body) {
            Ok((m, _)) => Ok(S2CPacketModel::PlayerPosition(m)),
            Err(e) => Err(e),
        }
    } else if id == 0x54 {
        match <S2CSetChunkCacheCenter as Wire>::spec_read(body) {
            Ok((m, _)) => Ok(S2CPacketModel::SetChunkCacheCenter(m)),
            Err(e) => Err(e),
        }
    } else if id == 0x55 {
        match <S2CSetChunkCacheRadius as Wire>::spec_read(body) {
            Ok((m, _)) => Ok(S2CPacketModel::SetChunkCacheRadius(m)),
            Err(e) => Err(e),
        }
    } else if id == 0x56 {
        match <S2CSetDefaultSpawnPosition as Wire>::spec_read(body) {
            Ok((m, _)) => Ok(S2CPacketModel::SetDefaultSpawnPosition(m)),
            Err(e) => Err(e),
        }
    } else {
        Err(DecodeError::UnknownPacket)
    }
}

/// The bytes of a packet of the group: its id, then its fields.
pub open spec fn spec_encode_s2c_packet(g: S2CPacketModel) -> Seq<u8> {
    match g {
        S2CPacketModel::StatusResponse(m) => spec_varint_encode(0x00) + <S2CStatusResponse as Wire>::spec_write(m),
        S2CPacketModel::Pong(m) => spec_varint_encode(0x01) + <S2CPong as Wire>::spec_write(m),
        S2CPacketModel::Disconnect(m) => spec_varint_encode(0x00) + <S2CDisconnect as Wire>::spec_write(m),
        S2CPacketModel::EncryptionRequest(m) => spec_varint_encode(0x01) + <S2CEncryptionRequest as Wire>::spec_write(m),
        S2CPacketModel::LoginSuccess(m) => spec_varint_encode(0x02) + <S2CLoginSuccess as Wire>::spec_write(m),
        S2CPacketModel::SetCompression(m) => spec_varint_encode(0x03) + <S2CSetCompression as Wire>::spec_write(m),
        S2CPacketModel::LoginPluginRequest(m) => spec_varint_encode(0x04) + <S2CLoginPluginRequest as Wire>::spec_write(m),
        S2CPacketModel::CustomPayload(m) => spec_varint_encode(0x01) + <S2CCustomPayload as Wire>::spec_write(m),
        S2CPacketModel::DisconnectConfiguration(m) => spec_varint_encode(0x02) + <S2CDisconnectConfiguration as Wire>::spec_write(m),
        S2CPacketModel::FinishConfiguration(m) => spec_varint_encode(0x03) + <S2CFinishConfiguration as Wire>::spec_write(m),
        S2CPacketModel::ConfigurationKeepAlive(m) => spec_varint_encode(0x04) + <S2CConfigurationKeepAlive as Wire>::spec_write(m),
        S2CPacketModel::PingConfiguration(m) => spec_varint_encode(0x05) + <S2CPingConfiguration as Wire>::spec_write(m),
        S2CPacketModel::RegistryData(m) => spec_varint_encode(0x07) + <S2CRegistryData as Wire>::spec_write(m),
        S2CPacketModel::FeatureFlags(m) => spec_varint_encode(0x0C) + <S2CFeatureFlags as Wire>::spec_write(m),
        S2CPacketModel::UpdateTags(m) => spec_varint_encode(0x0D) + <S2CUpdateTags as Wire>::spec_write(m),
        S2CPacketModel::KnownPacks(m) => spec_varint_encode(0x0E) + <S2CKnownPacks as Wire>::spec_write(m),
        S2CPacketModel::DisconnectPlay(m) => spec_varint_encode(0x1A) + <S2CDisconnectPlay as Wire>::spec_write(m),
        S2CPacketModel::GameEvent(m) => spec_varint_encode(0x22) + <S2CGameEvent as Wire>::spec_write(m),
        S2CPacketModel::KeepAlive(m) => spec_varint_encode(0x26) + <S2CKeepAlive as Wire>::spec_write(m),
        S2CPacketModel::LevelChunkWithLight(m) => spec_varint_encode(0x27) + <S2CLevelChunkWithLight as Wire>::spec_write(m),
        S2CPacketModel::Login(m) => spec_varint_encode(0x2B) + <S2CLogin as Wire>::spec_write(m),
        S2CPacketModel::PlayerAbilities(m) => spec_varint_encode(0x38) + <S2CPlayerAbilities as Wire>::spec_write(m),
        S2CPacketModel::PlayerPosition(m) => spec_varint_encode(0x40) + <S2CPlayerPosition as Wire>::spec_write(m),
        S2CPacketModel::SetChunkCacheCenter(m) => spec_varint_encode(0x54) + <S2CSetChunkCacheCenter as Wire>::spec_write(m),
        S2CPacketModel::SetChunkCacheRadius(m) => spec_varint_encode(0x55) + <S2CSetChunkCacheRadius as Wire>::spec_write(m),
        S2CPacketModel::SetDefaultSpawnPosition(m) => spec_varint_encode(0x56) + <S2CSetDefaultSpawnPosition as Wire>::spec_write(m),
    }
}

/// The state a packet of the group belongs to.
pub open spec fn state_of_s2c_packet(g: S2CPacketModel) -> State {
    match g {
        S2CPacketModel::StatusResponse(m) => State::Status,
        S2CPacketModel::Pong(m) => State::Status,
        S2CPacketModel::Disconnect(m) => State::Login,
        S2CPacketModel::EncryptionRequest(m) => State::Login,
        S2CPacketModel::LoginSuccess(m) => State::Login,
        S2CPacketModel::SetCompression(m) => State::Login,
        S2CPacketModel::LoginPluginRequest(m) => State::Login,
        S2CPacketModel::CustomPayload(m) => State::Configuration,
        S2CPacketModel::DisconnectConfiguration(m) => State::Configuration,
        S2CPacketModel::FinishConfiguration(m) => State::Configuration,
        S2CPacketModel::ConfigurationKeepAlive(m) => State::Configuration,
        S2CPacketModel::PingConfiguration(m) => State::Configuration,
        S2CPacketModel::RegistryData(m) => State::Configuration,
        S2CPacketModel::FeatureFlags(m) => State::Configuration,
        S2CPacketModel::UpdateTags(m) => State::Configuration,
        S2CPacketModel::KnownPacks(m) => State::Configuration,
        S2CPacketModel::DisconnectPlay(m) => State::Play,
        S2CPacketModel::GameEvent(m) => State::Play,
        S2CPacketModel::KeepAlive(m) => State::Play,
        S2CPacketModel::LevelChunkWithLight(m) => State::Play,
        S2CPacketModel::Login(m) => State::Play,
        S2CPacketModel::PlayerAbilities(m) => State::Play,
        S2CPacketModel::PlayerPosition(m) => State::Play,
        S2CPacketModel::SetChunkCacheCenter(m) => State::Play,
        S2CPacketModel::SetChunkCacheRadius(m) => State::Play,
        S2CPacketModel::SetDefaultSpawnPosition(m) => State::Play,
    }
}

/// The packet's fields have a layout.
pub open spec fn encodable_s2c_packet(g: S2CPacketModel) -> bool {
    match g {
        S2CPacketModel::StatusResponse(m) => <S2CStatusResponse as Wire>::encodable(m),
        S2CPacketModel::Pong(m) => <S2CPong as Wire>::encodable(m),
        S2CPacketModel::Disconnect(m) => <S2CDisconnect as Wire>::encodable(m),
        S2CPacketModel::EncryptionRequest(m) => <S2CEncryptionRequest as Wire>::encodable(m),
        S2CPacketModel::LoginSuccess(m) => <S2CLoginSuccess as Wire>::encodable(m),
        S2CPacketModel::SetCompression(m) => <S2CSetCompression as Wire>::encodable(m),
        S2CPacketModel::LoginPluginRequest(m) => <S2CLoginPluginRequest as Wire>::encodable(m),
        S2CPacketModel::CustomPayload(m) => <S2CCustomPayload as Wire>::encodable(m),
        S2CPacketModel::DisconnectConfiguration(m) => <S2CDisconnectConfiguration as Wire>::encodable(m),
        S2CPacketModel::FinishConfiguration(m) => <S2CFinishConfiguration as Wire>::encodable(m),
        S2CPacketModel::ConfigurationKeepAlive(m) => <S2CConfigurationKeepAlive as Wire>::encodable(m),
        S2CPacketModel::PingConfiguration(m) => <S2CPingConfiguration as Wire>::encodable(m),
        S2CPacketModel::RegistryData(m) => <S2CRegistryData as Wire>::encodable(m),
        S2CPacketModel::FeatureFlags(m) => <S2CFeatureFlags as Wire>::encodable(m),
        S2CPacketModel::UpdateTags(m) => <S2CUpdateTags as Wire>::encodable(m),
        S2CPacketModel::KnownPacks(m) => <S2CKnownPacks as Wire>::encodable(m),
        S2CPacketModel::DisconnectPlay(m) => <S2CDisconnectPlay as Wire>::encodable(m),
        S2CPacketModel::GameEvent(m) => <S2CGameEvent as Wire>::encodable(m),
        S2CPacketModel::KeepAlive(m) => <S2CKeepAlive as Wire>::encodable(m),
        S2CPacketModel::LevelChunkWithLight(m) => <S2CLevelChunkWithLight as Wire>::encodable(m),
        S2CPacketModel::Login(m) => <S2CLogin as Wire>::encodable(m),
        S2CPacketModel::PlayerAbilities(m) => <S2CPlayerAbilities as Wire>::encodable(m),
        S2CPacketModel::PlayerPosition(m) => <S2CPlayerPosition as Wire>::encodable(m),
        S2CPacketModel::SetChunkCacheCenter(m) => <S2CSetChunkCacheCenter as Wire>::encodable(m),
        S2CPacketModel::SetChunkCacheRadius(m) => <S2CSetChunkCacheRadius as Wire>::encodable(m),
        S2CPacketModel::SetDefaultSpawnPosition(m) => <S2CSetDefaultSpawnPosition as Wire>::encodable(m),
    }
}

/// The packet's last field takes every remaining byte.
pub open spec fn greedy_s2c_packet(g: S2CPacketModel) -> bool {
    match g {
        S2CPacketModel::StatusResponse(m) => <S2CStatusResponse as Wire>::greedy(),
        S2CPacketModel::Pong(m) => <S2CPong as Wire>::greedy(),
        S2CPacketModel::Disconnect(m) => <S2CDisconnect as Wire>::greedy(),
        S2CPacketModel::EncryptionRequest(m) => <S2CEncryptionRequest as Wire>::greedy(),
        S2CPacketModel::LoginSuccess(m) => <S2CLoginSuccess as Wire>::greedy(),
        S2CPacketModel::SetCompression(m) => <S2CSetCompression as Wire>::greedy(),
        S2CPacketModel::LoginPluginRequest(m) => <S2CLoginPluginRequest as Wire>::greedy(),
        S2CPacketModel::CustomPayload(m) => <S2CCustomPayload as Wire>::greedy(),
        S2CPacketModel::DisconnectConfiguration(m) => <S2CDisconnectConfiguration as Wire>::greedy(),
        S2CPacketModel::FinishConfiguration(m) => <S2CFinishConfiguration as Wire>::greedy(),
        S2CPacketModel::ConfigurationKeepAlive(m) => <S2CConfigurationKeepAlive as Wire>::greedy(),
        S2CPacketModel::PingConfiguration(m) => <S2CPingConfiguration as Wire>::greedy(),
        S2CPacketModel::RegistryData(m) => <S2CRegistryData as Wire>::greedy(),
        S2CPacketModel::FeatureFlags(m) => <S2CFeatureFlags as Wire>::greedy(),
        S2CPacketModel::UpdateTags(m) => <S2CUpdateTags as Wire>::greedy(),
        S2CPacketModel::KnownPacks(m) => <S2CKnownPacks as Wire>::greedy(),
        S2CPacketModel::DisconnectPlay(m) => <S2CDisconnectPlay as Wire>::greedy(),
        S2CPacketModel::GameEvent(m) => <S2CGameEvent as Wire>::greedy(),
        S2CPacketModel::KeepAlive(m) => <S2CKeepAlive as Wire>::greedy(),
        S2CPacketModel::LevelChunkWithLight(m) => <S2CLevelChunkWithLight as Wire>::greedy(),
        S2CPacketModel::Login(m) => <S2CLogin as Wire>::greedy(),
        S2CPacketModel::PlayerAbilities(m) => <S2CPlayerAbilities as Wire>::greedy(),
        S2CPacketModel::PlayerPosition(m) => <S2CPlayerPosition as Wire>::greedy(),
        S2CPacketModel::SetChunkCacheCenter(m) => <S2CSetChunkCacheCenter as Wire>::greedy(),
        S2CPacketModel::SetChunkCacheRadius(m) => <S2CSetChunkCacheRadius as Wire>::greedy(),
        S2CPacketModel::SetDefaultSpawnPosition(m) => <S2CSetDefaultSpawnPosition as Wire>::greedy(),
    }
}

/// The packet's layout can be read back (no greedy field is followed by another).
pub open spec fn decodable_s2c_packet(g: S2CPacketModel) -> bool {
    match g {
        S2CPacketModel::StatusResponse(m) => <S2CStatusResponse as Wire>::decodable(),
        S2CPacketModel::Pong(m) => <S2CPong as Wire>::decodable(),
        S2CPacketModel::Disconnect(m) => <S2CDisconnect as Wire>::decodable(),
        S2CPacketModel::EncryptionRequest(m) => <S2CEncryptionRequest as Wire>::decodable(),
        S2CPacketModel::LoginSuccess(m) => <S2CLoginSuccess as Wire>::decodable(),
        S2CPacketModel::SetCompression(m) => <S2CSetCompression as Wire>::decodable(),
        S2CPacketModel::LoginPluginRequest(m) => <S2CLoginPluginRequest as Wire>::decodable(),
        S2CPacketModel::CustomPayload(m) => <S2CCustomPayload as Wire>::decodable(),
        S2CPacketModel::DisconnectConfiguration(m) => <S2CDisconnectConfiguration as Wire>::decodable(),
        S2CPacketModel::FinishConfiguration(m) => <S2CFinishConfiguration as Wire>::decodable(),
        S2CPacketModel::ConfigurationKeepAlive(m) => <S2CConfigurationKeepAlive as Wire>::decodable(),
        S2CPacketModel::PingConfiguration(m) => <S2CPingConfiguration as Wire>::decodable(),
        S2CPacketModel::RegistryData(m) => <S2CRegistryData as Wire>::decodable(),
        S2CPacketModel::FeatureFlags(m) => <S2CFeatureFlags as Wire>::decodable(),
        S2CPacketModel::UpdateTags(m) => <S2CUpdateTags as Wire>::decodable(),
        S2CPacketModel::KnownPacks(m) => <S2CKnownPacks as Wire>::decodable(),
        S2CPacketModel::DisconnectPlay(m) => <S2CDisconnectPlay as Wire>::decodable(),
        S2CPacketModel::GameEvent(m) => <S2CGameEvent as Wire>::decodable(),
        S2CPacketModel::KeepAlive(m) => <S2CKeepAlive as Wire>::decodable(),
        S2CPacketModel::LevelChunkWithLight(m) => <S2CLevelChunkWithLight as Wire>::decodable(),
        S2CPacketModel::Login(m) => <S2CLogin as Wire>::decodable(),
        S2CPacketModel::PlayerAbilities(m) => <S2CPlayerAbilities as Wire>::decodable(),
        S2CPacketModel::PlayerPosition(m) => <S2CPlayerPosition as Wire>::decodable(),
        S2CPacketModel::SetChunkCacheCenter(m) => <S2CSetChunkCacheCenter as Wire>::decodable(),
        S2CPacketModel::SetChunkCacheRadius(m) => <S2CSetChunkCacheRadius as Wire>::decodable(),
        S2CPacketModel::SetDefaultSpawnPosition(m) => <S2CSetDefaultSpawnPosition as Wire>::decodable(),
    }
}

proof fn lemma_s2c_packet_roundtrip_status(g: S2CPacketModel, rest: Seq<u8>)
    requires
        state_of_s2c_packet(g) == State::Status,
        decodable_s2c_packet(g),
        encodable_s2c_packet(g),
        !greedy_s2c_packet(g) || rest.len() == 0,
    ensures
        spec_decode_s2c_packet_status(
            match g {
                S2CPacketModel::StatusResponse(_) => 0x00,
                S2CPacketModel::Pong(_) => 0x01,
                S2CPacketModel::Disconnect(_) => 0x00,
                S2CPacketModel::EncryptionRequest(_) => 0x01,
                S2CPacketModel::LoginSuccess(_) => 0x02,
                S2CPacketModel::SetCompression(_) => 0x03,
                S2CPacketModel::LoginPluginRequest(_) => 0x04,
                S2CPacketModel::CustomPayload(_) => 0x01,
                S2CPacketModel::DisconnectConfiguration(_) => 0x02,
                S2CPacketModel::FinishConfiguration(_) => 0x03,
                S2CPacketModel::ConfigurationKeepAlive(_) => 0x04,
                S2CPacketModel::PingConfiguration(_) => 0x05,
                S2CPacketModel::RegistryData(_) => 0x07,
                S2CPacketModel::FeatureFlags(_) => 0x0C,
                S2CPacketModel::UpdateTags(_) => 0x0D,
                S2CPacketModel::KnownPacks(_) => 0x0E,
                S2CPacketModel::DisconnectPlay(_) => 0x1A,
                S2CPacketModel::GameEvent(_) => 0x22,
                S2CPacketModel::KeepAlive(_) => 0x26,
                S2CPacketModel::LevelChunkWithLight(_) => 0x27,
                S2CPacketModel::Login(_) => 0x2B,
                S2CPacketModel::PlayerAbilities(_) => 0x38,
                S2CPacketModel::PlayerPosition(_) => 0x40,
                S2CPacketModel::SetChunkCacheCenter(_) => 0x54,
                S2CPacketModel::SetChunkCacheRadius(_) => 0x55,
                S2CPacketModel::SetDefaultSpawnPosition(_) => 0x56,
            },
            match g {
                S2CPacketModel::StatusResponse(m) => <S2CStatusResponse as Wire>::spec_write(m) + rest,
                S2CPacketModel::Pong(m) => <S2CPong as Wire>::spec_write(m) + rest,
                S2CPacketModel::Disconnect(m) => <S2CDisconnect as Wire>::spec_write(m) + rest,
                S2CPacketModel::EncryptionRequest(m) => <S2CEncryptionRequest as Wire>::spec_write(m) + rest,
                S2CPacketModel::LoginSuccess(m) => <S2CLoginSuccess as Wire>::spec_write(m) + rest,
                S2CPacketModel::SetCompression(m) => <S2CSetCompression as Wire>::spec_write(m) + rest,
                S2CPacketModel::LoginPluginRequest(m) => <S2CLoginPluginRequest as Wire>::spec_write(m) + rest,
                S2CPacketModel::CustomPayload(m) => <S2CCustomPayload as Wire>::spec_write(m) + rest,
                S2CPacketModel::DisconnectConfiguration(m) => <S2CDisconnectConfiguration as Wire>::spec_write(m) + rest,
                S2CPacketModel::FinishConfiguration(m) => <S2CFinishConfiguration as Wire>::spec_write(m) + rest,
                S2CPacketModel::ConfigurationKeepAlive(m) => <S2CConfigurationKeepAlive as Wire>::spec_write(m) + rest,
                S2CPacketModel::PingConfiguration(m) => <S2CPingConfiguration as Wire>::spec_write(m) + rest,
                S2CPacketModel::RegistryData(m) => <S2CRegistryData as Wire>::spec_write(m) + rest,
                S2CPacketModel::FeatureFlags(m) => <S2CFeatureFlags as Wire>::spec_write(m) + rest,
                S2CPacketModel::UpdateTags(m) => <S2CUpdateTags as Wire>::spec_write(m) + rest,
                S2CPacketModel::KnownPacks(m) => <S2CKnownPacks as Wire>::spec_write(m) + rest,
                S2CPacketModel::DisconnectPlay(m) => <S2CDisconnectPlay as Wire>::spec_write(m) + rest,
                S2CPacketModel::GameEvent(m) => <S2CGameEvent as Wire>::spec_write(m) + rest,
                S2CPacketModel::KeepAlive(m) => <S2CKeepAlive as Wire>::spec_write(m) + rest,
                S2CPacketModel::LevelChunkWithLight(m) => <S2CLevelChunkWithLight as Wire>::spec_write(m) + rest,
                S2CPacketModel::Login(m) => <S2CLogin as Wire>::spec_write(m) + rest,
                S2CPacketModel::PlayerAbilities(m) => <S2CPlayerAbilities as Wire>::spec_write(m) + rest,
                S2CPacketModel::PlayerPosition(m) => <S2CPlayerPosition as Wire>::spec_write(m) + rest,
                S2CPacketModel::SetChunkCacheCenter(m) => <S2CSetChunkCacheCenter as Wire>::spec_write(m) + rest,
                S2CPacketModel::SetChunkCacheRadius(m) => <S2CSetChunkCacheRadius as Wire>::spec_write(m) + rest,
                S2CPacketModel::SetDefaultSpawnPosition(m) => <S2CSetDefaultSpawnPosition as Wire>::spec_write(m) + rest,
            },
        ) == Ok::<S2CPacketModel, DecodeError>(g),
{
    match g {
        S2CPacketModel::StatusResponse(m) => {
            <S2CStatusResponse as Wire>::lemma_roundtrip(m, rest);
        },
        S2CPacketModel::Pong(m) => {
            <S2CPong as Wire>::lemma_roundtrip(m, rest);
        },
        _ => {},
    }
}

proof fn lemma_s2c_packet_roundtrip_login(g: S2CPacketModel, rest: Seq<u8>)
    requires
        state_of_s2c_packet(g) == State::Login,
        decodable_s2c_packet(g),
        encodable_s2c_packet(g),
        !greedy_s2c_packet(g) || rest.len() == 0,
    ensures
        spec_decode_s2c_packet_login(
            match g {
                S2CPacketModel::StatusResponse(_) => 0x00,
                S2CPacketModel::Pong(_) => 0x01,
                S2CPacketModel::Disconnect(_) => 0x00,
                S2CPacketModel::EncryptionRequest(_) => 0x01,
                S2CPacketModel::LoginSuccess(_) => 0x02,
                S2CPacketModel::SetCompression(_) => 0x03,
                S2CPacketModel::LoginPluginRequest(_) => 0x04,
                S2CPacketModel::CustomPayload(_) => 0x01,
                S2CPacketModel::DisconnectConfiguration(_) => 0x02,
                S2CPacketModel::FinishConfiguration(_) => 0x03,
                S2CPacketModel::ConfigurationKeepAlive(_) => 0x04,
                S2CPacketModel::PingConfiguration(_) => 0x05,
                S2CPacketModel::RegistryData(_) => 0x07,
                S2CPacketModel::FeatureFlags(_) => 0x0C,
                S2CPacketModel::UpdateTags(_) => 0x0D,
                S2CPacketModel::KnownPacks(_) => 0x0E,
                S2CPacketModel::DisconnectPlay(_) => 0x1A,
                S2CPacketModel::GameEvent(_) => 0x22,
                S2CPacketModel::KeepAlive(_) => 0x26,
                S2CPacketModel::LevelChunkWithLight(_) => 0x27,
                S2CPacketModel::Login(_) => 0x2B,
                S2CPacketModel::PlayerAbilities(_) => 0x38,
                S2CPacketModel::PlayerPosition(_) => 0x40,
                S2CPacketModel::SetChunkCacheCenter(_) => 0x54,
                S2CPacketModel::SetChunkCacheRadius(_) => 0x55,
                S2CPacketModel::SetDefaultSpawnPosition(_) => 0x56,
            },
            match g {
                S2CPacketModel::StatusResponse(m) => <S2CStatusResponse as Wire>::spec_write(m) + rest,
                S2CPacketModel::Pong(m) => <S2CPong as Wire>::spec_write(m) + rest,
                S2CPacketModel::Disconnect(m) => <S2CDisconnect as Wire>::spec_write(m) + rest,
                S2CPacketModel::EncryptionRequest(m) => <S2CEncryptionRequest as Wire>::spec_write(m) + rest,
                S2CPacketModel::LoginSuccess(m) => <S2CLoginSuccess as Wire>::spec_write(m) + rest,
                S2CPacketModel::SetCompression(m) => <S2CSetCompression as Wire>::spec_write(m) + rest,
                S2CPacketModel::LoginPluginRequest(m) => <S2CLoginPluginRequest as Wire>::spec_write(m) + rest,
                S2CPacketModel::CustomPayload(m) => <S2CCustomPayload as Wire>::spec_write(m) + rest,
                S2CPacketModel::DisconnectConfiguration(m) => <S2CDisconnectConfiguration as Wire>::spec_write(m) + rest,
                S2CPacketModel::FinishConfiguration(m) => <S2CFinishConfiguration as Wire>::spec_write(m) + rest,
                S2CPacketModel::ConfigurationKeepAlive(m) => <S2CConfigurationKeepAlive as Wire>::spec_write(m) + rest,
                S2CPacketModel::PingConfiguration(m) => <S2CPingConfiguration as Wire>::spec_write(m) + rest,
                S2CPacketModel::RegistryData(m) => <S2CRegistryData as Wire>::spec_write(m) + rest,
                S2CPacketModel::FeatureFlags(m) => <S2CFeatureFlags as Wire>::spec_write(m) + rest,
                S2CPacketModel::UpdateTags(m) => <S2CUpdateTags as Wire>::spec_write(m) + rest,
                S2CPacketModel::KnownPacks(m) => <S2CKnownPacks as Wire>::spec_write(m) + rest,
                S2CPacketModel::DisconnectPlay(m) => <S2CDisconnectPlay as Wire>::spec_write(m) + rest,
                S2CPacketModel::GameEvent(m) => <S2CGameEvent as Wire>::spec_write(m) + rest,
                S2CPacketModel::KeepAlive(m) => <S2CKeepAlive as Wire>::spec_write(m) + rest,
                S2CPacketModel::LevelChunkWithLight(m) => <S2CLevelChunkWithLight as Wire>::spec_write(m) + rest,
                S2CPacketModel::Login(m) => <S2CLogin as Wire>::spec_write(m) + rest,
                S2CPacketModel::PlayerAbilities(m) => <S2CPlayerAbilities as Wire>::spec_write(m) + rest,
                S2CPacketModel::PlayerPosition(m) => <S2CPlayerPosition as Wire>::spec_write(m) + rest,
                S2CPacketModel::SetChunkCacheCenter(m) => <S2CSetChunkCacheCenter as Wire>::spec_write(m) + rest,
                S2CPacketModel::SetChunkCacheRadius(m) => <S2CSetChunkCacheRadius as Wire>::spec_write(m) + rest,
                S2CPacketModel::SetDefaultSpawnPosition(m) => <S2CSetDefaultSpawnPosition as Wire>::spec_write(m) + rest,
            },
        ) == Ok::<S2CPacketModel, DecodeError>(g),
{
    match g {
        S2CPacketModel::Disconnect(m) => {
            <S2CDisconnect as Wire>::lemma_roundtrip(m, rest);
        },
        S2CPacketModel::EncryptionRequest(m) => {
            <S2CEncryptionRequest as Wire>::lemma_roundtrip(m, rest);
        },
        S2CPacketModel::LoginSuccess(m) => {
            <S2CLoginSuccess as Wire>::lemma_roundtrip(m, rest);
        },
        S2CPacketModel::SetCompression(m) => {
            <S2CSetCompression as Wire>::lemma_roundtrip(m, rest);
        },
        S2CPacketModel::LoginPluginRequest(m) => {
            <S2CLoginPluginRequest as Wire>::lemma_roundtrip(m, rest);
        },
        _ => {},
    }
}

proof fn lemma_s2c_packet_roundtrip_configuration(g: S2CPacketModel, rest: Seq<u8>)
    requires
        state_of_s2c_packet(g) == State::Configuration,
        decodable_s2c_packet(g),
        encodable_s2c_packet(g),
        !greedy_s2c_packet(g) || rest.len() == 0,
    ensures
        spec_decode_s2c_packet_configuration(
            match g {
                S2CPacketModel::StatusResponse(_) => 0x00,
                S2CPacketModel::Pong(_) => 0x01,
                S2CPacketModel::Disconnect(_) => 0x00,
                S2CPacketModel::EncryptionRequest(_) => 0x01,
                S2CPacketModel::LoginSuccess(_) => 0x02,
                S2CPacketModel::SetCompression(_) => 0x03,
                S2CPacketModel::LoginPluginRequest(_) => 0x04,
                S2CPacketModel::CustomPayload(_) => 0x01,
                S2CPacketModel::DisconnectConfiguration(_) => 0x02,
                S2CPacketModel::FinishConfiguration(_) => 0x03,
                S2CPacketModel::ConfigurationKeepAlive(_) => 0x04,
                S2CPacketModel::PingConfiguration(_) => 0x05,
                S2CPacketModel::RegistryData(_) => 0x07,
                S2CPacketModel::FeatureFlags(_) => 0x0C,
                S2CPacketModel::UpdateTags(_) => 0x0D,
                S2CPacketModel::KnownPacks(_) => 0x0E,
                S2CPacketModel::DisconnectPlay(_) => 0x1A,
                S2CPacketModel::GameEvent(_) => 0x22,
                S2CPacketModel::KeepAlive(_) => 0x26,
                S2CPacketModel::LevelChunkWithLight(_) => 0x27,
                S2CPacketModel::Login(_) => 0x2B,
                S2CPacketModel::PlayerAbilities(_) => 0x38,
                S2CPacketModel::PlayerPosition(_) => 0x40,
                S2CPacketModel::SetChunkCacheCenter(_) => 0x54,
                S2CPacketModel::SetChunkCacheRadius(_) => 0x55,
                S2CPacketModel::SetDefaultSpawnPosition(_) => 0x56,
            },
            match g {
                S2CPacketModel::StatusResponse(m) => <S2CStatusResponse as Wire>::spec_write(m) + rest,
                S2CPacketModel::Pong(m) => <S2CPong as Wire>::spec_write(m) + rest,
                S2CPacketModel::Disconnect(m) => <S2CDisconnect as Wire>::spec_write(m) + rest,
                S2CPacketModel::EncryptionRequest(m) => <S2CEncryptionRequest as Wire>::spec_write(m) + rest,
                S2CPacketModel::LoginSuccess(m) => <S2CLoginSuccess as Wire>::spec_write(m) + rest,
                S2CPacketModel::SetCompression(m) => <S2CSetCompression as Wire>::spec_write(m) + rest,
                S2CPacketModel::LoginPluginRequest(m) => <S2CLoginPluginRequest as Wire>::spec_write(m) + rest,
                S2CPacketModel::CustomPayload(m) => <S2CCustomPayload as Wire>::spec_write(m) + rest,
                S2CPacketModel::DisconnectConfiguration(m) => <S2CDisconnectConfiguration as Wire>::spec_write(m) + rest,
                S2CPacketModel::FinishConfiguration(m) => <S2CFinishConfiguration as Wire>::spec_write(m) + rest,
                S2CPacketModel::ConfigurationKeepAlive(m) => <S2CConfigurationKeepAlive as Wire>::spec_write(m) + rest,
                S2CPacketModel::PingConfiguration(m) => <S2CPingConfiguration as Wire>::spec_write(m) + rest,
                S2CPacketModel::RegistryData(m) => <S2CRegistryData as Wire>::spec_write(m) + rest,
                S2CPacketModel::FeatureFlags(m) => <S2CFeatureFlags as Wire>::spec_write(m) + rest,
                S2CPacketModel::UpdateTags(m) => <S2CUpdateTags as Wire>::spec_write(m) + rest,
                S2CPacketModel::KnownPacks(m) => <S2CKnownPacks as Wire>::spec_write(m) + rest,
                S2CPacketModel::DisconnectPlay(m) => <S2CDisconnectPlay as Wire>::spec_write(m) + rest,
                S2CPacketModel::GameEvent(m) => <S2CGameEvent as Wire>::spec_write(m) + rest,
                S2CPacketModel::KeepAlive(m) => <S2CKeepAlive as Wire>::spec_write(m) + rest,
                S2CPacketModel::LevelChunkWithLight(m) => <S2CLevelChunkWithLight as Wire>::spec_write(m) + rest,
                S2CPacketModel::Login(m) => <S2CLogin as Wire>::spec_write(m) + rest,
                S2CPacketModel::PlayerAbilities(m) => <S2CPlayerAbilities as Wire>::spec_write(m) + rest,
                S2CPacketModel::PlayerPosition(m) => <S2CPlayerPosition as Wire>::spec_write(m) + rest,
                S2CPacketModel::SetChunkCacheCenter(m) => <S2CSetChunkCacheCenter as Wire>::spec_write(m) + rest,
                S2CPacketModel::SetChunkCacheRadius(m) => <S2CSetChunkCacheRadius as Wire>::spec_write(m) + rest,
                S2CPacketModel::SetDefaultSpawnPosition(m) => <S2CSetDefaultSpawnPosition as Wire>::spec_write(m) + rest,
            },
        ) == Ok::<S2CPacketModel, DecodeError>(g),
{
    match g {
        S2CPacketModel::CustomPayload(m) => {
            <S2CCustomPayload as Wire>::lemma_roundtrip(m, rest);
        },
        S2CPacketModel::DisconnectConfiguration(m) => {
            <S2CDisconnectConfiguration as Wire>::lemma_roundtrip(m, rest);
        },
        S2CPacketModel::FinishConfiguration(m) => {
            <S2CFinishConfiguration as Wire>::lemma_roundtrip(m, rest);
        },
        S2CPacketModel::ConfigurationKeepAlive(m) => {
            <S2CConfigurationKeepAlive as Wire>::lemma_roundtrip(m, rest);
        },
        S2CPacketModel::PingConfiguration(m) => {
            <S2CPingConfiguration as Wire>::lemma_roundtrip(m, rest);
        },
        S2CPacketModel::RegistryData(m) => {
            <S2CRegistryData as Wire>::lemma_roundtrip(m, rest);
        },
        S2CPacketModel::FeatureFlags(m) => {
            <S2CFeatureFlags as Wire>::lemma_roundtrip(m, rest);
        },
        S2CPacketModel::UpdateTags(m) => {
            <S2CUpdateTags as Wire>::lemma_roundtrip(m, rest);
        },
        S2CPacketModel::KnownPacks(m) => {
            <S2CKnownPacks as Wire>::lemma_roundtrip(m, rest);
        },
        _ => {},
    }
}

proof fn lemma_s2c_packet_roundtrip_play(g: S2CPacketModel, rest: Seq<u8>)
    requires
        state_of_s2c_packet(g) == State::Play,
        decodable_s2c_packet(g),
        encodable_s2c_packet(g),
        !greedy_s2c_packet(g) || rest.len() == 0,
    ensures
        spec_decode_s2c_packet_play(
            match g {
                S2CPacketModel::StatusResponse(_) => 0x00,
                S2CPacketModel::Pong(_) => 0x01,
                S2CPacketModel::Disconnect(_) => 0x00,
                S2CPacketModel::EncryptionRequest(_) => 0x01,
                S2CPacketModel::LoginSuccess(_) => 0x02,
                S2CPacketModel::SetCompression(_) => 0x03,
                S2CPacketModel::LoginPluginRequest(_) => 0x04,
                S2CPacketModel::CustomPayload(_) => 0x01,
                S2CPacketModel::DisconnectConfiguration(_) => 0x02,
                S2CPacketModel::FinishConfiguration(_) => 0x03,
                S2CPacketModel::ConfigurationKeepAlive(_) => 0x04,
                S2CPacketModel::PingConfiguration(_) => 0x05,
                S2CPacketModel::RegistryData(_) => 0x07,
                S2CPacketModel::FeatureFlags(_) => 0x0C,
                S2CPacketModel::UpdateTags(_) => 0x0D,
                S2CPacketModel::KnownPacks(_) => 0x0E,
                S2CPacketModel::DisconnectPlay(_) => 0x1A,
                S2CPacketModel::GameEvent(_) => 0x22,
                S2CPacketModel::KeepAlive(_) => 0x26,
                S2CPacketModel::LevelChunkWithLight(_) => 0x27,
                S2CPacketModel::Login(_) => 0x2B,
                S2CPacketModel::PlayerAbilities(_) => 0x38,
                S2CPacketModel::PlayerPosition(_) => 0x40,
                S2CPacketModel::SetChunkCacheCenter(_) => 0x54,
                S2CPacketModel::SetChunkCacheRadius(_) => 0x55,
                S2CPacketModel::SetDefaultSpawnPosition(_) => 0x56,
            },
            match g {
                S2CPacketModel::StatusResponse(m) => <S2CStatusResponse as Wire>::spec_write(m) + rest,
                S2CPacketModel::Pong(m) => <S2CPong as Wire>::spec_write(m) + rest,
                S2CPacketModel::Disconnect(m) => <S2CDisconnect as Wire>::spec_write(m) + rest,
                S2CPacketModel::EncryptionRequest(m) => <S2CEncryptionRequest as Wire>::spec_write(m) + rest,
                S2CPacketModel::LoginSuccess(m) => <S2CLoginSuccess as Wire>::spec_write(m) + rest,
                S2CPacketModel::SetCompression(m) => <S2CSetCompression as Wire>::spec_write(m) + rest,
                S2CPacketModel::LoginPluginRequest(m) => <S2CLoginPluginRequest as Wire>::spec_write(m) + rest,
                S2CPacketModel::CustomPayload(m) => <S2CCustomPayload as Wire>::spec_write(m) + rest,
                S2CPacketModel::DisconnectConfiguration(m) => <S2CDisconnectConfiguration as Wire>::spec_write(m) + rest,
                S2CPacketModel::FinishConfiguration(m) => <S2CFinishConfiguration as Wire>::spec_write(m) + rest,
                S2CPacketModel::ConfigurationKeepAlive(m) => <S2CConfigurationKeepAlive as Wire>::spec_write(m) + rest,
                S2CPacketModel::PingConfiguration(m) => <S2CPingConfiguration as Wire>::spec_write(m) + rest,
                S2CPacketModel::RegistryData(m) => <S2CRegistryData as Wire>::spec_write(m) + rest,
                S2CPacketModel::FeatureFlags(m) => <S2CFeatureFlags as Wire>::spec_write(m) + rest,
                S2CPacketModel::UpdateTags(m) => <S2CUpdateTags as Wire>::spec_write(m) + rest,
                S2CPacketModel::KnownPacks(m) => <S2CKnownPacks as Wire>::spec_write(m) + rest,
                S2CPacketModel::DisconnectPlay(m) => <S2CDisconnectPlay as Wire>::spec_write(m) + rest,
                S2CPacketModel::GameEvent(m) => <S2CGameEvent as Wire>::spec_write(m) + rest,
                S2CPacketModel::KeepAlive(m) => <S2CKeepAlive as Wire>::spec_write(m) + rest,
                S2CPacketModel::LevelChunkWithLight(m) => <S2CLevelChunkWithLight as Wire>::spec_write(m) + rest,
                S2CPacketModel::Login(m) => <S2CLogin as Wire>::spec_write(m) + rest,
                S2CPacketModel::PlayerAbilities(m) => <S2CPlayerAbilities as Wire>::spec_write(m) + rest,
                S2CPacketModel::PlayerPosition(m) => <S2CPlayerPosition as Wire>::spec_write(m) + rest,
                S2CPacketModel::SetChunkCacheCenter(m) => <S2CSetChunkCacheCenter as Wire>::spec_write(m) + rest,
                S2CPacketModel::SetChunkCacheRadius(m) => <S2CSetChunkCacheRadius as Wire>::spec_write(m) + rest,
                S2CPacketModel::SetDefaultSpawnPosition(m) => <S2CSetDefaultSpawnPosition as Wire>::spec_write(m) + rest,
            },
        ) == Ok::<S2CPacketModel, DecodeError>(g),
{
    match g {
        S2CPacketModel::DisconnectPlay(m) => {
            <S2CDisconnectPlay as Wire>::lemma_roundtrip(m, rest);
        },
        S2CPacketModel::GameEvent(m) => {
            <S2CGameEvent as Wire>::lemma_roundtrip(m, rest);
        },
        S2CPacketModel::KeepAlive(m) => {
            <S2CKeepAlive as Wire>::lemma_roundtrip(m, rest);
        },
        S2CPacketModel::LevelChunkWithLight(m) => {
            <S2CLevelChunkWithLight as Wire>::lemma_roundtrip(m, rest);
        },
        S2CPacketModel::Login(m) => {
            <S2CLogin as Wire>::lemma_roundtrip(m, rest);
        },
        S2CPacketModel::PlayerAbilities(m) => {
            <S2CPlayerAbilities as Wire>::lemma_roundtrip(m, rest);
        },
        S2CPacketModel::PlayerPosition(m) => {
            <S2CPlayerPosition as Wire>::lemma_roundtrip(m, rest);
        },
        S2CPacketModel::SetChunkCacheCenter(m) => {
            <S2CSetChunkCacheCenter as Wire>::lemma_roundtrip(m, rest);
        },
        S2CPacketModel::SetChunkCacheRadius(m) => {
            <S2CSetChunkCacheRadius as Wire>::lemma_roundtrip(m, rest);
        },
        S2CPacketModel::SetDefaultSpawnPosition(m) => {
            <S2CSetDefaultSpawnPosition as Wire>::lemma_roundtrip(m, rest);
        },
        _ => {},
    }
}

/// Decoding, in its own state, the bytes of any packet of the group gives
/// that packet back, whatever follows it (nothing may follow a packet that
/// ends in raw bytes, and a packet whose raw bytes are followed by more
/// fields cannot be read back).
pub proof fn lemma_s2c_packet_roundtrip(g: S2CPacketModel, rest: Seq<u8>)
    requires
        decodable_s2c_packet(g),
        encodable_s2c_packet(g),
        !greedy_s2c_packet(g) || rest.len() == 0,
    ensures
        spec_decode_s2c_packet(state_of_s2c_packet(g), spec_encode_s2c_packet(g) + rest) == Ok::<S2CPacketModel, DecodeError>(g),
{
    match g {
        S2CPacketModel::StatusResponse(m) => {
            lemma_header_roundtrip(0x00, <S2CStatusResponse as Wire>::spec_write(m), rest);
            lemma_s2c_packet_roundtrip_status(g, rest);
        },
        S2CPacketModel::Pong(m) => {
            lemma_header_roundtrip(0x01, <S2CPong as Wire>::spec_write(m), rest);
            lemma_s2c_packet_roundtrip_status(g, rest);
        },
        S2CPacketModel::Disconnect(m) => {
            lemma_header_roundtrip(0x00, <S2CDisconnect as Wire>::spec_write(m), rest);
            lemma_s2c_packet_roundtrip_login(g, rest);
        },
        S2CPacketModel::EncryptionRequest(m) => {
            lemma_header_roundtrip(0x01, <S2CEncryptionRequest as Wire>::spec_write(m), rest);
            lemma_s2c_packet_roundtrip_login(g, rest);
        },
        S2CPacketModel::LoginSuccess(m) => {
            lemma_header_roundtrip(0x02, <S2CLoginSuccess as Wire>::spec_write(m), rest);
            lemma_s2c_packet_roundtrip_login(g, rest);
        },
        S2CPacketModel::SetCompression(m) => {
            lemma_header_roundtrip(0x03, <S2CSetCompression as Wire>::spec_write(m), rest);
            lemma_s2c_packet_roundtrip_login(g, rest);
        },
        S2CPacketModel::LoginPluginRequest(m) => {
            lemma_header_roundtrip(0x04, <S2CLoginPluginRequest as Wire>::spec_write(m), rest);
            lemma_s2c_packet_roundtrip_login(g, rest);
        },
        S2CPacketModel::CustomPayload(m) => {
            lemma_header_roundtrip(0x01, <S2CCustomPayload as Wire>::spec_write(m), rest);
            lemma_s2c_packet_roundtrip_configuration(g, rest);
        },
        S2CPacketModel::DisconnectConfiguration(m) => {
            lemma_header_roundtrip(0x02, <S2CDisconnectConfiguration as Wire>::spec_write(m), rest);
            lemma_s2c_packet_roundtrip_configuration(g, rest);
        },
        S2CPacketModel::FinishConfiguration(m) => {
            lemma_header_roundtrip(0x03, <S2CFinishConfiguration as Wire>::spec_write(m), rest);
            lemma_s2c_packet_roundtrip_configuration(g, rest);
        },
        S2CPacketModel::ConfigurationKeepAlive(m) => {
            lemma_header_roundtrip(0x04, <S2CConfigurationKeepAlive as Wire>::spec_write(m), rest);
            lemma_s2c_packet_roundtrip_configuration(g, rest);
        },
        S2CPacketModel::PingConfiguration(m) => {
            lemma_header_roundtrip(0x05, <S2CPingConfiguration as Wire>::spec_write(m), rest);
            lemma_s2c_packet_roundtrip_configuration(g, rest);
        },
        S2CPacketModel::RegistryData(m) => {
            lemma_header_roundtrip(0x07, <S2CRegistryData as Wire>::spec_write(m), rest);
            lemma_s2c_packet_roundtrip_configuration(g, rest);
        },
        S2CPacketModel::FeatureFlags(m) => {
            lemma_header_roundtrip(0x0C, <S2CFeatureFlags as Wire>::spec_write(m), rest);
            lemma_s2c_packet_roundtrip_configuration(g, rest);
        },
        S2CPacketModel::UpdateTags(m) => {
            lemma_header_roundtrip(0x0D, <S2CUpdateTags as Wire>::spec_write(m), rest);
            lemma_s2c_packet_roundtrip_configuration(g, rest);
        },
        S2CPacketModel::KnownPacks(m) => {
            lemma_header_roundtrip(0x0E, <S2CKnownPacks as Wire>::spec_write(m), rest);
            lemma_s2c_packet_roundtrip_configuration(g, rest);
        },
        S2CPacketModel::DisconnectPlay(m) => {
            lemma_header_roundtrip(0x1A, <S2CDisconnectPlay as Wire>::spec_write(m), rest);
            lemma_s2c_packet_roundtrip_play(g, rest);
        },
        S2CPacketModel::GameEvent(m) => {
            lemma_header_roundtrip(0x22, <S2CGameEvent as Wire>::spec_write(m), rest);
            lemma_s2c_packet_roundtrip_play(g, rest);
        },
        S2CPacketModel::KeepAlive(m) => {
            lemma_header_roundtrip(0x26, <S2CKeepAlive as Wire>::spec_write(m), rest);
            lemma_s2c_packet_roundtrip_play(g, rest);
        },
        S2CPacketModel::LevelChunkWithLight(m) => {
            lemma_header_roundtrip(0x27, <S2CLevelChunkWithLight as Wire>::spec_write(m), rest);
            lemma_s2c_packet_roundtrip_play(g, rest);
        },
        S2CPacketModel::Login(m) => {
            lemma_header_roundtrip(0x2B, <S2CLogin as Wire>::spec_write(m), rest);
            lemma_s2c_packet_roundtrip_play(g, rest);
        },
        S2CPacketModel::PlayerAbilities(m) => {
            lemma_header_roundtrip(0x38, <S2CPlayerAbilities as Wire>::spec_write(m), rest);
            lemma_s2c_packet_roundtrip_play(g, rest);
        },
        S2CPacketModel::PlayerPosition(m) => {
            lemma_header_roundtrip(0x40, <S2CPlayerPosition as Wire>::spec_write(m), rest);
            lemma_s2c_packet_roundtrip_play(g, rest);
        },
        S2CPacketModel::SetChunkCacheCenter(m) => {
            lemma_header_roundtrip(0x54, <S2CSetChunkCacheCenter as Wire>::spec_write(m), rest);
            lemma_s2c_packet_roundtrip_play(g, rest);
        },
        S2CPacketModel::SetChunkCacheRadius(m) => {
            lemma_header_roundtrip(0x55, <S2CSetChunkCacheRadius as Wire>::spec_write(m), rest);
            lemma_s2c_packet_roundtrip_play(g, rest);
        },
        S2CPacketModel::SetDefaultSpawnPosition(m) => {
            lemma_header_roundtrip(0x56, <S2CSetDefaultSpawnPosition as Wire>::spec_write(m), rest);
            lemma_s2c_packet_roundtrip_play(g, rest);
        },
    }
}

} // verus!
