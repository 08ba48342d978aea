//! Client-to-server packets of 1.21.1 and their aggregation.

pub mod handshake;
pub mod status;
pub mod login;
pub mod configuration;
pub mod play;

use vstd::prelude::*;

use crate::codec::Wire;
use crate::error::DecodeError;
use crate::packet::lemma_header_roundtrip;
use crate::state::State;
use crate::varint::{spec_varint_encode, VarInt};
use handshake::C2SHandshake;
use status::{C2SPing, C2SStatusRequest};
use login::{C2SCustomQueryAnswer, C2SHello, C2SKey, C2SLoginAcknowledged, C2SLoginCookieResponse};
use configuration::{C2SClientInformation, C2SConfigurationCustomPayload, C2SConfigurationKeepAlive, C2SCookieResponse, C2SFinishConfiguration, C2SPongConfiguration, C2SResourcePackResponse, C2SSelectKnownPacks};
use play::{C2SAcceptTeleportation, C2SKeepAlive, C2SPlayerFlying, C2SPlayerPos, C2SPlayerPosRot, C2SPlayerRot};

verus! {

/// The client-to-server packets of protocol 767 (MC 1.21.1). Compared with
/// 1.20.1 there is the Configuration state, Login `Hello` and Play `Flying`.
#[derive(Debug)]
pub enum C2SPacket {
    Handshake(C2SHandshake),
    StatusRequest(C2SStatusRequest),
    Ping(C2SPing),
    Hello(C2SHello),
    Key(C2SKey),
    CustomQueryAnswer(C2SCustomQueryAnswer),
    LoginAcknowledged(C2SLoginAcknowledged),
    CookieResponse(C2SLoginCookieResponse),
    ClientInformation(C2SClientInformation),
    ConfigurationCookieResponse(C2SCookieResponse),
    ConfigurationCustomPayload(C2SConfigurationCustomPayload),
    FinishConfigurationAck(C2SFinishConfiguration),
    ConfigurationKeepAlive(C2SConfigurationKeepAlive),
    PongConfiguration(C2SPongConfiguration),
    ResourcePackResponse(C2SResourcePackResponse),
    SelectKnownPacks(C2SSelectKnownPacks),
    AcceptTeleportation(C2SAcceptTeleportation),
    KeepAlive(C2SKeepAlive),
    PlayerPos(C2SPlayerPos),
    PlayerPosRot(C2SPlayerPosRot),
    PlayerRot(C2SPlayerRot),
    PlayerFlying(C2SPlayerFlying),
}

/// The models of the variants of [`C2SPacket`].
pub ghost enum C2SPacketModel {
    Handshake(<C2SHandshake as Wire>::Model),
    StatusRequest(<C2SStatusRequest as Wire>::Model),
    Ping(<C2SPing as Wire>::Model),
    Hello(<C2SHello as Wire>::Model),
    Key(<C2SKey as Wire>::Model),
    CustomQueryAnswer(<C2SCustomQueryAnswer as Wire>::Model),
    LoginAcknowledged(<C2SLoginAcknowledged as Wire>::Model),
    CookieResponse(<C2SLoginCookieResponse as Wire>::Model),
    ClientInformation(<C2SClientInformation as Wire>::Model),
    ConfigurationCookieResponse(<C2SCookieResponse as Wire>::Model),
    ConfigurationCustomPayload(<C2SConfigurationCustomPayload as Wire>::Model),
    FinishConfigurationAck(<C2SFinishConfiguration as Wire>::Model),
    ConfigurationKeepAlive(<C2SConfigurationKeepAlive as Wire>::Model),
    PongConfiguration(<C2SPongConfiguration as Wire>::Model),
    ResourcePackResponse(<C2SResourcePackResponse as Wire>::Model),
    SelectKnownPacks(<C2SSelectKnownPacks as Wire>::Model),
    AcceptTeleportation(<C2SAcceptTeleportation as Wire>::Model),
    KeepAlive(<C2SKeepAlive as Wire>::Model),
    PlayerPos(<C2SPlayerPos as Wire>::Model),
    PlayerPosRot(<C2SPlayerPosRot as Wire>::Model),
    PlayerRot(<C2SPlayerRot as Wire>::Model),
    PlayerFlying(<C2SPlayerFlying as Wire>::Model),
}

/// A [`C2SHandshake`] is the [`C2SPacket::Handshake`] packet.
impl From<C2SHandshake> for C2SPacket {
    fn from(p: C2SHandshake) -> (r: C2SPacket) {
        C2SPacket::Handshake(p)
    }
}

impl vstd::std_specs::convert::FromSpecImpl<C2SHandshake> for C2SPacket {
    open spec fn obeys_from_spec() -> bool {
        true
    }

    open spec fn from_spec(p: C2SHandshake) -> C2SPacket {
        C2SPacket::Handshake(p)
    }
}

/// A [`C2SStatusRequest`] is the [`C2SPacket::StatusRequest`] packet.
impl From<C2SStatusRequest> for C2SPacket {
    fn from(p: C2SStatusRequest) -> (r: C2SPacket) {
        C2SPacket::StatusRequest(p)
    }
}

impl vstd::std_specs::convert::FromSpecImpl<C2SStatusRequest> for C2SPacket {
    open spec fn obeys_from_spec() -> bool {
        true
    }

    open spec fn from_spec(p: C2SStatusRequest) -> C2SPacket {
        C2SPacket::StatusRequest(p)
    }
}

/// A [`C2SPing`] is the [`C2SPacket::Ping`] packet.
impl From<C2SPing> for C2SPacket {
    fn from(p: C2SPing) -> (r: C2SPacket) {
        C2SPacket::Ping(p)
    }
}

impl vstd::std_specs::convert::FromSpecImpl<C2SPing> for C2SPacket {
    open spec fn obeys_from_spec() -> bool {
        true
    }

    open spec fn from_spec(p: C2SPing) -> C2SPacket {
        C2SPacket::Ping(p)
    }
}

/// A [`C2SHello`] is the [`C2SPacket::Hello`] packet.
impl From<C2SHello> for C2SPacket {
    fn from(p: C2SHello) -> (r: C2SPacket) {
        C2SPacket::Hello(p)
    }
}

impl vstd::std_specs::convert::FromSpecImpl<C2SHello> for C2SPacket {
    open spec fn obeys_from_spec() -> bool {
        true
    }

    open spec fn from_spec(p: C2SHello) -> C2SPacket {
        C2SPacket::Hello(p)
    }
}

/// A [`C2SKey`] is the [`C2SPacket::Key`] packet.
impl From<C2SKey> for C2SPacket {
    fn from(p: C2SKey) -> (r: C2SPacket) {
        C2SPacket::Key(p)
    }
}

impl vstd::std_specs::convert::FromSpecImpl<C2SKey> for C2SPacket {
    open spec fn obeys_from_spec() -> bool {
        true
    }

    open spec fn from_spec(p: C2SKey) -> C2SPacket {
        C2SPacket::Key(p)
    }
}

/// A [`C2SCustomQueryAnswer`] is the [`C2SPacket::CustomQueryAnswer`] packet.
impl From<C2SCustomQueryAnswer> for C2SPacket {
    fn from(p: C2SCustomQueryAnswer) -> (r: C2SPacket) {
        C2SPacket::CustomQueryAnswer(p)
    }
}

impl vstd::std_specs::convert::FromSpecImpl<C2SCustomQueryAnswer> for C2SPacket {
    open spec fn obeys_from_spec() -> bool {
        true
    }

    open spec fn from_spec(p: C2SCustomQueryAnswer) -> C2SPacket {
        C2SPacket::CustomQueryAnswer(p)
    }
}

/// A [`C2SLoginAcknowledged`] is the [`C2SPacket::LoginAcknowledged`] packet.
impl From<C2SLoginAcknowledged> for C2SPacket {
    fn from(p: C2SLoginAcknowledged) -> (r: C2SPacket) {
        C2SPacket::LoginAcknowledged(p)
    }
}

impl vstd::std_specs::convert::FromSpecImpl<C2SLoginAcknowledged> for C2SPacket {
    open spec fn obeys_from_spec() -> bool {
        true
    }

    open spec fn from_spec(p: C2SLoginAcknowledged) -> C2SPacket {
        C2SPacket::LoginAcknowledged(p)
    }
}

/// A [`C2SLoginCookieResponse`] is the [`C2SPacket::CookieResponse`] packet.
impl From<C2SLoginCookieResponse> for C2SPacket {
    fn from(p: C2SLoginCookieResponse) -> (r: C2SPacket) {
        C2SPacket::CookieResponse(p)
    }
}

impl vstd::std_specs::convert::FromSpecImpl<C2SLoginCookieResponse> for C2SPacket {
    open spec fn obeys_from_spec() -> bool {
        true
    }

    open spec fn from_spec(p: C2SLoginCookieResponse) -> C2SPacket {
        C2SPacket::CookieResponse(p)
    }
}

/// A [`C2SClientInformation`] is the [`C2SPacket::ClientInformation`] packet.
impl From<C2SClientInformation> for C2SPacket {
    fn from(p: C2SClientInformation) -> (r: C2SPacket) {
        C2SPacket::ClientInformation(p)
    }
}

impl vstd::std_specs::convert::FromSpecImpl<C2SClientInformation> for C2SPacket {
    open spec fn obeys_from_spec() -> bool {
        true
    }

    open spec fn from_spec(p: C2SClientInformation) -> C2SPacket {
        C2SPacket::ClientInformation(p)
    }
}

/// A [`C2SCookieResponse`] is the [`C2SPacket::ConfigurationCookieResponse`] packet.
impl From<C2SCookieResponse> for C2SPacket {
    fn from(p: C2SCookieResponse) -> (r: C2SPacket) {
        C2SPacket::ConfigurationCookieResponse(p)
    }
}

impl vstd::std_specs::convert::FromSpecImpl<C2SCookieResponse> for C2SPacket {
    open spec fn obeys_from_spec() -> bool {
        true
    }

    open spec fn from_spec(p: C2SCookieResponse) -> C2SPacket {
        C2SPacket::ConfigurationCookieResponse(p)
    }
}

/// A [`C2SConfigurationCustomPayload`] is the [`C2SPacket::ConfigurationCustomPayload`] packet.
impl From<C2SConfigurationCustomPayload> for C2SPacket {
    fn from(p: C2SConfigurationCustomPayload) -> (r: C2SPacket) {
        C2SPacket::ConfigurationCustomPayload(p)
    }
}

impl vstd::std_specs::convert::FromSpecImpl<C2SConfigurationCustomPayload> for C2SPacket {
    open spec fn obeys_from_spec() -> bool {
        true
    }

    open spec fn from_spec(p: C2SConfigurationCustomPayload) -> C2SPacket {
        C2SPacket::ConfigurationCustomPayload(p)
    }
}

/// A [`C2SFinishConfiguration`] is the [`C2SPacket::FinishConfigurationAck`] packet.
impl From<C2SFinishConfiguration> for C2SPacket {
    fn from(p: C2SFinishConfiguration) -> (r: C2SPacket) {
        C2SPacket::FinishConfigurationAck(p)
    }
}

impl vstd::std_specs::convert::FromSpecImpl<C2SFinishConfiguration> for C2SPacket {
    open spec fn obeys_from_spec() -> bool {
        true
    }

    open spec fn from_spec(p: C2SFinishConfiguration) -> C2SPacket {
        C2SPacket::FinishConfigurationAck(p)
    }
}

/// A [`C2SConfigurationKeepAlive`] is the [`C2SPacket::ConfigurationKeepAlive`] packet.
impl From<C2SConfigurationKeepAlive> for C2SPacket {
    fn from(p: C2SConfigurationKeepAlive) -> (r: C2SPacket) {
        C2SPacket::ConfigurationKeepAlive(p)
    }
}

impl vstd::std_specs::convert::FromSpecImpl<C2SConfigurationKeepAlive> for C2SPacket {
    open spec fn obeys_from_spec() -> bool {
        true
    }

    open spec fn from_spec(p: C2SConfigurationKeepAlive) -> C2SPacket {
        C2SPacket::ConfigurationKeepAlive(p)
    }
}

/// A [`C2SPongConfiguration`] is the [`C2SPacket::PongConfiguration`] packet.
impl From<C2SPongConfiguration> for C2SPacket {
    fn from(p: C2SPongConfiguration) -> (r: C2SPacket) {
        C2SPacket::PongConfiguration(p)
    }
}

impl vstd::std_specs::convert::FromSpecImpl<C2SPongConfiguration> for C2SPacket {
    open spec fn obeys_from_spec() -> bool {
        true
    }

    open spec fn from_spec(p: C2SPongConfiguration) -> C2SPacket {
        C2SPacket::PongConfiguration(p)
    }
}

/// A [`C2SResourcePackResponse`] is the [`C2SPacket::ResourcePackResponse`] packet.
impl From<C2SResourcePackResponse> for C2SPacket {
    fn from(p: C2SResourcePackResponse) -> (r: C2SPacket) {
        C2SPacket::ResourcePackResponse(p)
    }
}

impl vstd::std_specs::convert::FromSpecImpl<C2SResourcePackResponse> for C2SPacket {
    open spec fn obeys_from_spec() -> bool {
        true
    }

    open spec fn from_spec(p: C2SResourcePackResponse) -> C2SPacket {
        C2SPacket::ResourcePackResponse(p)
    }
}

/// A [`C2SSelectKnownPacks`] is the [`C2SPacket::SelectKnownPacks`] packet.
impl From<C2SSelectKnownPacks> for C2SPacket {
    fn from(p: C2SSelectKnownPacks) -> (r: C2SPacket) {
        C2SPacket::SelectKnownPacks(p)
    }
}

impl vstd::std_specs::convert::FromSpecImpl<C2SSelectKnownPacks> for C2SPacket {
    open spec fn obeys_from_spec() -> bool {
        true
    }

    open spec fn from_spec(p: C2SSelectKnownPacks) -> C2SPacket {
        C2SPacket::SelectKnownPacks(p)
    }
}

/// A [`C2SAcceptTeleportation`] is the [`C2SPacket::AcceptTeleportation`] packet.
impl From<C2SAcceptTeleportation> for C2SPacket {
    fn from(p: C2SAcceptTeleportation) -> (r: C2SPacket) {
        C2SPacket::AcceptTeleportation(p)
    }
}

impl vstd::std_specs::convert::FromSpecImpl<C2SAcceptTeleportation> for C2SPacket {
    open spec fn obeys_from_spec() -> bool {
        true
    }

    open spec fn from_spec(p: C2SAcceptTeleportation) -> C2SPacket {
        C2SPacket::AcceptTeleportation(p)
    }
}

/// A [`C2SKeepAlive`] is the [`C2SPacket::KeepAlive`] packet.
impl From<C2SKeepAlive> for C2SPacket {
    fn from(p: C2SKeepAlive) -> (r: C2SPacket) {
        C2SPacket::KeepAlive(p)
    }
}

impl vstd::std_specs::convert::FromSpecImpl<C2SKeepAlive> for C2SPacket {
    open spec fn obeys_from_spec() -> bool {
        true
    }

    open spec fn from_spec(p: C2SKeepAlive) -> C2SPacket {
        C2SPacket::KeepAlive(p)
    }
}

/// A [`C2SPlayerPos`] is the [`C2SPacket::PlayerPos`] packet.
impl From<C2SPlayerPos> for C2SPacket {
    fn from(p: C2SPlayerPos) -> (r: C2SPacket) {
        C2SPacket::PlayerPos(p)
    }
}

impl vstd::std_specs::convert::FromSpecImpl<C2SPlayerPos> for C2SPacket {
    open spec fn obeys_from_spec() -> bool {
        true
    }

    open spec fn from_spec(p: C2SPlayerPos) -> C2SPacket {
        C2SPacket::PlayerPos(p)
    }
}

/// A [`C2SPlayerPosRot`] is the [`C2SPacket::PlayerPosRot`] packet.
impl From<C2SPlayerPosRot> for C2SPacket {
    fn from(p: C2SPlayerPosRot) -> (r: C2SPacket) {
        C2SPacket::PlayerPosRot(p)
    }
}

impl vstd::std_specs::convert::FromSpecImpl<C2SPlayerPosRot> for C2SPacket {
    open spec fn obeys_from_spec() -> bool {
        true
    }

    open spec fn from_spec(p: C2SPlayerPosRot) -> C2SPacket {
        C2SPacket::PlayerPosRot(p)
    }
}

/// A [`C2SPlayerRot`] is the [`C2SPacket::PlayerRot`] packet.
impl From<C2SPlayerRot> for C2SPacket {
    fn from(p: C2SPlayerRot) -> (r: C2SPacket) {
        C2SPacket::PlayerRot(p)
    }
}

impl vstd::std_specs::convert::FromSpecImpl<C2SPlayerRot> for C2SPacket {
    open spec fn obeys_from_spec() -> bool {
        true
    }

    open spec fn from_spec(p: C2SPlayerRot) -> C2SPacket {
        C2SPacket::PlayerRot(p)
    }
}

/// A [`C2SPlayerFlying`] is the [`C2SPacket::PlayerFlying`] packet.
impl From<C2SPlayerFlying> for C2SPacket {
    fn from(p: C2SPlayerFlying) -> (r: C2SPacket) {
        C2SPacket::PlayerFlying(p)
    }
}

impl vstd::std_specs::convert::FromSpecImpl<C2SPlayerFlying> for C2SPacket {
    open spec fn obeys_from_spec() -> bool {
        true
    }

    open spec fn from_spec(p: C2SPlayerFlying) -> C2SPacket {
        C2SPacket::PlayerFlying(p)
    }
}

impl C2SPacket {
    /// The model of this packet.
    pub open spec fn model(&self) -> C2SPacketModel {
        match self {
            C2SPacket::Handshake(p) => C2SPacketModel::Handshake(p.model()),
            C2SPacket::StatusRequest(p) => C2SPacketModel::StatusRequest(p.model()),
            C2SPacket::Ping(p) => C2SPacketModel::Ping(p.model()),
            C2SPacket::Hello(p) => C2SPacketModel::Hello(p.model()),
            C2SPacket::Key(p) => C2SPacketModel::Key(p.model()),
            C2SPacket::CustomQueryAnswer(p) => C2SPacketModel::CustomQueryAnswer(p.model()),
            C2SPacket::LoginAcknowledged(p) => C2SPacketModel::LoginAcknowledged(p.model()),
            C2SPacket::CookieResponse(p) => C2SPacketModel::CookieResponse(p.model()),
            C2SPacket::ClientInformation(p) => C2SPacketModel::ClientInformation(p.model()),
            C2SPacket::ConfigurationCookieResponse(p) => C2SPacketModel::ConfigurationCookieResponse(p.model()),
            C2SPacket::ConfigurationCustomPayload(p) => C2SPacketModel::ConfigurationCustomPayload(p.model()),
            C2SPacket::FinishConfigurationAck(p) => C2SPacketModel::FinishConfigurationAck(p.model()),
            C2SPacket::ConfigurationKeepAlive(p) => C2SPacketModel::ConfigurationKeepAlive(p.model()),
            C2SPacket::PongConfiguration(p) => C2SPacketModel::PongConfiguration(p.model()),
            C2SPacket::ResourcePackResponse(p) => C2SPacketModel::ResourcePackResponse(p.model()),
            C2SPacket::SelectKnownPacks(p) => C2SPacketModel::SelectKnownPacks(p.model()),
            C2SPacket::AcceptTeleportation(p) => C2SPacketModel::AcceptTeleportation(p.model()),
            C2SPacket::KeepAlive(p) => C2SPacketModel::KeepAlive(p.model()),
            C2SPacket::PlayerPos(p) => C2SPacketModel::PlayerPos(p.model()),
            C2SPacket::PlayerPosRot(p) => C2SPacketModel::PlayerPosRot(p.model()),
            C2SPacket::PlayerRot(p) => C2SPacketModel::PlayerRot(p.model()),
            C2SPacket::PlayerFlying(p) => C2SPacketModel::PlayerFlying(p.model()),
        }
    }

    /// Decodes a packet from `buf`: its leading `VarInt` id, then the fields
    /// of the variant whose state is `state` and whose id is that id. Ids are
    /// reused across states, so the state decides between them.
    pub fn decode_in_state(state: State, buf: &[u8]) -> (r: Result<C2SPacket, DecodeError>)
        ensures
            match spec_decode_c2s_packet(state, buf@) {
                Ok(m) => r matches Ok(p) && p.model() == m,
                Err(e) => r == Err::<C2SPacket, DecodeError>(e),
            },
    {
        assert(buf@.skip(0) =~= buf@);
        let (id, p) = match <VarInt as Wire>::read(buf, 0) {
            Ok(x) => x,
            Err(e) => return Err(e),
        };
        match state {
            State::Handshake => Self::decode_handshake(id.0, buf, p),
            State::Status => Self::decode_status(id.0, buf, p),
            State::Login => Self::decode_login(id.0, buf, p),
            State::Configuration => Self::decode_configuration(id.0, buf, p),
            State::Play => Self::decode_play(id.0, buf, p),
        }
    }

    fn decode_handshake(id: i32, buf: &[u8], p: usize) -> (r: Result<C2SPacket, DecodeError>)
        requires
            p <= buf@.len(),
        ensures
            match spec_decode_c2s_packet_handshake(id, buf@.skip(p as int)) {
                Ok(m) => r matches Ok(x) && x.model() == m,
                Err(e) => r == Err::<C2SPacket, DecodeError>(e),
            },
    {
        if id == 0x00 {
            match <C2SHandshake as Wire>::read(buf, p) {
                Ok((x, _)) => Ok(C2SPacket::Handshake(x)),
                Err(e) => Err(e),
            }
        } else {
            Err(DecodeError::UnknownPacket)
        }
    }

    fn decode_status(id: i32, buf: &[u8], p: usize) -> (r: Result<C2SPacket, DecodeError>)
        requires
            p <= buf@.len(),
        ensures
            match spec_decode_c2s_packet_status(id, buf@.skip(p as int)) {
                Ok(m) => r matches Ok(x) && x.model() == m,
                Err(e) => r == Err::<C2SPacket, DecodeError>(e),
            },
    {
        if id == 0x00 {
            match <C2SStatusRequest as Wire>::read(buf, p) {
                Ok((x, _)) => Ok(C2SPacket::StatusRequest(x)),
                Err(e) => Err(e),
            }
        } else if id == 0x01 {
            match <C2SPing as Wire>::read(buf, p) {
                Ok((x, _)) => Ok(C2SPacket::Ping(x)),
                Err(e) => Err(e),
            }
        } else {
            Err(DecodeError::UnknownPacket)
        }
    }

    fn decode_login(id: i32, buf: &[u8], p: usize) -> (r: Result<C2SPacket, DecodeError>)
        requires
            p <= buf@.len(),
        ensures
            match spec_decode_c2s_packet_login(id, buf@.skip(p as int)) {
                Ok(m) => r matches Ok(x) && x.model() == m,
                Err(e) => r == Err::<C2SPacket, DecodeError>(e),
            },
    {
        if id == 0x00 {
            match <C2SHello as Wire>::read(buf, p) {
                Ok((x, _)) => Ok(C2SPacket::Hello(x)),
                Err(e) => Err(e),
            }
        } else if id == 0x01 {
            match <C2SKey as Wire>::read(buf, p) {
                Ok((x, _)) => Ok(C2SPacket::Key(x)),
                Err(e) => Err(e),
            }
        } else if id == 0x02 {
            match <C2SCustomQueryAnswer as Wire>::read(buf, p) {
                Ok((x, _)) => Ok(C2SPacket::CustomQueryAnswer(x)),
                Err(e) => Err(e),
            }
        } else if id == 0x03 {
            match <C2SLoginAcknowledged as Wire>::read(buf, p) {
                Ok((x, _)) => Ok(C2SPacket::LoginAcknowledged(x)),
                Err(e) => Err(e),
            }
        } else if id == 0x04 {
            match <C2SLoginCookieResponse as Wire>::read(buf, p) {
                Ok((x, _)) => Ok(C2SPacket::CookieResponse(x)),
                Err(e) => Err(e),
            }
        } else {
            Err(DecodeError::UnknownPacket)
        }
    }

    fn decode_configuration(id: i32, buf: &[u8], p: usize) -> (r: Result<C2SPacket, DecodeError>)
        requires
            p <= buf@.len(),
        ensures
            match spec_decode_c2s_packet_configuration(id, buf@.skip(p as int)) {
                Ok(m) => r matches Ok(x) && x.model() == m,
                Err(e) => r == Err::<C2SPacket, DecodeError>(e),
            },
    {
        if id < 0x06 {
            Self::decode_configuration_0(id, buf, p)
        } else {
            Self::decode_configuration_1(id, buf, p)
        }
    }

    fn decode_configuration_0(id: i32, buf: &[u8], p: usize) -> (r: Result<C2SPacket, DecodeError>)
        requires
            p <= buf@.len(),
        ensures
            match spec_decode_c2s_packet_configuration_0(id, buf@.skip(p as int)) {
                Ok(m) => r matches Ok(x) && x.model() == m,
                Err(e) => r == Err::<C2SPacket, DecodeError>(e),
            },
    {
        if id == 0x00 {
            match <C2SClientInformation as Wire>::read(buf, p) {
                Ok((x, _)) => Ok(C2SPacket::ClientInformation(x)),
                Err(e) => Err(e),
            }
        } else if id == 0x01 {
            match <C2SCookieResponse as Wire>::read(buf, p) {
                Ok((x, _)) => Ok(C2SPacket::ConfigurationCookieResponse(x)),
                Err(e) => Err(e),
            }
        } else if id == 0x02 {
            match <C2SConfigurationCustomPayload as Wire>::read(buf, p) {
                Ok((x, _)) => Ok(C2SPacket::ConfigurationCustomPayload(x)),
                Err(e) => Err(e),
            }
        } else if id == 0x03 {
            match <C2SFinishConfiguration as Wire>::read(buf, p) {
                Ok((x, _)) => Ok(C2SPacket::FinishConfigurationAck(x)),
                Err(e) => Err(e),
            }
        } else if id == 0x04 {
            match <C2SConfigurationKeepAlive as Wire>::read(buf, p) {
                Ok((x, _)) => Ok(C2SPacket::ConfigurationKeepAlive(x)),
                Err(e) => Err(e),
            }
        } else if id == 0x05 {
            match <C2SPongConfiguration as Wire>::read(buf, p) {
                Ok((x, _)) => Ok(C2SPacket::PongConfiguration(x)),
                Err(e) => Err(e),
            }
        } else {
            Err(DecodeError::UnknownPacket)
        }
    }

    fn decode_configuration_1(id: i32, buf: &[u8], p: usize) -> (r: Result<C2SPacket, DecodeError>)
        requires
            p <= buf@.len(),
        ensures
            match spec_decode_c2s_packet_configuration_1(id, buf@.skip(p as int)) {
                Ok(m) => r matches Ok(x) && x.model() == m,
                Err(e) => r == Err::<C2SPacket, DecodeError>(e),
            },
    {
        if id == 0x06 {
            match <C2SResourcePackResponse as Wire>::read(buf, p) {
                Ok((x, _)) => Ok(C2SPacket::ResourcePackResponse(x)),
                Err(e) => Err(e),
            }
        } else if id == 0x07 {
            match <C2SSelectKnownPacks as Wire>::read(buf, p) {
                Ok((x, _)) => Ok(C2SPacket::SelectKnownPacks(x)),
                Err(e) => Err(e),
            }
        } else {
            Err(DecodeError::UnknownPacket)
        }
    }

    fn decode_play(id: i32, buf: &[u8], p: usize) -> (r: Result<C2SPacket, DecodeError>)
        requires
            p <= buf@.len(),
        ensures
            match spec_decode_c2s_packet_play(id, buf@.skip(p as int)) {
                Ok(m) => r matches Ok(x) && x.model() == m,
                Err(e) => r == Err::<C2SPacket, DecodeError>(e),
            },
    {
        if id == 0x00 {
            match <C2SAcceptTeleportation as Wire>::read(buf, p) {
                Ok((x, _)) => Ok(C2SPacket::AcceptTeleportation(x)),
                Err(e) => Err(e),
            }
        } else if id == 0x18 {
            match <C2SKeepAlive as Wire>::read(buf, p) {
                Ok((x, _)) => Ok(C2SPacket::KeepAlive(x)),
                Err(e) => Err(e),
            }
        } else if id == 0x14 {
            match <C2SPlayerPos as Wire>::read(buf, p) {
                Ok((x, _)) => Ok(C2SPacket::PlayerPos(x)),
                Err(e) => Err(e),
            }
        } else if id == 0x15 {
            match <C2SPlayerPosRot as Wire>::read(buf, p) {
                Ok((x, _)) => Ok(C2SPacket::PlayerPosRot(x)),
                Err(e) => Err(e),
            }
        } else if id == 0x16 {
            match <C2SPlayerRot as Wire>::read(buf, p) {
                Ok((x, _)) => Ok(C2SPacket::PlayerRot(x)),
                Err(e) => Err(e),
            }
        } else if id == 0x17 {
            match <C2SPlayerFlying as Wire>::read(buf, p) {
                Ok((x, _)) => Ok(C2SPacket::PlayerFlying(x)),
                Err(e) => Err(e),
            }
        } else {
            Err(DecodeError::UnknownPacket)
        }
    }

}

/// What decoding a packet of [`C2SPacket`] from `s` in `state` gives: the
/// leading `VarInt` id, then the fields of the packet that the state and id
/// stand for.
pub open spec fn spec_decode_c2s_packet(state: State, s: Seq<u8>) -> Result<C2SPacketModel, DecodeError> {
    match <VarInt as Wire>::spec_read(s) {
        Ok((id, n)) => match state {
            State::Handshake => spec_decode_c2s_packet_handshake(id, s.skip(n as int)),
            State::Status => spec_decode_c2s_packet_status(id, s.skip(n as int)),
            State::Login => spec_decode_c2s_packet_login(id, s.skip(n as int)),
            State::Configuration => spec_decode_c2s_packet_configuration(id, s.skip(n as int)),
            State::Play => spec_decode_c2s_packet_play(id, s.skip(n as int)),
        },
        Err(e) => Err(e),
    }
}

/// What the fields after id `id` decode to in the Handshake state.
pub open spec fn spec_decode_c2s_packet_handshake(id: i32, body: Seq<u8>) -> Result<C2SPacketModel, DecodeError> {
    if id == 0x00 {
        match <C2SHandshake as Wire>::spec_read(body) {
            Ok((m, _)) => Ok(C2SPacketModel::Handshake(m)),
            Err(e) => Err(e),
        }
    } else {
        Err(DecodeError::UnknownPacket)
    }
}

/// What the fields after id `id` decode to in the Status state.
pub open spec fn spec_decode_c2s_packet_status(id: i32, body: Seq<u8>) -> Result<C2SPacketModel, DecodeError> {
    if id == 0x00 {
        match <C2SStatusRequest as Wire>::spec_read(body) {
            Ok((m, _)) => Ok(C2SPacketModel::StatusRequest(m)),
            Err(e) => Err(e),
        }
    } else if id == 0x01 {
        match <C2SPing as Wire>::spec_read(body) {
            Ok((m, _)) => Ok(C2SPacketModel::Ping(m)),
            Err(e) => Err(e),
        }
    } else {
        Err(DecodeError::UnknownPacket)
    }
}

/// What the fields after id `id` decode to in the Login state.
pub open spec fn spec_decode_c2s_packet_login(id: i32, body: Seq<u8>) -> Result<C2SPacketModel, DecodeError> {
    if id == 0x00 {
        match <C2SHello as Wire>::spec_read(body) {
            Ok((m, _)) => Ok(C2SPacketModel::Hello(m)),
            Err(e) => Err(e),
        }
    } else if id == 0x01 {
        match <C2SKey as Wire>::spec_read(body) {
            Ok((m, _)) => Ok(C2SPacketModel::Key(m)),
            Err(e) => Err(e),
        }
    } else if id == 0x02 {
        match <C2SCustomQueryAnswer as Wire>::spec_read(body) {
            Ok((m, _)) => Ok(C2SPacketModel::CustomQueryAnswer(m)),
            Err(e) => Err(e),
        }
    } else if id == 0x03 {
        match <C2SLoginAcknowledged as Wire>::spec_read(body) {
            Ok((m, _)) => Ok(C2SPacketModel::LoginAcknowledged(m)),
            Err(e) => Err(e),
        }
    } else if id == 0x04 {
        match <C2SLoginCookieResponse as Wire>::spec_read(body) {
            Ok((m, _)) => Ok(C2SPacketModel::CookieResponse(m)),
            Err(e) => Err(e),
        }
    } else {
        Err(DecodeError::UnknownPacket)
    }
}

/// What the fields after id `id` decode to in the Configuration state.
pub open spec fn spec_decode_c2s_packet_configuration(id: i32, body: Seq<u8>) -> Result<C2SPacketModel, DecodeError> {
    if id < 0x06 {
        spec_decode_c2s_packet_configuration_0(id, body)
    } else {
        spec_decode_c2s_packet_configuration_1(id, body)
    }
}

/// The Configuration packets with ids from 0x00 to 0x05.
pub open spec fn spec_decode_c2s_packet_configuration_0(id: i32, body: Seq<u8>) -> Result<C2SPacketModel, DecodeError> {
    if id == 0x00 {
        match <C2SClientInformation as Wire>::spec_read(body) {
            Ok((m, _)) => Ok(C2SPacketModel::ClientInformation(m)),
            Err(e) => Err(e),
        }
    } else if id == 0x01 {
        match <C2SCookieResponse as Wire>::spec_read(body) {
            Ok((m, _)) => Ok(C2SPacketModel::ConfigurationCookieResponse(m)),
            Err(e) => Err(e),
        }
    } else if id == 0x02 {
        match <C2SConfigurationCustomPayload as Wire>::spec_read(body) {
            Ok((m, _)) => Ok(C2SPacketModel::ConfigurationCustomPayload(m)),
            Err(e) => Err(e),
        }
    } else if id == 0x03 {
        match <C2SFinishConfiguration as Wire>::spec_read(body) {
            Ok((m, _)) => Ok(C2SPacketModel::FinishConfigurationAck(m)),
            Err(e) => Err(e),
        }
    } else if id == 0x04 {
        match <C2SConfigurationKeepAlive as Wire>::spec_read(body) {
            Ok((m, _)) => Ok(C2SPacketModel::ConfigurationKeepAlive(m)),
            Err(e) => Err(e),
        }
    } else if id == 0x05 {
        match <C2SPongConfiguration as Wire>::spec_read(body) {
            Ok((m, _)) => Ok(C2SPacketModel::PongConfiguration(m)),
            Err(e) => Err(e),
        }
    } else {
        Err(DecodeError::UnknownPacket)
    }
}

/// The Configuration packets with ids from 0x06 to 0x07.
pub open spec fn spec_decode_c2s_packet_configuration_1(id: i32, body: Seq<u8>) -> Result<C2SPacketModel, DecodeError> {
    if id == 0x06 {
        match <C2SResourcePackResponse as Wire>::spec_read(body) {
            Ok((m, _)) => Ok(C2SPacketModel::ResourcePackResponse(m)),
            Err(e) => Err(e),
        }
    } else if id == 0x07 {
        match <C2SSelectKnownPacks as Wire>::spec_read(body) {
            Ok((m, _)) => Ok(C2SPacketModel::SelectKnownPacks(m)),
            Err(e) => Err(e),
        }
    } else {
        Err(DecodeError::UnknownPacket)
    }
}

/// What the fields after id `id` decode to in the Play state.
pub open spec fn spec_decode_c2s_packet_play(id: i32, body: Seq<u8>) -> Result<C2SPacketModel, DecodeError> {
    if id == 0x00 {
        match <C2SAcceptTeleportation as Wire>::spec_read(body) {
            Ok((m, _)) => Ok(C2SPacketModel::AcceptTeleportation(m)),
            Err(e) => Err(e),
        }
    } else if id == 0x18 {
        match <C2SKeepAlive as Wire>::spec_read(body) {
            Ok((m, _)) => Ok(C2SPacketModel::KeepAlive(m)),
            Err(e) => Err(e),
        }
    } else if id == 0x14 {
        match <C2SPlayerPos as Wire>::spec_read(body) {
            Ok((m, _)) => Ok(C2SPacketModel::PlayerPos(m)),
            Err(e) => Err(e),
        }
    } else if id == 0x15 {
        match <C2SPlayerPosRot as Wire>::spec_read(body) {
            Ok((m, _)) => Ok(C2SPacketModel::PlayerPosRot(m)),
            Err(e) => Err(e),
        }
    } else if id == 0x16 {
        match <C2SPlayerRot as Wire>::spec_read(body) {
            Ok((m, _)) => Ok(C2SPacketModel::PlayerRot(m)),
            Err(e) => Err(e),
        }
    } else if id == 0x17 {
        match <C2SPlayerFlying as Wire>::spec_read(body) {
            Ok((m, _)) => Ok(C2SPacketModel::PlayerFlying(m)),
            Err(e) => Err(e),
        }
    } else {
        Err(DecodeError::UnknownPacket)
    }
}

/// The bytes of a packet of the group: its id, then its fields.
pub open spec fn spec_encode_c2s_packet(g: C2SPacketModel) -> Seq<u8> {
    match g {
        C2SPacketModel::Handshake(m) => spec_varint_encode(0x00) + <C2SHandshake as Wire>::spec_write(m),
        C2SPacketModel::StatusRequest(m) => spec_varint_encode(0x00) + <C2SStatusRequest as Wire>::spec_write(m),
        C2SPacketModel::Ping(m) => spec_varint_encode(0x01) + <C2SPing as Wire>::spec_write(m),
        C2SPacketModel::Hello(m) => spec_varint_encode(0x00) + <C2SHello as Wire>::spec_write(m),
        C2SPacketModel::Key(m) => spec_varint_encode(0x01) + <C2SKey as Wire>::spec_write(m),
        C2SPacketModel::CustomQueryAnswer(m) => spec_varint_encode(0x02) + <C2SCustomQueryAnswer as Wire>::spec_write(m),
        C2SPacketModel::LoginAcknowledged(m) => spec_varint_encode(0x03) + <C2SLoginAcknowledged as Wire>::spec_write(m),
        C2SPacketModel::CookieResponse(m) => spec_varint_encode(0x04) + <C2SLoginCookieResponse as Wire>::spec_write(m),
        C2SPacketModel::ClientInformation(m) => spec_varint_encode(0x00) + <C2SClientInformation as Wire>::spec_write(m),
        C2SPacketModel::ConfigurationCookieResponse(m) => spec_varint_encode(0x01) + <C2SCookieResponse as Wire>::spec_write(m),
        C2SPacketModel::ConfigurationCustomPayload(m) => spec_varint_encode(0x02) + <C2SConfigurationCustomPayload as Wire>::spec_write(m),
        C2SPacketModel::FinishConfigurationAck(m) => spec_varint_encode(0x03) + <C2SFinishConfiguration as Wire>::spec_write(m),
        C2SPacketModel::ConfigurationKeepAlive(m) => spec_varint_encode(0x04) + <C2SConfigurationKeepAlive as Wire>::spec_write(m),
        C2SPacketModel::PongConfiguration(m) => spec_varint_encode(0x05) + <C2SPongConfiguration as Wire>::spec_write(m),
        C2SPacketModel::ResourcePackResponse(m) => spec_varint_encode(0x06) + <C2SResourcePackResponse as Wire>::spec_write(m),
        C2SPacketModel::SelectKnownPacks(m) => spec_varint_encode(0x07) + <C2SSelectKnownPacks as Wire>::spec_write(m),
        C2SPacketModel::AcceptTeleportation(m) => spec_varint_encode(0x00) + <C2SAcceptTeleportation as Wire>::spec_write(m),
        C2SPacketModel::KeepAlive(m) => spec_varint_encode(0x18) + <C2SKeepAlive as Wire>::spec_write(m),
        C2SPacketModel::PlayerPos(m) => spec_varint_encode(0x14) + <C2SPlayerPos as Wire>::spec_write(m),
        C2SPacketModel::PlayerPosRot(m) => spec_varint_encode(0x15) + <C2SPlayerPosRot as Wire>::spec_write(m),
        C2SPacketModel::PlayerRot(m) => spec_varint_encode(0x16) + <C2SPlayerRot as Wire>::spec_write(m),
        C2SPacketModel::PlayerFlying(m) => spec_varint_encode(0x17) + <C2SPlayerFlying as Wire>::spec_write(m),
    }
}

/// The state a packet of the group belongs to.
pub open spec fn state_of_c2s_packet(g: C2SPacketModel) -> State {
    match g {
        C2SPacketModel::Handshake(m) => State::Handshake,
        C2SPacketModel::StatusRequest(m) => State::Status,
        C2SPacketModel::Ping(m) => State::Status,
        C2SPacketModel::Hello(m) => State::Login,
        C2SPacketModel::Key(m) => State::Login,
        C2SPacketModel::CustomQueryAnswer(m) => State::Login,
        C2SPacketModel::LoginAcknowledged(m) => State::Login,
        C2SPacketModel::CookieResponse(m) => State::Login,
        C2SPacketModel::ClientInformation(m) => State::Configuration,
        C2SPacketModel::ConfigurationCookieResponse(m) => State::Configuration,
        C2SPacketModel::ConfigurationCustomPayload(m) => State::Configuration,
        C2SPacketModel::FinishConfigurationAck(m) => State::Configuration,
        C2SPacketModel::ConfigurationKeepAlive(m) => State::Configuration,
        C2SPacketModel::PongConfiguration(m) => State::Configuration,
        C2SPacketModel::ResourcePackResponse(m) => State::Configuration,
        C2SPacketModel::SelectKnownPacks(m) => State::Configuration,
        C2SPacketModel::AcceptTeleportation(m) => State::Play,
        C2SPacketModel::KeepAlive(m) => State::Play,
        C2SPacketModel::PlayerPos(m) => State::Play,
        C2SPacketModel::PlayerPosRot(m) => State::Play,
        C2SPacketModel::PlayerRot(m) => State::Play,
        C2SPacketModel::PlayerFlying(m) => State::Play,
    }
}

/// The packet's fields have a layout.
pub open spec fn encodable_c2s_packet(g: C2SPacketModel) -> bool {
    match g {
        C2SPacketModel::Handshake(m) => <C2SHandshake as Wire>::encodable(m),
        C2SPacketModel::StatusRequest(m) => <C2SStatusRequest as Wire>::encodable(m),
        C2SPacketModel::Ping(m) => <C2SPing as Wire>::encodable(m),
        C2SPacketModel::Hello(m) => <C2SHello as Wire>::encodable(m),
        C2SPacketModel::Key(m) => <C2SKey as Wire>::encodable(m),
        C2SPacketModel::CustomQueryAnswer(m) => <C2SCustomQueryAnswer as Wire>::encodable(m),
        C2SPacketModel::LoginAcknowledged(m) => <C2SLoginAcknowledged as Wire>::encodable(m),
        C2SPacketModel::CookieResponse(m) => <C2SLoginCookieResponse as Wire>::encodable(m),
        C2SPacketModel::ClientInformation(m) => <C2SClientInformation as Wire>::encodable(m),
        C2SPacketModel::ConfigurationCookieResponse(m) => <C2SCookieResponse as Wire>::encodable(m),
        C2SPacketModel::ConfigurationCustomPayload(m) => <C2SConfigurationCustomPayload as Wire>::encodable(m),
        C2SPacketModel::FinishConfigurationAck(m) => <C2SFinishConfiguration as Wire>::encodable(m),
        C2SPacketModel::ConfigurationKeepAlive(m) => <C2SConfigurationKeepAlive as Wire>::encodable(m),
        C2SPacketModel::PongConfiguration(m) => <C2SPongConfiguration as Wire>::encodable(m),
        C2SPacketModel::ResourcePackResponse(m) => <C2SResourcePackResponse as Wire>::encodable(m),
        C2SPacketModel::SelectKnownPacks(m) => <C2SSelectKnownPacks as Wire>::encodable(m),
        C2SPacketModel::AcceptTeleportation(m) => <C2SAcceptTeleportation as Wire>::encodable(m),
        C2SPacketModel::KeepAlive(m) => <C2SKeepAlive as Wire>::encodable(m),
        C2SPacketModel::PlayerPos(m) => <C2SPlayerPos as Wire>::encodable(m),
        C2SPacketModel::PlayerPosRot(m) => <C2SPlayerPosRot as Wire>::encodable(m),
        C2SPacketModel::PlayerRot(m) => <C2SPlayerRot as Wire>::encodable(m),
        C2SPacketModel::PlayerFlying(m) => <C2SPlayerFlying as Wire>::encodable(m),
    }
}

/// The packet's last field takes every remaining byte.
pub open spec fn greedy_c2s_packet(g: C2SPacketModel) -> bool {
    match g {
        C2SPacketModel::Handshake(m) => <C2SHandshake as Wire>::greedy(),
        C2SPacketModel::StatusRequest(m) => <C2SStatusRequest as Wire>::greedy(),
        C2SPacketModel::Ping(m) => <C2SPing as Wire>::greedy(),
        C2SPacketModel::Hello(m) => <C2SHello as Wire>::greedy(),
        C2SPacketModel::Key(m) => <C2SKey as Wire>::greedy(),
        C2SPacketModel::CustomQueryAnswer(m) => <C2SCustomQueryAnswer as Wire>::greedy(),
        C2SPacketModel::LoginAcknowledged(m) => <C2SLoginAcknowledged as Wire>::greedy(),
        C2SPacketModel::CookieResponse(m) => <C2SLoginCookieResponse as Wire>::greedy(),
        C2SPacketModel::ClientInformation(m) => <C2SClientInformation as Wire>::greedy(),
        C2SPacketModel::ConfigurationCookieResponse(m) => <C2SCookieResponse as Wire>::greedy(),
        C2SPacketModel::ConfigurationCustomPayload(m) => <C2SConfigurationCustomPayload as Wire>::greedy(),
        C2SPacketModel::FinishConfigurationAck(m) => <C2SFinishConfiguration as Wire>::greedy(),
        C2SPacketModel::ConfigurationKeepAlive(m) => <C2SConfigurationKeepAlive as Wire>::greedy(),
        C2SPacketModel::PongConfiguration(m) => <C2SPongConfiguration as Wire>::greedy(),
        C2SPacketModel::ResourcePackResponse(m) => <C2SResourcePackResponse as Wire>::greedy(),
        C2SPacketModel::SelectKnownPacks(m) => <C2SSelectKnownPacks as Wire>::greedy(),
        C2SPacketModel::AcceptTeleportation(m) => <C2SAcceptTeleportation as Wire>::greedy(),
        C2SPacketModel::KeepAlive(m) => <C2SKeepAlive as Wire>::greedy(),
        C2SPacketModel::PlayerPos(m) => <C2SPlayerPos as Wire>::greedy(),
        C2SPacketModel::PlayerPosRot(m) => <C2SPlayerPosRot as Wire>::greedy(),
        C2SPacketModel::PlayerRot(m) => <C2SPlayerRot as Wire>::greedy(),
        C2SPacketModel::PlayerFlying(m) => <C2SPlayerFlying as Wire>::greedy(),
    }
}

/// The packet's layout can be read back (no greedy field is followed by another).
pub open spec fn decodable_c2s_packet(g: C2SPacketModel) -> bool {
    match g {
        C2SPacketModel::Handshake(m) => <C2SHandshake as Wire>::decodable(),
        C2SPacketModel::StatusRequest(m) => <C2SStatusRequest as Wire>::decodable(),
        C2SPacketModel::Ping(m) => <C2SPing as Wire>::decodable(),
        C2SPacketModel::Hello(m) => <C2SHello as Wire>::decodable(),
        C2SPacketModel::Key(m) => <C2SKey as Wire>::decodable(),
        C2SPacketModel::CustomQueryAnswer(m) => <C2SCustomQueryAnswer as Wire>::decodable(),
        C2SPacketModel::LoginAcknowledged(m) => <C2SLoginAcknowledged as Wire>::decodable(),
        C2SPacketModel::CookieResponse(m) => <C2SLoginCookieResponse as Wire>::decodable(),
        C2SPacketModel::ClientInformation(m) => <C2SClientInformation as Wire>::decodable(),
        C2SPacketModel::ConfigurationCookieResponse(m) => <C2SCookieResponse as Wire>::decodable(),
        C2SPacketModel::ConfigurationCustomPayload(m) => <C2SConfigurationCustomPayload as Wire>::decodable(),
        C2SPacketModel::FinishConfigurationAck(m) => <C2SFinishConfiguration as Wire>::decodable(),
        C2SPacketModel::ConfigurationKeepAlive(m) => <C2SConfigurationKeepAlive as Wire>::decodable(),
        C2SPacketModel::PongConfiguration(m) => <C2SPongConfiguration as Wire>::decodable(),
        C2SPacketModel::ResourcePackResponse(m) => <C2SResourcePackResponse as Wire>::decodable(),
        C2SPacketModel::SelectKnownPacks(m) => <C2SSelectKnownPacks as Wire>::decodable(),
        C2SPacketModel::AcceptTeleportation(m) => <C2SAcceptTeleportation as Wire>::decodable(),
        C2SPacketModel::KeepAlive(m) => <C2SKeepAlive as Wire>::decodable(),
        C2SPacketModel::PlayerPos(m) => <C2SPlayerPos as Wire>::decodable(),
        C2SPacketModel::PlayerPosRot(m) => <C2SPlayerPosRot as Wire>::decodable(),
        C2SPacketModel::PlayerRot(m) => <C2SPlayerRot as Wire>::decodable(),
        C2SPacketModel::PlayerFlying(m) => <C2SPlayerFlying as Wire>::decodable(),
    }
}

proof fn lemma_c2s_packet_roundtrip_handshake(g: C2SPacketModel, rest: Seq<u8>)
    requires
        state_of_c2s_packet(g) == State::Handshake,
        decodable_c2s_packet(g),
        encodable_c2s_packet(g),
        !greedy_c2s_packet(g) || rest.len() == 0,
    ensures
        spec_decode_c2s_packet_handshake(
            match g {
                C2SPacketModel::Handshake(_) => 0x00,
                C2SPacketModel::StatusRequest(_) => 0x00,
                C2SPacketModel::Ping(_) => 0x01,
                C2SPacketModel::Hello(_) => 0x00,
                C2SPacketModel::Key(_) => 0x01,
                C2SPacketModel::CustomQueryAnswer(_) => 0x02,
                C2SPacketModel::LoginAcknowledged(_) => 0x03,
                C2SPacketModel::CookieResponse(_) => 0x04,
                C2SPacketModel::ClientInformation(_) => 0x00,
                C2SPacketModel::ConfigurationCookieResponse(_) => 0x01,
                C2SPacketModel::ConfigurationCustomPayload(_) => 0x02,
                C2SPacketModel::FinishConfigurationAck(_) => 0x03,
                C2SPacketModel::ConfigurationKeepAlive(_) => 0x04,
                C2SPacketModel::PongConfiguration(_) => 0x05,
                C2SPacketModel::ResourcePackResponse(_) => 0x06,
                C2SPacketModel::SelectKnownPacks(_) => 0x07,
                C2SPacketModel::AcceptTeleportation(_) => 0x00,
                C2SPacketModel::KeepAlive(_) => 0x18,
                C2SPacketModel::PlayerPos(_) => 0x14,
                C2SPacketModel::PlayerPosRot(_) => 0x15,
                C2SPacketModel::PlayerRot(_) => 0x16,
                C2SPacketModel::PlayerFlying(_) => 0x17,
            },
            match g {
                C2SPacketModel::Handshake(m) => <C2SHandshake as Wire>::spec_write(m) + rest,
                C2SPacketModel::StatusRequest(m) => <C2SStatusRequest as Wire>::spec_write(m) + rest,
                C2SPacketModel::Ping(m) => <C2SPing as Wire>::spec_write(m) + rest,
                C2SPacketModel::Hello(m) => <C2SHello as Wire>::spec_write(m) + rest,
                C2SPacketModel::Key(m) => <C2SKey as Wire>::spec_write(m) + rest,
                C2SPacketModel::CustomQueryAnswer(m) => <C2SCustomQueryAnswer as Wire>::spec_write(m) + rest,
                C2SPacketModel::LoginAcknowledged(m) => <C2SLoginAcknowledged as Wire>::spec_write(m) + rest,
                C2SPacketModel::CookieResponse(m) => <C2SLoginCookieResponse as Wire>::spec_write(m) + rest,
                C2SPacketModel::ClientInformation(m) => <C2SClientInformation as Wire>::spec_write(m) + rest,
                C2SPacketModel::ConfigurationCookieResponse(m) => <C2SCookieResponse as Wire>::spec_write(m) + rest,
                C2SPacketModel::ConfigurationCustomPayload(m) => <C2SConfigurationCustomPayload as Wire>::spec_write(m) + rest,
                C2SPacketModel::FinishConfigurationAck(m) => <C2SFinishConfiguration as Wire>::spec_write(m) + rest,
                C2SPacketModel::ConfigurationKeepAlive(m) => <C2SConfigurationKeepAlive as Wire>::spec_write(m) + rest,
                C2SPacketModel::PongConfiguration(m) => <C2SPongConfiguration as Wire>::spec_write(m) + rest,
                C2SPacketModel::ResourcePackResponse(m) => <C2SResourcePackResponse as Wire>::spec_write(m) + rest,
                C2SPacketModel::SelectKnownPacks(m) => <C2SSelectKnownPacks as Wire>::spec_write(m) + rest,
                C2SPacketModel::AcceptTeleportation(m) => <C2SAcceptTeleportation as Wire>::spec_write(m) + rest,
                C2SPacketModel::KeepAlive(m) => <C2SKeepAlive as Wire>::spec_write(m) + rest,
                C2SPacketModel::PlayerPos(m) => <C2SPlayerPos as Wire>::spec_write(m) + rest,
                C2SPacketModel::PlayerPosRot(m) => <C2SPlayerPosRot as Wire>::spec_write(m) + rest,
                C2SPacketModel::PlayerRot(m) => <C2SPlayerRot as Wire>::spec_write(m) + rest,
                C2SPacketModel::PlayerFlying(m) => <C2SPlayerFlying as Wire>::spec_write(m) + rest,
            },
        ) == Ok::<C2SPacketModel, DecodeError>(g),
{
    match g {
        C2SPacketModel::Handshake(m) => {
            <C2SHandshake as Wire>::lemma_roundtrip(m, rest);
        },
        _ => {},
    }
}

proof fn lemma_c2s_packet_roundtrip_status(g: C2SPacketModel, rest: Seq<u8>)
    requires
        state_of_c2s_packet(g) == State::Status,
        decodable_c2s_packet(g),
        encodable_c2s_packet(g),
        !greedy_c2s_packet(g) || rest.len() == 0,
    ensures
        spec_decode_c2s_packet_status(
            match g {
                C2SPacketModel::Handshake(_) => 0x00,
                C2SPacketModel::StatusRequest(_) => 0x00,
                C2SPacketModel::Ping(_) => 0x01,
                C2SPacketModel::Hello(_) => 0x00,
                C2SPacketModel::Key(_) => 0x01,
                C2SPacketModel::CustomQueryAnswer(_) => 0x02,
                C2SPacketModel::LoginAcknowledged(_) => 0x03,
                C2SPacketModel::CookieResponse(_) => 0x04,
                C2SPacketModel::ClientInformation(_) => 0x00,
                C2SPacketModel::ConfigurationCookieResponse(_) => 0x01,
                C2SPacketModel::ConfigurationCustomPayload(_) => 0x02,
                C2SPacketModel::FinishConfigurationAck(_) => 0x03,
                C2SPacketModel::ConfigurationKeepAlive(_) => 0x04,
                C2SPacketModel::PongConfiguration(_) => 0x05,
                C2SPacketModel::ResourcePackResponse(_) => 0x06,
                C2SPacketModel::SelectKnownPacks(_) => 0x07,
                C2SPacketModel::AcceptTeleportation(_) => 0x00,
                C2SPacketModel::KeepAlive(_) => 0x18,
                C2SPacketModel::PlayerPos(_) => 0x14,
                C2SPacketModel::PlayerPosRot(_) => 0x15,
                C2SPacketModel::PlayerRot(_) => 0x16,
                C2SPacketModel::PlayerFlying(_) => 0x17,
            },
            match g {
                C2SPacketModel::Handshake(m) => <C2SHandshake as Wire>::spec_write(m) + rest,
                C2SPacketModel::StatusRequest(m) => <C2SStatusRequest as Wire>::spec_write(m) + rest,
                C2SPacketModel::Ping(m) => <C2SPing as Wire>::spec_write(m) + rest,
                C2SPacketModel::Hello(m) => <C2SHello as Wire>::spec_write(m) + rest,
                C2SPacketModel::Key(m) => <C2SKey as Wire>::spec_write(m) + rest,
                C2SPacketModel::CustomQueryAnswer(m) => <C2SCustomQueryAnswer as Wire>::spec_write(m) + rest,
                C2SPacketModel::LoginAcknowledged(m) => <C2SLoginAcknowledged as Wire>::spec_write(m) + rest,
                C2SPacketModel::CookieResponse(m) => <C2SLoginCookieResponse as Wire>::spec_write(m) + rest,
                C2SPacketModel::ClientInformation(m) => <C2SClientInformation as Wire>::spec_write(m) + rest,
                C2SPacketModel::ConfigurationCookieResponse(m) => <C2SCookieResponse as Wire>::spec_write(m) + rest,
                C2SPacketModel::ConfigurationCustomPayload(m) => <C2SConfigurationCustomPayload as Wire>::spec_write(m) + rest,
                C2SPacketModel::FinishConfigurationAck(m) => <C2SFinishConfiguration as Wire>::spec_write(m) + rest,
                C2SPacketModel::ConfigurationKeepAlive(m) => <C2SConfigurationKeepAlive as Wire>::spec_write(m) + rest,
                C2SPacketModel::PongConfiguration(m) => <C2SPongConfiguration as Wire>::spec_write(m) + rest,
                C2SPacketModel::ResourcePackResponse(m) => <C2SResourcePackResponse as Wire>::spec_write(m) + rest,
                C2SPacketModel::SelectKnownPacks(m) => <C2SSelectKnownPacks as Wire>::spec_write(m) + rest,
                C2SPacketModel::AcceptTeleportation(m) => <C2SAcceptTeleportation as Wire>::spec_write(m) + rest,
                C2SPacketModel::KeepAlive(m) => <C2SKeepAlive as Wire>::spec_write(m) + rest,
                C2SPacketModel::PlayerPos(m) => <C2SPlayerPos as Wire>::spec_write(m) + rest,
                C2SPacketModel::PlayerPosRot(m) => <C2SPlayerPosRot as Wire>::spec_write(m) + rest,
                C2SPacketModel::PlayerRot(m) => <C2SPlayerRot as Wire>::spec_write(m) + rest,
                C2SPacketModel::PlayerFlying(m) => <C2SPlayerFlying as Wire>::spec_write(m) + rest,
            },
        ) == Ok::<C2SPacketModel, DecodeError>(g),
{
    match g {
        C2SPacketModel::StatusRequest(m) => {
            <C2SStatusRequest as Wire>::lemma_roundtrip(m, rest);
        },
        C2SPacketModel::Ping(m) => {
            <C2SPing as Wire>::lemma_roundtrip(m, rest);
        },
        _ => {},
    }
}

proof fn lemma_c2s_packet_roundtrip_login(g: C2SPacketModel, rest: Seq<u8>)
    requires
        state_of_c2s_packet(g) == State::Login,
        decodable_c2s_packet(g),
        encodable_c2s_packet(g),
        !greedy_c2s_packet(g) || rest.len() == 0,
    ensures
        spec_decode_c2s_packet_login(
            match g {
                C2SPacketModel::Handshake(_) => 0x00,
                C2SPacketModel::StatusRequest(_) => 0x00,
                C2SPacketModel::Ping(_) => 0x01,
                C2SPacketModel::Hello(_) => 0x00,
                C2SPacketModel::Key(_) => 0x01,
                C2SPacketModel::CustomQueryAnswer(_) => 0x02,
                C2SPacketModel::LoginAcknowledged(_) => 0x03,
                C2SPacketModel::CookieResponse(_) => 0x04,
                C2SPacketModel::ClientInformation(_) => 0x00,
                C2SPacketModel::ConfigurationCookieResponse(_) => 0x01,
                C2SPacketModel::ConfigurationCustomPayload(_) => 0x02,
                C2SPacketModel::FinishConfigurationAck(_) => 0x03,
                C2SPacketModel::ConfigurationKeepAlive(_) => 0x04,
                C2SPacketModel::PongConfiguration(_) => 0x05,
                C2SPacketModel::ResourcePackResponse(_) => 0x06,
                C2SPacketModel::SelectKnownPacks(_) => 0x07,
                C2SPacketModel::AcceptTeleportation(_) => 0x00,
                C2SPacketModel::KeepAlive(_) => 0x18,
                C2SPacketModel::PlayerPos(_) => 0x14,
                C2SPacketModel::PlayerPosRot(_) => 0x15,
                C2SPacketModel::PlayerRot(_) => 0x16,
                C2SPacketModel::PlayerFlying(_) => 0x17,
            },
            match g {
                C2SPacketModel::Handshake(m) => <C2SHandshake as Wire>::spec_write(m) + rest,
                C2SPacketModel::StatusRequest(m) => <C2SStatusRequest as Wire>::spec_write(m) + rest,
                C2SPacketModel::Ping(m) => <C2SPing as Wire>::spec_write(m) + rest,
                C2SPacketModel::Hello(m) => <C2SHello as Wire>::spec_write(m) + rest,
                C2SPacketModel::Key(m) => <C2SKey as Wire>::spec_write(m) + rest,
                C2SPacketModel::CustomQueryAnswer(m) => <C2SCustomQueryAnswer as Wire>::spec_write(m) + rest,
                C2SPacketModel::LoginAcknowledged(m) => <C2SLoginAcknowledged as Wire>::spec_write(m) + rest,
                C2SPacketModel::CookieResponse(m) => <C2SLoginCookieResponse as Wire>::spec_write(m) + rest,
                C2SPacketModel::ClientInformation(m) => <C2SClientInformation as Wire>::spec_write(m) + rest,
                C2SPacketModel::ConfigurationCookieResponse(m) => <C2SCookieResponse as Wire>::spec_write(m) + rest,
                C2SPacketModel::ConfigurationCustomPayload(m) => <C2SConfigurationCustomPayload as Wire>::spec_write(m) + rest,
                C2SPacketModel::FinishConfigurationAck(m) => <C2SFinishConfiguration as Wire>::spec_write(m) + rest,
                C2SPacketModel::ConfigurationKeepAlive(m) => <C2SConfigurationKeepAlive as Wire>::spec_write(m) + rest,
                C2SPacketModel::PongConfiguration(m) => <C2SPongConfiguration as Wire>::spec_write(m) + rest,
                C2SPacketModel::ResourcePackResponse(m) => <C2SResourcePackResponse as Wire>::spec_write(m) + rest,
                C2SPacketModel::SelectKnownPacks(m) => <C2SSelectKnownPacks as Wire>::spec_write(m) + rest,
                C2SPacketModel::AcceptTeleportation(m) => <C2SAcceptTeleportation as Wire>::spec_write(m) + rest,
                C2SPacketModel::KeepAlive(m) => <C2SKeepAlive as Wire>::spec_write(m) + rest,
                C2SPacketModel::PlayerPos(m) => <C2SPlayerPos as Wire>::spec_write(m) + rest,
                C2SPacketModel::PlayerPosRot(m) => <C2SPlayerPosRot as Wire>::spec_write(m) + rest,
                C2SPacketModel::PlayerRot(m) => <C2SPlayerRot as Wire>::spec_write(m) + rest,
                C2SPacketModel::PlayerFlying(m) => <C2SPlayerFlying as Wire>::spec_write(m) + rest,
            },
        ) == Ok::<C2SPacketModel, DecodeError>(g),
{
    match g {
        C2SPacketModel::Hello(m) => {
            <C2SHello as Wire>::lemma_roundtrip(m, rest);
        },
        C2SPacketModel::Key(m) => {
            <C2SKey as Wire>::lemma_roundtrip(m, rest);
        },
        C2SPacketModel::CustomQueryAnswer(m) => {
            <C2SCustomQueryAnswer as Wire>::lemma_roundtrip(m, rest);
        },
        C2SPacketModel::LoginAcknowledged(m) => {
            <C2SLoginAcknowledged as Wire>::lemma_roundtrip(m, rest);
        },
        C2SPacketModel::CookieResponse(m) => {
            <C2SLoginCookieResponse as Wire>::lemma_roundtrip(m, rest);
        },
        _ => {},
    }
}

proof fn lemma_c2s_packet_roundtrip_configuration(g: C2SPacketModel, rest: Seq<u8>)
    requires
        state_of_c2s_packet(g) == State::Configuration,
        decodable_c2s_packet(g),
        encodable_c2s_packet(g),
        !greedy_c2s_packet(g) || rest.len() == 0,
    ensures
        spec_decode_c2s_packet_configuration(
            match g {
                C2SPacketModel::Handshake(_) => 0x00,
                C2SPacketModel::StatusRequest(_) => 0x00,
                C2SPacketModel::Ping(_) => 0x01,
                C2SPacketModel::Hello(_) => 0x00,
                C2SPacketModel::Key(_) => 0x01,
                C2SPacketModel::CustomQueryAnswer(_) => 0x02,
                C2SPacketModel::LoginAcknowledged(_) => 0x03,
                C2SPacketModel::CookieResponse(_) => 0x04,
                C2SPacketModel::ClientInformation(_) => 0x00,
                C2SPacketModel::ConfigurationCookieResponse(_) => 0x01,
                C2SPacketModel::ConfigurationCustomPayload(_) => 0x02,
                C2SPacketModel::FinishConfigurationAck(_) => 0x03,
                C2SPacketModel::ConfigurationKeepAlive(_) => 0x04,
                C2SPacketModel::PongConfiguration(_) => 0x05,
                C2SPacketModel::ResourcePackResponse(_) => 0x06,
                C2SPacketModel::SelectKnownPacks(_) => 0x07,
                C2SPacketModel::AcceptTeleportation(_) => 0x00,
                C2SPacketModel::KeepAlive(_) => 0x18,
                C2SPacketModel::PlayerPos(_) => 0x14,
                C2SPacketModel::PlayerPosRot(_) => 0x15,
                C2SPacketModel::PlayerRot(_) => 0x16,
                C2SPacketModel::PlayerFlying(_) => 0x17,
            },
            match g {
                C2SPacketModel::Handshake(m) => <C2SHandshake as Wire>::spec_write(m) + rest,
                C2SPacketModel::StatusRequest(m) => <C2SStatusRequest as Wire>::spec_write(m) + rest,
                C2SPacketModel::Ping(m) => <C2SPing as Wire>::spec_write(m) + rest,
                C2SPacketModel::Hello(m) => <C2SHello as Wire>::spec_write(m) + rest,
                C2SPacketModel::Key(m) => <C2SKey as Wire>::spec_write(m) + rest,
                C2SPacketModel::CustomQueryAnswer(m) => <C2SCustomQueryAnswer as Wire>::spec_write(m) + rest,
                C2SPacketModel::LoginAcknowledged(m) => <C2SLoginAcknowledged as Wire>::spec_write(m) + rest,
                C2SPacketModel::CookieResponse(m) => <C2SLoginCookieResponse as Wire>::spec_write(m) + rest,
                C2SPacketModel::ClientInformation(m) => <C2SClientInformation as Wire>::spec_write(m) + rest,
                C2SPacketModel::ConfigurationCookieResponse(m) => <C2SCookieResponse as Wire>::spec_write(m) + rest,
                C2SPacketModel::ConfigurationCustomPayload(m) => <C2SConfigurationCustomPayload as Wire>::spec_write(m) + rest,
                C2SPacketModel::FinishConfigurationAck(m) => <C2SFinishConfiguration as Wire>::spec_write(m) + rest,
                C2SPacketModel::ConfigurationKeepAlive(m) => <C2SConfigurationKeepAlive as Wire>::spec_write(m) + rest,
                C2SPacketModel::PongConfiguration(m) => <C2SPongConfiguration as Wire>::spec_write(m) + rest,
                C2SPacketModel::ResourcePackResponse(m) => <C2SResourcePackResponse as Wire>::spec_write(m) + rest,
                C2SPacketModel::SelectKnownPacks(m) => <C2SSelectKnownPacks as Wire>::spec_write(m) + rest,
                C2SPacketModel::AcceptTeleportation(m) => <C2SAcceptTeleportation as Wire>::spec_write(m) + rest,
                C2SPacketModel::KeepAlive(m) => <C2SKeepAlive as Wire>::spec_write(m) + rest,
                C2SPacketModel::PlayerPos(m) => <C2SPlayerPos as Wire>::spec_write(m) + rest,
                C2SPacketModel::PlayerPosRot(m) => <C2SPlayerPosRot as Wire>::spec_write(m) + rest,
                C2SPacketModel::PlayerRot(m) => <C2SPlayerRot as Wire>::spec_write(m) + rest,
                C2SPacketModel::PlayerFlying(m) => <C2SPlayerFlying as Wire>::spec_write(m) + rest,
            },
        ) == Ok::<C2SPacketModel, DecodeError>(g),
{
    match g {
        C2SPacketModel::ClientInformation(m) => {
            <C2SClientInformation as Wire>::lemma_roundtrip(m, rest);
        },
        C2SPacketModel::ConfigurationCookieResponse(m) => {
            <C2SCookieResponse as Wire>::lemma_roundtrip(m, rest);
        },
        C2SPacketModel::ConfigurationCustomPayload(m) => {
            <C2SConfigurationCustomPayload as Wire>::lemma_roundtrip(m, rest);
        },
        C2SPacketModel::FinishConfigurationAck(m) => {
            <C2SFinishConfiguration as Wire>::lemma_roundtrip(m, rest);
        },
        C2SPacketModel::ConfigurationKeepAlive(m) => {
            <C2SConfigurationKeepAlive as Wire>::lemma_roundtrip(m, rest);
        },
        C2SPacketModel::PongConfiguration(m) => {
            <C2SPongConfiguration as Wire>::lemma_roundtrip(m, rest);
        },
        C2SPacketModel::ResourcePackResponse(m) => {
            <C2SResourcePackResponse as Wire>::lemma_roundtrip(m, rest);
        },
        C2SPacketModel::SelectKnownPacks(m) => {
            <C2SSelectKnownPacks as Wire>::lemma_roundtrip(m, rest);
        },
        _ => {},
    }
}

proof fn lemma_c2s_packet_roundtrip_play(g: C2SPacketModel, rest: Seq<u8>)
    requires
        state_of_c2s_packet(g) == State::Play,
        decodable_c2s_packet(g),
        encodable_c2s_packet(g),
        !greedy_c2s_packet(g) || rest.len() == 0,
    ensures
        spec_decode_c2s_packet_play(
            match g {
                C2SPacketModel::Handshake(_) => 0x00,
                C2SPacketModel::StatusRequest(_) => 0x00,
                C2SPacketModel::Ping(_) => 0x01,
                C2SPacketModel::Hello(_) => 0x00,
                C2SPacketModel::Key(_) => 0x01,
                C2SPacketModel::CustomQueryAnswer(_) => 0x02,
                C2SPacketModel::LoginAcknowledged(_) => 0x03,
                C2SPacketModel::CookieResponse(_) => 0x04,
                C2SPacketModel::ClientInformation(_) => 0x00,
                C2SPacketModel::ConfigurationCookieResponse(_) => 0x01,
                C2SPacketModel::ConfigurationCustomPayload(_) => 0x02,
                C2SPacketModel::FinishConfigurationAck(_) => 0x03,
                C2SPacketModel::ConfigurationKeepAlive(_) => 0x04,
                C2SPacketModel::PongConfiguration(_) => 0x05,
                C2SPacketModel::ResourcePackResponse(_) => 0x06,
                C2SPacketModel::SelectKnownPacks(_) => 0x07,
                C2SPacketModel::AcceptTeleportation(_) => 0x00,
                C2SPacketModel::KeepAlive(_) => 0x18,
                C2SPacketModel::PlayerPos(_) => 0x14,
                C2SPacketModel::PlayerPosRot(_) => 0x15,
                C2SPacketModel::PlayerRot(_) => 0x16,
                C2SPacketModel::PlayerFlying(_) => 0x17,
            },
            match g {
                C2SPacketModel::Handshake(m) => <C2SHandshake as Wire>::spec_write(m) + rest,
                C2SPacketModel::StatusRequest(m) => <C2SStatusRequest as Wire>::spec_write(m) + rest,
                C2SPacketModel::Ping(m) => <C2SPing as Wire>::spec_write(m) + rest,
                C2SPacketModel::Hello(m) => <C2SHello as Wire>::spec_write(m) + rest,
                C2SPacketModel::Key(m) => <C2SKey as Wire>::spec_write(m) + rest,
                C2SPacketModel::CustomQueryAnswer(m) => <C2SCustomQueryAnswer as Wire>::spec_write(m) + rest,
                C2SPacketModel::LoginAcknowledged(m) => <C2SLoginAcknowledged as Wire>::spec_write(m) + rest,
                C2SPacketModel::CookieResponse(m) => <C2SLoginCookieResponse as Wire>::spec_write(m) + rest,
                C2SPacketModel::ClientInformation(m) => <C2SClientInformation as Wire>::spec_write(m) + rest,
                C2SPacketModel::ConfigurationCookieResponse(m) => <C2SCookieResponse as Wire>::spec_write(m) + rest,
                C2SPacketModel::ConfigurationCustomPayload(m) => <C2SConfigurationCustomPayload as Wire>::spec_write(m) + rest,
                C2SPacketModel::FinishConfigurationAck(m) => <C2SFinishConfiguration as Wire>::spec_write(m) + rest,
                C2SPacketModel::ConfigurationKeepAlive(m) => <C2SConfigurationKeepAlive as Wire>::spec_write(m) + rest,
                C2SPacketModel::PongConfiguration(m) => <C2SPongConfiguration as Wire>::spec_write(m) + rest,
                C2SPacketModel::ResourcePackResponse(m) => <C2SResourcePackResponse as Wire>::spec_write(m) + rest,
                C2SPacketModel::SelectKnownPacks(m) => <C2SSelectKnownPacks as Wire>::spec_write(m) + rest,
                C2SPacketModel::AcceptTeleportation(m) => <C2SAcceptTeleportation as Wire>::spec_write(m) + rest,
                C2SPacketModel::KeepAlive(m) => <C2SKeepAlive as Wire>::spec_write(m) + rest,
                C2SPacketModel::PlayerPos(m) => <C2SPlayerPos as Wire>::spec_write(m) + rest,
                C2SPacketModel::PlayerPosRot(m) => <C2SPlayerPosRot as Wire>::spec_write(m) + rest,
                C2SPacketModel::PlayerRot(m) => <C2SPlayerRot as Wire>::spec_write(m) + rest,
                C2SPacketModel::PlayerFlying(m) => <C2SPlayerFlying as Wire>::spec_write(m) + rest,
            },
        ) == Ok::<C2SPacketModel, DecodeError>(g),
{
    match g {
        C2SPacketModel::AcceptTeleportation(m) => {
            <C2SAcceptTeleportation as Wire>::lemma_roundtrip(m, rest);
        },
        C2SPacketModel::KeepAlive(m) => {
            <C2SKeepAlive as Wire>::lemma_roundtrip(m, rest);
        },
        C2SPacketModel::PlayerPos(m) => {
            <C2SPlayerPos as Wire>::lemma_roundtrip(m, rest);
        },
        C2SPacketModel::PlayerPosRot(m) => {
            <C2SPlayerPosRot as Wire>::lemma_roundtrip(m, rest);
        },
        C2SPacketModel::PlayerRot(m) => {
            <C2SPlayerRot as Wire>::lemma_roundtrip(m, rest);
        },
        C2SPacketModel::PlayerFlying(m) => {
            <C2SPlayerFlying as Wire>::lemma_roundtrip(m, rest);
        },
        _ => {},
    }
}

/// Decoding, in its own state, the bytes of any packet of the group gives
/// that packet back, whatever follows it (nothing may follow a packet that
/// ends in raw bytes, and a packet whose raw bytes are followed by more
/// fields cannot be read back).
pub proof fn lemma_c2s_packet_roundtrip(g: C2SPacketModel, rest: Seq<u8>)
    requires
        decodable_c2s_packet(g),
        encodable_c2s_packet(g),
        !greedy_c2s_packet(g) || rest.len() == 0,
    ensures
        spec_decode_c2s_packet(state_of_c2s_packet(g), spec_encode_c2s_packet(g) + rest) == Ok::<C2SPacketModel, DecodeError>(g),
{
    match g {
        C2SPacketModel::Handshake(m) => {
            lemma_header_roundtrip(0x00, <C2SHandshake as Wire>::spec_write(m), rest);
            lemma_c2s_packet_roundtrip_handshake(g, rest);
        },
        C2SPacketModel::StatusRequest(m) => {
            lemma_header_roundtrip(0x00, <C2SStatusRequest as Wire>::spec_write(m), rest);
            lemma_c2s_packet_roundtrip_status(g, rest);
        },
        C2SPacketModel::Ping(m) => {
            lemma_header_roundtrip(0x01, <C2SPing as Wire>::spec_write(m), rest);
            lemma_c2s_packet_roundtrip_status(g, rest);
        },
        C2SPacketModel::Hello(m) => {
            lemma_header_roundtrip(0x00, <C2SHello as Wire>::spec_write(m), rest);
            lemma_c2s_packet_roundtrip_login(g, rest);
        },
        C2SPacketModel::Key(m) => {
            lemma_header_roundtrip(0x01, <C2SKey as Wire>::spec_write(m), rest);
            lemma_c2s_packet_roundtrip_login(g, rest);
        },
        C2SPacketModel::CustomQueryAnswer(m) => {
            lemma_header_roundtrip(0x02, <C2SCustomQueryAnswer as Wire>::spec_write(m), rest);
            lemma_c2s_packet_roundtrip_login(g, rest);
        },
        C2SPacketModel::LoginAcknowledged(m) => {
            lemma_header_roundtrip(0x03, <C2SLoginAcknowledged as Wire>::spec_write(m), rest);
            lemma_c2s_packet_roundtrip_login(g, rest);
        },
        C2SPacketModel::CookieResponse(m) => {
            lemma_header_roundtrip(0x04, <C2SLoginCookieResponse as Wire>::spec_write(m), rest);
            lemma_c2s_packet_roundtrip_login(g, rest);
        },
        C2SPacketModel::ClientInformation(m) => {
            lemma_header_roundtrip(0x00, <C2SClientInformation as Wire>::spec_write(m), rest);
            lemma_c2s_packet_roundtrip_configuration(g, rest);
        },
        C2SPacketModel::ConfigurationCookieResponse(m) => {
            lemma_header_roundtrip(0x01, <C2SCookieResponse as Wire>::spec_write(m), rest);
            lemma_c2s_packet_roundtrip_configuration(g, rest);
        },
        C2SPacketModel::ConfigurationCustomPayload(m) => {
            lemma_header_roundtrip(0x02, <C2SConfigurationCustomPayload as Wire>::spec_write(m), rest);
            lemma_c2s_packet_roundtrip_configuration(g, rest);
        },
        C2SPacketModel::FinishConfigurationAck(m) => {
            lemma_header_roundtrip(0x03, <C2SFinishConfiguration as Wire>::spec_write(m), rest);
            lemma_c2s_packet_roundtrip_configuration(g, rest);
        },
        C2SPacketModel::ConfigurationKeepAlive(m) => {
            lemma_header_roundtrip(0x04, <C2SConfigurationKeepAlive as Wire>::spec_write(m), rest);
            lemma_c2s_packet_roundtrip_configuration(g, rest);
        },
        C2SPacketModel::PongConfiguration(m) => {
            lemma_header_roundtrip(0x05, <C2SPongConfiguration as Wire>::spec_write(m), rest);
            lemma_c2s_packet_roundtrip_configuration(g, rest);
        },
        C2SPacketModel::ResourcePackResponse(m) => {
            lemma_header_roundtrip(0x06, <C2SResourcePackResponse as Wire>::spec_write(m), rest);
            lemma_c2s_packet_roundtrip_configuration(g, rest);
        },
        C2SPacketModel::SelectKnownPacks(m) => {
            lemma_header_roundtrip(0x07, <C2SSelectKnownPacks as Wire>::spec_write(m), rest);
            lemma_c2s_packet_roundtrip_configuration(g, rest);
        },
        C2SPacketModel::AcceptTeleportation(m) => {
            lemma_header_roundtrip(0x00, <C2SAcceptTeleportation as Wire>::spec_write(m), rest);
            lemma_c2s_packet_roundtrip_play(g, rest);
        },
        C2SPacketModel::KeepAlive(m) => {
            lemma_header_roundtrip(0x18, <C2SKeepAlive as Wire>::spec_write(m), rest);
            lemma_c2s_packet_roundtrip_play(g, rest);
        },
        C2SPacketModel::PlayerPos(m) => {
            lemma_header_roundtrip(0x14, <C2SPlayerPos as Wire>::spec_write(m), rest);
            lemma_c2s_packet_roundtrip_play(g, rest);
        },
        C2SPacketModel::PlayerPosRot(m) => {
            lemma_header_roundtrip(0x15, <C2SPlayerPosRot as Wire>::spec_write(m), rest);
            lemma_c2s_packet_roundtrip_play(g, rest);
        },
        C2SPacketModel::PlayerRot(m) => {
            lemma_header_roundtrip(0x16, <C2SPlayerRot as Wire>::spec_write(m), rest);
            lemma_c2s_packet_roundtrip_play(g, rest);
        },
        C2SPacketModel::PlayerFlying(m) => {
            lemma_header_roundtrip(0x17, <C2SPlayerFlying as Wire>::spec_write(m), rest);
            lemma_c2s_packet_roundtrip_play(g, rest);
        },
    }
}

} // verus!
