//! The decisions of one client connection.
//!
//! [`Connection`] holds what the decisions need: the selected version, the
//! read buffer, the connection state and the compression threshold. The
//! caller reads bytes from the socket into [`Connection::buffer`], takes
//! packets with [`Connection::try_parse_packet`], hands each to
//! [`Connection::dispatch_packet`], and writes to the socket the frames that
//! it appends to its output. The caller also drives the Play keep-alive
//! timer ([`Connection::keepalive_frame`]).

use vstd::prelude::*;
use vstd::string::StringSliceAdditionalSpecFns;

use crate::codec::Wire;
use crate::error::DecodeError;
use crate::packet::Packet;
use crate::position::BlockPos;
use crate::server::framing::{
    bytes_mut_contents, compressing, frame_readable, lemma_take_frame_of_frame, new_buffer,
    spec_frame, spec_take_frame, take_frame, zlib_deflate, zlib_inflate, FrameError, FrameStep,
};
use crate::server::bursts::{
    configuration_burst, invalid_username_v1_20_1, invalid_username_v1_21_1,
    login_success_v1_20_1, login_success_v1_21_1, play_burst_v1_20_1, play_burst_v1_21_1, send,
    set_compression, spec_configuration_burst, spec_invalid_username_v1_20_1,
    spec_invalid_username_v1_21_1, spec_login_success_v1_20_1, spec_login_success_v1_21_1,
    spec_play_burst_v1_20_1, spec_play_burst_v1_21_1, spec_set_compression,
};
use crate::server::protocol::{
    kind_protocol_version, spec_decode_c2s, DecodedC2S, DecodedC2SModel, ProtocolKind,
};
use crate::v1_20_1::c2s::{
    decodable_c2s_packet as decodable20, encodable_c2s_packet as encodable20,
    lemma_c2s_packet_roundtrip as lemma_roundtrip20, spec_encode_c2s_packet as spec_encode20,
    state_of_c2s_packet as state_of20, C2SPacket as C2S20, C2SPacketModel as C2SModel20,
};
use crate::v1_20_1::V1_20_1;
use crate::v1_20_1::s2c::status as status20;
use crate::v1_21_1::c2s::{
    decodable_c2s_packet as decodable21, encodable_c2s_packet as encodable21,
    lemma_c2s_packet_roundtrip as lemma_roundtrip21, spec_encode_c2s_packet as spec_encode21,
    state_of_c2s_packet as state_of21, C2SPacket as C2S21, C2SPacketModel as C2SModel21,
};
use crate::v1_21_1::V1_21_1;
use crate::v1_21_1::s2c::configuration as config21;
use crate::v1_21_1::s2c::status as status21;
use crate::state::{intent_to_state, ClientIntent, IntentError, State};
use crate::varint::spec_varint_encode;

verus! {

/// A byte allowed in a username: an ASCII letter or digit, or `_`.
pub open spec fn is_username_byte(b: u8) -> bool {
    (0x30 <= b <= 0x39) || (0x41 <= b <= 0x5a) || (0x61 <= b <= 0x7a) || b == 0x5f
}

/// Whether the UTF-8 bytes `b` of a name could be a Minecraft account's
/// username: 3 to 16 bytes, each an ASCII letter, digit or `_`. (A
/// character outside ASCII encodes to bytes of `0x80` and above, so this is
/// the same as asking it of the name's characters.)
pub open spec fn valid_username_bytes(b: Seq<u8>) -> bool {
    &&& 3 <= b.len() <= 16
    &&& forall|i: int| 0 <= i < b.len() ==> is_username_byte(#[trigger] b[i])
}

/// Checks if a username could be a valid Minecraft account's username. A
/// handful of very short accounts and accounts with spaces fail this, but
/// they are too rare to matter here.
pub fn is_valid_username(username: &str) -> (r: bool)
    ensures
        r == valid_username_bytes(username.spec_bytes()),
{
    let b = username.as_bytes();
    if b.len() < 3 || b.len() > 16 {
        return false;
    }
    let mut i: usize = 0;
    while i < b.len()
        invariant
            i <= b@.len(),
            b@ == username.spec_bytes(),
            3 <= b@.len() <= 16,
            forall|j: int| 0 <= j < i ==> is_username_byte(#[trigger] b@[j]),
        decreases b@.len() - i,
    {
        let c = b[i];
        let ok = (0x30 <= c && c <= 0x39) || (0x41 <= c && c <= 0x5a) || (0x61 <= c && c <= 0x7a)
            || c == 0x5f;
        if !ok {
            assert(!is_username_byte(b@[i as int]));
            assert(!valid_username_bytes(b@));
            return false;
        }
        i = i + 1;
    }
    true
}

/// The limbo world that clients are placed into, as the packets carry it.
pub struct LimboSettings {
    /// The bits of the `f64` coordinates of the spawn position.
    pub x_bits: u64,
    pub y_bits: u64,
    pub z_bits: u64,
    /// The spawn position as a block position (the coordinates truncated).
    pub spawn: BlockPos,
    /// Game mode: 0 survival, 1 creative, 2 adventure, 3 spectator.
    pub gamemode: i32,
    /// View distance in chunks.
    pub view_distance: i32,
    /// Simulation distance in chunks.
    pub simulation_distance: i32,
    /// The dimension (level) name, e.g. `minecraft:the_void`. In 1.20.1
    /// it names the level (`dimension` and the level list of `Login`) but
    /// not its dimension type: that field must be a key of the registry
    /// codec's `dimension_type` registry, which holds only the vanilla
    /// types, so the 1.20.1 `Login` always sends `minecraft:overworld`
    /// there; a configured name such as `minecraft:the_void` would make the
    /// client reject the login.
    pub dimension: String,
}

/// What a connection's decisions read from the configuration.
pub struct Settings {
    /// The maximum number of players announced.
    pub max_players: i32,
    /// The JSON text of the status response for the selected version.
    pub status_json: String,
    /// The compression threshold when compression is enabled.
    pub compression: Option<i32>,
    /// The limbo world.
    pub limbo: LimboSettings,
    /// The 1.20.1 registry codec (NBT) carried by the Play `Login` packet.
    pub registry_codec: Vec<u8>,
    /// The data of each 1.21.1 registry sent during Configuration, in the
    /// order of [`crate::v1_21_1::registries::all`].
    pub registry_data: Vec<Vec<u8>>,
}

/// A string fits the wire format: its UTF-8 length fits an `i32`.
pub open spec fn fits(s: Seq<char>) -> bool {
    vstd::utf8::encode_utf8(s).len() <= i32::MAX
}

impl Settings {
    /// The strings that are sent fit the wire format.
    pub open spec fn wf(&self) -> bool {
        &&& fits(self.status_json@)
        &&& fits(self.limbo.dimension@)
        &&& self.registry_data@.len() == crate::v1_21_1::registries::spec_registry_ids().len()
    }
}

/// Why a connection ends.
#[derive(Debug, Clone, Copy, PartialEq, Eq, Structural)]
pub enum ConnError {
    /// A frame could not be taken from the read buffer.
    Frame(FrameError),
    /// A packet body did not decode (outside Play and Configuration).
    Decode(DecodeError),
    /// A packet arrived that the current state does not expect.
    UnexpectedPacket(State),
    /// The client's protocol number is not the selected version's.
    ProtocolMismatch(i32),
    /// The handshake asked for a transfer.
    TransferUnsupported,
    /// The client answered an encryption request that was never sent.
    EncryptionUnsupported,
    /// The client answered a plugin (custom query) request that was never
    /// sent.
    PluginUnsupported,
    /// The client answered a cookie request that was never sent.
    CookieUnsupported,
    /// A 1.20.1 packet arrived in the Configuration state.
    ConfigurationWithoutSupport,
}

/// The bytes of a packet: its id, then its fields.
pub open spec fn packet_bytes<P: Packet>(m: P::Model) -> Seq<u8> {
    spec_varint_encode(P::spec_id()) + P::spec_write(m)
}

/// The frame of a packet in the compression state `t`.
pub open spec fn framed<P: Packet>(m: P::Model, t: Option<i32>) -> Seq<u8> {
    spec_frame(packet_bytes::<P>(m), t)
}

/// What a decision does: the frames it sends, the next state and
/// compression threshold, and whether the connection goes on.
pub struct Step {
    pub out: Seq<u8>,
    pub state: State,
    pub threshold: Option<i32>,
    pub result: Result<(), ConnError>,
}

/// A step that sends `out` and changes nothing else.
pub open spec fn send_only(c: &Connection, out: Seq<u8>) -> Step {
    Step { out, state: c.state, threshold: c.compression_threshold, result: Ok(()) }
}

/// A step that ends the connection with `e` and sends nothing.
pub open spec fn fail(c: &Connection, e: ConnError) -> Step {
    Step { out: Seq::empty(), state: c.state, threshold: c.compression_threshold, result: Err(e) }
}

/// The decision-relevant part of a client connection.
pub struct Connection {
    /// The selected protocol version, fixed for the connection's lifetime.
    pub protocol: ProtocolKind,
    /// The buffer of bytes read from the socket and not yet taken.
    pub buffer: bytes::BytesMut,
    /// The connection state.
    pub state: State,
    /// The compression threshold once `S2CSetCompression` has been sent.
    pub compression_threshold: Option<i32>,
}

/// What taking a packet from the read buffer gives.
pub ghost enum ParseOutcome {
    /// No packet this round (more bytes are needed, or an undecodable
    /// packet was skipped in Play or Configuration).
    NoPacket,
    /// A decoded packet.
    Packet(DecodedC2SModel),
    /// The connection ends.
    Fail(ConnError),
}

/// What [`Connection::try_parse_packet`] gives for the buffered bytes `s`.
pub open spec fn spec_parse_packet(
    protocol: ProtocolKind,
    state: State,
    threshold: Option<i32>,
    s: Seq<u8>,
) -> ParseOutcome {
    match spec_take_frame(s, threshold) {
        FrameStep::NeedMore => ParseOutcome::NoPacket,
        FrameStep::Fail(e, _) => ParseOutcome::Fail(ConnError::Frame(e)),
        FrameStep::Frame(body, _) => match spec_decode_c2s(protocol, state, body) {
            Ok(m) => ParseOutcome::Packet(m),
            Err(e) => if state == State::Play || state == State::Configuration {
                ParseOutcome::NoPacket
            } else {
                ParseOutcome::Fail(ConnError::Decode(e))
            },
        },
    }
}

impl Connection {
    /// A connection of the given version in the Handshake state, with an
    /// empty read buffer (reserving `max_packet_size` bytes) and no
    /// compression.
    pub fn new(protocol: ProtocolKind, max_packet_size: usize) -> (r: Connection)
        ensures
            r.protocol == protocol,
            r.state == State::Handshake,
            r.compression_threshold is None,
            bytes_mut_contents(r.buffer) == Seq::<u8>::empty(),
    {
        Connection {
            protocol,
            buffer: new_buffer(max_packet_size),
            state: State::Handshake,
            compression_threshold: None,
        }
    }

    /// Takes one packet from the read buffer without waiting for more
    /// bytes. A frame's bytes are consumed once it is whole, whether or not
    /// its packet decodes; in Play and Configuration an undecodable packet
    /// is skipped (many of the client's packets there are not modeled).
    pub fn try_parse_packet(&mut self) -> (r: Result<Option<DecodedC2S>, ConnError>)
        ensures
            final(self).protocol == old(self).protocol,
            final(self).state == old(self).state,
            final(self).compression_threshold == old(self).compression_threshold,
            bytes_mut_contents(final(self).buffer) == bytes_mut_contents(old(self).buffer).skip(
                spec_take_frame_consumed(old(self)) as int,
            ),
            match spec_parse_packet(
                old(self).protocol,
                old(self).state,
                old(self).compression_threshold,
                bytes_mut_contents(old(self).buffer),
            ) {
                ParseOutcome::NoPacket => r matches Ok(None),
                ParseOutcome::Packet(m) => r matches Ok(Some(p)) && p.model() == m,
                ParseOutcome::Fail(e) => r == Err::<Option<DecodedC2S>, ConnError>(e),
            },
    {
        let body = match take_frame(&mut self.buffer, self.compression_threshold) {
            Ok(Some(b)) => b,
            Ok(None) => return Ok(None),
            Err(e) => return Err(ConnError::Frame(e)),
        };
        match DecodedC2S::decode(self.protocol, self.state, body.as_slice()) {
            Ok(p) => Ok(Some(p)),
            Err(e) => {
                if self.state == State::Play || self.state == State::Configuration {
                    Ok(None)
                } else {
                    Err(ConnError::Decode(e))
                }
            },
        }
    }

    /// Appends the frame of `packet`: its id and fields, length-prefixed
    /// and compressed as the connection's compression state asks.
    pub fn write_packet<P: Packet>(&self, packet: &P, out: &mut Vec<u8>)
        requires
            P::encodable(packet.model()),
        ensures
            final(out)@ == old(out)@ + framed::<P>(packet.model(), self.compression_threshold),
    {
        send(out, packet, self.compression_threshold)
    }

    /// Whether the Play keep-alive timer runs: only in the Play state.
    pub fn keepalive_due(&self) -> (r: bool)
        ensures
            r == (self.state == State::Play),
    {
        self.state == State::Play
    }

    /// The frame of a server keep-alive with the given id. The keep-alive
    /// layout (`id: i64`) is the same in both versions, and the 1.20.1
    /// packet is used for both.
    pub fn keepalive_frame(&self, id: i64, out: &mut Vec<u8>)
        ensures
            final(out)@ == old(out)@ + framed::<crate::v1_20_1::s2c::play::S2CKeepAlive>(
                (id, ()),
                self.compression_threshold,
            ),
    {
        let p = crate::v1_20_1::s2c::play::S2CKeepAlive { id };
        self.write_packet(&p, out);
    }
}

/// The bytes that taking the next frame consumes.
pub open spec fn spec_take_frame_consumed(c: &Connection) -> nat {
    crate::server::framing::step_consumed(
        spec_take_frame(bytes_mut_contents(c.buffer), c.compression_threshold),
    )
}

/// The decision has been applied: `c1` and `o1` are the connection and the
/// output after a call that started from `c0` and `o0` and returned `r`,
/// for the step `st`: the call returns the step's result, appends exactly
/// the step's frames and moves to the step's state and compression
/// threshold, leaving the read buffer alone.
pub open spec fn step_applied(
    c0: Connection,
    c1: Connection,
    o0: Seq<u8>,
    o1: Seq<u8>,
    r: Result<(), ConnError>,
    st: Step,
) -> bool {
    &&& c1.protocol == c0.protocol
    &&& bytes_mut_contents(c1.buffer) == bytes_mut_contents(c0.buffer)
    &&& match st.result {
        Ok(_) => {
            &&& r == st.result
            &&& o1 == o0 + st.out
            &&& c1.state == st.state
            &&& c1.compression_threshold == st.threshold
        },
        Err(e) => {
            &&& r == Err::<(), ConnError>(e)
            &&& o1 == o0
            &&& c1.state == c0.state
            &&& c1.compression_threshold == c0.compression_threshold
        },
    }
}

/// The protocol number and intention of a handshake packet.
pub open spec fn handshake_fields(m: DecodedC2SModel) -> Option<(i32, ClientIntent)> {
    match m {
        DecodedC2SModel::V1_20_1(C2SModel20::Handshake((pv, (_, (_, (ns, ())))))) => Some(
            (pv, ns),
        ),
        DecodedC2SModel::V1_21_1(C2SModel21::Handshake((pv, (_, (_, (ns, ())))))) => Some(
            (pv, ns),
        ),
        _ => None,
    }
}

/// The Handshake state: the client's protocol number must be the selected
/// version's (compared as `usize`); the intention then leads to Status or
/// Login. Transfer is refused, and Configuration is never entered here.
pub open spec fn spec_handshake(c: &Connection, m: DecodedC2SModel) -> Step {
    match handshake_fields(m) {
        None => fail(c, ConnError::UnexpectedPacket(State::Handshake)),
        Some((pv, ns)) => if pv as usize != kind_protocol_version(c.protocol) {
            fail(c, ConnError::ProtocolMismatch(pv))
        } else {
            match ns {
                ClientIntent::Status => Step {
                    out: Seq::empty(),
                    state: State::Status,
                    threshold: c.compression_threshold,
                    result: Ok(()),
                },
                ClientIntent::Login => Step {
                    out: Seq::empty(),
                    state: State::Login,
                    threshold: c.compression_threshold,
                    result: Ok(()),
                },
                ClientIntent::Transfer => fail(c, ConnError::TransferUnsupported),
            }
        },
    }
}

/// The Status state: a status request is answered with the status
/// response, a ping with a pong carrying its payload.
pub open spec fn spec_status(c: &Connection, s: &Settings, m: DecodedC2SModel) -> Step {
    let t = c.compression_threshold;
    match m {
        DecodedC2SModel::V1_20_1(C2SModel20::StatusRequest(_)) => send_only(
            c,
            framed::<status20::S2CStatusResponse>((s.status_json@, ()), t),
        ),
        DecodedC2SModel::V1_20_1(C2SModel20::Ping((payload, ()))) => send_only(
            c,
            framed::<status20::S2CPong>((payload, ()), t),
        ),
        DecodedC2SModel::V1_21_1(C2SModel21::StatusRequest(_)) => send_only(
            c,
            framed::<status21::S2CStatusResponse>((s.status_json@, ()), t),
        ),
        DecodedC2SModel::V1_21_1(C2SModel21::Ping((payload, ()))) => send_only(
            c,
            framed::<status21::S2CPong>((payload, ()), t),
        ),
        _ => fail(c, ConnError::UnexpectedPacket(State::Status)),
    }
}

/// The compression announcement that precedes `LoginSuccess` (when
/// compression is enabled) and the compression state after it.
pub open spec fn spec_compression_prefix(s: &Settings, t: Option<i32>) -> (Seq<u8>, Option<i32>) {
    match s.compression {
        Some(th) => (spec_set_compression(th, t), Some(th)),
        None => (Seq::empty(), t),
    }
}

/// The Login state. A login start (1.20.1) or hello (1.21.1) with an
/// invalid username is answered with a disconnect and nothing else.
/// Otherwise compression is announced when enabled (it applies from the
/// next packet on), then `LoginSuccess` is sent; 1.20.1 then enters Play
/// and sends its Play burst, while 1.21.1 waits in Login for the client's
/// acknowledgement, which enters Configuration and sends the Configuration
/// burst. Answers to requests that are never sent (encryption, plugin or
/// custom query, cookie) end the connection, as does any other packet.
pub open spec fn spec_login(c: &Connection, s: &Settings, m: DecodedC2SModel) -> Step {
    let t0 = c.compression_threshold;
    let (pre, t) = spec_compression_prefix(s, t0);
    match m {
        DecodedC2SModel::V1_20_1(C2SModel20::LoginStart((name, _))) => if !valid_username_bytes(
            vstd::utf8::encode_utf8(name),
        ) {
            send_only(c, spec_invalid_username_v1_20_1(t0))
        } else {
            Step {
                out: pre + spec_login_success_v1_20_1(name, t) + spec_play_burst_v1_20_1(s, t),
                state: State::Play,
                threshold: t,
                result: Ok(()),
            }
        },
        DecodedC2SModel::V1_20_1(C2SModel20::EncryptionResponse(_)) => fail(
            c,
            ConnError::EncryptionUnsupported,
        ),
        DecodedC2SModel::V1_20_1(C2SModel20::LoginPluginResponse(_)) => fail(
            c,
            ConnError::PluginUnsupported,
        ),
        DecodedC2SModel::V1_21_1(C2SModel21::Hello((name, _))) => if !valid_username_bytes(
            vstd::utf8::encode_utf8(name),
        ) {
            send_only(c, spec_invalid_username_v1_21_1(t0))
        } else {
            Step {
                out: pre + spec_login_success_v1_21_1(name, t),
                state: c.state,
                threshold: t,
                result: Ok(()),
            }
        },
        DecodedC2SModel::V1_21_1(C2SModel21::LoginAcknowledged(_)) => Step {
            out: spec_configuration_burst(s, t0),
            state: State::Configuration,
            threshold: t0,
            result: Ok(()),
        },
        DecodedC2SModel::V1_21_1(C2SModel21::Key(_)) => fail(c, ConnError::EncryptionUnsupported),
        DecodedC2SModel::V1_21_1(C2SModel21::CustomQueryAnswer(_)) => fail(
            c,
            ConnError::PluginUnsupported,
        ),
        DecodedC2SModel::V1_21_1(C2SModel21::CookieResponse(_)) => fail(
            c,
            ConnError::CookieUnsupported,
        ),
        _ => fail(c, ConnError::UnexpectedPacket(State::Login)),
    }
}

/// The Configuration state (1.21.1 only): the client's finish is echoed,
/// the connection enters Play and the 1.21.1 Play burst is sent; every
/// other 1.21.1 packet is ignored. A 1.20.1 packet ends the connection.
pub open spec fn spec_configuration(c: &Connection, s: &Settings, m: DecodedC2SModel) -> Step {
    let t = c.compression_threshold;
    match m {
        DecodedC2SModel::V1_20_1(_) => fail(c, ConnError::ConfigurationWithoutSupport),
        DecodedC2SModel::V1_21_1(C2SModel21::FinishConfigurationAck(_)) => Step {
            out: framed::<config21::S2CFinishConfiguration>((), t) + spec_play_burst_v1_21_1(
                s,
                t,
            ),
            state: State::Play,
            threshold: t,
            result: Ok(()),
        },
        DecodedC2SModel::V1_21_1(_) => send_only(c, Seq::empty()),
    }
}

/// The Play state: a client keep-alive is echoed back with its id as the
/// version's server keep-alive; every other packet (teleport acks,
/// movement, the rest) is taken silently.
pub open spec fn spec_play(c: &Connection, m: DecodedC2SModel) -> Step {
    let t = c.compression_threshold;
    match m {
        DecodedC2SModel::V1_20_1(C2SModel20::KeepAlive((id, ()))) => send_only(
            c,
            framed::<crate::v1_20_1::s2c::play::S2CKeepAlive>((id, ()), t),
        ),
        DecodedC2SModel::V1_21_1(C2SModel21::KeepAlive((id, ()))) => send_only(
            c,
            framed::<crate::v1_21_1::s2c::play::S2CKeepAlive>((id, ()), t),
        ),
        _ => send_only(c, Seq::empty()),
    }
}

/// What handing a packet to the connection does, by state.
pub open spec fn spec_dispatch(c: &Connection, s: &Settings, m: DecodedC2SModel) -> Step {
    match c.state {
        State::Handshake => spec_handshake(c, m),
        State::Status => spec_status(c, s, m),
        State::Login => spec_login(c, s, m),
        State::Configuration => spec_configuration(c, s, m),
        State::Play => spec_play(c, m),
    }
}

/// The compressed bytes of `body` inflate back to it (a fact of zlib that
/// the compressing call states of its results).
pub open spec fn inflates_back(body: Seq<u8>, t: Option<i32>) -> bool {
    compressing(body.len(), t) ==> zlib_inflate(zlib_deflate(body), body.len()) == Some(body)
}

/// A client packet framed in the connection's compression state is taken
/// back from the read buffer as that packet, in its own state, whatever
/// follows it (1.20.1).
pub proof fn lemma_framed_packet_parsed_v1_20_1(g: C2SModel20, t: Option<i32>, rest: Seq<u8>)
    requires
        decodable20(g),
        encodable20(g),
        frame_readable(spec_encode20(g), t),
        inflates_back(spec_encode20(g), t),
    ensures
        spec_parse_packet(
            ProtocolKind::V1_20_1(V1_20_1),
            state_of20(g),
            t,
            spec_frame(spec_encode20(g), t) + rest,
        ) == ParseOutcome::Packet(DecodedC2SModel::V1_20_1(g)),
{
    let b = spec_encode20(g);
    lemma_take_frame_of_frame(b, t, rest);
    lemma_roundtrip20(g, Seq::empty());
    assert(b + Seq::<u8>::empty() =~= b);
}

/// A client packet framed in the connection's compression state is taken
/// back from the read buffer as that packet, in its own state, whatever
/// follows it (1.21.1).
pub proof fn lemma_framed_packet_parsed_v1_21_1(g: C2SModel21, t: Option<i32>, rest: Seq<u8>)
    requires
        decodable21(g),
        encodable21(g),
        frame_readable(spec_encode21(g), t),
        inflates_back(spec_encode21(g), t),
    ensures
        spec_parse_packet(
            ProtocolKind::V1_21_1(V1_21_1),
            state_of21(g),
            t,
            spec_frame(spec_encode21(g), t) + rest,
        ) == ParseOutcome::Packet(DecodedC2SModel::V1_21_1(g)),
{
    let b = spec_encode21(g);
    lemma_take_frame_of_frame(b, t, rest);
    lemma_roundtrip21(g, Seq::empty());
    assert(b + Seq::<u8>::empty() =~= b);
}

/// The state changes a packet can cause: Handshake to Status or Login,
/// Login to Play or Configuration, Configuration to Play.
pub open spec fn allowed_transition(from: State, to: State) -> bool {
    ||| from == to
    ||| from == State::Handshake && (to == State::Status || to == State::Login)
    ||| from == State::Login && (to == State::Play || to == State::Configuration)
    ||| from == State::Configuration && to == State::Play
}

/// Every decision moves the connection forward along the allowed
/// transitions, never out of Status or Play; Configuration is entered
/// only from Login, on a 1.21.1 `Login Acknowledged`; once compression is
/// on it stays on; and a refusal changes nothing.
pub proof fn lemma_dispatch_transitions(c: &Connection, s: &Settings, m: DecodedC2SModel)
    ensures
        allowed_transition(c.state, spec_dispatch(c, s, m).state),
        spec_dispatch(c, s, m).state == State::Configuration && c.state
            != State::Configuration ==> c.state == State::Login && m matches DecodedC2SModel::V1_21_1(
            C2SModel21::LoginAcknowledged(_),
        ),
        c.compression_threshold is Some ==> spec_dispatch(c, s, m).threshold is Some,
        spec_dispatch(c, s, m).result is Err ==> spec_dispatch(c, s, m).out.len() == 0
            && spec_dispatch(c, s, m).state == c.state && spec_dispatch(c, s, m).threshold
            == c.compression_threshold,
{
}

impl Connection {
    /// Handles a packet in the Handshake state.
    pub fn handle_handshake(&mut self, packet: DecodedC2S) -> (r: Result<(), ConnError>)
        ensures
            step_applied(*old(self), *final(self), Seq::empty(), Seq::empty(), r, spec_handshake(
                old(self),
                packet.model(),
            )),
    {
        let (pv, ns) = match packet {
            DecodedC2S::V1_20_1(C2S20::Handshake(h)) => (h.protocol_version, h.next_state),
            DecodedC2S::V1_21_1(C2S21::Handshake(h)) => (h.protocol_version, h.next_state),
            _ => return Err(ConnError::UnexpectedPacket(State::Handshake)),
        };
        let server_protocol = self.protocol.protocol_version();
        if pv.0 as usize != server_protocol {
            return Err(ConnError::ProtocolMismatch(pv.0));
        }
        match intent_to_state(ns) {
            Ok(st) => {
                self.state = st;
                Ok(())
            },
            Err(IntentError::TransferUnsupported) => Err(ConnError::TransferUnsupported),
        }
    }

    /// Handles a packet in the Status state.
    pub fn handle_status(&mut self, packet: DecodedC2S, s: &Settings, out: &mut Vec<u8>) -> (r:
        Result<(), ConnError>)
        requires
            s.wf(),
        ensures
            step_applied(*old(self), *final(self), old(out)@, final(out)@, r, spec_status(
                old(self),
                s,
                packet.model(),
            )),
    {
        let t = self.compression_threshold;
        match packet {
            DecodedC2S::V1_20_1(C2S20::StatusRequest(_)) => {
                send(out, &status20::S2CStatusResponse { json_response: s.status_json.clone() }, t);
                Ok(())
            },
            DecodedC2S::V1_20_1(C2S20::Ping(ping)) => {
                send(out, &status20::S2CPong { payload: ping.payload }, t);
                Ok(())
            },
            DecodedC2S::V1_21_1(C2S21::StatusRequest(_)) => {
                send(out, &status21::S2CStatusResponse { json_response: s.status_json.clone() }, t);
                Ok(())
            },
            DecodedC2S::V1_21_1(C2S21::Ping(ping)) => {
                send(out, &status21::S2CPong { payload: ping.payload }, t);
                Ok(())
            },
            _ => Err(ConnError::UnexpectedPacket(State::Status)),
        }
    }

    /// Announces compression when it is enabled, then switches to it.
    fn start_compression(&mut self, s: &Settings, out: &mut Vec<u8>)
        ensures
            final(self).protocol == old(self).protocol,
            final(self).state == old(self).state,
            bytes_mut_contents(final(self).buffer) == bytes_mut_contents(old(self).buffer),
            ({
                let (pre, t) = spec_compression_prefix(s, old(self).compression_threshold);
                &&& final(out)@ == old(out)@ + pre
                &&& final(self).compression_threshold == t
            }),
    {
        match s.compression {
            Some(th) => {
                set_compression(out, th, self.compression_threshold);
                self.compression_threshold = Some(th);
            },
            None => {
                assert(out@ =~= out@ + Seq::<u8>::empty());
            },
        }
    }

    /// Handles a packet in the Login state.
    pub fn handle_login(&mut self, packet: DecodedC2S, s: &Settings, out: &mut Vec<u8>) -> (r:
        Result<(), ConnError>)
        requires
            s.wf(),
        ensures
            step_applied(*old(self), *final(self), old(out)@, final(out)@, r, spec_login(
                old(self),
                s,
                packet.model(),
            )),
    {
        let ghost o0 = out@;
        match packet {
            DecodedC2S::V1_20_1(C2S20::LoginStart(start)) => {
                if !is_valid_username(start.username.as_str()) {
                    invalid_username_v1_20_1(out, self.compression_threshold);
                    return Ok(());
                }
                self.start_compression(s, out);
                login_success_v1_20_1(out, &start.username, self.compression_threshold);
                self.state = State::Play;
                play_burst_v1_20_1(out, s, self.compression_threshold);
                proof {
                    let t = self.compression_threshold;
                    let (pre, tt) = spec_compression_prefix(s, old(self).compression_threshold);
                    assert(tt == t);
                    assert(out@ =~= o0 + (pre + spec_login_success_v1_20_1(start.username@, t)
                        + spec_play_burst_v1_20_1(s, t)));
                }
                Ok(())
            },
            DecodedC2S::V1_20_1(C2S20::EncryptionResponse(_)) => Err(
                ConnError::EncryptionUnsupported,
            ),
            DecodedC2S::V1_20_1(C2S20::LoginPluginResponse(_)) => Err(
                ConnError::PluginUnsupported,
            ),
            DecodedC2S::V1_21_1(C2S21::Hello(hello)) => {
                if !is_valid_username(hello.name.as_str()) {
                    invalid_username_v1_21_1(out, self.compression_threshold);
                    return Ok(());
                }
                self.start_compression(s, out);
                login_success_v1_21_1(out, &hello.name, self.compression_threshold);
                proof {
                    let t = self.compression_threshold;
                    let (pre, tt) = spec_compression_prefix(s, old(self).compression_threshold);
                    assert(out@ =~= o0 + (pre + spec_login_success_v1_21_1(hello.name@, t)));
                }
                Ok(())
            },
            DecodedC2S::V1_21_1(C2S21::LoginAcknowledged(_)) => {
                self.state = State::Configuration;
                self.send_configuration_burst(s, out);
                Ok(())
            },
            DecodedC2S::V1_21_1(C2S21::Key(_)) => Err(ConnError::EncryptionUnsupported),
            DecodedC2S::V1_21_1(C2S21::CustomQueryAnswer(_)) => Err(ConnError::PluginUnsupported),
            DecodedC2S::V1_21_1(C2S21::CookieResponse(_)) => Err(ConnError::CookieUnsupported),
            _ => Err(ConnError::UnexpectedPacket(State::Login)),
        }
    }

    /// Sends the 1.21.1 Configuration burst (after `Login Acknowledged`).
    pub fn send_configuration_burst(&mut self, s: &Settings, out: &mut Vec<u8>)
        requires
            s.wf(),
        ensures
            *final(self) == *old(self),
            final(out)@ == old(out)@ + spec_configuration_burst(s, old(self).compression_threshold),
    {
        configuration_burst(out, s, self.compression_threshold)
    }

    /// Sends the 1.21.1 Play burst (once Configuration has finished).
    pub fn send_play_burst_v1_21_1(&mut self, s: &Settings, out: &mut Vec<u8>)
        requires
            s.wf(),
        ensures
            *final(self) == *old(self),
            final(out)@ == old(out)@ + spec_play_burst_v1_21_1(s, old(self).compression_threshold),
    {
        play_burst_v1_21_1(out, s, self.compression_threshold)
    }

    /// Handles a packet in the Configuration state.
    pub fn handle_configuration(&mut self, packet: DecodedC2S, s: &Settings, out: &mut Vec<u8>) -> (r:
        Result<(), ConnError>)
        requires
            s.wf(),
        ensures
            step_applied(*old(self), *final(self), old(out)@, final(out)@, r, spec_configuration(
                old(self),
                s,
                packet.model(),
            )),
    {
        match packet {
            DecodedC2S::V1_20_1(_) => Err(ConnError::ConfigurationWithoutSupport),
            DecodedC2S::V1_21_1(C2S21::FinishConfigurationAck(_)) => {
                let ghost o0 = out@;
                send(out, &config21::S2CFinishConfiguration {  }, self.compression_threshold);
                self.state = State::Play;
                self.send_play_burst_v1_21_1(s, out);
                proof {
                    let t = self.compression_threshold;
                    assert(out@ =~= o0 + (framed::<config21::S2CFinishConfiguration>((), t)
                        + spec_play_burst_v1_21_1(s, t)));
                }
                Ok(())
            },
            DecodedC2S::V1_21_1(_) => {
                assert(out@ =~= out@ + Seq::<u8>::empty());
                Ok(())
            },
        }
    }

    /// Handles a packet in the Play state: a client keep-alive is echoed
    /// back; the rest is taken silently.
    pub fn handle_play(&mut self, packet: DecodedC2S, out: &mut Vec<u8>) -> (r: Result<
        (),
        ConnError,
    >)
        ensures
            step_applied(*old(self), *final(self), old(out)@, final(out)@, r, spec_play(
                old(self),
                packet.model(),
            )),
    {
        match packet {
            DecodedC2S::V1_20_1(C2S20::KeepAlive(k)) => {
                self.write_packet(&crate::v1_20_1::s2c::play::S2CKeepAlive { id: k.id }, out);
                Ok(())
            },
            DecodedC2S::V1_21_1(C2S21::KeepAlive(k)) => {
                self.write_packet(&crate::v1_21_1::s2c::play::S2CKeepAlive { id: k.id }, out);
                Ok(())
            },
            _ => {
                assert(out@ =~= out@ + Seq::<u8>::empty());
                Ok(())
            },
        }
    }

    /// Routes a decoded packet to the handler of the current state.
    pub fn dispatch_packet(&mut self, packet: DecodedC2S, s: &Settings, out: &mut Vec<u8>) -> (r:
        Result<(), ConnError>)
        requires
            s.wf(),
        ensures
            step_applied(*old(self), *final(self), old(out)@, final(out)@, r, spec_dispatch(
                old(self),
                s,
                packet.model(),
            )),
    {
        match self.state {
            State::Handshake => self.handle_handshake(packet),
            State::Status => self.handle_status(packet, s, out),
            State::Login => self.handle_login(packet, s, out),
            State::Configuration => self.handle_configuration(packet, s, out),
            State::Play => self.handle_play(packet, out),
        }
    }
}

} // verus!
