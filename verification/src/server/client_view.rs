//! The decisions of a connection as the client sees them: the output split
//! into frames, each frame's body decoded with the client-bound packet group
//! of the connection's version. The laws here say what each answer carries
//! in terms of the packet a client reads, apart from how the answers are
//! assembled.

use vstd::prelude::*;

use crate::codec::Wire;
use crate::error::DecodeError;
use crate::server::connection::{
    is_username_byte, packet_bytes, spec_configuration, spec_handshake, spec_login, spec_play, spec_status,
    valid_username_bytes, Connection, ConnError, Settings,
};
use crate::server::framing::spec_frame;
use crate::server::protocol::{kind_protocol_version, DecodedC2SModel};
use crate::common::chunk_payload::{
    spec_chunk_payload, spec_heightmaps_v1_20_1, spec_heightmaps_v1_21_1,
};
use crate::server::bursts::{
    limbo_abilities, spec_play_burst_v1_20_1, spec_play_burst_v1_21_1, FLYING_SPEED_BITS,
    WALKING_SPEED_BITS,
};
use crate::state::{ClientIntent, State};
use crate::v1_21_1::s2c::configuration as config21;
use crate::v1_21_1::s2c::play as play21;
use crate::v1_20_1::s2c::login as login20;
use crate::v1_20_1::s2c::play as play20;
use crate::v1_20_1::c2s::C2SPacketModel as C2SModel20;
use crate::v1_20_1::s2c::{
    lemma_s2c_packet_roundtrip as lemma_roundtrip_s2c20, spec_decode_s2c_packet as decode20,
    spec_encode_s2c_packet as encode20, S2CPacketModel as S2CModel20,
};
use crate::v1_21_1::c2s::C2SPacketModel as C2SModel21;
use crate::v1_21_1::s2c::{
    lemma_s2c_packet_roundtrip as lemma_roundtrip_s2c21, spec_decode_s2c_packet as decode21,
    spec_encode_s2c_packet as encode21, S2CPacketModel as S2CModel21,
};

verus! {

/// Frames written one after another: each body framed in its own
/// compression state.
pub open spec fn frames_of(fs: Seq<(Seq<u8>, Option<i32>)>) -> Seq<u8>
    decreases fs.len(),
{
    if fs.len() == 0 {
        Seq::empty()
    } else {
        frames_of(fs.drop_last()) + spec_frame(fs.last().0, fs.last().1)
    }
}

/// Appending a frame to a list of frames appends its bytes.
pub proof fn lemma_frames_push(fs: Seq<(Seq<u8>, Option<i32>)>, b: Seq<u8>, t: Option<i32>)
    ensures
        frames_of(fs.push((b, t))) == frames_of(fs) + spec_frame(b, t),
{
    assert(fs.push((b, t)).drop_last() =~= fs);
}

/// A single frame.
pub proof fn lemma_frames_one(b: Seq<u8>, t: Option<i32>)
    ensures
        frames_of(seq![(b, t)]) == spec_frame(b, t),
{
    lemma_frames_push(Seq::empty(), b, t);
    assert(seq![(b, t)] =~= Seq::<(Seq<u8>, Option<i32>)>::empty().push((b, t)));
    assert(frames_of(Seq::<(Seq<u8>, Option<i32>)>::empty()) =~= Seq::<u8>::empty());
    assert(Seq::<u8>::empty() + spec_frame(b, t) =~= spec_frame(b, t));
}

/// A 1.20.1 client reads back every packet of its group from that packet's
/// bytes, in the packet's state.
proof fn lemma_decode20(g: S2CModel20)
    requires
        crate::v1_20_1::s2c::decodable_s2c_packet(g),
        crate::v1_20_1::s2c::encodable_s2c_packet(g),
    ensures
        decode20(crate::v1_20_1::s2c::state_of_s2c_packet(g), encode20(g)) == Ok::<
            S2CModel20,
            DecodeError,
        >(g),
{
    lemma_roundtrip_s2c20(g, Seq::empty());
    assert(encode20(g) + Seq::<u8>::empty() =~= encode20(g));
}

/// A 1.21.1 client reads back every packet of its group from that packet's
/// bytes, in the packet's state.
proof fn lemma_decode21(g: S2CModel21)
    requires
        crate::v1_21_1::s2c::decodable_s2c_packet(g),
        crate::v1_21_1::s2c::encodable_s2c_packet(g),
    ensures
        decode21(crate::v1_21_1::s2c::state_of_s2c_packet(g), encode21(g)) == Ok::<
            S2CModel21,
            DecodeError,
        >(g),
{
    lemma_roundtrip_s2c21(g, Seq::empty());
    assert(encode21(g) + Seq::<u8>::empty() =~= encode21(g));
}

/// A ping in the Status state is answered by exactly one frame, in the
/// connection's compression state, which a client reads as a pong carrying
/// the ping's payload; the state, the compression and the connection go on
/// unchanged. This holds in both versions.
pub proof fn lemma_ping_answered_with_its_payload(c: &Connection, s: &Settings, m: DecodedC2SModel)
    requires
        m matches DecodedC2SModel::V1_20_1(C2SModel20::Ping(_)) || m matches DecodedC2SModel::V1_21_1(
            C2SModel21::Ping(_),
        ),
    ensures
        ({
            let st = spec_status(c, s, m);
            let t = c.compression_threshold;
            &&& st.result is Ok
            &&& st.state == c.state
            &&& st.threshold == t
            &&& exists|b: Seq<u8>|
                #![trigger spec_frame(b, t)]
                st.out == frames_of(seq![(b, t)]) && match m {
                    DecodedC2SModel::V1_20_1(C2SModel20::Ping((p, _))) => decode20(State::Status, b)
                        == Ok::<S2CModel20, DecodeError>(S2CModel20::Pong((p, ()))),
                    DecodedC2SModel::V1_21_1(C2SModel21::Ping((p, _))) => decode21(State::Status, b)
                        == Ok::<S2CModel21, DecodeError>(S2CModel21::Pong((p, ()))),
                    _ => false,
                }
        }),
{
    let t = c.compression_threshold;
    match m {
        DecodedC2SModel::V1_20_1(C2SModel20::Ping((p, _))) => {
            let g = S2CModel20::Pong((p, ()));
            lemma_decode20(g);
            lemma_frames_one(encode20(g), t);
            assert(spec_status(c, s, m).out == spec_frame(encode20(g), t));
        },
        DecodedC2SModel::V1_21_1(C2SModel21::Ping((p, _))) => {
            let g = S2CModel21::Pong((p, ()));
            lemma_decode21(g);
            lemma_frames_one(encode21(g), t);
            assert(spec_status(c, s, m).out == spec_frame(encode21(g), t));
        },
        _ => {},
    }
}

/// The protocol number and intention a handshake packet carries, read off
/// the decoded packet of either version.
pub open spec fn handshake_of(m: DecodedC2SModel) -> Option<(i32, ClientIntent)> {
    match m {
        DecodedC2SModel::V1_20_1(C2SModel20::Handshake((pv, (_, (_, (ns, ())))))) => Some(
            (pv, ns),
        ),
        DecodedC2SModel::V1_21_1(C2SModel21::Handshake((pv, (_, (_, (ns, ())))))) => Some(
            (pv, ns),
        ),
        _ => None,
    }
}

/// Only a client of the selected version gets past the handshake: a
/// protocol number other than the selected version's (compared as `usize`)
/// ends the connection with `ProtocolMismatch` carrying that number, sending
/// nothing and leaving the state unchanged; an equal number leads to Status
/// or Login as asked, and Transfer is refused.
pub proof fn lemma_handshake_checks_protocol(c: &Connection, m: DecodedC2SModel)
    requires
        handshake_of(m) is Some,
    ensures
        ({
            let st = spec_handshake(c, m);
            let (pv, ns) = handshake_of(m)->0;
            &&& pv as usize != kind_protocol_version(c.protocol) ==> {
                &&& st.result == Err::<(), ConnError>(ConnError::ProtocolMismatch(pv))
                &&& st.out.len() == 0
                &&& st.state == c.state
                &&& st.threshold == c.compression_threshold
            }
            &&& st.result is Ok ==> pv as usize == kind_protocol_version(c.protocol)
            &&& pv as usize == kind_protocol_version(c.protocol) ==> {
                &&& ns == ClientIntent::Status ==> st.result is Ok && st.state == State::Status
                &&& ns == ClientIntent::Login ==> st.result is Ok && st.state == State::Login
                &&& ns == ClientIntent::Transfer ==> st.result == Err::<(), ConnError>(
                    ConnError::TransferUnsupported,
                )
                &&& st.out.len() == 0
            }
        }),
{
}

/// A byte that a name may hold: an ASCII digit, capital or small letter,
/// or `_`.
pub open spec fn name_byte_ok(b: u8) -> bool {
    ||| 0x30 <= b <= 0x39
    ||| 0x41 <= b <= 0x5a
    ||| 0x61 <= b <= 0x7a
    ||| b == 0x5f
}

/// A name that is let in: 3 to 16 bytes of UTF-8, each of them allowed (so
/// no space, and nothing outside ASCII).
pub open spec fn name_ok(name: Seq<char>) -> bool {
    let e = vstd::utf8::encode_utf8(name);
    &&& 3 <= e.len() <= 16
    &&& forall|i: int| 0 <= i < e.len() ==> name_byte_ok(#[trigger] e[i])
}

/// The disconnect reason given for a refused name.
pub open spec fn refused_name_reason() -> Seq<char> {
    "{\"text\":\"Invalid username.\"}"@
}

/// A 1.20.1 login start or 1.21.1 hello whose name is not let in is
/// answered by exactly one frame, in the connection's compression state,
/// which a client reads as the login `Disconnect` with the invalid-username
/// reason: no compression is announced, no `LoginSuccess` is sent, and the
/// state and compression stay as they were.
#[verifier::spinoff_prover]
#[verifier::rlimit(60)]
pub proof fn lemma_refused_name_only_disconnects(c: &Connection, s: &Settings, m: DecodedC2SModel)
    requires
        match m {
            DecodedC2SModel::V1_20_1(C2SModel20::LoginStart((name, _))) => !name_ok(name),
            DecodedC2SModel::V1_21_1(C2SModel21::Hello((name, _))) => !name_ok(name),
            _ => false,
        },
    ensures
        ({
            let st = spec_login(c, s, m);
            let t = c.compression_threshold;
            &&& st.result is Ok
            &&& st.state == c.state
            &&& st.threshold == t
            &&& exists|b: Seq<u8>|
                #![trigger spec_frame(b, t)]
                st.out == frames_of(seq![(b, t)]) && match m {
                    DecodedC2SModel::V1_20_1(_) => decode20(State::Login, b) == Ok::<
                        S2CModel20,
                        DecodeError,
                    >(S2CModel20::Disconnect((refused_name_reason(), ()))),
                    _ => decode21(State::Login, b) == Ok::<S2CModel21, DecodeError>(
                        S2CModel21::Disconnect((refused_name_reason(), ())),
                    ),
                }
        }),
{
    reveal_strlit("{\"text\":\"Invalid username.\"}");
    vstd::string::is_ascii_spec_bytes("{\"text\":\"Invalid username.\"}");
    let t = c.compression_threshold;
    match m {
        DecodedC2SModel::V1_20_1(C2SModel20::LoginStart((name, _))) => {
            lemma_name_ok_is_valid(name);
            let g = S2CModel20::Disconnect((refused_name_reason(), ()));
            lemma_decode20(g);
            lemma_frames_one(encode20(g), t);
            assert(spec_login(c, s, m).out == spec_frame(encode20(g), t));
        },
        DecodedC2SModel::V1_21_1(C2SModel21::Hello((name, _))) => {
            lemma_name_ok_is_valid(name);
            let g = S2CModel21::Disconnect((refused_name_reason(), ()));
            lemma_decode21(g);
            lemma_frames_one(encode21(g), t);
            assert(spec_login(c, s, m).out == spec_frame(encode21(g), t));
        },
        _ => {},
    }
}

/// The names that are let in are those the username check accepts.
proof fn lemma_name_ok_is_valid(name: Seq<char>)
    ensures
        name_ok(name) == valid_username_bytes(vstd::utf8::encode_utf8(name)),
{
    let e = vstd::utf8::encode_utf8(name);
    assert(forall|i: int| 0 <= i < e.len() ==> name_byte_ok(#[trigger] e[i]) == is_username_byte(e[i]));
}

/// The compression state after a login that is let in: the configured
/// threshold when compression is enabled, the earlier state otherwise.
pub open spec fn threshold_after_login(c: &Connection, s: &Settings) -> Option<i32> {
    match s.compression {
        Some(th) => Some(th),
        None => c.compression_threshold,
    }
}

/// A 1.21.1 hello whose name is let in is answered, after the compression
/// announcement when compression is enabled (one frame, in the earlier
/// compression state), by a single frame in the new compression state that
/// a client reads as `LoginSuccess` for that name (nil UUID, no properties,
/// lenient error handling); the connection stays in Login, waiting for the
/// acknowledgement.
#[verifier::spinoff_prover]
#[verifier::rlimit(60)]
pub proof fn lemma_accepted_hello_succeeds(c: &Connection, s: &Settings, m: DecodedC2SModel) -> (fs:
    Seq<(Seq<u8>, Option<i32>)>)
    requires
        m matches DecodedC2SModel::V1_21_1(C2SModel21::Hello((name, _))) && name_ok(name),
    ensures
        ({
            let st = spec_login(c, s, m);
            let name = m->V1_21_1_0->Hello_0.0;
            let n = if s.compression is Some { 1int } else { 0int };
            &&& st.result is Ok
            &&& st.state == c.state
            &&& st.threshold == threshold_after_login(c, s)
            &&& st.out == frames_of(fs)
            &&& fs.len() == n + 1
            &&& n == 1 ==> fs[0].1 == c.compression_threshold
            &&& fs[n].1 == threshold_after_login(c, s)
            &&& decode21(State::Login, fs[n].0) == Ok::<S2CModel21, DecodeError>(
                S2CModel21::LoginSuccess((0u128, (name, (Seq::empty(), (false, ()))))),
            )
        }),
{
    let name = m->V1_21_1_0->Hello_0.0;
    lemma_name_ok_is_valid(name);
    let t0 = c.compression_threshold;
    let t = threshold_after_login(c, s);
    let g = S2CModel21::LoginSuccess((0u128, (name, (Seq::empty(), (false, ())))));
    lemma_decode21(g);
    match s.compression {
        Some(th) => {
            let b0 = crate::server::connection::packet_bytes::<
                crate::v1_20_1::s2c::login::S2CSetCompression,
            >((th, ()));
            let fs = seq![(b0, t0), (encode21(g), t)];
            lemma_frames_one(b0, t0);
            lemma_frames_push(seq![(b0, t0)], encode21(g), t);
            assert(seq![(b0, t0)].push((encode21(g), t)) =~= fs);
            assert(spec_login(c, s, m).out =~= frames_of(fs));
            fs
        },
        None => {
            let fs = seq![(encode21(g), t)];
            lemma_frames_one(encode21(g), t);
            assert(spec_login(c, s, m).out =~= frames_of(fs));
            fs
        },
    }
}

/// The packet bodies of the 1.21.1 Play burst, in order.
spec fn play_burst_bodies_v1_21_1(s: &Settings) -> Seq<Seq<u8>> {
    let l = s.limbo;
    let spawn_info = (
        0i32,
        (l.dimension@, (0i64, (l.gamemode as i8, (0xffu8, (false, (true, (None, (0i32, ())))))))),
    );
    seq![
        packet_bytes::<play21::S2CLogin>(
            (
                0i32,
                (
                    false,
                    (
                        seq![l.dimension@],
                        (
                            s.max_players,
                            (
                                l.view_distance,
                                (
                                    l.simulation_distance,
                                    (false, (false, (false, (spawn_info, (false, ()))))),
                                ),
                            ),
                        ),
                    ),
                ),
            ),
        ),
        packet_bytes::<play21::S2CSetChunkCacheCenter>((0i32, (0i32, ()))),
        packet_bytes::<play21::S2CSetChunkCacheRadius>((l.view_distance, ())),
        packet_bytes::<play21::S2CLevelChunkWithLight>(
            (spec_chunk_payload(spec_heightmaps_v1_21_1()), ()),
        ),
        packet_bytes::<play21::S2CSetDefaultSpawnPosition>((l.spawn.model(), (0u32, ()))),
        packet_bytes::<play21::S2CPlayerPosition>(
            (l.x_bits, (l.y_bits, (l.z_bits, (0u32, (0u32, (0u8, (0i32, ()))))))),
        ),
        packet_bytes::<play21::S2CPlayerAbilities>(
            (limbo_abilities(), (FLYING_SPEED_BITS, (WALKING_SPEED_BITS, ()))),
        ),
        packet_bytes::<play21::S2CGameEvent>((7u8, (0u32, ()))),
    ]
}

/// The frames of bodies all in one compression state, in order.
spec fn frames_in_state(bodies: Seq<Seq<u8>>, t: Option<i32>) -> Seq<(Seq<u8>, Option<i32>)>
    decreases bodies.len(),
{
    if bodies.len() == 0 {
        Seq::empty()
    } else {
        frames_in_state(bodies.drop_last(), t).push((bodies.last(), t))
    }
}

/// Framing bodies in one state, one after another, gives the frames of
/// each in turn; each entry is its body in that state.
proof fn lemma_frames_in_state(bodies: Seq<Seq<u8>>, t: Option<i32>)
    ensures
        frames_in_state(bodies, t).len() == bodies.len(),
        forall|i: int|
            0 <= i < bodies.len() ==> #[trigger] frames_in_state(bodies, t)[i] == (bodies[i], t),
        bodies.len() > 0 ==> frames_of(frames_in_state(bodies, t)) == frames_of(
            frames_in_state(bodies.drop_last(), t),
        ) + spec_frame(bodies.last(), t),
    decreases bodies.len(),
{
    if bodies.len() > 0 {
        lemma_frames_in_state(bodies.drop_last(), t);
        lemma_frames_push(frames_in_state(bodies.drop_last(), t), bodies.last(), t);
    }
}

/// Taking one more body adds its frame.
proof fn lemma_frames_take(bodies: Seq<Seq<u8>>, k: int, t: Option<i32>)
    requires
        0 < k <= bodies.len(),
    ensures
        frames_of(frames_in_state(bodies.take(k), t)) == frames_of(
            frames_in_state(bodies.take(k - 1), t),
        ) + spec_frame(bodies[k - 1], t),
{
    assert(bodies.take(k).drop_last() =~= bodies.take(k - 1));
    lemma_frames_in_state(bodies.take(k), t);
}

/// Framing a body before others puts its frame first.
proof fn lemma_frames_prepend(b: Seq<u8>, xs: Seq<Seq<u8>>, t: Option<i32>)
    ensures
        frames_of(frames_in_state(seq![b] + xs, t)) == spec_frame(b, t) + frames_of(
            frames_in_state(xs, t),
        ),
    decreases xs.len(),
{
    let ys = seq![b] + xs;
    let fb = spec_frame(b, t);
    lemma_frames_in_state(ys, t);
    if xs.len() == 0 {
        assert(ys.drop_last() =~= Seq::<Seq<u8>>::empty());
        assert(frames_in_state(Seq::<Seq<u8>>::empty(), t) =~= Seq::<(Seq<u8>, Option<i32>)>::empty());
        let e = frames_of(frames_in_state(ys.drop_last(), t));
        assert(e =~= Seq::<u8>::empty());
        assert(ys.last() == b);
        assert(frames_of(frames_in_state(ys, t)) == e + fb);
        assert(frames_of(frames_in_state(xs, t)) =~= Seq::<u8>::empty());
        assert(e + fb =~= fb + frames_of(frames_in_state(xs, t)));
    } else {
        let zs = xs.drop_last();
        assert(ys.drop_last() =~= seq![b] + zs);
        assert(ys.last() == xs.last());
        lemma_frames_prepend(b, zs, t);
        lemma_frames_in_state(xs, t);
        let fz = frames_of(frames_in_state(zs, t));
        let fl = spec_frame(xs.last(), t);
        assert(frames_of(frames_in_state(ys, t)) == (fb + fz) + fl);
        assert(frames_of(frames_in_state(xs, t)) == fz + fl);
        assert((fb + fz) + fl =~= fb + (fz + fl));
    }
}

/// The 1.21.1 Play burst is the frames of its bodies, in order.
#[verifier::rlimit(40)]
proof fn lemma_burst_frames_v1_21_1(s: &Settings, t: Option<i32>)
    ensures
        spec_play_burst_v1_21_1(s, t) == frames_of(
            frames_in_state(play_burst_bodies_v1_21_1(s), t),
        ),
{
    let bodies = play_burst_bodies_v1_21_1(s);
    lemma_frames_take(bodies, 1, t);
    lemma_frames_take(bodies, 2, t);
    lemma_frames_take(bodies, 3, t);
    lemma_frames_take(bodies, 4, t);
    lemma_frames_take(bodies, 5, t);
    lemma_frames_take(bodies, 6, t);
    lemma_frames_take(bodies, 7, t);
    lemma_frames_take(bodies, 8, t);
    assert(bodies.take(8) =~= bodies);
    assert(bodies.take(0) =~= Seq::<Seq<u8>>::empty());
    assert(frames_of(frames_in_state(Seq::<Seq<u8>>::empty(), t)) =~= Seq::<u8>::empty());
    assert(spec_play_burst_v1_21_1(s, t) =~= frames_of(frames_in_state(bodies, t)));
}

/// What a 1.21.1 client reads from the Play burst's bodies.
proof fn lemma_burst_packets_read_v1_21_1(s: &Settings)
    requires
        s.wf(),
    ensures
        ({
            let b = play_burst_bodies_v1_21_1(s);
            let l = s.limbo;
            &&& match decode21(State::Play, b[0]) {
                Ok(S2CModel21::Login((_, (_, (worlds, (max, (_, (_, (_, (_, (_, ((_, (world, _)), _)))))))))))) => {
                    &&& worlds == seq![l.dimension@]
                    &&& world == l.dimension@
                    &&& max == s.max_players
                },
                _ => false,
            }
            &&& match decode21(State::Play, b[5]) {
                Ok(S2CModel21::PlayerPosition((x, (y, (z, _))))) => {
                    &&& x == l.x_bits
                    &&& y == l.y_bits
                    &&& z == l.z_bits
                },
                _ => false,
            }
            &&& decode21(State::Play, b[7]) == Ok::<S2CModel21, DecodeError>(
                S2CModel21::GameEvent((7u8, (0u32, ()))),
            )
        }),
{
    let l = s.limbo;
    let b = play_burst_bodies_v1_21_1(s);
    let spawn_info = (
        0i32,
        (l.dimension@, (0i64, (l.gamemode as i8, (0xffu8, (false, (true, (None, (0i32, ())))))))),
    );
    let login = S2CModel21::Login(
        (
            0i32,
            (
                false,
                (
                    seq![l.dimension@],
                    (
                        s.max_players,
                        (
                            l.view_distance,
                            (
                                l.simulation_distance,
                                (false, (false, (false, (spawn_info, (false, ()))))),
                            ),
                        ),
                    ),
                ),
            ),
        ),
    );
    lemma_decode21(login);
    let pos = S2CModel21::PlayerPosition(
        (l.x_bits, (l.y_bits, (l.z_bits, (0u32, (0u32, (0u8, (0i32, ()))))))),
    );
    lemma_decode21(pos);
    let ev = S2CModel21::GameEvent((7u8, (0u32, ())));
    lemma_decode21(ev);
}

/// When a 1.21.1 client finishes Configuration, the connection enters Play
/// and sends nine frames in its compression state: a client reads the
/// first, in Configuration, as `FinishConfiguration`, and the rest, in Play,
/// as the Play burst. Its `Login` is read with the configured dimension as
/// the spawn world and the configured player limit, its seventh frame as
/// the `PlayerPosition` placing the player at the configured limbo
/// coordinates (x, y and z in that order), and its last as `GameEvent` 7
/// (start waiting for level chunks).
#[verifier::spinoff_prover]
#[verifier::rlimit(60)]
pub proof fn lemma_finish_configuration_enters_play(c: &Connection, s: &Settings, m: DecodedC2SModel) -> (fs:
    Seq<(Seq<u8>, Option<i32>)>)
    requires
        m matches DecodedC2SModel::V1_21_1(C2SModel21::FinishConfigurationAck(_)),
        s.wf(),
    ensures
        ({
            let st = spec_configuration(c, s, m);
            let l = s.limbo;
            &&& st.result is Ok
            &&& st.state == State::Play
            &&& st.threshold == c.compression_threshold
            &&& st.out == frames_of(fs)
            &&& fs.len() == 9
            &&& forall|i: int| 0 <= i < 9 ==> (#[trigger] fs[i]).1 == c.compression_threshold
            &&& decode21(State::Configuration, fs[0].0) == Ok::<S2CModel21, DecodeError>(
                S2CModel21::FinishConfiguration(()),
            )
            &&& match decode21(State::Play, fs[1].0) {
                Ok(S2CModel21::Login((_, (_, (worlds, (max, (_, (_, (_, (_, (_, ((_, (world, _)), _)))))))))))) => {
                    &&& worlds == seq![l.dimension@]
                    &&& world == l.dimension@
                    &&& max == s.max_players
                },
                _ => false,
            }
            &&& match decode21(State::Play, fs[6].0) {
                Ok(S2CModel21::PlayerPosition((x, (y, (z, _))))) => {
                    &&& x == l.x_bits
                    &&& y == l.y_bits
                    &&& z == l.z_bits
                },
                _ => false,
            }
            &&& decode21(State::Play, fs[8].0) == Ok::<S2CModel21, DecodeError>(
                S2CModel21::GameEvent((7u8, (0u32, ()))),
            )
        }),
{
    let t = c.compression_threshold;
    let burst = play_burst_bodies_v1_21_1(s);
    let b0 = packet_bytes::<config21::S2CFinishConfiguration>(());
    let bodies = seq![b0] + burst;
    let fs = frames_in_state(bodies, t);
    lemma_frames_in_state(bodies, t);
    lemma_frames_prepend(b0, burst, t);
    lemma_burst_frames_v1_21_1(s, t);
    lemma_burst_packets_read_v1_21_1(s);
    lemma_decode21(S2CModel21::FinishConfiguration(()));
    assert(fs[6].0 == burst[5]);
    assert(fs[1].0 == burst[0]);
    assert(fs[8].0 == burst[7]);
    fs
}

/// Framing two runs of frames one after the other.
proof fn lemma_frames_append(a: Seq<(Seq<u8>, Option<i32>)>, b: Seq<(Seq<u8>, Option<i32>)>)
    ensures
        frames_of(a + b) == frames_of(a) + frames_of(b),
    decreases b.len(),
{
    if b.len() == 0 {
        assert(a + b =~= a);
        assert(frames_of(b) =~= Seq::<u8>::empty());
        assert(frames_of(a) + Seq::<u8>::empty() =~= frames_of(a));
    } else {
        assert((a + b).drop_last() =~= a + b.drop_last());
        assert((a + b).last() == b.last());
        lemma_frames_append(a, b.drop_last());
        assert(frames_of(a + b) =~= frames_of(a) + frames_of(b));
    }
}

/// The packet bodies of the 1.20.1 Play burst, in order.
spec fn play_burst_bodies_v1_20_1(s: &Settings) -> Seq<Seq<u8>> {
    let l = s.limbo;
    seq![
        packet_bytes::<play20::S2CLogin>(login_model_v1_20_1(s)),
        packet_bytes::<play20::S2CSetChunkCacheCenter>((0i32, (0i32, ()))),
        packet_bytes::<play20::S2CSetChunkCacheRadius>((l.view_distance, ())),
        packet_bytes::<play20::S2CLevelChunkWithLight>(
            (spec_chunk_payload(spec_heightmaps_v1_20_1()), ()),
        ),
        packet_bytes::<play20::S2CSetDefaultSpawnPosition>((l.spawn.model(), (0u32, ()))),
        packet_bytes::<play20::S2CPlayerPosition>(
            (l.x_bits, (l.y_bits, (l.z_bits, (0u32, (0u32, (0u8, (0i32, ()))))))),
        ),
        packet_bytes::<play20::S2CPlayerAbilities>(
            (limbo_abilities(), (FLYING_SPEED_BITS, (WALKING_SPEED_BITS, ()))),
        ),
        packet_bytes::<play20::S2CGameEvent>((12u8, (0u32, ()))),
    ]
}

/// The model of the 1.20.1 Play `Login` that the burst opens with.
spec fn login_model_v1_20_1(s: &Settings) -> <play20::S2CLogin as Wire>::Model {
    let l = s.limbo;
    (
        0i32,
        (
            false,
            (
                l.gamemode,
                (
                    l.gamemode,
                    (
                        seq![l.dimension@],
                        (
                            s.registry_codec@,
                            (
                                "minecraft:overworld"@,
                                (
                                    l.dimension@,
                                    (
                                        0i64,
                                        (
                                            s.max_players,
                                            (
                                                l.view_distance,
                                                (
                                                    l.simulation_distance,
                                                    (
                                                        true,
                                                        (
                                                            false,
                                                            (false, (false, (None, (0i32, ())))),
                                                        ),
                                                    ),
                                                ),
                                            ),
                                        ),
                                    ),
                                ),
                            ),
                        ),
                    ),
                ),
            ),
        ),
    )
}

/// The 1.20.1 Play burst is the frames of its bodies, in order.
#[verifier::rlimit(40)]
proof fn lemma_burst_frames_v1_20_1(s: &Settings, t: Option<i32>)
    ensures
        spec_play_burst_v1_20_1(s, t) == frames_of(
            frames_in_state(play_burst_bodies_v1_20_1(s), t),
        ),
{
    let bodies = play_burst_bodies_v1_20_1(s);
    lemma_frames_take(bodies, 1, t);
    lemma_frames_take(bodies, 2, t);
    lemma_frames_take(bodies, 3, t);
    lemma_frames_take(bodies, 4, t);
    lemma_frames_take(bodies, 5, t);
    lemma_frames_take(bodies, 6, t);
    lemma_frames_take(bodies, 7, t);
    lemma_frames_take(bodies, 8, t);
    assert(bodies.take(8) =~= bodies);
    assert(bodies.take(0) =~= Seq::<Seq<u8>>::empty());
    assert(frames_of(frames_in_state(Seq::<Seq<u8>>::empty(), t)) =~= Seq::<u8>::empty());
    assert(spec_play_burst_v1_20_1(s, t) =~= frames_of(frames_in_state(bodies, t)));
}

/// The `dimension_type` field of a 1.20.1 Play `Login` model.
pub open spec fn login_dimension_type_v1_20_1(lm: <play20::S2CLogin as Wire>::Model) -> Seq<char> {
    lm.1.1.1.1.1.1.0
}

/// The `dimension` field of a 1.20.1 Play `Login` model.
pub open spec fn login_dimension_v1_20_1(lm: <play20::S2CLogin as Wire>::Model) -> Seq<char> {
    lm.1.1.1.1.1.1.1.0
}

/// A 1.20.1 login start whose name is let in enters Play. The answer is,
/// in order: the compression announcement when compression is enabled
/// (read in Login as `SetCompression` with the configured threshold, framed
/// in the earlier compression state), then, in the new compression state,
/// `LoginSuccess` for that name (nil UUID, no properties) and the eight
/// frames of the Play burst. The burst's `Login` carries the configured
/// dimension as the level and the level list, and always
/// `minecraft:overworld` as the dimension type, the one key of the registry
/// codec's dimension types that the client is sure to know; the burst's
/// `PlayerPosition` is read with the configured limbo coordinates in order.
#[verifier::spinoff_prover]
#[verifier::rlimit(60)]
pub proof fn lemma_accepted_login_start_enters_play(c: &Connection, s: &Settings, m: DecodedC2SModel) -> (r:
    (Seq<(Seq<u8>, Option<i32>)>, <play20::S2CLogin as Wire>::Model))
    requires
        m matches DecodedC2SModel::V1_20_1(C2SModel20::LoginStart((name, _))) && name_ok(name),
        s.wf(),
    ensures
        ({
            let (fs, lm) = r;
            let st = spec_login(c, s, m);
            let name = m->V1_20_1_0->LoginStart_0.0;
            let l = s.limbo;
            let n = if s.compression is Some { 1int } else { 0int };
            let t = threshold_after_login(c, s);
            &&& st.result is Ok
            &&& st.state == State::Play
            &&& st.threshold == t
            &&& st.out == frames_of(fs)
            &&& fs.len() == n + 9
            &&& n == 1 ==> fs[0].1 == c.compression_threshold && decode20(State::Login, fs[0].0)
                == Ok::<S2CModel20, DecodeError>(
                S2CModel20::SetCompression((s.compression->0, ())),
            )
            &&& forall|i: int| n <= i < n + 9 ==> (#[trigger] fs[i]).1 == t
            &&& decode20(State::Login, fs[n].0) == Ok::<S2CModel20, DecodeError>(
                S2CModel20::LoginSuccess((0u128, (name, (Seq::empty(), ())))),
            )
            &&& fs[n + 1].0 == encode20(S2CModel20::Login(lm))
            &&& login_dimension_type_v1_20_1(lm) == "minecraft:overworld"@
            &&& login_dimension_v1_20_1(lm) == l.dimension@
            &&& lm.1.1.1.1.0 == seq![l.dimension@]
            &&& match decode20(State::Play, fs[n + 6].0) {
                Ok(S2CModel20::PlayerPosition((x, (y, (z, _))))) => {
                    &&& x == l.x_bits
                    &&& y == l.y_bits
                    &&& z == l.z_bits
                },
                _ => false,
            }
        }),
{
    let name = m->V1_20_1_0->LoginStart_0.0;
    lemma_name_ok_is_valid(name);
    let l = s.limbo;
    let t0 = c.compression_threshold;
    let t = threshold_after_login(c, s);
    let burst = play_burst_bodies_v1_20_1(s);
    let ls = packet_bytes::<login20::S2CLoginSuccess>((0u128, (name, (Seq::empty(), ()))));
    let after = frames_in_state(seq![ls] + burst, t);
    lemma_frames_in_state(seq![ls] + burst, t);
    lemma_frames_prepend(ls, burst, t);
    lemma_burst_frames_v1_20_1(s, t);
    lemma_decode20(S2CModel20::LoginSuccess((0u128, (name, (Seq::empty(), ())))));
    let lm = login_model_v1_20_1(s);
    let pos = S2CModel20::PlayerPosition(
        (l.x_bits, (l.y_bits, (l.z_bits, (0u32, (0u32, (0u8, (0i32, ()))))))),
    );
    lemma_decode20(pos);
    reveal_strlit("minecraft:overworld");
    let fs = match s.compression {
        Some(th) => {
            let b0 = packet_bytes::<login20::S2CSetCompression>((th, ()));
            lemma_decode20(S2CModel20::SetCompression((th, ())));
            let pre = seq![(b0, t0)];
            lemma_frames_one(b0, t0);
            lemma_frames_append(pre, after);
            assert(spec_login(c, s, m).out =~= frames_of(pre + after));
            pre + after
        },
        None => {
            assert(spec_login(c, s, m).out =~= frames_of(after));
            after
        },
    };
    (fs, lm)
}

/// A status request is answered by exactly one frame, in the connection's
/// compression state, which a client reads as the status response carrying
/// the configured status JSON; nothing else changes. This holds in both
/// versions.
pub proof fn lemma_status_request_answered(c: &Connection, s: &Settings, m: DecodedC2SModel)
    requires
        m matches DecodedC2SModel::V1_20_1(C2SModel20::StatusRequest(_))
            || m matches DecodedC2SModel::V1_21_1(C2SModel21::StatusRequest(_)),
        s.wf(),
    ensures
        ({
            let st = spec_status(c, s, m);
            let t = c.compression_threshold;
            &&& st.result is Ok
            &&& st.state == c.state
            &&& st.threshold == t
            &&& exists|b: Seq<u8>|
                #![trigger spec_frame(b, t)]
                st.out == frames_of(seq![(b, t)]) && match m {
                    DecodedC2SModel::V1_20_1(_) => decode20(State::Status, b) == Ok::<
                        S2CModel20,
                        DecodeError,
                    >(S2CModel20::StatusResponse((s.status_json@, ()))),
                    _ => decode21(State::Status, b) == Ok::<S2CModel21, DecodeError>(
                        S2CModel21::StatusResponse((s.status_json@, ())),
                    ),
                }
        }),
{
    let t = c.compression_threshold;
    match m {
        DecodedC2SModel::V1_20_1(_) => {
            let g = S2CModel20::StatusResponse((s.status_json@, ()));
            lemma_decode20(g);
            lemma_frames_one(encode20(g), t);
            assert(spec_status(c, s, m).out == spec_frame(encode20(g), t));
        },
        _ => {
            let g = S2CModel21::StatusResponse((s.status_json@, ()));
            lemma_decode21(g);
            lemma_frames_one(encode21(g), t);
            assert(spec_status(c, s, m).out == spec_frame(encode21(g), t));
        },
    }
}

/// A client keep-alive in Play is answered by exactly one frame, in the
/// connection's compression state, which a client of the same version reads
/// as the server keep-alive with the same id; nothing else changes.
pub proof fn lemma_keepalive_echoed(c: &Connection, m: DecodedC2SModel)
    requires
        m matches DecodedC2SModel::V1_20_1(C2SModel20::KeepAlive(_))
            || m matches DecodedC2SModel::V1_21_1(C2SModel21::KeepAlive(_)),
    ensures
        ({
            let st = spec_play(c, m);
            let t = c.compression_threshold;
            &&& st.result is Ok
            &&& st.state == c.state
            &&& st.threshold == t
            &&& exists|b: Seq<u8>|
                #![trigger spec_frame(b, t)]
                st.out == frames_of(seq![(b, t)]) && match m {
                    DecodedC2SModel::V1_20_1(C2SModel20::KeepAlive((id, _))) => decode20(
                        State::Play,
                        b,
                    ) == Ok::<S2CModel20, DecodeError>(S2CModel20::KeepAlive((id, ()))),
                    DecodedC2SModel::V1_21_1(C2SModel21::KeepAlive((id, _))) => decode21(
                        State::Play,
                        b,
                    ) == Ok::<S2CModel21, DecodeError>(S2CModel21::KeepAlive((id, ()))),
                    _ => false,
                }
        }),
{
    let t = c.compression_threshold;
    match m {
        DecodedC2SModel::V1_20_1(C2SModel20::KeepAlive((id, _))) => {
            let g = S2CModel20::KeepAlive((id, ()));
            lemma_decode20(g);
            lemma_frames_one(encode20(g), t);
            assert(spec_play(c, m).out == spec_frame(encode20(g), t));
        },
        DecodedC2SModel::V1_21_1(C2SModel21::KeepAlive((id, _))) => {
            let g = S2CModel21::KeepAlive((id, ()));
            lemma_decode21(g);
            lemma_frames_one(encode21(g), t);
            assert(spec_play(c, m).out == spec_frame(encode21(g), t));
        },
        _ => {},
    }
}

} // verus!
