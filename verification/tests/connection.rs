//! The decisions of a client connection, driven with concrete packets.

use statik::packet::Packet;
use statik::position::BlockPos;
use statik::server::connection::{
    is_valid_username, ConnError, Connection, LimboSettings, Settings,
};
use statik::server::framing::{frame_packet, take_frame, FrameError};
use statik::server::protocol::{DecodedC2S, ProtocolKind};
use statik::state::{ClientIntent, State};
use statik::v1_20_1::V1_20_1;
use statik::v1_21_1::V1_21_1;
use statik::varint::VarInt;
use statik::v1_20_1::c2s::login::{C2SEncryptionResponse, C2SLoginStart};
use statik::v1_20_1::c2s::play::C2SKeepAlive;
use statik::v1_20_1::c2s::status::{C2SPing, C2SStatusRequest};
use statik::v1_20_1::s2c::S2CPacket as S2C20;
use statik::v1_21_1::c2s::configuration::{C2SClientInformation, C2SFinishConfiguration};
use statik::v1_21_1::c2s::login::{C2SHello, C2SLoginAcknowledged};
use statik::v1_21_1::s2c::S2CPacket as S2C21;

fn settings(compression: Option<i32>) -> Settings {
    Settings {
        max_players: 20,
        status_json: r#"{"version":{"name":"1.20.1","protocol":763}}"#.to_string(),
        compression,
        limbo: LimboSettings {
            x_bits: 0.5f64.to_bits(),
            y_bits: 64.0f64.to_bits(),
            z_bits: 0.5f64.to_bits(),
            spawn: BlockPos::new(0, 64, 0),
            gamemode: 1,
            view_distance: 8,
            simulation_distance: 8,
            dimension: "minecraft:the_void".to_string(),
        },
        registry_codec: vec![0x0a, 0x00, 0x00, 0x00],
        registry_data: (0..11u8).map(|i| vec![0x00, i]).collect(),
    }
}

fn frame_of<P: Packet>(p: &P, t: Option<i32>) -> Vec<u8> {
    let mut body = Vec::new();
    p.encode(&mut body);
    frame_packet(&body, t)
}

fn feed(c: &mut Connection, bytes: &[u8]) {
    c.buffer.extend_from_slice(bytes);
}

/// Splits the server's output into packet bodies, under the compression
/// state each frame was written in.
fn bodies(out: &[u8], thresholds: &[Option<i32>]) -> Vec<Vec<u8>> {
    let mut buf = bytes::BytesMut::new();
    buf.extend_from_slice(out);
    let mut v = Vec::new();
    for t in thresholds {
        let b = take_frame(&mut buf, *t).expect("frame").expect("whole frame");
        v.push(b);
    }
    assert!(buf.is_empty(), "no bytes left over");
    v
}

fn handshake(protocol: i32, intent: ClientIntent) -> Vec<u8> {
    frame_of(
        &statik::v1_20_1::c2s::handshake::C2SHandshake {
            protocol_version: VarInt(protocol),
            server_address: "localhost".to_string(),
            server_port: 25565,
            next_state: intent,
        },
        None,
    )
}

fn step(c: &mut Connection, s: &Settings, out: &mut Vec<u8>) -> Result<(), ConnError> {
    let p = c.try_parse_packet()?.expect("a packet");
    c.dispatch_packet(p, s, out)
}

#[test]
fn username_rules() {
    assert!(is_valid_username("Player1"));
    assert!(is_valid_username("abc"));
    assert!(is_valid_username("a_b_c_d_e_f_g_h_"));
    assert!(!is_valid_username("ab"));
    assert!(!is_valid_username("a_b_c_d_e_f_g_h_i"));
    assert!(!is_valid_username("bad name"));
    assert!(!is_valid_username("héllo"));
    assert!(!is_valid_username(""));
}

#[test]
fn handshake_selects_status_and_login() {
    let s = settings(None);
    let mut out = Vec::new();
    let mut c = Connection::new(ProtocolKind::V1_20_1(V1_20_1), 4096);
    feed(&mut c, &handshake(763, ClientIntent::Status));
    step(&mut c, &s, &mut out).unwrap();
    assert_eq!(c.state, State::Status);
    assert!(out.is_empty());

    let mut c = Connection::new(ProtocolKind::V1_20_1(V1_20_1), 4096);
    feed(&mut c, &handshake(763, ClientIntent::Login));
    step(&mut c, &s, &mut out).unwrap();
    assert_eq!(c.state, State::Login);
}

#[test]
fn handshake_refuses_mismatch_and_transfer() {
    let s = settings(None);
    let mut out = Vec::new();
    let mut c = Connection::new(ProtocolKind::V1_20_1(V1_20_1), 4096);
    feed(&mut c, &handshake(767, ClientIntent::Login));
    assert_eq!(step(&mut c, &s, &mut out), Err(ConnError::ProtocolMismatch(767)));
    assert_eq!(c.state, State::Handshake);

    let mut c = Connection::new(ProtocolKind::V1_21_1(V1_21_1), 4096);
    feed(&mut c, &handshake(767, ClientIntent::Transfer));
    assert_eq!(step(&mut c, &s, &mut out), Err(ConnError::TransferUnsupported));
    assert!(out.is_empty());
}

#[test]
fn status_request_and_ping_are_answered() {
    let s = settings(None);
    let mut out = Vec::new();
    let mut c = Connection::new(ProtocolKind::V1_20_1(V1_20_1), 4096);
    feed(&mut c, &handshake(763, ClientIntent::Status));
    feed(&mut c, &frame_of(&C2SStatusRequest {}, None));
    feed(&mut c, &frame_of(&C2SPing { payload: 99 }, None));
    step(&mut c, &s, &mut out).unwrap();
    step(&mut c, &s, &mut out).unwrap();
    step(&mut c, &s, &mut out).unwrap();
    let b = bodies(&out, &[None, None]);
    match S2C20::decode_in_state(State::Status, &b[0]).unwrap() {
        S2C20::StatusResponse(r) => assert_eq!(r.json_response, s.status_json),
        other => panic!("expected StatusResponse, got {other:?}"),
    }
    match S2C20::decode_in_state(State::Status, &b[1]).unwrap() {
        S2C20::Pong(p) => assert_eq!(p.payload, 99),
        other => panic!("expected Pong, got {other:?}"),
    }
}

#[test]
fn status_refuses_other_packets() {
    let mut c = Connection::new(ProtocolKind::V1_20_1(V1_20_1), 4096);
    c.state = State::Status;
    // Id 0x00 in Status is the status request; 0x02 is unknown there.
    feed(&mut c, &[0x01, 0x02]);
    assert!(matches!(
        c.try_parse_packet(),
        Err(ConnError::Decode(statik::error::DecodeError::UnknownPacket))
    ));
    assert!(c.buffer.is_empty());
}

#[test]
fn invalid_username_is_disconnected() {
    let s = settings(Some(256));
    let mut out = Vec::new();
    let mut c = Connection::new(ProtocolKind::V1_20_1(V1_20_1), 4096);
    c.state = State::Login;
    feed(&mut c, &frame_of(&C2SLoginStart { username: "no".to_string(), uuid: None }, None));
    step(&mut c, &s, &mut out).unwrap();
    assert_eq!(c.state, State::Login);
    assert_eq!(c.compression_threshold, None);
    let b = bodies(&out, &[None]);
    match S2C20::decode_in_state(State::Login, &b[0]).unwrap() {
        S2C20::Disconnect(d) => assert_eq!(d.reason.0, r#"{"text":"Invalid username."}"#),
        other => panic!("expected Disconnect, got {other:?}"),
    }
}

#[test]
fn login_v1_20_1_sends_the_play_burst() {
    let s = settings(None);
    let mut out = Vec::new();
    let mut c = Connection::new(ProtocolKind::V1_20_1(V1_20_1), 4096);
    c.state = State::Login;
    feed(
        &mut c,
        &frame_of(&C2SLoginStart { username: "Player1".to_string(), uuid: Some(7) }, None),
    );
    step(&mut c, &s, &mut out).unwrap();
    assert_eq!(c.state, State::Play);
    let b = bodies(&out, &[None; 9]);
    let d = |i: usize, st: State| S2C20::decode_in_state(st, &b[i]).unwrap();
    match d(0, State::Login) {
        S2C20::LoginSuccess(l) => {
            assert_eq!(l.uuid, 0);
            assert_eq!(l.username, "Player1");
            assert!(l.properties.is_empty());
        }
        other => panic!("expected LoginSuccess, got {other:?}"),
    }
    // The Login packet ends in raw bytes, so it is checked by its prefix.
    assert_eq!(b[1][0], 0x28);
    assert_eq!(&b[1][1..5], &[0, 0, 0, 0]);
    match d(2, State::Play) {
        S2C20::SetChunkCacheCenter(p) => assert_eq!((p.x, p.z), (VarInt(0), VarInt(0))),
        other => panic!("expected SetChunkCacheCenter, got {other:?}"),
    }
    match d(3, State::Play) {
        S2C20::SetChunkCacheRadius(p) => assert_eq!(p.radius, VarInt(8)),
        other => panic!("expected SetChunkCacheRadius, got {other:?}"),
    }
    match d(4, State::Play) {
        S2C20::LevelChunkWithLight(p) => {
            assert_eq!(p.payload.0, statik::v1_20_1::s2c::play::void_chunk_bytes())
        }
        other => panic!("expected LevelChunkWithLight, got {other:?}"),
    }
    match d(5, State::Play) {
        S2C20::SetDefaultSpawnPosition(p) => {
            assert_eq!(p.location, BlockPos::new(0, 64, 0));
            assert_eq!(p.angle, 0);
        }
        other => panic!("expected SetDefaultSpawnPosition, got {other:?}"),
    }
    match d(6, State::Play) {
        S2C20::PlayerPosition(p) => {
            assert_eq!(f64::from_bits(p.x), 0.5);
            assert_eq!(f64::from_bits(p.y), 64.0);
        }
        other => panic!("expected PlayerPosition, got {other:?}"),
    }
    match d(7, State::Play) {
        S2C20::PlayerAbilities(p) => {
            assert_eq!(p.flags, 0x07);
            assert_eq!(f32::from_bits(p.flying_speed), 0.05);
            assert_eq!(f32::from_bits(p.walking_speed), 0.1);
        }
        other => panic!("expected PlayerAbilities, got {other:?}"),
    }
    match d(8, State::Play) {
        S2C20::GameEvent(p) => assert_eq!(p.event, 12),
        other => panic!("expected GameEvent, got {other:?}"),
    }
}

#[test]
fn login_with_compression_announces_it_first() {
    let s = settings(Some(64));
    let mut out = Vec::new();
    let mut c = Connection::new(ProtocolKind::V1_20_1(V1_20_1), 4096);
    c.state = State::Login;
    feed(&mut c, &frame_of(&C2SLoginStart { username: "Steve".to_string(), uuid: None }, None));
    step(&mut c, &s, &mut out).unwrap();
    assert_eq!(c.compression_threshold, Some(64));
    let mut ts = vec![None];
    ts.extend([Some(64); 9]);
    let b = bodies(&out, &ts);
    match S2C20::decode_in_state(State::Login, &b[0]).unwrap() {
        S2C20::SetCompression(p) => assert_eq!(p.threshold, VarInt(64)),
        other => panic!("expected SetCompression, got {other:?}"),
    }
    match S2C20::decode_in_state(State::Login, &b[1]).unwrap() {
        S2C20::LoginSuccess(l) => assert_eq!(l.username, "Steve"),
        other => panic!("expected LoginSuccess, got {other:?}"),
    }
    // The chunk body is well over the threshold, so it travelled compressed
    // and inflated back.
    match S2C20::decode_in_state(State::Play, &b[5]).unwrap() {
        S2C20::LevelChunkWithLight(p) => {
            assert_eq!(p.payload.0, statik::v1_20_1::s2c::play::void_chunk_bytes())
        }
        other => panic!("expected LevelChunkWithLight, got {other:?}"),
    }
}

#[test]
fn login_refuses_unsolicited_answers() {
    let s = settings(None);
    let mut out = Vec::new();
    let mut c = Connection::new(ProtocolKind::V1_20_1(V1_20_1), 4096);
    c.state = State::Login;
    feed(
        &mut c,
        &frame_of(&C2SEncryptionResponse { shared_secret: vec![], verify_token: vec![] }, None),
    );
    assert_eq!(step(&mut c, &s, &mut out), Err(ConnError::EncryptionUnsupported));
    assert!(out.is_empty());
}

#[test]
fn login_v1_21_1_goes_through_configuration() {
    let s = settings(None);
    let mut out = Vec::new();
    let mut c = Connection::new(ProtocolKind::V1_21_1(V1_21_1), 4096);
    c.state = State::Login;
    feed(&mut c, &frame_of(&C2SHello { name: "Alex".to_string(), profile_id: 1 }, None));
    step(&mut c, &s, &mut out).unwrap();
    assert_eq!(c.state, State::Login);
    let b = bodies(&out, &[None]);
    match S2C21::decode_in_state(State::Login, &b[0]).unwrap() {
        S2C21::LoginSuccess(l) => {
            assert_eq!(l.username, "Alex");
            assert!(!l.strict_error_handling);
        }
        other => panic!("expected LoginSuccess, got {other:?}"),
    }

    out.clear();
    feed(&mut c, &frame_of(&C2SLoginAcknowledged {}, None));
    step(&mut c, &s, &mut out).unwrap();
    assert_eq!(c.state, State::Configuration);
    let b = bodies(&out, &[None; 14]);
    let d = |i: usize| S2C21::decode_in_state(State::Configuration, &b[i]).unwrap();
    match d(0) {
        S2C21::CustomPayload(p) => {
            assert_eq!(p.channel, "minecraft:brand");
            assert_eq!(p.data.0, b"\x06statik".to_vec());
        }
        other => panic!("expected CustomPayload, got {other:?}"),
    }
    match d(1) {
        S2C21::FeatureFlags(p) => assert_eq!(p.features, vec!["minecraft:vanilla".to_string()]),
        other => panic!("expected FeatureFlags, got {other:?}"),
    }
    let ids = statik::v1_21_1::registries::all();
    for i in 0..11 {
        match d(2 + i) {
            S2C21::RegistryData(p) => {
                assert_eq!(p.registry_id, ids[i]);
                assert_eq!(p.data.0, vec![0x00, i as u8]);
            }
            other => panic!("expected RegistryData, got {other:?}"),
        }
    }
    match d(13) {
        S2C21::KnownPacks(p) => {
            assert_eq!(p.packs.len(), 1);
            assert_eq!(p.packs[0].namespace, "minecraft");
            assert_eq!(p.packs[0].id, "core");
            assert_eq!(p.packs[0].version, "1.21.1");
        }
        other => panic!("expected KnownPacks, got {other:?}"),
    }

    out.clear();
    let info = C2SClientInformation {
        locale: "en_us".to_string(),
        view_distance: 8,
        chat_mode: VarInt(0),
        chat_colors: true,
        skin_parts: 0,
        main_hand: VarInt(1),
        text_filtering_enabled: false,
        allows_listing: true,
    };
    feed(&mut c, &frame_of(&info, None));
    step(&mut c, &s, &mut out).unwrap();
    assert!(out.is_empty());
    assert_eq!(c.state, State::Configuration);

    feed(&mut c, &frame_of(&C2SFinishConfiguration {}, None));
    step(&mut c, &s, &mut out).unwrap();
    assert_eq!(c.state, State::Play);
    let b = bodies(&out, &[None; 9]);
    assert!(matches!(
        S2C21::decode_in_state(State::Configuration, &b[0]).unwrap(),
        S2C21::FinishConfiguration(_)
    ));
    match S2C21::decode_in_state(State::Play, &b[1]).unwrap() {
        S2C21::Login(l) => {
            assert_eq!(l.world_names, vec!["minecraft:the_void".to_string()]);
            assert_eq!(l.world_state.gamemode, 1);
            assert_eq!(l.world_state.previous_gamemode, 0xff);
            assert!(l.world_state.is_flat);
        }
        other => panic!("expected Login, got {other:?}"),
    }
    match S2C21::decode_in_state(State::Play, &b[4]).unwrap() {
        S2C21::LevelChunkWithLight(p) => {
            assert_eq!(p.payload.0, statik::v1_21_1::s2c::play::void_chunk_bytes_v1_21_1())
        }
        other => panic!("expected LevelChunkWithLight, got {other:?}"),
    }
    match S2C21::decode_in_state(State::Play, &b[8]).unwrap() {
        S2C21::GameEvent(g) => assert_eq!(g.event, 7),
        other => panic!("expected GameEvent, got {other:?}"),
    }
}

#[test]
fn configuration_refuses_1_20_1_packets() {
    let s = settings(None);
    let mut out = Vec::new();
    let mut c = Connection::new(ProtocolKind::V1_20_1(V1_20_1), 4096);
    c.state = State::Configuration;
    let p = DecodedC2S::V1_20_1(statik::v1_20_1::c2s::C2SPacket::StatusRequest(
        statik::v1_20_1::c2s::status::C2SStatusRequest {},
    ));
    assert_eq!(c.dispatch_packet(p, &s, &mut out), Err(ConnError::ConfigurationWithoutSupport));
}

#[test]
fn play_skips_undecodable_packets_and_ignores_the_rest() {
    let s = settings(None);
    let mut out = Vec::new();
    let mut c = Connection::new(ProtocolKind::V1_20_1(V1_20_1), 4096);
    c.state = State::Play;
    // An id no Play packet has, then a keep-alive reply.
    feed(&mut c, &[0x02, 0x7f, 0x00]);
    feed(&mut c, &frame_of(&C2SKeepAlive { id: 5 }, None));
    assert!(c.try_parse_packet().unwrap().is_none());
    step(&mut c, &s, &mut out).unwrap();
    assert!(c.buffer.is_empty());
    assert_eq!(c.state, State::Play);
    // The keep-alive is echoed with its id.
    let b = bodies(&out, &[None]);
    match S2C20::decode_in_state(State::Play, &b[0]).unwrap() {
        S2C20::KeepAlive(k) => assert_eq!(k.id, 5),
        other => panic!("expected KeepAlive, got {other:?}"),
    }
    // Other Play packets are taken silently.
    out.clear();
    feed(
        &mut c,
        &frame_of(&statik::v1_20_1::c2s::play::C2SAcceptTeleportation { id: VarInt(1) }, None),
    );
    step(&mut c, &s, &mut out).unwrap();
    assert!(out.is_empty());
}

#[test]
fn play_keepalive_is_echoed_in_1_21_1() {
    let s = settings(Some(256));
    let mut out = Vec::new();
    let mut c = Connection::new(ProtocolKind::V1_21_1(V1_21_1), 4096);
    c.state = State::Play;
    c.compression_threshold = Some(256);
    feed(
        &mut c,
        &frame_of(&statik::v1_21_1::c2s::play::C2SKeepAlive { id: -9 }, Some(256)),
    );
    step(&mut c, &s, &mut out).unwrap();
    let b = bodies(&out, &[Some(256)]);
    match S2C21::decode_in_state(State::Play, &b[0]).unwrap() {
        S2C21::KeepAlive(k) => assert_eq!(k.id, -9),
        other => panic!("expected KeepAlive, got {other:?}"),
    }
    assert_eq!(b[0][0], 0x26);
}

#[test]
fn partial_frames_wait_for_more_bytes() {
    let mut c = Connection::new(ProtocolKind::V1_20_1(V1_20_1), 4096);
    let f = handshake(763, ClientIntent::Login);
    feed(&mut c, &f[..1]);
    assert!(c.try_parse_packet().unwrap().is_none());
    assert_eq!(c.buffer.len(), 1);
    feed(&mut c, &f[1..f.len() - 1]);
    assert!(c.try_parse_packet().unwrap().is_none());
    assert_eq!(c.buffer.len(), f.len() - 1);
    feed(&mut c, &f[f.len() - 1..]);
    assert!(c.try_parse_packet().unwrap().is_some());
    assert!(c.buffer.is_empty());
}

#[test]
fn malformed_lengths_end_the_connection() {
    let mut c = Connection::new(ProtocolKind::V1_20_1(V1_20_1), 4096);
    feed(&mut c, &[0xff, 0xff, 0xff, 0xff, 0x0f]);
    assert!(matches!(c.try_parse_packet(), Err(ConnError::Frame(FrameError::NegativeLength))));
    let mut c = Connection::new(ProtocolKind::V1_20_1(V1_20_1), 4096);
    feed(&mut c, &[0x80, 0x80, 0x80, 0x01]);
    assert!(matches!(c.try_parse_packet(), Err(ConnError::Frame(FrameError::TooLong))));
    let mut c = Connection::new(ProtocolKind::V1_20_1(V1_20_1), 4096);
    feed(&mut c, &[0x80, 0x80, 0x80, 0x80, 0x80, 0x01]);
    assert!(matches!(
        c.try_parse_packet(),
        Err(ConnError::Frame(FrameError::Decode(statik::error::DecodeError::VarIntTooLong)))
    ));
}

#[test]
fn keepalive_only_in_play() {
    let mut c = Connection::new(ProtocolKind::V1_21_1(V1_21_1), 4096);
    assert!(!c.keepalive_due());
    c.state = State::Play;
    assert!(c.keepalive_due());
    let mut out = Vec::new();
    c.keepalive_frame(41, &mut out);
    // Length 9, the 1.20.1 keep-alive id 0x23, then the id as i64 BE.
    assert_eq!(out, [9, 0x23, 0, 0, 0, 0, 0, 0, 0, 41]);
}
