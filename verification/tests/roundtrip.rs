//! Round trips of the 1.20.1 packets through the state-aware group decoder.

use statik::bitset::BitSet;
use statik::codec::Wire;
use statik::common::abilities;
use statik::packet::{Chat, Packet};
use statik::state::{ClientIntent, State};
use statik::v1_20_1::c2s::handshake::C2SHandshake;
use statik::v1_20_1::c2s::login::C2SLoginStart;
use statik::v1_20_1::c2s::play::{C2SAcceptTeleportation, C2SKeepAlive, C2SPlayerPos};
use statik::v1_20_1::c2s::status::{C2SPing, C2SStatusRequest};
use statik::v1_20_1::c2s::C2SPacket;
use statik::v1_20_1::s2c::login::S2CDisconnect;
use statik::v1_20_1::s2c::play::{
    pack_block_pos, void_chunk_bytes, S2CGameEvent, S2CPlayerAbilities, S2CPlayerPosition,
};
use statik::v1_20_1::s2c::S2CPacket;
use statik::varint::VarInt;

fn encode<P: Packet>(packet: &P) -> Vec<u8> {
    let mut buf = Vec::new();
    packet.encode(&mut buf);
    buf
}

#[test]
fn roundtrip_handshake_roundtrip() {
    let pkt = C2SHandshake {
        protocol_version: VarInt(763),
        server_address: "example.com".to_string(),
        server_port: 25565,
        next_state: ClientIntent::Status,
    };
    let buf = encode(&pkt);

    let decoded = C2SPacket::decode_in_state(State::Handshake, &buf).expect("decode");
    match decoded {
        C2SPacket::Handshake(h) => {
            assert_eq!(h.protocol_version.0, 763);
            assert_eq!(h.server_address, "example.com");
            assert_eq!(h.server_port, 25565);
            assert_eq!(h.next_state, ClientIntent::Status);
        }
        other => panic!("expected Handshake, got {other:?}"),
    }
}

#[test]
fn status_request_roundtrip() {
    let pkt = C2SStatusRequest {};
    let buf = encode(&pkt);
    assert_eq!(buf, [0x00]);

    let decoded = C2SPacket::decode_in_state(State::Status, &buf).expect("decode");
    assert!(matches!(decoded, C2SPacket::StatusRequest(_)));
}

#[test]
fn ping_roundtrip() {
    let pkt = C2SPing {
        payload: 0x0123_4567_89ab_cdef_i64,
    };
    let buf = encode(&pkt);

    let decoded = C2SPacket::decode_in_state(State::Status, &buf).expect("decode");
    match decoded {
        C2SPacket::Ping(p) => assert_eq!(p.payload, pkt.payload),
        other => panic!("expected Ping, got {other:?}"),
    }
}

#[test]
fn login_start_roundtrip() {
    let pkt = C2SLoginStart {
        username: "Player1".to_string(),
        uuid: Some(0),
    };
    let buf = encode(&pkt);

    let decoded = C2SPacket::decode_in_state(State::Login, &buf).expect("decode");
    match decoded {
        C2SPacket::LoginStart(s) => {
            assert_eq!(s.username, "Player1");
            assert_eq!(s.uuid, Some(0));
        }
        other => panic!("expected LoginStart, got {other:?}"),
    }
}

#[test]
fn s2c_disconnect_roundtrip() {
    let pkt = S2CDisconnect {
        reason: Chat::from_json(r#"{"text":"bye"}"#.to_string()),
    };
    let buf = encode(&pkt);

    let decoded = S2CPacket::decode_in_state(State::Login, &buf).expect("decode");
    assert!(matches!(decoded, S2CPacket::Disconnect(_)));
}

#[test]
fn wrong_state_is_rejected() {
    let pkt = C2SPing { payload: 42 };
    let buf = encode(&pkt);

    let result = C2SPacket::decode_in_state(State::Handshake, &buf);
    assert!(
        result.is_err(),
        "expected decode to reject id 0x01 in Handshake"
    );
}

#[test]
fn play_accept_teleportation_roundtrip() {
    let pkt = C2SAcceptTeleportation { id: VarInt(0) };
    let buf = encode(&pkt);

    let decoded = C2SPacket::decode_in_state(State::Play, &buf).expect("decode");
    match decoded {
        C2SPacket::AcceptTeleportation(t) => assert_eq!(t.id, VarInt(0)),
        other => panic!("expected AcceptTeleportation, got {other:?}"),
    }
}

#[test]
fn roundtrip_play_keepalive_roundtrip() {
    let pkt = C2SKeepAlive {
        id: 0x0123_4567_89ab_cdef_i64,
    };
    let buf = encode(&pkt);

    let decoded = C2SPacket::decode_in_state(State::Play, &buf).expect("decode");
    match decoded {
        C2SPacket::KeepAlive(k) => assert_eq!(k.id, pkt.id),
        other => panic!("expected KeepAlive, got {other:?}"),
    }
}

#[test]
fn play_player_pos_roundtrip() {
    let pkt = C2SPlayerPos {
        x: 1.0f64.to_bits(),
        y: 64.5f64.to_bits(),
        z: (-3.25f64).to_bits(),
        on_ground: true,
    };
    let buf = encode(&pkt);

    let decoded = C2SPacket::decode_in_state(State::Play, &buf).expect("decode");
    match decoded {
        C2SPacket::PlayerPos(p) => {
            assert_eq!(f64::from_bits(p.x), 1.0);
            assert_eq!(f64::from_bits(p.y), 64.5);
            assert_eq!(f64::from_bits(p.z), -3.25);
            assert!(p.on_ground);
        }
        other => panic!("expected PlayerPos, got {other:?}"),
    }
}

#[test]
fn s2c_player_abilities_roundtrip() {
    let pkt = S2CPlayerAbilities {
        flags: abilities::INVULNERABLE | abilities::FLYING | abilities::CAN_FLY,
        flying_speed: 0.05f32.to_bits(),
        walking_speed: 0.1f32.to_bits(),
    };
    let buf = encode(&pkt);

    let decoded = S2CPacket::decode_in_state(State::Play, &buf).expect("decode");
    match decoded {
        S2CPacket::PlayerAbilities(a) => {
            assert!(a.flags & abilities::INVULNERABLE != 0);
            assert!(a.flags & abilities::FLYING != 0);
            assert!(a.flags & abilities::CAN_FLY != 0);
            assert!(a.flags & abilities::INSTABUILD == 0);
            assert_eq!(f32::from_bits(a.flying_speed), 0.05);
            assert_eq!(f32::from_bits(a.walking_speed), 0.1);
        }
        other => panic!("expected PlayerAbilities, got {other:?}"),
    }
}

#[test]
fn s2c_player_position_roundtrip() {
    let pkt = S2CPlayerPosition {
        x: 0.5f64.to_bits(),
        y: 64.0f64.to_bits(),
        z: 0.5f64.to_bits(),
        y_rot: 0.0f32.to_bits(),
        x_rot: 0.0f32.to_bits(),
        relative_arguments: 0,
        id: VarInt(0),
    };
    let buf = encode(&pkt);

    let decoded = S2CPacket::decode_in_state(State::Play, &buf).expect("decode");
    match decoded {
        S2CPacket::PlayerPosition(p) => {
            assert_eq!(f64::from_bits(p.x), 0.5);
            assert_eq!(f64::from_bits(p.y), 64.0);
            assert_eq!(f64::from_bits(p.z), 0.5);
            assert_eq!(p.id, VarInt(0));
        }
        other => panic!("expected PlayerPosition, got {other:?}"),
    }
}

#[test]
fn s2c_game_event_roundtrip() {
    let pkt = S2CGameEvent {
        event: 7,
        param: 0.0f32.to_bits(),
    };
    let buf = encode(&pkt);

    let decoded = S2CPacket::decode_in_state(State::Play, &buf).expect("decode");
    match decoded {
        S2CPacket::GameEvent(g) => {
            assert_eq!(g.event, 7);
            assert_eq!(f32::from_bits(g.param), 0.0);
        }
        other => panic!("expected GameEvent, got {other:?}"),
    }
}

#[test]
fn bitset_empty_roundtrip() {
    let bs = BitSet::empty();
    let mut buf = Vec::new();
    bs.write(&mut buf);
    assert_eq!(buf, vec![0x00]);
    let (decoded, _) = BitSet::read(&buf, 0).expect("decode");
    assert_eq!(decoded, BitSet::empty());
}

#[test]
fn bitset_with_one_slot_roundtrip() {
    let bs = BitSet::from_slots(vec![1i64 << 5]);
    let mut buf = Vec::new();
    bs.write(&mut buf);
    assert_eq!(buf.len(), 9);
    assert_eq!(buf[0], 0x01);
    let (decoded, _) = BitSet::read(&buf, 0).expect("decode");
    assert_eq!(decoded, bs);
}

#[test]
fn f32_f64_roundtrip() {
    let mut buf = Vec::new();
    1.5f32.to_bits().write(&mut buf);
    let (v, _) = u32::read(&buf, 0).unwrap();
    assert_eq!(f32::from_bits(v), 1.5);
    buf.clear();
    let neg: f64 = -3.25;
    neg.to_bits().write(&mut buf);
    let (v, _) = u64::read(&buf, 0).unwrap();
    assert_eq!(f64::from_bits(v), -3.25);
}

#[test]
fn void_chunk_payload_has_correct_layout() {
    let bytes = void_chunk_bytes();

    assert_eq!(&bytes[..4], &[0, 0, 0, 0]);
    assert_eq!(&bytes[4..8], &[0, 0, 0, 0]);
    assert_eq!(bytes[8], 0x0a, "heightmaps should start with TAG_Compound");
    assert_eq!(
        &bytes[9..11],
        &[0x00, 0x00],
        "root name length must be u16 BE 0, not VarInt(0)"
    );
}

#[test]
fn void_chunk_payload_heightmaps_use_i32_lengths() {
    let bytes = void_chunk_bytes();

    let needle = [0x00, 0x00, 0x01, 0x00];
    let positions: Vec<usize> = bytes
        .windows(needle.len())
        .enumerate()
        .filter(|(_, w)| *w == needle)
        .map(|(i, _)| i)
        .collect();
    assert!(
        positions.len() >= 2,
        "expected at least 2 occurrences of i32 BE 256 (MOTION_BLOCKING + WORLD_SURFACE), found {}",
        positions.len()
    );
}

#[test]
fn pack_block_pos_matches_the_formula() {
    assert_eq!(pack_block_pos(0, 64, 0), 64);
    assert_eq!(pack_block_pos(1, 2, 3), (1i64 << 38) | (3i64 << 12) | 2);
    assert_eq!(pack_block_pos(-1, -1, -1), -1);
}
