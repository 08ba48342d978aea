//! Round trips of the 1.21.1 packets, and the shape of the 1.21.1 empty
//! chunk body.

use statik::common::{abilities, KnownPack, Tag, TagGroup};
use statik::containers::RawBytes;
use statik::packet::Packet;
use statik::state::{ClientIntent, State};
use statik::v1_21_1::c2s::configuration::{
    C2SClientInformation, C2SConfigurationKeepAlive, C2SFinishConfiguration,
    C2SResourcePackResponse, C2SSelectKnownPacks,
};
use statik::v1_21_1::c2s::handshake::C2SHandshake;
use statik::v1_21_1::c2s::login::{C2SHello, C2SLoginAcknowledged};
use statik::v1_21_1::c2s::play::C2SKeepAlive;
use statik::v1_21_1::c2s::C2SPacket as C2SPacketV1_21_1;
use statik::v1_21_1::s2c::configuration::{
    S2CConfigurationKeepAlive, S2CCustomPayload, S2CFeatureFlags, S2CFinishConfiguration,
    S2CUpdateTags,
};
use statik::v1_21_1::s2c::login::S2CLoginSuccess;
use statik::v1_21_1::s2c::play::{
    S2CGameEvent, S2CLogin, S2CPlayerAbilities, S2CPlayerPosition, SpawnInfo,
};
use statik::v1_21_1::s2c::S2CPacket as S2CPacketV1_21_1;
use statik::varint::VarInt;
use statik::v1_21_1::s2c::play;
use std::io::{Cursor, Read};

fn encode<P: Packet>(packet: &P) -> Vec<u8> {
    let mut buf = Vec::new();
    packet.encode(&mut buf);
    buf
}

#[test]
fn roundtrip_v1_21_1_handshake_roundtrip() {
    let pkt = C2SHandshake {
        protocol_version: VarInt(767),
        server_address: "example.com".to_string(),
        server_port: 25565,
        next_state: ClientIntent::Login,
    };
    let buf = encode(&pkt);

    let decoded = C2SPacketV1_21_1::decode_in_state(State::Handshake, &buf).expect("decode");
    match decoded {
        C2SPacketV1_21_1::Handshake(h) => {
            assert_eq!(h.protocol_version.0, 767);
            assert_eq!(h.server_address, "example.com");
            assert_eq!(h.server_port, 25565);
            assert_eq!(h.next_state, ClientIntent::Login);
        }
        other => panic!("expected Handshake, got {other:?}"),
    }
}

#[test]
fn login_hello_roundtrip() {
    let pkt = C2SHello {
        name: "Player1".to_string(),
        profile_id: 0,
    };
    let buf = encode(&pkt);

    let decoded = C2SPacketV1_21_1::decode_in_state(State::Login, &buf).expect("decode");
    match decoded {
        C2SPacketV1_21_1::Hello(h) => {
            assert_eq!(h.name, "Player1");
            assert_eq!(h.profile_id, 0);
        }
        other => panic!("expected Hello, got {other:?}"),
    }
}

#[test]
fn login_acknowledged_roundtrip() {
    let pkt = C2SLoginAcknowledged {};
    let buf = encode(&pkt);
    assert_eq!(buf, [0x03]);

    let decoded = C2SPacketV1_21_1::decode_in_state(State::Login, &buf).expect("decode");
    assert!(matches!(decoded, C2SPacketV1_21_1::LoginAcknowledged(_)));
}

#[test]
fn configuration_client_information_roundtrip() {
    let pkt = C2SClientInformation {
        locale: "zh_cn".to_string(),
        view_distance: 8,
        chat_mode: VarInt(0),
        chat_colors: true,
        skin_parts: 127,
        main_hand: VarInt(1),
        text_filtering_enabled: true,
        allows_listing: true,
    };
    let buf = encode(&pkt);

    let decoded = C2SPacketV1_21_1::decode_in_state(State::Configuration, &buf).expect("decode");
    match decoded {
        C2SPacketV1_21_1::ClientInformation(c) => {
            assert_eq!(c.locale, "zh_cn");
            assert_eq!(c.view_distance, 8);
            assert_eq!(c.chat_mode, VarInt(0));
            assert!(c.chat_colors);
            assert_eq!(c.skin_parts, 127);
            assert_eq!(c.main_hand, VarInt(1));
            assert!(c.text_filtering_enabled);
            assert!(c.allows_listing);
        }
        other => panic!("expected ClientInformation, got {other:?}"),
    }
}

#[test]
fn configuration_select_known_packs_roundtrip() {
    let pkt = C2SSelectKnownPacks {
        known_packs: vec![KnownPack {
            namespace: "minecraft".to_string(),
            id: "core".to_string(),
            version: "1.21.1".to_string(),
        }],
    };
    let buf = encode(&pkt);

    let decoded = C2SPacketV1_21_1::decode_in_state(State::Configuration, &buf).expect("decode");
    match decoded {
        C2SPacketV1_21_1::SelectKnownPacks(s) => {
            assert_eq!(s.known_packs.len(), 1);
            assert_eq!(s.known_packs[0].namespace, "minecraft");
            assert_eq!(s.known_packs[0].id, "core");
            assert_eq!(s.known_packs[0].version, "1.21.1");
        }
        other => panic!("expected SelectKnownPacks, got {other:?}"),
    }
}

#[test]
fn configuration_finish_configuration_roundtrip() {
    let pkt = C2SFinishConfiguration {};
    let buf = encode(&pkt);
    assert_eq!(buf, [0x03]);

    let decoded = C2SPacketV1_21_1::decode_in_state(State::Configuration, &buf).expect("decode");
    assert!(matches!(
        decoded,
        C2SPacketV1_21_1::FinishConfigurationAck(_)
    ));
}

#[test]
fn configuration_keepalive_roundtrip() {
    let pkt = C2SConfigurationKeepAlive {
        id: 0x0123_4567_89ab_cdef_i64,
    };
    let buf = encode(&pkt);

    let decoded = C2SPacketV1_21_1::decode_in_state(State::Configuration, &buf).expect("decode");
    match decoded {
        C2SPacketV1_21_1::ConfigurationKeepAlive(k) => assert_eq!(k.id, pkt.id),
        other => panic!("expected ConfigurationKeepAlive, got {other:?}"),
    }
}

#[test]
fn roundtrip_v1_21_1_play_keepalive_roundtrip() {
    let pkt = C2SKeepAlive {
        id: 0x0123_4567_89ab_cdef_i64,
    };
    let buf = encode(&pkt);

    let decoded = C2SPacketV1_21_1::decode_in_state(State::Play, &buf).expect("decode");
    match decoded {
        C2SPacketV1_21_1::KeepAlive(k) => assert_eq!(k.id, pkt.id),
        other => panic!("expected KeepAlive, got {other:?}"),
    }
}

#[test]
fn s2c_login_success_roundtrip() {
    let pkt = S2CLoginSuccess {
        uuid: 0,
        username: "Player1".to_string(),
        properties: vec![],
        strict_error_handling: false,
    };
    let buf = encode(&pkt);

    let decoded = S2CPacketV1_21_1::decode_in_state(State::Login, &buf).expect("decode");
    match decoded {
        S2CPacketV1_21_1::LoginSuccess(s) => {
            assert_eq!(s.username, "Player1");
            assert_eq!(s.uuid, 0);
            assert!(s.properties.is_empty());
            assert!(!s.strict_error_handling);
        }
        other => panic!("expected LoginSuccess, got {other:?}"),
    }
}

#[test]
fn s2c_login_success_strict_error_handling_is_last_byte() {
    let pkt_false = S2CLoginSuccess {
        uuid: 0,
        username: "x".to_string(),
        properties: vec![],
        strict_error_handling: false,
    };
    let pkt_true = S2CLoginSuccess {
        uuid: 0,
        username: "x".to_string(),
        properties: vec![],
        strict_error_handling: true,
    };
    let a = encode(&pkt_false);
    let b = encode(&pkt_true);
    assert_eq!(a.len(), b.len());
    assert_eq!(&a[..a.len() - 1], &b[..b.len() - 1]);
    assert_eq!(a[a.len() - 1], 0x00);
    assert_eq!(b[b.len() - 1], 0x01);
}

#[test]
fn s2c_configuration_feature_flags_roundtrip() {
    let pkt = S2CFeatureFlags {
        features: vec!["minecraft:vanilla".to_string()],
    };
    let buf = encode(&pkt);

    let decoded = S2CPacketV1_21_1::decode_in_state(State::Configuration, &buf).expect("decode");
    match decoded {
        S2CPacketV1_21_1::FeatureFlags(f) => {
            assert_eq!(f.features, vec!["minecraft:vanilla".to_string()]);
        }
        other => panic!("expected FeatureFlags, got {other:?}"),
    }
}

#[test]
fn s2c_configuration_finish_configuration_roundtrip() {
    let pkt = S2CFinishConfiguration {};
    let buf = encode(&pkt);
    assert_eq!(buf, [0x03]);

    let decoded = S2CPacketV1_21_1::decode_in_state(State::Configuration, &buf).expect("decode");
    assert!(matches!(decoded, S2CPacketV1_21_1::FinishConfiguration(_)));
}

#[test]
fn s2c_configuration_update_tags_empty_roundtrip() {
    let pkt = S2CUpdateTags { tags: vec![] };
    let buf = encode(&pkt);
    assert_eq!(buf, [0x0d, 0x00]);

    let decoded = S2CPacketV1_21_1::decode_in_state(State::Configuration, &buf).expect("decode");
    match decoded {
        S2CPacketV1_21_1::UpdateTags(u) => assert!(u.tags.is_empty()),
        other => panic!("expected UpdateTags, got {other:?}"),
    }
}

#[test]
fn s2c_configuration_update_tags_nonempty_roundtrip() {
    let pkt = S2CUpdateTags {
        tags: vec![
            TagGroup {
                tag_type: "minecraft:block".to_string(),
                tags: vec![
                    Tag {
                        name: "minecraft:stone".to_string(),
                        entries: vec![VarInt(1), VarInt(2)],
                    },
                    Tag {
                        name: "minecraft:dirt".to_string(),
                        entries: vec![VarInt(3)],
                    },
                ],
            },
            TagGroup {
                tag_type: "minecraft:item".to_string(),
                tags: vec![Tag {
                    name: "minecraft:pickaxes".to_string(),
                    entries: vec![],
                }],
            },
        ],
    };
    let buf = encode(&pkt);
    assert_eq!(buf[0], 0x0d);

    let decoded = S2CPacketV1_21_1::decode_in_state(State::Configuration, &buf).expect("decode");
    let decoded_tags = match decoded {
        S2CPacketV1_21_1::UpdateTags(u) => u.tags,
        other => panic!("expected UpdateTags, got {other:?}"),
    };

    assert_eq!(decoded_tags.len(), 2);
    assert_eq!(decoded_tags[0].tag_type, "minecraft:block");
    assert_eq!(decoded_tags[0].tags.len(), 2);
    assert_eq!(decoded_tags[0].tags[0].name, "minecraft:stone");
    assert_eq!(decoded_tags[0].tags[0].entries, vec![VarInt(1), VarInt(2)]);
    assert_eq!(decoded_tags[0].tags[1].entries, vec![VarInt(3)]);
    assert_eq!(decoded_tags[1].tag_type, "minecraft:item");
    assert_eq!(decoded_tags[1].tags[0].name, "minecraft:pickaxes");
    assert!(decoded_tags[1].tags[0].entries.is_empty());
}

#[test]
fn s2c_configuration_custom_payload_roundtrip() {
    let pkt = S2CCustomPayload {
        channel: "minecraft:brand".to_string(),
        data: RawBytes::new(vec![0x07, b'v', b'a', b'n', b'i', b'l', b'l', b'a']),
    };
    let buf = encode(&pkt);

    let decoded = S2CPacketV1_21_1::decode_in_state(State::Configuration, &buf).expect("decode");
    match decoded {
        S2CPacketV1_21_1::CustomPayload(c) => {
            assert_eq!(c.channel, "minecraft:brand");
            assert_eq!(
                &*c.data.0,
                &[0x07, b'v', b'a', b'n', b'i', b'l', b'l', b'a']
            );
        }
        other => panic!("expected CustomPayload, got {other:?}"),
    }
}

#[test]
fn s2c_play_player_position_roundtrip() {
    let pkt = S2CPlayerPosition {
        x: 0.5f64.to_bits(),
        y: 64.0f64.to_bits(),
        z: 0.5f64.to_bits(),
        y_rot: 0.0f32.to_bits(),
        x_rot: 0.0f32.to_bits(),
        relative_arguments: 0,
        id: VarInt(0),
    };
    let buf = encode(&pkt);

    let decoded = S2CPacketV1_21_1::decode_in_state(State::Play, &buf).expect("decode");
    match decoded {
        S2CPacketV1_21_1::PlayerPosition(p) => {
            assert_eq!(f64::from_bits(p.x), 0.5);
            assert_eq!(f64::from_bits(p.y), 64.0);
            assert_eq!(f64::from_bits(p.z), 0.5);
            assert_eq!(p.id, VarInt(0));
        }
        other => panic!("expected PlayerPosition, got {other:?}"),
    }
}

#[test]
fn s2c_play_player_abilities_roundtrip() {
    let pkt = S2CPlayerAbilities {
        flags: abilities::INVULNERABLE | abilities::FLYING | abilities::CAN_FLY,
        flying_speed: 0.05f32.to_bits(),
        walking_speed: 0.1f32.to_bits(),
    };
    let buf = encode(&pkt);

    let decoded = S2CPacketV1_21_1::decode_in_state(State::Play, &buf).expect("decode");
    match decoded {
        S2CPacketV1_21_1::PlayerAbilities(a) => {
            assert_eq!(
                a.flags,
                abilities::INVULNERABLE | abilities::FLYING | abilities::CAN_FLY
            );
            assert_eq!(f32::from_bits(a.flying_speed), 0.05);
            assert_eq!(f32::from_bits(a.walking_speed), 0.1);
        }
        other => panic!("expected PlayerAbilities, got {other:?}"),
    }
}

#[test]
fn s2c_play_game_event_roundtrip() {
    let pkt = S2CGameEvent {
        event: 7,
        param: 0.0f32.to_bits(),
    };
    let buf = encode(&pkt);

    let decoded = S2CPacketV1_21_1::decode_in_state(State::Play, &buf).expect("decode");
    match decoded {
        S2CPacketV1_21_1::GameEvent(g) => {
            assert_eq!(g.event, 7);
            assert_eq!(f32::from_bits(g.param), 0.0);
        }
        other => panic!("expected GameEvent, got {other:?}"),
    }
}

#[test]
fn s2c_play_login_roundtrip() {
    let pkt = S2CLogin {
        entity_id: 0,
        is_hardcore: false,
        world_names: vec!["minecraft:the_void".to_string()],
        max_players: VarInt(20),
        view_distance: VarInt(8),
        simulation_distance: VarInt(8),
        reduced_debug_info: false,
        enable_respawn_screen: false,
        do_limited_crafting: false,
        world_state: SpawnInfo {
            dimension: VarInt(0),
            name: "minecraft:the_void".to_string(),
            hashed_seed: 0,
            gamemode: 1,
            previous_gamemode: 0xff,
            is_debug: false,
            is_flat: true,
            death: None,
            portal_cooldown: VarInt(0),
        },
        enforces_secure_chat: false,
    };
    let buf = encode(&pkt);

    let decoded = S2CPacketV1_21_1::decode_in_state(State::Play, &buf).expect("decode");
    match decoded {
        S2CPacketV1_21_1::Login(p) => {
            assert_eq!(p.entity_id, 0);
            assert!(!p.is_hardcore);
            assert_eq!(p.world_names, vec!["minecraft:the_void".to_string()]);
            assert_eq!(p.max_players.0, 20);
            assert_eq!(p.view_distance.0, 8);
            assert_eq!(p.simulation_distance.0, 8);
            assert_eq!(p.world_state.dimension.0, 0);
            assert_eq!(p.world_state.name, "minecraft:the_void");
            assert_eq!(p.world_state.gamemode, 1);
            assert_eq!(p.world_state.previous_gamemode, 0xff);
            assert!(p.world_state.is_flat);
            assert!(p.world_state.death.is_none());
            assert_eq!(p.world_state.portal_cooldown.0, 0);
            assert!(!p.enforces_secure_chat);
        }
        other => panic!("expected Login, got {other:?}"),
    }
}

#[test]
fn s2c_play_login_field_order_first_byte_after_id() {
    let pkt = S2CLogin {
        entity_id: 0x1122_3344i32,
        is_hardcore: true,
        world_names: vec![],
        max_players: VarInt(0),
        view_distance: VarInt(0),
        simulation_distance: VarInt(0),
        reduced_debug_info: false,
        enable_respawn_screen: false,
        do_limited_crafting: false,
        world_state: SpawnInfo {
            dimension: VarInt(0),
            name: String::new(),
            hashed_seed: 0,
            gamemode: 0,
            previous_gamemode: 0,
            is_debug: false,
            is_flat: false,
            death: None,
            portal_cooldown: VarInt(0),
        },
        enforces_secure_chat: false,
    };
    let buf = encode(&pkt);
    assert_eq!(buf[0], 0x2b);
    assert_eq!(&buf[1..5], &[0x11, 0x22, 0x33, 0x44]);
    assert_eq!(buf[5], 0x01);
}

#[test]
fn configuration_keepalive_id_field_is_i64() {
    let pkt = C2SConfigurationKeepAlive {
        id: 0x0123_4567_i64,
    };
    let buf = encode(&pkt);
    assert_eq!(buf.len(), 9);
    assert_eq!(buf[0], 0x04);
    let id = i64::from_be_bytes(buf[1..9].try_into().unwrap());
    assert_eq!(id, 0x0123_4567);
}

#[test]
fn configuration_keepalive_decode_rejects_varint_length() {
    let bad = [0x04u8, 0x00, 0x01, 0x02];
    let result = C2SPacketV1_21_1::decode_in_state(State::Configuration, &bad);
    assert!(
        result.is_err(),
        "expected decode to fail on truncated i64 body"
    );
}

#[test]
fn s2c_configuration_keepalive_is_i64() {
    let pkt = S2CConfigurationKeepAlive {
        keep_alive_id: 0x0123_4567_89ab_cdefi64,
    };
    let buf = encode(&pkt);
    assert_eq!(buf.len(), 9, "wire size must be 1+8 bytes");
    assert_eq!(buf[0], 0x04);
    let id = i64::from_be_bytes(buf[1..9].try_into().unwrap());
    assert_eq!(id, 0x0123_4567_89ab_cdefi64);

    let decoded = S2CPacketV1_21_1::decode_in_state(State::Configuration, &buf).expect("decode");
    match decoded {
        S2CPacketV1_21_1::ConfigurationKeepAlive(k) => {
            assert_eq!(k.keep_alive_id, 0x0123_4567_89ab_cdefi64)
        }
        other => panic!("expected ConfigurationKeepAlive, got {other:?}"),
    }
}

#[test]
fn c2s_resource_pack_response_uuid_first() {
    let pkt = C2SResourcePackResponse {
        uuid: 0xdead_beef_dead_beef_dead_beef_dead_beefu128,
        result: VarInt(3),
    };
    let buf = encode(&pkt);
    assert_eq!(buf.len(), 1 + 16 + 1);
    assert_eq!(buf[0], 0x06);

    let decoded = C2SPacketV1_21_1::decode_in_state(State::Configuration, &buf).expect("decode");
    match decoded {
        C2SPacketV1_21_1::ResourcePackResponse(r) => {
            assert_eq!(r.uuid, pkt.uuid);
            assert_eq!(r.result.0, 3);
        }
        other => panic!("expected ResourcePackResponse, got {other:?}"),
    }
}

#[test]
fn void_chunk_payload_uses_anonymous_heightmaps_nbt() {
    let bytes = play::void_chunk_bytes_v1_21_1();

    assert_eq!(&bytes[..4], &[0, 0, 0, 0]);
    assert_eq!(&bytes[4..8], &[0, 0, 0, 0]);
    assert_eq!(bytes[8], 0x0a, "heightmaps should start with TAG_Compound");
    assert_eq!(
        bytes[9], 0x0c,
        "expected MOTION_BLOCKING TAG_Long_Array (0x0C) immediately after the heightmaps tag byte \
         — the 1.21.1 heightmaps is anonymous, so a u16 length=0 root-name prefix would be a \
         1.20.1 leak",
    );
}

#[test]
fn void_chunk_payload_v1_21_1_top_level_shape() {

    let bytes = play::void_chunk_bytes_v1_21_1();

    let mut cur = Cursor::new(&bytes[..]);

    let mut four = [0u8; 4];
    cur.read_exact(&mut four).unwrap();
    cur.read_exact(&mut four).unwrap();
    assert_eq!(four, [0, 0, 0, 0]);
    assert_eq!(
        &cur.get_ref()[cur.position() as usize - 4..cur.position() as usize],
        &[0, 0, 0, 0]
    );

    let mut tag = [0u8; 1];
    cur.read_exact(&mut tag).unwrap();
    assert_eq!(tag[0], 0x0a, "heightmaps should start with TAG_Compound");
    loop {
        cur.read_exact(&mut tag).unwrap();
        if tag[0] == 0x00 {
            break;
        }
        let mut nlen = [0u8; 2];
        cur.read_exact(&mut nlen).unwrap();
        let n = u16::from_be_bytes(nlen) as usize;
        let mut name = vec![0u8; n];
        cur.read_exact(&mut name).unwrap();
        match tag[0] {
            0x0c => {
                let mut lbuf = [0u8; 4];
                cur.read_exact(&mut lbuf).unwrap();
                let l = i32::from_be_bytes(lbuf) as usize;
                let mut sink = vec![0u8; l * 8];
                cur.read_exact(&mut sink).unwrap();
            }
            other => panic!("unexpected NBT tag 0x{other:02X} in heightmaps"),
        }
    }

    let mut v1 = [0u8; 1];
    cur.read_exact(&mut v1).unwrap();
    assert_eq!(v1[0] & 0x80, 0x80, "192 should encode as a 2-byte VarInt");
    let mut v2 = [0u8; 1];
    cur.read_exact(&mut v2).unwrap();
    let chunk_data_len = ((v1[0] & 0x7f) as i32) | ((v2[0] as i32) << 7);
    assert_eq!(
        chunk_data_len, 192,
        "chunk data buffer should be 192 bytes (24 sections × 8 bytes)"
    );

    let mut sink = vec![0u8; 192];
    cur.read_exact(&mut sink).unwrap();
    let mut be = [0u8; 1];
    cur.read_exact(&mut be).unwrap();
    assert_eq!(be[0], 0x00, "block entities count should be 0");

    for label in [
        "skyLightMask",
        "blockLightMask",
        "emptySkyLightMask",
        "emptyBlockLightMask",
        "skyLight",
        "blockLight",
    ] {
        cur.read_exact(&mut be).unwrap();
        assert_eq!(be[0], 0x00, "{label} should be an empty i64[]varint");
    }

    assert_eq!(
        cur.position() as usize,
        bytes.len(),
        "no trailing bytes expected"
    );
}
