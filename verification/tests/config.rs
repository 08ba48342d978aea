//! Configuration defaults and the status response.

use statik::common::response::{Players, PlayerSample, StatusResponse, Version};
use statik::packet::Chat;
use statik::server::config::{
    status_response, ApiServerConfig, CompressionConfig, GeneralServerConfig, McServerConfig,
};
use statik::server::protocol::ProtocolKind;
use statik::v1_21_1::V1_21_1;

#[test]
fn defaults() {
    let g = GeneralServerConfig::default();
    assert_eq!(g.host, "0.0.0.0");
    assert_eq!(g.log_level, "debug");
    let m = McServerConfig::default();
    assert_eq!(m.port, 25565);
    assert_eq!(m.version, None);
    assert_eq!(m.max_players, 20);
    assert!(!m.hide_player_count);
    assert_eq!(m.motd, "A Statik server!");
    assert_eq!(m.max_packet_size, 4096);
    assert_eq!(m.icon, None);
    assert!(!m.hidden);
    assert_eq!(m.disconnect_msg, "Disconnected from the server.");
    let a = ApiServerConfig::default();
    assert_eq!(a.port, 8080);
    assert_eq!(a.token, None);
    let c = CompressionConfig::default();
    assert!(!c.enabled);
    assert_eq!(c.threshold, 256);
}

#[test]
fn compression_is_negotiated_only_when_enabled() {
    assert_eq!(CompressionConfig { enabled: false, threshold: 256 }.negotiated(), None);
    assert_eq!(CompressionConfig { enabled: true, threshold: 128 }.negotiated(), Some(128));
}

#[test]
fn status_response_builds_a_data_uri_icon() {
    let players = Players::new(20, 0, vec![PlayerSample::new("Alex".to_string(), 1)]);
    let r = StatusResponse::new(
        "1.21.1",
        767,
        players,
        Chat::from_json(r#"{"text":"hi"}"#.to_string()),
        Some("AAAA".to_string()),
        false,
    );
    assert_eq!(r.version.name, "1.21.1");
    assert_eq!(r.version.protocol, 767);
    assert_eq!(r.players.max, 20);
    assert_eq!(r.players.online, 0);
    assert_eq!(r.players.sample[0].name, "Alex");
    assert_eq!(r.favicon.as_deref(), Some("data:image/png;base64,AAAA"));
    assert!(!r.enforces_secure_chat);
    let r = StatusResponse::new("1.20.1", 763, Players::new(1, 0, vec![]), Chat::from_json(String::new()), None, true);
    assert!(r.favicon.is_none());
    assert!(r.enforces_secure_chat);
    let v = Version::new("x", 1);
    assert_eq!((v.name.as_str(), v.protocol), ("x", 1));
}

#[test]
fn status_response_follows_version_and_config() {
    let mut mc = McServerConfig::default();
    mc.max_players = 42;
    mc.icon = Some("QUJD".to_string());
    let r = status_response(
        ProtocolKind::V1_21_1(V1_21_1),
        &mc,
        Chat::from_json(r#"{"text":"A Statik server!"}"#.to_string()),
    );
    assert_eq!(r.version.name, "1.21.1");
    assert_eq!(r.version.protocol, 767);
    assert_eq!(r.players.max, 42);
    assert_eq!(r.players.online, 0);
    assert!(r.players.sample.is_empty());
    assert_eq!(r.description.0, r#"{"text":"A Statik server!"}"#);
    assert_eq!(r.favicon.as_deref(), Some("data:image/png;base64,QUJD"));
    assert!(!r.enforces_secure_chat);
    let r = status_response(ProtocolKind::default(), &McServerConfig::default(), Chat::from_json(String::new()));
    assert_eq!(r.version.name, "1.20.1");
    assert!(r.favicon.is_none());
}
