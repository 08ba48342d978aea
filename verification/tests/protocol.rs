//! Version selection and dispatch.

use statik::protocol::Protocol;
use statik::server::protocol::{DecodedC2S, ProtocolKind, UnsupportedVersion};
use statik::state::{intent_to_state, ClientIntent, IntentError, State};
use statik::v1_20_1::V1_20_1;
use statik::v1_21_1::V1_21_1;

#[test]
fn selectors_name_versions() {
    assert_eq!(ProtocolKind::parse_selector("1.20.1"), Ok(ProtocolKind::V1_20_1(V1_20_1)));
    assert_eq!(ProtocolKind::parse_selector("763"), Ok(ProtocolKind::V1_20_1(V1_20_1)));
    assert_eq!(ProtocolKind::parse_selector("1.21.1"), Ok(ProtocolKind::V1_21_1(V1_21_1)));
    assert_eq!(ProtocolKind::parse_selector("767"), Ok(ProtocolKind::V1_21_1(V1_21_1)));
}

#[test]
fn selectors_are_trimmed() {
    assert_eq!(ProtocolKind::parse_selector("  1.21.1\n"), Ok(ProtocolKind::V1_21_1(V1_21_1)));
    assert_eq!(ProtocolKind::parse_selector("\t763 "), Ok(ProtocolKind::V1_20_1(V1_20_1)));
    assert_eq!(
        ProtocolKind::parse_selector("\u{3000}\u{a0}1.20.1\u{85}\u{2028}\u{202f}"),
        Ok(ProtocolKind::V1_20_1(V1_20_1))
    );
    assert_eq!(
        ProtocolKind::parse_selector("\u{1680}\u{2000}\u{200a}767\u{2029}\u{205f}\u{b}\u{c}\r"),
        Ok(ProtocolKind::V1_21_1(V1_21_1))
    );
    // A zero-width space is not white space, so it is not trimmed.
    assert_eq!(ProtocolKind::parse_selector("\u{200b}767"), Err(UnsupportedVersion));
}

#[test]
fn unsupported_selectors_are_refused() {
    assert_eq!(ProtocolKind::parse_selector("1.19.4"), Err(UnsupportedVersion));
    assert_eq!(ProtocolKind::parse_selector(""), Err(UnsupportedVersion));
    assert_eq!(ProtocolKind::parse_selector("7 67"), Err(UnsupportedVersion));
    assert_eq!(ProtocolKind::parse_trimmed(" 767"), Err(UnsupportedVersion));
}

#[test]
fn from_str_parses_selectors() {
    let k: ProtocolKind = "1.21.1".parse().unwrap();
    assert_eq!(k, ProtocolKind::V1_21_1(V1_21_1));
    assert!("2.0".parse::<ProtocolKind>().is_err());
}

#[test]
fn version_metadata() {
    assert_eq!(V1_20_1.protocol_version(), 763);
    assert_eq!(V1_20_1.minecraft_version(), "1.20.1");
    assert_eq!(V1_21_1.protocol_version(), 767);
    assert_eq!(V1_21_1.minecraft_version(), "1.21.1");
    let k = ProtocolKind::default();
    assert_eq!(k, ProtocolKind::V1_20_1(V1_20_1));
    assert_eq!(k.protocol_version(), 763);
    assert_eq!(ProtocolKind::V1_21_1(V1_21_1).minecraft_version(), "1.21.1");
}

#[test]
fn intents_map_to_states() {
    assert_eq!(intent_to_state(ClientIntent::Status), Ok(State::Status));
    assert_eq!(intent_to_state(ClientIntent::Login), Ok(State::Login));
    assert_eq!(intent_to_state(ClientIntent::Transfer), Err(IntentError::TransferUnsupported));
}

#[test]
fn decode_uses_the_selected_version() {
    // Play keep-alive reply: id 0x12 in 1.20.1, 0x18 in 1.21.1.
    let mut body = vec![0x12];
    body.extend_from_slice(&5i64.to_be_bytes());
    match DecodedC2S::decode(ProtocolKind::V1_20_1(V1_20_1), State::Play, &body) {
        Ok(DecodedC2S::V1_20_1(statik::v1_20_1::c2s::C2SPacket::KeepAlive(k))) => {
            assert_eq!(k.id, 5)
        }
        other => panic!("expected a 1.20.1 KeepAlive, got {other:?}"),
    }
    body[0] = 0x18;
    match DecodedC2S::decode(ProtocolKind::V1_21_1(V1_21_1), State::Play, &body) {
        Ok(DecodedC2S::V1_21_1(statik::v1_21_1::c2s::C2SPacket::KeepAlive(k))) => {
            assert_eq!(k.id, 5)
        }
        other => panic!("expected a 1.21.1 KeepAlive, got {other:?}"),
    }
}
