//! The shutdown flag, the `VarInt` conversions and the registry list.

use statik::server::shutdown::{ShutdownFlag, ShutdownSignal};
use statik::v1_20_1::c2s::{status::C2SPing, C2SPacket};
use statik::v1_21_1::s2c::{configuration::S2CFinishConfiguration, S2CPacket};
use statik::varint::VarInt;

#[test]
fn shutdown_is_one_way() {
    let mut f = ShutdownFlag::new();
    assert!(!f.is_shutdown());
    assert_eq!(f.observe(ShutdownSignal::Closed), None);
    assert!(!f.is_shutdown());
    assert_eq!(f.observe(ShutdownSignal::Reason("bye".to_string())), Some("bye".to_string()));
    assert!(f.is_shutdown());
    assert_eq!(f.observe(ShutdownSignal::Closed), None);
    assert!(f.is_shutdown());
    let mut g = ShutdownFlag::new();
    assert_eq!(g.observe(ShutdownSignal::Lagged(3)), None);
    assert!(g.is_shutdown());
}

#[test]
fn varint_conversions() {
    assert_eq!(VarInt::from(-5i32), VarInt(-5));
    assert_eq!(VarInt::from(u32::MAX), VarInt(-1));
    assert_eq!(VarInt::from(7usize), VarInt(7));
    assert_eq!(VarInt::from(-7isize), VarInt(-7));
    assert_eq!(i32::from(VarInt(9)), 9);
    assert_eq!(u32::from(VarInt(-1)), u32::MAX);
    assert_eq!(usize::from(VarInt(12)), 12);
    assert_eq!(isize::from(VarInt(-12)), -12);
    assert!(VarInt(1) < VarInt(2));
}

#[test]
fn registries_sent_in_configuration() {
    let ids = statik::v1_21_1::registries::all();
    assert_eq!(ids.len(), 11);
    assert_eq!(ids[0], "minecraft:dimension_type");
    assert_eq!(ids[1], "minecraft:worldgen/biome");
    assert_eq!(ids[2], "minecraft:chat_type");
    assert_eq!(ids[10], "minecraft:jukebox_song");
}

#[test]
fn packets_convert_into_their_groups() {
    match C2SPacket::from(C2SPing { payload: 3 }) {
        C2SPacket::Ping(p) => assert_eq!(p.payload, 3),
        other => panic!("expected Ping, got {other:?}"),
    }
    let g: S2CPacket = S2CFinishConfiguration {}.into();
    assert!(matches!(g, S2CPacket::FinishConfiguration(_)));
}
