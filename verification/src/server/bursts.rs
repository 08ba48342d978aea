//! The packet bursts the server sends when a client logs in: the 1.20.1
//! login and Play burst, and the 1.21.1 login, Configuration and Play
//! bursts.

use vstd::prelude::*;
use vstd::string::StringSliceAdditionalSpecFns;

use crate::codec::Wire;
use crate::common::abilities;
use crate::common::chunk_payload::{
    spec_chunk_payload, spec_heightmaps_v1_20_1, spec_heightmaps_v1_21_1,
    void_chunk_bytes_v1_20_1, void_chunk_bytes_v1_21_1,
};
use crate::common::KnownPack;
use crate::containers::RawBytes;
use crate::packet::Chat;
use crate::server::connection::{fits, framed, packet_bytes, Settings};
use crate::v1_21_1::registries::{all as registry_ids, spec_registry_ids};
use crate::varint::{spec_varint_encode, write_varint, VarInt};
use crate::v1_20_1::s2c::login as login20;
use crate::v1_20_1::s2c::play as play20;
use crate::v1_21_1::s2c::configuration as config21;
use crate::v1_21_1::s2c::login as login21;
use crate::v1_21_1::s2c::play as play21;

verus! {

/// The abilities sent to a limbo player: invulnerable, flying, allowed to
/// fly.
pub open spec fn limbo_abilities() -> u8 {
    7
}

/// The bits of the `f32` flying speed 0.05.
pub const FLYING_SPEED_BITS: u32 = 0x3d4c_cccd;

/// The bits of the `f32` walking speed 0.1.
pub const WALKING_SPEED_BITS: u32 = 0x3dcc_cccd;

/// The JSON text of the disconnect reason for an invalid username.
pub open spec fn invalid_username_reason() -> Seq<char> {
    "{\"text\":\"Invalid username.\"}"@
}

/// A string made of an ASCII literal short enough for the wire format.
pub(crate) fn ascii_string(s: &str) -> (r: String)
    requires
        vstd::string::is_ascii(s),
        s@.len() <= i32::MAX,
    ensures
        r@ == s@,
        fits(r@),
{
    proof {
        vstd::string::is_ascii_spec_bytes(s);
    }
    String::from_str(s)
}

/// The frame of `Disconnect` (Login) refusing an invalid username.
pub open spec fn spec_invalid_username_v1_20_1(t: Option<i32>) -> Seq<u8> {
    framed::<login20::S2CDisconnect>((invalid_username_reason(), ()), t)
}

/// The frame of `Disconnect` (Login) refusing an invalid username.
pub open spec fn spec_invalid_username_v1_21_1(t: Option<i32>) -> Seq<u8> {
    framed::<login21::S2CDisconnect>((invalid_username_reason(), ()), t)
}

/// Appends the `Disconnect` refusing an invalid username (1.20.1).
pub fn invalid_username_v1_20_1(out: &mut Vec<u8>, t: Option<i32>)
    ensures
        final(out)@ == old(out)@ + spec_invalid_username_v1_20_1(t),
{
    proof {
        reveal_strlit("{\"text\":\"Invalid username.\"}");
    }
    let reason = ascii_string("{\"text\":\"Invalid username.\"}");
    let p = login20::S2CDisconnect { reason: Chat::from_json(reason) };
    send(out, &p, t)
}

/// Appends the `Disconnect` refusing an invalid username (1.21.1).
pub fn invalid_username_v1_21_1(out: &mut Vec<u8>, t: Option<i32>)
    ensures
        final(out)@ == old(out)@ + spec_invalid_username_v1_21_1(t),
{
    proof {
        reveal_strlit("{\"text\":\"Invalid username.\"}");
    }
    let reason = ascii_string("{\"text\":\"Invalid username.\"}");
    let p = login21::S2CDisconnect { reason: Chat::from_json(reason) };
    send(out, &p, t)
}

/// Appends the frame of `p` in the compression state `t`.
pub fn send<P: crate::packet::Packet>(out: &mut Vec<u8>, p: &P, t: Option<i32>)
    requires
        P::encodable(p.model()),
    ensures
        final(out)@ == old(out)@ + framed::<P>(p.model(), t),
{
    let mut body: Vec<u8> = Vec::new();
    p.encode(&mut body);
    assert(body@ =~= packet_bytes::<P>(p.model()));
    let f = crate::server::framing::frame_packet(body.as_slice(), t);
    crate::containers::append_bytes(out, f.as_slice());
}

/// The 1.20.1 Play burst after `LoginSuccess`: `Login` (with the registry
/// codec, dimension type `minecraft:overworld`), the chunk cache center
/// (0, 0) and radius, the empty chunk, the spawn position, the player
/// position, the abilities, and `GameEvent` 12 (level chunks load start,
/// the 1.20.1 ordinal), which lets the client leave "Loading terrain".
pub open spec fn spec_play_burst_v1_20_1(s: &Settings, t: Option<i32>) -> Seq<u8> {
    let l = s.limbo;
    framed::<play20::S2CLogin>(
        (
            0i32,
            (
                false,
                (
                    l.gamemode,
                    (
                        l.gamemode,
                        (
                            seq![l.dimension@],
                            (
                                s.registry_codec@,
                                (
                                    "minecraft:overworld"@,
                                    (
                                        l.dimension@,
                                        (
                                            0i64,
                                            (
                                                s.max_players,
                                                (
                                                    l.view_distance,
                                                    (
                                                        l.simulation_distance,
                                                        (
                                                            true,
                                                            (
                                                                false,
                                                                (
                                                                    false,
                                                                    (
                                                                        false,
                                                                        (None, (0i32, ())),
                                                                    ),
                                                                ),
                                                            ),
                                                        ),
                                                    ),
                                                ),
                                            ),
                                        ),
                                    ),
                                ),
                            ),
                        ),
                    ),
                ),
            ),
        ),
        t,
    ) + framed::<play20::S2CSetChunkCacheCenter>((0i32, (0i32, ())), t)
        + framed::<play20::S2CSetChunkCacheRadius>((l.view_distance, ()), t)
        + framed::<play20::S2CLevelChunkWithLight>(
        (spec_chunk_payload(spec_heightmaps_v1_20_1()), ()),
        t,
    ) + framed::<play20::S2CSetDefaultSpawnPosition>((l.spawn.model(), (0u32, ())), t)
        + framed::<play20::S2CPlayerPosition>(
        (l.x_bits, (l.y_bits, (l.z_bits, (0u32, (0u32, (0u8, (0i32, ()))))))),
        t,
    ) + framed::<play20::S2CPlayerAbilities>(
        (limbo_abilities(), (FLYING_SPEED_BITS, (WALKING_SPEED_BITS, ()))),
        t,
    ) + framed::<play20::S2CGameEvent>((12u8, (0u32, ())), t)
}

/// The abilities flags of the limbo player.
fn limbo_flags() -> (r: u8)
    ensures
        r == limbo_abilities(),
{
    let f = abilities::INVULNERABLE | abilities::FLYING | abilities::CAN_FLY;
    assert(0x01u8 | 0x02u8 | 0x04u8 == 7u8) by (bit_vector);
    f
}

/// Appends the 1.20.1 Play burst.
#[verifier::spinoff_prover]
pub fn play_burst_v1_20_1(out: &mut Vec<u8>, s: &Settings, t: Option<i32>)
    requires
        s.wf(),
    ensures
        final(out)@ == old(out)@ + spec_play_burst_v1_20_1(s, t),
{
    let ghost start = out@;
    let l = &s.limbo;
    proof {
        reveal_strlit("minecraft:overworld");
    }
    let login = play20::S2CLogin {
        player_id: 0,
        hardcore: false,
        game_type: VarInt(l.gamemode),
        previous_game_type: VarInt(l.gamemode),
        levels: vec![l.dimension.clone()],
        registry_holder: RawBytes(s.registry_codec.clone()),
        dimension_type: ascii_string("minecraft:overworld"),
        dimension: l.dimension.clone(),
        seed: 0,
        max_players: VarInt(s.max_players),
        chunk_radius: VarInt(l.view_distance),
        simulation_distance: VarInt(l.simulation_distance),
        reduced_debug_info: true,
        show_death_screen: false,
        is_debug: false,
        is_flat: false,
        last_death_location: None,
        portal_cooldown: VarInt(0),
    };
    assert(login.registry_holder.0@ =~= s.registry_codec@);
    assert(login.levels.model() =~= seq![l.dimension@]);
    send(out, &login, t);
    send(out, &play20::S2CSetChunkCacheCenter { x: VarInt(0), z: VarInt(0) }, t);
    send(out, &play20::S2CSetChunkCacheRadius { radius: VarInt(l.view_distance) }, t);
    let chunk = play20::S2CLevelChunkWithLight { payload: RawBytes(void_chunk_bytes_v1_20_1()) };
    send(out, &chunk, t);
    send(out, &play20::S2CSetDefaultSpawnPosition { location: l.spawn, angle: 0 }, t);
    let pos = play20::S2CPlayerPosition {
        x: l.x_bits,
        y: l.y_bits,
        z: l.z_bits,
        y_rot: 0,
        x_rot: 0,
        relative_arguments: 0,
        id: VarInt(0),
    };
    send(out, &pos, t);
    let abil = play20::S2CPlayerAbilities {
        flags: limbo_flags(),
        flying_speed: FLYING_SPEED_BITS,
        walking_speed: WALKING_SPEED_BITS,
    };
    send(out, &abil, t);
    send(out, &play20::S2CGameEvent { event: 12, param: 0 }, t);
    assert(out@ =~= start + spec_play_burst_v1_20_1(s, t));
}

/// The `LoginSuccess` (1.20.1) for `name`: the nil UUID, the name, no
/// properties.
pub open spec fn spec_login_success_v1_20_1(name: Seq<char>, t: Option<i32>) -> Seq<u8> {
    framed::<login20::S2CLoginSuccess>((0u128, (name, (Seq::empty(), ()))), t)
}

/// The `LoginSuccess` (1.21.1) for `name`: the nil UUID, the name, no
/// properties, and lenient error handling.
pub open spec fn spec_login_success_v1_21_1(name: Seq<char>, t: Option<i32>) -> Seq<u8> {
    framed::<login21::S2CLoginSuccess>((0u128, (name, (Seq::empty(), (false, ())))), t)
}

/// The `SetCompression` announcing `threshold`, framed in the state `t`
/// that precedes it. The layout is the same in both versions.
pub open spec fn spec_set_compression(threshold: i32, t: Option<i32>) -> Seq<u8> {
    framed::<login20::S2CSetCompression>((threshold, ()), t)
}

/// Appends `LoginSuccess` (1.20.1) for `name`.
pub fn login_success_v1_20_1(out: &mut Vec<u8>, name: &String, t: Option<i32>)
    requires
        fits(name@),
    ensures
        final(out)@ == old(out)@ + spec_login_success_v1_20_1(name@, t),
{
    let p = login20::S2CLoginSuccess { uuid: 0, username: name.clone(), properties: Vec::new() };
    assert(p.properties.model() =~= Seq::empty());
    send(out, &p, t)
}

/// Appends `LoginSuccess` (1.21.1) for `name`.
pub fn login_success_v1_21_1(out: &mut Vec<u8>, name: &String, t: Option<i32>)
    requires
        fits(name@),
    ensures
        final(out)@ == old(out)@ + spec_login_success_v1_21_1(name@, t),
{
    let p = login21::S2CLoginSuccess {
        uuid: 0,
        username: name.clone(),
        properties: Vec::new(),
        strict_error_handling: false,
    };
    assert(p.properties.model() =~= Seq::empty());
    send(out, &p, t)
}

/// Appends `SetCompression` announcing `threshold`.
pub fn set_compression(out: &mut Vec<u8>, threshold: i32, t: Option<i32>)
    ensures
        final(out)@ == old(out)@ + spec_set_compression(threshold, t),
{
    send(out, &login20::S2CSetCompression { threshold: VarInt(threshold) }, t)
}

/// The server brand sent on the `minecraft:brand` channel: the string
/// `statik` (a `VarInt` length 6, then its bytes).
pub open spec fn brand_data() -> Seq<u8> {
    spec_varint_encode(6) + "statik".spec_bytes()
}

/// The frames of `RegistryData` for the first `n` registries, in order:
/// each registry's id with its data.
pub open spec fn spec_registry_frames(n: nat, data: Seq<Vec<u8>>, t: Option<i32>) -> Seq<u8>
    decreases n,
{
    if n == 0 {
        Seq::empty()
    } else {
        spec_registry_frames((n - 1) as nat, data, t) + framed::<config21::S2CRegistryData>(
            (spec_registry_ids()[n - 1], (data[n - 1]@, ())),
            t,
        )
    }
}

/// The 1.21.1 Configuration burst, sent once the client acknowledges the
/// login: the brand on `minecraft:brand`, the feature flags
/// (`minecraft:vanilla`), one `RegistryData` per registry of
/// [`crate::v1_21_1::registries::all`] in its order, with that registry's
/// data, and the known packs (`minecraft:core` 1.21.1).
pub open spec fn spec_configuration_burst(s: &Settings, t: Option<i32>) -> Seq<u8> {
    framed::<config21::S2CCustomPayload>(("minecraft:brand"@, (brand_data(), ())), t)
        + framed::<config21::S2CFeatureFlags>((seq!["minecraft:vanilla"@], ()), t)
        + spec_registry_frames(spec_registry_ids().len(), s.registry_data@, t)
        + framed::<config21::S2CKnownPacks>(
        (seq![("minecraft"@, ("core"@, ("1.21.1"@, ())))], ()),
        t,
    )
}

/// Appends the 1.21.1 Configuration burst.
pub fn configuration_burst(out: &mut Vec<u8>, s: &Settings, t: Option<i32>)
    requires
        s.wf(),
    ensures
        final(out)@ == old(out)@ + spec_configuration_burst(s, t),
{
    let ghost start = out@;
    proof {
        reveal_strlit("minecraft:brand");
        reveal_strlit("minecraft:vanilla");
        reveal_strlit("minecraft");
        reveal_strlit("core");
        reveal_strlit("1.21.1");
    }
    let mut brand: Vec<u8> = Vec::new();
    write_varint(6, &mut brand);
    crate::containers::append_bytes(&mut brand, "statik".as_bytes());
    let payload = config21::S2CCustomPayload {
        channel: ascii_string("minecraft:brand"),
        data: RawBytes(brand),
    };
    send(out, &payload, t);
    let flags = config21::S2CFeatureFlags { features: vec![ascii_string("minecraft:vanilla")] };
    assert(flags.features.model() =~= seq!["minecraft:vanilla"@]);
    send(out, &flags, t);
    let ghost before_registries = out@;
    let ids = registry_ids();
    let mut i: usize = 0;
    while i < ids.len()
        invariant
            i <= ids@.len(),
            ids@.len() == spec_registry_ids().len(),
            forall|j: int| 0 <= j < ids@.len() ==> #[trigger] ids@[j]@ == spec_registry_ids()[j],
            forall|j: int| 0 <= j < ids@.len() ==> fits(#[trigger] ids@[j]@),
            s.wf(),
            out@ == before_registries + spec_registry_frames(i as nat, s.registry_data@, t),
        decreases ids@.len() - i,
    {
        let p = config21::S2CRegistryData {
            registry_id: ids[i].clone(),
            data: RawBytes(s.registry_data[i].clone()),
        };
        assert(p.data.0@ =~= s.registry_data@[i as int]@);
        assert(fits(ids@[i as int]@));
        send(out, &p, t);
        i = i + 1;
    }
    let pack = KnownPack {
        namespace: ascii_string("minecraft"),
        id: ascii_string("core"),
        version: ascii_string("1.21.1"),
    };
    let packs = config21::S2CKnownPacks { packs: vec![pack] };
    assert(packs.packs.model() =~= seq![("minecraft"@, ("core"@, ("1.21.1"@, ())))]);
    send(out, &packs, t);
    assert(out@ =~= start + spec_configuration_burst(s, t));
}

/// The 1.21.1 Play burst, sent once Configuration finishes: `Login` (with
/// the spawn data nested in `SpawnInfo`, flat, no previous game mode), the
/// chunk cache center (0, 0) and radius, the empty chunk (anonymous
/// heightmaps), the spawn position, the player position, the abilities,
/// and `GameEvent` 7 (start waiting for levels).
pub open spec fn spec_play_burst_v1_21_1(s: &Settings, t: Option<i32>) -> Seq<u8> {
    let l = s.limbo;
    let spawn_info = (
        0i32,
        (
            l.dimension@,
            (
                0i64,
                (
                    l.gamemode as i8,
                    (0xffu8, (false, (true, (None, (0i32, ()))))),
                ),
            ),
        ),
    );
    framed::<play21::S2CLogin>(
        (
            0i32,
            (
                false,
                (
                    seq![l.dimension@],
                    (
                        s.max_players,
                        (
                            l.view_distance,
                            (
                                l.simulation_distance,
                                (false, (false, (false, (spawn_info, (false, ()))))),
                            ),
                        ),
                    ),
                ),
            ),
        ),
        t,
    ) + framed::<play21::S2CSetChunkCacheCenter>((0i32, (0i32, ())), t)
        + framed::<play21::S2CSetChunkCacheRadius>((l.view_distance, ()), t)
        + framed::<play21::S2CLevelChunkWithLight>(
        (spec_chunk_payload(spec_heightmaps_v1_21_1()), ()),
        t,
    ) + framed::<play21::S2CSetDefaultSpawnPosition>((l.spawn.model(), (0u32, ())), t)
        + framed::<play21::S2CPlayerPosition>(
        (l.x_bits, (l.y_bits, (l.z_bits, (0u32, (0u32, (0u8, (0i32, ()))))))),
        t,
    ) + framed::<play21::S2CPlayerAbilities>(
        (limbo_abilities(), (FLYING_SPEED_BITS, (WALKING_SPEED_BITS, ()))),
        t,
    ) + framed::<play21::S2CGameEvent>((7u8, (0u32, ())), t)
}

/// Appends the 1.21.1 Play burst.
#[verifier::spinoff_prover]
pub fn play_burst_v1_21_1(out: &mut Vec<u8>, s: &Settings, t: Option<i32>)
    requires
        s.wf(),
    ensures
        final(out)@ == old(out)@ + spec_play_burst_v1_21_1(s, t),
{
    let ghost start = out@;
    let l = &s.limbo;
    let info = play21::SpawnInfo {
        dimension: VarInt(0),
        name: l.dimension.clone(),
        hashed_seed: 0,
        gamemode: l.gamemode as i8,
        previous_gamemode: 0xff,
        is_debug: false,
        is_flat: true,
        death: None,
        portal_cooldown: VarInt(0),
    };
    let login = play21::S2CLogin {
        entity_id: 0,
        is_hardcore: false,
        world_names: vec![l.dimension.clone()],
        max_players: VarInt(s.max_players),
        view_distance: VarInt(l.view_distance),
        simulation_distance: VarInt(l.simulation_distance),
        reduced_debug_info: false,
        enable_respawn_screen: false,
        do_limited_crafting: false,
        world_state: info,
        enforces_secure_chat: false,
    };
    assert(login.world_names.model() =~= seq![l.dimension@]);
    send(out, &login, t);
    send(out, &play21::S2CSetChunkCacheCenter { x: VarInt(0), z: VarInt(0) }, t);
    send(out, &play21::S2CSetChunkCacheRadius { radius: VarInt(l.view_distance) }, t);
    let chunk = play21::S2CLevelChunkWithLight { payload: RawBytes(void_chunk_bytes_v1_21_1()) };
    send(out, &chunk, t);
    send(out, &play21::S2CSetDefaultSpawnPosition { location: l.spawn, angle: 0 }, t);
    let pos = play21::S2CPlayerPosition {
        x: l.x_bits,
        y: l.y_bits,
        z: l.z_bits,
        y_rot: 0,
        x_rot: 0,
        relative_arguments: 0,
        id: VarInt(0),
    };
    send(out, &pos, t);
    let abil = play21::S2CPlayerAbilities {
        flags: limbo_flags(),
        flying_speed: FLYING_SPEED_BITS,
        walking_speed: WALKING_SPEED_BITS,
    };
    send(out, &abil, t);
    send(out, &play21::S2CGameEvent { event: 7, param: 0 }, t);
    assert(out@ =~= start + spec_play_burst_v1_21_1(s, t));
}

} // verus!
