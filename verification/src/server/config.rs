//! The server configuration sections whose fields the library reads, with
//! their defaults. (The limbo section holds floating-point coordinates and
//! stays with the caller, which hands the library their bits.)

use vstd::prelude::*;

use crate::common::response::{favicon_prefix, Players, StatusResponse};
use crate::packet::Chat;
use crate::server::bursts::ascii_string;
use crate::server::protocol::{kind_minecraft_version, kind_protocol_version, ProtocolKind};

verus! {

/// The `[general]` section.
pub struct GeneralServerConfig {
    /// The address to listen on; "0.0.0.0" accepts all incoming
    /// connections.
    pub host: String,
    pub log_level: String,
}

impl Default for GeneralServerConfig {
    fn default() -> (r: GeneralServerConfig)
        ensures
            r.host@ == "0.0.0.0"@,
            r.log_level@ == "debug"@,
    {
        proof {
            reveal_strlit("0.0.0.0");
            reveal_strlit("debug");
        }
        GeneralServerConfig { host: ascii_string("0.0.0.0"), log_level: ascii_string("debug") }
    }
}

/// The `[mc]` section.
pub struct McServerConfig {
    /// The port Minecraft clients connect to.
    pub port: u16,
    /// The version served: a version (`1.20.1`, `1.21.1`) or a protocol
    /// number (`763`, `767`); 1.20.1 when absent.
    pub version: Option<String>,
    /// How many players can join at once (negative values are valid).
    pub max_players: i32,
    /// Hides the player count from a querying client.
    pub hide_player_count: bool,
    /// The "Message of the Day" shown in the server list.
    pub motd: String,
    /// The maximum size of a packet, in bytes.
    pub max_packet_size: usize,
    /// The file holding the server icon (a 64x64 PNG).
    pub icon: Option<String>,
    /// Whether the server appears offline.
    pub hidden: bool,
    /// The default message given when disconnecting a client.
    pub disconnect_msg: String,
}

impl Default for McServerConfig {
    fn default() -> (r: McServerConfig)
        ensures
            r.port == 25565,
            r.version is None,
            r.max_players == 20,
            !r.hide_player_count,
            r.motd@ == "A Statik server!"@,
            r.max_packet_size == 4096,
            r.icon is None,
            !r.hidden,
            r.disconnect_msg@ == "Disconnected from the server."@,
    {
        proof {
            reveal_strlit("A Statik server!");
            reveal_strlit("Disconnected from the server.");
        }
        McServerConfig {
            max_packet_size: 4096,
            port: 25565,
            version: None,
            max_players: 20,
            hide_player_count: false,
            motd: ascii_string("A Statik server!"),
            icon: None,
            hidden: false,
            disconnect_msg: ascii_string("Disconnected from the server."),
        }
    }
}

/// The `[api]` section.
pub struct ApiServerConfig {
    /// The port of the management API.
    pub port: usize,
    /// The shared secret of the API. Without one, `ping` and `status` are
    /// answered unauthenticated and `shutdown` is refused; with one, every
    /// request must carry it.
    pub token: Option<String>,
}

impl Default for ApiServerConfig {
    fn default() -> (r: ApiServerConfig)
        ensures
            r.port == 8080,
            r.token is None,
    {
        ApiServerConfig { port: 8080, token: None }
    }
}

/// The `[compression]` section: when enabled, `S2CSetCompression` is sent
/// before `LoginSuccess` and every later packet whose body reaches the
/// threshold is zlib-compressed.
pub struct CompressionConfig {
    pub enabled: bool,
    /// The threshold in bytes (vanilla uses 256).
    pub threshold: i32,
}

impl Default for CompressionConfig {
    fn default() -> (r: CompressionConfig)
        ensures
            !r.enabled,
            r.threshold == 256,
    {
        CompressionConfig { enabled: false, threshold: 256 }
    }
}

impl CompressionConfig {
    /// The threshold to announce at login, when compression is enabled.
    pub fn negotiated(&self) -> (r: Option<i32>)
        ensures
            r == (if self.enabled {
                Some(self.threshold)
            } else {
                None
            }),
    {
        if self.enabled {
            Some(self.threshold)
        } else {
            None
        }
    }
}

/// The status response a server-list query gets for the selected version
/// and the `[mc]` section: the version's name and protocol number, the
/// configured maximum, nobody online and no sample, the description (the
/// message of the day as a chat component), the configured icon as a data
/// URI, and no secure-chat enforcement.
pub fn status_response(protocol: ProtocolKind, mc: &McServerConfig, description: Chat) -> (r:
    StatusResponse)
    ensures
        r.version.name@ == kind_minecraft_version(protocol),
        r.version.protocol == kind_protocol_version(protocol),
        r.players.max == mc.max_players,
        r.players.online == 0,
        r.players.sample@.len() == 0,
        r.description.0@ == description.0@,
        !r.enforces_secure_chat,
        match mc.icon {
            Some(data) => r.favicon matches Some(f) && f@ == favicon_prefix() + data@,
            None => r.favicon is None,
        },
{
    let icon = match &mc.icon {
        Some(i) => Some(i.clone()),
        None => None,
    };
    StatusResponse::new(
        protocol.minecraft_version(),
        protocol.protocol_version(),
        Players::new(mc.max_players, 0, Vec::new()),
        description,
        icon,
        false,
    )
}

} // verus!
