//! The status response that a server-list query is answered with. It
//! travels as JSON text inside `S2CStatusResponse`; the caller serialises
//! it. The version name and protocol number are given at construction, so
//! one type serves every supported version.

use vstd::prelude::*;

use crate::packet::Chat;

verus! {

/// The version part: its name and protocol number.
pub struct Version {
    pub name: String,
    pub protocol: usize,
}

impl Version {
    /// The version named `name` with protocol number `protocol`.
    pub fn new(name: &str, protocol: usize) -> (r: Version)
        ensures
            r.name@ == name@,
            r.protocol == protocol,
    {
        Version { name: String::from_str(name), protocol }
    }
}

/// One player shown in the server list: a name and a UUID (as its 128
/// bits).
pub struct PlayerSample {
    pub name: String,
    pub id: u128,
}

impl PlayerSample {
    /// The sample entry for `name` and `id`.
    pub fn new(name: String, id: u128) -> (r: PlayerSample)
        ensures
            r.name@ == name@,
            r.id == id,
    {
        PlayerSample { name, id }
    }
}

/// The players part: the maximum, the number online and a sample.
pub struct Players {
    pub max: i32,
    pub online: i32,
    pub sample: Vec<PlayerSample>,
}

impl Players {
    /// The players part with the given maximum, online count and sample.
    pub fn new(max: i32, online: i32, sample: Vec<PlayerSample>) -> (r: Players)
        ensures
            r.max == max,
            r.online == online,
            r.sample@ == sample@,
    {
        Players { max, online, sample }
    }
}

/// The status response.
pub struct StatusResponse {
    pub version: Version,
    pub players: Players,
    /// The server description (the message of the day).
    pub description: Chat,
    /// The icon as a data URI, when there is one.
    pub favicon: Option<String>,
    pub enforces_secure_chat: bool,
}

/// The data URI prefix of a base64 PNG icon.
pub open spec fn favicon_prefix() -> Seq<char> {
    "data:image/png;base64,"@
}

impl StatusResponse {
    /// The response for a version, its players and description; a base64
    /// PNG icon becomes the data URI `data:image/png;base64,<icon>`.
    pub fn new(
        version_name: &str,
        protocol: usize,
        players: Players,
        description: Chat,
        favicon: Option<String>,
        enforces_secure_chat: bool,
    ) -> (r: StatusResponse)
        ensures
            r.version.name@ == version_name@,
            r.version.protocol == protocol,
            r.players.max == players.max,
            r.players.online == players.online,
            r.players.sample@ == players.sample@,
            r.description.0@ == description.0@,
            r.enforces_secure_chat == enforces_secure_chat,
            match favicon {
                Some(data) => r.favicon matches Some(f) && f@ == favicon_prefix() + data@,
                None => r.favicon is None,
            },
    {
        let favicon = match favicon {
            Some(data) => {
                let mut f = String::from_str("data:image/png;base64,");
                f.append(data.as_str());
                Some(f)
            },
            None => None,
        };
        StatusResponse {
            version: Version::new(version_name, protocol),
            players,
            description,
            favicon,
            enforces_secure_chat,
        }
    }
}

} // verus!
