//! The decisions of the management API.
//!
//! One request per connection: `{"action":"ping"}`, `{"action":"status"}`
//! or `{"action":"shutdown","token":"...","reason":"..."}`. When a token is
//! configured every action must carry it; when none is, `ping` and `status`
//! are answered but `shutdown` is refused, so that an unconfigured server
//! cannot be shut down over the network. The caller reads and parses the
//! request, sends the shutdown signal and writes the response.

use vstd::prelude::*;

use crate::server::bursts::ascii_string;

verus! {

/// A request: the action, and the token and reason when given.
pub struct ApiRequest {
    pub action: String,
    pub token: Option<String>,
    pub reason: Option<String>,
}

/// The server's status, as the `status` action reports it.
pub struct ApiStatus {
    pub mc_port: u16,
    pub motd: String,
    pub max_players: i32,
    pub hidden: bool,
}

/// A response: whether the action succeeded, and the error, pong or status
/// that goes with it.
pub struct ApiResponse {
    pub ok: bool,
    pub error: Option<String>,
    pub pong: Option<bool>,
    pub status: Option<ApiStatus>,
}

impl ApiResponse {
    /// A plain success.
    pub fn ok() -> (r: ApiResponse)
        ensures
            r.ok,
            r.error is None,
            r.pong is None,
            r.status is None,
    {
        ApiResponse { ok: true, error: None, pong: None, status: None }
    }

    /// A failure with the given message.
    pub fn err(message: String) -> (r: ApiResponse)
        ensures
            !r.ok,
            r.error matches Some(e) && e@ == message@,
            r.pong is None,
            r.status is None,
    {
        ApiResponse { ok: false, error: Some(message), pong: None, status: None }
    }
}

/// What the API's decisions read from the configuration.
pub struct ApiSettings {
    /// The shared secret, when one is configured.
    pub token: Option<String>,
    pub mc_port: u16,
    pub motd: String,
    pub max_players: i32,
    pub hidden: bool,
    /// The reason given to players when none comes with a shutdown.
    pub disconnect_msg: String,
}

/// What the caller does with a request.
pub enum ApiAction {
    /// Write this response.
    Respond(ApiResponse),
    /// Signal a shutdown with this reason, then answer a plain success (or
    /// a failure when the signal cannot be sent).
    Shutdown(String),
}

/// The decision on a request, over the strings' characters.
pub ghost enum ApiOutcome {
    /// The token is missing or wrong.
    Unauthorized,
    /// `ping`: answered with a pong.
    Pong,
    /// `status`: answered with the server's status.
    Status,
    /// `shutdown` without a configured token.
    ShutdownDisabled,
    /// `shutdown` with this reason.
    Shutdown(Seq<char>),
    /// Any other action.
    Unknown(Seq<char>),
}

/// The token as given, when given.
pub open spec fn opt_view(o: Option<String>) -> Option<Seq<char>> {
    match o {
        Some(s) => Some(s@),
        None => None,
    }
}

/// The decision on a request with action `action`, token `token` and
/// reason `reason`, under the configured token `expected`.
pub open spec fn spec_api_outcome(
    action: Seq<char>,
    token: Option<Seq<char>>,
    reason: Option<Seq<char>>,
    expected: Option<Seq<char>>,
    disconnect_msg: Seq<char>,
) -> ApiOutcome {
    if expected is Some && token != expected {
        ApiOutcome::Unauthorized
    } else if action == "ping"@ {
        ApiOutcome::Pong
    } else if action == "status"@ {
        ApiOutcome::Status
    } else if action == "shutdown"@ {
        if expected is None {
            ApiOutcome::ShutdownDisabled
        } else {
            ApiOutcome::Shutdown(
                match reason {
                    Some(r) => r,
                    None => disconnect_msg,
                },
            )
        }
    } else {
        ApiOutcome::Unknown(action)
    }
}

/// The error message for an unknown action.
pub open spec fn unknown_action_message(action: Seq<char>) -> Seq<char> {
    "unknown action: "@ + action
}

/// `r` is a failure with the message `msg` and nothing else.
pub open spec fn is_failure(r: &ApiResponse, msg: Seq<char>) -> bool {
    &&& !r.ok
    &&& match r.error {
        Some(e) => e@ == msg,
        None => false,
    }
    &&& r.pong is None
    &&& r.status is None
}

/// `r` reports the status of `cfg`.
pub open spec fn is_status(r: &ApiResponse, cfg: &ApiSettings) -> bool {
    &&& r.ok
    &&& r.error is None
    &&& r.pong is None
    &&& match r.status {
        Some(st) => st.mc_port == cfg.mc_port && st.motd@ == cfg.motd@ && st.max_players
            == cfg.max_players && st.hidden == cfg.hidden,
        None => false,
    }
}

/// `a` is the action for the outcome `o` under the settings `cfg`.
pub open spec fn action_for(a: ApiAction, o: ApiOutcome, cfg: &ApiSettings) -> bool {
    match (o, a) {
        (ApiOutcome::Unauthorized, ApiAction::Respond(r)) => is_failure(&r, "unauthorized"@),
        (ApiOutcome::Pong, ApiAction::Respond(r)) => r.ok && r.error is None && r.pong == Some(
            true,
        ) && r.status is None,
        (ApiOutcome::Status, ApiAction::Respond(r)) => is_status(&r, cfg),
        (ApiOutcome::ShutdownDisabled, ApiAction::Respond(r)) => is_failure(
            &r,
            "api.token not configured; shutdown disabled for safety"@,
        ),
        (ApiOutcome::Shutdown(reason), ApiAction::Shutdown(s)) => s@ == reason,
        (ApiOutcome::Unknown(action), ApiAction::Respond(r)) => is_failure(
            &r,
            unknown_action_message(action),
        ),
        _ => false,
    }
}

/// Authenticates a request and decides what to do with it.
pub fn dispatch(request: ApiRequest, cfg: &ApiSettings) -> (r: ApiAction)
    ensures
        action_for(
            r,
            spec_api_outcome(
                request.action@,
                opt_view(request.token),
                opt_view(request.reason),
                opt_view(cfg.token),
                cfg.disconnect_msg@,
            ),
            cfg,
        ),
{
    proof {
        reveal_strlit("unauthorized");
        reveal_strlit("api.token not configured; shutdown disabled for safety");
    }
    match &cfg.token {
        Some(expected) => {
            let matches = match &request.token {
                Some(t) => *t == *expected,
                None => false,
            };
            if !matches {
                return ApiAction::Respond(ApiResponse::err(String::from_str("unauthorized")));
            }
        },
        None => {},
    }
    if request.action == String::from_str("ping") {
        ApiAction::Respond(ApiResponse { ok: true, error: None, pong: Some(true), status: None })
    } else if request.action == String::from_str("status") {
        let st = ApiStatus {
            mc_port: cfg.mc_port,
            motd: cfg.motd.clone(),
            max_players: cfg.max_players,
            hidden: cfg.hidden,
        };
        ApiAction::Respond(ApiResponse { ok: true, error: None, pong: None, status: Some(st) })
    } else if request.action == String::from_str("shutdown") {
        if cfg.token.is_none() {
            return ApiAction::Respond(
                ApiResponse::err(
                    String::from_str("api.token not configured; shutdown disabled for safety"),
                ),
            );
        }
        let reason = match request.reason {
            Some(r) => r,
            None => cfg.disconnect_msg.clone(),
        };
        ApiAction::Shutdown(reason)
    } else {
        let mut message = String::from_str("unknown action: ");
        message.append(request.action.as_str());
        ApiAction::Respond(ApiResponse::err(message))
    }
}

/// When a token is configured, a request without that token is refused;
/// when none is, a shutdown is never signalled.
pub proof fn lemma_api_authentication(
    action: Seq<char>,
    token: Option<Seq<char>>,
    reason: Option<Seq<char>>,
    expected: Option<Seq<char>>,
    disconnect_msg: Seq<char>,
)
    ensures
        expected is Some && token != expected ==> spec_api_outcome(
            action,
            token,
            reason,
            expected,
            disconnect_msg,
        ) == ApiOutcome::Unauthorized,
        expected is None ==> !(spec_api_outcome(
            action,
            token,
            reason,
            expected,
            disconnect_msg,
        ) is Shutdown),
{
}

} // verus!
