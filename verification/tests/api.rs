//! The management API's decisions.

use statik::server::api::{dispatch, ApiAction, ApiRequest, ApiResponse, ApiSettings};

fn cfg(token: Option<&str>) -> ApiSettings {
    ApiSettings {
        token: token.map(|t| t.to_string()),
        mc_port: 25565,
        motd: "hello".to_string(),
        max_players: 20,
        hidden: false,
        disconnect_msg: "Disconnected from the server.".to_string(),
    }
}

fn req(action: &str, token: Option<&str>, reason: Option<&str>) -> ApiRequest {
    ApiRequest {
        action: action.to_string(),
        token: token.map(|t| t.to_string()),
        reason: reason.map(|t| t.to_string()),
    }
}

fn response(a: ApiAction) -> ApiResponse {
    match a {
        ApiAction::Respond(r) => r,
        ApiAction::Shutdown(reason) => panic!("unexpected shutdown: {reason}"),
    }
}

#[test]
fn ping_and_status_without_token() {
    let r = response(dispatch(req("ping", None, None), &cfg(None)));
    assert!(r.ok);
    assert_eq!(r.pong, Some(true));
    let r = response(dispatch(req("status", None, None), &cfg(None)));
    assert!(r.ok);
    let st = r.status.unwrap();
    assert_eq!(st.mc_port, 25565);
    assert_eq!(st.motd, "hello");
    assert_eq!(st.max_players, 20);
    assert!(!st.hidden);
}

#[test]
fn shutdown_without_configured_token_is_refused() {
    let r = response(dispatch(req("shutdown", Some("x"), None), &cfg(None)));
    assert!(!r.ok);
    assert_eq!(
        r.error.as_deref(),
        Some("api.token not configured; shutdown disabled for safety")
    );
}

#[test]
fn configured_token_is_required() {
    let r = response(dispatch(req("ping", None, None), &cfg(Some("s3"))));
    assert_eq!(r.error.as_deref(), Some("unauthorized"));
    let r = response(dispatch(req("ping", Some("wrong"), None), &cfg(Some("s3"))));
    assert_eq!(r.error.as_deref(), Some("unauthorized"));
    let r = response(dispatch(req("ping", Some("s3"), None), &cfg(Some("s3"))));
    assert!(r.ok);
}

#[test]
fn shutdown_carries_the_reason_or_the_default() {
    match dispatch(req("shutdown", Some("s3"), Some("restart")), &cfg(Some("s3"))) {
        ApiAction::Shutdown(r) => assert_eq!(r, "restart"),
        ApiAction::Respond(_) => panic!("expected a shutdown"),
    }
    match dispatch(req("shutdown", Some("s3"), None), &cfg(Some("s3"))) {
        ApiAction::Shutdown(r) => assert_eq!(r, "Disconnected from the server."),
        ApiAction::Respond(_) => panic!("expected a shutdown"),
    }
}

#[test]
fn unknown_actions_are_named() {
    let r = response(dispatch(req("reboot", None, None), &cfg(None)));
    assert!(!r.ok);
    assert_eq!(r.error.as_deref(), Some("unknown action: reboot"));
    let r = ApiResponse::ok();
    assert!(r.ok && r.error.is_none() && r.pong.is_none() && r.status.is_none());
    let r = ApiResponse::err("boom".to_string());
    assert!(!r.ok);
    assert_eq!(r.error.as_deref(), Some("boom"));
}
