use base64::engine::general_purpose;
use base64::Engine;
use newm_admin::auth::{Environment, LoginResponse};
use newm_admin::http::HttpOutcome;
use newm_admin::session::{Session, SessionError, TokenDecision, REFRESH_BUFFER_SECS};

fn token_with_exp(exp: i64) -> String {
    let header = general_purpose::URL_SAFE_NO_PAD.encode(r#"{"alg":"HS256","typ":"JWT"}"#);
    let payload =
        general_purpose::URL_SAFE_NO_PAD.encode(format!(r#"{{"admin":true,"exp":{}}}"#, exp));
    format!("{}.{}.signature", header, payload)
}

fn session_with_exp(exp: i64) -> Session {
    Session::new(
        LoginResponse {
            access_token: token_with_exp(exp),
            refresh_token: "refresh-token-1".to_string(),
        },
        Environment::Garage,
    )
}

#[test]
fn test_token_request_returns_stored_token_when_fresh() {
    // 120 seconds of lifetime left: beyond the 60-second buffer.
    let session = session_with_exp(1120);
    match session.token_request(1000) {
        TokenDecision::UseStored { access_token } => {
            assert_eq!(access_token, token_with_exp(1120));
        }
        TokenDecision::Refresh { .. } => panic!("no refresh expected for a fresh token"),
    }
}

#[test]
fn test_token_request_demands_refresh_inside_buffer() {
    // 30 seconds left: within the buffer.
    let session = session_with_exp(1030);
    match session.token_request(1000) {
        TokenDecision::Refresh { url, refresh_token } => {
            assert_eq!(url, "https://garage.newm.io/v1/auth/refresh");
            assert_eq!(refresh_token, "refresh-token-1");
        }
        TokenDecision::UseStored { .. } => panic!("a refresh was expected"),
    }
}

#[test]
fn test_token_request_boundary_at_buffer() {
    assert_eq!(REFRESH_BUFFER_SECS, 60);
    // Exactly 60 seconds left still triggers a refresh.
    let session = session_with_exp(1060);
    assert!(matches!(
        session.token_request(1000),
        TokenDecision::Refresh { .. }
    ));
    // 61 seconds left does not.
    let session = session_with_exp(1061);
    assert!(matches!(
        session.token_request(1000),
        TokenDecision::UseStored { .. }
    ));
}

#[test]
fn test_token_request_refreshes_undecodable_expiry() {
    let session = Session::new(
        LoginResponse {
            access_token: "not-a-jwt".to_string(),
            refresh_token: "r".to_string(),
        },
        Environment::Studio,
    );
    match session.token_request(0) {
        TokenDecision::Refresh { url, .. } => {
            assert_eq!(url, "https://studio.newm.io/v1/auth/refresh");
        }
        TokenDecision::UseStored { .. } => panic!("a refresh was expected"),
    }
}

#[test]
fn test_apply_refresh_success_replaces_pair() {
    let mut session = session_with_exp(1030);
    let body = r#"{"accessToken":"new-access","refreshToken":"new-refresh"}"#.to_string();
    let result = session.apply_refresh(HttpOutcome::Response { status: 200, body });
    assert_eq!(result.unwrap(), "new-access");
    assert_eq!(session.current_token(), "new-access");
}

#[test]
fn test_apply_refresh_failure_keeps_stale_pair() {
    // A non-2xx refresh fails the call with a session expiry and leaves the
    // previously stored pair untouched.
    let mut session = session_with_exp(1030);
    let stored = session.current_token();
    let result = session.apply_refresh(HttpOutcome::Response {
        status: 401,
        body: "token revoked".to_string(),
    });
    match result {
        Err(SessionError::Expired(m)) => assert_eq!(m, "Refresh failed: token revoked"),
        _ => panic!("expected a session expiry"),
    }
    assert_eq!(session.current_token(), stored);
}

#[test]
fn test_apply_refresh_unparsable_body_keeps_stale_pair() {
    let mut session = session_with_exp(1030);
    let stored = session.current_token();
    let result = session.apply_refresh(HttpOutcome::Response {
        status: 200,
        body: "not json".to_string(),
    });
    match result {
        Err(SessionError::Expired(m)) => {
            assert_eq!(m, "Refresh failed: invalid token response");
        }
        _ => panic!("expected a session expiry"),
    }
    assert_eq!(session.current_token(), stored);
}

#[test]
fn test_apply_refresh_transport_failure_is_network_error() {
    let mut session = session_with_exp(1030);
    let stored = session.current_token();
    let result = session.apply_refresh(HttpOutcome::Transport("connection reset".to_string()));
    match result {
        Err(SessionError::Network(m)) => assert_eq!(m, "connection reset"),
        _ => panic!("expected a network error"),
    }
    assert_eq!(session.current_token(), stored);
}

#[test]
fn test_session_environment_fixed() {
    let session = session_with_exp(0);
    assert_eq!(session.environment(), Environment::Garage);
}

#[test]
fn test_session_error_messages() {
    assert_eq!(
        SessionError::Expired("gone".to_string()).message(),
        "Session expired: gone"
    );
    assert_eq!(
        SessionError::Network("down".to_string()).message(),
        "Network error: down"
    );
}
