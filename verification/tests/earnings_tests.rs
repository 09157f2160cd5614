use base64::engine::general_purpose;
use base64::Engine;
use newm_admin::auth::{
    classify_login_response, AuthError, Environment,
};
use newm_admin::earnings::{
    add_earnings_url, classify_earnings_status, earnings_admin_url, finish_list, usd_to_amount,
    Earning, EarningsError,
};
use newm_admin::http::HttpOutcome;
use newm_admin::session::SessionError;

#[test]
fn test_environment_urls() {
    assert_eq!(Environment::Garage.base_url(), "https://garage.newm.io");
    assert_eq!(Environment::Studio.base_url(), "https://studio.newm.io");
    assert_eq!(
        Environment::Garage.login_url(),
        "https://garage.newm.io/v1/auth/login"
    );
    assert_eq!(
        Environment::Studio.refresh_url(),
        "https://studio.newm.io/v1/auth/refresh"
    );
    assert_eq!(
        earnings_admin_url(Environment::Garage),
        "https://garage.newm.io/v1/earnings/admin"
    );
    assert_eq!(
        add_earnings_url(Environment::Studio, "USRC12345678"),
        "https://studio.newm.io/v1/earnings/admin/USRC12345678"
    );
}

#[test]
fn test_environment_indexing() {
    assert_eq!(Environment::from_index(0), Environment::Garage);
    assert_eq!(Environment::from_index(1), Environment::Studio);
    assert_eq!(Environment::from_index(7), Environment::Garage);
    assert_eq!(Environment::Garage.to_index(), 0);
    assert_eq!(Environment::Studio.to_index(), 1);
    assert_eq!(Environment::Garage.display_name(), "Garage");
    assert_eq!(Environment::Studio.display_name(), "Studio");
}

#[test]
fn test_list_401_is_session_expired_never_api_error() {
    // A 401 on an earnings call is always a session-level failure.
    let outcome = HttpOutcome::Response {
        status: 401,
        body: "whatever".to_string(),
    };
    match classify_earnings_status(outcome) {
        Err(EarningsError::SessionExpired(m)) => {
            assert_eq!(m, "Unauthorized - please login again");
        }
        Err(EarningsError::Api { .. }) => panic!("401 must never classify as an API error"),
        _ => panic!("expected a session expiry"),
    }
}

#[test]
fn test_earnings_status_classification() {
    match classify_earnings_status(HttpOutcome::Response {
        status: 200,
        body: "[]".to_string(),
    }) {
        Ok(body) => assert_eq!(body, "[]"),
        _ => panic!("expected success"),
    }
    match classify_earnings_status(HttpOutcome::Response {
        status: 500,
        body: "boom".to_string(),
    }) {
        Err(EarningsError::Api { status, message }) => {
            assert_eq!(status, 500);
            assert_eq!(message, "boom");
        }
        _ => panic!("expected an API error"),
    }
    match classify_earnings_status(HttpOutcome::Transport("dns".to_string())) {
        Err(EarningsError::Network(m)) => assert_eq!(m, "dns"),
        _ => panic!("expected a network error"),
    }
}

#[test]
fn test_finish_list() {
    let earnings = vec![Earning {
        id: Some("e1".to_string()),
        song_id: Some("s1".to_string()),
        stake_address: "stake1xyz".to_string(),
        amount: 10_500_000,
        memo: None,
        claimed: false,
        claimed_at: None,
        created_at: "2024-01-01T00:00:00Z".to_string(),
    }];
    let ok = finish_list(Ok(earnings)).unwrap();
    assert_eq!(ok.len(), 1);
    assert_eq!(ok[0].amount, 10_500_000);

    match finish_list(Err("missing field".to_string())) {
        Err(EarningsError::Api { status, message }) => {
            assert_eq!(status, 200);
            assert_eq!(message, "Failed to parse response: missing field");
        }
        _ => panic!("expected an API error"),
    }
}

#[test]
fn test_earnings_error_messages() {
    assert_eq!(
        EarningsError::SessionExpired("gone".to_string()).message(),
        "Session expired: gone"
    );
    assert_eq!(
        EarningsError::Api {
            status: 500,
            message: "boom".to_string()
        }
        .message(),
        "API error 500: boom"
    );
    assert_eq!(
        EarningsError::Network("down".to_string()).message(),
        "Network error: down"
    );
}

#[test]
fn test_earnings_error_from_session_error() {
    match EarningsError::from(SessionError::Expired("x".to_string())) {
        EarningsError::SessionExpired(m) => assert_eq!(m, "x"),
        _ => panic!("expected a session expiry"),
    }
    match EarningsError::from(SessionError::Network("y".to_string())) {
        EarningsError::Network(m) => assert_eq!(m, "y"),
        _ => panic!("expected a network error"),
    }
}

#[test]
fn test_usd_to_amount_reexport() {
    assert_eq!(usd_to_amount("10.50").unwrap(), 10_500_000);
}

fn admin_login_body(admin: bool) -> String {
    let header = general_purpose::URL_SAFE_NO_PAD.encode(r#"{"alg":"HS256","typ":"JWT"}"#);
    let payload = general_purpose::URL_SAFE_NO_PAD
        .encode(format!(r#"{{"admin":{},"sub":"123"}}"#, admin));
    let token = format!("{}.{}.signature", header, payload);
    format!(
        r#"{{"accessToken":"{}","refreshToken":"refresh-1"}}"#,
        token
    )
}

#[test]
fn test_login_success_for_admin() {
    let outcome = HttpOutcome::Response {
        status: 200,
        body: admin_login_body(true),
    };
    let pair = classify_login_response(outcome).unwrap();
    assert_eq!(pair.refresh_token, "refresh-1");
    assert!(pair.access_token.contains('.'));
}

#[test]
fn test_login_rejects_non_admin() {
    let outcome = HttpOutcome::Response {
        status: 200,
        body: admin_login_body(false),
    };
    match classify_login_response(outcome) {
        Err(AuthError::NotAdmin) => {}
        _ => panic!("a non-admin account must be rejected"),
    }
}

#[test]
fn test_login_rejects_missing_admin_claim() {
    let payload = general_purpose::URL_SAFE_NO_PAD.encode(r#"{"sub":"123"}"#);
    let token = format!("h.{}.s", payload);
    let body = format!(
        r#"{{"accessToken":"{}","refreshToken":"r"}}"#,
        token
    );
    match classify_login_response(HttpOutcome::Response { status: 200, body }) {
        Err(AuthError::NotAdmin) => {}
        _ => panic!("a missing admin claim must be rejected"),
    }
}

#[test]
fn test_login_parse_failures() {
    match classify_login_response(HttpOutcome::Response {
        status: 200,
        body: "not json".to_string(),
    }) {
        Err(AuthError::Parse(m)) => assert_eq!(m, "Failed to parse login response"),
        _ => panic!("expected a parse error"),
    }
    // A token pair whose access token is not a three-segment token.
    let body = r#"{"accessToken":"garbage","refreshToken":"r"}"#.to_string();
    match classify_login_response(HttpOutcome::Response { status: 200, body }) {
        Err(AuthError::Parse(m)) => assert_eq!(m, "Invalid JWT format: expected 3 parts"),
        _ => panic!("expected a parse error"),
    }
}

#[test]
fn test_login_error_body_surfaces_cause() {
    let body = r#"{"code":401,"description":"Unauthorized","cause":"Bad credentials"}"#
        .to_string();
    match classify_login_response(HttpOutcome::Response { status: 401, body }) {
        Err(AuthError::Http { status, message }) => {
            assert_eq!(status, 401);
            assert_eq!(message, "Bad credentials");
        }
        _ => panic!("expected an HTTP error"),
    }
}

#[test]
fn test_login_error_raw_body_when_unstructured() {
    match classify_login_response(HttpOutcome::Response {
        status: 502,
        body: "<html>bad gateway</html>".to_string(),
    }) {
        Err(AuthError::Http { status, message }) => {
            assert_eq!(status, 502);
            assert_eq!(message, "<html>bad gateway</html>");
        }
        _ => panic!("expected an HTTP error"),
    }
}

#[test]
fn test_login_transport_failure() {
    match classify_login_response(HttpOutcome::Transport("timeout".to_string())) {
        Err(AuthError::Network(m)) => assert_eq!(m, "timeout"),
        _ => panic!("expected a network error"),
    }
}

#[test]
fn test_auth_error_messages() {
    assert_eq!(
        AuthError::Network("down".to_string()).message(),
        "Network error: down"
    );
    assert_eq!(
        AuthError::Http {
            status: 401,
            message: "nope".to_string()
        }
        .message(),
        "Error 401: nope"
    );
    assert_eq!(
        AuthError::Parse("bad".to_string()).message(),
        "Parse error: bad"
    );
    assert_eq!(
        AuthError::NotAdmin.message(),
        "Access denied: Admin privileges required"
    );
}
