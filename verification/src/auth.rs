//! Environments, credentials, and classification of login responses,
//! including the admin gate: an account whose access token does not carry an
//! admin claim of exactly `true` cannot obtain a session.

use vstd::prelude::*;
use vstd::string::*;
use vstd::utf8::encode_utf8;
use crate::http::{HttpOutcome, is_success_status, status_is_success};
use crate::token;

verus! {

/// Backend environment selected at login time and fixed for the life of a
/// session.
#[derive(Debug, Clone, Copy, PartialEq, Eq, Structural)]
pub enum Environment {
    Garage,
    Studio,
}

impl Default for Environment {
    fn default() -> (r: Self)
        ensures
            r == Environment::Garage,
    {
        Environment::Garage
    }
}

impl Environment {
    /// The base URL of this environment's API host.
    pub open spec fn base_url_spec(self) -> Seq<char> {
        match self {
            Environment::Garage => "https://garage.newm.io"@,
            Environment::Studio => "https://studio.newm.io"@,
        }
    }

    /// Get the base URL for this environment.
    pub fn base_url(&self) -> (r: &'static str)
        ensures
            r@ == self.base_url_spec(),
    {
        match self {
            Environment::Garage => "https://garage.newm.io",
            Environment::Studio => "https://studio.newm.io",
        }
    }

    /// Get the login endpoint URL.
    pub fn login_url(&self) -> (r: String)
        ensures
            r@ == self.base_url_spec() + "/v1/auth/login"@,
    {
        let mut s = String::from_str(self.base_url());
        s.append("/v1/auth/login");
        s
    }

    /// Get the token refresh endpoint URL.
    pub fn refresh_url(&self) -> (r: String)
        ensures
            r@ == self.base_url_spec() + "/v1/auth/refresh"@,
    {
        let mut s = String::from_str(self.base_url());
        s.append("/v1/auth/refresh");
        s
    }

    /// Get the environment selected by a zero-based index; anything out of
    /// range falls back to the first environment.
    pub fn from_index(index: usize) -> (r: Self)
        ensures
            r == (if index == 1 {
                Environment::Studio
            } else {
                Environment::Garage
            }),
    {
        match index {
            0 => Environment::Garage,
            1 => Environment::Studio,
            _ => Environment::Garage,
        }
    }

    /// Get the zero-based index of this environment.
    pub fn to_index(self) -> (r: usize)
        ensures
            r == (if self == Environment::Garage {
                0usize
            } else {
                1usize
            }),
    {
        match self {
            Environment::Garage => 0,
            Environment::Studio => 1,
        }
    }

    /// Human-readable name of this environment.
    pub open spec fn display_name_spec(self) -> Seq<char> {
        match self {
            Environment::Garage => "Garage"@,
            Environment::Studio => "Studio"@,
        }
    }

    /// Display name of this environment.
    pub fn display_name(&self) -> (r: &'static str)
        ensures
            r@ == self.display_name_spec(),
    {
        match self {
            Environment::Garage => "Garage",
            Environment::Studio => "Studio",
        }
    }
}

/// Login request payload: the credentials, used once and never stored.
#[derive(Debug)]
pub struct LoginRequest {
    pub email: String,
    pub password: String,
}

/// Successful login (or refresh) response: a fresh token pair.
#[derive(Debug, Clone)]
pub struct LoginResponse {
    pub access_token: String,
    pub refresh_token: String,
}

/// Structured error body some API endpoints return.
#[derive(Debug)]
pub struct ApiErrorResponse {
    pub code: u16,
    pub description: String,
    pub cause: String,
}

/// Authentication errors.
#[derive(Debug)]
pub enum AuthError {
    /// Network or connection error.
    Network(String),
    /// HTTP error with status code and message.
    Http { status: u16, message: String },
    /// Failed to parse a response or token.
    Parse(String),
    /// The account is not an admin.
    NotAdmin,
}

impl AuthError {
    /// The error rendered as the user sees it.
    pub open spec fn message_spec(&self) -> Seq<char> {
        match self {
            AuthError::Network(msg) => "Network error: "@ + msg@,
            AuthError::Http { status, message } => "Error "@ + crate::text::dec_str(
                *status as nat,
            ) + ": "@ + message@,
            AuthError::Parse(msg) => "Parse error: "@ + msg@,
            AuthError::NotAdmin => "Access denied: Admin privileges required"@,
        }
    }

    /// Render the error as the user sees it.
    pub fn message(&self) -> (r: String)
        ensures
            r@ == self.message_spec(),
    {
        match self {
            AuthError::Network(msg) => {
                let mut m = String::from_str("Network error: ");
                m.append(msg.as_str());
                m
            },
            AuthError::Http { status, message } => {
                let mut m = String::from_str("Error ");
                let code = crate::text::u64_to_string(*status as u64);
                m.append(code.as_str());
                m.append(": ");
                m.append(message.as_str());
                m
            },
            AuthError::Parse(msg) => {
                let mut m = String::from_str("Parse error: ");
                m.append(msg.as_str());
                m
            },
            AuthError::NotAdmin => String::from_str("Access denied: Admin privileges required"),
        }
    }
}

/// What the token-pair parser yields for a response body: the access and
/// refresh token texts, or `None` where the body is not a JSON object with
/// both members.
pub uninterp spec fn token_pair_of(body: Seq<char>) -> Option<(Seq<char>, Seq<char>)>;

/// Relies on serde_json's `from_str` and the `Value` accessors `get` and
/// `as_str`: parsing is a pure function of the body text. The body must be a
/// JSON object carrying string members `accessToken` and `refreshToken`.
#[verifier::external_body]
pub(crate) fn parse_token_pair(body: &str) -> (r: Option<LoginResponse>)
    ensures
        match r {
            Some(p) => token_pair_of(body@) == Some((p.access_token@, p.refresh_token@)),
            None => token_pair_of(body@) is None,
        },
{
    let v: serde_json::Value = serde_json::from_str(body).ok()?;
    let access = v.get("accessToken").and_then(serde_json::Value::as_str)?;
    let refresh = v.get("refreshToken").and_then(serde_json::Value::as_str)?;
    Some(LoginResponse {
        access_token: access.to_string(),
        refresh_token: refresh.to_string(),
    })
}

/// What the API-error parser yields for a response body: code, description
/// and cause, or `None` where the body is not such an object.
pub uninterp spec fn api_error_of(body: Seq<char>) -> Option<(u16, Seq<char>, Seq<char>)>;

/// Relies on serde_json's `from_str` and the `Value` accessors `get`,
/// `as_u64` and `as_str`: parsing is a pure function of the body text. The
/// body must be a JSON object with a numeric `code` fitting u16 and string
/// `description` and `cause` members.
#[verifier::external_body]
fn parse_api_error(body: &str) -> (r: Option<ApiErrorResponse>)
    ensures
        match r {
            Some(e) => api_error_of(body@) == Some((e.code, e.description@, e.cause@)),
            None => api_error_of(body@) is None,
        },
{
    let v: serde_json::Value = serde_json::from_str(body).ok()?;
    let code = v.get("code").and_then(serde_json::Value::as_u64)?;
    let code: u16 = u16::try_from(code).ok()?;
    let description = v.get("description").and_then(serde_json::Value::as_str)?;
    let cause = v.get("cause").and_then(serde_json::Value::as_str)?;
    Some(ApiErrorResponse {
        code,
        description: description.to_string(),
        cause: cause.to_string(),
    })
}

/// The access token's decoded claims carry an admin flag of exactly `true`.
pub open spec fn admin_token(token_text: Seq<char>) -> bool {
    match token::decoded_claims(encode_utf8(token_text)) {
        Some(c) => c.admin == Some(true),
        None => false,
    }
}

/// Classify the outcome of a login call. A successful response must carry a
/// token pair whose access token decodes to claims with `admin == true`; a
/// non-admin account is rejected outright. A failed response surfaces the
/// structured error's `cause` where the body parses as one, and the raw body
/// text otherwise.
pub fn classify_login_response(outcome: HttpOutcome) -> (r: Result<LoginResponse, AuthError>)
    ensures
        match outcome {
            HttpOutcome::Transport(msg) => (r matches Err(AuthError::Network(m)) && m@ == msg@),
            HttpOutcome::Response { status, body } => {
                if is_success_status(status) {
                    match token_pair_of(body@) {
                        Some((a, rt)) => {
                            if token::decoded_claims(encode_utf8(a)) is None {
                                r matches Err(AuthError::Parse(_))
                            } else if admin_token(a) {
                                r matches Ok(p) && p.access_token@ == a && p.refresh_token@ == rt
                            } else {
                                r matches Err(AuthError::NotAdmin)
                            }
                        },
                        None => (r matches Err(AuthError::Parse(m)) && m@
                            == "Failed to parse login response"@),
                    }
                } else {
                    match api_error_of(body@) {
                        Some((_, _, cause)) => (r matches Err(AuthError::Http { status: s, message })
                            && s == status && message@ == cause),
                        None => (r matches Err(AuthError::Http { status: s, message }) && s == status
                            && message@ == body@),
                    }
                }
            },
        },
{
    match outcome {
        HttpOutcome::Transport(msg) => Err(AuthError::Network(msg)),
        HttpOutcome::Response { status, body } => {
            if status_is_success(status) {
                let pair = match parse_token_pair(body.as_str()) {
                    Some(p) => p,
                    None => {
                        return Err(AuthError::Parse(String::from_str(
                            "Failed to parse login response",
                        )));
                    },
                };
                match token::parse_claims(pair.access_token.as_str()) {
                    Err(e) => Err(AuthError::Parse(e)),
                    Ok(claims) => {
                        let is_admin = match claims.admin {
                            Some(flag) => flag,
                            None => false,
                        };
                        if is_admin {
                            Ok(pair)
                        } else {
                            Err(AuthError::NotAdmin)
                        }
                    },
                }
            } else {
                match parse_api_error(body.as_str()) {
                    Some(api) => Err(AuthError::Http { status, message: api.cause }),
                    None => Err(AuthError::Http { status, message: body }),
                }
            }
        },
    }
}

} // verus!
