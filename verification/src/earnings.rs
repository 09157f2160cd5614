//! Earnings operations: the endpoints they call and the classification of
//! their responses, with the rule that a 401 is always a session-level
//! failure and never an ordinary API error.

use vstd::prelude::*;
use vstd::string::*;
pub use crate::amount::usd_to_amount;
use crate::auth::Environment;
use crate::http::{HttpOutcome, is_success_status, status_is_success};
use crate::session::SessionError;
use crate::text::{dec_str, u64_to_string};

verus! {

/// Request to add royalties to a song: the amount in micro-USD (six implied
/// decimal places).
#[derive(Debug)]
pub struct AddSongRoyaltyRequest {
    pub usd_amount: i64,
}

/// Earning record from the API. The amount is in micro-units; timestamps are
/// the API's own strings.
#[derive(Debug, Clone)]
pub struct Earning {
    pub id: Option<String>,
    pub song_id: Option<String>,
    pub stake_address: String,
    pub amount: i64,
    pub memo: Option<String>,
    pub claimed: bool,
    pub claimed_at: Option<String>,
    pub created_at: String,
}

/// Error from earnings API operations.
#[derive(Debug)]
pub enum EarningsError {
    /// The session is gone; the user must log in again.
    SessionExpired(String),
    /// The API rejected the request.
    Api { status: u16, message: String },
    /// Network or other error.
    Network(String),
}

impl EarningsError {
    /// The error rendered as the user sees it.
    pub open spec fn message_spec(&self) -> Seq<char> {
        match self {
            EarningsError::SessionExpired(msg) => "Session expired: "@ + msg@,
            EarningsError::Api { status, message } => "API error "@ + dec_str(*status as nat)
                + ": "@ + message@,
            EarningsError::Network(msg) => "Network error: "@ + msg@,
        }
    }

    /// Render the error as the user sees it.
    pub fn message(&self) -> (r: String)
        ensures
            r@ == self.message_spec(),
    {
        match self {
            EarningsError::SessionExpired(msg) => {
                let mut m = String::from_str("Session expired: ");
                m.append(msg.as_str());
                m
            },
            EarningsError::Api { status, message } => {
                let mut m = String::from_str("API error ");
                let code = u64_to_string(*status as u64);
                m.append(code.as_str());
                m.append(": ");
                m.append(message.as_str());
                m
            },
            EarningsError::Network(msg) => {
                let mut m = String::from_str("Network error: ");
                m.append(msg.as_str());
                m
            },
        }
    }
}

impl From<SessionError> for EarningsError {
    /// A failed token request maps onto the earnings error of the same kind.
    fn from(err: SessionError) -> (r: Self) {
        match err {
            SessionError::Expired(msg) => EarningsError::SessionExpired(msg),
            SessionError::Network(msg) => EarningsError::Network(msg),
        }
    }
}

impl vstd::std_specs::convert::FromSpecImpl<SessionError> for EarningsError {
    open spec fn obeys_from_spec() -> bool {
        true
    }

    open spec fn from_spec(err: SessionError) -> Self {
        match err {
            SessionError::Expired(msg) => EarningsError::SessionExpired(msg),
            SessionError::Network(msg) => EarningsError::Network(msg),
        }
    }
}

/// The collection endpoint for listing and deleting earnings.
pub fn earnings_admin_url(environment: Environment) -> (r: String)
    ensures
        r@ == environment.base_url_spec() + "/v1/earnings/admin"@,
{
    let mut s = String::from_str(environment.base_url());
    s.append("/v1/earnings/admin");
    s
}

/// The per-identifier endpoint for adding earnings to a song.
pub fn add_earnings_url(environment: Environment, song_id_or_isrc: &str) -> (r: String)
    ensures
        r@ == environment.base_url_spec() + "/v1/earnings/admin/"@ + song_id_or_isrc@,
{
    let mut s = String::from_str(environment.base_url());
    s.append("/v1/earnings/admin/");
    s.append(song_id_or_isrc);
    s
}

/// Classify the status of an earnings API response, before any body parsing.
/// A transport failure is a network error. A 401 always means the session is
/// gone — never an ordinary API error — even when the token had just passed
/// the local expiry check, since it may have been revoked server-side. Any
/// other non-success status is an API error carrying the body text. A
/// success hands the body back to the caller.
pub fn classify_earnings_status(outcome: HttpOutcome) -> (r: Result<String, EarningsError>)
    ensures
        match outcome {
            HttpOutcome::Transport(msg) => (r matches Err(EarningsError::Network(m)) && m@
                == msg@),
            HttpOutcome::Response { status, body } => {
                if status == 401 {
                    r matches Err(EarningsError::SessionExpired(m)) && m@
                        == "Unauthorized - please login again"@
                } else if is_success_status(status) {
                    r matches Ok(b) && b@ == body@
                } else {
                    r matches Err(EarningsError::Api { status: s, message }) && s == status
                        && message@ == body@
                }
            },
        },
{
    match outcome {
        HttpOutcome::Transport(msg) => Err(EarningsError::Network(msg)),
        HttpOutcome::Response { status, body } => {
            if status == 401 {
                Err(EarningsError::SessionExpired(String::from_str(
                    "Unauthorized - please login again",
                )))
            } else if status_is_success(status) {
                Ok(body)
            } else {
                Err(EarningsError::Api { status, message: body })
            }
        },
    }
}

/// Wrap the parse of a successful list response's body. The transport parses
/// the body the status classification handed back; a parsed list passes
/// through unchanged, and a parse failure is reported as an API error on the
/// success status, carrying the parser's message.
pub fn finish_list(parsed: Result<Vec<Earning>, String>) -> (r: Result<
    Vec<Earning>,
    EarningsError,
>)
    ensures
        match parsed {
            Ok(v) => r matches Ok(w) && w == v,
            Err(m) => (r matches Err(EarningsError::Api { status, message }) && status == 200
                && message@ == "Failed to parse response: "@ + m@),
        },
{
    match parsed {
        Ok(v) => Ok(v),
        Err(m) => {
            let mut message = String::from_str("Failed to parse response: ");
            message.append(m.as_str());
            Err(EarningsError::Api { status: 200, message })
        },
    }
}

} // verus!
