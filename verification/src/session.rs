//! Session state: the current token pair, the decision of when a refresh is
//! needed, and the application of a refresh call's outcome.
//!
//! A token request is answered in two steps so that the transport stays
//! outside the library: `token_request` decides whether the stored access
//! token can be handed out or one refresh call must be made first, and
//! `apply_refresh` folds that call's outcome back into the session. The
//! holder serializes access to the session value, so each
//! read-check-refresh-write sequence is atomic.

use vstd::prelude::*;
use vstd::string::*;
use vstd::utf8::encode_utf8;
use crate::auth::{Environment, LoginResponse, token_pair_of, parse_token_pair};
use crate::http::{HttpOutcome, is_success_status, status_is_success};
use crate::token;

verus! {

/// Lead time before expiry at which the access token is proactively
/// refreshed, in seconds.
pub const REFRESH_BUFFER_SECS: i64 = 60;

/// Error returned when session operations fail.
#[derive(Debug, Clone)]
pub enum SessionError {
    /// Token refresh failed; the session is dead and the user must log in
    /// again.
    Expired(String),
    /// Network or other error.
    Network(String),
}

impl SessionError {
    /// The error rendered as the user sees it.
    pub open spec fn message_spec(&self) -> Seq<char> {
        match self {
            SessionError::Expired(msg) => "Session expired: "@ + msg@,
            SessionError::Network(msg) => "Network error: "@ + msg@,
        }
    }

    /// Render the error as the user sees it.
    pub fn message(&self) -> (r: String)
        ensures
            r@ == self.message_spec(),
    {
        match self {
            SessionError::Expired(msg) => {
                let mut m = String::from_str("Session expired: ");
                m.append(msg.as_str());
                m
            },
            SessionError::Network(msg) => {
                let mut m = String::from_str("Network error: ");
                m.append(msg.as_str());
                m
            },
        }
    }
}

/// Event surfaced to the application shell when the session expires and the
/// user must log in again.
pub struct SessionExpiredEvent {
    pub message: String,
}

/// What a token request decides.
pub enum TokenDecision {
    /// The stored access token is still comfortably valid: use it as is.
    UseStored { access_token: String },
    /// One refresh call is needed first: perform GET `url` with
    /// `refresh_token` as the bearer credential and hand the outcome to
    /// `apply_refresh`.
    Refresh { url: String, refresh_token: String },
}

/// Session state: the current token pair and the environment fixed at login.
pub struct Session {
    access_token: String,
    refresh_token: String,
    environment: Environment,
}

impl Session {
    /// The stored access token's text.
    pub closed spec fn access_token_spec(&self) -> Seq<char> {
        self.access_token@
    }

    /// The stored refresh token's text.
    pub closed spec fn refresh_token_spec(&self) -> Seq<char> {
        self.refresh_token@
    }

    /// The environment fixed at construction.
    pub closed spec fn environment_spec(&self) -> Environment {
        self.environment
    }

    /// The stored access token expires within the refresh buffer at `now`,
    /// or its expiry cannot be determined.
    pub open spec fn needs_refresh(&self, now: i64) -> bool {
        token::expires_soon_spec(encode_utf8(self.access_token_spec()), REFRESH_BUFFER_SECS, now)
    }

    /// Create a new session from a login response.
    pub fn new(login_response: LoginResponse, environment: Environment) -> (s: Self)
        ensures
            s.access_token_spec() == login_response.access_token@,
            s.refresh_token_spec() == login_response.refresh_token@,
            s.environment_spec() == environment,
    {
        Session {
            access_token: login_response.access_token,
            refresh_token: login_response.refresh_token,
            environment,
        }
    }

    /// Get the environment for this session.
    pub fn environment(&self) -> (r: Environment)
        ensures
            r == self.environment_spec(),
    {
        self.environment
    }

    /// Get the current access token without any refresh check.
    pub fn current_token(&self) -> (r: String)
        ensures
            r@ == self.access_token_spec(),
    {
        self.access_token.clone()
    }

    /// Decide how to serve a token request at time `now`. When the stored
    /// access token's remaining lifetime exceeds the refresh buffer it is
    /// handed out unchanged and no call is demanded; otherwise — including
    /// when the expiry cannot be determined — exactly one refresh call
    /// against this environment's refresh endpoint is demanded, carrying the
    /// stored refresh token.
    pub fn token_request(&self, now: i64) -> (r: TokenDecision)
        ensures
            !self.needs_refresh(now) ==> (r matches TokenDecision::UseStored { access_token }
                && access_token@ == self.access_token_spec()),
            self.needs_refresh(now) ==> (r matches TokenDecision::Refresh { url, refresh_token }
                && url@ == self.environment_spec().base_url_spec() + "/v1/auth/refresh"@
                && refresh_token@ == self.refresh_token_spec()),
    {
        if !token::expires_soon(self.access_token.as_str(), REFRESH_BUFFER_SECS, now) {
            TokenDecision::UseStored { access_token: self.access_token.clone() }
        } else {
            TokenDecision::Refresh {
                url: self.environment.refresh_url(),
                refresh_token: self.refresh_token.clone(),
            }
        }
    }

    /// Fold the outcome of the refresh call demanded by `token_request` back
    /// into the session. Only a successful response whose body parses as a
    /// token pair replaces the stored pair (and returns the new access
    /// token); on every other outcome the stored pair is left exactly as it
    /// was: a transport failure is reported as a network error, and a
    /// non-success status or an unparsable body ends the session.
    pub fn apply_refresh(&mut self, outcome: HttpOutcome) -> (r: Result<String, SessionError>)
        ensures
            final(self).environment_spec() == old(self).environment_spec(),
            match outcome {
                HttpOutcome::Transport(msg) => *final(self) == *old(self) && (r matches Err(
                    SessionError::Network(m),
                ) && m@ == msg@),
                HttpOutcome::Response { status, body } => {
                    if is_success_status(status) {
                        match token_pair_of(body@) {
                            Some((a, rt)) => final(self).access_token_spec() == a
                                && final(self).refresh_token_spec() == rt
                                && (r matches Ok(t) && t@ == a),
                            None => *final(self) == *old(self) && (r matches Err(
                                SessionError::Expired(m),
                            ) && m@ == "Refresh failed: invalid token response"@),
                        }
                    } else {
                        *final(self) == *old(self) && (r matches Err(SessionError::Expired(m)) && m@
                            == "Refresh failed: "@ + body@)
                    }
                },
            },
    {
        match outcome {
            HttpOutcome::Transport(msg) => Err(SessionError::Network(msg)),
            HttpOutcome::Response { status, body } => {
                if status_is_success(status) {
                    match parse_token_pair(body.as_str()) {
                        Some(pair) => {
                            let access = pair.access_token.clone();
                            self.access_token = pair.access_token;
                            self.refresh_token = pair.refresh_token;
                            Ok(access)
                        },
                        None => Err(SessionError::Expired(String::from_str(
                            "Refresh failed: invalid token response",
                        ))),
                    }
                } else {
                    let mut m = String::from_str("Refresh failed: ");
                    m.append(body.as_str());
                    Err(SessionError::Expired(m))
                }
            },
        }
    }
}

} // verus!
