//! Bearer-token claim decoding without signature verification, and the
//! expiry arithmetic built on it.
//!
//! A token is three dot-separated segments; only the middle (payload)
//! segment is read: it is base64url-decoded and parsed as a JSON object
//! whose `admin` and `exp` members become the claims.

use vstd::prelude::*;
use vstd::string::*;
use base64::Engine;

verus! {

/// Claims carried in a bearer token's payload segment. Members the core
/// never reads (subject, token type) are not retained.
#[derive(Debug, Clone, Copy, PartialEq, Eq)]
pub struct JwtClaims {
    /// Whether the account has admin privileges.
    pub admin: Option<bool>,
    /// Expiration timestamp (seconds since epoch).
    pub exp: Option<i64>,
}

/// What base64url decoding without padding yields for the given input;
/// `None` where the input is not valid base64url.
pub uninterp spec fn base64url_decoded(s: Seq<u8>) -> Option<Seq<u8>>;

/// Relies on base64's `Engine::decode` with the `URL_SAFE_NO_PAD` engine:
/// the result is a pure function of the input bytes; on failure the decode
/// error's rendering is returned.
#[verifier::external_body]
fn base64url_decode(s: &Vec<u8>) -> (r: Result<Vec<u8>, String>)
    ensures
        match r {
            Ok(v) => base64url_decoded(s@) == Some(v@),
            Err(_) => base64url_decoded(s@) is None,
        },
{
    base64::engine::general_purpose::URL_SAFE_NO_PAD.decode(s.as_slice()).map_err(|e| {
        e.to_string()
    })
}

/// What the claims parser yields for the given payload bytes; `None` where
/// the bytes are not a JSON object.
pub uninterp spec fn claims_of(payload: Seq<u8>) -> Option<JwtClaims>;

/// Relies on serde_json's `from_slice` and the `Value` accessors
/// `is_object`, `get`, `as_bool` and `as_i64`: parsing is a pure function of
/// the payload bytes. The payload must be a JSON object; its `admin` and
/// `exp` members, where present with the expected type, become the claims.
#[verifier::external_body]
fn claims_from_json(payload: &Vec<u8>) -> (r: Result<JwtClaims, String>)
    ensures
        match r {
            Ok(c) => claims_of(payload@) == Some(c),
            Err(_) => claims_of(payload@) is None,
        },
{
    let v: serde_json::Value = match serde_json::from_slice(payload.as_slice()) {
        Ok(v) => v,
        Err(e) => return Err(e.to_string()),
    };
    if !v.is_object() {
        return Err("expected a JSON object".to_string());
    }
    Ok(JwtClaims {
        admin: v.get("admin").and_then(serde_json::Value::as_bool),
        exp: v.get("exp").and_then(serde_json::Value::as_i64),
    })
}

/// Index of the first `.` at or after `i`, or `s.len()` if there is none.
pub open spec fn find_dot_from(s: Seq<u8>, i: int) -> int
    decreases s.len() - i,
{
    if i < 0 || i >= s.len() {
        s.len() as int
    } else if s[i] == 46 {
        i
    } else {
        find_dot_from(s, i + 1)
    }
}

/// Index of the token's first dot, or its length.
pub open spec fn first_dot(s: Seq<u8>) -> int {
    find_dot_from(s, 0)
}

/// Index of the token's second dot, or its length.
pub open spec fn second_dot(s: Seq<u8>) -> int {
    find_dot_from(s, first_dot(s) + 1)
}

/// The token consists of exactly three dot-separated segments.
pub open spec fn has_three_segments(s: Seq<u8>) -> bool {
    &&& first_dot(s) < s.len()
    &&& second_dot(s) < s.len()
    &&& find_dot_from(s, second_dot(s) + 1) == s.len()
}

/// The middle (payload) segment of a three-segment token.
pub open spec fn payload_segment(s: Seq<u8>) -> Seq<u8>
    recommends
        has_three_segments(s),
{
    s.subrange(first_dot(s) + 1, second_dot(s))
}

/// Decoded claims of a whole token: split into three dot-separated segments,
/// base64url-decode the middle one, and read it as a JSON claims object;
/// `None` where any step fails.
pub open spec fn decoded_claims(token: Seq<u8>) -> Option<JwtClaims> {
    if !has_three_segments(token) {
        None
    } else {
        match base64url_decoded(payload_segment(token)) {
            None => None,
            Some(p) => claims_of(p),
        }
    }
}

proof fn lemma_find_dot_from(s: Seq<u8>, i: int, j: int)
    requires
        0 <= i <= j <= s.len(),
        forall|k: int| i <= k < j ==> s[k] != 46,
        j < s.len() ==> s[j] == 46,
    ensures
        find_dot_from(s, i) == j,
    decreases j - i,
{
    if i < j {
        lemma_find_dot_from(s, i + 1, j);
    }
}

fn find_dot_at(t: &Vec<u8>, from: usize) -> (r: usize)
    requires
        from <= t@.len(),
    ensures
        r as int == find_dot_from(t@, from as int),
        from <= r <= t@.len(),
        r < t@.len() ==> t@[r as int] == 46,
{
    let n = t.len();
    let mut i: usize = from;
    while i < n && t[i] != 46
        invariant
            from <= i <= n,
            n == t@.len(),
            forall|k: int| from <= k < i ==> t@[k] != 46,
        decreases n - i,
    {
        i += 1;
    }
    proof {
        lemma_find_dot_from(t@, from as int, i as int);
    }
    i
}

/// Parse claims from a bearer token without verifying any signature. The
/// token must consist of exactly three dot-separated segments; the middle
/// segment is base64url-decoded and read as a JSON claims object.
pub fn parse_claims(token: &str) -> (r: Result<JwtClaims, String>)
    ensures
        r matches Ok(c) ==> decoded_claims(token.spec_bytes()) == Some(c),
        r is Err <==> decoded_claims(token.spec_bytes()) is None,
        !has_three_segments(token.spec_bytes()) ==> (r matches Err(m) && m@
            == "Invalid JWT format: expected 3 parts"@),
{
    let bytes = token.as_bytes_vec();
    let n = bytes.len();
    let d1 = find_dot_at(&bytes, 0);
    if d1 == n {
        return Err(String::from_str("Invalid JWT format: expected 3 parts"));
    }
    let d2 = find_dot_at(&bytes, d1 + 1);
    if d2 == n {
        return Err(String::from_str("Invalid JWT format: expected 3 parts"));
    }
    let d3 = find_dot_at(&bytes, d2 + 1);
    if d3 < n {
        return Err(String::from_str("Invalid JWT format: expected 3 parts"));
    }

    let mut payload: Vec<u8> = Vec::new();
    let mut i: usize = d1 + 1;
    while i < d2
        invariant
            d1 + 1 <= i <= d2 <= n,
            n == bytes@.len(),
            payload@ =~= bytes@.subrange(d1 as int + 1, i as int),
        decreases d2 - i,
    {
        payload.push(bytes[i]);
        i += 1;
    }
    proof {
        assert(payload@ =~= payload_segment(bytes@));
    }

    match base64url_decode(&payload) {
        Err(e) => {
            let mut m = String::from_str("Failed to decode JWT payload: ");
            m.append(e.as_str());
            Err(m)
        },
        Ok(decoded) => {
            match claims_from_json(&decoded) {
                Err(e) => {
                    let mut m = String::from_str("Failed to parse JWT claims: ");
                    m.append(e.as_str());
                    Err(m)
                },
                Ok(c) => Ok(c),
            }
        },
    }
}

/// Saturating difference of two epoch timestamps.
pub open spec fn sat_sub_i64(a: int, b: int) -> i64 {
    if a - b > i64::MAX {
        i64::MAX
    } else if a - b < i64::MIN {
        i64::MIN
    } else {
        (a - b) as i64
    }
}

/// Seconds from `now` until the token expires: `None` when the token cannot
/// be decoded or carries no expiry claim; negative when already expired. The
/// difference saturates at the i64 bounds.
pub open spec fn expires_in_spec(token: Seq<u8>, now: i64) -> Option<i64> {
    match decoded_claims(token) {
        None => None,
        Some(c) => match c.exp {
            None => None,
            Some(exp) => Some(sat_sub_i64(exp as int, now as int)),
        },
    }
}

/// Get seconds until the token expires (negative if already expired), or
/// `None` when the token cannot be decoded or has no expiry claim.
pub fn expires_in_secs(token: &str, now: i64) -> (r: Option<i64>)
    ensures
        r == expires_in_spec(token.spec_bytes(), now),
{
    let claims = match parse_claims(token) {
        Ok(c) => c,
        Err(_) => {
            return None;
        },
    };
    let exp = match claims.exp {
        Some(exp) => exp,
        None => {
            return None;
        },
    };
    match exp.checked_sub(now) {
        Some(d) => Some(d),
        None => if exp >= 0 {
            Some(i64::MAX)
        } else {
            Some(i64::MIN)
        },
    }
}

/// The token should be treated as expiring within the buffer: its remaining
/// lifetime is at most `buffer_secs`, or it cannot be determined at all.
pub open spec fn expires_soon_spec(token: Seq<u8>, buffer_secs: i64, now: i64) -> bool {
    match expires_in_spec(token, now) {
        None => true,
        Some(s) => s <= buffer_secs,
    }
}

/// Check whether the token expires within the given buffer (in seconds). A
/// token whose expiry cannot be determined counts as expiring.
pub fn expires_soon(token: &str, buffer_secs: i64, now: i64) -> (r: bool)
    ensures
        r == expires_soon_spec(token.spec_bytes(), buffer_secs, now),
{
    match expires_in_secs(token, now) {
        None => true,
        Some(s) => s <= buffer_secs,
    }
}

/// Check whether the token is expired at `now`; a token whose expiry cannot
/// be determined counts as expired.
pub fn is_expired(token: &str, now: i64) -> (r: bool)
    ensures
        r == expires_soon_spec(token.spec_bytes(), 0, now),
{
    match expires_in_secs(token, now) {
        None => true,
        Some(s) => s <= 0,
    }
}

} // verus!
