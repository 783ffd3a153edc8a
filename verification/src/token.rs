//! The API access token: when one is requested, when a cached one is still good, and how
//! a token response is accepted.
use vstd::prelude::*;
use crate::config::QQBotConfig;
use crate::text::{
    concat2, concat3, decimal, decimal_string, int_parse_error_message, int_parse_error_text,
    parse_u64, parsed_u64, signed_decimal, signed_decimal_string,
};

verus! {

broadcast use vstd::string::group_string_axioms;

/// An access token kept between requests, with the time (in ms) it expires.
pub struct CachedToken {
    pub access_token: String,
    pub expires_at_ms: u64,
}

/// The request for a new access token: the app credentials posted to the token URL.
pub struct TokenRequest {
    pub url: String,
    pub app_id: String,
    pub client_secret: String,
}

/// Both API credentials are configured.
pub open spec fn has_credentials(config: QQBotConfig) -> bool {
    config.app_id@.len() > 0 && config.app_secret@.len() > 0
}

/// `res` is the token request for a configuration: the app credentials posted to its token
/// URL, or, when a credential is missing, the error that refuses any API call.
pub open spec fn is_token_request(config: QQBotConfig, res: Result<TokenRequest, String>) -> bool {
    match res {
        Ok(r) => has_credentials(config) && r.url@ == config.token_url@ && r.app_id@
            == config.app_id@ && r.client_secret@ == config.app_secret@,
        Err(m) => !has_credentials(config) && m@ == "qqbot app_id/app_secret are required"@,
    }
}

/// A token is only requested with both credentials configured.
pub fn token_request(config: &QQBotConfig) -> (res: Result<TokenRequest, String>)
    ensures
        is_token_request(*config, res),
{
    if config.app_id.as_str().is_empty() || config.app_secret.as_str().is_empty() {
        return Err(String::from_str("qqbot app_id/app_secret are required"));
    }
    Ok(
        TokenRequest {
            url: config.token_url.clone(),
            app_id: config.app_id.clone(),
            client_secret: config.app_secret.clone(),
        },
    )
}

/// A cached token is used while more than a minute of it is left.
pub open spec fn token_fresh(expires_at_ms: u64, now_ms: u64) -> bool {
    now_ms + 60_000 < expires_at_ms
}

pub fn cached_token_usable(cache: &CachedToken, now_ms: u64) -> (ok: bool)
    ensures
        ok == token_fresh(cache.expires_at_ms, now_ms),
{
    now_ms < cache.expires_at_ms && cache.expires_at_ms - now_ms > 60_000
}

/// The token endpoint's answer.
pub struct TokenResponse {
    pub code: i64,
    pub message: Option<String>,
    pub access_token: String,
    pub expires_in: u64,
}

/// A token is kept for at least two minutes, whatever lifetime the endpoint gives.
pub open spec fn kept_lifetime_s(expires_in: u64) -> int {
    if expires_in < 120 {
        120
    } else {
        expires_in as int
    }
}

/// When a token taken at `now_ms` with the given lifetime expires.
pub open spec fn token_expiry_ms(now_ms: u64, expires_in: u64) -> int {
    now_ms + kept_lifetime_s(expires_in) * 1000
}

/// The error reported for a token response that is refused.
pub open spec fn token_refusal_message(status: u16, r: TokenResponse) -> Seq<char> {
    "qqbot token request returned status "@ + decimal(status as nat) + " code "@
        + signed_decimal(r.code as int) + " message "@ + match r.message {
        Some(m) => m@,
        None => Seq::empty(),
    }
}

/// `res` accepts or refuses a token response received at `now_ms` with `status`.
pub open spec fn is_token_acceptance(status: u16, response: TokenResponse, now_ms: u64, res: Result<CachedToken, String>) -> bool {
    &&& res is Ok <==> (200 <= status < 300 && response.access_token@.len() > 0)
    &&& res matches Ok(c) ==> c.access_token == response.access_token && c.expires_at_ms
        == token_expiry_ms(now_ms, response.expires_in)
    &&& res matches Err(m) ==> m@ == token_refusal_message(status, response)
}

/// Accepts a token response: refused unless the status is 2xx and a token came back;
/// an accepted token is cached until its (at least two-minute) lifetime ends.
pub fn accept_token_response(status: u16, response: TokenResponse, now_ms: u64) -> (res: Result<
    CachedToken,
    String,
>)
    requires
        (200 <= status < 300 && response.access_token@.len() > 0) ==> token_expiry_ms(
            now_ms,
            response.expires_in,
        ) <= u64::MAX,
    ensures
        is_token_acceptance(status, response, now_ms, res),
{
    if status < 200 || status >= 300 || response.access_token.as_str().is_empty() {
        let a = decimal_string(status as u64);
        let b = signed_decimal_string(response.code);
        let msg_text = match &response.message {
            Some(m) => m.clone(),
            None => String::new(),
        };
        let part1 = concat3("qqbot token request returned status ", a.as_str(), " code ");
        let part2 = concat3(part1.as_str(), b.as_str(), " message ");
        let all = concat2(part2.as_str(), msg_text.as_str());
        return Err(all);
    }
    let expires_in = if response.expires_in < 120 {
        120
    } else {
        response.expires_in
    };
    let expires_at_ms = now_ms + expires_in * 1000;
    Ok(CachedToken { access_token: response.access_token, expires_at_ms })
}

/// A token that was just accepted is fresh enough to be taken from the cache at once.
pub proof fn lemma_fresh_token_usable(now_ms: u64, expires_in: u64, expires_at_ms: u64)
    requires
        expires_at_ms == token_expiry_ms(now_ms, expires_in),
    ensures
        token_fresh(expires_at_ms, now_ms),
{
}

/// A token's lifetime field, as the JSON value the endpoint put there.
pub enum LifetimeValue {
    /// A number; its value when it is a non-negative integer that fits in 64 bits.
    Number(Option<u64>),
    Text(String),
    Null,
    /// Any other JSON value, as its JSON text.
    Other(String),
}

/// What a lifetime field reads as: a non-negative integer, a decimal text, or null (0).
pub open spec fn lifetime_reading(v: LifetimeValue) -> Result<int, Seq<char>> {
    match v {
        LifetimeValue::Number(Some(n)) => Ok(n as int),
        LifetimeValue::Number(None) => Err("expires_in must be a positive integer"@),
        LifetimeValue::Text(t) => match parsed_u64(t@) {
            Ok(n) => Ok(n),
            Err(e) => Err(int_parse_error_message(e)),
        },
        LifetimeValue::Null => Ok(0),
        LifetimeValue::Other(json) => Err("unsupported expires_in value: "@ + json@),
    }
}

/// Reads a token's lifetime, which the endpoint may send as a number or as a text.
pub fn deserialize_u64ish(value: &LifetimeValue) -> (res: Result<u64, String>)
    ensures
        match lifetime_reading(*value) {
            Ok(n) => res matches Ok(v) && v == n,
            Err(m) => res matches Err(e) && e@ == m,
        },
{
    match value {
        LifetimeValue::Number(Some(n)) => Ok(*n),
        LifetimeValue::Number(None) => Err(String::from_str("expires_in must be a positive integer")),
        LifetimeValue::Text(t) => match parse_u64(t.as_str()) {
            Ok(n) => Ok(n),
            Err(e) => Err(int_parse_error_text(e)),
        },
        LifetimeValue::Null => Ok(0),
        LifetimeValue::Other(json) => Err(concat2("unsupported expires_in value: ", json.as_str())),
    }
}

/// A token response is accepted exactly when its status is 2xx and it holds a token; the
/// token is then kept until `now + max(expires_in, 120) s`; a refusal reports the status,
/// the code and the message.
pub proof fn lemma_token_acceptance(status: u16, response: TokenResponse, now_ms: u64, res: Result<CachedToken, String>)
    requires
        is_token_acceptance(status, response, now_ms, res),
    ensures
        res is Ok <==> (200 <= status <= 299 && response.access_token@.len() > 0),
        res matches Ok(c) ==> c.access_token == response.access_token,
        res matches Ok(c) ==> c.expires_at_ms == now_ms + 1000 * (if response.expires_in >= 120 {
            response.expires_in as int
        } else {
            120
        }),
        res matches Err(m) ==> m@ == "qqbot token request returned status "@ + decimal(status as nat)
            + " code "@ + signed_decimal(response.code as int) + " message "@ + match response.message {
            Some(t) => t@,
            None => Seq::<char>::empty(),
        },
{
}

/// A cached token is used exactly while more than 60 seconds of it remain.
pub proof fn lemma_cache_freshness(expires_at_ms: u64, now_ms: u64)
    ensures
        token_fresh(expires_at_ms, now_ms) <==> expires_at_ms - now_ms > 60_000,
{
}

/// A token lifetime reads as the number itself, the decimal value of a text, or 0 for null;
/// a negative or fractional number and any other JSON value are refused.
pub proof fn lemma_lifetime_reading(v: LifetimeValue)
    ensures
        v matches LifetimeValue::Number(Some(n)) ==> lifetime_reading(v) == Ok::<int, Seq<char>>(n as int),
        v matches LifetimeValue::Number(None) ==> lifetime_reading(v) == Err::<int, Seq<char>>(
            "expires_in must be a positive integer"@,
        ),
        v matches LifetimeValue::Null ==> lifetime_reading(v) == Ok::<int, Seq<char>>(0),
        v matches LifetimeValue::Other(j) ==> lifetime_reading(v) == Err::<int, Seq<char>>(
            "unsupported expires_in value: "@ + j@,
        ),
        v matches LifetimeValue::Text(t) ==> (lifetime_reading(v) is Ok <==> parsed_u64(t@) is Ok),
{
}

} // verus!
