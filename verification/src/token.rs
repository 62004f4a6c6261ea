//! The token lifecycle manager: one cached bearer token with its expiry.
//!
//! The manager decides from the clock whether the cached token is still
//! trustworthy or a refresh is due, and applies the outcome of a refresh to
//! its one token slot. The network exchange itself happens outside the
//! library; a failed exchange applies nothing, so the previously cached
//! token stays untouched.

use vstd::prelude::*;

use crate::errors::ERROR_CODE_INVALID_PARAMS;
use crate::errors::McpError;
use crate::headers::HeaderList;
use crate::headers::spec_get;
use crate::text::contains_sub;
use crate::text::is_blank;
use crate::text::spec_blank;
use crate::text::str_contains;

verus! {

/// Seconds before expiry at which the cached token stops being trusted.
pub const TOKEN_SAFETY_MARGIN_SECS: u64 = 300;

/// Lifetime assumed when the refresh endpoint does not state one.
pub const DEFAULT_TOKEN_LIFETIME_SECS: u64 = 3600;

/// Interval of the background refresh loop, shorter than the shortest
/// expected token lifetime.
pub const REFRESH_INTERVAL_SECS: u64 = 3000;

/// The safety margin used by the proactive-refresh decision.
pub fn token_safety_margin() -> (r: u64)
    ensures
        r == TOKEN_SAFETY_MARGIN_SECS,
{
    TOKEN_SAFETY_MARGIN_SECS
}

/// The interval the background refresh loop sleeps between ticks.
pub fn refresh_interval_secs() -> (r: u64)
    ensures
        r == REFRESH_INTERVAL_SECS,
{
    REFRESH_INTERVAL_SECS
}

/// The token slot and the refresh credentials it was built with. Times are
/// seconds of a monotonic clock supplied by the caller.
#[derive(Clone, Debug)]
pub struct TokenManager {
    pub refresh_token: String,
    pub refresh_url: String,
    pub access_token: Option<String>,
    pub expires_at: Option<u64>,
}

/// What a call for a valid token decides.
pub enum TokenCheck {
    /// The cached token is valid well past the safety margin: use it.
    UseCached(String),
    /// There is no cached token, or it is within the margin: refresh now.
    NeedsRefresh,
}

/// A refresh is due when no token or no expiry is cached, or when the
/// expiry is no more than the safety margin away.
pub open spec fn spec_needs_refresh(m: TokenManager, now: u64) -> bool {
    match (m.access_token, m.expires_at) {
        (Some(_), Some(e)) => e <= now + TOKEN_SAFETY_MARGIN_SECS,
        _ => true,
    }
}

/// The manager after a successful refresh: the new token is cached with an
/// expiry of `now` plus the stated lifetime, or the default lifetime when
/// the endpoint stated none. The credentials stay as they were.
pub open spec fn spec_after_refresh(
    m: TokenManager,
    token: String,
    expires_in: Option<u64>,
    now: u64,
) -> TokenManager {
    TokenManager {
        access_token: Some(token),
        expires_at: Some((now + spec_effective_lifetime(expires_in)) as u64),
        ..m
    }
}

/// The lifetime a refresh response grants.
pub open spec fn spec_effective_lifetime(expires_in: Option<u64>) -> int {
    match expires_in {
        Some(s) => s as int,
        None => DEFAULT_TOKEN_LIFETIME_SECS as int,
    }
}

impl TokenManager {
    /// Builds a manager. Construction fails fast — before any network
    /// activity — when the refresh credential or the refresh endpoint is
    /// blank.
    pub fn new(refresh_token: String, refresh_url: String) -> (r: Result<TokenManager, McpError>)
        ensures
            match r {
                Ok(m) => {
                    &&& !spec_blank(refresh_token@)
                    &&& !spec_blank(refresh_url@)
                    &&& m.refresh_token@ == refresh_token@
                    &&& m.refresh_url@ == refresh_url@
                    &&& m.access_token is None
                    &&& m.expires_at is None
                },
                Err(e) => {
                    &&& spec_blank(refresh_token@) || spec_blank(refresh_url@)
                    &&& e.code == ERROR_CODE_INVALID_PARAMS
                    &&& if spec_blank(refresh_token@) {
                        e.message@ == "Refresh token cannot be empty"@
                    } else {
                        e.message@ == "Refresh URL cannot be empty"@
                    }
                },
            },
    {
        if is_blank(refresh_token.as_str()) {
            return Err(
                McpError {
                    code: ERROR_CODE_INVALID_PARAMS,
                    message: "Refresh token cannot be empty".to_owned(),
                },
            );
        }
        if is_blank(refresh_url.as_str()) {
            return Err(
                McpError {
                    code: ERROR_CODE_INVALID_PARAMS,
                    message: "Refresh URL cannot be empty".to_owned(),
                },
            );
        }
        Ok(
            TokenManager {
                refresh_token,
                refresh_url,
                access_token: None,
                expires_at: None,
            },
        )
    }

    /// The proactive-refresh decision at time `now`: hand out the cached
    /// token while its expiry is more than the safety margin away,
    /// otherwise ask for a refresh.
    pub fn check_cached(&self, now: u64) -> (r: TokenCheck)
        ensures
            match r {
                TokenCheck::UseCached(t) => !spec_needs_refresh(*self, now) && self.access_token
                    == Some(t),
                TokenCheck::NeedsRefresh => spec_needs_refresh(*self, now),
            },
    {
        match (&self.access_token, &self.expires_at) {
            (Some(token), Some(expires_at)) => {
                let e = *expires_at;
                if e > now && e - now > TOKEN_SAFETY_MARGIN_SECS {
                    TokenCheck::UseCached(token.clone())
                } else {
                    TokenCheck::NeedsRefresh
                }
            },
            _ => TokenCheck::NeedsRefresh,
        }
    }

    /// Applies a successful refresh outcome to the token slot.
    ///
    /// A failed refresh applies nothing: no operation of this type touches
    /// the slot on failure, so the previously cached token survives.
    pub fn apply_refresh_success(&mut self, access_token: String, expires_in: Option<u64>, now: u64)
        requires
            now + spec_effective_lifetime(expires_in) <= u64::MAX,
        ensures
            *final(self) == spec_after_refresh(*old(self), access_token, expires_in, now),
    {
        let lifetime = match expires_in {
            Some(s) => s,
            None => DEFAULT_TOKEN_LIFETIME_SECS,
        };
        self.access_token = Some(access_token);
        self.expires_at = Some(now + lifetime);
    }
}

/// Law of refresh idempotence: after a successful refresh at `now1`, a
/// second request at any `now2` still more than the safety margin before
/// the new expiry finds the cached token valid — so two calls within the
/// margin perform at most the one refresh.
pub proof fn lemma_second_call_uses_cache(
    m: TokenManager,
    token: String,
    expires_in: Option<u64>,
    now1: u64,
    now2: u64,
)
    requires
        now1 + spec_effective_lifetime(expires_in) <= u64::MAX,
        now2 + TOKEN_SAFETY_MARGIN_SECS < now1 + spec_effective_lifetime(expires_in),
    ensures
        !spec_needs_refresh(spec_after_refresh(m, token, expires_in, now1), now2),
        spec_after_refresh(m, token, expires_in, now1).access_token == Some(token),
{
}

/// The header value that carries a bearer token.
pub fn bearer_header_value(token: &str) -> (r: String)
    ensures
        r@ == "Bearer "@ + token@,
{
    let mut s = "Bearer ".to_owned();
    s.append(token);
    s
}

/// Writes a freshly refreshed token into the shared outbound headers, so
/// every subsequent dispatch picks it up. Only the authorization entry
/// changes.
pub fn install_bearer_token(headers: &mut HeaderList, token: &str)
    ensures
        spec_get(final(headers).entries@, "authorization"@) == Some("Bearer "@ + token@),
        forall|n: Seq<char>|
            n != "authorization"@ ==> spec_get(final(headers).entries@, n) == spec_get(
                old(headers).entries@,
                n,
            ),
{
    let v = bearer_header_value(token);
    headers.insert("authorization", v.as_str());
}

/// Whether a verification probe's raw response body shows the expected
/// field name, which is what counts as a successful verification.
pub fn response_indicates_valid(body: &str) -> (r: bool)
    ensures
        r == contains_sub(body@, "\"name\""@),
{
    str_contains(body, "\"name\"")
}

} // verus!
