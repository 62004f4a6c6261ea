//! CORS configuration and the rules that decide what the CORS layer may be
//! built from.
//!
//! Building the layer first validates the configuration — credentials may
//! not meet a wildcard origin, some origin source must be given, every
//! origin must be a URL and a header value, every pattern a valid regular
//! expression, every method and header name well-formed — and then yields a
//! plan: the origin policy and the validated lists the transport layer
//! installs. Whether text parses as a URL, a regular expression, a method
//! or a header name is delegated to the `url`, `regex` and `http` crates.

use vstd::prelude::*;

use core::str::FromStr;

use crate::errors::CorsError;
use crate::text::clone_strings;

verus! {

/// Whether `pattern` compiles as a regular expression.
pub uninterp spec fn regex_ok(pattern: Seq<char>) -> bool;

/// Whether the expression `pattern` matches `text` anywhere; meaningful
/// only when `regex_ok(pattern)` holds.
pub uninterp spec fn regex_match(pattern: Seq<char>, text: Seq<char>) -> bool;

/// Whether `s` parses as a URL.
pub uninterp spec fn url_ok(s: Seq<char>) -> bool;

/// Whether `s` is a valid header value.
pub uninterp spec fn header_value_ok(s: Seq<char>) -> bool;

/// Whether `s` is a valid HTTP method.
pub uninterp spec fn method_ok(s: Seq<char>) -> bool;

/// Whether `s` is a valid header name.
pub uninterp spec fn header_name_ok(s: Seq<char>) -> bool;

/// Relies on regex::Regex::new: whether a pattern compiles depends on the
/// pattern alone.
#[verifier::external_body]
pub(crate) fn regex_valid(pattern: &str) -> (r: bool)
    ensures
        r == regex_ok(pattern@),
{
    regex::Regex::new(pattern).is_ok()
}

/// Relies on regex::Regex::new and regex::Regex::is_match: whether a
/// pattern compiles, and whether it then matches a text, depend on the
/// pattern and the text alone.
#[verifier::external_body]
pub(crate) fn regex_match_checked(pattern: &str, text: &str) -> (r: Option<bool>)
    ensures
        r is Some <==> regex_ok(pattern@),
        match r {
            Some(b) => b == regex_match(pattern@, text@),
            None => true,
        },
{
    match regex::Regex::new(pattern) {
        Ok(re) => Some(re.is_match(text)),
        Err(_) => None,
    }
}

/// Relies on url::Url::parse: whether text parses as a URL depends on the
/// text alone.
#[verifier::external_body]
pub(crate) fn url_valid(s: &str) -> (r: bool)
    ensures
        r == url_ok(s@),
{
    url::Url::parse(s).is_ok()
}

/// Relies on http::HeaderValue::from_str: whether text is accepted as a
/// header value depends on the text alone.
#[verifier::external_body]
pub(crate) fn header_value_valid(s: &str) -> (r: bool)
    ensures
        r == header_value_ok(s@),
{
    http::HeaderValue::from_str(s).is_ok()
}

/// Relies on http::Method::from_str: whether text names an HTTP method
/// depends on the text alone.
#[verifier::external_body]
pub(crate) fn method_valid(s: &str) -> (r: bool)
    ensures
        r == method_ok(s@),
{
    http::Method::from_str(s).is_ok()
}

/// Relies on http::HeaderName::from_str: whether text is accepted as a
/// header name depends on the text alone.
#[verifier::external_body]
pub(crate) fn header_name_valid(s: &str) -> (r: bool)
    ensures
        r == header_name_ok(s@),
{
    http::HeaderName::from_str(s).is_ok()
}

/// CORS configuration options.
pub struct CorsConfig {
    /// Enable CORS support.
    pub enabled: bool,
    /// Allowed origins, matched exactly.
    pub origins: Vec<String>,
    /// Allowed origin patterns, matched as regular expressions.
    pub match_origins: Vec<String>,
    /// Allow any origin (use with caution).
    pub allow_any_origin: bool,
    /// Allow credentials in CORS requests.
    pub allow_credentials: bool,
    /// Allowed HTTP methods.
    pub allow_methods: Vec<String>,
    /// Allowed request headers.
    pub allow_headers: Vec<String>,
    /// Headers exposed to the browser.
    pub expose_headers: Vec<String>,
    /// Max age for the preflight cache, in seconds.
    pub max_age: Option<u64>,
}

impl Default for CorsConfig {
    /// The default configuration: disabled, no origins, the methods and
    /// headers of the tool-call transport, a two-hour preflight cache.
    fn default() -> (r: CorsConfig)
        ensures
            !r.enabled,
            r.origins@.len() == 0,
            r.match_origins@.len() == 0,
            !r.allow_any_origin,
            !r.allow_credentials,
            r.allow_methods.deep_view() == seq!["GET"@, "POST"@],
            r.allow_headers.deep_view() == seq![
                "content-type"@,
                "mcp-protocol-version"@,
                "mcp-session-id"@,
            ],
            r.expose_headers.deep_view() == seq!["mcp-session-id"@],
            r.max_age == Some(7200u64),
    {
        let mut allow_methods: Vec<String> = Vec::new();
        allow_methods.push("GET".to_owned());
        allow_methods.push("POST".to_owned());
        let mut allow_headers: Vec<String> = Vec::new();
        allow_headers.push("content-type".to_owned());
        allow_headers.push("mcp-protocol-version".to_owned());
        allow_headers.push("mcp-session-id".to_owned());
        let mut expose_headers: Vec<String> = Vec::new();
        expose_headers.push("mcp-session-id".to_owned());
        let r = CorsConfig {
            enabled: false,
            origins: Vec::new(),
            match_origins: Vec::new(),
            allow_any_origin: false,
            allow_credentials: false,
            allow_methods,
            allow_headers,
            expose_headers,
            max_age: Some(7200),
        };
        proof {
            assert(r.allow_methods.deep_view() =~= seq!["GET"@, "POST"@]);
            assert(r.allow_headers.deep_view() =~= seq![
                "content-type"@,
                "mcp-protocol-version"@,
                "mcp-session-id"@,
            ]);
            assert(r.expose_headers.deep_view() =~= seq!["mcp-session-id"@]);
        }
        r
    }
}

/// How allowed origins are decided.
pub enum OriginPolicy {
    /// Any origin is allowed.
    Any,
    /// Exactly the listed origins are allowed.
    Exact(Vec<String>),
    /// The listed origins, or any origin one of the patterns matches.
    Matched { exact: Vec<String>, patterns: Vec<String> },
}

/// A validated CORS plan: what the transport layer installs.
pub struct CorsPlan {
    pub origin_policy: OriginPolicy,
    pub allow_credentials: bool,
    pub methods: Vec<String>,
    pub allow_headers: Vec<String>,
    pub expose_headers: Vec<String>,
    pub max_age: Option<u64>,
}

/// Whether `origin` is allowed by an exact list and a pattern list: it
/// equals a listed origin, or a valid pattern matches it.
pub open spec fn spec_origin_allowed(
    exact: Seq<String>,
    patterns: Seq<String>,
    origin: Seq<char>,
) -> bool {
    ||| exists|i: int| 0 <= i < exact.len() && exact[i]@ == origin
    ||| exists|j: int|
        0 <= j < patterns.len() && regex_ok(patterns[j]@) && regex_match(patterns[j]@, origin)
}

/// Whether `origin` is allowed under an origin policy.
pub open spec fn spec_policy_allows(policy: &OriginPolicy, origin: Seq<char>) -> bool {
    match policy {
        OriginPolicy::Any => true,
        OriginPolicy::Exact(l) => exists|i: int| 0 <= i < l@.len() && l@[i]@ == origin,
        OriginPolicy::Matched { exact, patterns } => spec_origin_allowed(exact@, patterns@, origin),
    }
}

/// Decides whether `origin` equals one of the exact origins or is matched
/// by one of the valid patterns — the predicate behind the mixed origin
/// policy.
pub fn origin_allowed(exact: &Vec<String>, patterns: &Vec<String>, origin: &str) -> (r: bool)
    ensures
        r == spec_origin_allowed(exact@, patterns@, origin@),
{
    let n = exact.len();
    let mut i: usize = 0;
    while i < n
        invariant
            n == exact@.len(),
            0 <= i <= n,
            forall|k: int| 0 <= k < i ==> exact@[k]@ != origin@,
        decreases n - i,
    {
        if crate::text::str_eq(exact[i].as_str(), origin) {
            return true;
        }
        i = i + 1;
    }
    let m = patterns.len();
    let mut j: usize = 0;
    while j < m
        invariant
            m == patterns@.len(),
            0 <= j <= m,
            forall|k: int|
                0 <= k < j ==> !(regex_ok(patterns@[k]@) && regex_match(patterns@[k]@, origin@)),
        decreases m - j,
    {
        match regex_match_checked(patterns[j].as_str(), origin) {
            Some(true) => {
                return true;
            },
            _ => {},
        }
        j = j + 1;
    }
    false
}

impl CorsPlan {
    /// Whether a request from `origin` is allowed under this plan.
    pub fn allows_origin(&self, origin: &str) -> (r: bool)
        ensures
            r == spec_policy_allows(&self.origin_policy, origin@),
    {
        match &self.origin_policy {
            OriginPolicy::Any => true,
            OriginPolicy::Exact(l) => {
                let empty: Vec<String> = Vec::new();
                origin_allowed(l, &empty, origin)
            },
            OriginPolicy::Matched { exact, patterns } => origin_allowed(exact, patterns, origin),
        }
    }
}

impl CorsConfig {
    /// Validates the configuration for consistency: credentials may not be
    /// combined with the wildcard origin; some origin source must be given;
    /// every exact origin must parse as a URL; every pattern must compile.
    /// The first broken rule, in that order, names the error.
    pub fn validate(&self) -> (r: Result<(), CorsError>)
        ensures
            match r {
                Ok(()) => {
                    &&& !(self.allow_credentials && self.allow_any_origin)
                    &&& self.allow_any_origin || self.origins@.len() > 0
                        || self.match_origins@.len() > 0
                    &&& forall|i: int| 0 <= i < self.origins@.len() ==> url_ok(self.origins@[i]@)
                    &&& forall|j: int|
                        0 <= j < self.match_origins@.len() ==> regex_ok(self.match_origins@[j]@)
                },
                Err(CorsError::CredentialsWithAnyOrigin) => self.allow_credentials
                    && self.allow_any_origin,
                Err(CorsError::NoOrigins) => {
                    &&& !(self.allow_credentials && self.allow_any_origin)
                    &&& !self.allow_any_origin
                    &&& self.origins@.len() == 0
                    &&& self.match_origins@.len() == 0
                },
                Err(CorsError::InvalidOrigin(o)) => {
                    &&& !(self.allow_credentials && self.allow_any_origin)
                    &&& self.allow_any_origin || self.origins@.len() > 0
                        || self.match_origins@.len() > 0
                    &&& exists|i: int|
                        {
                            &&& 0 <= i < self.origins@.len()
                            &&& !url_ok(self.origins@[i]@)
                            &&& o@ == self.origins@[i]@
                            &&& forall|k: int| 0 <= k < i ==> url_ok(self.origins@[k]@)
                        }
                },
                Err(CorsError::InvalidOriginPattern(p)) => {
                    &&& !(self.allow_credentials && self.allow_any_origin)
                    &&& self.allow_any_origin || self.origins@.len() > 0
                        || self.match_origins@.len() > 0
                    &&& forall|i: int| 0 <= i < self.origins@.len() ==> url_ok(self.origins@[i]@)
                    &&& exists|j: int|
                        {
                            &&& 0 <= j < self.match_origins@.len()
                            &&& !regex_ok(self.match_origins@[j]@)
                            &&& p@ == self.match_origins@[j]@
                            &&& forall|k: int| 0 <= k < j ==> regex_ok(self.match_origins@[k]@)
                        }
                },
                Err(_) => false,
            },
    {
        if self.allow_credentials && self.allow_any_origin {
            return Err(CorsError::CredentialsWithAnyOrigin);
        }
        if !self.allow_any_origin && self.origins.len() == 0 && self.match_origins.len() == 0 {
            return Err(CorsError::NoOrigins);
        }
        let n = self.origins.len();
        let mut i: usize = 0;
        while i < n
            invariant
                n == self.origins@.len(),
                0 <= i <= n,
                forall|k: int| 0 <= k < i ==> url_ok(self.origins@[k]@),
                !(self.allow_credentials && self.allow_any_origin),
                self.allow_any_origin || self.origins@.len() > 0 || self.match_origins@.len() > 0,
            decreases n - i,
        {
            if !url_valid(self.origins[i].as_str()) {
                let o = self.origins[i].clone();
                proof {
                    assert(exists|k: int|
                        {
                            &&& 0 <= k < self.origins@.len()
                            &&& !url_ok(self.origins@[k]@)
                            &&& o@ == self.origins@[k]@
                            &&& forall|t: int| 0 <= t < k ==> url_ok(self.origins@[t]@)
                        }) by {
                        assert({
                            &&& 0 <= (i as int) < self.origins@.len()
                            &&& !url_ok(self.origins@[i as int]@)
                            &&& o@ == self.origins@[i as int]@
                            &&& forall|t: int| 0 <= t < i as int ==> url_ok(self.origins@[t]@)
                        });
                    }
                }
                return Err(CorsError::InvalidOrigin(o));
            }
            i = i + 1;
        }
        let m = self.match_origins.len();
        let mut j: usize = 0;
        while j < m
            invariant
                m == self.match_origins@.len(),
                0 <= j <= m,
                forall|k: int| 0 <= k < j ==> regex_ok(self.match_origins@[k]@),
                !(self.allow_credentials && self.allow_any_origin),
                self.allow_any_origin || self.origins@.len() > 0 || self.match_origins@.len() > 0,
                forall|k: int| 0 <= k < self.origins@.len() ==> url_ok(self.origins@[k]@),
            decreases m - j,
        {
            if !regex_valid(self.match_origins[j].as_str()) {
                let p = self.match_origins[j].clone();
                proof {
                    assert(exists|k: int|
                        {
                            &&& 0 <= k < self.match_origins@.len()
                            &&& !regex_ok(self.match_origins@[k]@)
                            &&& p@ == self.match_origins@[k]@
                            &&& forall|t: int| 0 <= t < k ==> regex_ok(self.match_origins@[t]@)
                        }) by {
                        assert({
                            &&& 0 <= (j as int) < self.match_origins@.len()
                            &&& !regex_ok(self.match_origins@[j as int]@)
                            &&& p@ == self.match_origins@[j as int]@
                            &&& forall|t: int| 0 <= t < j as int ==> regex_ok(self.match_origins@[t]@)
                        });
                    }
                }
                return Err(CorsError::InvalidOriginPattern(p));
            }
            j = j + 1;
        }
        Ok(())
    }

    /// Builds the CORS plan from this configuration, or says which rule it
    /// breaks: the layer must be enabled and the configuration consistent;
    /// every exact origin must also be a valid header value; every method
    /// and every header name of the two header lists must be well-formed.
    pub fn build_cors_layer(&self) -> (r: Result<CorsPlan, CorsError>)
        ensures
            match r {
                Ok(plan) => {
                    &&& self.enabled
                    &&& !(self.allow_credentials && self.allow_any_origin)
                    &&& self.allow_any_origin || self.origins@.len() > 0
                        || self.match_origins@.len() > 0
                    &&& forall|i: int| 0 <= i < self.origins@.len() ==> url_ok(self.origins@[i]@)
                    &&& forall|j: int|
                        0 <= j < self.match_origins@.len() ==> regex_ok(self.match_origins@[j]@)
                    &&& self.allow_any_origin || forall|i: int|
                        0 <= i < self.origins@.len() ==> header_value_ok(self.origins@[i]@)
                    &&& forall|i: int|
                        0 <= i < self.allow_methods@.len() ==> method_ok(self.allow_methods@[i]@)
                    &&& forall|i: int|
                        0 <= i < self.allow_headers@.len() ==> header_name_ok(
                            self.allow_headers@[i]@,
                        )
                    &&& forall|i: int|
                        0 <= i < self.expose_headers@.len() ==> header_name_ok(
                            self.expose_headers@[i]@,
                        )
                    &&& if self.allow_any_origin {
                        plan.origin_policy is Any
                    } else if self.match_origins@.len() > 0 {
                        match plan.origin_policy {
                            OriginPolicy::Matched { exact, patterns } => exact@ == self.origins@
                                && patterns@ == self.match_origins@,
                            _ => false,
                        }
                    } else {
                        match plan.origin_policy {
                            OriginPolicy::Exact(l) => l@ == self.origins@,
                            _ => false,
                        }
                    }
                    &&& plan.allow_credentials == self.allow_credentials
                    &&& plan.methods@ == self.allow_methods@
                    &&& plan.allow_headers@ == self.allow_headers@
                    &&& plan.expose_headers@ == self.expose_headers@
                    &&& plan.max_age == self.max_age
                },
                Err(CorsError::NotEnabled) => !self.enabled,
                Err(CorsError::CredentialsWithAnyOrigin) => self.enabled && self.allow_credentials
                    && self.allow_any_origin,
                Err(CorsError::NoOrigins) => {
                    &&& self.enabled
                    &&& !(self.allow_credentials && self.allow_any_origin)
                    &&& !self.allow_any_origin
                    &&& self.origins@.len() == 0
                    &&& self.match_origins@.len() == 0
                },
                Err(CorsError::InvalidOrigin(o)) => self.enabled && (exists|i: int|
                    0 <= i < self.origins@.len() && (!url_ok(self.origins@[i]@)
                        || !header_value_ok(self.origins@[i]@)) && o@ == self.origins@[i]@),
                Err(CorsError::InvalidOriginPattern(p)) => self.enabled && (exists|j: int|
                    0 <= j < self.match_origins@.len() && !regex_ok(self.match_origins@[j]@) && p@
                        == self.match_origins@[j]@),
                Err(CorsError::InvalidMethod(s)) => self.enabled && (exists|i: int|
                    0 <= i < self.allow_methods@.len() && !method_ok(self.allow_methods@[i]@) && s@
                        == self.allow_methods@[i]@),
                Err(CorsError::InvalidHeaderName(s)) => self.enabled && (exists|i: int|
                    0 <= i < self.allow_headers@.len() && !header_name_ok(self.allow_headers@[i]@)
                        && s@ == self.allow_headers@[i]@),
                Err(CorsError::InvalidExposeHeaderName(s)) => self.enabled && (exists|i: int|
                    0 <= i < self.expose_headers@.len() && !header_name_ok(
                        self.expose_headers@[i]@,
                    ) && s@ == self.expose_headers@[i]@),
            },
    {
        if !self.enabled {
            return Err(CorsError::NotEnabled);
        }
        match self.validate() {
            Ok(()) => {},
            Err(e) => {
                return Err(e);
            },
        }
        let origin_policy = if self.allow_any_origin {
            OriginPolicy::Any
        } else {
            let n = self.origins.len();
            let mut i: usize = 0;
            while i < n
                invariant
                    n == self.origins@.len(),
                    0 <= i <= n,
                    forall|k: int| 0 <= k < i ==> header_value_ok(self.origins@[k]@),
                    self.enabled,
                decreases n - i,
            {
                if !header_value_valid(self.origins[i].as_str()) {
                    let o = self.origins[i].clone();
                    proof {
                        assert(exists|k: int|
                            0 <= k < self.origins@.len() && (!url_ok(self.origins@[k]@)
                                || !header_value_ok(self.origins@[k]@)) && o@
                                == self.origins@[k]@) by {
                            assert(0 <= (i as int) < self.origins@.len() && (!url_ok(
                                self.origins@[i as int]@,
                            ) || !header_value_ok(self.origins@[i as int]@)) && o@
                                == self.origins@[i as int]@);
                        }
                    }
                    return Err(CorsError::InvalidOrigin(o));
                }
                i = i + 1;
            }
            if self.match_origins.len() > 0 {
                OriginPolicy::Matched {
                    exact: clone_strings(&self.origins),
                    patterns: clone_strings(&self.match_origins),
                }
            } else {
                OriginPolicy::Exact(clone_strings(&self.origins))
            }
        };
        let n = self.allow_methods.len();
        let mut i: usize = 0;
        while i < n
            invariant
                n == self.allow_methods@.len(),
                0 <= i <= n,
                forall|k: int| 0 <= k < i ==> method_ok(self.allow_methods@[k]@),
                self.enabled,
            decreases n - i,
        {
            if !method_valid(self.allow_methods[i].as_str()) {
                let s = self.allow_methods[i].clone();
                proof {
                    assert(exists|k: int|
                        0 <= k < self.allow_methods@.len() && !method_ok(self.allow_methods@[k]@)
                            && s@ == self.allow_methods@[k]@) by {
                        assert(0 <= (i as int) < self.allow_methods@.len() && !method_ok(
                            self.allow_methods@[i as int]@,
                        ) && s@ == self.allow_methods@[i as int]@);
                    }
                }
                return Err(CorsError::InvalidMethod(s));
            }
            i = i + 1;
        }
        let n = self.allow_headers.len();
        let mut i: usize = 0;
        while i < n
            invariant
                n == self.allow_headers@.len(),
                0 <= i <= n,
                forall|k: int| 0 <= k < i ==> header_name_ok(self.allow_headers@[k]@),
                self.enabled,
            decreases n - i,
        {
            if !header_name_valid(self.allow_headers[i].as_str()) {
                let s = self.allow_headers[i].clone();
                proof {
                    assert(exists|k: int|
                        0 <= k < self.allow_headers@.len() && !header_name_ok(
                            self.allow_headers@[k]@,
                        ) && s@ == self.allow_headers@[k]@) by {
                        assert(0 <= (i as int) < self.allow_headers@.len() && !header_name_ok(
                            self.allow_headers@[i as int]@,
                        ) && s@ == self.allow_headers@[i as int]@);
                    }
                }
                return Err(CorsError::InvalidHeaderName(s));
            }
            i = i + 1;
        }
        let n = self.expose_headers.len();
        let mut i: usize = 0;
        while i < n
            invariant
                n == self.expose_headers@.len(),
                0 <= i <= n,
                forall|k: int| 0 <= k < i ==> header_name_ok(self.expose_headers@[k]@),
                self.enabled,
            decreases n - i,
        {
            if !header_name_valid(self.expose_headers[i].as_str()) {
                let s = self.expose_headers[i].clone();
                proof {
                    assert(exists|k: int|
                        0 <= k < self.expose_headers@.len() && !header_name_ok(
                            self.expose_headers@[k]@,
                        ) && s@ == self.expose_headers@[k]@) by {
                        assert(0 <= (i as int) < self.expose_headers@.len() && !header_name_ok(
                            self.expose_headers@[i as int]@,
                        ) && s@ == self.expose_headers@[i as int]@);
                    }
                }
                return Err(CorsError::InvalidExposeHeaderName(s));
            }
            i = i + 1;
        }
        Ok(
            CorsPlan {
                origin_policy,
                allow_credentials: self.allow_credentials,
                methods: clone_strings(&self.allow_methods),
                allow_headers: clone_strings(&self.allow_headers),
                expose_headers: clone_strings(&self.expose_headers),
                max_age: self.max_age,
            },
        )
    }
}

} // verus!
