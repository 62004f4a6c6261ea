//! The auth gate: the bearer validator and the optional tenant gate that
//! stand in front of the running server's transport entry point.
//!
//! The bearer validator parses the `Authorization` header and, after the
//! external verification, either attaches the validated header value to the
//! request or rejects with an unauthorized challenge naming the
//! protected-resource metadata document. The tenant gate, present only when
//! a tenant identifier is configured, rejects every request whose tenant
//! header does not match it exactly.

use vstd::prelude::*;

use crate::text::contains_at;
use crate::text::eq_ignore_ascii_case;
use crate::text::has_prefix;
use crate::text::str_eq;
use crate::text::str_eq_ic;

verus! {

/// Bearer-auth configuration: the upstream OAuth servers, the accepted
/// audiences, the protected resource, and its documentation and scopes.
#[derive(Clone, Debug)]
pub struct AuthConfig {
    /// Upstream OAuth servers that verification is delegated to.
    pub servers: Vec<String>,
    /// Accepted audiences for the tokens.
    pub audiences: Vec<String>,
    /// The resource to protect: the public URL of this server.
    pub resource: String,
    /// Documentation related to the protected resource.
    pub resource_documentation: Option<String>,
    /// OAuth scopes this resource server supports.
    pub scopes: Vec<String>,
    /// Whether the caller's token is kept out of upstream calls.
    pub disable_auth_token_passthrough: bool,
}

/// The challenge a rejected request carries: the protected resource and the
/// path of its metadata document.
pub struct BearerChallenge {
    pub resource: String,
    pub metadata_path: String,
}

/// What the bearer validator decides for one request.
pub enum BearerOutcome {
    /// The token verified; its header value travels with the request for
    /// optional upstream passthrough.
    Proceed { token_header: String },
    /// No verified token; reject with status 401 and the challenge.
    Unauthorized { challenge: BearerChallenge },
}

/// The well-known path of the protected-resource metadata document, which
/// every unauthorized challenge names.
pub fn protected_resource_metadata_path() -> (r: String)
    ensures
        r@ == "/.well-known/oauth-protected-resource"@,
{
    "/.well-known/oauth-protected-resource".to_owned()
}

/// Extracts the bearer token from an `Authorization` header value: the text
/// after the `Bearer ` scheme prefix. A missing header or one of another
/// shape yields nothing.
pub fn parse_bearer(header: Option<&str>) -> (r: Option<String>)
    ensures
        match r {
            Some(t) => match header {
                Some(h) => contains_at(h@, 0, "Bearer "@) && t@ == h@.skip("Bearer "@.len() as int),
                None => false,
            },
            None => match header {
                Some(h) => !contains_at(h@, 0, "Bearer "@),
                None => true,
            },
        },
{
    match header {
        None => None,
        Some(h) => {
            if has_prefix(h, "Bearer ") {
                proof {
                    reveal_strlit("Bearer ");
                }
                let n = h.unicode_len();
                let t = h.substring_char(7, n);
                let r = t.to_owned();
                proof {
                    assert(r@ =~= h@.skip("Bearer "@.len() as int));
                }
                Some(r)
            } else {
                None
            }
        },
    }
}

/// The bearer validator's verdict once the external verification has
/// answered: a verified token proceeds with its header value attached, and
/// everything else — a missing header, a malformed one, or a token the
/// verifier rejected — receives the same unauthorized challenge, naming the
/// protected resource and its metadata document.
pub fn bearer_gate(config: &AuthConfig, validated: Option<&str>) -> (r: BearerOutcome)
    ensures
        match r {
            BearerOutcome::Proceed { token_header } => match validated {
                Some(v) => token_header@ == v@,
                None => false,
            },
            BearerOutcome::Unauthorized { challenge } => {
                &&& validated is None
                &&& challenge.resource@ == config.resource@
                &&& challenge.metadata_path@ == "/.well-known/oauth-protected-resource"@
            },
        },
{
    match validated {
        Some(v) => BearerOutcome::Proceed { token_header: v.to_owned() },
        None => BearerOutcome::Unauthorized {
            challenge: BearerChallenge {
                resource: config.resource.clone(),
                metadata_path: protected_resource_metadata_path(),
            },
        },
    }
}

/// One inbound request header; a value of nothing stands for bytes that are
/// not valid UTF-8.
pub struct RequestHeader {
    pub name: String,
    pub value: Option<String>,
}

/// The value of the first request header whose name matches up to ASCII
/// case, the way header names are compared on the wire.
pub open spec fn spec_find_header(hs: Seq<RequestHeader>, name: Seq<char>) -> Option<
    Option<Seq<char>>,
>
    decreases hs.len(),
{
    if hs.len() == 0 {
        None
    } else if str_eq_ic(hs[0].name@, name) {
        Some(hs[0].value.deep_view())
    } else {
        spec_find_header(hs.drop_first(), name)
    }
}

/// Finds the first request header named `name`, ignoring ASCII case.
pub fn find_request_header<'a>(hs: &'a Vec<RequestHeader>, name: &str) -> (r: Option<
    &'a Option<String>,
>)
    ensures
        match r {
            Some(v) => spec_find_header(hs@, name@) == Some(v.deep_view()),
            None => spec_find_header(hs@, name@) is None,
        },
{
    let n = hs.len();
    let mut i: usize = 0;
    proof {
        assert(hs@.skip(0) =~= hs@);
    }
    while i < n
        invariant
            n == hs@.len(),
            0 <= i <= n,
            spec_find_header(hs@, name@) == spec_find_header(hs@.skip(i as int), name@),
        decreases n - i,
    {
        proof {
            assert(hs@.skip(i as int)[0] == hs@[i as int]);
            assert(hs@.skip(i as int).drop_first() =~= hs@.skip(i + 1));
        }
        if eq_ignore_ascii_case(hs[i].name.as_str(), name) {
            return Some(&hs[i].value);
        }
        i = i + 1;
    }
    proof {
        assert(hs@.skip(n as int) =~= Seq::<RequestHeader>::empty());
    }
    None
}

/// Decides whether the customer-ID gate exists at all: only a configured,
/// non-empty expected value installs it; otherwise requests are never
/// inspected for the header.
pub fn tenant_gate_config(configured: Option<&str>) -> (r: Option<String>)
    ensures
        match r {
            Some(v) => match configured {
                Some(c) => c@.len() > 0 && v@ == c@,
                None => false,
            },
            None => match configured {
                Some(c) => c@.len() == 0,
                None => true,
            },
        },
{
    match configured {
        Some(c) => {
            if c.unicode_len() > 0 {
                Some(c.to_owned())
            } else {
                None
            }
        },
        None => None,
    }
}

/// The tenant gate's verdict on one request: it proceeds exactly when the
/// tenant header is present, valid UTF-8, and matches the expected value
/// case-sensitively.
pub fn tenant_decision(expected: &str, header: Option<&Option<String>>) -> (r: bool)
    ensures
        r == match header {
            Some(v) => match v {
                Some(s) => s@ == expected@,
                None => false,
            },
            None => false,
        },
{
    match header {
        Some(v) => match v {
            Some(s) => str_eq(s.as_str(), expected),
            None => false,
        },
        None => false,
    }
}

/// Law of the tenant gate, over one whole request: when no tenant
/// identifier is configured (or it is empty), every request proceeds and no
/// header is inspected; when one is configured, a request proceeds exactly
/// when its tenant header matches it case-sensitively.
pub fn tenant_request_allowed(configured: Option<&str>, headers: &Vec<RequestHeader>) -> (r: bool)
    ensures
        match configured {
            None => r,
            Some(c) => if c@.len() == 0 {
                r
            } else {
                r == match spec_find_header(headers@, "x-company-id"@) {
                    Some(v) => match v {
                        Some(s) => s == c@,
                        None => false,
                    },
                    None => false,
                }
            },
        },
{
    let gate = tenant_gate_config(configured);
    match gate {
        None => true,
        Some(expected) => {
            let header = find_request_header(headers, "x-company-id");
            tenant_decision(expected.as_str(), header)
        },
    }
}

} // verus!
