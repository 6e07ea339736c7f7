//! Access control and addressing for the authenticated MCP reverse proxy (and the
//! other mutating routes, which use the same key check).

use vstd::prelude::*;
use crate::json::{JsonMember, JsonValue, JsonView, lemma_object_view, members_view};
use crate::text::{
    chars_starts_with, push_str, starts_with, str_chars, str_eq, string_of_range, trim,
    trim_end_char, trim_end_matches_char, trim_str,
};

verus! {

/// Largest request body the proxy forwards, in bytes.
pub const MCP_PROXY_BODY_LIMIT: usize = 16 * 1024 * 1024;

/// The view of an optional string slice.
pub open spec fn opt_chars(o: Option<&str>) -> Option<Seq<char>> {
    match o {
        Some(s) => Some(s@),
        None => None,
    }
}

/// The token of an `Authorization` header of the form `Bearer <token>`, trimmed.
pub open spec fn bearer_token(authorization: Option<Seq<char>>) -> Option<Seq<char>> {
    match authorization {
        Some(a) => if starts_with(a, "Bearer "@) { Some(trim(a.skip(7))) } else { None },
        None => None,
    }
}

/// The key a request presents: the bearer token when the `Authorization` header
/// carries one, else the trimmed `X-API-Key` header.
pub open spec fn presented_key(authorization: Option<Seq<char>>, x_api_key: Option<Seq<char>>) -> Option<Seq<char>> {
    match bearer_token(authorization) {
        Some(t) => Some(t),
        None => match x_api_key {
            Some(k) => Some(trim(k)),
            None => None,
        },
    }
}

/// The API key a request presents (see [`presented_key`]). The arguments are the
/// `Authorization` and `X-API-Key` header values, where they are present and text.
pub fn extract_bearer(authorization: Option<&str>, x_api_key: Option<&str>) -> (r: Option<String>)
    ensures
        (match r {
            Some(s) => Some(s@),
            None => None,
        }) == presented_key(opt_chars(authorization), opt_chars(x_api_key)),
{
    if let Some(a) = authorization {
        let cs = str_chars(a);
        let pre = str_chars("Bearer ");
        proof { reveal_strlit("Bearer "); }
        if chars_starts_with(cs.as_slice(), pre.as_slice()) {
            let rest = string_of_range(cs.as_slice(), 7, cs.len());
            assert(cs@.subrange(7, cs@.len() as int) =~= a@.skip(7));
            return Some(trim_str(rest.as_str()));
        }
    }
    match x_api_key {
        Some(k) => Some(trim_str(k)),
        None => None,
    }
}

/// The outcome of the API key check.
#[derive(Debug, Clone, Copy, PartialEq, Eq, Structural)]
pub enum ApiKeyCheck {
    /// No key is configured: the protected routes are switched off.
    Disabled,
    /// A key is configured and the request does not present it.
    Unauthorized,
    /// The request presents the configured key.
    Allowed,
}

/// Disabled when no non-empty key is configured; allowed exactly when the presented
/// key equals the configured one.
pub open spec fn key_check(expected: Option<Seq<char>>, presented: Option<Seq<char>>) -> ApiKeyCheck {
    match expected {
        Some(k) => if k.len() == 0 {
            ApiKeyCheck::Disabled
        } else if presented == Some(k) {
            ApiKeyCheck::Allowed
        } else {
            ApiKeyCheck::Unauthorized
        },
        None => ApiKeyCheck::Disabled,
    }
}

/// Checks a request's key against the configured `MCP_API_KEY` (`expected`).
pub fn check_api_key(expected: Option<&str>, authorization: Option<&str>, x_api_key: Option<&str>) -> (r: ApiKeyCheck)
    ensures
        r == key_check(opt_chars(expected), presented_key(opt_chars(authorization), opt_chars(x_api_key))),
{
    match expected {
        None => ApiKeyCheck::Disabled,
        Some(k) => {
            if k.is_empty() {
                return ApiKeyCheck::Disabled;
            }
            match extract_bearer(authorization, x_api_key) {
                Some(p) => if str_eq(p.as_str(), k) { ApiKeyCheck::Allowed } else { ApiKeyCheck::Unauthorized },
                None => ApiKeyCheck::Unauthorized,
            }
        },
    }
}

/// `{"ok": false, "error": <error>, "hint": <hint>}`.
pub open spec fn failure_body(error: Seq<char>, hint: Seq<char>) -> JsonView {
    JsonView::Object(seq![
        ("ok"@, JsonView::Bool(false)),
        ("error"@, JsonView::Str(error)),
        ("hint"@, JsonView::Str(hint)),
    ])
}

/// The reply to a request the key check turns away: 503 when the proxy is switched
/// off, 401 when the key is missing or wrong; none when the request may pass.
pub open spec fn auth_failure(c: ApiKeyCheck) -> Option<(u16, JsonView)> {
    match c {
        ApiKeyCheck::Disabled => Some((503u16, failure_body(
            "mcp_public_disabled"@, "Set MCP_API_KEY in sar-stack.env and restart sar-stack"@))),
        ApiKeyCheck::Unauthorized => Some((401u16, failure_body(
            "unauthorized"@, "Send Authorization: Bearer <MCP_API_KEY> or X-API-Key header"@))),
        ApiKeyCheck::Allowed => None,
    }
}

fn failure_json(error: &str, hint: &str) -> (r: JsonValue)
    ensures
        r@ == failure_body(error@, hint@),
{
    let mut m: Vec<JsonMember> = Vec::new();
    m.push((String::from_str("ok"), JsonValue::Bool(false)));
    m.push((String::from_str("error"), JsonValue::Str(String::from_str(error))));
    m.push((String::from_str("hint"), JsonValue::Str(String::from_str(hint))));
    proof {
        lemma_object_view(m);
        reveal_strlit("ok");
        reveal_strlit("error");
        reveal_strlit("hint");
        assert(members_view(m@) =~= seq![
            ("ok"@, JsonView::Bool(false)),
            ("error"@, JsonView::Str(error@)),
            ("hint"@, JsonView::Str(hint@)),
        ]);
    }
    JsonValue::Object(m)
}

/// The status and JSON body for a request the key check turns away (see [`auth_failure`]).
pub fn auth_failure_reply(c: ApiKeyCheck) -> (r: Option<(u16, JsonValue)>)
    ensures
        (match r {
            Some((s, b)) => Some((s, b@)),
            None => None,
        }) == auth_failure(c),
{
    match c {
        ApiKeyCheck::Disabled => Some((503, failure_json(
            "mcp_public_disabled", "Set MCP_API_KEY in sar-stack.env and restart sar-stack"))),
        ApiKeyCheck::Unauthorized => Some((401, failure_json(
            "unauthorized", "Send Authorization: Bearer <MCP_API_KEY> or X-API-Key header"))),
        ApiKeyCheck::Allowed => None,
    }
}

/// The upstream address for a proxied request: the MCP base without trailing `/`,
/// then the request path with its leading `/mcp` removed (`/mcp` itself when
/// nothing is left), then `?` and the query when there is one.
pub open spec fn mcp_target(base: Seq<char>, path: Seq<char>, query: Option<Seq<char>>) -> Seq<char> {
    let b = trim_end_char(base, '/');
    let suffix = if starts_with(path, "/mcp"@) { path.skip(4) } else { path };
    let t = if suffix.len() == 0 { b + "/mcp"@ } else { b + suffix };
    match query {
        Some(q) => t + "?"@ + q,
        None => t,
    }
}

/// See [`mcp_target`].
pub fn mcp_target_url(base: &str, path: &str, query: Option<&str>) -> (r: String)
    ensures
        r@ == mcp_target(base@, path@, opt_chars(query)),
{
    let mut out = trim_end_matches_char(base, '/');
    let ghost b = out@;
    let pc = str_chars(path);
    let pre = str_chars("/mcp");
    proof { reveal_strlit("/mcp"); }
    let suffix = if chars_starts_with(pc.as_slice(), pre.as_slice()) {
        let s = string_of_range(pc.as_slice(), 4, pc.len());
        assert(pc@.subrange(4, pc@.len() as int) =~= path@.skip(4));
        s
    } else {
        string_of_range(pc.as_slice(), 0, pc.len())
    };
    assert(pc@.subrange(0, pc@.len() as int) =~= path@);
    if suffix.as_str().is_empty() {
        push_str(&mut out, "/mcp");
    } else {
        push_str(&mut out, suffix.as_str());
    }
    let ghost t = out@;
    if let Some(q) = query {
        push_str(&mut out, "?");
        push_str(&mut out, q);
    }
    out
}

/// Whether a request header is passed on upstream: all but `host` and
/// `authorization` (header names arrive in lower case).
pub fn forwards_header(name: &str) -> (r: bool)
    ensures
        r == !(name@ == "host"@ || name@ == "authorization"@),
{
    !(str_eq(name, "host") || str_eq(name, "authorization"))
}

} // verus!
