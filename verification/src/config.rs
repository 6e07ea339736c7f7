//! URLs and switches for the LLM server, the drone HTTP service, the model server and
//! the camera. The environment is read at the program's edge; each function here
//! takes the value of its variable (`None` when unset) or the base URL it builds on.

use vstd::prelude::*;
use crate::text::{
    chars_ends_with, concat2, ends_with, eq_ignore_ascii_case, parse_u64, parse_u64_str,
    push_str, replace_first, replace_first_str, split_on, split_trim_nonempty, starts_with,
    str_chars, str_eq, str_eq_ignore_ascii_case, string_views, trim_end_char,
    trim_end_matches_char, trimmed_nonempty, chars_starts_with,
};

verus! {

// ---------------------------------------------------------------------------
// Defaults
// ---------------------------------------------------------------------------

/// The value of a variable, or `default` when it is unset.
pub open spec fn or_default(var: Option<Seq<char>>, default: Seq<char>) -> Seq<char> {
    match var {
        Some(v) => v,
        None => default,
    }
}

pub open spec fn opt_view(var: Option<String>) -> Option<Seq<char>> {
    match var {
        Some(v) => Some(v@),
        None => None,
    }
}

fn env_or_default(var: Option<String>, default: &str) -> (r: String)
    ensures
        r@ == or_default(opt_view(var), default@),
{
    match var {
        Some(v) => v,
        None => String::from_str(default),
    }
}

/// Base URL for the OpenAI-compatible server (`LLM_BASE_URL`).
/// Example: `http://127.0.0.1:8080` or `http://127.0.0.1:8080/v1`.
pub fn llm_base_url(var: Option<String>) -> (r: String)
    ensures
        r@ == or_default(opt_view(var), "http://127.0.0.1:8080"@),
{
    env_or_default(var, "http://127.0.0.1:8080")
}

/// OpenAI `model` field for chat completions (`LLM_CHAT_MODEL`, must match the llama-server alias).
pub fn llm_chat_model(var: Option<String>) -> (r: String)
    ensures
        r@ == or_default(opt_view(var), "qwen"@),
{
    env_or_default(var, "qwen")
}

/// Base URL for the drone HTTP service (`DRONE_SERVER_URL`). Default loopback.
pub fn drone_server_base_url(var: Option<String>) -> (r: String)
    ensures
        r@ == or_default(opt_view(var), "http://127.0.0.1:3001"@),
{
    env_or_default(var, "http://127.0.0.1:3001")
}

/// Local MCP SSE server (`MCP_SSE_URL`).
pub fn mcp_sse_base_url(var: Option<String>) -> (r: String)
    ensures
        r@ == or_default(opt_view(var), "http://127.0.0.1:8765"@),
{
    env_or_default(var, "http://127.0.0.1:8765")
}

/// Model server base URL (`MODEL_SERVER_URL`). Default loopback :8000.
pub fn model_server_base_url(var: Option<String>) -> (r: String)
    ensures
        r@ == or_default(opt_view(var), "http://127.0.0.1:8000"@),
{
    env_or_default(var, "http://127.0.0.1:8000")
}

/// Camera / WebRTC signaling base (`CAMERA_SERVER_URL`, else `MODEL_SERVER_URL`, else loopback :8000).
pub fn camera_server_base_url(camera_var: Option<String>, model_var: Option<String>) -> (r: String)
    ensures
        r@ == or_default(opt_view(camera_var), or_default(opt_view(model_var), "http://127.0.0.1:8000"@)),
{
    match camera_var {
        Some(v) => v,
        None => env_or_default(model_var, "http://127.0.0.1:8000"),
    }
}

/// A set, non-empty variable.
pub open spec fn non_empty(var: Option<Seq<char>>) -> Option<Seq<char>> {
    match var {
        Some(v) => if v.len() > 0 { Some(v) } else { None },
        None => None,
    }
}

fn filter_non_empty(var: Option<String>) -> (r: Option<String>)
    ensures
        opt_view(r) == non_empty(opt_view(var)),
{
    match var {
        Some(v) => {
            if v.as_str().is_empty() {
                None
            } else {
                Some(v)
            }
        },
        None => None,
    }
}

/// Bearer / X-API-Key for the authenticated routes (`MCP_API_KEY`); `None` when unset or empty.
pub fn mcp_api_key(var: Option<String>) -> (r: Option<String>)
    ensures
        opt_view(r) == non_empty(opt_view(var)),
{
    filter_non_empty(var)
}

/// Safety token for the SITL end-to-end evaluation (`EVAL_SITL_TOKEN`); `None` when unset or empty.
pub fn eval_sitl_safety_token(var: Option<String>) -> (r: Option<String>)
    ensures
        opt_view(r) == non_empty(opt_view(var)),
{
    filter_non_empty(var)
}

// ---------------------------------------------------------------------------
// URLs built on a base
// ---------------------------------------------------------------------------

/// `base` without trailing slashes, then `path`.
pub open spec fn joined(base: Seq<char>, path: Seq<char>) -> Seq<char> {
    trim_end_char(base, '/') + path
}

fn join_base(base: &str, path: &str) -> (r: String)
    ensures
        r@ == joined(base@, path@),
{
    let mut r = trim_end_matches_char(base, '/');
    push_str(&mut r, path);
    r
}

/// The chat completions URL for an LLM base URL: a base that already ends in
/// `/v1/chat/completions` or `/chat/completions` is used as it is, `/v1` gets
/// `/chat/completions`, anything else gets `/v1/chat/completions`.
pub open spec fn chat_completions_url(base: Seq<char>) -> Seq<char> {
    let b = trim_end_char(base, '/');
    if ends_with(b, "/v1/chat/completions"@) || ends_with(b, "/chat/completions"@) {
        b
    } else if ends_with(b, "/v1"@) {
        b + "/chat/completions"@
    } else {
        b + "/v1/chat/completions"@
    }
}

/// Full URL for `POST .../v1/chat/completions`, from the LLM base URL.
pub fn llm_chat_completions_url(base: &str) -> (r: String)
    ensures
        r@ == chat_completions_url(base@),
{
    let b = trim_end_matches_char(base, '/');
    let bc = str_chars(b.as_str());
    let full = str_chars("/v1/chat/completions");
    let short = str_chars("/chat/completions");
    let v1 = str_chars("/v1");
    if chars_ends_with(bc.as_slice(), full.as_slice()) || chars_ends_with(bc.as_slice(), short.as_slice()) {
        b
    } else if chars_ends_with(bc.as_slice(), v1.as_slice()) {
        concat2(b.as_str(), "/chat/completions")
    } else {
        concat2(b.as_str(), "/v1/chat/completions")
    }
}

pub fn drone_apply_tool_url(base: &str) -> (r: String)
    ensures
        r@ == joined(base@, "/v1/apply-tool"@),
{
    join_base(base, "/v1/apply-tool")
}

pub fn drone_health_url(base: &str) -> (r: String)
    ensures
        r@ == joined(base@, "/health"@),
{
    join_base(base, "/health")
}

/// Latest position from the drone service (for map / UI).
pub fn drone_position_url(base: &str) -> (r: String)
    ensures
        r@ == joined(base@, "/v1/position"@),
{
    join_base(base, "/v1/position")
}

pub fn drone_telemetry_url(base: &str) -> (r: String)
    ensures
        r@ == joined(base@, "/v1/telemetry"@),
{
    join_base(base, "/v1/telemetry")
}

pub fn drone_mission_url(base: &str) -> (r: String)
    ensures
        r@ == joined(base@, "/v1/mission"@),
{
    join_base(base, "/v1/mission")
}

pub fn drone_mission_upload_url(base: &str) -> (r: String)
    ensures
        r@ == joined(base@, "/v1/mission/upload"@),
{
    join_base(base, "/v1/mission/upload")
}

pub fn drone_mission_clear_url(base: &str) -> (r: String)
    ensures
        r@ == joined(base@, "/v1/mission/clear"@),
{
    join_base(base, "/v1/mission/clear")
}

pub fn drone_logs_url(base: &str) -> (r: String)
    ensures
        r@ == joined(base@, "/v1/logs"@),
{
    join_base(base, "/v1/logs")
}

pub fn drone_mavlink_logs_url(base: &str) -> (r: String)
    ensures
        r@ == joined(base@, "/v1/logs/mavlink"@),
{
    join_base(base, "/v1/logs/mavlink")
}

pub fn drone_logs_clear_url(base: &str) -> (r: String)
    ensures
        r@ == joined(base@, "/v1/logs/clear"@),
{
    join_base(base, "/v1/logs/clear")
}

pub fn model_apply_tool_url(base: &str) -> (r: String)
    ensures
        r@ == joined(base@, "/tool"@),
{
    join_base(base, "/tool")
}

/// WebRTC signaling: the browser posts an SDP offer; the camera server answers.
pub fn camera_webrtc_offer_url(camera_base: &str) -> (r: String)
    ensures
        r@ == joined(camera_base@, "/camera/webrtc/offer"@),
{
    join_base(camera_base, "/camera/webrtc/offer")
}

/// The WebSocket form of an HTTP base: the first `https://` becomes `wss://`,
/// then the first `http://` becomes `ws://`, then `path` is appended.
pub open spec fn ws_url(base: Seq<char>, path: Seq<char>) -> Seq<char> {
    let b = trim_end_char(base, '/');
    replace_first(replace_first(b, "https://"@, "wss://"@), "http://"@, "ws://"@) + path
}

fn ws_join(base: &str, path: &str) -> (r: String)
    ensures
        r@ == ws_url(base@, path@),
{
    let b = trim_end_matches_char(base, '/');
    let s1 = replace_first_str(b.as_str(), "https://", "wss://");
    let mut s2 = replace_first_str(s1.as_str(), "http://", "ws://");
    push_str(&mut s2, path);
    s2
}

/// WebSocket logs stream on the drone service (relayed at `/drone/logs/ws`).
pub fn drone_logs_ws_url(base: &str) -> (r: String)
    ensures
        r@ == ws_url(base@, "/v1/ws/logs"@),
{
    ws_join(base, "/v1/ws/logs")
}

/// WebSocket telemetry stream on the drone service (relayed at `/drone/ws`).
pub fn drone_telemetry_ws_url(base: &str) -> (r: String)
    ensures
        r@ == ws_url(base@, "/v1/ws/telemetry"@),
{
    ws_join(base, "/v1/ws/telemetry")
}

/// MJPEG stream on the model server: `CAMERA_STREAM_PATH` when it is an absolute
/// `http://` / `https://` URL, else that path (leading slashes dropped) on the model
/// server base, else `/video/stream` on it.
pub open spec fn stream_url(model_base: Seq<char>, path_var: Option<Seq<char>>) -> Seq<char> {
    let base = trim_end_char(model_base, '/');
    match path_var {
        None => base + "/video/stream"@,
        Some(path) => {
            if starts_with(path, "http://"@) || starts_with(path, "https://"@) {
                path
            } else {
                base + "/"@ + trim_start_char(path, '/')
            }
        },
    }
}

/// `s` with every leading `c` removed.
pub open spec fn trim_start_char(s: Seq<char>, c: char) -> Seq<char>
    decreases s.len(),
{
    if s.len() > 0 && s[0] == c {
        trim_start_char(s.drop_first(), c)
    } else {
        s
    }
}

fn trim_start_matches_char(s: &str, c: char) -> (r: String)
    ensures
        r@ == trim_start_char(s@, c),
{
    let cs = str_chars(s);
    let mut lo: usize = 0;
    assert(cs@.skip(0) =~= cs@);
    while lo < cs.len() && cs[lo] == c
        invariant
            lo <= cs@.len(),
            trim_start_char(cs@, c) == trim_start_char(cs@.skip(lo as int), c),
        decreases cs@.len() - lo,
    {
        assert(cs@.skip(lo as int).drop_first() =~= cs@.skip(lo + 1));
        lo = lo + 1;
    }
    let r = crate::text::string_of_range(cs.as_slice(), lo, cs.len());
    assert(cs@.subrange(lo as int, cs@.len() as int) =~= cs@.skip(lo as int));
    r
}

/// MJPEG stream URL (relayed at `/camera/stream`).
pub fn camera_stream_url(model_base: &str, path_var: Option<String>) -> (r: String)
    ensures
        r@ == stream_url(model_base@, opt_view(path_var)),
{
    let base = trim_end_matches_char(model_base, '/');
    match path_var {
        None => concat2(base.as_str(), "/video/stream"),
        Some(path) => {
            let pc = str_chars(path.as_str());
            let http = str_chars("http://");
            let https = str_chars("https://");
            if chars_starts_with(pc.as_slice(), http.as_slice())
                || chars_starts_with(pc.as_slice(), https.as_slice()) {
                path
            } else {
                let mut r = concat2(base.as_str(), "/");
                let rest = trim_start_matches_char(path.as_str(), '/');
                push_str(&mut r, rest.as_str());
                r
            }
        },
    }
}

// ---------------------------------------------------------------------------
// Switches and numbers
// ---------------------------------------------------------------------------

/// Optional client dispatch time (ms since epoch) from the `x-client-dispatch-ms`
/// header value; correlation only.
pub fn client_dispatch_ms_from_headers(header: Option<&str>) -> (r: Option<u64>)
    ensures
        r == (match header {
            Some(h) => parse_u64(h@),
            None => None,
        }),
{
    match header {
        Some(h) => parse_u64_str(h),
        None => None,
    }
}

/// Drone steps wait for the flight controller's `COMMAND_ACK` unless
/// `DRONE_WAIT_FOR_ACK` is explicitly `0` or `false` (any ASCII case).
pub open spec fn wait_for_ack(var: Option<Seq<char>>) -> bool {
    match var {
        Some(v) => !(v == "0"@ || eq_ignore_ascii_case(v, "false"@)),
        None => true,
    }
}

/// When true, infer/apply waits for the flight controller's ACK on each drone step.
pub fn drone_wait_for_ack_default(var: Option<&str>) -> (r: bool)
    ensures
        r == wait_for_ack(match var { Some(v) => Some(v@), None => None }),
{
    match var {
        Some(v) => !(str_eq(v, "0") || str_eq_ignore_ascii_case(v, "false")),
        None => true,
    }
}

/// ACK timeout in ms (`DRONE_ACK_TIMEOUT_MS`), 3000 when unset or not a `u64`.
pub fn drone_ack_timeout_ms_default(var: Option<&str>) -> (r: u64)
    ensures
        r == (match var {
            Some(v) => match parse_u64(v@) {
                Some(n) => n,
                None => 3000,
            },
            None => 3000,
        }),
{
    match var {
        Some(v) => match parse_u64_str(v) {
            Some(n) => n,
            None => 3000,
        },
        None => 3000,
    }
}

/// Allowed drone base URL prefixes for the SITL evaluation
/// (`EVAL_SITL_DRONE_URL_PREFIXES`, comma-separated; default loopback only).
pub fn eval_sitl_drone_url_prefixes(var: Option<String>) -> (r: Vec<String>)
    ensures
        string_views(r@) == trimmed_nonempty(split_on(
            or_default(opt_view(var), "http://127.0.0.1:3001,http://localhost:3001"@), ',')),
{
    let raw = env_or_default(var, "http://127.0.0.1:3001,http://localhost:3001");
    split_trim_nonempty(raw.as_str(), ',')
}

/// Some prefix in `prefixes` starts `base`.
pub open spec fn url_allowed(base: Seq<char>, prefixes: Seq<Seq<char>>) -> bool {
    exists|i: int| 0 <= i < prefixes.len() && starts_with(base, #[trigger] prefixes[i])
}

/// Whether the drone base URL is one the SITL evaluation may drive.
pub fn eval_sitl_drone_url_allowed(base: &str, prefixes: &Vec<String>) -> (r: bool)
    ensures
        r == url_allowed(base@, string_views(prefixes@)),
{
    let bc = str_chars(base);
    let mut i: usize = 0;
    while i < prefixes.len()
        invariant
            bc@ == base@,
            i <= prefixes@.len(),
            forall|j: int| 0 <= j < i ==> !starts_with(base@, #[trigger] string_views(prefixes@)[j]),
        decreases prefixes@.len() - i,
    {
        let pc = str_chars(prefixes[i].as_str());
        if chars_starts_with(bc.as_slice(), pc.as_slice()) {
            assert(string_views(prefixes@)[i as int] == prefixes@[i as int]@);
            return true;
        }
        i = i + 1;
    }
    false
}

// ---------------------------------------------------------------------------
// Laws of the URL builders
// ---------------------------------------------------------------------------

/// A base URL's trailing slashes do not matter: one more gives the same URLs.
pub proof fn law_trailing_slash_ignored(base: Seq<char>, path: Seq<char>)
    ensures
        joined(base.push('/'), path) == joined(base, path),
        ws_url(base.push('/'), path) == ws_url(base, path),
        chat_completions_url(base.push('/')) == chat_completions_url(base),
{
    assert(base.push('/').drop_last() =~= base);
}

/// Text that does not end in `c` loses nothing to [`trim_end_char`].
pub proof fn lemma_trim_end_char_noop(s: Seq<char>, c: char)
    requires
        s.len() == 0 || s.last() != c,
    ensures
        trim_end_char(s, c) == s,
{
}

/// Removing trailing `c` twice removes no more than once.
pub proof fn lemma_trim_end_char_idempotent(s: Seq<char>, c: char)
    ensures
        trim_end_char(trim_end_char(s, c), c) == trim_end_char(s, c),
        trim_end_char(s, c).len() == 0 || trim_end_char(s, c).last() != c,
    decreases s.len(),
{
    if s.len() > 0 && s.last() == c {
        lemma_trim_end_char_idempotent(s.drop_last(), c);
    }
}

proof fn lemma_ends_with_concat(a: Seq<char>, b: Seq<char>)
    ensures
        ends_with(a + b, b),
{
    assert((a + b).subrange((a + b).len() - b.len(), (a + b).len() as int) =~= b);
}

/// The chat completions URL of a chat completions URL is itself: a base that is
/// already a full endpoint is used as it is.
pub proof fn law_chat_completions_url_stable(base: Seq<char>)
    ensures
        chat_completions_url(chat_completions_url(base)) == chat_completions_url(base),
{
    let b = trim_end_char(base, '/');
    lemma_trim_end_char_idempotent(base, '/');
    let r = chat_completions_url(base);
    reveal_strlit("/v1/chat/completions");
    reveal_strlit("/chat/completions");
    reveal_strlit("/v1");
    if ends_with(b, "/v1/chat/completions"@) || ends_with(b, "/chat/completions"@) {
        assert(r == b);
    } else if ends_with(b, "/v1"@) {
        lemma_ends_with_concat(b, "/chat/completions"@);
        assert(r.last() == 's');
        lemma_trim_end_char_noop(r, '/');
    } else {
        lemma_ends_with_concat(b, "/v1/chat/completions"@);
        assert(r.last() == 's');
        lemma_trim_end_char_noop(r, '/');
    }
}

} // verus!
