//! The drone service's `POST /v1/apply-tool`: what the gateway sends for one drone
//! step and how it reads the reply. The HTTP exchange itself happens at the edge.

use vstd::prelude::*;
use vstd::utf8::encode_utf8;
use crate::drone_params::{normalize_drone_tool_params, normalized_params};
use crate::json::{
    JsonMember, JsonNumber, JsonNumberView, JsonValue, JsonView, find_member, lemma_member_index,
    lemma_object_view, members_view, opt_json_view, json_text_value, parse_json_text, parsed_view,
};
use crate::model_apply::{bool_field, get_bool, get_field, get_str, str_field};
use crate::text::{decimal, push_decimal, push_range, push_str, str_chars, string_views};
use crate::types::ProcessOptions;

verus! {

/// Outcome of one drone step.
#[derive(Debug)]
pub struct DroneApplyResult {
    pub http_status: u16,
    pub elapsed_ms: u64,
    /// The drone service reported `ok: true`.
    pub mavlink_ok: bool,
    pub error_detail: Option<String>,
    pub dispatch_ms: Option<u64>,
    pub ack_wait_ms: Option<u64>,
    pub completion_status: Option<String>,
    pub ack_result: Option<String>,
    /// Trace lines of the exchange, in order.
    pub trace: Vec<String>,
}

/// The non-negative integer member `key`, if it is one (as `as_u64`).
pub open spec fn u64_field(v: JsonView, key: Seq<char>) -> Option<u64> {
    match get_field(v, key) {
        Some(JsonView::Number(JsonNumberView::PosInt(u))) => Some(u),
        _ => None,
    }
}

/// Reads the member `key` of `v` as a non-negative integer.
pub fn get_u64(v: &JsonValue, key: &str) -> (r: Option<u64>)
    ensures
        r == u64_field(v@, key@),
{
    match v {
        JsonValue::Object(m) => {
            proof { lemma_object_view(*m); lemma_member_index(members_view(m@), key@); }
            match find_member(m, key) {
                Some(i) => match &m[i].1 {
                    JsonValue::Number(JsonNumber::PosInt(u)) => Some(*u),
                    _ => None,
                },
                None => None,
            }
        },
        _ => None,
    }
}

pub open spec fn opt_str_view(o: Option<String>) -> Option<Seq<char>> {
    match o {
        Some(s) => Some(s@),
        None => None,
    }
}

/// The arguments sent with a step: its normalized arguments when they are an
/// object, else an empty object.
pub open spec fn request_params(tool: Seq<char>, params: Option<JsonView>) -> JsonView {
    match normalized_params(tool, params) {
        Some(JsonView::Object(m)) => JsonView::Object(m),
        _ => JsonView::Object(seq![]),
    }
}

/// The JSON body for one drone step: `tool`, `params`, `step_id`, and, when
/// waiting for the flight controller's ACK, `wait_for: "ack"` and `ack_timeout_ms`.
pub open spec fn request_body(tool: Seq<char>, params: Option<JsonView>, step_id: Seq<char>, options: ProcessOptions) -> JsonView {
    let base = seq![
        ("tool"@, JsonView::Str(tool)),
        ("params"@, request_params(tool, params)),
        ("step_id"@, JsonView::Str(step_id)),
    ];
    if options.wait_for_drone_ack {
        JsonView::Object(base + seq![
            ("wait_for"@, JsonView::Str("ack"@)),
            ("ack_timeout_ms"@, JsonView::Number(JsonNumberView::PosInt(options.ack_timeout_ms))),
        ])
    } else {
        JsonView::Object(base)
    }
}

/// Builds the request body of one drone step (see [`request_body`]).
pub fn drone_apply_body(tool: &str, params: Option<JsonValue>, step_id: &str, options: ProcessOptions) -> (r: JsonValue)
    ensures
        r@ == request_body(tool@, opt_json_view(params), step_id@, options),
{
    let normalized = normalize_drone_tool_params(tool, params);
    let p = match normalized {
        Some(JsonValue::Object(m)) => {
            proof { lemma_object_view(m); }
            JsonValue::Object(m)
        },
        _ => {
            let m: Vec<JsonMember> = Vec::new();
            proof { lemma_object_view(m); }
            assert(members_view(m@) =~= Seq::<(Seq<char>, JsonView)>::empty());
            JsonValue::Object(m)
        },
    };
    let ghost pv = p@;
    let mut body: Vec<JsonMember> = Vec::new();
    body.push((String::from_str("tool"), JsonValue::Str(String::from_str(tool))));
    body.push((String::from_str("params"), p));
    body.push((String::from_str("step_id"), JsonValue::Str(String::from_str(step_id))));
    if options.wait_for_drone_ack {
        body.push((String::from_str("wait_for"), JsonValue::Str(String::from_str("ack"))));
        body.push((String::from_str("ack_timeout_ms"), JsonValue::Number(JsonNumber::PosInt(options.ack_timeout_ms))));
    }
    proof { lemma_object_view(body); }
    assert(members_view(body@) =~= request_body(tool@, opt_json_view(params), step_id@, options)->Object_0);
    JsonValue::Object(body)
}

/// Seconds the gateway waits for the drone service: 30, plus the ACK timeout when waiting for it.
pub fn drone_http_timeout_secs(options: ProcessOptions) -> (r: u64)
    ensures
        r == (if options.wait_for_drone_ack { 30 + options.ack_timeout_ms / 1000 } else { 30 }),
{
    if options.wait_for_drone_ack {
        30 + options.ack_timeout_ms / 1000
    } else {
        30
    }
}

/// The first `n` characters of `s` (as `s.chars().take(n)`).
pub open spec fn prefix_chars(s: Seq<char>, n: nat) -> Seq<char> {
    if s.len() <= n { s } else { s.take(n as int) }
}

/// Appends at most `n` leading characters of `s`.
pub fn push_prefix(out: &mut String, s: &str, n: usize)
    ensures
        final(out)@ == old(out)@ + prefix_chars(s@, n as nat),
{
    let cs = str_chars(s);
    let k = if cs.len() <= n { cs.len() } else { n };
    push_range(out, cs.as_slice(), 0, k);
    assert(cs@.subrange(0, k as int) =~= prefix_chars(s@, n as nat));
}

/// The reading of a drone reply that parsed as JSON: ok when `ok` is `true`;
/// otherwise the detail `drone_server_http={status} error={error}` (the `error`
/// string, or `ok=false without error field`).
pub open spec fn reply_error_detail(status: u16, v: JsonView) -> Seq<char> {
    let err = match str_field(v, "error"@) {
        Some(e) => e,
        None => "ok=false without error field"@,
    };
    "drone_server_http="@ + decimal(status as nat) + " error="@ + err
}

/// The reading of a drone service reply with status `http_status` and body
/// `body_text`, whose JSON reading is `parsed` (or the reader's message).
pub open spec fn drone_reply_read(
    r: DroneApplyResult,
    http_status: u16,
    elapsed_ms: u64,
    body_text: Seq<char>,
    parsed: Result<JsonView, Seq<char>>,
) -> bool {
    &&& r.http_status == http_status
    &&& r.elapsed_ms == elapsed_ms
    &&& match parsed {
        Ok(v) => {
            &&& r.mavlink_ok == (bool_field(v, "ok"@) == Some(true))
            &&& r.dispatch_ms == u64_field(v, "dispatch_ms"@)
            &&& r.ack_wait_ms == u64_field(v, "ack_wait_ms"@)
            &&& opt_str_view(r.completion_status) == str_field(v, "completion_status"@)
            &&& opt_str_view(r.ack_result) == str_field(v, "ack_result"@)
            &&& r.mavlink_ok ==> r.error_detail is None
            &&& !r.mavlink_ok ==> opt_str_view(r.error_detail) == Some(reply_error_detail(http_status, v))
        },
        Err(e) => {
            &&& !r.mavlink_ok
            &&& r.dispatch_ms is None && r.ack_wait_ms is None
            &&& r.completion_status is None && r.ack_result is None
            &&& opt_str_view(r.error_detail) == Some("drone_server_bad_json http="@ + decimal(http_status as nat)
                + " err="@ + e + " body_prefix="@ + prefix_chars(body_text, 200))
        },
    }
}

/// Reads a drone service reply (status, body text, and the body's JSON reading),
/// see [`drone_reply_read`].
pub fn drone_reply_from_parsed(
    http_status: u16,
    elapsed_ms: u64,
    body_text: &str,
    parsed: Result<JsonValue, String>,
    trace: Vec<String>,
) -> (r: DroneApplyResult)
    ensures
        drone_reply_read(r, http_status, elapsed_ms, body_text@, parsed_view(parsed)),
        r.trace@ == trace@,
{
    match parsed {
        Ok(v) => {
            let ok = match get_bool(&v, "ok") {
                Some(b) => b,
                None => false,
            };
            let dispatch_ms = get_u64(&v, "dispatch_ms");
            let ack_wait_ms = get_u64(&v, "ack_wait_ms");
            let completion_status = get_str(&v, "completion_status");
            let ack_result = get_str(&v, "ack_result");
            let error_detail = if ok {
                None
            } else {
                let err = match get_str(&v, "error") {
                    Some(e) => e,
                    None => String::from_str("ok=false without error field"),
                };
                let mut d = String::new();
                push_str(&mut d, "drone_server_http=");
                push_decimal(&mut d, http_status as u64);
                push_str(&mut d, " error=");
                push_str(&mut d, err.as_str());
                assert(d@ =~= reply_error_detail(http_status, v@));
                Some(d)
            };
            DroneApplyResult {
                http_status,
                elapsed_ms,
                mavlink_ok: ok,
                error_detail,
                dispatch_ms,
                ack_wait_ms,
                completion_status,
                ack_result,
                trace,
            }
        },
        Err(e) => {
            let mut d = String::new();
            push_str(&mut d, "drone_server_bad_json http=");
            push_decimal(&mut d, http_status as u64);
            push_str(&mut d, " err=");
            push_str(&mut d, e.as_str());
            push_str(&mut d, " body_prefix=");
            push_prefix(&mut d, body_text, 200);
            assert(d@ =~= "drone_server_bad_json http="@ + decimal(http_status as nat) + " err="@ + e@
                + " body_prefix="@ + prefix_chars(body_text@, 200));
            DroneApplyResult {
                http_status,
                elapsed_ms,
                mavlink_ok: false,
                error_detail: Some(d),
                dispatch_ms: None,
                ack_wait_ms: None,
                completion_status: None,
                ack_result: None,
                trace,
            }
        },
    }
}

/// The trace line that opens a drone step.
pub open spec fn drone_begin_line(tool: Seq<char>, step_id: Seq<char>, url: Seq<char>) -> Seq<char> {
    "stage=drone_http_begin tool="@ + tool + " step_id="@ + step_id + " url="@ + url
}

/// The trace line of a drone reply: its status and its length in UTF-8 bytes.
pub open spec fn drone_response_line(tool: Seq<char>, status: u16, body: Seq<char>) -> Seq<char> {
    "stage=drone_http_response tool="@ + tool + " status="@ + decimal(status as nat)
        + " body_len="@ + decimal((encode_utf8(body).len() as usize) as nat)
}

fn begin_line(tool: &str, step_id: &str, url: &str) -> (r: String)
    ensures
        r@ == drone_begin_line(tool@, step_id@, url@),
{
    let mut l = String::from_str("stage=drone_http_begin tool=");
    push_str(&mut l, tool);
    push_str(&mut l, " step_id=");
    push_str(&mut l, step_id);
    push_str(&mut l, " url=");
    push_str(&mut l, url);
    l
}

/// Reads the reply of drone step `step_id` (tool `tool`, sent to `url`) from its
/// status and body text; the body is read as JSON with `serde_json` (see
/// [`drone_reply_read`]). The trace is the step's opening line and the reply's line.
pub fn drone_reply_result(
    tool: &str,
    step_id: &str,
    url: &str,
    http_status: u16,
    elapsed_ms: u64,
    body_text: &str,
) -> (r: DroneApplyResult)
    ensures
        drone_reply_read(r, http_status, elapsed_ms, body_text@, json_text_value(body_text@)),
        string_views(r.trace@) == seq![
            drone_begin_line(tool@, step_id@, url@),
            drone_response_line(tool@, http_status, body_text@),
        ],
{
    let mut trace: Vec<String> = Vec::new();
    trace.push(begin_line(tool, step_id, url));
    let mut l = String::from_str("stage=drone_http_response tool=");
    push_str(&mut l, tool);
    push_str(&mut l, " status=");
    push_decimal(&mut l, http_status as u64);
    push_str(&mut l, " body_len=");
    push_decimal(&mut l, body_text.len() as u64);
    trace.push(l);
    assert(string_views(trace@) =~= seq![
        drone_begin_line(tool@, step_id@, url@),
        drone_response_line(tool@, http_status, body_text@),
    ]);
    let parsed = parse_json_text(body_text);
    drone_reply_from_parsed(http_status, elapsed_ms, body_text, parsed, trace)
}

/// The result of drone step `step_id` (tool `tool`, sent to `url`) whose HTTP
/// exchange failed before a reply; its trace is the step's opening line.
pub fn drone_transport_failure(tool: &str, step_id: &str, url: &str, elapsed_ms: u64, error: &str) -> (r: DroneApplyResult)
    ensures
        r.http_status == 0,
        r.elapsed_ms == elapsed_ms,
        !r.mavlink_ok,
        opt_str_view(r.error_detail) == Some("drone_http_transport: "@ + error@),
        r.dispatch_ms is None && r.ack_wait_ms is None,
        r.completion_status is None && r.ack_result is None,
        string_views(r.trace@) == seq![drone_begin_line(tool@, step_id@, url@)],
{
    let mut trace: Vec<String> = Vec::new();
    trace.push(begin_line(tool, step_id, url));
    assert(string_views(trace@) =~= seq![drone_begin_line(tool@, step_id@, url@)]);
    let mut d = String::new();
    push_str(&mut d, "drone_http_transport: ");
    push_str(&mut d, error);
    assert(d@ =~= "drone_http_transport: "@ + error@);
    DroneApplyResult {
        http_status: 0,
        elapsed_ms,
        mavlink_ok: false,
        error_detail: Some(d),
        dispatch_ms: None,
        ack_wait_ms: None,
        completion_status: None,
        ack_result: None,
        trace,
    }
}

} // verus!
