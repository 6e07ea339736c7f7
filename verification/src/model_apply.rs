//! Model tools forwarded to the model server's `POST /tool` (vision inference).

use vstd::prelude::*;
use vstd::utf8::encode_utf8;
use crate::json::{JsonMember, JsonValue, JsonView, json_text_value, parse_json_text, parsed_view, find_member, lemma_member_index, lemma_object_view, member_get, members_view};
use crate::text::{concat2, decimal, push_decimal, push_str, str_eq, string_views};

verus! {

/// The model server's tool for a gateway model tool.
pub open spec fn model_tool_for(name: Seq<char>) -> Option<Seq<char>> {
    if name == "human_detect"@ {
        Some("detect_human"@)
    } else if name == "flood_seg"@ || name == "flood_class"@ {
        Some("detect_flood"@)
    } else {
        None
    }
}

/// Map SAR router model tool names to the model server's tool ids.
pub fn map_gateway_model_tool(name: &str) -> (r: Option<&'static str>)
    ensures
        match r {
            Some(t) => model_tool_for(name@) == Some(t@),
            None => model_tool_for(name@) is None,
        },
{
    if str_eq(name, "human_detect") {
        Some("detect_human")
    } else if str_eq(name, "flood_seg") || str_eq(name, "flood_class") {
        Some("detect_flood")
    } else {
        None
    }
}

/// Outcome of one model server call.
#[derive(Debug)]
pub struct ModelApplyResult {
    pub http_status: u16,
    /// Gateway to model server wall time (includes synchronous inference).
    pub elapsed_ms: u64,
    pub ok: bool,
    pub error_detail: Option<String>,
    /// Model-reported inference latency when present in the reply.
    pub inference_ms: Option<u64>,
    /// The model server was busy and skipped the request.
    pub skipped: bool,
}

/// The result for a model tool the model server does not know; the trace gets
/// `stage=model_http_unknown_tool name={tool}`.
pub fn unknown_model_tool_result(gateway_tool: &str, trace: &mut Vec<String>) -> (r: ModelApplyResult)
    ensures
        r.http_status == 0,
        r.elapsed_ms == 0,
        !r.ok,
        r.error_detail is Some && r.error_detail->0@ == "unknown model tool: "@ + gateway_tool@,
        r.inference_ms is None,
        !r.skipped,
        string_views(final(trace)@) == string_views(old(trace)@).push("stage=model_http_unknown_tool name="@ + gateway_tool@),
{
    let ghost t0 = string_views(trace@);
    trace.push(concat2("stage=model_http_unknown_tool name=", gateway_tool));
    assert(string_views(trace@) =~= t0.push("stage=model_http_unknown_tool name="@ + gateway_tool@));
    ModelApplyResult {
        http_status: 0,
        elapsed_ms: 0,
        ok: false,
        error_detail: Some(concat2("unknown model tool: ", gateway_tool)),
        inference_ms: None,
        skipped: false,
    }
}

/// The request for a gateway model tool, to be sent to `url`: `{"tool": <model
/// server tool>}`, with the trace line `stage=model_http_begin ...`; a tool the
/// model server does not know gives its failed result instead.
pub fn model_call_body(gateway_tool: &str, url: &str, trace: &mut Vec<String>) -> (r: Result<JsonValue, ModelApplyResult>)
    ensures
        match model_tool_for(gateway_tool@) {
            Some(m) => {
                &&& r matches Ok(b) && b@ == JsonView::Object(seq![("tool"@, JsonView::Str(m))])
                &&& string_views(final(trace)@) == string_views(old(trace)@).push(
                    "stage=model_http_begin tool="@ + gateway_tool@ + " model_tool="@ + m + " url="@ + url@)
            },
            None => {
                &&& r matches Err(e) && !e.ok && e.http_status == 0 && e.elapsed_ms == 0
                    && e.inference_ms is None && !e.skipped
                    && e.error_detail is Some && e.error_detail->0@ == "unknown model tool: "@ + gateway_tool@
                &&& string_views(final(trace)@) == string_views(old(trace)@).push("stage=model_http_unknown_tool name="@ + gateway_tool@)
            },
        },
{
    match map_gateway_model_tool(gateway_tool) {
        None => Err(unknown_model_tool_result(gateway_tool, trace)),
        Some(m) => {
            let ghost t0 = string_views(trace@);
            let mut l = concat2("stage=model_http_begin tool=", gateway_tool);
            push_str(&mut l, " model_tool=");
            push_str(&mut l, m);
            push_str(&mut l, " url=");
            push_str(&mut l, url);
            trace.push(l);
            assert(string_views(trace@) =~= t0.push(
                "stage=model_http_begin tool="@ + gateway_tool@ + " model_tool="@ + m@ + " url="@ + url@));
            let mut body: Vec<JsonMember> = Vec::new();
            body.push((String::from_str("tool"), JsonValue::Str(String::from_str(m))));
            proof {
                lemma_object_view(body);
                reveal_strlit("tool");
                assert(members_view(body@) =~= seq![("tool"@, JsonView::Str(m@))]);
            }
            Ok(JsonValue::Object(body))
        },
    }
}

/// The result of a model call whose HTTP exchange failed before a reply; the trace
/// gets `stage=model_http_transport_failed err={error}`.
pub fn model_transport_failure(elapsed_ms: u64, error: &str, trace: &mut Vec<String>) -> (r: ModelApplyResult)
    ensures
        r.http_status == 0,
        r.elapsed_ms == elapsed_ms,
        !r.ok && !r.skipped && r.inference_ms is None,
        r.error_detail is Some && r.error_detail->0@ == "model_http_transport: "@ + error@,
        string_views(final(trace)@) == string_views(old(trace)@).push("stage=model_http_transport_failed err="@ + error@),
{
    let ghost t0 = string_views(trace@);
    trace.push(concat2("stage=model_http_transport_failed err=", error));
    assert(string_views(trace@) =~= t0.push("stage=model_http_transport_failed err="@ + error@));
    ModelApplyResult {
        http_status: 0,
        elapsed_ms,
        ok: false,
        error_detail: Some(concat2("model_http_transport: ", error)),
        inference_ms: None,
        skipped: false,
    }
}

/// The member `key` of an object value.
pub open spec fn get_field(v: JsonView, key: Seq<char>) -> Option<JsonView> {
    match v {
        JsonView::Object(m) => member_get(m, key),
        _ => None,
    }
}

/// The boolean member `key`, if it is one.
pub open spec fn bool_field(v: JsonView, key: Seq<char>) -> Option<bool> {
    match get_field(v, key) {
        Some(JsonView::Bool(b)) => Some(b),
        _ => None,
    }
}

/// The string member `key`, if it is one.
pub open spec fn str_field(v: JsonView, key: Seq<char>) -> Option<Seq<char>> {
    match get_field(v, key) {
        Some(JsonView::Str(s)) => Some(s),
        _ => None,
    }
}

/// Reads the member `key` of `v` as a boolean.
pub fn get_bool(v: &JsonValue, key: &str) -> (r: Option<bool>)
    ensures
        r == bool_field(v@, key@),
{
    match v {
        JsonValue::Object(m) => {
            proof { lemma_object_view(*m); lemma_member_index(members_view(m@), key@); }
            match find_member(m, key) {
                Some(i) => match &m[i].1 {
                    JsonValue::Bool(b) => Some(*b),
                    _ => None,
                },
                None => None,
            }
        },
        _ => None,
    }
}

/// Reads the member `key` of `v` as a string.
pub fn get_str(v: &JsonValue, key: &str) -> (r: Option<String>)
    ensures
        match r {
            Some(s) => str_field(v@, key@) == Some(s@),
            None => str_field(v@, key@) is None,
        },
{
    match v {
        JsonValue::Object(m) => {
            proof { lemma_object_view(*m); lemma_member_index(members_view(m@), key@); }
            match find_member(m, key) {
                Some(i) => match &m[i].1 {
                    JsonValue::Str(s) => Some(s.clone()),
                    _ => None,
                },
                None => None,
            }
        },
        _ => None,
    }
}

/// The reading of a model server reply with status `http_status` whose body reads
/// as `body` (or the JSON reader's message), with `inference_ms` taken from it:
/// `skipped: true` means busy (ok, skipped); an `error` string means failure with
/// that detail; otherwise ok is a 2xx status. A body that is not JSON is a
/// failure `model_http_bad_json: {error}`.
pub open spec fn model_reply_read(
    r: ModelApplyResult,
    http_status: u16,
    elapsed_ms: u64,
    body: Result<JsonView, Seq<char>>,
    inference_ms: Option<u64>,
) -> bool {
    &&& r.http_status == http_status
    &&& r.elapsed_ms == elapsed_ms
    &&& match body {
        Err(e) => !r.ok && !r.skipped && r.inference_ms is None
            && r.error_detail is Some && r.error_detail->0@ == "model_http_bad_json: "@ + e,
        Ok(v) => r.inference_ms == inference_ms && if bool_field(v, "skipped"@) == Some(true) {
            r.ok && r.skipped && r.error_detail is None
        } else if str_field(v, "error"@) is Some {
            !r.ok && !r.skipped && r.error_detail is Some && r.error_detail->0@ == str_field(v, "error"@)->0
        } else {
            r.ok == (200 <= http_status < 300) && !r.skipped && r.error_detail is None
        },
    }
}

/// Reads a model server reply whose body was read as `body` (see [`model_reply_read`]).
pub fn model_reply_from_parsed(
    http_status: u16,
    elapsed_ms: u64,
    body: Result<JsonValue, String>,
    inference_ms: Option<u64>,
) -> (r: ModelApplyResult)
    ensures
        model_reply_read(r, http_status, elapsed_ms, parsed_view(body), inference_ms),
{
    match body {
        Err(e) => ModelApplyResult {
            http_status,
            elapsed_ms,
            ok: false,
            error_detail: Some(concat2("model_http_bad_json: ", e.as_str())),
            inference_ms: None,
            skipped: false,
        },
        Ok(v) => {
            let skipped = match get_bool(&v, "skipped") {
                Some(b) => b,
                None => false,
            };
            if skipped {
                return ModelApplyResult {
                    http_status,
                    elapsed_ms,
                    ok: true,
                    error_detail: None,
                    inference_ms,
                    skipped: true,
                };
            }
            match get_str(&v, "error") {
                Some(err) => ModelApplyResult {
                    http_status,
                    elapsed_ms,
                    ok: false,
                    error_detail: Some(err),
                    inference_ms,
                    skipped: false,
                },
                None => ModelApplyResult {
                    http_status,
                    elapsed_ms,
                    ok: http_status >= 200 && http_status < 300,
                    error_detail: None,
                    inference_ms,
                    skipped: false,
                },
            }
        },
    }
}

/// The trace lines of a model reply: its status and length in UTF-8 bytes; then,
/// for a JSON body, the inference time when there is one and `busy` when the
/// server skipped the request.
pub open spec fn model_reply_lines(gateway_tool: Seq<char>, status: u16, body: Seq<char>,
    parsed: Result<JsonView, Seq<char>>, inference_ms: Option<u64>) -> Seq<Seq<char>>
{
    let first = seq!["stage=model_http_response tool="@ + gateway_tool + " status="@ + decimal(status as nat)
        + " body_len="@ + decimal((encode_utf8(body).len() as usize) as nat)];
    match parsed {
        Err(_) => first,
        Ok(v) => first
            + (match inference_ms { Some(i) => seq!["stage=model_inference_ms ms="@ + decimal(i as nat)], None => seq![] })
            + (if bool_field(v, "skipped"@) == Some(true) { seq!["stage=model_http_skipped busy"@] } else { seq![] }),
    }
}

/// Reads the model server's reply to `gateway_tool` from its status and body text;
/// the body is read as JSON with `serde_json`. `inference_ms` is the inference
/// time the edge read from the same body (see [`model_reply_read`] and
/// [`model_reply_lines`]).
pub fn model_reply_result(
    gateway_tool: &str,
    http_status: u16,
    elapsed_ms: u64,
    body_text: &str,
    inference_ms: Option<u64>,
    trace: &mut Vec<String>,
) -> (r: ModelApplyResult)
    ensures
        model_reply_read(r, http_status, elapsed_ms, json_text_value(body_text@), inference_ms),
        string_views(final(trace)@) == string_views(old(trace)@)
            + model_reply_lines(gateway_tool@, http_status, body_text@, json_text_value(body_text@), inference_ms),
{
    let ghost t0 = string_views(trace@);
    let mut l = concat2("stage=model_http_response tool=", gateway_tool);
    push_str(&mut l, " status=");
    push_decimal(&mut l, http_status as u64);
    push_str(&mut l, " body_len=");
    push_decimal(&mut l, body_text.len() as u64);
    trace.push(l);
    let parsed = parse_json_text(body_text);
    let ghost pv = parsed_view(parsed);
    let ghost t1 = string_views(trace@);
    assert(t1 =~= t0 + seq!["stage=model_http_response tool="@ + gateway_tool@ + " status="@ + decimal(http_status as nat)
        + " body_len="@ + decimal((encode_utf8(body_text@).len() as usize) as nat)]);
    if let Ok(v) = &parsed {
        if let Some(inf) = inference_ms {
            let mut m = String::from_str("stage=model_inference_ms ms=");
            push_decimal(&mut m, inf);
            trace.push(m);
        }
        let ghost t2 = string_views(trace@);
        assert(t2 =~= t1 + (match inference_ms { Some(i) => seq!["stage=model_inference_ms ms="@ + decimal(i as nat)], None => seq![] }));
        let skipped = match get_bool(v, "skipped") {
            Some(b) => b,
            None => false,
        };
        if skipped {
            trace.push(String::from_str("stage=model_http_skipped busy"));
        }
        assert(string_views(trace@) =~= t2
            + (if bool_field(v@, "skipped"@) == Some(true) { seq!["stage=model_http_skipped busy"@] } else { seq![] }));
    }
    model_reply_from_parsed(http_status, elapsed_ms, parsed, inference_ms)
}

} // verus!
