//! What the HTTP front answers: request IDs, the `/infer` response and the `/status` body.

use vstd::prelude::*;
use crate::drone_apply::opt_str_view;
use crate::json::{JsonMember, JsonNumber, JsonNumberView, JsonValue, JsonView, lemma_array_view, lemma_object_view, members_view};
use crate::orchestrator::{Orchestrator, active_command, override_in_effect};
use crate::text::{concat2, string_views, trim, trim_str};
use crate::types::{ApiResponse, CommandOutcome, state_name};

verus! {

/// Lower-case hexadecimal digit.
pub open spec fn is_lower_hex(c: char) -> bool {
    ('0' <= c <= '9') || ('a' <= c <= 'f')
}

/// A random (version 4) UUID in its hyphenated lower-case form, such as
/// `67e55044-10b1-426f-9247-bb680e5fe0c8`.
pub open spec fn is_uuid_v4_text(s: Seq<char>) -> bool {
    &&& s.len() == 36
    &&& forall|i: int| 0 <= i < 36 ==> (#[trigger] s[i] == '-' <==> (i == 8 || i == 13 || i == 18 || i == 23))
    &&& forall|i: int| 0 <= i < 36 && i != 8 && i != 13 && i != 18 && i != 23 ==> is_lower_hex(#[trigger] s[i])
    &&& s[14] == '4'
    &&& (s[19] == '8' || s[19] == '9' || s[19] == 'a' || s[19] == 'b')
}

/// A fresh random request ID: `uuid::Uuid::new_v4()` in its `Display` form (the
/// hyphenated lower-case hex form with the version-4 and variant bits set). Which
/// UUID comes out is chance.
#[verifier::external_body]
fn new_uuid_v4_text() -> (r: String)
    ensures
        is_uuid_v4_text(r@),
{
    uuid::Uuid::new_v4().to_string()
}

/// The request ID of a request: its `x-request-id` header value, trimmed, when that
/// is not empty; else a fresh random UUID.
pub fn pick_request_id(header: Option<&str>) -> (r: String)
    ensures
        match header {
            Some(h) if trim(h@).len() > 0 => r@ == trim(h@),
            _ => is_uuid_v4_text(r@),
        },
{
    match header {
        Some(h) => {
            let t = trim_str(h);
            if t.as_str().is_empty() {
                new_uuid_v4_text()
            } else {
                t
            }
        },
        None => new_uuid_v4_text(),
    }
}

impl ApiResponse {
    /// The response to a command: the gateway's state after it, and what it produced.
    /// `override_active` says whether a manual override is in effect at `now_ms`.
    pub fn from_outcome(o: &Orchestrator, outcome: CommandOutcome, request_id: String, now_ms: u64) -> (r: ApiResponse)
        ensures
            r.state@ == state_name(o.current_state),
            opt_str_view(r.model) == opt_str_view(o.current_model),
            r.override_active == override_in_effect(o.current_state, o.override_until, now_ms),
            r.category == outcome.category,
            r.tool_name == outcome.tool_name,
            r.pending_approval == outcome.pending_approval,
            r.llm_response == outcome.llm_response,
            r.action_taken == outcome.action_taken,
            r.latency_ms == outcome.latency_ms,
            r.llm_latency_ms == outcome.llm_latency_ms,
            r.request_id == request_id,
            r.debug_trace == outcome.trace,
            r.drone_http_status == outcome.drone_http_status,
            r.drone_http_ms == outcome.drone_http_ms,
            r.drone_error == outcome.drone_error,
            r.tool_params == outcome.tool_params,
            r.tools == outcome.tools,
            r.llm_tool_json == outcome.llm_tool_json,
            r.pipeline == outcome.pipeline,
            r.drone_steps == outcome.drone_steps,
            r.model_steps == outcome.model_steps,
    {
        let model = match &o.current_model {
            Some(m) => Some(m.clone()),
            None => None,
        };
        ApiResponse {
            state: String::from_str(o.current_state.name()),
            model,
            override_active: o.override_active(now_ms),
            category: outcome.category,
            tool_name: outcome.tool_name,
            pending_approval: outcome.pending_approval,
            llm_response: outcome.llm_response,
            action_taken: outcome.action_taken,
            latency_ms: outcome.latency_ms,
            llm_latency_ms: outcome.llm_latency_ms,
            request_id,
            debug_trace: outcome.trace,
            drone_http_status: outcome.drone_http_status,
            drone_http_ms: outcome.drone_http_ms,
            drone_error: outcome.drone_error,
            tool_params: outcome.tool_params,
            tools: outcome.tools,
            llm_tool_json: outcome.llm_tool_json,
            pipeline: outcome.pipeline,
            drone_steps: outcome.drone_steps,
            model_steps: outcome.model_steps,
        }
    }

    /// The response to a body that is not a command: state `ERROR`, action
    /// `parse_failed`, and the reader's message.
    pub fn parse_failure(request_id: String, error: &str) -> (r: ApiResponse)
        ensures
            r.state@ == "ERROR"@,
            r.model is None,
            !r.override_active,
            r.category is None && r.tool_name is None,
            !r.pending_approval,
            r.llm_response@ == "invalid payload: "@ + error@,
            r.action_taken@ == "parse_failed"@,
            r.latency_ms == 0 && r.llm_latency_ms == 0,
            r.request_id == request_id,
            string_views(r.debug_trace@) == seq!["stage=parse_infer_payload_failed"@],
            r.drone_http_status is None && r.drone_http_ms is None && r.drone_error is None,
            r.tool_params is None && r.tools is None && r.llm_tool_json is None && r.pipeline is None,
            r.drone_steps@.len() == 0 && r.model_steps@.len() == 0,
    {
        let mut trace: Vec<String> = Vec::new();
        trace.push(String::from_str("stage=parse_infer_payload_failed"));
        assert(string_views(trace@) =~= seq!["stage=parse_infer_payload_failed"@]);
        ApiResponse {
            state: String::from_str("ERROR"),
            model: None,
            override_active: false,
            category: None,
            tool_name: None,
            pending_approval: false,
            llm_response: concat2("invalid payload: ", error),
            action_taken: String::from_str("parse_failed"),
            latency_ms: 0,
            llm_latency_ms: 0,
            request_id,
            debug_trace: trace,
            drone_http_status: None,
            drone_http_ms: None,
            drone_error: None,
            tool_params: None,
            tools: None,
            llm_tool_json: None,
            pipeline: None,
            drone_steps: Vec::new(),
            model_steps: Vec::new(),
        }
    }
}

/// The memory estimate reported by `/status`: 12.5 MB, as `serde_json` writes that number.
pub open spec fn memory_estimate_text() -> Seq<char> {
    "12.5"@
}

/// The `/status` body at time `now_ms`; `override_active` is whether a manual
/// override is in effect then.
pub open spec fn status_body(o: Orchestrator, latency_ms: u64, llm_latency_ms: u64, request_id: Seq<char>, trace: Seq<Seq<char>>, now_ms: u64) -> JsonView {
    JsonView::Object(seq![
        ("state"@, JsonView::Str(state_name(o.current_state))),
        ("model"@, JsonView::Str(match o.current_model { Some(m) => m@, None => "none"@ })),
        ("override_active"@, JsonView::Bool(override_in_effect(o.current_state, o.override_until, now_ms))),
        ("active_command"@, JsonView::Str(active_command(opt_str_view(o.last_command_category), opt_str_view(o.last_command_name)))),
        ("latency_ms"@, JsonView::Number(JsonNumberView::PosInt(latency_ms))),
        ("llm_latency_ms"@, JsonView::Number(JsonNumberView::PosInt(llm_latency_ms))),
        ("memory_estimate_mb"@, JsonView::Number(JsonNumberView::Float(memory_estimate_text()))),
        ("request_id"@, JsonView::Str(request_id)),
        ("debug_trace"@, JsonView::Array(trace.map_values(|l: Seq<char>| JsonView::Str(l)))),
    ])
}

/// The `GET /status` body: state, model, override flag, active command, timings,
/// memory estimate, request ID and trace of the status command, at time `now_ms`.
pub fn status_json(o: &Orchestrator, outcome: &CommandOutcome, request_id: &str, now_ms: u64) -> (r: JsonValue)
    ensures
        r@ == status_body(*o, outcome.latency_ms, outcome.llm_latency_ms, request_id@, string_views(outcome.trace@), now_ms),
{
    let mut lines: Vec<JsonValue> = Vec::new();
    let mut i: usize = 0;
    while i < outcome.trace.len()
        invariant
            i <= outcome.trace@.len(),
            Seq::new(lines@.len(), |j: int| lines@[j]@) == string_views(outcome.trace@).take(i as int).map_values(|l: Seq<char>| JsonView::Str(l)),
        decreases outcome.trace@.len() - i,
    {
        let ghost l0 = Seq::new(lines@.len(), |j: int| lines@[j]@);
        lines.push(JsonValue::Str(outcome.trace[i].clone()));
        assert(Seq::new(lines@.len(), |j: int| lines@[j]@) =~= l0.push(JsonView::Str(outcome.trace@[i as int]@)));
        assert(string_views(outcome.trace@).take(i + 1).map_values(|l: Seq<char>| JsonView::Str(l)) =~=
            string_views(outcome.trace@).take(i as int).map_values(|l: Seq<char>| JsonView::Str(l)).push(JsonView::Str(outcome.trace@[i as int]@)));
        i = i + 1;
    }
    assert(string_views(outcome.trace@).take(outcome.trace@.len() as int) =~= string_views(outcome.trace@));
    proof { lemma_array_view(lines); }
    let mut m: Vec<JsonMember> = Vec::new();
    m.push((String::from_str("state"), JsonValue::Str(String::from_str(o.current_state.name()))));
    m.push((String::from_str("model"), JsonValue::Str(String::from_str(o.effective_model_name()))));
    m.push((String::from_str("override_active"), JsonValue::Bool(o.override_active(now_ms))));
    m.push((String::from_str("active_command"), JsonValue::Str(o.active_command_display())));
    m.push((String::from_str("latency_ms"), JsonValue::Number(JsonNumber::PosInt(outcome.latency_ms))));
    m.push((String::from_str("llm_latency_ms"), JsonValue::Number(JsonNumber::PosInt(outcome.llm_latency_ms))));
    m.push((String::from_str("memory_estimate_mb"), JsonValue::Number(JsonNumber::Float(String::from_str("12.5")))));
    m.push((String::from_str("request_id"), JsonValue::Str(String::from_str(request_id))));
    m.push((String::from_str("debug_trace"), JsonValue::Array(lines)));
    proof { lemma_object_view(m); }
    assert(members_view(m@) =~= status_body(*o, outcome.latency_ms, outcome.llm_latency_ms, request_id@, string_views(outcome.trace@), now_ms)->Object_0);
    JsonValue::Object(m)
}

} // verus!
