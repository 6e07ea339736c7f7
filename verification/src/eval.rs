//! Benchmark endpoints: the LLM decision summary (`/eval`) and the admission of the SITL
//! end-to-end run (`/eval/e2e`).

use vstd::prelude::*;
use crate::drone_params::{normalize_drone_tasks, normalized_task, tasks_display, tasks_display_json};
use crate::json::json_text;
use crate::llm::{
    LlmToolPayload, PayloadView, ToolParseError, ToolParseErrorView, normalize_none_reason,
    normalized_reason, parse_error_message,
};
use crate::mcp_proxy::opt_chars;
use crate::text::str_eq;
use crate::types::{ProcessOptions, ToolCall, ToolCallView, copy_tool_calls, tool_calls_view};

verus! {

/// Body of `POST /eval`.
#[derive(Debug)]
pub struct EvalRequest {
    pub prompt: String,
}

/// Body of `POST /eval/e2e`.
#[derive(Debug)]
pub struct EvalE2eRequest {
    pub prompt: String,
    pub target: String,
    pub wait_for: String,
    pub ack_timeout_ms: Option<u64>,
    pub safety_token: String,
}

/// Why an end-to-end evaluation request is turned away.
#[derive(Debug)]
pub struct EvalRejection {
    /// HTTP status of the reply.
    pub status: u16,
    pub action_taken: String,
    pub drone_error: String,
}

/// The admission of an end-to-end run. Checked in order: the request must target `sitl`
/// and wait for `ack` (else 400); its safety token must equal the configured one,
/// which must be set (else 403); the drone base URL must be an allowed SITL one
/// (else 403). A request that passes runs with ACK wait and its own timeout, or
/// the default one.
pub open spec fn e2e_admission(
    target: Seq<char>,
    wait_for: Seq<char>,
    ack_timeout_ms: Option<u64>,
    token: Seq<char>,
    expected_token: Option<Seq<char>>,
    drone_url_allowed: bool,
    default_ack_timeout_ms: u64,
) -> Result<ProcessOptions, (u16, Seq<char>, Seq<char>)> {
    if target != "sitl"@ || wait_for != "ack"@ {
        Err((400u16, "eval_e2e_invalid_request"@, "target must be sitl and wait_for must be ack"@))
    } else if expected_token != Some(token) {
        Err((403u16, "eval_e2e_forbidden"@, "EVAL_SITL_TOKEN mismatch or unset on gateway"@))
    } else if !drone_url_allowed {
        Err((403u16, "eval_e2e_drone_url_not_allowed"@, "DRONE_SERVER_URL not in EVAL_SITL_DRONE_URL_PREFIXES"@))
    } else {
        Ok(ProcessOptions {
            wait_for_drone_ack: true,
            ack_timeout_ms: match ack_timeout_ms {
                Some(t) => t,
                None => default_ack_timeout_ms,
            },
        })
    }
}

fn rejection(status: u16, action_taken: &str, drone_error: &str) -> (r: EvalRejection)
    ensures
        r.status == status,
        r.action_taken@ == action_taken@,
        r.drone_error@ == drone_error@,
{
    EvalRejection {
        status,
        action_taken: String::from_str(action_taken),
        drone_error: String::from_str(drone_error),
    }
}

/// Decides whether an end-to-end evaluation may run (see [`e2e_admission`]).
/// `expected_token` is `EVAL_SITL_TOKEN` (unset or empty: `None`),
/// `drone_url_allowed` whether the drone base URL has an allowed prefix.
pub fn eval_e2e_admit(
    req: &EvalE2eRequest,
    expected_token: Option<&str>,
    drone_url_allowed: bool,
    default_ack_timeout_ms: u64,
) -> (r: Result<ProcessOptions, EvalRejection>)
    ensures
        (match r {
            Ok(o) => Ok(o),
            Err(e) => Err((e.status, e.action_taken@, e.drone_error@)),
        }) == e2e_admission(req.target@, req.wait_for@, req.ack_timeout_ms, req.safety_token@,
            opt_chars(expected_token), drone_url_allowed, default_ack_timeout_ms),
{
    if !str_eq(req.target.as_str(), "sitl") || !str_eq(req.wait_for.as_str(), "ack") {
        return Err(rejection(400, "eval_e2e_invalid_request", "target must be sitl and wait_for must be ack"));
    }
    let token_ok = match expected_token {
        Some(t) => str_eq(t, req.safety_token.as_str()),
        None => false,
    };
    if !token_ok {
        return Err(rejection(403, "eval_e2e_forbidden", "EVAL_SITL_TOKEN mismatch or unset on gateway"));
    }
    if !drone_url_allowed {
        return Err(rejection(403, "eval_e2e_drone_url_not_allowed", "DRONE_SERVER_URL not in EVAL_SITL_DRONE_URL_PREFIXES"));
    }
    Ok(ProcessOptions {
        wait_for_drone_ack: true,
        ack_timeout_ms: match req.ack_timeout_ms {
            Some(t) => t,
            None => default_ack_timeout_ms,
        },
    })
}

/// What `/eval` reports of one LLM decision. `llm_tool_json_raw` and `llm_tool_json`
/// show the decided steps as JSON text, before and after drone arguments are
/// normalized.
#[derive(Debug)]
pub struct EvalSummary {
    pub json_valid: bool,
    pub parse_error: Option<String>,
    pub llm_tool_json_raw: Option<String>,
    pub llm_tool_json: Option<String>,
    pub tasks_raw: Option<Vec<ToolCall>>,
    pub tasks: Option<Vec<ToolCall>>,
    pub none_reason: Option<String>,
    pub action_taken: String,
}

pub struct EvalSummaryView {
    pub json_valid: bool,
    pub parse_error: Option<Seq<char>>,
    pub llm_tool_json_raw: Option<Seq<char>>,
    pub llm_tool_json: Option<Seq<char>>,
    pub tasks_raw: Option<Seq<ToolCallView>>,
    pub tasks: Option<Seq<ToolCallView>>,
    pub none_reason: Option<Seq<char>>,
    pub action_taken: Seq<char>,
}

pub open spec fn opt_text(o: Option<String>) -> Option<Seq<char>> {
    match o {
        Some(s) => Some(s@),
        None => None,
    }
}

pub open spec fn opt_calls(o: Option<Vec<ToolCall>>) -> Option<Seq<ToolCallView>> {
    match o {
        Some(v) => Some(tool_calls_view(v@)),
        None => None,
    }
}

impl View for EvalSummary {
    type V = EvalSummaryView;

    open spec fn view(&self) -> EvalSummaryView {
        EvalSummaryView {
            json_valid: self.json_valid,
            parse_error: opt_text(self.parse_error),
            llm_tool_json_raw: opt_text(self.llm_tool_json_raw),
            llm_tool_json: opt_text(self.llm_tool_json),
            tasks_raw: opt_calls(self.tasks_raw),
            tasks: opt_calls(self.tasks),
            none_reason: opt_text(self.none_reason),
            action_taken: self.action_taken@,
        }
    }
}

/// A summary of a decision that produced no plan.
pub open spec fn failed_summary(action: Seq<char>, err: Option<Seq<char>>) -> EvalSummaryView {
    EvalSummaryView {
        json_valid: false,
        parse_error: err,
        llm_tool_json_raw: None,
        llm_tool_json: None,
        tasks_raw: None,
        tasks: None,
        none_reason: None,
        action_taken: action,
    }
}

/// The single `none` step that stands for a refusal.
pub open spec fn none_step(reason: Seq<char>) -> ToolCallView {
    ToolCallView { category: "none"@, name: reason, params: None }
}

/// The evaluation of one LLM decision: a transport failure, then an envelope
/// failure, take precedence; then a refusal (its reason normalized), a non-empty
/// plan (shown raw and with drone arguments normalized), an empty plan or a parse
/// error. The decision never applies anything.
pub open spec fn eval_summary_of(
    transport_error: Option<Seq<char>>,
    chat_parse_error: Option<Seq<char>>,
    payload: Option<Result<PayloadView, ToolParseErrorView>>,
) -> EvalSummaryView {
    if transport_error is Some {
        failed_summary("eval_llm_transport_failed"@, transport_error)
    } else if chat_parse_error is Some {
        failed_summary("eval_llm_envelope_parse_failed"@, chat_parse_error)
    } else {
        match payload {
            None => failed_summary("eval_internal_no_tool_payload"@, None),
            Some(Err(e)) => failed_summary("eval_tool_parse_failed"@, Some(parse_error_message(e))),
            Some(Ok(PayloadView::NoneReason(x))) => {
                let n = normalized_reason(x);
                EvalSummaryView {
                    json_valid: true,
                    parse_error: None,
                    llm_tool_json_raw: Some(json_text(tasks_display(seq![none_step(n)]))),
                    llm_tool_json: Some(json_text(tasks_display(seq![none_step(n)]))),
                    tasks_raw: None,
                    tasks: None,
                    none_reason: Some(n),
                    action_taken: "eval_ok_none"@,
                }
            },
            Some(Ok(PayloadView::Tasks(t))) => if t.len() == 0 {
                failed_summary("eval_tool_parse_failed"@, Some("empty_tasks_after_parse"@))
            } else {
                let n = t.map_values(|s: ToolCallView| normalized_task(s));
                EvalSummaryView {
                    json_valid: true,
                    parse_error: None,
                    llm_tool_json_raw: Some(json_text(tasks_display(t))),
                    llm_tool_json: Some(json_text(tasks_display(n))),
                    tasks_raw: Some(t),
                    tasks: Some(n),
                    none_reason: None,
                    action_taken: "eval_ok_tasks"@,
                }
            },
        }
    }
}

pub open spec fn opt_payload_view(p: Option<Result<LlmToolPayload, ToolParseError>>) -> Option<Result<PayloadView, ToolParseErrorView>> {
    match p {
        Some(Ok(x)) => Some(Ok(x@)),
        Some(Err(e)) => Some(Err(e@)),
        None => None,
    }
}

fn failed(action: &str, err: Option<String>) -> (r: EvalSummary)
    ensures
        r@ == failed_summary(action@, opt_text(err)),
{
    EvalSummary {
        json_valid: false,
        parse_error: err,
        llm_tool_json_raw: None,
        llm_tool_json: None,
        tasks_raw: None,
        tasks: None,
        none_reason: None,
        action_taken: String::from_str(action),
    }
}

fn refusal_steps(reason: &String) -> (r: Vec<ToolCall>)
    ensures
        tool_calls_view(r@) == seq![none_step(reason@)],
{
    let mut v: Vec<ToolCall> = Vec::new();
    v.push(ToolCall { category: String::from_str("none"), name: reason.clone(), params: None });
    proof { reveal_strlit("none"); }
    assert(tool_calls_view(v@) =~= seq![none_step(reason@)]);
    v
}

/// Summarizes one LLM decision for `/eval` (see [`eval_summary_of`]).
pub fn eval_summary(
    transport_error: Option<String>,
    chat_parse_error: Option<String>,
    tool_payload: Option<Result<LlmToolPayload, ToolParseError>>,
) -> (r: EvalSummary)
    ensures
        r@ == eval_summary_of(opt_text(transport_error), opt_text(chat_parse_error), opt_payload_view(tool_payload)),
{
    if transport_error.is_some() {
        return failed("eval_llm_transport_failed", transport_error);
    }
    if chat_parse_error.is_some() {
        return failed("eval_llm_envelope_parse_failed", chat_parse_error);
    }
    match tool_payload {
        None => failed("eval_internal_no_tool_payload", None),
        Some(Err(e)) => failed("eval_tool_parse_failed", Some(e.message())),
        Some(Ok(LlmToolPayload::NoneReason(x))) => {
            let n = normalize_none_reason(x.as_str());
            let steps = refusal_steps(&n);
            let shown = tasks_display_json(&steps);
            let shown_raw = tasks_display_json(&steps);
            EvalSummary {
                json_valid: true,
                parse_error: None,
                llm_tool_json_raw: Some(shown_raw),
                llm_tool_json: Some(shown),
                tasks_raw: None,
                tasks: None,
                none_reason: Some(n),
                action_taken: String::from_str("eval_ok_none"),
            }
        },
        Some(Ok(LlmToolPayload::Tasks(t))) => {
            if t.len() == 0 {
                failed("eval_tool_parse_failed", Some(String::from_str("empty_tasks_after_parse")))
            } else {
                let shown_raw = tasks_display_json(&t);
                let raw = copy_tool_calls(&t);
                let mut norm = t;
                normalize_drone_tasks(&mut norm);
                let shown = tasks_display_json(&norm);
                EvalSummary {
                    json_valid: true,
                    parse_error: None,
                    llm_tool_json_raw: Some(shown_raw),
                    llm_tool_json: Some(shown),
                    tasks_raw: Some(raw),
                    tasks: Some(norm),
                    none_reason: None,
                    action_taken: String::from_str("eval_ok_tasks"),
                }
            }
        },
    }
}

} // verus!
