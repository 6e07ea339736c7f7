//! The orchestrator driven as the server drives it: commands, the LLM's reply,
//! drone replies, and the state the gateway ends in.

use sar_gateway::drone_apply::drone_reply_result;
use sar_gateway::llm::{ChatResponse, Choice, Message};
use sar_gateway::llm_decision::{read_reply, replied_decision, transport_failed_decision};
use sar_gateway::llm_decision::LlmToolDecisionOutcome;
use sar_gateway::orchestrator::{Action, CommandRun, Orchestrator, Phase};
use sar_gateway::types::{ApiResponse, CommandOutcome};
use sar_gateway::types::{GatewayCommand, GatewayState, ProcessOptions, ToolCall};
use sar_gateway::json::JsonValue;
use sar_gateway::server::status_json;

fn options() -> ProcessOptions {
    ProcessOptions { wait_for_drone_ack: true, ack_timeout_ms: 3000 }
}

fn reply_with(content: &str) -> LlmToolDecisionOutcome {
    let chat = ChatResponse {
        choices: vec![Choice { message: Message { content: content.to_string() } }],
    };
    let reading = read_reply(Ok(chat));
    replied_decision("http://llm/v1/chat/completions", 200, "{}".to_string(), reading, 5, 1, 6)
}

/// Runs a command to its end; every drone step is answered with `drone_reply(i)`.
fn run_command(
    o: &mut Orchestrator,
    cmd: GatewayCommand,
    now_ms: u64,
    llm: Option<LlmToolDecisionOutcome>,
    drone_reply: &dyn Fn(usize) -> (u16, &'static str),
) -> (CommandOutcome, Vec<String>) {
    let mut run: CommandRun = o.begin_command(cmd, "req-1", now_ms, options());
    let mut llm = llm;
    let mut drone_tools: Vec<String> = Vec::new();
    loop {
        match o.advance(&mut run) {
            Action::CallLlm(_) => {
                let d = llm.take().expect("the command asks for the LLM once");
                o.on_llm_decision(&mut run, d);
            }
            Action::ApplyDrone { step_index, step_id, tool, .. } => {
                let (status, body) = drone_reply(step_index);
                let r = drone_reply_result(&tool, &step_id, "http://drone/v1/apply-tool", status, 7, body);
                drone_tools.push(tool);
                o.on_drone_result(&mut run, r);
            }
            Action::Continue => {}
            Action::Finish => break,
        }
    }
    assert!(run.is_consistent());
    (o.finish_command(run, 42, 9, now_ms + 42, None), drone_tools)
}

fn ok_reply(_: usize) -> (u16, &'static str) {
    (200, r#"{"ok":true,"dispatch_ms":3,"ack_wait_ms":20,"ack_result":"ACCEPTED"}"#)
}

#[test]
fn infer_applies_plan_at_once() {
    let mut o = Orchestrator::new();
    let d = reply_with(r#"{"tasks":[{"category":"drone","name":"arm"},{"category":"drone","name":"takeoff","params":{"altitude_m":0}}]}"#);
    let (out, tools) = run_command(&mut o, GatewayCommand::Infer { prompt: "take off".into() }, 1000, Some(d), &ok_reply);
    assert_eq!(tools, vec!["arm".to_string(), "takeoff".to_string()]);
    assert!(!out.pending_approval);
    assert_eq!(out.action_taken, "sequence_ok:2_steps");
    assert_eq!(out.tools.as_ref().map(|t| t.len()), Some(2));
    assert!(out.apply_total_ms.is_some());
    assert_eq!(out.drone_steps.len(), 2);
    assert_eq!(out.drone_steps[0].ack_wait_ms, Some(20));
    assert_eq!(o.current_state, GatewayState::ACTIVE);
    assert_eq!(o.active_command_display(), "drone: takeoff");
    assert!(out.trace.iter().any(|l| l == "stage=drone_params_normalized"));
}

#[test]
fn infer_single_step_names_it() {
    let mut o = Orchestrator::new();
    let d = reply_with(r#"{"tasks":[{"category":"drone","name":"arm"}]}"#);
    let (out, _) = run_command(&mut o, GatewayCommand::Infer { prompt: "arm".into() }, 1000, Some(d), &ok_reply);
    assert_eq!(out.action_taken, "drone_http_ok:arm");
    assert_eq!(out.category.as_deref(), Some("drone"));
    assert_eq!(out.tool_name.as_deref(), Some("arm"));
}

#[test]
fn first_failed_drone_step_stops_the_plan() {
    let mut o = Orchestrator::new();
    let tools = vec![
        ToolCall { category: "drone".into(), name: "arm".into(), params: None },
        ToolCall { category: "drone".into(), name: "takeoff".into(), params: None },
        ToolCall { category: "model".into(), name: "human_detect".into(), params: None },
    ];
    let fail_first = |i: usize| if i == 0 { (200, r#"{"ok":false,"error":"not armable"}"#) } else { ok_reply(i) };
    let (out, sent) = run_command(&mut o, GatewayCommand::ApplyToolSequence { tools }, 1000, None, &fail_first);
    assert_eq!(sent, vec!["arm".to_string()]);
    assert_eq!(out.action_taken, "sequence_stopped_at_step_0_tool_arm");
    assert_eq!(out.drone_error.as_deref(), Some("drone_server_http=200 error=not armable"));
    assert_eq!(out.model_steps.len(), 0);
}

#[test]
fn override_skips_llm_until_deadline() {
    let mut o = Orchestrator::new();
    let (out, _) = run_command(&mut o, GatewayCommand::Override { model: "text".into(), timeout_sec: Some(60) }, 1000, None, &ok_reply);
    assert_eq!(out.action_taken, "override_set");
    assert_eq!(o.current_state, GatewayState::OVERRIDE_ACTIVE);
    assert_eq!(o.effective_model_name(), "text");
    assert!(o.override_active(60_999));
    assert!(!o.override_active(61_000));

    let (skipped, _) = run_command(&mut o, GatewayCommand::Infer { prompt: "arm".into() }, 30_000, None, &ok_reply);
    assert_eq!(skipped.action_taken, "override_active_skip_llm");

    let (cleared, _) = run_command(&mut o, GatewayCommand::ClearOverride, 40_000, None, &ok_reply);
    assert_eq!(cleared.action_taken, "override_cleared");
    assert_eq!(o.current_state, GatewayState::IDLE);
    assert_eq!(o.effective_model_name(), "none");
    assert_eq!(o.active_command_display(), "none");
}

#[test]
fn expired_override_lets_infer_ask_the_llm() {
    let mut o = Orchestrator::new();
    run_command(&mut o, GatewayCommand::Override { model: "text".into(), timeout_sec: Some(1) }, 1000, None, &ok_reply);
    let d = reply_with(r#"{"tasks":[{"category":"none","name":"greeting_only"}]}"#);
    let (out, _) = run_command(&mut o, GatewayCommand::Infer { prompt: "hi".into() }, 2000, Some(d), &ok_reply);
    assert_eq!(out.action_taken, "invalid_request");
    assert_eq!(out.tool_name.as_deref(), Some("invalid_request"));
    assert_eq!(o.current_state, GatewayState::IDLE);
}

#[test]
fn unreadable_plan_is_reported_with_preview() {
    let mut o = Orchestrator::new();
    let d = reply_with("not json");
    let (out, _) = run_command(&mut o, GatewayCommand::Infer { prompt: "x".into() }, 1000, Some(d), &ok_reply);
    assert!(out.action_taken.starts_with("tool_parse_failed: "));
    assert_eq!(out.llm_tool_json.as_deref(), Some("not json"));
    assert!(out.trace.iter().any(|l| l == "stage=llm_content_preview=\"not json\""));
}

#[test]
fn llm_transport_failure_falls_back_to_text() {
    let mut o = Orchestrator::new();
    let d = transport_failed_decision("http://llm/v1/chat/completions", "connection refused".into(), 12);
    let (out, _) = run_command(&mut o, GatewayCommand::Infer { prompt: "x".into() }, 1000, Some(d), &ok_reply);
    assert_eq!(out.action_taken, "llm_http_failed_fallback_text");
    assert_eq!(o.effective_model_name(), "text");
    assert!(out.trace.iter().any(|l| l == "stage=llm_http_transport_failed err=connection refused"));
}

#[test]
fn apply_model_tool_activates_vision() {
    let mut o = Orchestrator::new();
    let cmd = GatewayCommand::ApplyTool { category: "model".into(), tool_name: "human_detect".into(), params: None };
    let (out, sent) = run_command(&mut o, cmd, 1000, None, &ok_reply);
    assert!(sent.is_empty());
    assert_eq!(out.action_taken, "Python worker will activate: human_detect");
    assert_eq!(o.effective_model_name(), "vision");
    assert_eq!(o.active_command_display(), "model: human_detect");
}

#[test]
fn empty_sequence_is_reported() {
    let mut o = Orchestrator::new();
    let (out, _) = run_command(&mut o, GatewayCommand::ApplyToolSequence { tools: vec![] }, 1000, None, &ok_reply);
    assert_eq!(out.action_taken, "apply_sequence_empty");
}

#[test]
fn llm_trace_lines_in_order() {
    let d = reply_with(r#"{"tasks":[{"category":"model","name":"flood_seg"}]}"#);
    assert_eq!(
        d.trace,
        vec![
            "stage=llm_http_post url=http://llm/v1/chat/completions".to_string(),
            "stage=llm_http_response http_status=200".to_string(),
            "stage=llm_body_read_done ms=5".to_string(),
            "stage=llm_content_len chars=51".to_string(),
            "stage=llm_tool_parse_done ms=1".to_string(),
            "stage=llm_http_done ms=6".to_string(),
        ]
    );
    let bad = read_reply(Err("expected value at line 1 column 1".into()));
    assert!(bad.tool_payload.is_none());
    assert_eq!(bad.chat_parse_error.as_deref(), Some("expected value at line 1 column 1"));
    let _ = Phase::Done;
}

#[test]
fn responses_reflect_the_gateway() {
    let mut o = Orchestrator::new();
    let cmd = GatewayCommand::ApplyTool { category: "drone".into(), tool_name: "hover".into(), params: None };
    let (out, _) = run_command(&mut o, cmd, 1000, None, &ok_reply);
    let api = ApiResponse::from_outcome(&o, out, "req-9".into(), 1500);
    assert_eq!((api.state.as_str(), api.override_active, api.pending_approval), ("ACTIVE", false, false));
    assert_eq!(api.tool_name.as_deref(), Some("hover"));
    assert_eq!(api.request_id, "req-9");
    let (status_out, _) = run_command(&mut o, GatewayCommand::Status, 2000, None, &ok_reply);
    let body = status_json(&o, &status_out, "req-10", 2500);
    assert!(matches!(body.get("active_command"), Some(JsonValue::Str(s)) if s == "drone: hover"));
    assert!(matches!(body.get("model"), Some(JsonValue::Str(s)) if s == "none"));
    let bad = ApiResponse::parse_failure("req-11".into(), "missing field `prompt`");
    assert_eq!((bad.state.as_str(), bad.action_taken.as_str()), ("ERROR", "parse_failed"));
    assert_eq!(bad.llm_response, "invalid payload: missing field `prompt`");
}

#[test]
fn expired_override_is_not_reported_active() {
    let mut o = Orchestrator::new();
    let (out, _) = run_command(&mut o, GatewayCommand::Override { model: "text".into(), timeout_sec: Some(10) }, 1000, None, &ok_reply);
    let during = ApiResponse::from_outcome(&o, out, "r".into(), 10_999);
    assert!(during.override_active);
    let (status_out, _) = run_command(&mut o, GatewayCommand::Status, 20_000, None, &ok_reply);
    assert!(matches!(status_json(&o, &status_out, "r", 11_000).get("override_active"), Some(JsonValue::Bool(false))));
    assert!(matches!(status_json(&o, &status_out, "r", 5_000).get("override_active"), Some(JsonValue::Bool(true))));
}

#[test]
fn applied_infer_plan_is_shown_as_tool_json() {
    let mut o = Orchestrator::new();
    let d = reply_with(r#"{"tasks":[{"category":"drone","name":"arm"}]}"#);
    let (out, _) = run_command(&mut o, GatewayCommand::Infer { prompt: "arm".into() }, 1000, Some(d), &ok_reply);
    assert_eq!(out.llm_tool_json.as_deref(), Some(r#"{"tasks":[{"category":"drone","name":"arm"}]}"#));
    let d = reply_with(r#"{"tasks":[{"category":"drone","name":"takeoff","params":{"altitude_m":0}}]}"#);
    let (out, _) = run_command(&mut o, GatewayCommand::Infer { prompt: "up".into() }, 1500, Some(d), &ok_reply);
    assert_eq!(
        out.llm_tool_json.as_deref(),
        Some(r#"{"tasks":[{"category":"drone","name":"takeoff","params":{"altitude_m":15.0}}]}"#)
    );
    let refused = reply_with(r#"{"tasks":[{"category":"none","name":"invalid_request"}]}"#);
    let (out, _) = run_command(&mut o, GatewayCommand::Infer { prompt: "hi".into() }, 2000, Some(refused), &ok_reply);
    assert!(out.llm_tool_json.is_none());
    let tools = vec![ToolCall { category: "drone".into(), name: "hover".into(), params: None }];
    let (out, _) = run_command(&mut o, GatewayCommand::ApplyToolSequence { tools }, 3000, None, &ok_reply);
    assert!(out.llm_tool_json.is_none());
}
