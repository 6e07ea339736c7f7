//! The gateway's smaller rules on concrete values: settings and URLs, the API
//! key check, the evaluation endpoints, the log, the relays and the banner.

use sar_gateway::banner::{chrono_lite, truncate};
use sar_gateway::camera_stream::{camera_reply, CameraReply};
use sar_gateway::config::{
    camera_stream_url, client_dispatch_ms_from_headers, drone_ack_timeout_ms_default, drone_apply_tool_url,
    drone_logs_ws_url, drone_telemetry_ws_url, drone_wait_for_ack_default, eval_sitl_drone_url_allowed,
    eval_sitl_drone_url_prefixes, llm_base_url, llm_chat_completions_url, mcp_api_key,
};
use sar_gateway::drone_apply::{drone_apply_body, drone_reply_result, drone_transport_failure};
use sar_gateway::drone_params::{normalize_drone_tool_params, tasks_display_json};
use sar_gateway::eval::{eval_e2e_admit, eval_summary, EvalE2eRequest};
use sar_gateway::infer_log::{InferLog, MAX_ENTRIES};
use sar_gateway::json::{JsonNumber, JsonValue};
use sar_gateway::llm::{extract_json_tool_payload, normalize_none_reason, parse_tool_sequence, LlmToolPayload, ToolParseError};
use sar_gateway::logs_ws::{logs_ws_connect_error, relay_step, RelayStep, WsFrame};
use sar_gateway::mcp_proxy::{auth_failure_reply, check_api_key, extract_bearer, forwards_header, mcp_target_url, ApiKeyCheck};
use sar_gateway::model_apply::{model_call_body, model_reply_result, model_transport_failure};
use sar_gateway::server::pick_request_id;
use sar_gateway::timing::drone_step_id;
use sar_gateway::types::{ProcessOptions, ToolCall};
use sar_gateway::webrtc_ice::collect_turn_urls;
use sar_gateway::timing::{finalize_pipeline_layers, sum_fits};
use sar_gateway::types::{DroneStepTiming, PipelineTiming};
use sar_gateway::webrtc_ice::{webrtc_ice_json, IceSettings};
use sar_gateway::banner::vm_rss_kb;

fn obj(members: Vec<(&str, JsonValue)>) -> JsonValue {
    JsonValue::Object(members.into_iter().map(|(k, v)| (k.to_string(), v)).collect())
}

#[test]
fn chat_url_forms() {
    assert_eq!(llm_chat_completions_url("http://localhost:8080"), "http://localhost:8080/v1/chat/completions");
    assert_eq!(llm_chat_completions_url("http://x/v1/"), "http://x/v1/chat/completions");
    assert_eq!(llm_chat_completions_url("http://x/v1/chat/completions/"), "http://x/v1/chat/completions");
    let once = llm_chat_completions_url("http://x");
    assert_eq!(llm_chat_completions_url(&once), once);
}

#[test]
fn trailing_slashes_do_not_matter() {
    assert_eq!(drone_apply_tool_url("http://h:3001//"), "http://h:3001/v1/apply-tool");
    assert_eq!(drone_apply_tool_url("http://h:3001"), "http://h:3001/v1/apply-tool");
    assert_eq!(drone_logs_ws_url("https://h/"), "wss://h/v1/ws/logs");
    assert_eq!(drone_telemetry_ws_url("http://h"), "ws://h/v1/ws/telemetry");
}

#[test]
fn settings_defaults() {
    assert_eq!(llm_base_url(None), "http://127.0.0.1:8080");
    assert_eq!(llm_base_url(Some("http://gpu:9000".into())), "http://gpu:9000");
    assert_eq!(mcp_api_key(Some(String::new())), None);
    assert!(drone_wait_for_ack_default(None));
    assert!(!drone_wait_for_ack_default(Some("0")));
    assert!(!drone_wait_for_ack_default(Some("FALSE")));
    assert!(drone_wait_for_ack_default(Some("1")));
    assert_eq!(drone_ack_timeout_ms_default(Some("2500")), 2500);
    assert_eq!(drone_ack_timeout_ms_default(Some("soon")), 3000);
    assert_eq!(client_dispatch_ms_from_headers(Some("1700000000000")), Some(1_700_000_000_000));
    assert_eq!(client_dispatch_ms_from_headers(Some("-1")), None);
    assert_eq!(camera_stream_url("http://m:8000/", None), "http://m:8000/video/stream");
    assert_eq!(camera_stream_url("http://m:8000", Some("//cam/live".into())), "http://m:8000/cam/live");
    assert_eq!(camera_stream_url("http://m:8000", Some("https://c/s".into())), "https://c/s");
}

#[test]
fn sitl_prefixes() {
    let p = eval_sitl_drone_url_prefixes(None);
    assert_eq!(p, vec!["http://127.0.0.1:3001".to_string(), "http://localhost:3001".to_string()]);
    assert!(eval_sitl_drone_url_allowed("http://127.0.0.1:3001", &p));
    assert!(!eval_sitl_drone_url_allowed("http://10.0.0.5:3001", &p));
    let q = eval_sitl_drone_url_prefixes(Some(" http://a , ,http://b".into()));
    assert_eq!(q, vec!["http://a".to_string(), "http://b".to_string()]);
}

#[test]
fn api_key_check() {
    assert_eq!(check_api_key(None, Some("Bearer k"), None), ApiKeyCheck::Disabled);
    assert_eq!(check_api_key(Some(""), Some("Bearer k"), None), ApiKeyCheck::Disabled);
    assert_eq!(check_api_key(Some("k"), Some("Bearer  k "), None), ApiKeyCheck::Allowed);
    assert_eq!(check_api_key(Some("k"), None, Some(" k")), ApiKeyCheck::Allowed);
    assert_eq!(check_api_key(Some("k"), Some("Basic k"), Some("k")), ApiKeyCheck::Allowed);
    assert_eq!(check_api_key(Some("k"), Some("Bearer x"), Some("k")), ApiKeyCheck::Unauthorized);
    assert_eq!(check_api_key(Some("k"), None, None), ApiKeyCheck::Unauthorized);
    assert_eq!(extract_bearer(Some("Bearer abc "), None), Some("abc".to_string()));
    assert_eq!(extract_bearer(None, None), None);
    let (status, body) = auth_failure_reply(ApiKeyCheck::Disabled).unwrap();
    assert_eq!(status, 503);
    assert_eq!(body.get("error").map(|e| matches!(e, JsonValue::Str(s) if s == "mcp_public_disabled")), Some(true));
    assert_eq!(auth_failure_reply(ApiKeyCheck::Unauthorized).map(|r| r.0), Some(401));
    assert!(auth_failure_reply(ApiKeyCheck::Allowed).is_none());
}

#[test]
fn mcp_target_addresses() {
    assert_eq!(mcp_target_url("http://h:9000/", "/mcp", None), "http://h:9000/mcp");
    assert_eq!(mcp_target_url("http://h:9000", "/mcp/sse", Some("session=1")), "http://h:9000/sse?session=1");
    assert_eq!(mcp_target_url("http://h", "/other", None), "http://h/other");
    assert!(!forwards_header("host"));
    assert!(!forwards_header("authorization"));
    assert!(forwards_header("content-type"));
}

fn e2e(target: &str, wait_for: &str, token: &str, ack: Option<u64>) -> EvalE2eRequest {
    EvalE2eRequest {
        prompt: "arm".into(),
        target: target.into(),
        wait_for: wait_for.into(),
        ack_timeout_ms: ack,
        safety_token: token.into(),
    }
}

#[test]
fn e2e_admission_rules() {
    let bad = eval_e2e_admit(&e2e("real", "ack", "t", None), Some("t"), true, 3000).unwrap_err();
    assert_eq!((bad.status, bad.action_taken.as_str()), (400, "eval_e2e_invalid_request"));
    let bad = eval_e2e_admit(&e2e("sitl", "none", "t", None), Some("t"), true, 3000).unwrap_err();
    assert_eq!(bad.status, 400);
    let bad = eval_e2e_admit(&e2e("sitl", "ack", "t", None), None, true, 3000).unwrap_err();
    assert_eq!((bad.status, bad.action_taken.as_str()), (403, "eval_e2e_forbidden"));
    let bad = eval_e2e_admit(&e2e("sitl", "ack", "x", None), Some("t"), true, 3000).unwrap_err();
    assert_eq!(bad.drone_error, "EVAL_SITL_TOKEN mismatch or unset on gateway");
    let bad = eval_e2e_admit(&e2e("sitl", "ack", "t", None), Some("t"), false, 3000).unwrap_err();
    assert_eq!((bad.status, bad.action_taken.as_str()), (403, "eval_e2e_drone_url_not_allowed"));
    let ok = eval_e2e_admit(&e2e("sitl", "ack", "t", Some(900)), Some("t"), true, 3000).unwrap();
    assert!(ok.wait_for_drone_ack);
    assert_eq!(ok.ack_timeout_ms, 900);
    assert_eq!(eval_e2e_admit(&e2e("sitl", "ack", "t", None), Some("t"), true, 3000).unwrap().ack_timeout_ms, 3000);
}

#[test]
fn eval_summaries() {
    let s = eval_summary(Some("timeout".into()), None, None);
    assert_eq!((s.action_taken.as_str(), s.parse_error.as_deref(), s.json_valid), ("eval_llm_transport_failed", Some("timeout"), false));
    let s = eval_summary(None, Some("bad envelope".into()), None);
    assert_eq!(s.action_taken, "eval_llm_envelope_parse_failed");
    let s = eval_summary(None, None, None);
    assert_eq!(s.action_taken, "eval_internal_no_tool_payload");
    let s = eval_summary(None, None, Some(Err(ToolParseError::MissingTasks)));
    assert_eq!(s.action_taken, "eval_tool_parse_failed");
    assert!(s.parse_error.unwrap().starts_with("expected top-level"));
    let s = eval_summary(None, None, Some(Ok(LlmToolPayload::NoneReason("ambiguous_request".into()))));
    assert_eq!((s.action_taken.as_str(), s.none_reason.as_deref(), s.json_valid), ("eval_ok_none", Some("invalid_request"), true));
    assert_eq!(s.llm_tool_json.as_deref(), Some(r#"{"tasks":[{"category":"none","name":"invalid_request"}]}"#));
    assert_eq!(s.llm_tool_json_raw, s.llm_tool_json);
    let s = eval_summary(None, None, Some(Ok(LlmToolPayload::Tasks(vec![]))));
    assert_eq!(s.parse_error.as_deref(), Some("empty_tasks_after_parse"));
    let t = vec![ToolCall { category: "drone".into(), name: "takeoff".into(), params: Some(obj(vec![("altitude_m", JsonValue::Number(JsonNumber::PosInt(0)))])) }];
    let s = eval_summary(None, None, Some(Ok(LlmToolPayload::Tasks(t))));
    assert_eq!(s.action_taken, "eval_ok_tasks");
    assert_eq!(s.llm_tool_json_raw.as_deref(), Some(r#"{"tasks":[{"category":"drone","name":"takeoff","params":{"altitude_m":0}}]}"#));
    assert_eq!(s.llm_tool_json.as_deref(), Some(r#"{"tasks":[{"category":"drone","name":"takeoff","params":{"altitude_m":15.0}}]}"#));
    let raw = s.tasks_raw.unwrap();
    let norm = s.tasks.unwrap();
    assert!(matches!(raw[0].params.as_ref().unwrap().get("altitude_m"), Some(JsonValue::Number(JsonNumber::PosInt(0)))));
    assert!(matches!(norm[0].params.as_ref().unwrap().get("altitude_m"), Some(JsonValue::Number(JsonNumber::Float(t))) if t == "15.0"));
}

#[test]
fn plan_rules() {
    let six = r#"{"tasks":[{"category":"drone","name":"arm"},{"category":"drone","name":"takeoff"},{"category":"drone","name":"hover"},{"category":"drone","name":"land_immediately"},{"category":"drone","name":"disarm"},{"category":"drone","name":"arm"}]}"#;
    match parse_tool_sequence(six).unwrap() {
        LlmToolPayload::Tasks(t) => assert_eq!(t.len(), 5),
        _ => panic!("expected tasks"),
    }
    let other = r#"{"tasks":[{"category":"drone","name":"arm"},{"category":"robot","name":"arm"}]}"#;
    assert!(matches!(parse_tool_sequence(other).unwrap(), LlmToolPayload::NoneReason(r) if r == "invalid_request"));
    let legacy = r#"{"tasks":[{"category":"none","name":"greeting_only"}]}"#;
    assert!(matches!(parse_tool_sequence(legacy).unwrap(), LlmToolPayload::NoneReason(r) if r == "invalid_request"));
    let stripped = r#"{"tasks":[{"category":"drone","name":"takeoff","params":{"altitude_m":20,"speed":3}}]}"#;
    match parse_tool_sequence(stripped).unwrap() {
        LlmToolPayload::Tasks(t) => {
            let p = t[0].params.as_ref().unwrap();
            assert!(p.get("speed").is_none());
            assert!(p.get("altitude_m").is_some());
        }
        _ => panic!("expected tasks"),
    }
    let no_coords = r#"{"tasks":[{"category":"drone","name":"goto_location","params":{"lat_deg":1}}]}"#;
    assert!(matches!(parse_tool_sequence(no_coords).unwrap(), LlmToolPayload::NoneReason(_)));
    let empty = r#"{"tasks":[]}"#;
    assert!(matches!(parse_tool_sequence(empty).unwrap(), LlmToolPayload::NoneReason(r) if r == "invalid_request"));
    assert!(matches!(parse_tool_sequence(r#"{"tasks":3}"#), Err(ToolParseError::InvalidEnvelope)));
    assert!(matches!(parse_tool_sequence("[1]"), Err(ToolParseError::MissingTasks)));
    assert!(matches!(parse_tool_sequence("nope"), Err(ToolParseError::Syntax(_))));
    let fenced = "Sure:\n```json\n{\"tasks\":[{\"category\":\"drone\",\"name\":\"arm\"}]}\n```\n";
    assert!(matches!(parse_tool_sequence(fenced).unwrap(), LlmToolPayload::Tasks(t) if t.len() == 1));
}

#[test]
fn fences_and_reasons() {
    assert_eq!(extract_json_tool_payload("  ```JSON\n{\"a\":1}\n``` "), "{\"a\":1}");
    assert_eq!(extract_json_tool_payload(" {\"a\":1} "), "{\"a\":1}");
    assert_eq!(extract_json_tool_payload("```{\"a\":1}"), "```{\"a\":1}");
    let once = extract_json_tool_payload("x ```json {1} ``` y");
    assert_eq!(extract_json_tool_payload(&once), once);
    assert_eq!(normalize_none_reason("unsafe_or_invalid"), "invalid_request");
    assert_eq!(normalize_none_reason("low_battery"), "low_battery");
    assert_eq!(normalize_none_reason(&normalize_none_reason("greeting_only")), "invalid_request");
}

#[test]
fn drone_altitudes() {
    let twenty = normalize_drone_tool_params("takeoff", Some(obj(vec![("altitude_m", JsonValue::Number(JsonNumber::PosInt(20)))]))).unwrap();
    assert!(matches!(twenty.get("altitude_m"), Some(JsonValue::Number(JsonNumber::Float(t))) if t == "20.0"));
    let negative = normalize_drone_tool_params("goto_location", Some(obj(vec![("alt_m", JsonValue::Number(JsonNumber::NegInt(-4)))]))).unwrap();
    assert!(matches!(negative.get("alt_m"), Some(JsonValue::Number(JsonNumber::Float(t))) if t == "15.0"));
    let again = normalize_drone_tool_params("takeoff", Some(twenty.deep_clone())).unwrap();
    assert!(matches!(again.get("altitude_m"), Some(JsonValue::Number(JsonNumber::Float(t))) if t == "20.0"));
    assert!(normalize_drone_tool_params("arm", Some(JsonValue::Null)).is_none());
    assert!(matches!(normalize_drone_tool_params("arm", Some(JsonValue::Bool(true))), Some(JsonValue::Bool(true))));
    let wp = normalize_drone_tool_params("waypoint_inject", Some(obj(vec![("lat_deg", JsonValue::Number(JsonNumber::PosInt(1)))]))).unwrap();
    assert!(wp.get("alt_m").is_none());
}

#[test]
fn drone_replies() {
    let url = "http://d/v1/apply-tool";
    let ok = drone_reply_result("arm", "r:drone:0", url, 200, 9, r#"{"ok":true,"dispatch_ms":4,"completion_status":"done"}"#);
    assert!(ok.mavlink_ok && ok.error_detail.is_none());
    assert_eq!((ok.dispatch_ms, ok.completion_status.as_deref()), (Some(4), Some("done")));
    assert_eq!(
        ok.trace,
        vec![
            "stage=drone_http_begin tool=arm step_id=r:drone:0 url=http://d/v1/apply-tool".to_string(),
            "stage=drone_http_response tool=arm status=200 body_len=54".to_string(),
        ]
    );
    let refused = drone_reply_result("arm", "r:drone:0", url, 409, 9, r#"{"ok":false}"#);
    assert_eq!(refused.error_detail.as_deref(), Some("drone_server_http=409 error=ok=false without error field"));
    let garbled = drone_reply_result("arm", "r:drone:0", url, 502, 9, "<html>");
    assert!(garbled.error_detail.unwrap().starts_with("drone_server_bad_json http=502 err="));
    let down = drone_transport_failure("arm", "r:drone:0", url, 30, "connection refused");
    assert_eq!((down.http_status, down.mavlink_ok, down.trace.len()), (0, false, 1));
    assert_eq!(down.error_detail.as_deref(), Some("drone_http_transport: connection refused"));
    let body = drone_apply_body("arm", None, "req-1:drone:0", ProcessOptions { wait_for_drone_ack: true, ack_timeout_ms: 2500 });
    assert!(matches!(body.get("wait_for"), Some(JsonValue::Str(s)) if s == "ack"));
    assert!(matches!(body.get("ack_timeout_ms"), Some(JsonValue::Number(JsonNumber::PosInt(2500)))));
    assert!(matches!(body.get("tool"), Some(JsonValue::Str(s)) if s == "arm"));
    assert_eq!(drone_step_id("req-1", 3), "req-1:drone:3");
}

#[test]
fn model_replies() {
    let mut trace: Vec<String> = Vec::new();
    let busy = model_reply_result("human_detect", 200, 5, r#"{"skipped":true}"#, Some(12), &mut trace);
    assert!(busy.ok && busy.skipped);
    assert_eq!(
        trace,
        vec![
            "stage=model_http_response tool=human_detect status=200 body_len=16".to_string(),
            "stage=model_inference_ms ms=12".to_string(),
            "stage=model_http_skipped busy".to_string(),
        ]
    );
    let err = model_reply_result("human_detect", 200, 5, r#"{"error":"no frame"}"#, None, &mut trace);
    assert_eq!((err.ok, err.error_detail.as_deref()), (false, Some("no frame")));
    let fine = model_reply_result("flood_seg", 201, 5, r#"{"result":1}"#, Some(3), &mut trace);
    assert!(fine.ok && fine.inference_ms == Some(3));
    let bad = model_reply_result("flood_seg", 500, 5, "oops", Some(3), &mut trace);
    assert!(!bad.ok && bad.inference_ms.is_none());
    assert!(bad.error_detail.unwrap().starts_with("model_http_bad_json: "));
    let mut t2: Vec<String> = Vec::new();
    let body = model_call_body("flood_class", "http://m/tool", &mut t2).unwrap();
    assert!(matches!(body.get("tool"), Some(JsonValue::Str(s)) if s == "detect_flood"));
    assert_eq!(t2, vec!["stage=model_http_begin tool=flood_class model_tool=detect_flood url=http://m/tool".to_string()]);
    let unknown = model_call_body("takeoff", "http://m/tool", &mut t2).unwrap_err();
    assert_eq!(unknown.error_detail.as_deref(), Some("unknown model tool: takeoff"));
    assert_eq!((unknown.http_status, unknown.elapsed_ms, unknown.inference_ms, unknown.skipped), (0, 0, None, false));
    let down = model_transport_failure(4, "timeout", &mut t2);
    assert_eq!(down.error_detail.as_deref(), Some("model_http_transport: timeout"));
    assert_eq!(t2.last().map(|s| s.as_str()), Some("stage=model_http_transport_failed err=timeout"));
}

#[test]
fn infer_log_keeps_recent() {
    let mut log = InferLog::new();
    let day: u64 = 24 * 60 * 60 * 1000;
    log.push_at(1_000, "old".into(), None, None, None, "r0".into());
    log.push_at(2_000 + day, "new".into(), Some("{}".into()), Some("arm".into()), None, "r1".into());
    let snap = log.snapshot_at(2_000 + day);
    assert_eq!(snap.len(), 1);
    assert_eq!(snap[0].prompt, "new");
    for i in 0..(MAX_ENTRIES as u64 + 7) {
        log.push_at(3 * day + i, format!("p{i}"), None, None, None, format!("r{i}"));
    }
    let snap = log.snapshot_at(3 * day + 200);
    assert_eq!(snap.len(), MAX_ENTRIES);
    assert_eq!(snap.last().unwrap().prompt, format!("p{}", MAX_ENTRIES + 6));
    log.push("now".into(), None, None, None, "rn".into());
    assert_eq!(log.snapshot().last().unwrap().prompt, "now");
    log.clear();
    assert!(log.snapshot().is_empty());
}

#[test]
fn request_ids() {
    assert_eq!(pick_request_id(Some("  abc ")), "abc");
    let fresh = pick_request_id(Some("   "));
    assert_eq!(fresh.len(), 36);
    assert_eq!(fresh.as_bytes()[14], b'4');
    assert_ne!(pick_request_id(None), pick_request_id(None));
}

#[test]
fn relays_and_streams() {
    assert_eq!(relay_step(WsFrame::Text), RelayStep::Forward);
    assert_eq!(relay_step(WsFrame::Ping), RelayStep::Forward);
    assert_eq!(relay_step(WsFrame::Close), RelayStep::Stop);
    assert_eq!(relay_step(WsFrame::Failed), RelayStep::Stop);
    assert_eq!(relay_step(WsFrame::Raw), RelayStep::Skip);
    assert_eq!(logs_ws_connect_error("refused"), r#"{"type":"error","detail":"drone_logs_ws_connect_failed: refused"}"#);
    assert!(matches!(camera_reply(Ok((true, None))), CameraReply::Stream { content_type } if content_type == "multipart/x-mixed-replace; boundary=frame"));
    assert!(matches!(camera_reply(Ok((true, Some("image/jpeg".into())))), CameraReply::Stream { content_type } if content_type == "image/jpeg"));
    assert!(matches!(camera_reply(Ok((false, None))), CameraReply::Failed { body } if body == "camera_stream_upstream_error"));
    assert!(matches!(camera_reply(Err("dns".into())), CameraReply::Failed { body } if body == "camera_stream_proxy_failed: dns"));
}

#[test]
fn banner_fields() {
    assert_eq!(truncate("abc", 5), "abc  ");
    assert_eq!(truncate("abcdef", 4), "abc…");
    assert_eq!(truncate("abcd", 4), "abcd");
    assert_eq!(chrono_lite(3_725, 7), "01:02:05.007 UTC (epoch+3725)");
    assert_eq!(chrono_lite(86_400 + 59, 999), "00:00:59.999 UTC (epoch+86459)");
}

#[test]
fn turn_urls() {
    assert_eq!(collect_turn_urls(Some("turn:a, turn:b"), Some(" turn:a "), None), vec!["turn:a".to_string(), "turn:b".to_string()]);
    assert_eq!(collect_turn_urls(None, Some("turn:c"), Some("h")), vec!["turn:c".to_string()]);
    assert_eq!(
        collect_turn_urls(None, None, Some("example.org")),
        vec!["turn:example.org:3478?transport=udp".to_string(), "turn:example.org:3478?transport=tcp".to_string()]
    );
    assert!(collect_turn_urls(None, Some("  "), Some("  ")).is_empty());
}

#[test]
fn layers_add_up_to_handler_total() {
    let mut p = PipelineTiming { queue_wait_ms: 5, handler_total_ms: 500, llm_http_ms: 200, llm_parse_ms: 3, ..Default::default() };
    let drone = vec![DroneStepTiming {
        step_index: 0,
        tool: "takeoff".into(),
        step_id: "r:drone:0".into(),
        drone_http_ms: 90,
        dispatch_ms: None,
        ack_wait_ms: None,
        completion_status: None,
        ack_result: None,
        http_status: 200,
        ok: true,
    }];
    assert!(sum_fits(&drone, &vec![]));
    finalize_pipeline_layers(&mut p, &drone, &vec![]);
    assert_eq!(p.queue_wait_ms + p.llm_ms + p.drone_server_ms + p.model_server_ms + p.gateway_ms, p.handler_total_ms);
    assert_eq!((p.llm_ms, p.drone_ack_wait_ms, p.gateway_ms), (203, 0, 202));
    let mut tight = PipelineTiming { handler_total_ms: 10, llm_http_ms: 200, ..Default::default() };
    finalize_pipeline_layers(&mut tight, &vec![], &vec![]);
    assert_eq!(tight.gateway_ms, 0);
    let huge = vec![DroneStepTiming { drone_http_ms: u64::MAX, ..drone[0].clone() }, drone[0].clone()];
    assert!(!sum_fits(&huge, &vec![]));
}

#[test]
fn ice_configuration() {
    let none = IceSettings {
        stun_url: None,
        turn_urls: None,
        turn_url: None,
        public_host: None,
        turn_username: None,
        turn_password: None,
        transport_policy: None,
    };
    let v = webrtc_ice_json(&none);
    assert!(matches!(v.get("iceTransportPolicy"), Some(JsonValue::Str(s)) if s == "all"));
    assert!(matches!(v.get("turn_configured"), Some(JsonValue::Bool(false))));
    match v.get("iceServers") {
        Some(JsonValue::Array(a)) => {
            assert_eq!(a.len(), 1);
            assert!(matches!(a[0].get("urls"), Some(JsonValue::Str(s)) if s == "stun:stun.l.google.com:19302"));
        }
        _ => panic!("expected servers"),
    }
    let turn = IceSettings {
        stun_url: Some(" ".into()),
        turn_urls: Some("turn:a:3478".into()),
        turn_url: None,
        public_host: None,
        turn_username: Some("u".into()),
        turn_password: Some("p".into()),
        transport_policy: None,
    };
    let v = webrtc_ice_json(&turn);
    assert!(matches!(v.get("iceTransportPolicy"), Some(JsonValue::Str(s)) if s == "relay"));
    match v.get("iceServers") {
        Some(JsonValue::Array(a)) => {
            assert_eq!(a.len(), 1);
            assert!(matches!(a[0].get("credential"), Some(JsonValue::Str(s)) if s == "p"));
        }
        _ => panic!("expected servers"),
    }
}

#[test]
fn memory_and_fields() {
    let status = "Name:\tgateway\nVmPeak:\t  9000 kB\nVmRSS:\t   12800 kB\r\nThreads:\t4\n";
    assert_eq!(vm_rss_kb(status), Some(12800));
    assert_eq!(vm_rss_kb("Name: x\n"), None);
    assert_eq!(vm_rss_kb("VmRSS:\n"), None);
    assert_eq!(vm_rss_kb("VmRSS: lots kB\nVmRSS: 5 kB"), None);
    assert_eq!(vm_rss_kb("VmRSS:7"), None);
    assert_eq!(vm_rss_kb("VmRSS: +42"), Some(42));
}

#[test]
fn snapshots_keep_recent_entries_and_repeat() {
    let day: u64 = 24 * 60 * 60 * 1000;
    let mut log = InferLog::new();
    log.push_at(10, "a".into(), None, None, None, "r0".into());
    log.push_at(day + 5, "b".into(), None, None, None, "r1".into());
    log.push_at(day + 20, "c".into(), None, None, None, "r2".into());
    let first = log.snapshot_at(day + 15);
    let names: Vec<String> = first.iter().map(|e| e.prompt.clone()).collect();
    assert_eq!(names, vec!["b".to_string(), "c".to_string()]);
    let again = log.snapshot_at(day + 15);
    assert_eq!(again.iter().map(|e| e.prompt.clone()).collect::<Vec<_>>(), names);
    let later = log.snapshot_at(2 * day + 10);
    assert_eq!(later.iter().map(|e| e.prompt.clone()).collect::<Vec<_>>(), vec!["c".to_string()]);
}

#[test]
fn payload_is_trimmed_and_single_fence_kept() {
    assert_eq!(extract_json_tool_payload("  ```json {\"a\":1}  "), "```json {\"a\":1}");
    assert_eq!(extract_json_tool_payload("\n```json\n {\"a\":1} \n```\n"), "{\"a\":1}");
    let r = extract_json_tool_payload("```\n\t x \n```");
    assert_eq!(r, r.trim());
}

#[test]
fn plan_display_text() {
    let steps = vec![
        ToolCall { category: "drone".into(), name: "goto_location".into(), params: Some(obj(vec![
            ("lon_deg", JsonValue::Number(JsonNumber::Float("120.47".into()))),
            ("lat_deg", JsonValue::Number(JsonNumber::Float("23.56".into()))),
            ("alt_m", JsonValue::Number(JsonNumber::PosInt(30))),
        ])) },
        ToolCall { category: "model".into(), name: "human_detect".into(), params: None },
    ];
    assert_eq!(
        tasks_display_json(&steps),
        r#"{"tasks":[{"category":"drone","name":"goto_location","params":{"alt_m":30,"lat_deg":23.56,"lon_deg":120.47}},{"category":"model","name":"human_detect"}]}"#
    );
    assert_eq!(tasks_display_json(&vec![]), r#"{"tasks":[]}"#);
}
