//! Scenarios of the gateway: plan parsing, drone argument
//! normalization, model tool mapping and pipeline timing.

use sar_gateway::drone_params::{normalize_drone_tasks, normalize_drone_tool_params};
use sar_gateway::json::{JsonNumber, JsonValue};
use sar_gateway::llm::{parse_tool_sequence, LlmToolPayload};
use sar_gateway::model_apply::map_gateway_model_tool;
use sar_gateway::timing::finalize_pipeline_layers;
use sar_gateway::types::{DroneStepTiming, ModelStepTiming, PipelineTiming, ToolCall};

fn obj(members: Vec<(&str, JsonValue)>) -> JsonValue {
    JsonValue::Object(members.into_iter().map(|(k, v)| (k.to_string(), v)).collect())
}

fn uint(u: u64) -> JsonValue {
    JsonValue::Number(JsonNumber::PosInt(u))
}

fn float(x: f64) -> JsonValue {
    JsonValue::Number(JsonNumber::Float(serde_json::Number::from_f64(x).unwrap().to_string()))
}

/// The number as `serde_json`'s `as_f64` reads it.
fn as_f64(v: Option<&JsonValue>) -> Option<f64> {
    match v {
        Some(JsonValue::Number(JsonNumber::PosInt(u))) => Some(*u as f64),
        Some(JsonValue::Number(JsonNumber::NegInt(i))) => Some(*i as f64),
        Some(JsonValue::Number(JsonNumber::Float(t))) => t.parse::<f64>().ok(),
        _ => None,
    }
}

#[test]
fn takeoff_zero_becomes_fifteen() {
    let out = normalize_drone_tool_params("takeoff", Some(obj(vec![("altitude_m", uint(0))]))).unwrap();
    assert_eq!(as_f64(out.get("altitude_m")), Some(15.0));
}

#[test]
fn takeoff_omitted_unchanged() {
    assert!(normalize_drone_tool_params("takeoff", None).is_none());
}

#[test]
fn goto_missing_alt_m_defaults() {
    let out = normalize_drone_tool_params(
        "goto_location",
        Some(obj(vec![("lat_deg", float(1.0)), ("lon_deg", float(2.0))])),
    )
    .unwrap();
    assert_eq!(as_f64(out.get("alt_m")), Some(15.0));
}

#[test]
fn normalizes_task_slice() {
    let mut tasks = vec![
        ToolCall {
            category: "drone".into(),
            name: "takeoff".into(),
            params: Some(obj(vec![("altitude_m", uint(0))])),
        },
        ToolCall {
            category: "drone".into(),
            name: "goto_location".into(),
            params: Some(obj(vec![("lat_deg", float(23.0)), ("lon_deg", float(120.0))])),
        },
    ];
    normalize_drone_tasks(&mut tasks);
    assert_eq!(as_f64(tasks[0].params.as_ref().unwrap().get("altitude_m")), Some(15.0));
    assert_eq!(as_f64(tasks[1].params.as_ref().unwrap().get("alt_m")), Some(15.0));
}

#[test]
fn rejects_trailing_comma() {
    let raw = r#"{"tasks":[{"category":"drone","name":"arm"},]}"#;
    assert!(parse_tool_sequence(raw).is_err());
}

#[test]
fn parses_valid_tasks() {
    let raw = r#"{"tasks":[{"category":"drone","name":"arm"}]}"#;
    match parse_tool_sequence(raw).unwrap() {
        LlmToolPayload::Tasks(t) => assert_eq!(t.len(), 1),
        _ => panic!("expected tasks"),
    }
}

#[test]
fn parses_none_in_tasks() {
    let raw = r#"{"tasks":[{"category":"none","name":"invalid_request"}]}"#;
    match parse_tool_sequence(raw).unwrap() {
        LlmToolPayload::NoneReason(r) => assert_eq!(r, "invalid_request"),
        _ => panic!("expected none reason"),
    }
}

#[test]
fn rejects_legacy_single_object() {
    let raw = r#"{"category":"none","name":"ambiguous_request"}"#;
    assert!(parse_tool_sequence(raw).is_err());
}

#[test]
fn unknown_tool_name_is_invalid_request() {
    let raw = r#"{"tasks":[{"category":"drone","name":"do_a_barrel_roll"}]}"#;
    match parse_tool_sequence(raw).unwrap() {
        LlmToolPayload::NoneReason(r) => assert_eq!(r, "invalid_request"),
        _ => panic!("expected invalid_request"),
    }
}

#[test]
fn force_arm_is_invalid_request() {
    let raw = r#"{"tasks":[{"category":"drone","name":"force_arm"}]}"#;
    match parse_tool_sequence(raw).unwrap() {
        LlmToolPayload::NoneReason(r) => assert_eq!(r, "invalid_request"),
        _ => panic!("expected invalid_request"),
    }
}

#[test]
fn valid_human_detect_still_works() {
    let raw = r#"{"tasks":[{"category":"model","name":"human_detect"}]}"#;
    match parse_tool_sequence(raw).unwrap() {
        LlmToolPayload::Tasks(t) => {
            assert_eq!(t.len(), 1);
            assert_eq!(t[0].category, "model");
            assert_eq!(t[0].name, "human_detect");
        }
        _ => panic!("expected tasks"),
    }
}

#[test]
fn goto_missing_alt_still_allowed() {
    let raw = r#"{"tasks":[{"category":"drone","name":"goto_location","params":{"lat_deg":23.56,"lon_deg":120.47}}]}"#;
    match parse_tool_sequence(raw).unwrap() {
        LlmToolPayload::Tasks(t) => {
            assert_eq!(t.len(), 1);
            let p = t[0].params.as_ref().unwrap();
            assert_eq!(as_f64(p.get("lat_deg")), Some(23.56));
            assert_eq!(as_f64(p.get("lon_deg")), Some(120.47));
            assert!(p.get("alt_m").is_none());
        }
        _ => panic!("expected tasks"),
    }
}

#[test]
fn maps_gateway_model_tools() {
    assert_eq!(map_gateway_model_tool("human_detect"), Some("detect_human"));
    assert_eq!(map_gateway_model_tool("flood_seg"), Some("detect_flood"));
    assert_eq!(map_gateway_model_tool("flood_class"), Some("detect_flood"));
    assert!(map_gateway_model_tool("takeoff").is_none());
}

#[test]
fn finalize_layers_sums() {
    let mut p = PipelineTiming {
        queue_wait_ms: 2,
        handler_total_ms: 1000,
        llm_http_ms: 800,
        llm_parse_ms: 10,
        ..Default::default()
    };
    let drone = vec![DroneStepTiming {
        step_index: 0,
        tool: "arm".into(),
        step_id: "x".into(),
        drone_http_ms: 150,
        dispatch_ms: Some(5),
        ack_wait_ms: Some(140),
        completion_status: None,
        ack_result: None,
        http_status: 200,
        ok: true,
    }];
    let model = vec![ModelStepTiming {
        step_index: 1,
        tool: "human_detect".into(),
        placeholder: false,
        elapsed_ms: 1,
        inference_ms: None,
        http_status: 200,
        ok: true,
    }];
    finalize_pipeline_layers(&mut p, &drone, &model);
    assert_eq!(p.llm_ms, 810);
    assert_eq!(p.drone_server_ms, 150);
    assert_eq!(p.drone_ack_wait_ms, 140);
    assert_eq!(p.model_server_ms, 1);
    assert_eq!(p.gateway_ms, 37);
}
