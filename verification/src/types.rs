//! Data shared by the gateway's modules: its state, tool calls, commands and timing records.

use vstd::prelude::*;
use crate::json::{JsonValue, JsonView, clone_opt, opt_json_view};

verus! {

/// What the gateway is doing.
#[allow(non_camel_case_types)]
#[derive(Debug, Clone, Copy, PartialEq, Eq, Structural)]
pub enum GatewayState {
    IDLE,
    ACTIVE,
    OVERRIDE_ACTIVE,
}

pub open spec fn state_name(s: GatewayState) -> Seq<char> {
    match s {
        GatewayState::IDLE => "IDLE"@,
        GatewayState::ACTIVE => "ACTIVE"@,
        GatewayState::OVERRIDE_ACTIVE => "OVERRIDE_ACTIVE"@,
    }
}

impl GatewayState {
    /// The state's name as shown in responses (`IDLE`, `ACTIVE`, `OVERRIDE_ACTIVE`).
    pub fn name(&self) -> (r: &'static str)
        ensures
            r@ == state_name(*self),
    {
        match self {
            GatewayState::IDLE => "IDLE",
            GatewayState::ACTIVE => "ACTIVE",
            GatewayState::OVERRIDE_ACTIVE => "OVERRIDE_ACTIVE",
        }
    }
}

/// One step of a plan: a drone or model tool, with optional structured arguments.
#[derive(Debug)]
pub struct ToolCall {
    pub category: String,
    pub name: String,
    pub params: Option<JsonValue>,
}

pub struct ToolCallView {
    pub category: Seq<char>,
    pub name: Seq<char>,
    pub params: Option<JsonView>,
}

impl View for ToolCall {
    type V = ToolCallView;

    open spec fn view(&self) -> ToolCallView {
        ToolCallView { category: self.category@, name: self.name@, params: opt_json_view(self.params) }
    }
}

/// The views of a sequence of tool calls.
pub open spec fn tool_calls_view(v: Seq<ToolCall>) -> Seq<ToolCallView> {
    Seq::new(v.len(), |i: int| v[i]@)
}

impl ToolCall {
    /// A copy of this tool call.
    pub fn copy(&self) -> (r: ToolCall)
        ensures
            r@ == self@,
    {
        ToolCall { category: self.category.clone(), name: self.name.clone(), params: clone_opt(&self.params) }
    }
}

/// A copy of a list of tool calls.
pub fn copy_tool_calls(v: &Vec<ToolCall>) -> (r: Vec<ToolCall>)
    ensures
        tool_calls_view(r@) == tool_calls_view(v@),
{
    let mut out: Vec<ToolCall> = Vec::new();
    let mut i: usize = 0;
    while i < v.len()
        invariant
            i <= v@.len(),
            out@.len() == i,
            forall|j: int| 0 <= j < i ==> (#[trigger] out@[j])@ == v@[j]@,
        decreases v@.len() - i,
    {
        out.push(v[i].copy());
        i = i + 1;
    }
    assert(tool_calls_view(out@) =~= tool_calls_view(v@));
    out
}


/// Per-request stage timings, in milliseconds, with per-layer totals.
#[derive(Debug, Clone, Default)]
pub struct PipelineTiming {
    pub gateway_received_ms: u64,
    pub gateway_response_ms: Option<u64>,
    pub queue_wait_ms: u64,
    pub handler_total_ms: u64,
    pub llm_http_ms: u64,
    pub llm_parse_ms: u64,
    pub apply_total_ms: Option<u64>,
    pub prompt_to_final_ack_ms: Option<u64>,
    pub client_dispatch_ms: Option<u64>,
    /// LLM HTTP plus parse time.
    pub llm_ms: u64,
    /// Sum of the drone service round trips.
    pub drone_server_ms: u64,
    /// Sum of the reported ACK waits.
    pub drone_ack_wait_ms: u64,
    /// Sum of the model server round trips.
    pub model_server_ms: u64,
    /// Handler time not accounted for by the layers above (nor by queueing).
    pub gateway_ms: u64,
}

/// Timing of one drone step.
#[derive(Debug, Clone)]
pub struct DroneStepTiming {
    pub step_index: usize,
    pub tool: String,
    pub step_id: String,
    pub drone_http_ms: u64,
    pub dispatch_ms: Option<u64>,
    pub ack_wait_ms: Option<u64>,
    pub completion_status: Option<String>,
    pub ack_result: Option<String>,
    pub http_status: u16,
    pub ok: bool,
}

/// Timing of one model step.
#[derive(Debug, Clone)]
pub struct ModelStepTiming {
    pub step_index: usize,
    pub tool: String,
    /// The model path is not wired yet: the step was recorded, not run.
    pub placeholder: bool,
    pub elapsed_ms: u64,
    pub inference_ms: Option<u64>,
    pub http_status: u16,
    pub ok: bool,
}

/// Per-request options for the orchestrator (infer / eval end-to-end).
#[derive(Debug, Clone, Copy)]
pub struct ProcessOptions {
    pub wait_for_drone_ack: bool,
    pub ack_timeout_ms: u64,
}

impl ProcessOptions {
    /// The options that the `DRONE_WAIT_FOR_ACK` and `DRONE_ACK_TIMEOUT_MS` settings
    /// give (`None` when unset).
    pub fn from_settings(wait_var: Option<&str>, timeout_var: Option<&str>) -> (r: ProcessOptions)
        ensures
            r.wait_for_drone_ack == crate::config::wait_for_ack(match wait_var { Some(v) => Some(v@), None => None }),
            r.ack_timeout_ms == (match timeout_var {
                Some(v) => match crate::text::parse_u64(v@) { Some(n) => n, None => 3000 },
                None => 3000,
            }),
    {
        ProcessOptions {
            wait_for_drone_ack: crate::config::drone_wait_for_ack_default(wait_var),
            ack_timeout_ms: crate::config::drone_ack_timeout_ms_default(timeout_var),
        }
    }
}

/// Request arrival data for pipeline timing.
#[derive(Debug, Clone, Copy)]
pub struct HandlerTimingInput {
    pub gateway_received_ms: u64,
    pub queue_wait_ms: u64,
    pub client_dispatch_ms: Option<u64>,
}

/// A command to the gateway (the body of `POST /infer`).
#[derive(Debug)]
pub enum GatewayCommand {
    Infer { prompt: String },
    /// Apply a previously proposed tool (after the operator accepts it).
    ApplyTool {
        category: String,
        tool_name: String,
        /// Forwarded to the drone service for tools that need extra fields (`seq`, `lat_deg`, …).
        params: Option<JsonValue>,
    },
    /// Apply an ordered list of tools after one operator approval.
    ApplyToolSequence { tools: Vec<ToolCall> },
    Override { model: String, timeout_sec: Option<u64> },
    ClearOverride,
    Status,
}

/// What a command produced.
#[derive(Debug)]
pub struct CommandOutcome {
    pub latency_ms: u64,
    pub llm_latency_ms: u64,
    pub action_taken: String,
    pub llm_response: String,
    pub category: Option<String>,
    pub tool_name: Option<String>,
    pub pending_approval: bool,
    pub drone_http_status: Option<u16>,
    pub drone_http_ms: Option<u64>,
    pub drone_error: Option<String>,
    pub trace: Vec<String>,
    pub tool_params: Option<JsonValue>,
    pub tools: Option<Vec<ToolCall>>,
    pub llm_tool_json: Option<String>,
    pub pipeline: Option<PipelineTiming>,
    pub drone_steps: Vec<DroneStepTiming>,
    pub model_steps: Vec<ModelStepTiming>,
    pub llm_http_ms: u64,
    pub llm_parse_ms: u64,
    pub apply_total_ms: Option<u64>,
}

/// The body of a `POST /infer` response.
#[derive(Debug)]
pub struct ApiResponse {
    pub state: String,
    pub model: Option<String>,
    pub override_active: bool,
    pub category: Option<String>,
    pub tool_name: Option<String>,
    /// When true, this response is a proposal the operator should accept before it is applied.
    pub pending_approval: bool,
    pub llm_response: String,
    pub action_taken: String,
    pub latency_ms: u64,
    pub llm_latency_ms: u64,
    /// Correlates gateway logs with the drone service and browser devtools.
    pub request_id: String,
    /// Ordered pipeline stages for debugging (no secrets).
    pub debug_trace: Vec<String>,
    pub drone_http_status: Option<u16>,
    pub drone_http_ms: Option<u64>,
    pub drone_error: Option<String>,
    /// Structured arguments of the first step of a plan.
    pub tool_params: Option<JsonValue>,
    /// Ordered steps of the plan (applied immediately after infer).
    pub tools: Option<Vec<ToolCall>>,
    /// Tool JSON from the LLM reply.
    pub llm_tool_json: Option<String>,
    pub pipeline: Option<PipelineTiming>,
    pub drone_steps: Vec<DroneStepTiming>,
    pub model_steps: Vec<ModelStepTiming>,
}

} // verus!
