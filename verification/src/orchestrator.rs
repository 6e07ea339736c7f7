//! The gateway's decisions: its state (mode, model, override, last command) and how
//! each command changes it. A command runs as a sequence of steps; the outside work
//! between them (the LLM call, each drone step) is done at the edge, which hands the
//! results back (see [`Action`]).

use vstd::prelude::*;
use vstd::utf8::encode_utf8;
use crate::drone_apply::{DroneApplyResult, drone_apply_body, drone_http_timeout_secs, opt_str_view, request_body};
use crate::json::{JsonValue, clone_opt, json_text, opt_json_view};
use crate::llm::{LlmToolPayload, ToolParseError, normalize_none_reason, normalized_reason};
use crate::drone_params::{normalize_drone_tasks, normalized_task, tasks_display, tasks_display_json};
use crate::llm_decision::LlmToolDecisionOutcome;
use crate::text::{concat2, decimal, push_decimal, push_str, str_eq, string_views};
use crate::timing::{drone_step_id, step_id};
use crate::types::{
    DroneStepTiming, GatewayCommand, GatewayState, HandlerTimingInput, ModelStepTiming,
    PipelineTiming, ProcessOptions, ToolCall, ToolCallView, CommandOutcome, copy_tool_calls, state_name,
    tool_calls_view,
};

verus! {

/// The gateway's state.
#[derive(Debug)]
pub struct Orchestrator {
    pub current_state: GatewayState,
    pub current_model: Option<String>,
    /// End of a manual model override, in ms on the gateway's clock.
    pub override_until: Option<u64>,
    /// Last command category (`drone` or `model`) from a tool call; `None` when idle.
    pub last_command_category: Option<String>,
    /// Last command name (e.g. `takeoff`, `human_detect`); `None` when idle.
    pub last_command_name: Option<String>,
}

/// `"{category}: {name}"` when a command is recorded, else `none`.
pub open spec fn active_command(category: Option<Seq<char>>, name: Option<Seq<char>>) -> Seq<char> {
    match (category, name) {
        (Some(c), Some(n)) => c + ": "@ + n,
        _ => "none"@,
    }
}

/// An override is in effect: the state says so and its end has not come.
pub open spec fn override_in_effect(state: GatewayState, until: Option<u64>, now_ms: u64) -> bool {
    state == GatewayState::OVERRIDE_ACTIVE && match until {
        Some(t) => t > now_ms,
        None => false,
    }
}

/// The model after a tool step, and what was done: a model step activates the
/// `vision` model unless an override is in effect; other steps leave the model.
pub open spec fn model_after_step(category: Seq<char>, model: Option<Seq<char>>, override_active: bool) -> Option<Seq<char>> {
    if category == "model"@ && !override_active { Some("vision"@) } else { model }
}

pub open spec fn step_action(category: Seq<char>, name: Seq<char>, override_active: bool) -> Seq<char> {
    if override_active && category == "model"@ {
        "override_active_skip_model_change: "@ + name
    } else if category == "model"@ {
        "Python worker will activate: "@ + name
    } else {
        "Drone command: "@ + name
    }
}

impl Orchestrator {
    pub fn new() -> (r: Orchestrator)
        ensures
            r.current_state == GatewayState::IDLE,
            r.current_model is None,
            r.override_until is None,
            r.last_command_category is None,
            r.last_command_name is None,
    {
        Orchestrator {
            current_state: GatewayState::IDLE,
            current_model: None,
            override_until: None,
            last_command_category: None,
            last_command_name: None,
        }
    }

    /// Human-readable active command for status: `drone: takeoff`, `model: human_detect`, or `none`.
    pub fn active_command_display(&self) -> (r: String)
        ensures
            r@ == active_command(opt_str_view(self.last_command_category), opt_str_view(self.last_command_name)),
    {
        match (&self.last_command_category, &self.last_command_name) {
            (Some(cat), Some(name)) => {
                let mut r = concat2(cat.as_str(), ": ");
                push_str(&mut r, name.as_str());
                r
            },
            _ => String::from_str("none"),
        }
    }

    /// The current model's name, or `none`.
    pub fn effective_model_name(&self) -> (r: &str)
        ensures
            r@ == (match self.current_model { Some(m) => m@, None => "none"@ }),
    {
        match &self.current_model {
            Some(m) => m.as_str(),
            None => "none",
        }
    }

    /// Whether a manual override is in effect at `now_ms`.
    pub fn override_active(&self, now_ms: u64) -> (r: bool)
        ensures
            r == override_in_effect(self.current_state, self.override_until, now_ms),
    {
        match self.current_state {
            GatewayState::OVERRIDE_ACTIVE => match self.override_until {
                Some(t) => t > now_ms,
                None => false,
            },
            _ => false,
        }
    }

    /// Applies the model decision of one tool step; returns what was done.
    fn handle_tool_call(&mut self, category: &str, name: &str, override_active: bool) -> (r: String)
        ensures
            opt_str_view(final(self).current_model) == model_after_step(category@, opt_str_view(old(self).current_model), override_active),
            final(self).current_state == old(self).current_state,
            final(self).override_until == old(self).override_until,
            final(self).last_command_category == old(self).last_command_category,
            final(self).last_command_name == old(self).last_command_name,
            r@ == step_action(category@, name@, override_active),
    {
        let is_model = str_eq(category, "model");
        if override_active && is_model {
            concat2("override_active_skip_model_change: ", name)
        } else if is_model {
            self.current_model = Some(String::from_str("vision"));
            concat2("Python worker will activate: ", name)
        } else {
            concat2("Drone command: ", name)
        }
    }
}

/// Which command a run is carrying out.
#[derive(Debug, Clone, Copy, PartialEq, Eq, Structural)]
pub enum RunKind {
    Infer,
    ApplyTool,
    Sequence,
    Immediate,
}

/// Where a run stands.
#[derive(Debug, Clone, Copy, PartialEq, Eq, Structural)]
pub enum Phase {
    AwaitingLlm,
    Applying,
    Done,
}

/// A command being carried out, with what it has produced so far.
#[derive(Debug)]
pub struct CommandRun {
    pub request_id: String,
    pub options: ProcessOptions,
    pub kind: RunKind,
    pub phase: Phase,
    pub prompt: String,
    pub override_active: bool,
    /// The steps to apply, in order.
    pub plan: Vec<ToolCall>,
    /// Index of the next step to apply.
    pub next_step: usize,
    pub last_success: Option<usize>,
    pub stopped_at: Option<usize>,
    /// An infer command accepted a plan and applied it.
    pub plan_applied: bool,
    pub new_state: GatewayState,
    pub trace: Vec<String>,
    pub llm_latency_ms: u64,
    pub llm_http_ms: u64,
    pub llm_parse_ms: u64,
    pub action_taken: String,
    pub llm_response: String,
    pub category: Option<String>,
    pub tool_name: Option<String>,
    pub pending_approval: bool,
    pub drone_http_status: Option<u16>,
    pub drone_http_ms: Option<u64>,
    pub drone_error: Option<String>,
    pub tool_params: Option<JsonValue>,
    pub tools: Option<Vec<ToolCall>>,
    /// The JSON display of an accepted infer plan, or for a reply that could not be
    /// read as a plan, the assistant text.
    pub llm_tool_json: Option<String>,
    pub drone_steps: Vec<DroneStepTiming>,
    pub model_steps: Vec<ModelStepTiming>,
}

/// Outside work the edge must do before the run can go on.
#[derive(Debug)]
pub enum Action {
    /// Ask the LLM for a tool plan for this prompt, then call `on_llm_decision`.
    CallLlm(String),
    /// Send this body to the drone service, then call `on_drone_result`.
    ApplyDrone {
        step_index: usize,
        step_id: String,
        tool: String,
        body: JsonValue,
        timeout_secs: u64,
    },
    /// Nothing to do outside; call `advance` again.
    Continue,
    /// The run is over; call `finish_command`.
    Finish,
}



/// The end of an override of `timeout_sec` seconds (default 60) set at `now_ms`,
/// saturating at the largest time.
pub open spec fn override_deadline(now_ms: u64, timeout_sec: Option<u64>) -> u64 {
    let t = match timeout_sec { Some(t) => t as int, None => 60 };
    let end = now_ms + t * 1000;
    if end > u64::MAX { u64::MAX } else { end as u64 }
}

pub open spec fn bool_text(b: bool) -> Seq<char> {
    if b { "true"@ } else { "false"@ }
}

/// The trace line that opens a command.
pub open spec fn command_line(cmd: GatewayCommand) -> Seq<char> {
    match cmd {
        GatewayCommand::Infer { prompt } => "command=Infer prompt_len="@ + decimal((encode_utf8(prompt@).len() as usize) as nat),
        GatewayCommand::ApplyTool { category, tool_name, params } =>
            "command=ApplyTool category="@ + category@ + " tool="@ + tool_name@ + " has_params="@ + bool_text(params is Some),
        GatewayCommand::ApplyToolSequence { tools } => "command=ApplyToolSequence steps="@ + decimal(tools@.len()),
        GatewayCommand::Override { .. } => "command=Override"@,
        GatewayCommand::ClearOverride => "command=ClearOverride"@,
        GatewayCommand::Status => "command=Status"@,
    }
}

/// A run as it is created: nothing produced yet.
pub open spec fn fresh_run(run: CommandRun, request_id: Seq<char>, options: ProcessOptions) -> bool {
    &&& run.request_id@ == request_id
    &&& run.options == options
    &&& run.next_step == 0
    &&& run.last_success is None
    &&& run.stopped_at is None
    &&& !run.plan_applied
    &&& run.llm_latency_ms == 0 && run.llm_http_ms == 0 && run.llm_parse_ms == 0
    &&& run.llm_response@.len() == 0
    &&& !run.pending_approval
    &&& run.drone_http_status is None && run.drone_http_ms is None && run.drone_error is None
    &&& run.tools is None
    &&& run.llm_tool_json is None
    &&& run.drone_steps@.len() == 0
    &&& run.model_steps@.len() == 0
}

fn empty_run(request_id: &str, options: ProcessOptions, kind: RunKind, new_state: GatewayState, trace: Vec<String>) -> (r: CommandRun)
    ensures
        fresh_run(r, request_id@, options),
        r.kind == kind,
        r.phase == Phase::Done,
        r.new_state == new_state,
        r.trace@ == trace@,
        r.plan@.len() == 0,
        r.prompt@.len() == 0,
        !r.override_active,
        r.action_taken@.len() == 0,
        r.category is None && r.tool_name is None,
        r.tool_params is None,
{
    CommandRun {
        request_id: String::from_str(request_id),
        options,
        kind,
        phase: Phase::Done,
        prompt: String::new(),
        override_active: false,
        plan: Vec::new(),
        next_step: 0,
        last_success: None,
        stopped_at: None,
        plan_applied: false,
        new_state,
        trace,
        llm_latency_ms: 0,
        llm_http_ms: 0,
        llm_parse_ms: 0,
        action_taken: String::new(),
        llm_response: String::new(),
        category: None,
        tool_name: None,
        pending_approval: false,
        drone_http_status: None,
        drone_http_ms: None,
        drone_error: None,
        tool_params: None,
        tools: None,
        llm_tool_json: None,
        drone_steps: Vec::new(),
        model_steps: Vec::new(),
    }
}

fn string_of(s: &str) -> (r: String)
    ensures
        r@ == s@,
{
    String::from_str(s)
}

impl Orchestrator {
    /// Starts carrying out a command received at `now_ms`. Override, ClearOverride
    /// and Status complete here; Infer asks for the LLM unless an override is in
    /// effect; ApplyTool and ApplyToolSequence go on to apply their steps.
    pub fn begin_command(&mut self, cmd: GatewayCommand, request_id: &str, now_ms: u64, options: ProcessOptions) -> (run: CommandRun)
        ensures
            fresh_run(run, request_id@, options),
            run_wf(run),
            string_views(run.trace@).len() >= 2,
            string_views(run.trace@)[0] == "gateway_request_id="@ + request_id@,
            string_views(run.trace@)[1] == command_line(cmd),
            final(self).current_state == old(self).current_state,
            match cmd {
                GatewayCommand::Infer { prompt } => {
                    let active = override_in_effect(old(self).current_state, old(self).override_until, now_ms);
                    &&& run.kind == RunKind::Infer
                    &&& *final(self) == *old(self)
                    &&& run.category is None && run.tool_name is None && run.tool_params is None
                    &&& run.plan@.len() == 0
                    &&& if active {
                        &&& run.phase == Phase::Done
                        &&& run.new_state == GatewayState::OVERRIDE_ACTIVE
                        &&& run.action_taken@ == "override_active_skip_llm"@
                        &&& string_views(run.trace@) == seq![
                            "gateway_request_id="@ + request_id@, command_line(cmd), "stage=infer_skipped_override_active"@]
                    } else {
                        &&& run.phase == Phase::AwaitingLlm
                        &&& run.prompt@ == prompt@
                        &&& run.new_state == old(self).current_state
                        &&& run.action_taken@.len() == 0
                        &&& string_views(run.trace@) == seq!["gateway_request_id="@ + request_id@, command_line(cmd)]
                    }
                },
                GatewayCommand::ApplyTool { category, tool_name, params } => {
                    let active = override_in_effect(old(self).current_state, old(self).override_until, now_ms);
                    &&& run.kind == RunKind::ApplyTool
                    &&& run.override_active == active
                    &&& opt_str_view(final(self).current_model) == model_after_step(category@, opt_str_view(old(self).current_model), active)
                    &&& final(self).override_until == old(self).override_until
                    &&& opt_str_view(final(self).last_command_category) == Some(category@)
                    &&& opt_str_view(final(self).last_command_name) == Some(tool_name@)
                    &&& run.new_state == GatewayState::ACTIVE
                    &&& run.action_taken@ == step_action(category@, tool_name@, active)
                    &&& opt_str_view(run.category) == Some(category@)
                    &&& opt_str_view(run.tool_name) == Some(tool_name@)
                    &&& opt_json_view(run.tool_params) == opt_json_view(params)
                    &&& string_views(run.trace@) == seq!["gateway_request_id="@ + request_id@, command_line(cmd)]
                        + (if category@ == "model"@ { seq!["stage=model_apply_placeholder"@] } else { seq![] })
                    &&& if category@ == "drone"@ {
                        &&& run.phase == Phase::Applying
                        &&& tool_calls_view(run.plan@) == seq![ToolCallView { category: category@, name: tool_name@, params: opt_json_view(params) }]
                    } else {
                        run.phase == Phase::Done && run.plan@.len() == 0
                    }
                },
                GatewayCommand::ApplyToolSequence { tools } => {
                    &&& run.kind == RunKind::Sequence
                    &&& *final(self) == *old(self)
                    &&& run.category is None && run.tool_name is None && run.tool_params is None
                    &&& if tools@.len() == 0 {
                        &&& run.phase == Phase::Done
                        &&& run.new_state == old(self).current_state
                        &&& run.action_taken@ == "apply_sequence_empty"@
                        &&& run.plan@.len() == 0
                        &&& string_views(run.trace@) == seq![
                            "gateway_request_id="@ + request_id@, command_line(cmd), "stage=apply_sequence_empty"@]
                    } else {
                        &&& run.phase == Phase::Applying
                        &&& run.new_state == GatewayState::ACTIVE
                        &&& run.override_active == override_in_effect(old(self).current_state, old(self).override_until, now_ms)
                        &&& tool_calls_view(run.plan@) == tool_calls_view(tools@)
                        &&& run.action_taken@.len() == 0
                        &&& string_views(run.trace@) == seq!["gateway_request_id="@ + request_id@, command_line(cmd)]
                    }
                },
                GatewayCommand::Override { model, timeout_sec } => {
                    &&& run.kind == RunKind::Immediate
                    &&& run.phase == Phase::Done
                    &&& final(self).override_until == Some(override_deadline(now_ms, timeout_sec))
                    &&& opt_str_view(final(self).current_model) == Some(model@)
                    &&& final(self).last_command_category == old(self).last_command_category
                    &&& final(self).last_command_name == old(self).last_command_name
                    &&& run.new_state == GatewayState::OVERRIDE_ACTIVE
                    &&& run.action_taken@ == "override_set"@
                    &&& run.category is None && run.tool_name is None && run.tool_params is None
                    &&& string_views(run.trace@) == seq!["gateway_request_id="@ + request_id@, command_line(cmd)]
                },
                GatewayCommand::ClearOverride => {
                    &&& run.kind == RunKind::Immediate
                    &&& run.phase == Phase::Done
                    &&& final(self).override_until is None
                    &&& final(self).current_model is None
                    &&& final(self).last_command_category is None
                    &&& final(self).last_command_name is None
                    &&& run.new_state == GatewayState::IDLE
                    &&& run.action_taken@ == "override_cleared"@
                    &&& run.category is None && run.tool_name is None && run.tool_params is None
                    &&& string_views(run.trace@) == seq!["gateway_request_id="@ + request_id@, command_line(cmd)]
                },
                GatewayCommand::Status => {
                    &&& run.kind == RunKind::Immediate
                    &&& run.phase == Phase::Done
                    &&& *final(self) == *old(self)
                    &&& run.new_state == old(self).current_state
                    &&& run.action_taken@ == "status_only"@
                    &&& run.category is None && run.tool_name is None && run.tool_params is None
                    &&& string_views(run.trace@) == seq!["gateway_request_id="@ + request_id@, command_line(cmd)]
                },
            },
    {
        let ghost cmd0 = cmd;
        let ghost line = command_line(cmd);
        let mut trace: Vec<String> = Vec::new();
        trace.push(concat2("gateway_request_id=", request_id));
        match cmd {
            GatewayCommand::Infer { prompt } => {
                let mut l = String::from_str("command=Infer prompt_len=");
                let plen = prompt.as_str().len();
                push_decimal(&mut l, plen as u64);
                assert(l@ =~= line);
                trace.push(l);
                let active = self.override_active(now_ms);
                if active {
                    trace.push(string_of("stage=infer_skipped_override_active"));
                    let mut run = empty_run(request_id, options, RunKind::Infer, GatewayState::OVERRIDE_ACTIVE, trace);
                    run.action_taken = string_of("override_active_skip_llm");
                    assert(string_views(run.trace@) =~= seq![
                        "gateway_request_id="@ + request_id@, line, "stage=infer_skipped_override_active"@]);
                    run
                } else {
                    let mut run = empty_run(request_id, options, RunKind::Infer, self.current_state, trace);
                    run.phase = Phase::AwaitingLlm;
                    run.prompt = prompt;
                    assert(string_views(run.trace@) =~= seq!["gateway_request_id="@ + request_id@, line]);
                    run
                }
            },
            GatewayCommand::ApplyTool { category, tool_name, params } => {
                let mut l = String::from_str("command=ApplyTool category=");
                push_str(&mut l, category.as_str());
                push_str(&mut l, " tool=");
                push_str(&mut l, tool_name.as_str());
                push_str(&mut l, " has_params=");
                push_str(&mut l, if params.is_some() { "true" } else { "false" });
                assert(l@ =~= line);
                trace.push(l);
                let active = self.override_active(now_ms);
                let act = self.handle_tool_call(category.as_str(), tool_name.as_str(), active);
                self.last_command_category = Some(category.clone());
                self.last_command_name = Some(tool_name.clone());
                let is_model = str_eq(category.as_str(), "model");
                if is_model {
                    trace.push(string_of("stage=model_apply_placeholder"));
                }
                let mut run = empty_run(request_id, options, RunKind::ApplyTool, GatewayState::ACTIVE, trace);
                run.override_active = active;
                run.action_taken = act;
                run.tool_params = clone_opt(&params);
                run.category = Some(category.clone());
                run.tool_name = Some(tool_name.clone());
                assert(string_views(run.trace@) =~= seq!["gateway_request_id="@ + request_id@, line]
                    + (if category@ == "model"@ { seq!["stage=model_apply_placeholder"@] } else { seq![] }));
                if str_eq(category.as_str(), "drone") {
                    let ghost pv = opt_json_view(params);
                    let mut plan: Vec<ToolCall> = Vec::new();
                    plan.push(ToolCall { category, name: tool_name, params });
                    run.plan = plan;
                    run.phase = Phase::Applying;
                    assert(tool_calls_view(run.plan@) =~= seq![ToolCallView { category: cmd0->category@, name: cmd0->tool_name@, params: pv }]);
                }
                run
            },
            GatewayCommand::ApplyToolSequence { tools } => {
                let mut l = String::from_str("command=ApplyToolSequence steps=");
                push_decimal(&mut l, tools.len() as u64);
                trace.push(l);
                if tools.len() == 0 {
                    trace.push(string_of("stage=apply_sequence_empty"));
                    let mut run = empty_run(request_id, options, RunKind::Sequence, self.current_state, trace);
                    run.action_taken = string_of("apply_sequence_empty");
                    assert(string_views(run.trace@) =~= seq![
                        "gateway_request_id="@ + request_id@, line, "stage=apply_sequence_empty"@]);
                    run
                } else {
                    let active = self.override_active(now_ms);
                    let mut run = empty_run(request_id, options, RunKind::Sequence, GatewayState::ACTIVE, trace);
                    run.override_active = active;
                    run.plan = tools;
                    run.phase = Phase::Applying;
                    assert(string_views(run.trace@) =~= seq!["gateway_request_id="@ + request_id@, line]);
                    run
                }
            },
            GatewayCommand::Override { model, timeout_sec } => {
                trace.push(string_of("command=Override"));
                let t: u64 = match timeout_sec {
                    Some(t) => t,
                    None => 60,
                };
                let until = match t.checked_mul(1000) {
                    Some(ms) => now_ms.saturating_add(ms),
                    None => u64::MAX,
                };
                self.override_until = Some(until);
                self.current_model = Some(model);
                let mut run = empty_run(request_id, options, RunKind::Immediate, GatewayState::OVERRIDE_ACTIVE, trace);
                run.action_taken = string_of("override_set");
                assert(string_views(run.trace@) =~= seq!["gateway_request_id="@ + request_id@, line]);
                run
            },
            GatewayCommand::ClearOverride => {
                trace.push(string_of("command=ClearOverride"));
                self.override_until = None;
                self.current_model = None;
                self.last_command_category = None;
                self.last_command_name = None;
                let mut run = empty_run(request_id, options, RunKind::Immediate, GatewayState::IDLE, trace);
                run.action_taken = string_of("override_cleared");
                assert(string_views(run.trace@) =~= seq!["gateway_request_id="@ + request_id@, line]);
                run
            },
            GatewayCommand::Status => {
                trace.push(string_of("command=Status"));
                let mut run = empty_run(request_id, options, RunKind::Immediate, self.current_state, trace);
                run.action_taken = string_of("status_only");
                assert(string_views(run.trace@) =~= seq!["gateway_request_id="@ + request_id@, line]);
                run
            },
        }
    }
}


/// `sequence_stopped_at_step_{index}_tool_{name}`.
pub open spec fn stopped_action(index: nat, name: Seq<char>) -> Seq<char> {
    "sequence_stopped_at_step_"@ + decimal(index) + "_tool_"@ + name
}

/// `sequence_ok:{n}_steps`.
pub open spec fn sequence_ok_action(n: nat) -> Seq<char> {
    "sequence_ok:"@ + decimal(n) + "_steps"@
}

/// What a finished plan reports. An infer plan of one step names it
/// (`drone_http_ok:{name}` for a drone step, `model_tool_applied:{name}` otherwise);
/// any other completed plan reports `sequence_ok:{n}_steps`; a stopped plan
/// reports where it stopped.
pub open spec fn plan_action(kind: RunKind, plan: Seq<ToolCallView>, stopped_at: Option<usize>) -> Seq<char> {
    match stopped_at {
        Some(i) => stopped_action(i as nat, plan[i as int].name),
        None => {
            if kind == RunKind::Infer && plan.len() == 1 {
                if plan[0].category == "drone"@ {
                    "drone_http_ok:"@ + plan[0].name
                } else {
                    "model_tool_applied:"@ + plan[0].name
                }
            } else {
                sequence_ok_action(plan.len())
            }
        },
    }
}

/// A run whose indices fit its plan and that leaves nothing awaiting approval
/// (infer applies its plan at once).
pub open spec fn run_wf(run: CommandRun) -> bool {
    &&& !run.pending_approval
    &&& run.next_step <= run.plan@.len()
    &&& run.last_success matches Some(k) ==> k < run.plan@.len()
    &&& run.stopped_at matches Some(k) ==> k < run.plan@.len()
}

/// The last step of the plan that succeeded becomes the active command and the
/// command the run reports; nothing else of the gateway changes.
pub open spec fn last_success_effects(old_o: Orchestrator, o: Orchestrator, old_r: CommandRun, r: CommandRun) -> bool {
    let plan = tool_calls_view(old_r.plan@);
    &&& o.current_state == old_o.current_state
    &&& o.current_model == old_o.current_model
    &&& o.override_until == old_o.override_until
    &&& match old_r.last_success {
        Some(k) => {
            &&& opt_str_view(o.last_command_category) == Some(plan[k as int].category)
            &&& opt_str_view(o.last_command_name) == Some(plan[k as int].name)
            &&& opt_str_view(r.category) == Some(plan[k as int].category)
            &&& opt_str_view(r.tool_name) == Some(plan[k as int].name)
        },
        None => {
            &&& o.last_command_category == old_o.last_command_category
            &&& o.last_command_name == old_o.last_command_name
            &&& r.category == old_r.category
            &&& r.tool_name == old_r.tool_name
        },
    }
}

/// The effects of finishing a plan that applied steps, on the run and the gateway:
/// the last step that succeeded becomes the active command.
pub open spec fn completed(old_o: Orchestrator, o: Orchestrator, old_r: CommandRun, r: CommandRun) -> bool {
    let plan = tool_calls_view(old_r.plan@);
    &&& r.phase == Phase::Done
    &&& r.action_taken@ == plan_action(old_r.kind, plan, old_r.stopped_at)
    &&& last_success_effects(old_o, o, old_r, r)
    &&& string_views(r.trace@) == string_views(old_r.trace@)
        + (if old_r.kind != RunKind::Infer && old_r.stopped_at is None { seq!["stage=sequence_complete"@] } else { seq![] })
}

/// Everything about a run but its trace, phase, action and reported command stays.
pub open spec fn run_rest_same(a: CommandRun, b: CommandRun) -> bool {
    &&& b.request_id == a.request_id
    &&& b.options == a.options
    &&& b.kind == a.kind
    &&& b.prompt == a.prompt
    &&& b.override_active == a.override_active
    &&& b.plan == a.plan
    &&& b.next_step == a.next_step
    &&& b.last_success == a.last_success
    &&& b.stopped_at == a.stopped_at
    &&& b.plan_applied == a.plan_applied
    &&& b.new_state == a.new_state
    &&& b.llm_latency_ms == a.llm_latency_ms
    &&& b.llm_http_ms == a.llm_http_ms
    &&& b.llm_parse_ms == a.llm_parse_ms
    &&& b.llm_response == a.llm_response
    &&& b.pending_approval == a.pending_approval
    &&& b.drone_http_status == a.drone_http_status
    &&& b.drone_http_ms == a.drone_http_ms
    &&& b.drone_error == a.drone_error
    &&& b.tool_params == a.tool_params
    &&& b.tools == a.tools
    &&& b.llm_tool_json == a.llm_tool_json
    &&& b.drone_steps == a.drone_steps
    &&& b.model_steps == a.model_steps
}

fn push_line(trace: &mut Vec<String>, line: String)
    ensures
        string_views(final(trace)@) == string_views(old(trace)@).push(line@),
{
    let ghost t0 = trace@;
    trace.push(line);
    assert(string_views(trace@) =~= string_views(t0).push(line@));
}

impl Orchestrator {
    /// Finishes a plan (see [`completed`]).
    fn complete_plan(&mut self, run: &mut CommandRun)
        requires
            run_wf(*old(run)),
        ensures
            run_wf(*final(run)),
            completed(*old(self), *final(self), *old(run), *final(run)),
            run_rest_same(*old(run), *final(run)),
    {
        let ghost plan = tool_calls_view(run.plan@);
        match run.last_success {
            Some(k) => {
                self.last_command_category = Some(run.plan[k].category.clone());
                self.last_command_name = Some(run.plan[k].name.clone());
                run.category = Some(run.plan[k].category.clone());
                run.tool_name = Some(run.plan[k].name.clone());
                assert(plan[k as int] == run.plan@[k as int]@);
            },
            None => {},
        }
        let n = run.plan.len();
        match run.stopped_at {
            Some(i) => {
                let mut a = String::from_str("sequence_stopped_at_step_");
                push_decimal(&mut a, i as u64);
                push_str(&mut a, "_tool_");
                push_str(&mut a, run.plan[i].name.as_str());
                assert(plan[i as int] == run.plan@[i as int]@);
                assert(a@ =~= stopped_action(i as nat, plan[i as int].name));
                run.action_taken = a;
            },
            None => {
                let is_infer = match run.kind { RunKind::Infer => true, _ => false };
                if is_infer && n == 1 {
                    assert(plan[0] == run.plan@[0]@);
                    if str_eq(run.plan[0].category.as_str(), "drone") {
                        run.action_taken = concat2("drone_http_ok:", run.plan[0].name.as_str());
                    } else {
                        run.action_taken = concat2("model_tool_applied:", run.plan[0].name.as_str());
                    }
                } else {
                    let mut a = String::from_str("sequence_ok:");
                    push_decimal(&mut a, n as u64);
                    push_str(&mut a, "_steps");
                    assert(a@ =~= sequence_ok_action(n as nat));
                    run.action_taken = a;
                }
                if !is_infer {
                    push_line(&mut run.trace, string_of("stage=sequence_complete"));
                    assert(string_views(run.trace@) =~= string_views(old(run).trace@) + seq!["stage=sequence_complete"@]);
                }
            },
        }
        if run.stopped_at.is_some() || match run.kind { RunKind::Infer => true, _ => false } {
            assert(string_views(run.trace@) =~= string_views(old(run).trace@) + Seq::<Seq<char>>::empty());
        }
        run.phase = Phase::Done;
    }
}


/// Fields a step leaves alone: all but its progress (`next_step`, `last_success`),
/// the trace and the model steps.
pub open spec fn step_rest_same(a: CommandRun, b: CommandRun) -> bool {
    &&& b.request_id == a.request_id
    &&& b.options == a.options
    &&& b.kind == a.kind
    &&& b.phase == a.phase
    &&& b.prompt == a.prompt
    &&& b.override_active == a.override_active
    &&& b.plan == a.plan
    &&& b.stopped_at == a.stopped_at
    &&& b.plan_applied == a.plan_applied
    &&& b.new_state == a.new_state
    &&& b.llm_latency_ms == a.llm_latency_ms
    &&& b.llm_http_ms == a.llm_http_ms
    &&& b.llm_parse_ms == a.llm_parse_ms
    &&& b.action_taken == a.action_taken
    &&& b.llm_response == a.llm_response
    &&& b.category == a.category
    &&& b.tool_name == a.tool_name
    &&& b.pending_approval == a.pending_approval
    &&& b.drone_http_status == a.drone_http_status
    &&& b.drone_http_ms == a.drone_http_ms
    &&& b.drone_error == a.drone_error
    &&& b.tool_params == a.tool_params
    &&& b.tools == a.tools
    &&& b.llm_tool_json == a.llm_tool_json
    &&& b.drone_steps == a.drone_steps
}

pub open spec fn model_step_line(i: nat, action: Seq<char>) -> Seq<char> {
    "stage=sequence_model_step idx="@ + decimal(i) + " action="@ + action
}

pub open spec fn skip_step_line(i: nat, category: Seq<char>) -> Seq<char> {
    "stage=sequence_skip_unknown_category idx="@ + decimal(i) + " cat="@ + category
}

impl CommandRun {
    /// Whether the run is well formed (see [`run_wf`]).
    pub fn is_consistent(&self) -> (r: bool)
        ensures
            r == run_wf(*self),
    {
        !self.pending_approval
            && self.next_step <= self.plan.len()
            && match self.last_success { Some(k) => k < self.plan.len(), None => true }
            && match self.stopped_at { Some(k) => k < self.plan.len(), None => true }
    }
}

impl Orchestrator {
    /// Takes the run one step further. A drone step is handed to the edge; a model
    /// step is recorded here (the model path is a placeholder); a step of another
    /// category is skipped; when no step is left the plan is finished.
    pub fn advance(&mut self, run: &mut CommandRun) -> (r: Action)
        requires
            run_wf(*old(run)),
        ensures
            run_wf(*final(run)),
            match old(run).phase {
                Phase::AwaitingLlm => {
                    &&& r matches Action::CallLlm(p) && p@ == old(run).prompt@
                    &&& *final(run) == *old(run)
                    &&& *final(self) == *old(self)
                },
                Phase::Done => {
                    &&& r is Finish
                    &&& *final(run) == *old(run)
                    &&& *final(self) == *old(self)
                },
                Phase::Applying => {
                    let i = old(run).next_step as int;
                    let plan = tool_calls_view(old(run).plan@);
                    if i < plan.len() {
                        let t = plan[i];
                        if t.category == "drone"@ {
                            &&& r matches Action::ApplyDrone { step_index, step_id: sid, tool, body, timeout_secs }
                                && step_index == i
                                && sid@ == step_id(old(run).request_id@, i as nat)
                                && tool@ == t.name
                                && body@ == request_body(t.name, t.params, sid@, old(run).options)
                                && timeout_secs == (if old(run).options.wait_for_drone_ack {
                                    30 + old(run).options.ack_timeout_ms / 1000 } else { 30 })
                            &&& *final(run) == *old(run)
                            &&& *final(self) == *old(self)
                        } else if t.category == "model"@ {
                            let act = step_action(t.category, t.name, old(run).override_active);
                            &&& r is Continue
                            &&& opt_str_view(final(self).current_model) == model_after_step(t.category, opt_str_view(old(self).current_model), old(run).override_active)
                            &&& final(self).current_state == old(self).current_state
                            &&& final(self).override_until == old(self).override_until
                            &&& final(self).last_command_category == old(self).last_command_category
                            &&& final(self).last_command_name == old(self).last_command_name
                            &&& final(run).next_step == i + 1
                            &&& final(run).last_success == Some(i as usize)
                            &&& string_views(final(run).trace@) == string_views(old(run).trace@).push(model_step_line(i as nat, act))
                            &&& step_rest_same(*old(run), *final(run))
                            &&& if old(run).kind == RunKind::Infer {
                                &&& final(run).model_steps@.len() == old(run).model_steps@.len() + 1
                                &&& final(run).model_steps@.take(old(run).model_steps@.len() as int) == old(run).model_steps@
                                &&& final(run).model_steps@.last().step_index == i
                                &&& final(run).model_steps@.last().tool@ == t.name
                                &&& final(run).model_steps@.last().placeholder
                                &&& final(run).model_steps@.last().elapsed_ms == 0
                                &&& final(run).model_steps@.last().inference_ms is None
                                &&& final(run).model_steps@.last().http_status == 0
                                &&& final(run).model_steps@.last().ok
                            } else {
                                final(run).model_steps == old(run).model_steps
                            }
                        } else {
                            &&& r is Continue
                            &&& *final(self) == *old(self)
                            &&& final(run).next_step == i + 1
                            &&& final(run).last_success == old(run).last_success
                            &&& final(run).model_steps == old(run).model_steps
                            &&& string_views(final(run).trace@) == string_views(old(run).trace@).push(skip_step_line(i as nat, t.category))
                            &&& step_rest_same(*old(run), *final(run))
                        }
                    } else {
                        &&& r is Finish
                        &&& completed(*old(self), *final(self), *old(run), *final(run))
                        &&& run_rest_same(*old(run), *final(run))
                    }
                },
            },
    {
        match run.phase {
            Phase::AwaitingLlm => Action::CallLlm(run.prompt.clone()),
            Phase::Done => Action::Finish,
            Phase::Applying => {
                let i = run.next_step;
                if i >= run.plan.len() {
                    self.complete_plan(run);
                    return Action::Finish;
                }
                assert(tool_calls_view(run.plan@)[i as int] == run.plan@[i as int]@);
                if str_eq(run.plan[i].category.as_str(), "drone") {
                    let sid = drone_step_id(run.request_id.as_str(), i);
                    let body = drone_apply_body(run.plan[i].name.as_str(), clone_opt(&run.plan[i].params), sid.as_str(), run.options);
                    let timeout_secs = drone_http_timeout_secs(run.options);
                    Action::ApplyDrone { step_index: i, step_id: sid, tool: run.plan[i].name.clone(), body, timeout_secs }
                } else if str_eq(run.plan[i].category.as_str(), "model") {
                    let override_active = run.override_active;
                    let act = self.handle_tool_call(run.plan[i].category.as_str(), run.plan[i].name.as_str(), override_active);
                    let mut l = String::from_str("stage=sequence_model_step idx=");
                    push_decimal(&mut l, i as u64);
                    push_str(&mut l, " action=");
                    push_str(&mut l, act.as_str());
                    assert(l@ =~= model_step_line(i as nat, act@));
                    push_line(&mut run.trace, l);
                    if match run.kind { RunKind::Infer => true, _ => false } {
                        let ghost m0 = run.model_steps@;
                        let tool = run.plan[i].name.clone();
                        run.model_steps.push(ModelStepTiming {
                            step_index: i,
                            tool,
                            placeholder: true,
                            elapsed_ms: 0,
                            inference_ms: None,
                            http_status: 0,
                            ok: true,
                        });
                        assert(run.model_steps@.take(m0.len() as int) =~= m0);
                    }
                    run.last_success = Some(i);
                    run.next_step = i + 1;
                    Action::Continue
                } else {
                    let mut l = String::from_str("stage=sequence_skip_unknown_category idx=");
                    push_decimal(&mut l, i as u64);
                    push_str(&mut l, " cat=");
                    push_str(&mut l, run.plan[i].category.as_str());
                    assert(l@ =~= skip_step_line(i as nat, tool_calls_view(run.plan@)[i as int].category));
                    push_line(&mut run.trace, l);
                    run.next_step = i + 1;
                    Action::Continue
                }
            },
        }
    }
}


/// The detail of a failed drone step, with `default` when the service gave none.
pub open spec fn error_or(detail: Option<String>, default: Seq<char>) -> Seq<char> {
    match detail {
        Some(d) => d@,
        None => default,
    }
}

/// What a single applied drone tool reports when the service refused it: a
/// transport failure, a reply that was not JSON, or a rejection with its status.
pub open spec fn rejected_action(err: Seq<char>, name: Seq<char>, status: u16) -> Seq<char> {
    if crate::text::starts_with(err, "drone_http_transport"@) {
        "drone_http_transport_failed:"@ + name
    } else if crate::text::starts_with(err, "drone_server_bad_json"@) {
        "drone_http_bad_json:"@ + name
    } else {
        "drone_http_rejected:"@ + name + " http="@ + decimal(status as nat)
    }
}

/// The timing record of drone step `i` of a run.
pub open spec fn drone_step_recorded(t: DroneStepTiming, i: int, name: Seq<char>, sid: Seq<char>, r: DroneApplyResult) -> bool {
    &&& t.step_index == i
    &&& t.tool@ == name
    &&& t.step_id@ == sid
    &&& t.drone_http_ms == r.elapsed_ms
    &&& t.dispatch_ms == r.dispatch_ms
    &&& t.ack_wait_ms == r.ack_wait_ms
    &&& t.completion_status == r.completion_status
    &&& t.ack_result == r.ack_result
    &&& t.http_status == r.http_status
    &&& t.ok == r.mavlink_ok
}

impl Orchestrator {
    /// Records the result of the drone step the run was waiting for. A single
    /// applied tool is then finished. In a plan, success moves on to the next step
    /// and the first failure stops the plan: no later step is applied.
    pub fn on_drone_result(&mut self, run: &mut CommandRun, result: DroneApplyResult)
        requires
            run_wf(*old(run)),
            old(run).phase == Phase::Applying,
            old(run).next_step < old(run).plan@.len(),
            old(run).plan@[old(run).next_step as int].category@ == "drone"@,
        ensures
            run_wf(*final(run)),
            ({
                let i = old(run).next_step as int;
                let name = old(run).plan@[i].name@;
                let sid = step_id(old(run).request_id@, i as nat);
                let lines = string_views(old(run).trace@) + string_views(result.trace@);
                &&& final(run).drone_steps@.len() == old(run).drone_steps@.len() + 1
                &&& final(run).drone_steps@.take(old(run).drone_steps@.len() as int) == old(run).drone_steps@
                &&& drone_step_recorded(final(run).drone_steps@.last(), i, name, sid, result)
                &&& final(run).drone_http_status == Some(result.http_status)
                &&& final(run).drone_http_ms == Some(result.elapsed_ms)
                &&& final(run).plan == old(run).plan
                &&& final(run).kind == old(run).kind
                &&& final(run).new_state == old(run).new_state
                &&& final(run).request_id == old(run).request_id
                &&& final(run).options == old(run).options
                &&& final(run).model_steps == old(run).model_steps
                &&& final(run).tool_params == old(run).tool_params
                &&& final(run).tools == old(run).tools
                &&& if old(run).kind == RunKind::ApplyTool {
                    &&& *final(self) == *old(self)
                    &&& final(run).phase == Phase::Done
                    &&& if result.mavlink_ok {
                        &&& final(run).action_taken@ == "drone_http_ok:"@ + name + " ms="@ + decimal(result.elapsed_ms as nat)
                        &&& final(run).drone_error == old(run).drone_error
                        &&& string_views(final(run).trace@) == lines.push("stage=drone_mavlink_ok tool="@ + name)
                    } else {
                        let err = error_or(result.error_detail, "unknown drone error"@);
                        &&& opt_str_view(final(run).drone_error) == Some(err)
                        &&& final(run).action_taken@ == rejected_action(err, name, result.http_status)
                        &&& string_views(final(run).trace@) == lines.push("stage=drone_mavlink_rejected "@ + err)
                    }
                } else if result.mavlink_ok {
                    &&& *final(self) == *old(self)
                    &&& final(run).phase == Phase::Applying
                    &&& final(run).next_step == i + 1
                    &&& final(run).last_success == Some(i as usize)
                    &&& final(run).stopped_at == old(run).stopped_at
                    &&& final(run).drone_error == old(run).drone_error
                    &&& final(run).action_taken == old(run).action_taken
                    &&& string_views(final(run).trace@) == lines.push("stage=sequence_step_ok idx="@ + decimal(i as nat) + " tool="@ + name)
                } else {
                    let err = error_or(result.error_detail, "drone step failed without error detail"@);
                    &&& final(run).phase == Phase::Done
                    &&& final(run).stopped_at == Some(i as usize)
                    &&& opt_str_view(final(run).drone_error) == Some(err)
                    &&& final(run).action_taken@ == stopped_action(i as nat, name)
                    &&& last_success_effects(*old(self), *final(self), *old(run), *final(run))
                    &&& string_views(final(run).trace@) == lines.push("stage=sequence_stopped idx="@ + decimal(i as nat))
                }
            }),
    {
        let i = run.next_step;
        let ghost lines = string_views(run.trace@) + string_views(result.trace@);
        let DroneApplyResult {
            http_status, elapsed_ms, mavlink_ok, error_detail, dispatch_ms, ack_wait_ms,
            completion_status, ack_result, trace: extra,
        } = result;
        let mut k: usize = 0;
        while k < extra.len()
            invariant
                k <= extra@.len(),
                string_views(run.trace@) == string_views(old(run).trace@) + string_views(extra@).take(k as int),
                run.plan == old(run).plan,
                run.next_step == i,
                run_wf(*run),
                *run == (CommandRun { trace: run.trace, ..*old(run) }),
            decreases extra@.len() - k,
        {
            push_line(&mut run.trace, extra[k].clone());
            assert(string_views(extra@).take(k + 1) =~= string_views(extra@).take(k as int).push(extra@[k as int]@));
            k = k + 1;
        }
        assert(string_views(extra@).take(extra@.len() as int) =~= string_views(extra@));
        let plan_len = run.plan.len();
        assert(i < plan_len);
        let sid = drone_step_id(run.request_id.as_str(), i);
        let name = run.plan[i].name.clone();
        let ghost s0 = run.drone_steps@;
        run.drone_steps.push(DroneStepTiming {
            step_index: i,
            tool: name.clone(),
            step_id: sid,
            drone_http_ms: elapsed_ms,
            dispatch_ms,
            ack_wait_ms,
            completion_status,
            ack_result,
            http_status,
            ok: mavlink_ok,
        });
        assert(run.drone_steps@.take(s0.len() as int) =~= s0);
        run.drone_http_status = Some(http_status);
        run.drone_http_ms = Some(elapsed_ms);
        let is_single = match run.kind { RunKind::ApplyTool => true, _ => false };
        if is_single {
            if mavlink_ok {
                let mut l = String::from_str("stage=drone_mavlink_ok tool=");
                push_str(&mut l, name.as_str());
                push_line(&mut run.trace, l);
                let mut a = String::from_str("drone_http_ok:");
                push_str(&mut a, name.as_str());
                push_str(&mut a, " ms=");
                push_decimal(&mut a, elapsed_ms);
                run.action_taken = a;
            } else {
                let err = match error_detail {
                    Some(d) => d,
                    None => String::from_str("unknown drone error"),
                };
                let mut l = String::from_str("stage=drone_mavlink_rejected ");
                push_str(&mut l, err.as_str());
                push_line(&mut run.trace, l);
                let ec = crate::text::str_chars(err.as_str());
                let p1 = crate::text::str_chars("drone_http_transport");
                let p2 = crate::text::str_chars("drone_server_bad_json");
                if crate::text::chars_starts_with(ec.as_slice(), p1.as_slice()) {
                    run.action_taken = concat2("drone_http_transport_failed:", name.as_str());
                } else if crate::text::chars_starts_with(ec.as_slice(), p2.as_slice()) {
                    run.action_taken = concat2("drone_http_bad_json:", name.as_str());
                } else {
                    let mut a = String::from_str("drone_http_rejected:");
                    push_str(&mut a, name.as_str());
                    push_str(&mut a, " http=");
                    push_decimal(&mut a, http_status as u64);
                    run.action_taken = a;
                }
                run.drone_error = Some(err);
            }
            run.phase = Phase::Done;
        } else if mavlink_ok {
            let mut l = String::from_str("stage=sequence_step_ok idx=");
            push_decimal(&mut l, i as u64);
            push_str(&mut l, " tool=");
            push_str(&mut l, name.as_str());
            push_line(&mut run.trace, l);
            run.last_success = Some(i);
            run.next_step = i + 1;
        } else {
            let err = match error_detail {
                Some(d) => d,
                None => String::from_str("drone step failed without error detail"),
            };
            run.drone_error = Some(err);
            run.stopped_at = Some(i);
            let mut l = String::from_str("stage=sequence_stopped idx=");
            push_decimal(&mut l, i as u64);
            push_line(&mut run.trace, l);
            let ghost before = *run;
            self.complete_plan(run);
            proof {
                assert(before.stopped_at is Some);
            }
        }
    }
}


/// The text of `s` as `{:?}` prints it: quoted, with escapes.
pub uninterp spec fn debug_text(s: Seq<char>) -> Seq<char>;

/// `format!("{:?}", s)` (std's `Debug` for `str`): the string quoted and escaped.
#[verifier::external_body]
fn debug_quoted(s: &str) -> (r: String)
    ensures
        r@ == debug_text(s@),
{
    format!("{:?}", s)
}

/// Everything of a run but its trace stays, except the fields a reply sets.
pub open spec fn llm_reply_base(old_r: CommandRun, r: CommandRun, d: LlmToolDecisionOutcome) -> bool {
    &&& r.llm_latency_ms == d.llm_latency_ms
    &&& r.llm_http_ms == d.llm_http_ms
    &&& r.llm_parse_ms == d.llm_parse_ms
    &&& r.llm_response == d.llm_envelope_raw
    &&& r.request_id == old_r.request_id
    &&& r.options == old_r.options
    &&& r.kind == old_r.kind
    &&& r.override_active == old_r.override_active
    &&& !r.pending_approval
    &&& r.drone_steps == old_r.drone_steps
    &&& r.model_steps == old_r.model_steps
    &&& r.drone_http_status == old_r.drone_http_status
    &&& r.drone_http_ms == old_r.drone_http_ms
    &&& r.drone_error == old_r.drone_error
    &&& r.next_step == 0
    &&& r.last_success is None
    &&& r.stopped_at is None
}

/// The gateway keeps its state, override and model; its active command is cleared.
pub open spec fn command_cleared(old_o: Orchestrator, o: Orchestrator) -> bool {
    &&& o.current_state == old_o.current_state
    &&& o.current_model == old_o.current_model
    &&& o.override_until == old_o.override_until
    &&& o.last_command_category is None
    &&& o.last_command_name is None
}

impl Orchestrator {
    /// Takes in the LLM's reply. A failed exchange falls back to the `text` model; a
    /// refusal or an unreadable reply returns to `IDLE` and clears the active command;
    /// an accepted plan has its drone arguments normalized and is then applied.
    pub fn on_llm_decision(&mut self, run: &mut CommandRun, d: LlmToolDecisionOutcome)
        requires
            run_wf(*old(run)),
            old(run).phase == Phase::AwaitingLlm,
            old(run).plan@.len() == 0,
            old(run).next_step == 0,
            old(run).last_success is None,
            old(run).stopped_at is None,
        ensures
            run_wf(*final(run)),
            llm_reply_base(*old(run), *final(run), d),
            final(self).current_state == old(self).current_state,
            final(self).override_until == old(self).override_until,
            ({
                let lines = string_views(old(run).trace@) + string_views(d.trace@);
                if d.transport_error is Some || d.chat_parse_error is Some {
                    &&& opt_str_view(final(self).current_model) == Some("text"@)
                    &&& final(self).last_command_category == old(self).last_command_category
                    &&& final(self).last_command_name == old(self).last_command_name
                    &&& final(run).phase == Phase::Done
                    &&& final(run).new_state == GatewayState::ACTIVE
                    &&& final(run).action_taken@ == (if d.transport_error is Some {
                        "llm_http_failed_fallback_text"@ } else { "llm_parse_failed_fallback_text"@ })
                    &&& string_views(final(run).trace@) == lines
                    &&& final(run).category == old(run).category
                    &&& final(run).tool_name == old(run).tool_name
                    &&& final(run).llm_tool_json == old(run).llm_tool_json
                } else {
                    match d.tool_payload {
                        None => {
                            &&& *final(self) == *old(self)
                            &&& final(run).phase == Phase::Done
                            &&& final(run).new_state == old(run).new_state
                            &&& final(run).action_taken == old(run).action_taken
                            &&& string_views(final(run).trace@) == lines
                            &&& final(run).llm_tool_json == old(run).llm_tool_json
                        },
                        Some(Ok(LlmToolPayload::NoneReason(reason))) => {
                            let rn = normalized_reason(reason@);
                            &&& command_cleared(*old(self), *final(self))
                            &&& final(run).phase == Phase::Done
                            &&& final(run).new_state == GatewayState::IDLE
                            &&& final(run).action_taken@ == rn
                            &&& opt_str_view(final(run).category) == Some("none"@)
                            &&& opt_str_view(final(run).tool_name) == Some(rn)
                            &&& final(run).tool_params is None && final(run).tools is None
                            &&& string_views(final(run).trace@) == lines.push("stage=tool_none"@)
                            &&& final(run).llm_tool_json == old(run).llm_tool_json
                        },
                        Some(Ok(LlmToolPayload::Tasks(ts))) => {
                            if ts@.len() == 0 {
                                &&& command_cleared(*old(self), *final(self))
                                &&& final(run).phase == Phase::Done
                                &&& final(run).new_state == GatewayState::IDLE
                                &&& final(run).action_taken@ == "invalid_request"@
                                &&& opt_str_view(final(run).category) == Some("none"@)
                                &&& opt_str_view(final(run).tool_name) == Some("invalid_request"@)
                                &&& final(run).tool_params is None && final(run).tools is None
                                &&& string_views(final(run).trace@) == lines.push("stage=tool_empty_tasks"@)
                                &&& final(run).llm_tool_json == old(run).llm_tool_json
                            } else {
                                let plan = tool_calls_view(ts@).map_values(|t: ToolCallView| normalized_task(t));
                                &&& *final(self) == *old(self)
                                &&& final(run).phase == Phase::Applying
                                &&& final(run).plan_applied
                                &&& final(run).new_state == GatewayState::ACTIVE
                                &&& tool_calls_view(final(run).plan@) == plan
                                &&& final(run).tools matches Some(t) && tool_calls_view(t@) == plan
                                &&& opt_json_view(final(run).tool_params) == plan[0].params
                                &&& final(run).action_taken == old(run).action_taken
                                &&& final(run).category == old(run).category
                                &&& final(run).tool_name == old(run).tool_name
                                &&& opt_str_view(final(run).llm_tool_json) == Some(json_text(tasks_display(plan)))
                                &&& string_views(final(run).trace@) == lines.push("stage=drone_params_normalized"@)
                                    .push("stage=infer_auto_apply steps="@ + decimal(ts@.len()))
                            }
                        },
                        Some(Err(e)) => {
                            let msg = crate::llm::parse_error_message(e@);
                            &&& command_cleared(*old(self), *final(self))
                            &&& final(run).phase == Phase::Done
                            &&& final(run).new_state == GatewayState::IDLE
                            &&& final(run).action_taken@ == "tool_parse_failed: "@ + msg
                            &&& opt_str_view(final(run).category) == Some("none"@)
                            &&& opt_str_view(final(run).tool_name) == Some("tool_parse_failed"@)
                            &&& opt_str_view(final(run).llm_tool_json) == Some(d.assistant_content@)
                            &&& string_views(final(run).trace@) == lines.push("stage=tool_json_parse_failed err="@ + msg)
                                .push("stage=llm_content_preview="@ + debug_text(crate::drone_apply::prefix_chars(d.assistant_content@, 240)))
                        },
                    }
                }
            }),
    {
        let LlmToolDecisionOutcome {
            llm_latency_ms, llm_http_ms, llm_parse_ms, transport_error, http_status: _,
            llm_envelope_raw, assistant_content, chat_parse_error, tool_payload, trace: extra,
        } = d;
        run.llm_latency_ms = llm_latency_ms;
        run.llm_http_ms = llm_http_ms;
        run.llm_parse_ms = llm_parse_ms;
        run.llm_response = llm_envelope_raw;
        let mut k: usize = 0;
        while k < extra.len()
            invariant
                k <= extra@.len(),
                string_views(run.trace@) == string_views(old(run).trace@) + string_views(extra@).take(k as int),
                *run == (CommandRun { trace: run.trace, ..*run }),
                run.plan@.len() == 0,
                run.next_step == 0,
                run.last_success is None,
                run.stopped_at is None,
                run.phase == Phase::AwaitingLlm,
                run.kind == old(run).kind,
                run.request_id == old(run).request_id,
                run.options == old(run).options,
                run.override_active == old(run).override_active,
                run.new_state == old(run).new_state,
                run.action_taken == old(run).action_taken,
                run.category == old(run).category,
                run.tool_name == old(run).tool_name,
                run.drone_steps == old(run).drone_steps,
                run.model_steps == old(run).model_steps,
                run.drone_http_status == old(run).drone_http_status,
                run.drone_http_ms == old(run).drone_http_ms,
                run.drone_error == old(run).drone_error,
                run.pending_approval == old(run).pending_approval,
                run.llm_tool_json == old(run).llm_tool_json,
                run.llm_latency_ms == llm_latency_ms,
                run.llm_http_ms == llm_http_ms,
                run.llm_parse_ms == llm_parse_ms,
                run.llm_response == llm_envelope_raw,
            decreases extra@.len() - k,
        {
            push_line(&mut run.trace, extra[k].clone());
            assert(string_views(extra@).take(k + 1) =~= string_views(extra@).take(k as int).push(extra@[k as int]@));
            k = k + 1;
        }
        assert(string_views(extra@).take(extra@.len() as int) =~= string_views(extra@));
        run.pending_approval = false;
        run.phase = Phase::Done;
        if transport_error.is_some() {
            self.current_model = Some(string_of("text"));
            run.new_state = GatewayState::ACTIVE;
            run.action_taken = string_of("llm_http_failed_fallback_text");
            return;
        }
        if chat_parse_error.is_some() {
            self.current_model = Some(string_of("text"));
            run.new_state = GatewayState::ACTIVE;
            run.action_taken = string_of("llm_parse_failed_fallback_text");
            return;
        }
        match tool_payload {
            None => {},
            Some(Ok(LlmToolPayload::NoneReason(reason))) => {
                let rn = normalize_none_reason(reason.as_str());
                run.tool_params = None;
                run.tools = None;
                run.action_taken = rn.clone();
                run.category = Some(string_of("none"));
                run.tool_name = Some(rn);
                run.new_state = GatewayState::IDLE;
                self.last_command_category = None;
                self.last_command_name = None;
                push_line(&mut run.trace, string_of("stage=tool_none"));
            },
            Some(Ok(LlmToolPayload::Tasks(ts))) => {
                if ts.len() == 0 {
                    run.tool_params = None;
                    run.tools = None;
                    run.action_taken = string_of("invalid_request");
                    run.category = Some(string_of("none"));
                    run.tool_name = Some(string_of("invalid_request"));
                    run.new_state = GatewayState::IDLE;
                    self.last_command_category = None;
                    self.last_command_name = None;
                    push_line(&mut run.trace, string_of("stage=tool_empty_tasks"));
                } else {
                    let n = ts.len();
                    let mut tasks = ts;
                    let ghost tv0 = tool_calls_view(tasks@);
                    normalize_drone_tasks(&mut tasks);
                    assert(tool_calls_view(tasks@).len() == tasks@.len());
                    assert(tv0.len() == n);
                    assert(tasks@.len() == n);
                    push_line(&mut run.trace, string_of("stage=drone_params_normalized"));
                    assert(tool_calls_view(tasks@)[0] == tasks@[0]@);
                    run.tool_params = clone_opt(&tasks[0].params);
                    run.tools = Some(copy_tool_calls(&tasks));
                    run.llm_tool_json = Some(tasks_display_json(&tasks));
                    let mut l = String::from_str("stage=infer_auto_apply steps=");
                    push_decimal(&mut l, n as u64);
                    push_line(&mut run.trace, l);
                    run.plan = tasks;
                    run.next_step = 0;
                    run.plan_applied = true;
                    run.new_state = GatewayState::ACTIVE;
                    run.phase = Phase::Applying;
                }
            },
            Some(Err(e)) => {
                let msg = e.message();
                let mut l1 = String::from_str("stage=tool_json_parse_failed err=");
                push_str(&mut l1, msg.as_str());
                push_line(&mut run.trace, l1);
                let mut preview = String::new();
                crate::drone_apply::push_prefix(&mut preview, assistant_content.as_str(), 240);
                assert(preview@ =~= crate::drone_apply::prefix_chars(assistant_content@, 240));
                let quoted = debug_quoted(preview.as_str());
                let mut l2 = String::from_str("stage=llm_content_preview=");
                push_str(&mut l2, quoted.as_str());
                push_line(&mut run.trace, l2);
                run.llm_tool_json = Some(assistant_content);
                run.category = Some(string_of("none"));
                run.tool_name = Some(string_of("tool_parse_failed"));
                run.action_taken = concat2("tool_parse_failed: ", msg.as_str());
                run.new_state = GatewayState::IDLE;
                self.last_command_category = None;
                self.last_command_name = None;
            },
        }
    }
}


/// The pipeline timing of a finished command received with `h`.
pub open spec fn pipeline_recorded(p: PipelineTiming, h: HandlerTimingInput, latency_ms: u64, response_unix_ms: u64,
    run: CommandRun, apply_total_ms: Option<u64>) -> bool
{
    &&& p.gateway_received_ms == h.gateway_received_ms
    &&& p.gateway_response_ms == Some(response_unix_ms)
    &&& p.queue_wait_ms == h.queue_wait_ms
    &&& p.handler_total_ms == latency_ms
    &&& p.llm_http_ms == run.llm_http_ms
    &&& p.llm_parse_ms == run.llm_parse_ms
    &&& p.apply_total_ms == apply_total_ms
    &&& p.prompt_to_final_ack_ms == (if run.options.wait_for_drone_ack && run.drone_steps@.len() > 0 {
        Some(latency_ms) } else { None })
    &&& p.client_dispatch_ms == h.client_dispatch_ms
    &&& p.llm_ms == 0 && p.drone_server_ms == 0 && p.drone_ack_wait_ms == 0
    &&& p.model_server_ms == 0 && p.gateway_ms == 0
}

impl Orchestrator {
    /// Ends a command that took `latency_ms` (of which `apply_total_ms` applying an
    /// infer plan) and answers at `response_unix_ms`: the gateway enters the run's
    /// new state and the outcome is assembled.
    pub fn finish_command(
        &mut self,
        run: CommandRun,
        latency_ms: u64,
        apply_total_ms: u64,
        response_unix_ms: u64,
        handler_timing: Option<HandlerTimingInput>,
    ) -> (out: CommandOutcome)
        requires
            run_wf(run),
        ensures
            !out.pending_approval,
            final(self).current_state == run.new_state,
            final(self).current_model == old(self).current_model,
            final(self).override_until == old(self).override_until,
            final(self).last_command_category == old(self).last_command_category,
            final(self).last_command_name == old(self).last_command_name,
            out.apply_total_ms == (if run.plan_applied { Some(apply_total_ms) } else { None }),
            string_views(out.trace@) == string_views(run.trace@)
                + (if run.plan_applied { seq!["stage=infer_auto_apply_done ms="@ + decimal(apply_total_ms as nat)] } else { seq![] })
                + seq!["stage=done state="@ + state_name(run.new_state) + " latency_ms="@ + decimal(latency_ms as nat)],
            match handler_timing {
                None => out.pipeline is None,
                Some(h) => out.pipeline matches Some(p) && pipeline_recorded(p, h, latency_ms, response_unix_ms, run, out.apply_total_ms),
            },
            out.latency_ms == latency_ms,
            out.llm_latency_ms == run.llm_latency_ms,
            out.action_taken == run.action_taken,
            out.llm_response == run.llm_response,
            out.category == run.category,
            out.tool_name == run.tool_name,
            out.pending_approval == run.pending_approval,
            out.drone_http_status == run.drone_http_status,
            out.drone_http_ms == run.drone_http_ms,
            out.drone_error == run.drone_error,
            out.tool_params == run.tool_params,
            out.tools == run.tools,
            out.llm_tool_json == run.llm_tool_json,
            out.drone_steps == run.drone_steps,
            out.model_steps == run.model_steps,
            out.llm_http_ms == run.llm_http_ms,
            out.llm_parse_ms == run.llm_parse_ms,
    {
        let ghost run0 = run;
        let CommandRun {
            request_id: _, options, kind: _, phase: _, prompt: _, override_active: _, plan: _,
            next_step: _, last_success: _, stopped_at: _, plan_applied, new_state, trace,
            llm_latency_ms, llm_http_ms, llm_parse_ms, action_taken, llm_response, category,
            tool_name, pending_approval, drone_http_status, drone_http_ms, drone_error,
            tool_params, tools, llm_tool_json, drone_steps, model_steps,
        } = run;
        let mut trace = trace;
        let apply_ms = if plan_applied {
            let mut l = String::from_str("stage=infer_auto_apply_done ms=");
            push_decimal(&mut l, apply_total_ms);
            push_line(&mut trace, l);
            Some(apply_total_ms)
        } else {
            None
        };
        assert(string_views(trace@) =~= string_views(run0.trace@)
            + (if plan_applied { seq!["stage=infer_auto_apply_done ms="@ + decimal(apply_total_ms as nat)] } else { seq![] }));
        self.current_state = new_state;
        let mut l = String::from_str("stage=done state=");
        push_str(&mut l, new_state.name());
        push_str(&mut l, " latency_ms=");
        push_decimal(&mut l, latency_ms);
        let ghost t1 = string_views(trace@);
        push_line(&mut trace, l);
        assert(string_views(trace@) =~= t1 + seq!["stage=done state="@ + state_name(new_state) + " latency_ms="@ + decimal(latency_ms as nat)]);
        let pipeline = match handler_timing {
            None => None,
            Some(h) => {
                let prompt_to_final_ack_ms = if options.wait_for_drone_ack && drone_steps.len() > 0 {
                    Some(latency_ms)
                } else {
                    None
                };
                Some(PipelineTiming {
                    gateway_received_ms: h.gateway_received_ms,
                    gateway_response_ms: Some(response_unix_ms),
                    queue_wait_ms: h.queue_wait_ms,
                    handler_total_ms: latency_ms,
                    llm_http_ms,
                    llm_parse_ms,
                    apply_total_ms: apply_ms,
                    prompt_to_final_ack_ms,
                    client_dispatch_ms: h.client_dispatch_ms,
                    llm_ms: 0,
                    drone_server_ms: 0,
                    drone_ack_wait_ms: 0,
                    model_server_ms: 0,
                    gateway_ms: 0,
                })
            },
        };
        CommandOutcome {
            latency_ms,
            llm_latency_ms,
            action_taken,
            llm_response,
            category,
            tool_name,
            pending_approval,
            drone_http_status,
            drone_http_ms,
            drone_error,
            trace,
            tool_params,
            tools,
            llm_tool_json,
            pipeline,
            drone_steps,
            model_steps,
            llm_http_ms,
            llm_parse_ms,
            apply_total_ms: apply_ms,
        }
    }
}

/// An override set at `now_ms` for `timeout_sec` seconds (60 when not given) is in
/// effect at a later time exactly while that time is before its deadline, which
/// lies `timeout_sec` seconds after `now_ms` (or at the largest time); once the
/// override is cleared it is in effect at no time.
pub proof fn law_override_window(now_ms: u64, timeout_sec: Option<u64>, at_ms: u64)
    ensures
        override_in_effect(GatewayState::OVERRIDE_ACTIVE, Some(override_deadline(now_ms, timeout_sec)), at_ms)
            <==> at_ms < override_deadline(now_ms, timeout_sec),
        now_ms <= override_deadline(now_ms, timeout_sec),
        now_ms + (match timeout_sec { Some(t) => t as int, None => 60 }) * 1000 <= u64::MAX ==>
            override_deadline(now_ms, timeout_sec) == now_ms + (match timeout_sec { Some(t) => t as int, None => 60 }) * 1000,
        !override_in_effect(GatewayState::IDLE, None, at_ms),
{
    let t: int = match timeout_sec { Some(t) => t as int, None => 60 };
    assert(t * 1000 >= 0) by (nonlinear_arith)
        requires
            t >= 0,
    ;
}


/// A manual override holds only in the `OVERRIDE_ACTIVE` state: in any other state
/// no override is in effect, whatever deadline is recorded.
pub proof fn law_override_only_in_override_state(state: GatewayState, until: Option<u64>, now_ms: u64)
    requires
        state != GatewayState::OVERRIDE_ACTIVE,
    ensures
        !override_in_effect(state, until, now_ms),
{
}

/// While an override is in effect a tool step never changes the model, and a model
/// step says that it skipped the change. Otherwise a model step switches to the
/// `vision` model and says so, and a drone step leaves the model as it was.
pub proof fn law_model_step_respects_override(category: Seq<char>, name: Seq<char>, model: Option<Seq<char>>)
    ensures
        model_after_step(category, model, true) == model,
        category == "model"@ ==> step_action(category, name, true) == "override_active_skip_model_change: "@ + name,
        category == "model"@ ==> model_after_step(category, model, false) == Some("vision"@),
        category == "model"@ ==> step_action(category, name, false) == "Python worker will activate: "@ + name,
        category != "model"@ ==> model_after_step(category, model, false) == model,
        category != "model"@ ==> step_action(category, name, false) == "Drone command: "@ + name,
{
}

/// A finished infer plan of exactly one step names that step: `drone_http_ok:{name}`
/// for a drone step, `model_tool_applied:{name}` for any other.
pub proof fn law_single_step_infer_names_its_step(t: ToolCallView)
    ensures
        plan_action(RunKind::Infer, seq![t], None) == (if t.category == "drone"@ {
            "drone_http_ok:"@ + t.name
        } else {
            "model_tool_applied:"@ + t.name
        }),
{
}

/// Any other plan that runs to its end reports how many steps it had,
/// `sequence_ok:{n}_steps`; a plan stopped at step `i` reports that step and its
/// tool, `sequence_stopped_at_step_{i}_tool_{name}`.
pub proof fn law_plan_reports(kind: RunKind, plan: Seq<ToolCallView>, stopped_at: Option<usize>)
    ensures
        stopped_at is None && (kind != RunKind::Infer || plan.len() != 1)
            ==> plan_action(kind, plan, stopped_at) == "sequence_ok:"@ + decimal(plan.len()) + "_steps"@,
        stopped_at matches Some(i) ==> plan_action(kind, plan, stopped_at)
            == "sequence_stopped_at_step_"@ + decimal(i as nat) + "_tool_"@ + plan[i as int].name,
{
}

} // verus!
