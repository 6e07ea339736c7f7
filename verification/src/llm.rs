//! The LLM's tool plan: the `{"tasks":[...]}` contract, the tools and arguments it may
//! name, and the checks that turn a model reply into a plan or a refusal.

use vstd::prelude::*;
use crate::json::{
    JsonMember, JsonValue, JsonView, contains_member, find_member, has_member, lemma_array_view,
    lemma_member_index, lemma_object_view, member_get, member_index, members_view, opt_json_view,
    json_text_value, parse_json_text, parsed_view,
};
use crate::text::{
    chars_find, chars_starts_with, find, find_from_bounds, lemma_find_from_first, lemma_find_from_none,
    lemma_trim_idempotent, lemma_trim_range, lemma_trim_start_skip, occurs_at, starts_with, str_chars, str_eq,
    string_of_range, string_views, trim, trim_bounds, trim_start, trim_str,
};
use crate::types::{ToolCall, ToolCallView, tool_calls_view};

verus! {

/// Maximum number of tools the LLM may return in one `tasks` array (extra items are ignored).
pub const MAX_LLM_TASKS: usize = 5;

/// Sole `name` for `category: "none"` tasks (greeting, ambiguous, informational, unsafe).
pub const NONE_REASON_INVALID: &'static str = "invalid_request";

/// System prompt: an example-first JSON `tasks` router with at most 5 steps.
pub const SAR_SYSTEM_PROMPT: &'static str = r#"
You convert a SAR operator command into one JSON object. Output only JSON.

Format:
{"tasks":[{"category":"drone|model|none","name":"...","params":{}}]}

Rules:
- At most 5 tasks, in order.
- Use only the tools listed below. Never invent tool names.
- If ANY requested action has no matching tool → {"tasks":[{"category":"none","name":"invalid_request"}]}
- Greeting, vague text, questions, unsafe commands, missing required coordinates, conflicting commands → none.
- "search" with no target → none.
- search/find/detect/locate people, humans, persons, survivors → human_detect.
- takeoff = climb. start_mission = switch to AUTO and fly the mission already on the drone. They can be used together: arm, takeoff, start_mission.
- For fly-to / takeoff / launch, always start with arm then takeoff.
- For hover, land, return home, pause, resume, do not add arm or takeoff.
- takeoff height: params {"altitude_m": number} only if the user gave a height.
- goto_location must use lat_deg, lon_deg, alt_m. If height is missing, use alt_m 15.
- Do not add set_mode_guided unless the user asks for guided.
- Do not add set_mode_auto unless the user asks for auto or start_mission already covers it.

Drone tools:
arm, disarm, set_mode_auto, set_mode_guided, hover, takeoff, start_mission, mission_set_current, goto_location, return_to_home, land_immediately, mission_interrupt, mission_resume

takeoff params: {"altitude_m": number} optional
goto_location params: {"lat_deg": number, "lon_deg": number, "alt_m": number}
mission_set_current params: {"seq": number}

Model tools:
human_detect, flood_seg, flood_class

Examples:
User: hi
{"tasks":[{"category":"none","name":"invalid_request"}]}

User: search
{"tasks":[{"category":"none","name":"invalid_request"}]}

User: circle search and look for survivors
{"tasks":[{"category":"none","name":"invalid_request"}]}

User: search for people
{"tasks":[{"category":"model","name":"human_detect"}]}

User: classify the flood
{"tasks":[{"category":"model","name":"flood_class"}]}

User: arm the drone
{"tasks":[{"category":"drone","name":"arm"}]}

User: take off to 20 meters
{"tasks":[{"category":"drone","name":"arm"},{"category":"drone","name":"takeoff","params":{"altitude_m":20}}]}

User: take off and start the mission
{"tasks":[{"category":"drone","name":"arm"},{"category":"drone","name":"takeoff"},{"category":"drone","name":"start_mission"}]}

User: start the mission
{"tasks":[{"category":"drone","name":"start_mission"}]}

User: return home
{"tasks":[{"category":"drone","name":"return_to_home"}]}

User: fly to 23.56, 120.47
{"tasks":[{"category":"drone","name":"arm"},{"category":"drone","name":"takeoff"},{"category":"drone","name":"goto_location","params":{"lat_deg":23.56,"lon_deg":120.47,"alt_m":15}}]}

User: fly to 23.56, 120.47 at 30m then detect people
{"tasks":[{"category":"drone","name":"arm"},{"category":"drone","name":"takeoff","params":{"altitude_m":30}},{"category":"drone","name":"goto_location","params":{"lat_deg":23.56,"lon_deg":120.47,"alt_m":30}},{"category":"model","name":"human_detect"}]}
"#;

/// Drone tools the LLM may name. The drone service may offer more (`force_arm`, …); those are refused here.
pub open spec fn is_drone_tool(n: Seq<char>) -> bool {
    ||| n == "arm"@
    ||| n == "disarm"@
    ||| n == "set_mode_auto"@
    ||| n == "set_mode_guided"@
    ||| n == "hover"@
    ||| n == "takeoff"@
    ||| n == "start_mission"@
    ||| n == "mission_set_current"@
    ||| n == "goto_location"@
    ||| n == "return_to_home"@
    ||| n == "land_immediately"@
    ||| n == "mission_interrupt"@
    ||| n == "mission_resume"@
}

/// Model tools the LLM may name.
pub open spec fn is_model_tool(n: Seq<char>) -> bool {
    n == "human_detect"@ || n == "flood_seg"@ || n == "flood_class"@
}

pub fn is_allowed_drone_tool(name: &str) -> (r: bool)
    ensures
        r == is_drone_tool(name@),
{
    str_eq(name, "arm") || str_eq(name, "disarm") || str_eq(name, "set_mode_auto")
        || str_eq(name, "set_mode_guided") || str_eq(name, "hover") || str_eq(name, "takeoff")
        || str_eq(name, "start_mission") || str_eq(name, "mission_set_current")
        || str_eq(name, "goto_location") || str_eq(name, "return_to_home")
        || str_eq(name, "land_immediately") || str_eq(name, "mission_interrupt")
        || str_eq(name, "mission_resume")
}

pub fn is_allowed_model_tool(name: &str) -> (r: bool)
    ensures
        r == is_model_tool(name@),
{
    str_eq(name, "human_detect") || str_eq(name, "flood_seg") || str_eq(name, "flood_class")
}

/// The argument keys a tool accepts, or `None` for a tool the LLM may not name.
pub open spec fn allowed_keys(category: Seq<char>, name: Seq<char>) -> Option<Seq<Seq<char>>> {
    if category == "drone"@ && name == "takeoff"@ {
        Some(seq!["altitude_m"@])
    } else if category == "drone"@ && name == "goto_location"@ {
        Some(seq!["lat_deg"@, "lon_deg"@, "alt_m"@])
    } else if category == "drone"@ && name == "mission_set_current"@ {
        Some(seq!["seq"@])
    } else if category == "drone"@ && is_drone_tool(name) {
        Some(seq![])
    } else if category == "model"@ && is_model_tool(name) {
        Some(seq![])
    } else {
        None
    }
}

pub open spec fn opt_strings_view(o: Option<Vec<String>>) -> Option<Seq<Seq<char>>> {
    match o {
        Some(v) => Some(string_views(v@)),
        None => None,
    }
}

fn strings_of(lits: &[&str]) -> (r: Vec<String>)
    ensures
        string_views(r@) == Seq::new(lits@.len(), |i: int| lits@[i]@),
{
    let mut r: Vec<String> = Vec::new();
    let mut i: usize = 0;
    while i < lits.len()
        invariant
            i <= lits@.len(),
            string_views(r@) == Seq::new(i as nat, |j: int| lits@[j]@),
        decreases lits@.len() - i,
    {
        let ghost old_r = r@;
        let x = String::from_str(lits[i]);
        r.push(x);
        assert(string_views(r@) =~= string_views(old_r).push(lits@[i as int]@));
        assert(string_views(r@) =~= Seq::new((i + 1) as nat, |j: int| lits@[j]@));
        i = i + 1;
    }
    r
}

/// The argument keys a tool accepts, or `None` for a tool the LLM may not name.
pub fn allowed_param_keys(category: &str, name: &str) -> (r: Option<Vec<String>>)
    ensures
        opt_strings_view(r) == allowed_keys(category@, name@),
{
    let drone = str_eq(category, "drone");
    if drone && str_eq(name, "takeoff") {
        let r = strings_of(&["altitude_m"]);
        assert(string_views(r@) =~= seq!["altitude_m"@]);
        Some(r)
    } else if drone && str_eq(name, "goto_location") {
        let r = strings_of(&["lat_deg", "lon_deg", "alt_m"]);
        assert(string_views(r@) =~= seq!["lat_deg"@, "lon_deg"@, "alt_m"@]);
        Some(r)
    } else if drone && str_eq(name, "mission_set_current") {
        let r = strings_of(&["seq"]);
        assert(string_views(r@) =~= seq!["seq"@]);
        Some(r)
    } else if drone && is_allowed_drone_tool(name) {
        let r: Vec<String> = Vec::new();
        assert(string_views(r@) =~= Seq::<Seq<char>>::empty());
        Some(r)
    } else if str_eq(category, "model") && is_allowed_model_tool(name) {
        let r: Vec<String> = Vec::new();
        assert(string_views(r@) =~= Seq::<Seq<char>>::empty());
        Some(r)
    } else {
        None
    }
}

/// The members of `e` whose keys are in `keys`, in order (as `Map::retain`).
pub open spec fn retain_members(e: Seq<(Seq<char>, JsonView)>, keys: Seq<Seq<char>>) -> Seq<(Seq<char>, JsonView)>
    decreases e.len(),
{
    if e.len() == 0 {
        seq![]
    } else {
        let r = retain_members(e.drop_last(), keys);
        if keys.contains(e.last().0) { r.push(e.last()) } else { r }
    }
}

/// Arguments with unknown keys removed: an object keeps its members named in `keys`
/// (and becomes `None` when none are left); anything else becomes `None`.
pub open spec fn stripped(p: Option<JsonView>, keys: Seq<Seq<char>>) -> Option<JsonView> {
    match p {
        Some(JsonView::Object(m)) => {
            let k = retain_members(m, keys);
            if k.len() == 0 { None } else { Some(JsonView::Object(k)) }
        },
        _ => None,
    }
}

fn key_listed(k: &String, keys: &Vec<String>) -> (r: bool)
    ensures
        r == string_views(keys@).contains(k@),
{
    let mut i: usize = 0;
    while i < keys.len()
        invariant
            i <= keys@.len(),
            forall|j: int| 0 <= j < i ==> string_views(keys@)[j] != k@,
        decreases keys@.len() - i,
    {
        if str_eq(keys[i].as_str(), k.as_str()) {
            assert(string_views(keys@)[i as int] == k@);
            return true;
        }
        i = i + 1;
    }
    false
}

/// Drops argument keys the tool does not accept (see [`stripped`]).
pub fn strip_unknown_params(params: Option<JsonValue>, allowed: &Vec<String>) -> (r: Option<JsonValue>)
    ensures
        opt_json_view(r) == stripped(opt_json_view(params), string_views(allowed@)),
{
    match params {
        Some(JsonValue::Object(m)) => {
            let ghost keys = string_views(allowed@);
            let ghost mv = members_view(m@);
            proof { lemma_object_view(m); }
            let mut out: Vec<JsonMember> = Vec::new();
            for x in it: m.into_iter()
                invariant
                    it.seq() == m@,
                    mv == members_view(m@),
                    keys == string_views(allowed@),
                    members_view(out@) == retain_members(mv.take(it.index() as int), keys),
            {
                let ghost i = it.index() as int;
                assert(mv.take(i + 1).drop_last() =~= mv.take(i));
                assert(mv[i] == (x.0@, x.1@));
                let keep = key_listed(&x.0, allowed);
                if keep {
                    let ghost o0 = out@;
                    out.push(x);
                    assert(members_view(out@) =~= members_view(o0).push(mv[i]));
                }
            }
            assert(mv.take(mv.len() as int) =~= mv);
            if out.len() == 0 {
                assert(members_view(out@).len() == 0);
                None
            } else {
                proof { lemma_object_view(out); }
                Some(JsonValue::Object(out))
            }
        },
        _ => None,
    }
}


/// What the LLM asked for: a refusal with its reason, or one or more steps in order.
#[derive(Debug)]
pub enum LlmToolPayload {
    /// `tasks` entry with `category: none`: no tools to run.
    NoneReason(String),
    /// One or more drone/model steps in order (already capped).
    Tasks(Vec<ToolCall>),
}

pub enum PayloadView {
    NoneReason(Seq<char>),
    Tasks(Seq<ToolCallView>),
}

impl View for LlmToolPayload {
    type V = PayloadView;

    open spec fn view(&self) -> PayloadView {
        match self {
            LlmToolPayload::NoneReason(r) => PayloadView::NoneReason(r@),
            LlmToolPayload::Tasks(t) => PayloadView::Tasks(tool_calls_view(t@)),
        }
    }
}

/// An object with both `lat_deg` and `lon_deg`.
pub open spec fn has_coordinates(p: Option<JsonView>) -> bool {
    match p {
        Some(JsonView::Object(m)) => has_member(m, "lat_deg"@) && has_member(m, "lon_deg"@),
        _ => false,
    }
}

/// A step the gateway accepts: a tool the LLM may name and, for `goto_location`,
/// both coordinates among its accepted arguments.
pub open spec fn task_valid(t: ToolCallView) -> bool {
    &&& allowed_keys(t.category, t.name) is Some
    &&& t.name == "goto_location"@ ==> has_coordinates(stripped(t.params, allowed_keys(t.category, t.name).unwrap()))
}

/// A step with the arguments its tool does not accept removed.
pub open spec fn validated_task(t: ToolCallView) -> ToolCallView {
    ToolCallView {
        category: t.category,
        name: t.name,
        params: stripped(t.params, allowed_keys(t.category, t.name).unwrap()),
    }
}

/// A plan whose steps are all accepted, with unknown argument keys removed; else
/// the refusal `invalid_request`.
pub open spec fn validated_payload(ts: Seq<ToolCallView>) -> PayloadView {
    if ts.len() > 0 && forall|i: int| 0 <= i < ts.len() ==> task_valid(#[trigger] ts[i]) {
        PayloadView::Tasks(ts.map_values(|t: ToolCallView| validated_task(t)))
    } else {
        PayloadView::NoneReason("invalid_request"@)
    }
}

fn invalid_request() -> (r: LlmToolPayload)
    ensures
        r@ == PayloadView::NoneReason("invalid_request"@),
{
    LlmToolPayload::NoneReason(String::from_str("invalid_request"))
}

/// After the JSON reading: refuses unknown tools and `goto_location` without both
/// coordinates; removes argument keys a tool does not accept.
pub fn validate_llm_tasks(tasks: Vec<ToolCall>) -> (r: LlmToolPayload)
    ensures
        r@ == validated_payload(tool_calls_view(tasks@)),
{
    let ghost tv = tool_calls_view(tasks@);
    let mut out: Vec<ToolCall> = Vec::new();
    for t in it: tasks.into_iter()
        invariant
            it.seq() == tasks@,
            tv == tool_calls_view(tasks@),
            forall|j: int| 0 <= j < it.index() ==> task_valid(#[trigger] tv[j]),
            tool_calls_view(out@) == tv.take(it.index() as int).map_values(|t: ToolCallView| validated_task(t)),
    {
        let ghost i = it.index() as int;
        assert(tv[i] == t@);
        let ToolCall { category, name, params } = t;
        let keys = match allowed_param_keys(category.as_str(), name.as_str()) {
            Some(k) => k,
            None => {
                assert(!task_valid(tv[i]));
                return invalid_request();
            },
        };
        let p = strip_unknown_params(params, &keys);
        if str_eq(name.as_str(), "goto_location") {
            let ok = match &p {
                Some(JsonValue::Object(m)) => {
                    proof { lemma_object_view(*m); }
                    contains_member(m, "lat_deg") && contains_member(m, "lon_deg")
                },
                _ => false,
            };
            if !ok {
                assert(!task_valid(tv[i]));
                return invalid_request();
            }
        }
        let ghost o0 = out@;
        out.push(ToolCall { category, name, params: p });
        proof {
            assert(tv.take(i + 1) =~= tv.take(i).push(tv[i]));
            assert(tool_calls_view(out@) =~= tool_calls_view(o0).push(validated_task(tv[i])));
            assert(tv.take(i + 1).map_values(|t: ToolCallView| validated_task(t)) =~=
                tv.take(i).map_values(|t: ToolCallView| validated_task(t)).push(validated_task(tv[i])));
        }
    }
    assert(tv.take(tv.len() as int) =~= tv);
    if out.len() == 0 {
        invalid_request()
    } else {
        LlmToolPayload::Tasks(out)
    }
}

/// Legacy refusal names map to the single contract reason `invalid_request`.
pub open spec fn normalized_reason(r: Seq<char>) -> Seq<char> {
    if r == "invalid_request"@ || r == "greeting_only"@ || r == "ambiguous_request"@
        || r == "informational_request"@ || r == "unsafe_or_invalid"@ {
        "invalid_request"@
    } else {
        r
    }
}

/// Map legacy none `name` values to the single contract reason.
pub fn normalize_none_reason(reason: &str) -> (r: String)
    ensures
        r@ == normalized_reason(reason@),
{
    if str_eq(reason, "invalid_request") || str_eq(reason, "greeting_only")
        || str_eq(reason, "ambiguous_request") || str_eq(reason, "informational_request")
        || str_eq(reason, "unsafe_or_invalid") {
        String::from_str("invalid_request")
    } else {
        String::from_str(reason)
    }
}


/// A language tag right after an opening fence (`json` or `JSON`) is dropped.
pub open spec fn strip_lang_tag(a: Seq<char>) -> Seq<char> {
    if starts_with(a, "json"@) || starts_with(a, "JSON"@) { a.skip(4) } else { a }
}

/// The JSON payload of a model reply: the trimmed reply, or, when it holds a
/// Markdown fence (```` ``` ````, optionally tagged `json`/`JSON`) that is closed, the
/// trimmed text between the fences.
pub open spec fn extracted_payload(raw: Seq<char>) -> Seq<char> {
    let s = trim(raw);
    match find(s, "```"@) {
        Some(pos) => {
            let after = trim_start(strip_lang_tag(s.skip(pos + 3)));
            match find(after, "```"@) {
                Some(end) => trim(after.take(end)),
                None => s,
            }
        },
        None => s,
    }
}

/// Extracting the payload of an extracted payload changes nothing: the text
/// between fences holds no fence, and trimmed text stays as it is.
pub proof fn law_extracted_payload_stable(raw: Seq<char>)
    ensures
        extracted_payload(extracted_payload(raw)) == extracted_payload(raw),
{
    let s = trim(raw);
    lemma_trim_idempotent(raw);
    let fence = "```"@;
    match find(s, fence) {
        Some(pos) => {
            let after = trim_start(strip_lang_tag(s.skip(pos + 3)));
            match find(after, fence) {
                Some(end) => {
                    find_from_bounds(after, fence, 0);
                    let z = after.take(end);
                    let r = trim(z);
                    lemma_trim_idempotent(z);
                    let (lo, hi) = lemma_trim_range(z);
                    reveal_strlit("```");
                    assert forall|j: int| 0 <= j implies !occurs_at(r, fence, j) by {
                        if occurs_at(r, fence, j) {
                            assert(r.subrange(j, j + 3) =~= after.subrange(lo + j, lo + j + 3));
                            assert(occurs_at(after, fence, lo + j));
                            lemma_find_from_first(after, fence, 0, lo + j);
                        }
                    }
                    lemma_find_from_none(r, fence, 0);
                },
                None => {},
            }
        },
        None => {},
    }
}

/// Any two occurrences of a fence in `s` overlap: `s` holds at most one fence
/// (as `s.matches("```").count() <= 1`).
pub open spec fn at_most_one_fence(s: Seq<char>) -> bool {
    forall|i: int, j: int| occurs_at(s, "```"@, i) && occurs_at(s, "```"@, j) ==> j < i + 3 && i < j + 3
}

/// The payload is always trimmed, and a reply that holds at most one fence is
/// only trimmed.
pub proof fn law_extracted_payload_trimmed(raw: Seq<char>)
    ensures
        trim(extracted_payload(raw)) == extracted_payload(raw),
        at_most_one_fence(trim(raw)) ==> extracted_payload(raw) == trim(raw),
{
    let s = trim(raw);
    lemma_trim_idempotent(raw);
    let fence = "```"@;
    match find(s, fence) {
        Some(pos) => {
            find_from_bounds(s, fence, 0);
            reveal_strlit("```");
            reveal_strlit("json");
            reveal_strlit("JSON");
            assert(pos + 3 <= s.len());
            let x = s.skip(pos + 3);
            let y = strip_lang_tag(x);
            let d0: int = if starts_with(x, "json"@) || starts_with(x, "JSON"@) { 4 } else { 0 };
            assert(y =~= s.skip(pos + 3 + d0));
            let d1 = lemma_trim_start_skip(y);
            let after = trim_start(y);
            assert(y.skip(d1) =~= s.skip(pos + 3 + d0 + d1));
            assert(after =~= s.skip(pos + 3 + d0 + d1));
            match find(after, fence) {
                Some(end) => {
                    lemma_trim_idempotent(after.take(end));
                },
                None => {},
            }
            if at_most_one_fence(s) {
                assert forall|t: int| 0 <= t implies !occurs_at(after, fence, t) by {
                    if occurs_at(after, fence, t) {
                        let j = pos + 3 + d0 + d1 + t;
                        assert(after.subrange(t, t + 3) =~= s.subrange(j, j + 3));
                        assert(occurs_at(s, fence, j));
                    }
                }
                lemma_find_from_none(after, fence, 0);
            }
        },
        None => {},
    }
}

/// Strip optional Markdown fences so models that wrap JSON in ` ```json ` blocks still parse.
pub fn extract_json_tool_payload(raw_text: &str) -> (r: String)
    ensures
        r@ == extracted_payload(raw_text@),
{
    let s = trim_str(raw_text);
    let sc = str_chars(s.as_str());
    let fence = str_chars("```");
    match chars_find(sc.as_slice(), fence.as_slice()) {
        Some(pos) => {
            proof {
                find_from_bounds(sc@, fence@, 0);
                reveal_strlit("```");
            }
            assert(fence@.len() == 3);
            let n = sc.len();
            let after0 = string_of_range(sc.as_slice(), pos + 3, n);
            assert(after0@ =~= sc@.skip(pos + 3));
            let ac = str_chars(after0.as_str());
            let json_lower = str_chars("json");
            let json_upper = str_chars("JSON");
            proof {
                reveal_strlit("json");
                reveal_strlit("JSON");
            }
            let tag = chars_starts_with(ac.as_slice(), json_lower.as_slice())
                || chars_starts_with(ac.as_slice(), json_upper.as_slice());
            let after1 = if tag {
                let t = string_of_range(ac.as_slice(), 4, ac.len());
                assert(t@ =~= ac@.skip(4));
                t
            } else {
                after0
            };
            assert(after1@ == strip_lang_tag(sc@.skip(pos + 3)));
            let a1 = str_chars(after1.as_str());
            let (lo, _hi) = trim_bounds(a1.as_slice());
            let after = string_of_range(a1.as_slice(), lo, a1.len());
            assert(after@ =~= trim_start(after1@));
            let afc = str_chars(after.as_str());
            match chars_find(afc.as_slice(), fence.as_slice()) {
                Some(end) => {
                    proof { find_from_bounds(afc@, fence@, 0); }
                    let inner = string_of_range(afc.as_slice(), 0, end);
                    assert(inner@ =~= afc@.take(end as int));
                    trim_str(inner.as_str())
                },
                None => s,
            }
        },
        None => s,
    }
}


/// Why a model reply is not a tool plan.
#[derive(Debug)]
pub enum ToolParseError {
    /// The payload is not JSON; the JSON reader's message.
    Syntax(String),
    /// The payload is JSON but has no top-level `tasks` member.
    MissingTasks,
    /// `tasks` is not an array of tool calls.
    InvalidEnvelope,
}

pub enum ToolParseErrorView {
    Syntax(Seq<char>),
    MissingTasks,
    InvalidEnvelope,
}

impl View for ToolParseError {
    type V = ToolParseErrorView;

    open spec fn view(&self) -> ToolParseErrorView {
        match self {
            ToolParseError::Syntax(m) => ToolParseErrorView::Syntax(m@),
            ToolParseError::MissingTasks => ToolParseErrorView::MissingTasks,
            ToolParseError::InvalidEnvelope => ToolParseErrorView::InvalidEnvelope,
        }
    }
}

/// The description of a reading error.
pub open spec fn parse_error_message(e: ToolParseErrorView) -> Seq<char> {
    match e {
        ToolParseErrorView::Syntax(m) => m,
        ToolParseErrorView::MissingTasks =>
            "expected top-level {\"tasks\":[...]}; legacy single-object form is not accepted"@,
        ToolParseErrorView::InvalidEnvelope =>
            "invalid tasks: expected an array of {\"category\": string, \"name\": string, \"params\"?: any}"@,
    }
}

impl ToolParseError {
    /// A description of the error.
    pub fn message(&self) -> (r: String)
        ensures
            r@ == parse_error_message(self@),
    {
        match self {
            ToolParseError::Syntax(m) => m.clone(),
            ToolParseError::MissingTasks => String::from_str(
                "expected top-level {\"tasks\":[...]}; legacy single-object form is not accepted",
            ),
            ToolParseError::InvalidEnvelope => String::from_str(
                "invalid tasks: expected an array of {\"category\": string, \"name\": string, \"params\"?: any}",
            ),
        }
    }
}

/// Optional arguments: an absent member and `null` both mean none.
pub open spec fn params_of(o: Option<JsonView>) -> Option<JsonView> {
    match o {
        Some(JsonView::Null) => None,
        other => other,
    }
}

/// A JSON value read as a tool call: an object with string members `category` and
/// `name` and an optional `params` (other members ignored), or an array
/// `[category, name]` / `[category, name, params]`.
pub open spec fn tool_call_of(v: JsonView) -> Option<ToolCallView> {
    match v {
        JsonView::Object(m) => match (member_get(m, "category"@), member_get(m, "name"@)) {
            (Some(JsonView::Str(c)), Some(JsonView::Str(n))) => Some(
                ToolCallView { category: c, name: n, params: params_of(member_get(m, "params"@)) },
            ),
            _ => None,
        },
        JsonView::Array(a) => {
            if (a.len() == 2 || a.len() == 3) && a[0] is Str && a[1] is Str {
                Some(ToolCallView {
                    category: a[0]->Str_0,
                    name: a[1]->Str_0,
                    params: if a.len() == 3 { params_of(Some(a[2])) } else { None },
                })
            } else {
                None
            }
        },
        _ => None,
    }
}

pub open spec fn opt_tool_call_view(o: Option<ToolCall>) -> Option<ToolCallView> {
    match o {
        Some(t) => Some(t@),
        None => None,
    }
}

pub proof fn lemma_member_get_push(e: Seq<(Seq<char>, JsonView)>, k: int, key: Seq<char>)
    requires
        0 <= k < e.len(),
    ensures
        member_get(e.take(k + 1), key) == (if has_member(e.take(k), key) {
            member_get(e.take(k), key)
        } else if e[k].0 == key {
            Some(e[k].1)
        } else {
            None
        }),
{
    assert(e.take(k + 1).drop_last() =~= e.take(k));
    lemma_member_index(e.take(k), key);
    if has_member(e.take(k), key) {
        assert(e.take(k + 1)[member_index(e.take(k), key)] == e.take(k)[member_index(e.take(k), key)]);
    }
}

fn take_str(v: Option<JsonValue>) -> (r: Option<String>)
    ensures
        match opt_json_view(v) {
            Some(JsonView::Str(s)) => r is Some && r->0@ == s,
            _ => r is None,
        },
{
    match v {
        Some(JsonValue::Str(s)) => Some(s),
        _ => None,
    }
}

fn params_from(v: Option<JsonValue>) -> (r: Option<JsonValue>)
    ensures
        opt_json_view(r) == params_of(opt_json_view(v)),
{
    match v {
        Some(JsonValue::Null) => None,
        other => other,
    }
}

/// Reads one tool call (see [`tool_call_of`]).
pub fn tool_call_from_value(v: JsonValue) -> (r: Option<ToolCall>)
    ensures
        opt_tool_call_view(r) == tool_call_of(v@),
{
    match v {
        JsonValue::Object(m) => {
            let ghost mv = members_view(m@);
            proof { lemma_object_view(m); }
            let mut cat: Option<JsonValue> = None;
            let mut name: Option<JsonValue> = None;
            let mut params: Option<JsonValue> = None;
            for x in it: m.into_iter()
                invariant
                    it.seq() == m@,
                    mv == members_view(m@),
                    opt_json_view(cat) == member_get(mv.take(it.index() as int), "category"@),
                    opt_json_view(name) == member_get(mv.take(it.index() as int), "name"@),
                    opt_json_view(params) == member_get(mv.take(it.index() as int), "params"@),
            {
                let ghost i = it.index() as int;
                assert(mv[i] == (x.0@, x.1@));
                proof {
                    reveal_strlit("category");
                    reveal_strlit("name");
                    reveal_strlit("params");
                    assert("category"@.len() != "name"@.len());
                    assert("category"@.len() != "params"@.len());
                    assert("name"@.len() != "params"@.len());
                    lemma_member_get_push(mv, i, "category"@);
                    lemma_member_get_push(mv, i, "name"@);
                    lemma_member_get_push(mv, i, "params"@);
                    lemma_member_index(mv.take(i), "category"@);
                    lemma_member_index(mv.take(i), "name"@);
                    lemma_member_index(mv.take(i), "params"@);
                }
                let (k, val) = x;
                if cat.is_none() && str_eq(k.as_str(), "category") {
                    cat = Some(val);
                } else if name.is_none() && str_eq(k.as_str(), "name") {
                    name = Some(val);
                } else if params.is_none() && str_eq(k.as_str(), "params") {
                    params = Some(val);
                }
            }
            assert(mv.take(mv.len() as int) =~= mv);
            let c = take_str(cat);
            let n = take_str(name);
            match (c, n) {
                (Some(c), Some(n)) => Some(ToolCall { category: c, name: n, params: params_from(params) }),
                _ => None,
            }
        },
        JsonValue::Array(a) => {
            proof { lemma_array_view(a); }
            let ghost av = Seq::new(a@.len(), |i: int| a@[i]@);
            let len = a.len();
            if len != 2 && len != 3 {
                return None;
            }
            let mut a = a;
            let third = if len == 3 { a.pop() } else { None };
            let second = a.pop();
            let first = a.pop();
            assert(opt_json_view(first) == Some(av[0]));
            assert(opt_json_view(second) == Some(av[1]));
            assert(len == 3 ==> opt_json_view(third) == Some(av[2]));
            let c = take_str(first);
            let n = take_str(second);
            match (c, n) {
                (Some(c), Some(n)) => {
                    let p = if len == 3 { params_from(third) } else { None };
                    Some(ToolCall { category: c, name: n, params: p })
                },
                _ => None,
            }
        },
        _ => None,
    }
}

/// Every element reads as a tool call.
pub open spec fn all_tool_calls(a: Seq<JsonView>) -> bool {
    forall|i: int| 0 <= i < a.len() ==> (#[trigger] tool_call_of(a[i])) is Some
}

/// The tool calls an array reads as, when every element does.
pub open spec fn tool_calls_of(a: Seq<JsonView>) -> Seq<ToolCallView> {
    a.map_values(|x: JsonView| tool_call_of(x).unwrap())
}

/// Reads every element of an array as a tool call; `None` if one does not read.
pub fn tool_calls_from_array(a: Vec<JsonValue>) -> (r: Option<Vec<ToolCall>>)
    ensures
        r is Some <==> all_tool_calls(Seq::new(a@.len(), |i: int| a@[i]@)),
        r matches Some(v) ==> tool_calls_view(v@) == tool_calls_of(Seq::new(a@.len(), |i: int| a@[i]@)),
{
    let ghost av = Seq::new(a@.len(), |i: int| a@[i]@);
    let mut out: Vec<ToolCall> = Vec::new();
    for x in it: a.into_iter()
        invariant
            it.seq() == a@,
            av == Seq::new(a@.len(), |i: int| a@[i]@),
            forall|j: int| 0 <= j < it.index() ==> (#[trigger] tool_call_of(av[j])) is Some,
            tool_calls_view(out@) == tool_calls_of(av.take(it.index() as int)),
    {
        let ghost i = it.index() as int;
        assert(av[i] == x@);
        match tool_call_from_value(x) {
            Some(t) => {
                let ghost o0 = out@;
                out.push(t);
                assert(tool_calls_view(out@) =~= tool_calls_view(o0).push(tool_call_of(av[i]).unwrap()));
                assert(av.take(i + 1) =~= av.take(i).push(av[i]));
                assert(tool_calls_of(av.take(i + 1)) =~= tool_calls_of(av.take(i)).push(tool_call_of(av[i]).unwrap()));
            },
            None => {
                return None;
            },
        }
    }
    assert(av.take(av.len() as int) =~= av);
    Some(out)
}

/// Index of the first step whose category is neither `drone` nor `model`.
pub open spec fn first_other_category(ts: Seq<ToolCallView>) -> Option<int>
    decreases ts.len(),
{
    if ts.len() == 0 {
        None
    } else {
        match first_other_category(ts.drop_last()) {
            Some(k) => Some(k),
            None => {
                let c = ts.last().category;
                if c != "drone"@ && c != "model"@ { Some(ts.len() - 1) } else { None }
            },
        }
    }
}

/// The plan a `tasks` list asks for: empty is `invalid_request`; only the first
/// [`MAX_LLM_TASKS`] steps count; the first step that is neither drone nor model
/// makes the whole plan a refusal (its own normalized reason for category `none`,
/// `invalid_request` otherwise).
pub open spec fn plan_of(ts: Seq<ToolCallView>) -> PayloadView {
    if ts.len() == 0 {
        PayloadView::NoneReason("invalid_request"@)
    } else {
        let out = if ts.len() > MAX_LLM_TASKS { ts.take(MAX_LLM_TASKS as int) } else { ts };
        match first_other_category(out) {
            Some(k) => {
                if out[k].category == "none"@ {
                    PayloadView::NoneReason(normalized_reason(out[k].name))
                } else {
                    PayloadView::NoneReason("invalid_request"@)
                }
            },
            None => PayloadView::Tasks(out),
        }
    }
}

/// The reading of the top-level JSON value: it must be an object with a `tasks`
/// member holding an array of tool calls.
pub open spec fn envelope_payload(v: JsonView) -> Result<PayloadView, ToolParseErrorView> {
    let tasks = match v {
        JsonView::Object(m) => member_get(m, "tasks"@),
        _ => None,
    };
    match tasks {
        None => Err(ToolParseErrorView::MissingTasks),
        Some(JsonView::Array(a)) => {
            if all_tool_calls(a) {
                Ok(plan_of(tool_calls_of(a)))
            } else {
                Err(ToolParseErrorView::InvalidEnvelope)
            }
        },
        Some(_) => Err(ToolParseErrorView::InvalidEnvelope),
    }
}

pub proof fn lemma_first_other_prefix(ts: Seq<ToolCallView>, k: int)
    requires
        0 <= k < ts.len(),
        first_other_category(ts.take(k)) is None,
    ensures
        first_other_category(ts.take(k + 1)) == (if ts[k].category != "drone"@ && ts[k].category != "model"@ {
            Some(k)
        } else {
            None::<int>
        }),
{
    assert(ts.take(k + 1).drop_last() =~= ts.take(k));
}

pub proof fn lemma_first_other_found(ts: Seq<ToolCallView>, k: int)
    requires
        0 <= k <= ts.len(),
        first_other_category(ts.take(k)) is Some,
    ensures
        first_other_category(ts) == first_other_category(ts.take(k)),
    decreases ts.len() - k,
{
    if k < ts.len() {
        assert(ts.take(k + 1).drop_last() =~= ts.take(k));
        lemma_first_other_found(ts, k + 1);
    } else {
        assert(ts.take(k) =~= ts);
    }
}

/// Applies the plan rules of [`plan_of`] to the `tasks` list.
fn plan_from_tasks(ts: Vec<ToolCall>) -> (r: LlmToolPayload)
    ensures
        r@ == plan_of(tool_calls_view(ts@)),
{
    let ghost tv = tool_calls_view(ts@);
    if ts.len() == 0 {
        return invalid_request();
    }
    let mut out = ts;
    if out.len() > MAX_LLM_TASKS {
        out.truncate(MAX_LLM_TASKS);
    }
    let ghost ov = tool_calls_view(out@);
    assert(ov =~= (if tv.len() > MAX_LLM_TASKS { tv.take(MAX_LLM_TASKS as int) } else { tv }));
    let mut i: usize = 0;
    assert(ov.take(0) =~= Seq::<ToolCallView>::empty());
    while i < out.len()
        invariant
            ov == tool_calls_view(out@),
            ov == (if tv.len() > MAX_LLM_TASKS { tv.take(MAX_LLM_TASKS as int) } else { tv }),
            tv == tool_calls_view(ts@),
            tv.len() > 0,
            i <= out@.len(),
            first_other_category(ov.take(i as int)) is None,
        decreases out@.len() - i,
    {
        let is_tool = str_eq(out[i].category.as_str(), "drone") || str_eq(out[i].category.as_str(), "model");
        proof { lemma_first_other_prefix(ov, i as int); }
        assert(ov[i as int] == out@[i as int]@);
        if !is_tool {
            proof { lemma_first_other_found(ov, i + 1); }
            assert(first_other_category(ov) == Some(i as int));
            assert(tv.len() > 0);
            if str_eq(out[i].category.as_str(), "none") {
                return LlmToolPayload::NoneReason(normalize_none_reason(out[i].name.as_str()));
            } else {
                return invalid_request();
            }
        }
        i = i + 1;
    }
    assert(ov.take(ov.len() as int) =~= ov);
    LlmToolPayload::Tasks(out)
}

/// Every kept member has one of the given keys.
pub proof fn lemma_retain_members_keys(e: Seq<(Seq<char>, JsonView)>, keys: Seq<Seq<char>>)
    ensures
        forall|j: int| 0 <= j < retain_members(e, keys).len() ==> keys.contains(#[trigger] retain_members(e, keys)[j].0),
    decreases e.len(),
{
    if e.len() > 0 {
        let r = retain_members(e.drop_last(), keys);
        lemma_retain_members_keys(e.drop_last(), keys);
        if keys.contains(e.last().0) {
            assert forall|j: int| 0 <= j < r.push(e.last()).len() implies keys.contains(#[trigger] r.push(e.last())[j].0) by {
                if j < r.len() {
                    assert(r.push(e.last())[j] == r[j]);
                }
            }
        }
    }
}

/// The arguments are absent or an object whose keys are all among `keys`.
pub open spec fn keys_within(p: Option<JsonView>, keys: Seq<Seq<char>>) -> bool {
    match p {
        None => true,
        Some(JsonView::Object(m)) => forall|j: int| 0 <= j < m.len() ==> keys.contains(#[trigger] m[j].0),
        Some(_) => false,
    }
}

/// A step of an accepted plan: a drone or model tool the LLM may name, with only
/// the argument keys that tool accepts, and both coordinates for `goto_location`.
pub open spec fn step_accepted(t: ToolCallView) -> bool {
    &&& t.category == "drone"@ || t.category == "model"@
    &&& allowed_keys(t.category, t.name) matches Some(keys) && keys_within(t.params, keys)
    &&& t.name == "goto_location"@ ==> has_coordinates(t.params)
}

/// Validation keeps only steps that are accepted (see [`step_accepted`]).
pub proof fn law_validated_steps_accepted(ts: Seq<ToolCallView>)
    ensures
        validated_payload(ts) matches PayloadView::Tasks(out) ==> {
            &&& out.len() == ts.len()
            &&& forall|i: int| 0 <= i < out.len() ==> step_accepted(#[trigger] out[i])
        },
{
    if validated_payload(ts) is Tasks {
        let out = ts.map_values(|t: ToolCallView| validated_task(t));
        assert forall|i: int| 0 <= i < out.len() implies step_accepted(#[trigger] out[i]) by {
            let t = ts[i];
            assert(task_valid(t));
            let keys = allowed_keys(t.category, t.name).unwrap();
            match t.params {
                Some(JsonView::Object(m)) => lemma_retain_members_keys(m, keys),
                _ => {},
            }
        }
    }
}

/// A plan read from an LLM reply has between one and [`MAX_LLM_TASKS`] steps, and
/// each of them is accepted (see [`step_accepted`]); anything else the reply asks
/// for ends as a refusal or an error.
pub proof fn law_plan_bounded_and_accepted(parsed: Result<JsonView, Seq<char>>)
    ensures
        tool_sequence(parsed) matches Ok(PayloadView::Tasks(t)) ==> {
            &&& 1 <= t.len() <= MAX_LLM_TASKS
            &&& forall|i: int| 0 <= i < t.len() ==> step_accepted(#[trigger] t[i])
        },
{
    match parsed {
        Ok(v) => match envelope_payload(v) {
            Ok(PayloadView::Tasks(ts)) => {
                law_validated_steps_accepted(ts);
                let tasks = match v {
                    JsonView::Object(m) => member_get(m, "tasks"@),
                    _ => None,
                };
                match tasks {
                    Some(JsonView::Array(a)) => {
                        let all = tool_calls_of(a);
                        assert(all.len() > 0);
                        let out = if all.len() > MAX_LLM_TASKS { all.take(MAX_LLM_TASKS as int) } else { all };
                        assert(first_other_category(out) is None);
                        assert(ts == out);
                    },
                    _ => {},
                }
            },
            _ => {},
        },
        Err(_) => {},
    }
}

/// Keeping only the members whose keys are in `keys` leaves the value of every
/// such key as it was.
pub proof fn lemma_retain_members_get(e: Seq<(Seq<char>, JsonView)>, keys: Seq<Seq<char>>, k: Seq<char>)
    requires
        keys.contains(k),
    ensures
        member_get(retain_members(e, keys), k) == member_get(e, k),
    decreases e.len(),
{
    if e.len() > 0 {
        let d = e.drop_last();
        let r = retain_members(d, keys);
        lemma_retain_members_get(d, keys, k);
        lemma_member_index(d, k);
        lemma_member_index(r, k);
        lemma_member_index(e, k);
        if keys.contains(e.last().0) {
            let rp = r.push(e.last());
            assert(rp.drop_last() =~= r);
            lemma_member_index(rp, k);
            if member_index(d, k) >= 0 {
                assert(e[member_index(d, k)] == d[member_index(d, k)]);
                assert(rp[member_index(r, k)] == r[member_index(r, k)]);
            }
        } else {
            assert(e.last().0 != k);
            if member_index(d, k) >= 0 {
                assert(e[member_index(d, k)] == d[member_index(d, k)]);
            }
        }
    }
}

/// Validation keeps the documented arguments of the steps it accepts, with their
/// values: `altitude_m` of `takeoff`; `lat_deg`, `lon_deg` and `alt_m` of
/// `goto_location`; `seq` of `mission_set_current`.
pub proof fn law_validation_keeps_documented_arguments(
    ts: Seq<ToolCallView>,
    i: int,
    m: Seq<(Seq<char>, JsonView)>,
    key: Seq<char>,
)
    requires
        0 <= i < ts.len(),
        ts[i].category == "drone"@,
        (ts[i].name == "takeoff"@ && key == "altitude_m"@)
            || (ts[i].name == "goto_location"@ && (key == "lat_deg"@ || key == "lon_deg"@ || key == "alt_m"@))
            || (ts[i].name == "mission_set_current"@ && key == "seq"@),
        ts[i].params == Some(JsonView::Object(m)),
        has_member(m, key),
    ensures
        match validated_payload(ts) {
            PayloadView::Tasks(out) => match out[i].params {
                Some(JsonView::Object(m2)) => has_member(m2, key) && member_get(m2, key) == member_get(m, key),
                _ => false,
            },
            _ => true,
        },
{
    let t = ts[i];
    let keys = allowed_keys(t.category, t.name).unwrap();
    reveal_strlit("takeoff");
    reveal_strlit("goto_location");
    reveal_strlit("mission_set_current");
    assert("takeoff"@.len() != "goto_location"@.len() && "takeoff"@.len() != "mission_set_current"@.len()
        && "goto_location"@.len() != "mission_set_current"@.len());
    assert(keys.contains(key)) by {
        if t.name == "takeoff"@ {
            assert(keys[0] == key);
        } else if t.name == "goto_location"@ {
            reveal_strlit("takeoff");
            reveal_strlit("goto_location");
            assert(t.name != "takeoff"@);
            if key == "lat_deg"@ { assert(keys[0] == key); }
            else if key == "lon_deg"@ { assert(keys[1] == key); }
            else { assert(keys[2] == key); }
        } else {
            reveal_strlit("takeoff");
            reveal_strlit("goto_location");
            reveal_strlit("mission_set_current");
            assert(t.name != "takeoff"@);
            assert(t.name != "goto_location"@);
            assert(keys[0] == key);
        }
    }
    lemma_retain_members_get(m, keys, key);
    let r = retain_members(m, keys);
    lemma_member_index(m, key);
    lemma_member_index(r, key);
    if validated_payload(ts) is Tasks {
        let out = ts.map_values(|x: ToolCallView| validated_task(x));
        assert(out[i] == validated_task(t));
    }
}

/// Every tool the LLM may name is accepted as a step: a drone tool (for
/// `goto_location`, with `lat_deg` and `lon_deg` among its arguments) or a model
/// tool.
pub proof fn law_named_tools_accepted(t: ToolCallView)
    requires
        (t.category == "drone"@ && is_drone_tool(t.name)) || (t.category == "model"@ && is_model_tool(t.name)),
        t.name == "goto_location"@ ==> has_coordinates(t.params),
    ensures
        task_valid(t),
{
    reveal_strlit("drone");
    reveal_strlit("model");
    assert("drone"@ != "model"@) by { assert("drone"@[0] != "model"@[0]); }
    if t.name == "goto_location"@ {
        assert(t.category == "drone"@) by {
            reveal_strlit("goto_location");
            reveal_strlit("human_detect");
            reveal_strlit("flood_seg");
            reveal_strlit("flood_class");
            assert("goto_location"@ != "human_detect"@) by { assert("goto_location"@[0] != "human_detect"@[0]); }
            assert("goto_location"@ != "flood_seg"@) by { assert("goto_location"@[0] != "flood_seg"@[0]); }
            assert("goto_location"@ != "flood_class"@) by { assert("goto_location"@[0] != "flood_class"@[0]); }
        }
        let keys = allowed_keys(t.category, t.name).unwrap();
        reveal_strlit("takeoff");
        reveal_strlit("goto_location");
        assert("takeoff"@.len() != "goto_location"@.len());
        assert(t.name != "takeoff"@);
        assert(keys == seq!["lat_deg"@, "lon_deg"@, "alt_m"@]);
        match t.params {
            Some(JsonView::Object(m)) => {
                assert(keys[0] == "lat_deg"@);
                assert(keys[1] == "lon_deg"@);
                lemma_retain_members_get(m, keys, "lat_deg"@);
                lemma_retain_members_get(m, keys, "lon_deg"@);
                lemma_member_index(m, "lat_deg"@);
                lemma_member_index(retain_members(m, keys), "lat_deg"@);
            },
            _ => {},
        }
    }
}

/// Normalizing a refusal reason twice gives what normalizing once gives.
pub proof fn law_normalized_reason_idempotent(r: Seq<char>)
    ensures
        normalized_reason(normalized_reason(r)) == normalized_reason(r),
{
}

pub open spec fn opt_payload_result(r: Result<LlmToolPayload, ToolParseError>) -> Result<PayloadView, ToolParseErrorView> {
    match r {
        Ok(p) => Ok(p@),
        Err(e) => Err(e@),
    }
}

/// Reads the top-level JSON value of a reply (see [`envelope_payload`]).
pub fn parse_tool_envelope(v: JsonValue) -> (r: Result<LlmToolPayload, ToolParseError>)
    ensures
        opt_payload_result(r) == envelope_payload(v@),
{
    match v {
        JsonValue::Object(m) => {
            proof { lemma_object_view(m); }
            let ghost mv = members_view(m@);
            match find_member(&m, "tasks") {
                None => Err(ToolParseError::MissingTasks),
                Some(i) => {
                    let mut m = m;
                    proof { lemma_member_index(mv, "tasks"@); }
                    let (_k, val) = m.remove(i);
                    assert(val@ == mv[i as int].1);
                    match val {
                        JsonValue::Array(a) => {
                            proof { lemma_array_view(a); }
                            match tool_calls_from_array(a) {
                                Some(ts) => Ok(plan_from_tasks(ts)),
                                None => Err(ToolParseError::InvalidEnvelope),
                            }
                        },
                        _ => Err(ToolParseError::InvalidEnvelope),
                    }
                },
            }
        },
        _ => Err(ToolParseError::MissingTasks),
    }
}

/// The plan read from a reply's JSON payload: a JSON error stays an error; a plan
/// of steps is then validated (see [`validated_payload`]).
pub open spec fn tool_sequence(parsed: Result<JsonView, Seq<char>>) -> Result<PayloadView, ToolParseErrorView> {
    match parsed {
        Err(e) => Err(ToolParseErrorView::Syntax(e)),
        Ok(v) => match envelope_payload(v) {
            Ok(PayloadView::Tasks(t)) => Ok(validated_payload(t)),
            other => other,
        },
    }
}

/// Reads the LLM's tool plan from an already read JSON payload: a reading error
/// stays an error (its message); a plan of steps is validated (see
/// [`tool_sequence`]).
pub fn tool_sequence_from_parsed(parsed: Result<JsonValue, String>) -> (r: Result<LlmToolPayload, ToolParseError>)
    ensures
        opt_payload_result(r) == tool_sequence(parsed_view(parsed)),
{
    match parsed {
        Err(e) => Err(ToolParseError::Syntax(e)),
        Ok(v) => match parse_tool_envelope(v) {
            Ok(LlmToolPayload::Tasks(t)) => Ok(validate_llm_tasks(t)),
            other => other,
        },
    }
}

/// Parses the LLM JSON strictly: only `{"tasks":[...]}` (one or more steps, or a
/// single none task). Only optional Markdown fences are stripped
/// ([`extract_json_tool_payload`]); text that is not JSON is an error. After a
/// successful read, unknown tools and `goto_location` without coordinates become
/// `invalid_request`.
pub fn parse_tool_sequence(raw_text: &str) -> (r: Result<LlmToolPayload, ToolParseError>)
    ensures
        opt_payload_result(r) == tool_sequence(json_text_value(extracted_payload(raw_text@))),
{
    let cleaned = extract_json_tool_payload(raw_text);
    let parsed = parse_json_text(cleaned.as_str());
    tool_sequence_from_parsed(parsed)
}

/// One chat message sent to the OpenAI-compatible server.
#[derive(Debug)]
pub struct ChatMessage {
    pub role: String,
    pub content: String,
}

/// The assistant message of one completion choice.
#[derive(Debug)]
pub struct Message {
    pub content: String,
}

/// One completion choice.
#[derive(Debug)]
pub struct Choice {
    pub message: Message,
}

/// The chat completions response envelope.
#[derive(Debug)]
pub struct ChatResponse {
    pub choices: Vec<Choice>,
}

impl ChatResponse {
    /// The first choice's assistant content, or empty when there is no choice.
    pub fn assistant_content(&self) -> (r: String)
        ensures
            r@ == (if self.choices@.len() > 0 { self.choices@[0].message.content@ } else { Seq::empty() }),
    {
        if self.choices.len() > 0 {
            self.choices[0].message.content.clone()
        } else {
            String::new()
        }
    }
}

/// The messages of a tool-decision request: the system prompt, then the operator's prompt.
pub fn chat_messages(prompt: &str) -> (r: Vec<ChatMessage>)
    ensures
        r@.len() == 2,
        r@[0].role@ == "system"@,
        r@[0].content@ == SAR_SYSTEM_PROMPT@,
        r@[1].role@ == "user"@,
        r@[1].content@ == prompt@,
{
    let mut r: Vec<ChatMessage> = Vec::new();
    r.push(ChatMessage { role: String::from_str("system"), content: String::from_str(SAR_SYSTEM_PROMPT) });
    r.push(ChatMessage { role: String::from_str("user"), content: String::from_str(prompt) });
    r
}

} // verus!
