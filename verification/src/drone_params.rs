//! Normalize drone tool `params` before forwarding to the drone service (and for display).

use vstd::prelude::*;
use crate::json::{
    JsonMember, JsonNumber, JsonNumberView, JsonValue, JsonView, find_member, has_member, positive_number_of,
    lemma_has_member_same_keys, lemma_member_index_at,
    lemma_member_index, lemma_object_view, member_get, member_index, members_view,
    positive_number, opt_json_view, contains_member, json_text, json_to_text, lemma_array_view, clone_opt,
};
use crate::text::str_eq;
use crate::types::{ToolCall, ToolCallView, tool_calls_view};

verus! {

/// Meters above home when `altitude_m` / `alt_m` is missing, zero, non-positive or not
/// a number: 15.0, as `serde_json` writes that number.
pub open spec fn default_altitude_text() -> Seq<char> {
    "15.0"@
}

/// The default altitude as a number.
pub fn default_altitude() -> (r: JsonNumber)
    ensures
        r@ == JsonNumberView::Float(default_altitude_text()),
{
    JsonNumber::Float(String::from_str("15.0"))
}

/// The altitude to fly at: the given number when it reads as greater than zero
/// (see [`positive_number`]), else the default.
pub open spec fn altitude_above_home(v: Option<JsonView>) -> JsonNumberView {
    match v {
        Some(JsonView::Number(n)) => match positive_number(n) {
            Some(t) => JsonNumberView::Float(t),
            None => JsonNumberView::Float(default_altitude_text()),
        },
        _ => JsonNumberView::Float(default_altitude_text()),
    }
}

/// `m` with the member `key` set to `v`: replaced in place when present, else
/// appended (the members' order is not meaningful; the object is a map).
pub open spec fn set_member(m: Seq<(Seq<char>, JsonView)>, key: Seq<char>, v: JsonView) -> Seq<(Seq<char>, JsonView)> {
    let i = member_index(m, key);
    if i >= 0 { m.update(i, (key, v)) } else { m.push((key, v)) }
}

/// `m` with the altitude member `key` set to [`altitude_above_home`] of its value.
pub open spec fn with_altitude(m: Seq<(Seq<char>, JsonView)>, key: Seq<char>) -> Seq<(Seq<char>, JsonView)> {
    set_member(m, key, JsonView::Number(altitude_above_home(member_get(m, key))))
}

/// Patched members for a tool: `takeoff` patches `altitude_m` only when present;
/// `goto_location` always sets `alt_m`; `waypoint_inject` sets `alt_m` when both
/// coordinates are present; other tools are left alone.
pub open spec fn patched_members(tool: Seq<char>, m: Seq<(Seq<char>, JsonView)>) -> Seq<(Seq<char>, JsonView)> {
    if tool == "takeoff"@ {
        if has_member(m, "altitude_m"@) { with_altitude(m, "altitude_m"@) } else { m }
    } else if tool == "goto_location"@ {
        with_altitude(m, "alt_m"@)
    } else if tool == "waypoint_inject"@ {
        if has_member(m, "lat_deg"@) && has_member(m, "lon_deg"@) { with_altitude(m, "alt_m"@) } else { m }
    } else {
        m
    }
}

/// Normalized drone arguments: an object (absent or `null` counting as empty) is
/// patched (see [`patched_members`]) and becomes `None` when empty; any other value
/// is kept as it is.
pub open spec fn normalized_params(tool: Seq<char>, p: Option<JsonView>) -> Option<JsonView> {
    let m = match p {
        Some(JsonView::Object(m)) => m,
        _ => seq![],
    };
    match p {
        Some(JsonView::Object(_)) | Some(JsonView::Null) | None => {
            let m2 = patched_members(tool, m);
            if m2.len() == 0 { None } else { Some(JsonView::Object(m2)) }
        },
        other => other,
    }
}

/// After setting `key`, its value is the one set.
pub proof fn lemma_set_member_get(m: Seq<(Seq<char>, JsonView)>, key: Seq<char>, v: JsonView)
    ensures
        member_get(set_member(m, key, v), key) == Some(v),
{
    lemma_member_index(m, key);
    let i = member_index(m, key);
    let r = set_member(m, key, v);
    if i >= 0 {
        lemma_member_index_at(r, key, i);
    } else {
        lemma_member_index_at(r, key, m.len() as int);
    }
}

/// Setting a present member to its own value changes nothing.
pub proof fn lemma_set_member_same(m: Seq<(Seq<char>, JsonView)>, key: Seq<char>)
    requires
        has_member(m, key),
    ensures
        set_member(m, key, member_get(m, key).unwrap()) == m,
{
    lemma_member_index(m, key);
    let i = member_index(m, key);
    assert(m.update(i, (key, m[i].1)) =~= m);
}

/// Setting `key` leaves the presence of every other member as it was.
pub proof fn lemma_set_member_has(m: Seq<(Seq<char>, JsonView)>, key: Seq<char>, v: JsonView, other: Seq<char>)
    requires
        other != key,
    ensures
        has_member(set_member(m, key, v), other) == has_member(m, other),
{
    lemma_member_index(m, key);
    let r = set_member(m, key, v);
    lemma_has_member_same_keys(m, r, other);
}

/// A number the altitude rule keeps is kept again.
pub proof fn lemma_altitude_stable(v: Option<JsonView>)
    ensures
        altitude_above_home(Some(JsonView::Number(altitude_above_home(v)))) == altitude_above_home(v),
{
    reveal_strlit("15.0");
    assert('1' <= default_altitude_text()[0] <= '9');
}

/// Setting the altitude member a second time changes nothing.
pub proof fn lemma_with_altitude_twice(m: Seq<(Seq<char>, JsonView)>, key: Seq<char>)
    ensures
        with_altitude(with_altitude(m, key), key) == with_altitude(m, key),
        has_member(with_altitude(m, key), key),
{
    let a = altitude_above_home(member_get(m, key));
    let m1 = with_altitude(m, key);
    lemma_set_member_get(m, key, JsonView::Number(a));
    lemma_altitude_stable(member_get(m, key));
    lemma_set_member_same(m1, key);
}

/// Normalizing drone arguments twice gives what normalizing once gives.
pub proof fn law_normalize_drone_params_idempotent(tool: Seq<char>, p: Option<JsonView>)
    ensures
        normalized_params(tool, normalized_params(tool, p)) == normalized_params(tool, p),
{
    let m = match p {
        Some(JsonView::Object(m)) => m,
        _ => seq![],
    };
    match p {
        Some(JsonView::Object(_)) | Some(JsonView::Null) | None => {
            let m2 = patched_members(tool, m);
            if tool == "takeoff"@ {
                if has_member(m, "altitude_m"@) {
                    lemma_with_altitude_twice(m, "altitude_m"@);
                }
            } else if tool == "goto_location"@ {
                lemma_with_altitude_twice(m, "alt_m"@);
            } else if tool == "waypoint_inject"@ {
                if has_member(m, "lat_deg"@) && has_member(m, "lon_deg"@) {
                    lemma_with_altitude_twice(m, "alt_m"@);
                    let a = JsonView::Number(altitude_above_home(member_get(m, "alt_m"@)));
                    reveal_strlit("alt_m");
                    reveal_strlit("lat_deg");
                    reveal_strlit("lon_deg");
                    assert("alt_m"@.len() != "lat_deg"@.len());
                    assert("alt_m"@.len() != "lon_deg"@.len());
                    lemma_set_member_has(m, "alt_m"@, a, "lat_deg"@);
                    lemma_set_member_has(m, "alt_m"@, a, "lon_deg"@);
                }
            }
            if m2.len() == 0 {
                assert(patched_members(tool, seq![]) =~= seq![]) by {
                    if tool == "goto_location"@ {
                        lemma_with_altitude_twice(m, "alt_m"@);
                    }
                    lemma_member_index(seq![], "altitude_m"@);
                    lemma_member_index(seq![], "lat_deg"@);
                };
            }
        },
        _ => {},
    }
}

fn number_at(m: &Vec<JsonMember>, i: usize) -> (r: Option<JsonNumber>)
    requires
        i < m@.len(),
    ensures
        match m@[i as int].1@ {
            JsonView::Number(n) => r is Some && r.unwrap()@ == n,
            _ => r is None,
        },
{
    match &m[i].1 {
        JsonValue::Number(n) => Some(n.copy()),
        _ => None,
    }
}

fn altitude_of(n: Option<JsonNumber>) -> (r: JsonNumber)
    ensures
        r@ == altitude_above_home(match n { Some(x) => Some(JsonView::Number(x@)), None => None }),
{
    match n {
        Some(x) => match positive_number_of(&x) {
            Some(t) => JsonNumber::Float(t),
            None => default_altitude(),
        },
        None => default_altitude(),
    }
}

/// Sets the altitude member `key` (see [`with_altitude`]).
fn set_altitude(m: Vec<JsonMember>, key: &str) -> (r: Vec<JsonMember>)
    ensures
        members_view(r@) == with_altitude(members_view(m@), key@),
{
    let ghost mv = members_view(m@);
    proof { lemma_member_index(mv, key@); }
    let mut m = m;
    match find_member(&m, key) {
        Some(i) => {
            let cur = number_at(&m, i);
            let alt = altitude_of(cur);
            assert(member_get(mv, key@) == Some(mv[i as int].1));
            m.set(i, (String::from_str(key), JsonValue::Number(alt)));
            assert(members_view(m@) =~= mv.update(i as int, (key@, JsonView::Number(alt@))));
            m
        },
        None => {
            let alt = altitude_of(None);
            let ghost m0 = m@;
            m.push((String::from_str(key), JsonValue::Number(alt)));
            assert(members_view(m@) =~= mv.push((key@, JsonView::Number(alt@))));
            m
        },
    }
}

/// Patch LLM drone params: `0` / omitted `alt_m` → 15 m; `takeoff` only patches an explicit `altitude_m`.
pub fn normalize_drone_tool_params(tool_name: &str, params: Option<JsonValue>) -> (r: Option<JsonValue>)
    ensures
        opt_json_view(r) == normalized_params(tool_name@, opt_json_view(params)),
{
    let obj: Vec<JsonMember> = match params {
        Some(JsonValue::Object(m)) => {
            proof { lemma_object_view(m); }
            m
        },
        Some(JsonValue::Null) | None => {
            let m: Vec<JsonMember> = Vec::new();
            assert(members_view(m@) =~= Seq::<(Seq<char>, JsonView)>::empty());
            m
        },
        Some(other) => return Some(other),
    };
    let ghost mv = members_view(obj@);
    let patched = if str_eq(tool_name, "takeoff") {
        if contains_member(&obj, "altitude_m") { set_altitude(obj, "altitude_m") } else { obj }
    } else if str_eq(tool_name, "goto_location") {
        set_altitude(obj, "alt_m")
    } else if str_eq(tool_name, "waypoint_inject") {
        if contains_member(&obj, "lat_deg") && contains_member(&obj, "lon_deg") {
            set_altitude(obj, "alt_m")
        } else {
            obj
        }
    } else {
        obj
    };
    assert(members_view(patched@) == patched_members(tool_name@, mv));
    if patched.len() == 0 {
        None
    } else {
        proof { lemma_object_view(patched); }
        Some(JsonValue::Object(patched))
    }
}

/// A step with its arguments normalized when it is a drone step.
pub open spec fn normalized_task(t: ToolCallView) -> ToolCallView {
    if t.category == "drone"@ {
        ToolCallView { category: t.category, name: t.name, params: normalized_params(t.name, t.params) }
    } else {
        t
    }
}

/// Normalizes the arguments of every drone step, in place.
pub fn normalize_drone_tasks(tasks: &mut Vec<ToolCall>)
    ensures
        tool_calls_view(final(tasks)@) == tool_calls_view(old(tasks)@).map_values(|t: ToolCallView| normalized_task(t)),
{
    let ghost tv = tool_calls_view(tasks@);
    let mut i: usize = 0;
    while i < tasks.len()
        invariant
            tv == tool_calls_view(old(tasks)@),
            tasks@.len() == tv.len(),
            i <= tasks@.len(),
            forall|j: int| 0 <= j < i ==> (#[trigger] tasks@[j])@ == normalized_task(tv[j]),
            forall|j: int| i <= j < tasks@.len() ==> (#[trigger] tasks@[j])@ == tv[j],
        decreases tasks@.len() - i,
    {
        let mut t = ToolCall { category: String::new(), name: String::new(), params: None };
        tasks.set_and_swap(i, &mut t);
        assert(t@ == tv[i as int]);
        if str_eq(t.category.as_str(), "drone") {
            let ToolCall { category, name, params } = t;
            let p = normalize_drone_tool_params(name.as_str(), params);
            t = ToolCall { category, name, params: p };
        }
        tasks.set(i, t);
        i = i + 1;
    }
    assert(tool_calls_view(tasks@) =~= tv.map_values(|t: ToolCallView| normalized_task(t)));
}

/// Normalizing the steps of a plan twice gives what normalizing once gives.
pub proof fn law_normalize_drone_tasks_idempotent(ts: Seq<ToolCallView>)
    ensures
        ts.map_values(|t: ToolCallView| normalized_task(t)).map_values(|t: ToolCallView| normalized_task(t))
            == ts.map_values(|t: ToolCallView| normalized_task(t)),
{
    let once = ts.map_values(|t: ToolCallView| normalized_task(t));
    let twice = once.map_values(|t: ToolCallView| normalized_task(t));
    assert forall|i: int| 0 <= i < once.len() implies #[trigger] twice[i] == once[i] by {
        law_normalize_drone_params_idempotent(ts[i].name, ts[i].params);
    }
    assert(twice =~= once);
}


/// A step as shown to a user: its category, its name and, when it has them, its
/// arguments.
pub open spec fn tool_call_json(t: ToolCallView) -> JsonView {
    let base = seq![("category"@, JsonView::Str(t.category)), ("name"@, JsonView::Str(t.name))];
    JsonView::Object(
        match t.params {
            Some(p) => base.push(("params"@, p)),
            None => base,
        },
    )
}

/// A plan as shown to a user: `{"tasks": [...]}`, one entry per step, in order.
pub open spec fn tasks_display(ts: Seq<ToolCallView>) -> JsonView {
    JsonView::Object(seq![("tasks"@, JsonView::Array(ts.map_values(|t: ToolCallView| tool_call_json(t))))])
}

fn tool_call_value(t: &ToolCall) -> (r: JsonValue)
    ensures
        r@ == tool_call_json(t@),
{
    let mut m: Vec<JsonMember> = Vec::new();
    m.push((String::from_str("category"), JsonValue::Str(t.category.clone())));
    m.push((String::from_str("name"), JsonValue::Str(t.name.clone())));
    match clone_opt(&t.params) {
        Some(p) => m.push((String::from_str("params"), p)),
        None => {},
    }
    proof { lemma_object_view(m); }
    let ghost base = seq![("category"@, JsonView::Str(t@.category)), ("name"@, JsonView::Str(t@.name))];
    assert(members_view(m@) =~= (match t@.params { Some(p) => base.push(("params"@, p)), None => base }));
    JsonValue::Object(m)
}

/// `{"tasks": [...]}` for a plan, as compact JSON text (written by `serde_json`).
pub fn tasks_display_json(tasks: &Vec<ToolCall>) -> (r: String)
    ensures
        r@ == json_text(tasks_display(tool_calls_view(tasks@))),
{
    let mut items: Vec<JsonValue> = Vec::new();
    let mut i: usize = 0;
    while i < tasks.len()
        invariant
            i <= tasks@.len(),
            items@.len() == i,
            forall|j: int| 0 <= j < i ==> (#[trigger] items@[j])@ == tool_call_json(tasks@[j]@),
        decreases tasks@.len() - i,
    {
        items.push(tool_call_value(&tasks[i]));
        i = i + 1;
    }
    proof { lemma_array_view(items); }
    let ghost arr = JsonView::Array(tool_calls_view(tasks@).map_values(|t: ToolCallView| tool_call_json(t)));
    assert(JsonValue::Array(items)@ == arr) by {
        assert(Seq::new(items@.len(), |j: int| items@[j]@) =~= tool_calls_view(tasks@).map_values(|t: ToolCallView| tool_call_json(t)));
    }
    let mut m: Vec<JsonMember> = Vec::new();
    m.push((String::from_str("tasks"), JsonValue::Array(items)));
    proof { lemma_object_view(m); }
    assert(members_view(m@) =~= seq![("tasks"@, arr)]);
    let v = JsonValue::Object(m);
    json_to_text(&v)
}

} // verus!
