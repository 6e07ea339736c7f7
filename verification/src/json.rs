//! A JSON value as the gateway's logic reads it. Text is turned into this form at
//! the program's edge; everything the gateway decides about a value is decided here.

use vstd::prelude::*;
use serde_json::Value;
use crate::text::{str_chars, str_eq};

verus! {

/// A JSON number: a non-negative integer, a negative integer, or another number
/// held as the text `serde_json` writes for it (the shortest text that reads back
/// as the same binary64 number, such as `15.0`).
#[derive(Debug, Clone)]
pub enum JsonNumber {
    PosInt(u64),
    NegInt(i64),
    Float(String),
}

/// The mathematical form of a JSON number.
pub enum JsonNumberView {
    PosInt(u64),
    NegInt(i64),
    Float(Seq<char>),
}

impl View for JsonNumber {
    type V = JsonNumberView;

    open spec fn view(&self) -> JsonNumberView {
        match self {
            JsonNumber::PosInt(u) => JsonNumberView::PosInt(*u),
            JsonNumber::NegInt(i) => JsonNumberView::NegInt(*i),
            JsonNumber::Float(t) => JsonNumberView::Float(t@),
        }
    }
}

impl JsonNumber {
    /// A copy of the number.
    pub fn copy(&self) -> (r: JsonNumber)
        ensures
            r@ == self@,
    {
        match self {
            JsonNumber::PosInt(u) => JsonNumber::PosInt(*u),
            JsonNumber::NegInt(i) => JsonNumber::NegInt(*i),
            JsonNumber::Float(t) => JsonNumber::Float(t.clone()),
        }
    }
}

/// One member of a JSON object: its key and its value.
pub type JsonMember = (String, JsonValue);

/// A JSON value. An object keeps its members in order.
#[derive(Debug)]
pub enum JsonValue {
    Null,
    Bool(bool),
    Number(JsonNumber),
    Str(String),
    Array(Vec<JsonValue>),
    Object(Vec<JsonMember>),
}

/// The mathematical form of a JSON value.
pub enum JsonView {
    Null,
    Bool(bool),
    Number(JsonNumberView),
    Str(Seq<char>),
    Array(Seq<JsonView>),
    Object(Seq<(Seq<char>, JsonView)>),
}

pub open spec fn json_view(v: JsonValue) -> JsonView
    decreases v,
{
    match v {
        JsonValue::Null => JsonView::Null,
        JsonValue::Bool(b) => JsonView::Bool(b),
        JsonValue::Number(n) => JsonView::Number(n@),
        JsonValue::Str(s) => JsonView::Str(s@),
        JsonValue::Array(a) => JsonView::Array(
            Seq::new(a@.len(), |i: int| if 0 <= i < a@.len() { json_view(a@[i]) } else { JsonView::Null }),
        ),
        JsonValue::Object(m) => JsonView::Object(
            Seq::new(m@.len(), |i: int| if 0 <= i < m@.len() { (m@[i].0@, json_view(m@[i].1)) } else { (Seq::empty(), JsonView::Null) }),
        ),
    }
}

impl View for JsonValue {
    type V = JsonView;

    open spec fn view(&self) -> JsonView {
        json_view(*self)
    }
}

/// The views of the members of an object.
pub open spec fn members_view(m: Seq<JsonMember>) -> Seq<(Seq<char>, JsonView)> {
    Seq::new(m.len(), |i: int| (m[i].0@, m[i].1@))
}

pub proof fn lemma_object_view(m: Vec<JsonMember>)
    ensures
        JsonValue::Object(m)@ == JsonView::Object(members_view(m@)),
{
    let v = JsonValue::Object(m);
    let s = Seq::new(m@.len(), |i: int| if 0 <= i < m@.len() { (m@[i].0@, json_view(m@[i].1)) } else { (Seq::<char>::empty(), JsonView::Null) });
    match json_view(v) {
        JsonView::Object(t) => {
            assert(t =~= s);
            assert(members_view(m@) =~= s);
        },
        _ => {},
    }
}

/// The text `serde_json` writes for the binary64 number that it reads a
/// non-negative integer as (`Number::as_f64`, that is the nearest binary64 number,
/// written by `Number::from_f64` and `Display`). It depends on `u` alone.
pub uninterp spec fn binary64_text(u: u64) -> Seq<char>;

/// Reads a non-negative integer as a binary64 number with `serde_json`'s
/// `Number::as_f64` and writes that number as `serde_json` does. The contract claims
/// only that the text is a function of `u`, named [`binary64_text`].
#[verifier::external_body]
pub(crate) fn binary64_text_of_u64(u: u64) -> (r: String)
    ensures
        r@ == binary64_text(u),
{
    match serde_json::Number::from(u).as_f64().and_then(serde_json::Number::from_f64) {
        Some(n) => n.to_string(),
        None => String::new(),
    }
}

/// The text of a number greater than zero: not signed, with a digit other than
/// `0` before any exponent.
pub open spec fn decimal_positive(t: Seq<char>) -> bool {
    &&& t.len() > 0
    &&& t[0] != '-'
    &&& exists|i: int| 0 <= i < t.len() && '1' <= #[trigger] t[i] <= '9'
        && forall|j: int| 0 <= j < i ==> t[j] != 'e' && t[j] != 'E'
}

/// See [`decimal_positive`].
pub fn is_decimal_positive(t: &str) -> (r: bool)
    ensures
        r == decimal_positive(t@),
{
    let cs = str_chars(t);
    if cs.len() == 0 || cs[0] == '-' {
        return false;
    }
    let mut i: usize = 0;
    while i < cs.len()
        invariant
            cs@ == t@,
            cs@.len() > 0,
            cs@[0] != '-',
            i <= cs@.len(),
            forall|j: int| 0 <= j < i ==> !('1' <= cs@[j] <= '9') && cs@[j] != 'e' && cs@[j] != 'E',
        decreases cs@.len() - i,
    {
        let c = cs[i];
        if '1' <= c && c <= '9' {
            assert('1' <= t@[i as int] <= '9');
            return true;
        }
        if c == 'e' || c == 'E' {
            assert forall|k: int| 0 <= k < cs@.len() && '1' <= #[trigger] cs@[k] <= '9'
                implies !(forall|j: int| 0 <= j < k ==> cs@[j] != 'e' && cs@[j] != 'E') by {
                assert(k > i);
                assert(cs@[i as int] == c);
            }
            return false;
        }
        i = i + 1;
    }
    false
}

/// The text of a number as `as_f64` reads it, when that number is greater than
/// zero: a positive integer as [`binary64_text`] writes it, a text kept as it is.
pub open spec fn positive_number(n: JsonNumberView) -> Option<Seq<char>> {
    match n {
        JsonNumberView::PosInt(u) => {
            let t = binary64_text(u);
            if u > 0 && decimal_positive(t) { Some(t) } else { None }
        },
        JsonNumberView::NegInt(i) => {
            let t = binary64_text(i as u64);
            if i > 0 && decimal_positive(t) { Some(t) } else { None }
        },
        JsonNumberView::Float(t) => if decimal_positive(t) { Some(t) } else { None },
    }
}

/// See [`positive_number`].
pub fn positive_number_of(n: &JsonNumber) -> (r: Option<String>)
    ensures
        match r {
            Some(t) => positive_number(n@) == Some(t@),
            None => positive_number(n@) is None,
        },
{
    match n {
        JsonNumber::PosInt(u) => {
            if *u > 0 {
                let t = binary64_text_of_u64(*u);
                if is_decimal_positive(t.as_str()) { Some(t) } else { None }
            } else {
                None
            }
        },
        JsonNumber::NegInt(i) => {
            if *i > 0 {
                let t = binary64_text_of_u64(*i as u64);
                if is_decimal_positive(t.as_str()) { Some(t) } else { None }
            } else {
                None
            }
        },
        JsonNumber::Float(t) => if is_decimal_positive(t.as_str()) { Some(t.clone()) } else { None },
    }
}

/// Index of the first member whose key is `key`, or -1.
pub open spec fn member_index(e: Seq<(Seq<char>, JsonView)>, key: Seq<char>) -> int
    decreases e.len(),
{
    if e.len() == 0 {
        -1
    } else {
        let r = member_index(e.drop_last(), key);
        if r >= 0 {
            r
        } else if e.last().0 == key {
            e.len() - 1
        } else {
            -1
        }
    }
}

/// The object has a member named `key` (as `Map::contains_key`).
pub open spec fn has_member(e: Seq<(Seq<char>, JsonView)>, key: Seq<char>) -> bool {
    member_index(e, key) >= 0
}

/// The value of the first member named `key` (as `Map::get`).
pub open spec fn member_get(e: Seq<(Seq<char>, JsonView)>, key: Seq<char>) -> Option<JsonView> {
    let i = member_index(e, key);
    if i >= 0 { Some(e[i].1) } else { None }
}

pub proof fn lemma_member_index(e: Seq<(Seq<char>, JsonView)>, key: Seq<char>)
    ensures
        -1 <= member_index(e, key) < e.len(),
        member_index(e, key) >= 0 ==> e[member_index(e, key)].0 == key,
        member_index(e, key) >= 0 ==> forall|j: int| 0 <= j < member_index(e, key) ==> e[j].0 != key,
        member_index(e, key) < 0 ==> forall|j: int| 0 <= j < e.len() ==> e[j].0 != key,
    decreases e.len(),
{
    if e.len() > 0 {
        let d = e.drop_last();
        lemma_member_index(d, key);
        let r = member_index(e, key);
        if r >= 0 {
            assert forall|j: int| 0 <= j < r implies e[j].0 != key by {
                assert(d[j] == e[j]);
            }
        } else {
            assert forall|j: int| 0 <= j < e.len() implies e[j].0 != key by {
                if j < e.len() - 1 {
                    assert(d[j] == e[j]);
                }
            }
        }
    }
}

/// The first member named `key` is the one at `i` when no earlier member has that name.
pub proof fn lemma_member_index_at(e: Seq<(Seq<char>, JsonView)>, key: Seq<char>, i: int)
    requires
        0 <= i < e.len(),
        e[i].0 == key,
        forall|j: int| 0 <= j < i ==> e[j].0 != key,
    ensures
        member_index(e, key) == i,
{
    lemma_member_index(e, key);
}

/// Whether a member is present depends on the keys alone: replacing the value at
/// one position, or appending a member with another key, leaves it unchanged.
pub proof fn lemma_has_member_same_keys(e: Seq<(Seq<char>, JsonView)>, f: Seq<(Seq<char>, JsonView)>, key: Seq<char>)
    requires
        e.len() <= f.len(),
        forall|j: int| 0 <= j < e.len() ==> (#[trigger] f[j]).0 == e[j].0,
        forall|j: int| e.len() <= j < f.len() ==> (#[trigger] f[j]).0 != key,
    ensures
        has_member(f, key) == has_member(e, key),
{
    lemma_member_index(e, key);
    lemma_member_index(f, key);
    if has_member(e, key) {
        let i = member_index(e, key);
        assert(f[i].0 == key);
    }
    if has_member(f, key) {
        let i = member_index(f, key);
        assert(i < e.len());
        assert(e[i].0 == key);
    }
}

/// The first match in a prefix that has one is the first match overall.
pub proof fn lemma_member_index_prefix(e: Seq<(Seq<char>, JsonView)>, key: Seq<char>, k: int)
    requires
        0 <= k <= e.len(),
        member_index(e.take(k), key) >= 0,
    ensures
        member_index(e, key) == member_index(e.take(k), key),
    decreases e.len() - k,
{
    if k < e.len() {
        assert(e.take(k + 1).drop_last() =~= e.take(k));
        lemma_member_index_prefix(e, key, k + 1);
    } else {
        assert(e.take(k) =~= e);
    }
}

/// Position of the first member named `key` in `e`.
pub fn find_member(e: &Vec<JsonMember>, key: &str) -> (r: Option<usize>)
    ensures
        match r {
            Some(i) => i as int == member_index(members_view(e@), key@),
            None => member_index(members_view(e@), key@) == -1,
        },
{
    let ghost ev = members_view(e@);
    let mut i: usize = 0;
    while i < e.len()
        invariant
            ev == members_view(e@),
            i <= e@.len(),
            member_index(ev.take(i as int), key@) == -1,
        decreases e@.len() - i,
    {
        assert(ev.take(i + 1).drop_last() =~= ev.take(i as int));
        if str_eq(e[i].0.as_str(), key) {
            proof {
                assert(ev.take(i + 1).last() == ev[i as int]);
                assert(member_index(ev.take(i + 1), key@) == i);
                lemma_member_index_prefix(ev, key@, i + 1);
            }
            return Some(i);
        }
        i = i + 1;
    }
    assert(ev.take(ev.len() as int) =~= ev);
    None
}

/// Whether the object `e` has a member named `key` (as `Map::contains_key`).
pub fn contains_member(e: &Vec<JsonMember>, key: &str) -> (r: bool)
    ensures
        r == has_member(members_view(e@), key@),
{
    find_member(e, key).is_some()
}


pub proof fn lemma_array_view(a: Vec<JsonValue>)
    ensures
        JsonValue::Array(a)@ == JsonView::Array(Seq::new(a@.len(), |i: int| a@[i]@)),
{
    let v = JsonValue::Array(a);
    let s = Seq::new(a@.len(), |i: int| if 0 <= i < a@.len() { json_view(a@[i]) } else { JsonView::Null });
    match json_view(v) {
        JsonView::Array(t) => {
            assert(t =~= s);
            assert(Seq::new(a@.len(), |i: int| a@[i]@) =~= s);
        },
        _ => {},
    }
}

impl JsonValue {
    /// The value of the member `key` of an object (`None` for a missing member or
    /// a value that is not an object), as `Value::get`.
    pub fn get(&self, key: &str) -> (r: Option<&JsonValue>)
        ensures
            (match r {
                Some(x) => Some(x@),
                None => None,
            }) == (match self@ {
                JsonView::Object(m) => member_get(m, key@),
                _ => None,
            }),
    {
        match self {
            JsonValue::Object(m) => {
                proof { lemma_object_view(*m); }
                match find_member(m, key) {
                    Some(i) => {
                        proof { lemma_member_index(members_view(m@), key@); }
                        Some(&m[i].1)
                    },
                    None => None,
                }
            },
            _ => None,
        }
    }

    /// A copy of this value.
    pub fn deep_clone(&self) -> (r: JsonValue)
        ensures
            r@ == self@,
        decreases self,
    {
        match self {
            JsonValue::Null => JsonValue::Null,
            JsonValue::Bool(b) => JsonValue::Bool(*b),
            JsonValue::Number(n) => JsonValue::Number(n.copy()),
            JsonValue::Str(s) => JsonValue::Str(s.clone()),
            JsonValue::Array(a) => {
                let mut out: Vec<JsonValue> = Vec::new();
                let mut i: usize = 0;
                while i < a.len()
                    invariant
                        *self == JsonValue::Array(*a),
                        i <= a@.len(),
                        out@.len() == i,
                        forall|j: int| 0 <= j < i ==> (#[trigger] out@[j])@ == a@[j]@,
                    decreases a@.len() - i,
                {
                    proof {
                        let ghost me = *self;
                        assert(decreases_to!(me => me->Array_0));
                        assert(decreases_to!(*a => a@));
                        assert(decreases_to!(a@ => a@[i as int]));
                        assert(decreases_to!(me => a@[i as int]));
                    }
                    let c = a[i].deep_clone();
                    out.push(c);
                    i = i + 1;
                }
                proof {
                    lemma_array_view(out);
                    lemma_array_view(*a);
                    assert(Seq::new(out@.len(), |j: int| out@[j]@) =~= Seq::new(a@.len(), |j: int| a@[j]@));
                }
                JsonValue::Array(out)
            },
            JsonValue::Object(m) => {
                let mut out: Vec<JsonMember> = Vec::new();
                let mut i: usize = 0;
                while i < m.len()
                    invariant
                        *self == JsonValue::Object(*m),
                        i <= m@.len(),
                        out@.len() == i,
                        forall|j: int| 0 <= j < i ==> (#[trigger] out@[j]).0@ == m@[j].0@ && out@[j].1@ == m@[j].1@,
                    decreases m@.len() - i,
                {
                    let k = m[i].0.clone();
                    proof {
                        let ghost me = *self;
                        assert(decreases_to!(me => me->Object_0));
                        assert(decreases_to!(*m => m@));
                        assert(decreases_to!(m@ => m@[i as int]));
                        assert(decreases_to!(m@[i as int] => m@[i as int].1));
                        assert(decreases_to!(me => m@[i as int].1));
                    }
                    let v = m[i].1.deep_clone();
                    out.push((k, v));
                    i = i + 1;
                }
                proof {
                    lemma_object_view(out);
                    lemma_object_view(*m);
                    assert(members_view(out@) =~= members_view(m@));
                }
                JsonValue::Object(out)
            },
        }
    }
}

/// `serde_json`'s dynamically typed JSON value; only carried into [`json_from_serde`].
#[verifier::external_type_specification]
#[verifier::external_body]
pub struct ExSerdeJsonValue(serde_json::Value);

/// What `serde_json::from_str::<serde_json::Value>` reads from a text, in the form of
/// [`JsonView`], or the message of its error. It depends on the text alone.
pub uninterp spec fn json_text_value(text: Seq<char>) -> Result<JsonView, Seq<char>>;

pub open spec fn parsed_view(p: Result<JsonValue, String>) -> Result<JsonView, Seq<char>> {
    match p {
        Ok(v) => Ok(v@),
        Err(e) => Err(e@),
    }
}

/// The same value in this crate's form: variant for variant, members in the order
/// `serde_json` keeps them, integers that fit `u64` (or else `i64`) as integers and
/// other numbers by the text `serde_json` writes for them. Nothing is stated of it on its own;
/// [`parse_json_text`] names the reading as a whole.
#[verifier::external_body]
fn json_from_serde(v: Value) -> JsonValue {
    match v {
        Value::Null => JsonValue::Null,
        Value::Bool(b) => JsonValue::Bool(b),
        Value::Number(n) => JsonValue::Number(match (n.as_u64(), n.as_i64()) {
            (Some(u), _) => JsonNumber::PosInt(u),
            (None, Some(i)) => JsonNumber::NegInt(i),
            (None, None) => JsonNumber::Float(n.to_string()),
        }),
        Value::String(s) => JsonValue::Str(s),
        Value::Array(a) => JsonValue::Array(a.into_iter().map(json_from_serde).collect()),
        Value::Object(m) => JsonValue::Object(m.into_iter().map(|(k, x)| (k, json_from_serde(x))).collect()),
    }
}

/// Reads a JSON text with `serde_json::from_str::<serde_json::Value>`. The contract
/// claims only that the outcome (the value, or the error's message) is a function of
/// the text, named [`json_text_value`]; the grammar itself is `serde_json`'s.
#[verifier::external_body]
pub(crate) fn parse_json_text(text: &str) -> (r: Result<JsonValue, String>)
    ensures
        parsed_view(r) == json_text_value(text@),
{
    match serde_json::from_str::<serde_json::Value>(text) {
        Ok(v) => Ok(json_from_serde(v)),
        Err(e) => Err(e.to_string()),
    }
}

/// The `serde_json` form of a number: an integer as it is; a number held as text
/// read back by `serde_json`, or `null` when the text is not a JSON number.
#[verifier::external_body]
fn number_to_serde(n: &JsonNumber) -> Value {
    match n {
        JsonNumber::PosInt(u) => Value::from(*u),
        JsonNumber::NegInt(i) => Value::from(*i),
        JsonNumber::Float(t) => serde_json::from_str::<serde_json::Number>(t).map_or(Value::Null, Value::Number),
    }
}

/// The same value in `serde_json`'s form, variant for variant. Nothing is stated
/// of it on its own; [`json_to_text`] names the writing as a whole.
#[verifier::external_body]
fn json_to_serde(v: &JsonValue) -> Value {
    match v {
        JsonValue::Null => Value::Null,
        JsonValue::Bool(b) => Value::Bool(*b),
        JsonValue::Number(n) => number_to_serde(n),
        JsonValue::Str(s) => Value::String(s.clone()),
        JsonValue::Array(a) => Value::Array(a.iter().map(json_to_serde).collect()),
        JsonValue::Object(m) => Value::Object(m.iter().map(|(k, x)| (k.clone(), json_to_serde(x))).collect()),
    }
}

/// The compact JSON text that `serde_json` writes for a value (`Value::to_string`:
/// object keys sorted, the last of equal keys kept, numbers as `serde_json`
/// formats them). It depends on the value alone.
pub uninterp spec fn json_text(v: JsonView) -> Seq<char>;

/// Writes a value as compact JSON text with `serde_json` (`Value::to_string`). The
/// contract claims only that the text is a function of the value, named
/// [`json_text`]; the format itself is `serde_json`'s.
#[verifier::external_body]
pub(crate) fn json_to_text(v: &JsonValue) -> (r: String)
    ensures
        r@ == json_text(v@),
{
    json_to_serde(v).to_string()
}

pub open spec fn opt_json_view(o: Option<JsonValue>) -> Option<JsonView> {
    match o {
        Some(v) => Some(v@),
        None => None,
    }
}

/// A copy of an optional value.
pub fn clone_opt(o: &Option<JsonValue>) -> (r: Option<JsonValue>)
    ensures
        opt_json_view(r) == opt_json_view(*o),
{
    match o {
        Some(v) => Some(v.deep_clone()),
        None => None,
    }
}

} // verus!
