//! ICE server configuration for browser WebRTC (TURN for remote internet viewing).
//! The settings are read at the edge; `None` stands for an unset variable.

use vstd::prelude::*;
use crate::config::{opt_view, or_default};
use crate::json::{JsonMember, JsonValue, JsonView, lemma_array_view, lemma_object_view, members_view};
use crate::text::{
    concat2, push_str, split_on, split_trim_nonempty, str_eq, string_views, trim, trim_str,
    trimmed_nonempty,
};

verus! {

/// Comma-separated TURN URLs, trimmed, empty pieces dropped.
pub fn split_turn_urls(raw: &str) -> (r: Vec<String>)
    ensures
        string_views(r@) == trimmed_nonempty(split_on(raw@, ',')),
{
    split_trim_nonempty(raw, ',')
}

/// The TURN URLs: those of `WEBRTC_TURN_URLS`, then `WEBRTC_TURN_URL` (trimmed) when
/// non-empty and not already listed; when none results and `WEBRTC_PUBLIC_HOST` is
/// set and not blank, UDP and TCP TURN on port 3478 of that host.
pub open spec fn turn_urls(multi: Option<Seq<char>>, single: Option<Seq<char>>, host: Option<Seq<char>>) -> Seq<Seq<char>> {
    let a = match multi {
        Some(m) => trimmed_nonempty(split_on(m, ',')),
        None => seq![],
    };
    let b = match single {
        Some(s) => if trim(s).len() > 0 && !a.contains(trim(s)) { a.push(trim(s)) } else { a },
        None => a,
    };
    match host {
        Some(h) => if b.len() == 0 && trim(h).len() > 0 {
            seq!["turn:"@ + h + ":3478?transport=udp"@, "turn:"@ + h + ":3478?transport=tcp"@]
        } else {
            b
        },
        None => b,
    }
}

fn listed(v: &Vec<String>, s: &String) -> (r: bool)
    ensures
        r == string_views(v@).contains(s@),
{
    let mut i: usize = 0;
    while i < v.len()
        invariant
            i <= v@.len(),
            forall|j: int| 0 <= j < i ==> string_views(v@)[j] != s@,
        decreases v@.len() - i,
    {
        if str_eq(v[i].as_str(), s.as_str()) {
            assert(string_views(v@)[i as int] == s@);
            return true;
        }
        i = i + 1;
    }
    false
}

/// The TURN URLs of the settings (see [`turn_urls`]).
pub fn collect_turn_urls(multi: Option<&str>, single: Option<&str>, host: Option<&str>) -> (r: Vec<String>)
    ensures
        string_views(r@) == turn_urls(
            match multi { Some(m) => Some(m@), None => None },
            match single { Some(s) => Some(s@), None => None },
            match host { Some(h) => Some(h@), None => None },
        ),
{
    let mut urls: Vec<String> = match multi {
        Some(m) => split_turn_urls(m),
        None => {
            let v: Vec<String> = Vec::new();
            assert(string_views(v@) =~= Seq::<Seq<char>>::empty());
            v
        },
    };
    match single {
        Some(s) => {
            let t = trim_str(s);
            if !t.as_str().is_empty() && !listed(&urls, &t) {
                let ghost u0 = urls@;
                urls.push(t);
                assert(string_views(urls@) =~= string_views(u0).push(trim(s@)));
            }
        },
        None => {},
    }
    match host {
        Some(h) => {
            let ht = trim_str(h);
            if urls.len() == 0 && !ht.as_str().is_empty() {
                let mut udp = concat2("turn:", h);
                push_str(&mut udp, ":3478?transport=udp");
                let mut tcp = concat2("turn:", h);
                push_str(&mut tcp, ":3478?transport=tcp");
                let mut v: Vec<String> = Vec::new();
                v.push(udp);
                v.push(tcp);
                assert(string_views(v@) =~= seq!["turn:"@ + h@ + ":3478?transport=udp"@, "turn:"@ + h@ + ":3478?transport=tcp"@]);
                return v;
            }
        },
        None => {},
    }
    urls
}

/// The settings of the ICE configuration (`None` when unset).
#[derive(Debug)]
pub struct IceSettings {
    pub stun_url: Option<String>,
    pub turn_urls: Option<String>,
    pub turn_url: Option<String>,
    pub public_host: Option<String>,
    pub turn_username: Option<String>,
    pub turn_password: Option<String>,
    pub transport_policy: Option<String>,
}

/// One ICE server entry: `{"urls": url}`, with `username` and `credential` when a
/// TURN user is set.
pub open spec fn turn_server(url: Seq<char>, user: Seq<char>, cred: Seq<char>) -> JsonView {
    if user.len() == 0 {
        JsonView::Object(seq![("urls"@, JsonView::Str(url))])
    } else {
        JsonView::Object(seq![
            ("urls"@, JsonView::Str(url)),
            ("username"@, JsonView::Str(user)),
            ("credential"@, JsonView::Str(cred)),
        ])
    }
}

pub open spec fn turn_servers(urls: Seq<Seq<char>>, user: Seq<char>, cred: Seq<char>) -> Seq<JsonView> {
    urls.map_values(|u: Seq<char>| turn_server(u, user, cred))
}

/// The configuration for `GET /camera/webrtc/ice`: the STUN server (default
/// Google's, dropped when blank), the TURN servers, the transport policy (given,
/// else `relay` with TURN and `all` without) and whether TURN is configured.
pub open spec fn ice_config(s: IceSettings) -> JsonView {
    let stun = trim(or_default(opt_view(s.stun_url), "stun:stun.l.google.com:19302"@));
    let stun_servers = if stun.len() > 0 { seq![JsonView::Object(seq![("urls"@, JsonView::Str(stun))])] } else { seq![] };
    let turn = turn_urls(opt_view(s.turn_urls), opt_view(s.turn_url), opt_view(s.public_host));
    let user = or_default(opt_view(s.turn_username), seq![]);
    let cred = or_default(opt_view(s.turn_password), seq![]);
    let policy = or_default(opt_view(s.transport_policy), if turn.len() == 0 { "all"@ } else { "relay"@ });
    JsonView::Object(seq![
        ("iceServers"@, JsonView::Array(stun_servers + turn_servers(turn, user, cred))),
        ("iceTransportPolicy"@, JsonView::Str(policy)),
        ("turn_configured"@, JsonView::Bool(turn.len() > 0)),
    ])
}

fn opt_as_str(o: &Option<String>) -> (r: Option<&str>)
    ensures
        match r { Some(x) => Some(x@), None => None::<Seq<char>> } == opt_view(*o),
{
    match o {
        Some(s) => Some(s.as_str()),
        None => None,
    }
}

fn str_member(key: &str, value: String) -> (r: JsonMember)
    ensures
        r.0@ == key@,
        r.1@ == JsonView::Str(value@),
{
    (String::from_str(key), JsonValue::Str(value))
}

/// JSON for `GET /camera/webrtc/ice` (the browser's `RTCPeerConnection` configuration).
pub fn webrtc_ice_json(s: &IceSettings) -> (r: JsonValue)
    ensures
        r@ == ice_config(*s),
{
    let mut servers: Vec<JsonValue> = Vec::new();
    let stun_raw = match &s.stun_url {
        Some(v) => v.clone(),
        None => String::from_str("stun:stun.l.google.com:19302"),
    };
    let stun = trim_str(stun_raw.as_str());
    let ghost stun_servers: Seq<JsonView> = if stun@.len() > 0 {
        seq![JsonView::Object(seq![("urls"@, JsonView::Str(stun@))])] } else { seq![] };
    if !stun.as_str().is_empty() {
        let mut m: Vec<JsonMember> = Vec::new();
        m.push(str_member("urls", stun));
        proof { lemma_object_view(m); }
        assert(members_view(m@) =~= seq![("urls"@, JsonView::Str(stun@))]);
        servers.push(JsonValue::Object(m));
    }
    assert(Seq::new(servers@.len(), |i: int| servers@[i]@) =~= stun_servers);
    let turn = collect_turn_urls(opt_as_str(&s.turn_urls), opt_as_str(&s.turn_url), opt_as_str(&s.public_host));
    let user = match &s.turn_username { Some(u) => u.clone(), None => String::new() };
    let cred = match &s.turn_password { Some(c) => c.clone(), None => String::new() };
    let ghost tv = string_views(turn@);
    let ghost base = Seq::new(servers@.len(), |i: int| servers@[i]@);
    let mut i: usize = 0;
    while i < turn.len()
        invariant
            i <= turn@.len(),
            tv == string_views(turn@),
            Seq::new(servers@.len(), |j: int| servers@[j]@) == base + turn_servers(tv.take(i as int), user@, cred@),
        decreases turn@.len() - i,
    {
        let ghost sv0 = Seq::new(servers@.len(), |j: int| servers@[j]@);
        let url = turn[i].clone();
        let mut m: Vec<JsonMember> = Vec::new();
        m.push(str_member("urls", url));
        if !user.as_str().is_empty() {
            m.push(str_member("username", user.clone()));
            m.push(str_member("credential", cred.clone()));
        }
        proof { lemma_object_view(m); }
        let ghost entry = turn_server(tv[i as int], user@, cred@);
        assert(members_view(m@) =~= entry->Object_0);
        servers.push(JsonValue::Object(m));
        assert(Seq::new(servers@.len(), |j: int| servers@[j]@) =~= sv0.push(entry));
        assert(turn_servers(tv.take(i + 1), user@, cred@) =~= turn_servers(tv.take(i as int), user@, cred@).push(entry));
        i = i + 1;
    }
    assert(tv.take(tv.len() as int) =~= tv);
    let policy = match &s.transport_policy {
        Some(p) => p.clone(),
        None => if turn.len() == 0 { String::from_str("all") } else { String::from_str("relay") },
    };
    let configured = turn.len() > 0;
    proof { lemma_array_view(servers); }
    let mut top: Vec<JsonMember> = Vec::new();
    top.push((String::from_str("iceServers"), JsonValue::Array(servers)));
    top.push(str_member("iceTransportPolicy", policy));
    top.push((String::from_str("turn_configured"), JsonValue::Bool(configured)));
    proof { lemma_object_view(top); }
    assert(members_view(top@) =~= ice_config(*s)->Object_0);
    JsonValue::Object(top)
}

} // verus!
