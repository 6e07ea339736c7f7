//! Ring buffer of recent LLM infer outputs for the flight logs dashboard.

use vstd::prelude::*;
use std::collections::VecDeque;
use crate::drone_apply::opt_str_view;
use crate::timing::unix_ms_now;

verus! {

/// At most this many entries are kept.
pub const MAX_ENTRIES: usize = 100;

/// Entries older than this (24 hours) are dropped.
pub const LOG_RETENTION_MS: u64 = 86_400_000;

/// One infer, as the dashboard shows it.
#[derive(Debug, Clone)]
pub struct LlmLogEntry {
    pub ts_ms: u64,
    pub prompt: String,
    pub llm_tool_json: Option<String>,
    pub action_taken: Option<String>,
    pub model: Option<String>,
    pub request_id: String,
}

pub struct LlmLogEntryView {
    pub ts_ms: u64,
    pub prompt: Seq<char>,
    pub llm_tool_json: Option<Seq<char>>,
    pub action_taken: Option<Seq<char>>,
    pub model: Option<Seq<char>>,
    pub request_id: Seq<char>,
}

impl View for LlmLogEntry {
    type V = LlmLogEntryView;

    open spec fn view(&self) -> LlmLogEntryView {
        LlmLogEntryView {
            ts_ms: self.ts_ms,
            prompt: self.prompt@,
            llm_tool_json: opt_str_view(self.llm_tool_json),
            action_taken: opt_str_view(self.action_taken),
            model: opt_str_view(self.model),
            request_id: self.request_id@,
        }
    }
}

fn clone_opt_string(o: &Option<String>) -> (r: Option<String>)
    ensures
        opt_str_view(r) == opt_str_view(*o),
{
    match o {
        Some(s) => Some(s.clone()),
        None => None,
    }
}

impl LlmLogEntry {
    /// A copy of this entry.
    pub fn copy(&self) -> (r: LlmLogEntry)
        ensures
            r@ == self@,
    {
        LlmLogEntry {
            ts_ms: self.ts_ms,
            prompt: self.prompt.clone(),
            llm_tool_json: clone_opt_string(&self.llm_tool_json),
            action_taken: clone_opt_string(&self.action_taken),
            model: clone_opt_string(&self.model),
            request_id: self.request_id.clone(),
        }
    }
}

pub open spec fn entries_view(s: Seq<LlmLogEntry>) -> Seq<LlmLogEntryView> {
    Seq::new(s.len(), |i: int| s[i]@)
}

/// The oldest time kept at `now_ms`.
pub open spec fn retention_cutoff(now_ms: u64) -> u64 {
    if now_ms < LOG_RETENTION_MS { 0 } else { (now_ms - LOG_RETENTION_MS) as u64 }
}

/// Drops entries from the front while the front one is older than `cutoff`.
pub open spec fn pruned(q: Seq<LlmLogEntryView>, cutoff: u64) -> Seq<LlmLogEntryView>
    decreases q.len(),
{
    if q.len() > 0 && q[0].ts_ms < cutoff { pruned(q.drop_first(), cutoff) } else { q }
}

/// Keeps the newest [`MAX_ENTRIES`] entries.
pub open spec fn capped(q: Seq<LlmLogEntryView>) -> Seq<LlmLogEntryView> {
    if q.len() > MAX_ENTRIES { q.skip(q.len() - MAX_ENTRIES) } else { q }
}

/// The recent infers, oldest first.
#[derive(Debug)]
pub struct InferLog {
    entries: VecDeque<LlmLogEntry>,
}

/// The oldest time kept at `now_ms` (24 hours back, or the epoch).
pub fn retention_cutoff_ms(now_ms: u64) -> (r: u64)
    ensures
        r == retention_cutoff(now_ms),
{
    now_ms.saturating_sub(LOG_RETENTION_MS)
}

fn prune_expired(q: &mut VecDeque<LlmLogEntry>, now_ms: u64)
    ensures
        entries_view(final(q)@) == pruned(entries_view(old(q)@), retention_cutoff(now_ms)),
        final(q)@.len() <= old(q)@.len(),
{
    let cutoff = retention_cutoff_ms(now_ms);
    loop
        invariant
            pruned(entries_view(old(q)@), cutoff) == pruned(entries_view(q@), cutoff),
            cutoff == retention_cutoff(now_ms),
            q@.len() <= old(q)@.len(),
        ensures
            entries_view(q@) == pruned(entries_view(old(q)@), cutoff),
            q@.len() <= old(q)@.len(),
        decreases q@.len(),
    {
        if q.len() == 0 {
            assert(entries_view(q@).len() == 0);
            break;
        }
        let expired = q[0].ts_ms < cutoff;
        if !expired {
            assert(entries_view(q@)[0] == q@[0]@);
            assert(pruned(entries_view(q@), cutoff) == entries_view(q@));
            break;
        }
        assert(entries_view(q@)[0] == q@[0]@);
        let ghost q0 = q@;
        let _ = q.pop_front();
        assert(entries_view(q@) =~= entries_view(q0).drop_first());
    }
}

impl InferLog {
    /// The log never holds more than [`MAX_ENTRIES`] entries.
    #[verifier::type_invariant]
    spec fn bounded(self) -> bool {
        self.entries@.len() <= MAX_ENTRIES
    }

    pub fn new() -> (r: InferLog)
        ensures
            r@.len() == 0,
    {
        InferLog { entries: VecDeque::new() }
    }

    pub closed spec fn view(&self) -> Seq<LlmLogEntryView> {
        entries_view(self.entries@)
    }

    /// Records an infer at `now_ms`: appended at the back, then entries older than
    /// 24 hours dropped from the front, then the oldest dropped beyond [`MAX_ENTRIES`].
    pub fn push_at(
        &mut self,
        now_ms: u64,
        prompt: String,
        llm_tool_json: Option<String>,
        action_taken: Option<String>,
        model: Option<String>,
        request_id: String,
    )
        ensures
            final(self).view() == capped(pruned(old(self).view().push(LlmLogEntryView {
                ts_ms: now_ms,
                prompt: prompt@,
                llm_tool_json: opt_str_view(llm_tool_json),
                action_taken: opt_str_view(action_taken),
                model: opt_str_view(model),
                request_id: request_id@,
            }), retention_cutoff(now_ms))),
            final(self).view().len() <= MAX_ENTRIES,
    {
        let entry = LlmLogEntry { ts_ms: now_ms, prompt, llm_tool_json, action_taken, model, request_id };
        let mut q: VecDeque<LlmLogEntry> = VecDeque::new();
        std::mem::swap(&mut q, &mut self.entries);
        let ghost q0 = q@;
        q.push_back(entry);
        assert(entries_view(q@) =~= entries_view(q0).push(entry@));
        prune_expired(&mut q, now_ms);
        let ghost p = entries_view(q@);
        assert(p.skip(0) =~= p);
        while q.len() > MAX_ENTRIES
            invariant
                q@.len() <= p.len(),
                q@.len() >= MAX_ENTRIES || q@.len() == p.len(),
                entries_view(q@) == p.skip(p.len() - q@.len()),
            decreases q@.len(),
        {
            let ghost q1 = q@;
            let _ = q.pop_front();
            assert(entries_view(q@) =~= entries_view(q1).drop_first());
            assert(p.skip(p.len() - q@.len()) =~= p.skip(p.len() - q1.len()).drop_first());
        }
        assert(p.skip(0) =~= p);
        assert(entries_view(q@) =~= capped(p));
        self.entries = q;
    }

    /// Records an infer now (see [`InferLog::push_at`]; the time is the clock's).
    pub fn push(
        &mut self,
        prompt: String,
        llm_tool_json: Option<String>,
        action_taken: Option<String>,
        model: Option<String>,
        request_id: String,
    )
        ensures
            exists|now_ms: u64| final(self).view() == capped(pruned(old(self).view().push(LlmLogEntryView {
                ts_ms: now_ms,
                prompt: prompt@,
                llm_tool_json: opt_str_view(llm_tool_json),
                action_taken: opt_str_view(action_taken),
                model: opt_str_view(model),
                request_id: request_id@,
            }), retention_cutoff(now_ms))),
            final(self).view().len() <= MAX_ENTRIES,
    {
        let now_ms = unix_ms_now();
        self.push_at(now_ms, prompt, llm_tool_json, action_taken, model, request_id);
    }

    /// The entries still kept at `now_ms` (older ones are dropped), oldest first.
    pub fn snapshot_at(&mut self, now_ms: u64) -> (r: Vec<LlmLogEntry>)
        ensures
            final(self).view() == pruned(old(self).view(), retention_cutoff(now_ms)),
            entries_view(r@) == final(self).view(),
            final(self).view().len() <= old(self).view().len(),
            final(self).view().len() <= MAX_ENTRIES,
    {
        proof { use_type_invariant(&*self); }
        let mut q: VecDeque<LlmLogEntry> = VecDeque::new();
        std::mem::swap(&mut q, &mut self.entries);
        prune_expired(&mut q, now_ms);
        let mut out: Vec<LlmLogEntry> = Vec::new();
        let mut i: usize = 0;
        while i < q.len()
            invariant
                i <= q@.len(),
                entries_view(out@) == entries_view(q@).take(i as int),
            decreases q@.len() - i,
        {
            let ghost o0 = out@;
            let c = q[i].copy();
            out.push(c);
            assert(entries_view(out@) =~= entries_view(o0).push(q@[i as int]@));
            assert(entries_view(out@) =~= entries_view(q@).take(i + 1));
            i = i + 1;
        }
        assert(entries_view(q@).take(q@.len() as int) =~= entries_view(q@));
        self.entries = q;
        out
    }

    /// The entries still kept now (see [`InferLog::snapshot_at`]; the time is the clock's).
    pub fn snapshot(&mut self) -> (r: Vec<LlmLogEntry>)
        ensures
            exists|now_ms: u64| final(self).view() == pruned(old(self).view(), retention_cutoff(now_ms)),
            entries_view(r@) == final(self).view(),
            final(self).view().len() <= old(self).view().len(),
            final(self).view().len() <= MAX_ENTRIES,
    {
        let now_ms = unix_ms_now();
        self.snapshot_at(now_ms)
    }

    /// Drops every entry.
    pub fn clear(&mut self)
        ensures
            final(self).view().len() == 0,
    {
        self.entries = VecDeque::new();
        assert(entries_view(self.entries@) =~= Seq::<LlmLogEntryView>::empty());
    }
}

/// Pruning keeps the last entry when it is recent enough, and with it at least one entry.
pub proof fn lemma_pruned_keeps_last(q: Seq<LlmLogEntryView>, cutoff: u64)
    requires
        q.len() > 0,
        q.last().ts_ms >= cutoff,
    ensures
        pruned(q, cutoff).len() > 0,
        pruned(q, cutoff).last() == q.last(),
    decreases q.len(),
{
    if q[0].ts_ms < cutoff {
        assert(q.len() > 1);
        assert(q.drop_first().last() == q.last());
        lemma_pruned_keeps_last(q.drop_first(), cutoff);
    }
}

/// An infer recorded at some time is the newest entry of the log, and of a
/// snapshot taken at that same time; the log never holds more than
/// [`MAX_ENTRIES`] entries.
pub proof fn law_snapshot_ends_with_recorded(q: Seq<LlmLogEntryView>, e: LlmLogEntryView, now_ms: u64)
    requires
        e.ts_ms == now_ms,
    ensures
        ({
            let after = capped(pruned(q.push(e), retention_cutoff(now_ms)));
            let snap = pruned(after, retention_cutoff(now_ms));
            &&& after.len() <= MAX_ENTRIES
            &&& after.len() > 0 && after.last() == e
            &&& snap.len() > 0 && snap.last() == e
        }),
{
    let c = retention_cutoff(now_ms);
    let p = pruned(q.push(e), c);
    assert(q.push(e).last() == e);
    lemma_pruned_keeps_last(q.push(e), c);
    let after = capped(p);
    if p.len() > MAX_ENTRIES {
        assert(after.last() == p.last());
    }
    lemma_pruned_keeps_last(after, c);
}

/// The entries are in time order (as pushing at non-decreasing times leaves them).
pub open spec fn in_time_order(q: Seq<LlmLogEntryView>) -> bool {
    forall|i: int, j: int| 0 <= i <= j < q.len() ==> q[i].ts_ms <= q[j].ts_ms
}

/// Pruning drops a prefix of entries older than the cutoff and keeps the rest in
/// order; its front, if any, is not older than the cutoff.
pub proof fn lemma_pruned_suffix(q: Seq<LlmLogEntryView>, cutoff: u64) -> (k: int)
    ensures
        0 <= k <= q.len(),
        pruned(q, cutoff) == q.skip(k),
        forall|j: int| 0 <= j < k ==> (#[trigger] q[j]).ts_ms < cutoff,
        k < q.len() ==> q[k].ts_ms >= cutoff,
    decreases q.len(),
{
    if q.len() > 0 && q[0].ts_ms < cutoff {
        let k1 = lemma_pruned_suffix(q.drop_first(), cutoff);
        assert(q.drop_first().skip(k1) =~= q.skip(k1 + 1));
        assert forall|j: int| 0 <= j < k1 + 1 implies (#[trigger] q[j]).ts_ms < cutoff by {
            if j > 0 {
                assert(q[j] == q.drop_first()[j - 1]);
            }
        }
        k1 + 1
    } else {
        assert(q.skip(0) =~= q);
        0
    }
}

/// A snapshot keeps exactly the entries recorded at or after the retention
/// cutoff, oldest first, when the log is in time order; and a second snapshot at
/// the same time, with nothing recorded or cleared between, changes nothing.
pub proof fn law_snapshot_keeps_recent(q: Seq<LlmLogEntryView>, now_ms: u64)
    ensures
        pruned(pruned(q, retention_cutoff(now_ms)), retention_cutoff(now_ms)) == pruned(q, retention_cutoff(now_ms)),
        in_time_order(q) ==> pruned(q, retention_cutoff(now_ms))
            == q.filter(|e: LlmLogEntryView| e.ts_ms >= retention_cutoff(now_ms)),
{
    let c = retention_cutoff(now_ms);
    let k = lemma_pruned_suffix(q, c);
    let p = q.skip(k);
    if p.len() > 0 {
        assert(p[0] == q[k]);
    }
    if in_time_order(q) {
        lemma_filter_suffix(q, c, k);
    }
}

/// In a time-ordered sequence whose first `k` entries, and only those, are older
/// than the cutoff, the entries not older than the cutoff are those after `k`.
proof fn lemma_filter_suffix(q: Seq<LlmLogEntryView>, cutoff: u64, k: int)
    requires
        in_time_order(q),
        0 <= k <= q.len(),
        forall|j: int| 0 <= j < k ==> (#[trigger] q[j]).ts_ms < cutoff,
        k < q.len() ==> q[k].ts_ms >= cutoff,
    ensures
        q.skip(k) == q.filter(|e: LlmLogEntryView| e.ts_ms >= cutoff),
    decreases q.len(),
{
    reveal(Seq::filter);
    if q.len() == 0 {
        assert(q.skip(k) =~= q.filter(|e: LlmLogEntryView| e.ts_ms >= cutoff));
    } else if k == q.len() {
        let d = q.drop_last();
        assert forall|i: int, j: int| 0 <= i <= j < d.len() implies d[i].ts_ms <= d[j].ts_ms by {
            assert(d[i] == q[i] && d[j] == q[j]);
        }
        assert forall|j: int| 0 <= j < k - 1 implies (#[trigger] d[j]).ts_ms < cutoff by {
            assert(d[j] == q[j]);
        }
        lemma_filter_suffix(d, cutoff, k - 1);
        assert(d.skip(k - 1) =~= Seq::<LlmLogEntryView>::empty());
        assert(q.skip(k) =~= Seq::<LlmLogEntryView>::empty());
    } else {
        let d = q.drop_last();
        assert(q.last().ts_ms >= q[k].ts_ms);
        assert forall|i: int, j: int| 0 <= i <= j < d.len() implies d[i].ts_ms <= d[j].ts_ms by {
            assert(d[i] == q[i] && d[j] == q[j]);
        }
        assert forall|j: int| 0 <= j < k implies (#[trigger] d[j]).ts_ms < cutoff by {
            assert(d[j] == q[j]);
        }
        if k < d.len() {
            assert(d[k] == q[k]);
        }
        lemma_filter_suffix(d, cutoff, k);
        assert(q.skip(k) =~= d.skip(k).push(q.last()));
    }
}

} // verus!
