//! Clock reading, trace step IDs and the arithmetic of pipeline metrics.

use vstd::prelude::*;
use crate::text::{decimal, push_decimal, push_str};
use crate::types::{DroneStepTiming, ModelStepTiming, PipelineTiming};

verus! {

/// Unix epoch milliseconds (for correlation only; do not subtract across hosts); 0 if
/// the clock is before the epoch. Nothing is stated of the value: it is the clock's.
#[verifier::external_body]
pub fn unix_ms_now() -> u64 {
    std::time::SystemTime::now()
        .duration_since(std::time::UNIX_EPOCH)
        .map(|d| d.as_millis() as u64)
        .unwrap_or(0)
}

/// `{parent}:drone:{index}`.
pub open spec fn step_id(parent: Seq<char>, index: nat) -> Seq<char> {
    parent + ":drone:"@ + decimal(index)
}

/// Child trace ID for one drone step in a multi-step infer sequence.
pub fn drone_step_id(parent_request_id: &str, step_index: usize) -> (r: String)
    ensures
        r@ == step_id(parent_request_id@, step_index as nat),
{
    let mut r = String::new();
    push_str(&mut r, parent_request_id);
    push_str(&mut r, ":drone:");
    push_decimal(&mut r, step_index as u64);
    assert(Seq::<char>::empty() + parent_request_id@ + ":drone:"@ + decimal(step_index as nat)
        =~= step_id(parent_request_id@, step_index as nat));
    r
}

/// `a + b`, or `u64::MAX` when that overflows (as `u64::saturating_add`).
pub open spec fn sat_add(a: int, b: int) -> int {
    if a + b > u64::MAX { u64::MAX as int } else { a + b }
}

/// `a - b`, or 0 when that is negative (as `u64::saturating_sub`).
pub open spec fn sat_sub(a: int, b: int) -> int {
    if a - b < 0 { 0 } else { a - b }
}

pub open spec fn sum_drone_http_ms(s: Seq<DroneStepTiming>) -> nat
    decreases s.len(),
{
    if s.len() == 0 { 0 } else { sum_drone_http_ms(s.drop_last()) + s.last().drone_http_ms as nat }
}

pub open spec fn sum_ack_wait_ms(s: Seq<DroneStepTiming>) -> nat
    decreases s.len(),
{
    if s.len() == 0 {
        0
    } else {
        sum_ack_wait_ms(s.drop_last()) + match s.last().ack_wait_ms { Some(w) => w as nat, None => 0 }
    }
}

pub open spec fn sum_model_ms(s: Seq<ModelStepTiming>) -> nat
    decreases s.len(),
{
    if s.len() == 0 { 0 } else { sum_model_ms(s.drop_last()) + s.last().elapsed_ms as nat }
}

/// The pipeline timing with its per-layer fields filled: the LLM time (HTTP plus
/// parse), the sums of the drone and model steps, and the handler time that the
/// queue wait and those layers leave (saturating both ways).
pub open spec fn finalized(p: PipelineTiming, drone_steps: Seq<DroneStepTiming>, model_steps: Seq<ModelStepTiming>) -> PipelineTiming {
    let llm_ms = sat_add(p.llm_http_ms as int, p.llm_parse_ms as int) as u64;
    let drone_ms = sum_drone_http_ms(drone_steps) as u64;
    let model_ms = sum_model_ms(model_steps) as u64;
    PipelineTiming {
        llm_ms,
        drone_server_ms: drone_ms,
        drone_ack_wait_ms: sum_ack_wait_ms(drone_steps) as u64,
        model_server_ms: model_ms,
        gateway_ms: sat_sub(
            p.handler_total_ms as int,
            sat_add(sat_add(sat_add(p.queue_wait_ms as int, llm_ms as int), drone_ms as int), model_ms as int),
        ) as u64,
        ..p
    }
}

/// Fill denormalized per-layer fields on [`PipelineTiming`] (see [`finalized`]).
pub fn finalize_pipeline_layers(
    pipeline: &mut PipelineTiming,
    drone_steps: &Vec<DroneStepTiming>,
    model_steps: &Vec<ModelStepTiming>,
)
    requires
        sum_drone_http_ms(drone_steps@) <= u64::MAX,
        sum_ack_wait_ms(drone_steps@) <= u64::MAX,
        sum_model_ms(model_steps@) <= u64::MAX,
    ensures
        *final(pipeline) == finalized(*old(pipeline), drone_steps@, model_steps@),
{
    pipeline.llm_ms = pipeline.llm_http_ms.saturating_add(pipeline.llm_parse_ms);
    let mut drone_ms: u64 = 0;
    let mut ack_ms: u64 = 0;
    let mut i: usize = 0;
    while i < drone_steps.len()
        invariant
            i <= drone_steps@.len(),
            sum_drone_http_ms(drone_steps@) <= u64::MAX,
            sum_ack_wait_ms(drone_steps@) <= u64::MAX,
            drone_ms == sum_drone_http_ms(drone_steps@.take(i as int)),
            ack_ms == sum_ack_wait_ms(drone_steps@.take(i as int)),
        decreases drone_steps@.len() - i,
    {
        assert(drone_steps@.take(i + 1).drop_last() =~= drone_steps@.take(i as int));
        proof {
            lemma_sum_drone_prefix(drone_steps@, i + 1);
        }
        drone_ms = drone_ms + drone_steps[i].drone_http_ms;
        match drone_steps[i].ack_wait_ms {
            Some(w) => {
                ack_ms = ack_ms + w;
            },
            None => {},
        }
        i = i + 1;
    }
    assert(drone_steps@.take(drone_steps@.len() as int) =~= drone_steps@);
    let mut model_ms: u64 = 0;
    let mut k: usize = 0;
    while k < model_steps.len()
        invariant
            k <= model_steps@.len(),
            sum_model_ms(model_steps@) <= u64::MAX,
            model_ms == sum_model_ms(model_steps@.take(k as int)),
        decreases model_steps@.len() - k,
    {
        assert(model_steps@.take(k + 1).drop_last() =~= model_steps@.take(k as int));
        proof {
            lemma_sum_model_prefix(model_steps@, k + 1);
        }
        model_ms = model_ms + model_steps[k].elapsed_ms;
        k = k + 1;
    }
    assert(model_steps@.take(model_steps@.len() as int) =~= model_steps@);
    pipeline.drone_server_ms = drone_ms;
    pipeline.drone_ack_wait_ms = ack_ms;
    pipeline.model_server_ms = model_ms;
    let accounted = pipeline.queue_wait_ms
        .saturating_add(pipeline.llm_ms)
        .saturating_add(pipeline.drone_server_ms)
        .saturating_add(pipeline.model_server_ms);
    pipeline.gateway_ms = pipeline.handler_total_ms.saturating_sub(accounted);
}

/// Whether the step sums that [`finalize_pipeline_layers`] adds up fit in a `u64`.
pub fn sum_fits(drone_steps: &Vec<DroneStepTiming>, model_steps: &Vec<ModelStepTiming>) -> (r: bool)
    ensures
        r == (sum_drone_http_ms(drone_steps@) <= u64::MAX && sum_ack_wait_ms(drone_steps@) <= u64::MAX
            && sum_model_ms(model_steps@) <= u64::MAX),
{
    let mut drone_ms: u64 = 0;
    let mut ack_ms: u64 = 0;
    let mut i: usize = 0;
    while i < drone_steps.len()
        invariant
            i <= drone_steps@.len(),
            drone_ms == sum_drone_http_ms(drone_steps@.take(i as int)),
            ack_ms == sum_ack_wait_ms(drone_steps@.take(i as int)),
        decreases drone_steps@.len() - i,
    {
        assert(drone_steps@.take(i + 1).drop_last() =~= drone_steps@.take(i as int));
        proof { lemma_sum_drone_prefix(drone_steps@, i + 1); }
        match drone_ms.checked_add(drone_steps[i].drone_http_ms) {
            Some(x) => { drone_ms = x; },
            None => { return false; },
        }
        match drone_steps[i].ack_wait_ms {
            Some(w) => match ack_ms.checked_add(w) {
                Some(x) => { ack_ms = x; },
                None => { return false; },
            },
            None => {},
        }
        i = i + 1;
    }
    assert(drone_steps@.take(drone_steps@.len() as int) =~= drone_steps@);
    let mut model_ms: u64 = 0;
    let mut k: usize = 0;
    while k < model_steps.len()
        invariant
            k <= model_steps@.len(),
            model_ms == sum_model_ms(model_steps@.take(k as int)),
        decreases model_steps@.len() - k,
    {
        assert(model_steps@.take(k + 1).drop_last() =~= model_steps@.take(k as int));
        proof { lemma_sum_model_prefix(model_steps@, k + 1); }
        match model_ms.checked_add(model_steps[k].elapsed_ms) {
            Some(x) => { model_ms = x; },
            None => { return false; },
        }
        k = k + 1;
    }
    assert(model_steps@.take(model_steps@.len() as int) =~= model_steps@);
    true
}

/// The sums over a prefix do not exceed the sums over the whole.
pub proof fn lemma_sum_drone_prefix(s: Seq<DroneStepTiming>, k: int)
    requires
        0 <= k <= s.len(),
    ensures
        sum_drone_http_ms(s.take(k)) <= sum_drone_http_ms(s),
        sum_ack_wait_ms(s.take(k)) <= sum_ack_wait_ms(s),
    decreases s.len(),
{
    if k < s.len() {
        assert(s.drop_last().take(k) =~= s.take(k));
        lemma_sum_drone_prefix(s.drop_last(), k);
    } else {
        assert(s.take(k) =~= s);
    }
}

pub proof fn lemma_sum_model_prefix(s: Seq<ModelStepTiming>, k: int)
    requires
        0 <= k <= s.len(),
    ensures
        sum_model_ms(s.take(k)) <= sum_model_ms(s),
    decreases s.len(),
{
    if k < s.len() {
        assert(s.drop_last().take(k) =~= s.take(k));
        lemma_sum_model_prefix(s.drop_last(), k);
    } else {
        assert(s.take(k) =~= s);
    }
}

/// When the queue wait and the layers fit in the handler total, the layers
/// account for it exactly: queue wait + LLM + drone server + model server +
/// gateway = handler total.
pub proof fn law_layers_account_for_total(p: PipelineTiming, drone_steps: Seq<DroneStepTiming>, model_steps: Seq<ModelStepTiming>)
    requires
        p.queue_wait_ms + p.llm_http_ms + p.llm_parse_ms + sum_drone_http_ms(drone_steps)
            + sum_model_ms(model_steps) <= p.handler_total_ms,
    ensures
        ({
            let f = finalized(p, drone_steps, model_steps);
            f.queue_wait_ms + f.llm_ms + f.drone_server_ms + f.model_server_ms + f.gateway_ms == f.handler_total_ms
        }),
{
}


/// Each per-layer step total is additive over the steps: the total over two lists
/// of steps one after the other is the sum of their totals, and one step counts
/// its own time (a drone step without an ACK wait counts 0 for that layer).
pub proof fn law_step_totals_additive(
    a: Seq<DroneStepTiming>,
    b: Seq<DroneStepTiming>,
    ma: Seq<ModelStepTiming>,
    mb: Seq<ModelStepTiming>,
    d: DroneStepTiming,
    m: ModelStepTiming,
)
    ensures
        sum_drone_http_ms(a + b) == sum_drone_http_ms(a) + sum_drone_http_ms(b),
        sum_ack_wait_ms(a + b) == sum_ack_wait_ms(a) + sum_ack_wait_ms(b),
        sum_model_ms(ma + mb) == sum_model_ms(ma) + sum_model_ms(mb),
        sum_drone_http_ms(seq![d]) == d.drone_http_ms,
        sum_ack_wait_ms(seq![d]) == (match d.ack_wait_ms { Some(w) => w as nat, None => 0 }),
        sum_model_ms(seq![m]) == m.elapsed_ms,
        sum_drone_http_ms(Seq::<DroneStepTiming>::empty()) == 0,
        sum_ack_wait_ms(Seq::<DroneStepTiming>::empty()) == 0,
        sum_model_ms(Seq::<ModelStepTiming>::empty()) == 0,
{
    lemma_drone_sums_concat(a, b);
    lemma_model_sum_concat(ma, mb);
    let one = seq![d];
    assert(one.drop_last() =~= Seq::<DroneStepTiming>::empty());
    assert(one.last() == d);
    assert(sum_drone_http_ms(one.drop_last()) == 0);
    assert(sum_ack_wait_ms(one.drop_last()) == 0);
    let mone = seq![m];
    assert(mone.drop_last() =~= Seq::<ModelStepTiming>::empty());
    assert(mone.last() == m);
    assert(sum_model_ms(mone.drop_last()) == 0);
}

proof fn lemma_drone_sums_concat(a: Seq<DroneStepTiming>, b: Seq<DroneStepTiming>)
    ensures
        sum_drone_http_ms(a + b) == sum_drone_http_ms(a) + sum_drone_http_ms(b),
        sum_ack_wait_ms(a + b) == sum_ack_wait_ms(a) + sum_ack_wait_ms(b),
    decreases b.len(),
{
    if b.len() == 0 {
        assert(a + b =~= a);
    } else {
        lemma_drone_sums_concat(a, b.drop_last());
        assert((a + b).drop_last() =~= a + b.drop_last());
        assert((a + b).last() == b.last());
    }
}

proof fn lemma_model_sum_concat(a: Seq<ModelStepTiming>, b: Seq<ModelStepTiming>)
    ensures
        sum_model_ms(a + b) == sum_model_ms(a) + sum_model_ms(b),
    decreases b.len(),
{
    if b.len() == 0 {
        assert(a + b =~= a);
    } else {
        lemma_model_sum_concat(a, b.drop_last());
        assert((a + b).drop_last() =~= a + b.drop_last());
        assert((a + b).last() == b.last());
    }
}

} // verus!
