use vstd::prelude::*;

verus! {

/// The capacity offered on the first call of the negotiation, in output
/// units.
pub const INITIAL_CAPACITY: u32 = 512;

/// What one module-query call decides, as a function of the capacity that
/// was offered and the length the call returned.
#[derive(Clone, Copy, Debug, PartialEq, Eq)]
pub enum NegotiationStep {
    /// The call returned zero: failure, report the OS's last error. Paths
    /// cannot be empty, so zero never means an empty result here.
    Failed,
    /// The call returned a nonzero length strictly below the offered
    /// capacity: the buffer holds the whole path, cut it to `len` and stop.
    Done { len: u32 },
    /// The call returned a length at or above the offered capacity: the
    /// result was truncated. Retry with twice the capacity.
    Retry { next_cap: u32 },
    /// The result was truncated but the capacity cannot double again within
    /// the machine's word: give up rather than wrap around.
    CapacityExhausted,
}

/// How one round of the length negotiation is decided: `cap` is the capacity
/// the buffer was allocated with and passed to the OS, `ret` the value the
/// OS call returned.
pub open spec fn step_decision(cap: int, ret: int) -> NegotiationStep {
    if ret == 0 {
        NegotiationStep::Failed
    } else if ret < cap {
        NegotiationStep::Done { len: ret as u32 }
    } else if cap <= 0x7fff_ffff {
        NegotiationStep::Retry { next_cap: (2 * cap) as u32 }
    } else {
        NegotiationStep::CapacityExhausted
    }
}

/// Decide one round of the length negotiation. The platform layer calls the
/// OS with a buffer of capacity `cap`, hands the returned length in as
/// `ret`, and acts on the decision: stop, report failure, or reallocate at
/// `next_cap` and ask again.
pub fn negotiate_step(cap: u32, ret: u32) -> (s: NegotiationStep)
    ensures
        s == step_decision(cap as int, ret as int),
{
    if ret == 0 {
        NegotiationStep::Failed
    } else if ret < cap {
        NegotiationStep::Done { len: ret }
    } else if cap <= 0x7fff_ffff {
        NegotiationStep::Retry { next_cap: 2 * cap }
    } else {
        NegotiationStep::CapacityExhausted
    }
}

/// How a whole negotiation ends, over a finite sequence of call responses.
#[derive(Clone, Copy, Debug, PartialEq, Eq)]
pub enum NegotiationOutcome {
    /// Some call reported a nonzero length below its capacity: success, with
    /// the exact reported length, after `calls` calls in all.
    Completed { calls: usize, len: u32 },
    /// Some call returned zero: failure, after `calls` calls in all.
    Failed { calls: usize },
    /// Every response given demanded a retry and the sequence ran dry after
    /// `calls` calls.
    ResponsesExhausted { calls: usize },
    /// A retry was demanded at a capacity that cannot double again within
    /// the machine's word; the negotiation gave up after `calls` calls.
    CapacityExhausted { calls: usize },
}

/// Where a negotiation that has already made `i` calls and now offers
/// capacity `cap` ends, when the OS's successive answers are `responses[i]`,
/// `responses[i + 1]`, and so on.
pub open spec fn negotiation_from(responses: Seq<u32>, i: int, cap: int) -> NegotiationOutcome
    decreases responses.len() - i,
{
    if i < 0 || i >= responses.len() {
        NegotiationOutcome::ResponsesExhausted { calls: if i < 0 { 0 } else { i as usize } }
    } else {
        match step_decision(cap, responses[i] as int) {
            NegotiationStep::Failed => NegotiationOutcome::Failed { calls: (i + 1) as usize },
            NegotiationStep::Done { len } => NegotiationOutcome::Completed {
                calls: (i + 1) as usize,
                len,
            },
            NegotiationStep::Retry { next_cap } => negotiation_from(
                responses,
                i + 1,
                next_cap as int,
            ),
            NegotiationStep::CapacityExhausted => NegotiationOutcome::CapacityExhausted {
                calls: (i + 1) as usize,
            },
        }
    }
}

/// Where a fresh negotiation ends over the given responses: first call at
/// the initial capacity, doubling on every truncated answer.
pub open spec fn negotiation_outcome(responses: Seq<u32>) -> NegotiationOutcome {
    negotiation_from(responses, 0, INITIAL_CAPACITY as int)
}

/// Run the length negotiation against a given sequence of call responses,
/// one response consumed per call made. No partial result exists: the
/// outcome is a full success, a reported failure, or an exhausted
/// negotiation.
pub fn negotiate(responses: &Vec<u32>) -> (r: NegotiationOutcome)
    ensures
        r == negotiation_outcome(responses@),
{
    let mut i: usize = 0;
    let mut cap: u32 = INITIAL_CAPACITY;
    loop
        invariant
            0 <= i <= responses@.len(),
            negotiation_outcome(responses@) == negotiation_from(responses@, i as int, cap as int),
        decreases responses@.len() - i,
    {
        if i == responses.len() {
            return NegotiationOutcome::ResponsesExhausted { calls: i };
        }
        let ret = responses[i];
        match negotiate_step(cap, ret) {
            NegotiationStep::Failed => {
                return NegotiationOutcome::Failed { calls: i + 1 };
            },
            NegotiationStep::Done { len } => {
                return NegotiationOutcome::Completed { calls: i + 1, len };
            },
            NegotiationStep::Retry { next_cap } => {
                cap = next_cap;
                i = i + 1;
            },
            NegotiationStep::CapacityExhausted => {
                return NegotiationOutcome::CapacityExhausted { calls: i + 1 };
            },
        }
    }
}

/// The capacity the negotiation offers on its call number `i`, counting from
/// zero: the initial capacity, doubled once per preceding call.
pub open spec fn capacity_on_call(i: int) -> int
    decreases i,
{
    if i <= 0 {
        INITIAL_CAPACITY as int
    } else {
        2 * capacity_on_call(i - 1)
    }
}

proof fn lemma_capacity_at_least_initial(i: int)
    requires
        0 <= i,
    ensures
        INITIAL_CAPACITY as int <= capacity_on_call(i),
    decreases i,
{
    if i > 0 {
        lemma_capacity_at_least_initial(i - 1);
        assert(capacity_on_call(i) == 2 * capacity_on_call(i - 1));
    }
}

proof fn lemma_capacity_monotone(i: int, j: int)
    requires
        0 <= i <= j,
    ensures
        capacity_on_call(i) <= capacity_on_call(j),
    decreases j - i,
{
    if i < j {
        lemma_capacity_monotone(i, j - 1);
        lemma_capacity_at_least_initial(j - 1);
        assert(capacity_on_call(j) == 2 * capacity_on_call(j - 1));
    }
}

proof fn lemma_capacity_ceiling()
    ensures
        capacity_on_call(21) == 0x4000_0000,
{
    reveal_with_fuel(capacity_on_call, 22);
}

proof fn lemma_negotiation_run(responses: Seq<u32>, n: int, i: int)
    requires
        0 <= i <= n < responses.len(),
        n <= 22,
        forall|j: int| 0 <= j < n ==> responses[j] >= capacity_on_call(j),
        0 < responses[n] < capacity_on_call(n),
    ensures
        negotiation_from(responses, i, capacity_on_call(i)) == (NegotiationOutcome::Completed {
            calls: (n + 1) as usize,
            len: responses[n],
        }),
    decreases n - i,
{
    if i == n {
        assert(step_decision(capacity_on_call(n), responses[n] as int) == (NegotiationStep::Done {
            len: responses[n],
        }));
    } else {
        lemma_capacity_at_least_initial(i);
        lemma_capacity_monotone(i, 21);
        lemma_capacity_ceiling();
        assert(step_decision(capacity_on_call(i), responses[i] as int)
            == (NegotiationStep::Retry { next_cap: (2 * capacity_on_call(i)) as u32 }));
        assert(2 * capacity_on_call(i) == capacity_on_call(i + 1));
        lemma_negotiation_run(responses, n, i + 1);
    }
}

/// Law: if the first `n` responses each report truncation — a length at or
/// above the capacity offered on that call — and response number `n` is a
/// nonzero length below its capacity, then the negotiation makes exactly
/// `n + 1` calls, offering capacity `capacity_on_call(i)` on call `i` (the
/// initial capacity doubled at every retry), and completes with the length
/// the last call reported. The bound on `n` keeps every offered capacity
/// within the machine's word.
pub proof fn lemma_negotiation_doubles_then_completes(responses: Seq<u32>, n: int)
    requires
        0 <= n < responses.len(),
        n <= 22,
        forall|j: int| 0 <= j < n ==> responses[j] >= capacity_on_call(j),
        0 < responses[n] < capacity_on_call(n),
    ensures
        negotiation_outcome(responses) == (NegotiationOutcome::Completed {
            calls: (n + 1) as usize,
            len: responses[n],
        }),
{
    lemma_negotiation_run(responses, n, 0);
}

} // verus!
