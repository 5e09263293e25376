use exec_path::negotiate::{negotiate, negotiate_step, NegotiationOutcome, NegotiationStep};

#[test]
fn step_zero_return_is_failure() {
    assert_eq!(negotiate_step(512, 0), NegotiationStep::Failed);
}

#[test]
fn step_below_capacity_is_done() {
    assert_eq!(negotiate_step(512, 511), NegotiationStep::Done { len: 511 });
}

#[test]
fn step_equal_to_capacity_retries_doubled() {
    assert_eq!(negotiate_step(512, 512), NegotiationStep::Retry { next_cap: 1024 });
}

#[test]
fn step_above_capacity_retries_doubled() {
    assert_eq!(negotiate_step(1024, 4096), NegotiationStep::Retry { next_cap: 2048 });
}

#[test]
fn step_cannot_double_past_word_size() {
    assert_eq!(
        negotiate_step(0x8000_0000, 0x8000_0000),
        NegotiationStep::CapacityExhausted
    );
}

#[test]
fn failure_sentinel_stops_after_one_call() {
    let r = negotiate(&vec![0]);
    assert_eq!(r, NegotiationOutcome::Failed { calls: 1 });
}

#[test]
fn success_on_first_call_makes_one_call() {
    let r = negotiate(&vec![260]);
    assert_eq!(r, NegotiationOutcome::Completed { calls: 1, len: 260 });
}

#[test]
fn two_truncations_then_success_makes_three_calls() {
    // Capacities offered: 512, 1024, 2048.
    let r = negotiate(&vec![512, 1024, 300]);
    assert_eq!(r, NegotiationOutcome::Completed { calls: 3, len: 300 });
}

#[test]
fn truncation_consumes_responses_until_they_run_dry() {
    let r = negotiate(&vec![600]);
    assert_eq!(r, NegotiationOutcome::ResponsesExhausted { calls: 1 });
}

#[test]
fn empty_response_sequence_makes_no_call() {
    let r = negotiate(&Vec::new());
    assert_eq!(r, NegotiationOutcome::ResponsesExhausted { calls: 0 });
}

#[test]
fn failure_after_retries_counts_every_call() {
    let r = negotiate(&vec![512, 0]);
    assert_eq!(r, NegotiationOutcome::Failed { calls: 2 });
}

#[test]
fn capacity_stops_doubling_at_word_ceiling() {
    // Capacities 512 .. 2^31 take 23 calls; the 23rd cannot double again.
    let responses = vec![u32::MAX; 23];
    let r = negotiate(&responses);
    assert_eq!(r, NegotiationOutcome::CapacityExhausted { calls: 23 });
}

#[test]
fn repeated_negotiation_is_stable() {
    let responses = vec![512, 1024, 300];
    let first = negotiate(&responses);
    let second = negotiate(&responses);
    assert_eq!(first, second);
}
