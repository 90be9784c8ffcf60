use office_balancer::balancer::{Action, BalancerCore, Event, Phase};
use office_balancer::slot::{apply_probe_report, ProbeReport, SlotState};
use office_balancer::timing::LoadBalancerTiming;

fn engine(pool_len: usize) -> BalancerCore {
    BalancerCore::new(pool_len, LoadBalancerTiming::default())
}

#[test]
fn empty_pool_refuses_at_once() {
    let mut m = engine(0);
    let a = m.step(Event::Begin);
    assert_eq!(a, Action::ReturnNoServers);
    assert_eq!(m.phase, Phase::Refused);
}

#[test]
fn one_busy_one_free_completes_in_a_single_pass() {
    // Pool [A, B]: A's backend reports busy, B's reports free.  The call
    // must finish on B within one scan, commanding no sleep and no wait.
    let mut a_slot = SlotState::new();
    let mut b_slot = SlotState::new();
    let mut m = engine(2);

    assert_eq!(m.step(Event::Begin), Action::TryAcquire { index: 0 });
    assert_eq!(
        m.step(Event::Acquired { busy_since: a_slot.busy_since, now: 10_000 }),
        Action::Probe { index: 0 }
    );
    let selected = apply_probe_report(&mut a_slot, ProbeReport::Busy, 10_000);
    assert_eq!(m.step(Event::ProbeApplied { selected }), Action::TryAcquire { index: 1 });
    assert_eq!(a_slot.busy_since, Some(10_000));

    assert_eq!(
        m.step(Event::Acquired { busy_since: b_slot.busy_since, now: 10_001 }),
        Action::Probe { index: 1 }
    );
    let selected = apply_probe_report(&mut b_slot, ProbeReport::Free, 10_001);
    assert_eq!(m.step(Event::ProbeApplied { selected }), Action::Convert { index: 1 });
    assert_eq!(b_slot.busy_since, None);
    assert_eq!(m.step(Event::ConversionFinished), Action::ReturnResult);
    assert_eq!(m.phase, Phase::Finished);
}

#[test]
fn single_slot_reprobes_every_pass_until_free() {
    // Pool [A] with A externally busy: the recheck skip never applies, so
    // every pass probes A again; once A turns free the call completes.
    let mut slot = SlotState::new();
    let mut m = engine(1);

    assert_eq!(m.step(Event::Begin), Action::TryAcquire { index: 0 });

    // First pass: probed despite being freshly marked busy afterwards.
    assert_eq!(
        m.step(Event::Acquired { busy_since: slot.busy_since, now: 1_000 }),
        Action::Probe { index: 0 }
    );
    let selected = apply_probe_report(&mut slot, ProbeReport::Busy, 1_000);
    assert!(!selected);
    assert_eq!(m.step(Event::ProbeApplied { selected }), Action::ReadPoolState);
    assert_eq!(
        m.step(Event::PoolState { externally_blocked: true, active: 0 }),
        Action::Sleep { ms: 1000 }
    );
    assert_eq!(m.step(Event::WaitElapsed), Action::TryAcquire { index: 0 });

    // Second pass, a moment later: the mark is fresh, yet the single
    // slot is probed again rather than skipped.
    assert_eq!(
        m.step(Event::Acquired { busy_since: slot.busy_since, now: 2_000 }),
        Action::Probe { index: 0 }
    );
    let selected = apply_probe_report(&mut slot, ProbeReport::Busy, 2_000);
    assert_eq!(m.step(Event::ProbeApplied { selected }), Action::ReadPoolState);
    assert_eq!(
        m.step(Event::PoolState { externally_blocked: true, active: 0 }),
        Action::Sleep { ms: 1000 }
    );
    assert_eq!(m.step(Event::WaitElapsed), Action::TryAcquire { index: 0 });

    // Third pass: the backend has turned free.
    assert_eq!(
        m.step(Event::Acquired { busy_since: slot.busy_since, now: 3_000 }),
        Action::Probe { index: 0 }
    );
    let selected = apply_probe_report(&mut slot, ProbeReport::Free, 3_000);
    assert_eq!(m.step(Event::ProbeApplied { selected }), Action::Convert { index: 0 });
    assert_eq!(m.step(Event::ConversionFinished), Action::ReturnResult);
}

#[test]
fn contended_pool_waits_on_wake_signal_then_succeeds() {
    // Pool [A, B], both locked by other in-flight calls and neither
    // externally busy: the new caller exhausts the scan, sees an active
    // count above zero, waits on the wake signal, and succeeds on the
    // rescan once a holder has finished.
    let mut m = engine(2);

    assert_eq!(m.step(Event::Begin), Action::TryAcquire { index: 0 });
    assert_eq!(m.step(Event::AcquireFailed), Action::TryAcquire { index: 1 });
    assert_eq!(m.step(Event::AcquireFailed), Action::ReadPoolState);
    assert_eq!(
        m.step(Event::PoolState { externally_blocked: false, active: 2 }),
        Action::AwaitWake { timeout_ms: 120_000 }
    );
    assert_eq!(m.phase, Phase::AwaitingWake);

    // A holder finished and fired the wake signal; slot A is free now.
    let mut a_slot = SlotState::new();
    assert_eq!(m.step(Event::WaitElapsed), Action::TryAcquire { index: 0 });
    assert_eq!(
        m.step(Event::Acquired { busy_since: a_slot.busy_since, now: 50_000 }),
        Action::Probe { index: 0 }
    );
    let selected = apply_probe_report(&mut a_slot, ProbeReport::Free, 50_000);
    assert_eq!(m.step(Event::ProbeApplied { selected }), Action::Convert { index: 0 });
    assert_eq!(m.step(Event::ConversionFinished), Action::ReturnResult);
}

#[test]
fn fully_blocked_pool_poll_sleeps_instead_of_waiting() {
    // Pool [A, B], both externally busy and nothing in flight: a wake
    // would never come, so the caller sleeps for retry_single_external
    // and rescans instead of waiting on the signal.
    let mut m = engine(2);

    assert_eq!(m.step(Event::Begin), Action::TryAcquire { index: 0 });
    // Both slots acquired but freshly marked busy: skipped unprobed.
    assert_eq!(
        m.step(Event::Acquired { busy_since: Some(9_500), now: 10_000 }),
        Action::TryAcquire { index: 1 }
    );
    assert_eq!(
        m.step(Event::Acquired { busy_since: Some(9_600), now: 10_001 }),
        Action::ReadPoolState
    );
    assert_eq!(
        m.step(Event::PoolState { externally_blocked: true, active: 0 }),
        Action::Sleep { ms: 1000 }
    );
    assert_eq!(m.phase, Phase::PollSleeping);
    assert_eq!(m.step(Event::WaitElapsed), Action::TryAcquire { index: 0 });
}

#[test]
fn stale_busy_mark_is_reprobed_even_with_alternatives() {
    // A mark older than retry_busy_check_after no longer causes a skip.
    let mut m = engine(2);
    assert_eq!(m.step(Event::Begin), Action::TryAcquire { index: 0 });
    assert_eq!(
        m.step(Event::Acquired { busy_since: Some(1_000), now: 7_000 }),
        Action::Probe { index: 0 }
    );
}

#[test]
fn can_accept_follows_the_phase() {
    let mut m = engine(1);
    assert!(m.can_accept(&Event::Begin));
    assert!(!m.can_accept(&Event::WaitElapsed));
    m.step(Event::Begin);
    assert!(m.can_accept(&Event::AcquireFailed));
    assert!(m.can_accept(&Event::Acquired { busy_since: None, now: 0 }));
    assert!(!m.can_accept(&Event::Begin));
}
