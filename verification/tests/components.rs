use office_balancer::blocked::{BlockedObservation, BlockedProbe};
use office_balancer::counter::ActiveCounter;
use office_balancer::error::LoadBalanceError;
use office_balancer::slot::{apply_probe_report, should_skip_recheck, ProbeReport, SlotState};
use office_balancer::timing::LoadBalancerTiming;

#[test]
fn default_timing_values() {
    let t = LoadBalancerTiming::default();
    assert_eq!(t.retry_busy_check_after, 5000);
    assert_eq!(t.retry_single_external, 1000);
    assert_eq!(t.notify_timeout, 120000);
}

#[test]
fn no_servers_message() {
    let e = LoadBalanceError::NoServers;
    assert_eq!(e.message(), "no servers available for load balancing");
}

#[test]
fn counter_round_trip_restores_value() {
    let mut c = ActiveCounter::new();
    assert_eq!(c.get(), 0);
    c.increment();
    let before = c.get();
    c.increment();
    assert_eq!(c.get(), before + 1);
    c.decrement();
    assert_eq!(c.get(), before);
}

#[test]
fn free_probe_clears_busy_mark_and_selects() {
    let mut slot = SlotState { busy_since: Some(400) };
    let selected = apply_probe_report(&mut slot, ProbeReport::Free, 900);
    assert!(selected);
    assert_eq!(slot.busy_since, None);
    assert!(!slot.is_marked_busy());
}

#[test]
fn busy_probe_stamps_slot_and_skips() {
    let mut slot = SlotState::new();
    let selected = apply_probe_report(&mut slot, ProbeReport::Busy, 250);
    assert!(!selected);
    assert_eq!(slot.busy_since, Some(250));
    assert!(slot.is_marked_busy());
}

#[test]
fn failed_probe_counts_as_busy() {
    let mut slot = SlotState::new();
    let selected = apply_probe_report(&mut slot, ProbeReport::Failed, 777);
    assert!(!selected);
    assert_eq!(slot.busy_since, Some(777));
}

#[test]
fn recheck_skip_needs_recent_mark_and_alternatives() {
    // Recently marked busy, several slots: skip.
    assert!(should_skip_recheck(Some(1000), 2000, 5000, 2));
    // Mark old enough: probe again.
    assert!(!should_skip_recheck(Some(1000), 6000, 5000, 2));
    // No mark at all: probe.
    assert!(!should_skip_recheck(None, 2000, 5000, 2));
    // Single slot: never skip, however fresh the mark.
    assert!(!should_skip_recheck(Some(1000), 1001, 5000, 1));
    // Observations out of order saturate to an elapsed time of zero.
    assert!(should_skip_recheck(Some(5000), 4000, 5000, 2));
}

#[test]
fn blocked_probe_true_when_every_slot_marked_busy() {
    let mut p = BlockedProbe::new(3);
    assert_eq!(p.blocked_verdict(), None);
    assert_eq!(p.next_slot(), Some(0));
    p.observe(BlockedObservation::FoundBusy);
    assert_eq!(p.next_slot(), Some(1));
    p.observe(BlockedObservation::FoundBusy);
    assert_eq!(p.next_slot(), Some(2));
    p.observe(BlockedObservation::FoundBusy);
    assert_eq!(p.next_slot(), None);
    assert_eq!(p.blocked_verdict(), Some(true));
}

#[test]
fn blocked_probe_false_the_moment_a_slot_is_contended() {
    let mut p = BlockedProbe::new(3);
    p.observe(BlockedObservation::FoundBusy);
    p.observe(BlockedObservation::Contended);
    assert_eq!(p.next_slot(), None);
    assert_eq!(p.blocked_verdict(), Some(false));
}

#[test]
fn blocked_probe_false_the_moment_a_slot_is_found_free() {
    let mut p = BlockedProbe::new(2);
    p.observe(BlockedObservation::FoundFree);
    assert_eq!(p.next_slot(), None);
    assert_eq!(p.blocked_verdict(), Some(false));
}

#[test]
fn blocked_probe_empty_pool_is_vacuously_blocked() {
    let p = BlockedProbe::new(0);
    assert_eq!(p.next_slot(), None);
    assert_eq!(p.blocked_verdict(), Some(true));
}
