use vstd::prelude::*;

verus! {

/// Busy bookkeeping of one pool slot.
///
/// A slot pairs a backend handle with the last instant (in milliseconds on
/// the runtime's monotonic clock) at which that backend reported itself
/// busy for reasons outside the balancer's control.  The handle itself
/// lives with the runtime; only the holder of the slot's lock may read or
/// write this record.
#[derive(Clone, Copy, Debug)]
pub struct SlotState {
    /// When the backend was last observed externally busy, if it has not
    /// been found free since.
    pub busy_since: Option<u64>,
}

/// What one busy probe of a backend reported.
#[derive(Clone, Copy, Debug, PartialEq, Eq, Structural)]
pub enum ProbeReport {
    /// The backend answered and is free to take work.
    Free,
    /// The backend answered and is occupied by something outside the
    /// balancer's control.
    Busy,
    /// The probe itself failed; a backend of unknown health never
    /// receives work, so this counts as busy.
    Failed,
}

impl SlotState {
    /// A slot that has never been observed externally busy.
    pub fn new() -> (s: Self)
        ensures
            s.busy_since is None,
    {
        SlotState { busy_since: None }
    }

    /// Whether the slot is currently marked externally busy.
    pub fn is_marked_busy(&self) -> (b: bool)
        ensures
            b == (self.busy_since is Some),
    {
        self.busy_since.is_some()
    }
}

/// Milliseconds elapsed from `earlier` to `now` on a monotonic clock,
/// saturating at zero should the observations be out of order.
pub open spec fn spec_elapsed(now: u64, earlier: u64) -> u64 {
    if now >= earlier {
        (now - earlier) as u64
    } else {
        0
    }
}

/// Whether a scan should pass over a slot without re-probing it: the slot
/// was seen externally busy less than `retry_after` milliseconds ago and
/// the pool offers at least one alternative.  A single-slot pool never
/// skips, so its one backend is re-probed on every pass.
pub open spec fn spec_skip_recheck(
    busy_since: Option<u64>,
    now: u64,
    retry_after: u64,
    pool_len: int,
) -> bool {
    match busy_since {
        Option::Some(t) => pool_len > 1 && spec_elapsed(now, t) < retry_after,
        Option::None => false,
    }
}

/// Decides whether the scan skips this slot instead of probing it again.
pub fn should_skip_recheck(
    busy_since: Option<u64>,
    now: u64,
    retry_after: u64,
    pool_len: usize,
) -> (skip: bool)
    ensures
        skip == spec_skip_recheck(busy_since, now, retry_after, pool_len as int),
{
    match busy_since {
        Option::Some(t) => {
            let elapsed: u64 = if now >= t { now - t } else { 0 };
            pool_len > 1 && elapsed < retry_after
        },
        Option::None => false,
    }
}

/// Records the outcome of a busy probe on the slot, as the probing caller
/// must do while it still holds the slot's lock: a free report clears the
/// busy mark and selects the slot for the conversion, any other report
/// stamps the slot busy as of `now` and passes it over.
pub fn apply_probe_report(slot: &mut SlotState, report: ProbeReport, now: u64) -> (selected: bool)
    ensures
        selected == (report is Free),
        report is Free ==> final(slot).busy_since is None,
        !(report is Free) ==> final(slot).busy_since == Option::<u64>::Some(now),
{
    match report {
        ProbeReport::Free => {
            slot.busy_since = Option::None;
            true
        },
        ProbeReport::Busy | ProbeReport::Failed => {
            slot.busy_since = Option::Some(now);
            false
        },
    }
}

} // verus!
