use vstd::prelude::*;
use crate::slot::spec_skip_recheck;
use crate::slot::should_skip_recheck;
use crate::timing::LoadBalancerTiming;

verus! {

/// Where one `convert` call stands in its scan/backoff cycle.
#[derive(Clone, Copy, Debug, PartialEq, Eq, Structural)]
pub enum Phase {
    /// The call has not begun scanning.
    Ready,
    /// A non-blocking acquisition of slot `index` is pending.
    Scanning { index: usize },
    /// Slot `index` is held and its backend's busy probe is pending.
    Probing { index: usize },
    /// Slot `index` is held and the conversion itself is in flight.
    Converting { index: usize },
    /// The scan exhausted the pool; the shared pool state is being read.
    Deciding,
    /// A timed poll-sleep is in progress.
    PollSleeping,
    /// A bounded wait on the wake signal is in progress.
    AwaitingWake,
    /// The selected slot's conversion attempt completed; its result is
    /// the call's result.
    Finished,
    /// The pool is empty; the call fails at once.
    Refused,
}

/// What the runtime must do next on behalf of the call.
#[derive(Clone, Copy, Debug, PartialEq, Eq, Structural)]
pub enum Action {
    /// Fail the call: the pool holds no slots.
    ReturnNoServers,
    /// Try to acquire slot `index` without blocking.
    TryAcquire { index: usize },
    /// Ask slot `index`'s backend whether it is externally busy, record
    /// the report on the slot, and release the slot unless it was
    /// selected.
    Probe { index: usize },
    /// Raise the active counter, run the conversion on slot `index`,
    /// lower the counter and fire the wake signal, then release the slot.
    Convert { index: usize },
    /// Run the externally-blocked diagnostic and read the active counter.
    ReadPoolState,
    /// Sleep for `ms` milliseconds; no wake signal can be expected.
    Sleep { ms: u64 },
    /// Wait for the wake signal, giving up after `timeout_ms`
    /// milliseconds.
    AwaitWake { timeout_ms: u64 },
    /// Hand the conversion attempt's own result back to the caller.
    ReturnResult,
}

/// What the runtime observed while carrying out the pending action.
#[derive(Clone, Copy, Debug)]
pub enum Event {
    /// The call begins.
    Begin,
    /// The pending slot was already held by another caller.
    AcquireFailed,
    /// The pending slot was acquired; `busy_since` is its busy mark as
    /// read under the lock and `now` the current instant in
    /// milliseconds.
    Acquired { busy_since: Option<u64>, now: u64 },
    /// The busy probe's report was recorded on the slot; `selected` is
    /// true exactly when the backend was found free.
    ProbeApplied { selected: bool },
    /// The conversion call on the selected slot returned, successfully
    /// or not.
    ConversionFinished,
    /// The diagnostic and the counter were read.
    PoolState { externally_blocked: bool, active: usize },
    /// The sleep or the bounded wait elapsed.
    WaitElapsed,
}

/// The decision engine of one `convert` call against a fixed pool.
///
/// The engine never touches a lock, a clock or a backend itself: it is
/// stepped with what the runtime observed and answers with the one action
/// to carry out next, repeating the scan until a slot's conversion
/// attempt completes or the pool turns out to be empty.
#[derive(Clone, Copy, Debug)]
pub struct BalancerCore {
    /// Number of slots in the pool; fixed at construction.
    pub pool_len: usize,
    /// The timing configuration; fixed at construction.
    pub timing: LoadBalancerTiming,
    /// Where the call stands.
    pub phase: Phase,
}

impl BalancerCore {
    /// The slot whose lock the call is holding, if any.  A lock is held
    /// exactly while a probe or a conversion is pending on the slot, and
    /// there is never more than one.
    pub open spec fn holds_lock(self) -> Option<int> {
        match self.phase {
            Phase::Probing { index } => Option::Some(index as int),
            Phase::Converting { index } => Option::Some(index as int),
            _ => Option::None,
        }
    }

    /// Every slot index the engine mentions lies inside the pool, and
    /// the backoff phases are only reachable over a non-empty pool.
    pub open spec fn inv(self) -> bool {
        match self.phase {
            Phase::Ready => true,
            Phase::Scanning { index } => index < self.pool_len,
            Phase::Probing { index } => index < self.pool_len,
            Phase::Converting { index } => index < self.pool_len,
            Phase::Deciding => self.pool_len > 0,
            Phase::PollSleeping => self.pool_len > 0,
            Phase::AwaitingWake => self.pool_len > 0,
            Phase::Finished => true,
            Phase::Refused => self.pool_len == 0,
        }
    }

    /// Which events can answer the pending action of each phase.
    pub open spec fn accepts(self, e: Event) -> bool {
        match self.phase {
            Phase::Ready => e is Begin,
            Phase::Scanning { .. } => e is AcquireFailed || e is Acquired,
            Phase::Probing { .. } => e is ProbeApplied,
            Phase::Converting { .. } => e is ConversionFinished,
            Phase::Deciding => e is PoolState,
            Phase::PollSleeping => e is WaitElapsed,
            Phase::AwaitingWake => e is WaitElapsed,
            Phase::Finished => false,
            Phase::Refused => false,
        }
    }

    /// The scan moves on to slot `index`, or, past the last slot, to the
    /// decision between the two backoff modes.
    pub open spec fn spec_advance(self, index: int) -> (BalancerCore, Action) {
        if index < self.pool_len {
            (
                BalancerCore { phase: Phase::Scanning { index: index as usize }, ..self },
                Action::TryAcquire { index: index as usize },
            )
        } else {
            (BalancerCore { phase: Phase::Deciding, ..self }, Action::ReadPoolState)
        }
    }

    /// The transition relation of the engine: from a state and the event
    /// answering its pending action to the next state and action.
    ///
    /// - An empty pool refuses the call outright.
    /// - A contended slot is skipped without waiting.
    /// - An acquired slot marked busy less than `retry_busy_check_after`
    ///   milliseconds ago is released and skipped while the pool offers
    ///   an alternative; otherwise its backend is probed.
    /// - A probe that found the backend free selects the slot for the
    ///   conversion; any other report leaves the slot marked busy and the
    ///   scan moves on.
    /// - An exhausted scan reads the pool state, then sleeps for
    ///   `retry_single_external` milliseconds when the pool is externally
    ///   blocked or nothing is in flight (no wake would ever come), and
    ///   otherwise waits on the wake signal for at most `notify_timeout`
    ///   milliseconds; either way the scan then restarts at slot 0.
    pub open spec fn spec_step(self, e: Event) -> (BalancerCore, Action) {
        match (self.phase, e) {
            (Phase::Ready, Event::Begin) => {
                if self.pool_len == 0 {
                    (BalancerCore { phase: Phase::Refused, ..self }, Action::ReturnNoServers)
                } else {
                    self.spec_advance(0)
                }
            },
            (Phase::Scanning { index }, Event::AcquireFailed) => self.spec_advance(index + 1),
            (Phase::Scanning { index }, Event::Acquired { busy_since, now }) => {
                if spec_skip_recheck(
                    busy_since,
                    now,
                    self.timing.retry_busy_check_after,
                    self.pool_len as int,
                ) {
                    self.spec_advance(index + 1)
                } else {
                    (
                        BalancerCore { phase: Phase::Probing { index }, ..self },
                        Action::Probe { index },
                    )
                }
            },
            (Phase::Probing { index }, Event::ProbeApplied { selected }) => {
                if selected {
                    (
                        BalancerCore { phase: Phase::Converting { index }, ..self },
                        Action::Convert { index },
                    )
                } else {
                    self.spec_advance(index + 1)
                }
            },
            (Phase::Converting { .. }, Event::ConversionFinished) => {
                (BalancerCore { phase: Phase::Finished, ..self }, Action::ReturnResult)
            },
            (Phase::Deciding, Event::PoolState { externally_blocked, active }) => {
                if externally_blocked || active == 0 {
                    (
                        BalancerCore { phase: Phase::PollSleeping, ..self },
                        Action::Sleep { ms: self.timing.retry_single_external },
                    )
                } else {
                    (
                        BalancerCore { phase: Phase::AwaitingWake, ..self },
                        Action::AwaitWake { timeout_ms: self.timing.notify_timeout },
                    )
                }
            },
            (Phase::PollSleeping, Event::WaitElapsed) => self.spec_advance(0),
            (Phase::AwaitingWake, Event::WaitElapsed) => self.spec_advance(0),
            // No event outside `accepts` answers a pending action, and
            // `step` is only ever fed accepted events.
            _ => (self, Action::ReturnNoServers),
        }
    }

    /// A new engine for a pool of `pool_len` slots under `timing`.
    pub fn new(pool_len: usize, timing: LoadBalancerTiming) -> (m: Self)
        ensures
            m.pool_len == pool_len,
            m.timing == timing,
            m.phase is Ready,
            m.inv(),
    {
        BalancerCore { pool_len, timing, phase: Phase::Ready }
    }

    /// Whether `e` can answer the pending action in the current phase.
    pub fn can_accept(&self, e: &Event) -> (r: bool)
        ensures
            r == self.accepts(*e),
    {
        match (self.phase, e) {
            (Phase::Ready, Event::Begin) => true,
            (Phase::Scanning { .. }, Event::AcquireFailed) => true,
            (Phase::Scanning { .. }, Event::Acquired { .. }) => true,
            (Phase::Probing { .. }, Event::ProbeApplied { .. }) => true,
            (Phase::Converting { .. }, Event::ConversionFinished) => true,
            (Phase::Deciding, Event::PoolState { .. }) => true,
            (Phase::PollSleeping, Event::WaitElapsed) => true,
            (Phase::AwaitingWake, Event::WaitElapsed) => true,
            _ => false,
        }
    }

    /// Moves the scan to slot `index`, or to the backoff decision once
    /// the pool is exhausted.
    fn advance(&mut self, index: usize) -> (a: Action)
        requires
            index <= old(self).pool_len,
        ensures
            (*final(self), a) == old(self).spec_advance(index as int),
    {
        if index < self.pool_len {
            self.phase = Phase::Scanning { index };
            Action::TryAcquire { index }
        } else {
            self.phase = Phase::Deciding;
            Action::ReadPoolState
        }
    }

    /// Feeds the engine the event answering its pending action and
    /// returns the next action to carry out, exactly as `spec_step`
    /// prescribes.
    pub fn step(&mut self, event: Event) -> (a: Action)
        requires
            old(self).inv(),
            old(self).accepts(event),
        ensures
            (*final(self), a) == old(self).spec_step(event),
            final(self).inv(),
    {
        match (self.phase, event) {
            (Phase::Ready, Event::Begin) => {
                if self.pool_len == 0 {
                    self.phase = Phase::Refused;
                    Action::ReturnNoServers
                } else {
                    self.advance(0)
                }
            },
            (Phase::Scanning { index }, Event::AcquireFailed) => self.advance(index + 1),
            (Phase::Scanning { index }, Event::Acquired { busy_since, now }) => {
                if should_skip_recheck(
                    busy_since,
                    now,
                    self.timing.retry_busy_check_after,
                    self.pool_len,
                ) {
                    self.advance(index + 1)
                } else {
                    self.phase = Phase::Probing { index };
                    Action::Probe { index }
                }
            },
            (Phase::Probing { index }, Event::ProbeApplied { selected }) => {
                if selected {
                    self.phase = Phase::Converting { index };
                    Action::Convert { index }
                } else {
                    self.advance(index + 1)
                }
            },
            (Phase::Converting { .. }, Event::ConversionFinished) => {
                self.phase = Phase::Finished;
                Action::ReturnResult
            },
            (Phase::Deciding, Event::PoolState { externally_blocked, active }) => {
                if externally_blocked || active == 0 {
                    self.phase = Phase::PollSleeping;
                    Action::Sleep { ms: self.timing.retry_single_external }
                } else {
                    self.phase = Phase::AwaitingWake;
                    Action::AwaitWake { timeout_ms: self.timing.notify_timeout }
                }
            },
            (Phase::PollSleeping, Event::WaitElapsed) => self.advance(0),
            (Phase::AwaitingWake, Event::WaitElapsed) => self.advance(0),
            // Excluded by the precondition; mirrors `spec_step`.
            _ => Action::ReturnNoServers,
        }
    }
}

/// Lock discipline of one call: a probe or a conversion is commanded only
/// on the slot whose lock the call then holds, a fresh acquisition is
/// attempted only while no lock is held, and the backoff phases hold no
/// lock — so a call works with at most one slot at any point, and two
/// conversions can share a slot only if the runtime's locks fail.
pub proof fn lemma_lock_discipline(s: BalancerCore, e: Event)
    requires
        s.inv(),
        s.accepts(e),
    ensures
        ({
            let (s2, a) = s.spec_step(e);
            &&& (a matches Action::Convert { index } ==> s.holds_lock() == Option::Some(
                index as int,
            ) && s2.holds_lock() == Option::Some(index as int))
            &&& (a matches Action::Probe { index } ==> s2.holds_lock() == Option::Some(
                index as int,
            ))
            &&& (a matches Action::TryAcquire { .. } ==> s2.holds_lock() is None)
            &&& (a is Sleep || a is AwaitWake || a is ReadPoolState ==> s2.holds_lock() is None)
        }),
{
}

/// An empty pool refuses the call at its very first step: the one action
/// ever commanded is the `NoServers` failure, with no acquisition, sleep
/// or wait on the way.
pub proof fn lemma_empty_pool_refuses(s: BalancerCore)
    requires
        s.inv(),
        s.phase is Ready,
        s.pool_len == 0,
    ensures
        s.spec_step(Event::Begin).1 == Action::ReturnNoServers,
        s.spec_step(Event::Begin).0.phase is Refused,
{
}

/// One scan pass never revisits a slot: a contended slot, a skipped
/// recently-busy slot and a busy probe report all move the scan to the
/// next higher index, or to the backoff decision past the last slot.
pub proof fn lemma_scan_advances(s: BalancerCore, e: Event, index: usize)
    requires
        s.inv(),
        s.accepts(e),
        s.phase == (Phase::Scanning { index }) || s.phase == (Phase::Probing { index }),
    ensures
        ({
            let (s2, a) = s.spec_step(e);
            &&& (s2.phase matches Phase::Scanning { index: j } ==> j == index + 1)
            &&& (s2.phase matches Phase::Probing { index: j } ==> j == index)
            &&& (s2.phase matches Phase::Converting { index: j } ==> j == index)
        }),
{
}

/// A call that reaches a free slot completes without any backoff: once
/// the slot at `index` is acquired and the recheck skip does not apply,
/// the engine commands the probe, then — the backend having been found
/// free — the conversion, then the return of its result, and finishes.
pub proof fn lemma_free_slot_completes(
    s: BalancerCore,
    index: usize,
    busy_since: Option<u64>,
    now: u64,
)
    requires
        s.inv(),
        s.phase == (Phase::Scanning { index }),
        !spec_skip_recheck(busy_since, now, s.timing.retry_busy_check_after, s.pool_len as int),
    ensures
        ({
            let (s1, a1) = s.spec_step(Event::Acquired { busy_since, now });
            let (s2, a2) = s1.spec_step(Event::ProbeApplied { selected: true });
            let (s3, a3) = s2.spec_step(Event::ConversionFinished);
            &&& a1 == (Action::Probe { index })
            &&& a2 == (Action::Convert { index })
            &&& a3 == Action::ReturnResult
            &&& s3.phase is Finished
        }),
{
}

/// Neither backoff is final: when the poll-sleep or the bounded wait
/// elapses — whether or not the wake signal ever fired — the engine
/// restarts the scan at the first slot, so a missed wake delays a call by
/// at most `notify_timeout` milliseconds.
pub proof fn lemma_backoff_rescans(s: BalancerCore)
    requires
        s.inv(),
        s.phase is PollSleeping || s.phase is AwaitingWake,
    ensures
        s.spec_step(Event::WaitElapsed).0.phase == (Phase::Scanning { index: 0 }),
        s.spec_step(Event::WaitElapsed).1 == (Action::TryAcquire { index: 0 }),
{
}

/// With a single slot the recheck skip never applies: every pass that
/// acquires that slot re-probes its backend's busy state, however
/// recently the backend was seen busy.
pub proof fn lemma_single_slot_always_probes(s: BalancerCore, busy_since: Option<u64>, now: u64)
    requires
        s.inv(),
        s.pool_len == 1,
        s.phase == (Phase::Scanning { index: 0 }),
    ensures
        s.spec_step(Event::Acquired { busy_since, now }).1 == (Action::Probe { index: 0 }),
        s.spec_step(Event::Acquired { busy_since, now }).0.phase == (Phase::Probing { index: 0 }),
{
}

/// How much work the current scan pass can still take: positive while
/// the call is scanning, probing or converting, zero once the pass has
/// ended in a result or given way to the backoff decision.
pub open spec fn pass_measure(s: BalancerCore) -> int {
    match s.phase {
        Phase::Scanning { index } => 2 * (s.pool_len - index) + 2,
        Phase::Probing { index } => 2 * (s.pool_len - index) + 1,
        Phase::Converting { .. } => 1,
        _ => 0,
    }
}

/// No pass polls unboundedly: every event answering a scanning, probing
/// or converting phase strictly shrinks the pass measure, so after at
/// most a number of steps linear in the pool's size a pass has either
/// returned a conversion's result or handed over to the backoff
/// decision.
pub proof fn lemma_pass_terminates(s: BalancerCore, e: Event)
    requires
        s.inv(),
        s.accepts(e),
        pass_measure(s) > 0,
    ensures
        pass_measure(s.spec_step(e).0) < pass_measure(s),
{
}

/// A conversion is commanded only as the immediate consequence of a probe
/// report that found the backend free — the very recording that cleared
/// the slot's busy mark — so a slot enters its conversion with
/// `busy_since` unset.
pub proof fn lemma_convert_only_when_selected(s: BalancerCore, e: Event)
    requires
        s.inv(),
        s.accepts(e),
    ensures
        ({
            let (s2, a) = s.spec_step(e);
            a is Convert ==> s.phase is Probing && e == (Event::ProbeApplied { selected: true })
        }),
{
}

/// The choice between the two backoffs, after an exhausted scan: the
/// timed poll-sleep is taken exactly when the pool is externally blocked
/// or no conversion is in flight anywhere — then the wake signal would
/// never fire — and the bounded wait on the wake signal exactly
/// otherwise.
pub proof fn lemma_backoff_choice(s: BalancerCore, externally_blocked: bool, active: usize)
    requires
        s.inv(),
        s.phase is Deciding,
    ensures
        ({
            let (s2, a) = s.spec_step(Event::PoolState { externally_blocked, active });
            &&& ((externally_blocked || active == 0) <==> a == (Action::Sleep {
                ms: s.timing.retry_single_external,
            }))
            &&& (!(externally_blocked || active == 0) <==> a == (Action::AwaitWake {
                timeout_ms: s.timing.notify_timeout,
            }))
            &&& (a is Sleep || a is AwaitWake)
        }),
{
}

} // verus!
