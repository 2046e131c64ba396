//! The monitoring cycle as a state machine. The caller drives it: it asks
//! whether another cycle is due, probes, hands the outcome back for
//! recording, writes the record and sleeps for the probe interval.

use vstd::prelude::*;
use crate::classify::ProbeOutcome;
use crate::record::{Record, render_record};
use crate::settings::Settings;
use crate::timestamp::Timestamp;

verus! {

/// Where the monitor stands.
#[derive(Clone, Copy, Debug, PartialEq, Eq, Structural)]
pub enum Phase {
    /// Loaded, no cycle begun yet.
    Idle,
    /// A cycle has begun; its probe is under way.
    Probing,
    /// The last cycle's record is out; the next cycle may begin.
    Recorded,
    /// No further cycle will run.
    Terminated,
}

/// The cycle counter and phase of one run.
#[derive(Clone, Copy, Debug, PartialEq, Eq, Structural)]
pub struct Monitor {
    /// Cycles to run; `0` runs until cancelled.
    pub probe_count: u64,
    /// Cycles whose record is out (held at `u64::MAX` in an endless run).
    pub completed: u64,
    pub phase: Phase,
}

/// Whether a run that has completed `completed` cycles has another due.
pub open spec fn cycle_due(probe_count: u64, completed: u64) -> bool {
    probe_count == 0 || completed < probe_count
}

/// The monitor of a run that has not begun.
pub open spec fn initial(probe_count: u64) -> Monitor {
    Monitor { probe_count, completed: 0, phase: Phase::Idle }
}

/// Asking for the next cycle, possibly after a cancellation request: the
/// answer, and the monitor afterwards.
pub open spec fn begin_step(m: Monitor, cancelled: bool) -> (bool, Monitor) {
    if m.phase is Terminated || cancelled || !cycle_due(m.probe_count, m.completed) {
        (false, Monitor { phase: Phase::Terminated, ..m })
    } else {
        (true, Monitor { phase: Phase::Probing, ..m })
    }
}

/// Recording the cycle under way.
pub open spec fn record_step(m: Monitor) -> Monitor {
    Monitor {
        completed: if m.completed < u64::MAX { (m.completed + 1) as u64 } else { m.completed },
        phase: Phase::Recorded,
        ..m
    }
}

/// Runs up to `cycles` cycles with no cancellation: the monitor afterwards
/// and the number of records made.
pub open spec fn run(m: Monitor, cycles: nat) -> (Monitor, nat)
    decreases cycles,
{
    if cycles == 0 {
        (m, 0)
    } else {
        let (go, begun) = begin_step(m, false);
        if !go {
            (begun, 0)
        } else {
            let (after, records) = run(record_step(begun), (cycles - 1) as nat);
            (after, records + 1)
        }
    }
}

impl Monitor {
    /// A bounded run never counts past its bound; a cycle under way was
    /// due; a run is idle only before its first cycle.
    pub open spec fn wf(&self) -> bool {
        &&& self.probe_count != 0 ==> self.completed <= self.probe_count
        &&& self.phase is Probing ==> cycle_due(self.probe_count, self.completed)
        &&& self.phase is Idle ==> self.completed == 0
    }

    /// The monitor of a run of `probe_count` cycles (`0`: until cancelled).
    pub fn new(probe_count: u64) -> (r: Monitor)
        ensures
            r == initial(probe_count),
            r.wf(),
    {
        Monitor { probe_count, completed: 0, phase: Phase::Idle }
    }

    /// Between cycles: whether another cycle begins. None does once the
    /// run has terminated, once `cancelled` is set, or once a bounded run
    /// has completed its count; the monitor then terminates.
    pub fn begin_cycle(&mut self, cancelled: bool) -> (r: bool)
        requires
            old(self).wf(),
            !(old(self).phase is Probing),
        ensures
            (r, *final(self)) == begin_step(*old(self), cancelled),
            final(self).wf(),
    {
        if self.phase == Phase::Terminated || cancelled || !(self.probe_count == 0
            || self.completed < self.probe_count) {
            self.phase = Phase::Terminated;
            false
        } else {
            self.phase = Phase::Probing;
            true
        }
    }

    /// Records the outcome of the cycle under way, probed at `now`.
    pub fn record_cycle(&mut self, outcome: &ProbeOutcome, now: &Timestamp, settings: &Settings) -> (r: Record)
        requires
            old(self).wf(),
            old(self).phase is Probing,
            now.wf(),
            settings.wf(),
        ensures
            *final(self) == record_step(*old(self)),
            final(self).wf(),
            r.describes(*outcome, *now, *settings),
    {
        if self.completed < u64::MAX {
            self.completed = self.completed + 1;
        }
        self.phase = Phase::Recorded;
        render_record(outcome, now, settings)
    }
}

/// A bounded run of `n > 0` cycles, not cancelled, makes exactly `n`
/// records and then terminates with `n` cycles completed, however many
/// more cycles it is offered.
pub proof fn bounded_run_makes_exactly_its_count(n: u64, offered: nat)
    requires
        n > 0,
        offered > n,
    ensures
        run(initial(n), offered) == (
            Monitor { probe_count: n, completed: n, phase: Phase::Terminated },
            n as nat,
        ),
{
    lemma_run_bounded(initial(n), offered);
}

proof fn lemma_run_bounded(m: Monitor, cycles: nat)
    requires
        m.probe_count > 0,
        m.completed <= m.probe_count,
        !(m.phase is Terminated),
        cycles > m.probe_count - m.completed,
    ensures
        run(m, cycles) == (
            Monitor { completed: m.probe_count, phase: Phase::Terminated, ..m },
            (m.probe_count - m.completed) as nat,
        ),
    decreases cycles,
{
    if m.completed < m.probe_count {
        let begun = begin_step(m, false).1;
        lemma_run_bounded(record_step(begun), (cycles - 1) as nat);
    }
}

/// A run with a count of `0` has no natural end: without cancellation it
/// makes one record per cycle offered and never terminates.
pub proof fn unbounded_run_never_ends(cycles: nat)
    ensures
        run(initial(0), cycles).1 == cycles,
        !(run(initial(0), cycles).0.phase is Terminated),
{
    lemma_run_unbounded(initial(0), cycles);
}

proof fn lemma_run_unbounded(m: Monitor, cycles: nat)
    requires
        m.probe_count == 0,
        !(m.phase is Terminated),
    ensures
        run(m, cycles).1 == cycles,
        !(run(m, cycles).0.phase is Terminated),
    decreases cycles,
{
    if cycles > 0 {
        let begun = begin_step(m, false).1;
        lemma_run_unbounded(record_step(begun), (cycles - 1) as nat);
    }
}

} // verus!
