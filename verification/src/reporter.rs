//! The reporters: two periodic tasks that drain the accumulators.
//!
//! A reporter waits for its interval to elapse, reads a report off the
//! accumulators, and hands it out for delivery. When the delivery is
//! acknowledged it clears what it reported; when the delivery fails it clears
//! nothing, so that the next report carries the combined total. Whoever runs
//! a reporter performs the waiting and the sending, and tells the reporter
//! what happened.
//!
//! The accumulators are cleared when the acknowledgment arrives, not when the
//! report is read. Events that arrive between the two are cleared with the
//! rest and appear in no report.

use crate::accumulators::{Accumulators, Tally};
use crate::report::Report;
use vstd::prelude::*;

verus! {

/// Seconds between two reports of one reporter.
pub const REPORT_INTERVAL_SECONDS: u64 = 100;

/// Which accumulators a reporter drains.
#[derive(Clone, Copy, Debug, PartialEq, Eq, Structural)]
pub enum ReporterKind {
    /// The key counter.
    Keypress,
    /// Pointer travel and the two click counters.
    Pointer,
}

/// Where a reporter stands between two steps. Resetting after a success and
/// retaining after a failure are not phases of their own: each is done
/// within the step that hears of the delivery, and is named by that step's
/// outcome.
#[derive(Clone, Copy, Debug, PartialEq, Eq, Structural)]
pub enum Phase {
    /// Waiting for the interval to elapse.
    Waiting,
    /// A report is out for delivery.
    Sending,
}

/// What a reporter is told.
#[derive(Clone, Copy, Debug, PartialEq, Eq, Structural)]
pub enum Signal {
    /// The interval has elapsed.
    Tick,
    /// The report that is out was acknowledged.
    Delivered,
    /// The report that is out could not be delivered.
    Failed,
}

/// What a reporter did in one step.
#[derive(Clone, Copy, Debug, PartialEq, Eq, Structural)]
pub enum Outcome {
    /// It read this report, which is now to be sent.
    Dispatch(Report),
    /// The delivery succeeded, and it cleared what it had reported.
    Reset,
    /// The delivery failed, and it left the accumulators as they were.
    Retained,
    /// The signal did not fit the phase, and nothing changed.
    Ignored,
}

/// One step of a reporter, in full: the phase and the tally it ends with,
/// and what it did.
pub struct Transition {
    pub phase: Phase,
    pub tally: Tally,
    pub outcome: Outcome,
}

impl ReporterKind {
    /// The report of this kind for a tally.
    pub open spec fn snapshot(self, tally: Tally) -> Report {
        match self {
            ReporterKind::Keypress => Report::keypress_of(tally),
            ReporterKind::Pointer => Report::pointer_of(tally),
        }
    }

    /// The tally after a reporter of this kind has cleared what it reports.
    pub open spec fn cleared(self, tally: Tally) -> Tally {
        match self {
            ReporterKind::Keypress => tally.keys_cleared(),
            ReporterKind::Pointer => tally.pointer_cleared(),
        }
    }
}

/// The step that a reporter of the given kind takes in `phase` on `signal`,
/// with the accumulators at `tally`.
///
/// A tick while waiting reads the report and changes nothing. An
/// acknowledgment while sending clears what the reporter reports; a failure
/// while sending clears nothing. Both lead back to waiting. Any other signal
/// is ignored.
pub open spec fn transition(
    kind: ReporterKind,
    phase: Phase,
    signal: Signal,
    tally: Tally,
) -> Transition {
    match (phase, signal) {
        (Phase::Waiting, Signal::Tick) => Transition {
            phase: Phase::Sending,
            tally,
            outcome: Outcome::Dispatch(kind.snapshot(tally)),
        },
        (Phase::Sending, Signal::Delivered) => Transition {
            phase: Phase::Waiting,
            tally: kind.cleared(tally),
            outcome: Outcome::Reset,
        },
        (Phase::Sending, Signal::Failed) => Transition {
            phase: Phase::Waiting,
            tally,
            outcome: Outcome::Retained,
        },
        _ => Transition { phase, tally, outcome: Outcome::Ignored },
    }
}

/// A reporter: its kind, which never changes, and its phase.
#[derive(Debug)]
pub struct Reporter {
    kind: ReporterKind,
    phase: Phase,
}

impl Reporter {
    /// The reporter's kind.
    pub closed spec fn spec_kind(&self) -> ReporterKind {
        self.kind
    }

    /// The reporter's phase.
    pub closed spec fn spec_phase(&self) -> Phase {
        self.phase
    }

    /// A reporter of the given kind, waiting for its first tick.
    pub fn new(kind: ReporterKind) -> (reporter: Reporter)
        ensures
            reporter.kind() == kind,
            reporter.phase() == Phase::Waiting,
    {
        Reporter { kind, phase: Phase::Waiting }
    }

    /// The reporter's kind.
    #[verifier::when_used_as_spec(spec_kind)]
    pub fn kind(&self) -> (kind: ReporterKind)
        ensures
            kind == self.kind(),
    {
        self.kind
    }

    /// The reporter's phase.
    #[verifier::when_used_as_spec(spec_phase)]
    pub fn phase(&self) -> (phase: Phase)
        ensures
            phase == self.phase(),
    {
        self.phase
    }

    /// Takes one step on `signal`, and says what was done.
    pub fn step(&mut self, signal: Signal, acc: &mut Accumulators) -> (outcome: Outcome)
        ensures
            final(self).kind() == old(self).kind(),
            final(self).phase() == transition(
                old(self).kind(),
                old(self).phase(),
                signal,
                old(acc)@,
            ).phase,
            final(acc)@ == transition(old(self).kind(), old(self).phase(), signal, old(acc)@).tally,
            outcome == transition(old(self).kind(), old(self).phase(), signal, old(acc)@).outcome,
    {
        match (self.phase, signal) {
            (Phase::Waiting, Signal::Tick) => {
                let report = match self.kind {
                    ReporterKind::Keypress => Report::keypress(acc),
                    ReporterKind::Pointer => Report::pointer(acc),
                };
                self.phase = Phase::Sending;
                Outcome::Dispatch(report)
            },
            (Phase::Sending, Signal::Delivered) => {
                match self.kind {
                    ReporterKind::Keypress => acc.clear_keys(),
                    ReporterKind::Pointer => acc.clear_pointer(),
                }
                self.phase = Phase::Waiting;
                Outcome::Reset
            },
            (Phase::Sending, Signal::Failed) => {
                self.phase = Phase::Waiting;
                Outcome::Retained
            },
            _ => Outcome::Ignored,
        }
    }
}

} // verus!
