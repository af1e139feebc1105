//! What holds of the accumulators and the reporters over whole runs of
//! events.

use crate::accumulators::{extended, is_right_click, InputEvent, Tally};
use crate::distance::{meters_in, step_length};
use crate::distance::{METERS_PER_MICROPIXEL_DENOMINATOR, METERS_PER_MICROPIXEL_NUMERATOR};
use crate::report::Report;
use crate::reporter::{transition, Outcome, Phase, ReporterKind, Signal};
use vstd::prelude::*;

verus! {

/// How many of the events are key releases.
pub open spec fn key_releases(events: Seq<InputEvent>) -> nat
    decreases events.len(),
{
    if events.len() == 0 {
        0
    } else {
        key_releases(events.drop_last()) + if events.last() is KeyUp {
            1nat
        } else {
            0nat
        }
    }
}

/// How many of the events are button presses that count as right clicks.
pub open spec fn right_clicks(events: Seq<InputEvent>) -> nat
    decreases events.len(),
{
    if events.len() == 0 {
        0
    } else {
        right_clicks(events.drop_last()) + match events.last() {
            InputEvent::MouseDown { button } if is_right_click(button) => 1nat,
            _ => 0nat,
        }
    }
}

/// The length in micro-pixels of the path that the pointer takes through the
/// moves among the events, starting where `start` last saw it; each move is
/// rounded down on its own.
pub open spec fn path_length(start: Tally, events: Seq<InputEvent>) -> nat
    decreases events.len(),
{
    if events.len() == 0 {
        0
    } else {
        let before = start.after_all(events.drop_last());
        path_length(start, events.drop_last()) + match events.last() {
            InputEvent::MouseMove { x, y } => step_length(x - before.cursor_x, y - before.cursor_y),
            _ => 0nat,
        }
    }
}

/// Events keep a tally in range.
pub proof fn lemma_after_all_in_range(start: Tally, events: Seq<InputEvent>)
    requires
        start.in_range(),
    ensures
        start.after_all(events).in_range(),
    decreases events.len(),
{
    if events.len() > 0 {
        lemma_after_all_in_range(start, events.drop_last());
    }
}

/// Delivering one run of events and then another is delivering the two runs
/// joined.
pub proof fn lemma_after_all_joined(start: Tally, first: Seq<InputEvent>, second: Seq<InputEvent>)
    ensures
        start.after_all(first + second) == start.after_all(first).after_all(second),
    decreases second.len(),
{
    if second.len() == 0 {
        assert(first + second =~= first);
    } else {
        lemma_after_all_joined(start, first, second.drop_last());
        assert((first + second).drop_last() =~= first + second.drop_last());
        assert((first + second).last() == second.last());
    }
}

/// Accumulation is a sum. After a run of events the key counter has grown by
/// the key releases among them and the right-click counter by the right
/// clicks, both wrapping around at 2^64; the left-click counter is as it was;
/// and travel has grown by the length of the pointer's path, up to its limit.
pub proof fn lemma_accumulation(start: Tally, events: Seq<InputEvent>)
    requires
        start.in_range(),
    ensures
        start.after_all(events).key_count == (start.key_count + key_releases(events))
            % 0x1_0000_0000_0000_0000,
        start.after_all(events).right_click == (start.right_click + right_clicks(events))
            % 0x1_0000_0000_0000_0000,
        start.after_all(events).left_click == start.left_click,
        start.after_all(events).travel == extended(start.travel, path_length(start, events)),
    decreases events.len(),
{
    if events.len() > 0 {
        lemma_accumulation(start, events.drop_last());
    }
}

/// Key releases delivered one after the other before a tick are all in the
/// report. When the key counter starts at zero and `events` holds nothing
/// but key releases, the keypress report read at the next tick counts
/// exactly that many: their number itself as long as the counter can hold
/// it, and in any case their number modulo 2^64.
pub proof fn lemma_keypress_report_counts_key_releases(start: Tally, events: Seq<InputEvent>)
    requires
        start.in_range(),
        start.key_count == 0,
        forall|i: int| 0 <= i < events.len() ==> events[i] is KeyUp,
    ensures
        transition(
            ReporterKind::Keypress,
            Phase::Waiting,
            Signal::Tick,
            start.after_all(events),
        ).outcome == Outcome::Dispatch(
            Report::Keypress { counter: (events.len() % 0x1_0000_0000_0000_0000) as u64 },
        ),
        events.len() <= u64::MAX ==> transition(
            ReporterKind::Keypress,
            Phase::Waiting,
            Signal::Tick,
            start.after_all(events),
        ).outcome == Outcome::Dispatch(Report::Keypress { counter: events.len() as u64 }),
{
    lemma_accumulation(start, events);
    lemma_key_releases_of_key_ups(events);
}

/// Among nothing but key releases, every event is one.
pub proof fn lemma_key_releases_of_key_ups(events: Seq<InputEvent>)
    requires
        forall|i: int| 0 <= i < events.len() ==> events[i] is KeyUp,
    ensures
        key_releases(events) == events.len(),
    decreases events.len(),
{
    if events.len() > 0 {
        lemma_key_releases_of_key_ups(events.drop_last());
    }
}

/// Right after an acknowledged report, what the reporter reports reads zero:
/// the key counter for the keypress reporter; travel and both click counters
/// for the pointer reporter, whose next report is then all zeros too. What
/// the reporter does not report is as it was, and so is the pointer's
/// position.
pub proof fn lemma_reset_reads_zero(kind: ReporterKind, tally: Tally)
    ensures
        ({
            let after = transition(kind, Phase::Sending, Signal::Delivered, tally);
            &&& after.phase == Phase::Waiting
            &&& after.outcome == Outcome::Reset
            &&& after.tally.cursor_x == tally.cursor_x
            &&& after.tally.cursor_y == tally.cursor_y
            &&& kind == ReporterKind::Keypress ==> {
                &&& after.tally.key_count == 0
                &&& after.tally.right_click == tally.right_click
                &&& after.tally.left_click == tally.left_click
                &&& after.tally.travel == tally.travel
                &&& kind.snapshot(after.tally) == Report::Keypress { counter: 0 }
            }
            &&& kind == ReporterKind::Pointer ==> {
                &&& after.tally.key_count == tally.key_count
                &&& after.tally.right_click == 0
                &&& after.tally.left_click == 0
                &&& after.tally.travel == 0
                &&& kind.snapshot(after.tally) == Report::Pointer {
                    mouse_distance: 0,
                    right_click: 0,
                    left_click: 0,
                }
            }
        }),
{
}

/// The distance in a pointer report is the travel in pixels times
/// 0.0002645833, rounded toward zero: it is the whole number of meters that
/// is not above that product and less than one meter below it.
pub proof fn lemma_reported_distance_rounds_down(tally: Tally)
    requires
        tally.in_range(),
    ensures
        Report::pointer_of(tally) is Pointer,
        Report::pointer_of(tally)->mouse_distance == meters_in(tally.travel),
        meters_in(tally.travel) * METERS_PER_MICROPIXEL_DENOMINATOR <= tally.travel
            * METERS_PER_MICROPIXEL_NUMERATOR,
        tally.travel * METERS_PER_MICROPIXEL_NUMERATOR < (meters_in(tally.travel) + 1)
            * METERS_PER_MICROPIXEL_DENOMINATOR,
{
}

/// A failed delivery loses nothing. Take any run of events, a tick, events
/// that arrive while the report is out, the failure of its delivery, and a
/// further run of events. The report read at the next tick is the one for
/// all those events together, as if the failed report had never been read.
pub proof fn lemma_failed_delivery_loses_nothing(
    kind: ReporterKind,
    start: Tally,
    first: Seq<InputEvent>,
    during: Seq<InputEvent>,
    second: Seq<InputEvent>,
)
    ensures
        ({
            let read = transition(kind, Phase::Waiting, Signal::Tick, start.after_all(first));
            let failed = transition(kind, read.phase, Signal::Failed, read.tally.after_all(during));
            let next = transition(kind, failed.phase, Signal::Tick, failed.tally.after_all(second));
            &&& failed.outcome == Outcome::Retained
            &&& next.outcome == Outcome::Dispatch(
                kind.snapshot(start.after_all(first + during + second)),
            )
        }),
{
    lemma_after_all_joined(start, first, during);
    lemma_after_all_joined(start, first + during, second);
}

/// After a failed delivery the next report carries the sum of the failed
/// window and the new one. The failed keypress report counted
/// `tally.key_count` key releases; the next one counts those and the key
/// releases among `later`, the events that came after it was read, wrapping
/// around at 2^64. For the pointer report the same holds of
/// `tally.right_click` and the right clicks among `later`, and its distance
/// is that of `tally.travel` and the path through `later` together.
pub proof fn lemma_failed_window_is_carried_forward(
    tally: Tally,
    later: Seq<InputEvent>,
)
    requires
        tally.in_range(),
    ensures
        ({
            let keys_read = transition(ReporterKind::Keypress, Phase::Waiting, Signal::Tick, tally);
            let keys_failed = transition(
                ReporterKind::Keypress,
                keys_read.phase,
                Signal::Failed,
                keys_read.tally,
            );
            let keys_next = transition(
                ReporterKind::Keypress,
                keys_failed.phase,
                Signal::Tick,
                keys_failed.tally.after_all(later),
            );
            let pointer_read = transition(
                ReporterKind::Pointer,
                Phase::Waiting,
                Signal::Tick,
                tally,
            );
            let pointer_failed = transition(
                ReporterKind::Pointer,
                pointer_read.phase,
                Signal::Failed,
                pointer_read.tally,
            );
            let pointer_next = transition(
                ReporterKind::Pointer,
                pointer_failed.phase,
                Signal::Tick,
                pointer_failed.tally.after_all(later),
            );
            &&& keys_read.outcome == Outcome::Dispatch(
                Report::Keypress { counter: tally.key_count as u64 },
            )
            &&& keys_next.outcome == Outcome::Dispatch(
                Report::Keypress {
                    counter: ((tally.key_count + key_releases(later))
                        % 0x1_0000_0000_0000_0000) as u64,
                },
            )
            &&& pointer_read.outcome == Outcome::Dispatch(
                Report::Pointer {
                    mouse_distance: meters_in(tally.travel) as u64,
                    right_click: tally.right_click as u64,
                    left_click: tally.left_click as u64,
                },
            )
            &&& pointer_next.outcome == Outcome::Dispatch(
                Report::Pointer {
                    mouse_distance: meters_in(
                        extended(tally.travel, path_length(tally, later)),
                    ) as u64,
                    right_click: ((tally.right_click + right_clicks(later))
                        % 0x1_0000_0000_0000_0000) as u64,
                    left_click: tally.left_click as u64,
                },
            )
        }),
{
    lemma_accumulation(tally, later);
}

/// An acknowledgment clears what arrived while the report was out. Events
/// delivered between the tick and the acknowledgment are in neither that
/// report nor the next: after the acknowledgment the keypress report counts
/// the key releases of the later events alone.
pub proof fn lemma_acknowledgment_drops_events_in_flight(
    start: Tally,
    during: Seq<InputEvent>,
    later: Seq<InputEvent>,
)
    requires
        start.in_range(),
    ensures
        ({
            let read = transition(ReporterKind::Keypress, Phase::Waiting, Signal::Tick, start);
            let done = transition(
                ReporterKind::Keypress,
                read.phase,
                Signal::Delivered,
                read.tally.after_all(during),
            );
            let next = transition(
                ReporterKind::Keypress,
                done.phase,
                Signal::Tick,
                done.tally.after_all(later),
            );
            &&& read.outcome == Outcome::Dispatch(
                Report::Keypress { counter: start.key_count as u64 },
            )
            &&& next.outcome == Outcome::Dispatch(
                Report::Keypress {
                    counter: (key_releases(later) % 0x1_0000_0000_0000_0000) as u64,
                },
            )
        }),
{
    lemma_after_all_in_range(start, during);
    lemma_accumulation(start.after_all(during).keys_cleared(), later);
}

/// Reading changes nothing. A tick reads the report and leaves the tally as
/// it is, so that a second reading gives the same report. More than that:
/// whatever the phase and the signal, a step changes the tally only where it
/// ends in a reset.
pub proof fn lemma_reading_changes_nothing(
    kind: ReporterKind,
    phase: Phase,
    signal: Signal,
    tally: Tally,
)
    ensures
        transition(kind, Phase::Waiting, Signal::Tick, tally).tally == tally,
        transition(kind, Phase::Waiting, Signal::Tick, tally).outcome == Outcome::Dispatch(
            kind.snapshot(tally),
        ),
        !(transition(kind, phase, signal, tally).outcome is Reset) ==> transition(
            kind,
            phase,
            signal,
            tally,
        ).tally == tally,
{
}

/// No event counts as a left click, whichever button it names.
pub proof fn lemma_left_clicks_are_never_counted(start: Tally, event: InputEvent)
    ensures
        start.after(event).left_click == start.left_click,
{
}

} // verus!
