//! The two reports and their bodies.

use crate::accumulators::{Accumulators, Tally};
use crate::distance::{meters_in, whole_meters};
use crate::json::{compact_text, empty_object, no_members, object_text, set_member};
use vstd::prelude::*;

verus! {

/// What a reporter sends.
#[derive(Clone, Copy, Debug, PartialEq, Eq, Structural)]
pub enum Report {
    /// The keypress report.
    Keypress { counter: u64 },
    /// The pointer-activity report. The distance is in whole meters.
    Pointer { mouse_distance: u64, right_click: u64, left_click: u64 },
}

impl Report {
    /// The keypress report for a tally: its key counter.
    pub open spec fn keypress_of(tally: Tally) -> Report {
        Report::Keypress { counter: tally.key_count as u64 }
    }

    /// The pointer-activity report for a tally: its travel in whole meters,
    /// rounded toward zero, and its two click counters.
    pub open spec fn pointer_of(tally: Tally) -> Report {
        Report::Pointer {
            mouse_distance: meters_in(tally.travel) as u64,
            right_click: tally.right_click as u64,
            left_click: tally.left_click as u64,
        }
    }

    /// The members of the report's body, each name with its number.
    pub open spec fn members(self) -> Map<Seq<char>, u64> {
        match self {
            Report::Keypress { counter } => no_members().insert("counter"@, counter),
            Report::Pointer { mouse_distance, right_click, left_click } => no_members().insert(
                "mouseDistance"@,
                mouse_distance,
            ).insert("rightClick"@, right_click).insert("leftClick"@, left_click),
        }
    }

    /// Reads the keypress report off the accumulators, which stay as they
    /// are.
    pub fn keypress(acc: &Accumulators) -> (report: Report)
        ensures
            report == Report::keypress_of(acc@),
    {
        Report::Keypress { counter: acc.key_count() }
    }

    /// Reads the pointer-activity report off the accumulators, which stay as
    /// they are.
    pub fn pointer(acc: &Accumulators) -> (report: Report)
        ensures
            report == Report::pointer_of(acc@),
    {
        Report::Pointer {
            mouse_distance: whole_meters(acc.travel()),
            right_click: acc.right_click(),
            left_click: acc.left_click(),
        }
    }

    /// The body to send: a JSON object with the report's members.
    pub fn body(&self) -> (text: String)
        ensures
            text@ == object_text(self.members()),
    {
        let mut object = empty_object();
        match self {
            Report::Keypress { counter } => {
                set_member(&mut object, "counter", *counter);
            },
            Report::Pointer { mouse_distance, right_click, left_click } => {
                set_member(&mut object, "mouseDistance", *mouse_distance);
                set_member(&mut object, "rightClick", *right_click);
                set_member(&mut object, "leftClick", *left_click);
            },
        }
        compact_text(object)
    }
}

} // verus!
