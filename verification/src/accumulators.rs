//! The accumulators and the three event handlers that feed them.

use crate::distance::{move_length, step_length};
use vstd::prelude::*;

verus! {

/// One notification from the input devices.
#[derive(Clone, Copy, Debug, PartialEq, Eq, Structural)]
pub enum InputEvent {
    /// A key was released. Which key is of no interest.
    KeyUp,
    /// A pointer button was pressed.
    MouseDown { button: usize },
    /// The pointer moved to the absolute position (`x`, `y`).
    MouseMove { x: i32, y: i32 },
}

/// What the accumulators hold, as plain numbers.
pub struct Tally {
    /// Key releases since the last acknowledged keypress report.
    pub key_count: nat,
    /// Right clicks since the last acknowledged pointer report.
    pub right_click: nat,
    /// Left clicks since the last acknowledged pointer report.
    pub left_click: nat,
    /// Where the pointer was last seen; never cleared by a report.
    pub cursor_x: int,
    /// Where the pointer was last seen; never cleared by a report.
    pub cursor_y: int,
    /// Pointer travel in micro-pixels since the last acknowledged pointer
    /// report.
    pub travel: nat,
}

/// A counter one event later. Counters wrap around at 2^64.
pub open spec fn bumped(count: nat) -> nat {
    (count + 1) % 0x1_0000_0000_0000_0000
}

/// Travel after a further `step` micro-pixels. Travel stops growing at
/// 2^64 - 1 micro-pixels.
pub open spec fn extended(travel: nat, step: nat) -> nat {
    if travel + step > u64::MAX {
        u64::MAX as nat
    } else {
        travel + step
    }
}

/// Whether a press of `button` is counted as a right click. Buttons 1 and 3
/// are; no button is counted as a left click.
pub open spec fn is_right_click(button: usize) -> bool {
    button == 1 || button == 3
}

impl Tally {
    /// Everything at zero, the pointer at the origin.
    pub open spec fn zero() -> Tally {
        Tally { key_count: 0, right_click: 0, left_click: 0, cursor_x: 0, cursor_y: 0, travel: 0 }
    }

    /// Whether every number is one that the accumulators can hold.
    pub open spec fn in_range(self) -> bool {
        &&& self.key_count <= u64::MAX
        &&& self.right_click <= u64::MAX
        &&& self.left_click <= u64::MAX
        &&& i32::MIN <= self.cursor_x <= i32::MAX
        &&& i32::MIN <= self.cursor_y <= i32::MAX
        &&& self.travel <= u64::MAX
    }

    /// The tally after a key release.
    pub open spec fn key_released(self) -> Tally {
        Tally { key_count: bumped(self.key_count), ..self }
    }

    /// The tally after a press of `button`.
    pub open spec fn button_pressed(self, button: usize) -> Tally {
        if is_right_click(button) {
            Tally { right_click: bumped(self.right_click), ..self }
        } else {
            self
        }
    }

    /// The tally after the pointer moved to (`x`, `y`): the move is measured
    /// from where the pointer was last seen.
    pub open spec fn pointer_moved(self, x: i32, y: i32) -> Tally {
        Tally {
            cursor_x: x as int,
            cursor_y: y as int,
            travel: extended(self.travel, step_length(x - self.cursor_x, y - self.cursor_y)),
            ..self
        }
    }

    /// The tally after one event.
    pub open spec fn after(self, event: InputEvent) -> Tally {
        match event {
            InputEvent::KeyUp => self.key_released(),
            InputEvent::MouseDown { button } => self.button_pressed(button),
            InputEvent::MouseMove { x, y } => self.pointer_moved(x, y),
        }
    }

    /// The tally after a run of events, delivered one after the other.
    pub open spec fn after_all(self, events: Seq<InputEvent>) -> Tally
        decreases events.len(),
    {
        if events.len() == 0 {
            self
        } else {
            self.after_all(events.drop_last()).after(events.last())
        }
    }

    /// The tally with the key counter cleared.
    pub open spec fn keys_cleared(self) -> Tally {
        Tally { key_count: 0, ..self }
    }

    /// The tally with travel and both click counters cleared. The pointer's
    /// position stays.
    pub open spec fn pointer_cleared(self) -> Tally {
        Tally { right_click: 0, left_click: 0, travel: 0, ..self }
    }
}

/// The accumulators: counters for key releases and clicks, the pointer's last
/// position, and its travel.
#[derive(Debug)]
pub struct Accumulators {
    key_count: u64,
    right_click: u64,
    left_click: u64,
    cursor_x: i32,
    cursor_y: i32,
    travel: u64,
}

impl View for Accumulators {
    type V = Tally;

    closed spec fn view(&self) -> Tally {
        Tally {
            key_count: self.key_count as nat,
            right_click: self.right_click as nat,
            left_click: self.left_click as nat,
            cursor_x: self.cursor_x as int,
            cursor_y: self.cursor_y as int,
            travel: self.travel as nat,
        }
    }
}

impl Default for Accumulators {
    /// Fresh accumulators, as `new` makes them.
    fn default() -> (acc: Accumulators)
        ensures
            acc@ == Tally::zero(),
    {
        Accumulators::new()
    }
}

impl Accumulators {
    /// What accumulators hold is always in range.
    pub proof fn lemma_in_range(&self)
        ensures
            self@.in_range(),
    {
    }

    /// Fresh accumulators: everything at zero, the pointer at the origin.
    pub fn new() -> (acc: Accumulators)
        ensures
            acc@ == Tally::zero(),
    {
        Accumulators {
            key_count: 0,
            right_click: 0,
            left_click: 0,
            cursor_x: 0,
            cursor_y: 0,
            travel: 0,
        }
    }

    /// Handles a key release: one more on the key counter.
    pub fn on_key_up(&mut self)
        ensures
            final(self)@ == old(self)@.key_released(),
    {
        self.key_count = self.key_count.wrapping_add(1);
    }

    /// Handles a button press: one more right click for buttons 1 and 3,
    /// nothing for any other button.
    pub fn on_mouse_down(&mut self, button: usize)
        ensures
            final(self)@ == old(self)@.button_pressed(button),
    {
        if button == 1 {
            self.right_click = self.right_click.wrapping_add(1);
        } else if button == 3 {
            self.right_click = self.right_click.wrapping_add(1);
        }
    }

    /// Handles a pointer move: measures the move from the last position,
    /// stores the new position, and adds the length to the travel.
    pub fn on_mouse_move(&mut self, x: i32, y: i32)
        ensures
            final(self)@ == old(self)@.pointer_moved(x, y),
    {
        let step = move_length(self.cursor_x, self.cursor_y, x, y);
        self.cursor_x = x;
        self.cursor_y = y;
        self.travel = self.travel.saturating_add(step);
    }

    /// Hands one event to its handler.
    pub fn record(&mut self, event: InputEvent)
        ensures
            final(self)@ == old(self)@.after(event),
    {
        match event {
            InputEvent::KeyUp => self.on_key_up(),
            InputEvent::MouseDown { button } => self.on_mouse_down(button),
            InputEvent::MouseMove { x, y } => self.on_mouse_move(x, y),
        }
    }

    /// Clears the key counter.
    pub fn clear_keys(&mut self)
        ensures
            final(self)@ == old(self)@.keys_cleared(),
    {
        self.key_count = 0;
    }

    /// Clears travel and both click counters, and keeps the pointer's
    /// position.
    pub fn clear_pointer(&mut self)
        ensures
            final(self)@ == old(self)@.pointer_cleared(),
    {
        self.travel = 0;
        self.right_click = 0;
        self.left_click = 0;
    }

    /// Key releases counted so far. Reading changes nothing.
    pub fn key_count(&self) -> (count: u64)
        ensures
            count == self@.key_count,
    {
        self.key_count
    }

    /// Right clicks counted so far. Reading changes nothing.
    pub fn right_click(&self) -> (count: u64)
        ensures
            count == self@.right_click,
    {
        self.right_click
    }

    /// Left clicks counted so far. Reading changes nothing.
    pub fn left_click(&self) -> (count: u64)
        ensures
            count == self@.left_click,
    {
        self.left_click
    }

    /// Where the pointer was last seen.
    pub fn cursor(&self) -> (position: (i32, i32))
        ensures
            position.0 == self@.cursor_x,
            position.1 == self@.cursor_y,
    {
        (self.cursor_x, self.cursor_y)
    }

    /// Pointer travel so far, in micro-pixels. Reading changes nothing.
    pub fn travel(&self) -> (micropixels: u64)
        ensures
            micropixels == self@.travel,
    {
        self.travel
    }
}

} // verus!
