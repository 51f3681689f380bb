//! The trigger, read once per tick.
//!
//! An intent is worked out afresh on every tick and kept nowhere. A host
//! whose input layer reports both "pressed" and "just released" hands the
//! two signals to [`CaptureIntent::from_signals`]. A host that can only
//! sample "pressed" keeps a [`TriggerLatch`], which remembers the previous
//! sample and finds the release edge itself.

use vstd::prelude::*;

verus! {

/// What the trigger asks for on one tick.
#[derive(Clone, Copy, Debug, PartialEq, Eq, Structural)]
pub enum CaptureIntent {
    /// The trigger is up and was not let go on this tick.
    Idle,
    /// The trigger is down.
    Holding,
    /// The trigger went from down to up on this tick.
    Released,
}

impl CaptureIntent {
    /// The intent that two input signals stand for. A trigger that is down
    /// is held, whatever the release signal says.
    pub open spec fn of(pressed: bool, just_released: bool) -> CaptureIntent {
        if pressed {
            CaptureIntent::Holding
        } else if just_released {
            CaptureIntent::Released
        } else {
            CaptureIntent::Idle
        }
    }

    /// The intent on a tick where the trigger reads `pressed` and read
    /// `before` on the tick before.
    pub open spec fn after(before: bool, pressed: bool) -> CaptureIntent {
        CaptureIntent::of(pressed, before && !pressed)
    }

    /// Classifies one tick from the input layer's two signals.
    pub fn from_signals(pressed: bool, just_released: bool) -> (r: CaptureIntent)
        ensures
            r == CaptureIntent::of(pressed, just_released),
    {
        if pressed {
            CaptureIntent::Holding
        } else if just_released {
            CaptureIntent::Released
        } else {
            CaptureIntent::Idle
        }
    }
}

/// A two-state latch: the trigger's reading on the previous tick.
pub struct TriggerLatch {
    was_pressed: bool,
}

impl View for TriggerLatch {
    type V = bool;

    closed spec fn view(&self) -> bool {
        self.was_pressed
    }
}

impl TriggerLatch {
    /// A latch for a trigger that has not been pressed yet.
    pub fn new() -> (r: TriggerLatch)
        ensures
            r@ == false,
    {
        TriggerLatch { was_pressed: false }
    }

    /// The reading that the latch holds.
    pub fn was_pressed(&self) -> (r: bool)
        ensures
            r == self@,
    {
        self.was_pressed
    }

    /// Takes this tick's reading and says what it asks for. The latch then
    /// holds this reading.
    pub fn observe(&mut self, pressed: bool) -> (r: CaptureIntent)
        ensures
            r == CaptureIntent::after(old(self)@, pressed),
            final(self)@ == pressed,
    {
        let released: bool = self.was_pressed && !pressed;
        self.was_pressed = pressed;
        CaptureIntent::from_signals(pressed, released)
    }
}

/// What a latch that started at `start` holds before tick `t` of a run of
/// readings: each reading taken replaces the one held, so this is the
/// reading of the tick before.
pub open spec fn held_before(start: bool, presses: Seq<bool>, t: int) -> bool {
    if t <= 0 {
        start
    } else {
        presses[t - 1]
    }
}

/// The intent that such a latch reports on tick `t` of the run.
pub open spec fn intent_at(start: bool, presses: Seq<bool>, t: int) -> CaptureIntent {
    CaptureIntent::after(held_before(start, presses, t), presses[t])
}

/// A release is reported on the falling edge of the trigger and on no
/// other tick, never while the trigger is held, and never on two ticks in
/// a row.
pub proof fn lemma_release_is_edge_triggered(start: bool, presses: Seq<bool>, t: int)
    requires
        0 <= t < presses.len(),
    ensures
        intent_at(start, presses, t) == CaptureIntent::Holding <==> presses[t],
        intent_at(start, presses, t) == CaptureIntent::Released <==> held_before(start, presses, t)
            && !presses[t],
        intent_at(start, presses, t) == CaptureIntent::Released && t + 1 < presses.len()
            ==> intent_at(start, presses, t + 1) != CaptureIntent::Released,
{
}

} // verus!
