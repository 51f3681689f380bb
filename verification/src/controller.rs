//! The controller's decision for one tick.

use crate::intent::{held_before, intent_at, CaptureIntent};
use crate::select::{is_nearest, lemma_nearest_exists, nearest, nearest_index};
use vstd::prelude::*;

verus! {

/// What the host is to do on this tick. At most one body is named.
#[derive(Clone, Copy, Debug, PartialEq, Eq, Structural)]
pub enum Command {
    /// Leave every body alone.
    Nothing,
    /// Pull the body at `target` toward the catcher.
    Pull { target: usize },
    /// Launch the body at `target` along the catcher's forward direction.
    Launch { target: usize },
}

/// The command owed for an intent and the keys of the capturable bodies.
pub open spec fn decision(intent: CaptureIntent, keys: Seq<u32>) -> Command {
    if keys.len() == 0 {
        Command::Nothing
    } else {
        match intent {
            CaptureIntent::Idle => Command::Nothing,
            CaptureIntent::Holding => Command::Pull { target: nearest_index(keys) as usize },
            CaptureIntent::Released => Command::Launch { target: nearest_index(keys) as usize },
        }
    }
}

/// Decides one tick.
///
/// With no body, or with an idle trigger, nothing is commanded. Otherwise
/// the nearest body is pulled while the trigger is held, and launched on
/// the tick of its release.
pub fn decide(intent: CaptureIntent, keys: &Vec<u32>) -> (c: Command)
    ensures
        c == decision(intent, keys@),
        c matches Command::Pull { target } ==> is_nearest(keys@, target as int),
        c matches Command::Launch { target } ==> is_nearest(keys@, target as int),
{
    match nearest(keys) {
        None => Command::Nothing,
        Some(target) => match intent {
            CaptureIntent::Idle => Command::Nothing,
            CaptureIntent::Holding => Command::Pull { target },
            CaptureIntent::Released => Command::Launch { target },
        },
    }
}

/// On any tick of any run, the nearest body is pulled if the trigger is
/// down, launched if the trigger falls on that tick, and nothing is
/// commanded otherwise or where there is no body.
pub proof fn lemma_launch_is_the_falling_edge(
    start: bool,
    presses: Seq<bool>,
    t: int,
    keys: Seq<u32>,
)
    requires
        0 <= t < presses.len(),
    ensures
        decision(intent_at(start, presses, t), keys) == (if keys.len() == 0 {
            Command::Nothing
        } else if presses[t] {
            Command::Pull { target: nearest_index(keys) as usize }
        } else if held_before(start, presses, t) {
            Command::Launch { target: nearest_index(keys) as usize }
        } else {
            Command::Nothing
        }),
        keys.len() > 0 ==> is_nearest(keys, nearest_index(keys)),
{
    if keys.len() > 0 {
        lemma_nearest_exists(keys);
    }
}

/// The trigger is down from tick `down` up to tick `up` and up on every
/// other tick of the run.
pub open spec fn single_press(presses: Seq<bool>, down: int, up: int) -> bool {
    &&& 0 <= down < up < presses.len()
    &&& forall|k: int| 0 <= k < presses.len() ==> (#[trigger] presses[k] <==> down <= k < up)
}

/// One press launches once. A latch that starts up and sees a single press
/// has the nearest body pulled on each tick of the press and launched on
/// the tick the trigger is let go. On every tick before the press and
/// after the launch nothing is commanded, whatever bodies are there.
pub proof fn lemma_single_press_launches_once(
    presses: Seq<bool>,
    down: int,
    up: int,
    t: int,
    keys: Seq<u32>,
)
    requires
        single_press(presses, down, up),
        0 <= t < presses.len(),
    ensures
        decision(intent_at(false, presses, t), keys) == (if keys.len() == 0 {
            Command::Nothing
        } else if down <= t < up {
            Command::Pull { target: nearest_index(keys) as usize }
        } else if t == up {
            Command::Launch { target: nearest_index(keys) as usize }
        } else {
            Command::Nothing
        }),
{
    assert(presses[t] <==> down <= t < up);
    if t > 0 {
        assert(presses[t - 1] <==> down <= t - 1 < up);
    }
}

} // verus!
