//! Decision logic of a proximity capture controller.
//!
//! Each simulation tick a host reads a trigger and a set of capturable
//! bodies. This crate decides, from plain values, which body is acted on and
//! whether it is pulled toward the catcher or launched away from it. The
//! host computes the impulse itself and writes it to the body it was told.

pub mod controller;
pub mod intent;
pub mod select;

pub use controller::{decide, Command};
pub use intent::{CaptureIntent, TriggerLatch};
pub use select::nearest;
