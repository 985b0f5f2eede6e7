//! Readiness handling for the virtio-input device on the host event loop.
use vstd::prelude::*;

verus! {

/// The readiness set of an input-ready event.
pub const EVENT_SET_IN: u32 = 0x1;

/// Decides what to do with readiness events of the host event loop.
pub struct InputEventHandler {}

impl InputEventHandler {
    pub fn new() -> (r: Self) {
        InputEventHandler {}
    }

    /// Whether an event with readiness set `event_set` is handled: only one
    /// that is exactly input-ready; any other is reported and skipped.
    pub fn process(&mut self, event_set: u32) -> (r: bool)
        ensures
            r == (event_set == EVENT_SET_IN),
    {
        event_set == EVENT_SET_IN
    }

    /// The file descriptors to watch: none so far.
    pub fn interest_list(&self) -> (r: Vec<i32>)
        ensures
            r@ == Seq::<i32>::empty(),
    {
        Vec::new()
    }
}

} // verus!
