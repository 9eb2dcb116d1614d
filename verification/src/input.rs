//! The input aggregator: last-event-wins reduction of the queued
//! pointer-motion and scroll events.
//!
//! The event queues are append-only; the aggregator keeps one
//! monotonically-advancing read cursor per queue and never revisits an event
//! it has consumed.  Each call reduces the events past the cursor to the
//! last delta seen, or zero where no event arrived.

use vstd::prelude::*;
use crate::transform::Vec2Fx;

verus! {

/// The look delta a drain of the motion queue yields: the last event past
/// the cursor, or zero where the cursor already sits at the end.
pub open spec fn last_motion_spec(events: Seq<Vec2Fx>, cursor: int) -> Vec2Fx {
    if cursor < events.len() { events.last() } else { Vec2Fx { x: 0, y: 0 } }
}

/// The zoom delta a drain of the scroll queue yields: the last event past
/// the cursor, or zero where the cursor already sits at the end.
pub open spec fn last_wheel_spec(events: Seq<i64>, cursor: int) -> i64 {
    if cursor < events.len() { events.last() } else { 0 }
}

/// The two persistent read cursors into the motion and scroll event queues.
/// Created once at process start and reused every frame.
#[derive(Clone, Copy, PartialEq, Eq, Structural, Debug)]
pub struct InputAccumulatorState {
    /// Count of motion events already consumed.
    pub motion_cursor: usize,
    /// Count of scroll events already consumed.
    pub wheel_cursor: usize,
}

impl Default for InputAccumulatorState {
    /// Fresh cursors: nothing consumed yet.
    fn default() -> (s: InputAccumulatorState)
        ensures
            s.motion_cursor == 0,
            s.wheel_cursor == 0,
    {
        InputAccumulatorState { motion_cursor: 0, wheel_cursor: 0 }
    }
}

impl InputAccumulatorState {
    /// Drains both queues past the cursors and reduces each to a single
    /// delta, last event wins; absence of events yields zero deltas.  Both
    /// cursors advance past everything consumed.
    pub fn aggregate(&mut self, motion: &Vec<Vec2Fx>, wheel: &Vec<i64>) -> (r: (Vec2Fx, i64))
        requires
            old(self).motion_cursor <= motion@.len(),
            old(self).wheel_cursor <= wheel@.len(),
        ensures
            r.0 == last_motion_spec(motion@, old(self).motion_cursor as int),
            r.1 == last_wheel_spec(wheel@, old(self).wheel_cursor as int),
            final(self).motion_cursor == motion@.len(),
            final(self).wheel_cursor == wheel@.len(),
    {
        let start_motion: usize = self.motion_cursor;
        let mut look = Vec2Fx::zero();
        let mut i: usize = start_motion;
        while i < motion.len()
            invariant
                start_motion <= i <= motion@.len(),
                i == start_motion ==> look == (Vec2Fx { x: 0, y: 0 }),
                i > start_motion ==> look == motion@[i - 1],
            decreases motion@.len() - i,
        {
            look = motion[i];
            i = i + 1;
        }
        self.motion_cursor = motion.len();

        let start_wheel: usize = self.wheel_cursor;
        let mut zoom_delta: i64 = 0;
        let mut j: usize = start_wheel;
        while j < wheel.len()
            invariant
                start_wheel <= j <= wheel@.len(),
                j == start_wheel ==> zoom_delta == 0,
                j > start_wheel ==> zoom_delta == wheel@[j - 1],
            decreases wheel@.len() - j,
        {
            zoom_delta = wheel[j];
            j = j + 1;
        }
        self.wheel_cursor = wheel.len();

        (look, zoom_delta)
    }
}

} // verus!
