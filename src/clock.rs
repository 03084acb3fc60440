//! The tick clock shared by every binding of a loop.
use vstd::prelude::*;

verus! {

/// The time of the current tick and of the tick before it.
///
/// The host loop advances it once per iteration, before any binding is
/// queried. Times are integers in a unit that the host chooses.
pub struct Clock {
    current: i64,
    previous: i64,
}

impl Clock {
    /// Time of the current tick.
    pub closed spec fn now(&self) -> int {
        self.current as int
    }

    /// Time of the tick before the current one.
    pub closed spec fn before(&self) -> int {
        self.previous as int
    }

    /// A clock at time zero, whose previous tick is also at time zero.
    pub fn new() -> (r: Clock)
        ensures
            r.now() == 0,
            r.before() == 0,
    {
        Clock { current: 0, previous: 0 }
    }

    /// Moves to a new tick at `time`: the current time becomes the previous one.
    pub fn advance(&mut self, time: i64)
        ensures
            final(self).now() == time,
            final(self).before() == old(self).now(),
    {
        self.previous = self.current;
        self.current = time;
    }

    /// Time of the current tick.
    pub fn current(&self) -> (r: i64)
        ensures
            r == self.now(),
    {
        self.current
    }

    /// Time of the tick before the current one.
    pub fn previous(&self) -> (r: i64)
        ensures
            r == self.before(),
    {
        self.previous
    }
}

impl Default for Clock {
    fn default() -> (r: Clock)
        ensures
            r.now() == 0,
            r.before() == 0,
    {
        Clock::new()
    }
}

/// What the host loop calls once per iteration to move the shared clock on.
pub trait ContextExt {
    /// Time of the current tick.
    spec fn frame_time(&self) -> int;

    /// Time of the tick before the current one.
    spec fn last_frame_time(&self) -> int;

    /// Records that a new tick has started at `time`.
    fn loop_handle(&mut self, time: i64)
        ensures
            final(self).frame_time() == time,
            final(self).last_frame_time() == old(self).frame_time(),
    ;
}

impl ContextExt for Clock {
    open spec fn frame_time(&self) -> int {
        self.now()
    }

    open spec fn last_frame_time(&self) -> int {
        self.before()
    }

    fn loop_handle(&mut self, time: i64) {
        self.advance(time);
    }
}

} // verus!
