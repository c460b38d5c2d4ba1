use vstd::prelude::*;

verus! {

/// The instant the current frame began, as a reading of a monotonic clock in
/// nanoseconds. The caller reads the clock and hands the reading in, so every
/// result here is a function of the readings it was given.
#[derive(Clone, Copy, Debug)]
pub struct FrameStart {
    start_nanos: u64,
}

impl View for FrameStart {
    type V = u64;

    closed spec fn view(&self) -> u64 {
        self.start_nanos
    }
}

/// The time from `start` to `now`, or zero if `now` reads earlier than
/// `start`: the clock is trusted to be monotonic, and a reading that is not
/// must not wrap.
pub open spec fn elapsed_between(start: u64, now: u64) -> u64 {
    if now >= start {
        (now - start) as u64
    } else {
        0
    }
}

impl FrameStart {
    /// A frame that begins at the clock reading `now_nanos`.
    pub fn now(now_nanos: u64) -> (r: FrameStart)
        ensures
            r@ == now_nanos,
    {
        FrameStart { start_nanos: now_nanos }
    }

    /// The reading at which the frame began.
    pub fn start_nanos(&self) -> (r: u64)
        ensures
            r == self@,
    {
        self.start_nanos
    }

    /// The time since the frame began, at the clock reading `now_nanos`.
    pub fn elapsed(&self, now_nanos: u64) -> (r: u64)
        ensures
            r == elapsed_between(self@, now_nanos),
    {
        if now_nanos >= self.start_nanos {
            now_nanos - self.start_nanos
        } else {
            0
        }
    }

    /// Marks the clock reading `now_nanos` as the start of a new frame,
    /// replacing the previous one.
    pub fn set_now(&mut self, now_nanos: u64)
        ensures
            final(self)@ == now_nanos,
    {
        self.start_nanos = now_nanos;
    }
}

/// A nanosecond count narrowed to 64 bits, saturating rather than wrapping.
pub fn saturate_nanos(nanos: u128) -> (r: u64)
    ensures
        r == if nanos > u64::MAX {
            u64::MAX as int
        } else {
            nanos as int
        },
{
    if nanos > u64::MAX as u128 {
        u64::MAX
    } else {
        nanos as u64
    }
}

/// Right after a frame start is recorded, no time has elapsed; afterwards the
/// elapsed time is the distance between the two readings, never negative, and
/// grows with later readings.
pub proof fn lemma_elapsed_since_start(start: u64, now: u64, later: u64)
    requires
        start <= now <= later,
    ensures
        elapsed_between(start, start) == 0,
        elapsed_between(start, now) == now - start,
        elapsed_between(start, now) <= elapsed_between(start, later),
{
}

} // verus!
