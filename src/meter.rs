use vstd::prelude::*;

use crate::settings::GlobalSettings;

verus! {

/// The length of the measurement window: one second.
pub const DEFAULT_WINDOW_NANOS: u64 = 1_000_000_000;

/// Counts frames over a repeating window and keeps the count of the last
/// completed window. The published rate is `latest_frames` per window; it is 0
/// until the first window completes.
#[derive(Clone, Copy, PartialEq, Eq, Debug, Structural)]
pub struct FpsState {
    /// Frames counted in the current window.
    pub frames: u32,
    /// Time accumulated in the current window, in nanoseconds.
    pub window_elapsed_nanos: u64,
    /// The window's length, in nanoseconds.
    pub window_nanos: u64,
    /// Frames counted in the last completed window.
    pub latest_frames: u32,
}

impl FpsState {
    pub open spec fn wf(&self) -> bool {
        0 < self.window_nanos && self.window_elapsed_nanos < self.window_nanos
    }

    /// A meter that has measured nothing yet.
    pub open spec fn is_fresh(&self) -> bool {
        self.frames == 0 && self.window_elapsed_nanos == 0 && self.latest_frames == 0
    }

    /// The meter after one frame that took `delta` nanoseconds. When the window
    /// fills up, its frame count is published, the count restarts and the
    /// overshoot is carried into the next window.
    pub open spec fn tick_of(self, delta: u64) -> FpsState {
        let frames: u32 = if self.frames == u32::MAX {
            u32::MAX
        } else {
            (self.frames + 1) as u32
        };
        let total = self.window_elapsed_nanos + delta;
        if total >= self.window_nanos {
            FpsState {
                frames: 0,
                window_elapsed_nanos: (total % (self.window_nanos as int)) as u64,
                window_nanos: self.window_nanos,
                latest_frames: frames,
            }
        } else {
            FpsState {
                frames,
                window_elapsed_nanos: total as u64,
                window_nanos: self.window_nanos,
                latest_frames: self.latest_frames,
            }
        }
    }

    pub fn new(window_nanos: u64) -> (r: FpsState)
        requires
            window_nanos > 0,
        ensures
            r.wf(),
            r.is_fresh(),
            r.window_nanos == window_nanos,
    {
        FpsState { frames: 0, window_elapsed_nanos: 0, window_nanos, latest_frames: 0 }
    }

    /// Records one rendered frame that took `delta_nanos` since the previous one.
    pub fn tick(&mut self, delta_nanos: u64)
        requires
            old(self).wf(),
        ensures
            *final(self) == old(self).tick_of(delta_nanos),
            final(self).wf(),
            // the published count only changes when a window completes
            old(self).window_elapsed_nanos + delta_nanos < old(self).window_nanos
                ==> final(self).latest_frames == old(self).latest_frames,
    {
        self.frames = self.frames.saturating_add(1);
        let total: u128 = self.window_elapsed_nanos as u128 + delta_nanos as u128;
        if total >= self.window_nanos as u128 {
            self.window_elapsed_nanos = (total % self.window_nanos as u128) as u64;
            self.latest_frames = self.frames;
            self.frames = 0;
        } else {
            self.window_elapsed_nanos = total as u64;
        }
    }

    /// Whether a window has completed, so that the published rate means
    /// something.
    pub fn is_measured(&self) -> (r: bool)
        ensures
            r == (self.latest_frames > 0),
    {
        self.latest_frames > 0
    }

    /// The published rate in thousandths of a frame per second, rounded down.
    pub fn latest_fps_millis(&self) -> (r: u128)
        requires
            self.wf(),
        ensures
            r == self.latest_frames * 1_000_000_000_000 / (self.window_nanos as int),
    {
        proof {
            assert(self.latest_frames * 1_000_000_000_000 <= 0xffff_ffffu32 * 1_000_000_000_000)
                by (nonlinear_arith)
                requires
                    self.latest_frames <= 0xffff_ffffu32,
            ;
        }
        self.latest_frames as u128 * 1_000_000_000_000 / self.window_nanos as u128
    }
}

impl Default for FpsState {
    fn default() -> (r: FpsState)
        ensures
            r.wf(),
            r.is_fresh(),
            r.window_nanos == DEFAULT_WINDOW_NANOS,
    {
        FpsState::new(DEFAULT_WINDOW_NANOS)
    }
}

/// Whether the window title shows the measured rate: only with the debug
/// overlay on, and only once a rate has been measured.
pub fn shows_fps_title(settings: &GlobalSettings, fps: &FpsState) -> (r: bool)
    ensures
        r == (settings.debug_overlay && fps.latest_frames > 0),
{
    settings.debug_overlay && fps.is_measured()
}

/// The sum of a sequence of frame times.
pub open spec fn total_nanos(deltas: Seq<u64>) -> int
    decreases deltas.len(),
{
    if deltas.len() == 0 {
        0
    } else {
        total_nanos(deltas.drop_last()) + deltas.last()
    }
}

/// The meter after one tick per entry of `deltas`, in order.
pub open spec fn fed(meter: FpsState, deltas: Seq<u64>) -> FpsState
    decreases deltas.len(),
{
    if deltas.len() == 0 {
        meter
    } else {
        fed(meter, deltas.drop_last()).tick_of(deltas.last())
    }
}

proof fn lemma_total_prefix_grows(deltas: Seq<u64>, j: int, k: int)
    requires
        0 <= j <= k <= deltas.len(),
    ensures
        total_nanos(deltas.take(j)) <= total_nanos(deltas.take(k)),
    decreases k - j,
{
    if j < k {
        lemma_total_prefix_grows(deltas, j, k - 1);
        assert(deltas.take(k).drop_last() =~= deltas.take(k - 1));
    }
}

proof fn lemma_fed_prefix(meter: FpsState, deltas: Seq<u64>, k: int)
    requires
        meter.wf(),
        meter.is_fresh(),
        0 <= k <= deltas.len() <= u32::MAX,
        total_nanos(deltas.take(k)) < meter.window_nanos,
    ensures
        fed(meter, deltas.take(k)) == (FpsState {
            frames: k as u32,
            window_elapsed_nanos: total_nanos(deltas.take(k)) as u64,
            window_nanos: meter.window_nanos,
            latest_frames: 0,
        }),
    decreases k,
{
    assert(deltas.take(0) =~= Seq::<u64>::empty());
    if k > 0 {
        let prev = deltas.take(k - 1);
        assert(deltas.take(k).drop_last() =~= prev);
        assert(deltas.take(k).last() == deltas[k - 1]);
        lemma_total_prefix_grows(deltas, 0, k - 1);
        lemma_total_prefix_grows(deltas, k - 1, k);
        lemma_fed_prefix(meter, deltas, k - 1);
        assert(total_nanos(deltas.take(k)) == total_nanos(prev) + deltas[k - 1]);
        assert(fed(meter, deltas.take(k)) == fed(meter, prev).tick_of(deltas[k - 1]));
    }
}

/// A fresh meter fed frame times that add up to exactly one window, the last
/// of them being the one that completes it, publishes the number of frames at
/// that last tick, and publishes 0 at every tick before it.
pub proof fn lemma_full_window_publishes_count(meter: FpsState, deltas: Seq<u64>)
    requires
        meter.wf(),
        meter.is_fresh(),
        deltas.len() <= u32::MAX,
        total_nanos(deltas) == meter.window_nanos,
        total_nanos(deltas.drop_last()) < meter.window_nanos,
    ensures
        fed(meter, deltas).latest_frames == deltas.len(),
        fed(meter, deltas).frames == 0,
        forall|k: int| 0 <= k < deltas.len() ==> #[trigger] fed(meter, deltas.take(k)).latest_frames == 0,
{
    let n = deltas.len() as int;
    assert(n > 0);
    assert(deltas.take(n - 1) =~= deltas.drop_last());
    assert forall|k: int| 0 <= k < n implies #[trigger] fed(meter, deltas.take(k)).latest_frames == 0 by {
        lemma_total_prefix_grows(deltas, k, n - 1);
        lemma_fed_prefix(meter, deltas, k);
    }
    lemma_fed_prefix(meter, deltas, n - 1);
}

/// A fresh meter fed frame times that stay short of one window publishes
/// nothing, and has counted exactly the frames it was fed.
pub proof fn lemma_partial_window_publishes_nothing(meter: FpsState, deltas: Seq<u64>)
    requires
        meter.wf(),
        meter.is_fresh(),
        deltas.len() <= u32::MAX,
        total_nanos(deltas) < meter.window_nanos,
    ensures
        fed(meter, deltas).latest_frames == 0,
        fed(meter, deltas).frames == deltas.len(),
        fed(meter, deltas).window_elapsed_nanos == total_nanos(deltas),
{
    assert(deltas.take(deltas.len() as int) =~= deltas);
    assert(deltas.take(0) =~= Seq::<u64>::empty());
    lemma_total_prefix_grows(deltas, 0, deltas.len() as int);
    lemma_fed_prefix(meter, deltas, deltas.len() as int);
}

} // verus!
