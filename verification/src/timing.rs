//! Frame timing: when the last frame was drawn, and how many frames were
//! drawn in the current reporting window.
//!
//! Every time is a whole number of milliseconds since the loop started, read
//! from a clock that never runs backwards.

use vstd::prelude::*;

verus! {

/// Length of the reporting window of a new timing state, in milliseconds.
pub const REPORT_INTERVAL_MS: u128 = 1000;

/// The throughput measured over one reporting window.
#[derive(Clone, Copy, Debug, PartialEq, Eq, Structural)]
pub struct FpsReport {
    /// Frames drawn in the window.
    pub frames: u32,
    /// Length of the window in milliseconds.
    pub window_ms: u128,
}

/// The rate of `frames` frames in `window_ms` milliseconds, in thousandths
/// of a frame per second, rounded down.
pub open spec fn rate_milli(frames: int, window_ms: int) -> int {
    frames * 1_000_000 / window_ms
}

impl FpsReport {
    /// The measured rate in thousandths of a frame per second, rounded down.
    /// A window of no length has no rate.
    pub fn rate_milli(&self) -> (rate: Option<u64>)
        ensures
            rate == (if self.window_ms == 0 {
                None
            } else {
                Some(rate_milli(self.frames as int, self.window_ms as int) as u64)
            }),
            rate matches Some(r) ==> r == rate_milli(self.frames as int, self.window_ms as int),
    {
        if self.window_ms == 0 {
            None
        } else {
            let scaled: u128 = (self.frames as u128) * 1_000_000;
            let rate: u128 = scaled / self.window_ms;
            assert(rate <= scaled) by (nonlinear_arith)
                requires
                    rate == scaled / self.window_ms,
                    self.window_ms > 0,
            ;
            Some(rate as u64)
        }
    }
}

/// What a timing state is, as mathematics.
pub struct TimingModel {
    /// Frames drawn since the reporting window opened.
    pub frame_rendered_count: int,
    /// When the reporting window opened.
    pub fps_start_at: int,
    /// When the last frame was drawn.
    pub last_frame_at: int,
    /// A report is due once the window is longer than this.
    pub report_interval: int,
}

impl TimingModel {
    /// The window opened no later than the last frame was drawn.
    pub open spec fn wf(self) -> bool {
        &&& 0 <= self.frame_rendered_count <= u32::MAX
        &&& 0 <= self.fps_start_at <= self.last_frame_at <= u128::MAX
        &&& 0 <= self.report_interval <= u128::MAX
    }

    /// The timing state at the start of the loop.
    pub open spec fn initial(report_interval: int) -> TimingModel {
        TimingModel { frame_rendered_count: 0, fps_start_at: 0, last_frame_at: 0, report_interval }
    }

    /// Whether a frame can be recorded at `game_time`: the reporting window
    /// has opened by then and the frame counter has room for one more.
    pub open spec fn can_record(self, game_time: int) -> bool {
        &&& self.fps_start_at <= game_time
        &&& self.frame_rendered_count < u32::MAX
    }

    /// Whether the time since the last frame can be measured at
    /// `game_time`: the clock has not run backwards since.
    pub open spec fn can_measure(self, game_time: int) -> bool {
        self.last_frame_at <= game_time
    }

    /// Milliseconds between the last frame and `game_time`.
    pub open spec fn frame_time(self, game_time: int) -> int {
        game_time - self.last_frame_at
    }

    /// Whether the frame drawn at `game_time` closes the reporting window.
    pub open spec fn report_due(self, game_time: int) -> bool {
        game_time - self.fps_start_at > self.report_interval
    }

    /// The report that the frame drawn at `game_time` gives rise to: once
    /// the window is longer than the interval, the frames counted in it,
    /// this one included, and its length.
    pub open spec fn report(self, game_time: int) -> Option<FpsReport> {
        if self.report_due(game_time) {
            Some(
                FpsReport {
                    frames: (self.frame_rendered_count + 1) as u32,
                    window_ms: (game_time - self.fps_start_at) as u128,
                },
            )
        } else {
            None
        }
    }

    /// The timing state after a frame was drawn at `game_time`: the frame is
    /// counted, and where a report is due the counter starts again from zero
    /// in a window that opens at `game_time`.
    pub open spec fn record_frame(self, game_time: int) -> TimingModel {
        if self.report_due(game_time) {
            TimingModel {
                frame_rendered_count: 0,
                fps_start_at: game_time,
                last_frame_at: game_time,
                ..self
            }
        } else {
            TimingModel {
                frame_rendered_count: self.frame_rendered_count + 1,
                last_frame_at: game_time,
                ..self
            }
        }
    }
}

/// The frame that closes a reporting window gives exactly one report: the
/// frames counted in the window, that frame included, and the window's
/// length, whose quotient is the rate in frames per second. Then the count
/// starts again. Every other frame gives no report and is counted.
pub proof fn lemma_report_is_frames_over_window(t: TimingModel, game_time: int)
    requires
        t.wf(),
        t.can_record(game_time),
        game_time <= u128::MAX,
    ensures
        t.report_due(game_time) <==> game_time - t.fps_start_at > t.report_interval,
        t.report_due(game_time) ==> t.report(game_time) is Some,
        t.report(game_time) matches Some(r) ==> r.frames == t.frame_rendered_count + 1
            && r.window_ms == game_time - t.fps_start_at && r.window_ms > 0 && rate_milli(
            r.frames as int,
            r.window_ms as int,
        ) == (t.frame_rendered_count + 1) * 1_000_000 / (game_time - t.fps_start_at),
        t.report_due(game_time) ==> t.record_frame(game_time).frame_rendered_count == 0
            && t.record_frame(game_time).fps_start_at == game_time,
        !t.report_due(game_time) ==> t.report(game_time) is None && t.record_frame(
            game_time,
        ).frame_rendered_count == t.frame_rendered_count + 1 && t.record_frame(
            game_time,
        ).fps_start_at == t.fps_start_at,
        t.record_frame(game_time).wf(),
{
}

/// Timestamps and frame counter of the loop.
pub struct FrameTiming {
    frame_rendered_count: u32,
    fps_start_at: u128,
    last_frame_at: u128,
    report_interval: u128,
}

impl View for FrameTiming {
    type V = TimingModel;

    closed spec fn view(&self) -> TimingModel {
        TimingModel {
            frame_rendered_count: self.frame_rendered_count as int,
            fps_start_at: self.fps_start_at as int,
            last_frame_at: self.last_frame_at as int,
            report_interval: self.report_interval as int,
        }
    }
}

impl FrameTiming {
    /// Every value of this type is well formed.
    #[verifier::type_invariant]
    pub open spec fn inv(&self) -> bool {
        self@.wf()
    }

    /// The timing state at the start of the loop, reporting whenever more
    /// than `report_interval` milliseconds have passed.
    pub fn new(report_interval: u128) -> (t: FrameTiming)
        ensures
            t@ == TimingModel::initial(report_interval as int),
            t@.wf(),
    {
        FrameTiming { frame_rendered_count: 0, fps_start_at: 0, last_frame_at: 0, report_interval }
    }

    /// Whether a frame can be recorded at `game_time`.
    pub fn can_record(&self, game_time: u128) -> (ok: bool)
        ensures
            ok == self@.can_record(game_time as int),
    {
        self.fps_start_at <= game_time && self.frame_rendered_count < u32::MAX
    }

    /// Whether the time since the last frame can be measured at `game_time`.
    pub fn can_measure(&self, game_time: u128) -> (ok: bool)
        ensures
            ok == self@.can_measure(game_time as int),
    {
        self.last_frame_at <= game_time
    }

    /// Milliseconds between the last frame and `game_time`.
    pub fn frame_time(&self, game_time: u128) -> (elapsed: u128)
        requires
            self@.can_measure(game_time as int),
        ensures
            elapsed == self@.frame_time(game_time as int),
    {
        game_time - self.last_frame_at
    }

    /// Records that a frame was drawn at `game_time` and returns the report
    /// that is due, if one is.
    pub fn record_frame(&mut self, game_time: u128) -> (report: Option<FpsReport>)
        requires
            old(self)@.can_record(game_time as int),
        ensures
            final(self)@ == old(self)@.record_frame(game_time as int),
            report == old(self)@.report(game_time as int),
            report matches Some(r) ==> r.frames >= 1 && r.window_ms > old(self)@.report_interval,
            final(self)@.wf(),
    {
        proof {
            use_type_invariant(&*self);
        }
        let frames: u32 = self.frame_rendered_count + 1;
        let window_ms: u128 = game_time - self.fps_start_at;
        self.last_frame_at = game_time;
        if window_ms > self.report_interval {
            self.fps_start_at = game_time;
            self.frame_rendered_count = 0;
            Some(FpsReport { frames, window_ms })
        } else {
            self.frame_rendered_count = frames;
            None
        }
    }

    /// Frames drawn since the reporting window opened.
    pub fn frame_rendered_count(&self) -> (n: u32)
        ensures
            n == self@.frame_rendered_count,
    {
        self.frame_rendered_count
    }

    /// When the reporting window opened.
    pub fn fps_start_at(&self) -> (t: u128)
        ensures
            t == self@.fps_start_at,
            t <= self@.last_frame_at,
    {
        proof {
            use_type_invariant(self);
        }
        self.fps_start_at
    }

    /// When the last frame was drawn.
    pub fn last_frame_at(&self) -> (t: u128)
        ensures
            t == self@.last_frame_at,
    {
        self.last_frame_at
    }

    /// The length that the reporting window must exceed.
    pub fn report_interval(&self) -> (t: u128)
        ensures
            t == self@.report_interval,
    {
        self.report_interval
    }
}

} // verus!
