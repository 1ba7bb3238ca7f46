use vstd::prelude::*;

verus! {

/// How many frame times the rolling average keeps.
pub const SAMPLE_COUNT: usize = 5;

/// Preferred frame time before any is set: 1_000_000 / 60 microseconds,
/// truncated.
pub const DEFAULT_FRAME_TIME_MICROS: u32 = 16666;

pub const NANOS_PER_MICRO: u64 = 1000;

pub const NANOS_PER_SECOND: u64 = 1_000_000_000;

/// The microseconds part of a duration given in nanoseconds, whole seconds
/// left out.
pub open spec fn subsec_micros(nanos: nat) -> nat {
    (nanos % (NANOS_PER_SECOND as nat)) / (NANOS_PER_MICRO as nat)
}

/// `a + b`, held at the largest `u64`.
pub open spec fn saturating_sum(a: nat, b: nat) -> nat {
    if a + b > u64::MAX {
        u64::MAX as nat
    } else {
        a + b
    }
}

/// Sum of a sequence of samples.
pub open spec fn total(s: Seq<u32>) -> nat
    decreases s.len(),
{
    if s.len() == 0 {
        0
    } else {
        total(s.drop_last()) + s.last() as nat
    }
}

/// A limiter as a mathematical value.
pub struct LimiterView {
    pub frame_time_prefer: nat,
    pub samples: Seq<u32>,
    pub current_frame: nat,
    pub delta_frame: nat,
    pub lag_nanos: nat,
}

impl LimiterView {
    pub open spec fn wf(self) -> bool {
        &&& self.frame_time_prefer > 0
        &&& self.samples.len() == SAMPLE_COUNT
        &&& self.current_frame < SAMPLE_COUNT
        &&& self.lag_nanos <= u64::MAX
    }
}

/// What one pacing round asks of the caller: run the update this many times,
/// then sleep this long.
#[derive(Clone, Copy, Debug, PartialEq, Eq, Structural)]
pub struct UpdatePlan {
    pub updates: u64,
    pub sleep_nanos: u64,
}

/// Fixed-step frame pacing: the time between frames, a rolling window of
/// the last frame times, and the lag that fixed-step updates have not yet
/// consumed. The clock lives with the caller, which reports elapsed time.
pub struct FPSLimiter {
    frame_time_prefer: u32,
    samples: [u32; SAMPLE_COUNT],
    current_frame: usize,
    delta_frame: u32,
    lag_nanos: u64,
}

impl View for FPSLimiter {
    type V = LimiterView;

    closed spec fn view(&self) -> LimiterView {
        LimiterView {
            frame_time_prefer: self.frame_time_prefer as nat,
            samples: self.samples@,
            current_frame: self.current_frame as nat,
            delta_frame: self.delta_frame as nat,
            lag_nanos: self.lag_nanos as nat,
        }
    }
}

impl FPSLimiter {
    /// A limiter aiming at 60 frames a second, with no samples and no lag.
    pub fn new() -> (r: FPSLimiter)
        ensures
            r@.wf(),
            r@ == (LimiterView {
                frame_time_prefer: DEFAULT_FRAME_TIME_MICROS as nat,
                samples: seq![0u32, 0u32, 0u32, 0u32, 0u32],
                current_frame: 0,
                delta_frame: 0,
                lag_nanos: 0,
            }),
    {
        let r = FPSLimiter {
            frame_time_prefer: DEFAULT_FRAME_TIME_MICROS,
            samples: [0u32, 0u32, 0u32, 0u32, 0u32],
            current_frame: 0,
            delta_frame: 0,
            lag_nanos: 0,
        };
        assert(r@.samples =~= seq![0u32, 0u32, 0u32, 0u32, 0u32]);
        r
    }

    /// Sets the preferred time between frames, in microseconds.
    pub fn set_frame_time_prefer(&mut self, micros: u32)
        requires
            old(self)@.wf(),
            micros > 0,
        ensures
            final(self)@.wf(),
            final(self)@ == (LimiterView { frame_time_prefer: micros as nat, ..old(self)@ }),
    {
        self.frame_time_prefer = micros;
    }

    /// Records a frame that took `elapsed_nanos` since the previous one:
    /// the lag grows by it (saturating), the frame time is its microseconds
    /// part, and that time replaces the oldest sample.
    pub fn tick_frame(&mut self, elapsed_nanos: u64)
        requires
            old(self)@.wf(),
        ensures
            final(self)@.wf(),
            final(self)@.frame_time_prefer == old(self)@.frame_time_prefer,
            final(self)@.lag_nanos == saturating_sum(old(self)@.lag_nanos, elapsed_nanos as nat),
            final(self)@.delta_frame == subsec_micros(elapsed_nanos as nat),
            final(self)@.samples == old(self)@.samples.update(
                old(self)@.current_frame as int,
                subsec_micros(elapsed_nanos as nat) as u32,
            ),
            final(self)@.current_frame == (old(self)@.current_frame + 1) % (SAMPLE_COUNT as nat),
    {
        self.lag_nanos = self.lag_nanos.saturating_add(elapsed_nanos);
        self.delta_frame = ((elapsed_nanos % NANOS_PER_SECOND) / NANOS_PER_MICRO) as u32;
        self.samples[self.current_frame] = self.delta_frame;
        self.current_frame = (self.current_frame + 1) % SAMPLE_COUNT;
    }

    /// Consumes the lag in whole fixed steps of the preferred frame time: the
    /// plan runs one update per step and then sleeps for the rest of a step.
    pub fn catch_up(&mut self) -> (r: UpdatePlan)
        requires
            old(self)@.wf(),
        ensures
            final(self)@.wf(),
            ({
                let step: nat = old(self)@.frame_time_prefer * (NANOS_PER_MICRO as nat);
                &&& r.updates == old(self)@.lag_nanos / step
                &&& final(self)@ == (LimiterView { lag_nanos: old(self)@.lag_nanos % step, ..old(self)@ })
                &&& r.sleep_nanos == step - final(self)@.lag_nanos
            }),
    {
        let step: u64 = (self.frame_time_prefer as u64) * NANOS_PER_MICRO;
        let updates = self.lag_nanos / step;
        self.lag_nanos = self.lag_nanos % step;
        UpdatePlan { updates: updates, sleep_nanos: step - self.lag_nanos }
    }

    /// The sum of the recorded frame times, in microseconds.
    pub fn frame_time_sum(&self) -> (r: u64)
        requires
            self@.wf(),
        ensures
            r as nat == total(self@.samples),
    {
        let mut sum: u64 = 0;
        let mut i: usize = 0;
        while i < SAMPLE_COUNT
            invariant
                i <= SAMPLE_COUNT,
                self@.samples.len() == SAMPLE_COUNT,
                sum as nat == total(self@.samples.subrange(0, i as int)),
                sum <= i * (u32::MAX as nat),
            decreases SAMPLE_COUNT - i,
        {
            assert(self@.samples.subrange(0, i + 1).drop_last() =~= self@.samples.subrange(0, i as int));
            sum = sum + self.samples[i] as u64;
            i = i + 1;
        }
        assert(self@.samples.subrange(0, SAMPLE_COUNT as int) =~= self@.samples);
        sum
    }

    /// Microseconds part of the last frame's duration.
    pub fn delta_frame(&self) -> (r: u32)
        ensures
            r as nat == self@.delta_frame,
    {
        self.delta_frame
    }

    /// The preferred time between frames, in microseconds.
    pub fn frame_time_prefer(&self) -> (r: u32)
        ensures
            r as nat == self@.frame_time_prefer,
    {
        self.frame_time_prefer
    }
}

} // verus!
