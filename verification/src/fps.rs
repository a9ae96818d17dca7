use vstd::prelude::*;

verus! {

/// How many recent frame times the counter keeps.
pub const SAMPLE_COUNT: usize = 5;

/// The default frame budget, in microseconds: one sixtieth of a second.
pub const DEFAULT_FRAME_TIME_MICROS: u32 = 16666;

/// A frame-time counter and limiter: it keeps a small ring of recent
/// frame times in microseconds and a preferred frame budget. The clock
/// itself lives with the caller, who hands in each elapsed duration.
pub struct FPSLimiter {
    frame_time_prefer: u32,
    samples: Vec<u32>,
    current_frame: usize,
    delta_frame: u32,
}

impl FPSLimiter {
    /// The preferred frame budget, in microseconds.
    pub closed spec fn spec_frame_time_prefer(self) -> u32 {
        self.frame_time_prefer
    }

    /// The recent frame times, oldest slots overwritten first.
    pub closed spec fn spec_samples(self) -> Seq<u32> {
        self.samples@
    }

    /// The ring position the next sample lands in.
    pub closed spec fn spec_current_frame(self) -> nat {
        self.current_frame as nat
    }

    /// The last frame's duration, in microseconds.
    pub closed spec fn spec_delta_frame(self) -> u32 {
        self.delta_frame
    }

    /// The counter's invariant: the sample ring has its fixed size and
    /// the cursor stays inside it.
    pub closed spec fn wf(self) -> bool {
        self.samples@.len() == SAMPLE_COUNT && self.current_frame < SAMPLE_COUNT
    }

    /// Starts the counter with an empty ring and the default budget.
    pub fn new() -> (r: FPSLimiter)
        ensures
            r.wf(),
            r.spec_frame_time_prefer() == DEFAULT_FRAME_TIME_MICROS,
            r.spec_samples() =~= seq![0u32, 0u32, 0u32, 0u32, 0u32],
            r.spec_current_frame() == 0,
            r.spec_delta_frame() == 0,
    {
        let mut samples: Vec<u32> = Vec::new();
        samples.push(0);
        samples.push(0);
        samples.push(0);
        samples.push(0);
        samples.push(0);
        proof {
            assert(samples@ =~= seq![0u32, 0u32, 0u32, 0u32, 0u32]);
        }
        FPSLimiter {
            frame_time_prefer: DEFAULT_FRAME_TIME_MICROS,
            samples,
            current_frame: 0,
            delta_frame: 0,
        }
    }

    /// Records one frame's elapsed time, measured by the caller's clock:
    /// the sample overwrites the oldest ring slot and the cursor advances.
    pub fn tick_frame(&mut self, delta_micros: u32)
        requires
            old(self).wf(),
        ensures
            final(self).wf(),
            final(self).spec_delta_frame() == delta_micros,
            final(self).spec_samples() == old(self).spec_samples().update(
                old(self).spec_current_frame() as int,
                delta_micros,
            ),
            final(self).spec_current_frame() == (old(self).spec_current_frame() + 1)
                % (SAMPLE_COUNT as nat),
            final(self).spec_frame_time_prefer() == old(self).spec_frame_time_prefer(),
    {
        self.delta_frame = delta_micros;
        let cur = self.current_frame;
        self.samples[cur] = delta_micros;
        self.current_frame = (cur + 1) % SAMPLE_COUNT;
    }

    /// Sets the preferred frame budget from a whole frames-per-second
    /// target.
    pub fn set_prefer_fps(&mut self, prefer_fps: u32)
        requires
            old(self).wf(),
            prefer_fps > 0,
        ensures
            final(self).wf(),
            final(self).spec_frame_time_prefer() == 1_000_000u32 / prefer_fps,
            final(self).spec_samples() == old(self).spec_samples(),
            final(self).spec_current_frame() == old(self).spec_current_frame(),
            final(self).spec_delta_frame() == old(self).spec_delta_frame(),
    {
        self.frame_time_prefer = 1_000_000 / prefer_fps;
    }

    /// How long to sleep to hold the preferred frame rate: the remainder
    /// of the frame budget, zero when the last frame already used it up.
    pub fn keep_fps_delay_micros(&self) -> (r: u32)
        ensures
            r == if self.spec_frame_time_prefer() > self.spec_delta_frame() {
                self.spec_frame_time_prefer() - self.spec_delta_frame()
            } else {
                0int
            },
    {
        if self.frame_time_prefer > self.delta_frame {
            self.frame_time_prefer - self.delta_frame
        } else {
            0
        }
    }

    /// The last frame's duration, in microseconds.
    pub fn delta_micros(&self) -> (r: u32)
        ensures
            r == self.spec_delta_frame(),
    {
        self.delta_frame
    }

    /// The sum of the kept samples, for an average over recent frames.
    pub fn sample_sum_micros(&self) -> (r: u64)
        requires
            self.wf(),
        ensures
            r == self.spec_samples()[0] + self.spec_samples()[1] + self.spec_samples()[2]
                + self.spec_samples()[3] + self.spec_samples()[4],
    {
        self.samples[0] as u64 + self.samples[1] as u64 + self.samples[2] as u64 + self.samples[3]
            as u64 + self.samples[4] as u64
    }
}

} // verus!
