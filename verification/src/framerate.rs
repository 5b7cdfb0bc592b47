//! Framerate selectors and their exact (ticks-per-frame, timescale) pairs.
//!
//! Sample durations are kept as integer ticks against a per-track timescale,
//! so even the non-integer broadcast rates stay exact over a long recording.

use vstd::prelude::*;

verus! {

/// A framerate selector. Every variant maps to a fixed
/// (ticks-per-frame, timescale) pair with no failure mode.
#[derive(Copy, Clone, Debug, PartialEq, Eq, Structural)]
pub enum Framerate {
    /// The ~29.97 frames-per-second broadcast rate: 100 ticks per frame
    /// against a timescale of 2997, which is exact.
    NTSC,
    /// 25 frames per second.
    PAL,
    /// 24 frames per second, common for film.
    TwentyFour,
    /// 30 frames per second.
    Thirty,
    /// 60 frames per second.
    Sixty,
    /// A whole-numbered rate; the timescale is the rate times 1000.
    Whole(u32),
    /// An arbitrary pair, for rates none of the other variants cover.
    Custom { ticks_per_frame: u32, timescale: u32 },
}

impl Framerate {
    /// The duration of one frame, in ticks of this framerate's timescale.
    pub open spec fn spec_tpf(self) -> u32 {
        match self {
            Framerate::NTSC => 100u32,
            Framerate::PAL => 1000u32,
            Framerate::TwentyFour => 1000u32,
            Framerate::Thirty => 512u32,
            Framerate::Sixty => 256u32,
            Framerate::Whole(_) => 1000u32,
            Framerate::Custom { ticks_per_frame, .. } => ticks_per_frame,
        }
    }

    /// The number of ticks per second for this framerate.
    pub open spec fn spec_timescale(self) -> int {
        match self {
            Framerate::NTSC => 2997,
            Framerate::PAL => 25000,
            Framerate::TwentyFour => 24000,
            Framerate::Thirty => 15360,
            Framerate::Sixty => 15360,
            Framerate::Whole(n) => n * 1000,
            Framerate::Custom { timescale, .. } => timescale as int,
        }
    }

    /// A `Whole` rate must keep its timescale representable in 32 bits.
    pub open spec fn wf(self) -> bool {
        match self {
            Framerate::Whole(n) => n * 1000 <= u32::MAX,
            _ => true,
        }
    }

    /// Ticks per frame.
    pub fn tpf(&self) -> (r: u32)
        ensures
            r == self.spec_tpf(),
    {
        match self {
            Framerate::NTSC => 100,
            Framerate::PAL => 1000,
            Framerate::TwentyFour => 1000,
            Framerate::Thirty => 512,
            Framerate::Sixty => 256,
            Framerate::Whole(_) => 1000,
            Framerate::Custom { ticks_per_frame, .. } => *ticks_per_frame,
        }
    }

    /// Ticks per second.
    pub fn timescale(&self) -> (r: u32)
        requires
            self.wf(),
        ensures
            r == self.spec_timescale(),
    {
        match self {
            Framerate::NTSC => 2997,
            Framerate::PAL => 25000,
            Framerate::TwentyFour => 24000,
            Framerate::Thirty => 15360,
            Framerate::Sixty => 15360,
            Framerate::Whole(n) => *n * 1000,
            Framerate::Custom { timescale, .. } => *timescale,
        }
    }
}

/// The mapping from a framerate to its pair is a function of the variant
/// alone: equal selectors always yield the same pair.
pub proof fn lemma_framerate_pure(a: Framerate, b: Framerate)
    requires
        a == b,
    ensures
        a.spec_tpf() == b.spec_tpf(),
        a.spec_timescale() == b.spec_timescale(),
{
}

/// A whole-numbered rate's timescale is the rate times 1000.
pub proof fn lemma_whole_timescale(n: u32)
    ensures
        Framerate::Whole(n).spec_timescale() == n * 1000,
        Framerate::Whole(n).spec_tpf() == 1000,
{
}

} // verus!
