use vstd::prelude::*;

verus! {

/// Milliseconds that one seek step moves the playback position.
pub const SEEK_STEP_MS: i64 = 100;

/// Length in milliseconds of the crossfade used when switching clips.
pub const CROSSFADE_MS: u64 = 250;

/// How many times a clip plays before playback stops.
#[derive(Clone, Copy, Debug, PartialEq, Eq, Structural)]
pub enum RepeatPolicy {
    /// Stop after this many cycles.
    Count(u32),
    /// Loop without end.
    Forever,
}

/// A change of playback speed by a fixed factor.
#[derive(Clone, Copy, Debug, PartialEq, Eq, Structural)]
pub enum SpeedStep {
    /// Multiply the speed by 6/5 (that is 1.2).
    Faster,
    /// Multiply the speed by 4/5 (that is 0.8).
    Slower,
}

impl SpeedStep {
    pub open spec fn num_spec(self) -> nat {
        match self {
            SpeedStep::Faster => 6,
            SpeedStep::Slower => 4,
        }
    }

    pub open spec fn den_spec(self) -> nat {
        5
    }

    /// Numerator of the factor that this step applies.
    pub fn numerator(&self) -> (r: u32)
        ensures
            r == self.num_spec(),
    {
        match self {
            SpeedStep::Faster => 6,
            SpeedStep::Slower => 4,
        }
    }

    /// Denominator of the factor that this step applies.
    pub fn denominator(&self) -> (r: u32)
        ensures
            r == self.den_spec(),
    {
        5
    }
}

/// A move of the playback position by one step, with no clamping.
#[derive(Clone, Copy, Debug, PartialEq, Eq, Structural)]
pub enum SeekStep {
    Back,
    Forward,
}

impl SeekStep {
    pub open spec fn delta_spec(self) -> int {
        match self {
            SeekStep::Back => -SEEK_STEP_MS,
            SeekStep::Forward => SEEK_STEP_MS as int,
        }
    }

    /// Signed change of the playback position, in milliseconds.
    pub fn delta_ms(&self) -> (r: i64)
        ensures
            r == self.delta_spec(),
    {
        match self {
            SeekStep::Back => -SEEK_STEP_MS,
            SeekStep::Forward => SEEK_STEP_MS,
        }
    }
}

/// One mutation of an animation player, as the controller decides it.
#[derive(Clone, Copy, Debug, PartialEq, Eq, Structural)]
pub enum Command {
    Pause,
    Resume,
    ScaleSpeed(SpeedStep),
    Seek(SeekStep),
    /// Start the clip at this index of the registry, blending from the
    /// current pose over `transition_ms` milliseconds (0: no blending).
    Play { clip: usize, transition_ms: u64 },
    SetRepeat(RepeatPolicy),
    /// Restart the current clip from its beginning.
    Replay,
}

} // verus!
