use vstd::prelude::*;
use vstd::arithmetic::power::pow;

use crate::command::{Command, RepeatPolicy, SeekStep, SpeedStep};

verus! {

/// The state of an animation player, in exact arithmetic.
///
/// Speed is kept as the number of speed-ups and slow-downs applied since the
/// player was made: the speed is then the starting speed times
/// `6^faster * 4^slower / 5^(faster + slower)`, with no rounding.
pub struct PlayerState {
    pub paused: bool,
    pub faster: nat,
    pub slower: nat,
    pub seek_ms: int,
    pub repeat: RepeatPolicy,
    pub clip: Option<nat>,
    pub transition_ms: nat,
}

impl PlayerState {
    /// Numerator of the speed as a multiple of the starting speed.
    pub open spec fn speed_num(self) -> int {
        pow(6, self.faster) * pow(4, self.slower)
    }

    /// Denominator of the speed as a multiple of the starting speed.
    pub open spec fn speed_den(self) -> int {
        pow(5, self.faster + self.slower)
    }
}

/// The player state after `c`. Starting a clip, and restarting one, puts the
/// playback position at time 0.
pub open spec fn apply(s: PlayerState, c: Command) -> PlayerState {
    match c {
        Command::Pause => PlayerState { paused: true, ..s },
        Command::Resume => PlayerState { paused: false, ..s },
        Command::ScaleSpeed(SpeedStep::Faster) => PlayerState { faster: s.faster + 1, ..s },
        Command::ScaleSpeed(SpeedStep::Slower) => PlayerState { slower: s.slower + 1, ..s },
        Command::Seek(step) => PlayerState { seek_ms: s.seek_ms + step.delta_spec(), ..s },
        Command::Play { clip, transition_ms } => PlayerState {
            clip: Some(clip as nat),
            transition_ms: transition_ms as nat,
            seek_ms: 0,
            ..s
        },
        Command::SetRepeat(p) => PlayerState { repeat: p, ..s },
        Command::Replay => PlayerState { seek_ms: 0, ..s },
    }
}

/// The player state after each of `cs`, in order.
pub open spec fn apply_all(s: PlayerState, cs: Seq<Command>) -> PlayerState
    decreases cs.len(),
{
    if cs.len() == 0 {
        s
    } else {
        apply(apply_all(s, cs.drop_last()), cs.last())
    }
}

/// Whether `s` can take `n` more commands without a counter leaving the
/// machine integers that hold it.
pub open spec fn has_room(s: PlayerState, n: nat) -> bool {
    &&& i64::MIN + 100 * n <= s.seek_ms <= i64::MAX - 100 * n
    &&& s.faster + n <= u64::MAX
    &&& s.slower + n <= u64::MAX
}

/// Applying two runs of commands one after the other is applying the
/// concatenated run.
pub proof fn lemma_apply_all_concat(s: PlayerState, a: Seq<Command>, b: Seq<Command>)
    ensures
        apply_all(s, a + b) == apply_all(apply_all(s, a), b),
    decreases b.len(),
{
    if b.len() == 0 {
        assert(a + b =~= a);
    } else {
        lemma_apply_all_concat(s, a, b.drop_last());
        assert((a + b).drop_last() =~= a + b.drop_last());
    }
}

/// A model of an animation player: what the controller's commands do to it,
/// in integers where the engine uses floating point.
pub struct PlayerModel {
    paused: bool,
    faster: u64,
    slower: u64,
    seek_ms: i64,
    repeat: RepeatPolicy,
    clip: Option<usize>,
    transition_ms: u64,
}

impl View for PlayerModel {
    type V = PlayerState;

    closed spec fn view(&self) -> PlayerState {
        PlayerState {
            paused: self.paused,
            faster: self.faster as nat,
            slower: self.slower as nat,
            seek_ms: self.seek_ms as int,
            repeat: self.repeat,
            clip: match self.clip {
                Some(c) => Some(c as nat),
                None => None,
            },
            transition_ms: self.transition_ms as nat,
        }
    }
}

/// The state of a player that the engine has just made: running, at its
/// starting speed and at time 0, with no clip, set to play once.
pub open spec fn fresh_state() -> PlayerState {
    PlayerState {
        paused: false,
        faster: 0,
        slower: 0,
        seek_ms: 0,
        repeat: RepeatPolicy::Count(1),
        clip: None,
        transition_ms: 0,
    }
}

impl PlayerModel {
    pub fn new() -> (r: PlayerModel)
        ensures
            r@ == fresh_state(),
    {
        PlayerModel {
            paused: false,
            faster: 0,
            slower: 0,
            seek_ms: 0,
            repeat: RepeatPolicy::Count(1),
            clip: None,
            transition_ms: 0,
        }
    }

    /// Carries out one command.
    pub fn apply(&mut self, c: &Command)
        requires
            has_room(old(self)@, 1),
        ensures
            final(self)@ == apply(old(self)@, *c),
    {
        match c {
            Command::Pause => self.paused = true,
            Command::Resume => self.paused = false,
            Command::ScaleSpeed(SpeedStep::Faster) => self.faster = self.faster + 1,
            Command::ScaleSpeed(SpeedStep::Slower) => self.slower = self.slower + 1,
            Command::Seek(step) => self.seek_ms = self.seek_ms + step.delta_ms(),
            Command::Play { clip, transition_ms } => {
                self.clip = Some(*clip);
                self.transition_ms = *transition_ms;
                self.seek_ms = 0;
            },
            Command::SetRepeat(p) => self.repeat = *p,
            Command::Replay => self.seek_ms = 0,
        }
    }

    /// Carries out `cs` in order.
    pub fn apply_all(&mut self, cs: &Vec<Command>)
        requires
            has_room(old(self)@, cs@.len()),
        ensures
            final(self)@ == apply_all(old(self)@, cs@),
    {
        let ghost s0 = self@;
        let n = cs.len();
        let mut i: usize = 0;
        while i < n
            invariant
                n == cs@.len(),
                i <= n,
                self@ == apply_all(s0, cs@.take(i as int)),
                has_room(self@, (n - i) as nat),
            decreases n - i,
        {
            self.apply(&cs[i]);
            assert(cs@.take(i as int + 1).drop_last() =~= cs@.take(i as int));
            i = i + 1;
        }
        assert(cs@.take(n as int) =~= cs@);
    }

    pub fn is_paused(&self) -> (r: bool)
        ensures
            r == self@.paused,
    {
        self.paused
    }

    /// How many times the speed was raised.
    pub fn faster_steps(&self) -> (r: u64)
        ensures
            r == self@.faster,
    {
        self.faster
    }

    /// How many times the speed was lowered.
    pub fn slower_steps(&self) -> (r: u64)
        ensures
            r == self@.slower,
    {
        self.slower
    }

    /// The playback position in milliseconds; it may be negative.
    pub fn seek_ms(&self) -> (r: i64)
        ensures
            r == self@.seek_ms,
    {
        self.seek_ms
    }

    pub fn repeat(&self) -> (r: RepeatPolicy)
        ensures
            r == self@.repeat,
    {
        self.repeat
    }

    /// Registry index of the clip being played, if one was started.
    pub fn clip(&self) -> (r: Option<usize>)
        ensures
            r matches Some(c) ==> self@.clip == Some(c as nat),
            r is None ==> self@.clip is None,
    {
        self.clip
    }

    /// Blending time of the last clip start, in milliseconds.
    pub fn transition_ms(&self) -> (r: u64)
        ensures
            r == self@.transition_ms,
    {
        self.transition_ms
    }
}

} // verus!
