use vstd::prelude::*;

use crate::command::{Command, RepeatPolicy, SeekStep, SpeedStep, CROSSFADE_MS};
use crate::input::KeyPresses;

verus! {

/// Registry index of the clip that a newly loaded player starts with.
pub const DEFAULT_CLIP: usize = 2;

/// `s` when `b` holds, nothing otherwise.
pub open spec fn when(b: bool, s: Seq<Command>) -> Seq<Command> {
    if b {
        s
    } else {
        seq![]
    }
}

/// Where the clip cursor stands after a frame with `keys`.
pub open spec fn next_cursor(cursor: nat, keys: KeyPresses, clip_count: nat) -> nat {
    if keys.enter {
        ((cursor + 1) % clip_count) as nat
    } else {
        cursor
    }
}

/// The commands for one player in a frame with `keys`, in the order in which
/// the keys are checked: Space, Up, Down, Left, Right, Enter, 1, 3, 5, L.
/// `paused` is the player's state at the start of the frame and `next` the
/// cursor after the frame.
pub open spec fn commands_for(keys: KeyPresses, paused: bool, next: nat) -> Seq<Command> {
    when(keys.space, seq![if paused { Command::Resume } else { Command::Pause }])
        + when(keys.up, seq![Command::ScaleSpeed(SpeedStep::Faster)])
        + when(keys.down, seq![Command::ScaleSpeed(SpeedStep::Slower)])
        + when(keys.left, seq![Command::Seek(SeekStep::Back)])
        + when(keys.right, seq![Command::Seek(SeekStep::Forward)])
        + when(
        keys.enter,
        seq![
            Command::Play { clip: next as usize, transition_ms: CROSSFADE_MS },
            Command::SetRepeat(RepeatPolicy::Forever),
        ],
    ) + when(keys.digit1, seq![Command::SetRepeat(RepeatPolicy::Count(1)), Command::Replay])
        + when(keys.digit3, seq![Command::SetRepeat(RepeatPolicy::Count(3)), Command::Replay])
        + when(keys.digit5, seq![Command::SetRepeat(RepeatPolicy::Count(5)), Command::Replay])
        + when(keys.key_l, seq![Command::SetRepeat(RepeatPolicy::Forever)])
}

/// The commands that start a newly loaded player: the default clip, with no
/// blending, looped.
pub open spec fn startup_spec() -> Seq<Command> {
    seq![
        Command::Play { clip: DEFAULT_CLIP, transition_ms: 0 },
        Command::SetRepeat(RepeatPolicy::Forever),
    ]
}

/// Commands for a player that has just been created.
///
/// The registry must hold the default clip: with fewer clips there is nothing
/// to start.
pub fn startup_commands(clip_count: usize) -> (r: Vec<Command>)
    requires
        clip_count > DEFAULT_CLIP,
    ensures
        r@ == startup_spec(),
{
    let r = vec![
        Command::Play { clip: DEFAULT_CLIP, transition_ms: 0 },
        Command::SetRepeat(RepeatPolicy::Forever),
    ];
    assert(r@ =~= startup_spec());
    r
}

/// Appends `c` to `r` when `b` holds.
fn push_when(r: &mut Vec<Command>, b: bool, c: Command)
    ensures
        final(r)@ == old(r)@ + when(b, seq![c]),
{
    if b {
        r.push(c);
    }
    assert(final(r)@ =~= old(r)@ + when(b, seq![c]));
}

/// Appends `c1` then `c2` to `r` when `b` holds.
fn push_pair_when(r: &mut Vec<Command>, b: bool, c1: Command, c2: Command)
    ensures
        final(r)@ == old(r)@ + when(b, seq![c1, c2]),
{
    if b {
        r.push(c1);
        r.push(c2);
    }
    assert(final(r)@ =~= old(r)@ + when(b, seq![c1, c2]));
}

/// Turns the key presses of each frame into player commands.
///
/// The cursor into the clip registry is one for the controller, shared by
/// every player that it drives.
pub struct AnimationController {
    cursor: usize,
}

impl AnimationController {
    pub closed spec fn cursor_spec(&self) -> nat {
        self.cursor as nat
    }

    /// A controller whose cursor is at the first clip.
    pub fn new() -> (r: AnimationController)
        ensures
            r.cursor_spec() == 0,
    {
        AnimationController { cursor: 0 }
    }

    /// Index of the clip that Enter last switched to (0 before any switch).
    pub fn cursor(&self) -> (r: usize)
        ensures
            r == self.cursor_spec(),
    {
        self.cursor
    }

    /// The commands for one player in a frame with `keys`, given whether that
    /// player is paused and how many clips the registry holds.
    ///
    /// Enter moves the cursor to the next clip, wrapping to the first, and
    /// plays it. Each call with Enter moves the cursor once, so players that
    /// share this controller each move it.
    pub fn player_commands(&mut self, keys: &KeyPresses, paused: bool, clip_count: usize) -> (r: Vec<Command>)
        requires
            keys.enter ==> clip_count > 0 && old(self).cursor_spec() < clip_count,
        ensures
            final(self).cursor_spec() == next_cursor(old(self).cursor_spec(), *keys, clip_count as nat),
            r@ == commands_for(*keys, paused, final(self).cursor_spec()),
    {
        let mut r: Vec<Command> = Vec::new();
        let toggle = if paused { Command::Resume } else { Command::Pause };
        push_when(&mut r, keys.space, toggle);
        assert(r@ =~= when(keys.space, seq![toggle]));
        push_when(&mut r, keys.up, Command::ScaleSpeed(SpeedStep::Faster));
        push_when(&mut r, keys.down, Command::ScaleSpeed(SpeedStep::Slower));
        push_when(&mut r, keys.left, Command::Seek(SeekStep::Back));
        push_when(&mut r, keys.right, Command::Seek(SeekStep::Forward));
        if keys.enter {
            self.cursor = (self.cursor + 1) % clip_count;
        }
        push_pair_when(
            &mut r,
            keys.enter,
            Command::Play { clip: self.cursor, transition_ms: CROSSFADE_MS },
            Command::SetRepeat(RepeatPolicy::Forever),
        );
        push_pair_when(&mut r, keys.digit1, Command::SetRepeat(RepeatPolicy::Count(1)), Command::Replay);
        push_pair_when(&mut r, keys.digit3, Command::SetRepeat(RepeatPolicy::Count(3)), Command::Replay);
        push_pair_when(&mut r, keys.digit5, Command::SetRepeat(RepeatPolicy::Count(5)), Command::Replay);
        push_when(&mut r, keys.key_l, Command::SetRepeat(RepeatPolicy::Forever));
        assert(r@ =~= commands_for(*keys, paused, self.cursor_spec()));
        r
    }
}

} // verus!
