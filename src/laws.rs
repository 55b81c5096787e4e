use vstd::prelude::*;
use vstd::arithmetic::div_mod::{lemma_add_mod_noop, lemma_small_mod};
use vstd::arithmetic::power::pow;

use crate::command::{Command, RepeatPolicy, SpeedStep, SEEK_STEP_MS};
use crate::controller::{commands_for, next_cursor};
use crate::input::{Key, KeyPresses};
use crate::player::{apply, apply_all, PlayerState};

verus! {

/// The controller's cursor after `frames`, starting from `cursor`.
pub open spec fn cursor_after(cursor: nat, frames: Seq<KeyPresses>, clip_count: nat) -> nat
    decreases frames.len(),
{
    if frames.len() == 0 {
        cursor
    } else {
        next_cursor(cursor_after(cursor, frames.drop_last(), clip_count), frames.last(), clip_count)
    }
}

/// The number of frames in which Enter was pressed.
pub open spec fn enter_count(frames: Seq<KeyPresses>) -> nat
    decreases frames.len(),
{
    if frames.len() == 0 {
        0
    } else {
        enter_count(frames.drop_last()) + if frames.last().enter { 1nat } else { 0nat }
    }
}

/// One frame for a player driven alone by a controller whose cursor is at
/// `cursor`: the commands that the controller hands out, carried out.
pub open spec fn step_frame(s: PlayerState, cursor: nat, keys: KeyPresses, clip_count: nat) -> PlayerState {
    apply_all(s, commands_for(keys, s.paused, next_cursor(cursor, keys, clip_count)))
}

/// A player driven alone through `frames` by a controller that starts at
/// `cursor`.
pub open spec fn run_frames(s: PlayerState, cursor: nat, frames: Seq<KeyPresses>, clip_count: nat) -> PlayerState
    decreases frames.len(),
{
    if frames.len() == 0 {
        s
    } else {
        step_frame(
            run_frames(s, cursor, frames.drop_last(), clip_count),
            cursor_after(cursor, frames.drop_last(), clip_count),
            frames.last(),
            clip_count,
        )
    }
}

/// Number of frames in which Right was pressed, less those in which Left was.
pub open spec fn seek_balance(frames: Seq<KeyPresses>) -> int
    decreases frames.len(),
{
    if frames.len() == 0 {
        0
    } else {
        seek_balance(frames.drop_last()) + (if frames.last().right { 1int } else { 0int }) - (
        if frames.last().left { 1int } else { 0int })
    }
}

proof fn lemma_apply_single(s: PlayerState, c: Command)
    ensures
        apply_all(s, seq![c]) == apply(s, c),
{
    assert(seq![c].drop_last() =~= Seq::<Command>::empty());
    assert(apply_all(s, Seq::<Command>::empty()) == s);
    assert(seq![c].last() == c);
}

proof fn lemma_apply_pair(s: PlayerState, c1: Command, c2: Command)
    ensures
        apply_all(s, seq![c1, c2]) == apply(apply(s, c1), c2),
{
    assert(seq![c1, c2].drop_last() =~= seq![c1]);
    assert(seq![c1, c2].last() == c2);
    lemma_apply_single(s, c1);
}

/// Whether no key but Left and Right is pressed in `keys`.
pub open spec fn seek_keys_only(keys: KeyPresses) -> bool {
    forall|k: Key| k != Key::ArrowLeft && k != Key::ArrowRight ==> !#[trigger] keys.pressed(k)
}

/// From a fresh controller, the cursor after any run of frames is the number
/// of Enter presses modulo the number of clips, and so always a valid index.
pub proof fn law_cursor_counts_enters(frames: Seq<KeyPresses>, clip_count: nat)
    requires
        clip_count > 0,
    ensures
        cursor_after(0, frames, clip_count) == enter_count(frames) % clip_count,
        cursor_after(0, frames, clip_count) < clip_count,
    decreases frames.len(),
{
    if frames.len() > 0 {
        law_cursor_counts_enters(frames.drop_last(), clip_count);
        let e = enter_count(frames.drop_last()) as int;
        lemma_add_mod_noop(e, 1, clip_count as int);
        assert(((e % (clip_count as int)) + 1) % (clip_count as int) == (e + 1) % (clip_count as int)) by {
            if clip_count > 1 {
                lemma_small_mod(1, clip_count);
            }
        }
    }
}

/// A frame with Up and then one with Down leave the speed at exactly 24/25
/// (0.96) of what it was, not at its old value, and change nothing else.
pub proof fn law_up_then_down(s: PlayerState, cursor: nat, up: KeyPresses, down: KeyPresses, clip_count: nat)
    requires
        up.presses_only(Key::ArrowUp),
        down.presses_only(Key::ArrowDown),
    ensures
        ({
            let s2 = step_frame(step_frame(s, cursor, up, clip_count), cursor, down, clip_count);
            &&& s2.speed_num() == 24 * s.speed_num()
            &&& s2.speed_den() == 25 * s.speed_den()
            &&& s2 == PlayerState { faster: s.faster + 1, slower: s.slower + 1, ..s }
        }),
{
    let s1 = step_frame(s, cursor, up, clip_count);
    assert(commands_for(up, s.paused, next_cursor(cursor, up, clip_count)) =~= seq![
        Command::ScaleSpeed(SpeedStep::Faster),
    ]);
    lemma_apply_single(s, Command::ScaleSpeed(SpeedStep::Faster));
    assert(commands_for(down, s1.paused, next_cursor(cursor, down, clip_count)) =~= seq![
        Command::ScaleSpeed(SpeedStep::Slower),
    ]);
    lemma_apply_single(s1, Command::ScaleSpeed(SpeedStep::Slower));
    let s2 = step_frame(s1, cursor, down, clip_count);
    assert(s2 == PlayerState { faster: s.faster + 1, slower: s.slower + 1, ..s });
    reveal(pow);
    assert(pow(6, (s.faster + 1) as nat) == 6 * pow(6, s.faster));
    assert(pow(4, (s.slower + 1) as nat) == 4 * pow(4, s.slower));
    assert(pow(5, s2.faster + s2.slower) == 5 * (5 * pow(5, s.faster + s.slower))) by {
        assert(pow(5, (s.faster + s.slower + 1) as nat) == 5 * pow(5, s.faster + s.slower));
    }
    assert(s2.speed_num() == 24 * s.speed_num()) by (nonlinear_arith)
        requires
            s2.speed_num() == pow(6, s2.faster) * pow(4, s2.slower),
            s.speed_num() == pow(6, s.faster) * pow(4, s.slower),
            pow(6, s2.faster) == 6 * pow(6, s.faster),
            pow(4, s2.slower) == 4 * pow(4, s.slower),
    ;
}

/// A frame with the key "1" sets the repeat count to exactly one and restarts
/// the clip at time 0, and changes nothing else.
pub proof fn law_once_restarts(s: PlayerState, cursor: nat, keys: KeyPresses, clip_count: nat)
    requires
        keys.presses_only(Key::Digit1),
    ensures
        step_frame(s, cursor, keys, clip_count) == (PlayerState { repeat: RepeatPolicy::Count(1), seek_ms: 0, ..s }),
{
    assert(commands_for(keys, s.paused, next_cursor(cursor, keys, clip_count)) =~= seq![
        Command::SetRepeat(RepeatPolicy::Count(1)),
        Command::Replay,
    ]);
    lemma_apply_pair(s, Command::SetRepeat(RepeatPolicy::Count(1)), Command::Replay);
}

/// After a finite repeat count, a frame with the key "L" makes playback loop
/// forever and leaves the playback position, and all else, as it was.
pub proof fn law_loop_keeps_position(s: PlayerState, cursor: nat, keys: KeyPresses, clip_count: nat)
    requires
        (s.repeat is Count),
        keys.presses_only(Key::KeyL),
    ensures
        step_frame(s, cursor, keys, clip_count) == (PlayerState { repeat: RepeatPolicy::Forever, ..s }),
        step_frame(s, cursor, keys, clip_count).seek_ms == s.seek_ms,
{
    assert(commands_for(keys, s.paused, next_cursor(cursor, keys, clip_count)) =~= seq![
        Command::SetRepeat(RepeatPolicy::Forever),
    ]);
    lemma_apply_single(s, Command::SetRepeat(RepeatPolicy::Forever));
}

/// Seeking adds up: over frames in which only Left and Right are pressed, the
/// playback position moves by one step forward per Right and one step back
/// per Left, with no clamping at 0, and nothing else changes.
pub proof fn law_seeks_add(s: PlayerState, cursor: nat, frames: Seq<KeyPresses>, clip_count: nat)
    requires
        forall|i: int| 0 <= i < frames.len() ==> seek_keys_only(#[trigger] frames[i]),
    ensures
        run_frames(s, cursor, frames, clip_count) == (PlayerState {
            seek_ms: s.seek_ms + SEEK_STEP_MS * seek_balance(frames),
            ..s
        }),
    decreases frames.len(),
{
    if frames.len() > 0 {
        let init = frames.drop_last();
        assert forall|i: int| 0 <= i < init.len() implies seek_keys_only(#[trigger] init[i]) by {
            assert(init[i] == frames[i]);
        }
        law_seeks_add(s, cursor, init, clip_count);
        let keys = frames.last();
        assert(seek_keys_only(frames[frames.len() - 1]));
        assert(!keys.pressed(Key::Space) && !keys.pressed(Key::ArrowUp) && !keys.pressed(Key::ArrowDown)
            && !keys.pressed(Key::Enter) && !keys.pressed(Key::Digit1) && !keys.pressed(Key::Digit3)
            && !keys.pressed(Key::Digit5) && !keys.pressed(Key::KeyL));
        let p = run_frames(s, cursor, init, clip_count);
        let cs = commands_for(keys, p.paused, next_cursor(cursor_after(cursor, init, clip_count), keys, clip_count));
        let back = Command::Seek(crate::command::SeekStep::Back);
        let fwd = Command::Seek(crate::command::SeekStep::Forward);
        if keys.left && keys.right {
            assert(cs =~= seq![back, fwd]);
            lemma_apply_pair(p, back, fwd);
        } else if keys.left {
            assert(cs =~= seq![back]);
            lemma_apply_single(p, back);
        } else if keys.right {
            assert(cs =~= seq![fwd]);
            lemma_apply_single(p, fwd);
        } else {
            assert(cs =~= Seq::<Command>::empty());
        }
    }
}

} // verus!
