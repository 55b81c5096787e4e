use fox_animation::command::{Command, RepeatPolicy, SeekStep, SpeedStep, CROSSFADE_MS, SEEK_STEP_MS};
use fox_animation::controller::{startup_commands, AnimationController, DEFAULT_CLIP};
use fox_animation::input::{Key, KeyPresses};
use fox_animation::player::PlayerModel;

fn frame(controller: &mut AnimationController, player: &mut PlayerModel, keys: KeyPresses, clips: usize) -> Vec<Command> {
    let cmds = controller.player_commands(&keys, player.is_paused(), clips);
    player.apply_all(&cmds);
    cmds
}

#[test]
fn enter_presses_cycle_the_cursor() {
    let mut c = AnimationController::new();
    let mut p = PlayerModel::new();
    let enter = KeyPresses::only(Key::Enter);
    let mut expected = Vec::new();
    for presses in 1..=7usize {
        frame(&mut c, &mut p, enter, 3);
        assert_eq!(c.cursor(), presses % 3);
        assert!(c.cursor() < 3);
        assert_eq!(p.clip(), Some(presses % 3));
        expected.push(c.cursor());
    }
    assert_eq!(expected, vec![1, 2, 0, 1, 2, 0, 1]);
}

#[test]
fn frames_without_enter_keep_the_cursor() {
    let mut c = AnimationController::new();
    let mut p = PlayerModel::new();
    frame(&mut c, &mut p, KeyPresses::only(Key::Enter), 3);
    frame(&mut c, &mut p, KeyPresses::only(Key::Space), 3);
    frame(&mut c, &mut p, KeyPresses::none(), 3);
    assert_eq!(c.cursor(), 1);
}

#[test]
fn enter_with_one_clip_stays_on_it() {
    let mut c = AnimationController::new();
    let cmds = c.player_commands(&KeyPresses::only(Key::Enter), false, 1);
    assert_eq!(c.cursor(), 0);
    assert_eq!(
        cmds,
        vec![
            Command::Play { clip: 0, transition_ms: 250 },
            Command::SetRepeat(RepeatPolicy::Forever),
        ]
    );
}

#[test]
fn players_share_one_cursor() {
    let mut c = AnimationController::new();
    let enter = KeyPresses::only(Key::Enter);
    let first = c.player_commands(&enter, false, 3);
    let second = c.player_commands(&enter, false, 3);
    assert_eq!(first[0], Command::Play { clip: 1, transition_ms: CROSSFADE_MS });
    assert_eq!(second[0], Command::Play { clip: 2, transition_ms: CROSSFADE_MS });
    assert_eq!(c.cursor(), 2);
}

#[test]
fn up_then_down_leaves_speed_at_ninety_six_percent() {
    let mut c = AnimationController::new();
    let mut p = PlayerModel::new();
    frame(&mut c, &mut p, KeyPresses::only(Key::ArrowUp), 3);
    frame(&mut c, &mut p, KeyPresses::only(Key::ArrowDown), 3);
    assert_eq!(p.faster_steps(), 1);
    assert_eq!(p.slower_steps(), 1);
    let factor = |s: SpeedStep| s.numerator() as f64 / s.denominator() as f64;
    let speed = factor(SpeedStep::Faster) * factor(SpeedStep::Slower);
    assert!((speed - 0.96).abs() < 1e-12);
    assert!((speed - 1.0).abs() > 0.03);
}

#[test]
fn speed_step_factors() {
    assert_eq!((SpeedStep::Faster.numerator(), SpeedStep::Faster.denominator()), (6, 5));
    assert_eq!((SpeedStep::Slower.numerator(), SpeedStep::Slower.denominator()), (4, 5));
    let up = 6.0f32 / 5.0f32;
    let down = 4.0f32 / 5.0f32;
    assert_eq!(up, 1.2f32);
    assert_eq!(down, 0.8f32);
}

#[test]
fn digit_one_sets_single_repeat_and_restarts() {
    let mut c = AnimationController::new();
    let mut p = PlayerModel::new();
    frame(&mut c, &mut p, KeyPresses::only(Key::ArrowRight), 3);
    frame(&mut c, &mut p, KeyPresses::only(Key::ArrowRight), 3);
    assert_eq!(p.seek_ms(), 200);
    let cmds = frame(&mut c, &mut p, KeyPresses::only(Key::Digit1), 3);
    assert_eq!(cmds, vec![Command::SetRepeat(RepeatPolicy::Count(1)), Command::Replay]);
    assert_eq!(p.repeat(), RepeatPolicy::Count(1));
    assert_eq!(p.seek_ms(), 0);
}

#[test]
fn digits_three_and_five_set_their_counts() {
    let mut c = AnimationController::new();
    let mut p = PlayerModel::new();
    frame(&mut c, &mut p, KeyPresses::only(Key::ArrowLeft), 3);
    frame(&mut c, &mut p, KeyPresses::only(Key::Digit3), 3);
    assert_eq!(p.repeat(), RepeatPolicy::Count(3));
    assert_eq!(p.seek_ms(), 0);
    frame(&mut c, &mut p, KeyPresses::only(Key::ArrowLeft), 3);
    frame(&mut c, &mut p, KeyPresses::only(Key::Digit5), 3);
    assert_eq!(p.repeat(), RepeatPolicy::Count(5));
    assert_eq!(p.seek_ms(), 0);
}

#[test]
fn loop_key_after_finite_repeat_keeps_time() {
    let mut c = AnimationController::new();
    let mut p = PlayerModel::new();
    frame(&mut c, &mut p, KeyPresses::only(Key::Digit3), 3);
    frame(&mut c, &mut p, KeyPresses::only(Key::ArrowRight), 3);
    assert_eq!(p.seek_ms(), 100);
    let cmds = frame(&mut c, &mut p, KeyPresses::only(Key::KeyL), 3);
    assert_eq!(cmds, vec![Command::SetRepeat(RepeatPolicy::Forever)]);
    assert_eq!(p.repeat(), RepeatPolicy::Forever);
    assert_eq!(p.seek_ms(), 100);
}

#[test]
fn three_rights_from_zero_reach_three_tenths() {
    let mut c = AnimationController::new();
    let mut p = PlayerModel::new();
    for _ in 0..3 {
        frame(&mut c, &mut p, KeyPresses::only(Key::ArrowRight), 3);
    }
    assert_eq!(p.seek_ms(), 300);
    assert!((p.seek_ms() as f32 / 1000.0 - 0.3).abs() < 1e-6);
}

#[test]
fn two_lefts_from_zero_go_negative() {
    let mut c = AnimationController::new();
    let mut p = PlayerModel::new();
    for _ in 0..2 {
        frame(&mut c, &mut p, KeyPresses::only(Key::ArrowLeft), 3);
    }
    assert_eq!(p.seek_ms(), -200);
}

#[test]
fn seek_step_deltas() {
    assert_eq!(SeekStep::Back.delta_ms(), -SEEK_STEP_MS);
    assert_eq!(SeekStep::Forward.delta_ms(), 100);
}

#[test]
fn space_toggles_pause() {
    let mut c = AnimationController::new();
    let mut p = PlayerModel::new();
    let cmds = frame(&mut c, &mut p, KeyPresses::only(Key::Space), 3);
    assert_eq!(cmds, vec![Command::Pause]);
    assert!(p.is_paused());
    let cmds = frame(&mut c, &mut p, KeyPresses::only(Key::Space), 3);
    assert_eq!(cmds, vec![Command::Resume]);
    assert!(!p.is_paused());
}

#[test]
fn empty_frame_gives_no_commands() {
    let mut c = AnimationController::new();
    let cmds = c.player_commands(&KeyPresses::none(), false, 0);
    assert!(cmds.is_empty());
    assert_eq!(c.cursor(), 0);
}

#[test]
fn all_keys_in_one_frame_follow_key_order() {
    let mut keys = KeyPresses::none();
    for k in [
        Key::KeyL,
        Key::Digit5,
        Key::Digit3,
        Key::Digit1,
        Key::Enter,
        Key::ArrowRight,
        Key::ArrowLeft,
        Key::ArrowDown,
        Key::ArrowUp,
        Key::Space,
    ] {
        keys.press(k);
    }
    let mut c = AnimationController::new();
    let cmds = c.player_commands(&keys, true, 3);
    assert_eq!(
        cmds,
        vec![
            Command::Resume,
            Command::ScaleSpeed(SpeedStep::Faster),
            Command::ScaleSpeed(SpeedStep::Slower),
            Command::Seek(SeekStep::Back),
            Command::Seek(SeekStep::Forward),
            Command::Play { clip: 1, transition_ms: 250 },
            Command::SetRepeat(RepeatPolicy::Forever),
            Command::SetRepeat(RepeatPolicy::Count(1)),
            Command::Replay,
            Command::SetRepeat(RepeatPolicy::Count(3)),
            Command::Replay,
            Command::SetRepeat(RepeatPolicy::Count(5)),
            Command::Replay,
            Command::SetRepeat(RepeatPolicy::Forever),
        ]
    );
    let mut p = PlayerModel::new();
    p.apply_all(&cmds);
    assert_eq!(p.repeat(), RepeatPolicy::Forever);
    assert_eq!(p.seek_ms(), 0);
    assert_eq!(p.clip(), Some(1));
    assert_eq!(p.transition_ms(), 250);
    assert!(!p.is_paused());
}

#[test]
fn key_presses_record_each_key() {
    let none = KeyPresses::none();
    let only_up = KeyPresses::only(Key::ArrowUp);
    assert!(!none.is_pressed(Key::ArrowUp));
    assert!(only_up.is_pressed(Key::ArrowUp));
    assert!(!only_up.is_pressed(Key::ArrowDown));
    assert!(only_up.up && !only_up.down && !only_up.space);
}

#[test]
fn startup_plays_default_clip_looped() {
    let mut c = AnimationController::new();
    let mut p = PlayerModel::new();
    let start = startup_commands(3);
    assert_eq!(
        start,
        vec![
            Command::Play { clip: 2, transition_ms: 0 },
            Command::SetRepeat(RepeatPolicy::Forever),
        ]
    );
    p.apply_all(&start);
    let cmds = frame(&mut c, &mut p, KeyPresses::none(), 3);
    assert!(cmds.is_empty());
    assert_eq!(p.clip(), Some(DEFAULT_CLIP));
    assert_eq!(p.repeat(), RepeatPolicy::Forever);
    assert_eq!(p.transition_ms(), 0);
    assert!(!p.is_paused());
}

#[test]
fn fresh_player_state() {
    let p = PlayerModel::new();
    assert!(!p.is_paused());
    assert_eq!(p.seek_ms(), 0);
    assert_eq!(p.clip(), None);
    assert_eq!(p.repeat(), RepeatPolicy::Count(1));
    assert_eq!((p.faster_steps(), p.slower_steps()), (0, 0));
}
