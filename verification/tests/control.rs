//! Key handling, loop pacing, and the command-line surface.

use termcube::cli::{parse_mode, usage, Mode};
use termcube::cube::{Cube, Rotation};
use termcube::input::{handle_input, KeyPress, ROT_DELTA};
use termcube::timing::{loop_step, LoopState, StepAction, FRAME_PERIOD_MICROS};

fn key(code: char) -> Option<KeyPress> {
    Some(KeyPress { code, ctrl: false })
}

#[test]
fn manual_r_increases_x_once_per_press() {
    let mut c = Cube::new();
    let before = c.rotation;
    let quit = handle_input(&mut c, false, key('r'));
    assert!(!quit);
    assert_eq!(c.rotation, Rotation { x: before.x + ROT_DELTA, ..before });
    // a second press applies the delta exactly once more
    handle_input(&mut c, false, key('r'));
    assert_eq!(c.rotation.x, before.x + 2 * ROT_DELTA);
}

#[test]
fn manual_keys_cover_all_axes() {
    let mut c = Cube::new();
    let before = c.rotation;
    handle_input(&mut c, false, key('e'));
    assert_eq!(c.rotation.x, before.x - ROT_DELTA);
    handle_input(&mut c, false, key('d'));
    assert_eq!(c.rotation.y, before.y - ROT_DELTA);
    handle_input(&mut c, false, key('f'));
    assert_eq!(c.rotation.y, before.y);
    handle_input(&mut c, false, key('c'));
    assert_eq!(c.rotation.z, before.z - ROT_DELTA);
    handle_input(&mut c, false, key('v'));
    assert_eq!(c.rotation.z, before.z);
}

#[test]
fn auto_ignores_all_keys_except_quit() {
    let mut c = Cube::new();
    let before = c.rotation;
    for code in ['e', 'r', 'd', 'f', 'c', 'v', 'q', 'x'] {
        let quit = handle_input(&mut c, true, key(code));
        assert!(!quit);
        assert_eq!(c.rotation, before);
    }
    let quit = handle_input(&mut c, true, Some(KeyPress { code: 'd', ctrl: true }));
    assert!(quit);
    assert_eq!(c.rotation, before);
}

#[test]
fn ctrl_d_quits_in_manual_mode_without_adjusting() {
    let mut c = Cube::new();
    let before = c.rotation;
    let quit = handle_input(&mut c, false, Some(KeyPress { code: 'd', ctrl: true }));
    assert!(quit);
    assert_eq!(c.rotation, before);
}

#[test]
fn unrecognized_key_is_ignored() {
    let mut c = Cube::new();
    let before = c.rotation;
    let quit = handle_input(&mut c, false, key('z'));
    assert!(!quit);
    assert_eq!(c.rotation, before);
    let quit = handle_input(&mut c, false, None);
    assert!(!quit);
    assert_eq!(c.rotation, before);
}

#[test]
fn pacing_renders_when_period_elapsed() {
    let r = loop_step(LoopState::Running, false, FRAME_PERIOD_MICROS, FRAME_PERIOD_MICROS);
    assert_eq!(r, (LoopState::Running, StepAction::RenderFrame));
    let r = loop_step(LoopState::Running, false, 20_000, FRAME_PERIOD_MICROS);
    assert_eq!(r, (LoopState::Running, StepAction::RenderFrame));
}

#[test]
fn pacing_sleeps_out_the_remainder() {
    let r = loop_step(LoopState::Running, false, 10_000, FRAME_PERIOD_MICROS);
    assert_eq!(r, (LoopState::Running, StepAction::Sleep(6_666)));
}

#[test]
fn pacing_exits_on_quit_and_stays_terminated() {
    let r = loop_step(LoopState::Running, true, 0, FRAME_PERIOD_MICROS);
    assert_eq!(r, (LoopState::Terminating, StepAction::Exit));
    let r = loop_step(LoopState::Terminating, false, 100_000, FRAME_PERIOD_MICROS);
    assert_eq!(r, (LoopState::Terminating, StepAction::Exit));
}

#[test]
fn cli_accepts_the_two_modes() {
    let args = vec!["prog".to_string(), "manual".to_string()];
    assert_eq!(parse_mode(&args), Some(Mode::Manual));
    let args = vec!["prog".to_string(), "auto".to_string()];
    assert_eq!(parse_mode(&args), Some(Mode::Auto));
    assert!(!Mode::Manual.is_auto());
    assert!(Mode::Auto.is_auto());
}

#[test]
fn cli_rejects_bad_invocations() {
    let bogus = vec!["prog".to_string(), "bogus".to_string()];
    assert_eq!(parse_mode(&bogus), None);
    let none = vec!["prog".to_string()];
    assert_eq!(parse_mode(&none), None);
    let extra = vec!["prog".to_string(), "manual".to_string(), "auto".to_string()];
    assert_eq!(parse_mode(&extra), None);
}

#[test]
fn cli_usage_text() {
    assert_eq!(
        usage(),
        "cargo run -- manual : Run the program in manual mode\ncargo run -- auto : Run the program in automatic mode"
    );
}
