use hid_brightness::control::{
    apply_command, command_for, loop_step, KeyCommand, KeyPress, LoopAction,
};
use hid_brightness::quantize::{MAX_BRIGHTNESS, MIN_BRIGHTNESS};

#[test]
fn key_release_maps_to_command() {
    assert_eq!(command_for(KeyPress::Left, true), KeyCommand::StepDown);
    assert_eq!(command_for(KeyPress::Down, true), KeyCommand::BigStepDown);
    assert_eq!(command_for(KeyPress::Right, true), KeyCommand::StepUp);
    assert_eq!(command_for(KeyPress::Up, true), KeyCommand::BigStepUp);
    assert_eq!(command_for(KeyPress::Character('q'), true), KeyCommand::Quit);
}

#[test]
fn unrecognized_keys_are_ignored() {
    assert_eq!(
        command_for(KeyPress::Character('x'), true),
        KeyCommand::Ignored
    );
    assert_eq!(command_for(KeyPress::Other, true), KeyCommand::Ignored);
}

#[test]
fn non_release_events_are_ignored() {
    assert_eq!(command_for(KeyPress::Left, false), KeyCommand::Ignored);
    assert_eq!(
        command_for(KeyPress::Character('q'), false),
        KeyCommand::Ignored
    );
}

#[test]
fn big_step_up_moves_five_steps() {
    // 27000 + 5 * 540 == 29700, itself a member of the scale.
    assert_eq!(apply_command(27000, KeyCommand::BigStepUp), 29700);
}

#[test]
fn step_up_near_ceiling_clamps_exactly() {
    // 53460 + 540 == 54000 == MAX_BRIGHTNESS: exactly the ceiling, not
    // beyond it.
    assert_eq!(apply_command(53460, KeyCommand::StepUp), MAX_BRIGHTNESS);
    assert_eq!(apply_command(54000, KeyCommand::StepUp), MAX_BRIGHTNESS);
    assert_eq!(apply_command(54000, KeyCommand::BigStepUp), MAX_BRIGHTNESS);
}

#[test]
fn step_down_saturates_at_floor() {
    // One step below the lowest scale member passes the device floor and
    // snaps to it; further steps stay there.
    assert_eq!(apply_command(540, KeyCommand::StepDown), MIN_BRIGHTNESS);
    assert_eq!(
        apply_command(MIN_BRIGHTNESS, KeyCommand::StepDown),
        MIN_BRIGHTNESS
    );
    assert_eq!(
        apply_command(MIN_BRIGHTNESS, KeyCommand::BigStepDown),
        MIN_BRIGHTNESS
    );
    assert_eq!(apply_command(2700, KeyCommand::BigStepDown), MIN_BRIGHTNESS);
}

#[test]
fn plain_steps_move_one_step() {
    assert_eq!(apply_command(27000, KeyCommand::StepUp), 27540);
    assert_eq!(apply_command(27000, KeyCommand::StepDown), 26460);
    assert_eq!(apply_command(3240, KeyCommand::BigStepDown), 540);
}

#[test]
fn repeated_small_steps_never_leave_range() {
    let mut b = 1620;
    for _ in 0..200 {
        b = apply_command(b, KeyCommand::StepDown);
        assert!(b >= MIN_BRIGHTNESS);
    }
    assert_eq!(b, MIN_BRIGHTNESS);
    for _ in 0..200 {
        b = apply_command(b, KeyCommand::StepUp);
        assert!(b <= MAX_BRIGHTNESS);
    }
    assert_eq!(b, MAX_BRIGHTNESS);
}

#[test]
fn loop_step_quantizes_then_applies() {
    // Raw reading 0x0200 quantizes to 540; one step up targets 1080.
    assert_eq!(
        loop_step(0x0200, KeyCommand::StepUp),
        LoopAction::Apply(1080)
    );
    assert_eq!(
        loop_step(27001, KeyCommand::BigStepUp),
        LoopAction::Apply(29700)
    );
}

#[test]
fn loop_step_recovers_from_stale_reading() {
    // A failed transport read decodes to 0; the loop quantizes it up to
    // the first step before applying the delta.
    assert_eq!(loop_step(0, KeyCommand::StepUp), LoopAction::Apply(1080));
    assert_eq!(
        loop_step(0, KeyCommand::StepDown),
        LoopAction::Apply(MIN_BRIGHTNESS)
    );
}

#[test]
fn loop_step_idle_and_quit() {
    assert_eq!(loop_step(27000, KeyCommand::Ignored), LoopAction::Idle);
    assert_eq!(loop_step(27000, KeyCommand::Quit), LoopAction::Quit);
}
