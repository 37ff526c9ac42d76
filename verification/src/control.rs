//! Key-driven adjustment decisions of the control loop.
//!
//! Each terminal key event is first classified into a [`KeyCommand`]; a
//! recognized command is then applied to the current (quantized) brightness
//! as a fixed step delta, saturating at the device's raw minimum and
//! maximum instead of wrapping.  The loop itself — blocking on key events,
//! reading and writing the device, rendering the progress bar — performs
//! I/O and lives outside the library; it hands raw values in and takes the
//! decided action back out.

use vstd::prelude::*;
use crate::quantize::{find_nearest, nearest_spec, MAX_BRIGHTNESS, MIN_BRIGHTNESS, STEP};

verus! {

/// A recognized input, derived from a raw terminal key event.  Events that
/// are not a key release, and keys outside the recognized set, map to
/// `Ignored`.
#[derive(Clone, Copy, Debug, PartialEq, Eq)]
pub enum KeyCommand {
    StepDown,
    BigStepDown,
    StepUp,
    BigStepUp,
    Quit,
    Ignored,
}

/// A key, as the terminal reports it, reduced to the plain cases the
/// control loop distinguishes.
#[derive(Clone, Copy, Debug, PartialEq, Eq)]
pub enum KeyPress {
    Left,
    Down,
    Right,
    Up,
    Character(char),
    Other,
}

/// What the control loop does in reaction to one key event.
#[derive(Clone, Copy, Debug, PartialEq, Eq)]
pub enum LoopAction {
    /// Nothing: loop back and wait for the next key.
    Idle,
    /// Leave the loop and restore the terminal.
    Quit,
    /// Write this brightness value to the device and refresh the display.
    Apply(u16),
}

/// The command a key event maps to: only a release of an arrow key is an
/// adjustment, only a release of 'q' quits, everything else is ignored.
pub open spec fn command_spec(key: KeyPress, release: bool) -> KeyCommand {
    if !release {
        KeyCommand::Ignored
    } else {
        match key {
            KeyPress::Left => KeyCommand::StepDown,
            KeyPress::Down => KeyCommand::BigStepDown,
            KeyPress::Right => KeyCommand::StepUp,
            KeyPress::Up => KeyCommand::BigStepUp,
            KeyPress::Character(c) => if c == 'q' {
                KeyCommand::Quit
            } else {
                KeyCommand::Ignored
            },
            KeyPress::Other => KeyCommand::Ignored,
        }
    }
}

/// Classify one terminal key event.
pub fn command_for(key: KeyPress, release: bool) -> (r: KeyCommand)
    ensures
        r == command_spec(key, release),
{
    if !release {
        KeyCommand::Ignored
    } else {
        match key {
            KeyPress::Left => KeyCommand::StepDown,
            KeyPress::Down => KeyCommand::BigStepDown,
            KeyPress::Right => KeyCommand::StepUp,
            KeyPress::Up => KeyCommand::BigStepUp,
            KeyPress::Character(c) => if c == 'q' {
                KeyCommand::Quit
            } else {
                KeyCommand::Ignored
            },
            KeyPress::Other => KeyCommand::Ignored,
        }
    }
}

/// How many raw units one command moves the brightness: arrow left/right
/// move one step of the scale, arrow down/up move five.
pub open spec fn delta_spec(cmd: KeyCommand) -> int {
    match cmd {
        KeyCommand::StepDown | KeyCommand::StepUp => STEP as int,
        KeyCommand::BigStepDown | KeyCommand::BigStepUp => 5 * STEP,
        KeyCommand::Quit | KeyCommand::Ignored => 0,
    }
}

/// The brightness an adjustment command produces from current value `b`:
/// the step delta applied with a saturating clamp against the raw device
/// bounds — past the floor it snaps to `MIN_BRIGHTNESS`, past the ceiling
/// to `MAX_BRIGHTNESS`, never wrapping.  `Quit` and `Ignored` leave the
/// value unchanged.
pub open spec fn apply_spec(b: int, cmd: KeyCommand) -> int {
    match cmd {
        KeyCommand::StepDown | KeyCommand::BigStepDown => if b - delta_spec(cmd)
            < MIN_BRIGHTNESS {
            MIN_BRIGHTNESS as int
        } else {
            b - delta_spec(cmd)
        },
        KeyCommand::StepUp | KeyCommand::BigStepUp => if b + delta_spec(cmd) > MAX_BRIGHTNESS {
            MAX_BRIGHTNESS as int
        } else {
            b + delta_spec(cmd)
        },
        KeyCommand::Quit | KeyCommand::Ignored => b,
    }
}

/// Apply one adjustment command to the current (quantized) brightness,
/// saturating at the device's raw bounds.
pub fn apply_command(b: u16, cmd: KeyCommand) -> (r: u16)
    ensures
        r == apply_spec(b as int, cmd),
{
    match cmd {
        KeyCommand::StepDown => if b < MIN_BRIGHTNESS + STEP {
            MIN_BRIGHTNESS
        } else {
            b - STEP
        },
        KeyCommand::BigStepDown => if b < MIN_BRIGHTNESS + 5 * STEP {
            MIN_BRIGHTNESS
        } else {
            b - 5 * STEP
        },
        KeyCommand::StepUp => if b > MAX_BRIGHTNESS - STEP {
            MAX_BRIGHTNESS
        } else {
            b + STEP
        },
        KeyCommand::BigStepUp => if b > MAX_BRIGHTNESS - 5 * STEP {
            MAX_BRIGHTNESS
        } else {
            b + 5 * STEP
        },
        KeyCommand::Quit | KeyCommand::Ignored => b,
    }
}

/// Decide one iteration of the control loop: given the fresh raw reading
/// from the device and the classified key, either do nothing, quit, or
/// quantize the reading, apply the step delta, and write the result.
pub fn loop_step(raw: u16, cmd: KeyCommand) -> (r: LoopAction)
    ensures
        cmd == KeyCommand::Ignored ==> r == LoopAction::Idle,
        cmd == KeyCommand::Quit ==> r == LoopAction::Quit,
        cmd != KeyCommand::Ignored && cmd != KeyCommand::Quit ==> (r matches LoopAction::Apply(t)
            && t == apply_spec(nearest_spec(raw as int), cmd)),
{
    match cmd {
        KeyCommand::Ignored => LoopAction::Idle,
        KeyCommand::Quit => LoopAction::Quit,
        _ => {
            let near = find_nearest(raw);
            LoopAction::Apply(apply_command(near, cmd))
        },
    }
}

/// The brightness after `n` single-step-down commands from `b`.
pub open spec fn step_down_n(b: int, n: nat) -> int
    decreases n,
{
    if n == 0 {
        b
    } else {
        apply_spec(step_down_n(b, (n - 1) as nat), KeyCommand::StepDown)
    }
}

/// The brightness after `n` single-step-up commands from `b`.
pub open spec fn step_up_n(b: int, n: nat) -> int
    decreases n,
{
    if n == 0 {
        b
    } else {
        apply_spec(step_up_n(b, (n - 1) as nat), KeyCommand::StepUp)
    }
}

/// Saturation law, downward: from any brightness in the legal range,
/// any number of step-down commands never leaves the range, never wraps
/// below the floor, loses a full step each time until the floor is
/// reached, and once `n` steps cover the whole distance to the floor the
/// value is exactly `MIN_BRIGHTNESS` — and stays there forever after.
pub proof fn lemma_step_down_saturates(b: int, n: nat)
    requires
        MIN_BRIGHTNESS <= b <= MAX_BRIGHTNESS,
    ensures
        MIN_BRIGHTNESS <= step_down_n(b, n) <= b,
        step_down_n(b, n) <= b - STEP * n || step_down_n(b, n) == MIN_BRIGHTNESS,
        STEP * n >= b - MIN_BRIGHTNESS ==> step_down_n(b, n) == MIN_BRIGHTNESS,
    decreases n,
{
    if n > 0 {
        lemma_step_down_saturates(b, (n - 1) as nat);
    }
}

/// Saturation law, upward: from any brightness in the legal range, any
/// number of step-up commands never leaves the range, never overflows
/// past the ceiling, gains a full step each time until the ceiling is
/// reached, and once `n` steps cover the whole distance to the ceiling
/// the value is exactly `MAX_BRIGHTNESS` — and stays there forever after.
pub proof fn lemma_step_up_saturates(b: int, n: nat)
    requires
        MIN_BRIGHTNESS <= b <= MAX_BRIGHTNESS,
    ensures
        b <= step_up_n(b, n) <= MAX_BRIGHTNESS,
        step_up_n(b, n) >= b + STEP * n || step_up_n(b, n) == MAX_BRIGHTNESS,
        STEP * n >= MAX_BRIGHTNESS - b ==> step_up_n(b, n) == MAX_BRIGHTNESS,
    decreases n,
{
    if n > 0 {
        lemma_step_up_saturates(b, (n - 1) as nat);
    }
}

} // verus!
