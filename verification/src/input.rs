//! Keys and the commands they stand for.
//!
//! Amounts are integers: movement is counted in half blocks and rotation in
//! degrees.

use vstd::prelude::*;

verus! {

/// Half blocks that a movement key moves the camera along its axis.
pub const STEP: i32 = 1;

/// Half blocks that a movement key moves the camera against its axis.
pub const STEP_BACK: i32 = -1;

/// Degrees that a rotation key turns the camera in the positive sense.
pub const TURN: i32 = 10;

/// Degrees that a rotation key turns the camera in the negative sense.
pub const TURN_BACK: i32 = -10;

/// A key press, as far as the controls tell keys apart.
#[derive(Debug, Clone, Copy, PartialEq, Eq, Structural)]
pub enum Key {
    Char(char),
    Esc,
    Up,
    Down,
    Left,
    Right,
    Other,
}

/// What the camera, or the program, is asked to do.
#[derive(Debug, Clone, Copy, PartialEq, Eq, Structural)]
pub enum Command {
    /// Move along the viewing direction by so many half blocks.
    MoveForward(i32),
    /// Move to the right by so many half blocks.
    MoveRight(i32),
    /// Move upwards by so many half blocks.
    MoveUp(i32),
    /// Turn around the vertical axis by so many degrees.
    RotateYaw(i32),
    /// Tilt up or down by so many degrees.
    RotatePitch(i32),
    /// Leave the program.
    Quit,
}

/// The command bound to `key`, if there is one. Movement keys move by one
/// half block and rotation keys turn by ten degrees; the arrow keys double
/// `w`, `s`, `a` and `d`.
pub open spec fn command_of(key: Key) -> Option<Command> {
    match key {
        Key::Esc => Some(Command::Quit),
        Key::Up => Some(Command::MoveForward(STEP)),
        Key::Down => Some(Command::MoveForward(STEP_BACK)),
        Key::Left => Some(Command::MoveRight(STEP_BACK)),
        Key::Right => Some(Command::MoveRight(STEP)),
        Key::Other => None,
        Key::Char(c) => if c == 'x' {
            Some(Command::Quit)
        } else if c == 'w' {
            Some(Command::MoveForward(STEP))
        } else if c == 's' {
            Some(Command::MoveForward(STEP_BACK))
        } else if c == 'a' {
            Some(Command::MoveRight(STEP_BACK))
        } else if c == 'd' {
            Some(Command::MoveRight(STEP))
        } else if c == 'q' {
            Some(Command::MoveUp(STEP_BACK))
        } else if c == 'e' {
            Some(Command::MoveUp(STEP))
        } else if c == 'h' {
            Some(Command::RotateYaw(TURN_BACK))
        } else if c == 'l' {
            Some(Command::RotateYaw(TURN))
        } else if c == 'j' {
            Some(Command::RotatePitch(TURN))
        } else if c == 'k' {
            Some(Command::RotatePitch(TURN_BACK))
        } else {
            None
        },
    }
}

/// The command bound to `key`, if there is one.
pub fn command_for_key(key: Key) -> (command: Option<Command>)
    ensures
        command == command_of(key),
{
    match key {
        Key::Esc | Key::Char('x') => Some(Command::Quit),
        Key::Up | Key::Char('w') => Some(Command::MoveForward(STEP)),
        Key::Down | Key::Char('s') => Some(Command::MoveForward(STEP_BACK)),
        Key::Left | Key::Char('a') => Some(Command::MoveRight(STEP_BACK)),
        Key::Right | Key::Char('d') => Some(Command::MoveRight(STEP)),
        Key::Char('q') => Some(Command::MoveUp(STEP_BACK)),
        Key::Char('e') => Some(Command::MoveUp(STEP)),
        Key::Char('h') => Some(Command::RotateYaw(TURN_BACK)),
        Key::Char('l') => Some(Command::RotateYaw(TURN)),
        Key::Char('j') => Some(Command::RotatePitch(TURN)),
        Key::Char('k') => Some(Command::RotatePitch(TURN_BACK)),
        _ => None,
    }
}

} // verus!
