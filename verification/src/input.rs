//! Input events as plain values, and what each of them asks for.

use vstd::prelude::*;
use crate::scene::{Axis, Direction};

verus! {

/// The keys that the loop tells apart.
#[derive(Clone, Copy, Debug, PartialEq, Eq, Structural)]
pub enum Key {
    Escape,
    Left,
    Right,
    Up,
    Down,
    /// Any other key.
    Other,
}

/// What happened to a key.
#[derive(Clone, Copy, Debug, PartialEq, Eq, Structural)]
pub enum KeyAction {
    Press,
    Release,
    /// The key is held and the platform repeats it.
    Repeat,
}

/// One event of the window.
#[derive(Clone, Copy, Debug, PartialEq, Eq, Structural)]
pub enum InputEvent {
    /// The user asked to close the window.
    Close,
    Key(Key, KeyAction),
    /// The window took a new size, in pixels: width, then height.
    Resize(u32, u32),
    /// Any other event.
    Other,
}

/// A key transition that waits to be carried out.
#[derive(Clone, Copy, Debug, PartialEq, Eq, Structural)]
pub struct Command {
    pub key: Key,
    /// `true` for a press, `false` for a release.
    pub pressed: bool,
}

/// The command that a key event queues: one for a press, one for a release,
/// none for a repeat.
pub open spec fn command_of(key: Key, action: KeyAction) -> Option<Command> {
    match action {
        KeyAction::Press => Some(Command { key, pressed: true }),
        KeyAction::Release => Some(Command { key, pressed: false }),
        KeyAction::Repeat => None,
    }
}

/// The spin intent that a key drives: left and right the horizontal one,
/// up and down the vertical one, and no other key any.
pub open spec fn binding_of(key: Key) -> Option<(Axis, Direction)> {
    match key {
        Key::Left => Some((Axis::Horizontal, Direction::Negative)),
        Key::Right => Some((Axis::Horizontal, Direction::Positive)),
        Key::Up => Some((Axis::Vertical, Direction::Negative)),
        Key::Down => Some((Axis::Vertical, Direction::Positive)),
        Key::Escape => None,
        Key::Other => None,
    }
}

/// Whether a command asks to leave the loop: only a press of escape does.
pub open spec fn quits(command: Command) -> bool {
    command.key == Key::Escape && command.pressed
}

/// The command that a key event queues, if any.
pub fn command_for(key: Key, action: KeyAction) -> (command: Option<Command>)
    ensures
        command == command_of(key, action),
{
    match action {
        KeyAction::Press => Some(Command { key, pressed: true }),
        KeyAction::Release => Some(Command { key, pressed: false }),
        KeyAction::Repeat => None,
    }
}

/// Looks up the spin intent that a key drives.
pub fn key_binding(key: Key) -> (binding: Option<(Axis, Direction)>)
    ensures
        binding == binding_of(key),
{
    match key {
        Key::Left => Some((Axis::Horizontal, Direction::Negative)),
        Key::Right => Some((Axis::Horizontal, Direction::Positive)),
        Key::Up => Some((Axis::Vertical, Direction::Negative)),
        Key::Down => Some((Axis::Vertical, Direction::Positive)),
        Key::Escape => None,
        Key::Other => None,
    }
}

} // verus!
