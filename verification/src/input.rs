//! The keyboard as the first controller: which key presses which button, and
//! which events end the session.

use vstd::prelude::*;
use crate::io::{
    Io,
    IoState,
    BUTTON_A,
    BUTTON_B,
    BUTTON_DOWN,
    BUTTON_LEFT,
    BUTTON_RIGHT,
    BUTTON_SELECT,
    BUTTON_START,
    BUTTON_UP,
};

verus! {

/// A key of the keyboard, as far as the console cares.
#[derive(Debug, Clone, Copy, PartialEq, Eq)]
pub enum Key {
    Escape,
    Return,
    RShift,
    A,
    B,
    Left,
    Right,
    Up,
    Down,
    /// Any other key.
    Other,
}

/// What the window reports.
#[derive(Debug, Clone, Copy, PartialEq, Eq)]
pub enum InputEvent {
    /// The window was closed.
    Quit,
    /// A key went down.
    KeyDown(Key),
    /// Anything else.
    Other,
}

/// What the user asks of the front end itself.
#[derive(Debug, Clone, Copy, PartialEq, Eq)]
pub enum MetaControl {
    Quit,
}

/// The button that a key presses, if it presses one.
pub open spec fn spec_button(key: Key) -> Option<u8> {
    match key {
        Key::Return => Some(BUTTON_START),
        Key::RShift => Some(BUTTON_SELECT),
        Key::A => Some(BUTTON_A),
        Key::B => Some(BUTTON_B),
        Key::Left => Some(BUTTON_LEFT),
        Key::Right => Some(BUTTON_RIGHT),
        Key::Up => Some(BUTTON_UP),
        Key::Down => Some(BUTTON_DOWN),
        _ => None,
    }
}

/// The button that a key presses, if it presses one.
pub fn button(key: Key) -> (r: Option<u8>)
    ensures
        r == spec_button(key),
{
    match key {
        Key::Return => Some(BUTTON_START),
        Key::RShift => Some(BUTTON_SELECT),
        Key::A => Some(BUTTON_A),
        Key::B => Some(BUTTON_B),
        Key::Left => Some(BUTTON_LEFT),
        Key::Right => Some(BUTTON_RIGHT),
        Key::Up => Some(BUTTON_UP),
        Key::Down => Some(BUTTON_DOWN),
        _ => None,
    }
}

/// Whether an event ends the session: closing the window does, and so does
/// the escape key.
pub open spec fn spec_is_quit(event: InputEvent) -> bool {
    event == InputEvent::Quit || event == InputEvent::KeyDown(Key::Escape)
}

/// The I/O bank after an event that does not end the session: a key that
/// presses a button adds the button to the shadow register.
pub open spec fn spec_press(io: IoState, event: InputEvent) -> IoState {
    match event {
        InputEvent::KeyDown(key) => match spec_button(key) {
            Some(button) => IoState { shadow: io.shadow | button, ..io },
            None => io,
        },
        _ => io,
    }
}

/// What the events from number `from` on ask for, in order: the buttons of
/// the keys are pressed until an event ends the session. The events after it
/// are ignored.
pub open spec fn spec_get_input(io: IoState, events: Seq<InputEvent>, from: int) -> (
    Option<MetaControl>,
    IoState,
)
    decreases events.len() - from,
{
    if from >= events.len() || from < 0 {
        (None, io)
    } else if spec_is_quit(events[from]) {
        (Some(MetaControl::Quit), io)
    } else {
        spec_get_input(spec_press(io, events[from]), events, from + 1)
    }
}

/// Handles the events that the window has reported since the last frame.
pub fn get_input(io: &mut Io, events: &[InputEvent]) -> (r: Option<MetaControl>)
    ensures
        (r, final(io)@) == spec_get_input(old(io)@, events@, 0),
{
    let mut handled: usize = 0;
    while handled < events.len()
        invariant
            handled <= events.len(),
            spec_get_input(io@, events@, handled as int) == spec_get_input(
                old(io)@,
                events@,
                0,
            ),
        decreases events.len() - handled,
    {
        match events[handled] {
            InputEvent::Quit => {
                return Some(MetaControl::Quit);
            },
            InputEvent::KeyDown(key) => {
                match key {
                    Key::Escape => {
                        return Some(MetaControl::Quit);
                    },
                    _ => {
                        match button(key) {
                            Some(pressed) => {
                                io.joy1_press(pressed);
                            },
                            None => {},
                        }
                    },
                }
            },
            InputEvent::Other => {},
        }
        handled += 1;
    }
    None
}

} // verus!
