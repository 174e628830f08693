use vstd::prelude::*;

use crate::input::InputEvent;

verus! {

/// A key as the terminal reports it, reduced to what the client tells apart.
#[derive(Debug, Clone, Copy, PartialEq, Eq, Structural)]
pub enum Key {
    Char(char),
    Enter,
    Backspace,
    Delete,
    Left,
    Right,
    Up,
    Down,
    Esc,
    Tab,
    BackTab,
    Other,
}

/// The event a key press stands for, with `control` telling whether Ctrl was
/// held: Ctrl+C quits, Ctrl+S opens the configuration panel, any other
/// character is typed; keys the client does not use give nothing.
pub open spec fn key_event(key: Key, control: bool) -> Option<InputEvent> {
    match key {
        Key::Char(c) => if control && c == 'c' {
            Some(InputEvent::Quit)
        } else if control && c == 's' {
            Some(InputEvent::OpenConfig)
        } else {
            Some(InputEvent::CharInput(c))
        },
        Key::Enter => Some(InputEvent::Submit),
        Key::Backspace => Some(InputEvent::Backspace),
        Key::Delete => Some(InputEvent::Delete),
        Key::Left => Some(InputEvent::CursorLeft),
        Key::Right => Some(InputEvent::CursorRight),
        Key::Up => Some(InputEvent::ScrollUp),
        Key::Down => Some(InputEvent::ScrollDown),
        Key::Esc => Some(InputEvent::Esc),
        Key::Tab => Some(InputEvent::NextField),
        Key::BackTab => Some(InputEvent::PrevField),
        Key::Other => None,
    }
}

/// The event for a key press; see `key_event`.
pub fn event_for_key(key: Key, control: bool) -> (r: Option<InputEvent>)
    ensures
        r == key_event(key, control),
{
    match key {
        Key::Char(c) => {
            if control && c == 'c' {
                Some(InputEvent::Quit)
            } else if control && c == 's' {
                Some(InputEvent::OpenConfig)
            } else {
                Some(InputEvent::CharInput(c))
            }
        },
        Key::Enter => Some(InputEvent::Submit),
        Key::Backspace => Some(InputEvent::Backspace),
        Key::Delete => Some(InputEvent::Delete),
        Key::Left => Some(InputEvent::CursorLeft),
        Key::Right => Some(InputEvent::CursorRight),
        Key::Up => Some(InputEvent::ScrollUp),
        Key::Down => Some(InputEvent::ScrollDown),
        Key::Esc => Some(InputEvent::Esc),
        Key::Tab => Some(InputEvent::NextField),
        Key::BackTab => Some(InputEvent::PrevField),
        Key::Other => None,
    }
}

} // verus!
