use vstd::prelude::*;

verus! {

/// An edit or navigation event, already decoded from the keyboard.
#[derive(Debug, Clone, Copy, PartialEq, Eq, Structural)]
pub enum InputEvent {
    Quit,
    Submit,
    CharInput(char),
    Backspace,
    Delete,
    CursorLeft,
    CursorRight,
    ScrollUp,
    ScrollDown,
    Esc,
    NextField,
    PrevField,
    OpenConfig,
}

} // verus!
