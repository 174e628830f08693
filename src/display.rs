use vstd::prelude::*;

use crate::config::ConfigField;
use crate::state::ConnectionStatus;
use crate::text::{chars_of, decimal, push_decimal, string_from_chars};
use crate::text_field::TextField;

verus! {

/// The most characters the input line's counter announces.
pub const INPUT_LIMIT: u64 = 500;

/// The height of the configuration panel, in rows.
pub const POPUP_HEIGHT: u16 = 15;

/// The widest the configuration panel gets, in columns.
pub const POPUP_MAX_WIDTH: u16 = 70;

/// A rectangle of terminal cells.
#[derive(Debug, Clone, Copy, PartialEq, Eq, Structural)]
pub struct Area {
    pub x: u16,
    pub y: u16,
    pub width: u16,
    pub height: u16,
}

/// `a - b`, or zero where `b` is larger.
pub open spec fn minus(a: u16, b: u16) -> int {
    if a >= b {
        a - b
    } else {
        0
    }
}

/// Where the configuration panel stands on a screen of the given size: at
/// most `POPUP_MAX_WIDTH` wide and ten columns narrower than the screen,
/// `POPUP_HEIGHT` high, centred.
pub fn popup_area(screen_width: u16, screen_height: u16) -> (r: Area)
    ensures
        r.width == if minus(screen_width, 10) < POPUP_MAX_WIDTH { minus(screen_width, 10) } else { POPUP_MAX_WIDTH as int },
        r.height == POPUP_HEIGHT,
        r.x == minus(screen_width, r.width) / 2,
        r.y == minus(screen_height, POPUP_HEIGHT) / 2,
{
    let narrowed = screen_width.saturating_sub(10);
    let width = if narrowed < POPUP_MAX_WIDTH { narrowed } else { POPUP_MAX_WIDTH };
    Area {
        x: screen_width.saturating_sub(width) / 2,
        y: screen_height.saturating_sub(POPUP_HEIGHT) / 2,
        width,
        height: POPUP_HEIGHT,
    }
}

/// The part of the panel inside its border and padding: two cells in from
/// the top left, four cells smaller each way.
pub fn inner_area(popup: Area) -> (r: Area)
    requires
        popup.x + 2 <= u16::MAX,
        popup.y + 2 <= u16::MAX,
    ensures
        r.x == popup.x + 2,
        r.y == popup.y + 2,
        r.width == minus(popup.width, 4),
        r.height == minus(popup.height, 4),
{
    Area {
        x: popup.x + 2,
        y: popup.y + 2,
        width: popup.width.saturating_sub(4),
        height: popup.height.saturating_sub(4),
    }
}

/// A line of text cut around its cursor: what comes before it, the cell the
/// cursor is drawn on, and what comes after.
pub struct CursorSplit {
    pub before: String,
    pub at: String,
    pub after: String,
}

/// The three parts of `text` around a cursor at `pos`: with the cursor on a
/// character, that character is the middle part; past the end, the middle is
/// a blank cell.
pub open spec fn cursor_parts(text: Seq<char>, pos: int) -> (Seq<char>, Seq<char>, Seq<char>) {
    if pos < text.len() {
        (text.subrange(0, pos), seq![text[pos]], text.subrange(pos + 1, text.len() as int))
    } else {
        (text, seq![' '], Seq::<char>::empty())
    }
}

/// Cuts `text` around a cursor at `pos`; see `cursor_parts`.
pub fn split_at_cursor(text: &Vec<char>, pos: usize) -> (r: CursorSplit)
    ensures
        (r.before@, r.at@, r.after@) == cursor_parts(text@, pos as int),
{
    let n = text.len();
    let mut before: Vec<char> = Vec::new();
    let mut at: Vec<char> = Vec::new();
    let mut after: Vec<char> = Vec::new();
    if pos < n {
        let mut i: usize = 0;
        while i < n
            invariant
                n == text@.len(),
                pos < n,
                i <= n,
                before@ == text@.subrange(0, if i < pos { i as int } else { pos as int }),
                at@ == if i > pos { seq![text@[pos as int]] } else { Seq::<char>::empty() },
                after@ == if i > pos + 1 { text@.subrange(pos + 1, i as int) } else { Seq::<char>::empty() },
            decreases n - i,
        {
            if i < pos {
                before.push(text[i]);
            } else if i == pos {
                at.push(text[i]);
            } else {
                after.push(text[i]);
            }
            i = i + 1;
            assert(before@ == text@.subrange(0, if i < pos { i as int } else { pos as int }));
            assert(after@ == if i > pos + 1 { text@.subrange(pos + 1, i as int) } else { Seq::<char>::empty() });
        }
    } else {
        let mut i: usize = 0;
        while i < n
            invariant
                n == text@.len(),
                i <= n,
                before@ == text@.subrange(0, i as int),
            decreases n - i,
        {
            before.push(text[i]);
            i = i + 1;
        }
        at.push(' ');
        assert(before@ == text@);
    }
    CursorSplit {
        before: string_from_chars(&before),
        at: string_from_chars(&at),
        after: string_from_chars(&after),
    }
}

/// The text a field shows: its own text, or one `*` per character where it
/// is masked.
pub open spec fn shown(text: Seq<char>, mask: bool) -> Seq<char> {
    if mask {
        Seq::new(text.len(), |i: int| '*')
    } else {
        text
    }
}

/// The characters to draw for `field`; see `shown`.
pub fn shown_chars(field: &TextField, mask: bool) -> (r: Vec<char>)
    ensures
        r@ == shown(field.text(), mask),
{
    if !mask {
        return field.chars().clone();
    }
    let n = field.len();
    let mut out: Vec<char> = Vec::new();
    let mut i: usize = 0;
    while i < n
        invariant
            n == field.text().len(),
            i <= n,
            out@ == Seq::new(i as nat, |j: int| '*'),
        decreases n - i,
    {
        out.push('*');
        i = i + 1;
        assert(out@ =~= Seq::new(i as nat, |j: int| '*'));
    }
    out
}

/// The name a configuration field is shown under.
pub open spec fn label_of(field: ConfigField) -> Seq<char> {
    match field {
        ConfigField::Username => "Username"@,
        ConfigField::Password => "Password"@,
        ConfigField::ServerUrl => "Server URL"@,
    }
}

/// Whether a field's text is hidden behind `*` on screen.
pub open spec fn masked(field: ConfigField) -> bool {
    field == ConfigField::Password
}

/// The name a configuration field is shown under.
pub fn field_label(field: ConfigField) -> (r: Vec<char>)
    ensures
        r@ == label_of(field),
{
    match field {
        ConfigField::Username => chars_of("Username"),
        ConfigField::Password => chars_of("Password"),
        ConfigField::ServerUrl => chars_of("Server URL"),
    }
}

/// Whether a field's text is hidden behind `*` on screen.
pub fn is_masked(field: ConfigField) -> (r: bool)
    ensures
        r == masked(field),
{
    match field {
        ConfigField::Password => true,
        _ => false,
    }
}

/// The title of a field's box: its label between blanks, marked while it
/// is being edited.
pub fn field_title(field: ConfigField, focused: bool) -> (r: String)
    ensures
        r@ == if focused {
            " "@ + label_of(field) + " (editing) "@
        } else {
            " "@ + label_of(field) + " "@
        },
{
    let mut out = chars_of(" ");
    out.append(&mut field_label(field));
    let mut tail = if focused { chars_of(" (editing) ") } else { chars_of(" ") };
    out.append(&mut tail);
    string_from_chars(&out)
}

/// The title of the input box: whether it is active, and how many characters
/// it holds against `INPUT_LIMIT`.
pub fn input_title(len: usize, focused: bool) -> (r: String)
    ensures
        r@ == (if focused { "Input (Active)"@ } else { "Input"@ }) + " "@ + decimal(len as nat) + "/"@
            + decimal(INPUT_LIMIT as nat) + " "@,
{
    let mut out = if focused { chars_of("Input (Active) ") } else { chars_of("Input ") };
    push_decimal(&mut out, len as u64);
    out.push('/');
    push_decimal(&mut out, INPUT_LIMIT);
    out.push(' ');
    proof {
        reveal_strlit("Input (Active) ");
        reveal_strlit("Input (Active)");
        reveal_strlit("Input ");
        reveal_strlit("Input");
        reveal_strlit(" ");
        reveal_strlit("/");
    }
    assert(out@ =~= (if focused { "Input (Active)"@ } else { "Input"@ }) + " "@ + decimal(len as nat) + "/"@
        + decimal(INPUT_LIMIT as nat) + " "@);
    string_from_chars(&out)
}

/// The words the status bar shows for a connection state.
pub open spec fn status_words(status: ConnectionStatus) -> Seq<char> {
    match status {
        ConnectionStatus::Connected => "Connected"@,
        ConnectionStatus::Disconnected => "Disconnected"@,
        ConnectionStatus::Connecting => "Connecting..."@,
    }
}

/// The words the status bar shows for a connection state.
pub fn status_label(status: ConnectionStatus) -> (r: String)
    ensures
        r@ == status_words(status),
{
    match status {
        ConnectionStatus::Connected => "Connected".to_owned(),
        ConnectionStatus::Disconnected => "Disconnected".to_owned(),
        ConnectionStatus::Connecting => "Connecting...".to_owned(),
    }
}

/// The message counter of the status bar, such as `3 messages`.
pub fn message_count_text(count: usize) -> (r: String)
    ensures
        r@ == decimal(count as nat) + " messages"@,
{
    let mut out: Vec<char> = Vec::new();
    push_decimal(&mut out, count as u64);
    out.append(&mut chars_of(" messages"));
    string_from_chars(&out)
}

} // verus!
