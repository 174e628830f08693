use vstd::prelude::*;

use crate::config::{focus_moved, hidden_from, only_current_changed, shown_from, Config};
use crate::input::InputEvent;
use crate::message::{Message, MessageSender};
use crate::network::{NetworkRequest, Token};
use crate::text::{chars_of, has_visible, has_visible_chars, string_from_chars};
use crate::text_field::{
    deleted_backward, deleted_forward, emptied, inserted, moved_left, moved_right, TextField,
};

verus! {

/// The line the history starts with.
pub const WELCOME_TEXT: &'static str = "Welcome to Message Client! Start typing to send messages.";

/// Which surface receives edit events.
#[derive(Debug, Clone, Copy, PartialEq, Eq, Structural)]
pub enum FocusedItem {
    Main,
    Config,
}

/// The state of the link to the server, as the status bar shows it.
#[derive(Debug, Clone, Copy, PartialEq, Eq, Structural)]
pub enum ConnectionStatus {
    Connected,
    Disconnected,
    Connecting,
}

/// What the event loop has to do after an event was applied.
pub enum Action {
    Nothing,
    Quit,
    Request(NetworkRequest),
}

/// The whole state of the client that events mutate and the renderer reads.
pub struct AppState {
    messages: Vec<Message>,
    input: TextField,
    scroll_offset: u16,
    connection_status: ConnectionStatus,
    focused_item: FocusedItem,
    session_token: Option<Token>,
    config: Config,
}

/// History, scroll position, connection status and session agree.
pub open spec fn same_outer(post: AppState, pre: AppState) -> bool {
    &&& post.history() == pre.history()
    &&& post.scroll() == pre.scroll()
    &&& post.status() == pre.status()
    &&& post.session() == pre.session()
}

/// `post` differs from `pre` at most in the primary input.
pub open spec fn same_but_input(post: AppState, pre: AppState) -> bool {
    &&& same_outer(post, pre)
    &&& post.mode() == pre.mode()
    &&& post.panel() == pre.panel()
}

/// `post` differs from `pre` at most in the focus mode and the panel.
pub open spec fn same_but_panel(post: AppState, pre: AppState) -> bool {
    &&& same_outer(post, pre)
    &&& post.input_field() == pre.input_field()
}

/// `post` is `pre` after a submission of the primary input: where there is
/// visible text and a session, the text leads the history as a message of the
/// session's user and the input is emptied; otherwise nothing changes.
pub open spec fn submitted(post: AppState, pre: AppState) -> bool {
    if pre.can_submit() {
        &&& emptied(post.input_field())
        &&& post.history().len() == pre.history().len() + 1
        &&& post.history().subrange(1, post.history().len() as int) == pre.history()
        &&& post.history()[0].sender == MessageSender::User(pre.session()->0.user_id)
        &&& post.history()[0].content@ == pre.input_field().text()
        &&& post.history()[0].username == pre.session()->0.username
        &&& post.scroll() == pre.scroll()
        &&& post.status() == pre.status()
        &&& post.session() == pre.session()
        &&& post.mode() == pre.mode()
        &&& post.panel() == pre.panel()
    } else {
        post == pre
    }
}

/// What a submission from `pre` hands out: the input's text where it goes
/// out, else nothing.
pub open spec fn emitted(pre: AppState, sent: Option<String>) -> bool {
    if pre.can_submit() {
        sent matches Some(s) && s@ == pre.input_field().text()
    } else {
        sent is None
    }
}

/// `post` is `pre` with the scroll offset set to `offset`.
pub open spec fn scrolled(post: AppState, pre: AppState, offset: u16) -> bool {
    &&& post.scroll() == offset
    &&& post.history() == pre.history()
    &&& post.status() == pre.status()
    &&& post.session() == pre.session()
    &&& post.input_field() == pre.input_field()
    &&& post.mode() == pre.mode()
    &&& post.panel() == pre.panel()
}

/// The scroll offset one line up, staying at 0.
pub open spec fn offset_up(offset: u16) -> u16 {
    if offset > 0 {
        (offset - 1) as u16
    } else {
        0
    }
}

/// The scroll offset one line down, staying at the largest value.
pub open spec fn offset_down(offset: u16) -> u16 {
    if offset < u16::MAX {
        (offset + 1) as u16
    } else {
        u16::MAX
    }
}

/// `post` and `action` are what `event` gives from `pre`: under `Main` edits
/// go to the primary input, under `Config` to the panel's focused field;
/// field navigation works only in the panel, submission only under `Main`;
/// opening the panel switches to `Config`, and `Esc` closes the panel (or
/// clears the input under `Main`).
pub open spec fn event_applied(post: AppState, pre: AppState, event: InputEvent, action: Action) -> bool {
    let main = pre.mode() == FocusedItem::Main;
    match event {
        InputEvent::Quit => action is Quit && post == pre,
        InputEvent::Submit => if main {
            &&& submitted(post, pre)
            &&& if pre.can_submit() {
                action matches Action::Request(NetworkRequest::SendMessage { content, session })
                    && content@ == pre.input_field().text() && session == pre.session()->0
            } else {
                action is Nothing
            }
        } else {
            action is Nothing && post == pre
        },
        InputEvent::CharInput(c) => action is Nothing && if main {
            same_but_input(post, pre) && inserted(post.input_field(), pre.input_field(), c)
        } else {
            &&& same_but_panel(post, pre)
            &&& post.mode() == pre.mode()
            &&& only_current_changed(post.panel(), pre.panel())
            &&& inserted(post.panel().current(), pre.panel().current(), c)
        },
        InputEvent::Backspace => action is Nothing && if main {
            same_but_input(post, pre) && deleted_backward(post.input_field(), pre.input_field())
        } else {
            &&& same_but_panel(post, pre)
            &&& post.mode() == pre.mode()
            &&& only_current_changed(post.panel(), pre.panel())
            &&& deleted_backward(post.panel().current(), pre.panel().current())
        },
        InputEvent::Delete => action is Nothing && if main {
            same_but_input(post, pre) && deleted_forward(post.input_field(), pre.input_field())
        } else {
            &&& same_but_panel(post, pre)
            &&& post.mode() == pre.mode()
            &&& only_current_changed(post.panel(), pre.panel())
            &&& deleted_forward(post.panel().current(), pre.panel().current())
        },
        InputEvent::CursorLeft => action is Nothing && if main {
            same_but_input(post, pre) && moved_left(post.input_field(), pre.input_field())
        } else {
            &&& same_but_panel(post, pre)
            &&& post.mode() == pre.mode()
            &&& only_current_changed(post.panel(), pre.panel())
            &&& moved_left(post.panel().current(), pre.panel().current())
        },
        InputEvent::CursorRight => action is Nothing && if main {
            same_but_input(post, pre) && moved_right(post.input_field(), pre.input_field())
        } else {
            &&& same_but_panel(post, pre)
            &&& post.mode() == pre.mode()
            &&& only_current_changed(post.panel(), pre.panel())
            &&& moved_right(post.panel().current(), pre.panel().current())
        },
        InputEvent::ScrollUp => action is Nothing && scrolled(post, pre, offset_up(pre.scroll())),
        InputEvent::ScrollDown => action is Nothing && scrolled(post, pre, offset_down(pre.scroll())),
        InputEvent::Esc => action is Nothing && if main {
            same_but_input(post, pre) && emptied(post.input_field())
        } else {
            &&& same_but_panel(post, pre)
            &&& post.mode() == FocusedItem::Main
            &&& hidden_from(post.panel(), pre.panel())
        },
        InputEvent::NextField => action is Nothing && if main {
            post == pre
        } else {
            &&& same_but_panel(post, pre)
            &&& post.mode() == pre.mode()
            &&& focus_moved(post.panel(), pre.panel(), pre.panel().focused().after())
        },
        InputEvent::PrevField => action is Nothing && if main {
            post == pre
        } else {
            &&& same_but_panel(post, pre)
            &&& post.mode() == pre.mode()
            &&& focus_moved(post.panel(), pre.panel(), pre.panel().focused().before())
        },
        InputEvent::OpenConfig => action is Nothing && if main {
            &&& same_but_panel(post, pre)
            &&& post.mode() == FocusedItem::Config
            &&& shown_from(post.panel(), pre.panel())
        } else {
            post == pre
        },
    }
}

impl AppState {
    /// The message history, newest first.
    pub closed spec fn history(&self) -> Seq<Message> {
        self.messages@
    }

    /// How many lines the history is scrolled by.
    pub closed spec fn scroll(&self) -> u16 {
        self.scroll_offset
    }

    /// The state of the link to the server.
    pub closed spec fn status(&self) -> ConnectionStatus {
        self.connection_status
    }

    /// The current session, if there is one.
    pub closed spec fn session(&self) -> Option<Token> {
        self.session_token
    }

    /// The primary input line.
    pub closed spec fn input_field(&self) -> TextField {
        self.input
    }

    /// Which surface receives edit events.
    pub closed spec fn mode(&self) -> FocusedItem {
        self.focused_item
    }

    /// The configuration panel.
    pub closed spec fn panel(&self) -> Config {
        self.config
    }

    /// Every cursor lies within its text, and the panel is shown exactly
    /// when it has the focus.
    pub open spec fn wf(&self) -> bool {
        &&& self.input_field().wf()
        &&& self.panel().wf()
        &&& (self.mode() == FocusedItem::Config) == self.panel().visible()
    }

    /// Whether a submission would go out: the input holds visible text and
    /// there is a session.
    pub open spec fn can_submit(&self) -> bool {
        self.session() is Some && has_visible(self.input_field().text())
    }

    /// The field that character, deletion and cursor events reach.
    pub open spec fn edit_target(&self) -> TextField {
        if self.mode() == FocusedItem::Main {
            self.input_field()
        } else {
            self.panel().current()
        }
    }

    /// The state the client starts with at `now` (seconds since the Unix
    /// epoch): the welcome line in the history, an empty input, no session,
    /// the focus on the input and the panel hidden.
    pub fn new(now: i64) -> (r: AppState)
        ensures
            r.wf(),
            r.history().len() == 1,
            r.history()[0].sender == MessageSender::System,
            r.history()[0].content@ == WELCOME_TEXT@,
            r.history()[0].username is None,
            r.history()[0].timestamp == now,
            emptied(r.input_field()),
            r.scroll() == 0,
            r.status() == ConnectionStatus::Disconnected,
            r.mode() == FocusedItem::Main,
            r.session() is None,
            r.panel().is_initial(),
    {
        let welcome = Message {
            timestamp: now,
            sender: MessageSender::System,
            content: string_from_chars(&chars_of(WELCOME_TEXT)),
            username: None,
        };
        let mut messages: Vec<Message> = Vec::new();
        messages.push(welcome);
        AppState {
            messages,
            input: TextField::new(),
            scroll_offset: 0,
            connection_status: ConnectionStatus::Disconnected,
            focused_item: FocusedItem::Main,
            session_token: None,
            config: Config::new(),
        }
    }

    /// Replaces the session; a new session marks the client connected.
    pub fn update_session(&mut self, token: Option<Token>)
        requires
            old(self).wf(),
        ensures
            final(self).wf(),
            final(self).session() == token,
            final(self).status() == if token is Some {
                ConnectionStatus::Connected
            } else {
                old(self).status()
            },
            final(self).history() == old(self).history(),
            final(self).scroll() == old(self).scroll(),
            final(self).input_field() == old(self).input_field(),
            final(self).mode() == old(self).mode(),
            final(self).panel() == old(self).panel(),
    {
        if token.is_some() {
            self.connection_status = ConnectionStatus::Connected;
        }
        self.session_token = token;
    }

    /// Puts a message at the head of the history.
    pub fn add_message(&mut self, sender: MessageSender, content: String, timestamp: i64, username: Option<String>)
        requires
            old(self).wf(),
        ensures
            final(self).wf(),
            final(self).history() == seq![(Message { timestamp, sender, content, username })] + old(self).history(),
            final(self).scroll() == old(self).scroll(),
            final(self).status() == old(self).status(),
            final(self).session() == old(self).session(),
            final(self).input_field() == old(self).input_field(),
            final(self).mode() == old(self).mode(),
            final(self).panel() == old(self).panel(),
    {
        self.messages.insert(0, Message { timestamp, sender, content, username });
        assert(self.messages@ =~= seq![(Message { timestamp, sender, content, username })] + old(self).history());
    }

    /// Submits the primary input as written at `now`: where it holds visible
    /// text and there is a session, the text is put at the head of the
    /// history, the input is emptied and the text is returned for sending;
    /// otherwise nothing changes and nothing is returned.
    pub fn send_message(&mut self, now: i64) -> (sent: Option<String>)
        requires
            old(self).wf(),
        ensures
            final(self).wf(),
            submitted(*final(self), *old(self)),
            emitted(*old(self), sent),
            old(self).can_submit() ==> final(self).history()[0].timestamp == now,
    {
        if !has_visible_chars(self.input.chars()) {
            return None;
        }
        let (user_id, username) = match &self.session_token {
            None => {
                return None;
            },
            Some(token) => {
                let username = match &token.username {
                    Some(name) => Some(name.clone()),
                    None => None,
                };
                (token.user_id, username)
            },
        };
        let content = self.input.content();
        let sent = self.input.content();
        self.add_message(MessageSender::User(user_id), content, now, username);
        self.input.clear();
        assert(self.messages@.subrange(1, self.messages@.len() as int) =~= old(self).history());
        Some(sent)
    }

    /// Inserts `c` at the cursor of the primary input.
    pub fn insert_char(&mut self, c: char)
        requires
            old(self).wf(),
            old(self).input_field().text().len() < usize::MAX,
        ensures
            final(self).wf(),
            same_but_input(*final(self), *old(self)),
            inserted(final(self).input_field(), old(self).input_field(), c),
    {
        self.input.insert(c);
    }

    /// Removes the character under the cursor of the primary input, if any.
    pub fn delete_char(&mut self)
        requires
            old(self).wf(),
        ensures
            final(self).wf(),
            same_but_input(*final(self), *old(self)),
            deleted_forward(final(self).input_field(), old(self).input_field()),
    {
        self.input.delete_forward();
    }

    /// Removes the character before the cursor of the primary input, if any.
    pub fn backspace(&mut self)
        requires
            old(self).wf(),
        ensures
            final(self).wf(),
            same_but_input(*final(self), *old(self)),
            deleted_backward(final(self).input_field(), old(self).input_field()),
    {
        self.input.delete_backward();
    }

    /// Moves the cursor of the primary input one character left.
    pub fn move_cursor_left(&mut self)
        requires
            old(self).wf(),
        ensures
            final(self).wf(),
            same_but_input(*final(self), *old(self)),
            moved_left(final(self).input_field(), old(self).input_field()),
    {
        self.input.move_left();
    }

    /// Moves the cursor of the primary input one character right.
    pub fn move_cursor_right(&mut self)
        requires
            old(self).wf(),
        ensures
            final(self).wf(),
            same_but_input(*final(self), *old(self)),
            moved_right(final(self).input_field(), old(self).input_field()),
    {
        self.input.move_right();
    }

    /// Empties the primary input.
    pub fn clear_input(&mut self)
        requires
            old(self).wf(),
        ensures
            final(self).wf(),
            same_but_input(*final(self), *old(self)),
            emptied(final(self).input_field()),
    {
        self.input.clear();
    }

    /// Scrolls the history one line up, stopping at the top.
    pub fn scroll_up(&mut self)
        requires
            old(self).wf(),
        ensures
            final(self).wf(),
            scrolled(*final(self), *old(self), offset_up(old(self).scroll())),
    {
        if self.scroll_offset > 0 {
            self.scroll_offset = self.scroll_offset - 1;
        }
    }

    /// Scrolls the history one line down, stopping at the largest offset.
    pub fn scroll_down(&mut self)
        requires
            old(self).wf(),
        ensures
            final(self).wf(),
            scrolled(*final(self), *old(self), offset_down(old(self).scroll())),
    {
        if self.scroll_offset < u16::MAX {
            self.scroll_offset = self.scroll_offset + 1;
        }
    }

    /// Applies `event`, received at `now` (seconds since the Unix epoch), and
    /// says what the event loop has to do next.
    pub fn handle_event(&mut self, event: InputEvent, now: i64) -> (action: Action)
        requires
            old(self).wf(),
            event is CharInput ==> old(self).edit_target().text().len() < usize::MAX,
        ensures
            final(self).wf(),
            event_applied(*final(self), *old(self), event, action),
            event is Submit && old(self).mode() == FocusedItem::Main && old(self).can_submit()
                ==> final(self).history()[0].timestamp == now,
    {
        let main = match self.focused_item {
            FocusedItem::Main => true,
            FocusedItem::Config => false,
        };
        match event {
            InputEvent::Quit => Action::Quit,
            InputEvent::Submit => {
                if !main {
                    return Action::Nothing;
                }
                match self.send_message(now) {
                    Some(content) => match &self.session_token {
                        Some(token) => Action::Request(
                            NetworkRequest::SendMessage { content, session: token.duplicate() },
                        ),
                        None => Action::Nothing,
                    },
                    None => Action::Nothing,
                }
            },
            InputEvent::CharInput(c) => {
                if main {
                    self.input.insert(c);
                } else {
                    self.config.insert_char(c);
                }
                Action::Nothing
            },
            InputEvent::Backspace => {
                if main {
                    self.input.delete_backward();
                } else {
                    self.config.backspace();
                }
                Action::Nothing
            },
            InputEvent::Delete => {
                if main {
                    self.input.delete_forward();
                } else {
                    self.config.delete_char();
                }
                Action::Nothing
            },
            InputEvent::CursorLeft => {
                if main {
                    self.input.move_left();
                } else {
                    self.config.move_cursor_left();
                }
                Action::Nothing
            },
            InputEvent::CursorRight => {
                if main {
                    self.input.move_right();
                } else {
                    self.config.move_cursor_right();
                }
                Action::Nothing
            },
            InputEvent::ScrollUp => {
                self.scroll_up();
                Action::Nothing
            },
            InputEvent::ScrollDown => {
                self.scroll_down();
                Action::Nothing
            },
            InputEvent::Esc => {
                if main {
                    self.input.clear();
                } else {
                    self.config.close();
                    self.focused_item = FocusedItem::Main;
                }
                Action::Nothing
            },
            InputEvent::NextField => {
                if !main {
                    self.config.next_field();
                }
                Action::Nothing
            },
            InputEvent::PrevField => {
                if !main {
                    self.config.previous_field();
                }
                Action::Nothing
            },
            InputEvent::OpenConfig => {
                if main {
                    self.focused_item = FocusedItem::Config;
                    self.config.open();
                }
                Action::Nothing
            },
        }
    }

    /// The message history, newest first.
    pub fn messages(&self) -> (r: &Vec<Message>)
        ensures
            r@ == self.history(),
    {
        &self.messages
    }

    /// How many lines the history is scrolled by.
    pub fn scroll_offset(&self) -> (r: u16)
        ensures
            r == self.scroll(),
    {
        self.scroll_offset
    }

    /// The state of the link to the server.
    pub fn connection_status(&self) -> (r: ConnectionStatus)
        ensures
            r == self.status(),
    {
        self.connection_status
    }

    /// The current session, if there is one.
    pub fn session_token(&self) -> (r: &Option<Token>)
        ensures
            *r == self.session(),
    {
        &self.session_token
    }

    /// The primary input line, for reading.
    pub fn input(&self) -> (r: &TextField)
        ensures
            *r == self.input_field(),
    {
        &self.input
    }

    /// The configuration panel, for reading.
    pub fn config(&self) -> (r: &Config)
        ensures
            *r == self.panel(),
    {
        &self.config
    }

    /// Which surface receives edit events.
    pub fn focused_item(&self) -> (r: FocusedItem)
        ensures
            r == self.mode(),
    {
        self.focused_item
    }
}

/// Opening the panel from the primary input and then pressing `Esc` passes
/// through `Config` with the panel shown, comes back to `Main` with the panel
/// hidden, and the close itself leaves every field's text as it was.
pub proof fn lemma_open_then_close(start: AppState, opened: AppState, closed: AppState, first: Action, second: Action)
    requires
        start.mode() == FocusedItem::Main,
        event_applied(opened, start, InputEvent::OpenConfig, first),
        event_applied(closed, opened, InputEvent::Esc, second),
    ensures
        opened.mode() == FocusedItem::Config,
        opened.panel().visible(),
        closed.mode() == FocusedItem::Main,
        !closed.panel().visible(),
        forall|f| #[trigger] closed.panel().field_of(f).text() == opened.panel().field_of(f).text(),
{
    assert forall|f| #[trigger] closed.panel().field_of(f).text() == opened.panel().field_of(f).text() by {
        assert(closed.panel().field_of(f) == opened.panel().field_of(f));
    }
}

} // verus!
