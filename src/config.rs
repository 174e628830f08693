use vstd::prelude::*;

use crate::text_field::{
    deleted_backward, deleted_forward, emptied, inserted, moved_left, moved_right, TextField,
};

verus! {

/// The server the configuration panel offers before the user edits it.
pub const DEFAULT_SERVER_URL: &'static str = "http://ec2-44-250-68-143.us-west-2.compute.amazonaws.com:8000";

/// The fields of the configuration panel, in the order that Tab walks them.
#[derive(Debug, Clone, Copy, PartialEq, Eq, Structural)]
pub enum ConfigField {
    Username,
    Password,
    ServerUrl,
}

/// The number of fields in the configuration panel.
pub const FIELD_COUNT: usize = 3;

impl ConfigField {
    /// The position of the field in navigation order.
    pub open spec fn index(self) -> int {
        match self {
            ConfigField::Username => 0,
            ConfigField::Password => 1,
            ConfigField::ServerUrl => 2,
        }
    }

    /// The field that follows this one, wrapping from the last to the first.
    pub open spec fn after(self) -> ConfigField {
        match self {
            ConfigField::Username => ConfigField::Password,
            ConfigField::Password => ConfigField::ServerUrl,
            ConfigField::ServerUrl => ConfigField::Username,
        }
    }

    /// The field that precedes this one, wrapping from the first to the last.
    pub open spec fn before(self) -> ConfigField {
        match self {
            ConfigField::Username => ConfigField::ServerUrl,
            ConfigField::Password => ConfigField::Username,
            ConfigField::ServerUrl => ConfigField::Password,
        }
    }

    /// The field that follows this one in navigation order.
    pub fn next(self) -> (r: ConfigField)
        ensures
            r == self.after(),
            r.index() == (self.index() + 1) % (FIELD_COUNT as int),
    {
        match self {
            ConfigField::Username => ConfigField::Password,
            ConfigField::Password => ConfigField::ServerUrl,
            ConfigField::ServerUrl => ConfigField::Username,
        }
    }

    /// The field that precedes this one in navigation order.
    pub fn previous(self) -> (r: ConfigField)
        ensures
            r == self.before(),
            r.index() == (self.index() + FIELD_COUNT - 1) % (FIELD_COUNT as int),
    {
        match self {
            ConfigField::Username => ConfigField::ServerUrl,
            ConfigField::Password => ConfigField::Username,
            ConfigField::ServerUrl => ConfigField::Password,
        }
    }
}

/// The configuration panel: three named text fields, the one that has the
/// focus, and whether the panel is shown.
pub struct Config {
    username: TextField,
    password: TextField,
    server_url: TextField,
    focused_field: ConfigField,
    is_visible: bool,
}

/// `post` is `pre` after `close`: hidden, the focus back on the first field,
/// every field as it was.
pub open spec fn hidden_from(post: Config, pre: Config) -> bool {
    &&& !post.visible()
    &&& post.focused() == ConfigField::Username
    &&& forall|f: ConfigField| #[trigger] post.field_of(f) == pre.field_of(f)
}

/// `post` is `pre` after `open`: shown, with the same focus and fields.
pub open spec fn shown_from(post: Config, pre: Config) -> bool {
    &&& post.visible()
    &&& post.focused() == pre.focused()
    &&& forall|f: ConfigField| #[trigger] post.field_of(f) == pre.field_of(f)
}

/// `post` agrees with `pre` on focus, visibility and every field but the focused one.
pub open spec fn only_current_changed(post: Config, pre: Config) -> bool {
    &&& post.focused() == pre.focused()
    &&& post.visible() == pre.visible()
    &&& forall|f: ConfigField| f != pre.focused() ==> #[trigger] post.field_of(f) == pre.field_of(f)
}

/// `post` is `pre` with the focus moved to `target`: the texts are kept, the
/// newly focused field has its cursor at the end, every other field is untouched.
pub open spec fn focus_moved(post: Config, pre: Config, target: ConfigField) -> bool {
    &&& post.focused() == target
    &&& post.visible() == pre.visible()
    &&& post.current().text() == pre.field_of(target).text()
    &&& post.current().pos() == post.current().text().len()
    &&& forall|f: ConfigField| f != target ==> #[trigger] post.field_of(f) == pre.field_of(f)
}

impl Config {
    /// The field `f` of the panel.
    pub closed spec fn field_of(&self, f: ConfigField) -> TextField {
        match f {
            ConfigField::Username => self.username,
            ConfigField::Password => self.password,
            ConfigField::ServerUrl => self.server_url,
        }
    }

    /// The field that has the focus.
    pub closed spec fn focused(&self) -> ConfigField {
        self.focused_field
    }

    /// Whether the panel is shown.
    pub closed spec fn visible(&self) -> bool {
        self.is_visible
    }

    /// The focused field.
    pub open spec fn current(&self) -> TextField {
        self.field_of(self.focused())
    }

    /// Every field keeps its cursor within its text.
    pub open spec fn wf(&self) -> bool {
        forall|f: ConfigField| #[trigger] self.field_of(f).wf()
    }

    /// The panel as the client starts with it: hidden, empty credentials, the
    /// default server with the cursor after it, the focus on the first field.
    pub open spec fn is_initial(&self) -> bool {
        &&& !self.visible()
        &&& self.focused() == ConfigField::Username
        &&& emptied(self.field_of(ConfigField::Username))
        &&& emptied(self.field_of(ConfigField::Password))
        &&& self.field_of(ConfigField::ServerUrl).text() == DEFAULT_SERVER_URL@
        &&& self.field_of(ConfigField::ServerUrl).pos() == DEFAULT_SERVER_URL@.len()
    }

    /// A hidden panel with empty credentials, the default server and the
    /// focus on the first field.
    pub fn new() -> (r: Config)
        ensures
            r.wf(),
            r.is_initial(),
    {
        Config {
            username: TextField::new(),
            password: TextField::new(),
            server_url: TextField::from_text(DEFAULT_SERVER_URL),
            focused_field: ConfigField::Username,
            is_visible: false,
        }
    }

    fn get_field(&self) -> (r: &TextField)
        ensures
            *r == self.current(),
    {
        match self.focused_field {
            ConfigField::Username => &self.username,
            ConfigField::Password => &self.password,
            ConfigField::ServerUrl => &self.server_url,
        }
    }

    fn get_field_mut(&mut self) -> (r: &mut TextField)
        ensures
            *r == old(self).current(),
            final(self).focused() == old(self).focused(),
            final(self).visible() == old(self).visible(),
            final(self).current() == *final(r),
            forall|f: ConfigField| f != old(self).focused() ==> #[trigger] final(self).field_of(f) == old(self).field_of(f),
    {
        match self.focused_field {
            ConfigField::Username => &mut self.username,
            ConfigField::Password => &mut self.password,
            ConfigField::ServerUrl => &mut self.server_url,
        }
    }

    /// Moves the focus to the next field, wrapping around, and puts that
    /// field's cursor at the end of its text.
    pub fn next_field(&mut self)
        requires
            old(self).wf(),
        ensures
            final(self).wf(),
            focus_moved(*final(self), *old(self), old(self).focused().after()),
            final(self).focused().index() == (old(self).focused().index() + 1) % (FIELD_COUNT as int),
    {
        self.focused_field = self.focused_field.next();
        self.get_field_mut().set_cursor_to_end();
        proof {
            assert forall|f: ConfigField| #[trigger] self.field_of(f).wf() by {
                if f != self.focused() {
                    assert(self.field_of(f) == old(self).field_of(f));
                }
            }
        }
    }

    /// Moves the focus to the previous field, wrapping around, and puts that
    /// field's cursor at the end of its text.
    pub fn previous_field(&mut self)
        requires
            old(self).wf(),
        ensures
            final(self).wf(),
            focus_moved(*final(self), *old(self), old(self).focused().before()),
            final(self).focused().index() == (old(self).focused().index() + FIELD_COUNT - 1) % (FIELD_COUNT as int),
    {
        self.focused_field = self.focused_field.previous();
        self.get_field_mut().set_cursor_to_end();
        proof {
            assert forall|f: ConfigField| #[trigger] self.field_of(f).wf() by {
                if f != self.focused() {
                    assert(self.field_of(f) == old(self).field_of(f));
                }
            }
        }
    }

    /// Inserts `c` at the cursor of the focused field.
    pub fn insert_char(&mut self, c: char)
        requires
            old(self).wf(),
            old(self).current().text().len() < usize::MAX,
        ensures
            final(self).wf(),
            only_current_changed(*final(self), *old(self)),
            inserted(final(self).current(), old(self).current(), c),
    {
        self.get_field_mut().insert(c);
    }

    /// Removes the character under the cursor of the focused field, if any.
    pub fn delete_char(&mut self)
        requires
            old(self).wf(),
        ensures
            final(self).wf(),
            only_current_changed(*final(self), *old(self)),
            deleted_forward(final(self).current(), old(self).current()),
    {
        self.get_field_mut().delete_forward();
    }

    /// Removes the character before the cursor of the focused field, if any.
    pub fn backspace(&mut self)
        requires
            old(self).wf(),
        ensures
            final(self).wf(),
            only_current_changed(*final(self), *old(self)),
            deleted_backward(final(self).current(), old(self).current()),
    {
        self.get_field_mut().delete_backward();
    }

    /// Moves the cursor of the focused field one character left.
    pub fn move_cursor_left(&mut self)
        requires
            old(self).wf(),
        ensures
            final(self).wf(),
            only_current_changed(*final(self), *old(self)),
            moved_left(final(self).current(), old(self).current()),
    {
        self.get_field_mut().move_left();
    }

    /// Moves the cursor of the focused field one character right.
    pub fn move_cursor_right(&mut self)
        requires
            old(self).wf(),
        ensures
            final(self).wf(),
            only_current_changed(*final(self), *old(self)),
            moved_right(final(self).current(), old(self).current()),
    {
        self.get_field_mut().move_right();
    }

    /// Shows the panel.
    pub fn open(&mut self)
        ensures
            shown_from(*final(self), *old(self)),
    {
        self.is_visible = true;
    }

    /// Hides the panel and returns the focus to the first field; what was
    /// typed stays in the fields.
    pub fn close(&mut self)
        ensures
            hidden_from(*final(self), *old(self)),
    {
        self.is_visible = false;
        self.focused_field = ConfigField::Username;
    }

    /// The field that has the focus.
    pub fn focused_field(&self) -> (r: ConfigField)
        ensures
            r == self.focused(),
    {
        self.focused_field
    }

    /// Whether the panel is shown.
    pub fn is_visible(&self) -> (r: bool)
        ensures
            r == self.visible(),
    {
        self.is_visible
    }

    /// The field `which`, for reading.
    pub fn field(&self, which: ConfigField) -> (r: &TextField)
        ensures
            *r == self.field_of(which),
    {
        match which {
            ConfigField::Username => &self.username,
            ConfigField::Password => &self.password,
            ConfigField::ServerUrl => &self.server_url,
        }
    }

    /// The focused field, for reading.
    pub fn current_field(&self) -> (r: &TextField)
        ensures
            *r == self.current(),
    {
        self.get_field()
    }
}

/// Moving the focus forward once per field, as `next_field` does, brings it
/// back to the field it started on.
pub proof fn lemma_next_field_cycles(c0: Config, c1: Config, c2: Config, c3: Config)
    requires
        focus_moved(c1, c0, c0.focused().after()),
        focus_moved(c2, c1, c1.focused().after()),
        focus_moved(c3, c2, c2.focused().after()),
    ensures
        c3.focused() == c0.focused(),
        c3.focused().index() == c0.focused().index(),
{
}

/// Closing the panel and opening it again puts the focus on the first field,
/// whichever field had it before, and keeps every field's text and cursor.
pub proof fn lemma_reopen_focuses_first(before: Config, hidden: Config, shown: Config)
    requires
        hidden_from(hidden, before),
        shown_from(shown, hidden),
    ensures
        shown.focused() == ConfigField::Username,
        shown.visible(),
        forall|f: ConfigField| #[trigger] shown.field_of(f) == before.field_of(f),
{
    assert forall|f: ConfigField| #[trigger] shown.field_of(f) == before.field_of(f) by {
        assert(shown.field_of(f) == hidden.field_of(f));
    }
}

} // verus!
