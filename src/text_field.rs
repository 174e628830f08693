use vstd::prelude::*;

use crate::text::{chars_of, string_from_chars};

verus! {

/// Where the cursor lands after a step to the left from `pos`.
pub open spec fn step_left(pos: nat) -> nat {
    if pos > 0 {
        (pos - 1) as nat
    } else {
        0
    }
}

/// Where the cursor lands after a step to the right from `pos` in a text of `len` characters.
pub open spec fn step_right(pos: nat, len: nat) -> nat {
    if pos < len {
        pos + 1
    } else {
        len
    }
}

/// `post` is `pre` with `c` inserted at the cursor and the cursor moved past it.
pub open spec fn inserted(post: TextField, pre: TextField, c: char) -> bool {
    &&& post.text() == pre.text().insert(pre.pos() as int, c)
    &&& post.pos() == pre.pos() + 1
}

/// `post` is `pre` with the character under the cursor removed, if there is one.
pub open spec fn deleted_forward(post: TextField, pre: TextField) -> bool {
    &&& post.text() == if pre.pos() < pre.text().len() {
        pre.text().remove(pre.pos() as int)
    } else {
        pre.text()
    }
    &&& post.pos() == pre.pos()
}

/// `post` is `pre` with the character before the cursor removed and the
/// cursor stepped back over it, if the cursor was not at the start.
pub open spec fn deleted_backward(post: TextField, pre: TextField) -> bool {
    &&& post.text() == if pre.pos() > 0 {
        pre.text().remove(pre.pos() - 1)
    } else {
        pre.text()
    }
    &&& post.pos() == step_left(pre.pos())
}

/// `post` is `pre` with the cursor one step to the left, clamped at the start.
pub open spec fn moved_left(post: TextField, pre: TextField) -> bool {
    &&& post.text() == pre.text()
    &&& post.pos() == step_left(pre.pos())
}

/// `post` is `pre` with the cursor one step to the right, clamped at the end.
pub open spec fn moved_right(post: TextField, pre: TextField) -> bool {
    &&& post.text() == pre.text()
    &&& post.pos() == step_right(pre.pos(), pre.text().len())
}

/// `post` holds no text and has its cursor at offset 0.
pub open spec fn emptied(post: TextField) -> bool {
    &&& post.text() == Seq::<char>::empty()
    &&& post.pos() == 0
}

/// A single line of editable text with a cursor counted in characters.
pub struct TextField {
    content: Vec<char>,
    cursor: usize,
}

impl TextField {
    /// The characters the field holds.
    pub closed spec fn text(&self) -> Seq<char> {
        self.content@
    }

    /// The cursor offset, in characters from the start of the text.
    pub closed spec fn pos(&self) -> nat {
        self.cursor as nat
    }

    /// The cursor never points past the end of the text.
    pub open spec fn wf(&self) -> bool {
        self.pos() <= self.text().len()
    }

    /// An empty field with the cursor at offset 0.
    pub fn new() -> (r: TextField)
        ensures
            r.wf(),
            r.text() == Seq::<char>::empty(),
            r.pos() == 0,
    {
        TextField { content: Vec::new(), cursor: 0 }
    }

    /// A field pre-seeded with `s`, the cursor after its last character.
    pub fn from_text(s: &str) -> (r: TextField)
        ensures
            r.wf(),
            r.text() == s@,
            r.pos() == s@.len(),
    {
        let content = chars_of(s);
        let cursor = content.len();
        TextField { content, cursor }
    }

    /// Inserts `c` at the cursor and moves the cursor past it.
    pub fn insert(&mut self, c: char)
        requires
            old(self).wf(),
            old(self).text().len() < usize::MAX,
        ensures
            final(self).wf(),
            inserted(*final(self), *old(self), c),
    {
        self.content.insert(self.cursor, c);
        self.cursor = self.cursor + 1;
    }

    /// Removes the character under the cursor; does nothing at the end of the text.
    pub fn delete_forward(&mut self)
        requires
            old(self).wf(),
        ensures
            final(self).wf(),
            deleted_forward(*final(self), *old(self)),
    {
        if self.cursor < self.content.len() {
            self.content.remove(self.cursor);
        }
    }

    /// Removes the character before the cursor and steps back over it; does
    /// nothing at the start of the text.
    pub fn delete_backward(&mut self)
        requires
            old(self).wf(),
        ensures
            final(self).wf(),
            deleted_backward(*final(self), *old(self)),
    {
        if self.cursor > 0 {
            self.cursor = self.cursor - 1;
            self.content.remove(self.cursor);
        }
    }

    /// Moves the cursor one character to the left, staying at 0 at the start.
    pub fn move_left(&mut self)
        requires
            old(self).wf(),
        ensures
            final(self).wf(),
            moved_left(*final(self), *old(self)),
    {
        if self.cursor > 0 {
            self.cursor = self.cursor - 1;
        }
    }

    /// Moves the cursor one character to the right, staying at the end of the text.
    pub fn move_right(&mut self)
        requires
            old(self).wf(),
        ensures
            final(self).wf(),
            moved_right(*final(self), *old(self)),
    {
        if self.cursor < self.content.len() {
            self.cursor = self.cursor + 1;
        }
    }

    /// Empties the field and puts the cursor at offset 0.
    pub fn clear(&mut self)
        ensures
            final(self).wf(),
            emptied(*final(self)),
    {
        self.content.clear();
        self.cursor = 0;
    }

    /// Puts the cursor after the last character.
    pub fn set_cursor_to_end(&mut self)
        ensures
            final(self).wf(),
            final(self).text() == old(self).text(),
            final(self).pos() == old(self).text().len(),
    {
        self.cursor = self.content.len();
    }

    /// The cursor offset, in characters.
    pub fn cursor(&self) -> (r: usize)
        ensures
            r == self.pos(),
    {
        self.cursor
    }

    /// The number of characters in the field.
    pub fn len(&self) -> (r: usize)
        ensures
            r == self.text().len(),
    {
        self.content.len()
    }

    /// The text of the field as a `String`.
    pub fn content(&self) -> (r: String)
        ensures
            r@ == self.text(),
    {
        string_from_chars(&self.content)
    }

    /// The characters of the field, in order.
    pub fn chars(&self) -> (r: &Vec<char>)
        ensures
            r@ == self.text(),
    {
        &self.content
    }
}

/// From any position inside the text or at its end, a step left followed by
/// a step right brings the cursor back to where it was and leaves the text
/// as it is.
pub proof fn lemma_left_then_right(start: TextField, left: TextField, back: TextField)
    requires
        start.wf(),
        start.pos() > 0,
        moved_left(left, start),
        moved_right(back, left),
    ensures
        back.pos() == start.pos(),
        back.text() == start.text(),
{
}

} // verus!
