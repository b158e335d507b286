//! The input box: one line of text with a cursor, and what the text is
//! for once it is confirmed.

use crate::text::push_char;
use vstd::prelude::*;

verus! {

/// What a confirmed text is for.
#[derive(Clone, Copy, Debug, PartialEq, Eq, Structural)]
pub enum InputCallbackId {
    /// The input folder, on the settings screen.
    SettingsInputFolder,
    /// The output folder, on the settings screen.
    SettingsOutputFolder,
    /// The template, on the settings screen.
    SettingsTemplateId,
    /// The user's name, on the settings screen.
    SettingsFullName,
    /// The target month of the edited job.
    EditTargetMonth,
    /// A field of the edited job, 0 to 4.
    EditJobField(usize),
    /// The input folder, in the wizard.
    WizardInputFolder,
    /// The output folder, in the wizard.
    WizardOutputFolder,
    /// The template, in the wizard.
    WizardTemplateId,
    /// The user's name, in the wizard.
    WizardFullName,
}

/// An open input box.
#[derive(Debug, PartialEq, Eq)]
pub struct InputBoxState {
    /// What the user is asked for.
    pub prompt: String,
    /// The text entered so far.
    pub value: String,
    /// The cursor: the number of characters in front of it.
    pub cursor: usize,
    /// What the text is for.
    pub callback_id: InputCallbackId,
}

/// `InputBoxState` over mathematical values.
pub struct InputBoxView {
    pub prompt: Seq<char>,
    pub value: Seq<char>,
    pub cursor: nat,
    pub callback_id: InputCallbackId,
}

impl View for InputBoxState {
    type V = InputBoxView;

    open spec fn view(&self) -> InputBoxView {
        InputBoxView {
            prompt: self.prompt@,
            value: self.value@,
            cursor: self.cursor as nat,
            callback_id: self.callback_id,
        }
    }
}

impl Clone for InputBoxState {
    fn clone(&self) -> (copy: Self)
        ensures
            copy == *self,
    {
        InputBoxState {
            prompt: self.prompt.clone(),
            value: self.value.clone(),
            cursor: self.cursor,
            callback_id: self.callback_id,
        }
    }
}

/// The text `value` without its character at `index`; `value` itself where
/// it has no such character.
pub open spec fn without_index(value: Seq<char>, index: int) -> Seq<char> {
    if 0 <= index < value.len() {
        value.remove(index)
    } else {
        value
    }
}

/// The box after a backspace: the character in front of the cursor is gone
/// and the cursor has moved one to the left; nothing happens at the start.
pub open spec fn after_backspace(b: InputBoxView) -> InputBoxView {
    if b.cursor > 0 {
        InputBoxView {
            value: without_index(b.value, b.cursor - 1),
            cursor: (b.cursor - 1) as nat,
            ..b
        }
    } else {
        b
    }
}

/// The box after a delete: the character at the cursor is gone.
pub open spec fn after_delete(b: InputBoxView) -> InputBoxView {
    InputBoxView { value: without_index(b.value, b.cursor as int), ..b }
}

/// How many characters are scrolled out to the left in a field
/// `display_width` wide, so that the cursor stays in sight.
pub open spec fn scroll_offset(cursor: nat, display_width: nat) -> nat {
    if display_width >= 2 && cursor > display_width - 2 {
        (cursor - (display_width - 2)) as nat
    } else {
        0
    }
}

/// The part of `value` that shows in a field `display_width` wide with the
/// cursor at `cursor`.
pub open spec fn visible_text(value: Seq<char>, cursor: nat, display_width: nat) -> Seq<char> {
    let from = if scroll_offset(cursor, display_width) < value.len() {
        scroll_offset(cursor, display_width) as int
    } else {
        value.len() as int
    };
    let to = if from + display_width < value.len() {
        from + display_width
    } else {
        value.len() as int
    };
    value.subrange(from, to)
}

/// The visible part of the text with the mark `|` at the cursor; the mark
/// stands at the end where the cursor lies beyond the visible part.
pub open spec fn visible_with_cursor_text(
    value: Seq<char>,
    cursor: nat,
    display_width: nat,
) -> Seq<char> {
    let visible = visible_text(value, cursor, display_width);
    let at = cursor - scroll_offset(cursor, display_width);
    let mark = if at <= visible.len() {
        at
    } else {
        visible.len() as int
    };
    visible.subrange(0, mark) + seq!['|'] + visible.subrange(mark, visible.len() as int)
}

/// The characters of `s` from `from` up to `to`.
fn slice(s: &str, from: usize, to: usize) -> (part: String)
    requires
        from <= to <= s@.len(),
    ensures
        part@ == s@.subrange(from as int, to as int),
{
    s.substring_char(from, to).to_owned()
}

/// `s` without its character at `index`.
fn remove_at(s: &str, index: usize) -> (rest: String)
    requires
        index < s@.len(),
    ensures
        rest@ == s@.remove(index as int),
{
    let n = s.unicode_len();
    let mut out = slice(s, 0, index);
    out.append(s.substring_char(index + 1, n));
    out
}

impl InputBoxState {
    /// Whether the cursor lies within the text or at its end.
    pub open spec fn cursor_in_text(&self) -> bool {
        self.cursor <= self.value@.len()
    }

    /// Types `c` at the cursor and moves the cursor behind it.
    pub fn insert_char(&mut self, c: char)
        requires
            old(self).cursor_in_text(),
        ensures
            final(self)@ == (InputBoxView {
                value: old(self)@.value.insert(old(self).cursor as int, c),
                cursor: old(self)@.cursor + 1,
                ..old(self)@
            }),
            final(self).cursor_in_text(),
    {
        let n = self.value.as_str().unicode_len();
        let mut out = slice(self.value.as_str(), 0, self.cursor);
        push_char(&mut out, c);
        out.append(self.value.as_str().substring_char(self.cursor, n));
        let longer = out.as_str().unicode_len();
        proof {
            assert(out@ =~= self.value@.insert(self.cursor as int, c));
            assert(longer == n + 1);
        }
        self.value = out;
        self.cursor += 1;
    }

    /// Deletes the character in front of the cursor and moves the cursor
    /// one to the left.
    pub fn backspace(&mut self)
        ensures
            final(self)@ == after_backspace(old(self)@),
            old(self).cursor_in_text() ==> final(self).cursor_in_text(),
    {
        if self.cursor > 0 {
            let n = self.value.as_str().unicode_len();
            if self.cursor - 1 < n {
                self.value = remove_at(self.value.as_str(), self.cursor - 1);
            }
            self.cursor -= 1;
        }
    }

    /// Deletes the character at the cursor.
    pub fn delete(&mut self)
        ensures
            final(self)@ == after_delete(old(self)@),
            old(self).cursor_in_text() ==> final(self).cursor_in_text(),
    {
        let n = self.value.as_str().unicode_len();
        if self.cursor < n {
            self.value = remove_at(self.value.as_str(), self.cursor);
        }
    }

    /// Moves the cursor one to the left, unless it is at the start.
    pub fn move_left(&mut self)
        ensures
            final(self)@ == (InputBoxView {
                cursor: if old(self).cursor > 0 {
                    (old(self).cursor - 1) as nat
                } else {
                    0
                },
                ..old(self)@
            }),
            old(self).cursor_in_text() ==> final(self).cursor_in_text(),
    {
        if self.cursor > 0 {
            self.cursor -= 1;
        }
    }

    /// Moves the cursor one to the right, unless it is at the end or beyond.
    pub fn move_right(&mut self)
        ensures
            final(self)@ == (InputBoxView {
                cursor: if old(self).cursor < old(self).value@.len() {
                    old(self)@.cursor + 1
                } else {
                    old(self)@.cursor
                },
                ..old(self)@
            }),
            old(self).cursor_in_text() ==> final(self).cursor_in_text(),
    {
        let n = self.value.as_str().unicode_len();
        if self.cursor < n {
            self.cursor += 1;
        }
    }

    /// Moves the cursor to the start.
    pub fn move_home(&mut self)
        ensures
            final(self)@ == (InputBoxView { cursor: 0, ..old(self)@ }),
            final(self).cursor_in_text(),
    {
        self.cursor = 0;
    }

    /// Moves the cursor to the end.
    pub fn move_end(&mut self)
        ensures
            final(self)@ == (InputBoxView { cursor: old(self).value@.len(), ..old(self)@ }),
            final(self).cursor_in_text(),
    {
        self.cursor = self.value.as_str().unicode_len();
    }

    /// Empties the line.
    pub fn clear_line(&mut self)
        ensures
            final(self)@ == (InputBoxView { value: Seq::empty(), cursor: 0, ..old(self)@ }),
            final(self).cursor_in_text(),
    {
        self.value = String::new();
        self.cursor = 0;
    }

    /// What the field shows when it is `display_width` characters wide:
    /// the visible part of the text with the mark `|` at the cursor.
    pub fn visible_with_cursor(&self, display_width: usize) -> (shown: String)
        requires
            display_width >= 2 || self.cursor == 0,
        ensures
            shown@ == visible_with_cursor_text(self.value@, self.cursor as nat, display_width as nat),
    {
        let n = self.value.as_str().unicode_len();
        let offset: usize = if display_width >= 2 && self.cursor > display_width - 2 {
            self.cursor - (display_width - 2)
        } else {
            0
        };
        let from: usize = if offset < n {
            offset
        } else {
            n
        };
        let to: usize = if display_width < n - from {
            from + display_width
        } else {
            n
        };
        let visible = slice(self.value.as_str(), from, to);
        let shown_len = to - from;
        let at = self.cursor - offset;
        let mark: usize = if at <= shown_len {
            at
        } else {
            shown_len
        };
        let mut out = slice(visible.as_str(), 0, mark);
        push_char(&mut out, '|');
        out.append(visible.as_str().substring_char(mark, shown_len));
        proof {
            assert(out@ =~= visible_with_cursor_text(
                self.value@,
                self.cursor as nat,
                display_width as nat,
            ));
        }
        out
    }
}

/// Typing a character and taking it back with a backspace leaves the box
/// as it was.
pub proof fn law_backspace_undoes_insert(b: InputBoxView, c: char)
    requires
        b.cursor <= b.value.len(),
    ensures
        after_backspace(
            InputBoxView { value: b.value.insert(b.cursor as int, c), cursor: b.cursor + 1, ..b },
        ) == b,
{
    let typed = b.value.insert(b.cursor as int, c);
    assert(typed.remove(b.cursor as int) =~= b.value);
}

} // verus!
