use vstd::prelude::*;

use crate::action::Direction;
use crate::text::{chars_of, string_from_chars};

verus! {

/// One change to a text field.
#[derive(Debug, Clone, Copy, PartialEq, Eq, Structural)]
pub enum Edit {
    Insert(char),
    Backspace,
    Delete,
    Move(Direction),
    Home,
    End,
}

/// The abstract state of a text field: its characters and the cursor, an index between
/// two characters (0 before the first, `text.len()` after the last).
pub struct EditorModel {
    pub text: Seq<char>,
    pub cursor: int,
}

impl EditorModel {
    pub open spec fn wf(self) -> bool {
        0 <= self.cursor <= self.text.len()
    }

    /// A field holding `text`, with the cursor after its last character.
    pub open spec fn filled(text: Seq<char>) -> EditorModel {
        EditorModel { text, cursor: text.len() as int }
    }

    pub open spec fn empty() -> EditorModel {
        EditorModel { text: Seq::empty(), cursor: 0 }
    }
}

/// Index where the line holding position `i` starts: just after the last `'\n'` before `i`,
/// or 0.
pub open spec fn line_start(t: Seq<char>, i: int) -> int
    decreases i,
{
    if i <= 0 {
        0
    } else if t[i - 1] == '\n' {
        i
    } else {
        line_start(t, i - 1)
    }
}

/// Index where the line holding position `i` ends: the first `'\n'` at or after `i`, or the
/// length of `t`.
pub open spec fn line_end(t: Seq<char>, i: int) -> int
    decreases t.len() - i,
{
    if i >= t.len() {
        t.len() as int
    } else if t[i] == '\n' {
        i
    } else {
        line_end(t, i + 1)
    }
}

/// Number of line breaks in `s`.
pub open spec fn count_newlines(s: Seq<char>) -> nat
    decreases s.len(),
{
    if s.len() == 0 {
        0
    } else {
        count_newlines(s.drop_last()) + if s.last() == '\n' {
            1nat
        } else {
            0nat
        }
    }
}

/// Cursor after moving one line up: the same column on the line above, or the end of that
/// line when it is shorter; unchanged on the first line.
pub open spec fn cursor_up(t: Seq<char>, c: int) -> int {
    let s = line_start(t, c);
    if s == 0 {
        c
    } else {
        let above = line_start(t, s - 1);
        if above + (c - s) <= s - 1 {
            above + (c - s)
        } else {
            s - 1
        }
    }
}

/// Cursor after moving one line down: the same column on the line below, or the end of that
/// line when it is shorter; unchanged on the last line.
pub open spec fn cursor_down(t: Seq<char>, c: int) -> int {
    let e = line_end(t, c);
    if e >= t.len() {
        c
    } else {
        let below = e + 1;
        let below_end = line_end(t, below);
        if below + (c - line_start(t, c)) <= below_end {
            below + (c - line_start(t, c))
        } else {
            below_end
        }
    }
}

/// The effect of one edit on a text field.
pub open spec fn apply_edit(m: EditorModel, e: Edit) -> EditorModel {
    match e {
        Edit::Insert(c) => EditorModel { text: m.text.insert(m.cursor, c), cursor: m.cursor + 1 },
        Edit::Backspace => if m.cursor > 0 {
            EditorModel { text: m.text.remove(m.cursor - 1), cursor: m.cursor - 1 }
        } else {
            m
        },
        Edit::Delete => if m.cursor < m.text.len() {
            EditorModel { text: m.text.remove(m.cursor), cursor: m.cursor }
        } else {
            m
        },
        Edit::Move(Direction::Left) => if m.cursor > 0 {
            EditorModel { cursor: m.cursor - 1, ..m }
        } else {
            m
        },
        Edit::Move(Direction::Right) => if m.cursor < m.text.len() {
            EditorModel { cursor: m.cursor + 1, ..m }
        } else {
            m
        },
        Edit::Move(Direction::Up) => EditorModel { cursor: cursor_up(m.text, m.cursor), ..m },
        Edit::Move(Direction::Down) => EditorModel { cursor: cursor_down(m.text, m.cursor), ..m },
        Edit::Home => EditorModel { cursor: line_start(m.text, m.cursor), ..m },
        Edit::End => EditorModel { cursor: line_end(m.text, m.cursor), ..m },
    }
}

pub proof fn lemma_line_start_bounds(t: Seq<char>, i: int)
    requires
        0 <= i <= t.len(),
    ensures
        0 <= line_start(t, i) <= i,
        line_start(t, i) == 0 || t[line_start(t, i) - 1] == '\n',
    decreases i,
{
    if i > 0 && t[i - 1] != '\n' {
        lemma_line_start_bounds(t, i - 1);
    }
}

pub proof fn lemma_line_end_bounds(t: Seq<char>, i: int)
    requires
        0 <= i <= t.len(),
    ensures
        i <= line_end(t, i) <= t.len(),
        line_end(t, i) == t.len() || t[line_end(t, i)] == '\n',
    decreases t.len() - i,
{
    if i < t.len() && t[i] != '\n' {
        lemma_line_end_bounds(t, i + 1);
    }
}

/// Moving keeps the cursor inside the text.
pub proof fn lemma_apply_edit_wf(m: EditorModel, e: Edit)
    requires
        m.wf(),
    ensures
        apply_edit(m, e).wf(),
{
    lemma_line_start_bounds(m.text, m.cursor);
    lemma_line_end_bounds(m.text, m.cursor);
    let s = line_start(m.text, m.cursor);
    if s > 0 {
        lemma_line_start_bounds(m.text, s - 1);
    }
    let e0 = line_end(m.text, m.cursor);
    if e0 < m.text.len() {
        lemma_line_end_bounds(m.text, e0 + 1);
    }
}

/// Deleting the character just typed gives the field back as it was.
pub proof fn law_backspace_undoes_insert(m: EditorModel, c: char)
    requires
        m.wf(),
    ensures
        apply_edit(apply_edit(m, Edit::Insert(c)), Edit::Backspace) == m,
{
    assert(m.text.insert(m.cursor, c).remove(m.cursor) =~= m.text);
}

/// One step left and one step right cancel out wherever both are possible.
pub proof fn law_left_right_cancel(m: EditorModel)
    requires
        m.wf(),
    ensures
        m.cursor > 0 ==> apply_edit(
            apply_edit(m, Edit::Move(Direction::Left)),
            Edit::Move(Direction::Right),
        ) == m,
        m.cursor < m.text.len() ==> apply_edit(
            apply_edit(m, Edit::Move(Direction::Right)),
            Edit::Move(Direction::Left),
        ) == m,
{
}

proof fn lemma_no_newline_since_line_start(t: Seq<char>, c: int)
    requires
        0 <= c <= t.len(),
    ensures
        forall|k: int| line_start(t, c) <= k < c ==> t[k] != '\n',
    decreases c,
{
    if c > 0 && t[c - 1] != '\n' {
        lemma_no_newline_since_line_start(t, c - 1);
    }
}

proof fn lemma_line_end_across(t: Seq<char>, i: int, c: int)
    requires
        0 <= i <= c <= t.len(),
        forall|k: int| i <= k < c ==> t[k] != '\n',
    ensures
        line_end(t, i) == line_end(t, c),
    decreases c - i,
{
    if i < c {
        lemma_line_end_across(t, i + 1, c);
    }
}

/// Home then End lands where End alone lands: on the end of the cursor's line.
pub proof fn law_home_then_end(m: EditorModel)
    requires
        m.wf(),
    ensures
        apply_edit(apply_edit(m, Edit::Home), Edit::End) == apply_edit(m, Edit::End),
{
    lemma_line_start_bounds(m.text, m.cursor);
    lemma_no_newline_since_line_start(m.text, m.cursor);
    lemma_line_end_across(m.text, line_start(m.text, m.cursor), m.cursor);
}

/// An editable text field with a cursor.
pub struct TextEditor {
    text: Vec<char>,
    cursor: usize,
}

impl View for TextEditor {
    type V = EditorModel;

    closed spec fn view(&self) -> EditorModel {
        EditorModel { text: self.text@, cursor: self.cursor as int }
    }
}

impl Default for TextEditor {
    fn default() -> (r: Self)
        ensures
            r@ == EditorModel::empty(),
    {
        TextEditor { text: Vec::new(), cursor: 0 }
    }
}

impl Clone for TextEditor {
    fn clone(&self) -> (r: Self)
        ensures
            r@ == self@,
    {
        proof {
            use_type_invariant(self);
        }
        TextEditor { text: self.text.clone(), cursor: self.cursor }
    }
}

impl TextEditor {
    #[verifier::type_invariant]
    spec fn inv(&self) -> bool {
        self.cursor <= self.text.len()
    }

    /// A field holding `text`, with the cursor after its last character.
    pub fn new(text: &str) -> (r: Self)
        ensures
            r@ == EditorModel::filled(text@),
    {
        let chars = chars_of(text);
        let cursor = chars.len();
        TextEditor { text: chars, cursor }
    }

    /// The text of the field.
    pub fn text(&self) -> (r: String)
        ensures
            r@ == self@.text,
            self@.wf(),
    {
        proof {
            use_type_invariant(self);
        }
        string_from_chars(self.text.as_slice())
    }

    pub(crate) fn chars(&self) -> (r: &Vec<char>)
        ensures
            r@ == self@.text,
    {
        &self.text
    }

    pub fn is_empty(&self) -> (r: bool)
        ensures
            r == (self@.text.len() == 0),
    {
        self.text.len() == 0
    }

    pub fn is_at_start(&self) -> (r: bool)
        ensures
            r == (self@.cursor == 0),
    {
        self.cursor == 0
    }

    pub fn is_at_end(&self) -> (r: bool)
        ensures
            r == (self@.cursor == self@.text.len()),
    {
        self.cursor == self.text.len()
    }

    /// The cursor as (column, line), both counted from 0.
    pub fn cursor_position(&self) -> (r: (usize, usize))
        ensures
            r.0 == self@.cursor - line_start(self@.text, self@.cursor),
            r.1 == count_newlines(self@.text.take(self@.cursor)),
    {
        proof {
            use_type_invariant(self);
            lemma_line_start_bounds(self@.text, self@.cursor);
        }
        let start = line_start_of(&self.text, self.cursor);
        let mut lines: usize = 0;
        let mut i: usize = 0;
        while i < self.cursor
            invariant
                self.cursor <= self.text.len(),
                i <= self.cursor,
                lines == count_newlines(self.text@.take(i as int)),
                lines <= i,
            decreases self.cursor - i,
        {
            assert(self.text@.take(i + 1).drop_last() =~= self.text@.take(i as int));
            if self.text[i] == '\n' {
                lines = lines + 1;
            }
            i = i + 1;
        }
        (self.cursor - start, lines)
    }

    /// Applies one edit.
    pub fn edit(&mut self, e: Edit)
        ensures
            final(self)@ == apply_edit(old(self)@, e),
            final(self)@.wf(),
    {
        proof {
            use_type_invariant(&*self);
            lemma_apply_edit_wf(self@, e);
            lemma_line_start_bounds(self@.text, self@.cursor);
            lemma_line_end_bounds(self@.text, self@.cursor);
        }
        let cursor = self.cursor;
        match e {
            Edit::Insert(c) => {
                let mut text = self.text.clone();
                text.insert(cursor, c);
                let n = text.len();
                assert(cursor + 1 <= n);
                *self = TextEditor { text, cursor: cursor + 1 };
            },
            Edit::Backspace => {
                if cursor > 0 {
                    let mut text = self.text.clone();
                    text.remove(cursor - 1);
                    *self = TextEditor { text, cursor: cursor - 1 };
                }
            },
            Edit::Delete => {
                if cursor < self.text.len() {
                    let mut text = self.text.clone();
                    text.remove(cursor);
                    *self = TextEditor { text, cursor };
                }
            },
            Edit::Move(Direction::Left) => {
                if cursor > 0 {
                    self.cursor = cursor - 1;
                }
            },
            Edit::Move(Direction::Right) => {
                if cursor < self.text.len() {
                    self.cursor = cursor + 1;
                }
            },
            Edit::Move(Direction::Up) => {
                let s = line_start_of(&self.text, cursor);
                if s > 0 {
                    proof {
                        lemma_line_start_bounds(self@.text, s - 1);
                    }
                    let above = line_start_of(&self.text, s - 1);
                    let column = cursor - s;
                    if column <= s - 1 - above {
                        self.cursor = above + column;
                    } else {
                        self.cursor = s - 1;
                    }
                }
            },
            Edit::Move(Direction::Down) => {
                let e_end = line_end_of(&self.text, cursor);
                if e_end < self.text.len() {
                    proof {
                        lemma_line_end_bounds(self@.text, e_end + 1);
                    }
                    let below = e_end + 1;
                    let below_end = line_end_of(&self.text, below);
                    let column = cursor - line_start_of(&self.text, cursor);
                    if column <= below_end - below {
                        self.cursor = below + column;
                    } else {
                        self.cursor = below_end;
                    }
                }
            },
            Edit::Home => {
                self.cursor = line_start_of(&self.text, cursor);
            },
            Edit::End => {
                self.cursor = line_end_of(&self.text, cursor);
            },
        }
    }
}

fn line_start_of(text: &Vec<char>, i: usize) -> (r: usize)
    requires
        i <= text.len(),
    ensures
        r == line_start(text@, i as int),
{
    let mut j = i;
    while j > 0 && text[j - 1] != '\n'
        invariant
            j <= i <= text.len(),
            line_start(text@, i as int) == line_start(text@, j as int),
        decreases j,
    {
        j = j - 1;
    }
    j
}

fn line_end_of(text: &Vec<char>, i: usize) -> (r: usize)
    requires
        i <= text.len(),
    ensures
        r == line_end(text@, i as int),
{
    let mut j = i;
    while j < text.len() && text[j] != '\n'
        invariant
            i <= j <= text.len(),
            line_end(text@, i as int) == line_end(text@, j as int),
        decreases text.len() - j,
    {
        j = j + 1;
    }
    j
}

} // verus!
