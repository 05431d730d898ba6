use vstd::prelude::*;
use vstd::utf8::{decode_utf8, encode_utf8, valid_utf8};

use crate::action::Direction;
use crate::editor::{apply_edit, Edit, EditorModel, TextEditor};
use crate::error::EzcurlError;
use crate::text::{decode_utf8_lossy, lossy_utf8, string_from_chars, trim, trim_chars, trim_start};

verus! {

/// The request methods the client offers, in the order in which they are listed.
#[derive(Debug, Clone, Copy, PartialEq, Eq, Structural)]
pub enum HttpMethod {
    Get,
    Post,
    Put,
    Patch,
    Delete,
    Head,
    Options,
}

/// Position of a method in the list.
pub open spec fn method_index(m: HttpMethod) -> int {
    match m {
        HttpMethod::Get => 0,
        HttpMethod::Post => 1,
        HttpMethod::Put => 2,
        HttpMethod::Patch => 3,
        HttpMethod::Delete => 4,
        HttpMethod::Head => 5,
        HttpMethod::Options => 6,
    }
}

/// Number of methods in the list.
pub open spec fn method_count() -> int {
    7
}

/// The method at position `i` of the list (`i` taken modulo the list's length).
pub open spec fn method_at(i: int) -> HttpMethod {
    let k = i % method_count();
    if k == 0 {
        HttpMethod::Get
    } else if k == 1 {
        HttpMethod::Post
    } else if k == 2 {
        HttpMethod::Put
    } else if k == 3 {
        HttpMethod::Patch
    } else if k == 4 {
        HttpMethod::Delete
    } else if k == 5 {
        HttpMethod::Head
    } else {
        HttpMethod::Options
    }
}

/// The name of a method on the wire.
pub open spec fn method_name(m: HttpMethod) -> Seq<char> {
    match m {
        HttpMethod::Get => "GET"@,
        HttpMethod::Post => "POST"@,
        HttpMethod::Put => "PUT"@,
        HttpMethod::Patch => "PATCH"@,
        HttpMethod::Delete => "DELETE"@,
        HttpMethod::Head => "HEAD"@,
        HttpMethod::Options => "OPTIONS"@,
    }
}

impl HttpMethod {
    /// Every method, in list order.
    pub fn all() -> (r: Vec<HttpMethod>)
        ensures
            r@.len() == method_count(),
            forall|i: int| 0 <= i < method_count() ==> r@[i] == method_at(i),
    {
        let mut v = Vec::new();
        v.push(HttpMethod::Get);
        v.push(HttpMethod::Post);
        v.push(HttpMethod::Put);
        v.push(HttpMethod::Patch);
        v.push(HttpMethod::Delete);
        v.push(HttpMethod::Head);
        v.push(HttpMethod::Options);
        v
    }

    /// The method's name on the wire.
    pub fn as_str(self) -> (r: &'static str)
        ensures
            r@ == method_name(self),
    {
        match self {
            HttpMethod::Get => "GET",
            HttpMethod::Post => "POST",
            HttpMethod::Put => "PUT",
            HttpMethod::Patch => "PATCH",
            HttpMethod::Delete => "DELETE",
            HttpMethod::Head => "HEAD",
            HttpMethod::Options => "OPTIONS",
        }
    }

    /// Position of the method in the list.
    pub fn index(self) -> (r: usize)
        ensures
            r == method_index(self),
    {
        match self {
            HttpMethod::Get => 0,
            HttpMethod::Post => 1,
            HttpMethod::Put => 2,
            HttpMethod::Patch => 3,
            HttpMethod::Delete => 4,
            HttpMethod::Head => 5,
            HttpMethod::Options => 6,
        }
    }

    /// The method after this one in the list; after the last comes the first.
    pub fn next(self) -> (r: Self)
        ensures
            r == method_at(method_index(self) + 1),
    {
        match self {
            HttpMethod::Get => HttpMethod::Post,
            HttpMethod::Post => HttpMethod::Put,
            HttpMethod::Put => HttpMethod::Patch,
            HttpMethod::Patch => HttpMethod::Delete,
            HttpMethod::Delete => HttpMethod::Head,
            HttpMethod::Head => HttpMethod::Options,
            HttpMethod::Options => HttpMethod::Get,
        }
    }

    /// The method before this one in the list; before the first comes the last.
    pub fn previous(self) -> (r: Self)
        ensures
            r == method_at(method_index(self) + method_count() - 1),
    {
        match self {
            HttpMethod::Get => HttpMethod::Options,
            HttpMethod::Post => HttpMethod::Get,
            HttpMethod::Put => HttpMethod::Post,
            HttpMethod::Patch => HttpMethod::Put,
            HttpMethod::Delete => HttpMethod::Patch,
            HttpMethod::Head => HttpMethod::Delete,
            HttpMethod::Options => HttpMethod::Head,
        }
    }
}

/// The methods form a cycle: `previous` undoes `next` and `next` undoes `previous`, and
/// every method comes back after as many steps as there are methods.
pub proof fn law_method_cycle(m: HttpMethod)
    ensures
        method_at(method_index(method_at(method_index(m) + 1)) + method_count() - 1) == m,
        method_at(method_index(method_at(method_index(m) + method_count() - 1)) + 1) == m,
        method_at(method_index(m) + method_count()) == m,
        method_at(method_index(m)) == m,
{
}

/// The two single-line text fields of a request.
#[derive(Debug, Clone, Copy, PartialEq, Eq, Structural)]
pub enum RequestField {
    Url,
    Body,
}

/// The two columns of the header table.
#[derive(Debug, Clone, Copy, PartialEq, Eq, Structural)]
pub enum HeaderPart {
    Key,
    Value,
}

/// Whether a header row is sent: `Included` when it has a name, `Pending` when it is
/// entirely empty, `Invalid` when it has a value but no name.
#[derive(Debug, Clone, Copy, PartialEq, Eq, Structural)]
pub enum HeaderState {
    Included,
    Pending,
    Invalid,
}

/// The abstract state of a header row.
pub struct RowModel {
    pub key: EditorModel,
    pub value: EditorModel,
}

pub open spec fn row_is_empty(r: RowModel) -> bool {
    r.key.text.len() == 0 && r.value.text.len() == 0
}

pub open spec fn empty_row() -> RowModel {
    RowModel { key: EditorModel::empty(), value: EditorModel::empty() }
}

pub open spec fn row_state(r: RowModel) -> HeaderState {
    if r.key.text.len() != 0 {
        HeaderState::Included
    } else if r.value.text.len() != 0 {
        HeaderState::Invalid
    } else {
        HeaderState::Pending
    }
}

/// One row of the header table: a name and a value, each an editable field.
pub struct HeaderRow {
    key: TextEditor,
    value: TextEditor,
}

impl View for HeaderRow {
    type V = RowModel;

    closed spec fn view(&self) -> RowModel {
        RowModel { key: self.key@, value: self.value@ }
    }
}

impl Default for HeaderRow {
    fn default() -> (r: Self)
        ensures
            r@ == empty_row(),
    {
        HeaderRow { key: TextEditor::default(), value: TextEditor::default() }
    }
}

impl Clone for HeaderRow {
    fn clone(&self) -> (r: Self)
        ensures
            r@ == self@,
    {
        HeaderRow { key: self.key.clone(), value: self.value.clone() }
    }
}

impl HeaderRow {
    /// A row holding `key` and `value`.
    pub fn new(key: &str, value: &str) -> (r: Self)
        ensures
            r@ == (RowModel { key: EditorModel::filled(key@), value: EditorModel::filled(value@) }),
    {
        HeaderRow { key: TextEditor::new(key), value: TextEditor::new(value) }
    }

    pub fn key(&self) -> (r: String)
        ensures
            r@ == self@.key.text,
    {
        self.key.text()
    }

    pub fn value(&self) -> (r: String)
        ensures
            r@ == self@.value.text,
    {
        self.value.text()
    }

    pub fn state(&self) -> (r: HeaderState)
        ensures
            r == row_state(self@),
    {
        match (self.key.is_empty(), self.value.is_empty()) {
            (false, _) => HeaderState::Included,
            (true, false) => HeaderState::Invalid,
            (true, true) => HeaderState::Pending,
        }
    }

    /// Whether both the name and the value are empty.
    pub fn is_empty(&self) -> (r: bool)
        ensures
            r == row_is_empty(self@),
    {
        self.key.is_empty() && self.value.is_empty()
    }
}

/// The abstract state of the header table: its rows, the selected row and the selected
/// column.
pub struct HeadersModel {
    pub rows: Seq<RowModel>,
    pub selected: int,
    pub part: HeaderPart,
}

impl HeadersModel {
    /// At least one row, a selected row that exists, and an empty row at the end where
    /// the next header is typed.
    pub open spec fn wf(self) -> bool {
        &&& self.rows.len() >= 1
        &&& 0 <= self.selected < self.rows.len()
        &&& row_is_empty(self.rows.last())
    }

    /// The table with one empty row, the name column selected.
    pub open spec fn initial() -> HeadersModel {
        HeadersModel { rows: seq![empty_row()], selected: 0, part: HeaderPart::Key }
    }
}

pub open spec fn rows_model(rows: Seq<HeaderRow>) -> Seq<RowModel> {
    rows.map_values(|r: HeaderRow| r@)
}

/// Drops empty rows at the end of the table while the row before is empty too, moving
/// the selection back onto the table.
pub open spec fn trim_draft_rows(h: HeadersModel) -> HeadersModel
    decreases h.rows.len(),
{
    if h.rows.len() > 1 && row_is_empty(h.rows.last()) && row_is_empty(h.rows[h.rows.len() - 2]) {
        trim_draft_rows(
            HeadersModel {
                rows: h.rows.drop_last(),
                selected: if h.selected <= h.rows.len() - 2 {
                    h.selected
                } else {
                    h.rows.len() - 2
                },
                part: h.part,
            },
        )
    } else {
        h
    }
}

/// Leaves exactly one empty row at the end of the table.
pub open spec fn keep_one_empty_row(h: HeadersModel) -> HeadersModel {
    let t = trim_draft_rows(h);
    if t.rows.len() == 0 || !row_is_empty(t.rows.last()) {
        HeadersModel { rows: t.rows.push(empty_row()), ..t }
    } else {
        t
    }
}

/// The table after one edit of the selected field. The arrows cross from the end of a
/// name into its value and from the start of a value back into its name, and move the
/// selection between rows; a line break is ignored; anything else goes to the selected
/// field.
pub open spec fn edit_headers(h: HeadersModel, e: Edit) -> HeadersModel {
    let row = h.rows[h.selected];
    if e == Edit::Move(Direction::Left) && h.part == HeaderPart::Value && row.value.cursor == 0 {
        keep_one_empty_row(
            HeadersModel {
                rows: h.rows.update(
                    h.selected,
                    RowModel { key: apply_edit(row.key, Edit::End), ..row },
                ),
                part: HeaderPart::Key,
                ..h
            },
        )
    } else if e == Edit::Move(Direction::Right) && h.part == HeaderPart::Key && row.key.cursor
        == row.key.text.len() {
        keep_one_empty_row(
            HeadersModel {
                rows: h.rows.update(
                    h.selected,
                    RowModel { value: apply_edit(row.value, Edit::Home), ..row },
                ),
                part: HeaderPart::Value,
                ..h
            },
        )
    } else if e == Edit::Move(Direction::Up) {
        keep_one_empty_row(
            HeadersModel {
                selected: if h.selected > 0 {
                    h.selected - 1
                } else {
                    0
                },
                ..h
            },
        )
    } else if e == Edit::Move(Direction::Down) {
        keep_one_empty_row(
            HeadersModel {
                selected: if h.selected + 1 <= h.rows.len() - 1 {
                    h.selected + 1
                } else {
                    h.rows.len() - 1
                },
                ..h
            },
        )
    } else if e == Edit::Insert('\n') {
        h
    } else {
        keep_one_empty_row(
            HeadersModel {
                rows: h.rows.update(
                    h.selected,
                    if h.part == HeaderPart::Key {
                        RowModel { key: apply_edit(row.key, e), ..row }
                    } else {
                        RowModel { value: apply_edit(row.value, e), ..row }
                    },
                ),
                ..h
            },
        )
    }
}

/// Tab: from a name to its value, from a value to the next row's name.
pub open spec fn next_header_field(h: HeadersModel) -> HeadersModel {
    match h.part {
        HeaderPart::Key => HeadersModel { part: HeaderPart::Value, ..h },
        HeaderPart::Value => HeadersModel {
            part: HeaderPart::Key,
            selected: if h.selected + 1 <= h.rows.len() - 1 {
                h.selected + 1
            } else {
                h.rows.len() - 1
            },
            ..h
        },
    }
}

/// Shift+Tab: from a value to its name, from a name to the previous row's value.
pub open spec fn previous_header_field(h: HeadersModel) -> HeadersModel {
    match h.part {
        HeaderPart::Value => HeadersModel { part: HeaderPart::Key, ..h },
        HeaderPart::Key => if h.selected > 0 {
            HeadersModel { selected: h.selected - 1, part: HeaderPart::Value, ..h }
        } else {
            h
        },
    }
}

/// A header added by the program goes just before the empty row at the end.
pub open spec fn add_header_row(h: HeadersModel, key: Seq<char>, value: Seq<char>) -> HeadersModel {
    HeadersModel {
        rows: h.rows.insert(
            h.rows.len() - 1,
            RowModel { key: EditorModel::filled(key), value: EditorModel::filled(value) },
        ),
        ..h
    }
}

/// The rows that are sent, in order: all but the empty ones.
pub open spec fn included_rows(rows: Seq<RowModel>) -> Seq<RowModel>
    decreases rows.len(),
{
    if rows.len() == 0 {
        Seq::empty()
    } else if row_is_empty(rows.last()) {
        included_rows(rows.drop_last())
    } else {
        included_rows(rows.drop_last()).push(rows.last())
    }
}

/// Every row that is sent has a name that is not blank.
pub open spec fn headers_valid(rows: Seq<RowModel>) -> bool {
    forall|i: int|
        0 <= i < rows.len() && !row_is_empty(#[trigger] rows[i]) ==> trim(rows[i].key.text).len()
            > 0
}

/// The (name, value) pairs that are sent, trimmed of surrounding white space.
pub open spec fn header_pairs(rows: Seq<RowModel>) -> Seq<(Seq<char>, Seq<char>)> {
    included_rows(rows).map_values(|r: RowModel| (trim(r.key.text), trim(r.value.text)))
}

pub open spec fn pairs_model(v: Seq<(String, String)>) -> Seq<(Seq<char>, Seq<char>)> {
    v.map_values(|p: (String, String)| (p.0@, p.1@))
}

/// The message of the error for a row with a value but no name.
pub open spec fn empty_header_name_message() -> Seq<char> {
    "header name cannot be empty"@
}

/// The header table of a request. It always ends with one empty row, where the next
/// header is typed.
pub struct HeaderEditor {
    rows: Vec<HeaderRow>,
    selected: usize,
    part: HeaderPart,
}

impl View for HeaderEditor {
    type V = HeadersModel;

    closed spec fn view(&self) -> HeadersModel {
        HeadersModel {
            rows: rows_model(self.rows@),
            selected: self.selected as int,
            part: self.part,
        }
    }
}

impl Default for HeaderEditor {
    fn default() -> (r: Self)
        ensures
            r@ == HeadersModel::initial(),
    {
        let mut rows = Vec::new();
        rows.push(HeaderRow::default());
        let r = HeaderEditor { rows, selected: 0, part: HeaderPart::Key };
        assert(r@.rows =~= seq![empty_row()]);
        r
    }
}

impl Clone for HeaderEditor {
    fn clone(&self) -> (r: Self)
        ensures
            r@ == self@,
    {
        proof {
            use_type_invariant(self);
        }
        let rows = self.rows.clone();
        assert(rows_model(rows@) =~= rows_model(self.rows@));
        HeaderEditor { rows, selected: self.selected, part: self.part }
    }
}

fn keep_one_empty_row_of(rows: &mut Vec<HeaderRow>, selected: &mut usize, part: HeaderPart)
    ensures
        (HeadersModel {
            rows: rows_model(final(rows)@),
            selected: *final(selected) as int,
            part,
        }) == keep_one_empty_row(
            HeadersModel { rows: rows_model(old(rows)@), selected: *old(selected) as int, part },
        ),
{
    let ghost start = HeadersModel {
        rows: rows_model(rows@),
        selected: *selected as int,
        part,
    };
    while rows.len() > 1 && rows[rows.len() - 1].is_empty() && rows[rows.len() - 2].is_empty()
        invariant
            trim_draft_rows(start) == trim_draft_rows(
                HeadersModel { rows: rows_model(rows@), selected: *selected as int, part },
            ),
        decreases rows@.len(),
    {
        let ghost before = rows@;
        let n = rows.len();
        if *selected > n - 2 {
            *selected = n - 2;
        }
        rows.pop();
        assert(rows_model(rows@) =~= rows_model(before).drop_last());
    }
    let n = rows.len();
    if n == 0 || !rows[n - 1].is_empty() {
        let ghost before = rows@;
        rows.push(HeaderRow::default());
        assert(rows_model(rows@) =~= rows_model(before).push(empty_row()));
    }
}

impl HeaderEditor {
    #[verifier::type_invariant]
    spec fn inv(&self) -> bool {
        self@.wf()
    }

    pub fn rows(&self) -> (r: &[HeaderRow])
        ensures
            rows_model(r@) == self@.rows,
            self@.wf(),
    {
        proof {
            use_type_invariant(self);
        }
        self.rows.as_slice()
    }

    pub fn selected(&self) -> (r: usize)
        ensures
            r == self@.selected,
            self@.wf(),
    {
        proof {
            use_type_invariant(self);
        }
        self.selected
    }

    pub fn part(&self) -> (r: HeaderPart)
        ensures
            r == self@.part,
    {
        self.part
    }

    pub fn select_part(&mut self, part: HeaderPart)
        ensures
            final(self)@ == (HeadersModel { part, ..old(self)@ }),
            final(self)@.wf(),
    {
        proof {
            use_type_invariant(&*self);
        }
        self.part = part;
    }

    /// The field under the selection.
    pub fn active_editor(&self) -> (r: &TextEditor)
        ensures
            r@ == (match self@.part {
                HeaderPart::Key => self@.rows[self@.selected].key,
                HeaderPart::Value => self@.rows[self@.selected].value,
            }),
            self@.wf(),
    {
        proof {
            use_type_invariant(self);
        }
        match self.part {
            HeaderPart::Key => &self.rows[self.selected].key,
            HeaderPart::Value => &self.rows[self.selected].value,
        }
    }

    /// Applies one edit to the table.
    pub fn edit(&mut self, e: Edit)
        ensures
            final(self)@ == edit_headers(old(self)@, e),
            final(self)@.wf(),
            e != Edit::Insert('\n') ==> final(self)@.rows.len() == 1 || !row_is_empty(
                final(self)@.rows[final(self)@.rows.len() - 2],
            ),
    {
        proof {
            use_type_invariant(&*self);
        }
        let ghost h = self@;
        if e == Edit::Insert('\n') {
            return ;
        }
        let mut rows: Vec<HeaderRow> = Vec::new();
        rows.push(HeaderRow::default());
        let mut selected: usize = 0;
        std::mem::swap(&mut selected, &mut self.selected);
        std::mem::swap(&mut rows, &mut self.rows);
        let part = self.part;
        assert(rows_model(rows@) == h.rows);
        let ghost rm = rows@;
        let sel = selected;
        let n = rows.len();
        assert(sel < n);
        let mut new_part = part;
        let at_start = rows[sel].value.is_at_start();
        let at_end = rows[sel].key.is_at_end();
        if e == Edit::Move(Direction::Left) && part == HeaderPart::Value && at_start {
            new_part = HeaderPart::Key;
            let mut row = HeaderRow::default();
            rows.set_and_swap(sel, &mut row);
            row.key.edit(Edit::End);
            rows.set(sel, row);
        } else if e == Edit::Move(Direction::Right) && part == HeaderPart::Key && at_end {
            new_part = HeaderPart::Value;
            let mut row = HeaderRow::default();
            rows.set_and_swap(sel, &mut row);
            row.value.edit(Edit::Home);
            rows.set(sel, row);
        } else if e == Edit::Move(Direction::Up) {
            if sel > 0 {
                selected = sel - 1;
            }
        } else if e == Edit::Move(Direction::Down) {
            if sel + 1 <= n - 1 {
                selected = sel + 1;
            } else {
                selected = n - 1;
            }
        } else {
            let mut row = HeaderRow::default();
            rows.set_and_swap(sel, &mut row);
            if part == HeaderPart::Key {
                row.key.edit(e);
            } else {
                row.value.edit(e);
            }
            rows.set(sel, row);
        }
        assert(rows_model(rows@) =~= (if e == Edit::Move(Direction::Up) || e == Edit::Move(Direction::Down) {
            h.rows
        } else {
            edit_headers_rows_before_keep(h, e)
        }));
        proof {
            lemma_keep_one_empty_row_wf(
                HeadersModel { rows: rows_model(rows@), selected: selected as int, part: new_part },
            );
        }
        keep_one_empty_row_of(&mut rows, &mut selected, new_part);
        *self = HeaderEditor { rows, selected, part: new_part };
    }

    /// Tab inside the table.
    pub fn next_field(&mut self)
        ensures
            final(self)@ == next_header_field(old(self)@),
            final(self)@.wf(),
    {
        proof {
            use_type_invariant(&*self);
        }
        match self.part {
            HeaderPart::Key => self.part = HeaderPart::Value,
            HeaderPart::Value => {
                let n = self.rows.len();
                let next = if self.selected + 1 <= n - 1 {
                    self.selected + 1
                } else {
                    n - 1
                };
                self.part = HeaderPart::Key;
                self.selected = next;
            },
        }
    }

    /// Shift+Tab inside the table.
    pub fn previous_field(&mut self)
        ensures
            final(self)@ == previous_header_field(old(self)@),
            final(self)@.wf(),
    {
        proof {
            use_type_invariant(&*self);
        }
        match self.part {
            HeaderPart::Value => self.part = HeaderPart::Key,
            HeaderPart::Key => {
                if self.selected > 0 {
                    self.selected = self.selected - 1;
                    self.part = HeaderPart::Value;
                }
            },
        }
    }

    /// Adds a header just before the empty row at the end.
    pub fn add(&mut self, key: &str, value: &str)
        ensures
            final(self)@ == add_header_row(old(self)@, key@, value@),
            final(self)@.wf(),
    {
        proof {
            use_type_invariant(&*self);
        }
        let ghost before = self.rows@;
        let draft_index = self.rows.len() - 1;
        let mut rows: Vec<HeaderRow> = Vec::new();
        rows.push(HeaderRow::default());
        let mut selected: usize = 0;
        std::mem::swap(&mut selected, &mut self.selected);
        std::mem::swap(&mut rows, &mut self.rows);
        rows.insert(draft_index, HeaderRow::new(key, value));
        proof {
            assert(rows_model(rows@) =~= rows_model(before).insert(
                draft_index as int,
                RowModel { key: EditorModel::filled(key@), value: EditorModel::filled(value@) },
            ));
        }
        *self = HeaderEditor { rows, selected, part: self.part };
    }

    /// The (name, value) pairs to send: every row that is not empty, in order, with both
    /// parts trimmed. A row with a value and a blank name is refused.
    pub fn values(&self) -> (r: Result<Vec<(String, String)>, EzcurlError>)
        ensures
            r is Ok <==> headers_valid(self@.rows),
            r matches Ok(v) ==> pairs_model(v@) == header_pairs(self@.rows),
            r matches Err(e) ==> e matches EzcurlError::InvalidHeader(m) && m@
                == empty_header_name_message(),
    {
        let ghost rows = self@.rows;
        let mut out: Vec<(String, String)> = Vec::new();
        let mut i: usize = 0;
        while i < self.rows.len()
            invariant
                i <= self.rows@.len(),
                rows == rows_model(self.rows@),
                headers_valid(rows.take(i as int)),
                pairs_model(out@) == header_pairs(rows.take(i as int)),
            decreases self.rows@.len() - i,
        {
            assert(rows.take(i + 1).drop_last() =~= rows.take(i as int));
            let row = &self.rows[i];
            if !row.is_empty() {
                let key = trim_chars(row.key.chars());
                if key.len() == 0 {
                    assert(!row_is_empty(rows[i as int]) && trim(rows[i as int].key.text).len() == 0);
                    return Err(EzcurlError::InvalidHeader(String::from_str("header name cannot be empty")));
                }
                let value = trim_chars(row.value.chars());
                let ghost before = out@;
                out.push((string_from_chars(key.as_slice()), string_from_chars(value.as_slice())));
                assert(pairs_model(out@) =~= pairs_model(before).push((trim(rows[i as int].key.text), trim(rows[i as int].value.text))));
            }
            assert(headers_valid(rows.take(i + 1)));
            i = i + 1;
        }
        assert(rows.take(i as int) =~= rows);
        Ok(out)
    }
}

/// The rows of `edit_headers` before the empty row at the end is put right.
pub open spec fn edit_headers_rows_before_keep(h: HeadersModel, e: Edit) -> Seq<RowModel> {
    let row = h.rows[h.selected];
    if e == Edit::Move(Direction::Left) && h.part == HeaderPart::Value && row.value.cursor == 0 {
        h.rows.update(h.selected, RowModel { key: apply_edit(row.key, Edit::End), ..row })
    } else if e == Edit::Move(Direction::Right) && h.part == HeaderPart::Key && row.key.cursor
        == row.key.text.len() {
        h.rows.update(h.selected, RowModel { value: apply_edit(row.value, Edit::Home), ..row })
    } else if h.part == HeaderPart::Key {
        h.rows.update(h.selected, RowModel { key: apply_edit(row.key, e), ..row })
    } else {
        h.rows.update(h.selected, RowModel { value: apply_edit(row.value, e), ..row })
    }
}

pub proof fn lemma_trim_draft_rows(h: HeadersModel)
    requires
        h.rows.len() >= 1,
        0 <= h.selected < h.rows.len(),
    ensures
        trim_draft_rows(h).rows.len() >= 1,
        0 <= trim_draft_rows(h).selected < trim_draft_rows(h).rows.len(),
        trim_draft_rows(h).part == h.part,
        trim_draft_rows(h).rows.len() == 1 || !row_is_empty(trim_draft_rows(h).rows.last())
            || !row_is_empty(trim_draft_rows(h).rows[trim_draft_rows(h).rows.len() - 2]),
        trim_draft_rows(h).rows.len() <= h.rows.len(),
        trim_draft_rows(h).rows == h.rows.take(trim_draft_rows(h).rows.len() as int),
    decreases h.rows.len(),
{
    if h.rows.len() > 1 && row_is_empty(h.rows.last()) && row_is_empty(h.rows[h.rows.len() - 2]) {
        let next = HeadersModel {
            rows: h.rows.drop_last(),
            selected: if h.selected <= h.rows.len() - 2 {
                h.selected
            } else {
                h.rows.len() - 2
            },
            part: h.part,
        };
        lemma_trim_draft_rows(next);
        let t = trim_draft_rows(next);
        assert(h.rows.drop_last().take(t.rows.len() as int) =~= h.rows.take(t.rows.len() as int));
    } else {
        assert(h.rows =~= h.rows.take(h.rows.len() as int));
    }
}

proof fn lemma_trim_keeps_nonempty_selected(h: HeadersModel)
    requires
        h.rows.len() >= 1,
        0 <= h.selected < h.rows.len(),
        !row_is_empty(h.rows[h.selected]),
    ensures
        trim_draft_rows(h).selected == h.selected,
        h.selected < trim_draft_rows(h).rows.len(),
        forall|j: int|
            trim_draft_rows(h).rows.len() <= j < h.rows.len() ==> row_is_empty(#[trigger] h.rows[j]),
    decreases h.rows.len(),
{
    lemma_trim_draft_rows(h);
    if h.rows.len() > 1 && row_is_empty(h.rows.last()) && row_is_empty(h.rows[h.rows.len() - 2]) {
        let next = HeadersModel {
            rows: h.rows.drop_last(),
            selected: if h.selected <= h.rows.len() - 2 {
                h.selected
            } else {
                h.rows.len() - 2
            },
            part: h.part,
        };
        assert(h.selected < h.rows.len() - 2);
        assert(next.rows[next.selected] == h.rows[h.selected]);
        lemma_trim_keeps_nonempty_selected(next);
        assert forall|j: int|
            trim_draft_rows(h).rows.len() <= j < h.rows.len() implies row_is_empty(
                #[trigger] h.rows[j],
            ) by {
            if j < h.rows.len() - 1 {
                assert(next.rows[j] == h.rows[j]);
            }
        }
    }
}

/// Putting the empty row at the end right leaves a selected row that is not empty where
/// it is, with the rows up to it, and the text of every row that remains.
pub proof fn lemma_keep_keeps_nonempty_selected(h: HeadersModel)
    requires
        h.rows.len() >= 1,
        0 <= h.selected < h.rows.len(),
        !row_is_empty(h.rows[h.selected]),
    ensures
        keep_one_empty_row(h).selected == h.selected,
        keep_one_empty_row(h).part == h.part,
        h.selected < keep_one_empty_row(h).rows.len(),
        forall|j: int| 0 <= j <= h.selected ==> #[trigger] keep_one_empty_row(h).rows[j] == h.rows[j],
        forall|j: int|
            0 <= j < keep_one_empty_row(h).rows.len() && j < h.rows.len() ==> (#[trigger] keep_one_empty_row(
                h,
            ).rows[j]).key.text == h.rows[j].key.text && keep_one_empty_row(h).rows[j].value.text
                == h.rows[j].value.text,
{
    lemma_trim_draft_rows(h);
    lemma_trim_keeps_nonempty_selected(h);
    let t = trim_draft_rows(h);
    let k = keep_one_empty_row(h);
    assert forall|j: int| 0 <= j < k.rows.len() && j < h.rows.len() implies (#[trigger] k.rows[j]).key.text
        == h.rows[j].key.text && k.rows[j].value.text == h.rows[j].value.text by {
        if j < t.rows.len() {
            assert(t.rows[j] == h.rows[j]);
        } else {
            assert(row_is_empty(h.rows[j]));
        }
    }
    assert forall|j: int| 0 <= j <= h.selected implies #[trigger] k.rows[j] == h.rows[j] by {
        assert(t.rows[j] == h.rows[j]);
    }
}

/// Left inside a value (its cursor not at its start) moves that cursor one character
/// back and stays in the value column; no row's text changes. Only at the start of a
/// value does Left cross into the name, where the cursor lands at the end of the name.
pub proof fn law_left_in_value(h: HeadersModel)
    requires
        h.wf(),
        h.part == HeaderPart::Value,
    ensures
        ({
            let row = h.rows[h.selected];
            let r = edit_headers(h, Edit::Move(Direction::Left));
            &&& row.value.cursor > 0 && !row_is_empty(row) ==> {
                &&& r.part == HeaderPart::Value
                &&& r.selected == h.selected
                &&& r.rows[h.selected] == (RowModel {
                    value: EditorModel { cursor: row.value.cursor - 1, ..row.value },
                    ..row
                })
                &&& forall|j: int|
                    0 <= j < r.rows.len() && j < h.rows.len() ==> (#[trigger] r.rows[j]).key.text
                        == h.rows[j].key.text && r.rows[j].value.text == h.rows[j].value.text
            }
            &&& row.value.cursor == 0 && !row_is_empty(row) ==> {
                &&& r.part == HeaderPart::Key
                &&& r.selected == h.selected
                &&& r.rows[h.selected].value == row.value
                &&& r.rows[h.selected].key.text == row.key.text
                &&& r.rows[h.selected].key.cursor == crate::editor::line_end(
                    row.key.text,
                    row.key.cursor,
                )
            }
        }),
{
    let row = h.rows[h.selected];
    if !row_is_empty(row) {
        if row.value.cursor > 0 {
            let upd = HeadersModel {
                rows: h.rows.update(h.selected, RowModel { value: apply_edit(row.value, Edit::Move(Direction::Left)), ..row }),
                ..h
            };
            assert(upd.rows[upd.selected] == RowModel { value: apply_edit(row.value, Edit::Move(Direction::Left)), ..row });
            lemma_keep_keeps_nonempty_selected(upd);
            assert forall|j: int| 0 <= j < upd.rows.len() implies (#[trigger] upd.rows[j]).key.text
                == h.rows[j].key.text && upd.rows[j].value.text == h.rows[j].value.text by {
                if j != h.selected {
                    assert(upd.rows[j] == h.rows[j]);
                }
            }
        } else {
            let upd = HeadersModel {
                rows: h.rows.update(h.selected, RowModel { key: apply_edit(row.key, Edit::End), ..row }),
                part: HeaderPart::Key,
                ..h
            };
            assert(upd.rows[upd.selected] == RowModel { key: apply_edit(row.key, Edit::End), ..row });
            lemma_keep_keeps_nonempty_selected(upd);
        }
    }
}

/// Right inside a name (its cursor not at its end) moves that cursor one character on
/// and stays in the name column; at the end of a name Right crosses into the value,
/// where the cursor lands at the start of the value's line.
pub proof fn law_right_in_name(h: HeadersModel)
    requires
        h.wf(),
        h.part == HeaderPart::Key,
    ensures
        ({
            let row = h.rows[h.selected];
            let r = edit_headers(h, Edit::Move(Direction::Right));
            &&& row.key.cursor < row.key.text.len() && row.key.cursor >= 0 ==> {
                &&& r.part == HeaderPart::Key
                &&& r.selected == h.selected
                &&& r.rows[h.selected] == (RowModel {
                    key: EditorModel { cursor: row.key.cursor + 1, ..row.key },
                    ..row
                })
            }
            &&& row.key.cursor == row.key.text.len() && !row_is_empty(row) ==> {
                &&& r.part == HeaderPart::Value
                &&& r.selected == h.selected
                &&& r.rows[h.selected].key == row.key
                &&& r.rows[h.selected].value.text == row.value.text
                &&& r.rows[h.selected].value.cursor == crate::editor::line_start(
                    row.value.text,
                    row.value.cursor,
                )
            }
        }),
{
    let row = h.rows[h.selected];
    if row.key.cursor < row.key.text.len() && row.key.cursor >= 0 {
        let upd = HeadersModel {
            rows: h.rows.update(h.selected, RowModel { key: apply_edit(row.key, Edit::Move(Direction::Right)), ..row }),
            ..h
        };
        assert(upd.rows[upd.selected] == RowModel { key: apply_edit(row.key, Edit::Move(Direction::Right)), ..row });
        lemma_keep_keeps_nonempty_selected(upd);
    } else if row.key.cursor == row.key.text.len() && !row_is_empty(row) {
        let upd = HeadersModel {
            rows: h.rows.update(h.selected, RowModel { value: apply_edit(row.value, Edit::Home), ..row }),
            part: HeaderPart::Value,
            ..h
        };
        assert(upd.rows[upd.selected] == RowModel { value: apply_edit(row.value, Edit::Home), ..row });
        lemma_keep_keeps_nonempty_selected(upd);
    }
}

/// After the empty row at the end is put right, the table ends with exactly one empty
/// row and the selection lies on the table.
pub proof fn lemma_keep_one_empty_row_wf(h: HeadersModel)
    requires
        h.rows.len() >= 1,
        0 <= h.selected < h.rows.len(),
    ensures
        keep_one_empty_row(h).wf(),
        keep_one_empty_row(h).part == h.part,
        keep_one_empty_row(h).rows.len() == 1 || !row_is_empty(
            keep_one_empty_row(h).rows[keep_one_empty_row(h).rows.len() - 2],
        ),
{
    lemma_trim_draft_rows(h);
}


/// Typing a character into the empty row at the end makes it a header and opens a new
/// empty row after it; the typed row keeps the selection.
pub proof fn law_typing_opens_a_new_row(h: HeadersModel, c: char)
    requires
        h.wf(),
        h.selected == h.rows.len() - 1,
        c != '\n',
    ensures
        edit_headers(h, Edit::Insert(c)).rows.len() == h.rows.len() + 1,
        edit_headers(h, Edit::Insert(c)).selected == h.selected,
        !row_is_empty(edit_headers(h, Edit::Insert(c)).rows[h.selected]),
        row_is_empty(edit_headers(h, Edit::Insert(c)).rows.last()),
        edit_headers(h, Edit::Insert(c)).rows.take(h.selected) == h.rows.take(h.selected),
{
    let row = h.rows[h.selected];
    let typed = if h.part == HeaderPart::Key {
        RowModel { key: apply_edit(row.key, Edit::Insert(c)), ..row }
    } else {
        RowModel { value: apply_edit(row.value, Edit::Insert(c)), ..row }
    };
    let updated = HeadersModel { rows: h.rows.update(h.selected, typed), ..h };
    assert(updated.rows.last() == typed);
    assert(!row_is_empty(typed));
    assert(trim_draft_rows(updated) == updated);
    assert(edit_headers(h, Edit::Insert(c)) == keep_one_empty_row(updated));
    assert(keep_one_empty_row(updated).rows == updated.rows.push(empty_row()));
    assert(updated.rows.push(empty_row()).take(h.selected) =~= h.rows.take(h.selected));
}

/// Tab then Shift+Tab in the header table returns to the same field, unless Tab could
/// not move past the last row.
pub proof fn law_next_previous_header_field(h: HeadersModel)
    requires
        h.wf(),
        h.part == HeaderPart::Key || h.selected + 1 < h.rows.len(),
    ensures
        previous_header_field(next_header_field(h)) == h,
{
}

/// A header that the program adds (with a name or a value) is sent, after those already
/// in the table; the table stays valid exactly when the new name is not blank.
pub proof fn law_added_header_is_sent(h: HeadersModel, key: Seq<char>, value: Seq<char>)
    requires
        h.wf(),
        key.len() > 0 || value.len() > 0,
    ensures
        header_pairs(add_header_row(h, key, value).rows) == header_pairs(h.rows).push(
            (trim(key), trim(value)),
        ),
        headers_valid(add_header_row(h, key, value).rows) <==> (headers_valid(h.rows) && trim(
            key,
        ).len() > 0),
        add_header_row(h, key, value).wf(),
{
    let n = h.rows.len();
    let new_row = RowModel { key: EditorModel::filled(key), value: EditorModel::filled(value) };
    let rows2 = add_header_row(h, key, value).rows;
    assert(rows2.drop_last() =~= h.rows.drop_last().push(new_row));
    assert(rows2.drop_last().drop_last() =~= h.rows.drop_last());
    assert(rows2.last() == h.rows.last());
    assert(rows2.drop_last().last() == new_row);
    assert(!row_is_empty(new_row));
    assert(included_rows(rows2) == included_rows(rows2.drop_last()));
    assert(included_rows(rows2) == included_rows(h.rows.drop_last()).push(new_row));
    assert(included_rows(h.rows) == included_rows(h.rows.drop_last()));
    let f = |r: RowModel| (trim(r.key.text), trim(r.value.text));
    assert(included_rows(rows2).map_values(f) =~= included_rows(h.rows).map_values(f).push(
        f(new_row),
    ));
    if headers_valid(rows2) {
        assert(!row_is_empty(rows2[n - 1]));
        assert forall|i: int| 0 <= i < h.rows.len() && !row_is_empty(#[trigger] h.rows[i]) implies trim(
            h.rows[i].key.text,
        ).len() > 0 by {
            if i < n - 1 {
                assert(rows2[i] == h.rows[i]);
            }
        }
    }
    if headers_valid(h.rows) && trim(key).len() > 0 {
        assert forall|i: int| 0 <= i < rows2.len() && !row_is_empty(#[trigger] rows2[i]) implies trim(
            rows2[i].key.text,
        ).len() > 0 by {
            if i < n - 1 {
                assert(rows2[i] == h.rows[i]);
            } else if i == n {
                assert(rows2[i] == h.rows[n - 1]);
            }
        }
    }
}

/// The table after adding the headers of `pairs` one after the other.
pub open spec fn add_header_rows(h: HeadersModel, pairs: Seq<(Seq<char>, Seq<char>)>) -> HeadersModel
    decreases pairs.len(),
{
    if pairs.len() == 0 {
        h
    } else {
        add_header_rows(h, pairs.drop_last()).add_pair(pairs.last())
    }
}

impl HeadersModel {
    pub open spec fn add_pair(self, pair: (Seq<char>, Seq<char>)) -> HeadersModel {
        add_header_row(self, pair.0, pair.1)
    }
}

/// The pairs with both parts trimmed.
pub open spec fn trimmed_pairs(pairs: Seq<(Seq<char>, Seq<char>)>) -> Seq<(Seq<char>, Seq<char>)> {
    pairs.map_values(|p: (Seq<char>, Seq<char>)| (trim(p.0), trim(p.1)))
}

/// Headers that the program adds one after the other (each with a name or a value) are
/// sent in the order added, after those already in the table, trimmed; the table stays
/// valid exactly when none of the new names is blank.
pub proof fn law_added_headers_are_sent(h: HeadersModel, pairs: Seq<(Seq<char>, Seq<char>)>)
    requires
        h.wf(),
        forall|i: int| 0 <= i < pairs.len() ==> #[trigger] pairs[i].0.len() > 0 || pairs[i].1.len() > 0,
    ensures
        add_header_rows(h, pairs).wf(),
        header_pairs(add_header_rows(h, pairs).rows) == header_pairs(h.rows) + trimmed_pairs(pairs),
        headers_valid(add_header_rows(h, pairs).rows) <==> (headers_valid(h.rows) && forall|i: int|
            0 <= i < pairs.len() ==> trim(#[trigger] pairs[i].0).len() > 0),
    decreases pairs.len(),
{
    if pairs.len() == 0 {
        assert(header_pairs(h.rows) + trimmed_pairs(pairs) =~= header_pairs(h.rows));
    } else {
        let prev = pairs.drop_last();
        assert forall|i: int| 0 <= i < prev.len() implies #[trigger] prev[i].0.len() > 0
            || prev[i].1.len() > 0 by {
            assert(prev[i] == pairs[i]);
        }
        law_added_headers_are_sent(h, prev);
        let g = add_header_rows(h, prev);
        let last = pairs.last();
        assert(pairs[pairs.len() - 1] == last);
        law_added_header_is_sent(g, last.0, last.1);
        assert(trimmed_pairs(pairs) =~= trimmed_pairs(prev).push((trim(last.0), trim(last.1))));
        assert(header_pairs(h.rows) + trimmed_pairs(pairs) =~= (header_pairs(h.rows)
            + trimmed_pairs(prev)).push((trim(last.0), trim(last.1))));
        if headers_valid(h.rows) && (forall|i: int|
            0 <= i < prev.len() ==> trim(#[trigger] prev[i].0).len() > 0) && trim(last.0).len() > 0 {
            assert forall|i: int| 0 <= i < pairs.len() implies trim(#[trigger] pairs[i].0).len()
                > 0 by {
                if i < prev.len() {
                    assert(prev[i] == pairs[i]);
                }
            }
        }
        if headers_valid(h.rows) && (forall|i: int|
            0 <= i < pairs.len() ==> trim(#[trigger] pairs[i].0).len() > 0) {
            assert forall|i: int| 0 <= i < prev.len() implies trim(#[trigger] prev[i].0).len()
                > 0 by {
                assert(prev[i] == pairs[i]);
            }
        }
    }
}

/// A new request with headers added one after the other, none with a blank name, sends
/// exactly those headers, trimmed, in the order added.
pub proof fn law_new_request_headers(pairs: Seq<(Seq<char>, Seq<char>)>)
    requires
        forall|i: int| 0 <= i < pairs.len() ==> trim(#[trigger] pairs[i].0).len() > 0,
    ensures
        headers_valid(add_header_rows(HeadersModel::initial(), pairs).rows),
        header_pairs(add_header_rows(HeadersModel::initial(), pairs).rows) == trimmed_pairs(pairs),
{
    let h = HeadersModel::initial();
    assert forall|i: int| 0 <= i < pairs.len() implies #[trigger] pairs[i].0.len() > 0
        || pairs[i].1.len() > 0 by {
        if pairs[i].0.len() == 0 {
            assert(trim_start(pairs[i].0) == pairs[i].0);
            assert(trim(pairs[i].0).len() == 0);
        }
    }
    assert(h.rows.drop_last() =~= Seq::<RowModel>::empty());
    assert(row_is_empty(h.rows.last()));
    assert(included_rows(h.rows.drop_last()) =~= Seq::<RowModel>::empty());
    assert(included_rows(h.rows) =~= Seq::<RowModel>::empty());
    assert(header_pairs(h.rows) =~= Seq::<(Seq<char>, Seq<char>)>::empty());
    law_added_headers_are_sent(h, pairs);
    assert(header_pairs(h.rows) + trimmed_pairs(pairs) =~= trimmed_pairs(pairs));
}

/// The abstract state of a request being edited.
pub struct RequestModel {
    pub method: HttpMethod,
    pub url: EditorModel,
    pub headers: HeadersModel,
    pub body: EditorModel,
}

/// The body bytes that a body field sends: none when the field is empty, else the UTF-8
/// encoding of its text.
pub open spec fn body_bytes(body: EditorModel) -> Option<Seq<u8>> {
    if body.text.len() == 0 {
        None
    } else {
        Some(encode_utf8(body.text))
    }
}

/// A request being edited: its method, its URL, its header table and its body.
pub struct HttpRequest {
    method: HttpMethod,
    url: TextEditor,
    headers: HeaderEditor,
    body: TextEditor,
}

impl View for HttpRequest {
    type V = RequestModel;

    closed spec fn view(&self) -> RequestModel {
        RequestModel {
            method: self.method,
            url: self.url@,
            headers: self.headers@,
            body: self.body@,
        }
    }
}

impl Clone for HttpRequest {
    fn clone(&self) -> (r: Self)
        ensures
            r@ == self@,
    {
        HttpRequest {
            method: self.method,
            url: self.url.clone(),
            headers: self.headers.clone(),
            body: self.body.clone(),
        }
    }
}

impl HttpRequest {
    /// A request with the given method and URL, an empty header table and an empty body.
    pub fn new(method: HttpMethod, url: String) -> (r: Self)
        ensures
            r@ == (RequestModel {
                method,
                url: EditorModel::filled(url@),
                headers: HeadersModel::initial(),
                body: EditorModel::empty(),
            }),
    {
        HttpRequest {
            method,
            url: TextEditor::new(url.as_str()),
            headers: HeaderEditor::default(),
            body: TextEditor::default(),
        }
    }

    /// Adds a header just before the empty row at the end of the table.
    pub fn add_header(&mut self, key: &str, value: &str)
        ensures
            final(self)@ == (RequestModel {
                headers: add_header_row(old(self)@.headers, key@, value@),
                ..old(self)@
            }),
    {
        self.headers.add(key, value);
    }

    /// Replaces the body by the text of `body`, read as UTF-8 with ill-formed parts
    /// replaced; the cursor goes to its end.
    pub fn set_body(&mut self, body: Vec<u8>)
        ensures
            final(self)@ == (RequestModel {
                body: EditorModel::filled(lossy_utf8(body@)),
                ..old(self)@
            }),
            valid_utf8(body@) ==> final(self)@.body.text == decode_utf8(body@),
            final(self)@.body.text.len() == 0 <==> body@.len() == 0,
    {
        let text = decode_utf8_lossy(body.as_slice());
        proof {
            if body@.len() == 0 {
                assert(valid_utf8(body@));
                assert(decode_utf8(body@) =~= Seq::<char>::empty());
            }
        }
        self.body = TextEditor::new(text.as_str());
    }

    pub fn method(&self) -> (r: HttpMethod)
        ensures
            r == self@.method,
    {
        self.method
    }

    pub fn set_method(&mut self, method: HttpMethod)
        ensures
            final(self)@ == (RequestModel { method, ..old(self)@ }),
    {
        self.method = method;
    }

    pub fn url(&self) -> (r: String)
        ensures
            r@ == self@.url.text,
    {
        self.url.text()
    }

    /// The headers to send; see `HeaderEditor::values`.
    pub fn header_values(&self) -> (r: Result<Vec<(String, String)>, EzcurlError>)
        ensures
            r is Ok <==> headers_valid(self@.headers.rows),
            r matches Ok(v) ==> pairs_model(v@) == header_pairs(self@.headers.rows),
            r matches Err(e) ==> e matches EzcurlError::InvalidHeader(m) && m@
                == empty_header_name_message(),
    {
        self.headers.values()
    }

    /// The bytes to send as body: none when the body field is empty, else the UTF-8
    /// encoding of its text.
    pub fn body(&self) -> (r: Option<Vec<u8>>)
        ensures
            r matches Some(b) ==> body_bytes(self@.body) == Some(b@),
            r is None ==> body_bytes(self@.body) is None,
    {
        if self.body.is_empty() {
            None
        } else {
            let text = self.body.text();
            Some(vstd::slice::slice_to_vec(text.as_str().as_bytes()))
        }
    }

    pub fn editor(&self, field: RequestField) -> (r: &TextEditor)
        ensures
            r@ == (match field {
                RequestField::Url => self@.url,
                RequestField::Body => self@.body,
            }),
    {
        match field {
            RequestField::Url => &self.url,
            RequestField::Body => &self.body,
        }
    }

    pub fn editor_mut(&mut self, field: RequestField) -> (r: &mut TextEditor)
        ensures
            r@ == (match field {
                RequestField::Url => old(self)@.url,
                RequestField::Body => old(self)@.body,
            }),
            final(self)@ == (match field {
                RequestField::Url => RequestModel { url: final(r)@, ..old(self)@ },
                RequestField::Body => RequestModel { body: final(r)@, ..old(self)@ },
            }),
    {
        match field {
            RequestField::Url => &mut self.url,
            RequestField::Body => &mut self.body,
        }
    }

    pub fn header_editor(&self) -> (r: &HeaderEditor)
        ensures
            r@ == self@.headers,
    {
        &self.headers
    }

    pub fn header_editor_mut(&mut self) -> (r: &mut HeaderEditor)
        ensures
            r@ == old(self)@.headers,
            final(self)@ == (RequestModel { headers: final(r)@, ..old(self)@ }),
    {
        &mut self.headers
    }
}

/// What `body` gives back after `set_body`: bytes exactly when some were written, and
/// for well-formed UTF-8 the same bytes. The requirements are what `set_body` ensures
/// of the body field it leaves.
pub proof fn law_body_round_trip(bytes: Seq<u8>, body: EditorModel)
    requires
        valid_utf8(bytes) ==> body.text == decode_utf8(bytes),
        body.text.len() == 0 <==> bytes.len() == 0,
    ensures
        body_bytes(body) is Some <==> bytes.len() > 0,
        valid_utf8(bytes) ==> body_bytes(body) == if bytes.len() == 0 {
            None
        } else {
            Some(bytes)
        },
{
    if valid_utf8(bytes) {
        vstd::utf8::decode_utf8_encode_utf8(bytes);
    }
}

} // verus!
