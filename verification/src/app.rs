use vstd::prelude::*;

use crate::action::{Action, Direction};
use crate::editor::{apply_edit, Edit, EditorModel, TextEditor};
use crate::history::{
    copy_response, copy_text, response_model, text_model, text_ref, EntryModel, HistoryEntry,
};
use crate::request::{
    edit_headers, method_at, method_count, method_index, next_header_field,
    previous_header_field, HeaderPart, HeadersModel, HttpRequest, RequestField, RequestModel,
};
use crate::response::{HttpResponse, ResponseModel};

verus! {

/// How many requests the history keeps; the oldest go first.
pub const HISTORY_LIMIT: usize = 50;

/// Normal mode navigates between panels, insert mode edits the focused field.
#[derive(Debug, Clone, Copy, PartialEq, Eq, Structural)]
pub enum AppMode {
    Normal,
    Insert,
}

/// The panels of the screen.
#[derive(Debug, Clone, Copy, PartialEq, Eq, Structural)]
pub enum Panel {
    Method,
    Url,
    Headers,
    Body,
    Response,
}

/// The text field that a panel edits, if it edits one.
pub open spec fn panel_field(p: Panel) -> Option<RequestField> {
    match p {
        Panel::Url => Some(RequestField::Url),
        Panel::Body => Some(RequestField::Body),
        _ => None,
    }
}

impl Panel {
    /// The text field that the panel edits, if it edits one.
    pub fn request_field(self) -> (r: Option<RequestField>)
        ensures
            r == panel_field(self),
    {
        match self {
            Panel::Url => Some(RequestField::Url),
            Panel::Body => Some(RequestField::Body),
            Panel::Method | Panel::Headers | Panel::Response => None,
        }
    }
}

/// The abstract state of a session.
pub struct AppModel {
    pub mode: AppMode,
    pub focused_panel: Panel,
    pub response_origin: Panel,
    pub request: RequestModel,
    pub response: Option<ResponseModel>,
    pub response_error: Option<Seq<char>>,
    pub history: Seq<EntryModel>,
    pub history_storage_error: Option<Seq<char>>,
    pub history_open: bool,
    pub history_selected: int,
    pub leader_pending: bool,
    pub should_quit: bool,
}

impl AppModel {
    /// The history holds at most `HISTORY_LIMIT` entries and its selection lies on it
    /// (or is 0 when it is empty); the panel to go back to from the response is never the
    /// response itself.
    pub open spec fn wf(self) -> bool {
        &&& self.history.len() <= HISTORY_LIMIT
        &&& 0 <= self.history_selected
        &&& (self.history_selected == 0 || self.history_selected < self.history.len())
        &&& self.response_origin != Panel::Response
    }
}

/// Last index of a list of `len` entries, or 0 when it is empty.
pub open spec fn last_index(len: int) -> int {
    if len > 0 {
        len - 1
    } else {
        0
    }
}

/// Focus `p`; entering the response from another panel remembers that panel.
pub open spec fn focus_model(m: AppModel, p: Panel) -> AppModel {
    AppModel {
        response_origin: if p == Panel::Response && m.focused_panel != Panel::Response {
            m.focused_panel
        } else {
            m.response_origin
        },
        focused_panel: p,
        ..m
    }
}

/// Select a column of the header table.
pub open spec fn with_header_part(m: AppModel, part: HeaderPart) -> AppModel {
    AppModel {
        request: RequestModel {
            headers: HeadersModel { part, ..m.request.headers },
            ..m.request
        },
        ..m
    }
}

/// The panel after `p` in reading order; after the response comes the method.
pub open spec fn next_panel_of(p: Panel) -> Panel {
    match p {
        Panel::Method => Panel::Url,
        Panel::Url => Panel::Headers,
        Panel::Headers => Panel::Body,
        Panel::Body => Panel::Response,
        Panel::Response => Panel::Method,
    }
}

/// The panel before `p` in reading order; before the method is the method.
pub open spec fn previous_panel_of(p: Panel) -> Panel {
    match p {
        Panel::Method => Panel::Method,
        Panel::Url => Panel::Method,
        Panel::Headers => Panel::Url,
        Panel::Body => Panel::Headers,
        Panel::Response => Panel::Body,
    }
}

/// Moving between panels with `hjkl`. The method and the URL sit above the header table,
/// over its name and value columns; left and right inside the table pick a column; the
/// response lies to the right and left of it goes back where one came from.
pub open spec fn move_focus_model(m: AppModel, d: Direction) -> AppModel {
    let part = m.request.headers.part;
    match (m.focused_panel, d) {
        (Panel::Method, Direction::Right) => focus_model(m, Panel::Url),
        (Panel::Method, Direction::Down) => focus_model(
            with_header_part(m, HeaderPart::Key),
            Panel::Headers,
        ),
        (Panel::Url, Direction::Left) => focus_model(m, Panel::Method),
        (Panel::Url, Direction::Right) => focus_model(m, Panel::Response),
        (Panel::Url, Direction::Down) => focus_model(
            with_header_part(m, HeaderPart::Value),
            Panel::Headers,
        ),
        (Panel::Headers, Direction::Up) => focus_model(
            m,
            if part == HeaderPart::Key {
                Panel::Method
            } else {
                Panel::Url
            },
        ),
        (Panel::Headers, Direction::Left) => focus_model(
            with_header_part(m, HeaderPart::Key),
            Panel::Headers,
        ),
        (Panel::Headers, Direction::Right) => if part == HeaderPart::Key {
            focus_model(with_header_part(m, HeaderPart::Value), Panel::Headers)
        } else {
            focus_model(m, Panel::Response)
        },
        (Panel::Headers, Direction::Down) => focus_model(m, Panel::Body),
        (Panel::Body, Direction::Up) => focus_model(m, Panel::Headers),
        (Panel::Body, Direction::Right) => focus_model(m, Panel::Response),
        (Panel::Response, Direction::Left) => focus_model(m, m.response_origin),
        (p, _) => focus_model(m, p),
    }
}

/// An edit sent to the focused panel: up and down pick the method, the header table and
/// the text fields edit themselves, the response ignores it.
pub open spec fn edit_model(m: AppModel, e: Edit) -> AppModel {
    let r = m.request;
    match m.focused_panel {
        Panel::Method => if e == Edit::Move(Direction::Up) {
            AppModel {
                request: RequestModel {
                    method: method_at(method_index(r.method) + method_count() - 1),
                    ..r
                },
                ..m
            }
        } else if e == Edit::Move(Direction::Down) {
            AppModel {
                request: RequestModel { method: method_at(method_index(r.method) + 1), ..r },
                ..m
            }
        } else {
            m
        },
        Panel::Headers => AppModel {
            request: RequestModel { headers: edit_headers(r.headers, e), ..r },
            ..m
        },
        Panel::Response => m,
        Panel::Url => AppModel { request: RequestModel { url: apply_edit(r.url, e), ..r }, ..m },
        Panel::Body => AppModel {
            request: RequestModel { body: apply_edit(r.body, e), ..r },
            ..m
        },
    }
}

pub open spec fn enter_insert_model(m: AppModel) -> AppModel {
    if m.focused_panel != Panel::Response {
        AppModel { mode: AppMode::Insert, ..m }
    } else {
        m
    }
}

/// Enter: leaves insert mode on the method and the URL, goes to the next header field,
/// breaks the line in the body.
pub open spec fn insert_newline_model(m: AppModel) -> AppModel {
    match m.focused_panel {
        Panel::Method | Panel::Url => AppModel { mode: AppMode::Normal, ..m },
        Panel::Headers => AppModel {
            request: RequestModel { headers: next_header_field(m.request.headers), ..m.request },
            ..m
        },
        Panel::Body => edit_model(m, Edit::Insert('\n')),
        Panel::Response => m,
    }
}

pub open spec fn next_panel_model(m: AppModel) -> AppModel {
    focus_model(m, next_panel_of(m.focused_panel))
}

pub open spec fn next_field_model(m: AppModel) -> AppModel {
    if m.focused_panel == Panel::Headers {
        AppModel {
            request: RequestModel { headers: next_header_field(m.request.headers), ..m.request },
            ..m
        }
    } else {
        next_panel_model(m)
    }
}

pub open spec fn previous_field_model(m: AppModel) -> AppModel {
    if m.focused_panel == Panel::Headers {
        AppModel {
            request: RequestModel {
                headers: previous_header_field(m.request.headers),
                ..m.request
            },
            ..m
        }
    } else {
        focus_model(m, previous_panel_of(m.focused_panel))
    }
}

/// Opening or closing the history: back to normal mode, no pending leader key, the
/// selection brought back onto the list.
pub open spec fn toggle_history_model(m: AppModel) -> AppModel {
    AppModel {
        mode: AppMode::Normal,
        leader_pending: false,
        history_open: !m.history_open,
        history_selected: if m.history_selected <= last_index(m.history.len() as int) {
            m.history_selected
        } else {
            last_index(m.history.len() as int)
        },
        ..m
    }
}

/// Puts the selected history entry back into the editor and shows its outcome.
pub open spec fn restore_model(m: AppModel) -> AppModel {
    if 0 <= m.history_selected < m.history.len() {
        let entry = m.history[m.history_selected];
        focus_model(
            AppModel {
                request: entry.request,
                response: entry.response,
                response_error: entry.error,
                history_open: false,
                ..m
            },
            Panel::Response,
        )
    } else {
        m
    }
}

/// Actions while the history is open: move the selection, restore, close, quit.
pub open spec fn history_action_model(m: AppModel, a: Action) -> AppModel {
    match a {
        Action::ToggleHistory | Action::Close => AppModel {
            history_open: false,
            leader_pending: false,
            ..m
        },
        Action::Leader => AppModel { leader_pending: true, ..m },
        Action::CancelLeader => AppModel { leader_pending: false, ..m },
        Action::Move(Direction::Up) => AppModel {
            history_selected: if m.history_selected > 0 {
                m.history_selected - 1
            } else {
                0
            },
            ..m
        },
        Action::Move(Direction::Down) => AppModel {
            history_selected: if m.history_selected + 1 <= last_index(m.history.len() as int) {
                m.history_selected + 1
            } else {
                last_index(m.history.len() as int)
            },
            ..m
        },
        Action::Activate => restore_model(m),
        Action::Quit => AppModel { should_quit: true, ..m },
        _ => m,
    }
}

/// The session after an action. While the history is open only history actions apply.
/// Sending leaves insert mode; the transfer itself and what it brings back are
/// `complete_request_model`.
pub open spec fn handle_action_model(m: AppModel, a: Action) -> AppModel {
    if m.history_open {
        history_action_model(m, a)
    } else {
        match a {
            Action::Move(d) => move_focus_model(m, d),
            Action::MoveCursor(d) => edit_model(m, Edit::Move(d)),
            Action::MoveCursorToStart => edit_model(m, Edit::Home),
            Action::MoveCursorToEnd => edit_model(m, Edit::End),
            Action::NextField => next_field_model(m),
            Action::PreviousField => previous_field_model(m),
            Action::SendRequest => AppModel { mode: AppMode::Normal, ..m },
            Action::NextPanel => next_panel_model(m),
            Action::ExitInsert => AppModel { mode: AppMode::Normal, ..m },
            Action::EnterInsert | Action::Activate => enter_insert_model(m),
            Action::ToggleHistory => toggle_history_model(m),
            Action::Leader => AppModel { leader_pending: true, ..m },
            Action::CancelLeader => AppModel { leader_pending: false, ..m },
            Action::Close => m,
            Action::Quit => AppModel { should_quit: true, ..m },
            Action::InsertChar(c) => edit_model(m, Edit::Insert(c)),
            Action::InsertNewline => insert_newline_model(m),
            Action::Backspace => edit_model(m, Edit::Backspace),
            Action::Delete => edit_model(m, Edit::Delete),
        }
    }
}

/// Whether an action asks for the request to be sent.
pub open spec fn sends_request(m: AppModel, a: Action) -> bool {
    !m.history_open && a == Action::SendRequest
}

/// The history after recording `entry`: newest first, at most `HISTORY_LIMIT` entries.
pub open spec fn record_entry(history: Seq<EntryModel>, entry: EntryModel) -> Seq<EntryModel> {
    let all = seq![entry] + history;
    if all.len() > HISTORY_LIMIT {
        all.take(HISTORY_LIMIT as int)
    } else {
        all
    }
}

/// The session once a sent request has come back: its outcome is shown, recorded first in
/// the history, selected there, and the response panel takes the focus.
pub open spec fn complete_request_model(
    m: AppModel,
    request: RequestModel,
    response: Option<ResponseModel>,
    error: Option<Seq<char>>,
) -> AppModel {
    focus_model(
        AppModel {
            response,
            response_error: error,
            history: record_entry(m.history, EntryModel { request, response, error }),
            history_selected: 0,
            ..m
        },
        Panel::Response,
    )
}

/// The history entry that is previewed: the selected one while the history is open.
pub open spec fn previewed_entry(m: AppModel) -> Option<EntryModel> {
    if m.history_open && 0 <= m.history_selected < m.history.len() {
        Some(m.history[m.history_selected])
    } else {
        None
    }
}

pub open spec fn entries_model(h: Seq<HistoryEntry>) -> Seq<EntryModel> {
    h.map_values(|e: HistoryEntry| e@)
}

/// The state of a session: the request being edited, the last outcome, the history,
/// the focus and the mode.
pub struct App {
    mode: AppMode,
    focused_panel: Panel,
    response_origin: Panel,
    request: HttpRequest,
    response: Option<HttpResponse>,
    response_error: Option<String>,
    history: Vec<HistoryEntry>,
    history_storage_error: Option<String>,
    history_open: bool,
    history_selected: usize,
    leader_pending: bool,
    should_quit: bool,
}

impl View for App {
    type V = AppModel;

    closed spec fn view(&self) -> AppModel {
        AppModel {
            mode: self.mode,
            focused_panel: self.focused_panel,
            response_origin: self.response_origin,
            request: self.request@,
            response: response_model(self.response),
            response_error: text_model(self.response_error),
            history: entries_model(self.history@),
            history_storage_error: text_model(self.history_storage_error),
            history_open: self.history_open,
            history_selected: self.history_selected as int,
            leader_pending: self.leader_pending,
            should_quit: self.should_quit,
        }
    }
}

/// The loaded history, cut to its first `HISTORY_LIMIT` entries.
pub open spec fn limit_history(h: Seq<EntryModel>) -> Seq<EntryModel> {
    if h.len() > HISTORY_LIMIT {
        h.take(HISTORY_LIMIT as int)
    } else {
        h
    }
}

/// A session that starts on the URL panel in normal mode, with the history that was
/// loaded, or an empty history and the reason why it could not be loaded.
pub open spec fn initial_model(request: RequestModel, loaded: Result<Seq<EntryModel>, Seq<char>>) -> AppModel {
    AppModel {
        mode: AppMode::Normal,
        focused_panel: Panel::Url,
        response_origin: Panel::Url,
        request,
        response: None,
        response_error: None,
        history: match loaded {
            Ok(h) => limit_history(h),
            Err(_) => Seq::empty(),
        },
        history_storage_error: match loaded {
            Ok(_) => None,
            Err(e) => Some(e),
        },
        history_open: false,
        history_selected: 0,
        leader_pending: false,
        should_quit: false,
    }
}

pub open spec fn loaded_model(loaded: Result<Vec<HistoryEntry>, String>) -> Result<Seq<EntryModel>, Seq<char>> {
    match loaded {
        Ok(h) => Ok(entries_model(h@)),
        Err(e) => Err(e@),
    }
}

impl App {
    /// A new session editing `request`, with the history loaded from storage, or the
    /// reason it could not be loaded.
    pub fn new(request: HttpRequest, loaded: Result<Vec<HistoryEntry>, String>) -> (r: Self)
        ensures
            r@ == initial_model(request@, loaded_model(loaded)),
            r@.wf(),
    {
        let (mut history, history_storage_error) = match loaded {
            Ok(history) => (history, None),
            Err(error) => (Vec::new(), Some(error)),
        };
        let ghost before = history@;
        history.truncate(HISTORY_LIMIT);
        assert(entries_model(history@) =~= (if before.len() > HISTORY_LIMIT {
            entries_model(before).take(HISTORY_LIMIT as int)
        } else {
            entries_model(before)
        }));
        assert(loaded is Err ==> entries_model(history@) =~= Seq::<EntryModel>::empty());
        App {
            request,
            response: None,
            response_error: None,
            mode: AppMode::Normal,
            focused_panel: Panel::Url,
            response_origin: Panel::Url,
            history,
            history_storage_error,
            history_open: false,
            history_selected: 0,
            leader_pending: false,
            should_quit: false,
        }
    }

    pub fn request(&self) -> (r: &HttpRequest)
        ensures
            r@ == self@.request,
    {
        &self.request
    }

    pub fn response(&self) -> (r: Option<&HttpResponse>)
        ensures
            r matches Some(x) ==> self@.response == Some(x@),
            r is None <==> self@.response is None,
    {
        crate::history::response_ref(&self.response)
    }

    pub fn response_error(&self) -> (r: Option<&str>)
        ensures
            r matches Some(s) ==> self@.response_error == Some(s@),
            r is None <==> self@.response_error is None,
    {
        text_ref(&self.response_error)
    }

    pub fn history(&self) -> (r: &[HistoryEntry])
        ensures
            entries_model(r@) == self@.history,
    {
        self.history.as_slice()
    }

    pub fn history_open(&self) -> (r: bool)
        ensures
            r == self@.history_open,
    {
        self.history_open
    }

    pub fn history_selected(&self) -> (r: usize)
        ensures
            r == self@.history_selected,
    {
        self.history_selected
    }

    pub fn history_storage_error(&self) -> (r: Option<&str>)
        ensures
            r matches Some(s) ==> self@.history_storage_error == Some(s@),
            r is None <==> self@.history_storage_error is None,
    {
        text_ref(&self.history_storage_error)
    }

    pub fn leader_pending(&self) -> (r: bool)
        ensures
            r == self@.leader_pending,
    {
        self.leader_pending
    }

    fn selected_history_entry(&self) -> (r: Option<&HistoryEntry>)
        ensures
            r matches Some(e) ==> previewed_entry(self@) == Some(e@),
            r is None <==> previewed_entry(self@) is None,
    {
        if self.history_open && self.history_selected < self.history.len() {
            Some(&self.history[self.history_selected])
        } else {
            None
        }
    }

    /// The request on screen: the previewed history entry's, else the one being edited.
    pub fn displayed_request(&self) -> (r: &HttpRequest)
        ensures
            r@ == (match previewed_entry(self@) {
                Some(e) => e.request,
                None => self@.request,
            }),
    {
        match self.selected_history_entry() {
            Some(entry) => entry.request(),
            None => &self.request,
        }
    }

    /// The response on screen: the previewed history entry's, else the last one received.
    pub fn displayed_response(&self) -> (r: Option<&HttpResponse>)
        ensures
            r matches Some(x) ==> Some(x@) == (match previewed_entry(self@) {
                Some(e) => e.response,
                None => self@.response,
            }),
            r is None <==> (match previewed_entry(self@) {
                Some(e) => e.response,
                None => self@.response,
            }) is None,
    {
        match self.selected_history_entry() {
            Some(entry) => entry.response(),
            None => self.response(),
        }
    }

    /// The error on screen: the previewed history entry's, else the last one met.
    pub fn displayed_response_error(&self) -> (r: Option<&str>)
        ensures
            r matches Some(s) ==> Some(s@) == (match previewed_entry(self@) {
                Some(e) => e.error,
                None => self@.response_error,
            }),
            r is None <==> (match previewed_entry(self@) {
                Some(e) => e.error,
                None => self@.response_error,
            }) is None,
    {
        match self.selected_history_entry() {
            Some(entry) => entry.error(),
            None => self.response_error(),
        }
    }

    pub fn focused_panel(&self) -> (r: Panel)
        ensures
            r == self@.focused_panel,
    {
        self.focused_panel
    }

    pub fn should_quit(&self) -> (r: bool)
        ensures
            r == self@.should_quit,
    {
        self.should_quit
    }

    pub fn mode(&self) -> (r: AppMode)
        ensures
            r == self@.mode,
    {
        self.mode
    }

    /// The text field under the focus: the selected header field, the URL or the body.
    pub fn focused_editor(&self) -> (r: Option<&TextEditor>)
        ensures
            r matches Some(x) ==> x@ == (match self@.focused_panel {
                Panel::Headers => match self@.request.headers.part {
                    HeaderPart::Key => self@.request.headers.rows[self@.request.headers.selected].key,
                    HeaderPart::Value => self@.request.headers.rows[self@.request.headers.selected].value,
                },
                Panel::Url => self@.request.url,
                _ => self@.request.body,
            }),
            r is None <==> (self@.focused_panel == Panel::Method || self@.focused_panel
                == Panel::Response),
    {
        match self.focused_panel {
            Panel::Headers => Some(self.request.header_editor().active_editor()),
            Panel::Method | Panel::Response => None,
            Panel::Url => Some(self.request.editor(RequestField::Url)),
            Panel::Body => Some(self.request.editor(RequestField::Body)),
        }
    }

    /// Focuses `panel`; entering the response remembers where one came from.
    pub fn focus(&mut self, panel: Panel)
        ensures
            final(self)@ == focus_model(old(self)@, panel),
    {
        if panel == Panel::Response && self.focused_panel != Panel::Response {
            self.response_origin = self.focused_panel;
        }
        self.focused_panel = panel;
    }

    fn select_header_part(&mut self, part: HeaderPart)
        ensures
            final(self)@ == with_header_part(old(self)@, part),
    {
        self.request.header_editor_mut().select_part(part);
    }

    /// Moves between panels.
    pub fn move_focus(&mut self, direction: Direction)
        ensures
            final(self)@ == move_focus_model(old(self)@, direction),
    {
        let next = match (self.focused_panel, direction) {
            (Panel::Method, Direction::Right) => Panel::Url,
            (Panel::Method, Direction::Down) => {
                self.select_header_part(HeaderPart::Key);
                Panel::Headers
            },
            (Panel::Url, Direction::Left) => Panel::Method,
            (Panel::Url, Direction::Right) => Panel::Response,
            (Panel::Url, Direction::Down) => {
                self.select_header_part(HeaderPart::Value);
                Panel::Headers
            },
            (Panel::Headers, Direction::Up) => match self.request.header_editor().part() {
                HeaderPart::Key => Panel::Method,
                HeaderPart::Value => Panel::Url,
            },
            (Panel::Headers, Direction::Left) => {
                self.select_header_part(HeaderPart::Key);
                Panel::Headers
            },
            (Panel::Headers, Direction::Right) => {
                if self.request.header_editor().part() == HeaderPart::Key {
                    self.select_header_part(HeaderPart::Value);
                    Panel::Headers
                } else {
                    Panel::Response
                }
            },
            (Panel::Headers, Direction::Down) => Panel::Body,
            (Panel::Body, Direction::Up) => Panel::Headers,
            (Panel::Body, Direction::Right) => Panel::Response,
            (Panel::Response, Direction::Left) => self.response_origin,
            (panel, _) => panel,
        };
        self.focus(next);
    }

    /// Sends an edit to the focused panel.
    pub fn edit(&mut self, edit: Edit)
        ensures
            final(self)@ == edit_model(old(self)@, edit),
    {
        match self.focused_panel {
            Panel::Method => {
                if edit == Edit::Move(Direction::Up) {
                    let m = self.request.method().previous();
                    self.request.set_method(m);
                } else if edit == Edit::Move(Direction::Down) {
                    let m = self.request.method().next();
                    self.request.set_method(m);
                }
            },
            Panel::Headers => self.request.header_editor_mut().edit(edit),
            Panel::Response => {},
            Panel::Url => self.request.editor_mut(RequestField::Url).edit(edit),
            Panel::Body => self.request.editor_mut(RequestField::Body).edit(edit),
        }
    }

    fn enter_insert_mode(&mut self)
        ensures
            final(self)@ == enter_insert_model(old(self)@),
    {
        if self.focused_panel != Panel::Response {
            self.mode = AppMode::Insert;
        }
    }

    fn insert_newline(&mut self)
        ensures
            final(self)@ == insert_newline_model(old(self)@),
    {
        match self.focused_panel {
            Panel::Method | Panel::Url => self.mode = AppMode::Normal,
            Panel::Headers => self.request.header_editor_mut().next_field(),
            Panel::Body => self.edit(Edit::Insert('\n')),
            Panel::Response => {},
        }
    }

    /// Tab: the next field of the header table, or the next panel.
    pub fn next_field(&mut self)
        ensures
            final(self)@ == next_field_model(old(self)@),
    {
        if self.focused_panel == Panel::Headers {
            self.request.header_editor_mut().next_field();
        } else {
            self.next_panel();
        }
    }

    /// Shift+Tab: the previous field of the header table, or the previous panel.
    pub fn previous_field(&mut self)
        ensures
            final(self)@ == previous_field_model(old(self)@),
    {
        if self.focused_panel == Panel::Headers {
            self.request.header_editor_mut().previous_field();
            return ;
        }
        let previous = match self.focused_panel {
            Panel::Method => Panel::Method,
            Panel::Url => Panel::Method,
            Panel::Headers => Panel::Url,
            Panel::Body => Panel::Headers,
            Panel::Response => Panel::Body,
        };
        self.focus(previous);
    }

    /// The panel after the focused one.
    pub fn next_panel(&mut self)
        ensures
            final(self)@ == next_panel_model(old(self)@),
    {
        let next = match self.focused_panel {
            Panel::Method => Panel::Url,
            Panel::Url => Panel::Headers,
            Panel::Headers => Panel::Body,
            Panel::Body => Panel::Response,
            Panel::Response => Panel::Method,
        };
        self.focus(next);
    }

    /// Opens or closes the history.
    pub fn toggle_history(&mut self)
        ensures
            final(self)@ == toggle_history_model(old(self)@),
    {
        self.mode = AppMode::Normal;
        self.leader_pending = false;
        self.history_open = !self.history_open;
        let last = if self.history.len() > 0 {
            self.history.len() - 1
        } else {
            0
        };
        if self.history_selected > last {
            self.history_selected = last;
        }
    }

    /// An action while the history is open.
    pub fn handle_history_action(&mut self, action: Action)
        ensures
            final(self)@ == history_action_model(old(self)@, action),
    {
        match action {
            Action::ToggleHistory | Action::Close => {
                self.history_open = false;
                self.leader_pending = false;
            },
            Action::Leader => self.leader_pending = true,
            Action::CancelLeader => self.leader_pending = false,
            Action::Move(Direction::Up) => {
                if self.history_selected > 0 {
                    self.history_selected = self.history_selected - 1;
                }
            },
            Action::Move(Direction::Down) => {
                let last = if self.history.len() > 0 {
                    self.history.len() - 1
                } else {
                    0
                };
                if self.history_selected < last {
                    self.history_selected = self.history_selected + 1;
                } else {
                    self.history_selected = last;
                }
            },
            Action::Activate => self.restore_history_entry(),
            Action::Quit => self.should_quit = true,
            _ => {},
        }
    }

    /// Puts the selected history entry back into the editor and shows its outcome.
    pub fn restore_history_entry(&mut self)
        ensures
            final(self)@ == restore_model(old(self)@),
    {
        if self.history_selected >= self.history.len() {
            return ;
        }
        let entry = self.history[self.history_selected].clone();
        let (request, response, error) = entry.into_parts();
        self.request = request;
        self.response = response;
        self.response_error = error;
        self.history_open = false;
        self.focus(Panel::Response);
    }

    /// Reacts to an action. When the action asks for the request to be sent, a copy of
    /// it is returned: the caller performs the transfer and hands the outcome to
    /// `complete_request`.
    pub fn handle_action(&mut self, action: Action) -> (out: Option<HttpRequest>)
        ensures
            final(self)@ == handle_action_model(old(self)@, action),
            out is Some <==> sends_request(old(self)@, action),
            out matches Some(q) ==> q@ == old(self)@.request,
    {
        if self.history_open {
            self.handle_history_action(action);
            return None;
        }
        match action {
            Action::Move(direction) => self.move_focus(direction),
            Action::MoveCursor(direction) => self.edit(Edit::Move(direction)),
            Action::MoveCursorToStart => self.edit(Edit::Home),
            Action::MoveCursorToEnd => self.edit(Edit::End),
            Action::NextField => self.next_field(),
            Action::PreviousField => self.previous_field(),
            Action::SendRequest => {
                self.mode = AppMode::Normal;
                return Some(self.request.clone());
            },
            Action::NextPanel => self.next_panel(),
            Action::ExitInsert => self.mode = AppMode::Normal,
            Action::EnterInsert | Action::Activate => self.enter_insert_mode(),
            Action::ToggleHistory => self.toggle_history(),
            Action::Leader => self.leader_pending = true,
            Action::CancelLeader => self.leader_pending = false,
            Action::Close => {},
            Action::Quit => self.should_quit = true,
            Action::InsertChar(character) => self.edit(Edit::Insert(character)),
            Action::InsertNewline => self.insert_newline(),
            Action::Backspace => self.edit(Edit::Backspace),
            Action::Delete => self.edit(Edit::Delete),
        }
        None
    }

    /// Records the outcome of sending `request`: the response, or the error's message.
    /// Returns whether the history should now be written to storage, which is so unless
    /// storage has already failed.
    pub fn complete_request(&mut self, request: HttpRequest, result: Result<HttpResponse, String>) -> (persist: bool)
        ensures
            final(self)@ == complete_request_model(
                old(self)@,
                request@,
                match result {
                    Ok(r) => Some(r@),
                    Err(_) => None,
                },
                match result {
                    Ok(_) => None,
                    Err(e) => Some(e@),
                },
            ),
            persist == (old(self)@.history_storage_error is None),
    {
        let (response, error) = match result {
            Ok(response) => (Some(response), None),
            Err(error) => (None, Some(error)),
        };
        self.response = copy_response(&response);
        self.response_error = copy_text(&error);
        let ghost old_history = entries_model(self.history@);
        self.history_selected = 0;
        let mut history: Vec<HistoryEntry> = Vec::new();
        std::mem::swap(&mut history, &mut self.history);
        assert(entries_model(history@) == old_history);
        let entry = HistoryEntry::new(request, response, error);
        let ghost before = history@;
        history.insert(0, entry);
        let ghost inserted = history@;
        history.truncate(HISTORY_LIMIT);
        proof {
            let e = entry@;
            assert(entries_model(inserted) =~= seq![e] + old_history);
            assert(entries_model(history@) =~= record_entry(old_history, e));
        }
        self.history = history;
        self.focus(Panel::Response);
        self.history_storage_error.is_none()
    }

    /// Records that writing the history to storage failed, and why; the history is not
    /// written again in this session.
    pub fn record_persist_failure(&mut self, message: String)
        ensures
            final(self)@ == (AppModel { history_storage_error: Some(message@), ..old(self)@ }),
    {
        self.history_storage_error = Some(message);
    }
}

/// Every action keeps the session well formed: the history stays within its limit with
/// its selection on it, and the panel to return to from the response is never the
/// response.
pub proof fn law_actions_keep_wf(m: AppModel, a: Action)
    requires
        m.wf(),
    ensures
        handle_action_model(m, a).wf(),
{
    if m.history_open {
        lemma_history_action_wf(m, a);
    } else {
        lemma_closed_history_action_wf(m, a);
    }
}

proof fn lemma_closed_history_action_wf(m: AppModel, a: Action)
    requires
        m.wf(),
        !m.history_open,
    ensures
        handle_action_model(m, a).wf(),
{
    match a {
        Action::Move(d) => lemma_move_focus_wf(m, d),
        Action::MoveCursor(d) => lemma_edit_wf(m, Edit::Move(d)),
        Action::MoveCursorToStart => lemma_edit_wf(m, Edit::Home),
        Action::MoveCursorToEnd => lemma_edit_wf(m, Edit::End),
        Action::InsertChar(c) => lemma_edit_wf(m, Edit::Insert(c)),
        Action::InsertNewline => lemma_edit_wf(m, Edit::Insert('\n')),
        Action::Backspace => lemma_edit_wf(m, Edit::Backspace),
        Action::Delete => lemma_edit_wf(m, Edit::Delete),
        _ => {},
    }
}

proof fn lemma_move_focus_wf(m: AppModel, d: Direction)
    requires
        m.wf(),
    ensures
        move_focus_model(m, d).wf(),
{
}

proof fn lemma_edit_wf(m: AppModel, e: Edit)
    requires
        m.wf(),
    ensures
        edit_model(m, e).wf(),
{
}

proof fn lemma_history_action_wf(m: AppModel, a: Action)
    requires
        m.wf(),
    ensures
        history_action_model(m, a).wf(),
{
}

/// Recording the outcome of a request keeps the session well formed.
pub proof fn law_complete_request_keeps_wf(
    m: AppModel,
    request: RequestModel,
    response: Option<ResponseModel>,
    error: Option<Seq<char>>,
)
    requires
        m.wf(),
    ensures
        complete_request_model(m, request, response, error).wf(),
{
}

/// Recording a storage failure keeps the session well formed.
pub proof fn law_persist_failure_keeps_wf(m: AppModel, message: Seq<char>)
    requires
        m.wf(),
    ensures
        (AppModel { history_storage_error: Some(message), ..m }).wf(),
{
}

/// Moving left from the response returns to the panel from which the response was
/// entered, and changes nothing else.
pub proof fn law_left_from_response_returns(m: AppModel)
    requires
        m.focused_panel != Panel::Response,
    ensures
        move_focus_model(focus_model(m, Panel::Response), Direction::Left) == (AppModel {
            response_origin: m.focused_panel,
            ..m
        }),
{
}

/// While the history is open, no action but restoring changes the request being edited,
/// the last outcome, the panel or the mode: the history only previews.
pub proof fn law_history_preview_keeps_request(m: AppModel, a: Action)
    requires
        m.history_open,
        a != Action::Activate,
    ensures
        handle_action_model(m, a).request == m.request,
        handle_action_model(m, a).response == m.response,
        handle_action_model(m, a).response_error == m.response_error,
        handle_action_model(m, a).focused_panel == m.focused_panel,
        handle_action_model(m, a).mode == m.mode,
        handle_action_model(m, a).history == m.history,
{
}

/// Restoring a history entry puts its request, response and error back, closes the
/// history and shows the response.
pub proof fn law_restore(m: AppModel)
    requires
        m.history_open,
        0 <= m.history_selected < m.history.len(),
    ensures
        handle_action_model(m, Action::Activate).request == m.history[m.history_selected].request,
        handle_action_model(m, Action::Activate).response == m.history[m.history_selected].response,
        handle_action_model(m, Action::Activate).response_error
            == m.history[m.history_selected].error,
        !handle_action_model(m, Action::Activate).history_open,
        handle_action_model(m, Action::Activate).focused_panel == Panel::Response,
        handle_action_model(m, Action::Activate).history == m.history,
{
}

/// Opening and closing the history (or closing and reopening it) leaves the session as
/// it was, apart from returning to normal mode and dropping a pending leader key.
pub proof fn law_toggle_history_twice(m: AppModel)
    requires
        m.wf(),
    ensures
        toggle_history_model(toggle_history_model(m)) == (AppModel {
            mode: AppMode::Normal,
            leader_pending: false,
            ..m
        }),
{
}

/// A request that comes back goes first into the history, which keeps the earlier
/// entries after it, newest first, up to its limit; opening the history then previews
/// the request just sent.
pub proof fn law_sent_request_is_recorded(
    m: AppModel,
    request: RequestModel,
    response: Option<ResponseModel>,
    error: Option<Seq<char>>,
)
    requires
        m.wf(),
        !m.history_open,
    ensures
        ({
            let after = complete_request_model(m, request, response, error);
            &&& after.history[0] == (EntryModel { request, response, error })
            &&& after.history.len() == if m.history.len() < HISTORY_LIMIT {
                m.history.len() + 1int
            } else {
                HISTORY_LIMIT as int
            }
            &&& forall|i: int| 1 <= i < after.history.len() ==> after.history[i] == m.history[i - 1]
            &&& after.response == response
            &&& after.response_error == error
            &&& after.focused_panel == Panel::Response
            &&& previewed_entry(toggle_history_model(after)) == Some(
                EntryModel { request, response, error },
            )
        }),
{
    let after = complete_request_model(m, request, response, error);
    let all = seq![EntryModel { request, response, error }] + m.history;
    assert forall|i: int| 1 <= i < after.history.len() implies after.history[i] == m.history[i
        - 1] by {
        assert(all[i] == m.history[i - 1]);
    }
}

/// The panels lie on a grid: the method and the URL side by side on top, the header
/// table under them, the body under the table, the response to the right. So Down then
/// Up comes back to where one was (except from the body, which has nothing below), Up
/// then Down comes back from the table and the body, and Right then Left comes back from
/// every request panel. In particular Up from the body goes to the header table.
pub proof fn law_focus_moves_return(m: AppModel)
    requires
        m.wf(),
    ensures
        m.focused_panel == Panel::Body ==> move_focus_model(m, Direction::Up).focused_panel
            == Panel::Headers,
        m.focused_panel == Panel::Headers ==> move_focus_model(m, Direction::Down).focused_panel
            == Panel::Body,
        m.focused_panel != Panel::Body ==> move_focus_model(
            move_focus_model(m, Direction::Down),
            Direction::Up,
        ).focused_panel == m.focused_panel,
        (m.focused_panel == Panel::Headers || m.focused_panel == Panel::Body) ==> move_focus_model(
            move_focus_model(m, Direction::Up),
            Direction::Down,
        ).focused_panel == m.focused_panel,
        m.focused_panel != Panel::Response ==> move_focus_model(
            move_focus_model(m, Direction::Right),
            Direction::Left,
        ).focused_panel == m.focused_panel,
{
}

/// In the header table, Enter in insert mode does what Tab does: it goes to the next
/// field and stays in insert mode.
pub proof fn law_enter_in_headers_is_tab(m: AppModel)
    requires
        m.focused_panel == Panel::Headers,
        !m.history_open,
    ensures
        handle_action_model(m, Action::InsertNewline) == handle_action_model(m, Action::NextField),
        handle_action_model(m, Action::InsertNewline).mode == m.mode,
        handle_action_model(m, Action::InsertNewline).request.headers == next_header_field(
            m.request.headers,
        ),
{
}

/// The history's key (Space then e) closes the history when it is open and opens it when
/// it is closed; either way no leader key stays pending. Opening then closing it leaves
/// the session as it was, but for normal mode and the leader key.
pub proof fn law_history_key_toggles(m: AppModel)
    requires
        m.wf(),
    ensures
        handle_action_model(m, Action::ToggleHistory).history_open == !m.history_open,
        !handle_action_model(m, Action::ToggleHistory).leader_pending,
        !m.history_open ==> handle_action_model(
            handle_action_model(m, Action::ToggleHistory),
            Action::ToggleHistory,
        ) == (AppModel { mode: AppMode::Normal, leader_pending: false, ..m }),
{
}

/// On the method panel, up and down step through the methods, each undoing the other.
pub proof fn law_method_up_down(m: AppModel)
    requires
        m.focused_panel == Panel::Method,
    ensures
        edit_model(edit_model(m, Edit::Move(Direction::Up)), Edit::Move(Direction::Down)) == m,
        edit_model(edit_model(m, Edit::Move(Direction::Down)), Edit::Move(Direction::Up)) == m,
{
    crate::request::law_method_cycle(m.request.method);
}

/// Insert mode is never entered on the response panel.
pub proof fn law_no_insert_on_response(m: AppModel, a: Action)
    requires
        m.focused_panel == Panel::Response,
        m.mode == AppMode::Normal,
        a == Action::EnterInsert || a == Action::Activate,
    ensures
        handle_action_model(m, a).mode == AppMode::Normal,
{
}

} // verus!
