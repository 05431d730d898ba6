use ezcurl::action::{Action, Direction};
use ezcurl::app::{AppMode, Panel};
use ezcurl::history::HistoryEntry;
use ezcurl::input::{map_key, KeyCode, KeyInput};
use ezcurl::request::{HeaderPart, HttpMethod, HttpRequest};
use ezcurl::response::HttpResponse;
use ezcurl::view::{
    entry_outcome, footer_hint, header_part_highlighted, panel_highlighted, status_class,
    window_start, Outcome, StatusClass,
};

fn key(code: KeyCode) -> KeyInput {
    KeyInput { code, ctrl: false }
}

#[test]
fn normal_mode_keys() {
    let m = AppMode::Normal;
    assert_eq!(
        map_key(key(KeyCode::Char('h')), m, Panel::Url, false),
        Some(Action::Move(Direction::Left))
    );
    assert_eq!(
        map_key(key(KeyCode::Down), m, Panel::Url, false),
        Some(Action::Move(Direction::Down))
    );
    assert_eq!(map_key(key(KeyCode::Char('i')), m, Panel::Url, false), Some(Action::EnterInsert));
    assert_eq!(map_key(key(KeyCode::Enter), m, Panel::Url, false), Some(Action::Activate));
    assert_eq!(map_key(key(KeyCode::Char(' ')), m, Panel::Url, false), Some(Action::Leader));
    assert_eq!(map_key(key(KeyCode::Char('q')), m, Panel::Url, false), Some(Action::Quit));
    assert_eq!(map_key(key(KeyCode::Esc), m, Panel::Url, false), Some(Action::Close));
    assert_eq!(map_key(key(KeyCode::Char('z')), m, Panel::Url, false), None);
}

#[test]
fn insert_mode_keys() {
    let m = AppMode::Insert;
    assert_eq!(map_key(key(KeyCode::Char('j')), m, Panel::Url, false), Some(Action::InsertChar('j')));
    assert_eq!(
        map_key(key(KeyCode::Char('j')), m, Panel::Method, false),
        Some(Action::MoveCursor(Direction::Down))
    );
    assert_eq!(map_key(key(KeyCode::Esc), m, Panel::Body, false), Some(Action::ExitInsert));
    assert_eq!(map_key(key(KeyCode::Enter), m, Panel::Body, false), Some(Action::InsertNewline));
    assert_eq!(map_key(key(KeyCode::Home), m, Panel::Body, false), Some(Action::MoveCursorToStart));
    assert_eq!(map_key(key(KeyCode::Other), m, Panel::Body, false), None);
}

#[test]
fn leader_and_control_keys() {
    let ctrl_s = KeyInput { code: KeyCode::Char('s'), ctrl: true };
    assert_eq!(map_key(ctrl_s, AppMode::Insert, Panel::Body, false), Some(Action::SendRequest));
    assert_eq!(map_key(ctrl_s, AppMode::Normal, Panel::Response, false), Some(Action::SendRequest));
    assert_eq!(map_key(ctrl_s, AppMode::Normal, Panel::Url, true), Some(Action::CancelLeader));
    assert_eq!(
        map_key(key(KeyCode::Char('e')), AppMode::Normal, Panel::Url, true),
        Some(Action::ToggleHistory)
    );
    assert_eq!(
        map_key(KeyInput { code: KeyCode::Char('x'), ctrl: true }, AppMode::Normal, Panel::Url, false),
        None
    );
}

#[test]
fn status_classes() {
    assert_eq!(status_class(200), StatusClass::Success);
    assert_eq!(status_class(299), StatusClass::Success);
    assert_eq!(status_class(301), StatusClass::Redirect);
    assert_eq!(status_class(404), StatusClass::Failure);
    assert_eq!(status_class(199), StatusClass::Failure);
}

#[test]
fn window_keeps_the_selection_visible() {
    assert_eq!(window_start(0, 5), 0);
    assert_eq!(window_start(4, 5), 0);
    assert_eq!(window_start(7, 5), 3);
    assert_eq!(window_start(7, 0), 7);
}

#[test]
fn outcomes_of_history_entries() {
    let request = || HttpRequest::new(HttpMethod::Get, String::new());
    let ok = HistoryEntry::new(request(), Some(HttpResponse::new(204, Vec::new(), Vec::new())), None);
    assert_eq!(entry_outcome(&ok), Outcome::Status(204));
    let failed = HistoryEntry::new(request(), None, Some("e".to_string()));
    assert_eq!(entry_outcome(&failed), Outcome::Failed);
    let none = HistoryEntry::new(request(), None, None);
    assert_eq!(entry_outcome(&none), Outcome::NoResponse);
}

#[test]
fn highlighting_and_footer() {
    assert!(panel_highlighted(false, Panel::Url, Panel::Url));
    assert!(!panel_highlighted(true, Panel::Url, Panel::Url));
    assert!(header_part_highlighted(false, Panel::Headers, HeaderPart::Key, HeaderPart::Key));
    assert!(!header_part_highlighted(false, Panel::Headers, HeaderPart::Key, HeaderPart::Value));
    assert_eq!(footer_hint(AppMode::Insert, Panel::Response, false, false), " Esc normal");
    assert_eq!(
        footer_hint(AppMode::Insert, Panel::Response, false, true),
        " leader: e historique  Esc annuler"
    );
}

#[test]
fn response_headers_are_listed_by_name_keeping_repeats_in_order() {
    let headers = vec![
        ("x-b".to_string(), "1".to_string()),
        ("Content-Type".to_string(), "t".to_string()),
        ("x-a".to_string(), "2".to_string()),
        ("x-b".to_string(), "3".to_string()),
        ("x".to_string(), "4".to_string()),
        ("é".to_string(), "5".to_string()),
    ];
    let order = ezcurl::view::header_order(&headers);
    assert_eq!(order, vec![1, 4, 2, 0, 3, 5]);
    let mut expected: Vec<usize> = (0..headers.len()).collect();
    expected.sort_by_key(|&i| headers[i].0.clone());
    assert_eq!(order, expected);
    assert!(ezcurl::view::header_order(&[]).is_empty());
}
