use ezcurl::action::{Action, Direction};
use ezcurl::app::{App, AppMode, Panel};
use ezcurl::editor::Edit;
use ezcurl::history::HistoryEntry;
use ezcurl::request::{HeaderPart, HttpMethod, HttpRequest};
use ezcurl::response::HttpResponse;

fn app() -> App {
    App::new(
        HttpRequest::new(HttpMethod::Get, "https://example.com".to_string()),
        Ok(Vec::new()),
    )
}

#[test]
fn method_is_selected_from_the_list() {
    let mut app = app();
    app.move_focus(Direction::Left);

    app.edit(Edit::Move(Direction::Down));

    assert_eq!(app.request().method(), HttpMethod::Post);
}

#[test]
fn vertical_navigation_uses_the_matching_header_column() {
    let mut app = app();

    app.move_focus(Direction::Down);
    assert_eq!(app.focused_panel(), Panel::Headers);

    app.move_focus(Direction::Up);
    assert_eq!(app.focused_panel(), Panel::Url);

    app.move_focus(Direction::Left);
    app.move_focus(Direction::Down);
    app.move_focus(Direction::Up);
    assert_eq!(app.focused_panel(), Panel::Method);
}

#[test]
fn moving_left_from_response_returns_to_the_origin_panel() {
    let mut app = app();

    app.move_focus(Direction::Down);
    app.move_focus(Direction::Right);
    assert_eq!(app.focused_panel(), Panel::Response);

    app.move_focus(Direction::Left);
    assert_eq!(app.focused_panel(), Panel::Headers);
}

#[test]
fn h_and_l_select_header_columns_before_leaving_the_panel() {
    let mut app = app();
    app.move_focus(Direction::Down);
    assert_eq!(app.request().header_editor().part(), HeaderPart::Value);

    app.move_focus(Direction::Left);
    assert_eq!(app.focused_panel(), Panel::Headers);
    assert_eq!(app.request().header_editor().part(), HeaderPart::Key);

    app.move_focus(Direction::Right);
    assert_eq!(app.focused_panel(), Panel::Headers);
    assert_eq!(app.request().header_editor().part(), HeaderPart::Value);

    app.move_focus(Direction::Right);
    assert_eq!(app.focused_panel(), Panel::Response);
}

#[test]
fn restores_a_request_from_history() {
    let mut app = App::new(
        HttpRequest::new(HttpMethod::Get, "https://example.com".to_string()),
        Ok(vec![HistoryEntry::new(
            HttpRequest::new(HttpMethod::Delete, "https://old.test".to_string()),
            None,
            Some("failed".to_string()),
        )]),
    );

    app.restore_history_entry();

    assert_eq!(app.request().method(), HttpMethod::Delete);
    assert_eq!(app.request().url(), "https://old.test");
    assert_eq!(app.response_error(), Some("failed"));
}

#[test]
fn history_selection_previews_without_replacing_the_current_request() {
    let mut app = App::new(
        HttpRequest::new(HttpMethod::Get, "https://example.com".to_string()),
        Ok(vec![
            HistoryEntry::new(
                HttpRequest::new(HttpMethod::Get, "https://first.test".to_string()),
                None,
                None,
            ),
            HistoryEntry::new(
                HttpRequest::new(HttpMethod::Post, "https://second.test".to_string()),
                None,
                Some("failed".to_string()),
            ),
        ]),
    );
    app.toggle_history();
    assert!(app.history_open());

    assert_eq!(app.displayed_request().url(), "https://first.test");
    app.handle_history_action(Action::Move(Direction::Down));
    assert_eq!(app.displayed_request().url(), "https://second.test");
    assert_eq!(app.displayed_response_error(), Some("failed"));
    assert_eq!(app.request().url(), "https://example.com");
}

#[test]
fn sending_returns_the_request_and_records_the_outcome() {
    let mut app = app();
    app.handle_action(Action::EnterInsert);
    assert_eq!(app.mode(), AppMode::Insert);
    let outgoing = app.handle_action(Action::SendRequest).expect("a request to send");
    assert_eq!(app.mode(), AppMode::Normal);
    assert_eq!(outgoing.url(), "https://example.com");

    let response = HttpResponse::new(
        201,
        vec![("content-length".to_string(), "2".to_string())],
        b"ok".to_vec(),
    );
    let persist = app.complete_request(outgoing, Ok(response));
    assert!(persist);
    assert_eq!(app.response().map(|r| r.status()), Some(201));
    assert_eq!(app.response().map(|r| r.body()), Some(&b"ok"[..]));
    assert_eq!(app.history().len(), 1);
    assert_eq!(app.focused_panel(), Panel::Response);
    assert_eq!(app.history_selected(), 0);

    app.move_focus(Direction::Left);
    assert_eq!(app.focused_panel(), Panel::Url);
}

#[test]
fn failed_send_records_the_error_and_storage_failure_stops_persisting() {
    let mut app = app();
    let outgoing = app.handle_action(Action::SendRequest).unwrap();
    assert!(app.complete_request(outgoing, Err("connection refused".to_string())));
    assert_eq!(app.response_error(), Some("connection refused"));
    assert!(app.response().is_none());
    app.record_persist_failure("disk full".to_string());
    assert_eq!(app.history_storage_error(), Some("disk full"));
    let outgoing = app.handle_action(Action::SendRequest).unwrap();
    assert!(!app.complete_request(outgoing, Err("again".to_string())));
    assert_eq!(app.history().len(), 2);
    assert_eq!(app.history()[0].error(), Some("again"));
}

#[test]
fn history_keeps_at_most_fifty_entries() {
    let mut app = app();
    for _ in 0..60 {
        let outgoing = app.handle_action(Action::SendRequest).unwrap();
        app.complete_request(outgoing, Err("x".to_string()));
    }
    assert_eq!(app.history().len(), 50);
    let entries: Vec<HistoryEntry> = (0..70)
        .map(|_| HistoryEntry::new(HttpRequest::new(HttpMethod::Get, String::new()), None, None))
        .collect();
    let loaded = App::new(HttpRequest::new(HttpMethod::Get, String::new()), Ok(entries));
    assert_eq!(loaded.history().len(), 50);
}

#[test]
fn storage_error_at_load_gives_an_empty_history() {
    let app = App::new(
        HttpRequest::new(HttpMethod::Get, String::new()),
        Err("unreadable".to_string()),
    );
    assert_eq!(app.history().len(), 0);
    assert_eq!(app.history_storage_error(), Some("unreadable"));
    assert_eq!(app.focused_panel(), Panel::Url);
    assert_eq!(app.mode(), AppMode::Normal);
}

#[test]
fn history_actions_only_preview_until_restored() {
    let entries = vec![
        HistoryEntry::new(HttpRequest::new(HttpMethod::Put, "a".to_string()), None, None),
        HistoryEntry::new(HttpRequest::new(HttpMethod::Head, "b".to_string()), None, None),
    ];
    let mut app = App::new(HttpRequest::new(HttpMethod::Get, "c".to_string()), Ok(entries));
    app.handle_action(Action::Leader);
    assert!(app.leader_pending());
    app.handle_action(Action::ToggleHistory);
    assert!(!app.leader_pending());
    assert!(app.history_open());
    app.handle_action(Action::Move(Direction::Down));
    app.handle_action(Action::Move(Direction::Down));
    assert_eq!(app.history_selected(), 1);
    assert!(app.handle_action(Action::SendRequest).is_none());
    app.handle_action(Action::InsertChar('z'));
    assert_eq!(app.request().url(), "c");
    app.handle_action(Action::Move(Direction::Up));
    app.handle_action(Action::Move(Direction::Up));
    assert_eq!(app.history_selected(), 0);
    app.handle_action(Action::Activate);
    assert!(!app.history_open());
    assert_eq!(app.request().url(), "a");
    assert_eq!(app.request().method(), HttpMethod::Put);
    assert_eq!(app.focused_panel(), Panel::Response);
    app.handle_action(Action::ToggleHistory);
    app.handle_action(Action::Close);
    assert!(!app.history_open());
    app.handle_action(Action::Quit);
    assert!(app.should_quit());
}

#[test]
fn insert_mode_edits_the_focused_field() {
    let mut app = app();
    app.handle_action(Action::EnterInsert);
    app.handle_action(Action::Backspace);
    assert_eq!(app.request().url(), "https://example.co");
    app.handle_action(Action::InsertNewline);
    assert_eq!(app.mode(), AppMode::Normal);
    app.handle_action(Action::NextPanel);
    assert_eq!(app.focused_panel(), Panel::Headers);
    app.handle_action(Action::InsertChar('K'));
    app.handle_action(Action::NextField);
    app.handle_action(Action::InsertChar('v'));
    assert_eq!(app.request().header_editor().rows()[0].key(), "K");
    assert_eq!(app.request().header_editor().rows()[0].value(), "v");
    app.handle_action(Action::PreviousField);
    assert_eq!(app.request().header_editor().part(), HeaderPart::Key);
    app.handle_action(Action::Move(Direction::Down));
    assert_eq!(app.focused_panel(), Panel::Body);
    app.handle_action(Action::InsertChar('a'));
    app.handle_action(Action::InsertNewline);
    app.handle_action(Action::InsertChar('b'));
    assert_eq!(app.request().body(), Some(b"a\nb".to_vec()));
    assert_eq!(app.focused_editor().map(|e| e.cursor_position()), Some((1, 1)));
    app.handle_action(Action::PreviousField);
    assert_eq!(app.focused_panel(), Panel::Headers);
    app.handle_action(Action::NextPanel);
    app.handle_action(Action::NextPanel);
    assert_eq!(app.focused_panel(), Panel::Response);
    app.handle_action(Action::EnterInsert);
    assert_eq!(app.mode(), AppMode::Normal);
    assert!(app.focused_editor().is_none());
    app.handle_action(Action::NextPanel);
    assert_eq!(app.focused_panel(), Panel::Method);
    app.handle_action(Action::MoveCursor(Direction::Up));
    assert_eq!(app.request().method(), HttpMethod::Options);
}

#[test]
fn toggling_the_history_twice_only_resets_mode_and_leader() {
    let entries = vec![HistoryEntry::new(HttpRequest::new(HttpMethod::Get, "a".to_string()), None, None)];
    let mut app = App::new(HttpRequest::new(HttpMethod::Get, "b".to_string()), Ok(entries));
    app.handle_action(Action::EnterInsert);
    app.handle_action(Action::Leader);
    app.toggle_history();
    app.toggle_history();
    assert!(!app.history_open());
    assert!(!app.leader_pending());
    assert_eq!(app.mode(), AppMode::Normal);
    assert_eq!(app.history_selected(), 0);
    assert_eq!(app.focused_panel(), Panel::Url);
    assert_eq!(app.request().url(), "b");
}

#[test]
fn tab_and_shift_tab_in_headers_return_to_the_same_field() {
    let mut request = HttpRequest::new(HttpMethod::Get, "u".to_string());
    request.add_header("A", "1");
    let mut app = App::new(request, Ok(Vec::new()));
    app.move_focus(Direction::Down);
    app.handle_action(Action::EnterInsert);
    assert_eq!(app.request().header_editor().part(), HeaderPart::Value);
    app.handle_action(Action::NextField);
    app.handle_action(Action::PreviousField);
    assert_eq!(app.request().header_editor().part(), HeaderPart::Value);
    assert_eq!(app.request().header_editor().selected(), 0);
}
