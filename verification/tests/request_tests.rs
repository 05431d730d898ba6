use ezcurl::action::Direction;
use ezcurl::editor::Edit;
use ezcurl::error::EzcurlError;
use ezcurl::request::{HeaderEditor, HeaderPart, HeaderState, HttpMethod, HttpRequest, RequestField};

#[test]
fn typing_a_header_automatically_creates_the_next_row() {
    let mut headers = HeaderEditor::default();

    headers.edit(Edit::Insert('X'));

    assert_eq!(headers.rows().len(), 2);
    assert_eq!(headers.rows()[0].key(), "X");
    assert!(headers.rows()[1].is_empty());
}

#[test]
fn advancing_moves_from_key_to_value_then_next_row() {
    let mut headers = HeaderEditor::default();
    headers.edit(Edit::Insert('X'));

    headers.next_field();
    assert_eq!(headers.part(), HeaderPart::Value);

    headers.next_field();
    assert_eq!(headers.part(), HeaderPart::Key);
    assert_eq!(headers.selected(), 1);
}

#[test]
fn empty_draft_is_not_sent() {
    let mut headers = HeaderEditor::default();
    headers.add("Accept", "application/json");

    assert_eq!(
        headers.values().unwrap(),
        vec![("Accept".to_string(), "application/json".to_string())]
    );
}

#[test]
fn arrows_cross_the_key_value_boundary() {
    let mut headers = HeaderEditor::default();
    headers.add("Accept", "application/json");

    headers.edit(Edit::Move(Direction::Right));
    assert_eq!(headers.part(), HeaderPart::Value);
    assert_eq!(headers.active_editor().cursor_position(), (0, 0));

    headers.edit(Edit::Move(Direction::Left));
    assert_eq!(headers.part(), HeaderPart::Key);
    assert_eq!(headers.active_editor().cursor_position(), (6, 0));
}

#[test]
fn method_selection_wraps_around_the_list() {
    assert_eq!(HttpMethod::Options.next(), HttpMethod::Get);
    assert_eq!(HttpMethod::Get.previous(), HttpMethod::Options);
}

#[test]
fn header_state_distinguishes_included_pending_and_invalid_rows() {
    let mut headers = HeaderEditor::default();
    assert_eq!(headers.rows()[0].state(), HeaderState::Pending);

    headers.select_part(HeaderPart::Value);
    headers.edit(Edit::Insert('x'));
    assert_eq!(headers.rows()[0].state(), HeaderState::Invalid);

    headers.select_part(HeaderPart::Key);
    headers.edit(Edit::Insert('X'));
    assert_eq!(headers.rows()[0].state(), HeaderState::Included);
}

#[test]
fn method_cycle_comes_back_after_every_method() {
    let all = HttpMethod::all();
    assert_eq!(all.len(), 7);
    for (i, method) in all.iter().enumerate() {
        assert_eq!(method.index(), i);
        assert_eq!(method.next().previous(), *method);
        assert_eq!(method.previous().next(), *method);
        let mut m = *method;
        for _ in 0..7 {
            m = m.next();
        }
        assert_eq!(m, *method);
    }
    assert_eq!(HttpMethod::Get.next(), HttpMethod::Post);
    assert_eq!(HttpMethod::Patch.as_str(), "PATCH");
    assert_eq!(HttpMethod::Options.as_str(), "OPTIONS");
}

#[test]
fn header_with_value_but_no_name_is_refused() {
    let mut headers = HeaderEditor::default();
    headers.add("  ", "text/plain");
    match headers.values() {
        Err(EzcurlError::InvalidHeader(message)) => {
            assert_eq!(message, "header name cannot be empty")
        }
        other => panic!("unexpected {:?}", other),
    }
}

#[test]
fn header_names_and_values_are_trimmed() {
    let mut headers = HeaderEditor::default();
    headers.add(" X-Id\t", "  42 \u{3000}");
    headers.add("Accept", "");
    assert_eq!(
        headers.values().unwrap(),
        vec![
            ("X-Id".to_string(), "42".to_string()),
            ("Accept".to_string(), "".to_string())
        ]
    );
}

#[test]
fn erasing_a_header_leaves_one_empty_row() {
    let mut headers = HeaderEditor::default();
    headers.edit(Edit::Insert('A'));
    headers.edit(Edit::Move(Direction::Down));
    assert_eq!(headers.selected(), 1);
    headers.edit(Edit::Insert('B'));
    assert_eq!(headers.rows().len(), 3);
    headers.edit(Edit::Backspace);
    assert_eq!(headers.rows().len(), 2);
    headers.edit(Edit::Move(Direction::Up));
    headers.edit(Edit::Backspace);
    assert_eq!(headers.rows().len(), 1);
    assert_eq!(headers.selected(), 0);
    assert!(headers.rows()[0].is_empty());
}

#[test]
fn newline_is_ignored_in_headers() {
    let mut headers = HeaderEditor::default();
    headers.edit(Edit::Insert('\n'));
    assert_eq!(headers.rows().len(), 1);
    assert!(headers.rows()[0].is_empty());
}

#[test]
fn previous_field_walks_back_through_the_table() {
    let mut headers = HeaderEditor::default();
    headers.add("A", "1");
    headers.previous_field();
    assert_eq!(headers.part(), HeaderPart::Key);
    assert_eq!(headers.selected(), 0);
    headers.next_field();
    headers.next_field();
    assert_eq!(headers.selected(), 1);
    headers.previous_field();
    assert_eq!((headers.selected(), headers.part()), (0, HeaderPart::Value));
    headers.previous_field();
    assert_eq!((headers.selected(), headers.part()), (0, HeaderPart::Key));
}

#[test]
fn body_round_trips_utf8_and_is_absent_when_empty() {
    let mut request = HttpRequest::new(HttpMethod::Post, "http://x".to_string());
    assert_eq!(request.body(), None);
    request.set_body("héllo ✓".as_bytes().to_vec());
    assert_eq!(request.body(), Some("héllo ✓".as_bytes().to_vec()));
    assert_eq!(request.editor(RequestField::Body).text(), "héllo ✓");
    request.set_body(vec![b'a', 0xff, b'b']);
    assert_eq!(request.editor(RequestField::Body).text(), "a\u{fffd}b");
    request.set_body(Vec::new());
    assert_eq!(request.body(), None);
}

#[test]
fn request_accessors_reflect_edits() {
    let mut request = HttpRequest::new(HttpMethod::Get, "https://a.test".to_string());
    assert_eq!(request.url(), "https://a.test");
    request.set_method(HttpMethod::Put);
    assert_eq!(request.method(), HttpMethod::Put);
    request.editor_mut(RequestField::Url).edit(Edit::Backspace);
    assert_eq!(request.url(), "https://a.tes");
    request.add_header("User-Agent", "ezcurl/0.1");
    request.header_editor_mut().edit(Edit::Insert('Z'));
    assert_eq!(request.header_editor().rows().len(), 2);
    assert_eq!(request.header_editor().rows()[0].key(), "User-AgentZ");
    assert_eq!(
        request.header_values().unwrap(),
        vec![("User-AgentZ".to_string(), "ezcurl/0.1".to_string())]
    );
}

#[test]
fn ill_formed_body_bytes_still_give_a_body() {
    let mut request = HttpRequest::new(HttpMethod::Post, "http://x".to_string());
    request.set_body(vec![0xff]);
    assert_eq!(request.body(), Some("\u{fffd}".as_bytes().to_vec()));
}

#[test]
fn headers_added_in_turn_are_sent_in_order_and_trimmed() {
    let mut request = HttpRequest::new(HttpMethod::Get, "http://x".to_string());
    request.add_header(" A ", "1");
    request.add_header("B", " 2 ");
    request.add_header("C", "");
    assert_eq!(
        request.header_values().unwrap(),
        vec![
            ("A".to_string(), "1".to_string()),
            ("B".to_string(), "2".to_string()),
            ("C".to_string(), "".to_string())
        ]
    );
    assert_eq!(request.header_editor().rows().len(), 4);
    assert!(request.header_editor().rows()[3].is_empty());
}
