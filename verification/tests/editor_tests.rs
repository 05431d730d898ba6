use ezcurl::action::Direction;
use ezcurl::editor::{Edit, TextEditor};

fn typed(text: &str) -> TextEditor {
    let mut e = TextEditor::default();
    for c in text.chars() {
        e.edit(Edit::Insert(c));
    }
    e
}

#[test]
fn new_editor_puts_the_cursor_at_the_end() {
    let e = TextEditor::new("abc");
    assert_eq!(e.text(), "abc");
    assert!(e.is_at_end());
    assert!(!e.is_at_start());
    assert_eq!(e.cursor_position(), (3, 0));
    let d = TextEditor::default();
    assert!(d.is_at_start() && d.is_at_end() && d.is_empty());
}

#[test]
fn backspace_undoes_insert() {
    let mut e = TextEditor::new("ab");
    e.edit(Edit::Move(Direction::Left));
    e.edit(Edit::Insert('x'));
    assert_eq!(e.text(), "axb");
    e.edit(Edit::Backspace);
    assert_eq!(e.text(), "ab");
    assert_eq!(e.cursor_position(), (1, 0));
}

#[test]
fn delete_removes_the_character_after_the_cursor() {
    let mut e = TextEditor::new("ab");
    e.edit(Edit::Delete);
    assert_eq!(e.text(), "ab");
    e.edit(Edit::Home);
    e.edit(Edit::Delete);
    assert_eq!(e.text(), "b");
    assert!(e.is_at_start());
    e.edit(Edit::Backspace);
    assert_eq!(e.text(), "b");
}

#[test]
fn vertical_moves_keep_the_column_when_they_can() {
    let mut e = typed("abcd\nx\nlonger");
    assert_eq!(e.cursor_position(), (6, 2));
    e.edit(Edit::Move(Direction::Up));
    assert_eq!(e.cursor_position(), (1, 1));
    e.edit(Edit::Move(Direction::Up));
    assert_eq!(e.cursor_position(), (1, 0));
    e.edit(Edit::Move(Direction::Up));
    assert_eq!(e.cursor_position(), (1, 0));
    e.edit(Edit::End);
    assert_eq!(e.cursor_position(), (4, 0));
    e.edit(Edit::Move(Direction::Down));
    assert_eq!(e.cursor_position(), (1, 1));
    e.edit(Edit::Move(Direction::Down));
    assert_eq!(e.cursor_position(), (1, 2));
    e.edit(Edit::Move(Direction::Down));
    assert_eq!(e.cursor_position(), (1, 2));
    e.edit(Edit::Home);
    assert_eq!(e.cursor_position(), (0, 2));
}

#[test]
fn horizontal_moves_stop_at_the_ends() {
    let mut e = TextEditor::new("a\nb");
    e.edit(Edit::Move(Direction::Right));
    assert!(e.is_at_end());
    e.edit(Edit::Move(Direction::Left));
    assert_eq!(e.cursor_position(), (0, 1));
    e.edit(Edit::Move(Direction::Left));
    assert_eq!(e.cursor_position(), (1, 0));
    e.edit(Edit::Move(Direction::Left));
    e.edit(Edit::Move(Direction::Left));
    assert!(e.is_at_start());
}

#[test]
fn home_then_end_lands_on_the_end_of_the_line() {
    let mut e = typed("first\nsecond line\nthird");
    e.edit(Edit::Move(Direction::Up));
    e.edit(Edit::Move(Direction::Left));
    e.edit(Edit::Move(Direction::Left));
    e.edit(Edit::Home);
    assert_eq!(e.cursor_position(), (0, 1));
    e.edit(Edit::End);
    assert_eq!(e.cursor_position(), (11, 1));
}
