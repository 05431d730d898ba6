use vstd::prelude::*;

use crate::action::{Action, Direction};
use crate::app::{AppMode, Panel};

verus! {

/// A key as the terminal reports it, reduced to what the client reacts to.
#[derive(Debug, Clone, Copy, PartialEq, Eq, Structural)]
pub enum KeyCode {
    Char(char),
    Enter,
    Esc,
    Tab,
    BackTab,
    Backspace,
    Delete,
    Left,
    Right,
    Up,
    Down,
    Home,
    End,
    Other,
}

/// A key press: the key and whether Control was held.
#[derive(Debug, Clone, Copy, PartialEq, Eq, Structural)]
pub struct KeyInput {
    pub code: KeyCode,
    pub ctrl: bool,
}

/// Normal mode: `hjkl` or the arrows move between panels, `i` edits, Enter activates,
/// Tab and Shift+Tab step through the panels, Space starts a leader sequence, `q`
/// quits, Esc closes.
pub open spec fn normal_key_action(code: KeyCode) -> Option<Action> {
    match code {
        KeyCode::Char('h') | KeyCode::Left => Some(Action::Move(Direction::Left)),
        KeyCode::Char('j') | KeyCode::Down => Some(Action::Move(Direction::Down)),
        KeyCode::Char('k') | KeyCode::Up => Some(Action::Move(Direction::Up)),
        KeyCode::Char('l') | KeyCode::Right => Some(Action::Move(Direction::Right)),
        KeyCode::Char('i') => Some(Action::EnterInsert),
        KeyCode::Enter => Some(Action::Activate),
        KeyCode::Tab => Some(Action::NextPanel),
        KeyCode::BackTab => Some(Action::PreviousField),
        KeyCode::Char(' ') => Some(Action::Leader),
        KeyCode::Char('q') => Some(Action::Quit),
        KeyCode::Esc => Some(Action::Close),
        _ => None,
    }
}

/// Insert mode: keys edit the focused field; on the method panel `j` and `k` pick the
/// method like the arrows do.
pub open spec fn insert_key_action(code: KeyCode, panel: Panel) -> Option<Action> {
    match code {
        KeyCode::Esc => Some(Action::ExitInsert),
        KeyCode::Enter => Some(Action::InsertNewline),
        KeyCode::Tab => Some(Action::NextField),
        KeyCode::BackTab => Some(Action::PreviousField),
        KeyCode::Backspace => Some(Action::Backspace),
        KeyCode::Delete => Some(Action::Delete),
        KeyCode::Home => Some(Action::MoveCursorToStart),
        KeyCode::End => Some(Action::MoveCursorToEnd),
        KeyCode::Left => Some(Action::MoveCursor(Direction::Left)),
        KeyCode::Right => Some(Action::MoveCursor(Direction::Right)),
        KeyCode::Up => Some(Action::MoveCursor(Direction::Up)),
        KeyCode::Down => Some(Action::MoveCursor(Direction::Down)),
        KeyCode::Char(c) => if panel == Panel::Method && c == 'j' {
            Some(Action::MoveCursor(Direction::Down))
        } else if panel == Panel::Method && c == 'k' {
            Some(Action::MoveCursor(Direction::Up))
        } else {
            Some(Action::InsertChar(c))
        },
        KeyCode::Other => None,
    }
}

/// The action a key asks for. After the leader key, `e` toggles the history and any
/// other key cancels; Ctrl+S sends from either mode; other keys with Control do nothing.
pub open spec fn key_action(key: KeyInput, mode: AppMode, panel: Panel, leader_pending: bool) -> Option<Action> {
    if leader_pending {
        if !key.ctrl && key.code == KeyCode::Char('e') {
            Some(Action::ToggleHistory)
        } else {
            Some(Action::CancelLeader)
        }
    } else if key.ctrl {
        if key.code == KeyCode::Char('s') {
            Some(Action::SendRequest)
        } else {
            None
        }
    } else {
        match mode {
            AppMode::Normal => normal_key_action(key.code),
            AppMode::Insert => insert_key_action(key.code, panel),
        }
    }
}

/// Interprets a key press in the current mode, on the focused panel.
pub fn map_key(key: KeyInput, mode: AppMode, panel: Panel, leader_pending: bool) -> (r: Option<
    Action,
>)
    ensures
        r == key_action(key, mode, panel, leader_pending),
{
    if leader_pending {
        if !key.ctrl && key.code == KeyCode::Char('e') {
            return Some(Action::ToggleHistory);
        } else {
            return Some(Action::CancelLeader);
        }
    }
    if key.ctrl {
        if key.code == KeyCode::Char('s') {
            return Some(Action::SendRequest);
        } else {
            return None;
        }
    }
    match mode {
        AppMode::Normal => match key.code {
            KeyCode::Char('h') | KeyCode::Left => Some(Action::Move(Direction::Left)),
            KeyCode::Char('j') | KeyCode::Down => Some(Action::Move(Direction::Down)),
            KeyCode::Char('k') | KeyCode::Up => Some(Action::Move(Direction::Up)),
            KeyCode::Char('l') | KeyCode::Right => Some(Action::Move(Direction::Right)),
            KeyCode::Char('i') => Some(Action::EnterInsert),
            KeyCode::Enter => Some(Action::Activate),
            KeyCode::Tab => Some(Action::NextPanel),
            KeyCode::BackTab => Some(Action::PreviousField),
            KeyCode::Char(' ') => Some(Action::Leader),
            KeyCode::Char('q') => Some(Action::Quit),
            KeyCode::Esc => Some(Action::Close),
            _ => None,
        },
        AppMode::Insert => match key.code {
            KeyCode::Esc => Some(Action::ExitInsert),
            KeyCode::Enter => Some(Action::InsertNewline),
            KeyCode::Tab => Some(Action::NextField),
            KeyCode::BackTab => Some(Action::PreviousField),
            KeyCode::Backspace => Some(Action::Backspace),
            KeyCode::Delete => Some(Action::Delete),
            KeyCode::Home => Some(Action::MoveCursorToStart),
            KeyCode::End => Some(Action::MoveCursorToEnd),
            KeyCode::Left => Some(Action::MoveCursor(Direction::Left)),
            KeyCode::Right => Some(Action::MoveCursor(Direction::Right)),
            KeyCode::Up => Some(Action::MoveCursor(Direction::Up)),
            KeyCode::Down => Some(Action::MoveCursor(Direction::Down)),
            KeyCode::Char(c) => {
                if panel == Panel::Method && c == 'j' {
                    Some(Action::MoveCursor(Direction::Down))
                } else if panel == Panel::Method && c == 'k' {
                    Some(Action::MoveCursor(Direction::Up))
                } else {
                    Some(Action::InsertChar(c))
                }
            },
            KeyCode::Other => None,
        },
    }
}

/// Ctrl+S sends the request whatever the mode and panel, unless a leader sequence is
/// pending.
pub proof fn law_ctrl_s_sends(mode: AppMode, panel: Panel)
    ensures
        key_action(KeyInput { code: KeyCode::Char('s'), ctrl: true }, mode, panel, false) == Some(
            Action::SendRequest,
        ),
{
}

} // verus!
