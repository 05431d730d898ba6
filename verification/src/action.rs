use vstd::prelude::*;

verus! {

/// A direction of movement, as given by the arrow keys or `hjkl`.
#[derive(Debug, Clone, Copy, PartialEq, Eq, Structural)]
pub enum Direction {
    Up,
    Down,
    Left,
    Right,
}

/// What the user asked for, once a key has been interpreted.
#[derive(Debug, Clone, Copy, PartialEq, Eq, Structural)]
pub enum Action {
    Move(Direction),
    MoveCursor(Direction),
    MoveCursorToStart,
    MoveCursorToEnd,
    NextField,
    PreviousField,
    SendRequest,
    NextPanel,
    ExitInsert,
    EnterInsert,
    Activate,
    ToggleHistory,
    Leader,
    CancelLeader,
    Close,
    Quit,
    InsertChar(char),
    InsertNewline,
    Backspace,
    Delete,
}

} // verus!
