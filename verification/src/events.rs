use vstd::prelude::*;

pub use crate::action::Direction;

verus! {

/// A terminal event, split by the mode in which it arrives.
#[derive(Debug, Clone, Copy, PartialEq, Eq, Structural)]
pub enum CliEvent {
    Insert(InsertEvent),
    Normal(NormalEvent),
}

/// Events of normal mode.
#[derive(Debug, Clone, Copy, PartialEq, Eq, Structural)]
pub enum NormalEvent {
    EnterInsert,
    Move(Direction),
    Quit,
    ToggleHistory,
    ToggleLeaderKey,
}

/// Events of insert mode.
#[derive(Debug, Clone, Copy, PartialEq, Eq, Structural)]
pub enum InsertEvent {
    Backspace,
    Delete,
    ExitInsert,
    InsertChar(char),
}

/// Whether the terminal loop should stop.
#[derive(Debug, Clone, Copy, PartialEq, Eq, Structural)]
pub struct AppControlFlow {
    pub quit: bool,
}

/// The state shared by the terminal loop: the client that sends requests and the loop's
/// control flow.
pub struct AppState<C> {
    pub client: C,
    pub control: AppControlFlow,
}

impl<C> AppState<C> {
    pub fn new(client: C, control: AppControlFlow) -> (r: Self)
        ensures
            r.client == client,
            r.control == control,
    {
        AppState { client, control }
    }
}

/// Receives terminal events; every event is accepted.
pub struct EventHandler;

} // verus!
