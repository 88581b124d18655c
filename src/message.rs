//! A closed set of alternatives, handled exhaustively.
use vstd::prelude::*;

verus! {

/// A message: either a request to stop, which carries nothing, or a request to
/// move to the point `(x, y)`.
#[derive(Clone, Copy, Debug, PartialEq, Eq, Structural)]
pub enum Message {
    Quit,
    Move { x: i32, y: i32 },
}

/// What handling a message decides: stop, or go to the bound coordinates.
#[derive(Clone, Copy, Debug, PartialEq, Eq, Structural)]
pub enum Action {
    Stop,
    GoTo(i32, i32),
}

/// The action that a message calls for.
pub open spec fn action_of(m: Message) -> Action {
    match m {
        Message::Quit => Action::Stop,
        Message::Move { x, y } => Action::GoTo(x, y),
    }
}

impl Message {
    /// Matches every alternative: `Quit` is handled by stopping, and `Move`
    /// by going to exactly the coordinates it carries.
    pub fn handle(&self) -> (r: Action)
        ensures
            r == action_of(*self),
            (r is Stop) <==> (*self is Quit),
            *self matches Message::Move { x, y } ==> r == Action::GoTo(x, y),
    {
        match self {
            Message::Quit => Action::Stop,
            Message::Move { x, y } => Action::GoTo(*x, *y),
        }
    }
}

} // verus!
