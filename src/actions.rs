//! The semantic actions that input tokens resolve to.

use vstd::prelude::*;

verus! {

/// What a key in normal mode asks for.
#[derive(Clone, Copy, Debug, PartialEq, Eq, Structural)]
pub enum Action {
    MoveDown,
    MoveUp,
    HalfPageDown,
    HalfPageUp,
    GoTop,
    GoBottom,
    FocusFilter,
    Quit,
    StatusNext,
    StatusPrev,
    SetTodo,
    SetDoing,
    SetDone,
}

} // verus!
