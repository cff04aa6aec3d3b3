//! The three-state task lifecycle: todo, doing, done, and back to todo.

use vstd::prelude::*;

use crate::text::str_eq;

verus! {

/// Where a task stands in its lifecycle.
#[derive(Clone, Copy, Debug, PartialEq, Eq, Structural)]
pub enum Status {
    Todo,
    Doing,
    Done,
}

/// The name under which a status is stored.
pub open spec fn status_name(s: Status) -> Seq<char> {
    match s {
        Status::Todo => "todo"@,
        Status::Doing => "doing"@,
        Status::Done => "done"@,
    }
}

/// The status that a stored name stands for; names it does not know read as `Todo`.
pub open spec fn status_of_name(s: Seq<char>) -> Status {
    if s == "doing"@ || s == "in-progress"@ || s == "in_progress"@ {
        Status::Doing
    } else if s == "done"@ {
        Status::Done
    } else {
        Status::Todo
    }
}

/// One step forward: todo, doing, done, todo.
pub open spec fn status_after(s: Status) -> Status {
    match s {
        Status::Todo => Status::Doing,
        Status::Doing => Status::Done,
        Status::Done => Status::Todo,
    }
}

/// One step back, the inverse of `status_after`.
pub open spec fn status_before(s: Status) -> Status {
    match s {
        Status::Todo => Status::Done,
        Status::Doing => Status::Todo,
        Status::Done => Status::Doing,
    }
}

/// A step forward for a non-negative direction, backward otherwise.
pub open spec fn status_stepped(s: Status, direction: int) -> Status {
    if direction >= 0 {
        status_after(s)
    } else {
        status_before(s)
    }
}

impl Status {
    pub fn as_str(&self) -> (r: &'static str)
        ensures
            r@ == status_name(*self),
    {
        match self {
            Status::Todo => "todo",
            Status::Doing => "doing",
            Status::Done => "done",
        }
    }

    pub fn from_str(s: &str) -> (r: Status)
        ensures
            r == status_of_name(s@),
    {
        if str_eq(s, "doing") || str_eq(s, "in-progress") || str_eq(s, "in_progress") {
            Status::Doing
        } else if str_eq(s, "done") {
            Status::Done
        } else {
            Status::Todo
        }
    }

    pub fn next(&self) -> (r: Status)
        ensures
            r == status_after(*self),
    {
        match self {
            Status::Todo => Status::Doing,
            Status::Doing => Status::Done,
            Status::Done => Status::Todo,
        }
    }

    pub fn prev(&self) -> (r: Status)
        ensures
            r == status_before(*self),
    {
        match self {
            Status::Todo => Status::Done,
            Status::Doing => Status::Todo,
            Status::Done => Status::Doing,
        }
    }

    /// Forward for `direction >= 0`, backward for a negative one.
    pub fn stepped(&self, direction: i8) -> (r: Status)
        ensures
            r == status_stepped(*self, direction as int),
    {
        if direction >= 0 {
            self.next()
        } else {
            self.prev()
        }
    }
}

/// Three steps forward come back to the start, and a step forward followed by
/// a step back (or back, then forward) changes nothing.
pub proof fn lemma_status_cycle(s: Status)
    ensures
        status_after(status_after(status_after(s))) == s,
        status_before(status_after(s)) == s,
        status_after(status_before(s)) == s,
{
}

/// The same for steps taken by direction, as cycling a stored task does:
/// three forward steps, or one forward and one back, give the start again.
pub proof fn lemma_status_stepped_cycle(s: Status, forward: int, back: int)
    requires
        forward >= 0,
        back < 0,
    ensures
        status_stepped(status_stepped(status_stepped(s, forward), forward), forward) == s,
        status_stepped(status_stepped(s, forward), back) == s,
        status_stepped(status_stepped(s, back), forward) == s,
{
}

/// A stored name read back gives the status it was written from.
pub proof fn lemma_status_name_round_trip(s: Status)
    ensures
        status_of_name(status_name(s)) == s,
{
    reveal_strlit("todo");
    reveal_strlit("doing");
    reveal_strlit("done");
    reveal_strlit("in-progress");
    reveal_strlit("in_progress");
    assert("todo"@[0] != "doing"@[0]);
    assert("todo"@[0] != "in-progress"@[0]);
    assert("todo"@[0] != "in_progress"@[0]);
    assert("todo"@[0] != "done"@[0]);
    assert("done"@[2] != "doing"@[2]);
    assert("done"@[0] != "in-progress"@[0]);
    assert("done"@[0] != "in_progress"@[0]);
}

} // verus!
