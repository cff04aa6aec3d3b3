use tm_core::Status;

#[test]
fn cycle_forward_three_times_returns() {
    for s in [Status::Todo, Status::Doing, Status::Done] {
        assert_eq!(s.next().next().next(), s);
    }
}

#[test]
fn forward_then_back_is_identity() {
    for s in [Status::Todo, Status::Doing, Status::Done] {
        assert_eq!(s.next().prev(), s);
        assert_eq!(s.prev().next(), s);
    }
}

#[test]
fn forward_order() {
    assert_eq!(Status::Todo.next(), Status::Doing);
    assert_eq!(Status::Doing.next(), Status::Done);
    assert_eq!(Status::Done.next(), Status::Todo);
    assert_eq!(Status::Todo.prev(), Status::Done);
}

#[test]
fn stepped_by_direction() {
    assert_eq!(Status::Todo.stepped(1), Status::Doing);
    assert_eq!(Status::Todo.stepped(0), Status::Doing);
    assert_eq!(Status::Todo.stepped(-1), Status::Done);
}

#[test]
fn status_names() {
    assert_eq!(Status::Todo.as_str(), "todo");
    assert_eq!(Status::Doing.as_str(), "doing");
    assert_eq!(Status::Done.as_str(), "done");
}

#[test]
fn unknown_status_reads_as_todo() {
    assert_eq!(Status::from_str("doing"), Status::Doing);
    assert_eq!(Status::from_str("in-progress"), Status::Doing);
    assert_eq!(Status::from_str("in_progress"), Status::Doing);
    assert_eq!(Status::from_str("done"), Status::Done);
    assert_eq!(Status::from_str("todo"), Status::Todo);
    assert_eq!(Status::from_str("blocked"), Status::Todo);
    assert_eq!(Status::from_str(""), Status::Todo);
}
