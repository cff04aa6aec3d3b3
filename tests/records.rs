use tm_core::nav::{navigate, task_visible, visible_indices};
use tm_core::record::{collect_projects, collect_tasks, frame_record, split_record};
use tm_core::{Action, Project, Task};

fn task(id: &str, updated: &str) -> Task {
    Task {
        id: id.to_string(),
        title: format!("title {id}"),
        status: "todo".to_string(),
        project: "inbox".to_string(),
        updated: updated.to_string(),
    }
}

fn project(key: &str, title: &str, updated: &str) -> Project {
    Project {
        key: key.to_string(),
        title: title.to_string(),
        status: "active".to_string(),
        tags: vec![],
        updated: updated.to_string(),
    }
}

#[test]
fn listing_skips_one_corrupt_record() {
    let found = vec![
        Some(task("a", "2025-01-01T00:00:00Z")),
        None,
        Some(task("b", "2025-03-01T00:00:00Z")),
        Some(task("c", "2025-02-01T00:00:00Z")),
    ];
    let r = collect_tasks(found);
    assert_eq!(r.len(), 3);
    let ids: Vec<&str> = r.iter().map(|t| t.id.as_str()).collect();
    assert_eq!(ids, vec!["b", "c", "a"]);
}

#[test]
fn listing_of_nothing() {
    assert!(collect_tasks(vec![None, None]).is_empty());
    assert!(collect_tasks(vec![]).is_empty());
}

#[test]
fn projects_by_update_then_title() {
    let found = vec![
        Some(project("b", "Beta", "2025-01-01")),
        Some(project("a", "Alpha", "2025-01-01")),
        None,
        Some(project("c", "Gamma", "2025-05-01")),
    ];
    let r = collect_projects(found);
    let keys: Vec<&str> = r.iter().map(|p| p.key.as_str()).collect();
    assert_eq!(keys, vec!["c", "a", "b"]);
}

#[test]
fn frame_then_split_keeps_body() {
    let meta = "id: x\nstatus: todo\n";
    let body = "# Notes\n\nsome --- text\n";
    let rec = frame_record(meta, body);
    assert_eq!(rec, "---\nid: x\nstatus: todo\n---\n# Notes\n\nsome --- text\n");
    let (m, b) = split_record(&rec).unwrap();
    assert_eq!(m, "id: x\nstatus: todo");
    assert_eq!(b, body);
}

#[test]
fn split_edge_cases() {
    assert_eq!(split_record("no header"), None);
    assert_eq!(split_record("---\nid: x\n"), None);
    assert_eq!(split_record("---\n---\n"), None);
    assert_eq!(split_record("---\n\n---"), Some((String::new(), String::new())));
    assert_eq!(split_record("---\na\n---b"), Some(("a".to_string(), "b".to_string())));
    assert_eq!(split_record("---\na\n---\n\nb"), Some(("a".to_string(), "\nb".to_string())));
}

#[test]
fn navigation_clamps() {
    assert_eq!(navigate(Action::MoveDown, 4, 5), 4);
    assert_eq!(navigate(Action::MoveDown, 2, 5), 3);
    assert_eq!(navigate(Action::MoveUp, 0, 5), 0);
    assert_eq!(navigate(Action::HalfPageDown, 0, 5), 3);
    assert_eq!(navigate(Action::HalfPageDown, 3, 5), 4);
    assert_eq!(navigate(Action::HalfPageUp, 4, 5), 1);
    assert_eq!(navigate(Action::HalfPageDown, 0, 1), 0);
    assert_eq!(navigate(Action::GoBottom, 0, 5), 4);
    assert_eq!(navigate(Action::GoTop, 3, 5), 0);
    assert_eq!(navigate(Action::MoveUp, 9, 5), 3);
}

#[test]
fn navigation_on_empty_list() {
    for a in [
        Action::MoveDown,
        Action::MoveUp,
        Action::HalfPageDown,
        Action::HalfPageUp,
        Action::GoTop,
        Action::GoBottom,
    ] {
        assert_eq!(navigate(a, 0, 0), 0);
        assert_eq!(navigate(a, 3, 0), 0);
    }
}

#[test]
fn visibility_filter_ignores_case() {
    let mut t = task("a", "x");
    t.title = "Buy Milk".to_string();
    t.project = "home".to_string();
    assert!(task_visible(&t, &None, "buy"));
    assert!(task_visible(&t, &None, "MILK HOME"));
    assert!(task_visible(&t, &None, "[todo]"));
    assert!(task_visible(&t, &None, ""));
    assert!(!task_visible(&t, &None, "bread"));
    assert!(task_visible(&t, &Some("home".to_string()), "milk"));
    assert!(!task_visible(&t, &Some("work".to_string()), ""));
}

#[test]
fn visible_list_keeps_order() {
    let mut a = task("a", "1");
    a.project = "home".to_string();
    let b = task("b", "2");
    let mut c = task("c", "3");
    c.project = "home".to_string();
    let tasks = vec![a, b, c];
    assert_eq!(visible_indices(&tasks, &Some("home".to_string()), ""), vec![0, 2]);
    assert_eq!(visible_indices(&tasks, &None, "title b"), vec![1]);
}
