use tm_core::store::{
    new_project, new_task, plan_task, project_path, renamed_file_name, tags_from_csv, task_path,
    CalendarDate, Stamp,
};
use tm_core::text::padded_number;
use tm_core::{Frontmatter, ProjectNew, Status, StoreError, TaskNew};

fn stamp() -> Stamp {
    Stamp {
        date: CalendarDate { year: 2025, month: 9, day: 1 },
        text: "2025-09-01T10:00:00Z".to_string(),
    }
}

fn task_new(title: &str) -> TaskNew {
    TaskNew {
        title: title.to_string(),
        project: "home".to_string(),
        due: Some("2025-09-02".to_string()),
        tags: vec!["errand".to_string()],
    }
}

#[test]
fn planned_task_is_todo_with_its_id() {
    let p = plan_task(&task_new("Buy milk"), "01J000", "buy-milk", &stamp()).unwrap();
    assert_eq!(p.id, "01J000");
    assert_eq!(p.record.id, "01J000");
    assert_eq!(Status::from_str(&p.record.status), Status::Todo);
    assert_eq!(p.record.priority, "none");
    assert_eq!(p.record.created.as_deref(), Some("2025-09-01T10:00:00Z"));
    assert_eq!(
        p.path,
        vec!["tasks", "2025", "09", "2025-09-01--buy-milk--01J000.md"]
    );
}

#[test]
fn empty_title_is_refused() {
    assert!(matches!(plan_task(&task_new(""), "x", "", &stamp()), Err(StoreError::EmptyTitle)));
    assert!(matches!(new_task(&task_new("")), Err(StoreError::EmptyTitle)));
}

#[test]
fn new_task_gets_fresh_id_and_slug() {
    let p = new_task(&task_new("Buy Milk!")).unwrap();
    assert_eq!(p.id.len(), 26);
    assert!(p.id.chars().all(|c| c.is_ascii_digit() || c.is_ascii_uppercase()));
    assert_eq!(p.record.key, "buy-milk");
    assert_eq!(p.record.status, "todo");
    assert_eq!(p.path[0], "tasks");
    assert!(p.path[3].ends_with(&format!("--buy-milk--{}.md", p.id)));
    assert!(p.path[3].starts_with(&format!("{}-{}-", p.path[1], p.path[2])));
    assert!(p.record.created.as_deref().unwrap().len() >= 20);
}

#[test]
fn new_project_is_keyed_by_slug() {
    let p = new_project(&ProjectNew { title: "Home Stuff & More".to_string(), tags: vec![] }).unwrap();
    assert_eq!(p.key, "home-stuff-more");
    assert_eq!(p.path, vec!["projects", "home-stuff-more.md"]);
    assert_eq!(p.record.status, "active");
    assert!(p.record.description.is_none());
}

#[test]
fn paths() {
    assert_eq!(project_path("home"), vec!["projects", "home.md"]);
    let d = CalendarDate { year: 7, month: 12, day: 31 };
    assert_eq!(task_path(d, "s", "I"), vec!["tasks", "0007", "12", "0007-12-31--s--I.md"]);
}

#[test]
fn padded_numbers() {
    assert_eq!(padded_number(2025, 4), "2025");
    assert_eq!(padded_number(5, 2), "05");
    assert_eq!(padded_number(123456, 4), "123456");
    assert_eq!(padded_number(-5, 4), "-005");
    assert_eq!(padded_number(0, 2), "00");
}

#[test]
fn tags_from_lists() {
    assert_eq!(tags_from_csv("work, +home  urgent"), vec!["work", "home", "urgent"]);
    assert_eq!(tags_from_csv(""), Vec::<String>::new());
    assert_eq!(tags_from_csv(" , ,"), Vec::<String>::new());
    assert_eq!(tags_from_csv("++a,b\t"), vec!["a", "b"]);
    assert_eq!(tags_from_csv("+"), vec![""]);
}

#[test]
fn renamed_files() {
    assert_eq!(
        renamed_file_name("2025-09-01--old-title--01J", "new-title", "01J"),
        Some("2025-09-01--new-title--01J.md".to_string())
    );
    assert_eq!(renamed_file_name("2025-09-01--old", "n", "i"), None);
    assert_eq!(renamed_file_name("plain", "n", "i"), None);
}

fn front() -> Frontmatter {
    Frontmatter {
        id: "I".to_string(),
        key: "k".to_string(),
        title: "T".to_string(),
        status: "weird".to_string(),
        project: "p".to_string(),
        tags: vec![],
        priority: "none".to_string(),
        due: None,
        created: Some("c".to_string()),
        updated: Some("u".to_string()),
        parent: None,
    }
}

#[test]
fn field_changes() {
    let now = stamp();
    let mut fm = front();
    assert_eq!(fm.cycle_status(1, &now), Status::Doing);
    assert_eq!(fm.status, "doing");
    assert_eq!(fm.updated.as_deref(), Some("2025-09-01T10:00:00Z"));
    assert_eq!(fm.cycle_status(-1, &now), Status::Todo);
    fm.set_status(Status::Done, &now);
    assert_eq!(fm.status, "done");
    fm.set_due("tomorrow", &now);
    assert_eq!(fm.due.as_deref(), Some("tomorrow"));
    fm.set_tags_csv("a,+b", &now);
    assert_eq!(fm.tags, vec!["a", "b"]);
    fm.rename("New Name", &now);
    assert_eq!(fm.title, "New Name");
    assert_eq!(fm.key, "new-name");
    assert_eq!(fm.id, "I");
    assert_eq!(fm.created.as_deref(), Some("c"));
}
