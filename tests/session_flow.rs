use tm_core::{default_keymap, Effect, Field, KeyInput, KeyName, Mode, Session, Status};

fn ch(c: char) -> KeyInput {
    KeyInput { key: KeyName::Char(c), ctrl: false, shift: c.is_ascii_uppercase() }
}

fn named(k: KeyName) -> KeyInput {
    KeyInput { key: k, ctrl: false, shift: false }
}

fn ids(n: usize) -> Vec<String> {
    (0..n).map(|i| format!("id{i}")).collect()
}

fn type_line(s: &mut Session, line: &str, vis: &Vec<String>) -> Effect {
    let km = default_keymap();
    s.step(&ch(':'), vis, &km);
    for c in line.chars() {
        s.step(&ch(c), vis, &km);
    }
    s.step(&named(KeyName::Enter), vis, &km)
}

#[test]
fn ex_status_uses_selection() {
    let km = default_keymap();
    let vis = ids(3);
    let mut s = Session::new(vec![]);
    s.step(&ch('j'), &vis, &km);
    assert_eq!(s.selected, 1);
    let e = type_line(&mut s, "status done", &vis);
    assert!(matches!(e, Effect::SetStatus { ref id, status: Status::Done, from_ex: true } if id == "id1"));
    assert_eq!(s.mode, Mode::Browsing);
    assert_eq!(s.buffer, "");
    s.status_changed(Status::Done, true);
    assert_eq!(s.message.as_ref().unwrap().text, "status set: done");
}

#[test]
fn ex_status_without_selection_reports() {
    let mut s = Session::new(vec![]);
    let e = type_line(&mut s, "status next", &vec![]);
    assert!(matches!(e, Effect::Idle));
    let m = s.message.unwrap();
    assert!(m.is_error);
    assert_eq!(m.text, "no task selected");
}

#[test]
fn ex_parse_error_is_shown() {
    let mut s = Session::new(vec![]);
    let e = type_line(&mut s, "new", &ids(1));
    assert!(matches!(e, Effect::Idle));
    assert_eq!(s.message.unwrap().text, ":new requires a title (quoted if it has spaces)");
}

#[test]
fn ex_new_defaults_to_inbox() {
    let mut s = Session::new(vec![]);
    let e = type_line(&mut s, "new \"Buy milk\" +errand", &ids(0));
    match e {
        Effect::CreateTask(t) => {
            assert_eq!(t.title, "Buy milk");
            assert_eq!(t.project, "inbox");
            assert_eq!(t.tags, vec!["errand"]);
        }
        _ => panic!("expected a task to create"),
    }
    s.task_created("01X", "inbox");
    assert_eq!(s.message.unwrap().text, "created task 01X in project inbox");
}

#[test]
fn ex_open_project() {
    let mut s = Session::new(vec![]);
    type_line(&mut s, "open project:home", &ids(0));
    assert_eq!(s.current_project.as_deref(), Some("home"));
    assert_eq!(s.message.as_ref().unwrap().text, "opened project home");
    type_line(&mut s, "open", &ids(0));
    assert_eq!(s.current_project, None);
}

#[test]
fn gg_goes_to_top_and_g_then_other_breaks() {
    let km = default_keymap();
    let vis = ids(5);
    let mut s = Session::new(vec![]);
    s.step(&ch('G'), &vis, &km);
    assert_eq!(s.selected, 4);
    s.step(&ch('g'), &vis, &km);
    assert_eq!(s.selected, 4);
    s.step(&ch('k'), &vis, &km);
    assert_eq!(s.selected, 3);
    s.step(&ch('g'), &vis, &km);
    s.step(&ch('g'), &vis, &km);
    assert_eq!(s.selected, 0);
    assert!(!s.pending_g);
}

#[test]
fn status_keys_produce_effects() {
    let km = default_keymap();
    let vis = ids(2);
    let mut s = Session::new(vec![]);
    assert!(matches!(s.step(&ch('x'), &vis, &km), Effect::CycleStatus { direction: 1, .. }));
    assert!(matches!(s.step(&ch('X'), &vis, &km), Effect::CycleStatus { direction: -1, .. }));
    assert!(matches!(s.step(&ch('2'), &vis, &km), Effect::SetStatus { status: Status::Doing, from_ex: false, .. }));
    assert!(matches!(s.step(&ch('x'), &vec![], &km), Effect::Idle));
    assert!(matches!(s.step(&ch('q'), &vis, &km), Effect::Quit));
}

#[test]
fn filter_mode_types_and_keeps_filter() {
    let km = default_keymap();
    let vis = ids(1);
    let mut s = Session::new(vec![]);
    s.step(&ch('/'), &vis, &km);
    assert_eq!(s.mode, Mode::Filtering);
    s.step(&ch('a'), &vis, &km);
    s.step(&ch('b'), &vis, &km);
    s.step(&KeyInput { key: KeyName::Char('c'), ctrl: true, shift: false }, &vis, &km);
    s.step(&named(KeyName::Backspace), &vis, &km);
    s.step(&ch('z'), &vis, &km);
    s.step(&named(KeyName::Esc), &vis, &km);
    assert_eq!(s.mode, Mode::Browsing);
    assert_eq!(s.filter, "az");
}

#[test]
fn field_edit_applies_to_selection() {
    let km = default_keymap();
    let vis = ids(2);
    let mut s = Session::new(vec![]);
    s.step(&ch('D'), &vis, &km);
    assert_eq!(s.mode, Mode::EditingField(Field::Due));
    for c in "friday".chars() {
        s.step(&ch(c), &vis, &km);
    }
    let e = s.step(&named(KeyName::Enter), &vis, &km);
    assert!(matches!(e, Effect::SetDue { ref id, ref text } if id == "id0" && text == "friday"));
    s.saved();
    assert_eq!(s.message.as_ref().unwrap().text, "saved");
    s.step(&ch('R'), &vis, &km);
    s.step(&ch('x'), &vis, &km);
    assert!(matches!(s.step(&named(KeyName::Esc), &vis, &km), Effect::Idle));
    assert_eq!(s.buffer, "");
    assert_eq!(s.mode, Mode::Browsing);
}

#[test]
fn project_cycling_wraps() {
    let km = default_keymap();
    let vis = ids(0);
    let mut s = Session::new(vec!["work".to_string(), "home".to_string()]);
    assert_eq!(s.projects, vec!["home", "work"]);
    s.step(&ch(']'), &vis, &km);
    assert_eq!(s.current_project.as_deref(), Some("home"));
    s.step(&ch(']'), &vis, &km);
    assert_eq!(s.current_project.as_deref(), Some("work"));
    s.step(&ch(']'), &vis, &km);
    assert_eq!(s.current_project.as_deref(), Some("home"));
    s.step(&ch('['), &vis, &km);
    assert_eq!(s.current_project.as_deref(), Some("work"));
    let mut empty = Session::new(vec![]);
    empty.current_project = Some("x".to_string());
    empty.step(&ch(']'), &vis, &km);
    assert_eq!(empty.current_project, None);
}

#[test]
fn project_picker() {
    let km = default_keymap();
    let vis = ids(0);
    let mut s = Session::new(vec![]);
    assert!(matches!(s.step(&ch('O'), &vis, &km), Effect::RefreshProjects));
    assert_eq!(s.mode, Mode::PickingProject);
    s.projects_listed(vec!["b".to_string(), "a".to_string(), "c".to_string()]);
    s.step(&named(KeyName::Down), &vis, &km);
    s.step(&named(KeyName::Down), &vis, &km);
    s.step(&named(KeyName::Down), &vis, &km);
    assert_eq!(s.pick_index, 2);
    s.step(&named(KeyName::Up), &vis, &km);
    s.step(&named(KeyName::Enter), &vis, &km);
    assert_eq!(s.mode, Mode::Browsing);
    assert_eq!(s.current_project.as_deref(), Some("b"));
}

#[test]
fn new_project_prompt() {
    let km = default_keymap();
    let vis = ids(0);
    let mut s = Session::new(vec![]);
    s.step(&ch('P'), &vis, &km);
    assert_eq!(s.mode, Mode::EnteringNewProjectTitle);
    for c in "  My Proj ".chars() {
        s.step(&ch(c), &vis, &km);
    }
    match s.step(&named(KeyName::Enter), &vis, &km) {
        Effect::CreateProject(p) => assert_eq!(p.title, "My Proj"),
        _ => panic!("expected a project to create"),
    }
    s.project_created("my-proj".to_string(), vec!["my-proj".to_string(), "a".to_string()]);
    assert_eq!(s.current_project.as_deref(), Some("my-proj"));
    assert_eq!(s.projects, vec!["a", "my-proj"]);
    assert_eq!(s.message.unwrap().text, "created project my-proj");
    let mut t = Session::new(vec![]);
    t.step(&ch('P'), &vis, &km);
    t.step(&ch(' '), &vis, &km);
    assert!(matches!(t.step(&named(KeyName::Enter), &vis, &km), Effect::Idle));
}

#[test]
fn selection_is_clamped_to_visible_list() {
    let km = default_keymap();
    let mut s = Session::new(vec![]);
    s.selected = 7;
    s.step(&ch('j'), &ids(5), &km);
    assert_eq!(s.selected, 4);
    s.step(&ch('j'), &ids(0), &km);
    assert_eq!(s.selected, 0);
}

#[test]
fn other_keys_break_the_chord() {
    let km = default_keymap();
    let vis = ids(5);
    for other in [']', '[', 'P', ':', 'O'] {
        let mut s = Session::new(vec!["a".to_string()]);
        s.step(&ch('G'), &vis, &km);
        s.step(&ch('g'), &vis, &km);
        assert!(s.pending_g);
        s.step(&ch(other), &vis, &km);
        assert!(!s.pending_g);
        s.step(&named(KeyName::Esc), &vis, &km);
        s.selected = 4;
        s.step(&ch('g'), &vis, &km);
        assert_eq!(s.selected, 4);
        assert!(s.pending_g);
    }
}

#[test]
fn picking_from_no_projects_resets_selection() {
    let km = default_keymap();
    let vis = ids(5);
    let mut s = Session::new(vec![]);
    s.step(&ch('G'), &vis, &km);
    assert_eq!(s.selected, 4);
    s.step(&ch('O'), &vis, &km);
    s.step(&named(KeyName::Enter), &vis, &km);
    assert_eq!(s.mode, Mode::Browsing);
    assert_eq!(s.current_project, None);
    assert_eq!(s.selected, 0);
}

#[test]
fn home_key_goes_to_top() {
    let km = default_keymap();
    let vis = ids(5);
    let mut s = Session::new(vec![]);
    s.step(&ch('G'), &vis, &km);
    s.step(&named(KeyName::Home), &vis, &km);
    assert_eq!(s.selected, 0);
}
