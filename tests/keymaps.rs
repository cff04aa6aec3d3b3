use tm_core::keymap::parse_action_name;
use tm_core::{default_keymap, key_token, keymap_with_overrides, Action, KeyInput, KeyName, Keymap};

fn key(k: KeyName, ctrl: bool, shift: bool) -> KeyInput {
    KeyInput { key: k, ctrl, shift }
}

#[test]
fn ctrl_d_normalizes_and_resolves() {
    assert_eq!(key_token(&key(KeyName::Char('d'), true, false)), Some("Ctrl-d".to_string()));
    assert_eq!(key_token(&key(KeyName::Char('D'), true, true)), Some("Ctrl-d".to_string()));
    assert_eq!(default_keymap().lookup("Ctrl-d"), Some(Action::HalfPageDown));
}

#[test]
fn token_forms() {
    assert_eq!(key_token(&key(KeyName::Char('g'), false, true)), Some("G".to_string()));
    assert_eq!(key_token(&key(KeyName::Char('1'), false, true)), Some("1".to_string()));
    assert_eq!(key_token(&key(KeyName::Char('j'), false, false)), Some("j".to_string()));
    assert_eq!(key_token(&key(KeyName::Down, false, false)), Some("Down".to_string()));
    assert_eq!(key_token(&key(KeyName::Esc, false, false)), Some("Esc".to_string()));
    assert_eq!(key_token(&key(KeyName::Enter, false, false)), None);
}

#[test]
fn default_bindings() {
    let km = default_keymap();
    assert_eq!(km.lookup("j"), Some(Action::MoveDown));
    assert_eq!(km.lookup("Up"), Some(Action::MoveUp));
    assert_eq!(km.lookup("G"), Some(Action::GoBottom));
    assert_eq!(km.lookup("x"), Some(Action::StatusNext));
    assert_eq!(km.lookup("3"), Some(Action::SetDone));
    assert_eq!(km.lookup("z"), None);
}

#[test]
fn overrides_add_and_replace() {
    let pairs = vec![
        ("z".to_string(), "go_top".to_string()),
        ("j".to_string(), "move_up".to_string()),
        ("k".to_string(), "no_such_action".to_string()),
    ];
    let km = keymap_with_overrides(&pairs);
    assert_eq!(km.lookup("z"), Some(Action::GoTop));
    assert_eq!(km.lookup("j"), Some(Action::MoveUp));
    assert_eq!(km.lookup("k"), Some(Action::MoveUp));
    assert_eq!(km.lookup("q"), Some(Action::Quit));
}

#[test]
fn bind_replaces() {
    let mut km = Keymap::new();
    km.bind("a".to_string(), Action::Quit);
    km.bind("a".to_string(), Action::GoTop);
    assert_eq!(km.lookup("a"), Some(Action::GoTop));
}

#[test]
fn action_names() {
    assert_eq!(parse_action_name("half_page_up"), Some(Action::HalfPageUp));
    assert_eq!(parse_action_name("set_doing"), Some(Action::SetDoing));
    assert_eq!(parse_action_name("focus_filter"), Some(Action::FocusFilter));
    assert_eq!(parse_action_name("Quit"), None);
}

#[test]
fn home_goes_to_top_by_default() {
    assert_eq!(key_token(&key(KeyName::Home, false, false)), Some("Home".to_string()));
    assert_eq!(default_keymap().lookup("Home"), Some(Action::GoTop));
}

#[test]
fn defaults_cover_every_action() {
    let km = default_keymap();
    let tokens = ["j", "Down", "k", "Up", "Ctrl-d", "Ctrl-u", "G", "/", "q", "x", "X", "1", "2", "3", "Home"];
    let bound: Vec<Action> = tokens.iter().filter_map(|t| km.lookup(t)).collect();
    for a in [
        Action::MoveDown,
        Action::MoveUp,
        Action::HalfPageDown,
        Action::HalfPageUp,
        Action::GoTop,
        Action::GoBottom,
        Action::FocusFilter,
        Action::Quit,
        Action::StatusNext,
        Action::StatusPrev,
        Action::SetTodo,
        Action::SetDoing,
        Action::SetDone,
    ] {
        assert!(bound.contains(&a));
    }
}
