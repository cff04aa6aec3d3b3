use tm_core::ex::tokenize;
use tm_core::{parse_ex, ExCommand, ExError, StatusSet};

fn s(x: &str) -> String {
    x.to_string()
}

#[test]
fn parse_new_with_all_fields() {
    let r = parse_ex("new \"Buy milk\" project:home +errand due:2025-09-01");
    assert_eq!(
        r,
        Ok(ExCommand::New {
            title: s("Buy milk"),
            project: Some(s("home")),
            tags: vec![s("errand")],
            due: Some(s("2025-09-01")),
        })
    );
}

#[test]
fn parse_new_alone_fails() {
    assert_eq!(parse_ex("new"), Err(ExError::NewWithoutTitle));
    assert_eq!(parse_ex("new +tag project:x"), Err(ExError::NewWithoutTitle));
}

#[test]
fn parse_new_title_after_flags() {
    let r = parse_ex("new +a title +  +b");
    assert_eq!(
        r,
        Ok(ExCommand::New { title: s("title"), project: None, tags: vec![s("a"), s("b")], due: None })
    );
}

#[test]
fn parse_status_without_id() {
    assert_eq!(parse_ex("status done"), Ok(ExCommand::Status { id: None, set: StatusSet::Done }));
}

#[test]
fn parse_status_with_id() {
    assert_eq!(
        parse_ex("status 01ABC next"),
        Ok(ExCommand::Status { id: Some(s("01ABC")), set: StatusSet::Next })
    );
    assert_eq!(
        parse_ex("status x in-progress"),
        Ok(ExCommand::Status { id: Some(s("x")), set: StatusSet::Doing })
    );
}

#[test]
fn parse_status_errors() {
    assert_eq!(parse_ex("status"), Err(ExError::StatusUsage));
    assert_eq!(parse_ex("status later"), Err(ExError::UnknownStatus(s("later"))));
}

#[test]
fn parse_open_and_project_new() {
    assert_eq!(parse_ex("open project:home"), Ok(ExCommand::OpenProject { key: s("home") }));
    assert_eq!(parse_ex("open"), Ok(ExCommand::OpenProject { key: s("") }));
    assert_eq!(
        parse_ex("project.new \"Home Stuff\" +family"),
        Ok(ExCommand::ProjectNew { title: s("Home Stuff"), tags: vec![s("family")] })
    );
    assert_eq!(parse_ex("project.new +x"), Err(ExError::ProjectWithoutTitle));
}

#[test]
fn parse_reload_and_errors() {
    assert_eq!(parse_ex("  config.reload  "), Ok(ExCommand::ConfigReload));
    assert_eq!(parse_ex("   "), Err(ExError::Empty));
    assert_eq!(parse_ex("\"\""), Err(ExError::Empty));
    assert_eq!(parse_ex("frobnicate now"), Err(ExError::UnknownCommand(s("frobnicate"))));
}

#[test]
fn error_messages() {
    assert_eq!(ExError::Empty.message(), "empty command");
    assert_eq!(ExError::UnknownStatus(s("zz")).message(), "unknown status 'zz'");
    assert_eq!(ExError::UnknownCommand(s("foo")).message(), "unknown command 'foo'");
    assert_eq!(ExError::ProjectWithoutTitle.message(), ":project.new requires a title");
}

#[test]
fn tokenizer_respects_quotes() {
    assert_eq!(tokenize("a \"b c\"  d"), vec![s("a"), s("b c"), s("d")]);
    assert_eq!(tokenize("x\"y z\"w"), vec![s("xy zw")]);
    assert_eq!(tokenize("   "), Vec::<String>::new());
    assert_eq!(tokenize("\"\""), Vec::<String>::new());
}

#[test]
fn status_set_from_str() {
    assert_eq!(StatusSet::from_str("todo"), Ok(StatusSet::Todo));
    assert_eq!(StatusSet::from_str("in_progress"), Ok(StatusSet::Doing));
    assert_eq!(StatusSet::from_str("prev"), Ok(StatusSet::Prev));
    assert_eq!(StatusSet::from_str("Done"), Err(ExError::UnknownStatus(s("Done"))));
}
