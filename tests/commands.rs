use data_gov::command::{choose_resources, lists_organizations, ReplCommand, ResourceChoice};

fn parse(s: &str) -> Result<ReplCommand, String> {
    s.parse::<ReplCommand>()
}

#[test]
fn search_takes_all_words_and_trailing_limit() {
    assert_eq!(
        parse("search climate data 20"),
        Ok(ReplCommand::Search { query: "climate data 20".into(), limit: Some(20) })
    );
    assert_eq!(parse("  S   energy "), Ok(ReplCommand::Search { query: "energy".into(), limit: None }));
    assert_eq!(parse("search solar wind"), Ok(ReplCommand::Search { query: "solar wind".into(), limit: None }));
    assert_eq!(parse("search"), Err("Usage: search <query> [limit]".into()));
}

#[test]
fn show_download_list_setdir() {
    assert_eq!(parse("describe abc"), Ok(ReplCommand::Show { dataset_id: "abc".into() }));
    assert_eq!(parse("show a b"), Err("Usage: show <dataset_id>".into()));
    assert_eq!(parse("DL ds 2"), Ok(ReplCommand::Download { dataset_id: "ds".into(), resource_index: Some(2) }));
    assert_eq!(parse("download ds x"), Ok(ReplCommand::Download { dataset_id: "ds".into(), resource_index: None }));
    assert_eq!(parse("download ds -1"), Ok(ReplCommand::Download { dataset_id: "ds".into(), resource_index: None }));
    assert_eq!(parse("download"), Err("Usage: download <dataset_id> [resource_index]".into()));
    assert_eq!(parse("ls orgs"), Ok(ReplCommand::List { what: "orgs".into() }));
    assert_eq!(parse("list"), Err("Usage: list <organizations|orgs>".into()));
    assert_eq!(parse("cd /tmp/x"), Ok(ReplCommand::SetDir { path: "/tmp/x".into() }));
    assert_eq!(parse("setdir"), Err("Usage: setdir <path>".into()));
}

#[test]
fn single_word_commands() {
    assert_eq!(parse("status"), Ok(ReplCommand::Info));
    assert_eq!(parse("?"), Ok(ReplCommand::Help));
    assert_eq!(parse("Help"), Ok(ReplCommand::Help));
    assert_eq!(parse("exit"), Ok(ReplCommand::Quit));
    assert_eq!(parse("q"), Ok(ReplCommand::Quit));
}

#[test]
fn empty_and_unknown_commands() {
    assert_eq!(parse("   "), Err("Empty command".into()));
    assert_eq!(parse("frobnicate now"), Err("Unknown command: frobnicate".into()));
}

#[test]
fn negative_and_signed_limits() {
    assert_eq!(parse("s x -5"), Ok(ReplCommand::Search { query: "x -5".into(), limit: Some(-5) }));
    assert_eq!(parse("s x +7"), Ok(ReplCommand::Search { query: "x +7".into(), limit: Some(7) }));
    assert_eq!(parse("s x 99999999999"), Ok(ReplCommand::Search { query: "x 99999999999".into(), limit: None }));
}

#[test]
fn download_resource_choice() {
    assert_eq!(choose_resources(0, Some(1)), ResourceChoice::NoResources);
    assert_eq!(choose_resources(3, None), ResourceChoice::All);
    assert_eq!(choose_resources(3, Some(2)), ResourceChoice::One(2));
    assert_eq!(choose_resources(3, Some(3)), ResourceChoice::OutOfRange { index: 3, last: 2 });
}

#[test]
fn list_kinds() {
    assert!(lists_organizations("Organizations"));
    assert!(lists_organizations("orgs"));
    assert!(!lists_organizations("groups"));
}
