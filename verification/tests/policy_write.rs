use mmpolicy::{DirectoriesPlus, Exec, Name, Policy, Rule, RuleType, Show, Where};

#[test]
fn list() {
    let mut policy = Policy::new("list");

    policy.rules.push(Rule::from(RuleType::ExternalList(
        Name("size".into()),
        Exec(String::new()),
    )));

    policy.rules.push(Rule::from(RuleType::List(
        Name("size".into()),
        DirectoriesPlus(true),
        vec![Show::Mode, Show::Nlink, Show::FileSize, Show::KbAllocated],
        Some(Where::User(1000)),
    )));

    let mut result = String::new();
    policy.write(&mut result);

    let expected = "RULE\n  EXTERNAL LIST 'size'\n  EXEC ''\n\nRULE\n  LIST 'size'\n  DIRECTORIES_PLUS\n  SHOW(VARCHAR(MODE) || ' ' || VARCHAR(NLINK) || ' ' || VARCHAR(FILE_SIZE) || ' ' || VARCHAR(KB_ALLOCATED))\n  WHERE USER_ID = 1000\n";

    assert_eq!(expected, result);
}

#[test]
fn empty_policy_renders_empty() {
    let policy = Policy::new("empty");
    let mut result = String::new();
    policy.write(&mut result);
    assert_eq!("", result);
}

#[test]
fn three_rules_two_separators() {
    let mut policy = Policy::new("p");
    for name in ["a", "b", "c"] {
        policy.rules.push(Rule::from(RuleType::ExternalList(
            Name(name.into()),
            Exec("x".into()),
        )));
    }
    let text = policy.to_text();
    // exactly N - 1 blank lines, none leading or trailing
    assert_eq!(text.matches("\n\n").count(), 2);
    assert!(text.starts_with("RULE"));
    assert!(!text.ends_with("\n\n"));
    assert!(text.ends_with("\n"));
    assert_eq!(
        text,
        "RULE\n  EXTERNAL LIST 'a'\n  EXEC 'x'\n\nRULE\n  EXTERNAL LIST 'b'\n  EXEC 'x'\n\nRULE\n  EXTERNAL LIST 'c'\n  EXEC 'x'\n"
    );
}

#[test]
fn serialization_is_deterministic() {
    let mut policy = Policy::new("p");
    policy.rules.push(Rule(
        Some(Name("label".into())),
        RuleType::List(
            Name("n".into()),
            DirectoriesPlus(false),
            vec![Show::FileSize, Show::Mode],
            Some(Where::Group(42)),
        ),
    ));
    let first = policy.to_text();
    let second = policy.to_text();
    assert_eq!(first.as_bytes(), second.as_bytes());
}

#[test]
fn show_line_joins_attributes_in_order() {
    let mut policy = Policy::new("p");
    policy.rules.push(Rule::from(RuleType::List(
        Name("n".into()),
        DirectoriesPlus(false),
        vec![Show::Mode, Show::Nlink],
        None,
    )));
    assert_eq!(
        policy.to_text(),
        "RULE\n  LIST 'n'\n  SHOW(VARCHAR(MODE) || ' ' || VARCHAR(NLINK))\n"
    );
}

#[test]
fn show_line_omitted_when_empty() {
    let mut policy = Policy::new("p");
    policy.rules.push(Rule::from(RuleType::List(
        Name("n".into()),
        DirectoriesPlus(false),
        vec![],
        None,
    )));
    let text = policy.to_text();
    assert!(!text.contains("SHOW"));
    assert_eq!(text, "RULE\n  LIST 'n'\n");
}

#[test]
fn directories_plus_iff_flag() {
    for (flag, expected) in [
        (true, "RULE\n  LIST 'n'\n  DIRECTORIES_PLUS\n"),
        (false, "RULE\n  LIST 'n'\n"),
    ] {
        let mut policy = Policy::new("p");
        policy.rules.push(Rule::from(RuleType::List(
            Name("n".into()),
            DirectoriesPlus(flag),
            vec![],
            None,
        )));
        assert_eq!(policy.to_text(), expected);
    }
}

#[test]
fn where_line_renders_group_and_user_filters() {
    let mut policy = Policy::new("p");
    policy.rules.push(Rule::from(RuleType::List(
        Name("g".into()),
        DirectoriesPlus(false),
        vec![],
        Some(Where::Group(0)),
    )));
    policy.rules.push(Rule::from(RuleType::List(
        Name("u".into()),
        DirectoriesPlus(false),
        vec![],
        Some(Where::User(4294967295)),
    )));
    assert_eq!(
        policy.to_text(),
        "RULE\n  LIST 'g'\n  WHERE GROUP_ID = 0\n\nRULE\n  LIST 'u'\n  WHERE USER_ID = 4294967295\n"
    );
}

#[test]
fn labelled_rule_header_quotes_label() {
    let mut policy = Policy::new("size");
    policy.rules.push(Rule(
        Some(Name("size".into())),
        RuleType::List(
            Name("size".into()),
            DirectoriesPlus(true),
            vec![Show::KbAllocated],
            None,
        ),
    ));
    assert_eq!(
        policy.to_text(),
        "RULE 'size'\n  LIST 'size'\n  DIRECTORIES_PLUS\n  SHOW(VARCHAR(KB_ALLOCATED))\n"
    );
}

#[test]
fn external_list_and_list_scenario() {
    let mut policy = Policy::new("report");
    policy.rules.push(Rule::from(RuleType::ExternalList(
        Name("report".into()),
        Exec("myscript".into()),
    )));
    policy.rules.push(Rule::from(RuleType::List(
        Name("report".into()),
        DirectoriesPlus(true),
        vec![Show::KbAllocated],
        None,
    )));
    let expected = "RULE\n  EXTERNAL LIST 'report'\n  EXEC 'myscript'\n\nRULE\n  LIST 'report'\n  DIRECTORIES_PLUS\n  SHOW(VARCHAR(KB_ALLOCATED))\n";
    assert_eq!(policy.to_text(), expected);
}

#[test]
fn show_keywords_are_fixed() {
    assert_eq!(Show::Mode.as_str(), "MODE");
    assert_eq!(Show::Nlink.as_str(), "NLINK");
    assert_eq!(Show::FileSize.as_str(), "FILE_SIZE");
    assert_eq!(Show::KbAllocated.as_str(), "KB_ALLOCATED");
}
