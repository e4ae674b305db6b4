use labflow::configfile::{
    does_branch_already_exists, get_config_value, parse_config_file, render_config_file,
    Configuration,
};

#[test]
fn render_writes_one_line_per_entry() {
    let entries = vec![
        Configuration { key: "FEATURE_BRANCH_NAME".to_string(), value: "feature/".to_string() },
        Configuration { key: "MAIN_BRANCH_NAME".to_string(), value: "main".to_string() },
    ];
    assert_eq!(
        render_config_file(&entries),
        "FEATURE_BRANCH_NAME=feature/\nMAIN_BRANCH_NAME=main\n"
    );
    assert_eq!(render_config_file(&Vec::new()), "");
}

#[test]
fn parse_recovers_rendered_entries() {
    let entries = vec![
        Configuration { key: "a".to_string(), value: "1".to_string() },
        Configuration { key: "b".to_string(), value: "".to_string() },
        Configuration { key: "c".to_string(), value: "x/y".to_string() },
    ];
    let text = render_config_file(&entries);
    let back = parse_config_file(&text).unwrap();
    assert_eq!(back.len(), entries.len());
    for (e, b) in entries.iter().zip(back.iter()) {
        assert_eq!(e.key, b.key);
        assert_eq!(e.value, b.value);
    }
}

#[test]
fn parse_reads_key_value_lines() {
    let text = "FEATURE_BRANCH_NAME=feature/\nDEVELOP_BRANCH_NAME=develop\n";
    let entries = parse_config_file(text).unwrap();
    assert_eq!(entries.len(), 2);
    assert_eq!(entries[0].key, "FEATURE_BRANCH_NAME");
    assert_eq!(entries[0].value, "feature/");
    assert_eq!(entries[1].key, "DEVELOP_BRANCH_NAME");
    assert_eq!(entries[1].value, "develop");
}

#[test]
fn parse_takes_value_up_to_the_next_separator() {
    let entries = parse_config_file("a=b=c\n").unwrap();
    assert_eq!(entries[0].key, "a");
    assert_eq!(entries[0].value, "b");
}

#[test]
fn parse_rejects_a_line_without_separator() {
    assert!(parse_config_file("just words\n").is_err());
    assert!(parse_config_file("a=b\nbroken\n").is_err());
}

#[test]
fn lookup_returns_first_match() {
    let text = "k=first\nother=x\nk=second\n";
    assert_eq!(get_config_value(text, "k").unwrap(), "first");
    assert_eq!(get_config_value(text, "other").unwrap(), "x");
}

#[test]
fn lookup_fails_for_missing_key() {
    assert!(get_config_value("a=b\n", "missing").is_err());
    let e = get_config_value("broken line\n", "a");
    assert!(e.is_err());
}

#[test]
fn already_exists_is_spotted_in_backend_words() {
    assert!(does_branch_already_exists(
        "fatal: a branch named 'main' already exists"
    ));
    assert!(!does_branch_already_exists("fatal: pathspec not found"));
}
