use labflow::names::{is_given_branch_name_valid, normalize_branch_name};
use labflow::FlowError;

#[test]
fn accepted_name_shapes() {
    assert!(is_given_branch_name_valid("feature/"));
    assert!(is_given_branch_name_valid("bugfix/"));
    assert!(is_given_branch_name_valid("develop"));
    assert!(is_given_branch_name_valid("main"));
    assert!(is_given_branch_name_valid("ab"));
    assert!(is_given_branch_name_valid("a9"));
    assert!(is_given_branch_name_valid("release_2"));
    assert!(is_given_branch_name_valid("aBc"));
}

#[test]
fn rejected_name_shapes() {
    // too short: the shape needs a letter and a final alphanumeric
    assert!(!is_given_branch_name_valid("a"));
    assert!(!is_given_branch_name_valid(""));
    assert!(!is_given_branch_name_valid("/"));
    // must start with a letter
    assert!(!is_given_branch_name_valid("9ab"));
    assert!(!is_given_branch_name_valid("_ab"));
    // must end alphanumeric (before the optional slash)
    assert!(!is_given_branch_name_valid("ab_"));
    assert!(!is_given_branch_name_valid("ab_/"));
    // at most one trailing slash, nowhere else
    assert!(!is_given_branch_name_valid("ab//"));
    assert!(!is_given_branch_name_valid("a/b"));
    // an upper-case letter may only ride on the letter prefix or the
    // alphanumeric suffix
    assert!(!is_given_branch_name_valid("a_B_c"));
    assert!(is_given_branch_name_valid("a9B9c"));
}

#[test]
fn normalize_trims_and_takes_default_when_empty() {
    let used: Vec<String> = Vec::new();
    assert_eq!(
        normalize_branch_name("  \n", "feature/", true, &used),
        Ok("feature/".to_string())
    );
    assert_eq!(
        normalize_branch_name(" topic \n", "feature/", true, &used),
        Ok("topic/".to_string())
    );
}

#[test]
fn normalize_applies_slash_convention() {
    let used: Vec<String> = Vec::new();
    // prefixes get their slash
    assert_eq!(
        normalize_branch_name("hotfix", "hotfix/", true, &used),
        Ok("hotfix/".to_string())
    );
    assert_eq!(
        normalize_branch_name("hotfix/", "hotfix/", true, &used),
        Ok("hotfix/".to_string())
    );
    // full names lose every trailing slash
    assert_eq!(
        normalize_branch_name("develop/", "develop", false, &used),
        Ok("develop".to_string())
    );
    assert_eq!(
        normalize_branch_name("develop//", "develop", false, &used),
        Ok("develop".to_string())
    );
}

#[test]
fn normalize_refuses_used_names() {
    let used = vec!["feature/".to_string(), "bugfix/".to_string()];
    assert_eq!(
        normalize_branch_name("feature", "hotfix/", true, &used),
        Err(FlowError::BranchNameAlreadyTaken)
    );
    // a full name also collides with a used prefix of the same word
    assert_eq!(
        normalize_branch_name("bugfix", "develop", false, &used),
        Err(FlowError::BranchNameAlreadyTaken)
    );
}

#[test]
fn normalize_refuses_invalid_names() {
    let used: Vec<String> = Vec::new();
    assert_eq!(
        normalize_branch_name("9bad", "feature/", true, &used),
        Err(FlowError::BranchNameInvalid)
    );
    assert_eq!(
        normalize_branch_name("x", "develop", false, &used),
        Err(FlowError::BranchNameInvalid)
    );
}
