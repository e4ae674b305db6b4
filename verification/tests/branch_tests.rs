use labflow::branch::{get_config_branch, Branch, Category, Config};
use labflow::FlowError;

fn config() -> Config {
    Config {
        feature: "feature/".to_string(),
        bugfix: "bugfix/".to_string(),
        hotfix: "hotfix/".to_string(),
        release: "release/".to_string(),
        develop: "develop".to_string(),
        main: "main".to_string(),
    }
}

#[test]
fn full_name_concatenates_prefix_and_name() {
    let c = config();
    assert_eq!(Branch::Feature("login".to_string()).full_name(&c), "feature/login");
    assert_eq!(Branch::Hotfix("oops".to_string()).full_name(&c), "hotfix/oops");
    assert_eq!(Branch::Develop("develop".to_string()).full_name(&c), "develop");
    assert_eq!(Branch::Main("main".to_string()).full_name(&c), "main");
}

#[test]
fn prefix_is_configured_per_category() {
    let c = config();
    assert_eq!(Branch::Feature("x".to_string()).prefix(&c), Some("feature/".to_string()));
    assert_eq!(Branch::Bugfix("x".to_string()).prefix(&c), Some("bugfix/".to_string()));
    assert_eq!(Branch::Release("x".to_string()).prefix(&c), Some("release/".to_string()));
    assert_eq!(Branch::Develop("develop".to_string()).prefix(&c), None);
    assert_eq!(Branch::Main("main".to_string()).prefix(&c), None);
}

#[test]
fn round_trip_feature_branch() {
    let c = config();
    let b = Branch::Feature("login".to_string());
    let full = b.full_name(&c);
    assert_eq!(full, "feature/login");
    assert_eq!(Branch::from(&full, &c), Ok(Branch::Feature("login".to_string())));
}

#[test]
fn round_trip_every_category() {
    let c = config();
    let branches = vec![
        Branch::Feature("a1".to_string()),
        Branch::Hotfix("b2".to_string()),
        Branch::Bugfix("c3".to_string()),
        Branch::Release("d4".to_string()),
        Branch::Develop("develop".to_string()),
        Branch::Main("main".to_string()),
    ];
    for b in branches {
        let full = b.full_name(&c);
        assert_eq!(Branch::from(&full, &c), Ok(b));
    }
}

#[test]
fn parse_splits_at_last_slash() {
    let c = config();
    assert_eq!(
        Branch::from("feature/deep", &c),
        Ok(Branch::Feature("deep".to_string()))
    );
    // an unknown two-level prefix is a typed error, never a panic
    assert_eq!(
        Branch::from("feature/deep/name", &c),
        Err(FlowError::UnknownBranchPrefixOrName)
    );
}

#[test]
fn parse_unknown_prefix_is_typed_error() {
    let c = config();
    assert_eq!(Branch::from("topic/x", &c), Err(FlowError::UnknownBranchPrefixOrName));
    assert_eq!(Branch::from("master", &c), Err(FlowError::UnknownBranchPrefixOrName));
}

#[test]
fn get_config_branch_matches_in_declared_order() {
    let c = config();
    let b = get_config_branch(Some("hotfix/".to_string()), "fire", &c).unwrap();
    assert_eq!(b, Branch::Hotfix("fire".to_string()));
    let d = get_config_branch(None, "develop", &c).unwrap();
    assert_eq!(d, Branch::Develop("develop".to_string()));
    let e = get_config_branch(Some("nope/".to_string()), "x", &c);
    assert_eq!(e, Err(FlowError::UnknownBranchPrefixOrName));
}

#[test]
fn category_of_each_variant() {
    assert_eq!(Branch::Feature("x".to_string()).category(), Category::Feature);
    assert_eq!(Branch::Main("m".to_string()).category(), Category::Main);
    assert_eq!(Branch::Release("r".to_string()).name(), "r");
}
