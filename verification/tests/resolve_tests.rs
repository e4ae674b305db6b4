use labflow::branch::{Branch, Config};
use labflow::gitv2::GitV2;
use labflow::resolve::{first_shared_commit, static_sources};

fn config() -> Config {
    Config {
        feature: "feature/".to_string(),
        bugfix: "bugfix/".to_string(),
        hotfix: "hotfix/".to_string(),
        release: "release/".to_string(),
        develop: "develop".to_string(),
        main: "main".to_string(),
    }
}

// commit identifiers are forty-character tokens; these stand in for real ones
fn tok(c: char) -> String {
    std::iter::repeat(c).take(40).collect()
}

#[test]
fn divergence_scenario_picks_first_shared_commit() {
    // main holds m1; develop branched at d1; feature/login adds f1
    let f1 = tok('f');
    let d1 = tok('d');
    let m1 = tok('a');
    let exclusive = vec![f1.clone()];
    let window = vec![f1.clone(), d1.clone(), m1.clone()];
    assert_eq!(first_shared_commit(&window, &exclusive), Some(d1.clone()));
}

#[test]
fn divergence_scenario_maps_refs_to_develop() {
    let c = config();
    let output = "* feature/login\n  develop\n";
    let refs = GitV2::source_branches(output, "feature/", "login");
    assert_eq!(refs, vec!["develop".to_string()]);
    let sources: Vec<Branch> = refs
        .iter()
        .map(|r| Branch::from(r, &c).unwrap())
        .collect();
    assert_eq!(sources, vec![Branch::Develop("develop".to_string())]);
}

#[test]
fn fallback_uses_oldest_commit_of_window() {
    // five exclusive commits, a window bounded at three: every windowed
    // commit is exclusive, so the oldest one of the window is the estimate
    let c1 = tok('1');
    let c2 = tok('2');
    let c3 = tok('3');
    let c4 = tok('4');
    let c5 = tok('5');
    let exclusive = vec![c1.clone(), c2.clone(), c3.clone(), c4, c5];
    let window = vec![c1, c2, c3.clone()];
    assert_eq!(first_shared_commit(&window, &exclusive), Some(c3));
}

#[test]
fn window_bounded_at_three_in_query() {
    let cmd = GitV2::all_commits(Some("feature/"), "big", 3);
    assert_eq!(cmd, "git log feature/big -n 3 --pretty=oneline");
}

#[test]
fn empty_window_yields_no_estimate() {
    let window: Vec<String> = Vec::new();
    let exclusive = vec![tok('9')];
    assert_eq!(first_shared_commit(&window, &exclusive), None);
}

#[test]
fn shared_commit_found_mid_window() {
    let a = tok('a');
    let b = tok('b');
    let c = tok('c');
    let exclusive = vec![a.clone(), b.clone()];
    let window = vec![a, b, c.clone(), tok('d')];
    assert_eq!(first_shared_commit(&window, &exclusive), Some(c));
}

#[test]
fn hotfix_table_sources_main_then_develop() {
    let c = config();
    let sources = static_sources(&Branch::Hotfix("fire".to_string()), &c).unwrap();
    assert_eq!(
        sources,
        vec![
            Branch::Main("main".to_string()),
            Branch::Develop("develop".to_string()),
        ]
    );
}

#[test]
fn bugfix_and_release_table_sources() {
    let c = config();
    assert_eq!(
        static_sources(&Branch::Bugfix("b".to_string()), &c).unwrap(),
        vec![Branch::Develop("develop".to_string())]
    );
    assert_eq!(
        static_sources(&Branch::Release("r".to_string()), &c).unwrap(),
        vec![Branch::Main("main".to_string())]
    );
    assert!(static_sources(&Branch::Feature("f".to_string()), &c).is_none());
}
