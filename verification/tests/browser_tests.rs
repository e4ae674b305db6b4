use labflow::branch::{Branch, Config};
use labflow::browser::Browser;
use labflow::FlowError;

fn config() -> Config {
    Config {
        feature: "feature/".to_string(),
        bugfix: "bugfix/".to_string(),
        hotfix: "hotfix/".to_string(),
        release: "release/".to_string(),
        develop: "develop".to_string(),
        main: "main".to_string(),
    }
}

const LISTING: &str = "origin\thttps://gitlab.com/team/repo.git (fetch)\norigin\thttps://gitlab.com/team/repo.git (push)\n";

#[test]
fn merge_request_url_encodes_branches_and_title() {
    let c = config();
    let url = Browser::merge_request(
        &Branch::Feature("login".to_string()),
        &Branch::Develop("develop".to_string()),
        &c,
        LISTING,
    )
    .unwrap();
    assert_eq!(
        url,
        "https://gitlab.com/team/repo/merge_requests/new?merge_request[source_branch]=feature%2Flogin&merge_request[target_branch]=develop&merge_request[title]=Merging%20branch%20feature%2Flogin%20into%20develop"
    );
}

#[test]
fn merge_request_without_push_url_reports_remote_missing() {
    let c = config();
    let r = Browser::merge_request(
        &Branch::Feature("login".to_string()),
        &Branch::Develop("develop".to_string()),
        &c,
        "no remotes listed",
    );
    assert_eq!(r, Err(FlowError::RemoteNotConfigured));
}
