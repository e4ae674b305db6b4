use labflow::args::Action;
use labflow::branch::Branch;
use labflow::flow::{FlowState, Script, Step};
use labflow::FlowError;

fn ok(s: &str) -> Result<String, String> {
    Ok(s.to_string())
}

fn err(s: &str) -> Result<String, String> {
    Err(s.to_string())
}

// feeds one outcome and expects the next step to run the given command
fn expect_run(state: FlowState, outcome: Result<String, String>, cmd: &str) -> FlowState {
    let (next, act) = state.step(outcome);
    match act {
        Step::Run(c) => assert_eq!(c, cmd),
        _ => panic!("expected a command"),
    }
    next
}

fn expect_ask(state: FlowState, outcome: Result<String, String>, prompt: &str) -> FlowState {
    let (next, act) = state.step(outcome);
    match act {
        Step::Ask(p) => assert_eq!(p, prompt),
        _ => panic!("expected a prompt"),
    }
    next
}

fn expect_open(state: FlowState, outcome: Result<String, String>, url: &str) -> FlowState {
    let (next, act) = state.step(outcome);
    match act {
        Step::OpenUrl(u) => assert_eq!(u, url),
        _ => panic!("expected a URL"),
    }
    next
}

fn expect_done(state: FlowState, outcome: Result<String, String>, want: Result<(), FlowError>) {
    let (_, act) = state.step(outcome);
    match act {
        Step::Done(r) => assert_eq!(r, want),
        _ => panic!("expected the workflow to be over"),
    }
}

// answers the six configuration lookups with the usual names
fn feed_config(mut s: FlowState) -> FlowState {
    s = expect_run(s, ok("bugfix/\n"), "git config --local --get lab.flow.branch.hotfix");
    s = expect_run(s, ok("hotfix/\n"), "git config --local --get lab.flow.branch.release");
    s = expect_run(s, ok("release/\n"), "git config --local --get lab.flow.branch.develop");
    s = expect_run(s, ok("develop\n"), "git config --local --get lab.flow.branch.main");
    s
}

fn start_finish(branch: Branch) -> FlowState {
    let (s, a) = Action::Finish(branch).execute();
    match a {
        Step::Run(c) => assert_eq!(c, "git config --local --get lab.flow.branch.feature"),
        _ => panic!("expected a command"),
    }
    let s = expect_run(s, ok("feature/\n"), "git config --local --get lab.flow.branch.bugfix");
    feed_config(s)
}

const LISTING: &str =
    "origin\tgit@gitlab.com:team/repo.git (fetch)\norigin\tgit@gitlab.com:team/repo.git (push)\n";

#[test]
fn no_remote_finish_merges_every_source_and_never_publishes() {
    let mut s = start_finish(Branch::Hotfix("fire".to_string()));
    // the table sends a hotfix into main and develop
    s = expect_run(s, ok("main\n"), "git remote -v");
    // no remote configured: local merges, first into main
    s = expect_run(s, ok(""), "git fetch . hotfix/fire:main");
    // the first merge failing does not stop the second
    s = expect_run(s, err("merge failed"), "git fetch . hotfix/fire:develop");
    // common tail
    s = expect_run(s, ok(""), "git config --local --get lab.flow.branch.develop");
    s = expect_run(s, ok("develop\n"), "git checkout develop");
    s = expect_run(s, ok(""), "git branch -D hotfix/fire");
    expect_done(s, ok(""), Ok(()));
}

#[test]
fn partial_failure_still_opens_second_merge_request_and_reaches_tail() {
    let mut s = start_finish(Branch::Hotfix("fire".to_string()));
    s = expect_run(s, ok("main\n"), "git remote -v");
    // a remote exists; its heads do not show the branch yet
    s = expect_run(s, ok(LISTING), "git ls-remote --heads origin hotfix/fire");
    s = expect_run(s, ok(""), "git push -u origin hotfix/fire");
    // first source: the listing gives the push URL and the browser opens
    s = expect_run(s, ok(""), "git remote -v");
    s = expect_open(
        s,
        ok(LISTING),
        "git@gitlab.com:team/repo/merge_requests/new?merge_request[source_branch]=hotfix%2Ffire&merge_request[target_branch]=main&merge_request[title]=Merging%20branch%20hotfix%2Ffire%20into%20main",
    );
    // the browser fails on the first source: the second is still attempted
    s = expect_run(s, err("browser exploded"), "git remote -v");
    s = expect_open(
        s,
        ok(LISTING),
        "git@gitlab.com:team/repo/merge_requests/new?merge_request[source_branch]=hotfix%2Ffire&merge_request[target_branch]=develop&merge_request[title]=Merging%20branch%20hotfix%2Ffire%20into%20develop",
    );
    // and the common tail is still reached
    s = expect_run(s, ok(""), "git config --local --get lab.flow.branch.develop");
    s = expect_run(s, ok("develop\n"), "git checkout develop");
    s = expect_run(s, ok(""), "git branch -D hotfix/fire");
    expect_done(s, ok(""), Ok(()));
}

#[test]
fn publish_skips_source_whose_listing_shows_no_push_url() {
    let mut s = start_finish(Branch::Release("one".to_string()));
    s = expect_run(s, ok("main\n"), "git remote -v");
    s = expect_run(s, ok(LISTING), "git ls-remote --heads origin release/one");
    s = expect_run(s, ok(""), "git push -u origin release/one");
    s = expect_run(s, ok(""), "git remote -v");
    // the listing shows no push URL: the only source is skipped, the tail
    // follows
    s = expect_run(s, ok("nonsense"), "git config --local --get lab.flow.branch.develop");
    s = expect_run(s, ok("develop\n"), "git checkout develop");
    s = expect_run(s, ok(""), "git branch -D release/one");
    expect_done(s, ok(""), Ok(()));
}

#[test]
fn existing_remote_branch_gets_plain_push() {
    let mut s = start_finish(Branch::Bugfix("small".to_string()));
    s = expect_run(s, ok("main\n"), "git remote -v");
    let head = format!("{} refs/heads/bugfix/small\n", "b".repeat(40));
    s = expect_run(s, ok(LISTING), "git ls-remote --heads origin bugfix/small");
    // the remote already has the branch: no tracking flag
    s = expect_run(s, ok(&head), "git push origin bugfix/small");
    let _ = s;
}

#[test]
fn failed_push_aborts_remote_finish() {
    let mut s = start_finish(Branch::Bugfix("small".to_string()));
    s = expect_run(s, ok("main\n"), "git remote -v");
    s = expect_run(s, ok(LISTING), "git ls-remote --heads origin bugfix/small");
    s = expect_run(s, ok(""), "git push -u origin bugfix/small");
    expect_done(
        s,
        err("rejected"),
        Err(FlowError::BackendCommandFailed("rejected".to_string())),
    );
}

#[test]
fn finish_with_missing_key_fails_with_config_kind() {
    let (s, _) = Action::Finish(Branch::Hotfix("fire".to_string())).execute();
    let mut s = expect_run(s, ok("feature/\n"), "git config --local --get lab.flow.branch.bugfix");
    s = expect_run(s, ok("bugfix/\n"), "git config --local --get lab.flow.branch.hotfix");
    s = expect_run(s, err("no such key"), "git config --local --get lab.flow.branch.release");
    s = expect_run(s, ok("release/\n"), "git config --local --get lab.flow.branch.develop");
    s = expect_run(s, ok("develop\n"), "git config --local --get lab.flow.branch.main");
    expect_done(s, ok("main\n"), Err(FlowError::ConfigKeyNotFound));
}

#[test]
fn feature_finish_resolves_from_commit_graph() {
    let f1 = "f".repeat(40);
    let d1 = "d".repeat(40);
    let m1 = "a".repeat(40);
    let mut s = start_finish(Branch::Feature("login".to_string()));
    s = expect_run(
        s,
        ok("main\n"),
        "git log feature/login --not $(git for-each-ref --format='%(refname:short)' refs/heads/ | grep -v \"feature/login\") \"$@\"",
    );
    // one exclusive commit, a three-commit window: the divergence estimate
    // is the first shared commit
    let exclusive_out = format!("commit {}\nAuthor: someone\n", f1);
    s = expect_run(s, ok(&exclusive_out), "git log feature/login -n 100 --pretty=oneline");
    let window_out = format!("{} add login\n{} develop work\n{} initial\n", f1, d1, m1);
    let contains_cmd = format!("git branch -a --contains {}", d1);
    s = expect_run(s, ok(&window_out), &contains_cmd);
    s = expect_run(s, ok("* feature/login\n  develop\n"), "git remote -v");
    // no remote: the resolved source receives the local merge
    s = expect_run(s, ok(""), "git fetch . feature/login:develop");
    s = expect_run(s, ok(""), "git config --local --get lab.flow.branch.develop");
    s = expect_run(s, ok("develop\n"), "git checkout develop");
    s = expect_run(s, ok(""), "git branch -D feature/login");
    expect_done(s, ok(""), Ok(()));
}

#[test]
fn feature_finish_unknown_ref_fails_resolution() {
    let d1 = "d".repeat(40);
    let mut s = start_finish(Branch::Feature("login".to_string()));
    s = expect_run(
        s,
        ok("main\n"),
        "git log feature/login --not $(git for-each-ref --format='%(refname:short)' refs/heads/ | grep -v \"feature/login\") \"$@\"",
    );
    let window_out = format!("{} only\n", d1);
    let contains_cmd = format!("git branch -a --contains {}", d1);
    let s = expect_run(s, ok(""), "git log feature/login -n 100 --pretty=oneline");
    let s = expect_run(s, ok(&window_out), &contains_cmd);
    expect_done(
        s,
        ok("* feature/login\n  remotes/origin/feature/login\n"),
        Err(FlowError::UnknownBranchPrefixOrName),
    );
}

#[test]
fn feature_finish_without_other_refs_finds_no_source() {
    let d1 = "d".repeat(40);
    let mut s = start_finish(Branch::Feature("login".to_string()));
    s = expect_run(
        s,
        ok("main\n"),
        "git log feature/login --not $(git for-each-ref --format='%(refname:short)' refs/heads/ | grep -v \"feature/login\") \"$@\"",
    );
    let window_out = format!("{} only\n", d1);
    let contains_cmd = format!("git branch -a --contains {}", d1);
    s = expect_run(s, ok(""), "git log feature/login -n 100 --pretty=oneline");
    s = expect_run(s, ok(&window_out), &contains_cmd);
    expect_done(s, ok("* feature/login\n"), Err(FlowError::NoSourceBranchFound));
}

#[test]
fn feature_finish_empty_window_finds_no_source() {
    let mut s = start_finish(Branch::Feature("login".to_string()));
    s = expect_run(
        s,
        ok("main\n"),
        "git log feature/login --not $(git for-each-ref --format='%(refname:short)' refs/heads/ | grep -v \"feature/login\") \"$@\"",
    );
    s = expect_run(s, ok(""), "git log feature/login -n 100 --pretty=oneline");
    expect_done(s, ok(""), Err(FlowError::NoSourceBranchFound));
}

#[test]
fn feature_finish_with_missing_prefix_queries_bare_name_then_fails() {
    let d1 = "d".repeat(40);
    // the feature prefix lookup fails: the graph queries still run, with the
    // bare branch name, and resolution only fails when the refs must be typed
    let (s, _) = Action::Finish(Branch::Feature("login".to_string())).execute();
    let s = expect_run(s, err("no such key"), "git config --local --get lab.flow.branch.bugfix");
    let s = expect_run(s, ok("bugfix/\n"), "git config --local --get lab.flow.branch.hotfix");
    let s = expect_run(s, ok("hotfix/\n"), "git config --local --get lab.flow.branch.release");
    let s = expect_run(s, ok("release/\n"), "git config --local --get lab.flow.branch.develop");
    let s = expect_run(s, ok("develop\n"), "git config --local --get lab.flow.branch.main");
    let s = expect_run(
        s,
        ok("main\n"),
        "git log login --not $(git for-each-ref --format='%(refname:short)' refs/heads/ | grep -v \"login\") \"$@\"",
    );
    let s = expect_run(s, ok(""), "git log login -n 100 --pretty=oneline");
    let window_out = format!("{} only\n", d1);
    let contains_cmd = format!("git branch -a --contains {}", d1);
    let s = expect_run(s, ok(&window_out), &contains_cmd);
    expect_done(s, ok("  develop\n"), Err(FlowError::ConfigKeyNotFound));
}

#[test]
fn start_creates_branch_from_develop_and_tolerates_push_failure() {
    let (s, a) = Action::Start(Branch::Feature("login".to_string()), None).execute();
    match a {
        Step::Run(c) => assert_eq!(c, "git config --local --get lab.flow.branch.feature"),
        _ => panic!("expected a command"),
    }
    let s = expect_run(s, ok("feature/\n"), "git config --local --get lab.flow.branch.develop");
    let s = expect_run(s, ok("develop\n"), "git checkout develop");
    let s = expect_run(s, ok(""), "git checkout -b feature/login");
    let s = expect_run(s, ok(""), "git push -u origin feature/login");
    expect_done(s, err("no remote configured"), Ok(()));
}

#[test]
fn start_without_develop_name_fails_with_config_kind() {
    let (s, _) = Action::Start(Branch::Feature("login".to_string()), None).execute();
    let s = expect_run(s, ok("feature/\n"), "git config --local --get lab.flow.branch.develop");
    expect_done(s, err("no such key"), Err(FlowError::ConfigKeyNotFound));
}

#[test]
fn start_with_failed_checkout_surfaces_backend_error() {
    let (s, _) = Action::Start(Branch::Feature("login".to_string()), None).execute();
    let s = expect_run(s, ok("feature/\n"), "git config --local --get lab.flow.branch.develop");
    let s = expect_run(s, ok("develop\n"), "git checkout develop");
    expect_done(
        s,
        err("dirty tree"),
        Err(FlowError::BackendCommandFailed("dirty tree".to_string())),
    );
}

#[test]
fn init_with_all_keys_present_is_a_no_op() {
    let (s, a) = Action::Init.execute();
    match a {
        Step::Run(c) => assert_eq!(c, "git config --local --get lab.flow.branch.feature"),
        _ => panic!("expected a command"),
    }
    let s = expect_run(s, ok("feature/\n"), "git config --local --get lab.flow.branch.bugfix");
    let s = expect_run(s, ok("bugfix/\n"), "git config --local --get lab.flow.branch.hotfix");
    let s = expect_run(s, ok("hotfix/\n"), "git config --local --get lab.flow.branch.release");
    let s = expect_run(s, ok("release/\n"), "git config --local --get lab.flow.branch.develop");
    let s = expect_run(s, ok("develop\n"), "git config --local --get lab.flow.branch.main");
    expect_done(s, ok("main\n"), Ok(()));
}

#[test]
fn init_creation_walks_the_whole_flow() {
    let (s, _) = Action::Init.execute();
    // a key is missing: create from scratch; no repository yet either
    let s = expect_run(s, err("no such key"), "git status");
    let s = expect_run(s, err("not a git repository"), "git init");
    let s = expect_ask(s, ok(""), "Enter the prefix of the feature branches (feature/):");
    // empty answer: the default is taken
    let s = expect_ask(s, ok(""), "Enter the prefix of the bugfix branches (bugfix/):");
    // the slash convention is applied to a bare prefix
    let s = expect_ask(s, ok("bugfix"), "Enter the prefix of the hotfix branches (hotfix/):");
    // a name already used in this session is refused and asked again
    let s = expect_ask(s, ok("feature"), "Enter the prefix of the hotfix branches (hotfix/):");
    // a name outside the accepted shape is refused and asked again
    let s = expect_ask(s, ok("9bad"), "Enter the prefix of the hotfix branches (hotfix/):");
    let s = expect_ask(s, ok("hotfix"), "Enter the prefix of the release branches (release/):");
    let s = expect_ask(s, ok("release/"), "Enter the name of the develop branch (develop):");
    // a trailing slash on a full name is dropped
    let s = expect_ask(s, ok("develop/"), "Enter the name of the  main branch (main):");
    let s = expect_run(s, ok("main"), "git checkout -b main");
    // the main branch existing already is tolerated: plain checkout
    let s = expect_run(s, err("fatal: a branch named 'main' already exists"), "git checkout main");
    let s = expect_run(s, ok(""), "git push -u origin main");
    // no remote: the push failure is tolerated
    let s = expect_run(s, err("no remote"), "git add .");
    let s = expect_run(s, ok(""), "git commit -m \"Initial commit\" ");
    // nothing to commit is tolerated
    let s = expect_run(s, err("nothing to commit"), "git branch develop");
    let s = expect_run(s, ok(""), "git checkout develop");
    let s = expect_run(s, ok(""), "git push -u origin develop");
    // only now, with every backend step behind, the six names are persisted
    let s = expect_run(s, err("no remote"), "git config --local --add lab.flow.branch.feature feature/");
    let s = expect_run(s, ok(""), "git config --local --add lab.flow.branch.bugfix bugfix/");
    let s = expect_run(s, ok(""), "git config --local --add lab.flow.branch.hotfix hotfix/");
    let s = expect_run(s, ok(""), "git config --local --add lab.flow.branch.release release/");
    let s = expect_run(s, ok(""), "git config --local --add lab.flow.branch.develop develop");
    let s = expect_run(s, ok(""), "git config --local --add lab.flow.branch.main main");
    expect_done(s, ok(""), Ok(()));
}

// answers the six init prompts with empty lines, taking every default
fn feed_default_names(s: FlowState) -> FlowState {
    let s = expect_ask(s, ok(""), "Enter the prefix of the bugfix branches (bugfix/):");
    let s = expect_ask(s, ok(""), "Enter the prefix of the hotfix branches (hotfix/):");
    let s = expect_ask(s, ok(""), "Enter the prefix of the release branches (release/):");
    let s = expect_ask(s, ok(""), "Enter the name of the develop branch (develop):");
    let s = expect_ask(s, ok(""), "Enter the name of the  main branch (main):");
    expect_run(s, ok(""), "git checkout -b main")
}

#[test]
fn init_fails_when_main_creation_fails_otherwise() {
    let (s, _) = Action::Init.execute();
    let s = expect_run(s, err("no such key"), "git status");
    let s = expect_ask(s, ok("on branch x"), "Enter the prefix of the feature branches (feature/):");
    let s = feed_default_names(s);
    // a creation failure that is not "already exists" is fatal
    expect_done(
        s,
        err("fatal: cannot lock ref"),
        Err(FlowError::BackendCommandFailed("fatal: cannot lock ref".to_string())),
    );
}

#[test]
fn init_commit_failure_other_than_empty_tree_is_fatal() {
    let (s, _) = Action::Init.execute();
    let s = expect_run(s, err("no such key"), "git status");
    let s = expect_ask(s, ok("on branch x"), "Enter the prefix of the feature branches (feature/):");
    let s = feed_default_names(s);
    let s = expect_run(s, ok(""), "git push -u origin main");
    let s = expect_run(s, err("no remote"), "git add .");
    let s = expect_run(s, ok(""), "git commit -m \"Initial commit\" ");
    // an empty tree is tolerated, any other commit failure is not
    expect_done(
        s,
        err("disk full"),
        Err(FlowError::BackendCommandFailed("disk full".to_string())),
    );
}

#[test]
fn init_fails_when_git_init_fails() {
    let (s, _) = Action::Init.execute();
    let s = expect_run(s, err("no such key"), "git status");
    let s = expect_run(s, err("not a git repository"), "git init");
    expect_done(
        s,
        err("cannot create"),
        Err(FlowError::BackendCommandFailed("cannot create".to_string())),
    );
}

#[test]
fn script_create_starts_with_status_probe() {
    let (s, a) = Script::create();
    match a {
        Step::Run(c) => assert_eq!(c, "git status"),
        _ => panic!("expected a command"),
    }
    // an existing repository skips `git init` and goes straight to the
    // interactive part
    let (_, a2) = s.step(ok("on branch main"));
    match a2 {
        Step::Ask(p) => assert_eq!(p, "Enter the prefix of the feature branches (feature/):"),
        _ => panic!("expected a prompt"),
    }
}

#[test]
fn is_initiated_needs_all_six_lookups_to_succeed() {
    let all: Vec<Result<String, String>> = (0..6).map(|_| ok("x")).collect();
    assert!(Script::is_initiated(&all));
    let mut one_bad = all.clone();
    one_bad[3] = err("missing");
    assert!(!Script::is_initiated(&one_bad));
    let short: Vec<Result<String, String>> = (0..5).map(|_| ok("x")).collect();
    assert!(!Script::is_initiated(&short));
}
