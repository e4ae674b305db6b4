use labflow::gitv2::GitV2;

#[test]
fn command_builders_render_the_exact_lines() {
    assert_eq!(GitV2::status(), "git status");
    assert_eq!(GitV2::init(), "git init");
    assert_eq!(GitV2::remote_list(), "git remote -v");
    assert_eq!(GitV2::pull("develop"), "git pull origin develop");
    assert_eq!(GitV2::push("feature/login", true), "git push -u origin feature/login");
    assert_eq!(GitV2::push("feature/login", false), "git push origin feature/login");
    assert_eq!(GitV2::list_local("feature/login"), "git branch --list feature/login");
    assert_eq!(
        GitV2::ls_remote("feature/login"),
        "git ls-remote --heads origin feature/login"
    );
    assert_eq!(
        GitV2::checkout(Some("feature/"), "login", true),
        "git checkout -b feature/login"
    );
    assert_eq!(GitV2::checkout(None, "develop", false), "git checkout develop");
    assert_eq!(GitV2::branch(None, "develop"), "git branch develop");
    assert_eq!(GitV2::branch(Some("release/"), "one"), "git branch release/one");
    assert_eq!(
        GitV2::remove_local_branch(Some("feature/"), "login"),
        "git branch -D feature/login"
    );
    assert_eq!(
        GitV2::merge_local(Some("feature/"), "login", None, "develop"),
        "git fetch . feature/login:develop"
    );
    assert_eq!(
        GitV2::add(vec![".".to_string()]),
        "git add ."
    );
    assert_eq!(
        GitV2::add(vec!["a.rs".to_string(), "b.rs".to_string()]),
        "git add a.rs b.rs"
    );
    assert_eq!(
        GitV2::commit("Initial commit".to_string(), false),
        "git commit -m \"Initial commit\" "
    );
    assert_eq!(
        GitV2::commit("wip".to_string(), true),
        "git commit -m \"wip\" --allow-empty"
    );
    assert_eq!(
        GitV2::exclusive_commits(Some("feature/"), "login"),
        "git log feature/login --not $(git for-each-ref --format='%(refname:short)' refs/heads/ | grep -v \"feature/login\") \"$@\""
    );
    assert_eq!(
        GitV2::all_commits(None, "develop", 100),
        "git log develop -n 100 --pretty=oneline"
    );
    assert_eq!(
        GitV2::branches_containing("abc123"),
        "git branch -a --contains abc123"
    );
}

#[test]
fn is_remote_needs_a_nonblank_successful_listing() {
    assert!(GitV2::is_remote(&Ok("origin\tgit@host:a/b.git (push)\n".to_string())));
    assert!(!GitV2::is_remote(&Ok("".to_string())));
    assert!(!GitV2::is_remote(&Ok("  \n\t".to_string())));
    assert!(!GitV2::is_remote(&Err("fatal".to_string())));
}

#[test]
fn exists_local_needs_a_nonblank_listing() {
    assert!(GitV2::exists_local(&Ok("  feature/login\n".to_string())));
    // the listing succeeds with empty output when no ref matches
    assert!(!GitV2::exists_local(&Ok("".to_string())));
    assert!(!GitV2::exists_local(&Ok(" \n".to_string())));
    assert!(!GitV2::exists_local(&Err("fatal".to_string())));
}

#[test]
fn exists_remote_needs_a_commit_token() {
    let head = format!("{}\trefs/heads/feature/login\n", "a1b2".repeat(10));
    assert!(GitV2::exists_remote(&Ok(head)));
    assert!(!GitV2::exists_remote(&Ok("".to_string())));
    assert!(!GitV2::exists_remote(&Ok("no token here".to_string())));
    assert!(!GitV2::exists_remote(&Err("fatal".to_string())));
}

#[test]
fn exists_any_combines_local_and_remote() {
    let head = format!("{}\trefs/heads/x\n", "c".repeat(40));
    assert!(GitV2::exists_any(&Ok("  feature/x\n".to_string()), &Err("down".to_string())));
    assert!(GitV2::exists_any(&Err("none".to_string()), &Ok(head)));
    assert!(!GitV2::exists_any(&Ok("".to_string()), &Ok("".to_string())));
    assert!(!GitV2::exists_any(&Err("none".to_string()), &Ok("".to_string())));
}

#[test]
fn find_commit_tokens_extracts_each_forty_character_run() {
    let a = "a".repeat(40);
    let b = "0123456789".repeat(4);
    let text = format!("commit {}\nmerge: x\ncommit {}\nshort deadbeef\n", a, b);
    let tokens = labflow::gitv2::find_commit_tokens(&text);
    assert_eq!(tokens, vec![a, b]);
    assert_eq!(labflow::gitv2::find_commit_tokens("nothing"), Vec::<String>::new());
}

#[test]
fn remote_push_url_captures_the_push_line() {
    let listing = "origin\tgit@gitlab.com:team/repo.git (fetch)\norigin\tgit@gitlab.com:team/repo.git (push)\n";
    assert_eq!(
        GitV2::remote_push_url(listing),
        Some("git@gitlab.com:team/repo.git".to_string())
    );
    assert_eq!(GitV2::remote_push_url(""), None);
    assert_eq!(GitV2::remote_push_url("upstream\tx (push)"), None);
}

#[test]
fn source_branches_cleans_lines_and_excludes_self() {
    let output = "* feature/login\n  develop\n  remotes/origin/develop\n";
    let refs = GitV2::source_branches(output, "feature/", "login");
    assert_eq!(
        refs,
        vec!["develop".to_string(), "remotes/origin/develop".to_string()]
    );
    // without a matching own name nothing is excluded
    let all = GitV2::source_branches("  develop\n", "", "other");
    assert_eq!(all, vec!["develop".to_string()]);
}
