//! The version-control command layer.
//!
//! Every operation is split in two: a builder here renders the exact command
//! line the backend must run, and an interpreter reads the textual outcome the
//! runner hands back.  Executing the command is the caller's business; nothing
//! in this module touches the system.

use vstd::prelude::*;

use crate::strutil::{
    join_space, spec_decimal, spec_join_space, spec_lines, spec_remove_all, spec_trim,
    split_lines, str_eq, remove_all, trim, u8_to_string,
};

verus! {

/// The view of an optional prefix: its characters, or nothing.
pub open spec fn spec_opt_str(p: Option<&str>) -> Seq<char> {
    match p {
        Some(s) => s@,
        None => Seq::empty(),
    }
}

/// Builders for the git command lines the flow runs, and interpreters for
/// what the runner brings back.
pub struct GitV2;

impl GitV2 {
    /// The command that lists the configured remotes.
    pub fn remote_list() -> (r: String)
        ensures
            r@ == "git remote -v"@,
    {
        ("git remote -v").to_owned()
    }

    /// Reads the outcome of [`GitV2::remote_list`]: a remote is configured
    /// exactly when the listing succeeded with nonblank output.
    pub fn is_remote(remote_output: &Result<String, String>) -> (r: bool)
        ensures
            r == (remote_output is Ok && spec_trim(remote_output->Ok_0@).len() > 0),
    {
        match remote_output {
            Ok(listing) => trim(listing.as_str()).as_str().unicode_len() > 0,
            Err(_) => false,
        }
    }

    /// The command that lists local branches matching `branch_fullname`.
    pub fn list_local(branch_fullname: &str) -> (r: String)
        ensures
            r@ == "git branch --list "@ + branch_fullname@,
    {
        let mut r = ("git branch --list ").to_owned();
        r.append(branch_fullname);
        r
    }

    /// Reads the outcome of [`GitV2::list_local`]: the branch exists locally
    /// exactly when the listing succeeded and is nonblank — `git branch
    /// --list` succeeds with empty output when no ref matches.
    pub fn exists_local(list_output: &Result<String, String>) -> (r: bool)
        ensures
            r == (list_output is Ok && spec_trim(list_output->Ok_0@).len() > 0),
    {
        match list_output {
            Ok(listing) => trim(listing.as_str()).as_str().unicode_len() > 0,
            Err(_) => false,
        }
    }

    /// The command that asks the remote for a head named `branch_fullname`.
    pub fn ls_remote(branch_fullname: &str) -> (r: String)
        ensures
            r@ == "git ls-remote --heads origin "@ + branch_fullname@,
    {
        let mut r = ("git ls-remote --heads origin ").to_owned();
        r.append(branch_fullname);
        r
    }

    /// Reads the outcome of [`GitV2::ls_remote`]: the branch exists remotely
    /// exactly when the listing succeeded and shows a commit token.
    pub fn exists_remote(remote_response: &Result<String, String>) -> (r: bool)
        ensures
            r == (remote_response is Ok && commit_tokens_of(remote_response->Ok_0@).len() > 0),
    {
        match remote_response {
            Ok(out) => find_commit_tokens(out.as_str()).len() > 0,
            Err(_) => false,
        }
    }

    /// The branch exists at all: locally, or on the remote.
    pub fn exists_any(list_output: &Result<String, String>, remote_response: &Result<String, String>)
        -> (r: bool)
        ensures
            r == ((list_output is Ok && spec_trim(list_output->Ok_0@).len() > 0) || (
            remote_response is Ok && commit_tokens_of(remote_response->Ok_0@).len() > 0)),
    {
        if Self::exists_local(list_output) {
            return true;
        }
        Self::exists_remote(remote_response)
    }

    /// The push command; the first push of a branch sets up tracking.
    pub fn push(branch_fullname: &str, first_push: bool) -> (r: String)
        ensures
            r@ == spec_push_cmd(branch_fullname@, first_push),
    {
        let mut r = if first_push {
            ("git push -u origin ").to_owned()
        } else {
            ("git push origin ").to_owned()
        };
        r.append(branch_fullname);
        r
    }

    /// The pull command for `branch_name`.
    pub fn pull(branch_name: &str) -> (r: String)
        ensures
            r@ == "git pull origin "@ + branch_name@,
    {
        let mut r = ("git pull origin ").to_owned();
        r.append(branch_name);
        r
    }

    /// The status command.
    pub fn status() -> (r: String)
        ensures
            r@ == "git status"@,
    {
        ("git status").to_owned()
    }

    /// The repository initialization command; the flow runs it only after
    /// [`GitV2::status`] has failed.
    pub fn init() -> (r: String)
        ensures
            r@ == "git init"@,
    {
        ("git init").to_owned()
    }

    /// The command that stages `file_names`.
    pub fn add(file_names: Vec<String>) -> (r: String)
        ensures
            r@ == "git add "@ + spec_join_space(file_names.deep_view()),
    {
        let mut r = ("git add ").to_owned();
        let joined = join_space(&file_names);
        r.append(joined.as_str());
        r
    }

    /// The ref-level merge: fetches the source branch's tip into the target
    /// branch's ref without checking it out.
    pub fn merge_local(
        source_branch_prefix: Option<&str>,
        source_branch_name: &str,
        target_branch_prefix: Option<&str>,
        target_branch_name: &str,
    ) -> (r: String)
        ensures
            r@ == spec_merge_local_cmd(
                spec_opt_str(source_branch_prefix) + source_branch_name@,
                spec_opt_str(target_branch_prefix) + target_branch_name@,
            ),
    {
        let mut r = ("git fetch . ").to_owned();
        match source_branch_prefix {
            Some(p) => { r.append(p) },
            None => {
                proof {
                    assert(r@ + Seq::<char>::empty() =~= r@);
                }
            },
        }
        r.append(source_branch_name);
        r.append(":");
        match target_branch_prefix {
            Some(p) => { r.append(p) },
            None => {
                proof {
                    assert(r@ + Seq::<char>::empty() =~= r@);
                }
            },
        }
        r.append(target_branch_name);
        r
    }

    /// The commit command, with the message in double quotes.
    pub fn commit(message: String, allow_empty: bool) -> (r: String)
        ensures
            r@ == spec_commit_cmd(message@, allow_empty),
    {
        let mut r = ("git commit -m \"").to_owned();
        r.append(message.as_str());
        r.append("\" ");
        if allow_empty {
            r.append("--allow-empty");
        } else {
            proof {
                assert(r@ + Seq::<char>::empty() =~= r@);
            }
        }
        r
    }

    /// The checkout command; `create` asks for a new branch.
    pub fn checkout(branch_prefix: Option<&str>, branch_name: &str, create: bool) -> (r: String)
        ensures
            r@ == spec_checkout_cmd(spec_opt_str(branch_prefix) + branch_name@, create),
    {
        let mut r = if create {
            ("git checkout -b ").to_owned()
        } else {
            ("git checkout ").to_owned()
        };
        match branch_prefix {
            Some(p) => { r.append(p) },
            None => {
                proof {
                    assert(r@ + Seq::<char>::empty() =~= r@);
                }
            },
        }
        r.append(branch_name);
        r
    }

    /// The forced deletion of a local branch.
    pub fn remove_local_branch(branch_prefix: Option<&str>, branch_name: &str) -> (r: String)
        ensures
            r@ == spec_remove_branch_cmd(spec_opt_str(branch_prefix) + branch_name@),
    {
        let mut r = ("git branch -D ").to_owned();
        match branch_prefix {
            Some(p) => { r.append(p) },
            None => {
                proof {
                    assert(r@ + Seq::<char>::empty() =~= r@);
                }
            },
        }
        r.append(branch_name);
        r
    }

    /// The creation of a branch without checking it out.
    pub fn branch(branch_prefix: Option<&str>, branch_name: &str) -> (r: String)
        ensures
            r@ == "git branch "@ + (spec_opt_str(branch_prefix) + branch_name@),
    {
        let mut r = ("git branch ").to_owned();
        match branch_prefix {
            Some(p) => { r.append(p) },
            None => {
                proof {
                    assert(r@ + Seq::<char>::empty() =~= r@);
                }
            },
        }
        r.append(branch_name);
        r
    }

    /// The query for commits reachable only from the given branch: its log,
    /// excluding every other local head.
    pub fn exclusive_commits(branch_prefix: Option<&str>, branch_name: &str) -> (r: String)
        ensures
            r@ == spec_exclusive_cmd(spec_opt_str(branch_prefix) + branch_name@),
    {
        let mut full = String::new();
        match branch_prefix {
            Some(p) => { full.append(p) },
            None => {
                proof {
                    assert(Seq::<char>::empty() + Seq::<char>::empty() =~= full@);
                }
            },
        }
        full.append(branch_name);
        assert(full@ =~= spec_opt_str(branch_prefix) + branch_name@);
        let mut r = ("git log ").to_owned();
        r.append(full.as_str());
        r.append(" --not $(git for-each-ref --format='%(refname:short)' refs/heads/ | grep -v \"");
        r.append(full.as_str());
        r.append("\") \"$@\"");
        r
    }

    /// The query for the newest `limit` commits on the given branch.
    pub fn all_commits(branch_prefix: Option<&str>, branch_name: &str, limit: u8) -> (r: String)
        ensures
            r@ == spec_all_commits_cmd(spec_opt_str(branch_prefix) + branch_name@, limit as int),
    {
        let mut r = ("git log ").to_owned();
        match branch_prefix {
            Some(p) => { r.append(p) },
            None => {
                proof {
                    assert(r@ + Seq::<char>::empty() =~= r@);
                }
            },
        }
        r.append(branch_name);
        r.append(" -n ");
        let digits = u8_to_string(limit);
        r.append(digits.as_str());
        r.append(" --pretty=oneline");
        r
    }

    /// The query for every ref that contains `commit`.
    pub fn branches_containing(commit: &str) -> (r: String)
        ensures
            r@ == "git branch -a --contains "@ + commit@,
    {
        let mut r = ("git branch -a --contains ").to_owned();
        r.append(commit);
        r
    }

    /// Reads the outcome of [`GitV2::branches_containing`]: each line with
    /// any `*` removed and surrounding blanks trimmed, the finished branch's
    /// own full name excluded.
    pub fn source_branches(output: &str, branch_prefix: &str, branch_name: &str) -> (r: Vec<
        String,
    >)
        ensures
            r.deep_view() == spec_source_branches(
                spec_lines(output@),
                branch_prefix@ + branch_name@,
            ),
    {
        let mut full = branch_prefix.to_owned();
        full.append(branch_name);
        let lines = split_lines(output);
        let mut r: Vec<String> = Vec::new();
        let len: usize = lines.len();
        let mut i: usize = 0;
        proof {
            assert(spec_lines(output@).subrange(0, spec_lines(output@).len() as int) =~~=
                spec_lines(output@));
            assert(r.deep_view() + spec_source_branches(spec_lines(output@), full@) =~~=
                spec_source_branches(spec_lines(output@), full@));
        }
        while i < len
            invariant
                len == lines.len(),
                0 <= i <= len,
                full@ == branch_prefix@ + branch_name@,
                lines.deep_view() == spec_lines(output@),
                spec_source_branches(lines.deep_view(), full@) == r.deep_view()
                    + spec_source_branches(
                    lines.deep_view().subrange(i as int, len as int),
                    full@,
                ),
            decreases len - i,
        {
            let ghost tail = lines.deep_view().subrange(i as int, len as int);
            proof {
                reveal_strlit("*");
                assert("*"@ =~= seq!['*']);
                assert(tail[0] == lines.deep_view()[i as int]);
                assert(tail.drop_first() =~~= lines.deep_view().subrange(i + 1, len as int));
            }
            let cleaned = trim(remove_all(lines[i].as_str(), "*").as_str());
            assert(cleaned@ == clean_ref_line(tail[0]));
            if !str_eq(cleaned.as_str(), full.as_str()) {
                let ghost dv0 = r.deep_view();
                r.push(cleaned);
                proof {
                    assert(r.deep_view() =~~= dv0.push(clean_ref_line(tail[0]))) by {
                        assert(forall|j: int|
                            0 <= j < dv0.len() ==> r.deep_view()[j] == #[trigger] dv0[j]);
                    };
                    assert(dv0.push(clean_ref_line(tail[0])) =~~= dv0 + seq![
                        clean_ref_line(tail[0]),
                    ]);
                    assert(dv0 + (seq![clean_ref_line(tail[0])] + spec_source_branches(
                        tail.drop_first(),
                        full@,
                    )) =~~= r.deep_view() + spec_source_branches(tail.drop_first(), full@));
                }
            }
            i = i + 1;
        }
        proof {
            assert(lines.deep_view().subrange(len as int, len as int) =~~= Seq::<
                Seq<char>,
            >::empty());
            assert(r.deep_view() + Seq::<Seq<char>>::empty() =~~= r.deep_view());
        }
        r
    }

    /// The push URL of the `origin` remote as the listing shows it, if any.
    ///
    /// Relies on `regex`: `Regex::captures` with the pattern
    /// `origin\s+(?P<url>.+)\s+\(push\)` captures the URL of the line that
    /// names origin's push target; the capture depends on the listing text
    /// alone.
    #[verifier::external_body]
    pub fn remote_push_url(remote_output: &str) -> (r: Option<String>)
        ensures
            r.deep_view() == push_url_of(remote_output@),
    {
        match regex::Regex::new(r"origin\s+(?P<url>.+)\s+\(push\)") {
            Ok(re) => match re.captures(remote_output) {
                Some(caps) => caps.name("url").map(|m| m.as_str().to_string()),
                None => None,
            },
            Err(_) => None,
        }
    }
}

/// The push command line.
pub open spec fn spec_push_cmd(full: Seq<char>, first_push: bool) -> Seq<char> {
    if first_push {
        "git push -u origin "@ + full
    } else {
        "git push origin "@ + full
    }
}

/// The checkout command line.
pub open spec fn spec_checkout_cmd(full: Seq<char>, create: bool) -> Seq<char> {
    if create {
        "git checkout -b "@ + full
    } else {
        "git checkout "@ + full
    }
}

/// The local-branch deletion command line.
pub open spec fn spec_remove_branch_cmd(full: Seq<char>) -> Seq<char> {
    "git branch -D "@ + full
}

/// The ref-level merge command line.
pub open spec fn spec_merge_local_cmd(source_full: Seq<char>, target_full: Seq<char>) -> Seq<
    char,
> {
    "git fetch . "@ + source_full + ":"@ + target_full
}

/// The commit command line.
pub open spec fn spec_commit_cmd(message: Seq<char>, allow_empty: bool) -> Seq<char> {
    "git commit -m \""@ + message + "\" "@ + (if allow_empty {
        "--allow-empty"@
    } else {
        Seq::<char>::empty()
    })
}

/// The exclusive-commits query command line.
pub open spec fn spec_exclusive_cmd(full: Seq<char>) -> Seq<char> {
    "git log "@ + full
        + " --not $(git for-each-ref --format='%(refname:short)' refs/heads/ | grep -v \""@ + full
        + "\") \"$@\""@
}

/// The commit-window query command line.
pub open spec fn spec_all_commits_cmd(full: Seq<char>, limit: int) -> Seq<char> {
    "git log "@ + full + " -n "@ + spec_decimal(limit) + " --pretty=oneline"@
}

/// A ref-listing line as the resolver reads it: `*` markers removed,
/// surrounding blanks trimmed.
pub open spec fn clean_ref_line(l: Seq<char>) -> Seq<char> {
    spec_trim(spec_remove_all(l, seq!['*']))
}

/// The cleaned ref lines, the branch's own full name excluded.
pub open spec fn spec_source_branches(lines: Seq<Seq<char>>, full: Seq<char>) -> Seq<Seq<char>>
    decreases lines.len(),
{
    if lines.len() == 0 {
        Seq::empty()
    } else {
        let c = clean_ref_line(lines[0]);
        let rest = spec_source_branches(lines.drop_first(), full);
        if c == full {
            rest
        } else {
            seq![c] + rest
        }
    }
}

/// The commit identifiers the token scan yields on a piece of backend
/// output: every match of forty consecutive ASCII alphanumerics, in order.
pub uninterp spec fn commit_tokens_of(s: Seq<char>) -> Seq<Seq<char>>;

/// The shape every scanned commit identifier has: exactly forty ASCII
/// alphanumeric characters.
pub open spec fn is_commit_token(t: Seq<char>) -> bool {
    t.len() == 40 && forall|k: int| 0 <= k < t.len() ==> crate::names::is_alnum(#[trigger] t[k])
}

/// The push URL that the remote listing shows for origin, if any.
pub uninterp spec fn push_url_of(s: Seq<char>) -> Option<Seq<char>>;

/// Extracts the commit identifiers from backend output.
///
/// Relies on `regex`: `Regex::find_iter` with the pattern `[A-Za-z0-9]{40}`
/// yields the non-overlapping forty-character alphanumeric tokens of the
/// text, leftmost first; the result depends on the text alone, and each
/// match of the pattern is forty ASCII alphanumerics.
#[verifier::external_body]
pub fn find_commit_tokens(text: &str) -> (r: Vec<String>)
    ensures
        r.deep_view() == commit_tokens_of(text@),
        forall|i: int|
            0 <= i < r.deep_view().len() ==> is_commit_token(#[trigger] r.deep_view()[i]),
{
    match regex::Regex::new(r"[A-Za-z0-9]{40}") {
        Ok(re) => re.find_iter(text).map(|m| m.as_str().to_string()).collect(),
        Err(_) => Vec::new(),
    }
}

} // verus!
