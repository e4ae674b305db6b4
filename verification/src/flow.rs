//! The flow orchestrator.
//!
//! `init`, `start` and `finish` are workflows that alternate decisions with
//! backend work: shell commands, reading a line from the operator, opening a
//! URL.  The orchestrator is therefore a state machine: [`Action::execute`]
//! yields the first state and the first piece of work, and [`FlowState::step`]
//! consumes the outcome of that work and yields the next.  The caller that
//! drives the loop performs the work; every decision is taken — and verified —
//! here, against the transition relation [`spec_step`].
//!
//! Source policy: a finished feature branch resolves its sources from the
//! commit graph (the bounded-window estimate of `crate::resolve`); hotfix,
//! bugfix and release branches use the category table, so a hotfix always
//! converges into main and develop.
//!
//! Configuration values read from the store are used trimmed of surrounding
//! blanks.

use vstd::prelude::*;

use crate::args::Action;
use crate::branch::{Branch, Category, Config};
use crate::browser::{spec_merge_request_url, Browser};
use crate::constants::{
    BUGFIX_BRANCH_NAME_KEY, DEVELOP_BRANCH_NAME_KEY, FEATURE_BRANCH_NAME_KEY,
    HOTFIX_BRANCH_NAME_KEY, MAIN_BRANCH_NAME_KEY, RELEASE_BRANCH_NAME_KEY,
};
use crate::gitv2::{
    commit_tokens_of, push_url_of, spec_all_commits_cmd, spec_checkout_cmd, spec_commit_cmd,
    spec_exclusive_cmd, spec_merge_local_cmd, spec_push_cmd, spec_remove_branch_cmd,
    spec_source_branches, GitV2,
};
use crate::names::{normalize_branch_name, spec_normalize, spec_used, spec_valid_name};
use crate::resolve::{first_shared_commit, spec_first_shared, static_sources, spec_static_sources, is_branch};
use crate::store::{spec_store_add_cmd, spec_store_get_cmd, Store};
use crate::strutil::{spec_contains, spec_lines, spec_trim, trim};
use crate::FlowError;

verus! {

/// A failure of repository initialization, carrying the backend's words.
#[derive(Debug)]
pub struct InitError {
    pub message: String,
}

impl InitError {
    pub fn new(message: String) -> (r: InitError)
        ensures
            r.message@ == message@,
    {
        InitError { message }
    }
}

/// The work the orchestrator asks its driver to perform next.
pub enum Step {
    /// Run this shell command and hand back its outcome.
    Run(String),
    /// Open this URL with the host's handler and hand back the outcome.
    OpenUrl(String),
    /// Show this prompt, read one line, and hand it back as `Ok`.
    Ask(String),
    /// The workflow is over with this result; further steps repeat it.
    Done(Result<(), FlowError>),
}

/// The data a finish workflow carries once its sources are resolved.
pub struct FinishCtx {
    /// The branch being finished.
    pub branch: Branch,
    /// Its full prefix as looked up (empty for develop/main, or when the
    /// lookup failed).
    pub prefix: String,
    /// The complete configuration.
    pub config: Config,
    /// The resolved source branches, in order.
    pub sources: Vec<Branch>,
}

/// The states of the orchestrator; each waits for the outcome of the piece
/// of work emitted when it was entered.
pub enum FlowState {
    /// Init: probing whether the store already holds key number `count`.
    InitCheck { branch_names_found: u8 },
    /// Init: awaiting `git status` to learn whether a repository exists.
    InitStatus,
    /// Init: awaiting `git init`.
    InitGitInit,
    /// Init: awaiting the operator's line for name number `names.len()`.
    AskName { names: Vec<String> },
    /// Init: awaiting creation-and-checkout of the main branch.
    CreateMain { names: Vec<String> },
    /// Init: awaiting plain checkout of the already existing main branch.
    CheckoutMain { names: Vec<String> },
    /// Init: awaiting the push of main (outcome ignored).
    PushMain { names: Vec<String> },
    /// Init: awaiting the staging of all files.
    AddAll { names: Vec<String> },
    /// Init: awaiting the initial commit (outcome ignored).
    CommitAll { names: Vec<String> },
    /// Init: awaiting creation of the develop branch.
    CreateDevelop { names: Vec<String> },
    /// Init: awaiting checkout of develop.
    CheckoutDevelop { names: Vec<String> },
    /// Init: awaiting the push of develop (outcome ignored).
    PushDevelop { names: Vec<String> },
    /// Init: awaiting the store write of name number `stored`.
    StoreNames { names: Vec<String>, stored: u8 },
    /// Start: awaiting the prefix lookup of the started branch.
    StartPrefix { branch: Branch },
    /// Start: awaiting the develop-name lookup.
    StartDevelop { branch: Branch, prefix: String },
    /// Start: awaiting the checkout of develop.
    StartCheckoutDevelop { branch: Branch, prefix: String },
    /// Start: awaiting creation-and-checkout of the new branch.
    StartCreateBranch { branch: Branch, prefix: String },
    /// Start: awaiting the push of the new branch (outcome ignored).
    StartPush { branch: Branch },
    /// Finish: awaiting the store lookup of key number `vals.len()`.
    FinishConfig { branch: Branch, vals: Vec<Option<String>> },
    /// Finish: awaiting the exclusive-commits query.
    FinishExclusive { branch: Branch, prefix: String, config: Option<Config> },
    /// Finish: awaiting the commit-window query.
    FinishWindow {
        branch: Branch,
        prefix: String,
        config: Option<Config>,
        exclusive: Vec<String>,
    },
    /// Finish: awaiting the containing-refs query.
    FinishRefs { branch: Branch, prefix: String, config: Option<Config> },
    /// Finish: awaiting the remote listing that decides the path.
    FinishRemote { ctx: FinishCtx },
    /// Finish, remote path: awaiting the remote-head probe.
    FinishLsRemote { ctx: FinishCtx },
    /// Finish, remote path: awaiting the push of the finished branch.
    FinishPush { ctx: FinishCtx },
    /// Finish, remote path: awaiting the remote listing for source `idx`.
    PublishUrl { ctx: FinishCtx, idx: usize },
    /// Finish, remote path: awaiting the browser on source `idx`'s URL.
    PublishOpen { ctx: FinishCtx, idx: usize },
    /// Finish, local path: awaiting the merge into source `idx`.
    MergeNext { ctx: FinishCtx, idx: usize },
    /// Finish tail: awaiting the develop-name lookup.
    TailDevelop { branch: Branch, prefix: String },
    /// Finish tail: awaiting the checkout of develop.
    TailCheckout { branch: Branch, prefix: String },
    /// Finish tail: awaiting the deletion of the finished branch.
    TailRemove { branch: Branch, prefix: String },
    /// The workflow is over.
    Finished { result: Result<(), FlowError> },
}

/// The six store keys, in the order init collects and finish loads them.
pub open spec fn spec_key(i: int) -> Seq<char> {
    if i == 0 {
        FEATURE_BRANCH_NAME_KEY@
    } else if i == 1 {
        BUGFIX_BRANCH_NAME_KEY@
    } else if i == 2 {
        HOTFIX_BRANCH_NAME_KEY@
    } else if i == 3 {
        RELEASE_BRANCH_NAME_KEY@
    } else if i == 4 {
        DEVELOP_BRANCH_NAME_KEY@
    } else {
        MAIN_BRANCH_NAME_KEY@
    }
}

fn key_at(i: usize) -> (r: &'static str)
    requires
        i < 6,
    ensures
        r@ == spec_key(i as int),
{
    if i == 0 {
        FEATURE_BRANCH_NAME_KEY
    } else if i == 1 {
        BUGFIX_BRANCH_NAME_KEY
    } else if i == 2 {
        HOTFIX_BRANCH_NAME_KEY
    } else if i == 3 {
        RELEASE_BRANCH_NAME_KEY
    } else if i == 4 {
        DEVELOP_BRANCH_NAME_KEY
    } else {
        MAIN_BRANCH_NAME_KEY
    }
}

/// The prompts shown while init collects the six names.
pub open spec fn spec_prompt(i: int) -> Seq<char> {
    if i == 0 {
        "Enter the prefix of the feature branches (feature/):"@
    } else if i == 1 {
        "Enter the prefix of the bugfix branches (bugfix/):"@
    } else if i == 2 {
        "Enter the prefix of the hotfix branches (hotfix/):"@
    } else if i == 3 {
        "Enter the prefix of the release branches (release/):"@
    } else if i == 4 {
        "Enter the name of the develop branch (develop):"@
    } else {
        "Enter the name of the  main branch (main):"@
    }
}

fn prompt_at(i: usize) -> (r: &'static str)
    requires
        i < 6,
    ensures
        r@ == spec_prompt(i as int),
{
    if i == 0 {
        "Enter the prefix of the feature branches (feature/):"
    } else if i == 1 {
        "Enter the prefix of the bugfix branches (bugfix/):"
    } else if i == 2 {
        "Enter the prefix of the hotfix branches (hotfix/):"
    } else if i == 3 {
        "Enter the prefix of the release branches (release/):"
    } else if i == 4 {
        "Enter the name of the develop branch (develop):"
    } else {
        "Enter the name of the  main branch (main):"
    }
}

/// The default offered for name number `i` when the operator enters nothing.
pub open spec fn spec_default_name(i: int) -> Seq<char> {
    if i == 0 {
        "feature/"@
    } else if i == 1 {
        "bugfix/"@
    } else if i == 2 {
        "hotfix/"@
    } else if i == 3 {
        "release/"@
    } else if i == 4 {
        "develop"@
    } else {
        "main"@
    }
}

fn default_name_at(i: usize) -> (r: &'static str)
    requires
        i < 6,
    ensures
        r@ == spec_default_name(i as int),
{
    if i == 0 {
        "feature/"
    } else if i == 1 {
        "bugfix/"
    } else if i == 2 {
        "hotfix/"
    } else if i == 3 {
        "release/"
    } else if i == 4 {
        "develop"
    } else {
        "main"
    }
}

/// The first four collected names are prefixes and take the trailing slash.
pub open spec fn spec_add_slash(i: int) -> bool {
    i < 4
}

/// The index of a category's prefix among the six keys; meaningful for the
/// four prefixed categories.
pub open spec fn spec_prefix_index(cat: Category) -> int {
    match cat {
        Category::Feature => 0,
        Category::Bugfix => 1,
        Category::Hotfix => 2,
        Category::Release => 3,
        Category::Develop => 4,
        Category::Main => 5,
    }
}

/// A category whose branches carry a configured prefix.
pub open spec fn spec_has_prefix(cat: Category) -> bool {
    cat == Category::Feature || cat == Category::Bugfix || cat == Category::Hotfix || cat
        == Category::Release
}

/// The own-prefix text finish works with: the trimmed store value of the
/// category's prefix key, or empty when the category has none or the lookup
/// failed.
pub open spec fn spec_own_prefix(cat: Category, vals: Seq<Option<Seq<char>>>) -> Seq<char> {
    if spec_has_prefix(cat) {
        match vals[spec_prefix_index(cat)] {
            Some(v) => v,
            None => Seq::empty(),
        }
    } else {
        Seq::empty()
    }
}

/// All six lookups answered.
pub open spec fn spec_all_found(vals: Seq<Option<Seq<char>>>) -> bool {
    forall|i: int| 0 <= i < 6 ==> vals[i] is Some
}

/// `c` holds exactly the six looked-up values.
pub open spec fn config_matches(c: &Config, vals: Seq<Option<Seq<char>>>) -> bool {
    &&& c.feature@ == vals[0].unwrap()
    &&& c.bugfix@ == vals[1].unwrap()
    &&& c.hotfix@ == vals[2].unwrap()
    &&& c.release@ == vals[3].unwrap()
    &&& c.develop@ == vals[4].unwrap()
    &&& c.main@ == vals[5].unwrap()
}

/// The optional configuration a finish state carries matches the lookups: a
/// full configuration when every key answered, nothing otherwise.
pub open spec fn config_opt_matches(c: &Option<Config>, vals: Seq<Option<Seq<char>>>) -> bool {
    if spec_all_found(vals) {
        c matches Some(cc) && config_matches(&cc, vals)
    } else {
        c is None
    }
}

/// The structural soundness of a state: every index a later step reads is in
/// range.  `step` preserves it.
pub open spec fn state_wf(s: &FlowState) -> bool {
    match s {
        FlowState::InitCheck { branch_names_found } => branch_names_found < 6,
        FlowState::AskName { names } => names@.len() < 6,
        FlowState::CreateMain { names } => names@.len() == 6,
        FlowState::CheckoutMain { names } => names@.len() == 6,
        FlowState::PushMain { names } => names@.len() == 6,
        FlowState::AddAll { names } => names@.len() == 6,
        FlowState::CommitAll { names } => names@.len() == 6,
        FlowState::CreateDevelop { names } => names@.len() == 6,
        FlowState::CheckoutDevelop { names } => names@.len() == 6,
        FlowState::PushDevelop { names } => names@.len() == 6,
        FlowState::StoreNames { names, stored } => names@.len() == 6 && stored < 6,
        FlowState::FinishConfig { branch, vals } => vals@.len() < 6,
        FlowState::FinishRemote { ctx } => ctx.sources@.len() > 0,
        FlowState::FinishLsRemote { ctx } => ctx.sources@.len() > 0,
        FlowState::FinishPush { ctx } => ctx.sources@.len() > 0,
        FlowState::PublishUrl { ctx, idx } => idx < ctx.sources@.len(),
        FlowState::PublishOpen { ctx, idx } => idx < ctx.sources@.len(),
        FlowState::MergeNext { ctx, idx } => idx < ctx.sources@.len(),
        _ => true,
    }
}

/// The event reports success.
pub open spec fn ev_ok(ev: &Result<String, String>) -> bool {
    ev is Ok
}

/// The error text the flow surfaces for a failed backend command.
pub open spec fn backend_failed(e: &FlowError, ev: &Result<String, String>) -> bool {
    e matches FlowError::BackendCommandFailed(m) && m@ == ev->Err_0@
}

/// The workflow ends with success.
pub open spec fn steps_done_ok(post: &FlowState, act: &Step) -> bool {
    &&& post matches FlowState::Finished { result } && result is Ok
    &&& act matches Step::Done(r) && r is Ok
}

/// The workflow ends with the given error kind check.
pub open spec fn steps_done_err(post: &FlowState, act: &Step, ev: &Result<String, String>) -> bool {
    &&& post matches FlowState::Finished { result } && (result matches Err(e) && backend_failed(
        &e,
        ev,
    ))
    &&& act matches Step::Done(r) && (r matches Err(e) && backend_failed(&e, ev))
}

/// The workflow ends with a payload-free error kind.
pub open spec fn steps_done_kind(post: &FlowState, act: &Step, which: FlowError) -> bool {
    &&& post matches FlowState::Finished { result } && (result matches Err(e) && e == which)
    &&& act matches Step::Done(r) && (r matches Err(e) && e == which)
}

/// The next action asks the store for key `i`.
pub open spec fn act_get_key(act: &Step, i: int) -> bool {
    act matches Step::Run(cmd) && cmd@ == spec_store_get_cmd(spec_key(i))
}

/// The next action runs this command line.
pub open spec fn act_run(act: &Step, cmd: Seq<char>) -> bool {
    act matches Step::Run(c) && c@ == cmd
}

/// The next action shows this prompt and reads a line.
pub open spec fn act_ask(act: &Step, prompt: Seq<char>) -> bool {
    act matches Step::Ask(p) && p@ == prompt
}

/// The next action opens this URL.
pub open spec fn act_open(act: &Step, url: Seq<char>) -> bool {
    act matches Step::OpenUrl(u) && u@ == url
}

/// The transitions of the init workflow.
pub open spec fn spec_step_init(
    pre: &FlowState,
    ev: &Result<String, String>,
    post: &FlowState,
    act: &Step,
) -> bool {
    match pre {
        FlowState::InitCheck { branch_names_found } => {
            let count = *branch_names_found as int;
            if !ev_ok(ev) {
                // some key is missing: create the flow from scratch
                post is InitStatus && act_run(act, "git status"@)
            } else if count == 5 {
                // all six keys answered: already initiated, nothing to do
                steps_done_ok(post, act)
            } else {
                post matches FlowState::InitCheck { branch_names_found: c2 } && c2 == count + 1
                    && act_get_key(act, count + 1)
            }
        },
        FlowState::InitStatus => {
            if ev_ok(ev) {
                post matches FlowState::AskName { names } && names@.len() == 0 && act_ask(
                    act,
                    spec_prompt(0),
                )
            } else {
                post is InitGitInit && act_run(act, "git init"@)
            }
        },
        FlowState::InitGitInit => {
            if ev_ok(ev) {
                post matches FlowState::AskName { names } && names@.len() == 0 && act_ask(
                    act,
                    spec_prompt(0),
                )
            } else {
                steps_done_err(post, act, ev)
            }
        },
        FlowState::AskName { names } => {
            let k = names@.len() as int;
            match ev {
                Err(_) => steps_done_err(post, act, ev),
                Ok(line) => {
                    let n = spec_normalize(line@, spec_default_name(k), spec_add_slash(k));
                    let taken = spec_used(names.deep_view(), n) || (!spec_add_slash(k)
                        && spec_used(names.deep_view(), n + seq!['/']));
                    if taken || !spec_valid_name(n) {
                        // refused: ask for this name again
                        post matches FlowState::AskName { names: n2 } && n2.deep_view()
                            == names.deep_view() && act_ask(act, spec_prompt(k))
                    } else if k == 5 {
                        post matches FlowState::CreateMain { names: n2 } && n2.deep_view()
                            == names.deep_view().push(n) && act_run(
                            act,
                            spec_checkout_cmd(n, true),
                        )
                    } else {
                        post matches FlowState::AskName { names: n2 } && n2.deep_view()
                            == names.deep_view().push(n) && act_ask(act, spec_prompt(k + 1))
                    }
                },
            }
        },
        FlowState::CreateMain { names } => {
            if ev_ok(ev) {
                post matches FlowState::PushMain { names: n2 } && n2.deep_view()
                    == names.deep_view() && act_run(
                    act,
                    spec_push_cmd(names.deep_view()[5], true),
                )
            } else if spec_contains(ev->Err_0@, "already exists"@) {
                // the branch existing already is tolerated: check it out
                post matches FlowState::CheckoutMain { names: n2 } && n2.deep_view()
                    == names.deep_view() && act_run(
                    act,
                    spec_checkout_cmd(names.deep_view()[5], false),
                )
            } else {
                // any other creation failure is fatal: later steps depend on
                // standing on the main branch
                steps_done_err(post, act, ev)
            }
        },
        FlowState::CheckoutMain { names } => {
            if ev_ok(ev) {
                post matches FlowState::PushMain { names: n2 } && n2.deep_view()
                    == names.deep_view() && act_run(
                    act,
                    spec_push_cmd(names.deep_view()[5], true),
                )
            } else {
                steps_done_err(post, act, ev)
            }
        },
        FlowState::PushMain { names } => {
            // the push may fail: a local-only flow is valid
            post matches FlowState::AddAll { names: n2 } && n2.deep_view() == names.deep_view()
                && act_run(act, "git add ."@)
        },
        FlowState::AddAll { names } => {
            if ev_ok(ev) {
                post matches FlowState::CommitAll { names: n2 } && n2.deep_view()
                    == names.deep_view() && act_run(
                    act,
                    spec_commit_cmd("Initial commit"@, false),
                )
            } else {
                steps_done_err(post, act, ev)
            }
        },
        FlowState::CommitAll { names } => {
            if ev_ok(ev) || spec_contains(ev->Err_0@, "nothing to commit"@) {
                // an empty working tree is tolerated; the flow goes on
                post matches FlowState::CreateDevelop { names: n2 } && n2.deep_view()
                    == names.deep_view() && act_run(act, "git branch "@ + names.deep_view()[4])
            } else {
                steps_done_err(post, act, ev)
            }
        },
        FlowState::CreateDevelop { names } => {
            if ev_ok(ev) || spec_contains(ev->Err_0@, "already exists"@) {
                post matches FlowState::CheckoutDevelop { names: n2 } && n2.deep_view()
                    == names.deep_view() && act_run(
                    act,
                    spec_checkout_cmd(names.deep_view()[4], false),
                )
            } else {
                steps_done_err(post, act, ev)
            }
        },
        FlowState::CheckoutDevelop { names } => {
            if ev_ok(ev) {
                post matches FlowState::PushDevelop { names: n2 } && n2.deep_view()
                    == names.deep_view() && act_run(
                    act,
                    spec_push_cmd(names.deep_view()[4], true),
                )
            } else {
                steps_done_err(post, act, ev)
            }
        },
        FlowState::PushDevelop { names } => {
            // the push may fail: a local-only flow is valid
            post matches FlowState::StoreNames { names: n2, stored } && n2.deep_view()
                == names.deep_view() && stored == 0 && act_run(
                act,
                spec_store_add_cmd(spec_key(0), names.deep_view()[0]),
            )
        },
        FlowState::StoreNames { names, stored } => {
            let k = *stored as int;
            if !ev_ok(ev) {
                steps_done_err(post, act, ev)
            } else if k == 5 {
                steps_done_ok(post, act)
            } else {
                post matches FlowState::StoreNames { names: n2, stored: s2 } && n2.deep_view()
                    == names.deep_view() && s2 == k + 1 && act_run(
                    act,
                    spec_store_add_cmd(spec_key(k + 1), names.deep_view()[k + 1]),
                )
            }
        },
        _ => true,
    }
}

/// The transitions of the start workflow.
pub open spec fn spec_step_start(
    pre: &FlowState,
    ev: &Result<String, String>,
    post: &FlowState,
    act: &Step,
) -> bool {
    match pre {
        FlowState::StartPrefix { branch } => {
            let p = match ev {
                Ok(v) => spec_trim(v@),
                Err(_) => Seq::empty(),
            };
            post matches FlowState::StartDevelop { branch: b2, prefix } && b2 == branch && prefix@
                == p && act_get_key(act, 4)
        },
        FlowState::StartDevelop { branch, prefix } => {
            match ev {
                Err(_) => steps_done_kind(post, act, FlowError::ConfigKeyNotFound),
                Ok(v) => post matches FlowState::StartCheckoutDevelop { branch: b2, prefix: p2 }
                    && b2 == branch && p2@ == prefix@ && act_run(
                    act,
                    spec_checkout_cmd(spec_trim(v@), false),
                ),
            }
        },
        FlowState::StartCheckoutDevelop { branch, prefix } => {
            if ev_ok(ev) {
                post matches FlowState::StartCreateBranch { branch: b2, prefix: p2 } && b2
                    == branch && p2@ == prefix@ && act_run(
                    act,
                    spec_checkout_cmd(prefix@ + branch.spec_name(), true),
                )
            } else {
                steps_done_err(post, act, ev)
            }
        },
        FlowState::StartCreateBranch { branch, prefix } => {
            if ev_ok(ev) {
                post matches FlowState::StartPush { branch: b2 } && b2 == branch && act_run(
                    act,
                    spec_push_cmd(prefix@ + branch.spec_name(), true),
                )
            } else {
                steps_done_err(post, act, ev)
            }
        },
        FlowState::StartPush { branch } => {
            // the push may fail: a local-only flow is valid
            steps_done_ok(post, act)
        },
        _ => true,
    }
}

/// The post-resolution context is the pre-resolution data plus the resolved
/// sources.
pub open spec fn ctx_matches(
    ctx: &FinishCtx,
    branch: &Branch,
    prefix: Seq<char>,
    config: &Option<Config>,
) -> bool {
    &&& ctx.branch == *branch
    &&& ctx.prefix@ == prefix
    &&& config matches Some(c) && config_matches(&ctx.config, seq![
        Some(c.feature@),
        Some(c.bugfix@),
        Some(c.hotfix@),
        Some(c.release@),
        Some(c.develop@),
        Some(c.main@),
    ])
}

/// Entering the loop over the resolved sources: the remote path opens the
/// first merge request, the local path merges into the first source, and a
/// finish without sources goes straight to the tail.
pub open spec fn enter_tail(post: &FlowState, act: &Step, branch: &Branch, prefix: Seq<char>) -> bool {
    &&& post matches FlowState::TailDevelop { branch: b2, prefix: p2 } && b2 == branch && p2@
        == prefix
    &&& act_get_key(act, 4)
}

/// The sources a context carries are exactly those of the category table.
pub open spec fn sources_are_static(ctx: &FinishCtx, cat: Category) -> bool {
    let entries = spec_static_sources(cat, &ctx.config).unwrap();
    &&& ctx.sources@.len() == entries.len()
    &&& forall|i: int|
        0 <= i < entries.len() ==> is_branch(&ctx.sources@[i], entries[i].0, entries[i].1)
}

/// The sources a context carries are the typed readings of the cleaned refs.
pub open spec fn sources_are_parsed(ctx: &FinishCtx, refs: Seq<Seq<char>>, c: &Config) -> bool {
    &&& ctx.sources@.len() == refs.len()
    &&& forall|i: int|
        0 <= i < refs.len() ==> is_branch(
            &ctx.sources@[i],
            crate::branch::spec_parse(refs[i], c).unwrap().0,
            crate::branch::spec_parse(refs[i], c).unwrap().1,
        )
}

/// The transitions of the finish workflow.
pub open spec fn spec_step_finish(
    pre: &FlowState,
    ev: &Result<String, String>,
    post: &FlowState,
    act: &Step,
) -> bool {
    match pre {
        FlowState::FinishConfig { branch, vals } => {
            let added = match ev {
                Ok(v) => Some(spec_trim(v@)),
                Err(_) => None,
            };
            let vals2 = vals.deep_view().push(added);
            let k = vals@.len() as int;
            if k < 5 {
                post matches FlowState::FinishConfig { branch: b2, vals: v2 } && b2 == branch
                    && v2.deep_view() == vals2 && act_get_key(act, k + 1)
            } else {
                let cat = branch.spec_category();
                let own = spec_own_prefix(cat, vals2);
                if cat == Category::Feature || cat == Category::Develop || cat == Category::Main {
                    // graph path
                    post matches FlowState::FinishExclusive { branch: b2, prefix, config } && b2
                        == branch && prefix@ == own && config_opt_matches(&config, vals2)
                        && act_run(act, spec_exclusive_cmd(own + branch.spec_name()))
                } else {
                    // category table path
                    if !spec_all_found(vals2) {
                        steps_done_kind(post, act, FlowError::ConfigKeyNotFound)
                    } else {
                        post matches FlowState::FinishRemote { ctx } && ctx.branch == branch
                            && ctx.prefix@ == own && config_matches(&ctx.config, vals2)
                            && sources_are_static(&ctx, cat) && act_run(act, "git remote -v"@)
                    }
                }
            }
        },
        FlowState::FinishExclusive { branch, prefix, config } => {
            match ev {
                Err(_) => steps_done_err(post, act, ev),
                Ok(out) => post matches FlowState::FinishWindow {
                    branch: b2,
                    prefix: p2,
                    config: c2,
                    exclusive,
                } && b2 == branch && p2@ == prefix@ && c2 == config && exclusive.deep_view()
                    == commit_tokens_of(out@) && act_run(
                    act,
                    spec_all_commits_cmd(prefix@ + branch.spec_name(), 100),
                ),
            }
        },
        FlowState::FinishWindow { branch, prefix, config, exclusive } => {
            match ev {
                Err(_) => steps_done_err(post, act, ev),
                Ok(out) => {
                    let window = commit_tokens_of(out@);
                    match spec_first_shared(window, exclusive.deep_view()) {
                        None => steps_done_kind(post, act, FlowError::NoSourceBranchFound),
                        Some(c) => post matches FlowState::FinishRefs {
                            branch: b2,
                            prefix: p2,
                            config: c2,
                        } && b2 == branch && p2@ == prefix@ && c2 == config && act_run(
                            act,
                            "git branch -a --contains "@ + c,
                        ),
                    }
                },
            }
        },
        FlowState::FinishRefs { branch, prefix, config } => {
            match ev {
                Err(_) => steps_done_err(post, act, ev),
                Ok(out) => {
                    let refs = spec_source_branches(
                        spec_lines(out@),
                        prefix@ + branch.spec_name(),
                    );
                    if refs.len() == 0 {
                        steps_done_kind(post, act, FlowError::NoSourceBranchFound)
                    } else if config is None {
                        steps_done_kind(post, act, FlowError::ConfigKeyNotFound)
                    } else {
                        let c = config.unwrap();
                        if exists|i: int|
                            0 <= i < refs.len() && crate::branch::spec_parse(refs[i], &c)
                                is None {
                            steps_done_kind(post, act, FlowError::UnknownBranchPrefixOrName)
                        } else {
                            post matches FlowState::FinishRemote { ctx } && ctx_matches(
                                &ctx,
                                branch,
                                prefix@,
                                config,
                            ) && sources_are_parsed(&ctx, refs, &c) && act_run(
                                act,
                                "git remote -v"@,
                            )
                        }
                    }
                },
            }
        },
        FlowState::FinishRemote { ctx } => {
            if ev_ok(ev) && spec_trim(ev->Ok_0@).len() > 0 {
                // a remote exists: probe whether it already has the branch
                post matches FlowState::FinishLsRemote { ctx: c2 } && c2 == ctx && act_run(
                    act,
                    "git ls-remote --heads origin "@ + (ctx.prefix@ + ctx.branch.spec_name()),
                )
            } else {
                // no remote: merge locally into the first source
                post matches FlowState::MergeNext { ctx: c2, idx } && c2 == ctx && idx == 0
                    && act_run(
                    act,
                    spec_merge_local_cmd(
                        ctx.prefix@ + ctx.branch.spec_name(),
                        ctx.sources@[0].spec_full_name(&ctx.config),
                    ),
                )
            }
        },
        FlowState::FinishLsRemote { ctx } => {
            let already = ev_ok(ev) && commit_tokens_of(ev->Ok_0@).len() > 0;
            post matches FlowState::FinishPush { ctx: c2 } && c2 == ctx && act_run(
                act,
                spec_push_cmd(ctx.prefix@ + ctx.branch.spec_name(), !already),
            )
        },
        FlowState::FinishPush { ctx } => {
            if ev_ok(ev) {
                post matches FlowState::PublishUrl { ctx: c2, idx } && c2 == ctx && idx == 0
                    && act_run(act, "git remote -v"@)
            } else {
                steps_done_err(post, act, ev)
            }
        },
        FlowState::PublishUrl { ctx, idx } => {
            let url = match ev {
                Ok(out) => push_url_of(out@),
                Err(_) => None,
            };
            match url {
                Some(u) => post matches FlowState::PublishOpen { ctx: c2, idx: i2 } && c2 == ctx
                    && i2 == idx && act_open(
                    act,
                    spec_merge_request_url(
                        u,
                        ctx.branch.spec_full_name(&ctx.config),
                        ctx.sources@[*idx as int].spec_full_name(&ctx.config),
                    ),
                ),
                // no push URL: this source is skipped, the loop goes on
                None => publish_advance(ctx, *idx as int, post, act),
            }
        },
        FlowState::PublishOpen { ctx, idx } => {
            // a failed merge request does not abort the loop
            publish_advance(ctx, *idx as int, post, act)
        },
        FlowState::MergeNext { ctx, idx } => {
            // a failed local merge does not abort the loop
            if *idx as int + 1 < ctx.sources@.len() {
                post matches FlowState::MergeNext { ctx: c2, idx: i2 } && c2 == ctx && i2 == *idx
                    as int + 1 && act_run(
                    act,
                    spec_merge_local_cmd(
                        ctx.prefix@ + ctx.branch.spec_name(),
                        ctx.sources@[*idx as int + 1].spec_full_name(&ctx.config),
                    ),
                )
            } else {
                enter_tail(post, act, &ctx.branch, ctx.prefix@)
            }
        },
        FlowState::TailDevelop { branch, prefix } => {
            match ev {
                Err(_) => steps_done_kind(post, act, FlowError::ConfigKeyNotFound),
                Ok(v) => post matches FlowState::TailCheckout { branch: b2, prefix: p2 } && b2
                    == branch && p2@ == prefix@ && act_run(
                    act,
                    spec_checkout_cmd(spec_trim(v@), false),
                ),
            }
        },
        FlowState::TailCheckout { branch, prefix } => {
            if ev_ok(ev) {
                post matches FlowState::TailRemove { branch: b2, prefix: p2 } && b2 == branch
                    && p2@ == prefix@ && act_run(
                    act,
                    spec_remove_branch_cmd(prefix@ + branch.spec_name()),
                )
            } else {
                steps_done_err(post, act, ev)
            }
        },
        FlowState::TailRemove { branch, prefix } => {
            if ev_ok(ev) {
                steps_done_ok(post, act)
            } else {
                steps_done_err(post, act, ev)
            }
        },
        _ => true,
    }
}

/// The loop over sources advances past source `idx` whatever happened to it.
pub open spec fn publish_advance(ctx: &FinishCtx, idx: int, post: &FlowState, act: &Step) -> bool {
    if idx + 1 < ctx.sources@.len() {
        post matches FlowState::PublishUrl { ctx: c2, idx: i2 } && c2 == ctx && i2 == idx + 1
            && act_run(act, "git remote -v"@)
    } else {
        enter_tail(post, act, &ctx.branch, ctx.prefix@)
    }
}

/// The transition relation of the orchestrator: what follows each state for
/// each outcome the driver hands back.
pub open spec fn spec_step(
    pre: &FlowState,
    ev: &Result<String, String>,
    post: &FlowState,
    act: &Step,
) -> bool {
    match pre {
        FlowState::Finished { result } => {
            &&& post matches FlowState::Finished { result: r2 } && r2 == result
            &&& act matches Step::Done(r3) && r3 == result
        },
        _ => {
            &&& spec_step_init(pre, ev, post, act)
            &&& spec_step_start(pre, ev, post, act)
            &&& spec_step_finish(pre, ev, post, act)
        },
    }
}

fn finished_ok() -> (r: (FlowState, Step))
    ensures
        steps_done_ok(&r.0, &r.1),
        state_wf(&r.0),
{
    (FlowState::Finished { result: Ok(()) }, Step::Done(Ok(())))
}

fn finished_backend(msg: String) -> (r: (FlowState, Step))
    ensures
        r.0 matches FlowState::Finished { result } && (result matches Err(e) && (e matches
            FlowError::BackendCommandFailed(m) && m@ == msg@)),
        r.1 matches Step::Done(d) && (d matches Err(e) && (e matches
            FlowError::BackendCommandFailed(m) && m@ == msg@)),
        state_wf(&r.0),
{
    let m2 = msg.clone();
    (
        FlowState::Finished { result: Err(FlowError::BackendCommandFailed(m2)) },
        Step::Done(Err(FlowError::BackendCommandFailed(msg))),
    )
}

fn finished_kind(e: FlowError) -> (r: (FlowState, Step))
    ensures
        steps_done_kind(&r.0, &r.1, e),
        state_wf(&r.0),
{
    let e2 = e.clone();
    (FlowState::Finished { result: Err(e2) }, Step::Done(Err(e)))
}

fn clone_result(r: &Result<(), FlowError>) -> (c: Result<(), FlowError>)
    ensures
        c == *r,
{
    match r {
        Ok(u) => Ok(*u),
        Err(e) => Err(e.clone()),
    }
}

/// The borrowed prefix as the command builders take it: absent when empty.
fn opt_prefix(p: &String) -> (r: Option<&str>)
    ensures
        crate::gitv2::spec_opt_str(r) == p@,
{
    if p.as_str().unicode_len() > 0 {
        Some(p.as_str())
    } else {
        proof {
            assert(p@ =~= Seq::<char>::empty());
        }
        None
    }
}

/// The stored value at `i`, or empty where the lookup failed.
fn some_or_empty(v: &Vec<Option<String>>, i: usize) -> (r: String)
    requires
        i < v@.len(),
    ensures
        r@ == (match v.deep_view()[i as int] {
            Some(s) => s,
            None => Seq::<char>::empty(),
        }),
{
    match &v[i] {
        Some(s) => s.clone(),
        None => String::new(),
    }
}

/// The full configuration the six lookups describe, when all of them
/// answered.
fn build_config(vals: &Vec<Option<String>>) -> (r: Option<Config>)
    requires
        vals@.len() == 6,
    ensures
        config_opt_matches(&r, vals.deep_view()),
{
    proof {
        assert(forall|i: int|
            0 <= i < 6 ==> #[trigger] vals.deep_view()[i] == vals@[i].deep_view());
    }
    if vals[0].is_some() && vals[1].is_some() && vals[2].is_some() && vals[3].is_some()
        && vals[4].is_some() && vals[5].is_some() {
        assert(spec_all_found(vals.deep_view())) by {
            assert(forall|i: int|
                0 <= i < 6 ==> #[trigger] vals.deep_view()[i] == vals@[i].deep_view());
            assert(vals.deep_view()[0] is Some);
            assert(vals.deep_view()[1] is Some);
            assert(vals.deep_view()[2] is Some);
            assert(vals.deep_view()[3] is Some);
            assert(vals.deep_view()[4] is Some);
            assert(vals.deep_view()[5] is Some);
        }
        Some(
            Config {
                feature: some_or_empty(vals, 0),
                bugfix: some_or_empty(vals, 1),
                hotfix: some_or_empty(vals, 2),
                release: some_or_empty(vals, 3),
                develop: some_or_empty(vals, 4),
                main: some_or_empty(vals, 5),
            },
        )
    } else {
        assert(!spec_all_found(vals.deep_view())) by {
            if vals@[0] is None {
                assert(vals.deep_view()[0] is None);
            } else if vals@[1] is None {
                assert(vals.deep_view()[1] is None);
            } else if vals@[2] is None {
                assert(vals.deep_view()[2] is None);
            } else if vals@[3] is None {
                assert(vals.deep_view()[3] is None);
            } else if vals@[4] is None {
                assert(vals.deep_view()[4] is None);
            } else {
                assert(vals.deep_view()[5] is None);
            }
        }
        None
    }
}

/// The ref-level merge of the finished branch into source number `i`.
fn merge_cmd_for(ctx: &FinishCtx, i: usize) -> (cmd: String)
    requires
        i < ctx.sources@.len(),
    ensures
        cmd@ == spec_merge_local_cmd(
            ctx.prefix@ + ctx.branch.spec_name(),
            ctx.sources@[i as int].spec_full_name(&ctx.config),
        ),
{
    let target = &ctx.sources[i];
    let tp = target.prefix(&ctx.config);
    let tp_opt: Option<&str> = match &tp {
        Some(p) => Some(p.as_str()),
        None => None,
    };
    let sp_opt = opt_prefix(&ctx.prefix);
    let cmd = GitV2::merge_local(sp_opt, ctx.branch.name(), tp_opt, target.name());
    proof {
        match target.spec_prefix(&ctx.config) {
            Some(p) => {},
            None => {
                assert(Seq::<char>::empty() + target.spec_name() =~= target.spec_name());
            },
        }
    }
    cmd
}

/// Enters the common tail: look develop up, check it out, delete the branch.
fn goto_tail(branch: Branch, prefix: String) -> (r: (FlowState, Step))
    ensures
        enter_tail(&r.0, &r.1, &branch, prefix@),
        state_wf(&r.0),
{
    let cmd = Store::get(key_at(4));
    (FlowState::TailDevelop { branch, prefix }, Step::Run(cmd))
}

/// Moves the publish loop past source `idx`, into the tail after the last.
fn advance_publish(ctx: FinishCtx, idx: usize) -> (r: (FlowState, Step))
    requires
        idx < ctx.sources@.len(),
    ensures
        publish_advance(&ctx, idx as int, &r.0, &r.1),
        state_wf(&r.0),
{
    let n = ctx.sources.len();
    if idx + 1 < n {
        (FlowState::PublishUrl { ctx, idx: idx + 1 }, Step::Run(GitV2::remote_list()))
    } else {
        let FinishCtx { branch, prefix, config: _, sources: _ } = ctx;
        goto_tail(branch, prefix)
    }
}

/// Reads every cleaned ref into a typed branch; one unrecognized ref fails
/// the whole resolution, as the strict policy asks.
fn parse_refs(refs: &Vec<String>, cfg: &Config) -> (r: Result<Vec<Branch>, FlowError>)
    ensures
        ({
            let dv = refs.deep_view();
            if exists|i: int|
                0 <= i < dv.len() && (#[trigger] crate::branch::spec_parse(dv[i], cfg)) is None {
                r is Err && r->Err_0 is UnknownBranchPrefixOrName
            } else {
                r is Ok && r->Ok_0@.len() == dv.len() && forall|i: int|
                    0 <= i < dv.len() ==> is_branch(
                        &r->Ok_0@[i],
                        crate::branch::spec_parse(dv[i], cfg).unwrap().0,
                        crate::branch::spec_parse(dv[i], cfg).unwrap().1,
                    )
            }
        }),
{
    let ghost dv = refs.deep_view();
    let mut sources: Vec<Branch> = Vec::new();
    let n = refs.len();
    let mut i: usize = 0;
    while i < n
        invariant
            n == refs.len(),
            dv == refs.deep_view(),
            0 <= i <= n,
            sources@.len() == i,
            forall|j: int|
                0 <= j < i ==> (#[trigger] crate::branch::spec_parse(dv[j], cfg)) is Some,
            forall|j: int|
                0 <= j < i ==> is_branch(
                    &(#[trigger] sources@[j]),
                    crate::branch::spec_parse(dv[j], cfg).unwrap().0,
                    crate::branch::spec_parse(dv[j], cfg).unwrap().1,
                ),
        decreases n - i,
    {
        match Branch::from(refs[i].as_str(), cfg) {
            Ok(b) => {
                let ghost prev = sources@;
                sources.push(b);
                proof {
                    assert(sources@ == prev.push(b));
                    assert(forall|j: int| 0 <= j < i ==> #[trigger] sources@[j] == prev[j]);
                }
            },
            Err(_) => {
                assert(crate::branch::spec_parse(dv[i as int], cfg) is None);
                return Err(FlowError::UnknownBranchPrefixOrName);
            },
        }
        i = i + 1;
    }
    assert(forall|j: int|
        0 <= j < dv.len() ==> (#[trigger] crate::branch::spec_parse(dv[j], cfg)) is Some);
    Ok(sources)
}

/// The index of a category's prefix key.
fn cat_key_index(cat: Category) -> (r: usize)
    ensures
        r == spec_prefix_index(cat),
{
    match cat {
        Category::Feature => 0,
        Category::Bugfix => 1,
        Category::Hotfix => 2,
        Category::Release => 3,
        Category::Develop => 4,
        Category::Main => 5,
    }
}

impl FlowState {
    /// One move of the orchestrator: consumes the outcome of the work the
    /// current state was waiting for and yields the next state and the next
    /// piece of work, as the transition relation [`spec_step`] prescribes.
    pub fn step(self, outcome: Result<String, String>) -> (r: (FlowState, Step))
        requires
            state_wf(&self),
        ensures
            spec_step(&self, &outcome, &r.0, &r.1),
            state_wf(&r.0),
    {
        match self {
            FlowState::InitCheck { branch_names_found } => {
                match outcome {
                    Ok(_) => {
                        if branch_names_found == 5 {
                            finished_ok()
                        } else {
                            let next = branch_names_found + 1;
                            (
                                FlowState::InitCheck { branch_names_found: next },
                                Step::Run(Store::get(key_at(next as usize))),
                            )
                        }
                    },
                    Err(_) => (FlowState::InitStatus, Step::Run(GitV2::status())),
                }
            },
            FlowState::InitStatus => {
                match outcome {
                    Ok(_) => (
                        FlowState::AskName { names: Vec::new() },
                        Step::Ask(prompt_at(0).to_owned()),
                    ),
                    Err(_) => (FlowState::InitGitInit, Step::Run(GitV2::init())),
                }
            },
            FlowState::InitGitInit => {
                match outcome {
                    Ok(_) => (
                        FlowState::AskName { names: Vec::new() },
                        Step::Ask(prompt_at(0).to_owned()),
                    ),
                    Err(e) => finished_backend(e),
                }
            },
            FlowState::AskName { names } => {
                match outcome {
                    Err(e) => finished_backend(e),
                    Ok(line) => {
                        let k = names.len();
                        match normalize_branch_name(
                            line.as_str(),
                            default_name_at(k),
                            k < 4,
                            &names,
                        ) {
                            Err(_) => {
                                let p = prompt_at(k).to_owned();
                                (FlowState::AskName { names }, Step::Ask(p))
                            },
                            Ok(name) => {
                                let ghost old_names = names.deep_view();
                                let ghost nv = name@;
                                let mut names2 = names;
                                names2.push(name);
                                proof {
                                    lemma_deep_push_string(old_names, names2.deep_view(), nv);
                                }
                                if k == 5 {
                                    let cmd = GitV2::checkout(None, names2[5].as_str(), true);
                                    proof {
                                        assert(Seq::<char>::empty() + names2.deep_view()[5]
                                            =~= names2.deep_view()[5]);
                                    }
                                    (FlowState::CreateMain { names: names2 }, Step::Run(cmd))
                                } else {
                                    let p = prompt_at(k + 1).to_owned();
                                    (FlowState::AskName { names: names2 }, Step::Ask(p))
                                }
                            },
                        }
                    },
                }
            },
            FlowState::CreateMain { names } => {
                match outcome {
                    Ok(_) => {
                        let cmd = GitV2::push(names[5].as_str(), true);
                        (FlowState::PushMain { names }, Step::Run(cmd))
                    },
                    Err(e) => {
                        if crate::strutil::contains_sub(
                            e.as_str(),
                            crate::constants::BRANCH_ALREADY_EXISTS_SUFFIX,
                        ) {
                            let cmd = GitV2::checkout(None, names[5].as_str(), false);
                            proof {
                                assert(Seq::<char>::empty() + names.deep_view()[5]
                                    =~= names.deep_view()[5]);
                            }
                            (FlowState::CheckoutMain { names }, Step::Run(cmd))
                        } else {
                            finished_backend(e)
                        }
                    },
                }
            },
            FlowState::CheckoutMain { names } => {
                match outcome {
                    Ok(_) => {
                        let cmd = GitV2::push(names[5].as_str(), true);
                        (FlowState::PushMain { names }, Step::Run(cmd))
                    },
                    Err(e) => finished_backend(e),
                }
            },
            FlowState::PushMain { names } => {
                let mut files: Vec<String> = Vec::new();
                files.push((".").to_owned());
                let cmd = GitV2::add(files);
                proof {
                    reveal_strlit("git add ");
                    reveal_strlit(".");
                    reveal_strlit("git add .");
                    assert(cmd@ =~= "git add ."@);
                }
                (FlowState::AddAll { names }, Step::Run(cmd))
            },
            FlowState::AddAll { names } => {
                match outcome {
                    Ok(_) => {
                        let cmd = GitV2::commit(("Initial commit").to_owned(), false);
                        (FlowState::CommitAll { names }, Step::Run(cmd))
                    },
                    Err(e) => finished_backend(e),
                }
            },
            FlowState::CommitAll { names } => {
                let tolerated: bool = match &outcome {
                    Ok(_) => true,
                    Err(e) => crate::strutil::contains_sub(
                        e.as_str(),
                        crate::constants::NOTHING_TO_COMMIT_FRAGMENT,
                    ),
                };
                if tolerated {
                    let cmd = GitV2::branch(None, names[4].as_str());
                    proof {
                        assert(Seq::<char>::empty() + names.deep_view()[4]
                            =~= names.deep_view()[4]);
                    }
                    (FlowState::CreateDevelop { names }, Step::Run(cmd))
                } else {
                    match outcome {
                        Err(e) => finished_backend(e),
                        Ok(_) => {
                            proof {
                                assert(false);
                            }
                            finished_ok()
                        },
                    }
                }
            },
            FlowState::CreateDevelop { names } => {
                let tolerated: bool = match &outcome {
                    Ok(_) => true,
                    Err(e) => crate::strutil::contains_sub(
                        e.as_str(),
                        crate::constants::BRANCH_ALREADY_EXISTS_SUFFIX,
                    ),
                };
                if tolerated {
                    let cmd = GitV2::checkout(None, names[4].as_str(), false);
                    proof {
                        assert(Seq::<char>::empty() + names.deep_view()[4] =~= names.deep_view()[4]);
                    }
                    (FlowState::CheckoutDevelop { names }, Step::Run(cmd))
                } else {
                    match outcome {
                        Err(e) => finished_backend(e),
                        Ok(_) => {
                            proof {
                                assert(false);
                            }
                            finished_ok()
                        },
                    }
                }
            },
            FlowState::CheckoutDevelop { names } => {
                match outcome {
                    Ok(_) => {
                        let cmd = GitV2::push(names[4].as_str(), true);
                        (FlowState::PushDevelop { names }, Step::Run(cmd))
                    },
                    Err(e) => finished_backend(e),
                }
            },
            FlowState::PushDevelop { names } => {
                let cmd = Store::add(key_at(0), names[0].as_str());
                (FlowState::StoreNames { names, stored: 0 }, Step::Run(cmd))
            },
            FlowState::StoreNames { names, stored } => {
                match outcome {
                    Err(e) => finished_backend(e),
                    Ok(_) => {
                        if stored == 5 {
                            finished_ok()
                        } else {
                            let next = stored + 1;
                            let cmd = Store::add(key_at(next as usize), names[next as usize].as_str());
                            (FlowState::StoreNames { names, stored: next }, Step::Run(cmd))
                        }
                    },
                }
            },
            FlowState::StartPrefix { branch } => {
                let p: String = match outcome {
                    Ok(v) => trim(v.as_str()),
                    Err(_) => String::new(),
                };
                let cmd = Store::get(key_at(4));
                (FlowState::StartDevelop { branch, prefix: p }, Step::Run(cmd))
            },
            FlowState::StartDevelop { branch, prefix } => {
                match outcome {
                    Err(_) => finished_kind(FlowError::ConfigKeyNotFound),
                    Ok(v) => {
                        let d = trim(v.as_str());
                        let cmd = GitV2::checkout(None, d.as_str(), false);
                        proof {
                            assert(Seq::<char>::empty() + spec_trim(v@) =~= spec_trim(v@));
                        }
                        (FlowState::StartCheckoutDevelop { branch, prefix }, Step::Run(cmd))
                    },
                }
            },
            FlowState::StartCheckoutDevelop { branch, prefix } => {
                match outcome {
                    Ok(_) => {
                        let cmd = GitV2::checkout(opt_prefix(&prefix), branch.name(), true);
                        (FlowState::StartCreateBranch { branch, prefix }, Step::Run(cmd))
                    },
                    Err(e) => finished_backend(e),
                }
            },
            FlowState::StartCreateBranch { branch, prefix } => {
                match outcome {
                    Ok(_) => {
                        let mut full = prefix;
                        full.append(branch.name());
                        let cmd = GitV2::push(full.as_str(), true);
                        (FlowState::StartPush { branch }, Step::Run(cmd))
                    },
                    Err(e) => finished_backend(e),
                }
            },
            FlowState::StartPush { branch: _ } => finished_ok(),
            FlowState::FinishConfig { branch, vals } => {
                let added: Option<String> = match outcome {
                    Ok(v) => Some(trim(v.as_str())),
                    Err(_) => None,
                };
                let ghost old_vals = vals.deep_view();
                let ghost av = added.deep_view();
                let mut vals2 = vals;
                vals2.push(added);
                proof {
                    lemma_deep_push_opt(old_vals, vals2.deep_view(), av);
                }
                let k = vals2.len();
                if k < 6 {
                    let cmd = Store::get(key_at(k));
                    (FlowState::FinishConfig { branch, vals: vals2 }, Step::Run(cmd))
                } else {
                    let cat = branch.category();
                    let own: String = match cat {
                        Category::Feature => some_or_empty(&vals2, 0),
                        Category::Bugfix => some_or_empty(&vals2, 1),
                        Category::Hotfix => some_or_empty(&vals2, 2),
                        Category::Release => some_or_empty(&vals2, 3),
                        _ => String::new(),
                    };
                    match cat {
                        Category::Feature | Category::Develop | Category::Main => {
                            let cfg = build_config(&vals2);
                            let cmd = GitV2::exclusive_commits(opt_prefix(&own), branch.name());
                            (
                                FlowState::FinishExclusive { branch, prefix: own, config: cfg },
                                Step::Run(cmd),
                            )
                        },
                        _ => {
                            match build_config(&vals2) {
                                None => finished_kind(FlowError::ConfigKeyNotFound),
                                Some(cfg) => {
                                    match static_sources(&branch, &cfg) {
                                        Some(sources) => {
                                            let ctx = FinishCtx {
                                                branch,
                                                prefix: own,
                                                config: cfg,
                                                sources,
                                            };
                                            (
                                                FlowState::FinishRemote { ctx },
                                                Step::Run(GitV2::remote_list()),
                                            )
                                        },
                                        None => {
                                            proof {
                                                assert(false);
                                            }
                                            finished_kind(FlowError::ConfigKeyNotFound)
                                        },
                                    }
                                },
                            }
                        },
                    }
                }
            },
            FlowState::FinishExclusive { branch, prefix, config } => {
                match outcome {
                    Err(e) => finished_backend(e),
                    Ok(out) => {
                        let excl = crate::gitv2::find_commit_tokens(out.as_str());
                        let cmd = GitV2::all_commits(opt_prefix(&prefix), branch.name(), 100);
                        (
                            FlowState::FinishWindow { branch, prefix, config, exclusive: excl },
                            Step::Run(cmd),
                        )
                    },
                }
            },
            FlowState::FinishWindow { branch, prefix, config, exclusive } => {
                match outcome {
                    Err(e) => finished_backend(e),
                    Ok(out) => {
                        let window = crate::gitv2::find_commit_tokens(out.as_str());
                        match first_shared_commit(&window, &exclusive) {
                            None => finished_kind(FlowError::NoSourceBranchFound),
                            Some(c) => {
                                let cmd = GitV2::branches_containing(c.as_str());
                                (
                                    FlowState::FinishRefs { branch, prefix, config },
                                    Step::Run(cmd),
                                )
                            },
                        }
                    },
                }
            },
            FlowState::FinishRefs { branch, prefix, config } => {
                match outcome {
                    Err(e) => finished_backend(e),
                    Ok(out) => {
                        let refs = GitV2::source_branches(
                            out.as_str(),
                            prefix.as_str(),
                            branch.name(),
                        );
                        if refs.len() == 0 {
                            finished_kind(FlowError::NoSourceBranchFound)
                        } else {
                            match config {
                                None => finished_kind(FlowError::ConfigKeyNotFound),
                                Some(cfg) => {
                                    match parse_refs(&refs, &cfg) {
                                        Err(_) => finished_kind(
                                            FlowError::UnknownBranchPrefixOrName,
                                        ),
                                        Ok(sources) => {
                                            let ctx = FinishCtx {
                                                branch,
                                                prefix,
                                                config: cfg,
                                                sources,
                                            };
                                            (FlowState::FinishRemote { ctx }, Step::Run(
                                                GitV2::remote_list(),
                                            ))
                                        },
                                    }
                                },
                            }
                        }
                    },
                }
            },
            FlowState::FinishRemote { ctx } => {
                if GitV2::is_remote(&outcome) {
                    let mut full = ctx.prefix.clone();
                    full.append(ctx.branch.name());
                    let cmd = GitV2::ls_remote(full.as_str());
                    (FlowState::FinishLsRemote { ctx }, Step::Run(cmd))
                } else {
                    let cmd = merge_cmd_for(&ctx, 0);
                    (FlowState::MergeNext { ctx, idx: 0 }, Step::Run(cmd))
                }
            },
            FlowState::FinishLsRemote { ctx } => {
                let already = GitV2::exists_remote(&outcome);
                let mut full = ctx.prefix.clone();
                full.append(ctx.branch.name());
                let cmd = GitV2::push(full.as_str(), !already);
                (FlowState::FinishPush { ctx }, Step::Run(cmd))
            },
            FlowState::FinishPush { ctx } => {
                match outcome {
                    Ok(_) => (
                        FlowState::PublishUrl { ctx, idx: 0 },
                        Step::Run(GitV2::remote_list()),
                    ),
                    Err(e) => finished_backend(e),
                }
            },
            FlowState::PublishUrl { ctx, idx } => {
                match outcome {
                    Ok(out) => {
                        match Browser::merge_request(
                            &ctx.branch,
                            &ctx.sources[idx],
                            &ctx.config,
                            out.as_str(),
                        ) {
                            Ok(url) => (
                                FlowState::PublishOpen { ctx, idx },
                                Step::OpenUrl(url),
                            ),
                            Err(_) => advance_publish(ctx, idx),
                        }
                    },
                    Err(_) => advance_publish(ctx, idx),
                }
            },
            FlowState::PublishOpen { ctx, idx } => advance_publish(ctx, idx),
            FlowState::MergeNext { ctx, idx } => {
                let n = ctx.sources.len();
                if idx + 1 < n {
                    let cmd = merge_cmd_for(&ctx, idx + 1);
                    (FlowState::MergeNext { ctx, idx: idx + 1 }, Step::Run(cmd))
                } else {
                    let FinishCtx { branch, prefix, config: _, sources: _ } = ctx;
                    goto_tail(branch, prefix)
                }
            },
            FlowState::TailDevelop { branch, prefix } => {
                match outcome {
                    Err(_) => finished_kind(FlowError::ConfigKeyNotFound),
                    Ok(v) => {
                        let d = trim(v.as_str());
                        let cmd = GitV2::checkout(None, d.as_str(), false);
                        proof {
                            assert(Seq::<char>::empty() + spec_trim(v@) =~= spec_trim(v@));
                        }
                        (FlowState::TailCheckout { branch, prefix }, Step::Run(cmd))
                    },
                }
            },
            FlowState::TailCheckout { branch, prefix } => {
                match outcome {
                    Ok(_) => {
                        let cmd = GitV2::remove_local_branch(opt_prefix(&prefix), branch.name());
                        (FlowState::TailRemove { branch, prefix }, Step::Run(cmd))
                    },
                    Err(e) => finished_backend(e),
                }
            },
            FlowState::TailRemove { branch: _, prefix: _ } => {
                match outcome {
                    Ok(_) => finished_ok(),
                    Err(e) => finished_backend(e),
                }
            },
            FlowState::Finished { result } => {
                let r2 = clone_result(&result);
                (FlowState::Finished { result }, Step::Done(r2))
            },
        }
    }
}

proof fn lemma_deep_push_string(old_dv: Seq<Seq<char>>, new_dv: Seq<Seq<char>>, added: Seq<char>)
    requires
        new_dv.len() == old_dv.len() + 1,
        forall|j: int| 0 <= j < old_dv.len() ==> new_dv[j] == #[trigger] old_dv[j],
        new_dv[old_dv.len() as int] == added,
    ensures
        new_dv == old_dv.push(added),
{
    assert(new_dv =~~= old_dv.push(added));
}

proof fn lemma_deep_push_opt(
    old_dv: Seq<Option<Seq<char>>>,
    new_dv: Seq<Option<Seq<char>>>,
    added: Option<Seq<char>>,
)
    requires
        new_dv.len() == old_dv.len() + 1,
        forall|j: int| 0 <= j < old_dv.len() ==> new_dv[j] == #[trigger] old_dv[j],
        new_dv[old_dv.len() as int] == added,
    ensures
        new_dv == old_dv.push(added),
{
    assert(new_dv =~= old_dv.push(added));
}

/// What starting an action yields: the first state and the first piece of
/// work of its workflow.
pub open spec fn spec_execute(a: &Action, post: &FlowState, act: &Step) -> bool {
    match a {
        Action::Init => post matches FlowState::InitCheck { branch_names_found } &&
            branch_names_found == 0 && act_get_key(act, 0),
        Action::Start(b, _) => {
            if spec_has_prefix(b.spec_category()) {
                post matches FlowState::StartPrefix { branch } && branch == b && act_get_key(
                    act,
                    spec_prefix_index(b.spec_category()),
                )
            } else {
                post matches FlowState::StartDevelop { branch, prefix } && branch == b && prefix@
                    == Seq::<char>::empty() && act_get_key(act, 4)
            }
        },
        Action::Finish(b) => post matches FlowState::FinishConfig { branch, vals } && branch == b
            && vals@.len() == 0 && act_get_key(act, 0),
    }
}

impl Action {
    /// Starts the workflow this action asks for; the driver then feeds
    /// outcomes to [`FlowState::step`] until it reports `Done`.
    pub fn execute(&self) -> (r: (FlowState, Step))
        ensures
            spec_execute(self, &r.0, &r.1),
            state_wf(&r.0),
    {
        match self {
            Action::Init => (
                FlowState::InitCheck { branch_names_found: 0 },
                Step::Run(Store::get(key_at(0))),
            ),
            Action::Start(b, _) => {
                let cat = b.category();
                match cat {
                    Category::Feature | Category::Bugfix | Category::Hotfix
                    | Category::Release => {
                        let i = cat_key_index(cat);
                        (
                            FlowState::StartPrefix { branch: b.clone() },
                            Step::Run(Store::get(key_at(i))),
                        )
                    },
                    _ => (
                        FlowState::StartDevelop { branch: b.clone(), prefix: String::new() },
                        Step::Run(Store::get(key_at(4))),
                    ),
                }
            },
            Action::Finish(b) => (
                FlowState::FinishConfig { branch: b.clone(), vals: Vec::new() },
                Step::Run(Store::get(key_at(0))),
            ),
        }
    }
}

/// The states of the finish workflow's local path: the merge loop, the
/// common tail, and the end.
pub open spec fn local_phase(s: &FlowState) -> bool {
    ||| s is MergeNext
    ||| s is TailDevelop
    ||| s is TailCheckout
    ||| s is TailRemove
    ||| s is Finished
}

/// No-remote finish, entry: when the remote listing shows no remote, the
/// workflow turns to the local-merge loop, beginning with the merge of the
/// first resolved source — never to the publisher.
pub proof fn lemma_no_remote_enters_local(
    pre: &FlowState,
    ev: &Result<String, String>,
    post: &FlowState,
    act: &Step,
)
    requires
        state_wf(pre),
        spec_step(pre, ev, post, act),
        pre matches FlowState::FinishRemote { .. },
        !(ev_ok(ev) && spec_trim(ev->Ok_0@).len() > 0),
    ensures
        pre matches FlowState::FinishRemote { ctx } ==> (post matches FlowState::MergeNext {
            ctx: c2,
            idx,
        } && c2 == ctx && idx == 0 && act_run(
            act,
            spec_merge_local_cmd(
                ctx.prefix@ + ctx.branch.spec_name(),
                ctx.sources@[0].spec_full_name(&ctx.config),
            ),
        )),
        !(act is OpenUrl),
        local_phase(post),
{
}

/// No-remote finish, closure: from any state of the local path, a step stays
/// on the local path and never asks to open a URL.  Together with the entry
/// lemma this shows the publisher is never invoked once the remote listing
/// showed no remote.
pub proof fn lemma_local_phase_never_publishes(
    pre: &FlowState,
    ev: &Result<String, String>,
    post: &FlowState,
    act: &Step,
)
    requires
        state_wf(pre),
        spec_step(pre, ev, post, act),
        local_phase(pre),
    ensures
        local_phase(post),
        !(act is OpenUrl),
{
}

/// No-remote finish, progress: in the merge loop each step issues the merge
/// of the next source, in order and whatever the previous merge's outcome,
/// and moves into the common tail after the last one.  Every resolved source
/// therefore receives its local merge.
pub proof fn lemma_local_merges_every_source(
    pre: &FlowState,
    ev: &Result<String, String>,
    post: &FlowState,
    act: &Step,
)
    requires
        state_wf(pre),
        spec_step(pre, ev, post, act),
        pre matches FlowState::MergeNext { .. },
    ensures
        pre matches FlowState::MergeNext { ctx, idx } ==> (if idx + 1 < ctx.sources@.len() {
            post matches FlowState::MergeNext { ctx: c2, idx: i2 } && c2 == ctx && i2 == idx + 1
                && act_run(
                act,
                spec_merge_local_cmd(
                    ctx.prefix@ + ctx.branch.spec_name(),
                    ctx.sources@[idx + 1 as int].spec_full_name(&ctx.config),
                ),
            )
        } else {
            enter_tail(post, act, &ctx.branch, ctx.prefix@)
        }),
{
}

/// Partial-failure continuation: with two resolved sources, after the first
/// merge request failed — whatever way — the workflow still requests the
/// second one's remote listing, still opens the second URL when the listing
/// shows a push URL, and still reaches the common tail afterwards.
pub proof fn lemma_partial_failure_continuation(
    ctx: &FinishCtx,
    e0: &Result<String, String>,
    s1: &FlowState,
    a1: &Step,
    e1: &Result<String, String>,
    s2: &FlowState,
    a2: &Step,
    e2: &Result<String, String>,
    s3: &FlowState,
    a3: &Step,
)
    requires
        ctx.sources@.len() == 2,
        spec_step(&FlowState::PublishOpen { ctx: *ctx, idx: 0 }, e0, s1, a1),
        spec_step(s1, e1, s2, a2),
        spec_step(s2, e2, s3, a3),
        e1 is Ok && push_url_of(e1->Ok_0@) is Some,
    ensures
        s1 matches FlowState::PublishUrl { ctx: c1, idx: i1 } && c1 == ctx && i1 == 1,
        act_run(a1, "git remote -v"@),
        s2 matches FlowState::PublishOpen { ctx: c2, idx: i2 } && c2 == ctx && i2 == 1,
        act_open(
            a2,
            spec_merge_request_url(
                push_url_of(e1->Ok_0@).unwrap(),
                ctx.branch.spec_full_name(&ctx.config),
                ctx.sources@[1].spec_full_name(&ctx.config),
            ),
        ),
        enter_tail(s3, a3, &ctx.branch, ctx.prefix@),
{
}

/// Divergence resolution, in general: for any queried window and exclusive
/// set, the finish workflow takes as divergence point the first windowed
/// commit shared with some other ref — the oldest windowed commit when every
/// one is exclusive — and asks which refs contain it; and for any ref
/// listing, the resolved sources are exactly the cleaned refs other than the
/// branch's own full name, each read as a typed branch, with the owed error
/// kind when the window is empty, a ref is unrecognized, no other ref
/// remains, or the configuration is incomplete.
pub proof fn lemma_divergence_resolution(
    pre: &FlowState,
    e1: &Result<String, String>,
    s1: &FlowState,
    a1: &Step,
    e2: &Result<String, String>,
    s2: &FlowState,
    a2: &Step,
)
    requires
        spec_step(pre, e1, s1, a1),
        spec_step(s1, e2, s2, a2),
        pre matches FlowState::FinishWindow { .. },
        e1 is Ok,
        e2 is Ok,
    ensures
        pre matches FlowState::FinishWindow { branch, prefix, config, exclusive } ==> (match
            spec_first_shared(commit_tokens_of(e1->Ok_0@), exclusive.deep_view()) {
            None => steps_done_kind(s1, a1, FlowError::NoSourceBranchFound),
            Some(c) => {
                let refs = spec_source_branches(
                    spec_lines(e2->Ok_0@),
                    prefix@ + branch.spec_name(),
                );
                &&& act_run(a1, "git branch -a --contains "@ + c)
                &&& if refs.len() == 0 {
                    steps_done_kind(s2, a2, FlowError::NoSourceBranchFound)
                } else if config is None {
                    steps_done_kind(s2, a2, FlowError::ConfigKeyNotFound)
                } else if exists|i: int|
                    0 <= i < refs.len() && (#[trigger] crate::branch::spec_parse(
                        refs[i],
                        &config.unwrap(),
                    )) is None {
                    steps_done_kind(s2, a2, FlowError::UnknownBranchPrefixOrName)
                } else {
                    s2 matches FlowState::FinishRemote { ctx } && ctx.branch == branch
                        && sources_are_parsed(&ctx, refs, &config.unwrap())
                }
            },
        }),
{
}

/// Hotfix sourcing at the orchestrator: when loading the last configuration
/// value moves a hotfix finish onward, the resolved source set is exactly
/// main then develop — both always present, whatever the commit graph holds.
pub proof fn lemma_hotfix_finish_sources(
    pre: &FlowState,
    ev: &Result<String, String>,
    post: &FlowState,
    act: &Step,
)
    requires
        state_wf(pre),
        spec_step(pre, ev, post, act),
        pre matches FlowState::FinishConfig { branch, vals } && (vals@.len() == 5
            && branch.spec_category() == Category::Hotfix),
        post matches FlowState::FinishRemote { .. },
    ensures
        post matches FlowState::FinishRemote { ctx } ==> (ctx.sources@.len() == 2 && is_branch(
            &ctx.sources@[0],
            Category::Main,
            ctx.config.main@,
        ) && is_branch(&ctx.sources@[1], Category::Develop, ctx.config.develop@)),
{
}

/// The init workflow as its own entry points.
pub struct Script;

impl Script {
    /// Reads the outcomes of the six key lookups: the flow is initiated
    /// exactly when every one of them succeeded.
    pub fn is_initiated(outcomes: &Vec<Result<String, String>>) -> (r: bool)
        ensures
            r == (outcomes@.len() == 6 && forall|i: int| 0 <= i < 6 ==> outcomes@[i] is Ok),
    {
        if outcomes.len() != 6 {
            return false;
        }
        let mut i: usize = 0;
        while i < 6
            invariant
                outcomes@.len() == 6,
                0 <= i <= 6,
                forall|j: int| 0 <= j < i ==> outcomes@[j] is Ok,
            decreases 6 - i,
        {
            match &outcomes[i] {
                Ok(_) => {},
                Err(_) => {
                    return false;
                },
            }
            i = i + 1;
        }
        true
    }

    /// Starts the creation flow directly, skipping the already-initiated
    /// probe: the first step asks whether a repository exists at all.
    pub fn create() -> (r: (FlowState, Step))
        ensures
            r.0 is InitStatus,
            r.1 matches Step::Run(cmd) && cmd@ == "git status"@,
            state_wf(&r.0),
    {
        (FlowState::InitStatus, Step::Run(GitV2::status()))
    }
}

} // verus!
