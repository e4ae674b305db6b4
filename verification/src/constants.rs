//! The fixed keys under which the configuration store holds the six branch
//! names, and the fragment by which the backend reports an existing branch.

use vstd::prelude::*;

verus! {

pub const FEATURE_BRANCH_NAME_KEY: &'static str = "lab.flow.branch.feature";

pub const BUGFIX_BRANCH_NAME_KEY: &'static str = "lab.flow.branch.bugfix";

pub const HOTFIX_BRANCH_NAME_KEY: &'static str = "lab.flow.branch.hotfix";

pub const RELEASE_BRANCH_NAME_KEY: &'static str = "lab.flow.branch.release";

pub const DEVELOP_BRANCH_NAME_KEY: &'static str = "lab.flow.branch.develop";

pub const MAIN_BRANCH_NAME_KEY: &'static str = "lab.flow.branch.main";

pub const BRANCH_ALREADY_EXISTS_SUFFIX: &'static str = "already exists";

pub const NOTHING_TO_COMMIT_FRAGMENT: &'static str = "nothing to commit";

} // verus!
