//! The branch model: categories, configured prefixes and full names, and the
//! total mapping between raw ref names and typed branches.
//!
//! A branch is a category plus a bare name.  The four prefixed categories
//! (feature, hotfix, bugfix, release) form their full ref name by prepending a
//! configured prefix that ends in `/`; develop and main are matched by their
//! exact configured full name.

use vstd::prelude::*;

use crate::strutil::{last_slash_index, str_eq};
use crate::FlowError;

verus! {

/// The six configured names: four category prefixes and the develop and main
/// full names, as the configuration store holds them.
pub struct Config {
    pub feature: String,
    pub bugfix: String,
    pub hotfix: String,
    pub release: String,
    pub develop: String,
    pub main: String,
}

impl Config {
    /// A well-formed configuration: prefixes end in `/` and are pairwise
    /// distinct, the develop and main names are nonempty, slash-free and
    /// distinct.  Branch parsing is unambiguous exactly under these rules.
    pub open spec fn wf(&self) -> bool {
        &&& self.feature@.len() > 0 && self.feature@.last() == '/'
        &&& self.bugfix@.len() > 0 && self.bugfix@.last() == '/'
        &&& self.hotfix@.len() > 0 && self.hotfix@.last() == '/'
        &&& self.release@.len() > 0 && self.release@.last() == '/'
        &&& self.feature@ != self.bugfix@ && self.feature@ != self.hotfix@ && self.feature@
            != self.release@
        &&& self.bugfix@ != self.hotfix@ && self.bugfix@ != self.release@
        &&& self.hotfix@ != self.release@
        &&& self.develop@.len() > 0 && !self.develop@.contains('/')
        &&& self.main@.len() > 0 && !self.main@.contains('/')
        &&& self.develop@ != self.main@
    }
}

/// The semantic category of a branch.
#[derive(Clone, Copy, Debug, PartialEq, Eq, Structural)]
pub enum Category {
    Feature,
    Hotfix,
    Bugfix,
    Release,
    Develop,
    Main,
}

/// A typed branch: a category carrying the bare branch name (no prefix).
#[derive(Debug, PartialEq)]
pub enum Branch {
    Feature(String),
    Hotfix(String),
    Bugfix(String),
    Release(String),
    Develop(String),
    Main(String),
}

impl Clone for Branch {
    /// A clone is equal to the original.
    fn clone(&self) -> (r: Self)
        ensures
            r == *self,
    {
        match self {
            Branch::Feature(n) => Branch::Feature(n.clone()),
            Branch::Hotfix(n) => Branch::Hotfix(n.clone()),
            Branch::Bugfix(n) => Branch::Bugfix(n.clone()),
            Branch::Release(n) => Branch::Release(n.clone()),
            Branch::Develop(n) => Branch::Develop(n.clone()),
            Branch::Main(n) => Branch::Main(n.clone()),
        }
    }
}

impl Branch {
    /// The category of this branch.
    pub open spec fn spec_category(&self) -> Category {
        match self {
            Branch::Feature(_) => Category::Feature,
            Branch::Hotfix(_) => Category::Hotfix,
            Branch::Bugfix(_) => Category::Bugfix,
            Branch::Release(_) => Category::Release,
            Branch::Develop(_) => Category::Develop,
            Branch::Main(_) => Category::Main,
        }
    }

    /// The bare name this branch carries.
    pub open spec fn spec_name(&self) -> Seq<char> {
        match self {
            Branch::Feature(n) => n@,
            Branch::Hotfix(n) => n@,
            Branch::Bugfix(n) => n@,
            Branch::Release(n) => n@,
            Branch::Develop(n) => n@,
            Branch::Main(n) => n@,
        }
    }

    /// The configured prefix of this branch's category; develop and main have
    /// none.
    pub open spec fn spec_prefix(&self, config: &Config) -> Option<Seq<char>> {
        match self {
            Branch::Feature(_) => Some(config.feature@),
            Branch::Hotfix(_) => Some(config.hotfix@),
            Branch::Bugfix(_) => Some(config.bugfix@),
            Branch::Release(_) => Some(config.release@),
            Branch::Develop(_) => None,
            Branch::Main(_) => None,
        }
    }

    /// The full ref name: prefix followed by bare name.
    pub open spec fn spec_full_name(&self, config: &Config) -> Seq<char> {
        match self.spec_prefix(config) {
            Some(p) => p + self.spec_name(),
            None => self.spec_name(),
        }
    }

    pub fn category(&self) -> (c: Category)
        ensures
            c == self.spec_category(),
    {
        match self {
            Branch::Feature(_) => Category::Feature,
            Branch::Hotfix(_) => Category::Hotfix,
            Branch::Bugfix(_) => Category::Bugfix,
            Branch::Release(_) => Category::Release,
            Branch::Develop(_) => Category::Develop,
            Branch::Main(_) => Category::Main,
        }
    }

    /// The bare name of the branch.
    pub fn name(&self) -> (r: &str)
        ensures
            r@ == self.spec_name(),
    {
        match self {
            Branch::Feature(n) => n.as_str(),
            Branch::Hotfix(n) => n.as_str(),
            Branch::Bugfix(n) => n.as_str(),
            Branch::Release(n) => n.as_str(),
            Branch::Develop(n) => n.as_str(),
            Branch::Main(n) => n.as_str(),
        }
    }

    /// The configured prefix for this branch, if its category has one.
    pub fn prefix(&self, config: &Config) -> (r: Option<String>)
        ensures
            r.deep_view() == self.spec_prefix(config),
    {
        match self {
            Branch::Feature(_) => Some(config.feature.clone()),
            Branch::Hotfix(_) => Some(config.hotfix.clone()),
            Branch::Bugfix(_) => Some(config.bugfix.clone()),
            Branch::Release(_) => Some(config.release.clone()),
            Branch::Develop(_) => None,
            Branch::Main(_) => None,
        }
    }

    /// The full ref name of the branch under `config`.
    pub fn full_name(&self, config: &Config) -> (r: String)
        ensures
            r@ == self.spec_full_name(config),
    {
        let mut r = String::new();
        match self.prefix(config) {
            Some(p) => {
                r.append(p.as_str());
            },
            None => {},
        }
        r.append(self.name());
        proof {
            match self.spec_prefix(config) {
                Some(p) => {
                    assert(r@ =~= p + self.spec_name());
                },
                None => {
                    assert(r@ =~= self.spec_name());
                },
            }
        }
        r
    }

    /// Parses a raw ref name into a typed branch: the name is split at its
    /// last `/`; what precedes it (slash included) must be a configured
    /// prefix, a slash-free name must equal the develop or main full name.
    /// Unrecognized refs give `UnknownBranchPrefixOrName`.
    pub fn from(branch_full_name: &str, config: &Config) -> (r: Result<Branch, FlowError>)
        ensures
            match spec_parse(branch_full_name@, config) {
                Some((cat, n)) => r is Ok && r->Ok_0.spec_category() == cat
                    && r->Ok_0.spec_name() == n,
                None => r is Err && r->Err_0 is UnknownBranchPrefixOrName,
            },
    {
        let len: usize = branch_full_name.unicode_len();
        match last_slash_index(branch_full_name) {
            Some(i) => {
                proof {
                    lemma_last_slash_at(branch_full_name@, i as int);
                }
                let prefix = branch_full_name.substring_char(0, i + 1).to_owned();
                let name = branch_full_name.substring_char(i + 1, len);
                get_config_branch(Some(prefix), name, config)
            },
            None => {
                proof {
                    lemma_last_slash_none(branch_full_name@);
                }
                get_config_branch(None, branch_full_name, config)
            },
        }
    }
}

/// The category whose configured prefix is exactly `p`, if any; tried in the
/// order feature, hotfix, bugfix, release.
pub open spec fn spec_match_prefix(p: Seq<char>, config: &Config) -> Option<Category> {
    if p == config.feature@ {
        Some(Category::Feature)
    } else if p == config.hotfix@ {
        Some(Category::Hotfix)
    } else if p == config.bugfix@ {
        Some(Category::Bugfix)
    } else if p == config.release@ {
        Some(Category::Release)
    } else {
        None
    }
}

/// The category whose configured full name is exactly `n`, if any; develop is
/// tried before main.
pub open spec fn spec_match_bare(n: Seq<char>, config: &Config) -> Option<Category> {
    if n == config.develop@ {
        Some(Category::Develop)
    } else if n == config.main@ {
        Some(Category::Main)
    } else {
        None
    }
}

/// Index of the last `/` in `s`, or `-1` if there is none.
pub open spec fn spec_last_slash(s: Seq<char>) -> int
    decreases s.len(),
{
    if s.len() == 0 {
        -1
    } else if s.last() == '/' {
        s.len() - 1
    } else {
        spec_last_slash(s.drop_last())
    }
}

/// What parsing a raw ref name yields: the category and bare name, or nothing
/// when the ref matches no configured prefix or full name.
pub open spec fn spec_parse(full: Seq<char>, config: &Config) -> Option<(Category, Seq<char>)> {
    let ls = spec_last_slash(full);
    if ls >= 0 {
        match spec_match_prefix(full.subrange(0, ls + 1), config) {
            Some(cat) => Some((cat, full.subrange(ls + 1, full.len() as int))),
            None => None,
        }
    } else {
        match spec_match_bare(full, config) {
            Some(cat) => Some((cat, full)),
            None => None,
        }
    }
}

proof fn lemma_last_slash_at(s: Seq<char>, i: int)
    requires
        0 <= i < s.len(),
        s[i] == '/',
        forall|j: int| i < j < s.len() ==> s[j] != '/',
    ensures
        spec_last_slash(s) == i,
    decreases s.len(),
{
    if i < s.len() - 1 {
        assert(s.last() != '/');
        lemma_last_slash_at(s.drop_last(), i);
    }
}

proof fn lemma_last_slash_none(s: Seq<char>)
    requires
        forall|j: int| 0 <= j < s.len() ==> s[j] != '/',
    ensures
        spec_last_slash(s) == -1,
    decreases s.len(),
{
    if s.len() > 0 {
        lemma_last_slash_none(s.drop_last());
    }
}

/// Maps a split ref name (optional prefix, bare name) to a typed branch by
/// comparison with the configured prefixes and full names; an unknown prefix
/// or name is a typed error, never a panic.
pub fn get_config_branch(prefix: Option<String>, name: &str, config: &Config) -> (r: Result<
    Branch,
    FlowError,
>)
    ensures
        match prefix {
            Some(p) => match spec_match_prefix(p@, config) {
                Some(cat) => r is Ok && r->Ok_0.spec_category() == cat && r->Ok_0.spec_name()
                    == name@,
                None => r is Err && r->Err_0 is UnknownBranchPrefixOrName,
            },
            None => match spec_match_bare(name@, config) {
                Some(cat) => r is Ok && r->Ok_0.spec_category() == cat && r->Ok_0.spec_name()
                    == name@,
                None => r is Err && r->Err_0 is UnknownBranchPrefixOrName,
            },
        },
{
    match prefix {
        Some(p) => {
            if str_eq(p.as_str(), config.feature.as_str()) {
                Ok(Branch::Feature(name.to_owned()))
            } else if str_eq(p.as_str(), config.hotfix.as_str()) {
                Ok(Branch::Hotfix(name.to_owned()))
            } else if str_eq(p.as_str(), config.bugfix.as_str()) {
                Ok(Branch::Bugfix(name.to_owned()))
            } else if str_eq(p.as_str(), config.release.as_str()) {
                Ok(Branch::Release(name.to_owned()))
            } else {
                Err(FlowError::UnknownBranchPrefixOrName)
            }
        },
        None => {
            if str_eq(name, config.develop.as_str()) {
                Ok(Branch::Develop(name.to_owned()))
            } else if str_eq(name, config.main.as_str()) {
                Ok(Branch::Main(name.to_owned()))
            } else {
                Err(FlowError::UnknownBranchPrefixOrName)
            }
        },
    }
}

/// `b` was built against `config`: its name is slash-free, and a develop or
/// main branch carries exactly the configured full name.
pub open spec fn consistent_with(b: &Branch, config: &Config) -> bool {
    &&& !b.spec_name().contains('/')
    &&& (b.spec_category() == Category::Develop ==> b.spec_name() == config.develop@)
    &&& (b.spec_category() == Category::Main ==> b.spec_name() == config.main@)
}

/// Round trip: under a well-formed configuration, parsing the full ref name
/// of any consistently built branch recovers exactly its category and bare
/// name.
pub proof fn lemma_branch_round_trip(b: &Branch, config: &Config)
    requires
        config.wf(),
        consistent_with(b, config),
    ensures
        spec_parse(b.spec_full_name(config), config) == Some(
            (b.spec_category(), b.spec_name()),
        ),
{
    let full = b.spec_full_name(config);
    match b.spec_prefix(config) {
        Some(p) => {
            let i = p.len() - 1;
            assert(full[i] == '/');
            assert(forall|j: int| i < j < full.len() ==> full[j] == b.spec_name()[j - p.len()]);
            assert(forall|j: int| i < j < full.len() ==> full[j] != '/') by {
                assert(forall|k: int|
                    0 <= k < b.spec_name().len() ==> #[trigger] b.spec_name()[k] != '/');
            };
            lemma_last_slash_at(full, i);
            assert(full.subrange(0, i + 1) =~= p);
            assert(full.subrange(i + 1, full.len() as int) =~= b.spec_name());
        },
        None => {
            assert(forall|j: int| 0 <= j < full.len() ==> full[j] != '/');
            lemma_last_slash_none(full);
        },
    }
}

} // verus!
