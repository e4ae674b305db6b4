//! The source-resolution core.
//!
//! For a feature branch, the flow estimates the branch's divergence point
//! from the commit graph: the first commit of the bounded window that is
//! shared with some other ref, falling back to the oldest commit of the
//! window when every windowed commit is exclusive.  For the other prefixed
//! categories the flow uses the category-driven table: a hotfix converges
//! into main and develop, a bugfix into develop, a release into main.

use vstd::prelude::*;

use crate::branch::{Branch, Category, Config};
use crate::strutil::str_eq;

verus! {

/// `x` equals some element of `e`.
pub open spec fn in_commit_set(x: Seq<char>, e: Seq<Seq<char>>) -> bool {
    exists|j: int| 0 <= j < e.len() && e[j] == x
}

/// Index of the first element of `w` that is not in `e`; `w.len()` when every
/// element is.
pub open spec fn first_not_in(w: Seq<Seq<char>>, e: Seq<Seq<char>>) -> int
    decreases w.len(),
{
    if w.len() == 0 {
        0
    } else if !in_commit_set(w[0], e) {
        0
    } else {
        1 + first_not_in(w.drop_first(), e)
    }
}

/// The divergence-point estimate: the first windowed commit shared with some
/// other ref, the oldest windowed commit as fallback, nothing on an empty
/// window.
pub open spec fn spec_first_shared(w: Seq<Seq<char>>, e: Seq<Seq<char>>) -> Option<Seq<char>> {
    if w.len() == 0 {
        None
    } else if first_not_in(w, e) < w.len() {
        Some(w[first_not_in(w, e)])
    } else {
        Some(w.last())
    }
}

proof fn lemma_first_not_in_at(w: Seq<Seq<char>>, e: Seq<Seq<char>>, i: int)
    requires
        0 <= i < w.len(),
        !in_commit_set(w[i], e),
        forall|j: int| 0 <= j < i ==> in_commit_set(w[j], e),
    ensures
        first_not_in(w, e) == i,
    decreases i,
{
    if i > 0 {
        lemma_first_not_in_at(w.drop_first(), e, i - 1);
    }
}

proof fn lemma_first_not_in_all(w: Seq<Seq<char>>, e: Seq<Seq<char>>)
    requires
        forall|j: int| 0 <= j < w.len() ==> in_commit_set(w[j], e),
    ensures
        first_not_in(w, e) == w.len(),
    decreases w.len(),
{
    if w.len() > 0 {
        lemma_first_not_in_all(w.drop_first(), e);
    }
}

/// Fallback bound: when the exclusive set covers the whole window — as it
/// does for a branch with more exclusive commits than the window holds — the
/// estimate is the oldest commit of the window, never a failure.
pub proof fn lemma_fallback_bound(w: Seq<Seq<char>>, e: Seq<Seq<char>>)
    requires
        w.len() > 0,
        forall|j: int| 0 <= j < w.len() ==> in_commit_set(w[j], e),
    ensures
        spec_first_shared(w, e) == Some(w.last()),
{
    lemma_first_not_in_all(w, e);
}

/// True iff `x` equals some element of `v`.
fn vec_contains(v: &Vec<String>, x: &str) -> (r: bool)
    ensures
        r == in_commit_set(x@, v.deep_view()),
{
    let len: usize = v.len();
    let mut i: usize = 0;
    while i < len
        invariant
            len == v.len(),
            0 <= i <= len,
            forall|j: int| 0 <= j < i ==> v.deep_view()[j] != x@,
        decreases len - i,
    {
        if str_eq(v[i].as_str(), x) {
            assert(v.deep_view()[i as int] == x@);
            return true;
        }
        i = i + 1;
    }
    false
}

/// The divergence-point estimate over the queried window and exclusive set;
/// see [`spec_first_shared`].
pub fn first_shared_commit(window: &Vec<String>, exclusive: &Vec<String>) -> (r: Option<String>)
    ensures
        r.deep_view() == spec_first_shared(window.deep_view(), exclusive.deep_view()),
{
    let len: usize = window.len();
    if len == 0 {
        return None;
    }
    let mut i: usize = 0;
    while i < len
        invariant
            len == window.len(),
            0 <= i <= len,
            forall|j: int|
                0 <= j < i ==> in_commit_set(
                    window.deep_view()[j],
                    exclusive.deep_view(),
                ),
        decreases len - i,
    {
        if !vec_contains(exclusive, window[i].as_str()) {
            proof {
                lemma_first_not_in_at(window.deep_view(), exclusive.deep_view(), i as int);
            }
            return Some(window[i].clone());
        }
        i = i + 1;
    }
    proof {
        lemma_first_not_in_all(window.deep_view(), exclusive.deep_view());
    }
    Some(window[len - 1].clone())
}

/// `b` is the branch of category `cat` carrying exactly the name `name`.
pub open spec fn is_branch(b: &Branch, cat: Category, name: Seq<char>) -> bool {
    b.spec_category() == cat && b.spec_name() == name
}

/// The category-driven source table, for the categories it covers.
pub open spec fn spec_static_sources(cat: Category, config: &Config) -> Option<
    Seq<(Category, Seq<char>)>,
> {
    match cat {
        Category::Hotfix => Some(
            seq![
                (Category::Main, config.main@),
                (Category::Develop, config.develop@),
            ],
        ),
        Category::Bugfix => Some(seq![(Category::Develop, config.develop@)]),
        Category::Release => Some(seq![(Category::Main, config.main@)]),
        _ => None,
    }
}

/// Hotfix sourcing: whatever the commit graph holds, the table sends a hotfix
/// to both main and develop.
pub proof fn lemma_hotfix_sources(config: &Config)
    ensures
        spec_static_sources(Category::Hotfix, config) is Some,
        spec_static_sources(Category::Hotfix, config).unwrap().contains(
            (Category::Main, config.main@),
        ),
        spec_static_sources(Category::Hotfix, config).unwrap().contains(
            (Category::Develop, config.develop@),
        ),
{
    let s = spec_static_sources(Category::Hotfix, config).unwrap();
    assert(s[0] == (Category::Main, config.main@));
    assert(s[1] == (Category::Develop, config.develop@));
}

/// The sources the category table assigns to `branch`, as typed branches
/// carrying the configured develop and main names; nothing for the
/// categories the table does not cover.
pub fn static_sources(branch: &Branch, config: &Config) -> (r: Option<Vec<Branch>>)
    ensures
        match spec_static_sources(branch.spec_category(), config) {
            Some(entries) => r is Some && r.unwrap()@.len() == entries.len() && forall|i: int|
                0 <= i < entries.len() ==> is_branch(
                    &r.unwrap()@[i],
                    entries[i].0,
                    entries[i].1,
                ),
            None => r is None,
        },
{
    match branch.category() {
        Category::Hotfix => {
            let mut v: Vec<Branch> = Vec::new();
            v.push(Branch::Main(config.main.clone()));
            v.push(Branch::Develop(config.develop.clone()));
            Some(v)
        },
        Category::Bugfix => {
            let mut v: Vec<Branch> = Vec::new();
            v.push(Branch::Develop(config.develop.clone()));
            Some(v)
        },
        Category::Release => {
            let mut v: Vec<Branch> = Vec::new();
            v.push(Branch::Main(config.main.clone()));
            Some(v)
        },
        _ => None,
    }
}

} // verus!
