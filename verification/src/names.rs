//! Validation and normalization of user-entered branch names.
//!
//! A name is accepted when it matches the shape: one or more ASCII letters,
//! then any run of characters from the middle class (`A`, `Z`, `_`, lower-case
//! letters and digits), then one or more alphanumerics, then at most one
//! trailing `/`.  Normalization trims the input, substitutes a default for an
//! empty line, and enforces the trailing-slash convention of the category.

use vstd::prelude::*;

use crate::strutil::{spec_trim, spec_trim_end_slashes, str_eq, trim, trim_end_slashes};
use crate::FlowError;

verus! {

/// An ASCII letter.
pub open spec fn is_letter(c: char) -> bool {
    ('A' <= c && c <= 'Z') || ('a' <= c && c <= 'z')
}

/// An ASCII letter or digit.
pub open spec fn is_alnum(c: char) -> bool {
    is_letter(c) || ('0' <= c && c <= '9')
}

/// The middle class of the name shape: `A`, `Z`, `_`, lower-case letters and
/// digits.
pub open spec fn is_mid(c: char) -> bool {
    c == 'A' || c == 'Z' || c == '_' || ('a' <= c && c <= 'z') || ('0' <= c && c <= '9')
}

pub fn is_letter_char(c: char) -> (r: bool)
    ensures
        r == is_letter(c),
{
    ('A' <= c && c <= 'Z') || ('a' <= c && c <= 'z')
}

pub fn is_alnum_char(c: char) -> (r: bool)
    ensures
        r == is_alnum(c),
{
    is_letter_char(c) || ('0' <= c && c <= '9')
}

pub fn is_mid_char(c: char) -> (r: bool)
    ensures
        r == is_mid(c),
{
    c == 'A' || c == 'Z' || c == '_' || ('a' <= c && c <= 'z') || ('0' <= c && c <= '9')
}

/// `s` decomposes as letters⁺ · mid⋆ · alnum⁺ at the split points `i`, `j`.
pub open spec fn splits_at(s: Seq<char>, i: int, j: int) -> bool {
    &&& 1 <= i <= j < s.len()
    &&& forall|k: int| 0 <= k < i ==> is_letter(s[k])
    &&& forall|k: int| i <= k < j ==> is_mid(s[k])
    &&& forall|k: int| j <= k < s.len() ==> is_alnum(s[k])
}

/// The name body (trailing `/` already removed) matches the accepted shape.
pub open spec fn valid_core(s: Seq<char>) -> bool {
    exists|i: int, j: int| splits_at(s, i, j)
}

/// The full accepted-name predicate: an optional single trailing `/` over a
/// valid body.
pub open spec fn spec_valid_name(s: Seq<char>) -> bool {
    if s.len() > 0 && s.last() == '/' {
        valid_core(s.drop_last())
    } else {
        valid_core(s)
    }
}

/// Decides [`spec_valid_name`].
pub fn is_given_branch_name_valid(branch_name: &str) -> (r: bool)
    ensures
        r == spec_valid_name(branch_name@),
{
    let len: usize = branch_name.unicode_len();
    let core_len: usize = if len > 0 && branch_name.get_char(len - 1) == '/' {
        len - 1
    } else {
        len
    };
    let ghost core = if branch_name@.len() > 0 && branch_name@.last() == '/' {
        branch_name@.drop_last()
    } else {
        branch_name@
    };
    assert(core =~= branch_name@.subrange(0, core_len as int));
    if core_len < 2 {
        assert(!valid_core(core)) by {
            assert(forall|i: int, j: int| !splits_at(core, i, j));
        }
        return false;
    }
    if !is_letter_char(branch_name.get_char(0)) {
        assert(!valid_core(core)) by {
            assert forall|i: int, j: int| !splits_at(core, i, j) by {
                if splits_at(core, i, j) {
                    assert(is_letter(core[0]));
                }
            }
        }
        return false;
    }
    if !is_alnum_char(branch_name.get_char(core_len - 1)) {
        assert(!valid_core(core)) by {
            assert forall|i: int, j: int| !splits_at(core, i, j) by {
                if splits_at(core, i, j) {
                    assert(is_alnum(core[core.len() - 1]));
                }
            }
        }
        return false;
    }
    // longest run of letters from the start
    let mut p: usize = 0;
    while p < core_len && is_letter_char(branch_name.get_char(p))
        invariant
            core_len <= branch_name@.len(),
            core == branch_name@.subrange(0, core_len as int),
            0 <= p <= core_len,
            forall|k: int| 0 <= k < p ==> is_letter(core[k]),
        decreases core_len - p,
    {
        p = p + 1;
    }
    // shortest all-alphanumeric suffix
    let mut q: usize = core_len;
    while q > 0 && is_alnum_char(branch_name.get_char(q - 1))
        invariant
            core_len <= branch_name@.len(),
            core == branch_name@.subrange(0, core_len as int),
            0 <= q <= core_len,
            forall|k: int| q <= k < core_len ==> is_alnum(core[k]),
        decreases q,
    {
        q = q - 1;
    }
    assert(q < core_len) by {
        assert(is_alnum(core[core_len - 1]));
    }
    assert(p >= 1) by {
        assert(is_letter(core[0]));
    }
    if p >= q {
        // prefix and suffix overlap: split right after the first letter run
        // that still leaves a nonempty suffix
        let ghost m: int = if q == 0 {
            1
        } else {
            q as int
        };
        assert(splits_at(core, m, m));
        return true;
    }
    assert(!is_letter(core[p as int]));
    assert(!is_alnum(core[q - 1]));
    let mut k: usize = p;
    while k < q
        invariant
            core_len <= branch_name@.len(),
            core == branch_name@.subrange(0, core_len as int),
            1 <= p < q <= core_len,
            p <= k <= q,
            valid_core(core) == spec_valid_name(branch_name@),
            !is_letter(core[p as int]),
            !is_alnum(core[q - 1]),
            forall|t: int| p <= t < k ==> is_mid(core[t]),
        decreases q - k,
    {
        if !is_mid_char(branch_name.get_char(k)) {
            assert(!valid_core(core)) by {
                assert(p < core_len);
                assert(!is_letter(core[p as int]));
                assert(!is_alnum(core[q - 1]));
                assert forall|i: int, j: int| !splits_at(core, i, j) by {
                    if splits_at(core, i, j) {
                        assert(i <= p) by {
                            if i > p {
                                assert(is_letter(core[p as int]));
                            }
                        };
                        assert(j >= q) by {
                            if j < q {
                                assert(is_alnum(core[q - 1]));
                            }
                        };
                        assert(is_mid(core[k as int]));
                    }
                }
            }
            return false;
        }
        k = k + 1;
    }
    assert(splits_at(core, p as int, q as int));
    true
}

/// What trimming, defaulting and the slash convention make of one line of
/// user input.
pub open spec fn spec_normalize(line: Seq<char>, default_name: Seq<char>, add_slash: bool) -> Seq<
    char,
> {
    let t = spec_trim(line);
    let base = if t.len() == 0 {
        default_name
    } else {
        t
    };
    if add_slash {
        if base.len() > 0 && base.last() == '/' {
            base
        } else {
            base + seq!['/']
        }
    } else {
        spec_trim_end_slashes(base)
    }
}

/// True iff some element of `used` views as `n`.
pub open spec fn spec_used(used: Seq<Seq<char>>, n: Seq<char>) -> bool {
    exists|i: int| 0 <= i < used.len() && used[i] == n
}

fn used_contains(used: &Vec<String>, n: &str) -> (r: bool)
    ensures
        r == spec_used(used.deep_view(), n@),
{
    let len: usize = used.len();
    let mut i: usize = 0;
    while i < len
        invariant
            len == used.len(),
            0 <= i <= len,
            forall|j: int| 0 <= j < i ==> used.deep_view()[j] != n@,
        decreases len - i,
    {
        if str_eq(used[i].as_str(), n) {
            assert(used.deep_view()[i as int] == n@);
            return true;
        }
        i = i + 1;
    }
    false
}

/// One validation pass over a line of user input: trim it, fall back to the
/// default when empty, apply the trailing-slash convention, then refuse names
/// already used in this session and names outside the accepted shape.
pub fn normalize_branch_name(
    line: &str,
    default_name: &str,
    add_suffix_slash: bool,
    already_used_names: &Vec<String>,
) -> (r: Result<String, FlowError>)
    ensures
        ({
            let n = spec_normalize(line@, default_name@, add_suffix_slash);
            let taken = spec_used(already_used_names.deep_view(), n) || (!add_suffix_slash
                && spec_used(already_used_names.deep_view(), n + seq!['/']));
            if taken {
                r is Err && r->Err_0 is BranchNameAlreadyTaken
            } else if !spec_valid_name(n) {
                r is Err && r->Err_0 is BranchNameInvalid
            } else {
                r is Ok && r->Ok_0@ == n
            }
        }),
{
    let trimmed = trim(line);
    let base = if trimmed.unicode_len() == 0 {
        default_name.to_owned()
    } else {
        trimmed
    };
    let name: String = if add_suffix_slash {
        let blen: usize = base.as_str().unicode_len();
        if blen > 0 && base.as_str().get_char(blen - 1) == '/' {
            base
        } else {
            let mut b = base;
            b.append("/");
            proof {
                reveal_strlit("/");
                assert("/"@ =~= seq!['/']);
            }
            b
        }
    } else {
        trim_end_slashes(base.as_str())
    };
    let ghost n = spec_normalize(line@, default_name@, add_suffix_slash);
    assert(name@ == n);
    let mut with_slash = name.clone();
    with_slash.append("/");
    proof {
        reveal_strlit("/");
        assert("/"@ =~= seq!['/']);
        assert(with_slash@ =~= n + seq!['/']);
    }
    if used_contains(already_used_names, name.as_str()) || (!add_suffix_slash && used_contains(
        already_used_names,
        with_slash.as_str(),
    )) {
        return Err(FlowError::BranchNameAlreadyTaken);
    }
    if !is_given_branch_name_valid(name.as_str()) {
        return Err(FlowError::BranchNameInvalid);
    }
    Ok(name)
}

} // verus!
