//! Verified helpers for working with strings as sequences of characters.
//!
//! Shell output and branch names flow through the library as `String`s; these
//! helpers give the character-level operations the rest of the crate needs,
//! each pinned to a spec-level definition over `Seq<char>`.

use vstd::prelude::*;

verus! {

/// Whitespace as trimmed from command output: the ASCII blank characters.
pub open spec fn is_space(c: char) -> bool {
    c == ' ' || c == '\t' || c == '\n' || c == '\r' || c == '\u{b}' || c == '\u{c}'
}

/// `s` with leading blank characters removed.
pub open spec fn spec_trim_left(s: Seq<char>) -> Seq<char>
    decreases s.len(),
{
    if s.len() > 0 && is_space(s[0]) {
        spec_trim_left(s.drop_first())
    } else {
        s
    }
}

/// `s` with trailing blank characters removed.
pub open spec fn spec_trim_right(s: Seq<char>) -> Seq<char>
    decreases s.len(),
{
    if s.len() > 0 && is_space(s[s.len() - 1]) {
        spec_trim_right(s.drop_last())
    } else {
        s
    }
}

/// `s` with leading and trailing blank characters removed.
pub open spec fn spec_trim(s: Seq<char>) -> Seq<char> {
    spec_trim_right(spec_trim_left(s))
}

/// The pattern `p` occurs in `s` starting at position `i`.
pub open spec fn matches_at(s: Seq<char>, p: Seq<char>, i: int) -> bool {
    0 <= i && i + p.len() <= s.len() && s.subrange(i, i + p.len()) == p
}

/// The pattern `p` occurs somewhere in `s`.
pub open spec fn spec_contains(s: Seq<char>, p: Seq<char>) -> bool {
    exists|i: int| matches_at(s, p, i)
}

/// True iff the views of `a` and `b` are equal.
pub fn str_eq(a: &str, b: &str) -> (r: bool)
    ensures
        r == (a@ == b@),
{
    let alen: usize = a.unicode_len();
    let blen: usize = b.unicode_len();
    if alen != blen {
        assert(a@ != b@) by {
            assert(a@.len() != b@.len());
        }
        return false;
    }
    let mut i: usize = 0;
    while i < alen
        invariant
            alen == a@.len(),
            blen == b@.len(),
            alen == blen,
            0 <= i <= alen,
            forall|j: int| 0 <= j < i ==> a@[j] == b@[j],
        decreases alen - i,
    {
        if a.get_char(i) != b.get_char(i) {
            return false;
        }
        i = i + 1;
    }
    proof {
        assert(a@ =~= b@);
    }
    true
}

proof fn lemma_trim_left_skip(s: Seq<char>, i: int)
    requires
        0 <= i <= s.len(),
        forall|j: int| 0 <= j < i ==> is_space(s[j]),
        i == s.len() || !is_space(s[i]),
    ensures
        spec_trim_left(s) == s.subrange(i, s.len() as int),
    decreases i,
{
    if i == 0 {
        if s.len() > 0 && is_space(s[0]) {
            assert(false);
        }
        assert(s.subrange(0, s.len() as int) =~= s);
    } else {
        assert(is_space(s[0]));
        lemma_trim_left_skip(s.drop_first(), i - 1);
        assert(s.drop_first().subrange(i - 1, s.drop_first().len() as int) =~= s.subrange(
            i,
            s.len() as int,
        ));
    }
}

proof fn lemma_trim_right_skip(s: Seq<char>, i: int)
    requires
        0 <= i <= s.len(),
        forall|j: int| i <= j < s.len() ==> is_space(s[j]),
        i == 0 || !is_space(s[i - 1]),
    ensures
        spec_trim_right(s) == s.subrange(0, i),
    decreases s.len() - i,
{
    if i == s.len() {
        if s.len() > 0 && is_space(s[s.len() - 1]) {
            assert(false);
        }
        assert(s.subrange(0, s.len() as int) =~= s);
    } else {
        assert(is_space(s[s.len() - 1]));
        lemma_trim_right_skip(s.drop_last(), i);
        assert(s.drop_last().subrange(0, i) =~= s.subrange(0, i));
    }
}

/// A copy of `s` with leading and trailing blank characters removed.
pub fn trim(s: &str) -> (r: String)
    ensures
        r@ == spec_trim(s@),
{
    let len: usize = s.unicode_len();
    let mut start: usize = 0;
    while start < len && is_space_char(s.get_char(start))
        invariant
            len == s@.len(),
            0 <= start <= len,
            forall|j: int| 0 <= j < start ==> is_space(s@[j]),
        decreases len - start,
    {
        start = start + 1;
    }
    let mut end: usize = len;
    while end > start && is_space_char(s.get_char(end - 1))
        invariant
            len == s@.len(),
            0 <= start <= end <= len,
            forall|j: int| 0 <= j < start ==> is_space(s@[j]),
            forall|j: int| end <= j < len ==> is_space(s@[j]),
        decreases end,
    {
        end = end - 1;
    }
    let r = s.substring_char(start, end).to_owned();
    proof {
        if start == len {
            // the whole string is blank
            lemma_trim_left_skip(s@, start as int);
            assert(spec_trim_left(s@) =~= Seq::<char>::empty());
            lemma_trim_right_skip(Seq::<char>::empty(), 0);
            assert(end == len);
            assert(r@ =~= spec_trim(s@));
        } else {
            assert(!is_space(s@[start as int]));
            lemma_trim_left_skip(s@, start as int);
            let t = s@.subrange(start as int, len as int);
            assert(end > start);
            assert(!is_space(t[end - start - 1]));
            lemma_trim_right_skip(t, end - start);
            assert(t.subrange(0, end - start) =~= s@.subrange(start as int, end as int));
        }
    }
    r
}

/// True iff `c` is a blank character; executable twin of [`is_space`].
pub fn is_space_char(c: char) -> (r: bool)
    ensures
        r == is_space(c),
{
    c == ' ' || c == '\t' || c == '\n' || c == '\r' || c == '\u{b}' || c == '\u{c}'
}

/// True iff `p` occurs in `s` starting at `i`.
fn check_match_at(s: &str, p: &str, i: usize) -> (r: bool)
    requires
        i + p@.len() <= s@.len(),
    ensures
        r == matches_at(s@, p@, i as int),
{
    let plen: usize = p.unicode_len();
    let slen: usize = s.unicode_len();
    let mut k: usize = 0;
    while k < plen
        invariant
            plen == p@.len(),
            slen == s@.len(),
            i + plen <= s@.len(),
            0 <= k <= plen,
            forall|j: int| 0 <= j < k ==> s@[i + j] == p@[j],
        decreases plen - k,
    {
        if s.get_char(i + k) != p.get_char(k) {
            assert(s@.subrange(i as int, i + plen) != p@) by {
                assert(s@.subrange(i as int, i + plen)[k as int] == s@[i + k]);
            }
            return false;
        }
        k = k + 1;
    }
    proof {
        assert(s@.subrange(i as int, i + plen) =~= p@);
    }
    true
}

/// True iff `p` occurs somewhere in `s`.
pub fn contains_sub(s: &str, p: &str) -> (r: bool)
    ensures
        r == spec_contains(s@, p@),
{
    let slen: usize = s.unicode_len();
    let plen: usize = p.unicode_len();
    if plen > slen {
        assert(!spec_contains(s@, p@)) by {
            assert(forall|i: int| !matches_at(s@, p@, i));
        }
        return false;
    }
    if plen == 0 {
        assert(matches_at(s@, p@, 0)) by {
            assert(s@.subrange(0, 0) =~= p@);
        }
        return true;
    }
    let mut i: usize = 0;
    while i <= slen - plen
        invariant
            slen == s@.len(),
            plen == p@.len(),
            1 <= plen <= slen,
            0 <= i <= slen - plen + 1,
            forall|j: int| 0 <= j < i ==> !matches_at(s@, p@, j),
        decreases slen - plen + 1 - i,
    {
        if check_match_at(s, p, i) {
            return true;
        }
        i = i + 1;
    }
    assert(!spec_contains(s@, p@)) by {
        assert(forall|j: int| j >= i ==> !matches_at(s@, p@, j));
    }
    false
}

/// `t` without a single trailing carriage return, if it has one.
pub open spec fn strip_cr(t: Seq<char>) -> Seq<char> {
    if t.len() > 0 && t[t.len() - 1] == '\r' {
        t.drop_last()
    } else {
        t
    }
}

/// Index of the first newline in `s`; meaningful only when one exists.
pub open spec fn first_nl(s: Seq<char>) -> int
    decreases s.len(),
{
    if s.len() == 0 {
        0
    } else if s[0] == '\n' {
        0
    } else {
        1 + first_nl(s.drop_first())
    }
}

proof fn lemma_first_nl_bounds(s: Seq<char>)
    requires
        s.contains('\n'),
    ensures
        0 <= first_nl(s) < s.len(),
        s[first_nl(s)] == '\n',
    decreases s.len(),
{
    if s.len() > 0 && s[0] != '\n' {
        let i = choose|i: int| 0 <= i < s.len() && s[i] == '\n';
        assert(s.drop_first()[i - 1] == '\n');
        assert(s.drop_first().contains('\n'));
        lemma_first_nl_bounds(s.drop_first());
    }
}

pub(crate) proof fn lemma_first_nl(s: Seq<char>, i: int)
    requires
        0 <= i < s.len(),
        s[i] == '\n',
        forall|j: int| 0 <= j < i ==> s[j] != '\n',
    ensures
        first_nl(s) == i,
    decreases i,
{
    if i > 0 {
        lemma_first_nl(s.drop_first(), i - 1);
    }
}

/// The lines of `s`: split at `\n`, dropping one `\r` before each split point,
/// with a final line ending optional.
pub open spec fn spec_lines(s: Seq<char>) -> Seq<Seq<char>>
    decreases s.len(),
    via spec_lines_decreases
{
    if s.len() == 0 {
        Seq::empty()
    } else if !s.contains('\n') {
        seq![s]
    } else {
        let i = first_nl(s);
        seq![strip_cr(s.subrange(0, i))] + spec_lines(s.subrange(i + 1, s.len() as int))
    }
}

#[via_fn]
proof fn spec_lines_decreases(s: Seq<char>) {
    if s.len() > 0 && s.contains('\n') {
        lemma_first_nl_bounds(s);
    }
}

/// The lines of `s`, as `str::lines` yields them.
pub fn split_lines(s: &str) -> (r: Vec<String>)
    ensures
        r.deep_view() == spec_lines(s@),
    decreases s@.len(),
{
    let len: usize = s.unicode_len();
    if len == 0 {
        let r: Vec<String> = Vec::new();
        assert(r.deep_view() =~= spec_lines(s@));
        return r;
    }
    let mut i: usize = 0;
    while i < len && s.get_char(i) != '\n'
        invariant
            len == s@.len(),
            0 <= i <= len,
            forall|j: int| 0 <= j < i ==> s@[j] != '\n',
        decreases len - i,
    {
        i = i + 1;
    }
    if i == len {
        // no newline: the whole string is one line
        assert(!s@.contains('\n')) by {
            assert(forall|j: int| 0 <= j < s@.len() ==> s@[j] != '\n');
        }
        let mut r: Vec<String> = Vec::new();
        r.push(s.to_owned());
        assert(r.deep_view() =~= spec_lines(s@));
        return r;
    }
    assert(s@[i as int] == '\n');
    assert(s@.contains('\n'));
    proof {
        lemma_first_nl(s@, i as int);
    }
    let head_end: usize = if i > 0 && s.get_char(i - 1) == '\r' {
        i - 1
    } else {
        i
    };
    let head = s.substring_char(0, head_end).to_owned();
    assert(head@ =~= strip_cr(s@.subrange(0, i as int))) by {
        assert(s@.subrange(0, i as int).len() == i as int);
        if i > 0 && s@[i - 1] == '\r' {
            assert(s@.subrange(0, i as int)[i - 1] == s@[i - 1]);
            assert(s@.subrange(0, i as int).drop_last() =~= s@.subrange(0, i - 1));
        } else if i > 0 {
            assert(s@.subrange(0, i as int)[i - 1] == s@[i - 1]);
        }
    };
    let tail_str = s.substring_char(i + 1, len);
    let rest = split_lines(tail_str);
    let mut r: Vec<String> = Vec::new();
    r.push(head);
    let mut k: usize = 0;
    let rest_len: usize = rest.len();
    while k < rest_len
        invariant
            rest_len == rest.len(),
            0 <= k <= rest_len,
            r.len() == 1 + k,
            rest.deep_view() == spec_lines(s@.subrange(first_nl(s@) + 1, s@.len() as int)),
            r.deep_view() =~~= seq![strip_cr(s@.subrange(0, first_nl(s@)))]
                + rest.deep_view().take(k as int),
        decreases rest_len - k,
    {
        let line = rest[k].clone();
        assert(line@ == rest.deep_view()[k as int]);
        let ghost dv0 = r.deep_view();
        r.push(line);
        proof {
            assert(r.deep_view() =~~= dv0.push(line@)) by {
                assert(forall|j: int|
                    0 <= j < dv0.len() ==> r.deep_view()[j] == #[trigger] dv0[j]);
            };
            assert(dv0.push(line@) =~~= seq![strip_cr(s@.subrange(0, first_nl(s@)))]
                + rest.deep_view().take(k + 1));
        }
        k = k + 1;
    }
    proof {
        assert(rest.deep_view().take(rest_len as int) =~~= rest.deep_view());
        assert(r.deep_view() =~~= spec_lines(s@));
    }
    r
}

/// The elements of `v` joined with single spaces.
pub open spec fn spec_join_space(v: Seq<Seq<char>>) -> Seq<char>
    decreases v.len(),
{
    if v.len() == 0 {
        Seq::empty()
    } else if v.len() == 1 {
        v[0]
    } else {
        spec_join_space(v.drop_last()) + seq![' '] + v.last()
    }
}

/// The strings of `v` joined with single spaces, as `[String]::join(" ")`.
pub fn join_space(v: &Vec<String>) -> (r: String)
    ensures
        r@ == spec_join_space(v.deep_view()),
{
    let mut r = String::new();
    let len: usize = v.len();
    let mut i: usize = 0;
    while i < len
        invariant
            len == v.len(),
            0 <= i <= len,
            r@ == spec_join_space(v.deep_view().take(i as int)),
        decreases len - i,
    {
        let ghost prev = r@;
        if i > 0 {
            r.append(" ");
        }
        r.append(v[i].as_str());
        proof {
            let dv = v.deep_view();
            assert(dv.take(i + 1).drop_last() =~~= dv.take(i as int));
            assert(dv.take(i + 1).last() == dv[i as int]);
            if i == 0 {
                assert(dv.take(1).len() == 1);
                assert(r@ =~= Seq::<char>::empty() + dv[0]);
                assert(Seq::<char>::empty() + dv[0] =~= dv[0]);
            } else {
                reveal_strlit(" ");
                assert(" "@ =~= seq![' ']);
                assert(r@ =~= prev + seq![' '] + dv[i as int]);
            }
        }
        i = i + 1;
    }
    proof {
        assert(v.deep_view().take(len as int) =~~= v.deep_view());
    }
    r
}

/// `s` with every occurrence of `p` removed, scanning left to right.
pub open spec fn spec_remove_all(s: Seq<char>, p: Seq<char>) -> Seq<char>
    decreases s.len(),
    when p.len() >= 1
{
    if s.len() == 0 {
        s
    } else if matches_at(s, p, 0) {
        spec_remove_all(s.subrange(p.len() as int, s.len() as int), p)
    } else {
        seq![s[0]] + spec_remove_all(s.drop_first(), p)
    }
}

/// A copy of `s` with every occurrence of `p` removed, as `str::replace(p, "")`.
pub fn remove_all(s: &str, p: &str) -> (r: String)
    requires
        p@.len() >= 1,
    ensures
        r@ == spec_remove_all(s@, p@),
{
    let slen: usize = s.unicode_len();
    let plen: usize = p.unicode_len();
    let mut r = String::new();
    proof {
        assert(s@.subrange(0, slen as int) =~= s@);
        assert(Seq::<char>::empty() + spec_remove_all(s@, p@) =~= spec_remove_all(s@, p@));
    }
    let mut i: usize = 0;
    while i < slen
        invariant
            slen == s@.len(),
            plen == p@.len(),
            plen >= 1,
            0 <= i <= slen,
            spec_remove_all(s@, p@) == r@ + spec_remove_all(
                s@.subrange(i as int, slen as int),
                p@,
            ),
        decreases slen - i,
    {
        let ghost pre = r@;
        let ghost tail = s@.subrange(i as int, slen as int);
        if plen <= slen - i && check_match_at(s, p, i) {
            assert(matches_at(tail, p@, 0)) by {
                assert(tail.subrange(0, p@.len() as int) =~= s@.subrange(i as int, i + p@.len()));
            };
            assert(tail.subrange(p@.len() as int, tail.len() as int) =~= s@.subrange(
                i + plen,
                slen as int,
            ));
            i = i + plen;
        } else {
            assert(!matches_at(tail, p@, 0)) by {
                if matches_at(tail, p@, 0) {
                    assert(tail.subrange(0, p@.len() as int) =~= s@.subrange(
                        i as int,
                        i + p@.len(),
                    ));
                }
            };
            let c = s.substring_char(i, i + 1);
            r.append(c);
            assert(tail[0] == s@[i as int]);
            assert(c@ =~= seq![tail[0]]);
            assert(tail.drop_first() =~= s@.subrange(i + 1, slen as int));
            assert(pre + (seq![tail[0]] + spec_remove_all(tail.drop_first(), p@)) =~= r@
                + spec_remove_all(tail.drop_first(), p@));
            i = i + 1;
        }
    }
    proof {
        assert(s@.subrange(slen as int, slen as int) =~= Seq::<char>::empty());
        assert(spec_remove_all(Seq::<char>::empty(), p@) =~= Seq::<char>::empty());
        assert(r@ + Seq::<char>::empty() =~= r@);
    }
    r
}

/// `s` with every trailing `/` removed.
pub open spec fn spec_trim_end_slashes(s: Seq<char>) -> Seq<char>
    decreases s.len(),
{
    if s.len() > 0 && s[s.len() - 1] == '/' {
        spec_trim_end_slashes(s.drop_last())
    } else {
        s
    }
}

proof fn lemma_trim_end_slashes_skip(s: Seq<char>, i: int)
    requires
        0 <= i <= s.len(),
        forall|j: int| i <= j < s.len() ==> s[j] == '/',
        i == 0 || s[i - 1] != '/',
    ensures
        spec_trim_end_slashes(s) == s.subrange(0, i),
    decreases s.len() - i,
{
    if i == s.len() {
        if s.len() > 0 && s[s.len() - 1] == '/' {
            assert(false);
        }
        assert(s.subrange(0, s.len() as int) =~= s);
    } else {
        lemma_trim_end_slashes_skip(s.drop_last(), i);
        assert(s.drop_last().subrange(0, i) =~= s.subrange(0, i));
    }
}

/// A copy of `s` with all trailing slashes removed, as `str::trim_end_matches("/")`.
pub fn trim_end_slashes(s: &str) -> (r: String)
    ensures
        r@ == spec_trim_end_slashes(s@),
{
    let len: usize = s.unicode_len();
    let mut end: usize = len;
    while end > 0 && s.get_char(end - 1) == '/'
        invariant
            len == s@.len(),
            0 <= end <= len,
            forall|j: int| end <= j < len ==> s@[j] == '/',
        decreases end,
    {
        end = end - 1;
    }
    let r = s.substring_char(0, end).to_owned();
    proof {
        lemma_trim_end_slashes_skip(s@, end as int);
    }
    r
}

/// The position of the last `/` in `s`, if any.
pub fn last_slash_index(s: &str) -> (r: Option<usize>)
    ensures
        match r {
            Some(i) => i < s@.len() && s@[i as int] == '/' && forall|j: int|
                i < j < s@.len() ==> s@[j] != '/',
            None => forall|j: int| 0 <= j < s@.len() ==> s@[j] != '/',
        },
{
    let len: usize = s.unicode_len();
    let mut k: usize = len;
    while k > 0
        invariant
            len == s@.len(),
            0 <= k <= len,
            forall|j: int| k <= j < len ==> s@[j] != '/',
        decreases k,
    {
        if s.get_char(k - 1) == '/' {
            return Some(k - 1);
        }
        k = k - 1;
    }
    None
}

/// The decimal digit character for `d`.
pub open spec fn spec_digit(d: int) -> char {
    if d == 0 {
        '0'
    } else if d == 1 {
        '1'
    } else if d == 2 {
        '2'
    } else if d == 3 {
        '3'
    } else if d == 4 {
        '4'
    } else if d == 5 {
        '5'
    } else if d == 6 {
        '6'
    } else if d == 7 {
        '7'
    } else if d == 8 {
        '8'
    } else {
        '9'
    }
}

/// The decimal digits of `n`, most significant first.
pub open spec fn spec_decimal(n: int) -> Seq<char>
    decreases n,
{
    if n < 10 {
        seq![spec_digit(n)]
    } else {
        spec_decimal(n / 10) + seq![spec_digit(n % 10)]
    }
}

fn digit_str(d: u8) -> (r: &'static str)
    requires
        d < 10,
    ensures
        r@ == seq![spec_digit(d as int)],
{
    proof {
        reveal_strlit("0");
        reveal_strlit("1");
        reveal_strlit("2");
        reveal_strlit("3");
        reveal_strlit("4");
        reveal_strlit("5");
        reveal_strlit("6");
        reveal_strlit("7");
        reveal_strlit("8");
        reveal_strlit("9");
    }
    let r = match d {
        0 => "0",
        1 => "1",
        2 => "2",
        3 => "3",
        4 => "4",
        5 => "5",
        6 => "6",
        7 => "7",
        8 => "8",
        _ => "9",
    };
    assert(r@ =~= seq![spec_digit(d as int)]);
    r
}

/// The decimal rendering of `n`, as `format!("{}", n)` would give it.
pub fn u8_to_string(n: u8) -> (r: String)
    ensures
        r@ == spec_decimal(n as int),
    decreases n,
{
    if n < 10 {
        digit_str(n).to_owned()
    } else {
        let mut r = u8_to_string(n / 10);
        r.append(digit_str(n % 10));
        r
    }
}

} // verus!
