//! The flat-file form of the configuration store: `key=value` lines.
//!
//! Reading and writing the file is I/O and stays outside the library; the
//! parsing of its text and the lookup of a key are verified here.

use vstd::prelude::*;

use crate::strutil::{spec_contains, contains_sub, spec_lines, split_lines, str_eq};
use crate::constants::BRANCH_ALREADY_EXISTS_SUFFIX;

verus! {

pub const FEATURE_BRANCH_NAME_KEY: &'static str = "FEATURE_BRANCH_NAME";

pub const HOTFIX_BRANCH_NAME_KEY: &'static str = "HOTFIX_BRANCH_NAME";

pub const BUGFIX_BRANCH_NAME_KEY: &'static str = "BUGFIX_BRANCH_NAME";

pub const RELEASE_BRANCH_NAME_KEY: &'static str = "RELEASE_BRANCH_NAME";

pub const DEVELOP_BRANCH_NAME_KEY: &'static str = "DEVELOP_BRANCH_NAME";

pub const MAIN_BRANCH_NAME_KEY: &'static str = "MAIN_BRANCH_NAME";

/// One parsed configuration entry: a key and its value.
pub struct Configuration {
    pub key: String,
    pub value: String,
}

/// An error in the file-backed configuration: a malformed line, or a missing
/// key.
#[derive(Debug)]
pub struct FileError {
    message: String,
}

impl FileError {
    /// The text of the error.
    pub closed spec fn spec_message(&self) -> Seq<char> {
        self.message@
    }

    pub fn new(message: String) -> (r: FileError)
        ensures
            r.spec_message() == message@,
    {
        FileError { message }
    }

    /// The human-readable description of the error.
    pub fn message(&self) -> (r: &str)
        ensures
            r@ == self.spec_message(),
    {
        self.message.as_str()
    }
}

/// The backend reported that the branch to create already exists.
pub fn does_branch_already_exists(error_message: &str) -> (r: bool)
    ensures
        r == spec_contains(error_message@, BRANCH_ALREADY_EXISTS_SUFFIX@),
{
    contains_sub(error_message, BRANCH_ALREADY_EXISTS_SUFFIX)
}

/// Index of the first `=` in `s`; meaningful only when one exists.
pub open spec fn first_eq(s: Seq<char>) -> int
    decreases s.len(),
{
    if s.len() == 0 {
        0
    } else if s[0] == '=' {
        0
    } else {
        1 + first_eq(s.drop_first())
    }
}

/// The key/value reading of one line: the text before the first `=`, and the
/// text between the first `=` and the next `=` or the end of the line; a line
/// without `=` has no reading.
pub open spec fn line_kv(l: Seq<char>) -> Option<(Seq<char>, Seq<char>)> {
    if !l.contains('=') {
        None
    } else {
        let i = first_eq(l);
        let rest = l.subrange(i + 1, l.len() as int);
        let v = if rest.contains('=') {
            rest.subrange(0, first_eq(rest))
        } else {
            rest
        };
        Some((l.subrange(0, i), v))
    }
}

/// The readings of all lines; nothing when some line is malformed.
pub open spec fn spec_parse_config(lines: Seq<Seq<char>>) -> Option<Seq<(Seq<char>, Seq<char>)>>
    decreases lines.len(),
{
    if lines.len() == 0 {
        Some(Seq::empty())
    } else {
        match line_kv(lines[0]) {
            None => None,
            Some(kv) => match spec_parse_config(lines.drop_first()) {
                None => None,
                Some(rest) => Some(seq![kv] + rest),
            },
        }
    }
}

proof fn lemma_first_eq_at(s: Seq<char>, i: int)
    requires
        0 <= i < s.len(),
        s[i] == '=',
        forall|j: int| 0 <= j < i ==> s[j] != '=',
    ensures
        first_eq(s) == i,
    decreases i,
{
    if i > 0 {
        lemma_first_eq_at(s.drop_first(), i - 1);
    }
}

/// Reads one line into a key/value entry, if it holds an `=`.
fn parse_line(line: &str) -> (r: Option<Configuration>)
    ensures
        match line_kv(line@) {
            Some(kv) => r is Some && r.unwrap().key@ == kv.0 && r.unwrap().value@ == kv.1,
            None => r is None,
        },
{
    let len: usize = line.unicode_len();
    let mut i: usize = 0;
    while i < len && line.get_char(i) != '='
        invariant
            len == line@.len(),
            0 <= i <= len,
            forall|j: int| 0 <= j < i ==> line@[j] != '=',
        decreases len - i,
    {
        i = i + 1;
    }
    if i == len {
        assert(!line@.contains('=')) by {
            assert(forall|j: int| 0 <= j < line@.len() ==> line@[j] != '=');
        }
        return None;
    }
    assert(line@[i as int] == '=');
    assert(line@.contains('='));
    proof {
        lemma_first_eq_at(line@, i as int);
    }
    let key = line.substring_char(0, i).to_owned();
    let ghost rest = line@.subrange(i + 1, len as int);
    let mut k: usize = i + 1;
    while k < len && line.get_char(k) != '='
        invariant
            len == line@.len(),
            rest == line@.subrange(i + 1, len as int),
            i < k <= len,
            i < len,
            forall|j: int| i + 1 <= j < k ==> line@[j] != '=',
        decreases len - k,
    {
        k = k + 1;
    }
    let value = line.substring_char(i + 1, k).to_owned();
    proof {
        if k == len {
            assert(!rest.contains('=')) by {
                assert(forall|j: int| 0 <= j < rest.len() ==> rest[j] == line@[i + 1 + j]);
            }
            assert(value@ =~= rest);
        } else {
            assert(line@[k as int] == '=');
            assert(rest[k - i - 1] == '=');
            assert(rest.contains('='));
            lemma_first_eq_at(rest, k - i - 1);
            assert(value@ =~= rest.subrange(0, k - i - 1));
        }
    }
    Some(Configuration { key, value })
}

/// Parses the whole configuration file; a malformed line fails the parse.
pub fn parse_config_file(file_string: &str) -> (r: Result<Vec<Configuration>, FileError>)
    ensures
        match spec_parse_config(spec_lines(file_string@)) {
            Some(pairs) => r is Ok && r->Ok_0@.len() == pairs.len() && forall|i: int|
                0 <= i < pairs.len() ==> (#[trigger] r->Ok_0@[i]).key@ == pairs[i].0
                    && r->Ok_0@[i].value@ == pairs[i].1,
            None => r is Err,
        },
{
    let lines = split_lines(file_string);
    let mut out: Vec<Configuration> = Vec::new();
    let len: usize = lines.len();
    let mut i: usize = 0;
    while i < len
        invariant
            len == lines.len(),
            0 <= i <= len,
            lines.deep_view() == spec_lines(file_string@),
            out@.len() == i,
            forall|j: int| 0 <= j < i ==> (#[trigger] line_kv(lines.deep_view()[j])) is Some,
            forall|j: int|
                0 <= j < i ==> (#[trigger] out@[j]).key@ == line_kv(
                    lines.deep_view()[j],
                ).unwrap().0,
            forall|j: int|
                0 <= j < i ==> (#[trigger] out@[j]).value@ == line_kv(
                    lines.deep_view()[j],
                ).unwrap().1,
        decreases len - i,
    {
        assert(lines.deep_view()[i as int] == lines@[i as int]@);
        match parse_line(lines[i].as_str()) {
            Some(c) => {
                let ghost prev = out@;
                proof {
                    assert(line_kv(lines.deep_view()[i as int]) is Some);
                    assert(c.key@ == line_kv(lines.deep_view()[i as int]).unwrap().0);
                    assert(c.value@ == line_kv(lines.deep_view()[i as int]).unwrap().1);
                }
                out.push(c);
                proof {
                    assert(out@ == prev.push(c));
                    assert(out@[i as int] == c);
                    assert forall|j: int| 0 <= j <= i implies (#[trigger] line_kv(
                        lines.deep_view()[j],
                    )) is Some && out@[j].key@ == line_kv(lines.deep_view()[j]).unwrap().0
                        && out@[j].value@ == line_kv(lines.deep_view()[j]).unwrap().1 by {
                        if j < i {
                            assert(out@[j] == prev[j]);
                            assert(line_kv(lines.deep_view()[j]) is Some);
                            assert(prev[j].key@ == line_kv(lines.deep_view()[j]).unwrap().0);
                        }
                    }
                }
            },
            None => {
                proof {
                    lemma_parse_config_fails(lines.deep_view(), i as int);
                }
                return Err(
                    FileError::new(("configuration line holds no '=' separator").to_owned()),
                );
            },
        }
        i = i + 1;
    }
    proof {
        assert forall|j: int|
            0 <= j < lines.deep_view().len() implies (#[trigger] line_kv(
            lines.deep_view()[j],
        )) is Some by {
            assert(out@[j].key@ == line_kv(lines.deep_view()[j]).unwrap().0);
        }
        lemma_parse_config_all(lines.deep_view());
        let pairs = spec_parse_config(lines.deep_view()).unwrap();
        assert(forall|j: int|
            0 <= j < len ==> pairs[j] == line_kv(#[trigger] lines.deep_view()[j]).unwrap());
    }
    Ok(out)
}

proof fn lemma_parse_config_fails(lines: Seq<Seq<char>>, i: int)
    requires
        0 <= i < lines.len(),
        line_kv(lines[i]) is None,
    ensures
        spec_parse_config(lines) is None,
    decreases i,
{
    if lines.len() > 0 && line_kv(lines[0]) is Some {
        lemma_parse_config_fails(lines.drop_first(), i - 1);
    }
}

proof fn lemma_parse_config_all(lines: Seq<Seq<char>>)
    requires
        forall|j: int| 0 <= j < lines.len() ==> (#[trigger] line_kv(lines[j])) is Some,
    ensures
        spec_parse_config(lines) is Some,
        spec_parse_config(lines).unwrap().len() == lines.len(),
        forall|j: int|
            0 <= j < lines.len() ==> spec_parse_config(lines).unwrap()[j] == (#[trigger] line_kv(
                lines[j],
            )).unwrap(),
    decreases lines.len(),
{
    if lines.len() > 0 {
        assert(line_kv(lines[0]) is Some);
        let rest = lines.drop_first();
        assert forall|j: int| 0 <= j < rest.len() implies (#[trigger] line_kv(rest[j])) is Some by {
            assert(rest[j] == lines[j + 1]);
            assert(line_kv(lines[j + 1]) is Some);
        }
        lemma_parse_config_all(rest);
        let pairs = spec_parse_config(lines).unwrap();
        let rp = spec_parse_config(rest).unwrap();
        assert(pairs == seq![line_kv(lines[0]).unwrap()] + rp);
        assert forall|j: int| 0 <= j < lines.len() implies pairs[j] == (#[trigger] line_kv(
            lines[j],
        )).unwrap() by {
            if j > 0 {
                assert(rest[j - 1] == lines[j]);
                assert(pairs[j] == rp[j - 1]);
            }
        }
    }
}

/// A key/value pair the flat file can carry faithfully: no separator in
/// either part, no line break, and no carriage return in the value.
pub open spec fn renderable(key: Seq<char>, value: Seq<char>) -> bool {
    &&& !key.contains('=')
    &&& !key.contains('\n')
    &&& !value.contains('=')
    &&& !value.contains('\n')
    &&& !value.contains('\r')
}

/// The text of a configuration file holding the given entries: one
/// `key=value` line for each.
pub open spec fn spec_render_config(pairs: Seq<(Seq<char>, Seq<char>)>) -> Seq<char>
    decreases pairs.len(),
{
    if pairs.len() == 0 {
        Seq::empty()
    } else {
        pairs[0].0 + seq!['='] + pairs[0].1 + seq!['\n'] + spec_render_config(pairs.drop_first())
    }
}

/// The key/value views of a list of entries.
pub open spec fn pairs_of(v: Seq<Configuration>) -> Seq<(Seq<char>, Seq<char>)> {
    Seq::new(v.len(), |i: int| (v[i].key@, v[i].value@))
}

/// Writes the entries out as `key=value` lines.
pub fn render_config_file(entries: &Vec<Configuration>) -> (r: String)
    ensures
        r@ == spec_render_config(pairs_of(entries@)),
{
    let ghost pairs = pairs_of(entries@);
    let mut r = String::new();
    let len: usize = entries.len();
    let mut i: usize = 0;
    proof {
        assert(pairs.subrange(0, pairs.len() as int) =~~= pairs);
        assert(Seq::<char>::empty() + spec_render_config(pairs) =~= spec_render_config(pairs));
    }
    while i < len
        invariant
            len == entries.len(),
            pairs == pairs_of(entries@),
            pairs.len() == len,
            0 <= i <= len,
            spec_render_config(pairs) == r@ + spec_render_config(
                pairs.subrange(i as int, len as int),
            ),
        decreases len - i,
    {
        let ghost tail = pairs.subrange(i as int, len as int);
        let ghost pre = r@;
        r.append(entries[i].key.as_str());
        r.append("=");
        r.append(entries[i].value.as_str());
        r.append("\n");
        proof {
            reveal_strlit("=");
            reveal_strlit("\n");
            assert("="@ =~= seq!['=']);
            assert("\n"@ =~= seq!['\n']);
            assert(tail[0] == (entries@[i as int].key@, entries@[i as int].value@));
            assert(tail.drop_first() =~~= pairs.subrange(i + 1, len as int));
            assert(pre + (tail[0].0 + seq!['='] + tail[0].1 + seq!['\n'] + spec_render_config(
                tail.drop_first(),
            )) =~= r@ + spec_render_config(tail.drop_first()));
        }
        i = i + 1;
    }
    proof {
        assert(pairs.subrange(len as int, len as int) =~~= Seq::<(Seq<char>, Seq<char>)>::empty());
        assert(r@ + Seq::<char>::empty() =~= r@);
    }
    r
}

/// Round trip of the flat store: parsing a rendered file recovers exactly
/// the entries that were written, for every list of renderable entries.
pub proof fn lemma_config_render_round_trip(pairs: Seq<(Seq<char>, Seq<char>)>)
    requires
        forall|i: int| 0 <= i < pairs.len() ==> renderable(#[trigger] pairs[i].0, pairs[i].1),
    ensures
        spec_parse_config(spec_lines(spec_render_config(pairs))) == Some(pairs),
    decreases pairs.len(),
{
    if pairs.len() == 0 {
        assert(spec_lines(Seq::<char>::empty()) =~~= Seq::<Seq<char>>::empty());
        assert(spec_parse_config(Seq::<Seq<char>>::empty()).unwrap() =~~= pairs);
    } else {
        let k = pairs[0].0;
        let v = pairs[0].1;
        let line = k + seq!['='] + v;
        let rest = spec_render_config(pairs.drop_first());
        let s = spec_render_config(pairs);
        let p = line.len() as int;
        assert(s =~= line + seq!['\n'] + rest);
        assert(s[p] == '\n');
        assert(forall|j: int| 0 <= j < k.len() ==> s[j] == k[j]);
        assert(forall|j: int| 0 <= j < v.len() ==> s[k.len() + 1 + j] == v[j]);
        assert forall|j: int| 0 <= j < p implies s[j] != '\n' by {
            if j < k.len() {
                assert(s[j] == k[j]);
            } else if j == k.len() {
                assert(s[j] == '=');
            } else {
                assert(s[j] == v[j - k.len() - 1]);
            }
        }
        assert(s.contains('\n'));
        crate::strutil::lemma_first_nl(s, p);
        let head = s.subrange(0, p);
        assert(head =~= line);
        assert(crate::strutil::strip_cr(head) == head) by {
            if head.len() > 0 && head[head.len() - 1] == '\r' {
                if v.len() > 0 {
                    assert(head[head.len() - 1] == v[v.len() - 1]);
                    assert(v.contains('\r'));
                } else {
                    assert(head[head.len() - 1] == '=');
                }
            }
        }
        assert(s.subrange(p + 1, s.len() as int) =~= rest);
        assert(spec_lines(s) =~~= seq![line] + spec_lines(rest));
        // the head line reads back as exactly (k, v)
        assert forall|j: int| 0 <= j < k.len() implies line[j] != '=' by {
            assert(line[j] == k[j]);
        }
        assert(line[k.len() as int] == '=');
        assert(line.contains('='));
        lemma_first_eq_at(line, k.len() as int);
        let after = line.subrange(k.len() as int + 1, line.len() as int);
        assert(after =~= v);
        assert(!after.contains('='));
        assert(line_kv(line) == Some((line.subrange(0, k.len() as int), after)));
        assert(line.subrange(0, k.len() as int) =~= k);
        // the remaining lines read back by induction
        lemma_config_render_round_trip(pairs.drop_first());
        let parsed = spec_parse_config(spec_lines(s));
        assert(spec_lines(s)[0] == line);
        assert(spec_lines(s).drop_first() =~~= spec_lines(rest));
        assert(parsed == Some(
            seq![(k, v)] + spec_parse_config(spec_lines(rest)).unwrap(),
        ));
        assert(seq![(k, v)] + pairs.drop_first() =~~= pairs);
    }
}

/// Looks `key` up in the text of a configuration file: the value of the
/// first entry carrying the key; an error when the file is malformed or the
/// key is absent.
pub fn get_config_value(file_string: &str, key: &str) -> (r: Result<String, FileError>)
    ensures
        match spec_parse_config(spec_lines(file_string@)) {
            Some(pairs) => {
                if exists|i: int| 0 <= i < pairs.len() && (#[trigger] pairs[i]).0 == key@ {
                    r is Ok && exists|i: int|
                        {
                            &&& 0 <= i < pairs.len()
                            &&& (#[trigger] pairs[i]).0 == key@
                            &&& r->Ok_0@ == pairs[i].1
                            &&& forall|j: int| 0 <= j < i ==> (#[trigger] pairs[j]).0 != key@
                        }
                } else {
                    r is Err
                }
            },
            None => r is Err,
        },
{
    let entries = match parse_config_file(file_string) {
        Ok(entries) => entries,
        Err(e) => {
            return Err(e);
        },
    };
    let ghost pairs = spec_parse_config(spec_lines(file_string@)).unwrap();
    let len: usize = entries.len();
    let mut i: usize = 0;
    while i < len
        invariant
            len == entries.len(),
            0 <= i <= len,
            spec_parse_config(spec_lines(file_string@)) is Some,
            pairs == spec_parse_config(spec_lines(file_string@)).unwrap(),
            entries@.len() == pairs.len(),
            forall|j: int|
                0 <= j < pairs.len() ==> (#[trigger] entries@[j]).key@ == pairs[j].0
                    && entries@[j].value@ == pairs[j].1,
            forall|j: int| 0 <= j < i ==> (#[trigger] pairs[j]).0 != key@,
        decreases len - i,
    {
        if str_eq(entries[i].key.as_str(), key) {
            assert(pairs[i as int].0 == key@);
            return Ok(entries[i].value.clone());
        }
        i = i + 1;
    }
    Err(FileError::new(("Key not found").to_owned()))
}

} // verus!
