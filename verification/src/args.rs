//! Parsing of the command-line invocation into a flow action.
//!
//! The surface is `init`, `<category> start <name>` and
//! `<category> finish <name>`, the category case-insensitive; anything else
//! parses to no action.

use vstd::prelude::*;

use crate::branch::Branch;
use crate::branch::Category;
use crate::resolve::is_branch;
use crate::strutil::str_eq;

verus! {

/// The action a command-line invocation asks for.
#[derive(Debug)]
pub enum Action {
    Init,
    Start(Branch, Option<Branch>),
    Finish(Branch),
}

/// The lowercase mapping of a piece of text, which depends on its characters
/// alone.
pub uninterp spec fn lower_of(s: Seq<char>) -> Seq<char>;

/// Relies on `str::to_lowercase`: the Unicode lowercase mapping of the text.
#[verifier::external_body]
fn lowercase(s: &str) -> (r: String)
    ensures
        r@ == lower_of(s@),
{
    s.to_lowercase()
}

/// The category keyword argument, when present.
pub open spec fn spec_branch_prefix_arg(args: Seq<Seq<char>>) -> Option<Seq<char>> {
    if args.len() >= 2 {
        Some(args[1])
    } else {
        None
    }
}

/// The action keyword: `init` in first position, else the second word.
pub open spec fn spec_action_text(args: Seq<Seq<char>>) -> Option<Seq<char>> {
    if args.len() >= 2 && args[1] == "init"@ {
        Some(args[1])
    } else if args.len() >= 3 {
        Some(args[2])
    } else {
        None
    }
}

/// The branch-name argument, when present.
pub open spec fn spec_branch_name_arg(args: Seq<Seq<char>>) -> Option<Seq<char>> {
    if args.len() >= 4 {
        Some(args[3])
    } else {
        None
    }
}

/// The category selected by a keyword, compared lowercase.
pub open spec fn spec_keyword_category(word: Seq<char>) -> Option<Category> {
    let lw = lower_of(word);
    if lw == "feature"@ {
        Some(Category::Feature)
    } else if lw == "hotfix"@ {
        Some(Category::Hotfix)
    } else if lw == "bugfix"@ {
        Some(Category::Bugfix)
    } else if lw == "release"@ {
        Some(Category::Release)
    } else {
        None
    }
}

/// The category and name of the branch an invocation names, when both the
/// keyword and the name are present and the keyword is recognized.
pub open spec fn spec_calculated_branch(args: Seq<Seq<char>>) -> Option<(Category, Seq<char>)> {
    match (spec_branch_prefix_arg(args), spec_branch_name_arg(args)) {
        (Some(word), Some(name)) => match spec_keyword_category(word) {
            Some(cat) => Some((cat, name)),
            None => None,
        },
        _ => None,
    }
}

impl Action {
    /// The category keyword argument, when present.
    fn branch_prefix(args: &Vec<String>) -> (r: Option<&str>)
        ensures
            match spec_branch_prefix_arg(args.deep_view()) {
                Some(w) => r is Some && r.unwrap()@ == w,
                None => r is None,
            },
    {
        if args.len() >= 2 {
            return Some(args[1].as_str());
        }
        None
    }

    /// The action keyword, when present.
    fn action_text(args: &Vec<String>) -> (r: Option<&str>)
        ensures
            match spec_action_text(args.deep_view()) {
                Some(w) => r is Some && r.unwrap()@ == w,
                None => r is None,
            },
    {
        if args.len() >= 2 && str_eq(args[1].as_str(), "init") {
            return Some(args[1].as_str());
        }
        if args.len() >= 3 {
            return Some(args[2].as_str());
        }
        None
    }

    /// The branch-name argument, when present.
    fn branch_name(args: &Vec<String>) -> (r: Option<&str>)
        ensures
            match spec_branch_name_arg(args.deep_view()) {
                Some(w) => r is Some && r.unwrap()@ == w,
                None => r is None,
            },
    {
        if args.len() >= 4 {
            return Some(args[3].as_str());
        }
        None
    }

    /// The branch a keyword and name describe, the keyword read
    /// case-insensitively.
    fn branch(branch_type: &str, name: &str) -> (r: Option<Branch>)
        ensures
            match spec_keyword_category(branch_type@) {
                Some(cat) => r is Some && is_branch(&r.unwrap(), cat, name@),
                None => r is None,
            },
    {
        let lower = lowercase(branch_type);
        if str_eq(lower.as_str(), "feature") {
            Some(Branch::Feature(name.to_owned()))
        } else if str_eq(lower.as_str(), "hotfix") {
            Some(Branch::Hotfix(name.to_owned()))
        } else if str_eq(lower.as_str(), "bugfix") {
            Some(Branch::Bugfix(name.to_owned()))
        } else if str_eq(lower.as_str(), "release") {
            Some(Branch::Release(name.to_owned()))
        } else {
            None
        }
    }

    /// The branch an invocation names, when it names one.
    fn calculate_branch(args: &Vec<String>) -> (r: Option<Branch>)
        ensures
            match spec_calculated_branch(args.deep_view()) {
                Some((cat, name)) => r is Some && is_branch(&r.unwrap(), cat, name),
                None => r is None,
            },
    {
        let branch_prefix = Self::branch_prefix(args);
        let branch_name = Self::branch_name(args);
        match (branch_prefix, branch_name) {
            (Some(prefix), Some(name)) => Self::branch(prefix, name),
            _ => None,
        }
    }

    /// Reads an invocation into an action: `init`, or `start`/`finish` of a
    /// recognized branch; anything else is no action.
    pub fn new(args: &Vec<String>) -> (r: Option<Self>)
        ensures
            ({
                let a = args.deep_view();
                match spec_action_text(a) {
                    None => r is None,
                    Some(t) => {
                        if t == "init"@ {
                            r is Some && r.unwrap() is Init
                        } else if t == "finish"@ {
                            match spec_calculated_branch(a) {
                                Some((cat, name)) => r is Some && r.unwrap() is Finish
                                    && is_branch(&r.unwrap()->Finish_0, cat, name),
                                None => r is None,
                            }
                        } else if t == "start"@ {
                            match spec_calculated_branch(a) {
                                Some((cat, name)) => r is Some && r.unwrap() is Start
                                    && is_branch(&r.unwrap()->Start_0, cat, name)
                                    && r.unwrap()->Start_1 is None,
                                None => r is None,
                            }
                        } else {
                            r is None
                        }
                    },
                }
            }),
    {
        match Self::action_text(args) {
            Some(text) => {
                if str_eq(text, "init") {
                    Some(Action::Init)
                } else if str_eq(text, "finish") {
                    match Self::calculate_branch(args) {
                        Some(branch) => Some(Action::Finish(branch)),
                        None => None,
                    }
                } else if str_eq(text, "start") {
                    match Self::calculate_branch(args) {
                        Some(branch) => Some(Action::Start(branch, None)),
                        None => None,
                    }
                } else {
                    None
                }
            },
            None => None,
        }
    }
}

/// The older positional reading of an invocation: the action word with the
/// category and name arguments it carries.
#[derive(Debug)]
pub struct Interpreter;

impl Interpreter {
    /// Reads an argument list of exactly `init`, or of `start`/`finish` with
    /// two further words, into the action word and its two parameters.
    pub fn get_parameter(args: Vec<String>) -> (r: Option<(String, (String, String))>)
        ensures
            ({
                let a = args.deep_view();
                if a.len() == 2 && a[1] == "init"@ {
                    r is Some && r.unwrap().0@ == "init"@ && r.unwrap().1.0@
                        == Seq::<char>::empty() && r.unwrap().1.1@ == Seq::<char>::empty()
                } else if a.len() == 4 && (a[1] == "start"@ || a[1] == "finish"@) {
                    r is Some && r.unwrap().0@ == a[1] && r.unwrap().1.0@ == a[2]
                        && r.unwrap().1.1@ == a[3]
                } else {
                    r is None
                }
            }),
    {
        let args_size: usize = args.len();
        match args_size {
            2 => {
                if str_eq(args[1].as_str(), "init") {
                    Some((("init").to_owned(), (String::new(), String::new())))
                } else {
                    None
                }
            },
            4 => {
                if str_eq(args[1].as_str(), "start") {
                    Some((("start").to_owned(), (args[2].clone(), args[3].clone())))
                } else if str_eq(args[1].as_str(), "finish") {
                    Some((("finish").to_owned(), (args[2].clone(), args[3].clone())))
                } else {
                    None
                }
            },
            _ => None,
        }
    }
}

} // verus!
