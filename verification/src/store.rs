//! The configuration store, backed by the repository-local `git config`
//! space.  As with the command layer, builders render the command lines and
//! an interpreter reads the outcome; running them is the caller's business.

use vstd::prelude::*;

verus! {

/// Builders for the `git config` commands that persist and retrieve the six
/// flow names.
pub struct Store;

impl Store {
    /// The command that looks up the value stored under `branch_name`.
    pub fn get(branch_name: &str) -> (r: String)
        ensures
            r@ == spec_store_get_cmd(branch_name@),
    {
        let mut r = ("git config --local --get ").to_owned();
        r.append(branch_name);
        r
    }

    /// The command that stores `value` under `branch_name`.
    pub fn add(branch_name: &str, value: &str) -> (r: String)
        ensures
            r@ == spec_store_add_cmd(branch_name@, value@),
    {
        let mut r = ("git config --local --add ").to_owned();
        r.append(branch_name);
        r.append(" ");
        r.append(value);
        r
    }

    /// Reads the outcome of [`Store::get`]: the key exists exactly when the
    /// lookup succeeded.
    pub fn exists_entry(get_output: &Result<String, String>) -> (r: bool)
        ensures
            r == (get_output is Ok),
    {
        match get_output {
            Ok(_) => true,
            Err(_) => false,
        }
    }
}

/// The lookup command line.
pub open spec fn spec_store_get_cmd(key: Seq<char>) -> Seq<char> {
    "git config --local --get "@ + key
}

/// The store command line.
pub open spec fn spec_store_add_cmd(key: Seq<char>, value: Seq<char>) -> Seq<char> {
    "git config --local --add "@ + key + " "@ + value
}

} // verus!
