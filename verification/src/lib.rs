//! A branch-based release workflow over a version-control backend.
//!
//! Branches carry a semantic category — feature, bugfix, hotfix, release,
//! develop, main — and the flow automates their creation (`start`) and
//! retirement (`finish`), converging changes through a hosted merge request
//! when a remote is configured and through local merges when none is.
//!
//! The library holds everything that decides: the branch model and its
//! parsing (`branch`), source resolution over the commit graph (`resolve`),
//! the command lines of the backend and the reading of their output
//! (`gitv2`, `store`), merge-request URLs (`browser`), the configuration
//! file (`configfile`), name validation (`names`), the command-line surface
//! (`args`), and the orchestrator state machine itself (`flow`).  Running a
//! command, reading a line and opening a URL are left to the caller that
//! drives the machine.

pub mod args;
pub mod branch;
pub mod browser;
pub mod configfile;
pub mod constants;
pub mod flow;
pub mod gitv2;
pub mod names;
pub mod resolve;
pub mod store;
pub mod strutil;

use vstd::prelude::*;

verus! {

/// The closed set of error kinds that the flow commands surface.
#[derive(Debug, PartialEq)]
pub enum FlowError {
    ConfigKeyNotFound,
    BackendCommandFailed(String),
    BranchNameInvalid,
    BranchNameAlreadyTaken,
    UnknownBranchPrefixOrName,
    NoSourceBranchFound,
    RemoteNotConfigured,
}

impl Clone for FlowError {
    /// A clone is equal to the original.
    fn clone(&self) -> (r: Self)
        ensures
            r == *self,
    {
        match self {
            FlowError::ConfigKeyNotFound => FlowError::ConfigKeyNotFound,
            FlowError::BackendCommandFailed(m) => FlowError::BackendCommandFailed(m.clone()),
            FlowError::BranchNameInvalid => FlowError::BranchNameInvalid,
            FlowError::BranchNameAlreadyTaken => FlowError::BranchNameAlreadyTaken,
            FlowError::UnknownBranchPrefixOrName => FlowError::UnknownBranchPrefixOrName,
            FlowError::NoSourceBranchFound => FlowError::NoSourceBranchFound,
            FlowError::RemoteNotConfigured => FlowError::RemoteNotConfigured,
        }
    }
}

} // verus!
