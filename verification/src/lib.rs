//! Move the newest commit of the current branch, the fix, onto another
//! commit as a new branch, without checking anything out; then, if asked,
//! take the fix off the current branch, with what is not committed set
//! aside and put back around that.
//!
//! - `phase`: the steps of a run, their order, and which of them a plan
//!   takes.
//! - `machine`: the run as a state machine over plain values. A state says
//!   what to do next, an event says what came of it.
//! - `laws`: what holds of every run, proved of the machine.
//! - `rules`: the decisions that need one observation only.
//! - `workflow`: the machine driven on a repository, and the functions that
//!   callers use.
//! - `branch`: the guess at the default branch of the remote.
//! - `publish`: the arguments for publishing a branch.
//! - `git`: the calls into `git2`, which are believed, not proved.
//! - `model`, `error`: the values that all of these speak of.

pub mod branch;
pub mod error;
pub mod git;
pub mod laws;
pub mod machine;
pub mod model;
pub mod phase;
pub mod publish;
pub mod rules;
pub mod workflow;

pub use crate::branch::get_default_branch;
pub use crate::error::{Detail, ErrorKind, QuickfixError};
pub use crate::machine::{Action, CommitRequest, Event, Observed, Request, State};
pub use crate::model::{
    CommitSnapshot, ConflictSides, DirtyEntry, FailureClass, FailureCode, GitFailure, Picked,
    PushStatus, RepoState, StashAttempt,
};
pub use crate::phase::{Phase, Plan};
pub use crate::publish::push_arguments;
pub use crate::workflow::{
    assure_repo_in_normal_state, assure_workspace_is_clean, cherrypick_commit_onto_new_branch,
    remove_commit_from_head, resume, run, stash, wrapper_pick_and_clean,
};
