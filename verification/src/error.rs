//! The error of the workflow: a kind, what was observed, and hints for the
//! user that each layer may add to.

use vstd::prelude::*;
use crate::model::{ConflictSides, DirtyEntry, GitFailure, RepoState};

verus! {

/// The ways in which the workflow fails.
#[derive(Clone, Copy, Debug, PartialEq, Eq, Structural)]
pub enum ErrorKind {
    /// Another operation is in progress in the repository.
    RepositoryBusy,
    /// The working tree or the index holds changes that are not committed.
    DirtyWorkspace,
    /// The commit has more or fewer than one parent.
    UnsupportedMergeCommit,
    /// The changes do not apply cleanly to the target.
    MergeConflict,
    /// The name of the new branch is taken.
    BranchAlreadyExists,
    /// The message of the commit is not text.
    InvalidMessageEncoding,
    /// None of the usual names resolves to a branch of the remote.
    DefaultBranchNotFound,
    /// The new branch could not be published.
    PushFailed,
    /// The object store failed; its own message is passed on.
    ObjectStoreError,
}

/// What was observed when the workflow failed.
#[derive(Debug)]
pub enum Detail {
    Nothing,
    /// The operation in progress.
    State(RepoState),
    /// The paths that are not clean.
    Dirty(Vec<DirtyEntry>),
    /// The number of parents of the commit.
    Parents(usize),
    /// The paths in conflict.
    Conflicts(Vec<ConflictSides>),
    /// The exit code of the tool, where it gave one.
    Exit(Option<i32>),
    /// The failure of the object store.
    Git(GitFailure),
}

#[derive(Debug)]
pub struct QuickfixError {
    pub kind: ErrorKind,
    pub detail: Detail,
    /// What the user may try, in the order in which it was added.
    pub suggestions: Vec<&'static str>,
    /// Why the stashed changes could not be put back after this error.
    pub cleanup: Option<GitFailure>,
}

impl ErrorKind {
    /// One sentence that says what went wrong.
    pub open spec fn summary_text(self) -> &'static str {
        match self {
            ErrorKind::RepositoryBusy => "The repository is currently not in a clean state.",
            ErrorKind::DirtyWorkspace => "The repository is dirty.",
            ErrorKind::UnsupportedMergeCommit => "Only works with non-merge commits",
            ErrorKind::MergeConflict => "The commit does not apply cleanly to the target.",
            ErrorKind::BranchAlreadyExists => "A branch of that name already exists.",
            ErrorKind::InvalidMessageEncoding => "Could not read the commit message.",
            ErrorKind::DefaultBranchNotFound => "Could not find remote default branch.",
            ErrorKind::PushFailed => "Failed to run git push.",
            ErrorKind::ObjectStoreError => "The repository reported an error.",
        }
    }

    pub fn summary(self) -> (r: &'static str)
        ensures
            r == self.summary_text(),
    {
        match self {
            ErrorKind::RepositoryBusy => "The repository is currently not in a clean state.",
            ErrorKind::DirtyWorkspace => "The repository is dirty.",
            ErrorKind::UnsupportedMergeCommit => "Only works with non-merge commits",
            ErrorKind::MergeConflict => "The commit does not apply cleanly to the target.",
            ErrorKind::BranchAlreadyExists => "A branch of that name already exists.",
            ErrorKind::InvalidMessageEncoding => "Could not read the commit message.",
            ErrorKind::DefaultBranchNotFound => "Could not find remote default branch.",
            ErrorKind::PushFailed => "Failed to run git push.",
            ErrorKind::ObjectStoreError => "The repository reported an error.",
        }
    }

    /// The hints that an error of this kind starts with.
    pub open spec fn hints(self) -> Seq<&'static str> {
        match self {
            ErrorKind::DirtyWorkspace => seq![
                "Consider auto-stashing your changes with --autostash.",
            ],
            ErrorKind::UnsupportedMergeCommit => seq![
                "Quickfixing a merge commit is not supported. If you meant to do this please file a ticket with your use case.",
            ],
            ErrorKind::BranchAlreadyExists => seq![
                "Consider using --force to overwrite the existing branch",
            ],
            ErrorKind::InvalidMessageEncoding => seq![
                "Make sure the commit message contains only UTF-8 characters or try to manually cherry-pick the commit.",
            ],
            ErrorKind::DefaultBranchNotFound => seq![
                "Manually set the target branch with `--onto`.",
            ],
            _ => seq![],
        }
    }
}

impl QuickfixError {
    /// An error of the given kind with the hints of that kind, and no
    /// failure of a clean-up.
    pub fn new(kind: ErrorKind, detail: Detail) -> (e: QuickfixError)
        ensures
            e.kind == kind,
            e.detail == detail,
            e.suggestions@ == kind.hints(),
            e.cleanup is None,
    {
        let mut suggestions: Vec<&'static str> = Vec::new();
        match kind {
            ErrorKind::DirtyWorkspace => {
                suggestions.push("Consider auto-stashing your changes with --autostash.");
            },
            ErrorKind::UnsupportedMergeCommit => {
                suggestions.push(
                    "Quickfixing a merge commit is not supported. If you meant to do this please file a ticket with your use case.",
                );
            },
            ErrorKind::BranchAlreadyExists => {
                suggestions.push("Consider using --force to overwrite the existing branch");
            },
            ErrorKind::InvalidMessageEncoding => {
                suggestions.push(
                    "Make sure the commit message contains only UTF-8 characters or try to manually cherry-pick the commit.",
                );
            },
            ErrorKind::DefaultBranchNotFound => {
                suggestions.push("Manually set the target branch with `--onto`.");
            },
            _ => {},
        }
        QuickfixError { kind, detail, suggestions, cleanup: None }
    }

    /// The same error with one more hint after those it has.
    pub fn suggestion(self, hint: &'static str) -> (e: QuickfixError)
        ensures
            e.kind == self.kind,
            e.detail == self.detail,
            e.suggestions@ == self.suggestions@.push(hint),
            e.cleanup == self.cleanup,
    {
        let mut suggestions = self.suggestions;
        suggestions.push(hint);
        QuickfixError { kind: self.kind, detail: self.detail, suggestions, cleanup: self.cleanup }
    }

    /// The same error, which stays the primary one, with the failure of the
    /// clean-up that followed it. A failure recorded earlier is kept.
    pub fn with_cleanup(self, failure: GitFailure) -> (e: QuickfixError)
        ensures
            e.kind == self.kind,
            e.detail == self.detail,
            e.suggestions == self.suggestions,
            e.cleanup == (if self.cleanup is Some { self.cleanup } else { Some(failure) }),
    {
        let cleanup = match self.cleanup {
            Some(first) => Some(first),
            None => Some(failure),
        };
        QuickfixError { kind: self.kind, detail: self.detail, suggestions: self.suggestions, cleanup }
    }
}

} // verus!
