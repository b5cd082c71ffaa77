//! Plain values that describe what was observed in a repository.

use vstd::prelude::*;

verus! {

/// The operation a repository is in the middle of, if any.
#[derive(Clone, Copy, Debug, PartialEq, Eq, Structural)]
pub enum RepoState {
    Clean,
    Merge,
    Revert,
    RevertSequence,
    CherryPick,
    CherryPickSequence,
    Bisect,
    Rebase,
    RebaseInteractive,
    RebaseMerge,
    ApplyMailbox,
    ApplyMailboxOrRebase,
}

impl RepoState {
    /// Only a repository with no operation in progress may be worked on.
    pub open spec fn normal(self) -> bool {
        self == RepoState::Clean
    }

    pub fn is_normal(self) -> (r: bool)
        ensures
            r == self.normal(),
    {
        self == RepoState::Clean
    }
}

/// What the object store said about why an operation failed, as far as the
/// workflow tells failures apart.
#[derive(Clone, Copy, Debug, PartialEq, Eq, Structural)]
pub enum FailureCode {
    NotFound,
    Exists,
    Other,
}

/// The part of the object store in which an operation failed, as far as the
/// workflow tells failures apart.
#[derive(Clone, Copy, Debug, PartialEq, Eq, Structural)]
pub enum FailureClass {
    Stash,
    Other,
}

/// A failure reported by the object store, with its message unchanged.
#[derive(Debug)]
pub struct GitFailure {
    pub code: FailureCode,
    pub class: FailureClass,
    pub message: String,
}

impl GitFailure {
    /// Saving a stash with nothing to save is reported as a missing object
    /// of the stash.
    pub open spec fn nothing_to_stash(self) -> bool {
        self.code == FailureCode::NotFound && self.class == FailureClass::Stash
    }

    pub fn is_nothing_to_stash(&self) -> (r: bool)
        ensures
            r == self.nothing_to_stash(),
    {
        self.code == FailureCode::NotFound && self.class == FailureClass::Stash
    }

    /// A reference of that name is in the way.
    pub open spec fn name_taken(self) -> bool {
        self.code == FailureCode::Exists
    }

    pub fn is_name_taken(&self) -> (r: bool)
        ensures
            r == self.name_taken(),
    {
        self.code == FailureCode::Exists
    }
}

/// How the attempt to set aside what is not committed went.
#[derive(Debug)]
pub enum StashAttempt {
    /// An entry was saved.
    Saved,
    /// Saving was refused. The reason may be that there was nothing to
    /// save.
    Refused(GitFailure),
    /// Who sets the changes aside could not be read, so saving was not
    /// tried.
    NoIdentity(GitFailure),
}

/// One path of the working tree or index that differs from the last commit,
/// with the bits that say how. The path is absent where it is not text.
#[derive(Debug)]
pub struct DirtyEntry {
    pub path: Option<String>,
    pub status: u32,
}

/// What the workflow reads of a commit.
pub struct CommitSnapshot {
    pub id: git2::Oid,
    pub parents: Vec<git2::Oid>,
    pub author: git2::Signature<'static>,
    /// The raw message; absent where it is not text.
    pub message: Option<String>,
}

impl CommitSnapshot {
    /// Only the changes of a commit with one parent can be replayed: with
    /// more or fewer there is no single commit to compare it with.
    pub open spec fn replayable(self) -> bool {
        self.parents@.len() == 1
    }

    pub fn is_replayable(&self) -> (r: bool)
        ensures
            r == self.replayable(),
    {
        self.parents.len() == 1
    }
}

/// The paths of the up to three entries that disagree about one file.
#[derive(Debug)]
pub struct ConflictSides {
    pub ancestor: Option<Vec<u8>>,
    pub ours: Option<Vec<u8>>,
    pub theirs: Option<Vec<u8>>,
}

impl ConflictSides {
    /// The path by which the conflict is reported: that of our side, else
    /// of their side, else of the common ancestor.
    pub open spec fn reported_path(self) -> Option<Vec<u8>> {
        if self.ours is Some {
            self.ours
        } else if self.theirs is Some {
            self.theirs
        } else {
            self.ancestor
        }
    }

    pub fn path(&self) -> (r: Option<&Vec<u8>>)
        ensures
            r is Some <==> self.reported_path() is Some,
            r is Some ==> *r->0 == self.reported_path()->0,
    {
        match &self.ours {
            Some(path) => Some(path),
            None => match &self.theirs {
                Some(path) => Some(path),
                None => match &self.ancestor {
                    Some(path) => Some(path),
                    None => None,
                },
            },
        }
    }
}

/// The result of replaying a commit in memory.
pub enum Picked {
    /// The replay was written down as the tree with this id.
    Tree(git2::Oid),
    /// The replay left these paths in conflict, and nothing was written.
    Conflicts(Vec<ConflictSides>),
}

/// How the attempt to publish a branch ended.
#[derive(Clone, Copy, Debug, PartialEq, Eq, Structural)]
pub struct PushStatus {
    pub success: bool,
    /// The exit code, where the tool ran and gave one.
    pub code: Option<i32>,
}

} // verus!
