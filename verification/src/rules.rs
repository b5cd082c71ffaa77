//! The decisions of the workflow that need one observation only, each as a
//! function of what was observed.

use vstd::prelude::*;
use crate::error::{Detail, ErrorKind, QuickfixError};
use crate::model::{CommitSnapshot, DirtyEntry, GitFailure, RepoState, StashAttempt};

verus! {

/// Whether the error is a fresh one of the given kind with that detail.
pub open spec fn fresh(e: QuickfixError, kind: ErrorKind, detail: Detail) -> bool {
    &&& e.kind == kind
    &&& e.detail == detail
    &&& e.suggestions@ == kind.hints()
    &&& e.cleanup is None
}

/// A repository may be worked on only while no other operation is in
/// progress in it.
pub fn check_state(state: RepoState) -> (r: Result<(), QuickfixError>)
    ensures
        r is Ok <==> state.normal(),
        r matches Err(e) ==> fresh(e, ErrorKind::RepositoryBusy, Detail::State(state)),
{
    if state.is_normal() {
        Ok(())
    } else {
        Err(QuickfixError::new(ErrorKind::RepositoryBusy, Detail::State(state)))
    }
}

/// A workspace is clean if nothing is listed for it; else the error holds
/// all that is.
pub fn check_workspace(entries: Vec<DirtyEntry>) -> (r: Result<(), QuickfixError>)
    ensures
        r is Ok <==> entries@.len() == 0,
        r matches Err(e) ==> fresh(e, ErrorKind::DirtyWorkspace, Detail::Dirty(entries)),
{
    if entries.len() == 0 {
        Ok(())
    } else {
        Err(QuickfixError::new(ErrorKind::DirtyWorkspace, Detail::Dirty(entries)))
    }
}

/// Whether changes were set aside: yes where saving them went through, no
/// where saving was refused because there was nothing to save, which is no
/// error. Any other refusal is passed on, and so is every failure to read
/// who sets the changes aside, whatever it looks like.
pub fn stash_outcome(attempt: StashAttempt) -> (r: Result<bool, QuickfixError>)
    ensures
        attempt is Saved ==> r == Ok::<bool, QuickfixError>(true),
        attempt matches StashAttempt::Refused(f) ==> {
            if f.nothing_to_stash() {
                r == Ok::<bool, QuickfixError>(false)
            } else {
                r matches Err(e) && fresh(e, ErrorKind::ObjectStoreError, Detail::Git(f))
            }
        },
        attempt matches StashAttempt::NoIdentity(f) ==> r matches Err(e) && fresh(
            e,
            ErrorKind::ObjectStoreError,
            Detail::Git(f),
        ),
{
    match attempt {
        StashAttempt::Saved => Ok(true),
        StashAttempt::Refused(f) => {
            if f.is_nothing_to_stash() {
                Ok(false)
            } else {
                Err(QuickfixError::new(ErrorKind::ObjectStoreError, Detail::Git(f)))
            }
        },
        StashAttempt::NoIdentity(f) => Err(
            QuickfixError::new(ErrorKind::ObjectStoreError, Detail::Git(f)),
        ),
    }
}

/// The commit that a branch is reset to when its tip is dropped: the only
/// parent of the tip. A tip with more or fewer parents cannot be dropped.
pub fn reset_target(tip: &CommitSnapshot) -> (r: Result<git2::Oid, QuickfixError>)
    ensures
        r is Ok <==> tip.replayable(),
        r matches Ok(id) ==> id == tip.parents@[0],
        r matches Err(e) ==> fresh(
            e,
            ErrorKind::UnsupportedMergeCommit,
            Detail::Parents(tip.parents.len()),
        ),
{
    if tip.is_replayable() {
        Ok(tip.parents[0])
    } else {
        Err(QuickfixError::new(ErrorKind::UnsupportedMergeCommit, Detail::Parents(tip.parents.len())))
    }
}

/// Whether ignored files are listed with what is not committed: they are
/// not, so they never make a workspace dirty.
pub open spec fn lists_ignored() -> bool {
    false
}

pub fn include_ignored() -> (r: bool)
    ensures
        r == lists_ignored(),
{
    false
}

/// The message under which changes are set aside.
pub open spec fn stash_text() -> &'static str {
    "quickfix: auto-stash"
}

pub fn stash_message() -> (message: &'static str)
    ensures
        message == stash_text(),
{
    "quickfix: auto-stash"
}

/// The place in the stash of what is put back: 0, the entry saved last,
/// which is the one that this run saved.
pub open spec fn newest_stash() -> usize {
    0
}

pub fn stash_position() -> (position: usize)
    ensures
        position == newest_stash(),
{
    0
}

/// The parent against which the changes of the fix are taken, as git
/// counts it for a replay: 0, which stands for the only parent of a commit
/// that is no merge.
pub open spec fn sole_parent() -> u32 {
    0
}

pub fn mainline() -> (parent: u32)
    ensures
        parent == sole_parent(),
{
    0
}

/// A failure of the object store, passed on as it is.
pub fn object_store_error(failure: GitFailure) -> (e: QuickfixError)
    ensures
        fresh(e, ErrorKind::ObjectStoreError, Detail::Git(failure)),
{
    QuickfixError::new(ErrorKind::ObjectStoreError, Detail::Git(failure))
}

} // verus!
