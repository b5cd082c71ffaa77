//! The calls into `git2`. Nothing in this file is proved: each function's
//! body makes the call, and what is claimed of it is in its doc comment.
//! What a repository holds can change between any two calls, so nothing is
//! claimed of what is read from one.

use vstd::prelude::*;
use crate::model::{CommitSnapshot, ConflictSides, DirtyEntry, FailureClass, FailureCode, GitFailure, RepoState};

verus! {

/// `git2::Repository`, a handle on a repository on disk.
#[verifier::external_type_specification]
#[verifier::external_body]
pub struct ExRepository(git2::Repository);

/// `git2::Error`.
#[verifier::external_type_specification]
#[verifier::external_body]
pub struct ExError(git2::Error);

/// `git2::Oid`, the hash that names an object.
#[verifier::external_type_specification]
#[verifier::external_body]
pub struct ExOid(git2::Oid);

/// `git2::Signature`, a name, an address and a time.
#[verifier::external_type_specification]
#[verifier::external_body]
pub struct ExSignature<'a>(git2::Signature<'a>);

/// `git2::Commit`, a commit looked up in a repository.
#[verifier::external_type_specification]
#[verifier::external_body]
pub struct ExCommit<'a>(git2::Commit<'a>);

/// `git2::Index`, here the in-memory result of a replay.
#[verifier::external_type_specification]
#[verifier::external_body]
pub struct ExIndex(git2::Index);

/// `Error::code`, `Error::class` and `Error::message`, copied into a value
/// of this library. Codes and classes other than the ones the workflow
/// tells apart become `Other`.
#[verifier::external_body]
pub(crate) fn failure_of(error: &git2::Error) -> GitFailure {
    GitFailure {
        code: match error.code() {
            git2::ErrorCode::NotFound => FailureCode::NotFound,
            git2::ErrorCode::Exists => FailureCode::Exists,
            _ => FailureCode::Other,
        },
        class: match error.class() {
            git2::ErrorClass::Stash => FailureClass::Stash,
            _ => FailureClass::Other,
        },
        message: error.message().to_string(),
    }
}

/// `Repository::state`, with each variant mapped to the variant of the same
/// name. libgit2 knows no state beyond these, for which git2 would panic.
#[verifier::external_body]
pub(crate) fn repository_state(repo: &git2::Repository) -> RepoState {
    match repo.state() {
        git2::RepositoryState::Clean => RepoState::Clean,
        git2::RepositoryState::Merge => RepoState::Merge,
        git2::RepositoryState::Revert => RepoState::Revert,
        git2::RepositoryState::RevertSequence => RepoState::RevertSequence,
        git2::RepositoryState::CherryPick => RepoState::CherryPick,
        git2::RepositoryState::CherryPickSequence => RepoState::CherryPickSequence,
        git2::RepositoryState::Bisect => RepoState::Bisect,
        git2::RepositoryState::Rebase => RepoState::Rebase,
        git2::RepositoryState::RebaseInteractive => RepoState::RebaseInteractive,
        git2::RepositoryState::RebaseMerge => RepoState::RebaseMerge,
        git2::RepositoryState::ApplyMailbox => RepoState::ApplyMailbox,
        git2::RepositoryState::ApplyMailboxOrRebase => RepoState::ApplyMailboxOrRebase,
    }
}

/// `Repository::statuses` with default options but for `include_ignored`,
/// each entry handed out as its path (`StatusEntry::path`) and the bits of
/// `StatusEntry::status`.
#[verifier::external_body]
pub(crate) fn list_status(repo: &git2::Repository, include_ignored: bool) -> Result<
    Vec<DirtyEntry>,
    git2::Error,
> {
    let mut options = git2::StatusOptions::new();
    options.include_ignored(include_ignored);
    let statuses = repo.statuses(Some(&mut options))?;
    Ok(
        statuses.iter().map(
            |s| DirtyEntry { path: s.path().ok().map(String::from), status: s.status().bits() },
        ).collect(),
    )
}

/// `Repository::signature`: the configured user and the current time.
#[verifier::external_body]
pub(crate) fn default_signature(repo: &git2::Repository) -> Result<
    git2::Signature<'static>,
    git2::Error,
> {
    repo.signature()
}

/// `Repository::stash_save` without flags. It fails where there is nothing
/// to save.
#[verifier::external_body]
pub(crate) fn stash_save(
    repo: &mut git2::Repository,
    stasher: &git2::Signature<'static>,
    message: &str,
) -> Result<git2::Oid, git2::Error> {
    repo.stash_save(stasher, message, None)
}

/// `Repository::stash_pop` with default options.
#[verifier::external_body]
pub(crate) fn stash_pop(repo: &mut git2::Repository, index: usize) -> Result<(), git2::Error> {
    repo.stash_pop(index, None)
}

/// `Repository::revparse`, then `Revspec::from` peeled to a commit with
/// `Object::peel_to_commit`. `None` where the revision names no object to
/// start from.
#[verifier::external_body]
pub(crate) fn revparse_commit<'r>(repo: &'r git2::Repository, spec: &str) -> Result<
    Option<git2::Commit<'r>>,
    git2::Error,
> {
    repo.revparse(spec)?.from().map(|object| object.peel_to_commit()).transpose()
}

/// `Repository::head` peeled to a commit with `Reference::peel_to_commit`.
#[verifier::external_body]
pub(crate) fn head_commit<'r>(repo: &'r git2::Repository) -> Result<
    git2::Commit<'r>,
    git2::Error,
> {
    repo.head()?.peel_to_commit()
}

/// `Repository::find_commit`.
#[verifier::external_body]
pub(crate) fn find_commit<'r>(repo: &'r git2::Repository, id: git2::Oid) -> Result<
    git2::Commit<'r>,
    git2::Error,
> {
    repo.find_commit(id)
}

/// `Commit::id`, `Commit::parent_ids`, `Commit::author` and
/// `Commit::message_raw`, copied into a value of this library. The copy of
/// the author (`Signature::to_owned`) panics only where memory runs out.
#[verifier::external_body]
pub(crate) fn snapshot(commit: &git2::Commit<'_>) -> CommitSnapshot {
    CommitSnapshot {
        id: commit.id(),
        parents: commit.parent_ids().collect(),
        author: commit.author().to_owned(),
        message: commit.message_raw().ok().map(String::from),
    }
}

/// `Repository::cherrypick_commit` with default merge options: the changes
/// of `pick` against its parent number `mainline`, replayed in memory on the
/// tree of `onto`.
#[verifier::external_body]
pub(crate) fn cherrypick_commit(
    repo: &git2::Repository,
    pick: &git2::Commit<'_>,
    onto: &git2::Commit<'_>,
    mainline: u32,
) -> Result<git2::Index, git2::Error> {
    repo.cherrypick_commit(pick, onto, mainline, None)
}

/// Whether the index holds entries in conflict: what `Index::has_conflicts`
/// says of it.
pub uninterp spec fn index_conflicted(index: git2::Index) -> bool;

/// `Index::has_conflicts`, which reads the index in memory and nothing
/// else.
#[verifier::external_body]
pub(crate) fn index_has_conflicts(index: &git2::Index) -> (conflicted: bool)
    ensures
        conflicted == index_conflicted(*index),
{
    index.has_conflicts()
}

/// `Index::conflicts`, each conflict handed out as the paths of its three
/// entries.
#[verifier::external_body]
pub(crate) fn index_conflicts(index: &git2::Index) -> Result<Vec<ConflictSides>, git2::Error> {
    index.conflicts()?.map(
        |conflict|
            conflict.map(
                |c|
                    ConflictSides {
                        ancestor: c.ancestor.map(|e| e.path),
                        ours: c.our.map(|e| e.path),
                        theirs: c.their.map(|e| e.path),
                    },
            ),
    ).collect()
}

/// `Index::write_tree_to`: writes the index into the repository as a tree.
/// An index that holds a file in conflict must not be written, so none is
/// handed over.
#[verifier::external_body]
pub(crate) fn write_tree_to(index: &mut git2::Index, repo: &git2::Repository) -> Result<
    git2::Oid,
    git2::Error,
>
    requires
        !index_conflicted(*old(index)),
{
    index.write_tree_to(repo)
}

/// `Repository::branch`, then the full name of the new reference
/// (`Branch::get`, `Reference::name`), absent where it is not text.
#[verifier::external_body]
pub(crate) fn create_branch(
    repo: &git2::Repository,
    name: &str,
    target: &git2::Commit<'_>,
    force: bool,
) -> Result<Option<String>, git2::Error> {
    let branch = repo.branch(name, target, force)?;
    Ok(branch.get().name().ok().map(String::from))
}

/// `Repository::commit` with one parent, on the tree that
/// `Repository::find_tree` gives for `tree`.
#[verifier::external_body]
pub(crate) fn create_commit(
    repo: &git2::Repository,
    update_ref: Option<&str>,
    author: &git2::Signature<'static>,
    committer: &git2::Signature<'static>,
    message: &str,
    tree: git2::Oid,
    parent: &git2::Commit<'_>,
) -> Result<git2::Oid, git2::Error> {
    let tree = repo.find_tree(tree)?;
    repo.commit(update_ref, author, committer, message, &tree, &[parent])
}

/// `Repository::reset` of kind `ResetType::Hard` with default checkout
/// options, to the commit as an object (`Commit::as_object`).
#[verifier::external_body]
pub(crate) fn reset_hard(repo: &git2::Repository, target: &git2::Commit<'_>) -> Result<
    (),
    git2::Error,
> {
    repo.reset(target.as_object(), git2::ResetType::Hard, None)
}

/// Whether `Repository::resolve_reference_from_short_name` finds a
/// reference.
#[verifier::external_body]
pub(crate) fn reference_exists(repo: &git2::Repository, short_name: &str) -> bool {
    repo.resolve_reference_from_short_name(short_name).is_ok()
}

} // verus!
