//! The workflow on a repository: each step of the machine is performed
//! through `git2`, and what comes back is handed to the machine.

use vstd::prelude::*;
use crate::error::{ErrorKind, QuickfixError};
use crate::git::{
    cherrypick_commit, create_branch, create_commit, default_signature, failure_of, find_commit,
    head_commit, index_conflicts, index_has_conflicts, list_status, repository_state,
    reset_hard, revparse_commit, snapshot, stash_pop, stash_save, write_tree_to,
};
use crate::machine::{answers, Action, CommitRequest, Event, Request, State};
use crate::model::{
    CommitSnapshot, DirtyEntry, FailureClass, FailureCode, GitFailure, Picked, StashAttempt,
};
use crate::phase::{Phase, Plan};
use crate::rules::{
    check_state, check_workspace, include_ignored, mainline, object_store_error, reset_target,
    stash_message, stash_outcome, stash_position,
};

verus! {

/// Lists what is not committed, ignored files left out.
fn list_workspace(repo: &git2::Repository) -> (r: Result<Vec<DirtyEntry>, GitFailure>) {
    match list_status(repo, include_ignored()) {
        Ok(entries) => Ok(entries),
        Err(error) => Err(failure_of(&error)),
    }
}

/// Sets aside what is not committed, in the name of the configured user.
/// A failure to read that user is kept apart from a refusal to save.
fn attempt_stash(repo: &mut git2::Repository) -> (r: StashAttempt) {
    let stasher = match default_signature(repo) {
        Ok(signature) => signature,
        Err(error) => {
            return StashAttempt::NoIdentity(failure_of(&error));
        },
    };
    match stash_save(repo, &stasher, stash_message()) {
        Ok(_) => StashAttempt::Saved,
        Err(error) => StashAttempt::Refused(failure_of(&error)),
    }
}

/// Puts back what was set aside last.
fn restore_stash(repo: &mut git2::Repository) -> (r: Result<(), GitFailure>) {
    match stash_pop(repo, stash_position()) {
        Ok(()) => Ok(()),
        Err(error) => Err(failure_of(&error)),
    }
}

/// Reads the newest commit of the current branch.
fn read_head(repo: &git2::Repository) -> (r: Result<CommitSnapshot, GitFailure>) {
    match head_commit(repo) {
        Ok(commit) => Ok(snapshot(&commit)),
        Err(error) => Err(failure_of(&error)),
    }
}

/// Resolves a revision to the id of a commit.
fn resolve_commit(repo: &git2::Repository, revision: &str) -> (r: Result<git2::Oid, GitFailure>) {
    match revparse_commit(repo, revision) {
        Ok(Some(commit)) => Ok(snapshot(&commit).id),
        Ok(None) => Err(
            GitFailure {
                code: FailureCode::NotFound,
                class: FailureClass::Other,
                message: "the revision names no commit".to_owned(),
            },
        ),
        Err(error) => Err(failure_of(&error)),
    }
}

/// Replays the changes that `fix` made to its only parent on the tree of
/// `target`, in memory. Where that leaves conflicts, they are listed and
/// nothing is written; else the result is written as a tree.
fn pick_tree(repo: &git2::Repository, fix: git2::Oid, target: git2::Oid) -> (r: Result<
    Picked,
    GitFailure,
>) {
    let fix_commit = match find_commit(repo, fix) {
        Ok(commit) => commit,
        Err(error) => {
            return Err(failure_of(&error));
        },
    };
    let target_commit = match find_commit(repo, target) {
        Ok(commit) => commit,
        Err(error) => {
            return Err(failure_of(&error));
        },
    };
    let mut index = match cherrypick_commit(repo, &fix_commit, &target_commit, mainline()) {
        Ok(index) => index,
        Err(error) => {
            return Err(failure_of(&error));
        },
    };
    if index_has_conflicts(&index) {
        match index_conflicts(&index) {
            Ok(sides) => Ok(Picked::Conflicts(sides)),
            Err(error) => Err(failure_of(&error)),
        }
    } else {
        match write_tree_to(&mut index, repo) {
            Ok(tree) => Ok(Picked::Tree(tree)),
            Err(error) => Err(failure_of(&error)),
        }
    }
}

/// Creates the branch at the commit and gives the name of its reference.
fn branch_at(repo: &git2::Repository, name: &str, target: git2::Oid, force: bool) -> (r: Result<
    Option<String>,
    GitFailure,
>) {
    let commit = match find_commit(repo, target) {
        Ok(commit) => commit,
        Err(error) => {
            return Err(failure_of(&error));
        },
    };
    match create_branch(repo, name, &commit, force) {
        Ok(reference) => Ok(reference),
        Err(error) => Err(failure_of(&error)),
    }
}

/// Writes the commit that the request describes.
fn write_commit(repo: &git2::Repository, request: &CommitRequest<'_>) -> (r: Result<
    git2::Oid,
    GitFailure,
>) {
    let parent = match find_commit(repo, request.parent) {
        Ok(commit) => commit,
        Err(error) => {
            return Err(failure_of(&error));
        },
    };
    let update_ref = match request.update_ref {
        Some(name) => Some(name.as_str()),
        None => None,
    };
    match create_commit(
        repo,
        update_ref,
        request.author,
        request.committer,
        request.message.as_str(),
        request.tree,
        &parent,
    ) {
        Ok(id) => Ok(id),
        Err(error) => Err(failure_of(&error)),
    }
}

/// Resets the current branch, the index and the working tree to the
/// commit.
fn reset_to(repo: &git2::Repository, target: git2::Oid) -> (r: Result<(), GitFailure>) {
    let commit = match find_commit(repo, target) {
        Ok(commit) => commit,
        Err(error) => {
            return Err(failure_of(&error));
        },
    };
    match reset_hard(repo, &commit) {
        Ok(()) => Ok(()),
        Err(error) => Err(failure_of(&error)),
    }
}

/// Performs the step that is due, where it needs no more than to read the
/// repository handle, and says what came of it.
fn perform_shared(repo: &git2::Repository, state: &State) -> (event: Event)
    requires
        state.phase() != Phase::StashSave,
        state.phase() != Phase::StashPop,
        state.phase() != Phase::Push,
        state.phase() != Phase::Done,
    ensures
        answers(state.phase(), event),
{
    match state.action() {
        Action::ReadState => Event::StateRead(repository_state(repo)),
        Action::ListWorkspace => match list_workspace(repo) {
            Ok(entries) => Event::WorkspaceListed(entries),
            Err(failure) => Event::Failed(failure),
        },
        Action::ResolveTarget(revision) => match resolve_commit(repo, revision.as_str()) {
            Ok(id) => Event::TargetResolved(id),
            Err(failure) => Event::Failed(failure),
        },
        Action::ReadHead => match read_head(repo) {
            Ok(commit) => Event::HeadRead(commit),
            Err(failure) => Event::Failed(failure),
        },
        Action::Pick { fix, target } => match pick_tree(repo, fix, target) {
            Ok(picked) => Event::TreePicked(picked),
            Err(failure) => Event::Failed(failure),
        },
        Action::CreateBranch { name, target, force } => match branch_at(
            repo,
            name.as_str(),
            target,
            force,
        ) {
            Ok(reference) => Event::BranchCreated(reference),
            Err(failure) => Event::Failed(failure),
        },
        Action::ReadIdentity => match default_signature(repo) {
            Ok(signature) => Event::IdentityRead(signature),
            Err(error) => Event::Failed(failure_of(&error)),
        },
        Action::CreateCommit(request) => match write_commit(repo, &request) {
            Ok(id) => Event::CommitCreated(id),
            Err(failure) => Event::Failed(failure),
        },
        Action::ResetHard(target) => match reset_to(repo, target) {
            Ok(()) => Event::HeadReset,
            Err(failure) => Event::Failed(failure),
        },
        // None of these is due, by what is required of the state.
        Action::SaveStash | Action::PopStash | Action::Push(_) | Action::Stop => Event::HeadReset,
    }
}

/// Performs the step that is due and says what came of it.
fn perform(repo: &mut git2::Repository, state: &State) -> (event: Event)
    requires
        state.phase() != Phase::Push,
        state.phase() != Phase::Done,
    ensures
        answers(state.phase(), event),
{
    match state.current() {
        Phase::StashSave => match attempt_stash(repo) {
            StashAttempt::Saved => Event::StashSaved,
            StashAttempt::Refused(failure) => Event::StashRefused(failure),
            StashAttempt::NoIdentity(failure) => Event::Failed(failure),
        },
        Phase::StashPop => match restore_stash(repo) {
            Ok(()) => Event::StashPopped,
            Err(failure) => Event::Failed(failure),
        },
        _ => perform_shared(&*repo, state),
    }
}

/// The later steps go on from the earlier ones.
pub open spec fn extends(later: Seq<Phase>, earlier: Seq<Phase>) -> bool {
    &&& earlier.len() <= later.len()
    &&& forall|i: int| 0 <= i < earlier.len() ==> later[i] == earlier[i]
}

/// What holds of the state in which a run was left, given the state from
/// which it was taken up.
pub open spec fn continues(end: State, begin: State) -> bool {
    &&& end.wf()
    &&& end.request() == begin.request()
    &&& extends(end.history(), begin.history())
    &&& end.phase() == Phase::Done || end.phase() == Phase::Push
    &&& begin.phase() == Phase::Done || begin.phase() == Phase::Push ==> end == begin
    &&& !begin.history().contains(Phase::Push) ==> !end.history().contains(Phase::Push)
}

/// A step other than publishing, added to steps without it, leaves them
/// without it.
proof fn lemma_no_push_added(earlier: Seq<Phase>, step: Phase)
    requires
        !earlier.contains(Phase::Push),
        step != Phase::Push,
    ensures
        !earlier.push(step).contains(Phase::Push),
{
    let later = earlier.push(step);
    if later.contains(Phase::Push) {
        let i = choose|i: int| 0 <= i < later.len() && later[i] == Phase::Push;
        if i < earlier.len() {
            assert(earlier[i] == Phase::Push);
        }
    }
}

/// Takes the steps of the run one after the other, until nothing is left
/// to do or the next thing to do is to publish, which is left to the
/// caller: a run that has nothing left, or only to publish, comes back as
/// it is, and no run comes back with publishing among its steps unless it
/// came with it.
pub fn resume(repo: &mut git2::Repository, state: State) -> (end: State)
    ensures
        continues(end, state),
{
    proof {
        use_type_invariant(&state);
    }
    let ghost begin = state;
    let mut state = state;
    while state.current() != Phase::Done && state.current() != Phase::Push
        invariant
            state.wf(),
            state.request() == begin.request(),
            extends(state.history(), begin.history()),
            begin.phase() == Phase::Done || begin.phase() == Phase::Push ==> state == begin,
            !begin.history().contains(Phase::Push) ==> !state.history().contains(Phase::Push),
        decreases Phase::Done.rank() - state.phase().rank(),
    {
        let ghost before = state;
        let event = perform(repo, &state);
        state = state.advance(event);
        proof {
            if !begin.history().contains(Phase::Push) {
                lemma_no_push_added(before.history(), before.phase());
            }
        }
    }
    state
}

/// As `resume`, for a run that sets nothing aside.
fn resume_shared(repo: &git2::Repository, state: State) -> (end: State)
    requires
        !state.plan().autostash,
    ensures
        continues(end, state),
{
    proof {
        use_type_invariant(&state);
    }
    let ghost begin = state;
    let mut state = state;
    while state.current() != Phase::Done && state.current() != Phase::Push
        invariant
            state.wf(),
            !begin.plan().autostash,
            state.request() == begin.request(),
            extends(state.history(), begin.history()),
            begin.phase() == Phase::Done || begin.phase() == Phase::Push ==> state == begin,
            !begin.history().contains(Phase::Push) ==> !state.history().contains(Phase::Push),
        decreases Phase::Done.rank() - state.phase().rank(),
    {
        proof {
            state.lemma_stash_needs_plan();
        }
        let ghost before = state;
        let event = perform_shared(repo, &state);
        state = state.advance(event);
        proof {
            if !begin.history().contains(Phase::Push) {
                lemma_no_push_added(before.history(), before.phase());
            }
        }
    }
    state
}

/// Runs what the request asks for, but for publishing, which this function
/// never does nor records as done: the state that comes back has
/// `Phase::Push` due exactly where publishing was asked for and nothing
/// failed. The caller then publishes the branch and hands the outcome to
/// `State::advance`.
///
/// Nothing is undone when a step fails: a branch or a commit that was
/// written stays, and so does a reset. The one thing that a failure does not
/// keep from happening is that what was set aside is put back.
pub fn run(repo: &mut git2::Repository, request: Request) -> (end: State)
    ensures
        end.wf(),
        end.request() == request,
        end.phase() == Phase::Done || end.phase() == Phase::Push,
        end.phase() == Phase::Push <==> request.plan.push && end.failure() is None,
        !end.history().contains(Phase::Push),
{
    let state = State::start(request);
    let end = resume(repo, state);
    proof {
        end.lemma_due_step();
        assert(end.history().contains(Phase::Push) == end.performed(Phase::Push));
    }
    end
}

/// What holds of the result of a run whose steps are those of `plan`: it
/// says how some run of the machine under that plan ended, so all that
/// holds of the states of the machine holds of that run.
pub open spec fn ran(
    r: Result<(), QuickfixError>,
    plan: Plan,
    new_branch: &str,
    onto: &str,
    force: bool,
) -> bool {
    exists|end: State|
        {
            &&& #[trigger] end.ends_as(r)
            &&& end.wf()
            &&& end.phase() == Phase::Done
            &&& end.plan() == plan
            &&& end.request().force == force
            &&& end.request().new_branch@ == new_branch@
            &&& end.request().onto@ == onto@
        }
}

/// Fails as busy unless no other operation is in progress in the
/// repository. Nothing is changed.
pub fn assure_repo_in_normal_state(repo: &git2::Repository) -> (r: Result<(), QuickfixError>)
    ensures
        r matches Err(e) ==> {
            &&& e.kind == ErrorKind::RepositoryBusy
            &&& e.detail is State && !e.detail->State_0.normal()
            &&& e.suggestions@ == e.kind.hints()
            &&& e.cleanup is None
        },
{
    check_state(repository_state(repo))
}

/// Fails as dirty unless nothing in the working tree or the index differs
/// from the last commit, ignored files left out. Nothing is changed.
pub fn assure_workspace_is_clean(repo: &git2::Repository) -> (r: Result<(), QuickfixError>)
    ensures
        r matches Err(e) ==> {
            &&& e.kind == ErrorKind::DirtyWorkspace || e.kind == ErrorKind::ObjectStoreError
            &&& e.kind == ErrorKind::DirtyWorkspace ==> e.detail is Dirty && e.detail->Dirty_0@.len()
                > 0
            &&& e.kind == ErrorKind::ObjectStoreError ==> e.detail is Git
            &&& e.suggestions@ == e.kind.hints()
            &&& e.cleanup is None
        },
{
    match list_workspace(repo) {
        Ok(entries) => check_workspace(entries),
        Err(failure) => Err(object_store_error(failure)),
    }
}

/// Sets aside what is not committed. `Ok(true)` where something was set
/// aside, `Ok(false)` where there was nothing to set aside.
pub fn stash(repo: &mut git2::Repository) -> (r: Result<bool, QuickfixError>)
    ensures
        r matches Err(e) ==> {
            &&& e.kind == ErrorKind::ObjectStoreError
            &&& e.detail is Git
            &&& e.suggestions@ == e.kind.hints()
            &&& e.cleanup is None
        },
{
    stash_outcome(attempt_stash(repo))
}

/// Replays the newest commit of the current branch on the commit that
/// `onto_branch` names, and makes the result the tip of a new branch
/// `target_branch` that starts at that commit. The current branch, the index
/// and the working tree stay as they are.
pub fn cherrypick_commit_onto_new_branch(
    repo: &git2::Repository,
    target_branch: &str,
    onto_branch: &str,
    force_new_branch: bool,
) -> (r: Result<(), QuickfixError>)
    ensures
        ran(r, Plan::relocation(), target_branch, onto_branch, force_new_branch),
        r matches Err(e) ==> {
            &&& e.kind == ErrorKind::UnsupportedMergeCommit || e.kind == ErrorKind::MergeConflict
                || e.kind == ErrorKind::BranchAlreadyExists || e.kind
                == ErrorKind::InvalidMessageEncoding || e.kind == ErrorKind::ObjectStoreError
            &&& e.kind == ErrorKind::BranchAlreadyExists ==> !force_new_branch
            &&& e.cleanup is None
        },
{
    let request = Request {
        new_branch: target_branch.to_owned(),
        onto: onto_branch.to_owned(),
        force: force_new_branch,
        plan: Plan::relocate_only(),
    };
    let end = resume_shared(repo, State::start(request));
    proof {
        end.lemma_due_step();
        end.lemma_failure_fits_plan();
    }
    let r = end.into_result();
    assert(end.ends_as(r));
    r
}

/// Drops the newest commit of the current branch: the branch, the index
/// and the working tree are reset to its only parent. What is not
/// committed is lost.
pub fn remove_commit_from_head(repo: &git2::Repository) -> (r: Result<(), QuickfixError>)
    ensures
        r matches Err(e) ==> {
            &&& e.kind == ErrorKind::UnsupportedMergeCommit || e.kind == ErrorKind::ObjectStoreError
            &&& e.kind == ErrorKind::UnsupportedMergeCommit ==> e.detail is Parents
                && e.detail->Parents_0 != 1
            &&& e.kind == ErrorKind::ObjectStoreError ==> e.detail is Git
            &&& e.suggestions@ == e.kind.hints()
            &&& e.cleanup is None
        },
{
    let tip = match read_head(repo) {
        Ok(tip) => tip,
        Err(failure) => {
            return Err(object_store_error(failure));
        },
    };
    let parent = match reset_target(&tip) {
        Ok(parent) => parent,
        Err(error) => {
            return Err(error);
        },
    };
    match reset_to(repo, parent) {
        Ok(()) => Ok(()),
        Err(failure) => Err(object_store_error(failure)),
    }
}

/// Relocates the newest commit of the current branch as
/// `cherrypick_commit_onto_new_branch` does, from a clean workspace only,
/// and then drops it from the current branch.
pub fn wrapper_pick_and_clean(
    repo: &git2::Repository,
    target_branch: &str,
    onto_branch: &str,
    force_new_branch: bool,
) -> (r: Result<(), QuickfixError>)
    ensures
        ran(r, Plan::relocation_and_removal(), target_branch, onto_branch, force_new_branch),
        r matches Err(e) ==> {
            &&& e.kind == ErrorKind::DirtyWorkspace || e.kind == ErrorKind::UnsupportedMergeCommit
                || e.kind == ErrorKind::MergeConflict || e.kind == ErrorKind::BranchAlreadyExists
                || e.kind == ErrorKind::InvalidMessageEncoding || e.kind
                == ErrorKind::ObjectStoreError
            &&& e.kind == ErrorKind::BranchAlreadyExists ==> !force_new_branch
            &&& e.cleanup is None
        },
{
    let request = Request {
        new_branch: target_branch.to_owned(),
        onto: onto_branch.to_owned(),
        force: force_new_branch,
        plan: Plan::relocate_and_remove(),
    };
    let end = resume_shared(repo, State::start(request));
    proof {
        end.lemma_due_step();
        end.lemma_failure_fits_plan();
    }
    let r = end.into_result();
    assert(end.ends_as(r));
    r
}

} // verus!
