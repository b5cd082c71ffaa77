//! What holds of every run, proved of the states of the machine.
//!
//! A state of a run is one that `State::wf` holds of: `State::start` gives
//! such a state, and `State::advance` keeps it one whatever the events are.

use vstd::prelude::*;
use crate::error::ErrorKind;
use crate::machine::{answers, ascending, Action, Event, State};
use crate::model::{CommitSnapshot, DirtyEntry, GitFailure, RepoState};
use crate::phase::{successor_is_later, Phase, Plan};

verus! {

/// Steps whose ranks go up and which are all the same step are one step.
proof fn lemma_single_step(steps: Seq<Phase>, bound: nat, only: Phase)
    requires
        ascending(steps, bound),
        forall|p: Phase| #[trigger] steps.contains(p) == (p == only),
    ensures
        steps == seq![only],
{
    assert(steps.contains(only));
    if steps.len() >= 2 {
        assert(steps.contains(steps[0]));
        assert(steps.contains(steps[1]));
        assert(steps[0].rank() < steps[1].rank());
    }
    assert(steps.contains(steps[0]));
    assert(steps =~= seq![only]);
}

/// A repository in the middle of another operation is left alone: the run
/// ends as busy, and the only step it took was to read the state.
pub proof fn busy_repository_is_left_alone(s: State)
    requires
        s.wf(),
        s.seen().repo_state is Some,
        !s.seen().repo_state->0.normal(),
    ensures
        s.failure() == Some(ErrorKind::RepositoryBusy),
        s.failed_at() == Some(Phase::CheckState),
        s.phase() == Phase::Done,
        s.history() == seq![Phase::CheckState],
        !s.stashed(),
{
    assert forall|p: Phase| #[trigger] s.history().contains(p) == (p == Phase::CheckState) by {
        assert(s.history().contains(p) == s.performed(p));
    }
    lemma_single_step(s.history(), s.phase().rank(), Phase::CheckState);
}

/// A workspace that is not clean is left alone where it has to be clean:
/// the run ends as dirty, nothing was set aside, and no step that it took
/// writes anything.
pub proof fn dirty_workspace_is_left_alone(s: State)
    requires
        s.wf(),
        s.seen().workspace is Some,
        s.seen().workspace->0@.len() > 0,
    ensures
        s.failure() == Some(ErrorKind::DirtyWorkspace),
        s.failed_at() == Some(Phase::CheckWorkspace),
        s.phase() == Phase::Done,
        !s.stashed(),
        forall|p: Phase| #[trigger]
            s.history().contains(p) ==> p == Phase::CheckState || p == Phase::CheckWorkspace,
        forall|p: Phase| #[trigger] s.history().contains(p) ==> !p.mutates(),
{
    assert forall|p: Phase| #[trigger]
        s.history().contains(p) implies p == Phase::CheckState || p == Phase::CheckWorkspace by {
        assert(s.history().contains(p) == s.performed(p));
    }
}

/// No step writes anything before the checks of the plan have passed: the
/// repository was read to be in no other operation, and the workspace was
/// listed and found clean.
pub proof fn checks_come_before_writes(s: State, p: Phase)
    requires
        s.wf(),
        s.history().contains(p) || s.phase() == p,
        p.mutates(),
    ensures
        s.plan().check_state ==> s.seen().repo_state is Some && s.seen().repo_state->0.normal(),
        s.plan().check_workspace ==> s.seen().workspace is Some && s.seen().workspace->0@.len()
            == 0,
{
    assert(s.history().contains(p) == s.performed(p));
}

/// A run under the full plan lists the workspace exactly where the fix is
/// to be removed and nothing may be set aside, and sets changes aside
/// exactly where the fix is to be removed and that was asked for.
pub proof fn full_plan_guards_removal(remove: bool, autostash: bool, push: bool)
    ensures
        Plan::full(remove, autostash, push).check_state,
        Plan::full(remove, autostash, push).check_workspace == (remove && !autostash),
        Plan::full(remove, autostash, push).autostash == (remove && autostash),
        Plan::full(remove, autostash, push).remove == remove,
        Plan::full(remove, autostash, push).push == push,
{
}

/// A fix with more or fewer than one parent is refused before anything is
/// written for it: the run fails as an unsupported merge commit, and it
/// has neither replayed the fix nor created a branch or a commit, nor reset
/// or published anything.
pub proof fn merge_commit_is_refused(s: State)
    requires
        s.wf(),
        s.seen().fix is Some,
        !s.seen().fix->0.replayable(),
    ensures
        s.failure() == Some(ErrorKind::UnsupportedMergeCommit),
        s.failed_at() == Some(Phase::ReadFix),
        !s.history().contains(Phase::PickTree),
        !s.history().contains(Phase::CreateBranch),
        !s.history().contains(Phase::CreateCommit),
        !s.history().contains(Phase::ResetHard),
        !s.history().contains(Phase::Push),
        s.seen().picked is None,
        s.seen().branch_ref is None,
        s.seen().new_commit is None,
{
    assert(s.history().contains(Phase::PickTree) == s.performed(Phase::PickTree));
    assert(s.history().contains(Phase::CreateBranch) == s.performed(Phase::CreateBranch));
    assert(s.history().contains(Phase::CreateCommit) == s.performed(Phase::CreateCommit));
    assert(s.history().contains(Phase::ResetHard) == s.performed(Phase::ResetHard));
    assert(s.history().contains(Phase::Push) == s.performed(Phase::Push));
}

/// A run fails because the name of the new branch is taken only where the
/// object store said so and overwriting was not asked for, and such a run
/// has created no commit, nor reset or published anything.
pub proof fn taken_name_creates_no_commit(s: State)
    requires
        s.wf(),
        s.failure() == Some(ErrorKind::BranchAlreadyExists),
    ensures
        s.failed_at() == Some(Phase::CreateBranch),
        !s.request().force,
        s.seen().fault is Some && s.seen().fault->0.name_taken(),
        !s.history().contains(Phase::CreateCommit),
        !s.history().contains(Phase::ResetHard),
        !s.history().contains(Phase::Push),
        s.seen().new_commit is None,
{
    assert(s.history().contains(Phase::CreateCommit) == s.performed(Phase::CreateCommit));
    assert(s.history().contains(Phase::ResetHard) == s.performed(Phase::ResetHard));
    assert(s.history().contains(Phase::Push) == s.performed(Phase::Push));
}

/// Where creating the branch fails because the name is taken and
/// overwriting was not asked for, the run fails as such; where overwriting
/// was asked for, the failure of the object store is passed on. Either way
/// the run ends there, but for putting back what was set aside, and no
/// commit was written.
pub proof fn taken_name_ends_the_run(s: State, f: GitFailure)
    requires
        s.wf(),
        s.phase() == Phase::CreateBranch,
        f.name_taken(),
    ensures
        s.failure_after(Event::Failed(f)) == Some(
            if s.request().force {
                ErrorKind::ObjectStoreError
            } else {
                ErrorKind::BranchAlreadyExists
            },
        ),
        s.failed_at_after(Event::Failed(f)) == Some(Phase::CreateBranch),
        s.phase_after(Event::Failed(f)) == (if s.stashed() {
            Phase::StashPop
        } else {
            Phase::Done
        }),
        !s.history().contains(Phase::CreateCommit),
        s.seen().new_commit is None,
{
    assert(s.history().contains(Phase::CreateCommit) == s.performed(Phase::CreateCommit));
}

/// Where the repository is read to be in the middle of another operation,
/// the run ends as busy, and nothing was done before.
pub proof fn busy_repository_ends_the_run(s: State, st: RepoState)
    requires
        s.wf(),
        s.phase() == Phase::CheckState,
        !st.normal(),
    ensures
        s.failure_after(Event::StateRead(st)) == Some(ErrorKind::RepositoryBusy),
        s.phase_after(Event::StateRead(st)) == Phase::Done,
        s.history() == Seq::<Phase>::empty(),
        !s.stashed(),
{
    if s.history().len() > 0 {
        assert(s.history()[0].rank() < s.phase().rank());
    }
    assert(s.history() =~= Seq::<Phase>::empty());
}

/// Where the workspace has to be clean and is not, the run ends as dirty,
/// and nothing was done before but to read the state of the repository.
pub proof fn dirty_workspace_ends_the_run(s: State, entries: Vec<DirtyEntry>)
    requires
        s.wf(),
        s.phase() == Phase::CheckWorkspace,
        entries@.len() > 0,
    ensures
        s.failure_after(Event::WorkspaceListed(entries)) == Some(ErrorKind::DirtyWorkspace),
        s.phase_after(Event::WorkspaceListed(entries)) == Phase::Done,
        forall|p: Phase| #[trigger] s.history().contains(p) ==> p == Phase::CheckState,
        !s.stashed(),
{
    assert forall|p: Phase| #[trigger] s.history().contains(p) implies p == Phase::CheckState by {
        assert(s.history().contains(p) == s.performed(p));
    }
}

/// Where the fix has more or fewer than one parent, the run fails as an
/// unsupported merge commit. Nothing was written before but what was set
/// aside, and nothing is done after but to put that back.
pub proof fn merge_commit_ends_the_run(s: State, fix: CommitSnapshot)
    requires
        s.wf(),
        s.phase() == Phase::ReadFix,
        !fix.replayable(),
    ensures
        s.failure_after(Event::HeadRead(fix)) == Some(ErrorKind::UnsupportedMergeCommit),
        s.phase_after(Event::HeadRead(fix)) == (if s.stashed() {
            Phase::StashPop
        } else {
            Phase::Done
        }),
        forall|p: Phase| #[trigger] s.history().contains(p) && p.mutates() ==> p == Phase::StashSave,
{
    assert forall|p: Phase| #[trigger] s.history().contains(p) && p.mutates() implies p
        == Phase::StashSave by {
        assert(s.history().contains(p) == s.performed(p));
    }
}

/// What was set aside comes back, once, and after everything else that
/// the run does to the repository: at the end of a run, and before it
/// publishes, the changes were put back if and only if some were set
/// aside, whether the run failed or not, and the only step that may follow
/// is to publish.
pub proof fn stash_comes_back_once(s: State)
    requires
        s.wf(),
        s.phase() == Phase::Done || s.phase() == Phase::Push,
    ensures
        s.history().contains(Phase::StashPop) == s.stashed(),
        s.stashed() ==> s.history().contains(Phase::StashSave),
        forall|i: int, j: int|
            0 <= i < j < s.history().len() ==> s.history()[j] != Phase::StashPop || s.history()[i]
                != Phase::StashPop,
        forall|i: int, j: int|
            0 <= i < j < s.history().len() && s.history()[i] == Phase::StashPop ==> s.history()[j]
                == Phase::Push,
{
    assert(s.history().contains(Phase::StashPop) == s.performed(Phase::StashPop));
    assert(s.history().contains(Phase::StashSave) == s.performed(Phase::StashSave));
    assert forall|i: int, j: int|
        0 <= i < j < s.history().len() && s.history()[i] == Phase::StashPop implies s.history()[j]
        == Phase::Push by {
        assert(s.history().contains(s.history()[j]));
        assert(s.history()[i].rank() < s.history()[j].rank());
    }
}

/// Nothing is put back where nothing was set aside.
pub proof fn nothing_comes_back_unasked(s: State)
    requires
        s.wf(),
        !s.stashed(),
    ensures
        !s.history().contains(Phase::StashPop),
        s.phase() != Phase::StashPop,
{
    assert(s.history().contains(Phase::StashPop) == s.performed(Phase::StashPop));
}

/// A run that removes the fix and does not fail has reset the current
/// branch, after it wrote the new commit, to the only parent of the tip
/// that it read for that.
pub proof fn removal_resets_to_the_parent(s: State)
    requires
        s.wf(),
        s.plan().remove,
        s.failure() is None,
        s.phase() == Phase::Done || s.phase() == Phase::Push,
    ensures
        s.history().contains(Phase::CreateCommit),
        s.history().contains(Phase::ResetHard),
        s.seen().new_commit is Some,
        s.seen().tip is Some,
        s.seen().tip->0.parents@.len() == 1,
{
    assert(s.history().contains(Phase::CreateCommit) == s.performed(Phase::CreateCommit));
    assert(s.history().contains(Phase::ResetHard) == s.performed(Phase::ResetHard));
}

/// The reset that removes the fix goes to the only parent of the tip, and
/// is asked for only once the new commit is written.
pub proof fn reset_goes_to_the_parent(s: State)
    requires
        s.wf(),
        s.phase() == Phase::ResetHard,
    ensures
        s.plan().remove,
        s.failure() is None,
        s.seen().new_commit is Some,
        s.seen().tip is Some,
        s.seen().tip->0.parents@.len() == 1,
        s.due() == Action::ResetHard(s.seen().tip->0.parents@[0]),
{
}

/// The new commit is the fix put on the target: where it is due, the
/// replay was asked for the fix read and the target resolved and wrote
/// the tree that is handed over; the only parent handed over is the
/// target; author and message are those of the fix, which has one parent.
pub proof fn new_commit_is_the_fix_on_the_target(s: State)
    requires
        s.wf(),
        s.phase() == Phase::CreateCommit,
    ensures
        s.failure() is None,
        s.seen().fix is Some && s.seen().fix->0.replayable(),
        s.seen().fix->0.message is Some,
        s.seen().target is Some,
        s.seen().picked is Some && s.seen().picked->0 is Tree,
        s.seen().committer is Some,
        s.due() == Action::CreateCommit(s.commit_request()),
        s.commit_request().tree == s.seen().picked->0->Tree_0,
        s.commit_request().parent == s.seen().target->0,
        *s.commit_request().author == s.seen().fix->0.author,
        *s.commit_request().message == s.seen().fix->0.message->0,
        *s.commit_request().committer == s.seen().committer->0,
{
}

/// The replay is asked for the fix that was read and the target that was
/// resolved, and only for a fix with one parent.
pub proof fn replay_is_of_the_fix_on_the_target(s: State)
    requires
        s.wf(),
        s.phase() == Phase::PickTree,
    ensures
        s.seen().fix is Some && s.seen().fix->0.replayable(),
        s.seen().target is Some,
        s.due() == (Action::Pick { fix: s.seen().fix->0.id, target: s.seen().target->0 }),
{
}

/// Publishing comes last and only after all else went through: where it is
/// due, it was asked for, nothing has failed, it was not done before, what
/// was set aside is back, and what is to be published is the new branch.
pub proof fn publishing_comes_last(s: State)
    requires
        s.wf(),
        s.phase() == Phase::Push,
    ensures
        s.plan().push,
        s.failure() is None,
        !s.history().contains(Phase::Push),
        s.history().contains(Phase::CreateCommit),
        s.history().contains(Phase::StashPop) == s.stashed(),
        s.plan().remove ==> s.history().contains(Phase::ResetHard),
        s.due() == Action::Push(&s.request().new_branch),
{
    assert(s.history().contains(Phase::Push) == s.performed(Phase::Push));
    assert(s.history().contains(Phase::CreateCommit) == s.performed(Phase::CreateCommit));
    assert(s.history().contains(Phase::StashPop) == s.performed(Phase::StashPop));
    assert(s.history().contains(Phase::ResetHard) == s.performed(Phase::ResetHard));
}

/// A run that is over has published exactly where that was asked for and
/// nothing had failed before.
pub proof fn finished_run_has_published_if_asked(s: State)
    requires
        s.wf(),
        s.phase() == Phase::Done,
    ensures
        s.history().contains(Phase::Push) == (s.plan().push && (s.failure() is None
            || s.failed_at() == Some(Phase::Push))),
{
    assert(s.history().contains(Phase::Push) == s.performed(Phase::Push));
}

/// A failure to read who sets the changes aside ends the run, whatever the
/// failure looks like; only a refusal to save is taken for "nothing to
/// save".
pub proof fn identity_failure_is_passed_on(s: State, f: GitFailure)
    requires
        s.wf(),
        s.phase() == Phase::StashSave,
    ensures
        s.failure_after(Event::Failed(f)) == Some(ErrorKind::ObjectStoreError),
        s.phase_after(Event::Failed(f)) == Phase::Done,
        s.failure_after(Event::StashRefused(f)) == (if f.nothing_to_stash() {
            None::<ErrorKind>
        } else {
            Some(ErrorKind::ObjectStoreError)
        }),
        !s.stashed_after(Event::Failed(f)),
        !s.stashed_after(Event::StashRefused(f)),
{
}

/// A run ends: each event that answers the step that is due leads to a
/// later step, and the steps taken so far stay taken.
pub proof fn every_step_leads_on(s: State, event: Event)
    requires
        s.wf(),
        answers(s.phase(), event),
    ensures
        s.phase_after(event).rank() > s.phase().rank(),
        s.failure_after(event) is Some ==> s.phase_after(event) == Phase::Done || s.phase_after(
            event,
        ) == Phase::StashPop,
{
    successor_is_later(s.plan(), s.phase(), s.stashed_after(event), s.failure_after(event) is Some);
}

} // verus!
