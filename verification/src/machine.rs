//! The workflow as a state machine: a state says which step is due, an
//! event says how the step went, and the state that follows says what to
//! do next.
//!
//! The machine touches no repository. Whoever drives it performs the action
//! that a state asks for and hands back what came of it.

use vstd::prelude::*;
use crate::error::{Detail, ErrorKind, QuickfixError};
use crate::model::{CommitSnapshot, DirtyEntry, GitFailure, Picked, PushStatus, RepoState};
use crate::phase::{successor_is_later, Phase, Plan};

verus! {

/// What a run is asked to do.
pub struct Request {
    /// The name of the branch to create.
    pub new_branch: String,
    /// The revision to put the fix on.
    pub onto: String,
    /// Whether a branch of that name may be overwritten.
    pub force: bool,
    pub plan: Plan,
}

/// What came of a step.
pub enum Event {
    /// The repository is in this state.
    StateRead(RepoState),
    /// These paths are not clean.
    WorkspaceListed(Vec<DirtyEntry>),
    /// The changes that were not committed are set aside.
    StashSaved,
    /// Saving the changes was refused, maybe because there are none.
    StashRefused(GitFailure),
    /// The revision to put the fix on is this commit.
    TargetResolved(git2::Oid),
    /// The newest commit of the current branch is this one.
    HeadRead(CommitSnapshot),
    /// The replay gave this.
    TreePicked(Picked),
    /// The branch was created as the reference of this name.
    BranchCreated(Option<String>),
    /// This is who commits.
    IdentityRead(git2::Signature<'static>),
    /// The new commit has this id.
    CommitCreated(git2::Oid),
    /// The current branch was reset.
    HeadReset,
    /// The changes that were set aside are back.
    StashPopped,
    /// The attempt to publish ended like this.
    PushFinished(PushStatus),
    /// The object store failed at the step.
    Failed(GitFailure),
}

/// What the events of a run have told so far.
pub struct Observed {
    pub repo_state: Option<RepoState>,
    pub workspace: Option<Vec<DirtyEntry>>,
    pub target: Option<git2::Oid>,
    pub fix: Option<CommitSnapshot>,
    pub picked: Option<Picked>,
    pub branch_ref: Option<Option<String>>,
    pub committer: Option<git2::Signature<'static>>,
    pub new_commit: Option<git2::Oid>,
    pub tip: Option<CommitSnapshot>,
    pub push_status: Option<PushStatus>,
    /// The failure of the object store that ended the run.
    pub fault: Option<GitFailure>,
    /// The failure to put the stashed changes back after the run had
    /// failed already.
    pub cleanup_fault: Option<GitFailure>,
}

/// What is handed to the object store to create the new commit.
pub struct CommitRequest<'a> {
    /// The reference that is to point to the new commit.
    pub update_ref: Option<&'a String>,
    pub author: &'a git2::Signature<'static>,
    pub committer: &'a git2::Signature<'static>,
    pub message: &'a String,
    pub tree: git2::Oid,
    /// The only parent of the new commit.
    pub parent: git2::Oid,
}

/// What a state asks its driver to do.
pub enum Action<'a> {
    ReadState,
    ListWorkspace,
    SaveStash,
    /// Resolve this revision to a commit.
    ResolveTarget(&'a String),
    /// Read the newest commit of the current branch.
    ReadHead,
    /// Replay the changes of `fix` on `target` in memory; write the tree
    /// unless there are conflicts.
    Pick { fix: git2::Oid, target: git2::Oid },
    CreateBranch { name: &'a String, target: git2::Oid, force: bool },
    ReadIdentity,
    CreateCommit(CommitRequest<'a>),
    /// Reset the current branch, the index and the working tree to this
    /// commit.
    ResetHard(git2::Oid),
    PopStash,
    /// Publish this branch.
    Push(&'a String),
    Stop,
}

/// Whether the event is one that can come of the step.
pub open spec fn answers(phase: Phase, event: Event) -> bool {
    match phase {
        Phase::CheckState => event is StateRead || event is Failed,
        Phase::CheckWorkspace => event is WorkspaceListed || event is Failed,
        Phase::StashSave => event is StashSaved || event is StashRefused || event is Failed,
        Phase::ResolveTarget => event is TargetResolved || event is Failed,
        Phase::ReadFix | Phase::ReadTip => event is HeadRead || event is Failed,
        Phase::PickTree => event is TreePicked || event is Failed,
        Phase::CreateBranch => event is BranchCreated || event is Failed,
        Phase::ReadIdentity => event is IdentityRead || event is Failed,
        Phase::CreateCommit => event is CommitCreated || event is Failed,
        Phase::ResetHard => event is HeadReset || event is Failed,
        Phase::StashPop => event is StashPopped || event is Failed,
        Phase::Push => event is PushFinished,
        Phase::Done => false,
    }
}

/// The state of a run: the step that is due, the steps taken, and what
/// they told.
pub struct State {
    request: Request,
    phase: Phase,
    history: Vec<Phase>,
    stashed: bool,
    failure: Option<ErrorKind>,
    failed_at: Option<Phase>,
    seen: Observed,
}

/// The ranks of the steps go up, and stay under `bound`.
pub open spec fn ascending(steps: Seq<Phase>, bound: nat) -> bool {
    &&& forall|i: int, j: int| 0 <= i < j < steps.len() ==> steps[i].rank() < steps[j].rank()
    &&& forall|i: int| 0 <= i < steps.len() ==> (#[trigger] steps[i]).rank() < bound
}

proof fn lemma_push_contains(steps: Seq<Phase>, last: Phase)
    ensures
        forall|p: Phase| #[trigger] steps.push(last).contains(p) == (steps.contains(p) || p == last),
{
    let pushed = steps.push(last);
    assert forall|p: Phase| #[trigger] pushed.contains(p) == (steps.contains(p) || p == last) by {
        if steps.contains(p) {
            let i = choose|i: int| 0 <= i < steps.len() && steps[i] == p;
            assert(pushed[i] == p);
        }
        if p == last {
            assert(pushed[steps.len() as int] == p);
        }
        if pushed.contains(p) {
            let i = choose|i: int| 0 <= i < pushed.len() && pushed[i] == p;
            if i < steps.len() {
                assert(steps[i] == p);
            }
        }
    }
}

impl State {
    pub closed spec fn request(&self) -> Request {
        self.request
    }

    pub open spec fn plan(&self) -> Plan {
        self.request().plan
    }

    /// The step that is due.
    pub closed spec fn phase(&self) -> Phase {
        self.phase
    }

    /// The steps taken, in their order.
    pub closed spec fn history(&self) -> Seq<Phase> {
        self.history@
    }

    /// Whether changes were set aside and have to come back.
    pub closed spec fn stashed(&self) -> bool {
        self.stashed
    }

    /// Why the run failed, if it did.
    pub closed spec fn failure(&self) -> Option<ErrorKind> {
        self.failure
    }

    /// The step at which the run failed, if it did.
    pub closed spec fn failed_at(&self) -> Option<Phase> {
        self.failed_at
    }

    pub closed spec fn seen(&self) -> Observed {
        self.seen
    }

    /// A step was taken if the plan has it, the run has passed it, and it
    /// does not lie behind the step at which the run failed. The one step
    /// taken after a failure is to put back what was set aside.
    pub open spec fn performed(&self, p: Phase) -> bool {
        &&& p != Phase::Done
        &&& self.plan().takes(p, self.stashed())
        &&& p.rank() < self.phase().rank()
        &&& (self.failed_at() is Some ==> p.rank() <= self.failed_at()->0.rank() || p
            == Phase::StashPop)
    }

    /// What the failure of a run rests on.
    pub open spec fn grounded(&self, kind: ErrorKind, at: Phase) -> bool {
        let seen = self.seen();
        match kind {
            ErrorKind::RepositoryBusy => at == Phase::CheckState && seen.repo_state is Some
                && !seen.repo_state->0.normal(),
            ErrorKind::DirtyWorkspace => at == Phase::CheckWorkspace && seen.workspace is Some
                && seen.workspace->0@.len() > 0,
            ErrorKind::UnsupportedMergeCommit => {
                ||| at == Phase::ReadFix && seen.fix is Some && !seen.fix->0.replayable()
                ||| at == Phase::ReadTip && seen.tip is Some && !seen.tip->0.replayable()
            },
            ErrorKind::MergeConflict => at == Phase::PickTree && seen.picked is Some
                && seen.picked->0 is Conflicts,
            ErrorKind::BranchAlreadyExists => at == Phase::CreateBranch && !self.request().force
                && seen.fault is Some && seen.fault->0.name_taken(),
            ErrorKind::InvalidMessageEncoding => at == Phase::ReadIdentity && seen.fix is Some
                && seen.fix->0.message is None,
            ErrorKind::PushFailed => at == Phase::Push && seen.push_status is Some
                && !seen.push_status->0.success,
            ErrorKind::ObjectStoreError => at != Phase::Push && seen.fault is Some,
            ErrorKind::DefaultBranchNotFound => false,
        }
    }

    /// While nothing has failed, every step that the run has passed has
    /// left what the later steps need.
    pub open spec fn supplied(&self) -> bool {
        let rank = self.phase().rank();
        let seen = self.seen();
        &&& rank > Phase::ResolveTarget.rank() ==> seen.target is Some
        &&& rank > Phase::ReadFix.rank() ==> seen.fix is Some && seen.fix->0.replayable()
        &&& rank > Phase::PickTree.rank() ==> seen.picked is Some && seen.picked->0 is Tree
        &&& rank > Phase::CreateBranch.rank() ==> seen.branch_ref is Some
        &&& rank > Phase::ReadIdentity.rank() ==> seen.committer is Some && seen.fix is Some
            && seen.fix->0.message is Some
        &&& rank > Phase::CreateCommit.rank() ==> seen.new_commit is Some
        &&& rank > Phase::ReadTip.rank() && self.plan().remove ==> seen.tip is Some
            && seen.tip->0.replayable()
    }

    /// Once a run has passed a check without failing at it, what the check
    /// read is known.
    pub open spec fn checked(&self) -> bool {
        let rank = self.phase().rank();
        &&& self.plan().check_state && rank > Phase::CheckState.rank() && self.failed_at() != Some(
            Phase::CheckState,
        ) ==> self.seen().repo_state is Some
        &&& self.plan().check_workspace && rank > Phase::CheckWorkspace.rank() && self.failed_at()
            != Some(Phase::CheckState) && self.failed_at() != Some(Phase::CheckWorkspace)
            ==> self.seen().workspace is Some
    }

    /// Nothing is known but from a step that was taken.
    pub open spec fn traced(&self) -> bool {
        let seen = self.seen();
        &&& seen.repo_state is Some ==> self.performed(Phase::CheckState)
        &&& seen.workspace is Some ==> self.performed(Phase::CheckWorkspace)
        &&& seen.target is Some ==> self.performed(Phase::ResolveTarget)
        &&& seen.fix is Some ==> self.performed(Phase::ReadFix)
        &&& seen.picked is Some ==> self.performed(Phase::PickTree)
        &&& seen.branch_ref is Some ==> self.performed(Phase::CreateBranch)
        &&& seen.committer is Some ==> self.performed(Phase::ReadIdentity)
        &&& seen.new_commit is Some ==> self.performed(Phase::CreateCommit)
        &&& seen.tip is Some ==> self.performed(Phase::ReadTip)
        &&& seen.push_status is Some ==> self.performed(Phase::Push)
        &&& seen.cleanup_fault is Some ==> self.failure() is Some && self.performed(Phase::StashPop)
    }

    /// What holds of every state of a run: `start` makes it true and
    /// `advance` keeps it.
    #[verifier::type_invariant]
    pub open spec fn wf(&self) -> bool {
        let seen = self.seen();
        &&& ascending(self.history(), self.phase().rank())
        &&& forall|p: Phase| #[trigger] self.history().contains(p) == self.performed(p)
        &&& self.plan().takes(self.phase(), self.stashed())
        &&& self.failure() is Some <==> self.failed_at() is Some
        &&& self.stashed() ==> {
            &&& self.plan().autostash
            &&& self.phase().rank() > Phase::StashSave.rank()
            &&& self.failed_at() is Some ==> self.failed_at()->0.rank() > Phase::StashSave.rank()
        }
        &&& self.failure() is None ==> self.supplied()
        &&& self.failure() is Some ==> {
            let at = self.failed_at()->0;
            &&& at != Phase::Done
            &&& self.plan().takes(at, self.stashed())
            &&& at.rank() < self.phase().rank()
            &&& self.grounded(self.failure()->0, at)
            &&& self.phase() == Phase::Done || (self.phase() == Phase::StashPop && self.stashed()
                && at.guarded())
        }
        &&& seen.repo_state is Some ==> seen.repo_state->0.normal() || self.failure() == Some(
            ErrorKind::RepositoryBusy,
        )
        &&& seen.workspace is Some ==> seen.workspace->0@.len() == 0 || self.failure() == Some(
            ErrorKind::DirtyWorkspace,
        )
        &&& seen.fix is Some ==> seen.fix->0.replayable() || (self.failure() == Some(
            ErrorKind::UnsupportedMergeCommit,
        ) && self.failed_at() == Some(Phase::ReadFix))
        &&& seen.tip is Some ==> seen.tip->0.replayable() || (self.failure() == Some(
            ErrorKind::UnsupportedMergeCommit,
        ) && self.failed_at() == Some(Phase::ReadTip))
        &&& seen.picked is Some && seen.picked->0 is Conflicts ==> self.failure() == Some(
            ErrorKind::MergeConflict,
        )
        &&& seen.push_status is Some ==> seen.push_status->0.success || self.failure() == Some(
            ErrorKind::PushFailed,
        )
        &&& self.checked()
        &&& self.traced()
    }

    /// The failure that the event means at the step that is due, if it
    /// means one.
    pub open spec fn verdict(&self, event: Event) -> Option<ErrorKind> {
        match event {
            Event::StateRead(st) => if st.normal() {
                None
            } else {
                Some(ErrorKind::RepositoryBusy)
            },
            Event::WorkspaceListed(entries) => if entries@.len() == 0 {
                None
            } else {
                Some(ErrorKind::DirtyWorkspace)
            },
            Event::HeadRead(c) => if c.replayable() {
                None
            } else {
                Some(ErrorKind::UnsupportedMergeCommit)
            },
            Event::TreePicked(picked) => if picked is Tree {
                None
            } else {
                Some(ErrorKind::MergeConflict)
            },
            Event::IdentityRead(_) => if self.seen().fix is Some && self.seen().fix->0.message is Some {
                None
            } else {
                Some(ErrorKind::InvalidMessageEncoding)
            },
            Event::PushFinished(status) => if status.success {
                None
            } else {
                Some(ErrorKind::PushFailed)
            },
            Event::StashRefused(f) => if f.nothing_to_stash() {
                None
            } else {
                Some(ErrorKind::ObjectStoreError)
            },
            Event::Failed(f) => if self.phase() == Phase::CreateBranch && f.name_taken()
                && !self.request().force {
                Some(ErrorKind::BranchAlreadyExists)
            } else {
                Some(ErrorKind::ObjectStoreError)
            },
            _ => None,
        }
    }

    pub open spec fn stashed_after(&self, event: Event) -> bool {
        self.stashed() || (self.phase() == Phase::StashSave && event is StashSaved)
    }

    /// The first failure of a run stays its failure.
    pub open spec fn failure_after(&self, event: Event) -> Option<ErrorKind> {
        if self.failure() is Some {
            self.failure()
        } else {
            self.verdict(event)
        }
    }

    pub open spec fn failed_at_after(&self, event: Event) -> Option<Phase> {
        if self.failure() is Some {
            self.failed_at()
        } else if self.verdict(event) is Some {
            Some(self.phase())
        } else {
            None
        }
    }

    pub open spec fn phase_after(&self, event: Event) -> Phase {
        self.plan().successor(
            self.phase(),
            self.stashed_after(event),
            self.failure_after(event) is Some,
        )
    }

    /// What is known after the event. A failure of the object store is kept
    /// as the cause of the run's failure, or, where the run had failed
    /// before, as the failure of the clean-up.
    pub open spec fn seen_after(&self, event: Event) -> Observed {
        let seen = self.seen();
        match event {
            Event::StateRead(st) => Observed { repo_state: Some(st), ..seen },
            Event::WorkspaceListed(entries) => Observed { workspace: Some(entries), ..seen },
            Event::TargetResolved(id) => Observed { target: Some(id), ..seen },
            Event::HeadRead(c) => if self.phase() == Phase::ReadFix {
                Observed { fix: Some(c), ..seen }
            } else {
                Observed { tip: Some(c), ..seen }
            },
            Event::TreePicked(picked) => Observed { picked: Some(picked), ..seen },
            Event::BranchCreated(name) => Observed { branch_ref: Some(name), ..seen },
            Event::IdentityRead(who) => Observed { committer: Some(who), ..seen },
            Event::CommitCreated(id) => Observed { new_commit: Some(id), ..seen },
            Event::PushFinished(status) => Observed { push_status: Some(status), ..seen },
            Event::StashRefused(f) | Event::Failed(f) => if self.failure() is Some {
                Observed { cleanup_fault: Some(f), ..seen }
            } else if self.verdict(event) is Some {
                Observed { fault: Some(f), ..seen }
            } else {
                seen
            },
            _ => seen,
        }
    }

    /// The state in which a run begins: nothing is known, and the first
    /// step of the plan is due.
    pub fn start(request: Request) -> (s: State)
        ensures
            s.wf(),
            s.request() == request,
            s.phase() == request.plan.first_from(0, false),
            s.history() == Seq::<Phase>::empty(),
            !s.stashed(),
            s.failure() is None,
            s.failed_at() is None,
            s.seen() == Observed::nothing(),
    {
        let phase = request.plan.first();
        State {
            request,
            phase,
            history: Vec::new(),
            stashed: false,
            failure: None,
            failed_at: None,
            seen: Observed::new(),
        }
    }

    pub fn accepts(&self, event: &Event) -> (r: bool)
        ensures
            r == answers(self.phase(), *event),
    {
        let failed = match event {
            Event::Failed(_) => true,
            _ => false,
        };
        match self.phase {
            Phase::CheckState => failed || matches!(event, Event::StateRead(_)),
            Phase::CheckWorkspace => failed || matches!(event, Event::WorkspaceListed(_)),
            Phase::StashSave => failed || matches!(event, Event::StashSaved) || matches!(
                event,
                Event::StashRefused(_)
            ),
            Phase::ResolveTarget => failed || matches!(event, Event::TargetResolved(_)),
            Phase::ReadFix | Phase::ReadTip => failed || matches!(event, Event::HeadRead(_)),
            Phase::PickTree => failed || matches!(event, Event::TreePicked(_)),
            Phase::CreateBranch => failed || matches!(event, Event::BranchCreated(_)),
            Phase::ReadIdentity => failed || matches!(event, Event::IdentityRead(_)),
            Phase::CreateCommit => failed || matches!(event, Event::CommitCreated(_)),
            Phase::ResetHard => failed || matches!(event, Event::HeadReset),
            Phase::StashPop => failed || matches!(event, Event::StashPopped),
            Phase::Push => matches!(event, Event::PushFinished(_)),
            Phase::Done => false,
        }
    }

    pub fn judge(&self, event: &Event) -> (r: Option<ErrorKind>)
        ensures
            r == self.verdict(*event),
    {
        match event {
            Event::StateRead(st) => if st.is_normal() {
                None
            } else {
                Some(ErrorKind::RepositoryBusy)
            },
            Event::WorkspaceListed(entries) => if entries.len() == 0 {
                None
            } else {
                Some(ErrorKind::DirtyWorkspace)
            },
            Event::HeadRead(c) => if c.is_replayable() {
                None
            } else {
                Some(ErrorKind::UnsupportedMergeCommit)
            },
            Event::TreePicked(picked) => match picked {
                Picked::Tree(_) => None,
                Picked::Conflicts(_) => Some(ErrorKind::MergeConflict),
            },
            Event::IdentityRead(_) => {
                let readable = match &self.seen.fix {
                    Some(c) => c.message.is_some(),
                    None => false,
                };
                if readable {
                    None
                } else {
                    Some(ErrorKind::InvalidMessageEncoding)
                }
            },
            Event::PushFinished(status) => if status.success {
                None
            } else {
                Some(ErrorKind::PushFailed)
            },
            Event::StashRefused(f) => if f.is_nothing_to_stash() {
                None
            } else {
                Some(ErrorKind::ObjectStoreError)
            },
            Event::Failed(f) => if self.phase == Phase::CreateBranch && f.is_name_taken()
                && !self.request.force {
                Some(ErrorKind::BranchAlreadyExists)
            } else {
                Some(ErrorKind::ObjectStoreError)
            },
            _ => None,
        }
    }

    /// The state after the step that was due went as the event says. An
    /// event that cannot come of that step changes nothing.
    pub fn advance(self, event: Event) -> (next: State)
        ensures
            next.wf(),
            next.request() == self.request(),
            !answers(self.phase(), event) ==> next == self,
            answers(self.phase(), event) ==> {
                &&& next.phase() == self.phase_after(event)
                &&& next.history() == self.history().push(self.phase())
                &&& next.stashed() == self.stashed_after(event)
                &&& next.failure() == self.failure_after(event)
                &&& next.failed_at() == self.failed_at_after(event)
                &&& next.seen() == self.seen_after(event)
            },
    {
        proof {
            use_type_invariant(&self);
        }
        if !self.accepts(&event) {
            return self;
        }
        let judged = self.judge(&event);
        let ghost before = self;
        let State { request, phase, history, stashed, failure, failed_at, seen } = self;
        let mut history = history;
        let had_failed = failure.is_some();
        let stashed = stashed || (phase == Phase::StashSave && matches!(event, Event::StashSaved));
        let (failure, failed_at) = match failure {
            Some(kind) => (Some(kind), failed_at),
            None => match judged {
                Some(kind) => (Some(kind), Some(phase)),
                None => (None, None),
            },
        };
        let seen = match event {
            Event::StateRead(st) => Observed { repo_state: Some(st), ..seen },
            Event::WorkspaceListed(entries) => Observed { workspace: Some(entries), ..seen },
            Event::TargetResolved(id) => Observed { target: Some(id), ..seen },
            Event::HeadRead(c) => if phase == Phase::ReadFix {
                Observed { fix: Some(c), ..seen }
            } else {
                Observed { tip: Some(c), ..seen }
            },
            Event::TreePicked(picked) => Observed { picked: Some(picked), ..seen },
            Event::BranchCreated(name) => Observed { branch_ref: Some(name), ..seen },
            Event::IdentityRead(who) => Observed { committer: Some(who), ..seen },
            Event::CommitCreated(id) => Observed { new_commit: Some(id), ..seen },
            Event::PushFinished(status) => Observed { push_status: Some(status), ..seen },
            Event::StashRefused(f) | Event::Failed(f) => if had_failed {
                Observed { cleanup_fault: Some(f), ..seen }
            } else if judged.is_some() {
                Observed { fault: Some(f), ..seen }
            } else {
                seen
            },
            _ => seen,
        };
        history.push(phase);
        let due = request.plan.next(phase, stashed, failure.is_some());
        proof {
            lemma_push_contains(before.history(), phase);
            successor_is_later(request.plan, phase, stashed, failure is Some);
        }
        State { request, phase: due, history, stashed, failure, failed_at, seen }
    }
}

impl State {
    /// What is handed over to create the new commit: the tree that the
    /// replay wrote, the target as the only parent, the author and the
    /// message of the fix, and who commits now.
    pub open spec fn commit_request(&self) -> CommitRequest<'_> {
        let seen = self.seen();
        CommitRequest {
            update_ref: match seen.branch_ref {
                Some(Some(name)) => Some(&name),
                _ => None,
            },
            author: &seen.fix->0.author,
            committer: &seen.committer->0,
            message: &seen.fix->0.message->0,
            tree: seen.picked->0->Tree_0,
            parent: seen.target->0,
        }
    }

    /// What the state asks for.
    pub open spec fn due(&self) -> Action<'_> {
        let seen = self.seen();
        match self.phase() {
            Phase::CheckState => Action::ReadState,
            Phase::CheckWorkspace => Action::ListWorkspace,
            Phase::StashSave => Action::SaveStash,
            Phase::ResolveTarget => Action::ResolveTarget(&self.request().onto),
            Phase::ReadFix | Phase::ReadTip => Action::ReadHead,
            Phase::PickTree => Action::Pick { fix: seen.fix->0.id, target: seen.target->0 },
            Phase::CreateBranch => Action::CreateBranch {
                name: &self.request().new_branch,
                target: seen.target->0,
                force: self.request().force,
            },
            Phase::ReadIdentity => Action::ReadIdentity,
            Phase::CreateCommit => Action::CreateCommit(self.commit_request()),
            Phase::ResetHard => Action::ResetHard(seen.tip->0.parents@[0]),
            Phase::StashPop => Action::PopStash,
            Phase::Push => Action::Push(&self.request().new_branch),
            Phase::Done => Action::Stop,
        }
    }

    pub fn action(&self) -> (a: Action<'_>)
        ensures
            a == self.due(),
    {
        proof {
            use_type_invariant(self);
        }
        match self.phase {
            Phase::CheckState => Action::ReadState,
            Phase::CheckWorkspace => Action::ListWorkspace,
            Phase::StashSave => Action::SaveStash,
            Phase::ResolveTarget => Action::ResolveTarget(&self.request.onto),
            Phase::ReadFix | Phase::ReadTip => Action::ReadHead,
            Phase::PickTree => match (&self.seen.fix, &self.seen.target) {
                (Some(fix), Some(target)) => Action::Pick { fix: fix.id, target: *target },
                _ => Action::Stop,
            },
            Phase::CreateBranch => match &self.seen.target {
                Some(target) => Action::CreateBranch {
                    name: &self.request.new_branch,
                    target: *target,
                    force: self.request.force,
                },
                None => Action::Stop,
            },
            Phase::ReadIdentity => Action::ReadIdentity,
            Phase::CreateCommit => match (
                &self.seen.fix,
                &self.seen.committer,
                &self.seen.picked,
                &self.seen.target,
            ) {
                (Some(fix), Some(committer), Some(Picked::Tree(tree)), Some(target)) => match &fix.message {
                    Some(message) => Action::CreateCommit(
                        CommitRequest {
                            update_ref: match &self.seen.branch_ref {
                                Some(Some(name)) => Some(name),
                                _ => None,
                            },
                            author: &fix.author,
                            committer,
                            message,
                            tree: *tree,
                            parent: *target,
                        },
                    ),
                    None => Action::Stop,
                },
                _ => Action::Stop,
            },
            Phase::ResetHard => match &self.seen.tip {
                Some(tip) => Action::ResetHard(tip.parents[0]),
                None => Action::Stop,
            },
            Phase::StashPop => Action::PopStash,
            Phase::Push => Action::Push(&self.request.new_branch),
            Phase::Done => Action::Stop,
        }
    }

    /// Changes are set aside only under a plan that asks for it, so a run
    /// under any other plan never has to save or restore them.
    pub proof fn lemma_stash_needs_plan(&self)
        requires
            self.wf(),
            !self.plan().autostash,
        ensures
            !self.stashed(),
            self.phase() != Phase::StashSave,
            self.phase() != Phase::StashPop,
    {
    }

    /// A run fails only in the ways that its plan leaves open: as busy or
    /// dirty only where that is checked, over a tip with several parents
    /// only where the fix is removed, over publishing only where that was
    /// asked for, and over a taken name only where overwriting was not.
    pub proof fn lemma_failure_fits_plan(&self)
        requires
            self.wf(),
        ensures
            self.failure() == Some(ErrorKind::RepositoryBusy) ==> self.plan().check_state,
            self.failure() == Some(ErrorKind::DirtyWorkspace) ==> self.plan().check_workspace,
            self.failure() == Some(ErrorKind::PushFailed) ==> self.plan().push,
            self.failure() == Some(ErrorKind::BranchAlreadyExists) ==> !self.request().force,
            self.failure() == Some(ErrorKind::UnsupportedMergeCommit) && self.failed_at() != Some(
                Phase::ReadFix,
            ) ==> self.plan().remove,
            self.failure() != Some(ErrorKind::DefaultBranchNotFound),
            self.seen().cleanup_fault is Some ==> self.plan().autostash,
    {
    }

    /// The step that is due is one of the plan, and one that a run takes
    /// only while nothing has failed, but for the last two.
    pub proof fn lemma_due_step(&self)
        requires
            self.wf(),
        ensures
            self.plan().takes(self.phase(), self.stashed()),
            self.failure() is Some ==> self.phase() == Phase::Done || self.phase()
                == Phase::StashPop,
    {
    }

    /// The step that is due.
    pub fn current(&self) -> (r: Phase)
        ensures
            r == self.phase(),
    {
        self.phase
    }

    /// Whether nothing is left to do.
    pub fn is_done(&self) -> (r: bool)
        ensures
            r == (self.phase() == Phase::Done),
    {
        self.phase == Phase::Done
    }

    /// The steps taken, in their order.
    pub fn trace(&self) -> (r: &Vec<Phase>)
        ensures
            r@ == self.history(),
    {
        &self.history
    }

    pub fn has_stash(&self) -> (r: bool)
        ensures
            r == self.stashed(),
    {
        self.stashed
    }

    pub fn failure_kind(&self) -> (r: Option<ErrorKind>)
        ensures
            r == self.failure(),
    {
        self.failure
    }

    pub fn failure_step(&self) -> (r: Option<Phase>)
        ensures
            r == self.failed_at(),
    {
        self.failed_at
    }

    pub fn observed(&self) -> (r: &Observed)
        ensures
            *r == self.seen(),
    {
        &self.seen
    }

    pub fn asked(&self) -> (r: &Request)
        ensures
            *r == self.request(),
    {
        &self.request
    }

    /// What was observed of the failure of the run.
    pub open spec fn detail(&self) -> Detail {
        let seen = self.seen();
        match self.failure() {
            Some(ErrorKind::RepositoryBusy) => match seen.repo_state {
                Some(st) => Detail::State(st),
                None => Detail::Nothing,
            },
            Some(ErrorKind::DirtyWorkspace) => match seen.workspace {
                Some(entries) => Detail::Dirty(entries),
                None => Detail::Nothing,
            },
            Some(ErrorKind::UnsupportedMergeCommit) => match (if self.failed_at() == Some(
                Phase::ReadFix,
            ) {
                seen.fix
            } else {
                seen.tip
            }) {
                Some(c) => Detail::Parents(c.parents.len()),
                None => Detail::Nothing,
            },
            Some(ErrorKind::MergeConflict) => match seen.picked {
                Some(Picked::Conflicts(sides)) => Detail::Conflicts(sides),
                _ => Detail::Nothing,
            },
            Some(ErrorKind::BranchAlreadyExists) | Some(ErrorKind::ObjectStoreError) => match seen.fault {
                Some(f) => Detail::Git(f),
                None => Detail::Nothing,
            },
            Some(ErrorKind::PushFailed) => match seen.push_status {
                Some(status) => Detail::Exit(status.code),
                None => Detail::Nothing,
            },
            _ => Detail::Nothing,
        }
    }

    /// The hints that go with the failure of the run: those of its kind,
    /// and one more where the new commit could not be written.
    pub open spec fn hints(&self) -> Seq<&'static str> {
        let of_kind = self.failure()->0.hints();
        if self.failed_at() == Some(Phase::CreateCommit) {
            of_kind.push(
                "You cannot provide an existing branch name. Choose a new branch name or run with '--force'.",
            )
        } else {
            of_kind
        }
    }

    /// Whether `r` says how the run went: `Ok` where nothing failed, else
    /// the failure of the run with what was observed of it, its hints, and
    /// the failure of the clean-up where there was one.
    pub open spec fn ends_as(&self, r: Result<(), QuickfixError>) -> bool {
        &&& r is Ok <==> self.failure() is None
        &&& r is Err ==> {
            let e = r->Err_0;
            &&& Some(e.kind) == self.failure()
            &&& e.detail == self.detail()
            &&& e.suggestions@ == self.hints()
            &&& e.cleanup == self.seen().cleanup_fault
        }
    }

    /// How the run ended: its first failure, with what was observed of it
    /// and, where putting the stashed changes back failed after it, that
    /// failure beside it. Of a run that is not over this says how it went
    /// so far.
    pub fn into_result(self) -> (r: Result<(), QuickfixError>)
        ensures
            self.ends_as(r),
    {
        let State { request: _, phase: _, history: _, stashed: _, failure, failed_at, seen } = self;
        let kind = match failure {
            Some(kind) => kind,
            None => {
                return Ok(());
            },
        };
        let at_fix = match failed_at {
            Some(Phase::ReadFix) => true,
            _ => false,
        };
        let at_commit = match failed_at {
            Some(Phase::CreateCommit) => true,
            _ => false,
        };
        let Observed {
            repo_state,
            workspace,
            target: _,
            fix,
            picked,
            branch_ref: _,
            committer: _,
            new_commit: _,
            tip,
            push_status,
            fault,
            cleanup_fault,
        } = seen;
        let detail = match kind {
            ErrorKind::RepositoryBusy => match repo_state {
                Some(st) => Detail::State(st),
                None => Detail::Nothing,
            },
            ErrorKind::DirtyWorkspace => match workspace {
                Some(entries) => Detail::Dirty(entries),
                None => Detail::Nothing,
            },
            ErrorKind::UnsupportedMergeCommit => match (if at_fix {
                fix
            } else {
                tip
            }) {
                Some(c) => Detail::Parents(c.parents.len()),
                None => Detail::Nothing,
            },
            ErrorKind::MergeConflict => match picked {
                Some(Picked::Conflicts(sides)) => Detail::Conflicts(sides),
                _ => Detail::Nothing,
            },
            ErrorKind::BranchAlreadyExists | ErrorKind::ObjectStoreError => match fault {
                Some(f) => Detail::Git(f),
                None => Detail::Nothing,
            },
            ErrorKind::PushFailed => match push_status {
                Some(status) => Detail::Exit(status.code),
                None => Detail::Nothing,
            },
            _ => Detail::Nothing,
        };
        let error = QuickfixError::new(kind, detail);
        let error = if at_commit {
            error.suggestion(
                "You cannot provide an existing branch name. Choose a new branch name or run with '--force'.",
            )
        } else {
            error
        };
        let error = match cleanup_fault {
            Some(f) => error.with_cleanup(f),
            None => error,
        };
        Err(error)
    }
}

impl Observed {
    /// Nothing is known.
    pub open spec fn nothing() -> Observed {
        Observed {
            repo_state: None,
            workspace: None,
            target: None,
            fix: None,
            picked: None,
            branch_ref: None,
            committer: None,
            new_commit: None,
            tip: None,
            push_status: None,
            fault: None,
            cleanup_fault: None,
        }
    }

    pub fn new() -> (seen: Observed)
        ensures
            seen == Observed::nothing(),
    {
        Observed {
            repo_state: None,
            workspace: None,
            target: None,
            fix: None,
            picked: None,
            branch_ref: None,
            committer: None,
            new_commit: None,
            tip: None,
            push_status: None,
            fault: None,
            cleanup_fault: None,
        }
    }
}

} // verus!
