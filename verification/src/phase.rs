//! The steps of the workflow, their order, and which of them a run takes.

use vstd::prelude::*;

verus! {

/// One step of the workflow. A run takes its steps in the order in which
/// they are listed here, leaving out those that were not asked for.
#[derive(Clone, Copy, Debug, PartialEq, Eq, Structural)]
pub enum Phase {
    /// Read whether another operation is in progress.
    CheckState,
    /// List what is not committed.
    CheckWorkspace,
    /// Set aside what is not committed.
    StashSave,
    /// Resolve the revision to put the fix on.
    ResolveTarget,
    /// Read the newest commit of the current branch: the fix.
    ReadFix,
    /// Replay the fix on the target in memory and write the tree.
    PickTree,
    /// Create the new branch at the target.
    CreateBranch,
    /// Read who commits.
    ReadIdentity,
    /// Write the new commit as the tip of the new branch.
    CreateCommit,
    /// Read the newest commit of the current branch again.
    ReadTip,
    /// Reset the current branch, index and working tree to its parent.
    ResetHard,
    /// Put back what was set aside.
    StashPop,
    /// Publish the new branch.
    Push,
    /// Nothing is left to do.
    Done,
}

/// The steps that a run takes besides the relocation itself.
#[derive(Clone, Copy, Debug, PartialEq, Eq, Structural)]
pub struct Plan {
    /// Refuse to run while another operation is in progress.
    pub check_state: bool,
    /// Refuse to run on a workspace that is not clean.
    pub check_workspace: bool,
    /// Set aside what is not committed, and put it back at the end.
    pub autostash: bool,
    /// Take the fix off the current branch.
    pub remove: bool,
    /// Publish the new branch.
    pub push: bool,
}

impl Phase {
    /// The place of the step in the order of a run.
    pub open spec fn rank(self) -> nat {
        match self {
            Phase::CheckState => 0,
            Phase::CheckWorkspace => 1,
            Phase::StashSave => 2,
            Phase::ResolveTarget => 3,
            Phase::ReadFix => 4,
            Phase::PickTree => 5,
            Phase::CreateBranch => 6,
            Phase::ReadIdentity => 7,
            Phase::CreateCommit => 8,
            Phase::ReadTip => 9,
            Phase::ResetHard => 10,
            Phase::StashPop => 11,
            Phase::Push => 12,
            Phase::Done => 13,
        }
    }

    pub fn index(self) -> (r: u8)
        ensures
            r == self.rank(),
    {
        match self {
            Phase::CheckState => 0,
            Phase::CheckWorkspace => 1,
            Phase::StashSave => 2,
            Phase::ResolveTarget => 3,
            Phase::ReadFix => 4,
            Phase::PickTree => 5,
            Phase::CreateBranch => 6,
            Phase::ReadIdentity => 7,
            Phase::CreateCommit => 8,
            Phase::ReadTip => 9,
            Phase::ResetHard => 10,
            Phase::StashPop => 11,
            Phase::Push => 12,
            Phase::Done => 13,
        }
    }

    /// The steps that write to the repository or to the remote. The others
    /// only read.
    pub open spec fn mutates(self) -> bool {
        self == Phase::StashSave || self == Phase::PickTree || self == Phase::CreateBranch
            || self == Phase::CreateCommit || self == Phase::ResetHard || self == Phase::StashPop
            || self == Phase::Push
    }

    pub fn is_mutation(self) -> (r: bool)
        ensures
            r == self.mutates(),
    {
        match self {
            Phase::StashSave
            | Phase::PickTree
            | Phase::CreateBranch
            | Phase::CreateCommit
            | Phase::ResetHard
            | Phase::StashPop
            | Phase::Push => true,
            _ => false,
        }
    }

    /// The steps between setting changes aside and putting them back: a
    /// failure in one of them must not keep the changes from coming back.
    pub open spec fn guarded(self) -> bool {
        Phase::ResolveTarget.rank() <= self.rank() <= Phase::ResetHard.rank()
    }

    pub fn is_guarded(self) -> (r: bool)
        ensures
            r == self.guarded(),
    {
        let i: u8 = self.index();
        3 <= i && i <= 10
    }
}

impl Plan {
    /// The plan of a full run: the repository must be in no other
    /// operation; the fix is taken off the current branch if `remove`;
    /// before that, what is not committed is set aside if `autostash`, and
    /// must not exist otherwise.
    pub open spec fn full(remove: bool, autostash: bool, push: bool) -> Plan {
        Plan {
            check_state: true,
            check_workspace: remove && !autostash,
            autostash: remove && autostash,
            remove,
            push,
        }
    }

    pub fn new(remove: bool, autostash: bool, push: bool) -> (plan: Plan)
        ensures
            plan == Plan::full(remove, autostash, push),
    {
        Plan {
            check_state: true,
            check_workspace: remove && !autostash,
            autostash: remove && autostash,
            remove,
            push,
        }
    }

    /// The plan that only relocates the fix.
    pub open spec fn relocation() -> Plan {
        Plan { check_state: false, check_workspace: false, autostash: false, remove: false, push: false }
    }

    pub fn relocate_only() -> (plan: Plan)
        ensures
            plan == Plan::relocation(),
    {
        Plan { check_state: false, check_workspace: false, autostash: false, remove: false, push: false }
    }

    /// The plan that relocates the fix from a clean workspace and takes it
    /// off the current branch.
    pub open spec fn relocation_and_removal() -> Plan {
        Plan { check_state: false, check_workspace: true, autostash: false, remove: true, push: false }
    }

    pub fn relocate_and_remove() -> (plan: Plan)
        ensures
            plan == Plan::relocation_and_removal(),
    {
        Plan { check_state: false, check_workspace: true, autostash: false, remove: true, push: false }
    }

    /// Whether a run under this plan takes the step. Changes are put back
    /// only where `stashed` says that some were set aside.
    pub open spec fn takes(self, phase: Phase, stashed: bool) -> bool {
        match phase {
            Phase::CheckState => self.check_state,
            Phase::CheckWorkspace => self.check_workspace,
            Phase::StashSave => self.autostash,
            Phase::ReadTip | Phase::ResetHard => self.remove,
            Phase::StashPop => stashed,
            Phase::Push => self.push,
            _ => true,
        }
    }

    /// The first step of rank `from` or higher that a run takes.
    pub open spec fn first_from(self, from: nat, stashed: bool) -> Phase {
        if from <= 0 && self.check_state {
            Phase::CheckState
        } else if from <= 1 && self.check_workspace {
            Phase::CheckWorkspace
        } else if from <= 2 && self.autostash {
            Phase::StashSave
        } else if from <= 3 {
            Phase::ResolveTarget
        } else if from <= 4 {
            Phase::ReadFix
        } else if from <= 5 {
            Phase::PickTree
        } else if from <= 6 {
            Phase::CreateBranch
        } else if from <= 7 {
            Phase::ReadIdentity
        } else if from <= 8 {
            Phase::CreateCommit
        } else if from <= 9 && self.remove {
            Phase::ReadTip
        } else if from <= 10 && self.remove {
            Phase::ResetHard
        } else if from <= 11 && stashed {
            Phase::StashPop
        } else if from <= 12 && self.push {
            Phase::Push
        } else {
            Phase::Done
        }
    }

    /// The step that follows `phase`. After a failure only one step is
    /// left: to put back what was set aside, where the failing step was a
    /// guarded one.
    pub open spec fn successor(self, phase: Phase, stashed: bool, failed: bool) -> Phase {
        if phase == Phase::Done {
            Phase::Done
        } else if failed {
            if stashed && phase.guarded() {
                Phase::StashPop
            } else {
                Phase::Done
            }
        } else {
            self.first_from(phase.rank() + 1, stashed)
        }
    }

    pub fn first(&self) -> (r: Phase)
        ensures
            r == self.first_from(0, false),
    {
        self.first_at(0, false)
    }

    pub fn next(&self, phase: Phase, stashed: bool, failed: bool) -> (r: Phase)
        ensures
            r == self.successor(phase, stashed, failed),
    {
        if phase == Phase::Done {
            Phase::Done
        } else if failed {
            if stashed && phase.is_guarded() {
                Phase::StashPop
            } else {
                Phase::Done
            }
        } else {
            let from: u8 = phase.index() + 1;
            self.first_at(from, stashed)
        }
    }

    fn first_at(&self, from: u8, stashed: bool) -> (r: Phase)
        ensures
            r == self.first_from(from as nat, stashed),
    {
        if from <= 0 && self.check_state {
            Phase::CheckState
        } else if from <= 1 && self.check_workspace {
            Phase::CheckWorkspace
        } else if from <= 2 && self.autostash {
            Phase::StashSave
        } else if from <= 3 {
            Phase::ResolveTarget
        } else if from <= 4 {
            Phase::ReadFix
        } else if from <= 5 {
            Phase::PickTree
        } else if from <= 6 {
            Phase::CreateBranch
        } else if from <= 7 {
            Phase::ReadIdentity
        } else if from <= 8 {
            Phase::CreateCommit
        } else if from <= 9 && self.remove {
            Phase::ReadTip
        } else if from <= 10 && self.remove {
            Phase::ResetHard
        } else if from <= 11 && stashed {
            Phase::StashPop
        } else if from <= 12 && self.push {
            Phase::Push
        } else {
            Phase::Done
        }
    }
}

/// The step that follows is one that the plan takes, and a later one; after
/// the last step nothing follows.
pub proof fn successor_is_later(plan: Plan, phase: Phase, stashed: bool, failed: bool)
    requires
        phase != Phase::Done,
    ensures
        plan.successor(phase, stashed, failed).rank() > phase.rank(),
        plan.takes(plan.successor(phase, stashed, failed), stashed),
{
}

} // verus!
