//! What is handed to the tool that publishes a branch.

use vstd::prelude::*;

verus! {

/// The remote that branches are published to.
pub open spec fn remote() -> &'static str {
    "origin"
}

/// The arguments with which `git` publishes `branch` to the remote and
/// makes the remote branch its upstream.
pub fn push_arguments(branch: &str) -> (args: Vec<String>)
    ensures
        args@.len() == 4,
        args@[0]@ == "push"@,
        args@[1]@ == "--set-upstream"@,
        args@[2]@ == remote()@,
        args@[3]@ == branch@,
{
    let mut args: Vec<String> = Vec::new();
    args.push("push".to_owned());
    args.push("--set-upstream".to_owned());
    args.push("origin".to_owned());
    args.push(branch.to_owned());
    args
}

} // verus!
