//! The guess at the default branch of the remote.

use vstd::prelude::*;
use crate::error::{Detail, ErrorKind, QuickfixError};
use crate::git::reference_exists;
use crate::rules::fresh;

verus! {

/// The names under which the default branch of the remote is looked for,
/// in this order. This is a guess: what the remote itself calls its default
/// branch is not asked.
pub open spec fn candidates() -> Seq<&'static str> {
    seq!["origin/main", "origin/master", "origin/devel", "origin/develop"]
}

/// How many names are tried.
pub fn candidate_count() -> (n: usize)
    ensures
        n == candidates().len(),
{
    4
}

/// The name that is tried in place `i`; past the last one, the last one.
pub fn candidate(i: usize) -> (name: &'static str)
    ensures
        i < candidates().len() ==> name == candidates()[i as int],
{
    if i == 0 {
        "origin/main"
    } else if i == 1 {
        "origin/master"
    } else if i == 2 {
        "origin/devel"
    } else {
        "origin/develop"
    }
}

/// `i` is the first place at which `found` says yes.
pub open spec fn is_first(found: Seq<bool>, i: int) -> bool {
    &&& 0 <= i < found.len()
    &&& i < candidates().len()
    &&& found[i]
    &&& forall|j: int| 0 <= j < i ==> !found[j]
}

/// The default branch, given for each name in turn whether it resolves:
/// the first name that does. Where none does, there is no default branch.
pub fn choose_default_branch(found: &Vec<bool>) -> (r: Result<String, QuickfixError>)
    ensures
        r is Ok <==> exists|i: int| is_first(found@, i),
        r matches Ok(name) ==> exists|i: int| is_first(found@, i) && name@ == candidates()[i]@,
        r matches Err(e) ==> fresh(e, ErrorKind::DefaultBranchNotFound, Detail::Nothing),
{
    let mut i: usize = 0;
    while i < found.len() && i < candidate_count()
        invariant
            i <= found.len(),
            i <= candidates().len(),
            forall|j: int| 0 <= j < i ==> !found@[j],
        decreases found.len() - i,
    {
        if found[i] {
            assert(is_first(found@, i as int));
            return Ok(candidate(i).to_owned());
        }
        i = i + 1;
    }
    assert forall|k: int| !is_first(found@, k) by {
        if is_first(found@, k) {
            assert(!found@[k]);
        }
    }
    Err(QuickfixError::new(ErrorKind::DefaultBranchNotFound, Detail::Nothing))
}

/// Tries the names in turn, up to the first that resolves to a reference.
fn probe(repo: &git2::Repository) -> (found: Vec<bool>)
    ensures
        found@.len() <= candidates().len(),
        forall|j: int| 0 <= j < found@.len() - 1 ==> !found@[j],
        found@.len() < candidates().len() ==> found@.len() > 0 && found@.last(),
{
    let mut found: Vec<bool> = Vec::new();
    let mut i: usize = 0;
    while i < candidate_count()
        invariant
            i == found@.len(),
            i <= candidates().len(),
            forall|j: int| 0 <= j < found@.len() ==> !found@[j],
        decreases candidates().len() - i,
    {
        let present = reference_exists(repo, candidate(i));
        found.push(present);
        if present {
            return found;
        }
        i = i + 1;
    }
    found
}

/// The first of the usual names that resolves to a reference in the
/// repository.
pub fn get_default_branch(repo: &git2::Repository) -> (r: Result<String, QuickfixError>)
    ensures
        r matches Ok(name) ==> exists|i: int|
            0 <= i < candidates().len() && name@ == (#[trigger] candidates()[i])@,
        r matches Err(e) ==> fresh(e, ErrorKind::DefaultBranchNotFound, Detail::Nothing),
{
    let found = probe(repo);
    let r = choose_default_branch(&found);
    proof {
        if r is Ok {
            let i = choose|i: int| is_first(found@, i) && r->Ok_0@ == candidates()[i]@;
            assert(0 <= i < candidates().len() && r->Ok_0@ == candidates()[i]@);
        }
    }
    r
}

} // verus!
