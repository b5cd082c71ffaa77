use git2::{BranchType, Oid, Repository, RepositoryInitOptions, Signature, Time};
use git_quickfix::{
    assure_repo_in_normal_state, assure_workspace_is_clean, cherrypick_commit_onto_new_branch,
    get_default_branch, remove_commit_from_head, resume, run, stash, wrapper_pick_and_clean,
    Detail, ErrorKind, Event, Phase, Plan, PushStatus, Request, RepoState,
};
use tempfile::TempDir;

struct Fixture {
    _dir: TempDir,
    repo: Repository,
    a: Oid,
    b: Oid,
    c: Oid,
}

fn alice() -> Signature<'static> {
    Signature::new("Alice Author", "alice@example.org", &Time::new(1_600_000_000, 60)).unwrap()
}

fn commit_files(
    repo: &Repository,
    update_ref: Option<&str>,
    message: &str,
    files: &[(&str, &[u8])],
    parents: &[Oid],
) -> Oid {
    let mut builder = repo.treebuilder(None).unwrap();
    for (name, content) in files {
        let blob = repo.blob(content).unwrap();
        builder.insert(*name, blob, 0o100644).unwrap();
    }
    let tree = repo.find_tree(builder.write().unwrap()).unwrap();
    let parents: Vec<git2::Commit> = parents.iter().map(|id| repo.find_commit(*id).unwrap()).collect();
    let parents: Vec<&git2::Commit> = parents.iter().collect();
    let who = alice();
    repo.commit(update_ref, &who, &who, message, &tree, &parents).unwrap()
}

fn check_out(repo: &Repository) {
    let mut options = git2::build::CheckoutBuilder::new();
    options.force();
    repo.checkout_head(Some(&mut options)).unwrap();
}

/// `A(root) -> B -> C` on `main`: A holds `file1.txt` with `x=0`, B adds
/// `file2.txt`, C changes `file1.txt` to `x=1`.
fn fixture() -> Fixture {
    let dir = TempDir::new().unwrap();
    let mut options = RepositoryInitOptions::new();
    options.initial_head("main");
    let repo = Repository::init_opts(dir.path(), &options).unwrap();
    {
        let mut config = repo.config().unwrap();
        config.set_str("user.name", "Bob Committer").unwrap();
        config.set_str("user.email", "bob@example.org").unwrap();
    }
    let a = commit_files(&repo, Some("HEAD"), "first commit", &[("file1.txt", b"x=0\n")], &[]);
    let b = commit_files(
        &repo,
        Some("HEAD"),
        "second commit",
        &[("file1.txt", b"x=0\n"), ("file2.txt", b"y=0\n")],
        &[a],
    );
    let c = commit_files(
        &repo,
        Some("HEAD"),
        "third commit\n\nwith a body\n",
        &[("file1.txt", b"x=1\n"), ("file2.txt", b"y=0\n")],
        &[b],
    );
    check_out(&repo);
    Fixture { _dir: dir, repo, a, b, c }
}

fn tip_of(repo: &Repository, branch: &str) -> Option<Oid> {
    match repo.find_branch(branch, BranchType::Local) {
        Ok(found) => found.get().target(),
        Err(_) => None,
    }
}

fn head_of(repo: &Repository) -> Oid {
    repo.head().unwrap().peel_to_commit().unwrap().id()
}

fn blob_of(repo: &Repository, commit: Oid, name: &str) -> Option<Vec<u8>> {
    let tree = repo.find_commit(commit).unwrap().tree().unwrap();
    let entry = tree.get_name(name)?;
    Some(repo.find_blob(entry.id()).unwrap().content().to_vec())
}

fn stash_count(repo: &mut Repository) -> usize {
    let mut n = 0;
    repo.stash_foreach(|_, _, _| {
        n += 1;
        true
    }).unwrap();
    n
}

/// Changes `file2.txt` in the working tree, and nothing in the index.
fn make_dirty(fixture: &Fixture) {
    let repo = &fixture.repo;
    let mut builder = repo.treebuilder(None).unwrap();
    builder.insert("file1.txt", repo.blob(b"x=1\n").unwrap(), 0o100644).unwrap();
    builder.insert("file2.txt", repo.blob(b"y=changed\n").unwrap(), 0o100644).unwrap();
    let tree = repo.find_object(builder.write().unwrap(), None).unwrap();
    let mut options = git2::build::CheckoutBuilder::new();
    options.force();
    repo.checkout_tree(&tree, Some(&mut options)).unwrap();
    let head = repo.head().unwrap().peel_to_commit().unwrap();
    repo.reset_default(Some(head.as_object()), ["file2.txt"]).unwrap();
}

fn working_file(fixture: &Fixture, name: &str) -> Vec<u8> {
    let repo = &fixture.repo;
    let blob = repo.blob_path(&repo.workdir().unwrap().join(name)).unwrap();
    repo.find_blob(blob).unwrap().content().to_vec()
}

fn dirty_paths(repo: &Repository) -> Vec<(String, u32)> {
    let mut options = git2::StatusOptions::new();
    options.include_ignored(false);
    let statuses = repo.statuses(Some(&mut options)).unwrap();
    statuses.iter().map(|s| (s.path().unwrap().to_string(), s.status().bits())).collect()
}

fn request(new_branch: &str, onto: &str, force: bool, plan: Plan) -> Request {
    Request { new_branch: new_branch.to_string(), onto: onto.to_string(), force, plan }
}

#[test]
fn relocates_the_fix_and_removes_it_from_the_current_branch() {
    let mut f = fixture();
    let onto = f.b.to_string();
    let end = run(&mut f.repo, request("fix1", &onto, false, Plan::new(true, false, false)));
    assert!(end.is_done());
    assert_eq!(end.failure_kind(), None);
    let new_commit = end.observed().new_commit.unwrap();
    assert_eq!(
        end.trace().clone(),
        vec![
            Phase::CheckState,
            Phase::CheckWorkspace,
            Phase::ResolveTarget,
            Phase::ReadFix,
            Phase::PickTree,
            Phase::CreateBranch,
            Phase::ReadIdentity,
            Phase::CreateCommit,
            Phase::ReadTip,
            Phase::ResetHard,
        ]
    );
    assert!(end.into_result().is_ok());

    assert_eq!(tip_of(&f.repo, "fix1"), Some(new_commit));
    let relocated = f.repo.find_commit(new_commit).unwrap();
    assert_eq!(relocated.parent_count(), 1);
    assert_eq!(relocated.parent_id(0).unwrap(), f.b);
    assert_eq!(relocated.tree_id(), f.repo.find_commit(f.c).unwrap().tree_id());
    assert_eq!(blob_of(&f.repo, new_commit, "file1.txt"), Some(b"x=1\n".to_vec()));

    assert_eq!(tip_of(&f.repo, "main"), Some(f.b));
    assert_eq!(head_of(&f.repo), f.b);
    assert_eq!(working_file(&f, "file1.txt"), b"x=0\n".to_vec());
}

#[test]
fn taken_branch_name_fails_and_leaves_everything_in_place() {
    let mut f = fixture();
    f.repo.branch("fix1", &f.repo.find_commit(f.a).unwrap(), false).unwrap();
    let onto = f.b.to_string();
    let end = run(&mut f.repo, request("fix1", &onto, false, Plan::new(true, false, false)));
    assert_eq!(end.failure_kind(), Some(ErrorKind::BranchAlreadyExists));
    assert_eq!(end.failure_step(), Some(Phase::CreateBranch));
    assert!(end.observed().new_commit.is_none());
    assert!(!end.trace().contains(&Phase::CreateCommit));
    assert!(!end.trace().contains(&Phase::ResetHard));
    let error = end.into_result().unwrap_err();
    assert_eq!(error.kind, ErrorKind::BranchAlreadyExists);
    assert_eq!(error.suggestions, vec!["Consider using --force to overwrite the existing branch"]);
    assert!(matches!(error.detail, Detail::Git(_)));

    assert_eq!(tip_of(&f.repo, "fix1"), Some(f.a));
    assert_eq!(tip_of(&f.repo, "main"), Some(f.c));
    assert_eq!(head_of(&f.repo), f.c);
}

#[test]
fn forced_branch_is_overwritten() {
    let mut f = fixture();
    f.repo.branch("fix1", &f.repo.find_commit(f.a).unwrap(), false).unwrap();
    let onto = f.b.to_string();
    let end = run(&mut f.repo, request("fix1", &onto, true, Plan::new(false, false, false)));
    assert_eq!(end.failure_kind(), None);
    let new_commit = end.observed().new_commit.unwrap();
    assert_eq!(tip_of(&f.repo, "fix1"), Some(new_commit));
    assert_eq!(f.repo.find_commit(new_commit).unwrap().parent_id(0).unwrap(), f.b);
    assert_eq!(head_of(&f.repo), f.c);
}

#[test]
fn replay_on_an_older_commit_carries_only_the_changes_of_the_fix() {
    let f = fixture();
    let onto = f.a.to_string();
    cherrypick_commit_onto_new_branch(&f.repo, "fix1", &onto, false).unwrap();
    let new_commit = tip_of(&f.repo, "fix1").unwrap();
    let relocated = f.repo.find_commit(new_commit).unwrap();
    assert_eq!(relocated.parent_count(), 1);
    assert_eq!(relocated.parent_id(0).unwrap(), f.a);
    assert_eq!(blob_of(&f.repo, new_commit, "file1.txt"), Some(b"x=1\n".to_vec()));
    assert_eq!(blob_of(&f.repo, new_commit, "file2.txt"), None);
    assert_eq!(head_of(&f.repo), f.c);
    assert_eq!(tip_of(&f.repo, "main"), Some(f.c));
    assert_eq!(working_file(&f, "file1.txt"), b"x=1\n".to_vec());
}

#[test]
fn author_and_message_are_those_of_the_fix_and_the_committer_is_the_user() {
    let f = fixture();
    let onto = f.a.to_string();
    cherrypick_commit_onto_new_branch(&f.repo, "fix1", &onto, false).unwrap();
    let relocated = f.repo.find_commit(tip_of(&f.repo, "fix1").unwrap()).unwrap();
    let fix = f.repo.find_commit(f.c).unwrap();
    assert_eq!(relocated.message_raw().unwrap(), "third commit\n\nwith a body\n");
    assert_eq!(relocated.message_raw_bytes(), fix.message_raw_bytes());
    assert_eq!(relocated.author().name().unwrap(), "Alice Author");
    assert_eq!(relocated.author().email().unwrap(), "alice@example.org");
    assert_eq!(relocated.author().when().seconds(), 1_600_000_000);
    assert_eq!(relocated.author().when().offset_minutes(), 60);
    assert_eq!(relocated.committer().name().unwrap(), "Bob Committer");
    assert_eq!(relocated.committer().email().unwrap(), "bob@example.org");
    assert_ne!(relocated.committer().when().seconds(), 1_600_000_000);
}

#[test]
fn merge_commit_is_refused_before_anything_is_created() {
    let mut f = fixture();
    let side = commit_files(&f.repo, None, "side", &[("file1.txt", b"x=0\n"), ("file3.txt", b"z\n")], &[f.a]);
    let merge = commit_files(
        &f.repo,
        Some("HEAD"),
        "merge",
        &[("file1.txt", b"x=1\n"), ("file2.txt", b"y=0\n"), ("file3.txt", b"z\n")],
        &[f.c, side],
    );
    check_out(&f.repo);
    let onto = f.a.to_string();
    let end = run(&mut f.repo, request("fix1", &onto, false, Plan::new(true, false, false)));
    assert_eq!(end.failure_kind(), Some(ErrorKind::UnsupportedMergeCommit));
    assert_eq!(end.failure_step(), Some(Phase::ReadFix));
    assert_eq!(
        end.trace().clone(),
        vec![Phase::CheckState, Phase::CheckWorkspace, Phase::ResolveTarget, Phase::ReadFix]
    );
    let error = end.into_result().unwrap_err();
    assert!(matches!(error.detail, Detail::Parents(2)));
    assert_eq!(error.suggestions.len(), 1);
    assert_eq!(tip_of(&f.repo, "fix1"), None);
    assert_eq!(head_of(&f.repo), merge);

    let error = cherrypick_commit_onto_new_branch(&f.repo, "fix2", &onto, false).unwrap_err();
    assert_eq!(error.kind, ErrorKind::UnsupportedMergeCommit);
    assert_eq!(tip_of(&f.repo, "fix2"), None);
}

#[test]
fn root_commit_is_refused() {
    let dir = TempDir::new().unwrap();
    let mut options = RepositoryInitOptions::new();
    options.initial_head("main");
    let repo = Repository::init_opts(dir.path(), &options).unwrap();
    let root = commit_files(&repo, Some("HEAD"), "root", &[("file1.txt", b"x=0\n")], &[]);
    check_out(&repo);
    let onto = root.to_string();
    let error = cherrypick_commit_onto_new_branch(&repo, "fix1", &onto, false).unwrap_err();
    assert_eq!(error.kind, ErrorKind::UnsupportedMergeCommit);
    assert!(matches!(error.detail, Detail::Parents(0)));
    assert_eq!(tip_of(&repo, "fix1"), None);

    let error = remove_commit_from_head(&repo).unwrap_err();
    assert_eq!(error.kind, ErrorKind::UnsupportedMergeCommit);
    assert_eq!(head_of(&repo), root);
}

#[test]
fn dirty_workspace_is_refused_before_anything_changes() {
    let mut f = fixture();
    make_dirty(&f);
    let before = dirty_paths(&f.repo);
    assert_eq!(before.len(), 1);
    let onto = f.b.to_string();
    let end = run(&mut f.repo, request("fix1", &onto, false, Plan::new(true, false, false)));
    assert_eq!(end.failure_kind(), Some(ErrorKind::DirtyWorkspace));
    assert_eq!(end.trace().clone(), vec![Phase::CheckState, Phase::CheckWorkspace]);
    assert!(end.trace().iter().all(|p| !p.is_mutation()));
    let error = end.into_result().unwrap_err();
    match &error.detail {
        Detail::Dirty(entries) => {
            assert_eq!(entries.len(), 1);
            assert_eq!(entries[0].path.as_deref(), Some("file2.txt"));
            assert_eq!(entries[0].status, git2::Status::WT_MODIFIED.bits());
        },
        _ => panic!("the dirty paths are missing"),
    }
    assert_eq!(error.suggestions, vec!["Consider auto-stashing your changes with --autostash."]);

    assert_eq!(tip_of(&f.repo, "fix1"), None);
    assert_eq!(head_of(&f.repo), f.c);
    assert_eq!(dirty_paths(&f.repo), before);
    assert_eq!(working_file(&f, "file2.txt"), b"y=changed\n".to_vec());
    assert_eq!(stash_count(&mut f.repo), 0);

    let error = wrapper_pick_and_clean(&f.repo, "fix1", &onto, false).unwrap_err();
    assert_eq!(error.kind, ErrorKind::DirtyWorkspace);
    assert_eq!(tip_of(&f.repo, "fix1"), None);
    assert_eq!(head_of(&f.repo), f.c);
}

#[test]
fn dirty_workspace_does_not_matter_where_nothing_is_removed() {
    let mut f = fixture();
    make_dirty(&f);
    let onto = f.a.to_string();
    let end = run(&mut f.repo, request("fix1", &onto, false, Plan::new(false, true, false)));
    assert_eq!(end.failure_kind(), None);
    assert!(!end.has_stash());
    assert!(!end.trace().contains(&Phase::CheckWorkspace));
    assert!(!end.trace().contains(&Phase::StashSave));
    assert_eq!(head_of(&f.repo), f.c);
    assert_eq!(working_file(&f, "file2.txt"), b"y=changed\n".to_vec());
}

#[test]
fn autostash_brings_the_changes_back_after_the_removal() {
    let mut f = fixture();
    make_dirty(&f);
    let before = dirty_paths(&f.repo);
    let stashes = stash_count(&mut f.repo);
    let onto = f.a.to_string();
    let end = run(&mut f.repo, request("fix1", &onto, false, Plan::new(true, true, false)));
    assert_eq!(end.failure_kind(), None);
    assert!(end.has_stash());
    assert!(end.is_done());
    assert_eq!(
        end.trace().clone(),
        vec![
            Phase::CheckState,
            Phase::StashSave,
            Phase::ResolveTarget,
            Phase::ReadFix,
            Phase::PickTree,
            Phase::CreateBranch,
            Phase::ReadIdentity,
            Phase::CreateCommit,
            Phase::ReadTip,
            Phase::ResetHard,
            Phase::StashPop,
        ]
    );
    assert_eq!(stash_count(&mut f.repo), stashes);
    assert_eq!(dirty_paths(&f.repo), before);
    assert_eq!(working_file(&f, "file2.txt"), b"y=changed\n".to_vec());
    assert_eq!(working_file(&f, "file1.txt"), b"x=0\n".to_vec());
    assert_eq!(head_of(&f.repo), f.b);
    assert_eq!(tip_of(&f.repo, "main"), Some(f.b));
    let new_commit = tip_of(&f.repo, "fix1").unwrap();
    assert_eq!(blob_of(&f.repo, new_commit, "file1.txt"), Some(b"x=1\n".to_vec()));
    assert_eq!(blob_of(&f.repo, new_commit, "file2.txt"), None);
}

#[test]
fn autostash_brings_the_changes_back_after_a_failure() {
    let mut f = fixture();
    f.repo.branch("fix1", &f.repo.find_commit(f.a).unwrap(), false).unwrap();
    make_dirty(&f);
    let before = dirty_paths(&f.repo);
    let onto = f.b.to_string();
    let end = run(&mut f.repo, request("fix1", &onto, false, Plan::new(true, true, true)));
    assert_eq!(end.failure_kind(), Some(ErrorKind::BranchAlreadyExists));
    assert!(end.is_done());
    assert!(end.has_stash());
    assert_eq!(end.trace().last(), Some(&Phase::StashPop));
    assert!(!end.trace().contains(&Phase::ResetHard));
    assert!(!end.trace().contains(&Phase::Push));
    let error = end.into_result().unwrap_err();
    assert!(error.cleanup.is_none());

    assert_eq!(stash_count(&mut f.repo), 0);
    assert_eq!(dirty_paths(&f.repo), before);
    assert_eq!(working_file(&f, "file2.txt"), b"y=changed\n".to_vec());
    assert_eq!(head_of(&f.repo), f.c);
    assert_eq!(tip_of(&f.repo, "fix1"), Some(f.a));
}

#[test]
fn autostash_with_nothing_to_stash_is_no_error() {
    let mut f = fixture();
    let onto = f.b.to_string();
    let end = run(&mut f.repo, request("fix1", &onto, false, Plan::new(true, true, false)));
    assert_eq!(end.failure_kind(), None);
    assert!(!end.has_stash());
    assert!(end.trace().contains(&Phase::StashSave));
    assert!(!end.trace().contains(&Phase::StashPop));
    assert_eq!(stash_count(&mut f.repo), 0);
    assert_eq!(head_of(&f.repo), f.b);
}

#[test]
fn stash_says_whether_something_was_set_aside() {
    let mut f = fixture();
    assert_eq!(stash(&mut f.repo).unwrap(), false);
    assert_eq!(stash_count(&mut f.repo), 0);
    make_dirty(&f);
    assert_eq!(stash(&mut f.repo).unwrap(), true);
    assert_eq!(stash_count(&mut f.repo), 1);
    assert!(dirty_paths(&f.repo).is_empty());
    assert!(assure_workspace_is_clean(&f.repo).is_ok());
}

#[test]
fn stash_without_a_configured_user_is_an_error_of_the_object_store() {
    let dir = TempDir::new().unwrap();
    let mut repo = Repository::init(dir.path()).unwrap();
    {
        let mut config = repo.config().unwrap();
        // An empty name is as good as none.
        config.set_str("user.name", "").unwrap();
        config.set_str("user.email", "").unwrap();
    }
    match stash(&mut repo) {
        Ok(saved) => assert!(!saved),
        Err(error) => {
            assert_eq!(error.kind, ErrorKind::ObjectStoreError);
            assert!(matches!(error.detail, Detail::Git(_)));
        },
    }
}

#[test]
fn autostash_without_a_usable_identity_ends_the_run_before_anything_changes() {
    let mut f = fixture();
    make_dirty(&f);
    let before = dirty_paths(&f.repo);
    {
        let mut config = f.repo.config().unwrap();
        config.set_str("user.name", "").unwrap();
        config.set_str("user.email", "").unwrap();
    }
    assert!(f.repo.signature().is_err());
    let onto = f.b.to_string();
    let end = run(&mut f.repo, request("fix1", &onto, false, Plan::new(true, true, true)));
    assert!(end.is_done());
    assert_eq!(end.failure_kind(), Some(ErrorKind::ObjectStoreError));
    assert_eq!(end.failure_step(), Some(Phase::StashSave));
    assert!(!end.has_stash());
    assert_eq!(end.trace().clone(), vec![Phase::CheckState, Phase::StashSave]);
    assert_eq!(tip_of(&f.repo, "fix1"), None);
    assert_eq!(head_of(&f.repo), f.c);
    assert_eq!(dirty_paths(&f.repo), before);
    assert_eq!(stash_count(&mut f.repo), 0);

    let error = stash(&mut f.repo).unwrap_err();
    assert_eq!(error.kind, ErrorKind::ObjectStoreError);
    assert_eq!(stash_count(&mut f.repo), 0);
}

#[test]
fn run_leaves_publishing_to_the_caller_and_resume_does_not_take_it_up() {
    let mut f = fixture();
    let onto = f.b.to_string();
    let end = run(&mut f.repo, request("fix1", &onto, false, Plan::new(false, false, true)));
    assert_eq!(end.current(), Phase::Push);
    assert!(!end.trace().contains(&Phase::Push));
    let steps = end.trace().clone();
    let end = resume(&mut f.repo, end);
    assert_eq!(end.current(), Phase::Push);
    assert_eq!(end.trace().clone(), steps);
    assert_eq!(end.failure_kind(), None);
    let end = end.advance(Event::PushFinished(PushStatus { success: true, code: Some(0) }));
    assert!(end.is_done());
    let steps = end.trace().clone();
    let end = resume(&mut f.repo, end);
    assert!(end.is_done());
    assert_eq!(end.trace().clone(), steps);
    assert!(end.into_result().is_ok());

    let end = run(&mut f.repo, request("fix1", &onto, false, Plan::new(false, false, true)));
    assert!(end.is_done());
    assert_eq!(end.failure_kind(), Some(ErrorKind::BranchAlreadyExists));
    assert!(!end.trace().contains(&Phase::Push));
}

#[test]
fn workspace_check_lists_what_is_dirty() {
    let f = fixture();
    assert!(assure_workspace_is_clean(&f.repo).is_ok());
    make_dirty(&f);
    let error = assure_workspace_is_clean(&f.repo).unwrap_err();
    assert_eq!(error.kind, ErrorKind::DirtyWorkspace);
    match error.detail {
        Detail::Dirty(entries) => {
            let paths: Vec<Option<String>> = entries.iter().map(|e| e.path.clone()).collect();
            assert_eq!(paths, vec![Some("file2.txt".to_string())]);
        },
        _ => panic!("the dirty paths are missing"),
    }
}

#[test]
fn repository_in_a_merge_is_busy_and_stays_untouched() {
    let mut f = fixture();
    assert!(assure_repo_in_normal_state(&f.repo).is_ok());
    let side = commit_files(&f.repo, None, "side", &[("file1.txt", b"x=2\n")], &[f.a]);
    {
        let theirs = f.repo.find_annotated_commit(side).unwrap();
        f.repo.merge(&[&theirs], None, None).unwrap();
    }
    assert_eq!(f.repo.state(), git2::RepositoryState::Merge);

    let error = assure_repo_in_normal_state(&f.repo).unwrap_err();
    assert_eq!(error.kind, ErrorKind::RepositoryBusy);
    assert!(matches!(error.detail, Detail::State(RepoState::Merge)));

    let onto = f.a.to_string();
    let end = run(&mut f.repo, request("fix1", &onto, true, Plan::new(true, true, true)));
    assert_eq!(end.failure_kind(), Some(ErrorKind::RepositoryBusy));
    assert_eq!(end.trace().clone(), vec![Phase::CheckState]);
    assert!(end.is_done());
    assert!(!end.has_stash());
    assert_eq!(tip_of(&f.repo, "fix1"), None);
    assert_eq!(head_of(&f.repo), f.c);
    assert_eq!(stash_count(&mut f.repo), 0);
    assert_eq!(f.repo.state(), git2::RepositoryState::Merge);
}

#[test]
fn conflicting_fix_is_refused_with_the_paths_in_conflict() {
    let mut f = fixture();
    let other = commit_files(
        &f.repo,
        None,
        "other",
        &[("file1.txt", b"x=7\n"), ("file2.txt", b"y=0\n")],
        &[f.b],
    );
    let onto = other.to_string();
    let end = run(&mut f.repo, request("fix1", &onto, false, Plan::new(true, false, false)));
    assert_eq!(end.failure_kind(), Some(ErrorKind::MergeConflict));
    assert_eq!(end.failure_step(), Some(Phase::PickTree));
    assert!(!end.trace().contains(&Phase::CreateBranch));
    let error = end.into_result().unwrap_err();
    match &error.detail {
        Detail::Conflicts(sides) => {
            assert_eq!(sides.len(), 1);
            assert_eq!(sides[0].path(), Some(&b"file1.txt".to_vec()));
        },
        _ => panic!("the paths in conflict are missing"),
    }
    assert_eq!(tip_of(&f.repo, "fix1"), None);
    assert_eq!(head_of(&f.repo), f.c);
}

#[test]
fn unknown_target_is_an_error_of_the_object_store() {
    let f = fixture();
    let error = cherrypick_commit_onto_new_branch(&f.repo, "fix1", "no/such/branch", false)
        .unwrap_err();
    assert_eq!(error.kind, ErrorKind::ObjectStoreError);
    match &error.detail {
        Detail::Git(failure) => assert!(!failure.message.is_empty()),
        _ => panic!("the failure of the object store is missing"),
    }
    assert_eq!(tip_of(&f.repo, "fix1"), None);
}

#[test]
fn removal_drops_the_tip_of_the_current_branch() {
    let f = fixture();
    remove_commit_from_head(&f.repo).unwrap();
    assert_eq!(head_of(&f.repo), f.b);
    assert_eq!(working_file(&f, "file1.txt"), b"x=0\n".to_vec());
    remove_commit_from_head(&f.repo).unwrap();
    assert_eq!(head_of(&f.repo), f.a);
    let error = remove_commit_from_head(&f.repo).unwrap_err();
    assert_eq!(error.kind, ErrorKind::UnsupportedMergeCommit);
    assert_eq!(head_of(&f.repo), f.a);
}

#[test]
fn pick_and_clean_relocates_and_removes() {
    let f = fixture();
    let onto = f.b.to_string();
    wrapper_pick_and_clean(&f.repo, "fix1", &onto, false).unwrap();
    let new_commit = tip_of(&f.repo, "fix1").unwrap();
    assert_eq!(f.repo.find_commit(new_commit).unwrap().parent_id(0).unwrap(), f.b);
    assert_eq!(head_of(&f.repo), f.b);
    assert_eq!(tip_of(&f.repo, "main"), Some(f.b));
}

#[test]
fn publishing_is_left_to_the_caller_and_its_failure_undoes_nothing() {
    let mut f = fixture();
    let onto = f.b.to_string();
    let end = run(&mut f.repo, request("fix1", &onto, false, Plan::new(true, false, true)));
    assert_eq!(end.current(), Phase::Push);
    assert_eq!(end.failure_kind(), None);
    assert!(!end.is_done());
    let new_commit = tip_of(&f.repo, "fix1").unwrap();

    let end = end.advance(Event::PushFinished(PushStatus { success: false, code: Some(128) }));
    assert!(end.is_done());
    assert_eq!(end.failure_kind(), Some(ErrorKind::PushFailed));
    assert_eq!(end.failure_step(), Some(Phase::Push));
    let error = end.into_result().unwrap_err();
    assert!(matches!(error.detail, Detail::Exit(Some(128))));
    assert_eq!(tip_of(&f.repo, "fix1"), Some(new_commit));
    assert_eq!(head_of(&f.repo), f.b);
}

#[test]
fn default_branch_is_the_first_usual_name_that_resolves() {
    let f = fixture();
    let error = get_default_branch(&f.repo).unwrap_err();
    assert_eq!(error.kind, ErrorKind::DefaultBranchNotFound);
    assert_eq!(error.suggestions, vec!["Manually set the target branch with `--onto`."]);

    f.repo.reference("refs/remotes/origin/develop", f.a, false, "test").unwrap();
    assert_eq!(get_default_branch(&f.repo).unwrap(), "origin/develop");
    f.repo.reference("refs/remotes/origin/master", f.b, false, "test").unwrap();
    assert_eq!(get_default_branch(&f.repo).unwrap(), "origin/master");
    f.repo.reference("refs/remotes/origin/main", f.b, false, "test").unwrap();
    assert_eq!(get_default_branch(&f.repo).unwrap(), "origin/main");

    cherrypick_commit_onto_new_branch(&f.repo, "fix1", "origin/develop", false).unwrap();
    let new_commit = tip_of(&f.repo, "fix1").unwrap();
    assert_eq!(f.repo.find_commit(new_commit).unwrap().parent_id(0).unwrap(), f.a);
}

#[test]
fn empty_commit_on_newly_created_branch() {
    let dir = TempDir::new().unwrap();
    let mut options = RepositoryInitOptions::new();
    options.initial_head("main");
    let mut repo = Repository::init_opts(dir.path(), &options).unwrap();
    {
        let mut config = repo.config().unwrap();
        config.set_str("user.name", "Bob Committer").unwrap();
        config.set_str("user.email", "bob@example.org").unwrap();
    }
    let mut tip: Vec<Oid> = Vec::new();
    let mut first = None;
    for (commit_message, filename, content) in [
        ("first commit", "file1.txt", b"Hello, world!\n"),
        ("second commit", "file1.txt", b"Hello, world!\n"),
        ("third commit", "file1.txt", b"Hello, world!\n"),
    ] {
        let id = commit_files(&repo, Some("HEAD"), commit_message, &[(filename, content)], &tip);
        if first.is_none() {
            first = Some(id);
        }
        tip = vec![id];
    }
    check_out(&repo);
    let first = first.unwrap();
    let second = repo.find_commit(tip[0]).unwrap().parent_id(0).unwrap();

    let onto = first.to_string();
    let end = run(&mut repo, request("fix1", &onto, false, Plan::new(true, false, false)));
    assert_eq!(end.failure_kind(), None);
    let new_commit = tip_of(&repo, "fix1").unwrap();
    let relocated = repo.find_commit(new_commit).unwrap();
    assert_eq!(relocated.message_raw().unwrap(), "third commit");
    assert_eq!(relocated.parent_id(0).unwrap(), first);
    assert_eq!(relocated.tree_id(), repo.find_commit(first).unwrap().tree_id());
    assert_eq!(head_of(&repo), second);
    assert_eq!(tip_of(&repo, "main"), Some(second));
}
