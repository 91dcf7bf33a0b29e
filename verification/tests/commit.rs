use commit_prompt::commit::{
    commit_staged, create_commit, resolve_identity, CommitError, Identity,
};
use commit_prompt::prompt::{finish_entry, ReadEvent};

fn entry_for(path: &str, stage: u16, data: &[u8]) -> git2::IndexEntry {
    git2::IndexEntry {
        ctime: git2::IndexTime::new(0, 0),
        mtime: git2::IndexTime::new(0, 0),
        dev: 0,
        ino: 0,
        mode: 0o100644,
        uid: 0,
        gid: 0,
        file_size: data.len() as u32,
        id: git2::Oid::zero(),
        flags: stage << 12,
        flags_extended: 0,
        path: path.as_bytes().to_vec(),
    }
}

fn stage_file(repo: &git2::Repository, path: &str, data: &[u8]) {
    let mut index = repo.index().unwrap();
    index.add_frombuffer(&entry_for(path, 0, data), data).unwrap();
    index.write().unwrap();
}

fn initial_commit(repo: &git2::Repository) -> git2::Oid {
    stage_file(repo, "start.txt", b"start");
    let mut index = repo.index().unwrap();
    let tree_id = index.write_tree().unwrap();
    let tree = repo.find_tree(tree_id).unwrap();
    let signature = git2::Signature::now("A", "a@x").unwrap();
    repo.commit(Some("HEAD"), &signature, &signature, "initial", &tree, &[])
        .unwrap()
}

fn test_identity() -> Identity {
    Identity {
        name: "A".to_string(),
        email: "a@x".to_string(),
    }
}

#[test]
fn commit_staged_advances_head_by_exactly_one_commit() {
    let dir = tempfile::tempdir().unwrap();
    let repo = git2::Repository::init(dir.path()).unwrap();
    let c0 = initial_commit(&repo);
    stage_file(&repo, "file.txt", b"new content");
    let t1 = repo.index().unwrap().write_tree().unwrap();

    let (result, _) = commit_staged(&repo, &test_identity(), "msg");
    let new_id = match result {
        Ok(id) => id,
        Err(_) => panic!("commit must succeed with identity, staged tree and parent"),
    };

    let commit = repo.find_commit(new_id).unwrap();
    assert_eq!(commit.parent_count(), 1);
    assert_eq!(commit.parent_id(0).unwrap(), c0);
    assert_eq!(commit.tree_id(), t1);
    assert_eq!(commit.message().unwrap(), "msg");
    assert_eq!(commit.author().name().unwrap(), "A");
    assert_eq!(commit.author().email().unwrap(), "a@x");
    assert_eq!(commit.committer().name().unwrap(), "A");
    assert_eq!(commit.committer().email().unwrap(), "a@x");
    assert_eq!(repo.head().unwrap().target().unwrap(), new_id);
}

#[test]
fn missing_email_fails_identity_resolution() {
    let dir = tempfile::tempdir().unwrap();
    let mut config = git2::Config::open(&dir.path().join("config")).unwrap();
    config.set_str("user.name", "A").unwrap();
    let (result, _) = resolve_identity(&config);
    assert!(matches!(result, Err(CommitError::MissingUserEmail)));
}

#[test]
fn missing_name_fails_identity_resolution() {
    let dir = tempfile::tempdir().unwrap();
    let config = git2::Config::open(&dir.path().join("config")).unwrap();
    let (result, _) = resolve_identity(&config);
    assert!(matches!(result, Err(CommitError::MissingUserName)));
}

#[test]
fn identity_resolution_reads_both_keys() {
    let dir = tempfile::tempdir().unwrap();
    let mut config = git2::Config::open(&dir.path().join("config")).unwrap();
    config.set_str("user.name", "A").unwrap();
    config.set_str("user.email", "a@x").unwrap();
    let (result, _) = resolve_identity(&config);
    match result {
        Ok(identity) => {
            assert_eq!(identity.name, "A");
            assert_eq!(identity.email, "a@x");
        }
        Err(_) => panic!("both keys are configured"),
    }
}

#[test]
fn tree_write_failure_prevents_commit_creation() {
    let dir = tempfile::tempdir().unwrap();
    let repo = git2::Repository::init(dir.path()).unwrap();
    let c0 = initial_commit(&repo);
    let signature = git2::Signature::now("A", "a@x").unwrap();

    // Two children of the first commit changing the same file in different
    // ways; merging them leaves an unresolvable, conflicted index.
    stage_file(&repo, "start.txt", b"ours");
    let ours_tree_id = repo.index().unwrap().write_tree().unwrap();
    let ours_tree = repo.find_tree(ours_tree_id).unwrap();
    let parent = repo.find_commit(c0).unwrap();
    let ours_id = repo
        .commit(Some("HEAD"), &signature, &signature, "ours", &ours_tree, &[&parent])
        .unwrap();

    stage_file(&repo, "start.txt", b"theirs");
    let theirs_tree_id = repo.index().unwrap().write_tree().unwrap();
    let theirs_tree = repo.find_tree(theirs_tree_id).unwrap();
    let theirs_id = repo
        .commit(None, &signature, &signature, "theirs", &theirs_tree, &[&parent])
        .unwrap();

    let ours = repo.find_commit(ours_id).unwrap();
    let theirs = repo.find_commit(theirs_id).unwrap();
    let mut merged = repo.merge_commits(&ours, &theirs, None).unwrap();
    assert!(merged.has_conflicts());
    repo.set_index(&mut merged).unwrap();

    let (result, _) = commit_staged(&repo, &test_identity(), "msg");
    assert!(matches!(result, Err(CommitError::TreeWriteFailed)));
    assert_eq!(repo.head().unwrap().target().unwrap(), ours_id);
}

#[test]
fn unborn_head_fails_parent_resolution_and_creates_nothing() {
    let dir = tempfile::tempdir().unwrap();
    let repo = git2::Repository::init(dir.path()).unwrap();
    stage_file(&repo, "file.txt", b"content");
    let (result, _) = commit_staged(&repo, &test_identity(), "msg");
    assert!(matches!(result, Err(CommitError::HeadMissing)));
    assert!(repo.head().is_err());
}

#[test]
fn create_commit_outside_a_repository_fails_at_the_first_step() {
    let dir = tempfile::tempdir().unwrap();
    let (result, _) = create_commit(dir.path().to_str().unwrap(), "msg");
    assert!(matches!(result, Err(CommitError::RepositoryNotFound)));
}

#[test]
fn aborted_entry_never_reaches_the_commit_path() {
    let dir = tempfile::tempdir().unwrap();
    let repo = git2::Repository::init(dir.path()).unwrap();
    let c0 = initial_commit(&repo);
    stage_file(&repo, "file.txt", b"new content");

    let entry = finish_entry(ReadEvent::Interrupted);
    if let Ok(message) = entry {
        let _ = create_commit(dir.path().to_str().unwrap(), &message);
        panic!("an interrupted entry must not produce a message");
    }
    assert_eq!(repo.head().unwrap().target().unwrap(), c0);
}

#[test]
fn each_failure_names_the_step_that_failed() {
    assert_eq!(
        CommitError::RepositoryNotFound.describe(),
        "Could not open repository in current directory"
    );
    assert_eq!(
        CommitError::MissingUserName.describe(),
        "Unable to obtain user.name from git config"
    );
    assert_eq!(
        CommitError::MissingUserEmail.describe(),
        "Unable to obtain user.email from git config"
    );
    assert_eq!(CommitError::TreeWriteFailed.describe(), "Unable to obtain index tree");
    assert_eq!(CommitError::HeadMissing.describe(), "Could not obtain HEAD");
    assert_eq!(CommitError::CommitFailed.describe(), "Could not create new commit");
}
