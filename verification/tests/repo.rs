use std::time::SystemTime;
use std::time::UNIX_EPOCH;

use hayatmoji::errors::FlowError;
use hayatmoji::message::CommitMessage;
use hayatmoji::writer::ensure_staged;
use hayatmoji::writer::run_commit;
use hayatmoji::writer::write_commit;

fn fresh_repo(tag: &str) -> git2::Repository {
    let nanos = SystemTime::now().duration_since(UNIX_EPOCH).unwrap().as_nanos();
    let path = format!("/tmp/hayatmoji_test_{}_{}", tag, nanos);
    let repo = git2::Repository::init(&path).unwrap();
    {
        let mut config = repo.config().unwrap();
        config.set_str("user.name", "Test Author").unwrap();
        config.set_str("user.email", "author@example.com").unwrap();
    }
    repo
}

fn initial_commit(repo: &git2::Repository) -> git2::Oid {
    let mut index = repo.index().unwrap();
    let tree_oid = index.write_tree().unwrap();
    let tree = repo.find_tree(tree_oid).unwrap();
    let sig = repo.signature().unwrap();
    repo.commit(Some("HEAD"), &sig, &sig, "initial", &tree, &[]).unwrap()
}

fn stage_buffer(repo: &git2::Repository, path: &str, data: &[u8]) {
    let mut index = repo.index().unwrap();
    let entry = git2::IndexEntry {
        ctime: git2::IndexTime::new(0, 0),
        mtime: git2::IndexTime::new(0, 0),
        dev: 0,
        ino: 0,
        mode: 0o100644,
        uid: 0,
        gid: 0,
        file_size: data.len() as u32,
        id: git2::Oid::zero(),
        flags: 0,
        flags_extended: 0,
        path: path.as_bytes().to_vec(),
    };
    index.add_frombuffer(&entry, data).unwrap();
    index.write().unwrap();
}

fn payload(body: Option<&str>) -> CommitMessage {
    CommitMessage {
        emoji: "🎨".to_string(),
        title: "improve formatting".to_string(),
        body: body.map(|b| b.to_string()),
    }
}

#[test]
fn ensure_staged_fails_on_clean_index() {
    let repo = fresh_repo("clean");
    initial_commit(&repo);
    let r = ensure_staged(&repo);
    assert!(matches!(r, Err(FlowError::NothingStaged)));
}

#[test]
fn ensure_staged_succeeds_with_staged_new_file() {
    let repo = fresh_repo("staged");
    initial_commit(&repo);
    stage_buffer(&repo, "a.txt", b"hello\n");
    assert!(ensure_staged(&repo).is_ok());
}

#[test]
fn ensure_staged_ignores_unstaged_working_tree_changes() {
    let repo = fresh_repo("worktree");
    initial_commit(&repo);
    stage_buffer(&repo, "a.txt", b"hello\n");
    let oid = write_commit(&repo, &payload(None)).unwrap();
    assert_eq!(repo.head().unwrap().target().unwrap(), oid);
    // The committed file was staged from a buffer and never written to the
    // working directory, so the status table shows a working-tree deletion
    // but a clean index.
    let statuses = repo.statuses(None).unwrap();
    assert!(statuses.iter().any(|e| e.status().is_wt_deleted()));
    let r = ensure_staged(&repo);
    assert!(matches!(r, Err(FlowError::NothingStaged)));
}

#[test]
fn write_commit_without_body_creates_the_described_commit() {
    let repo = fresh_repo("no_body");
    let first = initial_commit(&repo);
    stage_buffer(&repo, "a.txt", b"hello\n");
    let expected_tree = repo.index().unwrap().write_tree().unwrap();
    let oid = write_commit(&repo, &payload(None)).unwrap();
    let commit = repo.find_commit(oid).unwrap();
    assert_eq!(commit.message().unwrap(), "🎨 improve formatting");
    assert_eq!(commit.parent_count(), 1);
    assert_eq!(commit.parent_id(0).unwrap(), first);
    assert_eq!(commit.tree_id(), expected_tree);
    assert_eq!(repo.head().unwrap().target().unwrap(), oid);
}

#[test]
fn write_commit_with_body_appends_blank_line_then_body() {
    let repo = fresh_repo("with_body");
    initial_commit(&repo);
    stage_buffer(&repo, "a.txt", b"hello\n");
    let oid = write_commit(&repo, &payload(Some("Closes #12"))).unwrap();
    let commit = repo.find_commit(oid).unwrap();
    assert_eq!(commit.message().unwrap(), "🎨 improve formatting\n\nCloses #12");
}

#[test]
fn write_commit_on_unborn_head_fails_and_writes_nothing() {
    let repo = fresh_repo("unborn");
    stage_buffer(&repo, "a.txt", b"hello\n");
    let r = write_commit(&repo, &payload(None));
    assert!(matches!(r, Err(FlowError::DetachedOrEmptyHead)));
    // No commit was created: HEAD still does not resolve.
    assert!(repo.head().is_err());
}

#[test]
fn run_commit_chains_staging_check_and_writer() {
    let repo = fresh_repo("chain");
    initial_commit(&repo);
    let r = run_commit(&repo, &payload(None));
    assert!(matches!(r, Err(FlowError::NothingStaged)));
    stage_buffer(&repo, "b.txt", b"content\n");
    let oid = run_commit(&repo, &payload(None)).unwrap();
    assert_eq!(repo.head().unwrap().target().unwrap(), oid);
}

#[test]
fn error_lines_are_single_readable_messages() {
    assert_eq!(FlowError::NothingStaged.line(), "nothing to commit");
    assert_eq!(FlowError::DetachedOrEmptyHead.line(), "HEAD does not resolve to a commit");
    assert_eq!(FlowError::Prompt.line(), "prompt aborted");
    assert_eq!(FlowError::Repo("boom".to_string()).line(), "boom");
}
