use git_loom::fold_steps::{file_uncommit_step, fold_commit_file_to_unstaged, FileUncommitAt, FoldAction, FoldEvent};
use git_loom::git::{GitFailure, LoomError};

const COMMIT: &str = "1111111111111111111111111111111111111111";
const HEAD: &str = "9999999999999999999999999999999999999999";

fn args(a: &FoldAction) -> Vec<String> {
    match a {
        FoldAction::Run(c) | FoldAction::Read(c) => c.args.clone(),
        _ => panic!("expected a git command"),
    }
}

fn finished(a: FoldAction) -> String {
    match a {
        FoldAction::Finish(Ok(Some(m))) => m,
        _ => panic!("expected success"),
    }
}

#[test]
fn uncommitting_a_file_with_no_change_in_the_commit_is_refused() {
    let (s, a) = fold_commit_file_to_unstaged(COMMIT.to_string(), "a.txt".to_string(), HEAD.to_string(), vec![]);
    assert_eq!(&args(&a)[..1], &["diff".to_string()]);
    let (s, a) = file_uncommit_step(s, FoldEvent::Read(Ok(String::new())));
    assert!(matches!(s.at, FileUncommitAt::Done));
    assert!(matches!(a, FoldAction::Finish(Err(ref e)) if e.message == "File 'a.txt' has no changes in commit 1111111"));
}

#[test]
fn uncommitting_a_file_of_head_amends_and_reapplies_it() {
    let (s, _) = fold_commit_file_to_unstaged(COMMIT.to_string(), "a.txt".to_string(), COMMIT.to_string(), vec![]);
    let (s, a) = file_uncommit_step(s, FoldEvent::Read(Ok("D\n".to_string())));
    assert!(matches!(a, FoldAction::SubmoduleEntry { ref path, .. } if path == "a.txt"));
    let (s, a) = file_uncommit_step(s, FoldEvent::Gitlink(Ok(None)));
    assert!(matches!(a, FoldAction::Snapshot));
    let (s, a) = file_uncommit_step(s, FoldEvent::Checked(Ok(())));
    assert!(matches!(a, FoldAction::AmendPath { ref patch, reverse: true, gitlink: false, .. } if patch == "D\n"));
    let (s, a) = file_uncommit_step(s, FoldEvent::Checked(Ok(())));
    assert_eq!(args(&a), vec!["rev-parse", "HEAD"]);
    let (s, a) = file_uncommit_step(s, FoldEvent::Read(Ok("2222222\n".to_string())));
    assert!(matches!(a, FoldAction::ApplyToWorktree(ref d) if d == "D\n"));
    let (s, a) = file_uncommit_step(s, FoldEvent::Checked(Ok(())));
    assert!(matches!(a, FoldAction::Describe(ref h) if h == "2222222"));
    let (_, a) = file_uncommit_step(s, FoldEvent::Described("`2222222` X".to_string()));
    assert_eq!(finished(a), "Uncommitted `a.txt` from `1111111` (now `2222222` X) to working directory");
}

#[test]
fn a_failed_reapply_rolls_back() {
    let (s, _) = fold_commit_file_to_unstaged(COMMIT.to_string(), "a.txt".to_string(), COMMIT.to_string(), vec![]);
    let (s, _) = file_uncommit_step(s, FoldEvent::Read(Ok("D\n".to_string())));
    let (s, _) = file_uncommit_step(s, FoldEvent::Gitlink(Ok(None)));
    let (s, _) = file_uncommit_step(s, FoldEvent::Checked(Ok(())));
    let (s, _) = file_uncommit_step(s, FoldEvent::Checked(Ok(())));
    let (s, _) = file_uncommit_step(s, FoldEvent::Read(Ok("2222222\n".to_string())));
    let (s, a) = file_uncommit_step(s, FoldEvent::Checked(Err(LoomError::new("git apply failed".to_string()))));
    assert!(matches!(a, FoldAction::Rollback));
    let (_, a) = file_uncommit_step(s, FoldEvent::Done);
    assert!(matches!(a, FoldAction::Finish(Err(ref e)) if e.message == "Failed to uncommit file, operation rolled back"));
}

#[test]
fn a_removed_submodule_of_an_older_commit_is_kept_as_a_staged_deletion() {
    let (s, _) = fold_commit_file_to_unstaged(COMMIT.to_string(), "sub".to_string(), HEAD.to_string(), vec![]);
    let (s, _) = file_uncommit_step(s, FoldEvent::Read(Ok("D\n".to_string())));
    let (s, _) = file_uncommit_step(s, FoldEvent::Gitlink(Ok(Some(true))));
    let (s, a) = file_uncommit_step(s, FoldEvent::Checked(Ok(())));
    assert!(matches!(a, FoldAction::EditWeave(ref c) if c == &vec![COMMIT.to_string()]));
    let (s, a) = file_uncommit_step(s, FoldEvent::Checked(Ok(())));
    assert!(matches!(a, FoldAction::RebaseToEdit { ref commit, .. } if commit == COMMIT));
    let (s, a) = file_uncommit_step(s, FoldEvent::Checked(Ok(())));
    assert!(matches!(a, FoldAction::AmendPath { gitlink: true, reverse: true, .. }));
    let (s, _) = file_uncommit_step(s, FoldEvent::Checked(Ok(())));
    let (s, a) = file_uncommit_step(s, FoldEvent::Read(Ok("3333333".to_string())));
    assert!(matches!(a, FoldAction::ContinueToEdit { expect: None, .. }));
    let (s, a) = file_uncommit_step(s, FoldEvent::Checked(Ok(())));
    assert!(matches!(a, FoldAction::Restage));
    let (s, a) = file_uncommit_step(s, FoldEvent::Done);
    assert!(matches!(a, FoldAction::KeepSubmoduleRemoval(ref p) if p == "sub"));
    let (s, a) = file_uncommit_step(s, FoldEvent::Flag(true));
    assert!(matches!(a, FoldAction::Describe(ref h) if h == "3333333"));
    let (_, a) = file_uncommit_step(s, FoldEvent::Described("`3333333` Y".to_string()));
    assert_eq!(finished(a), "Uncommitted `sub` from `1111111` (now `3333333` Y) as a staged deletion");
}

#[test]
fn a_failed_rebase_puts_the_staged_changes_back_or_parks_them() {
    let (s, _) = fold_commit_file_to_unstaged(COMMIT.to_string(), "a.txt".to_string(), HEAD.to_string(), vec![]);
    let (s, _) = file_uncommit_step(s, FoldEvent::Read(Ok("D\n".to_string())));
    let (s, _) = file_uncommit_step(s, FoldEvent::Gitlink(Ok(None)));
    let (s, _) = file_uncommit_step(s, FoldEvent::Checked(Ok(())));
    let (s, _) = file_uncommit_step(s, FoldEvent::Checked(Ok(())));
    let (s, a) = file_uncommit_step(s, FoldEvent::Checked(Err(LoomError::new("conflict".to_string()))));
    assert!(matches!(a, FoldAction::RestoreOrPark(ref e) if e.message == "conflict"));
    let (_, a) = file_uncommit_step(s, FoldEvent::Done);
    assert!(matches!(a, FoldAction::Finish(Err(ref e)) if e.message == "conflict"));
}

#[test]
fn a_diff_that_cannot_be_read_fails_the_uncommit() {
    let (s, _) = fold_commit_file_to_unstaged(COMMIT.to_string(), "a.txt".to_string(), HEAD.to_string(), vec![]);
    let (_, a) = file_uncommit_step(s, FoldEvent::Read(Err(GitFailure { message: "bad object".to_string() })));
    assert!(matches!(a, FoldAction::Finish(Err(ref e)) if e.message == "bad object"));
}
