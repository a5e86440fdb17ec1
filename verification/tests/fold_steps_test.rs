use git_loom::fold_steps::{fold_files_into_commit, files_fold_step, FilesAt, FoldAction, FoldEvent};
use git_loom::git::{GitFailure, LoomError};

const HEAD: &str = "1111111111111111111111111111111111111111";
const TARGET: &str = "2222222222222222222222222222222222222222";

fn texts(v: &[&str]) -> Vec<String> {
    v.iter().map(|s| s.to_string()).collect()
}

fn args(a: &FoldAction) -> Vec<String> {
    match a {
        FoldAction::Run(c) | FoldAction::Read(c) => c.args.clone(),
        _ => panic!("expected a git command"),
    }
}

#[test]
fn the_first_file_without_changes_is_refused_before_any_staging() {
    let (s, a) = fold_files_into_commit(texts(&["a.txt", "b.txt", "c.txt"]), TARGET.to_string(), HEAD.to_string(), false, vec![]);
    assert!(matches!(a, FoldAction::HasChanges(ref f) if f == "a.txt"));
    let (s, a) = files_fold_step(s, FoldEvent::Changes(true));
    assert!(matches!(a, FoldAction::HasChanges(ref f) if f == "b.txt"));
    let (s, a) = files_fold_step(s, FoldEvent::Changes(false));
    assert!(matches!(s.at, FilesAt::Done));
    match a {
        FoldAction::Finish(Err(e)) => assert_eq!(e.message, "File 'b.txt' has no changes to fold"),
        _ => panic!("expected the refusal"),
    }
}

#[test]
fn a_fold_into_head_stages_amends_and_reports() {
    let (s, a) = fold_files_into_commit(texts(&["a.txt"]), HEAD.to_string(), HEAD.to_string(), false, vec![]);
    assert!(matches!(a, FoldAction::HasChanges(_)));
    let (s, a) = files_fold_step(s, FoldEvent::Changes(true));
    assert!(matches!(a, FoldAction::SaveOtherStaged(ref f) if f == &texts(&["a.txt"])));
    let (s, a) = files_fold_step(s, FoldEvent::Checked(Ok(())));
    assert!(matches!(a, FoldAction::Stage(_)));
    let (s, a) = files_fold_step(s, FoldEvent::Ran(Ok(())));
    assert_eq!(args(&a), texts(&["commit", "--amend", "--no-edit", "--allow-empty"]));
    let (s, a) = files_fold_step(s, FoldEvent::Ran(Ok(())));
    assert!(matches!(a, FoldAction::RestoreOtherStaged));
    let (s, a) = files_fold_step(s, FoldEvent::Done);
    assert_eq!(args(&a), texts(&["rev-parse", "HEAD"]));
    let (s, a) = files_fold_step(s, FoldEvent::Read(Ok("3333333abc\n".to_string())));
    assert!(matches!(a, FoldAction::Describe(ref h) if h == "3333333abc"));
    let (_, a) = files_fold_step(s, FoldEvent::Described("`3333333` A1".to_string()));
    match a {
        FoldAction::Finish(Ok(Some(m))) => assert_eq!(m, "Folded 1 file(s) into `1111111` (now `3333333` A1)"),
        _ => panic!("expected success"),
    }
}

#[test]
fn a_failed_amend_is_taken_back() {
    let (s, _) = fold_files_into_commit(texts(&["a.txt"]), HEAD.to_string(), HEAD.to_string(), true, vec![]);
    assert!(matches!(s.at, FilesAt::Saving));
    let (s, _) = files_fold_step(s, FoldEvent::Checked(Ok(())));
    let (s, a) = files_fold_step(s, FoldEvent::Ran(Err(GitFailure { message: "hook refused".to_string() })));
    assert!(matches!(a, FoldAction::UndoCommit { ref staged_by_loom } if staged_by_loom.is_empty()));
    let (_, a) = files_fold_step(s, FoldEvent::Done);
    assert!(matches!(a, FoldAction::Finish(Err(ref e)) if e.message == "hook refused"));
}

#[test]
fn a_fixup_that_left_no_commit_is_taken_back() {
    let opts = texts(&["--dry-run"]);
    let (s, a) = fold_files_into_commit(texts(&["a.txt"]), TARGET.to_string(), HEAD.to_string(), false, opts);
    assert!(matches!(a, FoldAction::HasChanges(_)));
    let (s, a) = files_fold_step(s, FoldEvent::Changes(true));
    assert!(matches!(a, FoldAction::RequireInWeave(ref c) if c == TARGET));
    let (s, _) = files_fold_step(s, FoldEvent::Checked(Ok(())));
    let (s, a) = files_fold_step(s, FoldEvent::Checked(Ok(())));
    assert!(matches!(a, FoldAction::Subject(_)));
    let (s, a) = files_fold_step(s, FoldEvent::Subject(Some("Add login".to_string())));
    assert!(matches!(a, FoldAction::Stage(_)));
    let (s, a) = files_fold_step(s, FoldEvent::Ran(Ok(())));
    assert_eq!(args(&a), texts(&["commit", "--dry-run", "-m", "fixup! Add login"]));
    let (s, a) = files_fold_step(s, FoldEvent::Ran(Ok(())));
    assert_eq!(args(&a), texts(&["rev-parse", "HEAD^"]));
    let (s, a) = files_fold_step(s, FoldEvent::Read(Ok("9999\n".to_string())));
    assert!(matches!(a, FoldAction::UndoCommit { ref staged_by_loom } if staged_by_loom == &texts(&["a.txt"])));
    let (_, a) = files_fold_step(s, FoldEvent::Done);
    assert!(matches!(a, FoldAction::Finish(Err(ref e)) if e.message
        == "`git commit` left no new commit on HEAD, so nothing was folded\nAn argument after `--` stopped it from committing"));
}

#[test]
fn a_fixup_squashed_into_its_target_is_reported() {
    let (s, _) = fold_files_into_commit(texts(&["a.txt", "b.txt"]), TARGET.to_string(), HEAD.to_string(), true, vec![]);
    let (s, _) = files_fold_step(s, FoldEvent::Checked(Ok(())));
    let (s, _) = files_fold_step(s, FoldEvent::Checked(Ok(())));
    let (s, a) = files_fold_step(s, FoldEvent::Subject(None));
    assert_eq!(args(&a), texts(&["commit", "-m", "fixup! fixup"]));
    let (s, _) = files_fold_step(s, FoldEvent::Ran(Ok(())));
    let (s, a) = files_fold_step(s, FoldEvent::Read(Ok(format!("{HEAD}\n"))));
    assert!(matches!(a, FoldAction::SquashFixup { ref target, files_count: 2 } if target == TARGET));
    let (s, a) = files_fold_step(s, FoldEvent::Squashed(Ok(false)));
    assert!(matches!(a, FoldAction::RestoreOtherStaged));
    let (s, a) = files_fold_step(s, FoldEvent::Done);
    assert!(matches!(a, FoldAction::DeleteState));
    let (s, a) = files_fold_step(s, FoldEvent::Checked(Ok(())));
    assert_eq!(args(&a), texts(&["rev-parse", "_loom-track"]));
    let (s, a) = files_fold_step(s, FoldEvent::Read(Ok("4444\n".to_string())));
    assert_eq!(args(&a), texts(&["branch", "-D", "_loom-track"]));
    let (s, a) = files_fold_step(s, FoldEvent::Ran(Ok(())));
    assert!(matches!(a, FoldAction::Describe(ref h) if h == "4444"));
    let (_, a) = files_fold_step(s, FoldEvent::Described("d".to_string()));
    assert!(matches!(a, FoldAction::Finish(Ok(Some(ref m))) if m == "Folded 2 file(s) into `2222222` (now d)"));
}

#[test]
fn a_failed_squash_aborts_and_cleans_up() {
    let (s, _) = fold_files_into_commit(texts(&["a.txt"]), TARGET.to_string(), HEAD.to_string(), false, vec![]);
    let (s, _) = files_fold_step(s, FoldEvent::Changes(true));
    let (s, _) = files_fold_step(s, FoldEvent::Checked(Ok(())));
    let (s, _) = files_fold_step(s, FoldEvent::Checked(Ok(())));
    let (s, _) = files_fold_step(s, FoldEvent::Subject(None));
    let (s, _) = files_fold_step(s, FoldEvent::Ran(Ok(())));
    let (s, _) = files_fold_step(s, FoldEvent::Ran(Ok(())));
    let (s, _) = files_fold_step(s, FoldEvent::Read(Ok(HEAD.to_string())));
    let (s, a) = files_fold_step(s, FoldEvent::Squashed(Err(LoomError::new("conflict".to_string()))));
    match &a {
        FoldAction::AbortThenCleanup { cause, cleanup, .. } => {
            assert_eq!(cause.message, "conflict");
            let all: Vec<Vec<String>> = cleanup.iter().map(|c| c.args.clone()).collect();
            assert_eq!(all, vec![
                texts(&["reset", "--soft", HEAD]),
                texts(&["reset", "HEAD", "--", "a.txt"]),
                texts(&["branch", "-D", "_loom-track"]),
            ]);
        }
        _ => panic!("expected the abort"),
    }
    let (_, a) = files_fold_step(s, FoldEvent::Aborted(LoomError::new("conflict; aborted".to_string())));
    assert!(matches!(a, FoldAction::Finish(Err(ref e)) if e.message == "conflict; aborted"));
}

use git_loom::fold_steps::{file_move_step, fold_commit_file_to_commit, FileMoveAt};

const SOURCE: &str = "3333333333333333333333333333333333333333";

#[test]
fn moving_a_file_to_the_same_commit_is_refused() {
    let (_, a) = fold_commit_file_to_commit(SOURCE.to_string(), "a.txt".to_string(), SOURCE.to_string(), vec![]);
    assert!(matches!(a, FoldAction::Finish(Err(ref e)) if e.message == "Source and target are the same commit"));
}

#[test]
fn a_file_with_no_change_in_the_commit_is_refused() {
    let (s, a) = fold_commit_file_to_commit(SOURCE.to_string(), "a.txt".to_string(), TARGET.to_string(), vec![]);
    assert_eq!(args(&a)[0], "diff");
    let (_, a) = file_move_step(s, FoldEvent::Read(Ok(String::new())));
    assert!(matches!(a, FoldAction::Finish(Err(ref e)) if e.message == "File 'a.txt' has no changes in commit 3333333"));
}

#[test]
fn an_older_source_moves_its_file_in_one_rebase() {
    let (s, _) = fold_commit_file_to_commit(SOURCE.to_string(), "a.txt".to_string(), TARGET.to_string(), vec![]);
    let (s, a) = file_move_step(s, FoldEvent::Read(Ok("patch".to_string())));
    assert!(matches!(a, FoldAction::IsGitlink { .. }));
    let (s, a) = file_move_step(s, FoldEvent::Flag(false));
    assert!(matches!(a, FoldAction::IsDescendant { ref commit, ref of } if commit == SOURCE && of == TARGET));
    let (s, a) = file_move_step(s, FoldEvent::Flag(false));
    assert!(matches!(a, FoldAction::Snapshot));
    let (s, a) = file_move_step(s, FoldEvent::Checked(Ok(())));
    assert!(matches!(a, FoldAction::EditWeave(ref c) if c.len() == 2));
    let (s, a) = file_move_step(s, FoldEvent::Checked(Ok(())));
    assert!(matches!(a, FoldAction::RebaseToEdit { ref commit, .. } if commit == SOURCE));
    let (s, a) = file_move_step(s, FoldEvent::Checked(Ok(())));
    assert!(matches!(a, FoldAction::AmendPath { reverse: true, ref patch, .. } if patch == "patch"));
    let (s, _) = file_move_step(s, FoldEvent::Checked(Ok(())));
    let (s, a) = file_move_step(s, FoldEvent::Read(Ok("5555\n".to_string())));
    assert!(matches!(a, FoldAction::ContinueToEdit { expect: Some(ref t), .. } if t == TARGET));
    let (s, a) = file_move_step(s, FoldEvent::Checked(Ok(())));
    assert!(matches!(a, FoldAction::AmendPath { reverse: false, .. }));
    let (s, _) = file_move_step(s, FoldEvent::Checked(Ok(())));
    let (s, _) = file_move_step(s, FoldEvent::Read(Ok("6666\n".to_string())));
    let (s, a) = file_move_step(s, FoldEvent::Checked(Ok(())));
    assert!(matches!(a, FoldAction::Restage));
    let (s, a) = file_move_step(s, FoldEvent::Done);
    assert!(matches!(a, FoldAction::Describe(ref h) if h == "5555"));
    let (s, a) = file_move_step(s, FoldEvent::Described("S".to_string()));
    assert!(matches!(a, FoldAction::Describe(ref h) if h == "6666"));
    let (s, a) = file_move_step(s, FoldEvent::Described("T".to_string()));
    assert!(matches!(s.at, FileMoveAt::Done));
    assert!(matches!(a, FoldAction::Finish(Ok(Some(ref m))) if m == "Moved `a.txt` from `3333333` (now S) to `2222222` (now T)"));
}

#[test]
fn a_failed_target_amend_in_the_second_rebase_aborts_and_rolls_back() {
    let (s, _) = fold_commit_file_to_commit(SOURCE.to_string(), "a.txt".to_string(), TARGET.to_string(), vec![]);
    let (s, _) = file_move_step(s, FoldEvent::Read(Ok("patch".to_string())));
    let (s, _) = file_move_step(s, FoldEvent::Flag(false));
    let (s, _) = file_move_step(s, FoldEvent::Flag(true));
    let (s, _) = file_move_step(s, FoldEvent::Checked(Ok(())));
    let (s, a) = file_move_step(s, FoldEvent::Checked(Ok(())));
    assert!(matches!(a, FoldAction::ForceTrack(ref t) if t == TARGET));
    let (s, a) = file_move_step(s, FoldEvent::Checked(Ok(())));
    assert!(matches!(a, FoldAction::RebaseToEdit { ref protect, .. } if protect == &texts(&[TARGET])));
    let (s, _) = file_move_step(s, FoldEvent::Checked(Ok(())));
    let (s, _) = file_move_step(s, FoldEvent::Checked(Ok(())));
    let (s, a) = file_move_step(s, FoldEvent::Read(Ok("7777\n".to_string())));
    assert!(matches!(a, FoldAction::ContinueToEdit { expect: None, ref protect } if protect == &texts(&["7777"])));
    let (s, a) = file_move_step(s, FoldEvent::Checked(Ok(())));
    assert_eq!(args(&a), texts(&["rev-parse", "_loom-track"]));
    let (s, a) = file_move_step(s, FoldEvent::Read(Ok("8888\n".to_string())));
    assert_eq!(args(&a), texts(&["branch", "-D", "_loom-track"]));
    let (s, a) = file_move_step(s, FoldEvent::Ran(Ok(())));
    assert!(matches!(a, FoldAction::EditWeave(ref c) if c == &texts(&["8888"])));
    let (s, a) = file_move_step(s, FoldEvent::Checked(Ok(())));
    assert!(matches!(a, FoldAction::TrackThrough(ref p) if p == "7777"));
    let (s, _) = file_move_step(s, FoldEvent::Checked(Ok(())));
    let (s, a) = file_move_step(s, FoldEvent::Checked(Ok(())));
    assert!(matches!(a, FoldAction::AmendPath { reverse: false, .. }));
    let (s, a) = file_move_step(s, FoldEvent::Checked(Err(LoomError::new("hook".to_string()))));
    match &a {
        FoldAction::AbortThenCleanup { cause, cleanup, rollback } => {
            assert_eq!(cause.message, "hook");
            assert_eq!(cleanup.len(), 1);
            assert!(*rollback);
        }
        _ => panic!("expected the abort"),
    }
    let (_, a) = file_move_step(s, FoldEvent::Aborted(LoomError::new("hook; aborted".to_string())));
    assert!(matches!(a, FoldAction::Finish(Err(ref e)) if e.message == "hook; aborted"));
}

#[test]
fn an_amend_of_head_that_changed_nothing_is_taken_back() {
    let opts = texts(&["--", "nope"]);
    let (s, _) = fold_files_into_commit(texts(&["a.txt"]), HEAD.to_string(), HEAD.to_string(), true, opts);
    let (s, a) = files_fold_step(s, FoldEvent::Checked(Ok(())));
    assert_eq!(args(&a), texts(&["rev-parse", "HEAD"]));
    let (s, a) = files_fold_step(s, FoldEvent::Read(Ok(format!("{HEAD}\n"))));
    assert_eq!(args(&a), texts(&["rev-parse", "HEAD^{tree}"]));
    let (s, a) = files_fold_step(s, FoldEvent::Read(Ok("tree1\n".to_string())));
    assert_eq!(args(&a), texts(&["commit", "--", "nope", "--amend", "--no-edit", "--allow-empty"]));
    let (s, a) = files_fold_step(s, FoldEvent::Ran(Ok(())));
    assert_eq!(args(&a), texts(&["rev-parse", "HEAD^{tree}"]));
    let (s, a) = files_fold_step(s, FoldEvent::Read(Ok("tree1\n".to_string())));
    assert_eq!(args(&a), texts(&["rev-parse", "HEAD^"]));
    let (s, a) = files_fold_step(s, FoldEvent::Read(Ok("0000000\n".to_string())));
    assert!(matches!(a, FoldAction::UndoCommit { ref staged_by_loom } if staged_by_loom.is_empty()));
    let (_, a) = files_fold_step(s, FoldEvent::Done);
    match a {
        FoldAction::Finish(Err(e)) => assert!(e.message.starts_with("`git commit --amend` left the commit as it was")),
        _ => panic!("expected the refusal"),
    }
}

#[test]
fn an_amend_of_head_that_took_goes_on_to_restore() {
    let (s, _) = fold_files_into_commit(texts(&["a.txt"]), HEAD.to_string(), HEAD.to_string(), true, texts(&["-n"]));
    let (s, _) = files_fold_step(s, FoldEvent::Checked(Ok(())));
    let (s, _) = files_fold_step(s, FoldEvent::Read(Ok(HEAD.to_string())));
    let (s, _) = files_fold_step(s, FoldEvent::Read(Ok("tree1".to_string())));
    let (s, _) = files_fold_step(s, FoldEvent::Ran(Ok(())));
    let (s, _) = files_fold_step(s, FoldEvent::Read(Ok("tree2".to_string())));
    let (_, a) = files_fold_step(s, FoldEvent::Read(Ok("0000000".to_string())));
    assert!(matches!(a, FoldAction::RestoreOtherStaged));
}

#[test]
fn folding_what_is_staged_needs_something_staged() {
    let r = git_loom::fold_steps::run_staged(vec![], HEAD.to_string(), HEAD.to_string(), vec![]);
    assert!(matches!(r, Err(ref e) if e.message == "Nothing to commit"));
    let (s, a) = git_loom::fold_steps::run_staged(texts(&["a.txt"]), HEAD.to_string(), HEAD.to_string(), vec![]).unwrap();
    assert!(matches!(s.at, FilesAt::Saving));
    assert!(matches!(a, FoldAction::SaveOtherStaged(_)));
}

#[test]
fn an_attempt_that_left_head_alone_only_unstages_and_restores() {
    let (s, a) = git_loom::fold_steps::undo_commit_attempt(HEAD.to_string(), texts(&["a.txt"]));
    assert_eq!(args(&a), texts(&["rev-parse", "HEAD"]));
    let (s, a) = git_loom::fold_steps::undo_attempt_step(s, FoldEvent::Read(Ok(format!("{HEAD}\n"))));
    assert_eq!(args(&a), texts(&["reset", "HEAD", "--", "a.txt"]));
    let (s, a) = git_loom::fold_steps::undo_attempt_step(s, FoldEvent::Ran(Ok(())));
    assert!(matches!(a, FoldAction::RestoreOtherStaged));
    let (_, a) = git_loom::fold_steps::undo_attempt_step(s, FoldEvent::Done);
    assert!(matches!(a, FoldAction::Finish(Ok(None))));
}

#[test]
fn an_attempt_that_moved_head_is_reset_and_a_failed_reset_parks_the_staging() {
    let (s, _) = git_loom::fold_steps::undo_commit_attempt(HEAD.to_string(), vec![]);
    let (s, a) = git_loom::fold_steps::undo_attempt_step(s, FoldEvent::Read(Ok("abc\n".to_string())));
    assert_eq!(args(&a), texts(&["reset", "--soft", HEAD]));
    let (s, a) = git_loom::fold_steps::undo_attempt_step(s, FoldEvent::Ran(Err(GitFailure { message: "locked".to_string() })));
    match a {
        FoldAction::Warn(w) => assert_eq!(w, format!("could not put your commit back on HEAD: locked\n`git reset --soft {HEAD}` restores it")),
        _ => panic!("expected a warning"),
    }
    let (s, a) = git_loom::fold_steps::undo_attempt_step(s, FoldEvent::Done);
    assert!(matches!(a, FoldAction::ParkStaged));
    let (_, a) = git_loom::fold_steps::undo_attempt_step(s, FoldEvent::Done);
    assert!(matches!(a, FoldAction::Finish(Ok(None))));
}
