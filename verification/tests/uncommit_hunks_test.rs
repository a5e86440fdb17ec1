use git_loom::fold_steps::{run_patch_fold_commit_to_unstaged, uncommit_step, FoldAction, FoldEvent, UncommitAt};
use git_loom::git::LoomError;
use git_loom::fold::{FileEntry, PickedHunk};

const COMMIT: &str = "1111111111111111111111111111111111111111";
const HEAD: &str = "9999999999999999999999999999999999999999";

fn sel(files: Vec<Vec<bool>>) -> Vec<FileEntry> {
    files
        .into_iter()
        .enumerate()
        .map(|(i, hs)| FileEntry {
            path: format!("f{i}.txt"),
            index_status: 'M',
            hunks: hs.into_iter().map(|selected| PickedHunk { selected, text: true }).collect(),
        })
        .collect()
}

fn args(a: &FoldAction) -> Vec<String> {
    match a {
        FoldAction::Run(c) | FoldAction::Read(c) => c.args.clone(),
        _ => panic!("expected a git command"),
    }
}

#[test]
fn an_uncommit_with_no_hunk_picked_is_refused() {
    let (s, a) = run_patch_fold_commit_to_unstaged(COMMIT.to_string(), HEAD.to_string(), &sel(vec![vec![]]), vec![]);
    assert!(matches!(s.at, UncommitAt::Done));
    assert!(matches!(a, FoldAction::Finish(Err(ref e)) if e.message == "No hunks selected"));
}

#[test]
fn uncommitting_from_head_amends_in_place() {
    let (s, a) = run_patch_fold_commit_to_unstaged(COMMIT.to_string(), COMMIT.to_string(), &sel(vec![vec![true]]), vec![]);
    assert!(matches!(a, FoldAction::PreparePatch { ref target_arg, .. } if target_arg == "zz"));
    let (s, _) = uncommit_step(s, FoldEvent::Checked(Ok(())));
    let (s, _) = uncommit_step(s, FoldEvent::Checked(Ok(())));
    let (s, a) = uncommit_step(s, FoldEvent::Checked(Ok(())));
    assert!(matches!(a, FoldAction::AmendHunks { reverse: true, .. }));
    let (s, a) = uncommit_step(s, FoldEvent::Checked(Ok(())));
    assert_eq!(args(&a), vec!["rev-parse", "HEAD"]);
    let (s, a) = uncommit_step(s, FoldEvent::Read(Ok("7777777\n".to_string())));
    assert!(matches!(a, FoldAction::RestoreHunksToWorktree));
    let (s, a) = uncommit_step(s, FoldEvent::Checked(Ok(())));
    assert!(matches!(a, FoldAction::RestoreOtherStaged));
    let (s, a) = uncommit_step(s, FoldEvent::Done);
    assert!(matches!(a, FoldAction::KeepPickedRemovals));
    let (s, a) = uncommit_step(s, FoldEvent::Paths(vec!["sub".to_string()]));
    assert!(matches!(a, FoldAction::Describe(ref h) if h == "7777777"));
    let (_, a) = uncommit_step(s, FoldEvent::Described("`7777777` C".to_string()));
    match a {
        FoldAction::Finish(Ok(Some(m))) => assert_eq!(
            m,
            "Uncommitted hunk(s) from `1111111` (now `7777777` C) to working directory\nThe removal of `sub` is staged — the checkout is still on disk"
        ),
        _ => panic!("expected success"),
    }
}

#[test]
fn a_failed_amend_of_head_rolls_back() {
    let (mut s, _) = run_patch_fold_commit_to_unstaged(COMMIT.to_string(), COMMIT.to_string(), &sel(vec![vec![true]]), vec![]);
    for _ in 0..3 {
        s = uncommit_step(s, FoldEvent::Checked(Ok(()))).0;
    }
    let (s, a) = uncommit_step(s, FoldEvent::Checked(Err(LoomError::new("hook refused".to_string()))));
    assert!(matches!(a, FoldAction::HandOverStaged));
    let (s, a) = uncommit_step(s, FoldEvent::Done);
    assert!(matches!(a, FoldAction::Rollback));
    let (_, a) = uncommit_step(s, FoldEvent::Done);
    assert!(matches!(a, FoldAction::Finish(Err(ref e)) if e.message == "Failed to remove hunks from the commit, operation rolled back"));
}

#[test]
fn uncommitting_from_an_older_commit_rebases_and_continues() {
    let (s, _) = run_patch_fold_commit_to_unstaged(COMMIT.to_string(), HEAD.to_string(), &sel(vec![vec![false, true]]), vec![]);
    let (s, _) = uncommit_step(s, FoldEvent::Checked(Ok(())));
    let (s, _) = uncommit_step(s, FoldEvent::Checked(Ok(())));
    let (s, a) = uncommit_step(s, FoldEvent::Checked(Ok(())));
    assert!(matches!(a, FoldAction::EditWeave(ref c) if c == &vec![COMMIT.to_string()]));
    let (s, a) = uncommit_step(s, FoldEvent::Checked(Ok(())));
    assert!(matches!(a, FoldAction::RebaseToEdit { ref commit, ref protect } if commit == COMMIT && protect.is_empty()));
    let (s, _) = uncommit_step(s, FoldEvent::Checked(Ok(())));
    let (s, _) = uncommit_step(s, FoldEvent::Checked(Ok(())));
    let (s, a) = uncommit_step(s, FoldEvent::Read(Ok("8888888".to_string())));
    assert!(matches!(a, FoldAction::ContinueToEdit { expect: None, ref protect } if protect.is_empty()));
    let (s, a) = uncommit_step(s, FoldEvent::Checked(Ok(())));
    assert!(matches!(a, FoldAction::RestoreHunksToWorktree));
    let (s, a) = uncommit_step(s, FoldEvent::Checked(Err(LoomError::new("conflict".to_string()))));
    assert!(matches!(a, FoldAction::HandOverStaged));
    let (s, _) = uncommit_step(s, FoldEvent::Done);
    let (_, a) = uncommit_step(s, FoldEvent::Done);
    assert!(matches!(a, FoldAction::Finish(Err(ref e)) if e.message == "Failed to apply changes to working directory, operation rolled back"));
}

#[test]
fn a_failed_continue_aborts_with_a_rollback() {
    let (mut s, _) = run_patch_fold_commit_to_unstaged(COMMIT.to_string(), HEAD.to_string(), &sel(vec![vec![true]]), vec![]);
    for _ in 0..6 {
        s = uncommit_step(s, FoldEvent::Checked(Ok(()))).0;
    }
    s = uncommit_step(s, FoldEvent::Read(Ok("8888888".to_string()))).0;
    let (s, a) = uncommit_step(s, FoldEvent::Checked(Err(LoomError::new("stopped early".to_string()))));
    assert!(matches!(a, FoldAction::AbortThenCleanup { rollback: true, ref cleanup, .. } if cleanup.is_empty()));
    let (s, a) = uncommit_step(s, FoldEvent::Aborted(LoomError::new("stopped early".to_string())));
    assert!(matches!(a, FoldAction::RestoreOtherStaged));
    let (_, a) = uncommit_step(s, FoldEvent::Done);
    assert!(matches!(a, FoldAction::Finish(Err(ref e)) if e.message == "stopped early"));
}
