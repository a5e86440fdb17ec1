use git_loom::fold_steps::{fold_selected_hunks_to_commit, hunk_move_step, FoldAction, FoldEvent, HunkMoveAt};
use git_loom::git::{GitFailure, LoomError};
use git_loom::fold::{FileEntry, PickedHunk};

const SOURCE: &str = "1111111111111111111111111111111111111111";
const TARGET: &str = "2222222222222222222222222222222222222222";

fn sel(files: Vec<Vec<bool>>) -> Vec<FileEntry> {
    files
        .into_iter()
        .enumerate()
        .map(|(i, hs)| FileEntry {
            path: format!("f{i}.txt"),
            index_status: 'M',
            hunks: hs.into_iter().map(|selected| PickedHunk { selected, text: true }).collect(),
        })
        .collect()
}

fn args(a: &FoldAction) -> Vec<String> {
    match a {
        FoldAction::Run(c) | FoldAction::Read(c) => c.args.clone(),
        _ => panic!("expected a git command"),
    }
}

fn start(picked: &[FileEntry]) -> (git_loom::fold_steps::HunkMove, FoldAction) {
    fold_selected_hunks_to_commit(SOURCE.to_string(), TARGET.to_string(), "ab".to_string(), picked, vec![])
}

#[test]
fn a_move_with_no_hunk_picked_is_refused() {
    let (s, a) = start(&sel(vec![vec![false, false], vec![]]));
    assert!(matches!(s.at, HunkMoveAt::Done));
    assert!(matches!(a, FoldAction::Finish(Err(ref e)) if e.message == "No hunks selected"));
}

#[test]
fn a_hunk_move_runs_both_phases_and_gives_both_hashes() {
    let (s, a) = start(&sel(vec![vec![false], vec![false, true]]));
    assert!(matches!(a, FoldAction::PreparePatch { ref source, ref target_arg } if source == SOURCE && target_arg == "ab"));
    let (s, a) = hunk_move_step(s, FoldEvent::Checked(Ok(())));
    assert!(matches!(a, FoldAction::Snapshot));
    let (s, a) = hunk_move_step(s, FoldEvent::Checked(Ok(())));
    assert!(matches!(a, FoldAction::SaveOtherStaged(ref f) if f.is_empty()));
    let (s, a) = hunk_move_step(s, FoldEvent::Checked(Ok(())));
    assert!(matches!(a, FoldAction::EditWeave(ref c) if c == &vec![SOURCE.to_string()]));
    let (s, a) = hunk_move_step(s, FoldEvent::Checked(Ok(())));
    assert!(matches!(a, FoldAction::ForceTrack(ref t) if t == TARGET));
    let (s, a) = hunk_move_step(s, FoldEvent::Checked(Ok(())));
    assert!(matches!(a, FoldAction::RebaseToEdit { ref commit, ref protect } if commit == SOURCE && protect == &vec![TARGET.to_string()]));
    let (s, a) = hunk_move_step(s, FoldEvent::Checked(Ok(())));
    assert!(matches!(a, FoldAction::AmendHunks { reverse: true, .. }));
    let (s, a) = hunk_move_step(s, FoldEvent::Checked(Ok(())));
    assert_eq!(args(&a), vec!["rev-parse", "HEAD"]);
    let (s, a) = hunk_move_step(s, FoldEvent::Read(Ok("aaaa\n".to_string())));
    assert!(matches!(a, FoldAction::ContinueToEdit { expect: None, ref protect } if protect == &vec!["aaaa".to_string()]));
    let (s, a) = hunk_move_step(s, FoldEvent::Checked(Ok(())));
    assert_eq!(args(&a), vec!["rev-parse", "_loom-track"]);
    let (s, a) = hunk_move_step(s, FoldEvent::Read(Ok("bbbb\n".to_string())));
    assert_eq!(args(&a), vec!["branch", "-D", "_loom-track"]);
    let (s, a) = hunk_move_step(s, FoldEvent::Ran(Ok(())));
    assert!(matches!(a, FoldAction::EditWeave(ref c) if c == &vec!["bbbb".to_string()]));
    let (s, a) = hunk_move_step(s, FoldEvent::Checked(Ok(())));
    assert!(matches!(a, FoldAction::TrackThrough(ref t) if t == "aaaa"));
    let (s, a) = hunk_move_step(s, FoldEvent::Checked(Ok(())));
    assert!(matches!(a, FoldAction::RebaseToEdit { ref commit, ref protect } if commit == "bbbb" && protect.is_empty()));
    let (s, a) = hunk_move_step(s, FoldEvent::Checked(Ok(())));
    assert!(matches!(a, FoldAction::AmendHunks { reverse: false, .. }));
    let (s, _) = hunk_move_step(s, FoldEvent::Checked(Ok(())));
    let (s, a) = hunk_move_step(s, FoldEvent::Read(Ok("cccc\n".to_string())));
    assert!(matches!(a, FoldAction::ContinueToEdit { expect: None, ref protect } if protect == &vec!["aaaa".to_string()]));
    let (s, a) = hunk_move_step(s, FoldEvent::Checked(Ok(())));
    assert_eq!(args(&a), vec!["rev-parse", "_loom-track"]);
    let (s, a) = hunk_move_step(s, FoldEvent::Read(Ok("dddd\n".to_string())));
    assert_eq!(args(&a), vec!["branch", "-D", "_loom-track"]);
    let (s, a) = hunk_move_step(s, FoldEvent::Ran(Ok(())));
    assert!(matches!(a, FoldAction::RestoreOtherStaged));
    let (s, a) = hunk_move_step(s, FoldEvent::Done);
    assert!(matches!(a, FoldAction::Finish(Ok(None))));
    match s.at {
        HunkMoveAt::Moved { new_source, new_target } => {
            assert_eq!(new_source, "dddd");
            assert_eq!(new_target, "cccc");
        }
        _ => panic!("expected both hashes"),
    }
}

#[test]
fn a_failed_first_amend_aborts_and_puts_the_staged_changes_back() {
    let (mut s, _) = start(&sel(vec![vec![true]]));
    for _ in 0..6 {
        s = hunk_move_step(s, FoldEvent::Checked(Ok(()))).0;
    }
    let (s, a) = hunk_move_step(s, FoldEvent::Checked(Err(LoomError::new("patch does not apply".to_string()))));
    match a {
        FoldAction::AbortThenCleanup { cause, cleanup, rollback } => {
            assert_eq!(cause.message, "patch does not apply");
            assert!(!rollback);
            assert_eq!(cleanup.len(), 1);
            assert_eq!(cleanup[0].args, vec!["branch", "-D", "_loom-track"]);
        }
        _ => panic!("expected the abort"),
    }
    let (s, a) = hunk_move_step(s, FoldEvent::Aborted(LoomError::new("patch does not apply".to_string())));
    assert!(matches!(a, FoldAction::RestoreOtherStaged));
    let (_, a) = hunk_move_step(s, FoldEvent::Done);
    assert!(matches!(a, FoldAction::Finish(Err(ref e)) if e.message == "patch does not apply"));
}

#[test]
fn a_failure_after_the_first_phase_rolls_back() {
    let (mut s, _) = start(&sel(vec![vec![true]]));
    for _ in 0..7 {
        s = hunk_move_step(s, FoldEvent::Checked(Ok(()))).0;
    }
    s = hunk_move_step(s, FoldEvent::Read(Ok("aaaa".to_string()))).0;
    s = hunk_move_step(s, FoldEvent::Checked(Ok(()))).0;
    let (s, a) = hunk_move_step(s, FoldEvent::Read(Err(GitFailure { message: "bad ref".to_string() })));
    assert!(matches!(a, FoldAction::HandOverStaged));
    let (s, a) = hunk_move_step(s, FoldEvent::Done);
    assert_eq!(args(&a), vec!["branch", "-D", "_loom-track"]);
    let (s, a) = hunk_move_step(s, FoldEvent::Ran(Ok(())));
    assert!(matches!(a, FoldAction::Rollback));
    let (_, a) = hunk_move_step(s, FoldEvent::Done);
    assert!(matches!(a, FoldAction::Finish(Err(ref e)) if e.message == "bad ref"));
}
