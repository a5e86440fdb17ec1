use git_loom::move_steps::{squash_fixup_into_commit, squash_step, SquashAt};
use git_loom::fold_steps::{FoldAction, FoldEvent, FoldVariant};
use git_loom::git::git_rebase::RebaseOutcome;
use git_loom::git::LoomError;
use git_loom::move_steps::{fold_commit_into_commit, fold_commit_to_branch, fold_commit_to_unstaged, fold_move_step, FoldMoveAt};

const SOURCE: &str = "1111111111111111111111111111111111111111";
const TARGET: &str = "2222222222222222222222222222222222222222";

fn args(a: &FoldAction) -> Vec<String> {
    match a {
        FoldAction::Run(c) | FoldAction::Read(c) => c.args.clone(),
        _ => panic!("expected a git command"),
    }
}

fn refusal(a: &FoldAction) -> String {
    match a {
        FoldAction::Finish(Err(e)) => e.message.clone(),
        _ => panic!("expected a refusal"),
    }
}

#[test]
fn a_commit_is_not_folded_into_itself() {
    let (s, a) = fold_commit_into_commit(SOURCE.to_string(), SOURCE.to_string());
    assert!(matches!(s.at, FoldMoveAt::Done));
    assert_eq!(refusal(&a), "Source and target are the same commit");
}

#[test]
fn a_commit_is_not_folded_into_a_newer_one() {
    let (s, a) = fold_commit_into_commit(SOURCE.to_string(), TARGET.to_string());
    assert!(matches!(a, FoldAction::IsDescendant { ref commit, ref of } if commit == SOURCE && of == TARGET));
    let (_, a) = fold_move_step(s, FoldEvent::Flag(false));
    assert_eq!(refusal(&a), "Source commit must be newer than target commit");
}

#[test]
fn a_commit_folded_into_an_older_one_records_the_state_rebases_and_reports() {
    let (s, _) = fold_commit_into_commit(SOURCE.to_string(), TARGET.to_string());
    let (s, a) = fold_move_step(s, FoldEvent::Flag(true));
    assert!(matches!(a, FoldAction::PlanFixup { .. }));
    let (s, a) = fold_move_step(s, FoldEvent::Checked(Ok(())));
    let g = args(&a);
    assert_eq!(g[0], "diff");
    assert!(g.contains(&"--cached".to_string()));
    let (s, a) = fold_move_step(s, FoldEvent::Read(Ok("staged\n".to_string())));
    match a {
        FoldAction::SaveState { variant: FoldVariant::CommitIntoCommit { .. }, staged, protect, delete_track, .. } => {
            assert_eq!(staged.as_deref(), Some("staged\n"));
            assert_eq!(protect, vec![TARGET.to_string()]);
            assert!(delete_track);
        }
        _ => panic!("expected the state to be saved"),
    }
    let (s, a) = fold_move_step(s, FoldEvent::Checked(Ok(())));
    assert!(matches!(a, FoldAction::Rebase { ref protect } if protect == &vec![TARGET.to_string()]));
    let (s, a) = fold_move_step(s, FoldEvent::Rebased(Ok(RebaseOutcome::Completed)));
    assert!(matches!(a, FoldAction::Restage));
    let (s, a) = fold_move_step(s, FoldEvent::Done);
    assert!(matches!(a, FoldAction::DeleteState));
    let (s, a) = fold_move_step(s, FoldEvent::Checked(Ok(())));
    assert_eq!(args(&a), vec!["rev-parse", "_loom-track"]);
    let (s, _) = fold_move_step(s, FoldEvent::Read(Ok("3333333\n".to_string())));
    let (s, a) = fold_move_step(s, FoldEvent::Ran(Ok(())));
    assert!(matches!(a, FoldAction::Describe(ref h) if h == "3333333"));
    let (_, a) = fold_move_step(s, FoldEvent::Described("`3333333` T".to_string()));
    assert!(matches!(a, FoldAction::Finish(Ok(Some(ref m))) if m == "Folded `1111111` into `2222222` (now `3333333` T)"));
}

#[test]
fn a_rebase_that_fails_to_run_is_rolled_back() {
    let (s, _) = fold_commit_to_branch(SOURCE.to_string(), "feature".to_string());
    let (s, _) = fold_move_step(s, FoldEvent::Planned(Ok(vec![])));
    let (s, _) = fold_move_step(s, FoldEvent::Read(Ok(String::new())));
    let (s, _) = fold_move_step(s, FoldEvent::Checked(Ok(())));
    let (s, a) = fold_move_step(s, FoldEvent::Rebased(Err(LoomError::new("todo refused".to_string()))));
    assert!(matches!(a, FoldAction::RollBackFailedRebase(ref e) if e.message == "todo refused"));
    let (_, a) = fold_move_step(s, FoldEvent::Aborted(LoomError::new("todo refused".to_string())));
    assert_eq!(refusal(&a), "todo refused");
}

#[test]
fn a_move_to_a_branch_that_pauses_leaves_the_rest_to_continue() {
    let (s, a) = fold_commit_to_branch(SOURCE.to_string(), "feature".to_string());
    assert!(matches!(a, FoldAction::PlanMove { ref branch, .. } if branch == "feature"));
    let (s, _) = fold_move_step(s, FoldEvent::Planned(Ok(vec!["old".to_string()])));
    let (s, a) = fold_move_step(s, FoldEvent::Read(Ok(String::new())));
    assert!(matches!(a, FoldAction::SaveState { variant: FoldVariant::CommitToBranch { ref parked, .. }, delete_track: false, .. } if parked == &vec!["old".to_string()]));
    let (s, _) = fold_move_step(s, FoldEvent::Checked(Ok(())));
    let (s, a) = fold_move_step(s, FoldEvent::Rebased(Ok(RebaseOutcome::Stopped)));
    assert!(matches!(a, FoldAction::ReportPaused { at_edit: false }));
    let (_, a) = fold_move_step(s, FoldEvent::Done);
    assert!(matches!(a, FoldAction::Finish(Ok(None))));
}

#[test]
fn uncommitting_head_resets_and_reports() {
    let (s, a) = fold_commit_to_unstaged(SOURCE.to_string(), SOURCE.to_string());
    assert_eq!(args(&a), vec!["reset", "HEAD~1"]);
    let (s, a) = fold_move_step(s, FoldEvent::Ran(Ok(())));
    assert!(matches!(a, FoldAction::KeepSubmoduleRemovals(ref c) if c == SOURCE));
    let (_, a) = fold_move_step(s, FoldEvent::Paths(vec![]));
    assert!(matches!(a, FoldAction::Finish(Ok(Some(ref m))) if m == "Uncommitted `1111111` to working directory"));
}

#[test]
fn uncommitting_a_commit_outside_the_weave_is_refused() {
    let (s, a) = fold_commit_to_unstaged(SOURCE.to_string(), TARGET.to_string());
    assert!(matches!(a, FoldAction::DropCommit(ref c) if c == SOURCE));
    let (_, a) = fold_move_step(s, FoldEvent::Emptied(Ok(None)));
    assert_eq!(
        refusal(&a),
        "Commit `1111111` is not in the local commits (upstream..HEAD)\nIf history was rewritten, the SHA may be stale — run `loom` to see the current commits"
    );
}

#[test]
fn an_uncommitted_diff_that_will_not_reapply_rolls_back() {
    let (s, _) = fold_commit_to_unstaged(SOURCE.to_string(), TARGET.to_string());
    let (s, _) = fold_move_step(s, FoldEvent::Emptied(Ok(Some(vec![]))));
    let (s, a) = fold_move_step(s, FoldEvent::Read(Ok("D\n".to_string())));
    assert!(matches!(a, FoldAction::Snapshot));
    let (s, a) = fold_move_step(s, FoldEvent::Checked(Ok(())));
    assert!(matches!(a, FoldAction::SaveState { staged: None, .. }));
    let (s, a) = fold_move_step(s, FoldEvent::Checked(Ok(())));
    assert!(matches!(a, FoldAction::Rebase { ref protect } if protect.is_empty()));
    let (s, a) = fold_move_step(s, FoldEvent::Rebased(Ok(RebaseOutcome::Completed)));
    assert!(matches!(a, FoldAction::DeleteState));
    let (s, a) = fold_move_step(s, FoldEvent::Checked(Ok(())));
    assert!(matches!(a, FoldAction::ApplyToWorktree(ref d) if d == "D\n"));
    let (s, a) = fold_move_step(s, FoldEvent::Checked(Err(LoomError::new("git apply failed".to_string()))));
    assert!(matches!(a, FoldAction::Rollback));
    let (_, a) = fold_move_step(s, FoldEvent::Done);
    assert_eq!(refusal(&a), "Failed to apply changes to working directory, operation rolled back");
}

#[test]
fn a_fixup_squash_records_the_reset_below_the_fixup_and_rebases() {
    let (s, a) = squash_fixup_into_commit(TARGET.to_string(), SOURCE.to_string(), 2, "P".to_string());
    assert_eq!(args(&a), vec!["rev-parse", "HEAD"]);
    let (s, a) = squash_step(s, FoldEvent::Read(Ok("fff\n".to_string())));
    assert!(matches!(a, FoldAction::PlanFixup { ref source, ref target } if source == "fff" && target == TARGET));
    let (s, a) = squash_step(s, FoldEvent::Checked(Ok(())));
    match a {
        FoldAction::SaveState { variant: FoldVariant::FilesIntoCommit { files_count, .. }, staged, reset_mixed_to, delete_track, .. } => {
            assert_eq!(files_count, 2);
            assert_eq!(staged.as_deref(), Some("P"));
            assert_eq!(reset_mixed_to.as_deref(), Some(SOURCE));
            assert!(delete_track);
        }
        _ => panic!("expected the state to be saved"),
    }
    let (s, _) = squash_step(s, FoldEvent::Checked(Ok(())));
    let (s, a) = squash_step(s, FoldEvent::Rebased(Ok(RebaseOutcome::Paused)));
    assert!(matches!(a, FoldAction::ReportPaused { at_edit: true }));
    let (s, _) = squash_step(s, FoldEvent::Done);
    assert!(matches!(s.at, SquashAt::Over { paused: true }));
}
