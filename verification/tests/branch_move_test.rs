use git_loom::fold_steps::{FoldAction, FoldEvent, FoldVariant};
use git_loom::git::git_rebase::RebaseOutcome;
use git_loom::git::LoomError;
use git_loom::move_steps::{
    branch_move_step, check_new_branch, fold_commit_relative, fold_move_step, move_commits_and_report, run_create, BranchMoveAt,
};

fn texts(v: &[&str]) -> Vec<String> {
    v.iter().map(|s| s.to_string()).collect()
}

#[test]
fn creating_a_branch_and_moving_commits_to_it_reports_both() {
    let (s, a) = move_commits_and_report(texts(&["c1", "c2"]), "new".to_string(), Some("base".to_string()));
    assert!(matches!(a, FoldAction::Run(ref c) if c.args == texts(&["branch", "new", "base"])));
    let (s, _) = branch_move_step(s, FoldEvent::Ran(Ok(())));
    let (s, a) = branch_move_step(s, FoldEvent::Read(Ok(String::new())));
    assert!(matches!(a, FoldAction::PlanMove { ref commits, ref branch } if commits == &texts(&["c1", "c2"]) && branch == "new"));
    let (s, a) = branch_move_step(s, FoldEvent::Planned(Ok(texts(&["old"]))));
    assert!(matches!(a, FoldAction::Rebase { ref protect } if protect == &texts(&["c1", "c2"])));
    let (s, a) = branch_move_step(s, FoldEvent::Rebased(Ok(RebaseOutcome::Completed)));
    assert!(matches!(a, FoldAction::Restage));
    let (s, a) = branch_move_step(s, FoldEvent::Done);
    assert!(matches!(a, FoldAction::Read(ref c) if c.args == texts(&["rev-parse", "new"])));
    let (s, _) = branch_move_step(s, FoldEvent::Read(Ok("4444444\n".to_string())));
    let (s, a) = branch_move_step(s, FoldEvent::Described("`4444444` N".to_string()));
    assert!(matches!(a, FoldAction::DescribeBranches(ref b) if b == &texts(&["old"])));
    let (_, a) = branch_move_step(s, FoldEvent::Described("Branch `old` is".to_string()));
    assert!(matches!(a, FoldAction::Finish(Ok(Some(ref m)))
        if m == "Created branch `new` and moved 2 commit(s) to it (now `4444444` N)\nBranch `old` is now empty, at the base"));
}

#[test]
fn a_stopped_move_aborts_restores_and_deletes_the_new_branch() {
    let (s, _) = move_commits_and_report(texts(&["c1"]), "new".to_string(), Some("base".to_string()));
    let (s, _) = branch_move_step(s, FoldEvent::Ran(Ok(())));
    let (s, _) = branch_move_step(s, FoldEvent::Read(Ok(String::new())));
    let (s, _) = branch_move_step(s, FoldEvent::Planned(Ok(vec![])));
    let (s, a) = branch_move_step(s, FoldEvent::Rebased(Ok(RebaseOutcome::Stopped)));
    assert!(matches!(a, FoldAction::AbortAfterFailure));
    let (s, a) = branch_move_step(s, FoldEvent::Aborted(LoomError::new("Rebase failed with conflicts — aborted".to_string())));
    assert!(matches!(a, FoldAction::RestoreOrPark(_)));
    let (s, a) = branch_move_step(s, FoldEvent::Done);
    assert!(matches!(a, FoldAction::RebaseInProgress));
    let (s, a) = branch_move_step(s, FoldEvent::Flag(false));
    assert!(matches!(a, FoldAction::Run(ref c) if c.args == texts(&["branch", "-D", "new"])));
    let (s, a) = branch_move_step(s, FoldEvent::Ran(Ok(())));
    assert!(matches!(s.at, BranchMoveAt::Done));
    assert!(matches!(a, FoldAction::Finish(Err(ref e)) if e.message == "Rebase failed with conflicts — aborted"));
}

#[test]
fn moving_onto_an_existing_branch_says_how_many_moved() {
    let (s, a) = move_commits_and_report(texts(&["c1"]), "feature".to_string(), None);
    assert!(matches!(a, FoldAction::Read(_)));
    let (s, _) = branch_move_step(s, FoldEvent::Read(Ok(String::new())));
    let (s, _) = branch_move_step(s, FoldEvent::Planned(Ok(vec![])));
    let (s, _) = branch_move_step(s, FoldEvent::Rebased(Ok(RebaseOutcome::Completed)));
    let (s, _) = branch_move_step(s, FoldEvent::Done);
    let (s, _) = branch_move_step(s, FoldEvent::Read(Ok("5".to_string())));
    let (_, a) = branch_move_step(s, FoldEvent::Described("`5` F".to_string()));
    assert!(matches!(a, FoldAction::Finish(Ok(Some(ref m))) if m == "Moved 1 commit(s) to branch `feature` (now `5` F)"));
}

#[test]
fn create_needs_a_commit_and_a_branch_name() {
    let r = run_create(&texts(&["only"]));
    assert!(matches!(r, Err(ref e)
        if e.message == "fold --create requires at least one commit and one new branch name\nUsage: loom fold -c <commit>... <new-branch>"));
    let (sources, branch) = run_create(&texts(&["a", "b", "new"])).unwrap();
    assert_eq!(sources, texts(&["a", "b"]));
    assert_eq!(branch, "new");
}

#[test]
fn create_refuses_a_branch_that_exists_or_an_invalid_name() {
    assert!(check_new_branch("new", true, false).is_ok());
    let e = check_new_branch("main", true, true).unwrap_err();
    assert_eq!(e.message, "Branch `main` already exists\nUse `loom fold <commit>... main` to move commits onto it");
    let e = check_new_branch("a..b", false, false).unwrap_err();
    assert_eq!(e.message, "Branch name 'a..b' is not valid");
}

#[test]
fn a_relative_move_tracks_the_commit_and_protects_both() {
    let src = "1111111111111111111111111111111111111111";
    let tgt = "2222222222222222222222222222222222222222";
    let (s, a) = fold_commit_relative(src.to_string(), tgt.to_string(), true);
    assert!(matches!(a, FoldAction::PlanRelative { above: true, .. }));
    let (s, a) = fold_move_step(s, FoldEvent::Planned(Ok(vec![])));
    assert!(matches!(a, FoldAction::TrackThrough(ref c) if c == src));
    let (s, _) = fold_move_step(s, FoldEvent::Checked(Ok(())));
    let (s, a) = fold_move_step(s, FoldEvent::Read(Ok(String::new())));
    match a {
        FoldAction::SaveState { variant: FoldVariant::CommitRelative { above, .. }, protect, delete_track, .. } => {
            assert!(above);
            assert_eq!(protect, texts(&[src, tgt]));
            assert!(delete_track);
        }
        _ => panic!("expected the state to be saved"),
    }
    let (s, _) = fold_move_step(s, FoldEvent::Checked(Ok(())));
    let (s, _) = fold_move_step(s, FoldEvent::Rebased(Ok(RebaseOutcome::Completed)));
    let (s, _) = fold_move_step(s, FoldEvent::Done);
    let (s, _) = fold_move_step(s, FoldEvent::Checked(Ok(())));
    let (s, _) = fold_move_step(s, FoldEvent::Read(Ok("3".to_string())));
    let (s, _) = fold_move_step(s, FoldEvent::Ran(Ok(())));
    let (_, a) = fold_move_step(s, FoldEvent::Described("`3` R".to_string()));
    assert!(matches!(a, FoldAction::Finish(Ok(Some(ref m))) if m == "Moved `1111111` above `2222222` (now `3` R)"));
}
