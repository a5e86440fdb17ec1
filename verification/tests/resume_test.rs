use git_loom::fold_steps::{after_continue, resume_step, FoldAction, FoldEvent, FoldVariant, ResumeAt};
use git_loom::git::{GitFailure, LoomError};

const SOURCE: &str = "1111111111111111111111111111111111111111";
const TARGET: &str = "2222222222222222222222222222222222222222";

fn texts(v: &[&str]) -> Vec<String> {
    v.iter().map(|s| s.to_string()).collect()
}

fn args(a: &FoldAction) -> Vec<String> {
    match a {
        FoldAction::Run(c) | FoldAction::Read(c) => c.args.clone(),
        _ => panic!("expected a git command"),
    }
}

fn finished(a: FoldAction) -> String {
    match a {
        FoldAction::Finish(Ok(Some(m))) => m,
        _ => panic!("expected success"),
    }
}

#[test]
fn a_resumed_files_fold_restages_reads_the_track_and_reports() {
    let (s, a) = after_continue(FoldVariant::FilesIntoCommit { original_commit_hash: TARGET.to_string(), files_count: 2 });
    assert!(matches!(a, FoldAction::Restage));
    let (s, a) = resume_step(s, FoldEvent::Done);
    assert_eq!(args(&a), texts(&["rev-parse", "_loom-track"]));
    let (s, a) = resume_step(s, FoldEvent::Read(Ok("4444444aaaa\n".to_string())));
    assert_eq!(args(&a), texts(&["branch", "-D", "_loom-track"]));
    let (s, a) = resume_step(s, FoldEvent::Ran(Err(GitFailure { message: "no such branch".to_string() })));
    assert!(matches!(a, FoldAction::Describe(ref h) if h == "4444444aaaa"));
    let (s, a) = resume_step(s, FoldEvent::Described("`4444444` T".to_string()));
    assert!(matches!(s.at, ResumeAt::Done));
    assert_eq!(finished(a), "Folded 2 file(s) into `2222222` (now `4444444` T)");
}

#[test]
fn a_resumed_commit_fold_names_both_commits() {
    let (s, _) = after_continue(FoldVariant::CommitIntoCommit { source_hash: SOURCE.to_string(), target_hash: TARGET.to_string() });
    let (s, _) = resume_step(s, FoldEvent::Done);
    let (s, _) = resume_step(s, FoldEvent::Read(Ok("abc".to_string())));
    let (s, _) = resume_step(s, FoldEvent::Ran(Ok(())));
    let (_, a) = resume_step(s, FoldEvent::Described("`abc` T".to_string()));
    assert_eq!(finished(a), "Folded `1111111` into `2222222` (now `abc` T)");
}

#[test]
fn a_resumed_move_to_a_branch_reads_the_branch_and_names_the_emptied_ones() {
    let (s, _) = after_continue(FoldVariant::CommitToBranch {
        commit_hash: SOURCE.to_string(),
        branch_name: "feature".to_string(),
        parked: texts(&["old"]),
    });
    let (s, a) = resume_step(s, FoldEvent::Done);
    assert_eq!(args(&a), texts(&["rev-parse", "feature"]));
    let (s, a) = resume_step(s, FoldEvent::Read(Ok("5555555\n".to_string())));
    assert!(matches!(a, FoldAction::Describe(ref h) if h == "5555555"));
    let (s, a) = resume_step(s, FoldEvent::Described("`5555555` M".to_string()));
    assert!(matches!(a, FoldAction::DescribeBranches(ref b) if b == &texts(&["old"])));
    let (_, a) = resume_step(s, FoldEvent::Described("Branch `old` is".to_string()));
    assert_eq!(
        finished(a),
        "Moved `1111111` to branch `feature` (now `5555555` M)\nBranch `old` is now empty, at the base"
    );
}

#[test]
fn a_resumed_relative_move_says_where_it_went() {
    let (s, _) = after_continue(FoldVariant::CommitRelative {
        commit_hash: SOURCE.to_string(),
        target_hash: TARGET.to_string(),
        above: false,
        parked: vec![],
    });
    let (s, _) = resume_step(s, FoldEvent::Done);
    let (s, _) = resume_step(s, FoldEvent::Read(Ok("6".to_string())));
    let (s, _) = resume_step(s, FoldEvent::Ran(Ok(())));
    let (_, a) = resume_step(s, FoldEvent::Described("`6` X".to_string()));
    assert_eq!(finished(a), "Moved `1111111` below `2222222` (now `6` X)");
}

#[test]
fn a_track_that_cannot_be_read_fails_the_resume() {
    let (s, _) = after_continue(FoldVariant::CommitIntoCommit { source_hash: SOURCE.to_string(), target_hash: TARGET.to_string() });
    let (s, _) = resume_step(s, FoldEvent::Done);
    let (s, a) = resume_step(s, FoldEvent::Read(Err(GitFailure { message: "unknown revision".to_string() })));
    assert!(matches!(s.at, ResumeAt::Done));
    assert!(matches!(a, FoldAction::Finish(Err(ref e)) if e.message == "unknown revision"));
}

#[test]
fn a_resumed_uncommit_applies_its_diff_before_restaging() {
    let (s, a) = after_continue(FoldVariant::CommitToUnstaged {
        commit_hash: SOURCE.to_string(),
        diff: "diff --git a/f b/f\n".to_string(),
        emptied: vec![],
    });
    assert!(matches!(a, FoldAction::ApplyToWorktree(ref d) if d == "diff --git a/f b/f\n"));
    let (s, a) = resume_step(s, FoldEvent::Checked(Ok(())));
    assert!(matches!(a, FoldAction::Restage));
    let (s, a) = resume_step(s, FoldEvent::Done);
    assert!(matches!(a, FoldAction::KeepSubmoduleRemovals(ref c) if c == SOURCE));
    let (_, a) = resume_step(s, FoldEvent::Paths(texts(&["sub", "lib"])));
    assert_eq!(
        finished(a),
        "Uncommitted `1111111` to working directory\nThe removal of `sub`, `lib` is staged — the checkout is still on disk"
    );
}

#[test]
fn an_uncommit_with_an_empty_diff_goes_straight_to_restaging() {
    let (s, a) = after_continue(FoldVariant::CommitToUnstaged { commit_hash: SOURCE.to_string(), diff: String::new(), emptied: texts(&["b"]) });
    assert!(matches!(s.at, ResumeAt::RestagingUncommit));
    assert!(matches!(a, FoldAction::Restage));
    let (s, _) = resume_step(s, FoldEvent::Done);
    let (s, a) = resume_step(s, FoldEvent::Paths(vec![]));
    assert!(matches!(a, FoldAction::DescribeBranches(ref b) if b == &texts(&["b"])));
    let (_, a) = resume_step(s, FoldEvent::Described("Branch `b` is".to_string()));
    assert_eq!(finished(a), "Uncommitted `1111111` to working directory\nBranch `b` is now empty, at the base");
}

#[test]
fn a_diff_that_will_not_reapply_is_saved_aside_with_a_warning() {
    let (s, _) = after_continue(FoldVariant::CommitToUnstaged { commit_hash: SOURCE.to_string(), diff: "d\n".to_string(), emptied: vec![] });
    let (s, a) = resume_step(s, FoldEvent::Checked(Err(LoomError::new("git apply failed".to_string()))));
    assert!(matches!(a, FoldAction::SavePatch { ref name, ref patch } if name == "unapplied" && patch == "d\n"));
    let (s, a) = resume_step(s, FoldEvent::Saved(Ok("/r/.git/loom/unapplied-0.patch".to_string())));
    match a {
        FoldAction::Warn(w) => assert_eq!(
            w,
            "Could not re-apply changes to working directory: git apply failed\nThe diff has been saved — apply it with `git apply /r/.git/loom/unapplied-0.patch`"
        ),
        _ => panic!("expected a warning"),
    }
    let (_, a) = resume_step(s, FoldEvent::Done);
    assert!(matches!(a, FoldAction::Restage));
}

#[test]
fn a_diff_that_cannot_be_saved_points_at_the_dangling_commit() {
    let (s, _) = after_continue(FoldVariant::CommitToUnstaged { commit_hash: SOURCE.to_string(), diff: "d\n".to_string(), emptied: vec![] });
    let (s, _) = resume_step(s, FoldEvent::Checked(Err(LoomError::new("git apply failed".to_string()))));
    let (_, a) = resume_step(s, FoldEvent::Saved(Err("disk full".to_string())));
    match a {
        FoldAction::Warn(w) => assert_eq!(
            w,
            format!("Could not re-apply changes to working directory: git apply failed\nThe diff could not be saved either (disk full) — `git show {SOURCE}` still prints it, until that dangling commit is collected")
        ),
        _ => panic!("expected a warning"),
    }
}
