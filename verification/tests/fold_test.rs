use git_loom::fold::{
    all_changed_files, check_git_args, classify, no_git_args, run, Anchor, FoldOp, FoldRoute,
};
use git_loom::repo::Target;

fn strings(v: &[&str]) -> Vec<String> {
    v.iter().map(|s| s.to_string()).collect()
}

// ── Type dispatch / classify ─────────────────────────────────────────────

#[test]
fn classify_files_into_commit() {
    let sources = vec![Target::File("f1.txt".into())];
    let target = Target::Commit("abc123".into());
    let result = classify(&sources, &target);
    assert!(result.is_ok());
}

#[test]
fn classify_commit_into_commit() {
    let sources = vec![Target::Commit("abc123".into())];
    let target = Target::Commit("def456".into());
    let result = classify(&sources, &target);
    assert!(result.is_ok());
}

#[test]
fn classify_commit_into_branch() {
    let sources = vec![Target::Commit("abc123".into())];
    let target = Target::Branch("feature-a".into());
    let result = classify(&sources, &target);
    assert!(result.is_ok());
}

#[test]
fn classify_several_commits_into_branch() {
    let sources = vec![Target::Commit("abc123".into()), Target::Commit("def456".into())];
    let target = Target::Branch("feature-a".into());
    match classify(&sources, &target) {
        Ok(FoldOp::CommitsToBranch { commits, branch }) => {
            assert_eq!(commits.len(), 2);
            assert_eq!(branch, "feature-a");
        }
        other => panic!("expected CommitsToBranch, got {other:?}"),
    }
}

#[test]
fn classify_branch_source_rejected() {
    let sources = vec![Target::Branch("feature-a".into())];
    let target = Target::Commit("abc123".into());
    let result = classify(&sources, &target);
    assert!(result.is_err());
    assert!(result.unwrap_err().message().contains("Cannot fold a branch"));
}

#[test]
fn classify_files_into_branch_rejected() {
    let sources = vec![Target::File("f1.txt".into())];
    let target = Target::Branch("feature-a".into());
    let result = classify(&sources, &target);
    assert!(result.is_err());
    assert!(result.unwrap_err().message().contains("Cannot fold files into a branch"));
}

#[test]
fn classify_mixed_sources_rejected() {
    let sources = vec![Target::File("f1.txt".into()), Target::Commit("abc123".into())];
    let target = Target::Commit("def456".into());
    let result = classify(&sources, &target);
    assert!(result.is_err());
    assert!(result.unwrap_err().message().contains("Cannot mix"));
}

#[test]
fn classify_multiple_commit_sources_rejected() {
    let sources = vec![Target::Commit("abc123".into()), Target::Commit("def456".into())];
    let target = Target::Commit("ghi789".into());
    let result = classify(&sources, &target);
    assert!(result.is_err());
    assert!(result.unwrap_err().message().contains("Only one commit"));
}

#[test]
fn classify_commit_into_unstaged() {
    let sources = vec![Target::Commit("abc123".into())];
    let target = Target::Unstaged;
    let result = classify(&sources, &target);
    assert!(result.is_ok());
    assert!(matches!(result.unwrap(), FoldOp::CommitToUnstaged { .. }));
}

#[test]
fn classify_files_into_unstaged_rejected() {
    let sources = vec![Target::File("f1.txt".into())];
    let target = Target::Unstaged;
    let result = classify(&sources, &target);
    assert!(result.is_err());
    assert!(result.unwrap_err().message().contains("Cannot fold files into unstaged"));
}

#[test]
fn classify_commit_file_into_unstaged() {
    let sources = vec![Target::CommitFile { commit: "abc123".into(), path: "file.txt".into() }];
    let target = Target::Unstaged;
    let result = classify(&sources, &target);
    assert!(result.is_ok());
    assert!(matches!(result.unwrap(), FoldOp::CommitFileToUnstaged { .. }));
}

#[test]
fn classify_commit_file_into_commit() {
    let sources = vec![Target::CommitFile { commit: "abc123".into(), path: "file.txt".into() }];
    let target = Target::Commit("def456".into());
    let result = classify(&sources, &target);
    assert!(result.is_ok());
    assert!(matches!(result.unwrap(), FoldOp::CommitFileToCommit { .. }));
}

#[test]
fn classify_commit_file_into_branch_rejected() {
    let sources = vec![Target::CommitFile { commit: "abc123".into(), path: "file.txt".into() }];
    let target = Target::Branch("feature-a".into());
    let result = classify(&sources, &target);
    assert!(result.is_err());
    assert!(result.unwrap_err().message().contains("Cannot fold a commit file into a branch"));
}

#[test]
fn classify_commit_file_target_rejected() {
    let sources = vec![Target::Commit("abc123".into())];
    let target = Target::CommitFile { commit: "def456".into(), path: "file.txt".into() };
    let result = classify(&sources, &target);
    assert!(result.is_err());
    assert!(result.unwrap_err().message().contains("not a commit file"));
}

// ── Exact results of classify ────────────────────────────────────────────

#[test]
fn classify_keeps_every_file_and_the_commit() {
    let sources = vec![Target::File("a.txt".into()), Target::File("b.txt".into())];
    let target = Target::Commit("abc123".into());
    assert_eq!(
        classify(&sources, &target).unwrap(),
        FoldOp::FilesIntoCommit { files: strings(&["a.txt", "b.txt"]), commit: "abc123".into() }
    );
}

#[test]
fn classify_commit_file_into_commit_names_both_commits() {
    let sources = vec![Target::CommitFile { commit: "abc123".into(), path: "f.txt".into() }];
    let target = Target::Commit("def456".into());
    assert_eq!(
        classify(&sources, &target).unwrap(),
        FoldOp::CommitFileToCommit {
            source_commit: "abc123".into(),
            path: "f.txt".into(),
            target_commit: "def456".into(),
        }
    );
}

#[test]
fn classify_files_into_a_file_is_refused() {
    let sources = vec![Target::File("a.txt".into())];
    let target = Target::File("b.txt".into());
    assert_eq!(
        classify(&sources, &target).unwrap_err().message(),
        "Target must be a commit or branch, not a file"
    );
}

#[test]
fn classify_several_commit_files_are_refused() {
    let sources = vec![
        Target::CommitFile { commit: "abc123".into(), path: "a.txt".into() },
        Target::CommitFile { commit: "abc123".into(), path: "b.txt".into() },
    ];
    let target = Target::Commit("def456".into());
    assert_eq!(
        classify(&sources, &target).unwrap_err().message(),
        "Only one commit file source is allowed"
    );
}

// ── Routing a command line ───────────────────────────────────────────────

#[test]
fn run_without_arguments_shows_the_usage() {
    let err = run(false, false, None, vec![], &[]).err().unwrap();
    assert_eq!(
        err.message,
        "At least one argument required\nUsage: git-loom fold [<source>...] <target>"
    );
}

#[test]
fn run_routes_one_argument_to_the_staged_fold() {
    match run(false, false, None, strings(&["abc123"]), &[]).ok().unwrap() {
        FoldRoute::Staged { target } => assert_eq!(target, "abc123"),
        _ => panic!("expected the staged fold"),
    }
}

#[test]
fn run_splits_sources_from_the_target() {
    match run(false, false, None, strings(&["a.txt", "zz", "abc123"]), &[]).ok().unwrap() {
        FoldRoute::Sources { sources, target, all_changes } => {
            assert_eq!(sources, strings(&["a.txt", "zz"]));
            assert_eq!(target, "abc123");
            assert!(all_changes);
        }
        _ => panic!("expected sources and a target"),
    }
}

#[test]
fn run_refuses_git_arguments_when_moving_next_to_a_commit() {
    let err = run(
        false,
        false,
        Some(Anchor::Above("abc123".into())),
        strings(&["def456"]),
        &strings(&["--no-verify"]),
    )
    .err()
    .unwrap();
    assert_eq!(
        err.message,
        "moving commits next to another runs no `git commit`, so it takes no arguments after `--`"
    );
}

#[test]
fn run_prefers_the_anchor_over_create_and_patch() {
    match run(true, true, Some(Anchor::Below("abc".into())), strings(&["x"]), &[]).ok().unwrap() {
        FoldRoute::Relative { anchor, args } => {
            assert_eq!(anchor, Anchor::Below("abc".into()));
            assert_eq!(args, strings(&["x"]));
        }
        _ => panic!("expected the relative move"),
    }
}

#[test]
fn run_create_refuses_git_arguments() {
    let err = run(true, false, None, strings(&["x", "new"]), &strings(&["-v"])).err().unwrap();
    assert_eq!(
        err.message,
        "moving commits to a new branch runs no `git commit`, so it takes no arguments after `--`"
    );
}

#[test]
fn zz_on_a_clean_tree_has_nothing_to_fold() {
    assert_eq!(
        all_changed_files(vec![]).err().unwrap().message,
        "No changes to fold — working tree is clean"
    );
    assert_eq!(all_changed_files(strings(&["a"])).ok().unwrap(), strings(&["a"]));
}

#[test]
fn a_fold_that_only_rebases_takes_no_git_arguments() {
    let op = FoldOp::CommitToUnstaged { commit: "abc".into() };
    assert_eq!(
        check_git_args(&op, &strings(&["-v"])).err().unwrap().message,
        "uncommitting a commit runs no `git commit`, so it takes no arguments after `--`"
    );
    assert!(check_git_args(&op, &[]).is_ok());
    let amend = FoldOp::FilesIntoCommit { files: strings(&["a"]), commit: "abc".into() };
    assert!(check_git_args(&amend, &strings(&["-v"])).is_ok());
    assert!(no_git_args(&[], "anything").is_ok());
}

// ── `fold -p`: what moves, what stays ────────────────────────────────────

use git_loom::fold::{
    apply_and_amend, apply_and_amend_path, build_movable_patch, is_whole_file, picked_whole_kind,
    restore_to_worktree, unmovable_picks, unmovable_warning, AmendStep, FileEntry, PickedHunk,
    PickedWholeFile, WholeFileKind,
};

fn entry(path: &str, status: char, hunks: &[(bool, bool)]) -> FileEntry {
    FileEntry {
        path: path.to_string(),
        index_status: status,
        hunks: hunks.iter().map(|&(selected, text)| PickedHunk { selected, text }).collect(),
    }
}

fn whole_file(path: &str, kind: WholeFileKind) -> PickedWholeFile {
    PickedWholeFile { path: path.to_string(), diff: format!("diff of {path}"), kind }
}

#[test]
fn whole_file_picks_are_submodules_and_deletions() {
    let sub = entry("sub", 'M', &[(true, false)]);
    assert_eq!(picked_whole_kind(&sub, Some(true)), Some(WholeFileKind::Gitlink { removed: true }));
    let gone = entry("gone.txt", 'D', &[(true, false)]);
    assert_eq!(picked_whole_kind(&gone, None), Some(WholeFileKind::Deletion));
    let text = entry("a.txt", 'M', &[(true, true)]);
    assert_eq!(picked_whole_kind(&text, None), None);
    let untouched = entry("sub", 'M', &[(false, false)]);
    assert_eq!(picked_whole_kind(&untouched, Some(false)), None);
}

#[test]
fn a_binary_pick_is_left_behind_with_a_warning() {
    let selections = vec![
        entry("a.txt", 'M', &[(true, true)]),
        entry("img.png", 'M', &[(true, false)]),
        entry("gone.txt", 'D', &[(true, false)]),
        entry("b.txt", 'M', &[(false, true)]),
    ];
    let whole = vec![whole_file("gone.txt", WholeFileKind::Deletion)];
    assert!(is_whole_file(&whole, "gone.txt"));
    assert!(!is_whole_file(&whole, "img.png"));
    assert_eq!(unmovable_picks(&selections, &whole), vec!["img.png".to_string()]);
    let (patch, warning) = build_movable_patch("PATCH".to_string(), &selections, &whole, "HEAD").ok().unwrap();
    assert_eq!(patch, "PATCH");
    assert_eq!(
        warning.unwrap(),
        "Left behind, no hunk to move: img.png\nTo move one whole, take its `<commit>:<index>` id from `loom status -f` and run `loom fold <id> HEAD`"
    );
    assert_eq!(
        unmovable_warning(&["a".to_string(), "b".to_string()], "zz"),
        "Left behind, no hunk to move: a, b\nTo move one whole, take its `<commit>:<index>` id from `loom status -f` and run `loom fold <id> zz`"
    );
}

#[test]
fn nothing_movable_is_refused() {
    let selections = vec![entry("img.png", 'M', &[(true, false)])];
    assert_eq!(
        build_movable_patch(String::new(), &selections, &[], "HEAD").err().unwrap().message,
        "No text hunks selected — binary files are not supported with -p"
    );
}

fn describe(steps: &[AmendStep]) -> Vec<String> {
    steps
        .iter()
        .map(|s| match s {
            AmendStep::Apply(c) => format!("{} <{}>", c.args.join(" "), c.stdin.clone().unwrap_or_default()),
            AmendStep::StagePath(p) => format!("stage {p}"),
            AmendStep::Amend(o) => git_loom::git::git_commit::commit_amend_no_edit(o).args.join(" "),
        })
        .collect()
}

#[test]
fn an_amend_applies_moves_stages_and_amends() {
    let selections = vec![
        entry("a.txt", 'M', &[(true, true)]),
        entry("sub", 'M', &[(true, false)]),
        entry("gone.txt", 'D', &[(true, false), (true, true)]),
    ];
    let whole = vec![
        whole_file("sub", WholeFileKind::Gitlink { removed: false }),
        whole_file("gone.txt", WholeFileKind::Deletion),
    ];
    assert_eq!(
        describe(&apply_and_amend(&selections, "P", &whole, true, &[])),
        vec![
            "apply --reverse <P>",
            "apply --cached --reverse <diff of sub>",
            "apply --index --reverse <diff of gone.txt>",
            "stage a.txt",
            "commit --amend --no-edit --allow-empty",
        ]
    );
    assert_eq!(
        describe(&apply_and_amend(&selections, "", &[], false, &["-n".to_string()])),
        vec!["stage a.txt", "stage gone.txt", "commit -n --amend --no-edit --allow-empty"]
    );
}

#[test]
fn a_submodule_patch_goes_to_the_index_only() {
    assert_eq!(
        describe(&apply_and_amend_path("P", "sub", true, false, &[])),
        vec!["apply --cached <P>", "commit --amend --no-edit --allow-empty"]
    );
    assert_eq!(
        describe(&apply_and_amend_path("P", "a.txt", false, true, &[])),
        vec!["apply --reverse <P>", "stage a.txt", "commit --amend --no-edit --allow-empty"]
    );
}

#[test]
fn a_restore_replays_the_patch_then_the_deletions() {
    let whole = vec![
        whole_file("sub", WholeFileKind::Gitlink { removed: true }),
        whole_file("gone.txt", WholeFileKind::Deletion),
    ];
    assert_eq!(restore_to_worktree("P", &whole), vec!["P".to_string(), "diff of gone.txt".to_string()]);
    assert_eq!(restore_to_worktree("", &[]), Vec::<String>::new());
}

fn texts(v: &[&str]) -> Vec<String> {
    v.iter().map(|s| s.to_string()).collect()
}

#[test]
fn moved_commits_come_oldest_first_each_once() {
    // The walk meets the newest first.
    let walk = texts(&["c4444444", "c3333333", "c2222222", "c1111111"]);
    let r = git_loom::fold::commits_to_move(&texts(&["c2222222", "c4444444", "c2222222"]), &walk).unwrap();
    assert_eq!(r, texts(&["c2222222", "c4444444"]));
}

#[test]
fn a_commit_below_the_base_is_refused() {
    let walk = texts(&["c4444444", "c3333333"]);
    let e = git_loom::fold::commits_to_move(&texts(&["c3333333", "b0000000aa", "b1111111bb"]), &walk).unwrap_err();
    assert_eq!(
        e.message,
        "Commit `b000000` is not in the integration scope\nOnly commits above the integration base can be moved"
    );
}

#[test]
fn topological_order_keeps_only_what_the_walk_meets() {
    let walk = texts(&["d", "c", "b", "a"]);
    assert_eq!(git_loom::fold::ordered_topologically(&texts(&["a", "c", "z"]), &walk), texts(&["a", "c"]));
    assert!(git_loom::fold::ordered_topologically(&texts(&[]), &walk).is_empty());
    assert!(git_loom::fold::commits_to_move(&texts(&[]), &walk).unwrap().is_empty());
}

use git_loom::fold::{
    rollback_fold, rollback_step, FoldRollback, FoldSnapshot, ParkPatch, RollbackAction,
    RollbackEvent,
};
use git_loom::git::GitFailure;

fn snapshot(refs: bool, staged: &str, worktree: &str) -> FoldSnapshot {
    FoldSnapshot {
        head: "0123456789abcdef0123456789abcdef01234567".to_string(),
        refs,
        staged: staged.to_string(),
        worktree: worktree.to_string(),
    }
}

fn failure(m: &str) -> GitFailure {
    GitFailure { message: m.to_string() }
}

fn run_args(a: &RollbackAction) -> Vec<String> {
    match a {
        RollbackAction::Run(c) => c.args.clone(),
        _ => panic!("expected a git command"),
    }
}

#[test]
fn a_rollback_resets_then_restores_refs_then_both_patches() {
    let snap = snapshot(true, "staged-patch", "worktree-patch");
    let s = rollback_fold(&snap);
    assert_eq!(run_args(&s.action), vec!["reset", "--hard", "0123456789abcdef0123456789abcdef01234567"]);
    let s = rollback_step(s.state, RollbackEvent::Ran(Ok(())), &snap);
    assert!(matches!(s.state, FoldRollback::RestoringRefs));
    assert!(matches!(s.action, RollbackAction::RestoreRefs));
    let s = rollback_step(s.state, RollbackEvent::RefsRestored(Err("locked".to_string())), &snap);
    assert_eq!(s.warnings, vec!["failed to restore branch refs: locked".to_string()]);
    assert_eq!(run_args(&s.action), vec!["apply", "--cached"]);
    let s = rollback_step(s.state, RollbackEvent::Ran(Ok(())), &snap);
    assert!(s.warnings.is_empty() && s.park.is_empty());
    match &s.action {
        RollbackAction::Run(c) => {
            assert_eq!(c.args, vec!["apply"]);
            assert_eq!(c.stdin.as_deref(), Some("worktree-patch"));
        }
        _ => panic!("expected the worktree apply"),
    }
    let s = rollback_step(s.state, RollbackEvent::Ran(Ok(())), &snap);
    assert!(matches!(s.state, FoldRollback::Done));
    assert!(matches!(s.action, RollbackAction::Finish));
}

#[test]
fn a_failed_reset_parks_both_patches_and_stops() {
    let snap = snapshot(true, "s", "w");
    let s = rollback_step(FoldRollback::Resetting, RollbackEvent::Ran(Err(failure("index.lock exists"))), &snap);
    assert_eq!(
        s.warnings,
        vec!["could not reset back to 0123456: index.lock exists\nHistory is NOT where it was — check `loom` before replaying anything".to_string()]
    );
    assert_eq!(s.park, vec![ParkPatch::Worktree, ParkPatch::Staged]);
    assert!(matches!(s.action, RollbackAction::Finish));
}

#[test]
fn a_patch_that_does_not_go_back_is_parked() {
    let snap = snapshot(false, "s", "w");
    let s = rollback_step(FoldRollback::Resetting, RollbackEvent::Ran(Ok(())), &snap);
    assert!(matches!(s.state, FoldRollback::Restaging));
    let s = rollback_step(s.state, RollbackEvent::Ran(Err(failure("does not apply"))), &snap);
    assert_eq!(s.warnings, vec!["could not re-stage your staged changes: does not apply".to_string()]);
    assert_eq!(s.park, vec![ParkPatch::Staged]);
    assert!(matches!(s.state, FoldRollback::Reapplying));
    let s = rollback_step(s.state, RollbackEvent::Ran(Err(failure("conflict"))), &snap);
    assert_eq!(s.warnings, vec!["could not restore your uncommitted changes: conflict".to_string()]);
    assert_eq!(s.park, vec![ParkPatch::Worktree]);
    assert!(matches!(s.action, RollbackAction::Finish));
}

#[test]
fn a_clean_snapshot_needs_only_the_reset() {
    let snap = snapshot(false, "", "");
    let s = rollback_step(FoldRollback::Resetting, RollbackEvent::Ran(Ok(())), &snap);
    assert!(matches!(s.state, FoldRollback::Done));
    assert!(matches!(s.action, RollbackAction::Finish));
    let only_worktree = snapshot(false, "", "w");
    let s = rollback_step(FoldRollback::Resetting, RollbackEvent::Ran(Ok(())), &only_worktree);
    assert!(matches!(s.state, FoldRollback::Reapplying));
}
