use git_loom::git::git_diff::{
    diff_cached, diff_commit_name_status, diff_head_file, diff_head_file_display,
    diff_head_files_display, numstat_is_binary, parse_name_status,
};
use git_loom::git::git_worktree::{
    ensure_not_checked_out_elsewhere, parse_worktree_list, WorktreeCheckout, WorktreeOnDisk,
};
use git_loom::git::{
    argv, check_git_version, ls_files, ls_files_output, parse_git_version, run_git,
    run_git_combined, run_git_stdout, short_hash, worktree_dirty_paths_output, GitCommand,
    GitOutcome,
};

fn strings(v: &[&str]) -> Vec<String> {
    v.iter().map(|s| s.to_string()).collect()
}

fn ok(stdout: &str) -> GitOutcome {
    GitOutcome { success: true, stdout: stdout.to_string(), stderr: String::new() }
}

fn failed() -> GitOutcome {
    GitOutcome { success: false, stdout: String::new(), stderr: "fatal: no".to_string() }
}

// ── Worktrees ────────────────────────────────────────────────────────────

#[test]
fn parse_worktree_list_filters_special_worktrees() {
    let porcelain = "\
worktree /repo
HEAD 1111111111111111111111111111111111111111
branch refs/heads/main

worktree /repo-wt
HEAD 2222222222222222222222222222222222222222
branch refs/heads/feature

worktree /repo-detached
HEAD 3333333333333333333333333333333333333333
detached

worktree /repo-bare
bare

worktree /repo-gone
HEAD 4444444444444444444444444444444444444444
branch refs/heads/gone
prunable gitdir file points to non-existent location
";
    let list = parse_worktree_list(porcelain);
    assert_eq!(
        list,
        vec![
            WorktreeCheckout { path: "/repo".to_string(), branch: "main".to_string() },
            WorktreeCheckout { path: "/repo-wt".to_string(), branch: "feature".to_string() },
        ]
    );
}

fn on_disk(path: &str, branch: &str, exists: bool) -> WorktreeOnDisk {
    WorktreeOnDisk {
        checkout: WorktreeCheckout { path: path.to_string(), branch: branch.to_string() },
        exists,
        canonical: path.to_string(),
    }
}

#[test]
fn current_worktree_is_exempt() {
    // The integration branch is checked out right here, and the rebase moves
    // its ref, index and files together — that must not be refused.
    let worktrees = vec![on_disk("/repo", "integration", true)];
    ensure_not_checked_out_elsewhere(&strings(&["integration"]), "/repo", &worktrees).unwrap();
}

#[test]
fn detached_worktree_is_unaffected() {
    // A detached worktree holds no branch: the listing drops it, so nothing
    // blocks the rewrite of `feature`.
    let porcelain = "\
worktree /repo
HEAD 1111111111111111111111111111111111111111
branch refs/heads/integration

worktree /wt
HEAD 2222222222222222222222222222222222222222
detached
";
    let list = parse_worktree_list(porcelain);
    let worktrees: Vec<WorktreeOnDisk> = list
        .into_iter()
        .map(|c| WorktreeOnDisk { canonical: c.path.clone(), checkout: c, exists: true })
        .collect();
    assert!(ensure_not_checked_out_elsewhere(
        &strings(&["integration", "feature"]),
        "/repo",
        &worktrees
    )
    .is_ok());
}

#[test]
fn feature_branch_checked_out_elsewhere_is_refused() {
    let worktrees =
        vec![on_disk("/repo", "integration", true), on_disk("/wt", "feature", true)];
    let err = ensure_not_checked_out_elsewhere(&strings(&["feature"]), "/repo", &worktrees)
        .unwrap_err();
    assert_eq!(err.blocked.len(), 1);
    let message = err.message();
    assert!(message.contains("feature"), "{message}");
    assert!(message.contains("/wt"), "{message}");
}

#[test]
fn worktree_with_a_gone_directory_is_ignored() {
    let worktrees = vec![on_disk("/wt", "feature", false)];
    assert!(ensure_not_checked_out_elsewhere(&strings(&["feature"]), "/repo", &worktrees).is_ok());
}

// ── Diffs ────────────────────────────────────────────────────────────────

#[test]
fn replay_diff_ignores_patch_reshaping_config() {
    let c = diff_head_file("file.txt");
    let full = argv(&c, false);
    for flag in [
        "--no-color",
        "--no-ext-diff",
        "--no-textconv",
        "--unified=3",
        "--full-index",
        "diff.noprefix=false",
        "diff.srcPrefix=a/",
        "diff.dstPrefix=b/",
    ] {
        assert!(full.iter().any(|a| a == flag), "{flag} missing from {full:?}");
    }
    assert_eq!(&full[full.len() - 3..], &strings(&["HEAD", "--", "file.txt"])[..]);
}

#[test]
fn replay_diff_round_trips_through_apply() {
    // What a replayable diff hands `git apply` is applied under loom's own
    // whitespace settings, whatever the user's config says.
    let patch = diff_head_file("file.txt");
    let apply = git_loom::git::git_apply::apply_patch("patch text");
    let full = argv(&apply, false);
    assert!(full.iter().any(|a| a == "apply.whitespace=nowarn"), "{full:?}");
    assert!(argv(&patch, false).iter().any(|a| a == "--full-index"));
    assert_eq!(apply.stdin.as_deref(), Some("patch text"));
}

#[test]
fn display_diff_keeps_textconv_but_not_color() {
    let display = diff_head_file_display("data.bin");
    let replay = diff_head_file("data.bin");
    assert!(display.args.iter().any(|a| a == "--no-color"));
    assert!(display.args.iter().any(|a| a == "--no-ext-diff"));
    assert!(!display.args.iter().any(|a| a == "--no-textconv"));
    assert!(replay.args.iter().any(|a| a == "--no-textconv"));
}

#[test]
fn diff_head_files_display_with_no_paths_is_empty_not_everything() {
    assert!(diff_head_files_display(&[]).is_none());
    let c = diff_head_files_display(&strings(&["a.txt"])).unwrap();
    assert_eq!(c.args, strings(&["diff", "--no-color", "--no-ext-diff", "HEAD", "--", "a.txt"]));
}

#[test]
fn name_status_takes_the_destination_of_a_rename() {
    let out = "M\tsrc/a.rs\nR100\told.rs\tnew.rs\n\nA\t  spaced.txt  \nC75\tfrom.rs\tto.rs\n";
    assert_eq!(
        parse_name_status(out),
        vec![
            ('M', "src/a.rs".to_string()),
            ('R', "new.rs".to_string()),
            ('A', "spaced.txt".to_string()),
            ('C', "to.rs".to_string()),
        ]
    );
}

#[test]
fn name_status_skips_a_line_without_a_path() {
    assert_eq!(parse_name_status("M\n\t\nD\tgone.txt"), vec![('D', "gone.txt".to_string())]);
    let c = diff_commit_name_status("abc");
    assert_eq!(c.args.last().unwrap(), "abc^..abc");
}

#[test]
fn numstat_reports_a_binary_file_by_its_dashes() {
    assert!(numstat_is_binary("-\t-\tdata.bin\n"));
    assert!(!numstat_is_binary("3\t1\tfile.txt\n"));
    assert!(!numstat_is_binary(""));
}

#[test]
fn a_saved_staged_diff_carries_binaries() {
    let c = diff_cached();
    assert!(c.args.iter().any(|a| a == "--binary"));
    assert!(c.args.iter().any(|a| a == "--cached"));
}

// ── Plumbing ─────────────────────────────────────────────────────────────

#[test]
fn a_failed_command_names_itself() {
    let c = GitCommand::captured(strings(&["rebase", "--continue"]));
    assert_eq!(run_git(&c, &failed()).err().unwrap().message, "git rebase failed");
    assert!(run_git(&c, &ok("")).is_ok());
    assert_eq!(run_git_stdout(&c, &ok("out\n")).ok().unwrap(), "out\n");
    let both = GitOutcome { success: true, stdout: " a\n".into(), stderr: "b \n".into() };
    assert_eq!(run_git_combined(&c, &both).ok().unwrap(), "a\nb");
}

#[test]
fn agent_mode_keeps_the_pager_away() {
    let c = GitCommand::interactive(strings(&["log"]));
    assert_eq!(argv(&c, true), strings(&["-c", "core.pager=cat", "log"]));
    assert_eq!(argv(&c, false), strings(&["log"]));
}

#[test]
fn ls_files_asks_nothing_for_no_files() {
    assert!(ls_files(&[]).is_none());
    let c = ls_files(&strings(&["a[12].txt"])).unwrap();
    assert_eq!(c.args, strings(&["ls-files", "-z", "--", ":(literal)a[12].txt"]));
    assert_eq!(ls_files_output("a\0b c\0\0"), strings(&["a", "b c"]));
}

#[test]
fn dirty_paths_keep_only_the_worktree_column() {
    // A rename staged in the index leaves the worktree matching it; its
    // second path names the file the rename left behind.
    let out = " M a.txt\0R  new.txt\0old.txt\0?? u.txt\0 R wnew.txt\0wold.txt\0";
    let mut paths = worktree_dirty_paths_output(out);
    paths.sort();
    assert_eq!(paths, strings(&["a.txt", "u.txt", "wnew.txt"]));
}

#[test]
fn git_version_is_checked() {
    assert_eq!(parse_git_version("git version 2.43.0\n"), Some((2, 43)));
    assert_eq!(parse_git_version("git version 2.39.3 (Apple Git-146)"), Some((2, 39)));
    assert_eq!(parse_git_version("nonsense"), None);
    assert!(check_git_version("git version 2.38.0").is_ok());
    let too_old = check_git_version("git version 2.37.1").unwrap_err().message();
    assert!(too_old.contains("2.37 is too old"), "{too_old}");
    assert!(check_git_version("garbage").is_err());
}

#[test]
fn a_short_hash_is_seven_characters() {
    assert_eq!(short_hash("0123456789abcdef"), "0123456");
    assert_eq!(short_hash("abc"), "abc");
}

#[test]
fn feature_branch_checked_out_elsewhere_refuses_the_rewrite() {
    let worktrees = vec![on_disk("/repo", "integration", true), on_disk("/wt", "feature", true)];
    let err = ensure_not_checked_out_elsewhere(&strings(&["integration", "feature"]), "/repo", &worktrees)
        .unwrap_err();
    assert_eq!(
        err.message(),
        "Cannot rewrite branch `feature` — it is checked out at `/wt`\nThat worktree's index and files would stay at the old tip. Check out another branch there (or remove the worktree), then retry"
    );
}

#[test]
fn integration_branch_checked_out_twice_refuses_the_rewrite() {
    let worktrees = vec![on_disk("/repo", "integration", true), on_disk("/wt", "integration", true)];
    let err = ensure_not_checked_out_elsewhere(&strings(&["integration"]), "/repo", &worktrees).unwrap_err();
    assert_eq!(err.blocked, vec![WorktreeCheckout { path: "/wt".into(), branch: "integration".into() }]);
    assert!(err.message().contains("integration"));
}
