use git_loom::repo::{date_or_unknown, format_epoch};

#[test]
fn an_epoch_is_shown_as_its_utc_date() {
    assert_eq!(format_epoch(0), "1970-01-01");
    assert_eq!(format_epoch(1751760000 + 86399), "2025-07-06");
    assert_eq!(format_epoch(-1), "1969-12-31");
}

#[test]
fn an_epoch_out_of_range_is_unknown() {
    assert_eq!(format_epoch(i64::MAX), "????-??-??");
    assert_eq!(date_or_unknown(None), "????-??-??");
    assert_eq!(date_or_unknown(Some("2025-01-02".to_string())), "2025-01-02");
}

use git_loom::graph::{CommitInfo, RemoteStatus};
use git_loom::repo::{
    branch_exists_message, commit_file, find_branches_in_range, no_upstream_message,
    range_commits, restore_plan, snapshot_refs, working_change, BranchFacts, DeltaKind,
    FileChange, StatusFlags, WalkedCommit, DETACHED_HEAD,
};

fn no_flags() -> StatusFlags {
    StatusFlags {
        index_new: false,
        index_modified: false,
        index_deleted: false,
        index_renamed: false,
        wt_new: false,
        wt_modified: false,
        wt_deleted: false,
        wt_renamed: false,
    }
}

fn columns(flags: StatusFlags) -> (char, char) {
    let c = working_change("f.txt".to_string(), flags);
    assert_eq!(c.path, "f.txt");
    (c.index, c.worktree)
}

#[test]
fn status_flags_give_the_two_columns() {
    assert_eq!(columns(no_flags()), (' ', ' '));
    assert_eq!(columns(StatusFlags { wt_new: true, ..no_flags() }), ('?', '?'));
    assert_eq!(columns(StatusFlags { index_new: true, ..no_flags() }), ('A', ' '));
    assert_eq!(columns(StatusFlags { index_modified: true, wt_modified: true, ..no_flags() }), ('M', 'M'));
    assert_eq!(columns(StatusFlags { index_deleted: true, ..no_flags() }), ('D', ' '));
    assert_eq!(columns(StatusFlags { index_renamed: true, wt_deleted: true, ..no_flags() }), ('R', 'D'));
    assert_eq!(columns(StatusFlags { wt_renamed: true, ..no_flags() }), (' ', 'R'));
    // An added file that is also renamed shows as added; untracked wins over all.
    assert_eq!(columns(StatusFlags { index_new: true, index_renamed: true, ..no_flags() }), ('A', ' '));
    assert_eq!(columns(StatusFlags { wt_new: true, index_new: true, wt_modified: true, ..no_flags() }), ('?', '?'));
}

#[test]
fn a_commit_file_takes_its_delta_letter() {
    let letters: Vec<char> = [DeltaKind::Added, DeltaKind::Modified, DeltaKind::Deleted, DeltaKind::Renamed, DeltaKind::Other]
        .iter()
        .map(|k| commit_file("a.rs".to_string(), *k).index)
        .collect();
    assert_eq!(letters, vec!['A', 'M', 'D', 'R', '?']);
    let c = commit_file("a.rs".to_string(), DeltaKind::Added);
    assert_eq!(c, FileChange { path: "a.rs".to_string(), index: 'A', worktree: ' ' });
}

fn walked(oid: &str, parents: usize, parent: Option<&str>) -> WalkedCommit {
    WalkedCommit {
        oid: oid.to_string(),
        short_id: oid[..2].to_string(),
        message: format!("msg {oid}"),
        parent_count: parents,
        first_parent: parent.map(str::to_string),
        files: vec![],
    }
}

#[test]
fn merges_are_left_out_of_the_range() {
    let commits = range_commits(vec![
        walked("m1", 2, Some("c3")),
        walked("c3", 1, Some("c2")),
        walked("c2", 1, Some("c1")),
        walked("c1", 0, None),
    ]);
    let oids: Vec<&str> = commits.iter().map(|c| c.oid.as_str()).collect();
    assert_eq!(oids, vec!["c3", "c2", "c1"]);
    assert_eq!(commits[0].parent_oid.as_deref(), Some("c2"));
    assert_eq!(commits[0].message, "msg c3");
    assert_eq!(commits[2].parent_oid, None);
    assert!(range_commits(vec![]).is_empty());
}

fn facts(name: Option<&str>, upstream: Option<&str>, tip: Option<&str>) -> BranchFacts {
    BranchFacts {
        name: name.map(str::to_string),
        upstream: upstream.map(str::to_string),
        tip: tip.map(str::to_string),
        remote: Some(RemoteStatus::Synced),
    }
}

fn range_of(oids: &[&str]) -> Vec<CommitInfo> {
    oids.iter()
        .map(|o| CommitInfo {
            oid: o.to_string(),
            short_id: o.to_string(),
            message: String::new(),
            parent_oid: None,
            files: vec![],
        })
        .collect()
}

#[test]
fn branches_in_range_are_those_the_graph_shows() {
    let listed = vec![
        facts(Some("integration"), Some("origin/main"), Some("c3")),
        facts(Some("feature-a"), None, Some("c2")),
        facts(Some("main"), Some("origin/main"), Some("base")),
        facts(Some("at-base"), Some("origin/at-base"), Some("base")),
        facts(Some("elsewhere"), None, Some("zz")),
        facts(None, None, Some("c1")),
        facts(Some("no-tip"), None, None),
    ];
    let shown = find_branches_in_range(listed, &range_of(&["c3", "c2", "c1"]), "base", "integration", "origin/main");
    let names: Vec<&str> = shown.iter().map(|b| b.name.as_str()).collect();
    assert_eq!(names, vec!["feature-a", "at-base"]);
    assert_eq!(shown[0].tip_oid, "c2");
    assert_eq!(shown[1].tip_oid, "base");
    assert_eq!(shown[0].remote, Some(RemoteStatus::Synced));
}

#[test]
fn a_snapshot_keeps_named_branches_with_a_tip() {
    let listed = vec![facts(Some("a"), None, Some("1")), facts(None, None, Some("2")), facts(Some("c"), None, None), facts(Some("d"), None, Some("4"))];
    assert_eq!(snapshot_refs(&listed), vec![("a".to_string(), "1".to_string()), ("d".to_string(), "4".to_string())]);
}

#[test]
fn a_restore_deletes_new_branches_and_resets_the_others() {
    let current = vec!["main".to_string(), "feature".to_string(), "made-later".to_string()];
    let snapshot = vec![("main".to_string(), "111".to_string()), ("feature".to_string(), "222".to_string()), ("gone".to_string(), "333".to_string())];
    let plan = restore_plan(&current, &snapshot, &Some("main".to_string()));
    let args: Vec<Vec<String>> = plan.iter().map(|c| c.args.clone()).collect();
    assert_eq!(
        args,
        vec![
            vec!["branch".to_string(), "-D".to_string(), "made-later".to_string()],
            vec!["branch".to_string(), "-f".to_string(), "feature".to_string(), "222".to_string()],
            vec!["branch".to_string(), "-f".to_string(), "gone".to_string(), "333".to_string()],
        ]
    );
    assert!(plan.iter().all(|c| !c.interactive && c.context.is_none()));
}

#[test]
fn a_restore_without_head_branch_touches_every_branch() {
    let current = vec!["made-later".to_string()];
    let snapshot = vec![("main".to_string(), "111".to_string())];
    let plan = restore_plan(&current, &snapshot, &None);
    assert_eq!(plan.len(), 2);
    assert_eq!(plan[0].args, vec!["branch", "-D", "made-later"]);
    assert_eq!(plan[1].args, vec!["branch", "-f", "main", "111"]);
}

#[test]
fn repository_errors_name_the_branch() {
    assert_eq!(DETACHED_HEAD, "HEAD is detached. git-loom requires being on a branch.");
    assert_eq!(
        no_upstream_message("loom"),
        "branch 'loom' has no upstream tracking branch.\nSet one with: git branch --set-upstream-to=origin/main loom"
    );
    assert_eq!(branch_exists_message("feature-a"), "Branch 'feature-a' already exists");
}
