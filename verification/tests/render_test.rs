use git_loom::graph::{build_sections, BranchInfo, CommitInfo, RemoteStatus, RepoInfo, UpstreamInfo};
use git_loom::render::{render_sections, RenderOpts, ShortIds, Style};
use git_loom::repo::FileChange;

fn oid(byte: u8) -> String {
    format!("{:02x}{}", byte, "0".repeat(38))
}

fn commit(byte: u8, message: &str, parent: Option<u8>) -> CommitInfo {
    CommitInfo {
        oid: oid(byte),
        short_id: format!("{:02x}{:05x}", byte, byte),
        message: message.to_string(),
        parent_oid: parent.map(oid),
        files: vec![],
    }
}

fn base_info() -> RepoInfo {
    RepoInfo {
        upstream: UpstreamInfo {
            label: "origin/main".to_string(),
            merge_base_oid: oid(0xAA),
            base_short_id: "aaa0000".to_string(),
            base_message: "Initial commit".to_string(),
            base_date: "2025-07-06".to_string(),
            commits_ahead: 0,
        },
        commits: vec![],
        branches: vec![],
        working_changes: vec![],
        context_commits: vec![],
    }
}

fn ids_for(info: &RepoInfo) -> ShortIds {
    ShortIds {
        unstaged: "zz".to_string(),
        branches: info.branches.iter().map(|b| (b.name.clone(), short_name(&b.name))).collect(),
        commits: info.commits.iter().map(|c| (c.oid.clone(), c.oid[..2].to_string())).collect(),
        files: info.working_changes.iter().map(|f| (f.path.clone(), f.path[..2].to_string())).collect(),
    }
}

fn short_name(name: &str) -> String {
    let parts: Vec<&str> = name.split('-').collect();
    parts.iter().filter_map(|p| p.chars().next()).take(2).collect()
}

fn plain(info: RepoInfo, width: Option<u16>) -> String {
    let ids = ids_for(&info);
    let sections = build_sections(info);
    let lines = render_sections(&sections, &ids, &RenderOpts { terminal_width: width });
    let mut out = String::new();
    for l in lines {
        for (t, _) in l {
            out.push_str(&t);
        }
        out.push('\n');
    }
    out
}

#[test]
fn no_commits_no_changes() {
    assert_eq!(
        plain(base_info(), None),
        "╭─ zz [local changes]\n│   no changes\n│\n● aaa0000 (upstream) [origin/main] Initial commit\n"
    );
}

#[test]
fn working_changes_shown() {
    let mut info = base_info();
    info.working_changes = vec![
        FileChange { path: "src/main.rs".to_string(), index: ' ', worktree: 'M' },
        FileChange { path: "new_file.txt".to_string(), index: 'A', worktree: ' ' },
    ];
    let ids = ShortIds {
        unstaged: "zz".to_string(),
        branches: vec![],
        commits: vec![],
        files: vec![("src/main.rs".to_string(), "ma".to_string()), ("new_file.txt".to_string(), "nf".to_string())],
    };
    let lines = render_sections(&build_sections(info), &ids, &RenderOpts { terminal_width: None });
    let text: Vec<String> = lines.iter().map(|l| l.iter().map(|p| p.0.as_str()).collect()).collect();
    assert_eq!(text[0], "╭─ zz [local changes]");
    assert_eq!(text[1], "│   ma  M src/main.rs");
    assert_eq!(text[2], "│   nf A  new_file.txt");
    assert_eq!(lines[1][2], ("ma".to_string(), Style::ShortId));
    assert_eq!(lines[1][4], (" ".to_string(), Style::Staged));
    assert_eq!(lines[1][5], ("M".to_string(), Style::Unstaged));
}

#[test]
fn single_branch() {
    let mut info = base_info();
    info.commits = vec![commit(2, "A2", Some(1)), commit(1, "A1", None)];
    info.branches = vec![BranchInfo { name: "feature-a".to_string(), tip_oid: oid(2), remote: None }];
    assert_eq!(
        plain(info, None),
        "╭─ zz [local changes]\n│   no changes\n│\n│╭─ fa [feature-a]\n│●    0200002 A2\n│●    0100001 A1\n├╯\n│\n● aaa0000 (upstream) [origin/main] Initial commit\n"
    );
}

#[test]
fn stacked_branches() {
    let mut info = base_info();
    info.commits = vec![commit(4, "B2", Some(3)), commit(3, "B1", Some(2)), commit(2, "A2", Some(1)), commit(1, "A1", None)];
    info.branches = vec![
        BranchInfo { name: "feature-b".to_string(), tip_oid: oid(4), remote: None },
        BranchInfo { name: "feature-a".to_string(), tip_oid: oid(2), remote: None },
    ];
    let output = plain(info, None);
    assert!(output.contains("││\n│├─"), "expected stacked branches, got:\n{output}");
    assert_eq!(output.matches("├╯").count(), 1, "expected single ├╯, got:\n{output}");
}

#[test]
fn independent_branches() {
    let mut info = base_info();
    info.commits = vec![commit(2, "B1", None), commit(1, "A1", None)];
    info.branches = vec![
        BranchInfo { name: "feature-b".to_string(), tip_oid: oid(2), remote: None },
        BranchInfo { name: "feature-a".to_string(), tip_oid: oid(1), remote: None },
    ];
    let output = plain(info, None);
    assert!(output.contains("├╯\n│\n│╭─"), "expected independent branches, got:\n{output}");
}

#[test]
fn loose_commits_on_integration_line() {
    let mut info = base_info();
    info.commits = vec![commit(2, "Fix typo", Some(1)), commit(1, "Refactor", None)];
    let output = plain(info, None);
    assert!(output.contains("●    0200002 Fix typo\n●    0100001 Refactor"), "{output}");
    assert!(!output.contains("│╭─"));
}

#[test]
fn upstream_ahead_shows_indicator() {
    let mut info = base_info();
    info.upstream.commits_ahead = 3;
    let output = plain(info, None);
    assert!(
        output.contains("│●  [origin/main] ⏫ 3 new commits\n├╯ aaa0000 (common base) 2025-07-06 Initial commit\n"),
        "{output}"
    );
}

#[test]
fn upstream_ahead_singular() {
    let mut info = base_info();
    info.upstream.commits_ahead = 1;
    let output = plain(info, None);
    assert!(output.contains("⏫ 1 new commit\n"), "{output}");
    assert!(!output.contains("commits\n"));
}

#[test]
fn remote_indicators_follow_the_name() {
    let mut info = base_info();
    info.commits = vec![commit(2, "A2", Some(1)), commit(1, "A1", None)];
    info.branches = vec![
        BranchInfo { name: "feature-a".to_string(), tip_oid: oid(2), remote: Some(RemoteStatus::Synced) },
        BranchInfo { name: "feature-b".to_string(), tip_oid: oid(2), remote: Some(RemoteStatus::Gone) },
    ];
    let output = plain(info, None);
    assert!(output.contains("│╭─ fb [feature-b] ✗\n│├─ fa [feature-a] ✓\n"), "{output}");
}

#[test]
fn multicolumn_fills_top_to_bottom_left_to_right() {
    let mut info = base_info();
    info.working_changes = ["aa", "bb", "cc", "dd", "ee", "ff"]
        .iter()
        .map(|n| FileChange { path: format!("{n}.txt"), index: '?', worktree: '?' })
        .collect();
    let output = plain(info, Some(55));
    let rows: Vec<&str> = output.lines().filter(|l| l.contains('⁕')).collect();
    assert_eq!(
        rows,
        vec![
            "│   aa  ⁕ aa.txt   │ cc  ⁕ cc.txt   │ ee  ⁕ ee.txt",
            "│   bb  ⁕ bb.txt   │ dd  ⁕ dd.txt   │ ff  ⁕ ff.txt",
        ]
    );
}

#[test]
fn untracked_below_threshold_stays_single_column() {
    let mut info = base_info();
    info.working_changes =
        (1..=5).map(|i| FileChange { path: format!("file{i}.txt"), index: '?', worktree: '?' }).collect();
    let output = plain(info, Some(120));
    assert_eq!(output.lines().filter(|l| l.contains('⁕')).count(), 5);
}

#[test]
fn multicolumn_no_tty_stays_single_column() {
    let mut info = base_info();
    info.working_changes =
        (1..=10).map(|i| FileChange { path: format!("file{i}.txt"), index: '?', worktree: '?' }).collect();
    let output = plain(info, None);
    assert_eq!(output.lines().filter(|l| l.contains('⁕')).count(), 10);
}

#[test]
fn commit_files_get_commit_and_index_ids() {
    let mut info = base_info();
    let mut c = commit(2, "A2", None);
    c.files = vec![FileChange { path: "a.rs".to_string(), index: 'M', worktree: ' ' }];
    info.commits = vec![c];
    let output = plain(info, None);
    assert!(output.contains("●    0200002 A2\n┊       02:0 M  a.rs\n"), "{output}");
}
