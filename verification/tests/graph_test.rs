use git_loom::graph::{
    build_sections, is_stacked_with_next, BranchInfo, CommitInfo, ContextCommit, RemoteStatus,
    RepoInfo, Section, UpstreamInfo,
};
use git_loom::repo::FileChange;

fn oid(byte: u8) -> String {
    format!("{:02x}{}", byte, "0".repeat(38))
}

fn commit(byte: u8, message: &str, parent: Option<u8>) -> CommitInfo {
    CommitInfo {
        oid: oid(byte),
        short_id: format!("{:07x}", byte),
        message: message.to_string(),
        parent_oid: parent.map(oid),
        files: vec![],
    }
}

fn branch(name: &str, tip: u8, remote: Option<RemoteStatus>) -> BranchInfo {
    BranchInfo { name: name.to_string(), tip_oid: oid(tip), remote }
}

fn base_info() -> RepoInfo {
    RepoInfo {
        upstream: UpstreamInfo {
            label: "origin/main".to_string(),
            merge_base_oid: oid(0xAA),
            base_short_id: "aaa0000".to_string(),
            base_message: "Initial commit".to_string(),
            base_date: "2025-07-06".to_string(),
            commits_ahead: 0,
        },
        commits: vec![],
        branches: vec![],
        working_changes: vec![],
        context_commits: vec![],
    }
}

fn messages(cs: &[CommitInfo]) -> Vec<String> {
    cs.iter().map(|c| c.message.clone()).collect()
}

fn branch_names(s: &Section) -> Vec<String> {
    match s {
        Section::Branch { names, .. } => names.iter().map(|n| n.0.clone()).collect(),
        _ => panic!("not a branch section"),
    }
}

fn branch_messages(s: &Section) -> Vec<String> {
    match s {
        Section::Branch { commits, .. } => messages(commits),
        _ => panic!("not a branch section"),
    }
}

#[test]
fn no_commits_gives_working_changes_and_upstream() {
    let sections = build_sections(base_info());
    assert_eq!(sections.len(), 2);
    assert!(matches!(&sections[0], Section::WorkingChanges(c) if c.is_empty()));
    assert!(matches!(&sections[1], Section::Upstream(u) if u.label == "origin/main"));
}

#[test]
fn working_changes_are_carried_into_the_first_section() {
    let mut info = base_info();
    info.working_changes = vec![
        FileChange { path: "src/main.rs".to_string(), index: ' ', worktree: 'M' },
        FileChange { path: "new_file.txt".to_string(), index: 'A', worktree: ' ' },
    ];
    let sections = build_sections(info);
    match &sections[0] {
        Section::WorkingChanges(c) => {
            assert_eq!(c.len(), 2);
            assert_eq!(c[0].path, "src/main.rs");
            assert_eq!(c[1].index, 'A');
        }
        _ => panic!("expected working changes first"),
    }
}

#[test]
fn a_single_branch_owns_its_commits() {
    let mut info = base_info();
    info.commits = vec![commit(2, "A2", Some(1)), commit(1, "A1", None)];
    info.branches = vec![branch("feature-a", 2, None)];
    let sections = build_sections(info);
    assert_eq!(sections.len(), 3);
    assert_eq!(branch_names(&sections[1]), vec!["feature-a".to_string()]);
    assert_eq!(branch_messages(&sections[1]), vec!["A2".to_string(), "A1".to_string()]);
    assert!(matches!(&sections[2], Section::Upstream(_)));
}

#[test]
fn independent_branches_are_not_stacked() {
    let mut info = base_info();
    info.commits = vec![commit(2, "B1", None), commit(1, "A1", None)];
    info.branches = vec![branch("feature-b", 2, None), branch("feature-a", 1, None)];
    let sections = build_sections(info);
    assert_eq!(sections.len(), 4);
    assert_eq!(branch_names(&sections[1]), vec!["feature-b".to_string()]);
    assert_eq!(branch_names(&sections[2]), vec!["feature-a".to_string()]);
    assert!(!is_stacked_with_next(&sections, 1));
}

#[test]
fn a_branch_on_another_is_stacked() {
    let mut info = base_info();
    info.commits = vec![
        commit(4, "B2", Some(3)),
        commit(3, "B1", Some(2)),
        commit(2, "A2", Some(1)),
        commit(1, "A1", None),
    ];
    info.branches = vec![branch("feature-b", 4, None), branch("feature-a", 2, None)];
    let sections = build_sections(info);
    assert_eq!(sections.len(), 4);
    assert_eq!(branch_messages(&sections[1]), vec!["B2".to_string(), "B1".to_string()]);
    assert_eq!(branch_messages(&sections[2]), vec!["A2".to_string(), "A1".to_string()]);
    assert!(is_stacked_with_next(&sections, 1));
    assert!(!is_stacked_with_next(&sections, 2));
    assert!(!is_stacked_with_next(&sections, 0));
    assert!(!is_stacked_with_next(&sections, 9));
}

#[test]
fn commits_of_no_branch_are_loose() {
    let mut info = base_info();
    info.commits = vec![commit(2, "Fix typo", Some(1)), commit(1, "Refactor", None)];
    let sections = build_sections(info);
    assert_eq!(sections.len(), 3);
    match &sections[1] {
        Section::Loose(c) => {
            assert_eq!(messages(c), vec!["Fix typo".to_string(), "Refactor".to_string()])
        }
        _ => panic!("expected loose commits"),
    }
}

#[test]
fn loose_commits_come_before_the_branch() {
    let mut info = base_info();
    info.commits = vec![
        commit(3, "Loose on top", Some(2)),
        commit(2, "B tip", Some(1)),
        commit(1, "B base", None),
    ];
    info.branches = vec![branch("feature-b", 2, None)];
    let sections = build_sections(info);
    assert_eq!(sections.len(), 4);
    match &sections[1] {
        Section::Loose(c) => assert_eq!(messages(c), vec!["Loose on top".to_string()]),
        _ => panic!("expected loose commits"),
    }
    assert_eq!(branch_names(&sections[2]), vec!["feature-b".to_string()]);
    assert_eq!(branch_messages(&sections[2]), vec!["B tip".to_string(), "B base".to_string()]);
}

#[test]
fn merged_side_commits_stay_off_the_branch() {
    let mut info = base_info();
    info.commits = vec![
        commit(0x14, "Feature 1 improvement", Some(0x13)),
        commit(0x13, "fixup Feature 1", Some(0x12)),
        commit(0x12, "Bugfix 1", Some(0x11)),
        commit(0x11, "Feature 1", Some(0xaa)),
        commit(0x23, "Feature 3 depends on Feature 2", Some(0x22)),
        commit(0x22, "fixup Feature 2", Some(0x21)),
        commit(0x21, "Feature 2", Some(0xaa)),
    ];
    info.branches = vec![branch("feature-1", 0x14, None)];
    let sections = build_sections(info);
    assert_eq!(sections.len(), 4);
    match &sections[1] {
        Section::Loose(c) => assert_eq!(
            messages(c),
            vec![
                "Feature 3 depends on Feature 2".to_string(),
                "fixup Feature 2".to_string(),
                "Feature 2".to_string()
            ]
        ),
        _ => panic!("expected loose integration commits"),
    }
    assert_eq!(branch_messages(&sections[2]).len(), 4);
    assert_eq!(branch_messages(&sections[2])[3], "Feature 1");
}

#[test]
fn co_located_branches_share_one_section() {
    let mut info = base_info();
    info.commits = vec![commit(2, "A2", Some(1)), commit(1, "A1", None)];
    info.branches = vec![
        branch("feature-a", 2, None),
        branch("feature-a-v2", 2, Some(RemoteStatus::Ahead)),
    ];
    let sections = build_sections(info);
    assert_eq!(sections.len(), 3);
    assert_eq!(
        branch_names(&sections[1]),
        vec!["feature-a-v2".to_string(), "feature-a".to_string()]
    );
    match &sections[1] {
        Section::Branch { names, commits } => {
            assert_eq!(names[0].1, Some(RemoteStatus::Ahead));
            assert_eq!(names[1].1, None);
            assert_eq!(commits.len(), 2);
        }
        _ => panic!("expected a branch section"),
    }
}

#[test]
fn a_branch_at_the_merge_base_gets_an_empty_section() {
    let mut info = base_info();
    info.branches = vec![branch("feature-4", 0xaa, Some(RemoteStatus::Gone))];
    let sections = build_sections(info);
    assert_eq!(sections.len(), 3);
    assert_eq!(branch_names(&sections[1]), vec!["feature-4".to_string()]);
    assert!(branch_messages(&sections[1]).is_empty());
    assert!(matches!(&sections[2], Section::Upstream(_)));
}

#[test]
fn context_commits_come_last() {
    let mut info = base_info();
    info.context_commits = vec![ContextCommit {
        short_hash: "bbb0000".to_string(),
        message: "Older".to_string(),
        date: "2025-07-01".to_string(),
    }];
    let sections = build_sections(info);
    assert_eq!(sections.len(), 3);
    assert!(matches!(&sections[1], Section::Upstream(_)));
    assert!(matches!(&sections[2], Section::Context(c) if c.len() == 1 && c[0].message == "Older"));
}

#[test]
fn every_commit_is_shown_exactly_once() {
    let mut info = base_info();
    info.commits = vec![
        commit(6, "Loose on top", Some(5)),
        commit(5, "B2", Some(4)),
        commit(4, "B1", Some(3)),
        commit(3, "A2", Some(2)),
        commit(2, "Loose between", Some(1)),
        commit(1, "A1", None),
    ];
    info.branches = vec![branch("feature-b", 5, None), branch("feature-a", 3, None), branch("at-base", 0xaa, None)];
    let sections = build_sections(info);
    let mut shown: Vec<String> = Vec::new();
    for s in &sections {
        match s {
            Section::Loose(c) => shown.extend(messages(c)),
            Section::Branch { commits, .. } => shown.extend(messages(commits)),
            _ => {}
        }
    }
    shown.sort();
    let mut expected: Vec<String> =
        ["Loose on top", "B2", "B1", "A2", "Loose between", "A1"].iter().map(|s| s.to_string()).collect();
    expected.sort();
    assert_eq!(shown, expected);
}
