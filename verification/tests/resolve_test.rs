use git_loom::graph::{BranchInfo, CommitInfo, RepoInfo, UpstreamInfo};
use git_loom::render::ShortIds;
use git_loom::repo::{FileChange, Target};
use git_loom::resolve::{resolve_shortid, resolve_target};

fn pairs(v: &[(&str, &str)]) -> Vec<(String, String)> {
    v.iter().map(|(a, b)| (a.to_string(), b.to_string())).collect()
}

fn change(path: &str) -> FileChange {
    FileChange { path: path.to_string(), index: ' ', worktree: 'M' }
}

fn info() -> RepoInfo {
    RepoInfo {
        upstream: UpstreamInfo {
            label: "origin/main".to_string(),
            merge_base_oid: "base".to_string(),
            base_short_id: "base000".to_string(),
            base_message: "Initial".to_string(),
            base_date: "2025-07-06".to_string(),
            commits_ahead: 0,
        },
        commits: vec![CommitInfo {
            oid: "c1".to_string(),
            short_id: "c1".to_string(),
            message: "A1".to_string(),
            parent_oid: None,
            files: vec![change("x.txt"), change("y.txt")],
        }],
        branches: vec![BranchInfo { name: "feature-a".to_string(), tip_oid: "c1".to_string(), remote: None }],
        working_changes: vec![change("hello.txt")],
        context_commits: vec![],
    }
}

fn ids() -> ShortIds {
    ShortIds {
        unstaged: "zz".to_string(),
        branches: pairs(&[("feature-a", "fa")]),
        commits: pairs(&[("c1", "01")]),
        files: pairs(&[("hello.txt", "he")]),
    }
}

#[test]
fn a_shortid_names_the_working_tree_a_branch_a_commit_or_a_file() {
    assert_eq!(resolve_shortid("zz", &info(), &ids()).unwrap(), Target::Unstaged);
    assert_eq!(resolve_shortid("fa", &info(), &ids()).unwrap(), Target::Branch("feature-a".to_string()));
    assert_eq!(resolve_shortid("01", &info(), &ids()).unwrap(), Target::Commit("c1".to_string()));
    assert_eq!(resolve_shortid("he", &info(), &ids()).unwrap(), Target::File("hello.txt".to_string()));
}

#[test]
fn a_commit_shortid_with_an_index_names_a_file_of_that_commit() {
    assert_eq!(
        resolve_shortid("01:1", &info(), &ids()).unwrap(),
        Target::CommitFile { commit: "c1".to_string(), path: "y.txt".to_string() }
    );
    assert_eq!(
        resolve_shortid("01:5", &info(), &ids()).unwrap_err().message,
        "Commit has no file at index 5. Run 'git-loom status -f' to see available IDs."
    );
}

#[test]
fn an_unknown_shortid_is_refused() {
    assert_eq!(
        resolve_shortid("qq", &info(), &ids()).unwrap_err().message,
        "No commit, branch, file, or target with shortid 'qq'. Run 'git-loom status' to see available IDs."
    );
}

#[test]
fn a_branch_name_wins_over_a_commit() {
    let r = resolve_target("feature-a", Some("feature-a".to_string()), Some("c1".to_string()), &info(), &ids());
    assert_eq!(r.unwrap(), Target::Branch("feature-a".to_string()));
    let r = resolve_target("HEAD", None, Some("c1".to_string()), &info(), &ids());
    assert_eq!(r.unwrap(), Target::Commit("c1".to_string()));
    let r = resolve_target("fa", None, None, &info(), &ids());
    assert_eq!(r.unwrap(), Target::Branch("feature-a".to_string()));
}
