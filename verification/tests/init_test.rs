use git_loom::git::LoomError;
use git_loom::init::{
    detect_upstream, gather_remote_candidates, init_step, run, try_github_upstream, Init,
    InitAction, InitEvent, RemoteFacts, UpstreamChoice,
};

fn origin(url: &str) -> RemoteFacts {
    RemoteFacts {
        name: "origin".to_string(),
        url: Some(url.to_string()),
        head: None,
        main: true,
        master: false,
        develop: false,
    }
}

fn upstream_remote() -> RemoteFacts {
    RemoteFacts {
        name: "upstream".to_string(),
        url: Some("/tmp/remote.git".to_string()),
        head: None,
        main: true,
        master: false,
        develop: false,
    }
}

/// Drive `loom init` with a repository in which `existing` branches exist
/// and `remotes` are configured; the current branch has no upstream.
fn init_with(name: Option<String>, existing: &[&str], remotes: &[RemoteFacts]) -> Result<String, LoomError> {
    let (mut state, mut action) = run(name);
    loop {
        let event = match &action {
            InitAction::Finish(_) => break,
            InitAction::Run(c) if c.args[0] == "check-ref-format" => {
                let name = &c.args[2];
                InitEvent::Accepted(!name.contains("..") && !name.ends_with('/'))
            }
            InitAction::LookUpBranch(b) => InitEvent::Exists(existing.contains(&b.as_str())),
            InitAction::Locate => {
                let upstream = match detect_upstream(remotes, None) {
                    UpstreamChoice::Found(u) => Ok(u),
                    UpstreamChoice::Choose(v) => Ok(v[0].clone()),
                    UpstreamChoice::Missing(e) => Err(e),
                };
                InitEvent::Located { upstream, bare: false }
            }
            InitAction::Run(c) => {
                assert_eq!(c.args[0], "switch");
                InitEvent::Switched(Ok(()))
            }
        };
        let next = init_step(state, event);
        state = next.0;
        action = next.1;
    }
    assert!(matches!(state, Init::Done));
    match action {
        InitAction::Finish(r) => r,
        _ => unreachable!(),
    }
}

#[test]
fn init_creates_tracking_branch_with_default_name() {
    let message = init_with(None, &["main"], &[origin("/tmp/remote.git")]).ok().unwrap();
    assert_eq!(message, "Initialized integration branch `integration` tracking `origin/main`");
}

#[test]
fn init_creates_tracking_branch_with_custom_name() {
    let message =
        init_with(Some("my-integration".to_string()), &["main", "integration"], &[origin("/r")])
            .ok()
            .unwrap();
    assert!(message.contains("`my-integration`"), "{message}");
}

#[test]
fn init_fails_if_branch_already_exists() {
    let err = init_with(Some("integration".to_string()), &["main", "integration"], &[origin("/r")])
        .err()
        .unwrap();
    assert!(err.message.contains("already exists"), "Expected 'already exists' error, got: {}", err.message);
}

#[test]
fn init_fails_with_empty_name() {
    let err = init_with(Some("  ".to_string()), &["main"], &[origin("/r")]).err().unwrap();
    assert!(err.message.contains("empty"), "Expected empty name error, got: {}", err.message);
}

#[test]
fn init_fails_with_invalid_name() {
    let err = init_with(Some("my..branch".to_string()), &["main"], &[origin("/r")]).err().unwrap();
    assert!(err.message.contains("is not valid"), "Expected invalid name error, got: {}", err.message);
}

#[test]
fn init_points_branch_at_upstream_tip() {
    // The branch is created by `git switch -c <name> --track <upstream>`,
    // so it starts at the upstream's tip.
    let (state, _) = run(None);
    let (state, _) = init_step(state, InitEvent::Accepted(true));
    let (state, _) = init_step(state, InitEvent::Exists(false));
    let (_, action) = init_step(
        state,
        InitEvent::Located { upstream: Ok("origin/main".to_string()), bare: false },
    );
    match action {
        InitAction::Run(c) => {
            assert_eq!(c.args, vec!["switch", "-c", "integration", "--track", "origin/main"]);
            assert_eq!(c.context.as_deref(), Some("Failed to create tracking branch"));
        }
        _ => panic!("expected the switch"),
    }
}

#[test]
fn init_detects_upstream_from_current_branch() {
    match detect_upstream(&[origin("/r")], Some("origin/main".to_string())) {
        UpstreamChoice::Found(u) => assert_eq!(u, "origin/main"),
        _ => panic!("expected the current branch's upstream"),
    }
}

#[test]
fn init_prefers_upstream_remote_on_github() {
    let remotes = vec![origin("https://github.com/user/fork.git"), upstream_remote()];
    assert_eq!(try_github_upstream(&remotes), Some("upstream/main".to_string()));
    match detect_upstream(&remotes, Some("origin/main".to_string())) {
        UpstreamChoice::Found(u) => assert_eq!(u, "upstream/main"),
        _ => panic!("expected upstream/main"),
    }
}

#[test]
fn init_no_upstream_remote_uses_origin_on_github() {
    let remotes = vec![origin("https://github.com/user/repo.git")];
    assert_eq!(try_github_upstream(&remotes), None);
    match detect_upstream(&remotes, None) {
        UpstreamChoice::Found(u) => assert_eq!(u, "origin/main"),
        _ => panic!("expected origin/main"),
    }
}

#[test]
fn init_without_remotes_says_how_to_add_one() {
    match detect_upstream(&[], None) {
        UpstreamChoice::Missing(e) => assert_eq!(
            e.message,
            "No remote tracking branches found.\nSet up a remote with: `git remote add origin <url>`"
        ),
        _ => panic!("expected no upstream"),
    }
}

#[test]
fn several_remotes_are_offered_to_pick_from() {
    let mut other = upstream_remote();
    other.name = "fork".to_string();
    other.head = Some("fork/trunk".to_string());
    let mut none = origin("/r");
    none.name = "empty".to_string();
    none.main = false;
    let remotes = vec![origin("/r"), none, other];
    assert_eq!(gather_remote_candidates(&remotes), vec!["origin/main", "fork/trunk"]);
    match detect_upstream(&remotes, None) {
        UpstreamChoice::Choose(v) => assert_eq!(v, vec!["origin/main", "fork/trunk"]),
        _ => panic!("expected a choice"),
    }
}

#[test]
fn a_bare_repository_has_nowhere_to_switch() {
    let (state, _) = run(Some("x".to_string()));
    let (state, _) = init_step(state, InitEvent::Accepted(true));
    let (state, _) = init_step(state, InitEvent::Exists(false));
    let (_, action) =
        init_step(state, InitEvent::Located { upstream: Ok("origin/main".to_string()), bare: true });
    match action {
        InitAction::Finish(Err(e)) => assert_eq!(e.message, "Cannot create branch in bare repository"),
        _ => panic!("expected the bare repository error"),
    }
}
