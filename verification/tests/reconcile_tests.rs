use rustmergency::config::{Config, LocalConfig, RawConfig, RawMetaConfig, RemoteConfig, StepConfig};
use rustmergency::errors::MergerError;
use rustmergency::reconcile::{
    check_dir, clone_args, gitdir_error, parse_remotes, reconcile_remote, remote_add_args,
    remote_list_args, rev_parse_args, DirDecision, RemoteAction,
};
use rustmergency::remote::Impl;

fn local(should_clone: bool) -> LocalConfig {
    LocalConfig {
        path: "/data/checkout".to_string(),
        target_branch: "build".to_string(),
        upstream_base: "upstream/main".to_string(),
        should_clone,
    }
}

#[test]
fn present_directory_needs_nothing() {
    assert!(matches!(check_dir(&local(false), true), DirDecision::AlreadyPresent));
    assert!(matches!(check_dir(&local(true), true), DirDecision::AlreadyPresent));
}

#[test]
fn missing_directory_with_clone_allowed_clones() {
    assert!(matches!(check_dir(&local(true), false), DirDecision::CloneNeeded));
}

#[test]
fn missing_directory_without_clone_fails_naming_the_path() {
    match check_dir(&local(false), false) {
        DirDecision::Refuse(MergerError::Local(m)) => {
            assert_eq!(m, "path /data/checkout does not exist, and clone was not requested")
        }
        _ => panic!("a missing directory without clone permission must refuse"),
    }
}

#[test]
fn end_to_end_load_succeeds_then_reconciliation_refuses() {
    let raw = RawConfig {
        local: LocalConfig {
            path: "/nonexistent/checkout".to_string(),
            target_branch: "build".to_string(),
            upstream_base: "upstream/main".to_string(),
            should_clone: false,
        },
        meta: RawMetaConfig {
            committer_name: None,
            committer_email: "release@example.com".to_string(),
        },
        remotes: vec![(
            "upstream".to_string(),
            RemoteConfig {
                interface: Impl::Github,
                api_url: "https://api.github.com".to_string(),
                api_key: "k1".to_string(),
                repo: "org/repo".to_string(),
            },
        )],
        build_steps: Vec::new(),
    };
    let env: Vec<(String, String)> = Vec::new();
    let c = Config::new(raw, &env).unwrap();
    match check_dir(&c.local, false) {
        DirDecision::Refuse(MergerError::Local(m)) => {
            assert_eq!(m, "path /nonexistent/checkout does not exist, and clone was not requested")
        }
        _ => panic!("reconciliation must refuse without clone permission"),
    }
}

#[test]
fn gitdir_probe_failure_names_the_path() {
    match gitdir_error("/data/checkout") {
        MergerError::Local(m) => {
            assert_eq!(m, "/data/checkout does not appear to be a git directory!")
        }
        _ => panic!("wrong error kind"),
    }
}

#[test]
fn git_invocations_are_the_documented_ones() {
    assert_eq!(
        clone_args("upstream", "git@github.com:org/repo.git", "checkout"),
        vec!["clone", "--recursive", "-o", "upstream", "git@github.com:org/repo.git", "checkout"]
    );
    assert_eq!(rev_parse_args(), vec!["rev-parse", "--show-toplevel"]);
    assert_eq!(remote_list_args(), vec!["remote", "-v"]);
    assert_eq!(
        remote_add_args("upstream", "git@github.com:org/repo.git"),
        vec!["remote", "add", "upstream", "git@github.com:org/repo.git"]
    );
}

#[test]
fn listing_parses_fetch_lines_only() {
    let out = "origin\tgit@github.com:org/repo.git (fetch)\n\
               origin\tgit@github.com:org/repo.git (push)\n\
               lab\tgit@gitlab.example:group/project.git (fetch)\n\
               lab\tgit@gitlab.example:group/project.git (push)";
    let have = parse_remotes(out);
    assert_eq!(have.len(), 2);
    assert_eq!(have[0].0, "origin");
    assert_eq!(have[0].1, "git@github.com:org/repo.git");
    assert_eq!(have[1].0, "lab");
    assert_eq!(have[1].1, "git@gitlab.example:group/project.git");
}

#[test]
fn empty_listing_parses_to_nothing() {
    assert_eq!(parse_remotes("").len(), 0);
    assert_eq!(parse_remotes("\n").len(), 0);
}

#[test]
fn matching_remote_is_a_no_op() {
    let have = vec![("origin".to_string(), "urlA".to_string())];
    assert!(matches!(reconcile_remote("origin", "urlA", &have), RemoteAction::Keep));
}

#[test]
fn differing_remote_is_a_mismatch() {
    let have = vec![("origin".to_string(), "urlA".to_string())];
    match reconcile_remote("origin", "urlB", &have) {
        RemoteAction::Mismatch(MergerError::Config(m)) => {
            assert_eq!(m, "mismatched remote origin: have urlA, want urlB")
        }
        _ => panic!("a differing URL must be a mismatch"),
    }
}

#[test]
fn absent_remote_is_added() {
    let have = vec![("other".to_string(), "urlA".to_string())];
    assert!(matches!(reconcile_remote("origin", "urlA", &have), RemoteAction::Add));
    let none: Vec<(String, String)> = Vec::new();
    assert!(matches!(reconcile_remote("origin", "urlA", &none), RemoteAction::Add));
}
