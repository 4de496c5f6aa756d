use rustmergency::config::{Config, LocalConfig, RawConfig, RawMetaConfig, RemoteConfig, StepConfig};
use rustmergency::errors::MergerError;
use rustmergency::remote::Impl;

fn remote_cfg(interface: Impl, api_url: &str, api_key: &str, repo: &str) -> RemoteConfig {
    RemoteConfig {
        interface,
        api_url: api_url.to_string(),
        api_key: api_key.to_string(),
        repo: repo.to_string(),
    }
}

fn step_cfg(name: &str, remote: &str) -> StepConfig {
    StepConfig {
        name: name.to_string(),
        remote: remote.to_string(),
        label: "ready-to-merge".to_string(),
        trusted_org: None,
        tag_format: None,
        push_tag_to: None,
    }
}

fn raw(remotes: Vec<(String, RemoteConfig)>, steps: Vec<StepConfig>, upstream_base: &str) -> RawConfig {
    RawConfig {
        local: LocalConfig {
            path: "/tmp/checkout".to_string(),
            target_branch: "build".to_string(),
            upstream_base: upstream_base.to_string(),
            should_clone: false,
        },
        meta: RawMetaConfig {
            committer_name: None,
            committer_email: "release@example.com".to_string(),
        },
        remotes,
        build_steps: steps,
    }
}

fn one_github() -> Vec<(String, RemoteConfig)> {
    vec![(
        "origin".to_string(),
        remote_cfg(Impl::Github, "https://api.github.com", "k1", "org/repo"),
    )]
}

#[test]
fn load_succeeds_on_consistent_config() {
    let r = raw(one_github(), vec![step_cfg("build", "origin")], "origin/main");
    let env: Vec<(String, String)> = Vec::new();
    let c = Config::new(r, &env).unwrap();
    assert_eq!(c.remotes.len(), 1);
    assert_eq!(c.steps.len(), 1);
    assert_eq!(c.meta.committer_name, "Mergeotron");
    assert_eq!(c.meta.committer_email, "release@example.com");
    assert_eq!(c.local.upstream_base, "origin/main");
}

#[test]
fn load_keeps_given_committer_name() {
    let mut r = raw(one_github(), vec![], "origin/main");
    r.meta.committer_name = Some("Releaser".to_string());
    let env: Vec<(String, String)> = Vec::new();
    let c = Config::new(r, &env).unwrap();
    assert_eq!(c.meta.committer_name, "Releaser");
}

#[test]
fn step_with_unknown_remote_fails_naming_both() {
    let r = raw(one_github(), vec![step_cfg("build", "missing")], "origin/main");
    let env: Vec<(String, String)> = Vec::new();
    match Config::new(r, &env) {
        Ok(_) => panic!("load must fail"),
        Err(MergerError::Config(m)) => assert_eq!(
            m,
            "step build wants a remote named missing, but corresponding remote not found"
        ),
        Err(_) => panic!("wrong error kind"),
    }
}

#[test]
fn upstream_base_with_space_fails() {
    let r = raw(one_github(), vec![], "origin /main");
    let env: Vec<(String, String)> = Vec::new();
    match Config::new(r, &env) {
        Err(MergerError::Config(m)) => assert_eq!(m, "local.upstream_base contains spaces"),
        _ => panic!("load must fail on whitespace"),
    }
}

#[test]
fn upstream_base_with_tab_fails() {
    let r = raw(one_github(), vec![], "origin\tmain/x");
    let env: Vec<(String, String)> = Vec::new();
    match Config::new(r, &env) {
        Err(MergerError::Config(m)) => assert_eq!(m, "local.upstream_base contains spaces"),
        _ => panic!("load must fail on whitespace"),
    }
}

#[test]
fn target_branch_with_space_fails() {
    let mut r = raw(one_github(), vec![], "origin/main");
    r.local.target_branch = "my branch".to_string();
    let env: Vec<(String, String)> = Vec::new();
    match Config::new(r, &env) {
        Err(MergerError::Config(m)) => assert_eq!(m, "target_branch contains spaces"),
        _ => panic!("load must fail on whitespace"),
    }
}

#[test]
fn upstream_base_without_separator_fails() {
    let r = raw(one_github(), vec![], "origin");
    let env: Vec<(String, String)> = Vec::new();
    match Config::new(r, &env) {
        Err(MergerError::Config(m)) => {
            assert_eq!(m, "local.upstream_base must have exactly one slash")
        }
        _ => panic!("load must fail on a missing separator"),
    }
}

#[test]
fn upstream_base_with_two_separators_fails() {
    let r = raw(one_github(), vec![], "origin/main/extra");
    let env: Vec<(String, String)> = Vec::new();
    match Config::new(r, &env) {
        Err(MergerError::Config(m)) => {
            assert_eq!(m, "local.upstream_base must have exactly one slash")
        }
        _ => panic!("load must fail on two separators"),
    }
}

#[test]
fn upstream_base_with_unknown_remote_fails() {
    let r = raw(one_github(), vec![], "upstream/main");
    let env: Vec<(String, String)> = Vec::new();
    match Config::new(r, &env) {
        Err(MergerError::Config(m)) => assert_eq!(
            m,
            "local.upstream_base wants remote named upstream, which was not found"
        ),
        _ => panic!("load must fail on an unknown upstream remote"),
    }
}

#[test]
fn env_indirected_key_resolves() {
    let remotes = vec![(
        "origin".to_string(),
        remote_cfg(Impl::Github, "https://api.github.com", "ENV:FOO", "org/repo"),
    )];
    let r = raw(remotes, vec![], "origin/main");
    let env = vec![("FOO".to_string(), "secret".to_string())];
    let c = Config::new(r, &env).unwrap();
    assert_eq!(c.remotes[0].config().api_key, "secret");
}

#[test]
fn env_indirected_key_missing_fails_naming_both() {
    let remotes = vec![(
        "origin".to_string(),
        remote_cfg(Impl::Github, "https://api.github.com", "ENV:FOO", "org/repo"),
    )];
    let r = raw(remotes, vec![], "origin/main");
    let env: Vec<(String, String)> = Vec::new();
    match Config::new(r, &env) {
        Err(MergerError::Config(m)) => assert_eq!(
            m,
            "remote origin wants an environment variable named FOO, which was not found"
        ),
        _ => panic!("load must fail on the missing variable"),
    }
}

#[test]
fn plain_key_is_kept() {
    let r = raw(one_github(), vec![], "origin/main");
    let env = vec![("FOO".to_string(), "secret".to_string())];
    let c = Config::new(r, &env).unwrap();
    assert_eq!(c.remotes[0].config().api_key, "k1");
}

#[test]
fn remote_named_finds_entries() {
    let mut remotes = one_github();
    remotes.push((
        "lab".to_string(),
        remote_cfg(Impl::GitLab, "https://gitlab.example/api/v4", "k2", "group/project"),
    ));
    let r = raw(remotes, vec![], "origin/main");
    let env: Vec<(String, String)> = Vec::new();
    let c = Config::new(r, &env).unwrap();
    assert!(c.remote_named("origin").is_some());
    assert!(c.remote_named("lab").is_some());
    assert!(c.remote_named("nope").is_none());
    assert_eq!(c.all_remotes().len(), 2);
}

#[test]
fn upstream_accessors_split_the_base() {
    let local = LocalConfig {
        path: "/tmp/co".to_string(),
        target_branch: "build".to_string(),
        upstream_base: "upstream/main".to_string(),
        should_clone: true,
    };
    assert_eq!(local.upstream_remote_name(), "upstream");
    assert_eq!(local._upstream_branch_name(), "main");
}

#[test]
fn build_step_copies_its_config() {
    let mut sc = step_cfg("build", "origin");
    sc.trusted_org = Some("the-org".to_string());
    sc.tag_format = Some("release-%Y%m%d".to_string());
    sc.push_tag_to = Some("origin".to_string());
    let step = rustmergency::step::BuildStep::new(&sc);
    assert_eq!(step.config.name, "build");
    assert_eq!(step.config.remote, "origin");
    assert_eq!(step.config.label, "ready-to-merge");
    assert_eq!(step.config.trusted_org.as_deref(), Some("the-org"));
    assert_eq!(step.config.tag_format.as_deref(), Some("release-%Y%m%d"));
    assert_eq!(step.config.push_tag_to.as_deref(), Some("origin"));
}

#[test]
fn upstream_remote_resolves_through_registry() {
    let r = raw(one_github(), vec![], "origin/main");
    let env: Vec<(String, String)> = Vec::new();
    let c = Config::new(r, &env).unwrap();
    let rem = c.local.upstream_remote(&c);
    assert_eq!(rem.name(), "origin");
}
