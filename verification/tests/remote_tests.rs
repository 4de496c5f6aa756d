use rustmergency::config::RemoteConfig;
use rustmergency::errors::MergerError;
use rustmergency::remote::{make_remote, GitLab, Github, Impl, Remote};

fn github_cfg() -> RemoteConfig {
    RemoteConfig {
        interface: Impl::Github,
        api_url: "https://api.github.com".to_string(),
        api_key: "k1".to_string(),
        repo: "org/repo".to_string(),
    }
}

fn gitlab_cfg() -> RemoteConfig {
    RemoteConfig {
        interface: Impl::GitLab,
        api_url: "https://gitlab.example/api/v4".to_string(),
        api_key: "k2".to_string(),
        repo: "group/project".to_string(),
    }
}

#[test]
fn github_clone_url_resolves_once() {
    let mut r = Remote::Github(Github::new("upstream", &github_cfg()));
    assert!(r.cached_clone_url().is_none());
    let req = r.clone_url_request();
    assert_eq!(req.unwrap(), "https://api.github.com/repos/org/repo");
    let body = "{\"id\": 1, \"ssh_url\": \"git@github.com:org/repo.git\", \"fork\": false}";
    let url = r.clone_url_finish(body).unwrap();
    assert_eq!(url, "git@github.com:org/repo.git");
    // the answer is memoized: no second request is asked for
    assert!(r.clone_url_request().is_none());
    assert_eq!(r.cached_clone_url().unwrap(), "git@github.com:org/repo.git");
}

#[test]
fn gitlab_clone_url_reads_its_own_field() {
    let mut r = Remote::GitLab(GitLab::new("lab", &gitlab_cfg()));
    let body = "{\"ssh_url_to_repo\": \"git@gitlab.example:group/project.git\", \"id\": 7}";
    let url = r.clone_url_finish(body).unwrap();
    assert_eq!(url, "git@gitlab.example:group/project.git");
    assert!(r.clone_url_request().is_none());
}

#[test]
fn gitlab_request_percent_encodes_the_repo() {
    let r = Remote::GitLab(GitLab::new("lab", &gitlab_cfg()));
    let req = r.clone_url_request().unwrap();
    assert_eq!(req, "https://gitlab.example/api/v4/projects/group%2Fproject");
}

#[test]
fn github_body_without_field_is_an_http_error() {
    let mut r = Remote::Github(Github::new("upstream", &github_cfg()));
    let body = "{\"id\": 1, \"clone_url\": \"https://github.com/org/repo.git\"}";
    match r.clone_url_finish(body) {
        Err(MergerError::Http(m)) => {
            assert_eq!(m, "provider response carried no string field ssh_url")
        }
        _ => panic!("a body without the field must fail"),
    }
    // nothing was cached, the request is still owed
    assert!(r.clone_url_request().is_some());
}

#[test]
fn github_headers_carry_token_and_accept() {
    let g = Github::new("upstream", &github_cfg());
    let h = g.headers();
    assert_eq!(h.len(), 2);
    assert_eq!(h[0].0, "Authorization");
    assert_eq!(h[0].1, "token k1");
    assert_eq!(h[1].0, "Accept");
    assert_eq!(h[1].1, "application/vnd.github.v3+json");
}

#[test]
fn gitlab_headers_carry_private_token() {
    let g = GitLab::new("lab", &gitlab_cfg());
    let h = g.headers();
    assert_eq!(h.len(), 1);
    assert_eq!(h[0].0, "Private-Token");
    assert_eq!(h[0].1, "k2");
}

#[test]
fn make_remote_picks_the_configured_kind() {
    let gh = make_remote("a", &github_cfg());
    let gl = make_remote("b", &gitlab_cfg());
    assert!(matches!(gh, Remote::Github(_)));
    assert!(matches!(gl, Remote::GitLab(_)));
    assert_eq!(gh.name(), "a");
    assert_eq!(gl.name(), "b");
    assert_eq!(gh.config().repo, "org/repo");
}
