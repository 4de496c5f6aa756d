//! The Remote abstraction: one configured code-hosting endpoint, GitHub or
//! GitLab. Both variants expose the same capabilities: identity, read-only
//! configuration, the authentication headers their HTTP client must send,
//! and lazy, memoized clone-URL resolution.
//!
//! No network traffic happens here. A remote says which URL to fetch
//! (`clone_url_request`) and interprets the body the shell fetched
//! (`clone_url_finish`), caching the result so that at most one request is
//! ever asked for.

use vstd::prelude::*;
use crate::config::RemoteConfig;
use crate::errors::MergerError;
use crate::errors::MergerResult;
use crate::json::extract_string_field;
use crate::json::json_string_field;

verus! {

/// The provider kinds a remote can have.
#[derive(Clone, Copy, PartialEq, Eq, Debug, Structural)]
pub enum Impl {
    Github,
    GitLab,
}

/// A hexadecimal digit in upper case.
pub open spec fn hex_upper(n: u8) -> char {
    if n < 10 {
        ((n + 0x30) as char)
    } else {
        ((n + 0x37) as char)
    }
}

/// Whether a byte is an ASCII letter or digit, the only bytes the encoding
/// passes through.
pub open spec fn is_ascii_alnum_byte(b: u8) -> bool {
    (0x30 <= b && b <= 0x39) || (0x41 <= b && b <= 0x5A) || (0x61 <= b && b <= 0x7A)
}

/// The percent-encoding of one byte: kept if alphanumeric ASCII, a `%XX`
/// escape with uppercase hex digits otherwise.
pub open spec fn pct_byte(b: u8) -> Seq<char> {
    if is_ascii_alnum_byte(b) {
        seq![b as char]
    } else {
        seq!['%', hex_upper(b / 16), hex_upper(b % 16)]
    }
}

/// The percent-encoding of a byte sequence, byte for byte.
pub open spec fn pct_encoded_bytes(bs: Seq<u8>) -> Seq<char>
    decreases bs.len(),
{
    if bs.len() == 0 {
        Seq::empty()
    } else {
        pct_byte(bs[0]) + pct_encoded_bytes(bs.drop_first())
    }
}

/// Relies on `percent_encoding::utf8_percent_encode` with the
/// `NON_ALPHANUMERIC` set: every UTF-8 byte of the input that is not an
/// ASCII letter or digit becomes a `%XX` escape with uppercase hexadecimal
/// digits; letters and digits pass through unchanged.
#[verifier::external_body]
fn percent_encode_all_special(s: &str) -> (r: String)
    ensures
        r@ == pct_encoded_bytes(vstd::utf8::encode_utf8(s@)),
{
    percent_encoding::utf8_percent_encode(s, percent_encoding::NON_ALPHANUMERIC).to_string()
}

/// The headers a GitHub client authenticates with.
pub open spec fn github_headers(key: Seq<char>) -> Seq<(Seq<char>, Seq<char>)> {
    seq![
        ("Authorization"@, "token "@ + key),
        ("Accept"@, "application/vnd.github.v3+json"@),
    ]
}

/// The headers a GitLab client authenticates with.
pub open spec fn gitlab_headers(key: Seq<char>) -> Seq<(Seq<char>, Seq<char>)> {
    seq![("Private-Token"@, key)]
}

/// The headers for a provider kind and an already-resolved key.
pub open spec fn headers_for(kind: Impl, key: Seq<char>) -> Seq<(Seq<char>, Seq<char>)> {
    match kind {
        Impl::Github => github_headers(key),
        Impl::GitLab => gitlab_headers(key),
    }
}

/// The repository endpoint a GitHub remote fetches its project record from.
pub open spec fn github_repo_uri(cfg: RemoteConfig, part: Seq<char>) -> Seq<char> {
    cfg.api_url@ + "/repos/"@ + cfg.repo@ + part
}

/// The repository endpoint a GitLab remote fetches its project record from;
/// the repository identifier is percent-encoded since it may contain `/`.
pub open spec fn gitlab_repo_uri(cfg: RemoteConfig, part: Seq<char>) -> Seq<char> {
    cfg.api_url@ + "/projects/"@ + pct_encoded_bytes(vstd::utf8::encode_utf8(cfg.repo@)) + part
}

/// The error text when a provider's response carries no usable field.
pub open spec fn bad_body_message(field: Seq<char>) -> Seq<char> {
    "provider response carried no string field "@ + field
}

pub open spec fn view_of_headers(h: Seq<(String, String)>) -> Seq<(Seq<char>, Seq<char>)> {
    h.map_values(|p: (String, String)| (p.0@, p.1@))
}

fn build_error(field: &str) -> (e: MergerError)
    ensures
        e matches MergerError::Http(m) && m@ == bad_body_message(field@),
{
    let mut m = String::from_str("provider response carried no string field ");
    m.append(field);
    MergerError::Http(m)
}

// GitHub
// ------

/// A GitHub endpoint with its write-once clone-URL cache.
pub struct Github {
    name: String,
    config: RemoteConfig,
    headers: Vec<(String, String)>,
    clone_url: Option<String>,
}

impl Github {
    /// The remote's registry name.
    pub closed spec fn spec_name(&self) -> Seq<char> {
        self.name@
    }

    /// The remote's configuration.
    pub closed spec fn spec_config(&self) -> RemoteConfig {
        self.config
    }

    /// The authentication headers the remote's HTTP client sends.
    pub closed spec fn spec_headers(&self) -> Seq<(Seq<char>, Seq<char>)> {
        view_of_headers(self.headers@)
    }

    /// The memoized clone URL, if already resolved.
    pub closed spec fn spec_cached(&self) -> Option<Seq<char>> {
        match self.clone_url {
            Some(u) => Some(u@),
            None => None,
        }
    }

    /// A remote named `name` over `cfg`, its cache empty, its client
    /// authenticating with `token <key>` and the versioned Accept header.
    pub fn new(name: &str, cfg: &RemoteConfig) -> (r: Self)
        ensures
            r.spec_name() == name@,
            r.spec_config() == *cfg,
            r.spec_cached() is None,
            r.spec_headers() == github_headers(cfg.api_key@),
    {
        let mut headers: Vec<(String, String)> = Vec::new();
        headers.push(
            (String::from_str("Authorization"), String::from_str("token ").concat(
                cfg.api_key.as_str(),
            )),
        );
        headers.push(
            (String::from_str("Accept"), String::from_str("application/vnd.github.v3+json")),
        );
        let r = Github {
            name: name.to_owned(),
            config: cfg.duplicate(),
            headers,
            clone_url: None,
        };
        proof {
            assert(r.spec_headers() =~= github_headers(cfg.api_key@));
        }
        r
    }

    fn uri_for(&self, part: &str) -> (r: String)
        ensures
            r@ == github_repo_uri(self.spec_config(), part@),
    {
        self.config.api_url.clone().concat("/repos/").concat(self.config.repo.as_str()).concat(
            part,
        )
    }

    /// The registry name.
    pub fn name(&self) -> (r: &str)
        ensures
            r@ == self.spec_name(),
    {
        self.name.as_str()
    }

    /// Read-only access to the configuration.
    pub fn config(&self) -> (r: &RemoteConfig)
        ensures
            *r == self.spec_config(),
    {
        &self.config
    }

    /// The headers the shell's HTTP client must send for this remote.
    pub fn headers(&self) -> (r: &Vec<(String, String)>)
        ensures
            view_of_headers(r@) == self.spec_headers(),
    {
        &self.headers
    }

    /// The cached clone URL, if resolution already happened.
    pub fn cached_clone_url(&self) -> (r: Option<&String>)
        ensures
            match r {
                Some(u) => self.spec_cached() == Some(u@),
                None => self.spec_cached() is None,
            },
    {
        self.clone_url.as_ref()
    }

    /// The URL to fetch for clone-URL resolution, or nothing when the cache
    /// already holds the answer: a second request is never asked for.
    pub fn clone_url_request(&self) -> (r: Option<String>)
        ensures
            match r {
                Some(u) => self.spec_cached() is None && u@ == github_repo_uri(
                    self.spec_config(),
                    ""@,
                ),
                None => self.spec_cached() is Some,
            },
    {
        match &self.clone_url {
            Some(_) => None,
            None => Some(self.uri_for("")),
        }
    }

    /// Reads the `ssh_url` field out of the fetched project record and
    /// memoizes it; a body without such a field is a protocol error and
    /// leaves the cache empty.
    pub fn clone_url_finish(&mut self, body: &str) -> (r: MergerResult<String>)
        ensures
            final(self).spec_name() == old(self).spec_name(),
            final(self).spec_config() == old(self).spec_config(),
            final(self).spec_headers() == old(self).spec_headers(),
            match json_string_field(body@, "ssh_url"@) {
                Some(v) => {
                    &&& r matches Ok(u) && u@ == v
                    &&& final(self).spec_cached() == Some(v)
                },
                None => {
                    &&& r matches Err(MergerError::Http(m)) && m@ == bad_body_message("ssh_url"@)
                    &&& final(self).spec_cached() == old(self).spec_cached()
                },
            },
    {
        match extract_string_field(body, "ssh_url") {
            Some(url) => {
                self.clone_url = Some(url.clone());
                Ok(url)
            },
            None => Err(build_error("ssh_url")),
        }
    }

    /// Merge-request discovery is a future collaborator; the interface is
    /// declared so the pipeline can be wired to it later.
    pub fn get_mrs_for_label(&self) {
    }
}

// GitLab
// ------

/// A GitLab endpoint with its write-once clone-URL cache.
pub struct GitLab {
    name: String,
    config: RemoteConfig,
    headers: Vec<(String, String)>,
    clone_url: Option<String>,
}

impl GitLab {
    /// The remote's registry name.
    pub closed spec fn spec_name(&self) -> Seq<char> {
        self.name@
    }

    /// The remote's configuration.
    pub closed spec fn spec_config(&self) -> RemoteConfig {
        self.config
    }

    /// The authentication headers the remote's HTTP client sends.
    pub closed spec fn spec_headers(&self) -> Seq<(Seq<char>, Seq<char>)> {
        view_of_headers(self.headers@)
    }

    /// The memoized clone URL, if already resolved.
    pub closed spec fn spec_cached(&self) -> Option<Seq<char>> {
        match self.clone_url {
            Some(u) => Some(u@),
            None => None,
        }
    }

    /// A remote named `name` over `cfg`, its cache empty, its client
    /// authenticating with a private token.
    pub fn new(name: &str, cfg: &RemoteConfig) -> (r: Self)
        ensures
            r.spec_name() == name@,
            r.spec_config() == *cfg,
            r.spec_cached() is None,
            r.spec_headers() == gitlab_headers(cfg.api_key@),
    {
        let mut headers: Vec<(String, String)> = Vec::new();
        headers.push((String::from_str("Private-Token"), cfg.api_key.clone()));
        let r = GitLab {
            name: name.to_owned(),
            config: cfg.duplicate(),
            headers,
            clone_url: None,
        };
        proof {
            assert(r.spec_headers() =~= gitlab_headers(cfg.api_key@));
        }
        r
    }

    fn uri_for(&self, part: &str) -> (r: String)
        ensures
            r@ == gitlab_repo_uri(self.spec_config(), part@),
    {
        let encoded = percent_encode_all_special(self.config.repo.as_str());
        self.config.api_url.clone().concat("/projects/").concat(encoded.as_str()).concat(part)
    }

    /// The registry name.
    pub fn name(&self) -> (r: &str)
        ensures
            r@ == self.spec_name(),
    {
        self.name.as_str()
    }

    /// Read-only access to the configuration.
    pub fn config(&self) -> (r: &RemoteConfig)
        ensures
            *r == self.spec_config(),
    {
        &self.config
    }

    /// The headers the shell's HTTP client must send for this remote.
    pub fn headers(&self) -> (r: &Vec<(String, String)>)
        ensures
            view_of_headers(r@) == self.spec_headers(),
    {
        &self.headers
    }

    /// The cached clone URL, if resolution already happened.
    pub fn cached_clone_url(&self) -> (r: Option<&String>)
        ensures
            match r {
                Some(u) => self.spec_cached() == Some(u@),
                None => self.spec_cached() is None,
            },
    {
        self.clone_url.as_ref()
    }

    /// The URL to fetch for clone-URL resolution, or nothing when the cache
    /// already holds the answer: a second request is never asked for.
    pub fn clone_url_request(&self) -> (r: Option<String>)
        ensures
            match r {
                Some(u) => self.spec_cached() is None && u@ == gitlab_repo_uri(
                    self.spec_config(),
                    ""@,
                ),
                None => self.spec_cached() is Some,
            },
    {
        match &self.clone_url {
            Some(_) => None,
            None => Some(self.uri_for("")),
        }
    }

    /// Reads the `ssh_url_to_repo` field out of the fetched project record
    /// and memoizes it; a body without such a field is a protocol error and
    /// leaves the cache empty.
    pub fn clone_url_finish(&mut self, body: &str) -> (r: MergerResult<String>)
        ensures
            final(self).spec_name() == old(self).spec_name(),
            final(self).spec_config() == old(self).spec_config(),
            final(self).spec_headers() == old(self).spec_headers(),
            match json_string_field(body@, "ssh_url_to_repo"@) {
                Some(v) => {
                    &&& r matches Ok(u) && u@ == v
                    &&& final(self).spec_cached() == Some(v)
                },
                None => {
                    &&& r matches Err(MergerError::Http(m)) && m@ == bad_body_message(
                        "ssh_url_to_repo"@,
                    )
                    &&& final(self).spec_cached() == old(self).spec_cached()
                },
            },
    {
        match extract_string_field(body, "ssh_url_to_repo") {
            Some(url) => {
                self.clone_url = Some(url.clone());
                Ok(url)
            },
            None => Err(build_error("ssh_url_to_repo")),
        }
    }

    /// Merge-request discovery is a future collaborator; the interface is
    /// declared so the pipeline can be wired to it later.
    pub fn get_mrs_for_label(&self) {
    }
}

// The polymorphic remote
// ----------------------

/// One registry entry: a GitHub or a GitLab endpoint behind one capability
/// set.
pub enum Remote {
    Github(Github),
    GitLab(GitLab),
}

impl Remote {
    /// The remote's registry name.
    pub open spec fn spec_name(&self) -> Seq<char> {
        match self {
            Remote::Github(g) => g.spec_name(),
            Remote::GitLab(g) => g.spec_name(),
        }
    }

    /// The remote's configuration.
    pub open spec fn spec_config(&self) -> RemoteConfig {
        match self {
            Remote::Github(g) => g.spec_config(),
            Remote::GitLab(g) => g.spec_config(),
        }
    }

    /// The provider kind of the variant itself.
    pub open spec fn spec_interface(&self) -> Impl {
        match self {
            Remote::Github(_) => Impl::Github,
            Remote::GitLab(_) => Impl::GitLab,
        }
    }

    /// The authentication headers the remote's HTTP client sends.
    pub open spec fn spec_headers(&self) -> Seq<(Seq<char>, Seq<char>)> {
        match self {
            Remote::Github(g) => g.spec_headers(),
            Remote::GitLab(g) => g.spec_headers(),
        }
    }

    /// The memoized clone URL, if already resolved.
    pub open spec fn spec_cached(&self) -> Option<Seq<char>> {
        match self {
            Remote::Github(g) => g.spec_cached(),
            Remote::GitLab(g) => g.spec_cached(),
        }
    }

    /// The URL the provider's project record sits at.
    pub open spec fn spec_request_uri(&self) -> Seq<char> {
        match self {
            Remote::Github(g) => github_repo_uri(g.spec_config(), ""@),
            Remote::GitLab(g) => gitlab_repo_uri(g.spec_config(), ""@),
        }
    }

    /// The JSON field the clone URL is read from: GitHub reports `ssh_url`,
    /// GitLab reports `ssh_url_to_repo`.
    pub open spec fn spec_url_field(&self) -> Seq<char> {
        match self {
            Remote::Github(_) => "ssh_url"@,
            Remote::GitLab(_) => "ssh_url_to_repo"@,
        }
    }

    /// The registry name.
    pub fn name(&self) -> (r: &str)
        ensures
            r@ == self.spec_name(),
    {
        match self {
            Remote::Github(g) => g.name(),
            Remote::GitLab(g) => g.name(),
        }
    }

    /// Read-only access to the configuration.
    pub fn config(&self) -> (r: &RemoteConfig)
        ensures
            *r == self.spec_config(),
    {
        match self {
            Remote::Github(g) => g.config(),
            Remote::GitLab(g) => g.config(),
        }
    }

    /// The headers the shell's HTTP client must send for this remote.
    pub fn headers(&self) -> (r: &Vec<(String, String)>)
        ensures
            view_of_headers(r@) == self.spec_headers(),
    {
        match self {
            Remote::Github(g) => g.headers(),
            Remote::GitLab(g) => g.headers(),
        }
    }

    /// The cached clone URL, if resolution already happened.
    pub fn cached_clone_url(&self) -> (r: Option<&String>)
        ensures
            match r {
                Some(u) => self.spec_cached() == Some(u@),
                None => self.spec_cached() is None,
            },
    {
        match self {
            Remote::Github(g) => g.cached_clone_url(),
            Remote::GitLab(g) => g.cached_clone_url(),
        }
    }

    /// The URL to fetch for clone-URL resolution, or nothing when the cache
    /// already holds the answer: a second request is never asked for.
    pub fn clone_url_request(&self) -> (r: Option<String>)
        ensures
            match r {
                Some(u) => self.spec_cached() is None && u@ == self.spec_request_uri(),
                None => self.spec_cached() is Some,
            },
    {
        match self {
            Remote::Github(g) => g.clone_url_request(),
            Remote::GitLab(g) => g.clone_url_request(),
        }
    }

    /// Reads this provider's clone-URL field out of the fetched project
    /// record and memoizes it.
    pub fn clone_url_finish(&mut self, body: &str) -> (r: MergerResult<String>)
        ensures
            final(self).spec_name() == old(self).spec_name(),
            final(self).spec_config() == old(self).spec_config(),
            final(self).spec_headers() == old(self).spec_headers(),
            final(self).spec_interface() == old(self).spec_interface(),
            match json_string_field(body@, old(self).spec_url_field()) {
                Some(v) => {
                    &&& r matches Ok(u) && u@ == v
                    &&& final(self).spec_cached() == Some(v)
                },
                None => {
                    &&& r matches Err(MergerError::Http(m)) && m@ == bad_body_message(
                        old(self).spec_url_field(),
                    )
                    &&& final(self).spec_cached() == old(self).spec_cached()
                },
            },
    {
        match self {
            Remote::Github(g) => g.clone_url_finish(body),
            Remote::GitLab(g) => g.clone_url_finish(body),
        }
    }

    /// Merge-request discovery is a future collaborator; the interface is
    /// declared so the pipeline can be wired to it later.
    pub fn get_mrs_for_label(&self) {
        match self {
            Remote::Github(g) => g.get_mrs_for_label(),
            Remote::GitLab(g) => g.get_mrs_for_label(),
        }
    }
}

/// A live remote of the kind the configuration names, with an empty cache.
pub fn make_remote(name: &str, cfg: &RemoteConfig) -> (r: Remote)
    ensures
        r.spec_name() == name@,
        r.spec_interface() == cfg.interface,
        r.spec_config() == *cfg,
        r.spec_cached() is None,
        r.spec_headers() == headers_for(cfg.interface, cfg.api_key@),
{
    match cfg.interface {
        Impl::Github => Remote::Github(Github::new(name, cfg)),
        Impl::GitLab => Remote::GitLab(GitLab::new(name, cfg)),
    }
}

} // verus!
