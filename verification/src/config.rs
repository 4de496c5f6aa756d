//! Configuration: the value types read from the configuration file, the
//! environment-indirected secret resolution, and the cross-validation that
//! turns a raw file image into a live, internally consistent [`Config`].
//!
//! No side effect happens here. The shell parses the file into [`RawConfig`]
//! and collects the process environment into a list of pairs; everything
//! after that is verified logic.

use vstd::prelude::*;
use crate::errors::MergerError;
use crate::errors::MergerResult;
use crate::remote::Impl;
use crate::remote::Remote;
use crate::remote::headers_for;
use crate::remote::make_remote;
use crate::step::BuildStep;
use crate::text::contains_char;
use crate::text::count_char;
use crate::text::first_index_of;
use crate::text::has_space;
use crate::text::lemma_count_char_contains;
use crate::text::lemma_first_index_of_properties;
use crate::text::str_count_char;
use crate::text::str_eq;
use crate::text::str_find_char;
use crate::text::str_has_prefix;
use crate::text::str_has_space;
use crate::text::str_prefix_to;
use crate::text::str_suffix_from;

verus! {

/// Committer identity written into merges.
pub struct MetaConfig {
    pub committer_name: String,
    pub committer_email: String,
}

/// The local working copy: where it lives, what it merges onto, and whether
/// it may be created by cloning.
pub struct LocalConfig {
    pub path: String,
    pub target_branch: String,
    pub upstream_base: String,
    pub should_clone: bool,
}

/// One code-hosting endpoint as configured: provider kind, API base URL,
/// API key (possibly environment-indirected until resolved), repository
/// identifier.
pub struct RemoteConfig {
    pub interface: Impl,
    pub api_url: String,
    pub api_key: String,
    pub repo: String,
}

/// One build step as configured; its `remote` names an entry of the registry.
pub struct StepConfig {
    pub name: String,
    pub remote: String,
    pub label: String,
    pub trusted_org: Option<String>,
    pub tag_format: Option<String>,
    pub push_tag_to: Option<String>,
}

/// The configuration file as parsed, before resolution and validation.
pub struct RawMetaConfig {
    pub committer_name: Option<String>,
    pub committer_email: String,
}

/// The whole file image: sections `local` and `meta`, the named `remote`
/// tables in file order, and the ordered `build_steps` list.
pub struct RawConfig {
    pub local: LocalConfig,
    pub meta: RawMetaConfig,
    pub remotes: Vec<(String, RemoteConfig)>,
    pub build_steps: Vec<StepConfig>,
}

/// A copy of an optional string.
pub fn clone_opt_string(o: &Option<String>) -> (r: Option<String>)
    ensures
        r == *o,
{
    match o {
        Some(s) => Some(s.clone()),
        None => None,
    }
}

impl RemoteConfig {
    /// A field-for-field copy.
    pub fn duplicate(&self) -> (r: Self)
        ensures
            r == *self,
    {
        RemoteConfig {
            interface: self.interface,
            api_url: self.api_url.clone(),
            api_key: self.api_key.clone(),
            repo: self.repo.clone(),
        }
    }
}

impl StepConfig {
    /// A field-for-field copy.
    pub fn duplicate(&self) -> (r: Self)
        ensures
            r == *self,
    {
        StepConfig {
            name: self.name.clone(),
            remote: self.remote.clone(),
            label: self.label.clone(),
            trusted_org: clone_opt_string(&self.trusted_org),
            tag_format: clone_opt_string(&self.tag_format),
            push_tag_to: clone_opt_string(&self.push_tag_to),
        }
    }
}

/// The value of variable `name` in the environment snapshot `env`, taking
/// the first binding when a name repeats.
pub open spec fn env_lookup(env: Seq<(String, String)>, name: Seq<char>) -> Option<Seq<char>>
    decreases env.len(),
{
    if env.len() == 0 {
        None
    } else if env[0].0@ == name {
        Some(env[0].1@)
    } else {
        env_lookup(env.drop_first(), name)
    }
}

/// Whether an API key asks for an environment variable.
pub open spec fn is_env_indirect(key: Seq<char>) -> bool {
    key.len() >= 4 && key.take(4) == "ENV:"@
}

/// The variable a key of literal form `ENV:<NAME>` asks for.
pub open spec fn env_var_of(key: Seq<char>) -> Seq<char> {
    key.skip(4)
}

/// The error text when a remote's environment variable is missing.
pub open spec fn missing_env_message(name: Seq<char>, var: Seq<char>) -> Seq<char> {
    "remote "@ + name + " wants an environment variable named "@ + var + ", which was not found"@
}

fn lookup_env(env: &Vec<(String, String)>, name: &str) -> (r: Option<String>)
    ensures
        match r {
            Some(v) => env_lookup(env@, name@) == Some(v@),
            None => env_lookup(env@, name@) is None,
        },
{
    let n = env.len();
    let mut i: usize = 0;
    proof {
        assert(env@.skip(0) =~= env@);
    }
    while i < n
        invariant
            n == env@.len(),
            i <= n,
            env_lookup(env@.skip(i as int), name@) == env_lookup(env@, name@),
        decreases n - i,
    {
        proof {
            assert(env@.skip(i as int).drop_first() =~= env@.skip(i + 1));
            assert(env@.skip(i as int)[0] == env@[i as int]);
        }
        if str_eq(env[i].0.as_str(), name) {
            return Some(env[i].1.clone());
        }
        i += 1;
    }
    proof {
        assert(env@.skip(n as int) =~= Seq::<(String, String)>::empty());
    }
    None
}

impl RemoteConfig {
    /// Resolves an environment-indirected API key against the environment
    /// snapshot, failing with the remote's and the variable's name when the
    /// variable is absent; a plain key is kept as it is.
    pub fn assert_ok(&mut self, name: &str, env: &Vec<(String, String)>) -> (r: MergerResult<()>)
        ensures
            !is_env_indirect(old(self).api_key@) ==> r is Ok && *final(self) == *old(self),
            is_env_indirect(old(self).api_key@) ==> match env_lookup(
                env@,
                env_var_of(old(self).api_key@),
            ) {
                Some(v) => {
                    &&& r is Ok
                    &&& final(self).api_key@ == v
                    &&& final(self).interface == old(self).interface
                    &&& final(self).api_url == old(self).api_url
                    &&& final(self).repo == old(self).repo
                },
                None => {
                    &&& r matches Err(MergerError::Config(m)) && m@ == missing_env_message(
                        name@,
                        env_var_of(old(self).api_key@),
                    )
                    &&& *final(self) == *old(self)
                },
            },
    {
        proof {
            reveal_strlit("ENV:");
        }
        if str_has_prefix(self.api_key.as_str(), "ENV:") {
            let want = str_suffix_from(self.api_key.as_str(), 4).to_owned();
            match lookup_env(env, want.as_str()) {
                Some(v) => {
                    self.api_key = v;
                    Ok(())
                },
                None => {
                    let mut m = String::from_str("remote ");
                    m.append(name);
                    m.append(" wants an environment variable named ");
                    m.append(want.as_str());
                    m.append(", which was not found");
                    Err(MergerError::Config(m))
                },
            }
        } else {
            Ok(())
        }
    }
}

/// The remote-name component of an upstream base: what stands before the
/// first separator, or the whole value when there is none.
pub open spec fn upstream_name_of(ub: Seq<char>) -> Seq<char> {
    if contains_char(ub, '/') {
        ub.take(first_index_of(ub, '/'))
    } else {
        ub
    }
}

/// The branch component of an upstream base with exactly one separator.
pub open spec fn upstream_branch_of(ub: Seq<char>) -> Seq<char> {
    ub.skip(first_index_of(ub, '/') + 1)
}

/// Law: a validated upstream base splits losslessly — the remote-name
/// component, the separator and the branch component recompose it, which is
/// what lets the two accessors be used in place of the whole value.
pub proof fn lemma_upstream_base_splits(ub: Seq<char>)
    requires
        count_char(ub, '/') == 1,
    ensures
        upstream_name_of(ub) + seq!['/'] + upstream_branch_of(ub) == ub,
{
    lemma_count_char_contains(ub, '/');
    lemma_first_index_of_properties(ub, '/');
    assert(upstream_name_of(ub) + seq!['/'] + upstream_branch_of(ub) =~= ub);
}

impl LocalConfig {
    /// The name of the remote the upstream base points at.
    pub fn upstream_remote_name(&self) -> (r: &str)
        ensures
            r@ == upstream_name_of(self.upstream_base@),
    {
        proof {
            lemma_first_index_of_properties(self.upstream_base@, '/');
        }
        match str_find_char(self.upstream_base.as_str(), '/') {
            Some(i) => str_prefix_to(self.upstream_base.as_str(), i),
            None => self.upstream_base.as_str(),
        }
    }

    /// The branch the upstream base points at.
    pub fn _upstream_branch_name(&self) -> (r: &str)
        requires
            count_char(self.upstream_base@, '/') == 1,
        ensures
            r@ == upstream_branch_of(self.upstream_base@),
    {
        proof {
            lemma_count_char_contains(self.upstream_base@, '/');
            lemma_first_index_of_properties(self.upstream_base@, '/');
        }
        let ub = self.upstream_base.as_str();
        let _n = ub.unicode_len();
        match str_find_char(ub, '/') {
            Some(i) => str_suffix_from(ub, i + 1),
            None => ub,
        }
    }
}

// The registry and the validated aggregate
// ----------------------------------------

/// Whether the registry holds a remote of the given name.
pub open spec fn registry_has(remotes: Seq<Remote>, name: Seq<char>) -> bool {
    exists|i: int| 0 <= i < remotes.len() && remotes[i].spec_name() == name
}

/// Whether the raw remote tables hold an entry of the given name.
pub open spec fn names_has(entries: Seq<(String, RemoteConfig)>, name: Seq<char>) -> bool {
    exists|i: int| 0 <= i < entries.len() && entries[i].0@ == name
}

/// Whether an API key can be resolved against the environment snapshot.
pub open spec fn resolves(key: Seq<char>, env: Seq<(String, String)>) -> bool {
    is_env_indirect(key) ==> env_lookup(env, env_var_of(key)) is Some
}

/// The key after environment resolution.
pub open spec fn resolved_key(key: Seq<char>, env: Seq<(String, String)>) -> Seq<char> {
    if is_env_indirect(key) {
        match env_lookup(env, env_var_of(key)) {
            Some(v) => v,
            None => key,
        }
    } else {
        key
    }
}

/// How a live remote relates to the raw entry it was built from: same name,
/// the provider kind the entry asks for, the entry's settings with the key
/// resolved, an empty clone-URL cache, and that provider's auth headers.
pub open spec fn remote_from_entry(
    r: Remote,
    name: Seq<char>,
    cfg: RemoteConfig,
    env: Seq<(String, String)>,
) -> bool {
    &&& r.spec_name() == name
    &&& r.spec_interface() == cfg.interface
    &&& r.spec_config().interface == cfg.interface
    &&& r.spec_config().api_url == cfg.api_url
    &&& r.spec_config().repo == cfg.repo
    &&& r.spec_config().api_key@ == resolved_key(cfg.api_key@, env)
    &&& r.spec_cached() is None
    &&& r.spec_headers() == headers_for(cfg.interface, resolved_key(cfg.api_key@, env))
}

/// The error text when a build step names a remote the registry lacks.
pub open spec fn step_missing_remote_message(step: Seq<char>, remote: Seq<char>) -> Seq<char> {
    "step "@ + step + " wants a remote named "@ + remote
        + ", but corresponding remote not found"@
}

/// The error text when the upstream base names a remote the registry lacks.
pub open spec fn missing_upstream_message(name: Seq<char>) -> Seq<char> {
    "local.upstream_base wants remote named "@ + name + ", which was not found"@
}

/// Whether the registry holds a remote of the given name.
pub fn remotes_contain(remotes: &Vec<Remote>, name: &str) -> (r: bool)
    ensures
        r == registry_has(remotes@, name@),
{
    let n = remotes.len();
    let mut i: usize = 0;
    while i < n
        invariant
            n == remotes@.len(),
            i <= n,
            forall|j: int| 0 <= j < i ==> remotes@[j].spec_name() != name@,
        decreases n - i,
    {
        if str_eq(remotes[i].name(), name) {
            return true;
        }
        i += 1;
    }
    false
}

/// A registry built positionally from entries is searched by the entries'
/// names.
proof fn lemma_registry_matches_names(
    remotes: Seq<Remote>,
    entries: Seq<(String, RemoteConfig)>,
    env: Seq<(String, String)>,
    name: Seq<char>,
)
    requires
        remotes.len() == entries.len(),
        forall|k: int| 0 <= k < entries.len() ==> #[trigger] remote_from_entry(
            remotes[k],
            entries[k].0@,
            entries[k].1,
            env,
        ),
    ensures
        registry_has(remotes, name) <==> names_has(entries, name),
{
    if registry_has(remotes, name) {
        let i = choose|i: int| 0 <= i < remotes.len() && remotes[i].spec_name() == name;
        assert(remote_from_entry(remotes[i], entries[i].0@, entries[i].1, env));
        assert(entries[i].0@ == name);
    }
    if names_has(entries, name) {
        let i = choose|i: int| 0 <= i < entries.len() && entries[i].0@ == name;
        assert(remote_from_entry(remotes[i], entries[i].0@, entries[i].1, env));
        assert(remotes[i].spec_name() == name);
    }
}

impl RawConfig {
    /// Builds the live registry in table order. Every key is resolved before
    /// any remote is built for a later entry; the first unresolvable key
    /// fails the load, naming the remote and the variable.
    fn assemble_remotes(&self, env: &Vec<(String, String)>) -> (r: MergerResult<Vec<Remote>>)
        ensures
            match r {
                Ok(v) => {
                    &&& v@.len() == self.remotes@.len()
                    &&& forall|k: int| 0 <= k < self.remotes@.len() ==> #[trigger] remote_from_entry(
                        v@[k],
                        self.remotes@[k].0@,
                        self.remotes@[k].1,
                        env@,
                    )
                    &&& forall|k: int| 0 <= k < self.remotes@.len() ==> resolves(
                        (#[trigger] self.remotes@[k]).1.api_key@,
                        env@,
                    )
                },
                Err(e) => exists|k: int|
                    {
                        &&& 0 <= k < self.remotes@.len()
                        &&& !resolves((#[trigger] self.remotes@[k]).1.api_key@, env@)
                        &&& forall|j: int| 0 <= j < k ==> resolves(
                            (#[trigger] self.remotes@[j]).1.api_key@,
                            env@,
                        )
                        &&& e matches MergerError::Config(m) && m@ == missing_env_message(
                            self.remotes@[k].0@,
                            env_var_of(self.remotes@[k].1.api_key@),
                        )
                    },
            },
    {
        let n = self.remotes.len();
        let mut ret: Vec<Remote> = Vec::new();
        let mut k: usize = 0;
        while k < n
            invariant
                n == self.remotes@.len(),
                k <= n,
                ret@.len() == k,
                forall|t: int| 0 <= t < k ==> #[trigger] remote_from_entry(
                    ret@[t],
                    self.remotes@[t].0@,
                    self.remotes@[t].1,
                    env@,
                ),
                forall|t: int| 0 <= t < k ==> resolves(
                    (#[trigger] self.remotes@[t]).1.api_key@,
                    env@,
                ),
            decreases n - k,
        {
            let name = &self.remotes[k].0;
            let mut cfg = self.remotes[k].1.duplicate();
            match cfg.assert_ok(name.as_str(), env) {
                Ok(()) => {},
                Err(e) => {
                    return Err(e);
                },
            }
            let rem = make_remote(name.as_str(), &cfg);
            ret.push(rem);
            k += 1;
        }
        Ok(ret)
    }

    /// Checks every build step's remote reference against the registry, in
    /// list order; the first dangling reference fails the load, naming the
    /// step and the remote it wants.
    fn assemble_steps(&self, remotes: &Vec<Remote>) -> (r: MergerResult<Vec<BuildStep>>)
        ensures
            match r {
                Ok(v) => {
                    &&& v@.len() == self.build_steps@.len()
                    &&& forall|k: int| 0 <= k < self.build_steps@.len()
                        ==> (#[trigger] v@[k]).config == self.build_steps@[k]
                    &&& forall|k: int| 0 <= k < self.build_steps@.len() ==> registry_has(
                        remotes@,
                        (#[trigger] self.build_steps@[k]).remote@,
                    )
                },
                Err(e) => exists|k: int|
                    {
                        &&& 0 <= k < self.build_steps@.len()
                        &&& !registry_has(remotes@, (#[trigger] self.build_steps@[k]).remote@)
                        &&& forall|j: int| 0 <= j < k ==> registry_has(
                            remotes@,
                            (#[trigger] self.build_steps@[j]).remote@,
                        )
                        &&& e matches MergerError::Config(m) && m@ == step_missing_remote_message(
                            self.build_steps@[k].name@,
                            self.build_steps@[k].remote@,
                        )
                    },
            },
    {
        let n = self.build_steps.len();
        let mut ret: Vec<BuildStep> = Vec::new();
        let mut k: usize = 0;
        while k < n
            invariant
                n == self.build_steps@.len(),
                k <= n,
                ret@.len() == k,
                forall|t: int| 0 <= t < k ==> (#[trigger] ret@[t]).config == self.build_steps@[t],
                forall|t: int| 0 <= t < k ==> registry_has(
                    remotes@,
                    (#[trigger] self.build_steps@[t]).remote@,
                ),
            decreases n - k,
        {
            let step = &self.build_steps[k];
            if !remotes_contain(remotes, step.remote.as_str()) {
                let mut m = String::from_str("step ");
                m.append(step.name.as_str());
                m.append(" wants a remote named ");
                m.append(step.remote.as_str());
                m.append(", but corresponding remote not found");
                return Err(MergerError::Config(m));
            }
            ret.push(BuildStep::new(step));
            k += 1;
        }
        Ok(ret)
    }
}

impl LocalConfig {
    /// The format and cross-reference checks of the local section: no
    /// whitespace in the upstream base or the target branch, exactly one
    /// separator in the upstream base, and an upstream remote the registry
    /// knows. Guarantees that the upstream base splits cleanly later.
    pub fn assert_ok(&self, remotes: &Vec<Remote>) -> (r: MergerResult<()>)
        ensures
            ({
                let ub = self.upstream_base@;
                let tb = self.target_branch@;
                if has_space(ub) {
                    r matches Err(MergerError::Config(m))
                        && m@ == "local.upstream_base contains spaces"@
                } else if has_space(tb) {
                    r matches Err(MergerError::Config(m)) && m@ == "target_branch contains spaces"@
                } else if count_char(ub, '/') != 1 {
                    r matches Err(MergerError::Config(m))
                        && m@ == "local.upstream_base must have exactly one slash"@
                } else if !registry_has(remotes@, upstream_name_of(ub)) {
                    r matches Err(MergerError::Config(m)) && m@ == missing_upstream_message(
                        upstream_name_of(ub),
                    )
                } else {
                    r is Ok
                }
            }),
    {
        if str_has_space(self.upstream_base.as_str()) {
            return Err(
                MergerError::Config(String::from_str("local.upstream_base contains spaces")),
            );
        }
        if str_has_space(self.target_branch.as_str()) {
            return Err(MergerError::Config(String::from_str("target_branch contains spaces")));
        }
        if str_count_char(self.upstream_base.as_str(), '/') != 1 {
            return Err(
                MergerError::Config(
                    String::from_str("local.upstream_base must have exactly one slash"),
                ),
            );
        }
        let upstream = self.upstream_remote_name();
        if !remotes_contain(remotes, upstream) {
            let mut m = String::from_str("local.upstream_base wants remote named ");
            m.append(upstream);
            m.append(", which was not found");
            return Err(MergerError::Config(m));
        }
        Ok(())
    }
}

/// The aggregate root: the remote registry, committer identity, local
/// settings and the ordered build steps, constructed once per run and
/// read-only thereafter except the remotes' clone-URL caches.
pub struct Config {
    pub remotes: Vec<Remote>,
    pub meta: MetaConfig,
    pub local: LocalConfig,
    pub steps: Vec<BuildStep>,
}

impl Config {
    /// Cross-validates a parsed file image against the environment snapshot
    /// and assembles the live configuration: secrets resolved, every build
    /// step's remote present, the upstream base well-formed and known, the
    /// committer name defaulted. Fails fast with the first violation, before
    /// any side effect.
    pub fn new(raw: RawConfig, env: &Vec<(String, String)>) -> (r: MergerResult<Config>)
        ensures
            match r {
                Ok(c) => {
                    &&& c.remotes@.len() == raw.remotes@.len()
                    &&& forall|k: int| 0 <= k < raw.remotes@.len() ==> #[trigger] remote_from_entry(
                        c.remotes@[k],
                        raw.remotes@[k].0@,
                        raw.remotes@[k].1,
                        env@,
                    )
                    &&& c.steps@.len() == raw.build_steps@.len()
                    &&& forall|k: int| 0 <= k < raw.build_steps@.len()
                        ==> (#[trigger] c.steps@[k]).config == raw.build_steps@[k]
                    &&& forall|k: int| 0 <= k < raw.build_steps@.len() ==> names_has(
                        raw.remotes@,
                        (#[trigger] raw.build_steps@[k]).remote@,
                    )
                    &&& c.local == raw.local
                    &&& !has_space(raw.local.upstream_base@)
                    &&& !has_space(raw.local.target_branch@)
                    &&& count_char(raw.local.upstream_base@, '/') == 1
                    &&& registry_has(c.remotes@, upstream_name_of(raw.local.upstream_base@))
                    &&& c.meta.committer_email == raw.meta.committer_email
                    &&& match raw.meta.committer_name {
                        Some(n) => c.meta.committer_name == n,
                        None => c.meta.committer_name@ == "Mergeotron"@,
                    }
                },
                Err(e) => {
                    ||| exists|k: int|
                        {
                            &&& 0 <= k < raw.remotes@.len()
                            &&& !resolves((#[trigger] raw.remotes@[k]).1.api_key@, env@)
                            &&& e matches MergerError::Config(m) && m@ == missing_env_message(
                                raw.remotes@[k].0@,
                                env_var_of(raw.remotes@[k].1.api_key@),
                            )
                        }
                    ||| exists|k: int|
                        {
                            &&& 0 <= k < raw.build_steps@.len()
                            &&& !names_has(raw.remotes@, (#[trigger] raw.build_steps@[k]).remote@)
                            &&& e matches MergerError::Config(m) && m@
                                == step_missing_remote_message(
                                raw.build_steps@[k].name@,
                                raw.build_steps@[k].remote@,
                            )
                        }
                    ||| ({
                        let ub = raw.local.upstream_base@;
                        let tb = raw.local.target_branch@;
                        if has_space(ub) {
                            e matches MergerError::Config(m)
                                && m@ == "local.upstream_base contains spaces"@
                        } else if has_space(tb) {
                            e matches MergerError::Config(m)
                                && m@ == "target_branch contains spaces"@
                        } else if count_char(ub, '/') != 1 {
                            e matches MergerError::Config(m)
                                && m@ == "local.upstream_base must have exactly one slash"@
                        } else {
                            !names_has(raw.remotes@, upstream_name_of(ub)) && (e matches
                            MergerError::Config(m) && m@ == missing_upstream_message(
                                upstream_name_of(ub),
                            ))
                        }
                    })
                },
            },
    {
        let remotes = match raw.assemble_remotes(env) {
            Ok(v) => v,
            Err(e) => {
                return Err(e);
            },
        };
        let steps = match raw.assemble_steps(&remotes) {
            Ok(v) => v,
            Err(e) => {
                proof {
                    let k = choose|k: int|
                        {
                            &&& 0 <= k < raw.build_steps@.len()
                            &&& !registry_has(remotes@, (#[trigger] raw.build_steps@[k]).remote@)
                            &&& forall|j: int| 0 <= j < k ==> registry_has(
                                remotes@,
                                (#[trigger] raw.build_steps@[j]).remote@,
                            )
                            &&& e matches MergerError::Config(m) && m@
                                == step_missing_remote_message(
                                raw.build_steps@[k].name@,
                                raw.build_steps@[k].remote@,
                            )
                        };
                    lemma_registry_matches_names(
                        remotes@,
                        raw.remotes@,
                        env@,
                        raw.build_steps@[k].remote@,
                    );
                }
                return Err(e);
            },
        };
        match raw.local.assert_ok(&remotes) {
            Ok(()) => {},
            Err(e) => {
                proof {
                    lemma_registry_matches_names(
                        remotes@,
                        raw.remotes@,
                        env@,
                        upstream_name_of(raw.local.upstream_base@),
                    );
                }
                return Err(e);
            },
        }
        proof {
            lemma_registry_matches_names(
                remotes@,
                raw.remotes@,
                env@,
                upstream_name_of(raw.local.upstream_base@),
            );
            assert forall|k: int| 0 <= k < raw.build_steps@.len() implies names_has(
                raw.remotes@,
                (#[trigger] raw.build_steps@[k]).remote@,
            ) by {
                lemma_registry_matches_names(
                    remotes@,
                    raw.remotes@,
                    env@,
                    raw.build_steps@[k].remote@,
                );
            }
        }
        let committer_name = match raw.meta.committer_name {
            Some(n) => n,
            None => Config::default_committer_name(),
        };
        let meta = MetaConfig { committer_name, committer_email: raw.meta.committer_email };
        Ok(Config { remotes, meta, local: raw.local, steps })
    }

    fn default_committer_name() -> (r: String)
        ensures
            r@ == "Mergeotron"@,
    {
        String::from_str("Mergeotron")
    }

    /// The registry entry of the given name, if any.
    pub fn remote_named(&self, name: &str) -> (r: Option<&Remote>)
        ensures
            match r {
                Some(rem) => rem.spec_name() == name@ && registry_has(self.remotes@, name@)
                    && exists|i: int| 0 <= i < self.remotes@.len() && self.remotes@[i] == *rem,
                None => !registry_has(self.remotes@, name@),
            },
    {
        let n = self.remotes.len();
        let mut i: usize = 0;
        while i < n
            invariant
                n == self.remotes@.len(),
                i <= n,
                forall|j: int| 0 <= j < i ==> remotes_name_differs(self.remotes@[j], name@),
            decreases n - i,
        {
            if str_eq(self.remotes[i].name(), name) {
                return Some(&self.remotes[i]);
            }
            i += 1;
        }
        None
    }

    /// Every registry entry, in registry order.
    pub fn all_remotes(&self) -> (r: &Vec<Remote>)
        ensures
            r@ == self.remotes@,
    {
        &self.remotes
    }
}

/// Whether a remote's name differs from `name`.
pub open spec fn remotes_name_differs(r: Remote, name: Seq<char>) -> bool {
    r.spec_name() != name
}

impl LocalConfig {
    /// The registry entry the upstream base points at, in a configuration
    /// whose validation has established that it exists.
    pub fn upstream_remote<'a>(&self, config: &'a Config) -> (r: &'a Remote)
        requires
            registry_has(config.remotes@, upstream_name_of(self.upstream_base@)),
        ensures
            r.spec_name() == upstream_name_of(self.upstream_base@),
    {
        let name = self.upstream_remote_name();
        config.remote_named(name).unwrap()
    }
}

} // verus!
