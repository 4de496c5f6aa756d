//! The local-repository reconciliation engine: the decisions that take the
//! working copy from missing, through cloned and verified, to a remote set
//! matching configuration.
//!
//! The shell reports plain events (whether the path is a directory, what a
//! git run returned) and performs the chosen actions (clone, chdir, add a
//! remote); every decision between event and action stands here, verified:
//! whether and how to clone, how each configured remote compares against the
//! locally present ones, and the exact command lines of the git invocations.

use vstd::prelude::*;
use crate::config::LocalConfig;
use crate::errors::MergerError;
use crate::text::contains_char;
use crate::text::ends_with;
use crate::text::first_index_of;
use crate::text::lemma_first_index_of_properties;
use crate::text::str_eq;
use crate::text::str_find_char;
use crate::text::str_has_suffix;
use crate::text::str_prefix_to;
use crate::text::str_suffix_from;

verus! {

// Step one: the working directory
// -------------------------------

/// What to do about the configured path before anything else runs.
pub enum DirDecision {
    /// The directory exists; go on to verify it is a git repository.
    AlreadyPresent,
    /// The directory is missing and configuration permits cloning into it.
    CloneNeeded,
    /// The directory is missing and cloning was not requested: fail.
    Refuse(MergerError),
}

/// The error text when the path is missing and may not be cloned.
pub open spec fn missing_dir_message(path: Seq<char>) -> Seq<char> {
    "path "@ + path + " does not exist, and clone was not requested"@
}

/// The first decision of reconciliation, on the event "is the configured
/// path a directory".
pub fn check_dir(local: &LocalConfig, dir_present: bool) -> (r: DirDecision)
    ensures
        dir_present ==> r is AlreadyPresent,
        !dir_present && !local.should_clone ==> (r matches DirDecision::Refuse(e) && e matches
        MergerError::Local(m) && m@ == missing_dir_message(local.path@)),
        !dir_present && local.should_clone ==> r is CloneNeeded,
{
    if dir_present {
        DirDecision::AlreadyPresent
    } else if !local.should_clone {
        let mut m = String::from_str("path ");
        m.append(local.path.as_str());
        m.append(" does not exist, and clone was not requested");
        DirDecision::Refuse(MergerError::Local(m))
    } else {
        DirDecision::CloneNeeded
    }
}

/// The error reported when the directory exists but is no git repository.
pub fn gitdir_error(path: &str) -> (e: MergerError)
    ensures
        e matches MergerError::Local(m) && m@ == path@ + " does not appear to be a git directory!"@,
{
    let mut m = String::from_str("");
    m.append(path);
    m.append(" does not appear to be a git directory!");
    proof {
        reveal_strlit("");
    }
    MergerError::Local(m)
}

// The git invocations of reconciliation
// -------------------------------------

/// `git clone --recursive -o <remote> <url> <dir>`: a recursive clone naming
/// the upstream remote as origin.
pub fn clone_args(remote_name: &str, url: &str, dir_name: &str) -> (r: Vec<String>)
    ensures
        r.deep_view() == seq!["clone"@, "--recursive"@, "-o"@, remote_name@, url@, dir_name@],
{
    let mut v: Vec<String> = Vec::new();
    v.push(String::from_str("clone"));
    v.push(String::from_str("--recursive"));
    v.push(String::from_str("-o"));
    v.push(remote_name.to_owned());
    v.push(url.to_owned());
    v.push(dir_name.to_owned());
    proof {
        assert(v.deep_view() =~= seq!["clone"@, "--recursive"@, "-o"@, remote_name@, url@, dir_name@]);
    }
    v
}

/// `git rev-parse --show-toplevel`: the cheap probe that the directory is a
/// git repository.
pub fn rev_parse_args() -> (r: Vec<String>)
    ensures
        r.deep_view() == seq!["rev-parse"@, "--show-toplevel"@],
{
    let mut v: Vec<String> = Vec::new();
    v.push(String::from_str("rev-parse"));
    v.push(String::from_str("--show-toplevel"));
    proof {
        assert(v.deep_view() =~= seq!["rev-parse"@, "--show-toplevel"@]);
    }
    v
}

/// `git remote -v`: the listing the local remote set is read from.
pub fn remote_list_args() -> (r: Vec<String>)
    ensures
        r.deep_view() == seq!["remote"@, "-v"@],
{
    let mut v: Vec<String> = Vec::new();
    v.push(String::from_str("remote"));
    v.push(String::from_str("-v"));
    proof {
        assert(v.deep_view() =~= seq!["remote"@, "-v"@]);
    }
    v
}

/// `git remote add <name> <url>`: repairs one missing remote.
pub fn remote_add_args(name: &str, url: &str) -> (r: Vec<String>)
    ensures
        r.deep_view() == seq!["remote"@, "add"@, name@, url@],
{
    let mut v: Vec<String> = Vec::new();
    v.push(String::from_str("remote"));
    v.push(String::from_str("add"));
    v.push(name.to_owned());
    v.push(url.to_owned());
    proof {
        assert(v.deep_view() =~= seq!["remote"@, "add"@, name@, url@]);
    }
    v
}

// Parsing `git remote -v`
// -----------------------

/// `s` split on `sep`; a trailing separator yields a trailing empty part.
pub open spec fn split_on(s: Seq<char>, sep: char) -> Seq<Seq<char>>
    decreases s.len(),
    via split_on_decreases
{
    if first_index_of(s, sep) < 0 {
        seq![s]
    } else {
        let i = first_index_of(s, sep);
        seq![s.take(i)] + split_on(s.skip(i + 1), sep)
    }
}

#[via_fn]
proof fn split_on_decreases(s: Seq<char>, sep: char) {
    lemma_first_index_of_properties(s, sep);
}

/// `s` with every copy of the suffix `suf` removed from its end.
pub open spec fn trim_suffix_rep(s: Seq<char>, suf: Seq<char>) -> Seq<char>
    decreases s.len(),
{
    if suf.len() > 0 && ends_with(s, suf) {
        trim_suffix_rep(s.take(s.len() - suf.len()), suf)
    } else {
        s
    }
}

/// The (name, fetch URL) entry one line of `git remote -v` contributes, if
/// any: only lines for the fetch direction count; the name stands before the
/// first tab and the URL between the first and the second tab stop.
pub open spec fn fetch_entry(line: Seq<char>) -> Option<(Seq<char>, Seq<char>)> {
    if !ends_with(line, "(fetch)"@) {
        None
    } else {
        let core = trim_suffix_rep(line, " (fetch)"@);
        if !contains_char(core, '\t') {
            None
        } else {
            let i = first_index_of(core, '\t');
            let rest = core.skip(i + 1);
            let url = if contains_char(rest, '\t') {
                rest.take(first_index_of(rest, '\t'))
            } else {
                rest
            };
            Some((core.take(i), url))
        }
    }
}

/// All fetch entries of the listing's lines, in line order.
pub open spec fn remotes_of_lines(lines: Seq<Seq<char>>) -> Seq<(Seq<char>, Seq<char>)>
    decreases lines.len(),
{
    if lines.len() == 0 {
        Seq::empty()
    } else {
        let rest = remotes_of_lines(lines.drop_last());
        match fetch_entry(lines.last()) {
            Some(e) => rest.push(e),
            None => rest,
        }
    }
}

/// The locally present remotes, read off a whole `git remote -v` output.
pub open spec fn parsed_remotes(out: Seq<char>) -> Seq<(Seq<char>, Seq<char>)> {
    remotes_of_lines(split_on(out, '\n'))
}

/// The views of a list of string pairs.
pub open spec fn view_pairs(v: Seq<(String, String)>) -> Seq<(Seq<char>, Seq<char>)> {
    v.map_values(|p: (String, String)| (p.0@, p.1@))
}

fn process_line(line: &str) -> (r: Option<(String, String)>)
    ensures
        match r {
            Some(e) => fetch_entry(line@) == Some((e.0@, e.1@)),
            None => fetch_entry(line@) is None,
        },
{
    if !str_has_suffix(line, "(fetch)") {
        return None;
    }
    let mut core: &str = line;
    let suflen = " (fetch)".unicode_len();
    proof {
        reveal_strlit(" (fetch)");
    }
    while str_has_suffix(core, " (fetch)")
        invariant
            suflen == " (fetch)"@.len(),
            suflen > 0,
            trim_suffix_rep(core@, " (fetch)"@) == trim_suffix_rep(line@, " (fetch)"@),
        decreases core@.len(),
    {
        let m = core.unicode_len();
        core = str_prefix_to(core, m - suflen);
    }
    let n = core.unicode_len();
    proof {
        lemma_first_index_of_properties(core@, '\t');
    }
    match str_find_char(core, '\t') {
        None => None,
        Some(i) => {
            let name = str_prefix_to(core, i).to_owned();
            let rest = str_suffix_from(core, i + 1);
            proof {
                lemma_first_index_of_properties(rest@, '\t');
            }
            let url = match str_find_char(rest, '\t') {
                Some(j) => str_prefix_to(rest, j).to_owned(),
                None => rest.to_owned(),
            };
            Some((name, url))
        },
    }
}

/// The (name, fetch URL) pairs of a `git remote -v` listing.
pub fn parse_remotes(output: &str) -> (r: Vec<(String, String)>)
    ensures
        view_pairs(r@) == parsed_remotes(output@),
{
    let mut ret: Vec<(String, String)> = Vec::new();
    let mut rem: &str = output;
    let ghost mut done: Seq<Seq<char>> = Seq::empty();
    loop
        invariant
            split_on(output@, '\n') == done + split_on(rem@, '\n'),
            view_pairs(ret@) == remotes_of_lines(done),
        decreases rem@.len(),
    {
        proof {
            lemma_first_index_of_properties(rem@, '\n');
        }
        match str_find_char(rem, '\n') {
            Some(i) => {
                let _n = rem.unicode_len();
                let line = str_prefix_to(rem, i);
                let ghost old_ret = ret@;
                match process_line(line) {
                    Some(e) => {
                        ret.push(e);
                    },
                    None => {},
                }
                proof {
                    let lines = done + seq![line@];
                    assert(lines.drop_last() =~= done);
                    assert(lines.last() == line@);
                    match fetch_entry(line@) {
                        Some(entry) => {
                            assert(view_pairs(ret@) =~= view_pairs(old_ret).push(
                                (ret@.last().0@, ret@.last().1@),
                            ));
                        },
                        None => {},
                    }
                    assert(done + split_on(rem@, '\n') =~= (done + seq![line@]) + split_on(
                        rem@.skip(i + 1),
                        '\n',
                    ));
                    done = done + seq![line@];
                }
                rem = str_suffix_from(rem, i + 1);
            },
            None => {
                let ghost old_ret = ret@;
                match process_line(rem) {
                    Some(e) => {
                        ret.push(e);
                    },
                    None => {},
                }
                proof {
                    let lines = done + seq![rem@];
                    assert(lines.drop_last() =~= done);
                    assert(lines.last() == rem@);
                    match fetch_entry(rem@) {
                        Some(entry) => {
                            assert(view_pairs(ret@) =~= view_pairs(old_ret).push(
                                (ret@.last().0@, ret@.last().1@),
                            ));
                        },
                        None => {},
                    }
                    assert(split_on(output@, '\n') =~= done + seq![rem@]);
                }
                return ret;
            },
        }
    }
}

// Diffing the remote sets
// -----------------------

/// What reconciliation does about one configured remote.
pub enum RemoteAction {
    /// Present locally with the configured URL: nothing to do.
    Keep,
    /// Absent locally: add it.
    Add,
    /// Present locally under a different URL: never silently overwrite.
    Mismatch(MergerError),
}

/// The fetch URL the local listing reports under `name`, taking the last
/// line when a name repeats, as a map built from the listing would.
pub open spec fn assoc_last(m: Seq<(Seq<char>, Seq<char>)>, k: Seq<char>) -> Option<Seq<char>>
    decreases m.len(),
{
    if m.len() == 0 {
        None
    } else if m.last().0 == k {
        Some(m.last().1)
    } else {
        assoc_last(m.drop_last(), k)
    }
}

/// The error text when a remote exists locally under a different URL.
pub open spec fn mismatch_message(name: Seq<char>, have: Seq<char>, want: Seq<char>) -> Seq<char> {
    "mismatched remote "@ + name + ": have "@ + have + ", want "@ + want
}

/// The decision for one configured remote against the locally present set:
/// a no-op when present with the configured URL, an addition when absent,
/// and a mismatch error when present under a different URL.
pub fn reconcile_remote(name: &str, want_url: &str, have: &Vec<(String, String)>) -> (r:
    RemoteAction)
    ensures
        match assoc_last(view_pairs(have@), name@) {
            Some(u) => {
                if u == want_url@ {
                    r is Keep
                } else {
                    r matches RemoteAction::Mismatch(e) && e matches MergerError::Config(m) && m@
                        == mismatch_message(name@, u, want_url@)
                }
            },
            None => r is Add,
        },
{
    let n = have.len();
    let mut i: usize = n;
    proof {
        assert(view_pairs(have@).take(n as int) =~= view_pairs(have@));
    }
    while i > 0
        invariant
            n == have@.len(),
            i <= n,
            assoc_last(view_pairs(have@).take(i as int), name@) == assoc_last(
                view_pairs(have@),
                name@,
            ),
        decreases i,
    {
        proof {
            assert(view_pairs(have@).take(i as int).last() == view_pairs(have@)[i - 1]);
            assert(view_pairs(have@).take(i as int).drop_last() =~= view_pairs(have@).take(
                i - 1,
            ));
        }
        if str_eq(have[i - 1].0.as_str(), name) {
            if str_eq(have[i - 1].1.as_str(), want_url) {
                return RemoteAction::Keep;
            } else {
                let mut m = String::from_str("mismatched remote ");
                m.append(name);
                m.append(": have ");
                m.append(have[i - 1].1.as_str());
                m.append(", want ");
                m.append(want_url);
                return RemoteAction::Mismatch(MergerError::Config(m));
            }
        }
        i -= 1;
    }
    RemoteAction::Add
}

} // verus!
