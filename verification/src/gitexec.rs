//! Interpretation of git subprocess runs. The shell spawns the external git
//! binary and hands back a [`GitOutcome`]; this module turns the outcome
//! into the tool's result, keeping the three failure shapes apart: a launch
//! that never happened, a command that exited non-zero, and output that was
//! not text.

use vstd::prelude::*;
use vstd::utf8::valid_utf8;
use vstd::utf8::decode_utf8;
use crate::errors::MergerError;
use crate::errors::MergerResult;
use crate::text::str_trim_end;
use crate::text::trim_end_spaces;

verus! {

/// What the operating system reported for one git invocation.
pub enum GitOutcome {
    /// The process could not be started; carries the OS error text.
    LaunchFailed(String),
    /// The process ran to an exit status and produced these streams.
    Finished { success: bool, stdout: Vec<u8>, stderr: Vec<u8> },
}

/// The arguments joined by single spaces: the command line as the tool
/// reports it.
pub open spec fn join_with_space(parts: Seq<Seq<char>>) -> Seq<char>
    decreases parts.len(),
{
    if parts.len() == 0 {
        Seq::empty()
    } else if parts.len() == 1 {
        parts[0]
    } else {
        join_with_space(parts.drop_last()) + seq![' '] + parts.last()
    }
}

/// The reconstructed command line of a git invocation.
pub fn join_args(args: &Vec<String>) -> (r: String)
    ensures
        r@ == join_with_space(args.deep_view()),
{
    let n = args.len();
    let mut out = String::new();
    let mut i: usize = 0;
    while i < n
        invariant
            n == args@.len(),
            i <= n,
            out@ == join_with_space(args.deep_view().take(i as int)),
        decreases n - i,
    {
        if i > 0 {
            out.append(" ");
        }
        out.append(args[i].as_str());
        proof {
            reveal_strlit(" ");
            let dv = args.deep_view();
            assert(" "@ =~= seq![' ']);
            assert(dv.take(i + 1).drop_last() =~= dv.take(i as int));
            assert(dv.take(i + 1).last() == dv[i as int]);
        }
        i += 1;
    }
    proof {
        assert(args.deep_view().take(n as int) =~= args.deep_view());
    }
    out
}

/// Relies on `String::from_utf8`: succeeds exactly on valid UTF-8 input and
/// returns its decoding; on other input it reports the encoding fault.
#[verifier::external_body]
fn utf8_to_string(bytes: Vec<u8>) -> (r: Result<String, String>)
    ensures
        match r {
            Ok(s) => valid_utf8(bytes@) && s@ == decode_utf8(bytes@),
            Err(_) => !valid_utf8(bytes@),
        },
{
    match String::from_utf8(bytes) {
        Ok(s) => Ok(s),
        Err(e) => Err(format!("{}", e)),
    }
}

/// Turns one finished (or failed) git invocation into the tool's result:
/// a launch failure is an I/O error; a non-zero exit is a git-command error
/// carrying the reconstructed command line and the command's stderr; output
/// that is not UTF-8 is a decoding error; success yields stdout with
/// trailing whitespace removed, never partially decoded output.
pub fn evaluate_git_outcome(args: &Vec<String>, outcome: GitOutcome) -> (r: MergerResult<String>)
    ensures
        match outcome {
            GitOutcome::LaunchFailed(m) => r matches Err(MergerError::Io(mm)) && mm@ == m@,
            GitOutcome::Finished { success, stdout, stderr } => {
                if !success {
                    if valid_utf8(stderr@) {
                        r matches Err(MergerError::Git(cmd, err)) && cmd@ == join_with_space(
                            args.deep_view(),
                        ) && err@ == decode_utf8(stderr@)
                    } else {
                        r matches Err(MergerError::Utf(_))
                    }
                } else {
                    if valid_utf8(stdout@) {
                        r matches Ok(s) && s@ == trim_end_spaces(decode_utf8(stdout@))
                    } else {
                        r matches Err(MergerError::Utf(_))
                    }
                }
            },
        },
{
    match outcome {
        GitOutcome::LaunchFailed(m) => Err(MergerError::Io(m)),
        GitOutcome::Finished { success, stdout, stderr } => {
            if !success {
                let cmd = join_args(args);
                match utf8_to_string(stderr) {
                    Ok(errtext) => Err(MergerError::Git(cmd, errtext)),
                    Err(m) => Err(MergerError::Utf(m)),
                }
            } else {
                match utf8_to_string(stdout) {
                    Ok(outtext) => Ok(str_trim_end(outtext.as_str())),
                    Err(m) => Err(MergerError::Utf(m)),
                }
            }
        },
    }
}

} // verus!
