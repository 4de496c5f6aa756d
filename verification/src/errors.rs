//! The error taxonomy of the library. Every fallible operation reports one of
//! these variants; each carries the text the shell needs for its one-line
//! message, already reduced to plain strings.

use vstd::prelude::*;
use crate::text::trim_end_spaces;

verus! {

/// One error of the merge tool.
///
/// - `Io`: the operating system refused a file or process operation.
/// - `De`: the configuration file could not be parsed; carries the file name
///   and the parser's message.
/// - `Http`: a provider request failed in transport, status or body shape.
/// - `Utf`: subprocess output was not valid UTF-8.
/// - `Config`: a cross-reference or format rule of the configuration failed;
///   carries the offending identifier in its message.
/// - `Local`: the working copy is missing, not cloneable or not a git
///   repository.
/// - `Git`: git exited non-zero; carries the reconstructed command line and
///   the command's standard error.
#[derive(Debug)]
pub enum MergerError {
    Io(String),
    De(String, String),
    Http(String),
    Utf(String),
    Config(String),
    Local(String),
    Git(String, String),
}

pub type MergerResult<T> = Result<T, MergerError>;

/// The one-line human-readable rendering of an error.
pub open spec fn message_of(e: MergerError) -> Seq<char> {
    match e {
        MergerError::Io(m) => m@,
        MergerError::Utf(m) => m@,
        MergerError::De(filename, m) => "error reading "@ + filename@ + ":\n  "@ + m@,
        MergerError::Http(m) => "http error: "@ + m@,
        MergerError::Config(m) => "invalid config file:\n  "@ + m@,
        MergerError::Local(m) => "problem with local setup:\n  "@ + m@,
        MergerError::Git(cmd, err) => "problem encountered running git:\ncommand: git "@ + cmd@
            + "\n"@ + trim_end_spaces(err@),
    }
}

impl MergerError {
    /// Renders the error as the message the shell prints before exiting.
    pub fn to_message(&self) -> (m: String)
        ensures
            m@ == message_of(*self),
    {
        match self {
            MergerError::Io(m) => m.clone(),
            MergerError::Utf(m) => m.clone(),
            MergerError::De(filename, m) => {
                let mut out = String::from_str("error reading ");
                out.append(filename.as_str());
                out.append(":\n  ");
                out.append(m.as_str());
                out
            },
            MergerError::Http(m) => {
                let mut out = String::from_str("http error: ");
                out.append(m.as_str());
                out
            },
            MergerError::Config(m) => {
                let mut out = String::from_str("invalid config file:\n  ");
                out.append(m.as_str());
                out
            },
            MergerError::Local(m) => {
                let mut out = String::from_str("problem with local setup:\n  ");
                out.append(m.as_str());
                out
            },
            MergerError::Git(cmd, err) => {
                let mut out = String::from_str("problem encountered running git:\ncommand: git ");
                out.append(cmd.as_str());
                out.append("\n");
                let trimmed = crate::text::str_trim_end(err.as_str());
                out.append(trimmed.as_str());
                out
            },
        }
    }
}

} // verus!
