//! The logging decisions: which records are printed and how a line is
//! rendered, over a prefix stack passed explicitly by the caller instead of
//! process-wide mutable state. The shell owns the stack, does the printing,
//! and registers itself with the logging facade.

use vstd::prelude::*;
use crate::text::has_prefix;
use crate::text::str_has_prefix;

verus! {

/// The severities a record can carry, most severe first.
#[derive(Clone, Copy, PartialEq, Eq, Debug, Structural)]
pub enum LogLevel {
    Error,
    Warn,
    Info,
    Debug,
    Trace,
}

/// A level's position in the severity order, most severe lowest.
pub open spec fn level_rank(l: LogLevel) -> int {
    match l {
        LogLevel::Error => 1,
        LogLevel::Warn => 2,
        LogLevel::Info => 3,
        LogLevel::Debug => 4,
        LogLevel::Trace => 5,
    }
}

/// Whether records of this level are printed at all: everything up to and
/// including debug.
pub open spec fn level_enabled(l: LogLevel) -> bool {
    level_rank(l) <= 4
}

/// Whether records of this level are printed at all.
pub fn enabled(level: LogLevel) -> (r: bool)
    ensures
        r == level_enabled(level),
{
    match level {
        LogLevel::Trace => false,
        _ => true,
    }
}

/// The level's column label: its lowercase name padded to five characters.
pub open spec fn level_label(l: LogLevel) -> Seq<char> {
    match l {
        LogLevel::Error => "error"@,
        LogLevel::Warn => "warn "@,
        LogLevel::Info => "info "@,
        LogLevel::Debug => "debug"@,
        LogLevel::Trace => "trace"@,
    }
}

fn label_of(level: LogLevel) -> (r: &'static str)
    ensures
        r@ == level_label(level),
{
    match level {
        LogLevel::Error => "error",
        LogLevel::Warn => "warn ",
        LogLevel::Info => "info ",
        LogLevel::Debug => "debug",
        LogLevel::Trace => "trace",
    }
}

/// The prefixes of the stack run together, innermost last.
pub open spec fn joined(stack: Seq<Seq<char>>) -> Seq<char>
    decreases stack.len(),
{
    if stack.len() == 0 {
        Seq::empty()
    } else {
        joined(stack.drop_last()) + stack.last()
    }
}

/// The line printed for one record, or nothing: only records up to debug
/// severity whose target lies in this tool are printed, as the level label,
/// a separator, the accumulated prefixes and the message.
pub fn render_log_line(level: LogLevel, target: &str, stack: &Vec<String>, msg: &str) -> (r: Option<
    String,
>)
    ensures
        match r {
            Some(line) => {
                &&& level_enabled(level)
                &&& has_prefix(target@, "rustmergency"@)
                &&& line@ == level_label(level) + " | "@ + joined(stack.deep_view()) + msg@
            },
            None => !(level_enabled(level) && has_prefix(target@, "rustmergency"@)),
        },
{
    if !enabled(level) {
        return None;
    }
    if !str_has_prefix(target, "rustmergency") {
        return None;
    }
    let mut line = label_of(level).to_owned();
    line.append(" | ");
    let n = stack.len();
    let mut i: usize = 0;
    while i < n
        invariant
            n == stack@.len(),
            i <= n,
            line@ == level_label(level) + " | "@ + joined(stack.deep_view().take(i as int)),
        decreases n - i,
    {
        line.append(stack[i].as_str());
        proof {
            let dv = stack.deep_view();
            assert(dv.take(i + 1).drop_last() =~= dv.take(i as int));
            assert(dv.take(i + 1).last() == dv[i as int]);
        }
        i += 1;
    }
    proof {
        assert(stack.deep_view().take(n as int) =~= stack.deep_view());
    }
    line.append(msg);
    Some(line)
}

/// The receipt for one pushed prefix: popping asks for it back, which keeps
/// pushes and pops paired the way the original's scope guard did.
pub struct LoggerPrefixGuard {
    pub prefix: Ghost<Seq<char>>,
}

/// Pushes one prefix onto the caller's stack and hands out the guard that
/// [`pop_proxy_prefix`] takes back.
pub fn push_proxy_prefix(stack: &mut Vec<String>, prefix: String) -> (g: LoggerPrefixGuard)
    ensures
        final(stack)@ == old(stack)@.push(prefix),
        g.prefix@ == prefix@,
{
    let g = LoggerPrefixGuard { prefix: Ghost(prefix@) };
    stack.push(prefix);
    g
}

/// Takes the guard back and pops the prefix it was made for.
pub fn pop_proxy_prefix(stack: &mut Vec<String>, guard: LoggerPrefixGuard)
    requires
        old(stack)@.len() > 0,
        old(stack)@.last()@ == guard.prefix@,
    ensures
        final(stack)@ == old(stack)@.drop_last(),
{
    let _popped = stack.pop();
}

} // verus!
