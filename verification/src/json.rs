//! Extraction of one top-level string field from a JSON object body, the
//! only shape of answer the providers' repository endpoints are read for.
//!
//! The meaning of the extraction is given as a character-level state machine
//! (`json_step` folded over the body by `json_scan_prefix`): the scanner
//! tracks brace/bracket depth and string boundaries, recognises the keys of
//! the top-level object, and captures the value of the requested key when
//! that value is itself a string. A value holding an escape sequence, or a
//! non-string value, yields no result. The executable scanner is verified to
//! compute exactly this fold.

use vstd::prelude::*;
use crate::text::str_eq;
use crate::text::push_char;

verus! {

/// The scanner's state after some prefix of the body.
pub struct JsonScanState {
    /// Nesting depth of braces and brackets, string contents excluded.
    pub depth: int,
    /// Whether the scanner stands inside a string literal.
    pub in_str: bool,
    /// Inside a string: whether the previous character was a backslash.
    pub esc: bool,
    /// Inside a string: the characters read so far.
    pub cur: Seq<char>,
    /// Inside a string: whether it held an escape sequence.
    pub cur_bad: bool,
    /// At depth 1: whether the next string is an object key.
    pub next_is_key: bool,
    /// Whether the requested key was just seen and its value is awaited.
    pub want_value: bool,
    /// Once decided: `Some(Some(v))` for a clean string value `v`,
    /// `Some(None)` when the value is not a plain string.
    pub outcome: Option<Option<Seq<char>>>,
}

/// The scanner before any character.
pub open spec fn json_init_state() -> JsonScanState {
    JsonScanState {
        depth: 0,
        in_str: false,
        esc: false,
        cur: Seq::empty(),
        cur_bad: false,
        next_is_key: false,
        want_value: false,
        outcome: None,
    }
}

/// Whether `c` separates tokens without changing structure.
pub open spec fn is_json_space(c: char) -> bool {
    c == ' ' || c == '\t' || c == '\n' || c == '\r'
}

/// One step of the scanner on character `c`, looking for key `field`.
pub open spec fn json_step(field: Seq<char>, st: JsonScanState, c: char) -> JsonScanState {
    if st.outcome is Some {
        st
    } else if st.in_str {
        if st.esc {
            JsonScanState { esc: false, cur_bad: true, ..st }
        } else if c == '\\' {
            JsonScanState { esc: true, cur_bad: true, ..st }
        } else if c == '"' {
            if st.depth == 1 && st.next_is_key {
                JsonScanState {
                    in_str: false,
                    want_value: !st.cur_bad && st.cur == field,
                    cur: Seq::empty(),
                    ..st
                }
            } else if st.depth == 1 && st.want_value {
                JsonScanState {
                    in_str: false,
                    want_value: false,
                    cur: Seq::empty(),
                    outcome: Some(
                        if st.cur_bad {
                            None
                        } else {
                            Some(st.cur)
                        },
                    ),
                    ..st
                }
            } else {
                JsonScanState { in_str: false, cur: Seq::empty(), ..st }
            }
        } else {
            JsonScanState { cur: st.cur.push(c), ..st }
        }
    } else if c == '"' {
        JsonScanState { in_str: true, cur: Seq::empty(), cur_bad: false, ..st }
    } else if is_json_space(c) {
        st
    } else if c == '{' || c == '[' {
        if st.want_value && st.depth == 1 {
            JsonScanState { outcome: Some(None), ..st }
        } else {
            let nk = if st.depth == 0 && c == '{' {
                true
            } else {
                st.next_is_key
            };
            JsonScanState { depth: st.depth + 1, next_is_key: nk, ..st }
        }
    } else if c == '}' || c == ']' {
        if st.want_value && st.depth == 1 {
            JsonScanState { outcome: Some(None), ..st }
        } else {
            JsonScanState {
                depth: if st.depth > 0 {
                    st.depth - 1
                } else {
                    0
                },
                ..st
            }
        }
    } else if c == ':' {
        if st.depth == 1 {
            JsonScanState { next_is_key: false, ..st }
        } else {
            st
        }
    } else if c == ',' {
        if st.depth == 1 {
            if st.want_value {
                JsonScanState { outcome: Some(None), ..st }
            } else {
                JsonScanState { next_is_key: true, ..st }
            }
        } else {
            st
        }
    } else {
        if st.want_value && st.depth == 1 {
            JsonScanState { outcome: Some(None), ..st }
        } else {
            st
        }
    }
}

/// The scanner's state after the first `i` characters of `s`.
pub open spec fn json_scan_prefix(field: Seq<char>, s: Seq<char>, i: int) -> JsonScanState
    decreases i,
{
    if i <= 0 {
        json_init_state()
    } else {
        json_step(field, json_scan_prefix(field, s, i - 1), s[i - 1])
    }
}

/// The value of top-level string field `field` in `body`, if the scanner
/// finds one.
pub open spec fn json_string_field(body: Seq<char>, field: Seq<char>) -> Option<Seq<char>> {
    match json_scan_prefix(field, body, body.len() as int).outcome {
        Some(o) => o,
        None => None,
    }
}

struct Scanner {
    depth: usize,
    in_str: bool,
    esc: bool,
    cur: String,
    cur_bad: bool,
    next_is_key: bool,
    want_value: bool,
    done: bool,
    found: Option<String>,
}

impl Scanner {
    spec fn model(&self) -> JsonScanState {
        JsonScanState {
            depth: self.depth as int,
            in_str: self.in_str,
            esc: self.esc,
            cur: self.cur@,
            cur_bad: self.cur_bad,
            next_is_key: self.next_is_key,
            want_value: self.want_value,
            outcome: if self.done {
                Some(
                    match self.found {
                        Some(v) => Some(v@),
                        None => None,
                    },
                )
            } else {
                None
            },
        }
    }
}

fn exec_is_json_space(c: char) -> (r: bool)
    ensures
        r == is_json_space(c),
{
    c == ' ' || c == '\t' || c == '\n' || c == '\r'
}

/// The value of the top-level string field `field` of the JSON object
/// `body`, as the scanner defines it.
pub fn extract_string_field(body: &str, field: &str) -> (r: Option<String>)
    ensures
        match r {
            Some(v) => json_string_field(body@, field@) == Some(v@),
            None => json_string_field(body@, field@) is None,
        },
{
    let n = body.unicode_len();
    let mut st = Scanner {
        depth: 0,
        in_str: false,
        esc: false,
        cur: String::new(),
        cur_bad: false,
        next_is_key: false,
        want_value: false,
        done: false,
        found: None,
    };
    let mut i: usize = 0;
    while i < n
        invariant
            n == body@.len(),
            i <= n,
            st.depth <= i,
            st.model() == json_scan_prefix(field@, body@, i as int),
        decreases n - i,
    {
        let c = body.get_char(i);
        let ghost pre = st.model();
        if st.done {
            // outcome decided: the scanner absorbs the rest
        } else if st.in_str {
            if st.esc {
                st.esc = false;
                st.cur_bad = true;
            } else if c == '\\' {
                st.esc = true;
                st.cur_bad = true;
            } else if c == '"' {
                if st.depth == 1 && st.next_is_key {
                    st.in_str = false;
                    st.want_value = !st.cur_bad && str_eq(st.cur.as_str(), field);
                    st.cur = String::new();
                } else if st.depth == 1 && st.want_value {
                    st.in_str = false;
                    st.want_value = false;
                    st.done = true;
                    st.found = if st.cur_bad {
                        None
                    } else {
                        Some(st.cur)
                    };
                    st.cur = String::new();
                } else {
                    st.in_str = false;
                    st.cur = String::new();
                }
            } else {
                push_char(&mut st.cur, c);
            }
        } else if c == '"' {
            st.in_str = true;
            st.cur = String::new();
            st.cur_bad = false;
        } else if exec_is_json_space(c) {
            // separators leave the state unchanged
        } else if c == '{' || c == '[' {
            if st.want_value && st.depth == 1 {
                st.done = true;
                st.found = None;
            } else {
                if st.depth == 0 && c == '{' {
                    st.next_is_key = true;
                }
                st.depth = st.depth + 1;
            }
        } else if c == '}' || c == ']' {
            if st.want_value && st.depth == 1 {
                st.done = true;
                st.found = None;
            } else {
                if st.depth > 0 {
                    st.depth = st.depth - 1;
                }
            }
        } else if c == ':' {
            if st.depth == 1 {
                st.next_is_key = false;
            }
        } else if c == ',' {
            if st.depth == 1 {
                if st.want_value {
                    st.done = true;
                    st.found = None;
                } else {
                    st.next_is_key = true;
                }
            }
        } else {
            if st.want_value && st.depth == 1 {
                st.done = true;
                st.found = None;
            }
        }
        proof {
            assert(st.model() == json_step(field@, pre, c));
        }
        i += 1;
    }
    if st.done {
        st.found
    } else {
        None
    }
}

} // verus!
