//! The command tokenizer: splits a raw command string into an executable
//! and its remaining argument string, and derives a bare base name for
//! default naming.

use vstd::prelude::*;

use crate::StartupError;
use crate::text::{
    CharClass, find_in, first_match, last_before, lemma_first_match_props, rfind_in, trim_of,
    trim_spec,
};

verus! {

/// What `parse_command` returns: `None` for an empty or whitespace-only
/// command; otherwise the executable token and the remaining argument
/// string.
///
/// When the trimmed command starts with a single or double quote, the
/// executable is everything up to the next occurrence of the same quote
/// (both quotes stripped; everything when the quote is never closed), and
/// the arguments are the rest with leading spaces skipped. Otherwise the
/// executable runs up to the first space, and the arguments are everything
/// after that space, verbatim.
pub open spec fn parse_command_spec(cmd: Seq<char>) -> Option<(Seq<char>, Seq<char>)> {
    let t = trim_spec(cmd);
    if t.len() == 0 {
        None
    } else if t[0] == '\'' || t[0] == '"' {
        let close = first_match(t, CharClass::Just(t[0]), true, 1);
        let rest_from = if close < t.len() {
            close + 1
        } else {
            t.len() as int
        };
        let args_from = first_match(t, CharClass::Just(' '), false, rest_from);
        Some((t.subrange(1, close), t.subrange(args_from, t.len() as int)))
    } else {
        let sp = first_match(t, CharClass::Just(' '), true, 0);
        let args = if sp < t.len() {
            t.subrange(sp + 1, t.len() as int)
        } else {
            Seq::empty()
        };
        Some((t.subrange(0, sp), args))
    }
}

/// Parse a command into an executable and arguments.
///
/// The returned executable does not contain the leading and trailing quote
/// when the command's first token is quoted; only the first token is
/// quote-aware. An empty or whitespace-only command is rejected.
pub fn parse_command(command: &str) -> (r: Result<(String, String), StartupError>)
    ensures
        (r is Ok) == (parse_command_spec(command@) is Some),
        r matches Ok(p) ==> parse_command_spec(command@) == Some((p.0@, p.1@)),
        r matches Err(e) ==> e == StartupError::InvalidCommand,
{
    let t = trim_of(command);
    let n = t.unicode_len();
    if n == 0 {
        return Err(StartupError::InvalidCommand);
    }
    let c0 = t.get_char(0);
    if c0 == '\'' || c0 == '"' {
        let close = find_in(t, CharClass::Just(c0), true, 1);
        let executable = t.substring_char(1, close);
        let rest_from = if close < n {
            close + 1
        } else {
            n
        };
        let args_from = find_in(t, CharClass::Just(' '), false, rest_from);
        let args = t.substring_char(args_from, n);
        Ok((String::from_str(executable), String::from_str(args)))
    } else {
        let sp = find_in(t, CharClass::Just(' '), true, 0);
        let executable = t.substring_char(0, sp);
        let args = if sp < n {
            t.substring_char(sp + 1, n)
        } else {
            let empty = t.substring_char(n, n);
            proof {
                assert(empty@ =~= Seq::<char>::empty());
            }
            empty
        };
        Ok((String::from_str(executable), String::from_str(args)))
    }
}

/// The first whitespace-separated token of `cmd`, or `None` when there is
/// none.
pub open spec fn first_token_spec(cmd: Seq<char>) -> Option<Seq<char>> {
    let a = first_match(cmd, CharClass::Space, false, 0);
    if a == cmd.len() {
        None
    } else {
        Some(cmd.subrange(a, first_match(cmd, CharClass::Space, true, a)))
    }
}

/// The base name that `extract_name_from_cmd` derives from a command:
/// take the first whitespace-separated token, keep the last segment that is
/// non-empty when the token is split on the path separators `/` and `\`,
/// then keep the first segment that is non-empty when that is split on `.`
/// (dropping a file extension). `None` when no non-empty segment exists at
/// some stage.
pub open spec fn base_name_spec(cmd: Seq<char>) -> Option<Seq<char>> {
    match first_token_spec(cmd) {
        None => None,
        Some(t) => {
            let e = last_before(t, CharClass::Sep, false, t.len() as int);
            if e < 0 {
                None
            } else {
                let seg = t.subrange(last_before(t, CharClass::Sep, true, e) + 1, e + 1);
                let d = first_match(seg, CharClass::Just('.'), false, 0);
                if d == seg.len() {
                    None
                } else {
                    Some(seg.subrange(d, first_match(seg, CharClass::Just('.'), true, d)))
                }
            }
        },
    }
}

/// Extract a bare name from a command, for default naming of its startup
/// entry: the first token's last path component, without its extension.
pub fn extract_name_from_cmd(cmd: &str) -> (r: Result<String, StartupError>)
    ensures
        (r is Ok) == (base_name_spec(cmd@) is Some),
        r matches Ok(name) ==> base_name_spec(cmd@) == Some(name@),
        r matches Err(e) ==> e == StartupError::InvalidCommand,
{
    let n = cmd.unicode_len();
    let a = find_in(cmd, CharClass::Space, false, 0);
    if a == n {
        return Err(StartupError::InvalidCommand);
    }
    let b = find_in(cmd, CharClass::Space, true, a);
    proof {
        lemma_first_match_props(cmd@, CharClass::Space, false, 0);
    }
    let t = cmd.substring_char(a, b);
    let tn = t.unicode_len();
    let e = match rfind_in(t, CharClass::Sep, false, tn) {
        Some(e) => e,
        None => {
            return Err(StartupError::InvalidCommand);
        },
    };
    let start = match rfind_in(t, CharClass::Sep, true, e) {
        Some(k) => k + 1,
        None => 0,
    };
    let seg = t.substring_char(start, e + 1);
    let segn = seg.unicode_len();
    let d = find_in(seg, CharClass::Just('.'), false, 0);
    if d == segn {
        return Err(StartupError::InvalidCommand);
    }
    let name = seg.substring_char(d, find_in(seg, CharClass::Just('.'), true, d));
    Ok(String::from_str(name))
}

} // verus!
