//! Reading an artifact back: the first meaningful line of a file, the
//! comment-line decoder that recovers the original command, and the
//! encode dispatch over the platforms.
//!
//! Decoding is deliberately not generic artifact parsing: it reads back
//! the one comment line that `encode` embeds.

use vstd::prelude::*;

use crate::linux;
use crate::macos;
use crate::platform::Platform;
use crate::text::{
    CharClass, ends_with_spec, ends_with_str, find_in, first_match, lemma_first_match_props,
    opt_view, starts_with_spec, starts_with_str, trim_of, trim_spec,
};
use crate::windows;

verus! {

#[via_fn]
proof fn first_line_from_decreases(content: Seq<char>, pos: int) {
    lemma_first_match_props(content, CharClass::Just('\n'), true, pos);
}

/// The first line of `content` at or after `pos` that is non-empty after
/// trimming and is not a shebang line, itself trimmed; `None` when there
/// is no such line.
pub open spec fn first_line_from(content: Seq<char>, pos: int) -> Option<Seq<char>>
    decreases content.len() - pos
    when 0 <= pos <= content.len()
    via first_line_from_decreases
{
    let nl = first_match(content, CharClass::Just('\n'), true, pos);
    let t = trim_spec(content.subrange(pos, nl));
    if t.len() > 0 && !starts_with_spec(t, "#!"@) {
        Some(t)
    } else if nl >= content.len() {
        None
    } else {
        first_line_from(content, nl + 1)
    }
}

/// The first meaningful line of `content`: non-empty after trimming and
/// not a shebang line.
pub open spec fn first_line_spec(content: Seq<char>) -> Option<Seq<char>> {
    first_line_from(content, 0)
}

/// Read the first line of `content` that is non-empty after trimming and
/// does not start a shebang, trimmed; `None` when the whole content holds
/// no such line.
pub fn read_first_line(content: &str) -> (r: Option<String>)
    ensures
        match r {
            Some(l) => first_line_spec(content@) == Some(l@),
            None => first_line_spec(content@) is None,
        },
{
    let n = content.unicode_len();
    let mut pos: usize = 0;
    loop
        invariant
            pos <= n,
            n == content@.len(),
            first_line_spec(content@) == first_line_from(content@, pos as int),
        decreases n - pos,
    {
        let nl = find_in(content, CharClass::Just('\n'), true, pos);
        let line = content.substring_char(pos, nl);
        let t = trim_of(line);
        if t.unicode_len() > 0 && !starts_with_str(t, "#!") {
            return Some(String::from_str(t));
        }
        if nl >= n {
            return None;
        }
        pos = nl + 1;
    }
}

/// The command recovered from an artifact body: the first meaningful
/// line, when it begins with the platform's comment prefix, with the
/// prefix stripped and the rest trimmed.
pub open spec fn decode_spec(p: Platform, content: Seq<char>) -> Option<Seq<char>> {
    match first_line_spec(content) {
        None => None,
        Some(l) => {
            if starts_with_spec(l, p.comment_prefix_spec()) {
                Some(trim_spec(l.subrange(p.comment_prefix_spec().len() as int, l.len() as int)))
            } else {
                None
            }
        },
    }
}

/// Recover the embedded command from an artifact body, if its first
/// meaningful line follows the platform's comment convention.
pub fn decode_first_line(p: Platform, content: &str) -> (r: Option<String>)
    ensures
        match r {
            Some(c) => decode_spec(p, content@) == Some(c@),
            None => decode_spec(p, content@) is None,
        },
{
    let line = match read_first_line(content) {
        Some(l) => l,
        None => {
            return None;
        },
    };
    let prefix = p.comment_prefix();
    if starts_with_str(line.as_str(), prefix) {
        let rest = line.as_str().substring_char(prefix.unicode_len(), line.as_str().unicode_len());
        Some(String::from_str(trim_of(rest)))
    } else {
        None
    }
}

/// Whether `name` is a file name of the platform's artifact kind: it
/// carries the platform's extension behind a non-empty stem.
pub open spec fn ext_matches_spec(p: Platform, name: Seq<char>) -> bool {
    name.len() > p.file_ext_spec().len() && ends_with_spec(name, p.file_ext_spec())
}

/// The identifier of an artifact: its file name without the extension.
pub open spec fn stem_spec(p: Platform, name: Seq<char>) -> Seq<char> {
    name.subrange(0, name.len() - p.file_ext_spec().len())
}

/// The listing entry that the file `name` with body `content` yields:
/// its identifier paired with the recovered command, or `None` when the
/// extension or the comment convention does not match.
pub open spec fn entry_of_spec(p: Platform, name: Seq<char>, content: Seq<char>) -> Option<
    (Seq<char>, Seq<char>),
> {
    if ext_matches_spec(p, name) {
        match decode_spec(p, content) {
            Some(cmd) => Some((stem_spec(p, name), cmd)),
            None => None,
        }
    } else {
        None
    }
}

/// Decode one directory entry: the artifact file `file_name` with body
/// `content` becomes an (identifier, command) pair when it is one of
/// ours.
pub fn decode_entry(p: Platform, file_name: &str, content: &str) -> (r: Option<(String, String)>)
    ensures
        match r {
            Some(e) => entry_of_spec(p, file_name@, content@) == Some((e.0@, e.1@)),
            None => entry_of_spec(p, file_name@, content@) is None,
        },
{
    let ext = p.file_ext();
    let n = file_name.unicode_len();
    if n <= ext.unicode_len() || !ends_with_str(file_name, ext) {
        return None;
    }
    let stem = file_name.substring_char(0, n - ext.unicode_len());
    match decode_first_line(p, content) {
        Some(cmd) => Some((String::from_str(stem), cmd)),
        None => None,
    }
}

/// The artifact body that `add` writes for `cmd` on platform `p`: the
/// commented command followed by the platform's native invocation block.
pub open spec fn encode_spec(
    p: Platform,
    cmd: Seq<char>,
    name: Option<Seq<char>>,
    stdout: Option<Seq<char>>,
    stderr: Option<Seq<char>>,
    self_bin: Seq<char>,
) -> Seq<char> {
    match p {
        Platform::Linux => linux::format_spec(cmd, name, stdout, stderr),
        Platform::MacOs => macos::format_spec(cmd, name, stdout, stderr),
        Platform::Windows => windows::format_spec(cmd, stdout, stderr, self_bin),
    }
}

/// Produce the artifact body for `cmd` on platform `p`.
///
/// `self_bin` is the path of this tool's own binary; only the
/// startup-script artifact kind embeds it. When `name` is absent the
/// codecs that display a name derive it from the command, which must then
/// not be empty or whitespace-only.
pub fn encode(
    p: Platform,
    cmd: &str,
    name: Option<&str>,
    stdout: Option<&str>,
    stderr: Option<&str>,
    self_bin: &str,
) -> (r: String)
    requires
        name is Some || trim_spec(cmd@).len() > 0,
    ensures
        r@ == encode_spec(p, cmd@, opt_view(name), opt_view(stdout), opt_view(stderr), self_bin@),
{
    match p {
        Platform::Linux => linux::format(cmd, name, stdout, stderr),
        Platform::MacOs => macos::format(cmd, name, stdout, stderr),
        Platform::Windows => windows::format(cmd, name, stdout, stderr, self_bin),
    }
}

} // verus!
