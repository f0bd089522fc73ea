//! The general laws of the library, stated and proved once over all
//! inputs: how the tokenizer splits, what the base-name extraction keeps,
//! that encoding and decoding round-trip, and that allocation and listing
//! behave as the contracts promise.

use vstd::prelude::*;

use crate::codec::{
    decode_spec, encode_spec, entry_of_spec, ext_matches_spec, first_line_spec, stem_spec,
};
use crate::parser::{base_name_spec, first_token_spec, parse_command_spec};
use crate::platform::Platform;
use crate::store::{candidate_spec, first_free_spec, list_from_spec, list_spec, taken_spec};
use crate::text::{
    CharClass, digit_char, first_match, in_class, is_space_char, lemma_first_match_is,
    lemma_first_match_props, lemma_last_before_is, lemma_trim_ends, lemma_trim_id,
    lemma_trim_result_ends, starts_with_spec, trim_spec,
};

verus! {

/// An unquoted command splits at its first space: the executable is the
/// trimmed command up to the first space, and when there are arguments,
/// `executable + " " + arguments` is the trimmed command again.
pub proof fn lemma_parse_unquoted(cmd: Seq<char>)
    requires
        trim_spec(cmd).len() > 0,
        trim_spec(cmd)[0] != '\'',
        trim_spec(cmd)[0] != '"',
    ensures
        parse_command_spec(cmd) is Some,
        ({
            let t = trim_spec(cmd);
            let sp = first_match(t, CharClass::Just(' '), true, 0);
            let exe = parse_command_spec(cmd)->Some_0.0;
            let args = parse_command_spec(cmd)->Some_0.1;
            &&& exe == t.subrange(0, sp)
            &&& (args.len() == 0 ==> exe == t)
            &&& (args.len() > 0 ==> exe + seq![' '] + args == t)
        }),
{
    let t = trim_spec(cmd);
    let sp = first_match(t, CharClass::Just(' '), true, 0);
    lemma_first_match_props(t, CharClass::Just(' '), true, 0);
    let exe = parse_command_spec(cmd)->Some_0.0;
    let args = parse_command_spec(cmd)->Some_0.1;
    if sp < t.len() {
        // the command is trimmed, so a space cannot be its last character
        lemma_trim_result_ends(cmd);
        assert(t[t.len() - 1] != ' ');
        assert(sp < t.len() - 1);
        assert(args.len() > 0);
        assert(exe + seq![' '] + args =~= t);
    } else {
        assert(exe =~= t);
        assert(args.len() == 0);
    }
}

/// A command whose first token is quoted gives that token back with the
/// quotes stripped, and the arguments are the rest after the closing
/// quote with its leading spaces removed.
pub proof fn lemma_parse_quoted(cmd: Seq<char>)
    requires
        trim_spec(cmd).len() > 0,
        trim_spec(cmd)[0] == '\'' || trim_spec(cmd)[0] == '"',
    ensures
        parse_command_spec(cmd) is Some,
        ({
            let t = trim_spec(cmd);
            let q = t[0];
            let close = first_match(t, CharClass::Just(q), true, 1);
            let rest = if close < t.len() {
                t.subrange(close + 1, t.len() as int)
            } else {
                Seq::<char>::empty()
            };
            let exe = parse_command_spec(cmd)->Some_0.0;
            let args = parse_command_spec(cmd)->Some_0.1;
            &&& exe == t.subrange(1, close)
            &&& forall|k: int| 1 <= k < close ==> t[k] != q
            &&& args == rest.subrange(
                first_match(rest, CharClass::Just(' '), false, 0),
                rest.len() as int,
            )
        }),
{
    let t = trim_spec(cmd);
    let q = t[0];
    let close = first_match(t, CharClass::Just(q), true, 1);
    lemma_first_match_props(t, CharClass::Just(q), true, 1);
    let rest_from = if close < t.len() {
        close + 1
    } else {
        t.len() as int
    };
    let args_from = first_match(t, CharClass::Just(' '), false, rest_from);
    lemma_first_match_props(t, CharClass::Just(' '), false, rest_from);
    let rest = if close < t.len() {
        t.subrange(close + 1, t.len() as int)
    } else {
        Seq::<char>::empty()
    };
    let args = parse_command_spec(cmd)->Some_0.1;
    let j = args_from - rest_from;
    assert(forall|k: int| 0 <= k < rest.len() ==> #[trigger] rest[k] == t[rest_from + k]);
    assert(j < rest.len() ==> rest[j] != ' ');
    lemma_first_match_is(rest, CharClass::Just(' '), false, 0, j);
    assert(args == rest.subrange(j, rest.len() as int)) by {
        assert(rest.subrange(j, rest.len() as int) =~= t.subrange(args_from, t.len() as int));
    }
}

/// The base-name extraction strips the directory part before the last
/// path separator — either kind — and one trailing extension: a command
/// of the shape `dir`, separator, `base`, `.`, `ext` yields exactly
/// `base`.
pub proof fn lemma_base_name_strips(dir: Seq<char>, sep: char, base: Seq<char>, ext: Seq<char>)
    requires
        sep == '/' || sep == '\\',
        base.len() > 0,
        forall|k: int| 0 <= k < dir.len() ==> !is_space_char(#[trigger] dir[k]),
        forall|k: int|
            0 <= k < base.len() ==> !is_space_char(#[trigger] base[k]) && base[k] != '/'
                && base[k] != '\\' && base[k] != '.',
        forall|k: int|
            0 <= k < ext.len() ==> !is_space_char(#[trigger] ext[k]) && ext[k] != '/'
                && ext[k] != '\\',
    ensures
        base_name_spec(dir + seq![sep] + base + seq!['.'] + ext) == Some(base),
{
    let cmd = dir + seq![sep] + base + seq!['.'] + ext;
    let n = cmd.len() as int;
    let dl = dir.len() as int;
    let bl = base.len() as int;
    assert(n == dl + 1 + bl + 1 + ext.len());
    assert(forall|k: int| 0 <= k < n ==> !is_space_char(#[trigger] cmd[k]));
    lemma_first_match_is(cmd, CharClass::Space, false, 0, 0);
    lemma_first_match_is(cmd, CharClass::Space, true, 0, n);
    let t = cmd.subrange(0, n);
    assert(t =~= cmd);
    assert(first_token_spec(cmd) == Some(cmd));
    assert(!in_class(CharClass::Sep, cmd[n - 1]));
    lemma_last_before_is(cmd, CharClass::Sep, false, n, n - 1);
    assert(in_class(CharClass::Sep, cmd[dl]));
    assert(forall|k: int| dl < k < n - 1 ==> !in_class(CharClass::Sep, #[trigger] cmd[k]));
    lemma_last_before_is(cmd, CharClass::Sep, true, n - 1, dl);
    let seg = cmd.subrange(dl + 1, n);
    assert(seg =~= base + seq!['.'] + ext);
    assert(seg[0] != '.');
    lemma_first_match_is(seg, CharClass::Just('.'), false, 0, 0);
    assert(seg[bl] == '.');
    lemma_first_match_is(seg, CharClass::Just('.'), true, 0, bl);
    assert(seg.subrange(0, bl) =~= base);
}

/// The first meaningful line of `content` is `l`, when `content` starts
/// with the newline-free, trimmed, non-shebang line `l` and a newline
/// follows it.
proof fn lemma_first_line_here(content: Seq<char>, l: Seq<char>)
    requires
        0 < l.len() < content.len(),
        content.subrange(0, l.len() as int) == l,
        forall|k: int| 0 <= k < l.len() ==> l[k] != '\n',
        content[l.len() as int] == '\n',
        !is_space_char(l[0]),
        !is_space_char(l[l.len() - 1]),
        !starts_with_spec(l, "#!"@),
    ensures
        first_line_spec(content) == Some(l),
{
    assert forall|k: int| 0 <= k < l.len() implies #[trigger] content[k] == l[k] by {
        assert(content.subrange(0, l.len() as int)[k] == l[k]);
    }
    lemma_first_match_is(content, CharClass::Just('\n'), true, 0, l.len() as int);
    lemma_trim_id(l);
}

/// Round trip: for any raw command and any platform codec, decoding the
/// artifact that encodes the command yields exactly that command. A raw
/// command here is non-empty, free of newlines, and carries no leading
/// or trailing whitespace.
#[verifier::rlimit(100)]
pub proof fn lemma_encode_decode_round_trip(
    p: Platform,
    cmd: Seq<char>,
    name: Option<Seq<char>>,
    stdout: Option<Seq<char>>,
    stderr: Option<Seq<char>>,
    self_bin: Seq<char>,
)
    requires
        cmd.len() > 0,
        trim_spec(cmd) == cmd,
        forall|k: int| 0 <= k < cmd.len() ==> cmd[k] != '\n',
    ensures
        decode_spec(p, encode_spec(p, cmd, name, stdout, stderr, self_bin)) == Some(cmd),
{
    let content = encode_spec(p, cmd, name, stdout, stderr, self_bin);
    let prefix = p.comment_prefix_spec();
    let l = prefix + cmd;
    lemma_trim_ends(cmd);
    match p {
        Platform::Linux => {
            reveal_strlit("# ");
            reveal_strlit("\n[Unit]\nDescription=");
            assert(prefix.len() == 2 && prefix[0] == '#' && prefix[1] == ' ');
            assert("\n[Unit]\nDescription="@[0] == '\n');
            assert(content.subrange(0, l.len() as int) =~= l);
            assert(content[l.len() as int] == '\n');
        },
        Platform::MacOs => {
            reveal_strlit("<!--");
            reveal_strlit("\n-->");
            assert(prefix.len() == 4 && prefix[0] == '<' && prefix[1] == '!' && prefix[2] == '-'
                && prefix[3] == '-');
            assert("\n-->"@[0] == '\n');
            assert(content.subrange(0, l.len() as int) =~= l);
            assert(content[l.len() as int] == '\n');
        },
        Platform::Windows => {
            reveal_strlit("# ");
            reveal_strlit("\n\"");
            assert(prefix.len() == 2 && prefix[0] == '#' && prefix[1] == ' ');
            assert("\n\""@[0] == '\n');
            assert(content.subrange(0, l.len() as int) =~= l);
            assert(content[l.len() as int] == '\n');
        },
    }
    assert(forall|k: int| 0 <= k < prefix.len() ==> #[trigger] l[k] == prefix[k]);
    assert(forall|k: int|
        prefix.len() <= k < l.len() ==> #[trigger] l[k] == cmd[k - prefix.len()]);
    assert(!is_space_char(l[0]));
    assert(!is_space_char(l[l.len() - 1]));
    assert(!starts_with_spec(l, "#!"@)) by {
        reveal_strlit("#!");
        if starts_with_spec(l, "#!"@) {
            assert(l.subrange(0, 2)[0] == l[0] && l.subrange(0, 2)[1] == l[1]);
        }
    }
    lemma_first_line_here(content, l);
    assert(starts_with_spec(l, prefix)) by {
        assert(l.subrange(0, prefix.len() as int) =~= prefix);
    }
    assert(l.subrange(prefix.len() as int, l.len() as int) =~= cmd);
}

/// Round trip through the store: an artifact written under an
/// identifier's file name is listed again under that identifier, with
/// its original command.
pub proof fn lemma_entry_round_trip(
    p: Platform,
    id: Seq<char>,
    cmd: Seq<char>,
    name: Option<Seq<char>>,
    stdout: Option<Seq<char>>,
    stderr: Option<Seq<char>>,
    self_bin: Seq<char>,
)
    requires
        id.len() > 0,
        cmd.len() > 0,
        trim_spec(cmd) == cmd,
        forall|k: int| 0 <= k < cmd.len() ==> cmd[k] != '\n',
    ensures
        entry_of_spec(
            p,
            id + p.file_ext_spec(),
            encode_spec(p, cmd, name, stdout, stderr, self_bin),
        ) == Some((id, cmd)),
{
    let f = id + p.file_ext_spec();
    assert(ext_matches_spec(p, f)) by {
        assert(f.subrange(f.len() - p.file_ext_spec().len(), f.len() as int)
            =~= p.file_ext_spec());
    }
    assert(stem_spec(p, f) =~= id);
    lemma_encode_decode_round_trip(p, cmd, name, stdout, stderr, self_bin);
}

/// Allocation is deterministic and collision-free: against an empty
/// directory the base name itself is chosen; once that file exists, the
/// name with suffix `1`; once both exist, the name with suffix `2`.
pub proof fn lemma_allocation_progression(name: Seq<char>, ext: Seq<char>)
    ensures
        first_free_spec(name, ext, Seq::empty(), 0) == 0,
        first_free_spec(name, ext, seq![candidate_spec(name, 0, ext)], 0) == 1,
        first_free_spec(
            name,
            ext,
            seq![candidate_spec(name, 0, ext), candidate_spec(name, 1, ext)],
            0,
        ) == 2,
{
    let c0 = candidate_spec(name, 0, ext);
    let c1 = candidate_spec(name, 1, ext);
    let c2 = candidate_spec(name, 2, ext);
    assert(!taken_spec(Seq::empty(), c0));
    assert(taken_spec(seq![c0], c0)) by {
        assert(seq![c0][0] == c0);
    }
    assert(c1.len() == c0.len() + 1);
    assert(!taken_spec(seq![c0], c1));
    assert(taken_spec(seq![c0, c1], c0)) by {
        assert(seq![c0, c1][0] == c0);
    }
    assert(taken_spec(seq![c0, c1], c1)) by {
        assert(seq![c0, c1][1] == c1);
    }
    assert(c2.len() == c0.len() + 1);
    assert(c1 != c2) by {
        assert(c1[name.len() as int] == digit_char(1));
        assert(c2[name.len() as int] == digit_char(2));
    }
    assert(!taken_spec(seq![c0, c1], c2));
    assert(first_free_spec(name, ext, seq![c0], 0) == 1) by {
        assert(first_free_spec(name, ext, seq![c0], 1) == 1);
    }
    assert(first_free_spec(name, ext, seq![c0, c1], 0) == 2) by {
        assert(first_free_spec(name, ext, seq![c0, c1], 2) == 2);
        assert(first_free_spec(name, ext, seq![c0, c1], 1) == 2);
    }
}

proof fn lemma_list_push_keeps(
    p: Platform,
    files: Seq<(Seq<char>, Seq<char>)>,
    x: (Seq<char>, Seq<char>),
    i: int,
)
    requires
        0 <= i <= files.len(),
        entry_of_spec(p, x.0, x.1) is Some,
    ensures
        list_from_spec(p, files.push(x), i) == list_from_spec(p, files, i).push(
            entry_of_spec(p, x.0, x.1)->Some_0,
        ),
    decreases files.len() - i,
{
    let e = entry_of_spec(p, x.0, x.1)->Some_0;
    if i < files.len() {
        assert(files.push(x)[i] == files[i]);
        lemma_list_push_keeps(p, files, x, i + 1);
        match entry_of_spec(p, files[i].0, files[i].1) {
            Some(ei) => {
                assert(seq![ei] + list_from_spec(p, files, i + 1).push(e) =~= (seq![ei]
                    + list_from_spec(p, files, i + 1)).push(e));
            },
            None => {},
        }
    } else {
        assert(files.push(x)[files.len() as int] == x);
        assert(list_from_spec(p, files.push(x), files.len() as int) == seq![e]
            + list_from_spec(p, files.push(x), files.len() as int + 1));
        assert(list_from_spec(p, files.push(x), files.len() as int + 1) =~= Seq::<(
            Seq<char>,
            Seq<char>,
        )>::empty());
        assert(seq![e] + Seq::<(Seq<char>, Seq<char>)>::empty() =~= Seq::<(
            Seq<char>,
            Seq<char>,
        )>::empty().push(e));
        assert(list_from_spec(p, files, i) =~= Seq::<(Seq<char>, Seq<char>)>::empty());
    }
}

/// An artifact written for a new entry appears in the next listing, in
/// the last place, under its identifier and with its original command.
pub proof fn lemma_added_entry_is_listed(
    p: Platform,
    id: Seq<char>,
    cmd: Seq<char>,
    name: Option<Seq<char>>,
    stdout: Option<Seq<char>>,
    stderr: Option<Seq<char>>,
    self_bin: Seq<char>,
    files: Seq<(Seq<char>, Seq<char>)>,
)
    requires
        id.len() > 0,
        cmd.len() > 0,
        trim_spec(cmd) == cmd,
        forall|k: int| 0 <= k < cmd.len() ==> cmd[k] != '\n',
    ensures
        list_spec(
            p,
            files.push(
                (id + p.file_ext_spec(), encode_spec(p, cmd, name, stdout, stderr, self_bin)),
            ),
        ) == list_spec(p, files).push((id, cmd)),
{
    lemma_entry_round_trip(p, id, cmd, name, stdout, stderr, self_bin);
    lemma_list_push_keeps(
        p,
        files,
        (id + p.file_ext_spec(), encode_spec(p, cmd, name, stdout, stderr, self_bin)),
        0,
    );
}

proof fn lemma_list_push_skips(
    p: Platform,
    files: Seq<(Seq<char>, Seq<char>)>,
    x: (Seq<char>, Seq<char>),
    i: int,
)
    requires
        0 <= i <= files.len(),
        entry_of_spec(p, x.0, x.1) is None,
    ensures
        list_from_spec(p, files.push(x), i) == list_from_spec(p, files, i),
    decreases files.len() - i,
{
    if i < files.len() {
        assert(files.push(x)[i] == files[i]);
        lemma_list_push_skips(p, files, x, i + 1);
    } else {
        assert(files.push(x)[files.len() as int] == x);
        assert(list_from_spec(p, files.push(x), files.len() as int) == list_from_spec(
            p,
            files.push(x),
            files.len() as int + 1,
        ));
        assert(list_from_spec(p, files.push(x), files.len() as int + 1) =~= Seq::<(
            Seq<char>,
            Seq<char>,
        )>::empty());
        assert(list_from_spec(p, files, i) =~= Seq::<(Seq<char>, Seq<char>)>::empty());
    }
}

/// Listing ignores a file that carries the right extension but whose
/// first meaningful line does not follow the comment convention: it
/// yields no entry, and adding it to a directory changes no listing.
pub proof fn lemma_list_ignores_unmarked(
    p: Platform,
    name: Seq<char>,
    content: Seq<char>,
    files: Seq<(Seq<char>, Seq<char>)>,
)
    requires
        ext_matches_spec(p, name),
        decode_spec(p, content) is None,
    ensures
        entry_of_spec(p, name, content) is None,
        list_spec(p, files.push((name, content))) == list_spec(p, files),
{
    lemma_list_push_skips(p, files, (name, content), 0);
}

} // verus!
