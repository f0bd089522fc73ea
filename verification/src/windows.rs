//! The startup-folder codec: a PowerShell script whose first line is the
//! commented command and whose second line relaunches the command through
//! this tool's own binary, without a visible window.

use vstd::prelude::*;

use crate::platform::Platform;
use crate::text::{opt_view, push_char};

verus! {

/// `escape_quotes` applied to `s` from index `i` on: every double quote
/// becomes `^"`, every other character stays.
pub open spec fn escape_from(s: Seq<char>, i: int) -> Seq<char>
    decreases s.len() - i
    when 0 <= i <= s.len()
{
    if i >= s.len() {
        Seq::empty()
    } else if s[i] == '"' {
        seq!['^', '"'] + escape_from(s, i + 1)
    } else {
        seq![s[i]] + escape_from(s, i + 1)
    }
}

/// `s` with every double quote escaped for use inside a quoted script
/// argument.
pub open spec fn escape_spec(s: Seq<char>) -> Seq<char> {
    escape_from(s, 0)
}

/// A `--stdout <target>` or `--stderr <target>` flag, or nothing when the
/// target is absent.
pub open spec fn target_flag_spec(flag: Seq<char>, target: Option<Seq<char>>) -> Seq<char> {
    match target {
        Some(s) => flag + s,
        None => Seq::empty(),
    }
}

/// The body of a startup-script artifact: the commented command, then a
/// quoted relaunch of `cmd` through the tool's own binary at `self_bin`,
/// handing on the redirection targets.
pub open spec fn format_spec(
    cmd: Seq<char>,
    stdout: Option<Seq<char>>,
    stderr: Option<Seq<char>>,
    self_bin: Seq<char>,
) -> Seq<char> {
    Platform::Windows.comment_spec(cmd) + "\n\""@ + self_bin + "\" run \""@ + escape_spec(cmd)
        + "\" "@ + target_flag_spec("--stdout "@, stdout) + " "@ + target_flag_spec(
        "--stderr "@,
        stderr,
    ) + "\n"@
}

/// Wrap the command in the script's comment syntax.
pub fn comment(s: &str) -> (r: String)
    ensures
        r@ == Platform::Windows.comment_spec(s@),
{
    let mut r = String::from_str("# ");
    r.append(s);
    r
}

/// Escape every double quote of `s` so that the result can stand inside a
/// quoted script argument.
pub fn escape_quotes(s: &str) -> (r: String)
    ensures
        r@ == escape_spec(s@),
{
    let n = s.unicode_len();
    let mut r = String::new();
    let mut i: usize = 0;
    while i < n
        invariant
            0 <= i <= n,
            n == s@.len(),
            r@ + escape_from(s@, i as int) == escape_spec(s@),
        decreases n - i,
    {
        let c = s.get_char(i);
        let ghost before = r@;
        if c == '"' {
            push_char(&mut r, '^');
            push_char(&mut r, '"');
            proof {
                assert(r@ + escape_from(s@, i + 1) =~= before + escape_from(s@, i as int));
            }
        } else {
            push_char(&mut r, c);
            proof {
                assert(r@ + escape_from(s@, i + 1) =~= before + escape_from(s@, i as int));
            }
        }
        i = i + 1;
    }
    proof {
        assert(r@ =~= r@ + escape_from(s@, n as int));
    }
    r
}

/// Produce the complete startup-script artifact for `cmd`.
///
/// `self_bin` is the path of this tool's own binary, which the script
/// calls to relaunch the command hidden; the display name plays no role in
/// this artifact kind.
pub fn format(
    cmd: &str,
    name: Option<&str>,
    stdout: Option<&str>,
    stderr: Option<&str>,
    self_bin: &str,
) -> (r: String)
    ensures
        r@ == format_spec(cmd@, opt_view(stdout), opt_view(stderr), self_bin@),
{
    let _ = name;
    let stdout_flag: String = match stdout {
        Some(s) => {
            let mut f = String::from_str("--stdout ");
            f.append(s);
            f
        },
        None => String::new(),
    };
    let stderr_flag: String = match stderr {
        Some(s) => {
            let mut f = String::from_str("--stderr ");
            f.append(s);
            f
        },
        None => String::new(),
    };
    let escaped = escape_quotes(cmd);
    let mut r = comment(cmd);
    r.append("\n\"");
    r.append(self_bin);
    r.append("\" run \"");
    r.append(escaped.as_str());
    r.append("\" ");
    r.append(stdout_flag.as_str());
    r.append(" ");
    r.append(stderr_flag.as_str());
    r.append("\n");
    proof {
        assert(r@ =~= format_spec(cmd@, opt_view(stdout), opt_view(stderr), self_bin@));
    }
    r
}

} // verus!
