//! The launch-agent codec: a property list whose first line is the
//! commented command (the comment's closing marker stands on the next
//! line).

use vstd::prelude::*;

use crate::parser::{parse_command, parse_command_spec};
use crate::platform::Platform;
use crate::text::{opt_view, trim_spec};

verus! {

/// A redirection target with the given suffix appended, or nothing when
/// the target is absent.
pub open spec fn target_path_spec(target: Option<Seq<char>>, suffix: Seq<char>) -> Seq<char> {
    match target {
        Some(s) => s + suffix,
        None => Seq::empty(),
    }
}

/// The full body of a launch-agent artifact for `cmd`, with the label and
/// the redirection values already resolved.
pub open spec fn agent_text_spec(
    cmd: Seq<char>,
    name: Seq<char>,
    stdout: Seq<char>,
    stderr: Seq<char>,
    stdout_path: Seq<char>,
    stderr_path: Seq<char>,
) -> Seq<char> {
    Platform::MacOs.comment_spec(cmd)
        + "\n<?xml version=\"1.0\" encoding=\"UTF-8\"?>\n<!DOCTYPE plist PUBLIC \"-//Apple//DTD PLIST 1.0//EN\" \"http://www.apple.com/DTDs/PropertyList-1.0.dtd\">\n<plist version=\"1.0\">\n<dict>\n    <key>Label</key>\n    <string>"@
        + name + "</string>\n    <key>ProgramArguments</key>\n    <array>\n        <string>"@ + cmd
        + "</string>\n    </array>\n    <key>RunAtLoad</key>\n    <true/>\n    <key>KeepAlive</key>\n    <true/>\n    <string>"@
        + stdout + "</string>\n    <string>"@ + stderr
        + "</string>\n    <key>StandardOutPath</key>\n    <string>"@ + stdout_path
        + "</string>\n    <key>StandardErrorPath</key>\n    <string>"@ + stderr_path
        + "</string>\n</dict>\n</plist>\n"@
}

/// The body of the artifact before resolution: the label defaults to the
/// parsed executable, absent redirection targets to empty values, and the
/// redirection paths carry `.out` and `.err` suffixes.
pub open spec fn format_spec(
    cmd: Seq<char>,
    name: Option<Seq<char>>,
    stdout: Option<Seq<char>>,
    stderr: Option<Seq<char>>,
) -> Seq<char> {
    let name_r = match name {
        Some(n) => n,
        None => parse_command_spec(cmd)->Some_0.0,
    };
    let stdout_r = match stdout {
        Some(s) => s,
        None => Seq::empty(),
    };
    let stderr_r = match stderr {
        Some(s) => s,
        None => Seq::empty(),
    };
    agent_text_spec(
        cmd,
        name_r,
        stdout_r,
        stderr_r,
        target_path_spec(stdout, ".out"@),
        target_path_spec(stderr, ".err"@),
    )
}

/// Wrap the command in the property list's comment syntax.
pub fn comment(s: &str) -> (r: String)
    ensures
        r@ == Platform::MacOs.comment_spec(s@),
{
    let mut r = String::from_str("<!--");
    r.append(s);
    r.append("\n-->");
    r
}

/// Produce the complete launch-agent artifact for `cmd`.
///
/// When `name` is absent the parsed executable serves as the label, so the
/// command must then not be empty or whitespace-only.
pub fn format(cmd: &str, name: Option<&str>, stdout: Option<&str>, stderr: Option<&str>) -> (r:
    String)
    requires
        name is Some || trim_spec(cmd@).len() > 0,
    ensures
        r@ == format_spec(cmd@, opt_view(name), opt_view(stdout), opt_view(stderr)),
{
    let name_r: String = match name {
        Some(n) => String::from_str(n),
        None => match parse_command(cmd) {
            Ok(p) => p.0,
            Err(_) => {
                proof {
                    assert(false);
                }
                String::new()
            },
        },
    };
    let stdout_r: &str = match stdout {
        Some(s) => s,
        None => "",
    };
    let stderr_r: &str = match stderr {
        Some(s) => s,
        None => "",
    };
    let stdout_path: String = match stdout {
        Some(s) => {
            let mut p = String::from_str(s);
            p.append(".out");
            p
        },
        None => String::new(),
    };
    let stderr_path: String = match stderr {
        Some(s) => {
            let mut p = String::from_str(s);
            p.append(".err");
            p
        },
        None => String::new(),
    };
    let mut r = comment(cmd);
    r.append(
        "\n<?xml version=\"1.0\" encoding=\"UTF-8\"?>\n<!DOCTYPE plist PUBLIC \"-//Apple//DTD PLIST 1.0//EN\" \"http://www.apple.com/DTDs/PropertyList-1.0.dtd\">\n<plist version=\"1.0\">\n<dict>\n    <key>Label</key>\n    <string>",
    );
    r.append(name_r.as_str());
    r.append("</string>\n    <key>ProgramArguments</key>\n    <array>\n        <string>");
    r.append(cmd);
    r.append(
        "</string>\n    </array>\n    <key>RunAtLoad</key>\n    <true/>\n    <key>KeepAlive</key>\n    <true/>\n    <string>",
    );
    r.append(stdout_r);
    r.append("</string>\n    <string>");
    r.append(stderr_r);
    r.append("</string>\n    <key>StandardOutPath</key>\n    <string>");
    r.append(stdout_path.as_str());
    r.append("</string>\n    <key>StandardErrorPath</key>\n    <string>");
    r.append(stderr_path.as_str());
    r.append("</string>\n</dict>\n</plist>\n");
    proof {
        assert(r@ =~= agent_text_spec(
            cmd@,
            name_r@,
            stdout_r@,
            stderr_r@,
            stdout_path@,
            stderr_path@,
        ));
        reveal_strlit("");
        assert(""@ =~= Seq::<char>::empty());
        assert(stdout_path@ == target_path_spec(opt_view(stdout), ".out"@));
        assert(stderr_path@ == target_path_spec(opt_view(stderr), ".err"@));
        assert(r@ == format_spec(cmd@, opt_view(name), opt_view(stdout), opt_view(stderr)));
    }
    r
}

} // verus!
