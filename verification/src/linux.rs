//! The systemd-style codec: a user service unit whose first line is the
//! commented command.

use vstd::prelude::*;

use crate::parser::{parse_command, parse_command_spec};
use crate::platform::Platform;
use crate::text::{opt_view, trim_spec};

verus! {

/// The default redirection target of a service unit.
pub open spec fn journal_spec() -> Seq<char> {
    "journal"@
}

/// The full body of a service-unit artifact for `cmd`, with the display
/// name, stdout target and stderr target already resolved: the commented
/// command, then the unit's sections with fixed metadata.
pub open spec fn unit_text_spec(
    cmd: Seq<char>,
    name: Seq<char>,
    stdout: Seq<char>,
    stderr: Seq<char>,
) -> Seq<char> {
    Platform::Linux.comment_spec(cmd) + "\n[Unit]\nDescription="@ + name
        + "\nAfter=network.target\n\n[Service]\nExecStart="@ + cmd
        + "\nRestart=on-failure\nRestartSec=5\nLimitNOFILE=4096\nStandardOutput="@ + stdout
        + "\nStandardError="@ + stderr + "\nSyslogIdentifier="@ + name
        + "\nLogLevelMax=info\nTimeoutStartSec=60\nTimeoutStopSec=30\nWorkingDirectory=/tmp\n\n[Install]\nWantedBy=default.target\n"@
}

/// The body of the artifact before resolution: the name defaults to the
/// parsed executable, the redirection targets to the journal.
pub open spec fn format_spec(
    cmd: Seq<char>,
    name: Option<Seq<char>>,
    stdout: Option<Seq<char>>,
    stderr: Option<Seq<char>>,
) -> Seq<char> {
    let name_r = match name {
        Some(n) => n,
        None => parse_command_spec(cmd)->Some_0.0,
    };
    let stdout_r = match stdout {
        Some(s) => s,
        None => journal_spec(),
    };
    let stderr_r = match stderr {
        Some(s) => s,
        None => journal_spec(),
    };
    unit_text_spec(cmd, name_r, stdout_r, stderr_r)
}

/// Wrap the command in the unit file's comment syntax.
pub fn comment(s: &str) -> (r: String)
    ensures
        r@ == Platform::Linux.comment_spec(s@),
{
    let mut r = String::from_str("# ");
    r.append(s);
    r
}

/// Produce the complete service-unit artifact for `cmd`.
///
/// When `name` is absent the parsed executable serves as the display name,
/// so the command must then not be empty or whitespace-only.
pub fn format(cmd: &str, name: Option<&str>, stdout: Option<&str>, stderr: Option<&str>) -> (r:
    String)
    requires
        name is Some || trim_spec(cmd@).len() > 0,
    ensures
        r@ == format_spec(cmd@, opt_view(name), opt_view(stdout), opt_view(stderr)),
{
    let name_r: String = match name {
        Some(n) => String::from_str(n),
        None => match parse_command(cmd) {
            Ok(p) => p.0,
            Err(_) => {
                proof {
                    assert(false);
                }
                String::new()
            },
        },
    };
    let stdout_r: &str = match stdout {
        Some(s) => s,
        None => "journal",
    };
    let stderr_r: &str = match stderr {
        Some(s) => s,
        None => "journal",
    };
    let mut r = comment(cmd);
    r.append("\n[Unit]\nDescription=");
    r.append(name_r.as_str());
    r.append("\nAfter=network.target\n\n[Service]\nExecStart=");
    r.append(cmd);
    r.append("\nRestart=on-failure\nRestartSec=5\nLimitNOFILE=4096\nStandardOutput=");
    r.append(stdout_r);
    r.append("\nStandardError=");
    r.append(stderr_r);
    r.append("\nSyslogIdentifier=");
    r.append(name_r.as_str());
    r.append(
        "\nLogLevelMax=info\nTimeoutStartSec=60\nTimeoutStopSec=30\nWorkingDirectory=/tmp\n\n[Install]\nWantedBy=default.target\n",
    );
    proof {
        assert(r@ =~= format_spec(cmd@, opt_view(name), opt_view(stdout), opt_view(stderr)));
    }
    r
}

} // verus!
