//! The per-platform constants of the startup-entry format: autostart
//! directory, artifact file extension, comment convention, and the command
//! used to open the directory.
//!
//! Exactly one platform is selected at process start and passed down;
//! keeping all three as values of one enum keeps the codec testable against
//! plain strings.

use vstd::prelude::*;

verus! {

/// Relies on `dirs::home_dir`: the user's home directory as the system
/// reports it, or `None` when it cannot be determined. The result depends
/// on the environment, so nothing is promised of it.
#[verifier::external_body]
fn home_dir_string() -> (r: Option<String>) {
    dirs::home_dir().and_then(|p| p.to_str().map(|s| s.to_string()))
}

/// The supported platform conventions: a systemd-style user service, a
/// macOS launch agent, or a Windows startup-folder script.
#[derive(Clone, Copy, Debug, PartialEq, Eq, Structural)]
pub enum Platform {
    Linux,
    MacOs,
    Windows,
}

impl Platform {
    /// The artifact file extension, dot included.
    pub open spec fn file_ext_spec(self) -> Seq<char> {
        match self {
            Platform::Linux => ".service"@,
            Platform::MacOs => ".plist"@,
            Platform::Windows => ".ps1"@,
        }
    }

    /// The artifact file extension, dot included.
    pub fn file_ext(self) -> (r: &'static str)
        ensures
            r@ == self.file_ext_spec(),
    {
        match self {
            Platform::Linux => ".service",
            Platform::MacOs => ".plist",
            Platform::Windows => ".ps1",
        }
    }

    /// The comment prefix that marks the embedded command line.
    pub open spec fn comment_prefix_spec(self) -> Seq<char> {
        match self {
            Platform::Linux => "# "@,
            Platform::MacOs => "<!--"@,
            Platform::Windows => "# "@,
        }
    }

    /// The comment prefix that marks the embedded command line.
    pub fn comment_prefix(self) -> (r: &'static str)
        ensures
            r@ == self.comment_prefix_spec(),
    {
        match self {
            Platform::Linux => "# ",
            Platform::MacOs => "<!--",
            Platform::Windows => "# ",
        }
    }

    /// The command line `s` wrapped in the platform's comment syntax, so
    /// that it is inert for the native runner yet recoverable afterwards.
    pub open spec fn comment_spec(self, s: Seq<char>) -> Seq<char> {
        match self {
            Platform::MacOs => self.comment_prefix_spec() + s + "\n-->"@,
            _ => self.comment_prefix_spec() + s,
        }
    }

    /// The program used to open the autostart directory in a file browser.
    pub fn open_command(self) -> (r: &'static str)
        ensures
            self == Platform::Linux ==> r@ == "xdg-open"@,
            self == Platform::MacOs ==> r@ == "open"@,
            self == Platform::Windows ==> r@ == "explorer"@,
    {
        match self {
            Platform::Linux => "xdg-open",
            Platform::MacOs => "open",
            Platform::Windows => "explorer",
        }
    }

    /// The autostart directory, relative to the user's home directory.
    pub open spec fn config_dir_suffix_spec(self) -> Seq<char> {
        match self {
            Platform::Linux => "/.config/systemd/user"@,
            Platform::MacOs => "/Library/LaunchAgents"@,
            Platform::Windows => "\\AppData\\Roaming\\Microsoft\\Windows\\Start Menu\\Programs\\Startup"@,
        }
    }

    /// The platform's autostart directory, resolved against the home
    /// directory that the system reports. `None` when no home directory
    /// can be determined or its path is not valid text.
    pub fn config_dir(self) -> (r: Option<String>)
        ensures
            r matches Some(d) ==> exists|h: Seq<char>| d@ == h + self.config_dir_suffix_spec(),
    {
        match home_dir_string() {
            Some(home) => {
                let d = self.config_dir_path(home.as_str());
                proof {
                    assert(d@ == home@ + self.config_dir_suffix_spec());
                }
                Some(d)
            },
            None => None,
        }
    }

    /// The platform's autostart directory under the given home directory.
    pub fn config_dir_path(self, home: &str) -> (r: String)
        ensures
            r@ == home@ + self.config_dir_suffix_spec(),
    {
        let mut r = String::from_str(home);
        match self {
            Platform::Linux => r.append("/.config/systemd/user"),
            Platform::MacOs => r.append("/Library/LaunchAgents"),
            Platform::Windows => r.append(
                "\\AppData\\Roaming\\Microsoft\\Windows\\Start Menu\\Programs\\Startup",
            ),
        }
        r
    }
}

} // verus!
