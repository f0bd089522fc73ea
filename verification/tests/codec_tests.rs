use user_startup::{Platform, decode_entry, decode_first_line, encode, read_first_line};
use user_startup::{linux, macos, windows};

#[test]
fn comment_styles_wrap_the_command() {
    assert_eq!(linux::comment("echo hi"), "# echo hi");
    assert_eq!(macos::comment("echo hi"), "<!--echo hi\n-->");
    assert_eq!(windows::comment("echo hi"), "# echo hi");
}

#[test]
fn linux_format_produces_the_exact_unit() {
    let text = linux::format("echo hi", None, None, None);
    let expected = "# echo hi\n\
        [Unit]\n\
        Description=echo\n\
        After=network.target\n\
        \n\
        [Service]\n\
        ExecStart=echo hi\n\
        Restart=on-failure\n\
        RestartSec=5\n\
        LimitNOFILE=4096\n\
        StandardOutput=journal\n\
        StandardError=journal\n\
        SyslogIdentifier=echo\n\
        LogLevelMax=info\n\
        TimeoutStartSec=60\n\
        TimeoutStopSec=30\n\
        WorkingDirectory=/tmp\n\
        \n\
        [Install]\n\
        WantedBy=default.target\n";
    assert_eq!(text, expected);
}

#[test]
fn linux_format_honors_name_and_targets() {
    let text = linux::format("echo hi", Some("greeter"), Some("/tmp/o"), Some("/tmp/e"));
    assert!(text.starts_with("# echo hi\n"));
    assert!(text.contains("Description=greeter\n"));
    assert!(text.contains("StandardOutput=/tmp/o\n"));
    assert!(text.contains("StandardError=/tmp/e\n"));
    assert!(text.contains("SyslogIdentifier=greeter\n"));
}

#[test]
fn macos_format_produces_the_exact_plist() {
    let cmd = "echo hi";
    let text = macos::format(cmd, Some("My App"), Some("/tmp/log"), None);
    let expected = format!(
        "<!--{cmd}\n-->\n<?xml version=\"1.0\" encoding=\"UTF-8\"?>\n<!DOCTYPE plist PUBLIC \"-//Apple//DTD PLIST 1.0//EN\" \"http://www.apple.com/DTDs/PropertyList-1.0.dtd\">\n<plist version=\"1.0\">\n<dict>\n    <key>Label</key>\n    <string>{name}</string>\n    <key>ProgramArguments</key>\n    <array>\n        <string>{cmd}</string>\n    </array>\n    <key>RunAtLoad</key>\n    <true/>\n    <key>KeepAlive</key>\n    <true/>\n    <string>{stdout}</string>\n    <string>{stderr}</string>\n    <key>StandardOutPath</key>\n    <string>{stdout_path}</string>\n    <key>StandardErrorPath</key>\n    <string>{stderr_path}</string>\n</dict>\n</plist>\n",
        cmd = cmd,
        name = "My App",
        stdout = "/tmp/log",
        stderr = "",
        stdout_path = "/tmp/log.out",
        stderr_path = "",
    );
    assert_eq!(text, expected);
}

#[test]
fn windows_format_escapes_quotes_in_the_relaunch_line() {
    let text = windows::format("say \"hi\"", None, Some("o.log"), None, "C:\\tool\\us.exe");
    let expected =
        "# say \"hi\"\n\"C:\\tool\\us.exe\" run \"say ^\"hi^\"\" --stdout o.log \n";
    assert_eq!(text, expected);
}

#[test]
fn windows_escape_quotes_leaves_other_text_alone() {
    assert_eq!(windows::escape_quotes("plain text"), "plain text");
    assert_eq!(windows::escape_quotes("a \"b\" c"), "a ^\"b^\" c");
    assert_eq!(windows::escape_quotes(""), "");
}

#[test]
fn encode_then_decode_recovers_the_command() {
    let cmd = "myapp --flag 'arg with spaces'";
    for (platform, file_name) in [
        (Platform::Linux, "id.service"),
        (Platform::MacOs, "id.plist"),
        (Platform::Windows, "id.ps1"),
    ] {
        let body = encode(platform, cmd, Some("n"), Some("/tmp/o"), Some("/tmp/e"), "bin.exe");
        let entry = decode_entry(platform, file_name, &body);
        assert_eq!(entry, Some(("id".to_string(), cmd.to_string())));
    }
}

#[test]
fn read_first_line_skips_blanks_and_shebangs() {
    assert_eq!(
        read_first_line("\n   \n#!/bin/sh\n# echo hi\nrest"),
        Some("# echo hi".to_string())
    );
    assert_eq!(read_first_line(""), None);
    assert_eq!(read_first_line("\n  \t \n"), None);
    assert_eq!(read_first_line("#!/bin/sh\n"), None);
}

#[test]
fn decode_first_line_strips_the_comment_prefix() {
    assert_eq!(
        decode_first_line(Platform::Linux, "# echo hi\n[Unit]\n"),
        Some("echo hi".to_string())
    );
    assert_eq!(decode_first_line(Platform::Linux, "[Unit]\nExecStart=x\n"), None);
    assert_eq!(
        decode_first_line(Platform::MacOs, "<!--echo hi\n-->\n<?xml?>\n"),
        Some("echo hi".to_string())
    );
}
