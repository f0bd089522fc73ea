use user_startup::{StartupError, extract_name_from_cmd, parse_command};

#[test]
fn test_parse_command() {
    // Test with no quotes around the executable
    let command = r#"ppp arg1 "'arg 2 with spaces'""#;
    let (executable, args) = parse_command(command).unwrap();
    assert_eq!(executable, "ppp");
    assert_eq!(args, "arg1 \"'arg 2 with spaces'\"");

    // Test with single quotes around the executable
    let command = r#"'C:\Program Files\My App\myapp.exe' arg1 'arg 2 with spaces'"#;
    let (executable, args) = parse_command(command).unwrap();
    assert_eq!(executable, "C:\\Program Files\\My App\\myapp.exe");
    assert_eq!(args, "arg1 'arg 2 with spaces'");

    // Test with double quotes around the executable
    let command = r#""C:\Program Files\My App\myapp.exe" arg1 'arg 2 with spaces'"#;
    let (executable, args) = parse_command(command).unwrap();
    assert_eq!(executable, "C:\\Program Files\\My App\\myapp.exe");
    assert_eq!(args, "arg1 'arg 2 with spaces'");
}

#[test]
fn parse_command_trims_and_splits_at_first_space() {
    let (executable, args) = parse_command("  myapp --flag value  ").unwrap();
    assert_eq!(executable, "myapp");
    assert_eq!(args, "--flag value");

    let (executable, args) = parse_command("solo").unwrap();
    assert_eq!(executable, "solo");
    assert_eq!(args, "");
}

#[test]
fn parse_command_quoted_skips_leading_spaces_of_arguments() {
    let (executable, args) = parse_command("'my app'    x  y").unwrap();
    assert_eq!(executable, "my app");
    assert_eq!(args, "x  y");

    // an unclosed quote swallows the rest as the executable
    let (executable, args) = parse_command("'my app x y").unwrap();
    assert_eq!(executable, "my app x y");
    assert_eq!(args, "");
}

#[test]
fn parse_command_rejects_empty_input() {
    assert_eq!(parse_command(""), Err(StartupError::InvalidCommand));
    assert_eq!(parse_command("   \t  "), Err(StartupError::InvalidCommand));
}

#[test]
fn extract_name_drops_directories_and_extension() {
    assert_eq!(extract_name_from_cmd("test.ps1").unwrap(), "test");
    assert_eq!(
        extract_name_from_cmd("D:\\no_install_software\\syncthing\\syncthing.exe").unwrap(),
        "syncthing"
    );
    assert_eq!(extract_name_from_cmd("/usr/bin/app.sh").unwrap(), "app");
    assert_eq!(extract_name_from_cmd("C:\\tools\\syncthing.exe").unwrap(), "syncthing");
    assert_eq!(extract_name_from_cmd("myapp --flag value").unwrap(), "myapp");
    assert_eq!(extract_name_from_cmd("/usr/bin/").unwrap(), "bin");
}

#[test]
fn extract_name_rejects_commands_without_a_name() {
    assert_eq!(extract_name_from_cmd(""), Err(StartupError::InvalidCommand));
    assert_eq!(extract_name_from_cmd("   "), Err(StartupError::InvalidCommand));
    assert_eq!(extract_name_from_cmd("///"), Err(StartupError::InvalidCommand));
    assert_eq!(extract_name_from_cmd("..."), Err(StartupError::InvalidCommand));
}
