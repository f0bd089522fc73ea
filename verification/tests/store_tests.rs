use user_startup::{
    Platform, StartupError, add_item, extract_name_from_cmd, find_writable_path, get_items_list,
    linux, remove_items,
};

fn names_of(files: &[(String, String)]) -> Vec<String> {
    files.iter().map(|f| f.0.clone()).collect()
}

#[test]
fn test_find_writable_path() {
    let path = find_writable_path("test", Platform::Windows, &Vec::new()).unwrap();
    assert_eq!(path, "test.ps1");
    let name =
        extract_name_from_cmd(r#"D:\no_install_software\syncthing\syncthing.exe"#).unwrap();
    let path = find_writable_path(&name, Platform::Windows, &Vec::new()).unwrap();
    assert_eq!(path, "syncthing.ps1");
}

#[test]
fn allocation_probes_numeric_suffixes_in_order() {
    let platform = Platform::Linux;
    let mut existing: Vec<String> = Vec::new();
    assert_eq!(find_writable_path("test", platform, &existing).unwrap(), "test.service");
    existing.push("test.service".to_string());
    assert_eq!(find_writable_path("test", platform, &existing).unwrap(), "test1.service");
    existing.push("test1.service".to_string());
    assert_eq!(find_writable_path("test", platform, &existing).unwrap(), "test2.service");
}

#[test]
fn allocation_reports_exhaustion_after_a_thousand_candidates() {
    let mut existing: Vec<String> = vec!["test.service".to_string()];
    for i in 1..1000 {
        existing.push(format!("test{}.service", i));
    }
    assert_eq!(
        find_writable_path("test", Platform::Linux, &existing),
        Err(StartupError::AllocationExhausted)
    );
}

#[test]
fn add_item_derives_name_and_encodes() {
    let (file_name, body) = add_item(
        "myapp --flag",
        None,
        None,
        None,
        Platform::Linux,
        "",
        &Vec::new(),
    )
    .unwrap();
    assert_eq!(file_name, "myapp.service");
    assert_eq!(body, linux::format("myapp --flag", None, None, None));
}

#[test]
fn add_item_rejects_invalid_commands_before_any_effect() {
    let err = add_item("", None, None, None, Platform::Linux, "", &Vec::new());
    assert_eq!(err, Err(StartupError::InvalidCommand));
    let err = add_item("   ", Some("name"), None, None, Platform::Linux, "", &Vec::new());
    assert_eq!(err, Err(StartupError::InvalidCommand));
    let err = add_item("///", None, None, None, Platform::Linux, "", &Vec::new());
    assert_eq!(err, Err(StartupError::InvalidCommand));
}

#[test]
fn intergration_test() {
    let platform = Platform::Linux;
    let mut files: Vec<(String, String)> = Vec::new();
    let start = get_items_list(platform, &files);

    let added = add_item("myusrtest", None, None, None, platform, "", &names_of(&files)).unwrap();
    files.push(added);
    let added = add_item("myusrtest", None, None, None, platform, "", &names_of(&files)).unwrap();
    files.push(added);

    let items = get_items_list(platform, &files);
    assert_eq!(items.len(), start.len() + 2);
    assert_eq!(
        items,
        vec![
            ("myusrtest".to_string(), "myusrtest".to_string()),
            ("myusrtest1".to_string(), "myusrtest".to_string()),
        ]
    );

    let ids = vec!["myusrtest".to_string(), "myusrtest1".to_string()];
    let plan = remove_items(platform, &ids, &names_of(&files));
    assert_eq!(plan.len(), 2);
    for step in &plan {
        assert!(step.found);
        files.retain(|f| f.0 != step.file_name);
    }
    assert_eq!(get_items_list(platform, &files).len(), 0);
}

#[test]
fn remove_reports_missing_ids_and_continues() {
    let platform = Platform::Linux;
    let existing = vec!["real.service".to_string()];
    let ids = vec!["ghost".to_string(), "real".to_string()];
    let plan = remove_items(platform, &ids, &existing);
    assert_eq!(plan.len(), 2);
    assert_eq!(plan[0].file_name, "ghost.service");
    assert!(!plan[0].found);
    assert_eq!(plan[1].file_name, "real.service");
    assert!(plan[1].found);
}

#[test]
fn list_ignores_files_without_the_comment_convention() {
    let platform = Platform::Linux;
    let files = vec![
        ("a.service".to_string(), "# echo one\n[Unit]\n".to_string()),
        ("b.service".to_string(), "[Unit]\nExecStart=x\n".to_string()),
        ("c.txt".to_string(), "# not ours\n".to_string()),
        ("d.service".to_string(), "".to_string()),
        (".service".to_string(), "# hidden\n".to_string()),
    ];
    let items = get_items_list(platform, &files);
    assert_eq!(items, vec![("a".to_string(), "echo one".to_string())]);
}

#[test]
fn list_reads_launch_agents_too() {
    let files = vec![(
        "x.plist".to_string(),
        "<!--run me\n-->\n<?xml version=\"1.0\"?>\n".to_string(),
    )];
    let items = get_items_list(Platform::MacOs, &files);
    assert_eq!(items, vec![("x".to_string(), "run me".to_string())]);
}
