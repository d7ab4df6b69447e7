use fold_modules::{get_directory_layout, LayoutError};

fn entry(name: &str) -> Result<(String, String), String> {
    Ok((name.to_string(), format!("/work/folder/{}", name)))
}

#[test]
fn layout_keeps_source_files_in_listing_order() {
    let entries = vec![
        entry("file_b.rs"),
        entry("mod.rs"),
        entry("notes.txt"),
        entry("file_a.rs"),
    ];
    let r = get_directory_layout(Some("folder".to_string()), entries).unwrap();
    assert_eq!(r.0, "folder");
    assert_eq!(
        r.1,
        vec![
            ("file_b".to_string(), "/work/folder/file_b.rs".to_string()),
            ("file_a".to_string(), "/work/folder/file_a.rs".to_string()),
        ]
    );
}

#[test]
fn layout_without_modules_has_no_files() {
    let r = get_directory_layout(Some("folder".to_string()), vec![]);
    assert_eq!(r, Err(LayoutError::NoFilesFound));
    let r = get_directory_layout(
        Some("folder".to_string()),
        vec![entry("mod.rs"), entry("README.md"), entry("lib.rsx")],
    );
    assert_eq!(r, Err(LayoutError::NoFilesFound));
}

#[test]
fn layout_fails_on_unreadable_entry_first() {
    let entries = vec![entry("file_a.rs"), Err("permission denied".to_string()), entry("..")];
    let r = get_directory_layout(None, entries);
    assert_eq!(
        r,
        Err(LayoutError::CannotGetDirectoryEntry { error: "permission denied".to_string() })
    );
}

#[test]
fn layout_fails_on_name_without_stem() {
    let r = get_directory_layout(Some("folder".to_string()), vec![entry("a.rs"), entry("..")]);
    assert_eq!(r, Err(LayoutError::Other("File doesn't have a name".to_string())));
}

#[test]
fn layout_needs_a_directory_name() {
    let r = get_directory_layout(None, vec![entry("a.rs")]);
    assert_eq!(r, Err(LayoutError::Other("Cannot get current directory".to_string())));
}

#[test]
fn layout_dot_rs_keeps_its_whole_name() {
    let r = get_directory_layout(Some("d".to_string()), vec![entry(".rs"), entry("x.y.rs")]).unwrap();
    assert_eq!(r.1[0].0, ".rs");
    assert_eq!(r.1[1].0, "x.y");
}
