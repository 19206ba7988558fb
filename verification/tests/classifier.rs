use rmjunk::is_junk;

#[test]
fn names_left_by_any_system_are_junk() {
    assert!(is_junk("npm-debug.log"));
    assert!(is_junk(".test.swp"));
    assert!(is_junk("..swp"));
    assert!(is_junk(".notes.txt.swp"));
}

#[test]
fn names_left_by_macos_are_junk() {
    assert!(is_junk(".DS_Store"));
    assert!(is_junk(".AppleDouble"));
    assert!(is_junk(".LSOverride"));
    assert!(is_junk("Icon\r"));
    assert!(is_junk("._test"));
    assert!(is_junk("._"));
    assert!(is_junk(".Spotlight-V100"));
    assert!(is_junk(
        ".Spotlight-V100/Store-V2/C6DBF25D-81D4-4B57-907E-B4A555E72C90/0.directoryStoreFile"
    ));
    assert!(is_junk(".Trashes"));
    assert!(is_junk("__MACOSX"));
}

#[test]
fn names_left_by_linux_editors_are_junk() {
    assert!(is_junk("test~"));
    assert!(is_junk("~"));
    assert!(is_junk("report.odt~"));
}

#[test]
fn names_left_by_windows_are_junk() {
    assert!(is_junk("Thumbs.db"));
    assert!(is_junk("ehthumbs.db"));
    assert!(is_junk("Desktop.ini"));
    assert!(is_junk("desktop.ini"));
    assert!(is_junk("@eaDir"));
}

#[test]
fn ordinary_names_are_not_junk() {
    assert!(!is_junk("test"));
    assert!(!is_junk("Icon"));
    assert!(!is_junk("Icons.woff"));
    assert!(!is_junk(".Spotlight-V100-unicorn"));
    assert!(!is_junk("photo.jpg"));
    assert!(!is_junk("sub"));
    assert!(!is_junk(""));
    assert!(!is_junk("."));
    assert!(!is_junk(".."));
}

#[test]
fn a_change_of_case_is_another_name() {
    assert!(!is_junk(".ds_store"));
    assert!(!is_junk(".DS_STORE"));
    assert!(!is_junk("thumbs.db"));
    assert!(!is_junk("THUMBS.DB"));
    assert!(!is_junk("Ehthumbs.db"));
    assert!(!is_junk("DESKTOP.INI"));
    assert!(!is_junk("desktop.INI"));
    assert!(!is_junk("NPM-DEBUG.LOG"));
    assert!(!is_junk(".appledouble"));
    assert!(!is_junk(".lsoverride"));
    assert!(!is_junk("__macosx"));
    assert!(!is_junk(".trashes"));
    assert!(!is_junk("@eadir"));
    assert!(!is_junk(".spotlight-v100"));
    assert!(!is_junk(".test.SWP"));
    assert!(!is_junk("icon\r"));
}

#[test]
fn exact_rows_match_the_whole_name() {
    assert!(!is_junk("Thumbs.db.bak"));
    assert!(!is_junk("my.DS_Store"));
    assert!(!is_junk(".DS_Store2"));
    assert!(!is_junk("xnpm-debug.log"));
    assert!(!is_junk("npm-debug.log.1"));
    assert!(!is_junk("npm-debugxlog"));
    assert!(!is_junk("Thumbsxdb"));
    assert!(!is_junk("desktopxini"));
    assert!(!is_junk("__MACOSX__"));
    assert!(!is_junk("Icon\r\n"));
    assert!(!is_junk("Thumbs.db\n"));
    assert!(!is_junk("\nThumbs.db"));
    assert!(!is_junk("photo.jpg\nThumbs.db"));
}

#[test]
fn swap_names_need_a_leading_dot_and_no_line_feed() {
    assert!(!is_junk(".swp"));
    assert!(!is_junk("test.swp"));
    assert!(!is_junk(".test.swp.bak"));
    assert!(!is_junk(".testxswp"));
    assert!(!is_junk(".a\nb.swp"));
    assert!(is_junk(".a\rb.swp"));
    assert!(is_junk(".\u{e9}t\u{e9}.swp"));
}

#[test]
fn sidecar_names_match_by_prefix() {
    assert!(is_junk("._photo.jpg"));
    assert!(is_junk("._a\nb"));
    assert!(!is_junk("_.photo"));
    assert!(!is_junk("x._photo"));
    assert!(!is_junk(".-photo"));
}

#[test]
fn spotlight_names_end_there_or_go_on_with_a_slash() {
    assert!(is_junk(".Spotlight-V100/"));
    assert!(is_junk(".Spotlight-V100/x"));
    assert!(!is_junk(".Spotlight-V100x"));
    assert!(!is_junk(".Spotlight-V10"));
    assert!(!is_junk("x.Spotlight-V100"));
}

#[test]
fn trashes_matches_anywhere_in_the_name() {
    assert!(is_junk("a.Trashesb"));
    assert!(is_junk("x.Trashes"));
    assert!(is_junk(".Trashes-501"));
    assert!(!is_junk("Trashes"));
    assert!(!is_junk(".Trashe"));
    assert!(!is_junk(".Trash.es"));
}

#[test]
fn backup_and_thumbnail_names_match_by_suffix() {
    assert!(is_junk("x@eaDir"));
    assert!(!is_junk("@eaDirx"));
    assert!(!is_junk("~x"));
    assert!(!is_junk("x~\n"));
    assert!(!is_junk("@eaDir\n"));
}
