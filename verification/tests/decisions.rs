use rmjunk::{
    failure_line, next_action, preview_report, removal_report, removed_line, Action, Channel,
    DirectoryEntry, Report, TraversalConfig,
};

fn entry(name: &str, is_directory: bool) -> DirectoryEntry {
    DirectoryEntry::new(Some(name.to_string()), is_directory, format!("root/{}", name))
}

#[test]
fn config_keeps_its_two_flags() {
    let config = TraversalConfig::new(true, false);
    assert!(config.recursive);
    assert!(!config.dry_run);
    let config = TraversalConfig::new(false, true);
    assert!(!config.recursive);
    assert!(config.dry_run);
    assert_eq!(config, TraversalConfig { recursive: false, dry_run: true });
}

#[test]
fn entry_keeps_what_it_was_made_of() {
    let made = DirectoryEntry::new(Some("a.txt".to_string()), false, "d/a.txt".to_string());
    assert_eq!(made.name.as_deref(), Some("a.txt"));
    assert!(!made.is_directory);
    assert_eq!(made.full_path, "d/a.txt");
}

#[test]
fn entry_is_junk_by_its_base_name_alone() {
    assert!(entry(".DS_Store", false).is_junk());
    assert!(entry(".DS_Store", true).is_junk());
    assert!(!entry("photo.jpg", false).is_junk());
    let in_junk_place =
        DirectoryEntry::new(Some("photo.jpg".to_string()), false, ".Trashes/photo.jpg".to_string());
    assert!(!in_junk_place.is_junk());
    let junk_with_plain_path =
        DirectoryEntry::new(Some("Thumbs.db".to_string()), false, "plain".to_string());
    assert!(junk_with_plain_path.is_junk());
}

#[test]
fn entry_without_a_unicode_name_is_never_junk() {
    let nameless = DirectoryEntry::new(None, false, "root/._\u{fffd}".to_string());
    assert!(!nameless.is_junk());
    for recursive in [false, true] {
        for dry_run in [false, true] {
            let config = TraversalConfig::new(recursive, dry_run);
            assert_eq!(next_action(&nameless, &config), Action::Leave);
        }
    }
    let nameless_dir = DirectoryEntry::new(None, true, "root/\u{fffd}".to_string());
    assert_eq!(next_action(&nameless_dir, &TraversalConfig::new(true, false)), Action::Descend);
    assert_eq!(next_action(&nameless_dir, &TraversalConfig::new(false, false)), Action::Leave);
}

#[test]
fn junk_file_is_removed_as_a_file() {
    for recursive in [false, true] {
        let config = TraversalConfig::new(recursive, false);
        assert_eq!(next_action(&entry("Thumbs.db", false), &config), Action::RemoveFile);
    }
}

#[test]
fn junk_directory_is_removed_as_a_tree() {
    for recursive in [false, true] {
        let config = TraversalConfig::new(recursive, false);
        assert_eq!(next_action(&entry(".Trashes", true), &config), Action::RemoveTree);
    }
}

#[test]
fn dry_run_previews_junk_and_never_removes() {
    for recursive in [false, true] {
        let config = TraversalConfig::new(recursive, true);
        assert_eq!(next_action(&entry("Thumbs.db", false), &config), Action::Preview);
        assert_eq!(next_action(&entry(".Trashes", true), &config), Action::Preview);
        assert_eq!(next_action(&entry("photo.jpg", false), &config), Action::Leave);
    }
}

#[test]
fn plain_directory_is_entered_only_by_a_recursive_sweep() {
    for dry_run in [false, true] {
        assert_eq!(
            next_action(&entry("sub", true), &TraversalConfig::new(true, dry_run)),
            Action::Descend
        );
        assert_eq!(
            next_action(&entry("sub", true), &TraversalConfig::new(false, dry_run)),
            Action::Leave
        );
    }
}

#[test]
fn plain_file_is_left_alone() {
    for recursive in [false, true] {
        for dry_run in [false, true] {
            let config = TraversalConfig::new(recursive, dry_run);
            assert_eq!(next_action(&entry("photo.jpg", false), &config), Action::Leave);
        }
    }
}

#[test]
fn removed_line_has_the_documented_wording() {
    assert_eq!(removed_line("root/.DS_Store"), "Removed: root/.DS_Store");
    assert_eq!(removed_line(""), "Removed: ");
    assert_eq!(removed_line("/a b/\u{e9}~"), "Removed: /a b/\u{e9}~");
}

#[test]
fn failure_line_has_the_documented_wording() {
    assert_eq!(
        failure_line("Permission denied (os error 13)", "root/Thumbs.db"),
        "Failed removal (Permission denied (os error 13)): root/Thumbs.db"
    );
    assert_eq!(failure_line("", ""), "Failed removal (): ");
}

#[test]
fn preview_reads_like_a_removal_that_succeeded() {
    let junk = entry(".DS_Store", false);
    let preview = preview_report(&junk);
    assert_eq!(
        preview,
        Report { channel: Channel::Output, line: "Removed: root/.DS_Store".to_string() }
    );
    assert_eq!(preview, removal_report(&junk, &Ok(())));
}

#[test]
fn removal_that_succeeds_is_reported_on_standard_output() {
    let report = removal_report(&entry("Thumbs.db", false), &Ok(()));
    assert_eq!(report.channel, Channel::Output);
    assert_eq!(report.line, "Removed: root/Thumbs.db");
}

#[test]
fn removal_that_fails_is_reported_on_standard_error() {
    let report =
        removal_report(&entry("Thumbs.db", false), &Err("Permission denied".to_string()));
    assert_eq!(report.channel, Channel::Error);
    assert_eq!(report.line, "Failed removal (Permission denied): root/Thumbs.db");
}
