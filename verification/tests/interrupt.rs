use crunchy_cli_core::shutdown::{on_interrupt, removal, Removal, TempEntry};

fn entry(name: &str, is_file: Option<bool>) -> TempEntry {
    TempEntry { name: name.to_string(), is_file }
}

#[test]
fn own_file_is_removed_as_file() {
    assert_eq!(removal(&entry(".crunchy-cli_abc.ts", Some(true))), Removal::RemoveFile);
}

#[test]
fn own_directory_is_removed_with_its_content() {
    assert_eq!(removal(&entry(".crunchy-cli_segments", Some(false))), Removal::RemoveDirectory);
}

#[test]
fn own_entry_of_unknown_kind_is_removed_as_file() {
    assert_eq!(removal(&entry(".crunchy-cli_x", None)), Removal::RemoveFile);
}

#[test]
fn bare_prefix_is_an_own_entry() {
    assert_eq!(removal(&entry(".crunchy-cli_", Some(true))), Removal::RemoveFile);
}

#[test]
fn foreign_entries_are_kept() {
    assert_eq!(removal(&entry("crunchy-cli_abc", Some(true))), Removal::Keep);
    assert_eq!(removal(&entry(".crunchy-cli", Some(true))), Removal::Keep);
    assert_eq!(removal(&entry("x.crunchy-cli_abc", Some(false))), Removal::Keep);
    assert_eq!(removal(&entry("", None)), Removal::Keep);
    assert_eq!(removal(&entry(".Crunchy-cli_abc", Some(true))), Removal::Keep);
}

#[test]
fn interrupt_removes_own_entries_only() {
    let entries = vec![
        entry("systemd-private", Some(false)),
        entry(".crunchy-cli_1.mp4", Some(true)),
        entry("notes.txt", Some(true)),
        entry(".crunchy-cli_dir", Some(false)),
        entry(".crunchy-cli_unknown", None),
    ];
    let shutdown = on_interrupt(Some(&entries));
    assert_eq!(
        shutdown.removals,
        vec![
            Removal::Keep,
            Removal::RemoveFile,
            Removal::Keep,
            Removal::RemoveDirectory,
            Removal::RemoveFile
        ]
    );
    assert!(shutdown.show_cursor);
    assert_eq!(shutdown.exit_code, 1);
}

#[test]
fn interrupt_with_unreadable_directory_still_ends_the_run() {
    let shutdown = on_interrupt(None);
    assert!(shutdown.removals.is_empty());
    assert!(shutdown.show_cursor);
    assert_eq!(shutdown.exit_code, 1);
}

#[test]
fn interrupt_with_empty_directory_removes_nothing() {
    let shutdown = on_interrupt(Some(&vec![]));
    assert!(shutdown.removals.is_empty());
    assert!(shutdown.show_cursor);
    assert_eq!(shutdown.exit_code, 1);
}
