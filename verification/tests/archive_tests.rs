use launcher_core::SyncError;
use launcher_core::archive::{
    detect_format, entry_is_safe, join_under, plan_entry, ArchiveFormat, EntryAction,
};

#[test]
fn dispatch_by_extension() {
    assert_eq!(detect_format("pkg.tar.gz"), Ok(ArchiveFormat::TarGz));
    assert_eq!(detect_format("pkg.tgz"), Ok(ArchiveFormat::TarGz));
    assert_eq!(detect_format("pkg.zip"), Ok(ArchiveFormat::Zip));
    assert_eq!(detect_format("pkg.jar"), Ok(ArchiveFormat::Zip));
}

#[test]
fn unknown_extension_is_rejected() {
    assert_eq!(detect_format("pkg.rar"), Err(SyncError::UnsupportedFormat));
    assert_eq!(detect_format("pkg"), Err(SyncError::UnsupportedFormat));
    // A plain tar stream is neither gzip-compressed tar nor zip-format.
    assert_eq!(detect_format("pkg.tar"), Err(SyncError::UnsupportedFormat));
}

#[test]
fn traversal_entry_is_rejected() {
    let r = plan_entry("/srv/dest", "../escape.txt");
    assert_eq!(r, Err(SyncError::InvalidEntry));
}

#[test]
fn nested_traversal_entry_is_rejected() {
    assert_eq!(plan_entry("/srv/dest", "a/../b.txt"), Err(SyncError::InvalidEntry));
    assert_eq!(plan_entry("/srv/dest", "a/b/.."), Err(SyncError::InvalidEntry));
}

#[test]
fn absolute_backslash_and_empty_entries_are_rejected() {
    assert_eq!(plan_entry("/srv/dest", "/etc/passwd"), Err(SyncError::InvalidEntry));
    assert_eq!(plan_entry("/srv/dest", "..\\escape.txt"), Err(SyncError::InvalidEntry));
    assert_eq!(plan_entry("/srv/dest", ""), Err(SyncError::InvalidEntry));
}

#[test]
fn dots_inside_a_name_are_not_traversal() {
    assert!(entry_is_safe("a..b/c.txt"));
    assert!(entry_is_safe("..a"));
    assert_eq!(
        plan_entry("/srv/dest", "a..b"),
        Ok(EntryAction::WriteFile("/srv/dest/a..b".to_string()))
    );
}

#[test]
fn file_entry_maps_to_write_under_destination() {
    let r = plan_entry("/srv/dest", "sub/file.txt");
    assert_eq!(r, Ok(EntryAction::WriteFile("/srv/dest/sub/file.txt".to_string())));
}

#[test]
fn directory_entry_maps_to_mkdir() {
    let r = plan_entry("/srv/dest/", "sub/dir/");
    assert_eq!(r, Ok(EntryAction::MakeDir("/srv/dest/sub/dir/".to_string())));
}

#[test]
fn join_inserts_separator_only_when_needed() {
    assert_eq!(join_under("/d", "x"), "/d/x".to_string());
    assert_eq!(join_under("/d/", "x"), "/d/x".to_string());
}
