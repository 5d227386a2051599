use swift_v5::cancel::{cancellation_outcome, check_cancellation};
use tokio_util::sync::CancellationToken;
use swift_v5::error::{ExtractError, ToolchainError};
use swift_v5::extract::{
    after_rename, find_dir_contained_by, ArchiveFormat, CopyUnit, DirEntryInfo, EntryKind,
    MoveStep, Relocation, RenameOutcome, UnmountRetry, UnmountStep, WalkAction, WalkEntry,
    UNMOUNT_ATTEMPTS,
};
use swift_v5::project::{Project, ProjectConfig};

fn entry(path: &str, kind: EntryKind) -> WalkEntry {
    WalkEntry { path: path.to_string(), kind }
}

#[test]
fn format_by_suffix() {
    assert_eq!(ArchiveFormat::from_file_name("a-Darwin-universal.dmg"), Some(ArchiveFormat::Dmg));
    assert_eq!(ArchiveFormat::from_file_name("a-Windows-x86_64.zip"), Some(ArchiveFormat::Zip));
    assert_eq!(ArchiveFormat::from_file_name("a-Linux-x86_64.tar.xz"), Some(ArchiveFormat::TarXz));
    assert_eq!(ArchiveFormat::from_file_name("a-Linux-x86_64.tar.gz"), None);
}

#[test]
fn content_root_is_first_real_directory() {
    let entries = vec![
        DirEntryInfo { path: "/tmp/x/README".into(), is_dir: false, is_symlink: false },
        DirEntryInfo { path: "/tmp/x/latest".into(), is_dir: true, is_symlink: true },
        DirEntryInfo { path: "/tmp/x/ATfE-1.2.0".into(), is_dir: true, is_symlink: false },
        DirEntryInfo { path: "/tmp/x/other".into(), is_dir: true, is_symlink: false },
    ];
    assert_eq!(find_dir_contained_by(&entries).unwrap(), "/tmp/x/ATfE-1.2.0");
}

#[test]
fn content_root_missing() {
    let entries = vec![DirEntryInfo { path: "/tmp/x/README".into(), is_dir: false, is_symlink: false }];
    assert!(matches!(find_dir_contained_by(&entries), Err(ExtractError::ContentsNotFound)));
    assert!(matches!(find_dir_contained_by(&Vec::new()), Err(ExtractError::ContentsNotFound)));
}

#[test]
fn cross_device_rename_falls_back_to_copy() {
    assert!(matches!(after_rename(RenameOutcome::CrossesDevices), MoveStep::CopyTree));
    assert!(matches!(after_rename(RenameOutcome::Renamed), MoveStep::Done));
    match after_rename(RenameOutcome::Failed { message: "denied".into() }) {
        MoveStep::Fail(ToolchainError::Io { message }) => assert_eq!(message, "denied"),
        other => panic!("unexpected step: {other:?}"),
    }
}

#[test]
fn copy_recreates_tree_with_links() {
    let mut walk = Relocation::new("/mnt/src", "/opt/dst");
    assert!(matches!(walk.on_entry(false, &entry("/mnt/src", EntryKind::Directory)), WalkAction::Skip));
    assert!(matches!(walk.on_entry(false, &entry("/mnt/src/bin", EntryKind::Directory)), WalkAction::Skip));
    match walk.on_entry(false, &entry("/mnt/src/bin/clang", EntryKind::File)) {
        WalkAction::Spawn(CopyUnit::CopyFile { source, destination }) => {
            assert_eq!(source, "/mnt/src/bin/clang");
            assert_eq!(destination, "/opt/dst/bin/clang");
        }
        other => panic!("unexpected action: {other:?}"),
    }
    match walk.on_entry(false, &entry("/mnt/src/bin/cc", EntryKind::Symlink)) {
        WalkAction::Spawn(CopyUnit::Relink { source, destination }) => {
            assert_eq!(source, "/mnt/src/bin/cc");
            assert_eq!(destination, "/opt/dst/bin/cc");
        }
        other => panic!("unexpected action: {other:?}"),
    }
    assert!(walk.outcome(vec![Ok(()), Ok(())]).is_ok());
}

#[test]
fn cancellation_mid_walk_stops_enumeration() {
    let mut walk = Relocation::new("/mnt/src", "/opt/dst");
    assert!(matches!(walk.on_entry(false, &entry("/mnt/src/a", EntryKind::File)), WalkAction::Spawn(_)));
    assert!(matches!(walk.on_entry(true, &entry("/mnt/src/b", EntryKind::File)), WalkAction::Stop));
    // once stopped, no further entry starts work, even if the signal reads clear
    assert!(matches!(walk.on_entry(false, &entry("/mnt/src/c", EntryKind::File)), WalkAction::Stop));
    assert!(matches!(walk.outcome(vec![Ok(())]), Err(ToolchainError::Cancelled)));
}

#[test]
fn unit_failure_fails_relocation() {
    let walk = Relocation::new("/mnt/src", "/opt/dst");
    let results = vec![
        Ok(()),
        Err(ToolchainError::Io { message: "disk full".into() }),
        Err(ToolchainError::Cancelled),
    ];
    match walk.outcome(results) {
        Err(ToolchainError::Io { message }) => assert_eq!(message, "disk full"),
        other => panic!("unexpected outcome: {other:?}"),
    }
}

#[test]
fn walk_error_fails_relocation() {
    let mut walk = Relocation::new("/mnt/src", "/opt/dst");
    walk.on_walk_error("permission denied".into());
    assert!(matches!(walk.on_entry(false, &entry("/mnt/src/a", EntryKind::File)), WalkAction::Stop));
    match walk.outcome(vec![]) {
        Err(ToolchainError::Extract(ExtractError::WalkDir { message })) => {
            assert_eq!(message, "permission denied")
        }
        other => panic!("unexpected outcome: {other:?}"),
    }
}

#[test]
fn entry_outside_source_stops_walk() {
    let mut walk = Relocation::new("/mnt/src", "/opt/dst");
    assert!(matches!(walk.on_entry(false, &entry("/elsewhere/a", EntryKind::File)), WalkAction::Stop));
    assert!(matches!(walk.outcome(vec![]), Err(ToolchainError::Io { .. })));
}

#[test]
fn unmount_retries_are_bounded() {
    let mut retry = UnmountRetry::new();
    for _ in 0..UNMOUNT_ATTEMPTS {
        assert_eq!(retry.next_step(false).unwrap(), UnmountStep::Detach);
    }
    assert_eq!(retry.next_step(false).unwrap(), UnmountStep::ForceDetach);
    assert_eq!(UNMOUNT_ATTEMPTS, 10);
}

#[test]
fn unmount_retry_observes_cancellation() {
    let mut retry = UnmountRetry::new();
    assert_eq!(retry.next_step(false).unwrap(), UnmountStep::Detach);
    assert!(matches!(retry.next_step(true), Err(ToolchainError::Cancelled)));
}

#[test]
fn project_paths() {
    let p = Project::new("/home/me/robot");
    assert_eq!(p.path(), "/home/me/robot");
    assert_eq!(p.config_path(), "/home/me/robot/v5.toml");
    assert!(Project::is_root_marker("Package.swift"));
    assert!(Project::is_root_marker("package.SWIFT"));
    assert!(!Project::is_root_marker("Package.swift.bak"));
    let config = ProjectConfig { llvm_version: "20.1.0".into() };
    assert_eq!(config.toolchain_version().name, "20.1.0");
}

#[test]
fn cancellation_check_point_follows_token() {
    let token = CancellationToken::new();
    assert_eq!(check_cancellation(&token, 7), Ok(()));
    token.cancel();
    assert_eq!(check_cancellation(&token, 7), Err(7));
    assert_eq!(cancellation_outcome(true, "stop"), Err("stop"));
    assert_eq!(cancellation_outcome(false, "stop"), Ok(()));
}
