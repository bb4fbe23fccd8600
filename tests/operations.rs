use sysmaint::operations::{get_operation_for_item, ArchOperation, CommandOutcome};

fn exited(success: bool, stderr: &str) -> CommandOutcome {
    CommandOutcome::Exited { success, stderr: stderr.to_string() }
}

#[test]
fn known_names_resolve() {
    assert_eq!(get_operation_for_item("Clean cache"), Some(ArchOperation::CleanCache));
    assert_eq!(get_operation_for_item("Remove orphaned packages"), Some(ArchOperation::RemoveOrphaned));
    assert_eq!(get_operation_for_item("Repair libraries"), Some(ArchOperation::RepairFlatpak));
    assert_eq!(get_operation_for_item("Remove unused libraries"), Some(ArchOperation::RemoveUnusedFlatpak));
    assert_eq!(get_operation_for_item("Clear systemd journal"), Some(ArchOperation::ClearSystemdJournal));
    assert_eq!(get_operation_for_item("Clean general logs"), Some(ArchOperation::CleanGeneralLogs));
    assert_eq!(get_operation_for_item("Clean user cache"), Some(ArchOperation::CleanUserCache));
    assert_eq!(get_operation_for_item("pac* file management"), Some(ArchOperation::ManagePacFiles));
    assert_eq!(
        get_operation_for_item("Manual orphaned config removal"),
        Some(ArchOperation::RemoveOrphanedConfigs)
    );
    assert_eq!(
        get_operation_for_item("Change installation directory"),
        Some(ArchOperation::ChangeFlatpakDir)
    );
}

#[test]
fn placeholder_and_unknown_names_do_not_resolve() {
    assert_eq!(get_operation_for_item("Manual unused package removal (coming soon)"), None);
    assert_eq!(get_operation_for_item("Clean general logs (deprecated)"), None);
    assert_eq!(get_operation_for_item("Package management"), None);
    assert_eq!(get_operation_for_item("Bogus Entry"), None);
}

#[test]
fn start_failure_fails_the_operation() {
    let r = ArchOperation::RepairFlatpak.execute(&vec![CommandOutcome::NotStarted("no such program".to_string())]);
    assert_eq!(r, Err("no such program".to_string()));
}

#[test]
fn first_start_failure_wins() {
    let r = ArchOperation::CleanCache.execute(&vec![
        exited(true, ""),
        CommandOutcome::NotStarted("first".to_string()),
        CommandOutcome::NotStarted("second".to_string()),
    ]);
    assert_eq!(r, Err("first".to_string()));
}

#[test]
fn cache_cleanup_fails_on_unsuccessful_exit() {
    let r = ArchOperation::CleanCache.execute(&vec![exited(true, ""), exited(false, "paccache: denied")]);
    assert_eq!(r, Err("paccache: denied".to_string()));
    let ok = ArchOperation::CleanCache.execute(&vec![exited(false, "not found"), exited(true, "")]);
    assert_eq!(ok, Ok(()));
}

#[test]
fn unsuccessful_exit_fails_every_command_operation() {
    let r = ArchOperation::RemoveOrphaned.execute(&vec![exited(false, "error: no targets")]);
    assert_eq!(r, Err("error: no targets".to_string()));
    let r = ArchOperation::RepairFlatpak.execute(&vec![exited(false, "repair failed")]);
    assert_eq!(r, Err("repair failed".to_string()));
    assert_eq!(ArchOperation::ManagePacFiles.execute(&vec![exited(true, "")]), Ok(()));
    assert!(ArchOperation::ManagePacFiles.runs_commands());
    assert!(!ArchOperation::ChangeFlatpakDir.runs_commands());
    assert_eq!(ArchOperation::ChangeFlatpakDir.execute(&Vec::new()), Ok(()));
}

#[test]
fn command_lines_are_spelled_out() {
    let c = ArchOperation::CleanCache.commands();
    assert_eq!(c, vec![
        vec!["pacman".to_string(), "-Qs".to_string(), "pacman-contrib".to_string()],
        vec!["sudo".to_string(), "paccache".to_string(), "-r".to_string()],
    ]);
    assert_eq!(ArchOperation::ManagePacFiles.commands(), vec![vec!["sudo".to_string(), "pacdiff".to_string()]]);
    assert_eq!(
        ArchOperation::RemoveUnusedFlatpak.commands(),
        vec![vec!["sudo".to_string(), "flatpak".to_string(), "uninstall".to_string(), "--unused".to_string()]]
    );
    assert!(ArchOperation::CleanGeneralLogs.commands().is_empty());
}

#[test]
fn labels_and_notices() {
    assert_eq!(ArchOperation::CleanCache.label(), "Clean package cache");
    assert_eq!(ArchOperation::ManagePacFiles.label(), "Manage pac* files");
    assert_eq!(ArchOperation::ChangeFlatpakDir.notice(), Some("Feature coming soon..."));
    assert_eq!(
        ArchOperation::ClearSystemdJournal.notice(),
        Some("Cleared all journal logs older than 1 day")
    );
    assert_eq!(ArchOperation::RepairFlatpak.notice(), None);
}
