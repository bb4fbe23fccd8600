use sysmaint::menu::MenuItem;
use sysmaint::operations::ArchOperation;
use sysmaint::runner::ExecutionRunner;

fn leaf(name: &str) -> MenuItem {
    MenuItem { name: name.to_string(), is_category: false, selected: true, indent_level: 1 }
}

#[test]
fn failure_does_not_stop_the_batch() {
    let mut r = ExecutionRunner::new(&vec![leaf("Clean cache"), leaf("Remove orphaned packages")]);
    assert_eq!(r.next_operation(), Some(ArchOperation::CleanCache));
    r.record(Ok(()));
    assert_eq!(r.next_operation(), Some(ArchOperation::RemoveOrphaned));
    r.record(Err("pacman failed".to_string()));
    assert!(r.is_finished());
    assert_eq!(r.next_operation(), None);
    let reports = r.reports();
    assert_eq!(reports.len(), 2);
    assert_eq!(reports[0].name, "Clean cache");
    assert_eq!(reports[0].outcome, Ok(()));
    assert_eq!(reports[1].name, "Remove orphaned packages");
    assert_eq!(reports[1].outcome, Err("pacman failed".to_string()));
    assert_eq!(r.failures(), vec!["pacman failed".to_string()]);
}

#[test]
fn unresolved_entries_are_skipped() {
    let r = ExecutionRunner::new(&vec![
        leaf("Manual unused package removal (coming soon)"),
        leaf("Clear systemd journal"),
        leaf("Bogus Entry"),
    ]);
    assert_eq!(r.jobs().len(), 1);
    assert_eq!(r.jobs()[0].name, "Clear systemd journal");
    assert_eq!(r.jobs()[0].operation, ArchOperation::ClearSystemdJournal);
}

#[test]
fn empty_batch_is_finished_at_once() {
    let r = ExecutionRunner::new(&Vec::new());
    assert!(r.is_finished());
    assert_eq!(r.next_operation(), None);
    assert!(r.failures().is_empty());
}
