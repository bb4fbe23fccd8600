use sysmaint::descriptions::{get_description, FALLBACK_TEXT};

#[test]
fn known_name_has_its_title() {
    let d = get_description("Clean cache");
    assert_eq!(d.title, "Clean Package Cache");
    assert!(d.description.starts_with("By default, pacman keeps"));
}

#[test]
fn unknown_name_gets_fallback() {
    let d = get_description("Bogus Entry");
    assert_eq!(d.title, "No Description Available");
    assert_eq!(d.description, FALLBACK_TEXT);
}

#[test]
fn every_described_name_has_its_own_title() {
    assert_eq!(get_description("Remove orphaned packages").title, "Remove Orphaned Packages");
    assert_eq!(get_description("Repair libraries").title, "Repair Flatpak Libraries");
    assert_eq!(get_description("Remove unused libraries").title, "Remove Unused Flatpak Libraries");
    assert_eq!(get_description("Clear systemd journal").title, "Clear Systemd Journal");
    assert_eq!(get_description("Clean user cache").title, "Clean User Cache");
    assert_eq!(get_description("pac* file management").title, "Manage Pacnew/Pacsave Files");
}

#[test]
fn matching_is_exact() {
    assert_eq!(get_description("clean cache").title, "No Description Available");
    assert_eq!(get_description("Clean cache ").title, "No Description Available");
    assert_eq!(get_description("").title, "No Description Available");
}
