use vstd::prelude::*;
use crate::text::same_text;

verus! {

/// The text shown beside a highlighted leaf.
pub struct OperationDescription {
    pub title: &'static str,
    pub description: &'static str,
}

/// Title and body for an entry name; unknown names get the fallback text.
pub open spec fn description_of(name: Seq<char>) -> (Seq<char>, Seq<char>) {
    if name == "Clean cache"@ {
        ("Clean Package Cache"@, CLEAN_CACHE_TEXT@)
    } else if name == "Remove orphaned packages"@ {
        ("Remove Orphaned Packages"@, ORPHANS_TEXT@)
    } else if name == "Repair libraries"@ {
        ("Repair Flatpak Libraries"@, REPAIR_TEXT@)
    } else if name == "Remove unused libraries"@ {
        ("Remove Unused Flatpak Libraries"@, UNUSED_TEXT@)
    } else if name == "Clear systemd journal"@ {
        ("Clear Systemd Journal"@, JOURNAL_TEXT@)
    } else if name == "Clean user cache"@ {
        ("Clean User Cache"@, USER_CACHE_TEXT@)
    } else if name == "pac* file management"@ {
        ("Manage Pacnew/Pacsave Files"@, PAC_FILES_TEXT@)
    } else {
        ("No Description Available"@, FALLBACK_TEXT@)
    }
}

pub const CLEAN_CACHE_TEXT: &'static str = "By default, pacman keeps all packages ever installed on the system in a cache. This is useful for downgrading problematic packages, but can take up a lot of space. This operation removes all but the most recent three versions of each installed package from the cache.";

pub const ORPHANS_TEXT: &'static str = "Your system may have packages that were installed as dependencies for other packages, but are no longer needed. This operation removes these orphaned packages from the system.";

pub const REPAIR_TEXT: &'static str = "Due to its sandboxed nature, Flatpak applications can sometimes have issues with shared libraries. This operation repairs the libraries used by Flatpak applications, trimming down on disk usage.";

pub const UNUSED_TEXT: &'static str = "Removes Flatpak runtimes and extensions that are no longer used by any installed applications.";

pub const JOURNAL_TEXT: &'static str = "Systemd, the system responsible for low-level system maintainence, keeps logs of system events in a journal. While useful for troubleshooting, these logs can take up a lot of space. This operation removes any log older than 2 days.";

pub const USER_CACHE_TEXT: &'static str = "Applications store cache data in your home folder, which quickly builds up, but are not required. This operation clears out ~/.cache, saving space.";

pub const PAC_FILES_TEXT: &'static str = "Helps manage .pacnew and .pacsave configuration files that were created during package updates.";

pub const FALLBACK_TEXT: &'static str = "This operation has no detailed description available yet.";

fn describe(title: &'static str, description: &'static str) -> (r: OperationDescription)
    ensures
        r.title@ == title@,
        r.description@ == description@,
{
    OperationDescription { title, description }
}

/// The description of the entry called `operation_name`; never fails.
pub fn get_description(operation_name: &str) -> (r: OperationDescription)
    ensures
        (r.title@, r.description@) == description_of(operation_name@),
{
    if same_text(operation_name, "Clean cache") {
        describe("Clean Package Cache", CLEAN_CACHE_TEXT)
    } else if same_text(operation_name, "Remove orphaned packages") {
        describe("Remove Orphaned Packages", ORPHANS_TEXT)
    } else if same_text(operation_name, "Repair libraries") {
        describe("Repair Flatpak Libraries", REPAIR_TEXT)
    } else if same_text(operation_name, "Remove unused libraries") {
        describe("Remove Unused Flatpak Libraries", UNUSED_TEXT)
    } else if same_text(operation_name, "Clear systemd journal") {
        describe("Clear Systemd Journal", JOURNAL_TEXT)
    } else if same_text(operation_name, "Clean user cache") {
        describe("Clean User Cache", USER_CACHE_TEXT)
    } else if same_text(operation_name, "pac* file management") {
        describe("Manage Pacnew/Pacsave Files", PAC_FILES_TEXT)
    } else {
        describe("No Description Available", FALLBACK_TEXT)
    }
}

} // verus!
