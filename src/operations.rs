use vstd::prelude::*;
use crate::text::same_text;

verus! {

/// The maintenance operations a leaf of the menu can stand for.
#[derive(PartialEq, Eq, Structural, Clone, Copy, Debug)]
pub enum ArchOperation {
    CleanCache,
    RemoveOrphaned,
    ManualPackageRemoval,
    RepairFlatpak,
    RemoveUnusedFlatpak,
    ManualFlatpakRemoval,
    ChangeFlatpakDir,
    ClearSystemdJournal,
    CleanGeneralLogs,
    CleanUserCache,
    ManagePacFiles,
    RemoveOrphanedConfigs,
}

/// What became of one external command of an operation.
pub enum CommandOutcome {
    /// The command could not be started; the message says why.
    NotStarted(String),
    /// The command ran to its end.
    Exited { success: bool, stderr: String },
}

/// The operation bound to a leaf name, if any; names are matched exactly.
pub open spec fn operation_for_name(name: Seq<char>) -> Option<ArchOperation> {
    if name == "Clean cache"@ {
        Some(ArchOperation::CleanCache)
    } else if name == "Remove orphaned packages"@ {
        Some(ArchOperation::RemoveOrphaned)
    } else if name == "Manual unused package removal"@ {
        Some(ArchOperation::ManualPackageRemoval)
    } else if name == "Repair libraries"@ {
        Some(ArchOperation::RepairFlatpak)
    } else if name == "Remove unused libraries"@ {
        Some(ArchOperation::RemoveUnusedFlatpak)
    } else if name == "Manual unused flatpak removal"@ {
        Some(ArchOperation::ManualFlatpakRemoval)
    } else if name == "Change installation directory"@ {
        Some(ArchOperation::ChangeFlatpakDir)
    } else if name == "Clear systemd journal"@ {
        Some(ArchOperation::ClearSystemdJournal)
    } else if name == "Clean general logs"@ {
        Some(ArchOperation::CleanGeneralLogs)
    } else if name == "Clean user cache"@ {
        Some(ArchOperation::CleanUserCache)
    } else if name == "pac* file management"@ {
        Some(ArchOperation::ManagePacFiles)
    } else if name == "Manual orphaned config removal"@ {
        Some(ArchOperation::RemoveOrphanedConfigs)
    } else {
        None
    }
}

/// Resolves a leaf name to its operation; unknown names have none.
pub fn get_operation_for_item(item_name: &str) -> (r: Option<ArchOperation>)
    ensures
        r == operation_for_name(item_name@),
{
    if same_text(item_name, "Clean cache") {
        Some(ArchOperation::CleanCache)
    } else if same_text(item_name, "Remove orphaned packages") {
        Some(ArchOperation::RemoveOrphaned)
    } else if same_text(item_name, "Manual unused package removal") {
        Some(ArchOperation::ManualPackageRemoval)
    } else if same_text(item_name, "Repair libraries") {
        Some(ArchOperation::RepairFlatpak)
    } else if same_text(item_name, "Remove unused libraries") {
        Some(ArchOperation::RemoveUnusedFlatpak)
    } else if same_text(item_name, "Manual unused flatpak removal") {
        Some(ArchOperation::ManualFlatpakRemoval)
    } else if same_text(item_name, "Change installation directory") {
        Some(ArchOperation::ChangeFlatpakDir)
    } else if same_text(item_name, "Clear systemd journal") {
        Some(ArchOperation::ClearSystemdJournal)
    } else if same_text(item_name, "Clean general logs") {
        Some(ArchOperation::CleanGeneralLogs)
    } else if same_text(item_name, "Clean user cache") {
        Some(ArchOperation::CleanUserCache)
    } else if same_text(item_name, "pac* file management") {
        Some(ArchOperation::ManagePacFiles)
    } else if same_text(item_name, "Manual orphaned config removal") {
        Some(ArchOperation::RemoveOrphanedConfigs)
    } else {
        None
    }
}

/// The message of the first command that could not be started, if any.
pub open spec fn first_start_failure(o: Seq<CommandOutcome>) -> Option<String>
    decreases o.len(),
{
    if o.len() == 0 {
        None
    } else {
        match o[0] {
            CommandOutcome::NotStarted(e) => Some(e),
            CommandOutcome::Exited { .. } => first_start_failure(o.drop_first()),
        }
    }
}

impl ArchOperation {
    /// The operation runs external commands; it then fails when its last
    /// command exits unsuccessfully, with that command's error output.
    pub open spec fn status_decides(self) -> bool {
        self.command_lines().len() > 0
    }

    /// The outcome of the operation, given what became of its commands.
    pub open spec fn outcome_of(self, o: Seq<CommandOutcome>) -> Result<(), String> {
        match first_start_failure(o) {
            Some(e) => Err(e),
            None => if self.status_decides() && o.len() > 0 {
                match o.last() {
                    CommandOutcome::Exited { success, stderr } => if success {
                        Ok(())
                    } else {
                        Err(stderr)
                    },
                    CommandOutcome::NotStarted(e) => Err(e),
                }
            } else {
                Ok(())
            },
        }
    }

    /// The command lines the operation runs, in order, each as program and
    /// arguments.
    pub open spec fn command_lines(self) -> Seq<Seq<Seq<char>>> {
        match self {
            ArchOperation::CleanCache => seq![
                seq!["pacman"@, "-Qs"@, "pacman-contrib"@],
                seq!["sudo"@, "paccache"@, "-r"@],
            ],
            ArchOperation::RemoveOrphaned => seq![seq!["sudo"@, "pacman"@, "-Rns"@, "$(pacman -Qtdq)"@]],
            ArchOperation::RepairFlatpak => seq![seq!["sudo"@, "flatpak"@, "repair"@]],
            ArchOperation::RemoveUnusedFlatpak => seq![seq!["sudo"@, "flatpak"@, "uninstall"@, "--unused"@]],
            ArchOperation::ClearSystemdJournal => seq![seq!["sudo"@, "journalctl"@, "--vacuum-time=1d"@]],
            ArchOperation::CleanUserCache => seq![seq!["rm"@, "-rf"@, "~/.cache/*"@]],
            ArchOperation::ManagePacFiles => seq![seq!["sudo"@, "pacdiff"@]],
            _ => seq![],
        }
    }

    pub open spec fn label_of(self) -> Seq<char> {
        match self {
            ArchOperation::CleanCache => "Clean package cache"@,
            ArchOperation::RemoveOrphaned => "Remove orphan packages"@,
            ArchOperation::ManualPackageRemoval => "Manual package removal"@,
            ArchOperation::RepairFlatpak => "Repair flatpak libraries"@,
            ArchOperation::RemoveUnusedFlatpak => "Remove unused libraries"@,
            ArchOperation::ManualFlatpakRemoval => "Manual flatpak removal"@,
            ArchOperation::ChangeFlatpakDir => "Change flatpak installation location"@,
            ArchOperation::ClearSystemdJournal => "Clear systemd journal"@,
            ArchOperation::CleanGeneralLogs => "Clean general logs"@,
            ArchOperation::CleanUserCache => "Clean user cache"@,
            ArchOperation::ManagePacFiles => "Manage pac* files"@,
            ArchOperation::RemoveOrphanedConfigs => "Remove orphaned configs"@,
        }
    }

    pub open spec fn notice_of(self) -> Option<Seq<char>> {
        match self {
            ArchOperation::ManualPackageRemoval => Some("Manual package features coming soon..."@),
            ArchOperation::ManualFlatpakRemoval => Some("Manual package features coming soon..."@),
            ArchOperation::ChangeFlatpakDir => Some("Feature coming soon..."@),
            ArchOperation::ClearSystemdJournal => Some("Cleared all journal logs older than 1 day"@),
            ArchOperation::CleanGeneralLogs => Some("Feature coming soon..."@),
            ArchOperation::RemoveOrphanedConfigs => Some("Feature coming soon..."@),
            _ => None,
        }
    }

    /// The name under which the operation reports its progress.
    pub fn label(&self) -> (r: &'static str)
        ensures
            r@ == self.label_of(),
    {
        match self {
            ArchOperation::CleanCache => "Clean package cache",
            ArchOperation::RemoveOrphaned => "Remove orphan packages",
            ArchOperation::ManualPackageRemoval => "Manual package removal",
            ArchOperation::RepairFlatpak => "Repair flatpak libraries",
            ArchOperation::RemoveUnusedFlatpak => "Remove unused libraries",
            ArchOperation::ManualFlatpakRemoval => "Manual flatpak removal",
            ArchOperation::ChangeFlatpakDir => "Change flatpak installation location",
            ArchOperation::ClearSystemdJournal => "Clear systemd journal",
            ArchOperation::CleanGeneralLogs => "Clean general logs",
            ArchOperation::CleanUserCache => "Clean user cache",
            ArchOperation::ManagePacFiles => "Manage pac* files",
            ArchOperation::RemoveOrphanedConfigs => "Remove orphaned configs",
        }
    }

    /// A line the operation prints once its commands have run, if any.
    pub fn notice(&self) -> (r: Option<&'static str>)
        ensures
            r matches Some(t) ==> self.notice_of() == Some(t@),
            r is None ==> self.notice_of() is None,
    {
        match self {
            ArchOperation::ManualPackageRemoval => Some("Manual package features coming soon..."),
            ArchOperation::ManualFlatpakRemoval => Some("Manual package features coming soon..."),
            ArchOperation::ChangeFlatpakDir => Some("Feature coming soon..."),
            ArchOperation::ClearSystemdJournal => Some("Cleared all journal logs older than 1 day"),
            ArchOperation::CleanGeneralLogs => Some("Feature coming soon..."),
            ArchOperation::RemoveOrphanedConfigs => Some("Feature coming soon..."),
            _ => None,
        }
    }

    /// The command lines to run, in order; the first word of each is the
    /// program.
    pub fn commands(&self) -> (r: Vec<Vec<String>>)
        ensures
            r@.len() == self.command_lines().len(),
            forall|i: int|
                0 <= i < r@.len() ==> (#[trigger] r@[i])@.map_values(|a: String| a@)
                    == self.command_lines()[i],
    {
        let mut r: Vec<Vec<String>> = Vec::new();
        match self {
            ArchOperation::CleanCache => {
                r.push(words(vec!["pacman", "-Qs", "pacman-contrib"]));
                r.push(words(vec!["sudo", "paccache", "-r"]));
            },
            ArchOperation::RemoveOrphaned => {
                r.push(words(vec!["sudo", "pacman", "-Rns", "$(pacman -Qtdq)"]));
            },
            ArchOperation::RepairFlatpak => {
                r.push(words(vec!["sudo", "flatpak", "repair"]));
            },
            ArchOperation::RemoveUnusedFlatpak => {
                r.push(words(vec!["sudo", "flatpak", "uninstall", "--unused"]));
            },
            ArchOperation::ClearSystemdJournal => {
                r.push(words(vec!["sudo", "journalctl", "--vacuum-time=1d"]));
            },
            ArchOperation::CleanUserCache => {
                r.push(words(vec!["rm", "-rf", "~/.cache/*"]));
            },
            ArchOperation::ManagePacFiles => {
                r.push(words(vec!["sudo", "pacdiff"]));
            },
            _ => {},
        }
        proof {
            assert(r@.len() == self.command_lines().len());
        }
        r
    }

    /// Whether the operation runs external commands.
    pub fn runs_commands(&self) -> (r: bool)
        ensures
            r == self.status_decides(),
    {
        match self {
            ArchOperation::CleanCache => true,
            ArchOperation::RemoveOrphaned => true,
            ArchOperation::RepairFlatpak => true,
            ArchOperation::RemoveUnusedFlatpak => true,
            ArchOperation::ClearSystemdJournal => true,
            ArchOperation::CleanUserCache => true,
            ArchOperation::ManagePacFiles => true,
            _ => false,
        }
    }

    /// Decides the operation's result from what became of its commands, in
    /// the order they ran: the first command that could not be started fails
    /// it with its message; otherwise an operation that runs commands fails
    /// with the error output of its last command when that one exited
    /// unsuccessfully, and succeeds else.
    pub fn execute(&self, outcomes: &Vec<CommandOutcome>) -> (r: Result<(), String>)
        ensures
            r == self.outcome_of(outcomes@),
    {
        let n = outcomes.len();
        let mut i: usize = 0;
        proof {
            assert(outcomes@.subrange(0, n as int) =~= outcomes@);
        }
        while i < n
            invariant
                i <= n == outcomes@.len(),
                first_start_failure(outcomes@) == first_start_failure(outcomes@.subrange(i as int, n as int)),
            decreases n - i,
        {
            proof {
                assert(outcomes@.subrange(i as int, n as int).drop_first() =~= outcomes@.subrange(i + 1, n as int));
            }
            match &outcomes[i] {
                CommandOutcome::NotStarted(e) => {
                    return Err(e.clone());
                },
                CommandOutcome::Exited { .. } => {},
            }
            i = i + 1;
        }
        if self.runs_commands() && n > 0 {
            match &outcomes[n - 1] {
                CommandOutcome::Exited { success, stderr } => if *success {
                    Ok(())
                } else {
                    Err(stderr.clone())
                },
                CommandOutcome::NotStarted(e) => Err(e.clone()),
            }
        } else {
            Ok(())
        }
    }
}

/// Owned copies of `parts`, in order.
fn words(parts: Vec<&str>) -> (r: Vec<String>)
    ensures
        r@.map_values(|w: String| w@) == parts@.map_values(|p: &str| p@),
{
    let mut r: Vec<String> = Vec::new();
    let mut i: usize = 0;
    while i < parts.len()
        invariant
            i <= parts@.len(),
            r@.len() == i,
            forall|k: int| 0 <= k < i ==> (#[trigger] r@[k])@ == parts@[k]@,
        decreases parts@.len() - i,
    {
        r.push(String::from_str(parts[i]));
        i = i + 1;
    }
    proof {
        assert(r@.map_values(|w: String| w@) =~= parts@.map_values(|p: &str| p@));
    }
    r
}

} // verus!
