use vstd::prelude::*;
use crate::menu::MenuItem;

verus! {

/// `items` lists the entries of `spec` (name, whether it is a category) in
/// order, all unselected, categories at level 0 and leaves at level 1.
pub open spec fn lists_catalog(items: Seq<MenuItem>, spec: Seq<(Seq<char>, bool)>) -> bool {
    &&& items.len() == spec.len()
    &&& forall|i: int|
        0 <= i < items.len() ==> {
            &&& (#[trigger] items[i]).name@ == spec[i].0
            &&& items[i].is_category == spec[i].1
            &&& !items[i].selected
            &&& items[i].indent_level == if spec[i].1 { 0usize } else { 1usize }
        }
}

/// The menu offered on Arch-based systems.
pub open spec fn arch_catalog_spec() -> Seq<(Seq<char>, bool)> {
    seq![
        ("Package management"@, true),
        ("Clean cache"@, false),
        ("Remove orphaned packages"@, false),
        ("Manual unused package removal"@, false),
        ("Flatpack management"@, true),
        ("Repair libraries"@, false),
        ("Remove unused libraries"@, false),
        ("Manual unused flatpak removal"@, false),
        ("Change installation directory"@, false),
        ("Cache and logs"@, true),
        ("Clear systemd journal"@, false),
        ("Clean general logs"@, false),
        ("Clean user cache"@, false),
        ("Config"@, true),
        ("pac* file management"@, false),
        ("Manual orphaned config removal"@, false),
    ]
}

/// The menu with the two-screen flow: entries not yet available say so in
/// their names, and have no operation bound to them.
pub open spec fn staged_catalog_spec() -> Seq<(Seq<char>, bool)> {
    seq![
        ("Package management"@, true),
        ("Clean cache"@, false),
        ("Remove orphaned packages"@, false),
        ("Manual unused package removal (coming soon)"@, false),
        ("Flatpack management"@, true),
        ("Repair libraries"@, false),
        ("Remove unused libraries"@, false),
        ("Manual unused flatpak removal (coming soon)"@, false),
        ("Change installation directory (coming soon)"@, false),
        ("Cache and logs"@, true),
        ("Clear systemd journal"@, false),
        ("Clean general logs (deprecated)"@, false),
        ("Clean user cache"@, false),
        ("Config"@, true),
        ("pac* file management"@, false),
        ("Manual orphaned config removal (coming soon)"@, false),
    ]
}

fn push_entry(v: &mut Vec<MenuItem>, name: &str, is_category: bool)
    ensures
        final(v)@.len() == old(v)@.len() + 1,
        forall|i: int| 0 <= i < old(v)@.len() ==> final(v)@[i] == old(v)@[i],
        final(v)@.last().name@ == name@,
        final(v)@.last().is_category == is_category,
        !final(v)@.last().selected,
        final(v)@.last().indent_level == if is_category { 0usize } else { 1usize },
{
    let indent_level: usize = if is_category { 0 } else { 1 };
    v.push(MenuItem { name: String::from_str(name), is_category, selected: false, indent_level });
}

/// The entries of the Arch menu, all unselected.
pub fn arch_catalog() -> (r: Vec<MenuItem>)
    ensures
        lists_catalog(r@, arch_catalog_spec()),
{
    let mut v: Vec<MenuItem> = Vec::new();
    push_entry(&mut v, "Package management", true);
    push_entry(&mut v, "Clean cache", false);
    push_entry(&mut v, "Remove orphaned packages", false);
    push_entry(&mut v, "Manual unused package removal", false);
    push_entry(&mut v, "Flatpack management", true);
    push_entry(&mut v, "Repair libraries", false);
    push_entry(&mut v, "Remove unused libraries", false);
    push_entry(&mut v, "Manual unused flatpak removal", false);
    push_entry(&mut v, "Change installation directory", false);
    push_entry(&mut v, "Cache and logs", true);
    push_entry(&mut v, "Clear systemd journal", false);
    push_entry(&mut v, "Clean general logs", false);
    push_entry(&mut v, "Clean user cache", false);
    push_entry(&mut v, "Config", true);
    push_entry(&mut v, "pac* file management", false);
    push_entry(&mut v, "Manual orphaned config removal", false);
    v
}

/// The entries of the two-screen menu, all unselected.
pub fn staged_catalog() -> (r: Vec<MenuItem>)
    ensures
        lists_catalog(r@, staged_catalog_spec()),
{
    let mut v: Vec<MenuItem> = Vec::new();
    push_entry(&mut v, "Package management", true);
    push_entry(&mut v, "Clean cache", false);
    push_entry(&mut v, "Remove orphaned packages", false);
    push_entry(&mut v, "Manual unused package removal (coming soon)", false);
    push_entry(&mut v, "Flatpack management", true);
    push_entry(&mut v, "Repair libraries", false);
    push_entry(&mut v, "Remove unused libraries", false);
    push_entry(&mut v, "Manual unused flatpak removal (coming soon)", false);
    push_entry(&mut v, "Change installation directory (coming soon)", false);
    push_entry(&mut v, "Cache and logs", true);
    push_entry(&mut v, "Clear systemd journal", false);
    push_entry(&mut v, "Clean general logs (deprecated)", false);
    push_entry(&mut v, "Clean user cache", false);
    push_entry(&mut v, "Config", true);
    push_entry(&mut v, "pac* file management", false);
    push_entry(&mut v, "Manual orphaned config removal (coming soon)", false);
    v
}

} // verus!
