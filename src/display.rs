use vstd::prelude::*;
use crate::descriptions::{description_of, get_description};
use crate::menu::{MenuItem, MenuModel, MenuState};

verus! {

/// Shown in the description panel while a category is highlighted.
pub const NO_LEAF_HINT: &'static str = "Select an operation to see its description";

/// Two spaces per indentation level.
pub open spec fn indent(n: nat) -> Seq<char>
    decreases n,
{
    if n == 0 {
        Seq::empty()
    } else {
        indent((n - 1) as nat) + "  "@
    }
}

pub open spec fn checkbox(selected: bool) -> Seq<char> {
    if selected {
        "[x]"@
    } else {
        "[ ]"@
    }
}

/// How an entry reads in the menu list: indentation, check box, name.
pub open spec fn entry_line(e: MenuItem) -> Seq<char> {
    indent(e.indent_level as nat) + checkbox(e.selected) + " "@ + e.name@
}

/// How a selected leaf reads on the confirmation screen.
pub open spec fn bullet_line(e: MenuItem) -> Seq<char> {
    "• "@ + e.name@
}

/// The description panel: title, blank line and body of the highlighted
/// leaf, or a hint while a category (or nothing) is highlighted.
pub open spec fn description_panel_of(m: MenuState) -> Seq<Seq<char>> {
    if m.entries.len() > 0 && !m.entries[m.highlighted as int].is_category {
        let d = description_of(m.entries[m.highlighted as int].name@);
        seq![d.0, Seq::empty(), d.1]
    } else {
        seq![NO_LEAF_HINT@]
    }
}

/// The menu line of one entry.
pub fn render_entry(e: &MenuItem) -> (r: String)
    ensures
        r@ == entry_line(*e),
{
    let mut s = String::new();
    let mut k: usize = 0;
    while k < e.indent_level
        invariant
            k <= e.indent_level,
            s@ == indent(k as nat),
        decreases e.indent_level - k,
    {
        s.append("  ");
        k = k + 1;
    }
    if e.selected {
        s.append("[x]");
    } else {
        s.append("[ ]");
    }
    s.append(" ");
    s.append(e.name.as_str());
    s
}

/// The menu lines of all entries, in order.
pub fn selection_lines(menu: &MenuModel) -> (r: Vec<String>)
    ensures
        r@.map_values(|s: String| s@) == menu@.entries.map_values(|e: MenuItem| entry_line(e)),
{
    let entries = menu.entries();
    let mut r: Vec<String> = Vec::new();
    let mut i: usize = 0;
    while i < entries.len()
        invariant
            i <= entries@.len(),
            r@.len() == i,
            forall|k: int| 0 <= k < i ==> (#[trigger] r@[k])@ == entry_line(entries@[k]),
        decreases entries@.len() - i,
    {
        r.push(render_entry(&entries[i]));
        i = i + 1;
    }
    proof {
        assert(r@.map_values(|s: String| s@) =~= entries@.map_values(|e: MenuItem| entry_line(e)));
    }
    r
}

/// One line per leaf of `snapshot`, in order, for the confirmation screen.
pub fn confirmation_lines(snapshot: &Vec<MenuItem>) -> (r: Vec<String>)
    ensures
        r@.map_values(|s: String| s@) == snapshot@.map_values(|e: MenuItem| bullet_line(e)),
{
    let mut r: Vec<String> = Vec::new();
    let mut i: usize = 0;
    while i < snapshot.len()
        invariant
            i <= snapshot@.len(),
            r@.len() == i,
            forall|k: int| 0 <= k < i ==> (#[trigger] r@[k])@ == bullet_line(snapshot@[k]),
        decreases snapshot@.len() - i,
    {
        let mut line = String::from_str("• ");
        line.append(snapshot[i].name.as_str());
        r.push(line);
        i = i + 1;
    }
    proof {
        assert(r@.map_values(|s: String| s@) =~= snapshot@.map_values(|e: MenuItem| bullet_line(e)));
    }
    r
}

/// The lines of the description panel for the highlighted entry.
pub fn description_panel(menu: &MenuModel) -> (r: Vec<String>)
    requires
        menu.wf(),
    ensures
        r@.map_values(|s: String| s@) == description_panel_of(menu@),
{
    let entries = menu.entries();
    let h = menu.highlighted_index();
    let mut r: Vec<String> = Vec::new();
    if entries.len() > 0 && !entries[h].is_category {
        let d = get_description(entries[h].name.as_str());
        r.push(String::from_str(d.title));
        r.push(String::new());
        r.push(String::from_str(d.description));
    } else {
        r.push(String::from_str(NO_LEAF_HINT));
    }
    proof {
        assert(r@.map_values(|s: String| s@) =~= description_panel_of(menu@));
    }
    r
}

} // verus!
