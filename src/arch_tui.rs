use vstd::prelude::*;
use crate::catalog::{arch_catalog, arch_catalog_spec, lists_catalog};
use crate::display::{entry_line, selection_lines};
use crate::menu::{lemma_down_cycle, Direction, MenuItem, MenuModel, MenuState};
use crate::screen::{event_for, event_for_key, toggle_highlighted_of, Action, InputEvent, Key, Screen};

verus! {

/// The menu state and action after one event of the single-screen session:
/// asking for confirmation lists the selection at once and ends it, unless
/// nothing is selected, in which case the request is ignored.
pub open spec fn arch_step(m: MenuState, e: InputEvent) -> (MenuState, Action) {
    match e {
        InputEvent::NavigateUp => (m.navigated(Direction::Up), Action::Continue),
        InputEvent::NavigateDown => (m.navigated(Direction::Down), Action::Continue),
        InputEvent::Toggle => (toggle_highlighted_of(m), Action::Continue),
        InputEvent::RequestConfirmation => if m.selected_leaves().len() > 0 {
            (m, Action::ListSelection)
        } else {
            (m, Action::Continue)
        },
        InputEvent::Quit => (m, Action::Quit),
        _ => (m, Action::Continue),
    }
}

/// The single-screen session: entries are navigated and toggled, and
/// confirming prints the selected leaves.
pub struct ArchTui {
    menu: MenuModel,
}

impl View for ArchTui {
    type V = MenuState;

    closed spec fn view(&self) -> MenuState {
        self.menu@
    }
}

impl ArchTui {
    pub open spec fn wf(&self) -> bool {
        self@.wf()
    }

    /// A session over the built-in menu, with the first entry highlighted.
    pub fn new() -> (r: ArchTui)
        ensures
            r.wf(),
            lists_catalog(r@.entries, arch_catalog_spec()),
            r@.highlighted == 0,
    {
        ArchTui { menu: MenuModel::new(arch_catalog()) }
    }

    pub fn menu(&self) -> (r: &MenuModel)
        ensures
            r@ == self@,
    {
        &self.menu
    }

    /// Toggles the category at `category_index` with all its children;
    /// does nothing on a leaf.
    pub fn toggle_category(&mut self, category_index: usize)
        requires
            old(self).wf(),
            category_index < old(self)@.entries.len(),
        ensures
            final(self).wf(),
            final(self)@ == if old(self)@.entries[category_index as int].is_category {
                old(self)@.toggled_at(category_index as int)
            } else {
                old(self)@
            },
    {
        self.menu.toggle_category(category_index);
    }

    /// Applies one event and says what the caller does next.
    pub fn handle_event(&mut self, e: InputEvent) -> (a: Action)
        requires
            old(self).wf(),
        ensures
            final(self).wf(),
            (final(self)@, a) == arch_step(old(self)@, e),
    {
        match e {
            InputEvent::NavigateUp => {
                self.menu.navigate(Direction::Up);
                Action::Continue
            },
            InputEvent::NavigateDown => {
                self.menu.navigate(Direction::Down);
                Action::Continue
            },
            InputEvent::Toggle => {
                self.menu.toggle_highlighted();
                Action::Continue
            },
            InputEvent::RequestConfirmation => if self.menu.has_selection() {
                Action::ListSelection
            } else {
                Action::Continue
            },
            InputEvent::Quit => Action::Quit,
            _ => Action::Continue,
        }
    }

    /// Applies a key press, read as on a selection screen.
    pub fn handle_key(&mut self, key: Key) -> (a: Action)
        requires
            old(self).wf(),
        ensures
            final(self).wf(),
            match event_for(Screen::Selection, key) {
                Some(e) => (final(self)@, a) == arch_step(old(self)@, e),
                None => final(self)@ == old(self)@ && a == Action::Continue,
            },
    {
        match event_for_key(Screen::Selection, key) {
            Some(e) => self.handle_event(e),
            None => Action::Continue,
        }
    }

    /// The selected leaves, in menu order.
    pub fn selected_leaf_entries(&self) -> (r: Vec<MenuItem>)
        ensures
            r@ == self@.selected_leaves(),
    {
        self.menu.selected_leaf_entries()
    }

    /// The menu list.
    pub fn selection_lines(&self) -> (r: Vec<String>)
        ensures
            r@.map_values(|s: String| s@) == self@.entries.map_values(|e: MenuItem| entry_line(e)),
    {
        selection_lines(&self.menu)
    }
}

/// The menu state after a sequence of events, taken in order.
pub open spec fn arch_run(m: MenuState, events: Seq<InputEvent>) -> MenuState
    decreases events.len(),
{
    if events.len() == 0 {
        m
    } else {
        arch_step(arch_run(m, events.drop_last()), events.last()).0
    }
}

/// `k` moves down in a row.
pub open spec fn downs(k: nat) -> Seq<InputEvent> {
    Seq::new(k, |i: int| InputEvent::NavigateDown)
}

proof fn lemma_arch_downs(m: MenuState, k: nat)
    ensures
        arch_run(m, downs(k)) == m.moved_down(k),
    decreases k,
{
    if k > 0 {
        assert(downs(k).drop_last() =~= downs((k - 1) as nat));
        lemma_arch_downs(m, (k - 1) as nat);
    }
}

/// Pressing Down once per entry brings the highlight back to where it
/// started, with the entries unchanged.
pub proof fn lemma_arch_down_cycle(m: MenuState)
    requires
        m.wf(),
    ensures
        arch_run(m, downs(m.entries.len())) == m,
{
    lemma_arch_downs(m, m.entries.len());
    lemma_down_cycle(m);
}

/// The selection is listed only when it is not empty, and quitting leaves
/// everything as it was and lists nothing.
pub proof fn lemma_arch_list_and_quit(m: MenuState, e: InputEvent)
    ensures
        arch_step(m, e).1 == Action::ListSelection ==> m.selected_leaves().len() > 0,
        arch_step(m, InputEvent::Quit) == (m, Action::Quit),
{
}

} // verus!
