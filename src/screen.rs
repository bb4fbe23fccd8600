use vstd::prelude::*;
use crate::catalog::{lists_catalog, staged_catalog, staged_catalog_spec};
use crate::display::{
    bullet_line, confirmation_lines, description_panel, description_panel_of, entry_line,
    selection_lines,
};
use crate::menu::{Direction, MenuItem, MenuModel, MenuState};

verus! {

/// The screen the session shows.
#[derive(PartialEq, Eq, Structural, Clone, Copy, Debug)]
pub enum Screen {
    Selection,
    Confirmation,
}

/// A key press, reduced to what the menu reads.
#[derive(PartialEq, Eq, Structural, Clone, Copy, Debug)]
pub enum Key {
    Char(char),
    Enter,
    Esc,
    Up,
    Down,
    Other,
}

/// The logical events the session reacts to.
#[derive(PartialEq, Eq, Structural, Clone, Copy, Debug)]
pub enum InputEvent {
    NavigateUp,
    NavigateDown,
    Toggle,
    RequestConfirmation,
    Confirm,
    Cancel,
    Quit,
}

/// What the caller does after an event.
#[derive(PartialEq, Eq, Structural, Clone, Copy, Debug)]
pub enum Action {
    /// Redraw and wait for the next key.
    Continue,
    /// End the session; nothing runs and nothing is reported.
    Quit,
    /// Run the selected leaves, report the outcomes and end the session.
    Execute,
    /// Print the selected leaves and end the session.
    ListSelection,
}

/// The event a key stands for on `screen`, if any. On the selection screen
/// `q` quits, `c` asks for confirmation, Enter toggles and the arrows move;
/// on the confirmation screen Enter confirms and Esc cancels.
pub open spec fn event_for(screen: Screen, key: Key) -> Option<InputEvent> {
    match screen {
        Screen::Selection => match key {
            Key::Char(c) => if c == 'q' {
                Some(InputEvent::Quit)
            } else if c == 'c' {
                Some(InputEvent::RequestConfirmation)
            } else {
                None
            },
            Key::Enter => Some(InputEvent::Toggle),
            Key::Up => Some(InputEvent::NavigateUp),
            Key::Down => Some(InputEvent::NavigateDown),
            _ => None,
        },
        Screen::Confirmation => match key {
            Key::Enter => Some(InputEvent::Confirm),
            Key::Esc => Some(InputEvent::Cancel),
            _ => None,
        },
    }
}

pub fn event_for_key(screen: Screen, key: Key) -> (r: Option<InputEvent>)
    ensures
        r == event_for(screen, key),
{
    match screen {
        Screen::Selection => match key {
            Key::Char(c) => if c == 'q' {
                Some(InputEvent::Quit)
            } else if c == 'c' {
                Some(InputEvent::RequestConfirmation)
            } else {
                None
            },
            Key::Enter => Some(InputEvent::Toggle),
            Key::Up => Some(InputEvent::NavigateUp),
            Key::Down => Some(InputEvent::NavigateDown),
            _ => None,
        },
        Screen::Confirmation => match key {
            Key::Enter => Some(InputEvent::Confirm),
            Key::Esc => Some(InputEvent::Cancel),
            _ => None,
        },
    }
}

/// The menu after toggling its highlighted entry (unchanged when empty).
pub open spec fn toggle_highlighted_of(m: MenuState) -> MenuState {
    if m.entries.len() == 0 {
        m
    } else {
        m.toggled_at(m.highlighted as int)
    }
}

/// Abstract state of a two-screen session.
pub struct SessionState {
    pub menu: MenuState,
    pub screen: Screen,
}

impl SessionState {
    /// The menu is well formed, and the confirmation screen is only ever
    /// shown over a non-empty selection.
    pub open spec fn wf(self) -> bool {
        &&& self.menu.wf()
        &&& self.screen == Screen::Confirmation ==> self.menu.selected_leaves().len() > 0
    }

    /// The state and action after one event; events a screen does not
    /// accept change nothing.
    pub open spec fn step(self, e: InputEvent) -> (SessionState, Action) {
        match self.screen {
            Screen::Selection => match e {
                InputEvent::NavigateUp => (
                    SessionState { menu: self.menu.navigated(Direction::Up), screen: self.screen },
                    Action::Continue,
                ),
                InputEvent::NavigateDown => (
                    SessionState { menu: self.menu.navigated(Direction::Down), screen: self.screen },
                    Action::Continue,
                ),
                InputEvent::Toggle => (
                    SessionState { menu: toggle_highlighted_of(self.menu), screen: self.screen },
                    Action::Continue,
                ),
                InputEvent::RequestConfirmation => if self.menu.selected_leaves().len() > 0 {
                    (SessionState { menu: self.menu, screen: Screen::Confirmation }, Action::Continue)
                } else {
                    (self, Action::Continue)
                },
                InputEvent::Quit => (self, Action::Quit),
                _ => (self, Action::Continue),
            },
            Screen::Confirmation => match e {
                InputEvent::Confirm => (self, Action::Execute),
                InputEvent::Cancel => (
                    SessionState { menu: self.menu, screen: Screen::Selection },
                    Action::Continue,
                ),
                _ => (self, Action::Continue),
            },
        }
    }

    /// The state after a sequence of events, taken in order.
    pub open spec fn run(self, events: Seq<InputEvent>) -> SessionState
        decreases events.len(),
    {
        if events.len() == 0 {
            self
        } else {
            self.run(events.drop_last()).step(events.last()).0
        }
    }
}

/// The two-screen session: the selection screen, where entries are
/// navigated and toggled, and the confirmation screen, which shows the
/// selected leaves before they run.
pub struct DebianTui {
    menu: MenuModel,
    current_screen: Screen,
}

impl View for DebianTui {
    type V = SessionState;

    closed spec fn view(&self) -> SessionState {
        SessionState { menu: self.menu@, screen: self.current_screen }
    }
}

impl DebianTui {
    pub open spec fn wf(&self) -> bool {
        self@.wf()
    }

    /// A session over the built-in menu, on the selection screen with the
    /// first entry highlighted.
    pub fn new() -> (r: DebianTui)
        ensures
            r.wf(),
            lists_catalog(r@.menu.entries, staged_catalog_spec()),
            r@.menu.highlighted == 0,
            r@.screen == Screen::Selection,
    {
        DebianTui::with_catalog(staged_catalog())
    }

    /// A session over `entries`, on the selection screen with the first
    /// entry highlighted.
    pub fn with_catalog(entries: Vec<MenuItem>) -> (r: DebianTui)
        ensures
            r.wf(),
            r@.menu == (MenuState { entries: entries@, highlighted: 0 }),
            r@.screen == Screen::Selection,
    {
        DebianTui { menu: MenuModel::new(entries), current_screen: Screen::Selection }
    }

    pub fn menu(&self) -> (r: &MenuModel)
        ensures
            r@ == self@.menu,
    {
        &self.menu
    }

    pub fn current_screen(&self) -> (r: Screen)
        ensures
            r == self@.screen,
    {
        self.current_screen
    }

    /// Applies one event and says what the caller does next.
    pub fn handle_event(&mut self, e: InputEvent) -> (a: Action)
        requires
            old(self).wf(),
        ensures
            final(self).wf(),
            (final(self)@, a) == old(self)@.step(e),
    {
        proof {
            lemma_step_keeps_wf(self@, e);
        }
        match self.current_screen {
            Screen::Selection => match e {
                InputEvent::NavigateUp => {
                    self.menu.navigate(Direction::Up);
                    Action::Continue
                },
                InputEvent::NavigateDown => {
                    self.menu.navigate(Direction::Down);
                    Action::Continue
                },
                InputEvent::Toggle => {
                    self.menu.toggle_highlighted();
                    Action::Continue
                },
                InputEvent::RequestConfirmation => {
                    if self.menu.has_selection() {
                        self.current_screen = Screen::Confirmation;
                    }
                    Action::Continue
                },
                InputEvent::Quit => Action::Quit,
                _ => Action::Continue,
            },
            Screen::Confirmation => match e {
                InputEvent::Confirm => Action::Execute,
                InputEvent::Cancel => {
                    self.current_screen = Screen::Selection;
                    Action::Continue
                },
                _ => Action::Continue,
            },
        }
    }

    /// Applies a key press: the event it stands for on the current screen,
    /// or nothing when it stands for none.
    pub fn handle_key(&mut self, key: Key) -> (a: Action)
        requires
            old(self).wf(),
        ensures
            final(self).wf(),
            match event_for(old(self)@.screen, key) {
                Some(e) => (final(self)@, a) == old(self)@.step(e),
                None => final(self)@ == old(self)@ && a == Action::Continue,
            },
    {
        match event_for_key(self.current_screen, key) {
            Some(e) => self.handle_event(e),
            None => Action::Continue,
        }
    }

    /// The selected leaves, in menu order: what the confirmation screen
    /// shows and what runs on confirmation.
    pub fn selected_leaf_entries(&self) -> (r: Vec<MenuItem>)
        ensures
            r@ == self@.menu.selected_leaves(),
    {
        self.menu.selected_leaf_entries()
    }

    /// The menu list of the selection screen.
    pub fn selection_lines(&self) -> (r: Vec<String>)
        ensures
            r@.map_values(|s: String| s@) == self@.menu.entries.map_values(|e: MenuItem| entry_line(e)),
    {
        selection_lines(&self.menu)
    }

    /// The description panel of the selection screen.
    pub fn description_lines(&self) -> (r: Vec<String>)
        requires
            self.wf(),
        ensures
            r@.map_values(|s: String| s@) == description_panel_of(self@.menu),
    {
        description_panel(&self.menu)
    }

    /// The list of the confirmation screen: one line per selected leaf.
    pub fn confirmation_lines(&self) -> (r: Vec<String>)
        ensures
            r@.map_values(|s: String| s@) == self@.menu.selected_leaves().map_values(
                |e: MenuItem| bullet_line(e),
            ),
    {
        let snapshot = self.menu.selected_leaf_entries();
        confirmation_lines(&snapshot)
    }
}

/// One event keeps the session well formed; in particular the selection
/// screen never gives way to the confirmation screen while nothing is
/// selected.
pub proof fn lemma_step_keeps_wf(s: SessionState, e: InputEvent)
    requires
        s.wf(),
    ensures
        s.step(e).0.wf(),
        s.screen == Screen::Selection && s.menu.selected_leaves().len() == 0 ==> s.step(e).0.screen
            == Screen::Selection,
{
}

/// Whatever keys are pressed, the confirmation screen is only reached with a
/// non-empty selection.
pub proof fn lemma_confirmation_needs_selection(s: SessionState, events: Seq<InputEvent>)
    requires
        s.wf(),
    ensures
        s.run(events).wf(),
        s.run(events).screen == Screen::Confirmation ==> s.run(events).menu.selected_leaves().len() > 0,
    decreases events.len(),
{
    if events.len() > 0 {
        lemma_confirmation_needs_selection(s, events.drop_last());
        lemma_step_keeps_wf(s.run(events.drop_last()), events.last());
    }
}

/// Quitting from the selection screen ends the session with nothing run
/// and the selection left as it was.
pub proof fn lemma_quit_runs_nothing(s: SessionState)
    requires
        s.screen == Screen::Selection,
    ensures
        s.step(InputEvent::Quit) == (s, Action::Quit),
{
}

} // verus!
