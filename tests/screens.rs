use sysmaint::arch_tui::ArchTui;
use sysmaint::display::{render_entry, NO_LEAF_HINT};
use sysmaint::menu::MenuItem;
use sysmaint::screen::{event_for_key, Action, DebianTui, InputEvent, Key, Screen};

fn cat(name: &str) -> MenuItem {
    MenuItem { name: name.to_string(), is_category: true, selected: false, indent_level: 0 }
}

fn leaf(name: &str) -> MenuItem {
    MenuItem { name: name.to_string(), is_category: false, selected: false, indent_level: 1 }
}

fn session() -> DebianTui {
    DebianTui::with_catalog(vec![
        cat("Package management"),
        leaf("Clean cache"),
        leaf("Remove orphaned packages"),
        cat("Cache and logs"),
        leaf("Clear systemd journal"),
    ])
}

#[test]
fn confirmation_needs_a_selection() {
    let mut t = session();
    assert_eq!(t.handle_event(InputEvent::RequestConfirmation), Action::Continue);
    assert_eq!(t.current_screen(), Screen::Selection);
    t.handle_event(InputEvent::Toggle);
    t.handle_event(InputEvent::Toggle);
    assert_eq!(t.handle_event(InputEvent::RequestConfirmation), Action::Continue);
    assert_eq!(t.current_screen(), Screen::Selection);
    t.handle_event(InputEvent::NavigateDown);
    t.handle_event(InputEvent::Toggle);
    t.handle_event(InputEvent::Toggle);
    assert_eq!(t.handle_event(InputEvent::RequestConfirmation), Action::Continue);
    assert_eq!(t.current_screen(), Screen::Selection);
}

#[test]
fn quit_with_selection_runs_nothing() {
    let mut t = session();
    t.handle_event(InputEvent::Toggle);
    assert_eq!(t.selected_leaf_entries().len(), 2);
    assert_eq!(t.handle_event(InputEvent::Quit), Action::Quit);
    assert_eq!(t.current_screen(), Screen::Selection);
}

#[test]
fn confirm_then_execute() {
    let mut t = session();
    t.handle_event(InputEvent::NavigateUp);
    t.handle_event(InputEvent::Toggle);
    t.handle_event(InputEvent::RequestConfirmation);
    assert_eq!(t.current_screen(), Screen::Confirmation);
    assert_eq!(t.confirmation_lines(), vec!["• Clear systemd journal".to_string()]);
    assert_eq!(t.handle_event(InputEvent::Toggle), Action::Continue);
    assert_eq!(t.handle_event(InputEvent::Quit), Action::Continue);
    assert_eq!(t.current_screen(), Screen::Confirmation);
    assert_eq!(t.handle_event(InputEvent::Confirm), Action::Execute);
}

#[test]
fn cancel_keeps_selections() {
    let mut t = session();
    t.handle_event(InputEvent::Toggle);
    t.handle_event(InputEvent::RequestConfirmation);
    assert_eq!(t.handle_event(InputEvent::Cancel), Action::Continue);
    assert_eq!(t.current_screen(), Screen::Selection);
    assert_eq!(t.selected_leaf_entries().len(), 2);
    assert_eq!(t.handle_event(InputEvent::Confirm), Action::Continue);
}

#[test]
fn keys_map_per_screen() {
    assert_eq!(event_for_key(Screen::Selection, Key::Char('q')), Some(InputEvent::Quit));
    assert_eq!(event_for_key(Screen::Selection, Key::Char('c')), Some(InputEvent::RequestConfirmation));
    assert_eq!(event_for_key(Screen::Selection, Key::Enter), Some(InputEvent::Toggle));
    assert_eq!(event_for_key(Screen::Selection, Key::Up), Some(InputEvent::NavigateUp));
    assert_eq!(event_for_key(Screen::Selection, Key::Down), Some(InputEvent::NavigateDown));
    assert_eq!(event_for_key(Screen::Selection, Key::Esc), None);
    assert_eq!(event_for_key(Screen::Confirmation, Key::Enter), Some(InputEvent::Confirm));
    assert_eq!(event_for_key(Screen::Confirmation, Key::Esc), Some(InputEvent::Cancel));
    assert_eq!(event_for_key(Screen::Confirmation, Key::Char('q')), None);
    assert_eq!(event_for_key(Screen::Confirmation, Key::Other), None);
}

#[test]
fn keys_drive_the_session() {
    let mut t = session();
    assert_eq!(t.handle_key(Key::Char('x')), Action::Continue);
    t.handle_key(Key::Enter);
    t.handle_key(Key::Char('c'));
    assert_eq!(t.current_screen(), Screen::Confirmation);
    t.handle_key(Key::Esc);
    assert_eq!(t.current_screen(), Screen::Selection);
    assert_eq!(t.handle_key(Key::Char('q')), Action::Quit);
}

#[test]
fn selection_screen_lines() {
    let mut t = session();
    t.handle_event(InputEvent::Toggle);
    let lines = t.selection_lines();
    assert_eq!(lines[0], "[x] Package management");
    assert_eq!(lines[1], "  [x] Clean cache");
    assert_eq!(lines[4], "  [ ] Clear systemd journal");
    assert_eq!(t.description_lines(), vec![NO_LEAF_HINT.to_string()]);
    t.handle_event(InputEvent::NavigateDown);
    let d = t.description_lines();
    assert_eq!(d.len(), 3);
    assert_eq!(d[0], "Clean Package Cache");
    assert_eq!(d[1], "");
}

#[test]
fn entry_indentation_is_two_spaces_per_level() {
    let e = MenuItem { name: "Deep".to_string(), is_category: false, selected: true, indent_level: 3 };
    assert_eq!(render_entry(&e), "      [x] Deep");
}

#[test]
fn built_in_menus() {
    let t = DebianTui::new();
    let e = t.menu().entries();
    assert_eq!(e.len(), 16);
    assert_eq!(e[3].name, "Manual unused package removal (coming soon)");
    assert!(e[13].is_category);
    assert_eq!(t.current_screen(), Screen::Selection);
    let a = ArchTui::new();
    let e = a.menu().entries();
    assert_eq!(e.len(), 16);
    assert_eq!(e[3].name, "Manual unused package removal");
    assert!(e.iter().all(|x| !x.selected));
    assert_eq!(a.menu().highlighted_index(), 0);
}

#[test]
fn single_screen_confirm_lists_selection() {
    let mut a = ArchTui::new();
    assert_eq!(a.handle_key(Key::Char('c')), Action::Continue);
    assert!(a.selected_leaf_entries().is_empty());
    a.toggle_category(9);
    let names: Vec<String> = a.selected_leaf_entries().iter().map(|e| e.name.clone()).collect();
    assert_eq!(names, vec![
        "Clear systemd journal".to_string(),
        "Clean general logs".to_string(),
        "Clean user cache".to_string(),
    ]);
    assert_eq!(a.handle_key(Key::Char('c')), Action::ListSelection);
    assert_eq!(a.handle_key(Key::Down), Action::Continue);
    assert_eq!(a.menu().highlighted_index(), 1);
    assert_eq!(a.handle_key(Key::Char('q')), Action::Quit);
    assert_eq!(a.selection_lines()[9], "[x] Cache and logs");
}

#[test]
fn single_screen_down_cycle_and_quit() {
    let mut a = ArchTui::new();
    a.handle_key(Key::Down);
    a.handle_key(Key::Down);
    a.handle_key(Key::Enter);
    for _ in 0..a.menu().entries().len() {
        assert_eq!(a.handle_key(Key::Down), Action::Continue);
    }
    assert_eq!(a.menu().highlighted_index(), 2);
    a.handle_key(Key::Down);
    a.handle_key(Key::Enter);
    assert_eq!(a.selected_leaf_entries().len(), 2);
    assert_eq!(a.handle_key(Key::Char('q')), Action::Quit);
    assert_eq!(a.selected_leaf_entries().len(), 2);
}
