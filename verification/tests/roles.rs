use netrole::{select_role, show_selection, App, Key, Role};
use tui::widgets::ListState;

fn menu_app() -> App {
    App::new(String::from("0.0.0.0:0"), String::from("127.0.0.1:1"))
}

#[test]
fn select_role_first_entry_is_server() {
    assert_eq!(select_role(Some(0)), Role::Server);
}

#[test]
fn select_role_second_entry_is_client() {
    assert_eq!(select_role(Some(1)), Role::Client);
}

#[test]
fn select_role_quit_entry_selects_nothing() {
    assert_eq!(select_role(Some(2)), Role::Unselected);
}

#[test]
fn select_role_out_of_range_selects_nothing() {
    assert_eq!(select_role(Some(3)), Role::Unselected);
    assert_eq!(select_role(Some(1_000_000)), Role::Unselected);
    assert_eq!(select_role(Some(i64::MAX)), Role::Unselected);
}

#[test]
fn select_role_negative_selects_nothing() {
    assert_eq!(select_role(Some(-1)), Role::Unselected);
    assert_eq!(select_role(Some(i64::MIN)), Role::Unselected);
}

#[test]
fn select_role_unset_selects_nothing() {
    assert_eq!(select_role(None), Role::Unselected);
}

#[test]
fn role_defaults_to_unselected() {
    assert_eq!(Role::default(), Role::Unselected);
}

#[test]
fn role_active_tells_roles_with_a_session() {
    assert!(Role::Server.active());
    assert!(Role::Client.active());
    assert!(!Role::Unselected.active());
}

#[test]
fn role_from_list_state_reads_highlighted_entry() {
    let mut state = ListState::default();
    state.select(Some(0));
    assert_eq!(Role::from(&state), Role::Server);
    state.select(Some(1));
    assert_eq!(Role::from(&state), Role::Client);
    state.select(Some(2));
    assert_eq!(Role::from(&state), Role::Unselected);
    state.select(Some(usize::MAX));
    assert_eq!(Role::from(&state), Role::Unselected);
}

#[test]
fn role_from_list_state_without_highlight_selects_nothing() {
    let state = ListState::default();
    assert_eq!(state.selected(), None);
    assert_eq!(Role::from(&state), Role::Unselected);
    let mut cleared = ListState::default();
    cleared.select(Some(1));
    cleared.select(None);
    assert_eq!(Role::from(&cleared), Role::Unselected);
}

#[test]
fn show_selection_highlights_the_selected_entry() {
    let mut app = menu_app();
    let mut state = ListState::default();
    show_selection(&app, &mut state);
    assert_eq!(state.selected(), Some(0));
    app.on_key(Key::Down);
    show_selection(&app, &mut state);
    assert_eq!(state.selected(), Some(1));
    assert_eq!(Role::from(&state), Role::Client);
    app.on_key(Key::Down);
    show_selection(&app, &mut state);
    assert_eq!(state.selected(), Some(2));
    assert_eq!(Role::from(&state), Role::Unselected);
}

#[test]
fn show_selection_highlights_nothing_in_a_role() {
    let mut app = menu_app();
    let mut state = ListState::default();
    state.select(Some(2));
    app.on_key(Key::Confirm);
    assert_eq!(app.role(), Role::Server);
    show_selection(&app, &mut state);
    assert_eq!(state.selected(), None);
}
