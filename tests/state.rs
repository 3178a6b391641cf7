use nt_gui::state::UiState;

#[test]
fn side_menu_starts_closed() {
    assert!(!UiState::default().side_menu_opened());
}

#[test]
fn open_close_and_toggle() {
    let mut s = UiState::default();
    s.open_side_menu();
    assert!(s.side_menu_opened());
    s.open_side_menu();
    assert!(s.side_menu_opened());
    s.toggle_side_menu();
    assert!(!s.side_menu_opened());
    s.toggle_side_menu();
    assert!(s.side_menu_opened());
    s.close_side_menu();
    assert!(!s.side_menu_opened());
}
