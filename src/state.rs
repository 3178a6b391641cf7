use vstd::prelude::*;

verus! {

/// Which parts of the window are shown.
pub struct UiState {
    side_menu: bool,
}

impl View for UiState {
    type V = bool;

    /// Whether the side menu is open.
    closed spec fn view(&self) -> bool {
        self.side_menu
    }
}

impl UiState {
    pub fn side_menu_opened(&self) -> (r: bool)
        ensures
            r == self@,
    {
        self.side_menu
    }

    pub fn open_side_menu(&mut self)
        ensures
            final(self)@,
    {
        self.side_menu = true;
    }

    pub fn close_side_menu(&mut self)
        ensures
            !final(self)@,
    {
        self.side_menu = false;
    }

    pub fn toggle_side_menu(&mut self)
        ensures
            final(self)@ == !old(self)@,
    {
        self.side_menu = !self.side_menu;
    }
}

impl Default for UiState {
    /// The side menu starts closed.
    fn default() -> (r: Self)
        ensures
            !r@,
    {
        UiState { side_menu: false }
    }
}

} // verus!
