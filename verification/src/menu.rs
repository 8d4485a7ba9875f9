//! The screens of the host program and the moves between them.

use vstd::prelude::*;

verus! {

/// The screen the program shows.
#[derive(Clone, Copy, Debug, PartialEq, Eq, Structural, Hash)]
pub enum AppState {
    Menu,
    Session,
    Settings,
    Progress,
}

/// Whether the main menu takes input.
#[derive(Clone, Copy, Debug, PartialEq, Eq, Structural, Hash)]
pub enum MenuState {
    Main,
    Settings,
    Disabled,
}

/// What a button of the main menu does.
#[derive(Clone, Copy, Debug, PartialEq, Eq, Structural)]
pub enum MenuButtonAction {
    Start,
    Settings,
    Progress,
}

impl Default for AppState {
    fn default() -> (state: AppState)
        ensures
            state == AppState::Menu,
    {
        AppState::Menu
    }
}

impl Default for MenuState {
    fn default() -> (state: MenuState)
        ensures
            state == MenuState::Disabled,
    {
        MenuState::Disabled
    }
}

impl MenuButtonAction {
    /// The screen a pressed menu button leads to.
    pub open spec fn destination(self) -> AppState {
        match self {
            MenuButtonAction::Start => AppState::Session,
            MenuButtonAction::Settings => AppState::Settings,
            MenuButtonAction::Progress => AppState::Progress,
        }
    }

    /// Where a pressed menu button leads: the screen to show, and the menu
    /// state, which is always disabled once a button has been pressed.
    pub fn press(self) -> (next: (AppState, MenuState))
        ensures
            next.0 == self.destination(),
            next.1 == MenuState::Disabled,
    {
        match self {
            MenuButtonAction::Start => (AppState::Session, MenuState::Disabled),
            MenuButtonAction::Settings => (AppState::Settings, MenuState::Disabled),
            MenuButtonAction::Progress => (AppState::Progress, MenuState::Disabled),
        }
    }
}

impl AppState {
    /// The screen after the escape key: it leaves a session for the menu
    /// and starts a session from the menu. On the other screens the key
    /// does nothing.
    pub open spec fn escaped(self) -> AppState {
        match self {
            AppState::Session => AppState::Menu,
            AppState::Menu => AppState::Session,
            _ => self,
        }
    }

    /// The screen to show after the escape key was pressed.
    pub fn after_escape(self) -> (next: AppState)
        ensures
            next == self.escaped(),
    {
        match self {
            AppState::Session => AppState::Menu,
            AppState::Menu => AppState::Session,
            _ => self,
        }
    }
}

} // verus!
