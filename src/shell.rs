//! The application state: whether it runs, which panel is selected, the text
//! field, and the routing of each key either to tab navigation or to the
//! field.
use vstd::prelude::*;

use crate::keys::{KeyCode, KeyEvent, KeyEventKind};
use crate::tabs::SelectedTab;
use crate::textinput::{InputModel, TextInput};

verus! {

/// Whether the event loop goes on.
#[derive(Clone, Copy, Debug, PartialEq, Eq, Structural)]
pub enum AppState {
    Running,
    Quitting,
}

/// Which part of the application receives keys.
#[derive(Clone, Copy, Debug, PartialEq, Eq, Structural)]
pub enum Focus {
    /// Keys move between tabs, enter the field or quit.
    Navigation,
    /// Keys edit the text field.
    Editing,
}

/// The key that steps to the next tab (besides the right arrow).
pub const NEXT_TAB_KEY: char = 'l';
/// The key that steps to the previous tab (besides the left arrow).
pub const PREVIOUS_TAB_KEY: char = 'h';
/// The key that ends the application while navigating.
pub const QUIT_KEY: char = 'q';
/// The key that gives the text field focus.
pub const EDIT_KEY: char = 'i';

/// What the application holds, as a value.
pub struct AppModel {
    pub running: bool,
    pub tab: SelectedTab,
    pub input: InputModel,
}

impl AppModel {
    /// The text field's cursor is a valid insertion point.
    pub open spec fn wf(self) -> bool {
        self.input.wf()
    }

    /// Keys go to the text field exactly while it has focus.
    pub open spec fn focus(self) -> Focus {
        if self.input.focused {
            Focus::Editing
        } else {
            Focus::Navigation
        }
    }

    /// The state after one key event. Only presses count. While editing,
    /// escape returns to navigation and every other key goes to the field;
    /// while navigating, the keys step between tabs, quit, or enter the field.
    pub open spec fn handle(self, key: KeyEvent) -> AppModel {
        if key.kind != KeyEventKind::Press {
            self
        } else if self.input.focused {
            match key.code {
                KeyCode::Esc => AppModel { input: self.input.with_focus(false), ..self },
                _ => AppModel { input: self.input.apply_key(key.code), ..self },
            }
        } else {
            match key.code {
                KeyCode::Char(c) => {
                    if c == NEXT_TAB_KEY {
                        AppModel { tab: self.tab.spec_next(), ..self }
                    } else if c == PREVIOUS_TAB_KEY {
                        AppModel { tab: self.tab.spec_previous(), ..self }
                    } else if c == QUIT_KEY {
                        AppModel { running: false, ..self }
                    } else if c == EDIT_KEY {
                        AppModel { input: self.input.with_focus(true), ..self }
                    } else {
                        self
                    }
                },
                KeyCode::Right => AppModel { tab: self.tab.spec_next(), ..self },
                KeyCode::Left => AppModel { tab: self.tab.spec_previous(), ..self },
                _ => self,
            }
        }
    }
}

/// The application: its run state, the selected panel and the text field.
pub struct App {
    state: AppState,
    selected_tab: SelectedTab,
    input: TextInput,
}

impl View for App {
    type V = AppModel;

    closed spec fn view(&self) -> AppModel {
        AppModel {
            running: self.state == AppState::Running,
            tab: self.selected_tab,
            input: self.input@,
        }
    }
}

impl App {
    /// A running application on the first panel, navigating, with an empty
    /// text field.
    pub fn new() -> (r: App)
        ensures
            r@.running,
            r@.tab == SelectedTab::Tab1,
            r@.input == InputModel::empty(),
            r@.focus() == Focus::Navigation,
            r@.wf(),
    {
        App { state: AppState::Running, selected_tab: SelectedTab::Tab1, input: TextInput::new() }
    }

    /// Whether the event loop should go on.
    pub fn is_running(&self) -> (r: bool)
        ensures
            r == self@.running,
    {
        match self.state {
            AppState::Running => true,
            AppState::Quitting => false,
        }
    }

    /// The run state.
    pub fn state(&self) -> (r: AppState)
        ensures
            r == (if self@.running { AppState::Running } else { AppState::Quitting }),
    {
        self.state
    }

    /// The selected panel.
    pub fn selected_tab(&self) -> (r: SelectedTab)
        ensures
            r == self@.tab,
    {
        self.selected_tab
    }

    /// The text field.
    pub fn input(&self) -> (r: &TextInput)
        ensures
            r@ == self@.input,
    {
        &self.input
    }

    /// Which part receives keys.
    pub fn focus(&self) -> (r: Focus)
        ensures
            r == self@.focus(),
    {
        if self.input.is_focused() {
            Focus::Editing
        } else {
            Focus::Navigation
        }
    }

    /// Selects the panel to the right; the last panel stays selected.
    pub fn next_tab(&mut self)
        ensures
            final(self)@ == (AppModel { tab: old(self)@.tab.spec_next(), ..old(self)@ }),
    {
        self.selected_tab = self.selected_tab.next();
    }

    /// Selects the panel to the left; the first panel stays selected.
    pub fn previous_tab(&mut self)
        ensures
            final(self)@ == (AppModel { tab: old(self)@.tab.spec_previous(), ..old(self)@ }),
    {
        self.selected_tab = self.selected_tab.previous();
    }

    /// Ends the run: the event loop stops after this.
    pub fn quit(&mut self)
        ensures
            final(self)@ == (AppModel { running: false, ..old(self)@ }),
    {
        self.state = AppState::Quitting;
    }

    /// Handles one key event, as `AppModel::handle` describes.
    pub fn handle_event(&mut self, key: KeyEvent)
        requires
            old(self)@.wf(),
        ensures
            final(self)@ == old(self)@.handle(key),
            final(self)@.wf(),
    {
        if key.kind != KeyEventKind::Press {
            return;
        }
        if self.input.is_focused() {
            match key.code {
                KeyCode::Esc => self.input.set_focus(false),
                _ => self.input.handle_event(key),
            }
        } else {
            match key.code {
                KeyCode::Char(c) => {
                    if c == NEXT_TAB_KEY {
                        self.next_tab();
                    } else if c == PREVIOUS_TAB_KEY {
                        self.previous_tab();
                    } else if c == QUIT_KEY {
                        self.quit();
                    } else if c == EDIT_KEY {
                        self.input.set_focus(true);
                    }
                },
                KeyCode::Right => self.next_tab(),
                KeyCode::Left => self.previous_tab(),
                _ => {},
            }
        }
    }
}

} // verus!
