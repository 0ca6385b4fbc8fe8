//! Which screen is shown, and which field takes the keys.

use vstd::prelude::*;

verus! {

/// The screens of the application.
#[derive(Clone, Copy, Debug, PartialEq, Eq, Structural)]
pub enum CurrentScreen {
    /// Entry of the expression and the domain.
    Main,
    /// The plot of the last evaluation.
    Success,
    /// The notice that the last evaluation failed.
    Failure,
    /// The question whether to leave.
    Exiting,
}

/// The fields that can take text.
#[derive(Clone, Copy, Debug, PartialEq, Eq, Structural)]
pub enum CurrentInput {
    Expression,
    Xdomain,
}

/// The screen, and on the main screen the field that is being edited.
#[derive(Clone, Copy, Debug, PartialEq, Eq, Structural)]
pub struct Focus {
    pub current_screen: CurrentScreen,
    /// Meaningful on the main screen only.
    pub current_input: Option<CurrentInput>,
}

/// The field after `input` in the round of fields: from no field to the
/// expression, from the expression to the domain, and back.
pub open spec fn toggled(input: Option<CurrentInput>) -> Option<CurrentInput> {
    match input {
        None => Some(CurrentInput::Expression),
        Some(CurrentInput::Expression) => Some(CurrentInput::Xdomain),
        Some(CurrentInput::Xdomain) => Some(CurrentInput::Expression),
    }
}

impl Focus {
    /// The focus at startup and after a reset: main screen, no field.
    pub open spec fn initial() -> Focus {
        Focus { current_screen: CurrentScreen::Main, current_input: None }
    }

    /// The focus at startup.
    pub fn new() -> (focus: Focus)
        ensures
            focus == Focus::initial(),
    {
        Focus { current_screen: CurrentScreen::Main, current_input: None }
    }

    /// Returns to the main screen with no field edited, from any state.
    pub fn reset(&mut self)
        ensures
            *final(self) == Focus::initial(),
    {
        self.current_screen = CurrentScreen::Main;
        self.current_input = None;
    }

    /// Moves on to the next field; the screen stays.
    pub fn toggle_input(&mut self)
        ensures
            final(self).current_input == toggled(old(self).current_input),
            final(self).current_screen == old(self).current_screen,
    {
        match self.current_input {
            Some(CurrentInput::Expression) => {
                self.current_input = Some(CurrentInput::Xdomain);
            },
            Some(CurrentInput::Xdomain) => {
                self.current_input = Some(CurrentInput::Expression);
            },
            None => {
                self.current_input = Some(CurrentInput::Expression);
            },
        }
    }
}

} // verus!
