//! Both text fields in one, with the mark of the one that is edited.

use vstd::prelude::*;
use crate::text::without_last;

verus! {

/// The field that is edited.
#[derive(Clone, Copy, Debug, PartialEq, Eq, Structural)]
pub enum InputState {
    InputExpr,
    InputDomain,
}

/// The expression text, the domain text, and which of them keys go to.
pub struct Input {
    pub input_state: Option<InputState>,
    pub input_expr: String,
    pub input_domain: String,
}

/// The field after `state`: from none to the expression, from the
/// expression to the domain, and back.
pub open spec fn next_state(state: Option<InputState>) -> Option<InputState> {
    match state {
        None => Some(InputState::InputExpr),
        Some(InputState::InputExpr) => Some(InputState::InputDomain),
        Some(InputState::InputDomain) => Some(InputState::InputExpr),
    }
}

/// The caption that names the field `state`.
pub open spec fn state_caption(state: Option<InputState>) -> Seq<char> {
    match state {
        Some(InputState::InputExpr) => "Input Expression"@,
        Some(InputState::InputDomain) => "Input Domain"@,
        None => "Input None"@,
    }
}

impl Input {
    /// Whether both texts are empty and no field is edited.
    pub open spec fn is_clear(&self) -> bool {
        &&& self.input_state is None
        &&& self.input_expr@ == Seq::<char>::empty()
        &&& self.input_domain@ == Seq::<char>::empty()
    }

    /// Empty texts, no field edited.
    pub fn new() -> (input: Input)
        ensures
            input.is_clear(),
    {
        Self { input_state: None, input_expr: String::new(), input_domain: String::new() }
    }

    /// Empties both texts and leaves the fields.
    pub fn reset(&mut self)
        ensures
            final(self).is_clear(),
    {
        self.input_state = None;
        self.input_expr = String::new();
        self.input_domain = String::new();
    }

    /// Moves on to the next field; the texts stay.
    pub fn update(&mut self)
        ensures
            final(self).input_state == next_state(old(self).input_state),
            final(self).input_expr == old(self).input_expr,
            final(self).input_domain == old(self).input_domain,
    {
        match self.input_state {
            Some(InputState::InputExpr) => {
                self.input_state = Some(InputState::InputDomain);
            },
            Some(InputState::InputDomain) => {
                self.input_state = Some(InputState::InputExpr);
            },
            None => {
                self.input_state = Some(InputState::InputExpr);
            },
        }
    }

    /// Removes the last character of the edited text. With no field
    /// edited, or on an empty text, nothing changes.
    pub fn pop_input(&mut self)
        ensures
            final(self).input_state == old(self).input_state,
            final(self).input_expr@ == if old(self).input_state == Some(InputState::InputExpr) {
                without_last(old(self).input_expr@)
            } else {
                old(self).input_expr@
            },
            final(self).input_domain@ == if old(self).input_state == Some(
                InputState::InputDomain,
            ) {
                without_last(old(self).input_domain@)
            } else {
                old(self).input_domain@
            },
    {
        match self.input_state {
            Some(InputState::InputExpr) => {
                self.input_expr.pop();
            },
            Some(InputState::InputDomain) => {
                self.input_domain.pop();
            },
            None => {},
        }
    }

    /// Appends `c` to the edited text. With no field edited nothing
    /// changes.
    pub fn push_input(&mut self, c: char)
        ensures
            final(self).input_state == old(self).input_state,
            final(self).input_expr@ == if old(self).input_state == Some(InputState::InputExpr) {
                old(self).input_expr@.push(c)
            } else {
                old(self).input_expr@
            },
            final(self).input_domain@ == if old(self).input_state == Some(
                InputState::InputDomain,
            ) {
                old(self).input_domain@.push(c)
            } else {
                old(self).input_domain@
            },
    {
        match self.input_state {
            Some(InputState::InputExpr) => {
                self.input_expr.push(c);
            },
            Some(InputState::InputDomain) => {
                self.input_domain.push(c);
            },
            None => {},
        }
    }

    /// The caption that names the edited field.
    pub fn state_label(&self) -> (label: String)
        ensures
            label@ == state_caption(self.input_state),
    {
        match self.input_state {
            Some(InputState::InputExpr) => "Input Expression".to_owned(),
            Some(InputState::InputDomain) => "Input Domain".to_owned(),
            None => "Input None".to_owned(),
        }
    }
}

} // verus!
