//! The caption at the top: the name of the page in focus.

use vstd::prelude::*;
use crate::app::Focus;

verus! {

/// The caption at the top of the screen.
pub struct Title {
    pub title_text: String,
}

/// The name of the page `focus`.
pub open spec fn title_of(focus: Focus) -> Seq<char> {
    match focus {
        Focus::Home => "HOME"@,
        Focus::Expr => "EXPRESSION"@,
        Focus::Domain => "DOMAIN"@,
        Focus::Graph => "GRAPH"@,
        Focus::Exiting => "EXIT"@,
    }
}

impl Title {
    /// An empty caption.
    pub fn new() -> (title: Self)
        ensures
            title.title_text@ == Seq::<char>::empty(),
    {
        Self { title_text: String::new() }
    }

    /// Empties the caption.
    pub fn reset(&mut self)
        ensures
            final(self).title_text@ == Seq::<char>::empty(),
    {
        self.title_text.clear();
    }

    /// Sets the caption to the name of the page `focus`.
    pub fn update(&mut self, focus: Focus)
        ensures
            final(self).title_text@ == title_of(focus),
    {
        self.reset();
        match focus {
            Focus::Home => {
                self.title_text = "HOME".to_owned();
            },
            Focus::Expr => {
                self.title_text = "EXPRESSION".to_owned();
            },
            Focus::Domain => {
                self.title_text = "DOMAIN".to_owned();
            },
            Focus::Graph => {
                self.title_text = "GRAPH".to_owned();
            },
            Focus::Exiting => {
                self.title_text = "EXIT".to_owned();
            },
        }
    }
}

} // verus!
