//! The line at the bottom: what the keys do on the page in focus.

use vstd::prelude::*;
use crate::app::Focus;

verus! {

/// The help line at the bottom of the screen.
pub struct Help {
    pub help_text: String,
}

/// What the keys do on the page `focus`.
pub open spec fn help_of(focus: Focus) -> Seq<char> {
    match focus {
        Focus::Home => "Press <Tab> to continue or <Q> to quit"@,
        Focus::Expr => "Enter an expression (ie: sin(x)), Press <Tab> to continue or <Esc> to go back"@,
        Focus::Domain => "Enter a domain (ie: -5..5), Press <Enter> to render graph or <Esc> to go back"@,
        Focus::Graph => "Press <Enter> to render graph, <Tab> to reset application, or <Q> to quit"@,
        Focus::Exiting => "Press <Y> to quit or <N> to stay"@,
    }
}

impl Help {
    /// An empty help line.
    pub fn new() -> (help: Self)
        ensures
            help.help_text@ == Seq::<char>::empty(),
    {
        Self { help_text: String::new() }
    }

    /// Empties the help line.
    pub fn reset(&mut self)
        ensures
            final(self).help_text@ == Seq::<char>::empty(),
    {
        self.help_text.clear();
    }

    /// Sets the help line to that of the page `focus`.
    pub fn update(&mut self, focus: Focus)
        ensures
            final(self).help_text@ == help_of(focus),
    {
        self.reset();
        match focus {
            Focus::Home => {
                self.help_text = "Press <Tab> to continue or <Q> to quit".to_owned();
            },
            Focus::Expr => {
                self.help_text =
                "Enter an expression (ie: sin(x)), Press <Tab> to continue or <Esc> to go back".to_owned();
            },
            Focus::Domain => {
                self.help_text =
                "Enter a domain (ie: -5..5), Press <Enter> to render graph or <Esc> to go back".to_owned();
            },
            Focus::Graph => {
                self.help_text =
                "Press <Enter> to render graph, <Tab> to reset application, or <Q> to quit".to_owned();
            },
            Focus::Exiting => {
                self.help_text = "Press <Y> to quit or <N> to stay".to_owned();
            },
        }
    }
}

} // verus!
