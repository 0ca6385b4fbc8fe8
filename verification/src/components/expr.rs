//! The field in which the expression is typed.

use vstd::prelude::*;
use crate::key::Key;
use crate::text::without_last;

verus! {

/// The expression field.
pub struct ExprField {
    /// What has been typed.
    pub expr_text: String,
}

impl ExprField {
    /// An empty field.
    pub fn new() -> (field: Self)
        ensures
            field.expr_text@ == Seq::<char>::empty(),
    {
        Self { expr_text: String::new() }
    }

    /// Empties the field.
    pub fn reset(&mut self)
        ensures
            final(self).expr_text@ == Seq::<char>::empty(),
    {
        self.expr_text.clear();
    }

    /// The text after `key` has been typed into `text`: a character is
    /// appended, Backspace removes the last character, and no other key
    /// changes anything.
    pub open spec fn typed(text: Seq<char>, key: Key) -> Seq<char> {
        match key {
            Key::Char(c) => text.push(c),
            Key::Backspace => without_last(text),
            _ => text,
        }
    }

    /// Types `key` into the field. Says whether the key was one that edits:
    /// a character or Backspace.
    pub fn event(&mut self, key: Key) -> (edited: bool)
        ensures
            final(self).expr_text@ == ExprField::typed(old(self).expr_text@, key),
            edited == (key is Char || key is Backspace),
    {
        match key {
            Key::Char(c) => {
                self.push(c);
                true
            },
            Key::Backspace => {
                self.pop();
                true
            },
            _ => false,
        }
    }

    fn push(&mut self, c: char)
        ensures
            final(self).expr_text@ == old(self).expr_text@.push(c),
    {
        self.expr_text.push(c);
    }

    fn pop(&mut self)
        ensures
            final(self).expr_text@ == without_last(old(self).expr_text@),
    {
        self.expr_text.pop();
    }
}

} // verus!
