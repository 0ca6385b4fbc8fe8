//! The field in which the domain is typed.

use vstd::prelude::*;
use crate::error::PipelineError;
use crate::interval::{parse_domain, parsed_domain, DomainInterval};
use crate::key::Key;
use crate::text::without_last;

verus! {

/// The domain field.
pub struct Domain {
    /// What has been typed.
    pub domain_text: String,
}

impl Domain {
    /// An empty field.
    pub fn new() -> (field: Self)
        ensures
            field.domain_text@ == Seq::<char>::empty(),
    {
        Self { domain_text: String::new() }
    }

    /// Empties the field.
    pub fn reset(&mut self)
        ensures
            final(self).domain_text@ == Seq::<char>::empty(),
    {
        self.domain_text.clear();
    }

    /// The text after `key` has been typed into `text`: a character is
    /// appended, Backspace removes the last character, and no other key
    /// changes anything.
    pub open spec fn typed(text: Seq<char>, key: Key) -> Seq<char> {
        match key {
            Key::Char(c) => text.push(c),
            Key::Backspace => without_last(text),
            _ => text,
        }
    }

    /// Types `key` into the field. Says whether a character was added;
    /// Backspace edits the text but is not reported.
    pub fn event(&mut self, key: Key) -> (added: bool)
        ensures
            final(self).domain_text@ == Domain::typed(old(self).domain_text@, key),
            added == key is Char,
    {
        match key {
            Key::Char(c) => {
                self.push(c);
                true
            },
            Key::Backspace => {
                self.pop();
                false
            },
            _ => false,
        }
    }

    fn push(&mut self, c: char)
        ensures
            final(self).domain_text@ == old(self).domain_text@.push(c),
    {
        self.domain_text.push(c);
    }

    fn pop(&mut self)
        ensures
            final(self).domain_text@ == without_last(old(self).domain_text@),
    {
        self.domain_text.pop();
    }

    /// The interval that the text denotes.
    pub fn interval(&self) -> (r: Result<DomainInterval, PipelineError>)
        ensures
            r == match parsed_domain(self.domain_text@) {
                Some(interval) => Ok::<DomainInterval, PipelineError>(interval),
                None => Err(PipelineError::DomainFormatError),
            },
    {
        parse_domain(self.domain_text.as_str())
    }
}

} // verus!
