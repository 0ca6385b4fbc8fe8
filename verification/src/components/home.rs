//! The page shown at startup.

use vstd::prelude::*;
use crate::key::Key;

verus! {

/// The welcome page.
pub struct Home {
    pub home_text: String,
}

/// The greeting of the welcome page.
pub open spec fn greeting() -> Seq<char> {
    "Welcome to Terminal EQ Grapher"@
}

impl Home {
    /// The welcome page with its greeting.
    pub fn new() -> (home: Self)
        ensures
            home.home_text@ == greeting(),
    {
        Self { home_text: "Welcome to Terminal EQ Grapher".to_owned() }
    }

    /// The welcome page has no use for any key: nothing changes, and the
    /// key is reported as not taken.
    pub fn event(&mut self, _key: Key) -> (taken: bool)
        ensures
            !taken,
            *final(self) == *old(self),
    {
        false
    }
}

} // verus!
