//! Editing text one character at a time.
//!
//! The standard library's `String::push`, `String::pop` and `String::clear`
//! get the contracts here that their documentation gives them, over the
//! string's sequence of characters.

use vstd::prelude::*;

verus! {

/// `String::push` appends the character to the end of the string.
pub assume_specification[ String::push ](s: &mut String, c: char)
    ensures
        final(s)@ == old(s)@.push(c),
;

/// `String::pop` removes the last character and returns it; on an empty
/// string it returns `None` and removes nothing.
pub assume_specification[ String::pop ](s: &mut String) -> (r: Option<char>)
    ensures
        final(s)@ == without_last(old(s)@),
        r == if old(s)@.len() > 0 {
            Some(old(s)@.last())
        } else {
            None
        },
;

/// `String::clear` removes all contents.
pub assume_specification[ String::clear ](s: &mut String)
    ensures
        final(s)@ == Seq::<char>::empty(),
;

/// `s` without its last character; the empty text stays empty.
pub open spec fn without_last(s: Seq<char>) -> Seq<char> {
    if s.len() > 0 {
        s.drop_last()
    } else {
        s
    }
}

} // verus!
