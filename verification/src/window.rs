//! The one text that the window shows.

use vstd::prelude::*;

verus! {

/// The text to show, given the text that is shown and what the worker has
/// published since, if anything: the new text takes the place of the old,
/// and without a new text the old one stays.
pub fn refresh(shown: String, published: Option<String>) -> (text: String)
    ensures
        text@ == (match published {
            Some(new) => new@,
            None => shown@,
        }),
{
    match published {
        Some(new) => new,
        None => shown,
    }
}

} // verus!
