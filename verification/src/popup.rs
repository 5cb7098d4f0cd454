//! The dialog shown over a page: a body, a title, and the line naming the
//! keys it accepts.

use vstd::prelude::*;

verus! {

/// A centered dialog; rendering styles it, this record only carries its
/// text.
pub struct Popup {
    pub content: String,
    pub title: String,
    pub command: String,
}

impl Popup {
    pub fn new(content: String, title: String, command: String) -> (r: Self)
        ensures
            r.content == content,
            r.title == title,
            r.command == command,
    {
        Popup { content, title, command }
    }
}

} // verus!
