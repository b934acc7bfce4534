//! The banner shown above every screen.

use vstd::prelude::*;

verus! {

/// A line of text to show as the title.
#[derive(Clone, Copy, Debug)]
pub struct Title<'a> {
    text: &'a str,
}

impl View for Title<'_> {
    type V = Seq<char>;

    closed spec fn view(&self) -> Seq<char> {
        self.text@
    }
}

impl Title<'_> {
    /// The title that reads `title`.
    pub fn new(title: &str) -> (made: Title)
        ensures
            made@ == title@,
    {
        Title { text: title }
    }

    /// What the title reads.
    pub fn text(&self) -> (text: &str)
        ensures
            text@ == self@,
    {
        self.text
    }
}

} // verus!
