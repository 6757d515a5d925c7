//! What the highlighter hands back.

use vstd::prelude::*;

verus! {

/// Rendered markup.
#[derive(Debug, PartialEq, Eq)]
pub struct Html(String);

impl View for Html {
    type V = Seq<char>;

    closed spec fn view(&self) -> Seq<char> {
        self.0@
    }
}

impl Html {
    /// The markup that `markup` holds.
    pub fn new(markup: String) -> (html: Html)
        ensures
            html@ == markup@,
    {
        Html(markup)
    }

    /// The markup, borrowed.
    pub fn as_str(&self) -> (s: &str)
        ensures
            s@ == self@,
    {
        self.0.as_str()
    }

    /// The markup, handed over.
    pub fn into_inner(self) -> (markup: String)
        ensures
            markup@ == self@,
    {
        self.0
    }
}

impl Clone for Html {
    fn clone(&self) -> (html: Html)
        ensures
            html@ == self@,
    {
        Html(self.0.clone())
    }
}

/// Why the highlighter could not render a paste.
#[derive(Clone, Copy, Debug, PartialEq, Eq, Structural)]
pub enum HighlightError {
    /// The extension names no syntax that the highlighter knows.
    UnsupportedExtension,
    /// The content cannot be tokenised.
    MalformedContent,
}

/// The view of a highlighter's result.
pub open spec fn markup_view(rendered: Result<Html, HighlightError>) -> Result<
    Seq<char>,
    HighlightError,
> {
    match rendered {
        Ok(html) => Ok(html@),
        Err(e) => Err(e),
    }
}

} // verus!
