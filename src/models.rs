//! The book and highlight records that extraction produces.
use vstd::prelude::*;
use crate::date::DateTime;

verus! {

/// One parsed metadata file.
#[derive(Debug, Clone, PartialEq)]
pub struct BookData {
    pub title: String,
    pub author: String,
    pub highlights: Vec<Highlight>,
}

/// One highlighted passage of a book.
#[derive(Debug, Clone, PartialEq)]
pub struct Highlight {
    pub chapter: Option<String>,
    pub page: i32,
    pub text: String,
    pub note: Option<String>,
    pub datetime: DateTime,
}

fn copy_text(s: &Option<String>) -> (r: Option<String>)
    ensures
        r == *s,
{
    match s {
        Some(t) => Some(t.clone()),
        None => None,
    }
}

impl Highlight {
    /// A copy of this highlight.
    pub fn copy(&self) -> (r: Highlight)
        ensures
            r == *self,
    {
        Highlight {
            chapter: copy_text(&self.chapter),
            page: self.page,
            text: self.text.clone(),
            note: copy_text(&self.note),
            datetime: self.datetime,
        }
    }
}

} // verus!
