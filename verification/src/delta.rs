//! Deltas: what a data record carries as its content.

use vstd::prelude::*;

verus! {

/// One edit of a delta: the bytes of the base text from `start` up to
/// `end` are replaced by `content`.
#[derive(Clone, Debug, PartialEq, Eq)]
pub struct Fragment {
    pub start: usize,
    pub end: usize,
    pub content: Vec<u8>,
}

/// The content of a revision: its full text, or edits against the text of
/// a base revision.
#[derive(Clone, Debug, PartialEq, Eq)]
pub enum Delta {
    FullText(Vec<u8>),
    Fragments(Vec<Fragment>),
}

/// The reason for which a delta codec rejected a payload.
#[derive(Clone, Debug, PartialEq, Eq)]
pub struct CodecError {
    pub reason: String,
}

impl Delta {
    /// The delta that stands for the full text `text`.
    pub fn new_fulltext(text: Vec<u8>) -> (d: Delta)
        ensures
            d == Delta::FullText(text),
    {
        Delta::FullText(text)
    }

    /// The full text, where the delta is one.
    pub fn fulltext(&self) -> (t: Option<&Vec<u8>>)
        ensures
            t == (match self {
                Delta::FullText(text) => Some(text),
                Delta::Fragments(_) => None,
            }),
    {
        match self {
            Delta::FullText(text) => Some(text),
            Delta::Fragments(_) => None,
        }
    }
}

} // verus!
