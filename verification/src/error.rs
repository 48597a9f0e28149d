//! The failures that end a fetch.

use crate::text::{decimal_text, digits_of};
use vstd::prelude::*;

verus! {

/// A fatal failure of one fetch attempt.
///
/// Every variant aborts the fetch it occurs in; the pages gathered so far are
/// dropped and nothing of them is handed on.
#[derive(Debug)]
pub enum Error {
    /// The request did not produce a response body.
    Transport(String),
    /// A response body did not have the shape its adapter expects.
    Schema(String),
    /// Two pages of one listing disagree on how many items the listing has.
    InconsistentTotal { expected: usize, found: usize },
}

/// What a failure says of itself: the text that it carries, or the two
/// totals that disagree.
pub open spec fn description(failure: Error) -> Seq<char> {
    match failure {
        Error::Transport(text) => text@,
        Error::Schema(text) => text@,
        Error::InconsistentTotal { expected, found } => "inconsistent total: expected "@
            + digits_of(expected as nat) + ", found "@ + digits_of(found as nat),
    }
}

impl Error {
    /// The failure in words.
    pub fn describe(&self) -> (text: String)
        ensures
            text@ == description(*self),
    {
        match self {
            Error::Transport(text) => text.clone(),
            Error::Schema(text) => text.clone(),
            Error::InconsistentTotal { expected, found } => {
                let mut text = String::from_str("inconsistent total: expected ");
                text.append(decimal_text(*expected).as_str());
                text.append(", found ");
                text.append(decimal_text(*found).as_str());
                text
            },
        }
    }

    /// Whether starting the whole fetch over can succeed without any change
    /// on this side: true of a changed result set, false of the other two.
    pub fn is_retryable(&self) -> (retry: bool)
        ensures
            retry == (*self is InconsistentTotal),
    {
        match self {
            Error::InconsistentTotal { .. } => true,
            _ => false,
        }
    }
}

} // verus!
