//! The ways in which loading, merging and serving a history can fail.

use vstd::prelude::*;

verus! {

/// A failure of the library, by kind.
#[derive(Clone, Debug, PartialEq, Eq)]
pub enum HistoryError {
    /// The source does not have the shape that the loader expects; the text
    /// says what is missing.
    FormatMismatch(String),
    /// The source has the right shape but holds something that cannot be
    /// read; the text names the field or record.
    ParseFailure(String),
    /// Nothing tells which participant owns the history.
    AmbiguousIdentity,
    /// No dataset is loaded under the key.
    NotLoaded(String),
    /// A lock was poisoned by a failure while it was held.
    LockUnavailable,
    /// Anything else.
    Internal(String),
}

/// What a `HistoryError` holds, as mathematical values.
pub enum HistoryErrorView {
    FormatMismatch(Seq<char>),
    ParseFailure(Seq<char>),
    AmbiguousIdentity,
    NotLoaded(Seq<char>),
    LockUnavailable,
    Internal(Seq<char>),
}

impl View for HistoryError {
    type V = HistoryErrorView;

    open spec fn view(&self) -> HistoryErrorView {
        match self {
            HistoryError::FormatMismatch(what) => HistoryErrorView::FormatMismatch(what@),
            HistoryError::ParseFailure(what) => HistoryErrorView::ParseFailure(what@),
            HistoryError::AmbiguousIdentity => HistoryErrorView::AmbiguousIdentity,
            HistoryError::NotLoaded(key) => HistoryErrorView::NotLoaded(key@),
            HistoryError::LockUnavailable => HistoryErrorView::LockUnavailable,
            HistoryError::Internal(what) => HistoryErrorView::Internal(what@),
        }
    }
}

/// What the chooser is told when it cannot choose.
pub const NO_WAY_TO_CHOOSE: &'static str = "No way to choose myself!";

/// What is said of a chooser that answers with a position that is none.
pub const CHOICE_OUT_OF_RANGE: &'static str = "Chosen user is not among the candidates";

impl HistoryError {
    /// A copy of this error.
    pub fn duplicate(&self) -> (copy: HistoryError)
        ensures
            copy == *self,
    {
        match self {
            HistoryError::FormatMismatch(what) => HistoryError::FormatMismatch(what.clone()),
            HistoryError::ParseFailure(what) => HistoryError::ParseFailure(what.clone()),
            HistoryError::AmbiguousIdentity => HistoryError::AmbiguousIdentity,
            HistoryError::NotLoaded(key) => HistoryError::NotLoaded(key.clone()),
            HistoryError::LockUnavailable => HistoryError::LockUnavailable,
            HistoryError::Internal(what) => HistoryError::Internal(what.clone()),
        }
    }
}

} // verus!
