//! The boundary at which requests are served: what is logged of a request
//! and of its outcome, and how a failure is shown to the caller.

use unicode_segmentation::UnicodeSegmentation;
use vstd::prelude::*;
use vstd::string::*;
use crate::error::{HistoryError, HistoryErrorView, NO_WAY_TO_CHOOSE};
use crate::text::texts_of;

verus! {

/// The grapheme clusters of `text`, in order, as the segmentation library
/// finds them by the extended rules.
pub uninterp spec fn grapheme_clusters(text: Seq<char>) -> Seq<Seq<char>>;

/// The parts written one after another.
pub open spec fn concat(parts: Seq<Seq<char>>) -> Seq<char>
    decreases parts.len(),
{
    if parts.len() == 0 {
        Seq::empty()
    } else {
        concat(parts.drop_last()) + parts.last()
    }
}

/// `UnicodeSegmentation::graphemes` with the extended rules. The clusters
/// are consecutive pieces of `text`: together they make up `text`.
#[verifier::external_body]
fn graphemes(text: &str) -> (clusters: Vec<&str>)
    ensures
        texts_of(clusters@) == grapheme_clusters(text@),
        concat(texts_of(clusters@)) == text@,
{
    text.graphemes(true).collect()
}

/// The first `max_len` grapheme clusters of `text`, or all of `text` if it
/// has no more.
pub open spec fn truncated(text: Seq<char>, max_len: nat) -> Seq<char> {
    let clusters = grapheme_clusters(text);
    if clusters.len() <= max_len {
        concat(clusters)
    } else {
        concat(clusters.take(max_len as int))
    }
}

proof fn lemma_concat_take_is_prefix(parts: Seq<Seq<char>>, n: int)
    requires
        0 <= n <= parts.len(),
    ensures
        concat(parts.take(n)).is_prefix_of(concat(parts)),
    decreases parts.len() - n,
{
    if n == parts.len() {
        assert(parts.take(n) =~= parts);
    } else {
        lemma_concat_take_is_prefix(parts, n + 1);
        assert(parts.take(n + 1).drop_last() =~= parts.take(n));
    }
}

/// Cuts `text` after `max_len` grapheme clusters, so that no character is
/// parted from the marks that belong to it. What comes back is a piece from
/// the start of `text`, and all of `text` if that has no more than `max_len`
/// clusters.
pub fn truncate_to(text: &str, max_len: usize) -> (cut: String)
    ensures
        cut@ == truncated(text@, max_len as nat),
        cut@.is_prefix_of(text@),
        grapheme_clusters(text@).len() <= max_len ==> cut@ == text@,
{
    let clusters = graphemes(text);
    let kept: usize = if clusters.len() <= max_len {
        clusters.len()
    } else {
        max_len
    };
    let mut cut = String::new();
    let mut i: usize = 0;
    let ghost all = grapheme_clusters(text@);
    while i < kept
        invariant
            i <= kept <= clusters.len(),
            all == texts_of(clusters@),
            cut@ == concat(all.take(i as int)),
        decreases kept - i,
    {
        cut.append(clusters[i]);
        assert(all.take(i + 1).drop_last() =~= all.take(i as int));
        i += 1;
    }
    assert(all.take(all.len() as int) =~= all);
    proof {
        lemma_concat_take_is_prefix(all, kept as int);
    }
    cut
}

/// How many grapheme clusters of a request or of its outcome are logged.
pub const LOGGED_LENGTH: usize = 150;

/// What is logged when a request comes in; `request` is the request as
/// written out for the log.
pub fn request_line(request: &str) -> (line: String)
    ensures
        line@ == ">>> Request:  "@ + truncated(request@, LOGGED_LENGTH as nat),
{
    let mut line = ">>> Request:  ".to_owned();
    line.append(truncate_to(request, LOGGED_LENGTH).as_str());
    line
}

/// What is logged when a request has been served; `response` is the outcome
/// as written out for the log.
pub fn response_line(response: &str) -> (line: String)
    ensures
        line@ == "<<< Response: "@ + truncated(response@, LOGGED_LENGTH as nat),
{
    let mut line = "<<< Response: ".to_owned();
    line.append(truncate_to(response, LOGGED_LENGTH).as_str());
    line
}

/// How a failure is classified for the caller.
#[derive(Clone, Copy, Debug, PartialEq, Eq, Structural)]
pub enum StatusCode {
    /// The caller asked for something that the state does not allow: the
    /// dataset is not loaded.
    FailedPrecondition,
    /// Anything else.
    Internal,
}

/// What the caller is told of a failure.
#[derive(Clone, Debug, PartialEq, Eq)]
pub struct Status {
    pub code: StatusCode,
    pub message: String,
}

/// What the caller is told of a failure whose detail stays in the log.
pub const INTERNAL_ERROR: &'static str = "Internal error";

/// The class under which `error` is shown to the caller: a dataset that is
/// not loaded is a failed precondition, everything else is internal.
pub open spec fn status_code_of(error: HistoryErrorView) -> StatusCode {
    match error {
        HistoryErrorView::NotLoaded(_) => StatusCode::FailedPrecondition,
        _ => StatusCode::Internal,
    }
}

/// The message with which `error` is shown to the caller. A dataset that is
/// not loaded is named by its key; a mismatch of format, a failure to parse
/// and an ambiguous identity are told as they are; of a poisoned lock and of
/// an internal failure the caller learns no detail.
pub open spec fn status_message_of(error: HistoryErrorView) -> Seq<char> {
    match error {
        HistoryErrorView::FormatMismatch(what) => what,
        HistoryErrorView::ParseFailure(what) => what,
        HistoryErrorView::AmbiguousIdentity => NO_WAY_TO_CHOOSE@,
        HistoryErrorView::NotLoaded(key) => "Database with key "@ + key + " is not loaded!"@,
        HistoryErrorView::LockUnavailable => INTERNAL_ERROR@,
        HistoryErrorView::Internal(_) => INTERNAL_ERROR@,
    }
}

/// The status with which a failure is shown to the caller.
pub fn status_of(error: &HistoryError) -> (status: Status)
    ensures
        status.code == status_code_of(error@),
        status.message@ == status_message_of(error@),
{
    match error {
        HistoryError::FormatMismatch(what) => Status {
            code: StatusCode::Internal,
            message: what.clone(),
        },
        HistoryError::ParseFailure(what) => Status {
            code: StatusCode::Internal,
            message: what.clone(),
        },
        HistoryError::AmbiguousIdentity => Status {
            code: StatusCode::Internal,
            message: NO_WAY_TO_CHOOSE.to_owned(),
        },
        HistoryError::NotLoaded(key) => {
            let mut message = "Database with key ".to_owned();
            message.append(key.as_str());
            message.append(" is not loaded!");
            Status { code: StatusCode::FailedPrecondition, message }
        },
        HistoryError::LockUnavailable => Status {
            code: StatusCode::Internal,
            message: INTERNAL_ERROR.to_owned(),
        },
        HistoryError::Internal(_) => Status {
            code: StatusCode::Internal,
            message: INTERNAL_ERROR.to_owned(),
        },
    }
}

/// Whether `outcome` is what the caller sees of `result`: the response as
/// it is, a failure as a status.
pub open spec fn is_outcome_of<P>(result: Result<P, HistoryError>, outcome: Result<P, Status>) -> bool {
    match result {
        Ok(response) => outcome == Ok::<P, Status>(response),
        Err(error) => outcome is Err && outcome->Err_0.code == status_code_of(error@)
            && outcome->Err_0.message@ == status_message_of(error@),
    }
}

/// The outcome of a request as the caller sees it: the response as it is, a
/// failure as a status.
pub fn outcome_of<P>(result: Result<P, HistoryError>) -> (outcome: Result<P, Status>)
    ensures
        is_outcome_of(result, outcome),
{
    match result {
        Ok(response) => Ok(response),
        Err(error) => Err(status_of(&error)),
    }
}

/// Serves a request that needs no dataset: runs `logic` on it and gives the
/// caller the response, or the failure as a status.
pub fn process_request<Q, P, L: FnOnce(&Q) -> Result<P, HistoryError>>(req: &Q, logic: L) -> (outcome:
    Result<P, Status>)
    requires
        logic.requires((req,)),
    ensures
        exists|result: Result<P, HistoryError>|
            logic.ensures((req,), result) && is_outcome_of(result, outcome),
{
    outcome_of(logic(req))
}

} // verus!
