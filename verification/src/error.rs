//! The ways in which synchronizing one feed can fail.

use vstd::prelude::*;
use vstd::string::StringExecFns;

verus! {

/// Why the synchronization of one feed was given up. An error stops the
/// feed it belongs to and no other.
#[derive(Clone, Debug, PartialEq, Eq)]
pub enum SyncError {
    /// The document could not be fetched. The text is the transport's own
    /// account; the next scheduled refresh tries again.
    Transport(String),
    /// The bytes that came back are no feed document.
    Format,
    /// A feed lacks a field that every subscribed feed has.
    DataShape,
}

/// The model of `SyncError` that contracts speak of.
pub enum SyncErrorView {
    Transport(Seq<char>),
    Format,
    DataShape,
}

impl DeepView for SyncError {
    type V = SyncErrorView;

    open spec fn deep_view(&self) -> SyncErrorView {
        match self {
            SyncError::Transport(detail) => SyncErrorView::Transport(detail@),
            SyncError::Format => SyncErrorView::Format,
            SyncError::DataShape => SyncErrorView::DataShape,
        }
    }
}

impl View for SyncError {
    type V = SyncErrorView;

    open spec fn view(&self) -> SyncErrorView {
        self.deep_view()
    }
}

/// The model of what an operation that may fail gave.
pub open spec fn outcome_view<T: DeepView>(outcome: Result<T, SyncError>) -> Result<
    T::V,
    SyncErrorView,
> {
    match outcome {
        Ok(value) => Ok(value.deep_view()),
        Err(e) => Err(e@),
    }
}

impl SyncError {
    /// The text that `message` gives.
    pub open spec fn message_text(self) -> Seq<char> {
        match self {
            SyncError::Transport(detail) => "could not fetch the feed: "@ + detail@,
            SyncError::Format => "the response is not a feed document"@,
            SyncError::DataShape => "the feed has no address"@,
        }
    }

    /// A sentence for the reader of the aggregator.
    pub fn message(&self) -> (r: String)
        ensures
            r@ == self.message_text(),
    {
        match self {
            SyncError::Transport(detail) => String::from_str("could not fetch the feed: ").concat(
                detail.as_str(),
            ),
            SyncError::Format => String::from_str("the response is not a feed document"),
            SyncError::DataShape => String::from_str("the feed has no address"),
        }
    }
}

} // verus!
