//! The commands that the interface sends to the engine.

use vstd::prelude::*;

verus! {

/// One command of the interface.
#[derive(Clone, Debug, PartialEq, Eq)]
pub enum Cmd {
    /// Subscribe to the feed at `url`.
    Subscribe { url: String },
    /// Open `url` outside the aggregator.
    ExternalLink { url: String },
    /// Stop following the feed `id`.
    Unsubscribe { id: i32 },
    /// Follow the feed `id` again.
    Resubscribe { id: i32 },
}

} // verus!
