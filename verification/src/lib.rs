//! The synchronization engine of a personal feed aggregator.
//!
//! The engine turns the bytes of a fetched feed document into the rows that a
//! store should hold: it normalizes dates and articles, decides which
//! articles a feed does not have yet, and plans what a subscription or a
//! refresh inserts. Fetching and persisting are left to the caller.

pub mod batch;
pub mod cmd;
pub mod dates;
pub mod document;
pub mod error;
pub mod models;
pub mod normalize;
pub mod novelty;
pub mod store;
pub mod sync;
pub mod text;
pub mod timestamp;
