//! Locates the aerial LIDAR survey tile covering a projected geographic
//! point and prepares the retrieval of its binary payload.
//!
//! The pipeline has three stages, run strictly in order: a spatial index
//! lookup that yields the tile's object identifier, a metadata lookup that
//! yields the tile's download URL, and a chunked download bridged into a
//! pull-based byte reader. This crate holds the verified decision logic of
//! all three stages; an unverified driver performs the network requests and
//! feeds their outcomes back in as plain values.

use vstd::prelude::*;

pub mod decimal;
pub mod errors;
pub mod index;
pub mod metadata;
pub mod memsize;
pub mod pipeline;
pub mod point;
pub mod stream;

verus! {

/// A human-readable failure report, carrying the message text that the
/// pipeline attaches to the failure it encountered.
#[derive(Debug)]
pub struct Error {
    pub message: String,
}

impl Error {
    /// Wraps a message string into an `Error`.
    pub fn new(message: &str) -> (e: Error)
        ensures
            e.message@ == message@,
    {
        let message = message.to_owned();
        Error { message }
    }
}

} // verus!
