//! The failure taxonomy of the tile pipeline.
//!
//! Every failure is surfaced to the caller at the point where it occurred;
//! nothing is retried or recovered internally, and a failing run yields no
//! stream at all.

use vstd::prelude::*;
use crate::Error;

verus! {

/// Which expected piece of the metadata response was missing or had the
/// wrong type. Each cause is distinguishable for diagnostics, though all
/// surface under the same error kind.
#[derive(Clone, Copy, Debug, PartialEq, Eq, Structural)]
pub enum Malformation {
    /// The top-level "feature" object was absent.
    MissingFeature,
    /// The "attributes" object inside "feature" was absent.
    MissingAttributes,
    /// The "FILE_URL" field inside "attributes" was absent.
    MissingFileUrl,
    /// The "FILE_URL" field was present but was not a string.
    FileUrlNotAString,
}

/// The kinds of failure the pipeline can report.
#[derive(Clone, Copy, Debug, PartialEq, Eq, Structural)]
pub enum PipelineError {
    /// The network call itself failed before any application-level parsing
    /// occurred; no distinction is drawn among its possible causes.
    Transport,
    /// The spatial index legitimately returned zero matching tiles.
    NotFound,
    /// A response parsed as JSON but lacked an expected field or had the
    /// wrong type at one; the payload says which piece was at fault.
    MalformedResponse(Malformation),
    /// A transport error occurred mid-stream during the tile download,
    /// after a successful initial response.
    StreamFault,
}

impl PipelineError {
    /// The diagnostic message attached to this failure kind.
    pub open spec fn message_text(self) -> Seq<char> {
        match self {
            PipelineError::Transport => "The network request failed before a response arrived."@,
            PipelineError::NotFound => "Could not find \"objectId\" in response."@,
            PipelineError::MalformedResponse(m) => match m {
                Malformation::MissingFeature => "Could not find \"feature\" in response."@,
                Malformation::MissingAttributes => "Could not find \"attributes\" in response."@,
                Malformation::MissingFileUrl => "Could not find \"FILE_URL\" in response."@,
                Malformation::FileUrlNotAString => "Expected \"FILE_URL\" to be a string but it was not."@,
            },
            PipelineError::StreamFault => "The tile stream was cut short by a transport fault."@,
        }
    }

    /// Wraps the failure's diagnostic message into an [`Error`] for callers
    /// that report failures as text.
    pub fn describe(&self) -> (e: Error)
        ensures
            e.message@ == self.message_text(),
    {
        match self {
            PipelineError::Transport => Error::new(
                "The network request failed before a response arrived.",
            ),
            PipelineError::NotFound => Error::new("Could not find \"objectId\" in response."),
            PipelineError::MalformedResponse(m) => match m {
                Malformation::MissingFeature => Error::new(
                    "Could not find \"feature\" in response.",
                ),
                Malformation::MissingAttributes => Error::new(
                    "Could not find \"attributes\" in response.",
                ),
                Malformation::MissingFileUrl => Error::new(
                    "Could not find \"FILE_URL\" in response.",
                ),
                Malformation::FileUrlNotAString => Error::new(
                    "Expected \"FILE_URL\" to be a string but it was not.",
                ),
            },
            PipelineError::StreamFault => Error::new(
                "The tile stream was cut short by a transport fault.",
            ),
        }
    }
}

} // verus!
