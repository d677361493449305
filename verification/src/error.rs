//! The failures a placeholder request can run into.

use vstd::prelude::*;
use vstd::string::*;

verus! {

/// What can go wrong while a placeholder is produced.
///
/// The first three are fatal to the request and surface as a server error.
/// `CacheError` never is: a failed lookup counts as a miss and a failed insert
/// is only reported beside the successful response.
#[derive(Clone, Copy, Debug, PartialEq, Eq, Structural)]
pub enum PipelineError {
    /// The image origin could not be reached or answered with a non-success status.
    UpstreamUnavailable,
    /// The fetched bytes are not an image in a supported format.
    DecodeError,
    /// The pixel buffer handed to the encoder is outside what it accepts.
    EncodingError,
    /// The remote cache refused a lookup or an insert.
    CacheError,
}

impl PipelineError {
    /// True for the errors that end the request with a server error.
    pub open spec fn is_fatal(self) -> bool {
        self != PipelineError::CacheError
    }

    /// Tells whether this error ends the request.
    pub fn fatal(self) -> (b: bool)
        ensures
            b == self.is_fatal(),
    {
        match self {
            PipelineError::CacheError => false,
            _ => true,
        }
    }

    /// The text of the error, as it appears in logs and error bodies.
    pub open spec fn text(self) -> Seq<char> {
        match self {
            PipelineError::UpstreamUnavailable => "upstream unavailable"@,
            PipelineError::DecodeError => "image could not be decoded"@,
            PipelineError::EncodingError => "placeholder could not be encoded"@,
            PipelineError::CacheError => "cache operation failed"@,
        }
    }

    /// A short human-readable description.
    pub fn describe(self) -> (s: &'static str)
        ensures
            s@ == self.text(),
            s.is_ascii(),
    {
        proof {
            reveal_strlit("upstream unavailable");
            reveal_strlit("image could not be decoded");
            reveal_strlit("placeholder could not be encoded");
            reveal_strlit("cache operation failed");
        }
        match self {
            PipelineError::UpstreamUnavailable => "upstream unavailable",
            PipelineError::DecodeError => "image could not be decoded",
            PipelineError::EncodingError => "placeholder could not be encoded",
            PipelineError::CacheError => "cache operation failed",
        }
    }
}

} // verus!
