//! Failures reported by the decode adapter for one transport chunk.
use vstd::prelude::*;

verus! {

/// A recoverable, per-chunk decode failure: the chunk is dropped and the
/// pipeline goes on with the next one.
#[derive(Debug, Clone, Copy, PartialEq, Eq, Structural)]
pub enum Error {
    /// The container format of the payload is not supported.
    Format,
    /// No decoder could be made for the selected track.
    Decoder,
    /// No track with a known codec was found.
    Track,
    /// The extracted audio payload was empty.
    Empty,
}

/// The human-readable text of each failure.
pub open spec fn error_text(e: Error) -> Seq<char> {
    match e {
        Error::Format => "unsupported format"@,
        Error::Decoder => "no supported audio tracks"@,
        Error::Track => "unsupported codec"@,
        Error::Empty => "empty audio data"@,
    }
}

impl Error {
    /// The message shown for this failure.
    pub fn message(&self) -> (r: &'static str)
        ensures
            r@ == error_text(*self),
    {
        match self {
            Error::Format => "unsupported format",
            Error::Decoder => "no supported audio tracks",
            Error::Track => "unsupported codec",
            Error::Empty => "empty audio data",
        }
    }
}

} // verus!
