//! The failures that a caller of the pool can be handed.

use vstd::prelude::*;

verus! {

/// Why a call did not come back with an image.
///
/// Each failure concerns one call or one worker: none of them takes the
/// pool down.
#[derive(Clone, Copy, PartialEq, Eq, Structural, Debug)]
pub enum Error {
    /// The call never reached a worker, or its worker went away before
    /// answering: the queue or the reply channel was closed.
    Channel,
    /// The renderer produced no image, also after every retry.
    Unknown,
    /// The renderer could not be created; its worker never started.
    Creation,
}

impl Error {
    /// A short text for the failure.
    pub fn message(&self) -> (text: String)
        ensures
            text@ == (match *self {
                Error::Channel => "canceled"@,
                Error::Unknown => "unknown error"@,
                Error::Creation => "renderer could not be created"@,
            }),
    {
        match self {
            Error::Channel => "canceled".to_owned(),
            Error::Unknown => "unknown error".to_owned(),
            Error::Creation => "renderer could not be created".to_owned(),
        }
    }
}

} // verus!
