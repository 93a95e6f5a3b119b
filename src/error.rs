use vstd::prelude::*;

verus! {

/// Why an audio operation did not succeed.
#[derive(Clone, Copy, Debug, PartialEq, Eq, Structural)]
pub enum AudioError {
    /// A requested volume lies outside the range from silent to normal.
    InvalidArgument,
    /// The connection to the audio service could not be set up or driven.
    ConnectionError,
    /// The application, stream or device asked for does not exist.
    NotFound,
    /// A bounded wait ended without a definite answer.
    Timeout,
    /// The capability is not provided by this backend.
    Unavailable,
    /// The operating system is not one of the supported kinds.
    PlatformUnsupported,
}

} // verus!
