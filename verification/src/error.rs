//! The failures that the client reports.

use vstd::prelude::*;

verus! {

/// Every way in which an operation of this crate, or the transport that
/// carries it out, can fail.
#[derive(Debug, Clone, Copy, PartialEq, Eq, Structural)]
pub enum Error {
    /// The hash text is not hexadecimal or has the wrong length.
    HashError,
    /// The path type is not known or the path has an empty segment.
    IpfsPathParseError,
    /// The address descriptor of the local daemon is missing, unreadable,
    /// not understood or incomplete.
    LocalApiUnavailableError,
    /// The URL of the request could not be built: a part of it is longer
    /// than the URL parser takes, or the parser refused it.
    IpfsApiUrlError,
    /// The request could not be sent.
    IpfsApiSendRequestError,
    /// The daemon answered with a status outside the success range.
    IpfsApiResponseError(u16),
    /// The response body is not the expected JSON.
    IpfsApiJsonPayloadError,
    /// The response body could not be read.
    IpfsApiPayloadError,
    /// The operating system gave no entropy to draw a multipart boundary from.
    EntropyUnavailableError,
}

impl Error {
    /// The status code that the daemon answered with, where the failure is
    /// an answer of the daemon.
    pub open spec fn spec_status(self) -> Option<u16> {
        match self {
            Error::IpfsApiResponseError(status) => Some(status),
            _ => None,
        }
    }

    #[verifier::when_used_as_spec(spec_status)]
    pub fn status(self) -> (r: Option<u16>)
        ensures
            r == self.spec_status(),
    {
        match self {
            Error::IpfsApiResponseError(status) => Some(status),
            _ => None,
        }
    }
}

} // verus!
