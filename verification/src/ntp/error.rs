use vstd::prelude::*;

use crate::text::owned;

verus! {

/// Errors surfaced by the NTP core service.
#[derive(Debug, Clone, Copy, PartialEq, Eq, Structural)]
pub enum NtpCoreError {
    InvalidRequest,
    InvalidResponse,
    Timeout,
    TransportUnavailable,
    UpstreamFailed,
}

/// Failures a transport reports for one query.
#[derive(Debug, Clone, Copy, PartialEq, Eq, Structural)]
pub enum NtpTransportError {
    Timeout,
    Unavailable,
    UpstreamFailed,
}

impl NtpCoreError {
    /// The display text of the error.
    pub open spec fn spec_message(self) -> Seq<char> {
        match self {
            NtpCoreError::InvalidRequest => "invalid request"@,
            NtpCoreError::InvalidResponse => "invalid response"@,
            NtpCoreError::Timeout => "timeout"@,
            NtpCoreError::TransportUnavailable => "transport unavailable"@,
            NtpCoreError::UpstreamFailed => "upstream failed"@,
        }
    }

    /// Renders the error as its display text.
    pub fn to_string(&self) -> (s: String)
        ensures
            s@ == self.spec_message(),
    {
        match self {
            NtpCoreError::InvalidRequest => owned("invalid request"),
            NtpCoreError::InvalidResponse => owned("invalid response"),
            NtpCoreError::Timeout => owned("timeout"),
            NtpCoreError::TransportUnavailable => owned("transport unavailable"),
            NtpCoreError::UpstreamFailed => owned("upstream failed"),
        }
    }
}

impl NtpTransportError {
    /// The display text of the error.
    pub open spec fn spec_message(self) -> Seq<char> {
        match self {
            NtpTransportError::Timeout => "timeout"@,
            NtpTransportError::Unavailable => "transport unavailable"@,
            NtpTransportError::UpstreamFailed => "upstream failed"@,
        }
    }

    /// Renders the error as its display text.
    pub fn to_string(&self) -> (s: String)
        ensures
            s@ == self.spec_message(),
    {
        match self {
            NtpTransportError::Timeout => owned("timeout"),
            NtpTransportError::Unavailable => owned("transport unavailable"),
            NtpTransportError::UpstreamFailed => owned("upstream failed"),
        }
    }
}

} // verus!
