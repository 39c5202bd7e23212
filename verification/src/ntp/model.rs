use vstd::prelude::*;

use crate::types::non_empty::NonEmptyString;

verus! {

/// One time query: which server to ask, on which port, and how long to wait.
#[derive(Debug, Clone, PartialEq, Eq)]
pub struct NtpRequest {
    pub server: NonEmptyString,
    pub port: u16,
    pub timeout_millis: u32,
}

impl NtpRequest {
    /// Assembles a request from its three parts.
    pub fn new(server: NonEmptyString, port: u16, timeout_millis: u32) -> (r: NtpRequest)
        ensures
            r.server == server,
            r.port == port,
            r.timeout_millis == timeout_millis,
    {
        NtpRequest { server, port, timeout_millis }
    }
}

/// The answer to a time query: the server time in Unix milliseconds and, when
/// measured, the round-trip time.
#[derive(Debug, Clone, Copy, PartialEq, Eq, Structural)]
pub struct NtpResponse {
    pub server_unix_millis: u64,
    pub round_trip_millis: Option<u32>,
}

impl NtpResponse {
    /// Assembles a response from its two parts.
    pub fn new(server_unix_millis: u64, round_trip_millis: Option<u32>) -> (r: NtpResponse)
        ensures
            r.server_unix_millis == server_unix_millis,
            r.round_trip_millis == round_trip_millis,
    {
        NtpResponse { server_unix_millis, round_trip_millis }
    }
}

} // verus!
