use vstd::prelude::*;

use std::time::{Duration, SystemTime};

use crate::ntp::parser::{transmit_seconds, NTP_PACKET_LEN, NTP_TIMESTAMP_DELTA, TRANSMIT_OFFSET};

verus! {

#[verifier::external_type_specification]
#[verifier::external_body]
pub struct ExSystemTime(std::time::SystemTime);

#[verifier::external_type_specification]
#[verifier::external_body]
pub struct ExIoError(std::io::Error);

/// `Duration` is `Copy`: its `clone` returns the same value.
pub assume_specification[ <std::time::Duration as Clone>::clone ](d: &Duration) -> (r: Duration)
    ensures
        r == *d,
;

/// The point in time `secs` seconds after the Unix epoch, as `std` builds it.
pub uninterp spec fn unix_time_at(secs: u64) -> SystemTime;

/// The `Duration` of `secs` whole seconds, as `std` builds it.
pub uninterp spec fn whole_seconds(secs: u64) -> Duration;

/// Calls `std::time::Duration::from_secs`; the result is named `whole_seconds(secs)`.
#[verifier::external_body]
fn duration_from_secs(secs: u64) -> (d: Duration)
    ensures
        d == whole_seconds(secs),
{
    Duration::from_secs(secs)
}

/// Computes `UNIX_EPOCH + Duration::from_secs(secs)` with `std`; the result is
/// named `unix_time_at(secs)`. Seconds below 2^32 never overflow `SystemTime`.
#[verifier::external_body]
fn unix_time_from_secs(secs: u64) -> (t: SystemTime)
    requires
        secs < 0x1_0000_0000,
    ensures
        t == unix_time_at(secs),
{
    std::time::UNIX_EPOCH + Duration::from_secs(secs)
}

/// Errors of the socket-based NTP client.
#[derive(Debug)]
pub enum NtpError {
    Io(std::io::Error),
    InvalidResponse,
    Unknown,
}

/// Default NTP server used by the client.
pub const DEFAULT_NTP_SERVER: &'static str = "ntp.aliyun.com:123";

/// Seconds the client waits for a reply unless told otherwise.
pub const DEFAULT_TIMEOUT_SECS: u64 = 3;

/// Blocking NTP client settings: the server address and the read timeout.
#[derive(Debug, Clone)]
pub struct NtpClient {
    pub server: String,
    pub timeout: Duration,
}

impl NtpClient {
    /// Creates a client for `server` with a three second timeout.
    pub fn new(server: &str) -> (c: NtpClient)
        ensures
            c.server@ == server@,
            c.timeout == whole_seconds(DEFAULT_TIMEOUT_SECS),
    {
        NtpClient { server: server.to_string(), timeout: duration_from_secs(DEFAULT_TIMEOUT_SECS) }
    }

    /// Replaces the read timeout.
    pub fn with_timeout(self, timeout: Duration) -> (c: NtpClient)
        ensures
            c.server == self.server,
            c.timeout == timeout,
    {
        let mut c = self;
        c.timeout = timeout;
        c
    }
}

/// The first byte of a client request: leap indicator 3 (unsynchronised),
/// version 4, mode 3 (client).
pub const NTP_CLIENT_HEADER: u8 = 0b1110_0011;

/// The 48-byte request the client sends: the header byte and zeros after it.
pub open spec fn spec_request_packet() -> Seq<u8> {
    Seq::new(48, |i: int| if i == 0 { NTP_CLIENT_HEADER } else { 0u8 })
}

/// Builds the request packet that `sync_time` sends to the server.
pub fn ntp_request_packet() -> (p: [u8; 48])
    ensures
        p@ == spec_request_packet(),
{
    let mut packet = [0u8; 48];
    packet[0] = NTP_CLIENT_HEADER;
    assert(packet@ =~= spec_request_packet());
    packet
}

/// What `parse_transmit_timestamp_secs` computes: the transmit seconds since
/// the Unix epoch, or `None` for a short packet or a time before 1970.
pub open spec fn spec_transmit_unix_secs(packet: Seq<u8>) -> Option<u64> {
    if packet.len() < 48 || transmit_seconds(packet) < NTP_TIMESTAMP_DELTA {
        None
    } else {
        Some((transmit_seconds(packet) - NTP_TIMESTAMP_DELTA) as u64)
    }
}

/// Extracts the whole seconds of the transmit timestamp, relative to the Unix epoch.
pub fn parse_transmit_timestamp_secs(packet: &[u8]) -> (r: Option<u64>)
    ensures
        r == spec_transmit_unix_secs(packet@),
        r matches Some(s) ==> s < 0x1_0000_0000,
{
    if packet.len() < NTP_PACKET_LEN {
        return None;
    }
    let at = TRANSMIT_OFFSET;
    let secs = (packet[at] as u64) * 16777216 + (packet[at + 1] as u64) * 65536
        + (packet[at + 2] as u64) * 256 + (packet[at + 3] as u64);
    if secs < NTP_TIMESTAMP_DELTA {
        return None;
    }
    Some(secs - NTP_TIMESTAMP_DELTA)
}

/// Parses the transmit timestamp of an NTP reply into a `SystemTime`.
pub fn parse_transmit_timestamp(packet: &[u8]) -> (r: Result<SystemTime, NtpError>)
    ensures
        match spec_transmit_unix_secs(packet@) {
            Some(secs) => r matches Ok(t) && t == unix_time_at(secs),
            None => r matches Err(NtpError::InvalidResponse),
        },
{
    match parse_transmit_timestamp_secs(packet) {
        Some(secs) => Ok(unix_time_from_secs(secs)),
        None => Err(NtpError::InvalidResponse),
    }
}

} // verus!
