use vstd::prelude::*;

use crate::ntp::error::{NtpCoreError, NtpTransportError};
use crate::ntp::model::{NtpRequest, NtpResponse};
use crate::ntp::parser::{parse_transmit_timestamp_millis, spec_transmit_millis};

verus! {

/// The network side of a time query, implemented by each platform: send the
/// request and hand back the 48-byte reply.
pub trait NtpTransport {
    fn query(&self, request: &NtpRequest) -> Result<[u8; 48], NtpTransportError>;
}

/// The core error that each transport failure is reported as.
pub open spec fn spec_map_transport_error(error: NtpTransportError) -> NtpCoreError {
    match error {
        NtpTransportError::Timeout => NtpCoreError::Timeout,
        NtpTransportError::Unavailable => NtpCoreError::TransportUnavailable,
        NtpTransportError::UpstreamFailed => NtpCoreError::UpstreamFailed,
    }
}

/// Translates a transport failure into the core error vocabulary.
pub fn map_transport_error(error: NtpTransportError) -> (r: NtpCoreError)
    ensures
        r == spec_map_transport_error(error),
{
    match error {
        NtpTransportError::Timeout => NtpCoreError::Timeout,
        NtpTransportError::Unavailable => NtpCoreError::TransportUnavailable,
        NtpTransportError::UpstreamFailed => NtpCoreError::UpstreamFailed,
    }
}

/// A request is sent only with a non-zero port and a non-zero timeout.
pub open spec fn is_valid_request(request: NtpRequest) -> bool {
    request.port != 0 && request.timeout_millis != 0
}

/// What a query answers once the transport has replied with `reply`.
pub open spec fn spec_query_outcome(
    reply: Result<[u8; 48], NtpTransportError>,
) -> Result<NtpResponse, NtpCoreError> {
    match reply {
        Err(e) => Err(spec_map_transport_error(e)),
        Ok(packet) => match spec_transmit_millis(packet@) {
            Ok(millis) => Ok(NtpResponse { server_unix_millis: millis, round_trip_millis: None }),
            Err(e) => Err(e),
        },
    }
}

/// Turns the transport's reply into the query's answer: transport failures
/// are mapped, packets are parsed, no round-trip time is reported.
pub fn query_outcome(reply: Result<[u8; 48], NtpTransportError>) -> (r: Result<
    NtpResponse,
    NtpCoreError,
>)
    ensures
        r == spec_query_outcome(reply),
{
    match reply {
        Err(e) => Err(map_transport_error(e)),
        Ok(packet) => match parse_transmit_timestamp_millis(&packet) {
            Ok(millis) => Ok(NtpResponse::new(millis, None)),
            Err(e) => Err(e),
        },
    }
}

/// Time queries over a platform transport.
#[derive(Debug, Clone)]
pub struct NtpService<T> {
    transport: T,
}

impl<T: NtpTransport> NtpService<T> {
    /// Wraps a transport.
    pub fn new(transport: T) -> (s: NtpService<T>)
        ensures
            s.transport() == transport,
    {
        NtpService { transport }
    }

    /// The transport the service sends through.
    pub closed spec fn transport(&self) -> T {
        self.transport
    }

    /// Validates the request, asks the transport once, and interprets the reply.
    /// An invalid request is refused before the transport is asked; for a
    /// valid one the answer is the outcome of a reply that this service's
    /// transport gave to `request`.
    pub fn query(&self, request: &NtpRequest) -> (r: Result<NtpResponse, NtpCoreError>)
        ensures
            !is_valid_request(*request) ==> r == Err::<NtpResponse, NtpCoreError>(
                NtpCoreError::InvalidRequest,
            ),
            is_valid_request(*request) ==> exists|reply: Result<[u8; 48], NtpTransportError>|
                call_ensures(T::query, (&self.transport(), request), reply) && r
                    == #[trigger] spec_query_outcome(reply),
    {
        if request.port == 0 || request.timeout_millis == 0 {
            return Err(NtpCoreError::InvalidRequest);
        }
        let reply = self.transport.query(request);
        query_outcome(reply)
    }
}

} // verus!
