use std::time::UNIX_EPOCH;

use george_template::ntp::client::{
    ntp_request_packet, parse_transmit_timestamp, parse_transmit_timestamp_secs, NtpClient, NtpError,
    DEFAULT_NTP_SERVER,
};
use george_template::ntp::error::{NtpCoreError, NtpTransportError};
use george_template::ntp::model::{NtpRequest, NtpResponse};
use george_template::ntp::parser::{parse_transmit_timestamp_millis, NTP_TIMESTAMP_DELTA};
use george_template::ntp::service::{map_transport_error, query_outcome, NtpService, NtpTransport};
use george_template::types::non_empty::NonEmptyString;

#[test]
fn parses_valid_transmit_timestamp() {
    let mut packet = [0u8; 48];
    let unix_secs = 1_700_000_000u64;
    let ntp_secs = unix_secs + NTP_TIMESTAMP_DELTA;
    packet[40..44].copy_from_slice(&(ntp_secs as u32).to_be_bytes());

    let parsed = parse_transmit_timestamp(&packet).unwrap();
    let parsed_secs = parsed.duration_since(UNIX_EPOCH).unwrap().as_secs();

    assert_eq!(parsed_secs, unix_secs);
}

#[test]
fn ntp_rejects_short_packets() {
    let packet = [0u8; 47];
    let result = parse_transmit_timestamp(&packet);

    assert!(matches!(result, Err(NtpError::InvalidResponse)));
}

#[test]
fn rejects_timestamps_before_unix_epoch() {
    let mut packet = [0u8; 48];
    packet[40..44].copy_from_slice(&1u32.to_be_bytes());

    let result = parse_transmit_timestamp(&packet);

    assert!(matches!(result, Err(NtpError::InvalidResponse)));
}

struct SuccessTransport;

impl NtpTransport for SuccessTransport {
    fn query(&self, _request: &NtpRequest) -> Result<[u8; 48], NtpTransportError> {
        let mut packet = [0u8; 48];
        let unix_secs = 1_700_000_000u64;
        let ntp_secs = unix_secs + NTP_TIMESTAMP_DELTA;

        packet[40..44].copy_from_slice(&(ntp_secs as u32).to_be_bytes());

        Ok(packet)
    }
}

#[test]
fn public_export_paths_are_usable() {
    let server = NonEmptyString::try_from("pool.ntp.org").expect("server should be valid");
    let request = NtpRequest::new(server, 123, 3_000);
    let service = NtpService::new(SuccessTransport);
    let response = service.query(&request).expect("query should succeed");

    let parsed = parse_transmit_timestamp_millis(&{
        let mut packet = [0u8; 48];
        let unix_secs = 1_700_000_000u64;
        let ntp_secs = unix_secs + NTP_TIMESTAMP_DELTA;
        packet[40..44].copy_from_slice(&(ntp_secs as u32).to_be_bytes());
        packet
    })
    .expect("parser should work");

    assert_eq!(response.server_unix_millis, parsed);
    assert_eq!(NtpCoreError::InvalidRequest.to_string(), "invalid request");
}

#[test]
fn parses_valid_packet_to_unix_millis() {
    let mut packet = [0u8; 48];
    let unix_secs = 1_700_000_000u64;
    let ntp_secs = unix_secs + NTP_TIMESTAMP_DELTA;
    let fraction = 0x8000_0000u32;

    packet[40..44].copy_from_slice(&(ntp_secs as u32).to_be_bytes());
    packet[44..48].copy_from_slice(&fraction.to_be_bytes());

    let parsed = parse_transmit_timestamp_millis(&packet).expect("packet should parse");

    assert_eq!(parsed, unix_secs * 1_000 + 500);
}

#[test]
fn parser_rejects_short_packets() {
    let packet = [0u8; 47];
    let parsed = parse_transmit_timestamp_millis(&packet);

    assert_eq!(parsed, Err(NtpCoreError::InvalidResponse));
}

#[test]
fn rejects_packets_before_unix_epoch() {
    let mut packet = [0u8; 48];
    packet[40..44].copy_from_slice(&1u32.to_be_bytes());

    let parsed = parse_transmit_timestamp_millis(&packet);

    assert_eq!(parsed, Err(NtpCoreError::InvalidResponse));
}

#[test]
fn converts_fraction_to_millis() {
    let mut packet = [0u8; 48];
    let unix_secs = 10u64;
    let ntp_secs = unix_secs + NTP_TIMESTAMP_DELTA;
    let fraction = 0x4000_0000u32;

    packet[40..44].copy_from_slice(&(ntp_secs as u32).to_be_bytes());
    packet[44..48].copy_from_slice(&fraction.to_be_bytes());

    let parsed = parse_transmit_timestamp_millis(&packet).expect("packet should parse");

    assert_eq!(parsed, 10_250);
}

#[derive(Clone, Copy)]
enum FakeTransportMode {
    Success,
    Timeout,
    Unavailable,
    UpstreamFailed,
    InvalidPacket,
}

struct FakeTransport {
    mode: FakeTransportMode,
}

impl NtpTransport for FakeTransport {
    fn query(&self, _request: &NtpRequest) -> Result<[u8; 48], NtpTransportError> {
        match self.mode {
            FakeTransportMode::Success => {
                let mut packet = [0u8; 48];
                let unix_secs = 1_700_000_000u64;
                let ntp_secs = unix_secs + NTP_TIMESTAMP_DELTA;

                packet[40..44].copy_from_slice(&(ntp_secs as u32).to_be_bytes());

                Ok(packet)
            }
            FakeTransportMode::Timeout => Err(NtpTransportError::Timeout),
            FakeTransportMode::Unavailable => Err(NtpTransportError::Unavailable),
            FakeTransportMode::UpstreamFailed => Err(NtpTransportError::UpstreamFailed),
            FakeTransportMode::InvalidPacket => {
                let mut packet = [0u8; 48];
                packet[40..44].copy_from_slice(&1u32.to_be_bytes());
                Ok(packet)
            }
        }
    }
}

fn make_request(port: u16, timeout_millis: u32) -> NtpRequest {
    let server = NonEmptyString::try_from("pool.ntp.org").expect("server should be valid");
    NtpRequest::new(server, port, timeout_millis)
}

#[test]
fn query_returns_response_on_success() {
    let service = NtpService::new(FakeTransport {
        mode: FakeTransportMode::Success,
    });
    let request = make_request(123, 3_000);

    let response = service.query(&request).expect("query should succeed");

    assert_eq!(response.server_unix_millis, 1_700_000_000_000);
    assert_eq!(response.round_trip_millis, None);
}

#[test]
fn timeout_maps_to_core_timeout() {
    let service = NtpService::new(FakeTransport {
        mode: FakeTransportMode::Timeout,
    });

    let result = service.query(&make_request(123, 3_000));

    assert_eq!(result, Err(NtpCoreError::Timeout));
}

#[test]
fn unavailable_maps_to_transport_unavailable() {
    let service = NtpService::new(FakeTransport {
        mode: FakeTransportMode::Unavailable,
    });

    let result = service.query(&make_request(123, 3_000));

    assert_eq!(result, Err(NtpCoreError::TransportUnavailable));
}

#[test]
fn upstream_failure_maps_to_upstream_failed() {
    let service = NtpService::new(FakeTransport {
        mode: FakeTransportMode::UpstreamFailed,
    });

    let result = service.query(&make_request(123, 3_000));

    assert_eq!(result, Err(NtpCoreError::UpstreamFailed));
}

#[test]
fn invalid_packets_map_to_invalid_response() {
    let service = NtpService::new(FakeTransport {
        mode: FakeTransportMode::InvalidPacket,
    });

    let result = service.query(&make_request(123, 3_000));

    assert_eq!(result, Err(NtpCoreError::InvalidResponse));
}

#[test]
fn invalid_request_is_rejected_when_port_is_zero() {
    let service = NtpService::new(FakeTransport {
        mode: FakeTransportMode::Success,
    });

    let result = service.query(&make_request(0, 3_000));

    assert_eq!(result, Err(NtpCoreError::InvalidRequest));
}

#[test]
fn invalid_request_is_rejected_when_timeout_is_zero() {
    let service = NtpService::new(FakeTransport {
        mode: FakeTransportMode::Success,
    });

    let result = service.query(&make_request(123, 0));

    assert_eq!(result, Err(NtpCoreError::InvalidRequest));
}

#[test]
fn ntp_request_export_path_is_usable() {
    let server = NonEmptyString::try_from("pool.ntp.org").expect("server should be valid");
    let request = NtpRequest::new(server, 123, 3_000);

    assert_eq!(request.port, 123);
    assert_eq!(request.timeout_millis, 3_000);
}

#[test]
fn ntp_response_export_path_is_usable() {
    let response = NtpResponse::new(1_700_000_000_000, Some(24));

    assert_eq!(response.server_unix_millis, 1_700_000_000_000);
    assert_eq!(response.round_trip_millis, Some(24));
}

#[test]
fn request_new_assigns_all_fields() {
    let server = NonEmptyString::try_from("time.cloudflare.com")
        .expect("server should be a non-empty string");
    let request = NtpRequest::new(server.clone(), 123, 5_000);

    assert_eq!(request.server, server);
    assert_eq!(request.port, 123);
    assert_eq!(request.timeout_millis, 5_000);
}

#[test]
fn server_uses_non_empty_string() {
    let server = NonEmptyString::try_from("pool.ntp.org").expect("server should be valid");
    let request = NtpRequest::new(server.clone(), 123, 1_500);

    assert_eq!(request.server.as_str(), server.as_str());
}

#[test]
fn request_can_be_built_from_non_empty_string_value() {
    let server = NonEmptyString::try_from("ntp.aliyun.com")
        .expect("server should be a non-empty string");
    let request = NtpRequest::new(server, 123, 2_000);

    assert_eq!(request.server.as_str(), "ntp.aliyun.com");
    assert_eq!(request.port, 123);
    assert_eq!(request.timeout_millis, 2_000);
}

#[test]
fn response_new_assigns_all_fields() {
    let response = NtpResponse::new(1_700_000_000_000, Some(18));

    assert_eq!(response.server_unix_millis, 1_700_000_000_000);
    assert_eq!(response.round_trip_millis, Some(18));
}

#[test]
fn round_trip_millis_can_be_none() {
    let response = NtpResponse::new(1_700_000_000_000, None);

    assert_eq!(response.server_unix_millis, 1_700_000_000_000);
    assert_eq!(response.round_trip_millis, None);
}

#[test]
fn round_trip_millis_can_be_some() {
    let response = NtpResponse::new(1_700_000_000_123, Some(42));

    assert_eq!(response.server_unix_millis, 1_700_000_000_123);
    assert_eq!(response.round_trip_millis, Some(42));
}

fn packet_with(seconds: u32, fraction: u32) -> [u8; 64] {
    let mut packet = [0xAAu8; 64];
    packet[40..44].copy_from_slice(&seconds.to_be_bytes());
    packet[44..48].copy_from_slice(&fraction.to_be_bytes());
    packet
}

#[test]
fn millis_and_seconds_parsers_agree() {
    for (seconds, fraction) in [
        (NTP_TIMESTAMP_DELTA as u32, 0u32),
        (NTP_TIMESTAMP_DELTA as u32, u32::MAX),
        (u32::MAX, u32::MAX),
        (3_908_988_800, 0x1999_999A),
        (12, 0),
    ] {
        let packet = packet_with(seconds, fraction);
        let millis = parse_transmit_timestamp_millis(&packet);
        let secs = parse_transmit_timestamp_secs(&packet);
        assert_eq!(millis.is_ok(), secs.is_some());
        if let (Ok(m), Some(s)) = (millis, secs) {
            assert_eq!(m / 1000, s);
            assert_eq!(m % 1000, (fraction as u64 * 1000) >> 32);
        }
    }
    let last = parse_transmit_timestamp_millis(&packet_with(u32::MAX, u32::MAX)).unwrap();
    assert_eq!(last, (u32::MAX as u64 - NTP_TIMESTAMP_DELTA) * 1000 + 999);
}

#[test]
fn parse_ignores_bytes_outside_transmit_timestamp() {
    let mut a = packet_with(3_908_988_800, 0x8000_0000);
    let b = a;
    a[0] = 0;
    a[39] = 0;
    a[48] = 1;
    assert_eq!(parse_transmit_timestamp_millis(&a), parse_transmit_timestamp_millis(&b));
    assert_eq!(parse_transmit_timestamp_millis(&a), Ok(1_700_000_000_500));
}

#[test]
fn later_timestamps_never_parse_to_earlier_times() {
    let steps = [
        (3_908_988_800u32, 0u32),
        (3_908_988_800, 0x0041_8937),
        (3_908_988_800, 0x8000_0000),
        (3_908_988_800, u32::MAX),
        (3_908_988_801, 0),
        (u32::MAX, u32::MAX),
    ];
    let mut previous = 0u64;
    for (seconds, fraction) in steps {
        let millis = parse_transmit_timestamp_millis(&packet_with(seconds, fraction)).unwrap();
        assert!(millis >= previous);
        previous = millis;
    }
}

#[test]
fn transport_errors_map_to_distinct_core_errors() {
    assert_eq!(map_transport_error(NtpTransportError::Timeout), NtpCoreError::Timeout);
    assert_eq!(
        map_transport_error(NtpTransportError::Unavailable),
        NtpCoreError::TransportUnavailable
    );
    assert_eq!(map_transport_error(NtpTransportError::UpstreamFailed), NtpCoreError::UpstreamFailed);
    assert_eq!(NtpTransportError::Unavailable.to_string(), "transport unavailable");
    assert_eq!(NtpCoreError::InvalidResponse.to_string(), "invalid response");
    assert_eq!(NtpCoreError::UpstreamFailed.to_string(), "upstream failed");
}

#[test]
fn query_outcome_interprets_replies() {
    assert_eq!(query_outcome(Err(NtpTransportError::Timeout)), Err(NtpCoreError::Timeout));
    let mut packet = [0u8; 48];
    packet[40..44].copy_from_slice(&(NTP_TIMESTAMP_DELTA as u32).to_be_bytes());
    assert_eq!(query_outcome(Ok(packet)), Ok(NtpResponse::new(0, None)));
}

#[test]
fn client_defaults_and_request_packet() {
    let client = NtpClient::new(DEFAULT_NTP_SERVER);
    assert_eq!(client.server, "ntp.aliyun.com:123");
    assert_eq!(client.timeout, std::time::Duration::from_secs(3));
    let client = client.with_timeout(std::time::Duration::from_millis(250));
    assert_eq!(client.timeout.as_millis(), 250);
    assert_eq!(client.server, "ntp.aliyun.com:123");

    let packet = ntp_request_packet();
    assert_eq!(packet[0], 0b1110_0011);
    assert!(packet[1..].iter().all(|b| *b == 0));
}
