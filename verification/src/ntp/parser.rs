use vstd::prelude::*;

use crate::ntp::error::NtpCoreError;

verus! {

/// Seconds between the NTP era origin (1900-01-01) and the Unix epoch (1970-01-01).
pub const NTP_TIMESTAMP_DELTA: u64 = 2_208_988_800;

/// Offset of the transmit timestamp inside an NTP packet.
pub const TRANSMIT_OFFSET: usize = 40;

/// Length of an NTP packet without extensions.
pub const NTP_PACKET_LEN: usize = 48;

/// The big-endian unsigned value of four bytes.
pub open spec fn be_u32(b0: u8, b1: u8, b2: u8, b3: u8) -> nat {
    (b0 as nat) * 16777216 + (b1 as nat) * 65536 + (b2 as nat) * 256 + (b3 as nat)
}

/// The seconds field of the transmit timestamp (bytes 40..44, big endian).
pub open spec fn transmit_seconds(packet: Seq<u8>) -> nat {
    be_u32(packet[40], packet[41], packet[42], packet[43])
}

/// The fraction field of the transmit timestamp (bytes 44..48, big endian).
pub open spec fn transmit_fraction(packet: Seq<u8>) -> nat {
    be_u32(packet[44], packet[45], packet[46], packet[47])
}

/// Whole milliseconds in a 32-bit binary fraction of a second.
pub open spec fn fraction_to_millis(fraction: nat) -> nat {
    (fraction * 1000) / 4294967296
}

/// What `parse_transmit_timestamp_millis` computes: the transmit time in Unix
/// milliseconds, or `InvalidResponse` for a short packet or a time before 1970.
pub open spec fn spec_transmit_millis(packet: Seq<u8>) -> Result<u64, NtpCoreError> {
    if packet.len() < 48 || transmit_seconds(packet) < NTP_TIMESTAMP_DELTA {
        Err(NtpCoreError::InvalidResponse)
    } else {
        Ok(((transmit_seconds(packet) - NTP_TIMESTAMP_DELTA) * 1000
            + fraction_to_millis(transmit_fraction(packet))) as u64)
    }
}

fn read_be_u32(packet: &[u8], at: usize) -> (r: u64)
    requires
        at + 4 <= packet@.len(),
    ensures
        r == be_u32(packet@[at as int], packet@[at + 1], packet@[at + 2], packet@[at + 3]),
        r < 4294967296,
{
    (packet[at] as u64) * 16777216 + (packet[at + 1] as u64) * 65536 + (packet[at + 2] as u64)
        * 256 + (packet[at + 3] as u64)
}

/// Extracts the server transmit time of an NTP reply as Unix milliseconds.
pub fn parse_transmit_timestamp_millis(packet: &[u8]) -> (r: Result<u64, NtpCoreError>)
    ensures
        r == spec_transmit_millis(packet@),
{
    if packet.len() < NTP_PACKET_LEN {
        return Err(NtpCoreError::InvalidResponse);
    }
    let seconds = read_be_u32(packet, TRANSMIT_OFFSET);
    let fraction = read_be_u32(packet, TRANSMIT_OFFSET + 4);
    if seconds < NTP_TIMESTAMP_DELTA {
        return Err(NtpCoreError::InvalidResponse);
    }
    let unix_seconds = seconds - NTP_TIMESTAMP_DELTA;
    let scaled = fraction * 1000;
    let fraction_millis = scaled >> 32;
    assert(scaled >> 32 == scaled / 0x1_0000_0000) by (bit_vector);
    assert(fraction_millis < 1000) by {
        assert(scaled < 1000 * 4294967296);
    }
    Ok(unix_seconds * 1000 + fraction_millis)
}

} // verus!
