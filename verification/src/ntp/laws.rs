//! Properties that hold across the NTP functions.
use vstd::prelude::*;

use crate::ntp::client::spec_transmit_unix_secs;
use crate::ntp::error::{NtpCoreError, NtpTransportError};
use crate::ntp::parser::{
    fraction_to_millis, spec_transmit_millis, transmit_fraction, transmit_seconds,
};
use crate::ntp::service::spec_map_transport_error;

verus! {

/// The millisecond parser and the whole-second parser accept the same
/// packets, and on each of them the milliseconds hold the seconds exactly:
/// `millis / 1000` is the second count and `millis % 1000` the rounded-down
/// fraction.
pub proof fn law_parsers_agree(packet: Seq<u8>)
    ensures
        spec_transmit_millis(packet) is Ok <==> spec_transmit_unix_secs(packet) is Some,
        spec_transmit_millis(packet) is Err ==> spec_transmit_millis(packet) == Err::<
            u64,
            NtpCoreError,
        >(NtpCoreError::InvalidResponse),
        spec_transmit_millis(packet) is Ok ==> {
            let millis = spec_transmit_millis(packet)->Ok_0;
            let secs = spec_transmit_unix_secs(packet)->Some_0;
            &&& millis / 1000 == secs
            &&& millis % 1000 == fraction_to_millis(transmit_fraction(packet))
        },
{
    if spec_transmit_millis(packet) is Ok {
        let f = transmit_fraction(packet);
        assert(f < 4294967296);
        assert(fraction_to_millis(f) < 1000) by {
            assert(f * 1000 < 1000 * 4294967296) by (nonlinear_arith)
                requires f < 4294967296;
        }
        let s = (transmit_seconds(packet) - 2_208_988_800) as nat;
        assert(s < 4294967296);
        let m = s * 1000 + fraction_to_millis(f);
        assert(m / 1000 == s && m % 1000 == fraction_to_millis(f)) by {
            vstd::arithmetic::div_mod::lemma_fundamental_div_mod_converse(
                m as int, 1000, s as int, fraction_to_millis(f) as int);
        }
    }
}

/// Only the transmit timestamp (bytes 40 to 47) of a full packet decides the
/// parse; every other byte is ignored.
pub proof fn law_parse_reads_only_transmit_timestamp(p1: Seq<u8>, p2: Seq<u8>)
    requires
        p1.len() >= 48,
        p2.len() >= 48,
        forall|i: int| 40 <= i < 48 ==> p1[i] == p2[i],
    ensures
        spec_transmit_millis(p1) == spec_transmit_millis(p2),
        spec_transmit_unix_secs(p1) == spec_transmit_unix_secs(p2),
{
    assert(p1[40] == p2[40] && p1[41] == p2[41] && p1[42] == p2[42] && p1[43] == p2[43]);
    assert(p1[44] == p2[44] && p1[45] == p2[45] && p1[46] == p2[46] && p1[47] == p2[47]);
}

/// A later transmit timestamp never parses to an earlier time: the parse is
/// monotone in (seconds, fraction) ordered lexicographically.
pub proof fn law_parse_is_monotone(p1: Seq<u8>, p2: Seq<u8>)
    requires
        spec_transmit_millis(p1) is Ok,
        spec_transmit_millis(p2) is Ok,
        transmit_seconds(p1) < transmit_seconds(p2) || (transmit_seconds(p1) == transmit_seconds(
            p2,
        ) && transmit_fraction(p1) <= transmit_fraction(p2)),
    ensures
        spec_transmit_millis(p1)->Ok_0 <= spec_transmit_millis(p2)->Ok_0,
{
    let f1 = transmit_fraction(p1);
    let f2 = transmit_fraction(p2);
    assert(f1 < 4294967296 && f2 < 4294967296);
    assert(fraction_to_millis(f1) < 1000) by {
        assert(f1 * 1000 < 1000 * 4294967296) by (nonlinear_arith)
            requires f1 < 4294967296;
    }
    assert(fraction_to_millis(f2) < 1000) by {
        assert(f2 * 1000 < 1000 * 4294967296) by (nonlinear_arith)
            requires f2 < 4294967296;
    }
    if transmit_seconds(p1) == transmit_seconds(p2) {
        assert(fraction_to_millis(f1) <= fraction_to_millis(f2)) by {
            assert(f1 * 1000 <= f2 * 1000) by (nonlinear_arith)
                requires f1 <= f2;
            vstd::arithmetic::div_mod::lemma_div_is_ordered(
                (f1 * 1000) as int, (f2 * 1000) as int, 4294967296);
        }
    }
}

/// Distinct transport failures stay distinct, and none of them is reported
/// as a bad request or a bad response.
pub proof fn law_transport_errors_map_faithfully(a: NtpTransportError, b: NtpTransportError)
    ensures
        a != b ==> spec_map_transport_error(a) != spec_map_transport_error(b),
        spec_map_transport_error(a) != NtpCoreError::InvalidRequest,
        spec_map_transport_error(a) != NtpCoreError::InvalidResponse,
{
}

} // verus!
