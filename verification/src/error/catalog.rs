//! The catalog of stable error descriptors.
use vstd::prelude::*;

use crate::error::base::BaseError;
use crate::error::code::{pack_code, ErrorCode};
use crate::error::descriptor::ErrorDescriptor;
use crate::error::kind::ErrorKind;

verus! {

/// Number of descriptors in the catalog.
pub const CATALOG_LEN: usize = 16;

/// The codes of the catalog, in catalog order.
pub open spec fn catalog_codes() -> Seq<nat> {
    seq![1, 2, 100001, 100002, 200001, 200002, 302001, 303001, 306404, 400001, 400002, 501001, 502001, 601001, 602001, 706001]
}

/// The names of the catalog, in catalog order.
pub open spec fn catalog_names() -> Seq<Seq<char>> {
    seq!["COMMON_UNKNOWN"@, "COMMON_INTERNAL"@, "CONFIG_MISSING_VALUE"@, "CONFIG_INVALID_VALUE"@, "RUNTIME_INVALID_STATE"@, "RUNTIME_TASK_CANCELLED"@, "NET_DNS_LOOKUP_FAILED"@, "NET_TCP_TIMEOUT"@, "NET_HTTP_NOT_FOUND"@, "STORAGE_IO_FAILED"@, "STORAGE_NOT_FOUND"@, "DATA_JSON_PARSE_FAILED"@, "DATA_PROTOCOL_DECODE_FAILED"@, "SEC_AUTH_PERMISSION_DENIED"@, "SEC_CERT_VERIFY_FAILED"@, "PLATFORM_JNI_CALLBACK_THREAD_UNAVAILABLE"@]
}

/// The kinds of the catalog, in catalog order.
pub open spec fn catalog_kinds() -> Seq<ErrorKind> {
    seq![ErrorKind::Internal, ErrorKind::Internal, ErrorKind::InvalidInput, ErrorKind::InvalidInput, ErrorKind::InvalidState, ErrorKind::Cancelled, ErrorKind::Unavailable, ErrorKind::Timeout, ErrorKind::NotFound, ErrorKind::Upstream, ErrorKind::NotFound, ErrorKind::Parse, ErrorKind::Decode, ErrorKind::PermissionDenied, ErrorKind::Verify, ErrorKind::Unavailable]
}

/// The default messages of the catalog, in catalog order.
pub open spec fn catalog_messages() -> Seq<Seq<char>> {
    seq!["unknown error"@, "internal error"@, "required config value is missing"@, "config value is invalid"@, "runtime is in an invalid state"@, "runtime task was cancelled"@, "dns lookup failed"@, "tcp connection timed out"@, "http resource not found"@, "storage io operation failed"@, "storage resource not found"@, "json parse failed"@, "protocol decode failed"@, "permission denied"@, "certificate verification failed"@, "JNI callback thread is unavailable"@]
}

/// `d` is the descriptor at position `i` of the catalog.
pub open spec fn is_catalog_entry(d: ErrorDescriptor, i: int) -> bool {
    &&& d.code@ == catalog_codes()[i]
    &&& d.name@ == catalog_names()[i]
    &&& d.kind == catalog_kinds()[i]
    &&& d.default_message@ == catalog_messages()[i]
}

/// `COMMON_UNKNOWN`: unknown error.
pub fn common_unknown() -> (d: ErrorDescriptor)
    ensures
        is_catalog_entry(d, 0),
{
    ErrorDescriptor {
        code: ErrorCode::from_parts(0, 0, 1),
        name: "COMMON_UNKNOWN",
        kind: ErrorKind::Internal,
        default_message: "unknown error",
    }
}

/// `COMMON_INTERNAL`: internal error.
pub fn common_internal() -> (d: ErrorDescriptor)
    ensures
        is_catalog_entry(d, 1),
{
    ErrorDescriptor {
        code: ErrorCode::from_parts(0, 0, 2),
        name: "COMMON_INTERNAL",
        kind: ErrorKind::Internal,
        default_message: "internal error",
    }
}

/// `CONFIG_MISSING_VALUE`: required config value is missing.
pub fn config_missing_value() -> (d: ErrorDescriptor)
    ensures
        is_catalog_entry(d, 2),
{
    ErrorDescriptor {
        code: ErrorCode::from_parts(1, 0, 1),
        name: "CONFIG_MISSING_VALUE",
        kind: ErrorKind::InvalidInput,
        default_message: "required config value is missing",
    }
}

/// `CONFIG_INVALID_VALUE`: config value is invalid.
pub fn config_invalid_value() -> (d: ErrorDescriptor)
    ensures
        is_catalog_entry(d, 3),
{
    ErrorDescriptor {
        code: ErrorCode::from_parts(1, 0, 2),
        name: "CONFIG_INVALID_VALUE",
        kind: ErrorKind::InvalidInput,
        default_message: "config value is invalid",
    }
}

/// `RUNTIME_INVALID_STATE`: runtime is in an invalid state.
pub fn runtime_invalid_state() -> (d: ErrorDescriptor)
    ensures
        is_catalog_entry(d, 4),
{
    ErrorDescriptor {
        code: ErrorCode::from_parts(2, 0, 1),
        name: "RUNTIME_INVALID_STATE",
        kind: ErrorKind::InvalidState,
        default_message: "runtime is in an invalid state",
    }
}

/// `RUNTIME_TASK_CANCELLED`: runtime task was cancelled.
pub fn runtime_task_cancelled() -> (d: ErrorDescriptor)
    ensures
        is_catalog_entry(d, 5),
{
    ErrorDescriptor {
        code: ErrorCode::from_parts(2, 0, 2),
        name: "RUNTIME_TASK_CANCELLED",
        kind: ErrorKind::Cancelled,
        default_message: "runtime task was cancelled",
    }
}

/// `NET_DNS_LOOKUP_FAILED`: dns lookup failed.
pub fn net_dns_lookup_failed() -> (d: ErrorDescriptor)
    ensures
        is_catalog_entry(d, 6),
{
    ErrorDescriptor {
        code: ErrorCode::from_parts(3, 2, 1),
        name: "NET_DNS_LOOKUP_FAILED",
        kind: ErrorKind::Unavailable,
        default_message: "dns lookup failed",
    }
}

/// `NET_TCP_TIMEOUT`: tcp connection timed out.
pub fn net_tcp_timeout() -> (d: ErrorDescriptor)
    ensures
        is_catalog_entry(d, 7),
{
    ErrorDescriptor {
        code: ErrorCode::from_parts(3, 3, 1),
        name: "NET_TCP_TIMEOUT",
        kind: ErrorKind::Timeout,
        default_message: "tcp connection timed out",
    }
}

/// `NET_HTTP_NOT_FOUND`: http resource not found.
pub fn net_http_not_found() -> (d: ErrorDescriptor)
    ensures
        is_catalog_entry(d, 8),
{
    ErrorDescriptor {
        code: ErrorCode::from_parts(3, 6, 404),
        name: "NET_HTTP_NOT_FOUND",
        kind: ErrorKind::NotFound,
        default_message: "http resource not found",
    }
}

/// `STORAGE_IO_FAILED`: storage io operation failed.
pub fn storage_io_failed() -> (d: ErrorDescriptor)
    ensures
        is_catalog_entry(d, 9),
{
    ErrorDescriptor {
        code: ErrorCode::from_parts(4, 0, 1),
        name: "STORAGE_IO_FAILED",
        kind: ErrorKind::Upstream,
        default_message: "storage io operation failed",
    }
}

/// `STORAGE_NOT_FOUND`: storage resource not found.
pub fn storage_not_found() -> (d: ErrorDescriptor)
    ensures
        is_catalog_entry(d, 10),
{
    ErrorDescriptor {
        code: ErrorCode::from_parts(4, 0, 2),
        name: "STORAGE_NOT_FOUND",
        kind: ErrorKind::NotFound,
        default_message: "storage resource not found",
    }
}

/// `DATA_JSON_PARSE_FAILED`: json parse failed.
pub fn data_json_parse_failed() -> (d: ErrorDescriptor)
    ensures
        is_catalog_entry(d, 11),
{
    ErrorDescriptor {
        code: ErrorCode::from_parts(5, 1, 1),
        name: "DATA_JSON_PARSE_FAILED",
        kind: ErrorKind::Parse,
        default_message: "json parse failed",
    }
}

/// `DATA_PROTOCOL_DECODE_FAILED`: protocol decode failed.
pub fn data_protocol_decode_failed() -> (d: ErrorDescriptor)
    ensures
        is_catalog_entry(d, 12),
{
    ErrorDescriptor {
        code: ErrorCode::from_parts(5, 2, 1),
        name: "DATA_PROTOCOL_DECODE_FAILED",
        kind: ErrorKind::Decode,
        default_message: "protocol decode failed",
    }
}

/// `SEC_AUTH_PERMISSION_DENIED`: permission denied.
pub fn sec_auth_permission_denied() -> (d: ErrorDescriptor)
    ensures
        is_catalog_entry(d, 13),
{
    ErrorDescriptor {
        code: ErrorCode::from_parts(6, 1, 1),
        name: "SEC_AUTH_PERMISSION_DENIED",
        kind: ErrorKind::PermissionDenied,
        default_message: "permission denied",
    }
}

/// `SEC_CERT_VERIFY_FAILED`: certificate verification failed.
pub fn sec_cert_verify_failed() -> (d: ErrorDescriptor)
    ensures
        is_catalog_entry(d, 14),
{
    ErrorDescriptor {
        code: ErrorCode::from_parts(6, 2, 1),
        name: "SEC_CERT_VERIFY_FAILED",
        kind: ErrorKind::Verify,
        default_message: "certificate verification failed",
    }
}

/// `PLATFORM_JNI_CALLBACK_THREAD_UNAVAILABLE`: JNI callback thread is unavailable.
pub fn platform_jni_callback_thread_unavailable() -> (d: ErrorDescriptor)
    ensures
        is_catalog_entry(d, 15),
{
    ErrorDescriptor {
        code: ErrorCode::from_parts(7, 6, 1),
        name: "PLATFORM_JNI_CALLBACK_THREAD_UNAVAILABLE",
        kind: ErrorKind::Unavailable,
        default_message: "JNI callback thread is unavailable",
    }
}

/// Every descriptor of the catalog, in catalog order.
pub fn all_descriptors() -> (v: Vec<ErrorDescriptor>)
    ensures
        v@.len() == CATALOG_LEN,
        forall|i: int| 0 <= i < CATALOG_LEN ==> is_catalog_entry(#[trigger] v@[i], i),
{
    let mut v: Vec<ErrorDescriptor> = Vec::new();
    v.push(common_unknown());
    v.push(common_internal());
    v.push(config_missing_value());
    v.push(config_invalid_value());
    v.push(runtime_invalid_state());
    v.push(runtime_task_cancelled());
    v.push(net_dns_lookup_failed());
    v.push(net_tcp_timeout());
    v.push(net_http_not_found());
    v.push(storage_io_failed());
    v.push(storage_not_found());
    v.push(data_json_parse_failed());
    v.push(data_protocol_decode_failed());
    v.push(sec_auth_permission_denied());
    v.push(sec_cert_verify_failed());
    v.push(platform_jni_callback_thread_unavailable());
    v
}

/// No two descriptors of the catalog share a code.
pub proof fn law_catalog_codes_unique(i: int, j: int)
    requires
        0 <= i < CATALOG_LEN,
        0 <= j < CATALOG_LEN,
        i != j,
    ensures
        catalog_codes()[i] != catalog_codes()[j],
{
}

/// No two descriptors of the catalog share a name.
pub proof fn law_catalog_names_unique(i: int, j: int)
    requires
        0 <= i < CATALOG_LEN,
        0 <= j < CATALOG_LEN,
        i != j,
    ensures
        catalog_names()[i] != catalog_names()[j],
{
    reveal_strlit("COMMON_UNKNOWN");
    reveal_strlit("COMMON_INTERNAL");
    reveal_strlit("CONFIG_MISSING_VALUE");
    reveal_strlit("CONFIG_INVALID_VALUE");
    reveal_strlit("RUNTIME_INVALID_STATE");
    reveal_strlit("RUNTIME_TASK_CANCELLED");
    reveal_strlit("NET_DNS_LOOKUP_FAILED");
    reveal_strlit("NET_TCP_TIMEOUT");
    reveal_strlit("NET_HTTP_NOT_FOUND");
    reveal_strlit("STORAGE_IO_FAILED");
    reveal_strlit("STORAGE_NOT_FOUND");
    reveal_strlit("DATA_JSON_PARSE_FAILED");
    reveal_strlit("DATA_PROTOCOL_DECODE_FAILED");
    reveal_strlit("SEC_AUTH_PERMISSION_DENIED");
    reveal_strlit("SEC_CERT_VERIFY_FAILED");
    reveal_strlit("PLATFORM_JNI_CALLBACK_THREAD_UNAVAILABLE");
    let a = catalog_names()[i];
    let b = catalog_names()[j];
    if a == b {
        assert(a.len() == b.len());
        assert(a[0] == b[0]);
        assert(a[7] == b[7]);
        assert(a[8] == b[8]);
        assert(false);
    }
}

/// Errors made from two different catalog entries are told apart by their
/// codes and by their names, whatever was attached to them since (the
/// builders keep the descriptor).
pub proof fn law_catalog_errors_told_apart(e1: BaseError, e2: BaseError, i: int, j: int)
    requires
        0 <= i < CATALOG_LEN,
        0 <= j < CATALOG_LEN,
        i != j,
        is_catalog_entry(e1.desc, i),
        is_catalog_entry(e2.desc, j),
    ensures
        e1.desc.code@ != e2.desc.code@,
        e1.desc.name@ != e2.desc.name@,
{
    law_catalog_codes_unique(i, j);
    law_catalog_names_unique(i, j);
}

/// Every catalog code is packed from a domain and subdomain below 100 and a
/// reason below 1000.
pub proof fn law_catalog_codes_well_formed(i: int)
    requires
        0 <= i < CATALOG_LEN,
    ensures
        exists|d: nat, s: nat, r: nat|
            d <= 99 && s <= 99 && r <= 999 && #[trigger] pack_code(d, s, r) == catalog_codes()[i],
{
    if i == 0 {
        assert(pack_code(0, 0, 1) == catalog_codes()[i]);
    }
    if i == 1 {
        assert(pack_code(0, 0, 2) == catalog_codes()[i]);
    }
    if i == 2 {
        assert(pack_code(1, 0, 1) == catalog_codes()[i]);
    }
    if i == 3 {
        assert(pack_code(1, 0, 2) == catalog_codes()[i]);
    }
    if i == 4 {
        assert(pack_code(2, 0, 1) == catalog_codes()[i]);
    }
    if i == 5 {
        assert(pack_code(2, 0, 2) == catalog_codes()[i]);
    }
    if i == 6 {
        assert(pack_code(3, 2, 1) == catalog_codes()[i]);
    }
    if i == 7 {
        assert(pack_code(3, 3, 1) == catalog_codes()[i]);
    }
    if i == 8 {
        assert(pack_code(3, 6, 404) == catalog_codes()[i]);
    }
    if i == 9 {
        assert(pack_code(4, 0, 1) == catalog_codes()[i]);
    }
    if i == 10 {
        assert(pack_code(4, 0, 2) == catalog_codes()[i]);
    }
    if i == 11 {
        assert(pack_code(5, 1, 1) == catalog_codes()[i]);
    }
    if i == 12 {
        assert(pack_code(5, 2, 1) == catalog_codes()[i]);
    }
    if i == 13 {
        assert(pack_code(6, 1, 1) == catalog_codes()[i]);
    }
    if i == 14 {
        assert(pack_code(6, 2, 1) == catalog_codes()[i]);
    }
    if i == 15 {
        assert(pack_code(7, 6, 1) == catalog_codes()[i]);
    }
}

} // verus!
