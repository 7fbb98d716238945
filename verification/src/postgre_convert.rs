use vstd::prelude::*;

use crate::types::L7ResponseStatus;

verus! {

/// Whether `c` is exactly the five given bytes.
pub open spec fn spec_code5(c: Seq<u8>, b0: u8, b1: u8, b2: u8, b3: u8, b4: u8) -> bool {
    c.len() == 5 && c[0] == b0 && c[1] == b1 && c[2] == b2 && c[3] == b3 && c[4] == b4
}

fn code5(c: &[u8], b0: u8, b1: u8, b2: u8, b3: u8, b4: u8) -> (r: bool)
    ensures
        r == spec_code5(c@, b0, b1, b2, b3, b4),
{
    c.len() == 5 && c[0] == b0 && c[1] == b1 && c[2] == b2 && c[3] == b3 && c[4] == b4
}

/// The condition name and error classification of a SQLSTATE code: the
/// statement and privilege errors of class 42, the data and constraint
/// errors of classes 22, 23 and 28 count against the client; resource,
/// concurrency and internal failures count against the server; a code not
/// in the table counts as an unknown server failure.
pub open spec fn spec_code_desc(c: Seq<u8>) -> (Seq<char>, L7ResponseStatus) {
    if spec_code5(c, '4' as u8, '2' as u8, '6' as u8, '0' as u8, '1' as u8) {
        ("syntax_error"@, L7ResponseStatus::ClientError)
    } else if spec_code5(c, '4' as u8, '2' as u8, '5' as u8, '0' as u8, '1' as u8) {
        ("insufficient_privilege"@, L7ResponseStatus::ClientError)
    } else if spec_code5(c, '4' as u8, '2' as u8, 'P' as u8, '0' as u8, '1' as u8) {
        ("undefined_table"@, L7ResponseStatus::ClientError)
    } else if spec_code5(c, '4' as u8, '2' as u8, '7' as u8, '0' as u8, '3' as u8) {
        ("undefined_column"@, L7ResponseStatus::ClientError)
    } else if spec_code5(c, '2' as u8, '3' as u8, '5' as u8, '0' as u8, '5' as u8) {
        ("unique_violation"@, L7ResponseStatus::ClientError)
    } else if spec_code5(c, '2' as u8, '3' as u8, '5' as u8, '0' as u8, '2' as u8) {
        ("not_null_violation"@, L7ResponseStatus::ClientError)
    } else if spec_code5(c, '2' as u8, '2' as u8, '0' as u8, '1' as u8, '2' as u8) {
        ("division_by_zero"@, L7ResponseStatus::ClientError)
    } else if spec_code5(c, '2' as u8, '8' as u8, 'P' as u8, '0' as u8, '1' as u8) {
        ("invalid_password"@, L7ResponseStatus::ClientError)
    } else if spec_code5(c, '5' as u8, '7' as u8, '0' as u8, '1' as u8, '4' as u8) {
        ("query_canceled"@, L7ResponseStatus::ClientError)
    } else if spec_code5(c, '4' as u8, '0' as u8, '0' as u8, '0' as u8, '1' as u8) {
        ("serialization_failure"@, L7ResponseStatus::ServerError)
    } else if spec_code5(c, '4' as u8, '0' as u8, 'P' as u8, '0' as u8, '1' as u8) {
        ("deadlock_detected"@, L7ResponseStatus::ServerError)
    } else if spec_code5(c, '5' as u8, '3' as u8, '1' as u8, '0' as u8, '0' as u8) {
        ("disk_full"@, L7ResponseStatus::ServerError)
    } else if spec_code5(c, '5' as u8, '3' as u8, '2' as u8, '0' as u8, '0' as u8) {
        ("out_of_memory"@, L7ResponseStatus::ServerError)
    } else if spec_code5(c, '5' as u8, '3' as u8, '3' as u8, '0' as u8, '0' as u8) {
        ("too_many_connections"@, L7ResponseStatus::ServerError)
    } else if spec_code5(c, 'X' as u8, 'X' as u8, '0' as u8, '0' as u8, '0' as u8) {
        ("internal_error"@, L7ResponseStatus::ServerError)
    } else {
        ("unknown_error"@, L7ResponseStatus::ServerError)
    }
}

/// Maps a SQLSTATE code to a human-readable condition name and the
/// client/server classification of the failure.
pub fn get_code_desc(code: &[u8]) -> (r: (&'static str, L7ResponseStatus))
    ensures
        r.0@ == spec_code_desc(code@).0,
        r.1 == spec_code_desc(code@).1,
{
    if code5(code, '4' as u8, '2' as u8, '6' as u8, '0' as u8, '1' as u8) {
        ("syntax_error", L7ResponseStatus::ClientError)
    } else if code5(code, '4' as u8, '2' as u8, '5' as u8, '0' as u8, '1' as u8) {
        ("insufficient_privilege", L7ResponseStatus::ClientError)
    } else if code5(code, '4' as u8, '2' as u8, 'P' as u8, '0' as u8, '1' as u8) {
        ("undefined_table", L7ResponseStatus::ClientError)
    } else if code5(code, '4' as u8, '2' as u8, '7' as u8, '0' as u8, '3' as u8) {
        ("undefined_column", L7ResponseStatus::ClientError)
    } else if code5(code, '2' as u8, '3' as u8, '5' as u8, '0' as u8, '5' as u8) {
        ("unique_violation", L7ResponseStatus::ClientError)
    } else if code5(code, '2' as u8, '3' as u8, '5' as u8, '0' as u8, '2' as u8) {
        ("not_null_violation", L7ResponseStatus::ClientError)
    } else if code5(code, '2' as u8, '2' as u8, '0' as u8, '1' as u8, '2' as u8) {
        ("division_by_zero", L7ResponseStatus::ClientError)
    } else if code5(code, '2' as u8, '8' as u8, 'P' as u8, '0' as u8, '1' as u8) {
        ("invalid_password", L7ResponseStatus::ClientError)
    } else if code5(code, '5' as u8, '7' as u8, '0' as u8, '1' as u8, '4' as u8) {
        ("query_canceled", L7ResponseStatus::ClientError)
    } else if code5(code, '4' as u8, '0' as u8, '0' as u8, '0' as u8, '1' as u8) {
        ("serialization_failure", L7ResponseStatus::ServerError)
    } else if code5(code, '4' as u8, '0' as u8, 'P' as u8, '0' as u8, '1' as u8) {
        ("deadlock_detected", L7ResponseStatus::ServerError)
    } else if code5(code, '5' as u8, '3' as u8, '1' as u8, '0' as u8, '0' as u8) {
        ("disk_full", L7ResponseStatus::ServerError)
    } else if code5(code, '5' as u8, '3' as u8, '2' as u8, '0' as u8, '0' as u8) {
        ("out_of_memory", L7ResponseStatus::ServerError)
    } else if code5(code, '5' as u8, '3' as u8, '3' as u8, '0' as u8, '0' as u8) {
        ("too_many_connections", L7ResponseStatus::ServerError)
    } else if code5(code, 'X' as u8, 'X' as u8, '0' as u8, '0' as u8, '0' as u8) {
        ("internal_error", L7ResponseStatus::ServerError)
    } else {
        ("unknown_error", L7ResponseStatus::ServerError)
    }
}

/// The display name of a request block tag.
pub open spec fn spec_request_str(c: char) -> Seq<char> {
    if c == 'Q' {
        "simple_query"@
    } else if c == 'P' {
        "prepared"@
    } else {
        ""@
    }
}

/// Maps a request block tag to the name shown to downstream consumers.
pub fn get_request_str(c: char) -> (r: &'static str)
    ensures
        r@ == spec_request_str(c),
{
    if c == 'Q' {
        "simple_query"
    } else if c == 'P' {
        "prepared"
    } else {
        ""
    }
}

} // verus!
