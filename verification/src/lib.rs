//! Core of a network-traffic observability agent, with machine-checked
//! contracts: the direction-symmetric flow key and the matcher that steers
//! packets to bidirectional flow records, layer-7 decoders for the
//! PostgreSQL and Dubbo wire formats with request-response-time
//! accounting, and the bounded overwrite queue that carries data between
//! pipeline stages.

pub mod dubbo;
pub mod error;
pub mod flow_key;
pub mod flow_map;
pub mod flow_node;
pub mod perf;
pub mod postgre_convert;
pub mod postgresql;
pub mod queue;
pub mod queue_debug;
pub mod sql_check;
pub mod strutil;
pub mod timefmt;
pub mod types;

use vstd::prelude::*;

verus! {

/// 64-bit integer finalizer used to scramble flow-key halves.
///
/// The chain of shifts, adds and xors is the classic 64-bit mix due to
/// Bob Jenkins / Thomas Wang; all additions wrap modulo 2^64.
pub open spec fn spec_jenkins64(key: u64) -> u64 {
    let k1 = vstd::wrapping::u64_specs::wrapping_add(!key, key << 21u64);
    let k2 = k1 ^ (k1 >> 24u64);
    let k3 = vstd::wrapping::u64_specs::wrapping_add(
        vstd::wrapping::u64_specs::wrapping_add(k2, k2 << 3u64),
        k2 << 8u64,
    );
    let k4 = k3 ^ (k3 >> 14u64);
    let k5 = vstd::wrapping::u64_specs::wrapping_add(
        vstd::wrapping::u64_specs::wrapping_add(k4, k4 << 2u64),
        k4 << 4u64,
    );
    let k6 = k5 ^ (k5 >> 28u64);
    vstd::wrapping::u64_specs::wrapping_add(k6, k6 << 31u64)
}

/// Scrambles a 64-bit key so that near-equal inputs spread across buckets.
pub fn jenkins64(key: u64) -> (r: u64)
    ensures
        r == spec_jenkins64(key),
{
    let k1 = (!key).wrapping_add(key << 21);
    let k2 = k1 ^ (k1 >> 24);
    let k3 = k2.wrapping_add(k2 << 3).wrapping_add(k2 << 8);
    let k4 = k3 ^ (k3 >> 14);
    let k5 = k4.wrapping_add(k4 << 2).wrapping_add(k4 << 4);
    let k6 = k5 ^ (k5 >> 28);
    k6.wrapping_add(k6 << 31)
}

} // verus!
