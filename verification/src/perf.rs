use vstd::prelude::*;

use crate::types::L7Protocol;
use crate::types::L7ResponseStatus;
use crate::types::LogMessageType;
use crate::types::PacketDirection;

verus! {

/// Capacity of the request-response-time cache.
pub const L7_RRT_CACHE_CAPACITY: usize = 100;

/// Saturating increment of a counter.
pub open spec fn spec_inc32(x: u32) -> u32 {
    if x < u32::MAX {
        (x + 1) as u32
    } else {
        x
    }
}

/// Saturating addition on 64-bit counters.
pub open spec fn spec_sat_add64(x: u64, y: u64) -> u64 {
    if x + y <= u64::MAX {
        (x + y) as u64
    } else {
        u64::MAX
    }
}

/// Per-flow layer-7 performance counters. Increments saturate instead of
/// wrapping, so a counter never travels backwards.
#[derive(Clone, Copy, Debug, PartialEq, Eq, Structural)]
pub struct L7PerfStats {
    pub request_count: u32,
    pub response_count: u32,
    pub err_client_count: u32,
    pub err_server_count: u32,
    pub err_timeout: u32,
    pub rrt_count: u32,
    pub rrt_sum: u64,
    pub rrt_max: u64,
}

impl Default for L7PerfStats {
    fn default() -> (r: Self)
        ensures
            r == L7PerfStats::spec_zero(),
    {
        L7PerfStats {
            request_count: 0,
            response_count: 0,
            err_client_count: 0,
            err_server_count: 0,
            err_timeout: 0,
            rrt_count: 0,
            rrt_sum: 0,
            rrt_max: 0,
        }
    }
}

impl L7PerfStats {
    pub open spec fn spec_zero() -> L7PerfStats {
        L7PerfStats {
            request_count: 0,
            response_count: 0,
            err_client_count: 0,
            err_server_count: 0,
            err_timeout: 0,
            rrt_count: 0,
            rrt_sum: 0,
            rrt_max: 0,
        }
    }

    pub open spec fn spec_inc_req(self) -> L7PerfStats {
        L7PerfStats { request_count: spec_inc32(self.request_count), ..self }
    }

    pub open spec fn spec_inc_resp(self) -> L7PerfStats {
        L7PerfStats { response_count: spec_inc32(self.response_count), ..self }
    }

    pub open spec fn spec_inc_req_err(self) -> L7PerfStats {
        L7PerfStats { err_client_count: spec_inc32(self.err_client_count), ..self }
    }

    pub open spec fn spec_inc_resp_err(self) -> L7PerfStats {
        L7PerfStats { err_server_count: spec_inc32(self.err_server_count), ..self }
    }

    pub open spec fn spec_update_rrt(self, rrt: u64) -> L7PerfStats {
        L7PerfStats {
            rrt_count: spec_inc32(self.rrt_count),
            rrt_sum: spec_sat_add64(self.rrt_sum, rrt),
            rrt_max: if rrt > self.rrt_max {
                rrt
            } else {
                self.rrt_max
            },
            ..self
        }
    }

    pub fn inc_req(&mut self)
        ensures
            *final(self) == old(self).spec_inc_req(),
    {
        if self.request_count < u32::MAX {
            self.request_count = self.request_count + 1;
        }
    }

    pub fn inc_resp(&mut self)
        ensures
            *final(self) == old(self).spec_inc_resp(),
    {
        if self.response_count < u32::MAX {
            self.response_count = self.response_count + 1;
        }
    }

    pub fn inc_req_err(&mut self)
        ensures
            *final(self) == old(self).spec_inc_req_err(),
    {
        if self.err_client_count < u32::MAX {
            self.err_client_count = self.err_client_count + 1;
        }
    }

    pub fn inc_resp_err(&mut self)
        ensures
            *final(self) == old(self).spec_inc_resp_err(),
    {
        if self.err_server_count < u32::MAX {
            self.err_server_count = self.err_server_count + 1;
        }
    }

    /// Folds one request-response time into the histogram counters.
    pub fn update_rrt(&mut self, rrt: u64)
        ensures
            *final(self) == old(self).spec_update_rrt(rrt),
    {
        if self.rrt_count < u32::MAX {
            self.rrt_count = self.rrt_count + 1;
        }
        if self.rrt_sum <= u64::MAX - rrt {
            self.rrt_sum = self.rrt_sum + rrt;
        } else {
            self.rrt_sum = u64::MAX;
        }
        if rrt > self.rrt_max {
            self.rrt_max = rrt;
        }
    }
}

/// The key of a pending request: the flow it belongs to and the
/// protocol-specific session identifier, where the protocol has one.
#[derive(Clone, Copy, Debug, PartialEq, Eq, Structural)]
pub struct SessionKey {
    pub flow_id: u64,
    pub session_id: Option<u32>,
}

/// One pending-request record.
#[derive(Clone, Copy, Debug, PartialEq, Eq, Structural)]
pub struct CacheEntry {
    pub key: SessionKey,
    pub time: u64,
}

/// The timestamp recorded for `k`, searching the most recent entry first.
pub open spec fn spec_cache_get(s: Seq<CacheEntry>, k: SessionKey) -> Option<u64>
    decreases s.len(),
{
    if s.len() == 0 {
        None
    } else if s.last().key == k {
        Some(s.last().time)
    } else {
        spec_cache_get(s.drop_last(), k)
    }
}

/// No entry of `s` carries key `k` exactly when the lookup misses.
pub proof fn lemma_cache_get_none(s: Seq<CacheEntry>, k: SessionKey)
    ensures
        (spec_cache_get(s, k) matches Option::<u64>::None) <==> (forall|i: int|
            0 <= i < s.len() ==> (#[trigger] s[i]).key != k),
    decreases s.len(),
{
    if s.len() > 0 {
        let b = s.drop_last();
        lemma_cache_get_none(b, k);
        if spec_cache_get(s, k) is None {
            assert forall|i: int| 0 <= i < s.len() implies (#[trigger] s[i]).key != k by {
                if i < s.len() - 1 {
                    assert(s[i] == b[i]);
                } else {
                    assert(s[i] == s.last());
                }
            }
        } else {
            if s.last().key == k {
                assert(s[s.len() - 1].key == k);
            } else {
                assert(spec_cache_get(b, k) is Some);
                let i = choose|i: int| 0 <= i < b.len() && (#[trigger] b[i]).key == k;
                assert(s[i] == b[i]);
                assert(s[i].key == k);
            }
        }
    }
}

/// Removing an entry with a different key does not change a lookup.
pub proof fn lemma_cache_get_remove(s: Seq<CacheEntry>, i: int, k: SessionKey)
    requires
        0 <= i < s.len(),
        s[i].key != k,
    ensures
        spec_cache_get(s.remove(i), k) == spec_cache_get(s, k),
    decreases s.len(),
{
    if i == s.len() - 1 {
        assert(s.remove(i) =~= s.drop_last());
    } else {
        assert(s.remove(i).drop_last() =~= s.drop_last().remove(i));
        assert(s.remove(i).last() == s.last());
        lemma_cache_get_remove(s.drop_last(), i, k);
    }
}

/// Evicting the oldest entry never invents a value: a lookup that still
/// hits returns what it returned before.
pub proof fn lemma_cache_get_evict(s: Seq<CacheEntry>, k: SessionKey)
    requires
        s.len() >= 1,
    ensures
        spec_cache_get(s.skip(1), k) is Some ==> spec_cache_get(s, k) == spec_cache_get(
            s.skip(1),
            k,
        ),
    decreases s.len(),
{
    if s.len() > 1 {
        assert(s.skip(1).last() == s.last());
        assert(s.skip(1).drop_last() =~= s.drop_last().skip(1));
        lemma_cache_get_evict(s.drop_last(), k);
    }
}

/// A bounded cache of pending-request timestamps, keyed by flow and
/// session; consulted by the parsers to compute a request-response time
/// when a response is matched. When full, the oldest pending request is
/// evicted.
pub struct L7PerfCache {
    entries: Vec<CacheEntry>,
    cap: usize,
}

impl View for L7PerfCache {
    type V = Seq<CacheEntry>;

    /// The pending entries, oldest first.
    closed spec fn view(&self) -> Seq<CacheEntry> {
        self.entries@
    }
}

impl L7PerfCache {
    pub closed spec fn spec_capacity(&self) -> nat {
        self.cap as nat
    }

    /// The cache never exceeds its capacity and never holds two entries
    /// for one key.
    pub open spec fn well_formed(&self) -> bool {
        &&& self.spec_capacity() >= 1
        &&& self@.len() <= self.spec_capacity()
        &&& forall|i: int, j: int|
            0 <= i < j < self@.len() ==> (#[trigger] self@[i]).key != (#[trigger] self@[j]).key
    }

    pub fn new(cap: usize) -> (r: Self)
        requires
            cap >= 1,
        ensures
            r.well_formed(),
            r@ == Seq::<CacheEntry>::empty(),
            r.spec_capacity() == cap,
    {
        L7PerfCache { entries: Vec::new(), cap }
    }

    /// Index of the entry carrying `key`, if present.
    fn find(&self, key: SessionKey) -> (r: Option<usize>)
        requires
            self.well_formed(),
        ensures
            match r {
                Some(i) => i < self@.len() && self@[i as int].key == key,
                None => spec_cache_get(self@, key) matches Option::<u64>::None,
            },
    {
        let n = self.entries.len();
        let mut i: usize = 0;
        while i < n
            invariant
                i <= n,
                n == self@.len(),
                forall|j: int| 0 <= j < i ==> (#[trigger] self@[j]).key != key,
            decreases n - i,
        {
            let e = self.entries[i];
            if e.key.flow_id == key.flow_id && match (e.key.session_id, key.session_id) {
                (Some(a), Some(b)) => a == b,
                (Option::<u32>::None, Option::<u32>::None) => true,
                _ => false,
            } {
                proof {
                    assert(e.key == key);
                }
                return Some(i);
            }
            i = i + 1;
        }
        proof {
            lemma_cache_get_none(self@, key);
        }
        None
    }

    /// Records the timestamp of a pending request. An entry for the same
    /// key is replaced; when the cache is full, the oldest entry is
    /// evicted. No other key's value is ever changed, and only a full
    /// cache may lose (exactly one) other key.
    pub fn put(&mut self, key: SessionKey, time: u64)
        requires
            old(self).well_formed(),
        ensures
            final(self).well_formed(),
            final(self).spec_capacity() == old(self).spec_capacity(),
            spec_cache_get(final(self)@, key) == Some(time),
            forall|k2: SessionKey|
                k2 != key && (#[trigger] spec_cache_get(final(self)@, k2)) is Some
                    ==> spec_cache_get(old(self)@, k2) == spec_cache_get(final(self)@, k2),
            spec_cache_get(old(self)@, key) is Some || old(self)@.len() < old(
                self,
            ).spec_capacity() ==> forall|k2: SessionKey|
                k2 != key ==> #[trigger] spec_cache_get(final(self)@, k2) == spec_cache_get(
                    old(self)@,
                    k2,
                ),
    {
        let ghost s0 = self@;
        match self.find(key) {
            Some(i) => {
                let _ = self.entries.remove(i);
                proof {
                    assert forall|k2: SessionKey| k2 != key implies #[trigger] spec_cache_get(
                        self@,
                        k2,
                    ) == spec_cache_get(s0, k2) by {
                        lemma_cache_get_remove(s0, i as int, k2);
                    }
                    assert forall|a: int, b: int|
                        0 <= a < b < self@.len() implies (#[trigger] self@[a]).key != (
                    #[trigger] self@[b]).key by {
                        if b < i as int {
                            assert(self@[a] == s0[a] && self@[b] == s0[b]);
                        } else if a < i as int {
                            assert(self@[a] == s0[a] && self@[b] == s0[b + 1]);
                        } else {
                            assert(self@[a] == s0[a + 1] && self@[b] == s0[b + 1]);
                        }
                    }
                    assert forall|j: int| 0 <= j < self@.len() implies (#[trigger] self@[j]).key
                        != key by {
                        if j < i as int {
                            assert(self@[j] == s0[j]);
                        } else {
                            assert(self@[j] == s0[j + 1]);
                        }
                    }
                }
            },
            None => {
                proof {
                    lemma_cache_get_none(s0, key);
                }
            },
        }
        let ghost s1 = self@;
        proof {
            assert(forall|j: int| 0 <= j < s1.len() ==> (#[trigger] s1[j]).key != key);
        }
        if self.entries.len() >= self.cap {
            let _ = self.entries.remove(0);
            proof {
                assert(self@ =~= s1.skip(1));
                assert forall|k2: SessionKey|
                    k2 != key && (#[trigger] spec_cache_get(self@, k2)) is Some implies
                    spec_cache_get(s1, k2) == spec_cache_get(self@, k2) by {
                    lemma_cache_get_evict(s1, k2);
                }
                assert(forall|j: int| 0 <= j < self@.len() ==> #[trigger] self@[j] == s1[j + 1]);
            }
        }
        let ghost s2 = self@;
        proof {
            assert(forall|j: int| 0 <= j < s2.len() ==> (#[trigger] s2[j]).key != key);
            lemma_cache_get_none(s2, key);
            assert(spec_cache_get(s2, key) is None);
        }
        self.entries.push(CacheEntry { key, time });
        proof {
            assert(self@.last() == (CacheEntry { key, time }));
            assert(self@.drop_last() =~= s2);
            assert(spec_cache_get(self@, key) == Some(time));
            assert forall|k2: SessionKey| k2 != key implies #[trigger] spec_cache_get(self@, k2)
                == spec_cache_get(s2, k2) by {}
            assert forall|a: int, b: int|
                0 <= a < b < self@.len() implies (#[trigger] self@[a]).key != (
            #[trigger] self@[b]).key by {
                if b == self@.len() - 1 {
                    assert(self@[a] == s2[a]);
                    assert(self@[b].key == key);
                } else {
                    assert(self@[a] == s2[a] && self@[b] == s2[b]);
                }
            }
        }
    }

    /// Takes the pending timestamp for `key` out of the cache, if one is
    /// recorded. Other keys are untouched.
    pub fn pop(&mut self, key: SessionKey) -> (r: Option<u64>)
        requires
            old(self).well_formed(),
        ensures
            final(self).well_formed(),
            final(self).spec_capacity() == old(self).spec_capacity(),
            r == spec_cache_get(old(self)@, key),
            spec_cache_get(final(self)@, key) matches Option::<u64>::None,
            forall|k2: SessionKey|
                k2 != key ==> #[trigger] spec_cache_get(final(self)@, k2) == spec_cache_get(
                    old(self)@,
                    k2,
                ),
    {
        let ghost s0 = self@;
        match self.find(key) {
            Some(i) => {
                let e = self.entries.remove(i);
                proof {
                    assert forall|k2: SessionKey| k2 != key implies #[trigger] spec_cache_get(
                        self@,
                        k2,
                    ) == spec_cache_get(s0, k2) by {
                        lemma_cache_get_remove(s0, i as int, k2);
                    }
                    assert forall|a: int, b: int|
                        0 <= a < b < self@.len() implies (#[trigger] self@[a]).key != (
                    #[trigger] self@[b]).key by {
                        if b < i as int {
                            assert(self@[a] == s0[a] && self@[b] == s0[b]);
                        } else if a < i as int {
                            assert(self@[a] == s0[a] && self@[b] == s0[b + 1]);
                        } else {
                            assert(self@[a] == s0[a + 1] && self@[b] == s0[b + 1]);
                        }
                    }
                    assert forall|j: int| 0 <= j < self@.len() implies (#[trigger] self@[j]).key
                        != key by {
                        if j < i as int {
                            assert(self@[j] == s0[j]);
                        } else {
                            assert(self@[j] == s0[j + 1]);
                        }
                    }
                    lemma_cache_get_none(self@, key);
                    // the removed entry was the only one with this key, so the
                    // lookup on the old contents finds exactly it
                    lemma_cache_get_some_unique(s0, i as int);
                }
                Some(e.time)
            },
            None => None,
        }
    }

    /// Stores the timestamp of a request, or resolves it against a
    /// response: the request-response time is the non-negative gap between
    /// the recorded request and this response. A response without a
    /// recorded request, or one that travels back in time, yields nothing.
    pub fn cal_rrt(
        &mut self,
        flow_id: u64,
        session_id: Option<u32>,
        msg_type: LogMessageType,
        time: u64,
    ) -> (r: Option<u64>)
        requires
            old(self).well_formed(),
        ensures
            final(self).well_formed(),
            final(self).spec_capacity() == old(self).spec_capacity(),
            r == spec_rrt_result(old(self)@, SessionKey { flow_id, session_id }, msg_type, time),
            spec_rrt_cache_post(
                old(self)@,
                final(self)@,
                SessionKey { flow_id, session_id },
                msg_type,
                time,
            ),
            msg_type != LogMessageType::Request && msg_type != LogMessageType::Response
                ==> *final(self) == *old(self),
    {
        let key = SessionKey { flow_id, session_id };
        match msg_type {
            LogMessageType::Request => {
                self.put(key, time);
                None
            },
            LogMessageType::Response => {
                match self.pop(key) {
                    Some(req_time) => {
                        if time >= req_time {
                            Some(time - req_time)
                        } else {
                            None
                        }
                    },
                    None => None,
                }
            },
            _ => None,
        }
    }
}

/// In a cache without duplicate keys, the lookup returns the one entry
/// that carries the key.
pub proof fn lemma_cache_get_some_unique(s: Seq<CacheEntry>, i: int)
    requires
        0 <= i < s.len(),
        forall|a: int, b: int| 0 <= a < b < s.len() ==> (#[trigger] s[a]).key != (#[trigger] s[b]).key,
    ensures
        spec_cache_get(s, s[i].key) == Some(s[i].time),
    decreases s.len(),
{
    if i == s.len() - 1 {
    } else {
        assert(s.last().key != s[i].key);
        assert(s.drop_last()[i] == s[i]);
        lemma_cache_get_some_unique(s.drop_last(), i);
    }
}


/// The request-response time that resolving a record of type `msg` at
/// `time` against the cache contents `c0` yields: a response is matched
/// with its recorded request; a request only records itself.
pub open spec fn spec_rrt_result(
    c0: Seq<CacheEntry>,
    key: SessionKey,
    msg: LogMessageType,
    time: u64,
) -> Option<u64> {
    if msg == LogMessageType::Response {
        match spec_cache_get(c0, key) {
            Some(rt) => if time >= rt {
                Some((time - rt) as u64)
            } else {
                None
            },
            None => None,
        }
    } else {
        None
    }
}

/// What resolving a record leaves in the cache: a request's timestamp is
/// recorded (losing at most evicted strangers), a response's pending
/// request is consumed, and no other key's value is invented.
pub open spec fn spec_rrt_cache_post(
    c0: Seq<CacheEntry>,
    c1: Seq<CacheEntry>,
    key: SessionKey,
    msg: LogMessageType,
    time: u64,
) -> bool {
    &&& msg == LogMessageType::Request ==> spec_cache_get(c1, key) == Some(time) && (forall|
        k2: SessionKey,
    |
        k2 != key && (#[trigger] spec_cache_get(c1, k2)) is Some ==> spec_cache_get(c0, k2)
            == spec_cache_get(c1, k2))
    &&& msg == LogMessageType::Response ==> (spec_cache_get(c1, key) is None) && (forall|
        k2: SessionKey,
    | k2 != key ==> #[trigger] spec_cache_get(c1, k2) == spec_cache_get(c0, k2))
}

/// The header summarizing one parsed layer-7 record.
#[derive(Clone, Copy, Debug, PartialEq, Eq, Structural)]
pub struct AppProtoHead {
    pub proto: L7Protocol,
    pub msg_type: LogMessageType,
    pub status: L7ResponseStatus,
    pub code: u16,
    pub rrt: u64,
}

/// The per-packet context a parser needs: which way the payload travels,
/// when it was captured (microseconds), which flow it belongs to, and
/// whether the session is wrapped in TLS.
#[derive(Clone, Copy, Debug)]
pub struct ParseParam {
    pub direction: PacketDirection,
    pub time: u64,
    pub flow_id: u64,
    pub is_tls: bool,
}

} // verus!
