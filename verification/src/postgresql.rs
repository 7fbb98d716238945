use vstd::prelude::*;

use crate::error::Error;
use crate::perf::L7PerfStats;
use crate::perf::L7PerfCache;
use crate::perf::ParseParam;
use crate::perf::AppProtoHead;
use crate::perf::SessionKey;
use crate::perf::spec_rrt_result;
use crate::perf::spec_rrt_cache_post;
use crate::postgre_convert::spec_request_str;
use crate::postgre_convert::get_request_str;
use crate::types::L7Protocol;
use crate::postgre_convert::spec_code_desc;
use crate::postgre_convert::get_code_desc;
use crate::sql_check::spec_is_postgresql;
use crate::sql_check::is_postgresql;
use crate::strutil::lossy_of;
use crate::strutil::from_utf8_lossy;
use crate::strutil::spec_be32;
use crate::strutil::spec_be64;
use crate::strutil::spec_find_byte;
use crate::strutil::find_byte;
use crate::strutil::spec_parse_u64_or_zero;
use crate::strutil::parse_u64_or_zero;
use crate::strutil::bytes_eq;
use crate::strutil::read_u64_be;
use crate::types::L7ResponseStatus;
use crate::types::LogMessageType;
use crate::types::PacketDirection;

verus! {

/// The SSL-request sentinel: length 8 followed by the protocol constant
/// 80877103, read as one big-endian value.
pub const SSL_REQ: u64 = 34440615471;

/// The mathematical content of a parsed PostgreSQL record: every field of
/// `PostgreInfo` with the strings as character sequences.
#[verifier::ext_equal]
pub ghost struct PgInfoModel {
    pub msg_type: LogMessageType,
    pub rrt: u64,
    pub is_tls: bool,
    pub ignore: bool,
    pub context: Seq<char>,
    pub req_type: char,
    pub resp_type: char,
    pub result: Seq<char>,
    pub affected_rows: u64,
    pub error_message: Seq<char>,
    pub status: L7ResponseStatus,
}

/// One structured record decoded from the PostgreSQL wire stream. The
/// `ignore` flag suppresses emission of blocks that are neither a
/// query/prepare nor a completion/error, so that session aggregation pairs
/// a query with its completion even when intermediate frames intervene.
#[derive(Debug, Clone)]
pub struct PostgreInfo {
    pub msg_type: LogMessageType,
    pub rrt: u64,
    pub is_tls: bool,
    pub ignore: bool,
    /// The query text of the request.
    pub context: String,
    /// The request block tag (`Q` simple query, `P` prepared statement).
    pub req_type: char,
    /// The response block tag (`C` complete, `E` error).
    pub resp_type: char,
    /// The SQLSTATE code of an error response.
    pub result: String,
    pub affected_rows: u64,
    /// The decoded condition name of an error response.
    pub error_message: String,
    pub status: L7ResponseStatus,
}

impl View for PostgreInfo {
    type V = PgInfoModel;

    open spec fn view(&self) -> PgInfoModel {
        PgInfoModel {
            msg_type: self.msg_type,
            rrt: self.rrt,
            is_tls: self.is_tls,
            ignore: self.ignore,
            context: self.context@,
            req_type: self.req_type,
            resp_type: self.resp_type,
            result: self.result@,
            affected_rows: self.affected_rows,
            error_message: self.error_message@,
            status: self.status,
        }
    }
}

/// The model of a record before any block was decoded into it.
pub open spec fn spec_pg_info_default() -> PgInfoModel {
    PgInfoModel {
        msg_type: LogMessageType::Other,
        rrt: 0,
        is_tls: false,
        ignore: false,
        context: Seq::<char>::empty(),
        req_type: 0 as char,
        resp_type: 0 as char,
        result: Seq::<char>::empty(),
        affected_rows: 0,
        error_message: Seq::<char>::empty(),
        status: L7ResponseStatus::Success,
    }
}

impl Default for PostgreInfo {
    fn default() -> (r: Self)
        ensures
            r@ == spec_pg_info_default(),
    {
        let r = PostgreInfo {
            msg_type: LogMessageType::Other,
            rrt: 0,
            is_tls: false,
            ignore: false,
            context: new_string(),
            req_type: 0 as char,
            resp_type: 0 as char,
            result: new_string(),
            affected_rows: 0,
            error_message: new_string(),
            status: L7ResponseStatus::Success,
        };
        proof {
            assert(r@ =~= spec_pg_info_default());
        }
        r
    }
}

/// An empty string.
fn new_string() -> (r: String)
    ensures
        r@ == Seq::<char>::empty(),
{
    let r = "".to_owned();
    proof {
        reveal_strlit("");
        assert(r@ =~= Seq::<char>::empty());
    }
    r
}

/// A deep copy of a record, equal to the original in every field.
fn clone_info(info: &PostgreInfo) -> (r: PostgreInfo)
    ensures
        r == *info,
{
    let r = PostgreInfo {
        msg_type: info.msg_type,
        rrt: info.rrt,
        is_tls: info.is_tls,
        ignore: info.ignore,
        context: info.context.clone(),
        req_type: info.req_type,
        resp_type: info.resp_type,
        result: info.result.clone(),
        affected_rows: info.affected_rows,
        error_message: info.error_message.clone(),
        status: info.status,
    };
    proof {
        assert(r =~= *info);
    }
    r
}

/// The header of a typed block: a one-byte tag, then a big-endian length
/// that counts itself (4 bytes) but not the tag. A block at `off` is valid
/// iff 5 header bytes are present, the length is at least 4, and the whole
/// block fits in the rest of the payload; the body is then `length - 4`
/// bytes long.
pub open spec fn spec_read_block(p: Seq<u8>, off: int) -> Option<(u8, int)> {
    if p.len() - off < 5 {
        None
    } else {
        let len = spec_be32(p, off + 1) as int;
        if len < 4 || len + 1 > p.len() - off {
            None
        } else {
            Some((p[off], len - 4))
        }
    }
}

/// Reads the block header at `offset`, yielding the tag and the body
/// length of a valid block.
fn read_block(payload: &[u8], offset: usize) -> (r: Option<(u8, usize)>)
    requires
        offset <= payload@.len(),
    ensures
        match r {
            Some(b) => spec_read_block(payload@, offset as int) == Some((b.0, b.1 as int))
                && offset + 5 + b.1 <= payload@.len(),
            None => spec_read_block(payload@, offset as int) matches Option::<(u8, int)>::None,
        },
{
    let remaining = payload.len() - offset;
    if remaining < 5 {
        return None;
    }
    let lenb = vstd::slice::slice_subrange(payload, offset + 1, offset + 5);
    let len32 = crate::strutil::read_u32_be(lenb);
    proof {
        assert(lenb@ == payload@.subrange(offset + 1, offset + 5));
        assert(spec_be32(lenb@, 0) == spec_be32(payload@, offset + 1));
    }
    let len = len32 as usize;
    if len < 4 || len > remaining - 1 {
        return None;
    }
    Some((*vstd::slice::slice_index_get(payload, offset), len - 4))
}

pub open spec fn op_insert() -> Seq<u8> {
    seq!['I' as u8, 'N' as u8, 'S' as u8, 'E' as u8, 'R' as u8, 'T' as u8]
}

pub open spec fn op_delete() -> Seq<u8> {
    seq!['D' as u8, 'E' as u8, 'L' as u8, 'E' as u8, 'T' as u8, 'E' as u8]
}

pub open spec fn op_update() -> Seq<u8> {
    seq!['U' as u8, 'P' as u8, 'D' as u8, 'A' as u8, 'T' as u8, 'E' as u8]
}

pub open spec fn op_select() -> Seq<u8> {
    seq!['S' as u8, 'E' as u8, 'L' as u8, 'E' as u8, 'C' as u8, 'T' as u8]
}

pub open spec fn op_merge() -> Seq<u8> {
    seq!['M' as u8, 'E' as u8, 'R' as u8, 'G' as u8, 'E' as u8]
}

pub open spec fn op_move() -> Seq<u8> {
    seq!['M' as u8, 'O' as u8, 'V' as u8, 'E' as u8]
}

pub open spec fn op_fetch() -> Seq<u8> {
    seq!['F' as u8, 'E' as u8, 'T' as u8, 'C' as u8, 'H' as u8]
}

pub open spec fn op_copy() -> Seq<u8> {
    seq!['C' as u8, 'O' as u8, 'P' as u8, 'Y' as u8]
}

/// Whether the first `end` bytes of `data` are exactly `kw`.
fn op_is(data: &[u8], end: usize, kw: &[u8]) -> (r: bool)
    requires
        end <= data@.len(),
    ensures
        r == (data@.take(end as int) == kw@),
{
    let prefix = vstd::slice::slice_subrange(data, 0, end);
    proof {
        assert(prefix@ =~= data@.take(end as int));
    }
    bytes_eq(prefix, kw)
}

/// What one request-side block does to the record and the counters.
/// `None` in the last position is a parse failure; `Some(surfaced)` tells
/// whether the block is one that the record reports (`Q` or `P`).
pub open spec fn spec_on_req_block(
    info: PgInfoModel,
    perf: L7PerfStats,
    tag: u8,
    data: Seq<u8>,
) -> (PgInfoModel, L7PerfStats, Option<bool>) {
    if tag == 'Q' as u8 {
        let info1 = PgInfoModel { req_type: 'Q', ..info };
        if data.len() > 0 && data.last() == 0 {
            (
                PgInfoModel { context: lossy_of(data.take(data.len() - 1)), ignore: false, ..info1 },
                perf.spec_inc_req(),
                Some(true),
            )
        } else {
            (info1, perf, None)
        }
    } else if tag == 'P' as u8 {
        let info1 = PgInfoModel { req_type: 'P', ignore: false, ..info };
        match spec_find_byte(data, 0, 0) {
            Some(i) => match spec_find_byte(data, i + 1, 0) {
                Some(j) => {
                    let ctx = data.subrange(i + 1, j);
                    let info2 = PgInfoModel { context: lossy_of(ctx), ..info1 };
                    if spec_is_postgresql(ctx) {
                        (info2, perf.spec_inc_req(), Some(true))
                    } else {
                        (info2, perf, None)
                    }
                },
                None => (info1, perf, None),
            },
            None => (info1, perf, None),
        }
    } else if tag == 'B' as u8 || tag == 'F' as u8 || tag == 'C' as u8 || tag == 'D' as u8 || tag
        == 'H' as u8 || tag == 'S' as u8 || tag == 'X' as u8 || tag == 'd' as u8 || tag
        == 'c' as u8 || tag == 'f' as u8 {
        (info, perf, Some(false))
    } else {
        (info, perf, None)
    }
}

/// What one response-side block does to the record and the counters.
pub open spec fn spec_on_resp_block(
    info: PgInfoModel,
    perf: L7PerfStats,
    tag: u8,
    data: Seq<u8>,
) -> (PgInfoModel, L7PerfStats, Option<bool>) {
    if tag == 'C' as u8 {
        let info1 = PgInfoModel {
            status: L7ResponseStatus::Success,
            ignore: false,
            resp_type: 'C',
            ..info
        };
        match spec_find_byte(data, 0, 0x20) {
            None => (info1, perf.spec_inc_resp(), Some(true)),
            Some(i) => {
                let op = data.take(i);
                if op == op_insert() {
                    match spec_find_byte(data, i + 1, 0x20) {
                        // a truncated INSERT tag still parses, but reports
                        // no response
                        None => (info1, perf, Some(true)),
                        Some(j) => {
                            let info2 = match spec_find_byte(data, j + 1, 0) {
                                Some(k) => PgInfoModel {
                                    affected_rows: spec_parse_u64_or_zero(data.subrange(j + 1, k)),
                                    ..info1
                                },
                                None => info1,
                            };
                            (info2, perf.spec_inc_resp(), Some(true))
                        },
                    }
                } else if op == op_delete() || op == op_update() || op == op_select() || op
                    == op_merge() || op == op_move() || op == op_fetch() || op == op_copy() {
                    let info2 = match spec_find_byte(data, i + 1, 0) {
                        Some(k) => PgInfoModel {
                            affected_rows: spec_parse_u64_or_zero(data.subrange(i + 1, k)),
                            ..info1
                        },
                        None => info1,
                    };
                    (info2, perf.spec_inc_resp(), Some(true))
                } else {
                    (info1, perf.spec_inc_resp(), Some(true))
                }
            },
        }
    } else if tag == 'E' as u8 {
        let info1 = PgInfoModel {
            status: L7ResponseStatus::ClientError,
            resp_type: 'E',
            ignore: false,
            ..info
        };
        match spec_find_byte(data, 0, 0) {
            None => (info1, perf, Some(true)),
            Some(i) => match spec_find_byte(data, i + 1, 0) {
                None => (info1, perf, Some(true)),
                Some(j) => match spec_find_byte(data, j + 1, 0) {
                    None => (info1, perf, None),
                    Some(k) => {
                        if data[j + 1] != 'C' as u8 {
                            (info1, perf, None)
                        } else {
                            let code = data.subrange(j + 2, k);
                            let desc = spec_code_desc(code);
                            let info2 = PgInfoModel {
                                result: lossy_of(code),
                                error_message: desc.0,
                                status: desc.1,
                                ..info1
                            };
                            let perf2 = if desc.1 == L7ResponseStatus::ClientError {
                                perf.spec_inc_req_err()
                            } else if desc.1 == L7ResponseStatus::ServerError {
                                perf.spec_inc_resp_err()
                            } else {
                                perf
                            };
                            (info2, perf2.spec_inc_resp(), Some(true))
                        }
                    },
                },
            },
        }
    } else if tag == 'Z' as u8 || tag == 'I' as u8 || tag == '1' as u8 || tag == '2' as u8 || tag
        == '3' as u8 || tag == 'S' as u8 || tag == 'K' as u8 || tag == 'T' as u8 || tag
        == 'n' as u8 || tag == 'N' as u8 || tag == 't' as u8 || tag == 'D' as u8 || tag
        == 'G' as u8 || tag == 'H' as u8 || tag == 'W' as u8 || tag == 'd' as u8 || tag
        == 'c' as u8 {
        (info, perf, Some(false))
    } else {
        (info, perf, None)
    }
}

/// Strips the final NUL of the text; a body that does not end in NUL is
/// presumed not to belong to the protocol.
fn strip_string_end_with_zero(data: &[u8]) -> (r: Result<String, Error>)
    ensures
        data@.len() > 0 && data@.last() == 0 ==> (r matches Ok(s) && s@ == lossy_of(
            data@.take(data@.len() - 1),
        )),
        !(data@.len() > 0 && data@.last() == 0) ==> (r matches Err(e) && e
            == Error::L7ProtocolUnknown),
{
    if data.len() > 0 && data[data.len() - 1] == 0 {
        let body = vstd::slice::slice_subrange(data, 0, data.len() - 1);
        proof {
            assert(body@ =~= data@.take(data@.len() - 1));
        }
        Ok(from_utf8_lossy(body))
    } else {
        Err(Error::L7ProtocolUnknown)
    }
}

/// The parser state for one PostgreSQL flow: the record being filled, the
/// flow's performance counters, and whether a probe already parsed the
/// payload (so the next `parse_payload` call is answered from the cached
/// record).
#[derive(Debug)]
pub struct PostgresqlLog {
    pub info: PostgreInfo,
    pub perf_stats: Option<L7PerfStats>,
    pub parsed: bool,
}

/// The counters a parse step works on: the recorded ones, or a fresh set.
pub open spec fn spec_perf(o: Option<L7PerfStats>) -> L7PerfStats {
    match o {
        Some(p) => p,
        None => L7PerfStats::spec_zero(),
    }
}

/// The walker's whole state: record, counters, whether a surfaced block
/// was seen, and whether the walk is still error-free.
#[verifier::ext_equal]
pub ghost struct PgState {
    pub info: PgInfoModel,
    pub perf: L7PerfStats,
    pub seen: bool,
    pub ok: bool,
}

/// One block handed to the side that the record observes.
pub open spec fn spec_block_step(
    info: PgInfoModel,
    perf: L7PerfStats,
    tag: u8,
    data: Seq<u8>,
) -> (PgInfoModel, L7PerfStats, Option<bool>) {
    if info.msg_type == LogMessageType::Request {
        spec_on_req_block(info, perf, tag, data)
    } else {
        spec_on_resp_block(info, perf, tag, data)
    }
}

/// The whole walk over the payload from `off`: blocks are consumed while
/// their headers are valid; an unknown tag or a malformed surfaced block
/// stops the walk with `ok == false`; exhaustion or an invalid header ends
/// it with the state gathered so far.
pub open spec fn spec_walk(
    p: Seq<u8>,
    off: int,
    info: PgInfoModel,
    perf: L7PerfStats,
    seen: bool,
) -> PgState
    decreases p.len() - off,
{
    if off < 0 || off >= p.len() {
        PgState { info, perf, seen, ok: true }
    } else {
        match spec_read_block(p, off) {
            None => PgState { info, perf, seen, ok: true },
            Some(b) => {
                let data = p.subrange(off + 5, off + 5 + b.1);
                let step = spec_block_step(info, perf, b.0, data);
                match step.2 {
                    None => PgState { info: step.0, perf: step.1, seen, ok: false },
                    Some(surfaced) => spec_walk(p, off + 5 + b.1, step.0, step.1, seen
                        || surfaced),
                }
            },
        }
    }
}

impl PostgresqlLog {
    /// Bumps the request counter, which the probe may not have created
    /// yet.
    fn inc_req(&mut self)
        ensures
            final(self).info == old(self).info,
            final(self).parsed == old(self).parsed,
            final(self).perf_stats == Some(spec_perf(old(self).perf_stats).spec_inc_req()),
    {
        if self.perf_stats.is_none() {
            self.perf_stats = Some(L7PerfStats::default());
        }
        match &mut self.perf_stats {
            Some(ps) => ps.inc_req(),
            None => {},
        }
    }

    fn inc_resp(&mut self)
        ensures
            final(self).info == old(self).info,
            final(self).parsed == old(self).parsed,
            final(self).perf_stats == Some(spec_perf(old(self).perf_stats).spec_inc_resp()),
    {
        if self.perf_stats.is_none() {
            self.perf_stats = Some(L7PerfStats::default());
        }
        match &mut self.perf_stats {
            Some(ps) => ps.inc_resp(),
            None => {},
        }
    }

    fn inc_req_err(&mut self)
        ensures
            final(self).info == old(self).info,
            final(self).parsed == old(self).parsed,
            final(self).perf_stats == Some(spec_perf(old(self).perf_stats).spec_inc_req_err()),
    {
        if self.perf_stats.is_none() {
            self.perf_stats = Some(L7PerfStats::default());
        }
        match &mut self.perf_stats {
            Some(ps) => ps.inc_req_err(),
            None => {},
        }
    }

    fn inc_resp_err(&mut self)
        ensures
            final(self).info == old(self).info,
            final(self).parsed == old(self).parsed,
            final(self).perf_stats == Some(spec_perf(old(self).perf_stats).spec_inc_resp_err()),
    {
        if self.perf_stats.is_none() {
            self.perf_stats = Some(L7PerfStats::default());
        }
        match &mut self.perf_stats {
            Some(ps) => ps.inc_resp_err(),
            None => {},
        }
    }

    /// Decodes one request-side block into the record.
    fn on_req_block(&mut self, tag: u8, data: &[u8]) -> (r: Result<bool, Error>)
        requires
            old(self).perf_stats is Some,
        ensures
            ({
                let step = spec_on_req_block(
                    old(self).info@,
                    spec_perf(old(self).perf_stats),
                    tag,
                    data@,
                );
                &&& final(self).info@ == step.0
                &&& final(self).perf_stats == Some(step.1)
                &&& final(self).parsed == old(self).parsed
                &&& final(self).info.msg_type == old(self).info.msg_type
                &&& match step.2 {
                    Some(b) => r == Ok::<bool, Error>(b),
                    None => r == Err::<bool, Error>(Error::L7ProtocolUnknown),
                }
            }),
    {
        let ghost step = spec_on_req_block(
            old(self).info@,
            spec_perf(old(self).perf_stats),
            tag,
            data@,
        );
        let data_len = data.len();
        if tag == 'Q' as u8 {
            self.info.req_type = 'Q';
            match strip_string_end_with_zero(data) {
                Ok(s) => {
                    self.info.context = s;
                    self.info.ignore = false;
                    self.inc_req();
                    proof {
                        assert(self.info@ =~= step.0);
                    }
                    Ok(true)
                },
                Err(e) => {
                    proof {
                        assert(self.info@ =~= step.0);
                    }
                    Err(e)
                },
            }
        } else if tag == 'P' as u8 {
            self.info.req_type = 'P';
            self.info.ignore = false;
            match find_byte(data, 0, 0) {
                Some(i) => {
                    match find_byte(data, i + 1, 0) {
                        Some(j) => {
                            let ctx = vstd::slice::slice_subrange(data, i + 1, j);
                            proof {
                                assert(ctx@ =~= data@.subrange(i + 1, j as int));
                            }
                            let looks_sql = is_postgresql(ctx);
                            self.info.context = from_utf8_lossy(ctx);
                            if looks_sql {
                                self.inc_req();
                                proof {
                                    assert(self.info@ =~= step.0);
                                }
                                Ok(true)
                            } else {
                                proof {
                                    assert(self.info@ =~= step.0);
                                }
                                Err(Error::L7ProtocolUnknown)
                            }
                        },
                        None => {
                            proof {
                                assert(self.info@ =~= step.0);
                            }
                            Err(Error::L7ProtocolUnknown)
                        },
                    }
                },
                None => {
                    proof {
                        assert(self.info@ =~= step.0);
                    }
                    Err(Error::L7ProtocolUnknown)
                },
            }
        } else if tag == 'B' as u8 || tag == 'F' as u8 || tag == 'C' as u8 || tag == 'D' as u8
            || tag == 'H' as u8 || tag == 'S' as u8 || tag == 'X' as u8 || tag == 'd' as u8 || tag
            == 'c' as u8 || tag == 'f' as u8 {
            Ok(false)
        } else {
            Err(Error::L7ProtocolUnknown)
        }
    }

    /// Decodes one response-side block into the record.
    fn on_resp_block(&mut self, tag: u8, data: &[u8]) -> (r: Result<bool, Error>)
        requires
            old(self).perf_stats is Some,
        ensures
            ({
                let step = spec_on_resp_block(
                    old(self).info@,
                    spec_perf(old(self).perf_stats),
                    tag,
                    data@,
                );
                &&& final(self).info@ == step.0
                &&& final(self).perf_stats == Some(step.1)
                &&& final(self).parsed == old(self).parsed
                &&& final(self).info.msg_type == old(self).info.msg_type
                &&& match step.2 {
                    Some(b) => r == Ok::<bool, Error>(b),
                    None => r == Err::<bool, Error>(Error::L7ProtocolUnknown),
                }
            }),
    {
        let ghost step = spec_on_resp_block(
            old(self).info@,
            spec_perf(old(self).perf_stats),
            tag,
            data@,
        );
        let data_len = data.len();
        if tag == 'C' as u8 {
            self.info.status = L7ResponseStatus::Success;
            self.info.ignore = false;
            self.info.resp_type = 'C';
            match find_byte(data, 0, 0x20) {
                None => {
                    self.inc_resp();
                    proof {
                        assert(self.info@ =~= step.0);
                    }
                    Ok(true)
                },
                Some(i) => {
                    let a_insert: [u8; 6] = [
                        'I' as u8,
                        'N' as u8,
                        'S' as u8,
                        'E' as u8,
                        'R' as u8,
                        'T' as u8,
                    ];
                    let a_delete: [u8; 6] = [
                        'D' as u8,
                        'E' as u8,
                        'L' as u8,
                        'E' as u8,
                        'T' as u8,
                        'E' as u8,
                    ];
                    let a_update: [u8; 6] = [
                        'U' as u8,
                        'P' as u8,
                        'D' as u8,
                        'A' as u8,
                        'T' as u8,
                        'E' as u8,
                    ];
                    let a_select: [u8; 6] = [
                        'S' as u8,
                        'E' as u8,
                        'L' as u8,
                        'E' as u8,
                        'C' as u8,
                        'T' as u8,
                    ];
                    let a_merge: [u8; 5] = ['M' as u8, 'E' as u8, 'R' as u8, 'G' as u8, 'E' as u8];
                    let a_move: [u8; 4] = ['M' as u8, 'O' as u8, 'V' as u8, 'E' as u8];
                    let a_fetch: [u8; 5] = ['F' as u8, 'E' as u8, 'T' as u8, 'C' as u8, 'H' as u8];
                    let a_copy: [u8; 4] = ['C' as u8, 'O' as u8, 'P' as u8, 'Y' as u8];
                    proof {
                        assert(a_insert@ =~= op_insert());
                        assert(a_delete@ =~= op_delete());
                        assert(a_update@ =~= op_update());
                        assert(a_select@ =~= op_select());
                        assert(a_merge@ =~= op_merge());
                        assert(a_move@ =~= op_move());
                        assert(a_fetch@ =~= op_fetch());
                        assert(a_copy@ =~= op_copy());
                    }
                    if op_is(data, i, a_insert.as_slice()) {
                        match find_byte(data, i + 1, 0x20) {
                            None => {
                                // a truncated INSERT tag parses, but
                                // reports no response
                                proof {
                                    assert(self.info@ =~= step.0);
                                }
                                Ok(true)
                            },
                            Some(j) => {
                                match find_byte(data, j + 1, 0) {
                                    Some(k) => {
                                        let rows_b = vstd::slice::slice_subrange(data, j + 1, k);
                                        proof {
                                            assert(rows_b@ =~= data@.subrange(j + 1, k as int));
                                        }
                                        self.info.affected_rows = parse_u64_or_zero(rows_b);
                                    },
                                    None => {},
                                }
                                self.inc_resp();
                                proof {
                                    assert(self.info@ =~= step.0);
                                }
                                Ok(true)
                            },
                        }
                    } else if op_is(data, i, a_delete.as_slice()) || op_is(
                        data,
                        i,
                        a_update.as_slice(),
                    ) || op_is(data, i, a_select.as_slice()) || op_is(data, i, a_merge.as_slice())
                        || op_is(data, i, a_move.as_slice()) || op_is(data, i, a_fetch.as_slice())
                        || op_is(data, i, a_copy.as_slice()) {
                        match find_byte(data, i + 1, 0) {
                            Some(k) => {
                                let rows_b = vstd::slice::slice_subrange(data, i + 1, k);
                                proof {
                                    assert(rows_b@ =~= data@.subrange(i + 1, k as int));
                                }
                                self.info.affected_rows = parse_u64_or_zero(rows_b);
                            },
                            None => {},
                        }
                        self.inc_resp();
                        proof {
                            assert(self.info@ =~= step.0);
                        }
                        Ok(true)
                    } else {
                        self.inc_resp();
                        proof {
                            assert(self.info@ =~= step.0);
                        }
                        Ok(true)
                    }
                },
            }
        } else if tag == 'E' as u8 {
            self.info.status = L7ResponseStatus::ClientError;
            self.info.resp_type = 'E';
            self.info.ignore = false;
            match find_byte(data, 0, 0) {
                None => {
                    proof {
                        assert(self.info@ =~= step.0);
                    }
                    Ok(true)
                },
                Some(i) => match find_byte(data, i + 1, 0) {
                    None => {
                        proof {
                            assert(self.info@ =~= step.0);
                        }
                        Ok(true)
                    },
                    Some(j) => match find_byte(data, j + 1, 0) {
                        None => {
                            proof {
                                assert(self.info@ =~= step.0);
                            }
                            Err(Error::L7ProtocolUnknown)
                        },
                        Some(k) => {
                            proof {
                                crate::strutil::lemma_find_byte_found(data@, j + 1, 0, k as int);
                            }
                            if *vstd::slice::slice_index_get(data, j + 1) != 'C' as u8 {
                                proof {
                                    assert(self.info@ =~= step.0);
                                }
                                Err(Error::L7ProtocolUnknown)
                            } else {
                                let code = vstd::slice::slice_subrange(data, j + 2, k);
                                proof {
                                    assert(code@ =~= data@.subrange(j + 2, k as int));
                                }
                                let desc = get_code_desc(code);
                                self.info.result = from_utf8_lossy(code);
                                self.info.error_message = desc.0.to_owned();
                                self.info.status = desc.1;
                                match desc.1 {
                                    L7ResponseStatus::ClientError => self.inc_req_err(),
                                    L7ResponseStatus::ServerError => self.inc_resp_err(),
                                    _ => {},
                                }
                                self.inc_resp();
                                proof {
                                    assert(self.info@ =~= step.0);
                                }
                                Ok(true)
                            }
                        },
                    },
                },
            }
        } else if tag == 'Z' as u8 || tag == 'I' as u8 || tag == '1' as u8 || tag == '2' as u8
            || tag == '3' as u8 || tag == 'S' as u8 || tag == 'K' as u8 || tag == 'T' as u8 || tag
            == 'n' as u8 || tag == 'N' as u8 || tag == 't' as u8 || tag == 'D' as u8 || tag
            == 'G' as u8 || tag == 'H' as u8 || tag == 'W' as u8 || tag == 'd' as u8 || tag
            == 'c' as u8 {
            Ok(false)
        } else {
            Err(Error::L7ProtocolUnknown)
        }
    }
}


/// The record side that a capture direction observes.
pub open spec fn spec_msg_of_direction(d: PacketDirection) -> LogMessageType {
    if d == PacketDirection::ClientToServer {
        LogMessageType::Request
    } else {
        LogMessageType::Response
    }
}

/// Whether the payload is exactly the SSL-request sentinel, probed on the
/// request side only.
pub open spec fn spec_is_ssl_req(p: Seq<u8>, msg: LogMessageType) -> bool {
    p.len() == 8 && msg == LogMessageType::Request && spec_be64(p, 0) == SSL_REQ
}

impl PostgresqlLog {
    fn check_is_ssl_req(&self, payload: &[u8]) -> (r: bool)
        ensures
            r == spec_is_ssl_req(payload@, self.info.msg_type),
    {
        payload.len() == 8 && self.info.msg_type == LogMessageType::Request && read_u64_be(
            payload,
        ) == SSL_REQ
    }

    fn set_msg_type(&mut self, direction: PacketDirection)
        ensures
            final(self).info@ == (PgInfoModel {
                msg_type: spec_msg_of_direction(direction),
                ..old(self).info@
            }),
            final(self).perf_stats == old(self).perf_stats,
            final(self).parsed == old(self).parsed,
    {
        match direction {
            PacketDirection::ClientToServer => {
                self.info.msg_type = LogMessageType::Request;
            },
            PacketDirection::ServerToClient => {
                self.info.msg_type = LogMessageType::Response;
            },
        }
        proof {
            assert(self.info@ =~= (PgInfoModel {
                msg_type: spec_msg_of_direction(direction),
                ..old(self).info@
            }));
        }
    }

    /// Walks the payload block by block. At least one surfaced block must
    /// be consumed, else the payload is presumed to belong to another
    /// protocol. A failed parse leaves no trace: the record and the
    /// counters are restored to their state at entry, so misidentified
    /// traffic cannot pollute the metrics. When the parse succeeds and the
    /// gathered record is not suppressed, the request-response time is
    /// resolved against the cache.
    fn parse(&mut self, payload: &[u8], param: &ParseParam, cache: &mut L7PerfCache) -> (r:
        Result<(), Error>)
        requires
            old(self).perf_stats is Some,
            old(cache).well_formed(),
            old(self).info.msg_type == LogMessageType::Request || old(self).info.msg_type
                == LogMessageType::Response,
        ensures
            final(self).parsed == old(self).parsed,
            final(cache).well_formed(),
            final(cache).spec_capacity() == old(cache).spec_capacity(),
            ({
                let w = spec_walk(
                    payload@,
                    0,
                    old(self).info@,
                    spec_perf(old(self).perf_stats),
                    false,
                );
                let key = SessionKey { flow_id: param.flow_id, session_id: None };
                &&& !(w.ok && w.seen) ==> r == Err::<(), Error>(Error::L7ProtocolUnknown)
                    && final(self).info == old(self).info && final(self).perf_stats == old(self).perf_stats && *final(cache) == *old(cache)
                &&& w.ok && w.seen && w.info.ignore ==> r == Ok::<(), Error>(()) && final(self).info@ == w.info && final(self).perf_stats == Some(w.perf) && *final(cache)
                    == *old(cache)
                &&& w.ok && w.seen && !w.info.ignore ==> r == Ok::<(), Error>(()) && ({
                    let rrt_opt = spec_rrt_result(old(cache)@, key, w.info.msg_type, param.time);
                    &&& final(self).info@ == (match rrt_opt {
                        Some(t) => PgInfoModel { rrt: t, ..w.info },
                        None => w.info,
                    })
                    &&& final(self).perf_stats == Some(
                        match rrt_opt {
                            Some(t) => w.perf.spec_update_rrt(t),
                            None => w.perf,
                        },
                    )
                    &&& spec_rrt_cache_post(
                        old(cache)@,
                        final(cache)@,
                        key,
                        w.info.msg_type,
                        param.time,
                    )
                })
            }),
    {
        let ghost p = payload@;
        let ghost info0 = old(self).info@;
        let ghost perf0 = spec_perf(old(self).perf_stats);
        let snapshot = clone_info(&self.info);
        let perf_snapshot = self.perf_stats;
        let mut offset: usize = 0;
        let mut at_least_one_block = false;
        let payload_len = payload.len();
        while offset < payload_len
            invariant_except_break
                offset <= payload@.len(),
                payload_len == payload@.len(),
                p == payload@,
                self.perf_stats is Some,
                self.parsed == old(self).parsed,
                self.info.msg_type == old(self).info.msg_type,
                *cache == *old(cache),
                old(cache).well_formed(),
                info0 == old(self).info@,
                perf0 == spec_perf(old(self).perf_stats),
                snapshot == old(self).info,
                perf_snapshot == old(self).perf_stats,
                spec_walk(p, 0, info0, perf0, false) == spec_walk(
                    p,
                    offset as int,
                    self.info@,
                    spec_perf(self.perf_stats),
                    at_least_one_block,
                ),
            ensures
                self.perf_stats is Some,
                self.parsed == old(self).parsed,
                self.info.msg_type == old(self).info.msg_type,
                *cache == *old(cache),
                old(cache).well_formed(),
                spec_walk(p, 0, info0, perf0, false) == (PgState {
                    info: self.info@,
                    perf: spec_perf(self.perf_stats),
                    seen: at_least_one_block,
                    ok: true,
                }),
            decreases payload@.len() - offset,
        {
            let ghost seen0 = at_least_one_block;
            let ghost pre_info = self.info@;
            let ghost pre_perf = spec_perf(self.perf_stats);
            match read_block(payload, offset) {
                None => {
                    proof {
                        assert(spec_walk(p, offset as int, pre_info, pre_perf, seen0)
                            == (PgState {
                            info: pre_info,
                            perf: pre_perf,
                            seen: seen0,
                            ok: true,
                        }));
                    }
                    break ;
                },
                Some(b) => {
                    let tag = b.0;
                    let len = b.1;
                    let data = vstd::slice::slice_subrange(payload, offset + 5, offset + 5 + len);
                    proof {
                        assert(data@ =~= p.subrange(offset + 5, offset + 5 + len));
                    }
                    let res = if self.info.msg_type == LogMessageType::Request {
                        self.on_req_block(tag, data)
                    } else {
                        self.on_resp_block(tag, data)
                    };
                    let ghost step = spec_block_step(pre_info, pre_perf, tag, data@);
                    match res {
                        Ok(surfaced) => {
                            proof {
                                assert(step.2 == Some(surfaced));
                                assert(spec_walk(p, offset as int, pre_info, pre_perf, seen0)
                                    == spec_walk(
                                    p,
                                    offset + 5 + len,
                                    step.0,
                                    step.1,
                                    seen0 || surfaced,
                                ));
                            }
                            if surfaced && !at_least_one_block {
                                at_least_one_block = true;
                            }
                            offset = offset + 5 + len;
                        },
                        Err(e) => {
                            proof {
                                assert(step.2 matches Option::<bool>::None);
                                assert(spec_walk(p, offset as int, pre_info, pre_perf, seen0)
                                    == (PgState {
                                    info: step.0,
                                    perf: step.1,
                                    seen: seen0,
                                    ok: false,
                                }));
                            }
                            self.info = snapshot;
                            self.perf_stats = perf_snapshot;
                            return Err(e);
                        },
                    }
                },
            }
        }
        let ghost w = spec_walk(p, 0, info0, perf0, false);
        if at_least_one_block {
            if !self.info.ignore {
                let rrt_opt = cache.cal_rrt(param.flow_id, None, self.info.msg_type, param.time);
                match rrt_opt {
                    Some(rrt) => {
                        self.info.rrt = rrt;
                        match &mut self.perf_stats {
                            Some(ps) => ps.update_rrt(rrt),
                            None => {},
                        }
                        proof {
                            assert(self.info@ =~= (PgInfoModel { rrt: rrt, ..w.info }));
                        }
                    },
                    None => {},
                }
            }
            Ok(())
        } else {
            self.info = snapshot;
            self.perf_stats = perf_snapshot;
            Err(Error::L7ProtocolUnknown)
        }
    }

    /// The cheap probe run during protocol identification: the SSL-request
    /// sentinel is accepted at once, and otherwise the payload must parse
    /// as a request. A successful structural parse is cached so that the
    /// following `parse_payload` call is answered from it; a failed probe
    /// restores the record and the counters, leaving no trace.
    pub fn check_payload(
        &mut self,
        payload: &[u8],
        param: &ParseParam,
        cache: &mut L7PerfCache,
    ) -> (r: bool)
        requires
            old(cache).well_formed(),
        ensures
            final(cache).well_formed(),
            final(cache).spec_capacity() == old(cache).spec_capacity(),
            ({
                let info1 = PgInfoModel {
                    msg_type: LogMessageType::Request,
                    is_tls: param.is_tls,
                    ..old(self).info@
                };
                let w = spec_walk(payload@, 0, info1, spec_perf(old(self).perf_stats), false);
                let key = SessionKey { flow_id: param.flow_id, session_id: None };
                &&& spec_is_ssl_req(payload@, LogMessageType::Request) ==> r && final(self).info@
                    == info1 && final(self).perf_stats == old(self).perf_stats && final(self).parsed == old(self).parsed && *final(cache) == *old(cache)
                &&& !spec_is_ssl_req(payload@, LogMessageType::Request) ==> {
                    &&& r == (w.ok && w.seen)
                    &&& r ==> final(self).parsed
                    &&& !r ==> final(self).parsed == old(self).parsed && final(self).info@
                        == info1 && final(self).perf_stats == Some(
                        spec_perf(old(self).perf_stats),
                    ) && *final(cache) == *old(cache)
                    &&& r && w.info.ignore ==> final(self).info@ == w.info && final(self).perf_stats == Some(w.perf) && *final(cache) == *old(cache)
                    &&& r && !w.info.ignore ==> ({
                        let rrt_opt = spec_rrt_result(
                            old(cache)@,
                            key,
                            w.info.msg_type,
                            param.time,
                        );
                        &&& final(self).info@ == (match rrt_opt {
                            Some(t) => PgInfoModel { rrt: t, ..w.info },
                            None => w.info,
                        })
                        &&& final(self).perf_stats == Some(
                            match rrt_opt {
                                Some(t) => w.perf.spec_update_rrt(t),
                                None => w.perf,
                            },
                        )
                        &&& spec_rrt_cache_post(
                            old(cache)@,
                            final(cache)@,
                            key,
                            w.info.msg_type,
                            param.time,
                        )
                    })
                }
            }),
    {
        self.set_msg_type(PacketDirection::ClientToServer);
        self.info.is_tls = param.is_tls;
        proof {
            assert(self.info@ =~= (PgInfoModel {
                msg_type: LogMessageType::Request,
                is_tls: param.is_tls,
                ..old(self).info@
            }));
        }
        if self.check_is_ssl_req(payload) {
            return true;
        }
        if self.perf_stats.is_none() {
            self.perf_stats = Some(L7PerfStats::default());
        }
        match self.parse(payload, param, cache) {
            Ok(_u) => {
                self.parsed = true;
                true
            },
            Err(_e) => false,
        }
    }

    /// Decodes the payload into zero or more records: none when the
    /// sentinel or only suppressed blocks were seen, one otherwise. A
    /// payload already parsed by the probe is answered from the cached
    /// record without re-parsing; a failed parse restores the record and
    /// the counters, leaving no trace.
    pub fn parse_payload(
        &mut self,
        payload: &[u8],
        param: &ParseParam,
        cache: &mut L7PerfCache,
    ) -> (r: Result<Vec<PostgreInfo>, Error>)
        requires
            old(cache).well_formed(),
        ensures
            final(cache).well_formed(),
            final(cache).spec_capacity() == old(cache).spec_capacity(),
            old(self).parsed ==> *final(self) == *old(self) && *final(cache) == *old(cache) && (
            r matches Ok(v) && (old(self).info.ignore ==> v@.len() == 0) && (!old(self).info.ignore ==> v@.len() == 1 && v@[0]@ == old(self).info@)),
            ({
                let info1 = PgInfoModel { is_tls: param.is_tls, ..old(self).info@ };
                let info2 = PgInfoModel {
                    msg_type: spec_msg_of_direction(param.direction),
                    ..info1
                };
                let w = spec_walk(payload@, 0, info2, spec_perf(old(self).perf_stats), false);
                let key = SessionKey { flow_id: param.flow_id, session_id: None };
                &&& !old(self).parsed && spec_is_ssl_req(payload@, old(self).info.msg_type) ==> (
                r matches Ok(v) && v@.len() == 0) && final(self).info@ == info1 && final(self).perf_stats == old(self).perf_stats && final(self).parsed == old(self).parsed
                    && *final(cache) == *old(cache)
                &&& !old(self).parsed && !spec_is_ssl_req(payload@, old(self).info.msg_type)
                    ==> {
                    &&& final(self).parsed == old(self).parsed
                    &&& !(w.ok && w.seen) ==> r == Err::<Vec<PostgreInfo>, Error>(
                        Error::L7ProtocolUnknown,
                    ) && final(self).info@ == info2 && final(self).perf_stats == Some(
                        spec_perf(old(self).perf_stats),
                    ) && *final(cache) == *old(cache)
                    &&& w.ok && w.seen && w.info.ignore ==> (r matches Ok(v) && v@.len() == 0)
                        && final(self).info@ == w.info && final(self).perf_stats == Some(w.perf)
                        && *final(cache) == *old(cache)
                    &&& w.ok && w.seen && !w.info.ignore ==> ({
                        let rrt_opt = spec_rrt_result(
                            old(cache)@,
                            key,
                            w.info.msg_type,
                            param.time,
                        );
                        let fi = (match rrt_opt {
                            Some(t) => PgInfoModel { rrt: t, ..w.info },
                            None => w.info,
                        });
                        &&& (r matches Ok(v) && v@.len() == 1 && v@[0]@ == fi)
                        &&& final(self).info@ == fi
                        &&& final(self).perf_stats == Some(
                            match rrt_opt {
                                Some(t) => w.perf.spec_update_rrt(t),
                                None => w.perf,
                            },
                        )
                        &&& spec_rrt_cache_post(
                            old(cache)@,
                            final(cache)@,
                            key,
                            w.info.msg_type,
                            param.time,
                        )
                    })
                }
            }),
    {
        if self.parsed {
            let r = if self.info.ignore {
                Vec::new()
            } else {
                let mut v: Vec<PostgreInfo> = Vec::new();
                v.push(clone_info(&self.info));
                v
            };
            return Ok(r);
        }
        self.info.is_tls = param.is_tls;
        proof {
            assert(self.info@ =~= (PgInfoModel { is_tls: param.is_tls, ..old(self).info@ }));
        }
        if self.check_is_ssl_req(payload) {
            return Ok(Vec::new());
        }
        if self.perf_stats.is_none() {
            self.perf_stats = Some(L7PerfStats::default());
        }
        self.set_msg_type(param.direction);
        proof {
            assert(self.info@ =~= (PgInfoModel {
                msg_type: spec_msg_of_direction(param.direction),
                is_tls: param.is_tls,
                ..old(self).info@
            }));
        }
        match self.parse(payload, param, cache) {
            Ok(_u) => {},
            Err(e) => {
                return Err(e);
            },
        }
        if self.info.ignore {
            Ok(Vec::new())
        } else {
            let mut v: Vec<PostgreInfo> = Vec::new();
            v.push(clone_info(&self.info));
            Ok(v)
        }
    }

    /// Which protocol this parser decodes.
    pub fn protocol(&self) -> (r: L7Protocol)
        ensures
            r == L7Protocol::PostgreSQL,
    {
        L7Protocol::PostgreSQL
    }

    /// PostgreSQL sessions only run over TCP.
    pub fn parsable_on_udp(&self) -> (r: bool)
        ensures
            r == false,
    {
        false
    }

    /// Clears the record and the probe cache for the next payload; the
    /// counters survive until taken.
    pub fn reset(&mut self)
        ensures
            final(self).info@ == spec_pg_info_default(),
            final(self).parsed == false,
            final(self).perf_stats == old(self).perf_stats,
    {
        self.info = PostgreInfo::default();
        self.parsed = false;
    }

    /// Hands the gathered counters to the caller, leaving none behind.
    pub fn perf_stats(&mut self) -> (r: Option<L7PerfStats>)
        ensures
            r == old(self).perf_stats,
            final(self).perf_stats matches Option::<L7PerfStats>::None,
            final(self).info == old(self).info,
            final(self).parsed == old(self).parsed,
    {
        self.perf_stats.take()
    }
}

impl Default for PostgresqlLog {
    fn default() -> (r: Self)
        ensures
            r.info@ == (PgInfoModel { ignore: true, ..spec_pg_info_default() }),
            r.perf_stats matches Option::<L7PerfStats>::None,
            r.parsed == false,
    {
        let mut log = PostgresqlLog {
            info: PostgreInfo::default(),
            perf_stats: None,
            parsed: false,
        };
        log.info.ignore = true;
        proof {
            assert(log.info@ =~= (PgInfoModel { ignore: true, ..spec_pg_info_default() }));
        }
        log
    }
}

impl PostgreInfo {
    /// PostgreSQL pairs requests and responses by order alone, so a
    /// record carries no session identifier.
    pub fn session_id(&self) -> (r: Option<u32>)
        ensures
            r matches Option::<u32>::None,
    {
        None
    }

    /// Whether the session is wrapped in TLS.
    pub fn is_tls(&self) -> (r: bool)
        ensures
            r == self.is_tls,
    {
        self.is_tls
    }

    /// Folds the other side's observation of the same session into this
    /// record: a request contributes the query, a response the outcome.
    pub fn merge_log(&mut self, other: &PostgreInfo) -> (r: Result<(), Error>)
        ensures
            r matches Ok(u) && u == (),
            other.msg_type == LogMessageType::Request ==> final(self)@ == (PgInfoModel {
                req_type: other.req_type,
                context: other.context@,
                ..old(self)@
            }),
            other.msg_type == LogMessageType::Response ==> final(self)@ == (PgInfoModel {
                resp_type: other.resp_type,
                result: other.result@,
                error_message: other.error_message@,
                status: other.status,
                affected_rows: other.affected_rows,
                ..old(self)@
            }),
            other.msg_type != LogMessageType::Request && other.msg_type
                != LogMessageType::Response ==> *final(self) == *old(self),
    {
        match other.msg_type {
            LogMessageType::Request => {
                self.req_type = other.req_type;
                self.context = other.context.clone();
                proof {
                    assert(self@ =~= (PgInfoModel {
                        req_type: other.req_type,
                        context: other.context@,
                        ..old(self)@
                    }));
                }
            },
            LogMessageType::Response => {
                self.resp_type = other.resp_type;
                self.result = other.result.clone();
                self.error_message = other.error_message.clone();
                self.status = other.status;
                self.affected_rows = other.affected_rows;
                proof {
                    assert(self@ =~= (PgInfoModel {
                        resp_type: other.resp_type,
                        result: other.result@,
                        error_message: other.error_message@,
                        status: other.status,
                        affected_rows: other.affected_rows,
                        ..old(self)@
                    }));
                }
            },
            _ => {},
        }
        Ok(())
    }

    /// The header summarizing this record for the collector.
    pub fn app_proto_head(&self) -> (r: Option<AppProtoHead>)
        ensures
            r == Some(
                AppProtoHead {
                    proto: L7Protocol::PostgreSQL,
                    msg_type: self.msg_type,
                    status: self.status,
                    code: 0,
                    rrt: self.rrt,
                },
            ),
    {
        Some(
            AppProtoHead {
                proto: L7Protocol::PostgreSQL,
                msg_type: self.msg_type,
                status: self.status,
                code: 0,
                rrt: self.rrt,
            },
        )
    }

    /// Byte length of the query text.
    pub fn get_request_resource_length(&self) -> (r: usize)
        ensures
            r == vstd::utf8::encode_utf8(self.context@).len() as usize,
    {
        self.context.as_str().len()
    }
}

/// The request half of an exported record.
#[derive(Debug, Clone)]
pub struct L7Request {
    pub req_type: String,
    pub resource: String,
}

/// The response half of an exported record.
#[derive(Debug, Clone)]
pub struct L7Response {
    pub status: L7ResponseStatus,
    pub result: String,
    pub exception: String,
}

/// The shape handed to the exporter: lengths, affected rows, and the
/// request and response halves.
#[derive(Debug, Clone)]
pub struct L7ProtocolSendLog {
    pub req_len: Option<u32>,
    pub resp_len: Option<u32>,
    pub row_effect: u32,
    pub req: L7Request,
    pub resp: L7Response,
}

impl L7ProtocolSendLog {
    /// Maps a record to the exporter's shape: the affected row count, the
    /// display name of the request tag, the query text as the resource,
    /// and the response's status, SQLSTATE and condition name.
    pub fn from(p: PostgreInfo) -> (r: L7ProtocolSendLog)
        ensures
            r.req_len matches Option::<u32>::None,
            r.resp_len matches Option::<u32>::None,
            r.row_effect == p.affected_rows as u32,
            r.req.req_type@ == spec_request_str(p.req_type),
            r.req.resource@ == p.context@,
            r.resp.status == p.status,
            r.resp.result@ == p.result@,
            r.resp.exception@ == p.error_message@,
    {
        L7ProtocolSendLog {
            req_len: None,
            resp_len: None,
            row_effect: #[verifier::truncate] (p.affected_rows as u32),
            req: L7Request {
                req_type: get_request_str(p.req_type).to_owned(),
                resource: p.context,
            },
            resp: L7Response {
                status: p.status,
                result: p.result,
                exception: p.error_message,
            },
        }
    }
}


/// Whether the bytes from `off` to `end` are a concatenation of zero or
/// more valid blocks.
pub open spec fn spec_valid_blocks(p: Seq<u8>, off: int, end: int) -> bool
    decreases end - off,
{
    if off == end {
        true
    } else if off > end {
        false
    } else {
        match spec_read_block(p, off) {
            Some(b) => off + 5 + b.1 <= end && spec_valid_blocks(p, off + 5 + b.1, end),
            None => false,
        }
    }
}

proof fn lemma_walk_block_prefix(p: Seq<u8>, off: int, info: PgInfoModel, perf: L7PerfStats, seen: bool)
    requires
        0 <= off <= p.len(),
        spec_walk(p, off, info, perf, seen).ok,
    ensures
        exists|end: int|
            off <= end <= p.len() && #[trigger] spec_valid_blocks(p, off, end) && (seen
                || spec_walk(p, off, info, perf, seen).seen ==> seen || end > off),
    decreases p.len() - off,
{
    if off >= p.len() {
        assert(spec_valid_blocks(p, off, off));
    } else {
        match spec_read_block(p, off) {
            None => {
                assert(spec_valid_blocks(p, off, off));
            },
            Some(b) => {
                let data = p.subrange(off + 5, off + 5 + b.1);
                let step = spec_block_step(info, perf, b.0, data);
                match step.2 {
                    None => {
                        assert(false);
                    },
                    Some(surfaced) => {
                        lemma_walk_block_prefix(p, off + 5 + b.1, step.0, step.1, seen
                            || surfaced);
                        let end = choose|end: int|
                            off + 5 + b.1 <= end <= p.len() && #[trigger] spec_valid_blocks(
                                p,
                                off + 5 + b.1,
                                end,
                            );
                        assert(spec_valid_blocks(p, off, end));
                    },
                }
            },
        }
    }
}

/// A successful parse never mistakes free-form bytes for the protocol: a
/// walk that ends error-free having surfaced a block has consumed a
/// non-empty prefix of the payload made of whole valid blocks.
pub proof fn lemma_parse_consumes_block_prefix(p: Seq<u8>, info: PgInfoModel, perf: L7PerfStats)
    requires
        spec_walk(p, 0, info, perf, false).ok,
        spec_walk(p, 0, info, perf, false).seen,
    ensures
        exists|end: int| 0 < end <= p.len() && #[trigger] spec_valid_blocks(p, 0, end),
{
    if p.len() > 0 {
        match spec_read_block(p, 0) {
            None => {
                assert(!spec_walk(p, 0, info, perf, false).seen);
            },
            Some(b) => {
                let data = p.subrange(5, 5 + b.1);
                let step = spec_block_step(info, perf, b.0, data);
                match step.2 {
                    None => {
                        assert(!spec_walk(p, 0, info, perf, false).ok);
                    },
                    Some(surfaced) => {
                        lemma_walk_block_prefix(p, 5 + b.1, step.0, step.1, surfaced);
                        let end = choose|end: int|
                            5 + b.1 <= end <= p.len() && #[trigger] spec_valid_blocks(
                                p,
                                5 + b.1,
                                end,
                            );
                        assert(spec_valid_blocks(p, 0, end));
                    },
                }
            },
        }
    } else {
        assert(!spec_walk(p, 0, info, perf, false).seen);
    }
}

/// Frames a query as one simple-query block: the `Q` tag, the length
/// (counting itself and the trailing NUL), the query text, and the NUL.
pub fn encode_simple_query(query: &[u8]) -> (r: Vec<u8>)
    requires
        query@.len() + 5 <= u32::MAX,
    ensures
        r@.len() == query@.len() + 6,
        r@[0] == 'Q' as u8,
        spec_be32(r@, 1) == ((query@.len() + 5) as u32),
        r@.subrange(5, 5 + query@.len() as int) == query@,
        r@[5 + query@.len() as int] == 0,
{
    let n = query.len();
    let len32 = (n + 5) as u32;
    let mut r: Vec<u8> = Vec::new();
    proof {
        let x = len32;
        assert(x >> 24 < 256 && (x >> 16) & 0xff < 256 && (x >> 8) & 0xff < 256 && x & 0xff
            < 256) by (bit_vector);
    }
    r.push('Q' as u8);
    r.push((len32 >> 24) as u8);
    r.push(((len32 >> 16) & 0xff) as u8);
    r.push(((len32 >> 8) & 0xff) as u8);
    r.push((len32 & 0xff) as u8);
    let mut i: usize = 0;
    while i < n
        invariant
            i <= n,
            n == query@.len(),
            n + 5 <= u32::MAX,
            r@.len() == 5 + i,
            r@[0] == 'Q' as u8,
            r@[1] == ((n + 5) as u32) >> 24,
            r@[2] == (((n + 5) as u32) >> 16) & 0xff,
            r@[3] == (((n + 5) as u32) >> 8) & 0xff,
            r@[4] == ((n + 5) as u32) & 0xff,
            r@.subrange(5, 5 + i as int) == query@.take(i as int),
        decreases n - i,
    {
        r.push(query[i]);
        proof {
            assert(r@.subrange(5, 5 + i + 1) =~= query@.take(i + 1));
        }
        i = i + 1;
    }
    let ghost pre = r@;
    proof {
        assert(query@.take(n as int) =~= query@);
        assert(pre.subrange(5, 5 + n as int) == query@);
    }
    r.push(0);
    proof {
        let x = (n + 5) as u32;
        assert((((x >> 24) as u8) as u32) << 24 | (((x >> 16) & 0xff) as u8 as u32) << 16 | (((x
            >> 8) & 0xff) as u8 as u32) << 8 | ((x & 0xff) as u8 as u32) == x) by (bit_vector);
        assert(spec_be32(r@, 1) == x);
        assert(r@.subrange(5, 5 + n as int) =~= pre.subrange(5, 5 + n as int));
    }
    r
}

/// Round trip of a simple query, stated on the text itself: framing the
/// UTF-8 encoding of any query text and decoding it on the request side
/// recovers exactly that text in `context`.
pub proof fn lemma_simple_query_round_trip_exact(
    enc: Seq<u8>,
    s: Seq<char>,
    info: PgInfoModel,
    perf: L7PerfStats,
)
    requires
        info.msg_type == LogMessageType::Request,
        vstd::utf8::encode_utf8(s).len() + 5 <= u32::MAX,
        enc.len() == vstd::utf8::encode_utf8(s).len() + 6,
        enc[0] == 'Q' as u8,
        spec_be32(enc, 1) == ((vstd::utf8::encode_utf8(s).len() + 5) as u32),
        enc.subrange(5, 5 + vstd::utf8::encode_utf8(s).len() as int) == vstd::utf8::encode_utf8(
            s,
        ),
        enc[5 + vstd::utf8::encode_utf8(s).len() as int] == 0,
    ensures
        ({
            let w = spec_walk(enc, 0, info, perf, false);
            &&& w.ok
            &&& w.seen
            &&& w.info == (PgInfoModel { req_type: 'Q', context: s, ignore: false, ..info })
            &&& w.perf == perf.spec_inc_req()
        }),
{
    lemma_simple_query_round_trip(enc, vstd::utf8::encode_utf8(s), info, perf);
    crate::strutil::lemma_lossy_of_encoding(s);
}

/// Round trip of a simple query: decoding a freshly framed `Q` block on
/// the request side succeeds, surfaces the block, and recovers the query
/// text (as the lossy decoding of its bytes) in `context`, with the
/// request counter bumped and everything else untouched.
pub proof fn lemma_simple_query_round_trip(
    enc: Seq<u8>,
    q: Seq<u8>,
    info: PgInfoModel,
    perf: L7PerfStats,
)
    requires
        info.msg_type == LogMessageType::Request,
        q.len() + 5 <= u32::MAX,
        enc.len() == q.len() + 6,
        enc[0] == 'Q' as u8,
        spec_be32(enc, 1) == ((q.len() + 5) as u32),
        enc.subrange(5, 5 + q.len() as int) == q,
        enc[5 + q.len() as int] == 0,
    ensures
        ({
            let w = spec_walk(enc, 0, info, perf, false);
            &&& w.ok
            &&& w.seen
            &&& w.info == (PgInfoModel {
                req_type: 'Q',
                context: lossy_of(q),
                ignore: false,
                ..info
            })
            &&& w.perf == perf.spec_inc_req()
        }),
{
    let blen = (q.len() + 5) as int;
    assert(spec_read_block(enc, 0) == Some((enc[0], blen - 4)));
    let data = enc.subrange(5, 5 + (blen - 4));
    assert(data.len() == q.len() + 1);
    assert(data.last() == enc[5 + q.len() as int]);
    assert(data.take(data.len() - 1) =~= q);
    let step = spec_block_step(info, perf, 'Q' as u8, data);
    assert(step.0 =~= (PgInfoModel { req_type: 'Q', context: lossy_of(q), ignore: false, ..info }));
    assert(step.2 == Some(true));
    assert(spec_walk(enc, 0 + 5 + (blen - 4), step.0, step.1, true) == (PgState {
        info: step.0,
        perf: step.1,
        seen: true,
        ok: true,
    }));
}


} // verus!
