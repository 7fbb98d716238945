use vstd::prelude::*;

use crate::error::Error;
use crate::perf::AppProtoHead;
use crate::strutil::lossy_of;
use crate::strutil::from_utf8_lossy;
use crate::strutil::spec_be32;
use crate::strutil::spec_be64;
use crate::types::IpProtocol;
use crate::types::L7Protocol;
use crate::types::L7ResponseStatus;
use crate::types::LogMessageType;
use crate::types::PacketDirection;

verus! {

pub const DUBBO_MAGIC_HIGH: u8 = 0xda;

pub const DUBBO_MAGIC_LOW: u8 = 0xbb;

/// Length of the fixed frame header.
pub const DUBBO_HEADER_LEN: usize = 16;

/// Ordinals of the four leading Hessian-encoded request parameters.
pub const BODY_PARAM_MIN: usize = 1;

pub const BODY_PARAM_DUBBO_VERSION: usize = 1;

pub const BODY_PARAM_SERVICE_NAME: usize = 2;

pub const BODY_PARAM_SERVICE_VERSION: usize = 3;

pub const BODY_PARAM_METHOD_NAME: usize = 4;

pub const BODY_PARAM_MAX: usize = 5;

/// Hessian string type markers.
pub const BC_STRING_CHUNK: u8 = 0x52;

pub const BC_STRING: u8 = 0x53;

pub const BC_STRING_DIRECT: u8 = 0x00;

pub const STRING_DIRECT_MAX: u8 = 0x1f;

/// The byte count that a Hessian string tag announces, for the tags the
/// walk understands; any other tag aborts the walk.
pub open spec fn spec_req_param_len(tag: u8) -> Option<usize> {
    if tag == BC_STRING_CHUNK || tag == BC_STRING || (BC_STRING_DIRECT <= tag && tag
        <= STRING_DIRECT_MAX) || (0x30 <= tag && tag <= 0x33) {
        Some(tag as usize)
    } else {
        None
    }
}

/// Reads the length a Hessian string tag announces.
pub fn get_req_param_len(tag: u8) -> (r: Option<usize>)
    ensures
        r == spec_req_param_len(tag),
{
    if (tag == BC_STRING_CHUNK || tag == BC_STRING) || (tag >= BC_STRING_DIRECT && tag
        <= STRING_DIRECT_MAX) || (tag >= 0x30 && tag <= 0x33) {
        Some(tag as usize)
    } else {
        None
    }
}

/// The mathematical content of a decoded Dubbo record.
#[verifier::ext_equal]
pub ghost struct DubboInfoModel {
    pub serial_id: u8,
    pub data_type: u8,
    pub request_id: i64,
    pub req_msg_size: i32,
    pub dubbo_version: Seq<char>,
    pub service_name: Seq<char>,
    pub service_version: Seq<char>,
    pub method_name: Seq<char>,
    pub resp_msg_size: i32,
}

/// One decoded Dubbo record: the header fields and the four leading
/// request parameters, read best-effort.
#[derive(Debug, Clone)]
pub struct DubboInfo {
    pub serial_id: u8,
    pub data_type: u8,
    pub request_id: i64,
    pub req_msg_size: i32,
    pub dubbo_version: String,
    pub service_name: String,
    pub service_version: String,
    pub method_name: String,
    pub resp_msg_size: i32,
}

impl View for DubboInfo {
    type V = DubboInfoModel;

    open spec fn view(&self) -> DubboInfoModel {
        DubboInfoModel {
            serial_id: self.serial_id,
            data_type: self.data_type,
            request_id: self.request_id,
            req_msg_size: self.req_msg_size,
            dubbo_version: self.dubbo_version@,
            service_name: self.service_name@,
            service_version: self.service_version@,
            method_name: self.method_name@,
            resp_msg_size: self.resp_msg_size,
        }
    }
}

/// The record as `reset_logs` leaves it: no header fields, empty strings,
/// and the body sizes marked absent.
pub open spec fn spec_dubbo_info_reset() -> DubboInfoModel {
    DubboInfoModel {
        serial_id: 0,
        data_type: 0,
        request_id: 0,
        req_msg_size: -1 as i32,
        dubbo_version: Seq::<char>::empty(),
        service_name: Seq::<char>::empty(),
        service_version: Seq::<char>::empty(),
        method_name: Seq::<char>::empty(),
        resp_msg_size: -1 as i32,
    }
}

/// An empty string.
fn new_string() -> (r: String)
    ensures
        r@ == Seq::<char>::empty(),
{
    let r = "".to_owned();
    proof {
        reveal_strlit("");
        assert(r@ =~= Seq::<char>::empty());
    }
    r
}

impl Default for DubboInfo {
    fn default() -> (r: Self)
        ensures
            r@ == (DubboInfoModel { req_msg_size: 0, resp_msg_size: 0, ..spec_dubbo_info_reset() }),
    {
        let r = DubboInfo {
            serial_id: 0,
            data_type: 0,
            request_id: 0,
            req_msg_size: 0,
            dubbo_version: new_string(),
            service_name: new_string(),
            service_version: new_string(),
            method_name: new_string(),
            resp_msg_size: 0,
        };
        proof {
            assert(r@ =~= (DubboInfoModel {
                req_msg_size: 0,
                resp_msg_size: 0,
                ..spec_dubbo_info_reset()
            }));
        }
        r
    }
}

impl DubboInfo {
    /// Folds the response-side observation of the session into this
    /// request-side record.
    pub fn merge(&mut self, other: Self)
        ensures
            final(self)@ == (DubboInfoModel { resp_msg_size: other.resp_msg_size, ..old(self)@ }),
    {
        self.resp_msg_size = other.resp_msg_size;
        proof {
            assert(self@ =~= (DubboInfoModel {
                resp_msg_size: other.resp_msg_size,
                ..old(self)@
            }));
        }
    }
}

/// A deep copy of a record, equal to the original in every field.
fn clone_dubbo_info(info: &DubboInfo) -> (r: DubboInfo)
    ensures
        r@ == info@,
{
    let r = DubboInfo {
        serial_id: info.serial_id,
        data_type: info.data_type,
        request_id: info.request_id,
        req_msg_size: info.req_msg_size,
        dubbo_version: info.dubbo_version.clone(),
        service_name: info.service_name.clone(),
        service_version: info.service_version.clone(),
        method_name: info.method_name.clone(),
        resp_msg_size: info.resp_msg_size,
    };
    proof {
        assert(r@ =~= info@);
    }
    r
}

/// The fixed frame header: two magic bytes, a flag byte carrying the
/// serialization id and the request bit, a status byte, the request id and
/// the body length, both big-endian.
#[derive(Debug, Clone, Copy, PartialEq, Eq, Structural)]
pub struct DubboHeader {
    pub serial_id: u8,
    pub data_type: u8,
    pub status_code: u8,
    pub data_length: i32,
    pub request_id: i64,
}

impl Default for DubboHeader {
    fn default() -> (r: Self)
        ensures
            r == (DubboHeader {
                serial_id: 0,
                data_type: 0,
                status_code: 0,
                data_length: 0,
                request_id: 0,
            }),
    {
        DubboHeader { serial_id: 0, data_type: 0, status_code: 0, data_length: 0, request_id: 0 }
    }
}

/// Whether the payload opens with a complete, correctly-tagged header.
pub open spec fn spec_dubbo_header_ok(p: Seq<u8>) -> bool {
    p.len() >= 16 && p[0] == DUBBO_MAGIC_HIGH && p[1] == DUBBO_MAGIC_LOW
}

/// The header fields read from a payload that passes the check.
pub open spec fn spec_dubbo_header(p: Seq<u8>) -> DubboHeader {
    DubboHeader {
        serial_id: p[2] & 0x1f,
        data_type: p[2] & 0x80,
        status_code: p[3],
        request_id: spec_be64(p, 4) as i64,
        data_length: spec_be32(p, 12) as i32,
    }
}

impl DubboHeader {
    /// Decodes the fixed header: every payload with both magic bytes and
    /// at least sixteen bytes parses; anything else fails with
    /// `DubboHeaderParseFailed` and leaves the header untouched.
    pub fn parse_headers(&mut self, payload: &[u8]) -> (r: Result<(), Error>)
        ensures
            spec_dubbo_header_ok(payload@) ==> r == Ok::<(), Error>(()) && *final(self)
                == spec_dubbo_header(payload@),
            !spec_dubbo_header_ok(payload@) ==> r == Err::<(), Error>(
                Error::DubboHeaderParseFailed,
            ) && *final(self) == *old(self),
    {
        if payload.len() < DUBBO_HEADER_LEN {
            return Err(Error::DubboHeaderParseFailed);
        }
        if payload[0] != DUBBO_MAGIC_HIGH || payload[1] != DUBBO_MAGIC_LOW {
            return Err(Error::DubboHeaderParseFailed);
        }
        self.serial_id = payload[2] & 0x1f;
        self.data_type = payload[2] & 0x80;
        self.status_code = payload[3];
        let idb = vstd::slice::slice_subrange(payload, 4, 12);
        proof {
            assert(idb@ == payload@.subrange(4, 12));
            assert(spec_be64(idb@, 0) == spec_be64(payload@, 4));
        }
        self.request_id = crate::strutil::read_u64_be(idb) as i64;
        let lenb = vstd::slice::slice_subrange(payload, 12, 16);
        proof {
            assert(lenb@ == payload@.subrange(12, 16));
            assert(spec_be32(lenb@, 0) == spec_be32(payload@, 12));
        }
        self.data_length = crate::strutil::read_u32_be(lenb) as i32;
        Ok(())
    }
}

/// The best-effort walk over the leading Hessian parameters: each
/// understood tag contributes its string to the field that `n` names, and
/// the walk stops at the first unknown tag, truncated value, or exhausted
/// payload, leaving the remaining fields as they were.
pub open spec fn spec_param_walk(
    p: Seq<u8>,
    para_tag: u8,
    para_index: int,
    n: int,
    info: DubboInfoModel,
) -> DubboInfoModel
    decreases BODY_PARAM_MAX - n,
{
    if n < BODY_PARAM_MIN || n >= BODY_PARAM_MAX {
        info
    } else {
        match spec_req_param_len(para_tag) {
            Some(len) => if p.len() >= para_index + len && para_index >= 0 {
                let field = lossy_of(p.subrange(para_index, para_index + len));
                let info2 = if n == BODY_PARAM_DUBBO_VERSION {
                    DubboInfoModel { dubbo_version: field, ..info }
                } else if n == BODY_PARAM_SERVICE_NAME {
                    DubboInfoModel { service_name: field, ..info }
                } else if n == BODY_PARAM_SERVICE_VERSION {
                    DubboInfoModel { service_version: field, ..info }
                } else {
                    DubboInfoModel { method_name: field, ..info }
                };
                let idx2 = para_index + len;
                if p.len() <= idx2 {
                    info2
                } else {
                    spec_param_walk(p, p[idx2], idx2 + 1, n + 1, info2)
                }
            } else {
                info
            },
            None => info,
        }
    }
}

/// What the parameter walk makes of a whole request body.
pub open spec fn spec_req_body_info(p: Seq<u8>, info: DubboInfoModel) -> DubboInfoModel {
    if p.len() == 0 {
        info
    } else {
        spec_param_walk(p, p[0], 1, BODY_PARAM_MIN as int, info)
    }
}

/// The outcome classification of a response status code.
pub open spec fn spec_status_of(status_code: u8) -> L7ResponseStatus {
    if status_code == 20 {
        L7ResponseStatus::Success
    } else if status_code == 30 || status_code == 40 || status_code == 90 {
        L7ResponseStatus::ClientError
    } else if status_code == 31 || status_code == 50 || status_code == 60 || status_code == 70
        || status_code == 80 || status_code == 100 {
        L7ResponseStatus::ServerError
    } else {
        L7ResponseStatus::Success
    }
}

/// A record wrapped for the collector, tagged with its protocol.
#[derive(Debug, Clone)]
pub enum AppProtoLogsInfo {
    Dubbo(DubboInfo),
}

/// The parser state for one Dubbo flow.
#[derive(Debug, Clone)]
pub struct DubboLog {
    pub info: DubboInfo,
    pub status: L7ResponseStatus,
    pub status_code: u8,
    pub msg_type: LogMessageType,
}

impl Default for DubboLog {
    fn default() -> (r: Self)
        ensures
            r.info@ == (DubboInfoModel { req_msg_size: 0, resp_msg_size: 0, ..spec_dubbo_info_reset() }),
            r.status == L7ResponseStatus::Success,
            r.status_code == 0,
            r.msg_type == LogMessageType::Other,
    {
        DubboLog {
            info: DubboInfo::default(),
            status: L7ResponseStatus::Success,
            status_code: 0,
            msg_type: LogMessageType::Other,
        }
    }
}

impl DubboLog {
    /// Clears the record for the next frame.
    fn reset_logs(&mut self)
        ensures
            final(self).info@ == spec_dubbo_info_reset(),
            final(self).status == old(self).status,
            final(self).status_code == old(self).status_code,
            final(self).msg_type == old(self).msg_type,
    {
        self.info.serial_id = 0;
        self.info.data_type = 0;
        self.info.request_id = 0;
        self.info.req_msg_size = -1;
        self.info.dubbo_version = new_string();
        self.info.service_name = new_string();
        self.info.service_version = new_string();
        self.info.method_name = new_string();
        self.info.resp_msg_size = -1;
        proof {
            assert(self.info@ =~= spec_dubbo_info_reset());
        }
    }

    /// Best-effort walk of the leading request parameters.
    fn get_req_body_info(&mut self, payload: &[u8])
        ensures
            final(self).info@ == spec_req_body_info(payload@, old(self).info@),
            final(self).status == old(self).status,
            final(self).status_code == old(self).status_code,
            final(self).msg_type == old(self).msg_type,
    {
        let payload_len = payload.len();
        if payload_len == 0 {
            return ;
        }
        let ghost p = payload@;
        let ghost info0 = self.info@;
        let mut n: usize = BODY_PARAM_MIN;
        let mut para_index: usize = 1;
        let mut para_tag: u8 = payload[0];
        while n < BODY_PARAM_MAX
            invariant_except_break
                payload_len == payload@.len(),
                p == payload@,
                BODY_PARAM_MIN <= n <= BODY_PARAM_MAX,
                1 <= para_index <= payload@.len(),
                n > BODY_PARAM_MIN ==> para_index >= 1,
                spec_req_body_info(p, info0) == spec_param_walk(
                    p,
                    para_tag,
                    para_index as int,
                    n as int,
                    self.info@,
                ),
                self.status == old(self).status,
                self.status_code == old(self).status_code,
                self.msg_type == old(self).msg_type,
                info0 == old(self).info@,
            ensures
                self.status == old(self).status,
                self.status_code == old(self).status_code,
                self.msg_type == old(self).msg_type,
                spec_req_body_info(p, info0) == self.info@,
            decreases BODY_PARAM_MAX - n,
        {
            let para_len = match get_req_param_len(para_tag) {
                Some(len) => {
                    if payload_len >= para_index && payload_len - para_index >= len {
                        len
                    } else {
                        proof {
                            assert(spec_param_walk(
                                p,
                                para_tag,
                                para_index as int,
                                n as int,
                                self.info@,
                            ) == self.info@);
                        }
                        return ;
                    }
                },
                None => {
                    proof {
                        assert(spec_param_walk(
                            p,
                            para_tag,
                            para_index as int,
                            n as int,
                            self.info@,
                        ) == self.info@);
                    }
                    return ;
                },
            };
            let ghost pre = self.info@;
            let field_b = vstd::slice::slice_subrange(payload, para_index, para_index + para_len);
            proof {
                assert(field_b@ =~= p.subrange(para_index as int, para_index + para_len));
            }
            let field = from_utf8_lossy(field_b);
            if n == BODY_PARAM_DUBBO_VERSION {
                self.info.dubbo_version = field;
            } else if n == BODY_PARAM_SERVICE_NAME {
                self.info.service_name = field;
            } else if n == BODY_PARAM_SERVICE_VERSION {
                self.info.service_version = field;
            } else if n == BODY_PARAM_METHOD_NAME {
                self.info.method_name = field;
            } else {
                return ;
            }
            let ghost fieldv = lossy_of(p.subrange(para_index as int, para_index + para_len));
            proof {
                if n == BODY_PARAM_DUBBO_VERSION {
                    assert(self.info@ =~= (DubboInfoModel { dubbo_version: fieldv, ..pre }));
                } else if n == BODY_PARAM_SERVICE_NAME {
                    assert(self.info@ =~= (DubboInfoModel { service_name: fieldv, ..pre }));
                } else if n == BODY_PARAM_SERVICE_VERSION {
                    assert(self.info@ =~= (DubboInfoModel { service_version: fieldv, ..pre }));
                } else {
                    assert(self.info@ =~= (DubboInfoModel { method_name: fieldv, ..pre }));
                }
            }
            para_index = para_index + para_len;
            if payload_len <= para_index {
                proof {
                    assert(spec_req_body_info(p, info0) == self.info@);
                }
                return ;
            }
            para_tag = payload[para_index];
            para_index = para_index + 1;
            n = n + 1;
        }
        proof {
            assert(spec_req_body_info(p, info0) == self.info@);
        }
    }

    /// Fills the record from a request frame: the header fields and the
    /// best-effort parameter walk over the body.
    fn request(&mut self, payload: &[u8], dubbo_header: &DubboHeader)
        requires
            payload@.len() >= DUBBO_HEADER_LEN,
        ensures
            final(self).msg_type == LogMessageType::Request,
            final(self).status == old(self).status,
            final(self).status_code == old(self).status_code,
            final(self).info@ == spec_req_body_info(
                payload@.skip(DUBBO_HEADER_LEN as int),
                DubboInfoModel {
                    data_type: dubbo_header.data_type,
                    req_msg_size: dubbo_header.data_length,
                    serial_id: dubbo_header.serial_id,
                    request_id: dubbo_header.request_id,
                    ..old(self).info@
                },
            ),
    {
        self.msg_type = LogMessageType::Request;
        self.info.data_type = dubbo_header.data_type;
        self.info.req_msg_size = dubbo_header.data_length;
        self.info.serial_id = dubbo_header.serial_id;
        self.info.request_id = dubbo_header.request_id;
        proof {
            assert(self.info@ =~= (DubboInfoModel {
                data_type: dubbo_header.data_type,
                req_msg_size: dubbo_header.data_length,
                serial_id: dubbo_header.serial_id,
                request_id: dubbo_header.request_id,
                ..old(self).info@
            }));
        }
        let body = vstd::slice::slice_subrange(payload, DUBBO_HEADER_LEN, payload.len());
        proof {
            assert(body@ =~= payload@.skip(DUBBO_HEADER_LEN as int));
        }
        self.get_req_body_info(body);
    }

    /// Classifies a response status code.
    fn set_status(&mut self, status_code: u8)
        ensures
            final(self).status == spec_status_of(status_code),
            final(self).info == old(self).info,
            final(self).status_code == old(self).status_code,
            final(self).msg_type == old(self).msg_type,
    {
        self.status = if status_code == 20 {
            L7ResponseStatus::Success
        } else if status_code == 30 {
            L7ResponseStatus::ClientError
        } else if status_code == 31 {
            L7ResponseStatus::ServerError
        } else if status_code == 40 {
            L7ResponseStatus::ClientError
        } else if status_code == 50 {
            L7ResponseStatus::ServerError
        } else if status_code == 60 {
            L7ResponseStatus::ServerError
        } else if status_code == 70 {
            L7ResponseStatus::ServerError
        } else if status_code == 80 {
            L7ResponseStatus::ServerError
        } else if status_code == 90 {
            L7ResponseStatus::ClientError
        } else if status_code == 100 {
            L7ResponseStatus::ServerError
        } else {
            L7ResponseStatus::Success
        };
    }

    /// Fills the record from a response frame.
    fn response(&mut self, dubbo_header: &DubboHeader)
        ensures
            final(self).msg_type == LogMessageType::Response,
            final(self).status == spec_status_of(dubbo_header.status_code),
            final(self).status_code == dubbo_header.status_code,
            final(self).info@ == (DubboInfoModel {
                data_type: dubbo_header.data_type,
                resp_msg_size: dubbo_header.data_length,
                serial_id: dubbo_header.serial_id,
                request_id: dubbo_header.request_id,
                ..old(self).info@
            }),
    {
        self.msg_type = LogMessageType::Response;
        self.info.data_type = dubbo_header.data_type;
        self.info.resp_msg_size = dubbo_header.data_length;
        self.info.serial_id = dubbo_header.serial_id;
        self.info.request_id = dubbo_header.request_id;
        self.status_code = dubbo_header.status_code;
        self.set_status(dubbo_header.status_code);
        proof {
            assert(self.info@ =~= (DubboInfoModel {
                data_type: dubbo_header.data_type,
                resp_msg_size: dubbo_header.data_length,
                serial_id: dubbo_header.serial_id,
                request_id: dubbo_header.request_id,
                ..old(self).info@
            }));
        }
    }

    /// Decodes one frame: only TCP payloads are considered; a valid header
    /// always parses (the body walk is best-effort), and the direction
    /// decides whether the request parameters or the response status are
    /// read.
    pub fn parse(&mut self, payload: &[u8], proto: IpProtocol, direction: PacketDirection) -> (r:
        Result<AppProtoHead, Error>)
        ensures
            proto != IpProtocol::Tcp ==> r == Err::<AppProtoHead, Error>(Error::InvalidIpProtocol)
                && *final(self) == *old(self),
            proto == IpProtocol::Tcp && !spec_dubbo_header_ok(payload@) ==> r == Err::<
                AppProtoHead,
                Error,
            >(Error::DubboHeaderParseFailed) && final(self).info@ == spec_dubbo_info_reset()
                && final(self).status == old(self).status && final(self).status_code == old(
                self,
            ).status_code && final(self).msg_type == old(self).msg_type,
            proto == IpProtocol::Tcp && spec_dubbo_header_ok(payload@) && direction
                == PacketDirection::ClientToServer ==> ({
                let h = spec_dubbo_header(payload@);
                &&& final(self).msg_type == LogMessageType::Request
                &&& final(self).status == old(self).status
                &&& final(self).status_code == old(self).status_code
                &&& final(self).info@ == spec_req_body_info(
                    payload@.skip(DUBBO_HEADER_LEN as int),
                    DubboInfoModel {
                        data_type: h.data_type,
                        req_msg_size: h.data_length,
                        serial_id: h.serial_id,
                        request_id: h.request_id,
                        ..spec_dubbo_info_reset()
                    },
                )
                &&& r == Ok::<AppProtoHead, Error>(
                    AppProtoHead {
                        proto: L7Protocol::Dubbo,
                        msg_type: LogMessageType::Request,
                        status: old(self).status,
                        code: old(self).status_code as u16,
                        rrt: 0,
                    },
                )
            }),
            proto == IpProtocol::Tcp && spec_dubbo_header_ok(payload@) && direction
                == PacketDirection::ServerToClient ==> ({
                let h = spec_dubbo_header(payload@);
                &&& final(self).msg_type == LogMessageType::Response
                &&& final(self).status == spec_status_of(h.status_code)
                &&& final(self).status_code == h.status_code
                &&& final(self).info@ == (DubboInfoModel {
                    data_type: h.data_type,
                    resp_msg_size: h.data_length,
                    serial_id: h.serial_id,
                    request_id: h.request_id,
                    ..spec_dubbo_info_reset()
                })
                &&& r == Ok::<AppProtoHead, Error>(
                    AppProtoHead {
                        proto: L7Protocol::Dubbo,
                        msg_type: LogMessageType::Response,
                        status: spec_status_of(h.status_code),
                        code: h.status_code as u16,
                        rrt: 0,
                    },
                )
            }),
    {
        if proto != IpProtocol::Tcp {
            return Err(Error::InvalidIpProtocol);
        }
        self.reset_logs();
        let mut dubbo_header = DubboHeader::default();
        match dubbo_header.parse_headers(payload) {
            Ok(_u) => {},
            Err(e) => {
                return Err(e);
            },
        }
        match direction {
            PacketDirection::ClientToServer => {
                self.request(payload, &dubbo_header);
            },
            PacketDirection::ServerToClient => {
                self.response(&dubbo_header);
            },
        }
        Ok(
            AppProtoHead {
                proto: L7Protocol::Dubbo,
                msg_type: self.msg_type,
                status: self.status,
                code: self.status_code as u16,
                rrt: 0,
            },
        )
    }

    /// The decoded record, wrapped for the collector.
    pub fn info(&self) -> (r: AppProtoLogsInfo)
        ensures
            r matches AppProtoLogsInfo::Dubbo(d) && d@ == self.info@,
    {
        AppProtoLogsInfo::Dubbo(clone_dubbo_info(&self.info))
    }
}

/// The flat shape a Dubbo record takes on the flow-log wire: identifiers
/// widened, the strings carried through, and the trace id left empty.
#[derive(Debug, Clone)]
pub struct FlowLogDubboInfo {
    pub serial_id: u32,
    pub kind: u32,
    pub id: u32,
    pub req_body_len: i32,
    pub version: String,
    pub service_name: String,
    pub service_version: String,
    pub method_name: String,
    pub resp_body_len: i32,
    pub trace_id: String,
}

impl FlowLogDubboInfo {
    /// Maps a record to the flow-log shape; the request id is truncated to
    /// the 32 bits the wire carries.
    pub fn from(f: DubboInfo) -> (r: FlowLogDubboInfo)
        ensures
            r.serial_id == f.serial_id as u32,
            r.kind == f.data_type as u32,
            r.id == f.request_id as u32,
            r.req_body_len == f.req_msg_size,
            r.version@ == f.dubbo_version@,
            r.service_name@ == f.service_name@,
            r.service_version@ == f.service_version@,
            r.method_name@ == f.method_name@,
            r.resp_body_len == f.resp_msg_size,
            r.trace_id@ == Seq::<char>::empty(),
    {
        FlowLogDubboInfo {
            serial_id: f.serial_id as u32,
            kind: f.data_type as u32,
            id: #[verifier::truncate] (f.request_id as u32),
            req_body_len: f.req_msg_size,
            version: f.dubbo_version,
            service_name: f.service_name,
            service_version: f.service_version,
            method_name: f.method_name,
            resp_body_len: f.resp_msg_size,
            trace_id: new_string(),
        }
    }
}


} // verus!
