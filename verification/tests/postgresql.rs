use flowcore::perf::{L7PerfCache, L7PerfStats, ParseParam, L7_RRT_CACHE_CAPACITY};
use flowcore::postgresql::{
    encode_simple_query, L7ProtocolSendLog, PostgreInfo, PostgresqlLog,
};
use flowcore::types::{L7ResponseStatus, PacketDirection};

fn pg_block(tag: u8, body: &[u8]) -> Vec<u8> {
    let mut v = Vec::new();
    v.push(tag);
    let len = (body.len() + 4) as u32;
    v.extend_from_slice(&len.to_be_bytes());
    v.extend_from_slice(body);
    v
}

fn check_and_parse(
    req_body_tag: u8,
    req_body: &[u8],
    resp_body: &[u8],
    rrt: u64,
) -> (PostgreInfo, L7PerfStats) {
    let req_payload = pg_block(req_body_tag, req_body);
    let resp_payload = pg_block(b'C', resp_body);
    check_and_parse_raw(&req_payload, &resp_payload, rrt)
}

fn check_and_parse_raw(
    req_payload: &[u8],
    resp_payload: &[u8],
    rrt: u64,
) -> (PostgreInfo, L7PerfStats) {
    let mut cache = L7PerfCache::new(L7_RRT_CACHE_CAPACITY);
    let mut parser = PostgresqlLog::default();

    let req_param = ParseParam {
        direction: PacketDirection::ClientToServer,
        time: 1_000_000,
        flow_id: 1,
        is_tls: false,
    };
    assert_eq!(
        parser.check_payload(req_payload, &req_param, &mut cache),
        true
    );
    let mut info = parser
        .parse_payload(req_payload, &req_param, &mut cache)
        .unwrap();
    let mut req = info.swap_remove(0);

    parser.reset();

    let resp_param = ParseParam {
        direction: PacketDirection::ServerToClient,
        time: 1_000_000 + rrt,
        flow_id: 1,
        is_tls: false,
    };
    assert_eq!(
        parser.check_payload(resp_payload, &resp_param, &mut cache),
        false
    );
    let resp = parser
        .parse_payload(resp_payload, &resp_param, &mut cache)
        .unwrap()
        .swap_remove(0);

    req.merge_log(&resp).unwrap();
    (req, parser.perf_stats.unwrap())
}

#[test]
fn test_simple_query() {
    let (info, perf) = check_and_parse(b'Q', b"delete  from test;\0", b"DELETE 1\0", 2224);
    assert_eq!(info.affected_rows, 1);
    assert_eq!(info.req_type, 'Q');
    assert_eq!(info.context.as_str(), "delete  from test;");
    assert_eq!(info.resp_type, 'C');
    assert_eq!(info.resp_type, 'C');
    assert_eq!(
        perf,
        L7PerfStats {
            request_count: 1,
            response_count: 1,
            err_client_count: 0,
            err_server_count: 0,
            err_timeout: 0,
            rrt_count: 1,
            rrt_sum: 2224,
            rrt_max: 2224,
        }
    );
}

#[test]
fn test_prepare_stmt() {
    let (info, perf) = check_and_parse(
        b'P',
        b"\0delete from test where id=$1 returning id\0\0\0",
        b"DELETE 0\0",
        477,
    );
    assert_eq!(info.affected_rows, 0);
    assert_eq!(info.req_type, 'P');
    assert_eq!(
        info.context.as_str(),
        "delete from test where id=$1 returning id"
    );
    assert_eq!(info.resp_type, 'C');

    assert_eq!(
        perf,
        L7PerfStats {
            request_count: 1,
            response_count: 1,
            err_client_count: 0,
            err_server_count: 0,
            err_timeout: 0,
            rrt_count: 1,
            rrt_sum: 477,
            rrt_max: 477,
        }
    );
}

#[test]
fn test_error() {
    let req_payload = pg_block(b'Q', b"asdsdfdsf;\0");
    let resp_payload = pg_block(b'E', b"SERROR\0Mmessage\0C42601\0Mfurther detail\0");
    let (info, perf) = check_and_parse_raw(&req_payload, &resp_payload, 103);
    assert_eq!(info.req_type, 'Q');
    assert_eq!(info.context.as_str(), "asdsdfdsf;");
    assert_eq!(info.resp_type, 'E');
    assert_eq!(info.result.as_str(), "42601");
    assert_eq!(info.error_message.as_str(), "syntax_error",);

    assert_eq!(
        perf,
        L7PerfStats {
            request_count: 1,
            response_count: 1,
            err_client_count: 1,
            err_server_count: 0,
            err_timeout: 0,
            rrt_count: 1,
            rrt_sum: 103,
            rrt_max: 103,
        }
    );
}

#[test]
fn ssl_request_sentinel() {
    let payload: [u8; 8] = [0x00, 0x00, 0x00, 0x08, 0x04, 0xd2, 0x16, 0x2f];
    let mut cache = L7PerfCache::new(L7_RRT_CACHE_CAPACITY);
    let mut parser = PostgresqlLog::default();
    let param = ParseParam {
        direction: PacketDirection::ClientToServer,
        time: 5,
        flow_id: 9,
        is_tls: false,
    };
    assert_eq!(parser.check_payload(&payload, &param, &mut cache), true);
    let infos = parser.parse_payload(&payload, &param, &mut cache).unwrap();
    assert!(infos.is_empty());
}

#[test]
fn simple_query_encode_round_trip() {
    let query = b"select * from t;";
    let payload = encode_simple_query(query);
    let mut cache = L7PerfCache::new(L7_RRT_CACHE_CAPACITY);
    let mut parser = PostgresqlLog::default();
    let param = ParseParam {
        direction: PacketDirection::ClientToServer,
        time: 77,
        flow_id: 3,
        is_tls: false,
    };
    assert!(parser.check_payload(&payload, &param, &mut cache));
    let infos = parser.parse_payload(&payload, &param, &mut cache).unwrap();
    assert_eq!(infos.len(), 1);
    assert_eq!(infos[0].context.as_str(), "select * from t;");
    assert_eq!(infos[0].req_type, 'Q');
}

#[test]
fn lossy_context_replaces_invalid_bytes() {
    // a query with an invalid UTF-8 byte must not come back unchanged
    let body = [b's', b'e', b'l', b'e', b'c', b't', b' ', 0xff, 0x00];
    let payload = pg_block(b'Q', &body);
    let mut cache = L7PerfCache::new(L7_RRT_CACHE_CAPACITY);
    let mut parser = PostgresqlLog::default();
    let param = ParseParam {
        direction: PacketDirection::ClientToServer,
        time: 1,
        flow_id: 4,
        is_tls: false,
    };
    assert!(parser.check_payload(&payload, &param, &mut cache));
    let infos = parser.parse_payload(&payload, &param, &mut cache).unwrap();
    assert_eq!(infos[0].context.as_str(), "select \u{fffd}");
}

#[test]
fn unknown_request_tag_is_refused() {
    let payload = pg_block(b'@', b"whatever\0");
    let mut cache = L7PerfCache::new(L7_RRT_CACHE_CAPACITY);
    let mut parser = PostgresqlLog::default();
    let param = ParseParam {
        direction: PacketDirection::ClientToServer,
        time: 1,
        flow_id: 5,
        is_tls: false,
    };
    assert_eq!(parser.check_payload(&payload, &param, &mut cache), false);
    let r = parser.parse_payload(&payload, &param, &mut cache);
    assert!(matches!(r, Err(flowcore::error::Error::L7ProtocolUnknown)));
}

#[test]
fn send_log_mapping() {
    let (info, _perf) = check_and_parse(b'Q', b"delete  from test;\0", b"DELETE 7\0", 10);
    let log = L7ProtocolSendLog::from(info);
    assert_eq!(log.row_effect, 7);
    assert_eq!(log.req.req_type.as_str(), "simple_query");
    assert_eq!(log.req.resource.as_str(), "delete  from test;");
    assert_eq!(log.resp.status, L7ResponseStatus::Success);
}

#[test]
fn truncated_insert_tag_still_parses() {
    let payload = pg_block(b'C', b"INSERT\0");
    let mut cache = L7PerfCache::new(L7_RRT_CACHE_CAPACITY);
    let mut parser = PostgresqlLog::default();
    let param = ParseParam {
        direction: PacketDirection::ServerToClient,
        time: 1,
        flow_id: 6,
        is_tls: false,
    };
    let infos = parser.parse_payload(&payload, &param, &mut cache).unwrap();
    assert_eq!(infos.len(), 1);
    assert_eq!(infos[0].resp_type, 'C');
    assert_eq!(infos[0].affected_rows, 0);
}

#[test]
fn insert_rows_parsed() {
    let payload = pg_block(b'C', b"INSERT 0 42\0");
    let mut cache = L7PerfCache::new(L7_RRT_CACHE_CAPACITY);
    let mut parser = PostgresqlLog::default();
    let param = ParseParam {
        direction: PacketDirection::ServerToClient,
        time: 1,
        flow_id: 6,
        is_tls: false,
    };
    let infos = parser.parse_payload(&payload, &param, &mut cache).unwrap();
    assert_eq!(infos[0].affected_rows, 42);
    assert_eq!(infos[0].status, L7ResponseStatus::Success);
}

#[test]
fn empty_payload_is_refused() {
    let mut cache = L7PerfCache::new(L7_RRT_CACHE_CAPACITY);
    let mut parser = PostgresqlLog::default();
    let param = ParseParam {
        direction: PacketDirection::ClientToServer,
        time: 1,
        flow_id: 8,
        is_tls: false,
    };
    assert_eq!(parser.check_payload(&[], &param, &mut cache), false);
    let r = parser.parse_payload(&[], &param, &mut cache);
    assert!(matches!(r, Err(flowcore::error::Error::L7ProtocolUnknown)));
}

#[test]
fn failed_parse_rolls_back() {
    // a valid simple-query block followed by an unknown tag: the parse
    // fails, and neither the record nor the counters keep any trace
    let mut payload = encode_simple_query(b"select 1;");
    payload.extend_from_slice(&pg_block(b'@', b"junk\0"));
    let mut cache = L7PerfCache::new(L7_RRT_CACHE_CAPACITY);
    let mut parser = PostgresqlLog::default();
    let param = ParseParam {
        direction: PacketDirection::ClientToServer,
        time: 9,
        flow_id: 11,
        is_tls: false,
    };
    assert_eq!(parser.check_payload(&payload, &param, &mut cache), false);
    assert_eq!(parser.perf_stats, Some(L7PerfStats::default()));
    assert!(parser.info.ignore);
    assert_eq!(parser.info.req_type, '\0');
    assert_eq!(parser.info.context.as_str(), "");

    let r = parser.parse_payload(&payload, &param, &mut cache);
    assert!(matches!(r, Err(flowcore::error::Error::L7ProtocolUnknown)));
    assert_eq!(parser.perf_stats, Some(L7PerfStats::default()));
    assert_eq!(parser.info.context.as_str(), "");
}
