use flowcore::jenkins64;
use flowcore::perf::{L7PerfCache, L7PerfStats};
use flowcore::postgre_convert::{get_code_desc, get_request_str};
use flowcore::sql_check::is_postgresql;
use flowcore::strutil::{find_byte, from_utf8_lossy, parse_u64_or_zero, read_u32_be, read_u64_be};
use flowcore::timefmt::{date_time, l4proto_name};
use flowcore::types::{L7ResponseStatus, LogMessageType, TapPort};

#[test]
fn jenkins64_mixes() {
    // the scrambled halves must differ from the inputs for the key to
    // spread across buckets
    assert_ne!(jenkins64(0), 0);
    assert_eq!(jenkins64(1), jenkins64(1));
    assert_ne!(jenkins64(1), jenkins64(2));
}

#[test]
fn big_endian_readers() {
    assert_eq!(read_u32_be(&[0x12, 0x34, 0x56, 0x78]), 0x12345678);
    assert_eq!(
        read_u64_be(&[0, 0, 0, 8, 0x04, 0xd2, 0x16, 0x2f]),
        34440615471
    );
}

#[test]
fn find_byte_scans_from_offset() {
    let data = [1u8, 0, 2, 0, 3];
    assert_eq!(find_byte(&data, 0, 0), Some(1));
    assert_eq!(find_byte(&data, 2, 0), Some(3));
    assert_eq!(find_byte(&data, 4, 0), None);
    assert_eq!(find_byte(&data, 0, 9), None);
}

#[test]
fn parse_u64_rules() {
    assert_eq!(parse_u64_or_zero(b"42"), 42);
    assert_eq!(parse_u64_or_zero(b"+7"), 7);
    assert_eq!(parse_u64_or_zero(b""), 0);
    assert_eq!(parse_u64_or_zero(b"12a"), 0);
    assert_eq!(parse_u64_or_zero(b"18446744073709551615"), u64::MAX);
    assert_eq!(parse_u64_or_zero(b"18446744073709551616"), 0);
}

#[test]
fn lossy_decoding() {
    assert_eq!(from_utf8_lossy(b"plain").as_str(), "plain");
    assert_eq!(from_utf8_lossy(&[0xff]).as_str(), "\u{fffd}");
    assert_eq!(from_utf8_lossy(b"").as_str(), "");
}

#[test]
fn sql_keyword_heuristic() {
    assert!(is_postgresql(b"delete from t where id=$1"));
    assert!(is_postgresql(b"SELECT 1"));
    assert!(is_postgresql(b"rollback"));
    assert!(!is_postgresql(b"hello world"));
    assert!(!is_postgresql(b""));
    assert!(!is_postgresql(b"selectx 1"));
}

#[test]
fn code_desc_table() {
    let (desc, status) = get_code_desc(b"42601");
    assert_eq!(desc, "syntax_error");
    assert_eq!(status, L7ResponseStatus::ClientError);
    let (desc, status) = get_code_desc(b"53200");
    assert_eq!(desc, "out_of_memory");
    assert_eq!(status, L7ResponseStatus::ServerError);
    let (desc, status) = get_code_desc(b"00000");
    assert_eq!(desc, "unknown_error");
    assert_eq!(status, L7ResponseStatus::ServerError);
}

#[test]
fn request_str_names() {
    assert_eq!(get_request_str('Q'), "simple_query");
    assert_eq!(get_request_str('P'), "prepared");
    assert_eq!(get_request_str('X'), "");
}

#[test]
fn date_time_renders_east8() {
    assert_eq!(date_time(0).as_str(), "1970-01-01 08:00:00.000000");
    assert_eq!(date_time(1_500_000).as_str(), "1970-01-01 08:00:01.500000");
}

#[test]
fn l4proto_names() {
    assert_eq!(l4proto_name(6), "TCP");
    assert_eq!(l4proto_name(17), "UDP");
    assert_eq!(l4proto_name(1), "");
}

#[test]
fn tap_port_split_fields() {
    let p = TapPort {
        port: 0x0000_2a01_0000_0064,
    };
    let (index, kind, rest) = p.split_fields();
    assert_eq!(index, 100);
    assert_eq!(kind, 0x01);
    assert_eq!(rest, 0x2a);
}

#[test]
fn rrt_cache_pairs_and_evicts() {
    let mut cache = L7PerfCache::new(2);
    let rrt = cache.cal_rrt(1, None, LogMessageType::Request, 100);
    assert_eq!(rrt, None);
    let rrt = cache.cal_rrt(1, None, LogMessageType::Response, 130);
    assert_eq!(rrt, Some(30));
    // consumed: a second response finds nothing
    let rrt = cache.cal_rrt(1, None, LogMessageType::Response, 150);
    assert_eq!(rrt, None);

    // a full cache evicts its oldest pending request
    cache.cal_rrt(1, None, LogMessageType::Request, 10);
    cache.cal_rrt(2, None, LogMessageType::Request, 20);
    cache.cal_rrt(3, None, LogMessageType::Request, 30);
    assert_eq!(cache.cal_rrt(1, None, LogMessageType::Response, 40), None);
    assert_eq!(
        cache.cal_rrt(3, None, LogMessageType::Response, 40),
        Some(10)
    );
}

#[test]
fn perf_stats_update_rrt() {
    let mut stats = L7PerfStats::default();
    stats.update_rrt(10);
    stats.update_rrt(30);
    assert_eq!(stats.rrt_count, 2);
    assert_eq!(stats.rrt_sum, 40);
    assert_eq!(stats.rrt_max, 30);
}
