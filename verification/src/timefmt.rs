use vstd::prelude::*;

verus! {

/// The textual timestamp that `date_time` renders for a microsecond
/// instant; it is a function of the instant alone.
pub uninterp spec fn formatted_east8(ts_micros: u64) -> Seq<char>;

/// Upper bound keeping an instant within the calendar range the formatter
/// accepts (the end of year 9999).
pub const MAX_FORMATTED_MICROS: u64 = 253_402_300_799_999_999;

/// Relies on chrono's DateTime conversion and formatting: renders the
/// microsecond instant in the fixed UTC+8 zone as year, date and time
/// with microseconds. A fixed-offset calendar computation depends on the
/// instant alone, never on the machine's clock or zone.
#[verifier::external_body]
pub fn date_time(ts: u64) -> (r: String)
    requires
        ts <= MAX_FORMATTED_MICROS,
    ensures
        r@ == formatted_east8(ts),
{
    let d = std::time::UNIX_EPOCH + std::time::Duration::from_micros(ts);
    let time = chrono::DateTime::<chrono::Utc>::from(d);
    let china_timezone = chrono::FixedOffset::east_opt(8 * 3600).unwrap();
    time.with_timezone(&china_timezone).format("%Y-%m-%d %H:%M:%S.%6f").to_string()
}

/// The display name of a transport protocol number, as the socket-trace
/// output shows it.
pub open spec fn spec_l4proto_name(protocol: u8) -> Seq<char> {
    if protocol == 6 {
        "TCP"@
    } else if protocol == 17 {
        "UDP"@
    } else {
        ""@
    }
}

pub fn l4proto_name(protocol: u8) -> (r: &'static str)
    ensures
        r@ == spec_l4proto_name(protocol),
{
    if protocol == 6 {
        "TCP"
    } else if protocol == 17 {
        "UDP"
    } else {
        ""
    }
}

} // verus!
