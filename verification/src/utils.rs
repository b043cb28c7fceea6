//! Mapping of raw wire readings to [`LibreCgmData`], the trend table, and
//! small formatting helpers.

use vstd::prelude::*;
use crate::models::client::{LibreCgmData, TrendType};

verus! {

use vstd::string::StringExecFns;

/// The ordered trend table, by index: position 0 and position 6 both hold
/// `NotComputable`; positions 1 through 5 hold the five computable trends.
/// Used in both directions, for index-to-trend and trend-to-index lookups.
pub open spec fn spec_trend_at(i: int) -> TrendType {
    if i == 1 {
        TrendType::SingleDown
    } else if i == 2 {
        TrendType::FortyFiveDown
    } else if i == 3 {
        TrendType::Flat
    } else if i == 4 {
        TrendType::FortyFiveUp
    } else if i == 5 {
        TrendType::SingleUp
    } else {
        TrendType::NotComputable
    }
}

/// The first position of a trend in the trend table.
pub open spec fn spec_trend_index(t: TrendType) -> int {
    match t {
        TrendType::NotComputable => 0,
        TrendType::SingleDown => 1,
        TrendType::FortyFiveDown => 2,
        TrendType::Flat => 3,
        TrendType::FortyFiveUp => 4,
        TrendType::SingleUp => 5,
    }
}

/// The trend a raw trend-arrow index maps to: the table entry for indices
/// inside the table, and `Flat` for a missing or out-of-range index.
pub open spec fn spec_get_trend(trend_arrow: Option<i32>) -> TrendType {
    match trend_arrow {
        Some(a) => if 0 <= a <= 6 {
            spec_trend_at(a as int)
        } else {
            TrendType::Flat
        },
        None => TrendType::Flat,
    }
}

/// Converts a raw trend-arrow index to a trend. Returns `Flat` if the index
/// is missing or out of range.
pub fn get_trend(trend_arrow: Option<i32>) -> (t: TrendType)
    ensures
        t == spec_get_trend(trend_arrow),
{
    match trend_arrow {
        Some(0) => TrendType::NotComputable,
        Some(1) => TrendType::SingleDown,
        Some(2) => TrendType::FortyFiveDown,
        Some(3) => TrendType::Flat,
        Some(4) => TrendType::FortyFiveUp,
        Some(5) => TrendType::SingleUp,
        Some(6) => TrendType::NotComputable,
        _ => TrendType::Flat,
    }
}

/// The first position of a trend in the trend table; always between 0 and 5.
pub fn trend_index(t: TrendType) -> (i: usize)
    ensures
        i == spec_trend_index(t),
        i <= 5,
{
    match t {
        TrendType::NotComputable => 0,
        TrendType::SingleDown => 1,
        TrendType::FortyFiveDown => 2,
        TrendType::Flat => 3,
        TrendType::FortyFiveUp => 4,
        TrendType::SingleUp => 5,
    }
}

/// The fields of a raw wire reading that the mapping reads: timestamp text,
/// value in mg/dL, the high/low flags, and an optional trend-arrow index.
/// Both wire record shapes (with mandatory and with optional trend indicator)
/// convert into this one.
#[derive(Debug, Clone, PartialEq, Eq)]
pub struct RawReading {
    /// Factory timestamp of the reading, as the service sends it
    pub factory_timestamp: String,
    /// Glucose value in mg/dL
    pub value: u32,
    /// Whether the value is above the target high
    pub is_high: bool,
    /// Whether the value is below the target low
    pub is_low: bool,
    /// Trend arrow index (0-6), if the record carries one
    pub trend_arrow: Option<i32>,
}

/// The instant a factory timestamp denotes, in milliseconds since the Unix
/// epoch, or `None` where the text is not a readable timestamp. The result
/// depends on the text alone.
pub uninterp spec fn parsed_utc_millis(s: Seq<char>) -> Option<i64>;

/// Relies on chrono: `str::parse::<DateTime<Utc>>` on the text with a
/// `" UTC"` suffix appended, then `DateTime::timestamp_millis`. The parse is
/// documented to depend on the string alone, and fails exactly where the
/// text is not a readable timestamp.
#[verifier::external_body]
fn parse_utc_millis(s: &str) -> (r: Option<i64>)
    ensures
        r == parsed_utc_millis(s@),
{
    format!("{} UTC", s)
        .parse::<chrono::DateTime<chrono::Utc>>()
        .ok()
        .map(|d| d.timestamp_millis())
}

/// Relies on chrono's `Utc::now`. The value depends on the clock, so nothing
/// is assumed of it.
#[verifier::external_body]
fn now_utc_millis() -> i64 {
    chrono::Utc::now().timestamp_millis()
}

/// How a processed reading relates to the raw wire reading it came from: the
/// value and the flags carry over unchanged, the trend comes from the trend
/// table, and the timestamp is the parsed factory timestamp. (Where the text
/// does not parse, the timestamp is the instant of the conversion, of which
/// nothing further is said.)
pub open spec fn spec_mapped(item: RawReading, out: LibreCgmData) -> bool {
    &&& out.value == item.value
    &&& out.is_high == item.is_high
    &&& out.is_low == item.is_low
    &&& out.trend == spec_get_trend(item.trend_arrow)
    &&& (parsed_utc_millis(item.factory_timestamp@) matches Some(t) ==> out.date == t)
}

/// Converts a raw wire reading into a processed reading. The value and the
/// flags carry over unchanged; the trend comes from the trend table; the
/// timestamp is the parsed factory timestamp, with the current instant as
/// fallback where the text does not parse.
pub fn map_glucose_data(item: &RawReading) -> (r: LibreCgmData)
    ensures
        spec_mapped(*item, r),
{
    let date = match parse_utc_millis(item.factory_timestamp.as_str()) {
        Some(d) => d,
        None => now_utc_millis(),
    };
    LibreCgmData {
        value: item.value,
        is_high: item.is_high,
        is_low: item.is_low,
        trend: get_trend(item.trend_arrow),
        date,
    }
}

/// The decimal digit character for a value below ten.
pub open spec fn spec_dec_digit(d: int) -> char {
    if d == 0 {
        '0'
    } else if d == 1 {
        '1'
    } else if d == 2 {
        '2'
    } else if d == 3 {
        '3'
    } else if d == 4 {
        '4'
    } else if d == 5 {
        '5'
    } else if d == 6 {
        '6'
    } else if d == 7 {
        '7'
    } else if d == 8 {
        '8'
    } else {
        '9'
    }
}

/// The decimal rendering of a natural number, most significant digit first.
pub open spec fn spec_dec(n: nat) -> Seq<char>
    decreases n,
{
    if n < 10 {
        seq![spec_dec_digit(n as int)]
    } else {
        spec_dec(n / 10) + seq![spec_dec_digit((n % 10) as int)]
    }
}

/// The decimal digit character for a value below ten, as a one-character text.
fn dec_digit_str(d: u64) -> (r: &'static str)
    requires
        d < 10,
    ensures
        r@ == seq![spec_dec_digit(d as int)],
{
    proof {
        reveal_strlit("0");
        reveal_strlit("1");
        reveal_strlit("2");
        reveal_strlit("3");
        reveal_strlit("4");
        reveal_strlit("5");
        reveal_strlit("6");
        reveal_strlit("7");
        reveal_strlit("8");
        reveal_strlit("9");
    }
    match d {
        0 => "0",
        1 => "1",
        2 => "2",
        3 => "3",
        4 => "4",
        5 => "5",
        6 => "6",
        7 => "7",
        8 => "8",
        _ => "9",
    }
}

/// Renders a number in decimal.
pub fn u64_to_dec(n: u64) -> (r: String)
    ensures
        r@ == spec_dec(n as nat),
    decreases n,
{
    if n < 10 {
        let digit = dec_digit_str(n);
        digit.to_owned()
    } else {
        let mut s = u64_to_dec(n / 10);
        s.append(dec_digit_str(n % 10));
        s
    }
}

} // verus!
