//! Window deduplication and averaging, and the raw-reading conversion.

use libre_link_up_api_client::utils::{get_trend, map_glucose_data, u64_to_dec, RawReading};
use libre_link_up_api_client::window::AveragingWindow;
use libre_link_up_api_client::{LibreCgmData, TrendType};

fn reading(value: u32, trend: TrendType, date: i64) -> LibreCgmData {
    LibreCgmData {
        value,
        is_high: false,
        is_low: false,
        trend,
        date,
    }
}

#[test]
fn window_of_three_averages_value_and_trend() {
    let mut w = AveragingWindow::new(3);
    assert!(w.tick(&reading(100, TrendType::Flat, 1)).is_none());
    assert!(w.tick(&reading(110, TrendType::Flat, 2)).is_none());
    let current = LibreCgmData {
        value: 120,
        is_high: true,
        is_low: false,
        trend: TrendType::FortyFiveUp,
        date: 3,
    };
    let (averaged, consumed) = w.tick(&current).expect("window is full");
    // mean of {100, 110, 120}; trend indices (3 + 3 + 4) / 3 round to 3: Flat
    assert_eq!(averaged.value, 110);
    assert_eq!(averaged.trend, TrendType::Flat);
    // flags and timestamp come from the tick's current reading
    assert!(averaged.is_high);
    assert!(!averaged.is_low);
    assert_eq!(averaged.date, 3);
    // the consumed window comes back whole, and the window is empty again
    assert_eq!(consumed.len(), 3);
    assert_eq!(consumed[0].value, 100);
    assert_eq!(consumed[2].value, 120);
    assert_eq!(w.readings.len(), 0);
}

#[test]
fn identical_timestamps_never_grow_the_window() {
    let mut w = AveragingWindow::new(3);
    let r = reading(105, TrendType::Flat, 42);
    for _ in 0..5 {
        // every tick returns a reading with the same timestamp
        assert!(w.tick(&r).is_none());
        assert_eq!(w.readings.len(), 1);
    }
    // one distinct timestamp seen: the window holds one reading
    assert_eq!(w.readings.len(), 1);
}

#[test]
fn window_length_never_exceeds_distinct_timestamps() {
    let mut w = AveragingWindow::new(10);
    let dates: [i64; 7] = [1, 1, 2, 2, 2, 3, 1];
    for (k, d) in dates.iter().enumerate() {
        w.tick(&reading(100 + k as u32, TrendType::Flat, *d));
    }
    // three distinct timestamps were offered
    assert_eq!(w.readings.len(), 3);
}

#[test]
fn rounding_is_to_the_nearest_integer() {
    let mut w = AveragingWindow::new(2);
    assert!(w.tick(&reading(100, TrendType::Flat, 1)).is_none());
    let (averaged, _) = w.tick(&reading(101, TrendType::Flat, 2)).unwrap();
    // mean 100.5 rounds up
    assert_eq!(averaged.value, 101);

    let mut w = AveragingWindow::new(2);
    assert!(w.tick(&reading(100, TrendType::SingleDown, 1)).is_none());
    let (averaged, _) = w.tick(&reading(102, TrendType::SingleUp, 2)).unwrap();
    assert_eq!(averaged.value, 101);
    // trend indices (1 + 5) / 2 = 3: Flat
    assert_eq!(averaged.trend, TrendType::Flat);
}

#[test]
fn window_refills_after_delivery() {
    let mut w = AveragingWindow::new(2);
    assert!(w.tick(&reading(100, TrendType::Flat, 1)).is_none());
    assert!(w.tick(&reading(110, TrendType::Flat, 2)).is_some());
    assert_eq!(w.readings.len(), 0);
    assert!(w.tick(&reading(120, TrendType::Flat, 3)).is_none());
    assert_eq!(w.readings.len(), 1);
    let (averaged, consumed) = w.tick(&reading(130, TrendType::Flat, 4)).unwrap();
    assert_eq!(averaged.value, 125);
    assert_eq!(consumed.len(), 2);
}

#[test]
fn trend_table_maps_indices_both_ways() {
    assert_eq!(get_trend(Some(0)), TrendType::NotComputable);
    assert_eq!(get_trend(Some(1)), TrendType::SingleDown);
    assert_eq!(get_trend(Some(2)), TrendType::FortyFiveDown);
    assert_eq!(get_trend(Some(3)), TrendType::Flat);
    assert_eq!(get_trend(Some(4)), TrendType::FortyFiveUp);
    assert_eq!(get_trend(Some(5)), TrendType::SingleUp);
    assert_eq!(get_trend(Some(6)), TrendType::NotComputable);
    // missing or out-of-range indices fall back to Flat
    assert_eq!(get_trend(None), TrendType::Flat);
    assert_eq!(get_trend(Some(7)), TrendType::Flat);
    assert_eq!(get_trend(Some(-1)), TrendType::Flat);
}

#[test]
fn raw_reading_maps_fields_and_parses_the_timestamp() {
    let raw = RawReading {
        factory_timestamp: String::from("2023-01-01 12:00:00"),
        value: 117,
        is_high: false,
        is_low: true,
        trend_arrow: Some(4),
    };
    let mapped = map_glucose_data(&raw);
    assert_eq!(mapped.value, 117);
    assert!(!mapped.is_high);
    assert!(mapped.is_low);
    assert_eq!(mapped.trend, TrendType::FortyFiveUp);
    assert_eq!(mapped.date, 1_672_574_400_000);
}

#[test]
fn unreadable_timestamp_falls_back_to_the_current_instant() {
    let raw = RawReading {
        factory_timestamp: String::from("not a timestamp"),
        value: 90,
        is_high: false,
        is_low: false,
        trend_arrow: None,
    };
    let mapped = map_glucose_data(&raw);
    assert_eq!(mapped.value, 90);
    assert_eq!(mapped.trend, TrendType::Flat);
    // the fallback instant is recent, in particular past the year 2020
    assert!(mapped.date > 1_577_836_800_000);
}

#[test]
fn decimal_rendering() {
    assert_eq!(u64_to_dec(0), "0");
    assert_eq!(u64_to_dec(7), "7");
    assert_eq!(u64_to_dec(404), "404");
    assert_eq!(u64_to_dec(18_446_744_073_709_551_615), "18446744073709551615");
}
