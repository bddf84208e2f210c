use ths::model::{Measurement, MeasurementData, Timestamp, MAX_UTC_SECS, MIN_UTC_SECS};
use ths::store::{AggregateRecord, MeasurementRow};

fn at(secs: i64, nanos: u32) -> Timestamp {
    Timestamp { secs, nanos }
}

fn row(at: i64) -> MeasurementRow {
    MeasurementRow { at, temperature: 0, humidity: 0 }
}

#[test]
fn timestamp_accepts_chrono_instants() {
    assert_eq!(Timestamp::new(1_700_000_000, 123), Some(at(1_700_000_000, 123)));
    assert_eq!(Timestamp::new(MIN_UTC_SECS, 0), Some(at(MIN_UTC_SECS, 0)));
    assert_eq!(Timestamp::new(MAX_UTC_SECS, 999_999_999), Some(at(MAX_UTC_SECS, 999_999_999)));
    assert_eq!(Timestamp::new(MIN_UTC_SECS - 1, 0), None);
    assert_eq!(Timestamp::new(MAX_UTC_SECS + 1, 0), None);
    assert_eq!(Timestamp::new(i64::MAX, 0), None);
}

#[test]
fn timestamp_leap_second_only_at_fifty_nine() {
    assert_eq!(Timestamp::new(59, 1_500_000_000), Some(at(59, 1_500_000_000)));
    assert_eq!(Timestamp::new(-1, 1_000_000_000), Some(at(-1, 1_000_000_000)));
    assert_eq!(Timestamp::new(58, 1_000_000_000), None);
    assert_eq!(Timestamp::new(59, 2_000_000_000), None);
}

#[test]
fn timestamp_agrees_with_chrono() {
    for (secs, nanos) in [
        (0i64, 0u32),
        (59, 1_500_000_000),
        (58, 1_000_000_000),
        (-1, 1_000_000_000),
        (MIN_UTC_SECS, 0),
        (MIN_UTC_SECS - 1, 999_999_999),
        (MAX_UTC_SECS, 1_999_999_999),
        (MAX_UTC_SECS + 1, 0),
    ] {
        assert_eq!(
            Timestamp::new(secs, nanos).is_some(),
            chrono::DateTime::from_timestamp(secs, nanos).is_some(),
            "secs {secs} nanos {nanos}"
        );
    }
}

#[test]
fn row_holds_the_millisecond() {
    let m = Measurement { at: at(1_700_000_000, 123_456_789), temperature: -42, humidity: 613 };
    assert_eq!(
        m.to_row(),
        MeasurementRow { at: 1_700_000_000_123, temperature: -42, humidity: 613 }
    );
}

#[test]
fn row_before_the_epoch() {
    let m = Measurement { at: at(-1, 999_999_999), temperature: 0, humidity: 0 };
    assert_eq!(m.to_row().at, -1);
    let m = Measurement { at: at(-1, 0), temperature: 0, humidity: 0 };
    assert_eq!(m.to_row().at, -1000);
}

#[test]
fn row_agrees_with_chrono_millis() {
    for (secs, nanos) in [
        (1_700_000_000i64, 123_456_789u32),
        (-1, 999_999_999),
        (-1, 1),
        (59, 1_500_000_000),
        (MIN_UTC_SECS, 0),
        (MAX_UTC_SECS, 999_999_999),
    ] {
        let m = Measurement { at: at(secs, nanos), temperature: 0, humidity: 0 };
        let dt = chrono::DateTime::from_timestamp(secs, nanos).unwrap();
        assert_eq!(m.to_row().at, dt.timestamp_millis());
    }
}

#[test]
fn row_is_read_back() {
    let r = MeasurementRow { at: 1_700_000_000_123, temperature: 215, humidity: 480 };
    assert_eq!(
        Measurement::from_row(&r),
        Some(Measurement { at: at(1_700_000_000, 123_000_000), temperature: 215, humidity: 480 })
    );
}

#[test]
fn row_before_the_epoch_is_read_back() {
    assert_eq!(Measurement::from_row(&row(-1)).map(|m| m.at), Some(at(-1, 999_000_000)));
    assert_eq!(Measurement::from_row(&row(-1000)).map(|m| m.at), Some(at(-1, 0)));
}

#[test]
fn row_beyond_2262_is_read_back() {
    assert_eq!(
        Measurement::from_row(&row(9_223_372_036_855)).map(|m| m.at),
        Some(at(9_223_372_036, 855_000_000))
    );
}

#[test]
fn row_at_the_edges_of_chrono() {
    let min = MIN_UTC_SECS * 1000;
    let max = MAX_UTC_SECS * 1000 + 999;
    assert_eq!(Measurement::from_row(&row(min)).map(|m| m.at), Some(at(MIN_UTC_SECS, 0)));
    assert_eq!(Measurement::from_row(&row(min - 1)), None);
    assert_eq!(
        Measurement::from_row(&row(max)).map(|m| m.at),
        Some(at(MAX_UTC_SECS, 999_000_000))
    );
    assert_eq!(Measurement::from_row(&row(max + 1)), None);
    assert_eq!(Measurement::from_row(&row(i64::MAX)), None);
    assert_eq!(Measurement::from_row(&row(i64::MIN)), None);
    for millis in [min - 1, min, max, max + 1, i64::MAX, i64::MIN, 0, -1] {
        assert_eq!(
            Measurement::from_row(&row(millis)).is_some(),
            chrono::DateTime::from_timestamp_millis(millis).is_some()
        );
    }
}

#[test]
fn store_then_read_truncates_to_the_millisecond() {
    let m = Measurement { at: at(1_700_000_000, 123_456_789), temperature: 235, humidity: 500 };
    let back = Measurement::from_row(&m.to_row()).unwrap();
    assert_eq!(back, Measurement { at: at(1_700_000_000, 123_000_000), ..m });
    assert_eq!(back.to_row(), m.to_row());
}

#[test]
fn store_then_read_at_the_earliest_instant() {
    let m = Measurement { at: at(MIN_UTC_SECS, 0), temperature: 1, humidity: 2 };
    assert_eq!(Measurement::from_row(&m.to_row()), Some(m));
}

#[test]
fn store_then_read_a_leap_second() {
    let m = Measurement { at: at(59, 1_500_000_000), temperature: 1, humidity: 2 };
    assert_eq!(m.to_row().at, 60_500);
    let back = Measurement::from_row(&m.to_row()).unwrap();
    assert_eq!(back.at, at(60, 500_000_000));
    assert_eq!(back.to_row(), m.to_row());
}

#[test]
fn read_then_store_keeps_the_row() {
    let r = MeasurementRow { at: -5, temperature: -7, humidity: 1 };
    assert_eq!(Measurement::from_row(&r).unwrap().to_row(), r);
}

#[test]
fn stored_point_appears_in_the_series_at_its_second() {
    let m = Measurement { at: at(1_700_000_042, 987_654_321), temperature: 3, humidity: 4 };
    let records = vec![AggregateRecord { at: m.to_row().at, temperature: 0.3f64, humidity: 0.4f64 }];
    let data = MeasurementData::from_records(&records);
    assert_eq!(data.timestamp, vec![1_700_000_042]);
}

#[test]
fn empty_series_with_capacity() {
    let data: MeasurementData<f64> = MeasurementData::with_capacity(10);
    assert!(data.timestamp.is_empty());
    assert!(data.temperature.is_empty());
    assert!(data.humidity.is_empty());
}

#[test]
fn series_from_records() {
    let records = vec![
        AggregateRecord { at: 1_700_000_000_000, temperature: 21.5f64, humidity: 40.0f64 },
        AggregateRecord { at: 1_700_000_060_999, temperature: 21.75f64, humidity: 40.5f64 },
        AggregateRecord { at: -1_500, temperature: -3.0f64, humidity: 90.0f64 },
    ];
    let data = MeasurementData::from_records(&records);
    assert_eq!(data.timestamp, vec![1_700_000_000, 1_700_000_060, -1]);
    assert_eq!(data.temperature, vec![21.5, 21.75, -3.0]);
    assert_eq!(data.humidity, vec![40.0, 40.5, 90.0]);
}

#[test]
fn sorted_records_give_sorted_timestamps() {
    let records: Vec<AggregateRecord<f64>> = vec![-2_500i64, -999, 0, 999, 1_000, 61_000]
        .into_iter()
        .map(|at| AggregateRecord { at, temperature: 0.0, humidity: 0.0 })
        .collect();
    let data = MeasurementData::from_records(&records);
    assert_eq!(data.timestamp, vec![-2, 0, 0, 0, 1, 61]);
    assert!(data.timestamp.windows(2).all(|w| w[0] <= w[1]));
}

