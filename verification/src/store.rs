use vstd::prelude::*;

use crate::model::{Measurement, MeasurementData, Timestamp, MAX_UTC_SECS, MIN_UTC_SECS};

verus! {

/// The UNIX milliseconds of the instant `t`, as `chrono`'s
/// `DateTime::timestamp_millis` counts them:
/// `timestamp() * 1000 + timestamp_subsec_millis()`.
pub open spec fn millis_of(t: Timestamp) -> int {
    t.secs * 1000 + t.nanos / 1_000_000
}

/// The instant that begins the UNIX millisecond `millis`, where `chrono` can
/// represent it.
pub open spec fn timestamp_of_millis(millis: i64) -> Option<Timestamp> {
    let secs = millis as int / 1000;
    if MIN_UTC_SECS <= secs <= MAX_UTC_SECS {
        Some(Timestamp { secs: secs as i64, nanos: ((millis as int % 1000) * 1_000_000) as u32 })
    } else {
        None
    }
}

/// The instant of the UNIX millisecond `millis`, through `chrono`'s
/// `DateTime::<Utc>::from_timestamp_millis`, read back as its
/// `timestamp()` and `timestamp_subsec_nanos()`.
///
/// Trusted: `from_timestamp_millis` splits `millis` with `div_euclid` and
/// `rem_euclid` by 1000 and builds the instant exactly when the whole seconds
/// lie within the dates `chrono` supports (`MIN_UTC_SECS` to `MAX_UTC_SECS`), which
/// `timestamp()` and `timestamp_subsec_nanos()` then return unchanged.
#[verifier::external_body]
fn utc_from_timestamp_millis(millis: i64) -> (r: Option<Timestamp>)
    ensures
        r == timestamp_of_millis(millis),
{
    let instant = chrono::DateTime::from_timestamp_millis(millis)?;
    Some(Timestamp { secs: instant.timestamp(), nanos: instant.timestamp_subsec_nanos() })
}

/// A measurement as the `measurement` table stores it: `at` in UNIX
/// milliseconds (the primary key), temperature and humidity in tenths.
#[derive(Clone, Copy, Debug, PartialEq, Eq, Structural)]
pub struct MeasurementRow {
    pub at: i64,
    pub temperature: i16,
    pub humidity: u16,
}

/// The row stored for `m`: its instant in UNIX milliseconds.
pub open spec fn row_of(m: Measurement) -> MeasurementRow {
    MeasurementRow { at: millis_of(m.at) as i64, temperature: m.temperature, humidity: m.humidity }
}

/// The measurement that `row` describes, where `chrono` can represent its
/// instant.
pub open spec fn measurement_of_row(row: MeasurementRow) -> Option<Measurement> {
    match timestamp_of_millis(row.at) {
        Some(at) => Some(Measurement { at, temperature: row.temperature, humidity: row.humidity }),
        None => None,
    }
}

impl Measurement {
    /// The row stored for this measurement: its instant in UNIX milliseconds
    /// (`DateTime::timestamp_millis`), its values unchanged.
    pub fn to_row(&self) -> (row: MeasurementRow)
        requires
            self.at.valid(),
        ensures
            row == row_of(*self),
            row.temperature == self.temperature,
            row.humidity == self.humidity,
            row.at as int == self.at.secs * 1000 + self.at.nanos / 1_000_000,
            row.at * 1_000_000 <= self.at.secs * 1_000_000_000 + self.at.nanos
                < row.at * 1_000_000 + 1_000_000,
    {
        proof {
            lemma_row_keeps_values(*self);
        }
        let sub_millis = (self.at.nanos / 1_000_000) as i64;
        MeasurementRow {
            at: self.at.secs * 1000 + sub_millis,
            temperature: self.temperature,
            humidity: self.humidity,
        }
    }

    /// The measurement that a stored row describes; `None` where `chrono`
    /// cannot represent the row's instant (more than ca. 262,000 years away).
    pub fn from_row(row: &MeasurementRow) -> (m: Option<Measurement>)
        ensures
            m == measurement_of_row(*row),
            m matches Some(x) ==> {
                &&& x.temperature == row.temperature
                &&& x.humidity == row.humidity
                &&& x.at.valid()
                &&& x.at.nanos < 1_000_000_000
                &&& x.at.secs * 1_000_000_000 + x.at.nanos == row.at * 1_000_000
            },
            m is None <==> !(MIN_UTC_SECS * 1000 <= row.at <= MAX_UTC_SECS * 1000 + 999),
    {
        proof {
            lemma_read_keeps_values(*row);
        }
        match utc_from_timestamp_millis(row.at) {
            Some(at) => Some(Measurement { at, temperature: row.temperature, humidity: row.humidity }),
            None => None,
        }
    }
}

/// A stored row carries the measurement's temperature and humidity
/// unchanged, and its instant is the UNIX millisecond in which the
/// measurement's instant falls (the floor of its nanoseconds by 10^6).
pub proof fn lemma_row_keeps_values(m: Measurement)
    requires
        m.at.valid(),
    ensures
        row_of(m).temperature == m.temperature,
        row_of(m).humidity == m.humidity,
        row_of(m).at as int == m.at.secs * 1000 + m.at.nanos / 1_000_000,
        row_of(m).at * 1_000_000 <= m.at.secs * 1_000_000_000 + m.at.nanos
            < row_of(m).at * 1_000_000 + 1_000_000,
{
    let q = m.at.nanos / 1_000_000;
    assert(q * 1_000_000 <= m.at.nanos < q * 1_000_000 + 1_000_000);
    assert(0 <= q < 2000);
    assert((m.at.secs * 1000 + q) * 1_000_000 == m.at.secs * 1_000_000_000 + q * 1_000_000)
        by (nonlinear_arith);
}

/// A measurement read from a row carries the row's temperature and humidity
/// unchanged, and its instant begins exactly the row's UNIX millisecond; the
/// read succeeds exactly for the milliseconds `chrono` can represent.
pub proof fn lemma_read_keeps_values(row: MeasurementRow)
    ensures
        measurement_of_row(row) matches Some(x) ==> {
            &&& x.temperature == row.temperature
            &&& x.humidity == row.humidity
            &&& x.at.valid()
            &&& x.at.nanos < 1_000_000_000
            &&& x.at.secs * 1_000_000_000 + x.at.nanos == row.at * 1_000_000
        },
        measurement_of_row(row) is None <==> !(MIN_UTC_SECS * 1000 <= row.at <= MAX_UTC_SECS * 1000
            + 999),
{
    let secs = row.at as int / 1000;
    let rem = row.at as int % 1000;
    vstd::arithmetic::div_mod::lemma_fundamental_div_mod(row.at as int, 1000);
    assert(0 <= rem < 1000);
    assert(secs * 1_000_000_000 + rem * 1_000_000 == (secs * 1000 + rem) * 1_000_000)
        by (nonlinear_arith);
    assert(MIN_UTC_SECS <= secs <= MAX_UTC_SECS <==> MIN_UTC_SECS * 1000 <= row.at
        <= MAX_UTC_SECS * 1000 + 999) by {
        if MIN_UTC_SECS <= secs <= MAX_UTC_SECS {
            assert(MIN_UTC_SECS * 1000 <= secs * 1000) by (nonlinear_arith)
                requires MIN_UTC_SECS <= secs;
            assert(secs * 1000 <= MAX_UTC_SECS * 1000) by (nonlinear_arith)
                requires secs <= MAX_UTC_SECS;
        }
    }
}

/// The instant `t` truncated to its millisecond (a leap second's nanoseconds
/// carried into the next second).
pub open spec fn truncated_to_millis(t: Timestamp) -> Timestamp {
    Timestamp {
        secs: (millis_of(t) / 1000) as i64,
        nanos: ((millis_of(t) % 1000) * 1_000_000) as u32,
    }
}

/// What the dashboard reads back of what the station stored: the same values,
/// at the instant of the measurement truncated to its millisecond, for every
/// instant `chrono` can hold but a leap second in its very last second.
pub proof fn lemma_store_then_read(m: Measurement)
    requires
        m.at.valid(),
        m.at.nanos < 1_000_000_000 || m.at.secs < MAX_UTC_SECS,
    ensures
        measurement_of_row(row_of(m)) == Some(Measurement { at: truncated_to_millis(m.at), ..m }),
        m.at.nanos < 1_000_000_000 ==> truncated_to_millis(m.at).secs == m.at.secs,
        m.at.nanos < 1_000_000_000 ==> m.at.nanos - 1_000_000 < truncated_to_millis(m.at).nanos
            <= m.at.nanos,
{
    let q = m.at.nanos / 1_000_000;
    assert(0 <= q < 2000);
    let ms = m.at.secs * 1000 + q;
    if q < 1000 {
        assert(ms / 1000 == m.at.secs && ms % 1000 == q) by {
            vstd::arithmetic::div_mod::lemma_fundamental_div_mod_converse(
                ms,
                1000,
                m.at.secs as int,
                q as int,
            );
        }
    } else {
        assert(ms / 1000 == m.at.secs + 1 && ms % 1000 == q - 1000) by {
            vstd::arithmetic::div_mod::lemma_fundamental_div_mod_converse(
                ms,
                1000,
                m.at.secs + 1,
                q - 1000,
            );
        }
    }
    assert(q * 1_000_000 <= m.at.nanos < q * 1_000_000 + 1_000_000);
}

/// Storing a measurement read from a row gives that row back.
pub proof fn lemma_read_then_store(row: MeasurementRow)
    requires
        measurement_of_row(row) is Some,
    ensures
        measurement_of_row(row).unwrap().at.valid(),
        row_of(measurement_of_row(row).unwrap()) == row,
{
    let secs = row.at as int / 1000;
    let rem = row.at as int % 1000;
    vstd::arithmetic::div_mod::lemma_fundamental_div_mod(row.at as int, 1000);
    assert((rem * 1_000_000) / 1_000_000 == rem) by {
        vstd::arithmetic::div_mod::lemma_fundamental_div_mod_converse(
            rem * 1_000_000,
            1_000_000,
            rem,
            0,
        );
    }
}

/// Storing is idempotent: a measurement read back from the store is stored as
/// the very same row.
pub proof fn lemma_store_read_store(m: Measurement)
    requires
        m.at.valid(),
        m.at.nanos < 1_000_000_000 || m.at.secs < MAX_UTC_SECS,
    ensures
        measurement_of_row(row_of(m)) matches Some(back) && back.at.valid()
            && row_of(back) == row_of(m),
{
    lemma_store_then_read(m);
    lemma_read_then_store(row_of(m));
}

} // verus!

verus! {

/// One aggregated point as the weekly query yields it: the first instant of the
/// minute bucket in UNIX milliseconds and the averaged values.
#[derive(Clone, Copy, Debug)]
pub struct AggregateRecord<V> {
    pub at: i64,
    pub temperature: V,
    pub humidity: V,
}

/// `x / d` rounded toward zero, as Rust's integer division computes it.
pub open spec fn trunc_div(x: int, d: int) -> int
    recommends
        d > 0,
{
    if x >= 0 {
        x / d
    } else {
        -((-x) / d)
    }
}

/// `data` is the plot series of `records`: one point per record, in order,
/// with the record's milliseconds divided by 1000 (rounded toward zero) and
/// the values carried over.
pub open spec fn series_of<V>(records: Seq<AggregateRecord<V>>, data: MeasurementData<V>) -> bool {
    &&& data.well_formed()
    &&& data.spec_len() == records.len()
    &&& forall|i: int|
        0 <= i < records.len() ==> {
            &&& data.timestamp@[i] as int == trunc_div(#[trigger] records[i].at as int, 1000)
            &&& data.temperature@[i] == records[i].temperature
            &&& data.humidity@[i] == records[i].humidity
        }
}

impl<V: Copy> MeasurementData<V> {
    /// The plot series of the aggregated records, in their order: each
    /// timestamp is the record's milliseconds divided by 1000 (rounded toward
    /// zero), the values are carried over unchanged.
    pub fn from_records(records: &[AggregateRecord<V>]) -> (data: Self)
        ensures
            series_of(records@, data),
            forall|i: int|
                0 <= i < records@.len() ==> {
                    let at = #[trigger] records@[i].at as int;
                    let ts = data.timestamp@[i] as int;
                    &&& at >= 0 ==> 0 <= at - ts * 1000 < 1000
                    &&& at < 0 ==> -1000 < at - ts * 1000 <= 0
                },
    {
        let mut data = MeasurementData::with_capacity(records.len());
        let mut i: usize = 0;
        while i < records.len()
            invariant
                i <= records@.len(),
                data.well_formed(),
                data.spec_len() == i,
                forall|j: int|
                    0 <= j < i ==> {
                        &&& data.timestamp@[j] as int == trunc_div(#[trigger] records@[j].at as int, 1000)
                        &&& data.temperature@[j] == records@[j].temperature
                        &&& data.humidity@[j] == records@[j].humidity
                    },
            decreases records@.len() - i,
        {
            let record = records[i];
            data.timestamp.push(record.at / 1_000);
            data.temperature.push(record.temperature);
            data.humidity.push(record.humidity);
            i += 1;
        }
        assert(i == records@.len());
        assert forall|k: int| 0 <= k < records@.len() implies {
            let at = #[trigger] records@[k].at as int;
            let ts = data.timestamp@[k] as int;
            &&& at >= 0 ==> 0 <= at - ts * 1000 < 1000
            &&& at < 0 ==> -1000 < at - ts * 1000 <= 0
        } by {
            lemma_trunc_div_bounds(records@[k].at as int, 1000);
        }
        data
    }
}

/// Division rounding toward zero: the quotient times `d` lies between zero
/// and `x`, less than `d` away from `x`, and it has the sign of `x`.
pub proof fn lemma_trunc_div_bounds(x: int, d: int)
    requires
        d > 0,
    ensures
        x >= 0 ==> 0 <= x - trunc_div(x, d) * d < d,
        x < 0 ==> -d < x - trunc_div(x, d) * d <= 0,
        x >= 0 ==> trunc_div(x, d) >= 0,
        x <= 0 ==> trunc_div(x, d) <= 0,
{
    if x >= 0 {
        vstd::arithmetic::div_mod::lemma_fundamental_div_mod(x, d);
        vstd::arithmetic::div_mod::lemma_div_pos_is_pos(x, d);
        assert(trunc_div(x, d) * d == d * (x / d)) by (nonlinear_arith)
            requires trunc_div(x, d) == x / d;
    } else {
        vstd::arithmetic::div_mod::lemma_fundamental_div_mod(-x, d);
        vstd::arithmetic::div_mod::lemma_div_pos_is_pos(-x, d);
        assert(trunc_div(x, d) * d == -(d * ((-x) / d))) by (nonlinear_arith)
            requires trunc_div(x, d) == -((-x) / d);
    }
}

/// Rounding toward zero keeps the order: a series built from records sorted by
/// instant has non-decreasing timestamps.
pub proof fn lemma_trunc_div_monotonic(x: int, y: int, d: int)
    requires
        d > 0,
        x <= y,
    ensures
        trunc_div(x, d) <= trunc_div(y, d),
{
    if x >= 0 {
        vstd::arithmetic::div_mod::lemma_div_is_ordered(x, y, d);
    } else if y >= 0 {
        vstd::arithmetic::div_mod::lemma_div_pos_is_pos(-x, d);
        vstd::arithmetic::div_mod::lemma_div_pos_is_pos(y, d);
    } else {
        vstd::arithmetic::div_mod::lemma_div_is_ordered(-y, -x, d);
    }
}

/// The plot series of records sorted by instant (as the weekly query returns
/// them, `ORDER BY at ASC`) has non-decreasing timestamps.
pub proof fn lemma_sorted_records_sorted_timestamps<V>(records: Seq<AggregateRecord<V>>, data: MeasurementData<V>)
    requires
        forall|i: int, j: int| 0 <= i <= j < records.len() ==> records[i].at <= records[j].at,
        series_of(records, data),
    ensures
        forall|i: int, j: int| 0 <= i <= j < data.spec_len() ==> data.timestamp@[i] <= data.timestamp@[j],
{
    assert forall|i: int, j: int| 0 <= i <= j < data.spec_len() implies data.timestamp@[i] <= data.timestamp@[j] by {
        lemma_trunc_div_monotonic(records[i].at as int, records[j].at as int, 1000);
        assert(data.timestamp@[i] as int == trunc_div(records[i].at as int, 1000));
        assert(data.timestamp@[j] as int == trunc_div(records[j].at as int, 1000));
    }
}

/// A stored measurement that opens its minute (so the weekly query returns
/// its row's milliseconds as the bucket's instant) appears in the plot series
/// at the UNIX second of its instant, for instants from the epoch on.
pub proof fn lemma_stored_point_in_series<V>(
    m: Measurement,
    records: Seq<AggregateRecord<V>>,
    data: MeasurementData<V>,
    i: int,
)
    requires
        m.at.valid(),
        m.at.nanos < 1_000_000_000,
        0 <= i < records.len(),
        records[i].at == row_of(m).at,
        series_of(records, data),
    ensures
        data.timestamp@[i] as int == trunc_div(millis_of(m.at), 1000),
        m.at.secs >= 0 ==> data.timestamp@[i] == m.at.secs,
{
    assert(data.timestamp@[i] as int == trunc_div(records[i].at as int, 1000));
    let q = m.at.nanos / 1_000_000;
    assert(0 <= q < 1000);
    if m.at.secs >= 0 {
        vstd::arithmetic::div_mod::lemma_fundamental_div_mod_converse(
            millis_of(m.at),
            1000,
            m.at.secs as int,
            q as int,
        );
    }
}

} // verus!
