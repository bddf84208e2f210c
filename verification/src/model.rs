use vstd::prelude::*;

verus! {

/// First second (UNIX time) that `chrono` can represent: the second of
/// `DateTime::<Utc>::MIN_UTC`, -262143-01-01T00:00:00Z.
pub const MIN_UTC_SECS: i64 = -8_334_601_228_800;

/// Last second (UNIX time) that `chrono` can represent: the second of
/// `DateTime::<Utc>::MAX_UTC`, +262142-12-31T23:59:59Z.
pub const MAX_UTC_SECS: i64 = 8_210_266_876_799;

/// An instant in UTC, held as `chrono` holds it: whole seconds since the UNIX
/// epoch and the nanoseconds since that second (from 1_000_000_000 on, the
/// second is a leap second, which only a `:59` second can carry).
#[derive(Clone, Copy, Debug, PartialEq, Eq, Structural)]
pub struct Timestamp {
    pub secs: i64,
    pub nanos: u32,
}

/// `secs` and `nanos` describe an instant that a `DateTime<Utc>` can hold.
pub open spec fn is_utc_instant(secs: i64, nanos: u32) -> bool {
    &&& MIN_UTC_SECS <= secs <= MAX_UTC_SECS
    &&& (nanos < 1_000_000_000 || (nanos < 2_000_000_000 && secs % 60 == 59))
}

/// The instants `chrono` can hold: every second from `MIN_UTC_SECS` to
/// `MAX_UTC_SECS` with any nanosecond below one second, and, on a second
/// ending in :59, a leap second (nanoseconds up to two seconds); nothing else.
pub proof fn lemma_utc_instants(secs: i64, nanos: u32)
    ensures
        MIN_UTC_SECS <= secs <= MAX_UTC_SECS && nanos < 1_000_000_000 ==> is_utc_instant(secs, nanos),
        MIN_UTC_SECS <= secs <= MAX_UTC_SECS && nanos < 2_000_000_000 && secs % 60 == 59
            ==> is_utc_instant(secs, nanos),
        is_utc_instant(secs, nanos) ==> MIN_UTC_SECS <= secs <= MAX_UTC_SECS && nanos < 2_000_000_000,
        is_utc_instant(secs, nanos) && nanos >= 1_000_000_000 ==> secs % 60 == 59,
{
}

impl Timestamp {
    /// The timestamp describes an instant that a `DateTime<Utc>` can hold.
    pub open spec fn valid(self) -> bool {
        is_utc_instant(self.secs, self.nanos)
    }

    /// The instant `secs` seconds and `nanos` nanoseconds after the epoch,
    /// where `chrono` can represent it.
    pub fn new(secs: i64, nanos: u32) -> (t: Option<Timestamp>)
        ensures
            t == (if is_utc_instant(secs, nanos) {
                Some(Timestamp { secs, nanos })
            } else {
                None::<Timestamp>
            }),
            MIN_UTC_SECS <= secs <= MAX_UTC_SECS && nanos < 1_000_000_000 ==> t == Some(
                Timestamp { secs, nanos },
            ),
            t matches Some(x) ==> x.secs == secs && x.nanos == nanos && x.valid(),
            t is None ==> secs < MIN_UTC_SECS || secs > MAX_UTC_SECS || nanos >= 1_000_000_000,
    {
        proof {
            lemma_utc_instants(secs, nanos);
        }
        if secs < MIN_UTC_SECS || secs > MAX_UTC_SECS {
            return None;
        }
        if nanos < 1_000_000_000 || (nanos < 2_000_000_000 && secs.checked_rem_euclid(60) == Some(59)) {
            Some(Timestamp { secs, nanos })
        } else {
            None
        }
    }
}

/// One reading of the sensor.
///
/// `at` is the instant of the reading (UTC). `temperature` is in tenths of a
/// degree Celsius and `humidity` in tenths of a percent of relative humidity,
/// exactly as the transmitter reports them.
#[derive(Clone, Copy, Debug, PartialEq, Eq, Structural)]
pub struct Measurement {
    pub at: Timestamp,
    pub temperature: i16,
    pub humidity: u16,
}

} // verus!

verus! {

/// A transport or protocol failure of a MODBUS exchange (`tokio_modbus::Error`),
/// carried through as an opaque value.
#[verifier::external_type_specification]
#[verifier::external_body]
pub struct ExModbusError(tokio_modbus::Error);

/// An exception code answered by the MODBUS server
/// (`tokio_modbus::ExceptionCode`), carried through as an opaque value.
#[verifier::external_type_specification]
#[verifier::external_body]
pub struct ExModbusExceptionCode(tokio_modbus::ExceptionCode);

/// Why a reading of the sensor failed.
#[derive(Debug)]
pub enum AppError {
    /// The exchange with the transmitter failed (transport or protocol).
    ModbusError(tokio_modbus::Error),
    /// The transmitter answered with a MODBUS exception.
    ModbusExceptionCode(tokio_modbus::ExceptionCode),
}

} // verus!

verus! {

/// Series of measurements for plotting: one timestamp (UNIX seconds), one
/// temperature and one humidity per point, in three parallel vectors.
///
/// The sample type `V` is whatever the store yields for an aggregated value
/// (the dashboard uses per-minute averages).
#[derive(Debug, Clone)]
pub struct MeasurementData<V> {
    pub timestamp: Vec<i64>,
    pub temperature: Vec<V>,
    pub humidity: Vec<V>,
}

impl<V> MeasurementData<V> {
    /// The three series have one entry per point.
    pub open spec fn well_formed(&self) -> bool {
        &&& self.timestamp@.len() == self.temperature@.len()
        &&& self.timestamp@.len() == self.humidity@.len()
    }

    /// Number of points.
    pub open spec fn spec_len(&self) -> nat {
        self.timestamp@.len()
    }

    /// An empty series, with room reserved for `n` points.
    pub fn with_capacity(n: usize) -> (data: Self)
        ensures
            data.well_formed(),
            data.timestamp@ == Seq::<i64>::empty(),
            data.temperature@ == Seq::<V>::empty(),
            data.humidity@ == Seq::<V>::empty(),
    {
        MeasurementData {
            timestamp: Vec::with_capacity(n),
            temperature: Vec::with_capacity(n),
            humidity: Vec::with_capacity(n),
        }
    }
}

} // verus!
