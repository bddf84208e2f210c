use chrono::DurationRound;
use vstd::prelude::*;

verus! {

/// Default sampling period of the station, in seconds.
pub const DEFAULT_PERIOD_SECS: u64 = 5;

/// The smallest multiple of `span` that is not below `stamp` (for `span > 0`).
pub open spec fn ceil_to_multiple(stamp: int, span: int) -> int
    recommends
        span > 0,
{
    if stamp % span == 0 {
        stamp
    } else {
        stamp - stamp % span + span
    }
}

/// The wait from `stamp` to the next multiple of `span` (zero on the grid).
pub open spec fn wait_to_multiple(stamp: int, span: int) -> int
    recommends
        span > 0,
{
    if stamp % span == 0 {
        0
    } else {
        span - stamp % span
    }
}

/// The wait, in nanoseconds, from the instant `stamp` (nanoseconds since the
/// epoch) to that instant rounded up to a multiple of `span` nanoseconds,
/// through `chrono`'s `DurationRound::duration_round_up` on a `DateTime<Utc>`
/// and the difference of the two `DateTime`s.
///
/// Trusted: for a positive span the rounding yields the smallest multiple of
/// `span` at or after `stamp` (its source computes it from `stamp % span`), so
/// the difference is `wait_to_multiple(stamp, span)`, which is below `span`
/// and fits in `i64` nanoseconds; a span that is not positive is refused by
/// `chrono` (`RoundingError::DurationExceedsLimit`).
#[verifier::external_body]
fn round_up_wait(stamp: i64, span: i64) -> (r: Option<i64>)
    ensures
        span > 0 ==> r == Some(wait_to_multiple(stamp as int, span as int) as i64),
        span <= 0 ==> r is None,
{
    let now = chrono::DateTime::from_timestamp_nanos(stamp);
    let next = now.duration_round_up(chrono::TimeDelta::nanoseconds(span)).ok()?;
    (next - now).num_nanoseconds()
}

/// How long to wait from `now` (nanoseconds since the epoch, UTC) until the
/// next instant that is a whole multiple of `period` nanoseconds, so that
/// measurements are taken on a fixed grid (every 5 s at :00, :05, ...).
/// An instant already on the grid waits zero. The period must be positive and
/// at most `i64::MAX` nanoseconds, as `chrono` needs for the rounding.
pub fn duration_to_next(now: i64, period: u64) -> (r: u64)
    requires
        0 < period <= i64::MAX,
    ensures
        r as int == wait_to_multiple(now as int, period as int),
        r as int == ceil_to_multiple(now as int, period as int) - now,
        r < period,
        (now + r) % (period as int) == 0,
{
    proof {
        lemma_ceil_to_multiple(now as int, period as int);
    }
    match round_up_wait(now, period as i64) {
        Some(wait) => wait as u64,
        None => 0,
    }
}

/// The rounded-up instant lies on the grid and less than one span after `stamp`.
pub proof fn lemma_ceil_to_multiple(stamp: int, span: int)
    requires
        span > 0,
    ensures
        stamp <= ceil_to_multiple(stamp, span) < stamp + span,
        ceil_to_multiple(stamp, span) % span == 0,
{
    vstd::arithmetic::div_mod::lemma_fundamental_div_mod(stamp, span);
    if stamp % span != 0 {
        vstd::arithmetic::div_mod::lemma_mod_multiples_basic(stamp / span + 1, span);
        assert(ceil_to_multiple(stamp, span) == span * (stamp / span + 1)) by (nonlinear_arith)
            requires
                stamp == span * (stamp / span) + stamp % span,
                ceil_to_multiple(stamp, span) == stamp - stamp % span + span,
        ;
        assert((stamp / span + 1) * span == span * (stamp / span + 1)) by (nonlinear_arith);
    }
}

} // verus!
