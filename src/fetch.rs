use chrono::{DateTime, Datelike, DurationRound, NaiveDate, NaiveTime, TimeDelta, Utc};
use vstd::prelude::*;

verus! {

/// Nanoseconds in one day.
pub const DAY_NANOS: i64 = 86_400_000_000_000;

/// An instant in UTC, as nanoseconds since the Unix epoch.
#[derive(Clone, Copy, Debug, PartialEq, Eq, Structural)]
pub struct Timestamp {
    pub nanos: i64,
}

/// The number chrono gives 1970-01-01 counting 0001-01-01 as day 1.
pub const UNIX_EPOCH_DAY: i32 = 719_163;

/// The number of the UTC day that holds the instant `nanos`, counting
/// 0001-01-01 as day 1.
pub open spec fn day_of(nanos: int) -> int {
    nanos / (DAY_NANOS as int) + UNIX_EPOCH_DAY as int
}

/// The instant, in nanoseconds since the epoch, at which day `day` starts.
pub open spec fn day_start(day: int) -> int {
    (day - UNIX_EPOCH_DAY as int) * (DAY_NANOS as int)
}

/// A day that holds an instant which nanoseconds since the epoch can write.
pub open spec fn day_in_range(day: int) -> bool {
    day_of(i64::MIN as int) <= day <= day_of(i64::MAX as int)
}

/// The RFC 3339 text, with a `+00:00` offset, of midnight UTC at the start
/// of day `day`.
pub uninterp spec fn rfc3339_text(day: int) -> Seq<char>;

/// Relies on chrono's `From<SystemTime> for DateTime<Utc>`, which takes any
/// clock reading, and `DateTime::timestamp_nanos_opt`: the current time,
/// where nanoseconds since the epoch can write it.
#[verifier::external_body]
pub(crate) fn now() -> (r: Option<Timestamp>) {
    DateTime::<Utc>::from(std::time::SystemTime::now()).timestamp_nanos_opt().map(|nanos| Timestamp { nanos })
}

/// Relies on chrono's `DurationRound::duration_trunc` with a span of one
/// day, which for every timestamp in nanoseconds takes off its remainder
/// modulo the span (the whole span less its magnitude when negative), and on
/// `NaiveDate::num_days_from_ce`, which numbers the resulting date.
#[verifier::external_body]
fn truncate_to_day(nanos: i64) -> (r: Option<i32>)
    ensures
        r == Some(day_of(nanos as int) as i32),
{
    DateTime::from_timestamp_nanos(nanos)
        .duration_trunc(TimeDelta::days(1))
        .ok()
        .map(|d| d.date_naive().num_days_from_ce())
}

/// Relies on chrono's `NaiveDate::from_num_days_from_ce_opt`, which accepts
/// every day of chrono's range, and `DateTime::<Utc>::to_rfc3339`: the text
/// depends on the day alone.
#[verifier::external_body]
fn rfc3339(day: i32) -> (r: Option<String>)
    requires
        day_in_range(day as int),
    ensures
        r is Some,
        r->0@ == rfc3339_text(day as int),
{
    NaiveDate::from_num_days_from_ce_opt(day).map(|d| d.and_time(NaiveTime::MIN).and_utc().to_rfc3339())
}

proof fn lemma_day_of_bounds(nanos: int)
    requires
        i64::MIN <= nanos <= i64::MAX,
    ensures
        day_in_range(day_of(nanos)),
        day_start(day_of(nanos)) <= nanos < day_start(day_of(nanos)) + DAY_NANOS,
        i32::MIN <= day_of(nanos) <= i32::MAX,
{
    let d = DAY_NANOS as int;
    vstd::arithmetic::div_mod::lemma_div_is_ordered(i64::MIN as int, nanos, d);
    vstd::arithmetic::div_mod::lemma_div_is_ordered(nanos, i64::MAX as int, d);
    vstd::arithmetic::div_mod::lemma_fundamental_div_mod(nanos, d);
    assert(day_start(day_of(nanos)) == (nanos / d) * d) by (nonlinear_arith)
        requires
            day_start(day_of(nanos)) == (day_of(nanos) - UNIX_EPOCH_DAY as int) * d,
            day_of(nanos) - UNIX_EPOCH_DAY as int == nanos / d,
    ;
    assert(i64::MIN as int / d == -106752);
    assert(i64::MAX as int / d == 106751);
}

/// Produces a string on demand.
pub trait Fetch {
    fn fetch(&self) -> String;
}

/// A fetcher that reports the day on which it was made.
#[derive(Clone, Copy, Debug, PartialEq, Eq, Structural)]
pub struct RealFetcher {
    day: i32,
}

/// The fetcher made at instant `t`.
pub closed spec fn made_at(t: Timestamp) -> RealFetcher {
    RealFetcher { day: day_of(t.nanos as int) as i32 }
}

impl RealFetcher {
    /// The number of the day this fetcher reports, counting 0001-01-01 as
    /// day 1.
    pub closed spec fn day(&self) -> int {
        self.day as int
    }

    #[verifier::type_invariant]
    spec fn inv(self) -> bool {
        day_in_range(self.day as int)
    }

    /// Makes a fetcher for the UTC day that holds `date_time`.
    pub fn new(date_time: Timestamp) -> (r: Self)
        ensures
            r == made_at(date_time),
            r.day() == day_of(date_time.nanos as int),
            day_start(r.day()) <= date_time.nanos < day_start(r.day()) + DAY_NANOS,
    {
        proof {
            lemma_day_of_bounds(date_time.nanos as int);
        }
        let day = truncate_to_day(date_time.nanos);
        match day {
            Some(day) => RealFetcher { day },
            None => RealFetcher { day: UNIX_EPOCH_DAY },
        }
    }

    /// The RFC 3339 text of midnight UTC at the start of the stored day.
    pub fn text(&self) -> (r: String)
        ensures
            r@ == rfc3339_text(self.day()),
    {
        proof {
            use_type_invariant(self);
        }
        match rfc3339(self.day) {
            Some(text) => text,
            None => String::new(),
        }
    }
}

impl Fetch for RealFetcher {
    fn fetch(&self) -> String {
        self.text()
    }
}

impl<'a, F: Fetch> Fetch for &'a F {
    fn fetch(&self) -> String {
        (**self).fetch()
    }
}

} // verus!
