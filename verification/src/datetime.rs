//! Instants and spans of time, and the parsing and formatting of dates that
//! feeds carry.
//!
//! An instant is a count of nanoseconds since the Unix epoch (UTC); a span is a
//! signed count of nanoseconds. Both are kept within the ranges that `chrono`
//! can represent.
use vstd::prelude::*;
use crate::text::{concat, decimal, decimal_string, two_digits, two_digit_string};


verus! {

/// Seconds of the earliest instant `chrono` represents (-262143-01-01T00:00:00Z).
pub const MIN_SECS: i64 = -8334601228800;
/// Seconds of the latest instant `chrono` represents (262142-12-31T23:59:59Z).
pub const MAX_SECS: i64 = 8210266876799;
/// One second in nanoseconds.
pub const NANOS_PER_SEC: i128 = 1_000_000_000;
/// The largest span `chrono` represents: `i64::MAX` milliseconds, in nanoseconds.
pub const MAX_SPAN_NANOS: i128 = 9_223_372_036_854_775_807_000_000;

/// Nanoseconds of the earliest representable instant.
pub open spec fn min_nanos() -> int {
    MIN_SECS * NANOS_PER_SEC
}

/// Nanoseconds of the last nanosecond of the latest representable second.
pub open spec fn max_nanos() -> int {
    MAX_SECS * NANOS_PER_SEC + (NANOS_PER_SEC - 1)
}

/// An instant lies within the calendar range that `chrono` represents.
pub open spec fn instant_in_range(n: int) -> bool {
    min_nanos() <= n <= max_nanos() + NANOS_PER_SEC
}

/// The range in which arithmetic on instants stays without panicking.
pub open spec fn instant_in_strict_range(n: int) -> bool {
    min_nanos() <= n <= max_nanos()
}

/// A span lies within the range of `chrono::TimeDelta`.
pub open spec fn span_in_range(n: int) -> bool {
    -MAX_SPAN_NANOS <= n <= MAX_SPAN_NANOS
}

/// An instant, in nanoseconds since 1970-01-01T00:00:00Z.
#[derive(Clone, Copy, Debug)]
pub struct DateTime {
    nanos: i128,
}

/// A signed span of time, in nanoseconds.
#[derive(Clone, Copy, Debug)]
pub struct Duration {
    nanos: i128,
}

/// A `std::time::Duration`, by its parts: whole seconds and the
/// nanoseconds below one second.
#[derive(Clone, Copy, Debug, PartialEq, Eq)]
pub struct StdDuration {
    pub secs: u64,
    pub subsec_nanos: u32,
}

impl View for DateTime {
    type V = int;

    closed spec fn view(&self) -> int {
        self.nanos as int
    }
}

impl View for Duration {
    type V = int;

    closed spec fn view(&self) -> int {
        self.nanos as int
    }
}

/// A span from `start` has passed by `now`.
pub open spec fn passed_by(start: int, span: int, now: int) -> bool {
    start + span < now
}

impl DateTime {
    #[verifier::type_invariant]
    spec fn in_range(self) -> bool {
        instant_in_range(self.nanos as int)
    }

    /// The Unix epoch.
    pub fn epoch() -> (res: DateTime)
        ensures
            res@ == 0,
    {
        DateTime { nanos: 0 }
    }

    /// The instant `secs` seconds and `subsec_nanos` nanoseconds after the
    /// epoch, where it is representable.
    pub fn from_timestamp(secs: i64, subsec_nanos: u32) -> (res: Option<DateTime>)
        ensures
            res is Some <==> (MIN_SECS <= secs <= MAX_SECS && subsec_nanos < 2 * NANOS_PER_SEC),
            res matches Some(d) ==> d@ == secs * NANOS_PER_SEC + subsec_nanos,
    {
        if MIN_SECS <= secs && secs <= MAX_SECS && (subsec_nanos as i128) < 2 * NANOS_PER_SEC {
            let n = (secs as i128) * NANOS_PER_SEC + (subsec_nanos as i128);
            Some(DateTime { nanos: n })
        } else {
            None
        }
    }

    /// The instant `n` nanoseconds after the epoch, where it is representable.
    pub fn from_nanos(n: i128) -> (res: Option<DateTime>)
        ensures
            res is Some <==> instant_in_range(n as int),
            res matches Some(d) ==> d@ == n,
    {
        if min_nanos_exec() <= n && n <= max_nanos_exec() + NANOS_PER_SEC {
            Some(DateTime { nanos: n })
        } else {
            None
        }
    }

    /// Nanoseconds since the epoch.
    pub fn nanos(&self) -> (res: i128)
        ensures
            res == self@,
            instant_in_range(res as int),
    {
        proof {
            use_type_invariant(self);
        }
        self.nanos
    }

    /// Whole seconds since the epoch, rounded towards negative infinity.
    pub fn timestamp(&self) -> (res: i64)
        ensures
            res == self@ / NANOS_PER_SEC as int,
    {
        proof {
            use_type_invariant(self);
        }
        let n = self.nanos;
        if n >= 0 {
            (n / NANOS_PER_SEC) as i64
        } else {
            let m = -n - 1;
            let q = m / NANOS_PER_SEC;
            proof {
                lemma_floor_div_negative(n as int, NANOS_PER_SEC as int);
            }
            (-q - 1) as i64
        }
    }

    /// The current instant, by the system clock.
    pub fn now() -> (res: DateTime)
        ensures
            res@ >= 0,
    {
        let (secs, sub) = utc_now();
        DateTime { nanos: (secs as i128) * NANOS_PER_SEC + (sub as i128) }
    }

    /// `self` is strictly earlier than `other`.
    pub fn before(&self, other: &DateTime) -> (res: bool)
        ensures
            res == (self@ < other@),
    {
        self.nanos < other.nanos
    }

    /// `self` and `other` are the same instant.
    pub fn same(&self, other: &DateTime) -> (res: bool)
        ensures
            res == (self@ == other@),
    {
        self.nanos == other.nanos
    }

    /// `self + span` (panics in `chrono` outside the representable range).
    pub fn plus(&self, span: &Duration) -> (res: DateTime)
        requires
            instant_in_strict_range(self@ + span@),
        ensures
            res@ == self@ + span@,
    {
        proof {
            use_type_invariant(self);
            use_type_invariant(span);
        }
        DateTime { nanos: self.nanos + span.nanos }
    }

    /// Whether `self - span` lies in the range `minus` accepts.
    pub fn can_subtract(&self, span: &Duration) -> (res: bool)
        ensures
            res == instant_in_strict_range(self@ - span@),
    {
        proof {
            use_type_invariant(self);
            use_type_invariant(span);
        }
        let n: i128 = self.nanos - span.nanos;
        let low: i128 = (MIN_SECS as i128) * NANOS_PER_SEC;
        let high: i128 = (MAX_SECS as i128) * NANOS_PER_SEC + (NANOS_PER_SEC - 1);
        low <= n && n <= high
    }

    /// `self - span` (panics in `chrono` outside the representable range).
    pub fn minus(&self, span: &Duration) -> (res: DateTime)
        requires
            instant_in_strict_range(self@ - span@),
        ensures
            res@ == self@ - span@,
    {
        proof {
            use_type_invariant(self);
            use_type_invariant(span);
        }
        DateTime { nanos: self.nanos - span.nanos }
    }

    /// The span from `other` to `self` (`self - other`).
    pub fn since(&self, other: &DateTime) -> (res: Duration)
        ensures
            res@ == self@ - other@,
    {
        proof {
            use_type_invariant(self);
            use_type_invariant(other);
        }
        Duration { nanos: self.nanos - other.nanos }
    }

    /// `self + span` is earlier than `now`: the span has passed since `self`.
    pub fn has_passed_at(&self, span: &Duration, now: &DateTime) -> (res: bool)
        ensures
            res == (self@ + span@ < now@),
    {
        proof {
            use_type_invariant(self);
            use_type_invariant(span);
        }
        self.nanos + span.nanos < now.nanos
    }

    /// `self + span` is earlier than the current instant: `has_passed_at`
    /// at some instant the clock gave.
    pub fn has_passed(&self, span: &Duration) -> (res: bool)
        ensures
            exists|now: int| now >= 0 && res == #[trigger] passed_by(self@, span@, now),
            res ==> self@ + span@ < i128::MAX,
    {
        let now = DateTime::now();
        let r = self.has_passed_at(span, &now);
        assert(now@ >= 0 && r == passed_by(self@, span@, now@));
        r
    }
}

proof fn lemma_floor_div_negative(n: int, d: int)
    requires
        n < 0,
        d > 0,
    ensures
        n / d == -((-n - 1) / d) - 1,
{
    let m = -n - 1;
    let q = m / d;
    let r = m % d;
    assert(m == q * d + r && 0 <= r < d) by (nonlinear_arith)
        requires
            m >= 0,
            d > 0,
            q == m / d,
            r == m % d,
    ;
    assert(n == (-q - 1) * d + (d - 1 - r)) by (nonlinear_arith)
        requires
            m == q * d + r,
            n == -m - 1,
    ;
    vstd::arithmetic::div_mod::lemma_fundamental_div_mod_converse(n, d, -q - 1, d - 1 - r);
}

fn min_nanos_exec() -> (res: i128)
    ensures
        res == min_nanos(),
{
    (MIN_SECS as i128) * NANOS_PER_SEC
}

fn max_nanos_exec() -> (res: i128)
    ensures
        res == max_nanos(),
{
    (MAX_SECS as i128) * NANOS_PER_SEC + (NANOS_PER_SEC - 1)
}

/// `chrono::Utc::now`, by its Unix timestamp and sub-second nanoseconds. On
/// this platform `chrono` reads the system clock since the Unix epoch (it
/// panics if the clock is set before it), so the seconds are not negative
/// and the nanoseconds are below one second; nothing else is known of the
/// value.
#[verifier::external_body]
fn utc_now() -> (res: (i64, u32))
    ensures
        0 <= res.0 <= MAX_SECS,
        res.1 < NANOS_PER_SEC,
{
    let now = chrono::Utc::now();
    (now.timestamp(), now.timestamp_subsec_nanos())
}

impl Duration {
    #[verifier::type_invariant]
    spec fn in_range(self) -> bool {
        span_in_range(self.nanos as int)
    }

    /// The empty span.
    pub fn zero() -> (res: Duration)
        ensures
            res@ == 0,
    {
        Duration { nanos: 0 }
    }

    /// `sec` whole seconds (`chrono::TimeDelta::seconds` panics beyond
    /// `i64::MAX / 1000` seconds).
    pub fn from_seconds(sec: u64) -> (res: Duration)
        requires
            sec <= 9_223_372_036_854_775,
        ensures
            res@ == sec * NANOS_PER_SEC,
    {
        Duration { nanos: (sec as i128) * NANOS_PER_SEC }
    }

    /// The span `n` nanoseconds long, where `chrono` can represent it.
    pub fn from_nanos(n: i128) -> (res: Option<Duration>)
        ensures
            res is Some <==> span_in_range(n as int),
            res matches Some(d) ==> d@ == n,
    {
        if -MAX_SPAN_NANOS <= n && n <= MAX_SPAN_NANOS {
            Some(Duration { nanos: n })
        } else {
            None
        }
    }

    /// Nanoseconds in this span.
    pub fn nanos(&self) -> (res: i128)
        ensures
            res == self@,
            span_in_range(res as int),
    {
        proof {
            use_type_invariant(self);
        }
        self.nanos
    }

    /// Whole seconds in this span, rounded towards zero.
    pub fn num_seconds(&self) -> (res: i64)
        ensures
            res == (if self@ >= 0 { self@ / NANOS_PER_SEC as int } else { -((-self@) / NANOS_PER_SEC as int) }),
    {
        proof {
            use_type_invariant(self);
        }
        if self.nanos >= 0 {
            (self.nanos / NANOS_PER_SEC) as i64
        } else {
            -(((-self.nanos) / NANOS_PER_SEC) as i64)
        }
    }

    /// A `std::time::Duration` as a span; one that `chrono` cannot represent
    /// becomes the empty span.
    pub fn from_std(d: StdDuration) -> (res: Duration)
        ensures
            res@ == (if std_nanos(d) <= MAX_SPAN_NANOS && d.subsec_nanos < NANOS_PER_SEC { std_nanos(d) } else { 0 }),
    {
        if (d.subsec_nanos as i128) < NANOS_PER_SEC {
            let n = (d.secs as i128) * NANOS_PER_SEC + (d.subsec_nanos as i128);
            if n <= MAX_SPAN_NANOS {
                return Duration { nanos: n };
            }
        }
        Duration { nanos: 0 }
    }

    /// This span as a `std::time::Duration`; a negative span becomes zero.
    pub fn to_std(&self) -> (res: StdDuration)
        ensures
            self@ >= 0 ==> std_nanos(res) == self@ && res.subsec_nanos < NANOS_PER_SEC,
            self@ < 0 ==> res.secs == 0 && res.subsec_nanos == 0,
    {
        proof {
            use_type_invariant(self);
        }
        if self.nanos < 0 {
            StdDuration { secs: 0, subsec_nanos: 0 }
        } else {
            StdDuration {
                secs: (self.nanos / NANOS_PER_SEC) as u64,
                subsec_nanos: (self.nanos % NANOS_PER_SEC) as u32,
            }
        }
    }

    /// `self` is strictly shorter than `other`.
    pub fn shorter(&self, other: &Duration) -> (res: bool)
        ensures
            res == (self@ < other@),
    {
        self.nanos < other.nanos
    }
}

/// Nanoseconds of a `std::time::Duration`.
pub open spec fn std_nanos(d: StdDuration) -> int {
    d.secs * NANOS_PER_SEC + d.subsec_nanos
}


/// What `chrono::DateTime::<FixedOffset>::parse_from_rfc3339` gives for a
/// string, as the UTC timestamp and sub-second nanoseconds of the instant.
pub uninterp spec fn rfc3339_instant(s: Seq<char>) -> Option<(i64, u32)>;

/// What `chrono::DateTime::<FixedOffset>::parse_from_rfc2822` gives for a
/// string, as the UTC timestamp and sub-second nanoseconds of the instant.
pub uninterp spec fn rfc2822_instant(s: Seq<char>) -> Option<(i64, u32)>;

/// What `chrono::NaiveDateTime::parse_from_str` gives for a string and a
/// format, read as UTC: timestamp and sub-second nanoseconds.
pub uninterp spec fn naive_datetime_instant(s: Seq<char>, fmt: Seq<char>) -> Option<(i64, u32)>;

/// What `chrono::NaiveDate::parse_from_str` gives for a string and a format,
/// as the UTC timestamp of midnight of that day.
pub uninterp spec fn naive_date_midnight(s: Seq<char>, fmt: Seq<char>) -> Option<i64>;

/// The proleptic Gregorian year, month and day of the `days`-th day after
/// 1970-01-01 (counted in eras of 400 years from 0000-03-01).
pub open spec fn civil_date(days: int) -> (int, int, int) {
    let z = days + 719468;
    let era = z / 146097;
    let doe = z - era * 146097;
    let yoe = (doe - doe / 1460 + doe / 36524 - doe / 146096) / 365;
    let doy = doe - (365 * yoe + yoe / 4 - yoe / 100);
    let mp = (5 * doy + 2) / 153;
    let d = doy - (153 * mp + 2) / 5 + 1;
    let m = if mp < 10 { mp + 3 } else { mp - 9 };
    (yoe + era * 400 + if m <= 2 { 1int } else { 0int }, m, d)
}

/// The year, month and day of the UTC instant with the given Unix
/// timestamp (what `chrono` reads as `year`, `month` and `day`).
pub open spec fn calendar_date(secs: int) -> (i32, u32, u32) {
    let c = civil_date(secs / 86400);
    (c.0 as i32, c.1 as u32, c.2 as u32)
}

/// A parsed `chrono` instant lies in the range that `chrono` represents, and
/// its sub-second part is below two seconds (a leap second reads beyond one).
pub open spec fn parsed_in_range(p: Option<(i64, u32)>) -> bool {
    p matches Some(v) ==> MIN_SECS <= v.0 <= MAX_SECS && v.1 < 2 * NANOS_PER_SEC
}

/// `chrono::DateTime::<FixedOffset>::parse_from_rfc3339`, converted to UTC
/// (`to_utc`) and read as timestamp and sub-second nanoseconds. Its result is
/// named by `rfc3339_instant`; of it, only the range of `chrono`'s values is
/// stated.
#[verifier::external_body]
fn parse_rfc3339(s: &str) -> (res: Option<(i64, u32)>)
    ensures
        res == rfc3339_instant(s@),
        parsed_in_range(res),
{
    match chrono::DateTime::<chrono::FixedOffset>::parse_from_rfc3339(s) {
        Ok(d) => Some((d.to_utc().timestamp(), d.to_utc().timestamp_subsec_nanos())),
        Err(_) => None,
    }
}

/// `chrono::DateTime::<FixedOffset>::parse_from_rfc2822`, converted to UTC
/// and read as timestamp and sub-second nanoseconds; named by
/// `rfc2822_instant`, with the range of `chrono`'s values.
#[verifier::external_body]
fn parse_rfc2822(s: &str) -> (res: Option<(i64, u32)>)
    ensures
        res == rfc2822_instant(s@),
        parsed_in_range(res),
{
    match chrono::DateTime::<chrono::FixedOffset>::parse_from_rfc2822(s) {
        Ok(d) => Some((d.to_utc().timestamp(), d.to_utc().timestamp_subsec_nanos())),
        Err(_) => None,
    }
}

/// `chrono::NaiveDateTime::parse_from_str`, read as UTC (`and_utc`, the same
/// instant as `DateTime::from_naive_utc_and_offset(_, Utc)`); named by
/// `naive_datetime_instant`, with the range of `chrono`'s values.
#[verifier::external_body]
fn parse_naive_datetime(s: &str, fmt: &str) -> (res: Option<(i64, u32)>)
    ensures
        res == naive_datetime_instant(s@, fmt@),
        parsed_in_range(res),
{
    match chrono::NaiveDateTime::parse_from_str(s, fmt) {
        Ok(d) => Some((d.and_utc().timestamp(), d.and_utc().timestamp_subsec_nanos())),
        Err(_) => None,
    }
}

/// `chrono::NaiveDate::parse_from_str`, at midnight UTC
/// (`and_hms_opt(0, 0, 0)` is always some time); named by
/// `naive_date_midnight`, with the range of `chrono`'s values.
#[verifier::external_body]
fn parse_naive_date(s: &str, fmt: &str) -> (res: Option<i64>)
    ensures
        res == naive_date_midnight(s@, fmt@),
        res matches Some(v) ==> MIN_SECS <= v <= MAX_SECS,
{
    match chrono::NaiveDate::parse_from_str(s, fmt) {
        Ok(d) => match d.and_hms_opt(0, 0, 0) {
            Some(t) => Some(t.and_utc().timestamp()),
            None => None,
        },
        Err(_) => None,
    }
}

proof fn lemma_civil_year_of_era(doe: u32)
    by (bit_vector)
    requires
        doe <= 146096,
    ensures
        (doe - doe / 1460 + doe / 36524 - doe / 146096) / 365 <= 399,
        365 * ((doe - doe / 1460 + doe / 36524 - doe / 146096) / 365)
            + ((doe - doe / 1460 + doe / 36524 - doe / 146096) / 365) / 4
            - ((doe - doe / 1460 + doe / 36524 - doe / 146096) / 365) / 100 <= doe,
        doe - (365 * ((doe - doe / 1460 + doe / 36524 - doe / 146096) / 365)
            + ((doe - doe / 1460 + doe / 36524 - doe / 146096) / 365) / 4
            - ((doe - doe / 1460 + doe / 36524 - doe / 146096) / 365) / 100) <= 365,
{
}

proof fn lemma_civil_month_day(doy: u32)
    by (bit_vector)
    requires
        doy <= 365,
    ensures
        (5 * doy + 2) / 153 <= 11,
        (153 * ((5 * doy + 2) / 153) + 2) / 5 <= doy,
        doy - (153 * ((5 * doy + 2) / 153) + 2) / 5 + 1 <= 31,
{
}

/// The year, month and day of the UTC instant `secs` seconds after the
/// epoch, in the proleptic Gregorian calendar `chrono` uses.
fn calendar_date_of(secs: i64) -> (res: (i32, u32, u32))
    requires
        MIN_SECS <= secs <= MAX_SECS,
    ensures
        res == calendar_date(secs as int),
        res.0 as int == civil_date(secs / 86400).0,
        1 <= res.1 <= 12,
        1 <= res.2 <= 31,
{
    let days = div_euclid(secs, 86400);
    let z = days + 719468;
    let era = div_euclid(z, 146097);
    let doe_i = z - era * 146097;
    assert(doe_i == z % 146097) by {
        assert(z == (z / 146097) * 146097 + z % 146097) by (nonlinear_arith);
    }
    let doe: u32 = doe_i as u32;
    proof {
        lemma_civil_year_of_era(doe);
    }
    let yoe: u32 = (doe - doe / 1460 + doe / 36524 - doe / 146096) / 365;
    let doy: u32 = doe - (365 * yoe + yoe / 4 - yoe / 100);
    proof {
        lemma_civil_month_day(doy);
    }
    let mp: u32 = (5 * doy + 2) / 153;
    let d: u32 = doy - (153 * mp + 2) / 5 + 1;
    let m: u32 = if mp < 10 { mp + 3 } else { mp - 9 };
    assert(-400000 <= era <= 400000) by {
        assert(-9_700_000_000 <= z <= 9_600_000_000);
        assert(era * 146097 <= z && z < era * 146097 + 146097) by (nonlinear_arith)
            requires z == era * 146097 + doe_i, 0 <= doe_i < 146097;
        assert(-400000 <= era <= 400000) by (nonlinear_arith)
            requires era * 146097 <= z, z < era * 146097 + 146097, -9_700_000_000 <= z <= 9_600_000_000;
    }
    let y: i64 = (yoe as i64) + era * 400 + if m <= 2 { 1i64 } else { 0i64 };
    (y as i32, m, d)
}

/// Nanoseconds of a parsed timestamp.
pub open spec fn parsed_nanos(p: (i64, u32)) -> int {
    p.0 * NANOS_PER_SEC + p.1
}

/// The instant a feed's date string denotes: the first of RFC 3339, RFC 2822,
/// `%Y-%m-%dT%H:%M:%SZ`, `%Y-%m-%dT%H:%MZ` and `%Y-%m-%d` (midnight UTC)
/// that reads it.
pub open spec fn parse_date_spec(s: Seq<char>) -> Option<int> {
    if rfc3339_instant(s) is Some {
        Some(parsed_nanos(rfc3339_instant(s)->0))
    } else if rfc2822_instant(s) is Some {
        Some(parsed_nanos(rfc2822_instant(s)->0))
    } else if naive_datetime_instant(s, "%Y-%m-%dT%H:%M:%SZ"@) is Some {
        Some(parsed_nanos(naive_datetime_instant(s, "%Y-%m-%dT%H:%M:%SZ"@)->0))
    } else if naive_datetime_instant(s, "%Y-%m-%dT%H:%MZ"@) is Some {
        Some(parsed_nanos(naive_datetime_instant(s, "%Y-%m-%dT%H:%MZ"@)->0))
    } else if naive_date_midnight(s, "%Y-%m-%d"@) is Some {
        Some(naive_date_midnight(s, "%Y-%m-%d"@)->0 * NANOS_PER_SEC)
    } else {
        None
    }
}

fn instant_of_parsed(p: (i64, u32)) -> (res: DateTime)
    requires
        parsed_in_range(Some(p)),
    ensures
        res@ == parsed_nanos(p),
{
    DateTime { nanos: (p.0 as i128) * NANOS_PER_SEC + (p.1 as i128) }
}

impl DateTime {
    /// Reads a date as feeds write it (`TryFrom<&str>`): RFC 3339, then
    /// RFC 2822, then the ISO 8601 forms `%Y-%m-%dT%H:%M:%SZ` and
    /// `%Y-%m-%dT%H:%MZ`, then a bare `%Y-%m-%d` at midnight UTC.
    pub fn try_from_str(value: &str) -> (res: Result<DateTime, ()>)
        ensures
            res is Ok <==> parse_date_spec(value@) is Some,
            res matches Ok(d) ==> d@ == parse_date_spec(value@)->0,
    {
        let a = parse_rfc3339(value);
        if let Some(p) = a {
            return Ok(instant_of_parsed(p));
        }
        let b = parse_rfc2822(value);
        if let Some(p) = b {
            return Ok(instant_of_parsed(p));
        }
        let c = parse_naive_datetime(value, "%Y-%m-%dT%H:%M:%SZ");
        if let Some(p) = c {
            return Ok(instant_of_parsed(p));
        }
        let d = parse_naive_datetime(value, "%Y-%m-%dT%H:%MZ");
        if let Some(p) = d {
            return Ok(instant_of_parsed(p));
        }
        let e = parse_naive_date(value, "%Y-%m-%d");
        if let Some(secs) = e {
            return Ok(DateTime { nanos: (secs as i128) * NANOS_PER_SEC });
        }
        Err(())
    }

    /// Reads a date from an owned string (`TryFrom<&String>`).
    pub fn try_from_string(value: &String) -> (res: Result<DateTime, ()>)
        ensures
            res is Ok <==> parse_date_spec(value@) is Some,
            res matches Ok(d) ==> d@ == parse_date_spec(value@)->0,
    {
        DateTime::try_from_str(value.as_str())
    }
}

/// Whole seconds of an instant, rounded down.
/// (The slack of a leap second past the latest second reads as that second.)
pub open spec fn seconds_of(n: int) -> int {
    if n / NANOS_PER_SEC as int > MAX_SECS { MAX_SECS as int } else { n / NANOS_PER_SEC as int }
}

/// The English three-letter name of a weekday counted from Monday = 0.
pub open spec fn weekday_name(w: int) -> Seq<char> {
    if w == 0 { "Mon"@ } else if w == 1 { "Tue"@ } else if w == 2 { "Wed"@ }
    else if w == 3 { "Thu"@ } else if w == 4 { "Fri"@ } else if w == 5 { "Sat"@ }
    else { "Sun"@ }
}

/// The English three-letter name of a month 1 to 12 (anything else reads as
/// December).
pub open spec fn month_name(m: int) -> Seq<char> {
    if m == 1 { "Jan"@ } else if m == 2 { "Feb"@ } else if m == 3 { "Mar"@ }
    else if m == 4 { "Apr"@ } else if m == 5 { "May"@ } else if m == 6 { "Jun"@ }
    else if m == 7 { "Jul"@ } else if m == 8 { "Aug"@ } else if m == 9 { "Sep"@ }
    else if m == 10 { "Oct"@ } else if m == 11 { "Nov"@ } else { "Dec"@ }
}

/// A signed integer in decimal (`{}` of an `i32`).
pub open spec fn signed_decimal(y: int) -> Seq<char> {
    if y < 0 { "-"@ + decimal((-y) as nat) } else { decimal(y as nat) }
}

/// The weekday (Monday = 0) of the day `secs` belongs to; 1970-01-01 was a
/// Thursday.
pub open spec fn weekday_of(secs: int) -> int {
    (secs / 86400 + 3) % 7
}

/// The `If-Modified-Since` form of an instant:
/// `Thu, 01 Jan 1970 00:00:00 GMT`.
pub open spec fn http_date(n: int) -> Seq<char> {
    let secs = seconds_of(n);
    let date = calendar_date(secs);
    let sod = secs % 86400;
    weekday_name(weekday_of(secs)) + ", "@ + two_digits(date.2 as nat) + " "@
        + month_name(date.1 as int) + " "@ + signed_decimal(date.0 as int) + " "@
        + two_digits((sod / 3600) as nat) + ":"@ + two_digits(((sod % 3600) / 60) as nat) + ":"@
        + two_digits((sod % 60) as nat) + " GMT"@
}

fn weekday_name_exec(w: i64) -> (res: String)
    ensures
        res@ == weekday_name(w as int),
{
    if w == 0 { String::from_str("Mon") } else if w == 1 { String::from_str("Tue") }
    else if w == 2 { String::from_str("Wed") } else if w == 3 { String::from_str("Thu") }
    else if w == 4 { String::from_str("Fri") } else if w == 5 { String::from_str("Sat") }
    else { String::from_str("Sun") }
}

fn month_name_exec(m: u32) -> (res: String)
    ensures
        res@ == month_name(m as int),
{
    if m == 1 { String::from_str("Jan") } else if m == 2 { String::from_str("Feb") }
    else if m == 3 { String::from_str("Mar") } else if m == 4 { String::from_str("Apr") }
    else if m == 5 { String::from_str("May") } else if m == 6 { String::from_str("Jun") }
    else if m == 7 { String::from_str("Jul") } else if m == 8 { String::from_str("Aug") }
    else if m == 9 { String::from_str("Sep") } else if m == 10 { String::from_str("Oct") }
    else if m == 11 { String::from_str("Nov") } else { String::from_str("Dec") }
}

fn signed_decimal_exec(y: i32) -> (res: String)
    ensures
        res@ == signed_decimal(y as int),
{
    if y < 0 {
        let d = decimal_string((-(y as i64)) as u64);
        concat("-", d.as_str())
    } else {
        decimal_string(y as u64)
    }
}

/// Euclidean remainder of `a` by a positive `b`.
fn rem_euclid(a: i64, b: i64) -> (res: i64)
    requires
        b > 0,
    ensures
        res == a % b,
        0 <= res < b,
{
    let r = a % b;
    if r < 0 {
        proof {
            lemma_trunc_rem(a as int, b as int, r as int);
        }
        r + b
    } else {
        proof {
            lemma_trunc_rem(a as int, b as int, r as int);
        }
        r
    }
}

/// Euclidean quotient of `a` by a positive `b`.
fn div_euclid(a: i64, b: i64) -> (res: i64)
    requires
        0 < b <= 1_000_000,
        -9_000_000_000_000_000 <= a <= 9_000_000_000_000_000,
    ensures
        res == a / b,
{
    let r = rem_euclid(a, b);
    let ghost ai = a as int;
    let ghost bi = b as int;
    let ghost q = ai / bi;
    proof {
        vstd::arithmetic::div_mod::lemma_fundamental_div_mod(ai, bi);
        assert(ai - r == q * bi) by (nonlinear_arith)
            requires ai == bi * (ai / bi) + ai % bi, r == ai % bi, q == ai / bi;
        vstd::arithmetic::div_mod::lemma_div_multiples_vanish(q, bi);
        assert((q * bi) / bi == q) by (nonlinear_arith)
            requires bi * q / bi == q;
        assert(q * bi >= 0 ==> (q * bi) / bi >= 0);
    }
    let d = a - r;
    if d >= 0 {
        d / b
    } else {
        proof {
            lemma_floor_div_negative(d as int, bi);
        }
        let m = -d - 1;
        -(m / b) - 1
    }
}

/// Relates Rust's truncating remainder to the Euclidean one.
proof fn lemma_trunc_rem(a: int, b: int, r: int)
    requires
        b > 0,
        r == (if a >= 0 { a % b } else { -((-a) % b) }),
    ensures
        r < 0 ==> r + b == a % b,
        r >= 0 ==> r == a % b,
        -b < r < b,
{
    if a >= 0 {
    } else {
        let m = -a;
        vstd::arithmetic::div_mod::lemma_fundamental_div_mod(m, b);
        let q = m / b;
        let s = m % b;
        if s == 0 {
            assert(a == (-q) * b + 0) by (nonlinear_arith) requires m == b * q + s, s == 0, a == -m;
            vstd::arithmetic::div_mod::lemma_fundamental_div_mod_converse(a, b, -q, 0);
        } else {
            assert(a == (-q - 1) * b + (b - s)) by (nonlinear_arith) requires m == b * q + s, a == -m;
            vstd::arithmetic::div_mod::lemma_fundamental_div_mod_converse(a, b, -q - 1, b - s);
        }
    }
}

impl DateTime {
    /// The `If-Modified-Since` header value for this instant
    /// (`IfModifiedSinceHeader::if_modified_since_time`), e.g.
    /// `Thu, 01 Jan 1970 00:00:00 GMT`. A leap second reads as the second
    /// after it.
    pub fn if_modified_since_time(&self) -> (res: String)
        ensures
            res@ == http_date(self@),
    {
        proof {
            use_type_invariant(self);
        }
        let secs = self.timestamp();
        let secs = if secs > MAX_SECS { MAX_SECS } else { secs };
        assert(MIN_SECS <= secs);
        let date = calendar_date_of(secs);
        let days = div_euclid(secs, 86400);
        let w = rem_euclid(days + 3, 7);
        let sod = rem_euclid(secs, 86400);
        let mut out = weekday_name_exec(w);
        out.append(", ");
        let day = two_digit_string(date.2 as u64);
        out.append(day.as_str());
        out.append(" ");
        let month = month_name_exec(date.1);
        out.append(month.as_str());
        out.append(" ");
        let year = signed_decimal_exec(date.0);
        out.append(year.as_str());
        out.append(" ");
        let h = two_digit_string((sod / 3600) as u64);
        out.append(h.as_str());
        out.append(":");
        let m = two_digit_string(((sod % 3600) / 60) as u64);
        out.append(m.as_str());
        out.append(":");
        let s = two_digit_string((sod % 60) as u64);
        out.append(s.as_str());
        out.append(" GMT");
        out
    }
}

} // verus!

verus! {

impl DateTime {
    /// The instant an `If-Modified-Since` header value names (an RFC 2822
    /// date such as `Thu, 01 Jan 1970 00:00:00 GMT`), if it is one.
    pub fn from_if_modified_since(text: &str) -> (res: Option<DateTime>)
        ensures
            res is Some <==> rfc2822_instant(text@) is Some,
            res matches Some(d) ==> d@ == parsed_nanos(rfc2822_instant(text@)->0),
    {
        match parse_rfc2822(text) {
            Some(p) => Some(instant_of_parsed(p)),
            None => None,
        }
    }
}

} // verus!

verus! {

/// Formatting an instant as an `If-Modified-Since` header value.
pub trait IfModifiedSinceHeader {
    /// The header value.
    fn if_modified_since_time(&self) -> String;
}

impl IfModifiedSinceHeader for DateTime {
    fn if_modified_since_time(&self) -> (res: String)
        ensures
            res@ == http_date(self@),
    {
        DateTime::if_modified_since_time(self)
    }
}

} // verus!

