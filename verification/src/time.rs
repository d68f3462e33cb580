//! Points in time and how they are shown.

use crate::text::{decimal, decimal_text};
use vstd::prelude::*;
use vstd::string::StringExecFns;

verus! {

/// The first second that a timestamp can name.
pub const FIRST_SECOND: i64 = -8334601228800;

/// The last second that a timestamp can name.
pub const LAST_SECOND: i64 = 8210266876799;

/// A point in time: seconds since the Unix epoch and nanoseconds into that
/// second. Leap seconds are not counted.
#[derive(Clone, Copy, Debug, PartialEq, Eq, Structural)]
pub struct Timestamp {
    pub secs: i64,
    pub nanos: u32,
}

impl Timestamp {
    /// Whether the calendar reaches this point in time.
    pub open spec fn valid(self) -> bool {
        FIRST_SECOND <= self.secs <= LAST_SECOND && self.nanos < 1_000_000_000
    }

    /// Nanoseconds since the Unix epoch.
    pub open spec fn total_nanos(self) -> int {
        self.secs * 1_000_000_000 + self.nanos
    }

    /// Whether the calendar reaches this point in time.
    pub fn is_valid(&self) -> (r: bool)
        ensures
            r == self.valid(),
    {
        FIRST_SECOND <= self.secs && self.secs <= LAST_SECOND && self.nanos < 1_000_000_000
    }
}

/// The point in time so many seconds after `t`.
pub open spec fn later_by(t: Timestamp, secs: int) -> Timestamp {
    Timestamp { secs: (t.secs + secs) as i64, nanos: t.nanos }
}

/// Whether the calendar reaches the point in time so many seconds after `t`.
pub open spec fn reaches(t: Timestamp, secs: int) -> bool {
    t.valid() && FIRST_SECOND <= t.secs + secs <= LAST_SECOND
}

/// The point in time so many seconds after `t`.
pub fn plus_seconds(t: Timestamp, secs: i64) -> (r: Timestamp)
    requires
        reaches(t, secs as int),
    ensures
        r == later_by(t, secs as int),
        r.valid(),
{
    Timestamp { secs: t.secs + secs, nanos: t.nanos }
}

/// `d` divided by `n`, rounded towards zero.
pub open spec fn div_towards_zero(d: int, n: int) -> int
    recommends
        n > 0,
{
    if d >= 0 {
        d / n
    } else {
        -((-d) / n)
    }
}

/// The whole seconds from `earlier` to `later`, rounded towards zero.
pub open spec fn seconds_between(later: Timestamp, earlier: Timestamp) -> int {
    div_towards_zero(later.total_nanos() - earlier.total_nanos(), 1_000_000_000)
}

/// `chrono::Utc::now`: the current time. Nothing is promised of it but that
/// the calendar reaches it and that it is not before the Unix epoch.
#[verifier::external_body]
pub(crate) fn now() -> (r: Timestamp)
    ensures
        r.valid(),
        r.secs >= 0,
{
    let t = chrono::Utc::now();
    Timestamp { secs: t.timestamp(), nanos: t.timestamp_subsec_nanos() }
}

/// The difference of two `chrono::DateTime<Utc>` and `TimeDelta::num_seconds`
/// of it: the whole seconds from `earlier` to `later`, rounded towards zero.
#[verifier::external_body]
pub(crate) fn whole_seconds(later: Timestamp, earlier: Timestamp) -> (r: i64)
    requires
        later.valid(),
        earlier.valid(),
    ensures
        r == seconds_between(later, earlier),
{
    let to = chrono::DateTime::from_timestamp(later.secs, later.nanos).unwrap();
    let from = chrono::DateTime::from_timestamp(earlier.secs, earlier.nanos).unwrap();
    (to - from).num_seconds()
}

/// What `chrono_humanize::HumanTime` says of the time from `now` to `at`,
/// each given as seconds since the Unix epoch and nanoseconds.
pub uninterp spec fn human_time(
    at_secs: int,
    at_nanos: int,
    now_secs: int,
    now_nanos: int,
) -> Seq<char>;

/// `chrono_humanize::HumanTime::from` on the difference of two
/// `chrono::DateTime<Utc>`, and its `Display`: the wording is named, not
/// stated.
#[verifier::external_body]
pub(crate) fn human_time_text(at: Timestamp, now: Timestamp) -> (r: String)
    requires
        at.valid(),
        now.valid(),
    ensures
        r@ == human_time(at.secs as int, at.nanos as int, now.secs as int, now.nanos as int),
{
    let to = chrono::DateTime::from_timestamp(at.secs, at.nanos).unwrap();
    let from = chrono::DateTime::from_timestamp(now.secs, now.nanos).unwrap();
    chrono_humanize::HumanTime::from(to - from).to_string()
}

/// What `chrono::DateTime<Utc>::format` writes for a point in time, given as
/// seconds since the Unix epoch and nanoseconds, and a pattern.
pub uninterp spec fn utc_format(secs: int, nanos: int, pattern: Seq<char>) -> Seq<char>;

/// Month, day and year.
pub open spec fn date_pattern() -> Seq<char> {
    "%b %-d, %Y"@
}

/// Date and time of day, to the minute.
pub open spec fn minute_pattern() -> Seq<char> {
    "%Y-%m-%d %H:%M"@
}

/// `chrono::DateTime<Utc>::format` and the `Display` of what it returns, for
/// the two patterns in use: the text is named, not stated.
#[verifier::external_body]
pub(crate) fn utc_format_text(t: Timestamp, pattern: &str) -> (r: String)
    requires
        t.valid(),
        pattern@ == date_pattern() || pattern@ == minute_pattern(),
    ensures
        r@ == utc_format(t.secs as int, t.nanos as int, pattern@),
{
    let at = chrono::DateTime::from_timestamp(t.secs, t.nanos).unwrap();
    at.format(pattern).to_string()
}

/// A point in time as a date, such as in lists of tournaments.
pub open spec fn date_shown(t: Timestamp) -> Seq<char> {
    utc_format(t.secs as int, t.nanos as int, date_pattern())
}

/// Shows a point in time as a date.
pub fn date_text(t: Timestamp) -> (r: String)
    requires
        t.valid(),
    ensures
        r@ == date_shown(t),
{
    utc_format_text(t, "%b %-d, %Y")
}

/// A point in time to the minute, such as in a game history.
pub open spec fn minute_shown(t: Timestamp) -> Seq<char> {
    utc_format(t.secs as int, t.nanos as int, minute_pattern())
}

/// Shows a point in time to the minute.
pub fn minute_text(t: Timestamp) -> (r: String)
    requires
        t.valid(),
    ensures
        r@ == minute_shown(t),
{
    utc_format_text(t, "%Y-%m-%d %H:%M")
}

/// What is said of a point in time that lies ahead of or behind `now`.
pub open spec fn relative(at: Timestamp, now: Timestamp) -> Seq<char> {
    human_time(at.secs as int, at.nanos as int, now.secs as int, now.nanos as int)
}

/// Shows a point in time as it lies ahead of or behind `now`.
pub fn relative_text(at: Timestamp, now: Timestamp) -> (r: String)
    requires
        at.valid(),
        now.valid(),
    ensures
        r@ == relative(at, now),
{
    human_time_text(at, now)
}

/// A compact age: whole seconds below a minute, minutes below an hour, hours
/// below a day, and days from there on. The future counts as no age at all.
pub open spec fn ago(secs: int) -> Seq<char> {
    if secs < 0 {
        decimal(0) + "s ago"@
    } else if secs < 60 {
        decimal(secs) + "s ago"@
    } else if secs < 3600 {
        decimal(secs / 60) + "m ago"@
    } else if secs < 86400 {
        decimal(secs / 3600) + "h ago"@
    } else {
        decimal(secs / 86400) + "d ago"@
    }
}

/// The compact age of something that happened `secs` seconds ago.
pub fn ago_text(secs: i64) -> (r: String)
    ensures
        r@ == ago(secs as int),
{
    if secs < 0 {
        decimal_text(0).concat("s ago")
    } else if secs < 60 {
        decimal_text(secs).concat("s ago")
    } else if secs < 3600 {
        decimal_text(secs / 60).concat("m ago")
    } else if secs < 86400 {
        decimal_text(secs / 3600).concat("h ago")
    } else {
        decimal_text(secs / 86400).concat("d ago")
    }
}

/// The compact age of `t` at the time `now`.
pub fn fmt_ago_at(t: Timestamp, now: Timestamp) -> (r: String)
    requires
        t.valid(),
        now.valid(),
    ensures
        r@ == ago(seconds_between(now, t)),
{
    ago_text(whole_seconds(now, t))
}

/// Compact relative time for feeds, such as `2m ago`: the age of `t` at the
/// time that the clock gives.
pub fn fmt_ago(t: Timestamp) -> (r: String)
    requires
        t.valid(),
    ensures
        exists|now: Timestamp| #[trigger]
            now.valid() && now.secs >= 0 && r@ == ago(seconds_between(now, t)),
{
    let current: Timestamp = now();
    fmt_ago_at(t, current)
}

// Laws.

/// Whole seconds leave less than a second over, in either direction, and
/// going back takes as long as going forth.
pub proof fn whole_seconds_leave_less_than_one_over(later: Timestamp, earlier: Timestamp)
    ensures
        ({
            let s = seconds_between(later, earlier);
            let apart = (later.secs - earlier.secs) * 1_000_000_000 + (later.nanos - earlier.nanos);
            &&& apart >= 0 ==> s * 1_000_000_000 <= apart < (s + 1) * 1_000_000_000
            &&& apart <= 0 ==> (s - 1) * 1_000_000_000 < apart <= s * 1_000_000_000
            &&& seconds_between(earlier, later) == -s
        }),
{
}

/// An age is told in its largest whole unit: as many seconds, minutes, hours
/// or days as have passed in full, and nothing for what is still to come.
pub proof fn ages_are_told_in_whole_units(secs: int, n: int)
    ensures
        secs <= 0 ==> ago(secs) == "0"@ + "s ago"@,
        0 <= secs < 60 ==> ago(secs) == decimal(secs) + "s ago"@,
        1 <= n < 60 && n * 60 <= secs < (n + 1) * 60 ==> ago(secs) == decimal(n) + "m ago"@,
        1 <= n < 24 && n * 3600 <= secs < (n + 1) * 3600 ==> ago(secs) == decimal(n) + "h ago"@,
        1 <= n && n * 86400 <= secs < (n + 1) * 86400 ==> ago(secs) == decimal(n) + "d ago"@,
{
    reveal_strlit("0");
    assert(decimal(0) =~= "0"@);
}

/// A point in time some seconds later is that many seconds away.
pub proof fn later_is_as_far_as_said(t: Timestamp, secs: int)
    requires
        reaches(t, secs),
    ensures
        later_by(t, secs).valid(),
        seconds_between(later_by(t, secs), t) == secs,
{
}

} // verus!
