//! Clock readings and instants, and the calendar work that `chrono` and
//! `chrono_tz` do on them.

use std::fmt::Write;
use vstd::prelude::*;

verus! {

/// The zone whose clocks the league's start times are read from.
pub const LEAGUE_ZONE: &'static str = "America/New_York";

/// The layout of a start time as the league publishes it. The trailing `Z` is
/// matched as a letter: the text is a clock reading, not a time in UTC.
pub const START_FORMAT: &'static str = "%Y-%m-%dT%H:%M:%SZ";

/// The layout of the start time that people read.
pub const PRETTY_FORMAT: &'static str = "%A %B %d %I:%M %p";

/// The layout of the time at which a schedule was made.
pub const UPDATED_FORMAT: &'static str = "%A %B %d %r";

/// The layout of a time in UTC inside a calendar feed.
pub const STAMP_FORMAT: &'static str = "%Y%m%dT%H%M%SZ";

/// A reading of a clock face without a time zone: whole seconds since
/// 1970-01-01T00:00:00 on that same clock face, and the nanoseconds into the
/// second. A reading inside a leap second has `nanos` of one billion or more.
#[derive(Clone, Copy, Debug, PartialEq, Eq, Structural)]
pub struct WallClock {
    pub seconds: i64,
    pub nanos: u32,
}

/// An absolute point in time: whole seconds since the Unix epoch, and the
/// nanoseconds into the second.
#[derive(Clone, Copy, Debug, PartialEq, Eq, Structural)]
pub struct Instant {
    pub seconds: i64,
    pub nanos: u32,
}

impl Instant {
    /// Whether `self` is `other` or earlier.
    pub open spec fn not_after(self, other: Instant) -> bool {
        self.seconds < other.seconds || (self.seconds == other.seconds && self.nanos
            <= other.nanos)
    }

    /// What a clock set to UTC shows at this instant.
    pub open spec fn utc_reading(self) -> WallClock {
        WallClock { seconds: self.seconds, nanos: self.nanos }
    }

    /// Whether `self` is `other` or earlier.
    pub fn is_not_after(&self, other: &Instant) -> (b: bool)
        ensures
            b == self.not_after(*other),
    {
        self.seconds < other.seconds || (self.seconds == other.seconds && self.nanos
            <= other.nanos)
    }

    /// What a clock set to UTC shows at this instant.
    pub fn utc_clock(&self) -> (clock: WallClock)
        ensures
            clock == self.utc_reading(),
    {
        WallClock { seconds: self.seconds, nanos: self.nanos }
    }
}

/// What `chrono::NaiveDateTime::parse_from_str` reads from `text` under
/// `format`, or `None` where it reports an error.
pub uninterp spec fn parsed_clock(text: Seq<char>, format: Seq<char>) -> Option<WallClock>;

/// The instant at which the clocks of the zone called `zone` show `clock`, as
/// `chrono_tz` maps it; `None` where the name is no zone's, the clocks never
/// show that reading, or show it twice.
pub uninterp spec fn zone_instant(zone: Seq<char>, clock: WallClock) -> Option<Instant>;

/// The text that `chrono` writes for `clock` under `format`; `None` where the
/// reading is outside the years `chrono` covers or the format cannot be
/// written.
pub uninterp spec fn clock_text(clock: WallClock, format: Seq<char>) -> Option<Seq<char>>;

/// The instant `minutes` minutes after `instant`, as `chrono` adds them;
/// `None` where the sum is outside the years it covers.
pub uninterp spec fn instant_after(instant: Instant, minutes: int) -> Option<Instant>;

/// Calls `chrono::NaiveDateTime::parse_from_str` and hands the reading out as
/// the seconds and nanoseconds that `chrono` counts for it. The contract names
/// the result: the same text and format always read as the same clock.
#[verifier::external_body]
pub(crate) fn parse_clock(text: &str, format: &str) -> (r: Option<WallClock>)
    ensures
        r == parsed_clock(text@, format@),
{
    match chrono::NaiveDateTime::parse_from_str(text, format) {
        Ok(naive) => Some(
            WallClock {
                seconds: naive.and_utc().timestamp(),
                nanos: naive.and_utc().timestamp_subsec_nanos(),
            },
        ),
        Err(_) => None,
    }
}

/// Calls `chrono::TimeZone::from_local_datetime` on the `chrono_tz::Tz` that
/// `zone` names (found by its `FromStr`), with the reading that
/// `chrono::DateTime::from_timestamp` makes of `clock`, and keeps the result
/// where `single` finds the mapping unique. The contract names the result,
/// which depends on the zone's rules as `chrono_tz` carries them.
#[verifier::external_body]
pub(crate) fn local_instant(zone: &str, clock: WallClock) -> (r: Option<Instant>)
    ensures
        r == zone_instant(zone@, clock),
{
    let tz: chrono_tz::Tz = zone.parse().ok()?;
    let naive = chrono::DateTime::from_timestamp(clock.seconds, clock.nanos)?.naive_utc();
    let local = chrono::TimeZone::from_local_datetime(&tz, &naive).single()?;
    Some(Instant { seconds: local.timestamp(), nanos: local.timestamp_subsec_nanos() })
}

/// Calls `chrono::NaiveDateTime::format`, on the reading that
/// `chrono::DateTime::from_timestamp` makes of `clock`, and writes the result
/// into a string. The contract names the text; there is none where `chrono`
/// has no such reading or reports that it cannot write the format.
#[verifier::external_body]
pub(crate) fn format_clock(clock: WallClock, format: &str) -> (r: Option<String>)
    ensures
        r.is_some() == clock_text(clock, format@).is_some(),
        r matches Some(text) ==> clock_text(clock, format@) == Some(text@),
{
    let naive = chrono::DateTime::from_timestamp(clock.seconds, clock.nanos)?.naive_utc();
    let mut text = String::new();
    match write!(text, "{}", naive.format(format)) {
        Ok(()) => Some(text),
        Err(_) => None,
    }
}

/// Calls `chrono::DateTime::checked_add_signed` with the delta that
/// `chrono::TimeDelta::try_minutes` makes. The contract names the result, and
/// says of a sum going forward what `chrono` documents: it counts sixty
/// seconds to the minute, keeps the fraction of the second and leaves a leap
/// second behind.
#[verifier::external_body]
pub(crate) fn plus_minutes(instant: Instant, minutes: i64) -> (r: Option<Instant>)
    ensures
        r == instant_after(instant, minutes as int),
        minutes > 0 ==> (r matches Some(end) ==> end.seconds == instant.seconds + 60 * minutes
            && end.nanos == instant.nanos % 1_000_000_000),
{
    let start = chrono::DateTime::from_timestamp(instant.seconds, instant.nanos)?;
    let end = start.checked_add_signed(chrono::TimeDelta::try_minutes(minutes)?)?;
    Some(Instant { seconds: end.timestamp(), nanos: end.timestamp_subsec_nanos() })
}

/// When a game starts: the instant, and the start as people read it.
#[derive(Debug)]
pub struct StartTime {
    pub instant: Instant,
    pub pretty: String,
}

/// A `StartTime` as plain values.
pub ghost struct StartModel {
    pub instant: Instant,
    pub pretty: Seq<char>,
}

impl View for StartTime {
    type V = StartModel;

    open spec fn view(&self) -> StartModel {
        StartModel { instant: self.instant, pretty: self.pretty@ }
    }
}

/// The start that a published start time stands for: the text is read as a
/// clock of the league's zone, whatever zone it claims, and turned into the
/// instant at which those clocks showed it.
pub open spec fn league_start(text: Seq<char>) -> Option<StartModel> {
    match parsed_clock(text, START_FORMAT@) {
        None => None,
        Some(clock) => match zone_instant(LEAGUE_ZONE@, clock) {
            None => None,
            Some(instant) => match clock_text(clock, PRETTY_FORMAT@) {
                None => None,
                Some(pretty) => Some(StartModel { instant, pretty }),
            },
        },
    }
}

/// Reads a published start time.
pub fn read_start(text: &str) -> (r: Option<StartTime>)
    ensures
        r.is_some() == league_start(text@).is_some(),
        r matches Some(start) ==> league_start(text@) == Some(start@),
{
    match parse_clock(text, START_FORMAT) {
        None => None,
        Some(clock) => {
            match local_instant(LEAGUE_ZONE, clock) {
                None => None,
                Some(instant) => match format_clock(clock, PRETTY_FORMAT) {
                    None => None,
                    Some(pretty) => Some(StartTime { instant, pretty }),
                },
            }
        },
    }
}

} // verus!
