//! UTC instants: the library's own representation, and the system clock.

use vstd::prelude::*;

verus! {

/// An instant in UTC, as whole seconds since the Unix epoch plus the
/// nanoseconds past that second, as `chrono` splits a UTC date-time with
/// `DateTime::timestamp` and `DateTime::timestamp_subsec_nanos`.
///
/// `nanos` is below 1,000,000,000 except during a leap second, where it
/// may reach 1,999,999,999. Instants are ordered and subtracted as `chrono`
/// orders and subtracts date-times, leap seconds included (see [`before`]
/// and [`elapsed`]).
#[derive(Debug, Clone, Copy, PartialEq, Eq, Structural)]
pub struct UnixTime {
    /// Non-leap seconds since 1970-01-01T00:00:00Z.
    pub secs: i64,
    /// Nanoseconds past `secs`.
    pub nanos: u32,
}

/// Nanoseconds in a second.
pub const NANOS_PER_SEC: i128 = 1_000_000_000;

/// `a` is strictly earlier than `b`: `chrono`'s order, by seconds and then
/// by nanoseconds (a leap-second instant comes before the following
/// second).
pub open spec fn before(a: UnixTime, b: UnixTime) -> bool {
    a.secs < b.secs || (a.secs == b.secs && a.nanos < b.nanos)
}

/// The second of the day that `t` falls in (0 to 86,399).
pub open spec fn second_of_day(t: UnixTime) -> int {
    (t.secs as int) % 86_400
}

/// The correction `chrono` makes for a leap second between two times of
/// day, in seconds: the difference of whole seconds still has to count a
/// leap second that the earlier side is in.
pub open spec fn leap_correction(a: UnixTime, b: UnixTime) -> int {
    if second_of_day(a) > second_of_day(b) && b.nanos >= 1_000_000_000 {
        1
    } else if second_of_day(a) < second_of_day(b) && a.nanos >= 1_000_000_000 {
        -1
    } else {
        0
    }
}

/// The time from `b` to `a` in nanoseconds, as `chrono` computes
/// `a - b` for UTC date-times (`NaiveDateTime::signed_duration_since`).
/// For instants outside a leap second this is the plain difference.
pub open spec fn elapsed(a: UnixTime, b: UnixTime) -> int {
    (a.secs - b.secs + leap_correction(a, b)) * 1_000_000_000 + a.nanos - b.nanos
}

impl UnixTime {
    /// The instant as a number of nanoseconds since the Unix epoch; a
    /// leap-second instant lands on the following second.
    pub open spec fn total_nanos(self) -> int {
        self.secs * 1_000_000_000 + self.nanos
    }

    /// The instant as a number of nanoseconds since the Unix epoch.
    pub fn as_nanos(&self) -> (r: i128)
        ensures
            r == self.total_nanos(),
    {
        self.secs as i128 * NANOS_PER_SEC + self.nanos as i128
    }

    /// The second of the day that the instant falls in.
    pub fn second_of_day(&self) -> (r: u32)
        ensures
            r == second_of_day(*self),
    {
        // A multiple of a day that lifts every `i64` to a non-negative value.
        let lift: i128 = 86_400 * 106_751_991_167_301;
        let shifted = self.secs as i128 + lift;
        let r = (shifted as u128 % 86_400) as u32;
        proof {
            vstd::arithmetic::div_mod::lemma_mod_multiples_vanish(
                106_751_991_167_301,
                self.secs as int,
                86_400,
            );
            assert(86_400 * 106_751_991_167_301 + self.secs as int == shifted as int);
        }
        r
    }

    /// Whether the instant is strictly earlier than `other`.
    pub fn is_before(&self, other: &UnixTime) -> (r: bool)
        ensures
            r == before(*self, *other),
    {
        self.secs < other.secs || (self.secs == other.secs && self.nanos < other.nanos)
    }

    /// The time from `earlier` to this instant in nanoseconds, as `chrono`
    /// subtracts date-times.
    pub fn elapsed_since(&self, earlier: &UnixTime) -> (r: i128)
        ensures
            r == elapsed(*self, *earlier),
    {
        let a_day = self.second_of_day();
        let b_day = earlier.second_of_day();
        let correction: i128 = if a_day > b_day && earlier.nanos >= 1_000_000_000 {
            1
        } else if a_day < b_day && self.nanos >= 1_000_000_000 {
            -1
        } else {
            0
        };
        (self.secs as i128 - earlier.secs as i128 + correction) * NANOS_PER_SEC
            + self.nanos as i128 - earlier.nanos as i128
    }
}

/// Reads the system clock: calls `std::time::SystemTime::now()`, converts
/// the reading with `chrono`'s `DateTime::<Utc>::from(SystemTime)`, and
/// splits the result with `DateTime::timestamp` and
/// `DateTime::timestamp_subsec_nanos`.
///
/// Trusted. Nothing is stated of the instant, which is the clock's reading,
/// but that it is never a leap-second instant: the conversion builds the
/// date-time from a `Duration`'s sub-second nanoseconds, which `std`
/// documents to lie below 1,000,000,000, and `timestamp_subsec_nanos`
/// gives them back. The conversion handles readings before
/// the Unix epoch (where `chrono::Utc::now()` would panic); it unwraps
/// `chrono`'s range check, so it panics only for a clock reading beyond
/// the years `chrono` can represent (about 262,000 years from now).
#[verifier::external_body]
fn read_clock() -> (r: UnixTime)
    ensures
        r.nanos < 1_000_000_000,
{
    let t = chrono::DateTime::<chrono::Utc>::from(std::time::SystemTime::now());
    UnixTime { secs: t.timestamp(), nanos: t.timestamp_subsec_nanos() }
}

/// Whether `chrono::DateTime::from_timestamp(secs, nanos)` yields a
/// date-time: the seconds fall within `chrono`'s dates (years -262143 to
/// 262142), and the nanoseconds are below 1,000,000,000, or below
/// 2,000,000,000 in the last second of a minute (a leap second).
pub open spec fn date_time_exists(secs: i64, nanos: u32) -> bool {
    &&& -8_334_601_228_800 <= secs <= 8_210_266_876_799
    &&& (nanos < 1_000_000_000 || (nanos < 2_000_000_000 && (secs as int) % 60 == 59))
}

/// The `{:?}` rendering of the `chrono` UTC date-time at `secs` and
/// `nanos` (such as `2015-05-15T00:00:00Z`).
pub uninterp spec fn date_time_debug_text(secs: i64, nanos: u32) -> Seq<char>;

/// Calls `chrono::DateTime::from_timestamp(t.secs, t.nanos)` and renders
/// the date-time with `{:?}`.
///
/// Trusted: the result is present exactly when `from_timestamp` yields a
/// date-time, which its source decides as [`date_time_exists`] states,
/// and is then its debug text, which depends on the two numbers alone.
#[verifier::external_body]
pub(crate) fn date_time_debug(t: UnixTime) -> (r: Option<String>)
    ensures
        (r is Some) == date_time_exists(t.secs, t.nanos),
        r matches Some(s) ==> s@ == date_time_debug_text(t.secs, t.nanos),
{
    let d = chrono::DateTime::from_timestamp(t.secs, t.nanos)?;
    Some(format!("{d:?}"))
}

/// The current instant, as the system clock reads it.
pub fn now() -> (r: UnixTime)
    ensures
        r.nanos < 1_000_000_000,
{
    read_clock()
}

} // verus!
