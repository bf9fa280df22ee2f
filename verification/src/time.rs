//! Calendar times as certificates write them, and their place on the line of
//! seconds since 1970-01-01 00:00:00 UTC.
use vstd::prelude::*;

verus! {

/// A calendar time in UTC.
#[derive(Clone, Copy, Debug, PartialEq, Eq, Structural)]
pub struct CivilTime {
    pub year: u16,
    pub month: u8,
    pub day: u8,
    pub hour: u8,
    pub minute: u8,
    pub second: u8,
}

/// Whether a year of the Gregorian calendar has a 29th of February.
pub open spec fn is_leap_year(year: int) -> bool {
    year % 4 == 0 && (year % 100 != 0 || year % 400 == 0)
}

/// Days in a year.
pub open spec fn days_in_year(year: int) -> int {
    if is_leap_year(year) {
        366
    } else {
        365
    }
}

/// Days in a month; 0 for a month that does not exist.
pub open spec fn days_in_month(year: int, month: int) -> int {
    if month == 2 {
        if is_leap_year(year) {
            29
        } else {
            28
        }
    } else if month == 4 || month == 6 || month == 9 || month == 11 {
        30
    } else if 1 <= month <= 12 {
        31
    } else {
        0
    }
}

/// Days from 1970-01-01 to the first day of `year`.
pub open spec fn days_before_year(year: int) -> int
    decreases year,
{
    if year <= 1970 {
        0
    } else {
        days_before_year(year - 1) + days_in_year(year - 1)
    }
}

/// Days from the first day of `year` to the first day of `month` in it.
pub open spec fn days_before_month(year: int, month: int) -> int
    decreases month,
{
    if month <= 1 {
        0
    } else {
        days_before_month(year, month - 1) + days_in_month(year, month - 1)
    }
}

impl CivilTime {
    /// Whether the fields name a moment that exists, in 1970 or later.
    pub open spec fn valid(self) -> bool {
        &&& 1970 <= self.year <= 9999
        &&& 1 <= self.month <= 12
        &&& 1 <= self.day <= days_in_month(self.year as int, self.month as int)
        &&& self.hour <= 23
        &&& self.minute <= 59
        &&& self.second <= 59
    }

    /// Whether this time comes before another in the calendar: field by
    /// field, from the year down.
    pub open spec fn before(self, other: CivilTime) -> bool {
        ||| self.year < other.year
        ||| self.year == other.year && self.month < other.month
        ||| self.year == other.year && self.month == other.month && self.day < other.day
        ||| self.year == other.year && self.month == other.month && self.day == other.day
            && self.hour < other.hour
        ||| self.year == other.year && self.month == other.month && self.day == other.day
            && self.hour == other.hour && self.minute < other.minute
        ||| self.year == other.year && self.month == other.month && self.day == other.day
            && self.hour == other.hour && self.minute == other.minute && self.second
            < other.second
    }

    /// Seconds from 1970-01-01 00:00:00 UTC to this time.
    pub open spec fn unix_seconds(self) -> int {
        (days_before_year(self.year as int) + days_before_month(
            self.year as int,
            self.month as int,
        ) + self.day - 1) * 86400 + self.hour * 3600 + self.minute * 60 + self.second
    }

    /// The time's place on the line of seconds, or `None` where the fields
    /// name no moment in 1970 or later.
    pub fn to_unix_seconds(&self) -> (r: Option<u64>)
        ensures
            r is Some <==> self.valid(),
            r matches Some(t) ==> t == self.unix_seconds(),
    {
        if self.year < 1970 || self.year > 9999 || self.month < 1 || self.month > 12 {
            return None;
        }
        let year = self.year as u64;
        let leap = year % 4 == 0 && (year % 100 != 0 || year % 400 == 0);
        let month_days: u8 = if self.month == 2 {
            if leap {
                29
            } else {
                28
            }
        } else if self.month == 4 || self.month == 6 || self.month == 9 || self.month == 11 {
            30
        } else {
            31
        };
        if self.day < 1 || self.day > month_days || self.hour > 23 || self.minute > 59
            || self.second > 59 {
            return None;
        }
        let last = year - 1;
        let year_days: u64 = 365 * (year - 1970) + (last / 4 - last / 100 + last / 400) - 477;
        let mut month_start: u64 = if self.month == 1 {
            0
        } else if self.month == 2 {
            31
        } else if self.month == 3 {
            59
        } else if self.month == 4 {
            90
        } else if self.month == 5 {
            120
        } else if self.month == 6 {
            151
        } else if self.month == 7 {
            181
        } else if self.month == 8 {
            212
        } else if self.month == 9 {
            243
        } else if self.month == 10 {
            273
        } else if self.month == 11 {
            304
        } else {
            334
        };
        if leap && self.month > 2 {
            month_start = month_start + 1;
        }
        proof {
            days_before_year_closed(year as int);
            days_before_month_closed(year as int, self.month as int);
        }
        let days: u64 = year_days + month_start + (self.day as u64 - 1);
        Some(days * 86400 + self.hour as u64 * 3600 + self.minute as u64 * 60 + self.second as u64)
    }
}

/// Leap years before `year`, counted from year 1.
pub open spec fn leap_years_before(year: int) -> int {
    (year - 1) / 4 - (year - 1) / 100 + (year - 1) / 400
}

/// The days before a year in closed form.
pub proof fn days_before_year_closed(year: int)
    requires
        year >= 1970,
    ensures
        days_before_year(year) == 365 * (year - 1970) + leap_years_before(year) - 477,
        0 <= days_before_year(year) <= 366 * (year - 1970),
    decreases year,
{
    if year > 1970 {
        days_before_year_closed(year - 1);
    }
}

/// The days before a month as a table.
pub proof fn days_before_month_closed(year: int, month: int)
    requires
        1 <= month <= 12,
    ensures
        days_before_month(year, month) == (if month == 1 {
            0int
        } else if month == 2 {
            31
        } else if month == 3 {
            59
        } else if month == 4 {
            90
        } else if month == 5 {
            120
        } else if month == 6 {
            151
        } else if month == 7 {
            181
        } else if month == 8 {
            212
        } else if month == 9 {
            243
        } else if month == 10 {
            273
        } else if month == 11 {
            304
        } else {
            334
        }) + (if is_leap_year(year) && month > 2 {
            1int
        } else {
            0
        }),
{
    reveal_with_fuel(days_before_month, 13);
}

/// The days before a year grow with the year, by at least the days of each
/// year in between.
pub proof fn days_before_year_grows(earlier: int, later: int)
    requires
        1970 <= earlier <= later,
    ensures
        days_before_year(earlier) <= days_before_year(later),
        earlier < later ==> days_before_year(earlier) + days_in_year(earlier) <= days_before_year(
            later,
        ),
    decreases later - earlier,
{
    if earlier < later {
        days_before_year_grows(earlier, later - 1);
    }
}

proof fn earlier_has_fewer_seconds(a: CivilTime, b: CivilTime)
    requires
        a.valid(),
        b.valid(),
        a.before(b),
    ensures
        a.unix_seconds() < b.unix_seconds(),
{
    days_before_month_closed(a.year as int, a.month as int);
    days_before_month_closed(b.year as int, b.month as int);
    days_before_year_grows(a.year as int, b.year as int);
    let day_a = days_before_month(a.year as int, a.month as int) + a.day - 1;
    let day_b = days_before_month(b.year as int, b.month as int) + b.day - 1;
    assert(0 <= day_a < days_in_year(a.year as int));
    assert(0 <= day_b);
    let days_a = days_before_year(a.year as int) + day_a;
    let days_b = days_before_year(b.year as int) + day_b;
    if a.year == b.year && a.month == b.month && a.day == b.day {
        assert(days_a == days_b);
    } else {
        assert(days_a < days_b);
    }
}

/// The order of valid times on the line of seconds is their order in the
/// calendar, and no two of them share a second.
pub proof fn calendar_order_is_seconds_order(a: CivilTime, b: CivilTime)
    requires
        a.valid(),
        b.valid(),
    ensures
        a.before(b) <==> a.unix_seconds() < b.unix_seconds(),
        a == b <==> a.unix_seconds() == b.unix_seconds(),
{
    if a.before(b) {
        earlier_has_fewer_seconds(a, b);
    } else if b.before(a) {
        earlier_has_fewer_seconds(b, a);
    } else {
        assert(a == b);
    }
}

/// Whether an octet is an ASCII decimal digit.
pub open spec fn is_digit(b: u8) -> bool {
    0x30 <= b <= 0x39
}

/// The number that two decimal digits at `at` write.
pub open spec fn two_digits(s: Seq<u8>, at: int) -> int {
    (s[at] - 0x30) * 10 + (s[at + 1] - 0x30)
}

/// Whether the octets from `from` up to `to` are decimal digits.
pub open spec fn all_digits(s: Seq<u8>, from: int, to: int) -> bool {
    forall|i: int| from <= i < to ==> is_digit(#[trigger] s[i])
}

/// The calendar time that the contents of a time element write. A UTCTime
/// (identifier 0x17) has a two-digit year, read as 1950 to 2049; a
/// GeneralizedTime (identifier 0x18) has four. Both end in `Z` and carry
/// seconds, as certificates require.
pub open spec fn civil_time_of(tag: u8, s: Seq<u8>) -> Option<CivilTime> {
    if tag == 0x17 && s.len() == 13 && s[12] == 0x5a && all_digits(s, 0, 12) {
        let yy = two_digits(s, 0);
        Some(
            CivilTime {
                year: (if yy >= 50 {
                    1900 + yy
                } else {
                    2000 + yy
                }) as u16,
                month: two_digits(s, 2) as u8,
                day: two_digits(s, 4) as u8,
                hour: two_digits(s, 6) as u8,
                minute: two_digits(s, 8) as u8,
                second: two_digits(s, 10) as u8,
            },
        )
    } else if tag == 0x18 && s.len() == 15 && s[14] == 0x5a && all_digits(s, 0, 14) {
        Some(
            CivilTime {
                year: (two_digits(s, 0) * 100 + two_digits(s, 2)) as u16,
                month: two_digits(s, 4) as u8,
                day: two_digits(s, 6) as u8,
                hour: two_digits(s, 8) as u8,
                minute: two_digits(s, 10) as u8,
                second: two_digits(s, 12) as u8,
            },
        )
    } else {
        None
    }
}

/// The seconds since 1970 that a time element states, where it states a
/// valid time.
pub open spec fn seconds_of(tag: u8, s: Seq<u8>) -> Option<u64> {
    match civil_time_of(tag, s) {
        Some(t) => if t.valid() {
            Some(t.unix_seconds() as u64)
        } else {
            None
        },
        None => None,
    }
}

fn digits_only(s: &[u8], to: usize) -> (r: bool)
    requires
        to <= s@.len(),
    ensures
        r == all_digits(s@, 0, to as int),
{
    let mut i: usize = 0;
    while i < to
        invariant
            i <= to <= s@.len(),
            all_digits(s@, 0, i as int),
        decreases to - i,
    {
        if s[i] < 0x30 || s[i] > 0x39 {
            return false;
        }
        i += 1;
    }
    true
}

fn read_two(s: &[u8], at: usize) -> (v: u8)
    requires
        at + 1 < s@.len(),
        is_digit(s@[at as int]),
        is_digit(s@[at + 1]),
    ensures
        v == two_digits(s@, at as int),
        v <= 99,
{
    (s[at] - 0x30) * 10 + (s[at + 1] - 0x30)
}

/// Reads the contents of a time element.
pub fn parse_civil_time(tag: u8, s: &[u8]) -> (r: Option<CivilTime>)
    ensures
        r == civil_time_of(tag, s@),
{
    if tag == 0x17 && s.len() == 13 && s[12] == 0x5a && digits_only(s, 12) {
        let yy = read_two(s, 0) as u16;
        Some(
            CivilTime {
                year: if yy >= 50 {
                    1900 + yy
                } else {
                    2000 + yy
                },
                month: read_two(s, 2),
                day: read_two(s, 4),
                hour: read_two(s, 6),
                minute: read_two(s, 8),
                second: read_two(s, 10),
            },
        )
    } else if tag == 0x18 && s.len() == 15 && s[14] == 0x5a && digits_only(s, 14) {
        Some(
            CivilTime {
                year: read_two(s, 0) as u16 * 100 + read_two(s, 2) as u16,
                month: read_two(s, 4),
                day: read_two(s, 6),
                hour: read_two(s, 8),
                minute: read_two(s, 10),
                second: read_two(s, 12),
            },
        )
    } else {
        None
    }
}

/// Reads the contents of a time element as seconds since 1970.
pub fn parse_seconds(tag: u8, s: &[u8]) -> (r: Option<u64>)
    ensures
        r == seconds_of(tag, s@),
{
    match parse_civil_time(tag, s) {
        Some(t) => t.to_unix_seconds(),
        None => None,
    }
}

} // verus!
