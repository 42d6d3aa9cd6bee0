//! Instants, UTC offsets and the timestamp of the CSV export.
//!
//! Storage keeps absolute instants. An offset is applied only when a reading
//! is exported as CSV: the export shows the calendar date and the time of day
//! that a clock set to that offset shows at the stored instant.

use vstd::prelude::*;
use crate::text::{padded, push_char, push_padded};

verus! {

/// The number of seconds in an hour.
pub const SECONDS_PER_HOUR: i64 = 3600;

/// The largest number of hours by which an offset may lie east or west of
/// UTC.
pub const MAX_OFFSET_HOURS: i8 = 25;

/// An offset from UTC, in whole hours; negative to the west.
#[derive(Clone, Copy, Debug, PartialEq, Eq, Structural)]
pub struct UtcOffset {
    pub hours: i8,
}

/// The value of a decimal digit.
pub open spec fn digit_value(c: char) -> Option<int> {
    if '0' <= c && c <= '9' {
        Some(c as int - '0' as int)
    } else {
        None
    }
}

/// The number that one or two decimal digits write.
pub open spec fn hour_magnitude(s: Seq<char>) -> Option<int> {
    if s.len() == 1 {
        digit_value(s[0])
    } else if s.len() == 2 {
        match (digit_value(s[0]), digit_value(s[1])) {
            (Some(tens), Some(units)) => Some(10 * tens + units),
            _ => None,
        }
    } else {
        None
    }
}

/// The offset that a text writes: an optional `+` or `-`, then one or two
/// decimal digits that give at most 25 hours, and nothing else.
pub open spec fn written_offset(s: Seq<char>) -> Option<int> {
    let signed = s.len() > 0 && (s[0] == '+' || s[0] == '-');
    let negative = s.len() > 0 && s[0] == '-';
    let rest = if signed {
        s.skip(1)
    } else {
        s
    };
    match hour_magnitude(rest) {
        Some(m) => if m <= MAX_OFFSET_HOURS as int {
            Some(
                if negative {
                    -m
                } else {
                    m
                },
            )
        } else {
            None
        },
        None => None,
    }
}

fn digit_of(c: char) -> (d: Option<i8>)
    ensures
        match d {
            Some(v) => digit_value(c) == Some(v as int),
            None => digit_value(c) is None,
        },
{
    if '0' <= c && c <= '9' {
        Some((c as u32 - '0' as u32) as i8)
    } else {
        None
    }
}

impl UtcOffset {
    /// An offset is well formed when it is at most 25 hours either way.
    pub open spec fn wf(self) -> bool {
        -(MAX_OFFSET_HOURS as int) <= self.hours <= MAX_OFFSET_HOURS as int
    }

    /// The offset of UTC itself.
    pub fn utc() -> (offset: UtcOffset)
        ensures
            offset.hours == 0,
            offset.wf(),
    {
        UtcOffset { hours: 0 }
    }

    /// The offset of the given number of hours, where there is one.
    pub fn from_hours(hours: i8) -> (offset: Option<UtcOffset>)
        ensures
            offset == (if -25 <= hours <= 25 {
                Some(UtcOffset { hours })
            } else {
                None
            }),
    {
        if -MAX_OFFSET_HOURS <= hours && hours <= MAX_OFFSET_HOURS {
            Some(UtcOffset { hours })
        } else {
            None
        }
    }

    pub fn whole_hours(&self) -> (hours: i8)
        ensures
            hours == self.hours,
    {
        self.hours
    }

    /// Reads an offset from its compact form: hours only, with or without a
    /// sign, with or without a leading zero.
    pub fn parse(text: &str) -> (offset: Option<UtcOffset>)
        ensures
            match offset {
                Some(o) => written_offset(text@) == Some(o.hours as int) && o.wf(),
                None => written_offset(text@) is None,
            },
    {
        let len = text.unicode_len();
        if len == 0 || len > 3 {
            return None;
        }
        let first = text.get_char(0);
        let signed = first == '+' || first == '-';
        let negative = first == '-';
        let start: usize = if signed {
            1
        } else {
            0
        };
        proof {
            let rest = if signed {
                text@.skip(1)
            } else {
                text@
            };
            assert(rest.len() == len - start);
            assert(forall|k: int| 0 <= k < rest.len() ==> rest[k] == text@[k + start]);
        }
        let magnitude: i8 = if len - start == 1 {
            match digit_of(text.get_char(start)) {
                Some(units) => units,
                None => {
                    return None;
                },
            }
        } else if len - start == 2 {
            match (digit_of(text.get_char(start)), digit_of(text.get_char(start + 1))) {
                (Some(tens), Some(units)) => 10 * tens + units,
                _ => {
                    return None;
                },
            }
        } else {
            return None;
        };
        if magnitude > MAX_OFFSET_HOURS {
            return None;
        }
        Some(
            UtcOffset {
                hours: if negative {
                    -magnitude
                } else {
                    magnitude
                },
            },
        )
    }
}

/// A date and a time of day, as a calendar and a clock show them.
#[derive(Clone, Copy, Debug, PartialEq, Eq, Structural)]
pub struct CivilTime {
    pub year: i32,
    pub month: u8,
    pub day: u8,
    pub hour: u8,
    pub minute: u8,
    pub second: u8,
}

/// What a calendar and a clock set to UTC show at the instant that lies the
/// given number of seconds after the Unix epoch; `None` where the instant is
/// outside the years that the calendar covers.
pub uninterp spec fn utc_reading(unix_seconds: int) -> Option<CivilTime>;

/// `time::OffsetDateTime::from_unix_timestamp`, read through the getters of
/// the date-time: the UTC date and time of day of an instant, or nothing
/// where the function refuses the instant. All that is claimed is that the
/// outcome depends on the instant alone.
#[verifier::external_body]
fn read_utc(unix_seconds: i64) -> (reading: Option<CivilTime>)
    ensures
        reading == utc_reading(unix_seconds as int),
{
    let at = time::OffsetDateTime::from_unix_timestamp(unix_seconds).ok()?;
    Some(
        CivilTime {
            year: at.year(),
            month: u8::from(at.month()),
            day: at.day(),
            hour: at.hour(),
            minute: at.minute(),
            second: at.second(),
        },
    )
}

/// An instant, together with the offset at which it is shown.
#[derive(Clone, Copy, Debug, PartialEq, Eq, Structural)]
pub struct OffsetDateTime {
    /// Whole seconds since the Unix epoch.
    pub seconds: i64,
    /// Nanoseconds into the second.
    pub nanos: u32,
    /// The offset of the clock that shows the instant.
    pub offset: UtcOffset,
}

impl OffsetDateTime {
    /// The instant at which a clock set to UTC shows what a clock set to
    /// this value's offset shows at this value's instant: as many hours
    /// later as the offset lies east.
    pub open spec fn shifted_seconds(self) -> int {
        self.seconds + SECONDS_PER_HOUR as int * self.offset.hours as int
    }

    /// The same instant, shown at another offset.
    pub open spec fn at_offset(self, offset: UtcOffset) -> OffsetDateTime {
        OffsetDateTime { offset, ..self }
    }

    /// The date and time of day that this value shows.
    pub open spec fn reading(self) -> Option<CivilTime> {
        if i64::MIN <= self.shifted_seconds() <= i64::MAX {
            utc_reading(self.shifted_seconds())
        } else {
            None
        }
    }

    /// An instant, shown at UTC.
    pub fn from_unix_timestamp(seconds: i64, nanos: u32) -> (at: OffsetDateTime)
        ensures
            at == (OffsetDateTime { seconds, nanos, offset: UtcOffset { hours: 0 } }),
    {
        OffsetDateTime { seconds, nanos, offset: UtcOffset::utc() }
    }

    /// The same instant, shown at another offset.
    pub fn to_offset(self, offset: UtcOffset) -> (at: OffsetDateTime)
        ensures
            at == self.at_offset(offset),
    {
        OffsetDateTime { seconds: self.seconds, nanos: self.nanos, offset }
    }

    /// Reads the date and the time of day off this value.
    pub fn civil(&self) -> (reading: Option<CivilTime>)
        ensures
            reading == self.reading(),
    {
        let shift: i64 = SECONDS_PER_HOUR * (self.offset.hours as i64);
        match self.seconds.checked_add(shift) {
            Some(shifted) => read_utc(shifted),
            None => None,
        }
    }
}

/// Whether one value shows an earlier instant than another, whatever their
/// offsets.
pub open spec fn earlier(a: OffsetDateTime, b: OffsetDateTime) -> bool {
    a.seconds < b.seconds || (a.seconds == b.seconds && a.nanos < b.nanos)
}

pub fn is_earlier(a: &OffsetDateTime, b: &OffsetDateTime) -> (r: bool)
    ensures
        r == earlier(*a, *b),
{
    a.seconds < b.seconds || (a.seconds == b.seconds && a.nanos < b.nanos)
}

/// The sign of an offset, as the export writes it.
pub open spec fn sign_char(hours: int) -> char {
    if hours < 0 {
        '-'
    } else {
        '+'
    }
}

/// The year, as the export writes it: at least four digits, after a `-`
/// where the year is negative.
pub open spec fn year_text(year: int) -> Seq<char> {
    if year < 0 {
        seq!['-'] + padded((-year) as nat, 4)
    } else {
        padded(year as nat, 4)
    }
}

/// The timestamp of the export, `DD/MM/YYYY HH:MM:SS ±HH`: a reading and
/// the offset at which it was taken.
pub open spec fn timestamp_text(t: CivilTime, offset_hours: int) -> Seq<char> {
    padded(t.day as nat, 2) + seq!['/'] + padded(t.month as nat, 2) + seq!['/'] + year_text(
        t.year as int,
    ) + seq![' '] + padded(t.hour as nat, 2) + seq![':'] + padded(t.minute as nat, 2) + seq![':']
        + padded(t.second as nat, 2) + seq![' ', sign_char(offset_hours)] + padded(
        (if offset_hours < 0 {
            -offset_hours
        } else {
            offset_hours
        }) as nat,
        2,
    )
}

/// Writes the timestamp of the export.
pub fn format_timestamp(t: &CivilTime, offset: UtcOffset) -> (text: String)
    ensures
        text@ == timestamp_text(*t, offset.hours as int),
{
    let mut out = String::new();
    push_padded(&mut out, t.day as u32, 2);
    push_char(&mut out, '/');
    push_padded(&mut out, t.month as u32, 2);
    push_char(&mut out, '/');
    if t.year < 0 {
        push_char(&mut out, '-');
        push_padded(&mut out, (-(t.year as i64)) as u32, 4);
    } else {
        push_padded(&mut out, t.year as u32, 4);
    }
    push_char(&mut out, ' ');
    push_padded(&mut out, t.hour as u32, 2);
    push_char(&mut out, ':');
    push_padded(&mut out, t.minute as u32, 2);
    push_char(&mut out, ':');
    push_padded(&mut out, t.second as u32, 2);
    push_char(&mut out, ' ');
    if offset.hours < 0 {
        push_char(&mut out, '-');
    } else {
        push_char(&mut out, '+');
    }
    let magnitude: i32 = if offset.hours < 0 {
        -(offset.hours as i32)
    } else {
        offset.hours as i32
    };
    push_padded(&mut out, magnitude as u32, 2);
    proof {
        assert(out@ =~= timestamp_text(*t, offset.hours as int));
    }
    out
}

} // verus!
