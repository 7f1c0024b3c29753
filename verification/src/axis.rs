//! Choosing the date and time fields shown on the ticks of the time axis.
//!
//! A tick label shows every calendar unit from the coarsest in which the two
//! ends of the window differ down to the finest that the width of the picture
//! can resolve.

use crate::error::Error;
use crate::time::{div_toward_zero, utc_civil, utc_date, Civil, TimeRange};
use vstd::prelude::*;

verus! {

/// A calendar unit, ordered from the second up to the year.
#[derive(Clone, Copy, Debug, PartialEq, Eq, Structural)]
pub enum Unit {
    S,
    Mi,
    H,
    D,
    Mo,
    Y,
}

impl Unit {
    /// Position of the unit in the order of coarseness: 0 for the second, 5
    /// for the year.
    pub open spec fn rank(self) -> int {
        match self {
            Unit::S => 0,
            Unit::Mi => 1,
            Unit::H => 2,
            Unit::D => 3,
            Unit::Mo => 4,
            Unit::Y => 5,
        }
    }

    /// The format directive that prints the unit.
    pub open spec fn token(self) -> Seq<char> {
        match self {
            Unit::S => seq!['%', 'S'],
            Unit::Mi => seq!['%', 'M'],
            Unit::H => seq!['%', 'H'],
            Unit::D => seq!['%', 'd'],
            Unit::Mo => seq!['%', 'm'],
            Unit::Y => seq!['%', 'Y'],
        }
    }

    /// The text that parts the unit from the next finer one.
    pub open spec fn separator(self) -> Seq<char> {
        match self {
            Unit::S => seq!['.'],
            Unit::Mi => seq![':'],
            Unit::H => seq![':'],
            Unit::D => seq![' '],
            Unit::Mo => seq!['-'],
            Unit::Y => seq!['-'],
        }
    }

    /// The coarsest unit as shown: a bare day of the month says little, so a
    /// day brings its month along.
    pub open spec fn shown_wide(self) -> Unit {
        if self == Unit::D {
            Unit::Mo
        } else {
            self
        }
    }

    /// The finest unit as shown: an hour is never shown without its minutes.
    pub open spec fn shown_narrow(self) -> Unit {
        if self == Unit::H {
            Unit::Mi
        } else {
            self
        }
    }

    /// Computes `rank`.
    pub fn rank_of(self) -> (r: u8)
        ensures
            r == self.rank(),
    {
        match self {
            Unit::S => 0,
            Unit::Mi => 1,
            Unit::H => 2,
            Unit::D => 3,
            Unit::Mo => 4,
            Unit::Y => 5,
        }
    }

    fn token_str(self) -> (t: &'static str)
        ensures
            t@ == self.token(),
    {
        proof {
            reveal_strlit("%S");
            reveal_strlit("%M");
            reveal_strlit("%H");
            reveal_strlit("%d");
            reveal_strlit("%m");
            reveal_strlit("%Y");
        }
        let t = match self {
            Unit::S => "%S",
            Unit::Mi => "%M",
            Unit::H => "%H",
            Unit::D => "%d",
            Unit::Mo => "%m",
            Unit::Y => "%Y",
        };
        assert(t@ =~= self.token());
        t
    }

    fn separator_str(self) -> (t: &'static str)
        ensures
            t@ == self.separator(),
    {
        proof {
            reveal_strlit(".");
            reveal_strlit(":");
            reveal_strlit(" ");
            reveal_strlit("-");
        }
        let t = match self {
            Unit::S => ".",
            Unit::Mi => ":",
            Unit::H => ":",
            Unit::D => " ",
            Unit::Mo => "-",
            Unit::Y => "-",
        };
        t
    }
}

/// The coarsest unit in which two calendar readings differ, `None` when they
/// agree down to the second.
pub open spec fn wide_of(a: Civil, b: Civil) -> Option<Unit> {
    if a.year != b.year {
        Some(Unit::Y)
    } else if a.month != b.month {
        Some(Unit::Mo)
    } else if a.day != b.day {
        Some(Unit::D)
    } else if a.hour != b.hour {
        Some(Unit::H)
    } else if a.minute != b.minute {
        Some(Unit::Mi)
    } else if a.second != b.second {
        Some(Unit::S)
    } else {
        None
    }
}

/// The finest unit worth showing when neighbouring pixels lie `pitch` seconds
/// apart.
pub open spec fn narrow_of(pitch: int) -> Unit {
    if pitch >= 86_400 {
        Unit::D
    } else if pitch >= 3_600 {
        Unit::H
    } else if pitch >= 60 {
        Unit::Mi
    } else {
        Unit::S
    }
}

/// What `u` adds to a label that runs from `wide` to `narrow`: its directive
/// and separator if it lies between the two, nothing otherwise.
pub open spec fn part(u: Unit, wide: Unit, narrow: Unit) -> Seq<char> {
    if narrow.rank() <= u.rank() <= wide.rank() {
        u.token() + u.separator()
    } else {
        Seq::empty()
    }
}

/// The parts of all units, coarsest first.
pub open spec fn all_parts(wide: Unit, narrow: Unit) -> Seq<char> {
    part(Unit::Y, wide, narrow) + part(Unit::Mo, wide, narrow) + part(Unit::D, wide, narrow)
        + part(Unit::H, wide, narrow) + part(Unit::Mi, wide, narrow) + part(
        Unit::S,
        wide,
        narrow,
    )
}

/// The format string for labels that run from `wide` to `narrow`: every unit
/// between the two, coarsest first, joined by the separators. It is empty
/// when `narrow` is coarser than `wide`.
pub open spec fn format_of(wide: Unit, narrow: Unit) -> Seq<char> {
    let parts = all_parts(wide, narrow);
    if parts.len() == 0 {
        parts
    } else {
        parts.drop_last()
    }
}

/// The format string for a window between the calendar readings `a` and `b`
/// drawn at `pitch` seconds per pixel, `None` when the readings agree.
pub open spec fn format_between(a: Civil, b: Civil, pitch: int) -> Option<Seq<char>> {
    match wide_of(a, b) {
        Some(wide) => Some(format_of(wide.shown_wide(), narrow_of(pitch).shown_narrow())),
        None => None,
    }
}

/// `text` ends with `tail`.
pub open spec fn ends_with(text: Seq<char>, tail: Seq<char>) -> bool {
    text.len() >= tail.len() && text.subrange(text.len() - tail.len(), text.len() as int) == tail
}

/// The format that shows month, day, hour and minute.
pub open spec fn month_to_minute() -> Seq<char> {
    seq!['%', 'm', '-', '%', 'd', ' ', '%', 'H', ':', '%', 'M']
}

/// The format that shows hour, minute and second.
pub open spec fn hour_to_second() -> Seq<char> {
    seq!['%', 'H', ':', '%', 'M', ':', '%', 'S']
}

/// A window whose ends lie on different days, drawn at a minute or more but
/// less than a day per pixel, is labelled down from the month to the minute:
/// the format ends with month, day, hour and minute, whatever stands before.
pub proof fn lemma_days_at_minute_pitch(a: Civil, b: Civil, pitch: int)
    requires
        a.year != b.year || a.month != b.month || a.day != b.day,
        60 <= pitch < 86_400,
    ensures
        format_between(a, b, pitch) matches Some(f) && ends_with(f, month_to_minute()),
{
    let wide = wide_of(a, b)->Some_0.shown_wide();
    let narrow = narrow_of(pitch).shown_narrow();
    let f = format_of(wide, narrow);
    if wide == Unit::Mo {
        assert(f =~= month_to_minute());
        assert(f.subrange(0, f.len() as int) =~= f);
    } else {
        assert(f.subrange(3, f.len() as int) =~= month_to_minute());
    }
}

/// A window whose ends lie in different hours, drawn at less than a minute
/// per pixel, is labelled down to the second: the format ends with hour,
/// minute and second, whatever stands before.
pub proof fn lemma_hours_at_second_pitch(a: Civil, b: Civil, pitch: int)
    requires
        a.year != b.year || a.month != b.month || a.day != b.day || a.hour != b.hour,
        pitch < 60,
    ensures
        format_between(a, b, pitch) matches Some(f) && ends_with(f, hour_to_second()),
{
    let wide = wide_of(a, b)->Some_0.shown_wide();
    let narrow = narrow_of(pitch).shown_narrow();
    let f = format_of(wide, narrow);
    if wide == Unit::H {
        assert(f =~= hour_to_second());
        assert(f.subrange(0, f.len() as int) =~= f);
    } else if wide == Unit::Mo {
        assert(f.subrange(6, f.len() as int) =~= hour_to_second());
    } else {
        assert(f.subrange(9, f.len() as int) =~= hour_to_second());
    }
}

/// The range of units that a tick label shows.
#[derive(Clone, Copy, Debug, PartialEq, Eq, Structural)]
pub struct Granularity {
    pub wide: Unit,
    pub narrow: Unit,
}

/// The text that is still owed after the unit added last.
pub open spec fn owed(pending: Option<Unit>) -> Seq<char> {
    match pending {
        Some(u) => u.separator(),
        None => Seq::empty(),
    }
}

fn push_unit(s: &mut String, u: Unit, g: Granularity, pending: Option<Unit>) -> (next: Option<
    Unit,
>)
    ensures
        final(s)@ + owed(next) == old(s)@ + owed(pending) + part(u, g.wide, g.narrow),
        pending is Some ==> next is Some,
        part(u, g.wide, g.narrow).len() > 0 ==> next is Some,
{
    let r = u.rank_of();
    if g.narrow.rank_of() <= r && r <= g.wide.rank_of() {
        match pending {
            Some(p) => {
                s.append(p.separator_str());
            },
            None => {},
        }
        s.append(u.token_str());
        assert(s@ + u.separator() =~= old(s)@ + owed(pending) + part(u, g.wide, g.narrow));
        Some(u)
    } else {
        pending
    }
}

impl Granularity {
    /// The format string that shows the units from `wide` down to `narrow`.
    pub fn format(&self) -> (s: String)
        ensures
            s@ == format_of(self.wide, self.narrow),
    {
        let g = *self;
        let mut s = String::new();
        let none: Option<Unit> = None;
        let year = push_unit(&mut s, Unit::Y, g, none);
        let month = push_unit(&mut s, Unit::Mo, g, year);
        let day = push_unit(&mut s, Unit::D, g, month);
        let hour = push_unit(&mut s, Unit::H, g, day);
        let minute = push_unit(&mut s, Unit::Mi, g, hour);
        let last = push_unit(&mut s, Unit::S, g, minute);
        s
    }
}

/// The coarsest unit in which `a` and `b` differ.
pub fn wide_unit(a: &Civil, b: &Civil) -> (r: Option<Unit>)
    ensures
        r == wide_of(*a, *b),
{
    if a.year != b.year {
        Some(Unit::Y)
    } else if a.month != b.month {
        Some(Unit::Mo)
    } else if a.day != b.day {
        Some(Unit::D)
    } else if a.hour != b.hour {
        Some(Unit::H)
    } else if a.minute != b.minute {
        Some(Unit::Mi)
    } else if a.second != b.second {
        Some(Unit::S)
    } else {
        None
    }
}

/// The finest unit worth showing at `pitch` seconds per pixel.
pub fn narrow_unit(pitch: i128) -> (r: Unit)
    ensures
        r == narrow_of(pitch as int),
{
    if pitch >= 86_400 {
        Unit::D
    } else if pitch >= 3_600 {
        Unit::H
    } else if pitch >= 60 {
        Unit::Mi
    } else {
        Unit::S
    }
}

/// Seconds of the window that fall on one pixel of a picture `width` pixels
/// wide, rounded towards zero.
pub fn pitch(range: &TimeRange, width: u32) -> (p: i128)
    requires
        width > 0,
    ensures
        p == div_toward_zero(range.seconds(), width as int),
{
    let span = range.num_seconds();
    span / (width as i128)
}

/// The units to show for a window between the calendar readings `a` and `b`
/// at `pitch` seconds per pixel, `None` when the readings agree down to the
/// second.
pub fn granularity(a: &Civil, b: &Civil, pitch: i128) -> (r: Option<Granularity>)
    ensures
        match wide_of(*a, *b) {
            Some(wide) => r == Some(
                Granularity {
                    wide: wide.shown_wide(),
                    narrow: narrow_of(pitch as int).shown_narrow(),
                },
            ),
            None => r is None,
        },
{
    match wide_unit(a, b) {
        Some(w) => {
            let n = narrow_unit(pitch);
            let wide = if w == Unit::D {
                Unit::Mo
            } else {
                w
            };
            let narrow = if n == Unit::H {
                Unit::Mi
            } else {
                n
            };
            Some(Granularity { wide, narrow })
        },
        None => None,
    }
}

/// The format string for tick labels of a window between the calendar
/// readings `a` and `b` at `pitch` seconds per pixel. Fails with
/// `UnsupportedTimeSpan` exactly when the readings agree down to the second.
pub fn date_format_between(a: &Civil, b: &Civil, pitch: i128) -> (r: Result<String, Error>)
    ensures
        match format_between(*a, *b, pitch as int) {
            Some(f) => r is Ok && r->Ok_0@ == f,
            None => r == Err::<String, Error>(Error::UnsupportedTimeSpan),
        },
{
    match granularity(a, b, pitch) {
        Some(g) => Ok(g.format()),
        None => Err(Error::UnsupportedTimeSpan),
    }
}

/// What `date_format` returns for a window whose ends read `start` and `end`
/// on the calendar.
pub open spec fn date_format_of(
    start: Option<Civil>,
    end: Option<Civil>,
    pitch: int,
) -> Result<Seq<char>, Error> {
    match (start, end) {
        (Some(a), Some(b)) => match format_between(a, b, pitch) {
            Some(f) => Ok(f),
            None => Err(Error::UnsupportedTimeSpan),
        },
        _ => Err(Error::TimeOutOfRange),
    }
}

/// The format of the time labels for `range` on a picture `width` pixels
/// wide, or the reason why there is none: `TimeOutOfRange` where an end of
/// the window has no calendar reading, `UnsupportedTimeSpan` where both ends
/// read the same down to the second.
pub open spec fn time_format(range: TimeRange, width: u32) -> Result<Seq<char>, Error> {
    date_format_of(
        utc_civil(range.start.secs as int),
        utc_civil(range.end.secs as int),
        div_toward_zero(range.seconds(), width as int),
    )
}

/// The format string for tick labels on the time axis of a picture `width`
/// pixels wide that shows `range`.
///
/// Fails with `TimeOutOfRange` when an end of the window has no calendar
/// reading, and with `UnsupportedTimeSpan` when both ends read the same down
/// to the second.
pub fn date_format(range: &TimeRange, width: u32) -> (r: Result<String, Error>)
    requires
        width > 0,
    ensures
        match time_format(*range, width) {
            Ok(f) => r is Ok && r->Ok_0@ == f,
            Err(e) => r == Err::<String, Error>(e),
        },
{
    match (range.start.civil(), range.end.civil()) {
        (Some(a), Some(b)) => date_format_between(&a, &b, pitch(range, width)),
        _ => Err(Error::TimeOutOfRange),
    }
}

/// A window whose ends lie in the same second has no time format: its ends
/// differ only below the second, if at all.
pub proof fn lemma_same_second(range: TimeRange, width: u32)
    requires
        range.start.secs == range.end.secs,
    ensures
        time_format(range, width) is Err,
        utc_date(range.start.secs as int / 86_400) is Some ==> time_format(range, width) == Err::<
            Seq<char>,
            Error,
        >(Error::UnsupportedTimeSpan),
{
}

/// A window that lies within one day of the calendar and whose ends lie in
/// different seconds has a time format: the clock tells its ends apart.
pub proof fn lemma_same_day(range: TimeRange, width: u32)
    requires
        range.start.secs != range.end.secs,
        range.start.secs as int / 86_400 == range.end.secs as int / 86_400,
        utc_date(range.start.secs as int / 86_400) is Some,
    ensures
        time_format(range, width) is Ok,
{
}

} // verus!
