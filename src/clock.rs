//! The local date and time at which a label is made, and its text
//! `DD/MM/YYYY,HH:MM`.

use vstd::prelude::*;
use chrono::{Datelike, Timelike};
use crate::calendar::is_calendar_date;
use crate::text::{decimal, four_digits, push_ascii, push_decimal, push_four_digits, push_two_digits, two_digits};

verus! {

/// A local date and time to the minute.
#[derive(Clone, Copy, Debug, PartialEq, Eq)]
pub struct LocalTime {
    pub year: i32,
    pub month: u32,
    pub day: u32,
    pub hour: u32,
    pub minute: u32,
}

impl LocalTime {
    /// A real day of the calendar and a real time of day.
    pub open spec fn wf(&self) -> bool {
        &&& is_calendar_date(self.year as int, self.month as int, self.day as int)
        &&& self.hour < 24
        &&& self.minute < 60
    }

    /// Relies on chrono's `Local::now` and its `Datelike` / `Timelike`
    /// accessors: a real local date, an hour below 24 and a minute below 60.
    #[verifier::external_body]
    pub(crate) fn now() -> (r: LocalTime)
        ensures
            r.wf(),
    {
        let now = chrono::Local::now();
        LocalTime {
            year: now.year(),
            month: now.month(),
            day: now.day(),
            hour: now.hour(),
            minute: now.minute(),
        }
    }
}

/// A year as four digits from 0 to 9999; outside that range with a sign and
/// at least four digits.
pub open spec fn year_text(y: int) -> Seq<char> {
    if 0 <= y <= 9999 {
        four_digits(y)
    } else if y > 9999 {
        seq!['+'] + decimal(y as nat)
    } else if -y <= 9999 {
        seq!['-'] + four_digits(-y)
    } else {
        seq!['-'] + decimal((-y) as nat)
    }
}

/// The text of a time stamp: `DD/MM/YYYY,HH:MM`.
pub open spec fn timestamp_text(t: LocalTime) -> Seq<char> {
    two_digits(t.day as int) + seq!['/'] + two_digits(t.month as int) + seq!['/'] + year_text(
        t.year as int,
    ) + seq![','] + two_digits(t.hour as int) + seq![':'] + two_digits(t.minute as int)
}

fn push_year(s: &mut String, y: i32)
    ensures
        final(s)@ == old(s)@ + year_text(y as int),
{
    if 0 <= y && y <= 9999 {
        push_four_digits(s, y as u32);
    } else if y > 9999 {
        push_ascii(s, '+');
        push_decimal(s, y as u64);
        assert(final(s)@ =~= old(s)@ + year_text(y as int));
    } else {
        let a: i64 = -(y as i64);
        push_ascii(s, '-');
        if a <= 9999 {
            push_four_digits(s, a as u32);
        } else {
            push_decimal(s, a as u64);
        }
        assert(final(s)@ =~= old(s)@ + year_text(y as int));
    }
}

/// Writes a time stamp as `DD/MM/YYYY,HH:MM`.
pub fn format_timestamp(t: &LocalTime) -> (r: String)
    requires
        t.wf(),
    ensures
        r@ == timestamp_text(*t),
{
    let mut s = String::new();
    push_two_digits(&mut s, t.day);
    push_ascii(&mut s, '/');
    push_two_digits(&mut s, t.month);
    push_ascii(&mut s, '/');
    push_year(&mut s, t.year);
    push_ascii(&mut s, ',');
    push_two_digits(&mut s, t.hour);
    push_ascii(&mut s, ':');
    push_two_digits(&mut s, t.minute);
    assert(s@ =~= timestamp_text(*t));
    s
}

} // verus!
