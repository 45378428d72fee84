//! Gregorian calendar dates and the normalisation of a typed date of birth
//! into `DD/MM/YYYY`.

use vstd::prelude::*;
use crate::text::{collect_digits, digit_value, digits_of, is_digit, push_ascii};

verus! {

/// A leap year of the proleptic Gregorian calendar.
pub open spec fn is_leap_year(year: int) -> bool {
    (year % 4 == 0 && year % 100 != 0) || year % 400 == 0
}

/// The number of days of `month` (1 to 12) in `year`.
pub open spec fn days_in_month(year: int, month: int) -> int {
    if month == 2 {
        if is_leap_year(year) { 29 } else { 28 }
    } else if month == 4 || month == 6 || month == 9 || month == 11 {
        30
    } else {
        31
    }
}

/// `day`/`month`/`year` names a day of the proleptic Gregorian calendar.
pub open spec fn is_calendar_date(year: int, month: int, day: int) -> bool {
    1 <= month <= 12 && 1 <= day <= days_in_month(year, month)
}

/// Relies on chrono's `NaiveDate::from_ymd_opt`, which returns `None`
/// exactly when the day does not exist or the year is outside chrono's
/// range; years 0 to 9999 all lie inside it.
#[verifier::external_body]
fn calendar_date_exists(year: i32, month: u32, day: u32) -> (r: bool)
    requires
        0 <= year <= 9999,
    ensures
        r == is_calendar_date(year as int, month as int, day as int),
{
    chrono::NaiveDate::from_ymd_opt(year, month, day).is_some()
}

/// Day, month and year read from eight digits laid out as `DDMMYYYY`.
pub open spec fn day_of(c: Seq<char>) -> int {
    10 * digit_value(c[0]) + digit_value(c[1])
}

pub open spec fn month_of(c: Seq<char>) -> int {
    10 * digit_value(c[2]) + digit_value(c[3])
}

pub open spec fn year_of(c: Seq<char>) -> int {
    1000 * digit_value(c[4]) + 100 * digit_value(c[5]) + 10 * digit_value(c[6]) + digit_value(
        c[7],
    )
}

/// What a typed date normalises to: its ASCII digits, which must be eight
/// and name a real day read as `DDMMYYYY`, written back as `DD/MM/YYYY`.
pub open spec fn normalize_date(s: Seq<char>) -> Option<Seq<char>> {
    let c = digits_of(s);
    if c.len() == 8 && is_calendar_date(year_of(c), month_of(c), day_of(c)) {
        Some(seq![c[0], c[1], '/', c[2], c[3], '/', c[4], c[5], c[6], c[7]])
    } else {
        None
    }
}

/// Every character of `s` is an ASCII digit.
pub open spec fn all_digits(s: Seq<char>) -> bool {
    forall|i: int| 0 <= i < s.len() ==> is_digit(#[trigger] s[i])
}

proof fn lemma_digits_of_digits(s: Seq<char>)
    requires
        all_digits(s),
    ensures
        digits_of(s) == s,
    decreases s.len(),
{
    if s.len() > 0 {
        lemma_digits_of_digits(s.drop_last());
        assert(is_digit(s[s.len() - 1]));
        assert(s.drop_last().push(s.last()) =~= s);
    }
}

proof fn lemma_digits_of_are_digits(s: Seq<char>)
    ensures
        all_digits(digits_of(s)),
    decreases s.len(),
{
    if s.len() > 0 {
        lemma_digits_of_are_digits(s.drop_last());
    }
}

proof fn lemma_digits_of_push(s: Seq<char>, c: char)
    ensures
        digits_of(s.push(c)) == (if is_digit(c) {
            digits_of(s).push(c)
        } else {
            digits_of(s)
        }),
{
    assert(s.push(c).drop_last() =~= s);
}

/// Normalises a typed date of birth: keeps its ASCII digits, which must be
/// eight and name a real day as `DDMMYYYY`, and returns them as
/// `DD/MM/YYYY`; `None` otherwise.
pub fn format_date_ddmmyyyy(input: &str) -> (r: Option<String>)
    ensures
        match r {
            Some(t) => normalize_date(input@) == Some(t@),
            None => normalize_date(input@) is None,
        },
{
    let c = collect_digits(input);
    if c.len() != 8 {
        return None;
    }
    proof {
        lemma_digits_of_are_digits(input@);
        assert(is_digit(c@[0]) && is_digit(c@[1]) && is_digit(c@[2]) && is_digit(c@[3]));
        assert(is_digit(c@[4]) && is_digit(c@[5]) && is_digit(c@[6]) && is_digit(c@[7]));
    }
    let day: u32 = 10 * ((c[0] as u32) - 48) + ((c[1] as u32) - 48);
    let month: u32 = 10 * ((c[2] as u32) - 48) + ((c[3] as u32) - 48);
    let year: u32 = 1000 * ((c[4] as u32) - 48) + 100 * ((c[5] as u32) - 48) + 10 * ((c[6] as u32)
        - 48) + ((c[7] as u32) - 48);
    if !calendar_date_exists(year as i32, month, day) {
        return None;
    }
    let mut out = String::new();
    push_ascii(&mut out, c[0]);
    push_ascii(&mut out, c[1]);
    push_ascii(&mut out, '/');
    push_ascii(&mut out, c[2]);
    push_ascii(&mut out, c[3]);
    push_ascii(&mut out, '/');
    push_ascii(&mut out, c[4]);
    push_ascii(&mut out, c[5]);
    push_ascii(&mut out, c[6]);
    push_ascii(&mut out, c[7]);
    assert(out@ =~= seq![c@[0], c@[1], '/', c@[2], c@[3], '/', c@[4], c@[5], c@[6], c@[7]]);
    Some(out)
}

/// Separators do not matter: a typed date normalises as the bare string of
/// its digits does.
pub proof fn lemma_separators_ignored(s: Seq<char>)
    ensures
        normalize_date(s) == normalize_date(digits_of(s)),
{
    lemma_digits_of_are_digits(s);
    lemma_digits_of_digits(digits_of(s));
}

/// Every eight-digit string that names a real day as `DDMMYYYY` normalises,
/// to those digits with a slash after the day and after the month.
pub proof fn lemma_valid_digits_normalize(s: Seq<char>)
    requires
        s.len() == 8,
        all_digits(s),
        is_calendar_date(year_of(s), month_of(s), day_of(s)),
    ensures
        normalize_date(s) == Some(seq![s[0], s[1], '/', s[2], s[3], '/', s[4], s[5], s[6], s[7]]),
{
    lemma_digits_of_digits(s);
}

/// A normalised date normalises to itself.
pub proof fn lemma_normalized_is_fixpoint(s: Seq<char>)
    requires
        normalize_date(s) is Some,
    ensures
        normalize_date(normalize_date(s)->0) == normalize_date(s),
{
    let c = digits_of(s);
    let t = normalize_date(s)->0;
    lemma_digits_of_are_digits(s);
    assert(is_digit(c[0]) && is_digit(c[1]) && is_digit(c[2]) && is_digit(c[3]));
    assert(is_digit(c[4]) && is_digit(c[5]) && is_digit(c[6]) && is_digit(c[7]));
    let e = Seq::<char>::empty();
    assert(digits_of(e) == e);
    lemma_digits_of_push(e, c[0]);
    lemma_digits_of_push(e.push(c[0]), c[1]);
    lemma_digits_of_push(e.push(c[0]).push(c[1]), '/');
    lemma_digits_of_push(e.push(c[0]).push(c[1]).push('/'), c[2]);
    lemma_digits_of_push(e.push(c[0]).push(c[1]).push('/').push(c[2]), c[3]);
    lemma_digits_of_push(e.push(c[0]).push(c[1]).push('/').push(c[2]).push(c[3]), '/');
    lemma_digits_of_push(e.push(c[0]).push(c[1]).push('/').push(c[2]).push(c[3]).push('/'), c[4]);
    lemma_digits_of_push(
        e.push(c[0]).push(c[1]).push('/').push(c[2]).push(c[3]).push('/').push(c[4]),
        c[5],
    );
    lemma_digits_of_push(
        e.push(c[0]).push(c[1]).push('/').push(c[2]).push(c[3]).push('/').push(c[4]).push(c[5]),
        c[6],
    );
    lemma_digits_of_push(
        e.push(c[0]).push(c[1]).push('/').push(c[2]).push(c[3]).push('/').push(c[4]).push(
            c[5],
        ).push(c[6]),
        c[7],
    );
    assert(t =~= e.push(c[0]).push(c[1]).push('/').push(c[2]).push(c[3]).push('/').push(
        c[4],
    ).push(c[5]).push(c[6]).push(c[7]));
    assert(digits_of(t) =~= c);
}

} // verus!
