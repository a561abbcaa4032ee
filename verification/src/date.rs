//! Calendar days and the rule that decides when a due date has passed.

use vstd::prelude::*;
use vstd::string::*;
use crate::error::ValidationError;
use crate::text::{padded, padded_text};

verus! {

/// A day of the calendar, held as year, month and day of the month.
#[derive(Clone, Copy, Debug, PartialEq, Eq, Structural)]
pub struct Date {
    pub year: i32,
    pub month: u32,
    pub day: u32,
}

impl View for Date {
    type V = (int, int, int);

    open spec fn view(&self) -> (int, int, int) {
        (self.year as int, self.month as int, self.day as int)
    }
}

/// Whether day `a` comes strictly after day `b`, each given as
/// (year, month, day).
pub open spec fn later_than(a: (int, int, int), b: (int, int, int)) -> bool {
    a.0 > b.0 || (a.0 == b.0 && (a.1 > b.1 || (a.1 == b.1 && a.2 > b.2)))
}

/// A day written as `YYYY-MM-DD`: the year with at least four digits, the
/// month and the day with at least two. A year below zero gets a minus
/// sign and a year above 9999 a plus sign.
pub open spec fn date_text(date: (int, int, int)) -> Seq<char> {
    let sign = if date.0 < 0 {
        seq!['-']
    } else if date.0 > 9999 {
        seq!['+']
    } else {
        Seq::<char>::empty()
    };
    let year = if date.0 < 0 {
        -date.0
    } else {
        date.0
    };
    sign + padded(year as nat, 4) + seq!['-'] + padded(date.1 as nat, 2) + seq!['-'] + padded(
        date.2 as nat,
        2,
    )
}

/// The (year, month, day) of a day that may be missing.
pub open spec fn day_of(date: Option<Date>) -> Option<(int, int, int)> {
    match date {
        Some(d) => Some(d@),
        None => None,
    }
}

/// What `chrono::NaiveDate::parse_from_str` makes of a text under the format
/// `%Y-%m-%d`: the (year, month, day) of the date it reads, or `None` where
/// it refuses the text.
pub uninterp spec fn parsed_ymd(text: Seq<char>) -> Option<(int, int, int)>;

/// The verdict on a due date, given what parsing made of it: a date that did
/// not parse is a validation failure, and a date that did is expired exactly
/// when `today` comes strictly after it.
pub open spec fn expiry(due: Option<(int, int, int)>, today: (int, int, int)) -> Result<
    bool,
    ValidationError,
> {
    match due {
        Some(d) => Ok(later_than(today, d)),
        None => Err(ValidationError::MalformedDate),
    }
}

/// Calls `chrono::NaiveDate::parse_from_str` with the format `%Y-%m-%d` and
/// hands back the year, month and day of the date it read. The contract only
/// gives that outcome its name, `parsed_ymd`: nothing is claimed about which
/// texts chrono accepts.
#[verifier::external_body]
fn parse_ymd(text: &str) -> (r: Option<Date>)
    ensures
        day_of(r) == parsed_ymd(text@),
{
    match chrono::NaiveDate::parse_from_str(text, "%Y-%m-%d") {
        Ok(d) => Some(Date {
            year: chrono::Datelike::year(&d),
            month: chrono::Datelike::month(&d),
            day: chrono::Datelike::day(&d),
        }),
        Err(_) => None,
    }
}

impl Date {
    /// Writes the day as `YYYY-MM-DD`.
    pub fn text(&self) -> (r: String)
        ensures
            r@ == date_text(self@),
    {
        proof {
            reveal_strlit("-");
            reveal_strlit("+");
        }
        let mut out = String::new();
        let year: u64 = if self.year < 0 {
            out.append("-");
            (-(self.year as i64)) as u64
        } else {
            if self.year > 9999 {
                out.append("+");
            }
            self.year as u64
        };
        out.append(padded_text(year, 4).as_str());
        out.append("-");
        out.append(padded_text(self.month as u64, 2).as_str());
        out.append("-");
        out.append(padded_text(self.day as u64, 2).as_str());
        out
    }

    /// Whether this day comes strictly after `other`.
    pub fn is_after(&self, other: &Date) -> (r: bool)
        ensures
            r == later_than(self@, other@),
    {
        self.year > other.year || (self.year == other.year && (self.month > other.month || (
        self.month == other.month && self.day > other.day)))
    }
}

/// Reads a calendar date written as `YYYY-MM-DD`. A text that is no such
/// date is a validation failure.
pub fn parse_date(text: &str) -> (r: Result<Date, ValidationError>)
    ensures
        match r {
            Ok(d) => parsed_ymd(text@) == Some(d@),
            Err(e) => e == ValidationError::MalformedDate && parsed_ymd(text@) is None,
        },
{
    match parse_ymd(text) {
        Some(d) => Ok(d),
        None => Err(ValidationError::MalformedDate),
    }
}

/// Decides expiry from a due date that has already been parsed: `None`
/// stands for a text that is no date.
pub fn expired_on(due: Option<Date>, today: Date) -> (r: Result<bool, ValidationError>)
    ensures
        r == expiry(day_of(due), today@),
{
    match due {
        Some(d) => Ok(today.is_after(&d)),
        None => Err(ValidationError::MalformedDate),
    }
}

/// Whether the due date written in `due_date` has passed on `today`. A due
/// date that falls on `today` has not passed. A text that is no date is a
/// validation failure.
pub fn is_expired(due_date: &str, today: Date) -> (r: Result<bool, ValidationError>)
    ensures
        r == expiry(parsed_ymd(due_date@), today@),
{
    expired_on(parse_ymd(due_date), today)
}

/// Reads today's date in the local time zone, with
/// `chrono::Local::now().date_naive()`. The date depends on the clock, so
/// nothing is claimed of it. chrono panics where the system clock reads a
/// time before 1970.
#[verifier::external_body]
pub(crate) fn clock_today() -> (today: Date) {
    let d = chrono::Local::now().date_naive();
    Date {
        year: chrono::Datelike::year(&d),
        month: chrono::Datelike::month(&d),
        day: chrono::Datelike::day(&d),
    }
}

/// Whether the due date written in `date` has passed today, by the clock of
/// this machine. Whatever day the clock gives, the answer is that of
/// `is_expired` for that day; in particular a text that is no date is a
/// validation failure on every day.
pub fn is_task_expired(date: &str) -> (r: Result<bool, ValidationError>)
    ensures
        exists|today: (int, int, int)| r == #[trigger] expiry(parsed_ymd(date@), today),
{
    let today = clock_today();
    let r = is_expired(date, today);
    r
}

/// Of two days, either they are the same day or exactly one comes after the
/// other; and what comes after a later day comes after the earlier one.
pub proof fn lemma_days_are_totally_ordered(a: (int, int, int), b: (int, int, int), c: (int, int, int))
    ensures
        !later_than(a, a),
        a == b || later_than(a, b) || later_than(b, a),
        !(later_than(a, b) && later_than(b, a)),
        later_than(a, b) && later_than(b, c) ==> later_than(a, c),
{
}

/// A due date is not expired on the day itself nor on any day before it,
/// and is expired on every day after it, however close. A text that is no
/// date is a validation failure on every day.
pub proof fn lemma_expiry_follows_the_calendar(due: (int, int, int), today: (int, int, int))
    ensures
        today == due ==> expiry(Some(due), today) == Ok::<bool, ValidationError>(false),
        later_than(today, due) ==> expiry(Some(due), today) == Ok::<bool, ValidationError>(true),
        later_than(due, today) ==> expiry(Some(due), today) == Ok::<bool, ValidationError>(false),
        expiry(None, today) == Err::<bool, ValidationError>(ValidationError::MalformedDate),
{
}

} // verus!
