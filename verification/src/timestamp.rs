use vstd::prelude::*;
use vstd::string::*;
use crate::number::digit_char;
use crate::repr::{quote, quoted, ToSqlRepr};

verus! {

/// A number below a hundred in two digits.
pub open spec fn two_digits(n: int) -> Seq<char> {
    seq![digit_char((n / 10) as nat), digit_char((n % 10) as nat)]
}

/// A number below ten thousand in four digits.
pub open spec fn four_digits(n: int) -> Seq<char> {
    two_digits(n / 100) + two_digits(n % 100)
}

/// Whether the year has a 29th of February: every fourth year, but of the
/// years that end a century only every fourth.
pub open spec fn is_leap_year(year: int) -> bool {
    year % 4 == 0 && (year % 100 != 0 || year % 400 == 0)
}

/// The number of days of a month of a year.
pub open spec fn days_in_month(year: int, month: int) -> int {
    if month == 2 {
        if is_leap_year(year) {
            29
        } else {
            28
        }
    } else if month == 4 || month == 6 || month == 9 || month == 11 {
        30
    } else {
        31
    }
}

/// The fields of a moment: a day of the calendar and a time of that day.
/// A leap second is the second 59 with a thousand million nanoseconds or
/// more.
pub struct Moment {
    pub year: int,
    pub month: int,
    pub day: int,
    pub hour: int,
    pub minute: int,
    pub second: int,
    pub nanosecond: int,
}

impl Moment {
    /// The calendar has the day, and the day has the time.
    pub open spec fn in_calendar(self) -> bool {
        &&& -262143 <= self.year <= 262142
        &&& 1 <= self.month <= 12
        &&& 1 <= self.day <= days_in_month(self.year, self.month)
        &&& 0 <= self.hour < 24
        &&& 0 <= self.minute < 60
        &&& 0 <= self.second < 60
        &&& 0 <= self.nanosecond < 2_000_000_000
        &&& (self.nanosecond < 1_000_000_000 || self.second == 59)
    }

    /// The second as it is written: 60 for a leap second.
    pub open spec fn shown_second(self) -> int {
        self.second + self.nanosecond / 1_000_000_000
    }

    /// The moment as `YYYY-MM-DD HH:MM:SS`, every field padded with zeros.
    pub open spec fn padded(self) -> Seq<char> {
        four_digits(self.year) + "-"@ + two_digits(self.month) + "-"@ + two_digits(self.day) + " "@
            + two_digits(self.hour) + ":"@ + two_digits(self.minute) + ":"@ + two_digits(
            self.shown_second(),
        )
    }
}

/// The moment with the given fields.
pub open spec fn moment_of(
    year: i32,
    month: u32,
    day: u32,
    hour: u32,
    minute: u32,
    second: u32,
    nanosecond: u32,
) -> Moment {
    Moment {
        year: year as int,
        month: month as int,
        day: day as int,
        hour: hour as int,
        minute: minute as int,
        second: second as int,
        nanosecond: nanosecond as int,
    }
}

/// The text of the moment with these fields, where there is such a moment.
pub uninterp spec fn timestamp_text(
    year: int,
    month: int,
    day: int,
    hour: int,
    minute: int,
    second: int,
    nanosecond: int,
) -> Option<Seq<char>>;

/// The text of a moment, by its fields.
pub open spec fn moment_text(m: Moment) -> Option<Seq<char>> {
    timestamp_text(m.year, m.month, m.day, m.hour, m.minute, m.second, m.nanosecond)
}

/// An optional text, taken by its view.
pub open spec fn text_view(text: Option<String>) -> Option<Seq<char>> {
    match text {
        Some(t) => Some(t@),
        None => None,
    }
}

/// `NaiveDate::from_ymd_opt`, `NaiveDate::and_hms_nano_opt` and
/// `NaiveDateTime::format` of chrono, the last with the pattern
/// `%Y-%m-%d %H:%M:%S`. The first gives a date where the year is one that
/// chrono holds and the month has the day; the second a time where hour,
/// minute and second are in range and the nanoseconds are below a thousand
/// million, or below two in the second 59. The text depends on the seven
/// fields alone. Each field is written with leading zeros, the year in four
/// digits where it has no more and is not negative, the others in two; a
/// leap second is written as 60.
#[verifier::external_body]
fn format_moment(
    year: i32,
    month: u32,
    day: u32,
    hour: u32,
    minute: u32,
    second: u32,
    nanosecond: u32,
) -> (r: Option<String>)
    ensures
        text_view(r) == timestamp_text(
            year as int,
            month as int,
            day as int,
            hour as int,
            minute as int,
            second as int,
            nanosecond as int,
        ),
        r is Some <==> moment_of(year, month, day, hour, minute, second, nanosecond).in_calendar(),
        r is Some && 0 <= year <= 9999 ==> r->Some_0@ == moment_of(
            year,
            month,
            day,
            hour,
            minute,
            second,
            nanosecond,
        ).padded(),
{
    let date = chrono::NaiveDate::from_ymd_opt(year, month, day)?;
    let moment = date.and_hms_nano_opt(hour, minute, second, nanosecond)?;
    Some(moment.format("%Y-%m-%d %H:%M:%S").to_string())
}

/// A moment that exists: a day of the calendar and a time of that day.
#[derive(Debug, Clone, Copy)]
pub struct Timestamp {
    year: i32,
    month: u32,
    day: u32,
    hour: u32,
    minute: u32,
    second: u32,
    nanosecond: u32,
}

impl View for Timestamp {
    type V = Moment;

    closed spec fn view(&self) -> Moment {
        moment_of(
            self.year,
            self.month,
            self.day,
            self.hour,
            self.minute,
            self.second,
            self.nanosecond,
        )
    }
}

impl Timestamp {
    /// The calendar has the day, and the day has the time.
    #[verifier::type_invariant]
    closed spec fn well_formed(self) -> bool {
        self@.in_calendar()
    }

    /// The moment with these fields, if there is one.
    pub fn new(
        year: i32,
        month: u32,
        day: u32,
        hour: u32,
        minute: u32,
        second: u32,
        nanosecond: u32,
    ) -> (r: Option<Timestamp>)
        ensures
            r is Some <==> moment_of(year, month, day, hour, minute, second, nanosecond).in_calendar(),
            r is Some ==> r->Some_0@ == moment_of(
                year,
                month,
                day,
                hour,
                minute,
                second,
                nanosecond,
            ),
    {
        match format_moment(year, month, day, hour, minute, second, nanosecond) {
            Some(_) => Some(
                Timestamp {
                    year: year,
                    month: month,
                    day: day,
                    hour: hour,
                    minute: minute,
                    second: second,
                    nanosecond: nanosecond,
                },
            ),
            None => None,
        }
    }

    /// The moment as text, without quotes.
    pub fn to_text(&self) -> (r: String)
        ensures
            self@.in_calendar(),
            Some(r@) == moment_text(self@),
            0 <= self@.year <= 9999 ==> r@ == self@.padded(),
    {
        proof {
            use_type_invariant(self);
        }
        let text = format_moment(
            self.year,
            self.month,
            self.day,
            self.hour,
            self.minute,
            self.second,
            self.nanosecond,
        );
        text.unwrap()
    }
}

impl ToSqlRepr for Timestamp {
    open spec fn sql_repr(&self) -> Seq<char> {
        quoted(moment_text(self@)->Some_0)
    }

    fn to_sql_repr(&self) -> (r: String) {
        let text = self.to_text();
        quote(text.as_str())
    }
}

} // verus!
