//! Forecast instants as the calendar and clock fields that the reports show.
use vstd::prelude::*;
use chrono::{Datelike, Timelike};
use crate::text::{digit, digit_char, push_char};

verus! {

/// A forecast instant in its own offset: month, day of month, hour, minute,
/// and the day of the week counted from Monday as zero.
#[derive(Debug, Clone, Copy)]
pub struct Stamp {
    pub month: u32,
    pub day: u32,
    pub hour: u32,
    pub minute: u32,
    pub weekday: u32,
}

impl Stamp {
    pub open spec fn wf(&self) -> bool {
        &&& 1 <= self.month <= 12
        &&& 1 <= self.day <= 31
        &&& self.hour <= 23
        &&& self.minute <= 59
        &&& self.weekday <= 6
    }

    pub open spec fn fields(&self) -> (u32, u32, u32, u32, u32) {
        (self.month, self.day, self.hour, self.minute, self.weekday)
    }
}

/// Month, day, hour, minute and weekday (from Monday as zero) of a timestamp
/// text read as an RFC 3339 date-time with an offset; `None` when it is not one.
pub uninterp spec fn clock_fields(s: Seq<char>) -> Option<(u32, u32, u32, u32, u32)>;

/// Relies on chrono's `FromStr` for `DateTime<FixedOffset>` (relaxed RFC 3339)
/// and on its `month`, `day`, `hour`, `minute` and
/// `weekday().num_days_from_monday()`, whose documented ranges are stated.
#[verifier::external_body]
pub(crate) fn parse_stamp(s: &str) -> (r: Option<Stamp>)
    ensures
        r is Some <==> clock_fields(s@) is Some,
        r matches Some(t) ==> t.wf() && clock_fields(s@) == Some(t.fields()),
{
    match s.parse::<chrono::DateTime<chrono::FixedOffset>>() {
        Ok(d) => Some(Stamp {
            month: d.month(),
            day: d.day(),
            hour: d.hour(),
            minute: d.minute(),
            weekday: d.weekday().num_days_from_monday(),
        }),
        Err(_) => None,
    }
}

/// The English abbreviation of a day of the week counted from Monday.
pub open spec fn weekday_name(w: u32) -> Seq<char> {
    if w == 0 { "Mon"@ }
    else if w == 1 { "Tue"@ }
    else if w == 2 { "Wed"@ }
    else if w == 3 { "Thu"@ }
    else if w == 4 { "Fri"@ }
    else if w == 5 { "Sat"@ }
    else { "Sun"@ }
}

/// A number below a hundred as two digits.
pub open spec fn two_digits(n: u32) -> Seq<char> {
    seq![digit((n / 10) as nat), digit((n % 10) as nat)]
}

/// The label `MM/DD HH:MM Day` of an instant.
pub open spec fn time_label(t: Stamp) -> Seq<char> {
    two_digits(t.month) + seq!['/'] + two_digits(t.day) + seq![' '] + two_digits(t.hour) + seq![':']
        + two_digits(t.minute) + seq![' '] + weekday_name(t.weekday)
}

/// The abbreviation of the day of the week.
pub fn day_of_week(weekday: u32) -> (r: &'static str)
    ensures
        r@ == weekday_name(weekday),
{
    match weekday {
        0 => "Mon",
        1 => "Tue",
        2 => "Wed",
        3 => "Thu",
        4 => "Fri",
        5 => "Sat",
        _ => "Sun",
    }
}

fn push_two_digits(out: &mut String, n: u32)
    requires
        n < 100,
    ensures
        final(out)@ == old(out)@ + two_digits(n),
{
    push_char(out, digit_char(n / 10));
    push_char(out, digit_char(n % 10));
    assert(out@ =~= old(out)@ + two_digits(n));
}

impl Stamp {
    /// Appends the label `MM/DD HH:MM Day` of the instant.
    pub fn push_label(&self, out: &mut String)
        requires
            self.wf(),
        ensures
            final(out)@ == old(out)@ + time_label(*self),
    {
        push_two_digits(out, self.month);
        push_char(out, '/');
        push_two_digits(out, self.day);
        push_char(out, ' ');
        push_two_digits(out, self.hour);
        push_char(out, ':');
        push_two_digits(out, self.minute);
        push_char(out, ' ');
        out.append(day_of_week(self.weekday));
        assert(out@ =~= old(out)@ + time_label(*self));
    }
}

} // verus!
