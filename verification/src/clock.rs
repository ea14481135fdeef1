//! The wall clock as the scheduler reads it.

use crate::timefmt::{digit_char, hhmm, lemma_hhmm_is_valid, valid_time};
use vstd::prelude::*;
use vstd::string::*;

verus! {

/// A day of the week.
#[derive(Clone, Copy, Debug, PartialEq, Eq, Structural)]
pub enum Weekday {
    Mon,
    Tue,
    Wed,
    Thu,
    Fri,
    Sat,
    Sun,
}

/// The local time of day at minute resolution, with the day of the week.
#[derive(Clone, Copy, Debug)]
pub struct Clock {
    hour: u32,
    minute: u32,
    weekday: Weekday,
}

/// The mathematical content of a [`Clock`].
pub struct Moment {
    pub hour: int,
    pub minute: int,
    pub weekday: Weekday,
}

impl View for Clock {
    type V = Moment;

    closed spec fn view(&self) -> Moment {
        Moment { hour: self.hour as int, minute: self.minute as int, weekday: self.weekday }
    }
}

/// Asks `chrono::Local::now` for the local time and takes from it the
/// hour, the minute and the day of the week, as chrono's `Timelike` and
/// `Datelike` report them. Chrono documents the hour as a number from 0 to
/// 23 and the minute as one from 0 to 59. Which time it is that comes back
/// is not stated. Chrono panics when the system clock stands before 1970.
#[verifier::external_body]
fn read_local_time() -> (t: (u32, u32, Weekday))
    ensures
        t.0 < 24,
        t.1 < 60,
{
    let now = chrono::Local::now();
    let weekday = match chrono::Datelike::weekday(&now) {
        chrono::Weekday::Mon => Weekday::Mon,
        chrono::Weekday::Tue => Weekday::Tue,
        chrono::Weekday::Wed => Weekday::Wed,
        chrono::Weekday::Thu => Weekday::Thu,
        chrono::Weekday::Fri => Weekday::Fri,
        chrono::Weekday::Sat => Weekday::Sat,
        chrono::Weekday::Sun => Weekday::Sun,
    };
    (chrono::Timelike::hour(&now), chrono::Timelike::minute(&now), weekday)
}

fn digit(d: u32) -> (c: char)
    requires
        d < 10,
    ensures
        c == digit_char(d as int),
{
    match d {
        0 => '0',
        1 => '1',
        2 => '2',
        3 => '3',
        4 => '4',
        5 => '5',
        6 => '6',
        7 => '7',
        8 => '8',
        _ => '9',
    }
}

impl Clock {
    #[verifier::type_invariant]
    spec fn inv(self) -> bool {
        self.hour < 24 && self.minute < 60
    }

    /// The clock at the given time of day, where there is such a time.
    pub fn at(hour: u32, minute: u32, weekday: Weekday) -> (c: Option<Clock>)
        ensures
            c is Some <==> hour < 24 && minute < 60,
            c matches Some(clock) ==> clock@ == (Moment {
                hour: hour as int,
                minute: minute as int,
                weekday,
            }),
    {
        if hour < 24 && minute < 60 {
            Some(Clock { hour, minute, weekday })
        } else {
            None
        }
    }

    /// The process's local wall clock at this moment.
    pub fn now() -> (c: Clock)
        ensures
            0 <= c@.hour < 24,
            0 <= c@.minute < 60,
    {
        let (hour, minute, weekday) = read_local_time();
        Clock { hour, minute, weekday }
    }

    /// The hour, from 0 to 23.
    pub fn hour(&self) -> (h: u32)
        ensures
            h == self@.hour,
            h < 24,
    {
        proof {
            use_type_invariant(self);
        }
        self.hour
    }

    /// The minute, from 0 to 59.
    pub fn minute(&self) -> (m: u32)
        ensures
            m == self@.minute,
            m < 60,
    {
        proof {
            use_type_invariant(self);
        }
        self.minute
    }

    /// The day of the week.
    pub fn weekday(&self) -> (d: Weekday)
        ensures
            d == self@.weekday,
    {
        self.weekday
    }

    /// The time of day as `HH:MM`, the form in which delivery times are
    /// kept.
    pub fn time_text(&self) -> (text: String)
        ensures
            text@ == hhmm(self@.hour, self@.minute),
            valid_time(text@),
    {
        proof {
            use_type_invariant(self);
            lemma_hhmm_is_valid(self@.hour, self@.minute);
        }
        let mut text = String::new();
        text.push(digit(self.hour / 10));
        text.push(digit(self.hour % 10));
        text.push(':');
        text.push(digit(self.minute / 10));
        text.push(digit(self.minute % 10));
        assert(text@ =~= hhmm(self@.hour, self@.minute));
        text
    }
}

} // verus!
