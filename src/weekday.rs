//! Days of the week, counted from Monday, and the server's local clock.
use chrono::Datelike;
use vstd::prelude::*;

verus! {

/// A day of the week.
#[derive(Clone, Copy, Debug, PartialEq, Eq, Structural)]
pub enum Weekday {
    Mon,
    Tue,
    Wed,
    Thu,
    Fri,
    Sat,
    Sun,
}

/// The three-letter name of the day numbered `d` from Monday (0) to Sunday (6).
pub open spec fn day_label(d: int) -> Seq<char> {
    if d == 0 {
        seq!['M', 'o', 'n']
    } else if d == 1 {
        seq!['T', 'u', 'e']
    } else if d == 2 {
        seq!['W', 'e', 'd']
    } else if d == 3 {
        seq!['T', 'h', 'u']
    } else if d == 4 {
        seq!['F', 'r', 'i']
    } else if d == 5 {
        seq!['S', 'a', 't']
    } else {
        seq!['S', 'u', 'n']
    }
}

impl Weekday {
    /// Days since Monday: Monday is 0, Sunday is 6.
    pub open spec fn index(self) -> int {
        match self {
            Weekday::Mon => 0,
            Weekday::Tue => 1,
            Weekday::Wed => 2,
            Weekday::Thu => 3,
            Weekday::Fri => 4,
            Weekday::Sat => 5,
            Weekday::Sun => 6,
        }
    }

    pub fn num_days_from_monday(&self) -> (r: u32)
        ensures
            r == self.index(),
            r < 7,
    {
        match self {
            Weekday::Mon => 0,
            Weekday::Tue => 1,
            Weekday::Wed => 2,
            Weekday::Thu => 3,
            Weekday::Fri => 4,
            Weekday::Sat => 5,
            Weekday::Sun => 6,
        }
    }

    /// The day numbered `n` from Monday; `None` when `n` is 7 or more.
    pub fn from_monday(n: u32) -> (r: Option<Weekday>)
        ensures
            n < 7 <==> r is Some,
            r is Some ==> r->0.index() == n,
    {
        if n == 0 {
            Some(Weekday::Mon)
        } else if n == 1 {
            Some(Weekday::Tue)
        } else if n == 2 {
            Some(Weekday::Wed)
        } else if n == 3 {
            Some(Weekday::Thu)
        } else if n == 4 {
            Some(Weekday::Fri)
        } else if n == 5 {
            Some(Weekday::Sat)
        } else if n == 6 {
            Some(Weekday::Sun)
        } else {
            None
        }
    }

    /// The day's three-letter name, as "Mon" or "Fri".
    pub fn label(&self) -> (r: String)
        ensures
            r@ == day_label(self.index()),
    {
        let s = match self {
            Weekday::Mon => "Mon",
            Weekday::Tue => "Tue",
            Weekday::Wed => "Wed",
            Weekday::Thu => "Thu",
            Weekday::Fri => "Fri",
            Weekday::Sat => "Sat",
            Weekday::Sun => "Sun",
        };
        proof {
            reveal_strlit("Mon");
            reveal_strlit("Tue");
            reveal_strlit("Wed");
            reveal_strlit("Thu");
            reveal_strlit("Fri");
            reveal_strlit("Sat");
            reveal_strlit("Sun");
        }
        String::from_str(s)
    }

    /// The weekday of the server's local time at the moment of the call.
    pub fn today() -> (r: Weekday) {
        let n = local_days_from_monday();
        Weekday::from_monday(n).unwrap()
    }
}

/// Relies on chrono's `Local::now`, `Datelike::weekday` and
/// `Weekday::num_days_from_monday`: the weekday of the local time now, counted
/// from Monday, which chrono keeps below 7. Which day it is depends on the clock.
#[verifier::external_body]
fn local_days_from_monday() -> (r: u32)
    ensures
        r < 7,
{
    chrono::Local::now().weekday().num_days_from_monday()
}

} // verus!
