//! The exclusion calendar: the weekdays on which new objects without an owner
//! are refused.
use crate::weekday::Weekday;
use vstd::prelude::*;

verus! {

/// Why a calendar could not be built from its configuration.
#[derive(Clone, Copy, Debug, PartialEq, Eq, Structural)]
pub enum ConfigurationError {
    /// An entry is not written as a whole number.
    NotAnInteger,
    /// An entry is a whole number outside 0 (Monday) to 6 (Sunday).
    NotAWeekday,
}

/// Whether `c` is one of the ASCII digits.
pub open spec fn is_digit(c: char) -> bool {
    '0' <= c && c <= '9'
}

/// The number that the decimal digits `s` stand for.
pub open spec fn digits_value(s: Seq<char>) -> int
    decreases s.len(),
{
    if s.len() == 0 {
        0
    } else {
        digits_value(s.drop_last()) * 10 + (s.last() as int - '0' as int)
    }
}

/// The digits of an entry: the entry without one leading `+`.
pub open spec fn entry_digits(s: Seq<char>) -> Seq<char> {
    if s.len() > 0 && s[0] == '+' {
        s.drop_first()
    } else {
        s
    }
}

/// Whether an entry is written as a whole number: an optional `+` and one or
/// more decimal digits.
pub open spec fn is_integer_entry(s: Seq<char>) -> bool {
    let d = entry_digits(s);
    d.len() > 0 && forall|i: int| 0 <= i < d.len() ==> is_digit(#[trigger] d[i])
}

/// What is wrong with a configuration entry, if anything.
pub open spec fn entry_error(s: Seq<char>) -> Option<ConfigurationError> {
    if !is_integer_entry(s) {
        Some(ConfigurationError::NotAnInteger)
    } else if digits_value(entry_digits(s)) >= 7 {
        Some(ConfigurationError::NotAWeekday)
    } else {
        None
    }
}

/// The weekday number that a valid entry stands for.
pub open spec fn entry_day(s: Seq<char>) -> int {
    digits_value(entry_digits(s))
}

/// Whether every entry before position `k` is a valid weekday number.
pub open spec fn valid_before(entries: Seq<String>, k: int) -> bool {
    forall|j: int| 0 <= j < k ==> entry_error(#[trigger] entries[j]@) is None
}

proof fn lemma_digits_value_nonneg(s: Seq<char>)
    requires
        forall|i: int| 0 <= i < s.len() ==> is_digit(#[trigger] s[i]),
    ensures
        digits_value(s) >= 0,
    decreases s.len(),
{
    if s.len() > 0 {
        lemma_digits_value_nonneg(s.drop_last());
    }
}

/// Reads one configuration entry: its weekday number, or what is wrong with it.
pub fn parse_entry(text: &str) -> (r: Result<u32, ConfigurationError>)
    ensures
        match r {
            Ok(d) => entry_error(text@) is None && d == entry_day(text@),
            Err(e) => entry_error(text@) == Some(e),
        },
{
    let n = text.unicode_len();
    let mut i: usize = 0;
    if n > 0 && text.get_char(0) == '+' {
        i = 1;
    }
    let start = i;
    let ghost digits = entry_digits(text@);
    assert(digits =~= text@.subrange(start as int, n as int));
    if i == n {
        return Err(ConfigurationError::NotAnInteger);
    }
    // `value` is the number read so far, held at 7 once it is no weekday.
    let mut value: u32 = 0;
    while i < n
        invariant
            n == text@.len(),
            start <= i <= n,
            digits == entry_digits(text@),
            digits =~= text@.subrange(start as int, n as int),
            forall|k: int| 0 <= k < i - start ==> is_digit(#[trigger] digits[k]),
            digits_value(digits.subrange(0, i - start)) >= 7 ==> value == 7,
            digits_value(digits.subrange(0, i - start)) < 7 ==> value == digits_value(
                digits.subrange(0, i - start),
            ),
        decreases n - i,
    {
        let c = text.get_char(i);
        if !('0' <= c && c <= '9') {
            assert(digits[i - start] == c);
            assert(!is_digit(digits[i - start]));
            assert(!is_integer_entry(text@));
            return Err(ConfigurationError::NotAnInteger);
        }
        let ghost prefix = digits.subrange(0, i - start);
        assert(digits.subrange(0, i + 1 - start).drop_last() =~= prefix);
        assert(digits.subrange(0, i + 1 - start).last() == c);
        proof {
            lemma_digits_value_nonneg(prefix);
        }
        if value < 7 {
            value = value * 10 + (c as u32 - '0' as u32);
            if value > 7 {
                value = 7;
            }
        }
        i = i + 1;
    }
    assert(digits.subrange(0, n - start) =~= digits);
    if value >= 7 {
        Err(ConfigurationError::NotAWeekday)
    } else {
        Ok(value)
    }
}

/// A set of weekdays, fixed once built.
pub struct ExclusionCalendar {
    days: Vec<u32>,
}

impl View for ExclusionCalendar {
    type V = Set<int>;

    /// The listed weekdays, numbered from Monday (0) to Sunday (6).
    closed spec fn view(&self) -> Set<int> {
        Set::new(|d: int| exists|i: int| 0 <= i < self.days@.len() && self.days@[i] == d)
    }
}

impl ExclusionCalendar {
    #[verifier::type_invariant]
    spec fn inv(self) -> bool {
        forall|i: int| 0 <= i < self.days@.len() ==> #[trigger] self.days@[i] < 7
    }

    /// Builds a calendar from weekday numbers; fails when one of them is 7 or more.
    pub fn from_days(days: &Vec<u32>) -> (r: Result<ExclusionCalendar, ConfigurationError>)
        ensures
            r is Ok <==> forall|i: int| 0 <= i < days@.len() ==> #[trigger] days@[i] < 7,
            r is Ok ==> r->Ok_0@ == Set::new(
                |d: int| exists|i: int| 0 <= i < days@.len() && days@[i] == d,
            ),
            r is Err ==> r->Err_0 == ConfigurationError::NotAWeekday,
    {
        let mut kept: Vec<u32> = Vec::new();
        let mut i: usize = 0;
        while i < days.len()
            invariant
                i <= days@.len(),
                kept@ == days@.subrange(0, i as int),
                forall|j: int| 0 <= j < i ==> #[trigger] days@[j] < 7,
            decreases days@.len() - i,
        {
            if days[i] >= 7 {
                return Err(ConfigurationError::NotAWeekday);
            }
            kept.push(days[i]);
            i = i + 1;
        }
        assert(kept@ =~= days@);
        let cal = ExclusionCalendar { days: kept };
        assert(cal@ =~= Set::new(|d: int| exists|i: int| 0 <= i < days@.len() && days@[i] == d));
        Ok(cal)
    }

    /// Builds a calendar from configuration entries such as "4" or "+6"; the
    /// first entry that is no weekday number decides the error.
    pub fn from_entries(entries: &Vec<String>) -> (r: Result<ExclusionCalendar, ConfigurationError>)
        ensures
            r is Ok <==> valid_before(entries@, entries@.len() as int),
            r is Ok ==> r->Ok_0@ == Set::new(
                |d: int| exists|i: int| 0 <= i < entries@.len() && entry_day(entries@[i]@) == d,
            ),
            r is Err ==> exists|k: int|
                0 <= k < entries@.len() && valid_before(entries@, k) && entry_error(
                    #[trigger] entries@[k]@,
                ) == Some(r->Err_0),
    {
        let mut kept: Vec<u32> = Vec::new();
        let mut i: usize = 0;
        while i < entries.len()
            invariant
                i <= entries@.len(),
                kept@.len() == i,
                valid_before(entries@, i as int),
                forall|j: int| 0 <= j < i ==> #[trigger] kept@[j] == entry_day(entries@[j]@),
                forall|j: int| 0 <= j < i ==> #[trigger] kept@[j] < 7,
            decreases entries@.len() - i,
        {
            match parse_entry(entries[i].as_str()) {
                Ok(d) => {
                    kept.push(d);
                },
                Err(e) => {
                    assert(entry_error(entries@[i as int]@) == Some(e));
                    return Err(e);
                },
            }
            i = i + 1;
        }
        let cal = ExclusionCalendar { days: kept };
        assert(cal@ =~= Set::new(
            |d: int| exists|i: int| 0 <= i < entries@.len() && entry_day(entries@[i]@) == d,
        )) by {
            assert forall|d: int| cal@.contains(d) implies exists|i: int|
                0 <= i < entries@.len() && entry_day(entries@[i]@) == d by {
                let i = choose|i: int| 0 <= i < kept@.len() && kept@[i] == d;
                assert(entry_day(entries@[i]@) == d);
            }
            assert forall|d: int|
                (exists|i: int| 0 <= i < entries@.len() && entry_day(entries@[i]@) == d) implies cal@.contains(d) by {
                let i = choose|i: int| 0 <= i < entries@.len() && entry_day(entries@[i]@) == d;
                assert(kept@[i] == d);
            }
        }
        Ok(cal)
    }

    /// Whether the calendar lists `day`.
    pub fn is_excluded(&self, day: Weekday) -> (r: bool)
        ensures
            r == self@.contains(day.index()),
    {
        let d = day.num_days_from_monday();
        let mut i: usize = 0;
        while i < self.days.len()
            invariant
                i <= self.days@.len(),
                d == day.index(),
                forall|j: int| 0 <= j < i ==> self.days@[j] != d,
            decreases self.days@.len() - i,
        {
            if self.days[i] == d {
                return true;
            }
            i = i + 1;
        }
        false
    }
}

} // verus!
