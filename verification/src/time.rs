use vstd::prelude::*;

verus! {

/// Number of seconds in one calendar day.
pub const SECONDS_PER_DAY: u32 = 86400;

/// Largest day number (counted from the calendar epoch) that a
/// `LocalStamp` may carry; generous enough for any real date while
/// keeping day arithmetic free of overflow.
pub const MAX_DAY: i64 = 100_000_000_000;

/// True when `c` is a decimal digit.
pub open spec fn is_digit(c: char) -> bool {
    48 <= c as u32 && c as u32 <= 57
}

/// Numeric value of a decimal digit character.
pub open spec fn digit_of(c: char) -> int {
    c as u32 - 48
}

/// The digit character with value `d` (meaningful for `0 <= d <= 9`).
pub open spec fn char_of_digit(d: int) -> char {
    if d == 0 {
        '0'
    } else if d == 1 {
        '1'
    } else if d == 2 {
        '2'
    } else if d == 3 {
        '3'
    } else if d == 4 {
        '4'
    } else if d == 5 {
        '5'
    } else if d == 6 {
        '6'
    } else if d == 7 {
        '7'
    } else if d == 8 {
        '8'
    } else {
        '9'
    }
}

/// True when `s` spells a time of day in 24-hour `HH:MM` form:
/// two digits, a colon, two digits, with the hour below 24 and the
/// minute below 60.
pub open spec fn is_hhmm(s: Seq<char>) -> bool {
    &&& s.len() == 5
    &&& is_digit(s[0])
    &&& is_digit(s[1])
    &&& s[2] == ':'
    &&& is_digit(s[3])
    &&& is_digit(s[4])
    &&& 10 * digit_of(s[0]) + digit_of(s[1]) < 24
    &&& 10 * digit_of(s[3]) + digit_of(s[4]) < 60
}

/// Seconds from midnight named by an `HH:MM` string.
pub open spec fn hhmm_seconds(s: Seq<char>) -> int {
    3600 * (10 * digit_of(s[0]) + digit_of(s[1])) + 60 * (10 * digit_of(s[3]) + digit_of(s[4]))
}

/// A time of day, counted in whole seconds from midnight.
#[derive(Clone, Copy, Debug, PartialEq, Eq, Structural)]
pub struct TimeOfDay {
    pub seconds: u32,
}

impl TimeOfDay {
    /// A value is well formed when it lies within one day.
    pub open spec fn wf(self) -> bool {
        self.seconds < SECONDS_PER_DAY
    }

    /// The canonical `HH:MM` spelling of this time of day.
    pub open spec fn spec_hhmm(self) -> Seq<char> {
        let h = self.seconds as int / 3600;
        let m = (self.seconds as int % 3600) / 60;
        seq![
            char_of_digit(h / 10),
            char_of_digit(h % 10),
            ':',
            char_of_digit(m / 10),
            char_of_digit(m % 10),
        ]
    }

    /// Builds a time of day from hour and minute; rejects values off the clock.
    pub fn from_hm(hour: u32, minute: u32) -> (r: Option<TimeOfDay>)
        ensures
            r is Some <==> (hour < 24 && minute < 60),
            r matches Some(t) ==> t.wf() && t.seconds == 3600 * hour + 60 * minute,
    {
        if hour < 24 && minute < 60 {
            Some(TimeOfDay { seconds: 3600 * hour + 60 * minute })
        } else {
            None
        }
    }

    /// Parses a `HH:MM` string; returns `None` exactly when the string is
    /// not in that form.
    pub fn parse(s: &str) -> (r: Option<TimeOfDay>)
        ensures
            r is Some <==> is_hhmm(s@),
            r matches Some(t) ==> t.wf() && t.seconds == hhmm_seconds(s@),
    {
        let n = s.unicode_len();
        if n != 5 {
            return None;
        }
        if s.get_char(2) != ':' {
            return None;
        }
        let d0 = match digit_value(s.get_char(0)) {
            Some(d) => d,
            None => { return None; },
        };
        let d1 = match digit_value(s.get_char(1)) {
            Some(d) => d,
            None => { return None; },
        };
        let d3 = match digit_value(s.get_char(3)) {
            Some(d) => d,
            None => { return None; },
        };
        let d4 = match digit_value(s.get_char(4)) {
            Some(d) => d,
            None => { return None; },
        };
        let hour: u32 = 10 * d0 + d1;
        let minute: u32 = 10 * d3 + d4;
        if hour < 24 && minute < 60 {
            Some(TimeOfDay { seconds: 3600 * hour + 60 * minute })
        } else {
            None
        }
    }

    /// Renders this time of day in its canonical `HH:MM` spelling.
    pub fn to_hhmm(self) -> (r: String)
        requires
            self.wf(),
        ensures
            r@ == self.spec_hhmm(),
    {
        let hour: u32 = self.seconds / 3600;
        let minute: u32 = (self.seconds % 3600) / 60;
        let mut out = String::new();
        out.append(digit_str(hour / 10));
        out.append(digit_str(hour % 10));
        out.append(":");
        out.append(digit_str(minute / 10));
        out.append(digit_str(minute % 10));
        proof {
            reveal_strlit(":");
            assert(out@ =~= self.spec_hhmm());
        }
        out
    }
}

/// Numeric value of a decimal digit character; `None` for anything else.
fn digit_value(c: char) -> (r: Option<u32>)
    ensures
        r is Some <==> is_digit(c),
        r matches Some(d) ==> d == digit_of(c) && d <= 9,
{
    let v = c as u32;
    if 48 <= v && v <= 57 {
        Some(v - 48)
    } else {
        None
    }
}

/// The one-character string spelling the digit `d`.
fn digit_str(d: u32) -> (r: &'static str)
    requires
        d <= 9,
    ensures
        r@ =~= seq![char_of_digit(d as int)],
{
    proof {
        reveal_strlit("0");
        reveal_strlit("1");
        reveal_strlit("2");
        reveal_strlit("3");
        reveal_strlit("4");
        reveal_strlit("5");
        reveal_strlit("6");
        reveal_strlit("7");
        reveal_strlit("8");
        reveal_strlit("9");
    }
    if d == 0 {
        "0"
    } else if d == 1 {
        "1"
    } else if d == 2 {
        "2"
    } else if d == 3 {
        "3"
    } else if d == 4 {
        "4"
    } else if d == 5 {
        "5"
    } else if d == 6 {
        "6"
    } else if d == 7 {
        "7"
    } else if d == 8 {
        "8"
    } else {
        "9"
    }
}

/// A point in local civil time: a calendar day (counted from the
/// calendar epoch) and a second within that day.  The pair orders
/// lexicographically, which agrees with the total count of seconds.
#[derive(Clone, Copy, Debug, PartialEq, Eq, Structural)]
pub struct LocalStamp {
    pub day: i64,
    pub sec: u32,
}

impl LocalStamp {
    /// A value is well formed when the second lies within one day and the
    /// day number is within calendar range.
    pub open spec fn wf(self) -> bool {
        &&& self.sec < SECONDS_PER_DAY
        &&& -MAX_DAY <= self.day <= MAX_DAY
    }

    /// The stamp as one count of seconds from the calendar epoch.
    pub open spec fn as_secs(self) -> int {
        self.day * (SECONDS_PER_DAY as int) + self.sec
    }

    /// True when `self` is at or before `other` in time.
    pub fn is_at_or_before(self, other: LocalStamp) -> (r: bool)
        requires
            self.wf(),
            other.wf(),
        ensures
            r == (self.as_secs() <= other.as_secs()),
    {
        self.day < other.day || (self.day == other.day && self.sec <= other.sec)
    }

    /// True when `self` is strictly before `other` in time.
    pub fn is_before(self, other: LocalStamp) -> (r: bool)
        requires
            self.wf(),
            other.wf(),
        ensures
            r == (self.as_secs() < other.as_secs()),
    {
        self.day < other.day || (self.day == other.day && self.sec < other.sec)
    }
}

} // verus!
