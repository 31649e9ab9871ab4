//! Time-of-day values and parsing of "hour:minute" strings.
use vstd::prelude::*;
use vstd::string::StringExecFns;

verus! {

/// The decimal digit character for a value from 0 through 9.
pub open spec fn digit_char(d: int) -> char {
    if d == 0 {
        '0'
    } else if d == 1 {
        '1'
    } else if d == 2 {
        '2'
    } else if d == 3 {
        '3'
    } else if d == 4 {
        '4'
    } else if d == 5 {
        '5'
    } else if d == 6 {
        '6'
    } else if d == 7 {
        '7'
    } else if d == 8 {
        '8'
    } else {
        '9'
    }
}

/// A value below 100 written as two decimal digits, zero-padded.
pub open spec fn two_digit_chars(n: int) -> Seq<char> {
    seq![digit_char(n / 10), digit_char(n % 10)]
}

/// A wall-clock time of day: hour and minute, no date, no timezone.
#[derive(Clone, Copy, Debug, PartialEq, Eq, Structural)]
pub struct Time {
    pub hour: u8,
    pub minute: u8,
}

impl Time {
    /// The time as minutes since midnight.
    pub open spec fn minutes(self) -> int {
        self.hour as int * 60 + self.minute as int
    }

    /// A valid time of day has an hour below 24 and a minute below 60.
    pub open spec fn valid(self) -> bool {
        self.hour < 24 && self.minute < 60
    }

    pub fn new(hour: u8, minute: u8) -> (t: Time)
        requires
            hour < 24,
            minute < 60,
        ensures
            t == (Time { hour, minute }),
            t.valid(),
    {
        Time { hour, minute }
    }

    /// The time as minutes since midnight, as an executable value.
    pub fn total_minutes(&self) -> (m: u16)
        ensures
            m as int == self.minutes(),
    {
        self.hour as u16 * 60 + self.minute as u16
    }

    /// The time in 24-hour "HH:MM" form, both fields zero-padded.
    pub open spec fn hhmm_spec(self) -> Seq<char> {
        two_digit_chars(self.hour as int) + seq![':'] + two_digit_chars(self.minute as int)
    }

    /// Writes the time in 24-hour "HH:MM" form.
    pub fn hhmm(&self) -> (r: String)
        requires
            self.valid(),
        ensures
            r@ == self.hhmm_spec(),
    {
        let mut r = String::new();
        r.append(digit_str(self.hour / 10));
        r.append(digit_str(self.hour % 10));
        proof {
            reveal_strlit(":");
            assert(":"@ =~= seq![':']);
        }
        r.append(":");
        r.append(digit_str(self.minute / 10));
        r.append(digit_str(self.minute % 10));
        proof {
            assert(r@ =~= self.hhmm_spec());
        }
        r
    }
}

fn digit_str(d: u8) -> (r: &'static str)
    requires
        d < 10,
    ensures
        r@ == seq![digit_char(d as int)],
{
    match d {
        0 => {
            proof {
                reveal_strlit("0");
                assert("0"@ =~= seq![digit_char(0int)]);
            }
            "0"
        },
        1 => {
            proof {
                reveal_strlit("1");
                assert("1"@ =~= seq![digit_char(1int)]);
            }
            "1"
        },
        2 => {
            proof {
                reveal_strlit("2");
                assert("2"@ =~= seq![digit_char(2int)]);
            }
            "2"
        },
        3 => {
            proof {
                reveal_strlit("3");
                assert("3"@ =~= seq![digit_char(3int)]);
            }
            "3"
        },
        4 => {
            proof {
                reveal_strlit("4");
                assert("4"@ =~= seq![digit_char(4int)]);
            }
            "4"
        },
        5 => {
            proof {
                reveal_strlit("5");
                assert("5"@ =~= seq![digit_char(5int)]);
            }
            "5"
        },
        6 => {
            proof {
                reveal_strlit("6");
                assert("6"@ =~= seq![digit_char(6int)]);
            }
            "6"
        },
        7 => {
            proof {
                reveal_strlit("7");
                assert("7"@ =~= seq![digit_char(7int)]);
            }
            "7"
        },
        8 => {
            proof {
                reveal_strlit("8");
                assert("8"@ =~= seq![digit_char(8int)]);
            }
            "8"
        },
        _ => {
            proof {
                reveal_strlit("9");
                assert("9"@ =~= seq![digit_char(9int)]);
            }
            "9"
        },
    }
}

pub open spec fn is_digit(c: char) -> bool {
    '0' <= c && c <= '9'
}

pub open spec fn digit_val(c: char) -> int {
    c as u32 - '0' as u32
}

/// The raw hour and minute read from a string of the shape "h:m", "h:mm",
/// "hh:m" or "hh:mm", before any range check or period adjustment.
pub open spec fn raw_parse(s: Seq<char>) -> Option<(int, int)> {
    if s.len() == 3 && is_digit(s[0]) && s[1] == ':' && is_digit(s[2]) {
        Some((digit_val(s[0]), digit_val(s[2])))
    } else if s.len() == 4 && is_digit(s[0]) && s[1] == ':' && is_digit(s[2]) && is_digit(s[3]) {
        Some((digit_val(s[0]), 10 * digit_val(s[2]) + digit_val(s[3])))
    } else if s.len() == 4 && is_digit(s[0]) && is_digit(s[1]) && s[2] == ':' && is_digit(s[3]) {
        Some((10 * digit_val(s[0]) + digit_val(s[1]), digit_val(s[3])))
    } else if s.len() == 5 && is_digit(s[0]) && is_digit(s[1]) && s[2] == ':' && is_digit(s[3])
        && is_digit(s[4]) {
        Some((10 * digit_val(s[0]) + digit_val(s[1]), 10 * digit_val(s[3]) + digit_val(s[4])))
    } else {
        None
    }
}

/// The disambiguation policy for strings without an AM/PM marker: an hour
/// before 6 must mean PM, so 12 is added to it; hours 6 through 23 are taken
/// literally.
pub open spec fn pm_adjust(h: int) -> int {
    if h < 6 {
        h + 12
    } else {
        h
    }
}

/// What `parse_time` returns: the raw hour and minute of the string where it
/// has the "hour:minute" shape and both are in range, with the PM adjustment
/// applied to the hour; `None` otherwise.
pub open spec fn parse_time_spec(s: Seq<char>) -> Option<Time> {
    match raw_parse(s) {
        Some((h, m)) => if h < 24 && m < 60 {
            Some(Time { hour: pm_adjust(h) as u8, minute: m as u8 })
        } else {
            None
        },
        None => None,
    }
}

fn is_digit_char(c: char) -> (r: bool)
    ensures
        r == is_digit(c),
{
    '0' <= c && c <= '9'
}

fn digit_value(c: char) -> (r: u8)
    requires
        is_digit(c),
    ensures
        r as int == digit_val(c),
{
    (c as u32 - '0' as u32) as u8
}

/// Takes a string representing a Time and parses it.
/// The string does not contain period (AM/PM) information, so the function
/// will determine it on its own: any hour before 6 is considered a PM hour,
/// while everything else is considered normally.
pub fn parse_time(s: &str) -> (r: Option<Time>)
    ensures
        r == parse_time_spec(s@),
        r matches Some(t) ==> t.valid(),
{
    let n = s.unicode_len();
    let raw: Option<(u8, u8)> = if n == 3 {
        let c0 = s.get_char(0);
        let c1 = s.get_char(1);
        let c2 = s.get_char(2);
        if is_digit_char(c0) && c1 == ':' && is_digit_char(c2) {
            Some((digit_value(c0), digit_value(c2)))
        } else {
            None
        }
    } else if n == 4 {
        let c0 = s.get_char(0);
        let c1 = s.get_char(1);
        let c2 = s.get_char(2);
        let c3 = s.get_char(3);
        if is_digit_char(c0) && c1 == ':' && is_digit_char(c2) && is_digit_char(c3) {
            Some((digit_value(c0), 10 * digit_value(c2) + digit_value(c3)))
        } else if is_digit_char(c0) && is_digit_char(c1) && c2 == ':' && is_digit_char(c3) {
            Some((10 * digit_value(c0) + digit_value(c1), digit_value(c3)))
        } else {
            None
        }
    } else if n == 5 {
        let c0 = s.get_char(0);
        let c1 = s.get_char(1);
        let c2 = s.get_char(2);
        let c3 = s.get_char(3);
        let c4 = s.get_char(4);
        if is_digit_char(c0) && is_digit_char(c1) && c2 == ':' && is_digit_char(c3)
            && is_digit_char(c4) {
            Some((10 * digit_value(c0) + digit_value(c1), 10 * digit_value(c3) + digit_value(c4)))
        } else {
            None
        }
    } else {
        None
    };

    match raw {
        Some((h, m)) => {
            if h < 24 && m < 60 {
                // if it's before 6 AM, then it must mean PM
                let hour: u8 = if h < 6 {
                    h + 12
                } else {
                    h
                };
                Some(Time { hour, minute: m })
            } else {
                None
            }
        },
        None => None,
    }
}

} // verus!
