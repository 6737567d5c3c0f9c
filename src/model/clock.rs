//! Times of day at second precision, as the schedule uses them: arithmetic
//! wraps around midnight.
use vstd::arithmetic::div_mod::lemma_mod_multiples_vanish;
use crate::text::{digit_value, is_digit};
use vstd::prelude::*;

verus! {

pub const SECONDS_PER_DAY: u32 = 86400;

/// A whole number of days, in seconds, larger than any `i32`: adding it
/// keeps a shifted time positive without changing it modulo a day.
const DAYS_SHIFT: i64 = 2147558400;

/// The time of day a second count stands for, wrapping around midnight.
pub open spec fn day_wrap(x: int) -> int {
    x % (SECONDS_PER_DAY as int)
}

fn digit(c: char) -> (r: u32)
    requires
        is_digit(c),
    ensures
        r == digit_value(c),
        r < 10,
{
    c as u32 - '0' as u32
}

/// A raw schedule time: empty (not served), or five characters `xHHMM`
/// where the first is a day or sign mark, then hours and minutes; more
/// characters may follow and are not read.
pub open spec fn time_text_ok(t: Seq<char>) -> bool {
    t.len() == 0 || (t.len() >= 5 && is_digit(t[1]) && is_digit(t[2]) && is_digit(t[3])
        && is_digit(t[4]) && two_digits(t[3], t[4]) < 60)
}

pub open spec fn two_digits(a: char, b: char) -> int {
    10 * digit_value(a) + digit_value(b)
}

/// The time a raw schedule text gives, hours taken modulo 24 (a time past
/// midnight reads as the same hour of the same day); `None` when empty.
pub open spec fn text_clock(t: Seq<char>) -> Option<ClockTime> {
    if t.len() == 0 {
        None
    } else {
        Some(ClockTime { seconds: ((two_digits(t[1], t[2]) % 24) * 3600 + two_digits(t[3], t[4]) * 60) as u32 })
    }
}

/// A time of day, in seconds since midnight.
#[derive(Debug, Clone, Copy, PartialEq, Eq, Structural)]
pub struct ClockTime {
    pub seconds: u32,
}

/// Whether a raw schedule time is well formed.
pub fn check_time_text(t: &str) -> (r: bool)
    ensures
        r == time_text_ok(t@),
{
    let n = t.unicode_len();
    if n == 0 {
        return true;
    }
    if n < 5 {
        return false;
    }
    let (a, b, c, d) = (t.get_char(1), t.get_char(2), t.get_char(3), t.get_char(4));
    if !('0' <= a && a <= '9' && '0' <= b && b <= '9' && '0' <= c && c <= '9' && '0' <= d && d <= '9') {
        return false;
    }
    digit(c) * 10 + digit(d) < 60
}

impl ClockTime {
    /// The time lies within one day.
    pub open spec fn wf(self) -> bool {
        self.seconds < SECONDS_PER_DAY
    }

    /// The time `h:m:s`, when each part is in range.
    pub fn from_hms(h: u32, m: u32, s: u32) -> (r: Option<ClockTime>)
        ensures
            r == (if h < 24 && m < 60 && s < 60 {
                Some(ClockTime { seconds: (h * 3600 + m * 60 + s) as u32 })
            } else {
                None
            }),
            r matches Some(t) ==> t.wf(),
    {
        if h < 24 && m < 60 && s < 60 {
            Some(ClockTime { seconds: h * 3600 + m * 60 + s })
        } else {
            None
        }
    }

    /// Reads a raw schedule time (see `time_text_ok`).
    pub fn from_text(t: &str) -> (r: Option<ClockTime>)
        requires
            time_text_ok(t@),
        ensures
            r == text_clock(t@),
            r matches Some(c) ==> c.wf(),
    {
        if t.unicode_len() == 0 {
            return None;
        }
        let h = digit(t.get_char(1)) * 10 + digit(t.get_char(2));
        let m = digit(t.get_char(3)) * 10 + digit(t.get_char(4));
        Some(ClockTime { seconds: (h % 24) * 3600 + m * 60 })
    }

    /// The time `d` seconds later (earlier when `d` is negative), wrapping
    /// around midnight.
    pub fn add_seconds(self, d: i32) -> (r: ClockTime)
        requires
            self.wf(),
        ensures
            r.wf(),
            r.seconds == day_wrap(self.seconds + d),
    {
        let y: i64 = self.seconds as i64 + d as i64 + DAYS_SHIFT;
        let r: u32 = (y as u64 % (SECONDS_PER_DAY as u64)) as u32;
        proof {
            lemma_mod_multiples_vanish(24856, self.seconds + d, SECONDS_PER_DAY as int);
        }
        ClockTime { seconds: r }
    }

    /// Signed number of seconds from `other` to `self`, within one day.
    pub fn seconds_since(self, other: ClockTime) -> (r: i32)
        requires
            self.wf(),
            other.wf(),
        ensures
            r == self.seconds - other.seconds,
    {
        self.seconds as i32 - other.seconds as i32
    }

    pub fn hour(self) -> (r: u32)
        ensures
            r == self.seconds / 3600,
    {
        self.seconds / 3600
    }

    pub fn minute(self) -> (r: u32)
        ensures
            r == self.seconds % 3600 / 60,
    {
        self.seconds % 3600 / 60
    }

    pub fn second(self) -> (r: u32)
        ensures
            r == self.seconds % 60,
    {
        self.seconds % 60
    }
}

} // verus!
