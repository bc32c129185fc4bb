//! The pure pieces of weather reporting: reading an hour out of a game
//! time string, and naming a weather code.  Fetching the forecast itself
//! is the caller's network work.

use vstd::prelude::*;
use crate::text::{
    contains_seq, lower_seq, is_digit_char, digits_val, contains_sub, to_lower, chars_of,
};
use crate::dates::digits_end;

verus! {

/// First index at or after `i` holding a digit, or the length of `s`.
pub open spec fn first_digit_at(s: Seq<char>, i: int) -> int
    decreases s.len() - i,
    when 0 <= i <= s.len()
{
    if i == s.len() || is_digit_char(s[i]) {
        i
    } else {
        first_digit_at(s, i + 1)
    }
}

/// The first maximal digit run of `s`, if any.
pub open spec fn first_digit_run(s: Seq<char>) -> Option<Seq<char>> {
    let a = first_digit_at(s, 0);
    if a == s.len() {
        None
    } else {
        Some(s.subrange(a, digits_end(s, a)))
    }
}

/// The hour (0..=23 for sane inputs) denoted by a time string such as
/// "3:30 PM" or "14:00": its first number, shifted by twelve for "pm"
/// times before noon, and to zero for "12 am".
pub open spec fn hour_of_time(t: Seq<char>) -> Option<int> {
    let lower = lower_seq(t);
    let pm = contains_seq(lower, "pm"@) || contains_seq(lower, "p.m."@);
    match first_digit_run(lower) {
        None => None,
        Some(run) => if digits_val(run) > u32::MAX {
            None
        } else {
            let h = digits_val(run);
            if pm && h < 12 {
                Some(h + 12)
            } else if !pm && h == 12 {
                Some(0int)
            } else {
                Some(h)
            }
        },
    }
}

/// Read the starting hour out of a time string.
pub fn parse_hour_from_time(time_str: &str) -> (r: Option<u32>)
    ensures
        match r {
            Some(h) => hour_of_time(time_str@) == Some(h as int),
            None => hour_of_time(time_str@) is None,
        },
{
    let tv = chars_of(time_str);
    let tl = to_lower(&tv);
    let is_pm = contains_sub(&tl, "pm") || contains_sub(&tl, "p.m.");
    let len = tl.len();
    let mut a: usize = 0;
    while a < len && !crate::text::is_digit(tl[a])
        invariant
            len == tl@.len(),
            a <= len,
            forall|k: int| 0 <= k < a ==> !is_digit_char(tl@[k]),
        decreases len - a,
    {
        a = a + 1;
    }
    proof {
        lemma_first_digit_at(tl@, 0, a as int);
    }
    if a == len {
        return None;
    }
    let mut b: usize = a;
    let mut acc: u64 = 0;
    let mut overflow: bool = false;
    while b < len && crate::text::is_digit(tl[b])
        invariant
            len == tl@.len(),
            a <= b <= len,
            forall|k: int| a <= k < b ==> is_digit_char(tl@[k]),
            !overflow ==> acc == digits_val(tl@.subrange(a as int, b as int)) && acc
                <= u32::MAX as u64,
            overflow ==> digits_val(tl@.subrange(a as int, b as int)) > u32::MAX,
        decreases len - b,
    {
        let ghost p0 = tl@.subrange(a as int, b as int);
        let ghost p1 = tl@.subrange(a as int, b + 1);
        proof {
            assert(p1.drop_last() =~= p0);
            assert(crate::text::all_digits(p1));
            crate::text::lemma_digits_val_nonneg(p1);
        }
        let d = (tl[b] as u32 - 48) as u64;
        if !overflow {
            let next = acc * 10 + d;
            if next > u32::MAX as u64 {
                overflow = true;
            } else {
                acc = next;
            }
        } else {
            proof {
                assert(digits_val(p1) == digits_val(p0) * 10 + (tl@[b as int] as u32 - 48));
                assert(digits_val(p0) >= 0) by {
                    crate::text::lemma_digits_val_nonneg(p0);
                }
            }
        }
        b = b + 1;
    }
    proof {
        crate::dates::lemma_digits_end_at(tl@, a as int, b as int);
    }
    if overflow {
        return None;
    }
    let h = acc as u32;
    if is_pm && h < 12 {
        Some(h + 12)
    } else if !is_pm && h == 12 {
        Some(0)
    } else {
        Some(h)
    }
}

proof fn lemma_first_digit_at(s: Seq<char>, i: int, a: int)
    requires
        0 <= i <= a <= s.len(),
        forall|k: int| i <= k < a ==> !is_digit_char(s[k]),
        a < s.len() ==> is_digit_char(s[a]),
    ensures
        first_digit_at(s, i) == a,
    decreases a - i,
{
    if i < a {
        lemma_first_digit_at(s, i + 1, a);
    }
}

/// The human label of an hourly weather code.
pub open spec fn weather_label(code: int) -> Seq<char> {
    if code == 0 {
        "Clear sky"@
    } else if 1 <= code <= 3 {
        "Partly cloudy"@
    } else if code == 45 || code == 48 {
        "Foggy"@
    } else if 51 <= code <= 55 {
        "Drizzle"@
    } else if code == 56 || code == 57 {
        "Freezing Drizzle"@
    } else if 61 <= code <= 65 {
        "Rain"@
    } else if code == 66 || code == 67 {
        "Freezing Rain"@
    } else if 71 <= code <= 75 {
        "Snow"@
    } else if code == 77 {
        "Snow grains"@
    } else if 80 <= code <= 82 {
        "Rain showers"@
    } else if code == 85 || code == 86 {
        "Snow showers"@
    } else if code == 95 {
        "Thunderstorm"@
    } else if code == 96 || code == 99 {
        "Thunderstorm with hail"@
    } else {
        "Unknown"@
    }
}

/// Name a weather code.
pub fn weather_code_to_string(code: i32) -> (r: String)
    ensures
        r@ == weather_label(code as int),
{
    let s: &str = if code == 0 {
        "Clear sky"
    } else if 1 <= code && code <= 3 {
        "Partly cloudy"
    } else if code == 45 || code == 48 {
        "Foggy"
    } else if 51 <= code && code <= 55 {
        "Drizzle"
    } else if code == 56 || code == 57 {
        "Freezing Drizzle"
    } else if 61 <= code && code <= 65 {
        "Rain"
    } else if code == 66 || code == 67 {
        "Freezing Rain"
    } else if 71 <= code && code <= 75 {
        "Snow"
    } else if code == 77 {
        "Snow grains"
    } else if 80 <= code && code <= 82 {
        "Rain showers"
    } else if code == 85 || code == 86 {
        "Snow showers"
    } else if code == 95 {
        "Thunderstorm"
    } else if code == 96 || code == 99 {
        "Thunderstorm with hail"
    } else {
        "Unknown"
    };
    String::from_str(s)
}

} // verus!
