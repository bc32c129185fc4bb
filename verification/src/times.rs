//! Time-of-day parsing for game times such as "10:00 AM", "8am" or
//! "14:30", modeled as minutes since midnight.  The formats are tried in a
//! fixed order: twelve-hour clock with minutes and an AM/PM tag, a bare
//! hour with the tag, then the twenty-four-hour clock.

use vstd::prelude::*;
use crate::text::{
    upper_seq, is_space_char, is_digit_char, digits_val, to_upper, chars_of, is_digit, is_space,
};
use crate::dates::{digits_end, lemma_digits_end_at, lemma_digits_end};

verus! {

/// First index at or after `i` past any whitespace.
pub open spec fn skip_spaces(s: Seq<char>, i: int) -> int
    decreases s.len() - i,
    when 0 <= i <= s.len()
{
    if i == s.len() || !is_space_char(s[i]) {
        i
    } else {
        skip_spaces(s, i + 1)
    }
}

/// The meridiem tag filling the rest of `u` from `i`: false for AM, true
/// for PM, nothing otherwise.
pub open spec fn ampm_at(u: Seq<char>, i: int) -> Option<bool> {
    if 0 <= i <= u.len() {
        if u.subrange(i, u.len() as int) == "AM"@ {
            Some(false)
        } else if u.subrange(i, u.len() as int) == "PM"@ {
            Some(true)
        } else {
            None
        }
    } else {
        None
    }
}

/// A twelve-hour clock reading moved to minutes since midnight.
pub open spec fn twelve_hour_minutes(h: int, m: int, pm: bool) -> int {
    if h == 12 {
        if pm {
            720 + m
        } else {
            m
        }
    } else {
        if pm {
            (h + 12) * 60 + m
        } else {
            h * 60 + m
        }
    }
}

/// Minutes since midnight denoted by the upper-cased time string `u`, or
/// nothing when no recognized format fits exactly.
pub open spec fn minutes_of_upper(u: Seq<char>) -> Option<int> {
    let e1 = digits_end(u, 0);
    if e1 < 1 || e1 > 2 {
        None
    } else if e1 < u.len() && u[e1] == ':' {
        let e2 = digits_end(u, e1 + 1);
        let h = digits_val(u.subrange(0, e1));
        let m = digits_val(u.subrange(e1 + 1, e2));
        if e2 - (e1 + 1) < 1 || e2 - (e1 + 1) > 2 {
            None
        } else if ampm_at(u, skip_spaces(u, e2)) is Some {
            // the twelve-hour clock with minutes
            let pm = ampm_at(u, skip_spaces(u, e2))->Some_0;
            if 1 <= h <= 12 && m <= 59 {
                Some(twelve_hour_minutes(h, m, pm))
            } else {
                None
            }
        } else if e2 == u.len() && h <= 23 && m <= 59 {
            // the twenty-four-hour clock
            Some(h * 60 + m)
        } else {
            None
        }
    } else if ampm_at(u, e1) is Some {
        // a bare hour with the tag
        let pm = ampm_at(u, e1)->Some_0;
        let h = digits_val(u.subrange(0, e1));
        if 1 <= h <= 12 {
            Some(twelve_hour_minutes(h, 0, pm))
        } else {
            None
        }
    } else {
        None
    }
}

/// Minutes since midnight denoted by a time string, case-insensitively.
pub open spec fn time_minutes(t: Seq<char>) -> Option<int> {
    minutes_of_upper(upper_seq(t))
}

fn digits_end_x(u: &Vec<char>, i: usize) -> (r: usize)
    requires
        i <= u@.len(),
    ensures
        r == digits_end(u@, i as int),
        i <= r <= u@.len(),
{
    let len = u.len();
    let mut j: usize = i;
    while j < len && is_digit(u[j])
        invariant
            len == u@.len(),
            i <= j <= len,
            forall|k: int| i <= k < j ==> is_digit_char(u@[k]),
        decreases len - j,
    {
        j = j + 1;
    }
    proof {
        lemma_digits_end_at(u@, i as int, j as int);
    }
    j
}

fn skip_spaces_x(u: &Vec<char>, i: usize) -> (r: usize)
    requires
        i <= u@.len(),
    ensures
        r == skip_spaces(u@, i as int),
        i <= r <= u@.len(),
{
    let len = u.len();
    let mut j: usize = i;
    while j < len && is_space(u[j])
        invariant
            len == u@.len(),
            i <= j <= len,
            skip_spaces(u@, i as int) == skip_spaces(u@, j as int),
        decreases len - j,
    {
        j = j + 1;
    }
    j
}

fn ampm_x(u: &Vec<char>, i: usize) -> (r: Option<bool>)
    requires
        i <= u@.len(),
    ensures
        r == ampm_at(u@, i as int),
{
    let len = u.len();
    if len - i == 2 {
        let a = u[i];
        let b = u[i + 1];
        proof {
            reveal_strlit("AM");
            reveal_strlit("PM");
            assert(u@.subrange(i as int, len as int).len() == 2);
            assert(u@.subrange(i as int, len as int)[0] == u@[i as int]);
            assert(u@.subrange(i as int, len as int)[1] == u@[i + 1]);
        }
        if a == 'A' && b == 'M' {
            proof {
                assert(u@.subrange(i as int, len as int) =~= "AM"@);
            }
            Some(false)
        } else if a == 'P' && b == 'M' {
            proof {
                assert(u@.subrange(i as int, len as int) =~= "PM"@);
            }
            Some(true)
        } else {
            None
        }
    } else {
        proof {
            reveal_strlit("AM");
            reveal_strlit("PM");
            assert(u@.subrange(i as int, u@.len() as int).len() != 2);
        }
        None
    }
}

/// The value of a digit run of one or two characters.
fn small_field(u: &Vec<char>, from: usize, to: usize) -> (r: u32)
    requires
        from <= to <= u@.len(),
        1 <= to - from <= 2,
        forall|k: int| from <= k < to ==> is_digit_char(u@[k]),
    ensures
        r == digits_val(u@.subrange(from as int, to as int)),
        r <= 99,
{
    let ghost whole = u@.subrange(from as int, to as int);
    let d0 = u[from] as u32 - 48;
    proof {
        assert(digits_val(u@.subrange(from as int, from as int)) == 0);
    }
    if to - from == 1 {
        proof {
            assert(whole.last() == u@[from as int]);
            assert(whole.drop_last() =~= u@.subrange(from as int, from as int));
            assert(digits_val(whole) == crate::text::digit_val(u@[from as int]));
        }
        d0
    } else {
        let d1 = u[from + 1] as u32 - 48;
        proof {
            let p = u@.subrange(from as int, from + 1);
            assert(p.last() == u@[from as int]);
            assert(p.drop_last() =~= u@.subrange(from as int, from as int));
            assert(digits_val(p) == crate::text::digit_val(u@[from as int]));
            assert(whole.last() == u@[from + 1]);
            assert(whole.drop_last() =~= p);
            assert(digits_val(whole) == digits_val(p) * 10 + crate::text::digit_val(u@[from + 1]));
        }
        d0 * 10 + d1
    }
}

/// Read a game time as minutes since midnight.
pub fn parse_time_minutes(time_str: &str) -> (r: Option<u32>)
    ensures
        match r {
            Some(m) => time_minutes(time_str@) == Some(m as int) && m < 1440,
            None => time_minutes(time_str@) is None,
        },
{
    let tv = chars_of(time_str);
    let u = to_upper(&tv);
    let len = u.len();
    let e1 = digits_end_x(&u, 0);
    proof {
        lemma_digits_end(u@, 0);
    }
    if e1 < 1 || e1 > 2 {
        return None;
    }
    let h = small_field(&u, 0, e1);
    if e1 < len && u[e1] == ':' {
        let e2 = digits_end_x(&u, e1 + 1);
        proof {
            lemma_digits_end(u@, e1 + 1);
        }
        if e2 - (e1 + 1) < 1 || e2 - (e1 + 1) > 2 {
            return None;
        }
        let m = small_field(&u, e1 + 1, e2);
        let j = skip_spaces_x(&u, e2);
        match ampm_x(&u, j) {
            Some(pm) => {
                if 1 <= h && h <= 12 && m <= 59 {
                    Some(to_minutes(h, m, pm))
                } else {
                    None
                }
            },
            None => {
                if e2 == len && h <= 23 && m <= 59 {
                    Some(h * 60 + m)
                } else {
                    None
                }
            },
        }
    } else {
        match ampm_x(&u, e1) {
            Some(pm) => {
                if 1 <= h && h <= 12 {
                    Some(to_minutes(h, 0, pm))
                } else {
                    None
                }
            },
            None => None,
        }
    }
}

fn to_minutes(h: u32, m: u32, pm: bool) -> (r: u32)
    requires
        1 <= h <= 12,
        m <= 59,
    ensures
        r == twelve_hour_minutes(h as int, m as int, pm),
        r < 1440,
{
    if h == 12 {
        if pm {
            720 + m
        } else {
            m
        }
    } else {
        if pm {
            (h + 12) * 60 + m
        } else {
            h * 60 + m
        }
    }
}

} // verus!
