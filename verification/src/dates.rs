//! A verified Gregorian calendar date, modeled by its day index: the number
//! of days since 0001-01-01 (day zero) in the proleptic Gregorian calendar.
//! Day zero is a Monday, so `day_index(d) % 7` is the weekday with Monday 0.

use vstd::prelude::*;
use vstd::arithmetic::div_mod::lemma_fundamental_div_mod_converse;
use crate::text::{is_digit_char, digits_val, is_digit};

verus! {

/// A calendar date in years 1 through 9999.
#[derive(Clone, Copy, Debug, PartialEq, Eq, Structural)]
pub struct Date {
    pub year: u32,
    pub month: u8,
    pub day: u8,
}

pub open spec fn is_leap_year(y: int) -> bool {
    y % 4 == 0 && (y % 100 != 0 || y % 400 == 0)
}

pub open spec fn days_in_month(y: int, m: int) -> int {
    if m == 2 {
        if is_leap_year(y) {
            29
        } else {
            28
        }
    } else if m == 4 || m == 6 || m == 9 || m == 11 {
        30
    } else {
        31
    }
}

pub open spec fn days_before_month(y: int, m: int) -> int {
    let base: int = if m == 1 {
        0
    } else if m == 2 {
        31
    } else if m == 3 {
        59
    } else if m == 4 {
        90
    } else if m == 5 {
        120
    } else if m == 6 {
        151
    } else if m == 7 {
        181
    } else if m == 8 {
        212
    } else if m == 9 {
        243
    } else if m == 10 {
        273
    } else if m == 11 {
        304
    } else {
        334
    };
    base + if m > 2 && is_leap_year(y) {
        1int
    } else {
        0int
    }
}

/// Leap years strictly before year `y`, for `y >= 1`.
pub open spec fn leaps_before(y: int) -> int {
    (y - 1) / 4 - (y - 1) / 100 + (y - 1) / 400
}

pub open spec fn valid_ymd(y: int, m: int, d: int) -> bool {
    1 <= y <= 9999 && 1 <= m <= 12 && 1 <= d <= days_in_month(y, m)
}

pub open spec fn valid_date(d: Date) -> bool {
    valid_ymd(d.year as int, d.month as int, d.day as int)
}

/// Days since 0001-01-01.
pub open spec fn day_index_ymd(y: int, m: int, d: int) -> int {
    365 * (y - 1) + leaps_before(y) + days_before_month(y, m) + (d - 1)
}

pub open spec fn day_index(d: Date) -> int {
    day_index_ymd(d.year as int, d.month as int, d.day as int)
}

/// Weekday with Monday 0 through Sunday 6.
pub open spec fn weekday_of(d: Date) -> int {
    day_index(d) % 7
}

pub fn is_leap(y: u32) -> (r: bool)
    ensures
        r == is_leap_year(y as int),
{
    y % 4 == 0 && (y % 100 != 0 || y % 400 == 0)
}

pub fn month_days(y: u32, m: u8) -> (r: u8)
    requires
        1 <= m <= 12,
    ensures
        r == days_in_month(y as int, m as int),
{
    if m == 2 {
        if is_leap(y) {
            29
        } else {
            28
        }
    } else if m == 4 || m == 6 || m == 9 || m == 11 {
        30
    } else {
        31
    }
}

pub fn date_valid(d: &Date) -> (r: bool)
    ensures
        r == valid_date(*d),
{
    1 <= d.year && d.year <= 9999 && 1 <= d.month && d.month <= 12 && 1 <= d.day && d.day
        <= month_days(d.year, d.month)
}

fn month_offset(y: u32, m: u8) -> (r: u32)
    requires
        1 <= m <= 12,
    ensures
        r == days_before_month(y as int, m as int),
{
    let base: u32 = if m == 1 {
        0
    } else if m == 2 {
        31
    } else if m == 3 {
        59
    } else if m == 4 {
        90
    } else if m == 5 {
        120
    } else if m == 6 {
        151
    } else if m == 7 {
        181
    } else if m == 8 {
        212
    } else if m == 9 {
        243
    } else if m == 10 {
        273
    } else if m == 11 {
        304
    } else {
        334
    };
    if m > 2 && is_leap(y) {
        base + 1
    } else {
        base
    }
}

/// The day index of a valid date, computed exactly.
pub fn day_number(d: &Date) -> (r: u32)
    requires
        valid_date(*d),
    ensures
        r == day_index(*d),
{
    let y = d.year - 1;
    let a = 365 * y + y / 4 + y / 400 + month_offset(d.year, d.month) + (d.day as u32 - 1);
    a - y / 100
}

/// The weekday of a valid date, Monday 0 through Sunday 6.
pub fn weekday_num(d: &Date) -> (r: u8)
    requires
        valid_date(*d),
    ensures
        r == weekday_of(*d),
        r <= 6,
{
    (day_number(d) % 7) as u8
}

proof fn lemma_div_step(x: int, d: int)
    requires
        x >= 1,
        d >= 1,
    ensures
        x / d - (x - 1) / d == if x % d == 0 {
            1int
        } else {
            0int
        },
{
    let q = x / d;
    let r = x % d;
    vstd::arithmetic::div_mod::lemma_fundamental_div_mod(x, d);
    if r == 0 {
        assert((q - 1) * d == q * d - d) by (nonlinear_arith);
        lemma_fundamental_div_mod_converse(x - 1, d, q - 1, d - 1);
    } else {
        lemma_fundamental_div_mod_converse(x - 1, d, q, r - 1);
    }
}

/// The calendar day after `d`.
pub fn next_day(d: &Date) -> (r: Date)
    requires
        valid_date(*d),
        !(d.year == 9999 && d.month == 12 && d.day == 31),
    ensures
        valid_date(r),
        day_index(r) == day_index(*d) + 1,
{
    if d.day < month_days(d.year, d.month) {
        Date { year: d.year, month: d.month, day: d.day + 1 }
    } else if d.month < 12 {
        let r = Date { year: d.year, month: d.month + 1, day: 1 };
        proof {
            assert(days_before_month(d.year as int, d.month + 1) == days_before_month(
                d.year as int,
                d.month as int,
            ) + days_in_month(d.year as int, d.month as int));
        }
        r
    } else {
        let r = Date { year: d.year + 1, month: 1, day: 1 };
        proof {
            let y = d.year as int;
            lemma_div_step(y, 4);
            lemma_div_step(y, 100);
            lemma_div_step(y, 400);
            assert(leaps_before(y + 1) - leaps_before(y) == if is_leap_year(y) {
                1int
            } else {
                0int
            });
        }
        r
    }
}

/// `d` advanced by `n` days.
pub fn add_days(d: &Date, n: u32) -> (r: Date)
    requires
        valid_date(*d),
        d.year <= 9998,
        n <= 365,
    ensures
        valid_date(r),
        day_index(r) == day_index(*d) + n,
{
    let mut cur = *d;
    let mut k: u32 = 0;
    while k < n
        invariant
            valid_date(cur),
            day_index(cur) == day_index(*d) + k,
            k <= n <= 365,
            day_index(*d) <= day_index_ymd(9998, 12, 31),
        decreases n - k,
    {
        proof {
            if cur.year == 9999 && cur.month == 12 && cur.day == 31 {
                assert(day_index(cur) == day_index_ymd(9999, 12, 31));
            }
        }
        cur = next_day(&cur);
        k = k + 1;
    }
    cur
}

// ---------------------------------------------------------------------------
// Explicit date tokens
// ---------------------------------------------------------------------------

/// First index at or after `i` holding a non-digit, or the length of `s`.
pub open spec fn digits_end(s: Seq<char>, i: int) -> int
    decreases s.len() - i,
    when 0 <= i <= s.len()
{
    if i == s.len() || !is_digit_char(s[i]) {
        i
    } else {
        digits_end(s, i + 1)
    }
}

pub proof fn lemma_digits_end(s: Seq<char>, i: int)
    requires
        0 <= i <= s.len(),
    ensures
        i <= digits_end(s, i) <= s.len(),
        forall|k: int| i <= k < digits_end(s, i) ==> is_digit_char(s[k]),
        digits_end(s, i) < s.len() ==> !is_digit_char(s[digits_end(s, i)]),
    decreases s.len() - i,
{
    if i == s.len() || !is_digit_char(s[i]) {
    } else {
        lemma_digits_end(s, i + 1);
    }
}

/// Split `t` as three nonempty digit runs separated by single `sep`
/// characters, spanning the whole token.
pub open spec fn sep_fields3(t: Seq<char>, sep: char) -> Option<(Seq<char>, Seq<char>, Seq<char>)> {
    let e1 = digits_end(t, 0);
    if 0 < e1 < t.len() && t[e1] == sep {
        let e2 = digits_end(t, e1 + 1);
        if e1 + 1 < e2 < t.len() && t[e2] == sep {
            let e3 = digits_end(t, e2 + 1);
            if e2 + 1 < e3 && e3 == t.len() {
                Some((t.subrange(0, e1), t.subrange(e1 + 1, e2), t.subrange(e2 + 1, e3)))
            } else {
                None
            }
        } else {
            None
        }
    } else {
        None
    }
}

/// Split `t` as two nonempty digit runs separated by a single `sep`.
pub open spec fn sep_fields2(t: Seq<char>, sep: char) -> Option<(Seq<char>, Seq<char>)> {
    let e1 = digits_end(t, 0);
    if 0 < e1 < t.len() && t[e1] == sep {
        let e2 = digits_end(t, e1 + 1);
        if e1 + 1 < e2 && e2 == t.len() {
            Some((t.subrange(0, e1), t.subrange(e1 + 1, e2)))
        } else {
            None
        }
    } else {
        None
    }
}

pub open spec fn ymd_date(y: int, m: int, d: int) -> Option<Date> {
    if valid_ymd(y, m, d) {
        Some(Date { year: y as u32, month: m as u8, day: d as u8 })
    } else {
        None
    }
}

/// The date denoted by one whitespace token, tried against the recognized
/// formats in their fixed order: year-month-day and month-day-year with
/// dashes; month/day/year, day/month/year, year/month/day and year-less
/// month/day with slashes.  Years take four digits, months and days one or
/// two; the result must be a valid calendar date.  A year-less month-day
/// pair with a dash is nominally recognized too but never parses — with no
/// year to complete it, it denotes no date — so no dash form of two fields
/// appears here.
pub open spec fn date_of_token(t: Seq<char>, cur_year: int) -> Option<Date> {
    if sep_fields3(t, '-') is Some {
        let (a, b, c) = sep_fields3(t, '-')->Some_0;
        if a.len() == 4 && 1 <= b.len() <= 2 && 1 <= c.len() <= 2 && ymd_date(
            digits_val(a),
            digits_val(b),
            digits_val(c),
        ) is Some {
            ymd_date(digits_val(a), digits_val(b), digits_val(c))
        } else if 1 <= a.len() <= 2 && 1 <= b.len() <= 2 && c.len() == 4 && ymd_date(
            digits_val(c),
            digits_val(a),
            digits_val(b),
        ) is Some {
            ymd_date(digits_val(c), digits_val(a), digits_val(b))
        } else {
            None
        }
    } else if sep_fields3(t, '/') is Some {
        let (a, b, c) = sep_fields3(t, '/')->Some_0;
        if 1 <= a.len() <= 2 && 1 <= b.len() <= 2 && c.len() == 4 && ymd_date(
            digits_val(c),
            digits_val(a),
            digits_val(b),
        ) is Some {
            ymd_date(digits_val(c), digits_val(a), digits_val(b))
        } else if 1 <= a.len() <= 2 && 1 <= b.len() <= 2 && c.len() == 4 && ymd_date(
            digits_val(c),
            digits_val(b),
            digits_val(a),
        ) is Some {
            ymd_date(digits_val(c), digits_val(b), digits_val(a))
        } else if a.len() == 4 && 1 <= b.len() <= 2 && 1 <= c.len() <= 2 && ymd_date(
            digits_val(a),
            digits_val(b),
            digits_val(c),
        ) is Some {
            ymd_date(digits_val(a), digits_val(b), digits_val(c))
        } else {
            None
        }
    } else if sep_fields2(t, '/') is Some {
        let (a, b) = sep_fields2(t, '/')->Some_0;
        if 1 <= a.len() <= 2 && 1 <= b.len() <= 2 {
            ymd_date(cur_year, digits_val(a), digits_val(b))
        } else {
            None
        }
    } else {
        None
    }
}

fn digits_end_x(t: &Vec<char>, i: usize) -> (r: usize)
    requires
        i <= t@.len(),
    ensures
        r == digits_end(t@, i as int),
        i <= r <= t@.len(),
{
    let len = t.len();
    let mut j: usize = i;
    while j < len && is_digit(t[j])
        invariant
            len == t@.len(),
            i <= j <= len,
            forall|k: int| i <= k < j ==> is_digit_char(t@[k]),
        decreases len - j,
    {
        j = j + 1;
    }
    proof {
        lemma_digits_end_at(t@, i as int, j as int);
    }
    j
}

pub proof fn lemma_digits_end_at(s: Seq<char>, i: int, j: int)
    requires
        0 <= i <= j <= s.len(),
        forall|k: int| i <= k < j ==> is_digit_char(s[k]),
        j < s.len() ==> !is_digit_char(s[j]),
    ensures
        digits_end(s, i) == j,
    decreases j - i,
{
    if i < j {
        lemma_digits_end_at(s, i + 1, j);
    }
}

spec fn pow10(n: nat) -> int
    decreases n,
{
    if n == 0 {
        1
    } else {
        10 * pow10((n - 1) as nat)
    }
}

proof fn lemma_digits_val_upper(s: Seq<char>)
    requires
        crate::text::all_digits(s),
    ensures
        0 <= digits_val(s) < pow10(s.len()),
    decreases s.len(),
{
    if s.len() > 0 {
        assert(s.drop_last() =~= s.subrange(0, s.len() - 1));
        lemma_digits_val_upper(s.drop_last());
    }
}

/// The value of a digit-run field of at most four characters.
fn field_val(t: &Vec<char>, from: usize, to: usize) -> (r: u32)
    requires
        from <= to <= t@.len(),
        to - from <= 4,
        forall|k: int| from <= k < to ==> is_digit_char(t@[k]),
    ensures
        r == digits_val(t@.subrange(from as int, to as int)),
        r <= 9999,
{
    proof {
        lemma_digits_val_upper(t@.subrange(from as int, to as int));
    }
    let mut acc: u32 = 0;
    let mut i: usize = from;
    while i < to
        invariant
            from <= i <= to <= t@.len(),
            to - from <= 4,
            forall|k: int| from <= k < to ==> is_digit_char(t@[k]),
            acc == digits_val(t@.subrange(from as int, i as int)),
            acc <= 9999,
        decreases to - i,
    {
        let ghost p0 = t@.subrange(from as int, i as int);
        let ghost p1 = t@.subrange(from as int, i + 1);
        proof {
            assert(p1.drop_last() =~= p0);
            assert(crate::text::all_digits(p1));
            lemma_digits_val_upper(p1);
            assert(pow10(0) == 1);
            assert(pow10(1) == 10);
            assert(pow10(2) == 100);
            assert(pow10(3) == 1000);
            assert(pow10(4) == 10000);
        }
        acc = acc * 10 + (t[i] as u32 - 48);
        i = i + 1;
    }
    acc
}

/// Parse one token against the recognized explicit date formats.
pub fn date_from_token(t: &Vec<char>, cur_year: u32) -> (r: Option<Date>)
    requires
        1 <= cur_year <= 9999,
    ensures
        r == date_of_token(t@, cur_year as int),
{
    let len = t.len();
    proof {
        lemma_digits_end(t@, 0);
    }
    let e1 = digits_end_x(t, 0);
    if e1 == 0 || e1 >= len {
        return None;
    }
    let sep = t[e1];
    if sep != '-' && sep != '/' {
        return None;
    }
    proof {
        lemma_digits_end(t@, e1 + 1);
    }
    let e2 = digits_end_x(t, e1 + 1);
    if e2 == e1 + 1 {
        return None;
    }
    if e2 == len {
        // two fields
        if sep != '/' {
            return None;
        }
        let fa = e1;
        let lb = e2 - (e1 + 1);
        if 1 <= fa && fa <= 2 && 1 <= lb && lb <= 2 {
            let m = field_val(t, 0, e1);
            let d = field_val(t, e1 + 1, e2);
            return try_ymd(cur_year, m, d);
        }
        return None;
    }
    if t[e2] != sep {
        return None;
    }
    proof {
        lemma_digits_end(t@, e2 + 1);
    }
    let e3 = digits_end_x(t, e2 + 1);
    if e3 == e2 + 1 || e3 != len {
        return None;
    }
    let la = e1;
    let lb = e2 - (e1 + 1);
    let lc = e3 - (e2 + 1);
    if la > 4 || lb > 4 || lc > 4 {
        return None;
    }
    let a = field_val(t, 0, e1);
    let b = field_val(t, e1 + 1, e2);
    let c = field_val(t, e2 + 1, e3);
    if sep == '-' {
        if la == 4 && lb <= 2 && lc <= 2 {
            let r = try_ymd(a, b, c);
            if r.is_some() {
                return r;
            }
        }
        if la <= 2 && lb <= 2 && lc == 4 {
            let r = try_ymd(c, a, b);
            if r.is_some() {
                return r;
            }
        }
        None
    } else {
        if la <= 2 && lb <= 2 && lc == 4 {
            let r = try_ymd(c, a, b);
            if r.is_some() {
                return r;
            }
            let r = try_ymd(c, b, a);
            if r.is_some() {
                return r;
            }
        }
        if la == 4 && lb <= 2 && lc <= 2 {
            let r = try_ymd(a, b, c);
            if r.is_some() {
                return r;
            }
        }
        None
    }
}

fn try_ymd(y: u32, m: u32, d: u32) -> (r: Option<Date>)
    requires
        y <= 9999,
        m <= 9999,
        d <= 9999,
    ensures
        r == ymd_date(y as int, m as int, d as int),
{
    if 1 <= y && 1 <= m && m <= 12 {
        let dim = month_days(y, m as u8);
        if 1 <= d && d <= dim as u32 {
            return Some(Date { year: y, month: m as u8, day: d as u8 });
        }
    }
    None
}

} // verus!
