//! Entity extractors: pure functions that pull dates, roles, person names,
//! relative game indices, categories and counts out of normalized message
//! text.  Each is specified against a spec function over character
//! sequences.

use vstd::prelude::*;
use crate::text::{
    contains_seq, lower_seq, split_ws, views_of, join_sp, usize_of_token, trim_ch, contains_sub,
    to_lower, split_tokens, join_spaces, parse_usize, trim_char, seq_eq_str, subvec,
    string_from_chars,
};
use crate::dates::{
    Date, valid_date, day_index, weekday_of, date_of_token, date_from_token, weekday_num, add_days,
};

verus! {

// ---------------------------------------------------------------------------
// Volunteer roles
// ---------------------------------------------------------------------------

pub open spec fn has_snacks_kw(t: Seq<char>) -> bool {
    contains_seq(t, "snacks"@) || contains_seq(t, "snack"@) || contains_seq(t, "food"@)
        || contains_seq(t, "treats"@)
}

pub open spec fn has_livestream_kw(t: Seq<char>) -> bool {
    contains_seq(t, "livestream"@) || contains_seq(t, "stream"@) || contains_seq(t, "streaming"@)
        || contains_seq(t, "live"@)
}

pub open spec fn has_scoreboard_kw(t: Seq<char>) -> bool {
    contains_seq(t, "scoreboard"@) || contains_seq(t, "score"@) || contains_seq(t, "scoring"@)
        || contains_seq(t, "gamechanger"@) || contains_seq(t, "game changer"@)
}

pub open spec fn has_pitchcount_kw(t: Seq<char>) -> bool {
    contains_seq(t, "pitchcount"@) || contains_seq(t, "pitch count"@) || contains_seq(t, "pitch"@)
        || contains_seq(t, "pitches"@)
}

/// The canonical roles named in `t`, in the fixed family-check order:
/// snacks, livestream, scoreboard, pitchcount.
pub open spec fn roles_spec(t: Seq<char>) -> Seq<Seq<char>> {
    (if has_snacks_kw(t) {
        seq!["snacks"@]
    } else {
        Seq::empty()
    }) + (if has_livestream_kw(t) {
        seq!["livestream"@]
    } else {
        Seq::empty()
    }) + (if has_scoreboard_kw(t) {
        seq!["scoreboard"@]
    } else {
        Seq::empty()
    }) + (if has_pitchcount_kw(t) {
        seq!["pitchcount"@]
    } else {
        Seq::empty()
    })
}

/// Extract the canonical volunteer roles named in lower-cased text.
pub fn extract_roles_vec(t: &Vec<char>) -> (r: Vec<String>)
    ensures
        r.deep_view() == roles_spec(t@),
{
    let mut r: Vec<String> = Vec::new();
    if contains_sub(t, "snacks") || contains_sub(t, "snack") || contains_sub(t, "food")
        || contains_sub(t, "treats") {
        r.push(String::from_str("snacks"));
    }
    if contains_sub(t, "livestream") || contains_sub(t, "stream") || contains_sub(t, "streaming")
        || contains_sub(t, "live") {
        r.push(String::from_str("livestream"));
    }
    if contains_sub(t, "scoreboard") || contains_sub(t, "score") || contains_sub(t, "scoring")
        || contains_sub(t, "gamechanger") || contains_sub(t, "game changer") {
        r.push(String::from_str("scoreboard"));
    }
    if contains_sub(t, "pitchcount") || contains_sub(t, "pitch count") || contains_sub(t, "pitch")
        || contains_sub(t, "pitches") {
        r.push(String::from_str("pitchcount"));
    }
    proof {
        assert(r.deep_view() =~= roles_spec(t@));
    }
    r
}

// ---------------------------------------------------------------------------
// Person names
// ---------------------------------------------------------------------------

pub open spec fn is_upper_char(c: char) -> bool {
    65 <= c as u32 <= 90
}

/// A token that opens a capitalized run: nonempty, first character an
/// upper-case ASCII letter.
pub open spec fn starts_upper(w: Seq<char>) -> bool {
    w.len() > 0 && is_upper_char(w[0])
}

/// Pronouns and contractions never taken as names, compared after
/// lower-casing and trimming apostrophes.
pub open spec fn excluded_word(w: Seq<char>) -> bool {
    let x = trim_ch(lower_seq(w), '\'');
    x == "i"@ || x == "i've"@ || x == "i'll"@ || x == "i'm"@ || x == "we"@ || x == "we've"@ || x
        == "we'll"@ || x == "we're"@ || x == "you"@ || x == "you've"@ || x == "you'll"@ || x
        == "he"@ || x == "she"@ || x == "they"@ || x == "it"@
}

/// The run of consecutive capitalized tokens starting at `i`.  Excluded
/// tokens — pronouns and contractions, and tokens of one character — are
/// dropped from the run but do not end it; only a token that does not
/// start with an upper-case letter ends it.
pub open spec fn cap_run(ws: Seq<Seq<char>>, i: int) -> Seq<Seq<char>>
    decreases ws.len() - i,
    when 0 <= i <= ws.len()
{
    if i >= ws.len() || !starts_upper(ws[i]) {
        Seq::empty()
    } else if excluded_word(ws[i]) || ws[i].len() <= 1 {
        cap_run(ws, i + 1)
    } else {
        seq![ws[i]] + cap_run(ws, i + 1)
    }
}

/// First index at or after `i` whose lower-cased token equals `w`.
pub open spec fn first_tok_lower_eq(ws: Seq<Seq<char>>, w: Seq<char>, i: int) -> Option<int>
    decreases ws.len() - i,
    when 0 <= i <= ws.len()
{
    if i >= ws.len() {
        None
    } else if lower_seq(ws[i]) == w {
        Some(i)
    } else {
        first_tok_lower_eq(ws, w, i + 1)
    }
}

/// First index at or after `i` that can open a fallback name run: a
/// capitalized token longer than one character that is not excluded.
pub open spec fn first_name_start(ws: Seq<Seq<char>>, i: int) -> Option<int>
    decreases ws.len() - i,
    when 0 <= i <= ws.len()
{
    if i >= ws.len() {
        None
    } else if starts_upper(ws[i]) && ws[i].len() > 1 && !excluded_word(ws[i]) {
        Some(i)
    } else {
        first_name_start(ws, i + 1)
    }
}

/// The person name extracted from original-cased text: the capitalized run
/// after the word "for", else after a standalone hyphen, else the first
/// qualifying capitalized run anywhere; the run's tokens joined with spaces.
pub open spec fn person_spec(orig: Seq<char>) -> Option<Seq<char>> {
    let ws = split_ws(orig);
    let f = first_tok_lower_eq(ws, "for"@, 0);
    if f is Some && f->Some_0 + 1 < ws.len() && cap_run(ws, f->Some_0 + 1).len() > 0 {
        Some(join_sp(cap_run(ws, f->Some_0 + 1)))
    } else {
        let d = first_tok_lower_eq(ws, "-"@, 0);
        if d is Some && d->Some_0 + 1 < ws.len() && cap_run(ws, d->Some_0 + 1).len() > 0 {
            Some(join_sp(cap_run(ws, d->Some_0 + 1)))
        } else {
            let n = first_name_start(ws, 0);
            if n is Some {
                Some(join_sp(cap_run(ws, n->Some_0)))
            } else {
                None
            }
        }
    }
}

fn tok_starts_upper(w: &Vec<char>) -> (r: bool)
    ensures
        r == starts_upper(w@),
{
    if w.len() == 0 {
        return false;
    }
    let u = w[0] as u32;
    65 <= u && u <= 90
}

fn tok_excluded(w: &Vec<char>) -> (r: bool)
    ensures
        r == excluded_word(w@),
{
    let lowered = to_lower(w);
    let x = trim_char(&lowered, '\'');
    seq_eq_str(&x, "i") || seq_eq_str(&x, "i've") || seq_eq_str(&x, "i'll") || seq_eq_str(
        &x,
        "i'm",
    ) || seq_eq_str(&x, "we") || seq_eq_str(&x, "we've") || seq_eq_str(&x, "we'll") || seq_eq_str(
        &x,
        "we're",
    ) || seq_eq_str(&x, "you") || seq_eq_str(&x, "you've") || seq_eq_str(&x, "you'll")
        || seq_eq_str(&x, "he") || seq_eq_str(&x, "she") || seq_eq_str(&x, "they") || seq_eq_str(
        &x,
        "it",
    )
}

fn tok_lower_eq(w: &Vec<char>, lit: &str) -> (r: bool)
    ensures
        r == (lower_seq(w@) == lit@),
{
    let lowered = to_lower(w);
    seq_eq_str(&lowered, lit)
}

/// Find the first token at or after `from` whose lower-casing equals `lit`.
fn find_tok_lower_eq(ws: &Vec<Vec<char>>, lit: &str, from: usize) -> (r: Option<usize>)
    requires
        from <= ws@.len(),
    ensures
        match r {
            Some(j) => from <= j < ws@.len() && first_tok_lower_eq(views_of(ws@), lit@, from as int)
                == Some(j as int),
            None => first_tok_lower_eq(views_of(ws@), lit@, from as int) is None,
        },
{
    let len = ws.len();
    proof {
        assert(views_of(ws@).len() == ws@.len());
    }
    let mut i: usize = from;
    while i < len
        invariant
            from <= i <= len,
            len == ws@.len(),
            views_of(ws@).len() == len,
            first_tok_lower_eq(views_of(ws@), lit@, from as int) == first_tok_lower_eq(
                views_of(ws@),
                lit@,
                i as int,
            ),
        decreases len - i,
    {
        if tok_lower_eq(&ws[i], lit) {
            return Some(i);
        }
        i = i + 1;
    }
    None
}

/// Collect the capitalized run starting at `from`, dropping excluded words.
fn collect_cap_run(ws: &Vec<Vec<char>>, from: usize) -> (r: Vec<Vec<char>>)
    requires
        from <= ws@.len(),
    ensures
        views_of(r@) == cap_run(views_of(ws@), from as int),
{
    let len = ws.len();
    let mut out: Vec<Vec<char>> = Vec::new();
    let mut j: usize = from;
    proof {
        assert(views_of(ws@).len() == ws@.len());
        assert(views_of(out@) + cap_run(views_of(ws@), from as int) =~= cap_run(
            views_of(ws@),
            from as int,
        ));
    }
    while j < len && tok_starts_upper(&ws[j])
        invariant
            from <= j <= len,
            len == ws@.len(),
            views_of(ws@).len() == len,
            views_of(out@) + cap_run(views_of(ws@), j as int) == cap_run(
                views_of(ws@),
                from as int,
            ),
        decreases len - j,
    {
        proof {
            assert(views_of(ws@)[j as int] == ws@[j as int]@);
        }
        if ws[j].len() > 1 && !tok_excluded(&ws[j]) {
            let t = subvec(&ws[j], 0, ws[j].len());
            proof {
                assert(t@ =~= ws@[j as int]@);
            }
            let ghost out0 = out@;
            out.push(t);
            proof {
                assert(views_of(out@) =~= views_of(out0).push(t@));
                assert(views_of(out0) + (seq![t@] + cap_run(views_of(ws@), j + 1)) =~= views_of(
                    out@,
                ) + cap_run(views_of(ws@), j + 1));
            }
        }
        j = j + 1;
    }
    proof {
        assert(views_of(out@) + cap_run(views_of(ws@), j as int) =~= views_of(out@));
    }
    out
}

/// Extract a person name from original-cased text.
pub fn extract_person_vec(orig: &Vec<char>) -> (r: Option<String>)
    ensures
        match r {
            Some(s) => person_spec(orig@) == Some(s@),
            None => person_spec(orig@) is None,
        },
{
    let ws = split_tokens(orig);
    let len = ws.len();
    proof {
        assert(views_of(ws@).len() == ws@.len());
    }
    if let Some(f) = find_tok_lower_eq(&ws, "for", 0) {
        if f + 1 < len {
            let run = collect_cap_run(&ws, f + 1);
            proof {
                assert(views_of(run@).len() == run@.len());
            }
            if run.len() > 0 {
                let joined = join_spaces(&run);
                return Some(string_from_chars(&joined));
            }
        }
    }
    if let Some(d) = find_tok_lower_eq(&ws, "-", 0) {
        if d + 1 < len {
            let run = collect_cap_run(&ws, d + 1);
            proof {
                assert(views_of(run@).len() == run@.len());
            }
            if run.len() > 0 {
                let joined = join_spaces(&run);
                return Some(string_from_chars(&joined));
            }
        }
    }
    let mut i: usize = 0;
    while i < len
        invariant
            i <= len,
            len == ws@.len(),
            views_of(ws@).len() == len,
            first_name_start(views_of(ws@), 0) == first_name_start(views_of(ws@), i as int),
            match first_name_start(views_of(ws@), 0) {
                Some(n) => person_spec(orig@) == Some(join_sp(cap_run(views_of(ws@), n))),
                None => person_spec(orig@) is None,
            },
        decreases len - i,
    {
        proof {
            assert(views_of(ws@)[i as int] == ws@[i as int]@);
        }
        if tok_starts_upper(&ws[i]) && ws[i].len() > 1 && !tok_excluded(&ws[i]) {
            let run = collect_cap_run(&ws, i);
            proof {
                assert(cap_run(views_of(ws@), i as int) =~= seq![views_of(ws@)[i as int]] + cap_run(
                    views_of(ws@),
                    i + 1,
                ));
            }
            let joined = join_spaces(&run);
            return Some(string_from_chars(&joined));
        }
        i = i + 1;
    }
    None
}

// ---------------------------------------------------------------------------
// Relative game index
// ---------------------------------------------------------------------------

/// Which upcoming game the text points at: 0 for the next game, 1 for the
/// game after next, 2 for two games after next.
pub open spec fn relative_game_spec(t: Seq<char>) -> Option<int> {
    if contains_seq(t, "next game"@) || (contains_seq(t, "next"@) && !contains_seq(t, "after"@)) {
        Some(0int)
    } else if contains_seq(t, "game after next"@) || contains_seq(t, "after next"@) {
        Some(1int)
    } else if contains_seq(t, "two games"@) || contains_seq(t, "2 games"@) || contains_seq(
        t,
        "second game"@,
    ) {
        Some(1int)
    } else if contains_seq(t, "three games"@) || contains_seq(t, "3 games"@) || contains_seq(
        t,
        "third game"@,
    ) {
        Some(2int)
    } else {
        None
    }
}

pub fn extract_relative_game_vec(t: &Vec<char>) -> (r: Option<usize>)
    ensures
        match r {
            Some(n) => relative_game_spec(t@) == Some(n as int),
            None => relative_game_spec(t@) is None,
        },
{
    if contains_sub(t, "next game") || (contains_sub(t, "next") && !contains_sub(t, "after")) {
        Some(0)
    } else if contains_sub(t, "game after next") || contains_sub(t, "after next") {
        Some(1)
    } else if contains_sub(t, "two games") || contains_sub(t, "2 games") || contains_sub(
        t,
        "second game",
    ) {
        Some(1)
    } else if contains_sub(t, "three games") || contains_sub(t, "3 games") || contains_sub(
        t,
        "third game",
    ) {
        Some(2)
    } else {
        None
    }
}

// ---------------------------------------------------------------------------
// Game query category, count, relative time
// ---------------------------------------------------------------------------

/// The first game-info category named in the text, in the fixed priority
/// order.
pub open spec fn category_spec(t: Seq<char>) -> Option<Seq<char>> {
    if contains_seq(t, "time"@) {
        Some("time"@)
    } else if contains_seq(t, "location"@) {
        Some("location"@)
    } else if contains_seq(t, "where"@) {
        Some("where"@)
    } else if contains_seq(t, "home"@) {
        Some("home"@)
    } else if contains_seq(t, "snacks"@) {
        Some("snacks"@)
    } else if contains_seq(t, "livestream"@) {
        Some("livestream"@)
    } else if contains_seq(t, "scoreboard"@) {
        Some("scoreboard"@)
    } else if contains_seq(t, "pitchcount"@) {
        Some("pitchcount"@)
    } else if contains_seq(t, "pitch count"@) {
        Some("pitch count"@)
    } else {
        None
    }
}

pub fn extract_category_vec(t: &Vec<char>) -> (r: Option<String>)
    ensures
        match r {
            Some(s) => category_spec(t@) == Some(s@),
            None => category_spec(t@) is None,
        },
{
    if contains_sub(t, "time") {
        Some(String::from_str("time"))
    } else if contains_sub(t, "location") {
        Some(String::from_str("location"))
    } else if contains_sub(t, "where") {
        Some(String::from_str("where"))
    } else if contains_sub(t, "home") {
        Some(String::from_str("home"))
    } else if contains_sub(t, "snacks") {
        Some(String::from_str("snacks"))
    } else if contains_sub(t, "livestream") {
        Some(String::from_str("livestream"))
    } else if contains_sub(t, "scoreboard") {
        Some(String::from_str("scoreboard"))
    } else if contains_sub(t, "pitchcount") {
        Some(String::from_str("pitchcount"))
    } else if contains_sub(t, "pitch count") {
        Some(String::from_str("pitch count"))
    } else {
        None
    }
}

/// First index at or after `i` of a decimal token directly followed by a
/// token containing "game".
pub open spec fn first_count_tok(ws: Seq<Seq<char>>, i: int) -> Option<int>
    decreases ws.len() - i,
    when 0 <= i <= ws.len()
{
    if i >= ws.len() {
        None
    } else if usize_of_token(ws[i]) is Some && i + 1 < ws.len() && contains_seq(
        ws[i + 1],
        "game"@,
    ) {
        usize_of_token(ws[i])
    } else {
        first_count_tok(ws, i + 1)
    }
}

/// How many games the text asks for: a number token directly before a
/// "game" token, else a spelled-out number one..ten anywhere in text that
/// also mentions "game".
pub open spec fn count_spec(t: Seq<char>) -> Option<int> {
    if first_count_tok(split_ws(t), 0) is Some {
        first_count_tok(split_ws(t), 0)
    } else if !contains_seq(t, "game"@) {
        None
    } else if contains_seq(t, "one"@) {
        Some(1int)
    } else if contains_seq(t, "two"@) {
        Some(2int)
    } else if contains_seq(t, "three"@) {
        Some(3int)
    } else if contains_seq(t, "four"@) {
        Some(4int)
    } else if contains_seq(t, "five"@) {
        Some(5int)
    } else if contains_seq(t, "six"@) {
        Some(6int)
    } else if contains_seq(t, "seven"@) {
        Some(7int)
    } else if contains_seq(t, "eight"@) {
        Some(8int)
    } else if contains_seq(t, "nine"@) {
        Some(9int)
    } else if contains_seq(t, "ten"@) {
        Some(10int)
    } else {
        None
    }
}

pub fn extract_count_vec(t: &Vec<char>) -> (r: Option<usize>)
    ensures
        match r {
            Some(n) => count_spec(t@) == Some(n as int),
            None => count_spec(t@) is None,
        },
{
    let ws = split_tokens(t);
    let len = ws.len();
    proof {
        assert(views_of(ws@).len() == ws@.len());
    }
    let mut i: usize = 0;
    while i < len
        invariant
            i <= len,
            len == ws@.len(),
            views_of(ws@).len() == len,
            views_of(ws@) == split_ws(t@),
            first_count_tok(views_of(ws@), 0) == first_count_tok(views_of(ws@), i as int),
        decreases len - i,
    {
        if let Some(n) = parse_usize(&ws[i]) {
            if i + 1 < len && contains_sub(&ws[i + 1], "game") {
                return Some(n);
            }
        }
        i = i + 1;
    }
    if !contains_sub(t, "game") {
        None
    } else if contains_sub(t, "one") {
        Some(1)
    } else if contains_sub(t, "two") {
        Some(2)
    } else if contains_sub(t, "three") {
        Some(3)
    } else if contains_sub(t, "four") {
        Some(4)
    } else if contains_sub(t, "five") {
        Some(5)
    } else if contains_sub(t, "six") {
        Some(6)
    } else if contains_sub(t, "seven") {
        Some(7)
    } else if contains_sub(t, "eight") {
        Some(8)
    } else if contains_sub(t, "nine") {
        Some(9)
    } else if contains_sub(t, "ten") {
        Some(10)
    } else {
        None
    }
}

/// The relative-time marker: "next" if present, else "upcoming", else none.
pub open spec fn relative_time_spec(t: Seq<char>) -> Option<Seq<char>> {
    if contains_seq(t, "next"@) {
        Some("next"@)
    } else if contains_seq(t, "upcoming"@) {
        Some("upcoming"@)
    } else {
        None
    }
}

pub fn extract_relative_time_vec(t: &Vec<char>) -> (r: Option<String>)
    ensures
        match r {
            Some(s) => relative_time_spec(t@) == Some(s@),
            None => relative_time_spec(t@) is None,
        },
{
    if contains_sub(t, "next") {
        Some(String::from_str("next"))
    } else if contains_sub(t, "upcoming") {
        Some(String::from_str("upcoming"))
    } else {
        None
    }
}

// ---------------------------------------------------------------------------
// Dates in free text
// ---------------------------------------------------------------------------

/// The weekday number (Monday 0) of the first weekday name or abbreviation
/// contained in the text, checked in the fixed list order.
pub open spec fn weekday_pick(t: Seq<char>) -> Option<int> {
    if contains_seq(t, "monday"@) {
        Some(0int)
    } else if contains_seq(t, "mon"@) {
        Some(0int)
    } else if contains_seq(t, "tuesday"@) {
        Some(1int)
    } else if contains_seq(t, "tues"@) {
        Some(1int)
    } else if contains_seq(t, "tue"@) {
        Some(1int)
    } else if contains_seq(t, "wednesday"@) {
        Some(2int)
    } else if contains_seq(t, "wed"@) {
        Some(2int)
    } else if contains_seq(t, "thursday"@) {
        Some(3int)
    } else if contains_seq(t, "thurs"@) {
        Some(3int)
    } else if contains_seq(t, "thu"@) {
        Some(3int)
    } else if contains_seq(t, "friday"@) {
        Some(4int)
    } else if contains_seq(t, "fri"@) {
        Some(4int)
    } else if contains_seq(t, "saturday"@) {
        Some(5int)
    } else if contains_seq(t, "sat"@) {
        Some(5int)
    } else if contains_seq(t, "sunday"@) {
        Some(6int)
    } else if contains_seq(t, "sun"@) {
        Some(6int)
    } else {
        None
    }
}

/// Days ahead to the target weekday `w` from current weekday `cur`: always
/// at least one (a tie rolls a full week ahead), plus seven more when the
/// text says "next".
pub open spec fn days_ahead(w: int, cur: int, has_next: bool) -> int {
    let diff = w - cur;
    let base = if diff <= 0 {
        diff + 7
    } else {
        diff
    };
    if has_next {
        base + 7
    } else {
        base
    }
}

/// First index at or after `i` of a token that parses as an explicit date.
pub open spec fn first_date_tok(ws: Seq<Seq<char>>, cur_year: int, i: int) -> Option<Date>
    decreases ws.len() - i,
    when 0 <= i <= ws.len()
{
    if i >= ws.len() {
        None
    } else if date_of_token(ws[i], cur_year) is Some {
        date_of_token(ws[i], cur_year)
    } else {
        first_date_tok(ws, cur_year, i + 1)
    }
}

/// The day index denoted by the text, relative to `today`: "today" and
/// "tomorrow" first, then weekday names (next occurrence strictly after
/// today, one more week when "next" is present), then explicit date tokens.
pub open spec fn extract_date_idx(t: Seq<char>, today: Date) -> Option<int> {
    if contains_seq(t, "today"@) {
        Some(day_index(today))
    } else if contains_seq(t, "tomorrow"@) {
        Some(day_index(today) + 1)
    } else if weekday_pick(t) is Some {
        Some(
            day_index(today) + days_ahead(
                weekday_pick(t)->Some_0,
                weekday_of(today),
                contains_seq(t, "next"@),
            ),
        )
    } else {
        match first_date_tok(split_ws(t), today.year as int, 0) {
            Some(d) => Some(day_index(d)),
            None => None,
        }
    }
}

fn weekday_pick_x(t: &Vec<char>) -> (r: Option<u8>)
    ensures
        match r {
            Some(w) => weekday_pick(t@) == Some(w as int) && w <= 6,
            None => weekday_pick(t@) is None,
        },
{
    if contains_sub(t, "monday") {
        Some(0)
    } else if contains_sub(t, "mon") {
        Some(0)
    } else if contains_sub(t, "tuesday") {
        Some(1)
    } else if contains_sub(t, "tues") {
        Some(1)
    } else if contains_sub(t, "tue") {
        Some(1)
    } else if contains_sub(t, "wednesday") {
        Some(2)
    } else if contains_sub(t, "wed") {
        Some(2)
    } else if contains_sub(t, "thursday") {
        Some(3)
    } else if contains_sub(t, "thurs") {
        Some(3)
    } else if contains_sub(t, "thu") {
        Some(3)
    } else if contains_sub(t, "friday") {
        Some(4)
    } else if contains_sub(t, "fri") {
        Some(4)
    } else if contains_sub(t, "saturday") {
        Some(5)
    } else if contains_sub(t, "sat") {
        Some(5)
    } else if contains_sub(t, "sunday") {
        Some(6)
    } else if contains_sub(t, "sun") {
        Some(6)
    } else {
        None
    }
}

proof fn lemma_date_of_token_valid(t: Seq<char>, cur_year: int)
    ensures
        date_of_token(t, cur_year) is Some ==> valid_date(date_of_token(t, cur_year)->Some_0),
{
}

/// Extract a date from lower-cased text, relative to `today`.
pub fn extract_date_vec(t: &Vec<char>, today: &Date) -> (r: Option<Date>)
    requires
        valid_date(*today),
        today.year <= 9998,
    ensures
        match r {
            Some(d) => valid_date(d) && extract_date_idx(t@, *today) == Some(day_index(d)),
            None => extract_date_idx(t@, *today) is None,
        },
{
    if contains_sub(t, "today") {
        return Some(*today);
    }
    if contains_sub(t, "tomorrow") {
        return Some(add_days(today, 1));
    }
    if let Some(w) = weekday_pick_x(t) {
        let cur = weekday_num(today);
        let diff: i32 = w as i32 - cur as i32;
        let base: i32 = if diff <= 0 {
            diff + 7
        } else {
            diff
        };
        let ahead: i32 = if contains_sub(t, "next") {
            base + 7
        } else {
            base
        };
        return Some(add_days(today, ahead as u32));
    }
    let ws = split_tokens(t);
    let len = ws.len();
    proof {
        assert(views_of(ws@).len() == ws@.len());
    }
    let mut i: usize = 0;
    while i < len
        invariant
            i <= len,
            len == ws@.len(),
            views_of(ws@).len() == len,
            views_of(ws@) == split_ws(t@),
            valid_date(*today),
            1 <= today.year <= 9998,
            first_date_tok(views_of(ws@), today.year as int, 0) == first_date_tok(
                views_of(ws@),
                today.year as int,
                i as int,
            ),
            match first_date_tok(views_of(ws@), today.year as int, 0) {
                Some(d) => extract_date_idx(t@, *today) == Some(day_index(d)),
                None => extract_date_idx(t@, *today) is None,
            },
        decreases len - i,
    {
        proof {
            assert(views_of(ws@)[i as int] == ws@[i as int]@);
        }
        let d = date_from_token(&ws[i], today.year);
        if let Some(dd) = d {
            proof {
                lemma_date_of_token_valid(ws@[i as int]@, today.year as int);
                assert(first_date_tok(views_of(ws@), today.year as int, i as int) == date_of_token(
                    views_of(ws@)[i as int],
                    today.year as int,
                ));
                assert(valid_date(dd));
                assert(first_date_tok(split_ws(t@), today.year as int, 0) == Some(dd));
                assert(extract_date_idx(t@, *today) == Some(day_index(dd)));
            }
            return Some(dd);
        }
        i = i + 1;
    }
    None
}

} // verus!
