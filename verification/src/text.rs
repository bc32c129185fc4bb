//! Verified text primitives: lower-casing, substring search, trimming,
//! whitespace tokenization, joining and digit parsing, all specified over
//! `Seq<char>` views.

use vstd::prelude::*;
use vstd::string::StrSliceExecFns;

verus! {

// ---------------------------------------------------------------------------
// Characters
// ---------------------------------------------------------------------------

/// ASCII whitespace, the separators recognized by the tokenizer.
pub open spec fn is_space_char(c: char) -> bool {
    c == ' ' || c == '\t' || c == '\n' || c == '\r'
}

pub open spec fn is_digit_char(c: char) -> bool {
    48 <= c as u32 <= 57
}

pub open spec fn digit_val(c: char) -> int {
    c as u32 - 48
}

/// ASCII lower-casing of a single character; other characters are unchanged.
pub open spec fn lower_char(c: char) -> char {
    if 65 <= c as u32 <= 90 {
        (c as u32 + 32) as char
    } else {
        c
    }
}

pub open spec fn lower_seq(s: Seq<char>) -> Seq<char> {
    s.map_values(|c: char| lower_char(c))
}

/// ASCII upper-casing of a single character; other characters are unchanged.
pub open spec fn upper_char(c: char) -> char {
    if 97 <= c as u32 <= 122 {
        (c as u32 - 32) as char
    } else {
        c
    }
}

pub open spec fn upper_seq(s: Seq<char>) -> Seq<char> {
    s.map_values(|c: char| upper_char(c))
}

pub fn to_lower_char(c: char) -> (r: char)
    ensures
        r == lower_char(c),
{
    let u = c as u32;
    if 65 <= u && u <= 90 {
        ((u + 32) as u8) as char
    } else {
        c
    }
}

pub fn to_upper_char(c: char) -> (r: char)
    ensures
        r == upper_char(c),
{
    let u = c as u32;
    if 97 <= u && u <= 122 {
        ((u - 32) as u8) as char
    } else {
        c
    }
}

pub fn is_space(c: char) -> (r: bool)
    ensures
        r == is_space_char(c),
{
    c == ' ' || c == '\t' || c == '\n' || c == '\r'
}

pub fn is_digit(c: char) -> (r: bool)
    ensures
        r == is_digit_char(c),
{
    let u = c as u32;
    48 <= u && u <= 57
}

// ---------------------------------------------------------------------------
// Conversions between strings and character vectors
// ---------------------------------------------------------------------------

/// The characters of a string slice, as a vector.
pub fn chars_of(s: &str) -> (r: Vec<char>)
    ensures
        r@ == s@,
{
    let n = s.unicode_len();
    let mut r: Vec<char> = Vec::new();
    let mut i: usize = 0;
    while i < n
        invariant
            n == s@.len(),
            i <= n,
            r@ =~= s@.subrange(0, i as int),
        decreases n - i,
    {
        r.push(s.get_char(i));
        i = i + 1;
    }
    proof {
        assert(r@ =~= s@);
    }
    r
}

/// Relies on std's `String: FromIterator<char>`: collecting an iterator of
/// characters yields the string made of exactly those characters in order.
#[verifier::external_body]
pub fn string_from_chars(v: &Vec<char>) -> (r: String)
    ensures
        r@ == v@,
{
    v.iter().copied().collect()
}

/// Lower-case every character of `v` (ASCII letters only).
pub fn to_lower(v: &Vec<char>) -> (r: Vec<char>)
    ensures
        r@ == lower_seq(v@),
{
    let mut r: Vec<char> = Vec::new();
    let mut i: usize = 0;
    while i < v.len()
        invariant
            i <= v@.len(),
            r@ =~= lower_seq(v@).subrange(0, i as int),
        decreases v@.len() - i,
    {
        r.push(to_lower_char(v[i]));
        i = i + 1;
    }
    proof {
        assert(r@ =~= lower_seq(v@));
    }
    r
}

/// Upper-case every character of `v` (ASCII letters only).
pub fn to_upper(v: &Vec<char>) -> (r: Vec<char>)
    ensures
        r@ == upper_seq(v@),
{
    let mut r: Vec<char> = Vec::new();
    let mut i: usize = 0;
    while i < v.len()
        invariant
            i <= v@.len(),
            r@ =~= upper_seq(v@).subrange(0, i as int),
        decreases v@.len() - i,
    {
        r.push(to_upper_char(v[i]));
        i = i + 1;
    }
    proof {
        assert(r@ =~= upper_seq(v@));
    }
    r
}

// ---------------------------------------------------------------------------
// Substring search
// ---------------------------------------------------------------------------

/// `needle` occurs in `hay` starting at index `i`.
pub open spec fn occurs_at(hay: Seq<char>, needle: Seq<char>, i: int) -> bool {
    0 <= i && i + needle.len() <= hay.len() && hay.subrange(i, i + needle.len()) == needle
}

/// `needle` occurs somewhere in `hay`.
pub open spec fn contains_seq(hay: Seq<char>, needle: Seq<char>) -> bool {
    exists|i: int| occurs_at(hay, needle, i)
}

fn match_at(hay: &Vec<char>, needle: &Vec<char>, i: usize) -> (b: bool)
    requires
        i + needle@.len() <= hay@.len(),
    ensures
        b == occurs_at(hay@, needle@, i as int),
{
    let n = needle.len();
    let hl = hay.len();
    let mut j: usize = 0;
    while j < n
        invariant
            n == needle@.len(),
            hl == hay@.len(),
            j <= n,
            i + n <= hl,
            forall|k: int| 0 <= k < j ==> hay@[i + k] == needle@[k],
        decreases n - j,
    {
        if hay[i + j] != needle[j] {
            proof {
                assert(hay@.subrange(i as int, i + needle@.len())[j as int] == hay@[i + j]);
            }
            return false;
        }
        j = j + 1;
    }
    proof {
        assert(hay@.subrange(i as int, i + needle@.len()) =~= needle@);
    }
    true
}

/// Whether the character sequence `hay` contains the literal `needle`.
pub fn contains_sub(hay: &Vec<char>, needle: &str) -> (b: bool)
    ensures
        b == contains_seq(hay@, needle@),
{
    let nd = chars_of(needle);
    contains_vec(hay, &nd)
}

/// Whether `hay` contains `nd`.
pub fn contains_vec(hay: &Vec<char>, nd: &Vec<char>) -> (b: bool)
    ensures
        b == contains_seq(hay@, nd@),
{
    let ghost needle = nd;
    let hlen = hay.len();
    let nlen = nd.len();
    if nlen == 0 {
        proof {
            assert(hay@.subrange(0, 0) =~= needle@);
            assert(occurs_at(hay@, needle@, 0));
        }
        return true;
    }
    if nlen > hlen {
        proof {
            assert(forall|i: int| !occurs_at(hay@, needle@, i));
        }
        return false;
    }
    let mut i: usize = 0;
    while i <= hlen - nlen
        invariant
            nd@ == needle@,
            hlen == hay@.len(),
            nlen == nd@.len(),
            1 <= nlen <= hlen,
            i <= hlen - nlen + 1,
            forall|k: int| 0 <= k < i ==> !occurs_at(hay@, needle@, k),
        decreases hlen - i,
    {
        if match_at(hay, &nd, i) {
            return true;
        }
        i = i + 1;
    }
    proof {
        assert(forall|k: int| occurs_at(hay@, needle@, k) ==> 0 <= k <= hlen - nlen);
    }
    false
}

/// A needle holding a character the hay lacks occurs nowhere in it.
pub proof fn lemma_absent_char(hay: Seq<char>, needle: Seq<char>, k: int, c: char)
    requires
        0 <= k < needle.len(),
        needle[k] == c,
        forall|i: int| 0 <= i < hay.len() ==> hay[i] != c,
    ensures
        !contains_seq(hay, needle),
{
    assert forall|i: int| !occurs_at(hay, needle, i) by {
        if 0 <= i && i + needle.len() <= hay.len() {
            assert(hay.subrange(i, i + needle.len())[k] == hay[i + k]);
        }
    }
}

/// A needle holding an adjacent character pair the hay lacks occurs
/// nowhere in it.
pub proof fn lemma_absent_pair(hay: Seq<char>, needle: Seq<char>, k: int, c0: char, c1: char)
    requires
        0 <= k,
        k + 1 < needle.len(),
        needle[k] == c0,
        needle[k + 1] == c1,
        forall|i: int| 0 <= i < hay.len() - 1 ==> !((#[trigger] hay[i]) == c0 && hay[i + 1] == c1),
    ensures
        !contains_seq(hay, needle),
{
    assert forall|i: int| !occurs_at(hay, needle, i) by {
        if 0 <= i && i + needle.len() <= hay.len() {
            assert(hay.subrange(i, i + needle.len())[k] == hay[i + k]);
            assert(hay.subrange(i, i + needle.len())[k + 1] == hay[i + k + 1]);
        }
    }
}

// ---------------------------------------------------------------------------
// Finding occurrences
// ---------------------------------------------------------------------------

/// First index at or after `i` where `pat` occurs in `s`.
pub open spec fn find_from_idx(s: Seq<char>, pat: Seq<char>, i: int) -> Option<int>
    decreases s.len() - i,
    when 0 <= i <= s.len()
{
    if pat.len() == 0 {
        Some(i)
    } else if i + pat.len() > s.len() {
        None
    } else if s.subrange(i, i + pat.len()) == pat {
        Some(i)
    } else {
        find_from_idx(s, pat, i + 1)
    }
}

/// The first occurrence of `pat` in `s`, as `str::find` reports it (by
/// character position).
pub open spec fn find_idx(s: Seq<char>, pat: Seq<char>) -> Option<int> {
    find_from_idx(s, pat, 0)
}

/// Find the first occurrence of `pat` in `v`.
pub fn find_sub(v: &Vec<char>, pat: &str) -> (r: Option<usize>)
    ensures
        match r {
            Some(j) => find_idx(v@, pat@) == Some(j as int) && j + pat@.len() <= v@.len(),
            None => find_idx(v@, pat@) is None,
        },
{
    let pv = chars_of(pat);
    let len = v.len();
    let plen = pv.len();
    if plen == 0 {
        return Some(0);
    }
    if plen > len {
        return None;
    }
    let mut i: usize = 0;
    while i <= len - plen
        invariant
            pv@ == pat@,
            len == v@.len(),
            plen == pat@.len(),
            1 <= plen <= len,
            i <= len - plen + 1,
            find_from_idx(v@, pat@, 0) == find_from_idx(v@, pat@, i as int),
        decreases len - i,
    {
        if match_at(v, &pv, i) {
            proof {
                assert(v@.subrange(i as int, i + pat@.len()) == pat@);
            }
            return Some(i);
        }
        i = i + 1;
    }
    None
}

/// Last index at or before `i` holding the character `c`.
pub open spec fn rfind_from_idx(s: Seq<char>, c: char, i: int) -> Option<int>
    decreases i + 1,
    when -1 <= i < s.len()
{
    if i < 0 {
        None
    } else if s[i] == c {
        Some(i)
    } else {
        rfind_from_idx(s, c, i - 1)
    }
}

/// The last occurrence of `c` in `s`, as `str::rfind` reports it.
pub open spec fn rfind_idx(s: Seq<char>, c: char) -> Option<int> {
    rfind_from_idx(s, c, s.len() - 1)
}

/// Find the last occurrence of the character `c` in `v`.
pub fn rfind_char(v: &Vec<char>, c: char) -> (r: Option<usize>)
    ensures
        match r {
            Some(j) => rfind_idx(v@, c) == Some(j as int) && j < v@.len(),
            None => rfind_idx(v@, c) is None,
        },
{
    let len = v.len();
    let mut i: usize = len;
    while i > 0
        invariant
            i <= len,
            len == v@.len(),
            rfind_idx(v@, c) == rfind_from_idx(v@, c, i - 1),
        decreases i,
    {
        if v[i - 1] == c {
            return Some(i - 1);
        }
        i = i - 1;
    }
    None
}

// ---------------------------------------------------------------------------
// Rendering numbers
// ---------------------------------------------------------------------------

/// The last `width` decimal digits of `n`, zero-padded, most significant
/// first.
pub open spec fn dec_digits(n: int, width: nat) -> Seq<char>
    decreases width,
{
    if width == 0 {
        Seq::empty()
    } else {
        dec_digits(n / 10, (width - 1) as nat).push((48 + (n % 10)) as char)
    }
}

/// Render `n` as `width` zero-padded decimal digits.
pub fn render_padded(n: u32, width: u32) -> (r: Vec<char>)
    requires
        width <= 9,
    ensures
        r@ == dec_digits(n as int, width as nat),
{
    let mut out: Vec<char> = Vec::new();
    let mut k: u32 = width;
    let mut m: u32 = n;
    while k > 0
        invariant
            k <= width <= 9,
            dec_digits(n as int, width as nat) == dec_digits(m as int, k as nat) + out@,
        decreases k,
    {
        let ghost m0 = m as int;
        let ghost k0 = k as nat;
        let d = m % 10;
        let c = ((48 + d) as u8) as char;
        let ghost out0 = out@;
        out.insert(0, c);
        m = m / 10;
        k = k - 1;
        proof {
            assert(out@ =~= seq![c] + out0);
            assert(dec_digits(m0, k0) == dec_digits(m0 / 10, (k0 - 1) as nat).push(
                (48 + (m0 % 10)) as char,
            ));
            assert(dec_digits(m0 / 10, (k0 - 1) as nat) + out@ =~= dec_digits(m0, k0) + out0);
        }
    }
    proof {
        assert(dec_digits(m as int, 0) + out@ =~= out@);
    }
    out
}

// ---------------------------------------------------------------------------
// Trimming
// ---------------------------------------------------------------------------

pub open spec fn trim_front(s: Seq<char>) -> Seq<char>
    decreases s.len(),
{
    if s.len() > 0 && is_space_char(s[0]) {
        trim_front(s.drop_first())
    } else {
        s
    }
}

pub open spec fn trim_back(s: Seq<char>) -> Seq<char>
    decreases s.len(),
{
    if s.len() > 0 && is_space_char(s.last()) {
        trim_back(s.drop_last())
    } else {
        s
    }
}

/// `s` without leading and trailing ASCII whitespace.
pub open spec fn trim_seq(s: Seq<char>) -> Seq<char> {
    trim_back(trim_front(s))
}

proof fn lemma_trim_front_at(s: Seq<char>, a: int)
    requires
        0 <= a <= s.len(),
        forall|k: int| 0 <= k < a ==> is_space_char(s[k]),
        a < s.len() ==> !is_space_char(s[a]),
    ensures
        trim_front(s) == s.subrange(a, s.len() as int),
    decreases a,
{
    if a == 0 {
        assert(s.subrange(0, s.len() as int) =~= s);
    } else {
        lemma_trim_front_at(s.drop_first(), a - 1);
        assert(s.drop_first().subrange(a - 1, s.drop_first().len() as int) =~= s.subrange(
            a,
            s.len() as int,
        ));
    }
}

proof fn lemma_trim_back_at(s: Seq<char>, b: int)
    requires
        0 <= b <= s.len(),
        forall|k: int| b <= k < s.len() ==> is_space_char(s[k]),
        b > 0 ==> !is_space_char(s[b - 1]),
    ensures
        trim_back(s) == s.subrange(0, b),
    decreases s.len(),
{
    if b == s.len() {
        assert(s.subrange(0, b) =~= s);
    } else {
        lemma_trim_back_at(s.drop_last(), b);
        assert(s.drop_last().subrange(0, b) =~= s.subrange(0, b));
    }
}

/// `v` without leading and trailing ASCII whitespace.
pub fn trim(v: &Vec<char>) -> (r: Vec<char>)
    ensures
        r@ == trim_seq(v@),
{
    let len = v.len();
    let mut a: usize = 0;
    while a < len && is_space(v[a])
        invariant
            len == v@.len(),
            a <= len,
            forall|k: int| 0 <= k < a ==> is_space_char(v@[k]),
        decreases len - a,
    {
        a = a + 1;
    }
    let mut b: usize = len;
    while b > a && is_space(v[b - 1])
        invariant
            len == v@.len(),
            a <= b <= len,
            forall|k: int| b <= k < len ==> is_space_char(v@[k]),
        decreases b,
    {
        b = b - 1;
    }
    let r = subvec(v, a, b);
    proof {
        lemma_trim_front_at(v@, a as int);
        let t = v@.subrange(a as int, len as int);
        lemma_trim_back_at(t, b - a);
        assert(t.subrange(0, b - a) =~= v@.subrange(a as int, b as int));
    }
    r
}

// ---------------------------------------------------------------------------
// Trimming a single repeated character, as `str::trim_matches` does
// ---------------------------------------------------------------------------

pub open spec fn trim_front_ch(s: Seq<char>, c: char) -> Seq<char>
    decreases s.len(),
{
    if s.len() > 0 && s[0] == c {
        trim_front_ch(s.drop_first(), c)
    } else {
        s
    }
}

pub open spec fn trim_back_ch(s: Seq<char>, c: char) -> Seq<char>
    decreases s.len(),
{
    if s.len() > 0 && s.last() == c {
        trim_back_ch(s.drop_last(), c)
    } else {
        s
    }
}

/// `s` without leading and trailing occurrences of `c`.
pub open spec fn trim_ch(s: Seq<char>, c: char) -> Seq<char> {
    trim_back_ch(trim_front_ch(s, c), c)
}

proof fn lemma_trim_front_ch_at(s: Seq<char>, c: char, a: int)
    requires
        0 <= a <= s.len(),
        forall|k: int| 0 <= k < a ==> s[k] == c,
        a < s.len() ==> s[a] != c,
    ensures
        trim_front_ch(s, c) == s.subrange(a, s.len() as int),
    decreases a,
{
    if a == 0 {
        assert(s.subrange(0, s.len() as int) =~= s);
    } else {
        lemma_trim_front_ch_at(s.drop_first(), c, a - 1);
        assert(s.drop_first().subrange(a - 1, s.drop_first().len() as int) =~= s.subrange(
            a,
            s.len() as int,
        ));
    }
}

proof fn lemma_trim_back_ch_at(s: Seq<char>, c: char, b: int)
    requires
        0 <= b <= s.len(),
        forall|k: int| b <= k < s.len() ==> s[k] == c,
        b > 0 ==> s[b - 1] != c,
    ensures
        trim_back_ch(s, c) == s.subrange(0, b),
    decreases s.len(),
{
    if b == s.len() {
        assert(s.subrange(0, b) =~= s);
    } else {
        lemma_trim_back_ch_at(s.drop_last(), c, b);
        assert(s.drop_last().subrange(0, b) =~= s.subrange(0, b));
    }
}

/// `v` without leading and trailing occurrences of `c`.
pub fn trim_char(v: &Vec<char>, c: char) -> (r: Vec<char>)
    ensures
        r@ == trim_ch(v@, c),
{
    let len = v.len();
    let mut a: usize = 0;
    while a < len && v[a] == c
        invariant
            len == v@.len(),
            a <= len,
            forall|k: int| 0 <= k < a ==> v@[k] == c,
        decreases len - a,
    {
        a = a + 1;
    }
    let mut b: usize = len;
    while b > a && v[b - 1] == c
        invariant
            len == v@.len(),
            a <= b <= len,
            forall|k: int| b <= k < len ==> v@[k] == c,
        decreases b,
    {
        b = b - 1;
    }
    let r = subvec(v, a, b);
    proof {
        lemma_trim_front_ch_at(v@, c, a as int);
        let t = v@.subrange(a as int, len as int);
        lemma_trim_back_ch_at(t, c, b - a);
        assert(t.subrange(0, b - a) =~= v@.subrange(a as int, b as int));
    }
    r
}

// ---------------------------------------------------------------------------
// Removing every occurrence of a pattern
// ---------------------------------------------------------------------------

/// `s` with every (left-to-right, non-overlapping) occurrence of `pat`
/// removed, as `str::replace(pat, "")` leaves it.
pub open spec fn strip_all(s: Seq<char>, pat: Seq<char>) -> Seq<char>
    decreases s.len(),
    when pat.len() >= 1
{
    if s.len() == 0 {
        s
    } else if s.len() >= pat.len() && s.subrange(0, pat.len() as int) == pat {
        strip_all(s.subrange(pat.len() as int, s.len() as int), pat)
    } else {
        seq![s[0]] + strip_all(s.drop_first(), pat)
    }
}

/// Stripping a pattern that occurs nowhere changes nothing.
pub proof fn lemma_strip_all_absent(s: Seq<char>, pat: Seq<char>)
    requires
        pat.len() >= 1,
        !contains_seq(s, pat),
    ensures
        strip_all(s, pat) == s,
    decreases s.len(),
{
    if s.len() == 0 {
    } else {
        if s.len() >= pat.len() && s.subrange(0, pat.len() as int) == pat {
            assert(occurs_at(s, pat, 0));
        }
        assert(!contains_seq(s.drop_first(), pat)) by {
            if contains_seq(s.drop_first(), pat) {
                let i = choose|i: int| occurs_at(s.drop_first(), pat, i);
                assert(s.subrange(i + 1, i + 1 + pat.len()) =~= s.drop_first().subrange(
                    i,
                    i + pat.len(),
                ));
                assert(occurs_at(s, pat, i + 1));
            }
        }
        lemma_strip_all_absent(s.drop_first(), pat);
        assert(seq![s[0]] + s.drop_first() =~= s);
    }
}

/// Remove every occurrence of `pat` from `v`.
pub fn strip_all_vec(v: &Vec<char>, pat: &Vec<char>) -> (r: Vec<char>)
    requires
        pat@.len() >= 1,
    ensures
        r@ == strip_all(v@, pat@),
{
    let len = v.len();
    let plen = pat.len();
    let mut out: Vec<char> = Vec::new();
    let mut i: usize = 0;
    proof {
        assert(v@.subrange(0, len as int) =~= v@);
        assert(Seq::<char>::empty() + strip_all(v@, pat@) =~= strip_all(v@, pat@));
    }
    while i < len
        invariant
            len == v@.len(),
            plen == pat@.len(),
            plen >= 1,
            i <= len,
            out@ + strip_all(v@.subrange(i as int, len as int), pat@) == strip_all(v@, pat@),
        decreases len - i,
    {
        let ghost rest = v@.subrange(i as int, len as int);
        if plen <= len - i && match_at(v, pat, i) {
            proof {
                assert(rest.subrange(0, plen as int) =~= v@.subrange(i as int, i + plen));
                assert(rest.subrange(plen as int, rest.len() as int) =~= v@.subrange(
                    i + plen,
                    len as int,
                ));
            }
            i = i + plen;
        } else {
            proof {
                if i + plen <= len as int {
                    assert(v@.subrange(i as int, i + plen) =~= rest.subrange(0, plen as int));
                }
                assert(rest.drop_first() =~= v@.subrange(i + 1, len as int));
                assert(out@ + strip_all(rest, pat@) == (out@.push(v@[i as int])) + strip_all(
                    rest.drop_first(),
                    pat@,
                ));
            }
            out.push(v[i]);
            i = i + 1;
        }
    }
    proof {
        assert(v@.subrange(len as int, len as int).len() == 0);
        assert(out@ + strip_all(v@.subrange(len as int, len as int), pat@) =~= out@);
    }
    out
}

// ---------------------------------------------------------------------------
// Whitespace tokenization
// ---------------------------------------------------------------------------

/// First index at or after `i` holding whitespace, or the length of `s`.
pub open spec fn tok_end(s: Seq<char>, i: int) -> int
    decreases s.len() - i,
    when 0 <= i <= s.len()
{
    if i == s.len() || is_space_char(s[i]) {
        i
    } else {
        tok_end(s, i + 1)
    }
}

pub proof fn lemma_tok_end(s: Seq<char>, i: int)
    requires
        0 <= i <= s.len(),
    ensures
        i <= tok_end(s, i) <= s.len(),
        forall|k: int| i <= k < tok_end(s, i) ==> !is_space_char(s[k]),
        tok_end(s, i) < s.len() ==> is_space_char(s[tok_end(s, i)]),
        i < s.len() && !is_space_char(s[i]) ==> tok_end(s, i) > i,
    decreases s.len() - i,
{
    if i == s.len() || is_space_char(s[i]) {
    } else {
        lemma_tok_end(s, i + 1);
    }
}

proof fn lemma_tok_end_eq(s: Seq<char>, i: int, j: int)
    requires
        0 <= i <= j <= s.len(),
        forall|k: int| i <= k < j ==> !is_space_char(s[k]),
        j < s.len() ==> is_space_char(s[j]),
    ensures
        tok_end(s, i) == j,
    decreases j - i,
{
    if i == j {
    } else {
        lemma_tok_end_eq(s, i + 1, j);
    }
}

/// The whitespace-separated tokens of `s` from index `i` on.
pub open spec fn split_ws_from(s: Seq<char>, i: int) -> Seq<Seq<char>>
    decreases s.len() - i,
    when 0 <= i <= s.len()
    via split_ws_from_dec
{
    if i == s.len() {
        Seq::empty()
    } else if is_space_char(s[i]) {
        split_ws_from(s, i + 1)
    } else {
        seq![s.subrange(i, tok_end(s, i))] + split_ws_from(s, tok_end(s, i))
    }
}

#[via_fn]
proof fn split_ws_from_dec(s: Seq<char>, i: int) {
    if 0 <= i < s.len() && !is_space_char(s[i]) {
        lemma_tok_end(s, i);
    }
}

/// The whitespace-separated tokens of `s`, as `str::split_whitespace`
/// yields them (over ASCII whitespace).
pub open spec fn split_ws(s: Seq<char>) -> Seq<Seq<char>> {
    split_ws_from(s, 0)
}

/// The views of a vector of character vectors.
pub open spec fn views_of(ts: Seq<Vec<char>>) -> Seq<Seq<char>> {
    ts.map_values(|t: Vec<char>| t@)
}

/// Copy `v[a..b]`.
pub fn subvec(v: &Vec<char>, a: usize, b: usize) -> (r: Vec<char>)
    requires
        a <= b <= v@.len(),
    ensures
        r@ == v@.subrange(a as int, b as int),
{
    let mut r: Vec<char> = Vec::new();
    let mut i: usize = a;
    while i < b
        invariant
            a <= i <= b <= v@.len(),
            r@ =~= v@.subrange(a as int, i as int),
        decreases b - i,
    {
        proof {
            assert(v@.subrange(a as int, i + 1) =~= v@.subrange(a as int, i as int).push(
                v@[i as int],
            ));
        }
        r.push(v[i]);
        i = i + 1;
    }
    r
}

/// Split `v` into its whitespace-separated tokens.
pub fn split_tokens(v: &Vec<char>) -> (r: Vec<Vec<char>>)
    ensures
        views_of(r@) == split_ws(v@),
{
    let len = v.len();
    let mut r: Vec<Vec<char>> = Vec::new();
    let mut i: usize = 0;
    while i < len
        invariant
            len == v@.len(),
            i <= len,
            views_of(r@) + split_ws_from(v@, i as int) == split_ws(v@),
        decreases len - i,
    {
        if is_space(v[i]) {
            i = i + 1;
        } else {
            let mut j: usize = i;
            while j < len && !is_space(v[j])
                invariant
                    len == v@.len(),
                    i <= j <= len,
                    forall|k: int| i <= k < j ==> !is_space_char(v@[k]),
                decreases len - j,
            {
                j = j + 1;
            }
            proof {
                lemma_tok_end_eq(v@, i as int, j as int);
            }
            let tok = subvec(v, i, j);
            let ghost r0 = r@;
            r.push(tok);
            proof {
                assert(views_of(r@) =~= views_of(r0).push(tok@));
                assert(views_of(r0) + (seq![tok@] + split_ws_from(v@, j as int)) =~= views_of(r@)
                    + split_ws_from(v@, j as int));
            }
            i = j;
        }
    }
    proof {
        assert(views_of(r@) + split_ws_from(v@, len as int) =~= views_of(r@));
    }
    r
}

// ---------------------------------------------------------------------------
// Joining tokens with single spaces
// ---------------------------------------------------------------------------

/// The tokens from `i` on, joined with single spaces.
pub open spec fn join_sp_from(parts: Seq<Seq<char>>, i: int) -> Seq<char>
    decreases parts.len() - i,
    when 0 <= i <= parts.len()
{
    if i >= parts.len() {
        Seq::empty()
    } else if i == parts.len() - 1 {
        parts[i]
    } else {
        parts[i] + seq![' '] + join_sp_from(parts, i + 1)
    }
}

/// All tokens joined with single spaces, as `[&str]::join(" ")` yields them.
pub open spec fn join_sp(parts: Seq<Seq<char>>) -> Seq<char> {
    join_sp_from(parts, 0)
}

/// Append `b` to `a`.
pub fn append_chars(a: &mut Vec<char>, b: &Vec<char>)
    ensures
        final(a)@ == old(a)@ + b@,
{
    let mut i: usize = 0;
    while i < b.len()
        invariant
            i <= b@.len(),
            a@ =~= old(a)@ + b@.subrange(0, i as int),
        decreases b@.len() - i,
    {
        a.push(b[i]);
        i = i + 1;
    }
    proof {
        assert(old(a)@ + b@.subrange(0, b@.len() as int) =~= old(a)@ + b@);
    }
}

fn join_from(parts: &Vec<Vec<char>>, i: usize) -> (r: Vec<char>)
    requires
        i <= parts@.len(),
    ensures
        r@ == join_sp_from(views_of(parts@), i as int),
    decreases parts@.len() - i,
{
    proof {
        assert(views_of(parts@).len() == parts@.len());
    }
    if i >= parts.len() {
        Vec::new()
    } else if i == parts.len() - 1 {
        let p = &parts[i];
        subvec(p, 0, p.len())
    } else {
        let p = &parts[i];
        let mut out = subvec(p, 0, p.len());
        out.push(' ');
        let rest = join_from(parts, i + 1);
        append_chars(&mut out, &rest);
        proof {
            let vs = views_of(parts@);
            assert(out@ =~= vs[i as int] + seq![' '] + join_sp_from(vs, i + 1));
        }
        out
    }
}

/// Join tokens with single spaces.
pub fn join_spaces(parts: &Vec<Vec<char>>) -> (r: Vec<char>)
    ensures
        r@ == join_sp(views_of(parts@)),
{
    join_from(parts, 0)
}


/// Whether the characters of string `s` are exactly those of `lit`.
pub fn str_eq_str(s: &str, lit: &str) -> (b: bool)
    ensures
        b == (s@ == lit@),
{
    let sv = chars_of(s);
    seq_eq_str(&sv, lit)
}

// ---------------------------------------------------------------------------
// Joining tokens with an arbitrary separator
// ---------------------------------------------------------------------------

/// The tokens from `i` on, joined with `sep`.
pub open spec fn join_with_from(parts: Seq<Seq<char>>, sep: Seq<char>, i: int) -> Seq<char>
    decreases parts.len() - i,
    when 0 <= i <= parts.len()
{
    if i >= parts.len() {
        Seq::empty()
    } else if i == parts.len() - 1 {
        parts[i]
    } else {
        parts[i] + sep + join_with_from(parts, sep, i + 1)
    }
}

/// All tokens joined with `sep`, as `[&str]::join(sep)` yields them.
pub open spec fn join_with(parts: Seq<Seq<char>>, sep: Seq<char>) -> Seq<char> {
    join_with_from(parts, sep, 0)
}

fn join_sep_from(parts: &Vec<Vec<char>>, sep: &Vec<char>, i: usize) -> (r: Vec<char>)
    requires
        i <= parts@.len(),
    ensures
        r@ == join_with_from(views_of(parts@), sep@, i as int),
    decreases parts@.len() - i,
{
    proof {
        assert(views_of(parts@).len() == parts@.len());
    }
    if i >= parts.len() {
        Vec::new()
    } else if i == parts.len() - 1 {
        let p = &parts[i];
        let r = subvec(p, 0, p.len());
        proof {
            assert(r@ =~= views_of(parts@)[i as int]);
        }
        r
    } else {
        let p = &parts[i];
        let mut out = subvec(p, 0, p.len());
        append_chars(&mut out, sep);
        let rest = join_sep_from(parts, sep, i + 1);
        append_chars(&mut out, &rest);
        proof {
            let vs = views_of(parts@);
            assert(out@ =~= vs[i as int] + sep@ + join_with_from(vs, sep@, i + 1));
        }
        out
    }
}

/// Join tokens with the separator `sep`.
pub fn join_separated(parts: &Vec<Vec<char>>, sep: &str) -> (r: Vec<char>)
    ensures
        r@ == join_with(views_of(parts@), sep@),
{
    let sv = chars_of(sep);
    join_sep_from(parts, &sv, 0)
}

// ---------------------------------------------------------------------------
// Unsigned decimal tokens
// ---------------------------------------------------------------------------

/// The number denoted by a digit string, most significant digit first.
pub open spec fn digits_val(s: Seq<char>) -> int
    decreases s.len(),
{
    if s.len() == 0 {
        0
    } else {
        digits_val(s.drop_last()) * 10 + digit_val(s.last())
    }
}

pub open spec fn all_digits(s: Seq<char>) -> bool {
    forall|i: int| 0 <= i < s.len() ==> is_digit_char(s[i])
}

/// The number a token denotes: its value when the token is one or more
/// decimal digits and the value fits, nothing otherwise (a sign or any
/// other character disqualifies the token).
pub open spec fn usize_of_token(s: Seq<char>) -> Option<int> {
    if s.len() > 0 && all_digits(s) && digits_val(s) <= usize::MAX {
        Some(digits_val(s))
    } else {
        None
    }
}

proof fn lemma_digits_val_bounds(s: Seq<char>)
    requires
        all_digits(s),
    ensures
        digits_val(s) >= 0,
        forall|i: int|
            0 <= i <= s.len() ==> digits_val(s) >= #[trigger] digits_val(s.subrange(0, i)),
    decreases s.len(),
{
    if s.len() == 0 {
        assert forall|i: int| 0 <= i <= s.len() implies digits_val(s) >= #[trigger] digits_val(
            s.subrange(0, i),
        ) by {
            assert(s.subrange(0, i) =~= s);
        }
    } else {
        assert(s.drop_last() =~= s.subrange(0, s.len() - 1));
        assert(all_digits(s.drop_last()));
        lemma_digits_val_bounds(s.drop_last());
        assert(digits_val(s) >= digits_val(s.drop_last()));
        assert forall|i: int| 0 <= i <= s.len() implies digits_val(s) >= #[trigger] digits_val(
            s.subrange(0, i),
        ) by {
            if i < s.len() {
                assert(s.subrange(0, i) =~= s.drop_last().subrange(0, i));
            } else {
                assert(s.subrange(0, i) =~= s);
            }
        }
    }
}

/// A digit string denotes a non-negative number.
pub proof fn lemma_digits_val_nonneg(s: Seq<char>)
    requires
        all_digits(s),
    ensures
        digits_val(s) >= 0,
{
    lemma_digits_val_bounds(s);
}

/// Parse a token as `str::parse::<usize>` would (digits only).
pub fn parse_usize(t: &Vec<char>) -> (r: Option<usize>)
    ensures
        match r {
            Some(u) => usize_of_token(t@) == Some(u as int),
            None => usize_of_token(t@) is None,
        },
{
    let n = t.len();
    if n == 0 {
        return None;
    }
    let mut acc: usize = 0;
    let mut i: usize = 0;
    while i < n
        invariant
            n == t@.len(),
            i <= n,
            forall|k: int| 0 <= k < i ==> is_digit_char(t@[k]),
            acc == digits_val(t@.subrange(0, i as int)),
        decreases n - i,
    {
        let c = t[i];
        if !is_digit(c) {
            return None;
        }
        let d = (c as u32 - 48) as usize;
        let ghost prefix = t@.subrange(0, i as int);
        let ghost prefix1 = t@.subrange(0, i + 1);
        proof {
            assert(prefix1.drop_last() =~= prefix);
        }
        let step = match acc.checked_mul(10) {
            Some(m) => m.checked_add(d),
            None => None,
        };
        match step {
            Some(v) => {
                acc = v;
            },
            None => {
                proof {
                    if all_digits(t@) {
                        lemma_digits_val_bounds(t@);
                        assert(digits_val(t@) >= digits_val(prefix1));
                        assert(digits_val(prefix1) > usize::MAX);
                    }
                }
                return None;
            },
        }
        i = i + 1;
    }
    proof {
        assert(t@.subrange(0, n as int) =~= t@);
    }
    Some(acc)
}

/// Whether the characters of `t` are exactly those of `s`.
pub fn seq_eq_str(t: &Vec<char>, s: &str) -> (b: bool)
    ensures
        b == (t@ == s@),
{
    let n = s.unicode_len();
    if t.len() != n {
        return false;
    }
    let mut i: usize = 0;
    while i < n
        invariant
            n == s@.len(),
            t@.len() == n,
            i <= n,
            forall|k: int| 0 <= k < i ==> t@[k] == s@[k],
        decreases n - i,
    {
        if t[i] != s.get_char(i) {
            return false;
        }
        i = i + 1;
    }
    proof {
        assert(t@ =~= s@);
    }
    true
}

} // verus!
