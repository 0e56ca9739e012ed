//! Verified string utilities: whitespace trimming, substring search,
//! splitting on a delimiter, and decimal integer parsing.
//!
//! All specifications are stated over `Seq<char>`, the view of `&str` and
//! `String`. Whitespace is the Unicode white-space set, the one
//! `char::is_whitespace` recognizes, written out as a plain disjunction of
//! code points.

use vstd::prelude::*;
use vstd::arithmetic::div_mod::lemma_fundamental_div_mod;

verus! {

/// Whitespace as the engine understands it: the Unicode white-space code
/// points (tab through carriage return, space, next line, no-break space,
/// ogham space mark, the typographic spaces, line and paragraph
/// separators, narrow no-break space, medium mathematical space,
/// ideographic space).
pub open spec fn g_is_space(c: char) -> bool {
    let u = c as int;
    (9 <= u && u <= 13) || u == 32 || u == 0x85 || u == 0xA0 || u == 0x1680 || (0x2000 <= u && u
        <= 0x200A) || u == 0x2028 || u == 0x2029 || u == 0x202F || u == 0x205F || u == 0x3000
}

fn is_space(c: char) -> (r: bool)
    ensures
        r == g_is_space(c),
{
    let u = c as u32;
    (9 <= u && u <= 13) || u == 32 || u == 0x85 || u == 0xA0 || u == 0x1680 || (0x2000 <= u && u
        <= 0x200A) || u == 0x2028 || u == 0x2029 || u == 0x202F || u == 0x205F || u == 0x3000
}

/// `s` with leading whitespace removed.
pub open spec fn g_trim_start(s: Seq<char>) -> Seq<char>
    decreases s.len(),
{
    if s.len() == 0 {
        s
    } else if g_is_space(s[0]) {
        g_trim_start(s.drop_first())
    } else {
        s
    }
}

/// `s` with trailing whitespace removed.
pub open spec fn g_trim_end(s: Seq<char>) -> Seq<char>
    decreases s.len(),
{
    if s.len() == 0 {
        s
    } else if g_is_space(s.last()) {
        g_trim_end(s.drop_last())
    } else {
        s
    }
}

/// `s` with surrounding whitespace removed.
pub open spec fn g_trim(s: Seq<char>) -> Seq<char> {
    g_trim_end(g_trim_start(s))
}

proof fn lemma_trim_start_at(s: Seq<char>, i: int)
    requires
        0 <= i <= s.len(),
        forall|j: int| 0 <= j < i ==> g_is_space(s[j]),
        i < s.len() ==> !g_is_space(s[i]),
    ensures
        g_trim_start(s) =~= s.subrange(i, s.len() as int),
    decreases i,
{
    if i == 0 {
        if s.len() == 0 {
            assert(g_trim_start(s) =~= s.subrange(0, s.len() as int));
        } else {
            assert(!g_is_space(s[0]));
            assert(g_trim_start(s) =~= s.subrange(0, s.len() as int));
        }
    } else {
        assert(g_is_space(s[0]));
        let t = s.drop_first();
        assert(t =~= s.subrange(1, s.len() as int));
        lemma_trim_start_at(t, i - 1);
        assert(t.subrange(i - 1, t.len() as int) =~= s.subrange(i, s.len() as int));
    }
}

proof fn lemma_trim_end_at(s: Seq<char>, e: int)
    requires
        0 <= e <= s.len(),
        forall|j: int| e <= j < s.len() ==> g_is_space(s[j]),
        e > 0 ==> !g_is_space(s[e - 1]),
    ensures
        g_trim_end(s) =~= s.subrange(0, e),
    decreases s.len(),
{
    if e == s.len() {
        if s.len() == 0 {
            assert(g_trim_end(s) =~= s.subrange(0, e));
        } else {
            assert(!g_is_space(s.last()));
            assert(g_trim_end(s) =~= s.subrange(0, e));
        }
    } else {
        assert(g_is_space(s.last()));
        let t = s.drop_last();
        assert(t =~= s.subrange(0, s.len() - 1));
        lemma_trim_end_at(t, e);
        assert(t.subrange(0, e) =~= s.subrange(0, e));
    }
}

/// Removes surrounding whitespace from a string slice.
pub fn trim(s: &str) -> (r: &str)
    ensures
        r@ == g_trim(s@),
{
    let n = s.unicode_len();
    let mut i: usize = 0;
    while i < n && is_space(s.get_char(i))
        invariant
            0 <= i <= n,
            n == s@.len(),
            forall|j: int| 0 <= j < i ==> g_is_space(s@[j]),
        decreases n - i,
    {
        i += 1;
    }
    proof {
        lemma_trim_start_at(s@, i as int);
    }
    let mut e: usize = n;
    while e > i && is_space(s.get_char(e - 1))
        invariant
            i <= e <= n,
            n == s@.len(),
            forall|j: int| e <= j < n ==> g_is_space(s@[j]),
        decreases e,
    {
        e -= 1;
    }
    let r = s.substring_char(i, e);
    proof {
        let t = s@.subrange(i as int, s@.len() as int);
        if e == i {
            lemma_trim_end_at(t, 0);
        } else {
            lemma_trim_end_at(t, e - i);
        }
        assert(t.subrange(0, e - i) =~= s@.subrange(i as int, e as int));
    }
    r
}

/// Whether `needle` occurs in `hay` at position `i`.
pub open spec fn g_match_at(hay: Seq<char>, needle: Seq<char>, i: int) -> bool {
    &&& 0 <= i
    &&& i + needle.len() <= hay.len()
    &&& hay.subrange(i, i + needle.len()) == needle
}

/// The first position at or after `i` where `needle` occurs in `hay`.
pub open spec fn g_find(hay: Seq<char>, needle: Seq<char>, i: int) -> Option<int>
    decreases hay.len() - i when 0 <= i && needle.len() > 0
{
    if i + needle.len() > hay.len() {
        None
    } else if g_match_at(hay, needle, i) {
        Some(i)
    } else {
        g_find(hay, needle, i + 1)
    }
}

/// Facts a caller of `g_find` may need: a found position is in range and
/// is the first occurrence.
pub proof fn lemma_find_bounds(hay: Seq<char>, needle: Seq<char>, i: int)
    requires
        0 <= i,
        needle.len() > 0,
    ensures
        match g_find(hay, needle, i) {
            Some(j) => i <= j && j + needle.len() <= hay.len() && g_match_at(hay, needle, j)
                && forall|k: int| i <= k < j ==> !g_match_at(hay, needle, k),
            None => forall|k: int| i <= k ==> !g_match_at(hay, needle, k),
        },
    decreases hay.len() - i,
{
    if i + needle.len() > hay.len() {
    } else if g_match_at(hay, needle, i) {
    } else {
        lemma_find_bounds(hay, needle, i + 1);
    }
}

fn match_at(hay: &str, needle: &str, i: usize) -> (r: bool)
    requires
        i + needle@.len() <= hay@.len(),
        hay@.len() <= usize::MAX,
    ensures
        r == g_match_at(hay@, needle@, i as int),
{
    let m = needle.unicode_len();
    let mut k: usize = 0;
    while k < m
        invariant
            0 <= k <= m,
            m == needle@.len(),
            i + m <= hay@.len(),
            hay@.len() <= usize::MAX,
            forall|j: int| 0 <= j < k ==> hay@[i + j] == needle@[j],
        decreases m - k,
    {
        if hay.get_char(i + k) != needle.get_char(k) {
            proof {
                assert(hay@.subrange(i as int, i + needle@.len())[k as int] != needle@[k as int]);
            }
            return false;
        }
        k += 1;
    }
    proof {
        assert(hay@.subrange(i as int, i + needle@.len()) =~= needle@);
    }
    true
}

/// Finds the first occurrence of `needle` in `hay` at or after `i`.
pub fn find_from(hay: &str, needle: &str, i: usize) -> (r: Option<usize>)
    requires
        needle@.len() > 0,
        i <= hay@.len(),
    ensures
        match r {
            Some(j) => g_find(hay@, needle@, i as int) == Some(j as int) && i <= j && j
                + needle@.len() <= hay@.len(),
            None => g_find(hay@, needle@, i as int) is None,
        },
    decreases hay@.len() - i,
{
    let n = hay.unicode_len();
    let m = needle.unicode_len();
    if m > n - i {
        None
    } else if match_at(hay, needle, i) {
        Some(i)
    } else {
        find_from(hay, needle, i + 1)
    }
}

/// The segments of `s[i..]` split on the (non-empty) delimiter `d`.
pub open spec fn g_split_from(s: Seq<char>, d: Seq<char>, i: int) -> Seq<Seq<char>>
    decreases s.len() - i when 0 <= i <= s.len() && d.len() > 0 via g_split_from_decreases
{
    match g_find(s, d, i) {
        Some(j) => seq![s.subrange(i, j)] + g_split_from(s, d, j + d.len()),
        None => seq![s.subrange(i, s.len() as int)],
    }
}

#[via_fn]
proof fn g_split_from_decreases(s: Seq<char>, d: Seq<char>, i: int) {
    lemma_find_bounds(s, d, i);
}

/// The segments of `s` split on the (non-empty) delimiter `d`. Splitting
/// the empty string yields one empty segment, as `str::split` does.
pub open spec fn g_split(s: Seq<char>, d: Seq<char>) -> Seq<Seq<char>> {
    g_split_from(s, d, 0)
}

/// View of a vector of strings as a sequence of character sequences.
pub open spec fn strs_view(v: Seq<String>) -> Seq<Seq<char>> {
    v.map_values(|s: String| s@)
}

fn split_from(s: &str, d: &str, i: usize) -> (r: Vec<String>)
    requires
        d@.len() > 0,
        i <= s@.len(),
    ensures
        strs_view(r@) == g_split_from(s@, d@, i as int),
    decreases s@.len() - i,
{
    proof {
        lemma_find_bounds(s@, d@, i as int);
    }
    let n = s.unicode_len();
    match find_from(s, d, i) {
        Some(j) => {
            let seg = s.substring_char(i, j).to_owned();
            let next = j + d.unicode_len();
            let mut rest = split_from(s, d, next);
            let mut r: Vec<String> = Vec::new();
            r.push(seg);
            r.append(&mut rest);
            proof {
                assert(strs_view(r@) =~= seq![s@.subrange(i as int, j as int)] + g_split_from(
                    s@,
                    d@,
                    next as int,
                ));
            }
            r
        },
        None => {
            let seg = s.substring_char(i, n).to_owned();
            let mut r: Vec<String> = Vec::new();
            r.push(seg);
            proof {
                assert(strs_view(r@) =~= seq![s@.subrange(i as int, s@.len() as int)]);
            }
            r
        },
    }
}

/// Splits `s` on the (non-empty) delimiter `d`.
pub fn split(s: &str, d: &str) -> (r: Vec<String>)
    requires
        d@.len() > 0,
    ensures
        strs_view(r@) == g_split(s@, d@),
{
    split_from(s, d, 0)
}

/// Whether two string slices hold the same characters.
pub fn eq_str(a: &str, b: &str) -> (r: bool)
    ensures
        r == (a@ == b@),
{
    let n = a.unicode_len();
    if n != b.unicode_len() {
        return false;
    }
    let mut i: usize = 0;
    while i < n
        invariant
            0 <= i <= n,
            n == a@.len(),
            n == b@.len(),
            forall|j: int| 0 <= j < i ==> a@[j] == b@[j],
        decreases n - i,
    {
        if a.get_char(i) != b.get_char(i) {
            return false;
        }
        i += 1;
    }
    proof {
        assert(a@ =~= b@);
    }
    true
}

/// Whether `c` is a decimal digit.
pub open spec fn g_is_digit(c: char) -> bool {
    48 <= c as int && c as int <= 57
}

/// The value of a decimal digit.
pub open spec fn g_digit_val(c: char) -> int {
    c as int - 48
}

/// Whether every character of `s` is a decimal digit.
pub open spec fn g_all_digits(s: Seq<char>) -> bool {
    forall|i: int| 0 <= i < s.len() ==> g_is_digit(#[trigger] s[i])
}

/// The integer a digit string denotes, most significant digit first.
pub open spec fn g_digits_val(s: Seq<char>) -> int
    decreases s.len(),
{
    if s.len() == 0 {
        0
    } else {
        g_digits_val(s.drop_last()) * 10 + g_digit_val(s.last())
    }
}

pub proof fn lemma_digits_val_nonneg(s: Seq<char>)
    requires
        g_all_digits(s),
    ensures
        g_digits_val(s) >= 0,
    decreases s.len(),
{
    if s.len() > 0 {
        assert(g_all_digits(s.drop_last())) by {
            assert(forall|i: int|
                0 <= i < s.len() - 1 ==> g_is_digit(#[trigger] s.drop_last()[i]) == g_is_digit(
                    s[i],
                ));
        }
        lemma_digits_val_nonneg(s.drop_last());
        assert(g_digits_val(s.drop_last()) * 10 >= 0) by (nonlinear_arith)
            requires
                g_digits_val(s.drop_last()) >= 0,
        ;
    }
}

/// A digit string denotes at least what any of its prefixes denotes.
pub proof fn lemma_digits_val_prefix_le(s: Seq<char>, j: int)
    requires
        g_all_digits(s),
        0 <= j <= s.len(),
    ensures
        g_digits_val(s.subrange(0, j)) <= g_digits_val(s),
    decreases s.len() - j,
{
    if j == s.len() {
        assert(s.subrange(0, j) =~= s);
    } else {
        let t = s.subrange(0, j + 1);
        assert(t.drop_last() =~= s.subrange(0, j));
        assert(g_all_digits(s.subrange(0, j)));
        lemma_digits_val_nonneg(s.subrange(0, j));
        let x = g_digits_val(s.subrange(0, j));
        assert(g_digits_val(t) == x * 10 + g_digit_val(t.last()));
        assert(x * 10 + g_digit_val(t.last()) >= x) by (nonlinear_arith)
            requires
                x >= 0,
                g_digit_val(t.last()) >= 0,
        ;
        lemma_digits_val_prefix_le(s, j + 1);
    }
}

/// The unsigned 64-bit integer an unsigned digit run denotes: at least
/// one character, all digits, and within range.
pub open spec fn g_parse_digits(s: Seq<char>) -> Option<u64> {
    if s.len() > 0 && g_all_digits(s) && g_digits_val(s) <= u64::MAX {
        Some(g_digits_val(s) as u64)
    } else {
        None
    }
}

/// Parses a run of decimal digits as an unsigned 64-bit integer.
fn parse_digits(s: &str) -> (r: Option<u64>)
    ensures
        r == g_parse_digits(s@),
{
    let n = s.unicode_len();
    if n == 0 {
        return None;
    }
    let mut acc: u64 = 0;
    let mut i: usize = 0;
    while i < n
        invariant
            0 <= i <= n,
            n == s@.len(),
            g_all_digits(s@.subrange(0, i as int)),
            acc == g_digits_val(s@.subrange(0, i as int)),
        decreases n - i,
    {
        let c = s.get_char(i);
        let u = c as u32;
        if u < 48 || u > 57 {
            assert(!g_is_digit(s@[i as int]));
            return None;
        }
        let d = (u - 48) as u64;
        if acc > (u64::MAX - d) / 10 {
            proof {
                let p = s@.subrange(0, i + 1);
                assert(p.drop_last() =~= s@.subrange(0, i as int));
                assert(g_all_digits(p));
                let q = (u64::MAX - d) as int / 10;
                lemma_fundamental_div_mod((u64::MAX - d) as int, 10);
                assert(q * 10 >= u64::MAX - d - 9);
                assert(acc * 10 >= q * 10 + 10) by (nonlinear_arith)
                    requires
                        acc >= q + 1,
                ;
                assert(g_digits_val(p) > u64::MAX);
                if g_all_digits(s@) {
                    lemma_digits_val_prefix_le(s@, i + 1);
                    assert(g_digits_val(s@) > u64::MAX);
                }
            }
            return None;
        }
        proof {
            let q = (u64::MAX - d) as int / 10;
            lemma_fundamental_div_mod((u64::MAX - d) as int, 10);
            assert(q * 10 <= u64::MAX - d);
            assert(acc * 10 <= q * 10) by (nonlinear_arith)
                requires
                    acc <= q,
            ;
            let p = s@.subrange(0, i + 1);
            assert(p.drop_last() =~= s@.subrange(0, i as int));
        }
        acc = acc * 10 + d;
        i += 1;
    }
    proof {
        assert(s@.subrange(0, n as int) =~= s@);
    }
    Some(acc)
}

/// The unsigned 64-bit integer a string denotes: an optional single
/// leading `+`, then at least one digit, within range — the strings
/// `u64`'s own parsing accepts.
pub open spec fn g_parse_u64(s: Seq<char>) -> Option<u64> {
    if s.len() > 0 && s[0] == '+' {
        g_parse_digits(s.subrange(1, s.len() as int))
    } else {
        g_parse_digits(s)
    }
}

/// Parses a decimal string as an unsigned 64-bit integer.
pub fn parse_u64(s: &str) -> (r: Option<u64>)
    ensures
        r == g_parse_u64(s@),
{
    let n = s.unicode_len();
    if n > 0 && s.get_char(0) == '+' {
        parse_digits(s.substring_char(1, n))
    } else {
        parse_digits(s)
    }
}

/// The signed 64-bit integer a string denotes: an optional single sign,
/// then at least one digit, within range.
pub open spec fn g_parse_i64(s: Seq<char>) -> Option<i64> {
    if s.len() > 0 && (s[0] == '-' || s[0] == '+') {
        let m = s.subrange(1, s.len() as int);
        if m.len() > 0 && g_all_digits(m) {
            let v = if s[0] == '-' {
                -g_digits_val(m)
            } else {
                g_digits_val(m)
            };
            if i64::MIN <= v <= i64::MAX {
                Some(v as i64)
            } else {
                None
            }
        } else {
            None
        }
    } else if s.len() > 0 && g_all_digits(s) && g_digits_val(s) <= i64::MAX {
        Some(g_digits_val(s) as i64)
    } else {
        None
    }
}

/// Parses a decimal string as a signed 64-bit integer.
pub fn parse_i64(s: &str) -> (r: Option<i64>)
    ensures
        r == g_parse_i64(s@),
{
    let n = s.unicode_len();
    if n == 0 {
        return None;
    }
    let c0 = s.get_char(0);
    if c0 == '-' || c0 == '+' {
        let rest = s.substring_char(1, n);
        match parse_digits(rest) {
            Some(mag) => {
                proof {
                    if g_all_digits(rest@) {
                        lemma_digits_val_nonneg(rest@);
                    }
                }
                if c0 == '-' {
                    if mag <= 9223372036854775807u64 {
                        Some(0i64 - (mag as i64))
                    } else if mag == 9223372036854775808u64 {
                        Some(i64::MIN)
                    } else {
                        None
                    }
                } else {
                    if mag <= 9223372036854775807u64 {
                        Some(mag as i64)
                    } else {
                        None
                    }
                }
            },
            None => {
                proof {
                    if g_all_digits(rest@) && rest@.len() > 0 {
                        lemma_digits_val_nonneg(rest@);
                    }
                }
                None
            },
        }
    } else {
        match parse_digits(s) {
            Some(v) => {
                proof {
                    lemma_digits_val_nonneg(s@);
                }
                if v <= 9223372036854775807u64 {
                    Some(v as i64)
                } else {
                    None
                }
            },
            None => None,
        }
    }
}

/// The boolean a string denotes: exactly `true` or `false`.
pub open spec fn g_parse_bool(s: Seq<char>) -> Option<bool> {
    if s == "true"@ {
        Some(true)
    } else if s == "false"@ {
        Some(false)
    } else {
        None
    }
}

/// Parses a string as a boolean.
pub fn parse_bool(s: &str) -> (r: Option<bool>)
    ensures
        r == g_parse_bool(s@),
{
    if eq_str(s, "true") {
        Some(true)
    } else if eq_str(s, "false") {
        Some(false)
    } else {
        None
    }
}

} // verus!
