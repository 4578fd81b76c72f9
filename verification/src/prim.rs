//! Parsing primitives over character slices: literal tags, digit runs,
//! character scans, substring search, and line endings.
//!
//! Every executable primitive is specified against a spec-level function of
//! the input sequence, so compound grammars can state exactly what they parse.

use vstd::prelude::*;

use crate::text::str_to_chars;

verus! {

/// A parse failure: the position where the input stopped matching, and a
/// short description of what was expected there.
#[derive(Debug, PartialEq, Eq, Clone, Copy)]
pub struct ParseError {
    pub position: usize,
    pub expected: &'static str,
}

/// A literal `t` matches at `i`: the position just after it, if it is there.
pub open spec fn spec_tag(s: Seq<char>, i: int, t: Seq<char>) -> Option<int> {
    if 0 <= i && i + t.len() <= s.len() && s.subrange(i, i + t.len() as int) == t {
        Some(i + t.len() as int)
    } else {
        None
    }
}

/// Whether the literal `t` occurs at position `i` of `s`.
pub fn match_at(s: &[char], i: usize, t: &[char]) -> (r: bool)
    requires
        i <= s.len(),
    ensures
        r == (spec_tag(s@, i as int, t@) is Some),
{
    if s.len() - i < t.len() {
        return false;
    }
    let mut k: usize = 0;
    while k < t.len()
        invariant
            i + t.len() <= s.len(),
            k <= t.len(),
            forall|m: int| 0 <= m < k ==> s@[i + m] == t@[m],
        decreases t.len() - k,
    {
        if s[i + k] != t[k] {
            proof {
                assert(s@.subrange(i as int, i + t@.len())[k as int] == s@[i + k]);
            }
            return false;
        }
        k = k + 1;
    }
    proof {
        assert(s@.subrange(i as int, i + t@.len()) =~= t@);
    }
    true
}

/// Consumes the literal `t` at position `i`, or fails at `i`.
pub fn tag(s: &[char], i: usize, t: &str) -> (r: Result<usize, ParseError>)
    requires
        i <= s.len(),
    ensures
        match r {
            Ok(j) => spec_tag(s@, i as int, t@) == Some(j as int) && i <= j <= s@.len(),
            Err(e) => spec_tag(s@, i as int, t@) is None && e.position == i,
        },
{
    let tv = str_to_chars(t);
    if match_at(s, i, tv.as_slice()) {
        Ok(i + tv.len())
    } else {
        Err(ParseError { position: i, expected: "literal" })
    }
}

/// A decimal digit.
pub open spec fn is_digit(c: char) -> bool {
    '0' <= c && c <= '9'
}

/// The end of the digit run beginning at `i`.
pub open spec fn digit_end(s: Seq<char>, i: int) -> int
    decreases s.len() - i,
{
    if 0 <= i < s.len() && is_digit(s[i]) {
        digit_end(s, i + 1)
    } else {
        i
    }
}

/// The value of the digits `s[i..j]`, read in base ten.
pub open spec fn digits_val(s: Seq<char>, i: int, j: int) -> int
    decreases j - i,
{
    if i < j {
        digits_val(s, i, j - 1) * 10 + (s[j - 1] as int - '0' as int)
    } else {
        0
    }
}

/// A run of one or more digits whose value fits in `u32`, as the grammar's
/// unsigned-integer fields demand; a longer run or an overflowing value
/// fails.
pub open spec fn spec_u32(s: Seq<char>, i: int) -> Option<(int, u32)> {
    let j = digit_end(s, i);
    if j == i {
        None
    } else if 0 <= digits_val(s, i, j) <= u32::MAX {
        Some((j, digits_val(s, i, j) as u32))
    } else {
        None
    }
}

/// Like `spec_u32` with a `u64` bound, for monetary integer parts.
pub open spec fn spec_u64(s: Seq<char>, i: int) -> Option<(int, u64)> {
    let j = digit_end(s, i);
    if j == i {
        None
    } else if 0 <= digits_val(s, i, j) <= u64::MAX {
        Some((j, digits_val(s, i, j) as u64))
    } else {
        None
    }
}

/// Parses a decimal `u32` at `i`.
pub fn parse_u32(s: &[char], i: usize) -> (r: Result<(usize, u32), ParseError>)
    requires
        i <= s.len(),
    ensures
        match r {
            Ok((j, v)) => spec_u32(s@, i as int) == Some((j as int, v)) && i < j <= s@.len(),
            Err(e) => spec_u32(s@, i as int) is None && e.position == i,
        },
{
    match parse_u64(s, i) {
        Ok((j, v)) => {
            if v <= u32::MAX as u64 {
                Ok((j, v as u32))
            } else {
                Err(ParseError { position: i, expected: "number in range" })
            }
        },
        Err(e) => Err(e),
    }
}

/// Parses a decimal `u64` at `i`.
pub fn parse_u64(s: &[char], i: usize) -> (r: Result<(usize, u64), ParseError>)
    requires
        i <= s.len(),
    ensures
        match r {
            Ok((j, v)) => spec_u64(s@, i as int) == Some((j as int, v)) && i < j <= s@.len(),
            Err(e) => spec_u64(s@, i as int) is None && e.position == i,
        },
{
    let mut j: usize = i;
    let mut acc: u64 = 0;
    let mut overflow: bool = false;
    loop
        invariant
            i <= j <= s.len(),
            digit_end(s@, i as int) == digit_end(s@, j as int),
            !overflow ==> acc == digits_val(s@, i as int, j as int),
            overflow ==> digits_val(s@, i as int, j as int) > u64::MAX,
        ensures
            i <= j <= s.len(),
            j == digit_end(s@, i as int),
            !overflow ==> acc == digits_val(s@, i as int, j as int),
            overflow ==> digits_val(s@, i as int, j as int) > u64::MAX,
        decreases s.len() - j,
    {
        if j == s.len() {
            break;
        }
        let c = s[j];
        if !('0' <= c && c <= '9') {
            break;
        }
        let d: u64 = (c as u64) - 48;
        proof {
            assert(d == s@[j as int] as int - '0' as int);
            assert(digits_val(s@, i as int, j + 1) == digits_val(s@, i as int, j as int) * 10
                + d);
            if overflow {
                assert(digits_val(s@, i as int, j as int) * 10 + d > u64::MAX) by (nonlinear_arith)
                    requires
                        digits_val(s@, i as int, j as int) > u64::MAX,
                        d >= 0,
                ;
            }
        }
        if !overflow {
            if acc > (u64::MAX - d) / 10 {
                overflow = true;
                proof {
                    assert(acc * 10 + d > u64::MAX) by (nonlinear_arith)
                        requires
                            acc > (u64::MAX - d) / 10,
                            d <= 9,
                    ;
                }
            } else {
                proof {
                    assert(acc * 10 + d <= u64::MAX) by (nonlinear_arith)
                        requires
                            acc <= (u64::MAX - d) / 10,
                            d <= 9,
                    ;
                }
                acc = acc * 10 + d;
            }
        }
        j = j + 1;
    }
    if j == i {
        return Err(ParseError { position: i, expected: "digit" });
    }
    if overflow {
        return Err(ParseError { position: i, expected: "number in range" });
    }
    Ok((j, acc))
}

/// Powers of ten.
pub open spec fn pow10(n: nat) -> int
    decreases n,
{
    if n == 0 {
        1
    } else {
        10 * pow10((n - 1) as nat)
    }
}

/// Every character of the digit run starting at `i` is a digit, and the run
/// ends within the input.
pub proof fn lemma_digit_end_digits(s: Seq<char>, i: int)
    requires
        0 <= i <= s.len(),
    ensures
        i <= digit_end(s, i) <= s.len(),
        forall|k: int| i <= k < digit_end(s, i) ==> is_digit(s[k]),
    decreases s.len() - i,
{
    if i < s.len() && is_digit(s[i]) {
        lemma_digit_end_digits(s, i + 1);
    }
}

/// The value of a digit run is non-negative and below ten to its length.
pub proof fn lemma_digits_val_bounds(s: Seq<char>, i: int, j: int)
    requires
        0 <= i <= j <= s.len(),
        forall|k: int| i <= k < j ==> is_digit(s[k]),
    ensures
        0 <= digits_val(s, i, j) < pow10((j - i) as nat),
    decreases j - i,
{
    if i < j {
        lemma_digits_val_bounds(s, i, j - 1);
        let prev = digits_val(s, i, j - 1);
        let d = s[j - 1] as int - '0' as int;
        assert(0 <= d <= 9);
        assert(prev * 10 + d < pow10((j - i) as nat)) by (nonlinear_arith)
            requires
                0 <= prev < pow10((j - 1 - i) as nat),
                0 <= d <= 9,
                pow10((j - i) as nat) == 10 * pow10((j - 1 - i) as nat),
        ;
        assert(prev * 10 + d >= 0) by (nonlinear_arith)
            requires
                prev >= 0,
                d >= 0,
        ;
    }
}

/// Scans to the end of the digit run beginning at `i`.
pub fn take_digits(s: &[char], i: usize) -> (j: usize)
    requires
        i <= s.len(),
    ensures
        j == digit_end(s@, i as int),
        i <= j <= s@.len(),
{
    let mut j: usize = i;
    loop
        invariant
            i <= j <= s.len(),
            digit_end(s@, i as int) == digit_end(s@, j as int),
        decreases s.len() - j,
    {
        if j == s.len() {
            return j;
        }
        let c = s[j];
        if !('0' <= c && c <= '9') {
            return j;
        }
        j = j + 1;
    }
}

/// The first position at or after `i` holding `c`, or the end of the input.
pub open spec fn till_char(s: Seq<char>, i: int, c: char) -> int
    decreases s.len() - i,
{
    if 0 <= i < s.len() && s[i] != c {
        till_char(s, i + 1, c)
    } else {
        i
    }
}

/// Scans to the first occurrence of `c` (or the end of the input).
pub fn take_till(s: &[char], i: usize, c: char) -> (j: usize)
    requires
        i <= s.len(),
    ensures
        j == till_char(s@, i as int, c),
        i <= j <= s@.len(),
{
    let mut j: usize = i;
    loop
        invariant
            i <= j <= s.len(),
            till_char(s@, i as int, c) == till_char(s@, j as int, c),
        decreases s.len() - j,
    {
        if j == s.len() || s[j] == c {
            return j;
        }
        j = j + 1;
    }
}

/// The first position at or after `i` holding a carriage return or newline,
/// or the end of the input.
pub open spec fn till_eol(s: Seq<char>, i: int) -> int
    decreases s.len() - i,
{
    if 0 <= i < s.len() && s[i] != '\n' && s[i] != '\r' {
        till_eol(s, i + 1)
    } else {
        i
    }
}

/// Scans to the end of the current line (the next `\r` or `\n`, or the end).
pub fn take_till_eol(s: &[char], i: usize) -> (j: usize)
    requires
        i <= s.len(),
    ensures
        j == till_eol(s@, i as int),
        i <= j <= s@.len(),
{
    let mut j: usize = i;
    loop
        invariant
            i <= j <= s.len(),
            till_eol(s@, i as int) == till_eol(s@, j as int),
        decreases s.len() - j,
    {
        if j == s.len() || s[j] == '\n' || s[j] == '\r' {
            return j;
        }
        j = j + 1;
    }
}

/// A line ending at `i`: a bare newline or a carriage return and newline.
pub open spec fn spec_line_ending(s: Seq<char>, i: int) -> Option<int> {
    if 0 <= i < s.len() && s[i] == '\n' {
        Some(i + 1)
    } else if 0 <= i && i + 1 < s.len() && s[i] == '\r' && s[i + 1] == '\n' {
        Some(i + 2)
    } else {
        None
    }
}

/// Consumes a line ending at `i`, or fails at `i`.
pub fn line_ending(s: &[char], i: usize) -> (r: Result<usize, ParseError>)
    requires
        i <= s.len(),
    ensures
        match r {
            Ok(j) => spec_line_ending(s@, i as int) == Some(j as int) && i < j <= s@.len(),
            Err(e) => spec_line_ending(s@, i as int) is None && e.position == i,
        },
{
    if i < s.len() && s[i] == '\n' {
        Ok(i + 1)
    } else if i < s.len() && s[i] == '\r' && i + 1 < s.len() && s[i + 1] == '\n' {
        Ok(i + 2)
    } else {
        Err(ParseError { position: i, expected: "line ending" })
    }
}

/// The first position at or after `i` where the literal `t` occurs, if any.
pub open spec fn find_sub(s: Seq<char>, i: int, t: Seq<char>) -> Option<int>
    decreases s.len() - i,
{
    if !(0 <= i && 1 <= t.len() && i + t.len() <= s.len()) {
        None
    } else if s.subrange(i, i + t.len() as int) == t {
        Some(i)
    } else if i < s.len() {
        find_sub(s, i + 1, t)
    } else {
        None
    }
}

/// Finds the first occurrence of `t` at or after `i`.
pub fn find_pattern(s: &[char], i: usize, t: &str) -> (r: Option<usize>)
    requires
        i <= s.len(),
    ensures
        match r {
            Some(k) => find_sub(s@, i as int, t@) == Some(k as int) && i <= k
                && k + t@.len() <= s@.len(),
            None => find_sub(s@, i as int, t@) is None,
        },
{
    let tv = str_to_chars(t);
    if tv.len() == 0 {
        return None;
    }
    let mut k: usize = i;
    loop
        invariant
            i <= k <= s.len(),
            tv@ == t@,
            tv.len() >= 1,
            find_sub(s@, i as int, t@) == find_sub(s@, k as int, t@),
        decreases s.len() - k,
    {
        if s.len() - k < tv.len() {
            return None;
        }
        if match_at(s, k, tv.as_slice()) {
            return Some(k);
        }
        k = k + 1;
    }
}

/// A whitespace character: space, tab, carriage return, or newline.
pub open spec fn is_ws(c: char) -> bool {
    c == ' ' || c == '\t' || c == '\r' || c == '\n'
}

/// The end of the whitespace run beginning at `i`.
pub open spec fn ws_end(s: Seq<char>, i: int) -> int
    decreases s.len() - i,
{
    if 0 <= i < s.len() && is_ws(s[i]) {
        ws_end(s, i + 1)
    } else {
        i
    }
}

/// Skips whitespace.
pub fn skip_ws(s: &[char], i: usize) -> (j: usize)
    requires
        i <= s.len(),
    ensures
        j == ws_end(s@, i as int),
        i <= j <= s@.len(),
{
    let mut j: usize = i;
    loop
        invariant
            i <= j <= s.len(),
            ws_end(s@, i as int) == ws_end(s@, j as int),
        decreases s.len() - j,
    {
        if j == s.len() {
            return j;
        }
        let c = s[j];
        if !(c == ' ' || c == '\t' || c == '\r' || c == '\n') {
            return j;
        }
        j = j + 1;
    }
}

/// An ASCII letter.
pub open spec fn is_alpha(c: char) -> bool {
    ('a' <= c && c <= 'z') || ('A' <= c && c <= 'Z')
}

/// The first position at or after `i` holding a letter, or the end.
pub open spec fn till_alpha(s: Seq<char>, i: int) -> int
    decreases s.len() - i,
{
    if 0 <= i < s.len() && !is_alpha(s[i]) {
        till_alpha(s, i + 1)
    } else {
        i
    }
}

/// Scans to the first letter (or the end of the input).
pub fn take_till_alpha(s: &[char], i: usize) -> (j: usize)
    requires
        i <= s.len(),
    ensures
        j == till_alpha(s@, i as int),
        i <= j <= s@.len(),
{
    let mut j: usize = i;
    loop
        invariant
            i <= j <= s.len(),
            till_alpha(s@, i as int) == till_alpha(s@, j as int),
        decreases s.len() - j,
    {
        if j == s.len() {
            return j;
        }
        let c = s[j];
        if ('a' <= c && c <= 'z') || ('A' <= c && c <= 'Z') {
            return j;
        }
        j = j + 1;
    }
}

/// The end of the letter run beginning at `i`.
pub open spec fn alpha_end(s: Seq<char>, i: int) -> int
    decreases s.len() - i,
{
    if 0 <= i < s.len() && is_alpha(s[i]) {
        alpha_end(s, i + 1)
    } else {
        i
    }
}

/// Consumes a run of one or more letters, or fails at `i`.
pub fn take_alpha1(s: &[char], i: usize) -> (r: Result<usize, ParseError>)
    requires
        i <= s.len(),
    ensures
        match r {
            Ok(j) => j == alpha_end(s@, i as int) && i < j <= s@.len(),
            Err(e) => alpha_end(s@, i as int) == i && e.position == i,
        },
{
    let mut j: usize = i;
    loop
        invariant
            i <= j <= s.len(),
            alpha_end(s@, i as int) == alpha_end(s@, j as int),
        ensures
            i <= j <= s.len(),
            j == alpha_end(s@, i as int),
        decreases s.len() - j,
    {
        if j == s.len() {
            break;
        }
        let c = s[j];
        if !(('a' <= c && c <= 'z') || ('A' <= c && c <= 'Z')) {
            break;
        }
        j = j + 1;
    }
    if j == i {
        Err(ParseError { position: i, expected: "letter" })
    } else {
        Ok(j)
    }
}

} // verus!
