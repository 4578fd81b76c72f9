//! Monetary quantities. An amount is either a whole number of tournament
//! chips or real money; money is held in cents, never in binary floating
//! point, so two-place decimal semantics are exact.

use vstd::prelude::*;

use crate::prim::{
    digit_end, digits_val, lemma_digit_end_digits, lemma_digits_val_bounds, parse_u32, parse_u64,
    spec_u32, spec_u64, take_digits, ParseError,
};

verus! {

/// An amount in play: a whole number of chips, or money in cents.
///
/// The two never unify: a chips amount and a money amount are different
/// values even when numerically equal.
#[derive(Debug, PartialEq, Eq, Structural, Clone, Copy)]
pub enum AmountType {
    Chips(u32),
    Money(u64),
}

/// A seat's starting stack uses the same two forms.
pub type Stack = AmountType;

/// The fractional part after position `j`: where it ends (just past its
/// digits when a decimal point stands at `j`, else `j` itself).
pub open spec fn frac_end(s: Seq<char>, j: int) -> int {
    if 0 <= j < s.len() && s[j] == '.' {
        digit_end(s, j + 1)
    } else {
        j
    }
}

/// The number of fractional digits after position `j`.
pub open spec fn frac_len(s: Seq<char>, j: int) -> int {
    if 0 <= j < s.len() && s[j] == '.' {
        digit_end(s, j + 1) - (j + 1)
    } else {
        0
    }
}

/// The value of the fractional digits after position `j`.
pub open spec fn frac_val(s: Seq<char>, j: int) -> int {
    if 0 <= j < s.len() && s[j] == '.' {
        digits_val(s, j + 1, digit_end(s, j + 1))
    } else {
        0
    }
}

/// The cent value of `n` whole euros and up to two fractional digits.
pub open spec fn cents_of(n: u64, flen: int, fval: int) -> int {
    if flen == 0 {
        n * 100
    } else if flen == 1 {
        n * 100 + fval * 10
    } else {
        n * 100 + fval
    }
}

/// A money token at `i`: a decimal number followed by the euro sign, read as
/// cents. A number with more than two fractional digits, or one too large to
/// count in cents, is not a money token.
pub open spec fn spec_parse_money(s: Seq<char>, i: int) -> Option<(int, u64)> {
    match spec_u64(s, i) {
        None => None,
        Some((j1, n)) => {
            let j2 = frac_end(s, j1);
            let flen = frac_len(s, j1);
            let fval = frac_val(s, j1);
            if flen <= 2 && 0 <= fval <= 99 && n <= (u64::MAX - 99) / 100 && j2 < s.len() && s[j2]
                == '€' {
                Some((j2 + 1, cents_of(n, flen, fval) as u64))
            } else {
                None
            }
        },
    }
}

/// A money token as in `spec_parse_money`, but with the euro sign optional,
/// as tournament-summary amounts allow.
pub open spec fn spec_parse_euros(s: Seq<char>, i: int) -> Option<(int, u64)> {
    match spec_u64(s, i) {
        None => None,
        Some((j1, n)) => {
            let j2 = frac_end(s, j1);
            let flen = frac_len(s, j1);
            let fval = frac_val(s, j1);
            if flen <= 2 && 0 <= fval <= 99 && n <= (u64::MAX - 99) / 100 {
                if j2 < s.len() && s[j2] == '€' {
                    Some((j2 + 1, cents_of(n, flen, fval) as u64))
                } else {
                    Some((j2, cents_of(n, flen, fval) as u64))
                }
            } else {
                None
            }
        },
    }
}

/// An amount at `i`: a money token if one is there, else a chips integer.
pub open spec fn spec_parse_amount(s: Seq<char>, i: int) -> Option<(int, AmountType)> {
    match spec_parse_money(s, i) {
        Some((j, c)) => Some((j, AmountType::Money(c))),
        None => match spec_u32(s, i) {
            Some((j, n)) => Some((j, AmountType::Chips(n))),
            None => None,
        },
    }
}

/// Parses the fractional digits after the integer part ending at `j1`.
/// Returns the end position, the digit count and the value; fails when more
/// than two fractional digits stand there.
fn parse_frac(s: &[char], j1: usize) -> (r: Result<(usize, usize, u64), ParseError>)
    requires
        j1 <= s.len(),
    ensures
        match r {
            Ok((j2, flen, fval)) => {
                &&& j2 == frac_end(s@, j1 as int)
                &&& flen == frac_len(s@, j1 as int)
                &&& fval == frac_val(s@, j1 as int)
                &&& flen <= 2
                &&& 0 <= fval <= 99
                &&& (flen == 1 ==> fval <= 9)
                &&& j1 <= j2 <= s@.len()
            },
            Err(e) => frac_len(s@, j1 as int) > 2,
        },
{
    if !(j1 < s.len() && s[j1] == '.') {
        return Ok((j1, 0, 0));
    }
    let e = take_digits(s, j1 + 1);
    let flen = e - (j1 + 1);
    if flen > 2 {
        return Err(ParseError { position: j1, expected: "at most two decimals" });
    }
    if flen == 0 {
        return Ok((e, 0, 0));
    }
    proof {
        lemma_digit_end_digits(s@, j1 + 1);
        lemma_digits_val_bounds(s@, j1 + 1, e as int);
        assert(crate::prim::pow10(0) == 1);
        assert(crate::prim::pow10(1) == 10);
        assert(crate::prim::pow10(2) == 100);
    }
    match parse_u64(s, j1 + 1) {
        Ok((e2, fval)) => Ok((e2, flen, fval)),
        Err(_) => {
            proof {
                assert(false);
            }
            Err(ParseError { position: j1, expected: "decimals" })
        },
    }
}

/// Parses a money token: a decimal number followed by the euro sign.
pub fn parse_money_at(s: &[char], i: usize) -> (r: Result<(usize, u64), ParseError>)
    requires
        i <= s.len(),
    ensures
        match r {
            Ok((j, c)) => spec_parse_money(s@, i as int) == Some((j as int, c)) && i < j
                <= s@.len(),
            Err(e) => spec_parse_money(s@, i as int) is None,
        },
{
    let (j1, n) = match parse_u64(s, i) {
        Ok(v) => v,
        Err(e) => {
            return Err(e);
        },
    };
    let (j2, flen, fval) = match parse_frac(s, j1) {
        Ok(v) => v,
        Err(e) => {
            return Err(e);
        },
    };
    if n > (u64::MAX - 99) / 100 {
        return Err(ParseError { position: i, expected: "amount in range" });
    }
    if !(j2 < s.len() && s[j2] == '€') {
        return Err(ParseError { position: j2, expected: "euro sign" });
    }
    let whole = n * 100;
    let c: u64 = if flen == 0 {
        whole
    } else if flen == 1 {
        whole + fval * 10
    } else {
        whole + fval
    };
    Ok((j2 + 1, c))
}

/// Parses a money token whose euro sign is optional.
pub fn parse_euros_at(s: &[char], i: usize) -> (r: Result<(usize, u64), ParseError>)
    requires
        i <= s.len(),
    ensures
        match r {
            Ok((j, c)) => spec_parse_euros(s@, i as int) == Some((j as int, c)) && i < j
                <= s@.len(),
            Err(e) => spec_parse_euros(s@, i as int) is None,
        },
{
    let (j1, n) = match parse_u64(s, i) {
        Ok(v) => v,
        Err(e) => {
            return Err(e);
        },
    };
    let (j2, flen, fval) = match parse_frac(s, j1) {
        Ok(v) => v,
        Err(e) => {
            return Err(e);
        },
    };
    if n > (u64::MAX - 99) / 100 {
        return Err(ParseError { position: i, expected: "amount in range" });
    }
    let whole = n * 100;
    let c: u64 = if flen == 0 {
        whole
    } else if flen == 1 {
        whole + fval * 10
    } else {
        whole + fval
    };
    if j2 < s.len() && s[j2] == '€' {
        Ok((j2 + 1, c))
    } else {
        Ok((j2, c))
    }
}

impl AmountType {
    /// Parses an amount: money if a euro-signed number stands at `i`, else a
    /// chips integer.
    pub fn parse_at(s: &[char], i: usize) -> (r: Result<(usize, AmountType), ParseError>)
        requires
            i <= s.len(),
        ensures
            match r {
                Ok((j, v)) => spec_parse_amount(s@, i as int) == Some((j as int, v)) && i < j
                    <= s@.len(),
                Err(e) => spec_parse_amount(s@, i as int) is None,
            },
    {
        match parse_money_at(s, i) {
            Ok((j, c)) => Ok((j, AmountType::Money(c))),
            Err(_) => match parse_u32(s, i) {
                Ok((j, n)) => Ok((j, AmountType::Chips(n))),
                Err(e) => Err(e),
            },
        }
    }

    /// Parses an amount from the start of a string.
    pub fn parse(input: &str) -> (r: Result<(usize, AmountType), ParseError>)
        ensures
            match r {
                Ok((j, v)) => spec_parse_amount(input@, 0) == Some((j as int, v)),
                Err(e) => spec_parse_amount(input@, 0) is None,
            },
    {
        let v = crate::text::str_to_chars(input);
        AmountType::parse_at(v.as_slice(), 0)
    }
}

/// Parses one blinds component: an integer chips value, or a euro-signed
/// decimal money value.
pub fn parse_blind_at(s: &[char], i: usize) -> (r: Result<(usize, AmountType), ParseError>)
    requires
        i <= s.len(),
    ensures
        match r {
            Ok((j, v)) => spec_parse_amount(s@, i as int) == Some((j as int, v)) && i < j
                <= s@.len(),
            Err(e) => spec_parse_amount(s@, i as int) is None,
        },
{
    AmountType::parse_at(s, i)
}

/// Parses one blinds component from the start of a string.
pub fn parse_blind(input: &str) -> (r: Result<(usize, AmountType), ParseError>)
    ensures
        match r {
            Ok((j, v)) => spec_parse_amount(input@, 0) == Some((j as int, v)),
            Err(e) => spec_parse_amount(input@, 0) is None,
        },
{
    let v = crate::text::str_to_chars(input);
    parse_blind_at(v.as_slice(), 0)
}

} // verus!
