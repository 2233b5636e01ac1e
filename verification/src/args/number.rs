//! Decimal parsing of the numeric command-line options, with the outcomes of
//! `str::parse` for unsigned integer types.
use vstd::prelude::*;
use vstd::utf8::encode_utf8;

verus! {

/// Why a text is not an unsigned decimal number of the wanted width.
#[derive(Debug, Clone, Copy, PartialEq, Eq, Structural)]
pub enum IntErrorKind {
    /// The text is empty.
    Empty,
    /// A byte that is not a decimal digit (or a lone sign) was met.
    InvalidDigit,
    /// The value grew past the largest value of the type.
    PosOverflow,
}

/// The error of a failed numeric option.
#[derive(Debug, Clone, Copy, PartialEq, Eq, Structural)]
pub struct ParseIntError {
    pub kind: IntErrorKind,
}

pub open spec fn is_digit(c: u8) -> bool {
    48 <= c <= 57
}

/// Reads `digits` left to right onto the running value `acc`; the first byte
/// that is not a digit, or that takes the value past `max`, decides the error.
pub open spec fn scan_digits(digits: Seq<u8>, acc: nat, max: nat) -> Result<nat, IntErrorKind>
    decreases digits.len(),
{
    if digits.len() == 0 {
        Ok(acc)
    } else if !is_digit(digits[0]) {
        Err(IntErrorKind::InvalidDigit)
    } else if acc * 10 + (digits[0] - 48) > max {
        Err(IntErrorKind::PosOverflow)
    } else {
        scan_digits(digits.drop_first(), (acc * 10 + (digits[0] - 48)) as nat, max)
    }
}

/// The outcome of parsing the bytes `s` as an unsigned decimal number no
/// larger than `max`: an optional leading `+`, then at least one digit.
pub open spec fn parse_uint_spec(s: Seq<u8>, max: nat) -> Result<nat, IntErrorKind> {
    if s.len() == 0 {
        Err(IntErrorKind::Empty)
    } else if s.len() == 1 && (s[0] == 43 || s[0] == 45) {
        Err(IntErrorKind::InvalidDigit)
    } else if s[0] == 43 {
        scan_digits(s.drop_first(), 0, max)
    } else {
        scan_digits(s, 0, max)
    }
}

/// `parse_uint_spec` on the UTF-8 bytes of a text.
pub open spec fn parse_text(s: Seq<char>, max: nat) -> Result<nat, IntErrorKind> {
    parse_uint_spec(encode_utf8(s), max)
}

/// Parses `s` as an unsigned decimal number no larger than `max`.
pub fn parse_uint(s: &str, max: u128) -> (r: Result<u128, ParseIntError>)
    ensures
        match r {
            Ok(v) => parse_text(s@, max as nat) == Ok::<nat, IntErrorKind>(v as nat),
            Err(e) => parse_text(s@, max as nat) == Err::<nat, IntErrorKind>(e.kind),
        },
        r matches Ok(v) ==> v <= max,
{
    let bytes = s.as_bytes();
    let n = bytes.len();
    if n == 0 {
        return Err(ParseIntError { kind: IntErrorKind::Empty });
    }
    if n == 1 && (bytes[0] == 43 || bytes[0] == 45) {
        return Err(ParseIntError { kind: IntErrorKind::InvalidDigit });
    }
    let start: usize = if bytes[0] == 43 { 1 } else { 0 };
    let ghost digits = bytes@.skip(start as int);
    assert(parse_uint_spec(bytes@, max as nat) == scan_digits(digits, 0, max as nat)) by {
        if start == 0 {
            assert(digits =~= bytes@);
        } else {
            assert(digits =~= bytes@.drop_first());
        }
    }
    let mut acc: u128 = 0;
    let mut i: usize = start;
    while i < n
        invariant
            start <= i <= n,
            n == bytes@.len(),
            acc <= max,
            digits == bytes@.skip(start as int),
            parse_text(s@, max as nat) == scan_digits(digits, 0, max as nat),
            scan_digits(digits, 0, max as nat) == scan_digits(
                bytes@.skip(i as int),
                acc as nat,
                max as nat,
            ),
        decreases n - i,
    {
        let c = bytes[i];
        assert(bytes@.skip(i as int)[0] == c);
        assert(bytes@.skip(i as int).drop_first() =~= bytes@.skip(i + 1));
        if c < 48 || c > 57 {
            return Err(ParseIntError { kind: IntErrorKind::InvalidDigit });
        }
        let d: u128 = (c - 48) as u128;
        if d > max || acc > (max - d) / 10 {
            assert(acc * 10 + d > max) by (nonlinear_arith)
                requires
                    d > max || acc > (max - d) / 10,
            ;
            return Err(ParseIntError { kind: IntErrorKind::PosOverflow });
        }
        assert(acc * 10 + d <= max) by (nonlinear_arith)
            requires
                d <= max,
                acc <= (max - d) / 10,
        ;
        acc = acc * 10 + d;
        i = i + 1;
    }
    assert(bytes@.skip(n as int) =~= Seq::<u8>::empty());
    Ok(acc)
}

/// Parses a `u8` the way `str::parse::<u8>` does.
pub fn parse_u8(s: &str) -> (r: Result<u8, ParseIntError>)
    ensures
        match r {
            Ok(v) => parse_text(s@, u8::MAX as nat) == Ok::<nat, IntErrorKind>(v as nat),
            Err(e) => parse_text(s@, u8::MAX as nat) == Err::<nat, IntErrorKind>(e.kind),
        },
{
    match parse_uint(s, 255) {
        Ok(v) => Ok(v as u8),
        Err(e) => Err(e),
    }
}

/// Parses a `u64` the way `str::parse::<u64>` does.
pub fn parse_u64(s: &str) -> (r: Result<u64, ParseIntError>)
    ensures
        match r {
            Ok(v) => parse_text(s@, u64::MAX as nat) == Ok::<nat, IntErrorKind>(v as nat),
            Err(e) => parse_text(s@, u64::MAX as nat) == Err::<nat, IntErrorKind>(e.kind),
        },
{
    match parse_uint(s, 18446744073709551615) {
        Ok(v) => Ok(v as u64),
        Err(e) => Err(e),
    }
}

/// Parses a `usize` the way `str::parse::<usize>` does.
pub fn parse_usize(s: &str) -> (r: Result<usize, ParseIntError>)
    ensures
        match r {
            Ok(v) => parse_text(s@, usize::MAX as nat) == Ok::<nat, IntErrorKind>(v as nat),
            Err(e) => parse_text(s@, usize::MAX as nat) == Err::<nat, IntErrorKind>(e.kind),
        },
{
    match parse_uint(s, usize::MAX as u128) {
        Ok(v) => Ok(v as usize),
        Err(e) => Err(e),
    }
}

/// Parses a `u128` the way `str::parse::<u128>` does.
pub fn parse_u128(s: &str) -> (r: Result<u128, ParseIntError>)
    ensures
        match r {
            Ok(v) => parse_text(s@, u128::MAX as nat) == Ok::<nat, IntErrorKind>(v as nat),
            Err(e) => parse_text(s@, u128::MAX as nat) == Err::<nat, IntErrorKind>(e.kind),
        },
{
    parse_uint(s, 340282366920938463463374607431768211455)
}

/// The usual decimal writing of `n`: its digits, most significant first,
/// without leading zeros (`0` for zero).
pub open spec fn decimal(n: nat) -> Seq<u8>
    decreases n,
{
    if n < 10 {
        seq![(n + 48) as u8]
    } else {
        decimal(n / 10).push(((n % 10) + 48) as u8)
    }
}

/// Reading the decimal writing of `n` in front of more digits continues
/// from `n`.
proof fn lemma_scan_decimal(n: nat, rest: Seq<u8>, max: nat)
    requires
        n <= max,
    ensures
        scan_digits(decimal(n) + rest, 0, max) == scan_digits(rest, n, max),
    decreases n,
{
    if n < 10 {
        let s = decimal(n) + rest;
        assert(s[0] == (n + 48) as u8);
        assert(s.drop_first() =~= rest);
    } else {
        let d: u8 = ((n % 10) + 48) as u8;
        let tail = seq![d] + rest;
        assert(decimal(n) + rest =~= decimal(n / 10) + tail);
        lemma_scan_decimal(n / 10, tail, max);
        assert(tail[0] == d);
        assert(tail.drop_first() =~= rest);
        assert((n / 10) * 10 + (n % 10) == n);
    }
}

/// Every value up to `max`, written in decimal, parses back to itself.
pub proof fn lemma_parse_decimal(n: nat, max: nat)
    requires
        n <= max,
    ensures
        parse_uint_spec(decimal(n), max) == Ok::<nat, IntErrorKind>(n),
{
    lemma_scan_decimal(n, Seq::empty(), max);
    assert(decimal(n) + Seq::<u8>::empty() =~= decimal(n));
    assert(scan_digits(Seq::<u8>::empty(), n, max) == Ok::<nat, IntErrorKind>(n));
    lemma_decimal_leads_with_digit(n);
}

/// The decimal writing of a number is not empty and starts with a digit.
proof fn lemma_decimal_leads_with_digit(n: nat)
    ensures
        decimal(n).len() >= 1,
        is_digit(decimal(n)[0]),
    decreases n,
{
    if n >= 10 {
        lemma_decimal_leads_with_digit(n / 10);
    }
}

} // verus!
