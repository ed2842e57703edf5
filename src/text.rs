//! Small text utilities shared by the decoders, the topic scheme and the
//! configuration checks.

use vstd::prelude::*;
use vstd::string::*;

verus! {

/// `String::push` appends one character.
pub assume_specification[ String::push ](s: &mut String, ch: char)
    ensures
        final(s)@ == old(s)@.push(ch),
;

pub open spec fn is_ascii_alnum(c: char) -> bool {
    ('a' <= c && c <= 'z') || ('A' <= c && c <= 'Z') || ('0' <= c && c <= '9')
}

pub open spec fn all_ascii_alnum(s: Seq<char>) -> bool {
    forall|i: int| 0 <= i < s.len() ==> is_ascii_alnum(#[trigger] s[i])
}

pub open spec fn ascii_lower_char(c: char) -> char {
    if 'A' <= c && c <= 'Z' {
        ((c as u32) + 32) as char
    } else {
        c
    }
}

pub open spec fn ascii_lower(s: Seq<char>) -> Seq<char> {
    Seq::new(s.len(), |i: int| ascii_lower_char(s[i]))
}

pub fn char_is_ascii_alnum(c: char) -> (r: bool)
    ensures
        r == is_ascii_alnum(c),
{
    ('a' <= c && c <= 'z') || ('A' <= c && c <= 'Z') || ('0' <= c && c <= '9')
}

pub fn char_to_ascii_lower(c: char) -> (r: char)
    ensures
        r == ascii_lower_char(c),
{
    if 'A' <= c && c <= 'Z' {
        let b: u8 = (c as u8) + 32;
        b as char
    } else {
        c
    }
}

/// A fresh `String` holding the characters of `s`.
pub fn owned(s: &str) -> (r: String)
    ensures
        r@ == s@,
{
    String::from_str(s)
}

/// Whether two strings hold the same characters.
pub fn same_text(a: &str, b: &str) -> (r: bool)
    ensures
        r == (a@ == b@),
{
    let x = String::from_str(a);
    let y = String::from_str(b);
    x == y
}

/// `s` with every ASCII capital letter replaced by its small letter.
pub fn to_ascii_lower(s: &str) -> (r: String)
    ensures
        r@ == ascii_lower(s@),
{
    let n = s.unicode_len();
    let mut out = String::new();
    let mut i: usize = 0;
    while i < n
        invariant
            n == s@.len(),
            i <= n,
            out@ == ascii_lower(s@.subrange(0, i as int)),
        decreases n - i,
    {
        let c = s.get_char(i);
        out.push(char_to_ascii_lower(c));
        i = i + 1;
        assert(ascii_lower(s@.subrange(0, i as int)) =~= ascii_lower(s@.subrange(0, i - 1)).push(
            ascii_lower_char(c),
        ));
    }
    assert(s@.subrange(0, n as int) =~= s@);
    out
}

/// Whether every character of `s` is an ASCII letter or digit.
pub fn is_all_ascii_alnum(s: &str) -> (r: bool)
    ensures
        r == all_ascii_alnum(s@),
{
    let n = s.unicode_len();
    let mut i: usize = 0;
    while i < n
        invariant
            n == s@.len(),
            i <= n,
            forall|j: int| 0 <= j < i ==> is_ascii_alnum(#[trigger] s@[j]),
        decreases n - i,
    {
        if !char_is_ascii_alnum(s.get_char(i)) {
            return false;
        }
        i = i + 1;
    }
    true
}

pub open spec fn opt_text(o: Option<String>) -> Option<Seq<char>> {
    match o {
        Some(s) => Some(s@),
        None => None,
    }
}

pub open spec fn is_digit(c: char) -> bool {
    '0' <= c && c <= '9'
}

pub open spec fn digit_value(c: char) -> nat {
    (c as u32 - '0' as u32) as nat
}

pub open spec fn empty_number_message() -> Seq<char> {
    "cannot parse integer from empty string"@
}

pub open spec fn invalid_digit_message() -> Seq<char> {
    "invalid digit found in string"@
}

pub open spec fn overflow_message() -> Seq<char> {
    "number too large to fit in target type"@
}

/// Reads the digits `d` left to right after `acc`, failing at the first
/// character that is not a digit or the first digit that takes the value past `max`.
pub open spec fn scan_digits(d: Seq<char>, acc: nat, max: nat) -> Result<nat, Seq<char>>
    decreases d.len(),
{
    if d.len() == 0 {
        Ok(acc)
    } else if !is_digit(d[0]) {
        Err(invalid_digit_message())
    } else if acc * 10 + digit_value(d[0]) > max {
        Err(overflow_message())
    } else {
        scan_digits(d.drop_first(), acc * 10 + digit_value(d[0]), max)
    }
}

proof fn lemma_scan_digits_bound(d: Seq<char>, acc: nat, max: nat)
    requires
        acc <= max,
    ensures
        scan_digits(d, acc, max) matches Ok(v) ==> v <= max,
    decreases d.len(),
{
    if d.len() > 0 && is_digit(d[0]) && acc * 10 + digit_value(d[0]) <= max {
        lemma_scan_digits_bound(d.drop_first(), acc * 10 + digit_value(d[0]), max);
    }
}

/// An unsigned decimal number no larger than `max`, as Rust's integer
/// `from_str` reads it: an optional `+`, then at least one digit.
pub open spec fn parse_unsigned(s: Seq<char>, max: nat) -> Result<nat, Seq<char>> {
    if s.len() == 0 {
        Err(empty_number_message())
    } else {
        let d = if s[0] == '+' {
            s.drop_first()
        } else {
            s
        };
        if d.len() == 0 {
            Err(invalid_digit_message())
        } else {
            scan_digits(d, 0, max)
        }
    }
}

/// Reads an unsigned decimal number no larger than `max`; the error is the
/// message Rust's integer parsing gives.
pub fn parse_unsigned_text(s: &str, max: u64) -> (r: Result<u64, String>)
    ensures
        match parse_unsigned(s@, max as nat) {
            Ok(v) => r == Ok::<u64, String>(v as u64),
            Err(m) => r matches Err(e) && e@ == m,
        },
        r matches Ok(v) ==> v <= max,
        parse_unsigned(s@, max as nat) matches Ok(v) ==> v <= max,
{
    let n = s.unicode_len();
    if n == 0 {
        return Err(owned("cannot parse integer from empty string"));
    }
    let mut i: usize = 0;
    if s.get_char(0) == '+' {
        i = 1;
        if n == 1 {
            return Err(owned("invalid digit found in string"));
        }
    }
    let ghost d = s@.skip(i as int);
    assert(d == if s@[0] == '+' { s@.drop_first() } else { s@ });
    assert(parse_unsigned(s@, max as nat) == scan_digits(d, 0, max as nat));
    proof {
        lemma_scan_digits_bound(d, 0, max as nat);
    }
    let mut acc: u64 = 0;
    while i < n
        invariant
            n == s@.len(),
            d.len() > 0,
            n - d.len() <= i <= n,
            d == s@.skip(n - d.len()),
            parse_unsigned(s@, max as nat) == scan_digits(d, 0, max as nat),
            acc <= max,
            scan_digits(d, 0, max as nat) == scan_digits(s@.skip(i as int), acc as nat, max as nat),
        decreases n - i,
    {
        let c = s.get_char(i);
        assert(s@.skip(i as int)[0] == c);
        assert(s@.skip(i as int).len() > 0);
        if !('0' <= c && c <= '9') {
            return Err(owned("invalid digit found in string"));
        }
        let dig: u64 = (c as u32 - '0' as u32) as u64;
        if acc > max / 10 {
            assert(acc * 10 > max) by (nonlinear_arith)
                requires
                    acc > max / 10,
            ;
            return Err(owned("number too large to fit in target type"));
        }
        assert(acc * 10 <= max) by (nonlinear_arith)
            requires
                acc <= max / 10,
        ;
        if dig > max - acc * 10 {
            return Err(owned("number too large to fit in target type"));
        }
        assert(s@.skip(i as int).drop_first() =~= s@.skip(i + 1));
        acc = acc * 10 + dig;
        i = i + 1;
    }
    assert(s@.skip(n as int).len() == 0);
    Ok(acc)
}

pub open spec fn digit_char(d: nat) -> char {
    ((d + 48) as u32) as char
}

/// The decimal spelling of `n`.
pub open spec fn decimal(n: nat) -> Seq<char>
    decreases n,
{
    if n < 10 {
        seq![digit_char(n)]
    } else {
        decimal(n / 10).push(digit_char(n % 10))
    }
}

/// Spells `n` in decimal.
pub fn decimal_text(n: u64) -> (r: String)
    ensures
        r@ == decimal(n as nat),
    decreases n,
{
    let d: u8 = (n % 10) as u8;
    let c = (48u8 + d) as char;
    if n < 10 {
        let mut s = String::new();
        s.push(c);
        s
    } else {
        let mut s = decimal_text(n / 10);
        s.push(c);
        s
    }
}

pub open spec fn all_ascii(s: Seq<char>) -> bool {
    forall|i: int| 0 <= i < s.len() ==> (#[trigger] s[i] as u32) < 128
}

/// Whether every character of `s` is ASCII.
pub fn is_all_ascii(s: &str) -> (r: bool)
    ensures
        r == all_ascii(s@),
{
    let n = s.unicode_len();
    let mut i: usize = 0;
    while i < n
        invariant
            n == s@.len(),
            i <= n,
            forall|j: int| 0 <= j < i ==> (#[trigger] s@[j] as u32) < 128,
        decreases n - i,
    {
        if (s.get_char(i) as u32) >= 128 {
            return false;
        }
        i = i + 1;
    }
    true
}

} // verus!
