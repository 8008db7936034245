//! Text primitives: comparing string slices and reading unsigned and signed
//! integers written in decimal digits.

use vstd::prelude::*;
use vstd::slice::*;
use vstd::string::*;
use vstd::utf8::*;

verus! {

/// Whether `c` is one of the ten ASCII digits.
pub open spec fn is_digit(c: char) -> bool {
    '0' <= c && c <= '9'
}

/// The number that the digit `c` stands for.
pub open spec fn digit_value(c: char) -> nat
    recommends
        is_digit(c),
{
    (c as u32 - '0' as u32) as nat
}

/// Whether every character of `s` is a digit.
pub open spec fn all_digits(s: Seq<char>) -> bool {
    forall|i: int| 0 <= i < s.len() ==> is_digit(#[trigger] s[i])
}

/// The number written by the digits `s`, most significant first. The empty
/// sequence writes zero.
pub open spec fn digits_value(s: Seq<char>) -> nat
    decreases s.len(),
{
    if s.len() == 0 {
        0
    } else {
        digits_value(s.drop_last()) * 10 + digit_value(s.last())
    }
}

/// What a run of digits reads as when it has to fit 64 bits: `None` for an
/// empty run, for a character that is no digit and for a number above
/// `u64::MAX`.
pub open spec fn spec_parse_digits(s: Seq<char>) -> Option<u64> {
    if s.len() > 0 && all_digits(s) && digits_value(s) <= u64::MAX {
        Some(digits_value(s) as u64)
    } else {
        None
    }
}

/// A prefix of a run of digits never writes a larger number than the run.
pub proof fn lemma_digits_value_prefix(s: Seq<char>, k: int)
    requires
        0 <= k <= s.len(),
    ensures
        digits_value(s.take(k)) <= digits_value(s),
    decreases s.len(),
{
    if k == s.len() {
        assert(s.take(k) =~= s);
    } else {
        lemma_digits_value_prefix(s.drop_last(), k);
        assert(s.drop_last().take(k) =~= s.take(k));
    }
}

/// Whether two string slices hold the same characters.
pub fn str_eq(a: &str, b: &str) -> (same: bool)
    ensures
        same == (a@ == b@),
{
    let x = a.as_bytes();
    let y = b.as_bytes();
    proof {
        encode_utf8_decode_utf8(a@);
        encode_utf8_decode_utf8(b@);
    }
    if x.len() != y.len() {
        return false;
    }
    let mut i: usize = 0;
    while i < x.len()
        invariant
            x@ == a.spec_bytes(),
            y@ == b.spec_bytes(),
            x@.len() == y@.len(),
            i <= x@.len(),
            forall|j: int| 0 <= j < i ==> x@[j] == y@[j],
        decreases x@.len() - i,
    {
        if x[i] != y[i] {
            return false;
        }
        i += 1;
    }
    assert(x@ =~= y@);
    true
}

/// What text reads as an unsigned integer of 64 bits: digits, with an
/// optional plus sign in front.
pub open spec fn spec_parse_unsigned(s: Seq<char>) -> Option<u64> {
    if s.len() > 0 && s[0] == '+' {
        spec_parse_digits(s.skip(1))
    } else {
        spec_parse_digits(s)
    }
}

/// What text reads as a signed integer of 64 bits: digits, with an optional
/// minus sign in front.
pub open spec fn spec_parse_signed(s: Seq<char>) -> Option<i64> {
    if s.len() > 0 && s[0] == '-' {
        match spec_parse_digits(s.skip(1)) {
            Some(magnitude) => if magnitude <= 0x8000_0000_0000_0000 {
                Some((-(magnitude as int)) as i64)
            } else {
                None
            },
            None => None,
        }
    } else {
        match spec_parse_digits(s) {
            Some(magnitude) => if magnitude <= i64::MAX {
                Some(magnitude as i64)
            } else {
                None
            },
            None => None,
        }
    }
}

/// A text with a character outside ASCII holds a character that is no digit,
/// also behind its first character.
proof fn lemma_not_ascii_not_digits(s: Seq<char>)
    requires
        !is_ascii_chars(s),
    ensures
        !all_digits(s),
        s.len() > 0 && (s[0] == '+' || s[0] == '-') ==> !all_digits(s.skip(1)),
{
    let i = choose|i: int| 0 <= i < s.len() && !('\0' <= #[trigger] s[i] <= '\u{7f}');
    assert(!is_digit(s[i]));
    if s.len() > 0 && (s[0] == '+' || s[0] == '-') {
        assert(s.skip(1)[i - 1] == s[i]);
        assert(!is_digit(s.skip(1)[i - 1]));
    }
}

/// Reads the ASCII text from its character `start` on as a run of digits.
fn parse_digits_from(s: &str, start: usize) -> (parsed: Option<u64>)
    requires
        is_ascii(s),
        start <= s@.len(),
    ensures
        parsed == spec_parse_digits(s@.skip(start as int)),
{
    let ghost run = s@.skip(start as int);
    let bytes = s.as_bytes();
    proof {
        is_ascii_spec_bytes(s);
    }
    let n = bytes.len();
    if n == start {
        return None;
    }
    let mut acc: u64 = 0;
    let mut i: usize = start;
    while i < n
        invariant
            run == s@.skip(start as int),
            n == s@.len(),
            n == bytes@.len(),
            forall|j: int|
                0 <= j < n ==> '\0' <= #[trigger] s@[j] <= '\u{7f}' && s@[j] as u8 == bytes@[j],
            start <= i <= n,
            all_digits(run.take(i - start)),
            acc == digits_value(run.take(i - start)),
        decreases n - i,
    {
        let b = bytes[i];
        if b < 48 || b > 57 {
            assert(run[i - start] == s@[i as int]);
            assert(!is_digit(run[i - start]));
            return None;
        }
        let d: u64 = (b - 48) as u64;
        proof {
            let next = run.take(i - start + 1);
            assert(next.drop_last() =~= run.take(i - start));
            assert(next.last() == s@[i as int]);
            assert(is_digit(s@[i as int]));
            assert(digit_value(s@[i as int]) == d);
            assert(digits_value(next) == acc * 10 + d);
            assert(all_digits(next)) by {
                assert forall|j: int| 0 <= j < next.len() implies is_digit(#[trigger] next[j]) by {
                    if j < i - start {
                        assert(next[j] == run.take(i - start)[j]);
                    }
                }
            }
            lemma_digits_value_prefix(run, i - start + 1);
        }
        if acc > (u64::MAX - d) / 10 {
            return None;
        }
        acc = acc * 10 + d;
        i += 1;
    }
    assert(run.take(n - start) =~= run);
    Some(acc)
}

/// Whether the ASCII text starts with the character numbered `wanted`.
fn starts_with(s: &str, wanted: u8) -> (starts: bool)
    requires
        is_ascii(s),
        wanted < 128,
    ensures
        starts == (s@.len() > 0 && s@[0] as u8 == wanted),
        s@.len() > 0 ==> '\0' <= s@[0] <= '\u{7f}',
{
    let bytes = s.as_bytes();
    proof {
        is_ascii_spec_bytes(s);
        if s@.len() > 0 {
            assert('\0' <= s@[0] <= '\u{7f}' && s@[0] as u8 == bytes@[0]);
        }
    }
    bytes.len() > 0 && bytes[0] == wanted
}

/// Reads a run of ASCII digits as a `u64`.
pub fn parse_digits(s: &str) -> (parsed: Option<u64>)
    ensures
        parsed == spec_parse_digits(s@),
{
    if !s.is_ascii() {
        proof {
            lemma_not_ascii_not_digits(s@);
        }
        return None;
    }
    assert(s@.skip(0) =~= s@);
    parse_digits_from(s, 0)
}

/// Reads an unsigned integer: digits, with an optional plus sign in front.
pub fn parse_unsigned(s: &str) -> (parsed: Option<u64>)
    ensures
        parsed == spec_parse_unsigned(s@),
{
    if !s.is_ascii() {
        proof {
            lemma_not_ascii_not_digits(s@);
        }
        return None;
    }
    if starts_with(s, 43) {
        parse_digits_from(s, 1)
    } else {
        assert(s@.skip(0) =~= s@);
        parse_digits_from(s, 0)
    }
}

/// Reads a signed integer: digits, with an optional minus sign in front.
pub fn parse_signed(s: &str) -> (parsed: Option<i64>)
    ensures
        parsed == spec_parse_signed(s@),
{
    if !s.is_ascii() {
        proof {
            lemma_not_ascii_not_digits(s@);
        }
        return None;
    }
    if starts_with(s, 45) {
        match parse_digits_from(s, 1) {
            Some(magnitude) => {
                if magnitude <= 0x7fff_ffff_ffff_ffff {
                    Some(-(magnitude as i64))
                } else if magnitude == 0x8000_0000_0000_0000 {
                    Some(i64::MIN)
                } else {
                    None
                }
            },
            None => None,
        }
    } else {
        assert(s@.skip(0) =~= s@);
        match parse_digits_from(s, 0) {
            Some(magnitude) => {
                if magnitude <= 0x7fff_ffff_ffff_ffff {
                    Some(magnitude as i64)
                } else {
                    None
                }
            },
            None => None,
        }
    }
}

} // verus!
