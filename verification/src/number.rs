//! Exact base-10 fixed-point numbers, read and written through
//! `rust_decimal`.

use crate::text::{all_digits, digit_value, digits_value, is_digit};
use rust_decimal::Decimal;
use std::str::FromStr;
use vstd::prelude::*;

verus! {

/// The first magnitude that a 96-bit mantissa cannot hold.
pub open spec fn mantissa_limit() -> int {
    0x1_0000_0000_0000_0000_0000_0000
}

/// The largest number of fractional digits.
pub const MAX_SCALE: u32 = 28;

/// A base-10 fixed-point number: `mantissa` divided by ten to the power
/// `scale`. Nothing is rounded and no binary fraction is involved.
///
/// `==` compares the mantissa and the scale, so that 1.5 and 1.50 differ as
/// they do on the wire; `same_value` and `same_value_as` compare the
/// quantity, so that they agree.
#[derive(Debug, Clone, Copy, PartialEq, Eq, Structural)]
pub struct ExactNumericValue {
    pub mantissa: i128,
    pub scale: u32,
}

/// Ten to the power `e`.
pub open spec fn pow10(e: nat) -> nat
    decreases e,
{
    if e == 0 {
        1
    } else {
        10 * pow10((e - 1) as nat)
    }
}

/// The character that writes the digit `d`.
pub open spec fn digit_char(d: nat) -> char
    recommends
        d < 10,
{
    (d + 48) as char
}

/// The decimal digits of `n`, most significant first, with zeros in front
/// until there are at least `width` of them, and at least one.
pub open spec fn padded_digits(n: nat, width: nat) -> Seq<char>
    decreases n, width,
{
    if n < 10 && width <= 1 {
        seq![digit_char(n)]
    } else {
        padded_digits(
            n / 10,
            if width == 0 {
                0
            } else {
                (width - 1) as nat
            },
        ).push(digit_char(n % 10))
    }
}

/// The sign that a literal starts with.
pub open spec fn sign_text(negative: bool) -> Seq<char> {
    if negative {
        seq!['-']
    } else {
        Seq::empty()
    }
}

/// The point and the digits behind it; nothing where there are none.
pub open spec fn fraction_text(fraction: Seq<char>) -> Seq<char> {
    if fraction.len() > 0 {
        seq!['.'] + fraction
    } else {
        Seq::empty()
    }
}

/// Whether `text` is the plain decimal literal made of an optional minus
/// sign, the digits `whole` (at least one) and, where `fraction` is not
/// empty, a point and the digits `fraction`.
pub open spec fn plain_literal(
    text: Seq<char>,
    negative: bool,
    whole: Seq<char>,
    fraction: Seq<char>,
) -> bool {
    &&& text == sign_text(negative) + whole + fraction_text(fraction)
    &&& whole.len() > 0
    &&& all_digits(whole)
    &&& all_digits(fraction)
}

/// Whether the literal's digits fit an `ExactNumericValue` without rounding.
pub open spec fn literal_fits(whole: Seq<char>, fraction: Seq<char>) -> bool {
    &&& fraction.len() <= MAX_SCALE
    &&& digits_value(whole + fraction) < mantissa_limit()
}

/// The number that a plain literal writes: all its digits as the mantissa,
/// the count of fractional digits as the scale.
pub open spec fn literal_value(
    negative: bool,
    whole: Seq<char>,
    fraction: Seq<char>,
) -> ExactNumericValue {
    let magnitude = digits_value(whole + fraction) as int;
    ExactNumericValue {
        mantissa: (if negative {
            -magnitude
        } else {
            magnitude
        }) as i128,
        scale: fraction.len() as u32,
    }
}

impl ExactNumericValue {
    /// Whether the mantissa fits 96 bits and the scale is at most 28: the
    /// numbers that can be read and written.
    pub open spec fn wf(self) -> bool {
        &&& -mantissa_limit() < self.mantissa < mantissa_limit()
        &&& self.scale <= MAX_SCALE
    }

    /// The magnitude of the mantissa.
    pub open spec fn magnitude(self) -> nat {
        if self.mantissa < 0 {
            (-self.mantissa) as nat
        } else {
            self.mantissa as nat
        }
    }

    /// Whether two numbers stand for the same quantity, whatever their
    /// scales: 1.5 and 1.50 do.
    pub open spec fn same_value(self, other: ExactNumericValue) -> bool {
        self.mantissa * pow10(other.scale as nat) == other.mantissa * pow10(self.scale as nat)
    }

    /// The digits of the number, with at least one in front of the point.
    pub open spec fn digits(self) -> Seq<char> {
        padded_digits(self.magnitude(), self.scale as nat + 1)
    }

    /// The digits in front of the point.
    pub open spec fn whole_digits(self) -> Seq<char> {
        self.digits().take(self.digits().len() - self.scale)
    }

    /// The digits behind the point: as many as the scale says.
    pub open spec fn fraction_digits(self) -> Seq<char> {
        self.digits().skip(self.digits().len() - self.scale)
    }

    /// The canonical text: a minus sign for a negative number, the whole part
    /// with at least one digit, and, for a scale above zero, a point and
    /// exactly `scale` fractional digits. No exponent, and no zero is
    /// dropped.
    pub open spec fn canonical_text(self) -> Seq<char> {
        sign_text(self.mantissa < 0) + self.whole_digits() + fraction_text(self.fraction_digits())
    }

    /// The number with the given mantissa and scale, where that is one that
    /// can be read and written.
    pub fn new(mantissa: i128, scale: u32) -> (made: Option<ExactNumericValue>)
        ensures
            made == (if (ExactNumericValue { mantissa, scale }).wf() {
                Some(ExactNumericValue { mantissa, scale })
            } else {
                None
            }),
    {
        if scale <= MAX_SCALE && -0x1_0000_0000_0000_0000_0000_0000 < mantissa && mantissa
            < 0x1_0000_0000_0000_0000_0000_0000 {
            Some(ExactNumericValue { mantissa, scale })
        } else {
            None
        }
    }

    /// Whether this number can be read and written.
    pub fn is_well_formed(&self) -> (fits: bool)
        ensures
            fits == self.wf(),
    {
        self.scale <= MAX_SCALE && -0x1_0000_0000_0000_0000_0000_0000 < self.mantissa
            && self.mantissa < 0x1_0000_0000_0000_0000_0000_0000
    }

    /// Zero with one fractional digit, written `0.0`: what a numeric field
    /// holds when its key may be left out and is.
    pub fn zero() -> (made: ExactNumericValue)
        ensures
            made == (ExactNumericValue { mantissa: 0, scale: 1 }),
            made.wf(),
    {
        ExactNumericValue { mantissa: 0, scale: 1 }
    }
}

/// Zero is one quantity at every scale: `0`, `0.0` and `0.00000000` have the
/// same value.
pub proof fn lemma_zeros_have_one_value(a: ExactNumericValue, b: ExactNumericValue)
    requires
        a.mantissa == 0,
        b.mantissa == 0,
    ensures
        a.same_value(b),
{
}

/// Numbers that are equal have the same value.
pub proof fn lemma_equal_numbers_have_one_value(a: ExactNumericValue, b: ExactNumericValue)
    requires
        a == b,
    ensures
        a.same_value(b),
{
}

/// Ten to any power is positive.
pub proof fn lemma_pow10_positive(e: nat)
    ensures
        pow10(e) > 0,
    decreases e,
{
    if e > 0 {
        lemma_pow10_positive((e - 1) as nat);
    }
}

/// Ten to a sum of powers is the product of the powers of ten.
pub proof fn lemma_pow10_add(a: nat, b: nat)
    ensures
        pow10(a + b) == pow10(a) * pow10(b),
    decreases a,
{
    if a == 0 {
        assert(pow10(0) == 1);
    } else {
        lemma_pow10_add((a - 1) as nat, b);
        assert(pow10(a + b) == 10 * pow10((a - 1 + b) as nat));
        assert(10 * (pow10((a - 1) as nat) * pow10(b)) == (10 * pow10((a - 1) as nat)) * pow10(b))
            by (nonlinear_arith);
    }
}

/// A magnitude without trailing zeros to drop is written in one way only:
/// two such magnitudes that stand for the same quantity at their scales are
/// the same magnitude at the same scale.
proof fn lemma_least_scale_is_unique(ma: nat, sa: nat, mb: nat, sb: nat)
    requires
        ma > 0,
        mb > 0,
        sa > 0 ==> ma % 10 != 0,
        sb > 0 ==> mb % 10 != 0,
        ma * pow10(sb) == mb * pow10(sa),
    ensures
        ma == mb,
        sa == sb,
{
    lemma_pow10_positive(sa);
    lemma_pow10_positive(sb);
    if sa < sb {
        let d = (sb - sa) as nat;
        lemma_pow10_add(sa, d);
        lemma_pow10_positive((d - 1) as nat);
        let (p, q, r) = (pow10(sa) as int, pow10((d - 1) as nat) as int, pow10(d) as int);
        assert(r == 10 * q);
        assert(mb == 10 * (ma * q)) by (nonlinear_arith)
            requires
                ma * (p * r) == mb * p,
                r == 10 * q,
                p > 0,
        ;
        assert(mb % 10 == 0);
    } else if sb < sa {
        let d = (sa - sb) as nat;
        lemma_pow10_add(sb, d);
        lemma_pow10_positive((d - 1) as nat);
        let (p, q, r) = (pow10(sb) as int, pow10((d - 1) as nat) as int, pow10(d) as int);
        assert(r == 10 * q);
        assert(ma == 10 * (mb * q)) by (nonlinear_arith)
            requires
                ma * p == mb * (p * r),
                r == 10 * q,
                p > 0,
        ;
        assert(ma % 10 == 0);
    } else {
        let p = pow10(sa) as int;
        assert(ma == mb) by (nonlinear_arith)
            requires
                ma * p == mb * p,
                p > 0,
        ;
    }
}

/// Dropping trailing zeros from both of two magnitudes does not change
/// whether they stand for the same quantity.
proof fn lemma_dropped_zeros_cancel(ma: nat, sa: nat, ka: nat, mb: nat, sb: nat, kb: nat)
    ensures
        ((ma * pow10(ka)) * pow10(sb + kb) == (mb * pow10(kb)) * pow10(sa + ka)) <==> (ma * pow10(sb)
            == mb * pow10(sa)),
{
    lemma_pow10_add(sb, kb);
    lemma_pow10_add(sa, ka);
    lemma_pow10_positive(ka);
    lemma_pow10_positive(kb);
    let (pka, pkb, psa, psb) = (
        pow10(ka) as int,
        pow10(kb) as int,
        pow10(sa) as int,
        pow10(sb) as int,
    );
    assert(((ma * pka) * (psb * pkb) == (mb * pkb) * (psa * pka)) <==> (ma * psb == mb * psa))
        by (nonlinear_arith)
        requires
            pka > 0,
            pkb > 0,
    ;
}

/// The magnitude of a mantissa.
fn magnitude_of(mantissa: i128) -> (magnitude: u128)
    ensures
        magnitude == (ExactNumericValue { mantissa, scale: 0 }).magnitude(),
{
    if mantissa >= 0 {
        mantissa as u128
    } else if mantissa == i128::MIN {
        0x8000_0000_0000_0000_0000_0000_0000_0000
    } else {
        (-mantissa) as u128
    }
}

/// Drops the trailing zeros that the scale allows to drop; zero drops its
/// whole scale.
fn drop_trailing_zeros(magnitude: u128, scale: u32) -> (least: (u128, u32))
    ensures
        least.1 <= scale,
        magnitude == least.0 * pow10((scale - least.1) as nat),
        (least.0 == 0) == (magnitude == 0),
        least.0 == 0 ==> least.1 == 0,
        least.1 > 0 ==> least.0 % 10 != 0,
{
    if magnitude == 0 {
        assert(0 * pow10(scale as nat) == 0) by (nonlinear_arith);
        return (0, 0);
    }
    let mut m: u128 = magnitude;
    let mut s: u32 = scale;
    assert(pow10((scale - s) as nat) == 1);
    while s > 0 && m % 10 == 0
        invariant
            s <= scale,
            m > 0,
            magnitude == m * pow10((scale - s) as nat),
        decreases s,
    {
        proof {
            let k = (scale - s) as nat;
            assert(pow10(k + 1) == 10 * pow10(k));
            assert((m / 10) * (10 * pow10(k)) == m * pow10(k)) by (nonlinear_arith)
                requires
                    m % 10 == 0,
            ;
        }
        m = m / 10;
        s = s - 1;
    }
    (m, s)
}

/// What `rust_decimal` reads `text` as: the mantissa and scale of the decimal
/// it parses, or nothing where it rejects the text.
pub uninterp spec fn decimal_from_str(text: Seq<char>) -> Option<ExactNumericValue>;

/// Whether `parsed` is the exact reading of `text` wherever `text` is a plain
/// literal whose digits fit.
pub open spec fn reads_plain_literals(text: Seq<char>, parsed: Option<ExactNumericValue>) -> bool {
    forall|negative: bool, whole: Seq<char>, fraction: Seq<char>|
        #[trigger] plain_literal(text, negative, whole, fraction) && literal_fits(whole, fraction)
            ==> parsed == Some(literal_value(negative, whole, fraction))
}

/// Whether `text` is the plain literal made of `negative`, `whole` and
/// `fraction`, followed by an exponent: the marker `e` or `E`, an optional
/// sign, and the digits `exponent` (at least one).
pub open spec fn exponent_literal(
    text: Seq<char>,
    negative: bool,
    whole: Seq<char>,
    fraction: Seq<char>,
    marker: char,
    sign: Seq<char>,
    exponent: Seq<char>,
) -> bool {
    &&& text == sign_text(negative) + whole + fraction_text(fraction) + seq![marker] + sign
        + exponent
    &&& whole.len() > 0
    &&& all_digits(whole)
    &&& all_digits(fraction)
    &&& (marker == 'e' || marker == 'E')
    &&& (sign == Seq::<char>::empty() || sign == seq!['+'] || sign == seq!['-'])
    &&& exponent.len() > 0
    &&& all_digits(exponent)
}

/// The number that a literal with an exponent writes, where it is one that
/// is held without rounding: the digits of the literal at a scale moved by
/// the exponent, or, where the exponent passes the fractional digits, the
/// digits times the power of ten that is left, at scale zero. Nothing
/// where the exponent is above 28, where the scale would pass 28, or where
/// the digits times ten to the exponent do not fit the mantissa.
pub open spec fn scaled_literal_value(
    negative: bool,
    whole: Seq<char>,
    fraction: Seq<char>,
    sign: Seq<char>,
    exponent: Seq<char>,
) -> Option<ExactNumericValue> {
    let base = literal_value(negative, whole, fraction);
    let e = digits_value(exponent);
    let s = fraction.len();
    if e > MAX_SCALE {
        None
    } else if sign == seq!['-'] {
        if s + e <= MAX_SCALE {
            Some(ExactNumericValue { mantissa: base.mantissa, scale: (s + e) as u32 })
        } else {
            None
        }
    } else if e <= s {
        Some(ExactNumericValue { mantissa: base.mantissa, scale: (s - e) as u32 })
    } else if digits_value(whole + fraction) * pow10(e) < mantissa_limit() {
        Some(
            ExactNumericValue {
                mantissa: (base.mantissa * pow10((e - s) as nat)) as i128,
                scale: 0,
            },
        )
    } else {
        None
    }
}

/// Whether `parsed` is the exact reading of `text` wherever `text` is a
/// literal with an exponent that is held without rounding.
pub open spec fn reads_exponent_literals(
    text: Seq<char>,
    parsed: Option<ExactNumericValue>,
) -> bool {
    forall|
        negative: bool,
        whole: Seq<char>,
        fraction: Seq<char>,
        marker: char,
        sign: Seq<char>,
        exponent: Seq<char>,
    |
        #[trigger] exponent_literal(text, negative, whole, fraction, marker, sign, exponent)
            && literal_fits(whole, fraction) && scaled_literal_value(
            negative,
            whole,
            fraction,
            sign,
            exponent,
        ) is Some ==> parsed == scaled_literal_value(negative, whole, fraction, sign, exponent)
}

/// Whether `c` can stand in a number that is written without an exponent: a
/// digit, the point, a sign or an underscore.
pub open spec fn is_number_char(c: char) -> bool {
    is_digit(c) || c == '.' || c == '+' || c == '-' || c == '_'
}

/// Whether `text` is rejected whatever else it holds: it has no `e` or `E`
/// that could make a number with an exponent of it, and it is empty or
/// holds a character that no number without exponent holds.
pub open spec fn surely_rejected(text: Seq<char>) -> bool {
    &&& forall|i: int| 0 <= i < text.len() ==> #[trigger] text[i] != 'e' && text[i] != 'E'
    &&& (text.len() == 0 || exists|i: int| 0 <= i < text.len() && !is_number_char(#[trigger] text[i]))
}

/// Calls `Decimal::from_str` of `rust_decimal` and hands back the mantissa and
/// scale of what it parsed.
///
/// Believed, not proved: the result depends on the text alone; a parsed
/// decimal has a mantissa of at most 96 bits and a scale of at most 28; a
/// plain literal (optional minus sign, digits, optionally a point and more
/// digits) whose digits fit is read digit for digit, without rounding; such
/// a literal followed by an exponent of at most 28 is read as the same
/// digits at the scale that the exponent moves it to, or, where the
/// exponent passes the fractional digits, as the digits times the power of
/// ten that is left, wherever that needs no rounding; and a text without
/// `e` or `E` that is empty or holds a character other than a digit, the
/// point, a sign or an underscore is rejected.
#[verifier::external_body]
fn parse_decimal(text: &str) -> (parsed: Option<ExactNumericValue>)
    ensures
        parsed == decimal_from_str(text@),
        parsed matches Some(value) ==> value.wf(),
        reads_plain_literals(text@, parsed),
        reads_exponent_literals(text@, parsed),
        surely_rejected(text@) ==> parsed is None,
{
    match Decimal::from_str(text) {
        Ok(decimal) => Some(
            ExactNumericValue { mantissa: decimal.mantissa(), scale: decimal.scale() },
        ),
        Err(_) => None,
    }
}

/// Calls `Decimal::from_i128_with_scale` of `rust_decimal` and formats the
/// decimal it gives with `to_string`, that is with its `Display`.
///
/// Believed, not proved: the text is the canonical one, with a minus sign for
/// a negative mantissa, the digits of the mantissa, zeros in front until one
/// digit stands before the point, and the point before the last `scale`
/// digits. The mantissa and the scale must be ones that a `Decimal` holds:
/// the constructor panics on others.
#[verifier::external_body]
fn format_decimal(value: &ExactNumericValue) -> (text: String)
    requires
        value.wf(),
    ensures
        text@ == value.canonical_text(),
{
    Decimal::from_i128_with_scale(value.mantissa, value.scale).to_string()
}

/// The digits of a number are digits, at least `width` of them, and write the
/// number.
pub proof fn lemma_padded_digits(n: nat, width: nat)
    ensures
        padded_digits(n, width).len() >= width,
        padded_digits(n, width).len() >= 1,
        all_digits(padded_digits(n, width)),
        digits_value(padded_digits(n, width)) == n,
    decreases n, width,
{
    let digits = padded_digits(n, width);
    if n < 10 && width <= 1 {
        assert(digits.drop_last() =~= Seq::<char>::empty());
        assert(digits.last() == digit_char(n));
        assert(digit_value(digit_char(n)) == n);
        assert(digits_value(digits.drop_last()) == 0);
    } else {
        let rest: nat = if width == 0 {
            0
        } else {
            (width - 1) as nat
        };
        let front = padded_digits(n / 10, rest);
        lemma_padded_digits(n / 10, rest);
        assert(digits.drop_last() =~= front);
        assert(digits.last() == digit_char(n % 10));
        assert(is_digit(digit_char(n % 10)));
        assert(digit_value(digit_char(n % 10)) == n % 10);
        assert forall|i: int| 0 <= i < digits.len() implies is_digit(#[trigger] digits[i]) by {
            if i < front.len() {
                assert(digits[i] == front[i]);
            }
        }
    }
}

/// The canonical text of a number is a plain literal whose digits fit and
/// which writes that very number: nothing is lost in writing.
pub proof fn lemma_canonical_text_is_exact(value: ExactNumericValue)
    requires
        value.wf(),
    ensures
        plain_literal(
            value.canonical_text(),
            value.mantissa < 0,
            value.whole_digits(),
            value.fraction_digits(),
        ),
        literal_fits(value.whole_digits(), value.fraction_digits()),
        literal_value(value.mantissa < 0, value.whole_digits(), value.fraction_digits()) == value,
{
    lemma_padded_digits(value.magnitude(), value.scale as nat + 1);
    let digits = value.digits();
    let split = digits.len() - value.scale;
    assert(value.whole_digits() + value.fraction_digits() =~= digits);
    assert(value.fraction_digits().len() == value.scale);
    assert(value.whole_digits().len() == split);
}

impl ExactNumericValue {
    /// Reads a number from text.
    pub fn parse(text: &str) -> (parsed: Option<ExactNumericValue>)
        ensures
            parsed == decimal_from_str(text@),
            parsed matches Some(value) ==> value.wf(),
            reads_plain_literals(text@, parsed),
            reads_exponent_literals(text@, parsed),
            surely_rejected(text@) ==> parsed is None,
    {
        parse_decimal(text)
    }

    /// Tells whether two numbers stand for the same quantity, whatever their
    /// scales: 1.5 and 1.50 do, and so do 0 and 0.00.
    pub fn same_value_as(&self, other: &ExactNumericValue) -> (same: bool)
        ensures
            same == self.same_value(*other),
    {
        let a = drop_trailing_zeros(magnitude_of(self.mantissa), self.scale);
        let b = drop_trailing_zeros(magnitude_of(other.mantissa), other.scale);
        proof {
            let (ka, kb) = ((self.scale - a.1) as nat, (other.scale - b.1) as nat);
            let (pa, pb) = (pow10(self.scale as nat) as int, pow10(other.scale as nat) as int);
            let (x, y) = (self.mantissa as int, other.mantissa as int);
            lemma_pow10_positive(self.scale as nat);
            lemma_pow10_positive(other.scale as nat);
            lemma_dropped_zeros_cancel(a.0 as nat, a.1 as nat, ka, b.0 as nat, b.1 as nat, kb);
            if a.0 != 0 && b.0 != 0 && a.0 as nat * pow10(b.1 as nat) == b.0 as nat * pow10(
                a.1 as nat,
            ) {
                lemma_least_scale_is_unique(a.0 as nat, a.1 as nat, b.0 as nat, b.1 as nat);
            }
            assert(x == 0 ==> ((x * pb == y * pa) <==> y == 0)) by (nonlinear_arith)
                requires
                    pa > 0,
            ;
            assert(y == 0 ==> ((x * pb == y * pa) <==> x == 0)) by (nonlinear_arith)
                requires
                    pb > 0,
            ;
            assert((x < 0 && y > 0) || (x > 0 && y < 0) ==> x * pb != y * pa) by (nonlinear_arith)
                requires
                    pa > 0,
                    pb > 0,
            ;
            assert(x < 0 && y < 0 ==> ((x * pb == y * pa) <==> ((-x) * pb == (-y) * pa)))
                by (nonlinear_arith);
        }
        if a.0 == 0 || b.0 == 0 {
            a.0 == 0 && b.0 == 0
        } else {
            (self.mantissa < 0) == (other.mantissa < 0) && a.0 == b.0 && a.1 == b.1
        }
    }

    /// Writes the number as its canonical text.
    pub fn to_text(&self) -> (text: String)
        requires
            self.wf(),
        ensures
            text@ == self.canonical_text(),
    {
        format_decimal(self)
    }
}

} // verus!
