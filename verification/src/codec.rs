//! The scalar codec: one JSON value of uncertain shape in, one exact typed
//! value out, and the reverse for numbers that are sent as strings.

use crate::errors::Error;
use crate::json::JsonValue;
use crate::number::{
    decimal_from_str, exponent_literal, lemma_canonical_text_is_exact, lemma_pow10_add,
    lemma_pow10_positive, literal_fits, literal_value, mantissa_limit, plain_literal, pow10,
    reads_exponent_literals, reads_plain_literals, scaled_literal_value, surely_rejected,
    ExactNumericValue,
};
use crate::text::digits_value;
use crate::text::{
    parse_digits, parse_unsigned, spec_parse_digits, spec_parse_unsigned, str_eq,
};
use vstd::prelude::*;

verus! {

/// The text in which a value writes a number: that of a string or of a JSON
/// number. Any other value writes none.
pub open spec fn numeric_text(value: JsonValue) -> Option<Seq<char>> {
    match value {
        JsonValue::Text(text) => Some(text@),
        JsonValue::Number(text) => Some(text@),
        _ => None,
    }
}

/// What a parse of a number's text makes of the field: the number, or
/// `MalformedNumber` where the text was rejected.
pub open spec fn number_from_parse(parsed: Option<ExactNumericValue>) -> Result<
    ExactNumericValue,
    Error,
> {
    match parsed {
        Some(number) => Ok(number),
        None => Err(Error::MalformedNumber),
    }
}

/// The exact number that a value decodes to.
pub open spec fn spec_decode_exact_number(value: JsonValue) -> Result<ExactNumericValue, Error> {
    match numeric_text(value) {
        Some(text) => number_from_parse(decimal_from_str(text)),
        None => Err(Error::MalformedNumber),
    }
}

/// The exact number that an optional field decodes to: none where the key is
/// absent or holds null.
pub open spec fn spec_decode_exact_number_optional(value: Option<JsonValue>) -> Result<
    Option<ExactNumericValue>,
    Error,
> {
    match value {
        None => Ok(None),
        Some(JsonValue::Null) => Ok(None),
        Some(present) => match spec_decode_exact_number(present) {
            Ok(number) => Ok(Some(number)),
            Err(error) => Err(error),
        },
    }
}

/// The integer that a value decodes to: a string may start with a plus sign,
/// a JSON number is digits only.
pub open spec fn spec_decode_integer(value: JsonValue) -> Result<u64, Error> {
    match value {
        JsonValue::Text(text) => match spec_parse_unsigned(text@) {
            Some(number) => Ok(number),
            None => Err(Error::MalformedNumber),
        },
        JsonValue::Number(text) => match spec_parse_digits(text@) {
            Some(number) => Ok(number),
            None => Err(Error::MalformedNumber),
        },
        _ => Err(Error::MalformedNumber),
    }
}

/// The flag that a value decodes to.
pub open spec fn spec_decode_boolean(value: JsonValue) -> Result<bool, Error> {
    match value {
        JsonValue::Bool(flag) => Ok(flag),
        JsonValue::Text(text) => if text@ == "true"@ {
            Ok(true)
        } else if text@ == "false"@ {
            Ok(false)
        } else {
            Err(Error::UnexpectedShape)
        },
        _ => Err(Error::UnexpectedShape),
    }
}

/// What is known of a decoded number beyond its being the reading of the
/// text: it can be written again, a plain literal whose digits fit was read
/// digit for digit, and text that could be no number was rejected.
pub open spec fn faithful_reading(
    value: JsonValue,
    decoded: Result<ExactNumericValue, Error>,
) -> bool {
    &&& decoded matches Ok(number) ==> number.wf()
    &&& numeric_text(value) matches Some(text) ==> (surely_rejected(text) ==> decoded is Err)
    &&& numeric_text(value) matches Some(text) ==> reads_exponent_literals(
        text,
        match decoded {
            Ok(number) => Some(number),
            Err(_) => None,
        },
    )
    &&& numeric_text(value) matches Some(text) ==> reads_plain_literals(
        text,
        match decoded {
            Ok(number) => Some(number),
            Err(_) => None,
        },
    )
}

/// Turns the outcome of parsing a number's text into the outcome of the
/// field.
pub fn exact_number_from_parse(parsed: Option<ExactNumericValue>) -> (decoded: Result<
    ExactNumericValue,
    Error,
>)
    ensures
        decoded == number_from_parse(parsed),
{
    match parsed {
        Some(number) => Ok(number),
        None => Err(Error::MalformedNumber),
    }
}

/// Decodes a string that holds a base-10 number, or a JSON number, to an
/// exact number. Anything else, and text that is no number, is a
/// `MalformedNumber`.
///
/// The canonical text of a number decodes to that number again, from a
/// string as from a JSON number.
pub fn decode_exact_number(value: &JsonValue) -> (decoded: Result<ExactNumericValue, Error>)
    ensures
        decoded == spec_decode_exact_number(*value),
        faithful_reading(*value, decoded),
        forall|number: ExactNumericValue|
            number.wf() && numeric_text(*value) == Some(#[trigger] number.canonical_text())
                ==> decoded == Ok::<ExactNumericValue, Error>(number),
{
    match value {
        JsonValue::Text(text) => {
            let parsed = ExactNumericValue::parse(text.as_str());
            proof {
                lemma_round_trip(text@, parsed);
            }
            exact_number_from_parse(parsed)
        },
        JsonValue::Number(text) => {
            let parsed = ExactNumericValue::parse(text.as_str());
            proof {
                lemma_round_trip(text@, parsed);
            }
            exact_number_from_parse(parsed)
        },
        _ => Err(Error::MalformedNumber),
    }
}

/// A reading that takes plain literals digit for digit gives every number
/// back from its canonical text.
pub proof fn lemma_round_trip(text: Seq<char>, parsed: Option<ExactNumericValue>)
    requires
        reads_plain_literals(text, parsed),
    ensures
        forall|number: ExactNumericValue|
            number.wf() && text == #[trigger] number.canonical_text() ==> parsed == Some(number),
{
    assert forall|number: ExactNumericValue|
        number.wf() && text == #[trigger] number.canonical_text() implies parsed == Some(
        number,
    ) by {
        lemma_canonical_text_is_exact(number);
        assert(plain_literal(
            text,
            number.mantissa < 0,
            number.whole_digits(),
            number.fraction_digits(),
        ));
    }
}

/// Decodes a numeric field that may be missing: an absent key and a null give
/// no value, anything else is decoded as `decode_exact_number` does.
pub fn decode_exact_number_optional(value: Option<&JsonValue>) -> (decoded: Result<
    Option<ExactNumericValue>,
    Error,
>)
    ensures
        decoded == spec_decode_exact_number_optional(
            match value {
                Some(present) => Some(*present),
                None => None,
            },
        ),
        decoded matches Ok(Some(number)) ==> number.wf(),
{
    match value {
        None => Ok(None),
        Some(JsonValue::Null) => Ok(None),
        Some(present) => match decode_exact_number(present) {
            Ok(number) => Ok(Some(number)),
            Err(error) => Err(error),
        },
    }
}

/// Decodes an integer that the exchange writes as a number or as a quoted
/// string.
pub fn decode_integer_from_string_or_number(value: &JsonValue) -> (decoded: Result<u64, Error>)
    ensures
        decoded == spec_decode_integer(*value),
{
    let parsed = match value {
        JsonValue::Text(text) => parse_unsigned(text.as_str()),
        JsonValue::Number(text) => parse_digits(text.as_str()),
        _ => None,
    };
    match parsed {
        Some(number) => Ok(number),
        None => Err(Error::MalformedNumber),
    }
}

/// Decodes a flag that the exchange writes as a JSON boolean or as the string
/// `"true"` or `"false"`.
pub fn decode_boolean_from_string_or_native(value: &JsonValue) -> (decoded: Result<bool, Error>)
    ensures
        decoded == spec_decode_boolean(*value),
{
    match value {
        JsonValue::Bool(flag) => Ok(*flag),
        JsonValue::Text(text) => {
            if str_eq(text.as_str(), "true") {
                Ok(true)
            } else if str_eq(text.as_str(), "false") {
                Ok(false)
            } else {
                Err(Error::UnexpectedShape)
            }
        },
        _ => Err(Error::UnexpectedShape),
    }
}

/// Writes a number as its canonical text, for requests that send numbers as
/// strings.
pub fn encode_exact_number(number: &ExactNumericValue) -> (text: String)
    requires
        number.wf(),
    ensures
        text@ == number.canonical_text(),
{
    number.to_text()
}

/// A string and a JSON number written with the same text decode alike.
pub proof fn lemma_string_and_number_agree(quoted: JsonValue, bare: JsonValue)
    requires
        quoted is Text,
        bare is Number,
        quoted->Text_0@ == bare->Number_0@,
    ensures
        spec_decode_exact_number(quoted) == spec_decode_exact_number(bare),
{
}

/// A string and a JSON number that write the same quantity as plain literals
/// decode to numbers of the same value, however many zeros either carries.
pub proof fn lemma_equal_quantities_agree(
    quoted: JsonValue,
    from_quoted: Result<ExactNumericValue, Error>,
    bare: JsonValue,
    from_bare: Result<ExactNumericValue, Error>,
    quoted_parts: (bool, Seq<char>, Seq<char>),
    bare_parts: (bool, Seq<char>, Seq<char>),
)
    requires
        quoted is Text,
        bare is Number,
        faithful_reading(quoted, from_quoted),
        faithful_reading(bare, from_bare),
        plain_literal(quoted->Text_0@, quoted_parts.0, quoted_parts.1, quoted_parts.2),
        plain_literal(bare->Number_0@, bare_parts.0, bare_parts.1, bare_parts.2),
        literal_fits(quoted_parts.1, quoted_parts.2),
        literal_fits(bare_parts.1, bare_parts.2),
        literal_value(quoted_parts.0, quoted_parts.1, quoted_parts.2).same_value(
            literal_value(bare_parts.0, bare_parts.1, bare_parts.2),
        ),
    ensures
        from_quoted is Ok,
        from_bare is Ok,
        from_quoted->Ok_0.same_value(from_bare->Ok_0),
{
}

/// Whether the number `quoted` is the number `base` times ten to the power
/// that the sign and `e` give: the two sides of the equation are multiplied
/// out, so that no fraction is written.
pub open spec fn is_base_times_power(
    quoted: ExactNumericValue,
    base: ExactNumericValue,
    sign: Seq<char>,
    e: nat,
) -> bool {
    if sign == seq!['-'] {
        quoted.mantissa * pow10(base.scale as nat) * pow10(e) == base.mantissa * pow10(
            quoted.scale as nat,
        )
    } else {
        quoted.mantissa * pow10(base.scale as nat) == base.mantissa * pow10(e) * pow10(
            quoted.scale as nat,
        )
    }
}

/// A string that writes a quantity as a plain literal and a JSON number that
/// writes the same quantity with an exponent decode to numbers of the same
/// value, wherever the number with the exponent is held without rounding.
pub proof fn lemma_number_with_exponent_agrees(
    quoted: JsonValue,
    from_quoted: Result<ExactNumericValue, Error>,
    bare: JsonValue,
    from_bare: Result<ExactNumericValue, Error>,
    quoted_parts: (bool, Seq<char>, Seq<char>),
    bare_parts: (bool, Seq<char>, Seq<char>),
    marker: char,
    sign: Seq<char>,
    exponent: Seq<char>,
)
    requires
        quoted is Text,
        bare is Number,
        faithful_reading(quoted, from_quoted),
        faithful_reading(bare, from_bare),
        plain_literal(quoted->Text_0@, quoted_parts.0, quoted_parts.1, quoted_parts.2),
        literal_fits(quoted_parts.1, quoted_parts.2),
        exponent_literal(
            bare->Number_0@,
            bare_parts.0,
            bare_parts.1,
            bare_parts.2,
            marker,
            sign,
            exponent,
        ),
        literal_fits(bare_parts.1, bare_parts.2),
        scaled_literal_value(bare_parts.0, bare_parts.1, bare_parts.2, sign, exponent) is Some,
        is_base_times_power(
            literal_value(quoted_parts.0, quoted_parts.1, quoted_parts.2),
            literal_value(bare_parts.0, bare_parts.1, bare_parts.2),
            sign,
            digits_value(exponent),
        ),
    ensures
        from_quoted is Ok,
        from_bare is Ok,
        from_quoted->Ok_0.same_value(from_bare->Ok_0),
{
    let l = literal_value(quoted_parts.0, quoted_parts.1, quoted_parts.2);
    let base = literal_value(bare_parts.0, bare_parts.1, bare_parts.2);
    let v = scaled_literal_value(bare_parts.0, bare_parts.1, bare_parts.2, sign, exponent)->Some_0;
    assert(from_quoted == Ok::<ExactNumericValue, Error>(l));
    assert(from_bare == Ok::<ExactNumericValue, Error>(v));
    let e = digits_value(exponent);
    let s = bare_parts.2.len();
    assert(base.scale == s);
    let (lm, bm) = (l.mantissa as int, base.mantissa as int);
    let pl = pow10(l.scale as nat) as int;
    lemma_pow10_positive(e);
    lemma_pow10_positive(s);
    let (pe, ps) = (pow10(e) as int, pow10(s) as int);
    if sign == seq!['-'] {
        lemma_pow10_add(s, e);
        assert(lm * (ps * pe) == (lm * ps) * pe) by (nonlinear_arith);
    } else if e <= s {
        let d = (s - e) as nat;
        lemma_pow10_add(d, e);
        let pd = pow10(d) as int;
        assert(lm * pd == bm * pl) by (nonlinear_arith)
            requires
                lm * (pd * pe) == bm * pe * pl,
                pe > 0,
        ;
    } else {
        let d = (e - s) as nat;
        lemma_pow10_add(d, s);
        lemma_pow10_positive(d);
        let pd = pow10(d) as int;
        let magnitude = digits_value(bare_parts.1 + bare_parts.2) as int;
        assert(magnitude * pd < mantissa_limit()) by (nonlinear_arith)
            requires
                magnitude * (pd * ps) < mantissa_limit(),
                magnitude >= 0,
                pd > 0,
                ps >= 1,
        ;
        assert(bm * pd == (if bare_parts.0 {
            -(magnitude * pd)
        } else {
            magnitude * pd
        })) by (nonlinear_arith)
            requires
                bm == (if bare_parts.0 {
                    -magnitude
                } else {
                    magnitude
                }),
        ;
        assert(v.mantissa == bm * pd);
        assert(pow10(0) == 1);
        assert(lm * 1 == (bm * pd) * pl) by (nonlinear_arith)
            requires
                lm * ps == bm * (pd * ps) * pl,
                ps > 0,
        ;
    }
}

/// Whatever decodes as a number decodes to the same number as an optional
/// field, and an absent key and a null both decode to no value.
pub proof fn lemma_optional_agrees(value: JsonValue)
    ensures
        spec_decode_exact_number_optional(None) == Ok::<Option<ExactNumericValue>, Error>(None),
        spec_decode_exact_number_optional(Some(JsonValue::Null)) == Ok::<
            Option<ExactNumericValue>,
            Error,
        >(None),
        spec_decode_exact_number(value) matches Ok(number)
            ==> spec_decode_exact_number_optional(Some(value)) == Ok::<
            Option<ExactNumericValue>,
            Error,
        >(Some(number)),
{
}

} // verus!
