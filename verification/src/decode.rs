//! Decoding by type: what every decodable type states about itself, the
//! scalars as the simplest decodable types, and the rules by which a record
//! reads its fields from an object.

use crate::codec::{
    decode_boolean_from_string_or_native, decode_exact_number,
    decode_integer_from_string_or_number, spec_decode_boolean, spec_decode_exact_number,
    spec_decode_integer,
};
use crate::errors::Error;
use crate::json::JsonValue;
use crate::number::ExactNumericValue;
use crate::text::{parse_digits, parse_signed, spec_parse_digits, spec_parse_signed};
use vstd::prelude::*;

verus! {

/// A type that is decoded from one JSON value, all or nothing.
pub trait Decode: Sized {
    /// Whether `value` is a wire form of this type.
    spec fn accepts(value: JsonValue) -> bool;

    /// The error that a value which is no wire form is rejected with.
    spec fn rejection(value: JsonValue) -> Error;

    /// Whether `decoded` is what the wire form `value` stands for.
    spec fn describes(value: JsonValue, decoded: Self) -> bool;

    /// Decodes `value`, or says why it cannot be.
    fn decode(value: &JsonValue) -> (outcome: Result<Self, Error>)
        ensures
            match outcome {
                Ok(decoded) => Self::accepts(*value) && Self::describes(*value, decoded),
                Err(error) => !Self::accepts(*value) && error == Self::rejection(*value),
            },
    ;
}

impl Decode for ExactNumericValue {
    open spec fn accepts(value: JsonValue) -> bool {
        spec_decode_exact_number(value) is Ok
    }

    open spec fn rejection(value: JsonValue) -> Error {
        Error::MalformedNumber
    }

    open spec fn describes(value: JsonValue, decoded: Self) -> bool {
        spec_decode_exact_number(value) == Ok::<ExactNumericValue, Error>(decoded) && decoded.wf()
    }

    fn decode(value: &JsonValue) -> (outcome: Result<Self, Error>) {
        decode_exact_number(value)
    }
}

impl Decode for String {
    open spec fn accepts(value: JsonValue) -> bool {
        value is Text
    }

    open spec fn rejection(value: JsonValue) -> Error {
        Error::UnexpectedShape
    }

    open spec fn describes(value: JsonValue, decoded: Self) -> bool {
        value is Text && decoded@ == value->Text_0@
    }

    fn decode(value: &JsonValue) -> (outcome: Result<Self, Error>) {
        match value {
            JsonValue::Text(text) => Ok(text.clone()),
            _ => Err(Error::UnexpectedShape),
        }
    }
}

impl Decode for bool {
    open spec fn accepts(value: JsonValue) -> bool {
        value is Bool
    }

    open spec fn rejection(value: JsonValue) -> Error {
        Error::UnexpectedShape
    }

    open spec fn describes(value: JsonValue, decoded: Self) -> bool {
        value == JsonValue::Bool(decoded)
    }

    fn decode(value: &JsonValue) -> (outcome: Result<Self, Error>) {
        match value {
            JsonValue::Bool(flag) => Ok(*flag),
            _ => Err(Error::UnexpectedShape),
        }
    }
}

/// The unsigned integer that a JSON number writes, where it writes one of at
/// most `limit`: digits only, no sign, point or exponent.
pub open spec fn spec_unsigned(value: JsonValue, limit: u64) -> Option<u64> {
    match value {
        JsonValue::Number(text) => match spec_parse_digits(text@) {
            Some(number) => if number <= limit {
                Some(number)
            } else {
                None
            },
            None => None,
        },
        _ => None,
    }
}

/// Reads a JSON number as an unsigned integer of at most `limit`.
pub fn decode_unsigned(value: &JsonValue, limit: u64) -> (decoded: Option<u64>)
    ensures
        decoded == spec_unsigned(*value, limit),
{
    match value {
        JsonValue::Number(text) => match parse_digits(text.as_str()) {
            Some(number) => if number <= limit {
                Some(number)
            } else {
                None
            },
            None => None,
        },
        _ => None,
    }
}

impl Decode for u64 {
    open spec fn accepts(value: JsonValue) -> bool {
        spec_unsigned(value, u64::MAX) is Some
    }

    open spec fn rejection(value: JsonValue) -> Error {
        Error::UnexpectedShape
    }

    open spec fn describes(value: JsonValue, decoded: Self) -> bool {
        spec_unsigned(value, u64::MAX) == Some(decoded)
    }

    fn decode(value: &JsonValue) -> (outcome: Result<Self, Error>) {
        match decode_unsigned(value, u64::MAX) {
            Some(number) => Ok(number),
            None => Err(Error::UnexpectedShape),
        }
    }
}

impl Decode for u16 {
    open spec fn accepts(value: JsonValue) -> bool {
        spec_unsigned(value, 0xffff) is Some
    }

    open spec fn rejection(value: JsonValue) -> Error {
        Error::UnexpectedShape
    }

    open spec fn describes(value: JsonValue, decoded: Self) -> bool {
        spec_unsigned(value, 0xffff) == Some(decoded as u64)
    }

    fn decode(value: &JsonValue) -> (outcome: Result<Self, Error>) {
        match decode_unsigned(value, 0xffff) {
            Some(number) => Ok(number as u16),
            None => Err(Error::UnexpectedShape),
        }
    }
}

impl Decode for u8 {
    open spec fn accepts(value: JsonValue) -> bool {
        spec_unsigned(value, 0xff) is Some
    }

    open spec fn rejection(value: JsonValue) -> Error {
        Error::UnexpectedShape
    }

    open spec fn describes(value: JsonValue, decoded: Self) -> bool {
        spec_unsigned(value, 0xff) == Some(decoded as u64)
    }

    fn decode(value: &JsonValue) -> (outcome: Result<Self, Error>) {
        match decode_unsigned(value, 0xff) {
            Some(number) => Ok(number as u8),
            None => Err(Error::UnexpectedShape),
        }
    }
}

/// The signed integer of 32 bits that a JSON number writes: digits, with an
/// optional minus sign in front.
pub open spec fn spec_signed_32(value: JsonValue) -> Option<i32> {
    match value {
        JsonValue::Number(text) => match spec_parse_signed(text@) {
            Some(number) => if i32::MIN <= number <= i32::MAX {
                Some(number as i32)
            } else {
                None
            },
            None => None,
        },
        _ => None,
    }
}

impl Decode for i32 {
    open spec fn accepts(value: JsonValue) -> bool {
        spec_signed_32(value) is Some
    }

    open spec fn rejection(value: JsonValue) -> Error {
        Error::UnexpectedShape
    }

    open spec fn describes(value: JsonValue, decoded: Self) -> bool {
        spec_signed_32(value) == Some(decoded)
    }

    fn decode(value: &JsonValue) -> (outcome: Result<Self, Error>) {
        match value {
            JsonValue::Number(text) => match parse_signed(text.as_str()) {
                Some(number) => if -0x8000_0000 <= number && number <= 0x7fff_ffff {
                    Ok(number as i32)
                } else {
                    Err(Error::UnexpectedShape)
                },
                None => Err(Error::UnexpectedShape),
            },
            _ => Err(Error::UnexpectedShape),
        }
    }
}

/// Whether the object has the key and holds a wire form of `T` under it.
pub open spec fn field_accepts<T: Decode>(object: JsonValue, key: &'static str) -> bool {
    object.spec_get(key@) matches Some(value) && T::accepts(value)
}

/// Why a required field is rejected: its key is missing, or its value is
/// rejected by `T`.
pub open spec fn field_rejection<T: Decode>(object: JsonValue, key: &'static str) -> Error {
    match object.spec_get(key@) {
        Some(value) => T::rejection(value),
        None => Error::MissingRequiredField(key),
    }
}

/// Whether `decoded` is what the object holds under the key.
pub open spec fn field_describes<T: Decode>(
    object: JsonValue,
    key: &'static str,
    decoded: T,
) -> bool {
    object.spec_get(key@) matches Some(value) && T::describes(value, decoded)
}

/// Decodes a required field.
pub fn field<T: Decode>(object: &JsonValue, key: &'static str) -> (outcome: Result<T, Error>)
    ensures
        match outcome {
            Ok(decoded) => field_accepts::<T>(*object, key) && field_describes::<T>(
                *object,
                key,
                decoded,
            ),
            Err(error) => !field_accepts::<T>(*object, key) && error == field_rejection::<T>(
                *object,
                key,
            ),
        },
{
    match object.get(key) {
        Some(value) => T::decode(value),
        None => Err(Error::MissingRequiredField(key)),
    }
}

/// Whether the object leaves the key out or holds null under it.
pub open spec fn field_is_absent(object: JsonValue, key: &'static str) -> bool {
    object.spec_get(key@) is None || object.spec_get(key@) == Some(JsonValue::Null)
}

/// Whether an optional field can be decoded: it is left out, or null, or a
/// wire form of `T`.
pub open spec fn optional_accepts<T: Decode>(object: JsonValue, key: &'static str) -> bool {
    field_is_absent(object, key) || field_accepts::<T>(object, key)
}

/// Whether `decoded` is what the object holds under an optional key: nothing
/// where the key is left out or null.
pub open spec fn optional_describes<T: Decode>(
    object: JsonValue,
    key: &'static str,
    decoded: Option<T>,
) -> bool {
    match decoded {
        None => field_is_absent(object, key),
        Some(present) => !field_is_absent(object, key) && field_describes::<T>(
            object,
            key,
            present,
        ),
    }
}

/// Decodes a field that may be left out or null.
pub fn optional_field<T: Decode>(object: &JsonValue, key: &'static str) -> (outcome: Result<
    Option<T>,
    Error,
>)
    ensures
        match outcome {
            Ok(decoded) => optional_accepts::<T>(*object, key) && optional_describes::<T>(
                *object,
                key,
                decoded,
            ),
            Err(error) => !optional_accepts::<T>(*object, key) && error == field_rejection::<T>(
                *object,
                key,
            ),
        },
{
    match object.get(key) {
        None => Ok(None),
        Some(JsonValue::Null) => Ok(None),
        Some(value) => match T::decode(value) {
            Ok(decoded) => Ok(Some(decoded)),
            Err(error) => Err(error),
        },
    }
}

/// What a numeric field reads as that stands for zero when its key is left
/// out.
pub open spec fn spec_number_or_zero(object: JsonValue, key: &'static str) -> Result<
    ExactNumericValue,
    Error,
> {
    match object.spec_get(key@) {
        Some(value) => spec_decode_exact_number(value),
        None => Ok(ExactNumericValue { mantissa: 0, scale: 1 }),
    }
}

/// Decodes a numeric field whose key may be left out, in which case it is
/// zero. A key that is there is decoded as any number, null included.
pub fn number_or_zero(object: &JsonValue, key: &'static str) -> (outcome: Result<
    ExactNumericValue,
    Error,
>)
    ensures
        outcome == spec_number_or_zero(*object, key),
        outcome matches Ok(number) ==> number.wf(),
{
    match object.get(key) {
        Some(value) => decode_exact_number(value),
        None => Ok(ExactNumericValue::zero()),
    }
}

/// What a required integer field reads as that may be written as a number or
/// as a quoted string.
pub open spec fn spec_flexible_integer(object: JsonValue, key: &'static str) -> Result<
    u64,
    Error,
> {
    match object.spec_get(key@) {
        Some(value) => spec_decode_integer(value),
        None => Err(Error::MissingRequiredField(key)),
    }
}

/// Decodes a required integer field that may be written as a number or as a
/// quoted string.
pub fn flexible_integer(object: &JsonValue, key: &'static str) -> (outcome: Result<u64, Error>)
    ensures
        outcome == spec_flexible_integer(*object, key),
{
    match object.get(key) {
        Some(value) => decode_integer_from_string_or_number(value),
        None => Err(Error::MissingRequiredField(key)),
    }
}

/// What a required flag reads as that may be written as a boolean or as a
/// quoted string.
pub open spec fn spec_flexible_flag(object: JsonValue, key: &'static str) -> Result<bool, Error> {
    match object.spec_get(key@) {
        Some(value) => spec_decode_boolean(value),
        None => Err(Error::MissingRequiredField(key)),
    }
}

/// Decodes a required flag that may be written as a boolean or as a quoted
/// string.
pub fn flexible_flag(object: &JsonValue, key: &'static str) -> (outcome: Result<bool, Error>)
    ensures
        outcome == spec_flexible_flag(*object, key),
{
    match object.get(key) {
        Some(value) => decode_boolean_from_string_or_native(value),
        None => Err(Error::MissingRequiredField(key)),
    }
}

/// The position of the first item that `T` rejects, or the number of items
/// where it accepts them all.
pub open spec fn first_rejected<T: Decode>(items: Seq<JsonValue>) -> nat
    decreases items.len(),
{
    if items.len() == 0 || !T::accepts(items[0]) {
        0
    } else {
        1 + first_rejected::<T>(items.drop_first())
    }
}

/// Whether `T` accepts every item.
pub open spec fn all_accepted<T: Decode>(items: Seq<JsonValue>) -> bool {
    first_rejected::<T>(items) == items.len()
}

/// Whether `decoded` holds, in order, what each item stands for.
pub open spec fn items_describe<T: Decode>(items: Seq<JsonValue>, decoded: Seq<T>) -> bool {
    &&& decoded.len() == items.len()
    &&& forall|i: int| 0 <= i < items.len() ==> T::describes(items[i], #[trigger] decoded[i])
}

/// The first rejected item is where the items before it are all accepted and
/// it is not; where all are accepted there is none.
pub proof fn lemma_first_rejected<T: Decode>(items: Seq<JsonValue>, n: int)
    requires
        0 <= n <= items.len(),
        forall|j: int| 0 <= j < n ==> T::accepts(#[trigger] items[j]),
        n < items.len() ==> !T::accepts(items[n]),
    ensures
        first_rejected::<T>(items) == n,
    decreases n,
{
    if n > 0 {
        let rest = items.drop_first();
        assert(T::accepts(items[0]));
        assert forall|j: int| 0 <= j < n - 1 implies T::accepts(#[trigger] rest[j]) by {
            assert(rest[j] == items[j + 1]);
        }
        if n < items.len() {
            assert(rest[n - 1] == items[n]);
        }
        lemma_first_rejected::<T>(rest, n - 1);
    }
}

/// What the first rejected item is: it lies within the items or right behind
/// them, every item before it is accepted, and it is not. All items are
/// accepted exactly where each one is.
pub proof fn lemma_first_rejected_is_first<T: Decode>(items: Seq<JsonValue>)
    ensures
        first_rejected::<T>(items) <= items.len(),
        forall|j: int| 0 <= j < first_rejected::<T>(items) ==> T::accepts(#[trigger] items[j]),
        first_rejected::<T>(items) < items.len() ==> !T::accepts(
            items[first_rejected::<T>(items) as int],
        ),
        all_accepted::<T>(items) <==> forall|i: int|
            0 <= i < items.len() ==> T::accepts(#[trigger] items[i]),
    decreases items.len(),
{
    if items.len() > 0 && T::accepts(items[0]) {
        let rest = items.drop_first();
        lemma_first_rejected_is_first::<T>(rest);
        assert forall|j: int| 0 <= j < first_rejected::<T>(items) implies T::accepts(
            #[trigger] items[j],
        ) by {
            if j > 0 {
                assert(items[j] == rest[j - 1]);
            }
        }
        if first_rejected::<T>(items) < items.len() {
            assert(items[first_rejected::<T>(items) as int] == rest[first_rejected::<T>(rest) as int]);
        }
    }
}

/// One item of a sequence that was rejected, and where it stands.
#[derive(Debug, Clone, PartialEq, Eq)]
pub struct ElementError {
    pub index: usize,
    pub error: Error,
}

/// Decodes the items of an array in order and stops at the first that is
/// rejected: the result is every item decoded, or the position and the error
/// of that first one. No item after it is looked at.
pub fn decode_elements<T: Decode>(items: &Vec<JsonValue>) -> (outcome: Result<Vec<T>, ElementError>)
    ensures
        match outcome {
            Ok(decoded) => all_accepted::<T>(items@) && items_describe::<T>(items@, decoded@),
            Err(failure) => {
                &&& !all_accepted::<T>(items@)
                &&& failure.index == first_rejected::<T>(items@)
                &&& failure.index < items@.len()
                &&& failure.error == T::rejection(items@[failure.index as int])
            },
        },
{
    let mut decoded: Vec<T> = Vec::new();
    let mut i: usize = 0;
    while i < items.len()
        invariant
            i <= items@.len(),
            decoded@.len() == i,
            forall|j: int| 0 <= j < i ==> T::accepts(#[trigger] items@[j]),
            forall|j: int| 0 <= j < i ==> T::describes(items@[j], #[trigger] decoded@[j]),
        decreases items@.len() - i,
    {
        match T::decode(&items[i]) {
            Ok(item) => {
                decoded.push(item);
            },
            Err(error) => {
                proof {
                    lemma_first_rejected::<T>(items@, i as int);
                }
                return Err(ElementError { index: i, error });
            },
        }
        i += 1;
    }
    proof {
        lemma_first_rejected::<T>(items@, items@.len() as int);
    }
    Ok(decoded)
}

/// Why a batch of records was rejected.
#[derive(Debug, Clone, PartialEq, Eq)]
pub enum BatchError {
    /// The payload is no array.
    NotAnArray,
    /// One record was rejected. The records before it were not, and those
    /// after it were not looked at.
    Element(ElementError),
}

/// Decodes a batch of records, each by itself: the answer is every record, or
/// the one failure, with the position of the record that it belongs to.
pub fn decode_batch<T: Decode>(value: &JsonValue) -> (outcome: Result<Vec<T>, BatchError>)
    ensures
        match outcome {
            Ok(decoded) => value matches JsonValue::Array(items) && all_accepted::<T>(items@)
                && items_describe::<T>(items@, decoded@),
            Err(BatchError::NotAnArray) => !(value is Array),
            Err(BatchError::Element(failure)) => {
                &&& value matches JsonValue::Array(items)
                &&& !all_accepted::<T>(items@)
                &&& failure.index == first_rejected::<T>(items@)
                &&& failure.index < items@.len()
                &&& failure.error == T::rejection(items@[failure.index as int])
            },
        },
{
    match value {
        JsonValue::Array(items) => match decode_elements::<T>(items) {
            Ok(decoded) => Ok(decoded),
            Err(failure) => Err(BatchError::Element(failure)),
        },
        _ => Err(BatchError::NotAnArray),
    }
}

/// Whether the object holds under the key an array whose items `T` accepts,
/// every one.
pub open spec fn list_accepts<T: Decode>(object: JsonValue, key: &'static str) -> bool {
    object.spec_get(key@) matches Some(JsonValue::Array(items)) && all_accepted::<T>(items@)
}

/// Why a list field is rejected: its key is missing, its value is no array,
/// or an item is rejected, in which case the error is that of the first such
/// item.
pub open spec fn list_rejection<T: Decode>(object: JsonValue, key: &'static str) -> Error {
    match object.spec_get(key@) {
        Some(JsonValue::Array(items)) => T::rejection(items@[first_rejected::<T>(items@) as int]),
        Some(_) => Error::UnexpectedShape,
        None => Error::MissingRequiredField(key),
    }
}

/// Whether `decoded` holds, in order, what the items of the array under the
/// key stand for.
pub open spec fn list_describes<T: Decode>(
    object: JsonValue,
    key: &'static str,
    decoded: Vec<T>,
) -> bool {
    object.spec_get(key@) matches Some(JsonValue::Array(items)) && items_describe::<T>(
        items@,
        decoded@,
    )
}

/// Decodes a required field that holds an array of `T`.
pub fn list_field<T: Decode>(object: &JsonValue, key: &'static str) -> (outcome: Result<
    Vec<T>,
    Error,
>)
    ensures
        match outcome {
            Ok(decoded) => list_accepts::<T>(*object, key) && list_describes::<T>(
                *object,
                key,
                decoded,
            ),
            Err(error) => !list_accepts::<T>(*object, key) && error == list_rejection::<T>(
                *object,
                key,
            ),
        },
{
    match object.get(key) {
        Some(JsonValue::Array(items)) => match decode_elements::<T>(items) {
            Ok(decoded) => Ok(decoded),
            Err(failure) => Err(failure.error),
        },
        Some(_) => Err(Error::UnexpectedShape),
        None => Err(Error::MissingRequiredField(key)),
    }
}

} // verus!
