//! Typed, validated records for an exchange's futures REST API and user-data
//! WebSocket stream, decoded from a generic JSON value tree.
//!
//! The exchange writes numbers sometimes as JSON numbers and sometimes as
//! strings, and adds enumeration members without notice. The modules here
//! absorb both:
//!
//! - `json` is the value tree that every decoder reads, `text` the handful
//!   of text primitives under it, and `number` the exact decimal number that
//!   every price, quantity, rate and balance is held in;
//! - `codec` turns one scalar of uncertain shape into an exact typed value,
//!   and writes a number back as its canonical text;
//! - `decode` says what it is for a type to be decoded from a value, and
//!   holds the rules by which a record reads its fields: required, optional,
//!   defaulted, listed;
//! - `rest_model`, `futures::rest_model` and `futures::ws_model` are the
//!   records themselves, with their enumerations and tagged unions.
//!
//! Nothing here does any input or output, and every decoder is all or
//! nothing: it gives the whole record or one error.

pub mod codec;
pub mod decode;
pub mod errors;
pub mod futures;
pub mod json;
pub mod number;
pub mod rest_model;
pub mod text;
