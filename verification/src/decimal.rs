//! Exact base-10 numbers: prices, sizes and amounts. A value is a whole
//! number of units of 10^-scale, so nothing is lost between the wire and the
//! caller.

use crate::codec::{FromJson, ToJson};
use crate::json::{Json, JsonValue};
use vstd::prelude::*;

verus! {

/// The largest mantissa: 2^96 - 1.
pub const MAX_MANTISSA: i128 = 79_228_162_514_264_337_593_543_950_335i128;

/// The largest scale.
pub const MAX_SCALE: u32 = 28u32;

/// The number `mantissa` * 10^-`scale`.
#[derive(Clone, Copy, Debug, PartialEq, Eq, Structural)]
pub struct Decimal {
    pub mantissa: i128,
    pub scale: u32,
}

impl DeepView for Decimal {
    type V = Decimal;

    open spec fn deep_view(&self) -> Decimal {
        *self
    }
}

/// What `rust_decimal` reads from a text: mantissa and scale, or nothing
/// where the text is no number that it takes.
pub uninterp spec fn decimal_of_text(text: Seq<char>) -> Option<(i128, u32)>;

/// What `rust_decimal` writes for a mantissa and a scale: the text, or
/// nothing where it does not take the pair.
pub uninterp spec fn text_of_decimal(mantissa: i128, scale: u32) -> Option<Seq<char>>;

/// Calls `Decimal::from_str` of `rust_decimal`, and hands back what
/// `mantissa()` and `scale()` give for the number read. The contract names
/// the outcome [`decimal_of_text`].
#[verifier::external_body]
pub(crate) fn decimal_from_str(text: &str) -> (r: Option<(i128, u32)>)
    ensures
        r == decimal_of_text(text@),
{
    match text.parse::<rust_decimal::Decimal>() {
        Ok(d) => Some((d.mantissa(), d.scale())),
        Err(_) => None,
    }
}

/// Calls `Decimal::try_from_i128_with_scale` of `rust_decimal` and writes the
/// number with its `to_string`. The contract names the outcome
/// [`text_of_decimal`].
#[verifier::external_body]
pub(crate) fn decimal_to_string(mantissa: i128, scale: u32) -> (r: Option<String>)
    ensures
        match r {
            Some(s) => text_of_decimal(mantissa, scale) == Some(s@),
            None => text_of_decimal(mantissa, scale) is None,
        },
{
    match rust_decimal::Decimal::try_from_i128_with_scale(mantissa, scale) {
        Ok(d) => Some(d.to_string()),
        Err(_) => None,
    }
}

impl Decimal {
    /// Whether a mantissa and a scale are within what a decimal holds: 96
    /// bits and a sign, and at most 28 digits after the point.
    pub open spec fn in_range(mantissa: i128, scale: u32) -> bool {
        -MAX_MANTISSA <= mantissa <= MAX_MANTISSA && scale <= MAX_SCALE
    }

    /// The decimal of a mantissa and a scale that were read, if they are in
    /// range.
    pub open spec fn of_parts(parts: Option<(i128, u32)>) -> Option<Decimal> {
        match parts {
            Some((mantissa, scale)) => if Self::in_range(mantissa, scale) {
                Some(Decimal { mantissa, scale })
            } else {
                None
            },
            None => None,
        }
    }

    /// The decimal that a text writes.
    pub open spec fn of_text(text: Seq<char>) -> Option<Decimal> {
        Self::of_parts(decimal_of_text(text))
    }

    /// The document that a number on the wire is read from: a JSON number or
    /// a JSON string.
    pub open spec fn of_json(j: JsonValue) -> Option<Decimal> {
        match j {
            JsonValue::Number(n) => Self::of_text(n),
            JsonValue::String(s) => Self::of_text(s),
            _ => None,
        }
    }

    /// The number `mantissa` * 10^-`scale`, if the two are in range.
    pub fn new(mantissa: i128, scale: u32) -> (r: Option<Decimal>)
        ensures
            r == Self::of_parts(Some((mantissa, scale))),
    {
        if -MAX_MANTISSA <= mantissa && mantissa <= MAX_MANTISSA && scale <= MAX_SCALE {
            Some(Decimal { mantissa, scale })
        } else {
            None
        }
    }

    /// The decimal of what was read from a text.
    pub fn from_parts(parts: Option<(i128, u32)>) -> (r: Option<Decimal>)
        ensures
            r == Self::of_parts(parts),
    {
        match parts {
            Some((mantissa, scale)) => Self::new(mantissa, scale),
            None => None,
        }
    }

    /// Reads a decimal from its text.
    pub fn parse(text: &str) -> (r: Option<Decimal>)
        ensures
            r == Self::of_text(text@),
    {
        Self::from_parts(decimal_from_str(text))
    }

    /// Writes the decimal as text.
    pub fn to_string(&self) -> (r: Option<String>)
        ensures
            match r {
                Some(s) => text_of_decimal(self.mantissa, self.scale) == Some(s@),
                None => text_of_decimal(self.mantissa, self.scale) is None,
            },
    {
        decimal_to_string(self.mantissa, self.scale)
    }
}

impl FromJson for Decimal {
    open spec fn decoded(j: JsonValue) -> Option<Decimal> {
        Decimal::of_json(j)
    }

    fn from_json(j: &Json) -> (r: Option<Decimal>) {
        match j {
            Json::Number(n) => Decimal::parse(n.as_str()),
            Json::String(s) => Decimal::parse(s.as_str()),
            _ => None,
        }
    }
}

impl ToJson for Decimal {
    open spec fn encoded(v: Decimal) -> Option<JsonValue> {
        match text_of_decimal(v.mantissa, v.scale) {
            Some(text) => Some(JsonValue::Number(text)),
            None => None,
        }
    }

    fn to_json(&self) -> (r: Option<Json>) {
        match self.to_string() {
            Some(text) => Some(Json::Number(text)),
            None => None,
        }
    }
}

} // verus!
