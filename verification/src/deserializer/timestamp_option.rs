//! Instants that may be absent.

use crate::deserializer::Timestamp;
use crate::error::{ApiError, ApiErrorView};
use vstd::prelude::*;

verus! {

/// The outcome of reading an instant that may be absent: no text is no
/// instant, and is not read.
pub open spec fn read(value: Option<Seq<char>>) -> Result<Option<Timestamp>, ApiErrorView> {
    match value {
        None => Ok(None),
        Some(text) => match Timestamp::read(text) {
            Ok(t) => Ok(Some(t)),
            Err(e) => Err(e),
        },
    }
}

/// Reads an instant that may be absent from the wire.
pub fn deserialize(value: Option<&str>) -> (r: Result<Option<Timestamp>, ApiError>)
    ensures
        crate::error::outcome(r) == read(crate::json::text_of(value)),
{
    match value {
        None => Ok(None),
        Some(text) => match Timestamp::parse(text) {
            Ok(t) => Ok(Some(t)),
            Err(e) => Err(e),
        },
    }
}

} // verus!
