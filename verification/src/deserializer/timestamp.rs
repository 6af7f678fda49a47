//! Instants that must be there.

use crate::deserializer::Timestamp;
use crate::error::{outcome, ApiError};
use vstd::prelude::*;

verus! {

/// Reads an instant from its text on the wire.
pub fn deserialize(value: &str) -> (r: Result<Timestamp, ApiError>)
    ensures
        outcome(r) == Timestamp::read(value@),
{
    Timestamp::parse(value)
}

} // verus!
