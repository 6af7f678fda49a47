//! The instants of the wire. The exchange writes an instant either with its
//! offset from UTC or, more often, without one; both forms give the same
//! kind of value.

use crate::codec::FromJson;
use crate::error::{owned, ApiError, ApiErrorView};
use crate::json::{Json, JsonValue};
use vstd::prelude::*;
use vstd::string::StringExecFns;

pub mod timestamp;
pub mod timestamp_option;

verus! {

/// An instant: whole seconds since 1970-01-01T00:00:00Z, and the nanoseconds
/// into that second.
#[derive(Clone, Copy, Debug, PartialEq, Eq, Structural)]
pub struct Timestamp {
    pub seconds: i64,
    pub nanos: u32,
}

impl DeepView for Timestamp {
    type V = Timestamp;

    open spec fn deep_view(&self) -> Timestamp {
        *self
    }
}

/// What `chrono` reads from a text as an instant in UTC: the seconds since
/// the epoch and the nanoseconds into the second, or nothing where the text
/// is no instant with an offset.
pub uninterp spec fn utc_of_text(text: Seq<char>) -> Option<(i64, u32)>;

/// Calls `DateTime::<Utc>::from_str` of `chrono`, and hands back what
/// `timestamp()` and `timestamp_subsec_nanos()` give for the instant read.
/// The contract names the outcome [`utc_of_text`].
#[verifier::external_body]
pub(crate) fn utc_from_str(text: &str) -> (r: Option<(i64, u32)>)
    ensures
        r == utc_of_text(text@),
{
    match text.parse::<chrono::DateTime<chrono::Utc>>() {
        Ok(t) => Some((t.timestamp(), t.timestamp_subsec_nanos())),
        Err(_) => None,
    }
}

impl Timestamp {
    /// The instant of a pair that was read.
    pub open spec fn of_parts(parts: (i64, u32)) -> Timestamp {
        Timestamp { seconds: parts.0, nanos: parts.1 }
    }

    /// The instant that a text writes, given what the text reads as with its
    /// own offset (`first`) and what it reads as with the offset of UTC put
    /// behind it (`second`). The first reading wins; the second counts only
    /// where the first fails.
    pub open spec fn of_attempts(first: Option<(i64, u32)>, second: Option<(i64, u32)>) -> Option<
        Timestamp,
    > {
        match first {
            Some(parts) => Some(Self::of_parts(parts)),
            None => match second {
                Some(parts) => Some(Self::of_parts(parts)),
                None => None,
            },
        }
    }

    /// The instant that a text writes.
    pub open spec fn of_text(text: Seq<char>) -> Option<Timestamp> {
        Self::of_attempts(utc_of_text(text), utc_of_text(text + "+00:00"@))
    }

    /// The outcome of reading `text`: the instant, or the error that holds
    /// the text.
    pub open spec fn read(text: Seq<char>) -> Result<Timestamp, ApiErrorView> {
        match Self::of_text(text) {
            Some(t) => Ok(t),
            None => Err(ApiErrorView::Decode { raw: text }),
        }
    }

    /// The instant of what the second reading gave, or the error that holds
    /// the text that was read.
    pub fn from_fallback(second: Option<(i64, u32)>, value: &str) -> (r: Result<Timestamp, ApiError>)
        ensures
            match second {
                Some(parts) => r == Ok::<Timestamp, ApiError>(Self::of_parts(parts)),
                None => r matches Err(e) && e.deep_view() == (ApiErrorView::Decode {
                    raw: value@,
                }),
            },
    {
        match second {
            Some((seconds, nanos)) => Ok(Timestamp { seconds, nanos }),
            None => Err(ApiError::Decode { raw: owned(value) }),
        }
    }

    /// Reads an instant. The text is first read as it stands; if that fails
    /// it is read once more with `+00:00` put behind it.
    pub fn parse(value: &str) -> (r: Result<Timestamp, ApiError>)
        ensures
            crate::error::outcome(r) == Self::read(value@),
    {
        match utc_from_str(value) {
            Some((seconds, nanos)) => Ok(Timestamp { seconds, nanos }),
            None => {
                let mut with_offset = String::new();
                with_offset.append(value);
                with_offset.append("+00:00");
                assert(with_offset@ =~= value@ + "+00:00"@);
                Self::from_fallback(utc_from_str(with_offset.as_str()), value)
            },
        }
    }
}

impl FromJson for Timestamp {
    open spec fn decoded(j: JsonValue) -> Option<Timestamp> {
        match j {
            JsonValue::String(s) => Timestamp::of_text(s),
            _ => None,
        }
    }

    fn from_json(j: &Json) -> (r: Option<Timestamp>) {
        match j {
            Json::String(s) => match Timestamp::parse(s.as_str()) {
                Ok(t) => Some(t),
                Err(_) => None,
            },
            _ => None,
        }
    }
}

} // verus!
