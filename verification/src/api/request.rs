//! What every endpoint declares: where it is, how it is called, what it
//! sends and what it answers.

use crate::api::query::{build_url, built_url, Parameter, Url};
use crate::codec::{FromJson, ToJson};
use crate::error::{outcome, owned, ApiError, ApiErrorView, Method};
use crate::json::{
    json_of_text, nested_within, parse_json, print_json, text_of_json, Json, JsonValue,
    MAX_NESTING,
};
use vstd::prelude::*;

verus! {

/// The answer of an endpoint that answers with nothing.
#[derive(Clone, Copy, Debug, Default, PartialEq, Eq)]
pub struct Empty;

impl DeepView for Empty {
    type V = Empty;

    open spec fn deep_view(&self) -> Empty {
        *self
    }
}

impl FromJson for Empty {
    open spec fn decoded(j: JsonValue) -> Option<Empty> {
        match j {
            JsonValue::Null => Some(Empty),
            _ => None,
        }
    }

    fn from_json(j: &Json) -> (r: Option<Empty>) {
        if j.is_null() {
            Some(Empty)
        } else {
            None
        }
    }
}

/// What a document that was read stands for in `T`, or the error that holds
/// the text `body`: both where the text is no document and where the
/// document does not have the shape of `T`.
pub open spec fn decoded_document<T: FromJson>(parsed: Option<JsonValue>, body: Seq<char>)
    -> Result<T::V, ApiErrorView> {
    match parsed {
        Some(j) => match T::decoded(j) {
            Some(v) => Ok(v),
            None => Err(ApiErrorView::Decode { raw: body }),
        },
        None => Err(ApiErrorView::Decode { raw: body }),
    }
}

/// What a body stands for in `T`, read as JSON.
pub open spec fn decoded_json<T: FromJson>(body: Seq<char>) -> Result<T::V, ApiErrorView> {
    decoded_document::<T>(json_of_text(body), body)
}

/// What the body of an endpoint that answers with nothing stands for: the
/// empty text is the answer, any other text is an error that holds it.
pub open spec fn empty_response(body: Seq<char>) -> Result<Empty, ApiErrorView> {
    if body.len() == 0 {
        Ok(Empty)
    } else {
        Err(ApiErrorView::UnexpectedBody { raw: body })
    }
}

/// The body that a document is written as, or the error of a request that
/// has no form on the wire: there is no document, the document is nested too
/// deep, or it does not write.
pub open spec fn written_body(j: Option<JsonValue>) -> Result<Option<Seq<char>>, ApiErrorView> {
    match j {
        Some(j) => if nested_within(j, MAX_NESTING as nat) {
            match text_of_json(j) {
                Some(text) => Ok(Some(text)),
                None => Err(ApiErrorView::Serialization),
            }
        } else {
            Err(ApiErrorView::Serialization)
        },
        None => Err(ApiErrorView::Serialization),
    }
}

/// The body that a value is written as.
pub open spec fn encoded_body<T: ToJson>(v: T::V) -> Result<Option<Seq<char>>, ApiErrorView> {
    written_body(T::encoded(v))
}

/// Reads a value of `T` out of a document that was read from `body`.
pub fn decode_document<T: FromJson>(parsed: Option<Json>, body: &str) -> (r: Result<T, ApiError>)
    ensures
        outcome(r) == decoded_document::<T>(crate::codec::json_of(parsed), body@),
{
    match parsed {
        Some(j) => match T::from_json(&j) {
            Some(v) => Ok(v),
            None => Err(ApiError::Decode { raw: owned(body) }),
        },
        None => Err(ApiError::Decode { raw: owned(body) }),
    }
}

/// Reads a value of `T` out of a body, as JSON.
pub fn decode_json<T: FromJson>(body: &str) -> (r: Result<T, ApiError>)
    ensures
        outcome(r) == decoded_json::<T>(body@),
{
    decode_document::<T>(parse_json(body), body)
}

/// Reads the answer of an endpoint that answers with nothing.
pub fn expect_empty(body: &str) -> (r: Result<Empty, ApiError>)
    ensures
        outcome(r) == empty_response(body@),
{
    if body.is_empty() {
        Ok(Empty)
    } else {
        Err(ApiError::UnexpectedBody { raw: owned(body) })
    }
}

/// Writes a document as the body of a request.
pub fn write_body(j: Option<Json>) -> (r: Result<Option<String>, ApiError>)
    ensures
        outcome(r) == written_body(crate::codec::json_of(j)),
{
    match j {
        Some(j) => if j.is_nested_within(MAX_NESTING) {
            match print_json(&j) {
                Some(text) => Ok(Some(text)),
                None => Err(ApiError::Serialization),
            }
        } else {
            Err(ApiError::Serialization)
        },
        None => Err(ApiError::Serialization),
    }
}

/// Writes a value as the body of a request.
pub fn encode_body<T: ToJson>(v: &T) -> (r: Result<Option<String>, ApiError>)
    ensures
        outcome(r) == encoded_body::<T>(v.deep_view()),
{
    write_body(v.to_json())
}

/// No parameters.
pub fn no_params() -> (r: Vec<Option<(String, String)>>)
    ensures
        r.deep_view() == Seq::<Parameter>::empty(),
{
    let r: Vec<Option<(String, String)>> = Vec::new();
    assert(r.deep_view() =~= Seq::<Parameter>::empty());
    r
}

/// Where an endpoint is and how it is called.
pub struct Place {
    pub path: Seq<char>,
    pub method: Method,
    pub is_private: bool,
}

/// One endpoint of the exchange. A value of the type is one call: it names
/// its parameters and writes its body; the type says where the endpoint is,
/// how it is called, whether the call is signed, and what the answer is.
pub trait ApiRequest: Sized {
    /// The path of the endpoint.
    const PATH: &'static str;

    /// Whether a call is signed.
    const IS_PRIVATE: bool = false;

    /// The method of a call.
    const METHOD: Method = Method::Get;

    /// What the endpoint answers.
    type Response: FromJson;

    /// The path, the method and the privacy of the endpoint, for contracts.
    spec fn place() -> Place;

    /// The constants of the endpoint are what [`ApiRequest::place`] says.
    proof fn lemma_place()
        ensures
            Self::PATH@ == Self::place().path,
            Self::METHOD == Self::place().method,
            Self::IS_PRIVATE == Self::place().is_private,
    ;

    /// The parameters of the call, in the order in which the endpoint names
    /// them; one without a value is `None`.
    open spec fn params(&self) -> Seq<Parameter> {
        Seq::empty()
    }

    /// The body of the call, where it has one.
    open spec fn body_text(&self) -> Result<Option<Seq<char>>, ApiErrorView> {
        Ok(None)
    }

    /// What a body that the endpoint answered with stands for.
    open spec fn response(body: Seq<char>) -> Result<<Self::Response as DeepView>::V, ApiErrorView> {
        decoded_json::<Self::Response>(body)
    }

    /// The URL of the call: the address of the endpoint, and behind it the
    /// parameters that have a value.
    fn url(&self) -> (r: Result<Url, ApiError>)
        ensures
            outcome(r) == built_url(Self::place().path, self.params()),
    {
        proof {
            Self::lemma_place();
        }
        let params = self.url_params();
        build_url(Self::PATH, &params)
    }

    /// The parameters of the call.
    fn url_params(&self) -> (r: Vec<Option<(String, String)>>)
        ensures
            r.deep_view() == self.params(),
    ;

    /// The body of the call.
    fn body(&self) -> (r: Result<Option<String>, ApiError>)
        ensures
            outcome(r) == self.body_text(),
    ;

    /// Reads the answer of the endpoint from the body of a response.
    fn deserialize_response_body(body: &str) -> (r: Result<Self::Response, ApiError>)
        ensures
            outcome(r) == Self::response(body@),
    ;
}

} // verus!
