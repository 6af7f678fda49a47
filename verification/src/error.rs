//! The one error type of the client.

use vstd::prelude::*;

verus! {

/// The HTTP method of a request.
#[derive(Clone, Copy, Debug, PartialEq, Eq, Structural)]
pub enum Method {
    Get,
    Post,
}

/// Why a call failed. Every failure of a call is one of these; nothing is
/// retried, and a call either gives a decoded value or one error.
#[derive(Clone, Debug, PartialEq, Eq)]
pub enum ApiError {
    /// A private endpoint was called without a configured secret.
    Auth,
    /// The address of the request is not a valid URL.
    UrlBuild { input: String },
    /// The fields of the request have no form on the wire.
    Serialization,
    /// The exchange answered with a status outside 200-299.
    Http { status: u16, method: Method, url: String, request_body: Option<String>, body: String },
    /// A text does not have the shape that was declared for it.
    Decode { raw: String },
    /// An endpoint that answers with an empty body answered with this text.
    UnexpectedBody { raw: String },
}

/// The model of an [`ApiError`].
pub enum ApiErrorView {
    Auth,
    UrlBuild { input: Seq<char> },
    Serialization,
    Http {
        status: u16,
        method: Method,
        url: Seq<char>,
        request_body: Option<Seq<char>>,
        body: Seq<char>,
    },
    Decode { raw: Seq<char> },
    UnexpectedBody { raw: Seq<char> },
}

impl DeepView for ApiError {
    type V = ApiErrorView;

    open spec fn deep_view(&self) -> ApiErrorView {
        match self {
            ApiError::Auth => ApiErrorView::Auth,
            ApiError::UrlBuild { input } => ApiErrorView::UrlBuild { input: input@ },
            ApiError::Serialization => ApiErrorView::Serialization,
            ApiError::Http { status, method, url, request_body, body } => ApiErrorView::Http {
                status: *status,
                method: *method,
                url: url@,
                request_body: match request_body {
                    Some(b) => Some(b@),
                    None => None,
                },
                body: body@,
            },
            ApiError::Decode { raw } => ApiErrorView::Decode { raw: raw@ },
            ApiError::UnexpectedBody { raw } => ApiErrorView::UnexpectedBody { raw: raw@ },
        }
    }
}

/// The model of the outcome of a call.
pub open spec fn outcome<T: DeepView>(r: Result<T, ApiError>) -> Result<T::V, ApiErrorView> {
    match r {
        Ok(v) => Ok(v.deep_view()),
        Err(e) => Err(e.deep_view()),
    }
}

/// A copy of a string slice.
pub fn owned(s: &str) -> (r: String)
    ensures
        r@ == s@,
{
    s.to_owned()
}

} // verus!
