//! A call from end to end. The client does not talk to the network: it says
//! what is to be sent, and what the answer that came back means. Between the
//! two stands whoever sends the request.
//!
//! A call is built when its URL and its body are computed, signed when the
//! headers of the signature are added (a private call only), and sent when
//! the request is handed to the transport. [`Client::prepare`] takes a call
//! that far. An answer then ends the call in one of two ways, and
//! [`Client::receive`] says in which: decoded, with the value that the body
//! stands for, or rejected, with the error of a status that is no success.
//! Nothing is kept between calls and nothing is tried twice.

use crate::api::query::{built_url, Url, UrlView};
use crate::api::request::{decode_json, decoded_json, ApiRequest};
use crate::api::sign::{
    build_signed_headers, build_signing_text, sign, signature, signed_headers, signing_text,
};
use crate::error::{outcome, owned, ApiError, ApiErrorView, Method};
use vstd::prelude::*;

verus! {

/// A request as it is handed to the transport.
#[derive(Clone, Debug, PartialEq, Eq)]
pub struct HttpRequest {
    pub method: Method,
    pub url: String,
    pub headers: Vec<(String, String)>,
    pub body: Option<String>,
}

/// The model of an [`HttpRequest`].
pub struct HttpRequestView {
    pub method: Method,
    pub url: Seq<char>,
    pub headers: Seq<(Seq<char>, Seq<char>)>,
    pub body: Option<Seq<char>>,
}

impl DeepView for HttpRequest {
    type V = HttpRequestView;

    open spec fn deep_view(&self) -> HttpRequestView {
        HttpRequestView {
            method: self.method,
            url: self.url@,
            headers: self.headers.deep_view(),
            body: self.body.deep_view(),
        }
    }
}

/// Whether a status says that the request was served.
pub open spec fn is_success(status: u16) -> bool {
    200 <= status < 300
}

/// The request of a call that is not signed: the method and the URL, and
/// nothing else.
pub open spec fn plain_request(method: Method, url: UrlView) -> HttpRequestView {
    HttpRequestView { method, url: url.text, headers: Seq::empty(), body: None }
}

/// The request of a signed call, or the error of a call that cannot be
/// signed: there is no secret, or the secret gives no signature.
pub open spec fn signed_request(
    api_key: Seq<char>,
    secret: Option<Seq<char>>,
    timestamp: i64,
    method: Method,
    path: Seq<char>,
    url: UrlView,
    body: Option<Seq<char>>,
) -> Result<HttpRequestView, ApiErrorView> {
    match secret {
        None => Err(ApiErrorView::Auth),
        Some(secret) => match signature(
            secret,
            signing_text(timestamp, method, path, url.query, body),
        ) {
            None => Err(ApiErrorView::Auth),
            Some(sign) => Ok(
                HttpRequestView {
                    method,
                    url: url.text,
                    headers: signed_headers(api_key, timestamp, sign, body is Some),
                    body,
                },
            ),
        },
    }
}

/// What the answer to a request means, given what its body stands for: a
/// status of success gives that; any other status is an error that holds
/// the status, the request and the body, whatever the body is.
pub open spec fn concluded<V>(
    sent: HttpRequestView,
    status: u16,
    body: Seq<char>,
    decoded: Result<V, ApiErrorView>,
) -> Result<V, ApiErrorView> {
    if is_success(status) {
        decoded
    } else {
        Err(
            ApiErrorView::Http {
                status,
                method: sent.method,
                url: sent.url,
                request_body: sent.body,
                body,
            },
        )
    }
}

/// The error of a request that the exchange did not serve.
pub fn rejected(sent: &HttpRequest, status: u16, body: &str) -> (e: ApiError)
    ensures
        e.deep_view() == (ApiErrorView::Http {
            status,
            method: sent.method,
            url: sent.url@,
            request_body: sent.body.deep_view(),
            body: body@,
        }),
{
    ApiError::Http {
        status,
        method: sent.method,
        url: sent.url.clone(),
        request_body: sent.body.clone(),
        body: owned(body),
    }
}

/// The request of a call to a public endpoint that is made without a
/// client: a GET of the URL, whatever method the endpoint declares.
pub open spec fn public_request_of<T: ApiRequest>(request: &T) -> Result<
    HttpRequestView,
    ApiErrorView,
> {
    match built_url(T::place().path, request.params()) {
        Ok(url) => Ok(plain_request(Method::Get, url)),
        Err(e) => Err(e),
    }
}

/// Says what is to be sent for a call to a public endpoint that is made
/// without a client.
pub fn public_request<T: ApiRequest>(request: &T) -> (r: Result<HttpRequest, ApiError>)
    ensures
        outcome(r) == public_request_of(request),
{
    let url = request.url()?;
    let headers: Vec<(String, String)> = Vec::new();
    assert(headers.deep_view() =~= Seq::<(Seq<char>, Seq<char>)>::empty());
    Ok(HttpRequest { method: Method::Get, url: url.text, headers, body: None })
}

/// Says what the answer to a call that was made without a client means. The
/// body is read as JSON, whatever the endpoint declares.
pub fn public_response<T: ApiRequest>(sent: &HttpRequest, status: u16, body: &str) -> (r: Result<
    T::Response,
    ApiError,
>)
    ensures
        outcome(r) == concluded(
            sent.deep_view(),
            status,
            body@,
            decoded_json::<T::Response>(body@),
        ),
{
    if 200 <= status && status < 300 {
        decode_json::<T::Response>(body)
    } else {
        Err(rejected(sent, status, body))
    }
}

/// The key and the secret of an account. Both are given when the client is
/// made, and the client never changes: any number of calls may use it at the
/// same time.
pub struct Client {
    api_key: String,
    secret: Option<String>,
}

impl Client {
    /// The key of the account.
    pub closed spec fn key(&self) -> Seq<char> {
        self.api_key@
    }

    /// The secret of the account, where it has one.
    pub closed spec fn secret_text(&self) -> Option<Seq<char>> {
        match self.secret {
            Some(s) => Some(s@),
            None => None,
        }
    }

    /// A client for an account. Without a secret it serves the public
    /// endpoints only.
    pub fn new(api_key: String, secret: Option<String>) -> (client: Client)
        ensures
            client.key() == api_key@,
            client.secret_text() == secret.deep_view(),
    {
        Client { api_key, secret }
    }

    /// The request of a call at a time: for a public endpoint the method and
    /// the URL; for a private one the body and the headers of the signature
    /// as well. The errors come in this order: the URL, the body, the secret.
    pub open spec fn prepared<T: ApiRequest>(&self, request: &T, timestamp: i64) -> Result<
        HttpRequestView,
        ApiErrorView,
    > {
        match built_url(T::place().path, request.params()) {
            Err(e) => Err(e),
            Ok(url) => if !T::place().is_private {
                Ok(plain_request(T::place().method, url))
            } else {
                match request.body_text() {
                    Err(e) => Err(e),
                    Ok(body) => signed_request(
                        self.key(),
                        self.secret_text(),
                        timestamp,
                        T::place().method,
                        T::place().path,
                        url,
                        body,
                    ),
                }
            },
        }
    }

    /// Signs a call whose URL and body are built.
    pub fn sign_request(
        &self,
        timestamp: i64,
        method: Method,
        path: &str,
        url: Url,
        body: Option<String>,
    ) -> (r: Result<HttpRequest, ApiError>)
        ensures
            outcome(r) == signed_request(
                self.key(),
                self.secret_text(),
                timestamp,
                method,
                path@,
                url.deep_view(),
                body.deep_view(),
            ),
    {
        let secret = match &self.secret {
            Some(s) => s,
            None => {
                return Err(ApiError::Auth);
            },
        };
        let query: Option<&str> = match &url.query {
            Some(q) => Some(q.as_str()),
            None => None,
        };
        let text = match &body {
            Some(b) => build_signing_text(timestamp, method, path, query, Some(b.as_str())),
            None => build_signing_text(timestamp, method, path, query, None),
        };
        match sign(secret.as_str(), text.as_str()) {
            None => Err(ApiError::Auth),
            Some(signature) => {
                let headers = build_signed_headers(
                    self.api_key.as_str(),
                    timestamp,
                    signature,
                    body.is_some(),
                );
                Ok(HttpRequest { method, url: url.text, headers, body })
            },
        }
    }

    /// Says what is to be sent for a call. `timestamp` is the time of the
    /// call in seconds since 1970-01-01T00:00:00Z; only a signed call uses
    /// it. A private call without a secret fails here, before anything is
    /// sent.
    pub fn prepare<T: ApiRequest>(&self, request: &T, timestamp: i64) -> (r: Result<
        HttpRequest,
        ApiError,
    >)
        ensures
            outcome(r) == self.prepared(request, timestamp),
    {
        proof {
            T::lemma_place();
        }
        let url = request.url()?;
        if T::IS_PRIVATE {
            let body = request.body()?;
            self.sign_request(timestamp, T::METHOD, T::PATH, url, body)
        } else {
            let headers: Vec<(String, String)> = Vec::new();
            assert(headers.deep_view() =~= Seq::<(Seq<char>, Seq<char>)>::empty());
            Ok(HttpRequest { method: T::METHOD, url: url.text, headers, body: None })
        }
    }

    /// Says what the answer to a call means: a status of success has the
    /// body read as the endpoint declares; any other status is an error, and
    /// the body is not read.
    pub fn receive<T: ApiRequest>(sent: &HttpRequest, status: u16, body: &str) -> (r: Result<
        T::Response,
        ApiError,
    >)
        ensures
            outcome(r) == concluded(sent.deep_view(), status, body@, T::response(body@)),
    {
        if 200 <= status && status < 300 {
            T::deserialize_response_body(body)
        } else {
            Err(rejected(sent, status, body))
        }
    }
}

} // verus!
