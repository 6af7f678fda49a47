//! How a private request is signed: the text that is signed, the keyed hash
//! of it, and the headers that carry the result.

use crate::error::{owned, Method};
use crate::text::{hex_lower, hex_text, i64_to_string, signed_text};
use hmac::Mac;
use vstd::prelude::*;
use vstd::string::StringExecFns;
use vstd::utf8::encode_utf8;

verus! {

/// What HMAC with SHA-256 gives for a key and a message: the 32 bytes of the
/// code, or nothing where the `hmac` crate does not take the key.
pub uninterp spec fn hmac_sha256(key: Seq<u8>, message: Seq<u8>) -> Option<Seq<u8>>;

/// The model of bytes that may be absent.
pub open spec fn bytes_of(r: Option<Vec<u8>>) -> Option<Seq<u8>> {
    match r {
        Some(b) => Some(b@),
        None => None,
    }
}

/// Calls `Hmac::<Sha256>::new_from_slice` with the key, `update` with the
/// message, and `finalize`, and hands back the bytes of the code. The
/// contract names the outcome [`hmac_sha256`].
#[verifier::external_body]
pub(crate) fn hmac_sha256_code(key: &[u8], message: &[u8]) -> (r: Option<Vec<u8>>)
    ensures
        bytes_of(r) == hmac_sha256(key@, message@),
{
    match hmac::Hmac::<sha2::Sha256>::new_from_slice(key) {
        Ok(mut mac) => {
            mac.update(message);
            Some(mac.finalize().into_bytes().to_vec())
        },
        Err(_) => None,
    }
}

impl Method {
    /// The name of the method, as it stands in a request and in the text
    /// that is signed.
    pub open spec fn name(self) -> Seq<char> {
        match self {
            Method::Get => "GET"@,
            Method::Post => "POST"@,
        }
    }

    /// The name of the method.
    pub fn as_str(&self) -> (s: &'static str)
        ensures
            s@ == self.name(),
    {
        match self {
            Method::Get => "GET",
            Method::Post => "POST",
        }
    }
}

/// The part of the text that the query makes: a question mark and the query,
/// or nothing where there is no query or an empty one.
pub open spec fn query_part(query: Option<Seq<char>>) -> Seq<char> {
    match query {
        Some(q) => if q.len() > 0 {
            seq!['?'] + q
        } else {
            Seq::empty()
        },
        None => Seq::empty(),
    }
}

/// The part of the text that the body makes: the body, or nothing where
/// there is none.
pub open spec fn body_part(body: Option<Seq<char>>) -> Seq<char> {
    match body {
        Some(b) => b,
        None => Seq::empty(),
    }
}

/// The text that is signed: the timestamp, the method, the path, the query
/// and the body, in this order and with nothing between them.
pub open spec fn signing_text(
    timestamp: i64,
    method: Method,
    path: Seq<char>,
    query: Option<Seq<char>>,
    body: Option<Seq<char>>,
) -> Seq<char> {
    signed_text(timestamp as int) + method.name() + path + query_part(query) + body_part(body)
}

/// The signature that a code makes: its bytes in base 16, lower case.
/// Nothing where there is no code.
pub open spec fn signature_of_code(code: Option<Seq<u8>>) -> Option<Seq<char>> {
    match code {
        Some(bytes) => Some(hex_text(bytes)),
        None => None,
    }
}

/// The signature of a text under a secret.
pub open spec fn signature(secret: Seq<char>, text: Seq<char>) -> Option<Seq<char>> {
    signature_of_code(hmac_sha256(encode_utf8(secret), encode_utf8(text)))
}

/// The signature is a function of the secret, the timestamp, the method, the
/// path, the query and the body, and of nothing else: two calls that agree on
/// these are signed alike.
pub proof fn lemma_signature_is_determined(
    secret: (Seq<char>, Seq<char>),
    timestamp: (i64, i64),
    method: (Method, Method),
    path: (Seq<char>, Seq<char>),
    query: (Option<Seq<char>>, Option<Seq<char>>),
    body: (Option<Seq<char>>, Option<Seq<char>>),
)
    requires
        secret.0 == secret.1,
        timestamp.0 == timestamp.1,
        method.0 == method.1,
        path.0 == path.1,
        query.0 == query.1,
        body.0 == body.1,
    ensures
        signature(secret.0, signing_text(timestamp.0, method.0, path.0, query.0, body.0))
            == signature(secret.1, signing_text(timestamp.1, method.1, path.1, query.1, body.1)),
{
}

/// The model of a string that may be absent.
pub open spec fn string_view(r: Option<String>) -> Option<Seq<char>> {
    match r {
        Some(s) => Some(s@),
        None => None,
    }
}

/// Puts together the text that is signed.
pub fn build_signing_text(
    timestamp: i64,
    method: Method,
    path: &str,
    query: Option<&str>,
    body: Option<&str>,
) -> (text: String)
    ensures
        text@ == signing_text(
            timestamp,
            method,
            path@,
            crate::json::text_of(query),
            crate::json::text_of(body),
        ),
{
    let mut text = i64_to_string(timestamp);
    text.append(method.as_str());
    text.append(path);
    let ghost head = text@;
    match query {
        Some(q) => {
            if q.unicode_len() > 0 {
                proof {
                    reveal_strlit("?");
                }
                text.append("?");
                text.append(q);
                assert(text@ =~= head + query_part(Some(q@)));
            } else {
                assert(text@ =~= head + query_part(Some(q@)));
            }
        },
        None => {
            assert(text@ =~= head + query_part(None));
        },
    }
    let ghost with_query = text@;
    match body {
        Some(b) => {
            text.append(b);
        },
        None => {
            assert(text@ =~= with_query + body_part(None));
        },
    }
    text
}

/// Writes a code as a signature.
pub fn write_signature(code: Option<Vec<u8>>) -> (r: Option<String>)
    ensures
        string_view(r) == signature_of_code(bytes_of(code)),
{
    match code {
        Some(bytes) => Some(hex_lower(bytes.as_slice())),
        None => None,
    }
}

/// Signs a text with a secret.
pub fn sign(secret: &str, text: &str) -> (r: Option<String>)
    ensures
        string_view(r) == signature(secret@, text@),
{
    write_signature(hmac_sha256_code(secret.as_bytes(), text.as_bytes()))
}

/// The headers of a signed request: the key, the timestamp and the
/// signature, and the type of the body where there is one.
pub open spec fn signed_headers(
    api_key: Seq<char>,
    timestamp: i64,
    signature: Seq<char>,
    has_body: bool,
) -> Seq<(Seq<char>, Seq<char>)> {
    let auth = seq![
        ("ACCESS-KEY"@, api_key),
        ("ACCESS-TIMESTAMP"@, signed_text(timestamp as int)),
        ("ACCESS-SIGN"@, signature),
    ];
    if has_body {
        auth.push(("content-type"@, "application/json"@))
    } else {
        auth
    }
}

/// Writes the headers of a signed request.
pub fn build_signed_headers(api_key: &str, timestamp: i64, signature: String, has_body: bool) -> (r:
    Vec<(String, String)>)
    ensures
        r.deep_view() == signed_headers(api_key@, timestamp, signature@, has_body),
{
    let mut headers: Vec<(String, String)> = Vec::new();
    headers.push((owned("ACCESS-KEY"), owned(api_key)));
    headers.push((owned("ACCESS-TIMESTAMP"), i64_to_string(timestamp)));
    headers.push((owned("ACCESS-SIGN"), signature));
    if has_body {
        headers.push((owned("content-type"), owned("application/json")));
    }
    assert(headers.deep_view() =~= signed_headers(api_key@, timestamp, signature@, has_body));
    headers
}

} // verus!
