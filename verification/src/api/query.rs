//! The address of a request: the parameters that a descriptor names, of which
//! only those with a value go into the query, and the URL that they make.

use crate::entity::{OrderState, ProductCode};
use crate::error::{owned, ApiError, ApiErrorView};
use crate::text::{decimal_text, u64_to_string};
use vstd::prelude::*;
use vstd::string::StringExecFns;

verus! {

/// The origin of every endpoint.
pub const ENTRY_POINT: &'static str = "https://api.bitflyer.com";

/// A value that has one way of being written in a query.
pub trait WireText {
    /// The text of the value in a query.
    spec fn wire_text(&self) -> Seq<char>;

    /// Writes the value as it stands in a query.
    fn to_wire_text(&self) -> (s: String)
        ensures
            s@ == self.wire_text(),
    ;
}

impl WireText for u64 {
    open spec fn wire_text(&self) -> Seq<char> {
        decimal_text(*self as nat)
    }

    fn to_wire_text(&self) -> (s: String) {
        u64_to_string(*self)
    }
}

impl WireText for String {
    open spec fn wire_text(&self) -> Seq<char> {
        self@
    }

    fn to_wire_text(&self) -> (s: String) {
        self.clone()
    }
}

impl WireText for ProductCode {
    open spec fn wire_text(&self) -> Seq<char> {
        self.wire_name()
    }

    fn to_wire_text(&self) -> (s: String) {
        self.to_string()
    }
}

impl WireText for OrderState {
    open spec fn wire_text(&self) -> Seq<char> {
        self.wire_name()
    }

    fn to_wire_text(&self) -> (s: String) {
        self.to_string()
    }
}

/// The model of a parameter: a name and a text, or nothing where the
/// parameter has no value.
pub type Parameter = Option<(Seq<char>, Seq<char>)>;

/// A value that may stand in a query under a name.
pub trait QueryValue {
    /// The parameter that the value makes under the name `key`.
    spec fn query_parameter(&self, key: Seq<char>) -> Parameter;

    /// The name and the text of the parameter, or nothing where there is no
    /// value.
    fn to_query_parameter(&self, key: &str) -> (r: Option<(String, String)>)
        ensures
            r.deep_view() == self.query_parameter(key@),
    ;
}

impl<T: WireText> QueryValue for Option<T> {
    open spec fn query_parameter(&self, key: Seq<char>) -> Parameter {
        match self {
            Some(v) => Some((key, v.wire_text())),
            None => None,
        }
    }

    fn to_query_parameter(&self, key: &str) -> (r: Option<(String, String)>) {
        match self {
            Some(v) => Some((owned(key), v.to_wire_text())),
            None => None,
        }
    }
}

/// The parameters that go into the query: those that have a value, in the
/// order in which they were named.
pub open spec fn present(params: Seq<Parameter>) -> Seq<(Seq<char>, Seq<char>)>
    decreases params.len(),
{
    if params.len() == 0 {
        Seq::empty()
    } else {
        match params.last() {
            Some(pair) => present(params.drop_last()).push(pair),
            None => present(params.drop_last()),
        }
    }
}

/// A parameter without a value leaves nothing in the query, a parameter with
/// a value leaves itself, and the parameters of two lists put together leave
/// what the first list leaves, followed by what the second leaves: nothing
/// absent goes in, and nothing changes its place.
pub proof fn lemma_present(a: Seq<Parameter>, b: Seq<Parameter>, pair: (Seq<char>, Seq<char>))
    ensures
        present(Seq::<Parameter>::empty()) == Seq::<(Seq<char>, Seq<char>)>::empty(),
        present(seq![None::<(Seq<char>, Seq<char>)>]) == Seq::<(Seq<char>, Seq<char>)>::empty(),
        present(seq![Some(pair)]) == seq![pair],
        present(a + b) == present(a) + present(b),
    decreases b.len(),
{
    let nothing = Seq::<(Seq<char>, Seq<char>)>::empty();
    assert(present(Seq::<Parameter>::empty()) == nothing);
    let none = seq![None::<(Seq<char>, Seq<char>)>];
    assert(none.last() is None);
    assert(none.drop_last() =~= Seq::<Parameter>::empty());
    assert(present(none) == present(none.drop_last()));
    assert(present(none) =~= Seq::<(Seq<char>, Seq<char>)>::empty());
    let one = seq![Some(pair)];
    assert(one.last() == Some(pair));
    assert(one.drop_last() =~= Seq::<Parameter>::empty());
    assert(present(one) == present(one.drop_last()).push(pair));
    assert(present(one) =~= seq![pair]);
    if b.len() == 0 {
        assert(a + b =~= a);
        assert(present(a) + present(b) =~= present(a));
    } else {
        lemma_present(a, b.drop_last(), pair);
        assert((a + b).drop_last() =~= a + b.drop_last());
        assert((a + b).last() == b.last());
        match b.last() {
            Some(p) => {
                assert(present(a + b) =~= present(a) + present(b));
            },
            None => {},
        }
    }
}

/// Keeps the parameters that have a value.
pub fn keep_present(params: &Vec<Option<(String, String)>>) -> (kept: Vec<(String, String)>)
    ensures
        kept.deep_view() == present(params.deep_view()),
{
    let ghost all = params.deep_view();
    let mut kept: Vec<(String, String)> = Vec::new();
    let mut i: usize = 0;
    assert(all.take(0) =~= Seq::<Parameter>::empty());
    assert(kept.deep_view() =~= Seq::<(Seq<char>, Seq<char>)>::empty());
    while i < params.len()
        invariant
            i <= params.len(),
            all == params.deep_view(),
            kept.deep_view() == present(all.take(i as int)),
        decreases params.len() - i,
    {
        let ghost before = kept.deep_view();
        let ghost next = all.take(i as int + 1);
        assert(next.drop_last() =~= all.take(i as int));
        assert(next.last() == params@[i as int].deep_view());
        match &params[i] {
            Some(pair) => {
                kept.push((pair.0.clone(), pair.1.clone()));
                assert(kept.deep_view() =~= before.push((pair.0@, pair.1@)));
            },
            None => {},
        }
        i += 1;
    }
    assert(all.take(params.len() as int) =~= all);
    kept
}

/// A URL: its text, and the query in it, where it has one.
#[derive(Clone, Debug, PartialEq, Eq)]
pub struct Url {
    pub text: String,
    pub query: Option<String>,
}

/// The model of a [`Url`].
pub struct UrlView {
    pub text: Seq<char>,
    pub query: Option<Seq<char>>,
}

impl DeepView for Url {
    type V = UrlView;

    open spec fn deep_view(&self) -> UrlView {
        UrlView {
            text: self.text@,
            query: match self.query {
                Some(q) => Some(q@),
                None => None,
            },
        }
    }
}

/// The model of a URL that may have failed to parse.
pub open spec fn url_view(r: Option<Url>) -> Option<UrlView> {
    match r {
        Some(u) => Some(u.deep_view()),
        None => None,
    }
}

/// What the `url` crate makes of an address: the URL and its query, or
/// nothing where the address is no absolute URL.
pub uninterp spec fn url_of_text(input: Seq<char>) -> Option<UrlView>;

/// What the `url` crate makes of an address and the parameters that are put
/// behind it: the URL and its query, or nothing where the address is no
/// absolute URL.
pub uninterp spec fn url_with_params(input: Seq<char>, params: Seq<(Seq<char>, Seq<char>)>)
    -> Option<UrlView>;

/// Calls `Url::parse` of the `url` crate, which `reqwest` hands on as
/// `reqwest::Url`, and hands back what `as_str()` and `query()` give for the
/// URL. The contract names the outcome [`url_of_text`].
#[verifier::external_body]
pub(crate) fn url_parse(input: &str) -> (r: Option<Url>)
    ensures
        url_view(r) == url_of_text(input@),
{
    match reqwest::Url::parse(input) {
        Ok(u) => Some(Url { text: u.as_str().to_string(), query: u.query().map(|q| q.to_string()) }),
        Err(_) => None,
    }
}

/// Calls `Url::parse_with_params` of the `url` crate, which `reqwest` hands
/// on as `reqwest::Url`, and hands back what `as_str()` and `query()` give
/// for the URL. The contract names the outcome [`url_with_params`].
#[verifier::external_body]
pub(crate) fn url_parse_with_params(input: &str, params: &Vec<(String, String)>) -> (r: Option<
    Url,
>)
    ensures
        url_view(r) == url_with_params(input@, params.deep_view()),
{
    match reqwest::Url::parse_with_params(input, params.iter()) {
        Ok(u) => Some(Url { text: u.as_str().to_string(), query: u.query().map(|q| q.to_string()) }),
        Err(_) => None,
    }
}

/// The address of an endpoint: the origin, followed by the path.
pub open spec fn address_of(path: Seq<char>) -> Seq<char> {
    ENTRY_POINT@ + path
}

/// What was parsed for the address of `path`, or the error that holds the
/// address.
pub open spec fn url_or_error(path: Seq<char>, parsed: Option<UrlView>) -> Result<
    UrlView,
    ApiErrorView,
> {
    match parsed {
        Some(u) => Ok(u),
        None => Err(ApiErrorView::UrlBuild { input: address_of(path) }),
    }
}

/// The URL of an endpoint with its parameters. Where no parameter has a
/// value the URL is that of the address alone, so that it has no query at
/// all; otherwise the parameters that have a value are put behind it.
pub open spec fn built_url(path: Seq<char>, params: Seq<Parameter>) -> Result<
    UrlView,
    ApiErrorView,
> {
    if present(params).len() == 0 {
        url_or_error(path, url_of_text(address_of(path)))
    } else {
        url_or_error(path, url_with_params(address_of(path), present(params)))
    }
}

/// The URL that was parsed for the address of `path`, or the error that
/// holds the address.
pub fn finish_url(path: &str, parsed: Option<Url>) -> (r: Result<Url, ApiError>)
    ensures
        crate::error::outcome(r) == url_or_error(path@, url_view(parsed)),
{
    match parsed {
        Some(u) => Ok(u),
        None => {
            let mut input = owned(ENTRY_POINT);
            input.append(path);
            Err(ApiError::UrlBuild { input })
        },
    }
}

/// Builds the URL of an endpoint from its path and its parameters.
pub fn build_url(path: &str, params: &Vec<Option<(String, String)>>) -> (r: Result<Url, ApiError>)
    ensures
        crate::error::outcome(r) == built_url(path@, params.deep_view()),
{
    let kept = keep_present(params);
    let mut address = owned(ENTRY_POINT);
    address.append(path);
    assert(kept.deep_view().len() == kept.len());
    if kept.len() == 0 {
        finish_url(path, url_parse(address.as_str()))
    } else {
        finish_url(path, url_parse_with_params(address.as_str(), &kept))
    }
}

} // verus!
