//! The public endpoints: what the market shows to everyone.

use crate::api::query::{Parameter, QueryValue};
use crate::api::request::{decode_json, no_params, ApiRequest, Place};
use crate::entity::{Board, BoardHealth, BoardState, Execution, Market, ProductCode, Ticker};
use crate::error::{ApiError, Method};
use vstd::prelude::*;

verus! {

/// The markets that the exchange lists.
#[derive(Clone, Copy, Debug, Default, PartialEq, Eq)]
pub struct GetMarkets;

impl ApiRequest for GetMarkets {
    const PATH: &'static str = "/v1/markets";

    const IS_PRIVATE: bool = false;

    const METHOD: Method = Method::Get;

    type Response = Vec<Market>;

    open spec fn place() -> Place {
        Place { path: "/v1/markets"@, method: Method::Get, is_private: false }
    }

    proof fn lemma_place() {
        assert(GetMarkets::PATH@ == "/v1/markets"@);
        assert(GetMarkets::IS_PRIVATE == false);
        assert(GetMarkets::METHOD == Method::Get);
    }

    fn url_params(&self) -> (r: Vec<Option<(String, String)>>) {
        no_params()
    }

    fn body(&self) -> (r: Result<Option<String>, ApiError>) {
        Ok(None)
    }

    fn deserialize_response_body(body: &str) -> (r: Result<Vec<Market>, ApiError>) {
        decode_json::<Vec<Market>>(body)
    }
}

/// The order book of a product.
#[derive(Clone, Copy, Debug, Default, PartialEq, Eq)]
pub struct GetBoard {
    pub product_code: Option<ProductCode>,
}

impl ApiRequest for GetBoard {
    const PATH: &'static str = "/v1/board";

    const IS_PRIVATE: bool = false;

    const METHOD: Method = Method::Get;

    type Response = Board;

    open spec fn place() -> Place {
        Place { path: "/v1/board"@, method: Method::Get, is_private: false }
    }

    proof fn lemma_place() {
        assert(GetBoard::PATH@ == "/v1/board"@);
        assert(GetBoard::IS_PRIVATE == false);
        assert(GetBoard::METHOD == Method::Get);
    }

    open spec fn params(&self) -> Seq<Parameter> {
        seq![self.product_code.query_parameter("product_code"@)]
    }

    fn url_params(&self) -> (r: Vec<Option<(String, String)>>) {
        let mut r: Vec<Option<(String, String)>> = Vec::new();
        r.push(self.product_code.to_query_parameter("product_code"));
        assert(r.deep_view() =~= self.params());
        r
    }

    fn body(&self) -> (r: Result<Option<String>, ApiError>) {
        Ok(None)
    }

    fn deserialize_response_body(body: &str) -> (r: Result<Board, ApiError>) {
        decode_json::<Board>(body)
    }
}

/// The latest prices of a product.
#[derive(Clone, Copy, Debug, Default, PartialEq, Eq)]
pub struct GetTicker {
    pub product_code: Option<ProductCode>,
}

impl ApiRequest for GetTicker {
    const PATH: &'static str = "/v1/ticker";

    const IS_PRIVATE: bool = false;

    const METHOD: Method = Method::Get;

    type Response = Ticker;

    open spec fn place() -> Place {
        Place { path: "/v1/ticker"@, method: Method::Get, is_private: false }
    }

    proof fn lemma_place() {
        assert(GetTicker::PATH@ == "/v1/ticker"@);
        assert(GetTicker::IS_PRIVATE == false);
        assert(GetTicker::METHOD == Method::Get);
    }

    open spec fn params(&self) -> Seq<Parameter> {
        seq![self.product_code.query_parameter("product_code"@)]
    }

    fn url_params(&self) -> (r: Vec<Option<(String, String)>>) {
        let mut r: Vec<Option<(String, String)>> = Vec::new();
        r.push(self.product_code.to_query_parameter("product_code"));
        assert(r.deep_view() =~= self.params());
        r
    }

    fn body(&self) -> (r: Result<Option<String>, ApiError>) {
        Ok(None)
    }

    fn deserialize_response_body(body: &str) -> (r: Result<Ticker, ApiError>) {
        decode_json::<Ticker>(body)
    }
}

/// The latest trades of a product.
#[derive(Clone, Copy, Debug, Default, PartialEq, Eq)]
pub struct GetExecutions {
    pub product_code: Option<ProductCode>,
    pub count: Option<u64>,
    pub before: Option<u64>,
    pub after: Option<u64>,
}

impl ApiRequest for GetExecutions {
    const PATH: &'static str = "/v1/executions";

    const IS_PRIVATE: bool = false;

    const METHOD: Method = Method::Get;

    type Response = Vec<Execution>;

    open spec fn place() -> Place {
        Place { path: "/v1/executions"@, method: Method::Get, is_private: false }
    }

    proof fn lemma_place() {
        assert(GetExecutions::PATH@ == "/v1/executions"@);
        assert(GetExecutions::IS_PRIVATE == false);
        assert(GetExecutions::METHOD == Method::Get);
    }

    open spec fn params(&self) -> Seq<Parameter> {
        seq![
            self.product_code.query_parameter("product_code"@),
            self.count.query_parameter("count"@),
            self.before.query_parameter("before"@),
            self.after.query_parameter("after"@),
        ]
    }

    fn url_params(&self) -> (r: Vec<Option<(String, String)>>) {
        let mut r: Vec<Option<(String, String)>> = Vec::new();
        r.push(self.product_code.to_query_parameter("product_code"));
        r.push(self.count.to_query_parameter("count"));
        r.push(self.before.to_query_parameter("before"));
        r.push(self.after.to_query_parameter("after"));
        assert(r.deep_view() =~= self.params());
        r
    }

    fn body(&self) -> (r: Result<Option<String>, ApiError>) {
        Ok(None)
    }

    fn deserialize_response_body(body: &str) -> (r: Result<Vec<Execution>, ApiError>) {
        decode_json::<Vec<Execution>>(body)
    }
}

/// The state of the board of a product.
#[derive(Clone, Copy, Debug, Default, PartialEq, Eq)]
pub struct GetBoardState {
    pub product_code: Option<ProductCode>,
}

impl ApiRequest for GetBoardState {
    const PATH: &'static str = "/v1/getboardstate";

    const IS_PRIVATE: bool = false;

    const METHOD: Method = Method::Get;

    type Response = BoardState;

    open spec fn place() -> Place {
        Place { path: "/v1/getboardstate"@, method: Method::Get, is_private: false }
    }

    proof fn lemma_place() {
        assert(GetBoardState::PATH@ == "/v1/getboardstate"@);
        assert(GetBoardState::IS_PRIVATE == false);
        assert(GetBoardState::METHOD == Method::Get);
    }

    open spec fn params(&self) -> Seq<Parameter> {
        seq![self.product_code.query_parameter("product_code"@)]
    }

    fn url_params(&self) -> (r: Vec<Option<(String, String)>>) {
        let mut r: Vec<Option<(String, String)>> = Vec::new();
        r.push(self.product_code.to_query_parameter("product_code"));
        assert(r.deep_view() =~= self.params());
        r
    }

    fn body(&self) -> (r: Result<Option<String>, ApiError>) {
        Ok(None)
    }

    fn deserialize_response_body(body: &str) -> (r: Result<BoardState, ApiError>) {
        decode_json::<BoardState>(body)
    }
}

/// How busy the exchange is for a product.
#[derive(Clone, Copy, Debug, Default, PartialEq, Eq)]
pub struct GetBoardHealth {
    pub product_code: Option<ProductCode>,
}

impl ApiRequest for GetBoardHealth {
    const PATH: &'static str = "/v1/gethealth";

    const IS_PRIVATE: bool = false;

    const METHOD: Method = Method::Get;

    type Response = BoardHealth;

    open spec fn place() -> Place {
        Place { path: "/v1/gethealth"@, method: Method::Get, is_private: false }
    }

    proof fn lemma_place() {
        assert(GetBoardHealth::PATH@ == "/v1/gethealth"@);
        assert(GetBoardHealth::IS_PRIVATE == false);
        assert(GetBoardHealth::METHOD == Method::Get);
    }

    open spec fn params(&self) -> Seq<Parameter> {
        seq![self.product_code.query_parameter("product_code"@)]
    }

    fn url_params(&self) -> (r: Vec<Option<(String, String)>>) {
        let mut r: Vec<Option<(String, String)>> = Vec::new();
        r.push(self.product_code.to_query_parameter("product_code"));
        assert(r.deep_view() =~= self.params());
        r
    }

    fn body(&self) -> (r: Result<Option<String>, ApiError>) {
        Ok(None)
    }

    fn deserialize_response_body(body: &str) -> (r: Result<BoardHealth, ApiError>) {
        decode_json::<BoardHealth>(body)
    }
}
} // verus!
