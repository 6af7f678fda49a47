//! The private endpoints that read the account.

use crate::api::query::{Parameter, QueryValue};
use crate::api::request::{decode_json, no_params, ApiRequest, Place};
use crate::api::response::{GetParentOrdersResponse, GetParentOrdersResponseParameter};
use crate::entity::{
    Balance, ChildOrder, Collateral, CollateralAccount, OrderState, Position, ProductCode,
};
use crate::error::{ApiError, Method};
use vstd::prelude::*;

verus! {

/// The endpoints that the key may call.
#[derive(Clone, Copy, Debug, Default, PartialEq, Eq)]
pub struct GetPermissions;

impl ApiRequest for GetPermissions {
    const PATH: &'static str = "/v1/me/getpermissions";

    const IS_PRIVATE: bool = true;

    const METHOD: Method = Method::Get;

    type Response = Vec<String>;

    open spec fn place() -> Place {
        Place { path: "/v1/me/getpermissions"@, method: Method::Get, is_private: true }
    }

    proof fn lemma_place() {
        assert(GetPermissions::PATH@ == "/v1/me/getpermissions"@);
        assert(GetPermissions::IS_PRIVATE == true);
        assert(GetPermissions::METHOD == Method::Get);
    }

    fn url_params(&self) -> (r: Vec<Option<(String, String)>>) {
        no_params()
    }

    fn body(&self) -> (r: Result<Option<String>, ApiError>) {
        Ok(None)
    }

    fn deserialize_response_body(body: &str) -> (r: Result<Vec<String>, ApiError>) {
        decode_json::<Vec<String>>(body)
    }
}

/// What the account holds.
#[derive(Clone, Copy, Debug, Default, PartialEq, Eq)]
pub struct GetBalance;

impl ApiRequest for GetBalance {
    const PATH: &'static str = "/v1/me/getbalance";

    const IS_PRIVATE: bool = true;

    const METHOD: Method = Method::Get;

    type Response = Vec<Balance>;

    open spec fn place() -> Place {
        Place { path: "/v1/me/getbalance"@, method: Method::Get, is_private: true }
    }

    proof fn lemma_place() {
        assert(GetBalance::PATH@ == "/v1/me/getbalance"@);
        assert(GetBalance::IS_PRIVATE == true);
        assert(GetBalance::METHOD == Method::Get);
    }

    fn url_params(&self) -> (r: Vec<Option<(String, String)>>) {
        no_params()
    }

    fn body(&self) -> (r: Result<Option<String>, ApiError>) {
        Ok(None)
    }

    fn deserialize_response_body(body: &str) -> (r: Result<Vec<Balance>, ApiError>) {
        decode_json::<Vec<Balance>>(body)
    }
}

/// The collateral of the account.
#[derive(Clone, Copy, Debug, Default, PartialEq, Eq)]
pub struct GetCollateral;

impl ApiRequest for GetCollateral {
    const PATH: &'static str = "/v1/me/getcollateral";

    const IS_PRIVATE: bool = true;

    const METHOD: Method = Method::Get;

    type Response = Collateral;

    open spec fn place() -> Place {
        Place { path: "/v1/me/getcollateral"@, method: Method::Get, is_private: true }
    }

    proof fn lemma_place() {
        assert(GetCollateral::PATH@ == "/v1/me/getcollateral"@);
        assert(GetCollateral::IS_PRIVATE == true);
        assert(GetCollateral::METHOD == Method::Get);
    }

    fn url_params(&self) -> (r: Vec<Option<(String, String)>>) {
        no_params()
    }

    fn body(&self) -> (r: Result<Option<String>, ApiError>) {
        Ok(None)
    }

    fn deserialize_response_body(body: &str) -> (r: Result<Collateral, ApiError>) {
        decode_json::<Collateral>(body)
    }
}

/// The collateral of the account, currency by currency.
#[derive(Clone, Copy, Debug, Default, PartialEq, Eq)]
pub struct GetCollateralAccounts;

impl ApiRequest for GetCollateralAccounts {
    const PATH: &'static str = "/v1/me/getcollateralaccounts";

    const IS_PRIVATE: bool = true;

    const METHOD: Method = Method::Get;

    type Response = Vec<CollateralAccount>;

    open spec fn place() -> Place {
        Place { path: "/v1/me/getcollateralaccounts"@, method: Method::Get, is_private: true }
    }

    proof fn lemma_place() {
        assert(GetCollateralAccounts::PATH@ == "/v1/me/getcollateralaccounts"@);
        assert(GetCollateralAccounts::IS_PRIVATE == true);
        assert(GetCollateralAccounts::METHOD == Method::Get);
    }

    fn url_params(&self) -> (r: Vec<Option<(String, String)>>) {
        no_params()
    }

    fn body(&self) -> (r: Result<Option<String>, ApiError>) {
        Ok(None)
    }

    fn deserialize_response_body(body: &str) -> (r: Result<Vec<CollateralAccount>, ApiError>) {
        decode_json::<Vec<CollateralAccount>>(body)
    }
}

/// The child orders of the account.
#[derive(Clone, Debug, Default, PartialEq, Eq)]
pub struct GetChildOrders {
    pub product_code: Option<ProductCode>,
    pub count: Option<u64>,
    pub before: Option<u64>,
    pub after: Option<u64>,
    pub child_order_acceptance_id: Option<String>,
    pub parent_order_id: Option<String>,
}

impl ApiRequest for GetChildOrders {
    const PATH: &'static str = "/v1/me/getchildorders";

    const IS_PRIVATE: bool = true;

    const METHOD: Method = Method::Get;

    type Response = Vec<ChildOrder>;

    open spec fn place() -> Place {
        Place { path: "/v1/me/getchildorders"@, method: Method::Get, is_private: true }
    }

    proof fn lemma_place() {
        assert(GetChildOrders::PATH@ == "/v1/me/getchildorders"@);
        assert(GetChildOrders::IS_PRIVATE == true);
        assert(GetChildOrders::METHOD == Method::Get);
    }

    open spec fn params(&self) -> Seq<Parameter> {
        seq![
            self.product_code.query_parameter("product_code"@),
            self.count.query_parameter("count"@),
            self.before.query_parameter("before"@),
            self.after.query_parameter("after"@),
            self.child_order_acceptance_id.query_parameter("child_order_acceptance_id"@),
            self.parent_order_id.query_parameter("child_order_id"@),
        ]
    }

    fn url_params(&self) -> (r: Vec<Option<(String, String)>>) {
        let mut r: Vec<Option<(String, String)>> = Vec::new();
        r.push(self.product_code.to_query_parameter("product_code"));
        r.push(self.count.to_query_parameter("count"));
        r.push(self.before.to_query_parameter("before"));
        r.push(self.after.to_query_parameter("after"));
        r.push(self.child_order_acceptance_id.to_query_parameter("child_order_acceptance_id"));
        r.push(self.parent_order_id.to_query_parameter("child_order_id"));
        assert(r.deep_view() =~= self.params());
        r
    }

    fn body(&self) -> (r: Result<Option<String>, ApiError>) {
        Ok(None)
    }

    fn deserialize_response_body(body: &str) -> (r: Result<Vec<ChildOrder>, ApiError>) {
        decode_json::<Vec<ChildOrder>>(body)
    }
}

/// The parent orders of the account.
#[derive(Clone, Copy, Debug, Default, PartialEq, Eq)]
pub struct GetParentOrders {
    pub product_code: Option<ProductCode>,
    pub count: Option<u64>,
    pub before: Option<u64>,
    pub after: Option<u64>,
    pub parent_order_state: Option<OrderState>,
}

impl ApiRequest for GetParentOrders {
    const PATH: &'static str = "/v1/me/getparentorders";

    const IS_PRIVATE: bool = true;

    const METHOD: Method = Method::Get;

    type Response = Vec<GetParentOrdersResponseParameter>;

    open spec fn place() -> Place {
        Place { path: "/v1/me/getparentorders"@, method: Method::Get, is_private: true }
    }

    proof fn lemma_place() {
        assert(GetParentOrders::PATH@ == "/v1/me/getparentorders"@);
        assert(GetParentOrders::IS_PRIVATE == true);
        assert(GetParentOrders::METHOD == Method::Get);
    }

    open spec fn params(&self) -> Seq<Parameter> {
        seq![
            self.product_code.query_parameter("product_code"@),
            self.count.query_parameter("count"@),
            self.before.query_parameter("before"@),
            self.after.query_parameter("after"@),
            self.parent_order_state.query_parameter("parent_order_state"@),
        ]
    }

    fn url_params(&self) -> (r: Vec<Option<(String, String)>>) {
        let mut r: Vec<Option<(String, String)>> = Vec::new();
        r.push(self.product_code.to_query_parameter("product_code"));
        r.push(self.count.to_query_parameter("count"));
        r.push(self.before.to_query_parameter("before"));
        r.push(self.after.to_query_parameter("after"));
        r.push(self.parent_order_state.to_query_parameter("parent_order_state"));
        assert(r.deep_view() =~= self.params());
        r
    }

    fn body(&self) -> (r: Result<Option<String>, ApiError>) {
        Ok(None)
    }

    fn deserialize_response_body(body: &str) -> (r: Result<Vec<GetParentOrdersResponseParameter>, ApiError>) {
        decode_json::<Vec<GetParentOrdersResponseParameter>>(body)
    }
}

/// One parent order in full, by either of its ids.
#[derive(Clone, Debug, Default, PartialEq, Eq)]
pub struct GetParentOrder {
    pub parent_order_id: Option<String>,
    pub parent_order_acceptance_id: Option<String>,
}

impl ApiRequest for GetParentOrder {
    const PATH: &'static str = "/v1/me/getparentorder";

    const IS_PRIVATE: bool = true;

    const METHOD: Method = Method::Get;

    type Response = GetParentOrdersResponse;

    open spec fn place() -> Place {
        Place { path: "/v1/me/getparentorder"@, method: Method::Get, is_private: true }
    }

    proof fn lemma_place() {
        assert(GetParentOrder::PATH@ == "/v1/me/getparentorder"@);
        assert(GetParentOrder::IS_PRIVATE == true);
        assert(GetParentOrder::METHOD == Method::Get);
    }

    open spec fn params(&self) -> Seq<Parameter> {
        seq![
            self.parent_order_id.query_parameter("parent_order_id"@),
            self.parent_order_acceptance_id.query_parameter("parent_order_acceptance_id"@),
        ]
    }

    fn url_params(&self) -> (r: Vec<Option<(String, String)>>) {
        let mut r: Vec<Option<(String, String)>> = Vec::new();
        r.push(self.parent_order_id.to_query_parameter("parent_order_id"));
        r.push(self.parent_order_acceptance_id.to_query_parameter("parent_order_acceptance_id"));
        assert(r.deep_view() =~= self.params());
        r
    }

    fn body(&self) -> (r: Result<Option<String>, ApiError>) {
        Ok(None)
    }

    fn deserialize_response_body(body: &str) -> (r: Result<GetParentOrdersResponse, ApiError>) {
        decode_json::<GetParentOrdersResponse>(body)
    }
}

/// The open positions of the account. The exchange keeps positions for
/// one product only, and the call names it.
#[derive(Clone, Copy, Debug, Default, PartialEq, Eq)]
pub struct GetPositions {}

impl ApiRequest for GetPositions {
    const PATH: &'static str = "/v1/me/getpositions";

    const IS_PRIVATE: bool = true;

    const METHOD: Method = Method::Get;

    type Response = Vec<Position>;

    open spec fn place() -> Place {
        Place { path: "/v1/me/getpositions"@, method: Method::Get, is_private: true }
    }

    proof fn lemma_place() {
        assert(GetPositions::PATH@ == "/v1/me/getpositions"@);
        assert(GetPositions::IS_PRIVATE == true);
        assert(GetPositions::METHOD == Method::Get);
    }

    open spec fn params(&self) -> Seq<Parameter> {
        seq![Some(ProductCode::FxBtcJpy).query_parameter("product_code"@)]
    }

    fn url_params(&self) -> (r: Vec<Option<(String, String)>>) {
        let mut r: Vec<Option<(String, String)>> = Vec::new();
        r.push(Some(ProductCode::FxBtcJpy).to_query_parameter("product_code"));
        assert(r.deep_view() =~= self.params());
        r
    }

    fn body(&self) -> (r: Result<Option<String>, ApiError>) {
        Ok(None)
    }

    fn deserialize_response_body(body: &str) -> (r: Result<Vec<Position>, ApiError>) {
        decode_json::<Vec<Position>>(body)
    }
}
} // verus!
