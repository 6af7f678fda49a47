//! The private endpoints that place and cancel orders. Each of them sends a
//! body, and the ones that cancel are answered with an empty one.

use crate::api::request::{
    decode_json, empty_response, encode_body, encoded_body, expect_empty, no_params, ApiRequest,
    Empty, Place,
};
use crate::api::response::{SendChildOrderResponse, SendParentOrderResponse};
use crate::codec::{
    first_member, join, member_of, object, optional_member, put_optional, put_value, ToJson,
};
use crate::decimal::Decimal;
use crate::entity::{ChildOrderType, ParentOrderMethod, ProductCode, Side, TimeInForce};
use crate::error::{ApiError, ApiErrorView, Method};
use crate::json::{Json, JsonValue, MemberValue};
use vstd::prelude::*;

verus! {

/// A new child order. The kind of the order and its price are written as
/// members of the same object as the rest.
#[derive(Clone, Copy, Debug, PartialEq, Eq)]
pub struct SendChildOrder {
    pub child_order_type: ChildOrderType,
    pub product_code: ProductCode,
    pub side: Side,
    pub size: Decimal,
    pub minute_to_expire: Option<u64>,
    pub time_in_force: Option<TimeInForce>,
}

impl ApiRequest for SendChildOrder {
    const PATH: &'static str = "/v1/me/sendchildorder";

    const IS_PRIVATE: bool = true;

    const METHOD: Method = Method::Post;

    type Response = SendChildOrderResponse;

    open spec fn place() -> Place {
        Place { path: "/v1/me/sendchildorder"@, method: Method::Post, is_private: true }
    }

    proof fn lemma_place() {
        assert(SendChildOrder::PATH@ == "/v1/me/sendchildorder"@);
        assert(SendChildOrder::IS_PRIVATE == true);
        assert(SendChildOrder::METHOD == Method::Post);
    }

    open spec fn body_text(&self) -> Result<Option<Seq<char>>, ApiErrorView> {
        encoded_body::<SendChildOrder>(self.deep_view())
    }

    fn url_params(&self) -> (r: Vec<Option<(String, String)>>) {
        no_params()
    }

    fn body(&self) -> (r: Result<Option<String>, ApiError>) {
        encode_body(self)
    }

    fn deserialize_response_body(body: &str) -> (r: Result<SendChildOrderResponse, ApiError>) {
        decode_json::<SendChildOrderResponse>(body)
    }
}

impl DeepView for SendChildOrder {
    type V = SendChildOrder;

    open spec fn deep_view(&self) -> SendChildOrder {
        *self
    }
}

impl SendChildOrder {
    /// The members of the body, in the order in which they are written.
    /// Nothing where a number of the order has no form on the wire.
    pub open spec fn members(v: SendChildOrder) -> Option<Seq<MemberValue>> {
        join(
            join(
                join(
                    join(
                        join(
                            ChildOrderType::members(v.child_order_type),
                            member_of::<ProductCode>("product_code"@, v.product_code),
                        ),
                        member_of::<Side>("side"@, v.side),
                    ),
                    member_of::<Decimal>("size"@, v.size),
                ),
                optional_member::<u64>("minute_to_expire"@, v.minute_to_expire),
            ),
            optional_member::<TimeInForce>("time_in_force"@, v.time_in_force),
        )
    }
}

impl ToJson for SendChildOrder {
    open spec fn encoded(v: SendChildOrder) -> Option<JsonValue> {
        match SendChildOrder::members(v) {
            Some(members) => Some(JsonValue::Object(members)),
            None => None,
        }
    }

    fn to_json(&self) -> (r: Option<Json>) {
        let mut out = self.child_order_type.to_members()?;
        if !put_value(&mut out, "product_code", &self.product_code) {
            return None;
        }
        if !put_value(&mut out, "side", &self.side) {
            return None;
        }
        if !put_value(&mut out, "size", &self.size) {
            return None;
        }
        if !put_optional(&mut out, "minute_to_expire", &self.minute_to_expire) {
            return None;
        }
        if !put_optional(&mut out, "time_in_force", &self.time_in_force) {
            return None;
        }
        Some(object(out))
    }
}

/// Cancels a child order. The exchange answers with an empty body.
#[derive(Clone, Debug, PartialEq, Eq)]
pub struct CancelChildOrder {
    pub product_code: ProductCode,
    pub child_order_acceptance_id: String,
}

impl ApiRequest for CancelChildOrder {
    const PATH: &'static str = "/v1/me/cancelchildorder";

    const IS_PRIVATE: bool = true;

    const METHOD: Method = Method::Post;

    type Response = Empty;

    open spec fn place() -> Place {
        Place { path: "/v1/me/cancelchildorder"@, method: Method::Post, is_private: true }
    }

    proof fn lemma_place() {
        assert(CancelChildOrder::PATH@ == "/v1/me/cancelchildorder"@);
        assert(CancelChildOrder::IS_PRIVATE == true);
        assert(CancelChildOrder::METHOD == Method::Post);
    }

    open spec fn body_text(&self) -> Result<Option<Seq<char>>, ApiErrorView> {
        encoded_body::<CancelChildOrder>(self.deep_view())
    }

    open spec fn response(body: Seq<char>) -> Result<Empty, ApiErrorView> {
        empty_response(body)
    }

    fn url_params(&self) -> (r: Vec<Option<(String, String)>>) {
        no_params()
    }

    fn body(&self) -> (r: Result<Option<String>, ApiError>) {
        encode_body(self)
    }

    fn deserialize_response_body(body: &str) -> (r: Result<Empty, ApiError>) {
        expect_empty(body)
    }
}

/// The model of a [`CancelChildOrder`].
pub struct CancelChildOrderView {
    pub product_code: ProductCode,
    pub child_order_acceptance_id: Seq<char>,
}

impl DeepView for CancelChildOrder {
    type V = CancelChildOrderView;

    open spec fn deep_view(&self) -> CancelChildOrderView {
        CancelChildOrderView {
            product_code: self.product_code,
            child_order_acceptance_id: self.child_order_acceptance_id@,
        }
    }
}

impl CancelChildOrder {
    /// The members of the body, in the order in which they are written.
    /// Nothing where a number of the order has no form on the wire.
    pub open spec fn members(v: CancelChildOrderView) -> Option<Seq<MemberValue>> {
        join(
            member_of::<ProductCode>("product_code"@, v.product_code),
            member_of::<String>("child_order_acceptance_id"@, v.child_order_acceptance_id),
        )
    }
}

impl ToJson for CancelChildOrder {
    open spec fn encoded(v: CancelChildOrderView) -> Option<JsonValue> {
        match CancelChildOrder::members(v) {
            Some(members) => Some(JsonValue::Object(members)),
            None => None,
        }
    }

    fn to_json(&self) -> (r: Option<Json>) {
        let mut out = first_member("product_code", &self.product_code)?;
        if !put_value(&mut out, "child_order_acceptance_id", &self.child_order_acceptance_id) {
            return None;
        }
        Some(object(out))
    }
}

/// A new parent order. The way of the order and its conditions are written
/// as members of the same object as the rest.
#[derive(Clone, Copy, Debug, PartialEq, Eq)]
pub struct SendParentOrder {
    pub order_method: ParentOrderMethod,
    pub minute_to_expire: Option<u64>,
    pub time_in_force: Option<TimeInForce>,
}

impl ApiRequest for SendParentOrder {
    const PATH: &'static str = "/v1/me/sendparentorder";

    const IS_PRIVATE: bool = true;

    const METHOD: Method = Method::Post;

    type Response = SendParentOrderResponse;

    open spec fn place() -> Place {
        Place { path: "/v1/me/sendparentorder"@, method: Method::Post, is_private: true }
    }

    proof fn lemma_place() {
        assert(SendParentOrder::PATH@ == "/v1/me/sendparentorder"@);
        assert(SendParentOrder::IS_PRIVATE == true);
        assert(SendParentOrder::METHOD == Method::Post);
    }

    open spec fn body_text(&self) -> Result<Option<Seq<char>>, ApiErrorView> {
        encoded_body::<SendParentOrder>(self.deep_view())
    }

    fn url_params(&self) -> (r: Vec<Option<(String, String)>>) {
        no_params()
    }

    fn body(&self) -> (r: Result<Option<String>, ApiError>) {
        encode_body(self)
    }

    fn deserialize_response_body(body: &str) -> (r: Result<SendParentOrderResponse, ApiError>) {
        decode_json::<SendParentOrderResponse>(body)
    }
}

impl DeepView for SendParentOrder {
    type V = SendParentOrder;

    open spec fn deep_view(&self) -> SendParentOrder {
        *self
    }
}

impl SendParentOrder {
    /// The members of the body, in the order in which they are written.
    /// Nothing where a number of the order has no form on the wire.
    pub open spec fn members(v: SendParentOrder) -> Option<Seq<MemberValue>> {
        join(
            join(
                ParentOrderMethod::members(v.order_method),
                optional_member::<u64>("minute_to_expire"@, v.minute_to_expire),
            ),
            optional_member::<TimeInForce>("time_in_force"@, v.time_in_force),
        )
    }
}

impl ToJson for SendParentOrder {
    open spec fn encoded(v: SendParentOrder) -> Option<JsonValue> {
        match SendParentOrder::members(v) {
            Some(members) => Some(JsonValue::Object(members)),
            None => None,
        }
    }

    fn to_json(&self) -> (r: Option<Json>) {
        let mut out = self.order_method.to_members()?;
        if !put_optional(&mut out, "minute_to_expire", &self.minute_to_expire) {
            return None;
        }
        if !put_optional(&mut out, "time_in_force", &self.time_in_force) {
            return None;
        }
        Some(object(out))
    }
}

/// Cancels a parent order. The exchange answers with an empty body.
#[derive(Clone, Debug, PartialEq, Eq)]
pub struct CancelParentOrder {
    pub product_code: ProductCode,
    pub parent_order_acceptance_id: String,
}

impl ApiRequest for CancelParentOrder {
    const PATH: &'static str = "/v1/me/cancelparentorder";

    const IS_PRIVATE: bool = true;

    const METHOD: Method = Method::Post;

    type Response = Empty;

    open spec fn place() -> Place {
        Place { path: "/v1/me/cancelparentorder"@, method: Method::Post, is_private: true }
    }

    proof fn lemma_place() {
        assert(CancelParentOrder::PATH@ == "/v1/me/cancelparentorder"@);
        assert(CancelParentOrder::IS_PRIVATE == true);
        assert(CancelParentOrder::METHOD == Method::Post);
    }

    open spec fn body_text(&self) -> Result<Option<Seq<char>>, ApiErrorView> {
        encoded_body::<CancelParentOrder>(self.deep_view())
    }

    open spec fn response(body: Seq<char>) -> Result<Empty, ApiErrorView> {
        empty_response(body)
    }

    fn url_params(&self) -> (r: Vec<Option<(String, String)>>) {
        no_params()
    }

    fn body(&self) -> (r: Result<Option<String>, ApiError>) {
        encode_body(self)
    }

    fn deserialize_response_body(body: &str) -> (r: Result<Empty, ApiError>) {
        expect_empty(body)
    }
}

/// The model of a [`CancelParentOrder`].
pub struct CancelParentOrderView {
    pub product_code: ProductCode,
    pub parent_order_acceptance_id: Seq<char>,
}

impl DeepView for CancelParentOrder {
    type V = CancelParentOrderView;

    open spec fn deep_view(&self) -> CancelParentOrderView {
        CancelParentOrderView {
            product_code: self.product_code,
            parent_order_acceptance_id: self.parent_order_acceptance_id@,
        }
    }
}

impl CancelParentOrder {
    /// The members of the body, in the order in which they are written.
    /// Nothing where a number of the order has no form on the wire.
    pub open spec fn members(v: CancelParentOrderView) -> Option<Seq<MemberValue>> {
        join(
            member_of::<ProductCode>("product_code"@, v.product_code),
            member_of::<String>("parent_order_acceptance_id"@, v.parent_order_acceptance_id),
        )
    }
}

impl ToJson for CancelParentOrder {
    open spec fn encoded(v: CancelParentOrderView) -> Option<JsonValue> {
        match CancelParentOrder::members(v) {
            Some(members) => Some(JsonValue::Object(members)),
            None => None,
        }
    }

    fn to_json(&self) -> (r: Option<Json>) {
        let mut out = first_member("product_code", &self.product_code)?;
        if !put_value(&mut out, "parent_order_acceptance_id", &self.parent_order_acceptance_id) {
            return None;
        }
        Some(object(out))
    }
}

/// Cancels every child order of a product. The exchange answers with an
/// empty body.
#[derive(Clone, Copy, Debug, PartialEq, Eq)]
pub struct CancelAllChildOrders {
    pub product_code: ProductCode,
}

impl ApiRequest for CancelAllChildOrders {
    const PATH: &'static str = "/v1/me/cancelallchildorders";

    const IS_PRIVATE: bool = true;

    const METHOD: Method = Method::Post;

    type Response = Empty;

    open spec fn place() -> Place {
        Place { path: "/v1/me/cancelallchildorders"@, method: Method::Post, is_private: true }
    }

    proof fn lemma_place() {
        assert(CancelAllChildOrders::PATH@ == "/v1/me/cancelallchildorders"@);
        assert(CancelAllChildOrders::IS_PRIVATE == true);
        assert(CancelAllChildOrders::METHOD == Method::Post);
    }

    open spec fn body_text(&self) -> Result<Option<Seq<char>>, ApiErrorView> {
        encoded_body::<CancelAllChildOrders>(self.deep_view())
    }

    open spec fn response(body: Seq<char>) -> Result<Empty, ApiErrorView> {
        empty_response(body)
    }

    fn url_params(&self) -> (r: Vec<Option<(String, String)>>) {
        no_params()
    }

    fn body(&self) -> (r: Result<Option<String>, ApiError>) {
        encode_body(self)
    }

    fn deserialize_response_body(body: &str) -> (r: Result<Empty, ApiError>) {
        expect_empty(body)
    }
}

impl DeepView for CancelAllChildOrders {
    type V = CancelAllChildOrders;

    open spec fn deep_view(&self) -> CancelAllChildOrders {
        *self
    }
}

impl CancelAllChildOrders {
    /// The members of the body, in the order in which they are written.
    /// Nothing where a number of the order has no form on the wire.
    pub open spec fn members(v: CancelAllChildOrders) -> Option<Seq<MemberValue>> {
        member_of::<ProductCode>("product_code"@, v.product_code)
    }
}

impl ToJson for CancelAllChildOrders {
    open spec fn encoded(v: CancelAllChildOrders) -> Option<JsonValue> {
        match CancelAllChildOrders::members(v) {
            Some(members) => Some(JsonValue::Object(members)),
            None => None,
        }
    }

    fn to_json(&self) -> (r: Option<Json>) {
        let out = first_member("product_code", &self.product_code)?;
        Some(object(out))
    }
}

/// The endpoints that cancel answer with nothing: the empty body is their
/// answer, and any other body is an error that holds it.
pub proof fn lemma_cancel_expects_an_empty_body(body: Seq<char>)
    ensures
        body.len() == 0 ==> CancelChildOrder::response(body) == Ok::<Empty, ApiErrorView>(Empty),
        body.len() > 0 ==> CancelChildOrder::response(body) == Err::<Empty, ApiErrorView>(
            ApiErrorView::UnexpectedBody { raw: body },
        ),
        CancelParentOrder::response(body) == CancelChildOrder::response(body),
        CancelAllChildOrders::response(body) == CancelChildOrder::response(body),
{
}

} // verus!
