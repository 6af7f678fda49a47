//! The answers to the private endpoints that are not part of the market's
//! own vocabulary.

use crate::codec::{require, required, FromJson};
use crate::decimal::Decimal;
use crate::deserializer::Timestamp;
use crate::entity::{
    OrderState, ParentOrderMethod, ParentOrderSide, ParentOrderType, ProductCode, TimeInForce,
};
use crate::json::{Json, JsonValue};
use vstd::prelude::*;

verus! {

/// The answer to a new child order: the id under which it was accepted.
#[derive(Clone, Debug, PartialEq, Eq)]
pub struct SendChildOrderResponse {
    pub child_order_acceptance_id: String,
}

/// The model of a [`SendChildOrderResponse`].
pub struct SendChildOrderResponseView {
    pub child_order_acceptance_id: Seq<char>,
}

impl DeepView for SendChildOrderResponse {
    type V = SendChildOrderResponseView;

    open spec fn deep_view(&self) -> SendChildOrderResponseView {
        SendChildOrderResponseView {
            child_order_acceptance_id: self.child_order_acceptance_id@,
        }
    }
}

impl FromJson for SendChildOrderResponse {
    open spec fn decoded(j: JsonValue) -> Option<SendChildOrderResponseView> {
        if required::<String>(j, "child_order_acceptance_id"@) is Some {
            Some(
                SendChildOrderResponseView {
                    child_order_acceptance_id: required::<String>(j, "child_order_acceptance_id"@)->0,
                },
            )
        } else {
            None
        }
    }

    fn from_json(j: &Json) -> (r: Option<SendChildOrderResponse>) {
        let child_order_acceptance_id = require::<String>(j, "child_order_acceptance_id")?;
        Some(SendChildOrderResponse { child_order_acceptance_id })
    }
}

/// The answer to a new parent order: the id under which it was accepted.
#[derive(Clone, Debug, PartialEq, Eq)]
pub struct SendParentOrderResponse {
    pub parent_order_acceptance_id: String,
}

/// The model of a [`SendParentOrderResponse`].
pub struct SendParentOrderResponseView {
    pub parent_order_acceptance_id: Seq<char>,
}

impl DeepView for SendParentOrderResponse {
    type V = SendParentOrderResponseView;

    open spec fn deep_view(&self) -> SendParentOrderResponseView {
        SendParentOrderResponseView {
            parent_order_acceptance_id: self.parent_order_acceptance_id@,
        }
    }
}

impl FromJson for SendParentOrderResponse {
    open spec fn decoded(j: JsonValue) -> Option<SendParentOrderResponseView> {
        if required::<String>(j, "parent_order_acceptance_id"@) is Some {
            Some(
                SendParentOrderResponseView {
                    parent_order_acceptance_id: required::<String>(j, "parent_order_acceptance_id"@)->0,
                },
            )
        } else {
            None
        }
    }

    fn from_json(j: &Json) -> (r: Option<SendParentOrderResponse>) {
        let parent_order_acceptance_id = require::<String>(j, "parent_order_acceptance_id")?;
        Some(SendParentOrderResponse { parent_order_acceptance_id })
    }
}

/// A parent order as the exchange lists it.
#[derive(Clone, Debug, PartialEq, Eq)]
pub struct GetParentOrdersResponseParameter {
    pub id: u64,
    pub parent_order_id: String,
    pub product_code: ProductCode,
    pub side: ParentOrderSide,
    pub parent_order_type: ParentOrderType,
    pub price: Decimal,
    pub average_price: Decimal,
    pub size: Decimal,
    pub parent_order_state: OrderState,
    pub expire_date: Timestamp,
    pub parent_order_date: Timestamp,
    pub parent_order_acceptance_id: String,
    pub outstanding_size: Decimal,
    pub cancel_size: Decimal,
    pub executed_size: Decimal,
    pub total_commission: Decimal,
}

/// The model of a [`GetParentOrdersResponseParameter`].
pub struct GetParentOrdersResponseParameterView {
    pub id: u64,
    pub parent_order_id: Seq<char>,
    pub product_code: ProductCode,
    pub side: ParentOrderSide,
    pub parent_order_type: ParentOrderType,
    pub price: Decimal,
    pub average_price: Decimal,
    pub size: Decimal,
    pub parent_order_state: OrderState,
    pub expire_date: Timestamp,
    pub parent_order_date: Timestamp,
    pub parent_order_acceptance_id: Seq<char>,
    pub outstanding_size: Decimal,
    pub cancel_size: Decimal,
    pub executed_size: Decimal,
    pub total_commission: Decimal,
}

impl DeepView for GetParentOrdersResponseParameter {
    type V = GetParentOrdersResponseParameterView;

    open spec fn deep_view(&self) -> GetParentOrdersResponseParameterView {
        GetParentOrdersResponseParameterView {
            id: self.id,
            parent_order_id: self.parent_order_id@,
            product_code: self.product_code,
            side: self.side,
            parent_order_type: self.parent_order_type,
            price: self.price,
            average_price: self.average_price,
            size: self.size,
            parent_order_state: self.parent_order_state,
            expire_date: self.expire_date,
            parent_order_date: self.parent_order_date,
            parent_order_acceptance_id: self.parent_order_acceptance_id@,
            outstanding_size: self.outstanding_size,
            cancel_size: self.cancel_size,
            executed_size: self.executed_size,
            total_commission: self.total_commission,
        }
    }
}

impl FromJson for GetParentOrdersResponseParameter {
    open spec fn decoded(j: JsonValue) -> Option<GetParentOrdersResponseParameterView> {
        if required::<u64>(j, "id"@) is Some
            && required::<String>(j, "parent_order_id"@) is Some
            && required::<ProductCode>(j, "product_code"@) is Some
            && required::<ParentOrderSide>(j, "side"@) is Some
            && required::<ParentOrderType>(j, "parent_order_type"@) is Some
            && required::<Decimal>(j, "price"@) is Some
            && required::<Decimal>(j, "average_price"@) is Some
            && required::<Decimal>(j, "size"@) is Some
            && required::<OrderState>(j, "parent_order_state"@) is Some
            && required::<Timestamp>(j, "expire_date"@) is Some
            && required::<Timestamp>(j, "parent_order_date"@) is Some
            && required::<String>(j, "parent_order_acceptance_id"@) is Some
            && required::<Decimal>(j, "outstanding_size"@) is Some
            && required::<Decimal>(j, "cancel_size"@) is Some
            && required::<Decimal>(j, "executed_size"@) is Some
            && required::<Decimal>(j, "total_commission"@) is Some {
            Some(
                GetParentOrdersResponseParameterView {
                    id: required::<u64>(j, "id"@)->0,
                    parent_order_id: required::<String>(j, "parent_order_id"@)->0,
                    product_code: required::<ProductCode>(j, "product_code"@)->0,
                    side: required::<ParentOrderSide>(j, "side"@)->0,
                    parent_order_type: required::<ParentOrderType>(j, "parent_order_type"@)->0,
                    price: required::<Decimal>(j, "price"@)->0,
                    average_price: required::<Decimal>(j, "average_price"@)->0,
                    size: required::<Decimal>(j, "size"@)->0,
                    parent_order_state: required::<OrderState>(j, "parent_order_state"@)->0,
                    expire_date: required::<Timestamp>(j, "expire_date"@)->0,
                    parent_order_date: required::<Timestamp>(j, "parent_order_date"@)->0,
                    parent_order_acceptance_id: required::<String>(j, "parent_order_acceptance_id"@)->0,
                    outstanding_size: required::<Decimal>(j, "outstanding_size"@)->0,
                    cancel_size: required::<Decimal>(j, "cancel_size"@)->0,
                    executed_size: required::<Decimal>(j, "executed_size"@)->0,
                    total_commission: required::<Decimal>(j, "total_commission"@)->0,
                },
            )
        } else {
            None
        }
    }

    fn from_json(j: &Json) -> (r: Option<GetParentOrdersResponseParameter>) {
        let id = require::<u64>(j, "id")?;
        let parent_order_id = require::<String>(j, "parent_order_id")?;
        let product_code = require::<ProductCode>(j, "product_code")?;
        let side = require::<ParentOrderSide>(j, "side")?;
        let parent_order_type = require::<ParentOrderType>(j, "parent_order_type")?;
        let price = require::<Decimal>(j, "price")?;
        let average_price = require::<Decimal>(j, "average_price")?;
        let size = require::<Decimal>(j, "size")?;
        let parent_order_state = require::<OrderState>(j, "parent_order_state")?;
        let expire_date = require::<Timestamp>(j, "expire_date")?;
        let parent_order_date = require::<Timestamp>(j, "parent_order_date")?;
        let parent_order_acceptance_id = require::<String>(j, "parent_order_acceptance_id")?;
        let outstanding_size = require::<Decimal>(j, "outstanding_size")?;
        let cancel_size = require::<Decimal>(j, "cancel_size")?;
        let executed_size = require::<Decimal>(j, "executed_size")?;
        let total_commission = require::<Decimal>(j, "total_commission")?;
        Some(
            GetParentOrdersResponseParameter {
                id,
                parent_order_id,
                product_code,
                side,
                parent_order_type,
                price,
                average_price,
                size,
                parent_order_state,
                expire_date,
                parent_order_date,
                parent_order_acceptance_id,
                outstanding_size,
                cancel_size,
                executed_size,
                total_commission,
            },
        )
    }
}

/// One parent order in full. The way of the order and its conditions are
/// members of the same object as the rest.
#[derive(Clone, Debug, PartialEq, Eq)]
pub struct GetParentOrdersResponse {
    pub id: u64,
    pub parent_order_id: String,
    pub expire_date: Timestamp,
    pub time_in_force: TimeInForce,
    pub order_method: ParentOrderMethod,
    pub parent_order_acceptance_id: String,
}

/// The model of a [`GetParentOrdersResponse`].
pub struct GetParentOrdersResponseView {
    pub id: u64,
    pub parent_order_id: Seq<char>,
    pub expire_date: Timestamp,
    pub time_in_force: TimeInForce,
    pub order_method: ParentOrderMethod,
    pub parent_order_acceptance_id: Seq<char>,
}

impl DeepView for GetParentOrdersResponse {
    type V = GetParentOrdersResponseView;

    open spec fn deep_view(&self) -> GetParentOrdersResponseView {
        GetParentOrdersResponseView {
            id: self.id,
            parent_order_id: self.parent_order_id@,
            expire_date: self.expire_date,
            time_in_force: self.time_in_force,
            order_method: self.order_method,
            parent_order_acceptance_id: self.parent_order_acceptance_id@,
        }
    }
}

impl FromJson for GetParentOrdersResponse {
    open spec fn decoded(j: JsonValue) -> Option<GetParentOrdersResponseView> {
        if required::<u64>(j, "id"@) is Some
            && required::<String>(j, "parent_order_id"@) is Some
            && required::<Timestamp>(j, "expire_date"@) is Some
            && required::<TimeInForce>(j, "time_in_force"@) is Some
            && ParentOrderMethod::decoded(j) is Some
            && required::<String>(j, "parent_order_acceptance_id"@) is Some {
            Some(
                GetParentOrdersResponseView {
                    id: required::<u64>(j, "id"@)->0,
                    parent_order_id: required::<String>(j, "parent_order_id"@)->0,
                    expire_date: required::<Timestamp>(j, "expire_date"@)->0,
                    time_in_force: required::<TimeInForce>(j, "time_in_force"@)->0,
                    order_method: ParentOrderMethod::decoded(j)->0,
                    parent_order_acceptance_id: required::<String>(j, "parent_order_acceptance_id"@)->0,
                },
            )
        } else {
            None
        }
    }

    fn from_json(j: &Json) -> (r: Option<GetParentOrdersResponse>) {
        let id = require::<u64>(j, "id")?;
        let parent_order_id = require::<String>(j, "parent_order_id")?;
        let expire_date = require::<Timestamp>(j, "expire_date")?;
        let time_in_force = require::<TimeInForce>(j, "time_in_force")?;
        let order_method = ParentOrderMethod::from_json(j)?;
        let parent_order_acceptance_id = require::<String>(j, "parent_order_acceptance_id")?;
        Some(
            GetParentOrdersResponse {
                id,
                parent_order_id,
                expire_date,
                time_in_force,
                order_method,
                parent_order_acceptance_id,
            },
        )
    }
}
} // verus!
