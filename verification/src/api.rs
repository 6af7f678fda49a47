//! The endpoints of the exchange, and how a call to one is made.

pub mod account;
pub mod client;
pub mod orders;
pub mod public;
pub mod query;
pub mod request;
pub mod response;
pub mod sign;

pub use account::{
    GetBalance, GetChildOrders, GetCollateral, GetCollateralAccounts, GetParentOrder,
    GetParentOrders, GetPermissions, GetPositions,
};
pub use client::{public_request, public_response, Client, HttpRequest};
pub use orders::{
    CancelAllChildOrders, CancelChildOrder, CancelParentOrder, SendChildOrder, SendParentOrder,
};
pub use public::{GetBoard, GetBoardHealth, GetBoardState, GetExecutions, GetMarkets, GetTicker};
pub use query::{QueryValue, Url};
pub use request::{ApiRequest, Empty};
pub use response::{
    GetParentOrdersResponse, GetParentOrdersResponseParameter, SendChildOrderResponse,
    SendParentOrderResponse,
};
