use bitflyer::api::request::{decode_document, decode_json, expect_empty, write_body};
use bitflyer::api::sign::{
    build_signed_headers, build_signing_text, sign, write_signature,
};
use bitflyer::api::{
    public_request, public_response, ApiRequest, CancelAllChildOrders, CancelChildOrder,
    CancelParentOrder, Client, Empty, GetBalance, GetBoard, GetBoardHealth, GetBoardState,
    GetChildOrders, GetCollateral, GetCollateralAccounts, GetExecutions, GetMarkets,
    GetParentOrder, GetParentOrders, GetParentOrdersResponse, GetParentOrdersResponseParameter,
    GetPermissions, GetPositions, GetTicker, HttpRequest, QueryValue, SendChildOrder,
    SendChildOrderResponse, SendParentOrder, SendParentOrderResponse,
};
use bitflyer::api::query::{build_url, finish_url, keep_present, Url};
use bitflyer::decimal::Decimal;
use bitflyer::deserializer::Timestamp;
use bitflyer::entity::{
    Balance, Board, BoardElement, BoardHealth, BoardState, BoardStateData, ChildOrder,
    ChildOrderType, Collateral, CollateralAccount, Execution, Health, Market, MarketType,
    OrderState, ParentOrderConditionType, ParentOrderMethod, ParentOrderSide, ParentOrderType,
    Position, ProductCode, Side, State, Ticker, TimeInForce,
};
use bitflyer::error::{ApiError, Method};
use bitflyer::json::Json;

const TICKER: &str = r#"{"product_code":"BTC_JPY","state":"RUNNING","timestamp":"2015-07-08T02:50:59.97","tick_id":3579,"best_bid":30000,"best_ask":36640,"best_bid_size":0.1,"best_ask_size":5,"total_bid_depth":15.13,"total_ask_depth":20,"market_bid_size":0,"market_ask_size":0,"ltp":31690,"volume":16819.26,"volume_by_product":6819.26}"#;

const CHILD_ORDER_BODY: &str = r#"{"child_order_type":"LIMIT","price":100,"product_code":"BTC_JPY","side":"BUY","size":0.01,"minute_to_expire":10000,"time_in_force":"GTC"}"#;

fn dec(mantissa: i128, scale: u32) -> Decimal {
    Decimal { mantissa, scale }
}

fn pair(name: &str, value: &str) -> (String, String) {
    (name.to_string(), value.to_string())
}

fn child_order() -> SendChildOrder {
    SendChildOrder {
        child_order_type: ChildOrderType::Limit { price: dec(100, 0) },
        product_code: ProductCode::BtcJpy,
        side: Side::Buy,
        size: dec(1, 2),
        minute_to_expire: Some(10000),
        time_in_force: Some(TimeInForce::Gtc),
    }
}

fn ticker() -> Ticker {
    Ticker {
        product_code: ProductCode::BtcJpy,
        state: State::Running,
        timestamp: Timestamp { seconds: 1436323859, nanos: 970_000_000 },
        tick_id: dec(3579, 0),
        best_bid: dec(30000, 0),
        best_ask: dec(36640, 0),
        best_bid_size: dec(1, 1),
        best_ask_size: dec(5, 0),
        total_bid_depth: dec(1513, 2),
        total_ask_depth: dec(20, 0),
        market_bid_size: dec(0, 0),
        market_ask_size: dec(0, 0),
        ltp: dec(31690, 0),
        volume: dec(1681926, 2),
        volume_by_product: dec(681926, 2),
    }
}

#[test]
fn query_parameter_of_a_value() {
    assert_eq!(Some(5u64).to_query_parameter("count"), Some(pair("count", "5")));
    assert_eq!(None::<u64>.to_query_parameter("count"), None);
    assert_eq!(
        Some(ProductCode::FxBtcJpy).to_query_parameter("product_code"),
        Some(pair("product_code", "FX_BTC_JPY"))
    );
    assert_eq!(
        Some(OrderState::Active).to_query_parameter("parent_order_state"),
        Some(pair("parent_order_state", "ACTIVE"))
    );
    assert_eq!(Some("JRF1".to_string()).to_query_parameter("id"), Some(pair("id", "JRF1")));
}

#[test]
fn absent_parameters_are_dropped_and_the_rest_keep_their_order() {
    let params = vec![
        None,
        Some(pair("a", "1")),
        None,
        None,
        Some(pair("b", "2")),
        Some(pair("a", "3")),
        None,
    ];
    assert_eq!(keep_present(&params), vec![pair("a", "1"), pair("b", "2"), pair("a", "3")]);
    assert_eq!(keep_present(&vec![None, None]), vec![]);
    assert_eq!(keep_present(&vec![]), vec![]);
}

#[test]
fn url_without_parameters_has_no_query() {
    let url = GetMarkets.url().unwrap();
    assert_eq!(url.text, "https://api.bitflyer.com/v1/markets");
    assert_eq!(url.query, None);
    let url = GetTicker { product_code: None }.url().unwrap();
    assert_eq!(url.text, "https://api.bitflyer.com/v1/ticker");
    assert_eq!(url.query, None);
    let url = GetExecutions::default().url().unwrap();
    assert_eq!(url.text, "https://api.bitflyer.com/v1/executions");
}

#[test]
fn get_ticker_builds_its_url() {
    let url = GetTicker { product_code: Some(ProductCode::BtcJpy) }.url().unwrap();
    assert_eq!(url.text, "https://api.bitflyer.com/v1/ticker?product_code=BTC_JPY");
    assert_eq!(url.query, Some("product_code=BTC_JPY".to_string()));
}

#[test]
fn url_holds_the_present_parameters_in_declared_order() {
    let request = GetExecutions {
        product_code: Some(ProductCode::EthJpy),
        count: None,
        before: Some(5),
        after: Some(7),
    };
    assert_eq!(
        request.url_params(),
        vec![
            Some(pair("product_code", "ETH_JPY")),
            None,
            Some(pair("before", "5")),
            Some(pair("after", "7")),
        ]
    );
    assert_eq!(
        request.url().unwrap().text,
        "https://api.bitflyer.com/v1/executions?product_code=ETH_JPY&before=5&after=7"
    );
}

#[test]
fn url_encodes_names_and_values() {
    let request = GetParentOrder {
        parent_order_id: Some("a b&c=d/é".to_string()),
        parent_order_acceptance_id: None,
    };
    let url = request.url().unwrap();
    assert_eq!(
        url.text,
        "https://api.bitflyer.com/v1/me/getparentorder?parent_order_id=a+b%26c%3Dd%2F%C3%A9"
    );
    let built = build_url("/v1/x", &vec![Some(pair("k y", "v"))]).unwrap();
    assert_eq!(built.text, "https://api.bitflyer.com/v1/x?k+y=v");
}

#[test]
fn url_is_written_as_the_parser_writes_it() {
    let root = build_url("", &vec![]).unwrap();
    assert_eq!(root.text, "https://api.bitflyer.com/");
    assert_eq!(root.query, None);
    let spaced = build_url("/v1/a b", &vec![None]).unwrap();
    assert_eq!(spaced.text, "https://api.bitflyer.com/v1/a%20b");
    let dotted = build_url("/v1/x/../markets", &vec![]).unwrap();
    assert_eq!(dotted.text, "https://api.bitflyer.com/v1/markets");
    let asked = build_url("/v1/x?a=1", &vec![Some(pair("b", "2"))]).unwrap();
    assert_eq!(asked.text, "https://api.bitflyer.com/v1/x?a=1&b=2");
    assert_eq!(asked.query, Some("a=1&b=2".to_string()));
}

#[test]
fn url_that_does_not_parse_is_an_error_with_the_address() {
    assert_eq!(
        finish_url("/v1/x", None),
        Err(ApiError::UrlBuild { input: "https://api.bitflyer.com/v1/x".to_string() })
    );
    let url = Url { text: "https://api.bitflyer.com/v1/x".to_string(), query: None };
    assert_eq!(finish_url("/v1/x", Some(url.clone())), Ok(url));
    assert_eq!(
        build_url(":99999999/", &vec![]),
        Err(ApiError::UrlBuild { input: "https://api.bitflyer.com:99999999/".to_string() })
    );
    assert_eq!(
        build_url(":99999999/", &vec![Some(pair("a", "1"))]),
        Err(ApiError::UrlBuild { input: "https://api.bitflyer.com:99999999/".to_string() })
    );
}

#[test]
fn every_endpoint_has_its_place() {
    fn place<T: ApiRequest>() -> (&'static str, Method, bool) {
        (T::PATH, T::METHOD, T::IS_PRIVATE)
    }
    assert_eq!(place::<GetMarkets>(), ("/v1/markets", Method::Get, false));
    assert_eq!(place::<GetBoard>(), ("/v1/board", Method::Get, false));
    assert_eq!(place::<GetTicker>(), ("/v1/ticker", Method::Get, false));
    assert_eq!(place::<GetExecutions>(), ("/v1/executions", Method::Get, false));
    assert_eq!(place::<GetBoardState>(), ("/v1/getboardstate", Method::Get, false));
    assert_eq!(place::<GetBoardHealth>(), ("/v1/gethealth", Method::Get, false));
    assert_eq!(place::<GetPermissions>(), ("/v1/me/getpermissions", Method::Get, true));
    assert_eq!(place::<GetBalance>(), ("/v1/me/getbalance", Method::Get, true));
    assert_eq!(place::<GetCollateral>(), ("/v1/me/getcollateral", Method::Get, true));
    assert_eq!(
        place::<GetCollateralAccounts>(),
        ("/v1/me/getcollateralaccounts", Method::Get, true)
    );
    assert_eq!(place::<SendChildOrder>(), ("/v1/me/sendchildorder", Method::Post, true));
    assert_eq!(place::<CancelChildOrder>(), ("/v1/me/cancelchildorder", Method::Post, true));
    assert_eq!(place::<SendParentOrder>(), ("/v1/me/sendparentorder", Method::Post, true));
    assert_eq!(place::<CancelParentOrder>(), ("/v1/me/cancelparentorder", Method::Post, true));
    assert_eq!(
        place::<CancelAllChildOrders>(),
        ("/v1/me/cancelallchildorders", Method::Post, true)
    );
    assert_eq!(place::<GetChildOrders>(), ("/v1/me/getchildorders", Method::Get, true));
    assert_eq!(place::<GetParentOrders>(), ("/v1/me/getparentorders", Method::Get, true));
    assert_eq!(place::<GetParentOrder>(), ("/v1/me/getparentorder", Method::Get, true));
    assert_eq!(place::<GetPositions>(), ("/v1/me/getpositions", Method::Get, true));
}

#[test]
fn lists_of_orders_name_their_parameters() {
    let request = GetChildOrders {
        product_code: Some(ProductCode::BtcJpy),
        count: Some(10),
        before: None,
        after: None,
        child_order_acceptance_id: Some("JRF20150707-084552-031927".to_string()),
        parent_order_id: Some("JCP20150707-084552-031927".to_string()),
    };
    assert_eq!(
        request.url().unwrap().query,
        Some(
            "product_code=BTC_JPY&count=10&child_order_acceptance_id=JRF20150707-084552-031927&child_order_id=JCP20150707-084552-031927"
                .to_string()
        )
    );
    let request = GetParentOrders {
        product_code: None,
        count: None,
        before: Some(3),
        after: None,
        parent_order_state: Some(OrderState::Completed),
    };
    assert_eq!(
        request.url().unwrap().query,
        Some("before=3&parent_order_state=COMPLETED".to_string())
    );
    assert_eq!(
        GetPositions {}.url().unwrap().text,
        "https://api.bitflyer.com/v1/me/getpositions?product_code=FX_BTC_JPY"
    );
    assert_eq!(GetBoard::default().url_params(), vec![None]);
    assert_eq!(GetBalance.url_params(), vec![]);
}

#[test]
fn signature_matches_the_reference_vector() {
    assert_eq!(
        sign("Jefe", "what do ya want for nothing?"),
        Some("5bdcc146bf60754e6a042426089575c75a003f089d2739839dec58b964ec3843".to_string())
    );
}

#[test]
fn signature_is_a_function_of_its_inputs() {
    let text = build_signing_text(
        1436323859,
        Method::Post,
        "/v1/me/sendchildorder",
        None,
        Some(CHILD_ORDER_BODY),
    );
    assert_eq!(text, format!("1436323859POST/v1/me/sendchildorder{}", CHILD_ORDER_BODY));
    let first = sign("secret", &text);
    let second = sign("secret", &text);
    assert_eq!(first, second);
    assert_eq!(
        first,
        Some("029fc6de5dc720f8b43eed967b5a7e73ae9ff0a35ad49216de4791c860bc32f2".to_string())
    );
    assert_ne!(sign("secret2", &text), first);
    assert_ne!(sign("secret", "1436323860POST/v1/me/sendchildorder"), first);
}

#[test]
fn signing_text_puts_the_parts_in_their_order() {
    assert_eq!(
        build_signing_text(
            1436323859,
            Method::Get,
            "/v1/me/getchildorders",
            Some("product_code=BTC_JPY&count=10"),
            None
        ),
        "1436323859GET/v1/me/getchildorders?product_code=BTC_JPY&count=10"
    );
    assert_eq!(
        build_signing_text(1436323859, Method::Get, "/v1/me/getbalance", None, None),
        "1436323859GET/v1/me/getbalance"
    );
    assert_eq!(
        build_signing_text(1436323859, Method::Get, "/v1/me/getbalance", Some(""), None),
        "1436323859GET/v1/me/getbalance"
    );
    assert_eq!(build_signing_text(-5, Method::Post, "/p", Some("q=1"), Some("{}")), "-5POST/p?q=1{}");
}

#[test]
fn a_code_is_written_in_lower_case_hex() {
    assert_eq!(write_signature(None), None);
    assert_eq!(write_signature(Some(vec![0xAB, 0x01])), Some("ab01".to_string()));
}

#[test]
fn signed_headers_carry_key_timestamp_and_signature() {
    assert_eq!(
        build_signed_headers("key", 1436323859, "abcd".to_string(), false),
        vec![
            pair("ACCESS-KEY", "key"),
            pair("ACCESS-TIMESTAMP", "1436323859"),
            pair("ACCESS-SIGN", "abcd"),
        ]
    );
    assert_eq!(
        build_signed_headers("key", 1, "abcd".to_string(), true),
        vec![
            pair("ACCESS-KEY", "key"),
            pair("ACCESS-TIMESTAMP", "1"),
            pair("ACCESS-SIGN", "abcd"),
            pair("content-type", "application/json"),
        ]
    );
}

#[test]
fn child_order_body_is_written_member_by_member() {
    assert_eq!(child_order().body(), Ok(Some(CHILD_ORDER_BODY.to_string())));
    let market = SendChildOrder {
        child_order_type: ChildOrderType::Market,
        product_code: ProductCode::FxBtcJpy,
        side: Side::Sell,
        size: dec(15, 1),
        minute_to_expire: None,
        time_in_force: None,
    };
    assert_eq!(
        market.body(),
        Ok(Some(
            r#"{"child_order_type":"MARKET","product_code":"FX_BTC_JPY","side":"SELL","size":1.5}"#
                .to_string()
        ))
    );
}

#[test]
fn body_that_has_no_form_on_the_wire_is_a_serialization_error() {
    let mut order = child_order();
    order.size = Decimal { mantissa: 1, scale: 99 };
    assert_eq!(order.body(), Err(ApiError::Serialization));
    assert_eq!(write_body(None), Err(ApiError::Serialization));
    assert_eq!(write_body(Some(Json::Number("1x".to_string()))), Err(ApiError::Serialization));
    assert_eq!(write_body(Some(Json::Number("12".to_string()))), Ok(Some("12".to_string())));
    assert_eq!(
        write_body(Some(Json::String("a\"b\n".to_string()))),
        Ok(Some(r#""a\"b\n""#.to_string()))
    );
}

#[test]
fn body_that_is_nested_too_deep_is_not_written() {
    let mut deep = Json::Null;
    for _ in 0..128 {
        deep = Json::Array(vec![deep]);
    }
    let text = format!("{}null{}", "[".repeat(128), "]".repeat(128));
    assert_eq!(write_body(Some(deep)), Ok(Some(text)));
    let mut deeper = Json::Null;
    for _ in 0..129 {
        deeper = Json::Array(vec![deeper]);
    }
    assert_eq!(write_body(Some(deeper)), Err(ApiError::Serialization));
}

#[test]
fn parent_order_body_holds_its_conditions() {
    let order = SendParentOrder {
        order_method: ParentOrderMethod::Ifd {
            parameters: [
                ParentOrderConditionType::Limit {
                    product_code: ProductCode::BtcJpy,
                    side: Side::Buy,
                    size: dec(1, 1),
                    price: dec(30000, 0),
                },
                ParentOrderConditionType::Trail {
                    product_code: ProductCode::BtcJpy,
                    side: Side::Sell,
                    size: dec(1, 1),
                    offset: 100,
                },
            ],
        },
        minute_to_expire: Some(10000),
        time_in_force: None,
    };
    assert_eq!(
        order.body(),
        Ok(Some(
            r#"{"order_method":"IFD","parameters":[{"condition_type":"LIMIT","product_code":"BTC_JPY","side":"BUY","size":0.1,"price":30000},{"condition_type":"TRAIL","product_code":"BTC_JPY","side":"SELL","size":0.1,"offset":100}],"minute_to_expire":10000}"#
                .to_string()
        ))
    );
}

#[test]
fn cancel_bodies_name_the_order() {
    let cancel = CancelChildOrder {
        product_code: ProductCode::BtcJpy,
        child_order_acceptance_id: "JRF20150707-033333-099999".to_string(),
    };
    assert_eq!(
        cancel.body(),
        Ok(Some(
            r#"{"product_code":"BTC_JPY","child_order_acceptance_id":"JRF20150707-033333-099999"}"#
                .to_string()
        ))
    );
    let cancel = CancelParentOrder {
        product_code: ProductCode::BtcJpy,
        parent_order_acceptance_id: "JRF20150925-033333-099999".to_string(),
    };
    assert_eq!(
        cancel.body(),
        Ok(Some(
            r#"{"product_code":"BTC_JPY","parent_order_acceptance_id":"JRF20150925-033333-099999"}"#
                .to_string()
        ))
    );
    assert_eq!(
        CancelAllChildOrders { product_code: ProductCode::EthJpy }.body(),
        Ok(Some(r#"{"product_code":"ETH_JPY"}"#.to_string()))
    );
    assert_eq!(GetBalance.body(), Ok(None));
    assert_eq!(GetTicker::default().body(), Ok(None));
}

#[test]
fn cancel_child_order_expects_an_empty_body() {
    assert_eq!(CancelChildOrder::deserialize_response_body(""), Ok(Empty));
    assert_eq!(
        CancelChildOrder::deserialize_response_body("{}"),
        Err(ApiError::UnexpectedBody { raw: "{}".to_string() })
    );
    assert_eq!(
        CancelChildOrder::deserialize_response_body(" "),
        Err(ApiError::UnexpectedBody { raw: " ".to_string() })
    );
    assert_eq!(CancelParentOrder::deserialize_response_body(""), Ok(Empty));
    assert_eq!(
        CancelParentOrder::deserialize_response_body("null"),
        Err(ApiError::UnexpectedBody { raw: "null".to_string() })
    );
    assert_eq!(CancelAllChildOrders::deserialize_response_body(""), Ok(Empty));
    assert_eq!(
        CancelAllChildOrders::deserialize_response_body("[]"),
        Err(ApiError::UnexpectedBody { raw: "[]".to_string() })
    );
    assert_eq!(expect_empty(""), Ok(Empty));
    assert_eq!(expect_empty("x"), Err(ApiError::UnexpectedBody { raw: "x".to_string() }));
}

#[test]
fn public_call_is_not_signed() {
    let client = Client::new(String::new(), None);
    let request = GetTicker { product_code: Some(ProductCode::BtcJpy) };
    let sent = client.prepare(&request, 1436323859).unwrap();
    assert_eq!(
        sent,
        HttpRequest {
            method: Method::Get,
            url: "https://api.bitflyer.com/v1/ticker?product_code=BTC_JPY".to_string(),
            headers: vec![],
            body: None,
        }
    );
    assert_eq!(public_request(&request), Ok(sent));
}

#[test]
fn get_ticker_end_to_end() {
    let client = Client::new(String::new(), None);
    let request = GetTicker { product_code: Some(ProductCode::BtcJpy) };
    let sent = client.prepare(&request, 0).unwrap();
    assert_eq!(sent.url, "https://api.bitflyer.com/v1/ticker?product_code=BTC_JPY");
    assert_eq!(sent.method, Method::Get);
    assert!(sent.headers.is_empty());
    assert_eq!(Client::receive::<GetTicker>(&sent, 200, TICKER), Ok(ticker()));
    assert_eq!(
        Client::receive::<GetTicker>(&sent, 503, TICKER),
        Err(ApiError::Http {
            status: 503,
            method: Method::Get,
            url: "https://api.bitflyer.com/v1/ticker?product_code=BTC_JPY".to_string(),
            request_body: None,
            body: TICKER.to_string(),
        })
    );
    assert_eq!(
        Client::receive::<GetTicker>(&sent, 503, "Service Unavailable"),
        Err(ApiError::Http {
            status: 503,
            method: Method::Get,
            url: "https://api.bitflyer.com/v1/ticker?product_code=BTC_JPY".to_string(),
            request_body: None,
            body: "Service Unavailable".to_string(),
        })
    );
}

#[test]
fn only_the_statuses_from_200_to_299_are_success() {
    let sent = public_request(&GetBoardHealth::default()).unwrap();
    let body = r#"{"status":"NORMAL"}"#;
    let health = BoardHealth { status: Health::Normal };
    assert_eq!(Client::receive::<GetBoardHealth>(&sent, 200, body), Ok(health));
    assert_eq!(Client::receive::<GetBoardHealth>(&sent, 204, body), Ok(health));
    assert_eq!(Client::receive::<GetBoardHealth>(&sent, 299, body), Ok(health));
    assert_eq!(public_response::<GetBoardHealth>(&sent, 200, body), Ok(health));
    for status in [0u16, 100, 199, 300, 301, 400, 404, 500, 503, u16::MAX] {
        let want = Err(ApiError::Http {
            status,
            method: Method::Get,
            url: sent.url.clone(),
            request_body: None,
            body: body.to_string(),
        });
        assert_eq!(Client::receive::<GetBoardHealth>(&sent, status, body), want);
        assert_eq!(public_response::<GetBoardHealth>(&sent, status, body), want);
    }
}

#[test]
fn private_call_without_secret_is_an_auth_error() {
    let client = Client::new("key".to_string(), None);
    assert_eq!(client.prepare(&GetBalance, 1436323859), Err(ApiError::Auth));
    assert_eq!(client.prepare(&child_order(), 1436323859), Err(ApiError::Auth));
    assert!(client.prepare(&GetMarkets, 1436323859).is_ok());
}

#[test]
fn private_call_is_signed() {
    let client = Client::new("key".to_string(), Some("secret".to_string()));
    let sent = client.prepare(&child_order(), 1436323859).unwrap();
    assert_eq!(
        sent,
        HttpRequest {
            method: Method::Post,
            url: "https://api.bitflyer.com/v1/me/sendchildorder".to_string(),
            headers: vec![
                pair("ACCESS-KEY", "key"),
                pair("ACCESS-TIMESTAMP", "1436323859"),
                pair(
                    "ACCESS-SIGN",
                    "029fc6de5dc720f8b43eed967b5a7e73ae9ff0a35ad49216de4791c860bc32f2"
                ),
                pair("content-type", "application/json"),
            ],
            body: Some(CHILD_ORDER_BODY.to_string()),
        }
    );
    let list = GetChildOrders {
        product_code: Some(ProductCode::BtcJpy),
        count: Some(10),
        ..GetChildOrders::default()
    };
    let sent = client.prepare(&list, 1436323859).unwrap();
    assert_eq!(sent.method, Method::Get);
    assert_eq!(sent.body, None);
    assert_eq!(
        sent.headers,
        vec![
            pair("ACCESS-KEY", "key"),
            pair("ACCESS-TIMESTAMP", "1436323859"),
            pair(
                "ACCESS-SIGN",
                "035b9302f4853880332379b5c61af49225f7c637d6f0c8b286fe107ea49aa4d2"
            ),
        ]
    );
    let sent = client.prepare(&GetBalance, 1436323859).unwrap();
    assert_eq!(
        sent.headers[2],
        pair("ACCESS-SIGN", "041e219d06eb8f6ed334df4206892621d613534c118db99c025ba9b9e0c1437f")
    );
}

#[test]
fn a_failed_private_call_keeps_what_was_sent() {
    let client = Client::new("key".to_string(), Some("secret".to_string()));
    let sent = client.prepare(&child_order(), 1436323859).unwrap();
    assert_eq!(
        Client::receive::<SendChildOrder>(&sent, 400, r#"{"status":-200}"#),
        Err(ApiError::Http {
            status: 400,
            method: Method::Post,
            url: "https://api.bitflyer.com/v1/me/sendchildorder".to_string(),
            request_body: Some(CHILD_ORDER_BODY.to_string()),
            body: r#"{"status":-200}"#.to_string(),
        })
    );
    assert_eq!(
        Client::receive::<SendChildOrder>(
            &sent,
            200,
            r#"{"child_order_acceptance_id":"JRF20150707-050237-639234"}"#
        ),
        Ok(SendChildOrderResponse {
            child_order_acceptance_id: "JRF20150707-050237-639234".to_string()
        })
    );
    assert_eq!(
        Client::receive::<SendParentOrder>(
            &sent,
            200,
            r#"{"parent_order_acceptance_id":"JRF20150707-050237-639234"}"#
        ),
        Ok(SendParentOrderResponse {
            parent_order_acceptance_id: "JRF20150707-050237-639234".to_string()
        })
    );
    assert_eq!(Client::receive::<CancelChildOrder>(&sent, 200, ""), Ok(Empty));
    assert_eq!(
        Client::receive::<CancelChildOrder>(&sent, 200, "ok"),
        Err(ApiError::UnexpectedBody { raw: "ok".to_string() })
    );
}

#[test]
fn a_body_that_does_not_read_is_a_decode_error_with_the_body() {
    assert_eq!(
        GetTicker::deserialize_response_body("{"),
        Err(ApiError::Decode { raw: "{".to_string() })
    );
    assert_eq!(
        GetTicker::deserialize_response_body(""),
        Err(ApiError::Decode { raw: String::new() })
    );
    assert_eq!(
        GetTicker::deserialize_response_body("{}"),
        Err(ApiError::Decode { raw: "{}".to_string() })
    );
    let late = TICKER.replace("2015-07-08T02:50:59.97", "not-a-date");
    assert_eq!(
        GetTicker::deserialize_response_body(&late),
        Err(ApiError::Decode { raw: late.clone() })
    );
    let unknown_state = TICKER.replace("RUNNING", "SLEEPING");
    assert_eq!(
        decode_json::<Ticker>(&unknown_state),
        Err(ApiError::Decode { raw: unknown_state.clone() })
    );
    assert_eq!(
        decode_document::<Ticker>(None, "x"),
        Err(ApiError::Decode { raw: "x".to_string() })
    );
    assert_eq!(
        decode_document::<u64>(Some(Json::Number("5".to_string())), "5"),
        Ok(5)
    );
}

#[test]
fn ticker_of_an_unknown_product_still_reads() {
    let doge = TICKER.replace("BTC_JPY", "DOGE_JPY");
    let mut want = ticker();
    want.product_code = ProductCode::Other;
    assert_eq!(GetTicker::deserialize_response_body(&doge), Ok(want));
}

#[test]
fn members_that_are_not_declared_are_passed_over() {
    let more = TICKER.replace("{\"product_code\"", "{\"extra\":[1,{\"a\":null}],\"product_code\"");
    assert_eq!(GetTicker::deserialize_response_body(&more), Ok(ticker()));
}

#[test]
fn markets_are_read() {
    let body = r#"[{"product_code":"BTC_JPY","market_type":"Spot"},{"product_code":"FX_BTC_JPY","market_type":"FX"},{"product_code":"BTCJPY28APR2017","alias":"BTCJPY_MAT1WK","market_type":"Futures"},{"product_code":"ETH_BTC","alias":null,"market_type":"Spot"}]"#;
    assert_eq!(
        GetMarkets::deserialize_response_body(body),
        Ok(vec![
            Market { product_code: ProductCode::BtcJpy, alias: None, market_type: MarketType::Spot },
            Market { product_code: ProductCode::FxBtcJpy, alias: None, market_type: MarketType::Fx },
            Market {
                product_code: ProductCode::Other,
                alias: Some("BTCJPY_MAT1WK".to_string()),
                market_type: MarketType::Futures,
            },
            Market { product_code: ProductCode::EthBtc, alias: None, market_type: MarketType::Spot },
        ])
    );
    assert_eq!(GetMarkets::deserialize_response_body("[]"), Ok(vec![]));
}

#[test]
fn board_is_read() {
    let body = r#"{"mid_price":33320,"bids":[{"price":30000,"size":0.1},{"price":25570,"size":3}],"asks":[{"price":36640,"size":5}]}"#;
    assert_eq!(
        GetBoard::deserialize_response_body(body),
        Ok(Board {
            mid_price: dec(33320, 0),
            bids: vec![
                BoardElement { price: dec(30000, 0), size: dec(1, 1) },
                BoardElement { price: dec(25570, 0), size: dec(3, 0) },
            ],
            asks: vec![BoardElement { price: dec(36640, 0), size: dec(5, 0) }],
        })
    );
}

#[test]
fn executions_are_read() {
    let body = r#"[{"id":39287,"side":"BUY","price":31690,"size":27.04,"exec_date":"2015-07-08T02:43:34.823","buy_child_order_acceptance_id":"JRF20150707-200203-452209","sell_child_order_acceptance_id":"JRF20150708-024334-060234"}]"#;
    assert_eq!(
        GetExecutions::deserialize_response_body(body),
        Ok(vec![Execution {
            id: 39287,
            side: Side::Buy,
            price: dec(31690, 0),
            size: dec(2704, 2),
            exec_date: Timestamp { seconds: 1436323414, nanos: 823_000_000 },
            buy_child_order_acceptance_id: "JRF20150707-200203-452209".to_string(),
            sell_child_order_acceptance_id: "JRF20150708-024334-060234".to_string(),
        }])
    );
}

#[test]
fn board_state_and_health_are_read() {
    assert_eq!(
        GetBoardState::deserialize_response_body(
            r#"{"health":"NORMAL","state":"MATURED","data":{"special_quotation":"410897"}}"#
        ),
        Ok(BoardState {
            health: Health::Normal,
            state: State::Matured,
            data: Some(BoardStateData { special_quotation: "410897".to_string() }),
        })
    );
    assert_eq!(
        GetBoardState::deserialize_response_body(r#"{"health":"VERY_BUSY","state":"RUNNING"}"#),
        Ok(BoardState { health: Health::VeryBusy, state: State::Running, data: None })
    );
    assert_eq!(
        GetBoardHealth::deserialize_response_body(r#"{"status":"NO_ORDER"}"#),
        Ok(BoardHealth { status: Health::NoOrder })
    );
}

#[test]
fn the_account_is_read() {
    assert_eq!(
        GetPermissions::deserialize_response_body(r#"["/v1/me/getpermissions","/v1/me/getbalance"]"#),
        Ok(vec!["/v1/me/getpermissions".to_string(), "/v1/me/getbalance".to_string()])
    );
    assert_eq!(
        GetBalance::deserialize_response_body(
            r#"[{"currency_code":"JPY","amount":1024078,"available":508000},{"currency_code":"BTC","amount":10.24,"available":4.12}]"#
        ),
        Ok(vec![
            Balance {
                currency_code: "JPY".to_string(),
                amount: dec(1024078, 0),
                available: dec(508000, 0),
            },
            Balance {
                currency_code: "BTC".to_string(),
                amount: dec(1024, 2),
                available: dec(412, 2),
            },
        ])
    );
    assert_eq!(
        GetCollateralAccounts::deserialize_response_body(
            r#"[{"currency_code":"JPY","amount":10000},{"currency_code":"BTC","amount":1.23}]"#
        ),
        Ok(vec![
            CollateralAccount { currency_code: "JPY".to_string(), amount: dec(10000, 0) },
            CollateralAccount { currency_code: "BTC".to_string(), amount: dec(123, 2) },
        ])
    );
}

#[test]
fn collateral_is_read_with_and_without_a_margin_call() {
    let without = r#"{"collateral":100000,"open_position_pnl":-715,"require_collateral":19857,"keep_rate":5.000,"margin_call_amount":0,"margin_call_due_date":null}"#;
    let want = Collateral {
        collateral: dec(100000, 0),
        open_position_pnl: dec(-715, 0),
        require_collateral: dec(19857, 0),
        keep_rate: dec(5000, 3),
        margin_call_amount: dec(0, 0),
        margin_call_due_date: None,
    };
    assert_eq!(GetCollateral::deserialize_response_body(without), Ok(want));
    let with = without.replace("null", "\"2021-09-01T08:00:00\"");
    assert_eq!(
        GetCollateral::deserialize_response_body(&with),
        Ok(Collateral {
            margin_call_due_date: Some(Timestamp { seconds: 1630483200, nanos: 0 }),
            ..want
        })
    );
    let missing = without.replace(",\"margin_call_due_date\":null", "");
    assert_eq!(
        GetCollateral::deserialize_response_body(&missing),
        Err(ApiError::Decode { raw: missing.clone() })
    );
}

#[test]
fn child_orders_are_read_with_their_kind() {
    let body = r#"[{"id":138398,"child_order_id":"JOR20150707-084555-022523","product_code":"BTC_JPY","side":"BUY","child_order_type":"LIMIT","price":30000,"average_price":30000,"size":0.1,"child_order_state":"COMPLETED","expire_date":"2015-07-14T07:25:52","child_order_date":"2015-07-07T08:45:53","child_order_acceptance_id":"JRF20150707-084552-031927","outstanding_size":0,"cancel_size":0,"executed_size":0.1,"total_commission":0,"time_in_force":"GTC"}]"#;
    let want = ChildOrder {
        id: 138398,
        child_order_id: "JOR20150707-084555-022523".to_string(),
        product_code: ProductCode::BtcJpy,
        side: Side::Buy,
        child_order_type: ChildOrderType::Limit { price: dec(30000, 0) },
        average_price: dec(30000, 0),
        size: dec(1, 1),
        child_order_state: OrderState::Completed,
        expire_date: Timestamp { seconds: 1436858752, nanos: 0 },
        child_order_date: Timestamp { seconds: 1436258753, nanos: 0 },
        child_order_acceptance_id: "JRF20150707-084552-031927".to_string(),
        outstanding_size: dec(0, 0),
        cancel_size: dec(0, 0),
        executed_size: dec(1, 1),
        total_commission: dec(0, 0),
        time_in_force: TimeInForce::Gtc,
    };
    assert_eq!(GetChildOrders::deserialize_response_body(body), Ok(vec![want.clone()]));
    let market = body.replace("\"LIMIT\"", "\"MARKET\"");
    assert_eq!(
        GetChildOrders::deserialize_response_body(&market),
        Ok(vec![ChildOrder { child_order_type: ChildOrderType::Market, ..want }])
    );
    let unknown = body.replace("\"LIMIT\"", "\"STOP\"");
    assert_eq!(
        GetChildOrders::deserialize_response_body(&unknown),
        Err(ApiError::Decode { raw: unknown.clone() })
    );
}

#[test]
fn parent_orders_are_read() {
    let body = r#"[{"id":138398,"parent_order_id":"JCO20150707-084555-022523","product_code":"BTC_JPY","side":"BUYSELL","parent_order_type":"STOPLIMIT","price":30000,"average_price":30000,"size":0.1,"parent_order_state":"ACTIVE","expire_date":"2015-07-14T07:25:52","parent_order_date":"2015-07-07T08:45:53","parent_order_acceptance_id":"JRF20150707-084552-031927","outstanding_size":0,"cancel_size":0,"executed_size":0.1,"total_commission":0}]"#;
    assert_eq!(
        GetParentOrders::deserialize_response_body(body),
        Ok(vec![GetParentOrdersResponseParameter {
            id: 138398,
            parent_order_id: "JCO20150707-084555-022523".to_string(),
            product_code: ProductCode::BtcJpy,
            side: ParentOrderSide::BuySell,
            parent_order_type: ParentOrderType::StopLimit,
            price: dec(30000, 0),
            average_price: dec(30000, 0),
            size: dec(1, 1),
            parent_order_state: OrderState::Active,
            expire_date: Timestamp { seconds: 1436858752, nanos: 0 },
            parent_order_date: Timestamp { seconds: 1436258753, nanos: 0 },
            parent_order_acceptance_id: "JRF20150707-084552-031927".to_string(),
            outstanding_size: dec(0, 0),
            cancel_size: dec(0, 0),
            executed_size: dec(1, 1),
            total_commission: dec(0, 0),
        }])
    );
}

#[test]
fn a_parent_order_in_full_is_read_with_its_conditions() {
    let body = r#"{"id":4242,"parent_order_id":"JCP20150825-046876-036161","order_method":"IFDOCO","expire_date":"2015-09-24T04:35:00.067","time_in_force":"GTC","parameters":[{"product_code":"BTC_JPY","condition_type":"LIMIT","side":"BUY","price":30000,"size":0.1,"trigger_price":0,"offset":0},{"product_code":"BTC_JPY","condition_type":"LIMIT","side":"SELL","price":32000,"size":0.1,"trigger_price":0,"offset":0},{"product_code":"BTC_JPY","condition_type":"STOPLIMIT","side":"SELL","price":28800,"size":0.1,"trigger_price":29000,"offset":0}],"parent_order_acceptance_id":"JRF20150925-060559-396699"}"#;
    let limit = |side: Side, price: i128| ParentOrderConditionType::Limit {
        product_code: ProductCode::BtcJpy,
        side,
        size: dec(1, 1),
        price: dec(price, 0),
    };
    assert_eq!(
        GetParentOrder::deserialize_response_body(body),
        Ok(GetParentOrdersResponse {
            id: 4242,
            parent_order_id: "JCP20150825-046876-036161".to_string(),
            expire_date: Timestamp { seconds: 1443069300, nanos: 67_000_000 },
            time_in_force: TimeInForce::Gtc,
            order_method: ParentOrderMethod::Ifdoco {
                parameters: [
                    limit(Side::Buy, 30000),
                    limit(Side::Sell, 32000),
                    ParentOrderConditionType::StopLimit {
                        product_code: ProductCode::BtcJpy,
                        side: Side::Sell,
                        size: dec(1, 1),
                        price: dec(28800, 0),
                        trigger_price: dec(29000, 0),
                    },
                ],
            },
            parent_order_acceptance_id: "JRF20150925-060559-396699".to_string(),
        })
    );
    let short = body.replace("\"IFDOCO\"", "\"IFD\"");
    assert_eq!(
        GetParentOrder::deserialize_response_body(&short),
        Err(ApiError::Decode { raw: short.clone() })
    );
}

#[test]
fn positions_are_read() {
    let body = r#"[{"product_code":"FX_BTC_JPY","side":"BUY","price":36000,"size":10,"commission":0,"swap_point_accumulate":-35,"require_collateral":120000,"open_date":"2015-11-03T10:04:45.011","leverage":3,"pnl":965,"sfd":-0.5}]"#;
    assert_eq!(
        GetPositions::deserialize_response_body(body),
        Ok(vec![Position {
            product_code: ProductCode::FxBtcJpy,
            side: Side::Buy,
            price: dec(36000, 0),
            size: dec(10, 0),
            commission: dec(0, 0),
            swap_point_accumulate: dec(-35, 0),
            require_collateral: dec(120000, 0),
            open_date: Timestamp { seconds: 1446545085, nanos: 11_000_000 },
            leverage: dec(3, 0),
            pnl: dec(965, 0),
            sfd: dec(-5, 1),
        }])
    );
}

#[test]
fn numbers_keep_the_digits_of_the_wire() {
    let body = r#"[{"currency_code":"BTC","amount":12345678901234567890.12345678,"available":0.10}]"#;
    assert_eq!(
        GetBalance::deserialize_response_body(body),
        Ok(vec![Balance {
            currency_code: "BTC".to_string(),
            amount: dec(1234567890123456789012345678, 8),
            available: dec(10, 2),
        }])
    );
}

#[test]
fn empty_is_read_from_null() {
    assert_eq!(decode_json::<Empty>("null"), Ok(Empty));
    assert_eq!(decode_json::<Empty>("0"), Err(ApiError::Decode { raw: "0".to_string() }));
}
