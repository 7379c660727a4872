//! End-to-end decoding and encoding of wire frames.

use wss_codec::classify_and_decode;
use wss_codec::flatten_vec;
use wss_codec::ChannelMessage;
use wss_codec::DecodeError;
use wss_codec::ErrorResponse;
use wss_codec::Json;
use wss_codec::LogicallyEmpty;
use wss_codec::MarketDataResponse;
use wss_codec::Message;
use wss_codec::MethodMessage;
use wss_codec::PongResponse;
use wss_codec::ResultResponse;
use wss_codec::SingleResponse;
use wss_codec::SnapshotKind;
use wss_codec::SubscriptionResult;
use wss_codec::UnsubscriptionResult;
use wss_codec::UserDataMessage;
use wss_codec::WssMessage;

fn s(x: &str) -> Json {
    Json::Str(x.to_string())
}

fn num(x: &str) -> Json {
    Json::Num(x.to_string())
}

fn obj(pairs: Vec<(&str, Json)>) -> Json {
    Json::Obj(pairs.into_iter().map(|(k, v)| (k.to_string(), v)).collect())
}

#[test]
fn test_deserializing_status_update() {
    let message = r#"{"channel":"status","data":[{"api_version":"v2","connection_id":18266300427528990701,"system":"online","version":"2.0.4"}],"type":"update"}"#;
    let expected = WssMessage::Channel(ChannelMessage::Status(SingleResponse {
        data: obj(vec![
            ("api_version", s("v2")),
            ("connection_id", num("18266300427528990701")),
            ("system", s("online")),
            ("version", s("2.0.4")),
        ]),
    }));

    let parsed = classify_and_decode(message).unwrap();

    assert_eq!(expected, parsed);
}

#[test]
fn test_deserializing_l2_update() {
    let raw = r#"{"channel":"book","type":"update","data":[{"symbol":"BTC/USD","bids":[],"asks":[{"price":66732.5,"qty":5.48256063}],"checksum":2855135483,"timestamp":"2024-05-19T16:32:26.777454Z"}]}"#;
    let _parsed = classify_and_decode(raw).unwrap();
}

#[test]
fn test_deserializing_execution_snapshot() {
    let message = r#"{"channel":"executions","type":"snapshot","data":[{"order_id":"AHOJQ8-1E72C-8M2VQH","symbol":"ADX/USD","order_qty":81.36256082,"cum_cost":0,"time_in_force":"GTC","exec_type":"pending_new","side":"buy","order_type":"stop-loss-limit","order_userref":0,"limit_price_type":"static","triggers":{"price":0.2,"price_type":"static","reference":"index","status":"untriggered"},"stop_price":0.2,"limit_price":0.2,"trigger":"index","order_status":"pending_new","fee_usd_equiv":0,"fee_ccy_pref":"fciq","timestamp":"2024-05-18T12:01:56.165888Z"}],"sequence":120}"#;
    let record = obj(vec![
        ("cum_cost", Json::Int(0)),
        ("exec_type", s("pending_new")),
        ("fee_ccy_pref", s("fciq")),
        ("fee_usd_equiv", Json::Int(0)),
        ("limit_price", num("0.2")),
        ("limit_price_type", s("static")),
        ("order_id", s("AHOJQ8-1E72C-8M2VQH")),
        ("order_qty", num("81.36256082")),
        ("order_status", s("pending_new")),
        ("order_type", s("stop-loss-limit")),
        ("order_userref", Json::Int(0)),
        ("side", s("buy")),
        ("stop_price", num("0.2")),
        ("symbol", s("ADX/USD")),
        ("time_in_force", s("GTC")),
        ("timestamp", s("2024-05-18T12:01:56.165888Z")),
        ("trigger", s("index")),
        (
            "triggers",
            obj(vec![
                ("price", num("0.2")),
                ("price_type", s("static")),
                ("reference", s("index")),
                ("status", s("untriggered")),
            ]),
        ),
    ]);
    let expected = WssMessage::Channel(ChannelMessage::Execution(UserDataMessage {
        kind: SnapshotKind::Snapshot,
        sequence: 120,
        data: vec![record],
    }));

    let parsed = classify_and_decode(message).unwrap();

    assert_eq!(expected, parsed);
}

#[test]
fn test_deserializing_error_message() {
    let raw = r#"{"error":"ESession:Invalid session","method":"subscribe","req_id":42,"status":"error","success":false,"time_in":"2023-04-19T12:04:41.320119Z","time_out":"2023-04-19T12:04:41.980119Z"}"#;

    let expected = WssMessage::Error(ErrorResponse {
        error: Some("ESession:Invalid session".to_string()),
        method: "subscribe".to_string(),
        status: "error".to_string(),
        success: false,
        req_id: 42,
        time_in: "2023-04-19T12:04:41.320119Z".to_string(),
        time_out: "2023-04-19T12:04:41.980119Z".to_string(),
    });

    let parsed = classify_and_decode(raw).unwrap();
    assert_eq!(expected, parsed);
}

#[test]
fn test_flatten_vec_takes_first_element() {
    assert_eq!(flatten_vec(vec![7i64]), Ok(7));
    assert_eq!(flatten_vec(vec![1i64, 2, 3]), Ok(1));
}

#[test]
fn test_flatten_vec_rejects_empty_input() {
    assert_eq!(flatten_vec(Vec::<i64>::new()), Err(DecodeError::EmptyPayload));
}

#[test]
fn test_parameterless_envelope_omits_params() {
    let envelope = Message::new_subscription(Json::Null, 7).encode();
    let expected = obj(vec![("method", s("subscribe")), ("req_id", Json::Int(7))]);
    assert_eq!(expected, envelope);
}

fn ticker_params() -> Json {
    obj(vec![("channel", s("ticker")), ("symbol", Json::Arr(vec![s("BTC/USD")]))])
}

#[test]
fn test_envelope_carries_params_verbatim() {
    let envelope = Message::new_subscription(ticker_params(), 42).encode();
    let expected = obj(vec![
        ("method", s("subscribe")),
        ("params", ticker_params()),
        ("req_id", Json::Int(42)),
    ]);
    assert_eq!(expected, envelope);
}

#[test]
fn test_unsubscription_envelope_method_name() {
    let message = Message::new_unsubscription(Json::Null, 3);
    assert_eq!(message.method, "unsubscribe");
    assert_eq!(message.req_id, 3);
    let envelope = message.encode();
    let expected = obj(vec![("method", s("unsubscribe")), ("req_id", Json::Int(3))]);
    assert_eq!(expected, envelope);
}

#[test]
fn test_logical_emptiness_of_params() {
    assert!(Json::Null.is_logically_empty());
    assert!(!obj(vec![]).is_logically_empty());
    assert!(!Json::Bool(false).is_logically_empty());
}

#[test]
fn test_subscribe_round_trip_echoes_req_id() {
    let params = obj(vec![
        ("channel", s("book")),
        ("symbol", Json::Arr(vec![s("BTC/USD")])),
        ("depth", Json::Int(10)),
        ("snapshot", Json::Bool(true)),
    ]);
    let envelope = Message::new_subscription(params, 11).encode();
    match envelope {
        Json::Obj(ref pairs) => {
            assert_eq!(pairs[2], ("req_id".to_string(), Json::Int(11)));
        }
        _ => panic!("envelope must be an object"),
    }

    let ack = r#"{"method":"subscribe","req_id":11,"result":{"channel":"book","depth":10,"snapshot":true,"symbol":"BTC/USD"},"success":true,"time_in":"2024-05-19T16:27:13.694962Z","time_out":"2024-05-19T16:27:13.695006Z"}"#;
    let parsed = classify_and_decode(ack).unwrap();
    let expected = WssMessage::Method(MethodMessage::Subscription(ResultResponse {
        result: Some(SubscriptionResult::Book {
            symbol: "BTC/USD".to_string(),
            snapshot: Some(true),
            depth: Some(10),
            warnings: None,
        }),
        error: None,
        success: true,
        req_id: 11,
        time_in: "2024-05-19T16:27:13.694962Z".to_string(),
        time_out: "2024-05-19T16:27:13.695006Z".to_string(),
    }));
    assert_eq!(expected, parsed);
}

#[test]
fn test_execution_subscription_ack() {
    let raw = r#"{"method":"subscribe","req_id":0,"result":{"channel":"executions","maxratecount":180,"snapshot":true,"warnings":["cancel_reason is deprecated, use reason","stop_price is deprecated, use triggers.price","trigger is deprecated use triggers.reference","triggered_price is deprecated use triggers.last_price"]},"success":true,"time_in":"2024-05-19T19:30:36.343170Z","time_out":"2024-05-19T19:30:36.350083Z"}"#;
    let expected = WssMessage::Method(MethodMessage::Subscription(ResultResponse {
        result: Some(SubscriptionResult::Execution {
            max_rate_count: Some(180),
            snapshot: Some(true),
            warnings: Some(vec![
                "cancel_reason is deprecated, use reason".to_string(),
                "stop_price is deprecated, use triggers.price".to_string(),
                "trigger is deprecated use triggers.reference".to_string(),
                "triggered_price is deprecated use triggers.last_price".to_string(),
            ]),
        }),
        error: None,
        success: true,
        req_id: 0,
        time_in: "2024-05-19T19:30:36.343170Z".to_string(),
        time_out: "2024-05-19T19:30:36.350083Z".to_string(),
    }));
    assert_eq!(expected, classify_and_decode(raw).unwrap());
}

#[test]
fn test_ohlc_unsubscription_ack() {
    let raw = r#"{"method":"unsubscribe","req_id":121,"result":{"channel":"ohlc","interval":60,"symbol":"ETH/USD"},"success":true,"time_in":"2024-05-19T19:06:57.002983Z","time_out":"2024-05-19T19:06:57.003037Z"}"#;
    let expected = WssMessage::Method(MethodMessage::Unsubscription(ResultResponse {
        result: Some(UnsubscriptionResult::Ohlc {
            symbol: "ETH/USD".to_string(),
            interval: 60,
        }),
        error: None,
        success: true,
        req_id: 121,
        time_in: "2024-05-19T19:06:57.002983Z".to_string(),
        time_out: "2024-05-19T19:06:57.003037Z".to_string(),
    }));
    assert_eq!(expected, classify_and_decode(raw).unwrap());
}

#[test]
fn test_add_order_success_reply() {
    let raw = r#"{"method":"add_order","req_id":5,"result":{"order_id":"OPS23M-VS41G-DDE5Z2"},"success":true,"time_in":"a","time_out":"b"}"#;
    let expected = WssMessage::Method(MethodMessage::AddOrder(ResultResponse {
        result: Some(obj(vec![("order_id", s("OPS23M-VS41G-DDE5Z2"))])),
        error: None,
        success: true,
        req_id: 5,
        time_in: "a".to_string(),
        time_out: "b".to_string(),
    }));
    assert_eq!(expected, classify_and_decode(raw).unwrap());
}

#[test]
fn test_failed_reply_exposes_only_the_error() {
    let raw = r#"{"method":"add_order","error":"EOrder:Insufficient funds","req_id":5,"success":false,"time_in":"a","time_out":"b"}"#;
    let expected = WssMessage::Method(MethodMessage::AddOrder(ResultResponse {
        result: None,
        error: Some("EOrder:Insufficient funds".to_string()),
        success: false,
        req_id: 5,
        time_in: "a".to_string(),
        time_out: "b".to_string(),
    }));
    assert_eq!(expected, classify_and_decode(raw).unwrap());
}

#[test]
fn test_batch_add_reply_result_is_a_sequence() {
    let raw = r#"{"method":"batch_add","req_id":8,"result":[{"order_id":"A"},{"order_id":"B"}],"success":true,"time_in":"a","time_out":"b"}"#;
    let expected = WssMessage::Method(MethodMessage::BatchOrder(ResultResponse {
        result: Some(vec![
            obj(vec![("order_id", s("A"))]),
            obj(vec![("order_id", s("B"))]),
        ]),
        error: None,
        success: true,
        req_id: 8,
        time_in: "a".to_string(),
        time_out: "b".to_string(),
    }));
    assert_eq!(expected, classify_and_decode(raw).unwrap());
}

#[test]
fn test_keepalive_accepts_both_wire_spellings() {
    for raw in [
        r#"{"method":"ping","req_id":1,"success":true,"time_in":"a","time_out":"b"}"#,
        r#"{"method":"Ping","req_id":1,"success":true,"time_in":"a","time_out":"b"}"#,
    ] {
        let expected = WssMessage::Method(MethodMessage::Ping(ResultResponse {
            result: None,
            error: None,
            success: true,
            req_id: 1,
            time_in: "a".to_string(),
            time_out: "b".to_string(),
        }));
        assert_eq!(expected, classify_and_decode(raw).unwrap());
    }
}

#[test]
fn test_pong_uses_the_reduced_shape() {
    let raw = r#"{"method":"pong","req_id":9,"time_in":"a","time_out":"b"}"#;
    let expected = WssMessage::Method(MethodMessage::Pong(PongResponse {
        error: None,
        req_id: 9,
        time_in: "a".to_string(),
        time_out: "b".to_string(),
    }));
    assert_eq!(expected, classify_and_decode(raw).unwrap());
}

#[test]
fn test_unknown_field_under_a_strict_tag_is_rejected() {
    let raw = r#"{"method":"add_order","req_id":5,"result":{},"success":true,"time_in":"a","time_out":"b","surprise":1}"#;
    assert_eq!(Err(DecodeError::StructuralMismatch), classify_and_decode(raw));
}

#[test]
fn test_success_without_result_is_rejected() {
    let raw = r#"{"method":"add_order","req_id":5,"success":true,"time_in":"a","time_out":"b"}"#;
    assert_eq!(Err(DecodeError::StructuralMismatch), classify_and_decode(raw));
}

#[test]
fn test_failure_without_error_is_rejected() {
    let raw = r#"{"method":"add_order","req_id":5,"success":false,"time_in":"a","time_out":"b"}"#;
    assert_eq!(Err(DecodeError::StructuralMismatch), classify_and_decode(raw));
}

#[test]
fn test_unknown_method_tag() {
    let raw = r#"{"method":"frobnicate","req_id":1,"success":true,"time_in":"a","time_out":"b"}"#;
    assert_eq!(Err(DecodeError::UnrecognizedTag), classify_and_decode(raw));
}

#[test]
fn test_unknown_channel_tag() {
    let raw = r#"{"channel":"weather","data":[]}"#;
    assert_eq!(Err(DecodeError::UnrecognizedTag), classify_and_decode(raw));
}

#[test]
fn test_singular_channel_with_empty_wrapper() {
    let raw = r#"{"channel":"ticker","data":[]}"#;
    assert_eq!(Err(DecodeError::EmptyPayload), classify_and_decode(raw));
}

#[test]
fn test_frame_with_no_discriminating_field() {
    assert_eq!(Err(DecodeError::StructuralMismatch), classify_and_decode("{}"));
    assert_eq!(Err(DecodeError::StructuralMismatch), classify_and_decode("5"));
    assert_eq!(Err(DecodeError::StructuralMismatch), classify_and_decode("not json"));
}

#[test]
fn test_heartbeat() {
    let raw = r#"{"channel":"heartbeat"}"#;
    assert_eq!(
        WssMessage::Channel(ChannelMessage::Heartbeat),
        classify_and_decode(raw).unwrap()
    );
}

#[test]
fn test_trade_channel_keeps_every_batched_record() {
    let raw = r#"{"channel":"trade","type":"update","data":[{"price":1.1},{"price":2.2}]}"#;
    let expected = WssMessage::Channel(ChannelMessage::Trade(MarketDataResponse {
        data: vec![
            obj(vec![("price", num("1.1"))]),
            obj(vec![("price", num("2.2"))]),
        ],
    }));
    assert_eq!(expected, classify_and_decode(raw).unwrap());
}

#[test]
fn test_balances_update_frame() {
    let raw = r#"{"channel":"balances","type":"update","data":[{"asset":"USD"}],"sequence":4}"#;
    let expected = WssMessage::Channel(ChannelMessage::Balance(UserDataMessage {
        kind: SnapshotKind::Update,
        sequence: 4,
        data: vec![obj(vec![("asset", s("USD"))])],
    }));
    assert_eq!(expected, classify_and_decode(raw).unwrap());
}

#[test]
fn test_status_marker_with_wrong_value_is_not_an_error_reply() {
    let raw = r#"{"method":"subscribe","req_id":1,"status":"fine","success":true,"time_in":"a","time_out":"b"}"#;
    assert_eq!(Err(DecodeError::StructuralMismatch), classify_and_decode(raw));
}

#[test]
fn test_error_reply_must_carry_an_error() {
    let raw = r#"{"method":"subscribe","req_id":1,"status":"error","success":false,"time_in":"a","time_out":"b"}"#;
    assert_eq!(Err(DecodeError::StructuralMismatch), classify_and_decode(raw));
}

#[test]
fn test_ticker_subscription_ack() {
    let raw = r#"{"method":"subscribe","req_id":42,"result":{"channel":"ticker","event_trigger":"trades","snapshot":true,"symbol":"BTC/USD"},"success":true,"time_in":"2024-05-15T11:20:43.013486Z","time_out":"2024-05-15T11:20:43.013545Z"}"#;
    let expected = WssMessage::Method(MethodMessage::Subscription(ResultResponse {
        result: Some(SubscriptionResult::Ticker {
            symbol: "BTC/USD".to_string(),
            event_trigger: Some("trades".to_string()),
            snapshot: Some(true),
        }),
        error: None,
        success: true,
        req_id: 42,
        time_in: "2024-05-15T11:20:43.013486Z".to_string(),
        time_out: "2024-05-15T11:20:43.013545Z".to_string(),
    }));
    assert_eq!(expected, classify_and_decode(raw).unwrap());
}

#[test]
fn test_subscription_ack_with_unknown_channel_tag() {
    let raw = r#"{"method":"subscribe","req_id":1,"result":{"channel":"weather"},"success":true,"time_in":"a","time_out":"b"}"#;
    assert_eq!(Err(DecodeError::UnrecognizedTag), classify_and_decode(raw));
}

#[test]
fn test_warnings_must_be_strings() {
    let raw = r#"{"method":"subscribe","req_id":1,"result":{"channel":"balances","warnings":[1]},"success":true,"time_in":"a","time_out":"b"}"#;
    assert_eq!(Err(DecodeError::StructuralMismatch), classify_and_decode(raw));
}

#[test]
fn test_correlation_id_must_be_an_integer() {
    let raw = r#"{"method":"pong","req_id":4.5,"time_in":"a","time_out":"b"}"#;
    assert_eq!(Err(DecodeError::StructuralMismatch), classify_and_decode(raw));
}

#[test]
fn test_numbers_keep_their_full_decimal_text() {
    let raw = r#"{"channel":"ticker","data":[{"last":30000.000000000000000001}]}"#;
    let expected = WssMessage::Channel(ChannelMessage::Ticker(SingleResponse {
        data: obj(vec![("last", num("30000.000000000000000001"))]),
    }));
    assert_eq!(expected, classify_and_decode(raw).unwrap());
}

#[test]
fn test_balances_subscription_ack() {
    let raw = r#"{"method":"subscribe","req_id":10312008,"result":{"channel":"balances","snapshot":true},"success":true,"time_in":"2024-05-19T16:25:28.289124Z","time_out":"2024-05-19T16:25:28.293750Z"}"#;
    let expected = WssMessage::Method(MethodMessage::Subscription(ResultResponse {
        result: Some(SubscriptionResult::Balance {
            snapshot: Some(true),
            warnings: None,
        }),
        error: None,
        success: true,
        req_id: 10312008,
        time_in: "2024-05-19T16:25:28.289124Z".to_string(),
        time_out: "2024-05-19T16:25:28.293750Z".to_string(),
    }));
    assert_eq!(expected, classify_and_decode(raw).unwrap());
}

#[test]
fn test_l3_subscription_ack() {
    let raw = r#"{"method":"subscribe","req_id":99,"result":{"channel":"level3","snapshot":true,"symbol":"BTC/USD"},"success":true,"time_in":"2024-05-19T18:51:30.701627Z","time_out":"2024-05-19T18:51:30.708403Z"}"#;
    let expected = WssMessage::Method(MethodMessage::Subscription(ResultResponse {
        result: Some(SubscriptionResult::L3 {
            symbol: "BTC/USD".to_string(),
            snapshot: Some(true),
            depth: None,
            warnings: None,
        }),
        error: None,
        success: true,
        req_id: 99,
        time_in: "2024-05-19T18:51:30.701627Z".to_string(),
        time_out: "2024-05-19T18:51:30.708403Z".to_string(),
    }));
    assert_eq!(expected, classify_and_decode(raw).unwrap());
}

#[test]
fn test_ohlc_subscription_ack_keeps_warnings() {
    let raw = r#"{"method":"subscribe","req_id":121,"result":{"channel":"ohlc","interval":60,"snapshot":true,"symbol":"ETH/USD","warnings":["timestamp is deprecated, use interval_begin"]},"success":true,"time_in":"2024-05-19T19:06:57.002983Z","time_out":"2024-05-19T19:06:57.003037Z"}"#;
    let expected = WssMessage::Method(MethodMessage::Subscription(ResultResponse {
        result: Some(SubscriptionResult::Ohlc {
            symbol: Some("ETH/USD".to_string()),
            snapshot: Some(true),
            warnings: Some(vec!["timestamp is deprecated, use interval_begin".to_string()]),
            interval: 60,
        }),
        error: None,
        success: true,
        req_id: 121,
        time_in: "2024-05-19T19:06:57.002983Z".to_string(),
        time_out: "2024-05-19T19:06:57.003037Z".to_string(),
    }));
    assert_eq!(expected, classify_and_decode(raw).unwrap());
}

#[test]
fn test_trade_subscription_ack() {
    let raw = r#"{"method":"subscribe","req_id":0,"result":{"channel":"trade","snapshot":true,"symbol":"BTC/USD"},"success":true,"time_in":"2024-05-19T19:11:23.034030Z","time_out":"2024-05-19T19:11:23.034073Z"}"#;
    let expected = WssMessage::Method(MethodMessage::Subscription(ResultResponse {
        result: Some(SubscriptionResult::Trade {
            symbol: Some("BTC/USD".to_string()),
            snapshot: Some(true),
            warnings: None,
        }),
        error: None,
        success: true,
        req_id: 0,
        time_in: "2024-05-19T19:11:23.034030Z".to_string(),
        time_out: "2024-05-19T19:11:23.034073Z".to_string(),
    }));
    assert_eq!(expected, classify_and_decode(raw).unwrap());
}

#[test]
fn test_instruments_subscription_ack() {
    let raw = r#"{"method":"subscribe","req_id":0,"result":{"channel":"instrument","snapshot":true,"warnings":["tick_size is deprecated, use price_increment"]},"success":true,"time_in":"2024-05-19T19:44:43.264430Z","time_out":"2024-05-19T19:44:43.264464Z"}"#;
    let expected = WssMessage::Method(MethodMessage::Subscription(ResultResponse {
        result: Some(SubscriptionResult::Instrument {
            snapshot: Some(true),
            warnings: Some(vec!["tick_size is deprecated, use price_increment".to_string()]),
        }),
        error: None,
        success: true,
        req_id: 0,
        time_in: "2024-05-19T19:44:43.264430Z".to_string(),
        time_out: "2024-05-19T19:44:43.264464Z".to_string(),
    }));
    assert_eq!(expected, classify_and_decode(raw).unwrap());
}

#[test]
fn test_execution_unsubscription_ack() {
    let raw = r#"{"method":"unsubscribe","req_id":121,"result":{"channel":"executions"},"success":true,"time_in":"2024-05-19T19:06:57.002983Z","time_out":"2024-05-19T19:06:57.003037Z"}"#;
    let expected = WssMessage::Method(MethodMessage::Unsubscription(ResultResponse {
        result: Some(UnsubscriptionResult::Execution),
        error: None,
        success: true,
        req_id: 121,
        time_in: "2024-05-19T19:06:57.002983Z".to_string(),
        time_out: "2024-05-19T19:06:57.003037Z".to_string(),
    }));
    assert_eq!(expected, classify_and_decode(raw).unwrap());
}
