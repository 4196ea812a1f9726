use crypto_connector::classifier::{
    classify, classify_frame, classify_value, read_control, read_tick, ClassifiedEvent,
    ProtocolError,
};
use crypto_connector::json::{find_member, parse, Json, JsonNumber, Member};
use crypto_connector::models::{GenericMessage, SymbolTicker};

const TICK: &str = "{\"sequence\":45,\"symbol\":\"XBTUSDM\",\"bestBidPrice\":\"30000.5\",\"bestBidSize\":12,\"bestAskPrice\":\"30001\",\"bestAskSize\":7,\"ts\":1700000000000}";

fn expected_tick() -> SymbolTicker {
    SymbolTicker {
        sequence: 45,
        symbol: "XBTUSDM".to_string(),
        best_bid_price: "30000.5".to_string(),
        best_bid_size: 12,
        best_ask_price: "30001".to_string(),
        best_ask_size: 7,
        ts: 1700000000000,
    }
}

fn text(s: &str) -> Json {
    Json::Text(s.to_string())
}

fn member(name: &str, value: Json) -> Member {
    Member { name: name.to_string(), value }
}

#[test]
fn parse_builds_the_value() {
    let value = parse("{\"b\":[1,-2,1.5,null,true],\"a\":\"x\"}").unwrap();
    let expected = Json::Object(vec![
        member("a", text("x")),
        member(
            "b",
            Json::Array(vec![
                Json::Number(JsonNumber { unsigned: Some(1), signed: Some(1) }),
                Json::Number(JsonNumber { unsigned: None, signed: Some(-2) }),
                Json::Number(JsonNumber { unsigned: None, signed: None }),
                Json::Null,
                Json::Bool(true),
            ]),
        ),
    ]);
    assert_eq!(value, expected);
}

#[test]
fn parse_keeps_large_unsigned_numbers() {
    let value = parse("18446744073709551615").unwrap();
    assert_eq!(value, Json::Number(JsonNumber { unsigned: Some(u64::MAX), signed: None }));
}

#[test]
fn parse_refuses_what_is_no_json() {
    assert_eq!(parse("{\"a\":"), None);
    assert_eq!(parse(""), None);
    assert_eq!(parse("welcome"), None);
}

#[test]
fn get_finds_members_of_objects_only() {
    let value = parse("{\"data\":{\"x\":1},\"id\":\"7\"}").unwrap();
    assert_eq!(value.get(&"id".to_string()), Some(&text("7")));
    assert_eq!(value.get(&"missing".to_string()), None);
    assert_eq!(value.get_text("id"), Some("7".to_string()));
    assert_eq!(value.get_text("data"), None);
    assert_eq!(value.get_unsigned("id"), None);
    assert_eq!(text("data").get(&"data".to_string()), None);
    assert_eq!(Json::Array(vec![text("data")]).get(&"data".to_string()), None);
}

#[test]
fn get_signed_reads_negative_numbers() {
    let value = parse("{\"code\":-12,\"big\":9223372036854775808}").unwrap();
    assert_eq!(value.get_signed("code"), Some(-12));
    assert_eq!(value.get_unsigned("code"), None);
    assert_eq!(value.get_signed("big"), None);
    assert_eq!(value.get_unsigned("big"), Some(9223372036854775808));
}

#[test]
fn innermost_descends_through_data() {
    let value = parse("{\"data\":{\"data\":{\"x\":1},\"y\":2},\"z\":3}").unwrap();
    let inner = parse("{\"x\":1}").unwrap();
    assert_eq!(value.innermost(), &inner);
}

#[test]
fn innermost_of_unwrapped_value_is_itself() {
    let value = parse("{\"data\":{\"data\":\"payload\"}}").unwrap();
    let once = value.innermost();
    assert_eq!(once, &text("payload"));
    assert_eq!(once.innermost(), once);
    let plain = parse("{\"id\":\"1\",\"type\":\"welcome\"}").unwrap();
    assert_eq!(plain.innermost(), &plain);
    assert_eq!(Json::Null.innermost(), &Json::Null);
}

#[test]
fn tick_frame_is_a_domain_tick() {
    assert_eq!(classify_frame(TICK), Ok(ClassifiedEvent::DomainTick(expected_tick())));
}

#[test]
fn nested_tick_unwraps_to_the_same_tick() {
    let nested = format!(
        "{{\"type\":\"message\",\"topic\":\"/contractMarket/tickerV2:XBTUSDM\",\"data\":{{\"subject\":\"tickerV2\",\"data\":{}}}}}",
        TICK
    );
    let direct = classify_frame(TICK);
    assert_eq!(classify_frame(&nested), direct);
    assert_eq!(direct, Ok(ClassifiedEvent::DomainTick(expected_tick())));
}

#[test]
fn tick_shape_is_tried_before_control_shape() {
    let frame = "{\"id\":\"9\",\"type\":\"message\",\"sequence\":1,\"symbol\":\"S\",\"bestBidPrice\":\"1\",\"bestBidSize\":2,\"bestAskPrice\":\"3\",\"bestAskSize\":4,\"ts\":5}";
    let expected = SymbolTicker {
        sequence: 1,
        symbol: "S".to_string(),
        best_bid_price: "1".to_string(),
        best_bid_size: 2,
        best_ask_price: "3".to_string(),
        best_ask_size: 4,
        ts: 5,
    };
    assert_eq!(classify_frame(frame), Ok(ClassifiedEvent::DomainTick(expected)));
}

#[test]
fn welcome_is_a_control_message() {
    let frame = "{\"id\":\"1\",\"type\":\"welcome\"}";
    let event = classify_frame(frame).unwrap();
    assert_eq!(
        event,
        ClassifiedEvent::ControlMessage {
            message: GenericMessage { id: "1".to_string(), msg_type: "welcome".to_string() },
            raw: frame.to_string(),
        }
    );
    assert!(event.welcomes());
}

#[test]
fn other_control_messages_do_not_welcome() {
    let frame = "{\"id\":\"1\",\"type\":\"ack\"}";
    let event = classify_frame(frame).unwrap();
    assert!(matches!(event, ClassifiedEvent::ControlMessage { .. }));
    assert!(!event.welcomes());
    assert!(!ClassifiedEvent::DomainTick(expected_tick()).welcomes());
    assert!(!ClassifiedEvent::Unrecognized { raw: "welcome".to_string() }.welcomes());
    assert_eq!(event.fault(), None);
    assert_eq!(ClassifiedEvent::DomainTick(expected_tick()).fault(), None);
    assert_eq!(
        ClassifiedEvent::Unrecognized { raw: "[]".to_string() }.fault(),
        Some(ProtocolError::UnrecognizedShape)
    );
}

#[test]
fn tick_with_a_wrong_field_type_is_no_tick() {
    let negative = TICK.replace("\"sequence\":45", "\"sequence\":-45");
    assert_eq!(
        classify_frame(&negative),
        Ok(ClassifiedEvent::Unrecognized { raw: negative.clone() })
    );
    let fractional = TICK.replace("\"ts\":1700000000000", "\"ts\":1.5");
    assert_eq!(
        classify_frame(&fractional),
        Ok(ClassifiedEvent::Unrecognized { raw: fractional.clone() })
    );
    let numeric_price = TICK.replace("\"bestAskPrice\":\"30001\"", "\"bestAskPrice\":30001");
    assert_eq!(
        classify_frame(&numeric_price),
        Ok(ClassifiedEvent::Unrecognized { raw: numeric_price.clone() })
    );
    let missing = TICK.replace("\"bestBidSize\":12,", "");
    assert_eq!(
        classify_frame(&missing),
        Ok(ClassifiedEvent::Unrecognized { raw: missing.clone() })
    );
}

#[test]
fn unknown_shapes_are_unrecognized() {
    for frame in ["null", "[1,2,3]", "\"text\"", "17", "{}", "{\"id\":1,\"type\":\"welcome\"}", "{\"id\":\"1\"}"] {
        assert_eq!(
            classify_frame(frame),
            Ok(ClassifiedEvent::Unrecognized { raw: frame.to_string() })
        );
    }
}

#[test]
fn malformed_frames_are_skipped() {
    assert_eq!(classify_frame("{\"id\":\"1\",\"type\":"), Err(ProtocolError::MalformedFrame));
    assert_eq!(classify_frame("not json"), Err(ProtocolError::MalformedFrame));
    assert_eq!(classify_frame(""), Err(ProtocolError::MalformedFrame));
}

#[test]
fn every_value_has_one_classification() {
    let frames = [TICK, "{\"id\":\"1\",\"type\":\"pong\"}", "{\"data\":[]}", "true"];
    let mut kinds = Vec::new();
    for frame in frames {
        let event = classify_frame(frame).unwrap();
        kinds.push(match event {
            ClassifiedEvent::DomainTick(_) => 0,
            ClassifiedEvent::ControlMessage { .. } => 1,
            ClassifiedEvent::Unrecognized { .. } => 2,
        });
    }
    assert_eq!(kinds, vec![0, 1, 2, 2]);
}

#[test]
fn classify_does_not_unwrap_and_classify_value_does() {
    let frame = "{\"data\":{\"id\":\"5\",\"type\":\"notice\"}}";
    let value = parse(frame).unwrap();
    assert_eq!(classify(&value, frame), ClassifiedEvent::Unrecognized { raw: frame.to_string() });
    assert_eq!(
        classify_value(&value, frame),
        ClassifiedEvent::ControlMessage {
            message: GenericMessage { id: "5".to_string(), msg_type: "notice".to_string() },
            raw: frame.to_string(),
        }
    );
}

#[test]
fn find_member_gives_the_first_position() {
    let members = vec![
        member("a", Json::Null),
        member("data", Json::Bool(false)),
        member("data", Json::Bool(true)),
    ];
    assert_eq!(find_member(&members, &"data".to_string()), Some(1));
    assert_eq!(find_member(&members, &"a".to_string()), Some(0));
    assert_eq!(find_member(&members, &"Data".to_string()), None);
    assert_eq!(find_member(&Vec::new(), &"data".to_string()), None);
    assert_eq!(Json::Object(members).innermost(), &Json::Bool(false));
}

#[test]
fn read_tick_and_read_control_look_at_the_value_as_it_is() {
    let tick = parse(TICK).unwrap();
    assert_eq!(read_tick(&tick), Some(expected_tick()));
    assert_eq!(read_control(&tick), None);
    let control = parse("{\"type\":\"pong\",\"id\":\"77\",\"extra\":[]}").unwrap();
    assert_eq!(read_tick(&control), None);
    assert_eq!(
        read_control(&control),
        Some(GenericMessage { id: "77".to_string(), msg_type: "pong".to_string() })
    );
    let wrapped = parse(&format!("{{\"data\":{}}}", TICK)).unwrap();
    assert_eq!(read_tick(&wrapped), None);
}
