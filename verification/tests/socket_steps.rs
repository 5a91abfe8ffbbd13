use xrpl::request::account_info::AccountInfoRequest;
use xrpl::request::XrplRequest;
use xrpl::error::XrplSocketError;
use xrpl::json::{JsonNumber, JsonValue};
use xrpl::socket::{
    answer_decision, ensure_connected, request_id, request_timeout_ms, response_step, subscription_step,
    ConnectionAction, ConnectionEvent, ConnectionState, ResponseDecision, ResponseEvent, SubscriptionDecision,
    SubscriptionEvent, PING_INTERVAL_MS, WEBSOCKET_RECEIVE_TIMEOUT_MS,
};

fn id_value(s: &str) -> JsonValue {
    JsonValue::String(s.to_string())
}

#[test]
fn messages_from_the_server_keep_the_connection_alive() {
    let mut st = ConnectionState::new(1000);
    match st.step(ConnectionEvent::Text("hello".to_string()), 5000) {
        ConnectionAction::Broadcast(m) => assert_eq!(m, "hello"),
        _ => panic!("expected a broadcast"),
    }
    assert_eq!(st.last_receive_ms, 5000);
    match st.step(ConnectionEvent::Ping(vec![1, 2, 3]), 6000) {
        ConnectionAction::SendPong(d) => assert_eq!(d, vec![1, 2, 3]),
        _ => panic!("expected a pong"),
    }
    assert_eq!(st.last_receive_ms, 6000);
    assert!(matches!(st.step(ConnectionEvent::Pong, 7000), ConnectionAction::Continue));
    assert_eq!(st.last_receive_ms, 7000);
}

#[test]
fn the_receive_timeout_ends_the_connection() {
    let mut st = ConnectionState::new(0);
    assert!(matches!(st.step(ConnectionEvent::TimeoutCheck, WEBSOCKET_RECEIVE_TIMEOUT_MS), ConnectionAction::Continue));
    assert!(matches!(
        st.step(ConnectionEvent::TimeoutCheck, WEBSOCKET_RECEIVE_TIMEOUT_MS + 1),
        ConnectionAction::Stop(Err(XrplSocketError::Disconnected))
    ));
    assert_eq!(st.last_receive_ms, 0);
    assert_eq!(WEBSOCKET_RECEIVE_TIMEOUT_MS, 40000);
    assert_eq!(PING_INTERVAL_MS, 30000);
}

#[test]
fn failures_and_shutdowns() {
    for ev in [ConnectionEvent::Closed, ConnectionEvent::StreamError, ConnectionEvent::StreamEnded, ConnectionEvent::SendFailed] {
        let mut st = ConnectionState::new(10);
        assert!(matches!(st.step(ev, 20), ConnectionAction::Stop(Err(XrplSocketError::Disconnected))));
        assert_eq!(st.last_receive_ms, 10);
    }
    for ev in [ConnectionEvent::OutgoingClosed, ConnectionEvent::Cancelled] {
        let mut st = ConnectionState::new(10);
        assert!(matches!(st.step(ev, 20), ConnectionAction::Stop(Ok(()))));
    }
    let mut st = ConnectionState::new(10);
    match st.step(ConnectionEvent::Outgoing("req".to_string()), 20) {
        ConnectionAction::SendText(m) => assert_eq!(m, "req"),
        _ => panic!("expected a send"),
    }
    assert!(matches!(st.step(ConnectionEvent::PingTick, 20), ConnectionAction::SendPing));
    assert_eq!(st.last_receive_ms, 10);
}

#[test]
fn closed_sockets_refuse_work() {
    assert!(matches!(ensure_connected(true), Err(XrplSocketError::Disconnected)));
    assert!(ensure_connected(false).is_ok());
}

#[test]
fn requests_must_carry_an_id() {
    let req = JsonValue::Object(vec![
        ("command".to_string(), id_value("ping")),
        ("id".to_string(), JsonValue::Number(JsonNumber::PosInt(4))),
    ]);
    match request_id(&req) {
        Ok(JsonValue::Number(JsonNumber::PosInt(4))) => {}
        _ => panic!("expected the id"),
    }
    let no_id = JsonValue::Object(vec![("command".to_string(), id_value("ping"))]);
    match request_id(&no_id) {
        Err(XrplSocketError::InvalidRequest { field }) => assert_eq!(field, "id"),
        _ => panic!("expected a missing id"),
    }
    match request_id(&id_value("x")) {
        Err(XrplSocketError::InvalidRequest { field }) => assert_eq!(field, "request must be an object"),
        _ => panic!("expected a refusal"),
    }
}

#[test]
fn request_timeouts() {
    assert_eq!(request_timeout_ms(None), 5000);
    assert_eq!(request_timeout_ms(Some(250)), 250);
    assert_eq!(request_timeout_ms(Some(-1)), u64::MAX);
}

#[test]
fn the_answer_is_the_message_with_the_same_id() {
    let id = id_value("abc");
    match response_step(&id, false, ResponseEvent::Message(r#"{"id":"abc","result":{"ok":true}}"#.to_string())) {
        ResponseDecision::Deliver(v) => {
            assert_eq!(v.get("id").and_then(|x| x.as_str()), Some("abc"));
            assert!(v.get("result").is_some());
        }
        _ => panic!("expected the answer"),
    }
    assert!(matches!(
        response_step(&id, false, ResponseEvent::Message(r#"{"id":"xyz"}"#.to_string())),
        ResponseDecision::Skip
    ));
    assert!(matches!(
        response_step(&id, false, ResponseEvent::Message(r#"{"type":"ledgerClosed"}"#.to_string())),
        ResponseDecision::Skip
    ));
    assert!(matches!(response_step(&id, false, ResponseEvent::Message("not json".to_string())), ResponseDecision::Skip));
    assert!(matches!(response_step(&id, false, ResponseEvent::Message(r#"["abc"]"#.to_string())), ResponseDecision::Skip));
    assert!(matches!(response_step(&id, false, ResponseEvent::Lagged), ResponseDecision::Skip));
    assert!(matches!(response_step(&id, false, ResponseEvent::ChannelClosed), ResponseDecision::Stop));
    assert!(matches!(
        response_step(&id, true, ResponseEvent::Message(r#"{"id":"abc"}"#.to_string())),
        ResponseDecision::Stop
    ));
}

#[test]
fn numeric_ids_match_numerically() {
    let id = JsonValue::Number(JsonNumber::PosInt(12));
    assert!(matches!(response_step(&id, false, ResponseEvent::Message(r#"{"id":12}"#.to_string())), ResponseDecision::Deliver(_)));
    assert!(matches!(response_step(&id, false, ResponseEvent::Message(r#"{"id":"12"}"#.to_string())), ResponseDecision::Skip));
}

#[test]
fn answer_decision_on_parsed_messages() {
    let id = id_value("a");
    let answer = JsonValue::Object(vec![("id".to_string(), id_value("a"))]);
    assert!(matches!(answer_decision(&id, Some(answer)), ResponseDecision::Deliver(_)));
    let other = JsonValue::Object(vec![("id".to_string(), id_value("b"))]);
    assert!(matches!(answer_decision(&id, Some(other)), ResponseDecision::Skip));
    assert!(matches!(answer_decision(&id, None), ResponseDecision::Skip));
}

#[test]
fn subscription_steps() {
    assert!(matches!(subscription_step(false, SubscriptionEvent::Parsed), SubscriptionDecision::Forward));
    assert!(matches!(subscription_step(false, SubscriptionEvent::Unparsable), SubscriptionDecision::Skip));
    assert!(matches!(subscription_step(false, SubscriptionEvent::Lagged), SubscriptionDecision::Skip));
    assert!(matches!(subscription_step(false, SubscriptionEvent::ChannelClosed), SubscriptionDecision::Stop));
    assert!(matches!(subscription_step(true, SubscriptionEvent::Parsed), SubscriptionDecision::Stop));
}

#[test]
fn a_request_is_answered_by_the_message_with_its_id() {
    let sent = AccountInfoRequest { account: "rA".to_string(), ..Default::default() }.to_json_with_id("r-42".to_string());
    let id = match request_id(&sent) {
        Ok(id) => id,
        Err(_) => panic!("a request carries its id"),
    };
    assert_eq!(id.as_str(), Some("r-42"));
    let other = r#"{"id":"r-41","result":{}}"#.to_string();
    assert!(matches!(response_step(&id, false, ResponseEvent::Message(other)), ResponseDecision::Skip));
    let mine = r#"{"id":"r-42","result":{},"status":"success","type":"response"}"#.to_string();
    match response_step(&id, false, ResponseEvent::Message(mine)) {
        ResponseDecision::Deliver(answer) => assert_eq!(answer.get("id").and_then(|v| v.as_str()), Some("r-42")),
        _ => panic!("expected the answer"),
    }
}

#[test]
fn float_ids_match_as_numbers() {
    let id = JsonValue::Number(JsonNumber::Float("0.0".to_string()));
    assert!(matches!(response_step(&id, false, ResponseEvent::Message(r#"{"id":-0.0}"#.to_string())), ResponseDecision::Deliver(_)));
    assert!(matches!(response_step(&id, false, ResponseEvent::Message(r#"{"id":0.5}"#.to_string())), ResponseDecision::Skip));
    let obj_id = JsonValue::Object(vec![
        ("b".to_string(), JsonValue::Number(JsonNumber::PosInt(2))),
        ("a".to_string(), JsonValue::Number(JsonNumber::PosInt(1))),
    ]);
    assert!(matches!(response_step(&obj_id, false, ResponseEvent::Message(r#"{"id":{"a":1,"b":2}}"#.to_string())), ResponseDecision::Deliver(_)));
}
