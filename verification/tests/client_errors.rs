use xrpl::client::{check_call_response, interpret_call_response};
use xrpl::error::{XrplError, XrplSocketError};
use xrpl::json::JsonValue;

#[test]
fn an_error_answer_becomes_an_api_error() {
    let answer = r#"{"error":"actNotFound","error_message":"Account not found.","status":"error"}"#;
    match check_call_response(answer.to_string()) {
        Err(XrplError::ApiError { error, error_message }) => {
            assert_eq!(error, "actNotFound");
            assert_eq!(error_message.as_deref(), Some("Account not found."));
        }
        other => panic!("unexpected {:?}", other),
    }
}

#[test]
fn an_error_that_is_not_text_is_unknown() {
    match check_call_response(r#"{"error":42,"error_message":7}"#.to_string()) {
        Err(XrplError::ApiError { error, error_message }) => {
            assert_eq!(error, "unknown");
            assert_eq!(error_message, None);
        }
        other => panic!("unexpected {:?}", other),
    }
}

#[test]
fn other_answers_are_handed_back_unchanged() {
    let ok = r#"{"id":"1","result":{"validated":true},"status":"success"}"#;
    assert_eq!(check_call_response(ok.to_string()).unwrap(), ok);
    assert_eq!(check_call_response("not json".to_string()).unwrap(), "not json");
    assert_eq!(check_call_response("[1,2]".to_string()).unwrap(), "[1,2]");
}

#[test]
fn interpretation_of_parsed_answers() {
    let parsed = JsonValue::Object(vec![
        ("error".to_string(), JsonValue::String("tooBusy".to_string())),
    ]);
    match interpret_call_response("raw".to_string(), Some(parsed)) {
        Err(XrplError::ApiError { error, error_message }) => {
            assert_eq!(error, "tooBusy");
            assert_eq!(error_message, None);
        }
        other => panic!("unexpected {:?}", other),
    }
    assert_eq!(interpret_call_response("raw".to_string(), None).unwrap(), "raw");
    assert_eq!(interpret_call_response("raw".to_string(), Some(JsonValue::Null)).unwrap(), "raw");
}

#[test]
fn error_messages() {
    let api = XrplError::ApiError { error: "e".to_string(), error_message: Some("m".to_string()) };
    assert_eq!(api.message(), "XRPL API returned error: e: m");
    let api_bare = XrplError::ApiError { error: "e".to_string(), error_message: None };
    assert_eq!(api_bare.message(), "XRPL API returned error: e: ");
    assert_eq!(XrplError::ParseError("bad".to_string()).message(), "Failed to parse XRPL response: bad");
    let timeout = XrplSocketError::RequestTimeout { timeout_ms: 5000 };
    assert_eq!(timeout.message(), "Request timed out after 5000ms");
    let wrapped = XrplError::from(XrplSocketError::Disconnected);
    assert!(matches!(wrapped, XrplError::SocketError(XrplSocketError::Disconnected)));
    assert_eq!(wrapped.message(), "Socket error: WebSocket is disconnected");
    assert_eq!(
        XrplSocketError::InvalidRequest { field: "id".to_string() }.message(),
        "Invalid request format: missing required field 'id'"
    );
    assert_eq!(XrplSocketError::ConnectionError("refused".to_string()).message(), "Failed to connect to WebSocket: refused");
    assert_eq!(XrplSocketError::JsonParseError("eof".to_string()).message(), "Failed to parse JSON response: eof");
    assert_eq!(XrplSocketError::ConnectionClosed.message(), "WebSocket connection closed unexpectedly");
    assert_eq!(XrplSocketError::ChannelSendError.message(), "Failed to send message over internal channel");
    assert_eq!(XrplSocketError::ChannelReceiveError.message(), "Failed to receive response from internal channel");
    assert_eq!(XrplSocketError::PingFailed.message(), "WebSocket ping failed");
}
