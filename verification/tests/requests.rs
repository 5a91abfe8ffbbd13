use xrpl::json::{json_eq, JsonNumber, JsonValue};
use xrpl::request::account_info::AccountInfoRequest;
use xrpl::request::account_lines::AccountLinesRequest;
use xrpl::request::account_nfts::AccountNftsRequest;
use xrpl::request::account_objects::{AccountObjectRequestType, AccountObjectsRequest};
use xrpl::request::account_offers::AccountOffersRequest;
use xrpl::request::account_tx::AccountTxRequest;
use xrpl::request::tx::TxRequest;
use xrpl::request::{XrplRequest, XrplResponse};
use xrpl::error::XrplError;
use xrpl::types::Amount;

fn keys(v: &JsonValue) -> Vec<String> {
    match v {
        JsonValue::Object(m) => m.iter().map(|(k, _)| k.clone()).collect(),
        _ => panic!("not an object"),
    }
}

fn text_of<'a>(v: &'a JsonValue, key: &str) -> Option<&'a str> {
    v.get(key).and_then(|x| x.as_str())
}

fn is_uuid_v4(s: &str) -> bool {
    let b: Vec<char> = s.chars().collect();
    b.len() == 36
        && b.iter().enumerate().all(|(i, c)| {
            if i == 8 || i == 13 || i == 18 || i == 23 {
                *c == '-'
            } else {
                c.is_ascii_digit() || ('a'..='f').contains(c)
            }
        })
        && b[14] == '4'
        && matches!(b[19], '8' | '9' | 'a' | 'b')
}

#[test]
fn account_info_leaves_out_unset_fields() {
    let req = AccountInfoRequest { account: "rA".to_string(), queue: Some(true), ..Default::default() };
    let v = req.to_json_with_id("req-1".to_string());
    assert_eq!(keys(&v), vec!["account", "queue", "id", "command"]);
    assert_eq!(text_of(&v, "account"), Some("rA"));
    assert!(json_eq(v.get("queue").unwrap(), &JsonValue::Bool(true)));
    assert_eq!(text_of(&v, "id"), Some("req-1"));
    assert_eq!(text_of(&v, "command"), Some("account_info"));
}

#[test]
fn account_info_with_every_field() {
    let req = AccountInfoRequest {
        account: "rA".to_string(),
        ledger_hash: Some("H".to_string()),
        ledger_index: Some("validated".to_string()),
        queue: Some(false),
        signer_lists: Some(true),
        strict: Some(true),
    };
    let v = req.to_json_with_id("x".to_string());
    assert_eq!(
        keys(&v),
        vec!["account", "ledger_hash", "ledger_index", "queue", "signer_lists", "strict", "id", "command"]
    );
    assert_eq!(text_of(&v, "ledger_index"), Some("validated"));
}

#[test]
fn account_lines_asks_for_version_two() {
    let req = AccountLinesRequest {
        account: "rB".to_string(),
        limit: Some(-3),
        peer: Some("rP".to_string()),
        ..Default::default()
    };
    let v = req.to_json_with_id("7".to_string());
    assert_eq!(keys(&v), vec!["account", "limit", "peer", "id", "command", "api_version"]);
    assert!(json_eq(v.get("limit").unwrap(), &JsonValue::Number(JsonNumber::NegInt(-3))));
    assert_eq!(text_of(&v, "command"), Some("account_lines"));
    assert!(json_eq(v.get("api_version").unwrap(), &JsonValue::Number(JsonNumber::PosInt(2))));
}

#[test]
fn account_nfts_carries_its_marker() {
    let req = AccountNftsRequest {
        account: "rC".to_string(),
        ledger_index: Some("current".to_string()),
        limit: Some(20),
        marker: Some(JsonValue::String("m1".to_string())),
        ..Default::default()
    };
    let v = req.to_json_with_id("9".to_string());
    assert_eq!(keys(&v), vec!["account", "ledger_index", "limit", "marker", "id", "command"]);
    assert_eq!(text_of(&v, "marker"), Some("m1"));
    assert!(json_eq(v.get("limit").unwrap(), &JsonValue::Number(JsonNumber::PosInt(20))));
    assert_eq!(text_of(&v, "command"), Some("account_nfts"));
}

#[test]
fn account_objects_writes_the_kind_under_type() {
    let req = AccountObjectsRequest {
        account: "rD".to_string(),
        amount: Some(Amount::drops(10)),
        kind: Some(AccountObjectRequestType::RippleState),
        ..Default::default()
    };
    let v = req.to_json_with_id("o".to_string());
    assert_eq!(keys(&v), vec!["account", "amount", "type", "id", "command"]);
    assert_eq!(text_of(&v, "type"), Some("RippleState"));
    assert_eq!(text_of(&v, "amount"), Some("10"));
    assert_eq!(text_of(&v, "command"), Some("account_objects"));
}

#[test]
fn account_objects_issued_amount_is_an_object() {
    let req = AccountObjectsRequest {
        account: "rD".to_string(),
        amount: Some(Amount::issued_currency("1.5", "USD", "rI")),
        ..Default::default()
    };
    let v = req.to_json_with_id("o".to_string());
    let amount = v.get("amount").unwrap();
    assert_eq!(keys(amount), vec!["value", "currency", "issuer"]);
    assert_eq!(text_of(amount, "value"), Some("1.5"));
    assert_eq!(text_of(amount, "currency"), Some("USD"));
    assert_eq!(text_of(amount, "issuer"), Some("rI"));
}

#[test]
fn object_type_names() {
    let all = [
        (AccountObjectRequestType::Bridge, "Bridge"),
        (AccountObjectRequestType::Check, "Check"),
        (AccountObjectRequestType::DepositPreauth, "DepositPreauth"),
        (AccountObjectRequestType::Escrow, "Escrow"),
        (AccountObjectRequestType::MPToken, "MPToken"),
        (AccountObjectRequestType::NFTokenOffer, "NFTokenOffer"),
        (AccountObjectRequestType::NFTokenPage, "NFTokenPage"),
        (AccountObjectRequestType::Offer, "Offer"),
        (AccountObjectRequestType::PayChannel, "PayChannel"),
        (AccountObjectRequestType::RippleState, "RippleState"),
        (AccountObjectRequestType::SignerList, "SignerList"),
        (AccountObjectRequestType::Ticket, "Ticket"),
    ];
    for (t, name) in all {
        assert_eq!(t.name(), name);
    }
}

#[test]
fn account_offers_always_carries_its_ledger_index() {
    let req = AccountOffersRequest { account: "rE".to_string(), ledger_index: 0, ..Default::default() };
    let v = req.to_json_with_id("p".to_string());
    assert_eq!(keys(&v), vec!["account", "ledger_index", "id", "command"]);
    assert!(json_eq(v.get("ledger_index").unwrap(), &JsonValue::Number(JsonNumber::PosInt(0))));
    assert_eq!(text_of(&v, "command"), Some("account_offers"));
}

#[test]
fn account_tx_fields_in_order() {
    let req = AccountTxRequest {
        account: "rF".to_string(),
        ledger_index_min: Some(-1),
        ledger_index_max: Some(-1),
        binary: Some(false),
        forward: Some(true),
        limit: Some(5),
        ..Default::default()
    };
    let v = req.to_json_with_id("q".to_string());
    assert_eq!(
        keys(&v),
        vec!["account", "ledger_index_min", "ledger_index_max", "binary", "forward", "limit", "id", "command", "api_version"]
    );
    assert!(json_eq(v.get("ledger_index_min").unwrap(), &JsonValue::Number(JsonNumber::NegInt(-1))));
    assert_eq!(text_of(&v, "command"), Some("account_tx"));
}

#[test]
fn tx_request_by_hash() {
    let req = TxRequest { transaction: Some("ABC".to_string()), binary: Some(false), ..Default::default() };
    let v = req.to_json_with_id("r".to_string());
    assert_eq!(keys(&v), vec!["transaction", "binary", "id", "command", "api_version"]);
    assert_eq!(text_of(&v, "transaction"), Some("ABC"));
    assert_eq!(text_of(&v, "command"), Some("tx"));
    assert!(json_eq(v.get("api_version").unwrap(), &JsonValue::Number(JsonNumber::PosInt(2))));
}

#[test]
fn fresh_ids_are_random_uuids() {
    let a = AccountInfoRequest { account: "rA".to_string(), ..Default::default() }.into_json();
    let b = AccountInfoRequest { account: "rA".to_string(), ..Default::default() }.into_json();
    let ida = text_of(&a, "id").unwrap().to_string();
    let idb = text_of(&b, "id").unwrap().to_string();
    assert!(is_uuid_v4(&ida), "{}", ida);
    assert!(is_uuid_v4(&idb), "{}", idb);
    assert_ne!(ida, idb);
    assert_eq!(text_of(&a, "command"), Some("account_info"));
}

#[test]
fn response_result_and_id() {
    let ok: XrplResponse<u32> = XrplResponse::Success {
        id: "1".to_string(),
        result: 5,
        kind: "response".to_string(),
        status: "success".to_string(),
    };
    assert_eq!(ok.id(), Some("1"));
    assert_eq!(ok.result().unwrap(), 5);

    let err: XrplResponse<u32> = XrplResponse::Error {
        id: None,
        error: "actNotFound".to_string(),
        error_code: Some(19),
        error_message: Some("Account not found.".to_string()),
        request: None,
        kind: "response".to_string(),
        status: "error".to_string(),
    };
    assert_eq!(err.id(), None);
    match err.result() {
        Err(XrplError::ApiError { error, error_message }) => {
            assert_eq!(error, "actNotFound");
            assert_eq!(error_message.as_deref(), Some("Account not found."));
        }
        other => panic!("unexpected {:?}", other),
    }
}
