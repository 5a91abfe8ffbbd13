use xrpl::json::JsonValue;
use xrpl::request::XrplRequest;
use xrpl::subscriptions::transaction::{
    AccountTransactionsSubscription, AccountTransactionsUnsubscription, LedgerClosedUnsubscription,
};
use xrpl::subscriptions::tx;

fn text_of<'a>(v: &'a JsonValue, key: &str) -> Option<&'a str> {
    v.get(key).and_then(|x| x.as_str())
}

fn strings(v: &JsonValue) -> Vec<String> {
    match v {
        JsonValue::Array(a) => a.iter().map(|x| x.as_str().unwrap().to_string()).collect(),
        _ => panic!("not an array"),
    }
}

#[test]
fn subscription_ids() {
    let sub = AccountTransactionsSubscription::new(vec!["rA".to_string()]);
    assert_eq!(sub.get_id(), None);
    let sub = sub.with_id("mine".to_string());
    assert_eq!(sub.get_id(), Some("mine"));
    let v = sub.into_json();
    assert_eq!(text_of(&v, "id"), Some("mine"));
    assert_eq!(text_of(&v, "command"), Some("subscribe"));
    assert_eq!(strings(v.get("accounts").unwrap()), vec!["rA"]);
}

#[test]
fn subscription_without_id_gets_the_fresh_one() {
    let v = AccountTransactionsSubscription::new(vec!["rA".to_string(), "rB".to_string()])
        .to_json_with_id("fresh".to_string());
    assert_eq!(text_of(&v, "id"), Some("fresh"));
    assert_eq!(strings(v.get("accounts").unwrap()), vec!["rA", "rB"]);
}

#[test]
fn unsubscriptions() {
    let un = AccountTransactionsUnsubscription::new(vec!["rA".to_string()]).with_id("u1".to_string());
    assert_eq!(un.get_id(), Some("u1"));
    let v = un.to_json_with_id("fresh".to_string());
    assert_eq!(text_of(&v, "id"), Some("u1"));
    assert_eq!(text_of(&v, "command"), Some("unsubscribe"));

    let ledger = LedgerClosedUnsubscription::new();
    assert_eq!(ledger.get_id(), None);
    let v = ledger.to_json_with_id("f2".to_string());
    assert_eq!(text_of(&v, "id"), Some("f2"));
    assert_eq!(text_of(&v, "command"), Some("unsubscribe"));
    assert_eq!(strings(v.get("streams").unwrap()), vec!["ledger"]);
    assert_eq!(LedgerClosedUnsubscription::new().with_id("z".to_string()).get_id(), Some("z"));
}

#[test]
fn plain_subscriptions_always_draw_an_id() {
    let v = tx::AccountTransactionsSubscription { accounts: vec!["rQ".to_string()] }.into_json();
    let id = text_of(&v, "id").unwrap();
    assert_eq!(id.len(), 36);
    assert_eq!(text_of(&v, "command"), Some("subscribe"));
    let v = tx::LedgerClosedUnsubscription.to_json_with_id("k".to_string());
    assert_eq!(text_of(&v, "id"), Some("k"));
    assert_eq!(strings(v.get("streams").unwrap()), vec!["ledger"]);
    let v = tx::AccountTransactionsUnsubscription { accounts: vec![] }.to_json_with_id("k2".to_string());
    assert_eq!(text_of(&v, "command"), Some("unsubscribe"));
    assert_eq!(strings(v.get("accounts").unwrap()), Vec::<String>::new());
}
