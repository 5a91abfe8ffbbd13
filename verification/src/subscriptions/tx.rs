//! Subscribing to the transactions of accounts, each request with a fresh
//! id, and unsubscribing.
use vstd::prelude::*;
use crate::json::{
    json_string, json_string_array, members_get, members_view, push_member, strings_view, JsonValue, JsonView,
};
use crate::request::{XrplRequest, XrplResponse, XrplSubscription};

verus! {

broadcast use vstd::string::group_string_axioms;

/// A request to receive the transactions of some accounts.
pub struct AccountTransactionsSubscription {
    pub accounts: Vec<String>,
}

impl XrplRequest for AccountTransactionsSubscription {
    type Response = XrplResponse<AccountSubscriptionResponse>;

    /// `{"id", "command": "subscribe", "accounts"}`.
    open spec fn request_view(&self, fresh_id: Seq<char>) -> JsonView {
        JsonView::Object(
            seq![
                ("id"@, JsonView::Str(fresh_id)),
                ("command"@, JsonView::Str("subscribe"@)),
                ("accounts"@, JsonView::Array(strings_view(self.accounts@))),
            ],
        )
    }

    open spec fn id_sent(&self, fresh_id: Seq<char>) -> Seq<char> {
        fresh_id
    }

    proof fn lemma_request_carries_id(&self, fresh_id: Seq<char>) {
        reveal_strlit("id");
    }

    fn to_json_with_id(self, fresh_id: String) -> (r: JsonValue) {
        let ghost want = self.request_view(fresh_id@);
        let mut m: Vec<(String, JsonValue)> = Vec::new();
        push_member(&mut m, "id", json_string(fresh_id));
        push_member(&mut m, "command", json_string("subscribe".to_string()));
        push_member(&mut m, "accounts", json_string_array(self.accounts));
        assert(members_view(m@) =~= want->Object_0);
        JsonValue::Object(m)
    }
}

/// The acknowledgement of a subscription: its result is empty.
#[derive(Debug)]
pub struct AccountSubscriptionResponse {}

impl XrplSubscription for AccountTransactionsSubscription {
    type Message = AccountTransactionMessage;
}

/// A transaction of a subscribed account.
#[derive(Debug, Clone)]
pub struct AccountTransactionMessage {
    pub close_time_iso: String,
    pub engine_result: String,
    pub engine_result_code: i32,
    pub engine_result_message: String,
    pub ledger_hash: String,
    pub ledger_index: i64,
    pub meta: TransactionMeta,
    pub status: String,
    pub transaction: Transaction,
    pub kind: String,
    pub validated: bool,
}

/// A transaction as the stream reports it: the common fields, and every
/// other field by name.
#[derive(Debug, Clone)]
pub struct Transaction {
    pub account: String,
    pub amount: JsonValue,
    pub deliver_max: Option<String>,
    pub destination: Option<String>,
    pub destination_tag: Option<u32>,
    pub fee: String,
    pub flags: u32,
    pub last_ledger_sequence: Option<i64>,
    pub sequence: i64,
    pub signing_pub_key: String,
    pub transaction_type: String,
    pub txn_signature: String,
    pub date: Option<i64>,
    pub hash: String,
    pub other_fields: std::collections::HashMap<String, JsonValue>,
}

/// What a transaction did.
#[derive(Debug, Clone)]
pub struct TransactionMeta {
    pub affected_nodes: Vec<JsonValue>,
    pub transaction_index: i32,
    pub transaction_result: String,
    pub delivered_amount: Option<JsonValue>,
}

/// A request to stop receiving the transactions of some accounts.
pub struct AccountTransactionsUnsubscription {
    pub accounts: Vec<String>,
}

impl XrplRequest for AccountTransactionsUnsubscription {
    type Response = XrplResponse<UnsubscribeResponse>;

    /// `{"id", "command": "unsubscribe", "accounts"}`.
    open spec fn request_view(&self, fresh_id: Seq<char>) -> JsonView {
        JsonView::Object(
            seq![
                ("id"@, JsonView::Str(fresh_id)),
                ("command"@, JsonView::Str("unsubscribe"@)),
                ("accounts"@, JsonView::Array(strings_view(self.accounts@))),
            ],
        )
    }

    open spec fn id_sent(&self, fresh_id: Seq<char>) -> Seq<char> {
        fresh_id
    }

    proof fn lemma_request_carries_id(&self, fresh_id: Seq<char>) {
        reveal_strlit("id");
    }

    fn to_json_with_id(self, fresh_id: String) -> (r: JsonValue) {
        let ghost want = self.request_view(fresh_id@);
        let mut m: Vec<(String, JsonValue)> = Vec::new();
        push_member(&mut m, "id", json_string(fresh_id));
        push_member(&mut m, "command", json_string("unsubscribe".to_string()));
        push_member(&mut m, "accounts", json_string_array(self.accounts));
        assert(members_view(m@) =~= want->Object_0);
        JsonValue::Object(m)
    }
}

/// The acknowledgement of an unsubscription: its result is empty.
#[derive(Debug)]
pub struct UnsubscribeResponse {}

/// A request to stop receiving closed ledgers.
pub struct LedgerClosedUnsubscription;

impl XrplRequest for LedgerClosedUnsubscription {
    type Response = XrplResponse<UnsubscribeResponse>;

    /// `{"id", "command": "unsubscribe", "streams": ["ledger"]}`.
    open spec fn request_view(&self, fresh_id: Seq<char>) -> JsonView {
        JsonView::Object(
            seq![
                ("id"@, JsonView::Str(fresh_id)),
                ("command"@, JsonView::Str("unsubscribe"@)),
                ("streams"@, JsonView::Array(seq![JsonView::Str("ledger"@)])),
            ],
        )
    }

    open spec fn id_sent(&self, fresh_id: Seq<char>) -> Seq<char> {
        fresh_id
    }

    proof fn lemma_request_carries_id(&self, fresh_id: Seq<char>) {
        reveal_strlit("id");
    }

    fn to_json_with_id(self, fresh_id: String) -> (r: JsonValue) {
        let ghost want = self.request_view(fresh_id@);
        let mut m: Vec<(String, JsonValue)> = Vec::new();
        push_member(&mut m, "id", json_string(fresh_id));
        push_member(&mut m, "command", json_string("unsubscribe".to_string()));
        let mut streams: Vec<String> = Vec::new();
        streams.push("ledger".to_string());
        let ghost sv = streams@;
        push_member(&mut m, "streams", json_string_array(streams));
        assert(strings_view(sv) =~= seq![JsonView::Str("ledger"@)]);
        assert(members_view(m@) =~= want->Object_0);
        JsonValue::Object(m)
    }
}

/// A subscription is sent with the fresh id, the command `subscribe` and
/// its accounts in order.
pub proof fn lemma_subscription_request(req: AccountTransactionsSubscription, id: Seq<char>)
    ensures
        ({
            let v = req.request_view(id);
            &&& v.get("id"@) == Some(JsonView::Str(id))
            &&& v.get("command"@) == Some(JsonView::Str("subscribe"@))
            &&& v.get("accounts"@) matches Some(JsonView::Array(xs)) && xs.len() == req.accounts@.len() && forall|i: int| 0 <= i < xs.len() ==> xs[i] == JsonView::Str(req.accounts@[i]@)
        }),
{
    reveal_with_fuel(members_get, 4);
    reveal_strlit("id");
    reveal_strlit("command");
    reveal_strlit("accounts");
    assert("id"@.len() == 2 && "command"@.len() == 7 && "accounts"@.len() == 8);
}

/// An unsubscription is sent with the fresh id, the command `unsubscribe`
/// and its accounts in order.
pub proof fn lemma_unsubscription_request(req: AccountTransactionsUnsubscription, id: Seq<char>)
    ensures
        ({
            let v = req.request_view(id);
            &&& v.get("id"@) == Some(JsonView::Str(id))
            &&& v.get("command"@) == Some(JsonView::Str("unsubscribe"@))
            &&& v.get("accounts"@) matches Some(JsonView::Array(xs)) && xs.len() == req.accounts@.len() && forall|i: int| 0 <= i < xs.len() ==> xs[i] == JsonView::Str(req.accounts@[i]@)
        }),
{
    reveal_with_fuel(members_get, 4);
    reveal_strlit("id");
    reveal_strlit("command");
    reveal_strlit("accounts");
    assert("id"@.len() == 2 && "command"@.len() == 7 && "accounts"@.len() == 8);
}

/// An unsubscription from closed ledgers is sent with the fresh id, the
/// command `unsubscribe` and the stream `ledger`.
pub proof fn lemma_ledger_unsubscription_request(req: LedgerClosedUnsubscription, id: Seq<char>)
    ensures
        ({
            let v = req.request_view(id);
            &&& v.get("id"@) == Some(JsonView::Str(id))
            &&& v.get("command"@) == Some(JsonView::Str("unsubscribe"@))
            &&& v.get("streams"@) matches Some(JsonView::Array(xs)) && xs == seq![JsonView::Str("ledger"@)]
        }),
{
    reveal_with_fuel(members_get, 4);
    reveal_strlit("id");
    reveal_strlit("command");
    reveal_strlit("streams");
    assert("id"@.len() == 2 && "command"@.len() == 7 && "streams"@.len() == 7);
    assert("streams"@[0] != "command"@[0]);
}

} // verus!
