//! Subscribing to the transactions of accounts, with an id the caller may
//! choose, and unsubscribing.
use vstd::prelude::*;
use crate::json::{
    json_string, json_string_array, members_get, members_view, push_member, strings_view, JsonValue, JsonView,
};
use crate::request::{is_uuid_v4_text, new_request_id, XrplRequest, XrplResponse, XrplSubscription};
use crate::types::transaction::Transaction;

verus! {

broadcast use vstd::string::group_string_axioms;

/// The id a subscription request is sent with: its own, else the fresh one.
pub open spec fn chosen_id(own: Option<String>, fresh: Seq<char>) -> Seq<char> {
    match own {
        Some(i) => i@,
        None => fresh,
    }
}

/// The text of an optional id.
pub open spec fn id_text(own: Option<String>, r: Option<&str>) -> bool {
    match own {
        Some(i) => r is Some && r->0@ == i@,
        None => r is None,
    }
}

/// The id itself, or the fresh one when there is none.
fn pick_id(own: Option<String>, fresh: String) -> (r: String)
    ensures
        r@ == chosen_id(own, fresh@),
{
    match own {
        Some(i) => i,
        None => fresh,
    }
}

/// A version 4 UUID text, standing for whichever id would have been drawn:
/// a request with an id of its own is sent the same whatever the fresh id.
spec fn stand_in_uuid() -> Seq<char> {
    Seq::new(
        36,
        |i: int|
            if i == 8 || i == 13 || i == 18 || i == 23 {
                '-'
            } else if i == 14 {
                '4'
            } else if i == 19 {
                '8'
            } else {
                '0'
            },
    )
}

proof fn lemma_stand_in_uuid()
    ensures
        is_uuid_v4_text(stand_in_uuid()),
{
}

/// A request to receive the transactions of some accounts.
pub struct AccountTransactionsSubscription {
    pub id: Option<String>,
    pub accounts: Vec<String>,
}

impl AccountTransactionsSubscription {
    /// A subscription to `accounts`, with no id of its own.
    pub fn new(accounts: Vec<String>) -> (r: Self)
        ensures
            r.id is None,
            r.accounts == accounts,
    {
        Self { accounts, id: None }
    }

    /// The same subscription, sent with `id`.
    pub fn with_id(self, id: String) -> (r: Self)
        ensures
            r.id == Some(id),
            r.accounts == self.accounts,
    {
        let mut s = self;
        s.id = Some(id);
        s
    }

    /// The id the subscription was given, if any.
    pub fn get_id(&self) -> (r: Option<&str>)
        ensures
            id_text(self.id, r),
    {
        match &self.id {
            Some(i) => Some(i.as_str()),
            None => None,
        }
    }
}

impl XrplRequest for AccountTransactionsSubscription {
    type Response = XrplResponse<AccountSubscriptionResponse>;

    /// `{"id", "command": "subscribe", "accounts"}`, the id being the
    /// subscription's own when it has one.
    open spec fn request_view(&self, fresh_id: Seq<char>) -> JsonView {
        JsonView::Object(
            seq![
                ("id"@, JsonView::Str(chosen_id(self.id, fresh_id))),
                ("command"@, JsonView::Str("subscribe"@)),
                ("accounts"@, JsonView::Array(strings_view(self.accounts@))),
            ],
        )
    }

    open spec fn id_sent(&self, fresh_id: Seq<char>) -> Seq<char> {
        chosen_id(self.id, fresh_id)
    }

    proof fn lemma_request_carries_id(&self, fresh_id: Seq<char>) {
        reveal_strlit("id");
    }

    fn to_json_with_id(self, fresh_id: String) -> (r: JsonValue) {
        let ghost want = self.request_view(fresh_id@);
        let mut m: Vec<(String, JsonValue)> = Vec::new();
        push_member(&mut m, "id", json_string(pick_id(self.id, fresh_id)));
        push_member(&mut m, "command", json_string("subscribe".to_string()));
        push_member(&mut m, "accounts", json_string_array(self.accounts));
        assert(members_view(m@) =~= want->Object_0);
        JsonValue::Object(m)
    }

    /// The request as sent: a fresh id is drawn only when there is no id of
    /// its own.
    fn into_json(self) -> (r: JsonValue) {
        let ghost own = self;
        if self.id.is_some() {
            let r = self.to_json_with_id(String::new());
            proof {
                lemma_stand_in_uuid();
                assert(r@ == own.request_view(stand_in_uuid()));
            }
            r
        } else {
            let id = new_request_id();
            let ghost idv = id@;
            let r = self.to_json_with_id(id);
            assert(is_uuid_v4_text(idv) && r@ == own.request_view(idv));
            r
        }
    }
}

/// The acknowledgement of a subscription: its result is empty.
#[derive(Debug)]
pub struct AccountSubscriptionResponse {}

impl XrplSubscription for AccountTransactionsSubscription {
    type Message = AccountTransactionMessage;
}

/// A transaction of a subscribed account.
#[derive(Debug, Clone)]
pub struct AccountTransactionMessage {
    pub close_time_iso: Option<String>,
    pub engine_result: String,
    pub engine_result_code: i32,
    pub engine_result_message: String,
    pub ledger_hash: Option<String>,
    pub ledger_index: Option<i64>,
    pub meta: Option<TransactionMeta>,
    pub status: String,
    pub transaction: Transaction,
    pub kind: String,
    pub validated: bool,
}

/// What a transaction did.
#[derive(Debug, Clone)]
pub struct TransactionMeta {
    pub affected_nodes: Vec<JsonValue>,
    pub transaction_index: i32,
    pub transaction_result: String,
    pub delivered_amount: Option<JsonValue>,
}

/// A request to stop receiving the transactions of some accounts.
pub struct AccountTransactionsUnsubscription {
    pub accounts: Vec<String>,
    pub id: Option<String>,
}

impl AccountTransactionsUnsubscription {
    /// An unsubscription from `accounts`, with no id of its own.
    pub fn new(accounts: Vec<String>) -> (r: Self)
        ensures
            r.id is None,
            r.accounts == accounts,
    {
        Self { accounts, id: None }
    }

    /// The same unsubscription, sent with `id`.
    pub fn with_id(self, id: String) -> (r: Self)
        ensures
            r.id == Some(id),
            r.accounts == self.accounts,
    {
        let mut s = self;
        s.id = Some(id);
        s
    }

    /// The id the unsubscription was given, if any.
    pub fn get_id(&self) -> (r: Option<&str>)
        ensures
            id_text(self.id, r),
    {
        match &self.id {
            Some(i) => Some(i.as_str()),
            None => None,
        }
    }
}

impl XrplRequest for AccountTransactionsUnsubscription {
    type Response = XrplResponse<UnsubscribeResponse>;

    /// `{"id", "command": "unsubscribe", "accounts"}`, the id being the
    /// unsubscription's own when it has one.
    open spec fn request_view(&self, fresh_id: Seq<char>) -> JsonView {
        JsonView::Object(
            seq![
                ("id"@, JsonView::Str(chosen_id(self.id, fresh_id))),
                ("command"@, JsonView::Str("unsubscribe"@)),
                ("accounts"@, JsonView::Array(strings_view(self.accounts@))),
            ],
        )
    }

    open spec fn id_sent(&self, fresh_id: Seq<char>) -> Seq<char> {
        chosen_id(self.id, fresh_id)
    }

    proof fn lemma_request_carries_id(&self, fresh_id: Seq<char>) {
        reveal_strlit("id");
    }

    fn to_json_with_id(self, fresh_id: String) -> (r: JsonValue) {
        let ghost want = self.request_view(fresh_id@);
        let mut m: Vec<(String, JsonValue)> = Vec::new();
        push_member(&mut m, "id", json_string(pick_id(self.id, fresh_id)));
        push_member(&mut m, "command", json_string("unsubscribe".to_string()));
        push_member(&mut m, "accounts", json_string_array(self.accounts));
        assert(members_view(m@) =~= want->Object_0);
        JsonValue::Object(m)
    }

    /// The request as sent: a fresh id is drawn only when there is no id of
    /// its own.
    fn into_json(self) -> (r: JsonValue) {
        let ghost own = self;
        if self.id.is_some() {
            let r = self.to_json_with_id(String::new());
            proof {
                lemma_stand_in_uuid();
                assert(r@ == own.request_view(stand_in_uuid()));
            }
            r
        } else {
            let id = new_request_id();
            let ghost idv = id@;
            let r = self.to_json_with_id(id);
            assert(is_uuid_v4_text(idv) && r@ == own.request_view(idv));
            r
        }
    }
}

/// The acknowledgement of an unsubscription: its result is empty.
#[derive(Debug)]
pub struct UnsubscribeResponse {}

/// A request to stop receiving closed ledgers.
pub struct LedgerClosedUnsubscription {
    pub id: Option<String>,
}

impl LedgerClosedUnsubscription {
    /// An unsubscription with no id of its own.
    pub fn new() -> (r: Self)
        ensures
            r.id is None,
    {
        Self { id: None }
    }

    /// The same unsubscription, sent with `id`.
    pub fn with_id(self, id: String) -> (r: Self)
        ensures
            r.id == Some(id),
    {
        let mut s = self;
        s.id = Some(id);
        s
    }

    /// The id the unsubscription was given, if any.
    pub fn get_id(&self) -> (r: Option<&str>)
        ensures
            id_text(self.id, r),
    {
        match &self.id {
            Some(i) => Some(i.as_str()),
            None => None,
        }
    }
}

impl XrplRequest for LedgerClosedUnsubscription {
    type Response = XrplResponse<UnsubscribeResponse>;

    /// `{"id", "command": "unsubscribe", "streams": ["ledger"]}`, the id
    /// being the unsubscription's own when it has one.
    open spec fn request_view(&self, fresh_id: Seq<char>) -> JsonView {
        JsonView::Object(
            seq![
                ("id"@, JsonView::Str(chosen_id(self.id, fresh_id))),
                ("command"@, JsonView::Str("unsubscribe"@)),
                ("streams"@, JsonView::Array(seq![JsonView::Str("ledger"@)])),
            ],
        )
    }

    open spec fn id_sent(&self, fresh_id: Seq<char>) -> Seq<char> {
        chosen_id(self.id, fresh_id)
    }

    proof fn lemma_request_carries_id(&self, fresh_id: Seq<char>) {
        reveal_strlit("id");
    }

    fn to_json_with_id(self, fresh_id: String) -> (r: JsonValue) {
        let ghost want = self.request_view(fresh_id@);
        let mut m: Vec<(String, JsonValue)> = Vec::new();
        push_member(&mut m, "id", json_string(pick_id(self.id, fresh_id)));
        push_member(&mut m, "command", json_string("unsubscribe".to_string()));
        let mut streams: Vec<String> = Vec::new();
        streams.push("ledger".to_string());
        let ghost sv = streams@;
        push_member(&mut m, "streams", json_string_array(streams));
        assert(strings_view(sv) =~= seq![JsonView::Str("ledger"@)]);
        assert(members_view(m@) =~= want->Object_0);
        JsonValue::Object(m)
    }

    /// The request as sent: a fresh id is drawn only when there is no id of
    /// its own.
    fn into_json(self) -> (r: JsonValue) {
        let ghost own = self;
        if self.id.is_some() {
            let r = self.to_json_with_id(String::new());
            proof {
                lemma_stand_in_uuid();
                assert(r@ == own.request_view(stand_in_uuid()));
            }
            r
        } else {
            let id = new_request_id();
            let ghost idv = id@;
            let r = self.to_json_with_id(id);
            assert(is_uuid_v4_text(idv) && r@ == own.request_view(idv));
            r
        }
    }
}

/// A subscription is sent with its own id, or the fresh one when it has
/// none, the command `subscribe` and its accounts in order.
pub proof fn lemma_subscription_request(req: AccountTransactionsSubscription, id: Seq<char>)
    ensures
        ({
            let v = req.request_view(id);
            &&& v.get("id"@) == Some(JsonView::Str(match req.id { Some(i) => i@, None => id }))
            &&& v.get("command"@) == Some(JsonView::Str("subscribe"@))
            &&& v.get("accounts"@) matches Some(JsonView::Array(xs)) && xs.len() == req.accounts@.len() && forall|i: int| 0 <= i < xs.len() ==> xs[i] == JsonView::Str(req.accounts@[i]@)
        }),
{
    reveal_with_fuel(members_get, 4);
    reveal_strlit("id");
    reveal_strlit("command");
    reveal_strlit("accounts");
    assert("id"@.len() == 2 && "command"@.len() == 7 && "accounts"@.len() == 8);
}

/// An unsubscription is sent with its own id, or the fresh one when it has
/// none, the command `unsubscribe` and its accounts in order.
pub proof fn lemma_unsubscription_request(req: AccountTransactionsUnsubscription, id: Seq<char>)
    ensures
        ({
            let v = req.request_view(id);
            &&& v.get("id"@) == Some(JsonView::Str(match req.id { Some(i) => i@, None => id }))
            &&& v.get("command"@) == Some(JsonView::Str("unsubscribe"@))
            &&& v.get("accounts"@) matches Some(JsonView::Array(xs)) && xs.len() == req.accounts@.len() && forall|i: int| 0 <= i < xs.len() ==> xs[i] == JsonView::Str(req.accounts@[i]@)
        }),
{
    reveal_with_fuel(members_get, 4);
    reveal_strlit("id");
    reveal_strlit("command");
    reveal_strlit("accounts");
    assert("id"@.len() == 2 && "command"@.len() == 7 && "accounts"@.len() == 8);
}

/// An unsubscription from closed ledgers is sent with its own id, or the
/// fresh one when it has none, the command `unsubscribe` and the stream
/// `ledger`.
pub proof fn lemma_ledger_unsubscription_request(req: LedgerClosedUnsubscription, id: Seq<char>)
    ensures
        ({
            let v = req.request_view(id);
            &&& v.get("id"@) == Some(JsonView::Str(match req.id { Some(i) => i@, None => id }))
            &&& v.get("command"@) == Some(JsonView::Str("unsubscribe"@))
            &&& v.get("streams"@) matches Some(JsonView::Array(xs)) && xs == seq![JsonView::Str("ledger"@)]
        }),
{
    reveal_with_fuel(members_get, 4);
    reveal_strlit("id");
    reveal_strlit("command");
    reveal_strlit("streams");
    assert("id"@.len() == 2 && "command"@.len() == 7 && "streams"@.len() == 7);
    assert("streams"@[0] != "command"@[0]);
}

} // verus!
