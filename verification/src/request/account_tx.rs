//! The `account_tx` request: the transactions that affected an account.
use vstd::prelude::*;
use crate::json::{
    json_string, json_u64, lemma_members_get_concat, lemma_members_get_single, members_insert, members_put,
    members_view, opt_bool, opt_bool_view, opt_i64, opt_i64_view, opt_member, opt_str_view, opt_string,
    opt_u32, opt_u32_view, opt_view, push_member, push_opt_member, u64_view, JsonValue, JsonView,
};
use crate::request::{lemma_field_past_version, lemma_versioned_command_members, XrplRequest, XrplResponse};
use crate::types::transaction::Transaction;

verus! {

broadcast use vstd::string::group_string_axioms;

#[derive(Debug, Clone, Default)]
pub struct AccountTxRequest {
    pub account: String,
    pub ledger_index_min: Option<i64>,
    pub ledger_index_max: Option<i64>,
    pub ledger_hash: Option<String>,
    pub ledger_index: Option<i64>,
    pub binary: Option<bool>,
    pub forward: Option<bool>,
    pub limit: Option<u32>,
    pub marker: Option<JsonValue>,
}

impl AccountTxRequest {
    /// The request's own fields as members, in order; those that are `None`
    /// are left out.
    pub open spec fn members_spec(&self) -> Seq<(Seq<char>, JsonView)> {
        seq![("account"@, JsonView::Str(self.account@))] + opt_member(
            "ledger_index_min"@,
            opt_i64_view(self.ledger_index_min),
        ) + opt_member("ledger_index_max"@, opt_i64_view(self.ledger_index_max)) + opt_member(
            "ledger_hash"@,
            opt_str_view(self.ledger_hash),
        ) + opt_member("ledger_index"@, opt_i64_view(self.ledger_index)) + opt_member(
            "binary"@,
            opt_bool_view(self.binary),
        ) + opt_member("forward"@, opt_bool_view(self.forward)) + opt_member("limit"@, opt_u32_view(self.limit))
            + opt_member("marker"@, opt_view(self.marker))
    }
}

impl XrplRequest for AccountTxRequest {
    type Response = XrplResponse<AccountTxResponse>;

    /// The fields, then the id, the command `account_tx` and API version 2.
    open spec fn request_view(&self, fresh_id: Seq<char>) -> JsonView {
        JsonView::Object(
            members_insert(
                members_insert(
                    members_insert(self.members_spec(), "id"@, JsonView::Str(fresh_id)),
                    "command"@,
                    JsonView::Str("account_tx"@),
                ),
                "api_version"@,
                u64_view(2),
            ),
        )
    }

    open spec fn id_sent(&self, fresh_id: Seq<char>) -> Seq<char> {
        fresh_id
    }

    proof fn lemma_request_carries_id(&self, fresh_id: Seq<char>) {
        lemma_versioned_command_members(self.members_spec(), fresh_id, "account_tx"@, u64_view(2));
    }

    fn to_json_with_id(self, fresh_id: String) -> (r: JsonValue) {
        let ghost spec_members = self.members_spec();
        let mut m: Vec<(String, JsonValue)> = Vec::new();
        push_member(&mut m, "account", json_string(self.account));
        push_opt_member(&mut m, "ledger_index_min", opt_i64(self.ledger_index_min));
        push_opt_member(&mut m, "ledger_index_max", opt_i64(self.ledger_index_max));
        push_opt_member(&mut m, "ledger_hash", opt_string(self.ledger_hash));
        push_opt_member(&mut m, "ledger_index", opt_i64(self.ledger_index));
        push_opt_member(&mut m, "binary", opt_bool(self.binary));
        push_opt_member(&mut m, "forward", opt_bool(self.forward));
        push_opt_member(&mut m, "limit", opt_u32(self.limit));
        push_opt_member(&mut m, "marker", self.marker);
        assert(members_view(m@) =~= spec_members);
        members_put(&mut m, "id".to_string(), json_string(fresh_id));
        members_put(&mut m, "command".to_string(), json_string("account_tx".to_string()));
        members_put(&mut m, "api_version".to_string(), json_u64(2));
        JsonValue::Object(m)
    }
}

#[derive(Debug, Clone)]
pub struct AccountTxResponse {
    pub account: String,
    pub ledger_index_min: i64,
    pub ledger_index_max: i64,
    pub marker: Option<JsonValue>,
    pub transactions: Vec<AccountTransaction>,
    pub validated: Option<bool>,
    pub limit: Option<i64>,
}

#[derive(Debug, Clone)]
pub struct AccountTransaction {
    pub meta: JsonValue,
    pub tx_json: Transaction,
    pub validated: bool,
}

/// Every field of an `account_tx` request is sent under its own name, a
/// field left `None` not at all, beside the command `account_tx` and API
/// version 2.
pub proof fn lemma_account_tx_fields(req: AccountTxRequest, id: Seq<char>)
    ensures
        ({
            let v = req.request_view(id);
            &&& v.get("account"@) == Some(JsonView::Str(req.account@))
            &&& v.get("ledger_index_min"@) == opt_i64_view(req.ledger_index_min)
            &&& v.get("ledger_index_max"@) == opt_i64_view(req.ledger_index_max)
            &&& v.get("ledger_hash"@) == opt_str_view(req.ledger_hash)
            &&& v.get("ledger_index"@) == opt_i64_view(req.ledger_index)
            &&& v.get("binary"@) == opt_bool_view(req.binary)
            &&& v.get("forward"@) == opt_bool_view(req.forward)
            &&& v.get("limit"@) == opt_u32_view(req.limit)
            &&& v.get("marker"@) == opt_view(req.marker)
            &&& v.get("command"@) == Some(JsonView::Str("account_tx"@))
            &&& v.get("api_version"@) == Some(u64_view(2))
        }),
{
    broadcast use lemma_members_get_concat, lemma_members_get_single;

    reveal_strlit("account");
    reveal_strlit("ledger_index_min");
    reveal_strlit("ledger_index_max");
    reveal_strlit("ledger_hash");
    reveal_strlit("ledger_index");
    reveal_strlit("binary");
    reveal_strlit("forward");
    reveal_strlit("limit");
    reveal_strlit("marker");
    reveal_strlit("id");
    reveal_strlit("command");
    reveal_strlit("api_version");
    let ms = req.members_spec();
    assert("id"@.len() == 2 && "command"@.len() == 7 && "api_version"@.len() == 11);
    assert("account"@.len() == 7 && "account"@[0] != "command"@[0]);
    assert("ledger_index_min"@.len() == 16 && "ledger_index_max"@.len() == 16 && "ledger_hash"@.len() == 11);
    assert("ledger_index"@.len() == 12 && "binary"@.len() == 6 && "forward"@.len() == 7 && "limit"@.len() == 5);
    assert("marker"@.len() == 6 && "binary"@[0] != "marker"@[0] && "forward"@[0] != "command"@[0]);
    assert("ledger_hash"@[0] != "api_version"@[0]);
    lemma_versioned_command_members(ms, id, "account_tx"@, u64_view(2));
    assert("ledger_index_min"@[14] != "ledger_index_max"@[14]);
    lemma_field_past_version(ms, id, "account_tx"@, u64_view(2), "account"@);
    lemma_field_past_version(ms, id, "account_tx"@, u64_view(2), "ledger_index_min"@);
    lemma_field_past_version(ms, id, "account_tx"@, u64_view(2), "ledger_index_max"@);
    lemma_field_past_version(ms, id, "account_tx"@, u64_view(2), "ledger_hash"@);
    lemma_field_past_version(ms, id, "account_tx"@, u64_view(2), "ledger_index"@);
    lemma_field_past_version(ms, id, "account_tx"@, u64_view(2), "binary"@);
    lemma_field_past_version(ms, id, "account_tx"@, u64_view(2), "forward"@);
    lemma_field_past_version(ms, id, "account_tx"@, u64_view(2), "limit"@);
    lemma_field_past_version(ms, id, "account_tx"@, u64_view(2), "marker"@);
}

} // verus!
