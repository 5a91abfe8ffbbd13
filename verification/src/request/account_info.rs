//! The `account_info` request: an account's settings and balance.
use vstd::prelude::*;
use crate::json::{
    json_string, lemma_members_get_concat, lemma_members_get_single, members_insert, members_put,
    members_view, opt_bool, opt_bool_view, opt_member, opt_str_view, opt_string, push_member, push_opt_member,
    JsonValue, JsonView,
};
use crate::request::{lemma_command_members, lemma_field_past_command, XrplRequest, XrplResponse};

verus! {

broadcast use vstd::string::group_string_axioms;

#[derive(Default)]
pub struct AccountInfoRequest {
    pub account: String,
    pub ledger_hash: Option<String>,
    pub ledger_index: Option<String>,
    pub queue: Option<bool>,
    pub signer_lists: Option<bool>,
    pub strict: Option<bool>,
}

impl AccountInfoRequest {
    /// The request's own fields as members, in order; those that are `None`
    /// are left out.
    pub open spec fn members_spec(&self) -> Seq<(Seq<char>, JsonView)> {
        seq![("account"@, JsonView::Str(self.account@))] + opt_member("ledger_hash"@, opt_str_view(self.ledger_hash))
            + opt_member("ledger_index"@, opt_str_view(self.ledger_index)) + opt_member(
            "queue"@,
            opt_bool_view(self.queue),
        ) + opt_member("signer_lists"@, opt_bool_view(self.signer_lists)) + opt_member(
            "strict"@,
            opt_bool_view(self.strict),
        )
    }
}

impl XrplRequest for AccountInfoRequest {
    type Response = XrplResponse<AccountInfoResult>;

    /// The fields, then the id and the command `account_info`.
    open spec fn request_view(&self, fresh_id: Seq<char>) -> JsonView {
        JsonView::Object(
            members_insert(
                members_insert(self.members_spec(), "id"@, JsonView::Str(fresh_id)),
                "command"@,
                JsonView::Str("account_info"@),
            ),
        )
    }

    open spec fn id_sent(&self, fresh_id: Seq<char>) -> Seq<char> {
        fresh_id
    }

    proof fn lemma_request_carries_id(&self, fresh_id: Seq<char>) {
        lemma_command_members(self.members_spec(), fresh_id, "account_info"@);
    }

    fn to_json_with_id(self, fresh_id: String) -> (r: JsonValue) {
        let ghost spec_members = self.members_spec();
        let mut m: Vec<(String, JsonValue)> = Vec::new();
        push_member(&mut m, "account", json_string(self.account));
        push_opt_member(&mut m, "ledger_hash", opt_string(self.ledger_hash));
        push_opt_member(&mut m, "ledger_index", opt_string(self.ledger_index));
        push_opt_member(&mut m, "queue", opt_bool(self.queue));
        push_opt_member(&mut m, "signer_lists", opt_bool(self.signer_lists));
        push_opt_member(&mut m, "strict", opt_bool(self.strict));
        assert(members_view(m@) =~= spec_members);
        members_put(&mut m, "id".to_string(), json_string(fresh_id));
        members_put(&mut m, "command".to_string(), json_string("account_info".to_string()));
        JsonValue::Object(m)
    }
}

#[derive(Debug, Clone)]
pub struct AccountInfoResult {
    pub account_data: AccountRoot,
    pub signer_lists: Option<Vec<String>>,
    pub ledger_current_index: Option<u32>,
    pub ledger_index: Option<u32>,
    pub queue_data: Option<String>,
    pub validated: Option<bool>,
}

#[derive(Debug, Clone)]
pub struct AccountRoot {
    pub account: String,
    pub balance: String,
    pub flags: u32,
    pub ledger_entry_type: String,
    pub owner_count: u32,
    pub previous_txn_id: String,
    pub previous_txn_lgr_seq: u32,
    pub sequence: u32,
    pub index: String,
}

#[derive(Debug, Clone)]
pub struct QueueData {
    pub txn_count: u32,
    pub auth_change_queued: Option<bool>,
    pub lowest_sequence: Option<u32>,
    pub highest_sequence: Option<u32>,
    pub max_spend_drops_total: Option<String>,
    pub transactions: Option<Vec<QueueTransaction>>,
}

#[derive(Debug, Clone)]
pub struct QueueTransaction {
    pub auth_change: bool,
    pub fee: String,
    pub fee_level: String,
    pub max_spend_drops: String,
    pub seq: u32,
}

/// Every field of an `account_info` request is sent under its own name, a field left
/// `None` not at all, beside the command `account_info`.
pub proof fn lemma_account_info_fields(req: AccountInfoRequest, id: Seq<char>)
    ensures
        ({
            let v = req.request_view(id);
            &&& v.get("account"@) == Some(JsonView::Str(req.account@))
            &&& v.get("ledger_hash"@) == opt_str_view(req.ledger_hash)
            &&& v.get("ledger_index"@) == opt_str_view(req.ledger_index)
            &&& v.get("queue"@) == opt_bool_view(req.queue)
            &&& v.get("signer_lists"@) == opt_bool_view(req.signer_lists)
            &&& v.get("strict"@) == opt_bool_view(req.strict)
            &&& v.get("command"@) == Some(JsonView::Str("account_info"@))
        }),
{
    broadcast use lemma_members_get_concat, lemma_members_get_single;

    reveal_strlit("account");
    reveal_strlit("ledger_hash");
    reveal_strlit("ledger_index");
    reveal_strlit("queue");
    reveal_strlit("signer_lists");
    reveal_strlit("strict");
    reveal_strlit("id");
    reveal_strlit("command");
    reveal_strlit("account_info");
    assert("account"@.len() == 7);
    assert("ledger_hash"@.len() == 11);
    assert("ledger_index"@.len() == 12);
    assert("queue"@.len() == 5);
    assert("signer_lists"@.len() == 12);
    assert("strict"@.len() == 6);
    assert("id"@.len() == 2);
    assert("command"@.len() == 7);
    assert("account"@[0] != "command"@[0]);
    assert("ledger_index"@[0] != "signer_lists"@[0]);
    let ms = req.members_spec();
    lemma_command_members(ms, id, "account_info"@);
    lemma_field_past_command(ms, id, "account_info"@, "account"@);
    lemma_field_past_command(ms, id, "account_info"@, "ledger_hash"@);
    lemma_field_past_command(ms, id, "account_info"@, "ledger_index"@);
    lemma_field_past_command(ms, id, "account_info"@, "queue"@);
    lemma_field_past_command(ms, id, "account_info"@, "signer_lists"@);
    lemma_field_past_command(ms, id, "account_info"@, "strict"@);
}

} // verus!
