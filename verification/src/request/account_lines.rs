//! The `account_lines` request: an account's trust lines.
use vstd::prelude::*;
use crate::json::{
    json_string, json_u64, lemma_members_get_concat, lemma_members_get_single, members_insert, members_put,
    members_view, opt_bool, opt_bool_view, opt_i64, opt_i64_view, opt_member, opt_str_view, opt_string,
    opt_view, push_member, push_opt_member, u64_view, JsonValue, JsonView,
};
use crate::request::{lemma_field_past_version, lemma_versioned_command_members, XrplRequest, XrplResponse};

verus! {

broadcast use vstd::string::group_string_axioms;

#[derive(Default)]
pub struct AccountLinesRequest {
    pub account: String,
    pub ingnore_default: Option<bool>,
    pub ledger_hash: Option<String>,
    pub ledger_index: Option<String>,
    pub limit: Option<i64>,
    pub marker: Option<JsonValue>,
    pub peer: Option<String>,
}

impl AccountLinesRequest {
    /// The request's own fields as members, in order; those that are `None`
    /// are left out.
    pub open spec fn members_spec(&self) -> Seq<(Seq<char>, JsonView)> {
        seq![("account"@, JsonView::Str(self.account@))] + opt_member(
            "ingnore_default"@,
            opt_bool_view(self.ingnore_default),
        ) + opt_member("ledger_hash"@, opt_str_view(self.ledger_hash)) + opt_member(
            "ledger_index"@,
            opt_str_view(self.ledger_index),
        ) + opt_member("limit"@, opt_i64_view(self.limit)) + opt_member("marker"@, opt_view(self.marker))
            + opt_member("peer"@, opt_str_view(self.peer))
    }
}

impl XrplRequest for AccountLinesRequest {
    type Response = XrplResponse<AccountLinesResult>;

    /// The fields, then the id, the command `account_lines` and API version 2.
    open spec fn request_view(&self, fresh_id: Seq<char>) -> JsonView {
        JsonView::Object(
            members_insert(
                members_insert(
                    members_insert(self.members_spec(), "id"@, JsonView::Str(fresh_id)),
                    "command"@,
                    JsonView::Str("account_lines"@),
                ),
                "api_version"@,
                u64_view(2),
            ),
        )
    }

    open spec fn id_sent(&self, fresh_id: Seq<char>) -> Seq<char> {
        fresh_id
    }

    proof fn lemma_request_carries_id(&self, fresh_id: Seq<char>) {
        lemma_versioned_command_members(self.members_spec(), fresh_id, "account_lines"@, u64_view(2));
    }

    fn to_json_with_id(self, fresh_id: String) -> (r: JsonValue) {
        let ghost spec_members = self.members_spec();
        let mut m: Vec<(String, JsonValue)> = Vec::new();
        push_member(&mut m, "account", json_string(self.account));
        push_opt_member(&mut m, "ingnore_default", opt_bool(self.ingnore_default));
        push_opt_member(&mut m, "ledger_hash", opt_string(self.ledger_hash));
        push_opt_member(&mut m, "ledger_index", opt_string(self.ledger_index));
        push_opt_member(&mut m, "limit", opt_i64(self.limit));
        push_opt_member(&mut m, "marker", self.marker);
        push_opt_member(&mut m, "peer", opt_string(self.peer));
        assert(members_view(m@) =~= spec_members);
        members_put(&mut m, "id".to_string(), json_string(fresh_id));
        members_put(&mut m, "command".to_string(), json_string("account_lines".to_string()));
        members_put(&mut m, "api_version".to_string(), json_u64(2));
        JsonValue::Object(m)
    }
}

#[derive(Debug)]
pub struct AccountLinesResult {
    pub account: String,
    pub lines: Vec<Trustline>,
    pub ledger_current_index: Option<i64>,
    pub ledger_index: Option<i64>,
    pub ledger_hash: Option<String>,
    pub marker: Option<JsonValue>,
    pub limit: Option<i64>,
}

#[derive(Debug)]
pub struct Trustline {
    pub account: String,
    pub balance: String,
    pub currency: String,
    pub limit: String,
    pub limit_peer: String,
    pub quality_in: i64,
    pub quality_out: i64,
    pub no_ripple: Option<bool>,
    pub no_ripple_peer: Option<bool>,
    pub authorized: Option<bool>,
    pub peer_authorized: Option<bool>,
    pub freeze: Option<bool>,
    pub freeze_peer: Option<bool>,
}

/// Every field of an `account_lines` request is sent under its own name, a field left
/// `None` not at all, beside the command `account_lines` and its API version.
pub proof fn lemma_account_lines_fields(req: AccountLinesRequest, id: Seq<char>)
    ensures
        ({
            let v = req.request_view(id);
            &&& v.get("account"@) == Some(JsonView::Str(req.account@))
            &&& v.get("ingnore_default"@) == opt_bool_view(req.ingnore_default)
            &&& v.get("ledger_hash"@) == opt_str_view(req.ledger_hash)
            &&& v.get("ledger_index"@) == opt_str_view(req.ledger_index)
            &&& v.get("limit"@) == opt_i64_view(req.limit)
            &&& v.get("marker"@) == opt_view(req.marker)
            &&& v.get("peer"@) == opt_str_view(req.peer)
            &&& v.get("command"@) == Some(JsonView::Str("account_lines"@))
            &&& v.get("api_version"@) == Some(u64_view(2))
        }),
{
    broadcast use lemma_members_get_concat, lemma_members_get_single;

    reveal_strlit("account");
    reveal_strlit("ingnore_default");
    reveal_strlit("ledger_hash");
    reveal_strlit("ledger_index");
    reveal_strlit("limit");
    reveal_strlit("marker");
    reveal_strlit("peer");
    reveal_strlit("id");
    reveal_strlit("command");
    reveal_strlit("api_version");
    reveal_strlit("account_lines");
    assert("account"@.len() == 7);
    assert("ingnore_default"@.len() == 15);
    assert("ledger_hash"@.len() == 11);
    assert("ledger_index"@.len() == 12);
    assert("limit"@.len() == 5);
    assert("marker"@.len() == 6);
    assert("peer"@.len() == 4);
    assert("id"@.len() == 2);
    assert("command"@.len() == 7);
    assert("api_version"@.len() == 11);
    assert("account"@[0] != "command"@[0]);
    assert("ledger_hash"@[0] != "api_version"@[0]);
    let ms = req.members_spec();
    lemma_versioned_command_members(ms, id, "account_lines"@, u64_view(2));
    lemma_field_past_version(ms, id, "account_lines"@, u64_view(2), "account"@);
    lemma_field_past_version(ms, id, "account_lines"@, u64_view(2), "ingnore_default"@);
    lemma_field_past_version(ms, id, "account_lines"@, u64_view(2), "ledger_hash"@);
    lemma_field_past_version(ms, id, "account_lines"@, u64_view(2), "ledger_index"@);
    lemma_field_past_version(ms, id, "account_lines"@, u64_view(2), "limit"@);
    lemma_field_past_version(ms, id, "account_lines"@, u64_view(2), "marker"@);
    lemma_field_past_version(ms, id, "account_lines"@, u64_view(2), "peer"@);
}

} // verus!
