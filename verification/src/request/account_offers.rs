//! The `account_offers` request: an account's open offers.
use vstd::prelude::*;
use crate::json::{
    i64_view, json_i64, json_string, lemma_members_get_concat, lemma_members_get_single, members_insert,
    members_put, members_view, opt_i64, opt_i64_view, opt_member, opt_str_view, opt_string, opt_view,
    push_member, push_opt_member, JsonValue, JsonView,
};
use crate::request::{lemma_command_members, lemma_field_past_command, XrplRequest, XrplResponse};
use crate::types::amount::Amount;

verus! {

broadcast use vstd::string::group_string_axioms;

#[derive(Default)]
pub struct AccountOffersRequest {
    pub account: String,
    pub ledger_hash: Option<String>,
    pub ledger_index: i64,
    pub limit: Option<i64>,
    pub marker: Option<JsonValue>,
}

impl AccountOffersRequest {
    /// The request's own fields as members, in order; those that are `None`
    /// are left out.
    pub open spec fn members_spec(&self) -> Seq<(Seq<char>, JsonView)> {
        seq![("account"@, JsonView::Str(self.account@))] + opt_member("ledger_hash"@, opt_str_view(self.ledger_hash))
            + seq![("ledger_index"@, i64_view(self.ledger_index))] + opt_member(
            "limit"@,
            opt_i64_view(self.limit),
        ) + opt_member("marker"@, opt_view(self.marker))
    }
}

impl XrplRequest for AccountOffersRequest {
    type Response = XrplResponse<AccountOffersResponse>;

    /// The fields, then the id and the command `account_offers`.
    open spec fn request_view(&self, fresh_id: Seq<char>) -> JsonView {
        JsonView::Object(
            members_insert(
                members_insert(self.members_spec(), "id"@, JsonView::Str(fresh_id)),
                "command"@,
                JsonView::Str("account_offers"@),
            ),
        )
    }

    open spec fn id_sent(&self, fresh_id: Seq<char>) -> Seq<char> {
        fresh_id
    }

    proof fn lemma_request_carries_id(&self, fresh_id: Seq<char>) {
        lemma_command_members(self.members_spec(), fresh_id, "account_offers"@);
    }

    fn to_json_with_id(self, fresh_id: String) -> (r: JsonValue) {
        let ghost spec_members = self.members_spec();
        let mut m: Vec<(String, JsonValue)> = Vec::new();
        push_member(&mut m, "account", json_string(self.account));
        push_opt_member(&mut m, "ledger_hash", opt_string(self.ledger_hash));
        push_member(&mut m, "ledger_index", json_i64(self.ledger_index));
        push_opt_member(&mut m, "limit", opt_i64(self.limit));
        push_opt_member(&mut m, "marker", self.marker);
        assert(members_view(m@) =~= spec_members);
        members_put(&mut m, "id".to_string(), json_string(fresh_id));
        members_put(&mut m, "command".to_string(), json_string("account_offers".to_string()));
        JsonValue::Object(m)
    }
}

#[derive(Debug)]
pub struct AccountOffersResponse {
    pub account: String,
    pub offers: Vec<AccountOffer>,
    pub ledger_current_index: Option<i64>,
    pub ledger_index: Option<i64>,
    pub ledger_hash: Option<String>,
    pub marker: Option<JsonValue>,
}

#[derive(Debug)]
pub struct AccountOffer {
    pub flags: i64,
    pub seq: i64,
    pub taker_gets: Amount,
    pub taker_pays: Amount,
    pub quality: String,
    pub expiration: Option<i64>,
}

/// Every field of an `account_offers` request is sent under its own name, a field left
/// `None` not at all, beside the command `account_offers`.
pub proof fn lemma_account_offers_fields(req: AccountOffersRequest, id: Seq<char>)
    ensures
        ({
            let v = req.request_view(id);
            &&& v.get("account"@) == Some(JsonView::Str(req.account@))
            &&& v.get("ledger_hash"@) == opt_str_view(req.ledger_hash)
            &&& v.get("ledger_index"@) == Some(i64_view(req.ledger_index))
            &&& v.get("limit"@) == opt_i64_view(req.limit)
            &&& v.get("marker"@) == opt_view(req.marker)
            &&& v.get("command"@) == Some(JsonView::Str("account_offers"@))
        }),
{
    broadcast use lemma_members_get_concat, lemma_members_get_single;

    reveal_strlit("account");
    reveal_strlit("ledger_hash");
    reveal_strlit("ledger_index");
    reveal_strlit("limit");
    reveal_strlit("marker");
    reveal_strlit("id");
    reveal_strlit("command");
    reveal_strlit("account_offers");
    assert("account"@.len() == 7);
    assert("ledger_hash"@.len() == 11);
    assert("ledger_index"@.len() == 12);
    assert("limit"@.len() == 5);
    assert("marker"@.len() == 6);
    assert("id"@.len() == 2);
    assert("command"@.len() == 7);
    assert("account"@[0] != "command"@[0]);
    let ms = req.members_spec();
    lemma_command_members(ms, id, "account_offers"@);
    lemma_field_past_command(ms, id, "account_offers"@, "account"@);
    lemma_field_past_command(ms, id, "account_offers"@, "ledger_hash"@);
    lemma_field_past_command(ms, id, "account_offers"@, "ledger_index"@);
    lemma_field_past_command(ms, id, "account_offers"@, "limit"@);
    lemma_field_past_command(ms, id, "account_offers"@, "marker"@);
}

} // verus!
