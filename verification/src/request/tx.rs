//! The `tx` request: one transaction, by hash or compact id.
use vstd::prelude::*;
use crate::json::{
    json_string, json_u64, lemma_members_get_concat, lemma_members_get_single, members_insert, members_put,
    members_view, opt_bool, opt_bool_view, opt_member, opt_str_view, opt_string, opt_u32, opt_u32_view,
    push_opt_member, u64_view, JsonValue, JsonView,
};
use crate::request::{lemma_field_past_version, lemma_versioned_command_members, XrplRequest, XrplResponse};
use crate::types::transaction::Transaction;

verus! {

broadcast use vstd::string::group_string_axioms;

/// The API version that `tx` requests ask for.
pub const API_VERSION: u32 = 2;

#[derive(Debug, Clone, Default)]
pub struct TxRequest {
    pub ctid: Option<String>,
    pub transaction: Option<String>,
    pub binary: Option<bool>,
    pub min_ledger: Option<u32>,
    pub max_ledger: Option<u32>,
}

impl TxRequest {
    /// The request's own fields as members, in order; those that are `None`
    /// are left out.
    pub open spec fn members_spec(&self) -> Seq<(Seq<char>, JsonView)> {
        opt_member("ctid"@, opt_str_view(self.ctid)) + opt_member("transaction"@, opt_str_view(self.transaction))
            + opt_member("binary"@, opt_bool_view(self.binary)) + opt_member(
            "min_ledger"@,
            opt_u32_view(self.min_ledger),
        ) + opt_member("max_ledger"@, opt_u32_view(self.max_ledger))
    }
}

impl XrplRequest for TxRequest {
    type Response = XrplResponse<TxResponse>;

    /// The fields, then the id, the command `tx` and the API version.
    open spec fn request_view(&self, fresh_id: Seq<char>) -> JsonView {
        JsonView::Object(
            members_insert(
                members_insert(
                    members_insert(self.members_spec(), "id"@, JsonView::Str(fresh_id)),
                    "command"@,
                    JsonView::Str("tx"@),
                ),
                "api_version"@,
                u64_view(API_VERSION as u64),
            ),
        )
    }

    open spec fn id_sent(&self, fresh_id: Seq<char>) -> Seq<char> {
        fresh_id
    }

    proof fn lemma_request_carries_id(&self, fresh_id: Seq<char>) {
        lemma_versioned_command_members(self.members_spec(), fresh_id, "tx"@, u64_view(API_VERSION as u64));
    }

    fn to_json_with_id(self, fresh_id: String) -> (r: JsonValue) {
        let ghost spec_members = self.members_spec();
        let mut m: Vec<(String, JsonValue)> = Vec::new();
        push_opt_member(&mut m, "ctid", opt_string(self.ctid));
        push_opt_member(&mut m, "transaction", opt_string(self.transaction));
        push_opt_member(&mut m, "binary", opt_bool(self.binary));
        push_opt_member(&mut m, "min_ledger", opt_u32(self.min_ledger));
        push_opt_member(&mut m, "max_ledger", opt_u32(self.max_ledger));
        assert(members_view(m@) =~= spec_members);
        members_put(&mut m, "id".to_string(), json_string(fresh_id));
        members_put(&mut m, "command".to_string(), json_string("tx".to_string()));
        members_put(&mut m, "api_version".to_string(), json_u64(API_VERSION as u64));
        JsonValue::Object(m)
    }
}

#[derive(Debug, Clone)]
pub struct TxResponse {
    pub close_time_iso: String,
    pub ctid: String,
    pub hash: String,
    pub ledger_hash: String,
    pub ledger_index: u32,
    pub meta: JsonValue,
    pub tx_json: Transaction,
    pub validated: bool,
}

/// Every field of a `tx` request is sent under its own name, a field left
/// `None` not at all, beside the command `tx` and its API version.
pub proof fn lemma_tx_fields(req: TxRequest, id: Seq<char>)
    ensures
        ({
            let v = req.request_view(id);
            &&& v.get("ctid"@) == opt_str_view(req.ctid)
            &&& v.get("transaction"@) == opt_str_view(req.transaction)
            &&& v.get("binary"@) == opt_bool_view(req.binary)
            &&& v.get("min_ledger"@) == opt_u32_view(req.min_ledger)
            &&& v.get("max_ledger"@) == opt_u32_view(req.max_ledger)
            &&& v.get("command"@) == Some(JsonView::Str("tx"@))
            &&& v.get("api_version"@) == Some(u64_view(API_VERSION as u64))
        }),
{
    broadcast use lemma_members_get_concat, lemma_members_get_single;

    reveal_strlit("ctid");
    reveal_strlit("transaction");
    reveal_strlit("binary");
    reveal_strlit("min_ledger");
    reveal_strlit("max_ledger");
    reveal_strlit("id");
    reveal_strlit("command");
    reveal_strlit("api_version");
    reveal_strlit("tx");
    assert("ctid"@.len() == 4);
    assert("transaction"@.len() == 11);
    assert("binary"@.len() == 6);
    assert("min_ledger"@.len() == 10);
    assert("max_ledger"@.len() == 10);
    assert("id"@.len() == 2);
    assert("command"@.len() == 7);
    assert("api_version"@.len() == 11);
    assert("transaction"@[0] != "api_version"@[0]);
    assert("min_ledger"@[1] != "max_ledger"@[1]);
    let ms = req.members_spec();
    lemma_versioned_command_members(ms, id, "tx"@, u64_view(API_VERSION as u64));
    lemma_field_past_version(ms, id, "tx"@, u64_view(API_VERSION as u64), "ctid"@);
    lemma_field_past_version(ms, id, "tx"@, u64_view(API_VERSION as u64), "transaction"@);
    lemma_field_past_version(ms, id, "tx"@, u64_view(API_VERSION as u64), "binary"@);
    lemma_field_past_version(ms, id, "tx"@, u64_view(API_VERSION as u64), "min_ledger"@);
    lemma_field_past_version(ms, id, "tx"@, u64_view(API_VERSION as u64), "max_ledger"@);
}

} // verus!
