//! The `account_objects` request: the ledger objects an account owns.
use vstd::prelude::*;
use crate::json::{
    json_string, lemma_members_get_concat, lemma_members_get_single, members_insert, members_put,
    members_view, opt_bool, opt_bool_view, opt_i64, opt_i64_view, opt_member, opt_str_view, opt_string,
    opt_u32, opt_u32_view, opt_view, push_member, push_opt_member, JsonValue, JsonView,
};
use crate::request::{lemma_command_members, lemma_field_past_command, XrplRequest, XrplResponse};
use crate::types::account_object::AccountObject;
use crate::types::amount::{amount_json_view, Amount};

verus! {

broadcast use vstd::string::group_string_axioms;

#[derive(Default)]
pub struct AccountObjectsRequest {
    pub account: String,
    pub amount: Option<Amount>,
    pub deletion_blockers_only: Option<bool>,
    pub ledger_hash: Option<String>,
    pub ledger_index: Option<String>,
    pub limit: Option<u32>,
    pub marker: Option<JsonValue>,
    pub transfer_rate: Option<i64>,
    pub kind: Option<AccountObjectRequestType>,
}

/// The type of ledger object to list.
pub enum AccountObjectRequestType {
    Bridge,
    Check,
    DepositPreauth,
    Escrow,
    MPToken,
    NFTokenOffer,
    NFTokenPage,
    Offer,
    PayChannel,
    RippleState,
    SignerList,
    Ticket,
}

impl AccountObjectRequestType {
    /// The type's name, as it is written in a request.
    pub open spec fn name_spec(&self) -> Seq<char> {
        match self {
            AccountObjectRequestType::Bridge => "Bridge"@,
            AccountObjectRequestType::Check => "Check"@,
            AccountObjectRequestType::DepositPreauth => "DepositPreauth"@,
            AccountObjectRequestType::Escrow => "Escrow"@,
            AccountObjectRequestType::MPToken => "MPToken"@,
            AccountObjectRequestType::NFTokenOffer => "NFTokenOffer"@,
            AccountObjectRequestType::NFTokenPage => "NFTokenPage"@,
            AccountObjectRequestType::Offer => "Offer"@,
            AccountObjectRequestType::PayChannel => "PayChannel"@,
            AccountObjectRequestType::RippleState => "RippleState"@,
            AccountObjectRequestType::SignerList => "SignerList"@,
            AccountObjectRequestType::Ticket => "Ticket"@,
        }
    }

    /// The type's name, as it is written in a request.
    pub fn name(&self) -> (r: String)
        ensures
            r@ == self.name_spec(),
    {
        match self {
            AccountObjectRequestType::Bridge => "Bridge".to_string(),
            AccountObjectRequestType::Check => "Check".to_string(),
            AccountObjectRequestType::DepositPreauth => "DepositPreauth".to_string(),
            AccountObjectRequestType::Escrow => "Escrow".to_string(),
            AccountObjectRequestType::MPToken => "MPToken".to_string(),
            AccountObjectRequestType::NFTokenOffer => "NFTokenOffer".to_string(),
            AccountObjectRequestType::NFTokenPage => "NFTokenPage".to_string(),
            AccountObjectRequestType::Offer => "Offer".to_string(),
            AccountObjectRequestType::PayChannel => "PayChannel".to_string(),
            AccountObjectRequestType::RippleState => "RippleState".to_string(),
            AccountObjectRequestType::SignerList => "SignerList".to_string(),
            AccountObjectRequestType::Ticket => "Ticket".to_string(),
        }
    }
}

impl AccountObjectsRequest {
    /// The request's own fields as members, in order; those that are `None`
    /// are left out, and the kind is written under `type`.
    pub open spec fn members_spec(&self) -> Seq<(Seq<char>, JsonView)> {
        seq![("account"@, JsonView::Str(self.account@))] + opt_member(
            "amount"@,
            match self.amount {
                Some(a) => Some(amount_json_view(a@)),
                None => None,
            },
        ) + opt_member("deletion_blockers_only"@, opt_bool_view(self.deletion_blockers_only)) + opt_member(
            "ledger_hash"@,
            opt_str_view(self.ledger_hash),
        ) + opt_member("ledger_index"@, opt_str_view(self.ledger_index)) + opt_member(
            "limit"@,
            opt_u32_view(self.limit),
        ) + opt_member("marker"@, opt_view(self.marker)) + opt_member(
            "transfer_rate"@,
            opt_i64_view(self.transfer_rate),
        ) + opt_member(
            "type"@,
            match self.kind {
                Some(k) => Some(JsonView::Str(k.name_spec())),
                None => None,
            },
        )
    }
}

impl XrplRequest for AccountObjectsRequest {
    type Response = XrplResponse<AccountObjectsResult>;

    /// The fields, then the id and the command `account_objects`.
    open spec fn request_view(&self, fresh_id: Seq<char>) -> JsonView {
        JsonView::Object(
            members_insert(
                members_insert(self.members_spec(), "id"@, JsonView::Str(fresh_id)),
                "command"@,
                JsonView::Str("account_objects"@),
            ),
        )
    }

    open spec fn id_sent(&self, fresh_id: Seq<char>) -> Seq<char> {
        fresh_id
    }

    proof fn lemma_request_carries_id(&self, fresh_id: Seq<char>) {
        lemma_command_members(self.members_spec(), fresh_id, "account_objects"@);
    }

    fn to_json_with_id(self, fresh_id: String) -> (r: JsonValue) {
        let ghost spec_members = self.members_spec();
        let mut m: Vec<(String, JsonValue)> = Vec::new();
        push_member(&mut m, "account", json_string(self.account));
        let amount = match self.amount {
            Some(a) => Some(a.to_json()),
            None => None,
        };
        push_opt_member(&mut m, "amount", amount);
        push_opt_member(&mut m, "deletion_blockers_only", opt_bool(self.deletion_blockers_only));
        push_opt_member(&mut m, "ledger_hash", opt_string(self.ledger_hash));
        push_opt_member(&mut m, "ledger_index", opt_string(self.ledger_index));
        push_opt_member(&mut m, "limit", opt_u32(self.limit));
        push_opt_member(&mut m, "marker", self.marker);
        push_opt_member(&mut m, "transfer_rate", opt_i64(self.transfer_rate));
        let kind = match &self.kind {
            Some(k) => Some(json_string(k.name())),
            None => None,
        };
        push_opt_member(&mut m, "type", kind);
        assert(members_view(m@) =~= spec_members);
        members_put(&mut m, "id".to_string(), json_string(fresh_id));
        members_put(&mut m, "command".to_string(), json_string("account_objects".to_string()));
        JsonValue::Object(m)
    }
}

#[derive(Debug)]
pub struct AccountObjectsResult {
    pub account: String,
    pub account_objects: Vec<AccountObject>,
    pub ledger_hash: Option<String>,
    pub ledger_index: Option<i64>,
    pub ledger_current_index: Option<i64>,
    pub limit: Option<u32>,
    pub marker: Option<JsonValue>,
    pub validated: bool,
}

/// Every field of an `account_objects` request (the kind under `type`) is sent under its own name, a field left
/// `None` not at all, beside the command `account_objects`.
pub proof fn lemma_account_objects_fields(req: AccountObjectsRequest, id: Seq<char>)
    ensures
        ({
            let v = req.request_view(id);
            &&& v.get("account"@) == Some(JsonView::Str(req.account@))
            &&& v.get("amount"@) == (match req.amount { Some(a) => Some(amount_json_view(a@)), None => None })
            &&& v.get("deletion_blockers_only"@) == opt_bool_view(req.deletion_blockers_only)
            &&& v.get("ledger_hash"@) == opt_str_view(req.ledger_hash)
            &&& v.get("ledger_index"@) == opt_str_view(req.ledger_index)
            &&& v.get("limit"@) == opt_u32_view(req.limit)
            &&& v.get("marker"@) == opt_view(req.marker)
            &&& v.get("transfer_rate"@) == opt_i64_view(req.transfer_rate)
            &&& v.get("type"@) == (match req.kind { Some(k) => Some(JsonView::Str(k.name_spec())), None => None })
            &&& v.get("command"@) == Some(JsonView::Str("account_objects"@))
        }),
{
    broadcast use lemma_members_get_concat, lemma_members_get_single;

    reveal_strlit("account");
    reveal_strlit("amount");
    reveal_strlit("deletion_blockers_only");
    reveal_strlit("ledger_hash");
    reveal_strlit("ledger_index");
    reveal_strlit("limit");
    reveal_strlit("marker");
    reveal_strlit("transfer_rate");
    reveal_strlit("type");
    reveal_strlit("id");
    reveal_strlit("command");
    reveal_strlit("account_objects");
    assert("account"@.len() == 7);
    assert("amount"@.len() == 6);
    assert("deletion_blockers_only"@.len() == 22);
    assert("ledger_hash"@.len() == 11);
    assert("ledger_index"@.len() == 12);
    assert("limit"@.len() == 5);
    assert("marker"@.len() == 6);
    assert("transfer_rate"@.len() == 13);
    assert("type"@.len() == 4);
    assert("id"@.len() == 2);
    assert("command"@.len() == 7);
    assert("account"@[0] != "command"@[0]);
    assert("amount"@[0] != "marker"@[0]);
    let ms = req.members_spec();
    lemma_command_members(ms, id, "account_objects"@);
    lemma_field_past_command(ms, id, "account_objects"@, "account"@);
    lemma_field_past_command(ms, id, "account_objects"@, "amount"@);
    lemma_field_past_command(ms, id, "account_objects"@, "deletion_blockers_only"@);
    lemma_field_past_command(ms, id, "account_objects"@, "ledger_hash"@);
    lemma_field_past_command(ms, id, "account_objects"@, "ledger_index"@);
    lemma_field_past_command(ms, id, "account_objects"@, "limit"@);
    lemma_field_past_command(ms, id, "account_objects"@, "marker"@);
    lemma_field_past_command(ms, id, "account_objects"@, "transfer_rate"@);
    lemma_field_past_command(ms, id, "account_objects"@, "type"@);
}

} // verus!
