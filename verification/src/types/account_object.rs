//! Ledger objects owned by an account, as `account_objects` returns them.
use vstd::prelude::*;
use crate::json::JsonValue;
use crate::types::amount::Amount;

verus! {

/// A ledger object, by its entry type.
#[derive(Debug)]
pub enum AccountObject {
    Check(Check),
    DepositPreauth(DepositPreauth),
    Escrow(Escrow),
    MPToken(MPToken),
    NFTokenOffer(NFTokenOffer),
    NFTokenPage(NFTokenPage),
    Offer(Offer),
    PayChannel(PayChannel),
    RippleState(RippleState),
    SignerList(SignerList),
    Ticket(Ticket),
}

/// Fields that every ledger object has.
#[derive(Debug)]
pub struct Common {
    pub flags: u32,
    pub index: Option<String>,
}

#[derive(Debug)]
pub struct Check {
    pub account: String,
    pub destination: String,
    pub destination_node: String,
    pub detination_tag: String,
    pub expiration: u32,
    pub invoice_id: String,
    pub owner_node: String,
    pub previous_txn_id: String,
    pub previous_txn_lgr_seq: u32,
    pub send_max: JsonValue,
    pub sequence: u32,
    pub source_tag: String,
    pub common: Common,
}

#[derive(Debug)]
pub struct DepositPreauth {
    pub account: String,
    pub authorize: Option<String>,
    pub authorize_credentials: Option<JsonValue>,
    pub owner_node: String,
    pub previous_txn_id: String,
    pub previous_txn_lgr_seq: u32,
    pub common: Common,
}

#[derive(Debug)]
pub struct Escrow {
    pub account: String,
    pub amount: String,
    pub cancel_after: Option<u32>,
    pub condition: Option<String>,
    pub destination: String,
    pub destionation_node: Option<String>,
    pub destination_tag: Option<u32>,
    pub finish_after: Option<u32>,
    pub owner_node: String,
    pub previous_txn_id: String,
    pub previous_txn_lgr_seq: u32,
    pub source_tag: Option<u32>,
    pub transfer_rate: Option<u32>,
    pub common: Common,
}

#[derive(Debug)]
pub struct MPToken {
    pub account: String,
    pub mpt_issuance_id: JsonValue,
    pub mpt_amount: JsonValue,
    pub previous_txn_id: String,
    pub previous_txn_lgr_seq: u32,
    pub owner_node: String,
    pub common: Common,
}

#[derive(Debug)]
pub struct NFTokenOffer {
    pub amount: JsonValue,
    pub destination: Option<String>,
    pub expiration: Option<u32>,
    pub nftoken_id: String,
    pub nftoken_offer_node: String,
    pub owner: String,
    pub owner_node: String,
    pub previous_txn_id: String,
    pub previous_txn_lgr_seq: u32,
    pub common: Common,
}

#[derive(Debug)]
pub struct NFTokenPage {
    pub next_page_min: Option<String>,
    pub nftokens: JsonValue,
    pub previous_page_min: Option<String>,
    pub previous_txn_id: Option<String>,
    pub previous_txn_lgr_seq: Option<u32>,
    pub common: Common,
}

#[derive(Debug)]
pub struct Offer {
    pub account: String,
    pub additional_books: Option<JsonValue>,
    pub book_directory: String,
    pub book_node: String,
    pub domain_id: String,
    pub expiration: Option<u32>,
    pub owner_node: String,
    pub previous_txn_id: String,
    pub previous_txn_lgr_seq: u32,
    pub sequence: u32,
    pub taker_pays: Amount,
    pub taker_gets: Amount,
    pub common: Common,
}

#[derive(Debug)]
pub struct PayChannel {
    pub account: String,
    pub amount: Amount,
    pub balance: Amount,
    pub cancel_after: Option<u32>,
    pub destination: String,
    pub destination_tag: Option<u32>,
    pub destination_node: Option<u64>,
    pub expiration: Option<u32>,
    pub owner_node: String,
    pub previous_txn_id: String,
    pub previous_txn_lgr_seq: u32,
    pub public_key: String,
    pub settle_delay: u32,
    pub source_tag: Option<u32>,
    pub transfer_rate: Option<u32>,
    pub common: Common,
}

#[derive(Debug)]
pub struct RippleState {
    pub balance: Amount,
    pub high_limit: Amount,
    pub high_node: String,
    pub high_quality_in: Option<u32>,
    pub high_quality_out: Option<u32>,
    pub lock_count: Option<Amount>,
    pub locked_balance: Option<Amount>,
    pub low_limit: Amount,
    pub low_node: String,
    pub low_quality_in: Option<u32>,
    pub low_quality_out: Option<u32>,
    pub previous_txn_id: String,
    pub previous_txn_lgr_seq: u32,
    pub common: Common,
}

#[derive(Debug)]
pub struct SignerList {
    pub owner_node: String,
    pub previous_txn_id: String,
    pub previous_txn_lgr_seq: u32,
    pub signer_entries: Vec<SignerEntry>,
    pub signer_list_id: u32,
    pub signer_quorum: u32,
    pub common: Common,
}

#[derive(Debug)]
pub struct SignerEntry {
    pub account: String,
    pub signer_weight: u16,
    pub wallet_locator: Option<String>,
}

#[derive(Debug)]
pub struct Ticket {
    pub account: String,
    pub owner_node: String,
    pub previous_txn_id: String,
    pub previous_txn_lgr_seq: u32,
    pub ticket_sequence: u32,
    pub common: Common,
}

} // verus!
