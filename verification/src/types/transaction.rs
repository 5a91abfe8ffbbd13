//! Transactions: the common fields, the kind-specific fields, and signing.
use vstd::prelude::*;
use crate::types::amount::Amount;

pub use crate::helpers::to_value_skip_nulls;

verus! {

/// A transaction: the fields every transaction has, and those of its kind.
#[derive(Debug, Clone)]
pub struct Transaction {
    pub account: String,
    pub account_txn_id: Option<String>,
    pub fee: Option<String>,
    pub flags: Option<u32>,
    pub last_ledger_sequence: Option<u32>,
    pub memos: Option<Vec<MemoWrapper>>,
    pub sequence: Option<u32>,
    pub signers: Option<Vec<SignerWrapper>>,
    pub source_tag: Option<u32>,
    pub ticket_sequence: Option<u32>,
    pub signing_pub_key: Option<String>,
    pub txn_signature: Option<String>,
    pub hash: Option<String>,
    pub transaction_type: TransactionType,
}

/// The kind of a transaction, with the fields of that kind.
#[derive(Debug, Clone)]
pub enum TransactionType {
    NFTokenAcceptOffer {
        nftoken_sell_offer: Option<String>,
        nftoken_buy_offer: Option<String>,
        nftoken_broker_fee: Option<Amount>,
    },
    NFTokenBurn { nftoken_id: String, owner: String },
    NFTokenCancelOffer { nftoken_offers: Vec<String> },
    NFTokenCreateOffer {
        nftoken_id: String,
        amount: Amount,
        owner: Option<String>,
        expiration: Option<i64>,
        destination: Option<String>,
    },
    NFTokenMint {
        nftoken_taxon: String,
        issuer: String,
        transfer_fee: Option<i64>,
        uri: Option<String>,
    },
    AccountSet {
        clear_flag: Option<i64>,
        domain: Option<String>,
        email_hash: Option<String>,
        message_key: Option<String>,
        set_flag: Option<i64>,
        transfer_rate: Option<i64>,
        tick_size: Option<i64>,
        nftoken_minter: Option<i64>,
    },
    TrustSet { limit_amount: Amount, quality_in: Option<i64>, quality_out: Option<i64> },
    OfferCreate {
        expiration: Option<i64>,
        offer_sequence: Option<i64>,
        taker_gets: Amount,
        taker_pays: Amount,
    },
    Payment {
        amount: Option<Amount>,
        deliver_max: Option<Amount>,
        deliver_min: Option<Amount>,
        destination: String,
        destination_tag: Option<u32>,
        invoice_id: Option<String>,
        paths: Option<Vec<Vec<PathStep>>>,
        send_max: Option<Amount>,
    },
}

/// A step of a payment path.
#[derive(Debug, Clone)]
pub struct PathStep {
    pub account: Option<String>,
    pub currency: Option<String>,
    pub issuer: Option<String>,
}

/// A memo attached to a transaction.
#[derive(Debug, Clone)]
pub struct Memo {
    pub memo_data: Option<String>,
    pub memo_format: Option<String>,
    pub memo_type: Option<String>,
}

/// A memo as it stands in a transaction's list of memos.
#[derive(Debug, Clone)]
pub struct MemoWrapper {
    pub memo: Memo,
}

/// A signature of a multi-signed transaction.
#[derive(Debug, Clone)]
pub struct Signer {
    pub account: String,
    pub txn_signature: String,
    pub signing_pub_key: String,
}

/// A signer as it stands in a transaction's list of signers.
#[derive(Debug, Clone)]
pub struct SignerWrapper {
    pub signer: Signer,
}

/// What signs transactions, implemented by the library's users (a wallet).
pub trait SigningContext {
    type Error;

    fn sign_transaction(&self, tx: &Transaction) -> Result<String, Self::Error>;
}

/// Signing a transaction with a signing context.
pub trait Signable {
    fn sign_with<C: SigningContext>(&self, context: &C) -> Result<String, C::Error>;
}

impl Signable for Transaction {
    /// The signed blob that `context` makes of this transaction.
    fn sign_with<C: SigningContext>(&self, context: &C) -> (r: Result<String, C::Error>)
        ensures
            call_ensures(C::sign_transaction, (context, self), r),
    {
        context.sign_transaction(self)
    }
}

} // verus!
