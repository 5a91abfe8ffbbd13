//! Building transactions: the common fields, checked before a transaction is
//! made.
use vstd::prelude::*;
use crate::types::transaction::{Memo, MemoWrapper, Signer, SignerWrapper, Transaction, TransactionType};

verus! {

/// Why a transaction could not be built.
#[derive(Debug)]
pub enum BuildError {
    EmptyAccount,
    InvalidAmount(String),
    EmptyDestination,
    MissingSequence,
    MissingFee,
    InvalidField(String),
}

pub enum BuildErrorView {
    EmptyAccount,
    InvalidAmount(Seq<char>),
    EmptyDestination,
    MissingSequence,
    MissingFee,
    InvalidField(Seq<char>),
}

impl View for BuildError {
    type V = BuildErrorView;

    open spec fn view(&self) -> BuildErrorView {
        match self {
            BuildError::EmptyAccount => BuildErrorView::EmptyAccount,
            BuildError::InvalidAmount(s) => BuildErrorView::InvalidAmount(s@),
            BuildError::EmptyDestination => BuildErrorView::EmptyDestination,
            BuildError::MissingSequence => BuildErrorView::MissingSequence,
            BuildError::MissingFee => BuildErrorView::MissingFee,
            BuildError::InvalidField(s) => BuildErrorView::InvalidField(s@),
        }
    }
}

impl BuildError {
    /// The error's message.
    pub open spec fn message_spec(&self) -> Seq<char> {
        match self {
            BuildError::EmptyAccount => "Account cannot be empty"@,
            BuildError::InvalidAmount(s) => "Invalid amount: "@ + s@,
            BuildError::EmptyDestination => "Destination cannot be empty"@,
            BuildError::MissingSequence => "Sequence number is required"@,
            BuildError::MissingFee => "Fee is required"@,
            BuildError::InvalidField(s) => "Invalid field: "@ + s@,
        }
    }

    /// The error's message, as it is displayed.
    pub fn message(&self) -> (r: String)
        ensures
            r@ == self.message_spec(),
    {
        match self {
            BuildError::EmptyAccount => "Account cannot be empty".to_string(),
            BuildError::InvalidAmount(s) => "Invalid amount: ".to_string().concat(s.as_str()),
            BuildError::EmptyDestination => "Destination cannot be empty".to_string(),
            BuildError::MissingSequence => "Sequence number is required".to_string(),
            BuildError::MissingFee => "Fee is required".to_string(),
            BuildError::InvalidField(s) => "Invalid field: ".to_string().concat(s.as_str()),
        }
    }
}

/// The part of a builder that knows one kind of transaction.
pub trait TransactionTypeBuilder: Sized {
    type TransactionType;

    /// The first problem with the kind-specific fields, if any.
    spec fn spec_problem(&self) -> Option<BuildErrorView>;

    /// Why building the kind-specific part fails, if it does.
    spec fn spec_build_failure(&self) -> Option<BuildErrorView>;

    /// Whether `t` is what these fields build.
    spec fn spec_builds(self, t: Self::TransactionType) -> bool;

    fn build_transaction_type(self) -> (r: Result<Self::TransactionType, BuildError>)
        ensures
            match self.spec_build_failure() {
                None => r is Ok && self.spec_builds(r->Ok_0),
                Some(e) => r is Err && r->Err_0@ == e,
            },
    ;

    fn validate_specific_fields(&self) -> (r: Result<(), BuildError>)
        ensures
            match self.spec_problem() {
                None => r is Ok,
                Some(e) => r is Err && r->Err_0@ == e,
            },
    ;
}

/// A transaction under construction: the common fields, and a builder of
/// the kind-specific ones.
pub struct TransactionBuilder<T> {
    account: String,
    account_txn_id: Option<String>,
    fee: Option<String>,
    flags: Option<u32>,
    last_ledger_sequence: Option<u32>,
    memos: Option<Vec<MemoWrapper>>,
    sequence: Option<u32>,
    signers: Option<Vec<SignerWrapper>>,
    source_tag: Option<u32>,
    ticket_sequence: Option<u32>,
    pub(crate) transaction_type: T,
}

/// The fields of a [`TransactionBuilder`].
pub struct BuilderFields<T> {
    pub account: String,
    pub account_txn_id: Option<String>,
    pub fee: Option<String>,
    pub flags: Option<u32>,
    pub last_ledger_sequence: Option<u32>,
    pub memos: Option<Seq<MemoWrapper>>,
    pub sequence: Option<u32>,
    pub signers: Option<Seq<SignerWrapper>>,
    pub source_tag: Option<u32>,
    pub ticket_sequence: Option<u32>,
    pub transaction_type: T,
}

impl<T> View for TransactionBuilder<T> {
    type V = BuilderFields<T>;

    closed spec fn view(&self) -> BuilderFields<T> {
        BuilderFields {
            account: self.account,
            account_txn_id: self.account_txn_id,
            fee: self.fee,
            flags: self.flags,
            last_ledger_sequence: self.last_ledger_sequence,
            memos: match self.memos {
                Some(m) => Some(m@),
                None => None,
            },
            sequence: self.sequence,
            signers: match self.signers {
                Some(s) => Some(s@),
                None => None,
            },
            source_tag: self.source_tag,
            ticket_sequence: self.ticket_sequence,
            transaction_type: self.transaction_type,
        }
    }
}

/// The two builders agree on every common field.
pub open spec fn same_common<A, B>(x: BuilderFields<A>, y: BuilderFields<B>) -> bool {
    &&& x.account == y.account
    &&& x.account_txn_id == y.account_txn_id
    &&& x.fee == y.fee
    &&& x.flags == y.flags
    &&& x.last_ledger_sequence == y.last_ledger_sequence
    &&& x.memos == y.memos
    &&& x.sequence == y.sequence
    &&& x.signers == y.signers
    &&& x.source_tag == y.source_tag
    &&& x.ticket_sequence == y.ticket_sequence
}

impl<T> TransactionBuilder<T> {
    /// The kind-specific part, and the builder of the common fields.
    pub(crate) fn split(self) -> (r: (T, TransactionBuilder<()>))
        ensures
            r.0 == self@.transaction_type,
            same_common(r.1@, self@),
    {
        let TransactionBuilder {
            account,
            account_txn_id,
            fee,
            flags,
            last_ledger_sequence,
            memos,
            sequence,
            signers,
            source_tag,
            ticket_sequence,
            transaction_type,
        } = self;
        (
            transaction_type,
            TransactionBuilder {
                account,
                account_txn_id,
                fee,
                flags,
                last_ledger_sequence,
                memos,
                sequence,
                signers,
                source_tag,
                ticket_sequence,
                transaction_type: (),
            },
        )
    }
}

impl TransactionBuilder<()> {
    /// The common fields joined with a kind-specific part.
    pub(crate) fn join<T>(self, transaction_type: T) -> (r: TransactionBuilder<T>)
        ensures
            r@.transaction_type == transaction_type,
            same_common(r@, self@),
    {
        let TransactionBuilder {
            account,
            account_txn_id,
            fee,
            flags,
            last_ledger_sequence,
            memos,
            sequence,
            signers,
            source_tag,
            ticket_sequence,
            transaction_type: _,
        } = self;
        TransactionBuilder {
            account,
            account_txn_id,
            fee,
            flags,
            last_ledger_sequence,
            memos,
            sequence,
            signers,
            source_tag,
            ticket_sequence,
            transaction_type,
        }
    }
}

/// The outcome of building: the account is checked first, then the
/// kind-specific fields, then the kind-specific part is built.
pub open spec fn build_failure<T: TransactionTypeBuilder>(f: BuilderFields<T>) -> Option<BuildErrorView> {
    if f.account@.len() == 0 {
        Some(BuildErrorView::EmptyAccount)
    } else if f.transaction_type.spec_problem() is Some {
        f.transaction_type.spec_problem()
    } else {
        f.transaction_type.spec_build_failure()
    }
}

/// Whether a transaction builds depends only on its account and its
/// kind-specific fields: the optional common fields never make it fail.
pub proof fn lemma_optional_fields_do_not_affect_outcome<T: TransactionTypeBuilder>(
    f: BuilderFields<T>,
    g: BuilderFields<T>,
)
    requires
        f.account@ == g.account@,
        f.transaction_type == g.transaction_type,
    ensures
        build_failure(f) == build_failure(g),
{
}

/// `tx` carries the builder's common fields, no signature and no hash.
pub open spec fn carries_fields<T>(tx: Transaction, f: BuilderFields<T>) -> bool {
    &&& tx.account == f.account
    &&& tx.account_txn_id == f.account_txn_id
    &&& tx.fee == f.fee
    &&& tx.flags == f.flags
    &&& tx.last_ledger_sequence == f.last_ledger_sequence
    &&& match tx.memos {
        Some(m) => f.memos == Some(m@),
        None => f.memos is None,
    }
    &&& tx.sequence == f.sequence
    &&& match tx.signers {
        Some(s) => f.signers == Some(s@),
        None => f.signers is None,
    }
    &&& tx.source_tag == f.source_tag
    &&& tx.ticket_sequence == f.ticket_sequence
    &&& tx.signing_pub_key is None
    &&& tx.txn_signature is None
    &&& tx.hash is None
}

/// A transaction carries a builder's common fields exactly when each of them
/// is equal, the memos and the signers being the same lists in the same
/// order, and it has no signature and no hash.
pub proof fn lemma_carries_fields_exactly<T>(tx: Transaction, f: BuilderFields<T>)
    ensures
        carries_fields(tx, f) <==> {
            &&& tx.account == f.account
            &&& tx.account_txn_id == f.account_txn_id
            &&& tx.fee == f.fee
            &&& tx.flags == f.flags
            &&& tx.last_ledger_sequence == f.last_ledger_sequence
            &&& (match f.memos {
                Some(ms) => tx.memos is Some && tx.memos->0@.len() == ms.len() && forall|i: int|
                    0 <= i < ms.len() ==> tx.memos->0@[i] == ms[i],
                None => tx.memos is None,
            })
            &&& tx.sequence == f.sequence
            &&& (match f.signers {
                Some(ss) => tx.signers is Some && tx.signers->0@.len() == ss.len() && forall|i: int|
                    0 <= i < ss.len() ==> tx.signers->0@[i] == ss[i],
                None => tx.signers is None,
            })
            &&& tx.source_tag == f.source_tag
            &&& tx.ticket_sequence == f.ticket_sequence
            &&& tx.signing_pub_key is None
            &&& tx.txn_signature is None
            &&& tx.hash is None
        },
{
    match (tx.memos, f.memos) {
        (Some(m), Some(ms)) => {
            if m@.len() == ms.len() && forall|i: int| 0 <= i < ms.len() ==> m@[i] == ms[i] {
                assert(m@ =~= ms);
            }
        },
        _ => {},
    }
    match (tx.signers, f.signers) {
        (Some(s), Some(ss)) => {
            if s@.len() == ss.len() && forall|i: int| 0 <= i < ss.len() ==> s@[i] == ss[i] {
                assert(s@ =~= ss);
            }
        },
        _ => {},
    }
}

impl<T: TransactionTypeBuilder<TransactionType = TransactionType>> TransactionBuilder<T> {
    /// A builder for `account` with no optional field set.
    pub fn init(account: String, transaction_type: T) -> (r: Self)
        ensures
            r@ == (BuilderFields {
                account,
                account_txn_id: None,
                fee: None,
                flags: None,
                last_ledger_sequence: None,
                memos: None,
                sequence: None,
                signers: None,
                source_tag: None,
                ticket_sequence: None,
                transaction_type,
            }),
    {
        Self {
            account,
            account_txn_id: None,
            fee: None,
            flags: None,
            last_ledger_sequence: None,
            memos: None,
            sequence: None,
            signers: None,
            source_tag: None,
            ticket_sequence: None,
            transaction_type,
        }
    }

    pub fn with_sequence(self, sequence: u32) -> (r: Self)
        ensures
            r@ == (BuilderFields { sequence: Some(sequence), ..self@ }),
    {
        let mut b = self;
        b.sequence = Some(sequence);
        b
    }

    /// Sets the fee, converted to a `String` by its `Into` (for a `&str`, a
    /// `String` with the same characters).
    pub fn with_fee(self, fee: impl Into<String>) -> (r: Self)
        ensures
            r@.fee is Some,
            call_ensures(<_ as Into<String>>::into, (fee,), r@.fee->0),
            r@ == (BuilderFields { fee: r@.fee, ..self@ }),
    {
        let mut b = self;
        b.fee = Some(fee.into());
        b
    }

    pub fn with_flags(self, flags: u32) -> (r: Self)
        ensures
            r@ == (BuilderFields { flags: Some(flags), ..self@ }),
    {
        let mut b = self;
        b.flags = Some(flags);
        b
    }

    pub fn with_last_ledger_sequence(self, sequence: u32) -> (r: Self)
        ensures
            r@ == (BuilderFields { last_ledger_sequence: Some(sequence), ..self@ }),
    {
        let mut b = self;
        b.last_ledger_sequence = Some(sequence);
        b
    }

    /// Sets the memos, each wrapped as it stands in a transaction, in order.
    pub fn with_memos(self, memos: Vec<Memo>) -> (r: Self)
        ensures
            r@.memos is Some,
            r@.memos->0.len() == memos@.len(),
            forall|i: int| 0 <= i < memos@.len() ==> (#[trigger] r@.memos->0[i]).memo == memos@[i],
            r@ == (BuilderFields { memos: r@.memos, ..self@ }),
    {
        let mut b = self;
        let mut wrapped: Vec<MemoWrapper> = Vec::new();
        let mut rest = memos;
        let ghost orig = rest@;
        while rest.len() > 0
            invariant
                wrapped@.len() + rest@.len() == orig.len(),
                rest@ == orig.subrange(wrapped@.len() as int, orig.len() as int),
                forall|i: int| 0 <= i < wrapped@.len() ==> (#[trigger] wrapped@[i]).memo == orig[i],
            decreases rest@.len(),
        {
            let ghost k = wrapped@.len() as int;
            let memo = rest.remove(0);
            assert(memo == orig[k]);
            wrapped.push(MemoWrapper { memo });
        }
        b.memos = Some(wrapped);
        b
    }

    /// Sets the signers, each wrapped as it stands in a transaction, in order.
    pub fn with_signers(self, signers: Vec<Signer>) -> (r: Self)
        ensures
            r@.signers is Some,
            r@.signers->0.len() == signers@.len(),
            forall|i: int| 0 <= i < signers@.len() ==> (#[trigger] r@.signers->0[i]).signer == signers@[i],
            r@ == (BuilderFields { signers: r@.signers, ..self@ }),
    {
        let mut b = self;
        let mut wrapped: Vec<SignerWrapper> = Vec::new();
        let mut rest = signers;
        let ghost orig = rest@;
        while rest.len() > 0
            invariant
                wrapped@.len() + rest@.len() == orig.len(),
                rest@ == orig.subrange(wrapped@.len() as int, orig.len() as int),
                forall|i: int| 0 <= i < wrapped@.len() ==> (#[trigger] wrapped@[i]).signer == orig[i],
            decreases rest@.len(),
        {
            let ghost k = wrapped@.len() as int;
            let signer = rest.remove(0);
            assert(signer == orig[k]);
            wrapped.push(SignerWrapper { signer });
        }
        b.signers = Some(wrapped);
        b
    }

    pub fn with_source_tag(self, tag: u32) -> (r: Self)
        ensures
            r@ == (BuilderFields { source_tag: Some(tag), ..self@ }),
    {
        let mut b = self;
        b.source_tag = Some(tag);
        b
    }

    pub fn with_ticket_sequence(self, sequence: u32) -> (r: Self)
        ensures
            r@ == (BuilderFields { ticket_sequence: Some(sequence), ..self@ }),
    {
        let mut b = self;
        b.ticket_sequence = Some(sequence);
        b
    }

    pub fn with_account_txn_id(self, id: String) -> (r: Self)
        ensures
            r@ == (BuilderFields { account_txn_id: Some(id), ..self@ }),
    {
        let mut b = self;
        b.account_txn_id = Some(id);
        b
    }

    /// The transaction: it fails on an empty account, then on the first
    /// problem with the kind-specific fields, and otherwise carries every
    /// field that was set.
    pub fn build(self) -> (r: Result<Transaction, BuildError>)
        ensures
            match build_failure(self@) {
                Some(e) => r is Err && r->Err_0@ == e,
                None => r is Ok && carries_fields(r->Ok_0, self@) && self@.transaction_type.spec_builds(
                    r->Ok_0.transaction_type,
                ),
            },
    {
        let ghost fields = self@;
        match validate_account(self.account.as_str()) {
            Err(e) => return Err(e),
            Ok(()) => {},
        }
        match self.transaction_type.validate_specific_fields() {
            Err(e) => return Err(e),
            Ok(()) => {},
        }
        let TransactionBuilder {
            account,
            account_txn_id,
            fee,
            flags,
            last_ledger_sequence,
            memos,
            sequence,
            signers,
            source_tag,
            ticket_sequence,
            transaction_type,
        } = self;
        let transaction_type = match transaction_type.build_transaction_type() {
            Err(e) => return Err(e),
            Ok(t) => t,
        };
        Ok(
            Transaction {
                account,
                account_txn_id,
                fee,
                flags,
                last_ledger_sequence,
                memos,
                sequence,
                signers,
                source_tag,
                ticket_sequence,
                signing_pub_key: None,
                txn_signature: None,
                hash: None,
                transaction_type,
            },
        )
    }
}

/// An account must not be empty.
pub fn validate_account(account: &str) -> (r: Result<(), BuildError>)
    ensures
        account@.len() == 0 ==> r is Err && r->Err_0@ == BuildErrorView::EmptyAccount,
        account@.len() != 0 ==> r is Ok,
{
    if account.is_empty() {
        return Err(BuildError::EmptyAccount);
    }
    Ok(())
}

/// A destination must not be empty.
pub fn validate_destination(destination: &str) -> (r: Result<(), BuildError>)
    ensures
        destination@.len() == 0 ==> r is Err && r->Err_0@ == BuildErrorView::EmptyDestination,
        destination@.len() != 0 ==> r is Ok,
{
    if destination.is_empty() {
        return Err(BuildError::EmptyDestination);
    }
    Ok(())
}

} // verus!
