//! Building payments.
use vstd::prelude::*;
use vstd::utf8::{encode_utf8, has_width_1_encoding};
use crate::text::str_eq;
use crate::types::amount::{Amount, AmountView};
use crate::types::builders::common::{
    build_failure, validate_destination, BuildError, BuildErrorView, BuilderFields, TransactionBuilder, TransactionTypeBuilder,
};
use crate::types::transaction::{PathStep, TransactionType};

verus! {

broadcast use vstd::string::group_string_axioms;

/// The fields of a payment.
pub struct Payment {
    pub destination: String,
    pub amount: Option<Amount>,
    pub deliver_max: Option<Amount>,
    pub deliver_min: Option<Amount>,
    pub destination_tag: Option<u32>,
    pub invoice_id: Option<String>,
    pub paths: Option<Vec<Vec<PathStep>>>,
    pub send_max: Option<Amount>,
}

pub type PaymentBuilder = TransactionBuilder<Payment>;

/// A currency code of an issued amount: exactly three bytes, all ASCII
/// upper-case letters.
pub open spec fn is_currency_code(currency: Seq<char>) -> bool {
    &&& encode_utf8(currency).len() == 3
    &&& forall|i: int| 0 <= i < currency.len() ==> 'A' <= #[trigger] currency[i] <= 'Z'
}

/// The first problem with an amount to be paid, as the message of
/// [`BuildError::InvalidAmount`].
pub open spec fn amount_problem(amount: AmountView) -> Option<Seq<char>> {
    match amount {
        AmountView::Xrpl(v) => if v.len() == 0 || v == "0"@ {
            Some("XRP amount cannot be zero or empty"@)
        } else {
            None
        },
        AmountView::IssuedCurrency { value, currency, issuer } => if value.len() == 0 || value == "0"@ {
            Some("Token value cannot be zero or empty"@)
        } else if !is_currency_code(currency) {
            Some("Currency must be exactly 3 uppercase ASCII characters"@)
        } else if currency == "XRP"@ {
            Some("Currency code XRP is not allowed for issued currencies"@)
        } else if !(issuer.len() > 0 && issuer[0] == 'r') {
            Some("Issuer address must start with 'r'"@)
        } else {
            None
        },
    }
}

/// Three ASCII upper-case letters take three bytes.
proof fn lemma_upper_ascii_bytes(s: Seq<char>)
    requires
        forall|i: int| 0 <= i < s.len() ==> 'A' <= #[trigger] s[i] <= 'Z',
    ensures
        encode_utf8(s).len() == s.len(),
    decreases s.len(),
{
    if s.len() > 0 {
        let t = s.drop_first();
        assert forall|i: int| 0 <= i < t.len() implies 'A' <= #[trigger] t[i] <= 'Z' by {
            assert(t[i] == s[i + 1]);
        }
        lemma_upper_ascii_bytes(t);
        assert('A' <= s[0] <= 'Z');
        assert(has_width_1_encoding(s[0] as u32));
    }
}

/// A currency code is exactly three ASCII upper-case letters.
pub proof fn lemma_currency_code_exactly(c: Seq<char>)
    ensures
        is_currency_code(c) <==> (c.len() == 3 && forall|i: int| 0 <= i < 3 ==> 'A' <= #[trigger] c[i] <= 'Z'),
{
    if forall|i: int| 0 <= i < c.len() ==> 'A' <= #[trigger] c[i] <= 'Z' {
        lemma_upper_ascii_bytes(c);
    }
    if c.len() == 3 && forall|i: int| 0 <= i < 3 ==> 'A' <= #[trigger] c[i] <= 'Z' {
        lemma_upper_ascii_bytes(c);
    }
}

/// What is wrong with an amount to pay, the first check that fails naming
/// it: XRP must not be empty or `0`; an issued value must not be empty or
/// `0`, its currency must be three ASCII upper-case letters other than
/// `XRP`, and its issuer must start with `r`. An amount that passes every
/// check has no problem.
pub proof fn lemma_amount_problem_exactly(a: AmountView)
    ensures
        a matches AmountView::Xrpl(v) ==> amount_problem(a) == (if v.len() == 0 || v == "0"@ {
            Some("XRP amount cannot be zero or empty"@)
        } else {
            None::<Seq<char>>
        }),
        a matches AmountView::IssuedCurrency { value, currency, issuer } ==> {
            let value_ok = value.len() > 0 && value != "0"@;
            let code_ok = currency.len() == 3 && forall|i: int| 0 <= i < 3 ==> 'A' <= #[trigger] currency[i] <= 'Z';
            let issuer_ok = issuer.len() > 0 && issuer[0] == 'r';
            &&& !value_ok ==> amount_problem(a) == Some("Token value cannot be zero or empty"@)
            &&& value_ok && !code_ok ==> amount_problem(a) == Some(
                "Currency must be exactly 3 uppercase ASCII characters"@,
            )
            &&& value_ok && code_ok && currency == "XRP"@ ==> amount_problem(a) == Some(
                "Currency code XRP is not allowed for issued currencies"@,
            )
            &&& value_ok && code_ok && currency != "XRP"@ && !issuer_ok ==> amount_problem(a) == Some(
                "Issuer address must start with 'r'"@,
            )
            &&& value_ok && code_ok && currency != "XRP"@ && issuer_ok ==> amount_problem(a) is None
        },
{
    match a {
        AmountView::IssuedCurrency { currency, .. } => lemma_currency_code_exactly(currency),
        _ => {},
    }
}

impl TransactionTypeBuilder for Payment {
    type TransactionType = TransactionType;

    /// The destination must not be empty; an amount, when there is one, must
    /// pass [`amount_problem`].
    open spec fn spec_problem(&self) -> Option<BuildErrorView> {
        if self.destination@.len() == 0 {
            Some(BuildErrorView::EmptyDestination)
        } else {
            match self.amount {
                Some(a) => match amount_problem(a@) {
                    Some(m) => Some(BuildErrorView::InvalidAmount(m)),
                    None => None,
                },
                None => None,
            }
        }
    }

    open spec fn spec_build_failure(&self) -> Option<BuildErrorView> {
        None
    }

    /// A payment builds the payment with the same fields.
    open spec fn spec_builds(self, t: TransactionType) -> bool {
        t == TransactionType::Payment {
            amount: self.amount,
            deliver_max: self.deliver_max,
            deliver_min: self.deliver_min,
            destination: self.destination,
            destination_tag: self.destination_tag,
            invoice_id: self.invoice_id,
            paths: self.paths,
            send_max: self.send_max,
        }
    }

    fn build_transaction_type(self) -> (r: Result<TransactionType, BuildError>) {
        Ok(
            TransactionType::Payment {
                amount: self.amount,
                deliver_max: self.deliver_max,
                deliver_min: self.deliver_min,
                destination: self.destination,
                destination_tag: self.destination_tag,
                invoice_id: self.invoice_id,
                paths: self.paths,
                send_max: self.send_max,
            },
        )
    }

    fn validate_specific_fields(&self) -> (r: Result<(), BuildError>) {
        match validate_destination(self.destination.as_str()) {
            Err(e) => return Err(e),
            Ok(()) => {},
        }
        match &self.amount {
            Some(amount) => validate_amount(amount),
            None => Ok(()),
        }
    }
}

/// The fields of a payment builder just made: the account, the destination
/// and the amount, nothing else set.
pub open spec fn new_payment_fields(account: String, destination: String, amount: Amount) -> BuilderFields<Payment> {
    BuilderFields {
        account,
        account_txn_id: None,
        fee: None,
        flags: None,
        last_ledger_sequence: None,
        memos: None,
        sequence: None,
        signers: None,
        source_tag: None,
        ticket_sequence: None,
        transaction_type: Payment {
            destination,
            amount: Some(amount),
            deliver_max: None,
            deliver_min: None,
            destination_tag: None,
            invoice_id: None,
            paths: None,
            send_max: None,
        },
    }
}

/// Building a payment fails on an empty account, then on an empty
/// destination, then on the first problem with the amount; otherwise it
/// succeeds.
pub proof fn lemma_payment_build_outcome(f: BuilderFields<Payment>)
    ensures
        build_failure(f) == if f.account@.len() == 0 {
            Some(BuildErrorView::EmptyAccount)
        } else if f.transaction_type.destination@.len() == 0 {
            Some(BuildErrorView::EmptyDestination)
        } else {
            match f.transaction_type.amount {
                Some(a) => match amount_problem(a@) {
                    Some(m) => Some(BuildErrorView::InvalidAmount(m)),
                    None => None,
                },
                None => None,
            }
        },
{
}

/// A payment just made from an account, a destination and an amount builds
/// exactly when the account and the destination are not empty and the amount
/// has no problem; the first failing check names the error.
pub proof fn lemma_new_payment_build_outcome(account: String, destination: String, amount: Amount)
    ensures
        build_failure(new_payment_fields(account, destination, amount)) == if account@.len() == 0 {
            Some(BuildErrorView::EmptyAccount)
        } else if destination@.len() == 0 {
            Some(BuildErrorView::EmptyDestination)
        } else {
            match amount_problem(amount@) {
                Some(m) => Some(BuildErrorView::InvalidAmount(m)),
                None => None,
            }
        },
{
    lemma_payment_build_outcome(new_payment_fields(account, destination, amount));
}

/// A payment's own fields fail exactly on an empty destination, then on a
/// problem with the amount when there is one; they never fail to build, and
/// build the payment that holds each of them unchanged.
pub proof fn lemma_payment_fields_exactly(p: Payment, t: TransactionType)
    ensures
        p.spec_problem() == (if p.destination@.len() == 0 {
            Some(BuildErrorView::EmptyDestination)
        } else if p.amount is Some && amount_problem(p.amount->0@) is Some {
            Some(BuildErrorView::InvalidAmount(amount_problem(p.amount->0@)->0))
        } else {
            None
        }),
        p.spec_build_failure() is None,
        p.spec_builds(t) <==> (t matches TransactionType::Payment {
            amount,
            deliver_max,
            deliver_min,
            destination,
            destination_tag,
            invoice_id,
            paths,
            send_max,
        } && amount == p.amount && deliver_max == p.deliver_max && deliver_min == p.deliver_min && destination
            == p.destination && destination_tag == p.destination_tag && invoice_id == p.invoice_id && paths
            == p.paths && send_max == p.send_max),
{
}

impl PaymentBuilder {
    /// A payment of `amount` from `account` to `destination`.
    pub fn new(account: String, destination: String, amount: Amount) -> (r: Self)
        ensures
            r@ == new_payment_fields(account, destination, amount),
    {
        Self::init(
            account,
            Payment {
                destination,
                amount: Some(amount),
                deliver_max: None,
                deliver_min: None,
                destination_tag: None,
                invoice_id: None,
                paths: None,
                send_max: None,
            },
        )
    }

    pub fn with_destination_tag(self, tag: u32) -> (r: Self)
        ensures
            r@ == (BuilderFields {
                transaction_type: Payment { destination_tag: Some(tag), ..self@.transaction_type },
                ..self@
            }),
    {
        let (mut payment, rest) = self.split();
        payment.destination_tag = Some(tag);
        rest.join(payment)
    }

    pub fn with_invoice_id(self, id: String) -> (r: Self)
        ensures
            r@ == (BuilderFields {
                transaction_type: Payment { invoice_id: Some(id), ..self@.transaction_type },
                ..self@
            }),
    {
        let (mut payment, rest) = self.split();
        payment.invoice_id = Some(id);
        rest.join(payment)
    }

    pub fn with_deliver_min(self, amount: Amount) -> (r: Self)
        ensures
            r@ == (BuilderFields {
                transaction_type: Payment { deliver_min: Some(amount), ..self@.transaction_type },
                ..self@
            }),
    {
        let (mut payment, rest) = self.split();
        payment.deliver_min = Some(amount);
        rest.join(payment)
    }

    pub fn with_send_max(self, amount: Amount) -> (r: Self)
        ensures
            r@ == (BuilderFields {
                transaction_type: Payment { send_max: Some(amount), ..self@.transaction_type },
                ..self@
            }),
    {
        let (mut payment, rest) = self.split();
        payment.send_max = Some(amount);
        rest.join(payment)
    }

    /// Appends a path, starting the list of paths when there is none.
    pub fn add_path(self, path: Vec<PathStep>) -> (r: Self)
        ensures
            r@.transaction_type.paths is Some,
            r@.transaction_type.paths->0@ == match self@.transaction_type.paths {
                Some(p) => p@.push(path),
                None => seq![path],
            },
            r@ == (BuilderFields {
                transaction_type: Payment { paths: r@.transaction_type.paths, ..self@.transaction_type },
                ..self@
            }),
    {
        let (mut payment, rest) = self.split();
        let paths = match payment.paths {
            Some(mut p) => {
                p.push(path);
                p
            },
            None => {
                let mut p = Vec::new();
                p.push(path);
                assert(p@ =~= seq![path]);
                p
            },
        };
        payment.paths = Some(paths);
        rest.join(payment)
    }
}

/// Checks an amount to be paid; the error names the first problem found.
pub fn validate_amount(amount: &Amount) -> (r: Result<(), BuildError>)
    ensures
        match amount_problem(amount@) {
            None => r is Ok,
            Some(m) => r is Err && r->Err_0@ == BuildErrorView::InvalidAmount(m),
        },
{
    match amount {
        Amount::Xrpl(amount_str) => validate_xrp_amount(amount_str.as_str()),
        Amount::IssuedCurrency { value, currency, issuer } => {
            match validate_token_value(value.as_str()) {
                Err(e) => return Err(e),
                Ok(()) => {},
            }
            match validate_currency(currency.as_str()) {
                Err(e) => return Err(e),
                Ok(()) => {},
            }
            validate_issuer(issuer.as_str())
        },
    }
}

/// An XRP amount must be neither empty nor `0`.
pub fn validate_xrp_amount(amount_str: &str) -> (r: Result<(), BuildError>)
    ensures
        (amount_str@.len() == 0 || amount_str@ == "0"@) ==> r is Err && r->Err_0@
            == BuildErrorView::InvalidAmount("XRP amount cannot be zero or empty"@),
        !(amount_str@.len() == 0 || amount_str@ == "0"@) ==> r is Ok,
{
    if amount_str.is_empty() || str_eq(amount_str, "0") {
        return Err(BuildError::InvalidAmount("XRP amount cannot be zero or empty".to_string()));
    }
    Ok(())
}

/// A token value must be neither empty nor `0`.
pub fn validate_token_value(value: &str) -> (r: Result<(), BuildError>)
    ensures
        (value@.len() == 0 || value@ == "0"@) ==> r is Err && r->Err_0@
            == BuildErrorView::InvalidAmount("Token value cannot be zero or empty"@),
        !(value@.len() == 0 || value@ == "0"@) ==> r is Ok,
{
    if value.is_empty() || str_eq(value, "0") {
        return Err(BuildError::InvalidAmount("Token value cannot be zero or empty".to_string()));
    }
    Ok(())
}

/// A currency code must be three ASCII upper-case letters, and not `XRP`.
pub fn validate_currency(currency: &str) -> (r: Result<(), BuildError>)
    ensures
        !is_currency_code(currency@) ==> r is Err && r->Err_0@ == BuildErrorView::InvalidAmount(
            "Currency must be exactly 3 uppercase ASCII characters"@,
        ),
        is_currency_code(currency@) && currency@ == "XRP"@ ==> r is Err && r->Err_0@
            == BuildErrorView::InvalidAmount("Currency code XRP is not allowed for issued currencies"@),
        is_currency_code(currency@) && currency@ != "XRP"@ ==> r is Ok,
{
    let byte_len = currency.as_bytes().len();
    let n = currency.unicode_len();
    let mut all_upper = true;
    let mut i: usize = 0;
    while i < n
        invariant
            n == currency@.len(),
            0 <= i <= n,
            all_upper == (forall|j: int| 0 <= j < i ==> 'A' <= #[trigger] currency@[j] <= 'Z'),
        decreases n - i,
    {
        let c = currency.get_char(i);
        if !('A' <= c && c <= 'Z') {
            all_upper = false;
        }
        i = i + 1;
    }
    if byte_len != 3 || !all_upper {
        return Err(
            BuildError::InvalidAmount("Currency must be exactly 3 uppercase ASCII characters".to_string()),
        );
    }
    if str_eq(currency, "XRP") {
        return Err(
            BuildError::InvalidAmount("Currency code XRP is not allowed for issued currencies".to_string()),
        );
    }
    Ok(())
}

/// An issuer's address must start with `r`.
pub fn validate_issuer(issuer: &str) -> (r: Result<(), BuildError>)
    ensures
        !(issuer@.len() > 0 && issuer@[0] == 'r') ==> r is Err && r->Err_0@ == BuildErrorView::InvalidAmount(
            "Issuer address must start with 'r'"@,
        ),
        issuer@.len() > 0 && issuer@[0] == 'r' ==> r is Ok,
{
    if !(issuer.unicode_len() > 0 && issuer.get_char(0) == 'r') {
        return Err(BuildError::InvalidAmount("Issuer address must start with 'r'".to_string()));
    }
    Ok(())
}

} // verus!
