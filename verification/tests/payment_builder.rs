use xrpl::types::builders::payment::validate_amount;
use xrpl::types::{Amount, BuildError, Memo, PaymentBuilder, Signer, TransactionType};

#[test]
fn test_payment_builder_basic() {
    let payment = PaymentBuilder::new(
        "rAccount123".to_string(),
        "rDestination456".to_string(),
        Amount::Xrpl("1000000".to_string()),
    )
    .with_sequence(1)
    .with_fee("10")
    .build()
    .expect("Should build valid payment");

    assert_eq!(payment.account, "rAccount123");
    assert_eq!(payment.sequence, Some(1));
    assert_eq!(payment.fee, Some("10".to_string()));

    if let TransactionType::Payment { destination, amount, .. } = payment.transaction_type {
        assert_eq!(destination, "rDestination456");
        assert_eq!(amount.unwrap(), Amount::Xrpl("1000000".to_string()));
    } else {
        panic!("Expected Payment transaction type");
    }
}

#[test]
fn test_payment_builder_with_memo() {
    let memo = Memo {
        memo_data: Some("48656c6c6f".to_string()),
        memo_format: None,
        memo_type: None,
    };

    let payment = PaymentBuilder::new(
        "rAccount123".to_string(),
        "rDestination456".to_string(),
        Amount::Xrpl("1000000".to_string()),
    )
    .with_sequence(1)
    .with_fee("10")
    .with_memos(vec![memo])
    .build()
    .expect("Should build valid payment");

    assert!(payment.memos.is_some());
    assert_eq!(payment.memos.as_ref().unwrap().len(), 1);
}

#[test]
fn test_payment_builder_with_destination_tag() {
    let payment = PaymentBuilder::new(
        "rAccount123".to_string(),
        "rDestination456".to_string(),
        Amount::Xrpl("1000000".to_string()),
    )
    .with_destination_tag(12345)
    .with_sequence(1)
    .with_fee("10")
    .build()
    .expect("Should build valid payment");

    if let TransactionType::Payment { destination_tag, .. } = payment.transaction_type {
        assert_eq!(destination_tag, Some(12345));
    } else {
        panic!("Expected Payment transaction type");
    }
}

#[test]
fn test_payment_builder_validation_empty_account() {
    let result = PaymentBuilder::new(
        "".to_string(),
        "rDestination456".to_string(),
        Amount::Xrpl("1000000".to_string()),
    )
    .build();

    assert!(matches!(result, Err(BuildError::EmptyAccount)));
}

#[test]
fn test_payment_builder_validation_empty_destination() {
    let result = PaymentBuilder::new(
        "rAccount123".to_string(),
        "".to_string(),
        Amount::Xrpl("1000000".to_string()),
    )
    .build();

    assert!(matches!(result, Err(BuildError::EmptyDestination)));
}

#[test]
fn test_payment_builder_with_issued_currency() {
    let payment = PaymentBuilder::new(
        "rAccount123".to_string(),
        "rDestination456".to_string(),
        Amount::IssuedCurrency {
            value: "100.50".to_string(),
            currency: "USD".to_string(),
            issuer: "rTrust1234567890123456789012345".to_string(),
        },
    )
    .with_sequence(1)
    .with_fee("10")
    .build()
    .expect("Should build valid payment with issued currency");

    assert_eq!(payment.account, "rAccount123");
    assert_eq!(payment.sequence, Some(1));
    assert_eq!(payment.fee, Some("10".to_string()));

    if let TransactionType::Payment { destination, amount, .. } = payment.transaction_type {
        assert_eq!(destination, "rDestination456");
        if let Some(Amount::IssuedCurrency { value, currency, issuer }) = amount {
            assert_eq!(value, "100.50");
            assert_eq!(currency, "USD");
            assert_eq!(issuer, "rTrust1234567890123456789012345");
        } else {
            panic!("Expected IssuedCurrency amount");
        }
    } else {
        panic!("Expected Payment transaction type");
    }
}

fn invalid_amount_message(amount: Amount) -> String {
    match PaymentBuilder::new("rA".to_string(), "rB".to_string(), amount).build() {
        Err(BuildError::InvalidAmount(m)) => m,
        other => panic!("expected an invalid amount, got {:?}", other.map(|_| ())),
    }
}

#[test]
fn invalid_amounts_are_named() {
    assert_eq!(invalid_amount_message(Amount::Xrpl("0".to_string())), "XRP amount cannot be zero or empty");
    assert_eq!(invalid_amount_message(Amount::Xrpl("".to_string())), "XRP amount cannot be zero or empty");
    assert_eq!(
        invalid_amount_message(Amount::issued_currency("0", "USD", "rI")),
        "Token value cannot be zero or empty"
    );
    assert_eq!(
        invalid_amount_message(Amount::issued_currency("5", "usd", "rI")),
        "Currency must be exactly 3 uppercase ASCII characters"
    );
    assert_eq!(
        invalid_amount_message(Amount::issued_currency("5", "USDT", "rI")),
        "Currency must be exactly 3 uppercase ASCII characters"
    );
    assert_eq!(
        invalid_amount_message(Amount::issued_currency("5", "XRP", "rI")),
        "Currency code XRP is not allowed for issued currencies"
    );
    assert_eq!(
        invalid_amount_message(Amount::issued_currency("5", "USD", "xI")),
        "Issuer address must start with 'r'"
    );
    assert!(validate_amount(&Amount::issued_currency("5", "USD", "rI")).is_ok());
}

#[test]
fn empty_account_is_checked_first() {
    let result = PaymentBuilder::new("".to_string(), "".to_string(), Amount::Xrpl("0".to_string())).build();
    assert!(matches!(result, Err(BuildError::EmptyAccount)));
    let result = PaymentBuilder::new("rA".to_string(), "".to_string(), Amount::Xrpl("0".to_string())).build();
    assert!(matches!(result, Err(BuildError::EmptyDestination)));
}

#[test]
fn every_field_set_is_carried() {
    let signer = Signer {
        account: "rS".to_string(),
        txn_signature: "SIG".to_string(),
        signing_pub_key: "KEY".to_string(),
    };
    let tx = PaymentBuilder::new("rA".to_string(), "rB".to_string(), Amount::drops(5))
        .with_flags(7)
        .with_last_ledger_sequence(99)
        .with_source_tag(3)
        .with_ticket_sequence(4)
        .with_account_txn_id("ABC".to_string())
        .with_signers(vec![signer])
        .with_invoice_id("INV".to_string())
        .with_deliver_min(Amount::drops(1))
        .with_send_max(Amount::drops(9))
        .add_path(vec![])
        .add_path(vec![])
        .build()
        .expect("valid payment");
    assert_eq!(tx.flags, Some(7));
    assert_eq!(tx.last_ledger_sequence, Some(99));
    assert_eq!(tx.source_tag, Some(3));
    assert_eq!(tx.ticket_sequence, Some(4));
    assert_eq!(tx.account_txn_id, Some("ABC".to_string()));
    assert_eq!(tx.signers.as_ref().unwrap()[0].signer.txn_signature, "SIG");
    assert!(tx.signing_pub_key.is_none() && tx.txn_signature.is_none() && tx.hash.is_none());
    if let TransactionType::Payment { invoice_id, deliver_min, send_max, paths, .. } = tx.transaction_type {
        assert_eq!(invoice_id, Some("INV".to_string()));
        assert_eq!(deliver_min, Some(Amount::drops(1)));
        assert_eq!(send_max, Some(Amount::drops(9)));
        assert_eq!(paths.unwrap().len(), 2);
    } else {
        panic!("Expected Payment transaction type");
    }
}

#[test]
fn build_error_messages() {
    assert_eq!(BuildError::EmptyAccount.message(), "Account cannot be empty");
    assert_eq!(BuildError::InvalidAmount("x".to_string()).message(), "Invalid amount: x");
    assert_eq!(BuildError::MissingFee.message(), "Fee is required");
}

#[test]
fn optional_fields_never_change_the_outcome() {
    let bare = PaymentBuilder::new("rA".to_string(), "rB".to_string(), Amount::Xrpl("0".to_string())).build();
    let dressed = PaymentBuilder::new("rA".to_string(), "rB".to_string(), Amount::Xrpl("0".to_string()))
        .with_sequence(1)
        .with_fee("12")
        .with_flags(0)
        .with_memos(vec![Memo { memo_data: None, memo_format: None, memo_type: None }])
        .build();
    match (bare, dressed) {
        (Err(BuildError::InvalidAmount(a)), Err(BuildError::InvalidAmount(b))) => assert_eq!(a, b),
        _ => panic!("both should fail on the amount"),
    }
    let ok = PaymentBuilder::new("rA".to_string(), "rB".to_string(), Amount::drops(1)).with_sequence(2).build();
    assert!(ok.is_ok());
}
