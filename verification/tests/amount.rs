use xrpl::types::amount::{issued_display, issuer_abbreviation, xrp_text_display};
use xrpl::types::Amount;

#[test]
fn test_conversions() {
    let amount1 = Amount::from(1000000u64);
    let amount4: Amount = "1000000".into();
    assert_eq!(amount1, amount4);

    let amount8 = Amount::drops(1000000u64);
    assert_eq!(amount1, amount8);

    let usd = Amount::issued_currency("100.5", "USD", "rXXXXXXXXXXXXXXXXXXXXXXXXXXXX");
    let usd2 = Amount::issued_currency("100.5", "USD", "rXXXXXXXXXXXXXXXXXXXXXXXXXXXX");
    assert_eq!(usd, usd2);

    assert_eq!(amount1.value(), "1000000");
    assert_eq!(amount1.currency(), "XRP");
    assert_eq!(usd.currency(), "USD");

    let drops: u64 = amount1.clone().try_into().unwrap();
    assert_eq!(drops, 1000000);
}

#[test]
fn drops_round_trip() {
    for n in [0u64, 1, 9, 10, 500000, 1123456, 1999999, u64::MAX] {
        assert_eq!(Amount::drops(n).to_drops(), Some(n));
        assert_eq!(Amount::drops(n).value(), n.to_string());
    }
}

#[test]
fn to_drops_reads_like_parse() {
    assert_eq!(Amount::from("+42").to_drops(), Some(42));
    assert_eq!(Amount::from("007").to_drops(), Some(7));
    assert_eq!(Amount::from("").to_drops(), None);
    assert_eq!(Amount::from("+").to_drops(), None);
    assert_eq!(Amount::from("-1").to_drops(), None);
    assert_eq!(Amount::from("1.5").to_drops(), None);
    assert_eq!(Amount::from("18446744073709551615").to_drops(), Some(u64::MAX));
    assert_eq!(Amount::from("18446744073709551616").to_drops(), None);
    assert_eq!(Amount::issued_currency("5", "USD", "rA").to_drops(), None);
}

#[test]
fn from_signed_and_strings() {
    assert_eq!(Amount::from(-25i64).value(), "-25");
    assert_eq!(Amount::from(25i64).value(), "25");
    assert_eq!(Amount::from(i64::MIN).value(), "-9223372036854775808");
    assert_eq!(Amount::from("12".to_string()), Amount::Xrpl("12".to_string()));
    let parsed: Amount = "abc".parse().unwrap();
    assert_eq!(parsed, Amount::Xrpl("abc".to_string()));
    assert_eq!(Amount::default(), Amount::Xrpl("0".to_string()));
}

#[test]
fn try_into_u64_errors() {
    let bad: Result<u64, String> = Amount::from("x").try_into();
    assert_eq!(bad, Err("Invalid XRP amount".to_string()));
    let issued: Result<u64, String> = Amount::issued_currency("1", "USD", "rA").try_into();
    assert_eq!(issued, Err("Cannot convert issued currency to u64".to_string()));
}

#[test]
fn equality_compares_every_part() {
    let a = Amount::issued_currency("1", "USD", "rA");
    assert_ne!(a, Amount::issued_currency("1", "USD", "rB"));
    assert_ne!(a, Amount::issued_currency("2", "USD", "rA"));
    assert_ne!(a, Amount::issued_currency("1", "EUR", "rA"));
    assert_ne!(a, Amount::Xrpl("1".to_string()));
}

#[test]
fn display_texts() {
    assert_eq!(issuer_abbreviation("rXXXXXXXXXXXXXXXXXXXXXXXXXXXX"), "rXXXXXXX...");
    assert_eq!(issuer_abbreviation("rShort"), "rShort");
    assert_eq!(issuer_abbreviation("r1234567"), "r1234567");
    assert_eq!(issued_display("100.5", "USD", "rXXXXXXXXXXXXXXXXXXXXXXXXXXXX"), "100.5 USD (rXXXXXXX...)");
    assert_eq!(xrp_text_display("abc"), "abc XRP");
}

#[test]
fn issued_amounts_keep_their_parts() {
    let usd = Amount::issued_currency("100.5", "USD", "rXXXXXXXXXXXXXXXXXXXXXXXXXXXX");
    assert_eq!(usd.value(), "100.5");
    assert_eq!(usd.currency(), "USD");
    assert_eq!(
        usd,
        Amount::IssuedCurrency {
            value: "100.5".to_string(),
            currency: "USD".to_string(),
            issuer: "rXXXXXXXXXXXXXXXXXXXXXXXXXXXX".to_string()
        }
    );
    assert_eq!(issued_display("100.5", "USD", "rXXXXXXXXXXXXXXXXXXXXXXXXXXXX"), "100.5 USD (rXXXXXXX...)");
    assert_eq!(issued_display("5", "EUR", "rABCDEFG"), "5 EUR (rABCDEFG)");
}
