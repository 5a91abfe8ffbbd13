//! Amounts of XRP (held as a whole number of drops) and of issued currencies.
use vstd::prelude::*;
use vstd::utf8::*;
use crate::json::{members_get, members_view, JsonValue, JsonView};
use crate::text::{int_digits, lemma_parse_u64_of_digits, nat_digits, parse_u64, parse_u64_spec, push_char, str_eq, u64_to_decimal, i64_to_decimal};

verus! {

broadcast use vstd::string::group_string_axioms;

/// An amount: XRP as a string of drops, or a value of an issued currency.
#[derive(Debug, Clone)]
pub enum Amount {
    Xrpl(String),
    IssuedCurrency { value: String, currency: String, issuer: String },
}

pub enum AmountView {
    Xrpl(Seq<char>),
    IssuedCurrency { value: Seq<char>, currency: Seq<char>, issuer: Seq<char> },
}

impl View for Amount {
    type V = AmountView;

    open spec fn view(&self) -> AmountView {
        match self {
            Amount::Xrpl(v) => AmountView::Xrpl(v@),
            Amount::IssuedCurrency { value, currency, issuer } => AmountView::IssuedCurrency {
                value: value@,
                currency: currency@,
                issuer: issuer@,
            },
        }
    }
}

impl AmountView {
    /// The amount's value: the drops of XRP, or the issued value.
    pub open spec fn value(self) -> Seq<char> {
        match self {
            AmountView::Xrpl(v) => v,
            AmountView::IssuedCurrency { value, .. } => value,
        }
    }

    /// The currency code; XRP amounts are in `XRP`.
    pub open spec fn currency(self) -> Seq<char> {
        match self {
            AmountView::Xrpl(_) => seq!['X', 'R', 'P'],
            AmountView::IssuedCurrency { currency, .. } => currency,
        }
    }

    /// The number of drops, for an XRP amount whose text reads as a `u64`.
    pub open spec fn drops(self) -> Option<u64> {
        match self {
            AmountView::Xrpl(v) => parse_u64_spec(v),
            AmountView::IssuedCurrency { .. } => None,
        }
    }
}

/// How an issuer's address is shown: its first eight bytes and `...` when it
/// is longer than eight bytes, else the whole address.
pub open spec fn issuer_abbreviation_spec(issuer: Seq<char>) -> Seq<char> {
    if encode_utf8(issuer).len() > 8 {
        decode_utf8(encode_utf8(issuer).take(8)) + seq!['.', '.', '.']
    } else {
        issuer
    }
}

impl Amount {
    /// An XRP amount of `drops` drops.
    pub fn drops(drops: u64) -> (r: Amount)
        ensures
            r@ == AmountView::Xrpl(nat_digits(drops as nat)),
    {
        Amount::from(drops)
    }

    /// An amount of an issued currency, each part converted to a `String`
    /// by its `Into`. For a `&str` part that is a `String` with the same
    /// characters (see the specification of `String::from` in `text`).
    pub fn issued_currency<V: Into<String>, C: Into<String>, I: Into<String>>(
        value: V,
        currency: C,
        issuer: I,
    ) -> (r: Amount)
        ensures
            r is IssuedCurrency,
            call_ensures(V::into, (value,), r->value),
            call_ensures(C::into, (currency,), r->currency),
            call_ensures(I::into, (issuer,), r->issuer),
    {
        Amount::IssuedCurrency { value: value.into(), currency: currency.into(), issuer: issuer.into() }
    }

    /// The value: drops for XRP, the issued value otherwise.
    pub fn value(&self) -> (r: &str)
        ensures
            r@ == self@.value(),
    {
        match self {
            Amount::Xrpl(value) => value.as_str(),
            Amount::IssuedCurrency { value, .. } => value.as_str(),
        }
    }

    /// The currency code: `XRP` for XRP amounts.
    pub fn currency(&self) -> (r: &str)
        ensures
            r@ == self@.currency(),
    {
        match self {
            Amount::Xrpl(_) => {
                proof {
                    reveal_strlit("XRP");
                }
                "XRP"
            },
            Amount::IssuedCurrency { currency, .. } => currency.as_str(),
        }
    }

    /// The drops of an XRP amount whose value reads as a `u64`.
    pub fn to_drops(&self) -> (r: Option<u64>)
        ensures
            r == self@.drops(),
    {
        match self {
            Amount::Xrpl(value) => parse_u64(value.as_str()),
            Amount::IssuedCurrency { .. } => None,
        }
    }
}

/// The text of an issued amount, as the amount is displayed:
/// `value currency (issuer)`, the issuer abbreviated.
pub fn issued_display(value: &str, currency: &str, issuer: &str) -> (r: String)
    requires
        encode_utf8(issuer@).len() > 8 ==> is_char_boundary(encode_utf8(issuer@), 8),
    ensures
        r@ == value@ + seq![' '] + currency@ + seq![' ', '('] + issuer_abbreviation_spec(issuer@) + seq![')'],
{
    let abbreviated = issuer_abbreviation(issuer);
    let mut s = value.to_string();
    push_char(&mut s, ' ');
    let mut s = s.concat(currency);
    push_char(&mut s, ' ');
    push_char(&mut s, '(');
    let mut s = s.concat(abbreviated.as_str());
    push_char(&mut s, ')');
    assert(s@ =~= value@ + seq![' '] + currency@ + seq![' ', '('] + issuer_abbreviation_spec(issuer@) + seq![')']);
    s
}

/// The issuer as displayed: its first eight bytes and `...` when it is longer
/// than eight bytes.
pub fn issuer_abbreviation(issuer: &str) -> (r: String)
    requires
        encode_utf8(issuer@).len() > 8 ==> is_char_boundary(encode_utf8(issuer@), 8),
    ensures
        r@ == issuer_abbreviation_spec(issuer@),
{
    if issuer.as_bytes().len() > 8 {
        let (head, _) = issuer.split_at(8);
        proof {
            encode_utf8_decode_utf8(head@);
            assert(encode_utf8(head@) =~= encode_utf8(issuer@).take(8));
        }
        let mut s = head.to_string();
        assert(s@ == head@);
        assert(head@ == decode_utf8(encode_utf8(issuer@).take(8)));
        push_char(&mut s, '.');
        push_char(&mut s, '.');
        push_char(&mut s, '.');
        assert(s@ =~= issuer_abbreviation_spec(issuer@));
        s
    } else {
        let s = issuer.to_string();
        assert(s@ == issuer@);
        s
    }
}

/// The text of an XRP amount whose value is not a number of drops.
pub fn xrp_text_display(value: &str) -> (r: String)
    ensures
        r@ == value@ + seq![' ', 'X', 'R', 'P'],
{
    let mut s = value.to_string();
    push_char(&mut s, ' ');
    push_char(&mut s, 'X');
    push_char(&mut s, 'R');
    push_char(&mut s, 'P');
    assert(s@ =~= value@ + seq![' ', 'X', 'R', 'P']);
    s
}

impl PartialEq for Amount {
    fn eq(&self, other: &Self) -> (r: bool) {
        match self {
            Amount::Xrpl(a) => match other {
                Amount::Xrpl(b) => str_eq(a.as_str(), b.as_str()),
                _ => false,
            },
            Amount::IssuedCurrency { value, currency, issuer } => match other {
                Amount::IssuedCurrency { value: v2, currency: c2, issuer: i2 } => str_eq(value.as_str(), v2.as_str())
                    && str_eq(currency.as_str(), c2.as_str()) && str_eq(issuer.as_str(), i2.as_str()),
                _ => false,
            },
        }
    }
}

impl vstd::std_specs::cmp::PartialEqSpecImpl for Amount {
    open spec fn obeys_eq_spec() -> bool {
        true
    }

    open spec fn eq_spec(&self, other: &Self) -> bool {
        self@ == other@
    }
}

impl Default for Amount {
    fn default() -> (r: Amount)
        ensures
            r@ == AmountView::Xrpl(seq!['0']),
    {
        let mut s = String::new();
        push_char(&mut s, '0');
        assert(s@ =~= seq!['0']);
        Amount::Xrpl(s)
    }
}

impl From<u64> for Amount {
    /// An XRP amount of `drops` drops.
    fn from(drops: u64) -> (r: Amount)
        ensures
            r@ == AmountView::Xrpl(nat_digits(drops as nat)),
    {
        Amount::Xrpl(u64_to_decimal(drops))
    }
}

impl vstd::std_specs::convert::FromSpecImpl<u64> for Amount {
    open spec fn obeys_from_spec() -> bool {
        false
    }

    open spec fn from_spec(v: u64) -> Amount {
        arbitrary()
    }
}

impl From<i64> for Amount {
    /// An XRP amount whose value is the decimal text of `drops`, sign included.
    fn from(drops: i64) -> (r: Amount)
        ensures
            r@ == AmountView::Xrpl(int_digits(drops as int)),
    {
        Amount::Xrpl(i64_to_decimal(drops))
    }
}

impl vstd::std_specs::convert::FromSpecImpl<i64> for Amount {
    open spec fn obeys_from_spec() -> bool {
        false
    }

    open spec fn from_spec(v: i64) -> Amount {
        arbitrary()
    }
}

impl<'a> From<&'a str> for Amount {
    /// An XRP amount whose value is `value`, unchecked.
    fn from(value: &'a str) -> (r: Amount)
        ensures
            r@ == AmountView::Xrpl(value@),
    {
        Amount::Xrpl(value.to_string())
    }
}

impl<'a> vstd::std_specs::convert::FromSpecImpl<&'a str> for Amount {
    open spec fn obeys_from_spec() -> bool {
        false
    }

    open spec fn from_spec(v: &'a str) -> Amount {
        arbitrary()
    }
}

impl From<String> for Amount {
    /// An XRP amount whose value is `value`, unchecked.
    fn from(value: String) -> (r: Amount)
        ensures
            r == Amount::Xrpl(value),
    {
        Amount::Xrpl(value)
    }
}

impl vstd::std_specs::convert::FromSpecImpl<String> for Amount {
    open spec fn obeys_from_spec() -> bool {
        true
    }

    open spec fn from_spec(v: String) -> Amount {
        Amount::Xrpl(v)
    }
}

impl TryFrom<Amount> for u64 {
    type Error = String;

    /// The drops of an XRP amount; an error for an issued currency or an XRP
    /// value that does not read as a `u64`.
    fn try_from(amount: Amount) -> (r: Result<u64, String>)
        ensures
            match amount@ {
                AmountView::Xrpl(v) => match parse_u64_spec(v) {
                    Some(n) => r == Ok::<u64, String>(n),
                    None => r is Err && r->Err_0@ == "Invalid XRP amount"@,
                },
                AmountView::IssuedCurrency { .. } => r is Err && r->Err_0@
                    == "Cannot convert issued currency to u64"@,
            },
    {
        match amount {
            Amount::Xrpl(value) => match parse_u64(value.as_str()) {
                Some(n) => Ok(n),
                None => Err("Invalid XRP amount".to_string()),
            },
            Amount::IssuedCurrency { .. } => Err("Cannot convert issued currency to u64".to_string()),
        }
    }
}

impl vstd::std_specs::convert::TryFromSpecImpl<Amount> for u64 {
    open spec fn obeys_try_from_spec() -> bool {
        false
    }

    open spec fn try_from_spec(v: Amount) -> Result<u64, String> {
        arbitrary()
    }
}

impl core::str::FromStr for Amount {
    type Err = String;

    /// Every string reads as an XRP amount with that value.
    fn from_str(s: &str) -> (r: Result<Amount, String>)
        ensures
            r is Ok,
            r->Ok_0@ == AmountView::Xrpl(s@),
    {
        Ok(Amount::Xrpl(s.to_string()))
    }
}


/// An amount as serialized: XRP as its string of drops, an issued amount as
/// an object of its value, currency and issuer.
pub open spec fn amount_json_view(a: AmountView) -> JsonView {
    match a {
        AmountView::Xrpl(v) => JsonView::Str(v),
        AmountView::IssuedCurrency { value, currency, issuer } => JsonView::Object(
            seq![
                ("value"@, JsonView::Str(value)),
                ("currency"@, JsonView::Str(currency)),
                ("issuer"@, JsonView::Str(issuer)),
            ],
        ),
    }
}

impl Amount {
    /// The amount as serialized.
    pub fn to_json(self) -> (r: JsonValue)
        ensures
            r@ == amount_json_view(self@),
    {
        match self {
            Amount::Xrpl(v) => JsonValue::String(v),
            Amount::IssuedCurrency { value, currency, issuer } => {
                let mut m: Vec<(String, JsonValue)> = Vec::new();
                let ghost vv = value@;
                let ghost cv = currency@;
                let ghost iv = issuer@;
                m.push(("value".to_string(), JsonValue::String(value)));
                m.push(("currency".to_string(), JsonValue::String(currency)));
                m.push(("issuer".to_string(), JsonValue::String(issuer)));
                assert(members_view(m@) =~= seq![
                    ("value"@, JsonView::Str(vv)),
                    ("currency"@, JsonView::Str(cv)),
                    ("issuer"@, JsonView::Str(iv)),
                ]);
                JsonValue::Object(m)
            },
        }
    }
}

/// The parts of an amount: an XRP amount's value is its text, its currency
/// `XRP`, its drops what that text reads as, and it is written as that text;
/// an issued amount's value and currency are its own, it has no drops, and
/// it is written as an object of its value, currency and issuer.
pub proof fn lemma_amount_parts(a: AmountView)
    ensures
        a matches AmountView::Xrpl(v) ==> {
            &&& a.value() == v
            &&& a.currency() == "XRP"@
            &&& a.drops() == parse_u64_spec(v)
            &&& amount_json_view(a) == JsonView::Str(v)
        },
        a matches AmountView::IssuedCurrency { value, currency, issuer } ==> {
            &&& a.value() == value
            &&& a.currency() == currency
            &&& a.drops() is None
            &&& amount_json_view(a) is Object
            &&& amount_json_view(a).get("value"@) == Some(JsonView::Str(value))
            &&& amount_json_view(a).get("currency"@) == Some(JsonView::Str(currency))
            &&& amount_json_view(a).get("issuer"@) == Some(JsonView::Str(issuer))
        },
{
    reveal_strlit("XRP");
    reveal_strlit("value");
    reveal_strlit("currency");
    reveal_strlit("issuer");
    reveal_with_fuel(members_get, 4);
    assert("value"@.len() == 5 && "currency"@.len() == 8 && "issuer"@.len() == 6);
}

/// Reading the drops back from an amount made of drops gives the same number.
pub proof fn lemma_drops_round_trip(n: u64)
    ensures
        AmountView::Xrpl(nat_digits(n as nat)).drops() == Some(n),
{
    lemma_parse_u64_of_digits(n);
}

} // verus!
