//! A JSON document model, the shape in which requests are built and
//! responses are inspected.
use vstd::prelude::*;
use crate::text::{i64_to_decimal, int_digits, nat_digits, str_eq, u64_to_decimal};

verus! {

/// A JSON number: a non-negative integer, a negative integer, or any other
/// number held as its decimal text.
#[derive(Debug, Clone)]
pub enum JsonNumber {
    PosInt(u64),
    NegInt(i64),
    Float(String),
}

/// A JSON value. Object members keep their order; keys are looked up from
/// the front.
#[derive(Debug)]
pub enum JsonValue {
    Null,
    Bool(bool),
    Number(JsonNumber),
    String(String),
    Array(Vec<JsonValue>),
    Object(Vec<(String, JsonValue)>),
}

/// Mathematical counterpart of [`JsonNumber`].
pub enum NumberView {
    PosInt(u64),
    NegInt(i64),
    Float(Seq<char>),
}

/// Mathematical counterpart of [`JsonValue`].
pub enum JsonView {
    Null,
    Bool(bool),
    Number(NumberView),
    Str(Seq<char>),
    Array(Seq<JsonView>),
    Object(Seq<(Seq<char>, JsonView)>),
}

impl JsonNumber {
    pub open spec fn view_number(self) -> NumberView {
        match self {
            JsonNumber::PosInt(u) => NumberView::PosInt(u),
            JsonNumber::NegInt(i) => NumberView::NegInt(i),
            JsonNumber::Float(s) => NumberView::Float(s@),
        }
    }
}

impl JsonValue {
    pub open spec fn view_json(self) -> JsonView
        decreases self, 1int,
    {
        match self {
            JsonValue::Null => JsonView::Null,
            JsonValue::Bool(b) => JsonView::Bool(b),
            JsonValue::Number(n) => JsonView::Number(n.view_number()),
            JsonValue::String(s) => JsonView::Str(s@),
            JsonValue::Array(v) => JsonView::Array(elems_view(v@)),
            JsonValue::Object(m) => JsonView::Object(members_view(m@)),
        }
    }
}

/// The views of a sequence of values.
pub open spec fn elems_view(s: Seq<JsonValue>) -> Seq<JsonView>
    decreases s, 0int,
{
    Seq::new(s.len(), |i: int| if 0 <= i < s.len() { s[i].view_json() } else { JsonView::Null })
}

/// The views of a sequence of object members.
pub open spec fn members_view(m: Seq<(String, JsonValue)>) -> Seq<(Seq<char>, JsonView)>
    decreases m, 0int,
{
    Seq::new(
        m.len(),
        |i: int| if 0 <= i < m.len() { (m[i].0@, m[i].1.view_json()) } else { (Seq::empty(), JsonView::Null) },
    )
}

impl View for JsonValue {
    type V = JsonView;

    open spec fn view(&self) -> JsonView {
        self.view_json()
    }
}

/// The value of the first member of `m` whose key is `key`.
pub open spec fn members_get(m: Seq<(Seq<char>, JsonView)>, key: Seq<char>) -> Option<JsonView>
    decreases m.len(),
{
    if m.len() == 0 {
        None
    } else if m[0].0 == key {
        Some(m[0].1)
    } else {
        members_get(m.drop_first(), key)
    }
}

/// `m` with the first member keyed `key` given the value `val`, or with the
/// member `(key, val)` appended when there is none.
pub open spec fn members_insert(
    m: Seq<(Seq<char>, JsonView)>,
    key: Seq<char>,
    val: JsonView,
) -> Seq<(Seq<char>, JsonView)>
    decreases m.len(),
{
    if m.len() == 0 {
        seq![(key, val)]
    } else if m[0].0 == key {
        m.update(0, (key, val))
    } else {
        seq![m[0]] + members_insert(m.drop_first(), key, val)
    }
}

impl JsonView {
    /// Member lookup, as `serde_json::Value::get` with a string key: only an
    /// object has members.
    pub open spec fn get(self, key: Seq<char>) -> Option<JsonView> {
        match self {
            JsonView::Object(m) => members_get(m, key),
            _ => None,
        }
    }

    /// The string held by a string value.
    pub open spec fn as_str(self) -> Option<Seq<char>> {
        match self {
            JsonView::Str(s) => Some(s),
            _ => None,
        }
    }

    /// This value with every object member whose value is `null` removed, at
    /// every depth. Array elements are never removed.
    pub open spec fn without_nulls(self) -> JsonView
        decreases self, 1int,
    {
        match self {
            JsonView::Array(s) => JsonView::Array(elems_without_nulls(s)),
            JsonView::Object(m) => JsonView::Object(
                members_without_nulls(m).filter(not_null_member()),
            ),
            _ => self,
        }
    }

    /// No object, at any depth, has a member whose value is `null`.
    pub open spec fn has_no_null_members(self) -> bool
        decreases self,
    {
        match self {
            JsonView::Array(s) => forall|i: int| 0 <= i < s.len() ==> (#[trigger] s[i]).has_no_null_members(),
            JsonView::Object(m) => forall|i: int|
                0 <= i < m.len() ==> !((#[trigger] m[i]).1 is Null) && m[i].1.has_no_null_members(),
            _ => true,
        }
    }
}

/// Each element with its nulls removed.
pub open spec fn elems_without_nulls(s: Seq<JsonView>) -> Seq<JsonView>
    decreases s, 0int,
{
    Seq::new(s.len(), |i: int| if 0 <= i < s.len() { s[i].without_nulls() } else { JsonView::Null })
}

/// Each member with the nulls of its value removed (the member itself stays).
pub open spec fn members_without_nulls(m: Seq<(Seq<char>, JsonView)>) -> Seq<(Seq<char>, JsonView)>
    decreases m, 0int,
{
    Seq::new(
        m.len(),
        |i: int| if 0 <= i < m.len() { (m[i].0, m[i].1.without_nulls()) } else { (Seq::empty(), JsonView::Null) },
    )
}

/// The member's value is not `null`.
pub open spec fn not_null_member() -> spec_fn((Seq<char>, JsonView)) -> bool {
    |p: (Seq<char>, JsonView)| !(p.1 is Null)
}

/// Removing nulls leaves no object member whose value is `null`.
pub proof fn lemma_without_nulls_has_no_null_members(j: JsonView)
    ensures
        j.without_nulls().has_no_null_members(),
    decreases j,
{
    match j {
        JsonView::Array(s) => {
            assert forall|i: int| 0 <= i < s.len() implies (#[trigger] s[i]).without_nulls().has_no_null_members() by {
                lemma_without_nulls_has_no_null_members(s[i]);
            }
        },
        JsonView::Object(m) => {
            let mapped = members_without_nulls(m);
            let f = mapped.filter(not_null_member());
            assert(j.without_nulls() == JsonView::Object(f));
            assert forall|i: int| 0 <= i < f.len() implies !((#[trigger] f[i]).1 is Null) && f[i].1.has_no_null_members() by {
                mapped.lemma_filter_pred(not_null_member(), i);
                mapped.lemma_filter_contains_rev(not_null_member(), f[i]);
                let k = choose|k: int| 0 <= k < mapped.len() && mapped[k] == f[i];
                lemma_without_nulls_has_no_null_members(m[k].1);
            }
        },
        _ => {},
    }
}

/// Removes, at every depth, each object member whose value is `null`.
#[verifier::loop_isolation(false)]
pub fn strip_nulls(v: JsonValue) -> (r: JsonValue)
    ensures
        r@ == v@.without_nulls(),
    decreases v,
{
    let ghost v0 = v;
    match v {
        JsonValue::Array(arr) => {
            let ghost orig = arr;
            let mut arr = arr;
            let mut out: Vec<JsonValue> = Vec::new();
            let n = arr.len();
            while arr.len() > 0
                invariant
                    out.len() + arr.len() == n,
                    n == orig.len(),
                    v0 == JsonValue::Array(orig),
                    arr@ == orig@.subrange(out.len() as int, n as int),
                    forall|j: int| 0 <= j < out.len() ==> (#[trigger] out@[j])@ == orig@[j]@.without_nulls(),
                decreases arr.len(),
            {
                let ghost k = out.len() as int;
                let e = arr.remove(0);
                assert(e == orig@[k]);
                assert(orig == v0->Array_0);
                assert(decreases_to!(v0 => v0->Array_0));
                assert(decreases_to!(orig => orig@));
                assert(decreases_to!(orig@ => orig@[k]));
                assert(decreases_to!(v0 => e));
                let s = strip_nulls(e);
                out.push(s);
            }
            let r = JsonValue::Array(out);
            assert(elems_view(out@) =~= elems_without_nulls(elems_view(orig@)));
            r
        },
        JsonValue::Object(members) => {
            let ghost orig = members;
            let mut members = members;
            let mut out: Vec<(String, JsonValue)> = Vec::new();
            let n = members.len();
            let mut done: usize = 0;
            while members.len() > 0
                invariant
                    done + members.len() == n,
                    n == orig.len(),
                    v0 == JsonValue::Object(orig),
                    members@ == orig@.subrange(done as int, n as int),
                    members_view(out@) == members_without_nulls(members_view(orig@).take(done as int)).filter(not_null_member()),
                decreases members.len(),
            {
                let ghost k = done as int;
                let (key, e) = members.remove(0);
                assert((key, e) == orig@[k]);
                assert(orig == v0->Object_0);
                assert(decreases_to!(v0 => v0->Object_0));
                assert(decreases_to!(orig => orig@));
                assert(decreases_to!(orig@ => orig@[k]));
                assert(decreases_to!(orig@[k] => orig@[k].1));
                let ghost before = out@;
                let ghost x = (key@, e@.without_nulls());
                match e {
                    JsonValue::Null => {},
                    _ => {
                        let s = strip_nulls(e);
                        out.push((key, s));
                        assert(members_view(out@) =~= members_view(before).push(x));
                    },
                }
                done = done + 1;
                proof {
                    let prefix = members_view(orig@).take(k);
                    assert(members_view(orig@).take(done as int) =~= prefix.push(members_view(orig@)[k]));
                    assert(members_view(orig@)[k] == (key@, e@));
                    assert(members_without_nulls(prefix.push((key@, e@))) =~= members_without_nulls(prefix).push(x));
                    members_without_nulls(prefix).lemma_filter_push(x, not_null_member());
                }
            }
            assert(members_view(orig@).take(n as int) =~= members_view(orig@));
            JsonValue::Object(out)
        },
        other => other,
    }
}

/// Looking a key up in the members from position `i` on gives what looking it
/// up in all of them gives, when none before `i` has that key.
pub proof fn lemma_members_get_from(m: Seq<(Seq<char>, JsonView)>, key: Seq<char>, i: int)
    requires
        0 <= i <= m.len(),
        forall|j: int| 0 <= j < i ==> (#[trigger] m[j]).0 != key,
    ensures
        members_get(m, key) == members_get(m.subrange(i, m.len() as int), key),
    decreases i,
{
    if i > 0 {
        assert(m.drop_first().subrange(i - 1, m.drop_first().len() as int) =~= m.subrange(i, m.len() as int));
        assert forall|j: int| 0 <= j < i - 1 implies (#[trigger] m.drop_first()[j]).0 != key by {
            assert(m.drop_first()[j] == m[j + 1]);
        }
        assert(m[0].0 != key);
        lemma_members_get_from(m.drop_first(), key, i - 1);
    } else {
        assert(m.subrange(0, m.len() as int) =~= m);
    }
}

/// Where the first member keyed `key` stands at `i`, inserting replaces it.
pub proof fn lemma_members_insert_at(m: Seq<(Seq<char>, JsonView)>, key: Seq<char>, val: JsonView, i: int)
    requires
        0 <= i < m.len(),
        m[i].0 == key,
        forall|j: int| 0 <= j < i ==> (#[trigger] m[j]).0 != key,
    ensures
        members_insert(m, key, val) == m.update(i, (key, val)),
    decreases i,
{
    if i > 0 {
        assert forall|j: int| 0 <= j < i - 1 implies (#[trigger] m.drop_first()[j]).0 != key by {
            assert(m.drop_first()[j] == m[j + 1]);
        }
        assert(m[0].0 != key);
        lemma_members_insert_at(m.drop_first(), key, val, i - 1);
        assert(seq![m[0]] + m.drop_first().update(i - 1, (key, val)) =~= m.update(i, (key, val)));
    }
}

/// Where no member is keyed `key`, inserting appends the member.
pub proof fn lemma_members_insert_absent(m: Seq<(Seq<char>, JsonView)>, key: Seq<char>, val: JsonView)
    requires
        forall|j: int| 0 <= j < m.len() ==> (#[trigger] m[j]).0 != key,
    ensures
        members_insert(m, key, val) == m.push((key, val)),
    decreases m.len(),
{
    if m.len() > 0 {
        assert forall|j: int| 0 <= j < m.len() - 1 implies (#[trigger] m.drop_first()[j]).0 != key by {
            assert(m.drop_first()[j] == m[j + 1]);
        }
        assert(m[0].0 != key);
        lemma_members_insert_absent(m.drop_first(), key, val);
        assert(seq![m[0]] + m.drop_first().push((key, val)) =~= m.push((key, val)));
    }
}

/// Read after write: after inserting `val` under `key`, looking `key` up
/// gives `val`, and looking up any other key gives what it gave before.
pub proof fn lemma_get_after_insert(m: Seq<(Seq<char>, JsonView)>, key: Seq<char>, val: JsonView, other: Seq<char>)
    ensures
        members_get(members_insert(m, key, val), key) == Some(val),
        other != key ==> members_get(members_insert(m, key, val), other) == members_get(m, other),
    decreases m.len(),
{
    if m.len() > 0 {
        if m[0].0 == key {
            let r = members_insert(m, key, val);
            assert(r.drop_first() =~= m.drop_first());
            assert(r[0] == (key, val));
            if other != key {
                assert(members_get(r, other) == members_get(r.drop_first(), other));
                assert(members_get(m, other) == members_get(m.drop_first(), other));
            }
        } else {
            lemma_get_after_insert(m.drop_first(), key, val, other);
            let r = members_insert(m, key, val);
            assert(r.drop_first() =~= members_insert(m.drop_first(), key, val));
        }
    } else {
        let r = members_insert(m, key, val);
        assert(r.drop_first() =~= Seq::<(Seq<char>, JsonView)>::empty());
        assert(r[0] == (key, val));
        if other != key {
            assert(members_get(r, other) == members_get(r.drop_first(), other));
        }
    }
}

/// Looking a key up in two runs of members, one after the other, finds it
/// in the first run when it is there, else in the second.
pub broadcast proof fn lemma_members_get_concat(
    a: Seq<(Seq<char>, JsonView)>,
    b: Seq<(Seq<char>, JsonView)>,
    key: Seq<char>,
)
    ensures
        #[trigger] members_get(a + b, key) == match members_get(a, key) {
            Some(v) => Some(v),
            None => members_get(b, key),
        },
    decreases a.len(),
{
    if a.len() == 0 {
        assert(a + b =~= b);
    } else {
        assert((a + b).drop_first() =~= a.drop_first() + b);
        assert((a + b)[0] == a[0]);
        lemma_members_get_concat(a.drop_first(), b, key);
    }
}

/// A single member is found exactly under its own key.
pub broadcast proof fn lemma_members_get_single(k: Seq<char>, v: JsonView, key: Seq<char>)
    ensures
        #[trigger] members_get(seq![(k, v)], key) == if k == key {
            Some(v)
        } else {
            None
        },
{
    let m = seq![(k, v)];
    assert(m.drop_first() =~= Seq::<(Seq<char>, JsonView)>::empty());
    assert(m[0] == (k, v));
    assert(members_get(m.drop_first(), key) is None);
}

/// Inserting under other keys leaves what a key finds unchanged.
pub proof fn lemma_get_past_inserts(
    m: Seq<(Seq<char>, JsonView)>,
    k1: Seq<char>,
    v1: JsonView,
    k2: Seq<char>,
    v2: JsonView,
    key: Seq<char>,
)
    requires
        key != k1,
        key != k2,
    ensures
        members_get(members_insert(members_insert(m, k1, v1), k2, v2), key) == members_get(m, key),
{
    lemma_get_after_insert(m, k1, v1, key);
    lemma_get_after_insert(members_insert(m, k1, v1), k2, v2, key);
}

/// Removing nulls from a value that has none changes nothing.
pub proof fn lemma_without_nulls_identity(j: JsonView)
    requires
        j.has_no_null_members(),
    ensures
        j.without_nulls() == j,
    decreases j,
{
    match j {
        JsonView::Array(s) => {
            assert forall|i: int| 0 <= i < s.len() implies (#[trigger] s[i]).without_nulls() == s[i] by {
                lemma_without_nulls_identity(s[i]);
            }
            assert(elems_without_nulls(s) =~= s);
        },
        JsonView::Object(m) => {
            assert forall|i: int| 0 <= i < m.len() implies (#[trigger] m[i]).1.without_nulls() == m[i].1 by {
                lemma_without_nulls_identity(m[i].1);
            }
            assert(members_without_nulls(m) =~= m);
            lemma_filter_keeps_all(m);
        },
        _ => {},
    }
}

/// Filtering out null members from members that have none keeps them all.
pub proof fn lemma_filter_keeps_all(m: Seq<(Seq<char>, JsonView)>)
    requires
        forall|i: int| 0 <= i < m.len() ==> !((#[trigger] m[i]).1 is Null),
    ensures
        m.filter(not_null_member()) == m,
    decreases m.len(),
{
    reveal(Seq::filter);
    if m.len() > 0 {
        assert forall|i: int| 0 <= i < m.drop_last().len() implies !((#[trigger] m.drop_last()[i]).1 is Null) by {
            assert(m.drop_last()[i] == m[i]);
        }
        lemma_filter_keeps_all(m.drop_last());
        assert(m.drop_last().push(m.last()) =~= m);
    }
}

/// Removing nulls twice removes no more than removing them once.
pub proof fn lemma_without_nulls_idempotent(j: JsonView)
    ensures
        j.without_nulls().without_nulls() == j.without_nulls(),
{
    lemma_without_nulls_has_no_null_members(j);
    lemma_without_nulls_identity(j.without_nulls());
}

impl JsonValue {
    /// The member stored under `key`, when this is an object that has one.
    pub fn get(&self, key: &str) -> (r: Option<&JsonValue>)
        ensures
            match r {
                Some(x) => self@.get(key@) == Some(x@),
                None => self@.get(key@) is None,
            },
    {
        match self {
            JsonValue::Object(m) => {
                let n = m.len();
                let mut i: usize = 0;
                let ghost mv = members_view(m@);
                while i < n
                    invariant
                        n == m@.len(),
                        mv == members_view(m@),
                        self@.get(key@) == members_get(mv, key@),
                        0 <= i <= n,
                        forall|j: int| 0 <= j < i ==> (#[trigger] mv[j]).0 != key@,
                    decreases n - i,
                {
                    if str_eq(m[i].0.as_str(), key) {
                        proof {
                            lemma_members_get_from(mv, key@, i as int);
                            assert(mv[i as int] == (m@[i as int].0@, m@[i as int].1@));
                            let sub = mv.subrange(i as int, n as int);
                            assert(sub[0] == mv[i as int]);
                            assert(members_get(sub, key@) == Some(sub[0].1));
                        }
                        return Some(&m[i].1);
                    }
                    i = i + 1;
                }
                proof {
                    lemma_members_get_from(mv, key@, n as int);
                }
                None
            },
            _ => None,
        }
    }

    /// The text of a string value.
    pub fn as_str(&self) -> (r: Option<&str>)
        ensures
            match r {
                Some(s) => self@.as_str() == Some(s@),
                None => self@.as_str() is None,
            },
    {
        match self {
            JsonValue::String(s) => Some(s.as_str()),
            _ => None,
        }
    }

    /// Whether this is `null`.
    pub fn is_null(&self) -> (r: bool)
        ensures
            r == (self@ is Null),
    {
        match self {
            JsonValue::Null => true,
            _ => false,
        }
    }
}

/// Stores `value` under `key`: the first member with that key gets the new
/// value, or the member is appended when there is none.
pub fn members_put(members: &mut Vec<(String, JsonValue)>, key: String, value: JsonValue)
    ensures
        members_view(final(members)@) == members_insert(members_view(old(members)@), key@, value@),
{
    let n = members.len();
    let ghost mv = members_view(members@);
    let mut i: usize = 0;
    while i < n
        invariant
            n == members@.len(),
            members@ == old(members)@,
            mv == members_view(members@),
            0 <= i <= n,
            forall|j: int| 0 <= j < i ==> (#[trigger] mv[j]).0 != key@,
        decreases n - i,
    {
        if str_eq(members[i].0.as_str(), key.as_str()) {
            proof {
                lemma_members_insert_at(mv, key@, value@, i as int);
            }
            let ghost kv = key@;
            let ghost vv = value@;
            members.set(i, (key, value));
            assert(members_view(members@) =~= mv.update(i as int, (kv, vv)));
            return;
        }
        i = i + 1;
    }
    proof {
        lemma_members_insert_absent(mv, key@, value@);
    }
    let ghost kv = key@;
    let ghost vv = value@;
    members.push((key, value));
    assert(members_view(members@) =~= mv.push((kv, vv)));
}

/// The decimal text of a number: that of the integer, or the float's text.
pub open spec fn number_text(n: NumberView) -> Seq<char> {
    match n {
        NumberView::PosInt(u) => nat_digits(u as nat),
        NumberView::NegInt(i) => int_digits(i as int),
        NumberView::Float(t) => t,
    }
}

/// Whether serde_json reads the number texts `a` and `b` as equal numbers;
/// `None` when it does not read one of them as a number.
pub uninterp spec fn serde_json_numbers_equal(a: Seq<char>, b: Seq<char>) -> Option<bool>;

/// Reads both texts with `serde_json::from_str::<serde_json::Number>` and
/// compares the two numbers with `serde_json::Number`'s `==`: integers by
/// value, floats as `f64` (so `0.0` and `-0.0` are equal), an integer never
/// equal to a float. The contract claims only that the result is that
/// comparison of the two texts, `None` when one of them is not read.
#[verifier::external_body]
fn numbers_equal_as_read(a: &str, b: &str) -> (r: Option<bool>)
    ensures
        r == serde_json_numbers_equal(a@, b@),
{
    match (serde_json::from_str::<serde_json::Number>(a), serde_json::from_str::<serde_json::Number>(b)) {
        (Ok(x), Ok(y)) => Some(x == y),
        _ => None,
    }
}

/// Two numbers are equal as serde_json compares them: integers by value;
/// otherwise as serde_json reads their texts, or by text where it reads one
/// of them as no number at all.
pub open spec fn number_same(a: NumberView, b: NumberView) -> bool {
    match a {
        NumberView::PosInt(x) => match b {
            NumberView::PosInt(y) => x == y,
            NumberView::NegInt(y) => x as int == y as int,
            NumberView::Float(_) => number_float_same(a, b),
        },
        NumberView::NegInt(x) => match b {
            NumberView::PosInt(y) => x as int == y as int,
            NumberView::NegInt(y) => x == y,
            NumberView::Float(_) => number_float_same(a, b),
        },
        NumberView::Float(_) => number_float_same(a, b),
    }
}

/// Two numbers, one of them a float, compared as serde_json reads their
/// texts.
pub open spec fn number_float_same(a: NumberView, b: NumberView) -> bool {
    match serde_json_numbers_equal(number_text(a), number_text(b)) {
        Some(e) => e,
        None => number_text(a) == number_text(b),
    }
}

/// The decimal text of a number.
fn number_string(n: &JsonNumber) -> (r: String)
    ensures
        r@ == number_text(n.view_number()),
{
    match n {
        JsonNumber::PosInt(u) => u64_to_decimal(*u),
        JsonNumber::NegInt(i) => i64_to_decimal(*i),
        JsonNumber::Float(t) => t.clone(),
    }
}

fn number_eq(a: &JsonNumber, b: &JsonNumber) -> (r: bool)
    ensures
        r == number_same(a.view_number(), b.view_number()),
{
    match (a, b) {
        (JsonNumber::PosInt(x), JsonNumber::PosInt(y)) => *x == *y,
        (JsonNumber::NegInt(x), JsonNumber::NegInt(y)) => *x == *y,
        (JsonNumber::PosInt(_), JsonNumber::NegInt(y)) => {
            let ghost u = a->PosInt_0;
            if *y < 0 {
                false
            } else {
                match a {
                    JsonNumber::PosInt(x) => *x == *y as u64,
                    _ => false,
                }
            }
        },
        (JsonNumber::NegInt(x), JsonNumber::PosInt(_)) => {
            if *x < 0 {
                false
            } else {
                match b {
                    JsonNumber::PosInt(y) => *x as u64 == *y,
                    _ => false,
                }
            }
        },
        _ => {
            let ta = number_string(a);
            let tb = number_string(b);
            match numbers_equal_as_read(ta.as_str(), tb.as_str()) {
                Some(e) => e,
                None => str_eq(ta.as_str(), tb.as_str()),
            }
        },
    }
}

/// No member before position `i` has the key of the member at `i`.
pub open spec fn first_key_at(m: Seq<(Seq<char>, JsonView)>, i: int) -> bool {
    forall|k: int| 0 <= k < i ==> (#[trigger] m[k]).0 != m[i].0
}

/// Two values are equal as serde_json compares them: same kind; numbers by
/// [`number_same`]; arrays element by element; objects as maps, each key
/// standing for the first member that has it, with the same keys and equal
/// values under each.
pub open spec fn json_same(a: JsonView, b: JsonView) -> bool
    decreases a,
{
    match a {
        JsonView::Null => b is Null,
        JsonView::Bool(x) => b == JsonView::Bool(x),
        JsonView::Number(x) => match b {
            JsonView::Number(y) => number_same(x, y),
            _ => false,
        },
        JsonView::Str(x) => b == JsonView::Str(x),
        JsonView::Array(xs) => match b {
            JsonView::Array(ys) => xs.len() == ys.len() && forall|i: int|
                0 <= i < xs.len() ==> json_same(#[trigger] xs[i], ys[i]),
            _ => false,
        },
        JsonView::Object(m) => match b {
            JsonView::Object(n) => {
                &&& forall|i: int|
                    #![trigger m[i]]
                    0 <= i < m.len() && first_key_at(m, i) ==> match members_get(n, m[i].0) {
                        Some(y) => json_same(m[i].1, y),
                        None => false,
                    }
                &&& forall|j: int| #![trigger n[j]] 0 <= j < n.len() ==> members_get(m, n[j].0) is Some
            },
            _ => false,
        },
    }
}

/// A key finds a member exactly when some member has that key, and then it
/// finds the first of them.
pub proof fn lemma_members_get_some(m: Seq<(Seq<char>, JsonView)>, key: Seq<char>)
    ensures
        members_get(m, key) is Some <==> exists|i: int| 0 <= i < m.len() && (#[trigger] m[i]).0 == key,
        members_get(m, key) is Some ==> exists|i: int|
            0 <= i < m.len() && (#[trigger] m[i]).0 == key && first_key_at(m, i) && members_get(m, key) == Some(
                m[i].1,
            ),
    decreases m.len(),
{
    if m.len() > 0 {
        let t = m.drop_first();
        lemma_members_get_some(t, key);
        if m[0].0 == key {
            assert(m[0].0 == key && first_key_at(m, 0));
        } else {
            if exists|i: int| 0 <= i < m.len() && (#[trigger] m[i]).0 == key {
                let i = choose|i: int| 0 <= i < m.len() && (#[trigger] m[i]).0 == key;
                assert(t[i - 1] == m[i]);
            }
            if members_get(t, key) is Some {
                let j = choose|j: int|
                    0 <= j < t.len() && (#[trigger] t[j]).0 == key && first_key_at(t, j) && members_get(t, key)
                        == Some(t[j].1);
                assert(m[j + 1] == t[j]);
                assert forall|k: int| 0 <= k < j + 1 implies (#[trigger] m[k]).0 != m[j + 1].0 by {
                    if k > 0 {
                        assert(m[k] == t[k - 1]);
                    }
                }
                assert(first_key_at(m, j + 1));
            }
            if exists|i: int| 0 <= i < t.len() && (#[trigger] t[i]).0 == key {
                let i = choose|i: int| 0 <= i < t.len() && (#[trigger] t[i]).0 == key;
                assert(m[i + 1] == t[i]);
            }
        }
    }
}

/// serde_json's `==` on values: a string, a flag or `null` equals only
/// itself; integers are equal exactly when their values are; values of
/// different kinds are never equal; arrays are equal element by element; and
/// an object equals only an object with the same keys.
pub proof fn lemma_json_same_basics(a: JsonView, b: JsonView)
    ensures
        a is Str ==> (json_same(a, b) <==> b == a),
        a is Bool ==> (json_same(a, b) <==> b == a),
        a is Null ==> (json_same(a, b) <==> b is Null),
        json_same(a, b) ==> ((a is Number <==> b is Number) && (a is Array <==> b is Array) && (a is Object
            <==> b is Object)),
        (a is Number && a->Number_0 is PosInt && b is Number && b->Number_0 is PosInt) ==> (json_same(a, b)
            <==> a->Number_0->PosInt_0 == b->Number_0->PosInt_0),
        (a is Number && a->Number_0 is NegInt && b is Number && b->Number_0 is NegInt) ==> (json_same(a, b)
            <==> a->Number_0->NegInt_0 == b->Number_0->NegInt_0),
        (a is Number && a->Number_0 is PosInt && b is Number && b->Number_0 is NegInt) ==> (json_same(a, b)
            <==> a->Number_0->PosInt_0 as int == b->Number_0->NegInt_0 as int),
        (a is Array && b is Array) ==> (json_same(a, b) <==> (a->Array_0.len() == b->Array_0.len() && forall|i: int|
            0 <= i < a->Array_0.len() ==> json_same(#[trigger] a->Array_0[i], b->Array_0[i]))),
        a is Object && b is Object && json_same(a, b) ==> forall|key: Seq<char>|
            #[trigger] members_get(a->Object_0, key) is Some <==> members_get(b->Object_0, key) is Some,
{
    match (a, b) {
        (JsonView::Object(m), JsonView::Object(n)) => {
            if json_same(a, b) {
                assert forall|key: Seq<char>| #[trigger] members_get(m, key) is Some <==> members_get(n, key) is Some by {
                    lemma_members_get_some(m, key);
                    lemma_members_get_some(n, key);
                    if members_get(m, key) is Some {
                        let i = choose|i: int|
                            0 <= i < m.len() && (#[trigger] m[i]).0 == key && first_key_at(m, i) && members_get(m, key)
                                == Some(m[i].1);
                        assert(members_get(n, m[i].0) is Some);
                    }
                    if members_get(n, key) is Some {
                        let j = choose|j: int| 0 <= j < n.len() && (#[trigger] n[j]).0 == key;
                        assert(members_get(m, n[j].0) is Some);
                    }
                }
            }
        },
        _ => {},
    }
}

/// Whether two values are equal as serde_json's `==` compares them (see
/// [`json_same`]).
#[verifier::loop_isolation(false)]
pub fn json_eq(a: &JsonValue, b: &JsonValue) -> (r: bool)
    ensures
        r == json_same(a@, b@),
    decreases a,
{
    match a {
        JsonValue::Null => match b {
            JsonValue::Null => true,
            _ => false,
        },
        JsonValue::Bool(x) => match b {
            JsonValue::Bool(y) => *x == *y,
            _ => false,
        },
        JsonValue::Number(x) => match b {
            JsonValue::Number(y) => number_eq(x, y),
            _ => false,
        },
        JsonValue::String(x) => match b {
            JsonValue::String(y) => str_eq(x.as_str(), y.as_str()),
            _ => false,
        },
        JsonValue::Array(x) => match b {
            JsonValue::Array(y) => {
                let ghost xs = elems_view(x@);
                let ghost ys = elems_view(y@);
                if x.len() != y.len() {
                    assert(xs.len() != ys.len());
                    return false;
                }
                let n = x.len();
                let mut i: usize = 0;
                while i < n
                    invariant
                        n == x@.len(),
                        n == y@.len(),
                        0 <= i <= n,
                        forall|j: int| 0 <= j < i ==> json_same(#[trigger] xs[j], ys[j]),
                    decreases n - i,
                {
                    assert(decreases_to!(a => a->Array_0));
                    assert(decreases_to!(a->Array_0 => a->Array_0@));
                    assert(decreases_to!(a->Array_0@ => a->Array_0@[i as int]));
                    if !json_eq(&x[i], &y[i]) {
                        assert(!json_same(xs[i as int], ys[i as int]));
                        return false;
                    }
                    i = i + 1;
                }
                true
            },
            _ => false,
        },
        JsonValue::Object(x) => match b {
            JsonValue::Object(y) => {
                let ghost m = members_view(x@);
                let ghost nv = members_view(y@);
                let n = x.len();
                let mut i: usize = 0;
                while i < n
                    invariant
                        n == x@.len(),
                        m == members_view(x@),
                        nv == members_view(y@),
                        b@ == JsonView::Object(nv),
                        0 <= i <= n,
                        forall|ii: int|
                            #![trigger m[ii]]
                            0 <= ii < i && first_key_at(m, ii) ==> match members_get(nv, m[ii].0) {
                                Some(v) => json_same(m[ii].1, v),
                                None => false,
                            },
                    decreases n - i,
                {
                    let mut k: usize = 0;
                    let mut repeated = false;
                    while k < i
                        invariant
                            0 <= k <= i < n,
                            n == x@.len(),
                            m == members_view(x@),
                            !repeated ==> forall|kk: int| 0 <= kk < k ==> (#[trigger] m[kk]).0 != m[i as int].0,
                            repeated ==> !first_key_at(m, i as int),
                        decreases i - k,
                    {
                        if !repeated && str_eq(x[k].0.as_str(), x[i].0.as_str()) {
                            assert(m[k as int].0 == m[i as int].0);
                            repeated = true;
                        }
                        k = k + 1;
                    }
                    if !repeated {
                        assert(first_key_at(m, i as int));
                        assert(m[i as int] == (x@[i as int].0@, x@[i as int].1@));
                        match b.get(x[i].0.as_str()) {
                            None => {
                                assert(members_get(nv, m[i as int].0) is None);
                                return false;
                            },
                            Some(v) => {
                                assert(decreases_to!(a => a->Object_0));
                                assert(decreases_to!(a->Object_0 => a->Object_0@));
                                assert(decreases_to!(a->Object_0@ => a->Object_0@[i as int]));
                                assert(decreases_to!(a->Object_0@[i as int] => a->Object_0@[i as int].1));
                                if !json_eq(&x[i].1, v) {
                                    return false;
                                }
                            },
                        }
                    }
                    i = i + 1;
                }
                let n2 = y.len();
                let mut j: usize = 0;
                while j < n2
                    invariant
                        n2 == y@.len(),
                        m == members_view(x@),
                        nv == members_view(y@),
                        a@ == JsonView::Object(m),
                        0 <= j <= n2,
                        forall|jj: int| #![trigger nv[jj]] 0 <= jj < j ==> members_get(m, nv[jj].0) is Some,
                    decreases n2 - j,
                {
                    assert(nv[j as int] == (y@[j as int].0@, y@[j as int].1@));
                    match a.get(y[j].0.as_str()) {
                        None => {
                            assert(members_get(m, nv[j as int].0) is None);
                            return false;
                        },
                        Some(_) => {},
                    }
                    j = j + 1;
                }
                true
            },
            _ => false,
        },
    }
}

/// The view of an optional value.
pub open spec fn opt_view(o: Option<JsonValue>) -> Option<JsonView> {
    match o {
        Some(v) => Some(v@),
        None => None,
    }
}

/// The member `(key, v)` when there is a value, else no member: how a field
/// that is `None` is left out.
pub open spec fn opt_member(key: Seq<char>, v: Option<JsonView>) -> Seq<(Seq<char>, JsonView)> {
    match v {
        Some(j) => seq![(key, j)],
        None => Seq::empty(),
    }
}

/// The JSON number of a signed integer.
pub open spec fn i64_view(n: i64) -> JsonView {
    if n >= 0 {
        JsonView::Number(NumberView::PosInt(n as u64))
    } else {
        JsonView::Number(NumberView::NegInt(n))
    }
}

/// The JSON number of an unsigned integer.
pub open spec fn u64_view(n: u64) -> JsonView {
    JsonView::Number(NumberView::PosInt(n))
}


pub open spec fn opt_str_view(o: Option<String>) -> Option<JsonView> {
    match o {
        Some(s) => Some(JsonView::Str(s@)),
        None => None,
    }
}

pub open spec fn opt_bool_view(o: Option<bool>) -> Option<JsonView> {
    match o {
        Some(b) => Some(JsonView::Bool(b)),
        None => None,
    }
}

pub open spec fn opt_i64_view(o: Option<i64>) -> Option<JsonView> {
    match o {
        Some(n) => Some(i64_view(n)),
        None => None,
    }
}

pub open spec fn opt_u64_view(o: Option<u64>) -> Option<JsonView> {
    match o {
        Some(n) => Some(u64_view(n)),
        None => None,
    }
}

/// How a request field is written: text as that string, a flag as that
/// boolean, an integer as the number of the same value, a JSON value as
/// itself, and a field left `None` as nothing.
pub proof fn lemma_field_views(
    s: Option<String>,
    b: Option<bool>,
    i: Option<i64>,
    u: Option<u32>,
    w: Option<u64>,
    v: Option<JsonValue>,
)
    ensures
        s is None ==> opt_str_view(s) is None,
        s matches Some(x) ==> opt_str_view(s) == Some(JsonView::Str(x@)),
        b is None ==> opt_bool_view(b) is None,
        b matches Some(x) ==> opt_bool_view(b) == Some(JsonView::Bool(x)),
        i is None ==> opt_i64_view(i) is None,
        i matches Some(x) ==> x >= 0 ==> opt_i64_view(i) == Some(JsonView::Number(NumberView::PosInt(x as u64))),
        i matches Some(x) ==> x < 0 ==> opt_i64_view(i) == Some(JsonView::Number(NumberView::NegInt(x))),
        u is None ==> opt_u32_view(u) is None,
        u matches Some(x) ==> opt_u32_view(u) == Some(JsonView::Number(NumberView::PosInt(x as u64))),
        w is None ==> opt_u64_view(w) is None,
        w matches Some(x) ==> opt_u64_view(w) == Some(JsonView::Number(NumberView::PosInt(x))),
        v is None ==> opt_view(v) is None,
        v matches Some(x) ==> opt_view(v) == Some(x@),
{
}

/// A present field is one member under its name; an absent one is none.
pub proof fn lemma_opt_member(key: Seq<char>, j: JsonView)
    ensures
        opt_member(key, Some(j)).len() == 1,
        opt_member(key, Some(j))[0] == (key, j),
        opt_member(key, None).len() == 0,
{
}

/// A list of strings is written as the strings, in order.
pub proof fn lemma_strings_view(items: Seq<String>)
    ensures
        strings_view(items).len() == items.len(),
        forall|i: int| 0 <= i < items.len() ==> #[trigger] strings_view(items)[i] == JsonView::Str(items[i]@),
{
}

/// A string value.
pub fn json_string(s: String) -> (r: JsonValue)
    ensures
        r@ == JsonView::Str(s@),
{
    JsonValue::String(s)
}

/// The JSON number of a signed integer: non-negative ones are unsigned.
pub fn json_i64(n: i64) -> (r: JsonValue)
    ensures
        r@ == i64_view(n),
{
    if n >= 0 {
        JsonValue::Number(JsonNumber::PosInt(n as u64))
    } else {
        JsonValue::Number(JsonNumber::NegInt(n))
    }
}

/// The JSON number of an unsigned integer.
pub fn json_u64(n: u64) -> (r: JsonValue)
    ensures
        r@ == u64_view(n),
{
    JsonValue::Number(JsonNumber::PosInt(n))
}

/// Appends the member `(key, value)`.
pub fn push_member(members: &mut Vec<(String, JsonValue)>, key: &str, value: JsonValue)
    ensures
        members_view(final(members)@) == members_view(old(members)@).push((key@, value@)),
{
    let ghost before = members_view(members@);
    let ghost vv = value@;
    members.push((key.to_string(), value));
    assert(members_view(members@) =~= before.push((key@, vv)));
}

/// Appends the member `(key, value)` when there is a value.
pub fn push_opt_member(members: &mut Vec<(String, JsonValue)>, key: &str, value: Option<JsonValue>)
    ensures
        members_view(final(members)@) == members_view(old(members)@) + opt_member(key@, opt_view(value)),
{
    let ghost before = members_view(members@);
    match value {
        Some(v) => {
            push_member(members, key, v);
            assert(members_view(members@) =~= before + opt_member(key@, opt_view(value)));
        },
        None => {
            assert(members_view(members@) =~= before + opt_member(key@, opt_view(value)));
        },
    }
}

/// Optional text as an optional string value.
pub fn opt_string(o: Option<String>) -> (r: Option<JsonValue>)
    ensures
        opt_view(r) == opt_str_view(o),
{
    match o {
        Some(s) => Some(JsonValue::String(s)),
        None => None,
    }
}

/// An optional flag as an optional boolean value.
pub fn opt_bool(o: Option<bool>) -> (r: Option<JsonValue>)
    ensures
        opt_view(r) == opt_bool_view(o),
{
    match o {
        Some(b) => Some(JsonValue::Bool(b)),
        None => None,
    }
}

/// An optional signed integer as an optional number.
pub fn opt_i64(o: Option<i64>) -> (r: Option<JsonValue>)
    ensures
        opt_view(r) == opt_i64_view(o),
{
    match o {
        Some(n) => Some(json_i64(n)),
        None => None,
    }
}

/// An optional unsigned integer as an optional number.
pub fn opt_u64(o: Option<u64>) -> (r: Option<JsonValue>)
    ensures
        opt_view(r) == opt_u64_view(o),
{
    match o {
        Some(n) => Some(json_u64(n)),
        None => None,
    }
}

/// A copy of a value.
#[verifier::loop_isolation(false)]
pub fn json_clone(v: &JsonValue) -> (r: JsonValue)
    ensures
        r@ == v@,
    decreases v,
{
    match v {
        JsonValue::Null => JsonValue::Null,
        JsonValue::Bool(b) => JsonValue::Bool(*b),
        JsonValue::Number(n) => JsonValue::Number(
            match n {
                JsonNumber::PosInt(u) => JsonNumber::PosInt(*u),
                JsonNumber::NegInt(i) => JsonNumber::NegInt(*i),
                JsonNumber::Float(s) => JsonNumber::Float(s.clone()),
            },
        ),
        JsonValue::String(s) => JsonValue::String(s.clone()),
        JsonValue::Array(x) => {
            let n = x.len();
            let mut out: Vec<JsonValue> = Vec::new();
            let mut i: usize = 0;
            while i < n
                invariant
                    n == x@.len(),
                    0 <= i <= n,
                    out@.len() == i,
                    forall|j: int| 0 <= j < i ==> (#[trigger] out@[j])@ == x@[j]@,
                decreases n - i,
            {
                assert(decreases_to!(v => v->Array_0));
                assert(decreases_to!(v->Array_0 => v->Array_0@));
                assert(decreases_to!(v->Array_0@ => v->Array_0@[i as int]));
                let e = json_clone(&x[i]);
                out.push(e);
                i = i + 1;
            }
            assert(elems_view(out@) =~= elems_view(x@));
            JsonValue::Array(out)
        },
        JsonValue::Object(x) => {
            let n = x.len();
            let mut out: Vec<(String, JsonValue)> = Vec::new();
            let mut i: usize = 0;
            while i < n
                invariant
                    n == x@.len(),
                    0 <= i <= n,
                    out@.len() == i,
                    forall|j: int| 0 <= j < i ==> (#[trigger] out@[j]).0@ == x@[j].0@ && out@[j].1@ == x@[j].1@,
                decreases n - i,
            {
                assert(decreases_to!(v => v->Object_0));
                assert(decreases_to!(v->Object_0 => v->Object_0@));
                assert(decreases_to!(v->Object_0@ => v->Object_0@[i as int]));
                assert(decreases_to!(v->Object_0@[i as int] => v->Object_0@[i as int].1));
                let e = json_clone(&x[i].1);
                let k = x[i].0.clone();
                out.push((k, e));
                i = i + 1;
            }
            assert(members_view(out@) =~= members_view(x@));
            JsonValue::Object(out)
        },
    }
}

impl Clone for JsonValue {
    fn clone(&self) -> (r: Self)
        ensures
            r@ == self@,
    {
        json_clone(self)
    }
}

pub open spec fn opt_u32_view(o: Option<u32>) -> Option<JsonView> {
    match o {
        Some(n) => Some(u64_view(n as u64)),
        None => None,
    }
}

/// An optional unsigned integer as an optional number.
pub fn opt_u32(o: Option<u32>) -> (r: Option<JsonValue>)
    ensures
        opt_view(r) == opt_u32_view(o),
{
    match o {
        Some(n) => Some(json_u64(n as u64)),
        None => None,
    }
}

/// The string values of a list of strings.
pub open spec fn strings_view(s: Seq<String>) -> Seq<JsonView> {
    Seq::new(s.len(), |i: int| JsonView::Str(s[i]@))
}

/// An array of string values.
pub fn json_string_array(items: Vec<String>) -> (r: JsonValue)
    ensures
        r@ == JsonView::Array(strings_view(items@)),
{
    let ghost orig = items@;
    let mut rest = items;
    let mut out: Vec<JsonValue> = Vec::new();
    while rest.len() > 0
        invariant
            out@.len() + rest@.len() == orig.len(),
            rest@ == orig.subrange(out@.len() as int, orig.len() as int),
            forall|j: int| 0 <= j < out@.len() ==> (#[trigger] out@[j])@ == JsonView::Str(orig[j]@),
        decreases rest@.len(),
    {
        let ghost k = out@.len() as int;
        let s = rest.remove(0);
        assert(s == orig[k]);
        out.push(JsonValue::String(s));
    }
    assert(elems_view(out@) =~= strings_view(orig));
    JsonValue::Array(out)
}

/// serde_json's value type, which its parser hands back.
#[verifier::external_type_specification]
#[verifier::external_body]
pub struct ExSerdeJsonValue(serde_json::Value);

/// The value serde_json reads from the text `text`, as a [`JsonView`];
/// `None` where the text is not JSON.
pub uninterp spec fn serde_json_reads(text: Seq<char>) -> Option<JsonView>;

/// Reads JSON text with `serde_json::from_str::<serde_json::Value>`. The
/// contract claims only that the result is what serde_json reads from the
/// text (the same text always reading the same way), as a [`JsonValue`]:
/// `None` where serde_json refuses the text.
#[verifier::external_body]
pub(crate) fn parse_json(text: &str) -> (r: Option<JsonValue>)
    ensures
        opt_view(r) == serde_json_reads(text@),
{
    serde_json::from_str::<serde_json::Value>(text).ok().map(json_from_serde)
}

/// Turns a serde_json value into a [`JsonValue`] one for one: each variant
/// into its namesake, a number into the integer or float it holds (its
/// decimal text for a float), arrays and objects member by member in the
/// order serde_json keeps them. Only [`parse_json`] calls it.
#[verifier::external_body]
fn json_from_serde(v: serde_json::Value) -> JsonValue {
    match v {
        serde_json::Value::Null => JsonValue::Null,
        serde_json::Value::Bool(b) => JsonValue::Bool(b),
        serde_json::Value::Number(n) => JsonValue::Number(match (n.as_u64(), n.as_i64()) {
            (Some(u), _) => JsonNumber::PosInt(u),
            (None, Some(i)) => JsonNumber::NegInt(i),
            (None, None) => JsonNumber::Float(n.to_string()),
        }),
        serde_json::Value::String(s) => JsonValue::String(s),
        serde_json::Value::Array(a) => JsonValue::Array(a.into_iter().map(json_from_serde).collect()),
        serde_json::Value::Object(m) => JsonValue::Object(m.into_iter().map(|(k, x)| (k, json_from_serde(x))).collect()),
    }
}

} // verus!
