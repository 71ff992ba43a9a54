//! A JSON document model with objects kept sorted by key.
use vstd::prelude::*;
use serde_json::Value;

verus! {

/// A JSON number: an unsigned integer, a negative integer, or a floating-point
/// value carried by its decimal rendering.
#[derive(Clone, Debug)]
pub enum JsonNumber {
    PosInt(u64),
    NegInt(i64),
    Float(String),
}

/// A JSON value. Object members are kept in ascending key order with no key twice.
#[derive(Debug)]
pub enum JsonValue {
    Null,
    Bool(bool),
    Number(JsonNumber),
    Str(String),
    Array(Vec<JsonValue>),
    Object(Vec<(String, JsonValue)>),
}

/// The mathematical form of a JSON number.
pub enum NumberModel {
    PosInt(nat),
    NegInt(int),
    Float(Seq<char>),
}

/// The mathematical form of a JSON value.
pub enum JsonModel {
    Null,
    Bool(bool),
    Number(NumberModel),
    Str(Seq<char>),
    Array(Seq<JsonModel>),
    Object(Seq<(Seq<char>, JsonModel)>),
}

impl JsonNumber {
    pub open spec fn model(&self) -> NumberModel {
        match self {
            JsonNumber::PosInt(u) => NumberModel::PosInt(*u as nat),
            JsonNumber::NegInt(i) => NumberModel::NegInt(*i as int),
            JsonNumber::Float(s) => NumberModel::Float(s@),
        }
    }
}

impl JsonValue {
    pub open spec fn model(&self) -> JsonModel
        decreases self,
    {
        match self {
            JsonValue::Null => JsonModel::Null,
            JsonValue::Bool(b) => JsonModel::Bool(*b),
            JsonValue::Number(n) => JsonModel::Number(n.model()),
            JsonValue::Str(s) => JsonModel::Str(s@),
            JsonValue::Array(v) => JsonModel::Array(
                Seq::new(v@.len(), |i: int| if 0 <= i < v@.len() { v@[i].model() } else { JsonModel::Null }),
            ),
            JsonValue::Object(m) => JsonModel::Object(
                Seq::new(m@.len(), |i: int| if 0 <= i < m@.len() { (m@[i].0@, m@[i].1.model()) } else { (Seq::empty(), JsonModel::Null) }),
            ),
        }
    }
}

impl JsonNumber {
    /// A copy of this number.
    pub fn copy(&self) -> (r: JsonNumber)
        ensures
            r.model() == self.model(),
    {
        match self {
            JsonNumber::PosInt(u) => JsonNumber::PosInt(*u),
            JsonNumber::NegInt(i) => JsonNumber::NegInt(*i),
            JsonNumber::Float(s) => JsonNumber::Float(s.clone()),
        }
    }
}

/// The position of the first member named `key`, if any.
#[verifier::opaque]
pub open spec fn member_index(members: Seq<(Seq<char>, JsonModel)>, key: Seq<char>) -> Option<int> {
    if exists|i: int| 0 <= i < members.len() && #[trigger] members[i].0 == key {
        Some(choose|i: int|
            0 <= i < members.len() && members[i].0 == key && forall|j: int|
                0 <= j < i ==> #[trigger] members[j].0 != key)
    } else {
        None
    }
}

/// The value of the first member named `key` of an object; nothing for other values.
pub open spec fn lookup(v: JsonModel, key: Seq<char>) -> Option<JsonModel> {
    match v {
        JsonModel::Object(members) => match member_index(members, key) {
            Some(i) => Some(members[i].1),
            None => None,
        },
        _ => None,
    }
}

impl JsonValue {
    /// A deep copy of this value.
    pub fn copy(&self) -> (r: JsonValue)
        ensures
            r.model() == self.model(),
        decreases self,
    {
        match self {
            JsonValue::Null => JsonValue::Null,
            JsonValue::Bool(b) => JsonValue::Bool(*b),
            JsonValue::Number(n) => JsonValue::Number(n.copy()),
            JsonValue::Str(s) => JsonValue::Str(s.clone()),
            JsonValue::Array(items) => {
                let mut out: Vec<JsonValue> = Vec::new();
                let mut i: usize = 0;
                while i < items.len()
                    invariant
                        i <= items@.len(),
                        *self == JsonValue::Array(*items),
                        out@.len() == i,
                        forall|k: int| 0 <= k < i ==> #[trigger] out@[k].model() == items@[k].model(),
                    decreases items@.len() - i,
                {
                    assert(decreases_to!(*self => self->Array_0));
                    assert(decreases_to!(*items => items@));
                    assert(decreases_to!(items@ => items@[i as int]));
                    out.push(items[i].copy());
                    i = i + 1;
                }
                let r = JsonValue::Array(out);
                assert forall|k: int| 0 <= k < out@.len() implies r.model()->Array_0[k]
                    == #[trigger] self.model()->Array_0[k] by {
                    assert(out@[k].model() == items@[k].model());
                }
                assert(r.model()->Array_0 =~= self.model()->Array_0);
                r
            },
            JsonValue::Object(members) => {
                let mut out: Vec<(String, JsonValue)> = Vec::new();
                let mut i: usize = 0;
                while i < members.len()
                    invariant
                        i <= members@.len(),
                        *self == JsonValue::Object(*members),
                        out@.len() == i,
                        forall|k: int|
                            0 <= k < i ==> (#[trigger] out@[k]).0@ == members@[k].0@ && out@[k].1.model()
                                == members@[k].1.model(),
                    decreases members@.len() - i,
                {
                    assert(decreases_to!(*self => self->Object_0));
                    assert(decreases_to!(*members => members@));
                    assert(decreases_to!(members@ => members@[i as int]));
                    assert(decreases_to!(members@[i as int] => members@[i as int].1));
                    let key = members[i].0.clone();
                    let value = members[i].1.copy();
                    let ghost before = out@;
                    out.push((key, value));
                    assert(forall|k: int| 0 <= k < i ==> out@[k] == before[k]);
                    i = i + 1;
                }
                let r = JsonValue::Object(out);
                assert(r.model()->Object_0 =~= self.model()->Object_0);
                r
            },
        }
    }

    /// Whether this value is an object.
    pub fn is_object(&self) -> (b: bool)
        ensures
            b == (self.model() is Object),
    {
        match self {
            JsonValue::Object(_) => true,
            _ => false,
        }
    }

    /// The value of the first member named `key`, when this value is an object that has one.
    pub fn get(&self, key: &str) -> (r: Option<&JsonValue>)
        ensures
            match r {
                Some(v) => lookup(self.model(), key@) == Some(v.model()),
                None => lookup(self.model(), key@) is None,
            },
    {
        match self {
            JsonValue::Object(members) => {
                let ghost ms = self.model()->Object_0;
                let mut i: usize = 0;
                while i < members.len()
                    invariant
                        i <= members@.len(),
                        ms == self.model()->Object_0,
                        self.model() is Object,
                        ms.len() == members@.len(),
                        forall|k: int| 0 <= k < members@.len() ==> #[trigger] ms[k] == (members@[k].0@, members@[k].1.model()),
                        forall|j: int| 0 <= j < i ==> #[trigger] ms[j].0 != key@,
                    decreases members@.len() - i,
                {
                    if crate::text::str_equal(members[i].0.as_str(), key) {
                        assert(ms[i as int].0 == key@);
                        proof {
                            reveal(member_index);
                        }
                        let ghost idx = member_index(ms, key@);
                        assert(idx is Some);
                        assert(idx == Some(i as int)) by {
                            let c = idx->0;
                            if c < i {
                                assert(ms[c].0 != key@);
                            }
                            if c > i {
                                assert(ms[i as int].0 == key@);
                            }
                        }
                        return Some(&members[i].1);
                    }
                    i = i + 1;
                }
                assert(member_index(ms, key@) is None) by {
                    reveal(member_index);
                }
                None
            },
            _ => None,
        }
    }
}

/// The models of a list of object members.
pub open spec fn members_model(ms: Seq<(String, JsonValue)>) -> Seq<(Seq<char>, JsonModel)> {
    Seq::new(ms.len(), |i: int| (ms[i].0@, ms[i].1.model()))
}

/// Appends the member `key: value` to a list of object members.
pub fn push_member(members: &mut Vec<(String, JsonValue)>, key: &str, value: JsonValue)
    ensures
        members_model(final(members)@) == members_model(old(members)@).push((key@, value.model())),
{
    let ghost before = members@;
    members.push((crate::text::owned(key), value));
    assert(members_model(members@) =~= members_model(before).push((key@, value.model())));
}

/// The object with the given members, in the given order.
pub fn object(members: Vec<(String, JsonValue)>) -> (v: JsonValue)
    ensures
        v.model() == JsonModel::Object(members_model(members@)),
{
    let v = JsonValue::Object(members);
    assert(v.model()->Object_0 =~= members_model(members@));
    v
}

/// A JSON string holding a copy of `s`.
pub fn text(s: &str) -> (v: JsonValue)
    ensures
        v.model() == JsonModel::Str(s@),
{
    JsonValue::Str(crate::text::owned(s))
}

/// A JSON string for `Some`, null for `None`.
pub fn text_or_null(s: Option<String>) -> (v: JsonValue)
    ensures
        v.model() == match s {
            Some(t) => JsonModel::Str(t@),
            None => JsonModel::Null,
        },
{
    match s {
        Some(t) => JsonValue::Str(t),
        None => JsonValue::Null,
    }
}

/// The JSON model of an optional string: the string, or null.
pub open spec fn text_or_null_model(s: Option<Seq<char>>) -> JsonModel {
    match s {
        Some(t) => JsonModel::Str(t),
        None => JsonModel::Null,
    }
}

/// Whether `a` sorts strictly before `b`, character by character (the order of
/// `String` keys in a JSON object map).
pub open spec fn key_less(a: Seq<char>, b: Seq<char>) -> bool
    decreases a.len(),
{
    if b.len() == 0 {
        false
    } else if a.len() == 0 {
        true
    } else if a[0] != b[0] {
        (a[0] as u32) < (b[0] as u32)
    } else {
        key_less(a.drop_first(), b.drop_first())
    }
}

/// Whether member keys are in strictly ascending order (so none occurs twice).
pub open spec fn keys_sorted(ms: Seq<(Seq<char>, JsonModel)>) -> bool {
    forall|i: int, j: int| 0 <= i < j < ms.len() ==> key_less(#[trigger] ms[i].0, #[trigger] ms[j].0)
}

/// `key_less` is irreflexive.
pub proof fn lemma_key_less_irreflexive(a: Seq<char>)
    ensures
        !key_less(a, a),
    decreases a.len(),
{
    if a.len() > 0 {
        lemma_key_less_irreflexive(a.drop_first());
    }
}

/// `key_less` is transitive.
pub proof fn lemma_key_less_transitive(a: Seq<char>, b: Seq<char>, c: Seq<char>)
    requires
        key_less(a, b),
        key_less(b, c),
    ensures
        key_less(a, c),
    decreases a.len(),
{
    if a.len() > 0 && b.len() > 0 && c.len() > 0 && a[0] == b[0] && b[0] == c[0] {
        lemma_key_less_transitive(a.drop_first(), b.drop_first(), c.drop_first());
    }
}

/// Of two different keys, one sorts before the other.
pub proof fn lemma_key_less_total(a: Seq<char>, b: Seq<char>)
    requires
        a != b,
    ensures
        key_less(a, b) || key_less(b, a),
    decreases a.len(),
{
    if a.len() > 0 && b.len() > 0 && a[0] == b[0] {
        assert(a.drop_first() != b.drop_first()) by {
            if a.drop_first() == b.drop_first() {
                assert(a =~= seq![a[0]] + a.drop_first());
                assert(b =~= seq![b[0]] + b.drop_first());
            }
        }
        lemma_key_less_total(a.drop_first(), b.drop_first());
    } else if a.len() == 0 && b.len() == 0 {
        assert(a =~= b);
    } else if a.len() > 0 && b.len() > 0 {
        vstd::utf8::char_u32_cast(a[0], a[0] as u32);
        vstd::utf8::char_u32_cast(b[0], b[0] as u32);
        assert((a[0] as u32) != (b[0] as u32));
    }
}

/// Whether `a` sorts strictly before `b`.
pub fn key_before(a: &str, b: &str) -> (r: bool)
    ensures
        r == key_less(a@, b@),
{
    let x = crate::text::to_chars(a);
    let y = crate::text::to_chars(b);
    let mut i: usize = 0;
    assert(x@.skip(0) =~= x@);
    assert(y@.skip(0) =~= y@);
    while i < x.len() && i < y.len()
        invariant
            x@ == a@,
            y@ == b@,
            i <= x@.len(),
            i <= y@.len(),
            key_less(a@, b@) == key_less(x@.skip(i as int), y@.skip(i as int)),
        decreases x.len() - i,
    {
        assert(x@.skip(i as int)[0] == x@[i as int]);
        assert(y@.skip(i as int)[0] == y@[i as int]);
        if x[i] != y[i] {
            return (x[i] as u32) < (y[i] as u32);
        }
        assert(x@.skip(i as int).drop_first() =~= x@.skip((i + 1) as int));
        assert(y@.skip(i as int).drop_first() =~= y@.skip((i + 1) as int));
        i = i + 1;
    }
    i < y.len()
}

/// The members after putting `key: value` in its sorted place, replacing a member of
/// the same name (what inserting into a JSON object map does).
pub open spec fn inserted(ms: Seq<(Seq<char>, JsonModel)>, key: Seq<char>, value: JsonModel) -> Seq<
    (Seq<char>, JsonModel),
>
    decreases ms.len(),
{
    if ms.len() == 0 {
        seq![(key, value)]
    } else if key == ms[0].0 {
        seq![(key, value)] + ms.drop_first()
    } else if key_less(key, ms[0].0) {
        seq![(key, value)] + ms
    } else {
        seq![ms[0]] + inserted(ms.drop_first(), key, value)
    }
}

/// `key_less` never holds both ways.
pub proof fn lemma_key_less_asymmetric(a: Seq<char>, b: Seq<char>)
    requires
        key_less(a, b),
    ensures
        !key_less(b, a),
{
    if key_less(b, a) {
        lemma_key_less_transitive(a, b, a);
        lemma_key_less_irreflexive(a);
    }
}

/// Where `inserted` puts a key: after the members whose keys sort before it, in place
/// of a member with the same key, else before the rest.
pub proof fn lemma_inserted_at(ms: Seq<(Seq<char>, JsonModel)>, key: Seq<char>, value: JsonModel, i: int)
    requires
        0 <= i <= ms.len(),
        forall|j: int| 0 <= j < i ==> key_less(#[trigger] ms[j].0, key),
        i < ms.len() ==> !key_less(ms[i].0, key),
    ensures
        inserted(ms, key, value) == ms.take(i) + seq![(key, value)] + if i < ms.len() && ms[i].0
            == key {
            ms.skip(i + 1)
        } else {
            ms.skip(i)
        },
    decreases i,
{
    if i == 0 {
        if ms.len() > 0 && ms[0].0 != key {
            lemma_key_less_total(ms[0].0, key);
        }
        assert(ms.take(0) =~= Seq::<(Seq<char>, JsonModel)>::empty());
        assert(ms.skip(1) =~= ms.drop_first());
        assert(ms.skip(0) =~= ms);
    } else {
        assert(key_less(ms[0].0, key));
        lemma_key_less_irreflexive(key);
        lemma_key_less_asymmetric(ms[0].0, key);
        let rest = ms.drop_first();
        assert forall|j: int| 0 <= j < i - 1 implies key_less(#[trigger] rest[j].0, key) by {
            assert(rest[j] == ms[j + 1]);
        }
        lemma_inserted_at(rest, key, value, i - 1);
        assert(ms.take(i) =~= seq![ms[0]] + rest.take(i - 1));
        assert(ms.skip(i) =~= rest.skip(i - 1));
        if i < ms.len() {
            assert(ms.skip(i + 1) =~= rest.skip(i));
        }
    }
}

/// Puts `key: value` into the members in its sorted place, replacing a member of the
/// same name.
pub fn insert_member(members: &mut Vec<(String, JsonValue)>, key: String, value: JsonValue)
    ensures
        members_model(final(members)@) == inserted(members_model(old(members)@), key@, value.model()),
{
    let ghost ms = members_model(members@);
    let mut i: usize = 0;
    while i < members.len() && key_before(members[i].0.as_str(), key.as_str())
        invariant
            i <= members@.len(),
            ms == members_model(members@),
            forall|j: int| 0 <= j < i ==> key_less(#[trigger] ms[j].0, key@),
        decreases members@.len() - i,
    {
        i = i + 1;
    }
    proof {
        lemma_inserted_at(ms, key@, value.model(), i as int);
    }
    let ghost k = key@;
    let ghost vm = value.model();
    if i < members.len() && crate::text::str_equal(members[i].0.as_str(), key.as_str()) {
        members.set(i, (key, value));
        assert(members_model(members@) =~= ms.take(i as int) + seq![(k, vm)] + ms.skip(i + 1));
    } else {
        members.insert(i, (key, value));
        assert(members_model(members@) =~= ms.take(i as int) + seq![(k, vm)] + ms.skip(i as int));
    }
}

/// The position at which `inserted` places the new member; no member before it
/// has the same key.
proof fn lemma_inserted_position(ms: Seq<(Seq<char>, JsonModel)>, key: Seq<char>, value: JsonModel) -> (p: int)
    ensures
        0 <= p < inserted(ms, key, value).len(),
        inserted(ms, key, value)[p] == (key, value),
        forall|j: int| 0 <= j < p ==> #[trigger] inserted(ms, key, value)[j].0 != key,
    decreases ms.len(),
{
    if ms.len() == 0 || key == ms[0].0 || key_less(key, ms[0].0) {
        0
    } else {
        let q = lemma_inserted_position(ms.drop_first(), key, value);
        let r = inserted(ms, key, value);
        assert forall|j: int| 0 <= j < q + 1 implies #[trigger] r[j].0 != key by {
            if j > 0 {
                assert(r[j] == inserted(ms.drop_first(), key, value)[j - 1]);
            }
        }
        q + 1
    }
}

/// Reading a key back after inserting it: the lookup of `key` in an object whose
/// members went through `inserted` gives the inserted value.
pub proof fn lemma_lookup_after_insert(ms: Seq<(Seq<char>, JsonModel)>, key: Seq<char>, value: JsonModel)
    ensures
        lookup(JsonModel::Object(inserted(ms, key, value)), key) == Some(value),
{
    reveal(member_index);
    let r = inserted(ms, key, value);
    let p = lemma_inserted_position(ms, key, value);
    assert(r[p].0 == key);
    let i = choose|i: int|
        0 <= i < r.len() && r[i].0 == key && forall|j: int| 0 <= j < i ==> #[trigger] r[j].0 != key;
    assert(i == p) by {
        if i < p {
            assert(r[i].0 != key);
        } else if i > p {
            assert(r[p].0 != key);
        }
    }
}

/// Where the first member named `key` sits in a list with one more member in front.
proof fn lemma_member_index_cons(
    x: (Seq<char>, JsonModel),
    ms: Seq<(Seq<char>, JsonModel)>,
    key: Seq<char>,
)
    ensures
        member_index(seq![x] + ms, key) == if x.0 == key {
            Some(0int)
        } else {
            match member_index(ms, key) {
                Some(i) => Some(i + 1),
                None => None,
            }
        },
{
    reveal(member_index);
    let r = seq![x] + ms;
    if x.0 == key {
        assert(r[0].0 == key);
        let i = choose|i: int|
            0 <= i < r.len() && r[i].0 == key && forall|j: int| 0 <= j < i ==> #[trigger] r[j].0 != key;
        assert(i == 0) by {
            if i > 0 {
                assert(r[0].0 != key);
            }
        }
    } else {
        if exists|i: int| 0 <= i < ms.len() && #[trigger] ms[i].0 == key {
            let m = choose|i: int|
                0 <= i < ms.len() && ms[i].0 == key && forall|j: int| 0 <= j < i ==> #[trigger] ms[j].0 != key;
            let w = choose|i: int| 0 <= i < ms.len() && #[trigger] ms[i].0 == key;
            assert(r[w + 1].0 == key);
            let i = choose|i: int|
                0 <= i < r.len() && r[i].0 == key && forall|j: int| 0 <= j < i ==> #[trigger] r[j].0 != key;
            assert(exists|i: int| 0 <= i < ms.len() && ms[i].0 == key && forall|j: int|
                0 <= j < i ==> #[trigger] ms[j].0 != key) by {
                let f = first_index(ms, key, w);
            }
            assert(forall|j: int| 0 <= j < m + 1 ==> #[trigger] r[j].0 != key || j == m + 1) by {
                assert forall|j: int| 0 <= j < m + 1 implies #[trigger] r[j].0 != key by {
                    if j > 0 {
                        assert(r[j] == ms[j - 1]);
                    }
                }
            }
            assert(r[m + 1] == ms[m]);
            assert(i == m + 1) by {
                if i < m + 1 {
                    assert(i > 0);
                    assert(r[i] == ms[i - 1]);
                } else if i > m + 1 {
                    assert(r[m + 1].0 != key);
                }
            }
        } else {
            assert forall|i: int| 0 <= i < r.len() implies #[trigger] r[i].0 != key by {
                if i > 0 {
                    assert(r[i] == ms[i - 1]);
                }
            }
        }
    }
}

/// Where the first member named `key` sits in a list with one more member at the end.
pub proof fn lemma_member_index_snoc(
    ms: Seq<(Seq<char>, JsonModel)>,
    x: (Seq<char>, JsonModel),
    key: Seq<char>,
)
    ensures
        member_index(ms.push(x), key) == match member_index(ms, key) {
            Some(i) => Some(i),
            None => if x.0 == key {
                Some(ms.len() as int)
            } else {
                None
            },
        },
    decreases ms.len(),
{
    if ms.len() == 0 {
        reveal(member_index);
        assert(ms.push(x) =~= seq![x] + ms);
        lemma_member_index_cons(x, ms, key);
    } else {
        let rest = ms.drop_first();
        assert(ms =~= seq![ms[0]] + rest);
        assert(ms.push(x) =~= seq![ms[0]] + rest.push(x));
        lemma_member_index_cons(ms[0], rest, key);
        lemma_member_index_cons(ms[0], rest.push(x), key);
        lemma_member_index_snoc(rest, x, key);
    }
}

/// A found position is in range and holds the key.
pub proof fn lemma_member_index_range(ms: Seq<(Seq<char>, JsonModel)>, key: Seq<char>)
    ensures
        match member_index(ms, key) {
            Some(i) => 0 <= i < ms.len() && ms[i].0 == key,
            None => true,
        },
{
    reveal(member_index);
    if exists|i: int| 0 <= i < ms.len() && #[trigger] ms[i].0 == key {
        let w = choose|i: int| 0 <= i < ms.len() && #[trigger] ms[i].0 == key;
        let f = first_index(ms, key, w);
    }
}

/// Some position holding `key` has a first such position.
proof fn first_index(ms: Seq<(Seq<char>, JsonModel)>, key: Seq<char>, w: int) -> (f: int)
    requires
        0 <= w < ms.len(),
        ms[w].0 == key,
    ensures
        0 <= f <= w,
        ms[f].0 == key,
        forall|j: int| 0 <= j < f ==> #[trigger] ms[j].0 != key,
    decreases w,
{
    if exists|j: int| 0 <= j < w && #[trigger] ms[j].0 == key {
        let v = choose|j: int| 0 <= j < w && #[trigger] ms[j].0 == key;
        first_index(ms, key, v)
    } else {
        w
    }
}

/// Inserting one key leaves what every other key looks up unchanged.
pub proof fn lemma_lookup_other_after_insert(
    ms: Seq<(Seq<char>, JsonModel)>,
    key: Seq<char>,
    value: JsonModel,
    other: Seq<char>,
)
    requires
        other != key,
    ensures
        lookup(JsonModel::Object(inserted(ms, key, value)), other) == lookup(JsonModel::Object(ms), other),
    decreases ms.len(),
{
    let r = inserted(ms, key, value);
    if ms.len() == 0 {
        lemma_member_index_cons((key, value), ms, other);
        assert(r =~= seq![(key, value)] + ms);
        reveal(member_index);
    } else {
        let rest = ms.drop_first();
        assert(ms =~= seq![ms[0]] + rest);
        lemma_member_index_cons(ms[0], rest, other);
        lemma_member_index_range(rest, other);
        lemma_member_index_range(ms, other);
        if key == ms[0].0 {
            lemma_member_index_cons((key, value), rest, other);
            assert(r =~= seq![(key, value)] + rest);
            match member_index(rest, other) {
                Some(i) => {
                    assert(r[i + 1] == rest[i]);
                    assert(ms[i + 1] == rest[i]);
                },
                None => {},
            }
        } else if key_less(key, ms[0].0) {
            lemma_member_index_cons((key, value), ms, other);
            assert(r =~= seq![(key, value)] + ms);
            match member_index(ms, other) {
                Some(i) => {
                    assert(r[i + 1] == ms[i]);
                },
                None => {},
            }
        } else {
            let t = inserted(rest, key, value);
            lemma_lookup_other_after_insert(rest, key, value, other);
            lemma_member_index_cons(ms[0], t, other);
            lemma_member_index_range(t, other);
            assert(r =~= seq![ms[0]] + t);
            if ms[0].0 != other {
                match member_index(rest, other) {
                    Some(i) => {
                        assert(ms[i + 1] == rest[i]);
                    },
                    None => {},
                }
                match member_index(t, other) {
                    Some(i) => {
                        assert(r[i + 1] == t[i]);
                    },
                    None => {},
                }
            }
        }
    }
}

/// Inserting keeps the members in ascending key order.
pub proof fn lemma_inserted_sorted(ms: Seq<(Seq<char>, JsonModel)>, key: Seq<char>, value: JsonModel)
    requires
        keys_sorted(ms),
    ensures
        keys_sorted(inserted(ms, key, value)),
    decreases ms.len(),
{
    let r = inserted(ms, key, value);
    if ms.len() == 0 {
    } else if key == ms[0].0 {
        assert forall|i: int, j: int| 0 <= i < j < r.len() implies key_less(#[trigger] r[i].0, #[trigger] r[j].0) by {
            if i == 0 {
                assert(r[j] == ms[j]);
                assert(key_less(ms[0].0, ms[j].0));
            } else {
                assert(r[i] == ms[i]);
                assert(r[j] == ms[j]);
            }
        }
    } else if key_less(key, ms[0].0) {
        assert forall|i: int, j: int| 0 <= i < j < r.len() implies key_less(#[trigger] r[i].0, #[trigger] r[j].0) by {
            if i == 0 {
                assert(r[j] == ms[j - 1]);
                if j > 1 {
                    assert(key_less(ms[0].0, ms[j - 1].0));
                    lemma_key_less_transitive(key, ms[0].0, ms[j - 1].0);
                }
            } else {
                assert(r[i] == ms[i - 1]);
                assert(r[j] == ms[j - 1]);
            }
        }
    } else {
        lemma_key_less_total(key, ms[0].0);
        let rest = ms.drop_first();
        assert forall|i: int, j: int| 0 <= i < j < rest.len() implies key_less(#[trigger] rest[i].0, #[trigger] rest[j].0) by {
            assert(rest[i] == ms[i + 1]);
            assert(rest[j] == ms[j + 1]);
        }
        lemma_inserted_sorted(rest, key, value);
        let t = inserted(rest, key, value);
        lemma_inserted_members(rest, key, value);
        assert forall|i: int, j: int| 0 <= i < j < r.len() implies key_less(#[trigger] r[i].0, #[trigger] r[j].0) by {
            if i == 0 {
                assert(r[j] == t[j - 1]);
                if t[j - 1].0 == key {
                } else {
                    let k = choose|k: int| 0 <= k < rest.len() && rest[k] == t[j - 1];
                    assert(rest[k] == ms[k + 1]);
                    assert(key_less(ms[0].0, ms[k + 1].0));
                }
            } else {
                assert(r[i] == t[i - 1]);
                assert(r[j] == t[j - 1]);
            }
        }
    }
}

/// Every member after inserting is the new one or one of the old members.
proof fn lemma_inserted_members(ms: Seq<(Seq<char>, JsonModel)>, key: Seq<char>, value: JsonModel)
    ensures
        forall|j: int| 0 <= j < inserted(ms, key, value).len() ==> (#[trigger] inserted(ms, key, value)[j]).0
            == key || exists|k: int| 0 <= k < ms.len() && ms[k] == inserted(ms, key, value)[j],
    decreases ms.len(),
{
    let r = inserted(ms, key, value);
    if ms.len() == 0 {
    } else if key == ms[0].0 {
        assert forall|j: int| 0 <= j < r.len() implies (#[trigger] r[j]).0 == key || exists|k: int|
            0 <= k < ms.len() && ms[k] == r[j] by {
            if j > 0 {
                assert(ms[j] == r[j]);
            }
        }
    } else if key_less(key, ms[0].0) {
        assert forall|j: int| 0 <= j < r.len() implies (#[trigger] r[j]).0 == key || exists|k: int|
            0 <= k < ms.len() && ms[k] == r[j] by {
            if j > 0 {
                assert(ms[j - 1] == r[j]);
            }
        }
    } else {
        let rest = ms.drop_first();
        lemma_inserted_members(rest, key, value);
        let t = inserted(rest, key, value);
        assert forall|j: int| 0 <= j < r.len() implies (#[trigger] r[j]).0 == key || exists|k: int|
            0 <= k < ms.len() && ms[k] == r[j] by {
            if j == 0 {
                assert(ms[0] == r[0]);
            } else {
                assert(r[j] == t[j - 1]);
                if t[j - 1].0 != key {
                    let k = choose|k: int| 0 <= k < rest.len() && rest[k] == t[j - 1];
                    assert(ms[k + 1] == r[j]);
                }
            }
        }
    }
}

/// No members.
pub fn no_members() -> (m: Vec<(String, JsonValue)>)
    ensures
        members_model(m@) == Seq::<(Seq<char>, JsonModel)>::empty(),
{
    let m: Vec<(String, JsonValue)> = Vec::new();
    assert(members_model(m@) =~= Seq::empty());
    m
}

/// The models of a list of values.
pub open spec fn items_model(items: Seq<JsonValue>) -> Seq<JsonModel> {
    Seq::new(items.len(), |i: int| items[i].model())
}

/// The array of the given values, in order.
pub fn array(items: Vec<JsonValue>) -> (v: JsonValue)
    ensures
        v.model() == JsonModel::Array(items_model(items@)),
{
    let v = JsonValue::Array(items);
    assert(v.model()->Array_0 =~= items_model(items@));
    v
}

/// A number given by its decimal rendering (how fractional numbers are carried).
pub fn decimal_number(rendering: &str) -> (v: JsonValue)
    ensures
        v.model() == JsonModel::Number(NumberModel::Float(rendering@)),
{
    JsonValue::Number(JsonNumber::Float(crate::text::owned(rendering)))
}

/// `serde_json`'s value type, carried as it is.
#[verifier::external_type_specification]
#[verifier::external_body]
pub struct ExSerdeValue(serde_json::Value);

/// Converts a `serde_json` value into the library's form, variant by variant (a map
/// keeps its order, which is the key order).
#[verifier::external_body]
pub(crate) fn json_from_serde(v: &Value) -> JsonValue {
    match v {
        Value::Null => JsonValue::Null,
        Value::Bool(b) => JsonValue::Bool(*b),
        Value::Number(n) => JsonValue::Number(match (n.as_u64(), n.as_i64()) {
            (Some(u), _) => JsonNumber::PosInt(u),
            (None, Some(i)) => JsonNumber::NegInt(i),
            _ => JsonNumber::Float(n.to_string()),
        }),
        Value::String(t) => JsonValue::Str(t.clone()),
        Value::Array(a) => JsonValue::Array(a.iter().map(json_from_serde).collect()),
        Value::Object(m) => JsonValue::Object(m.iter().map(|(k, x)| (k.clone(), json_from_serde(x))).collect()),
    }
}

/// The value that `serde_json` reads from a JSON text, or nothing when it refuses
/// the text.
pub uninterp spec fn json_text_model(text: Seq<char>) -> Option<JsonModel>;

/// `serde_json::from_str` into a value: the value read from `text`, named by
/// `json_text_model`; nothing when the text is not JSON.
#[verifier::external_body]
pub(crate) fn parse_json_text(text: &str) -> (r: Option<JsonValue>)
    ensures
        match r {
            Some(v) => json_text_model(text@) == Some(v.model()),
            None => json_text_model(text@) is None,
        },
{
    serde_json::from_str::<serde_json::Value>(text).ok().map(|v| json_from_serde(&v))
}

/// The file named by an input that starts with `@`: the rest of the input.
pub fn json_input_path(input: &str) -> (r: Option<String>)
    ensures
        (r is Some) == (input@.len() > 0 && input@[0] == '@'),
        r matches Some(p) ==> p@ == input@.drop_first(),
{
    let chars = crate::text::to_chars(input);
    if chars.len() == 0 || chars[0] != '@' {
        return None;
    }
    let mut path = String::new();
    let mut i: usize = 1;
    while i < chars.len()
        invariant
            1 <= i <= chars@.len(),
            chars@ == input@,
            path@ == chars@.subrange(1, i as int),
        decreases chars@.len() - i,
    {
        crate::text::push_char(&mut path, chars[i]);
        i = i + 1;
        assert(path@ =~= chars@.subrange(1, i as int));
    }
    assert(chars@.subrange(1, chars@.len() as int) =~= input@.drop_first());
    Some(path)
}

/// Why JSON input could not be read.
#[derive(Debug, PartialEq, Eq, Structural)]
pub enum JsonInputError {
    /// The input names a file (`@path`) that could not be read.
    FileNotFound,
    /// The text read from the named file is not JSON.
    InvalidFileJson,
    /// The inline text is not JSON.
    InvalidJson,
}

/// The value of JSON input: inline JSON text, or, for `@path`, the text of that file
/// (`file_text`: what was read from it, if it could be read).
pub fn parse_json_input(input: &str, file_text: Option<String>) -> (r: Result<JsonValue, JsonInputError>)
    ensures
        input@.len() > 0 && input@[0] == '@' ==> match file_text {
            None => r == Err::<JsonValue, JsonInputError>(JsonInputError::FileNotFound),
            Some(t) => match json_text_model(t@) {
                Some(m) => r matches Ok(v) && v.model() == m,
                None => r == Err::<JsonValue, JsonInputError>(JsonInputError::InvalidFileJson),
            },
        },
        !(input@.len() > 0 && input@[0] == '@') ==> match json_text_model(input@) {
            Some(m) => r matches Ok(v) && v.model() == m,
            None => r == Err::<JsonValue, JsonInputError>(JsonInputError::InvalidJson),
        },
{
    match json_input_path(input) {
        Some(_) => match file_text {
            None => Err(JsonInputError::FileNotFound),
            Some(t) => match parse_json_text(t.as_str()) {
                Some(v) => Ok(v),
                None => Err(JsonInputError::InvalidFileJson),
            },
        },
        None => match parse_json_text(input) {
            Some(v) => Ok(v),
            None => Err(JsonInputError::InvalidJson),
        },
    }
}

/// A non-negative integer.
pub fn uint(n: u64) -> (v: JsonValue)
    ensures
        v.model() == JsonModel::Number(NumberModel::PosInt(n as nat)),
{
    JsonValue::Number(JsonNumber::PosInt(n))
}

} // verus!
