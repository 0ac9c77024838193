//! A JSON document model, the shape every request, response and envelope
//! of the client takes.
use vstd::prelude::*;

verus! {

/// A JSON document held as plain values.
///
/// An integer that fits in `i64` is held as `Int`; any other number is held
/// as `Num`, with its decimal text (`"1.5"`, `"18446744073709551615"`), so
/// that every JSON number can be carried without floating point.
/// An object keeps its members in order; where a key occurs twice, the later
/// member is the one a lookup finds.
#[derive(Debug, PartialEq)]
pub enum JsonValue {
    Null,
    Bool(bool),
    Int(i64),
    Num(String),
    Str(String),
    Array(Vec<JsonValue>),
    Object(Vec<(String, JsonValue)>),
}

/// The mathematical meaning of a [`JsonValue`].
pub enum Json {
    Null,
    Bool(bool),
    Int(int),
    Num(Seq<char>),
    Str(Seq<char>),
    Array(Seq<Json>),
    Object(Seq<(Seq<char>, Json)>),
}

/// The meaning of a document.
pub open spec fn model(v: JsonValue) -> Json
    decreases v, 1int,
{
    match v {
        JsonValue::Null => Json::Null,
        JsonValue::Bool(b) => Json::Bool(b),
        JsonValue::Int(n) => Json::Int(n as int),
        JsonValue::Num(t) => Json::Num(t@),
        JsonValue::Str(s) => Json::Str(s@),
        JsonValue::Array(items) => Json::Array(models(items@)),
        JsonValue::Object(members) => Json::Object(member_models(members@)),
    }
}

/// The meanings of a sequence of documents, element by element.
pub open spec fn models(s: Seq<JsonValue>) -> Seq<Json>
    decreases s, 0int,
{
    if s.len() == 0 {
        Seq::empty()
    } else {
        seq![model(s[0])] + models(s.drop_first())
    }
}

/// The meanings of a sequence of object members, member by member.
pub open spec fn member_models(s: Seq<(String, JsonValue)>) -> Seq<(Seq<char>, Json)>
    decreases s, 0int,
{
    if s.len() == 0 {
        Seq::empty()
    } else {
        seq![(s[0].0@, model(s[0].1))] + member_models(s.drop_first())
    }
}

/// `models` maps element by element.
pub broadcast proof fn lemma_models(s: Seq<JsonValue>)
    ensures
        #[trigger] models(s).len() == s.len(),
        forall|i: int| #![trigger models(s)[i]] #![trigger s[i]] 0 <= i < s.len() ==> models(s)[i] == model(s[i]),
    decreases s.len(),
{
    if s.len() > 0 {
        lemma_models(s.drop_first());
        assert forall|i: int| 0 <= i < s.len() implies models(s)[i] == model(#[trigger] s[i]) by {
            if i > 0 {
                assert(s.drop_first()[i - 1] == s[i]);
            }
        }
    }
}

/// `member_models` maps member by member.
pub broadcast proof fn lemma_member_models(s: Seq<(String, JsonValue)>)
    ensures
        #[trigger] member_models(s).len() == s.len(),
        forall|i: int|
            #![trigger member_models(s)[i]]
            #![trigger s[i]]
            0 <= i < s.len() ==> member_models(s)[i] == (s[i].0@, model(s[i].1)),
    decreases s.len(),
{
    if s.len() > 0 {
        lemma_member_models(s.drop_first());
        assert forall|i: int| 0 <= i < s.len() implies member_models(s)[i] == (
        #[trigger] s[i].0@,
        model(s[i].1),
        ) by {
            if i > 0 {
                assert(s.drop_first()[i - 1] == s[i]);
            }
        }
    }
}

/// The value of the last member named `key`, if any.
pub open spec fn lookup(members: Seq<(Seq<char>, Json)>, key: Seq<char>) -> Option<Json>
    decreases members.len(),
{
    if members.len() == 0 {
        None
    } else if members.last().0 == key {
        Some(members.last().1)
    } else {
        lookup(members.drop_last(), key)
    }
}

impl Json {
    /// The member `key` of an object; `None` for a missing key or a non-object.
    pub open spec fn get(self, key: Seq<char>) -> Option<Json> {
        match self {
            Json::Object(members) => lookup(members, key),
            _ => None,
        }
    }

    /// The text of a string; `None` for any other value.
    pub open spec fn as_str(self) -> Option<Seq<char>> {
        match self {
            Json::Str(s) => Some(s),
            _ => None,
        }
    }

    /// The integer of an `i64` number; `None` for any other value.
    pub open spec fn as_int(self) -> Option<int> {
        match self {
            Json::Int(n) => Some(n),
            _ => None,
        }
    }
}

/// A string value.
pub fn json_str(s: &str) -> (r: JsonValue)
    ensures
        model(r) == Json::Str(s@),
{
    JsonValue::Str(s.to_owned())
}

/// A member `key: value` of an object.
pub fn member(key: &str, value: JsonValue) -> (r: (String, JsonValue))
    ensures
        r.0@ == key@,
        r.1 == value,
{
    (key.to_owned(), value)
}

/// An array of strings.
pub fn json_str_array(items: &Vec<String>) -> (r: JsonValue)
    ensures
        model(r) == Json::Array(Seq::new(items@.len(), |i: int| Json::Str(items@[i]@))),
{
    let mut out: Vec<JsonValue> = Vec::new();
    let mut i: usize = 0;
    while i < items.len()
        invariant
            i <= items@.len(),
            out@.len() == i,
            forall|j: int| 0 <= j < i ==> model(#[trigger] out@[j]) == Json::Str(items@[j]@),
        decreases items@.len() - i,
    {
        out.push(JsonValue::Str(items[i].clone()));
        i = i + 1;
    }
    proof {
        lemma_models(out@);
    }
    let r = JsonValue::Array(out);
    assert forall|j: int| 0 <= j < items@.len() implies models(out@)[j] == Json::Str(
        items@[j]@,
    ) by {
        assert(model(out@[j]) == Json::Str(items@[j]@));
    }
    assert(models(out@) =~= Seq::new(items@.len(), |i: int| Json::Str(items@[i]@)));
    r
}

impl JsonValue {
    /// The member `key` of an object, as `Value::get` with a string index
    /// finds it; `None` for a missing key or a non-object.
    pub fn get(&self, key: &str) -> (r: Option<&JsonValue>)
        ensures
            match r {
                Some(v) => model(*self).get(key@) == Some(model(*v)),
                None => model(*self).get(key@) is None,
            },
    {
        match self {
            JsonValue::Object(members) => {
                let ghost ms = member_models(members@);
                proof {
                    lemma_member_models(members@);
                }
                let mut i: usize = members.len();
                assert(ms.subrange(0, i as int) =~= ms);
                while i > 0
                    invariant
                        i <= members@.len(),
                        *self == JsonValue::Object(*members),
                        ms == member_models(members@),
                        ms.len() == members@.len(),
                        forall|j: int|
                            0 <= j < members@.len() ==> ms[j] == (
                            #[trigger] members@[j].0@,
                            model(members@[j].1),
                            ),
                        lookup(ms, key@) == lookup(ms.subrange(0, i as int), key@),
                    decreases i,
                {
                    let k = &members[i - 1].0;
                    let ghost pre = ms.subrange(0, i as int);
                    assert(pre.last() == ms[i - 1]);
                    assert(pre.drop_last() =~= ms.subrange(0, i - 1));
                    assert(ms[i - 1] == (members@[i - 1].0@, model(members@[i - 1].1)));
                    if str_eq(k.as_str(), key) {
                        return Some(&members[i - 1].1);
                    }
                    i = i - 1;
                }
                None
            },
            _ => None,
        }
    }

    /// The text of a string value.
    pub fn as_str(&self) -> (r: Option<&str>)
        ensures
            match r {
                Some(s) => model(*self).as_str() == Some(s@),
                None => model(*self).as_str() is None,
            },
    {
        match self {
            JsonValue::Str(s) => Some(s.as_str()),
            _ => None,
        }
    }

    /// The integer of an `i64` number.
    pub fn as_i64(&self) -> (r: Option<i64>)
        ensures
            match r {
                Some(n) => model(*self).as_int() == Some(n as int),
                None => model(*self).as_int() is None,
            },
    {
        match self {
            JsonValue::Int(n) => Some(*n),
            _ => None,
        }
    }
}

/// Whether two strings hold the same characters.
pub fn str_eq(a: &str, b: &str) -> (r: bool)
    ensures
        r == (a@ == b@),
{
    let n = a.unicode_len();
    if n != b.unicode_len() {
        return false;
    }
    let mut i: usize = 0;
    while i < n
        invariant
            n == a@.len(),
            n == b@.len(),
            i <= n,
            forall|j: int| 0 <= j < i ==> a@[j] == b@[j],
        decreases n - i,
    {
        if a.get_char(i) != b.get_char(i) {
            return false;
        }
        i = i + 1;
    }
    assert(a@ =~= b@);
    true
}

/// Two documents with the same members, element by element, have the same
/// meaning.
pub proof fn lemma_models_ext(a: Seq<JsonValue>, b: Seq<JsonValue>)
    requires
        a.len() == b.len(),
        forall|i: int| 0 <= i < a.len() ==> model(#[trigger] a[i]) == model(b[i]),
    ensures
        models(a) == models(b),
{
    lemma_models(a);
    lemma_models(b);
    assert forall|i: int| 0 <= i < a.len() implies models(a)[i] == models(b)[i] by {
        assert(model(a[i]) == model(b[i]));
    }
    assert(models(a) =~= models(b));
}

/// Object members with the same keys and meanings have the same meaning.
pub proof fn lemma_member_models_ext(a: Seq<(String, JsonValue)>, b: Seq<(String, JsonValue)>)
    requires
        a.len() == b.len(),
        forall|i: int|
            0 <= i < a.len() ==> (#[trigger] a[i]).0@ == b[i].0@ && model(a[i].1) == model(b[i].1),
    ensures
        member_models(a) == member_models(b),
{
    lemma_member_models(a);
    lemma_member_models(b);
    assert forall|i: int| 0 <= i < a.len() implies member_models(a)[i] == member_models(b)[i] by {
        assert(a[i].0@ == b[i].0@);
    }
    assert(member_models(a) =~= member_models(b));
}

impl JsonValue {
    /// A copy of the document with the same meaning.
    pub fn duplicate(&self) -> (r: JsonValue)
        ensures
            model(r) == model(*self),
        decreases *self, 1int,
    {
        match self {
            JsonValue::Null => JsonValue::Null,
            JsonValue::Bool(b) => JsonValue::Bool(*b),
            JsonValue::Int(n) => JsonValue::Int(*n),
            JsonValue::Num(t) => JsonValue::Num(t.clone()),
            JsonValue::Str(s) => JsonValue::Str(s.clone()),
            JsonValue::Array(items) => JsonValue::Array(duplicate_items(items)),
            JsonValue::Object(members) => JsonValue::Object(duplicate_members(members)),
        }
    }
}

/// Copies of documents, element by element.
pub fn duplicate_items(items: &Vec<JsonValue>) -> (r: Vec<JsonValue>)
    ensures
        r@.len() == items@.len(),
        forall|i: int| 0 <= i < items@.len() ==> model(#[trigger] r@[i]) == model(items@[i]),
        models(r@) == models(items@),
    decreases *items, 0int,
{
    let mut out: Vec<JsonValue> = Vec::new();
    let mut i: usize = 0;
    while i < items.len()
        invariant
            i <= items@.len(),
            out@.len() == i,
            forall|j: int| 0 <= j < i ==> model(#[trigger] out@[j]) == model(items@[j]),
        decreases items@.len() - i,
    {
        proof {
            assert(decreases_to!(*items => items@[i as int]));
        }
        out.push(items[i].duplicate());
        i = i + 1;
    }
    proof {
        lemma_models_ext(out@, items@);
    }
    out
}

/// Copies of object members, member by member.
pub fn duplicate_members(members: &Vec<(String, JsonValue)>) -> (r: Vec<(String, JsonValue)>)
    ensures
        member_models(r@) == member_models(members@),
    decreases *members, 0int,
{
    let mut out: Vec<(String, JsonValue)> = Vec::new();
    let mut i: usize = 0;
    while i < members.len()
        invariant
            i <= members@.len(),
            out@.len() == i,
            forall|j: int|
                0 <= j < i ==> (#[trigger] out@[j]).0@ == members@[j].0@ && model(out@[j].1)
                    == model(members@[j].1),
        decreases members@.len() - i,
    {
        proof {
            assert(decreases_to!(*members => members@[i as int].1));
        }
        let v = members[i].1.duplicate();
        out.push((members[i].0.clone(), v));
        i = i + 1;
    }
    proof {
        lemma_member_models_ext(out@, members@);
    }
    out
}

/// An object under construction, member by member.
pub struct ObjectBuilder {
    members: Vec<(String, JsonValue)>,
}

impl ObjectBuilder {
    /// The meanings of the members added so far, in order.
    pub closed spec fn members(&self) -> Seq<(Seq<char>, Json)> {
        member_models(self.members@)
    }

    /// An object with no members yet.
    pub fn new() -> (r: ObjectBuilder)
        ensures
            r.members() == Seq::<(Seq<char>, Json)>::empty(),
    {
        let r = ObjectBuilder { members: Vec::new() };
        proof {
            lemma_member_models(r.members@);
        }
        assert(r.members() =~= Seq::<(Seq<char>, Json)>::empty());
        r
    }

    /// Appends the member `key: value`.
    pub fn add(&mut self, key: &str, value: JsonValue)
        ensures
            final(self).members() == old(self).members().push((key@, model(value))),
    {
        let ghost before = self.members@;
        self.members.push((key.to_owned(), value));
        proof {
            lemma_member_models(before);
            lemma_member_models(self.members@);
            assert(self.members@[before.len() as int] == (self.members@.last().0, value));
        }
        assert(member_models(self.members@) =~= member_models(before).push((key@, model(value))));
    }

    /// The finished object.
    pub fn build(self) -> (r: JsonValue)
        ensures
            model(r) == Json::Object(self.members()),
    {
        JsonValue::Object(self.members)
    }
}

/// An array under construction, element by element.
pub struct ArrayBuilder {
    items: Vec<JsonValue>,
}

impl ArrayBuilder {
    /// The meanings of the elements added so far, in order.
    pub closed spec fn items(&self) -> Seq<Json> {
        models(self.items@)
    }

    /// An array with no elements yet.
    pub fn new() -> (r: ArrayBuilder)
        ensures
            r.items() == Seq::<Json>::empty(),
    {
        let r = ArrayBuilder { items: Vec::new() };
        proof {
            lemma_models(r.items@);
        }
        assert(r.items() =~= Seq::<Json>::empty());
        r
    }

    /// Appends an element.
    pub fn push(&mut self, value: JsonValue)
        ensures
            final(self).items() == old(self).items().push(model(value)),
    {
        let ghost before = self.items@;
        self.items.push(value);
        proof {
            lemma_models(before);
            lemma_models(self.items@);
            assert(self.items@[before.len() as int] == value);
        }
        assert(models(self.items@) =~= models(before).push(model(value)));
    }

    /// The finished array.
    pub fn build(self) -> (r: JsonValue)
        ensures
            model(r) == Json::Array(self.items()),
    {
        JsonValue::Array(self.items)
    }
}

} // verus!
