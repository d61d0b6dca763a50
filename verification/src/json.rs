//! A JSON document model: the values that queries carry as expression
//! values and that the command protocol exchanges.  Numbers are held as their
//! numeral text, so that no precision is lost and no floating point is needed.

use vstd::prelude::*;

verus! {

/// A JSON value.
#[derive(Debug)]
pub enum JsonValue {
    Null,
    Bool(bool),
    /// A number, held as its JSON numeral text.
    Number(String),
    Str(String),
    Array(Vec<JsonValue>),
    /// An object: its members in order, each key at most once.
    Object(Vec<(String, JsonValue)>),
}

/// The mathematical content of a JSON value.
pub ghost enum JsonModel {
    Null,
    Bool(bool),
    Number(Seq<char>),
    Str(Seq<char>),
    Array(Seq<JsonModel>),
    Object(Seq<(Seq<char>, JsonModel)>),
}

impl JsonValue {
    /// The model of this value.
    pub open spec fn model(self) -> JsonModel
        decreases self,
    {
        match self {
            JsonValue::Null => JsonModel::Null,
            JsonValue::Bool(b) => JsonModel::Bool(b),
            JsonValue::Number(n) => JsonModel::Number(n@),
            JsonValue::Str(s) => JsonModel::Str(s@),
            JsonValue::Array(items) => JsonModel::Array(models_of(items@)),
            JsonValue::Object(members) => JsonModel::Object(members_model(members@)),
        }
    }
}

/// The models of a sequence of values, in order.
pub open spec fn models_of(items: Seq<JsonValue>) -> Seq<JsonModel>
    decreases items,
{
    if items.len() == 0 {
        Seq::empty()
    } else {
        models_of(items.drop_last()).push(items.last().model())
    }
}

/// The models of an object's members, in order.
pub open spec fn members_model(members: Seq<(String, JsonValue)>) -> Seq<(Seq<char>, JsonModel)>
    decreases members,
{
    if members.len() == 0 {
        Seq::empty()
    } else {
        members_model(members.drop_last()).push((members.last().0@, members.last().1.model()))
    }
}

impl View for JsonValue {
    type V = JsonModel;

    open spec fn view(&self) -> JsonModel {
        self.model()
    }
}

} // verus!

verus! {

/// `members[i]` is the first member whose key is `key`.
pub open spec fn first_key_at(members: Seq<(String, JsonValue)>, key: Seq<char>, i: int) -> bool {
    &&& 0 <= i < members.len()
    &&& members[i].0@ == key
    &&& forall|j: int| 0 <= j < i ==> members[j].0@ != key
}

/// No member of `members` has the key `key`.
pub open spec fn lacks_key(members: Seq<(String, JsonValue)>, key: Seq<char>) -> bool {
    forall|j: int| 0 <= j < members.len() ==> members[j].0@ != key
}

/// `after` is `before` with member `key` set to `value`: the first member with
/// that key takes the value in place, or, when there is none, the member is
/// added at the end.
pub open spec fn member_set(
    before: Seq<(String, JsonValue)>,
    key: Seq<char>,
    value: JsonValue,
    after: Seq<(String, JsonValue)>,
) -> bool {
    ||| exists|i: int| first_key_at(before, key, i) && after == before.update(i, (before[i].0, value))
    ||| {
        &&& lacks_key(before, key)
        &&& after.len() == before.len() + 1
        &&& after.drop_last() == before
        &&& after.last().0@ == key
        &&& after.last().1 == value
    }
}

/// The position of the first member with key `key`, if any.
pub fn find_member(members: &Vec<(String, JsonValue)>, key: &str) -> (r: Option<usize>)
    ensures
        match r {
            Some(i) => first_key_at(members@, key@, i as int),
            None => lacks_key(members@, key@),
        },
{
    let k = String::from_str(key);
    let mut i: usize = 0;
    while i < members.len()
        invariant
            0 <= i <= members@.len(),
            k@ == key@,
            forall|j: int| 0 <= j < i ==> members@[j].0@ != key@,
        decreases members@.len() - i,
    {
        if members[i].0 == k {
            return Some(i);
        }
        i = i + 1;
    }
    None
}

/// Sets member `key` to `value`: the first member with that key gets the new
/// value in place; when there is none, the member is added at the end.
pub fn insert_member(members: &mut Vec<(String, JsonValue)>, key: String, value: JsonValue)
    ensures
        member_set(old(members)@, key@, value, final(members)@),
{
    match find_member(members, key.as_str()) {
        Some(i) => {
            let ghost before = members@;
            let (k, _old_value) = members.remove(i);
            members.insert(i, (k, value));
            assert(members@ =~= before.update(i as int, (before[i as int].0, value)));
        },
        None => {
            let ghost before = members@;
            members.push((key, value));
            assert(members@.drop_last() =~= before);
        },
    }
}

/// The value of member `key` of a model object: that of its first member
/// with the key; `None` when there is none or the value is not an object.
pub open spec fn model_get(v: JsonModel, key: Seq<char>) -> Option<JsonModel> {
    match v {
        JsonModel::Object(ms) => if exists|i: int| model_first_key_at(ms, key, i) {
            Some(ms[choose|i: int| model_first_key_at(ms, key, i)].1)
        } else {
            None
        },
        _ => None,
    }
}

/// There is only one first member with a key.
pub proof fn lemma_model_first_unique(ms: Seq<(Seq<char>, JsonModel)>, key: Seq<char>, i: int, j: int)
    requires
        model_first_key_at(ms, key, i),
        model_first_key_at(ms, key, j),
    ensures
        i == j,
{
    if i < j {
        assert(ms[i].0 != key);
    } else if j < i {
        assert(ms[j].0 != key);
    }
}

/// The value of member `key` of an object; `None` for a value that is not an
/// object or has no such member.
pub fn get_member<'a>(value: &'a JsonValue, key: &str) -> (r: Option<&'a JsonValue>)
    ensures
        match value {
            JsonValue::Object(members) => match r {
                Some(v) => exists|i: int| first_key_at(members@, key@, i) && *v == members@[i].1,
                None => lacks_key(members@, key@),
            },
            _ => r.is_none(),
        },
        match r {
            Some(v) => model_get(value@, key@) == Some(v@),
            None => model_get(value@, key@) is None,
        },
{
    match value {
        JsonValue::Object(members) => match find_member(members, key) {
            Some(i) => {
                proof {
                    let ms = members_model(members@);
                    lemma_members_model_index(members@);
                    lemma_first_key_agrees(members@, key@, i as int);
                    assert(model_first_key_at(ms, key@, i as int));
                    let c = choose|c: int| model_first_key_at(ms, key@, c);
                    lemma_model_first_unique(ms, key@, c, i as int);
                    assert(ms[i as int] == (members@[i as int].0@, members@[i as int].1@));
                    assert(value@ == JsonModel::Object(ms));
                }
                Some(&members[i].1)
            },
            None => {
                proof {
                    let ms = members_model(members@);
                    lemma_members_model_index(members@);
                    assert forall|i: int| !model_first_key_at(ms, key@, i) by {
                        if 0 <= i < ms.len() {
                            assert(members@[i].0@ != key@);
                        }
                    }
                    assert(value@ == JsonModel::Object(ms));
                }
                None
            },
        },
        _ => None,
    }
}

/// The text of a string value; `None` for any other value.
pub fn as_str(value: &JsonValue) -> (r: Option<&str>)
    ensures
        match value {
            JsonValue::Str(s) => r.is_some() && r.unwrap()@ == s@,
            _ => r.is_none(),
        },
{
    match value {
        JsonValue::Str(s) => Some(s.as_str()),
        _ => None,
    }
}

/// Whether `ms[i]` is the first member of a model object with key `key`.
pub open spec fn model_first_key_at(ms: Seq<(Seq<char>, JsonModel)>, key: Seq<char>, i: int) -> bool {
    &&& 0 <= i < ms.len()
    &&& ms[i].0 == key
    &&& forall|j: int| 0 <= j < i ==> ms[j].0 != key
}

/// A model object's members with member `key` set to `v`: the first member
/// with that key takes the value in place, otherwise the member is appended.
pub open spec fn model_set(ms: Seq<(Seq<char>, JsonModel)>, key: Seq<char>, v: JsonModel) -> Seq<
    (Seq<char>, JsonModel),
> {
    if exists|i: int| model_first_key_at(ms, key, i) {
        let i = choose|i: int| model_first_key_at(ms, key, i);
        ms.update(i, (key, v))
    } else {
        ms.push((key, v))
    }
}

/// Setting each of `sets` in turn, starting from `ms`.
pub open spec fn model_set_all(
    ms: Seq<(Seq<char>, JsonModel)>,
    sets: Seq<(Seq<char>, JsonModel)>,
) -> Seq<(Seq<char>, JsonModel)>
    decreases sets.len(),
{
    if sets.len() == 0 {
        ms
    } else {
        model_set(model_set_all(ms, sets.drop_last()), sets.last().0, sets.last().1)
    }
}

/// The models of members, element by element.
pub proof fn lemma_members_model_index(members: Seq<(String, JsonValue)>)
    ensures
        members_model(members).len() == members.len(),
        forall|i: int|
            0 <= i < members.len() ==> #[trigger] members_model(members)[i] == (
                members[i].0@,
                members[i].1@,
            ),
    decreases members.len(),
{
    if members.len() > 0 {
        lemma_members_model_index(members.drop_last());
        assert forall|i: int| 0 <= i < members.len() implies #[trigger] members_model(members)[i]
            == (members[i].0@, members[i].1@) by {
            if i < members.len() - 1 {
                assert(members.drop_last()[i] == members[i]);
            }
        }
    }
}

/// Two ways of pinning the first member with a key agree.
proof fn lemma_first_key_agrees(members: Seq<(String, JsonValue)>, key: Seq<char>, i: int)
    ensures
        first_key_at(members, key, i) <==> model_first_key_at(members_model(members), key, i),
{
    lemma_members_model_index(members);
    let ms = members_model(members);
    if model_first_key_at(ms, key, i) {
        assert forall|j: int| 0 <= j < i implies members[j].0@ != key by {
            assert(ms[j].0 != key);
        }
    }
    if first_key_at(members, key, i) {
        assert forall|j: int| 0 <= j < i implies ms[j].0 != key by {
            assert(members[j].0@ != key);
        }
    }
}

/// What `member_set` does to the members, seen on their models.
pub proof fn lemma_member_set_model(
    before: Seq<(String, JsonValue)>,
    key: Seq<char>,
    value: JsonValue,
    after: Seq<(String, JsonValue)>,
)
    requires
        member_set(before, key, value, after),
    ensures
        members_model(after) == model_set(members_model(before), key, value@),
{
    lemma_members_model_index(before);
    lemma_members_model_index(after);
    let ms = members_model(before);
    if exists|i: int| first_key_at(before, key, i) && after == before.update(i, (before[i].0, value)) {
        let i = choose|i: int|
            first_key_at(before, key, i) && after == before.update(i, (before[i].0, value));
        lemma_first_key_agrees(before, key, i);
        let c = choose|c: int| model_first_key_at(ms, key, c);
        lemma_first_key_agrees(before, key, c);
        assert(c == i) by {
            if c < i {
                assert(before[c].0@ != key);
            } else if i < c {
                assert(ms[i].0 != key);
            }
        }
        assert(members_model(after) =~= ms.update(i, (key, value@)));
    } else {
        assert(lacks_key(before, key));
        assert forall|i: int| !model_first_key_at(ms, key, i) by {
            if 0 <= i < ms.len() {
                assert(before[i].0@ != key);
            }
        }
        assert(members_model(after) =~= ms.push((key, value@))) by {
            assert(after.drop_last() == before);
            assert forall|i: int| 0 <= i < after.len() implies #[trigger] members_model(after)[i]
                == ms.push((key, value@))[i] by {
                if i < before.len() {
                    assert(after[i] == before[i]);
                }
            }
        }
    }
}

/// An object of one member.
pub fn object1(k: &str, v: JsonValue) -> (o: JsonValue)
    ensures
        o@ == JsonModel::Object(seq![(k@, v@)]),
{
    let mut members: Vec<(String, JsonValue)> = Vec::new();
    members.push((String::from_str(k), v));
    let o = JsonValue::Object(members);
    proof {
        let m = members@;
        assert(m.drop_last() =~= Seq::<(String, JsonValue)>::empty());
        assert(members_model(m.drop_last()) =~= Seq::empty());
        assert(members_model(m) =~= seq![(k@, v@)]);
    }
    o
}

/// An object of two members.
pub fn object2(k1: &str, v1: JsonValue, k2: &str, v2: JsonValue) -> (o: JsonValue)
    ensures
        o@ == JsonModel::Object(seq![(k1@, v1@), (k2@, v2@)]),
{
    let mut members: Vec<(String, JsonValue)> = Vec::new();
    members.push((String::from_str(k1), v1));
    members.push((String::from_str(k2), v2));
    let o = JsonValue::Object(members);
    proof {
        let m = members@;
        assert(m.drop_last().drop_last() =~= Seq::<(String, JsonValue)>::empty());
        assert(members_model(m.drop_last().drop_last()) =~= Seq::empty());
        assert(members_model(m.drop_last()) =~= seq![(k1@, v1@)]);
        assert(members_model(m) =~= seq![(k1@, v1@), (k2@, v2@)]);
    }
    o
}

/// An array of two values.
pub fn array2(a: JsonValue, b: JsonValue) -> (o: JsonValue)
    ensures
        o@ == JsonModel::Array(seq![a@, b@]),
{
    let mut items: Vec<JsonValue> = Vec::new();
    items.push(a);
    items.push(b);
    proof {
        let m = items@;
        assert(m.drop_last().drop_last() =~= Seq::<JsonValue>::empty());
        assert(models_of(m.drop_last().drop_last()) =~= Seq::empty());
        assert(models_of(m.drop_last()) =~= seq![m[0]@]);
        assert(models_of(m) =~= seq![m[0]@, m[1]@]);
    }
    JsonValue::Array(items)
}

/// A copy of a JSON value with the same content.
pub fn clone_json(v: &JsonValue) -> (r: JsonValue)
    ensures
        r@ == v@,
    decreases v,
{
    match v {
        JsonValue::Null => JsonValue::Null,
        JsonValue::Bool(b) => JsonValue::Bool(*b),
        JsonValue::Number(n) => JsonValue::Number(n.clone()),
        JsonValue::Str(s) => JsonValue::Str(s.clone()),
        JsonValue::Array(items) => {
            let mut out: Vec<JsonValue> = Vec::new();
            let mut i: usize = 0;
            while i < items.len()
                invariant
                    0 <= i <= items@.len(),
                    *v == JsonValue::Array(*items),
                    models_of(out@) == models_of(items@.subrange(0, i as int)),
                decreases items@.len() - i,
            {
                proof {
                    assert(decreases_to!(*v => (*v)->Array_0));
                    assert(decreases_to!(*items => items@));
                    assert(decreases_to!(items@ => items@[i as int]));
                }
                let c = clone_json(&items[i]);
                let ghost before = out@;
                out.push(c);
                proof {
                    assert(out@.drop_last() == before);
                    assert(items@.subrange(0, i + 1).drop_last() =~= items@.subrange(0, i as int));
                }
                i = i + 1;
            }
            assert(items@.subrange(0, items@.len() as int) =~= items@);
            JsonValue::Array(out)
        },
        JsonValue::Object(members) => {
            let mut out: Vec<(String, JsonValue)> = Vec::new();
            let mut i: usize = 0;
            while i < members.len()
                invariant
                    0 <= i <= members@.len(),
                    *v == JsonValue::Object(*members),
                    members_model(out@) == members_model(members@.subrange(0, i as int)),
                decreases members@.len() - i,
            {
                proof {
                    assert(decreases_to!(*v => (*v)->Object_0));
                    assert(decreases_to!(*members => members@));
                    assert(decreases_to!(members@ => members@[i as int]));
                    assert(decreases_to!(members@[i as int] => members@[i as int].1));
                }
                let c = clone_json(&members[i].1);
                let k = members[i].0.clone();
                let ghost before = out@;
                out.push((k, c));
                proof {
                    assert(out@.drop_last() == before);
                    assert(members@.subrange(0, i + 1).drop_last() =~= members@.subrange(
                        0,
                        i as int,
                    ));
                }
                i = i + 1;
            }
            assert(members@.subrange(0, members@.len() as int) =~= members@);
            JsonValue::Object(out)
        },
    }
}

/// Reading a key gives the value of its first member.
proof fn lemma_get_first(ms: Seq<(Seq<char>, JsonModel)>, key: Seq<char>, i: int)
    requires
        model_first_key_at(ms, key, i),
    ensures
        model_get(JsonModel::Object(ms), key) == Some(ms[i].1),
{
    let c = choose|c: int| model_first_key_at(ms, key, c);
    lemma_model_first_unique(ms, key, c, i);
}

/// A key that occurs has a first occurrence.
proof fn lemma_first_occurrence(ms: Seq<(Seq<char>, JsonModel)>, key: Seq<char>, j: int)
    requires
        0 <= j < ms.len(),
        ms[j].0 == key,
    ensures
        exists|i: int| model_first_key_at(ms, key, i),
    decreases j,
{
    if exists|k: int| 0 <= k < j && ms[k].0 == key {
        let k = choose|k: int| 0 <= k < j && ms[k].0 == key;
        lemma_first_occurrence(ms, key, k);
    } else {
        assert(model_first_key_at(ms, key, j));
    }
}

/// What a write gives back: after member `key` is set to `value`, reading
/// `key` gives `value`, and reading any other key gives what it gave before.
pub proof fn lemma_set_then_get(ms: Seq<(Seq<char>, JsonModel)>, key: Seq<char>, value: JsonModel, other: Seq<char>)
    ensures
        model_get(JsonModel::Object(model_set(ms, key, value)), key) == Some(value),
        other != key ==> model_get(JsonModel::Object(model_set(ms, key, value)), other) == model_get(
            JsonModel::Object(ms),
            other,
        ),
{
    let after = model_set(ms, key, value);
    if exists|i: int| model_first_key_at(ms, key, i) {
        let i = choose|i: int| model_first_key_at(ms, key, i);
        assert(after == ms.update(i, (key, value)));
        assert(model_first_key_at(after, key, i));
        let c = choose|c: int| model_first_key_at(after, key, c);
        lemma_model_first_unique(after, key, c, i);
        assert(after[i].1 == value);
        assert(exists|x: int| model_first_key_at(after, key, x));
        assert(model_get(JsonModel::Object(after), key) == Some(after[c].1));
        if other != key {
            assert forall|j: int| model_first_key_at(after, other, j) <==> model_first_key_at(ms, other, j) by {
                if 0 <= j < ms.len() {
                    assert(forall|k: int| 0 <= k < j ==> (after[k].0 != other <==> ms[k].0 != other));
                }
            }
            if exists|j: int| model_first_key_at(ms, other, j) {
                let j1 = choose|j: int| model_first_key_at(ms, other, j);
                let j2 = choose|j: int| model_first_key_at(after, other, j);
                lemma_model_first_unique(ms, other, j1, j2);
                assert(j1 != i);
            }
        }
    } else {
        assert(after == ms.push((key, value)));
        assert forall|j: int| 0 <= j < ms.len() implies after[j].0 != key by {
            if ms[j].0 == key {
                lemma_first_occurrence(ms, key, j);
            }
        }
        assert(model_first_key_at(after, key, ms.len() as int));
        lemma_get_first(after, key, ms.len() as int);
        if other != key {
            assert forall|j: int| model_first_key_at(after, other, j) <==> model_first_key_at(ms, other, j) by {
                if 0 <= j < ms.len() {
                    assert(forall|k: int| 0 <= k < j ==> after[k] == ms[k]);
                }
            }
            if exists|j: int| model_first_key_at(ms, other, j) {
                let j1 = choose|j: int| model_first_key_at(ms, other, j);
                let j2 = choose|j: int| model_first_key_at(after, other, j);
                lemma_model_first_unique(ms, other, j1, j2);
            }
        }
    }
}

} // verus!
