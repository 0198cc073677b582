use vstd::prelude::*;

verus! {

/// The raw document tree: an untyped, order-preserving JSON value.
///
/// Object member order is preserved and arrays are ordered; a key is
/// looked up first-match-wins. Numbers are carried as their decimal
/// text, so the tree itself holds no machine floating point.
pub enum JsonValue {
    Null,
    Bool(bool),
    Number(String),
    Text(String),
    Array(Vec<JsonValue>),
    Object(Vec<(String, JsonValue)>),
}

/// Mathematical mirror of `JsonValue`: strings as `Seq<char>`,
/// collections as `Seq`. All contracts speak of this form.
pub ghost enum JsonV {
    Null,
    Bool(bool),
    Number(Seq<char>),
    Text(Seq<char>),
    Array(Seq<JsonV>),
    Object(Seq<(Seq<char>, JsonV)>),
}

pub open spec fn jv_view(v: JsonValue) -> JsonV
    decreases v, 1int,
{
    match v {
        JsonValue::Null => JsonV::Null,
        JsonValue::Bool(b) => JsonV::Bool(b),
        JsonValue::Number(s) => JsonV::Number(s@),
        JsonValue::Text(s) => JsonV::Text(s@),
        JsonValue::Array(items) => JsonV::Array(arr_view(items@)),
        JsonValue::Object(pairs) => JsonV::Object(pairs_view(pairs@)),
    }
}

pub open spec fn arr_view(items: Seq<JsonValue>) -> Seq<JsonV>
    decreases items, 0int,
{
    if items.len() == 0 {
        Seq::empty()
    } else {
        seq![jv_view(items[0])] + arr_view(items.drop_first())
    }
}

pub open spec fn pairs_view(pairs: Seq<(String, JsonValue)>) -> Seq<(Seq<char>, JsonV)>
    decreases pairs, 0int,
{
    if pairs.len() == 0 {
        Seq::empty()
    } else {
        seq![(pairs[0].0@, jv_view(pairs[0].1))] + pairs_view(pairs.drop_first())
    }
}

impl View for JsonValue {
    type V = JsonV;

    open spec fn view(&self) -> JsonV {
        jv_view(*self)
    }
}

impl JsonValue {
    /// Structural copy of the tree; the copy has the same mathematical value.
    pub fn deep_copy(&self) -> (r: JsonValue)
        ensures
            r@ == self@,
        decreases *self, 1int,
    {
        match self {
            JsonValue::Null => JsonValue::Null,
            JsonValue::Bool(b) => JsonValue::Bool(*b),
            JsonValue::Number(s) => JsonValue::Number(s.clone()),
            JsonValue::Text(s) => JsonValue::Text(s.clone()),
            JsonValue::Array(items) => {
                let copy = copy_arr(items);
                proof {
                    lemma_arr_view(items@);
                    lemma_arr_view(copy@);
                    assert(arr_view(copy@) =~= arr_view(items@));
                }
                JsonValue::Array(copy)
            }
            JsonValue::Object(pairs) => {
                let copy = copy_pairs(pairs);
                proof {
                    lemma_pairs_view(pairs@);
                    lemma_pairs_view(copy@);
                    assert(pairs_view(copy@) =~= pairs_view(pairs@));
                }
                JsonValue::Object(copy)
            }
        }
    }
}

fn copy_arr(items: &Vec<JsonValue>) -> (r: Vec<JsonValue>)
    ensures
        r@.len() == items@.len(),
        forall|i: int| 0 <= i < items@.len() ==> jv_view(r@[i]) == jv_view(items@[i]),
    decreases items@, 0int,
{
    let mut r: Vec<JsonValue> = Vec::new();
    let n = items.len();
    for i in 0..n
        invariant
            n == items@.len(),
            r@.len() == i,
            forall|j: int| 0 <= j < i ==> jv_view(r@[j]) == jv_view(items@[j]),
        decreases n - i,
    {
        r.push(items[i].deep_copy());
    }
    r
}

pub(crate) fn copy_pairs(pairs: &Vec<(String, JsonValue)>) -> (r: Vec<(String, JsonValue)>)
    ensures
        r@.len() == pairs@.len(),
        forall|i: int| 0 <= i < pairs@.len()
            ==> r@[i].0@ == pairs@[i].0@ && jv_view(r@[i].1) == jv_view(pairs@[i].1),
    decreases pairs@, 0int,
{
    let mut r: Vec<(String, JsonValue)> = Vec::new();
    let n = pairs.len();
    for i in 0..n
        invariant
            n == pairs@.len(),
            r@.len() == i,
            forall|j: int| 0 <= j < i
                ==> r@[j].0@ == pairs@[j].0@ && jv_view(r@[j].1) == jv_view(pairs@[j].1),
        decreases n - i,
    {
        let key = pairs[i].0.clone();
        let value = pairs[i].1.deep_copy();
        r.push((key, value));
    }
    r
}

/// Character-for-character comparison of two string slices.
pub fn str_eq(a: &str, b: &str) -> (r: bool)
    ensures
        r == (a@ == b@),
{
    let sa: String = a.to_owned();
    let sb: String = b.to_owned();
    sa == sb
}

/// First-match lookup of `key` among the members of a JSON object.
pub open spec fn obj_get(members: Seq<(Seq<char>, JsonV)>, key: Seq<char>) -> Option<JsonV>
    decreases members.len(),
{
    if members.len() == 0 {
        None
    } else if members[0].0 == key {
        Some(members[0].1)
    } else {
        obj_get(members.drop_first(), key)
    }
}

proof fn lemma_obj_get_at(members: Seq<(Seq<char>, JsonV)>, key: Seq<char>, i: int)
    requires
        0 <= i < members.len(),
        members[i].0 == key,
        forall|j: int| 0 <= j < i ==> members[j].0 != key,
    ensures
        obj_get(members, key) == Some(members[i].1),
    decreases i,
{
    if i > 0 {
        lemma_obj_get_at(members.drop_first(), key, i - 1);
    }
}

proof fn lemma_obj_get_none(members: Seq<(Seq<char>, JsonV)>, key: Seq<char>)
    requires
        forall|j: int| 0 <= j < members.len() ==> members[j].0 != key,
    ensures
        obj_get(members, key) is None,
    decreases members.len(),
{
    if members.len() > 0 {
        lemma_obj_get_none(members.drop_first(), key);
    }
}

/// First-match lookup of `key` in an order-preserving member list.
pub fn lookup_key<'a>(pairs: &'a Vec<(String, JsonValue)>, key: &str) -> (r: Option<
    &'a JsonValue,
>)
    ensures
        match r {
            Some(v) => obj_get(pairs_view(pairs@), key@) == Some(v@) && (exists|i: int|
                0 <= i < pairs@.len() && *v == pairs@[i].1),
            None => obj_get(pairs_view(pairs@), key@) is None,
        },
{
    proof {
        lemma_pairs_view(pairs@);
    }
    let n = pairs.len();
    for i in 0..n
        invariant
            n == pairs@.len(),
            pairs_view(pairs@).len() == n,
            forall|j: int| 0 <= j < pairs@.len()
                ==> pairs_view(pairs@)[j] == (pairs@[j].0@, jv_view(pairs@[j].1)),
            forall|j: int| 0 <= j < i ==> pairs@[j].0@ != key@,
        decreases n - i,
    {
        if str_eq(pairs[i].0.as_str(), key) {
            proof {
                lemma_obj_get_at(pairs_view(pairs@), key@, i as int);
            }
            return Some(&pairs[i].1);
        }
    }
    proof {
        lemma_obj_get_none(pairs_view(pairs@), key@);
    }
    None
}

/// `arr_view` maps the sequence pointwise.
pub proof fn lemma_arr_view(items: Seq<JsonValue>)
    ensures
        arr_view(items).len() == items.len(),
        forall|i: int| 0 <= i < items.len() ==> arr_view(items)[i] == jv_view(items[i]),
    decreases items.len(),
{
    if items.len() > 0 {
        lemma_arr_view(items.drop_first());
    }
}

/// `pairs_view` maps the sequence of members pointwise.
pub proof fn lemma_pairs_view(pairs: Seq<(String, JsonValue)>)
    ensures
        pairs_view(pairs).len() == pairs.len(),
        forall|i: int| 0 <= i < pairs.len()
            ==> pairs_view(pairs)[i] == (pairs[i].0@, jv_view(pairs[i].1)),
    decreases pairs.len(),
{
    if pairs.len() > 0 {
        lemma_pairs_view(pairs.drop_first());
    }
}

} // verus!
