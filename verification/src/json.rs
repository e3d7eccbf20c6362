//! JSON documents, as built for responses and Kubernetes objects.

use vstd::prelude::*;

verus! {

/// A JSON value. Object members keep the order they were given in.
#[derive(Debug, PartialEq)]
pub enum JsonValue {
    Null,
    Bool(bool),
    Int(i64),
    UInt(u64),
    Str(String),
    Array(Vec<JsonValue>),
    Object(Vec<(String, JsonValue)>),
}

/// A JSON value, as a model.
pub enum JsonView {
    Null,
    Bool(bool),
    Int(i64),
    UInt(u64),
    Str(Seq<char>),
    Array(Seq<JsonView>),
    Object(Seq<(Seq<char>, JsonView)>),
}

impl View for JsonValue {
    type V = JsonView;

    open spec fn view(&self) -> JsonView {
        json_view(*self)
    }
}

pub open spec fn json_view(v: JsonValue) -> JsonView
    decreases v, 0nat,
{
    match v {
        JsonValue::Null => JsonView::Null,
        JsonValue::Bool(b) => JsonView::Bool(b),
        JsonValue::Int(i) => JsonView::Int(i),
        JsonValue::UInt(u) => JsonView::UInt(u),
        JsonValue::Str(s) => JsonView::Str(s@),
        JsonValue::Array(items) => JsonView::Array(json_items_view(items@)),
        JsonValue::Object(members) => JsonView::Object(json_members_view(members@)),
    }
}

pub open spec fn json_items_view(items: Seq<JsonValue>) -> Seq<JsonView>
    decreases items, 1nat,
{
    if items.len() == 0 {
        Seq::empty()
    } else {
        seq![json_view(items[0])] + json_items_view(items.subrange(1, items.len() as int))
    }
}

pub open spec fn json_members_view(members: Seq<(String, JsonValue)>) -> Seq<(Seq<char>, JsonView)>
    decreases members, 1nat,
{
    if members.len() == 0 {
        Seq::empty()
    } else {
        seq![(members[0].0@, json_view(members[0].1))] + json_members_view(members.subrange(1, members.len() as int))
    }
}

pub proof fn lemma_json_items_view(items: Seq<JsonValue>)
    ensures
        json_items_view(items).len() == items.len(),
        forall|i: int| 0 <= i < items.len() ==> #[trigger] json_items_view(items)[i] == json_view(items[i]),
    decreases items.len(),
{
    if items.len() > 0 {
        let rest = items.subrange(1, items.len() as int);
        lemma_json_items_view(rest);
        assert forall|i: int| 0 <= i < items.len() implies #[trigger] json_items_view(items)[i] == json_view(items[i]) by {
            if i > 0 {
                assert(items[i] == rest[i - 1]);
            }
        }
    }
}

pub proof fn lemma_json_members_view(members: Seq<(String, JsonValue)>)
    ensures
        json_members_view(members).len() == members.len(),
        forall|i: int| 0 <= i < members.len() ==> #[trigger] json_members_view(members)[i] == (members[i].0@, json_view(members[i].1)),
    decreases members.len(),
{
    if members.len() > 0 {
        let rest = members.subrange(1, members.len() as int);
        lemma_json_members_view(rest);
        assert forall|i: int| 0 <= i < members.len() implies #[trigger] json_members_view(members)[i] == (members[i].0@, json_view(members[i].1)) by {
            if i > 0 {
                assert(members[i] == rest[i - 1]);
            }
        }
    }
}

/// An object with one member.
pub open spec fn single_member(key: Seq<char>, value: JsonView) -> JsonView {
    JsonView::Object(seq![(key, value)])
}

impl JsonValue {
    /// A string value.
    pub fn string(s: &str) -> (r: JsonValue)
        ensures
            r@ == JsonView::Str(s@),
    {
        JsonValue::Str(s.to_owned())
    }

    /// An object with one member.
    pub fn single(key: &str, value: JsonValue) -> (r: JsonValue)
        ensures
            r@ == single_member(key@, value@),
    {
        let mut members: Vec<(String, JsonValue)> = Vec::new();
        members.push((key.to_owned(), value));
        proof {
            lemma_json_members_view(members@);
            assert(json_members_view(members@) =~= seq![(key@, value@)]);
        }
        JsonValue::Object(members)
    }

    /// An object with two members, in the order given.
    pub fn pair(k1: &str, v1: JsonValue, k2: &str, v2: JsonValue) -> (r: JsonValue)
        ensures
            r@ == JsonView::Object(seq![(k1@, v1@), (k2@, v2@)]),
    {
        let mut members: Vec<(String, JsonValue)> = Vec::new();
        members.push((k1.to_owned(), v1));
        members.push((k2.to_owned(), v2));
        proof {
            lemma_json_members_view(members@);
            assert(json_members_view(members@) =~= seq![(k1@, v1@), (k2@, v2@)]);
        }
        JsonValue::Object(members)
    }

    /// An object with three members, in the order given.
    pub fn triple(k1: &str, v1: JsonValue, k2: &str, v2: JsonValue, k3: &str, v3: JsonValue) -> (r: JsonValue)
        ensures
            r@ == JsonView::Object(seq![(k1@, v1@), (k2@, v2@), (k3@, v3@)]),
    {
        let mut members: Vec<(String, JsonValue)> = Vec::new();
        members.push((k1.to_owned(), v1));
        members.push((k2.to_owned(), v2));
        members.push((k3.to_owned(), v3));
        proof {
            lemma_json_members_view(members@);
            assert(json_members_view(members@) =~= seq![(k1@, v1@), (k2@, v2@), (k3@, v3@)]);
        }
        JsonValue::Object(members)
    }

    /// An object with four members, in the order given.
    pub fn quad(k1: &str, v1: JsonValue, k2: &str, v2: JsonValue, k3: &str, v3: JsonValue, k4: &str, v4: JsonValue) -> (r: JsonValue)
        ensures
            r@ == JsonView::Object(seq![(k1@, v1@), (k2@, v2@), (k3@, v3@), (k4@, v4@)]),
    {
        let mut members: Vec<(String, JsonValue)> = Vec::new();
        members.push((k1.to_owned(), v1));
        members.push((k2.to_owned(), v2));
        members.push((k3.to_owned(), v3));
        members.push((k4.to_owned(), v4));
        proof {
            lemma_json_members_view(members@);
            assert(json_members_view(members@) =~= seq![(k1@, v1@), (k2@, v2@), (k3@, v3@), (k4@, v4@)]);
        }
        JsonValue::Object(members)
    }

    /// An object with five members, in the order given.
    pub fn quint(
        k1: &str, v1: JsonValue, k2: &str, v2: JsonValue, k3: &str, v3: JsonValue,
        k4: &str, v4: JsonValue, k5: &str, v5: JsonValue,
    ) -> (r: JsonValue)
        ensures
            r@ == JsonView::Object(seq![(k1@, v1@), (k2@, v2@), (k3@, v3@), (k4@, v4@), (k5@, v5@)]),
    {
        let mut members: Vec<(String, JsonValue)> = Vec::new();
        members.push((k1.to_owned(), v1));
        members.push((k2.to_owned(), v2));
        members.push((k3.to_owned(), v3));
        members.push((k4.to_owned(), v4));
        members.push((k5.to_owned(), v5));
        proof {
            lemma_json_members_view(members@);
            assert(json_members_view(members@) =~= seq![(k1@, v1@), (k2@, v2@), (k3@, v3@), (k4@, v4@), (k5@, v5@)]);
        }
        JsonValue::Object(members)
    }

    /// An array of one item.
    pub fn one_item(item: JsonValue) -> (r: JsonValue)
        ensures
            r@ == JsonView::Array(seq![item@]),
    {
        let mut items: Vec<JsonValue> = Vec::new();
        items.push(item);
        proof {
            lemma_json_items_view(items@);
            assert(json_items_view(items@) =~= seq![item@]);
        }
        JsonValue::Array(items)
    }

    /// An array of signed integers.
    pub fn int_array(values: &[i32]) -> (r: JsonValue)
        ensures
            r@ == JsonView::Array(values@.map_values(|v: i32| JsonView::Int(v as i64))),
    {
        let mut items: Vec<JsonValue> = Vec::new();
        let mut i: usize = 0;
        while i < values.len()
            invariant
                i <= values@.len(),
                items@.len() == i,
                forall|j: int| 0 <= j < i ==> (#[trigger] items@[j])@ == JsonView::Int(values@[j] as i64),
            decreases values@.len() - i,
        {
            items.push(JsonValue::Int(values[i] as i64));
            i = i + 1;
        }
        proof {
            lemma_json_items_view(items@);
            assert(json_items_view(items@) =~= values@.map_values(|v: i32| JsonView::Int(v as i64)));
        }
        JsonValue::Array(items)
    }

    /// A copy of the value.
    #[verifier::loop_isolation(false)]
    pub fn duplicate(&self) -> (r: JsonValue)
        ensures
            r@ == self@,
        decreases self,
    {
        match self {
            JsonValue::Null => JsonValue::Null,
            JsonValue::Bool(b) => JsonValue::Bool(*b),
            JsonValue::Int(i) => JsonValue::Int(*i),
            JsonValue::UInt(u) => JsonValue::UInt(*u),
            JsonValue::Str(s) => JsonValue::Str(s.clone()),
            JsonValue::Array(items) => {
                let mut out: Vec<JsonValue> = Vec::new();
                let mut i: usize = 0;
                while i < items.len()
                    invariant
                        i <= items@.len(),
                        out@.len() == i,
                        forall|j: int| 0 <= j < i ==> (#[trigger] out@[j])@ == items@[j]@,
                    decreases items@.len() - i,
                {
                    proof {
                        assert(decreases_to!(*self => *items));
                        assert(decreases_to!(*items => items@));
                        assert(decreases_to!(items@ => items@[i as int]));
                        assert(decreases_to!(*self => items@[i as int]));
                    }
                    out.push(items[i].duplicate());
                    i = i + 1;
                }
                proof {
                    lemma_json_items_view(items@);
                    lemma_json_items_view(out@);
                    assert(json_items_view(out@) =~= json_items_view(items@));
                }
                JsonValue::Array(out)
            },
            JsonValue::Object(members) => {
                let mut out: Vec<(String, JsonValue)> = Vec::new();
                let mut i: usize = 0;
                while i < members.len()
                    invariant
                        i <= members@.len(),
                        out@.len() == i,
                        forall|j: int| 0 <= j < i ==> (#[trigger] out@[j]).0@ == members@[j].0@ && out@[j].1@ == members@[j].1@,
                    decreases members@.len() - i,
                {
                    let (k, v) = &members[i];
                    proof {
                        assert(decreases_to!(*self => *members));
                        assert(decreases_to!(*members => members@));
                        assert(decreases_to!(members@ => members@[i as int]));
                        assert(decreases_to!(members@[i as int] => members@[i as int].1));
                        assert(decreases_to!(*self => members@[i as int].1));
                    }
                    out.push((k.clone(), v.duplicate()));
                    i = i + 1;
                }
                proof {
                    lemma_json_members_view(members@);
                    lemma_json_members_view(out@);
                    assert(json_members_view(out@) =~= json_members_view(members@));
                }
                JsonValue::Object(out)
            },
        }
    }
}

/// The value of the first member named `key` from position `i` on, if any.
pub open spec fn member_from(members: Seq<(Seq<char>, JsonView)>, key: Seq<char>, i: int) -> Option<JsonView>
    decreases members.len() - i,
{
    if i < 0 || i >= members.len() {
        None
    } else if members[i].0 == key {
        Some(members[i].1)
    } else {
        member_from(members, key, i + 1)
    }
}

/// The value of the first member named `key`, if any.
pub open spec fn member_of(members: Seq<(Seq<char>, JsonView)>, key: Seq<char>) -> Option<JsonView> {
    member_from(members, key, 0)
}

/// The member named `key` of an object, if the value is an object that has one.
pub open spec fn json_member(v: Option<JsonView>, key: Seq<char>) -> Option<JsonView> {
    match v {
        Some(JsonView::Object(members)) => member_of(members, key),
        _ => None,
    }
}

/// The first item of an array, if the value is a non-empty array.
pub open spec fn json_first(v: Option<JsonView>) -> Option<JsonView> {
    match v {
        Some(JsonView::Array(items)) => if items.len() > 0 { Some(items[0]) } else { None },
        _ => None,
    }
}

} // verus!
