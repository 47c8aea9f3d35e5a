//! JSON values as the library reads and writes them: the shape of every
//! stored configuration is laid down here, value by value. Turning values
//! into text and back is left to the caller.

use vstd::prelude::*;
use vstd::string::StringExecFns;

use crate::text::same_text;

verus! {

/// A JSON value.
#[derive(Debug, PartialEq, Eq)]
pub enum Json {
    Null,
    Bool(bool),
    /// A whole number.
    Number(i64),
    Text(String),
    Array(Vec<Json>),
    /// The members of an object, in their order.
    Object(Vec<(String, Json)>),
}

/// A JSON value as plain values.
pub enum JsonValue {
    Null,
    Bool(bool),
    Number(int),
    Text(Seq<char>),
    Array(Seq<JsonValue>),
    Object(Seq<(Seq<char>, JsonValue)>),
}

/// What a JSON value is, as plain values.
pub open spec fn json_view(json: Json) -> JsonValue
    decreases json,
{
    match json {
        Json::Null => JsonValue::Null,
        Json::Bool(b) => JsonValue::Bool(b),
        Json::Number(n) => JsonValue::Number(n as int),
        Json::Text(t) => JsonValue::Text(t@),
        Json::Array(items) => JsonValue::Array(
            Seq::new(
                items@.len(),
                |i: int|
                    if 0 <= i < items@.len() {
                        json_view(items@[i])
                    } else {
                        JsonValue::Null
                    },
            ),
        ),
        Json::Object(members) => JsonValue::Object(
            Seq::new(
                members@.len(),
                |i: int|
                    if 0 <= i < members@.len() {
                        (members@[i].0@, json_view(members@[i].1))
                    } else {
                        (Seq::empty(), JsonValue::Null)
                    },
            ),
        ),
    }
}

impl View for Json {
    type V = JsonValue;

    open spec fn view(&self) -> JsonValue {
        json_view(*self)
    }
}

/// The items of an array as plain values.
pub open spec fn items_view(items: Seq<Json>) -> Seq<JsonValue> {
    items.map_values(|item: Json| item@)
}

/// The members of an object as plain values.
pub open spec fn members_view(members: Seq<(String, Json)>) -> Seq<(Seq<char>, JsonValue)> {
    members.map_values(|member: (String, Json)| (member.0@, member.1@))
}

/// An array is its items.
pub proof fn lemma_array_view(items: Vec<Json>)
    ensures
        Json::Array(items)@ == JsonValue::Array(items_view(items@)),
{
    assert(Json::Array(items)@->Array_0 =~= items_view(items@));
}

/// An object is its members.
pub proof fn lemma_object_view(members: Vec<(String, Json)>)
    ensures
        Json::Object(members)@ == JsonValue::Object(members_view(members@)),
{
    assert(Json::Object(members)@->Object_0 =~= members_view(members@));
}

/// The member of an object with the given name: the first, where the name
/// is given more than once.
pub open spec fn member(members: Seq<(Seq<char>, JsonValue)>, name: Seq<char>) -> Option<
    JsonValue,
>
    decreases members.len(),
{
    if members.len() == 0 {
        None
    } else if members[0].0 == name {
        Some(members[0].1)
    } else {
        member(members.drop_first(), name)
    }
}

/// A member whose name no earlier member bears is the member of that name.
pub proof fn lemma_member_found(members: Seq<(Seq<char>, JsonValue)>, i: int)
    requires
        0 <= i < members.len(),
        forall|j: int| 0 <= j < i ==> (#[trigger] members[j]).0 != members[i].0,
    ensures
        member(members, members[i].0) == Some(members[i].1),
    decreases i,
{
    if i > 0 {
        let rest = members.drop_first();
        assert(rest[i - 1] == members[i]);
        assert forall|j: int| 0 <= j < i - 1 implies (#[trigger] rest[j]).0 != rest[i - 1].0 by {
            assert(rest[j] == members[j + 1]);
        }
        lemma_member_found(rest, i - 1);
        assert(members[0].0 != members[i].0);
    }
}

/// A name that no member bears has no member.
pub proof fn lemma_member_missing(members: Seq<(Seq<char>, JsonValue)>, name: Seq<char>)
    requires
        forall|j: int| 0 <= j < members.len() ==> (#[trigger] members[j]).0 != name,
    ensures
        member(members, name) is None,
    decreases members.len(),
{
    if members.len() > 0 {
        let rest = members.drop_first();
        assert forall|j: int| 0 <= j < rest.len() implies (#[trigger] rest[j]).0 != name by {
            assert(rest[j] == members[j + 1]);
        }
        lemma_member_missing(rest, name);
        assert(members[0].0 != name);
    }
}

/// An optional text as JSON: the text, or null.
pub open spec fn optional_text_json(text: Option<Seq<char>>) -> JsonValue {
    match text {
        Some(t) => JsonValue::Text(t),
        None => JsonValue::Null,
    }
}

/// The optional text that a member holds: a member that is left out or null
/// holds none; a member of another kind is malformed.
pub open spec fn optional_text_of(value: Option<JsonValue>) -> Option<Option<Seq<char>>> {
    match value {
        None | Some(JsonValue::Null) => Some(None),
        Some(JsonValue::Text(t)) => Some(Some(t)),
        _ => None,
    }
}

/// The text that a member holds, which has to be there.
pub open spec fn text_of_member(value: Option<JsonValue>) -> Option<Seq<char>> {
    match value {
        Some(JsonValue::Text(t)) => Some(t),
        _ => None,
    }
}

/// The whole number that a member holds, which has to be there and fit.
pub open spec fn number_of_member(value: Option<JsonValue>) -> Option<i64> {
    match value {
        Some(JsonValue::Number(n)) => if i64::MIN <= n <= i64::MAX {
            Some(n as i64)
        } else {
            None
        },
        _ => None,
    }
}

/// An optional text as plain values.
pub open spec fn text_view(text: Option<String>) -> Option<Seq<char>> {
    match text {
        Some(t) => Some(t@),
        None => None,
    }
}

/// The member of a value with the given name, where the value is an object
/// that has one.
pub open spec fn field(value: JsonValue, name: Seq<char>) -> Option<JsonValue> {
    match value {
        JsonValue::Object(members) => member(members, name),
        _ => None,
    }
}

impl Json {
    /// A text.
    pub fn text(text: &str) -> (r: Json)
        ensures
            r@ == JsonValue::Text(text@),
    {
        Json::Text(String::from_str(text))
    }

    /// An array of the given items.
    pub fn array(items: Vec<Json>) -> (r: Json)
        ensures
            r@ == JsonValue::Array(items_view(items@)),
    {
        proof {
            lemma_array_view(items);
        }
        Json::Array(items)
    }

    /// An object of two members.
    pub fn object2(k1: &str, v1: Json, k2: &str, v2: Json) -> (r: Json)
        ensures
            r@ == JsonValue::Object(seq![(k1@, v1@), (k2@, v2@)]),
    {
        let mut members: Vec<(String, Json)> = Vec::new();
        members.push((String::from_str(k1), v1));
        members.push((String::from_str(k2), v2));
        proof {
            lemma_object_view(members);
            assert(members_view(members@) =~= seq![(k1@, v1@), (k2@, v2@)]);
        }
        Json::Object(members)
    }

    /// An object of three members.
    pub fn object3(k1: &str, v1: Json, k2: &str, v2: Json, k3: &str, v3: Json) -> (r: Json)
        ensures
            r@ == JsonValue::Object(seq![(k1@, v1@), (k2@, v2@), (k3@, v3@)]),
    {
        let mut members: Vec<(String, Json)> = Vec::new();
        members.push((String::from_str(k1), v1));
        members.push((String::from_str(k2), v2));
        members.push((String::from_str(k3), v3));
        proof {
            lemma_object_view(members);
            assert(members_view(members@) =~= seq![(k1@, v1@), (k2@, v2@), (k3@, v3@)]);
        }
        Json::Object(members)
    }

    /// An optional text: the text, or null.
    pub fn optional_text(text: &Option<String>) -> (r: Json)
        ensures
            r@ == optional_text_json(text_view(*text)),
    {
        match text {
            Some(t) => Json::text(t.as_str()),
            None => Json::Null,
        }
    }

    /// The text under a name, which has to be there.
    pub fn get_text(&self, name: &str) -> (r: Option<String>)
        ensures
            match text_of_member(field(self@, name@)) {
                Some(text) => r matches Some(found) && found@ == text,
                None => r is None,
            },
    {
        match self.get(name) {
            Some(Json::Text(text)) => Some(text.clone()),
            _ => None,
        }
    }

    /// The optional text under a name: outside, whether the member is well
    /// formed; inside, the text.
    pub fn get_optional_text(&self, name: &str) -> (r: Option<Option<String>>)
        ensures
            match optional_text_of(field(self@, name@)) {
                Some(text) => r matches Some(found) && text_view(found) == text,
                None => r is None,
            },
    {
        match self.get(name) {
            None => Some(None),
            Some(Json::Null) => Some(None),
            Some(Json::Text(text)) => Some(Some(text.clone())),
            Some(_) => None,
        }
    }

    /// The whole number under a name, which has to be there.
    pub fn get_number(&self, name: &str) -> (r: Option<i64>)
        ensures
            r == number_of_member(field(self@, name@)),
    {
        match self.get(name) {
            Some(Json::Number(n)) => Some(*n),
            _ => None,
        }
    }

    /// The member with the given name, where this is an object that has
    /// one.
    pub fn get(&self, name: &str) -> (r: Option<&Json>)
        ensures
            match field(self@, name@) {
                Some(value) => r matches Some(found) && found@ == value,
                None => r is None,
            },
    {
        match self {
            Json::Object(members) => {
                let ghost all = members_view(members@);
                proof {
                    lemma_object_view(*members);
                }
                let mut i: usize = 0;
                assert(all.skip(0) =~= all);
                while i < members.len()
                    invariant
                        i <= members@.len(),
                        all == members_view(members@),
                        self@ == JsonValue::Object(all),
                        member(all, name@) == member(all.skip(i as int), name@),
                    decreases members@.len() - i,
                {
                    proof {
                        assert(all.skip(i as int)[0] == all[i as int]);
                        assert(all[i as int] == (members@[i as int].0@, members@[i as int].1@));
                        assert(all.skip(i as int).drop_first() =~= all.skip(i + 1));
                    }
                    if same_text(members[i].0.as_str(), name) {
                        return Some(&members[i].1);
                    }
                    i += 1;
                }
                None
            },
            _ => None,
        }
    }
}

} // verus!
