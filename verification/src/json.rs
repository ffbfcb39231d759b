//! A JSON document tree, as the schema builders produce and consume it.
//!
//! Numbers are held as their JSON text, so that a document read from
//! elsewhere can be carried through unchanged.
use vstd::prelude::*;

verus! {

/// A JSON value. The members of an object keep the order in which they
/// were written.
#[derive(Debug)]
pub enum JsonValue {
    Null,
    Bool(bool),
    /// A number, as its JSON text (for example `1.5e3`).
    Number(String),
    String(String),
    Array(Vec<JsonValue>),
    Object(Vec<(String, JsonValue)>),
}

/// The mathematical form of a [`JsonValue`].
pub enum Json {
    Null,
    Bool(bool),
    Number(Seq<char>),
    Str(Seq<char>),
    Array(Seq<Json>),
    Object(Seq<(Seq<char>, Json)>),
}

pub open spec fn json_model(v: JsonValue) -> Json
    decreases v,
{
    match v {
        JsonValue::Null => Json::Null,
        JsonValue::Bool(b) => Json::Bool(b),
        JsonValue::Number(n) => Json::Number(n@),
        JsonValue::String(s) => Json::Str(s@),
        JsonValue::Array(items) => Json::Array(items_model(items@)),
        JsonValue::Object(members) => Json::Object(members_model(members@)),
    }
}

pub open spec fn items_model(items: Seq<JsonValue>) -> Seq<Json>
    decreases items,
{
    if items.len() == 0 {
        Seq::empty()
    } else {
        items_model(items.drop_last()).push(json_model(items.last()))
    }
}

pub open spec fn members_model(members: Seq<(String, JsonValue)>) -> Seq<(Seq<char>, Json)>
    decreases members,
{
    if members.len() == 0 {
        Seq::empty()
    } else {
        members_model(members.drop_last()).push(
            (members.last().0@, json_model(members.last().1)),
        )
    }
}

impl View for JsonValue {
    type V = Json;

    open spec fn view(&self) -> Json {
        json_model(*self)
    }
}

/// The model of a sequence of values is taken element by element.
pub proof fn lemma_items_model(items: Seq<JsonValue>)
    ensures
        items_model(items).len() == items.len(),
        forall|i: int|
            0 <= i < items.len() ==> #[trigger] items_model(items)[i] == json_model(items[i]),
    decreases items.len(),
{
    if items.len() > 0 {
        lemma_items_model(items.drop_last());
    }
}

/// The model of a value follows its structure: scalars keep their content,
/// an array's model lists its elements' models in order, and an object's model
/// lists its members' keys and values' models in order.
pub proof fn law_model_follows_structure(v: JsonValue)
    ensures
        v is Null ==> v@ == Json::Null,
        v matches JsonValue::Bool(b) ==> v@ == Json::Bool(b),
        v matches JsonValue::Number(n) ==> v@ == Json::Number(n@),
        v matches JsonValue::String(t) ==> v@ == Json::Str(t@),
        v matches JsonValue::Array(items) ==> {
            &&& v@ is Array
            &&& v@->Array_0.len() == items@.len()
            &&& forall|i: int| 0 <= i < items@.len() ==> #[trigger] v@->Array_0[i] == items@[i]@
        },
        v matches JsonValue::Object(members) ==> {
            &&& v@ is Object
            &&& v@->Object_0.len() == members@.len()
            &&& forall|i: int|
                0 <= i < members@.len() ==> #[trigger] v@->Object_0[i] == (
                    members@[i].0@,
                    members@[i].1@,
                )
        },
{
    match v {
        JsonValue::Array(items) => lemma_items_model(items@),
        JsonValue::Object(members) => lemma_members_model(members@),
        _ => {},
    }
}

/// The model of a sequence of members is taken member by member.
pub proof fn lemma_members_model(members: Seq<(String, JsonValue)>)
    ensures
        members_model(members).len() == members.len(),
        forall|i: int|
            0 <= i < members.len() ==> #[trigger] members_model(members)[i] == (
                members[i].0@,
                json_model(members[i].1),
            ),
    decreases members.len(),
{
    if members.len() > 0 {
        lemma_members_model(members.drop_last());
    }
}

/// A JSON string holding `s`.
pub fn json_string(s: &str) -> (r: JsonValue)
    ensures
        r@ == Json::Str(s@),
{
    JsonValue::String(s.to_owned())
}

/// A JSON array of the given values, in order.
pub fn json_array(items: Vec<JsonValue>) -> (r: JsonValue)
    ensures
        r@ == Json::Array(items_model(items@)),
{
    JsonValue::Array(items)
}

/// A JSON object of the given members, in order.
pub fn json_object(members: Vec<(String, JsonValue)>) -> (r: JsonValue)
    ensures
        r@ == Json::Object(members_model(members@)),
{
    JsonValue::Object(members)
}

/// Appends the member `key: value` to `members`.
pub fn push_member(members: &mut Vec<(String, JsonValue)>, key: &str, value: JsonValue)
    ensures
        members_model(final(members)@) == members_model(old(members)@).push((key@, value@)),
{
    let ghost before = members@;
    members.push((key.to_owned(), value));
    proof {
        assert(members@.drop_last() =~= before);
    }
}

} // verus!
