//! Flat JSON objects: the commands sent to the worker and the payloads that
//! the host makes up itself are objects whose members are numbers, flags,
//! texts, lists of texts, `null` or a value that is passed through.

use crate::json::{
    json_bool, json_insert, json_integer, json_list, json_null, json_object, json_shape,
    json_string, JsonShape,
};
use serde_json::Value;
use vstd::prelude::*;
use vstd::string::StringExecFns;

verus! {

/// What a member of a flat object holds.
pub enum Field {
    Null,
    Bool(bool),
    Integer(int),
    Text(Seq<char>),
    TextList(Seq<Seq<char>>),
    /// A value taken as it is.
    Json(Value),
}

/// Whether the items are texts, those of `texts` in their order.
pub open spec fn are_texts(items: Seq<Value>, texts: Seq<Seq<char>>) -> bool {
    &&& items.len() == texts.len()
    &&& forall|i: int| 0 <= i < texts.len() ==> json_shape(#[trigger] items[i]) == JsonShape::Text(texts[i])
}

/// Whether `value` holds what `field` says.
pub open spec fn holds(value: Value, field: Field) -> bool {
    match field {
        Field::Null => json_shape(value) is Null,
        Field::Bool(flag) => json_shape(value) == JsonShape::Bool(flag),
        Field::Integer(number) => json_shape(value) == JsonShape::Integer(number),
        Field::Text(text) => json_shape(value) == JsonShape::Text(text),
        Field::TextList(texts) => json_shape(value) is List && are_texts(
            json_shape(value)->List_0,
            texts,
        ),
        Field::Json(inner) => value == inner,
    }
}

/// Whether `value` is an object with exactly the members that `fields` names,
/// each holding what `fields` says of it.
pub open spec fn is_record(value: Value, fields: Map<Seq<char>, Field>) -> bool {
    &&& json_shape(value) is Object
    &&& json_shape(value)->Object_0.dom() =~= fields.dom()
    &&& forall|key: Seq<char>| #[trigger]
        fields.contains_key(key) ==> holds(json_shape(value)->Object_0[key], fields[key])
}

/// An object without members.
pub(crate) fn empty_record() -> (record: Value)
    ensures
        is_record(record, Map::empty()),
{
    json_object()
}

/// Sets the member `key` of a record to `member`, which holds `field`.
pub(crate) fn put(
    record: &mut Value,
    Ghost(fields): Ghost<Map<Seq<char>, Field>>,
    key: &str,
    member: Value,
    Ghost(field): Ghost<Field>,
)
    requires
        is_record(*old(record), fields),
        holds(member, field),
    ensures
        is_record(*final(record), fields.insert(key@, field)),
{
    json_insert(record, String::from_str(key), member);
    proof {
        let members = json_shape(*record)->Object_0;
        let after = fields.insert(key@, field);
        assert forall|k: Seq<char>| #[trigger] after.contains_key(k) implies holds(
            members[k],
            after[k],
        ) by {
            if k != key@ {
                assert(fields.contains_key(k));
            }
        }
    }
}

/// Sets the member `key` to a number.
pub(crate) fn put_integer(
    record: &mut Value,
    Ghost(fields): Ghost<Map<Seq<char>, Field>>,
    key: &str,
    number: i32,
)
    requires
        is_record(*old(record), fields),
    ensures
        is_record(*final(record), fields.insert(key@, Field::Integer(number as int))),
{
    let member = json_integer(number as i64);
    put(record, Ghost(fields), key, member, Ghost(Field::Integer(number as int)));
}

/// Sets the member `key` to a number, or to `null` where there is none.
pub(crate) fn put_optional_integer(
    record: &mut Value,
    Ghost(fields): Ghost<Map<Seq<char>, Field>>,
    key: &str,
    number: Option<i32>,
)
    requires
        is_record(*old(record), fields),
    ensures
        is_record(*final(record), fields.insert(key@, optional_integer(number))),
{
    match number {
        Some(number) => put_integer(record, Ghost(fields), key, number),
        None => put_null(record, Ghost(fields), key),
    }
}

/// The member for a number that may be missing: `null` stands for none.
pub open spec fn optional_integer(number: Option<i32>) -> Field {
    match number {
        Some(number) => Field::Integer(number as int),
        None => Field::Null,
    }
}

/// Sets the member `key` to `null`.
pub(crate) fn put_null(record: &mut Value, Ghost(fields): Ghost<Map<Seq<char>, Field>>, key: &str)
    requires
        is_record(*old(record), fields),
    ensures
        is_record(*final(record), fields.insert(key@, Field::Null)),
{
    put(record, Ghost(fields), key, json_null(), Ghost(Field::Null));
}

/// Sets the member `key` to a flag.
pub(crate) fn put_bool(
    record: &mut Value,
    Ghost(fields): Ghost<Map<Seq<char>, Field>>,
    key: &str,
    flag: bool,
)
    requires
        is_record(*old(record), fields),
    ensures
        is_record(*final(record), fields.insert(key@, Field::Bool(flag))),
{
    put(record, Ghost(fields), key, json_bool(flag), Ghost(Field::Bool(flag)));
}

/// Sets the member `key` to a text.
pub(crate) fn put_text(
    record: &mut Value,
    Ghost(fields): Ghost<Map<Seq<char>, Field>>,
    key: &str,
    text: &str,
)
    requires
        is_record(*old(record), fields),
    ensures
        is_record(*final(record), fields.insert(key@, Field::Text(text@))),
{
    let member = json_string(String::from_str(text));
    put(record, Ghost(fields), key, member, Ghost(Field::Text(text@)));
}

/// The texts of a list of strings.
pub open spec fn texts_of(items: Seq<String>) -> Seq<Seq<char>> {
    Seq::new(items.len(), |i: int| items[i]@)
}

/// Sets the member `key` to a list of texts.
pub(crate) fn put_text_list(
    record: &mut Value,
    Ghost(fields): Ghost<Map<Seq<char>, Field>>,
    key: &str,
    texts: &Vec<String>,
)
    requires
        is_record(*old(record), fields),
    ensures
        is_record(*final(record), fields.insert(key@, Field::TextList(texts_of(texts@)))),
{
    let mut items: Vec<Value> = Vec::new();
    let mut i: usize = 0;
    while i < texts.len()
        invariant
            i <= texts.len(),
            items@.len() == i,
            forall|j: int| 0 <= j < i ==> json_shape(#[trigger] items@[j]) == JsonShape::Text(texts@[j]@),
        decreases texts.len() - i,
    {
        items.push(json_string(texts[i].clone()));
        i += 1;
    }
    let member = json_list(items);
    put(record, Ghost(fields), key, member, Ghost(Field::TextList(texts_of(texts@))));
}

/// Sets the member `key` to a value as it is.
pub(crate) fn put_json(
    record: &mut Value,
    Ghost(fields): Ghost<Map<Seq<char>, Field>>,
    key: &str,
    member: Value,
)
    requires
        is_record(*old(record), fields),
    ensures
        is_record(*final(record), fields.insert(key@, Field::Json(member))),
{
    put(record, Ghost(fields), key, member, Ghost(Field::Json(member)));
}

} // verus!
