//! JSON documents, as `serde_json` reads them.
//!
//! The library does not parse JSON. It hands the text to `serde_json` and
//! walks the value that comes back. Verus does not look into such a value:
//! what this module says of it is trusted, and is said over [`JsonView`], the
//! tree that a value stands for.

use vstd::prelude::*;

verus! {

/// What a JSON value holds. A number is known as a number only: the library
/// reads none.
pub enum JsonView {
    Null,
    Bool(bool),
    Number,
    Text(Seq<char>),
    Array(Seq<JsonView>),
    /// The members of an object, each with its key, in the order in which
    /// `serde_json` walks them.
    Object(Seq<(Seq<char>, JsonView)>),
}

/// `serde_json::Value`: a JSON value. Nothing is known of what is inside
/// one but what the functions of this module say.
#[verifier::external_type_specification]
#[verifier::external_body]
pub struct ExJsonValue(serde_json::Value);

/// `serde_json::Map`: the members of a JSON object.
#[verifier::external_type_specification]
#[verifier::external_body]
#[verifier::reject_recursive_types(K)]
#[verifier::reject_recursive_types(V)]
pub struct ExJsonMap<K, V>(serde_json::Map<K, V>);

/// The tree that a `serde_json::Value` stands for.
pub uninterp spec fn json_view(value: serde_json::Value) -> JsonView;

/// The members that a `serde_json::Map` holds, each with its key, in the
/// order in which the map walks them.
pub uninterp spec fn json_members(
    object: serde_json::Map<String, serde_json::Value>,
) -> Seq<(Seq<char>, JsonView)>;

/// The tree that `serde_json` reads from a text, and `None` for a text that
/// it does not accept as JSON.
pub uninterp spec fn json_document(text: Seq<char>) -> Option<JsonView>;

/// The trees that a list of values stands for.
pub open spec fn items_view(items: Seq<serde_json::Value>) -> Seq<JsonView> {
    Seq::new(items.len(), |i: int| json_view(items[i]))
}

/// The members that a list of keys and values stands for.
pub open spec fn entries_view(entries: Seq<(&String, &serde_json::Value)>) -> Seq<
    (Seq<char>, JsonView),
> {
    Seq::new(entries.len(), |i: int| (entries[i].0@, json_view(*entries[i].1)))
}

/// Reads a JSON document with `serde_json::from_str`, which gives a value
/// for a text that it accepts as one JSON document, and an error for any
/// other text. The error becomes `None`. Whether there is a value, and what
/// it holds, is trusted to depend on the text alone.
#[verifier::external_body]
pub(crate) fn parse_document(text: &str) -> (value: Option<serde_json::Value>)
    ensures
        match value {
            Some(value) => json_document(text@) == Some(json_view(value)),
            None => json_document(text@) is None,
        },
{
    serde_json::from_str::<serde_json::Value>(text).ok()
}

/// Tells with `serde_json::Value::is_null` whether a value is `null`.
#[verifier::external_body]
pub(crate) fn is_null(value: &serde_json::Value) -> (null: bool)
    ensures
        null == (json_view(*value) is Null),
{
    value.is_null()
}

/// Hands out with `serde_json::Value::as_str` the text of a value that is a
/// string, and `None` for a value of another kind.
#[verifier::external_body]
pub(crate) fn as_text<'a>(value: &'a serde_json::Value) -> (text: Option<&'a str>)
    ensures
        match text {
            Some(text) => json_view(*value) == JsonView::Text(text@),
            None => !(json_view(*value) is Text),
        },
{
    value.as_str()
}

/// Hands out with `serde_json::Value::as_array` the items of a value that
/// is an array, and `None` for a value of another kind.
#[verifier::external_body]
pub(crate) fn as_items<'a>(value: &'a serde_json::Value) -> (items: Option<
    &'a Vec<serde_json::Value>,
>)
    ensures
        match items {
            Some(items) => json_view(*value) == JsonView::Array(items_view(items@)),
            None => !(json_view(*value) is Array),
        },
{
    value.as_array()
}

/// Hands out with `serde_json::Value::as_object` the map of a value that is
/// an object, and `None` for a value of another kind.
#[verifier::external_body]
pub(crate) fn as_object<'a>(value: &'a serde_json::Value) -> (object: Option<
    &'a serde_json::Map<String, serde_json::Value>,
>)
    ensures
        match object {
            Some(object) => json_view(*value) == JsonView::Object(json_members(*object)),
            None => !(json_view(*value) is Object),
        },
{
    value.as_object()
}

/// Collects what `serde_json::Map::iter` walks: each member of the map with
/// its key, once, in the map's order.
#[verifier::external_body]
pub(crate) fn entries<'a>(object: &'a serde_json::Map<String, serde_json::Value>) -> (entries: Vec<
    (&'a String, &'a serde_json::Value),
>)
    ensures
        entries_view(entries@) == json_members(*object),
{
    object.iter().collect()
}

/// The first member at or after `from` whose key is `key`.
pub open spec fn member_from(
    members: Seq<(Seq<char>, JsonView)>,
    key: Seq<char>,
    from: int,
) -> Option<JsonView>
    decreases members.len() - from,
{
    if from < 0 || from >= members.len() {
        None
    } else if members[from].0 == key {
        Some(members[from].1)
    } else {
        member_from(members, key, from + 1)
    }
}

/// The member whose key is `key`, where there is one that is not `null`:
/// a member that is `null` counts as missing.
pub open spec fn present_member(members: Seq<(Seq<char>, JsonView)>, key: Seq<char>) -> Option<
    JsonView,
> {
    match member_from(members, key, 0) {
        Some(value) => if value is Null {
            None
        } else {
            Some(value)
        },
        None => None,
    }
}

/// The trees that values stand for, where there are values.
pub open spec fn option_view(value: Option<&serde_json::Value>) -> Option<JsonView> {
    match value {
        Some(value) => Some(json_view(*value)),
        None => None,
    }
}

/// Finds the member whose key is `key`, where there is one that is not
/// `null`.
pub(crate) fn find_present<'a>(
    entries: &Vec<(&'a String, &'a serde_json::Value)>,
    key: &str,
) -> (value: Option<&'a serde_json::Value>)
    ensures
        option_view(value) == present_member(entries_view(entries@), key@),
{
    let wanted = String::from_str(key);
    let ghost members = entries_view(entries@);
    let mut i: usize = 0;
    while i < entries.len()
        invariant
            i <= entries.len(),
            wanted@ == key@,
            members == entries_view(entries@),
            member_from(members, key@, 0) == member_from(members, key@, i as int),
        decreases entries.len() - i,
    {
        let (name, value) = entries[i];
        assert(members[i as int] == (name@, json_view(*value)));
        if *name == wanted {
            if is_null(value) {
                return None;
            }
            return Some(value);
        }
        i += 1;
    }
    None
}

} // verus!
