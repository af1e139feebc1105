//! JSON objects of unsigned integers, built and rendered by `serde_json`.
//!
//! Nothing in this file is proved: each contract below is taken on trust from
//! `serde_json`. An object can hold values of any kind; the text is claimed
//! only of objects whose members all hold unsigned integers, which is what
//! the functions here build.

use vstd::prelude::*;

verus! {

#[verifier::external_type_specification]
#[verifier::external_body]
#[verifier::reject_recursive_types(K)]
#[verifier::reject_recursive_types(V)]
pub struct ExObject<K, V>(serde_json::Map<K, V>);

#[verifier::external_type_specification]
#[verifier::external_body]
pub struct ExValue(serde_json::Value);

/// Those members of a JSON object whose value is an unsigned integer: each
/// such member's name with its number. A member with a value of any other
/// kind is not among them.
pub uninterp spec fn object_members(object: serde_json::Map<String, serde_json::Value>) -> Map<
    Seq<char>,
    u64,
>;

/// Whether every member of a JSON object holds an unsigned integer.
pub uninterp spec fn holds_numbers_only(
    object: serde_json::Map<String, serde_json::Value>,
) -> bool;

/// The compact JSON text of the object that has exactly the given members,
/// each an unsigned integer, as `serde_json` writes it.
pub uninterp spec fn object_text(members: Map<Seq<char>, u64>) -> Seq<char>;

/// No members at all.
pub open spec fn no_members() -> Map<Seq<char>, u64> {
    Map::empty()
}

/// `serde_json::Map::new`: the result is an object without members, so
/// that none of them holds anything but an unsigned integer.
#[verifier::external_body]
pub(crate) fn empty_object() -> (object: serde_json::Map<String, serde_json::Value>)
    ensures
        object_members(object) == no_members(),
        holds_numbers_only(object),
{
    serde_json::Map::new()
}

/// `serde_json::Map::insert`, with the number turned into a value by
/// `serde_json::Value::from`: afterwards the object has the member `name`
/// with the value `number`, in place of an earlier member of that name if
/// there was one, and its other members are as before. An object that held
/// unsigned integers only still does.
#[verifier::external_body]
pub(crate) fn set_member(
    object: &mut serde_json::Map<String, serde_json::Value>,
    name: &str,
    number: u64,
)
    ensures
        object_members(*final(object)) == object_members(*old(object)).insert(name@, number),
        holds_numbers_only(*old(object)) ==> holds_numbers_only(*final(object)),
{
    object.insert(name.to_owned(), serde_json::Value::from(number));
}

/// `to_string` on `serde_json::Value::Object`: for an object whose members
/// all hold unsigned integers, the result is its compact JSON text, which
/// depends on those members alone. Objects that hold anything else are left
/// out: their text depends on more, and writing a deeply nested one may not
/// return.
#[verifier::external_body]
pub(crate) fn compact_text(object: serde_json::Map<String, serde_json::Value>) -> (text: String)
    requires
        holds_numbers_only(object),
    ensures
        text@ == object_text(object_members(object)),
{
    serde_json::Value::Object(object).to_string()
}

} // verus!
