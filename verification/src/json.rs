//! JSON objects built with `serde_json`: string members, null members, and
//! members that are objects of strings and nulls, and the text they
//! serialize to.
use vstd::prelude::*;

verus! {

#[verifier::external_type_specification]
#[verifier::external_body]
pub struct ExJsonValue(serde_json::Value);

#[verifier::external_type_specification]
#[verifier::external_body]
#[verifier::reject_recursive_types(K)]
#[verifier::reject_recursive_types(V)]
pub struct ExJsonMap<K, V>(serde_json::Map<K, V>);

/// Name for the string members of a `serde_json` object: key to value.
pub uninterp spec fn json_strings(m: serde_json::Map<String, serde_json::Value>) -> Map<Seq<char>, Seq<char>>;

/// Name for the keys of the null members of a `serde_json` object.
pub uninterp spec fn json_nulls(m: serde_json::Map<String, serde_json::Value>) -> Set<Seq<char>>;

/// Name for the members of a `serde_json` object that are objects, each
/// given by its string members and the keys of its null members.
pub uninterp spec fn json_objects(m: serde_json::Map<String, serde_json::Value>) -> Map<
    Seq<char>,
    (Map<Seq<char>, Seq<char>>, Set<Seq<char>>),
>;

/// Name for whether every member of a `serde_json` object is a string, a
/// null, or an object whose members are all strings or nulls (so that
/// [`json_strings`], [`json_nulls`] and [`json_objects`] give all of it).
pub uninterp spec fn json_plain(m: serde_json::Map<String, serde_json::Value>) -> bool;

/// Name for the text `serde_json::Value::to_string` gives for an object
/// with these string members, null members and members that are objects
/// of strings and nulls (no key in two of them). Without the
/// `preserve_order` feature, which nothing here enables, an object is a
/// `BTreeMap`, so the text depends on the members alone: keys come out in
/// order.
pub uninterp spec fn json_object_text(
    strings: Map<Seq<char>, Seq<char>>,
    nulls: Set<Seq<char>>,
    objects: Map<Seq<char>, (Map<Seq<char>, Seq<char>>, Set<Seq<char>>)>,
) -> Seq<char>;

/// An empty object (`serde_json::Map::new`).
#[verifier::external_body]
pub(crate) fn json_map_new() -> (obj: serde_json::Map<String, serde_json::Value>)
    ensures
        json_plain(obj),
        json_strings(obj) =~= Map::empty(),
        json_nulls(obj) =~= Set::empty(),
        json_objects(obj) =~= Map::empty(),
{
    serde_json::Map::new()
}

/// Sets a string member (`Map::insert` of a `Value::String`), replacing
/// what the key held.
#[verifier::external_body]
pub(crate) fn json_insert_string(m: &mut serde_json::Map<String, serde_json::Value>, key: &str, value: &str)
    ensures
        json_plain(*old(m)) ==> json_plain(*final(m)),
        json_strings(*final(m)) == json_strings(*old(m)).insert(key@, value@),
        json_nulls(*final(m)) == json_nulls(*old(m)).remove(key@),
        json_objects(*final(m)) == json_objects(*old(m)).remove(key@),
{
    m.insert(key.to_owned(), serde_json::Value::String(value.to_owned()));
}

/// Sets a member to null (`Map::insert` of `Value::Null`), replacing what
/// the key held.
#[verifier::external_body]
pub(crate) fn json_insert_null(m: &mut serde_json::Map<String, serde_json::Value>, key: &str)
    ensures
        json_plain(*old(m)) ==> json_plain(*final(m)),
        json_strings(*final(m)) == json_strings(*old(m)).remove(key@),
        json_nulls(*final(m)) == json_nulls(*old(m)).insert(key@),
        json_objects(*final(m)) == json_objects(*old(m)).remove(key@),
{
    m.insert(key.to_owned(), serde_json::Value::Null);
}

/// Sets a member to an object of strings and nulls (`Map::insert` of a
/// `Value::Object`), replacing what the key held.
#[verifier::external_body]
pub(crate) fn json_insert_object(
    m: &mut serde_json::Map<String, serde_json::Value>,
    key: &str,
    inner: serde_json::Map<String, serde_json::Value>,
)
    requires
        json_plain(inner),
        json_objects(inner) == Map::<Seq<char>, (Map<Seq<char>, Seq<char>>, Set<Seq<char>>)>::empty(),
    ensures
        json_plain(*old(m)) ==> json_plain(*final(m)),
        json_strings(*final(m)) == json_strings(*old(m)).remove(key@),
        json_nulls(*final(m)) == json_nulls(*old(m)).remove(key@),
        json_objects(*final(m)) == json_objects(*old(m)).insert(key@, (json_strings(inner), json_nulls(inner))),
{
    m.insert(key.to_owned(), serde_json::Value::Object(inner));
}

/// Removes a member (`Map::remove`).
#[verifier::external_body]
pub(crate) fn json_remove(m: &mut serde_json::Map<String, serde_json::Value>, key: &str)
    ensures
        json_plain(*old(m)) ==> json_plain(*final(m)),
        json_strings(*final(m)) == json_strings(*old(m)).remove(key@),
        json_nulls(*final(m)) == json_nulls(*old(m)).remove(key@),
        json_objects(*final(m)) == json_objects(*old(m)).remove(key@),
{
    m.remove(key);
}

/// The JSON text of an object (`Value::Object(..).to_string()`); named by
/// [`json_object_text`].
#[verifier::external_body]
pub(crate) fn json_text(m: &serde_json::Map<String, serde_json::Value>) -> (s: String)
    requires
        json_plain(*m),
    ensures
        s@ == json_object_text(json_strings(*m), json_nulls(*m), json_objects(*m)),
{
    serde_json::Value::Object(m.clone()).to_string()
}

} // verus!
