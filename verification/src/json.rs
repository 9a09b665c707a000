//! The trusted boundary to `serde_json`, and the walk over the parsed
//! envelope.
//!
//! The endpoint's response body is parsed by `serde_json`; a parsed value is
//! opaque here, so what each call returns is given a name (`json_doc_of`,
//! `json_member_of`, `json_array_of`, `json_str_of`), and each method the
//! walk needs stands behind a small trusted wrapper whose contract speaks of
//! those names. The walk itself is verified: it reads the `value` array and,
//! per entry, the two strings a [`RoleEntry`] carries, and its contracts fix
//! the result over the names, element by element.

use vstd::prelude::*;
use crate::roles::{opt_string_view, RoleEntry};

verus! {

#[verifier::external_type_specification]
#[verifier::external_body]
pub struct ExValue(serde_json::Value);

#[verifier::external_type_specification]
#[verifier::external_body]
pub struct ExJsonError(serde_json::Error);

/// Whether `serde_json::from_str` accepts a string: it succeeds or fails on
/// the characters of its input alone.
pub uninterp spec fn json_parses(s: Seq<char>) -> bool;

/// The document `serde_json::from_str` yields on a string it accepts.
pub uninterp spec fn json_doc_of(s: Seq<char>) -> serde_json::Value;

/// The member a JSON value holds under a string key: `None` where the value
/// is not an object or the key is absent.
pub uninterp spec fn json_member_of(v: serde_json::Value, key: Seq<char>) -> Option<
    serde_json::Value,
>;

/// The elements a JSON value holds: `None` where the value is not an array.
pub uninterp spec fn json_array_of(v: serde_json::Value) -> Option<Seq<serde_json::Value>>;

/// The characters a JSON value holds: `None` where the value is not a
/// string.
pub uninterp spec fn json_str_of(v: serde_json::Value) -> Option<Seq<char>>;

/// Relies on `serde_json::from_str::<Value>`: which strings it accepts, and
/// which document one of them yields, depend on the characters alone.
#[verifier::external_body]
pub(crate) fn parse_json(s: &str) -> (r: Result<serde_json::Value, serde_json::Error>)
    ensures
        r is Ok <==> json_parses(s@),
        r matches Ok(v) ==> v == json_doc_of(s@),
{
    serde_json::from_str(s)
}

/// Relies on `serde_json::Value::get` with a string key: the member of an
/// object under that key, `None` on a missing key or a non-object.
#[verifier::external_body]
pub(crate) fn json_get<'a>(v: &'a serde_json::Value, key: &str) -> (r: Option<
    &'a serde_json::Value,
>)
    ensures
        r matches Some(m) ==> json_member_of(*v, key@) == Some(*m),
        r is None ==> json_member_of(*v, key@) is None,
{
    v.get(key)
}

/// Relies on `serde_json::Value::as_array`: the elements of an array value,
/// `None` on any other value.
#[verifier::external_body]
pub(crate) fn json_as_array<'a>(v: &'a serde_json::Value) -> (r: Option<
    &'a Vec<serde_json::Value>,
>)
    ensures
        r matches Some(arr) ==> json_array_of(*v) == Some(arr@),
        r is None ==> json_array_of(*v) is None,
{
    v.as_array()
}

/// Relies on `serde_json::Value::as_str`: the characters of a string value,
/// `None` on any other value.
#[verifier::external_body]
pub(crate) fn json_as_str<'a>(v: &'a serde_json::Value) -> (r: Option<&'a str>)
    ensures
        r matches Some(t) ==> json_str_of(*v) == Some(t@),
        r is None ==> json_str_of(*v) is None,
{
    v.as_str()
}

/// The string a value's member holds under a key: `None` where the member
/// is absent or not a string.
pub open spec fn string_member_of(v: serde_json::Value, key: Seq<char>) -> Option<Seq<char>> {
    match json_member_of(v, key) {
        Some(m) => json_str_of(m),
        None => None,
    }
}

/// The `id` string one entry of the `value` array carries.
pub open spec fn entry_id_of(entry: serde_json::Value) -> Option<Seq<char>> {
    string_member_of(entry, "id"@)
}

/// The display name one entry of the `value` array carries, under
/// `roleDefinition.resource.displayName`.
pub open spec fn entry_name_of(entry: serde_json::Value) -> Option<Seq<char>> {
    match json_member_of(entry, "roleDefinition"@) {
        Some(rd) => match json_member_of(rd, "resource"@) {
            Some(resource) => string_member_of(resource, "displayName"@),
            None => None,
        },
        None => None,
    }
}

/// The elements of a parsed body's `value` array: empty where the `value`
/// member is absent or not an array.
pub open spec fn envelope_array(content: serde_json::Value) -> Seq<serde_json::Value> {
    match json_member_of(content, "value"@) {
        Some(v) => match json_array_of(v) {
            Some(arr) => arr,
            None => Seq::empty(),
        },
        None => Seq::empty(),
    }
}

/// The string under a key of `v`, owned; `None` where the key is absent or
/// holds a non-string.
fn string_member(v: &serde_json::Value, key: &str) -> (r: Option<String>)
    ensures
        opt_string_view(r) == string_member_of(*v, key@),
{
    match json_get(v, key) {
        Some(member) => match json_as_str(member) {
            Some(s) => Some(s.to_owned()),
            None => None,
        },
        None => None,
    }
}

/// The two strings one entry of the `value` array carries: its `id`, and the
/// display name under `roleDefinition.resource.displayName`.
fn entry_fields(entry: &serde_json::Value) -> (e: RoleEntry)
    ensures
        opt_string_view(e.id) == entry_id_of(*entry),
        opt_string_view(e.name) == entry_name_of(*entry),
{
    let id = string_member(entry, "id");
    let name = match json_get(entry, "roleDefinition") {
        Some(rd) => match json_get(rd, "resource") {
            Some(resource) => string_member(resource, "displayName"),
            None => None,
        },
        None => None,
    };
    RoleEntry { id, name }
}

/// The entries of the body's `value` array, each reduced to the two strings
/// it carries, in the array's order. A body without a `value` array has no
/// entries.
pub(crate) fn envelope_entries(content: &serde_json::Value) -> (entries: Vec<RoleEntry>)
    ensures
        entries@.len() == envelope_array(*content).len(),
        forall|i: int|
            0 <= i < entries@.len() ==> #[trigger] opt_string_view(entries@[i].id)
                == entry_id_of(envelope_array(*content)[i]),
        forall|i: int|
            0 <= i < entries@.len() ==> #[trigger] opt_string_view(entries@[i].name)
                == entry_name_of(envelope_array(*content)[i]),
{
    let mut entries: Vec<RoleEntry> = Vec::new();
    match json_get(content, "value") {
        Some(v) => match json_as_array(v) {
            Some(arr) => {
                let mut k: usize = 0;
                while k < arr.len()
                    invariant
                        arr@ == envelope_array(*content),
                        k <= arr@.len(),
                        entries@.len() == k,
                        forall|i: int|
                            0 <= i < k ==> #[trigger] opt_string_view(entries@[i].id)
                                == entry_id_of(arr@[i]),
                        forall|i: int|
                            0 <= i < k ==> #[trigger] opt_string_view(entries@[i].name)
                                == entry_name_of(arr@[i]),
                    decreases arr@.len() - k,
                {
                    entries.push(entry_fields(&arr[k]));
                    k = k + 1;
                }
            },
            None => {},
        },
        None => {},
    }
    entries
}

} // verus!
