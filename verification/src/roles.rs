//! Eligible PIM roles and their extraction from the endpoint's JSON envelope.
//!
//! The endpoint answers with an object whose `value` array holds one entry
//! per eligible role assignment. Each entry contributes a [`Role`]: its `id`
//! field, and the display name found at
//! `roleDefinition.resource.displayName`. An entry from which either string
//! cannot be read makes the whole extraction fail; a missing or non-array
//! `value` yields the empty list.

use vstd::prelude::*;
use crate::json;
use crate::json::json_parses;

verus! {

/// One eligible role assignment: the assignment's opaque identifier and the
/// human-readable display name of the resource it grants a role on.
pub struct Role {
    pub id: String,
    pub name: String,
}

/// The two strings that one entry of the `value` array may carry: its `id`,
/// and the display name under `roleDefinition.resource.displayName`. A field
/// is `None` where the entry lacks it or holds a non-string there.
pub struct RoleEntry {
    pub id: Option<String>,
    pub name: Option<String>,
}

/// How an extraction fails.
#[derive(Debug, PartialEq, Eq, Structural)]
pub enum FetchError {
    /// The response body is not valid JSON.
    Parse,
    /// An entry of the `value` array lacks its `id` or its
    /// `roleDefinition.resource.displayName` string.
    MissingField,
}

/// The characters an optional string holds, `None` kept as `None`.
pub open spec fn opt_string_view(o: Option<String>) -> Option<Seq<char>> {
    match o {
        Some(s) => Some(s@),
        None => None,
    }
}

/// An entry carries both strings a `Role` needs.
pub open spec fn entry_complete(e: RoleEntry) -> bool {
    e.id is Some && e.name is Some
}

/// An element of the parsed body's `value` array carries both strings a
/// `Role` needs.
pub open spec fn element_complete(elem: serde_json::Value) -> bool {
    json::entry_id_of(elem) is Some && json::entry_name_of(elem) is Some
}

/// The elements of the `value` array of the document a body parses to.
pub open spec fn entries_of_body(body: Seq<char>) -> Seq<serde_json::Value> {
    json::envelope_array(json::json_doc_of(body))
}

/// The identifier a complete entry contributes.
pub open spec fn entry_id(e: RoleEntry) -> Seq<char>
    recommends
        e.id is Some,
{
    e.id->0@
}

/// The display name a complete entry contributes.
pub open spec fn entry_name(e: RoleEntry) -> Seq<char>
    recommends
        e.name is Some,
{
    e.name->0@
}

/// Turns the entries of the `value` array into roles, one per entry and in
/// the entries' order. Succeeds exactly when every entry carries both
/// strings; a single incomplete entry fails the whole extraction, with no
/// default substituted.
pub fn roles_from_entries(entries: Vec<RoleEntry>) -> (r: Result<Vec<Role>, FetchError>)
    ensures
        r is Ok <==> (forall|i: int| 0 <= i < entries@.len() ==> entry_complete(entries@[i])),
        r matches Ok(roles) ==> {
            &&& roles@.len() == entries@.len()
            &&& forall|i: int|
                0 <= i < entries@.len() ==> #[trigger] roles@[i].id@ == entry_id(entries@[i])
            &&& forall|i: int|
                0 <= i < entries@.len() ==> #[trigger] roles@[i].name@ == entry_name(entries@[i])
        },
        r matches Err(e) ==> e == FetchError::MissingField,
{
    let mut roles: Vec<Role> = Vec::new();
    let mut k: usize = 0;
    while k < entries.len()
        invariant
            k <= entries@.len(),
            roles@.len() == k,
            forall|i: int| 0 <= i < k ==> entry_complete(entries@[i]),
            forall|i: int| 0 <= i < k ==> #[trigger] roles@[i].id@ == entry_id(entries@[i]),
            forall|i: int| 0 <= i < k ==> #[trigger] roles@[i].name@ == entry_name(entries@[i]),
        decreases entries@.len() - k,
    {
        let entry = &entries[k];
        match (&entry.id, &entry.name) {
            (Some(id), Some(name)) => {
                roles.push(Role { id: id.clone(), name: name.clone() });
            },
            _ => {
                return Err(FetchError::MissingField);
            },
        }
        k = k + 1;
    }
    Ok(roles)
}

/// The display names of the given roles, in the same order.
pub fn role_names(roles: &Vec<Role>) -> (names: Vec<String>)
    ensures
        names@.len() == roles@.len(),
        forall|i: int| 0 <= i < roles@.len() ==> #[trigger] names@[i]@ == roles@[i].name@,
{
    let mut names: Vec<String> = Vec::new();
    let mut k: usize = 0;
    while k < roles.len()
        invariant
            k <= roles@.len(),
            names@.len() == k,
            forall|i: int| 0 <= i < k ==> #[trigger] names@[i]@ == roles@[i].name@,
        decreases roles@.len() - k,
    {
        names.push(roles[k].name.clone());
        k = k + 1;
    }
    names
}

/// Extracts the roles the user is eligible for from the response body of
/// the role-assignment endpoint: one role per element of the body's `value`
/// array, in the array's order, with the element's `id` and the display name
/// under `roleDefinition.resource.displayName`. A body that `serde_json`
/// does not accept fails with `Parse` — and only such a body does; an
/// element from which either string cannot be read fails with
/// `MissingField`; a body without a `value` array yields the empty list.
pub fn get_user_eligible_roles(body: &str) -> (r: Result<Vec<Role>, FetchError>)
    ensures
        (r matches Err(e) && e == FetchError::Parse) <==> !json_parses(body@),
        (r matches Err(e) && e == FetchError::MissingField) <==> (json_parses(body@) && !(forall|
            i: int,
        |
            0 <= i < entries_of_body(body@).len() ==> #[trigger] element_complete(
                entries_of_body(body@)[i],
            ))),
        r is Ok <==> (json_parses(body@) && (forall|i: int|
            0 <= i < entries_of_body(body@).len() ==> #[trigger] element_complete(
                entries_of_body(body@)[i],
            ))),
        r matches Ok(roles) ==> {
            &&& roles@.len() == entries_of_body(body@).len()
            &&& forall|i: int|
                0 <= i < roles@.len() ==> #[trigger] json::entry_id_of(entries_of_body(body@)[i])
                    == Some(roles@[i].id@)
            &&& forall|i: int|
                0 <= i < roles@.len() ==> #[trigger] json::entry_name_of(entries_of_body(body@)[i])
                    == Some(roles@[i].name@)
        },
{
    match json::parse_json(body) {
        Err(_) => Err(FetchError::Parse),
        Ok(content) => {
            let entries = json::envelope_entries(&content);
            let ghost evs: Seq<RoleEntry> = entries@;
            let ghost elems: Seq<serde_json::Value> = entries_of_body(body@);
            proof {
                assert(json::envelope_array(content) == elems);
                assert forall|i: int| 0 <= i < evs.len() implies (#[trigger] entry_complete(evs[i])
                    <==> element_complete(elems[i])) by {
                    assert(opt_string_view(evs[i].id) == json::entry_id_of(elems[i]));
                    assert(opt_string_view(evs[i].name) == json::entry_name_of(elems[i]));
                }
            }
            let r = roles_from_entries(entries);
            proof {
                if forall|i: int| 0 <= i < evs.len() ==> #[trigger] entry_complete(evs[i]) {
                    assert forall|i: int| 0 <= i < elems.len() implies #[trigger] element_complete(
                        elems[i],
                    ) by {
                        assert(entry_complete(evs[i]));
                    }
                }
                if forall|i: int|
                    0 <= i < elems.len() ==> #[trigger] element_complete(elems[i]) {
                    assert forall|i: int| 0 <= i < evs.len() implies #[trigger] entry_complete(
                        evs[i],
                    ) by {
                        assert(element_complete(elems[i]));
                    }
                }
                if let Ok(roles) = &r {
                    assert forall|i: int| 0 <= i < roles@.len() implies #[trigger] json::entry_id_of(
                        elems[i],
                    ) == Some(roles@[i].id@) by {
                        assert(entry_complete(evs[i]));
                        assert(roles@[i].id@ == entry_id(evs[i]));
                        assert(opt_string_view(evs[i].id) == json::entry_id_of(elems[i]));
                    }
                    assert forall|i: int|
                        0 <= i < roles@.len() implies #[trigger] json::entry_name_of(elems[i])
                        == Some(roles@[i].name@) by {
                        assert(entry_complete(evs[i]));
                        assert(roles@[i].name@ == entry_name(evs[i]));
                        assert(opt_string_view(evs[i].name) == json::entry_name_of(elems[i]));
                    }
                }
            }
            r
        },
    }
}

} // verus!
