//! The OData query URL for the PIM role-assignment endpoint.

use vstd::prelude::*;
use vstd::string::StringExecFns;

verus! {

/// The endpoint, the `$expand` clause, and the opening parenthesis of the
/// filter: everything of the URL before the equality clause on `subject/id`.
pub open spec fn url_prefix() -> Seq<char> {
    "https://api.azrbac.mspim.azure.com/api/v2/privilegedAccess/aadGroups/roleAssignments?$expand=linkedEligibleRoleAssignment,subject,scopedResource,roleDefinition($expand=resource)&$filter=("@
}

/// The single-quoted equality clause that scopes the query to one subject:
/// the given object id stands verbatim between the quotes.
pub open spec fn subject_clause(user_id: Seq<char>) -> Seq<char> {
    "subject/id eq '"@ + user_id + "'"@
}

/// The assignment-state filter and the `$count` flag: everything of the URL
/// after the equality clause on `subject/id`.
pub open spec fn url_suffix() -> Seq<char> {
    ") and (assignmentState eq 'Eligible')&$count=true"@
}

/// The whole request URL for a given subject object id.
pub open spec fn url_for(user_id: Seq<char>) -> Seq<char> {
    url_prefix() + subject_clause(user_id) + url_suffix()
}

/// The request URL embeds the given object id verbatim inside the
/// single-quoted equality clause on `subject/id`: it is exactly the fixed
/// prefix, then `subject/id eq '<id>'`, then the fixed suffix.
pub proof fn lemma_url_embeds_quoted_id(user_id: Seq<char>)
    ensures
        url_for(user_id) == url_prefix() + ("subject/id eq '"@ + user_id + "'"@) + url_suffix(),
{
}

/// Builds the GET URL that asks the role-assignment endpoint for the
/// entries whose subject is `user_id` and whose assignment state is
/// `Eligible`, with the linked role definition and resource expanded.
pub fn role_assignments_url(user_id: &str) -> (url: String)
    ensures
        url@ == url_for(user_id@),
{
    let mut url = String::from_str(
        "https://api.azrbac.mspim.azure.com/api/v2/privilegedAccess/aadGroups/roleAssignments?$expand=linkedEligibleRoleAssignment,subject,scopedResource,roleDefinition($expand=resource)&$filter=(",
    );
    url.append("subject/id eq '");
    url.append(user_id);
    url.append("'");
    url.append(") and (assignmentState eq 'Eligible')&$count=true");
    proof {
        assert(url@ =~= url_for(user_id@));
    }
    url
}

} // verus!
