//! Construction of the two GraphQL query documents.
//!
//! Each document is a fixed template with one identifier substituted into
//! it.  The builders return exactly the template's text around the
//! identifier, and the lemmas at the end show that for an alphanumeric
//! identifier the substitution happens at exactly one place: the identifier
//! stands at the known position, and no placeholder token survives in the
//! result.

use vstd::prelude::*;
use vstd::string::StringExecFns;

verus! {

/// The opening of both query documents, up to the quote that the
/// substituted identifier follows.
pub open spec fn query_head() -> Seq<char> {
    "
    query {
        node(id: \""@
}

/// The rest of the field-values document, from the quote that closes the
/// identifier.
pub open spec fn field_query_tail() -> Seq<char> {
    "\") {
            ... on ProjectV2Item {
                id
                fieldValues(first: 8) {
                    nodes {
                        ... on ProjectV2ItemFieldTextValue {
                            text
                            field {
                                ... on ProjectV2FieldCommon {
                                    name
                                }
                            }
                        }
                        ... on ProjectV2ItemFieldDateValue {
                            date
                            field {
                                ... on ProjectV2FieldCommon {
                                    name
                                }
                            }
                        }
                        ... on ProjectV2ItemFieldSingleSelectValue {
                            name
                            field {
                                ... on ProjectV2FieldCommon {
                                    name
                                }
                            }
                        }
                    }
                }
                content {
                    ... on Issue {
                        id
                        title
                        repository {
                            name
                            owner {
                                login
                            }
                        }
                        assignees(first: 10) {
                            nodes {
                                login
                            }
                        }
                    }
                    ... on PullRequest {
                        id
                        title
                        assignees(first: 10) {
                            nodes {
                                login
                            }
                        }
                    }
                }
            }
        }
    }
    "@
}

/// The rest of the issue-number document, from the quote that closes the
/// identifier.
pub open spec fn issue_query_tail() -> Seq<char> {
    "\") {
            ... on Issue {
                number
            }
        }
    }
    "@
}

/// The placeholder token that the field-values template carries before
/// substitution.
pub open spec fn node_id_placeholder() -> Seq<char> {
    "$nodeId"@
}

/// The placeholder token that the issue-number template carries before
/// substitution.
pub open spec fn issue_id_placeholder() -> Seq<char> {
    "$issueId"@
}

/// The field-values document for an item identifier.
pub open spec fn spec_field_values_query(id: Seq<char>) -> Seq<char> {
    query_head() + id + field_query_tail()
}

/// The issue-number document for an issue identifier.
pub open spec fn spec_issue_number_query(id: Seq<char>) -> Seq<char> {
    query_head() + id + issue_query_tail()
}

/// Builds the field-values query for a project item: the fixed template
/// with `node_id` substituted for its placeholder.
pub fn prepare_graphql_query(node_id: &str) -> (r: String)
    ensures
        r@ == spec_field_values_query(node_id@),
{
    let mut q: String = "
    query {
        node(id: \"".to_owned();
    q.append(node_id);
    q.append(
        "\") {
            ... on ProjectV2Item {
                id
                fieldValues(first: 8) {
                    nodes {
                        ... on ProjectV2ItemFieldTextValue {
                            text
                            field {
                                ... on ProjectV2FieldCommon {
                                    name
                                }
                            }
                        }
                        ... on ProjectV2ItemFieldDateValue {
                            date
                            field {
                                ... on ProjectV2FieldCommon {
                                    name
                                }
                            }
                        }
                        ... on ProjectV2ItemFieldSingleSelectValue {
                            name
                            field {
                                ... on ProjectV2FieldCommon {
                                    name
                                }
                            }
                        }
                    }
                }
                content {
                    ... on Issue {
                        id
                        title
                        repository {
                            name
                            owner {
                                login
                            }
                        }
                        assignees(first: 10) {
                            nodes {
                                login
                            }
                        }
                    }
                    ... on PullRequest {
                        id
                        title
                        assignees(first: 10) {
                            nodes {
                                login
                            }
                        }
                    }
                }
            }
        }
    }
    ",
    );
    q
}

/// Builds the issue-number query for an issue identifier: the fixed
/// template with `issue_id` substituted for its placeholder.
pub fn prepare_issue_number_query(issue_id: &str) -> (r: String)
    ensures
        r@ == spec_issue_number_query(issue_id@),
{
    let mut q: String = "
    query {
        node(id: \"".to_owned();
    q.append(issue_id);
    q.append(
        "\") {
            ... on Issue {
                number
            }
        }
    }
    ",
    );
    q
}

/// No character of `s` is the `'$'` that starts a placeholder token.
pub open spec fn no_dollar(s: Seq<char>) -> bool {
    forall|i: int| 0 <= i < s.len() ==> s[i] != '$'
}

/// The token `tok` stands in `hay` beginning at position `i`.
pub open spec fn occurs_at(hay: Seq<char>, tok: Seq<char>, i: int) -> bool {
    0 <= i && i + tok.len() <= hay.len() && hay.subrange(i, i + tok.len()) == tok
}

/// The token `tok` stands somewhere in `hay`.
pub open spec fn contains_token(hay: Seq<char>, tok: Seq<char>) -> bool {
    exists|i: int| occurs_at(hay, tok, i)
}

/// An ASCII digit or letter.
pub open spec fn is_ascii_alphanumeric(c: char) -> bool {
    (48 <= c as u32 && c as u32 <= 57) || (65 <= c as u32 && c as u32 <= 90) || (97 <= c as u32
        && c as u32 <= 122)
}

proof fn lemma_query_head_no_dollar()
    ensures
        no_dollar(query_head()),
{
    reveal_strlit(
        "
    query {
        node(id: \"",
    );
}

#[verifier::rlimit(60)]
proof fn lemma_field_tail_no_dollar()
    ensures
        no_dollar(field_query_tail()),
{
    reveal_strlit(
        "\") {
            ... on ProjectV2Item {
                id
                fieldValues(first: 8) {
                    nodes {
                        ... on ProjectV2ItemFieldTextValue {
                            text
                            field {
                                ... on ProjectV2FieldCommon {
                                    name
                                }
                            }
                        }
                        ... on ProjectV2ItemFieldDateValue {
                            date
                            field {
                                ... on ProjectV2FieldCommon {
                                    name
                                }
                            }
                        }
                        ... on ProjectV2ItemFieldSingleSelectValue {
                            name
                            field {
                                ... on ProjectV2FieldCommon {
                                    name
                                }
                            }
                        }
                    }
                }
                content {
                    ... on Issue {
                        id
                        title
                        repository {
                            name
                            owner {
                                login
                            }
                        }
                        assignees(first: 10) {
                            nodes {
                                login
                            }
                        }
                    }
                    ... on PullRequest {
                        id
                        title
                        assignees(first: 10) {
                            nodes {
                                login
                            }
                        }
                    }
                }
            }
        }
    }
    ",
    );
}

proof fn lemma_issue_tail_no_dollar()
    ensures
        no_dollar(issue_query_tail()),
{
    reveal_strlit(
        "\") {
            ... on Issue {
                number
            }
        }
    }
    ",
    );
}

/// A token that begins with `'$'` cannot stand in a text that has no
/// `'$'` anywhere.
proof fn lemma_no_dollar_no_token(hay: Seq<char>, tok: Seq<char>)
    requires
        no_dollar(hay),
        tok.len() > 0,
        tok[0] == '$',
    ensures
        !contains_token(hay, tok),
{
    assert forall|i: int| !occurs_at(hay, tok, i) by {
        if occurs_at(hay, tok, i) {
            assert(hay.subrange(i, i + tok.len())[0] == hay[i]);
            assert(hay[i] != '$');
        }
    }
}

/// An affix of head, identifier and tail around a dollar-free identifier
/// holds the identifier at exactly the head's length, and no token that
/// begins with `'$'` anywhere.
proof fn lemma_affix_substitution(head: Seq<char>, id: Seq<char>, tail: Seq<char>, tok: Seq<char>)
    requires
        no_dollar(head),
        no_dollar(tail),
        forall|i: int| 0 <= i < id.len() ==> is_ascii_alphanumeric(#[trigger] id[i]),
        tok.len() > 0,
        tok[0] == '$',
    ensures
        occurs_at(head + id + tail, id, head.len() as int),
        !contains_token(head + id + tail, tok),
{
    let q = head + id + tail;
    assert(q.subrange(head.len() as int, (head.len() + id.len()) as int) =~= id);
    assert forall|i: int| 0 <= i < q.len() implies q[i] != '$' by {
        if i < head.len() {
            assert(q[i] == head[i]);
        } else if i < head.len() + id.len() {
            assert(q[i] == id[i - head.len()]);
            assert(is_ascii_alphanumeric(id[i - head.len()]));
        } else {
            assert(q[i] == tail[i - head.len() - id.len()]);
        }
    }
    lemma_no_dollar_no_token(q, tok);
}

/// Substituting an alphanumeric identifier into the field-values template
/// touches exactly one place: the identifier stands at the position right
/// after the template's opening, and the placeholder token stands nowhere
/// in the result, so substituting again would find nothing to replace.
pub proof fn lemma_field_query_single_substitution(id: Seq<char>)
    requires
        id.len() > 0,
        forall|i: int| 0 <= i < id.len() ==> is_ascii_alphanumeric(#[trigger] id[i]),
    ensures
        occurs_at(spec_field_values_query(id), id, query_head().len() as int),
        !contains_token(spec_field_values_query(id), node_id_placeholder()),
{
    reveal_strlit("$nodeId");
    lemma_query_head_no_dollar();
    lemma_field_tail_no_dollar();
    lemma_affix_substitution(query_head(), id, field_query_tail(), node_id_placeholder());
}

/// The same single-substitution statement for the issue-number template.
pub proof fn lemma_issue_query_single_substitution(id: Seq<char>)
    requires
        id.len() > 0,
        forall|i: int| 0 <= i < id.len() ==> is_ascii_alphanumeric(#[trigger] id[i]),
    ensures
        occurs_at(spec_issue_number_query(id), id, query_head().len() as int),
        !contains_token(spec_issue_number_query(id), issue_id_placeholder()),
{
    reveal_strlit("$issueId");
    lemma_query_head_no_dollar();
    lemma_issue_tail_no_dollar();
    lemma_affix_substitution(query_head(), id, issue_query_tail(), issue_id_placeholder());
}

} // verus!
