//! The decision pipeline behind the webhook.
//!
//! One webhook call runs through at most three decisions, each a pure
//! function here: whether the payload starts a lookup at all
//! ([`handle_start`]), whether the item's field values show a Done status
//! and name a linked issue ([`handle_field_values`]), and what close
//! request follows from the issue-number lookup ([`handle_issue_number`]).
//! The caller performs the remote calls between the steps and hands each
//! parsed response back in; every outcome below says exactly what the
//! caller is to do next, so the remote side effects are pinned by these
//! contracts.

use vstd::prelude::*;

use crate::json::Json;
use crate::query::prepare_graphql_query;
use crate::query::prepare_issue_number_query;
use crate::query::spec_field_values_query;
use crate::query::spec_issue_number_query;

verus! {

/// Why a payload was acknowledged without any lookup.
#[derive(Clone, Copy, Debug, PartialEq, Eq)]
pub enum IgnoreReason {
    /// The payload has no `action` member.
    MissingAction,
    /// The payload's action is not `"reordered"`.
    NotReordered,
    /// The payload has no `projects_v2_item.node_id` member.
    MissingNodeId,
}

/// What a webhook payload asks of the pipeline.
#[derive(Debug, PartialEq, Eq)]
pub enum StartOutcome {
    /// Acknowledge and do nothing else.
    Ignore(IgnoreReason),
    /// Send the field-values query for the item `node_id`, and hand the
    /// response to [`handle_field_values`].
    Lookup { node_id: String, query: String },
}

/// Why the pipeline stopped after the field-values lookup.
#[derive(Clone, Copy, Debug, PartialEq, Eq)]
pub enum FieldValuesAbort {
    /// The field-values call itself failed.
    TransportFailed,
    /// No field value pairs the field name "Status" with the value "Done".
    StatusNotDone,
    /// The status is Done, but the response names no linked content.
    IssueIdNotFound,
}

/// What the field-values response asks of the pipeline.
#[derive(Debug, PartialEq, Eq)]
pub enum FieldValuesOutcome {
    /// Acknowledge and do nothing else.
    Abort(FieldValuesAbort),
    /// Send the issue-number query for the linked issue `issue_id`, and
    /// hand the response to [`handle_issue_number`].
    FetchIssueNumber { issue_id: String, query: String },
}

/// Why the pipeline stopped after the issue-number lookup.
#[derive(Clone, Copy, Debug, PartialEq, Eq)]
pub enum IssueNumberAbort {
    /// The issue-number call itself failed.
    TransportFailed,
    /// The response carries no numeric `number`.
    NumberNotFound,
    /// The field-values response names no repository.
    RepositoryNotFound,
    /// The field-values response names no repository owner.
    OwnerNotFound,
}

/// The state a close request sets the issue to.
#[derive(Clone, Copy, Debug, PartialEq, Eq, Structural)]
pub enum TargetState {
    Open,
    Closed,
}

/// What the issue-number response asks of the pipeline.
#[derive(Debug, PartialEq, Eq)]
pub enum IssueNumberOutcome {
    /// Acknowledge and do nothing else.
    Abort(IssueNumberAbort),
    /// Set issue `number` of the repository `owner`/`repo` to `state`.
    Close { owner: String, repo: String, number: u64, state: TargetState },
}

/// The payload's `action` member.
pub open spec fn spec_action(payload: Json) -> Option<Json> {
    payload.spec_get("action"@)
}

/// Whether the payload announces a reordered item: its `action` member is
/// the string "reordered".
pub open spec fn action_is_reordered(payload: Json) -> bool {
    match spec_action(payload) {
        Some(a) => a.spec_str() == Some("reordered"@),
        None => false,
    }
}

/// The payload's `projects_v2_item.node_id` member, whatever its type.
pub open spec fn spec_node_id_value(payload: Json) -> Option<Json> {
    match payload.spec_get("projects_v2_item"@) {
        Some(item) => item.spec_get("node_id"@),
        None => None,
    }
}

/// The extracted item identifier: the member's characters, or empty where
/// the member is present but no string.
pub open spec fn spec_node_id(payload: Json) -> Seq<char> {
    match spec_node_id_value(payload) {
        Some(v) => match v.spec_str() {
            Some(s) => s,
            None => Seq::empty(),
        },
        None => Seq::empty(),
    }
}

/// Whether the payload starts a lookup: a reordered action with a node
/// identifier present.
pub open spec fn spec_start_proceeds(payload: Json) -> bool {
    action_is_reordered(payload) && spec_node_id_value(payload) is Some
}

/// The queried item inside a field-values response: `data.node`.
pub open spec fn spec_item_node(first: Json) -> Json {
    first.at("data"@).at("node"@)
}

/// The field-value list of a response: `data.node.fieldValues.nodes`.
pub open spec fn spec_nodes_value(first: Json) -> Json {
    spec_item_node(first).at("fieldValues"@).at("nodes"@)
}

/// Whether one field-value node pairs the field name "Status" with the
/// single-select value "Done".
pub open spec fn node_is_done(n: Json) -> bool {
    n.at("field"@).at("name"@).spec_str() == Some("Status"@) && n.at("name"@).spec_str() == Some(
        "Done"@,
    )
}

/// Whether the response shows a Done status: some node of the field-value
/// list pairs "Status" with "Done".
pub open spec fn spec_is_done(first: Json) -> bool {
    exists|i: int|
        0 <= i < spec_nodes_value(first).spec_items().len() && node_is_done(
            #[trigger] spec_nodes_value(first).spec_items()[i],
        )
}

/// The linked content's identifier: `data.node.content.id`.
pub open spec fn spec_issue_id(first: Json) -> Option<Seq<char>> {
    spec_item_node(first).at("content"@).at("id"@).spec_str()
}

/// The linked content's repository name:
/// `data.node.content.repository.name`.
pub open spec fn spec_repo_name(first: Json) -> Option<Seq<char>> {
    spec_item_node(first).at("content"@).at("repository"@).at("name"@).spec_str()
}

/// The repository owner's login:
/// `data.node.content.repository.owner.login`.
pub open spec fn spec_owner_login(first: Json) -> Option<Seq<char>> {
    spec_item_node(first).at("content"@).at("repository"@).at("owner"@).at("login"@).spec_str()
}

/// The issue number inside an issue-number response: `data.node.number`.
pub open spec fn spec_issue_number(second: Json) -> Option<u64> {
    second.at("data"@).at("node"@).at("number"@).spec_u64()
}

/// The close request the whole pipeline issues for a pair of responses:
/// the (owner, repository, number) target, present exactly when the Done
/// condition holds and every lookup succeeds.
pub open spec fn spec_close_request(first: Json, second: Json) -> Option<
    (Seq<char>, Seq<char>, u64),
> {
    match (spec_owner_login(first), spec_repo_name(first), spec_issue_number(second)) {
        (Some(owner), Some(repo), Some(number)) => if spec_is_done(first) && spec_issue_id(first)
            is Some {
            Some((owner, repo, number))
        } else {
            None
        },
        _ => None,
    }
}

/// Decides what a webhook payload asks for: the field-values lookup for
/// its item, or nothing, with the reason.
pub fn handle_start(payload: &Json) -> (r: StartOutcome)
    ensures
        (r == StartOutcome::Ignore(IgnoreReason::MissingAction)) <==> spec_action(*payload)
            is None,
        (r == StartOutcome::Ignore(IgnoreReason::NotReordered)) <==> (spec_action(*payload) is Some
            && !action_is_reordered(*payload)),
        (r == StartOutcome::Ignore(IgnoreReason::MissingNodeId)) <==> (action_is_reordered(*payload)
            && spec_node_id_value(*payload) is None),
        (r is Lookup) <==> spec_start_proceeds(*payload),
        (r matches StartOutcome::Lookup { node_id, query } ==> node_id@ == spec_node_id(*payload)
            && query@ == spec_field_values_query(spec_node_id(*payload))),
{
    let action = match payload.get("action") {
        Some(a) => a,
        None => {
            return StartOutcome::Ignore(IgnoreReason::MissingAction);
        },
    };
    if !action.is_string("reordered") {
        return StartOutcome::Ignore(IgnoreReason::NotReordered);
    }
    let item = match payload.get("projects_v2_item") {
        Some(v) => v,
        None => {
            return StartOutcome::Ignore(IgnoreReason::MissingNodeId);
        },
    };
    let node_value = match item.get("node_id") {
        Some(v) => v,
        None => {
            return StartOutcome::Ignore(IgnoreReason::MissingNodeId);
        },
    };
    let node_id: String = match node_value.as_str() {
        Some(s) => s.to_owned(),
        None => String::new(),
    };
    let query = prepare_graphql_query(node_id.as_str());
    StartOutcome::Lookup { node_id, query }
}

/// The queried item of the first response, if the response reaches it.
fn node_of<'a>(first: &'a Json) -> (r: Option<&'a Json>)
    ensures
        match r {
            Some(v) => *v == spec_item_node(*first),
            None => spec_item_node(*first) == Json::Null,
        },
{
    let d = match first.get("data") {
        Some(v) => v,
        None => {
            return None;
        },
    };
    d.get("node")
}

/// The linked content of the first response, if the response reaches it.
fn content_of<'a>(first: &'a Json) -> (r: Option<&'a Json>)
    ensures
        match r {
            Some(v) => *v == spec_item_node(*first).at("content"@),
            None => spec_item_node(*first).at("content"@) == Json::Null,
        },
{
    let n = match node_of(first) {
        Some(v) => v,
        None => {
            return None;
        },
    };
    n.get("content")
}

/// The linked content's repository, if the response reaches it.
fn repository_of<'a>(first: &'a Json) -> (r: Option<&'a Json>)
    ensures
        match r {
            Some(v) => *v == spec_item_node(*first).at("content"@).at("repository"@),
            None => spec_item_node(*first).at("content"@).at("repository"@) == Json::Null,
        },
{
    let c = match content_of(first) {
        Some(v) => v,
        None => {
            return None;
        },
    };
    c.get("repository")
}

/// The field-value list of the first response, if it is an array.
fn field_nodes<'a>(first: &'a Json) -> (r: Option<&'a Vec<Json>>)
    ensures
        match r {
            Some(items) => spec_nodes_value(*first).spec_items() == items@,
            None => spec_nodes_value(*first).spec_items() == Seq::<Json>::empty(),
        },
{
    let n = match node_of(first) {
        Some(v) => v,
        None => {
            return None;
        },
    };
    let fv = match n.get("fieldValues") {
        Some(v) => v,
        None => {
            return None;
        },
    };
    let nodes = match fv.get("nodes") {
        Some(v) => v,
        None => {
            return None;
        },
    };
    nodes.as_array()
}

/// Whether one field-value node pairs "Status" with "Done".
fn field_node_is_done(n: &Json) -> (r: bool)
    ensures
        r == node_is_done(*n),
{
    let field_matches = match n.get("field") {
        Some(f) => match f.get("name") {
            Some(v) => v.is_string("Status"),
            None => false,
        },
        None => false,
    };
    if !field_matches {
        return false;
    }
    match n.get("name") {
        Some(v) => v.is_string("Done"),
        None => false,
    }
}

/// Scans the field-value list in order for a node that pairs "Status"
/// with "Done"; the first match settles it.
fn status_is_done(first: &Json) -> (r: bool)
    ensures
        r == spec_is_done(*first),
{
    let nodes = match field_nodes(first) {
        Some(v) => v,
        None => {
            return false;
        },
    };
    let n = nodes.len();
    let mut i: usize = 0;
    while i < n
        invariant
            n == nodes.len(),
            i <= n,
            spec_nodes_value(*first).spec_items() == nodes@,
            forall|k: int| 0 <= k < i ==> !node_is_done(#[trigger] nodes@[k]),
        decreases n - i,
    {
        if field_node_is_done(&nodes[i]) {
            proof {
                assert(node_is_done(spec_nodes_value(*first).spec_items()[i as int]));
            }
            return true;
        }
        i = i + 1;
    }
    false
}

/// The linked content's identifier, if the first response names one.
fn issue_id_of<'a>(first: &'a Json) -> (r: Option<&'a str>)
    ensures
        match r {
            Some(s) => spec_issue_id(*first) == Some(s@),
            None => spec_issue_id(*first) is None,
        },
{
    let c = match content_of(first) {
        Some(v) => v,
        None => {
            return None;
        },
    };
    match c.get("id") {
        Some(v) => v.as_str(),
        None => None,
    }
}

/// The repository name, if the first response names one.
fn repo_name_of<'a>(first: &'a Json) -> (r: Option<&'a str>)
    ensures
        match r {
            Some(s) => spec_repo_name(*first) == Some(s@),
            None => spec_repo_name(*first) is None,
        },
{
    let rep = match repository_of(first) {
        Some(v) => v,
        None => {
            return None;
        },
    };
    match rep.get("name") {
        Some(v) => v.as_str(),
        None => None,
    }
}

/// The repository owner's login, if the first response names one.
fn owner_login_of<'a>(first: &'a Json) -> (r: Option<&'a str>)
    ensures
        match r {
            Some(s) => spec_owner_login(*first) == Some(s@),
            None => spec_owner_login(*first) is None,
        },
{
    let rep = match repository_of(first) {
        Some(v) => v,
        None => {
            return None;
        },
    };
    let owner = match rep.get("owner") {
        Some(v) => v,
        None => {
            return None;
        },
    };
    match owner.get("login") {
        Some(v) => v.as_str(),
        None => None,
    }
}

/// The issue number, if the second response carries one.
fn issue_number_of(second: &Json) -> (r: Option<u64>)
    ensures
        r == spec_issue_number(*second),
{
    let d = match second.get("data") {
        Some(v) => v,
        None => {
            return None;
        },
    };
    let n = match d.get("node") {
        Some(v) => v,
        None => {
            return None;
        },
    };
    match n.get("number") {
        Some(v) => v.as_u64(),
        None => None,
    }
}

/// Decides what the field-values response asks for: the issue-number
/// lookup for the linked issue, or nothing, with the reason.  `None`
/// stands for a failed field-values call.
pub fn handle_field_values(response: Option<&Json>) -> (r: FieldValuesOutcome)
    ensures
        (r == FieldValuesOutcome::Abort(FieldValuesAbort::TransportFailed)) <==> response is None,
        (r == FieldValuesOutcome::Abort(FieldValuesAbort::StatusNotDone)) <==> (response matches
            Some(j) && !spec_is_done(*j)),
        (r == FieldValuesOutcome::Abort(FieldValuesAbort::IssueIdNotFound)) <==> (response matches
            Some(j) && spec_is_done(*j) && spec_issue_id(*j) is None),
        (r matches FieldValuesOutcome::FetchIssueNumber { issue_id, query } ==> (response matches
            Some(j) && spec_is_done(*j) && spec_issue_id(*j) == Some(issue_id@) && query@
            == spec_issue_number_query(issue_id@))),
{
    let first = match response {
        Some(j) => j,
        None => {
            return FieldValuesOutcome::Abort(FieldValuesAbort::TransportFailed);
        },
    };
    if !status_is_done(first) {
        return FieldValuesOutcome::Abort(FieldValuesAbort::StatusNotDone);
    }
    match issue_id_of(first) {
        Some(id) => {
            let query = prepare_issue_number_query(id);
            let issue_id: String = id.to_owned();
            FieldValuesOutcome::FetchIssueNumber { issue_id, query }
        },
        None => FieldValuesOutcome::Abort(FieldValuesAbort::IssueIdNotFound),
    }
}

/// Decides what the issue-number response asks for: the close request
/// against the issue's repository, or nothing, with the reason.  `None`
/// stands for a failed issue-number call; `first` is the field-values
/// response, which names the repository.
pub fn handle_issue_number(first: &Json, response: Option<&Json>) -> (r: IssueNumberOutcome)
    ensures
        (r == IssueNumberOutcome::Abort(IssueNumberAbort::TransportFailed)) <==> response is None,
        (r == IssueNumberOutcome::Abort(IssueNumberAbort::NumberNotFound)) <==> (response matches
            Some(j2) && spec_issue_number(*j2) is None),
        (r == IssueNumberOutcome::Abort(IssueNumberAbort::RepositoryNotFound)) <==> (response
            matches Some(j2) && spec_issue_number(*j2) is Some && spec_repo_name(*first) is None),
        (r == IssueNumberOutcome::Abort(IssueNumberAbort::OwnerNotFound)) <==> (response matches
            Some(j2) && spec_issue_number(*j2) is Some && spec_repo_name(*first) is Some
            && spec_owner_login(*first) is None),
        (r matches IssueNumberOutcome::Close { owner, repo, number, state } ==> (response matches
            Some(j2) && spec_issue_number(*j2) == Some(number) && spec_repo_name(*first) == Some(
            repo@,
        ) && spec_owner_login(*first) == Some(owner@) && state == TargetState::Closed)),
{
    let second = match response {
        Some(j) => j,
        None => {
            return IssueNumberOutcome::Abort(IssueNumberAbort::TransportFailed);
        },
    };
    let number = match issue_number_of(second) {
        Some(n) => n,
        None => {
            return IssueNumberOutcome::Abort(IssueNumberAbort::NumberNotFound);
        },
    };
    let repo: String = match repo_name_of(first) {
        Some(s) => s.to_owned(),
        None => {
            return IssueNumberOutcome::Abort(IssueNumberAbort::RepositoryNotFound);
        },
    };
    let owner: String = match owner_login_of(first) {
        Some(s) => s.to_owned(),
        None => {
            return IssueNumberOutcome::Abort(IssueNumberAbort::OwnerNotFound);
        },
    };
    IssueNumberOutcome::Close { owner, repo, number, state: TargetState::Closed }
}

/// An irrelevant or malformed payload — no `action` member, an action
/// other than "reordered", or no node identifier — starts no lookup, so
/// the pipeline makes no remote call for it.
pub proof fn lemma_irrelevant_payload_starts_nothing(payload: Json)
    requires
        spec_action(payload) is None || !action_is_reordered(payload) || spec_node_id_value(payload)
            is None,
    ensures
        !spec_start_proceeds(payload),
{
}

/// A field-values response that pairs "Status" with "Done" and names a
/// linked issue, together with a successful issue-number lookup and a
/// named repository and owner, yields a close request against exactly
/// that owner, repository and number.
pub proof fn lemma_done_status_closes_exact_issue(
    first: Json,
    second: Json,
    owner: Seq<char>,
    repo: Seq<char>,
    number: u64,
)
    requires
        spec_is_done(first),
        spec_issue_id(first) is Some,
        spec_issue_number(second) == Some(number),
        spec_repo_name(first) == Some(repo),
        spec_owner_login(first) == Some(owner),
    ensures
        spec_close_request(first, second) == Some((owner, repo, number)),
{
}

/// Where no field-value node pairs "Status" with "Done" — a Status field
/// carrying "In Progress", say — the pipeline issues no close request,
/// whatever else the responses hold.
pub proof fn lemma_not_done_no_mutation(first: Json, second: Json)
    requires
        forall|i: int|
            0 <= i < spec_nodes_value(first).spec_items().len() && (
            #[trigger] spec_nodes_value(first).spec_items()[i]).at("field"@).at(
                "name"@,
            ).spec_str() == Some("Status"@) ==> spec_nodes_value(first).spec_items()[i].at(
                "name"@,
            ).spec_str() != Some("Done"@),
    ensures
        spec_close_request(first, second) is None,
{
    assert(!spec_is_done(first)) by {
        if spec_is_done(first) {
            let i = choose|i: int|
                0 <= i < spec_nodes_value(first).spec_items().len() && node_is_done(
                    #[trigger] spec_nodes_value(first).spec_items()[i],
                );
            assert(spec_nodes_value(first).spec_items()[i].at("field"@).at("name"@).spec_str()
                == Some("Status"@));
            assert(false);
        }
    }
}

/// A close request only ever follows a Done status: whenever the pipeline
/// asks for a mutation, some field-value node paired "Status" with
/// "Done".
pub proof fn lemma_mutation_only_when_done(first: Json, second: Json)
    requires
        spec_close_request(first, second) is Some,
    ensures
        spec_is_done(first),
{
}

/// A Done status whose response names no repository owner yields no close
/// request: the pipeline stops short of the mutation.
pub proof fn lemma_missing_owner_no_mutation(first: Json, second: Json)
    requires
        spec_is_done(first),
        spec_owner_login(first) is None,
    ensures
        spec_close_request(first, second) is None,
{
}

} // verus!

