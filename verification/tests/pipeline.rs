use project_card_mover::acknowledgment;
use project_card_mover::json::Json;
use project_card_mover::pipeline::FieldValuesAbort;
use project_card_mover::pipeline::FieldValuesOutcome;
use project_card_mover::pipeline::IgnoreReason;
use project_card_mover::pipeline::IssueNumberAbort;
use project_card_mover::pipeline::IssueNumberOutcome;
use project_card_mover::pipeline::StartOutcome;
use project_card_mover::pipeline::TargetState;
use project_card_mover::pipeline::handle_field_values;
use project_card_mover::pipeline::handle_issue_number;
use project_card_mover::pipeline::handle_start;
use project_card_mover::query::prepare_graphql_query;
use project_card_mover::query::prepare_issue_number_query;

fn obj(pairs: Vec<(&str, Json)>) -> Json {
    Json::Obj(pairs.into_iter().map(|(k, v)| (k.to_string(), v)).collect())
}

fn text(s: &str) -> Json {
    Json::Str(s.to_string())
}

/// A field-value node pairing the field `field_name` with the
/// single-select value `value`.
fn field_value_node(field_name: &str, value: &str) -> Json {
    obj(vec![
        ("name", text(value)),
        ("field", obj(vec![("name", text(field_name))])),
    ])
}

/// A field-values response whose item holds the given field-value nodes
/// and the given linked content.
fn first_response(nodes: Vec<Json>, content: Json) -> Json {
    obj(vec![(
        "data",
        obj(vec![(
            "node",
            obj(vec![
                ("id", text("PVTI_item")),
                ("fieldValues", obj(vec![("nodes", Json::Arr(nodes))])),
                ("content", content),
            ]),
        )]),
    )])
}

/// A linked issue with identifier, title, repository and owner.
fn full_content() -> Json {
    obj(vec![
        ("id", text("I_issue42")),
        ("title", text("Fix the widget")),
        (
            "repository",
            obj(vec![
                ("name", text("hello-world")),
                ("owner", obj(vec![("login", text("octocat"))])),
            ]),
        ),
    ])
}

/// An issue-number response carrying `number`.
fn second_response(number: u64) -> Json {
    obj(vec![(
        "data",
        obj(vec![("node", obj(vec![("number", Json::UInt(number))]))]),
    )])
}

fn reordered_payload(node_id: Json) -> Json {
    obj(vec![
        ("action", text("reordered")),
        ("projects_v2_item", obj(vec![("node_id", node_id)])),
    ])
}

#[test]
fn ack_body_is_fixed() {
    assert_eq!(acknowledgment(), "Webhook received");
}

#[test]
fn missing_action_is_ignored() {
    let payload = obj(vec![("zen", text("Design for failure."))]);
    assert_eq!(
        handle_start(&payload),
        StartOutcome::Ignore(IgnoreReason::MissingAction)
    );
}

#[test]
fn non_reordered_action_is_ignored() {
    let payload = obj(vec![("action", text("created"))]);
    assert_eq!(
        handle_start(&payload),
        StartOutcome::Ignore(IgnoreReason::NotReordered)
    );
}

#[test]
fn non_string_action_is_ignored() {
    let payload = obj(vec![("action", Json::UInt(7))]);
    assert_eq!(
        handle_start(&payload),
        StartOutcome::Ignore(IgnoreReason::NotReordered)
    );
}

#[test]
fn missing_item_is_ignored() {
    let payload = obj(vec![("action", text("reordered"))]);
    assert_eq!(
        handle_start(&payload),
        StartOutcome::Ignore(IgnoreReason::MissingNodeId)
    );
}

#[test]
fn missing_node_id_is_ignored() {
    let payload = obj(vec![
        ("action", text("reordered")),
        ("projects_v2_item", obj(vec![("node", text("x"))])),
    ]);
    assert_eq!(
        handle_start(&payload),
        StartOutcome::Ignore(IgnoreReason::MissingNodeId)
    );
}

#[test]
fn reordered_payload_starts_lookup() {
    let payload = reordered_payload(text("PVTI_abc"));
    match handle_start(&payload) {
        StartOutcome::Lookup { node_id, query } => {
            assert_eq!(node_id, "PVTI_abc");
            assert_eq!(query, prepare_graphql_query("PVTI_abc"));
        }
        other => panic!("expected a lookup, got {:?}", other),
    }
}

#[test]
fn non_string_node_id_becomes_empty() {
    let payload = reordered_payload(Json::UInt(5));
    match handle_start(&payload) {
        StartOutcome::Lookup { node_id, query } => {
            assert_eq!(node_id, "");
            assert_eq!(query, prepare_graphql_query(""));
        }
        other => panic!("expected a lookup, got {:?}", other),
    }
}

#[test]
fn done_status_fetches_issue_number() {
    let first = first_response(vec![field_value_node("Status", "Done")], full_content());
    match handle_field_values(Some(&first)) {
        FieldValuesOutcome::FetchIssueNumber { issue_id, query } => {
            assert_eq!(issue_id, "I_issue42");
            assert_eq!(query, prepare_issue_number_query("I_issue42"));
        }
        other => panic!("expected an issue-number fetch, got {:?}", other),
    }
}

#[test]
fn done_status_closes_exact_issue() {
    let first = first_response(vec![field_value_node("Status", "Done")], full_content());
    let second = second_response(42);
    assert!(matches!(
        handle_field_values(Some(&first)),
        FieldValuesOutcome::FetchIssueNumber { .. }
    ));
    assert_eq!(
        handle_issue_number(&first, Some(&second)),
        IssueNumberOutcome::Close {
            owner: "octocat".to_string(),
            repo: "hello-world".to_string(),
            number: 42,
            state: TargetState::Closed,
        }
    );
}

#[test]
fn in_progress_status_is_not_done() {
    let first = first_response(
        vec![field_value_node("Status", "In Progress")],
        full_content(),
    );
    assert_eq!(
        handle_field_values(Some(&first)),
        FieldValuesOutcome::Abort(FieldValuesAbort::StatusNotDone)
    );
}

#[test]
fn done_under_another_field_is_not_done() {
    let first = first_response(vec![field_value_node("Phase", "Done")], full_content());
    assert_eq!(
        handle_field_values(Some(&first)),
        FieldValuesOutcome::Abort(FieldValuesAbort::StatusNotDone)
    );
}

#[test]
fn later_done_node_still_counts() {
    let first = first_response(
        vec![
            field_value_node("Priority", "High"),
            field_value_node("Status", "Done"),
        ],
        full_content(),
    );
    assert!(matches!(
        handle_field_values(Some(&first)),
        FieldValuesOutcome::FetchIssueNumber { .. }
    ));
}

#[test]
fn empty_field_value_list_is_not_done() {
    let first = first_response(vec![], full_content());
    assert_eq!(
        handle_field_values(Some(&first)),
        FieldValuesOutcome::Abort(FieldValuesAbort::StatusNotDone)
    );
}

#[test]
fn missing_field_values_is_not_done() {
    let first = obj(vec![(
        "data",
        obj(vec![("node", obj(vec![("content", full_content())]))]),
    )]);
    assert_eq!(
        handle_field_values(Some(&first)),
        FieldValuesOutcome::Abort(FieldValuesAbort::StatusNotDone)
    );
}

#[test]
fn done_without_content_id_aborts() {
    let first = first_response(vec![field_value_node("Status", "Done")], obj(vec![]));
    assert_eq!(
        handle_field_values(Some(&first)),
        FieldValuesOutcome::Abort(FieldValuesAbort::IssueIdNotFound)
    );
}

#[test]
fn first_transport_failure_aborts() {
    assert_eq!(
        handle_field_values(None),
        FieldValuesOutcome::Abort(FieldValuesAbort::TransportFailed)
    );
}

#[test]
fn second_transport_failure_aborts() {
    let first = first_response(vec![field_value_node("Status", "Done")], full_content());
    assert_eq!(
        handle_issue_number(&first, None),
        IssueNumberOutcome::Abort(IssueNumberAbort::TransportFailed)
    );
}

#[test]
fn missing_number_aborts() {
    let first = first_response(vec![field_value_node("Status", "Done")], full_content());
    let second = obj(vec![("data", obj(vec![("node", obj(vec![]))]))]);
    assert_eq!(
        handle_issue_number(&first, Some(&second)),
        IssueNumberOutcome::Abort(IssueNumberAbort::NumberNotFound)
    );
}

#[test]
fn non_integer_number_aborts() {
    let first = first_response(vec![field_value_node("Status", "Done")], full_content());
    let second = obj(vec![(
        "data",
        obj(vec![("node", obj(vec![("number", Json::OtherNumber)]))]),
    )]);
    assert_eq!(
        handle_issue_number(&first, Some(&second)),
        IssueNumberOutcome::Abort(IssueNumberAbort::NumberNotFound)
    );
}

#[test]
fn missing_repository_aborts() {
    let first = first_response(
        vec![field_value_node("Status", "Done")],
        obj(vec![("id", text("I_issue42"))]),
    );
    let second = second_response(42);
    assert_eq!(
        handle_issue_number(&first, Some(&second)),
        IssueNumberOutcome::Abort(IssueNumberAbort::RepositoryNotFound)
    );
}

#[test]
fn missing_owner_login_aborts() {
    let first = first_response(
        vec![field_value_node("Status", "Done")],
        obj(vec![
            ("id", text("I_issue42")),
            ("repository", obj(vec![("name", text("hello-world"))])),
        ]),
    );
    let second = second_response(42);
    assert_eq!(
        handle_issue_number(&first, Some(&second)),
        IssueNumberOutcome::Abort(IssueNumberAbort::OwnerNotFound)
    );
}

#[test]
fn json_get_finds_first_entry_of_that_name() {
    let doc = Json::Obj(vec![
        ("a".to_string(), Json::UInt(1)),
        ("a".to_string(), Json::UInt(2)),
    ]);
    match doc.get("a") {
        Some(Json::UInt(n)) => assert_eq!(*n, 1),
        other => panic!("expected the first entry, got {:?}", other),
    }
    assert!(doc.get("b").is_none());
}

#[test]
fn json_accessors_refuse_other_shapes() {
    assert!(Json::Null.get("a").is_none());
    assert!(Json::Bool(true).as_str().is_none());
    assert!(Json::OtherNumber.as_u64().is_none());
    assert!(Json::Str("x".to_string()).as_array().is_none());
    assert_eq!(Json::UInt(9).as_u64(), Some(9));
    assert_eq!(Json::Str("x".to_string()).as_str(), Some("x"));
    assert!(text("reordered").is_string("reordered"));
    assert!(!text("reordered").is_string("created"));
}
