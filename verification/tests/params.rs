use n8n_mcp::args::{check, check_filter, find_fault, read_count, read_document, read_filter, read_flag, read_text};
use n8n_mcp::{
    AllOrNone, CreateWorkflowParams, ExecutionStatus, Fault, Id, Json, Number, ParamKind,
    RetrieveAllWorkflowParams, RetrieveSingleWorkflowParams, Tool, WorkflowSettings,
};

fn ob(members: Vec<(&str, Json)>) -> Json {
    Json::Object(members.into_iter().map(|(k, v)| (k.to_string(), v)).collect())
}

fn tx(s: &str) -> Json {
    Json::Text(s.to_string())
}

#[test]
fn all_or_none_is_shown_by_its_word() {
    assert_eq!(AllOrNone::All.to_string(), "all");
    assert_eq!(AllOrNone::Nothing.to_string(), "none");
    assert_eq!(AllOrNone::All.as_str(), "all");
    assert_eq!(AllOrNone::Nothing.as_str(), "none");
    assert_eq!(AllOrNone::default(), AllOrNone::All);
}

#[test]
fn execution_status_goes_by_its_word() {
    assert_eq!(ExecutionStatus::Error.as_str(), "error");
    assert_eq!(ExecutionStatus::Success.as_str(), "success");
    assert_eq!(ExecutionStatus::Waiting.as_str(), "waiting");
    for status in [ExecutionStatus::Error, ExecutionStatus::Success, ExecutionStatus::Waiting] {
        assert_eq!(ExecutionStatus::from_wire(status.as_str()), Some(status));
    }
    assert_eq!(ExecutionStatus::from_wire("Error"), None);
    assert_eq!(ExecutionStatus::from_wire(""), None);
}

#[test]
fn workflow_settings_start_out_plain() {
    let settings = WorkflowSettings::default();
    assert_eq!(
        settings,
        WorkflowSettings {
            save_execution_progress: false,
            save_manual_executions: false,
            save_data_error_execution: AllOrNone::All,
            save_data_success_execution: AllOrNone::All,
            execution_timeout: 0,
        }
    );
}

#[test]
fn workflow_settings_are_written_with_their_words() {
    let settings = WorkflowSettings {
        save_execution_progress: true,
        save_manual_executions: false,
        save_data_error_execution: AllOrNone::Nothing,
        save_data_success_execution: AllOrNone::All,
        execution_timeout: 65535,
    };
    assert_eq!(
        settings.to_json(),
        ob(vec![
            ("save_execution_progress", Json::Bool(true)),
            ("save_manual_executions", Json::Bool(false)),
            ("save_data_error_execution", tx("none")),
            ("save_data_success_execution", tx("all")),
            ("execution_timeout", Json::Number(Number::Unsigned(65535))),
        ])
    );
}

#[test]
fn a_tag_is_written_by_its_id() {
    assert_eq!(Id { id: "t-1".to_string() }.to_json(), ob(vec![("id", tx("t-1"))]));
}

#[test]
fn filters_that_are_set_are_written_in_order() {
    let filter = RetrieveAllWorkflowParams {
        active: Some(false),
        tags: None,
        name: Some("n".to_string()),
        project_id: None,
        exclude_pinned_data: Some("false".to_string()),
        limit: Some(255),
        cursor: None,
    };
    assert_eq!(
        filter.to_query(),
        vec![
            ("active".to_string(), Json::Bool(false)),
            ("name".to_string(), tx("n")),
            ("exclude_pinned_data".to_string(), tx("false")),
            ("limit".to_string(), Json::Number(Number::Unsigned(255))),
        ]
    );
}

#[test]
fn filters_are_read_from_a_document() {
    let doc = ob(vec![
        ("active", Json::Bool(true)),
        ("tags", Json::Null),
        ("limit", Json::Number(Number::Unsigned(3))),
        ("cursor", tx("c")),
    ]);
    assert!(check_filter(&doc));
    assert_eq!(
        read_filter(&doc),
        RetrieveAllWorkflowParams {
            active: Some(true),
            tags: None,
            name: None,
            project_id: None,
            exclude_pinned_data: None,
            limit: Some(3),
            cursor: Some("c".to_string()),
        }
    );
    assert!(!check_filter(&ob(vec![("active", tx("yes"))])));
    assert!(!check_filter(&Json::Array(vec![])));
    assert!(check_filter(&ob(vec![])));
}

#[test]
fn values_are_checked_against_kinds() {
    assert!(check(ParamKind::Text, &tx("")));
    assert!(!check(ParamKind::Text, &Json::Bool(true)));
    assert!(check(ParamKind::Flag, &Json::Bool(false)));
    assert!(!check(ParamKind::Flag, &Json::Null));
    assert!(check(ParamKind::Count, &Json::Number(Number::Unsigned(255))));
    assert!(!check(ParamKind::Count, &Json::Number(Number::Unsigned(256))));
    assert!(!check(ParamKind::Count, &Json::Number(Number::Signed(-1))));
    assert!(!check(ParamKind::Count, &Json::Number(Number::Binary64(0))));
    assert!(check(ParamKind::Document, &Json::Null));
    assert!(check(ParamKind::Status, &tx("waiting")));
    assert!(!check(ParamKind::Status, &tx("running")));
    assert!(check(ParamKind::TagIds, &Json::Array(vec![])));
    assert!(check(ParamKind::TagIds, &Json::Array(vec![ob(vec![("id", tx("a"))])])));
    assert!(!check(ParamKind::TagIds, &Json::Array(vec![ob(vec![("id", Json::Null)])])));
    assert!(!check(ParamKind::TagIds, &ob(vec![("id", tx("a"))])));
    assert!(check(ParamKind::Filter, &ob(vec![("name", tx("a"))])));
    assert!(!check(ParamKind::Filter, &tx("a")));
}

#[test]
fn the_first_fault_is_found() {
    let schema = Tool::UpdateTagById.params();
    assert_eq!(find_fault(&schema, &ob(vec![])), Some((0, Fault::Missing)));
    assert_eq!(
        find_fault(&schema, &ob(vec![("tag_id", tx("t")), ("name", Json::Bool(true))])),
        Some((1, Fault::Mistyped))
    );
    assert_eq!(find_fault(&schema, &ob(vec![("tag_id", tx("t")), ("name", tx("n"))])), None);
    let optional = Tool::RetrieveTags.params();
    assert_eq!(find_fault(&optional, &ob(vec![])), None);
    assert_eq!(find_fault(&optional, &ob(vec![("cursor", Json::Null)])), None);
    assert_eq!(
        find_fault(&optional, &ob(vec![("cursor", Json::Bool(true))])),
        Some((0, Fault::Mistyped))
    );
}

#[test]
fn arguments_are_read_where_they_fit() {
    let args = ob(vec![
        ("s", tx("text")),
        ("b", Json::Bool(true)),
        ("n", Json::Number(Number::Unsigned(9))),
        ("big", Json::Number(Number::Unsigned(300))),
        ("null", Json::Null),
    ]);
    assert_eq!(read_text(&args, "s"), Some("text".to_string()));
    assert_eq!(read_text(&args, "b"), None);
    assert_eq!(read_text(&args, "missing"), None);
    assert_eq!(read_flag(&args, "b"), Some(true));
    assert_eq!(read_flag(&args, "s"), None);
    assert_eq!(read_count(&args, "n"), Some(9));
    assert_eq!(read_count(&args, "big"), None);
    assert_eq!(read_document(&args, "n"), Some(Json::Number(Number::Unsigned(9))));
    assert_eq!(read_document(&args, "null"), None);
    assert_eq!(read_document(&args, "missing"), None);
}

#[test]
fn parameter_records_hold_plain_values() {
    let single = RetrieveSingleWorkflowParams { id: "w".to_string(), exclude_pinned_data: Some(true) };
    assert_eq!(single.id, "w");
    assert_eq!(single.exclude_pinned_data, Some(true));
    let create = CreateWorkflowParams {
        name: "n".to_string(),
        nodes: Json::Array(vec![]),
        connections: ob(vec![]),
        settings: WorkflowSettings::default(),
        static_data: None,
    };
    assert_eq!(create.name, "n");
    assert_eq!(create.settings.save_data_error_execution, AllOrNone::All);
    assert_eq!(create.static_data, None);
}
