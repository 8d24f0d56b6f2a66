use n8n_mcp::{list_tools, Json, Number, ParamKind, Tool, Verb};

fn o(members: Vec<(&str, Json)>) -> Json {
    Json::Object(members.into_iter().map(|(k, v)| (k.to_string(), v)).collect())
}

fn t(s: &str) -> Json {
    Json::Text(s.to_string())
}

#[test]
fn the_listing_names_every_tool_once() {
    let listing = list_tools();
    let names: Vec<&str> = listing.iter().map(|listed| listed.name).collect();
    assert_eq!(
        names,
        vec![
            "retrieve_all_executions",
            "retrieve_execution_by_id",
            "delete_execution_by_id",
            "create_workflow",
            "retrieve_workflows",
            "retrieve_workflow_by_id",
            "delete_workflow_by_id",
            "activate_workflow_by_id",
            "deactivate_workflow_by_id",
            "update_workflow_by_id",
            "get_workflow_tags_by_workflow_id",
            "update_workflow_tags_by_workflow_id",
            "run_workflow",
            "create_tag",
            "retrieve_tags",
            "retrieve_tag_by_id",
            "delete_tag_by_id",
            "update_tag_by_id",
        ]
    );
    for (listed, tool) in listing.iter().zip(Tool::all()) {
        assert_eq!(listed.tool, tool);
        assert_eq!(listed.name, tool.name());
        assert_eq!(listed.description, tool.description());
        assert_eq!(listed.params.len(), tool.params().len());
    }
}

#[test]
fn every_tool_is_found_by_its_name() {
    for tool in Tool::all() {
        assert_eq!(Tool::named(tool.name()), Some(tool));
    }
    assert_eq!(Tool::named(""), None);
    assert_eq!(Tool::named("Retrieve_tags"), None);
    assert_eq!(Tool::named("retrieve_tags "), None);
}

#[test]
fn descriptions_are_kept_to_the_letter() {
    assert_eq!(Tool::CreateTag.description(), "Create a tag.");
    assert_eq!(
        Tool::RunWorkflow.description(),
        "Run a workflow.\n\n            If you don't have a workflow ID to use, retrieve all workflows and search for an appropriate\n            workflow to run (according to the user's prompt.)"
    );
    assert_eq!(
        Tool::RetrieveWorkflows.description(),
        "Retrieve all workflows (with optional parameters for filtering).\n\n            Note that in order for a returned workflow to be runnable, the first node of a workflow entry MUST be of type 'n8n-nodes-base.webhook'.\n            "
    );
}

#[test]
fn parameters_are_listed_with_kind_and_need() {
    let params = Tool::RetrieveAllExecutions.params();
    let listed: Vec<(&str, ParamKind, bool)> =
        params.iter().map(|p| (p.name, p.kind, p.required)).collect();
    assert_eq!(
        listed,
        vec![
            ("include_data", ParamKind::Flag, true),
            ("status", ParamKind::Status, true),
            ("workflow_id", ParamKind::Text, false),
            ("project_id", ParamKind::Text, false),
            ("limit", ParamKind::Count, false),
            ("cursor", ParamKind::Text, false),
        ]
    );
    let tags: Vec<(&str, ParamKind, bool)> =
        Tool::RetrieveTags.params().iter().map(|p| (p.name, p.kind, p.required)).collect();
    assert_eq!(
        tags,
        vec![("cursor", ParamKind::Text, false), ("limit", ParamKind::Count, false)]
    );
    assert_eq!(
        params[4].about,
        "The maximum number of items to return. The absolute maximum is 250 - if you go above this, you will receive an error."
    );
    let run = Tool::RunWorkflow.params();
    assert_eq!((run[1].name, run[1].kind, run[1].required), ("data", ParamKind::Document, false));
    let filter: Vec<(&str, ParamKind, bool)> =
        Tool::filter_params().iter().map(|p| (p.name, p.kind, p.required)).collect();
    assert_eq!(
        filter,
        vec![
            ("active", ParamKind::Flag, false),
            ("tags", ParamKind::Text, false),
            ("name", ParamKind::Text, false),
            ("project_id", ParamKind::Text, false),
            ("exclude_pinned_data", ParamKind::Text, false),
            ("limit", ParamKind::Count, false),
            ("cursor", ParamKind::Text, false),
        ]
    );
}

#[test]
fn routes_and_verbs_are_those_of_the_service() {
    let route = Tool::DeactivateWorkflowById.route();
    assert_eq!(
        (route.collection, route.key, route.suffix),
        ("/api/v1/workflows", Some("workflow_id"), "/deactivate")
    );
    let route = Tool::RetrieveTags.route();
    assert_eq!((route.collection, route.key, route.suffix), ("/tags", None, ""));
    assert_eq!(Tool::RunWorkflow.verb(false), Verb::Get);
    assert_eq!(Tool::RunWorkflow.verb(true), Verb::Post);
    assert_eq!(Tool::DeleteExecutionById.verb(true), Verb::Delete);
    assert_eq!(Tool::UpdateTagById.verb(false), Verb::Put);
    assert_eq!(Tool::RetrieveTags.verb(false), Verb::Get);
    assert_eq!(Tool::RetrieveAllExecutions.verb(false), Verb::Get);
    assert_eq!(Tool::RetrieveWorkflows.verb(false), Verb::Get);
    assert_eq!(Tool::CreateTag.verb(false), Verb::Post);
}

#[test]
fn the_schema_of_a_tool_describes_its_arguments() {
    assert_eq!(
        Tool::UpdateTagById.input_schema(),
        o(vec![
            ("type", t("object")),
            (
                "properties",
                o(vec![
                    (
                        "tag_id",
                        o(vec![("description", t("The tag ID to use.")), ("type", t("string"))])
                    ),
                    (
                        "name",
                        o(vec![("description", t("The name to use.")), ("type", t("string"))])
                    ),
                ])
            ),
            ("required", Json::Array(vec![t("tag_id"), t("name")])),
        ])
    );
    let run = Tool::RunWorkflow.input_schema();
    assert_eq!(run.get("required"), Some(&Json::Array(vec![t("webhook_path")])));
    assert_eq!(
        run.get("properties").unwrap().get("data"),
        Some(&o(vec![(
            "description",
            t("The data to pass to the webhook. If the user has not explicitly asked for data to be sent, leave this as None.")
        )]))
    );
    let executions = Tool::RetrieveAllExecutions.input_schema();
    let properties = executions.get("properties").unwrap();
    assert_eq!(
        properties.get("limit").unwrap().get("maximum"),
        Some(&Json::Number(Number::Unsigned(255)))
    );
    assert_eq!(
        properties.get("status").unwrap().get("enum"),
        Some(&Json::Array(vec![t("error"), t("success"), t("waiting")]))
    );
    assert_eq!(properties.get("include_data").unwrap().get("type"), Some(&t("boolean")));
    assert_eq!(
        executions.get("required"),
        Some(&Json::Array(vec![t("include_data"), t("status")]))
    );
    let tags = Tool::UpdateWorkflowTagsByWorkflowId.input_schema();
    let items = tags.get("properties").unwrap().get("tags").unwrap().get("items").unwrap();
    assert_eq!(items.get("required"), Some(&Json::Array(vec![t("id")])));
    let workflows = Tool::RetrieveWorkflows.input_schema();
    let filter = workflows.get("properties").unwrap().get("retrieve_workflow_params").unwrap();
    assert_eq!(filter.get("type"), Some(&t("object")));
    assert_eq!(filter.get("required"), Some(&Json::Array(vec![])));
    assert_eq!(
        filter.get("properties").unwrap().get("active"),
        Some(&o(vec![("description", t("")), ("type", t("boolean"))]))
    );
}
