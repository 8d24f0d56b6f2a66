use n8n_mcp::{
    conclude, Call, CallError, Json, Number, Outcome, Request, Server, Tool, ToolResult, Verb,
};

fn bridge() -> Server {
    Server::from_env(
        Some("secret".to_string()),
        Some("http://n8n.local".to_string()),
        None,
        None,
    )
    .unwrap()
}

fn obj(members: Vec<(&str, Json)>) -> Json {
    Json::Object(members.into_iter().map(|(k, v)| (k.to_string(), v)).collect())
}

fn txt(s: &str) -> Json {
    Json::Text(s.to_string())
}

fn num(n: u64) -> Json {
    Json::Number(Number::Unsigned(n))
}

fn pair(k: &str, v: Json) -> (String, Json) {
    (k.to_string(), v)
}

fn default_settings_json() -> Json {
    obj(vec![
        ("save_execution_progress", Json::Bool(false)),
        ("save_manual_executions", Json::Bool(false)),
        ("save_data_error_execution", txt("all")),
        ("save_data_success_execution", txt("all")),
        ("execution_timeout", num(0)),
    ])
}

fn planned(name: &str, args: Json) -> Request {
    let call = bridge().call_tool(name, &args).unwrap();
    assert_eq!(call.tool.name(), name);
    call.request
}

fn bare(verb: Verb, url: &str) -> Request {
    Request { verb, url: url.to_string(), query: vec![], body: None }
}

#[test]
fn retrieve_workflow_by_id_hands_on_the_answer() {
    let server = bridge();
    let call = server
        .call_tool("retrieve_workflow_by_id", &obj(vec![("workflow_id", txt("42"))]))
        .unwrap();
    assert_eq!(
        call,
        Call {
            tool: Tool::RetrieveWorkflowById,
            request: bare(Verb::Get, "http://n8n.local/api/v1/workflows/42"),
        }
    );
    let answer = Outcome::Answered { status: 200, body: br#"{"id":"42","name":"demo"}"#.to_vec() };
    assert_eq!(
        conclude(answer),
        ToolResult::Success("{\n  \"id\": \"42\",\n  \"name\": \"demo\"\n}".to_string())
    );
}

#[test]
fn every_tool_follows_its_route() {
    let id = |key: &str| obj(vec![(key, txt("7"))]);
    assert_eq!(
        planned("retrieve_execution_by_id", id("execution_id")),
        bare(Verb::Get, "http://n8n.local/api/v1/executions/7")
    );
    assert_eq!(
        planned("delete_execution_by_id", id("execution_id")),
        bare(Verb::Delete, "http://n8n.local/api/v1/executions/7")
    );
    assert_eq!(
        planned("retrieve_workflow_by_id", id("workflow_id")),
        bare(Verb::Get, "http://n8n.local/api/v1/workflows/7")
    );
    assert_eq!(
        planned("delete_workflow_by_id", id("workflow_id")),
        bare(Verb::Delete, "http://n8n.local/api/v1/workflows/7")
    );
    assert_eq!(
        planned("activate_workflow_by_id", id("workflow_id")),
        bare(Verb::Post, "http://n8n.local/api/v1/workflows/7/activate")
    );
    assert_eq!(
        planned("deactivate_workflow_by_id", id("workflow_id")),
        bare(Verb::Post, "http://n8n.local/api/v1/workflows/7/deactivate")
    );
    assert_eq!(
        planned("get_workflow_tags_by_workflow_id", id("workflow_id")),
        bare(Verb::Get, "http://n8n.local/api/v1/workflows/7/tags")
    );
    assert_eq!(
        planned("retrieve_tag_by_id", id("tag_id")),
        bare(Verb::Get, "http://n8n.local/tags/7")
    );
    assert_eq!(
        planned("delete_tag_by_id", id("tag_id")),
        bare(Verb::Delete, "http://n8n.local/tags/7")
    );
    assert_eq!(
        planned("run_workflow", id("webhook_path")),
        bare(Verb::Get, "http://n8n.local/webhook/7")
    );
    assert_eq!(
        planned("retrieve_tags", obj(vec![])),
        bare(Verb::Get, "http://n8n.local/tags")
    );
    assert_eq!(
        planned("retrieve_workflows", obj(vec![("retrieve_workflow_params", obj(vec![]))])),
        bare(Verb::Get, "http://n8n.local/api/v1/workflows")
    );
}

#[test]
fn create_workflow_posts_the_workflow() {
    let nodes = Json::Array(vec![obj(vec![("type", txt("n8n-nodes-base.webhook"))])]);
    let connections = obj(vec![("a", Json::Array(vec![Json::Number(Number::Signed(-1))]))]);
    let args = obj(vec![
        ("connections", connections.clone()),
        ("name", txt("demo")),
        ("nodes", nodes.clone()),
    ]);
    assert_eq!(
        planned("create_workflow", args),
        Request {
            verb: Verb::Post,
            url: "http://n8n.local/api/v1/workflows".to_string(),
            query: vec![],
            body: Some(obj(vec![
                ("name", txt("demo")),
                ("nodes", nodes),
                ("connections", connections),
                ("settings", default_settings_json()),
                ("staticData", txt("null")),
            ])),
        }
    );
}

#[test]
fn update_workflow_by_id_puts_the_workflow() {
    let args = obj(vec![
        ("workflow_id", txt("w1")),
        ("name", txt("renamed")),
        ("nodes", Json::Null),
        ("connections", Json::Bool(true)),
    ]);
    assert_eq!(
        planned("update_workflow_by_id", args),
        Request {
            verb: Verb::Put,
            url: "http://n8n.local/api/v1/workflows/w1".to_string(),
            query: vec![],
            body: Some(obj(vec![
                ("name", txt("renamed")),
                ("nodes", Json::Null),
                ("connections", Json::Bool(true)),
                ("settings", default_settings_json()),
                ("staticData", txt("null")),
            ])),
        }
    );
}

#[test]
fn retrieve_all_executions_sends_its_filters() {
    let args = obj(vec![
        ("include_data", Json::Bool(true)),
        ("status", txt("waiting")),
        ("workflow_id", txt("w1")),
        ("project_id", Json::Null),
        ("limit", num(250)),
        ("cursor", txt("")),
    ]);
    assert_eq!(
        planned("retrieve_all_executions", args),
        Request {
            verb: Verb::Get,
            url: "http://n8n.local/api/v1/executions".to_string(),
            query: vec![
                pair("cursor", txt("")),
                pair("includeData", Json::Bool(true)),
                pair("limit", num(250)),
                pair("status", txt("waiting")),
                pair("workflowId", txt("w1")),
            ],
            body: None,
        }
    );
}

#[test]
fn retrieve_all_executions_needs_neither_cursor_nor_limit() {
    let args = obj(vec![("include_data", Json::Bool(true)), ("status", txt("success"))]);
    assert_eq!(
        planned("retrieve_all_executions", args),
        Request {
            verb: Verb::Get,
            url: "http://n8n.local/api/v1/executions".to_string(),
            query: vec![pair("includeData", Json::Bool(true)), pair("status", txt("success"))],
            body: None,
        }
    );
    let nulls = obj(vec![
        ("include_data", Json::Bool(false)),
        ("status", txt("error")),
        ("limit", Json::Null),
        ("cursor", Json::Null),
    ]);
    assert_eq!(
        planned("retrieve_all_executions", nulls).query,
        vec![pair("includeData", Json::Bool(false)), pair("status", txt("error"))]
    );
    let limited = obj(vec![
        ("include_data", Json::Bool(false)),
        ("status", txt("error")),
        ("limit", num(20)),
    ]);
    assert_eq!(
        planned("retrieve_all_executions", limited).query,
        vec![
            pair("includeData", Json::Bool(false)),
            pair("limit", num(20)),
            pair("status", txt("error")),
        ]
    );
}

#[test]
fn retrieve_all_executions_sends_the_project() {
    let args = obj(vec![
        ("include_data", Json::Bool(false)),
        ("status", txt("error")),
        ("project_id", txt("p9")),
        ("limit", num(0)),
        ("cursor", txt("next")),
    ]);
    assert_eq!(
        planned("retrieve_all_executions", args).query,
        vec![
            pair("cursor", txt("next")),
            pair("includeData", Json::Bool(false)),
            pair("limit", num(0)),
            pair("projectId", txt("p9")),
            pair("status", txt("error")),
        ]
    );
}

#[test]
fn retrieve_workflows_sends_the_filters_that_are_set() {
    let filter = obj(vec![
        ("cursor", txt("c2")),
        ("limit", num(10)),
        ("active", Json::Bool(true)),
        ("name", Json::Null),
        ("project_id", txt("p")),
        ("tags", txt("a,b")),
        ("exclude_pinned_data", txt("true")),
    ]);
    assert_eq!(
        planned("retrieve_workflows", obj(vec![("retrieve_workflow_params", filter)])).query,
        vec![
            pair("active", Json::Bool(true)),
            pair("tags", txt("a,b")),
            pair("project_id", txt("p")),
            pair("exclude_pinned_data", txt("true")),
            pair("limit", num(10)),
            pair("cursor", txt("c2")),
        ]
    );
}

#[test]
fn update_workflow_tags_puts_the_tags() {
    let tags = Json::Array(vec![
        obj(vec![("id", txt("t1"))]),
        obj(vec![("name", txt("ignored")), ("id", txt("t2"))]),
    ]);
    assert_eq!(
        planned(
            "update_workflow_tags_by_workflow_id",
            obj(vec![("workflow_id", txt("w")), ("tags", tags)])
        ),
        Request {
            verb: Verb::Put,
            url: "http://n8n.local/api/v1/workflows/w/tags".to_string(),
            query: vec![],
            body: Some(Json::Array(vec![
                obj(vec![("id", txt("t1"))]),
                obj(vec![("id", txt("t2"))]),
            ])),
        }
    );
}

#[test]
fn run_workflow_without_data_gets() {
    let expected = bare(Verb::Get, "http://n8n.local/webhook/hook/path");
    assert_eq!(
        planned("run_workflow", obj(vec![("webhook_path", txt("hook/path"))])),
        expected
    );
    assert_eq!(
        planned(
            "run_workflow",
            obj(vec![("webhook_path", txt("hook/path")), ("data", Json::Null)])
        ),
        expected
    );
}

#[test]
fn run_workflow_with_data_posts_it() {
    let data = obj(vec![("answer", num(42)), ("nested", Json::Array(vec![Json::Bool(false)]))]);
    assert_eq!(
        planned(
            "run_workflow",
            obj(vec![("webhook_path", txt("hook")), ("data", data.clone())])
        ),
        Request {
            verb: Verb::Post,
            url: "http://n8n.local/webhook/hook".to_string(),
            query: vec![],
            body: Some(data),
        }
    );
}

#[test]
fn run_workflow_hands_on_the_answer() {
    let call = bridge()
        .call_tool("run_workflow", &obj(vec![("webhook_path", txt("hook"))]))
        .unwrap();
    assert_eq!(call.tool, Tool::RunWorkflow);
    assert_eq!(
        conclude(Outcome::Answered { status: 200, body: br#"{"started":true}"#.to_vec() }),
        ToolResult::Success("{\n  \"started\": true\n}".to_string())
    );
    assert_eq!(
        conclude(Outcome::Answered { status: 200, body: b"plainly no JSON".to_vec() }),
        ToolResult::Error("Workflow error: expected value at line 1 column 1".to_string())
    );
}

#[test]
fn create_tag_posts_the_name() {
    assert_eq!(
        planned("create_tag", obj(vec![("name", txt("urgent"))])),
        Request {
            verb: Verb::Post,
            url: "http://n8n.local/tags".to_string(),
            query: vec![],
            body: Some(obj(vec![("name", txt("urgent"))])),
        }
    );
}

#[test]
fn update_tag_by_id_puts_the_name() {
    assert_eq!(
        planned("update_tag_by_id", obj(vec![("tag_id", txt("t")), ("name", txt("calm"))])),
        Request {
            verb: Verb::Put,
            url: "http://n8n.local/tags/t".to_string(),
            query: vec![],
            body: Some(obj(vec![("name", txt("calm"))])),
        }
    );
}

#[test]
fn retrieve_tags_sends_the_cursor() {
    assert_eq!(
        planned("retrieve_tags", obj(vec![("cursor", txt("abc"))])),
        Request {
            verb: Verb::Get,
            url: "http://n8n.local/tags".to_string(),
            query: vec![pair("cursor", txt("abc"))],
            body: None,
        }
    );
    assert_eq!(planned("retrieve_tags", obj(vec![("cursor", Json::Null)])).query, vec![]);
}

#[test]
fn retrieve_tags_sends_the_limit() {
    assert_eq!(
        planned("retrieve_tags", obj(vec![("limit", num(50)), ("cursor", txt("abc"))])).query,
        vec![pair("cursor", txt("abc")), pair("limit", num(50))]
    );
    assert_eq!(
        planned("retrieve_tags", obj(vec![("limit", num(255))])).query,
        vec![pair("limit", num(255))]
    );
    assert_eq!(
        bridge().call_tool("retrieve_tags", &obj(vec![("limit", num(256))])),
        Err(CallError::MistypedParameter("limit"))
    );
}

#[test]
fn unknown_tool_is_refused() {
    assert_eq!(
        bridge().call_tool("retrieve_everything", &obj(vec![])),
        Err(CallError::UnknownTool)
    );
    assert_eq!(CallError::UnknownTool.message(), "tool not found");
}

#[test]
fn arguments_that_are_no_object_are_refused() {
    let refused = bridge().call_tool("retrieve_tags", &Json::Array(vec![])).unwrap_err();
    assert_eq!(refused, CallError::NotAnObject);
    assert_eq!(refused.message(), "failed to deserialize parameters: not an object");
}

#[test]
fn missing_required_parameter_is_refused() {
    let server = bridge();
    for tool in Tool::all() {
        let required = tool.params().into_iter().find(|p| p.required);
        if let Some(param) = required {
            assert_eq!(
                server.call_tool(tool.name(), &obj(vec![])),
                Err(CallError::MissingParameter(param.name))
            );
        }
    }
    let refused = server
        .call_tool("update_tag_by_id", &obj(vec![("tag_id", txt("t"))]))
        .unwrap_err();
    assert_eq!(refused, CallError::MissingParameter("name"));
    assert_eq!(refused.message(), "missing parameter name");
}

#[test]
fn mistyped_parameter_is_refused() {
    let server = bridge();
    let refused = server
        .call_tool("retrieve_workflow_by_id", &obj(vec![("workflow_id", num(42))]))
        .unwrap_err();
    assert_eq!(refused, CallError::MistypedParameter("workflow_id"));
    assert_eq!(refused.message(), "failed to deserialize parameter workflow_id");
    assert_eq!(
        server.call_tool("retrieve_workflow_by_id", &obj(vec![("workflow_id", Json::Null)])),
        Err(CallError::MistypedParameter("workflow_id"))
    );
    assert_eq!(
        server.call_tool("retrieve_tags", &obj(vec![("cursor", num(1))])),
        Err(CallError::MistypedParameter("cursor"))
    );
    let executions = |status: Json, limit: Json| {
        obj(vec![
            ("include_data", Json::Bool(true)),
            ("status", status),
            ("limit", limit),
            ("cursor", txt("")),
        ])
    };
    assert_eq!(
        server.call_tool("retrieve_all_executions", &executions(txt("done"), num(1))),
        Err(CallError::MistypedParameter("status"))
    );
    assert_eq!(
        server.call_tool("retrieve_all_executions", &executions(txt("success"), num(256))),
        Err(CallError::MistypedParameter("limit"))
    );
    assert_eq!(
        server.call_tool(
            "retrieve_all_executions",
            &executions(txt("success"), Json::Number(Number::Signed(-1)))
        ),
        Err(CallError::MistypedParameter("limit"))
    );
    assert_eq!(
        server.call_tool(
            "update_workflow_tags_by_workflow_id",
            &obj(vec![("workflow_id", txt("w")), ("tags", Json::Array(vec![txt("t1")]))])
        ),
        Err(CallError::MistypedParameter("tags"))
    );
    assert_eq!(
        server.call_tool(
            "retrieve_workflows",
            &obj(vec![("retrieve_workflow_params", obj(vec![("limit", txt("ten"))]))])
        ),
        Err(CallError::MistypedParameter("retrieve_workflow_params"))
    );
}

#[test]
fn the_first_fault_is_the_one_reported() {
    assert_eq!(
        bridge().call_tool(
            "update_workflow_by_id",
            &obj(vec![("workflow_id", txt("w")), ("name", num(1))])
        ),
        Err(CallError::MistypedParameter("name"))
    );
}

#[test]
fn members_that_no_parameter_names_are_not_looked_at() {
    assert_eq!(
        planned(
            "delete_tag_by_id",
            obj(vec![("tag_id", txt("t")), ("force", Json::Bool(true))])
        ),
        bare(Verb::Delete, "http://n8n.local/tags/t")
    );
}

#[test]
fn the_last_member_of_a_name_counts() {
    assert_eq!(
        planned(
            "delete_tag_by_id",
            obj(vec![("tag_id", num(1)), ("tag_id", txt("t2"))])
        ),
        bare(Verb::Delete, "http://n8n.local/tags/t2")
    );
}

fn paging_backend(request: &Request) -> Vec<u8> {
    assert_eq!(request.verb, Verb::Get);
    assert_eq!(request.url, "http://n8n.local/api/v1/workflows");
    let cursor = request.query.iter().find(|(key, _)| key == "cursor").map(|(_, value)| value);
    match cursor {
        None => br#"{"data":[{"id":"1"}],"nextCursor":"page-2"}"#.to_vec(),
        Some(Json::Text(cursor)) if cursor == "page-2" => {
            br#"{"data":[{"id":"2"}],"nextCursor":null}"#.to_vec()
        }
        Some(other) => panic!("unexpected cursor {other:?}"),
    }
}

fn list_page(cursor: Option<&str>) -> serde_json::Value {
    let filter = match cursor {
        Some(cursor) => obj(vec![("cursor", txt(cursor))]),
        None => obj(vec![]),
    };
    let call = bridge()
        .call_tool("retrieve_workflows", &obj(vec![("retrieve_workflow_params", filter)]))
        .unwrap();
    let answer = paging_backend(&call.request);
    match conclude(Outcome::Answered { status: 200, body: answer }) {
        ToolResult::Success(text) => serde_json::from_str(&text).unwrap(),
        ToolResult::Error(text) => panic!("{text}"),
    }
}

#[test]
fn listing_workflows_follows_the_cursor() {
    let first = list_page(None);
    assert_eq!(first["data"][0]["id"], "1");
    let next = first["nextCursor"].as_str().unwrap().to_string();
    let second = list_page(Some(&next));
    assert_eq!(second["data"][0]["id"], "2");
    assert!(second["nextCursor"].is_null());
}
