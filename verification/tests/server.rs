use n8n_mcp::{
    ConfigError, ExecutionStatus, Id, Json, Request, RetrieveAllWorkflowParams, Server, Verb,
};

fn made(key: &str) -> Result<Server, ConfigError> {
    Server::from_env(Some(key.to_string()), Some("https://example.test/n8n".to_string()), None, None)
}

#[test]
fn from_env_keeps_what_it_is_given() {
    let server = Server::from_env(
        Some("key".to_string()),
        Some("https://example.test".to_string()),
        Some("user".to_string()),
        Some("password".to_string()),
    )
    .unwrap();
    assert_eq!(server.base_url(), "https://example.test");
    assert_eq!(server.api_key(), "key");
    assert_eq!(server.n8n_user(), Some(&"user".to_string()));
    assert_eq!(server.n8n_password(), Some(&"password".to_string()));
    assert_eq!(server.auth_header(), ("X-N8N-API-KEY".to_string(), "key".to_string()));
    let plain = made("key").unwrap();
    assert_eq!(plain.n8n_user(), None);
    assert_eq!(plain.n8n_password(), None);
}

#[test]
fn from_env_needs_the_key_first() {
    let missing = Server::from_env(None, None, None, None).unwrap_err();
    assert_eq!(missing, ConfigError::MissingApiKey);
    assert_eq!(missing.message(), "N8N_API_KEY to exist");
    assert_eq!(
        Server::from_env(None, Some("http://x".to_string()), None, None).unwrap_err(),
        ConfigError::MissingApiKey
    );
}

#[test]
fn from_env_needs_the_base_address() {
    let missing = Server::from_env(Some("bad\nkey".to_string()), None, None, None).unwrap_err();
    assert_eq!(missing, ConfigError::MissingBaseUrl);
    assert_eq!(missing.message(), "N8N_BASE_URL to exist");
}

#[test]
fn from_env_refuses_a_key_that_no_header_can_carry() {
    assert_eq!(made("line\nbreak").unwrap_err(), ConfigError::InvalidApiKey);
    assert_eq!(made("bell\u{7}").unwrap_err(), ConfigError::InvalidApiKey);
    assert_eq!(made("delete\u{7f}").unwrap_err(), ConfigError::InvalidApiKey);
    assert_eq!(made("\0").unwrap_err(), ConfigError::InvalidApiKey);
    assert_eq!(
        ConfigError::InvalidApiKey.message(),
        "N8N_API_KEY to be a header value"
    );
}

#[test]
fn from_env_takes_a_key_that_a_header_can_carry() {
    assert!(made("").is_ok());
    assert!(made("with space and\ttab").is_ok());
    assert!(made("~!@#$%^&*()").is_ok());
    assert!(made("schl\u{fc}ssel \u{1f511}").is_ok());
    assert!(made("\u{80}\u{a0}").is_ok());
}

#[test]
fn get_info_presents_the_bridge() {
    let info = made("key").unwrap().get_info();
    assert_eq!(info.protocol_version, "2024-11-05");
    assert!(info.prompts && info.resources && info.tools);
    assert!(info
        .instructions
        .starts_with("This server provides a tool that can interact with a n8n server.\n\n"));
    assert!(info.instructions.ends_with("to see what workflows are possible.\n                "));
    assert_eq!(info.instructions.len(), 780);
}

#[test]
fn tools_can_be_called_with_typed_parameters() {
    let server = made("key").unwrap();
    assert_eq!(
        server.activate_workflow_by_id("a b".to_string()),
        Request {
            verb: Verb::Post,
            url: "https://example.test/n8n/api/v1/workflows/a b/activate".to_string(),
            query: vec![],
            body: None,
        }
    );
    assert_eq!(
        server.run_workflow("p".to_string(), Some(Json::Null)),
        Request {
            verb: Verb::Post,
            url: "https://example.test/n8n/webhook/p".to_string(),
            query: vec![],
            body: Some(Json::Null),
        }
    );
    assert_eq!(
        server
            .retrieve_all_executions(
                false,
                ExecutionStatus::Success,
                None,
                None,
                Some(5),
                Some("c".to_string())
            )
            .query,
        vec![
            ("cursor".to_string(), Json::Text("c".to_string())),
            ("includeData".to_string(), Json::Bool(false)),
            ("limit".to_string(), Json::count(5)),
            ("status".to_string(), Json::Text("success".to_string())),
        ]
    );
    assert_eq!(
        server
            .update_workflow_tags_by_workflow_id("w".to_string(), vec![Id { id: "t".to_string() }])
            .body,
        Some(Json::Array(vec![Json::Object(vec![(
            "id".to_string(),
            Json::Text("t".to_string())
        )])]))
    );
    assert_eq!(
        server.retrieve_all_executions(true, ExecutionStatus::Waiting, None, None, None, None),
        Request {
            verb: Verb::Get,
            url: "https://example.test/n8n/api/v1/executions".to_string(),
            query: vec![
                ("includeData".to_string(), Json::Bool(true)),
                ("status".to_string(), Json::Text("waiting".to_string())),
            ],
            body: None,
        }
    );
    assert_eq!(
        server.retrieve_tags(None, Some(3)),
        Request {
            verb: Verb::Get,
            url: "https://example.test/n8n/tags".to_string(),
            query: vec![("limit".to_string(), Json::count(3))],
            body: None,
        }
    );
    let everything = RetrieveAllWorkflowParams {
        active: None,
        tags: None,
        name: None,
        project_id: None,
        exclude_pinned_data: None,
        limit: None,
        cursor: None,
    };
    assert_eq!(
        server.retrieve_workflows(everything),
        Request {
            verb: Verb::Get,
            url: "https://example.test/n8n/api/v1/workflows".to_string(),
            query: vec![],
            body: None,
        }
    );
    assert_eq!(
        server.locate(n8n_mcp::Tool::RetrieveAllExecutions, "ignored"),
        "https://example.test/n8n/api/v1/executions"
    );
}
