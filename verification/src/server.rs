//! The connection to the remote service, and the request each tool makes.

use crate::json::{items_view, members_view, put, Json};
use crate::params::{
    id_json, optional_count, optional_text, put_optional, text_view, ExecutionStatus, Id,
    RetrieveAllWorkflowParams, WorkflowSettings,
};
use crate::request::{
    executions_query, ids_view, tag_body, tags_body, tags_query, workflow_body, Request,
    RequestView, Verb,
};
use crate::text;
use crate::tool::{path_of, verb_of, Tool};
use vstd::prelude::*;

verus! {

/// Whether `c` may stand in the value of an HTTP header: any character but
/// the controls other than the tab.
pub open spec fn header_char(c: char) -> bool {
    (c as u32 >= 32 && c as u32 != 127) || c as u32 == 9
}

/// Whether `text` can be the value of an HTTP header.
pub open spec fn header_safe(text: Seq<char>) -> bool {
    forall|i: int| 0 <= i < text.len() ==> header_char(#[trigger] text[i])
}

/// Asks `axum::http::HeaderValue::from_str` whether it takes `text`. It
/// refuses a text exactly when one of its bytes is a control other than the
/// tab, that is below 32 and not 9, or 127; the bytes of a character beyond
/// ASCII are all above 127.
#[verifier::external_body]
fn is_header_value(text: &str) -> (accepted: bool)
    ensures
        accepted == header_safe(text@),
{
    axum::http::HeaderValue::from_str(text).is_ok()
}

/// Why a connection could not be set up.
#[derive(Clone, Copy, Debug, PartialEq, Eq, Structural)]
pub enum ConfigError {
    /// No API key was given.
    MissingApiKey,
    /// No base address was given.
    MissingBaseUrl,
    /// The API key cannot be sent as the value of a header.
    InvalidApiKey,
}

impl ConfigError {
    /// The complaint in words.
    pub open spec fn words(self) -> Seq<char> {
        match self {
            ConfigError::MissingApiKey => text::API_KEY_MISSING@,
            ConfigError::MissingBaseUrl => text::BASE_URL_MISSING@,
            ConfigError::InvalidApiKey => text::API_KEY_UNFIT@,
        }
    }

    /// The complaint in words.
    pub fn message(self) -> (words: String)
        ensures
            words@ == self.words(),
    {
        match self {
            ConfigError::MissingApiKey => text::API_KEY_MISSING.to_string(),
            ConfigError::MissingBaseUrl => text::BASE_URL_MISSING.to_string(),
            ConfigError::InvalidApiKey => text::API_KEY_UNFIT.to_string(),
        }
    }
}

/// The connection to the remote service: where it is and how the bridge
/// names itself to it. It does not change once made.
#[derive(Debug)]
pub struct Server {
    base_url: String,
    api_key: String,
    n8n_user: Option<String>,
    n8n_password: Option<String>,
}

/// The mathematical value of a [`Server`].
pub struct ServerView {
    pub base_url: Seq<char>,
    pub api_key: Seq<char>,
    pub user: Option<Seq<char>>,
    pub password: Option<Seq<char>>,
}

impl View for Server {
    type V = ServerView;

    closed spec fn view(&self) -> ServerView {
        ServerView {
            base_url: self.base_url@,
            api_key: self.api_key@,
            user: text_view(self.n8n_user),
            password: text_view(self.n8n_password),
        }
    }
}

/// How the bridge presents itself to a host.
#[derive(Clone, Copy, Debug)]
pub struct ServerInfo {
    /// The version of the protocol that the bridge speaks.
    pub protocol_version: &'static str,
    /// Whether the bridge answers requests for prompts.
    pub prompts: bool,
    /// Whether the bridge answers requests for resources.
    pub resources: bool,
    /// Whether the bridge answers requests for tools.
    pub tools: bool,
    /// What a caller is told about the bridge.
    pub instructions: &'static str,
}

impl Clone for Server {
    fn clone(&self) -> (copy: Self)
        ensures
            copy@ == self@,
    {
        proof {
            use_type_invariant(self);
        }
        Server {
            base_url: self.base_url.clone(),
            api_key: self.api_key.clone(),
            n8n_user: match &self.n8n_user {
                Some(user) => Some(user.clone()),
                None => None,
            },
            n8n_password: match &self.n8n_password {
                Some(password) => Some(password.clone()),
                None => None,
            },
        }
    }
}

/// A request without query and body.
pub open spec fn bare(verb: Verb, url: Seq<char>) -> RequestView {
    RequestView { verb, url, query: Seq::empty(), body: None }
}

impl Server {
    /// The key of every connection can be sent as the value of a header.
    #[verifier::type_invariant]
    spec fn fit(&self) -> bool {
        header_safe(self.api_key@)
    }

    /// Sets up the connection from what the environment holds. The API key
    /// and the base address are needed, in that order, and the key must be
    /// fit for a header; user and password are kept and not used.
    pub fn from_env(
        api_key: Option<String>,
        base_url: Option<String>,
        n8n_user: Option<String>,
        n8n_password: Option<String>,
    ) -> (made: Result<Server, ConfigError>)
        ensures
            match made {
                Ok(server) => {
                    &&& api_key matches Some(key)
                    &&& base_url matches Some(url)
                    &&& header_safe(key@)
                    &&& server@ == (ServerView {
                        base_url: url@,
                        api_key: key@,
                        user: text_view(n8n_user),
                        password: text_view(n8n_password),
                    })
                },
                Err(ConfigError::MissingApiKey) => api_key is None,
                Err(ConfigError::MissingBaseUrl) => api_key is Some && base_url is None,
                Err(ConfigError::InvalidApiKey) => {
                    &&& api_key matches Some(key)
                    &&& base_url is Some
                    &&& !header_safe(key@)
                },
            },
    {
        let api_key = match api_key {
            Some(key) => key,
            None => {
                return Err(ConfigError::MissingApiKey);
            },
        };
        let base_url = match base_url {
            Some(url) => url,
            None => {
                return Err(ConfigError::MissingBaseUrl);
            },
        };
        if !is_header_value(api_key.as_str()) {
            return Err(ConfigError::InvalidApiKey);
        }
        Ok(Server { base_url, api_key, n8n_user, n8n_password })
    }

    /// The address of the remote service.
    pub fn base_url(&self) -> (url: &str)
        ensures
            url@ == self@.base_url,
    {
        self.base_url.as_str()
    }

    /// The key the bridge names itself by. It is fit for a header.
    pub fn api_key(&self) -> (key: &str)
        ensures
            key@ == self@.api_key,
            header_safe(key@),
    {
        proof {
            use_type_invariant(self);
        }
        self.api_key.as_str()
    }

    /// The user for basic authentication, if one was given.
    pub fn n8n_user(&self) -> (user: Option<&String>)
        ensures
            match user {
                Some(user) => self@.user == Some(user@),
                None => self@.user is None,
            },
    {
        self.n8n_user.as_ref()
    }

    /// The password for basic authentication, if one was given.
    pub fn n8n_password(&self) -> (password: Option<&String>)
        ensures
            match password {
                Some(password) => self@.password == Some(password@),
                None => self@.password is None,
            },
    {
        self.n8n_password.as_ref()
    }

    /// The header that every request carries: its name and its value, which
    /// is the API key.
    pub fn auth_header(&self) -> (header: (String, String))
        ensures
            header.0@ == text::API_KEY_HEADER@,
            header.1@ == self@.api_key,
            header_safe(header.1@),
    {
        proof {
            use_type_invariant(self);
        }
        (text::API_KEY_HEADER.to_string(), self.api_key.clone())
    }

    /// Tells how the bridge presents itself: by the protocol version
    /// 2024-11-05, as able to answer for prompts, resources and tools, and
    /// with its instructions.
    pub fn get_info(&self) -> (info: ServerInfo)
        ensures
            info.protocol_version@ == text::PROTOCOL_VERSION@,
            info.prompts,
            info.resources,
            info.tools,
            info.instructions@ == text::INSTRUCTIONS@,
    {
        ServerInfo {
            protocol_version: text::PROTOCOL_VERSION,
            prompts: true,
            resources: true,
            tools: true,
            instructions: text::INSTRUCTIONS,
        }
    }

    /// The address of a tool's request: the base address, then the tool's
    /// path for `key`.
    pub open spec fn address(&self, tool: Tool, key: Seq<char>) -> Seq<char> {
        self@.base_url + path_of(tool, key)
    }

    /// Writes the address of a tool's request.
    pub fn locate(&self, tool: Tool, key: &str) -> (url: String)
        ensures
            url@ == self.address(tool, key@),
    {
        let route = tool.route();
        let mut url = self.base_url.clone();
        url.append(route.collection);
        match route.key {
            Some(_) => {
                url.append(text::SLASH);
                url.append(key);
            },
            None => {},
        }
        url.append(route.suffix);
        assert(url@ =~= self.address(tool, key@));
        url
    }

    /// A request of `tool` for `key` without query and body.
    fn plain(&self, tool: Tool, key: &str) -> (req: Request)
        ensures
            req@ == bare(verb_of(tool, false), self.address(tool, key@)),
    {
        let req = Request {
            verb: tool.verb(false),
            url: self.locate(tool, key),
            query: Vec::new(),
            body: None,
        };
        assert(req@.query =~= Seq::empty());
        req
    }

    /// Lists executions. The cursor, the limit and the filters that are given
    /// go into the query, under the names the remote service knows them by.
    /// Without a cursor the listing starts at its first page.
    pub fn retrieve_all_executions(
        &self,
        include_data: bool,
        status: ExecutionStatus,
        workflow_id: Option<String>,
        project_id: Option<String>,
        limit: Option<u8>,
        cursor: Option<String>,
    ) -> (req: Request)
        ensures
            req@ == (RequestView {
                verb: Verb::Get,
                url: self.address(Tool::RetrieveAllExecutions, Seq::empty()),
                query: executions_query(
                    include_data,
                    status,
                    text_view(workflow_id),
                    text_view(project_id),
                    limit,
                    text_view(cursor),
                ),
                body: None,
            }),
    {
        let mut query: Vec<(String, Json)> = Vec::new();
        assert(members_view(query@) =~= Seq::empty());
        put_optional(&mut query, text::CURSOR, optional_text(&cursor));
        put(&mut query, text::KEY_INCLUDE_DATA, Json::Bool(include_data));
        put_optional(&mut query, text::LIMIT, optional_count(limit));
        put_optional(&mut query, text::KEY_PROJECT_ID, optional_text(&project_id));
        put(&mut query, text::STATUS, Json::text(status.as_str()));
        put_optional(&mut query, text::KEY_WORKFLOW_ID, optional_text(&workflow_id));
        assert(members_view(query@) =~= executions_query(
            include_data,
            status,
            text_view(workflow_id),
            text_view(project_id),
            limit,
            text_view(cursor),
        ));
        Request {
            verb: Tool::RetrieveAllExecutions.verb(false),
            url: self.locate(Tool::RetrieveAllExecutions, text::NOTHING),
            query,
            body: None,
        }
    }

    /// Retrieves one execution.
    pub fn retrieve_execution_by_id(&self, execution_id: String) -> (req: Request)
        ensures
            req@ == bare(Verb::Get, self.address(Tool::RetrieveExecutionById, execution_id@)),
    {
        self.plain(Tool::RetrieveExecutionById, execution_id.as_str())
    }

    /// Deletes one execution.
    pub fn delete_execution_by_id(&self, execution_id: String) -> (req: Request)
        ensures
            req@ == bare(Verb::Delete, self.address(Tool::DeleteExecutionById, execution_id@)),
    {
        self.plain(Tool::DeleteExecutionById, execution_id.as_str())
    }

    /// Writes the body that creates or replaces a workflow.
    fn workflow_document(name: String, nodes: Json, connections: Json) -> (doc: Json)
        ensures
            doc@ == workflow_body(name@, nodes@, connections@),
    {
        let settings = WorkflowSettings::default();
        let mut members: Vec<(String, Json)> = Vec::new();
        assert(members_view(members@) =~= Seq::empty());
        put(&mut members, text::NAME, Json::Text(name));
        put(&mut members, text::NODES, nodes);
        put(&mut members, text::CONNECTIONS, connections);
        put(&mut members, text::KEY_SETTINGS, settings.to_json());
        put(&mut members, text::KEY_STATIC_DATA, Json::text(text::NULL_WORD));
        assert(members_view(members@) =~= workflow_body(name@, nodes@, connections@)->Object_0);
        Json::object(members)
    }

    /// Writes the body that creates or renames a tag.
    fn tag_document(name: String) -> (doc: Json)
        ensures
            doc@ == tag_body(name@),
    {
        let mut members: Vec<(String, Json)> = Vec::new();
        assert(members_view(members@) =~= Seq::empty());
        put(&mut members, text::NAME, Json::Text(name));
        assert(members_view(members@) =~= tag_body(name@)->Object_0);
        Json::object(members)
    }

    /// Creates a workflow with the default settings.
    pub fn create_workflow(&self, name: String, nodes: Json, connections: Json) -> (req: Request)
        ensures
            req@ == (RequestView {
                verb: Verb::Post,
                url: self.address(Tool::CreateWorkflow, Seq::empty()),
                query: Seq::empty(),
                body: Some(workflow_body(name@, nodes@, connections@)),
            }),
    {
        let req = Request {
            verb: Tool::CreateWorkflow.verb(false),
            url: self.locate(Tool::CreateWorkflow, text::NOTHING),
            query: Vec::new(),
            body: Some(Self::workflow_document(name, nodes, connections)),
        };
        assert(req@.query =~= Seq::empty());
        req
    }

    /// Lists workflows. The filters that are set go into the query.
    pub fn retrieve_workflows(&self, retrieve_workflow_params: RetrieveAllWorkflowParams) -> (req:
        Request)
        ensures
            req@ == (RequestView {
                verb: Verb::Get,
                url: self.address(Tool::RetrieveWorkflows, Seq::empty()),
                query: retrieve_workflow_params@.query(),
                body: None,
            }),
    {
        Request {
            verb: Tool::RetrieveWorkflows.verb(false),
            url: self.locate(Tool::RetrieveWorkflows, text::NOTHING),
            query: retrieve_workflow_params.to_query(),
            body: None,
        }
    }

    /// Retrieves one workflow.
    pub fn retrieve_workflow_by_id(&self, workflow_id: String) -> (req: Request)
        ensures
            req@ == bare(Verb::Get, self.address(Tool::RetrieveWorkflowById, workflow_id@)),
    {
        self.plain(Tool::RetrieveWorkflowById, workflow_id.as_str())
    }

    /// Deletes one workflow.
    pub fn delete_workflow_by_id(&self, workflow_id: String) -> (req: Request)
        ensures
            req@ == bare(Verb::Delete, self.address(Tool::DeleteWorkflowById, workflow_id@)),
    {
        self.plain(Tool::DeleteWorkflowById, workflow_id.as_str())
    }

    /// Activates one workflow.
    pub fn activate_workflow_by_id(&self, workflow_id: String) -> (req: Request)
        ensures
            req@ == bare(Verb::Post, self.address(Tool::ActivateWorkflowById, workflow_id@)),
    {
        self.plain(Tool::ActivateWorkflowById, workflow_id.as_str())
    }

    /// Deactivates one workflow.
    pub fn deactivate_workflow_by_id(&self, workflow_id: String) -> (req: Request)
        ensures
            req@ == bare(Verb::Post, self.address(Tool::DeactivateWorkflowById, workflow_id@)),
    {
        self.plain(Tool::DeactivateWorkflowById, workflow_id.as_str())
    }

    /// Replaces one workflow, with the default settings.
    pub fn update_workflow_by_id(
        &self,
        workflow_id: String,
        name: String,
        nodes: Json,
        connections: Json,
    ) -> (req: Request)
        ensures
            req@ == (RequestView {
                verb: Verb::Put,
                url: self.address(Tool::UpdateWorkflowById, workflow_id@),
                query: Seq::empty(),
                body: Some(workflow_body(name@, nodes@, connections@)),
            }),
    {
        let req = Request {
            verb: Tool::UpdateWorkflowById.verb(false),
            url: self.locate(Tool::UpdateWorkflowById, workflow_id.as_str()),
            query: Vec::new(),
            body: Some(Self::workflow_document(name, nodes, connections)),
        };
        assert(req@.query =~= Seq::empty());
        req
    }

    /// Retrieves the tags of one workflow.
    pub fn get_workflow_tags_by_workflow_id(&self, workflow_id: String) -> (req: Request)
        ensures
            req@ == bare(
                Verb::Get,
                self.address(Tool::GetWorkflowTagsByWorkflowId, workflow_id@),
            ),
    {
        self.plain(Tool::GetWorkflowTagsByWorkflowId, workflow_id.as_str())
    }

    /// Replaces the tags of one workflow by `tags`.
    pub fn update_workflow_tags_by_workflow_id(&self, workflow_id: String, tags: Vec<Id>) -> (req:
        Request)
        ensures
            req@ == (RequestView {
                verb: Verb::Put,
                url: self.address(Tool::UpdateWorkflowTagsByWorkflowId, workflow_id@),
                query: Seq::empty(),
                body: Some(tags_body(ids_view(tags@))),
            }),
    {
        let mut items: Vec<Json> = Vec::new();
        let mut i: usize = 0;
        while i < tags.len()
            invariant
                i <= tags.len(),
                items.len() == i,
                forall|j: int| 0 <= j < i ==> items[j]@ == id_json(#[trigger] tags[j]@),
            decreases tags.len() - i,
        {
            items.push(tags[i].to_json());
            i = i + 1;
        }
        assert(items_view(items@) =~= tags_body(ids_view(tags@))->Array_0);
        let req = Request {
            verb: Tool::UpdateWorkflowTagsByWorkflowId.verb(false),
            url: self.locate(Tool::UpdateWorkflowTagsByWorkflowId, workflow_id.as_str()),
            query: Vec::new(),
            body: Some(Json::array(items)),
        };
        assert(req@.query =~= Seq::empty());
        req
    }

    /// Runs a workflow through its webhook: a plain `GET` where there is no
    /// data, and a `POST` that carries the data where there is.
    pub fn run_workflow(&self, webhook_path: String, data: Option<Json>) -> (req: Request)
        ensures
            req@ == (RequestView {
                verb: if data is Some {
                    Verb::Post
                } else {
                    Verb::Get
                },
                url: self.address(Tool::RunWorkflow, webhook_path@),
                query: Seq::empty(),
                body: match data {
                    Some(data) => Some(data@),
                    None => None,
                },
            }),
    {
        let req = Request {
            verb: Tool::RunWorkflow.verb(data.is_some()),
            url: self.locate(Tool::RunWorkflow, webhook_path.as_str()),
            query: Vec::new(),
            body: data,
        };
        assert(req@.query =~= Seq::empty());
        req
    }

    /// Creates a tag.
    pub fn create_tag(&self, name: String) -> (req: Request)
        ensures
            req@ == (RequestView {
                verb: Verb::Post,
                url: self.address(Tool::CreateTag, Seq::empty()),
                query: Seq::empty(),
                body: Some(tag_body(name@)),
            }),
    {
        let req = Request {
            verb: Tool::CreateTag.verb(false),
            url: self.locate(Tool::CreateTag, text::NOTHING),
            query: Vec::new(),
            body: Some(Self::tag_document(name)),
        };
        assert(req@.query =~= Seq::empty());
        req
    }

    /// Lists tags: from `cursor` on where one is given, else from the first
    /// page, and no more than `limit` at once where one is given.
    pub fn retrieve_tags(&self, cursor: Option<String>, limit: Option<u8>) -> (req: Request)
        ensures
            req@ == (RequestView {
                verb: Verb::Get,
                url: self.address(Tool::RetrieveTags, Seq::empty()),
                query: tags_query(text_view(cursor), limit),
                body: None,
            }),
    {
        let mut query: Vec<(String, Json)> = Vec::new();
        assert(members_view(query@) =~= Seq::empty());
        put_optional(&mut query, text::CURSOR, optional_text(&cursor));
        put_optional(&mut query, text::LIMIT, optional_count(limit));
        assert(members_view(query@) =~= tags_query(text_view(cursor), limit));
        Request {
            verb: Tool::RetrieveTags.verb(false),
            url: self.locate(Tool::RetrieveTags, text::NOTHING),
            query,
            body: None,
        }
    }

    /// Retrieves one tag.
    pub fn retrieve_tag_by_id(&self, tag_id: String) -> (req: Request)
        ensures
            req@ == bare(Verb::Get, self.address(Tool::RetrieveTagById, tag_id@)),
    {
        self.plain(Tool::RetrieveTagById, tag_id.as_str())
    }

    /// Deletes one tag.
    pub fn delete_tag_by_id(&self, tag_id: String) -> (req: Request)
        ensures
            req@ == bare(Verb::Delete, self.address(Tool::DeleteTagById, tag_id@)),
    {
        self.plain(Tool::DeleteTagById, tag_id.as_str())
    }

    /// Renames one tag.
    pub fn update_tag_by_id(&self, tag_id: String, name: String) -> (req: Request)
        ensures
            req@ == (RequestView {
                verb: Verb::Put,
                url: self.address(Tool::UpdateTagById, tag_id@),
                query: Seq::empty(),
                body: Some(tag_body(name@)),
            }),
    {
        let req = Request {
            verb: Tool::UpdateTagById.verb(false),
            url: self.locate(Tool::UpdateTagById, tag_id.as_str()),
            query: Vec::new(),
            body: Some(Self::tag_document(name)),
        };
        assert(req@.query =~= Seq::empty());
        req
    }
}

} // verus!
