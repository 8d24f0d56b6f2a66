//! The tools the bridge offers: what each is called, which parameters it
//! takes, and the route its one request follows.

use crate::request::Verb;
use crate::text;
use vstd::prelude::*;

verus! {

/// A tool of the bridge. Each stands for one operation of the remote service.
#[derive(Clone, Copy, Debug, PartialEq, Eq, Structural)]
pub enum Tool {
    RetrieveAllExecutions,
    RetrieveExecutionById,
    DeleteExecutionById,
    CreateWorkflow,
    RetrieveWorkflows,
    RetrieveWorkflowById,
    DeleteWorkflowById,
    ActivateWorkflowById,
    DeactivateWorkflowById,
    UpdateWorkflowById,
    GetWorkflowTagsByWorkflowId,
    UpdateWorkflowTagsByWorkflowId,
    RunWorkflow,
    CreateTag,
    RetrieveTags,
    RetrieveTagById,
    DeleteTagById,
    UpdateTagById,
}

/// What a parameter holds.
#[derive(Clone, Copy, Debug, PartialEq, Eq, Structural)]
pub enum ParamKind {
    /// A string.
    Text,
    /// `true` or `false`.
    Flag,
    /// A whole number from 0 to 255.
    Count,
    /// Any JSON document, handed on as it is.
    Document,
    /// The status of an execution: `error`, `success` or `waiting`.
    Status,
    /// An array of objects that each name a tag by its `id`.
    TagIds,
    /// An object of optional filters for listing workflows.
    Filter,
}

/// One parameter of a tool.
#[derive(Clone, Copy, Debug)]
pub struct Param {
    pub name: &'static str,
    pub kind: ParamKind,
    /// Whether a call must give it. One that need not be given may also be `null`.
    pub required: bool,
    pub about: &'static str,
}

/// Where a tool's request goes: `collection`, then, where `key` names a
/// parameter, a slash and the value of that parameter, then `suffix`.
#[derive(Clone, Copy, Debug)]
pub struct Route {
    pub collection: &'static str,
    pub key: Option<&'static str>,
    pub suffix: &'static str,
}

/// How a tool is listed.
#[derive(Debug)]
pub struct ToolDescriptor {
    pub tool: Tool,
    pub name: &'static str,
    pub description: &'static str,
    pub params: Vec<Param>,
}

/// Every tool, in the order of the listing.
pub open spec fn all_tools() -> Seq<Tool> {
    seq![
        Tool::RetrieveAllExecutions,
        Tool::RetrieveExecutionById,
        Tool::DeleteExecutionById,
        Tool::CreateWorkflow,
        Tool::RetrieveWorkflows,
        Tool::RetrieveWorkflowById,
        Tool::DeleteWorkflowById,
        Tool::ActivateWorkflowById,
        Tool::DeactivateWorkflowById,
        Tool::UpdateWorkflowById,
        Tool::GetWorkflowTagsByWorkflowId,
        Tool::UpdateWorkflowTagsByWorkflowId,
        Tool::RunWorkflow,
        Tool::CreateTag,
        Tool::RetrieveTags,
        Tool::RetrieveTagById,
        Tool::DeleteTagById,
        Tool::UpdateTagById,
    ]
}

/// The name a tool is called by.
pub open spec fn name_of(tool: Tool) -> Seq<char> {
    match tool {
        Tool::RetrieveAllExecutions => text::TOOL_RETRIEVE_ALL_EXECUTIONS@,
        Tool::RetrieveExecutionById => text::TOOL_RETRIEVE_EXECUTION_BY_ID@,
        Tool::DeleteExecutionById => text::TOOL_DELETE_EXECUTION_BY_ID@,
        Tool::CreateWorkflow => text::TOOL_CREATE_WORKFLOW@,
        Tool::RetrieveWorkflows => text::TOOL_RETRIEVE_WORKFLOWS@,
        Tool::RetrieveWorkflowById => text::TOOL_RETRIEVE_WORKFLOW_BY_ID@,
        Tool::DeleteWorkflowById => text::TOOL_DELETE_WORKFLOW_BY_ID@,
        Tool::ActivateWorkflowById => text::TOOL_ACTIVATE_WORKFLOW_BY_ID@,
        Tool::DeactivateWorkflowById => text::TOOL_DEACTIVATE_WORKFLOW_BY_ID@,
        Tool::UpdateWorkflowById => text::TOOL_UPDATE_WORKFLOW_BY_ID@,
        Tool::GetWorkflowTagsByWorkflowId => text::TOOL_GET_WORKFLOW_TAGS_BY_WORKFLOW_ID@,
        Tool::UpdateWorkflowTagsByWorkflowId => text::TOOL_UPDATE_WORKFLOW_TAGS_BY_WORKFLOW_ID@,
        Tool::RunWorkflow => text::TOOL_RUN_WORKFLOW@,
        Tool::CreateTag => text::TOOL_CREATE_TAG@,
        Tool::RetrieveTags => text::TOOL_RETRIEVE_TAGS@,
        Tool::RetrieveTagById => text::TOOL_RETRIEVE_TAG_BY_ID@,
        Tool::DeleteTagById => text::TOOL_DELETE_TAG_BY_ID@,
        Tool::UpdateTagById => text::TOOL_UPDATE_TAG_BY_ID@,
    }
}

/// What the listing says of a tool.
pub open spec fn about_of(tool: Tool) -> Seq<char> {
    match tool {
        Tool::RetrieveAllExecutions => text::ABOUT_RETRIEVE_ALL_EXECUTIONS@,
        Tool::RetrieveExecutionById => text::ABOUT_RETRIEVE_EXECUTION_BY_ID@,
        Tool::DeleteExecutionById => text::ABOUT_DELETE_EXECUTION_BY_ID@,
        Tool::CreateWorkflow => text::ABOUT_CREATE_WORKFLOW@,
        Tool::RetrieveWorkflows => text::ABOUT_RETRIEVE_WORKFLOWS@,
        Tool::RetrieveWorkflowById => text::ABOUT_RETRIEVE_WORKFLOW_BY_ID@,
        Tool::DeleteWorkflowById => text::ABOUT_DELETE_WORKFLOW_BY_ID@,
        Tool::ActivateWorkflowById => text::ABOUT_ACTIVATE_WORKFLOW_BY_ID@,
        Tool::DeactivateWorkflowById => text::ABOUT_DEACTIVATE_WORKFLOW_BY_ID@,
        Tool::UpdateWorkflowById => text::ABOUT_UPDATE_WORKFLOW_BY_ID@,
        Tool::GetWorkflowTagsByWorkflowId => text::ABOUT_GET_WORKFLOW_TAGS_BY_WORKFLOW_ID@,
        Tool::UpdateWorkflowTagsByWorkflowId => text::ABOUT_UPDATE_WORKFLOW_TAGS_BY_WORKFLOW_ID@,
        Tool::RunWorkflow => text::ABOUT_RUN_WORKFLOW@,
        Tool::CreateTag => text::ABOUT_CREATE_TAG@,
        Tool::RetrieveTags => text::ABOUT_RETRIEVE_TAGS@,
        Tool::RetrieveTagById => text::ABOUT_RETRIEVE_TAG_BY_ID@,
        Tool::DeleteTagById => text::ABOUT_DELETE_TAG_BY_ID@,
        Tool::UpdateTagById => text::ABOUT_UPDATE_TAG_BY_ID@,
    }
}

/// The parameters of a tool, in the order of the listing.
pub open spec fn schema_of(tool: Tool) -> Seq<Param> {
    match tool {
        Tool::RetrieveAllExecutions => seq![
            Param {
                name: text::INCLUDE_DATA,
                kind: ParamKind::Flag,
                required: true,
                about: text::ABOUT_RETRIEVE_ALL_EXECUTIONS_INCLUDE_DATA,
            },
            Param {
                name: text::STATUS,
                kind: ParamKind::Status,
                required: true,
                about: text::ABOUT_RETRIEVE_ALL_EXECUTIONS_STATUS,
            },
            Param {
                name: text::WORKFLOW_ID,
                kind: ParamKind::Text,
                required: false,
                about: text::ABOUT_RETRIEVE_ALL_EXECUTIONS_WORKFLOW_ID,
            },
            Param {
                name: text::PROJECT_ID,
                kind: ParamKind::Text,
                required: false,
                about: text::ABOUT_RETRIEVE_ALL_EXECUTIONS_PROJECT_ID,
            },
            Param {
                name: text::LIMIT,
                kind: ParamKind::Count,
                required: false,
                about: text::ABOUT_RETRIEVE_ALL_EXECUTIONS_LIMIT,
            },
            Param {
                name: text::CURSOR,
                kind: ParamKind::Text,
                required: false,
                about: text::ABOUT_RETRIEVE_ALL_EXECUTIONS_CURSOR,
            },
        ],
        Tool::RetrieveExecutionById => seq![
            Param {
                name: text::EXECUTION_ID,
                kind: ParamKind::Text,
                required: true,
                about: text::ABOUT_RETRIEVE_EXECUTION_BY_ID_EXECUTION_ID,
            },
        ],
        Tool::DeleteExecutionById => seq![
            Param {
                name: text::EXECUTION_ID,
                kind: ParamKind::Text,
                required: true,
                about: text::ABOUT_DELETE_EXECUTION_BY_ID_EXECUTION_ID,
            },
        ],
        Tool::CreateWorkflow => seq![
            Param {
                name: text::NAME,
                kind: ParamKind::Text,
                required: true,
                about: text::ABOUT_CREATE_WORKFLOW_NAME,
            },
            Param {
                name: text::NODES,
                kind: ParamKind::Document,
                required: true,
                about: text::ABOUT_CREATE_WORKFLOW_NODES,
            },
            Param {
                name: text::CONNECTIONS,
                kind: ParamKind::Document,
                required: true,
                about: text::ABOUT_CREATE_WORKFLOW_CONNECTIONS,
            },
        ],
        Tool::RetrieveWorkflows => seq![
            Param {
                name: text::RETRIEVE_WORKFLOW_PARAMS,
                kind: ParamKind::Filter,
                required: true,
                about: text::ABOUT_RETRIEVE_WORKFLOWS_RETRIEVE_WORKFLOW_PARAMS,
            },
        ],
        Tool::RetrieveWorkflowById => seq![
            Param {
                name: text::WORKFLOW_ID,
                kind: ParamKind::Text,
                required: true,
                about: text::ABOUT_RETRIEVE_WORKFLOW_BY_ID_WORKFLOW_ID,
            },
        ],
        Tool::DeleteWorkflowById => seq![
            Param {
                name: text::WORKFLOW_ID,
                kind: ParamKind::Text,
                required: true,
                about: text::ABOUT_DELETE_WORKFLOW_BY_ID_WORKFLOW_ID,
            },
        ],
        Tool::ActivateWorkflowById => seq![
            Param {
                name: text::WORKFLOW_ID,
                kind: ParamKind::Text,
                required: true,
                about: text::ABOUT_ACTIVATE_WORKFLOW_BY_ID_WORKFLOW_ID,
            },
        ],
        Tool::DeactivateWorkflowById => seq![
            Param {
                name: text::WORKFLOW_ID,
                kind: ParamKind::Text,
                required: true,
                about: text::ABOUT_DEACTIVATE_WORKFLOW_BY_ID_WORKFLOW_ID,
            },
        ],
        Tool::UpdateWorkflowById => seq![
            Param {
                name: text::WORKFLOW_ID,
                kind: ParamKind::Text,
                required: true,
                about: text::ABOUT_UPDATE_WORKFLOW_BY_ID_WORKFLOW_ID,
            },
            Param {
                name: text::NAME,
                kind: ParamKind::Text,
                required: true,
                about: text::ABOUT_UPDATE_WORKFLOW_BY_ID_NAME,
            },
            Param {
                name: text::NODES,
                kind: ParamKind::Document,
                required: true,
                about: text::ABOUT_UPDATE_WORKFLOW_BY_ID_NODES,
            },
            Param {
                name: text::CONNECTIONS,
                kind: ParamKind::Document,
                required: true,
                about: text::ABOUT_UPDATE_WORKFLOW_BY_ID_CONNECTIONS,
            },
        ],
        Tool::GetWorkflowTagsByWorkflowId => seq![
            Param {
                name: text::WORKFLOW_ID,
                kind: ParamKind::Text,
                required: true,
                about: text::ABOUT_GET_WORKFLOW_TAGS_BY_WORKFLOW_ID_WORKFLOW_ID,
            },
        ],
        Tool::UpdateWorkflowTagsByWorkflowId => seq![
            Param {
                name: text::WORKFLOW_ID,
                kind: ParamKind::Text,
                required: true,
                about: text::ABOUT_UPDATE_WORKFLOW_TAGS_BY_WORKFLOW_ID_WORKFLOW_ID,
            },
            Param {
                name: text::TAGS,
                kind: ParamKind::TagIds,
                required: true,
                about: text::ABOUT_UPDATE_WORKFLOW_TAGS_BY_WORKFLOW_ID_TAGS,
            },
        ],
        Tool::RunWorkflow => seq![
            Param {
                name: text::WEBHOOK_PATH,
                kind: ParamKind::Text,
                required: true,
                about: text::ABOUT_RUN_WORKFLOW_WEBHOOK_PATH,
            },
            Param {
                name: text::DATA,
                kind: ParamKind::Document,
                required: false,
                about: text::ABOUT_RUN_WORKFLOW_DATA,
            },
        ],
        Tool::CreateTag => seq![
            Param {
                name: text::NAME,
                kind: ParamKind::Text,
                required: true,
                about: text::ABOUT_CREATE_TAG_NAME,
            },
        ],
        Tool::RetrieveTags => seq![
            Param {
                name: text::CURSOR,
                kind: ParamKind::Text,
                required: false,
                about: text::ABOUT_RETRIEVE_TAGS_CURSOR,
            },
            Param {
                name: text::LIMIT,
                kind: ParamKind::Count,
                required: false,
                about: text::ABOUT_RETRIEVE_TAGS_LIMIT,
            },
        ],
        Tool::RetrieveTagById => seq![
            Param {
                name: text::TAG_ID,
                kind: ParamKind::Text,
                required: true,
                about: text::ABOUT_RETRIEVE_TAG_BY_ID_TAG_ID,
            },
        ],
        Tool::DeleteTagById => seq![
            Param {
                name: text::TAG_ID,
                kind: ParamKind::Text,
                required: true,
                about: text::ABOUT_DELETE_TAG_BY_ID_TAG_ID,
            },
        ],
        Tool::UpdateTagById => seq![
            Param {
                name: text::TAG_ID,
                kind: ParamKind::Text,
                required: true,
                about: text::ABOUT_UPDATE_TAG_BY_ID_TAG_ID,
            },
            Param {
                name: text::NAME,
                kind: ParamKind::Text,
                required: true,
                about: text::ABOUT_UPDATE_TAG_BY_ID_NAME,
            },
        ],
    }
}

/// The fields of the filter for listing workflows. None of them is required.
pub open spec fn filter_fields() -> Seq<Param> {
    seq![
        Param { name: text::ACTIVE, kind: ParamKind::Flag, required: false, about: text::NOTHING },
        Param { name: text::TAGS, kind: ParamKind::Text, required: false, about: text::NOTHING },
        Param { name: text::NAME, kind: ParamKind::Text, required: false, about: text::NOTHING },
        Param { name: text::PROJECT_ID, kind: ParamKind::Text, required: false, about: text::NOTHING },
        Param { name: text::EXCLUDE_PINNED_DATA, kind: ParamKind::Text, required: false, about: text::NOTHING },
        Param { name: text::LIMIT, kind: ParamKind::Count, required: false, about: text::NOTHING },
        Param { name: text::CURSOR, kind: ParamKind::Text, required: false, about: text::NOTHING },
    ]
}

/// The route of a tool.
pub open spec fn route_of(tool: Tool) -> Route {
    match tool {
        Tool::RetrieveAllExecutions => Route { collection: text::EXECUTIONS, key: None, suffix: text::NOTHING },
        Tool::RetrieveExecutionById => Route { collection: text::EXECUTIONS, key: Some(text::EXECUTION_ID), suffix: text::NOTHING },
        Tool::DeleteExecutionById => Route { collection: text::EXECUTIONS, key: Some(text::EXECUTION_ID), suffix: text::NOTHING },
        Tool::CreateWorkflow => Route { collection: text::WORKFLOWS, key: None, suffix: text::NOTHING },
        Tool::RetrieveWorkflows => Route { collection: text::WORKFLOWS, key: None, suffix: text::NOTHING },
        Tool::RetrieveWorkflowById => Route { collection: text::WORKFLOWS, key: Some(text::WORKFLOW_ID), suffix: text::NOTHING },
        Tool::DeleteWorkflowById => Route { collection: text::WORKFLOWS, key: Some(text::WORKFLOW_ID), suffix: text::NOTHING },
        Tool::ActivateWorkflowById => Route { collection: text::WORKFLOWS, key: Some(text::WORKFLOW_ID), suffix: text::ACTIVATE },
        Tool::DeactivateWorkflowById => Route { collection: text::WORKFLOWS, key: Some(text::WORKFLOW_ID), suffix: text::DEACTIVATE },
        Tool::UpdateWorkflowById => Route { collection: text::WORKFLOWS, key: Some(text::WORKFLOW_ID), suffix: text::NOTHING },
        Tool::GetWorkflowTagsByWorkflowId => Route { collection: text::WORKFLOWS, key: Some(text::WORKFLOW_ID), suffix: text::TAGS_PATH },
        Tool::UpdateWorkflowTagsByWorkflowId => Route { collection: text::WORKFLOWS, key: Some(text::WORKFLOW_ID), suffix: text::TAGS_PATH },
        Tool::RunWorkflow => Route { collection: text::WEBHOOK, key: Some(text::WEBHOOK_PATH), suffix: text::NOTHING },
        Tool::CreateTag => Route { collection: text::TAGS_PATH, key: None, suffix: text::NOTHING },
        Tool::RetrieveTags => Route { collection: text::TAGS_PATH, key: None, suffix: text::NOTHING },
        Tool::RetrieveTagById => Route { collection: text::TAGS_PATH, key: Some(text::TAG_ID), suffix: text::NOTHING },
        Tool::DeleteTagById => Route { collection: text::TAGS_PATH, key: Some(text::TAG_ID), suffix: text::NOTHING },
        Tool::UpdateTagById => Route { collection: text::TAGS_PATH, key: Some(text::TAG_ID), suffix: text::NOTHING },
    }
}

/// The path of a tool's request, where `key` is the value of the parameter
/// its route is keyed by. A route without a key does not look at `key`.
pub open spec fn path_of(tool: Tool, key: Seq<char>) -> Seq<char> {
    let route = route_of(tool);
    match route.key {
        Some(_) => route.collection@ + text::SLASH@ + key + route.suffix@,
        None => route.collection@ + route.suffix@,
    }
}

/// The verb of a tool's request. Only running a workflow looks at
/// `with_data`: it posts the data it is given and otherwise just gets.
pub open spec fn verb_of(tool: Tool, with_data: bool) -> Verb {
    match tool {
        Tool::RetrieveAllExecutions => Verb::Get,
        Tool::RetrieveExecutionById => Verb::Get,
        Tool::DeleteExecutionById => Verb::Delete,
        Tool::CreateWorkflow => Verb::Post,
        Tool::RetrieveWorkflows => Verb::Get,
        Tool::RetrieveWorkflowById => Verb::Get,
        Tool::DeleteWorkflowById => Verb::Delete,
        Tool::ActivateWorkflowById => Verb::Post,
        Tool::DeactivateWorkflowById => Verb::Post,
        Tool::UpdateWorkflowById => Verb::Put,
        Tool::GetWorkflowTagsByWorkflowId => Verb::Get,
        Tool::UpdateWorkflowTagsByWorkflowId => Verb::Put,
        Tool::RunWorkflow => if with_data {
            Verb::Post
        } else {
            Verb::Get
        },
        Tool::CreateTag => Verb::Post,
        Tool::RetrieveTags => Verb::Get,
        Tool::RetrieveTagById => Verb::Get,
        Tool::DeleteTagById => Verb::Delete,
        Tool::UpdateTagById => Verb::Put,
    }
}

/// The tool that is called `name`, if there is one.
pub open spec fn tool_named(name: Seq<char>) -> Option<Tool> {
    if exists|tool: Tool| name_of(tool) == name {
        Some(choose|tool: Tool| name_of(tool) == name)
    } else {
        None
    }
}

/// What tells the name of a tool from the others: its length, its first
/// character and its tenth.
spec fn marks(tool: Tool) -> (nat, char, char) {
    match tool {
        Tool::RetrieveAllExecutions => (23, 'r', 'a'),
        Tool::RetrieveExecutionById => (24, 'r', 'e'),
        Tool::DeleteExecutionById => (22, 'd', 'e'),
        Tool::CreateWorkflow => (15, 'c', 'r'),
        Tool::RetrieveWorkflows => (18, 'r', 'w'),
        Tool::RetrieveWorkflowById => (23, 'r', 'w'),
        Tool::DeleteWorkflowById => (21, 'd', 'r'),
        Tool::ActivateWorkflowById => (23, 'a', 'w'),
        Tool::DeactivateWorkflowById => (25, 'd', 'e'),
        Tool::UpdateWorkflowById => (21, 'u', 'r'),
        Tool::GetWorkflowTagsByWorkflowId => (32, 'g', 'l'),
        Tool::UpdateWorkflowTagsByWorkflowId => (35, 'u', 'r'),
        Tool::RunWorkflow => (12, 'r', 'l'),
        Tool::CreateTag => (10, 'c', 'g'),
        Tool::RetrieveTags => (13, 'r', 't'),
        Tool::RetrieveTagById => (18, 'r', 't'),
        Tool::DeleteTagById => (16, 'd', 'g'),
        Tool::UpdateTagById => (16, 'u', 'g'),
    }
}

proof fn lemma_marks(tool: Tool)
    ensures
        marks(tool) == (name_of(tool).len(), name_of(tool)[0], name_of(tool)[9]),
{
    match tool {
        Tool::RetrieveAllExecutions => reveal_strlit("retrieve_all_executions"),
        Tool::RetrieveExecutionById => reveal_strlit("retrieve_execution_by_id"),
        Tool::DeleteExecutionById => reveal_strlit("delete_execution_by_id"),
        Tool::CreateWorkflow => reveal_strlit("create_workflow"),
        Tool::RetrieveWorkflows => reveal_strlit("retrieve_workflows"),
        Tool::RetrieveWorkflowById => reveal_strlit("retrieve_workflow_by_id"),
        Tool::DeleteWorkflowById => reveal_strlit("delete_workflow_by_id"),
        Tool::ActivateWorkflowById => reveal_strlit("activate_workflow_by_id"),
        Tool::DeactivateWorkflowById => reveal_strlit("deactivate_workflow_by_id"),
        Tool::UpdateWorkflowById => reveal_strlit("update_workflow_by_id"),
        Tool::GetWorkflowTagsByWorkflowId => reveal_strlit("get_workflow_tags_by_workflow_id"),
        Tool::UpdateWorkflowTagsByWorkflowId => reveal_strlit("update_workflow_tags_by_workflow_id"),
        Tool::RunWorkflow => reveal_strlit("run_workflow"),
        Tool::CreateTag => reveal_strlit("create_tag"),
        Tool::RetrieveTags => reveal_strlit("retrieve_tags"),
        Tool::RetrieveTagById => reveal_strlit("retrieve_tag_by_id"),
        Tool::DeleteTagById => reveal_strlit("delete_tag_by_id"),
        Tool::UpdateTagById => reveal_strlit("update_tag_by_id"),
    }
}

/// No two tools share a name.
pub proof fn lemma_names_differ(a: Tool, b: Tool)
    requires
        name_of(a) == name_of(b),
    ensures
        a == b,
{
    lemma_marks(a);
    lemma_marks(b);
}

/// Every tool is found by its own name.
pub proof fn lemma_found_by_name(tool: Tool)
    ensures
        tool_named(name_of(tool)) == Some(tool),
{
    let found = choose|other: Tool| name_of(other) == name_of(tool);
    lemma_names_differ(found, tool);
}

/// Every tool is in the listing.
pub proof fn lemma_all_tools_listed(tool: Tool)
    ensures
        exists|i: int| 0 <= i < all_tools().len() && all_tools()[i] == tool,
{
    match tool {
        Tool::RetrieveAllExecutions => assert(all_tools()[0] == tool),
        Tool::RetrieveExecutionById => assert(all_tools()[1] == tool),
        Tool::DeleteExecutionById => assert(all_tools()[2] == tool),
        Tool::CreateWorkflow => assert(all_tools()[3] == tool),
        Tool::RetrieveWorkflows => assert(all_tools()[4] == tool),
        Tool::RetrieveWorkflowById => assert(all_tools()[5] == tool),
        Tool::DeleteWorkflowById => assert(all_tools()[6] == tool),
        Tool::ActivateWorkflowById => assert(all_tools()[7] == tool),
        Tool::DeactivateWorkflowById => assert(all_tools()[8] == tool),
        Tool::UpdateWorkflowById => assert(all_tools()[9] == tool),
        Tool::GetWorkflowTagsByWorkflowId => assert(all_tools()[10] == tool),
        Tool::UpdateWorkflowTagsByWorkflowId => assert(all_tools()[11] == tool),
        Tool::RunWorkflow => assert(all_tools()[12] == tool),
        Tool::CreateTag => assert(all_tools()[13] == tool),
        Tool::RetrieveTags => assert(all_tools()[14] == tool),
        Tool::RetrieveTagById => assert(all_tools()[15] == tool),
        Tool::DeleteTagById => assert(all_tools()[16] == tool),
        Tool::UpdateTagById => assert(all_tools()[17] == tool),
    }
}

impl Tool {
    /// Every tool, in the order of the listing.
    pub fn all() -> (tools: Vec<Tool>)
        ensures
            tools@ == all_tools(),
    {
        let mut tools: Vec<Tool> = Vec::new();
        tools.push(Tool::RetrieveAllExecutions);
        tools.push(Tool::RetrieveExecutionById);
        tools.push(Tool::DeleteExecutionById);
        tools.push(Tool::CreateWorkflow);
        tools.push(Tool::RetrieveWorkflows);
        tools.push(Tool::RetrieveWorkflowById);
        tools.push(Tool::DeleteWorkflowById);
        tools.push(Tool::ActivateWorkflowById);
        tools.push(Tool::DeactivateWorkflowById);
        tools.push(Tool::UpdateWorkflowById);
        tools.push(Tool::GetWorkflowTagsByWorkflowId);
        tools.push(Tool::UpdateWorkflowTagsByWorkflowId);
        tools.push(Tool::RunWorkflow);
        tools.push(Tool::CreateTag);
        tools.push(Tool::RetrieveTags);
        tools.push(Tool::RetrieveTagById);
        tools.push(Tool::DeleteTagById);
        tools.push(Tool::UpdateTagById);
        assert(tools@ =~= all_tools());
        tools
    }

    /// The name the tool is called by.
    pub fn name(self) -> (name: &'static str)
        ensures
            name@ == name_of(self),
    {
        match self {
            Tool::RetrieveAllExecutions => text::TOOL_RETRIEVE_ALL_EXECUTIONS,
            Tool::RetrieveExecutionById => text::TOOL_RETRIEVE_EXECUTION_BY_ID,
            Tool::DeleteExecutionById => text::TOOL_DELETE_EXECUTION_BY_ID,
            Tool::CreateWorkflow => text::TOOL_CREATE_WORKFLOW,
            Tool::RetrieveWorkflows => text::TOOL_RETRIEVE_WORKFLOWS,
            Tool::RetrieveWorkflowById => text::TOOL_RETRIEVE_WORKFLOW_BY_ID,
            Tool::DeleteWorkflowById => text::TOOL_DELETE_WORKFLOW_BY_ID,
            Tool::ActivateWorkflowById => text::TOOL_ACTIVATE_WORKFLOW_BY_ID,
            Tool::DeactivateWorkflowById => text::TOOL_DEACTIVATE_WORKFLOW_BY_ID,
            Tool::UpdateWorkflowById => text::TOOL_UPDATE_WORKFLOW_BY_ID,
            Tool::GetWorkflowTagsByWorkflowId => text::TOOL_GET_WORKFLOW_TAGS_BY_WORKFLOW_ID,
            Tool::UpdateWorkflowTagsByWorkflowId => text::TOOL_UPDATE_WORKFLOW_TAGS_BY_WORKFLOW_ID,
            Tool::RunWorkflow => text::TOOL_RUN_WORKFLOW,
            Tool::CreateTag => text::TOOL_CREATE_TAG,
            Tool::RetrieveTags => text::TOOL_RETRIEVE_TAGS,
            Tool::RetrieveTagById => text::TOOL_RETRIEVE_TAG_BY_ID,
            Tool::DeleteTagById => text::TOOL_DELETE_TAG_BY_ID,
            Tool::UpdateTagById => text::TOOL_UPDATE_TAG_BY_ID,
        }
    }

    /// What the listing says of the tool.
    pub fn description(self) -> (about: &'static str)
        ensures
            about@ == about_of(self),
    {
        match self {
            Tool::RetrieveAllExecutions => text::ABOUT_RETRIEVE_ALL_EXECUTIONS,
            Tool::RetrieveExecutionById => text::ABOUT_RETRIEVE_EXECUTION_BY_ID,
            Tool::DeleteExecutionById => text::ABOUT_DELETE_EXECUTION_BY_ID,
            Tool::CreateWorkflow => text::ABOUT_CREATE_WORKFLOW,
            Tool::RetrieveWorkflows => text::ABOUT_RETRIEVE_WORKFLOWS,
            Tool::RetrieveWorkflowById => text::ABOUT_RETRIEVE_WORKFLOW_BY_ID,
            Tool::DeleteWorkflowById => text::ABOUT_DELETE_WORKFLOW_BY_ID,
            Tool::ActivateWorkflowById => text::ABOUT_ACTIVATE_WORKFLOW_BY_ID,
            Tool::DeactivateWorkflowById => text::ABOUT_DEACTIVATE_WORKFLOW_BY_ID,
            Tool::UpdateWorkflowById => text::ABOUT_UPDATE_WORKFLOW_BY_ID,
            Tool::GetWorkflowTagsByWorkflowId => text::ABOUT_GET_WORKFLOW_TAGS_BY_WORKFLOW_ID,
            Tool::UpdateWorkflowTagsByWorkflowId => text::ABOUT_UPDATE_WORKFLOW_TAGS_BY_WORKFLOW_ID,
            Tool::RunWorkflow => text::ABOUT_RUN_WORKFLOW,
            Tool::CreateTag => text::ABOUT_CREATE_TAG,
            Tool::RetrieveTags => text::ABOUT_RETRIEVE_TAGS,
            Tool::RetrieveTagById => text::ABOUT_RETRIEVE_TAG_BY_ID,
            Tool::DeleteTagById => text::ABOUT_DELETE_TAG_BY_ID,
            Tool::UpdateTagById => text::ABOUT_UPDATE_TAG_BY_ID,
        }
    }

    /// The parameters of the tool.
    pub fn params(self) -> (params: Vec<Param>)
        ensures
            params@ == schema_of(self),
    {
        let mut params: Vec<Param> = Vec::new();
        match self {
            Tool::RetrieveAllExecutions => {
                params.push(
                    Param {
                        name: text::INCLUDE_DATA,
                        kind: ParamKind::Flag,
                        required: true,
                        about: text::ABOUT_RETRIEVE_ALL_EXECUTIONS_INCLUDE_DATA,
                    },
                );
                params.push(
                    Param {
                        name: text::STATUS,
                        kind: ParamKind::Status,
                        required: true,
                        about: text::ABOUT_RETRIEVE_ALL_EXECUTIONS_STATUS,
                    },
                );
                params.push(
                    Param {
                        name: text::WORKFLOW_ID,
                        kind: ParamKind::Text,
                        required: false,
                        about: text::ABOUT_RETRIEVE_ALL_EXECUTIONS_WORKFLOW_ID,
                    },
                );
                params.push(
                    Param {
                        name: text::PROJECT_ID,
                        kind: ParamKind::Text,
                        required: false,
                        about: text::ABOUT_RETRIEVE_ALL_EXECUTIONS_PROJECT_ID,
                    },
                );
                params.push(
                    Param {
                        name: text::LIMIT,
                        kind: ParamKind::Count,
                        required: false,
                        about: text::ABOUT_RETRIEVE_ALL_EXECUTIONS_LIMIT,
                    },
                );
                params.push(
                    Param {
                        name: text::CURSOR,
                        kind: ParamKind::Text,
                        required: false,
                        about: text::ABOUT_RETRIEVE_ALL_EXECUTIONS_CURSOR,
                    },
                );
            },
            Tool::RetrieveExecutionById => {
                params.push(
                    Param {
                        name: text::EXECUTION_ID,
                        kind: ParamKind::Text,
                        required: true,
                        about: text::ABOUT_RETRIEVE_EXECUTION_BY_ID_EXECUTION_ID,
                    },
                );
            },
            Tool::DeleteExecutionById => {
                params.push(
                    Param {
                        name: text::EXECUTION_ID,
                        kind: ParamKind::Text,
                        required: true,
                        about: text::ABOUT_DELETE_EXECUTION_BY_ID_EXECUTION_ID,
                    },
                );
            },
            Tool::CreateWorkflow => {
                params.push(
                    Param {
                        name: text::NAME,
                        kind: ParamKind::Text,
                        required: true,
                        about: text::ABOUT_CREATE_WORKFLOW_NAME,
                    },
                );
                params.push(
                    Param {
                        name: text::NODES,
                        kind: ParamKind::Document,
                        required: true,
                        about: text::ABOUT_CREATE_WORKFLOW_NODES,
                    },
                );
                params.push(
                    Param {
                        name: text::CONNECTIONS,
                        kind: ParamKind::Document,
                        required: true,
                        about: text::ABOUT_CREATE_WORKFLOW_CONNECTIONS,
                    },
                );
            },
            Tool::RetrieveWorkflows => {
                params.push(
                    Param {
                        name: text::RETRIEVE_WORKFLOW_PARAMS,
                        kind: ParamKind::Filter,
                        required: true,
                        about: text::ABOUT_RETRIEVE_WORKFLOWS_RETRIEVE_WORKFLOW_PARAMS,
                    },
                );
            },
            Tool::RetrieveWorkflowById => {
                params.push(
                    Param {
                        name: text::WORKFLOW_ID,
                        kind: ParamKind::Text,
                        required: true,
                        about: text::ABOUT_RETRIEVE_WORKFLOW_BY_ID_WORKFLOW_ID,
                    },
                );
            },
            Tool::DeleteWorkflowById => {
                params.push(
                    Param {
                        name: text::WORKFLOW_ID,
                        kind: ParamKind::Text,
                        required: true,
                        about: text::ABOUT_DELETE_WORKFLOW_BY_ID_WORKFLOW_ID,
                    },
                );
            },
            Tool::ActivateWorkflowById => {
                params.push(
                    Param {
                        name: text::WORKFLOW_ID,
                        kind: ParamKind::Text,
                        required: true,
                        about: text::ABOUT_ACTIVATE_WORKFLOW_BY_ID_WORKFLOW_ID,
                    },
                );
            },
            Tool::DeactivateWorkflowById => {
                params.push(
                    Param {
                        name: text::WORKFLOW_ID,
                        kind: ParamKind::Text,
                        required: true,
                        about: text::ABOUT_DEACTIVATE_WORKFLOW_BY_ID_WORKFLOW_ID,
                    },
                );
            },
            Tool::UpdateWorkflowById => {
                params.push(
                    Param {
                        name: text::WORKFLOW_ID,
                        kind: ParamKind::Text,
                        required: true,
                        about: text::ABOUT_UPDATE_WORKFLOW_BY_ID_WORKFLOW_ID,
                    },
                );
                params.push(
                    Param {
                        name: text::NAME,
                        kind: ParamKind::Text,
                        required: true,
                        about: text::ABOUT_UPDATE_WORKFLOW_BY_ID_NAME,
                    },
                );
                params.push(
                    Param {
                        name: text::NODES,
                        kind: ParamKind::Document,
                        required: true,
                        about: text::ABOUT_UPDATE_WORKFLOW_BY_ID_NODES,
                    },
                );
                params.push(
                    Param {
                        name: text::CONNECTIONS,
                        kind: ParamKind::Document,
                        required: true,
                        about: text::ABOUT_UPDATE_WORKFLOW_BY_ID_CONNECTIONS,
                    },
                );
            },
            Tool::GetWorkflowTagsByWorkflowId => {
                params.push(
                    Param {
                        name: text::WORKFLOW_ID,
                        kind: ParamKind::Text,
                        required: true,
                        about: text::ABOUT_GET_WORKFLOW_TAGS_BY_WORKFLOW_ID_WORKFLOW_ID,
                    },
                );
            },
            Tool::UpdateWorkflowTagsByWorkflowId => {
                params.push(
                    Param {
                        name: text::WORKFLOW_ID,
                        kind: ParamKind::Text,
                        required: true,
                        about: text::ABOUT_UPDATE_WORKFLOW_TAGS_BY_WORKFLOW_ID_WORKFLOW_ID,
                    },
                );
                params.push(
                    Param {
                        name: text::TAGS,
                        kind: ParamKind::TagIds,
                        required: true,
                        about: text::ABOUT_UPDATE_WORKFLOW_TAGS_BY_WORKFLOW_ID_TAGS,
                    },
                );
            },
            Tool::RunWorkflow => {
                params.push(
                    Param {
                        name: text::WEBHOOK_PATH,
                        kind: ParamKind::Text,
                        required: true,
                        about: text::ABOUT_RUN_WORKFLOW_WEBHOOK_PATH,
                    },
                );
                params.push(
                    Param {
                        name: text::DATA,
                        kind: ParamKind::Document,
                        required: false,
                        about: text::ABOUT_RUN_WORKFLOW_DATA,
                    },
                );
            },
            Tool::CreateTag => {
                params.push(
                    Param {
                        name: text::NAME,
                        kind: ParamKind::Text,
                        required: true,
                        about: text::ABOUT_CREATE_TAG_NAME,
                    },
                );
            },
            Tool::RetrieveTags => {
                params.push(
                    Param {
                        name: text::CURSOR,
                        kind: ParamKind::Text,
                        required: false,
                        about: text::ABOUT_RETRIEVE_TAGS_CURSOR,
                    },
                );
                params.push(
                    Param {
                        name: text::LIMIT,
                        kind: ParamKind::Count,
                        required: false,
                        about: text::ABOUT_RETRIEVE_TAGS_LIMIT,
                    },
                );
            },
            Tool::RetrieveTagById => {
                params.push(
                    Param {
                        name: text::TAG_ID,
                        kind: ParamKind::Text,
                        required: true,
                        about: text::ABOUT_RETRIEVE_TAG_BY_ID_TAG_ID,
                    },
                );
            },
            Tool::DeleteTagById => {
                params.push(
                    Param {
                        name: text::TAG_ID,
                        kind: ParamKind::Text,
                        required: true,
                        about: text::ABOUT_DELETE_TAG_BY_ID_TAG_ID,
                    },
                );
            },
            Tool::UpdateTagById => {
                params.push(
                    Param {
                        name: text::TAG_ID,
                        kind: ParamKind::Text,
                        required: true,
                        about: text::ABOUT_UPDATE_TAG_BY_ID_TAG_ID,
                    },
                );
                params.push(
                    Param {
                        name: text::NAME,
                        kind: ParamKind::Text,
                        required: true,
                        about: text::ABOUT_UPDATE_TAG_BY_ID_NAME,
                    },
                );
            },
        }
        assert(params@ =~= schema_of(self));
        params
    }

    /// The fields of the filter for listing workflows.
    pub fn filter_params() -> (fields: Vec<Param>)
        ensures
            fields@ == filter_fields(),
    {
        let mut fields: Vec<Param> = Vec::new();
        fields.push(Param { name: text::ACTIVE, kind: ParamKind::Flag, required: false, about: text::NOTHING });
        fields.push(Param { name: text::TAGS, kind: ParamKind::Text, required: false, about: text::NOTHING });
        fields.push(Param { name: text::NAME, kind: ParamKind::Text, required: false, about: text::NOTHING });
        fields.push(Param { name: text::PROJECT_ID, kind: ParamKind::Text, required: false, about: text::NOTHING });
        fields.push(
            Param {
                name: text::EXCLUDE_PINNED_DATA,
                kind: ParamKind::Text,
                required: false,
                about: text::NOTHING,
            },
        );
        fields.push(Param { name: text::LIMIT, kind: ParamKind::Count, required: false, about: text::NOTHING });
        fields.push(Param { name: text::CURSOR, kind: ParamKind::Text, required: false, about: text::NOTHING });
        assert(fields@ =~= filter_fields());
        fields
    }

    /// The route of the tool.
    pub fn route(self) -> (route: Route)
        ensures
            route == route_of(self),
    {
        match self {
            Tool::RetrieveAllExecutions => Route { collection: text::EXECUTIONS, key: None, suffix: text::NOTHING },
            Tool::RetrieveExecutionById => Route { collection: text::EXECUTIONS, key: Some(text::EXECUTION_ID), suffix: text::NOTHING },
            Tool::DeleteExecutionById => Route { collection: text::EXECUTIONS, key: Some(text::EXECUTION_ID), suffix: text::NOTHING },
            Tool::CreateWorkflow => Route { collection: text::WORKFLOWS, key: None, suffix: text::NOTHING },
            Tool::RetrieveWorkflows => Route { collection: text::WORKFLOWS, key: None, suffix: text::NOTHING },
            Tool::RetrieveWorkflowById => Route { collection: text::WORKFLOWS, key: Some(text::WORKFLOW_ID), suffix: text::NOTHING },
            Tool::DeleteWorkflowById => Route { collection: text::WORKFLOWS, key: Some(text::WORKFLOW_ID), suffix: text::NOTHING },
            Tool::ActivateWorkflowById => Route { collection: text::WORKFLOWS, key: Some(text::WORKFLOW_ID), suffix: text::ACTIVATE },
            Tool::DeactivateWorkflowById => Route { collection: text::WORKFLOWS, key: Some(text::WORKFLOW_ID), suffix: text::DEACTIVATE },
            Tool::UpdateWorkflowById => Route { collection: text::WORKFLOWS, key: Some(text::WORKFLOW_ID), suffix: text::NOTHING },
            Tool::GetWorkflowTagsByWorkflowId => Route { collection: text::WORKFLOWS, key: Some(text::WORKFLOW_ID), suffix: text::TAGS_PATH },
            Tool::UpdateWorkflowTagsByWorkflowId => Route { collection: text::WORKFLOWS, key: Some(text::WORKFLOW_ID), suffix: text::TAGS_PATH },
            Tool::RunWorkflow => Route { collection: text::WEBHOOK, key: Some(text::WEBHOOK_PATH), suffix: text::NOTHING },
            Tool::CreateTag => Route { collection: text::TAGS_PATH, key: None, suffix: text::NOTHING },
            Tool::RetrieveTags => Route { collection: text::TAGS_PATH, key: None, suffix: text::NOTHING },
            Tool::RetrieveTagById => Route { collection: text::TAGS_PATH, key: Some(text::TAG_ID), suffix: text::NOTHING },
            Tool::DeleteTagById => Route { collection: text::TAGS_PATH, key: Some(text::TAG_ID), suffix: text::NOTHING },
            Tool::UpdateTagById => Route { collection: text::TAGS_PATH, key: Some(text::TAG_ID), suffix: text::NOTHING },
        }
    }

    /// The verb of the tool's request.
    pub fn verb(self, with_data: bool) -> (verb: Verb)
        ensures
            verb == verb_of(self, with_data),
    {
        match self {
            Tool::RetrieveAllExecutions => Verb::Get,
            Tool::RetrieveExecutionById => Verb::Get,
            Tool::DeleteExecutionById => Verb::Delete,
            Tool::CreateWorkflow => Verb::Post,
            Tool::RetrieveWorkflows => Verb::Get,
            Tool::RetrieveWorkflowById => Verb::Get,
            Tool::DeleteWorkflowById => Verb::Delete,
            Tool::ActivateWorkflowById => Verb::Post,
            Tool::DeactivateWorkflowById => Verb::Post,
            Tool::UpdateWorkflowById => Verb::Put,
            Tool::GetWorkflowTagsByWorkflowId => Verb::Get,
            Tool::UpdateWorkflowTagsByWorkflowId => Verb::Put,
            Tool::RunWorkflow => if with_data {
                Verb::Post
            } else {
                Verb::Get
            },
            Tool::CreateTag => Verb::Post,
            Tool::RetrieveTags => Verb::Get,
            Tool::RetrieveTagById => Verb::Get,
            Tool::DeleteTagById => Verb::Delete,
            Tool::UpdateTagById => Verb::Put,
        }
    }

    /// Finds the tool that is called `name`.
    pub fn named(name: &str) -> (found: Option<Tool>)
        ensures
            found == tool_named(name@),
    {
        let wanted = name.to_string();
        let tools = Tool::all();
        let mut i: usize = 0;
        while i < tools.len()
            invariant
                i <= tools.len(),
                tools@ == all_tools(),
                wanted@ == name@,
                forall|j: int| 0 <= j < i ==> name_of(#[trigger] tools[j]) != name@,
            decreases tools.len() - i,
        {
            let tool = tools[i];
            if tool.name().to_string() == wanted {
                proof {
                    let chosen = choose|other: Tool| name_of(other) == name@;
                    lemma_names_differ(chosen, tool);
                }
                return Some(tool);
            }
            i = i + 1;
        }
        proof {
            assert forall|tool: Tool| name_of(tool) != name@ by {
                lemma_all_tools_listed(tool);
            }
        }
        None
    }

    /// How the tool is listed.
    pub fn descriptor(self) -> (listed: ToolDescriptor)
        ensures
            listed.tool == self,
            listed.name@ == name_of(self),
            listed.description@ == about_of(self),
            listed.params@ == schema_of(self),
    {
        ToolDescriptor {
            tool: self,
            name: self.name(),
            description: self.description(),
            params: self.params(),
        }
    }
}

/// Whether `listed` is how `tool` is listed.
pub open spec fn describes(listed: ToolDescriptor, tool: Tool) -> bool {
    &&& listed.tool == tool
    &&& listed.name@ == name_of(tool)
    &&& listed.description@ == about_of(tool)
    &&& listed.params@ == schema_of(tool)
}

/// Lists the tools: each of them once, under its name, with its description
/// and its parameters.
pub fn list_tools() -> (listing: Vec<ToolDescriptor>)
    ensures
        listing.len() == all_tools().len(),
        forall|i: int| 0 <= i < listing.len() ==> describes(#[trigger] listing[i], all_tools()[i]),
{
    let tools = Tool::all();
    let mut listing: Vec<ToolDescriptor> = Vec::new();
    let mut i: usize = 0;
    while i < tools.len()
        invariant
            i <= tools.len(),
            tools@ == all_tools(),
            listing.len() == i,
            forall|j: int| 0 <= j < i ==> describes(#[trigger] listing[j], all_tools()[j]),
        decreases tools.len() - i,
    {
        listing.push(tools[i].descriptor());
        i = i + 1;
    }
    listing
}

} // verus!
