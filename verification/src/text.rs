//! The words of the interface: the names and descriptions the tools are
//! listed under, the names of their parameters, and the keys and paths used
//! towards the remote service.

use vstd::prelude::*;

verus! {

// Paths on the remote service.
pub const EXECUTIONS: &'static str = "/api/v1/executions";

pub const WORKFLOWS: &'static str = "/api/v1/workflows";

pub const TAGS_PATH: &'static str = "/tags";

pub const WEBHOOK: &'static str = "/webhook";

pub const ACTIVATE: &'static str = "/activate";

pub const DEACTIVATE: &'static str = "/deactivate";

pub const SLASH: &'static str = "/";

pub const NOTHING: &'static str = "";

// What the host reads the connection from, and the header that carries the key.
pub const API_KEY_VARIABLE: &'static str = "N8N_API_KEY";

pub const BASE_URL_VARIABLE: &'static str = "N8N_BASE_URL";

pub const USER_VARIABLE: &'static str = "N8N_USER";

pub const PASSWORD_VARIABLE: &'static str = "N8N_PASSWORD";

pub const API_KEY_HEADER: &'static str = "X-N8N-API-KEY";

pub const API_KEY_MISSING: &'static str = "N8N_API_KEY to exist";

pub const BASE_URL_MISSING: &'static str = "N8N_BASE_URL to exist";

pub const API_KEY_UNFIT: &'static str = "N8N_API_KEY to be a header value";

// What a tool call is answered with.
pub const WORKFLOW_ERROR: &'static str = "Workflow error: ";

pub const HTTP_STATUS: &'static str = "HTTP status ";

// How the bridge presents itself.
pub const PROTOCOL_VERSION: &'static str = "2024-11-05";

pub const INSTRUCTIONS: &'static str = "This server provides a tool that can interact with a n8n server.\n\n                n8n (or 'node-mation') is a service for creating automation that can either be used on n8n's cloud offfering or self-hosted.\n                Using this server, users can create, retrieve (in bulk and by id), update and delete workflows and retrieve the tags for a given workflow.\n                They can also additionally retrieve (in bulk and by id) executions and additionally delete executions.\n\n                Users can also additionally retrieve (in bulk and by id), create, update and delete tags.\n\n                If the user requests you to update or run a workflow (or assign a tag), you might need to either fetch all workflows first to see what workflows are possible.\n                ";

// The words of the schema that a tool's parameters are listed by.
pub const TYPE: &'static str = "type";

pub const OBJECT: &'static str = "object";

pub const ARRAY: &'static str = "array";

pub const STRING: &'static str = "string";

pub const BOOLEAN: &'static str = "boolean";

pub const INTEGER: &'static str = "integer";

pub const MINIMUM: &'static str = "minimum";

pub const MAXIMUM: &'static str = "maximum";

pub const ENUM: &'static str = "enum";

pub const ITEMS: &'static str = "items";

pub const PROPERTIES: &'static str = "properties";

pub const REQUIRED: &'static str = "required";

pub const DESCRIPTION: &'static str = "description";

// What a refused call is told.
pub const TOOL_NOT_FOUND: &'static str = "tool not found";

pub const ARGUMENTS_NO_OBJECT: &'static str = "failed to deserialize parameters: not an object";

pub const MISSING_PARAMETER: &'static str = "missing parameter ";

pub const MISTYPED_PARAMETER: &'static str = "failed to deserialize parameter ";

// Names of parameters.
pub const INCLUDE_DATA: &'static str = "include_data";

pub const STATUS: &'static str = "status";

pub const WORKFLOW_ID: &'static str = "workflow_id";

pub const PROJECT_ID: &'static str = "project_id";

pub const LIMIT: &'static str = "limit";

pub const CURSOR: &'static str = "cursor";

pub const EXECUTION_ID: &'static str = "execution_id";

pub const NAME: &'static str = "name";

pub const NODES: &'static str = "nodes";

pub const CONNECTIONS: &'static str = "connections";

pub const RETRIEVE_WORKFLOW_PARAMS: &'static str = "retrieve_workflow_params";

pub const TAGS: &'static str = "tags";

pub const WEBHOOK_PATH: &'static str = "webhook_path";

pub const DATA: &'static str = "data";

pub const TAG_ID: &'static str = "tag_id";

pub const ACTIVE: &'static str = "active";

pub const EXCLUDE_PINNED_DATA: &'static str = "exclude_pinned_data";

pub const ID: &'static str = "id";

// Keys of queries and bodies that are not also names of parameters.
pub const KEY_INCLUDE_DATA: &'static str = "includeData";

pub const KEY_WORKFLOW_ID: &'static str = "workflowId";

pub const KEY_PROJECT_ID: &'static str = "projectId";

pub const KEY_SETTINGS: &'static str = "settings";

pub const KEY_STATIC_DATA: &'static str = "staticData";

pub const KEY_SAVE_EXECUTION_PROGRESS: &'static str = "save_execution_progress";

pub const KEY_SAVE_MANUAL_EXECUTIONS: &'static str = "save_manual_executions";

pub const KEY_SAVE_DATA_ERROR_EXECUTION: &'static str = "save_data_error_execution";

pub const KEY_SAVE_DATA_SUCCESS_EXECUTION: &'static str = "save_data_success_execution";

pub const KEY_EXECUTION_TIMEOUT: &'static str = "execution_timeout";

// Words on the wire.
pub const ALL: &'static str = "all";

pub const NONE: &'static str = "none";

pub const ERROR: &'static str = "error";

pub const SUCCESS: &'static str = "success";

pub const WAITING: &'static str = "waiting";

pub const NULL_WORD: &'static str = "null";

// The tools: the name each is called by, and what is said of it and of its
// parameters.
pub const TOOL_RETRIEVE_ALL_EXECUTIONS: &'static str = "retrieve_all_executions";

pub const ABOUT_RETRIEVE_ALL_EXECUTIONS: &'static str = "Retrieve all executions.";

pub const ABOUT_RETRIEVE_ALL_EXECUTIONS_INCLUDE_DATA: &'static str = "Whether or not to include the execution's detailed data.";

pub const ABOUT_RETRIEVE_ALL_EXECUTIONS_STATUS: &'static str = "The status of an execution. Can either be: 'error' | 'success' | 'waiting'";

pub const ABOUT_RETRIEVE_ALL_EXECUTIONS_WORKFLOW_ID: &'static str = "Workflow ID to filter executions by. Optional.";

pub const ABOUT_RETRIEVE_ALL_EXECUTIONS_PROJECT_ID: &'static str = "Project ID to filter executions by. Optional.";

pub const ABOUT_RETRIEVE_ALL_EXECUTIONS_LIMIT: &'static str = "The maximum number of items to return. The absolute maximum is 250 - if you go above this, you will receive an error.";

pub const ABOUT_RETRIEVE_ALL_EXECUTIONS_CURSOR: &'static str = "Page number, used for pagination. You can either set this to navigate the page, or leave it blank to get the first page.";

pub const TOOL_RETRIEVE_EXECUTION_BY_ID: &'static str = "retrieve_execution_by_id";

pub const ABOUT_RETRIEVE_EXECUTION_BY_ID: &'static str = "Retrieve an execution by ID.";

pub const ABOUT_RETRIEVE_EXECUTION_BY_ID_EXECUTION_ID: &'static str = "The execution ID to use.";

pub const TOOL_DELETE_EXECUTION_BY_ID: &'static str = "delete_execution_by_id";

pub const ABOUT_DELETE_EXECUTION_BY_ID: &'static str = "Deletes an execution by ID.";

pub const ABOUT_DELETE_EXECUTION_BY_ID_EXECUTION_ID: &'static str = "The execution ID to use.";

pub const TOOL_CREATE_WORKFLOW: &'static str = "create_workflow";

pub const ABOUT_CREATE_WORKFLOW: &'static str = "Create a new workflow.";

pub const ABOUT_CREATE_WORKFLOW_NAME: &'static str = "The name of your workflow.";

pub const ABOUT_CREATE_WORKFLOW_NODES: &'static str = "The nodes you want to use in your workflow.";

pub const ABOUT_CREATE_WORKFLOW_CONNECTIONS: &'static str = "The connections you want for your workflow.";

pub const TOOL_RETRIEVE_WORKFLOWS: &'static str = "retrieve_workflows";

pub const ABOUT_RETRIEVE_WORKFLOWS: &'static str = "Retrieve all workflows (with optional parameters for filtering).\n\n            Note that in order for a returned workflow to be runnable, the first node of a workflow entry MUST be of type 'n8n-nodes-base.webhook'.\n            ";

pub const ABOUT_RETRIEVE_WORKFLOWS_RETRIEVE_WORKFLOW_PARAMS: &'static str = "The parameters to fetch workflows by. If you leave all fields as blank, it will attempt to fetch everything.\n\n                Note that the pages can be navigated by adjusting the cursor value.";

pub const TOOL_RETRIEVE_WORKFLOW_BY_ID: &'static str = "retrieve_workflow_by_id";

pub const ABOUT_RETRIEVE_WORKFLOW_BY_ID: &'static str = "Retrieve the details of a single workflow by its ID.";

pub const ABOUT_RETRIEVE_WORKFLOW_BY_ID_WORKFLOW_ID: &'static str = "The workflow ID to fetch.";

pub const TOOL_DELETE_WORKFLOW_BY_ID: &'static str = "delete_workflow_by_id";

pub const ABOUT_DELETE_WORKFLOW_BY_ID: &'static str = "Delete a single workflow by its ID.";

pub const ABOUT_DELETE_WORKFLOW_BY_ID_WORKFLOW_ID: &'static str = "The workflow ID to use.";

pub const TOOL_ACTIVATE_WORKFLOW_BY_ID: &'static str = "activate_workflow_by_id";

pub const ABOUT_ACTIVATE_WORKFLOW_BY_ID: &'static str = "Activates a single workflow by ID.";

pub const ABOUT_ACTIVATE_WORKFLOW_BY_ID_WORKFLOW_ID: &'static str = "The workflow ID to use.";

pub const TOOL_DEACTIVATE_WORKFLOW_BY_ID: &'static str = "deactivate_workflow_by_id";

pub const ABOUT_DEACTIVATE_WORKFLOW_BY_ID: &'static str = "Deactivates a single workflow by ID.";

pub const ABOUT_DEACTIVATE_WORKFLOW_BY_ID_WORKFLOW_ID: &'static str = "The workflow ID to use.";

pub const TOOL_UPDATE_WORKFLOW_BY_ID: &'static str = "update_workflow_by_id";

pub const ABOUT_UPDATE_WORKFLOW_BY_ID: &'static str = "Updates a workflow.";

pub const ABOUT_UPDATE_WORKFLOW_BY_ID_WORKFLOW_ID: &'static str = "The ID of the workflow to be updated.";

pub const ABOUT_UPDATE_WORKFLOW_BY_ID_NAME: &'static str = "The name of your workflow.";

pub const ABOUT_UPDATE_WORKFLOW_BY_ID_NODES: &'static str = "The nodes you want to use in your workflow.";

pub const ABOUT_UPDATE_WORKFLOW_BY_ID_CONNECTIONS: &'static str = "The connections you want for your workflow.";

pub const TOOL_GET_WORKFLOW_TAGS_BY_WORKFLOW_ID: &'static str = "get_workflow_tags_by_workflow_id";

pub const ABOUT_GET_WORKFLOW_TAGS_BY_WORKFLOW_ID: &'static str = "Gets the tags of a single workflow by ID.";

pub const ABOUT_GET_WORKFLOW_TAGS_BY_WORKFLOW_ID_WORKFLOW_ID: &'static str = "The workflow ID to use.";

pub const TOOL_UPDATE_WORKFLOW_TAGS_BY_WORKFLOW_ID: &'static str = "update_workflow_tags_by_workflow_id";

pub const ABOUT_UPDATE_WORKFLOW_TAGS_BY_WORKFLOW_ID: &'static str = "Updates the tags of a single workflow to the provided tags.";

pub const ABOUT_UPDATE_WORKFLOW_TAGS_BY_WORKFLOW_ID_WORKFLOW_ID: &'static str = "The workflow ID to use.";

pub const ABOUT_UPDATE_WORKFLOW_TAGS_BY_WORKFLOW_ID_TAGS: &'static str = "The IDs of the tags to assign to this workflow.";

pub const TOOL_RUN_WORKFLOW: &'static str = "run_workflow";

pub const ABOUT_RUN_WORKFLOW: &'static str = "Run a workflow.\n\n            If you don't have a workflow ID to use, retrieve all workflows and search for an appropriate\n            workflow to run (according to the user's prompt.)";

pub const ABOUT_RUN_WORKFLOW_WEBHOOK_PATH: &'static str = "The path of the webhook (that belongs to the workflow to run).";

pub const ABOUT_RUN_WORKFLOW_DATA: &'static str = "The data to pass to the webhook. If the user has not explicitly asked for data to be sent, leave this as None.";

pub const TOOL_CREATE_TAG: &'static str = "create_tag";

pub const ABOUT_CREATE_TAG: &'static str = "Create a tag.";

pub const ABOUT_CREATE_TAG_NAME: &'static str = "The name to use.";

pub const TOOL_RETRIEVE_TAGS: &'static str = "retrieve_tags";

pub const ABOUT_RETRIEVE_TAGS: &'static str = "Retrieve all tags.";

pub const ABOUT_RETRIEVE_TAGS_CURSOR: &'static str = "The cursor to be used for navigating between pages. Note that this isn't provided by the user - to get the next cursor you have to run this function first.";

pub const ABOUT_RETRIEVE_TAGS_LIMIT: &'static str = "The maximum number of items to return.";

pub const TOOL_RETRIEVE_TAG_BY_ID: &'static str = "retrieve_tag_by_id";

pub const ABOUT_RETRIEVE_TAG_BY_ID: &'static str = "Retrieve a tag by ID.";

pub const ABOUT_RETRIEVE_TAG_BY_ID_TAG_ID: &'static str = "The tag ID to use.";

pub const TOOL_DELETE_TAG_BY_ID: &'static str = "delete_tag_by_id";

pub const ABOUT_DELETE_TAG_BY_ID: &'static str = "Delete a tag by its ID.";

pub const ABOUT_DELETE_TAG_BY_ID_TAG_ID: &'static str = "The ID of the tag to delete.";

pub const TOOL_UPDATE_TAG_BY_ID: &'static str = "update_tag_by_id";

pub const ABOUT_UPDATE_TAG_BY_ID: &'static str = "Updates a tag by its ID.";

pub const ABOUT_UPDATE_TAG_BY_ID_TAG_ID: &'static str = "The tag ID to use.";

pub const ABOUT_UPDATE_TAG_BY_ID_NAME: &'static str = "The name to use.";

} // verus!
