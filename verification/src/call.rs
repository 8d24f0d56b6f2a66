//! A call of a tool by its name, with its arguments as one JSON object.
//!
//! A call is either refused, before anything is sent, or planned as the one
//! request that the tool makes of its arguments.

use crate::args::{
    accepts, document_of, fault_of, filter_of, find_fault, first_fault, flag_of,
    lemma_first_fault, need_document, need_flag, need_status, need_tag_ids, need_text,
    optional_count_of, optional_document_of, optional_text_of, read_count, read_document,
    read_filter, read_text, status_of, tag_ids_of, text_of, Fault,
};
use crate::json::{Json, JsonView};
use crate::params::{count_json, flag_json, optional, text_json};
use crate::request::{
    executions_query, lemma_plain_joined, plain_query, tag_body, tags_body, tags_query,
    workflow_body, Request, RequestView, Verb,
};
use crate::server::Server;
use crate::text;
use crate::tool::{
    lemma_found_by_name, name_of, path_of, route_of, schema_of, tool_named, verb_of, Param, Tool,
};
use vstd::prelude::*;

verus! {

/// Why a call was refused.
#[derive(Clone, Copy, Debug, PartialEq, Eq)]
pub enum CallError {
    /// No tool has the name that was called.
    UnknownTool,
    /// The arguments are not a JSON object.
    NotAnObject,
    /// The arguments lack the parameter of this name, which the tool requires.
    MissingParameter(&'static str),
    /// The argument for the parameter of this name does not fit its kind.
    MistypedParameter(&'static str),
}

/// The refusal that a fault of `param` leads to.
pub open spec fn refusal(param: Param, fault: Fault) -> CallError {
    match fault {
        Fault::Missing => CallError::MissingParameter(param.name),
        Fault::Mistyped => CallError::MistypedParameter(param.name),
    }
}

impl CallError {
    /// The refusal in words.
    pub open spec fn words(self) -> Seq<char> {
        match self {
            CallError::UnknownTool => text::TOOL_NOT_FOUND@,
            CallError::NotAnObject => text::ARGUMENTS_NO_OBJECT@,
            CallError::MissingParameter(name) => text::MISSING_PARAMETER@ + name@,
            CallError::MistypedParameter(name) => text::MISTYPED_PARAMETER@ + name@,
        }
    }

    /// The refusal in words.
    pub fn message(&self) -> (words: String)
        ensures
            words@ == self.words(),
    {
        match self {
            CallError::UnknownTool => text::TOOL_NOT_FOUND.to_string(),
            CallError::NotAnObject => text::ARGUMENTS_NO_OBJECT.to_string(),
            CallError::MissingParameter(name) => {
                let mut words = text::MISSING_PARAMETER.to_string();
                words.append(name);
                words
            },
            CallError::MistypedParameter(name) => {
                let mut words = text::MISTYPED_PARAMETER.to_string();
                words.append(name);
                words
            },
        }
    }
}

/// A call that was taken: the tool that was called and the one request it
/// makes.
#[derive(Debug, PartialEq, Eq)]
pub struct Call {
    pub tool: Tool,
    pub request: Request,
}

/// The mathematical value of a [`Call`].
pub struct CallView {
    pub tool: Tool,
    pub request: RequestView,
}

impl View for Call {
    type V = CallView;

    open spec fn view(&self) -> CallView {
        CallView { tool: self.tool, request: self.request@ }
    }
}

/// The value of the parameter that the route of `tool` is keyed by, as
/// `args` give it.
pub open spec fn key_of(tool: Tool, args: JsonView) -> Seq<char> {
    match route_of(tool).key {
        Some(name) => text_of(args, name@),
        None => Seq::empty(),
    }
}

/// The query that `tool` makes of `args`.
pub open spec fn query_of(tool: Tool, args: JsonView) -> Seq<(Seq<char>, JsonView)> {
    match tool {
        Tool::RetrieveAllExecutions => executions_query(
            flag_of(args, text::INCLUDE_DATA@),
            status_of(args, text::STATUS@),
            optional_text_of(args, text::WORKFLOW_ID@),
            optional_text_of(args, text::PROJECT_ID@),
            optional_count_of(args, text::LIMIT@),
            optional_text_of(args, text::CURSOR@),
        ),
        Tool::RetrieveWorkflows => filter_of(
            document_of(args, text::RETRIEVE_WORKFLOW_PARAMS@),
        ).query(),
        Tool::RetrieveTags => tags_query(
            optional_text_of(args, text::CURSOR@),
            optional_count_of(args, text::LIMIT@),
        ),
        _ => Seq::empty(),
    }
}

/// The body that `tool` makes of `args`, where it sends one.
pub open spec fn body_of(tool: Tool, args: JsonView) -> Option<JsonView> {
    match tool {
        Tool::CreateWorkflow | Tool::UpdateWorkflowById => Some(
            workflow_body(
                text_of(args, text::NAME@),
                document_of(args, text::NODES@),
                document_of(args, text::CONNECTIONS@),
            ),
        ),
        Tool::UpdateWorkflowTagsByWorkflowId => Some(tags_body(tag_ids_of(args, text::TAGS@))),
        Tool::RunWorkflow => optional_document_of(args, text::DATA@),
        Tool::CreateTag | Tool::UpdateTagById => Some(tag_body(text_of(args, text::NAME@))),
        _ => None,
    }
}

impl Server {
    /// The request that `tool` makes of `args`: its verb and its path are
    /// those of the tool's route, under the base address.
    pub open spec fn request_of(&self, tool: Tool, args: JsonView) -> RequestView {
        RequestView {
            verb: verb_of(tool, body_of(tool, args) is Some),
            url: self@.base_url + path_of(tool, key_of(tool, args)),
            query: query_of(tool, args),
            body: body_of(tool, args),
        }
    }

    /// What becomes of the call of `name` with `args`: it is refused where
    /// no tool has that name, where the arguments are no object, and for the
    /// first parameter that they do not give as they should; else it is
    /// planned as the request that the tool makes of them.
    pub open spec fn planned(&self, name: Seq<char>, args: JsonView) -> Result<CallView, CallError> {
        match tool_named(name) {
            None => Err(CallError::UnknownTool),
            Some(tool) => if !(args is Object) {
                Err(CallError::NotAnObject)
            } else {
                match first_fault(schema_of(tool), args) {
                    Some((at, fault)) => Err(refusal(schema_of(tool)[at], fault)),
                    None => Ok(CallView { tool, request: self.request_of(tool, args) }),
                }
            },
        }
    }

    /// Plans the request that `tool` makes of arguments it takes.
    fn plan(&self, tool: Tool, args: &Json) -> (req: Request)
        requires
            accepts(tool, args@),
        ensures
            req@ == self.request_of(tool, args@),
    {
        let ghost schema = schema_of(tool);
        match tool {
            Tool::RetrieveAllExecutions => {
                assert(fault_of(schema[0], args@) is None);
                assert(fault_of(schema[1], args@) is None);
                self.retrieve_all_executions(
                    need_flag(args, text::INCLUDE_DATA),
                    need_status(args, text::STATUS),
                    read_text(args, text::WORKFLOW_ID),
                    read_text(args, text::PROJECT_ID),
                    read_count(args, text::LIMIT),
                    read_text(args, text::CURSOR),
                )
            },
            Tool::RetrieveExecutionById => {
                assert(fault_of(schema[0], args@) is None);
                self.retrieve_execution_by_id(need_text(args, text::EXECUTION_ID))
            },
            Tool::DeleteExecutionById => {
                assert(fault_of(schema[0], args@) is None);
                self.delete_execution_by_id(need_text(args, text::EXECUTION_ID))
            },
            Tool::CreateWorkflow => {
                assert(fault_of(schema[0], args@) is None);
                assert(fault_of(schema[1], args@) is None);
                assert(fault_of(schema[2], args@) is None);
                self.create_workflow(
                    need_text(args, text::NAME),
                    need_document(args, text::NODES),
                    need_document(args, text::CONNECTIONS),
                )
            },
            Tool::RetrieveWorkflows => {
                assert(fault_of(schema[0], args@) is None);
                let filter = need_document(args, text::RETRIEVE_WORKFLOW_PARAMS);
                self.retrieve_workflows(read_filter(&filter))
            },
            Tool::RetrieveWorkflowById => {
                assert(fault_of(schema[0], args@) is None);
                self.retrieve_workflow_by_id(need_text(args, text::WORKFLOW_ID))
            },
            Tool::DeleteWorkflowById => {
                assert(fault_of(schema[0], args@) is None);
                self.delete_workflow_by_id(need_text(args, text::WORKFLOW_ID))
            },
            Tool::ActivateWorkflowById => {
                assert(fault_of(schema[0], args@) is None);
                self.activate_workflow_by_id(need_text(args, text::WORKFLOW_ID))
            },
            Tool::DeactivateWorkflowById => {
                assert(fault_of(schema[0], args@) is None);
                self.deactivate_workflow_by_id(need_text(args, text::WORKFLOW_ID))
            },
            Tool::UpdateWorkflowById => {
                assert(fault_of(schema[0], args@) is None);
                assert(fault_of(schema[1], args@) is None);
                assert(fault_of(schema[2], args@) is None);
                assert(fault_of(schema[3], args@) is None);
                self.update_workflow_by_id(
                    need_text(args, text::WORKFLOW_ID),
                    need_text(args, text::NAME),
                    need_document(args, text::NODES),
                    need_document(args, text::CONNECTIONS),
                )
            },
            Tool::GetWorkflowTagsByWorkflowId => {
                assert(fault_of(schema[0], args@) is None);
                self.get_workflow_tags_by_workflow_id(need_text(args, text::WORKFLOW_ID))
            },
            Tool::UpdateWorkflowTagsByWorkflowId => {
                assert(fault_of(schema[0], args@) is None);
                assert(fault_of(schema[1], args@) is None);
                self.update_workflow_tags_by_workflow_id(
                    need_text(args, text::WORKFLOW_ID),
                    need_tag_ids(args, text::TAGS),
                )
            },
            Tool::RunWorkflow => {
                assert(fault_of(schema[0], args@) is None);
                self.run_workflow(
                    need_text(args, text::WEBHOOK_PATH),
                    read_document(args, text::DATA),
                )
            },
            Tool::CreateTag => {
                assert(fault_of(schema[0], args@) is None);
                self.create_tag(need_text(args, text::NAME))
            },
            Tool::RetrieveTags => self.retrieve_tags(
                read_text(args, text::CURSOR),
                read_count(args, text::LIMIT),
            ),
            Tool::RetrieveTagById => {
                assert(fault_of(schema[0], args@) is None);
                self.retrieve_tag_by_id(need_text(args, text::TAG_ID))
            },
            Tool::DeleteTagById => {
                assert(fault_of(schema[0], args@) is None);
                self.delete_tag_by_id(need_text(args, text::TAG_ID))
            },
            Tool::UpdateTagById => {
                assert(fault_of(schema[0], args@) is None);
                assert(fault_of(schema[1], args@) is None);
                self.update_tag_by_id(need_text(args, text::TAG_ID), need_text(args, text::NAME))
            },
        }
    }

    /// Takes the call of the tool `name` with `args`: refuses it, or plans
    /// the one request it makes. Nothing is sent here.
    pub fn call_tool(&self, name: &str, args: &Json) -> (taken: Result<Call, CallError>)
        ensures
            match taken {
                Ok(call) => self.planned(name@, args@) == Ok::<CallView, CallError>(call@),
                Err(refused) => self.planned(name@, args@) == Err::<CallView, CallError>(refused),
            },
    {
        let tool = match Tool::named(name) {
            Some(tool) => tool,
            None => {
                return Err(CallError::UnknownTool);
            },
        };
        match args {
            Json::Object(_) => {},
            _ => {
                return Err(CallError::NotAnObject);
            },
        }
        let schema = tool.params();
        proof {
            lemma_first_fault(schema@, args@);
        }
        match find_fault(&schema, args) {
            Some((at, fault)) => {
                let param = schema[at];
                Err(
                    match fault {
                        Fault::Missing => CallError::MissingParameter(param.name),
                        Fault::Mistyped => CallError::MistypedParameter(param.name),
                    },
                )
            },
            None => Ok(Call { tool, request: self.plan(tool, args) }),
        }
    }
}

/// The query of a request that a tool makes can always be written into a
/// query string: each of its members is a string, a flag or a number.
pub proof fn lemma_query_is_plain(tool: Tool, args: JsonView)
    ensures
        plain_query(query_of(tool, args)),
{
    match tool {
        Tool::RetrieveAllExecutions => {
            let cursor = optional(
                text::CURSOR@,
                text_json(optional_text_of(args, text::CURSOR@)),
            );
            let data = seq![
                (text::KEY_INCLUDE_DATA@, JsonView::Bool(flag_of(args, text::INCLUDE_DATA@))),
            ];
            let limit = optional(text::LIMIT@, count_json(optional_count_of(args, text::LIMIT@)));
            let project = optional(
                text::KEY_PROJECT_ID@,
                text_json(optional_text_of(args, text::PROJECT_ID@)),
            );
            let status = seq![
                (text::STATUS@, JsonView::Text(status_of(args, text::STATUS@).wire())),
            ];
            let workflow = optional(
                text::KEY_WORKFLOW_ID@,
                text_json(optional_text_of(args, text::WORKFLOW_ID@)),
            );
            lemma_plain_joined(cursor, data);
            lemma_plain_joined(cursor + data, limit);
            lemma_plain_joined(cursor + data + limit, project);
            lemma_plain_joined(cursor + data + limit + project, status);
            lemma_plain_joined(cursor + data + limit + project + status, workflow);
        },
        Tool::RetrieveTags => {
            lemma_plain_joined(
                optional(text::CURSOR@, text_json(optional_text_of(args, text::CURSOR@))),
                optional(text::LIMIT@, count_json(optional_count_of(args, text::LIMIT@))),
            );
        },
        Tool::RetrieveWorkflows => {
            let filter = filter_of(document_of(args, text::RETRIEVE_WORKFLOW_PARAMS@));
            let active = optional(text::ACTIVE@, flag_json(filter.active));
            let tags = optional(text::TAGS@, text_json(filter.tags));
            let name = optional(text::NAME@, text_json(filter.name));
            let project = optional(text::PROJECT_ID@, text_json(filter.project_id));
            let pinned = optional(text::EXCLUDE_PINNED_DATA@, text_json(filter.exclude_pinned_data));
            let limit = optional(text::LIMIT@, count_json(filter.limit));
            let cursor = optional(text::CURSOR@, text_json(filter.cursor));
            lemma_plain_joined(active, tags);
            lemma_plain_joined(active + tags, name);
            lemma_plain_joined(active + tags + name, project);
            lemma_plain_joined(active + tags + name + project, pinned);
            lemma_plain_joined(active + tags + name + project + pinned, limit);
            lemma_plain_joined(active + tags + name + project + pinned + limit, cursor);
        },
        _ => {},
    }
}

/// A call is planned exactly when it names a tool and gives it arguments
/// that it takes.
pub proof fn lemma_planned_when_accepted(server: Server, name: Seq<char>, args: JsonView)
    ensures
        server.planned(name, args) is Ok <==> (tool_named(name) matches Some(tool) && accepts(
            tool,
            args,
        )),
{
    match tool_named(name) {
        Some(tool) => {
            lemma_first_fault(schema_of(tool), args);
            if accepts(tool, args) {
                assert(first_fault(schema_of(tool), args) is None) by {
                    if let Some((at, fault)) = first_fault(schema_of(tool), args) {
                        assert(fault_of(schema_of(tool)[at], args) is None);
                    }
                }
            }
        },
        None => {},
    }
}

/// A call that names a tool and gives it arguments that it takes is
/// planned, for that tool, as a request whose verb and path are those of the
/// tool's route.
pub proof fn lemma_call_follows_route(server: Server, tool: Tool, args: JsonView)
    requires
        accepts(tool, args),
    ensures
        server.planned(name_of(tool), args) matches Ok(call) && {
            &&& call.tool == tool
            &&& call.request.verb == verb_of(tool, call.request.body is Some)
            &&& call.request.url == server@.base_url + path_of(tool, key_of(tool, args))
        },
{
    lemma_found_by_name(tool);
    lemma_planned_when_accepted(server, name_of(tool), args);
}

/// A call whose arguments lack a parameter that the tool requires is
/// refused as a fault of the arguments, and no request is planned.
pub proof fn lemma_missing_parameter_refused(server: Server, tool: Tool, args: JsonView, at: int)
    requires
        0 <= at < schema_of(tool).len(),
        schema_of(tool)[at].required,
        args.get(schema_of(tool)[at].name@) is None,
    ensures
        server.planned(name_of(tool), args) matches Err(refused) && refused !is UnknownTool,
        args is Object ==> (first_fault(schema_of(tool), args) matches Some((first, _)) && first
            <= at),
{
    lemma_found_by_name(tool);
    lemma_first_fault(schema_of(tool), args);
    assert(fault_of(schema_of(tool)[at], args) == Some(Fault::Missing));
}

/// A workflow is run by a `GET` of its webhook where the arguments hold no
/// data, or hold `null` for it, and else by a `POST` of the data to the same
/// address.
pub proof fn lemma_run_workflow(server: Server, args: JsonView)
    ensures
        ({
            let req = server.request_of(Tool::RunWorkflow, args);
            let data = args.get(text::DATA@);
            &&& req.url == server@.base_url + text::WEBHOOK@ + text::SLASH@ + text_of(
                args,
                text::WEBHOOK_PATH@,
            )
            &&& req.query == Seq::<(Seq<char>, JsonView)>::empty()
            &&& data is None || data == Some(JsonView::Null) ==> req.verb == Verb::Get && req.body
                is None
            &&& data is Some && data != Some(JsonView::Null) ==> req.verb == Verb::Post && req.body
                == data
        }),
{
    reveal_strlit("");
    let key = text_of(args, text::WEBHOOK_PATH@);
    assert(text::WEBHOOK@ + text::SLASH@ + key + text::NOTHING@ =~= text::WEBHOOK@ + text::SLASH@
        + key);
    assert(server@.base_url + (text::WEBHOOK@ + text::SLASH@ + key) =~= server@.base_url
        + text::WEBHOOK@ + text::SLASH@ + key);
}

} // verus!
