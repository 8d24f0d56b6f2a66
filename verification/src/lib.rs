//! A bridge that offers the REST interface of an n8n automation server as a
//! fixed set of named tools.
//!
//! The library decides; it performs no I/O. A host asks [`list_tools`] what
//! there is to call. A call by name is taken by [`Server::call_tool`], which
//! refuses it or plans exactly one [`Request`]. The host sends that request
//! and hands what came of it, an [`Outcome`], to [`conclude`], which turns
//! it into the [`ToolResult`] that ends the call.

pub mod args;
pub mod call;
pub mod json;
pub mod outcome;
pub mod params;
pub mod request;
pub mod schema;
pub mod server;
pub mod text;
pub mod tool;

pub use args::Fault;
pub use call::{Call, CallError};
pub use json::{Json, JsonView, Number};
pub use outcome::{conclude, reformat, Outcome, ToolResult};
pub use params::{
    AllOrNone, CreateWorkflowParams, ExecutionStatus, Id, RetrieveAllWorkflowParams,
    RetrieveSingleWorkflowParams, WorkflowSettings,
};
pub use request::{Request, RequestView, Verb};
pub use server::{ConfigError, Server, ServerInfo};
pub use tool::{list_tools, Param, ParamKind, Route, Tool, ToolDescriptor};
