//! An agent pipeline that turns a request in plain words into a backend web service:
//! a shared fact sheet, the decisions of the solution design and backend development
//! agents as verified state machines, and the requests they send to the completion model.
pub mod architect;
pub mod backend;
pub mod basic_agent;
pub mod command_lines;
pub mod errors;
pub mod fact_sheet;
pub mod manager;
pub mod message;
pub mod prompts;

pub use architect::{filter_reachable_urls, AgentSolutionArchitect, ArchitectAction};
pub use backend::{AgentBackendDeveloper, BackendAction, BuildOutcome, ProbeVerdict};
pub use basic_agent::{AgentState, BasicAgent};
pub use command_lines::{classify_answer, confirm_answer, retry_request, PrintCommand};
pub use errors::AgentError;
pub use fact_sheet::{check_endpoints, FactSheet, ProjectScope, RouteObject};
pub use manager::{Agent, ManagingAgent};
pub use message::{extend_ai_function, function_message, Message};
