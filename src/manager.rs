use vstd::prelude::*;
use vstd::string::*;

use crate::architect::{is_request, AgentSolutionArchitect};
use crate::backend::AgentBackendDeveloper;
use crate::basic_agent::{AgentState, BasicAgent};
use crate::fact_sheet::FactSheet;
use crate::message::{extend_ai_function, Message};
use crate::prompts::{convert_user_input_to_goal, CONVERT_USER_INPUT_TO_GOAL};

verus! {

pub const MANAGER_OBJECTIVE: &'static str =
    "Manage agents who are building an excellent website for the user";

pub const MANAGER_POSITION: &'static str = "Project Manager";

/// The agents of the pipeline, each with the same capability: to run to completion
/// on the shared fact sheet.
#[derive(Debug)]
pub enum Agent {
    SolutionArchitect(AgentSolutionArchitect),
    BackendDeveloper(AgentBackendDeveloper),
}

impl Agent {
    pub fn get_attributes_from_agent(&self) -> (r: &BasicAgent)
        ensures
            *r == match self {
                Agent::SolutionArchitect(a) => a.attributes,
                Agent::BackendDeveloper(a) => a.attributes,
            },
    {
        match self {
            Agent::SolutionArchitect(a) => a.get_attributes_from_agent(),
            Agent::BackendDeveloper(a) => a.get_attributes_from_agent(),
        }
    }
}

/// A solution design agent exactly as `AgentSolutionArchitect::new` makes it.
pub open spec fn is_fresh_architect(a: Agent) -> bool {
    match a {
        Agent::SolutionArchitect(x) => x.is_fresh(),
        _ => false,
    }
}

/// A backend development agent exactly as `AgentBackendDeveloper::new` makes it.
pub open spec fn is_fresh_backend(a: Agent) -> bool {
    match a {
        Agent::BackendDeveloper(x) => x.is_fresh(),
        _ => false,
    }
}

/// Holds the fact sheet and runs the agents on it, one after the other.
#[derive(Debug)]
pub struct ManagingAgent {
    pub attributes: BasicAgent,
    pub fact_sheet: FactSheet,
    pub agents: Vec<Agent>,
}

impl ManagingAgent {
    /// The request that turns the user's words into the project's description.
    pub fn goal_request(user_req: &str) -> (m: Message)
        ensures
            is_request(m, CONVERT_USER_INPUT_TO_GOAL@, user_req@),
    {
        extend_ai_function(convert_user_input_to_goal, user_req)
    }

    /// A manager whose fact sheet holds only `project_description`, with no agents yet.
    pub fn new(project_description: String) -> (m: ManagingAgent)
        ensures
            m.attributes.objective@ == MANAGER_OBJECTIVE@,
            m.attributes.position@ == MANAGER_POSITION@,
            m.attributes.state == AgentState::Discovery,
            m.fact_sheet.project_description == project_description,
            m.fact_sheet.project_scope is None,
            m.fact_sheet.external_urls is None,
            m.fact_sheet.backend_code is None,
            m.fact_sheet.api_endpoint_schema is None,
            m.agents@.len() == 0,
    {
        ManagingAgent {
            attributes: BasicAgent::new(
                String::from_str(MANAGER_OBJECTIVE),
                String::from_str(MANAGER_POSITION),
            ),
            fact_sheet: FactSheet::new(project_description),
            agents: Vec::new(),
        }
    }

    pub fn add_agent(&mut self, agent: Agent)
        ensures
            final(self).agents@ == old(self).agents@.push(agent),
            final(self).fact_sheet == old(self).fact_sheet,
            final(self).attributes == old(self).attributes,
    {
        self.agents.push(agent);
    }

    /// Appends the agents in their fixed order: solution design, then backend development.
    pub fn create_agents(&mut self)
        ensures
            final(self).agents@.len() == old(self).agents@.len() + 2,
            final(self).agents@.take(old(self).agents@.len() as int) == old(self).agents@,
            is_fresh_architect(final(self).agents@[old(self).agents@.len() as int]),
            is_fresh_backend(final(self).agents@[old(self).agents@.len() + 1int]),
            final(self).fact_sheet == old(self).fact_sheet,
            final(self).attributes == old(self).attributes,
    {
        self.add_agent(Agent::SolutionArchitect(AgentSolutionArchitect::new()));
        self.add_agent(Agent::BackendDeveloper(AgentBackendDeveloper::new()));
        assert(self.agents@.take(old(self).agents@.len() as int) =~= old(self).agents@);
    }
}

} // verus!
