use auto_gippity::basic_agent::AgentState;
use auto_gippity::manager::{Agent, ManagingAgent};
use auto_gippity::message::function_message;
use auto_gippity::prompts::CONVERT_USER_INPUT_TO_GOAL;

#[test]
fn goal_request_wraps_user_request() {
    let m = ManagingAgent::goal_request("a fitness tracker");
    assert_eq!(m.content, function_message(CONVERT_USER_INPUT_TO_GOAL, "a fitness tracker").content);
    assert_eq!(m.role, "system");
}

#[test]
fn managing_agent_creates_agents_in_order() {
    let mut manager = ManagingAgent::new("build a website that tracks fitness".to_string());
    assert_eq!(manager.fact_sheet.project_description, "build a website that tracks fitness");
    assert!(manager.fact_sheet.project_scope.is_none());
    assert!(manager.agents.is_empty());
    assert_eq!(manager.attributes.position, "Project Manager");
    manager.create_agents();
    assert_eq!(manager.agents.len(), 2);
    assert!(matches!(manager.agents[0], Agent::SolutionArchitect(_)));
    assert!(matches!(manager.agents[1], Agent::BackendDeveloper(_)));
    for agent in &manager.agents {
        assert_eq!(agent.get_attributes_from_agent().state, AgentState::Discovery);
    }
}
