use auto_gippity::command_lines::{classify_answer, confirm_answer, retry_request, PrintCommand};
use auto_gippity::message::{extend_ai_function, function_message};
use auto_gippity::prompts::{print_project_scope, PRINT_PROJECT_SCOPE};
use auto_gippity::basic_agent::{AgentState, BasicAgent};

#[test]
fn test_extend_ai_function() {
    let msg = extend_ai_function(print_project_scope, "dummy variable");

    assert_eq!(msg.role, "system".to_string());
}

#[test]
fn extend_ai_function_embeds_function_and_input() {
    let msg = extend_ai_function(print_project_scope, "dummy variable");
    let expected = format!(
        "FUNCTION: {}
    INSTRUCTION: You are a function printer. You ONLY print the results of functions.
    Nothing else. No commentary. Here is the input to the function: {}.
    Print out what the function will return.",
        PRINT_PROJECT_SCOPE, "dummy variable"
    );
    assert_eq!(msg.content, expected);
}

#[test]
fn function_message_with_empty_input() {
    let msg = function_message("fn f()", "");
    assert_eq!(msg.role, "system");
    assert!(msg.content.starts_with("FUNCTION: fn f()\n"));
    assert!(msg.content.contains("input to the function: .\n"));
}

#[test]
fn confirm_answer_accepts_go_words() {
    assert_eq!(confirm_answer("1\n"), Some(true));
    assert_eq!(confirm_answer("  OK  "), Some(true));
    assert_eq!(confirm_answer("Y\n"), Some(true));
}

#[test]
fn confirm_answer_accepts_stop_words() {
    assert_eq!(confirm_answer("2"), Some(false));
    assert_eq!(confirm_answer(" No\n"), Some(false));
    assert_eq!(confirm_answer("N"), Some(false));
}

#[test]
fn confirm_answer_rejects_other_words() {
    assert_eq!(confirm_answer("maybe"), None);
    assert_eq!(confirm_answer(""), None);
    assert_eq!(confirm_answer("yes"), None);
}

#[test]
fn classify_answer_is_case_sensitive() {
    assert_eq!(classify_answer("ok"), Some(true));
    assert_eq!(classify_answer("OK"), None);
    assert_eq!(classify_answer(" n"), None);
}

#[test]
fn request_is_retried_once() {
    assert!(retry_request(0));
    assert!(retry_request(1));
    assert!(!retry_request(2));
    assert!(!retry_request(u32::MAX));
}

#[test]
fn print_commands_are_distinct() {
    assert_ne!(PrintCommand::AICall, PrintCommand::UnitTest);
    assert_ne!(PrintCommand::UnitTest, PrintCommand::Issue);
}

#[test]
fn basic_agent_new_and_update_state() {
    let mut agent = BasicAgent::new("objective".to_string(), "position".to_string());
    assert_eq!(agent.get_objective(), "objective");
    assert_eq!(agent.get_position(), "position");
    assert_eq!(*agent.get_state(), AgentState::Discovery);
    assert!(agent.get_memory().is_empty());
    agent.update_state(AgentState::UnitTesting);
    assert_eq!(*agent.get_state(), AgentState::UnitTesting);
    assert_eq!(agent.get_objective(), "objective");
}
