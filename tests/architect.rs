use auto_gippity::architect::{filter_reachable_urls, AgentSolutionArchitect, ArchitectAction};
use auto_gippity::basic_agent::AgentState;
use auto_gippity::errors::AgentError;
use auto_gippity::fact_sheet::{FactSheet, ProjectScope};
use auto_gippity::message::function_message;
use auto_gippity::prompts::{PRINT_PROJECT_SCOPE, PRINT_SITE_URLS};

fn scope(external: bool) -> ProjectScope {
    ProjectScope {
        is_crud_required: true,
        is_user_login_and_logout: false,
        is_external_urls_required: external,
    }
}

fn strings(v: &[&str]) -> Vec<String> {
    v.iter().map(|s| s.to_string()).collect()
}

#[test]
fn architect_starts_in_discovery() {
    let agent = AgentSolutionArchitect::new();
    let attrs = agent.get_attributes_from_agent();
    assert_eq!(attrs.state, AgentState::Discovery);
    assert_eq!(attrs.position, "Solution Architect");
    assert_eq!(
        attrs.objective,
        "Gather information and design solutions for website development"
    );
    assert!(attrs.memory.is_empty());
}

#[test]
fn no_external_dependency_finishes_after_scope() {
    let mut agent = AgentSolutionArchitect::new();
    let mut fs = FactSheet::new("build a site with no external dependency".to_string());
    match agent.next_action(&fs) {
        ArchitectAction::ClassifyScope(m) => {
            let expected =
                function_message(PRINT_PROJECT_SCOPE, "build a site with no external dependency");
            assert_eq!(m.content, expected.content);
            assert_eq!(m.role, "system");
        }
        other => panic!("unexpected action {:?}", other),
    }
    let next = agent.on_project_scope(&mut fs, scope(false));
    assert!(matches!(next, ArchitectAction::Done));
    assert_eq!(agent.attributes.state, AgentState::Finished);
    assert_eq!(fs.project_scope, Some(scope(false)));
    assert_eq!(fs.external_urls, None);
    assert!(matches!(agent.next_action(&fs), ArchitectAction::Done));
}

#[test]
fn three_urls_one_not_found_keeps_two() {
    let mut agent = AgentSolutionArchitect::new();
    let mut fs = FactSheet::new("show forex prices".to_string());
    match agent.on_project_scope(&mut fs, scope(true)) {
        ArchitectAction::ListExternalUrls(m) => {
            assert_eq!(m.content, function_message(PRINT_SITE_URLS, "show forex prices").content);
        }
        other => panic!("unexpected action {:?}", other),
    }
    assert_eq!(agent.attributes.state, AgentState::Discovery);
    let response = r#"["https://a.example/x", "https://b.example/y", "https://c.example/z"]"#;
    let urls = match agent.on_external_urls(&mut fs, response) {
        Ok(ArchitectAction::CheckUrls(urls)) => urls,
        other => panic!("unexpected result {:?}", other),
    };
    assert_eq!(urls.len(), 3);
    assert_eq!(agent.attributes.state, AgentState::UnitTesting);
    match agent.next_action(&fs) {
        ArchitectAction::CheckUrls(again) => assert_eq!(again, urls),
        other => panic!("unexpected action {:?}", other),
    }
    agent.on_url_statuses(&mut fs, &vec![Some(200), Some(404), Some(200)]);
    assert_eq!(agent.attributes.state, AgentState::Finished);
    assert_eq!(
        fs.external_urls,
        Some(strings(&["https://a.example/x", "https://c.example/z"]))
    );
    assert!(fs.project_scope.is_some());
}

#[test]
fn transport_error_removes_url() {
    let urls = strings(&["a", "b", "c"]);
    let kept = filter_reachable_urls(&urls, &vec![None, Some(200), Some(500)]);
    assert_eq!(kept, strings(&["b"]));
}

#[test]
fn missing_status_removes_url() {
    let urls = strings(&["a", "b"]);
    let kept = filter_reachable_urls(&urls, &vec![Some(200)]);
    assert_eq!(kept, strings(&["a"]));
}

#[test]
fn failed_url_removed_at_every_position() {
    let urls = strings(&["a", "b", "a"]);
    let kept = filter_reachable_urls(&urls, &vec![Some(200), Some(200), Some(503)]);
    assert_eq!(kept, strings(&["b"]));
}

#[test]
fn empty_url_list_stays_empty() {
    let kept = filter_reachable_urls(&Vec::new(), &Vec::new());
    assert!(kept.is_empty());
}

#[test]
fn all_urls_answer() {
    let urls = strings(&["a", "b"]);
    assert_eq!(filter_reachable_urls(&urls, &vec![Some(200), Some(200)]), urls);
}

#[test]
fn undecodable_url_list_is_decode_error() {
    let mut agent = AgentSolutionArchitect::new();
    let mut fs = FactSheet::new("d".to_string());
    agent.on_project_scope(&mut fs, scope(true));
    let r = agent.on_external_urls(&mut fs, "here are some urls: a, b");
    assert!(matches!(r, Err(AgentError::Decode)));
    assert_eq!(fs.external_urls, None);
    assert_eq!(agent.attributes.state, AgentState::Discovery);
}

#[test]
fn url_list_round_trips_through_json() {
    let mut agent = AgentSolutionArchitect::new();
    let mut fs = FactSheet::new("d".to_string());
    agent.on_project_scope(&mut fs, scope(true));
    let urls = strings(&["https://api.example/one", "https://api.example/\"two\""]);
    let text = serde_json::to_string(&urls).unwrap();
    assert!(agent.on_external_urls(&mut fs, &text).is_ok());
    assert_eq!(fs.external_urls, Some(urls));
}

#[test]
fn url_statuses_without_urls_finish() {
    let mut agent = AgentSolutionArchitect::new();
    let mut fs = FactSheet::new("d".to_string());
    agent.on_url_statuses(&mut fs, &vec![Some(404)]);
    assert_eq!(agent.attributes.state, AgentState::Finished);
    assert_eq!(fs.external_urls, None);
}
