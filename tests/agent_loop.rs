use backend_agent::agent::{
    Action, AgentBackendDeveloper, AgentState, Event, FactSheet, FatalError, GenerationMode,
    ProbeOutcome, ValidationIssue, ValidationStep,
};
use backend_agent::routes::{endpoint_url, select_probe_targets, RouteObject};

fn route(path: &str, method: &str, dynamic: &str) -> RouteObject {
    RouteObject {
        is_route_dynamic: dynamic.to_string(),
        method: method.to_string(),
        request_body: serde_json::Value::String("None".to_string()),
        response: serde_json::Value::String("None".to_string()),
        route: path.to_string(),
    }
}

fn sheet() -> FactSheet {
    FactSheet {
        project_description: "build a website which return the current time.".to_string(),
        project_scope: None,
        external_urls: None,
        backend_code: None,
        api_endpoint_schema: None,
    }
}

/// Drives a new agent to the point where it asks for the build.
fn agent_at_build(sheet: &mut FactSheet) -> AgentBackendDeveloper {
    let mut agent = AgentBackendDeveloper::new();
    assert_eq!(agent.pending_action(), Action::Generate(GenerationMode::Initial));
    assert_eq!(agent.step(sheet, Event::Generated("v1".to_string())), Action::Generate(GenerationMode::Improve));
    assert_eq!(sheet.backend_code, Some("v1".to_string()));
    assert_eq!(agent.step(sheet, Event::Generated("v2".to_string())), Action::ConfirmSafety);
    assert_eq!(sheet.backend_code, Some("v2".to_string()));
    assert_eq!(agent.step(sheet, Event::Confirmed(true)), Action::Build);
    agent
}

fn fail_build(agent: &mut AgentBackendDeveloper, sheet: &mut FactSheet, stderr: &str) -> Action {
    let a = agent.step(sheet, Event::BuildFinished { success: false, stderr: stderr.to_string() });
    assert_eq!(a, Action::UpdateDependencies);
    agent.step(sheet, Event::DependenciesUpdated { success: true })
}

#[test]
fn new_agent_starts_in_discovery() {
    let agent = AgentBackendDeveloper::new();
    let attributes = agent.get_attributes_from_agent();
    assert_eq!(attributes.position, "Backend Developer");
    assert_eq!(attributes.objective, "Develops backend code for webserver and json database");
    assert_eq!(attributes.state, AgentState::Discovery);
    assert_eq!(agent.bug_count, 0);
    assert_eq!(agent.bug_errors, None);
}

#[test]
fn only_static_get_routes_are_selected() {
    let schema = vec![
        route("/a", "get", "false"),
        route("/b", "post", "false"),
        route("/c", "put", "false"),
        route("/d", "delete", "false"),
        route("/e/{id}", "get", "true"),
        route("/f/{id}", "post", "true"),
        route("/g", "get", "false"),
    ];
    let picked: Vec<String> = select_probe_targets(schema).into_iter().map(|r| r.route).collect();
    assert_eq!(picked, vec!["/a".to_string(), "/g".to_string()]);
    assert!(select_probe_targets(vec![]).is_empty());
}

#[test]
fn only_the_static_item_route_is_probed() {
    let mut sheet = sheet();
    let mut agent = agent_at_build(&mut sheet);
    assert_eq!(agent.step(&mut sheet, Event::BuildFinished { success: true, stderr: String::new() }), Action::ExtractEndpoints);
    let schema = vec![route("/item", "get", "false"), route("/item/{id}", "get", "true")];
    assert_eq!(agent.step(&mut sheet, Event::EndpointsExtracted(schema)), Action::StartServer);
    let stored: Vec<String> = sheet.api_endpoint_schema.as_ref().unwrap().iter().map(|r| r.route.clone()).collect();
    assert_eq!(stored, vec!["/item".to_string(), "/item/{id}".to_string()]);
    assert_eq!(agent.step(&mut sheet, Event::ServerStarted), Action::WarmUp { seconds: 5 });
    assert_eq!(
        agent.step(&mut sheet, Event::WarmedUp),
        Action::Probe { route: "/item".to_string(), timeout_seconds: 5 }
    );
    assert_eq!(agent.step(&mut sheet, Event::Probed(ProbeOutcome::Status(200))), Action::TerminateServer);
    assert_eq!(agent.step(&mut sheet, Event::ServerTerminated), Action::Finish);
    assert!(agent.issues.is_empty());
}

#[test]
fn third_build_succeeds_after_two_failures() {
    let mut sheet = sheet();
    let mut agent = agent_at_build(&mut sheet);
    assert_eq!(fail_build(&mut agent, &mut sheet, "error[E0425]: x"), Action::Generate(GenerationMode::Fix));
    assert_eq!(agent.bug_count, 1);
    assert_eq!(agent.bug_errors, Some("error[E0425]: x".to_string()));
    assert_eq!(agent.step(&mut sheet, Event::Generated("v3".to_string())), Action::ConfirmSafety);
    assert_eq!(agent.step(&mut sheet, Event::Confirmed(true)), Action::Build);
    assert_eq!(fail_build(&mut agent, &mut sheet, "error[E0308]: y"), Action::Generate(GenerationMode::Fix));
    assert_eq!(agent.bug_count, 2);
    assert_eq!(agent.bug_errors, Some("error[E0308]: y".to_string()));
    assert_eq!(agent.step(&mut sheet, Event::Generated("v4".to_string())), Action::ConfirmSafety);
    assert_eq!(agent.step(&mut sheet, Event::Confirmed(true)), Action::Build);
    assert_eq!(agent.step(&mut sheet, Event::BuildFinished { success: true, stderr: String::new() }), Action::ExtractEndpoints);
    assert_eq!(agent.bug_count, 0);
    assert_eq!(agent.bug_errors, None);
    assert_eq!(agent.attributes.state, AgentState::UnitTesting);
    assert_eq!(agent.step, ValidationStep::ExtractingEndpoints);
}

#[test]
fn third_build_failure_is_fatal() {
    let mut sheet = sheet();
    let mut agent = agent_at_build(&mut sheet);
    for (n, err) in ["e1", "e2"].iter().enumerate() {
        assert_eq!(fail_build(&mut agent, &mut sheet, err), Action::Generate(GenerationMode::Fix));
        assert_eq!(agent.bug_count as usize, n + 1);
        agent.step(&mut sheet, Event::Generated("fix".to_string()));
        agent.step(&mut sheet, Event::Confirmed(true));
    }
    assert_eq!(fail_build(&mut agent, &mut sheet, "e3"), Action::Abort(FatalError::TooManyBugs));
    assert_eq!(agent.bug_count, 3);
    assert_eq!(agent.step(&mut sheet, Event::BuildFinished { success: true, stderr: String::new() }), Action::Abort(FatalError::TooManyBugs));
}

#[test]
fn failed_dependency_update_is_fatal() {
    let mut sheet = sheet();
    let mut agent = agent_at_build(&mut sheet);
    agent.step(&mut sheet, Event::BuildFinished { success: false, stderr: "e".to_string() });
    assert_eq!(agent.step(&mut sheet, Event::DependenciesUpdated { success: false }), Action::Abort(FatalError::DependencyUpdateFailure));
}

#[test]
fn declined_confirmation_aborts_before_build() {
    let mut sheet = sheet();
    let mut agent = AgentBackendDeveloper::new();
    agent.step(&mut sheet, Event::Generated("v1".to_string()));
    assert_eq!(agent.step(&mut sheet, Event::Generated("v2".to_string())), Action::ConfirmSafety);
    assert_eq!(agent.step(&mut sheet, Event::Confirmed(false)), Action::Abort(FatalError::SafetyDeclined));
    for event in [
        Event::Confirmed(true),
        Event::BuildFinished { success: true, stderr: String::new() },
        Event::ServerStarted,
        Event::WarmedUp,
    ] {
        assert_eq!(agent.step(&mut sheet, event), Action::Abort(FatalError::SafetyDeclined));
    }
    assert_eq!(agent.pending_action(), Action::Abort(FatalError::SafetyDeclined));
}

#[test]
fn failing_probe_is_reported_and_run_finishes() {
    let mut sheet = sheet();
    let mut agent = agent_at_build(&mut sheet);
    agent.step(&mut sheet, Event::BuildFinished { success: true, stderr: String::new() });
    let schema = vec![route("/health", "get", "false"), route("/status", "get", "false")];
    agent.step(&mut sheet, Event::EndpointsExtracted(schema));
    agent.step(&mut sheet, Event::ServerStarted);
    let mut actions = vec![agent.step(&mut sheet, Event::WarmedUp)];
    actions.push(agent.step(&mut sheet, Event::Probed(ProbeOutcome::Status(503))));
    actions.push(agent.step(&mut sheet, Event::Probed(ProbeOutcome::Status(200))));
    assert_eq!(
        actions,
        vec![
            Action::Probe { route: "/health".to_string(), timeout_seconds: 5 },
            Action::Probe { route: "/status".to_string(), timeout_seconds: 5 },
            Action::TerminateServer,
        ]
    );
    assert_eq!(
        agent.issues,
        vec![ValidationIssue { route: "/health".to_string(), outcome: ProbeOutcome::Status(503) }]
    );
    assert_eq!(agent.step(&mut sheet, Event::ServerTerminated), Action::Finish);
    assert_eq!(agent.attributes.state, AgentState::Finished);
}

#[test]
fn server_is_stopped_once_when_every_probe_fails() {
    let mut sheet = sheet();
    let mut agent = agent_at_build(&mut sheet);
    agent.step(&mut sheet, Event::BuildFinished { success: true, stderr: String::new() });
    let schema = vec![route("/a", "get", "false"), route("/b", "get", "false"), route("/c", "get", "false")];
    agent.step(&mut sheet, Event::EndpointsExtracted(schema));
    agent.step(&mut sheet, Event::ServerStarted);
    let mut actions = vec![agent.step(&mut sheet, Event::WarmedUp)];
    actions.push(agent.step(&mut sheet, Event::Probed(ProbeOutcome::NetworkError("refused".to_string()))));
    actions.push(agent.step(&mut sheet, Event::Probed(ProbeOutcome::Status(404))));
    actions.push(agent.step(&mut sheet, Event::Probed(ProbeOutcome::Status(500))));
    assert_eq!(actions.iter().filter(|a| **a == Action::TerminateServer).count(), 1);
    assert_eq!(actions.last(), Some(&Action::TerminateServer));
    assert_eq!(agent.issues.len(), 3);
}

#[test]
fn empty_schema_goes_straight_to_teardown() {
    let mut sheet = sheet();
    let mut agent = agent_at_build(&mut sheet);
    agent.step(&mut sheet, Event::BuildFinished { success: true, stderr: String::new() });
    agent.step(&mut sheet, Event::EndpointsExtracted(vec![route("/x", "post", "false")]));
    agent.step(&mut sheet, Event::ServerStarted);
    assert_eq!(agent.step(&mut sheet, Event::WarmedUp), Action::TerminateServer);
    assert_eq!(agent.step(&mut sheet, Event::ServerTerminated), Action::Finish);
}

#[test]
fn oracle_and_decode_failures_are_fatal() {
    let mut sheet = sheet();
    let mut agent = AgentBackendDeveloper::new();
    assert_eq!(agent.step(&mut sheet, Event::GenerationFailed), Action::Abort(FatalError::GenerationTransport));
    let mut sheet2 = self::sheet();
    let mut agent2 = agent_at_build(&mut sheet2);
    agent2.step(&mut sheet2, Event::BuildFinished { success: true, stderr: String::new() });
    assert_eq!(agent2.step(&mut sheet2, Event::EndpointsUndecodable), Action::Abort(FatalError::Decode));
}

#[test]
fn unexpected_event_changes_nothing() {
    let mut sheet = sheet();
    let mut agent = AgentBackendDeveloper::new();
    assert_eq!(agent.step(&mut sheet, Event::WarmedUp), Action::Generate(GenerationMode::Initial));
    assert_eq!(agent.attributes.state, AgentState::Discovery);
}

#[test]
fn endpoint_url_is_on_local_server() {
    assert_eq!(endpoint_url("/health"), "http://localhost:8080/health");
}

#[test]
fn record_keeps_full_schema_while_only_static_gets_are_probed() {
    let mut sheet = sheet();
    let mut agent = agent_at_build(&mut sheet);
    agent.step(&mut sheet, Event::BuildFinished { success: true, stderr: String::new() });
    let schema = vec![
        route("/items", "post", "false"),
        route("/items", "get", "false"),
        route("/items/{id}", "delete", "true"),
        route("/stats", "get", "false"),
    ];
    agent.step(&mut sheet, Event::EndpointsExtracted(schema));
    let stored: Vec<(String, String)> = sheet
        .api_endpoint_schema
        .as_ref()
        .unwrap()
        .iter()
        .map(|r| (r.route.clone(), r.method.clone()))
        .collect();
    assert_eq!(stored.len(), 4);
    assert_eq!(stored[0], ("/items".to_string(), "post".to_string()));
    assert_eq!(agent.probe_routes, vec!["/items".to_string(), "/stats".to_string()]);
}
