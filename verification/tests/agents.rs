use backend_bro::ai_functions::AiFunction;
use backend_bro::helpers::command_line::PrintCommand;
use backend_bro::models::agents::agent_architect::{AgentSolutionArchitect, ArchitectWaiting};
use backend_bro::models::agents::agent_backend::{
    compose_endpoints_context, compose_fix_context, compose_improved_context,
    compose_initial_context, compose_probe_url, AgentBackendDeveloper, ServerStatus, Waiting,
    MAX_BUGS, PROBE_TIMEOUT_SECONDS, WARM_UP_SECONDS,
};
use backend_bro::models::agents::agents_traits::{
    duplicate_routes, select_probe_targets, Abort, Action, Event, FactSheet, Notice,
    ProbeOutcome, ProjectScope, RouteObject, Step,
};
use backend_bro::models::agents_basic::basic_agent::{AgentState, BasicAgent};
use backend_bro::models::agents_manager::managing_agent::{ManagerStage, ManagingAgent};

fn route(path: &str, method: &str, dynamic: &str) -> RouteObject {
    RouteObject {
        is_route_dynamic: dynamic.to_string(),
        method: method.to_string(),
        request_body: None,
        response: Some("{\"id\":\"number\"}".to_string()),
        route: path.to_string(),
    }
}

fn quiet(action: Action) -> Step {
    Step { notices: vec![], action }
}

fn noted(kind: PrintCommand, statement: &str, action: Action) -> Step {
    Step { notices: vec![Notice { kind, statement: statement.to_string() }], action }
}

fn sheet() -> FactSheet {
    FactSheet::new("build a website that streams video.\n".to_string())
}

const REPLY: &str = "```rust\nfn main() {}\n```";

/// The code block of `REPLY`.
const CODE: &str = "\nfn main() {}\n";

/// Drives a fresh agent to the point where it waits for the human's answer.
fn agent_at_confirmation(factsheet: &mut FactSheet) -> AgentBackendDeveloper {
    let mut agent = AgentBackendDeveloper::new();
    agent.step(factsheet, Event::Start);
    agent.step(factsheet, Event::Text("TEMPLATE".to_string()));
    agent.step(factsheet, Event::Text(REPLY.to_string()));
    agent.step(factsheet, Event::Done);
    agent.step(factsheet, Event::Text("TEMPLATE".to_string()));
    agent.step(factsheet, Event::Text(REPLY.to_string()));
    let step = agent.step(factsheet, Event::Done);
    assert_eq!(step.action, Action::Confirm);
    agent
}

/// Drives an agent that waits for the human's answer to the warm-up, with
/// the given routes decoded.
fn agent_at_warm_up(factsheet: &mut FactSheet, routes: Vec<RouteObject>) -> AgentBackendDeveloper {
    let mut agent = agent_at_confirmation(factsheet);
    agent.step(factsheet, Event::Answer(true));
    agent.step(factsheet, Event::Built { success: true, errors: String::new() });
    agent.step(factsheet, Event::Text("fn main() {}".to_string()));
    agent.step(factsheet, Event::Text("```json\n[]\n```".to_string()));
    agent.step(factsheet, Event::Routes(Some(routes)));
    let step = agent.step(factsheet, Event::Done);
    assert_eq!(step.action, Action::SpawnServer);
    let step = agent.step(factsheet, Event::Done);
    assert_eq!(step.action, Action::Sleep(5));
    agent
}

#[test]
fn basic_agent_starts_in_discovery() {
    let mut agent = BasicAgent::new("objective".to_string(), "position".to_string());
    assert_eq!(agent.get_objective(), "objective");
    assert_eq!(agent.get_position(), "position");
    assert_eq!(*agent.get_state(), AgentState::Discovery);
    assert!(agent.get_memory().is_empty());
    agent.update_state(AgentState::UnitTesting);
    assert_eq!(*agent.get_state(), AgentState::UnitTesting);
    assert_eq!(agent.get_objective(), "objective");
    agent.update_state(AgentState::Finished);
    assert_eq!(agent.state, AgentState::Finished);
}

#[test]
fn fact_sheet_starts_with_the_description_only() {
    let factsheet = FactSheet::new("build a shop".to_string());
    assert_eq!(factsheet.project_description, "build a shop");
    assert_eq!(
        factsheet.project_scope,
        ProjectScope {
            is_crud_required: false,
            is_user_login_and_logout: false,
            is_external_urls_required: false
        }
    );
    assert!(factsheet.external_urls.is_empty());
    assert_eq!(factsheet.backend_code, None);
    assert_eq!(factsheet.api_endpoint_schema, None);
}

#[test]
fn endpoint_filter_keeps_plain_reads_only() {
    let routes = vec![
        route("/", "get", "false"),
        route("/pokemon/{id}", "get", "true"),
        route("/pokemon", "post", "false"),
    ];
    let kept = select_probe_targets(&routes);
    let paths: Vec<&str> = kept.iter().map(|r| r.route.as_str()).collect();
    assert_eq!(paths, vec!["/"]);
    assert_eq!(kept, vec![route("/", "get", "false")]);
}

#[test]
fn endpoint_filter_keeps_order_and_repeats() {
    let routes = vec![
        route("/b", "get", "false"),
        route("/x", "delete", "false"),
        route("/a", "get", "false"),
        route("/b", "get", "false"),
    ];
    let kept = select_probe_targets(&routes);
    let paths: Vec<&str> = kept.iter().map(|r| r.route.as_str()).collect();
    assert_eq!(paths, vec!["/b", "/a", "/b"]);
}

#[test]
fn endpoint_filter_compares_the_exact_words() {
    let routes = vec![
        route("/1", "GET", "false"),
        route("/2", "get", "False"),
        route("/3", "get ", "false"),
        route("/4", "get", ""),
        route("/5", "", "false"),
    ];
    assert_eq!(select_probe_targets(&routes), Vec::<RouteObject>::new());
    assert_eq!(select_probe_targets(&Vec::new()), Vec::<RouteObject>::new());
}

#[test]
fn routes_are_duplicated_whole() {
    let routes = vec![route("/", "get", "false"), route("/p", "post", "true")];
    assert_eq!(duplicate_routes(&routes), routes);
    assert_eq!(routes[1].duplicate(), routes[1]);
}

#[test]
fn contexts_have_the_exact_wording() {
    assert_eq!(
        compose_initial_context("TEMPLATE", "a \"shop\""),
        "CODE TEMPLATE : TEMPLATE \n  PROJECT_DESCRIPTION:a \"shop\" \n"
    );
    assert_eq!(
        compose_improved_context("fn f() {\n}", "a \"shop\""),
        "CODE TEMPLATE : \"fn f() {\\n}\" \n  PROJECT_DESCRIPTION:\"a \\\"shop\\\"\" \n"
    );
    assert_eq!(
        compose_fix_context(&Some("code\n".to_string()), &Some("error[E0425]".to_string())),
        " BROKEN CODE :Some(\"code\\n\") \n  PROJECT_DESCRIPTION:Some(\"error[E0425]\") \n\n                THIS FUNCTION ONLY OUTCPUTS CODE. JUST OUTPUT THE CODE"
    );
    assert_eq!(
        compose_fix_context(&None, &None),
        " BROKEN CODE :None \n  PROJECT_DESCRIPTION:None \n\n                THIS FUNCTION ONLY OUTCPUTS CODE. JUST OUTPUT THE CODE"
    );
    assert_eq!(compose_endpoints_context("fn main() {}"), "CODE_INPUT: fn main() {}");
    assert_eq!(compose_probe_url("/song"), "http://localhost:8080/song");
    assert_eq!(compose_probe_url(""), "http://localhost:8080");
}

#[test]
fn limits_are_the_fixed_ones() {
    assert_eq!(MAX_BUGS, 3);
    assert_eq!(PROBE_TIMEOUT_SECONDS, 5);
    assert_eq!(WARM_UP_SECONDS, 5);
}

#[test]
fn backend_developer_starts_in_discovery() {
    let agent = AgentBackendDeveloper::new();
    let attributes = agent.get_attributes_from_agent();
    assert_eq!(attributes.objective, "Manage agents who are building an excellent website for the uesr");
    assert_eq!(attributes.position, "Backend Developer");
    assert_eq!(attributes.state, AgentState::Discovery);
    assert!(attributes.memory.is_empty());
    assert_eq!(agent.bug_count(), 0);
    assert_eq!(*agent.bug_errors(), None);
    assert_eq!(agent.waiting(), Waiting::Start);
    assert_eq!(agent.server(), ServerStatus::Absent);
    assert_eq!(agent.failure(), None);
}

#[test]
fn discovery_generates_then_works() {
    let mut factsheet = sheet();
    let mut agent = AgentBackendDeveloper::new();
    assert_eq!(agent.step(&mut factsheet, Event::Start), quiet(Action::ReadCodeTemplate));
    assert_eq!(
        agent.step(&mut factsheet, Event::Text("TEMPLATE".to_string())),
        quiet(Action::RunTask {
            context: "CODE TEMPLATE : TEMPLATE \n  PROJECT_DESCRIPTION:build a website that streams video.\n \n".to_string(),
            task: AiFunction::PrintBackendWebserverCode,
        })
    );
    assert_eq!(
        agent.step(&mut factsheet, Event::Text(REPLY.to_string())),
        quiet(Action::SaveCode(CODE.to_string()))
    );
    assert_eq!(factsheet.backend_code, Some(CODE.to_string()));
    assert_eq!(agent.get_attributes_from_agent().state, AgentState::Discovery);
    assert_eq!(agent.step(&mut factsheet, Event::Done), quiet(Action::ReadCodeTemplate));
    assert_eq!(agent.get_attributes_from_agent().state, AgentState::Working);
    assert_eq!(agent.waiting(), Waiting::Template);
}

#[test]
fn working_rerolls_while_no_build_failed() {
    let mut factsheet = sheet();
    let mut agent = AgentBackendDeveloper::new();
    agent.step(&mut factsheet, Event::Start);
    agent.step(&mut factsheet, Event::Text("T".to_string()));
    agent.step(&mut factsheet, Event::Text(REPLY.to_string()));
    agent.step(&mut factsheet, Event::Done);
    assert_eq!(
        agent.step(&mut factsheet, Event::Text("T".to_string())),
        quiet(Action::RunTask {
            context: "CODE TEMPLATE : \"T\" \n  PROJECT_DESCRIPTION:\"build a website that streams video.\\n\" \n".to_string(),
            task: AiFunction::PrintBackendWebserverCode,
        })
    );
    assert_eq!(
        agent.step(&mut factsheet, Event::Text("no fences here".to_string())),
        quiet(Action::ReportUnparsable)
    );
    assert_eq!(factsheet.backend_code, Some("no fences here".to_string()));
    assert_eq!(
        agent.step(&mut factsheet, Event::Done),
        noted(
            PrintCommand::UnitTest,
            "Backend Code Unit Testing : Requesting User Input",
            Action::Confirm
        )
    );
    assert_eq!(agent.get_attributes_from_agent().state, AgentState::UnitTesting);
}

#[test]
fn declined_run_is_given_up() {
    let mut factsheet = sheet();
    let mut agent = agent_at_confirmation(&mut factsheet);
    assert_eq!(
        agent.step(&mut factsheet, Event::Answer(false)),
        quiet(Action::Abort(Abort::UserDeclined))
    );
    assert_eq!(agent.failure(), Some(Abort::UserDeclined));
    assert_eq!(agent.server(), ServerStatus::Absent);
    assert_eq!(
        agent.step(&mut factsheet, Event::Answer(true)),
        quiet(Action::Abort(Abort::UserDeclined))
    );
    assert_eq!(agent.step(&mut factsheet, Event::Start), quiet(Action::Abort(Abort::UserDeclined)));
}

#[test]
fn failed_build_counts_and_asks_for_a_repair() {
    let mut factsheet = sheet();
    let mut agent = agent_at_confirmation(&mut factsheet);
    assert_eq!(
        agent.step(&mut factsheet, Event::Answer(true)),
        noted(PrintCommand::UnitTest, "Backend Code Unit Testing: Building Agent", Action::Build)
    );
    assert_eq!(agent.bug_count(), 0);
    assert_eq!(
        agent.step(&mut factsheet, Event::Built { success: false, errors: "error[E0425]".to_string() }),
        quiet(Action::ReadCodeTemplate)
    );
    assert_eq!(agent.bug_count(), 1);
    assert_eq!(*agent.bug_errors(), Some("error[E0425]".to_string()));
    assert_eq!(agent.get_attributes_from_agent().state, AgentState::Working);
    assert_eq!(
        agent.step(&mut factsheet, Event::Text("TEMPLATE".to_string())),
        quiet(Action::RunTask {
            context: format!(
                " BROKEN CODE :{:?} \n  PROJECT_DESCRIPTION:{:?} \n\n                THIS FUNCTION ONLY OUTCPUTS CODE. JUST OUTPUT THE CODE",
                Some(CODE.to_string()),
                Some("error[E0425]".to_string())
            ),
            task: AiFunction::PrintFixedCode,
        })
    );
}

#[test]
fn fourth_failed_build_ends_the_run() {
    let mut factsheet = sheet();
    let mut agent = agent_at_confirmation(&mut factsheet);
    let mut rounds = 1;
    for failed in 1..=3u8 {
        agent.step(&mut factsheet, Event::Answer(true));
        let step = agent.step(
            &mut factsheet,
            Event::Built { success: false, errors: format!("bug {}", failed) },
        );
        assert_eq!(step, quiet(Action::ReadCodeTemplate));
        assert_eq!(agent.bug_count(), failed);
        assert_eq!(agent.failure(), None);
        agent.step(&mut factsheet, Event::Text("TEMPLATE".to_string()));
        agent.step(&mut factsheet, Event::Text(REPLY.to_string()));
        let step = agent.step(&mut factsheet, Event::Done);
        assert_eq!(step.action, Action::Confirm);
        rounds += 1;
    }
    assert_eq!(rounds, 4);
    agent.step(&mut factsheet, Event::Answer(true));
    let step = agent.step(&mut factsheet, Event::Built { success: false, errors: "bug 4".to_string() });
    assert_eq!(
        step,
        noted(
            PrintCommand::Issue,
            "Backend Code Unit Testing: Too many bugs found in Code",
            Action::Abort(Abort::TooManyBugs)
        )
    );
    assert_eq!(agent.bug_count(), 4);
    assert_eq!(*agent.bug_errors(), Some("bug 4".to_string()));
    assert_eq!(agent.failure(), Some(Abort::TooManyBugs));
    assert_eq!(agent.server(), ServerStatus::Absent);
    assert_eq!(agent.get_attributes_from_agent().state, AgentState::UnitTesting);
    assert_eq!(agent.step(&mut factsheet, Event::Done), quiet(Action::Abort(Abort::TooManyBugs)));
}

#[test]
fn build_success_resets_the_count() {
    let mut factsheet = sheet();
    let mut agent = agent_at_confirmation(&mut factsheet);
    agent.step(&mut factsheet, Event::Answer(true));
    agent.step(&mut factsheet, Event::Built { success: false, errors: "bug".to_string() });
    agent.step(&mut factsheet, Event::Text("TEMPLATE".to_string()));
    agent.step(&mut factsheet, Event::Text(REPLY.to_string()));
    agent.step(&mut factsheet, Event::Done);
    agent.step(&mut factsheet, Event::Answer(true));
    assert_eq!(agent.bug_count(), 1);
    assert_eq!(
        agent.step(&mut factsheet, Event::Built { success: true, errors: "warning".to_string() }),
        noted(
            PrintCommand::UnitTest,
            "Backend Code Unit Testing: Test server build successfull..",
            Action::ReadExecMain
        )
    );
    assert_eq!(agent.bug_count(), 0);
    assert_eq!(*agent.bug_errors(), Some("bug".to_string()));
    assert_eq!(agent.get_attributes_from_agent().state, AgentState::UnitTesting);
}

#[test]
fn endpoints_are_extracted_filtered_and_stored() {
    let mut factsheet = sheet();
    let mut agent = agent_at_confirmation(&mut factsheet);
    agent.step(&mut factsheet, Event::Answer(true));
    agent.step(&mut factsheet, Event::Built { success: true, errors: String::new() });
    assert_eq!(
        agent.step(&mut factsheet, Event::Text("fn main() {}".to_string())),
        quiet(Action::RunTask {
            context: "CODE_INPUT: fn main() {}".to_string(),
            task: AiFunction::PrintRestApiEndpoints,
        })
    );
    assert_eq!(
        agent.step(&mut factsheet, Event::Text("Sure:\n```json\n [ ]  \n```\n".to_string())),
        quiet(Action::DecodeEndpoints("[ ]".to_string()))
    );
    let routes = vec![
        route("/", "get", "false"),
        route("/pokemon/{id}", "get", "true"),
        route("/pokemon", "post", "false"),
    ];
    assert_eq!(
        agent.step(&mut factsheet, Event::Routes(Some(routes))),
        quiet(Action::SaveRoutes(vec![route("/", "get", "false")]))
    );
    assert_eq!(factsheet.api_endpoint_schema, Some(vec![route("/", "get", "false")]));
    assert_eq!(agent.waiting(), Waiting::RoutesSaved);
    assert_eq!(
        agent.step(&mut factsheet, Event::Done),
        noted(
            PrintCommand::UnitTest,
            "Backend Code Unit Testing: Starting web server...",
            Action::SpawnServer
        )
    );
    assert_eq!(agent.server(), ServerStatus::Absent);
    assert_eq!(
        agent.step(&mut factsheet, Event::Done),
        noted(
            PrintCommand::UnitTest,
            "Backend Code Unit Testing: Launching tests on server in 5 seconds...",
            Action::Sleep(5)
        )
    );
    assert_eq!(agent.server(), ServerStatus::Running);
}

#[test]
fn endpoint_answer_without_a_block_is_fatal() {
    let mut factsheet = sheet();
    let mut agent = agent_at_confirmation(&mut factsheet);
    agent.step(&mut factsheet, Event::Answer(true));
    agent.step(&mut factsheet, Event::Built { success: true, errors: String::new() });
    agent.step(&mut factsheet, Event::Text("fn main() {}".to_string()));
    assert_eq!(
        agent.step(&mut factsheet, Event::Text("[]".to_string())),
        quiet(Action::Abort(Abort::NoEndpointBlock))
    );
    assert_eq!(agent.failure(), Some(Abort::NoEndpointBlock));
}

#[test]
fn endpoints_that_do_not_decode_are_fatal() {
    let mut factsheet = sheet();
    let mut agent = agent_at_confirmation(&mut factsheet);
    agent.step(&mut factsheet, Event::Answer(true));
    agent.step(&mut factsheet, Event::Built { success: true, errors: String::new() });
    agent.step(&mut factsheet, Event::Text("fn main() {}".to_string()));
    agent.step(&mut factsheet, Event::Text("```json{}```".to_string()));
    assert_eq!(
        agent.step(&mut factsheet, Event::Routes(None)),
        quiet(Action::Abort(Abort::Decode(AiFunction::PrintRestApiEndpoints)))
    );
    assert_eq!(factsheet.api_endpoint_schema, None);
    assert_eq!(agent.server(), ServerStatus::Absent);
}

#[test]
fn probe_round_sends_one_probe_per_endpoint() {
    let mut factsheet = sheet();
    let routes = vec![
        route("/", "get", "false"),
        route("/song", "get", "false"),
        route("/song/{id}", "get", "true"),
        route("/health", "get", "false"),
    ];
    let mut agent = agent_at_warm_up(&mut factsheet, routes);
    let first = agent.step(&mut factsheet, Event::Done);
    assert_eq!(
        first,
        noted(
            PrintCommand::UnitTest,
            "Testing endpoint '/'...",
            Action::Probe { url: "http://localhost:8080/".to_string(), timeout: 5 }
        )
    );
    assert_eq!(agent.waiting(), Waiting::Probe(0));
    let second = agent.step(&mut factsheet, Event::Probed(ProbeOutcome::Status(404)));
    assert_eq!(
        second,
        Step {
            notices: vec![
                Notice {
                    kind: PrintCommand::Issue,
                    statement: "WARNING: Failed to call backend url endpoint /".to_string()
                },
                Notice {
                    kind: PrintCommand::UnitTest,
                    statement: "Testing endpoint '/song'...".to_string()
                },
            ],
            action: Action::Probe { url: "http://localhost:8080/song".to_string(), timeout: 5 },
        }
    );
    assert_eq!(agent.server(), ServerStatus::Running);
    let third = agent.step(&mut factsheet, Event::Probed(ProbeOutcome::Status(200)));
    assert_eq!(
        third,
        noted(
            PrintCommand::UnitTest,
            "Testing endpoint '/health'...",
            Action::Probe { url: "http://localhost:8080/health".to_string(), timeout: 5 }
        )
    );
    assert_eq!(agent.waiting(), Waiting::Probe(2));
    let last = agent.step(&mut factsheet, Event::Probed(ProbeOutcome::Status(200)));
    assert_eq!(last, quiet(Action::SaveEndpoints("[]".to_string())));
    assert_eq!(agent.server(), ServerStatus::Running);
    assert_eq!(
        agent.step(&mut factsheet, Event::Done),
        noted(PrintCommand::UnitTest, "Backend testing complete...", Action::KillServer)
    );
    assert_eq!(agent.server(), ServerStatus::Terminated);
    assert_eq!(agent.get_attributes_from_agent().state, AgentState::UnitTesting);
    assert_eq!(agent.step(&mut factsheet, Event::Killed(true)), quiet(Action::Finish));
    assert_eq!(agent.get_attributes_from_agent().state, AgentState::Finished);
    assert_eq!(agent.failure(), None);
    assert_eq!(agent.step(&mut factsheet, Event::Start), quiet(Action::Finish));
}

#[test]
fn unreachable_endpoint_ends_the_server_and_the_round_goes_on() {
    let mut factsheet = sheet();
    let routes = vec![route("/a", "get", "false"), route("/b", "get", "false")];
    let mut agent = agent_at_warm_up(&mut factsheet, routes);
    agent.step(&mut factsheet, Event::Done);
    let kill = agent.step(
        &mut factsheet,
        Event::Probed(ProbeOutcome::Unreachable("operation timed out".to_string())),
    );
    assert_eq!(kill, quiet(Action::KillServer));
    assert_eq!(agent.server(), ServerStatus::Terminated);
    assert_eq!(agent.waiting(), Waiting::ProbeKill(0));
    let next = agent.step(&mut factsheet, Event::Killed(true));
    assert_eq!(
        next,
        Step {
            notices: vec![
                Notice {
                    kind: PrintCommand::Issue,
                    statement: "Error checking backend operation timed out".to_string()
                },
                Notice {
                    kind: PrintCommand::UnitTest,
                    statement: "Testing endpoint '/b'...".to_string()
                },
            ],
            action: Action::Probe { url: "http://localhost:8080/b".to_string(), timeout: 5 },
        }
    );
    let kill = agent.step(
        &mut factsheet,
        Event::Probed(ProbeOutcome::Unreachable("connection refused".to_string())),
    );
    assert_eq!(kill, quiet(Action::KillServer));
    let save = agent.step(&mut factsheet, Event::Killed(true));
    assert_eq!(
        save,
        Step {
            notices: vec![Notice {
                kind: PrintCommand::Issue,
                statement: "Error checking backend connection refused".to_string()
            }],
            action: Action::SaveEndpoints("[]".to_string()),
        }
    );
    assert_eq!(agent.step(&mut factsheet, Event::Done).action, Action::KillServer);
    assert_eq!(agent.step(&mut factsheet, Event::Killed(false)), quiet(Action::Finish));
    assert_eq!(agent.get_attributes_from_agent().state, AgentState::Finished);
    assert_eq!(agent.server(), ServerStatus::Terminated);
    assert_eq!(agent.failure(), None);
}

#[test]
fn round_stops_when_the_server_handle_is_lost() {
    let mut factsheet = sheet();
    let routes = vec![
        route("/a", "get", "false"),
        route("/b", "get", "false"),
        route("/c", "get", "false"),
    ];
    let mut agent = agent_at_warm_up(&mut factsheet, routes);
    agent.step(&mut factsheet, Event::Done);
    let kill = agent.step(
        &mut factsheet,
        Event::Probed(ProbeOutcome::Unreachable("connection refused".to_string())),
    );
    assert_eq!(kill, quiet(Action::KillServer));
    let stop = agent.step(&mut factsheet, Event::Killed(false));
    assert_eq!(
        stop,
        Step {
            notices: vec![Notice {
                kind: PrintCommand::Issue,
                statement: "Error checking backend connection refused".to_string()
            }],
            action: Action::SaveEndpoints("[]".to_string()),
        }
    );
    assert_eq!(agent.waiting(), Waiting::SchemaSaved);
    assert_eq!(agent.step(&mut factsheet, Event::Done).action, Action::KillServer);
    assert_eq!(agent.step(&mut factsheet, Event::Killed(false)), quiet(Action::Finish));
    assert_eq!(agent.failure(), None);
}

#[test]
fn kill_must_be_answered_by_its_own_event() {
    let mut factsheet = sheet();
    let mut agent = agent_at_warm_up(&mut factsheet, vec![]);
    agent.step(&mut factsheet, Event::Done);
    assert_eq!(agent.step(&mut factsheet, Event::Done).action, Action::KillServer);
    assert_eq!(
        agent.step(&mut factsheet, Event::Done),
        quiet(Action::Abort(Abort::UnexpectedEvent))
    );
    assert_eq!(agent.server(), ServerStatus::Terminated);
}

#[test]
fn round_without_endpoints_stores_the_schema_at_once() {
    let mut factsheet = sheet();
    let mut agent = agent_at_warm_up(&mut factsheet, vec![route("/x", "post", "false")]);
    assert_eq!(factsheet.api_endpoint_schema, Some(vec![]));
    assert_eq!(agent.step(&mut factsheet, Event::Done), quiet(Action::SaveEndpoints("[]".to_string())));
    assert_eq!(agent.step(&mut factsheet, Event::Done).action, Action::KillServer);
    assert_eq!(agent.step(&mut factsheet, Event::Killed(true)).action, Action::Finish);
}

#[test]
fn unexpected_event_gives_the_run_up() {
    let mut factsheet = sheet();
    let mut agent = AgentBackendDeveloper::new();
    assert_eq!(
        agent.step(&mut factsheet, Event::Done),
        quiet(Action::Abort(Abort::UnexpectedEvent))
    );
    assert_eq!(agent.failure(), Some(Abort::UnexpectedEvent));
    assert_eq!(agent.step(&mut factsheet, Event::Start), quiet(Action::Abort(Abort::UnexpectedEvent)));
}

#[test]
fn unexpected_event_with_a_running_server_ends_it_first() {
    let mut factsheet = sheet();
    let mut agent = agent_at_warm_up(&mut factsheet, vec![route("/a", "get", "false")]);
    agent.step(&mut factsheet, Event::Done);
    assert_eq!(agent.server(), ServerStatus::Running);
    assert_eq!(agent.step(&mut factsheet, Event::Answer(true)), quiet(Action::KillServer));
    assert_eq!(agent.server(), ServerStatus::Terminated);
    assert_eq!(agent.failure(), Some(Abort::UnexpectedEvent));
    assert_eq!(agent.step(&mut factsheet, Event::Done), quiet(Action::Abort(Abort::UnexpectedEvent)));
}

#[test]
fn architect_stores_the_scope_and_finishes() {
    let mut factsheet = sheet();
    let mut agent = AgentSolutionArchitect::new();
    assert_eq!(agent.get_attributes_from_agent().position, "Solutions Architect");
    assert_eq!(
        agent.get_attributes_from_agent().objective,
        "Gathers information and design solutions for website development"
    );
    assert_eq!(
        agent.step(&mut factsheet, Event::Start),
        quiet(Action::RunTask {
            context: "build a website that streams video.\n".to_string(),
            task: AiFunction::PrintProjectScope,
        })
    );
    assert_eq!(
        agent.step(&mut factsheet, Event::Text("{...}".to_string())),
        quiet(Action::DecodeScope("{...}".to_string()))
    );
    let scope = ProjectScope {
        is_crud_required: true,
        is_user_login_and_logout: true,
        is_external_urls_required: false,
    };
    assert_eq!(agent.step(&mut factsheet, Event::Scope(Some(scope))), quiet(Action::Finish));
    assert_eq!(factsheet.project_scope, scope);
    assert!(factsheet.external_urls.is_empty());
    assert_eq!(agent.get_attributes_from_agent().state, AgentState::Finished);
    assert_eq!(agent.waiting(), ArchitectWaiting::Nothing);
    assert_eq!(agent.step(&mut factsheet, Event::Done), quiet(Action::Finish));
}

#[test]
fn architect_asks_for_addresses_when_the_scope_requires_them() {
    let mut factsheet = sheet();
    let mut agent = AgentSolutionArchitect::new();
    agent.step(&mut factsheet, Event::Start);
    agent.step(&mut factsheet, Event::Text("{...}".to_string()));
    let scope = ProjectScope {
        is_crud_required: true,
        is_user_login_and_logout: false,
        is_external_urls_required: true,
    };
    assert_eq!(
        agent.step(&mut factsheet, Event::Scope(Some(scope))),
        quiet(Action::RunTask {
            context: "build a website that streams video.\n".to_string(),
            task: AiFunction::PrintSiteUrls,
        })
    );
    assert_eq!(factsheet.project_scope, scope);
    assert_eq!(
        agent.step(&mut factsheet, Event::Text("[\"u\"]".to_string())),
        quiet(Action::DecodeUrls("[\"u\"]".to_string()))
    );
    let urls = vec!["https://api.dailymotion.com/videos?fields=id,title,thumbnail_url".to_string()];
    assert_eq!(agent.step(&mut factsheet, Event::Urls(Some(urls.clone()))), quiet(Action::Finish));
    assert_eq!(factsheet.external_urls, urls);
    assert_eq!(agent.get_attributes_from_agent().state, AgentState::Finished);
}

#[test]
fn architect_gives_up_on_answers_that_do_not_decode() {
    let mut factsheet = sheet();
    let mut agent = AgentSolutionArchitect::new();
    agent.step(&mut factsheet, Event::Start);
    agent.step(&mut factsheet, Event::Text("oops".to_string()));
    assert_eq!(
        agent.step(&mut factsheet, Event::Scope(None)),
        quiet(Action::Abort(Abort::Decode(AiFunction::PrintProjectScope)))
    );
    assert_eq!(agent.failure(), Some(Abort::Decode(AiFunction::PrintProjectScope)));

    let mut agent = AgentSolutionArchitect::new();
    agent.step(&mut factsheet, Event::Start);
    agent.step(&mut factsheet, Event::Text("{}".to_string()));
    let scope = ProjectScope {
        is_crud_required: false,
        is_user_login_and_logout: false,
        is_external_urls_required: true,
    };
    agent.step(&mut factsheet, Event::Scope(Some(scope)));
    agent.step(&mut factsheet, Event::Text("oops".to_string()));
    assert_eq!(
        agent.step(&mut factsheet, Event::Urls(None)),
        quiet(Action::Abort(Abort::Decode(AiFunction::PrintSiteUrls)))
    );

    let mut agent = AgentSolutionArchitect::new();
    assert_eq!(
        agent.step(&mut factsheet, Event::Answer(true)),
        quiet(Action::Abort(Abort::UnexpectedEvent))
    );
}

#[test]
fn manager_runs_the_stages_in_order() {
    let mut manager = ManagingAgent::new("I want a video site".to_string());
    assert_eq!(manager.stage(), ManagerStage::Goal);
    assert_eq!(manager.get_attributes_from_agent().position, "Project Manager");
    assert_eq!(manager.position_at_work(), "Project Manager");
    assert_eq!(
        manager.step(Event::Start),
        quiet(Action::RunTask {
            context: "I want a video site".to_string(),
            task: AiFunction::ConvertUserInputToGoal,
        })
    );
    assert_eq!(manager.stage(), ManagerStage::GoalCompletion);
    assert_eq!(
        manager.step(Event::Text("build a website that streams video".to_string())),
        quiet(Action::RunTask {
            context: "build a website that streams video".to_string(),
            task: AiFunction::PrintProjectScope,
        })
    );
    assert_eq!(manager.factsheet().project_description, "build a website that streams video");
    assert_eq!(manager.stage(), ManagerStage::Scope);
    assert_eq!(manager.position_at_work(), "Solutions Architect");
    manager.step(Event::Text("{}".to_string()));
    let scope = ProjectScope {
        is_crud_required: true,
        is_user_login_and_logout: false,
        is_external_urls_required: false,
    };
    assert_eq!(manager.step(Event::Scope(Some(scope))), quiet(Action::ReadCodeTemplate));
    assert_eq!(manager.stage(), ManagerStage::Development);
    assert_eq!(manager.position_at_work(), "Backend Developer");
    assert_eq!(manager.factsheet().project_scope, scope);
    manager.step(Event::Text("TEMPLATE".to_string()));
    manager.step(Event::Text(REPLY.to_string()));
    manager.step(Event::Done);
    manager.step(Event::Text("TEMPLATE".to_string()));
    manager.step(Event::Text(REPLY.to_string()));
    assert_eq!(manager.step(Event::Done).action, Action::Confirm);
    assert_eq!(manager.step(Event::Answer(true)).action, Action::Build);
    manager.step(Event::Built { success: true, errors: String::new() });
    manager.step(Event::Text("fn main() {}".to_string()));
    manager.step(Event::Text("```json[]```".to_string()));
    assert_eq!(manager.step(Event::Routes(Some(vec![]))).action, Action::SaveRoutes(vec![]));
    assert_eq!(manager.step(Event::Done).action, Action::SpawnServer);
    assert_eq!(manager.step(Event::Done).action, Action::Sleep(5));
    assert_eq!(manager.step(Event::Done).action, Action::SaveEndpoints("[]".to_string()));
    assert_eq!(manager.step(Event::Done).action, Action::KillServer);
    assert_eq!(manager.stage(), ManagerStage::Development);
    assert_eq!(manager.step(Event::Killed(true)), quiet(Action::Finish));
    assert_eq!(manager.stage(), ManagerStage::Done);
    assert_eq!(manager.failure(), None);
    assert_eq!(manager.factsheet().backend_code, Some(CODE.to_string()));
    assert_eq!(manager.factsheet().api_endpoint_schema, Some(vec![]));
    assert_eq!(manager.step(Event::Start), quiet(Action::Finish));
}

#[test]
fn manager_gives_up_when_a_stage_does() {
    let mut manager = ManagingAgent::new("I want a video site".to_string());
    manager.step(Event::Start);
    manager.step(Event::Text("build a website that streams video".to_string()));
    manager.step(Event::Text("{}".to_string()));
    assert_eq!(
        manager.step(Event::Scope(None)),
        quiet(Action::Abort(Abort::Decode(AiFunction::PrintProjectScope)))
    );
    assert_eq!(manager.failure(), Some(Abort::Decode(AiFunction::PrintProjectScope)));
    assert_eq!(manager.stage(), ManagerStage::Scope);
    assert_eq!(
        manager.step(Event::Start),
        quiet(Action::Abort(Abort::Decode(AiFunction::PrintProjectScope)))
    );
    assert_eq!(manager.factsheet().backend_code, None);

    let mut manager = ManagingAgent::new("x".to_string());
    assert_eq!(manager.step(Event::Done), quiet(Action::Abort(Abort::UnexpectedEvent)));
    assert_eq!(manager.failure(), Some(Abort::UnexpectedEvent));
}

#[test]
fn abort_messages() {
    assert_eq!(Abort::UserDeclined.message(), "Better go work on some AI alignment");
    assert_eq!(Abort::TooManyBugs.message(), "Error: Too many bugs");
    assert_eq!(Abort::NoEndpointBlock.message(), "Can't extract code");
    assert_eq!(
        Abort::Decode(AiFunction::PrintRestApiEndpoints).message(),
        "Failed to decode API Endpoints"
    );
    assert_eq!(
        Abort::Decode(AiFunction::PrintProjectScope).message(),
        "Failed to decode AI response from serde_json"
    );
    assert_eq!(
        Abort::Decode(AiFunction::PrintSiteUrls).message(),
        "Failed to decode AI response from serde_json"
    );
    assert_eq!(
        Abort::UnexpectedEvent.message(),
        "The agent was handed an event it did not wait for"
    );
}

#[test]
fn agents_report_that_they_are_well_formed() {
    let mut factsheet = sheet();
    let mut agent = AgentBackendDeveloper::new();
    assert!(agent.is_well_formed());
    let events = vec![
        Event::Start,
        Event::Text("T".to_string()),
        Event::Text(REPLY.to_string()),
        Event::Done,
        Event::Text("T".to_string()),
        Event::Text(REPLY.to_string()),
        Event::Done,
        Event::Answer(true),
        Event::Built { success: true, errors: String::new() },
        Event::Text("fn main() {}".to_string()),
        Event::Text("```json[]```".to_string()),
        Event::Routes(Some(vec![route("/", "get", "false")])),
        Event::Done,
        Event::Done,
        Event::Done,
        Event::Probed(ProbeOutcome::Unreachable("refused".to_string())),
        Event::Killed(true),
        Event::Done,
        Event::Killed(true),
    ];
    for event in events {
        agent.step(&mut factsheet, event);
        assert!(agent.is_well_formed());
    }
    assert_eq!(agent.get_attributes_from_agent().state, AgentState::Finished);
    let mut manager = ManagingAgent::new("x".to_string());
    assert!(manager.is_well_formed());
    manager.step(Event::Start);
    assert!(manager.is_well_formed());
}

#[test]
fn fact_sheet_keeps_the_code_that_is_stored() {
    let mut factsheet = sheet();
    let mut agent = AgentBackendDeveloper::new();
    agent.step(&mut factsheet, Event::Start);
    agent.step(&mut factsheet, Event::Text("T".to_string()));
    let reply = "Here it is:\n```rustfn a() {}``` and more ```rustfn b() {}```";
    let step = agent.step(&mut factsheet, Event::Text(reply.to_string()));
    assert_eq!(step, quiet(Action::SaveCode("fn a() {}".to_string())));
    assert_eq!(factsheet.backend_code, Some("fn a() {}".to_string()));
    assert_eq!(factsheet.project_description, "build a website that streams video.\n");
    assert_eq!(factsheet.api_endpoint_schema, None);
    assert_eq!(agent.bug_count(), 0);
    assert_eq!(*agent.bug_errors(), None);
}

#[test]
fn repair_takes_the_stored_code_as_its_context() {
    let mut factsheet = sheet();
    let mut agent = agent_at_confirmation(&mut factsheet);
    agent.step(&mut factsheet, Event::Answer(true));
    agent.step(&mut factsheet, Event::Built { success: false, errors: "E".to_string() });
    let step = agent.step(&mut factsheet, Event::Text("TEMPLATE".to_string()));
    assert_eq!(
        step.action,
        Action::RunTask {
            context: " BROKEN CODE :Some(\"\\nfn main() {}\\n\") \n  PROJECT_DESCRIPTION:Some(\"E\") \n\n                THIS FUNCTION ONLY OUTCPUTS CODE. JUST OUTPUT THE CODE".to_string(),
            task: AiFunction::PrintFixedCode,
        }
    );
}
