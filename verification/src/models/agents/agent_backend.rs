//! The code-development stage: generate, build, probe, repair.

use crate::ai_functions::AiFunction;
use crate::helpers::command_line::PrintCommand;
use crate::helpers::general::{code_block, extract_code_block};
use crate::helpers::text::{quote, quote_optional, quoted, quoted_optional, trim, trimmed};
use crate::models::agents::agents_traits::{
    announced, duplicate_routes, noted_step, probe_targets, push_notice, quiet, quiet_step,
    select_probe_targets, Abort, Action, ActionView, Event, EventView, FactSheet, FactSheetView,
    Notice, NoticeView, ProbeOutcome, ProbeOutcomeView, RouteObject, RouteObjectView, Step,
    StepView,
};
use crate::models::agents_basic::basic_agent::{AgentState, BasicAgent, BasicAgentView};
use vstd::prelude::*;
use vstd::string::StringExecFns;

verus! {

/// How long the server is given to come up, and how long each probe may
/// take, in seconds.
pub const WARM_UP_SECONDS: u64 = 5;

pub const PROBE_TIMEOUT_SECONDS: u64 = 5;

/// How many builds may fail before the run is given up: the failure after
/// this many ends it.
pub const MAX_BUGS: u8 = 3;

/// What the agent knows of the server under test.
#[derive(Debug, Clone, Copy, PartialEq, Eq, Structural)]
pub enum ServerStatus {
    /// None has been started.
    Absent,
    /// It was started and its end has not been ordered.
    Running,
    /// Its end has been ordered.
    Terminated,
}

/// What the agent has asked for and not yet been handed.
#[derive(Debug, Clone, Copy, PartialEq, Eq, Structural)]
pub enum Waiting {
    /// For the word to start.
    Start,
    /// For the text of the code template.
    Template,
    /// For the generated code.
    Completion,
    /// For the code to be stored.
    CodeSaved,
    /// For the human's answer.
    Confirmation,
    /// For the build to end.
    Build,
    /// For the text of the generated program.
    ExecMain,
    /// For the description of its endpoints.
    EndpointsCompletion,
    /// For the decoded routes.
    Routes,
    /// For the routes to be stored.
    RoutesSaved,
    /// For the server to be started.
    Server,
    /// For the warm-up delay to pass.
    WarmUp,
    /// For the answer of the endpoint at this index.
    Probe(usize),
    /// For the server's end after the endpoint at this index could not be
    /// reached.
    ProbeKill(usize),
    /// For the schema to be stored.
    SchemaSaved,
    /// For the server's end after the round.
    FinalKill,
    /// For nothing: the run is over.
    Nothing,
}

/// A `Waiting` as plain values.
pub enum WaitingView {
    Start,
    Template,
    Completion,
    CodeSaved,
    Confirmation,
    Build,
    ExecMain,
    EndpointsCompletion,
    Routes,
    RoutesSaved,
    Server,
    WarmUp,
    Probe(int),
    ProbeKill(int),
    SchemaSaved,
    FinalKill,
    Nothing,
}

impl View for Waiting {
    type V = WaitingView;

    open spec fn view(&self) -> WaitingView {
        match self {
            Waiting::Start => WaitingView::Start,
            Waiting::Template => WaitingView::Template,
            Waiting::Completion => WaitingView::Completion,
            Waiting::CodeSaved => WaitingView::CodeSaved,
            Waiting::Confirmation => WaitingView::Confirmation,
            Waiting::Build => WaitingView::Build,
            Waiting::ExecMain => WaitingView::ExecMain,
            Waiting::EndpointsCompletion => WaitingView::EndpointsCompletion,
            Waiting::Routes => WaitingView::Routes,
            Waiting::RoutesSaved => WaitingView::RoutesSaved,
            Waiting::Server => WaitingView::Server,
            Waiting::WarmUp => WaitingView::WarmUp,
            Waiting::Probe(index) => WaitingView::Probe(*index as int),
            Waiting::ProbeKill(index) => WaitingView::ProbeKill(*index as int),
            Waiting::SchemaSaved => WaitingView::SchemaSaved,
            Waiting::FinalKill => WaitingView::FinalKill,
            Waiting::Nothing => WaitingView::Nothing,
        }
    }
}

/// The stage that writes the server code, builds it, probes it and repairs
/// it: the decisions between the actions, which its driver performs.
#[derive(Debug)]
pub struct AgentBackendDeveloper {
    attributes: BasicAgent,
    bug_errors: Option<String>,
    bug_count: u8,
    waiting: Waiting,
    endpoints: Vec<RouteObject>,
    schema_text: String,
    probe_error: String,
    server: ServerStatus,
    failure: Option<Abort>,
}

/// An `AgentBackendDeveloper` as plain values.
pub struct AgentBackendDeveloperView {
    pub attributes: BasicAgentView,
    /// What the last failed build wrote to its error stream.
    pub bug_errors: Option<Seq<char>>,
    /// How many builds have failed since the last that succeeded.
    pub bug_count: nat,
    pub waiting: WaitingView,
    /// The routes of the probe round.
    pub endpoints: Seq<RouteObjectView>,
    /// The endpoint schema as the extraction gave it.
    pub schema_text: Seq<char>,
    /// Why the last probe that failed could not reach the server.
    pub probe_error: Seq<char>,
    pub server: ServerStatus,
    /// Why the run was given up, if it was.
    pub failure: Option<Abort>,
}

impl View for AgentBackendDeveloper {
    type V = AgentBackendDeveloperView;

    closed spec fn view(&self) -> AgentBackendDeveloperView {
        AgentBackendDeveloperView {
            attributes: self.attributes@,
            bug_errors: self.bug_errors.deep_view(),
            bug_count: self.bug_count as nat,
            waiting: self.waiting@,
            endpoints: self.endpoints.deep_view(),
            schema_text: self.schema_text@,
            probe_error: self.probe_error@,
            server: self.server,
            failure: self.failure,
        }
    }
}

impl AgentBackendDeveloperView {
    /// Whether the agent waits for something that belongs to the writing of
    /// code.
    pub open spec fn writes_code(self) -> bool {
        self.waiting is Start || self.waiting is Template || self.waiting is Completion
            || self.waiting is CodeSaved
    }

    /// Whether the agent waits for something that comes before the server
    /// is started.
    pub open spec fn before_server(self) -> bool {
        self.waiting is Confirmation || self.waiting is Build || self.waiting is ExecMain
            || self.waiting is EndpointsCompletion || self.waiting is Routes
            || self.waiting is RoutesSaved || self.waiting is Server
    }

    /// What holds of every agent that `new` and `step` give: the failed
    /// builds are within the budget while the run goes on, what the agent
    /// waits for fits its state, and the server runs only during the probe
    /// round.
    pub open spec fn wf(self) -> bool {
        &&& self.failure is None ==> self.bug_count <= MAX_BUGS
        &&& self.bug_count <= MAX_BUGS + 1
        &&& self.failure is Some ==> self.server != ServerStatus::Running
        &&& self.failure is None ==> match self.attributes.state {
            AgentState::Discovery => self.writes_code() && self.bug_count == 0,
            AgentState::Working => self.writes_code() && !(self.waiting is Start),
            AgentState::UnitTesting => !self.writes_code() && !(self.waiting is Nothing),
            AgentState::Finished => self.waiting is Nothing,
        }
        &&& self.failure is None && (self.writes_code() || self.before_server())
            ==> self.server == ServerStatus::Absent
        &&& self.failure is None && self.waiting is WarmUp ==> self.server == ServerStatus::Running
        &&& self.failure is None && (self.waiting is Probe || self.waiting is ProbeKill
            || self.waiting is SchemaSaved) ==> self.server != ServerStatus::Absent
        &&& self.failure is None && (self.waiting is ProbeKill || self.waiting is FinalKill
            || self.waiting is Nothing) ==> self.server == ServerStatus::Terminated
        &&& self.waiting matches WaitingView::Probe(index) ==> 0 <= index < self.endpoints.len()
        &&& self.waiting matches WaitingView::ProbeKill(index) ==> 0 <= index < self.endpoints.len()
    }
}

/// The context of the first generation: the template and the project's
/// description as they are.
pub open spec fn initial_code_context(template: Seq<char>, description: Seq<char>) -> Seq<char> {
    "CODE TEMPLATE : "@ + template + " \n  PROJECT_DESCRIPTION:"@ + description + " \n"@
}

/// The context of the second generation: the same two texts, each in
/// quotes.
pub open spec fn improved_code_context(template: Seq<char>, description: Seq<char>) -> Seq<char> {
    "CODE TEMPLATE : "@ + quoted(template) + " \n  PROJECT_DESCRIPTION:"@ + quoted(description)
        + " \n"@
}

/// The context of a repair: the code that did not build and what the build
/// said of it, with the instruction to answer with code alone.
pub open spec fn fix_code_context(code: Option<Seq<char>>, errors: Option<Seq<char>>) -> Seq<char> {
    " BROKEN CODE :"@ + quoted_optional(code) + " \n  PROJECT_DESCRIPTION:"@ + quoted_optional(
        errors,
    ) + " \n\n                THIS FUNCTION ONLY OUTCPUTS CODE. JUST OUTPUT THE CODE"@
}

/// The context of the endpoint extraction: the generated program.
pub open spec fn endpoints_context(code: Seq<char>) -> Seq<char> {
    "CODE_INPUT: "@ + code
}

/// Where a probe of `route` is sent: the fixed local port.
pub open spec fn probe_url(route: Seq<char>) -> Seq<char> {
    "http://localhost:8080"@ + route
}

/// The context of the generation that the agent is about to ask for: the
/// first in `Discovery`; in `Working` a second one while no build has
/// failed, and a repair after one has.
pub open spec fn code_context(
    agent: AgentBackendDeveloperView,
    sheet: FactSheetView,
    template: Seq<char>,
) -> Seq<char> {
    if agent.attributes.state == AgentState::Discovery {
        initial_code_context(template, sheet.project_description)
    } else if agent.bug_count == 0 {
        improved_code_context(template, sheet.project_description)
    } else {
        fix_code_context(sheet.backend_code, agent.bug_errors)
    }
}

/// The task of that generation.
pub open spec fn code_task(agent: AgentBackendDeveloperView) -> AiFunction {
    if agent.attributes.state == AgentState::Discovery || agent.bug_count == 0 {
        AiFunction::PrintBackendWebserverCode
    } else {
        AiFunction::PrintFixedCode
    }
}

/// The agent in another state and waiting for something else.
pub open spec fn moved(
    agent: AgentBackendDeveloperView,
    state: AgentState,
    waiting: WaitingView,
) -> AgentBackendDeveloperView {
    AgentBackendDeveloperView {
        attributes: BasicAgentView { state, ..agent.attributes },
        waiting,
        ..agent
    }
}

/// The agent waiting for something else.
pub open spec fn awaiting(agent: AgentBackendDeveloperView, waiting: WaitingView) -> AgentBackendDeveloperView {
    AgentBackendDeveloperView { waiting, ..agent }
}

/// The run given up for `reason`. A server that runs is ended first: the
/// step orders that, and the next one says that the run is over.
pub open spec fn given_up(agent: AgentBackendDeveloperView, reason: Abort) -> (
    AgentBackendDeveloperView,
    StepView,
) {
    if agent.server == ServerStatus::Running {
        (
            AgentBackendDeveloperView {
                failure: Some(reason),
                waiting: WaitingView::Nothing,
                server: ServerStatus::Terminated,
                ..agent
            },
            quiet(ActionView::KillServer),
        )
    } else {
        (
            AgentBackendDeveloperView { failure: Some(reason), waiting: WaitingView::Nothing, ..agent },
            quiet(ActionView::Abort(reason)),
        )
    }
}

/// A step that leaves the fact sheet as it is.
pub open spec fn keeping(sheet: FactSheetView, outcome: (AgentBackendDeveloperView, StepView)) -> (
    AgentBackendDeveloperView,
    FactSheetView,
    StepView,
) {
    (outcome.0, sheet, outcome.1)
}

/// The probe of the endpoint at `index`, after `notices`; where the
/// endpoints are used up, the storing of the schema.
pub open spec fn probe_from(
    agent: AgentBackendDeveloperView,
    index: int,
    notices: Seq<NoticeView>,
) -> (AgentBackendDeveloperView, StepView) {
    if 0 <= index < agent.endpoints.len() {
        let route = agent.endpoints[index].route;
        (
            awaiting(agent, WaitingView::Probe(index)),
            StepView {
                notices: notices.push(
                    NoticeView {
                        kind: PrintCommand::UnitTest,
                        statement: "Testing endpoint '"@ + route + "'..."@,
                    },
                ),
                action: ActionView::Probe { url: probe_url(route), timeout: PROBE_TIMEOUT_SECONDS },
            },
        )
    } else {
        (
            awaiting(agent, WaitingView::SchemaSaved),
            StepView { notices, action: ActionView::SaveEndpoints(agent.schema_text) },
        )
    }
}

/// What a probe's answer is worth a statement: nothing for the status 200,
/// a warning for any other.
pub open spec fn status_notices(route: Seq<char>, status: u16) -> Seq<NoticeView> {
    if status == 200 {
        Seq::empty()
    } else {
        seq![
            NoticeView {
                kind: PrintCommand::Issue,
                statement: "WARNING: Failed to call backend url endpoint "@ + route,
            },
        ]
    }
}

/// The step after the build has ended: a success clears the count of failed
/// builds and goes on to the endpoints; a failure counts, keeps what the
/// build said, and sends the agent back to work, unless it is one failure
/// too many.
pub open spec fn after_build(agent: AgentBackendDeveloperView, success: bool, errors: Seq<char>) -> (
    AgentBackendDeveloperView,
    StepView,
) {
    if success {
        (
            AgentBackendDeveloperView { bug_count: 0, waiting: WaitingView::ExecMain, ..agent },
            announced(
                "Backend Code Unit Testing: Test server build successfull.."@,
                ActionView::ReadExecMain,
            ),
        )
    } else if agent.bug_count + 1 > MAX_BUGS {
        (
            AgentBackendDeveloperView {
                bug_count: agent.bug_count + 1,
                bug_errors: Some(errors),
                failure: Some(Abort::TooManyBugs),
                waiting: WaitingView::Nothing,
                ..agent
            },
            StepView {
                notices: seq![
                    NoticeView {
                        kind: PrintCommand::Issue,
                        statement: "Backend Code Unit Testing: Too many bugs found in Code"@,
                    },
                ],
                action: ActionView::Abort(Abort::TooManyBugs),
            },
        )
    } else {
        (
            AgentBackendDeveloperView {
                attributes: BasicAgentView { state: AgentState::Working, ..agent.attributes },
                bug_count: agent.bug_count + 1,
                bug_errors: Some(errors),
                waiting: WaitingView::Template,
                ..agent
            },
            quiet(ActionView::ReadCodeTemplate),
        )
    }
}

/// What the fact sheet holds as the backend code after a generation has
/// come back: the code block of the answer, and the whole answer where it
/// holds none.
pub open spec fn generated_code(reply: Seq<char>) -> Seq<char> {
    match code_block(reply) {
        Some(code) => code,
        None => reply,
    }
}

/// The step after a generation has come back: the code block of the
/// answer, if there is one, is to be stored as the generated program.
pub open spec fn after_completion(reply: Seq<char>) -> StepView {
    quiet(
        match code_block(reply) {
            Some(code) => ActionView::SaveCode(code),
            None => ActionView::ReportUnparsable,
        },
    )
}

/// The step after the code has been stored: on to `Working` from
/// `Discovery`, and on to `UnitTesting` from `Working`.
pub open spec fn after_code_saved(agent: AgentBackendDeveloperView) -> (
    AgentBackendDeveloperView,
    StepView,
) {
    if agent.attributes.state == AgentState::Discovery {
        (moved(agent, AgentState::Working, WaitingView::Template), quiet(ActionView::ReadCodeTemplate))
    } else {
        (
            moved(agent, AgentState::UnitTesting, WaitingView::Confirmation),
            announced("Backend Code Unit Testing : Requesting User Input"@, ActionView::Confirm),
        )
    }
}

/// The step after the endpoint extraction has come back.
pub open spec fn after_endpoints_completion(agent: AgentBackendDeveloperView, reply: Seq<char>) -> (
    AgentBackendDeveloperView,
    StepView,
) {
    match code_block(reply) {
        Some(block) => (
            AgentBackendDeveloperView {
                schema_text: trimmed(block),
                waiting: WaitingView::Routes,
                ..agent
            },
            quiet(ActionView::DecodeEndpoints(trimmed(block))),
        ),
        None => given_up(agent, Abort::NoEndpointBlock),
    }
}

/// The step after a probe could not reach the server, once the server's end
/// has been ordered and performed: on to the next endpoint while the
/// server's handle can still be used; otherwise the round stops there.
pub open spec fn after_probe_kill(agent: AgentBackendDeveloperView, index: int, usable: bool) -> (
    AgentBackendDeveloperView,
    StepView,
) {
    let notices = seq![
        NoticeView {
            kind: PrintCommand::Issue,
            statement: "Error checking backend "@ + agent.probe_error,
        },
    ];
    if usable {
        probe_from(agent, index + 1, notices)
    } else {
        (
            awaiting(agent, WaitingView::SchemaSaved),
            StepView { notices, action: ActionView::SaveEndpoints(agent.schema_text) },
        )
    }
}

/// The step after a probe has come back.
pub open spec fn after_probe(
    agent: AgentBackendDeveloperView,
    index: int,
    outcome: ProbeOutcomeView,
) -> (AgentBackendDeveloperView, StepView) {
    match outcome {
        ProbeOutcomeView::Status(status) => probe_from(
            agent,
            index + 1,
            status_notices(agent.endpoints[index].route, status),
        ),
        ProbeOutcomeView::Unreachable(detail) => (
            AgentBackendDeveloperView {
                probe_error: detail,
                server: ServerStatus::Terminated,
                waiting: WaitingView::ProbeKill(index),
                ..agent
            },
            quiet(ActionView::KillServer),
        ),
    }
}

/// One decision of the agent: from what it is, what the fact sheet holds
/// and what the driver hands back, to what both are next and what the
/// driver is to do. An event that does not answer what the agent waits for
/// gives the run up.
pub open spec fn backend_step(
    agent: AgentBackendDeveloperView,
    sheet: FactSheetView,
    event: EventView,
) -> (AgentBackendDeveloperView, FactSheetView, StepView) {
    if agent.failure is Some {
        (agent, sheet, quiet(ActionView::Abort(agent.failure->0)))
    } else {
        match (agent.waiting, event) {
            (WaitingView::Nothing, _) => (agent, sheet, quiet(ActionView::Finish)),
            (WaitingView::Start, EventView::Start) => (
                awaiting(agent, WaitingView::Template),
                sheet,
                quiet(ActionView::ReadCodeTemplate),
            ),
            (WaitingView::Template, EventView::Text(template)) => (
                awaiting(agent, WaitingView::Completion),
                sheet,
                quiet(
                    ActionView::RunTask {
                        context: code_context(agent, sheet, template),
                        task: code_task(agent),
                    },
                ),
            ),
            (WaitingView::Completion, EventView::Text(reply)) => (
                awaiting(agent, WaitingView::CodeSaved),
                FactSheetView { backend_code: Some(generated_code(reply)), ..sheet },
                after_completion(reply),
            ),
            (WaitingView::CodeSaved, EventView::Done) => keeping(sheet, after_code_saved(agent)),
            (WaitingView::Confirmation, EventView::Answer(agreed)) => if agreed {
                (
                    awaiting(agent, WaitingView::Build),
                    sheet,
                    announced("Backend Code Unit Testing: Building Agent"@, ActionView::Build),
                )
            } else {
                keeping(sheet, given_up(agent, Abort::UserDeclined))
            },
            (WaitingView::Build, EventView::Built { success, errors }) => keeping(
                sheet,
                after_build(agent, success, errors),
            ),
            (WaitingView::ExecMain, EventView::Text(code)) => (
                awaiting(agent, WaitingView::EndpointsCompletion),
                sheet,
                quiet(
                    ActionView::RunTask {
                        context: endpoints_context(code),
                        task: AiFunction::PrintRestApiEndpoints,
                    },
                ),
            ),
            (WaitingView::EndpointsCompletion, EventView::Text(reply)) => keeping(
                sheet,
                after_endpoints_completion(agent, reply),
            ),
            (WaitingView::Routes, EventView::Routes(decoded)) => match decoded {
                Some(routes) => (
                    AgentBackendDeveloperView {
                        endpoints: probe_targets(routes),
                        waiting: WaitingView::RoutesSaved,
                        ..agent
                    },
                    FactSheetView { api_endpoint_schema: Some(probe_targets(routes)), ..sheet },
                    quiet(ActionView::SaveRoutes(probe_targets(routes))),
                ),
                None => keeping(
                    sheet,
                    given_up(agent, Abort::Decode(AiFunction::PrintRestApiEndpoints)),
                ),
            },
            (WaitingView::RoutesSaved, EventView::Done) => (
                awaiting(agent, WaitingView::Server),
                sheet,
                announced(
                    "Backend Code Unit Testing: Starting web server..."@,
                    ActionView::SpawnServer,
                ),
            ),
            (WaitingView::Server, EventView::Done) => (
                AgentBackendDeveloperView {
                    server: ServerStatus::Running,
                    waiting: WaitingView::WarmUp,
                    ..agent
                },
                sheet,
                announced(
                    "Backend Code Unit Testing: Launching tests on server in 5 seconds..."@,
                    ActionView::Sleep(WARM_UP_SECONDS),
                ),
            ),
            (WaitingView::WarmUp, EventView::Done) => keeping(
                sheet,
                probe_from(agent, 0, Seq::empty()),
            ),
            (WaitingView::Probe(index), EventView::Probed(outcome)) => keeping(
                sheet,
                after_probe(agent, index, outcome),
            ),
            (WaitingView::ProbeKill(index), EventView::Killed(usable)) => keeping(
                sheet,
                after_probe_kill(agent, index, usable),
            ),
            (WaitingView::SchemaSaved, EventView::Done) => (
                AgentBackendDeveloperView {
                    server: ServerStatus::Terminated,
                    waiting: WaitingView::FinalKill,
                    ..agent
                },
                sheet,
                announced("Backend testing complete..."@, ActionView::KillServer),
            ),
            (WaitingView::FinalKill, EventView::Killed(_)) => (
                moved(agent, AgentState::Finished, WaitingView::Nothing),
                sheet,
                quiet(ActionView::Finish),
            ),
            _ => keeping(sheet, given_up(agent, Abort::UnexpectedEvent)),
        }
    }
}

/// Every step keeps an agent well formed.
pub proof fn lemma_step_keeps_wf(
    agent: AgentBackendDeveloperView,
    sheet: FactSheetView,
    event: EventView,
)
    requires
        agent.wf(),
    ensures
        backend_step(agent, sheet, event).0.wf(),
{
}

/// Composes the context of the first generation.
pub fn compose_initial_context(template: &str, description: &str) -> (context: String)
    ensures
        context@ == initial_code_context(template@, description@),
{
    let mut context = String::from_str("CODE TEMPLATE : ");
    context.append(template);
    context.append(" \n  PROJECT_DESCRIPTION:");
    context.append(description);
    context.append(" \n");
    context
}

/// Composes the context of the second generation.
pub fn compose_improved_context(template: &str, description: &str) -> (context: String)
    ensures
        context@ == improved_code_context(template@, description@),
{
    let mut context = String::from_str("CODE TEMPLATE : ");
    context.append(quote(template).as_str());
    context.append(" \n  PROJECT_DESCRIPTION:");
    context.append(quote(description).as_str());
    context.append(" \n");
    context
}

/// Composes the context of a repair.
pub fn compose_fix_context(code: &Option<String>, errors: &Option<String>) -> (context: String)
    ensures
        context@ == fix_code_context(code.deep_view(), errors.deep_view()),
{
    let mut context = String::from_str(" BROKEN CODE :");
    context.append(quote_optional(code).as_str());
    context.append(" \n  PROJECT_DESCRIPTION:");
    context.append(quote_optional(errors).as_str());
    context.append(" \n\n                THIS FUNCTION ONLY OUTCPUTS CODE. JUST OUTPUT THE CODE");
    context
}

/// Composes the context of the endpoint extraction.
pub fn compose_endpoints_context(code: &str) -> (context: String)
    ensures
        context@ == endpoints_context(code@),
{
    let mut context = String::from_str("CODE_INPUT: ");
    context.append(code);
    context
}

/// Composes the address that a probe of `route` is sent to.
pub fn compose_probe_url(route: &str) -> (url: String)
    ensures
        url@ == probe_url(route@),
{
    let mut url = String::from_str("http://localhost:8080");
    url.append(route);
    url
}

/// The backend developer before its run.
pub open spec fn fresh_backend_developer() -> AgentBackendDeveloperView {
    AgentBackendDeveloperView {
        attributes: BasicAgentView {
            objective: "Manage agents who are building an excellent website for the uesr"@,
            position: "Backend Developer"@,
            state: AgentState::Discovery,
            memory: Seq::empty(),
        },
        bug_errors: None,
        bug_count: 0,
        waiting: WaitingView::Start,
        endpoints: Seq::empty(),
        schema_text: Seq::empty(),
        probe_error: Seq::empty(),
        server: ServerStatus::Absent,
        failure: None,
    }
}

impl AgentBackendDeveloper {
    /// The agent before its run: in `Discovery`, with no failed build and no
    /// server.
    pub fn new() -> (agent: Self)
        ensures
            agent@ == fresh_backend_developer(),
            agent@.wf(),
    {
        let attributes = BasicAgent::new(
            String::from_str("Manage agents who are building an excellent website for the uesr"),
            String::from_str("Backend Developer"),
        );
        let agent = Self {
            attributes,
            bug_errors: None,
            bug_count: 0,
            waiting: Waiting::Start,
            endpoints: Vec::new(),
            schema_text: String::new(),
            probe_error: String::new(),
            server: ServerStatus::Absent,
            failure: None,
        };
        assert(agent.endpoints.deep_view() =~= Seq::<RouteObjectView>::empty());
        agent
    }

    /// The role record of the agent.
    pub fn get_attributes_from_agent(&self) -> (attributes: &BasicAgent)
        ensures
            attributes@ == self@.attributes,
    {
        &self.attributes
    }

    /// How many builds have failed since the last that succeeded.
    pub fn bug_count(&self) -> (count: u8)
        ensures
            count == self@.bug_count,
    {
        self.bug_count
    }

    /// What the last failed build wrote to its error stream.
    pub fn bug_errors(&self) -> (errors: &Option<String>)
        ensures
            errors.deep_view() == self@.bug_errors,
    {
        &self.bug_errors
    }

    /// What the agent waits for.
    pub fn waiting(&self) -> (waiting: Waiting)
        ensures
            waiting@ == self@.waiting,
    {
        self.waiting
    }

    /// What the agent knows of the server under test.
    pub fn server(&self) -> (server: ServerStatus)
        ensures
            server == self@.server,
    {
        self.server
    }

    /// Why the run was given up, if it was.
    pub fn failure(&self) -> (failure: Option<Abort>)
        ensures
            failure == self@.failure,
    {
        self.failure
    }

    /// Tells whether the agent is well formed. Every agent that `new` gives
    /// and `step` leaves is.
    pub fn is_well_formed(&self) -> (ok: bool)
        ensures
            ok == self@.wf(),
    {
        let writes_code = match self.waiting {
            Waiting::Start | Waiting::Template | Waiting::Completion | Waiting::CodeSaved => true,
            _ => false,
        };
        let before_server = match self.waiting {
            Waiting::Confirmation
            | Waiting::Build
            | Waiting::ExecMain
            | Waiting::EndpointsCompletion
            | Waiting::Routes
            | Waiting::RoutesSaved
            | Waiting::Server => true,
            _ => false,
        };
        let running = match self.server {
            ServerStatus::Running => true,
            _ => false,
        };
        let absent = match self.server {
            ServerStatus::Absent => true,
            _ => false,
        };
        let terminated = match self.server {
            ServerStatus::Terminated => true,
            _ => false,
        };
        let index_fits = match self.waiting {
            Waiting::Probe(index) => index < self.endpoints.len(),
            Waiting::ProbeKill(index) => index < self.endpoints.len(),
            _ => true,
        };
        if self.failure.is_some() {
            self.bug_count <= MAX_BUGS + 1 && !running && index_fits
        } else {
            let fits_state = match self.attributes.state {
                AgentState::Discovery => writes_code && self.bug_count == 0,
                AgentState::Working => writes_code && !matches!(self.waiting, Waiting::Start),
                AgentState::UnitTesting => !writes_code && !matches!(
                    self.waiting,
                    Waiting::Nothing
                ),
                AgentState::Finished => matches!(self.waiting, Waiting::Nothing),
            };
            let fits_server = match self.waiting {
                Waiting::WarmUp => running,
                Waiting::Probe(_) | Waiting::SchemaSaved => !absent,
                Waiting::ProbeKill(_) | Waiting::FinalKill | Waiting::Nothing => terminated,
                _ => absent,
            };
            self.bug_count <= MAX_BUGS && fits_state && fits_server && index_fits
        }
    }

    /// Gives the run up for `reason`.
    fn give_up(&mut self, reason: Abort) -> (step: Step)
        ensures
            (final(self)@, step@) == given_up(old(self)@, reason),
    {
        self.failure = Some(reason);
        self.waiting = Waiting::Nothing;
        match self.server {
            ServerStatus::Running => {
                self.server = ServerStatus::Terminated;
                quiet_step(Action::KillServer)
            },
            _ => quiet_step(Action::Abort(reason)),
        }
    }

    /// Goes on to the probe of the endpoint at `index`, or past the last
    /// one.
    fn probe_next(&mut self, index: usize, notices: Vec<Notice>) -> (step: Step)
        ensures
            (final(self)@, step@) == probe_from(old(self)@, index as int, notices.deep_view()),
    {
        let mut notices = notices;
        if index < self.endpoints.len() {
            let route = self.endpoints[index].route.as_str();
            let mut statement = String::from_str("Testing endpoint '");
            statement.append(route);
            statement.append("'...");
            let url = compose_probe_url(route);
            push_notice(&mut notices, PrintCommand::UnitTest, statement);
            self.waiting = Waiting::Probe(index);
            Step { notices, action: Action::Probe { url, timeout: PROBE_TIMEOUT_SECONDS } }
        } else {
            self.waiting = Waiting::SchemaSaved;
            Step { notices, action: Action::SaveEndpoints(self.schema_text.clone()) }
        }
    }

    /// Takes what the driver hands back and decides what comes next.
    ///
    /// `Discovery` asks for the first generation, has its code stored, keeps
    /// the same code in the fact sheet, and always goes on to `Working`. `Working` asks for a second generation while no build has
    /// failed, and for a repair after one has, and always goes on to
    /// `UnitTesting`. `UnitTesting` asks the human, builds, and on a failed
    /// build counts it and goes back to `Working`, or gives up at the
    /// fourth; after a build that succeeded it has the endpoints extracted,
    /// keeps and stores those that are safe to probe, starts the server,
    /// probes each of them in turn, stores the schema as it was extracted,
    /// ends the server and is `Finished`. A probe that cannot reach the
    /// server has the server ended at once; the round goes on while the
    /// server's handle can still be used.
    pub fn step(&mut self, factsheet: &mut FactSheet, event: Event) -> (next: Step)
        requires
            old(self)@.wf(),
        ensures
            final(self)@.wf(),
            (final(self)@, final(factsheet)@, next@) == backend_step(
                old(self)@,
                old(factsheet)@,
                event@,
            ),
    {
        proof {
            lemma_step_keeps_wf(self@, factsheet@, event@);
        }
        if let Some(reason) = self.failure {
            return quiet_step(Action::Abort(reason));
        }
        match self.waiting {
            Waiting::Nothing => quiet_step(Action::Finish),
            Waiting::Start => match event {
                Event::Start => {
                    self.waiting = Waiting::Template;
                    quiet_step(Action::ReadCodeTemplate)
                },
                _ => self.give_up(Abort::UnexpectedEvent),
            },
            Waiting::Template => match event {
                Event::Text(template) => self.on_template(factsheet, template),
                _ => self.give_up(Abort::UnexpectedEvent),
            },
            Waiting::Completion => match event {
                Event::Text(reply) => {
                    let action = match extract_code_block(reply.clone()) {
                        Some(code) => {
                            factsheet.backend_code = Some(code.clone());
                            Action::SaveCode(code)
                        },
                        None => {
                            factsheet.backend_code = Some(reply);
                            Action::ReportUnparsable
                        },
                    };
                    self.waiting = Waiting::CodeSaved;
                    quiet_step(action)
                },
                _ => self.give_up(Abort::UnexpectedEvent),
            },
            Waiting::CodeSaved => match event {
                Event::Done => self.on_code_saved(),
                _ => self.give_up(Abort::UnexpectedEvent),
            },
            Waiting::Confirmation => match event {
                Event::Answer(agreed) => {
                    if agreed {
                        self.waiting = Waiting::Build;
                        noted_step(
                            PrintCommand::UnitTest,
                            "Backend Code Unit Testing: Building Agent",
                            Action::Build,
                        )
                    } else {
                        self.give_up(Abort::UserDeclined)
                    }
                },
                _ => self.give_up(Abort::UnexpectedEvent),
            },
            Waiting::Build => match event {
                Event::Built { success, errors } => self.on_built(success, errors),
                _ => self.give_up(Abort::UnexpectedEvent),
            },
            Waiting::ExecMain => match event {
                Event::Text(code) => {
                    self.waiting = Waiting::EndpointsCompletion;
                    quiet_step(
                        Action::RunTask {
                            context: compose_endpoints_context(code.as_str()),
                            task: AiFunction::PrintRestApiEndpoints,
                        },
                    )
                },
                _ => self.give_up(Abort::UnexpectedEvent),
            },
            Waiting::EndpointsCompletion => match event {
                Event::Text(reply) => self.on_endpoints_completion(reply),
                _ => self.give_up(Abort::UnexpectedEvent),
            },
            Waiting::Routes => match event {
                Event::Routes(Some(routes)) => {
                    let check_endpoints = select_probe_targets(&routes);
                    factsheet.api_endpoint_schema = Some(duplicate_routes(&check_endpoints));
                    let action = Action::SaveRoutes(duplicate_routes(&check_endpoints));
                    self.endpoints = check_endpoints;
                    self.waiting = Waiting::RoutesSaved;
                    quiet_step(action)
                },
                Event::Routes(None) => self.give_up(
                    Abort::Decode(AiFunction::PrintRestApiEndpoints),
                ),
                _ => self.give_up(Abort::UnexpectedEvent),
            },
            Waiting::RoutesSaved => match event {
                Event::Done => {
                    self.waiting = Waiting::Server;
                    noted_step(
                        PrintCommand::UnitTest,
                        "Backend Code Unit Testing: Starting web server...",
                        Action::SpawnServer,
                    )
                },
                _ => self.give_up(Abort::UnexpectedEvent),
            },
            Waiting::Server => match event {
                Event::Done => {
                    self.server = ServerStatus::Running;
                    self.waiting = Waiting::WarmUp;
                    noted_step(
                        PrintCommand::UnitTest,
                        "Backend Code Unit Testing: Launching tests on server in 5 seconds...",
                        Action::Sleep(WARM_UP_SECONDS),
                    )
                },
                _ => self.give_up(Abort::UnexpectedEvent),
            },
            Waiting::WarmUp => match event {
                Event::Done => {
                    let notices: Vec<Notice> = Vec::new();
                    assert(notices.deep_view() =~= Seq::<NoticeView>::empty());
                    self.probe_next(0, notices)
                },
                _ => self.give_up(Abort::UnexpectedEvent),
            },
            Waiting::Probe(index) => match event {
                Event::Probed(outcome) => self.on_probed(index, outcome),
                _ => self.give_up(Abort::UnexpectedEvent),
            },
            Waiting::ProbeKill(index) => match event {
                Event::Killed(usable) => {
                    let mut statement = String::from_str("Error checking backend ");
                    statement.append(self.probe_error.as_str());
                    let mut notices: Vec<Notice> = Vec::new();
                    assert(notices.deep_view() =~= Seq::<NoticeView>::empty());
                    push_notice(&mut notices, PrintCommand::Issue, statement);
                    if usable {
                        assert(index < self.endpoints.len());
                        self.probe_next(index + 1, notices)
                    } else {
                        self.waiting = Waiting::SchemaSaved;
                        Step { notices, action: Action::SaveEndpoints(self.schema_text.clone()) }
                    }
                },
                _ => self.give_up(Abort::UnexpectedEvent),
            },
            Waiting::SchemaSaved => match event {
                Event::Done => {
                    self.server = ServerStatus::Terminated;
                    self.waiting = Waiting::FinalKill;
                    noted_step(
                        PrintCommand::UnitTest,
                        "Backend testing complete...",
                        Action::KillServer,
                    )
                },
                _ => self.give_up(Abort::UnexpectedEvent),
            },
            Waiting::FinalKill => match event {
                Event::Killed(_) => {
                    self.attributes.state = AgentState::Finished;
                    self.waiting = Waiting::Nothing;
                    quiet_step(Action::Finish)
                },
                _ => self.give_up(Abort::UnexpectedEvent),
            },
        }
    }

    /// The template has been read: asks for the generation that is due.
    fn on_template(&mut self, factsheet: &FactSheet, template: String) -> (step: Step)
        requires
            old(self)@.failure is None,
        ensures
            final(self)@ == awaiting(old(self)@, WaitingView::Completion),
            step@ == quiet(
                ActionView::RunTask {
                    context: code_context(old(self)@, factsheet@, template@),
                    task: code_task(old(self)@),
                },
            ),
    {
        let description = factsheet.project_description.as_str();
        let discovering = match self.attributes.state {
            AgentState::Discovery => true,
            _ => false,
        };
        let action = if discovering {
            Action::RunTask {
                context: compose_initial_context(template.as_str(), description),
                task: AiFunction::PrintBackendWebserverCode,
            }
        } else if self.bug_count == 0 {
            Action::RunTask {
                context: compose_improved_context(template.as_str(), description),
                task: AiFunction::PrintBackendWebserverCode,
            }
        } else {
            Action::RunTask {
                context: compose_fix_context(&factsheet.backend_code, &self.bug_errors),
                task: AiFunction::PrintFixedCode,
            }
        };
        self.waiting = Waiting::Completion;
        quiet_step(action)
    }

    /// The code has been stored: moves on to the next state.
    fn on_code_saved(&mut self) -> (step: Step)
        ensures
            (final(self)@, step@) == after_code_saved(old(self)@),
    {
        match self.attributes.state {
            AgentState::Discovery => {
                self.attributes.state = AgentState::Working;
                self.waiting = Waiting::Template;
                quiet_step(Action::ReadCodeTemplate)
            },
            _ => {
                self.attributes.state = AgentState::UnitTesting;
                self.waiting = Waiting::Confirmation;
                noted_step(
                    PrintCommand::UnitTest,
                    "Backend Code Unit Testing : Requesting User Input",
                    Action::Confirm,
                )
            },
        }
    }

    /// The build has ended.
    fn on_built(&mut self, success: bool, errors: String) -> (step: Step)
        requires
            old(self)@.bug_count <= MAX_BUGS,
        ensures
            (final(self)@, step@) == after_build(old(self)@, success, errors@),
    {
        if success {
            self.bug_count = 0;
            self.waiting = Waiting::ExecMain;
            noted_step(
                PrintCommand::UnitTest,
                "Backend Code Unit Testing: Test server build successfull..",
                Action::ReadExecMain,
            )
        } else {
            self.bug_count += 1;
            self.bug_errors = Some(errors);
            if self.bug_count > MAX_BUGS {
                self.failure = Some(Abort::TooManyBugs);
                self.waiting = Waiting::Nothing;
                noted_step(
                    PrintCommand::Issue,
                    "Backend Code Unit Testing: Too many bugs found in Code",
                    Action::Abort(Abort::TooManyBugs),
                )
            } else {
                self.attributes.state = AgentState::Working;
                self.waiting = Waiting::Template;
                quiet_step(Action::ReadCodeTemplate)
            }
        }
    }

    /// The endpoint extraction has come back.
    fn on_endpoints_completion(&mut self, reply: String) -> (step: Step)
        ensures
            (final(self)@, step@) == after_endpoints_completion(old(self)@, reply@),
    {
        match extract_code_block(reply) {
            Some(block) => {
                let api_endpoints_str = trim(block.as_str()).to_owned();
                self.schema_text = api_endpoints_str.clone();
                self.waiting = Waiting::Routes;
                quiet_step(Action::DecodeEndpoints(api_endpoints_str))
            },
            None => self.give_up(Abort::NoEndpointBlock),
        }
    }

    /// A probe has come back.
    fn on_probed(&mut self, index: usize, outcome: ProbeOutcome) -> (step: Step)
        requires
            index < old(self)@.endpoints.len(),
        ensures
            (final(self)@, step@) == after_probe(old(self)@, index as int, outcome@),
    {
        assert(index < self.endpoints.len());
        match outcome {
            ProbeOutcome::Status(status) => {
                let mut notices: Vec<Notice> = Vec::new();
                assert(notices.deep_view() =~= Seq::<NoticeView>::empty());
                if status != 200 {
                    let mut statement = String::from_str(
                        "WARNING: Failed to call backend url endpoint ",
                    );
                    statement.append(self.endpoints[index].route.as_str());
                    push_notice(&mut notices, PrintCommand::Issue, statement);
                }
                self.probe_next(index + 1, notices)
            },
            ProbeOutcome::Unreachable(detail) => {
                self.probe_error = detail;
                self.server = ServerStatus::Terminated;
                self.waiting = Waiting::ProbeKill(index);
                quiet_step(Action::KillServer)
            },
        }
    }
}

} // verus!
