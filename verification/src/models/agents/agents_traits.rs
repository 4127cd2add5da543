//! The record that the stages work on, and the actions and events through
//! which a stage and its driver talk to each other.

use crate::ai_functions::AiFunction;
use crate::helpers::command_line::PrintCommand;
use crate::helpers::text::reads_as;
use vstd::prelude::*;
use vstd::string::StringExecFns;

verus! {

/// One HTTP route of the generated server, as the endpoint extraction
/// reports it. `request_body` and `response` hold the JSON text of the schema,
/// or `None` where the route has none.
#[derive(Debug, Clone, PartialEq, Eq)]
pub struct RouteObject {
    pub is_route_dynamic: String,
    pub method: String,
    pub request_body: Option<String>,
    pub response: Option<String>,
    pub route: String,
}

/// A `RouteObject` as plain values.
pub struct RouteObjectView {
    pub is_route_dynamic: Seq<char>,
    pub method: Seq<char>,
    pub request_body: Option<Seq<char>>,
    pub response: Option<Seq<char>>,
    pub route: Seq<char>,
}

impl View for RouteObject {
    type V = RouteObjectView;

    open spec fn view(&self) -> RouteObjectView {
        RouteObjectView {
            is_route_dynamic: self.is_route_dynamic@,
            method: self.method@,
            request_body: self.request_body.deep_view(),
            response: self.response.deep_view(),
            route: self.route@,
        }
    }
}

impl DeepView for RouteObject {
    type V = RouteObjectView;

    open spec fn deep_view(&self) -> RouteObjectView {
        self@
    }
}

/// What the requested site needs, as the scope analysis found it.
#[derive(Debug, Clone, Copy, PartialEq, Eq, Structural)]
pub struct ProjectScope {
    pub is_crud_required: bool,
    pub is_user_login_and_logout: bool,
    pub is_external_urls_required: bool,
}

/// The working record that the stages hand on, one owner at a time.
#[derive(Debug, Clone, PartialEq)]
pub struct FactSheet {
    pub project_description: String,
    pub project_scope: ProjectScope,
    pub external_urls: Vec<String>,
    pub backend_code: Option<String>,
    pub api_endpoint_schema: Option<Vec<RouteObject>>,
}

/// A `FactSheet` as plain values.
pub struct FactSheetView {
    pub project_description: Seq<char>,
    pub project_scope: ProjectScope,
    pub external_urls: Seq<Seq<char>>,
    pub backend_code: Option<Seq<char>>,
    pub api_endpoint_schema: Option<Seq<RouteObjectView>>,
}

impl View for FactSheet {
    type V = FactSheetView;

    open spec fn view(&self) -> FactSheetView {
        FactSheetView {
            project_description: self.project_description@,
            project_scope: self.project_scope,
            external_urls: self.external_urls.deep_view(),
            backend_code: self.backend_code.deep_view(),
            api_endpoint_schema: self.api_endpoint_schema.deep_view(),
        }
    }
}

/// A copy of an optional text.
pub fn copy_text(text: &Option<String>) -> (copy: Option<String>)
    ensures
        copy.deep_view() == text.deep_view(),
{
    match text {
        Some(t) => Some(t.clone()),
        None => None,
    }
}

impl RouteObject {
    /// A copy with the same contents.
    pub fn duplicate(&self) -> (copy: Self)
        ensures
            copy@ == self@,
    {
        RouteObject {
            is_route_dynamic: self.is_route_dynamic.clone(),
            method: self.method.clone(),
            request_body: copy_text(&self.request_body),
            response: copy_text(&self.response),
            route: self.route.clone(),
        }
    }
}

/// The fact sheet at the start of a run: the description, a scope that asks
/// for nothing, and nothing else.
pub open spec fn fresh_fact_sheet(project_description: Seq<char>) -> FactSheetView {
    FactSheetView {
        project_description,
        project_scope: ProjectScope {
            is_crud_required: false,
            is_user_login_and_logout: false,
            is_external_urls_required: false,
        },
        external_urls: Seq::empty(),
        backend_code: None,
        api_endpoint_schema: None,
    }
}

impl FactSheet {
    /// The record at the start of a run: the project's description and
    /// nothing else.
    pub fn new(project_description: String) -> (sheet: Self)
        ensures
            sheet@ == fresh_fact_sheet(project_description@),
    {
        let sheet = FactSheet {
            project_description,
            project_scope: ProjectScope {
                is_crud_required: false,
                is_user_login_and_logout: false,
                is_external_urls_required: false,
            },
            external_urls: Vec::new(),
            backend_code: None,
            api_endpoint_schema: None,
        };
        assert(sheet.external_urls.deep_view() =~= Seq::<Seq<char>>::empty());
        sheet
    }
}

/// Whether a route is safe to probe: a plain read, `get`, with no parameter
/// in its path.
pub open spec fn is_probe_target(route: RouteObjectView) -> bool {
    route.method == "get"@ && route.is_route_dynamic == "false"@
}

/// The routes of `routes` that are safe to probe, in their order.
pub open spec fn probe_targets(routes: Seq<RouteObjectView>) -> Seq<RouteObjectView> {
    routes.filter(|route: RouteObjectView| is_probe_target(route))
}

/// The probe targets of a list are the routes of the list that are safe to
/// probe, all of them and no other, and a list of one route is kept or
/// dropped whole.
pub proof fn lemma_probe_targets(routes: Seq<RouteObjectView>, route: RouteObjectView)
    ensures
        probe_targets(routes).contains(route) <==> routes.contains(route) && is_probe_target(route),
        probe_targets(routes).len() <= routes.len(),
        probe_targets(seq![route]) == if is_probe_target(route) {
            seq![route]
        } else {
            Seq::empty()
        },
        probe_targets(routes.push(route)) == if is_probe_target(route) {
            probe_targets(routes).push(route)
        } else {
            probe_targets(routes)
        },
{
    let keep = |route: RouteObjectView| is_probe_target(route);
    let kept = routes.filter(keep);
    routes.lemma_filter_len(keep);
    routes.lemma_filter_push(route, keep);
    Seq::<RouteObjectView>::empty().lemma_filter_push(route, keep);
    assert(Seq::<RouteObjectView>::empty().filter(keep) =~= Seq::<RouteObjectView>::empty()) by {
        reveal(Seq::filter);
    }
    assert(Seq::<RouteObjectView>::empty().push(route).filter(keep) =~= if is_probe_target(route) {
        seq![route]
    } else {
        Seq::empty()
    });
    if kept.contains(route) {
        routes.lemma_filter_contains_rev(keep, route);
        let i = choose|i: int| 0 <= i < kept.len() && kept[i] == route;
        routes.lemma_filter_pred(keep, i);
    }
    if routes.contains(route) && is_probe_target(route) {
        let i = choose|i: int| 0 <= i < routes.len() && routes[i] == route;
        routes.lemma_filter_contains(keep, i);
    }
}

/// Selects the routes that the probe round may call: those with method
/// `get` whose `is_route_dynamic` reads `false`.
pub fn select_probe_targets(routes: &Vec<RouteObject>) -> (kept: Vec<RouteObject>)
    ensures
        kept.deep_view() == probe_targets(routes.deep_view()),
{
    let mut kept: Vec<RouteObject> = Vec::new();
    let ghost keep = |route: RouteObjectView| is_probe_target(route);
    proof {
        reveal(Seq::filter);
    }
    for i in 0..routes.len()
        invariant
            keep == (|route: RouteObjectView| is_probe_target(route)),
            kept.deep_view() == routes.deep_view().take(i as int).filter(keep),
    {
        let route = &routes[i];
        let wanted = reads_as(route.method.as_str(), "get") && reads_as(
            route.is_route_dynamic.as_str(),
            "false",
        );
        if wanted {
            kept.push(route.duplicate());
        }
        proof {
            let seen = routes.deep_view().take(i as int);
            assert(seen.push(route@) =~= routes.deep_view().take(i + 1));
            seen.lemma_filter_push(route@, keep);
        }
    }
    assert(routes.deep_view().take(routes.len() as int) =~= routes.deep_view());
    kept
}

/// A copy of a list of routes.
pub fn duplicate_routes(routes: &Vec<RouteObject>) -> (copy: Vec<RouteObject>)
    ensures
        copy.deep_view() == routes.deep_view(),
{
    let mut copy: Vec<RouteObject> = Vec::new();
    for i in 0..routes.len()
        invariant
            copy.len() == i,
            forall|j: int| 0 <= j < i ==> copy[j]@ == routes[j]@,
    {
        copy.push(routes[i].duplicate());
    }
    copy
}

/// Why a run cannot go on.
#[derive(Debug, Clone, Copy, PartialEq, Eq, Structural)]
pub enum Abort {
    /// The human declined to run the generated code.
    UserDeclined,
    /// The build failed once more than the budget allows.
    TooManyBugs,
    /// The answer to the endpoint extraction holds no code block.
    NoEndpointBlock,
    /// The answer to the task named here does not decode to what was asked
    /// for.
    Decode(AiFunction),
    /// The driver handed over an event that does not answer the action it
    /// was given.
    UnexpectedEvent,
}

impl Abort {
    /// The words with which the run ends.
    pub open spec fn spec_message(self) -> Seq<char> {
        match self {
            Abort::UserDeclined => "Better go work on some AI alignment"@,
            Abort::TooManyBugs => "Error: Too many bugs"@,
            Abort::NoEndpointBlock => "Can't extract code"@,
            Abort::Decode(task) => if task == AiFunction::PrintRestApiEndpoints {
                "Failed to decode API Endpoints"@
            } else {
                "Failed to decode AI response from serde_json"@
            },
            Abort::UnexpectedEvent => "The agent was handed an event it did not wait for"@,
        }
    }

    pub fn message(&self) -> (text: String)
        ensures
            text@ == self.spec_message(),
    {
        match self {
            Abort::UserDeclined => String::from_str("Better go work on some AI alignment"),
            Abort::TooManyBugs => String::from_str("Error: Too many bugs"),
            Abort::NoEndpointBlock => String::from_str("Can't extract code"),
            Abort::Decode(AiFunction::PrintRestApiEndpoints) => String::from_str(
                "Failed to decode API Endpoints",
            ),
            Abort::Decode(_) => String::from_str("Failed to decode AI response from serde_json"),
            Abort::UnexpectedEvent => String::from_str(
                "The agent was handed an event it did not wait for",
            ),
        }
    }
}

/// What one probe came to.
#[derive(Debug, Clone, PartialEq, Eq)]
pub enum ProbeOutcome {
    /// The server answered with this status.
    Status(u16),
    /// No answer came: the connection failed or the time ran out. The text
    /// says which.
    Unreachable(String),
}

/// What the driver hands back after it has performed an action.
#[derive(Debug, Clone, PartialEq)]
pub enum Event {
    /// The run may start.
    Start,
    /// The text that was asked for: a file's or a completion's.
    Text(String),
    /// The action is done.
    Done,
    /// The server's end was ordered; whether its handle can still be used.
    Killed(bool),
    /// Whether the human agreed.
    Answer(bool),
    /// How the build ended, and what it wrote to its error stream.
    Built { success: bool, errors: String },
    /// The scope that the text decodes to; `None` where it does not decode.
    Scope(Option<ProjectScope>),
    /// The addresses that the text decodes to; `None` where it does not
    /// decode.
    Urls(Option<Vec<String>>),
    /// The routes that the endpoint text decodes to; `None` where it does
    /// not decode.
    Routes(Option<Vec<RouteObject>>),
    /// What the probe came to.
    Probed(ProbeOutcome),
}

/// What the driver is to do next.
#[derive(Debug, Clone, PartialEq, Eq)]
pub enum Action {
    /// Read the code template and hand back its text.
    ReadCodeTemplate,
    /// Read the generated program and hand back its text.
    ReadExecMain,
    /// Ask the completion service for `task` on `context` and hand back the
    /// text.
    RunTask { context: String, task: AiFunction },
    /// Store this code as the generated program.
    SaveCode(String),
    /// Report that no code could be found in the completion.
    ReportUnparsable,
    /// Ask the human whether the generated code may run.
    Confirm,
    /// Build the generated program.
    Build,
    /// Decode this text into a project scope.
    DecodeScope(String),
    /// Decode this text into a list of addresses.
    DecodeUrls(String),
    /// Decode this text into routes.
    DecodeEndpoints(String),
    /// Store these routes, the ones to be probed, as the endpoint schema.
    SaveRoutes(Vec<RouteObject>),
    /// Start the built server.
    SpawnServer,
    /// Wait this many seconds.
    Sleep(u64),
    /// Send one GET request to `url` and wait `timeout` seconds at most.
    Probe { url: String, timeout: u64 },
    /// End the server, which is no fault if it has ended already, and say
    /// whether its handle can still be used.
    KillServer,
    /// Store this text, the endpoints as the extraction wrote them.
    SaveEndpoints(String),
    /// Nothing: the agent has finished.
    Finish,
    /// Give the run up.
    Abort(Abort),
}

/// A statement for the console.
#[derive(Debug, Clone, PartialEq, Eq)]
pub struct Notice {
    pub kind: PrintCommand,
    pub statement: String,
}

/// One step's result: what to print, then what to do.
#[derive(Debug, Clone, PartialEq, Eq)]
pub struct Step {
    pub notices: Vec<Notice>,
    pub action: Action,
}

/// A `ProbeOutcome` as plain values.
pub enum ProbeOutcomeView {
    Status(u16),
    Unreachable(Seq<char>),
}

/// An `Event` as plain values.
pub enum EventView {
    Start,
    Text(Seq<char>),
    Done,
    Killed(bool),
    Answer(bool),
    Built { success: bool, errors: Seq<char> },
    Scope(Option<ProjectScope>),
    Urls(Option<Seq<Seq<char>>>),
    Routes(Option<Seq<RouteObjectView>>),
    Probed(ProbeOutcomeView),
}

/// An `Action` as plain values.
pub enum ActionView {
    ReadCodeTemplate,
    ReadExecMain,
    RunTask { context: Seq<char>, task: AiFunction },
    SaveCode(Seq<char>),
    ReportUnparsable,
    Confirm,
    Build,
    DecodeScope(Seq<char>),
    DecodeUrls(Seq<char>),
    DecodeEndpoints(Seq<char>),
    SaveRoutes(Seq<RouteObjectView>),
    SpawnServer,
    Sleep(u64),
    Probe { url: Seq<char>, timeout: u64 },
    KillServer,
    SaveEndpoints(Seq<char>),
    Finish,
    Abort(Abort),
}

/// A `Notice` as plain values.
pub struct NoticeView {
    pub kind: PrintCommand,
    pub statement: Seq<char>,
}

/// A `Step` as plain values.
pub struct StepView {
    pub notices: Seq<NoticeView>,
    pub action: ActionView,
}

impl View for ProbeOutcome {
    type V = ProbeOutcomeView;

    open spec fn view(&self) -> ProbeOutcomeView {
        match self {
            ProbeOutcome::Status(code) => ProbeOutcomeView::Status(*code),
            ProbeOutcome::Unreachable(detail) => ProbeOutcomeView::Unreachable(detail@),
        }
    }
}

impl View for Event {
    type V = EventView;

    open spec fn view(&self) -> EventView {
        match self {
            Event::Start => EventView::Start,
            Event::Text(text) => EventView::Text(text@),
            Event::Done => EventView::Done,
            Event::Killed(usable) => EventView::Killed(*usable),
            Event::Answer(agreed) => EventView::Answer(*agreed),
            Event::Built { success, errors } => EventView::Built {
                success: *success,
                errors: errors@,
            },
            Event::Scope(scope) => EventView::Scope(*scope),
            Event::Urls(urls) => EventView::Urls(urls.deep_view()),
            Event::Routes(routes) => EventView::Routes(routes.deep_view()),
            Event::Probed(outcome) => EventView::Probed(outcome@),
        }
    }
}

impl View for Action {
    type V = ActionView;

    open spec fn view(&self) -> ActionView {
        match self {
            Action::ReadCodeTemplate => ActionView::ReadCodeTemplate,
            Action::ReadExecMain => ActionView::ReadExecMain,
            Action::RunTask { context, task } => ActionView::RunTask {
                context: context@,
                task: *task,
            },
            Action::SaveCode(code) => ActionView::SaveCode(code@),
            Action::ReportUnparsable => ActionView::ReportUnparsable,
            Action::Confirm => ActionView::Confirm,
            Action::Build => ActionView::Build,
            Action::DecodeScope(text) => ActionView::DecodeScope(text@),
            Action::DecodeUrls(text) => ActionView::DecodeUrls(text@),
            Action::DecodeEndpoints(text) => ActionView::DecodeEndpoints(text@),
            Action::SaveRoutes(routes) => ActionView::SaveRoutes(routes.deep_view()),
            Action::SpawnServer => ActionView::SpawnServer,
            Action::Sleep(seconds) => ActionView::Sleep(*seconds),
            Action::Probe { url, timeout } => ActionView::Probe { url: url@, timeout: *timeout },
            Action::KillServer => ActionView::KillServer,
            Action::SaveEndpoints(text) => ActionView::SaveEndpoints(text@),
            Action::Finish => ActionView::Finish,
            Action::Abort(reason) => ActionView::Abort(*reason),
        }
    }
}

impl View for Notice {
    type V = NoticeView;

    open spec fn view(&self) -> NoticeView {
        NoticeView { kind: self.kind, statement: self.statement@ }
    }
}

impl DeepView for Notice {
    type V = NoticeView;

    open spec fn deep_view(&self) -> NoticeView {
        self@
    }
}

impl View for Step {
    type V = StepView;

    open spec fn view(&self) -> StepView {
        StepView { notices: self.notices.deep_view(), action: self.action@ }
    }
}

/// A step that prints nothing.
pub open spec fn quiet(action: ActionView) -> StepView {
    StepView { notices: Seq::empty(), action }
}

/// A step that prints one statement about the unit testing.
pub open spec fn announced(statement: Seq<char>, action: ActionView) -> StepView {
    StepView {
        notices: seq![NoticeView { kind: PrintCommand::UnitTest, statement }],
        action,
    }
}

/// A step that prints nothing.
pub fn quiet_step(action: Action) -> (step: Step)
    ensures
        step@ == quiet(action@),
{
    let step = Step { notices: Vec::new(), action };
    assert(step.notices.deep_view() =~= Seq::<NoticeView>::empty());
    step
}

/// Adds a statement to those that a step prints.
pub fn push_notice(notices: &mut Vec<Notice>, kind: PrintCommand, statement: String)
    ensures
        final(notices).deep_view() == old(notices).deep_view().push(
            NoticeView { kind, statement: statement@ },
        ),
{
    notices.push(Notice { kind, statement });
}

/// A step that prints one statement of the given kind.
pub fn noted_step(kind: PrintCommand, statement: &str, action: Action) -> (step: Step)
    ensures
        step@ == (StepView {
            notices: seq![NoticeView { kind, statement: statement@ }],
            action: action@,
        }),
{
    let mut notices: Vec<Notice> = Vec::new();
    push_notice(&mut notices, kind, String::from_str(statement));
    let step = Step { notices, action };
    assert(step@.notices =~= seq![NoticeView { kind, statement: statement@ }]);
    step
}

} // verus!
