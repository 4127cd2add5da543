//! The orchestrator: the stages in their fixed order.

use crate::ai_functions::AiFunction;
use crate::models::agents::agent_architect::{
    architect_step, fresh_architect, AgentSolutionArchitect, AgentSolutionArchitectView,
};
use crate::models::agents::agent_backend::{
    backend_step, fresh_backend_developer, AgentBackendDeveloper, AgentBackendDeveloperView,
};
use crate::models::agents::agents_traits::{
    fresh_fact_sheet, quiet, quiet_step, Abort, Action, ActionView, Event, EventView, FactSheet,
    FactSheetView, Step, StepView,
};
use crate::models::agents_basic::basic_agent::{AgentState, BasicAgent, BasicAgentView};
use vstd::prelude::*;
use vstd::string::StringExecFns;

verus! {

/// The stages of a run, in their order.
#[derive(Debug, Clone, Copy, PartialEq, Eq, Structural)]
pub enum ManagerStage {
    /// The user's request is about to be turned into a goal.
    Goal,
    /// The goal has been asked for.
    GoalCompletion,
    /// The architect analyses the scope.
    Scope,
    /// The backend developer writes and tests the server.
    Development,
    /// Every stage has finished.
    Done,
}

/// The agent that runs the stages one after the other and owns the fact
/// sheet, which it lends to the stage at work and to no other.
#[derive(Debug)]
pub struct ManagingAgent {
    attributes: BasicAgent,
    factsheet: FactSheet,
    architect: AgentSolutionArchitect,
    backend: AgentBackendDeveloper,
    user_request: String,
    stage: ManagerStage,
    failure: Option<Abort>,
}

/// A `ManagingAgent` as plain values.
pub struct ManagingAgentView {
    pub attributes: BasicAgentView,
    pub factsheet: FactSheetView,
    pub architect: AgentSolutionArchitectView,
    pub backend: AgentBackendDeveloperView,
    pub user_request: Seq<char>,
    pub stage: ManagerStage,
    /// Why the run was given up, if it was.
    pub failure: Option<Abort>,
}

impl View for ManagingAgent {
    type V = ManagingAgentView;

    closed spec fn view(&self) -> ManagingAgentView {
        ManagingAgentView {
            attributes: self.attributes@,
            factsheet: self.factsheet@,
            architect: self.architect@,
            backend: self.backend@,
            user_request: self.user_request@,
            stage: self.stage,
            failure: self.failure,
        }
    }
}

impl ManagingAgentView {
    /// What holds of every manager that `new` and `step` give.
    pub open spec fn wf(self) -> bool {
        self.backend.wf()
    }
}

/// The place of a stage in the order of the run.
pub open spec fn stage_rank(stage: ManagerStage) -> nat {
    match stage {
        ManagerStage::Goal => 0,
        ManagerStage::GoalCompletion => 1,
        ManagerStage::Scope => 2,
        ManagerStage::Development => 3,
        ManagerStage::Done => 4,
    }
}

/// The manager after its last stage has made a step: finished where the
/// stage has finished, given up where the stage has given up, and at work
/// otherwise.
pub open spec fn after_development(
    manager: ManagingAgentView,
    stepped: (AgentBackendDeveloperView, FactSheetView, StepView),
) -> (ManagingAgentView, StepView) {
    let (backend, factsheet, step) = stepped;
    let next = ManagingAgentView { backend, factsheet, ..manager };
    match step.action {
        ActionView::Finish => (ManagingAgentView { stage: ManagerStage::Done, ..next }, step),
        ActionView::Abort(reason) => (ManagingAgentView { failure: Some(reason), ..next }, step),
        _ => (next, step),
    }
}

/// The manager after the architect has made a step: where the architect has
/// finished, the backend developer is started at once and on the same fact
/// sheet.
pub open spec fn after_scope(
    manager: ManagingAgentView,
    stepped: (AgentSolutionArchitectView, FactSheetView, StepView),
) -> (ManagingAgentView, StepView) {
    let (architect, factsheet, step) = stepped;
    let next = ManagingAgentView { architect, factsheet, ..manager };
    match step.action {
        ActionView::Finish => after_development(
            ManagingAgentView { stage: ManagerStage::Development, ..next },
            backend_step(next.backend, next.factsheet, EventView::Start),
        ),
        ActionView::Abort(reason) => (ManagingAgentView { failure: Some(reason), ..next }, step),
        _ => (next, step),
    }
}

/// One decision of the manager. The stages run strictly one after the
/// other: the goal is read off the user's request and becomes the project's
/// description; then the architect works on the fact sheet; then, if the
/// architect has finished, the backend developer. A stage that gives up
/// gives the whole run up.
pub open spec fn manager_step(manager: ManagingAgentView, event: EventView) -> (
    ManagingAgentView,
    StepView,
) {
    if manager.failure is Some {
        (manager, quiet(ActionView::Abort(manager.failure->0)))
    } else {
        match manager.stage {
            ManagerStage::Goal => match event {
                EventView::Start => (
                    ManagingAgentView { stage: ManagerStage::GoalCompletion, ..manager },
                    quiet(
                        ActionView::RunTask {
                            context: manager.user_request,
                            task: AiFunction::ConvertUserInputToGoal,
                        },
                    ),
                ),
                _ => (
                    ManagingAgentView { failure: Some(Abort::UnexpectedEvent), ..manager },
                    quiet(ActionView::Abort(Abort::UnexpectedEvent)),
                ),
            },
            ManagerStage::GoalCompletion => match event {
                EventView::Text(goal) => {
                    let factsheet = FactSheetView {
                        project_description: goal,
                        ..manager.factsheet
                    };
                    after_scope(
                        ManagingAgentView { stage: ManagerStage::Scope, factsheet, ..manager },
                        architect_step(manager.architect, factsheet, EventView::Start),
                    )
                },
                _ => (
                    ManagingAgentView { failure: Some(Abort::UnexpectedEvent), ..manager },
                    quiet(ActionView::Abort(Abort::UnexpectedEvent)),
                ),
            },
            ManagerStage::Scope => after_scope(
                manager,
                architect_step(manager.architect, manager.factsheet, event),
            ),
            ManagerStage::Development => after_development(
                manager,
                backend_step(manager.backend, manager.factsheet, event),
            ),
            ManagerStage::Done => (manager, quiet(ActionView::Finish)),
        }
    }
}

/// The manager before a run for the user's request.
pub open spec fn fresh_manager(user_request: Seq<char>) -> ManagingAgentView {
    ManagingAgentView {
        attributes: BasicAgentView {
            objective: "Manage agents who are building an excellent website for the user"@,
            position: "Project Manager"@,
            state: AgentState::Discovery,
            memory: Seq::empty(),
        },
        factsheet: fresh_fact_sheet(Seq::empty()),
        architect: fresh_architect(),
        backend: fresh_backend_developer(),
        user_request,
        stage: ManagerStage::Goal,
        failure: None,
    }
}

impl ManagingAgent {
    /// The manager of a run for the user's request `usr_req`: nothing is
    /// known of the project yet, and no stage has started.
    pub fn new(usr_req: String) -> (manager: Self)
        ensures
            manager@ == fresh_manager(usr_req@),
            manager@.wf(),
    {
        let attributes = BasicAgent::new(
            String::from_str("Manage agents who are building an excellent website for the user"),
            String::from_str("Project Manager"),
        );
        Self {
            attributes,
            factsheet: FactSheet::new(String::new()),
            architect: AgentSolutionArchitect::new(),
            backend: AgentBackendDeveloper::new(),
            user_request: usr_req,
            stage: ManagerStage::Goal,
            failure: None,
        }
    }

    /// The role record of the manager.
    pub fn get_attributes_from_agent(&self) -> (attributes: &BasicAgent)
        ensures
            attributes@ == self@.attributes,
    {
        &self.attributes
    }

    /// The fact sheet as the stages have left it.
    pub fn factsheet(&self) -> (factsheet: &FactSheet)
        ensures
            factsheet@ == self@.factsheet,
    {
        &self.factsheet
    }

    /// The stage at work.
    pub fn stage(&self) -> (stage: ManagerStage)
        ensures
            stage == self@.stage,
    {
        self.stage
    }

    /// Why the run was given up, if it was.
    pub fn failure(&self) -> (failure: Option<Abort>)
        ensures
            failure == self@.failure,
    {
        self.failure
    }

    /// Tells whether the manager is well formed. Every manager that `new`
    /// gives and `step` leaves is.
    pub fn is_well_formed(&self) -> (ok: bool)
        ensures
            ok == self@.wf(),
    {
        self.backend.is_well_formed()
    }

    /// The position of the agent at work, under which the driver announces
    /// what it does.
    pub fn position_at_work(&self) -> (position: &String)
        ensures
            position@ == match self@.stage {
                ManagerStage::Scope => self@.architect.attributes.position,
                ManagerStage::Development => self@.backend.attributes.position,
                _ => self@.attributes.position,
            },
    {
        match self.stage {
            ManagerStage::Scope => self.architect.get_attributes_from_agent().get_position(),
            ManagerStage::Development => self.backend.get_attributes_from_agent().get_position(),
            _ => self.attributes.get_position(),
        }
    }

    /// Takes stock after the backend developer has made a step.
    fn settle_development(&mut self, step: Step) -> (next: Step)
        ensures
            (final(self)@, next@) == after_development(
                old(self)@,
                (old(self)@.backend, old(self)@.factsheet, step@),
            ),
    {
        match step.action {
            Action::Finish => {
                self.stage = ManagerStage::Done;
            },
            Action::Abort(reason) => {
                self.failure = Some(reason);
            },
            _ => {},
        }
        step
    }

    /// Takes what the driver hands back and decides what comes next, by
    /// handing it to the stage at work.
    pub fn step(&mut self, event: Event) -> (next: Step)
        requires
            old(self)@.wf(),
        ensures
            final(self)@.wf(),
            (final(self)@, next@) == manager_step(old(self)@, event@),
    {
        if let Some(reason) = self.failure {
            return quiet_step(Action::Abort(reason));
        }
        match self.stage {
            ManagerStage::Goal => match event {
                Event::Start => {
                    self.stage = ManagerStage::GoalCompletion;
                    quiet_step(
                        Action::RunTask {
                            context: self.user_request.clone(),
                            task: AiFunction::ConvertUserInputToGoal,
                        },
                    )
                },
                _ => {
                    self.failure = Some(Abort::UnexpectedEvent);
                    quiet_step(Action::Abort(Abort::UnexpectedEvent))
                },
            },
            ManagerStage::GoalCompletion => match event {
                Event::Text(goal) => {
                    self.factsheet.project_description = goal;
                    self.stage = ManagerStage::Scope;
                    self.step_scope(Event::Start)
                },
                _ => {
                    self.failure = Some(Abort::UnexpectedEvent);
                    quiet_step(Action::Abort(Abort::UnexpectedEvent))
                },
            },
            ManagerStage::Scope => self.step_scope(event),
            ManagerStage::Development => {
                let step = self.backend.step(&mut self.factsheet, event);
                self.settle_development(step)
            },
            ManagerStage::Done => quiet_step(Action::Finish),
        }
    }

    /// Hands an event to the architect and takes stock.
    fn step_scope(&mut self, event: Event) -> (next: Step)
        requires
            old(self)@.wf(),
        ensures
            final(self)@.wf(),
            (final(self)@, next@) == after_scope(
                old(self)@,
                architect_step(old(self)@.architect, old(self)@.factsheet, event@),
            ),
    {
        let step = self.architect.step(&mut self.factsheet, event);
        match step.action {
            Action::Finish => {
                self.stage = ManagerStage::Development;
                let first = self.backend.step(&mut self.factsheet, Event::Start);
                self.settle_development(first)
            },
            Action::Abort(reason) => {
                self.failure = Some(reason);
                step
            },
            _ => step,
        }
    }
}

/// The stages run in their order: no step takes the manager back to an
/// earlier stage.
pub proof fn lemma_stages_run_in_order(manager: ManagingAgentView, event: EventView)
    ensures
        stage_rank(manager.stage) <= stage_rank(manager_step(manager, event).0.stage),
{
}

/// The fact sheet is lent to one stage at a time: while the architect is at
/// work nothing of the backend developer changes, and once the backend
/// developer is at work nothing of the architect does.
pub proof fn lemma_one_stage_at_work(manager: ManagingAgentView, event: EventView)
    ensures
        ({
            let next = manager_step(manager, event).0;
            &&& next.stage == ManagerStage::Scope ==> next.backend == manager.backend
            &&& manager.stage == ManagerStage::Development || manager.stage == ManagerStage::Done
                ==> next.architect == manager.architect
            &&& stage_rank(next.stage) <= 1 ==> next.architect == manager.architect
                && next.backend == manager.backend && next.factsheet == manager.factsheet
        }),
{
}

/// The backend developer starts only once the architect has finished, and
/// on the fact sheet as the architect has left it.
pub proof fn lemma_development_follows_scope(manager: ManagingAgentView, event: EventView)
    requires
        manager.failure is None,
        stage_rank(manager.stage) < stage_rank(ManagerStage::Development),
        stage_rank(manager_step(manager, event).0.stage) >= stage_rank(ManagerStage::Development),
    ensures
        ({
            let scope_stage = if manager.stage == ManagerStage::GoalCompletion {
                architect_step(
                    manager.architect,
                    FactSheetView { project_description: event->Text_0, ..manager.factsheet },
                    EventView::Start,
                )
            } else {
                architect_step(manager.architect, manager.factsheet, event)
            };
            let next = manager_step(manager, event).0;
            &&& manager.stage == ManagerStage::Scope || manager.stage
                == ManagerStage::GoalCompletion
            &&& scope_stage.2.action is Finish
            &&& next.architect == scope_stage.0
            &&& (next.backend, next.factsheet) == ({
                let started = backend_step(manager.backend, scope_stage.1, EventView::Start);
                (started.0, started.1)
            })
        }),
{
}

/// A stage that gives the run up gives the whole run up: from then on every
/// step tells the driver so and changes nothing.
pub proof fn lemma_aborted_run_stays_aborted(manager: ManagingAgentView, event: EventView)
    requires
        manager.failure is Some,
    ensures
        manager_step(manager, event) == (manager, quiet(ActionView::Abort(manager.failure->0))),
{
}

/// A step tells the driver to give up exactly when it leaves the run given
/// up, and to finish only when every stage has finished.
pub proof fn lemma_abort_and_finish_are_final(manager: ManagingAgentView, event: EventView)
    requires
        manager.wf(),
    ensures
        ({
            let (next, step) = manager_step(manager, event);
            &&& step.action matches ActionView::Abort(reason) ==> next.failure == Some(reason)
            &&& step.action is Finish ==> next.stage == ManagerStage::Done
            &&& manager.failure is None && next.failure is Some ==> step.action is Abort
        }),
{
}

} // verus!
