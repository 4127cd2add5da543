//! The scope-analysis stage.

use crate::ai_functions::AiFunction;
use crate::models::agents::agents_traits::{
    quiet, quiet_step, Abort, Action, ActionView, Event, EventView, FactSheet, FactSheetView,
    Step, StepView,
};
use crate::models::agents_basic::basic_agent::{AgentState, BasicAgent, BasicAgentView};
use vstd::prelude::*;
use vstd::string::StringExecFns;

verus! {

/// What the architect has asked for and not yet been handed.
#[derive(Debug, Clone, Copy, PartialEq, Eq, Structural)]
pub enum ArchitectWaiting {
    /// For the word to start.
    Start,
    /// For the answer to the question of scope.
    ScopeCompletion,
    /// For that answer, decoded.
    Scope,
    /// For the answer to the question of outside addresses.
    UrlsCompletion,
    /// For that answer, decoded.
    Urls,
    /// For nothing: the stage is over.
    Nothing,
}

/// The stage that analyses the scope of the project: one pass, which fills
/// in the scope and, where the scope asks for them, the outside addresses.
#[derive(Debug)]
pub struct AgentSolutionArchitect {
    attributes: BasicAgent,
    waiting: ArchitectWaiting,
    failure: Option<Abort>,
}

/// An `AgentSolutionArchitect` as plain values.
pub struct AgentSolutionArchitectView {
    pub attributes: BasicAgentView,
    pub waiting: ArchitectWaiting,
    /// Why the run was given up, if it was.
    pub failure: Option<Abort>,
}

impl View for AgentSolutionArchitect {
    type V = AgentSolutionArchitectView;

    closed spec fn view(&self) -> AgentSolutionArchitectView {
        AgentSolutionArchitectView {
            attributes: self.attributes@,
            waiting: self.waiting,
            failure: self.failure,
        }
    }
}

/// The architect as it gives the run up for `reason`.
pub open spec fn architect_given_up(agent: AgentSolutionArchitectView, reason: Abort) -> (
    AgentSolutionArchitectView,
    StepView,
) {
    (
        AgentSolutionArchitectView {
            failure: Some(reason),
            waiting: ArchitectWaiting::Nothing,
            ..agent
        },
        quiet(ActionView::Abort(reason)),
    )
}

/// The architect at the end of its pass.
pub open spec fn architect_finished(agent: AgentSolutionArchitectView) -> AgentSolutionArchitectView {
    AgentSolutionArchitectView {
        attributes: BasicAgentView { state: AgentState::Finished, ..agent.attributes },
        waiting: ArchitectWaiting::Nothing,
        ..agent
    }
}

/// One decision of the architect. It asks for the scope of the project
/// described in the fact sheet and stores it; where the scope says that
/// outside addresses are required it asks for those as well and stores
/// them. An answer that does not decode, and an event that does not answer
/// what the architect waits for, give the run up.
pub open spec fn architect_step(
    agent: AgentSolutionArchitectView,
    sheet: FactSheetView,
    event: EventView,
) -> (AgentSolutionArchitectView, FactSheetView, StepView) {
    if agent.failure is Some {
        (agent, sheet, quiet(ActionView::Abort(agent.failure->0)))
    } else {
        match (agent.waiting, event) {
            (ArchitectWaiting::Nothing, _) => (agent, sheet, quiet(ActionView::Finish)),
            (ArchitectWaiting::Start, EventView::Start) => (
                AgentSolutionArchitectView { waiting: ArchitectWaiting::ScopeCompletion, ..agent },
                sheet,
                quiet(
                    ActionView::RunTask {
                        context: sheet.project_description,
                        task: AiFunction::PrintProjectScope,
                    },
                ),
            ),
            (ArchitectWaiting::ScopeCompletion, EventView::Text(reply)) => (
                AgentSolutionArchitectView { waiting: ArchitectWaiting::Scope, ..agent },
                sheet,
                quiet(ActionView::DecodeScope(reply)),
            ),
            (ArchitectWaiting::Scope, EventView::Scope(Some(scope))) => if scope.is_external_urls_required {
                (
                    AgentSolutionArchitectView {
                        waiting: ArchitectWaiting::UrlsCompletion,
                        ..agent
                    },
                    FactSheetView { project_scope: scope, ..sheet },
                    quiet(
                        ActionView::RunTask {
                            context: sheet.project_description,
                            task: AiFunction::PrintSiteUrls,
                        },
                    ),
                )
            } else {
                (
                    architect_finished(agent),
                    FactSheetView { project_scope: scope, ..sheet },
                    quiet(ActionView::Finish),
                )
            },
            (ArchitectWaiting::Scope, EventView::Scope(None)) => {
                let (next, step) = architect_given_up(
                    agent,
                    Abort::Decode(AiFunction::PrintProjectScope),
                );
                (next, sheet, step)
            },
            (ArchitectWaiting::UrlsCompletion, EventView::Text(reply)) => (
                AgentSolutionArchitectView { waiting: ArchitectWaiting::Urls, ..agent },
                sheet,
                quiet(ActionView::DecodeUrls(reply)),
            ),
            (ArchitectWaiting::Urls, EventView::Urls(Some(urls))) => (
                architect_finished(agent),
                FactSheetView { external_urls: urls, ..sheet },
                quiet(ActionView::Finish),
            ),
            (ArchitectWaiting::Urls, EventView::Urls(None)) => {
                let (next, step) = architect_given_up(
                    agent,
                    Abort::Decode(AiFunction::PrintSiteUrls),
                );
                (next, sheet, step)
            },
            _ => {
                let (next, step) = architect_given_up(agent, Abort::UnexpectedEvent);
                (next, sheet, step)
            },
        }
    }
}

/// The architect before its pass.
pub open spec fn fresh_architect() -> AgentSolutionArchitectView {
    AgentSolutionArchitectView {
        attributes: BasicAgentView {
            objective: "Gathers information and design solutions for website development"@,
            position: "Solutions Architect"@,
            state: AgentState::Discovery,
            memory: Seq::empty(),
        },
        waiting: ArchitectWaiting::Start,
        failure: None,
    }
}

impl AgentSolutionArchitect {
    /// The architect before its pass.
    pub fn new() -> (agent: Self)
        ensures
            agent@ == fresh_architect(),
    {
        let attributes = BasicAgent::new(
            String::from_str("Gathers information and design solutions for website development"),
            String::from_str("Solutions Architect"),
        );
        Self { attributes, waiting: ArchitectWaiting::Start, failure: None }
    }

    /// The role record of the agent.
    pub fn get_attributes_from_agent(&self) -> (attributes: &BasicAgent)
        ensures
            attributes@ == self@.attributes,
    {
        &self.attributes
    }

    /// What the architect waits for.
    pub fn waiting(&self) -> (waiting: ArchitectWaiting)
        ensures
            waiting == self@.waiting,
    {
        self.waiting
    }

    /// Why the run was given up, if it was.
    pub fn failure(&self) -> (failure: Option<Abort>)
        ensures
            failure == self@.failure,
    {
        self.failure
    }

    /// Gives the run up for `reason`.
    fn give_up(&mut self, reason: Abort) -> (step: Step)
        ensures
            (final(self)@, step@) == architect_given_up(old(self)@, reason),
    {
        self.failure = Some(reason);
        self.waiting = ArchitectWaiting::Nothing;
        quiet_step(Action::Abort(reason))
    }

    /// Ends the pass.
    fn finish(&mut self) -> (step: Step)
        ensures
            final(self)@ == architect_finished(old(self)@),
            step@ == quiet(ActionView::Finish),
    {
        self.attributes.state = AgentState::Finished;
        self.waiting = ArchitectWaiting::Nothing;
        quiet_step(Action::Finish)
    }

    /// Takes what the driver hands back and decides what comes next.
    pub fn step(&mut self, factsheet: &mut FactSheet, event: Event) -> (next: Step)
        ensures
            (final(self)@, final(factsheet)@, next@) == architect_step(
                old(self)@,
                old(factsheet)@,
                event@,
            ),
    {
        if let Some(reason) = self.failure {
            return quiet_step(Action::Abort(reason));
        }
        match self.waiting {
            ArchitectWaiting::Nothing => quiet_step(Action::Finish),
            ArchitectWaiting::Start => match event {
                Event::Start => {
                    self.waiting = ArchitectWaiting::ScopeCompletion;
                    quiet_step(
                        Action::RunTask {
                            context: factsheet.project_description.clone(),
                            task: AiFunction::PrintProjectScope,
                        },
                    )
                },
                _ => self.give_up(Abort::UnexpectedEvent),
            },
            ArchitectWaiting::ScopeCompletion => match event {
                Event::Text(reply) => {
                    self.waiting = ArchitectWaiting::Scope;
                    quiet_step(Action::DecodeScope(reply))
                },
                _ => self.give_up(Abort::UnexpectedEvent),
            },
            ArchitectWaiting::Scope => match event {
                Event::Scope(Some(scope)) => {
                    factsheet.project_scope = scope;
                    if scope.is_external_urls_required {
                        self.waiting = ArchitectWaiting::UrlsCompletion;
                        quiet_step(
                            Action::RunTask {
                                context: factsheet.project_description.clone(),
                                task: AiFunction::PrintSiteUrls,
                            },
                        )
                    } else {
                        self.finish()
                    }
                },
                Event::Scope(None) => self.give_up(Abort::Decode(AiFunction::PrintProjectScope)),
                _ => self.give_up(Abort::UnexpectedEvent),
            },
            ArchitectWaiting::UrlsCompletion => match event {
                Event::Text(reply) => {
                    self.waiting = ArchitectWaiting::Urls;
                    quiet_step(Action::DecodeUrls(reply))
                },
                _ => self.give_up(Abort::UnexpectedEvent),
            },
            ArchitectWaiting::Urls => match event {
                Event::Urls(Some(urls)) => {
                    factsheet.external_urls = urls;
                    self.finish()
                },
                Event::Urls(None) => self.give_up(Abort::Decode(AiFunction::PrintSiteUrls)),
                _ => self.give_up(Abort::UnexpectedEvent),
            },
        }
    }
}

} // verus!
