//! The role record of an agent.

use vstd::prelude::*;

verus! {

/// Where a stage agent stands in its work.
#[derive(Debug, Clone, Copy, PartialEq, Eq, Structural)]
pub enum AgentState {
    Discovery,
    Working,
    UnitTesting,
    Finished,
}

/// The role record that every stage agent carries.
#[derive(Debug)]
pub struct BasicAgent {
    pub objective: String,
    pub position: String,
    pub state: AgentState,
    pub memory: Vec<String>,
}

/// A `BasicAgent` as plain values.
pub struct BasicAgentView {
    pub objective: Seq<char>,
    pub position: Seq<char>,
    pub state: AgentState,
    pub memory: Seq<Seq<char>>,
}

impl View for BasicAgent {
    type V = BasicAgentView;

    open spec fn view(&self) -> BasicAgentView {
        BasicAgentView {
            objective: self.objective@,
            position: self.position@,
            state: self.state,
            memory: self.memory.deep_view(),
        }
    }
}

impl BasicAgent {
    /// A fresh agent: it starts in `Discovery` and remembers nothing.
    pub fn new(objective: String, position: String) -> (agent: Self)
        ensures
            agent@ == (BasicAgentView {
                objective: objective@,
                position: position@,
                state: AgentState::Discovery,
                memory: Seq::empty(),
            }),
    {
        let agent = Self { objective, position, state: AgentState::Discovery, memory: Vec::new() };
        assert(agent.memory.deep_view() =~= Seq::<Seq<char>>::empty());
        agent
    }

    pub fn update_state(&mut self, new_state: AgentState)
        ensures
            final(self)@ == (BasicAgentView { state: new_state, ..old(self)@ }),
    {
        self.state = new_state;
    }

    pub fn get_objective(&self) -> (objective: &String)
        ensures
            objective@ == self@.objective,
    {
        &self.objective
    }

    pub fn get_position(&self) -> (position: &String)
        ensures
            position@ == self@.position,
    {
        &self.position
    }

    pub fn get_memory(&self) -> (memory: &Vec<String>)
        ensures
            memory.deep_view() == self@.memory,
    {
        &self.memory
    }

    pub fn get_state(&self) -> (state: &AgentState)
        ensures
            *state == self@.state,
    {
        &self.state
    }
}

} // verus!
