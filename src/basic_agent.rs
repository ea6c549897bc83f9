use vstd::prelude::*;

use crate::message::Message;

verus! {

/// Lifecycle of an agent. `Finished` is terminal.
#[derive(Debug, Clone, Copy, PartialEq, Eq, Structural)]
pub enum AgentState {
    Discovery,
    Working,
    UnitTesting,
    Finished,
}

/// The fields that every agent carries.
#[derive(Debug)]
pub struct BasicAgent {
    pub objective: String,
    pub position: String,
    pub state: AgentState,
    pub memory: Vec<Message>,
}

impl BasicAgent {
    /// A fresh agent in `Discovery` with an empty memory.
    pub fn new(objective: String, position: String) -> (a: BasicAgent)
        ensures
            a.objective == objective,
            a.position == position,
            a.state == AgentState::Discovery,
            a.memory@.len() == 0,
    {
        BasicAgent { objective, position, state: AgentState::Discovery, memory: Vec::new() }
    }

    pub fn update_state(&mut self, new_state: AgentState)
        ensures
            final(self).state == new_state,
            final(self).objective == old(self).objective,
            final(self).position == old(self).position,
            final(self).memory == old(self).memory,
    {
        self.state = new_state;
    }

    pub fn get_objective(&self) -> (r: &String)
        ensures
            *r == self.objective,
    {
        &self.objective
    }

    pub fn get_position(&self) -> (r: &String)
        ensures
            *r == self.position,
    {
        &self.position
    }

    pub fn get_state(&self) -> (r: &AgentState)
        ensures
            *r == self.state,
    {
        &self.state
    }

    pub fn get_memory(&self) -> (r: &Vec<Message>)
        ensures
            *r == self.memory,
    {
        &self.memory
    }
}

} // verus!
