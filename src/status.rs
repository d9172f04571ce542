//! The state of each agent: running or idle.
use vstd::prelude::*;

use std::collections::HashMap;

verus! {

broadcast use vstd::std_specs::hash::group_hash_axioms;

#[derive(Clone, Copy, Debug, PartialEq, Eq, Structural)]
pub enum AgentState {
    Running,
    Idle,
}

/// Records `state` for the agent `agent_id`.
pub fn set_status(statuses: &mut HashMap<usize, AgentState>, agent_id: usize, state: AgentState)
    ensures
        final(statuses)@ == old(statuses)@.insert(agent_id, state),
{
    statuses.insert(agent_id, state);
}

/// Marks an agent as running for as long as it lives;
/// [`StatusGuard::release`] marks it idle again.
pub struct StatusGuard {
    agent_id: usize,
}

impl StatusGuard {
    pub closed spec fn spec_agent_id(&self) -> usize {
        self.agent_id
    }

    pub fn new(agent_id: usize, statuses: &mut HashMap<usize, AgentState>) -> (r: StatusGuard)
        ensures
            r.spec_agent_id() == agent_id,
            final(statuses)@ == old(statuses)@.insert(agent_id, AgentState::Running),
    {
        set_status(statuses, agent_id, AgentState::Running);
        StatusGuard { agent_id }
    }

    pub fn agent_id(&self) -> (r: usize)
        ensures
            r == self.spec_agent_id(),
    {
        self.agent_id
    }

    /// Marks the guarded agent as idle.
    pub fn release(self, statuses: &mut HashMap<usize, AgentState>)
        ensures
            final(statuses)@ == old(statuses)@.insert(self.spec_agent_id(), AgentState::Idle),
    {
        set_status(statuses, self.agent_id, AgentState::Idle);
    }
}

} // verus!
