//! Agents, their tools, and the set of agents that are running.
use vstd::prelude::*;

use crate::json::Json;

verus! {

/// Result of running an [`Agent`] on a task.
#[derive(Debug, PartialEq, Eq)]
pub enum ExecutionResult {
    Success { comment: String },
    Failure { comment: String },
}

impl ExecutionResult {
    pub open spec fn is_success(&self) -> bool {
        self is Success
    }

    pub open spec fn comment_view(&self) -> Seq<char> {
        match self {
            ExecutionResult::Success { comment } => comment@,
            ExecutionResult::Failure { comment } => comment@,
        }
    }

    /// The comment that the result carries.
    pub fn comment(&self) -> (r: &String)
        ensures
            r@ == self.comment_view(),
    {
        match self {
            ExecutionResult::Success { comment } => comment,
            ExecutionResult::Failure { comment } => comment,
        }
    }
}

/// Describes an available tool for the language model.
#[derive(Debug)]
pub struct FunctionDeclaration {
    pub name: String,
    pub description: Option<String>,
    pub parameters: Json,
}

/// Configuration for an autonomous agent.
#[derive(Debug)]
pub struct Agent {
    pub id: usize,
    pub system_prompt: String,
    pub tools: Vec<FunctionDeclaration>,
    pub model: String,
    pub provider: Option<String>,
    pub schedule: Option<String>,
    pub repeat: bool,
}

/// The agent declares a tool named `name`.
pub open spec fn has_tool(agent: &Agent, name: Seq<char>) -> bool {
    exists|i: int| 0 <= i < agent.tools@.len() && #[trigger] agent.tools@[i].name@ == name
}

impl FunctionDeclaration {
    pub fn copy(&self) -> (r: FunctionDeclaration)
        ensures
            r.name@ == self.name@,
            r.description == self.description,
            r.parameters@ == self.parameters@,
    {
        FunctionDeclaration {
            name: self.name.clone(),
            description: self.description.clone(),
            parameters: self.parameters.copy(),
        }
    }
}

/// Whether the agent declares a tool named `name`.
pub fn declares_tool(agent: &Agent, name: &str) -> (r: bool)
    ensures
        r == has_tool(agent, name@),
{
    let mut i: usize = 0;
    while i < agent.tools.len()
        invariant
            i <= agent.tools@.len(),
            forall|j: int| 0 <= j < i ==> agent.tools@[j].name@ != name@,
        decreases agent.tools@.len() - i,
    {
        if crate::json::str_eq(agent.tools[i].name.as_str(), name) {
            return true;
        }
        i = i + 1;
    }
    false
}

/// Holds of every id but `id`.
pub open spec fn other_than(id: usize) -> spec_fn(usize) -> bool {
    |x: usize| x != id
}

/// The running-set after marking `id` as running (`running`) or idle.
pub open spec fn running_after(ids: Seq<usize>, id: usize, running: bool) -> Seq<usize> {
    if running {
        if ids.contains(id) {
            ids
        } else {
            ids.push(id)
        }
    } else {
        ids.filter(other_than(id))
    }
}

fn contains_id(ids: &Vec<usize>, id: usize) -> (r: bool)
    ensures
        r == ids@.contains(id),
{
    let mut i: usize = 0;
    while i < ids.len()
        invariant
            i <= ids@.len(),
            forall|j: int| 0 <= j < i ==> ids@[j] != id,
        decreases ids@.len() - i,
    {
        if ids[i] == id {
            assert(ids@[i as int] == id);
            return true;
        }
        i = i + 1;
    }
    false
}

/// Marks the agent `id` as running or idle in the running-set `ids`.
pub fn set_agent_running(ids: &mut Vec<usize>, id: usize, running: bool)
    ensures
        final(ids)@ == running_after(old(ids)@, id, running),
        final(ids)@.contains(id) == running,
        forall|x: usize| x != id ==> (final(ids)@.contains(x) == old(ids)@.contains(x)),
{
    if running {
        if !contains_id(ids, id) {
            ids.push(id);
            assert(ids@[ids@.len() - 1] == id);
            assert forall|x: usize| x != id implies (ids@.contains(x) == old(ids)@.contains(x)) by {
                if old(ids)@.contains(x) {
                    let k = choose|k: int| 0 <= k < old(ids)@.len() && old(ids)@[k] == x;
                    assert(ids@[k] == x);
                }
                if ids@.contains(x) {
                    let k = choose|k: int| 0 <= k < ids@.len() && ids@[k] == x;
                    assert(old(ids)@[k] == x);
                }
            }
        }
    } else {
        let ghost before = ids@;
        let mut kept: Vec<usize> = Vec::new();
        let mut i: usize = 0;
        while i < ids.len()
            invariant
                ids@ == before,
                i <= ids@.len(),
                kept@ == before.subrange(0, i as int).filter(other_than(id)),
            decreases ids@.len() - i,
        {
            proof {
                before.subrange(0, i as int).lemma_filter_push(before[i as int], other_than(id));
                assert(before.subrange(0, i as int).push(before[i as int]) =~= before.subrange(0, i as int + 1));
            }
            if ids[i] != id {
                kept.push(ids[i]);
            }
            i = i + 1;
        }
        assert(before.subrange(0, before.len() as int) =~= before);
        *ids = kept;
        proof {
            broadcast use vstd::seq_lib::group_filter_ensures;
            broadcast use vstd::seq::Seq::lemma_filter_contains_rev;
            assert forall|x: usize| x != id implies (ids@.contains(x) == before.contains(x)) by {
                if before.contains(x) {
                    let k = choose|k: int| 0 <= k < before.len() && before[k] == x;
                    assert(other_than(id)(before[k]));
                    assert(ids@.contains(before[k]));
                }
            }
            if ids@.contains(id) {
                let k = choose|k: int| 0 <= k < ids@.len() && ids@[k] == id;
                assert(other_than(id)(ids@[k]));
            }
        }
    }
}

/// Creating a guard and releasing it leaves the id out of the running-set,
/// and every other id as it was; while the guard lives the id is in the set.
pub proof fn lemma_guard_round_trip(ids: Seq<usize>, id: usize)
    ensures
        running_after(ids, id, true).contains(id),
        !running_after(running_after(ids, id, true), id, false).contains(id),
        forall|x: usize|
            x != id ==> (running_after(running_after(ids, id, true), id, false).contains(x) == ids.contains(x)),
{
    broadcast use vstd::seq_lib::group_filter_ensures;
    broadcast use vstd::seq::Seq::lemma_filter_contains_rev;

    let marked = running_after(ids, id, true);
    if !ids.contains(id) {
        assert(ids.push(id)[ids.len() as int] == id);
    }
    assert forall|x: usize| x != id implies (marked.contains(x) == ids.contains(x)) by {
        if ids.contains(x) && !ids.contains(id) {
            let k = choose|k: int| 0 <= k < ids.len() && ids[k] == x;
            assert(marked[k] == x);
        }
        if marked.contains(x) && !ids.contains(id) {
            let k = choose|k: int| 0 <= k < marked.len() && marked[k] == x;
            assert(k < ids.len());
            assert(ids[k] == x);
        }
    }
    let released = marked.filter(other_than(id));
    if released.contains(id) {
        let k = choose|k: int| 0 <= k < released.len() && released[k] == id;
        assert(other_than(id)(released[k]));
    }
    assert forall|x: usize| x != id implies (released.contains(x) == marked.contains(x)) by {
        if marked.contains(x) {
            let k = choose|k: int| 0 <= k < marked.len() && marked[k] == x;
            assert(other_than(id)(marked[k]));
        }
    }
}

/// Marks an agent id as running for as long as it lives; [`RunningAgentGuard::release`]
/// marks it idle again.
pub struct RunningAgentGuard {
    id: usize,
}

impl RunningAgentGuard {
    pub closed spec fn spec_id(&self) -> usize {
        self.id
    }

    /// Marks `id` as running in `ids` and returns the guard that will mark it idle.
    pub fn new(id: usize, ids: &mut Vec<usize>) -> (r: RunningAgentGuard)
        ensures
            r.spec_id() == id,
            final(ids)@ == running_after(old(ids)@, id, true),
            final(ids)@.contains(id),
    {
        set_agent_running(ids, id, true);
        RunningAgentGuard { id }
    }

    pub fn id(&self) -> (r: usize)
        ensures
            r == self.spec_id(),
    {
        self.id
    }

    /// Marks the guarded id as idle in `ids`.
    pub fn release(self, ids: &mut Vec<usize>)
        ensures
            final(ids)@ == running_after(old(ids)@, self.spec_id(), false),
            !final(ids)@.contains(self.spec_id()),
    {
        set_agent_running(ids, self.id, false);
    }
}

/// Removes the agent `id` from the list; the list is unchanged where no agent has that id.
pub fn delete_agent(agents: &mut Vec<Agent>, id: usize)
    ensures
        (exists|i: int| 0 <= i < old(agents)@.len() && old(agents)@[i].id == id) ==> exists|p: int|
            0 <= p < old(agents)@.len() && old(agents)@[p].id == id && (forall|j: int|
                0 <= j < p ==> old(agents)@[j].id != id) && final(agents)@ == old(agents)@.remove(p),
        (forall|i: int| 0 <= i < old(agents)@.len() ==> old(agents)@[i].id != id) ==> final(agents)@
            == old(agents)@,
{
    let mut i: usize = 0;
    while i < agents.len()
        invariant
            i <= agents@.len(),
            agents@ == old(agents)@,
            forall|j: int| 0 <= j < i ==> agents@[j].id != id,
        decreases agents@.len() - i,
    {
        if agents[i].id == id {
            agents.remove(i);
            return;
        }
        i = i + 1;
    }
}

/// The agent after an update: each given field replaced, the others kept.
pub open spec fn agent_updated(
    before: Agent,
    after: Agent,
    prompt: Option<String>,
    tools: Option<Vec<FunctionDeclaration>>,
    model: Option<String>,
    provider: Option<Option<String>>,
) -> bool {
    &&& after.id == before.id
    &&& after.system_prompt == match prompt {
        Some(p) => p,
        None => before.system_prompt,
    }
    &&& after.tools == match tools {
        Some(t) => t,
        None => before.tools,
    }
    &&& after.model == match model {
        Some(m) => m,
        None => before.model,
    }
    &&& after.provider == match provider {
        Some(p) => p,
        None => before.provider,
    }
    &&& after.schedule == before.schedule
    &&& after.repeat == before.repeat
}

/// Updates the first agent with id `id`; the list is unchanged where no agent has that id.
pub fn update_agent(
    agents: &mut Vec<Agent>,
    id: usize,
    prompt: Option<String>,
    tools: Option<Vec<FunctionDeclaration>>,
    model: Option<String>,
    provider: Option<Option<String>>,
)
    ensures
        final(agents)@.len() == old(agents)@.len(),
        (forall|j: int| 0 <= j < old(agents)@.len() ==> old(agents)@[j].id != id) ==> final(agents)@
            == old(agents)@,
        forall|p: int|
            0 <= p < old(agents)@.len() && old(agents)@[p].id == id && (forall|j: int|
                0 <= j < p ==> old(agents)@[j].id != id) ==> {
                &&& agent_updated(old(agents)@[p], final(agents)@[p], prompt, tools, model, provider)
                &&& forall|j: int|
                    0 <= j < old(agents)@.len() && j != p ==> final(agents)@[j] == old(agents)@[j]
            },
{
    let mut i: usize = 0;
    while i < agents.len()
        invariant
            agents@ == old(agents)@,
            i <= agents@.len(),
            forall|j: int| 0 <= j < i ==> agents@[j].id != id,
        decreases agents@.len() - i,
    {
        if agents[i].id == id {
            let mut a = agents.remove(i);
            if let Some(p) = prompt {
                a.system_prompt = p;
            }
            if let Some(t) = tools {
                a.tools = t;
            }
            if let Some(m) = model {
                a.model = m;
            }
            if let Some(pv) = provider {
                a.provider = pv;
            }
            agents.insert(i, a);
            proof {
                assert forall|p: int|
                    0 <= p < old(agents)@.len() && old(agents)@[p].id == id && (forall|j: int|
                        0 <= j < p ==> old(agents)@[j].id != id) implies p == i by {
                    if p > i {
                        assert(old(agents)@[i as int].id != id);
                    }
                }
            }
            return;
        }
        i = i + 1;
    }
}

/// The largest id among the first `n` agents, or 0.
pub open spec fn max_agent_id(agents: Seq<Agent>, n: int) -> int
    decreases n,
{
    if n <= 0 {
        0
    } else if agents[n - 1].id as int > max_agent_id(agents, n - 1) {
        agents[n - 1].id as int
    } else {
        max_agent_id(agents, n - 1)
    }
}

proof fn lemma_max_agent_id(agents: Seq<Agent>, n: int)
    requires
        0 <= n <= agents.len(),
    ensures
        forall|k: int| 0 <= k < n ==> agents[k].id <= max_agent_id(agents, n),
        max_agent_id(agents, n) == 0 || exists|k: int| 0 <= k < n && agents[k].id == max_agent_id(agents, n),
    decreases n,
{
    if n > 0 {
        lemma_max_agent_id(agents, n - 1);
    }
}

/// The id for a new agent: one more than the largest, so ids keep growing after a deletion.
pub fn next_agent_id(agents: &Vec<Agent>) -> (r: usize)
    requires
        forall|k: int| 0 <= k < agents@.len() ==> #[trigger] agents@[k].id < usize::MAX,
    ensures
        r == max_agent_id(agents@, agents@.len() as int) + 1,
        forall|k: int| 0 <= k < agents@.len() ==> #[trigger] agents@[k].id < r,
{
    let mut m: usize = 0;
    let mut i: usize = 0;
    while i < agents.len()
        invariant
            i <= agents@.len(),
            m == max_agent_id(agents@, i as int),
        decreases agents@.len() - i,
    {
        if agents[i].id > m {
            m = agents[i].id;
        }
        i = i + 1;
    }
    proof {
        lemma_max_agent_id(agents@, agents@.len() as int);
    }
    m + 1
}

} // verus!
