//! What one scheduler firing decides: which tasks run, and how their results
//! and a one-shot schedule are written back.
use vstd::prelude::*;

use crate::agent::{Agent, ExecutionResult};
use crate::store::{Board, Task, TaskStatus};

verus! {

/// The task is assigned to the agent and not done.
pub open spec fn is_open_for(t: Task, agent_id: usize) -> bool {
    t.agent_id == Some(agent_id) && t.status != TaskStatus::Done
}

/// The ids of the tasks among the first `n` that are open for the agent, in board order.
pub open spec fn open_ids(tasks: Seq<Task>, agent_id: usize, n: int) -> Seq<usize>
    decreases n,
{
    if n <= 0 {
        Seq::empty()
    } else if is_open_for(tasks[n - 1], agent_id) {
        open_ids(tasks, agent_id, n - 1).push(tasks[n - 1].id)
    } else {
        open_ids(tasks, agent_id, n - 1)
    }
}

/// The ids of the tasks to run for the agent in one firing; none means a
/// heartbeat run without a task.
pub fn open_tasks(board: &Board, agent_id: usize) -> (r: Vec<usize>)
    ensures
        r@ == open_ids(board.tasks@, agent_id, board.tasks@.len() as int),
{
    let mut out: Vec<usize> = Vec::new();
    let mut i: usize = 0;
    while i < board.tasks.len()
        invariant
            i <= board.tasks@.len(),
            out@ == open_ids(board.tasks@, agent_id, i as int),
        decreases board.tasks@.len() - i,
    {
        let t = &board.tasks[i];
        let open = match t.agent_id {
            Some(a) => a == agent_id && !(t.status == TaskStatus::Done),
            None => false,
        };
        if open {
            out.push(t.id);
        }
        i = i + 1;
    }
    out
}

/// What one firing runs for an agent.
pub enum FiringPlan {
    /// No open task: one run without a task.
    Heartbeat,
    /// One run per open task, all at once.
    Tasks { ids: Vec<usize> },
}

/// The runs of one firing: one per task open for the agent, or a single
/// heartbeat run where none is open.
pub fn plan_firing(board: &Board, agent_id: usize) -> (r: FiringPlan)
    ensures
        open_ids(board.tasks@, agent_id, board.tasks@.len() as int).len() == 0 <==> r is Heartbeat,
        r is Tasks ==> r->ids@ == open_ids(board.tasks@, agent_id, board.tasks@.len() as int),
{
    let ids = open_tasks(board, agent_id);
    if ids.len() == 0 {
        FiringPlan::Heartbeat
    } else {
        FiringPlan::Tasks { ids }
    }
}

/// `p` is the position of the first task with id `id`.
pub open spec fn first_task(tasks: Seq<Task>, id: usize, p: int) -> bool {
    &&& 0 <= p < tasks.len()
    &&& tasks[p].id == id
    &&& forall|j: int| 0 <= j < p ==> tasks[j].id != id
}

/// A task after a run of its agent: done with the comment on success; back
/// to do, with the comment and without its agent, on failure.
pub open spec fn task_updated(before: Task, after: Task, r: ExecutionResult) -> bool {
    &&& after.id == before.id
    &&& after.title == before.title
    &&& after.description == before.description
    &&& after.comment is Some
    &&& after.comment->0@ == r.comment_view()
    &&& r is Success ==> after.status == TaskStatus::Done && after.agent_id == before.agent_id
    &&& r is Failure ==> after.status == TaskStatus::ToDo && after.agent_id is None
}

/// Writes a run's result into the first task with id `task_id`; the board
/// is unchanged where no task has that id.
pub fn apply_result(board: &mut Board, task_id: usize, result: ExecutionResult)
    ensures
        final(board).tasks@.len() == old(board).tasks@.len(),
        (forall|j: int| 0 <= j < old(board).tasks@.len() ==> old(board).tasks@[j].id != task_id)
            ==> final(board).tasks@ == old(board).tasks@,
        forall|p: int|
            first_task(old(board).tasks@, task_id, p) ==> {
                &&& task_updated(old(board).tasks@[p], final(board).tasks@[p], result)
                &&& forall|j: int|
                    0 <= j < old(board).tasks@.len() && j != p ==> final(board).tasks@[j]
                        == old(board).tasks@[j]
            },
{
    let mut i: usize = 0;
    while i < board.tasks.len()
        invariant
            board.tasks@ == old(board).tasks@,
            i <= board.tasks@.len(),
            forall|j: int| 0 <= j < i ==> board.tasks@[j].id != task_id,
        decreases board.tasks@.len() - i,
    {
        if board.tasks[i].id == task_id {
            let mut t = board.tasks.remove(i);
            match result {
                ExecutionResult::Success { comment } => {
                    t.status = TaskStatus::Done;
                    t.comment = Some(comment);
                },
                ExecutionResult::Failure { comment } => {
                    t.status = TaskStatus::ToDo;
                    t.comment = Some(comment);
                    t.agent_id = None;
                },
            }
            board.tasks.insert(i, t);
            proof {
                assert forall|p: int| first_task(old(board).tasks@, task_id, p) implies p == i by {
                    if p < i {
                        assert(old(board).tasks@[p].id != task_id);
                    } else if p > i {
                        assert(old(board).tasks@[i as int].id != task_id);
                    }
                }
            }
            return;
        }
        i = i + 1;
    }
}


/// The agent has a cron schedule to register.
pub open spec fn has_schedule(a: Agent) -> bool {
    a.schedule is Some && a.schedule->0@.len() > 0
}

pub fn is_scheduled(agent: &Agent) -> (r: bool)
    ensures
        r == has_schedule(*agent),
{
    match &agent.schedule {
        Some(s) => s.as_str().unicode_len() > 0,
        None => false,
    }
}

/// `p` is the position of the first agent with id `id`.
pub open spec fn first_agent(agents: Seq<Agent>, id: usize, p: int) -> bool {
    &&& 0 <= p < agents.len()
    &&& agents[p].id == id
    &&& forall|j: int| 0 <= j < p ==> agents[j].id != id
}

/// After a one-shot firing: the first agent with id `agent_id` loses its
/// schedule and its repeat flag; every other field and agent stays.
pub fn clear_schedule(agents: &mut Vec<Agent>, agent_id: usize)
    ensures
        final(agents)@.len() == old(agents)@.len(),
        (forall|j: int| 0 <= j < old(agents)@.len() ==> old(agents)@[j].id != agent_id)
            ==> final(agents)@ == old(agents)@,
        forall|p: int|
            first_agent(old(agents)@, agent_id, p) ==> {
                &&& final(agents)@[p] == (Agent { schedule: None, repeat: false, ..old(agents)@[p] })
                &&& forall|j: int|
                    0 <= j < old(agents)@.len() && j != p ==> final(agents)@[j] == old(agents)@[j]
            },
{
    let mut i: usize = 0;
    while i < agents.len()
        invariant
            agents@ == old(agents)@,
            i <= agents@.len(),
            forall|j: int| 0 <= j < i ==> agents@[j].id != agent_id,
        decreases agents@.len() - i,
    {
        if agents[i].id == agent_id {
            let mut a = agents.remove(i);
            a.schedule = None;
            a.repeat = false;
            agents.insert(i, a);
            proof {
                assert forall|p: int| first_agent(old(agents)@, agent_id, p) implies p == i by {
                    if p < i {
                        assert(old(agents)@[p].id != agent_id);
                    } else if p > i {
                        assert(old(agents)@[i as int].id != agent_id);
                    }
                }
            }
            return;
        }
        i = i + 1;
    }
}
/// Whether the scheduler's cron parser accepts an expression.
pub uninterp spec fn cron_accepted(expr: Seq<char>) -> bool;

/// Relies on tokio_cron_scheduler::Job::new: it builds a job exactly when its
/// cron parser accepts the expression, which depends on the text alone.
#[verifier::external_body]
fn cron_parses(expr: &str) -> (r: bool)
    ensures
        r == cron_accepted(expr@),
{
    tokio_cron_scheduler::Job::new(expr, |_id, _lock| {}).is_ok()
}

/// Why a schedule was not set.
#[derive(Clone, Copy, Debug, PartialEq, Eq, Structural)]
pub enum ScheduleError {
    /// The cron expression does not parse.
    ScheduleParseError,
    /// No agent has the id.
    AgentNotFound,
}

/// Sets the cron schedule of the first agent with id `id`, one-shot where
/// `once` holds. An expression that does not parse is rejected before any
/// agent is looked at.
pub fn set_schedule(agents: &mut Vec<Agent>, id: usize, cron: String, once: bool) -> (r: Result<(), ScheduleError>)
    ensures
        !cron_accepted(cron@) ==> r == Err::<(), ScheduleError>(ScheduleError::ScheduleParseError)
            && final(agents)@ == old(agents)@,
        cron_accepted(cron@) && (forall|j: int| 0 <= j < old(agents)@.len() ==> old(agents)@[j].id != id)
            ==> r == Err::<(), ScheduleError>(ScheduleError::AgentNotFound) && final(agents)@ == old(agents)@,
        forall|p: int|
            cron_accepted(cron@) && first_agent(old(agents)@, id, p) ==> {
                &&& r is Ok
                &&& final(agents)@.len() == old(agents)@.len()
                &&& final(agents)@[p] == (Agent { schedule: Some(cron), repeat: !once, ..old(agents)@[p] })
                &&& forall|j: int|
                    0 <= j < old(agents)@.len() && j != p ==> final(agents)@[j] == old(agents)@[j]
            },
{
    if !cron_parses(cron.as_str()) {
        return Err(ScheduleError::ScheduleParseError);
    }
    let mut i: usize = 0;
    while i < agents.len()
        invariant
            cron_accepted(cron@),
            agents@ == old(agents)@,
            i <= agents@.len(),
            forall|j: int| 0 <= j < i ==> agents@[j].id != id,
        decreases agents@.len() - i,
    {
        if agents[i].id == id {
            let mut a = agents.remove(i);
            a.schedule = Some(cron);
            a.repeat = !once;
            agents.insert(i, a);
            proof {
                assert forall|p: int| first_agent(old(agents)@, id, p) implies p == i by {
                    if p < i {
                        assert(old(agents)@[p].id != id);
                    } else if p > i {
                        assert(old(agents)@[i as int].id != id);
                    }
                }
            }
            return Ok(());
        }
        i = i + 1;
    }
    Err(ScheduleError::AgentNotFound)
}

} // verus!
