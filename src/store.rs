//! Tasks and the board that holds them.
use vstd::prelude::*;

verus! {

/// Progress state of a [`Task`].
#[derive(Clone, Copy, Debug, PartialEq, Eq, Structural)]
pub enum TaskStatus {
    ToDo,
    InProgress,
    Done,
}

/// A single task of the board.
#[derive(Clone, Debug)]
pub struct Task {
    pub id: usize,
    pub title: String,
    pub description: Option<String>,
    pub status: TaskStatus,
    pub agent_id: Option<usize>,
    pub comment: Option<String>,
}

impl Task {
    /// A copy of the task, field by field.
    pub fn copy(&self) -> (r: Task)
        ensures
            r == *self,
    {
        Task {
            id: self.id,
            title: self.title.clone(),
            description: match &self.description {
                Some(d) => Some(d.clone()),
                None => None,
            },
            status: self.status,
            agent_id: self.agent_id,
            comment: match &self.comment {
                Some(c) => Some(c.clone()),
                None => None,
            },
        }
    }
}

/// The tasks of the Kanban board.
#[derive(Debug)]
pub struct Board {
    pub tasks: Vec<Task>,
}

/// The largest id among the first `n` tasks, or 0.
pub open spec fn max_id(tasks: Seq<Task>, n: int) -> int
    decreases n,
{
    if n <= 0 {
        0
    } else {
        let m = max_id(tasks, n - 1);
        if tasks[n - 1].id as int > m {
            tasks[n - 1].id as int
        } else {
            m
        }
    }
}

proof fn lemma_max_id_bounds(tasks: Seq<Task>, n: int)
    requires
        0 <= n <= tasks.len(),
    ensures
        forall|k: int| 0 <= k < n ==> tasks[k].id <= max_id(tasks, n),
        max_id(tasks, n) == 0 || exists|k: int| 0 <= k < n && tasks[k].id == max_id(tasks, n),
    decreases n,
{
    if n > 0 {
        lemma_max_id_bounds(tasks, n - 1);
    }
}

impl Board {
    pub fn new() -> (r: Board)
        ensures
            r.tasks@.len() == 0,
    {
        Board { tasks: Vec::new() }
    }

    /// The largest task id plus one, or 1 on an empty board.
    pub open spec fn spec_next_task_id(&self) -> int {
        max_id(self.tasks@, self.tasks@.len() as int) + 1
    }

    /// Returns the next available unique task id.
    pub fn next_task_id(&self) -> (r: usize)
        requires
            forall|k: int| 0 <= k < self.tasks@.len() ==> #[trigger] self.tasks@[k].id < usize::MAX,
        ensures
            r == self.spec_next_task_id(),
            forall|k: int| 0 <= k < self.tasks@.len() ==> #[trigger] self.tasks@[k].id < r,
    {
        let mut m: usize = 0;
        let mut i: usize = 0;
        while i < self.tasks.len()
            invariant
                i <= self.tasks@.len(),
                m == max_id(self.tasks@, i as int),
            decreases self.tasks@.len() - i,
        {
            if self.tasks[i].id > m {
                m = self.tasks[i].id;
            }
            i = i + 1;
        }
        proof {
            lemma_max_id_bounds(self.tasks@, self.tasks@.len() as int);
        }
        m + 1
    }
}

} // verus!
