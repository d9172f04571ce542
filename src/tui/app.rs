use vstd::prelude::*;

use crate::agent::Agent;
use crate::store::{Board, Task, TaskStatus};

verus! {

/// The screens of the board view.
#[derive(Clone, Copy, Debug, PartialEq, Eq, Structural)]
pub enum Screen {
    Board,
    TaskDescription,
    AssignAgent,
    AddComment,
    AddTask,
    UpdateTask,
    Logs,
    Agents,
    Okrs,
    Commands,
}

/// The board view: the board, and one task selection per column
/// (to do, in progress, done).
pub struct App {
    pub board: Board,
    pub agents: Vec<Agent>,
    pub selected_column: usize,
    pub selected_task: Vec<Option<usize>>,
    pub current_view: Screen,
    pub agent_list_selected: Option<usize>,
    pub comment_input: String,
    pub new_task_title: String,
    pub new_task_description: String,
    pub editing_description: bool,
    pub logs: String,
    pub popup_scroll: u16,
}

/// The status that a column shows.
pub open spec fn column_status(c: int) -> TaskStatus {
    if c == 0 {
        TaskStatus::ToDo
    } else if c == 1 {
        TaskStatus::InProgress
    } else {
        TaskStatus::Done
    }
}

/// The column of a status.
pub open spec fn status_index(s: TaskStatus) -> int {
    match s {
        TaskStatus::ToDo => 0,
        TaskStatus::InProgress => 1,
        TaskStatus::Done => 2,
    }
}

/// The tasks among the first `n` that have status `st`, in board order.
pub open spec fn with_status(tasks: Seq<Task>, st: TaskStatus, n: int) -> Seq<Task>
    decreases n,
{
    if n <= 0 {
        Seq::empty()
    } else if tasks[n - 1].status == st {
        with_status(tasks, st, n - 1).push(tasks[n - 1])
    } else {
        with_status(tasks, st, n - 1)
    }
}

pub open spec fn column_tasks(board: &Board, c: int) -> Seq<Task> {
    with_status(board.tasks@, column_status(c), board.tasks@.len() as int)
}

/// The status one column over, wrapping around.
pub open spec fn moved_status(s: TaskStatus, forward: bool) -> TaskStatus {
    column_status((status_index(s) + if forward { 1int } else { 2int }) % 3)
}

/// `p` is the position of the first task with id `id`.
pub open spec fn first_with_id(tasks: Seq<Task>, id: usize, p: int) -> bool {
    &&& 0 <= p < tasks.len()
    &&& tasks[p].id == id
    &&& forall|j: int| 0 <= j < p ==> tasks[j].id != id
}

fn status_of_index(i: usize) -> (r: TaskStatus)
    requires
        i < 3,
    ensures
        r == column_status(i as int),
        status_index(r) == i,
{
    if i == 0 {
        TaskStatus::ToDo
    } else if i == 1 {
        TaskStatus::InProgress
    } else {
        TaskStatus::Done
    }
}

fn index_of_status(s: TaskStatus) -> (r: usize)
    ensures
        r as int == status_index(s),
        r < 3,
{
    match s {
        TaskStatus::ToDo => 0,
        TaskStatus::InProgress => 1,
        TaskStatus::Done => 2,
    }
}

/// The tasks of a column, in board order.
fn column_of(board: &Board, col: usize) -> (r: Vec<Task>)
    requires
        col < 3,
    ensures
        r@ == column_tasks(board, col as int),
{
    let st = status_of_index(col);
    let mut out: Vec<Task> = Vec::new();
    let mut i: usize = 0;
    while i < board.tasks.len()
        invariant
            st == column_status(col as int),
            i <= board.tasks@.len(),
            out@ == with_status(board.tasks@, st, i as int),
        decreases board.tasks@.len() - i,
    {
        if board.tasks[i].status == st {
            out.push(board.tasks[i].copy());
        }
        i = i + 1;
    }
    out
}

/// The position of the first task with id `id`.
fn position_of(tasks: &Vec<Task>, id: usize) -> (r: Option<usize>)
    ensures
        r is Some ==> first_with_id(tasks@, id, r->0 as int),
        r is None ==> forall|k: int| 0 <= k < tasks@.len() ==> tasks@[k].id != id,
{
    let mut i: usize = 0;
    while i < tasks.len()
        invariant
            i <= tasks@.len(),
            forall|k: int| 0 <= k < i ==> tasks@[k].id != id,
        decreases tasks@.len() - i,
    {
        if tasks[i].id == id {
            return Some(i);
        }
        i = i + 1;
    }
    None
}

/// The column a move goes to.
pub open spec fn dest_column(c: int, forward: bool) -> int {
    (c + if forward { 1int } else { 2int }) % 3
}

/// The selection of a column after the task `id` moved into it: the moved
/// task where the column holds it, else the selection it had.
pub open spec fn dest_selection(tasks: Seq<Task>, id: usize, before: Option<usize>, after: Option<usize>) -> bool {
    if exists|j: int| first_with_id(tasks, id, j) {
        after is Some && first_with_id(tasks, id, after->0 as int)
    } else {
        after == before
    }
}

impl App {
    pub open spec fn wf(&self) -> bool {
        self.selected_column < 3 && self.selected_task@.len() == 3
    }

    /// The selection in the current column.
    pub open spec fn selection(&self) -> Option<usize> {
        self.selected_task@[self.selected_column as int]
    }

    pub open spec fn current_tasks(&self) -> Seq<Task> {
        column_tasks(&self.board, self.selected_column as int)
    }

    /// The view of a board with the first task of the first column selected.
    pub fn new(board: Board, agents: Vec<Agent>) -> (r: App)
        ensures
            r.wf(),
            r.board == board,
            r.selected_column == 0,
            r.selected_task@ == seq![Some(0usize), None::<usize>, None::<usize>],
            r.current_view == Screen::Board,
    {
        let mut selected_task: Vec<Option<usize>> = Vec::new();
        selected_task.push(Some(0));
        selected_task.push(None);
        selected_task.push(None);
        assert(selected_task@ =~= seq![Some(0usize), None::<usize>, None::<usize>]);
        App {
            board,
            agents,
            selected_column: 0,
            selected_task,
            current_view: Screen::Board,
            agent_list_selected: None,
            comment_input: String::new(),
            new_task_title: String::new(),
            new_task_description: String::new(),
            editing_description: false,
            logs: String::new(),
            popup_scroll: 0,
        }
    }

    /// The tasks of the current column, in board order.
    pub fn tasks_in_current_column(&self) -> (r: Vec<Task>)
        requires
            self.wf(),
        ensures
            r@ == self.current_tasks(),
    {
        column_of(&self.board, self.selected_column)
    }

    /// Selects the first task of the current column where it has tasks and nothing is selected.
    fn ensure_selected_task(&mut self)
        requires
            old(self).wf(),
        ensures
            final(self).wf(),
            final(self).board == old(self).board,
            final(self).selected_column == old(self).selected_column,
            final(self).selected_task@ == if old(self).current_tasks().len() > 0 && old(self).selection() is None {
                old(self).selected_task@.update(old(self).selected_column as int, Some(0usize))
            } else {
                old(self).selected_task@
            },
    {
        let n = self.tasks_in_current_column().len();
        let c = self.selected_column;
        if n > 0 && self.selected_task[c].is_none() {
            self.selected_task.set(c, Some(0));
        }
    }

    /// Moves to the next column, wrapping around.
    pub fn next_column(&mut self)
        requires
            old(self).wf(),
        ensures
            final(self).wf(),
            final(self).board == old(self).board,
            final(self).selected_column == (old(self).selected_column + 1) % 3,
            final(self).current_tasks().len() > 0 && old(self).selected_task@[final(self).selected_column as int] is None
                ==> final(self).selection() == Some(0usize),
            !(final(self).current_tasks().len() > 0 && old(self).selected_task@[final(self).selected_column as int] is None)
                ==> final(self).selected_task@ == old(self).selected_task@,
    {
        self.selected_column = (self.selected_column + 1) % 3;
        self.ensure_selected_task();
    }

    /// Moves to the previous column, wrapping around.
    pub fn prev_column(&mut self)
        requires
            old(self).wf(),
        ensures
            final(self).wf(),
            final(self).board == old(self).board,
            final(self).selected_column == (old(self).selected_column + 2) % 3,
            final(self).current_tasks().len() > 0 && old(self).selected_task@[final(self).selected_column as int] is None
                ==> final(self).selection() == Some(0usize),
            !(final(self).current_tasks().len() > 0 && old(self).selected_task@[final(self).selected_column as int] is None)
                ==> final(self).selected_task@ == old(self).selected_task@,
    {
        self.selected_column = (self.selected_column + 2) % 3;
        self.ensure_selected_task();
    }

    /// Selects the next task of the column, wrapping around; the first where none was selected.
    pub fn next_task(&mut self)
        requires
            old(self).wf(),
        ensures
            final(self).wf(),
            final(self).board == old(self).board,
            final(self).selected_column == old(self).selected_column,
            old(self).current_tasks().len() == 0 ==> final(self).selected_task@ == old(self).selected_task@,
            old(self).current_tasks().len() > 0 ==> final(self).selected_task@ == old(self).selected_task@.update(
                old(self).selected_column as int,
                Some(
                    match old(self).selection() {
                        Some(i) => ((i + 1) % (old(self).current_tasks().len() as int)) as usize,
                        None => 0usize,
                    },
                ),
            ),
    {
        let n = self.tasks_in_current_column().len();
        if n == 0 {
            return;
        }
        let c = self.selected_column;
        let i = match self.selected_task[c] {
            Some(i) => ((i as u128 + 1) % (n as u128)) as usize,
            None => 0,
        };
        self.selected_task.set(c, Some(i));
    }

    /// Selects the previous task of the column, wrapping around; the first where none was selected.
    pub fn prev_task(&mut self)
        requires
            old(self).wf(),
        ensures
            final(self).wf(),
            final(self).board == old(self).board,
            final(self).selected_column == old(self).selected_column,
            old(self).current_tasks().len() == 0 ==> final(self).selected_task@ == old(self).selected_task@,
            old(self).current_tasks().len() > 0 ==> final(self).selected_task@ == old(self).selected_task@.update(
                old(self).selected_column as int,
                Some(
                    match old(self).selection() {
                        Some(i) => ((i + old(self).current_tasks().len() - 1) % (old(self).current_tasks().len() as int)) as usize,
                        None => 0usize,
                    },
                ),
            ),
    {
        let n = self.tasks_in_current_column().len();
        if n == 0 {
            return;
        }
        let c = self.selected_column;
        let i = match self.selected_task[c] {
            Some(i) => ((i as u128 + n as u128 - 1) % (n as u128)) as usize,
            None => 0,
        };
        self.selected_task.set(c, Some(i));
    }

    /// Moves the first task with id `id` one column over.
    fn move_status(board: &mut Board, id: usize, forward: bool)
        ensures
            final(board).tasks@.len() == old(board).tasks@.len(),
            (forall|j: int| 0 <= j < old(board).tasks@.len() ==> old(board).tasks@[j].id != id)
                ==> final(board).tasks@ == old(board).tasks@,
            forall|p: int|
                first_with_id(old(board).tasks@, id, p) ==> {
                    &&& final(board).tasks@[p] == (Task {
                        status: moved_status(old(board).tasks@[p].status, forward),
                        ..old(board).tasks@[p]
                    })
                    &&& forall|j: int|
                        0 <= j < old(board).tasks@.len() && j != p ==> final(board).tasks@[j]
                            == old(board).tasks@[j]
                },
    {
        let mut i: usize = 0;
        while i < board.tasks.len()
            invariant
                board.tasks@ == old(board).tasks@,
                i <= board.tasks@.len(),
                forall|j: int| 0 <= j < i ==> board.tasks@[j].id != id,
            decreases board.tasks@.len() - i,
        {
            if board.tasks[i].id == id {
                let mut t = board.tasks.remove(i);
                let step: usize = if forward {
                    1
                } else {
                    2
                };
                t.status = status_of_index((index_of_status(t.status) + step) % 3);
                board.tasks.insert(i, t);
                proof {
                    assert forall|p: int| first_with_id(old(board).tasks@, id, p) implies p == i by {
                        if p < i {
                            assert(old(board).tasks@[p].id != id);
                        } else if p > i {
                            assert(old(board).tasks@[i as int].id != id);
                        }
                    }
                }
                return;
            }
            i = i + 1;
        }
    }

    /// Moves the selected task one column over, keeps the selection of the
    /// current column in range (none where the column is now empty, its last
    /// task where the selection ran past the end) and selects the moved task
    /// in the column it went to.
    fn move_task(&mut self, forward: bool)
        requires
            old(self).wf(),
        ensures
            final(self).wf(),
            final(self).selected_column == old(self).selected_column,
            match old(self).selection() {
                Some(i) => if (i as int) < old(self).current_tasks().len() {
                    let id = old(self).current_tasks()[i as int].id;
                    let left = final(self).current_tasks();
                    &&& final(self).board.tasks@.len() == old(self).board.tasks@.len()
                    &&& forall|p: int|
                        first_with_id(old(self).board.tasks@, id, p) ==> final(self).board.tasks@[p] == (Task {
                            status: moved_status(old(self).board.tasks@[p].status, forward),
                            ..old(self).board.tasks@[p]
                        })
                    &&& final(self).selected_task@[old(self).selected_column as int] == if left.len() == 0 {
                        None
                    } else if i as int >= left.len() {
                        Some((left.len() - 1) as usize)
                    } else {
                        Some(i)
                    }
                    &&& dest_selection(
                        column_tasks(&final(self).board, dest_column(old(self).selected_column as int, forward)),
                        id,
                        old(self).selected_task@[dest_column(old(self).selected_column as int, forward)],
                        final(self).selected_task@[dest_column(old(self).selected_column as int, forward)],
                    )
                    &&& forall|k: int|
                        0 <= k < 3 && k != old(self).selected_column as int && k != dest_column(
                            old(self).selected_column as int,
                            forward,
                        ) ==> final(self).selected_task@[k] == old(self).selected_task@[k]
                } else {
                    final(self).board == old(self).board && final(self).selected_task@ == old(self).selected_task@
                },
                None => final(self).board == old(self).board && final(self).selected_task@ == old(
                    self,
                ).selected_task@,
            },
    {
        let c = self.selected_column;
        let i = match self.selected_task[c] {
            Some(i) => i,
            None => {
                return;
            },
        };
        let tasks = self.tasks_in_current_column();
        if i >= tasks.len() {
            return;
        }
        let id = tasks[i].id;
        Self::move_status(&mut self.board, id, forward);
        let left = self.tasks_in_current_column().len();
        if left == 0 {
            self.selected_task.set(c, None);
        } else if i >= left {
            self.selected_task.set(c, Some(left - 1));
        }
        let dest: usize = if forward {
            (c + 1) % 3
        } else {
            (c + 2) % 3
        };
        let moved = column_of(&self.board, dest);
        match position_of(&moved, id) {
            Some(j) => {
                self.selected_task.set(dest, Some(j));
            },
            None => {},
        }
    }

    pub fn move_task_to_next_column(&mut self)
        requires
            old(self).wf(),
        ensures
            final(self).wf(),
            final(self).selected_column == old(self).selected_column,
            match old(self).selection() {
                Some(i) => if (i as int) < old(self).current_tasks().len() {
                    forall|p: int|
                        first_with_id(old(self).board.tasks@, old(self).current_tasks()[i as int].id, p)
                            ==> final(self).board.tasks@[p].status == moved_status(
                            old(self).board.tasks@[p].status,
                            true,
                        )
                } else {
                    final(self).board == old(self).board
                },
                None => final(self).board == old(self).board,
            },
    {
        self.move_task(true);
    }

    pub fn move_task_to_prev_column(&mut self)
        requires
            old(self).wf(),
        ensures
            final(self).wf(),
            final(self).selected_column == old(self).selected_column,
            match old(self).selection() {
                Some(i) => if (i as int) < old(self).current_tasks().len() {
                    forall|p: int|
                        first_with_id(old(self).board.tasks@, old(self).current_tasks()[i as int].id, p)
                            ==> final(self).board.tasks@[p].status == moved_status(
                            old(self).board.tasks@[p].status,
                            false,
                        )
                } else {
                    final(self).board == old(self).board
                },
                None => final(self).board == old(self).board,
            },
    {
        self.move_task(false);
    }

    /// The selected task of the current column, if the selection is within it.
    pub fn get_selected_task(&self) -> (r: Option<Task>)
        requires
            self.wf(),
        ensures
            match self.selection() {
                Some(i) => if (i as int) < self.current_tasks().len() {
                    r == Some(self.current_tasks()[i as int])
                } else {
                    r is None
                },
                None => r is None,
            },
    {
        match self.selected_task[self.selected_column] {
            Some(i) => {
                let tasks = self.tasks_in_current_column();
                if i < tasks.len() {
                    Some(tasks[i].copy())
                } else {
                    None
                }
            },
            None => None,
        }
    }
}

} // verus!
