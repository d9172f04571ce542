use taskter::store::{Board, Task, TaskStatus};
use taskter::tui::app::{App, Screen};

fn task(id: usize, title: &str, status: TaskStatus) -> Task {
    Task { id, title: title.into(), description: None, status, agent_id: None, comment: None }
}

#[test]
fn navigation_cycles_through_columns_and_tasks() {
    let board = Board {
        tasks: vec![task(1, "A", TaskStatus::ToDo), task(2, "B", TaskStatus::InProgress), task(3, "C", TaskStatus::Done)],
    };
    let mut app = App::new(board, Vec::new());
    assert_eq!(app.selected_column, 0);
    assert_eq!(app.get_selected_task().unwrap().id, 1);
    app.next_column();
    assert_eq!(app.selected_column, 1);
    assert_eq!(app.get_selected_task().unwrap().id, 2);
    app.next_column();
    assert_eq!(app.selected_column, 2);
    assert_eq!(app.get_selected_task().unwrap().id, 3);
    app.next_column();
    assert_eq!(app.selected_column, 0);
}

#[test]
fn moving_task_updates_status() {
    let board = Board { tasks: vec![task(1, "T", TaskStatus::ToDo)] };
    let mut app = App::new(board, Vec::new());
    app.move_task_to_next_column();
    assert_eq!(app.board.tasks[0].status, TaskStatus::InProgress);
    app.next_column();
    app.move_task_to_next_column();
    assert_eq!(app.board.tasks[0].status, TaskStatus::Done);
    app.next_column();
    app.move_task_to_prev_column();
    app.prev_column();
    assert_eq!(app.board.tasks[0].status, TaskStatus::InProgress);
}

#[test]
fn navigation_and_move_task() {
    let board = Board { tasks: vec![task(1, "sample", TaskStatus::ToDo)] };
    let mut app = App::new(board, Vec::new());
    assert_eq!(app.selected_column, 0);
    assert_eq!(app.get_selected_task().unwrap().id, 1);
    app.move_task_to_next_column();
    assert_eq!(app.board.tasks[0].status, TaskStatus::InProgress);
    assert_eq!(app.selected_task[0], None);
    app.next_column();
    assert_eq!(app.selected_column, 1);
    app.move_task_to_prev_column();
    assert_eq!(app.board.tasks[0].status, TaskStatus::ToDo);
}

#[test]
fn add_comment_flow() {
    let board = Board { tasks: vec![task(1, "sample", TaskStatus::ToDo)] };
    let mut app = App::new(board, Vec::new());
    app.current_view = Screen::AddComment;
    app.comment_input = "note".to_string();
    if let Some(task_id) = app.get_selected_task().map(|t| t.id) {
        if let Some(t) = app.board.tasks.iter_mut().find(|t| t.id == task_id) {
            t.comment = Some(app.comment_input.clone());
        }
    }
    assert_eq!(app.board.tasks[0].comment.as_deref(), Some("note"));
}

#[test]
fn task_selection_wraps_and_clamps() {
    let board = Board {
        tasks: vec![task(1, "A", TaskStatus::ToDo), task(2, "B", TaskStatus::ToDo), task(3, "C", TaskStatus::ToDo)],
    };
    let mut app = App::new(board, Vec::new());
    app.prev_task();
    assert_eq!(app.get_selected_task().unwrap().id, 3);
    app.next_task();
    assert_eq!(app.get_selected_task().unwrap().id, 1);
    app.prev_task();
    app.move_task_to_next_column();
    assert_eq!(app.selected_task[0], Some(1));
    assert_eq!(app.get_selected_task().unwrap().id, 2);
    assert_eq!(app.tasks_in_current_column().len(), 2);
}

#[test]
fn moving_task_updates_selection_in_destination_column() {
    let board = Board {
        tasks: vec![task(1, "A", TaskStatus::ToDo), task(2, "B", TaskStatus::ToDo), task(3, "C", TaskStatus::InProgress)],
    };
    let mut app = App::new(board, Vec::new());
    app.next_task();
    app.move_task_to_next_column();
    let expected_index = app
        .board
        .tasks
        .iter()
        .filter(|t| t.status == TaskStatus::InProgress)
        .position(|t| t.id == 2)
        .unwrap();
    assert_eq!(app.selected_task[1], Some(expected_index));
}
