use taskter::agent::{Agent, ExecutionResult, FunctionDeclaration};
use taskter::engine::{EngineStep, Execution, ProviderSettings};
use taskter::json::Json;
use taskter::scheduler::{apply_result, clear_schedule, is_scheduled, open_tasks, plan_firing, set_schedule, FiringPlan, ScheduleError};
use taskter::store::{Board, Task, TaskStatus};

fn task(id: usize, agent_id: Option<usize>, status: TaskStatus) -> Task {
    Task { id, title: format!("t{id}"), description: None, status, agent_id, comment: None }
}

fn settings() -> ProviderSettings {
    ProviderSettings {
        openai_request_style: None,
        openai_base_url: "https://api.openai.com".to_string(),
        openai_responses_endpoint: None,
        openai_chat_endpoint: None,
        openai_response_format: None,
        ollama_base_url: "http://localhost:11434".to_string(),
    }
}

fn helper() -> Agent {
    Agent {
        id: 1,
        system_prompt: "helper".into(),
        tools: vec![FunctionDeclaration { name: "send_email".into(), description: None, parameters: Json::Object(vec![]) }],
        model: "gemini-2.5-flash".into(),
        provider: Some("gemini".into()),
        schedule: Some("*/1 * * * * *".into()),
        repeat: false,
    }
}

#[test]
fn scheduler_executes_agent_tasks() {
    let mut agents = vec![helper()];
    let mut board = Board { tasks: vec![task(1, Some(1), TaskStatus::ToDo), task(2, Some(1), TaskStatus::ToDo)] };
    assert!(is_scheduled(&agents[0]));
    let open = open_tasks(&board, 1);
    assert_eq!(open, vec![1, 2]);
    let mut results = Vec::new();
    for id in &open {
        let t = board.tasks.iter().find(|t| t.id == *id).unwrap();
        let (_, step) = Execution::start(&agents[0], Some(t), &settings(), None);
        match step {
            EngineStep::Done { result } => results.push((*id, result)),
            _ => panic!("expected the offline result"),
        }
    }
    for (id, result) in results {
        apply_result(&mut board, id, result);
    }
    for task in &board.tasks {
        assert_eq!(task.status, TaskStatus::Done);
    }
    if !agents[0].repeat {
        clear_schedule(&mut agents, 1);
    }
    assert_eq!(agents[0].schedule, None);
    assert!(!is_scheduled(&agents[0]));
}

#[test]
fn failure_returns_task_to_todo_unassigned() {
    let mut board = Board { tasks: vec![task(1, Some(2), TaskStatus::InProgress), task(2, Some(2), TaskStatus::Done)] };
    assert_eq!(open_tasks(&board, 2), vec![1]);
    assert!(open_tasks(&board, 3).is_empty());
    apply_result(&mut board, 1, ExecutionResult::Failure { comment: "Required tool not available.".into() });
    assert_eq!(board.tasks[0].status, TaskStatus::ToDo);
    assert_eq!(board.tasks[0].agent_id, None);
    assert_eq!(board.tasks[0].comment.as_deref(), Some("Required tool not available."));
    apply_result(&mut board, 42, ExecutionResult::Success { comment: "x".into() });
    assert_eq!(board.tasks[1].comment, None);
}

#[test]
fn schedule_agent_updates_file() {
    let mut agents = vec![helper()];
    agents[0].schedule = None;
    assert_eq!(set_schedule(&mut agents, 1, "*/5 * * * * *".to_string(), false), Ok(()));
    assert_eq!(agents[0].schedule.as_deref(), Some("*/5 * * * * *"));
    assert!(agents[0].repeat);
    assert_eq!(set_schedule(&mut agents, 1, "every day".to_string(), true), Err(ScheduleError::ScheduleParseError));
    assert_eq!(agents[0].schedule.as_deref(), Some("*/5 * * * * *"));
    assert_eq!(set_schedule(&mut agents, 9, "0 0 * * * *".to_string(), true), Err(ScheduleError::AgentNotFound));
    clear_schedule(&mut agents, 1);
    assert_eq!(agents[0].schedule, None);
    assert!(!agents[0].repeat);
}

#[test]
fn assign_agent_failure_updates_task() {
    let agent = Agent {
        id: 1,
        system_prompt: "helper".into(),
        tools: vec![],
        model: "gpt-4o".into(),
        provider: None,
        schedule: None,
        repeat: false,
    };
    let mut board = Board { tasks: vec![task(1, Some(1), TaskStatus::ToDo)] };
    let (_, step) = Execution::start(&agent, Some(&board.tasks[0]), &settings(), None);
    let result = match step {
        EngineStep::Done { result } => result,
        _ => panic!("expected the offline result"),
    };
    apply_result(&mut board, 1, result);
    assert!(board.tasks[0].comment.is_some());
    assert_eq!(board.tasks[0].status, TaskStatus::ToDo);
    assert_eq!(board.tasks[0].agent_id, None);
}

#[test]
fn firing_without_open_tasks_is_a_heartbeat() {
    let board = Board { tasks: vec![task(1, Some(1), TaskStatus::Done), task(2, Some(2), TaskStatus::ToDo)] };
    assert!(matches!(plan_firing(&board, 1), FiringPlan::Heartbeat));
    match plan_firing(&board, 2) {
        FiringPlan::Tasks { ids } => assert_eq!(ids, vec![2]),
        FiringPlan::Heartbeat => panic!("expected a task run"),
    }
}
