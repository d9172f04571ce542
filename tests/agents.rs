use std::collections::HashMap;

use taskter::agent::{delete_agent, next_agent_id, set_agent_running, update_agent, Agent, FunctionDeclaration, RunningAgentGuard};
use taskter::json::Json;
use taskter::status::{set_status, AgentState, StatusGuard};
use taskter::store::{Board, Task, TaskStatus};

fn agent(id: usize, prompt: &str) -> Agent {
    Agent {
        id,
        system_prompt: prompt.into(),
        tools: vec![],
        model: "m".into(),
        provider: None,
        schedule: None,
        repeat: false,
    }
}

#[test]
fn delete_agent_removes_entry() {
    let mut agents = vec![agent(1, "first"), agent(2, "second")];
    delete_agent(&mut agents, 1);
    assert_eq!(agents.len(), 1);
    assert_eq!(agents[0].id, 2);
    delete_agent(&mut agents, 7);
    assert_eq!(agents.len(), 1);
}

#[test]
fn update_agent_changes_configuration() {
    let mut agents = vec![agent(1, "helper")];
    let tools = vec![FunctionDeclaration { name: "t".into(), description: None, parameters: Json::Object(vec![]) }];
    update_agent(&mut agents, 1, Some("new helper".into()), Some(tools), None, Some(Some("openai".into())));
    assert_eq!(agents[0].system_prompt, "new helper");
    assert_eq!(agents[0].tools[0].name, "t");
    assert_eq!(agents[0].model, "m");
    assert_eq!(agents[0].provider.as_deref(), Some("openai"));
    update_agent(&mut agents, 1, None, None, Some("gemini-2.5-pro".into()), Some(None));
    assert_eq!(agents[0].model, "gemini-2.5-pro");
    assert_eq!(agents[0].provider, None);
}

#[test]
fn running_guard_marks_and_releases() {
    let mut running: Vec<usize> = vec![3];
    let guard = RunningAgentGuard::new(7, &mut running);
    assert!(running.contains(&7));
    assert!(running.contains(&3));
    let again = RunningAgentGuard::new(7, &mut running);
    assert_eq!(running.iter().filter(|&&x| x == 7).count(), 1);
    again.release(&mut running);
    assert!(!running.contains(&7));
    guard.release(&mut running);
    assert_eq!(running, vec![3]);
}

fn run_with_early_error(running: &mut Vec<usize>) -> Result<(), String> {
    let guard = RunningAgentGuard::new(7, running);
    let outcome: Result<(), String> = Err("stopped".to_string());
    guard.release(running);
    outcome
}

#[test]
fn running_guard_releases_on_error_return() {
    let mut running: Vec<usize> = Vec::new();
    assert!(run_with_early_error(&mut running).is_err());
    assert!(!running.contains(&7));
}

#[test]
fn set_agent_running_toggles() {
    let mut ids = vec![1, 2, 1];
    set_agent_running(&mut ids, 1, false);
    assert_eq!(ids, vec![2]);
    set_agent_running(&mut ids, 5, true);
    assert_eq!(ids, vec![2, 5]);
}

#[test]
fn status_guard_sets_running_then_idle() {
    let mut statuses: HashMap<usize, AgentState> = HashMap::new();
    let guard = StatusGuard::new(4, &mut statuses);
    assert_eq!(statuses.get(&4), Some(&AgentState::Running));
    guard.release(&mut statuses);
    assert_eq!(statuses.get(&4), Some(&AgentState::Idle));
    set_status(&mut statuses, 9, AgentState::Running);
    assert_eq!(statuses.len(), 2);
}

#[test]
fn next_task_id_follows_largest() {
    let mut board = Board::new();
    assert_eq!(board.next_task_id(), 1);
    for id in [3, 9, 4] {
        board.tasks.push(Task {
            id,
            title: "t".into(),
            description: None,
            status: TaskStatus::ToDo,
            agent_id: None,
            comment: None,
        });
    }
    assert_eq!(board.next_task_id(), 10);
}

#[test]
fn agent_ids_increase_after_deletion() {
    let mut agents = vec![agent(1, "first")];
    let id = next_agent_id(&agents);
    agents.push(agent(id, "second"));
    assert_eq!(id, 2);
    delete_agent(&mut agents, 1);
    let third = next_agent_id(&agents);
    assert_eq!(third, 3);
    assert!(third > 2);
    assert_eq!(next_agent_id(&Vec::new()), 1);
}
