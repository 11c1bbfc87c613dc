//! Crash recovery, against runs that are held in memory.
use nflow_daemon::effects::{Action, Event};
use nflow_daemon::ident::{Timestamp, Uuid};
use nflow_daemon::model::{AgentRun, AgentRunStatus, WorkItemStatus};
use nflow_daemon::recovery::{
    check_agent_run, detect_stale_agents, execute_recovery_actions, read_process_start_time,
    recover_stale_agents, verify_process, AgentRecoveryAction, ProcessState, RecoveryNext,
};

/// A process id that no process has.
const NO_PROCESS: u32 = 4_000_000_000;

const STAT: &str = "42 (a) S 1 42 42 0 -1 4194560 1234 0 0 0 10 5 0 0 20 0 1 0 8675 1000 200 18";

fn this_process() -> u32 {
    nix::unistd::getpid().as_raw() as u32
}

fn new_id() -> Uuid {
    Uuid { value: uuid::Uuid::new_v4().as_u128() }
}

fn now() -> Timestamp {
    Timestamp::new(1_717_243_200, 0).unwrap()
}

fn make_running_agent(work_item_id: Uuid, pid: Option<u32>, start_time: Option<i64>) -> AgentRun {
    AgentRun {
        id: new_id(),
        work_item_id,
        pid,
        session_id: Some("session-abc".to_string()),
        pid_start_time: start_time,
        status: AgentRunStatus::Running,
        exit_code: None,
        log_path: Some("/logs/task.log".to_string()),
        error_message: None,
        started_at: now(),
        finished_at: None,
    }
}

fn copy(run: &AgentRun) -> AgentRun {
    AgentRun {
        id: run.id,
        work_item_id: run.work_item_id,
        pid: run.pid,
        session_id: run.session_id.clone(),
        pid_start_time: run.pid_start_time,
        status: run.status,
        exit_code: run.exit_code,
        log_path: run.log_path.clone(),
        error_message: run.error_message.clone(),
        started_at: run.started_at,
        finished_at: run.finished_at,
    }
}

/// The recorded runs and the statuses of their work items.
struct Records {
    runs: Vec<AgentRun>,
    items: Vec<(Uuid, WorkItemStatus)>,
}

impl Records {
    fn new(runs: Vec<AgentRun>) -> Records {
        let items = runs.iter().map(|r| (r.work_item_id, WorkItemStatus::InProgress)).collect();
        Records { runs, items }
    }

    fn running(&self) -> Vec<AgentRun> {
        self.runs.iter().filter(|r| r.status == AgentRunStatus::Running).map(copy).collect()
    }

    fn status(&self, item: Uuid) -> WorkItemStatus {
        self.items.iter().find(|i| i.0 == item).unwrap().1
    }

    fn perform(&mut self, action: Action) -> Event {
        match action {
            Action::FindAllRunningAgents => Event::AgentRuns(Ok(self.running())),
            Action::VerifyProcess { pid, expected } => {
                Event::Process(verify_process(pid, expected, None))
            }
            Action::Now => Event::Time(now()),
            Action::FinishRun { run, status, message, at } => {
                let r = self.runs.iter_mut().find(|r| r.id == run).unwrap();
                r.status = status;
                r.error_message = Some(message);
                r.finished_at = Some(at);
                Event::Done(Ok(()))
            }
            Action::UpdateItemStatus { item, status } => {
                self.items.iter_mut().find(|i| i.0 == item).unwrap().1 = status;
                Event::Done(Ok(()))
            }
            other => panic!("not asked for in recovery: {:?}", other),
        }
    }

    fn carry_out(&mut self, first: RecoveryNext) -> Result<Vec<(Uuid, u32)>, String> {
        let mut next = first;
        loop {
            match next {
                RecoveryNext::Act(step, action) => next = step.step(self.perform(action)),
                RecoveryNext::Finished(adopted) => return adopted,
            }
        }
    }
}

// --- verify_process ---

#[test]
fn recovery_test_verify_process_dead_pid() {
    let state = verify_process(NO_PROCESS, Some(12345), None);
    assert_eq!(state, ProcessState::Dead);
}

#[test]
fn recovery_test_verify_process_alive_current_process() {
    // Without a start time to compare, should return Alive
    let state = verify_process(this_process(), None, Some(STAT));
    assert_eq!(state, ProcessState::Alive);
}

#[test]
fn recovery_test_verify_process_alive_matching_start_time() {
    let actual_start_time = read_process_start_time(Some(STAT));
    assert!(actual_start_time.is_some(), "should read the start time");
    let state = verify_process(this_process(), actual_start_time, Some(STAT));
    assert_eq!(state, ProcessState::Alive);
}

#[test]
fn recovery_test_verify_process_pid_reused() {
    // Use a bogus start time that definitely won't match
    let state = verify_process(this_process(), Some(-999), Some(STAT));
    assert_eq!(state, ProcessState::PidReused);
}

#[test]
fn test_read_process_start_time_current_process() {
    let start_time = read_process_start_time(Some(STAT));
    assert!(start_time.is_some());
    assert!(start_time.unwrap() > 0);
    assert_eq!(start_time, Some(8675));
}

#[test]
fn test_read_process_start_time_nonexistent() {
    let start_time = read_process_start_time(None);
    assert!(start_time.is_none());
}

// --- check_agent_run ---

#[test]
fn test_check_agent_run_no_pid() {
    let run = make_running_agent(new_id(), None, None);
    let action = check_agent_run(&run, ProcessState::Alive);
    assert!(matches!(action, AgentRecoveryAction::MarkFailed { .. }));
}

#[test]
fn test_check_agent_run_dead_pid() {
    let run = make_running_agent(new_id(), Some(NO_PROCESS), Some(12345));
    let action = check_agent_run(&run, verify_process(NO_PROCESS, Some(12345), None));
    assert!(matches!(action, AgentRecoveryAction::MarkFailed { .. }));
}

#[test]
fn test_check_agent_run_alive_pid_no_start_time() {
    let pid = this_process();
    let run = make_running_agent(new_id(), Some(pid), None);
    let action = check_agent_run(&run, verify_process(pid, None, None));
    assert_eq!(
        action,
        AgentRecoveryAction::Adopt { run_id: run.id, work_item_id: run.work_item_id, pid }
    );
}

#[test]
fn a_reused_process_id_is_no_reason_to_adopt() {
    let run = make_running_agent(new_id(), Some(42), Some(1));
    assert_eq!(
        check_agent_run(&run, ProcessState::PidReused),
        AgentRecoveryAction::MarkFailed { run_id: run.id, work_item_id: run.work_item_id }
    );
}

// --- detect_stale_agents ---

#[test]
fn test_detect_stale_agents_empty() {
    let actions = detect_stale_agents(&Vec::new(), &Vec::new());
    assert!(actions.is_empty());
}

#[test]
fn test_detect_stale_agents_dead_process() {
    let run = make_running_agent(new_id(), Some(NO_PROCESS), Some(12345));
    let run_id = run.id;
    let states = vec![verify_process(NO_PROCESS, Some(12345), None)];
    let actions = detect_stale_agents(&vec![run], &states);
    assert_eq!(actions.len(), 1);
    assert!(
        matches!(&actions[0], AgentRecoveryAction::MarkFailed { run_id: r, .. } if *r == run_id)
    );
}

#[test]
fn test_detect_stale_agents_alive_process() {
    // Use current process PID: it's alive, no start time to mismatch
    let run = make_running_agent(new_id(), Some(this_process()), None);
    let run_id = run.id;
    let states = vec![verify_process(this_process(), None, None)];
    let actions = detect_stale_agents(&vec![run], &states);
    assert_eq!(actions.len(), 1);
    assert!(matches!(&actions[0], AgentRecoveryAction::Adopt { run_id: r, .. } if *r == run_id));
}

// --- execute_recovery_actions ---

#[test]
fn test_execute_recovery_mark_failed() {
    let task = new_id();
    let run = make_running_agent(task, Some(NO_PROCESS), Some(12345));
    let actions = vec![AgentRecoveryAction::MarkFailed { run_id: run.id, work_item_id: task }];
    let mut records = Records::new(vec![run]);

    let adopted = records.carry_out(execute_recovery_actions(actions, 0, now())).unwrap();
    assert!(adopted.is_empty());

    // Agent run should be marked as failed
    assert!(records.running().is_empty());
    assert_eq!(records.runs[0].status, AgentRunStatus::Failed);
    assert_eq!(records.runs[0].error_message, Some("daemon crashed".to_string()));
    assert_eq!(records.runs[0].finished_at, Some(now()));

    // Work item should be marked as failed
    assert_eq!(records.status(task), WorkItemStatus::Failed);
}

#[test]
fn test_execute_recovery_adopt() {
    let task = new_id();
    let run = make_running_agent(task, Some(this_process()), None);
    let run_id = run.id;
    let actions =
        vec![AgentRecoveryAction::Adopt { run_id, work_item_id: task, pid: this_process() }];
    let mut records = Records::new(vec![run]);

    let adopted = records.carry_out(execute_recovery_actions(actions, 0, now())).unwrap();
    assert_eq!(adopted.len(), 1);
    assert_eq!(adopted[0], (run_id, this_process()));

    // Agent run should still be running (adopted, not failed)
    let running = records.running();
    assert_eq!(running.len(), 1);
    assert_eq!(running[0].id, run_id);
}

// --- recover_stale_agents (integration) ---

#[test]
fn test_recover_stale_agents_mixed() {
    let task1 = new_id();
    let task2 = new_id();
    // Dead agent (PID doesn't exist)
    let dead_run = make_running_agent(task1, Some(NO_PROCESS), Some(12345));
    // Alive agent (current process PID, no start time check)
    let alive_run = make_running_agent(task2, Some(this_process()), None);
    let alive_id = alive_run.id;
    let mut records = Records::new(vec![dead_run, alive_run]);

    let adopted = records.carry_out(recover_stale_agents()).unwrap();

    // Dead run's task should be failed
    assert_eq!(records.status(task1), WorkItemStatus::Failed);

    // Alive run's task should still be in_progress
    assert_eq!(records.status(task2), WorkItemStatus::InProgress);

    // One agent should be adopted
    assert_eq!(adopted.len(), 1);
    assert_eq!(adopted[0].0, alive_id);
}

#[test]
fn a_second_recovery_changes_nothing() {
    let mut ended = make_running_agent(new_id(), Some(NO_PROCESS), None);
    ended.status = AgentRunStatus::Succeeded;
    let mut records = Records::new(vec![
        make_running_agent(new_id(), Some(this_process()), None),
        make_running_agent(new_id(), Some(NO_PROCESS), None),
        ended,
        make_running_agent(new_id(), None, None),
        make_running_agent(new_id(), Some(this_process()), None),
    ]);
    let ids = |records: &Records| -> Vec<Uuid> { records.running().iter().map(|r| r.id).collect() };

    let adopted = records.carry_out(recover_stale_agents()).unwrap();
    let expected = vec![
        (records.runs[0].id, this_process()),
        (records.runs[4].id, this_process()),
    ];
    assert_eq!(adopted, expected);
    assert_eq!(ids(&records), vec![records.runs[0].id, records.runs[4].id]);
    let left: Vec<AgentRunStatus> = records.runs.iter().map(|r| r.status).collect();
    let items: Vec<WorkItemStatus> = records.items.iter().map(|i| i.1).collect();
    assert_eq!(
        left,
        vec![
            AgentRunStatus::Running,
            AgentRunStatus::Failed,
            AgentRunStatus::Succeeded,
            AgentRunStatus::Failed,
            AgentRunStatus::Running,
        ]
    );
    assert_eq!(
        items,
        vec![
            WorkItemStatus::InProgress,
            WorkItemStatus::Failed,
            WorkItemStatus::InProgress,
            WorkItemStatus::Failed,
            WorkItemStatus::InProgress,
        ]
    );

    assert_eq!(records.carry_out(recover_stale_agents()).unwrap(), expected);
    assert_eq!(records.runs.iter().map(|r| r.status).collect::<Vec<_>>(), left);
    assert_eq!(records.items.iter().map(|i| i.1).collect::<Vec<_>>(), items);
}

#[test]
fn test_recover_no_stale_agents() {
    let adopted = Records::new(Vec::new()).carry_out(recover_stale_agents()).unwrap();
    assert!(adopted.is_empty());
}

#[test]
fn test_recover_agent_no_pid_marked_failed() {
    let task = new_id();
    // Agent with no PID recorded
    let mut records = Records::new(vec![make_running_agent(task, None, None)]);

    let adopted = records.carry_out(recover_stale_agents()).unwrap();
    assert!(adopted.is_empty());

    // Agent should be marked as failed
    assert!(records.running().is_empty());

    // Work item should be marked as failed
    assert_eq!(records.status(task), WorkItemStatus::Failed);
}

#[test]
fn a_failure_to_list_the_runs_ends_recovery() {
    match recover_stale_agents() {
        RecoveryNext::Act(step, Action::FindAllRunningAgents) => {
            match step.step(Event::AgentRuns(Err("locked".to_string()))) {
                RecoveryNext::Finished(r) => assert_eq!(r, Err("locked".to_string())),
                _ => panic!("recovery goes on"),
            }
        }
        _ => panic!("recovery begins otherwise"),
    }
}
