//! Crash recovery: what becomes of the agent runs that an earlier daemon left behind.
use vstd::prelude::*;
use crate::effects::{Action, Event, Outcome};
use crate::ident::{Timestamp, Uuid};
use crate::model::{AgentRun, AgentRunStatus, WorkItemStatus};
use crate::platform::{get_pid_start_time, is_process_alive, KillOutcome};

verus! {

/// Result of checking a single stale agent run.
#[derive(Debug, Clone, Copy, PartialEq, Eq, Structural)]
pub enum AgentRecoveryAction {
    /// The process is dead or another one: mark as failed.
    MarkFailed { run_id: Uuid, work_item_id: Uuid },
    /// The process is alive and the same one: adopt it.
    Adopt { run_id: Uuid, work_item_id: Uuid, pid: u32 },
}

/// State of a process after verification.
#[derive(Debug, Clone, Copy, PartialEq, Eq, Structural)]
pub enum ProcessState {
    /// Process is alive and start time matches the recorded value.
    Alive,
    /// Process is dead (no such process).
    Dead,
    /// The process id exists but belongs to a process that started at another time.
    PidReused,
}

/// The start time of a process, given the text of its `/proc/<pid>/stat` where it could be
/// read.
pub fn read_process_start_time(stat: Option<&str>) -> (r: Option<i64>)
    ensures
        r == (match stat {
            Some(s) => crate::platform::start_time(s@),
            None => None,
        }),
{
    get_pid_start_time(stat)
}

/// The state of a process; what cannot be verified is taken to be alive.
pub open spec fn recovered_state(
    alive: bool,
    expected: Option<i64>,
    actual: Option<i64>,
) -> ProcessState {
    match crate::platform::process_state(alive, expected, actual) {
        crate::platform::ProcessState::Alive => ProcessState::Alive,
        crate::platform::ProcessState::Dead => ProcessState::Dead,
        crate::platform::ProcessState::PidReused => ProcessState::PidReused,
    }
}

/// Verify the state of a process given its id, its expected start time and the text of its
/// `/proc/<pid>/stat` where it could be read.
pub fn verify_process(pid: u32, expected_start_time: Option<i64>, stat: Option<&str>) -> (r:
    ProcessState)
    ensures
        pid > i32::MAX ==> r == ProcessState::Dead,
        pid <= i32::MAX ==> exists|outcome: KillOutcome|
            #[trigger] crate::platform::kill_can_give(pid as i32, None, outcome) && r
                == recovered_state(
                crate::platform::is_alive(outcome),
                expected_start_time,
                match stat {
                    Some(s) => crate::platform::start_time(s@),
                    None => None,
                },
            ),
{
    let alive = is_process_alive(pid);
    let actual = read_process_start_time(stat);
    match crate::platform::classify(alive, expected_start_time, actual) {
        crate::platform::ProcessState::Alive => ProcessState::Alive,
        crate::platform::ProcessState::Dead => ProcessState::Dead,
        crate::platform::ProcessState::PidReused => ProcessState::PidReused,
    }
}

/// What becomes of a run whose process is in the given state; a run without a process id
/// cannot be checked and has failed.
pub open spec fn action_for(run: AgentRun, state: ProcessState) -> AgentRecoveryAction {
    match run.pid {
        Some(pid) => if state == ProcessState::Alive {
            AgentRecoveryAction::Adopt { run_id: run.id, work_item_id: run.work_item_id, pid }
        } else {
            AgentRecoveryAction::MarkFailed { run_id: run.id, work_item_id: run.work_item_id }
        },
        None => AgentRecoveryAction::MarkFailed {
            run_id: run.id,
            work_item_id: run.work_item_id,
        },
    }
}

/// Check a single agent run and determine the recovery action.
pub fn check_agent_run(run: &AgentRun, state: ProcessState) -> (r: AgentRecoveryAction)
    ensures
        r == action_for(*run, state),
{
    match run.pid {
        Some(pid) => match state {
            ProcessState::Alive => AgentRecoveryAction::Adopt {
                run_id: run.id,
                work_item_id: run.work_item_id,
                pid,
            },
            _ => AgentRecoveryAction::MarkFailed {
                run_id: run.id,
                work_item_id: run.work_item_id,
            },
        },
        None => AgentRecoveryAction::MarkFailed {
            run_id: run.id,
            work_item_id: run.work_item_id,
        },
    }
}

/// The recovery actions for the runs, whose processes are in the given states.
pub open spec fn actions_for(runs: Seq<AgentRun>, states: Seq<ProcessState>) -> Seq<
    AgentRecoveryAction,
> {
    Seq::new(runs.len(), |i: int| action_for(runs[i], states[i]))
}

/// Determine recovery actions for all stale agent runs.
pub fn detect_stale_agents(running: &Vec<AgentRun>, states: &Vec<ProcessState>) -> (r: Vec<
    AgentRecoveryAction,
>)
    requires
        running@.len() == states@.len(),
    ensures
        r@ == actions_for(running@, states@),
{
    let mut actions: Vec<AgentRecoveryAction> = Vec::new();
    let mut i: usize = 0;
    while i < running.len()
        invariant
            i <= running@.len() == states@.len(),
            actions@ == actions_for(running@, states@).take(i as int),
        decreases running.len() - i,
    {
        let ghost all = actions_for(running@, states@);
        actions.push(check_agent_run(&running[i], states[i]));
        assert(all.take(i + 1) =~= all.take(i as int).push(all[i as int]));
        i += 1;
    }
    assert(actions_for(running@, states@).take(i as int) =~= actions_for(running@, states@));
    actions
}

/// The runs to adopt, each with its process, in the order of the actions.
pub open spec fn adopted(actions: Seq<AgentRecoveryAction>) -> Seq<(Uuid, u32)>
    decreases actions.len(),
{
    if actions.len() == 0 {
        Seq::empty()
    } else {
        match actions.last() {
            AgentRecoveryAction::Adopt { run_id, pid, .. } => adopted(actions.drop_last()).push(
                (run_id, pid),
            ),
            _ => adopted(actions.drop_last()),
        }
    }
}

// ---- carrying the actions out ----

/// What recovery awaits.
pub enum RecoveryStep {
    Running,
    /// The process of the run after `states` is being verified.
    Verify { runs: Vec<AgentRun>, states: Vec<ProcessState> },
    Now { actions: Vec<AgentRecoveryAction> },
    /// The run of the action at `at` is being marked as failed.
    FailRun { actions: Vec<AgentRecoveryAction>, at: usize, now: Timestamp },
    /// The work item of the action at `at` is being marked as failed.
    FailItem { actions: Vec<AgentRecoveryAction>, at: usize, now: Timestamp },
}

/// What recovery does next: an action, or its end with the adopted runs.
pub enum RecoveryNext {
    Act(RecoveryStep, Action),
    Finished(Outcome<Vec<(Uuid, u32)>>),
}

impl RecoveryStep {
    pub open spec fn accepts(self, ev: Event) -> bool {
        match self {
            RecoveryStep::Running => ev is AgentRuns,
            RecoveryStep::Verify { runs, states } => ev is Process && states.len() < runs.len()
                && runs@[states@.len() as int].pid is Some,
            RecoveryStep::Now { .. } => ev is Time,
            RecoveryStep::FailRun { actions, at, .. } => ev is Done && at < actions.len()
                && actions@[at as int] is MarkFailed,
            RecoveryStep::FailItem { actions, at, .. } => ev is Done && at < actions.len()
                && actions@[at as int] is MarkFailed,
        }
    }

    /// The states of the runs from `states` on, as far as they need no verification.
    pub open spec fn skipped(runs: Seq<AgentRun>, states: Seq<ProcessState>) -> Seq<ProcessState>
        decreases runs.len() - states.len(),
    {
        if states.len() < runs.len() && runs[states.len() as int].pid is None {
            RecoveryStep::skipped(runs, states.push(ProcessState::Dead))
        } else {
            states
        }
    }

    /// Verifies the process of the next run that has one, or goes on to the actions.
    pub open spec fn verifies(
        runs: Seq<AgentRun>,
        states: Seq<ProcessState>,
        n: RecoveryNext,
    ) -> bool {
        let known = RecoveryStep::skipped(runs, states);
        if known.len() < runs.len() {
            let run = runs[known.len() as int];
            &&& n matches RecoveryNext::Act(RecoveryStep::Verify { runs: r, states: s }, a)
            &&& r@ == runs
            &&& s@ == known
            &&& a == Action::VerifyProcess { pid: run.pid->0, expected: run.pid_start_time }
        } else {
            &&& n matches RecoveryNext::Act(RecoveryStep::Now { actions }, a)
            &&& actions@ == actions_for(runs, known)
            &&& a == Action::Now
        }
    }

    /// Where the next action from `at` on stands that marks a run as failed.
    pub open spec fn next_failed(actions: Seq<AgentRecoveryAction>, at: nat) -> nat
        decreases actions.len() - at,
    {
        if at < actions.len() && !(actions[at as int] is MarkFailed) {
            RecoveryStep::next_failed(actions, at + 1)
        } else {
            at
        }
    }

    /// Marks the next run as failed, or ends with the adopted ones.
    pub open spec fn executes(
        actions: Vec<AgentRecoveryAction>,
        at: nat,
        now: Timestamp,
        n: RecoveryNext,
    ) -> bool {
        let i = RecoveryStep::next_failed(actions@, at);
        if i < actions@.len() {
            &&& n matches RecoveryNext::Act(s, Action::FinishRun { run, status, message, at: end })
            &&& s == RecoveryStep::FailRun { actions, at: i as usize, now }
            &&& run == actions@[i as int]->MarkFailed_run_id
            &&& status == AgentRunStatus::Failed
            &&& message@ == "daemon crashed"@
            &&& end == now
        } else {
            &&& n matches RecoveryNext::Finished(Ok(runs))
            &&& runs@ == adopted(actions@)
        }
    }

    pub open spec fn follows(self, ev: Event, n: RecoveryNext) -> bool {
        match (self, ev) {
            (RecoveryStep::Running, Event::AgentRuns(r)) => match r {
                Err(e) => n == RecoveryNext::Finished(Err(e)),
                Ok(runs) => RecoveryStep::verifies(runs@, Seq::empty(), n),
            },
            (RecoveryStep::Verify { runs, states }, Event::Process(state)) => {
                RecoveryStep::verifies(runs@, states@.push(state), n)
            },
            (RecoveryStep::Now { actions }, Event::Time(now)) => {
                RecoveryStep::executes(actions, 0, now, n)
            },
            (RecoveryStep::FailRun { actions, at, now }, Event::Done(r)) => match r {
                Err(e) => n == RecoveryNext::Finished(Err(e)),
                Ok(_) => n == RecoveryNext::Act(
                    RecoveryStep::FailItem { actions, at, now },
                    Action::UpdateItemStatus {
                        item: actions@[at as int]->MarkFailed_work_item_id,
                        status: WorkItemStatus::Failed,
                    },
                ),
            },
            (RecoveryStep::FailItem { actions, at, now }, Event::Done(r)) => match r {
                Err(e) => n == RecoveryNext::Finished(Err(e)),
                Ok(_) => RecoveryStep::executes(actions, (at + 1) as nat, now, n),
            },
            _ => false,
        }
    }

    pub fn step(self, ev: Event) -> (n: RecoveryNext)
        requires
            self.accepts(ev),
        ensures
            self.follows(ev, n),
            n matches RecoveryNext::Act(s, a) ==> forall|e: Event| a.answered_by(e) ==> s.accepts(e),
    {
        match (self, ev) {
            (RecoveryStep::Running, Event::AgentRuns(r)) => match r {
                Err(e) => RecoveryNext::Finished(Err(e)),
                Ok(runs) => {
                    let states: Vec<ProcessState> = Vec::new();
                    assert(states@ =~= Seq::empty());
                    verify_next(runs, states)
                },
            },
            (RecoveryStep::Verify { runs, states }, Event::Process(state)) => {
                let mut states = states;
                states.push(state);
                verify_next(runs, states)
            },
            (RecoveryStep::Now { actions }, Event::Time(now)) => {
                execute_recovery_actions(actions, 0, now)
            },
            (RecoveryStep::FailRun { actions, at, now }, Event::Done(r)) => match r {
                Err(e) => RecoveryNext::Finished(Err(e)),
                Ok(_) => match actions[at] {
                    AgentRecoveryAction::MarkFailed { work_item_id, .. } => RecoveryNext::Act(
                        RecoveryStep::FailItem { actions, at, now },
                        Action::UpdateItemStatus {
                            item: work_item_id,
                            status: WorkItemStatus::Failed,
                        },
                    ),
                    _ => RecoveryNext::Finished(Ok(Vec::new())),
                },
            },
            (RecoveryStep::FailItem { actions, at, now }, Event::Done(r)) => match r {
                Err(e) => RecoveryNext::Finished(Err(e)),
                Ok(_) => execute_recovery_actions(actions, at + 1, now),
            },
            _ => RecoveryNext::Finished(Ok(Vec::new())),
        }
    }
}

fn verify_next(runs: Vec<AgentRun>, states: Vec<ProcessState>) -> (n: RecoveryNext)
    requires
        states@.len() <= runs@.len(),
    ensures
        RecoveryStep::verifies(runs@, states@, n),
        n matches RecoveryNext::Act(s, a) ==> forall|e: Event| a.answered_by(e) ==> s.accepts(e),
{
    let ghost given = states@;
    let mut states = states;
    while states.len() < runs.len() && runs[states.len()].pid.is_none()
        invariant
            states@.len() <= runs@.len(),
            RecoveryStep::skipped(runs@, given) == RecoveryStep::skipped(runs@, states@),
        decreases runs.len() - states.len(),
    {
        states.push(ProcessState::Dead);
    }
    if states.len() < runs.len() {
        let expected = runs[states.len()].pid_start_time;
        match runs[states.len()].pid {
            Some(pid) => RecoveryNext::Act(
                RecoveryStep::Verify { runs, states },
                Action::VerifyProcess { pid, expected },
            ),
            None => RecoveryNext::Finished(Ok(Vec::new())),
        }
    } else {
        let actions = detect_stale_agents(&runs, &states);
        RecoveryNext::Act(RecoveryStep::Now { actions }, Action::Now)
    }
}

fn adopted_runs(actions: &Vec<AgentRecoveryAction>) -> (r: Vec<(Uuid, u32)>)
    ensures
        r@ == adopted(actions@),
{
    let mut out: Vec<(Uuid, u32)> = Vec::new();
    let mut i: usize = 0;
    assert(adopted(actions@.take(0)) =~= Seq::empty());
    while i < actions.len()
        invariant
            i <= actions@.len(),
            out@ == adopted(actions@.take(i as int)),
        decreases actions.len() - i,
    {
        assert(actions@.take(i + 1).drop_last() =~= actions@.take(i as int));
        assert(actions@.take(i + 1).last() == actions@[i as int]);
        match actions[i] {
            AgentRecoveryAction::Adopt { run_id, pid, .. } => out.push((run_id, pid)),
            _ => {},
        }
        i += 1;
    }
    assert(actions@.take(i as int) =~= actions@);
    out
}

/// Execute the recovery actions from `at` on: mark failed agents and their work items, and end
/// with the runs to adopt.
pub fn execute_recovery_actions(
    actions: Vec<AgentRecoveryAction>,
    at: usize,
    now: Timestamp,
) -> (n: RecoveryNext)
    ensures
        RecoveryStep::executes(actions, at as nat, now, n),
        n matches RecoveryNext::Act(s, a) ==> forall|e: Event| a.answered_by(e) ==> s.accepts(e),
{
    let mut i: usize = at;
    while i < actions.len()
        invariant
            RecoveryStep::next_failed(actions@, at as nat) == RecoveryStep::next_failed(
                actions@,
                i as nat,
            ),
        decreases actions.len() - i,
    {
        match actions[i] {
            AgentRecoveryAction::MarkFailed { run_id, .. } => {
                return RecoveryNext::Act(
                    RecoveryStep::FailRun { actions, at: i, now },
                    Action::FinishRun {
                        run: run_id,
                        status: AgentRunStatus::Failed,
                        message: "daemon crashed".to_owned(),
                        at: now,
                    },
                );
            },
            _ => {},
        }
        i += 1;
    }
    RecoveryNext::Finished(Ok(adopted_runs(&actions)))
}

/// Full crash recovery: begins with the runs that are recorded as running.
pub fn recover_stale_agents() -> (n: RecoveryNext)
    ensures
        n == RecoveryNext::Act(RecoveryStep::Running, Action::FindAllRunningAgents),
{
    RecoveryNext::Act(RecoveryStep::Running, Action::FindAllRunningAgents)
}

/// Each run gets one action, in order, that speaks of it: it is adopted exactly if it has a
/// process that is alive, and marked as failed otherwise.
pub proof fn law_one_action_for_each_run(
    runs: Seq<AgentRun>,
    states: Seq<ProcessState>,
    i: int,
)
    requires
        runs.len() == states.len(),
        0 <= i < runs.len(),
    ensures
        actions_for(runs, states).len() == runs.len(),
        actions_for(runs, states)[i] is Adopt <==> runs[i].pid is Some && states[i]
            == ProcessState::Alive,
        match actions_for(runs, states)[i] {
            AgentRecoveryAction::Adopt { run_id, work_item_id, pid } => run_id == runs[i].id
                && work_item_id == runs[i].work_item_id && runs[i].pid == Some(pid),
            AgentRecoveryAction::MarkFailed { run_id, work_item_id } => run_id == runs[i].id
                && work_item_id == runs[i].work_item_id,
        },
{
}

/// A run is among the adopted ones exactly if one of the actions adopts it.
pub proof fn law_adopted_runs_are_those_of_the_actions(
    actions: Seq<AgentRecoveryAction>,
    run: (Uuid, u32),
)
    ensures
        adopted(actions).contains(run) <==> exists|i: int|
            0 <= i < actions.len() && (#[trigger] actions[i] matches AgentRecoveryAction::Adopt {
                run_id,
                pid,
                ..
            } && run == (run_id, pid)),
    decreases actions.len(),
{
    if actions.len() > 0 {
        let init = actions.drop_last();
        law_adopted_runs_are_those_of_the_actions(init, run);
        assert forall|i: int| 0 <= i < init.len() implies init[i] == #[trigger] actions[i] by {}
        match actions.last() {
            AgentRecoveryAction::Adopt { run_id, pid, .. } => {
                crate::seqs::push_contains(adopted(init), (run_id, pid), run);
                assert(actions[actions.len() - 1] == actions.last());
            },
            _ => {},
        }
        if adopted(init).contains(run) {
            let i = choose|i: int|
                0 <= i < init.len() && (#[trigger] init[i] matches AgentRecoveryAction::Adopt {
                    run_id,
                    pid,
                    ..
                } && run == (run_id, pid));
            assert(actions[i] == init[i]);
        }
    }
}

// ---- what recovery leaves ----

/// The recorded runs, in their order, and the statuses of the work items.
pub struct RecordsV {
    pub runs: Seq<AgentRun>,
    pub items: Map<Uuid, WorkItemStatus>,
}

pub open spec fn is_running(r: AgentRun) -> bool {
    r.status == AgentRunStatus::Running
}

/// The run, ended as told.
pub open spec fn ended(
    r: AgentRun,
    status: AgentRunStatus,
    message: String,
    at: Timestamp,
) -> AgentRun {
    AgentRun { status, error_message: Some(message), finished_at: Some(at), ..r }
}

impl RecordsV {
    /// Whether no two runs have one identifier.
    pub open spec fn distinct(self) -> bool {
        forall|i: int, j: int|
            0 <= i < j < self.runs.len() ==> (#[trigger] self.runs[i]).id != (
            #[trigger] self.runs[j]).id
    }

    /// The runs that are recorded as running.
    pub open spec fn running(self) -> Seq<AgentRun> {
        self.runs.filter(|r: AgentRun| is_running(r))
    }

    /// The records after an action.
    pub open spec fn after(self, action: Action) -> RecordsV {
        match action {
            Action::FinishRun { run, status, message, at } => RecordsV {
                runs: self.runs.map_values(
                    |r: AgentRun|
                        if r.id == run {
                            ended(r, status, message, at)
                        } else {
                            r
                        },
                ),
                items: self.items,
            },
            Action::UpdateItemStatus { item, status } => RecordsV {
                runs: self.runs,
                items: self.items.insert(item, status),
            },
            _ => self,
        }
    }

    /// Whether an action has the outcome, where nobody else writes and each process is in the
    /// state that `live` tells.
    pub open spec fn gives(
        self,
        action: Action,
        live: spec_fn(u32, Option<i64>) -> ProcessState,
        ev: Event,
    ) -> bool {
        match action {
            Action::FindAllRunningAgents => ev matches Event::AgentRuns(Ok(runs)) && runs@
                == self.running(),
            Action::VerifyProcess { pid, expected } => ev == Event::Process(live(pid, expected)),
            Action::Now => ev is Time,
            Action::FinishRun { .. } => ev == Event::Done(Ok(())),
            Action::UpdateItemStatus { .. } => ev == Event::Done(Ok(())),
            _ => false,
        }
    }
}

/// Whether recovery, being at `n`, ends after so many actions with the adopted runs, and leaves
/// the records as `left`.
pub open spec fn ends(
    n: RecoveryNext,
    w: RecordsV,
    live: spec_fn(u32, Option<i64>) -> ProcessState,
    taken: Seq<(Uuid, u32)>,
    left: RecordsV,
    steps: nat,
) -> bool
    decreases steps,
{
    match n {
        RecoveryNext::Finished(r) => steps == 0 && (r matches Ok(runs) && runs@ == taken) && left
            == w,
        RecoveryNext::Act(s, a) => steps > 0 && exists|ev: Event, m: RecoveryNext|
            w.gives(a, live, ev) && #[trigger] s.follows(ev, m) && ends(
                m,
                w.after(a),
                live,
                taken,
                left,
                (steps - 1) as nat,
            ),
    }
}

/// Whether a whole recovery of the records ends so.
pub open spec fn recovers(
    w: RecordsV,
    live: spec_fn(u32, Option<i64>) -> ProcessState,
    taken: Seq<(Uuid, u32)>,
    left: RecordsV,
    steps: nat,
) -> bool {
    ends(
        RecoveryNext::Act(RecoveryStep::Running, Action::FindAllRunningAgents),
        w,
        live,
        taken,
        left,
        steps,
    )
}

/// The state of the process of a run.
pub open spec fn state_of(
    r: AgentRun,
    live: spec_fn(u32, Option<i64>) -> ProcessState,
) -> ProcessState {
    match r.pid {
        Some(pid) => live(pid, r.pid_start_time),
        None => ProcessState::Dead,
    }
}

/// Whether a run has a process that is alive and its own.
pub open spec fn lives(r: AgentRun, live: spec_fn(u32, Option<i64>) -> ProcessState) -> bool {
    r.pid is Some && state_of(r, live) == ProcessState::Alive
}

spec fn states_of(
    runs: Seq<AgentRun>,
    live: spec_fn(u32, Option<i64>) -> ProcessState,
) -> Seq<ProcessState> {
    Seq::new(runs.len(), |i: int| state_of(runs[i], live))
}

/// Whether one of the actions from `at` on marks the run as failed.
spec fn marks(actions: Seq<AgentRecoveryAction>, at: nat, run: Uuid) -> bool {
    exists|j: int|
        at <= j < actions.len() && (#[trigger] actions[j] matches AgentRecoveryAction::MarkFailed {
            run_id,
            ..
        } && run_id == run)
}

/// Whether one of the actions from `at` on marks the work item as failed.
spec fn marks_item(actions: Seq<AgentRecoveryAction>, at: nat, item: Uuid) -> bool {
    exists|j: int|
        at <= j < actions.len() && (#[trigger] actions[j] matches AgentRecoveryAction::MarkFailed {
            work_item_id,
            ..
        } && work_item_id == item)
}

proof fn next_failed_is_next(actions: Seq<AgentRecoveryAction>, at: nat)
    requires
        at <= actions.len(),
    ensures
        at <= RecoveryStep::next_failed(actions, at) <= actions.len(),
        forall|j: int|
            at <= j < RecoveryStep::next_failed(actions, at) ==> !(
            #[trigger] actions[j] is MarkFailed),
        RecoveryStep::next_failed(actions, at) < actions.len()
            ==> actions[RecoveryStep::next_failed(actions, at) as int] is MarkFailed,
    decreases actions.len() - at,
{
    if at < actions.len() && !(actions[at as int] is MarkFailed) {
        next_failed_is_next(actions, at + 1);
    }
}

/// Carrying the actions out from `at` on fails those runs and items that they mark, and leaves
/// the others.
proof fn executed(
    actions: Vec<AgentRecoveryAction>,
    at: nat,
    now: Timestamp,
    n: RecoveryNext,
    w: RecordsV,
    live: spec_fn(u32, Option<i64>) -> ProcessState,
    taken: Seq<(Uuid, u32)>,
    left: RecordsV,
    steps: nat,
)
    requires
        at <= actions@.len(),
        RecoveryStep::executes(actions, at, now, n),
        ends(n, w, live, taken, left, steps),
    ensures
        taken == adopted(actions@),
        left.runs.len() == w.runs.len(),
        forall|k: int|
            0 <= k < w.runs.len() ==> (#[trigger] left.runs[k]).id == w.runs[k].id && if marks(
                actions@,
                at,
                w.runs[k].id,
            ) {
                left.runs[k].status == AgentRunStatus::Failed
            } else {
                left.runs[k] == w.runs[k]
            },
        forall|item: Uuid|
            if #[trigger] marks_item(actions@, at, item) {
                left.items.contains_key(item) && left.items[item] == WorkItemStatus::Failed
            } else {
                left.items.contains_key(item) == w.items.contains_key(item) && (
                left.items.contains_key(item) ==> left.items[item] == w.items[item])
            },
    decreases steps,
{
    let i = RecoveryStep::next_failed(actions@, at);
    next_failed_is_next(actions@, at);
    if i < actions@.len() {
        assert(i as usize as nat == i) by {
            assert(actions@.len() == actions.len());
        }
        match n {
            RecoveryNext::Act(s, a) => {
                let (ev, m) = choose|ev: Event, m: RecoveryNext|
                    w.gives(a, live, ev) && #[trigger] s.follows(ev, m) && ends(
                        m,
                        w.after(a),
                        live,
                        taken,
                        left,
                        (steps - 1) as nat,
                    );
                let v = w.after(a);
                match m {
                    RecoveryNext::Act(t, b) => {
                        let (ev2, m2) = choose|ev2: Event, m2: RecoveryNext|
                            v.gives(b, live, ev2) && #[trigger] t.follows(ev2, m2) && ends(
                                m2,
                                v.after(b),
                                live,
                                taken,
                                left,
                                (steps - 2) as nat,
                            );
                        let u = v.after(b);
                        executed(
                            actions,
                            i + 1,
                            now,
                            m2,
                            u,
                            live,
                            taken,
                            left,
                            (steps - 2) as nat,
                        );
                        let run = actions@[i as int]->MarkFailed_run_id;
                        let item = actions@[i as int]->MarkFailed_work_item_id;
                        assert forall|id: Uuid|
                            #[trigger] marks(actions@, at, id) <==> id == run || marks(
                                actions@,
                                i + 1,
                                id,
                            ) by {
                            if marks(actions@, at, id) {
                                let j = choose|j: int|
                                    at <= j < actions@.len() && (#[trigger] actions@[j] matches
                                        AgentRecoveryAction::MarkFailed { run_id, .. } && run_id
                                        == id);
                                assert(j >= i);
                            }
                            if id == run {
                                assert(actions@[i as int] is MarkFailed);
                            }
                            if marks(actions@, i + 1, id) {
                                let j = choose|j: int|
                                    i + 1 <= j < actions@.len() && (#[trigger] actions@[j] matches
                                        AgentRecoveryAction::MarkFailed { run_id, .. } && run_id
                                        == id);
                                assert(actions@[j] is MarkFailed);
                            }
                        }
                        assert forall|id: Uuid|
                            #[trigger] marks_item(actions@, at, id) <==> id == item
                                || marks_item(actions@, i + 1, id) by {
                            if marks_item(actions@, at, id) {
                                let j = choose|j: int|
                                    at <= j < actions@.len() && (#[trigger] actions@[j] matches
                                        AgentRecoveryAction::MarkFailed { work_item_id, .. }
                                        && work_item_id == id);
                                assert(j >= i);
                            }
                            if id == item {
                                assert(actions@[i as int] is MarkFailed);
                            }
                            if marks_item(actions@, i + 1, id) {
                                let j = choose|j: int|
                                    i + 1 <= j < actions@.len() && (#[trigger] actions@[j] matches
                                        AgentRecoveryAction::MarkFailed { work_item_id, .. }
                                        && work_item_id == id);
                                assert(actions@[j] is MarkFailed);
                            }
                        }
                        assert forall|k: int| 0 <= k < w.runs.len() implies (
                        #[trigger] left.runs[k]).id == w.runs[k].id && if marks(
                            actions@,
                            at,
                            w.runs[k].id,
                        ) {
                            left.runs[k].status == AgentRunStatus::Failed
                        } else {
                            left.runs[k] == w.runs[k]
                        } by {
                            assert(u.runs[k].id == w.runs[k].id);
                            assert(w.runs[k].id == run ==> u.runs[k].status
                                == AgentRunStatus::Failed);
                            assert(w.runs[k].id != run ==> u.runs[k] == w.runs[k]);
                        }
                        assert forall|id: Uuid|
                            if #[trigger] marks_item(actions@, at, id) {
                                left.items.contains_key(id) && left.items[id]
                                    == WorkItemStatus::Failed
                            } else {
                                left.items.contains_key(id) == w.items.contains_key(id) && (
                                left.items.contains_key(id) ==> left.items[id] == w.items[id])
                            } by {
                            assert(u.items == w.items.insert(item, WorkItemStatus::Failed));
                            assert(marks_item(actions@, at, id) <==> id == item || marks_item(
                                actions@,
                                i + 1,
                                id,
                            ));
                            if id == item {
                                assert(u.items.contains_key(id));
                                assert(u.items[id] == WorkItemStatus::Failed);
                            } else {
                                assert(u.items.contains_key(id) == w.items.contains_key(id));
                                if w.items.contains_key(id) {
                                    assert(u.items[id] == w.items[id]);
                                }
                            }
                            if !marks_item(actions@, i + 1, id) {
                                assert(left.items.contains_key(id) == u.items.contains_key(id));
                            }
                        }
                    },
                    RecoveryNext::Finished(_) => {},
                }
            },
            RecoveryNext::Finished(_) => {},
        }
    } else {
        assert forall|id: Uuid| !#[trigger] marks(actions@, at, id) by {}
        assert forall|id: Uuid| !#[trigger] marks_item(actions@, at, id) by {}
    }
}

proof fn skipped_is_known(
    runs: Seq<AgentRun>,
    states: Seq<ProcessState>,
    live: spec_fn(u32, Option<i64>) -> ProcessState,
)
    requires
        states.len() <= runs.len(),
        states == states_of(runs, live).take(states.len() as int),
    ensures
        RecoveryStep::skipped(runs, states).len() <= runs.len(),
        RecoveryStep::skipped(runs, states) == states_of(runs, live).take(
            RecoveryStep::skipped(runs, states).len() as int,
        ),
        RecoveryStep::skipped(runs, states).len() < runs.len()
            ==> runs[RecoveryStep::skipped(runs, states).len() as int].pid is Some,
    decreases runs.len() - states.len(),
{
    if states.len() < runs.len() && runs[states.len() as int].pid is None {
        let more = states.push(ProcessState::Dead);
        assert(more =~= states_of(runs, live).take(more.len() as int));
        skipped_is_known(runs, more, live);
    }
}

/// Verifying the processes comes to the actions for the runs in the states that they are in,
/// and changes nothing.
proof fn verified(
    runs: Seq<AgentRun>,
    states: Seq<ProcessState>,
    n: RecoveryNext,
    w: RecordsV,
    live: spec_fn(u32, Option<i64>) -> ProcessState,
    taken: Seq<(Uuid, u32)>,
    left: RecordsV,
    steps: nat,
) -> (r: (Vec<AgentRecoveryAction>, Timestamp, RecoveryNext, nat))
    requires
        states.len() <= runs.len(),
        states == states_of(runs, live).take(states.len() as int),
        RecoveryStep::verifies(runs, states, n),
        ends(n, w, live, taken, left, steps),
    ensures
        r.0@ == actions_for(runs, states_of(runs, live)),
        RecoveryStep::executes(r.0, 0, r.1, r.2),
        ends(r.2, w, live, taken, left, r.3),
    decreases steps,
{
    let known = RecoveryStep::skipped(runs, states);
    skipped_is_known(runs, states, live);
    let s = n->Act_0;
    let a = n->Act_1;
    let (ev, m) = choose|ev: Event, m: RecoveryNext|
        w.gives(a, live, ev) && #[trigger] s.follows(ev, m) && ends(
            m,
            w.after(a),
            live,
            taken,
            left,
            (steps - 1) as nat,
        );
    if known.len() < runs.len() {
        let more = known.push(ev->Process_0);
        assert(more =~= states_of(runs, live).take(more.len() as int));
        verified(runs, more, m, w, live, taken, left, (steps - 1) as nat)
    } else {
        assert(known =~= states_of(runs, live));
        (s->Now_actions, ev->Time_0, m, (steps - 1) as nat)
    }
}

/// The runs to adopt among the recorded ones, in their order.
pub open spec fn living(
    runs: Seq<AgentRun>,
    live: spec_fn(u32, Option<i64>) -> ProcessState,
) -> Seq<(Uuid, u32)>
    decreases runs.len(),
{
    if runs.len() == 0 {
        Seq::empty()
    } else {
        let r = runs.last();
        if is_running(r) && lives(r, live) {
            living(runs.drop_last(), live).push((r.id, r.pid->0))
        } else {
            living(runs.drop_last(), live)
        }
    }
}

proof fn adopted_are_living(
    runs: Seq<AgentRun>,
    live: spec_fn(u32, Option<i64>) -> ProcessState,
)
    ensures
        ({
            let found = runs.filter(|r: AgentRun| is_running(r));
            adopted(actions_for(found, states_of(found, live))) == living(runs, live)
        }),
    decreases runs.len(),
{
    reveal(Seq::filter);
    let keep = |r: AgentRun| is_running(r);
    let found = runs.filter(keep);
    let actions = actions_for(found, states_of(found, live));
    if runs.len() > 0 {
        let init = runs.drop_last();
        adopted_are_living(init, live);
        if keep(runs.last()) {
            let before = init.filter(keep);
            assert(found == before.push(runs.last()));
            assert(actions.drop_last() =~= actions_for(before, states_of(before, live)));
            assert(actions.last() == action_for(runs.last(), state_of(runs.last(), live)));
        }
    } else {
        assert(actions =~= Seq::empty());
    }
}

proof fn living_contains(
    runs: Seq<AgentRun>,
    live: spec_fn(u32, Option<i64>) -> ProcessState,
    x: (Uuid, u32),
)
    ensures
        living(runs, live).contains(x) <==> exists|i: int|
            0 <= i < runs.len() && is_running(#[trigger] runs[i]) && lives(runs[i], live) && x == (
                runs[i].id,
                runs[i].pid->0,
            ),
    decreases runs.len(),
{
    if runs.len() > 0 {
        let init = runs.drop_last();
        living_contains(init, live, x);
        let r = runs.last();
        crate::seqs::push_contains(living(init, live), (r.id, r.pid->0), x);
        assert(runs[runs.len() - 1] == r);
        assert forall|i: int| 0 <= i < init.len() implies init[i] == #[trigger] runs[i] by {}
        if exists|i: int|
            0 <= i < init.len() && is_running(#[trigger] init[i]) && lives(init[i], live) && x == (
                init[i].id,
                init[i].pid->0,
            ) {
            let i = choose|i: int|
                0 <= i < init.len() && is_running(#[trigger] init[i]) && lives(init[i], live) && x
                    == (init[i].id, init[i].pid->0);
            assert(runs[i] == init[i]);
        }
    }
}

/// What a recovery leaves of each run.
spec fn settled(
    before: AgentRun,
    after: AgentRun,
    live: spec_fn(u32, Option<i64>) -> ProcessState,
) -> bool {
    if is_running(before) && !lives(before, live) {
        after.id == before.id && after.status == AgentRunStatus::Failed
    } else {
        after == before
    }
}

/// Whether the item belongs to a run that is recorded as running and has no process of its own.
spec fn fails_item(
    w: RecordsV,
    live: spec_fn(u32, Option<i64>) -> ProcessState,
    item: Uuid,
) -> bool {
    exists|k: int|
        0 <= k < w.runs.len() && is_running(#[trigger] w.runs[k]) && !lives(w.runs[k], live)
            && w.runs[k].work_item_id == item
}

proof fn recovered(
    w: RecordsV,
    live: spec_fn(u32, Option<i64>) -> ProcessState,
    taken: Seq<(Uuid, u32)>,
    left: RecordsV,
    steps: nat,
)
    requires
        w.distinct(),
        recovers(w, live, taken, left, steps),
    ensures
        taken == living(w.runs, live),
        left.runs.len() == w.runs.len(),
        forall|k: int| 0 <= k < w.runs.len() ==> settled(w.runs[k], #[trigger] left.runs[k], live),
        forall|item: Uuid|
            if #[trigger] fails_item(w, live, item) {
                left.items.contains_key(item) && left.items[item] == WorkItemStatus::Failed
            } else {
                left.items.contains_key(item) == w.items.contains_key(item) && (
                left.items.contains_key(item) ==> left.items[item] == w.items[item])
            },
{
    let keep = |r: AgentRun| is_running(r);
    let runs = w.running();
    let first = Action::FindAllRunningAgents;
    let (ev, n) = choose|ev: Event, m: RecoveryNext|
        w.gives(first, live, ev) && #[trigger] RecoveryStep::Running.follows(ev, m) && ends(
            m,
            w.after(first),
            live,
            taken,
            left,
            (steps - 1) as nat,
        );
    let none = Seq::<ProcessState>::empty();
    assert(none =~= states_of(runs, live).take(0));
    let (actions, now, m, rest) = verified(runs, none, n, w, live, taken, left, (steps - 1) as nat);
    executed(actions, 0, now, m, w, live, taken, left, rest);
    adopted_are_living(w.runs, live);
    assert forall|k: int| 0 <= k < w.runs.len() implies settled(
        w.runs[k],
        #[trigger] left.runs[k],
        live,
    ) by {
        let r = w.runs[k];
        crate::seqs::filter_contains(w.runs, keep, r);
        assert(w.runs.contains(r));
        if is_running(r) && !lives(r, live) {
            let j = choose|j: int| 0 <= j < runs.len() && runs[j] == r;
            assert(actions@[j] is MarkFailed);
            assert(marks(actions@, 0, r.id));
        } else if marks(actions@, 0, r.id) {
            let j = choose|j: int|
                0 <= j < actions@.len() && (#[trigger] actions@[j] matches
                    AgentRecoveryAction::MarkFailed { run_id, .. } && run_id == r.id);
            crate::seqs::filter_contains(w.runs, keep, runs[j]);
            assert(runs.contains(runs[j]));
            let i = choose|i: int| 0 <= i < w.runs.len() && w.runs[i] == runs[j];
            assert(w.runs[i].id == w.runs[k].id);
            assert(i == k);
        }
    }
    assert forall|item: Uuid|
        if #[trigger] fails_item(w, live, item) {
            left.items.contains_key(item) && left.items[item] == WorkItemStatus::Failed
        } else {
            left.items.contains_key(item) == w.items.contains_key(item) && (
            left.items.contains_key(item) ==> left.items[item] == w.items[item])
        } by {
        if fails_item(w, live, item) {
            let k = choose|k: int|
                0 <= k < w.runs.len() && is_running(#[trigger] w.runs[k]) && !lives(
                    w.runs[k],
                    live,
                ) && w.runs[k].work_item_id == item;
            crate::seqs::filter_contains(w.runs, keep, w.runs[k]);
            assert(w.runs.contains(w.runs[k]));
            let j = choose|j: int| 0 <= j < runs.len() && runs[j] == w.runs[k];
            assert(actions@[j] is MarkFailed);
            assert(marks_item(actions@, 0, item));
        } else if marks_item(actions@, 0, item) {
            let j = choose|j: int|
                0 <= j < actions@.len() && (#[trigger] actions@[j] matches
                    AgentRecoveryAction::MarkFailed { work_item_id, .. } && work_item_id == item);
            crate::seqs::filter_contains(w.runs, keep, runs[j]);
            assert(runs.contains(runs[j]));
            let i = choose|i: int| 0 <= i < w.runs.len() && w.runs[i] == runs[j];
            assert(is_running(w.runs[i]));
        }
    }
}

proof fn living_stay(
    before: Seq<AgentRun>,
    after: Seq<AgentRun>,
    live: spec_fn(u32, Option<i64>) -> ProcessState,
)
    requires
        before.len() == after.len(),
        forall|k: int| 0 <= k < before.len() ==> settled(before[k], #[trigger] after[k], live),
    ensures
        living(after, live) == living(before, live),
    decreases before.len(),
{
    if before.len() > 0 {
        assert(settled(before.last(), after[after.len() - 1], live));
        assert forall|k: int| 0 <= k < before.len() - 1 implies settled(
            before.drop_last()[k],
            #[trigger] after.drop_last()[k],
            live,
        ) by {
            assert(settled(before[k], after[k], live));
        }
        living_stay(before.drop_last(), after.drop_last(), live);
    }
}

/// Where nobody else writes and no process starts or ends meanwhile, a recovery that succeeds
/// leaves exactly the adopted runs running, each with a process that is alive and its own. A run
/// that was running and is not among them has failed, and so has its work item; the other runs
/// are left as they were.
pub proof fn law_only_the_adopted_run_on(
    w: RecordsV,
    live: spec_fn(u32, Option<i64>) -> ProcessState,
    taken: Seq<(Uuid, u32)>,
    left: RecordsV,
    steps: nat,
)
    requires
        w.distinct(),
        recovers(w, live, taken, left, steps),
    ensures
        forall|run: (Uuid, u32)|
            #![trigger taken.contains(run)]
            taken.contains(run) <==> exists|k: int|
                0 <= k < left.runs.len() && is_running(#[trigger] left.runs[k]) && left.runs[k].id
                    == run.0 && left.runs[k].pid == Some(run.1),
        forall|k: int|
            0 <= k < left.runs.len() && is_running(#[trigger] left.runs[k]) ==> lives(
                left.runs[k],
                live,
            ),
        left.runs.len() == w.runs.len(),
        forall|k: int|
            0 <= k < w.runs.len() ==> (#[trigger] left.runs[k]).id == w.runs[k].id && if lives(
                w.runs[k],
                live,
            ) || !is_running(w.runs[k]) {
                left.runs[k] == w.runs[k]
            } else {
                &&& left.runs[k].status == AgentRunStatus::Failed
                &&& left.items.contains_key(w.runs[k].work_item_id)
                &&& left.items[w.runs[k].work_item_id] == WorkItemStatus::Failed
            },
{
    recovered(w, live, taken, left, steps);
    assert forall|run: (Uuid, u32)|
        #![trigger taken.contains(run)]
        taken.contains(run) <==> exists|k: int|
            0 <= k < left.runs.len() && is_running(#[trigger] left.runs[k]) && left.runs[k].id
                == run.0 && left.runs[k].pid == Some(run.1) by {
        living_contains(w.runs, live, run);
        if taken.contains(run) {
            let k = choose|k: int|
                0 <= k < w.runs.len() && is_running(#[trigger] w.runs[k]) && lives(w.runs[k], live)
                    && run == (w.runs[k].id, w.runs[k].pid->0);
            assert(settled(w.runs[k], left.runs[k], live));
            assert(is_running(left.runs[k]));
        }
        if exists|k: int|
            0 <= k < left.runs.len() && is_running(#[trigger] left.runs[k]) && left.runs[k].id
                == run.0 && left.runs[k].pid == Some(run.1) {
            let k = choose|k: int|
                0 <= k < left.runs.len() && is_running(#[trigger] left.runs[k]) && left.runs[k].id
                    == run.0 && left.runs[k].pid == Some(run.1);
            assert(settled(w.runs[k], left.runs[k], live));
            assert(is_running(w.runs[k]));
        }
    }
    assert forall|k: int| 0 <= k < w.runs.len() implies (#[trigger] left.runs[k]).id
        == w.runs[k].id && if !is_running(w.runs[k]) || lives(w.runs[k], live) {
        left.runs[k] == w.runs[k]
    } else {
        &&& left.runs[k].status == AgentRunStatus::Failed
        &&& left.items.contains_key(w.runs[k].work_item_id)
        &&& left.items[w.runs[k].work_item_id] == WorkItemStatus::Failed
    } by {
        assert(settled(w.runs[k], left.runs[k], live));
        let item = w.runs[k].work_item_id;
        assert(is_running(w.runs[k]) && !lives(w.runs[k], live) ==> fails_item(w, live, item));
    }
}

/// A second recovery at once adopts the same runs and changes nothing.
pub proof fn law_recovering_again_changes_nothing(
    w: RecordsV,
    live: spec_fn(u32, Option<i64>) -> ProcessState,
    taken: Seq<(Uuid, u32)>,
    left: RecordsV,
    steps: nat,
    again: Seq<(Uuid, u32)>,
    end: RecordsV,
    more: nat,
)
    requires
        w.distinct(),
        recovers(w, live, taken, left, steps),
        recovers(left, live, again, end, more),
    ensures
        again == taken,
        end == left,
{
    recovered(w, live, taken, left, steps);
    assert forall|i: int, j: int| 0 <= i < j < left.runs.len() implies #[trigger] left.runs[i].id
        != #[trigger] left.runs[j].id by {
        assert(settled(w.runs[i], left.runs[i], live));
        assert(settled(w.runs[j], left.runs[j], live));
    }
    recovered(left, live, again, end, more);
    living_stay(w.runs, left.runs, live);
    assert forall|k: int| 0 <= k < left.runs.len() implies end.runs[k] == left.runs[k] && !(
    is_running(#[trigger] left.runs[k]) && !lives(left.runs[k], live)) by {
        assert(settled(w.runs[k], left.runs[k], live));
        assert(settled(left.runs[k], end.runs[k], live));
    }
    assert(end.runs =~= left.runs);
    assert forall|item: Uuid|
        #![trigger end.items.contains_key(item)]
        #![trigger left.items.contains_key(item)]
        end.items.contains_key(item) == left.items.contains_key(item) && (end.items.contains_key(
            item,
        ) ==> end.items[item] == left.items[item]) by {
        assert(!fails_item(left, live, item));
    }
    assert(end.items =~= left.items);
}

} // verus!
