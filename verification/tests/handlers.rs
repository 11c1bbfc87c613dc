//! The daemon's commands, carried out against a world that is held in memory.
use std::cell::RefCell;
use std::collections::{BTreeMap, BTreeSet};

use nflow_daemon::claude::{RunConfig, RunKind, StreamEvent, StreamItem};
use nflow_daemon::cleanup::parse_duration_secs;
use nflow_daemon::config::{Config, PartialConfig};
use nflow_daemon::dispatch::{can_dispatch, create_handler, dispatch, HandlerState, Job};
use nflow_daemon::effects::{
    Action, CommandOutput, Event, GitOutput, LogLine, Next, Notice, Template,
};
use nflow_daemon::ident::{Timestamp, Uuid};
use nflow_daemon::json::Json;
use nflow_daemon::model::{
    parse_git_provider, AgentRun, AgentRunStatus, DecompositionSession, DecompositionStatus,
    Dependency, FileEntry, GitProvider, ItemType, Project, Spec, SpecChange, SpecStatus, TaskKind,
    WaveStory, WorkItem, WorkItemStatus,
};
use nflow_daemon::pipeline_data::{
    PipelineDecision, PipelineRun, PipelineStage, PipelineStatus, ReviewOutput, StageOutput,
    StageStatus, StageType,
};
use nflow_daemon::protocol::{Request, ResponseStatus};
use nflow_daemon::recovery::ProcessState;
use nflow_daemon::stage_run::{StageJob, StageNext, StageRun};
use serde_json::Value;

// ---- values ----

fn new_id() -> Uuid {
    Uuid { value: uuid::Uuid::new_v4().as_u128() }
}

fn now() -> Timestamp {
    time("2024-06-01T12:00:00Z")
}

/// A point in time; a date alone is its midnight.
fn time(text: &str) -> Timestamp {
    let text = if text.len() == 10 { format!("{}T00:00:00Z", text) } else { text.to_string() };
    let t = chrono::DateTime::parse_from_rfc3339(&text).unwrap();
    Timestamp::new(t.timestamp(), t.timestamp_subsec_nanos()).unwrap()
}

fn text(s: &str) -> Json {
    Json::Str(s.to_string())
}

fn number(n: u64) -> Json {
    Json::U64(n)
}

fn truth(b: bool) -> Json {
    Json::Bool(b)
}

fn params(members: &[(&str, Json)]) -> Json {
    let mut out = Json::object();
    for (key, value) in members {
        out = out.with(key, value.copy());
    }
    out
}

fn to_value(j: &Json) -> Value {
    match j {
        Json::Null => Value::Null,
        Json::Bool(b) => Value::from(*b),
        Json::U64(n) => Value::from(*n),
        Json::I64(n) => Value::from(*n),
        Json::Decimal(t) => serde_json::from_str(t).unwrap(),
        Json::Str(s) => Value::from(s.as_str()),
        Json::Arr(items) => Value::from(items.iter().map(to_value).collect::<Vec<_>>()),
        Json::Obj(members) => {
            Value::from_iter(members.iter().map(|(k, v)| (k.clone(), to_value(v))))
        }
    }
}

fn from_value(v: &Value) -> Json {
    match v {
        Value::Null => Json::Null,
        Value::Bool(b) => Json::Bool(*b),
        Value::Number(n) => match (n.as_u64(), n.as_i64()) {
            (Some(u), _) => Json::U64(u),
            (None, Some(i)) => Json::I64(i),
            _ => Json::Decimal(n.to_string()),
        },
        Value::String(s) => Json::Str(s.clone()),
        Value::Array(items) => Json::Arr(items.iter().map(from_value).collect()),
        Value::Object(members) => {
            Json::Obj(members.iter().map(|(k, v)| (k.clone(), from_value(v))).collect())
        }
    }
}

// ---- the world ----

/// A git repository that the tests make up.
struct Repo {
    head: Option<String>,
    remote: Option<String>,
}

struct Pipeline {
    run: PipelineRun,
    stages: Vec<PipelineStage>,
}

/// What the commands act on.
struct World {
    db_opens: bool,
    projects: Vec<Project>,
    specs: Vec<Spec>,
    sessions: Vec<DecompositionSession>,
    links: Vec<(Uuid, Uuid)>,
    items: Vec<WorkItem>,
    dependencies: Vec<Dependency>,
    runs: Vec<AgentRun>,
    pipelines: Vec<Pipeline>,
    repos: BTreeMap<String, Repo>,
    files: BTreeMap<String, String>,
    dirs: BTreeSet<String>,
    listed: Vec<FileEntry>,
    user_home: Option<String>,
    configs: BTreeMap<String, PartialConfig>,
    /// What each started run of the agent prints.
    scripts: Vec<Vec<StreamItem>>,
    script: Vec<StreamItem>,
    spawned: Vec<RunConfig>,
    spawn_fails: bool,
    /// With what a run of the agent ends.
    exit_code: Option<i32>,
    /// The limits set for the execution of a project.
    limits: Vec<(Uuid, Option<u32>, Option<String>)>,
    agents: Vec<u32>,
    terminated: Vec<u32>,
    resets: Vec<String>,
    decisions: Vec<PipelineDecision>,
    log_polls: Vec<LogLine>,
    sleeps: u32,
    rendered: Vec<BTreeMap<String, String>>,
    written: Vec<String>,
    notices: Vec<Notice>,
    lines: Vec<Line>,
}

/// One line of a streamed answer.
struct Line {
    id: String,
    status: ResponseStatus,
    data: Value,
    done: bool,
}

struct State {
    world: RefCell<World>,
}

/// One response.
struct Single {
    id: String,
    status: ResponseStatus,
    data: Value,
}

enum Answer {
    Single(Single),
    Streaming(Vec<Line>),
}

const HOME: &str = "/home/user/.nflow";

fn make_db_state() -> State {
    State {
        world: RefCell::new(World {
            db_opens: true,
            projects: Vec::new(),
            specs: Vec::new(),
            sessions: Vec::new(),
            links: Vec::new(),
            items: Vec::new(),
            dependencies: Vec::new(),
            runs: Vec::new(),
            pipelines: Vec::new(),
            repos: BTreeMap::new(),
            files: BTreeMap::new(),
            dirs: BTreeSet::new(),
            listed: Vec::new(),
            user_home: Some("/home/user".to_string()),
            configs: BTreeMap::new(),
            scripts: Vec::new(),
            script: Vec::new(),
            spawned: Vec::new(),
            spawn_fails: false,
            exit_code: Some(0),
            limits: Vec::new(),
            agents: Vec::new(),
            terminated: Vec::new(),
            resets: Vec::new(),
            decisions: Vec::new(),
            log_polls: Vec::new(),
            sleeps: 0,
            rendered: Vec::new(),
            written: Vec::new(),
            notices: Vec::new(),
            lines: Vec::new(),
        }),
    }
}

/// A state whose database cannot be opened.
fn make_test_state() -> State {
    let state = make_db_state();
    state.world.borrow_mut().db_opens = false;
    state
}

/// Carries a request out to its end.
fn answer(req: Request, state: &State) -> Answer {
    assert!(can_dispatch(&req));
    let handler_state = HandlerState { db_path: "/nonexistent/test.db".to_string() };
    let mut next: Next<Job> = dispatch(req, &handler_state);
    loop {
        match next {
            Next::Act(job, action) => {
                let event = state.world.borrow_mut().perform(action);
                next = job.step(event);
            }
            Next::Reply(r) => {
                return Answer::Single(Single {
                    id: r.id,
                    status: r.status,
                    data: to_value(&r.data),
                })
            }
            Next::End => {
                return Answer::Streaming(std::mem::take(&mut state.world.borrow_mut().lines))
            }
        }
    }
}

/// Carries a request out until it is answered or its stream is opened.
fn begin(req: Request, state: &State) -> Option<Single> {
    let handler_state = HandlerState { db_path: "/nonexistent/test.db".to_string() };
    let mut next: Next<Job> = create_handler(handler_state).handle(req);
    loop {
        match next {
            Next::Act(_, Action::OpenStream) => return None,
            Next::Act(job, action) => {
                let event = state.world.borrow_mut().perform(action);
                next = job.step(event);
            }
            Next::Reply(r) => {
                return Some(Single { id: r.id, status: r.status, data: to_value(&r.data) })
            }
            Next::End => panic!("the request was not answered"),
        }
    }
}

/// The response to a request that is not answered by a stream.
fn single(req: Request, state: &State) -> Single {
    match answer(req, state) {
        Answer::Single(resp) => resp,
        Answer::Streaming(_) => panic!("expected Single response"),
    }
}

fn streamed(req: Request, state: &State) -> Vec<Line> {
    match answer(req, state) {
        Answer::Streaming(lines) => lines,
        Answer::Single(resp) => panic!("expected Streaming response: {:?}", resp.data),
    }
}

fn request(id: &str, command: &str, members: &[(&str, Json)]) -> Request {
    Request { id: id.to_string(), command: command.to_string(), params: params(members) }
}

fn message(resp: &Single) -> &str {
    assert_eq!(resp.status, ResponseStatus::Error);
    resp.data["message"].as_str().unwrap()
}

fn run_copy(run: &AgentRun) -> AgentRun {
    AgentRun {
        id: run.id,
        work_item_id: run.work_item_id,
        pid: run.pid,
        session_id: run.session_id.clone(),
        pid_start_time: run.pid_start_time,
        status: run.status,
        exit_code: run.exit_code,
        log_path: run.log_path.clone(),
        error_message: run.error_message.clone(),
        started_at: run.started_at,
        finished_at: run.finished_at,
    }
}

fn stage_copy(s: &PipelineStage) -> PipelineStage {
    PipelineStage {
        id: s.id,
        pipeline_run_id: s.pipeline_run_id,
        stage_type: s.stage_type,
        iteration: s.iteration,
        status: s.status,
        input_context: s.input_context.clone(),
        output_result: s.output_result.clone(),
        started_at: s.started_at,
        finished_at: s.finished_at,
    }
}

fn output_value(o: &StageOutput) -> Value {
    let part = |v: &Option<Json>| v.as_ref().map(to_value).unwrap_or(Value::Null);
    let review = match &o.review {
        Some(r) => Value::from_iter([
            ("passed".to_string(), Value::from(r.passed)),
            ("issues".to_string(), Value::from(r.issues.iter().map(to_value).collect::<Vec<_>>())),
            ("feedback".to_string(), Value::from(r.feedback.as_str())),
        ]),
        None => Value::Null,
    };
    Value::from_iter([
        ("success".to_string(), Value::from(o.success)),
        ("summary".to_string(), Value::from(o.summary.as_str())),
        ("plan".to_string(), part(&o.plan)),
        ("implementation".to_string(), part(&o.implementation)),
        ("review".to_string(), review),
    ])
}

fn read_output(text: &str) -> Option<StageOutput> {
    let v: Value = serde_json::from_str(text).ok()?;
    let part = |k: &str| match &v[k] {
        Value::Null => None,
        other => Some(from_value(other)),
    };
    Some(StageOutput {
        success: v["success"].as_bool()?,
        summary: v["summary"].as_str()?.to_string(),
        plan: part("plan"),
        implementation: part("implementation"),
        review: match &v["review"] {
            Value::Null => None,
            r => Some(ReviewOutput {
                passed: r["passed"].as_bool()?,
                issues: r["issues"].as_array()?.iter().map(from_value).collect(),
                feedback: r["feedback"].as_str()?.to_string(),
            }),
        },
    })
}

fn git(stdout: Option<&String>) -> Event {
    Event::Git(stdout.map(|s| GitOutput { success: true, stdout: format!("{}\n", s) }))
}

impl World {
    /// Runs a query if the database can be opened.
    fn db<T>(&self, found: T) -> Result<T, String> {
        if self.db_opens {
            Ok(found)
        } else {
            Err("unable to open database file: /nonexistent/test.db".to_string())
        }
    }

    fn wave_of(&self, session: Uuid) -> u32 {
        self.sessions.iter().find(|s| s.id == session).map(|s| s.wave_number).unwrap_or(0)
    }

    fn project_of(&self, session: Uuid) -> Option<Uuid> {
        self.sessions.iter().find(|s| s.id == session).map(|s| s.project_id)
    }

    fn items_of(&self, project: Uuid) -> Vec<&WorkItem> {
        self.items
            .iter()
            .filter(|i| self.project_of(i.decomposition_session_id) == Some(project))
            .collect()
    }

    fn sorted_items(&self, keep: impl Fn(&WorkItem) -> bool) -> Vec<WorkItem> {
        let mut found: Vec<WorkItem> =
            self.items.iter().filter(|i| keep(i)).map(|i| i.copy()).collect();
        found.sort_by_key(|i| i.sort_order);
        found
    }

    fn item_mut(&mut self, id: Uuid) -> &mut WorkItem {
        self.items.iter_mut().find(|i| i.id == id).unwrap()
    }

    fn spec_mut(&mut self, id: Uuid) -> &mut Spec {
        self.specs.iter_mut().find(|s| s.id == id).unwrap()
    }

    fn session_mut(&mut self, id: Uuid) -> &mut DecompositionSession {
        self.sessions.iter_mut().find(|s| s.id == id).unwrap()
    }

    fn pipeline_mut(&mut self, id: Uuid) -> Option<&mut Pipeline> {
        self.pipelines.iter_mut().find(|p| p.run.id == id)
    }

    fn done(&self) -> Event {
        Event::Done(self.db(()))
    }

    /// What an action comes to.
    fn perform(&mut self, action: Action) -> Event {
        match action {
            // projects
            Action::PathExists { path } => {
                Event::Flag(Ok(self.dirs.contains(&path) || self.files.contains_key(&path)))
            }
            Action::IsDir { path } => Event::Flag(Ok(self.dirs.contains(&path))),
            Action::GitIsWorkTree { dir } => {
                let inside = "true".to_string();
                git(self.repos.get(&dir).map(|_| &inside))
            }
            Action::GitRemoteUrl { dir } => {
                git(self.repos.get(&dir).and_then(|r| r.remote.as_ref()))
            }
            Action::GitHeadRef { dir } => git(self.repos.get(&dir).and_then(|r| r.head.as_ref())),
            Action::GitReflog { dir } => git(self.repos.get(&dir).and_then(|r| r.head.as_ref())),
            Action::GitReset { target, .. } => {
                self.resets.push(target);
                Event::Command(Ok(CommandOutput { success: true, stderr: String::new() }))
            }
            Action::GitClean { .. } => Event::Done(Ok(())),
            Action::RemoveWorktree { worktree, .. } => {
                self.dirs.remove(&worktree);
                Event::Done(Ok(()))
            }
            Action::NflowHome => Event::Text(Ok(HOME.to_string())),
            Action::CreateDir { path } => {
                self.dirs.insert(path);
                Event::Done(Ok(()))
            }
            Action::RemoveDir { path } => {
                self.dirs.retain(|d| !d.starts_with(&path));
                Event::Done(Ok(()))
            }
            Action::ReadFile { path } => Event::Text(match self.files.get(&path) {
                Some(content) => Ok(content.clone()),
                None => Err("No such file or directory (os error 2)".to_string()),
            }),
            Action::WriteFile { path, content } => {
                self.files.insert(path, content);
                Event::Done(Ok(()))
            }
            Action::ProjectNameExists { name } => {
                Event::Flag(self.db(self.projects.iter().any(|p| p.name == name)))
            }
            Action::CreateProject { params } => {
                let detected = match &params.remote_url {
                    Some(url) if url.contains("github") => Some(GitProvider::Github),
                    Some(url) if url.contains("gitlab") => Some(GitProvider::Gitlab),
                    _ => None,
                };
                Event::Project(match params.git_provider_override.or(detected) {
                    Some(git_provider) => Ok(Project {
                        id: new_id(),
                        name: params.name,
                        path: params.path,
                        base_branch: params.head_ref.unwrap_or("main".to_string()),
                        git_provider,
                        execution_enabled: false,
                        created_at: now(),
                        updated_at: now(),
                    }),
                    None => Err("could not detect git provider".to_string()),
                })
            }
            Action::InsertProject { project } => {
                self.projects.push(project);
                self.done()
            }
            Action::UpdateProject { project } => {
                self.projects.retain(|p| p.id != project.id);
                self.projects.push(project);
                self.done()
            }
            Action::ListProjects => {
                let mut found: Vec<Project> = self.projects.iter().map(|p| p.copy()).collect();
                found.sort_by(|a, b| a.name.partial_cmp(&b.name).unwrap());
                Event::Projects(self.db(found))
            }
            Action::CountSpecs { project } => Event::Count(
                self.db(self.specs.iter().filter(|s| s.project_id == project).count() as u32),
            ),
            Action::CountStories { project } => {
                let items = self.items_of(project);
                let n = items.iter().filter(|i| i.item_type == ItemType::Story);
                Event::Count(self.db(n.count() as u32))
            }
            Action::CountPendingStories { project } => {
                let items = self.items_of(project);
                let n = items.iter().filter(|i| {
                    i.item_type == ItemType::Story && i.status == WorkItemStatus::Pending
                });
                Event::Count(self.db(n.count() as u32))
            }
            Action::FindRunningAgents { project } => {
                let ids: Vec<Uuid> = self.items_of(project).iter().map(|i| i.id).collect();
                let found = self.runs.iter().filter(|r| {
                    r.status == AgentRunStatus::Running && ids.contains(&r.work_item_id)
                });
                Event::AgentRuns(self.db(found.map(run_copy).collect()))
            }
            Action::FindAllRunningAgents => {
                let found = self.runs.iter().filter(|r| r.status == AgentRunStatus::Running);
                Event::AgentRuns(self.db(found.map(run_copy).collect()))
            }
            Action::FindRunningAgentsOfStory { story } => {
                let tasks: Vec<Uuid> = self
                    .items
                    .iter()
                    .filter(|i| i.parent_id == Some(story))
                    .map(|i| i.id)
                    .collect();
                let found = self.runs.iter().filter(|r| {
                    r.status == AgentRunStatus::Running && tasks.contains(&r.work_item_id)
                });
                Event::AgentRuns(self.db(found.map(run_copy).collect()))
            }
            Action::GetProjectByName { name } => Event::MaybeProject(
                self.db(self.projects.iter().find(|p| p.name == name).map(|p| p.copy())),
            ),
            Action::GetProjectById { project } => Event::MaybeProject(
                self.db(self.projects.iter().find(|p| p.id == project).map(|p| p.copy())),
            ),
            Action::CancelInProgressItems { project } => {
                let ids: Vec<Uuid> = self.items_of(project).iter().map(|i| i.id).collect();
                for i in self.items.iter_mut() {
                    if ids.contains(&i.id) && i.status == WorkItemStatus::InProgress {
                        i.status = WorkItemStatus::Cancelled;
                    }
                }
                self.done()
            }
            Action::CancelRunningAgents { project } => {
                let ids: Vec<Uuid> = self.items_of(project).iter().map(|i| i.id).collect();
                for r in self.runs.iter_mut() {
                    if ids.contains(&r.work_item_id) && r.status == AgentRunStatus::Running {
                        r.status = AgentRunStatus::Cancelled;
                    }
                }
                self.done()
            }
            Action::ListWorktreePaths { project } => {
                let found =
                    self.items_of(project).iter().filter_map(|i| i.worktree_path.clone()).collect();
                Event::Texts(self.db(found))
            }
            Action::DeleteProject { project } => {
                self.projects.retain(|p| p.id != project);
                self.specs.retain(|s| s.project_id != project);
                self.sessions.retain(|s| s.project_id != project);
                self.done()
            }
            Action::OpenDb => self.done(),
            // specs
            Action::GetSpecByName { project, name } => {
                let found = self.specs.iter().find(|s| s.project_id == project && s.name == name);
                Event::MaybeSpec(self.db(found.map(|s| s.copy())))
            }
            Action::GetSpecById { spec } => Event::MaybeSpec(
                self.db(self.specs.iter().find(|s| s.id == spec).map(|s| s.copy())),
            ),
            Action::FindLatestDraftSpec { project } => {
                let found = self
                    .specs
                    .iter()
                    .rev()
                    .find(|s| s.project_id == project && s.status == SpecStatus::Draft);
                Event::MaybeSpec(self.db(found.map(|s| s.copy())))
            }
            Action::ListSpecs { project } => {
                let found = self.specs.iter().filter(|s| s.project_id == project);
                Event::Specs(self.db(found.map(|s| s.copy()).collect()))
            }
            Action::HasActiveSpecSession { project } => Event::Flag(self.db(
                self.specs.iter().any(|s| s.project_id == project && s.session_active),
            )),
            Action::NewSpec { project, name, file_path } => Event::Spec(Spec {
                id: new_id(),
                project_id: project,
                name,
                file_path,
                status: SpecStatus::Draft,
                session_active: true,
                claude_session_id: None,
                created_at: now(),
                updated_at: now(),
            }),
            Action::InsertSpec { spec } => {
                self.specs.push(spec);
                self.done()
            }
            Action::ChangeSpec { spec, change } => Event::SpecStatus(match (change, spec.status) {
                (SpecChange::Approve, SpecStatus::Draft) => Ok(SpecStatus::Approved),
                (SpecChange::Reopen, SpecStatus::Approved) => Ok(SpecStatus::Draft),
                (SpecChange::Delete, SpecStatus::Draft) => Ok(SpecStatus::Deleted),
                (SpecChange::Delete, SpecStatus::Approved) => Ok(SpecStatus::Deleted),
                (_, status) => Err(format!("invalid transition from {}", status.as_str())),
            }),
            Action::UpdateSpecStatus { spec, status } => {
                self.spec_mut(spec).status = status;
                self.done()
            }
            Action::UpdateSpecSession { spec, active, claude_session_id } => {
                let s = self.spec_mut(spec);
                s.session_active = active;
                s.claude_session_id = claude_session_id;
                self.done()
            }
            // prompts
            Action::LoadTemplate { template, .. } => Event::Text(Ok(match template {
                Template::SpecSession => "spec_session",
                Template::Decompose => "decompose",
                Template::ImplTask => "task_execution",
                Template::VerifyTask => "verify_task",
                Template::PipelinePlan => "pipeline_plan",
                Template::PipelineImplement => "pipeline_implement",
                Template::PipelineReview => "pipeline_review",
            }
            .to_string())),
            Action::RenderSpecPrompt { template, spec, .. } => {
                Event::Text(Ok(format!("{}: {}", template, spec.name)))
            }
            Action::DescribeSpecs { specs, contents } => {
                assert_eq!(specs.len(), contents.len());
                Event::Written(contents.join(","))
            }
            Action::RenderVerifyPrompt { template, task, impl_task, .. } => {
                Event::Text(Ok(format!("{}: {} of {}", template, task.title, impl_task.title)))
            }
            Action::RenderTaskPrompt { template, task, completed, previous_error, .. } => {
                Event::Text(Ok(format!(
                    "{}: {} after {} [{}]",
                    template,
                    task.title,
                    completed.len(),
                    previous_error
                )))
            }
            Action::RenderTemplate { template, vars } => {
                self.rendered.push(
                    vars.iter().map(|v| (v.name.clone(), v.value.clone())).collect(),
                );
                Event::Text(Ok(template))
            }
            // runs of the agent
            Action::OpenStream => Event::Done(Ok(())),
            Action::SpawnClaude { config } => {
                self.spawned.push(config);
                if self.spawn_fails {
                    return Event::Done(Err("program not found".to_string()));
                }
                self.script =
                    if self.scripts.is_empty() { Vec::new() } else { self.scripts.remove(0) };
                Event::Done(Ok(()))
            }
            Action::NextClaudeEvent | Action::NextStageEvent => {
                if self.script.is_empty() {
                    Event::Claude(Ok(None))
                } else {
                    Event::Claude(Ok(Some(self.script.remove(0))))
                }
            }
            Action::ClaudeSessionId => Event::MaybeText(Some("session-1".to_string())),
            Action::AwaitExit => Event::Exit(self.exit_code),
            Action::LimitExecution { project, parallel, story } => {
                self.limits.push((project, parallel, story));
                Event::Done(Ok(()))
            }
            Action::SpawnAgent { config } => {
                self.spawned.push(config);
                if self.spawn_fails {
                    return Event::Pid(Err("program not found".to_string()));
                }
                self.agents.push(4242);
                Event::Pid(Ok(4242))
            }
            Action::ReadProcStat { .. } => Event::MaybeText(Some(
                "4242 (agent) S 1 1 1 0 -1 4194560 1 0 0 0 0 0 0 0 20 0 1 0 777 0".to_string(),
            )),
            Action::Stamp => Event::Stamp(new_id(), now()),
            Action::InsertAgentRun { run } => {
                self.runs.push(run);
                self.done()
            }
            Action::PipeAgent { .. } => Event::Done(Ok(())),
            Action::Terminate { pid } => {
                self.terminated.push(pid);
                Event::Done(Ok(()))
            }
            Action::FinishRun { run, status, message, at } => {
                let r = self.runs.iter_mut().find(|r| r.id == run).unwrap();
                r.status = status;
                r.error_message = Some(message);
                r.finished_at = Some(at);
                self.done()
            }
            Action::VerifyProcess { .. } => Event::Process(ProcessState::Dead),
            // waves
            Action::ListSessions { project } => {
                let mut found: Vec<DecompositionSession> = self
                    .sessions
                    .iter()
                    .filter(|s| s.project_id == project)
                    .map(DecompositionSession::copy)
                    .collect();
                found.sort_by_key(|s| s.wave_number);
                Event::Sessions(self.db(found))
            }
            Action::GetSessionByWave { project, wave } => {
                let found = self
                    .sessions
                    .iter()
                    .find(|s| s.project_id == project && s.wave_number == wave);
                Event::MaybeSession(self.db(found.map(DecompositionSession::copy)))
            }
            Action::GetSession { session } => Event::MaybeSession(
                self.db(self.sessions.iter().find(|s| s.id == session).map(DecompositionSession::copy)),
            ),
            Action::FindDraftSession { project } => {
                let found = self.sessions.iter().find(|s| {
                    s.project_id == project && s.status == DecompositionStatus::InProgress
                });
                Event::MaybeSession(self.db(found.map(DecompositionSession::copy)))
            }
            Action::ApproveSession { session } => Event::SessionStatus(match session.status {
                DecompositionStatus::InProgress => Ok(DecompositionStatus::Approved),
                _ => Err("wave is not in progress".to_string()),
            }),
            Action::UpdateSessionStatus { session, status } => {
                self.session_mut(session).status = status;
                self.done()
            }
            Action::Now => Event::Time(now()),
            Action::HasInProgressStories { session } => {
                let found = self.items.iter().any(|i| {
                    i.decomposition_session_id == session
                        && i.item_type == ItemType::Story
                        && i.status == WorkItemStatus::InProgress
                });
                Event::Flag(self.db(found))
            }
            Action::ListSpecIds { session } => {
                let found = self.links.iter().filter(|l| l.0 == session).map(|l| l.1).collect();
                Event::Uuids(self.db(found))
            }
            Action::DeleteItems { session } => {
                self.items.retain(|i| i.decomposition_session_id != session);
                self.done()
            }
            Action::FindUnassignedApprovedSpecs { project } => {
                let found = self.specs.iter().filter(|s| {
                    s.project_id == project && s.status == SpecStatus::Approved
                });
                Event::Specs(self.db(found.map(|s| s.copy()).collect()))
            }
            Action::NextWaveNumber { project } => {
                let last = self
                    .sessions
                    .iter()
                    .filter(|s| s.project_id == project)
                    .map(|s| s.wave_number)
                    .max();
                Event::Count(self.db(last.unwrap_or(0) + 1))
            }
            Action::NewSession { project, previous } => Event::Session(Ok(DecompositionSession {
                id: new_id(),
                project_id: project,
                wave_number: previous + 1,
                status: DecompositionStatus::InProgress,
                claude_session_id: None,
                error_message: None,
                created_at: now(),
                updated_at: now(),
            })),
            Action::InsertSession { session } => {
                self.sessions.push(session);
                self.done()
            }
            Action::LinkSpec { session, spec } => {
                self.links.push((session, spec));
                self.done()
            }
            Action::UpdateSessionError { session, message } => {
                self.session_mut(session).error_message = Some(message);
                self.done()
            }
            Action::UpdateSessionClaudeId { session, claude_session_id } => {
                self.session_mut(session).claude_session_id = Some(claude_session_id);
                self.done()
            }
            Action::ParseJson { text } => {
                Event::Parsed(match serde_json::from_str::<Value>(&text) {
                    Ok(v) => Ok(from_value(&v)),
                    Err(e) => Err(e.to_string()),
                })
            }
            // work items
            Action::ListItems { session } => Event::WorkItems(
                self.db(self.sorted_items(|i| i.decomposition_session_id == session)),
            ),
            Action::ListDependencies { session } => {
                let of = |id: Uuid| {
                    self.items
                        .iter()
                        .any(|i| i.id == id && i.decomposition_session_id == session)
                };
                let found =
                    self.dependencies.iter().filter(|d| of(d.blocker_id)).copied().collect();
                Event::Dependencies(self.db(found))
            }
            Action::NewWorkItem { item } => Event::WorkItem(WorkItem {
                id: new_id(),
                parent_id: item.parent,
                decomposition_session_id: item.session,
                kind: if item.item_type == ItemType::Task { Some(TaskKind::Impl) } else { None },
                item_type: item.item_type,
                title: item.title,
                description: item.description,
                acceptance_criteria: item.acceptance,
                status: WorkItemStatus::Pending,
                short_id: item.short_id,
                sort_order: item.sort_order,
                branch_name: None,
                worktree_path: None,
                commit_hash: None,
                mr_url: None,
                error_message: None,
                created_at: now(),
                updated_at: now(),
            }),
            Action::InsertWorkItem { item } => {
                self.items.push(item);
                self.done()
            }
            Action::VerifyTasks { tasks } => Event::Made(
                tasks
                    .iter()
                    .map(|t| {
                        let mut v = t.copy();
                        v.id = new_id();
                        v.kind = Some(TaskKind::Verify);
                        v.short_id = format!("{}v", t.short_id);
                        v.sort_order = t.sort_order + 1;
                        v
                    })
                    .collect(),
            ),
            Action::InsertDependency { dependency } => {
                self.dependencies.push(dependency);
                self.done()
            }
            Action::CheckDag { dependencies, .. } => {
                let cyclic = dependencies.iter().any(|d| {
                    dependencies
                        .iter()
                        .any(|e| e.blocker_id == d.blocked_id && e.blocked_id == d.blocker_id)
                });
                Event::Done(if cyclic { Err("cycle detected".to_string()) } else { Ok(()) })
            }
            Action::Broadcast { notice } => {
                self.notices.push(notice);
                Event::Done(Ok(()))
            }
            Action::FindItemByWaveId { text } => {
                let found = self.items.iter().find(|i| {
                    format!("W{}-{}", self.wave_of(i.decomposition_session_id), i.short_id) == text
                });
                Event::MaybeItem(self.db(found.map(|i| i.copy())))
            }
            Action::GetItem { item } => Event::MaybeItem(
                self.db(self.items.iter().find(|i| i.id == item).map(|i| i.copy())),
            ),
            Action::ListChildren { parent } => {
                Event::WorkItems(self.db(self.sorted_items(|i| i.parent_id == Some(parent))))
            }
            Action::ListStories { session } => Event::WorkItems(self.db(self.sorted_items(|i| {
                i.decomposition_session_id == session && i.item_type == ItemType::Story
            }))),
            Action::UpdateItemStatus { item, status } => {
                self.item_mut(item).status = status;
                self.done()
            }
            Action::CountAgentRuns { task } => Event::Count(
                self.db(self.runs.iter().filter(|r| r.work_item_id == task).count() as u32),
            ),
            Action::FindLatestRun { task } => {
                let found = self.runs.iter().filter(|r| r.work_item_id == task).last();
                Event::MaybeRun(self.db(found.map(run_copy)))
            }
            Action::NextPendingTask { story, tasks } => Event::NextTask(
                tasks
                    .iter()
                    .find(|t| {
                        t.parent_id == Some(story)
                            && t.item_type == ItemType::Task
                            && t.status == WorkItemStatus::Pending
                    })
                    .map(|t| t.copy()),
            ),
            Action::ListDependents { story } => Event::Dependencies(self.db(
                self.dependencies.iter().filter(|d| d.blocker_id == story).copied().collect(),
            )),
            Action::ListBlockers { story } => Event::Dependencies(self.db(
                self.dependencies.iter().filter(|d| d.blocked_id == story).copied().collect(),
            )),
            Action::ListWorktreeStories { project } => {
                let found = self
                    .items_of(project)
                    .iter()
                    .filter(|i| i.item_type == ItemType::Story && i.worktree_path.is_some())
                    .map(|i| WaveStory {
                        story: i.copy(),
                        wave: self.wave_of(i.decomposition_session_id),
                    })
                    .collect();
                Event::WaveStories(self.db(found))
            }
            Action::ClearWorktree { story } => {
                self.item_mut(story).worktree_path = None;
                self.done()
            }
            // logs
            Action::ParseLine { line } => {
                let event = match serde_json::from_str::<Value>(&line) {
                    Ok(v) => StreamEvent::TextDelta {
                        text: v["text"].as_str().unwrap_or("").to_string(),
                    },
                    Err(e) => StreamEvent::ParseError { line, reason: e.to_string() },
                };
                Event::Line(event)
            }
            Action::ReadLog { path } => Event::MaybeFile(Ok(self.files.get(&path).cloned())),
            Action::OpenLog { path } => match self.files.get(&path) {
                Some(content) => {
                    self.log_polls.splice(
                        0..0,
                        content
                            .lines()
                            .map(|l| LogLine::Line(l.to_string()))
                            .chain([LogLine::End]),
                    );
                    Event::Done(Ok(()))
                }
                None => Event::Done(Err("No such file or directory (os error 2)".to_string())),
            },
            Action::ReadLogLine | Action::PollLog { .. } => {
                if self.log_polls.is_empty() {
                    Event::LogLine(LogLine::End)
                } else {
                    Event::LogLine(self.log_polls.remove(0))
                }
            }
            Action::SeekLogEnd { .. } => Event::Done(Ok(())),
            Action::Sleep { millis } => {
                assert_eq!(millis, 500);
                self.sleeps += 1;
                Event::Done(Ok(()))
            }
            Action::ListFiles { .. } => {
                Event::Files(Ok(self.listed.iter().map(|f| f.copy()).collect()))
            }
            Action::RemoveFile { path } => {
                self.listed.retain(|f| !path.ends_with(&format!("/{}", f.name)));
                Event::Done(Ok(()))
            }
            // settings
            Action::HomeDir => Event::MaybeText(self.user_home.clone()),
            Action::ReadConfig { path } => {
                Event::MaybePartial(self.configs.get(&path).map(|c| c.copy()))
            }
            Action::WriteConfig { path, config } => {
                self.configs.insert(path, config);
                Event::Done(Ok(()))
            }
            Action::EnvConfig => Event::Partial(PartialConfig::empty()),
            Action::ResolveConfig { global, project, env } => {
                let text = |k: fn(&PartialConfig) -> Option<String>, default: &str| {
                    k(&env).or(k(&project)).or(k(&global)).unwrap_or(default.to_string())
                };
                Event::Config(Config {
                    max_parallel: env
                        .max_parallel
                        .or(project.max_parallel)
                        .or(global.max_parallel)
                        .unwrap_or(3),
                    git_provider: text(|c| c.git_provider.clone(), "github"),
                    base_branch: text(|c| c.base_branch.clone(), "main"),
                    cleanup_worktrees: env
                        .cleanup_worktrees
                        .or(project.cleanup_worktrees)
                        .or(global.cleanup_worktrees)
                        .unwrap_or(false),
                    max_turns_per_task: env
                        .max_turns_per_task
                        .or(project.max_turns_per_task)
                        .or(global.max_turns_per_task)
                        .unwrap_or(50),
                    auto_execute: env
                        .auto_execute
                        .or(project.auto_execute)
                        .or(global.auto_execute)
                        .unwrap_or(false),
                    max_time_per_task: env
                        .max_time_per_task
                        .or(project.max_time_per_task)
                        .or(global.max_time_per_task)
                        .unwrap_or(1800),
                    log_level: text(|c| c.log_level.clone(), "info"),
                    branch_template: None,
                    worktree_dir: None,
                })
            }
            Action::ValidateConfig { config } => {
                Event::Done(if config.max_parallel == 0 {
                    Err("max_parallel must be at least 1".to_string())
                } else if parse_git_provider(&config.git_provider).is_none() {
                    Err(format!("unknown git provider: {}", config.git_provider))
                } else {
                    Ok(())
                })
            }
            // pipelines
            Action::GetActiveRun { project } => {
                let found = self.pipelines.iter().find(|p| {
                    p.run.project_id == project && p.run.status == PipelineStatus::Running
                });
                Event::MaybePipeline(self.db(found.map(|p| p.run.copy())))
            }
            Action::NewPipelineRun { project, name, goal, max_iterations } => {
                Event::Pipeline(PipelineRun {
                    id: new_id(),
                    project_id: project,
                    name,
                    goal,
                    status: PipelineStatus::Pending,
                    current_stage: None,
                    iteration: 0,
                    max_iterations,
                    created_at: now(),
                    updated_at: now(),
                })
            }
            Action::InsertPipelineRun { run } => {
                self.pipelines.push(Pipeline { run, stages: Vec::new() });
                self.done()
            }
            Action::UpdatePipelineRun { run, status, stage, iteration } => {
                let p = self.pipeline_mut(run).unwrap();
                p.run.status = status;
                p.run.current_stage = stage;
                p.run.iteration = iteration;
                self.done()
            }
            Action::GetPipelineRun { run } => Event::MaybePipeline(
                self.db(self.pipelines.iter().find(|p| p.run.id == run).map(|p| p.run.copy())),
            ),
            Action::ListPipelineRuns { project } => {
                let found = self.pipelines.iter().filter(|p| p.run.project_id == project);
                Event::Pipelines(self.db(found.map(|p| p.run.copy()).collect()))
            }
            Action::ListPipelineStages { run } => {
                let found = self.pipelines.iter().find(|p| p.run.id == run).unwrap();
                Event::Stages(self.db(found.stages.iter().map(stage_copy).collect()))
            }
            Action::FindPipelineStages { run, stage_type, iteration } => {
                let of = self.pipelines.iter().find(|p| p.run.id == run).unwrap();
                let found = of.stages.iter().filter(|s| {
                    stage_type.as_ref().map_or(true, |t| t == s.stage_type.as_str())
                        && iteration.map_or(true, |i| i == s.iteration)
                });
                Event::Stages(self.db(found.map(stage_copy).collect()))
            }
            Action::NewStage { run, stage_type, iteration, .. } => Event::Stage(PipelineStage {
                id: new_id(),
                pipeline_run_id: run,
                stage_type,
                iteration,
                status: StageStatus::Running,
                input_context: None,
                output_result: None,
                started_at: Some(now()),
                finished_at: None,
            }),
            Action::InsertStage { stage } => {
                self.pipeline_mut(stage.pipeline_run_id).unwrap().stages.push(stage);
                self.done()
            }
            Action::MarkStageStarted { .. } => self.done(),
            Action::FinishStage { stage, status, output, at } => {
                for p in self.pipelines.iter_mut() {
                    for s in p.stages.iter_mut().filter(|s| s.id == stage) {
                        s.status = status;
                        s.output_result = Some(output_value(&output).to_string());
                        s.finished_at = Some(at);
                    }
                }
                self.done()
            }
            Action::PrettyHistory { history } => {
                Event::Written(format!("{} records", history.len()))
            }
            Action::PrettyOutput { output } => {
                Event::Written(serde_json::to_string_pretty(&output_value(&output)).unwrap())
            }
            Action::OutputValue { output } => Event::Value(from_value(&output_value(&output))),
            Action::ParseStageOutput { text } => Event::MaybeOutput(read_output(&text)),
            Action::CreateLog { path } => {
                self.files.insert(path, String::new());
                Event::Done(Ok(()))
            }
            Action::WriteLog { line } => {
                self.written.push(line);
                Event::Done(Ok(()))
            }
            Action::CloseLog => Event::Done(Ok(())),
            Action::DecideNext { .. } => Event::Decision(self.decisions.remove(0)),
            Action::Send { line } => {
                self.lines.push(Line {
                    id: line.id,
                    status: line.status,
                    data: to_value(&line.data),
                    done: line.done,
                });
                Event::Done(Ok(()))
            }
        }
    }
}

impl State {
    fn project(&self, name: &str) -> Option<Project> {
        self.world.borrow().projects.iter().find(|p| p.name == name).map(|p| p.copy())
    }

    fn spec(&self, project: Uuid, name: &str) -> Option<Spec> {
        let w = self.world.borrow();
        let found = w.specs.iter().find(|s| s.project_id == project && s.name == name);
        found.map(|s| s.copy())
    }

    fn item(&self, id: Uuid) -> WorkItem {
        self.world.borrow().items.iter().find(|i| i.id == id).unwrap().copy()
    }

    fn item_status(&self, id: Uuid) -> String {
        self.item(id).status.as_str().to_string()
    }

    fn insert_project(&self, project: &Project) {
        self.world.borrow_mut().projects.push(project.copy());
    }

    fn insert_session(&self, session: &DecompositionSession) {
        self.world.borrow_mut().sessions.push(session.copy());
    }

    fn insert_item(&self, item: &WorkItem) {
        self.world.borrow_mut().items.push(item.copy());
    }

    fn insert_dependency(&self, dependency: &Dependency) {
        self.world.borrow_mut().dependencies.push(*dependency);
    }

    /// Puts a row into a table, given by its columns.
    fn row(&self, table: &str, columns: &[(&str, String)]) {
        let get = |name: &str| {
            columns.iter().find(|(c, _)| *c == name).map(|(_, v)| v.clone())
        };
        let id_of = |name: &str| Uuid::parse(&get(name).unwrap()).unwrap();
        let mut w = self.world.borrow_mut();
        match table {
            "specs" => w.specs.push(Spec {
                id: id_of("id"),
                project_id: id_of("project_id"),
                name: get("name").unwrap(),
                file_path: get("file_path").unwrap(),
                status: match get("status").unwrap().as_str() {
                    "draft" => SpecStatus::Draft,
                    "approved" => SpecStatus::Approved,
                    "decomposed" => SpecStatus::Decomposed,
                    "deleted" => SpecStatus::Deleted,
                    other => panic!("no such status: {}", other),
                },
                session_active: matches!(
                    get("session_active").unwrap().as_str(),
                    "1" | "true"
                ),
                claude_session_id: get("claude_session_id"),
                created_at: time(&get("created_at").unwrap()),
                updated_at: time(&get("updated_at").unwrap()),
            }),
            "decomposition_sessions" => w.sessions.push(DecompositionSession {
                id: id_of("id"),
                project_id: id_of("project_id"),
                wave_number: get("wave_number").unwrap().parse().unwrap(),
                status: match get("status").unwrap().as_str() {
                    "approved" => DecompositionStatus::Approved,
                    "in_progress" => DecompositionStatus::InProgress,
                    other => panic!("no such status: {}", other),
                },
                claude_session_id: get("claude_session_id"),
                error_message: None,
                created_at: time(&get("created_at").unwrap()),
                updated_at: time(&get("updated_at").unwrap()),
            }),
            "work_items" => w.items.push(WorkItem {
                id: id_of("id"),
                parent_id: get("parent_id").map(|p| Uuid::parse(&p).unwrap()),
                decomposition_session_id: id_of("decomposition_session_id"),
                item_type: match get("item_type").unwrap().as_str() {
                    "epic" => ItemType::Epic,
                    "story" => ItemType::Story,
                    "task" => ItemType::Task,
                    other => panic!("no such type: {}", other),
                },
                kind: match get("kind").as_deref() {
                    Some("impl") => Some(TaskKind::Impl),
                    Some("verify") => Some(TaskKind::Verify),
                    _ => None,
                },
                title: get("title").unwrap(),
                description: get("description").unwrap_or_default(),
                acceptance_criteria: None,
                status: match get("status").unwrap().as_str() {
                    "pending" => WorkItemStatus::Pending,
                    "ready" => WorkItemStatus::Ready,
                    "in_progress" => WorkItemStatus::InProgress,
                    "done" => WorkItemStatus::Done,
                    "failed" => WorkItemStatus::Failed,
                    "cancelled" => WorkItemStatus::Cancelled,
                    other => panic!("no such status: {}", other),
                },
                short_id: get("short_id").unwrap(),
                sort_order: get("sort_order").unwrap().parse().unwrap(),
                branch_name: get("branch_name"),
                worktree_path: get("worktree_path"),
                commit_hash: get("commit_hash"),
                mr_url: None,
                error_message: None,
                created_at: time(&get("created_at").unwrap()),
                updated_at: time(&get("updated_at").unwrap()),
            }),
            "agent_runs" => w.runs.push(AgentRun {
                id: id_of("id"),
                work_item_id: id_of("work_item_id"),
                pid: get("pid").map(|p| p.parse().unwrap()),
                session_id: None,
                pid_start_time: None,
                status: match get("status").unwrap().as_str() {
                    "running" => AgentRunStatus::Running,
                    "succeeded" => AgentRunStatus::Succeeded,
                    "failed" => AgentRunStatus::Failed,
                    other => panic!("no such status: {}", other),
                },
                exit_code: get("exit_code").map(|c| c.parse().unwrap()),
                log_path: get("log_path"),
                error_message: get("error_message"),
                started_at: time(&get("started_at").unwrap()),
                finished_at: get("finished_at").map(|t| time(&t)),
            }),
            other => panic!("no such table: {}", other),
        }
    }

    /// Makes a repository at the path.
    fn git_init(&self, path: &str, branch: &str, remote: Option<&str>) {
        let mut w = self.world.borrow_mut();
        w.dirs.insert(path.to_string());
        w.repos.insert(
            path.to_string(),
            Repo { head: Some(branch.to_string()), remote: remote.map(|r| r.to_string()) },
        );
    }
}

fn insert_test_project(state: &State, name: &str) -> Uuid {
    let project = Project {
        id: new_id(),
        name: name.to_string(),
        path: "/tmp/fakepath".to_string(),
        base_branch: "main".to_string(),
        git_provider: GitProvider::Github,
        execution_enabled: true,
        created_at: now(),
        updated_at: now(),
    };
    state.insert_project(&project);
    project.id
}

fn insert_test_spec(
    state: &State,
    project_id: Uuid,
    name: &str,
    status: &str,
    session_active: bool,
) -> Uuid {
    insert_test_spec_with_session(state, project_id, name, status, session_active, None)
}

fn insert_test_spec_with_session(
    state: &State,
    project_id: Uuid,
    name: &str,
    status: &str,
    session_active: bool,
    claude_session_id: Option<&str>,
) -> Uuid {
    let spec_id = new_id();
    let mut columns = vec![
        ("id", spec_id.to_text()),
        ("project_id", project_id.to_text()),
        ("name", name.to_string()),
        ("file_path", format!("/tmp/specs/{}.md", name)),
        ("status", status.to_string()),
        ("session_active", session_active.to_string()),
        ("created_at", "2024-01-01T00:00:00Z".to_string()),
        ("updated_at", "2024-01-01T00:00:00Z".to_string()),
    ];
    if let Some(id) = claude_session_id {
        columns.push(("claude_session_id", id.to_string()));
    }
    state.row("specs", &columns);
    spec_id
}

fn new_item(
    item_type: ItemType,
    parent_id: Option<Uuid>,
    session: Uuid,
    title: &str,
    description: &str,
    acceptance: Option<&str>,
    short_id: &str,
    sort_order: i32,
) -> WorkItem {
    WorkItem {
        id: new_id(),
        parent_id,
        decomposition_session_id: session,
        item_type,
        kind: if item_type == ItemType::Task { Some(TaskKind::Impl) } else { None },
        title: title.to_string(),
        description: description.to_string(),
        acceptance_criteria: acceptance.map(|a| a.to_string()),
        status: WorkItemStatus::Pending,
        short_id: short_id.to_string(),
        sort_order,
        branch_name: None,
        worktree_path: None,
        commit_hash: None,
        mr_url: None,
        error_message: None,
        created_at: now(),
        updated_at: now(),
    }
}

fn new_epic(session: Uuid, title: &str, desc: &str, short_id: &str, sort_order: i32) -> WorkItem {
    new_item(ItemType::Epic, None, session, title, desc, None, short_id, sort_order)
}

fn new_story(
    epic: Uuid,
    session: Uuid,
    title: &str,
    desc: &str,
    acceptance: &str,
    short_id: &str,
    sort_order: i32,
) -> WorkItem {
    new_item(
        ItemType::Story,
        Some(epic),
        session,
        title,
        desc,
        Some(acceptance),
        short_id,
        sort_order,
    )
}

fn new_task(
    story: Uuid,
    session: Uuid,
    title: &str,
    desc: &str,
    acceptance: &str,
    short_id: &str,
    sort_order: i32,
) -> WorkItem {
    new_item(
        ItemType::Task,
        Some(story),
        session,
        title,
        desc,
        Some(acceptance),
        short_id,
        sort_order,
    )
}

// ---- project.init ----

const DIR: &str = "/tmp/nflow_test_init";

#[test]
fn test_handle_project_init_not_a_git_repo() {
    let state = make_test_state();
    state.world.borrow_mut().dirs.insert(DIR.to_string());
    let req = request("3", "project.init", &[("name", text("testproject")), ("path", text(DIR))]);
    let result = single(req, &state);
    assert_eq!(result.status, ResponseStatus::Error);
    assert!(result.data["message"].as_str().unwrap().contains("INVALID_PARAMS"));
}

#[test]
fn test_handle_project_init_success() {
    let state = make_db_state();
    state.git_init(DIR, "main", Some("https://github.com/user/repo.git"));
    let req = request("4", "project.init", &[("name", text("test-project")), ("path", text(DIR))]);
    let result = single(req, &state);
    assert_eq!(
        result.status,
        ResponseStatus::Success,
        "Expected Ok but got error: {:?}",
        result.data
    );
    assert_eq!(result.data["name"], "test-project");
    assert_eq!(result.data["path"], DIR);
    assert_eq!(result.data["base_branch"], "main");
    assert_eq!(result.data["git_provider"], "github");
    assert!(result.data["project_id"].is_string());

    // Verify the project was persisted in DB
    let project = state.project("test-project").unwrap();
    assert_eq!(project.name, "test-project");
}

#[test]
fn test_handle_project_init_duplicate_name() {
    let state = make_db_state();
    state.git_init(DIR, "main", Some("https://github.com/user/repo.git"));
    let req = request("5", "project.init", &[("name", text("dup-project")), ("path", text(DIR))]);
    let result = single(req, &state);
    assert_eq!(result.status, ResponseStatus::Success);

    // Try to create another project with the same name
    let req2 = request("6", "project.init", &[("name", text("dup-project")), ("path", text(DIR))]);
    let result2 = single(req2, &state);
    assert_eq!(result2.status, ResponseStatus::Error);
    assert!(result2.data["message"].as_str().unwrap().contains("ALREADY_EXISTS"));
}

#[test]
fn test_handle_project_init_with_explicit_provider() {
    let state = make_db_state();
    // A git repo with no remote
    state.git_init(DIR, "develop", None);
    let req = request(
        "7",
        "project.init",
        &[
            ("name", text("gitlab-project")),
            ("path", text(DIR)),
            ("git_provider", text("gitlab")),
        ],
    );
    let result = single(req, &state);
    assert_eq!(
        result.status,
        ResponseStatus::Success,
        "Expected Ok but got error: {:?}",
        result.data
    );
    assert_eq!(result.data["git_provider"], "gitlab");
    assert_eq!(result.data["base_branch"], "develop");
}

#[test]
fn test_handle_project_init_with_explicit_base_branch() {
    let state = make_db_state();
    state.git_init(DIR, "main", Some("https://github.com/user/repo.git"));
    let req = request(
        "8",
        "project.init",
        &[
            ("name", text("branch-project")),
            ("path", text(DIR)),
            ("base_branch", text("release")),
        ],
    );
    let result = single(req, &state);
    assert_eq!(
        result.status,
        ResponseStatus::Success,
        "Expected Ok but got error: {:?}",
        result.data
    );
    assert_eq!(result.data["base_branch"], "release");
}

// ---- spec sessions ----

#[test]
fn test_handle_spec_new_creates_spec_record() {
    let state = make_db_state();
    let project_id = insert_test_project(&state, "spec-project");
    let req = request(
        "54",
        "spec.new",
        &[("project_name", text("spec-project")), ("spec_name", text("my-spec"))],
    );
    match begin(req, &state) {
        None => {
            // Verify spec was created in DB with session_active=true
            let spec = state.spec(project_id, "my-spec").expect("spec should exist");
            assert_eq!(spec.name, "my-spec");
            assert_eq!(spec.status, SpecStatus::Draft);
            assert!(spec.session_active);
            assert_eq!(spec.project_id, project_id);
        }
        Some(resp) => {
            panic!("expected Streaming response but got Single: {:?}", resp.data);
        }
    }
}

#[test]
fn test_handle_spec_new_with_codebase_default_true() {
    let state = make_db_state();
    insert_test_project(&state, "codebase-project");
    // No with_codebase param: it defaults to true
    let req = request(
        "55",
        "spec.new",
        &[("project_name", text("codebase-project")), ("spec_name", text("code-spec"))],
    );
    match answer(req, &state) {
        Answer::Streaming(_) => {}
        Answer::Single(resp) => {
            panic!("expected Streaming response but got Single: {:?}", resp.data);
        }
    }
    let world = state.world.borrow();
    assert_eq!(world.spawned[0].kind, RunKind::Spec { with_codebase: true });
    assert_eq!(world.spawned[0].working_dir, Some("/tmp/fakepath".to_string()));
}

#[test]
fn test_handle_spec_answer_with_valid_session_returns_streaming() {
    let state = make_db_state();
    let project_id = insert_test_project(&state, "streaming-project");
    let spec_id = insert_test_spec_with_session(
        &state,
        project_id,
        "my-spec",
        "draft",
        true,
        Some("session-abc"),
    );
    let req = request(
        "66",
        "spec.answer",
        &[("spec_id", Json::Str(spec_id.to_text())), ("answer_text", text("I want to use Rust"))],
    );
    match answer(req, &state) {
        Answer::Streaming(_) => {}
        Answer::Single(resp) => {
            panic!("expected Streaming response but got Single: {:?}", resp.data);
        }
    }
    let world = state.world.borrow();
    assert_eq!(world.spawned[0].resume_session, Some("session-abc".to_string()));
    assert_eq!(world.spawned[0].prompt, "I want to use Rust");
}

#[test]
fn test_handle_spec_resume_returns_streaming() {
    let state = make_db_state();
    let project_id = insert_test_project(&state, "resume-streaming-project");
    insert_test_spec_with_session(
        &state,
        project_id,
        "resume-spec",
        "draft",
        false,
        Some("session-abc"),
    );
    let req = request(
        "155",
        "spec.resume",
        &[
            ("project_name", text("resume-streaming-project")),
            ("spec_name", text("resume-spec")),
        ],
    );
    match begin(req, &state) {
        None => {
            // Verify session was marked active in DB
            let spec = state.spec(project_id, "resume-spec").unwrap();
            assert!(spec.session_active);
        }
        Some(resp) => {
            panic!("expected Streaming response but got Single: {:?}", resp.data);
        }
    }
}

#[test]
fn test_handle_spec_view_reads_file() {
    let state = make_db_state();
    let project_id = insert_test_project(&state, "view-read-project");
    let spec_file = "/tmp/nflow_view/auth.md";
    state
        .world
        .borrow_mut()
        .files
        .insert(spec_file.to_string(), "# My Spec\n\nSome content here.".to_string());
    state.row(
        "specs",
        &[
            ("id", new_id().to_text()),
            ("project_id", project_id.to_text()),
            ("name", "my-spec".to_string()),
            ("file_path", spec_file.to_string()),
            ("status", "draft".to_string()),
            ("session_active", "0".to_string()),
            ("created_at", "2024-01-01".to_string()),
            ("updated_at", "2024-01-01".to_string()),
        ],
    );
    let req = request(
        "113",
        "spec.view",
        &[("project_name", text("view-read-project")), ("spec_name", text("my-spec"))],
    );
    let result = single(req, &state);
    assert_eq!(
        result.status,
        ResponseStatus::Success,
        "Expected Ok but got error: {:?}",
        result.data
    );
    assert_eq!(result.data["name"], "my-spec");
    assert_eq!(result.data["status"], "draft");
    assert_eq!(result.data["content"], "# My Spec\n\nSome content here.");
}

// ---- settings ----

#[test]
fn test_config_show_and_set_with_filesystem() {
    let state = make_db_state();

    // 1. config.show returns defaults with no config files
    let resp = single(request("700", "config.show", &[]), &state);
    assert_eq!(resp.status, ResponseStatus::Success);
    let config = &resp.data["config"];
    assert_eq!(config["max_parallel"]["value"], 3);
    assert_eq!(config["max_parallel"]["type"], "integer");
    assert_eq!(config["git_provider"]["value"], "github");
    assert_eq!(config["base_branch"]["value"], "main");
    assert_eq!(config["cleanup_worktrees"]["value"], false);
    assert_eq!(config["max_turns_per_task"]["value"], 50);
    assert_eq!(config["auto_execute"]["value"], false);
    assert_eq!(config["max_time_per_task"]["value"], 1800);
    assert_eq!(config["log_level"]["value"], "info");
    // Without any config files, all layers should be "default"
    assert_eq!(config["max_parallel"]["layer"], "default");
    assert_eq!(config["git_provider"]["layer"], "default");
    assert!(resp.data["project"].is_null());

    // 2. config.set integer and verify show reflects it as "global" layer
    let req = request("717", "config.set", &[("key", text("max_parallel")), ("value", number(8))]);
    let resp = single(req, &state);
    assert_eq!(resp.status, ResponseStatus::Success, "set int failed: {:?}", resp.data);
    assert_eq!(resp.data["key"], "max_parallel");
    assert_eq!(resp.data["value"], 8);
    assert_eq!(resp.data["layer"], "global");
    assert!(resp.data["project"].is_null());

    // Verify config file was written
    let written = state.world.borrow().configs["/home/user/.nflow/config.toml"].copy();
    assert_eq!(written.max_parallel, Some(8));

    // Verify show now reflects the global layer
    let resp = single(request("700b", "config.show", &[]), &state);
    assert_eq!(resp.status, ResponseStatus::Success);
    assert_eq!(resp.data["config"]["max_parallel"]["value"], 8);
    assert_eq!(resp.data["config"]["max_parallel"]["layer"], "global");

    // 3. config.set boolean value
    let req =
        request("718", "config.set", &[("key", text("cleanup_worktrees")), ("value", truth(true))]);
    let resp = single(req, &state);
    assert_eq!(resp.status, ResponseStatus::Success, "set bool failed: {:?}", resp.data);
    assert_eq!(resp.data["key"], "cleanup_worktrees");
    assert_eq!(resp.data["value"], true);

    // 4. config.set string value
    let req =
        request("719", "config.set", &[("key", text("log_level")), ("value", text("debug"))]);
    let resp = single(req, &state);
    assert_eq!(resp.status, ResponseStatus::Success, "set string failed: {:?}", resp.data);
    assert_eq!(resp.data["key"], "log_level");
    assert_eq!(resp.data["value"], "debug");

    // 5. Invalid git_provider rejected by validation
    let req = request(
        "720",
        "config.set",
        &[("key", text("git_provider")), ("value", text("bitbucket"))],
    );
    let resp = single(req, &state);
    assert_eq!(resp.status, ResponseStatus::Error);
    assert!(resp.data["message"].as_str().unwrap().contains("invalid config"));
}

// ---- durations ----

#[test]
fn test_parse_duration_secs() {
    assert_eq!(parse_duration_secs("7d"), Some(7 * 86400));
    assert_eq!(parse_duration_secs("24h"), Some(24 * 3600));
    assert_eq!(parse_duration_secs("30m"), Some(30 * 60));
    assert_eq!(parse_duration_secs("10s"), Some(10));
    assert_eq!(parse_duration_secs(""), None);
    assert_eq!(parse_duration_secs("abc"), None);
    assert_eq!(parse_duration_secs("x"), None);
}

#[test]
fn test_parse_git_provider_github() {
    assert_eq!(parse_git_provider("github"), Some(GitProvider::Github));
    assert_eq!(parse_git_provider("Github"), Some(GitProvider::Github));
    assert_eq!(parse_git_provider("GITHUB"), Some(GitProvider::Github));
}

#[test]
fn test_parse_git_provider_gitlab() {
    assert_eq!(parse_git_provider("gitlab"), Some(GitProvider::Gitlab));
    assert_eq!(parse_git_provider("GitLab"), Some(GitProvider::Gitlab));
}

#[test]
fn test_parse_git_provider_unknown() {
    assert_eq!(parse_git_provider("bitbucket"), None);
    assert_eq!(parse_git_provider(""), None);
}

#[test]
fn test_handle_project_init_missing_name() {
    let state = make_test_state();
    let req = Request {
        id: "1".to_string(),
        command: "project.init".to_string(),
        params: params(&[("path", text("/tmp"))]),
    };
    let result = single(req, &state);
    assert_eq!(result.status, ResponseStatus::Error);
    assert!(result.data["message"]
        .as_str()
        .unwrap()
        .contains("missing required parameter: name"));
}

#[test]
fn test_handle_project_init_missing_path() {
    let state = make_test_state();
    let req = Request {
        id: "2".to_string(),
        command: "project.init".to_string(),
        params: params(&[("name", text("myproject"))]),
    };
    let result = single(req, &state);
    assert_eq!(result.status, ResponseStatus::Error);
    assert!(result.data["message"]
        .as_str()
        .unwrap()
        .contains("missing required parameter: path"));
}

#[test]
fn test_dispatch_unknown_command() {
    let state = make_test_state();
    let req = Request {
        id: "99".to_string(),
        command: "unknown.command".to_string(),
        params: params(&[]),
    };
    match answer(req, &state) {
        Answer::Single(resp) => {
            assert_eq!(resp.status, ResponseStatus::Error);
            assert!(resp.data["message"]
                .as_str()
                .unwrap()
                .contains("unknown command"));
        }
        _ => panic!("expected Single response"),
    }
}

#[test]
fn test_handle_project_list_empty() {
    let state = make_db_state();
    let req = Request {
        id: "10".to_string(),
        command: "project.list".to_string(),
        params: params(&[]),
    };
    let result = single(req, &state);
    assert_eq!(result.status, ResponseStatus::Success);
    let projects = result.data["projects"].as_array().unwrap();
    assert!(projects.is_empty());
}

#[test]
fn test_handle_project_list_with_projects() {
    let state = make_db_state();
    insert_test_project(&state, "alpha");
    insert_test_project(&state, "beta");

    let req = Request {
        id: "11".to_string(),
        command: "project.list".to_string(),
        params: params(&[]),
    };
    let result = single(req, &state);
    assert_eq!(result.status, ResponseStatus::Success);
    let projects = result.data["projects"].as_array().unwrap();
    assert_eq!(projects.len(), 2);
    // Ordered by name
    assert_eq!(projects[0]["name"], "alpha");
    assert_eq!(projects[1]["name"], "beta");
    // Check all fields present
    assert_eq!(projects[0]["base_branch"], "main");
    assert_eq!(projects[0]["git_provider"], "github");
    assert_eq!(projects[0]["execution_enabled"], true);
    assert_eq!(projects[0]["spec_count"], 0);
    assert_eq!(projects[0]["story_count"], 0);
}

#[test]
fn test_handle_project_list_with_spec_count() {
    let state = make_db_state();
    let project_id = insert_test_project(&state, "myproject");

    // Insert a spec directly
    state.row(
        "specs",
        &[
            ("id", new_id().to_text()),
            ("project_id", project_id.to_text()),
            ("name", "spec1".to_string()),
            ("file_path", "/tmp/auth.md".to_string()),
            ("status", "draft".to_string()),
            ("session_active", "0".to_string()),
            ("created_at", "2024-01-01".to_string()),
            ("updated_at", "2024-01-01".to_string()),
        ],
    );

    let req = Request {
        id: "12".to_string(),
        command: "project.list".to_string(),
        params: params(&[]),
    };
    let result = single(req, &state);
    assert_eq!(result.status, ResponseStatus::Success);
    let projects = result.data["projects"].as_array().unwrap();
    assert_eq!(projects[0]["spec_count"], 1);
}

#[test]
fn test_handle_project_delete_missing_name() {
    let state = make_test_state();
    let req = Request {
        id: "20".to_string(),
        command: "project.delete".to_string(),
        params: params(&[]),
    };
    let result = single(req, &state);
    assert_eq!(result.status, ResponseStatus::Error);
    assert!(result.data["message"]
        .as_str()
        .unwrap()
        .contains("missing required parameter: name"));
}

#[test]
fn test_handle_project_delete_not_found() {
    let state = make_db_state();
    let req = Request {
        id: "21".to_string(),
        command: "project.delete".to_string(),
        params: params(&[("name", text("nonexistent"))]),
    };
    let result = single(req, &state);
    assert_eq!(result.status, ResponseStatus::Error);
    assert!(result.data["message"]
        .as_str()
        .unwrap()
        .contains("NOT_FOUND"));
}

#[test]
fn test_handle_project_delete_success() {
    let state = make_db_state();
    insert_test_project(&state, "to-delete");

    let req = Request {
        id: "22".to_string(),
        command: "project.delete".to_string(),
        params: params(&[("name", text("to-delete"))]),
    };
    let result = single(req, &state);
    assert_eq!(
        result.status,
        ResponseStatus::Success,
        "Expected Ok but got error: {:?}",
        result.data
    );
    assert_eq!(result.data["name"], "to-delete");
    assert_eq!(result.data["deleted"], true);

    // Verify project is actually deleted
    let project = state.project("to-delete");
    assert!(project.is_none());
}

#[test]
fn test_handle_project_delete_with_running_agents_no_force() {
    let state = make_db_state();
    let project_id = insert_test_project(&state, "running-project");

    // Create a decomposition session and work item with a running agent
    let session_id = new_id();
    state.row(
        "decomposition_sessions",
        &[
            ("id", session_id.to_text()),
            ("project_id", project_id.to_text()),
            ("wave_number", "1".to_string()),
            ("status", "approved".to_string()),
            ("created_at", "2024-01-01".to_string()),
            ("updated_at", "2024-01-01".to_string()),
        ],
    );
    let epic_id = new_id();
    state.row(
        "work_items",
        &[
            ("id", epic_id.to_text()),
            ("decomposition_session_id", session_id.to_text()),
            ("item_type", "epic".to_string()),
            ("title", "Epic".to_string()),
            ("status", "in_progress".to_string()),
            ("short_id", "E1".to_string()),
            ("sort_order", "0".to_string()),
            ("created_at", "2024-01-01".to_string()),
            ("updated_at", "2024-01-01".to_string()),
        ],
    );
    let agent_id = new_id();
    state.row(
        "agent_runs",
        &[
            ("id", agent_id.to_text()),
            ("work_item_id", epic_id.to_text()),
            ("status", "running".to_string()),
            ("started_at", "2024-01-01".to_string()),
        ],
    );

    // Without force: should error
    let req = Request {
        id: "23".to_string(),
        command: "project.delete".to_string(),
        params: params(&[("name", text("running-project"))]),
    };
    let result = single(req, &state);
    assert_eq!(result.status, ResponseStatus::Error);
    assert!(result.data["message"]
        .as_str()
        .unwrap()
        .contains("INVALID_STATE"));
    assert!(result.data["message"]
        .as_str()
        .unwrap()
        .contains("running agent"));
}

#[test]
fn test_handle_project_delete_with_running_agents_force() {
    let state = make_db_state();
    let project_id = insert_test_project(&state, "force-project");

    // Create a decomposition session, work item, and running agent
    let session_id = new_id();
    state.row(
        "decomposition_sessions",
        &[
            ("id", session_id.to_text()),
            ("project_id", project_id.to_text()),
            ("wave_number", "1".to_string()),
            ("status", "approved".to_string()),
            ("created_at", "2024-01-01".to_string()),
            ("updated_at", "2024-01-01".to_string()),
        ],
    );
    let epic_id = new_id();
    state.row(
        "work_items",
        &[
            ("id", epic_id.to_text()),
            ("decomposition_session_id", session_id.to_text()),
            ("item_type", "epic".to_string()),
            ("title", "Epic".to_string()),
            ("status", "in_progress".to_string()),
            ("short_id", "E1".to_string()),
            ("sort_order", "0".to_string()),
            ("created_at", "2024-01-01".to_string()),
            ("updated_at", "2024-01-01".to_string()),
        ],
    );
    let agent_id = new_id();
    state.row(
        "agent_runs",
        &[
            ("id", agent_id.to_text()),
            ("work_item_id", epic_id.to_text()),
            ("status", "running".to_string()),
            ("started_at", "2024-01-01".to_string()),
        ],
    );

    // With force: should succeed
    let req = Request {
        id: "24".to_string(),
        command: "project.delete".to_string(),
        params: params(&[("name", text("force-project")), ("force", truth(true))]),
    };
    let result = single(req, &state);
    assert_eq!(
        result.status,
        ResponseStatus::Success,
        "Expected Ok but got error: {:?}",
        result.data
    );
    assert_eq!(result.data["name"], "force-project");
    assert_eq!(result.data["deleted"], true);

    // Verify project is deleted
    let project = state.project("force-project");
    assert!(project.is_none());
}

#[test]
fn test_handle_project_delete_cascades() {
    let state = make_db_state();
    let project_id = insert_test_project(&state, "cascade-project");

    // Add a spec to the project
    state.row(
        "specs",
        &[
            ("id", new_id().to_text()),
            ("project_id", project_id.to_text()),
            ("name", "spec1".to_string()),
            ("file_path", "/tmp/auth.md".to_string()),
            ("status", "draft".to_string()),
            ("session_active", "0".to_string()),
            ("created_at", "2024-01-01".to_string()),
            ("updated_at", "2024-01-01".to_string()),
        ],
    );

    let req = Request {
        id: "25".to_string(),
        command: "project.delete".to_string(),
        params: params(&[("name", text("cascade-project"))]),
    };
    let result = single(req, &state);
    assert_eq!(
        result.status,
        ResponseStatus::Success,
        "Expected Ok but got error: {:?}",
        result.data
    );

    // Verify specs are also deleted (cascaded)
    let count: u32 = state.world.borrow().specs.len() as u32;
    assert_eq!(count, 0);
}

#[test]
fn test_dispatch_project_list() {
    let state = make_db_state();
    let req = Request {
        id: "30".to_string(),
        command: "project.list".to_string(),
        params: params(&[]),
    };
    match answer(req, &state) {
        Answer::Single(resp) => {
            assert_eq!(resp.status, ResponseStatus::Success);
        }
        _ => panic!("expected Single response"),
    }
}

#[test]
fn test_dispatch_project_delete() {
    let state = make_db_state();
    let req = Request {
        id: "31".to_string(),
        command: "project.delete".to_string(),
        params: params(&[("name", text("nope"))]),
    };
    match answer(req, &state) {
        Answer::Single(resp) => {
            // Should be error (not found) but not "unknown command"
            assert_eq!(resp.status, ResponseStatus::Error);
            assert!(resp.data["message"].as_str().unwrap().contains("NOT_FOUND"));
        }
        _ => panic!("expected Single response"),
    }
}

#[test]
fn test_handle_spec_new_missing_project_name() {
    let state = make_test_state();
    let req = Request {
        id: "50".to_string(),
        command: "spec.new".to_string(),
        params: params(&[("spec_name", text("my-spec"))]),
    };
    match answer(req, &state) {
        Answer::Single(resp) => {
            assert_eq!(resp.status, ResponseStatus::Error);
            assert!(resp.data["message"]
                .as_str()
                .unwrap()
                .contains("missing required parameter: project_name"));
        }
        _ => panic!("expected Single response for error"),
    }
}

#[test]
fn test_handle_spec_new_missing_spec_name() {
    let state = make_test_state();
    let req = Request {
        id: "51".to_string(),
        command: "spec.new".to_string(),
        params: params(&[("project_name", text("myproject"))]),
    };
    match answer(req, &state) {
        Answer::Single(resp) => {
            assert_eq!(resp.status, ResponseStatus::Error);
            assert!(resp.data["message"]
                .as_str()
                .unwrap()
                .contains("missing required parameter: spec_name"));
        }
        _ => panic!("expected Single response for error"),
    }
}

#[test]
fn test_handle_spec_new_project_not_found() {
    let state = make_db_state();
    let req = Request {
        id: "52".to_string(),
        command: "spec.new".to_string(),
        params: params(&[("project_name", text("nonexistent")), ("spec_name", text("my-spec"))]),
    };
    match answer(req, &state) {
        Answer::Single(resp) => {
            assert_eq!(resp.status, ResponseStatus::Error);
            assert!(resp.data["message"].as_str().unwrap().contains("NOT_FOUND"));
        }
        _ => panic!("expected Single response for error"),
    }
}

#[test]
fn test_handle_spec_new_active_session_exists() {
    let state = make_db_state();
    let project_id = insert_test_project(&state, "active-project");

    // Create an active spec session
    state.row(
        "specs",
        &[
            ("id", new_id().to_text()),
            ("project_id", project_id.to_text()),
            ("name", "existing-spec".to_string()),
            ("file_path", "/tmp/auth.md".to_string()),
            ("status", "draft".to_string()),
            ("session_active", "1".to_string()),
            ("created_at", "2024-01-01".to_string()),
            ("updated_at", "2024-01-01".to_string()),
        ],
    );

    let req = Request {
        id: "53".to_string(),
        command: "spec.new".to_string(),
        params: params(&[
            ("project_name", text("active-project")),
            ("spec_name", text("new-spec")),
        ]),
    };
    match answer(req, &state) {
        Answer::Single(resp) => {
            assert_eq!(resp.status, ResponseStatus::Error);
            assert!(resp.data["message"]
                .as_str()
                .unwrap()
                .contains("INVALID_STATE"));
            assert!(resp.data["message"]
                .as_str()
                .unwrap()
                .contains("session is already active"));
        }
        _ => panic!("expected Single response for error"),
    }
}

#[test]
fn test_dispatch_spec_new() {
    let state = make_db_state();
    let req = Request {
        id: "56".to_string(),
        command: "spec.new".to_string(),
        params: params(&[("project_name", text("nope"))]),
    };
    match answer(req, &state) {
        Answer::Single(resp) => {
            // Should be error (missing spec_name) but not "unknown command"
            assert_eq!(resp.status, ResponseStatus::Error);
            assert!(resp.data["message"]
                .as_str()
                .unwrap()
                .contains("missing required parameter: spec_name"));
        }
        _ => panic!("expected Single response for missing param"),
    }
}

#[test]
fn test_handle_spec_answer_missing_spec_id() {
    let state = make_test_state();
    let req = Request {
        id: "60".to_string(),
        command: "spec.answer".to_string(),
        params: params(&[("answer_text", text("Rust"))]),
    };
    match answer(req, &state) {
        Answer::Single(resp) => {
            assert_eq!(resp.status, ResponseStatus::Error);
            assert!(resp.data["message"]
                .as_str()
                .unwrap()
                .contains("missing required parameter: spec_id"));
        }
        _ => panic!("expected Single response for error"),
    }
}

#[test]
fn test_handle_spec_answer_missing_answer_text() {
    let state = make_test_state();
    let req = Request {
        id: "61".to_string(),
        command: "spec.answer".to_string(),
        params: params(&[("spec_id", Json::Str(new_id().to_text()))]),
    };
    match answer(req, &state) {
        Answer::Single(resp) => {
            assert_eq!(resp.status, ResponseStatus::Error);
            assert!(resp.data["message"]
                .as_str()
                .unwrap()
                .contains("missing required parameter: answer_text"));
        }
        _ => panic!("expected Single response for error"),
    }
}

#[test]
fn test_handle_spec_answer_invalid_spec_id_format() {
    let state = make_test_state();
    let req = Request {
        id: "62".to_string(),
        command: "spec.answer".to_string(),
        params: params(&[("spec_id", text("not-a-uuid")), ("answer_text", text("Rust"))]),
    };
    match answer(req, &state) {
        Answer::Single(resp) => {
            assert_eq!(resp.status, ResponseStatus::Error);
            assert!(resp.data["message"]
                .as_str()
                .unwrap()
                .contains("INVALID_PARAMS"));
        }
        _ => panic!("expected Single response for error"),
    }
}

#[test]
fn test_handle_spec_answer_spec_not_found() {
    let state = make_db_state();
    let req = Request {
        id: "63".to_string(),
        command: "spec.answer".to_string(),
        params: params(&[
            ("spec_id", Json::Str(new_id().to_text())),
            ("answer_text", text("Rust")),
        ]),
    };
    match answer(req, &state) {
        Answer::Single(resp) => {
            assert_eq!(resp.status, ResponseStatus::Error);
            assert!(resp.data["message"].as_str().unwrap().contains("NOT_FOUND"));
        }
        _ => panic!("expected Single response for error"),
    }
}

#[test]
fn test_handle_spec_answer_no_active_session() {
    let state = make_db_state();
    let project_id = insert_test_project(&state, "answer-project");

    // Create a spec with session_active=false
    let spec_id = new_id();
    state.row(
        "specs",
        &[
            ("id", spec_id.to_text()),
            ("project_id", project_id.to_text()),
            ("name", "my-spec".to_string()),
            ("file_path", "/tmp/auth.md".to_string()),
            ("status", "draft".to_string()),
            ("session_active", "0".to_string()),
            ("created_at", "2024-01-01".to_string()),
            ("updated_at", "2024-01-01".to_string()),
        ],
    );

    let req = Request {
        id: "64".to_string(),
        command: "spec.answer".to_string(),
        params: params(&[
            ("spec_id", Json::Str(spec_id.to_text())),
            ("answer_text", text("Rust")),
        ]),
    };
    match answer(req, &state) {
        Answer::Single(resp) => {
            assert_eq!(resp.status, ResponseStatus::Error);
            assert!(resp.data["message"]
                .as_str()
                .unwrap()
                .contains("INVALID_STATE"));
            assert!(resp.data["message"]
                .as_str()
                .unwrap()
                .contains("no active session"));
        }
        _ => panic!("expected Single response for error"),
    }
}

#[test]
fn test_handle_spec_answer_no_claude_session_id() {
    let state = make_db_state();
    let project_id = insert_test_project(&state, "nosession-project");

    // Create a spec with session_active=true but no claude_session_id
    let spec_id = new_id();
    state.row(
        "specs",
        &[
            ("id", spec_id.to_text()),
            ("project_id", project_id.to_text()),
            ("name", "my-spec".to_string()),
            ("file_path", "/tmp/auth.md".to_string()),
            ("status", "draft".to_string()),
            ("session_active", "1".to_string()),
            ("created_at", "2024-01-01".to_string()),
            ("updated_at", "2024-01-01".to_string()),
        ],
    );

    let req = Request {
        id: "65".to_string(),
        command: "spec.answer".to_string(),
        params: params(&[
            ("spec_id", Json::Str(spec_id.to_text())),
            ("answer_text", text("Rust")),
        ]),
    };
    match answer(req, &state) {
        Answer::Single(resp) => {
            assert_eq!(resp.status, ResponseStatus::Error);
            assert!(resp.data["message"]
                .as_str()
                .unwrap()
                .contains("INVALID_STATE"));
            let told = resp.data["message"].as_str().unwrap();
            assert!(told.contains("INVALID_STATE: spec has no "));
            assert!(told.contains(" session to resume"));
        }
        _ => panic!("expected Single response for error"),
    }
}

#[test]
fn test_dispatch_spec_answer() {
    let state = make_db_state();
    let req = Request {
        id: "67".to_string(),
        command: "spec.answer".to_string(),
        params: params(&[("answer_text", text("Rust"))]),
    };
    match answer(req, &state) {
        Answer::Single(resp) => {
            // Should be error (missing spec_id) but not "unknown command"
            assert_eq!(resp.status, ResponseStatus::Error);
            assert!(resp.data["message"]
                .as_str()
                .unwrap()
                .contains("missing required parameter: spec_id"));
        }
        _ => panic!("expected Single response for missing param"),
    }
}

#[test]
fn test_handle_spec_list_missing_project_name() {
    let state = make_test_state();
    let req = Request {
        id: "100".to_string(),
        command: "spec.list".to_string(),
        params: params(&[]),
    };
    let result = single(req, &state);
    assert_eq!(result.status, ResponseStatus::Error);
    assert!(result.data["message"]
        .as_str()
        .unwrap()
        .contains("missing required parameter: project_name"));
}

#[test]
fn test_handle_spec_list_project_not_found() {
    let state = make_db_state();
    let req = Request {
        id: "101".to_string(),
        command: "spec.list".to_string(),
        params: params(&[("project_name", text("nonexistent"))]),
    };
    let result = single(req, &state);
    assert_eq!(result.status, ResponseStatus::Error);
    assert!(result.data["message"]
        .as_str()
        .unwrap()
        .contains("NOT_FOUND"));
}

#[test]
fn test_handle_spec_list_empty() {
    let state = make_db_state();
    insert_test_project(&state, "empty-project");

    let req = Request {
        id: "102".to_string(),
        command: "spec.list".to_string(),
        params: params(&[("project_name", text("empty-project"))]),
    };
    let result = single(req, &state);
    assert_eq!(result.status, ResponseStatus::Success);
    let specs = result.data["specs"].as_array().unwrap();
    assert!(specs.is_empty());
}

#[test]
fn test_handle_spec_list_returns_specs() {
    let state = make_db_state();
    let project_id = insert_test_project(&state, "list-project");
    insert_test_spec(&state, project_id, "alpha", "draft", false);
    insert_test_spec(&state, project_id, "beta", "approved", false);

    let req = Request {
        id: "103".to_string(),
        command: "spec.list".to_string(),
        params: params(&[("project_name", text("list-project"))]),
    };
    let result = single(req, &state);
    assert_eq!(result.status, ResponseStatus::Success);
    let specs = result.data["specs"].as_array().unwrap();
    assert_eq!(specs.len(), 2);
    assert_eq!(specs[0]["name"], "alpha");
    assert_eq!(specs[0]["status"], "draft");
    assert_eq!(specs[1]["name"], "beta");
    assert_eq!(specs[1]["status"], "approved");
}

#[test]
fn test_handle_spec_list_hides_deleted() {
    let state = make_db_state();
    let project_id = insert_test_project(&state, "delete-list-project");
    insert_test_spec(&state, project_id, "visible", "draft", false);
    insert_test_spec(&state, project_id, "hidden", "deleted", false);

    let req = Request {
        id: "104".to_string(),
        command: "spec.list".to_string(),
        params: params(&[("project_name", text("delete-list-project"))]),
    };
    let result = single(req, &state);
    assert_eq!(result.status, ResponseStatus::Success);
    let specs = result.data["specs"].as_array().unwrap();
    assert_eq!(specs.len(), 1);
    assert_eq!(specs[0]["name"], "visible");
}

#[test]
fn test_handle_spec_list_includes_session_active() {
    let state = make_db_state();
    let project_id = insert_test_project(&state, "session-list-project");
    insert_test_spec(&state, project_id, "active-spec", "draft", true);

    let req = Request {
        id: "105".to_string(),
        command: "spec.list".to_string(),
        params: params(&[("project_name", text("session-list-project"))]),
    };
    let result = single(req, &state);
    assert_eq!(result.status, ResponseStatus::Success);
    let specs = result.data["specs"].as_array().unwrap();
    assert_eq!(specs[0]["session_active"], true);
}

#[test]
fn test_handle_spec_view_missing_project_name() {
    let state = make_test_state();
    let req = Request {
        id: "110".to_string(),
        command: "spec.view".to_string(),
        params: params(&[("spec_name", text("my-spec"))]),
    };
    let result = single(req, &state);
    assert_eq!(result.status, ResponseStatus::Error);
    assert!(result.data["message"]
        .as_str()
        .unwrap()
        .contains("missing required parameter: project_name"));
}

#[test]
fn test_handle_spec_view_missing_spec_name() {
    let state = make_test_state();
    let req = Request {
        id: "111".to_string(),
        command: "spec.view".to_string(),
        params: params(&[("project_name", text("myproject"))]),
    };
    let result = single(req, &state);
    assert_eq!(result.status, ResponseStatus::Error);
    assert!(result.data["message"]
        .as_str()
        .unwrap()
        .contains("missing required parameter: spec_name"));
}

#[test]
fn test_handle_spec_view_spec_not_found() {
    let state = make_db_state();
    insert_test_project(&state, "view-project");

    let req = Request {
        id: "112".to_string(),
        command: "spec.view".to_string(),
        params: params(&[
            ("project_name", text("view-project")),
            ("spec_name", text("nonexistent")),
        ]),
    };
    let result = single(req, &state);
    assert_eq!(result.status, ResponseStatus::Error);
    assert!(result.data["message"]
        .as_str()
        .unwrap()
        .contains("NOT_FOUND"));
}

#[test]
fn test_handle_spec_view_file_not_found() {
    let state = make_db_state();
    let project_id = insert_test_project(&state, "nofile-project");
    insert_test_spec(&state, project_id, "no-file-spec", "draft", false);

    let req = Request {
        id: "114".to_string(),
        command: "spec.view".to_string(),
        params: params(&[
            ("project_name", text("nofile-project")),
            ("spec_name", text("no-file-spec")),
        ]),
    };
    let result = single(req, &state);
    assert_eq!(result.status, ResponseStatus::Error);
    assert!(result.data["message"]
        .as_str()
        .unwrap()
        .contains("failed to read spec file"));
}

#[test]
fn test_handle_spec_approve_missing_params() {
    let state = make_test_state();
    let req = Request {
        id: "120".to_string(),
        command: "spec.approve".to_string(),
        params: params(&[]),
    };
    let result = single(req, &state);
    assert_eq!(result.status, ResponseStatus::Error);
    assert!(result.data["message"]
        .as_str()
        .unwrap()
        .contains("missing required parameter: project_name"));
}

#[test]
fn test_handle_spec_approve_draft_to_approved() {
    let state = make_db_state();
    let project_id = insert_test_project(&state, "approve-project");
    insert_test_spec(&state, project_id, "my-spec", "draft", false);

    let req = Request {
        id: "121".to_string(),
        command: "spec.approve".to_string(),
        params: params(&[
            ("project_name", text("approve-project")),
            ("spec_name", text("my-spec")),
        ]),
    };
    let result = single(req, &state);
    assert_eq!(
        result.status,
        ResponseStatus::Success,
        "Expected Ok but got error: {:?}",
        result.data
    );
    assert_eq!(result.data["name"], "my-spec");
    assert_eq!(result.data["status"], "approved");

    // Verify DB
    let spec = state.spec(project_id, "my-spec").unwrap();
    assert_eq!(spec.status, SpecStatus::Approved);
}

#[test]
fn test_handle_spec_approve_already_approved() {
    let state = make_db_state();
    let project_id = insert_test_project(&state, "already-approved-project");
    insert_test_spec(&state, project_id, "approved-spec", "approved", false);

    let req = Request {
        id: "122".to_string(),
        command: "spec.approve".to_string(),
        params: params(&[
            ("project_name", text("already-approved-project")),
            ("spec_name", text("approved-spec")),
        ]),
    };
    let result = single(req, &state);
    assert_eq!(result.status, ResponseStatus::Error);
    assert!(result.data["message"]
        .as_str()
        .unwrap()
        .contains("INVALID_STATE"));
}

#[test]
fn test_handle_spec_approve_stops_active_session() {
    let state = make_db_state();
    let project_id = insert_test_project(&state, "approve-session-project");
    insert_test_spec_with_session(
        &state,
        project_id,
        "active-spec",
        "draft",
        true,
        Some("session-123"),
    );

    let req = Request {
        id: "123".to_string(),
        command: "spec.approve".to_string(),
        params: params(&[
            ("project_name", text("approve-session-project")),
            ("spec_name", text("active-spec")),
        ]),
    };
    let result = single(req, &state);
    assert_eq!(
        result.status,
        ResponseStatus::Success,
        "Expected Ok but got error: {:?}",
        result.data
    );
    assert_eq!(result.data["status"], "approved");

    // Verify session was stopped
    let spec = state.spec(project_id, "active-spec").unwrap();
    assert!(!spec.session_active);
    assert_eq!(spec.status, SpecStatus::Approved);
}

#[test]
fn test_handle_spec_reopen_approved_to_draft() {
    let state = make_db_state();
    let project_id = insert_test_project(&state, "reopen-project");
    insert_test_spec(&state, project_id, "my-spec", "approved", false);

    let req = Request {
        id: "130".to_string(),
        command: "spec.reopen".to_string(),
        params: params(&[
            ("project_name", text("reopen-project")),
            ("spec_name", text("my-spec")),
        ]),
    };
    let result = single(req, &state);
    assert_eq!(
        result.status,
        ResponseStatus::Success,
        "Expected Ok but got error: {:?}",
        result.data
    );
    assert_eq!(result.data["name"], "my-spec");
    assert_eq!(result.data["status"], "draft");

    // Verify DB
    let spec = state.spec(project_id, "my-spec").unwrap();
    assert_eq!(spec.status, SpecStatus::Draft);
}

#[test]
fn test_handle_spec_reopen_from_draft_fails() {
    let state = make_db_state();
    let project_id = insert_test_project(&state, "reopen-draft-project");
    insert_test_spec(&state, project_id, "draft-spec", "draft", false);

    let req = Request {
        id: "131".to_string(),
        command: "spec.reopen".to_string(),
        params: params(&[
            ("project_name", text("reopen-draft-project")),
            ("spec_name", text("draft-spec")),
        ]),
    };
    let result = single(req, &state);
    assert_eq!(result.status, ResponseStatus::Error);
    assert!(result.data["message"]
        .as_str()
        .unwrap()
        .contains("INVALID_STATE"));
}

#[test]
fn test_handle_spec_reopen_from_decomposed_fails() {
    let state = make_db_state();
    let project_id = insert_test_project(&state, "reopen-decomposed-project");
    insert_test_spec(&state, project_id, "decomposed-spec", "decomposed", false);

    let req = Request {
        id: "132".to_string(),
        command: "spec.reopen".to_string(),
        params: params(&[
            ("project_name", text("reopen-decomposed-project")),
            ("spec_name", text("decomposed-spec")),
        ]),
    };
    let result = single(req, &state);
    assert_eq!(result.status, ResponseStatus::Error);
    assert!(result.data["message"]
        .as_str()
        .unwrap()
        .contains("INVALID_STATE"));
}

#[test]
fn test_handle_spec_delete_draft() {
    let state = make_db_state();
    let project_id = insert_test_project(&state, "delete-draft-project");
    insert_test_spec(&state, project_id, "draft-spec", "draft", false);

    let req = Request {
        id: "140".to_string(),
        command: "spec.delete".to_string(),
        params: params(&[
            ("project_name", text("delete-draft-project")),
            ("spec_name", text("draft-spec")),
        ]),
    };
    let result = single(req, &state);
    assert_eq!(
        result.status,
        ResponseStatus::Success,
        "Expected Ok but got error: {:?}",
        result.data
    );
    assert_eq!(result.data["name"], "draft-spec");
    assert_eq!(result.data["status"], "deleted");
    assert_eq!(result.data["deleted"], true);

    // Verify DB (record still exists with status=deleted)
    let spec = state.spec(project_id, "draft-spec").unwrap();
    assert_eq!(spec.status, SpecStatus::Deleted);
}

#[test]
fn test_handle_spec_delete_approved_without_force() {
    let state = make_db_state();
    let project_id = insert_test_project(&state, "approved-noforce-project");
    insert_test_spec(&state, project_id, "approved-spec", "approved", false);

    let req = Request {
        id: "141".to_string(),
        command: "spec.delete".to_string(),
        params: params(&[
            ("project_name", text("approved-noforce-project")),
            ("spec_name", text("approved-spec")),
        ]),
    };
    let result = single(req, &state);
    assert_eq!(result.status, ResponseStatus::Error);
    assert!(result.data["message"]
        .as_str()
        .unwrap()
        .contains("INVALID_STATE"));
    assert!(result.data["message"]
        .as_str()
        .unwrap()
        .contains("force=true"));
}

#[test]
fn test_handle_spec_delete_approved_with_force() {
    let state = make_db_state();
    let project_id = insert_test_project(&state, "approved-force-project");
    insert_test_spec(&state, project_id, "approved-spec", "approved", false);

    let req = Request {
        id: "142".to_string(),
        command: "spec.delete".to_string(),
        params: params(&[
            ("project_name", text("approved-force-project")),
            ("spec_name", text("approved-spec")),
            ("force", truth(true)),
        ]),
    };
    let result = single(req, &state);
    assert_eq!(
        result.status,
        ResponseStatus::Success,
        "Expected Ok but got error: {:?}",
        result.data
    );
    assert_eq!(result.data["status"], "deleted");
}

#[test]
fn test_handle_spec_delete_decomposed_fails() {
    let state = make_db_state();
    let project_id = insert_test_project(&state, "decomposed-del-project");
    insert_test_spec(&state, project_id, "decomposed-spec", "decomposed", false);

    let req = Request {
        id: "143".to_string(),
        command: "spec.delete".to_string(),
        params: params(&[
            ("project_name", text("decomposed-del-project")),
            ("spec_name", text("decomposed-spec")),
            ("force", truth(true)),
        ]),
    };
    let result = single(req, &state);
    assert_eq!(result.status, ResponseStatus::Error);
    assert!(result.data["message"]
        .as_str()
        .unwrap()
        .contains("INVALID_STATE"));
}

#[test]
fn test_handle_spec_delete_stops_active_session() {
    let state = make_db_state();
    let project_id = insert_test_project(&state, "del-session-project");
    insert_test_spec_with_session(
        &state,
        project_id,
        "active-spec",
        "draft",
        true,
        Some("session-abc"),
    );

    let req = Request {
        id: "144".to_string(),
        command: "spec.delete".to_string(),
        params: params(&[
            ("project_name", text("del-session-project")),
            ("spec_name", text("active-spec")),
        ]),
    };
    let result = single(req, &state);
    assert_eq!(
        result.status,
        ResponseStatus::Success,
        "Expected Ok but got error: {:?}",
        result.data
    );

    // Verify session was stopped and spec is deleted
    let spec = state.spec(project_id, "active-spec").unwrap();
    assert!(!spec.session_active);
    assert_eq!(spec.status, SpecStatus::Deleted);
}

#[test]
fn test_handle_spec_resume_missing_project_name() {
    let state = make_test_state();
    let req = Request {
        id: "150".to_string(),
        command: "spec.resume".to_string(),
        params: params(&[]),
    };
    match answer(req, &state) {
        Answer::Single(resp) => {
            assert_eq!(resp.status, ResponseStatus::Error);
            assert!(resp.data["message"]
                .as_str()
                .unwrap()
                .contains("missing required parameter: project_name"));
        }
        _ => panic!("expected Single response for error"),
    }
}

#[test]
fn test_handle_spec_resume_no_draft_spec() {
    let state = make_db_state();
    insert_test_project(&state, "nodraft-project");

    let req = Request {
        id: "151".to_string(),
        command: "spec.resume".to_string(),
        params: params(&[("project_name", text("nodraft-project"))]),
    };
    match answer(req, &state) {
        Answer::Single(resp) => {
            assert_eq!(resp.status, ResponseStatus::Error);
            assert!(resp.data["message"].as_str().unwrap().contains("NOT_FOUND"));
            assert!(resp.data["message"]
                .as_str()
                .unwrap()
                .contains("no draft spec"));
        }
        _ => panic!("expected Single response for error"),
    }
}

#[test]
fn test_handle_spec_resume_session_already_active() {
    let state = make_db_state();
    let project_id = insert_test_project(&state, "resume-active-project");
    insert_test_spec_with_session(
        &state,
        project_id,
        "active-spec",
        "draft",
        true,
        Some("session-123"),
    );

    let req = Request {
        id: "152".to_string(),
        command: "spec.resume".to_string(),
        params: params(&[
            ("project_name", text("resume-active-project")),
            ("spec_name", text("active-spec")),
        ]),
    };
    match answer(req, &state) {
        Answer::Single(resp) => {
            assert_eq!(resp.status, ResponseStatus::Error);
            assert!(resp.data["message"]
                .as_str()
                .unwrap()
                .contains("INVALID_STATE"));
            assert!(resp.data["message"]
                .as_str()
                .unwrap()
                .contains("already has an active session"));
        }
        _ => panic!("expected Single response for error"),
    }
}

#[test]
fn test_handle_spec_resume_no_previous_session() {
    let state = make_db_state();
    let project_id = insert_test_project(&state, "nosession-resume-project");
    insert_test_spec(&state, project_id, "no-session-spec", "draft", false);

    let req = Request {
        id: "153".to_string(),
        command: "spec.resume".to_string(),
        params: params(&[
            ("project_name", text("nosession-resume-project")),
            ("spec_name", text("no-session-spec")),
        ]),
    };
    match answer(req, &state) {
        Answer::Single(resp) => {
            assert_eq!(resp.status, ResponseStatus::Error);
            assert!(resp.data["message"]
                .as_str()
                .unwrap()
                .contains("INVALID_STATE"));
            assert!(resp.data["message"]
                .as_str()
                .unwrap()
                .contains("no previous session"));
        }
        _ => panic!("expected Single response for error"),
    }
}

#[test]
fn test_handle_spec_resume_non_draft_fails() {
    let state = make_db_state();
    let project_id = insert_test_project(&state, "approved-resume-project");
    insert_test_spec_with_session(
        &state,
        project_id,
        "approved-spec",
        "approved",
        false,
        Some("session-123"),
    );

    let req = Request {
        id: "154".to_string(),
        command: "spec.resume".to_string(),
        params: params(&[
            ("project_name", text("approved-resume-project")),
            ("spec_name", text("approved-spec")),
        ]),
    };
    match answer(req, &state) {
        Answer::Single(resp) => {
            assert_eq!(resp.status, ResponseStatus::Error);
            assert!(resp.data["message"]
                .as_str()
                .unwrap()
                .contains("INVALID_STATE"));
            assert!(resp.data["message"]
                .as_str()
                .unwrap()
                .contains("must be draft"));
        }
        _ => panic!("expected Single response for error"),
    }
}

#[test]
fn test_dispatch_spec_list() {
    let state = make_db_state();
    insert_test_project(&state, "dispatch-list-project");
    let req = Request {
        id: "160".to_string(),
        command: "spec.list".to_string(),
        params: params(&[("project_name", text("dispatch-list-project"))]),
    };
    match answer(req, &state) {
        Answer::Single(resp) => {
            assert_eq!(resp.status, ResponseStatus::Success);
        }
        _ => panic!("expected Single response"),
    }
}

#[test]
fn test_dispatch_spec_approve() {
    let state = make_db_state();
    let req = Request {
        id: "161".to_string(),
        command: "spec.approve".to_string(),
        params: params(&[]),
    };
    match answer(req, &state) {
        Answer::Single(resp) => {
            assert_eq!(resp.status, ResponseStatus::Error);
            assert!(resp.data["message"]
                .as_str()
                .unwrap()
                .contains("missing required parameter"));
        }
        _ => panic!("expected Single response"),
    }
}

#[test]
fn test_dispatch_spec_reopen() {
    let state = make_db_state();
    let req = Request {
        id: "162".to_string(),
        command: "spec.reopen".to_string(),
        params: params(&[]),
    };
    match answer(req, &state) {
        Answer::Single(resp) => {
            assert_eq!(resp.status, ResponseStatus::Error);
            assert!(resp.data["message"]
                .as_str()
                .unwrap()
                .contains("missing required parameter"));
        }
        _ => panic!("expected Single response"),
    }
}

#[test]
fn test_dispatch_spec_delete() {
    let state = make_db_state();
    let req = Request {
        id: "163".to_string(),
        command: "spec.delete".to_string(),
        params: params(&[]),
    };
    match answer(req, &state) {
        Answer::Single(resp) => {
            assert_eq!(resp.status, ResponseStatus::Error);
            assert!(resp.data["message"]
                .as_str()
                .unwrap()
                .contains("missing required parameter"));
        }
        _ => panic!("expected Single response"),
    }
}

#[test]
fn test_dispatch_spec_view() {
    let state = make_db_state();
    let req = Request {
        id: "164".to_string(),
        command: "spec.view".to_string(),
        params: params(&[]),
    };
    match answer(req, &state) {
        Answer::Single(resp) => {
            assert_eq!(resp.status, ResponseStatus::Error);
            assert!(resp.data["message"]
                .as_str()
                .unwrap()
                .contains("missing required parameter"));
        }
        _ => panic!("expected Single response"),
    }
}

#[test]
fn test_dispatch_spec_resume() {
    let state = make_db_state();
    let req = Request {
        id: "165".to_string(),
        command: "spec.resume".to_string(),
        params: params(&[]),
    };
    match answer(req, &state) {
        Answer::Single(resp) => {
            assert_eq!(resp.status, ResponseStatus::Error);
            assert!(resp.data["message"]
                .as_str()
                .unwrap()
                .contains("missing required parameter"));
        }
        _ => panic!("expected Single response for missing param"),
    }
}

#[test]
fn test_plan_show_missing_project_name() {
    let state = make_db_state();
    let req = Request {
        id: "200".to_string(),
        command: "plan.show".to_string(),
        params: params(&[]),
    };
    match answer(req, &state) {
        Answer::Single(resp) => {
            assert_eq!(resp.status, ResponseStatus::Error);
            assert!(resp.data["message"]
                .as_str()
                .unwrap()
                .contains("missing required parameter"));
        }
        _ => panic!("expected Single response"),
    }
}

#[test]
fn test_plan_show_project_not_found() {
    let state = make_db_state();
    let req = Request {
        id: "201".to_string(),
        command: "plan.show".to_string(),
        params: params(&[("project_name", text("nonexistent"))]),
    };
    match answer(req, &state) {
        Answer::Single(resp) => {
            assert_eq!(resp.status, ResponseStatus::Error);
            assert!(resp.data["message"].as_str().unwrap().contains("NOT_FOUND"));
        }
        _ => panic!("expected Single response"),
    }
}

#[test]
fn test_plan_show_no_waves() {
    let state = make_db_state();
    insert_test_project(&state, "plan-show-nowaves");
    let req = Request {
        id: "202".to_string(),
        command: "plan.show".to_string(),
        params: params(&[("project_name", text("plan-show-nowaves"))]),
    };
    match answer(req, &state) {
        Answer::Single(resp) => {
            assert_eq!(resp.status, ResponseStatus::Error);
            assert!(resp.data["message"]
                .as_str()
                .unwrap()
                .contains("no decomposition waves"));
        }
        _ => panic!("expected Single response"),
    }
}

#[test]
fn test_plan_show_tree_format() {
    let state = make_db_state();
    let project_id = insert_test_project(&state, "plan-show-tree");

    // Create a decomposition session (wave 1)
    let session = DecompositionSession {
        id: new_id(),
        project_id,
        wave_number: 1,
        status: DecompositionStatus::Approved,
        claude_session_id: None,
        error_message: None,
        created_at: now(),
        updated_at: now(),
    };
    state.insert_session(&session);

    // Create an epic
    let epic = new_epic(session.id, "Epic 1", "desc", "E1", 0);
    state.insert_item(&epic);

    // Create two stories under the epic
    let story1 = new_story(
        epic.id,
        session.id,
        "Story 1",
        "desc",
        "ac",
        "S1",
        0,
    );
    state.insert_item(&story1);

    let story2 = new_story(
        epic.id,
        session.id,
        "Story 2",
        "desc",
        "ac",
        "S2",
        1,
    );
    state.insert_item(&story2);

    // Story 2 depends on Story 1
    let dep = Dependency {
        blocker_id: story1.id,
        blocked_id: story2.id,
    };
    state.insert_dependency(&dep);

    // Create tasks under story 1
    let task1 = new_task(
        story1.id,
        session.id,
        "Task 1",
        "desc",
        "ac",
        "T1",
        0,
    );
    state.insert_item(&task1);

    let mut task1v = new_task(
        story1.id,
        session.id,
        "Verify Task 1",
        "desc",
        "ac",
        "T1v",
        1,
    );
    task1v.kind = Some(TaskKind::Verify);
    state.insert_item(&task1v);

    let req = Request {
        id: "203".to_string(),
        command: "plan.show".to_string(),
        params: params(&[("project_name", text("plan-show-tree"))]),
    };
    match answer(req, &state) {
        Answer::Single(resp) => {
            assert_eq!(resp.status, ResponseStatus::Success);
            let data = &resp.data;
            assert_eq!(data["wave_number"], 1);
            assert_eq!(data["status"], "approved");

            let epics = data["epics"].as_array().unwrap();
            assert_eq!(epics.len(), 1);
            assert_eq!(epics[0]["short_id"], "W1-E1");
            assert_eq!(epics[0]["title"], "Epic 1");

            let stories = epics[0]["stories"].as_array().unwrap();
            assert_eq!(stories.len(), 2);
            assert_eq!(stories[0]["short_id"], "W1-S1");
            assert_eq!(stories[0]["progress"], "0/2");

            // Story 2 depends on Story 1
            let depends = stories[1]["depends_on"].as_array().unwrap();
            assert_eq!(depends.len(), 1);
            assert_eq!(depends[0], "W1-S1");

            // Tasks under story 1
            let tasks = stories[0]["tasks"].as_array().unwrap();
            assert_eq!(tasks.len(), 2);
            assert_eq!(tasks[0]["kind"], "impl");
            assert_eq!(tasks[1]["kind"], "verify");
        }
        _ => panic!("expected Single response"),
    }
}

#[test]
fn test_plan_show_dag_format() {
    let state = make_db_state();
    let project_id = insert_test_project(&state, "plan-show-dag");

    let session = DecompositionSession {
        id: new_id(),
        project_id,
        wave_number: 1,
        status: DecompositionStatus::Approved,
        claude_session_id: None,
        error_message: None,
        created_at: now(),
        updated_at: now(),
    };
    state.insert_session(&session);

    let epic = new_epic(session.id, "Epic 1", "desc", "E1", 0);
    state.insert_item(&epic);

    let story1 = new_story(
        epic.id,
        session.id,
        "Story A",
        "desc",
        "ac",
        "S1",
        0,
    );
    state.insert_item(&story1);

    let story2 = new_story(
        epic.id,
        session.id,
        "Story B",
        "desc",
        "ac",
        "S2",
        1,
    );
    state.insert_item(&story2);

    let dep = Dependency {
        blocker_id: story1.id,
        blocked_id: story2.id,
    };
    state.insert_dependency(&dep);

    let req = Request {
        id: "204".to_string(),
        command: "plan.show".to_string(),
        params: params(&[("project_name", text("plan-show-dag")), ("dag", truth(true))]),
    };
    match answer(req, &state) {
        Answer::Single(resp) => {
            assert_eq!(resp.status, ResponseStatus::Success);
            let data = &resp.data;
            assert_eq!(data["wave_number"], 1);

            let adjacency = data["adjacency"].as_object().unwrap();
            // S1 blocks S2
            let s1_blocks = adjacency["W1-S1"].as_array().unwrap();
            assert_eq!(s1_blocks.len(), 1);
            assert_eq!(s1_blocks[0], "W1-S2");
            // S2 blocks nobody
            let s2_blocks = adjacency["W1-S2"].as_array().unwrap();
            assert!(s2_blocks.is_empty());
        }
        _ => panic!("expected Single response"),
    }
}

#[test]
fn test_plan_show_specific_wave() {
    let state = make_db_state();
    let project_id = insert_test_project(&state, "plan-show-wave");

    // Create two waves
    let session1 = DecompositionSession {
        id: new_id(),
        project_id,
        wave_number: 1,
        status: DecompositionStatus::Approved,
        claude_session_id: None,
        error_message: None,
        created_at: now(),
        updated_at: now(),
    };
    state.insert_session(&session1);

    let session2 = DecompositionSession {
        id: new_id(),
        project_id,
        wave_number: 2,
        status: DecompositionStatus::InProgress,
        claude_session_id: None,
        error_message: None,
        created_at: now(),
        updated_at: now(),
    };
    state.insert_session(&session2);

    // Add an epic to wave 1
    let epic1 = new_epic(session1.id, "W1 Epic", "desc", "E1", 0);
    state.insert_item(&epic1);

    // Add an epic to wave 2
    let epic2 = new_epic(session2.id, "W2 Epic", "desc", "E1", 0);
    state.insert_item(&epic2);

    // Default shows latest wave (wave 2)
    let req = Request {
        id: "205".to_string(),
        command: "plan.show".to_string(),
        params: params(&[("project_name", text("plan-show-wave"))]),
    };
    match answer(req, &state) {
        Answer::Single(resp) => {
            assert_eq!(resp.status, ResponseStatus::Success);
            assert_eq!(resp.data["wave_number"], 2);
            let epics = resp.data["epics"].as_array().unwrap();
            assert_eq!(epics[0]["title"], "W2 Epic");
        }
        _ => panic!("expected Single response"),
    }

    // Specific wave=1
    let req = Request {
        id: "206".to_string(),
        command: "plan.show".to_string(),
        params: params(&[("project_name", text("plan-show-wave")), ("wave", number(1))]),
    };
    match answer(req, &state) {
        Answer::Single(resp) => {
            assert_eq!(resp.status, ResponseStatus::Success);
            assert_eq!(resp.data["wave_number"], 1);
            let epics = resp.data["epics"].as_array().unwrap();
            assert_eq!(epics[0]["title"], "W1 Epic");
        }
        _ => panic!("expected Single response"),
    }

    // Nonexistent wave=99
    let req = Request {
        id: "207".to_string(),
        command: "plan.show".to_string(),
        params: params(&[("project_name", text("plan-show-wave")), ("wave", number(99))]),
    };
    match answer(req, &state) {
        Answer::Single(resp) => {
            assert_eq!(resp.status, ResponseStatus::Error);
            assert!(resp.data["message"].as_str().unwrap().contains("NOT_FOUND"));
        }
        _ => panic!("expected Single response"),
    }
}

#[test]
fn test_exec_run_missing_project_name() {
    let state = make_db_state();
    let req = Request {
        id: "300".to_string(),
        command: "exec.run".to_string(),
        params: params(&[]),
    };
    match answer(req, &state) {
        Answer::Single(resp) => {
            assert_eq!(resp.status, ResponseStatus::Error);
            assert!(resp.data["message"]
                .as_str()
                .unwrap()
                .contains("missing required parameter"));
        }
        _ => panic!("expected Single response"),
    }
}

#[test]
fn test_exec_run_project_not_found() {
    let state = make_db_state();
    let req = Request {
        id: "301".to_string(),
        command: "exec.run".to_string(),
        params: params(&[("project_name", text("nonexistent"))]),
    };
    match answer(req, &state) {
        Answer::Single(resp) => {
            assert_eq!(resp.status, ResponseStatus::Error);
            assert!(resp.data["message"].as_str().unwrap().contains("NOT_FOUND"));
        }
        _ => panic!("expected Single response"),
    }
}

#[test]
fn test_exec_run_enables_execution() {
    let state = make_db_state();
    // Insert project with execution_enabled = false (via direct DB insert)
    let project_id = new_id();
    let project = Project {
        id: project_id,
        name: "exec-test".to_string(),
        path: "/tmp/fakepath".to_string(),
        base_branch: "main".to_string(),
        git_provider: GitProvider::Github,
        execution_enabled: false,
        created_at: now(),
        updated_at: now(),
    };
    state.insert_project(&project);

    let req = Request {
        id: "302".to_string(),
        command: "exec.run".to_string(),
        params: params(&[("project_name", text("exec-test"))]),
    };
    match answer(req, &state) {
        Answer::Single(resp) => {
            assert_eq!(resp.status, ResponseStatus::Success);
            assert_eq!(resp.data["execution_enabled"], true);
            assert_eq!(resp.data["running_count"], 0);
            assert_eq!(resp.data["pending_count"], 0);
        }
        _ => panic!("expected Single response"),
    }

    // Verify in DB
    let updated = state.project("exec-test").unwrap();
    assert!(updated.execution_enabled);
}

#[test]
fn test_exec_run_already_enabled() {
    let state = make_db_state();
    let _pid = insert_test_project(&state, "exec-already");

    let req = Request {
        id: "303".to_string(),
        command: "exec.run".to_string(),
        params: params(&[("project_name", text("exec-already"))]),
    };
    match answer(req, &state) {
        Answer::Single(resp) => {
            assert_eq!(resp.status, ResponseStatus::Success);
            assert_eq!(resp.data["execution_enabled"], true);
        }
        _ => panic!("expected Single response"),
    }
}

#[test]
fn test_exec_run_with_pending_stories() {
    let state = make_db_state();
    let project_id = insert_test_project(&state, "exec-pending");

    // Insert a session and pending story
    let session_id = new_id();
    state.row(
        "decomposition_sessions",
        &[
            ("id", session_id.to_text()),
            ("project_id", project_id.to_text()),
            ("wave_number", "1".to_string()),
            ("status", "approved".to_string()),
            ("created_at", "2024-01-01T00:00:00Z".to_string()),
            ("updated_at", "2024-01-01T00:00:00Z".to_string()),
        ],
    );
    let epic_id = new_id();
    state.row(
        "work_items",
        &[
            ("id", epic_id.to_text()),
            ("decomposition_session_id", session_id.to_text()),
            ("item_type", "epic".to_string()),
            ("title", "Epic".to_string()),
            ("description", "desc".to_string()),
            ("status", "pending".to_string()),
            ("short_id", "E1".to_string()),
            ("sort_order", "0".to_string()),
            ("created_at", "2024-01-01T00:00:00Z".to_string()),
            ("updated_at", "2024-01-01T00:00:00Z".to_string()),
        ],
    );
    let story_id = new_id();
    state.row(
        "work_items",
        &[
            ("id", story_id.to_text()),
            ("parent_id", epic_id.to_text()),
            ("decomposition_session_id", session_id.to_text()),
            ("item_type", "story".to_string()),
            ("title", "Story 1".to_string()),
            ("description", "desc".to_string()),
            ("status", "pending".to_string()),
            ("short_id", "S1".to_string()),
            ("sort_order", "0".to_string()),
            ("created_at", "2024-01-01T00:00:00Z".to_string()),
            ("updated_at", "2024-01-01T00:00:00Z".to_string()),
        ],
    );

    let req = Request {
        id: "304".to_string(),
        command: "exec.run".to_string(),
        params: params(&[("project_name", text("exec-pending"))]),
    };
    match answer(req, &state) {
        Answer::Single(resp) => {
            assert_eq!(resp.status, ResponseStatus::Success);
            assert_eq!(resp.data["execution_enabled"], true);
            assert_eq!(resp.data["running_count"], 0);
            assert_eq!(resp.data["pending_count"], 1);
        }
        _ => panic!("expected Single response"),
    }
}

#[test]
fn test_exec_pause_missing_project_name() {
    let state = make_db_state();
    let req = Request {
        id: "310".to_string(),
        command: "exec.pause".to_string(),
        params: params(&[]),
    };
    match answer(req, &state) {
        Answer::Single(resp) => {
            assert_eq!(resp.status, ResponseStatus::Error);
            assert!(resp.data["message"]
                .as_str()
                .unwrap()
                .contains("missing required parameter"));
        }
        _ => panic!("expected Single response"),
    }
}

#[test]
fn test_exec_pause_project_not_found() {
    let state = make_db_state();
    let req = Request {
        id: "311".to_string(),
        command: "exec.pause".to_string(),
        params: params(&[("project_name", text("nonexistent"))]),
    };
    match answer(req, &state) {
        Answer::Single(resp) => {
            assert_eq!(resp.status, ResponseStatus::Error);
            assert!(resp.data["message"].as_str().unwrap().contains("NOT_FOUND"));
        }
        _ => panic!("expected Single response"),
    }
}

#[test]
fn test_exec_pause_disables_execution() {
    let state = make_db_state();
    let _pid = insert_test_project(&state, "exec-pause-test");

    let req = Request {
        id: "312".to_string(),
        command: "exec.pause".to_string(),
        params: params(&[("project_name", text("exec-pause-test"))]),
    };
    match answer(req, &state) {
        Answer::Single(resp) => {
            assert_eq!(resp.status, ResponseStatus::Success);
            assert_eq!(resp.data["execution_enabled"], false);
            assert_eq!(resp.data["running_count"], 0);
            assert_eq!(resp.data["pending_count"], 0);
        }
        _ => panic!("expected Single response"),
    }

    // Verify in DB
    let updated = state.project("exec-pause-test").unwrap();
    assert!(!updated.execution_enabled);
}

#[test]
fn test_exec_pause_already_paused() {
    let state = make_db_state();
    let project_id = new_id();
    let project = Project {
        id: project_id,
        name: "exec-paused".to_string(),
        path: "/tmp/fakepath".to_string(),
        base_branch: "main".to_string(),
        git_provider: GitProvider::Github,
        execution_enabled: false,
        created_at: now(),
        updated_at: now(),
    };
    state.insert_project(&project);

    let req = Request {
        id: "313".to_string(),
        command: "exec.pause".to_string(),
        params: params(&[("project_name", text("exec-paused"))]),
    };
    match answer(req, &state) {
        Answer::Single(resp) => {
            assert_eq!(resp.status, ResponseStatus::Success);
            assert_eq!(resp.data["execution_enabled"], false);
        }
        _ => panic!("expected Single response"),
    }
}

#[test]
fn test_exec_run_then_pause_round_trip() {
    let state = make_db_state();
    let project_id = new_id();
    let project = Project {
        id: project_id,
        name: "exec-roundtrip".to_string(),
        path: "/tmp/fakepath".to_string(),
        base_branch: "main".to_string(),
        git_provider: GitProvider::Github,
        execution_enabled: false,
        created_at: now(),
        updated_at: now(),
    };
    state.insert_project(&project);

    // exec.run
    let req = Request {
        id: "314".to_string(),
        command: "exec.run".to_string(),
        params: params(&[("project_name", text("exec-roundtrip"))]),
    };
    match answer(req, &state) {
        Answer::Single(resp) => {
            assert_eq!(resp.status, ResponseStatus::Success);
            assert_eq!(resp.data["execution_enabled"], true);
        }
        _ => panic!("expected Single response"),
    }

    // exec.pause
    let req = Request {
        id: "315".to_string(),
        command: "exec.pause".to_string(),
        params: params(&[("project_name", text("exec-roundtrip"))]),
    };
    match answer(req, &state) {
        Answer::Single(resp) => {
            assert_eq!(resp.status, ResponseStatus::Success);
            assert_eq!(resp.data["execution_enabled"], false);
        }
        _ => panic!("expected Single response"),
    }

    // Verify final state in DB
    let updated = state.project("exec-roundtrip").unwrap();
    assert!(!updated.execution_enabled);
}

#[test]
fn test_dispatch_exec_run_route() {
    let state = make_db_state();
    let req = Request {
        id: "320".to_string(),
        command: "exec.run".to_string(),
        params: params(&[]),
    };
    // Should route to exec.run (get error for missing param, not unknown command)
    match answer(req, &state) {
        Answer::Single(resp) => {
            assert_eq!(resp.status, ResponseStatus::Error);
            assert!(resp.data["message"]
                .as_str()
                .unwrap()
                .contains("missing required parameter"));
        }
        _ => panic!("expected Single response"),
    }
}

#[test]
fn test_dispatch_exec_pause_route() {
    let state = make_db_state();
    let req = Request {
        id: "321".to_string(),
        command: "exec.pause".to_string(),
        params: params(&[]),
    };
    // Should route to exec.pause (get error for missing param, not unknown command)
    match answer(req, &state) {
        Answer::Single(resp) => {
            assert_eq!(resp.status, ResponseStatus::Error);
            assert!(resp.data["message"]
                .as_str()
                .unwrap()
                .contains("missing required parameter"));
        }
        _ => panic!("expected Single response"),
    }
}

#[test]
fn test_exec_status_missing_project_name() {
    let state = make_db_state();
    let req = Request {
        id: "400".to_string(),
        command: "exec.status".to_string(),
        params: params(&[]),
    };
    match answer(req, &state) {
        Answer::Single(resp) => {
            assert_eq!(resp.status, ResponseStatus::Error);
            assert!(resp.data["message"]
                .as_str()
                .unwrap()
                .contains("missing required parameter"));
        }
        _ => panic!("expected Single response"),
    }
}

#[test]
fn test_exec_status_project_not_found() {
    let state = make_db_state();
    let req = Request {
        id: "401".to_string(),
        command: "exec.status".to_string(),
        params: params(&[("project_name", text("nonexistent"))]),
    };
    match answer(req, &state) {
        Answer::Single(resp) => {
            assert_eq!(resp.status, ResponseStatus::Error);
            assert!(resp.data["message"].as_str().unwrap().contains("NOT_FOUND"));
        }
        _ => panic!("expected Single response"),
    }
}

#[test]
fn test_exec_status_empty_project() {
    let state = make_db_state();
    let _pid = insert_test_project(&state, "exec-status-empty");

    let req = Request {
        id: "402".to_string(),
        command: "exec.status".to_string(),
        params: params(&[("project_name", text("exec-status-empty"))]),
    };
    match answer(req, &state) {
        Answer::Single(resp) => {
            assert_eq!(resp.status, ResponseStatus::Success);
            assert_eq!(resp.data["project_name"], "exec-status-empty");
            assert_eq!(resp.data["execution_enabled"], true);
            assert_eq!(resp.data["running_count"], 0);
            let waves = resp.data["waves"].as_array().unwrap();
            assert!(waves.is_empty());
        }
        _ => panic!("expected Single response"),
    }
}

#[test]
fn test_exec_status_hierarchical_structure() {
    let state = make_db_state();
    let project_id = insert_test_project(&state, "exec-status-hier");

    // Insert session
    let session_id = new_id();
    state.row(
        "decomposition_sessions",
        &[
            ("id", session_id.to_text()),
            ("project_id", project_id.to_text()),
            ("wave_number", "1".to_string()),
            ("status", "approved".to_string()),
            ("created_at", "2024-01-01T00:00:00Z".to_string()),
            ("updated_at", "2024-01-01T00:00:00Z".to_string()),
        ],
    );

    // Insert epic
    let epic_id = new_id();
    state.row(
        "work_items",
        &[
            ("id", epic_id.to_text()),
            ("decomposition_session_id", session_id.to_text()),
            ("item_type", "epic".to_string()),
            ("title", "Test Epic".to_string()),
            ("description", "epic desc".to_string()),
            ("status", "in_progress".to_string()),
            ("short_id", "E1".to_string()),
            ("sort_order", "0".to_string()),
            ("created_at", "2024-01-01T00:00:00Z".to_string()),
            ("updated_at", "2024-01-01T00:00:00Z".to_string()),
        ],
    );

    // Insert story
    let story_id = new_id();
    state.row(
        "work_items",
        &[
            ("id", story_id.to_text()),
            ("parent_id", epic_id.to_text()),
            ("decomposition_session_id", session_id.to_text()),
            ("item_type", "story".to_string()),
            ("title", "Test Story".to_string()),
            ("description", "story desc".to_string()),
            ("status", "in_progress".to_string()),
            ("short_id", "S1".to_string()),
            ("sort_order", "0".to_string()),
            ("branch_name", "feat/story-1".to_string()),
            ("worktree_path", "/tmp/worktree/s1".to_string()),
            ("created_at", "2024-01-01T00:00:00Z".to_string()),
            ("updated_at", "2024-01-01T00:00:00Z".to_string()),
        ],
    );

    // Insert impl task
    let task_id = new_id();
    state.row(
        "work_items",
        &[
            ("id", task_id.to_text()),
            ("parent_id", story_id.to_text()),
            ("decomposition_session_id", session_id.to_text()),
            ("item_type", "task".to_string()),
            ("kind", "impl".to_string()),
            ("title", "Implement feature".to_string()),
            ("description", "task desc".to_string()),
            ("status", "done".to_string()),
            ("short_id", "T1".to_string()),
            ("sort_order", "0".to_string()),
            ("created_at", "2024-01-01T00:00:00Z".to_string()),
            ("updated_at", "2024-01-01T00:00:00Z".to_string()),
        ],
    );

    // Insert verify task
    let verify_task_id = new_id();
    state.row(
        "work_items",
        &[
            ("id", verify_task_id.to_text()),
            ("parent_id", story_id.to_text()),
            ("decomposition_session_id", session_id.to_text()),
            ("item_type", "task".to_string()),
            ("kind", "verify".to_string()),
            ("title", "Verify feature".to_string()),
            ("description", "verify desc".to_string()),
            ("status", "in_progress".to_string()),
            ("short_id", "T1v".to_string()),
            ("sort_order", "1".to_string()),
            ("created_at", "2024-01-01T00:00:00Z".to_string()),
            ("updated_at", "2024-01-01T00:00:00Z".to_string()),
        ],
    );

    // Insert agent run for impl task
    let run_id = new_id();
    state.row(
        "agent_runs",
        &[
            ("id", run_id.to_text()),
            ("work_item_id", task_id.to_text()),
            ("status", "succeeded".to_string()),
            ("exit_code", "0".to_string()),
            ("started_at", "2024-01-01T00:01:00Z".to_string()),
            ("finished_at", "2024-01-01T00:05:00Z".to_string()),
        ],
    );

    let req = Request {
        id: "403".to_string(),
        command: "exec.status".to_string(),
        params: params(&[("project_name", text("exec-status-hier"))]),
    };
    match answer(req, &state) {
        Answer::Single(resp) => {
            assert_eq!(resp.status, ResponseStatus::Success);
            assert_eq!(resp.data["project_name"], "exec-status-hier");

            let waves = resp.data["waves"].as_array().unwrap();
            assert_eq!(waves.len(), 1);

            let wave = &waves[0];
            assert_eq!(wave["wave_number"], 1);
            assert_eq!(wave["status"], "approved");

            // Check summary counts
            let summary = &wave["summary"];
            assert_eq!(summary["total"], 1); // 1 story
            assert_eq!(summary["running"], 1); // in_progress
            assert_eq!(summary["pending"], 0);

            // Check hierarchy
            let epics = wave["epics"].as_array().unwrap();
            assert_eq!(epics.len(), 1);
            assert_eq!(epics[0]["short_id"], "W1-E1");
            assert_eq!(epics[0]["title"], "Test Epic");
            assert_eq!(epics[0]["status"], "in_progress");

            let stories = epics[0]["stories"].as_array().unwrap();
            assert_eq!(stories.len(), 1);
            assert_eq!(stories[0]["short_id"], "W1-S1");
            assert_eq!(stories[0]["title"], "Test Story");
            assert_eq!(stories[0]["branch_name"], "feat/story-1");
            assert_eq!(stories[0]["worktree_path"], "/tmp/worktree/s1");

            let tasks = stories[0]["tasks"].as_array().unwrap();
            assert_eq!(tasks.len(), 2);
            assert_eq!(tasks[0]["short_id"], "W1-T1");
            assert_eq!(tasks[0]["kind"], "impl");
            assert_eq!(tasks[0]["status"], "done");
            assert_eq!(tasks[0]["exit_code"], 0);
            assert_eq!(tasks[0]["retry_count"], 1); // 1 agent run

            assert_eq!(tasks[1]["short_id"], "W1-T1v");
            assert_eq!(tasks[1]["kind"], "verify");
            assert_eq!(tasks[1]["status"], "in_progress");
        }
        _ => panic!("expected Single response"),
    }
}

#[test]
fn test_exec_status_wave_filter() {
    let state = make_db_state();
    let project_id = insert_test_project(&state, "exec-status-wave");

    // Insert two sessions (wave 1 and wave 2)
    let session1_id = new_id();
    state.row(
        "decomposition_sessions",
        &[
            ("id", session1_id.to_text()),
            ("project_id", project_id.to_text()),
            ("wave_number", "1".to_string()),
            ("status", "approved".to_string()),
            ("created_at", "2024-01-01T00:00:00Z".to_string()),
            ("updated_at", "2024-01-01T00:00:00Z".to_string()),
        ],
    );
    let session2_id = new_id();
    state.row(
        "decomposition_sessions",
        &[
            ("id", session2_id.to_text()),
            ("project_id", project_id.to_text()),
            ("wave_number", "2".to_string()),
            ("status", "in_progress".to_string()),
            ("created_at", "2024-01-02T00:00:00Z".to_string()),
            ("updated_at", "2024-01-02T00:00:00Z".to_string()),
        ],
    );

    // Insert epic + story in wave 1
    let epic1_id = new_id();
    state.row(
        "work_items",
        &[
            ("id", epic1_id.to_text()),
            ("decomposition_session_id", session1_id.to_text()),
            ("item_type", "epic".to_string()),
            ("title", "Wave 1 Epic".to_string()),
            ("description", "desc".to_string()),
            ("status", "done".to_string()),
            ("short_id", "E1".to_string()),
            ("sort_order", "0".to_string()),
            ("created_at", "2024-01-01T00:00:00Z".to_string()),
            ("updated_at", "2024-01-01T00:00:00Z".to_string()),
        ],
    );
    let story1_id = new_id();
    state.row(
        "work_items",
        &[
            ("id", story1_id.to_text()),
            ("parent_id", epic1_id.to_text()),
            ("decomposition_session_id", session1_id.to_text()),
            ("item_type", "story".to_string()),
            ("title", "Wave 1 Story".to_string()),
            ("description", "desc".to_string()),
            ("status", "done".to_string()),
            ("short_id", "S1".to_string()),
            ("sort_order", "0".to_string()),
            ("created_at", "2024-01-01T00:00:00Z".to_string()),
            ("updated_at", "2024-01-02T00:00:00Z".to_string()),
        ],
    );

    // Insert epic + story in wave 2
    let epic2_id = new_id();
    state.row(
        "work_items",
        &[
            ("id", epic2_id.to_text()),
            ("decomposition_session_id", session2_id.to_text()),
            ("item_type", "epic".to_string()),
            ("title", "Wave 2 Epic".to_string()),
            ("description", "desc".to_string()),
            ("status", "pending".to_string()),
            ("short_id", "E1".to_string()),
            ("sort_order", "0".to_string()),
            ("created_at", "2024-01-02T00:00:00Z".to_string()),
            ("updated_at", "2024-01-02T00:00:00Z".to_string()),
        ],
    );
    let story2_id = new_id();
    state.row(
        "work_items",
        &[
            ("id", story2_id.to_text()),
            ("parent_id", epic2_id.to_text()),
            ("decomposition_session_id", session2_id.to_text()),
            ("item_type", "story".to_string()),
            ("title", "Wave 2 Story".to_string()),
            ("description", "desc".to_string()),
            ("status", "pending".to_string()),
            ("short_id", "S1".to_string()),
            ("sort_order", "0".to_string()),
            ("created_at", "2024-01-02T00:00:00Z".to_string()),
            ("updated_at", "2024-01-02T00:00:00Z".to_string()),
        ],
    );

    // Without wave filter: should return both waves
    let req = Request {
        id: "404".to_string(),
        command: "exec.status".to_string(),
        params: params(&[("project_name", text("exec-status-wave"))]),
    };
    match answer(req, &state) {
        Answer::Single(resp) => {
            assert_eq!(resp.status, ResponseStatus::Success);
            let waves = resp.data["waves"].as_array().unwrap();
            assert_eq!(waves.len(), 2);
        }
        _ => panic!("expected Single response"),
    }

    // With wave filter = 1: should return only wave 1
    let req = Request {
        id: "405".to_string(),
        command: "exec.status".to_string(),
        params: params(&[("project_name", text("exec-status-wave")), ("wave", number(1))]),
    };
    match answer(req, &state) {
        Answer::Single(resp) => {
            assert_eq!(resp.status, ResponseStatus::Success);
            let waves = resp.data["waves"].as_array().unwrap();
            assert_eq!(waves.len(), 1);
            assert_eq!(waves[0]["wave_number"], 1);

            let summary = &waves[0]["summary"];
            assert_eq!(summary["total"], 1);
            assert_eq!(summary["done"], 1);
        }
        _ => panic!("expected Single response"),
    }

    // With non-existent wave: should return error
    let req = Request {
        id: "406".to_string(),
        command: "exec.status".to_string(),
        params: params(&[("project_name", text("exec-status-wave")), ("wave", number(99))]),
    };
    match answer(req, &state) {
        Answer::Single(resp) => {
            assert_eq!(resp.status, ResponseStatus::Error);
            assert!(resp.data["message"].as_str().unwrap().contains("NOT_FOUND"));
            assert!(resp.data["message"].as_str().unwrap().contains("W99"));
        }
        _ => panic!("expected Single response"),
    }
}

#[test]
fn test_exec_status_summary_counts() {
    let state = make_db_state();
    let project_id = insert_test_project(&state, "exec-status-counts");

    let session_id = new_id();
    state.row(
        "decomposition_sessions",
        &[
            ("id", session_id.to_text()),
            ("project_id", project_id.to_text()),
            ("wave_number", "1".to_string()),
            ("status", "approved".to_string()),
            ("created_at", "2024-01-01T00:00:00Z".to_string()),
            ("updated_at", "2024-01-01T00:00:00Z".to_string()),
        ],
    );

    let epic_id = new_id();
    state.row(
        "work_items",
        &[
            ("id", epic_id.to_text()),
            ("decomposition_session_id", session_id.to_text()),
            ("item_type", "epic".to_string()),
            ("title", "Epic".to_string()),
            ("description", "desc".to_string()),
            ("status", "in_progress".to_string()),
            ("short_id", "E1".to_string()),
            ("sort_order", "0".to_string()),
            ("created_at", "2024-01-01T00:00:00Z".to_string()),
            ("updated_at", "2024-01-01T00:00:00Z".to_string()),
        ],
    );

    // Insert stories with different statuses
    let statuses = [
        "pending",
        "ready",
        "in_progress",
        "done",
        "failed",
        "cancelled",
    ];
    for (i, status) in statuses.iter().enumerate() {
        let sid = new_id();
        state.row(
        "work_items",
        &[
            ("id", sid.to_text()),
            ("parent_id", epic_id.to_text()),
            ("decomposition_session_id", session_id.to_text()),
            ("item_type", "story".to_string()),
            ("title", format!("Story {}", i + 1)),
            ("description", "desc".to_string()),
            ("status", status.to_string()),
            ("short_id", format!("S{}", i + 1)),
            ("sort_order", i.to_string()),
            ("created_at", "2024-01-01T00:00:00Z".to_string()),
            ("updated_at", "2024-01-01T00:00:00Z".to_string()),
        ],
    );
    }

    let req = Request {
        id: "407".to_string(),
        command: "exec.status".to_string(),
        params: params(&[("project_name", text("exec-status-counts"))]),
    };
    match answer(req, &state) {
        Answer::Single(resp) => {
            assert_eq!(resp.status, ResponseStatus::Success);
            let wave = &resp.data["waves"].as_array().unwrap()[0];
            let summary = &wave["summary"];
            assert_eq!(summary["total"], 6);
            assert_eq!(summary["pending"], 1);
            assert_eq!(summary["ready"], 1);
            assert_eq!(summary["running"], 1);
            assert_eq!(summary["done"], 1);
            assert_eq!(summary["failed"], 1);
            assert_eq!(summary["cancelled"], 1);
        }
        _ => panic!("expected Single response"),
    }
}

#[test]
fn test_exec_status_task_agent_details() {
    let state = make_db_state();
    let project_id = insert_test_project(&state, "exec-status-agent");

    let session_id = new_id();
    state.row(
        "decomposition_sessions",
        &[
            ("id", session_id.to_text()),
            ("project_id", project_id.to_text()),
            ("wave_number", "1".to_string()),
            ("status", "approved".to_string()),
            ("created_at", "2024-01-01T00:00:00Z".to_string()),
            ("updated_at", "2024-01-01T00:00:00Z".to_string()),
        ],
    );

    let epic_id = new_id();
    state.row(
        "work_items",
        &[
            ("id", epic_id.to_text()),
            ("decomposition_session_id", session_id.to_text()),
            ("item_type", "epic".to_string()),
            ("title", "Epic".to_string()),
            ("description", "desc".to_string()),
            ("status", "in_progress".to_string()),
            ("short_id", "E1".to_string()),
            ("sort_order", "0".to_string()),
            ("created_at", "2024-01-01T00:00:00Z".to_string()),
            ("updated_at", "2024-01-01T00:00:00Z".to_string()),
        ],
    );

    let story_id = new_id();
    state.row(
        "work_items",
        &[
            ("id", story_id.to_text()),
            ("parent_id", epic_id.to_text()),
            ("decomposition_session_id", session_id.to_text()),
            ("item_type", "story".to_string()),
            ("title", "Story".to_string()),
            ("description", "desc".to_string()),
            ("status", "in_progress".to_string()),
            ("short_id", "S1".to_string()),
            ("sort_order", "0".to_string()),
            ("created_at", "2024-01-01T00:00:00Z".to_string()),
            ("updated_at", "2024-01-01T00:00:00Z".to_string()),
        ],
    );

    // Task with multiple retries
    let task_id = new_id();
    state.row(
        "work_items",
        &[
            ("id", task_id.to_text()),
            ("parent_id", story_id.to_text()),
            ("decomposition_session_id", session_id.to_text()),
            ("item_type", "task".to_string()),
            ("kind", "impl".to_string()),
            ("title", "Impl Task".to_string()),
            ("description", "desc".to_string()),
            ("status", "done".to_string()),
            ("short_id", "T1".to_string()),
            ("sort_order", "0".to_string()),
            ("created_at", "2024-01-01T00:00:00Z".to_string()),
            ("updated_at", "2024-01-01T00:00:00Z".to_string()),
        ],
    );

    // First attempt (failed)
    let run1_id = new_id();
    state.row(
        "agent_runs",
        &[
            ("id", run1_id.to_text()),
            ("work_item_id", task_id.to_text()),
            ("status", "failed".to_string()),
            ("exit_code", "1".to_string()),
            ("started_at", "2024-01-01T00:01:00Z".to_string()),
            ("finished_at", "2024-01-01T00:03:00Z".to_string()),
        ],
    );

    // Second attempt (succeeded)
    let run2_id = new_id();
    state.row(
        "agent_runs",
        &[
            ("id", run2_id.to_text()),
            ("work_item_id", task_id.to_text()),
            ("status", "succeeded".to_string()),
            ("exit_code", "0".to_string()),
            ("started_at", "2024-01-01T00:05:00Z".to_string()),
            ("finished_at", "2024-01-01T00:10:00Z".to_string()),
        ],
    );

    let req = Request {
        id: "408".to_string(),
        command: "exec.status".to_string(),
        params: params(&[("project_name", text("exec-status-agent"))]),
    };
    match answer(req, &state) {
        Answer::Single(resp) => {
            assert_eq!(resp.status, ResponseStatus::Success);
            let wave = &resp.data["waves"].as_array().unwrap()[0];
            let task = &wave["epics"][0]["stories"][0]["tasks"][0];
            assert_eq!(task["retry_count"], 2); // 2 agent runs total
            assert_eq!(task["exit_code"], 0); // latest run exit code
                                              // latest run started_at/finished_at should be present
            assert!(task["started_at"].as_str().is_some());
            assert!(task["finished_at"].as_str().is_some());
        }
        _ => panic!("expected Single response"),
    }
}

#[test]
fn test_dispatch_exec_status_route() {
    let state = make_db_state();
    let req = Request {
        id: "409".to_string(),
        command: "exec.status".to_string(),
        params: params(&[]),
    };
    // Should route to exec.status (get error for missing param, not unknown command)
    match answer(req, &state) {
        Answer::Single(resp) => {
            assert_eq!(resp.status, ResponseStatus::Error);
            assert!(resp.data["message"]
                .as_str()
                .unwrap()
                .contains("missing required parameter"));
        }
        _ => panic!("expected Single response"),
    }
}

#[test]
fn test_exec_retry_missing_task_id() {
    let state = make_db_state();
    let req = Request {
        id: "400".to_string(),
        command: "exec.retry".to_string(),
        params: params(&[]),
    };
    match answer(req, &state) {
        Answer::Single(resp) => {
            assert_eq!(resp.status, ResponseStatus::Error);
            assert!(resp.data["message"]
                .as_str()
                .unwrap()
                .contains("missing required parameter"));
        }
        _ => panic!("expected Single response"),
    }
}

#[test]
fn test_exec_retry_task_not_found() {
    let state = make_db_state();
    let req = Request {
        id: "401".to_string(),
        command: "exec.retry".to_string(),
        params: params(&[("task_id", text("W1-T99"))]),
    };
    match answer(req, &state) {
        Answer::Single(resp) => {
            assert_eq!(resp.status, ResponseStatus::Error);
            assert!(resp.data["message"].as_str().unwrap().contains("NOT_FOUND"));
        }
        _ => panic!("expected Single response"),
    }
}

#[test]
fn test_exec_retry_invalid_format() {
    let state = make_db_state();
    let req = Request {
        id: "402".to_string(),
        command: "exec.retry".to_string(),
        params: params(&[("task_id", text("invalid"))]),
    };
    match answer(req, &state) {
        Answer::Single(resp) => {
            assert_eq!(resp.status, ResponseStatus::Error);
            assert!(resp.data["message"].as_str().unwrap().contains("NOT_FOUND"));
        }
        _ => panic!("expected Single response"),
    }
}

#[test]
fn test_exec_retry_task_not_failed() {
    let state = make_db_state();
    let project_id = insert_test_project(&state, "retry-proj");

    // Create session (wave 1), epic, story, task
    let session_id = new_id();
    state.row(
        "decomposition_sessions",
        &[
            ("id", session_id.to_text()),
            ("project_id", project_id.to_text()),
            ("wave_number", "1".to_string()),
            ("status", "approved".to_string()),
            ("created_at", "2024-01-01T00:00:00Z".to_string()),
            ("updated_at", "2024-01-01T00:00:00Z".to_string()),
        ],
    );

    let epic_id = new_id();
    state.row(
        "work_items",
        &[
            ("id", epic_id.to_text()),
            ("decomposition_session_id", session_id.to_text()),
            ("item_type", "epic".to_string()),
            ("title", "Epic".to_string()),
            ("description", "desc".to_string()),
            ("status", "in_progress".to_string()),
            ("short_id", "E1".to_string()),
            ("sort_order", "0".to_string()),
            ("created_at", "2024-01-01T00:00:00Z".to_string()),
            ("updated_at", "2024-01-01T00:00:00Z".to_string()),
        ],
    );

    let story_id = new_id();
    state.row(
        "work_items",
        &[
            ("id", story_id.to_text()),
            ("parent_id", epic_id.to_text()),
            ("decomposition_session_id", session_id.to_text()),
            ("item_type", "story".to_string()),
            ("title", "Story".to_string()),
            ("description", "desc".to_string()),
            ("status", "in_progress".to_string()),
            ("short_id", "S1".to_string()),
            ("sort_order", "0".to_string()),
            ("created_at", "2024-01-01T00:00:00Z".to_string()),
            ("updated_at", "2024-01-01T00:00:00Z".to_string()),
        ],
    );

    let task_id = new_id();
    state.row(
        "work_items",
        &[
            ("id", task_id.to_text()),
            ("parent_id", story_id.to_text()),
            ("decomposition_session_id", session_id.to_text()),
            ("item_type", "task".to_string()),
            ("kind", "impl".to_string()),
            ("title", "Task 1".to_string()),
            ("description", "desc".to_string()),
            ("status", "pending".to_string()),
            ("short_id", "T1".to_string()),
            ("sort_order", "0".to_string()),
            ("created_at", "2024-01-01T00:00:00Z".to_string()),
            ("updated_at", "2024-01-01T00:00:00Z".to_string()),
        ],
    );

    let req = Request {
        id: "403".to_string(),
        command: "exec.retry".to_string(),
        params: params(&[("task_id", text("W1-T1"))]),
    };
    match answer(req, &state) {
        Answer::Single(resp) => {
            assert_eq!(resp.status, ResponseStatus::Error);
            assert!(resp.data["message"]
                .as_str()
                .unwrap()
                .contains("INVALID_STATE"));
        }
        _ => panic!("expected Single response"),
    }
}

#[test]
fn test_exec_retry_not_a_task() {
    let state = make_db_state();
    let project_id = insert_test_project(&state, "retry-proj2");

    let session_id = new_id();
    state.row(
        "decomposition_sessions",
        &[
            ("id", session_id.to_text()),
            ("project_id", project_id.to_text()),
            ("wave_number", "1".to_string()),
            ("status", "approved".to_string()),
            ("created_at", "2024-01-01T00:00:00Z".to_string()),
            ("updated_at", "2024-01-01T00:00:00Z".to_string()),
        ],
    );

    let epic_id = new_id();
    state.row(
        "work_items",
        &[
            ("id", epic_id.to_text()),
            ("decomposition_session_id", session_id.to_text()),
            ("item_type", "epic".to_string()),
            ("title", "Epic".to_string()),
            ("description", "desc".to_string()),
            ("status", "failed".to_string()),
            ("short_id", "E1".to_string()),
            ("sort_order", "0".to_string()),
            ("created_at", "2024-01-01T00:00:00Z".to_string()),
            ("updated_at", "2024-01-01T00:00:00Z".to_string()),
        ],
    );

    // Trying to retry an epic should fail
    let req = Request {
        id: "404".to_string(),
        command: "exec.retry".to_string(),
        params: params(&[("task_id", text("W1-E1"))]),
    };
    match answer(req, &state) {
        Answer::Single(resp) => {
            assert_eq!(resp.status, ResponseStatus::Error);
            // Should fail either on INVALID_STATE (not failed) or INVALID_PARAMS (not a task)
            let msg = resp.data["message"].as_str().unwrap();
            assert!(msg.contains("INVALID") || msg.contains("not a task"));
        }
        _ => panic!("expected Single response"),
    }
}

#[test]
fn test_exec_skip_missing_task_id() {
    let state = make_db_state();
    let req = Request {
        id: "500".to_string(),
        command: "exec.skip".to_string(),
        params: params(&[]),
    };
    match answer(req, &state) {
        Answer::Single(resp) => {
            assert_eq!(resp.status, ResponseStatus::Error);
            assert!(resp.data["message"]
                .as_str()
                .unwrap()
                .contains("missing required parameter"));
        }
        _ => panic!("expected Single response"),
    }
}

#[test]
fn test_exec_skip_task_not_found() {
    let state = make_db_state();
    let req = Request {
        id: "501".to_string(),
        command: "exec.skip".to_string(),
        params: params(&[("task_id", text("W1-T99"))]),
    };
    match answer(req, &state) {
        Answer::Single(resp) => {
            assert_eq!(resp.status, ResponseStatus::Error);
            assert!(resp.data["message"].as_str().unwrap().contains("NOT_FOUND"));
        }
        _ => panic!("expected Single response"),
    }
}

#[test]
fn test_exec_skip_task_not_failed() {
    let state = make_db_state();
    let project_id = insert_test_project(&state, "skip-proj");

    let session_id = new_id();
    state.row(
        "decomposition_sessions",
        &[
            ("id", session_id.to_text()),
            ("project_id", project_id.to_text()),
            ("wave_number", "1".to_string()),
            ("status", "approved".to_string()),
            ("created_at", "2024-01-01T00:00:00Z".to_string()),
            ("updated_at", "2024-01-01T00:00:00Z".to_string()),
        ],
    );

    let epic_id = new_id();
    state.row(
        "work_items",
        &[
            ("id", epic_id.to_text()),
            ("decomposition_session_id", session_id.to_text()),
            ("item_type", "epic".to_string()),
            ("title", "Epic".to_string()),
            ("description", "desc".to_string()),
            ("status", "in_progress".to_string()),
            ("short_id", "E1".to_string()),
            ("sort_order", "0".to_string()),
            ("created_at", "2024-01-01T00:00:00Z".to_string()),
            ("updated_at", "2024-01-01T00:00:00Z".to_string()),
        ],
    );

    let story_id = new_id();
    state.row(
        "work_items",
        &[
            ("id", story_id.to_text()),
            ("parent_id", epic_id.to_text()),
            ("decomposition_session_id", session_id.to_text()),
            ("item_type", "story".to_string()),
            ("title", "Story".to_string()),
            ("description", "desc".to_string()),
            ("status", "in_progress".to_string()),
            ("short_id", "S1".to_string()),
            ("sort_order", "0".to_string()),
            ("created_at", "2024-01-01T00:00:00Z".to_string()),
            ("updated_at", "2024-01-01T00:00:00Z".to_string()),
        ],
    );

    let task_id = new_id();
    state.row(
        "work_items",
        &[
            ("id", task_id.to_text()),
            ("parent_id", story_id.to_text()),
            ("decomposition_session_id", session_id.to_text()),
            ("item_type", "task".to_string()),
            ("kind", "impl".to_string()),
            ("title", "Task 1".to_string()),
            ("description", "desc".to_string()),
            ("status", "pending".to_string()),
            ("short_id", "T1".to_string()),
            ("sort_order", "0".to_string()),
            ("created_at", "2024-01-01T00:00:00Z".to_string()),
            ("updated_at", "2024-01-01T00:00:00Z".to_string()),
        ],
    );

    let req = Request {
        id: "502".to_string(),
        command: "exec.skip".to_string(),
        params: params(&[("task_id", text("W1-T1"))]),
    };
    match answer(req, &state) {
        Answer::Single(resp) => {
            assert_eq!(resp.status, ResponseStatus::Error);
            assert!(resp.data["message"]
                .as_str()
                .unwrap()
                .contains("INVALID_STATE"));
        }
        _ => panic!("expected Single response"),
    }
}

#[test]
fn test_exec_skip_not_a_task() {
    let state = make_db_state();
    let project_id = insert_test_project(&state, "skip-proj2");

    let session_id = new_id();
    state.row(
        "decomposition_sessions",
        &[
            ("id", session_id.to_text()),
            ("project_id", project_id.to_text()),
            ("wave_number", "1".to_string()),
            ("status", "approved".to_string()),
            ("created_at", "2024-01-01T00:00:00Z".to_string()),
            ("updated_at", "2024-01-01T00:00:00Z".to_string()),
        ],
    );

    let epic_id = new_id();
    state.row(
        "work_items",
        &[
            ("id", epic_id.to_text()),
            ("decomposition_session_id", session_id.to_text()),
            ("item_type", "epic".to_string()),
            ("title", "Epic".to_string()),
            ("description", "desc".to_string()),
            ("status", "failed".to_string()),
            ("short_id", "E1".to_string()),
            ("sort_order", "0".to_string()),
            ("created_at", "2024-01-01T00:00:00Z".to_string()),
            ("updated_at", "2024-01-01T00:00:00Z".to_string()),
        ],
    );

    let req = Request {
        id: "503".to_string(),
        command: "exec.skip".to_string(),
        params: params(&[("task_id", text("W1-E1"))]),
    };
    match answer(req, &state) {
        Answer::Single(resp) => {
            assert_eq!(resp.status, ResponseStatus::Error);
            let msg = resp.data["message"].as_str().unwrap();
            assert!(msg.contains("INVALID") || msg.contains("not a task"));
        }
        _ => panic!("expected Single response"),
    }
}

#[test]
fn test_exec_skip_marks_task_done_and_cancels_verify() {
    let state = make_db_state();
    let project_id = insert_test_project(&state, "skip-proj3");

    let session_id = new_id();
    state.row(
        "decomposition_sessions",
        &[
            ("id", session_id.to_text()),
            ("project_id", project_id.to_text()),
            ("wave_number", "1".to_string()),
            ("status", "approved".to_string()),
            ("created_at", "2024-01-01T00:00:00Z".to_string()),
            ("updated_at", "2024-01-01T00:00:00Z".to_string()),
        ],
    );

    let epic_id = new_id();
    state.row(
        "work_items",
        &[
            ("id", epic_id.to_text()),
            ("decomposition_session_id", session_id.to_text()),
            ("item_type", "epic".to_string()),
            ("title", "Epic".to_string()),
            ("description", "desc".to_string()),
            ("status", "in_progress".to_string()),
            ("short_id", "E1".to_string()),
            ("sort_order", "0".to_string()),
            ("created_at", "2024-01-01T00:00:00Z".to_string()),
            ("updated_at", "2024-01-01T00:00:00Z".to_string()),
        ],
    );

    let story_id = new_id();
    state.row(
        "work_items",
        &[
            ("id", story_id.to_text()),
            ("parent_id", epic_id.to_text()),
            ("decomposition_session_id", session_id.to_text()),
            ("item_type", "story".to_string()),
            ("title", "Story".to_string()),
            ("description", "desc".to_string()),
            ("status", "failed".to_string()),
            ("short_id", "S1".to_string()),
            ("sort_order", "0".to_string()),
            ("worktree_path", "/tmp/fake-wt".to_string()),
            ("created_at", "2024-01-01T00:00:00Z".to_string()),
            ("updated_at", "2024-01-01T00:00:00Z".to_string()),
        ],
    );

    // Failed impl task at sort_order 0
    let task_id = new_id();
    state.row(
        "work_items",
        &[
            ("id", task_id.to_text()),
            ("parent_id", story_id.to_text()),
            ("decomposition_session_id", session_id.to_text()),
            ("item_type", "task".to_string()),
            ("kind", "impl".to_string()),
            ("title", "Task 1".to_string()),
            ("description", "desc".to_string()),
            ("status", "failed".to_string()),
            ("short_id", "T1".to_string()),
            ("sort_order", "0".to_string()),
            ("created_at", "2024-01-01T00:00:00Z".to_string()),
            ("updated_at", "2024-01-01T00:00:00Z".to_string()),
        ],
    );

    // Pending verify task at sort_order 1
    let verify_id = new_id();
    state.row(
        "work_items",
        &[
            ("id", verify_id.to_text()),
            ("parent_id", story_id.to_text()),
            ("decomposition_session_id", session_id.to_text()),
            ("item_type", "task".to_string()),
            ("kind", "verify".to_string()),
            ("title", "Verify T1".to_string()),
            ("description", "desc".to_string()),
            ("status", "pending".to_string()),
            ("short_id", "T1v".to_string()),
            ("sort_order", "1".to_string()),
            ("created_at", "2024-01-01T00:00:00Z".to_string()),
            ("updated_at", "2024-01-01T00:00:00Z".to_string()),
        ],
    );

    let req = Request {
        id: "504".to_string(),
        command: "exec.skip".to_string(),
        params: params(&[("task_id", text("W1-T1"))]),
    };
    match answer(req, &state) {
        Answer::Single(resp) => {
            assert_eq!(resp.status, ResponseStatus::Success);
            assert_eq!(resp.data["task_id"].as_str().unwrap(), "W1-T1");
            // Verify task should be reported as skipped
            assert_eq!(resp.data["skipped_verify"].as_str().unwrap(), "T1v");
            // Story should be completed (all tasks done/cancelled)
            assert_eq!(resp.data["story_completed"].as_bool().unwrap(), true);
        }
        _ => panic!("expected Single response"),
    }

    // Verify DB state
    let impl_status: String = state.item_status(task_id);
    assert_eq!(impl_status, "done");

    let verify_status: String = state.item_status(verify_id);
    assert_eq!(verify_status, "cancelled");

    let story_status: String = state.item_status(story_id);
    assert_eq!(story_status, "done");
}

#[test]
fn test_exec_skip_dispatch_route() {
    let state = make_db_state();
    let req = Request {
        id: "510".to_string(),
        command: "exec.skip".to_string(),
        params: params(&[]),
    };
    // Should route to exec.skip (get error for missing param, not unknown command)
    match answer(req, &state) {
        Answer::Single(resp) => {
            assert_eq!(resp.status, ResponseStatus::Error);
            assert!(resp.data["message"]
                .as_str()
                .unwrap()
                .contains("missing required parameter"));
        }
        _ => panic!("expected Single response"),
    }
}

#[test]
fn test_worktree_list_missing_project() {
    let state = make_db_state();
    let req = Request {
        id: "600".to_string(),
        command: "worktree.list".to_string(),
        params: params(&[]),
    };
    match answer(req, &state) {
        Answer::Single(resp) => {
            assert_eq!(resp.status, ResponseStatus::Error);
            assert!(resp.data["message"]
                .as_str()
                .unwrap()
                .contains("missing required parameter"));
        }
        _ => panic!("expected Single response"),
    }
}

#[test]
fn test_worktree_list_project_not_found() {
    let state = make_db_state();
    let req = Request {
        id: "601".to_string(),
        command: "worktree.list".to_string(),
        params: params(&[("project", text("no-such-project"))]),
    };
    match answer(req, &state) {
        Answer::Single(resp) => {
            assert_eq!(resp.status, ResponseStatus::Error);
            assert!(resp.data["message"].as_str().unwrap().contains("NOT_FOUND"));
        }
        _ => panic!("expected Single response"),
    }
}

#[test]
fn test_worktree_list_returns_active_worktrees() {
    let state = make_db_state();
    let project_id = insert_test_project(&state, "wt-list-proj");

    let session_id = new_id();
    state.row(
        "decomposition_sessions",
        &[
            ("id", session_id.to_text()),
            ("project_id", project_id.to_text()),
            ("wave_number", "1".to_string()),
            ("status", "approved".to_string()),
            ("created_at", "2024-01-01T00:00:00Z".to_string()),
            ("updated_at", "2024-01-01T00:00:00Z".to_string()),
        ],
    );

    // Story with worktree
    let story1_id = new_id();
    state.row(
        "work_items",
        &[
            ("id", story1_id.to_text()),
            ("decomposition_session_id", session_id.to_text()),
            ("item_type", "story".to_string()),
            ("title", "Story 1".to_string()),
            ("description", "desc".to_string()),
            ("status", "in_progress".to_string()),
            ("short_id", "S1".to_string()),
            ("sort_order", "0".to_string()),
            ("branch_name", "feat/s1".to_string()),
            ("worktree_path", "/tmp/wt/s1".to_string()),
            ("created_at", "2024-01-01T00:00:00Z".to_string()),
            ("updated_at", "2024-01-01T00:00:00Z".to_string()),
        ],
    );

    // Story without worktree (pending)
    let story2_id = new_id();
    state.row(
        "work_items",
        &[
            ("id", story2_id.to_text()),
            ("decomposition_session_id", session_id.to_text()),
            ("item_type", "story".to_string()),
            ("title", "Story 2".to_string()),
            ("description", "desc".to_string()),
            ("status", "pending".to_string()),
            ("short_id", "S2".to_string()),
            ("sort_order", "1".to_string()),
            ("created_at", "2024-01-01T00:00:00Z".to_string()),
            ("updated_at", "2024-01-01T00:00:00Z".to_string()),
        ],
    );

    // Story with worktree (done)
    let story3_id = new_id();
    state.row(
        "work_items",
        &[
            ("id", story3_id.to_text()),
            ("decomposition_session_id", session_id.to_text()),
            ("item_type", "story".to_string()),
            ("title", "Story 3".to_string()),
            ("description", "desc".to_string()),
            ("status", "done".to_string()),
            ("short_id", "S3".to_string()),
            ("sort_order", "2".to_string()),
            ("branch_name", "feat/s3".to_string()),
            ("worktree_path", "/tmp/wt/s3".to_string()),
            ("created_at", "2024-01-01T00:00:00Z".to_string()),
            ("updated_at", "2024-01-01T00:00:00Z".to_string()),
        ],
    );

    let req = Request {
        id: "602".to_string(),
        command: "worktree.list".to_string(),
        params: params(&[("project", text("wt-list-proj"))]),
    };
    match answer(req, &state) {
        Answer::Single(resp) => {
            assert_eq!(resp.status, ResponseStatus::Success);
            let worktrees = resp.data["worktrees"].as_array().unwrap();
            assert_eq!(worktrees.len(), 2);
            assert_eq!(resp.data["count"].as_u64().unwrap(), 2);
            // Should include S1 and S3 (both have worktree_path)
            let paths: Vec<&str> = worktrees
                .iter()
                .map(|w| w["path"].as_str().unwrap())
                .collect();
            assert!(paths.contains(&"/tmp/wt/s1"));
            assert!(paths.contains(&"/tmp/wt/s3"));
        }
        _ => panic!("expected Single response"),
    }
}

#[test]
fn test_worktree_clean_missing_project() {
    let state = make_db_state();
    let req = Request {
        id: "610".to_string(),
        command: "worktree.clean".to_string(),
        params: params(&[]),
    };
    match answer(req, &state) {
        Answer::Single(resp) => {
            assert_eq!(resp.status, ResponseStatus::Error);
            assert!(resp.data["message"]
                .as_str()
                .unwrap()
                .contains("missing required parameter"));
        }
        _ => panic!("expected Single response"),
    }
}

#[test]
fn test_worktree_clean_no_worktrees() {
    let state = make_db_state();
    insert_test_project(&state, "wt-clean-proj");

    let req = Request {
        id: "611".to_string(),
        command: "worktree.clean".to_string(),
        params: params(&[("project", text("wt-clean-proj"))]),
    };
    match answer(req, &state) {
        Answer::Single(resp) => {
            assert_eq!(resp.status, ResponseStatus::Success);
            assert_eq!(resp.data["count"].as_u64().unwrap(), 0);
            assert_eq!(resp.data["removed"].as_array().unwrap().len(), 0);
        }
        _ => panic!("expected Single response"),
    }
}

#[test]
fn test_worktree_clean_only_done_cancelled() {
    let state = make_db_state();
    let project_id = insert_test_project(&state, "wt-clean-proj2");

    let session_id = new_id();
    state.row(
        "decomposition_sessions",
        &[
            ("id", session_id.to_text()),
            ("project_id", project_id.to_text()),
            ("wave_number", "1".to_string()),
            ("status", "approved".to_string()),
            ("created_at", "2024-01-01T00:00:00Z".to_string()),
            ("updated_at", "2024-01-01T00:00:00Z".to_string()),
        ],
    );

    // in_progress story with worktree — should NOT be cleaned
    let story1_id = new_id();
    state.row(
        "work_items",
        &[
            ("id", story1_id.to_text()),
            ("decomposition_session_id", session_id.to_text()),
            ("item_type", "story".to_string()),
            ("title", "Story 1".to_string()),
            ("description", "desc".to_string()),
            ("status", "in_progress".to_string()),
            ("short_id", "S1".to_string()),
            ("sort_order", "0".to_string()),
            ("branch_name", "feat/s1".to_string()),
            ("worktree_path", "/tmp/wt/s1".to_string()),
            ("created_at", "2024-01-01T00:00:00Z".to_string()),
            ("updated_at", "2024-01-01T00:00:00Z".to_string()),
        ],
    );

    // done story with worktree — should be cleaned
    let story2_id = new_id();
    state.row(
        "work_items",
        &[
            ("id", story2_id.to_text()),
            ("decomposition_session_id", session_id.to_text()),
            ("item_type", "story".to_string()),
            ("title", "Story 2".to_string()),
            ("description", "desc".to_string()),
            ("status", "done".to_string()),
            ("short_id", "S2".to_string()),
            ("sort_order", "1".to_string()),
            ("branch_name", "feat/s2".to_string()),
            ("worktree_path", "/tmp/wt/s2".to_string()),
            ("created_at", "2024-01-01T00:00:00Z".to_string()),
            ("updated_at", "2024-01-01T00:00:00Z".to_string()),
        ],
    );

    // cancelled story with worktree — should be cleaned
    let story3_id = new_id();
    state.row(
        "work_items",
        &[
            ("id", story3_id.to_text()),
            ("decomposition_session_id", session_id.to_text()),
            ("item_type", "story".to_string()),
            ("title", "Story 3".to_string()),
            ("description", "desc".to_string()),
            ("status", "cancelled".to_string()),
            ("short_id", "S3".to_string()),
            ("sort_order", "2".to_string()),
            ("branch_name", "feat/s3".to_string()),
            ("worktree_path", "/tmp/wt/s3".to_string()),
            ("created_at", "2024-01-01T00:00:00Z".to_string()),
            ("updated_at", "2024-01-01T00:00:00Z".to_string()),
        ],
    );

    let req = Request {
        id: "612".to_string(),
        command: "worktree.clean".to_string(),
        params: params(&[("project", text("wt-clean-proj2"))]),
    };
    match answer(req, &state) {
        Answer::Single(resp) => {
            assert_eq!(resp.status, ResponseStatus::Success);
            // Only done and cancelled stories should be cleaned (2 of 3)
            assert_eq!(resp.data["count"].as_u64().unwrap(), 2);
            let removed = resp.data["removed"].as_array().unwrap();
            let story_ids: Vec<&str> = removed
                .iter()
                .map(|r| r["story_id"].as_str().unwrap())
                .collect();
            assert!(story_ids.contains(&"W1-S2"));
            assert!(story_ids.contains(&"W1-S3"));
            assert!(!story_ids.contains(&"W1-S1"));
        }
        _ => panic!("expected Single response"),
    }

    // Verify DB: cleared worktree_path for done/cancelled but not in_progress
    let s1_wt: Option<String> = state.item(story1_id).worktree_path;
    assert!(s1_wt.is_some()); // still present

    let s2_wt: Option<String> = state.item(story2_id).worktree_path;
    assert!(s2_wt.is_none()); // cleared
}

#[test]
fn test_cleanup_logs_missing_project() {
    let state = make_db_state();
    let req = Request {
        id: "620".to_string(),
        command: "cleanup.logs".to_string(),
        params: params(&[]),
    };
    match answer(req, &state) {
        Answer::Single(resp) => {
            assert_eq!(resp.status, ResponseStatus::Error);
            assert!(resp.data["message"]
                .as_str()
                .unwrap()
                .contains("missing required parameter"));
        }
        _ => panic!("expected Single response"),
    }
}

#[test]
fn test_cleanup_logs_requires_filter() {
    let state = make_db_state();
    insert_test_project(&state, "logs-proj");

    let req = Request {
        id: "621".to_string(),
        command: "cleanup.logs".to_string(),
        params: params(&[("project", text("logs-proj"))]),
    };
    match answer(req, &state) {
        Answer::Single(resp) => {
            assert_eq!(resp.status, ResponseStatus::Error);
            assert!(resp.data["message"]
                .as_str()
                .unwrap()
                .contains("INVALID_PARAMS"));
        }
        _ => panic!("expected Single response"),
    }
}

#[test]
fn test_cleanup_logs_invalid_duration() {
    let state = make_db_state();
    insert_test_project(&state, "logs-proj2");

    let req = Request {
        id: "622".to_string(),
        command: "cleanup.logs".to_string(),
        params: params(&[("project", text("logs-proj2")), ("older_than", text("abc"))]),
    };
    match answer(req, &state) {
        Answer::Single(resp) => {
            assert_eq!(resp.status, ResponseStatus::Error);
            assert!(resp.data["message"]
                .as_str()
                .unwrap()
                .contains("invalid duration"));
        }
        _ => panic!("expected Single response"),
    }
}

#[test]
fn test_cleanup_logs_no_dir() {
    let state = make_db_state();
    insert_test_project(&state, "logs-proj3");

    // With all=true but no logs directory exists — should return empty result
    let req = Request {
        id: "623".to_string(),
        command: "cleanup.logs".to_string(),
        params: params(&[("project", text("logs-proj3")), ("all", truth(true))]),
    };
    match answer(req, &state) {
        Answer::Single(resp) => {
            assert_eq!(resp.status, ResponseStatus::Success);
            assert_eq!(resp.data["count"].as_u64().unwrap(), 0);
        }
        _ => panic!("expected Single response"),
    }
}

#[test]
fn test_worktree_list_dispatch_route() {
    let state = make_db_state();
    let req = Request {
        id: "630".to_string(),
        command: "worktree.list".to_string(),
        params: params(&[]),
    };
    match answer(req, &state) {
        Answer::Single(resp) => {
            assert_eq!(resp.status, ResponseStatus::Error);
            assert!(resp.data["message"]
                .as_str()
                .unwrap()
                .contains("missing required parameter"));
        }
        _ => panic!("expected Single response"),
    }
}

#[test]
fn test_worktree_clean_dispatch_route() {
    let state = make_db_state();
    let req = Request {
        id: "631".to_string(),
        command: "worktree.clean".to_string(),
        params: params(&[]),
    };
    match answer(req, &state) {
        Answer::Single(resp) => {
            assert_eq!(resp.status, ResponseStatus::Error);
            assert!(resp.data["message"]
                .as_str()
                .unwrap()
                .contains("missing required parameter"));
        }
        _ => panic!("expected Single response"),
    }
}

#[test]
fn test_cleanup_logs_dispatch_route() {
    let state = make_db_state();
    let req = Request {
        id: "632".to_string(),
        command: "cleanup.logs".to_string(),
        params: params(&[]),
    };
    match answer(req, &state) {
        Answer::Single(resp) => {
            assert_eq!(resp.status, ResponseStatus::Error);
            assert!(resp.data["message"]
                .as_str()
                .unwrap()
                .contains("missing required parameter"));
        }
        _ => panic!("expected Single response"),
    }
}

#[test]
fn test_config_show_with_project_not_found() {
    let state = make_db_state();
    let req = Request {
        id: "701".to_string(),
        command: "config.show".to_string(),
        params: params(&[("project_name", text("nonexistent"))]),
    };
    let resp = single(req, &state);
    assert_eq!(resp.status, ResponseStatus::Error);
    assert!(resp.data["message"].as_str().unwrap().contains("NOT_FOUND"));
}

#[test]
fn test_config_show_with_project() {
    let state = make_db_state();
    insert_test_project(&state, "config-proj");
    let req = Request {
        id: "702".to_string(),
        command: "config.show".to_string(),
        params: params(&[("project_name", text("config-proj"))]),
    };
    let resp = single(req, &state);
    assert_eq!(resp.status, ResponseStatus::Success);
    assert_eq!(resp.data["project"], "config-proj");
}

#[test]
fn test_config_set_missing_key() {
    let state = make_db_state();
    let req = Request {
        id: "710".to_string(),
        command: "config.set".to_string(),
        params: params(&[("value", number(5))]),
    };
    let resp = single(req, &state);
    assert_eq!(resp.status, ResponseStatus::Error);
    assert!(resp.data["message"]
        .as_str()
        .unwrap()
        .contains("missing required parameter: key"));
}

#[test]
fn test_config_set_missing_value() {
    let state = make_db_state();
    let req = Request {
        id: "711".to_string(),
        command: "config.set".to_string(),
        params: params(&[("key", text("max_parallel"))]),
    };
    let resp = single(req, &state);
    assert_eq!(resp.status, ResponseStatus::Error);
    assert!(resp.data["message"]
        .as_str()
        .unwrap()
        .contains("missing required parameter: value"));
}

#[test]
fn test_config_set_unknown_key() {
    let state = make_db_state();
    let req = Request {
        id: "712".to_string(),
        command: "config.set".to_string(),
        params: params(&[("key", text("unknown_key")), ("value", text("foo"))]),
    };
    let resp = single(req, &state);
    assert_eq!(resp.status, ResponseStatus::Error);
    assert!(resp.data["message"]
        .as_str()
        .unwrap()
        .contains("unknown config key"));
}

#[test]
fn test_config_set_wrong_type_string_for_integer() {
    let state = make_db_state();
    let req = Request {
        id: "713".to_string(),
        command: "config.set".to_string(),
        params: params(&[("key", text("max_parallel")), ("value", text("not_a_number"))]),
    };
    let resp = single(req, &state);
    assert_eq!(resp.status, ResponseStatus::Error);
    assert!(resp.data["message"]
        .as_str()
        .unwrap()
        .contains("expects integer"));
}

#[test]
fn test_config_set_wrong_type_integer_for_boolean() {
    let state = make_db_state();
    let req = Request {
        id: "714".to_string(),
        command: "config.set".to_string(),
        params: params(&[("key", text("cleanup_worktrees")), ("value", number(1))]),
    };
    let resp = single(req, &state);
    assert_eq!(resp.status, ResponseStatus::Error);
    assert!(resp.data["message"]
        .as_str()
        .unwrap()
        .contains("expects boolean"));
}

#[test]
fn test_config_set_validation_rejects_zero_max_parallel() {
    let state = make_db_state();
    let req = Request {
        id: "715".to_string(),
        command: "config.set".to_string(),
        params: params(&[("key", text("max_parallel")), ("value", number(0))]),
    };
    let resp = single(req, &state);
    assert_eq!(resp.status, ResponseStatus::Error);
    assert!(resp.data["message"]
        .as_str()
        .unwrap()
        .contains("invalid config"));
}

#[test]
fn test_config_set_project_not_found() {
    let state = make_db_state();
    let req = Request {
        id: "716".to_string(),
        command: "config.set".to_string(),
        params: params(&[
            ("key", text("max_parallel")),
            ("value", number(5)),
            ("project_name", text("nonexistent")),
        ]),
    };
    let resp = single(req, &state);
    assert_eq!(resp.status, ResponseStatus::Error);
    assert!(resp.data["message"].as_str().unwrap().contains("NOT_FOUND"));
}

#[test]
fn test_config_show_dispatch_route() {
    let state = make_db_state();
    let req = Request {
        id: "730".to_string(),
        command: "config.show".to_string(),
        params: params(&[]),
    };
    match answer(req, &state) {
        Answer::Single(resp) => {
            assert_eq!(resp.status, ResponseStatus::Success);
            assert!(resp.data["config"].is_object());
        }
        _ => panic!("expected Single response"),
    }
}

#[test]
fn test_config_set_dispatch_route() {
    let state = make_db_state();
    let req = Request {
        id: "731".to_string(),
        command: "config.set".to_string(),
        params: params(&[]),
    };
    match answer(req, &state) {
        Answer::Single(resp) => {
            assert_eq!(resp.status, ResponseStatus::Error);
            assert!(resp.data["message"]
                .as_str()
                .unwrap()
                .contains("missing required parameter"));
        }
        _ => panic!("expected Single response"),
    }
}

// ---- further commands ----

fn said(text: &str) -> StreamItem {
    StreamItem { event: StreamEvent::TextDelta { text: text.to_string() }, asks_user: false }
}

fn result(text: &str) -> StreamItem {
    StreamItem {
        event: StreamEvent::Result {
            text: text.to_string(),
            session_id: "session-1".to_string(),
        },
        asks_user: false,
    }
}

fn insert_session(state: &State, project_id: Uuid, wave: u32, status: DecompositionStatus) -> Uuid {
    let session = DecompositionSession {
        id: new_id(),
        project_id,
        wave_number: wave,
        status,
        claude_session_id: None,
        error_message: None,
        created_at: now(),
        updated_at: now(),
    };
    state.insert_session(&session);
    session.id
}

/// A wave with a story that has a worktree, a task of the given status and its verify task.
fn insert_story_with_task(
    state: &State,
    session: Uuid,
    story_status: WorkItemStatus,
    task_status: WorkItemStatus,
) -> (Uuid, Uuid, Uuid) {
    let epic = new_epic(session, "Epic", "desc", "E1", 0);
    let mut story = new_story(epic.id, session, "Story", "desc", "ac", "S1", 0);
    story.status = story_status;
    story.worktree_path = Some("/tmp/wt/s1".to_string());
    let mut task = new_task(story.id, session, "Task", "desc", "ac", "T1", 0);
    task.status = task_status;
    let mut verify = new_task(story.id, session, "Verify", "desc", "ac", "T1v", 1);
    verify.kind = Some(TaskKind::Verify);
    state.insert_item(&epic);
    state.insert_item(&story);
    state.insert_item(&task);
    state.insert_item(&verify);
    (story.id, task.id, verify.id)
}

fn insert_run(state: &State, task: Uuid, status: &str, pid: u32, log_path: Option<&str>) -> Uuid {
    let id = new_id();
    let mut columns = vec![
        ("id", id.to_text()),
        ("work_item_id", task.to_text()),
        ("pid", pid.to_string()),
        ("status", status.to_string()),
        ("started_at", "2024-01-01".to_string()),
    ];
    if let Some(path) = log_path {
        columns.push(("log_path", path.to_string()));
    }
    state.row("agent_runs", &columns);
    id
}

#[test]
fn commands_are_told_apart_exactly() {
    let state = make_db_state();
    for command in ["", "project", "project.list ", "Project.list", "exec.run.now"] {
        let resp = single(request("1", command, &[]), &state);
        assert_eq!(message(&resp), format!("unknown command: {}", command));
        assert_eq!(resp.id, "1");
    }
}

#[test]
fn every_command_but_a_few_needs_a_parameter() {
    let state = make_db_state();
    let needs = [
        ("project.init", "name"),
        ("project.delete", "name"),
        ("spec.new", "project_name"),
        ("spec.answer", "spec_id"),
        ("spec.list", "project_name"),
        ("spec.view", "project_name"),
        ("spec.approve", "project_name"),
        ("spec.reopen", "project_name"),
        ("spec.delete", "project_name"),
        ("spec.deactivate", "project_name"),
        ("spec.resume", "project_name"),
        ("plan.generate", "project_name"),
        ("plan.show", "project_name"),
        ("plan.feedback", "project_name"),
        ("plan.approve", "project_name"),
        ("plan.discard", "project_name"),
        ("exec.run", "project_name"),
        ("exec.pause", "project_name"),
        ("exec.status", "project_name"),
        ("exec.retry", "task_id"),
        ("exec.skip", "task_id"),
        ("exec.continue", "story_id"),
        ("exec.cancel", "story_id"),
        ("exec.log", "task_id"),
        ("worktree.list", "project"),
        ("worktree.clean", "project"),
        ("cleanup.logs", "project"),
        ("config.set", "key"),
        ("pipeline.start", "project_name"),
        ("pipeline.status", "pipeline_run_id"),
        ("pipeline.list", "project_name"),
        ("pipeline.cancel", "pipeline_run_id"),
        ("pipeline.log", "pipeline_run_id"),
    ];
    for (command, parameter) in needs {
        let resp = single(request("9", command, &[]), &state);
        assert_eq!(resp.id, "9");
        assert_eq!(message(&resp), format!("missing required parameter: {}", parameter));
    }
}

#[test]
fn a_database_that_does_not_open_is_reported() {
    let state = make_test_state();
    let resp = single(request("1", "project.list", &[]), &state);
    assert_eq!(
        message(&resp),
        "database error: unable to open database file: /nonexistent/test.db"
    );
}

#[test]
fn a_spec_is_deactivated() {
    let state = make_db_state();
    let project = insert_test_project(&state, "p");
    insert_test_spec_with_session(&state, project, "s", "draft", true, Some("session-1"));
    let names = [("project_name", text("p")), ("spec_name", text("s"))];
    let resp = single(request("1", "spec.deactivate", &names), &state);
    assert_eq!(resp.status, ResponseStatus::Success);
    assert_eq!(resp.data["name"], "s");
    assert_eq!(resp.data["session_active"], false);
    assert!(!state.spec(project, "s").unwrap().session_active);
}

// ---- spec sessions ----

#[test]
fn a_spec_session_streams_what_the_agent_says() {
    let state = make_db_state();
    let project = insert_test_project(&state, "p");
    let question = StreamItem {
        event: StreamEvent::ToolUse { name: "AskUser".to_string(), input: Json::object() },
        asks_user: true,
    };
    state.world.borrow_mut().scripts = vec![vec![said("hello"), question, result("done")]];
    let names = [
        ("project_name", text("p")),
        ("spec_name", text("auth")),
        ("with_codebase", truth(false)),
    ];
    let lines = streamed(request("7", "spec.new", &names), &state);
    assert!(lines.iter().all(|l| l.id == "7"));
    assert!(lines.iter().any(|l| l.data["type"] == "text" && l.data["text"] == "hello"));
    assert!(lines.iter().any(|l| l.data["type"] == "result" && l.data["text"] == "done"));
    let last = lines.last().unwrap();
    assert!(last.done);
    assert_eq!(lines.iter().filter(|l| l.done).count(), 1);
    let spec = state.spec(project, "auth").unwrap();
    assert_eq!(spec.claude_session_id, Some("session-1".to_string()));
    assert_eq!(spec.file_path, "/home/user/.nflow/projects/p/specs/auth.md");
    let world = state.world.borrow();
    assert_eq!(world.spawned[0].kind, RunKind::Spec { with_codebase: false });
}

#[test]
fn a_run_that_does_not_start_ends_the_spec_session() {
    let state = make_db_state();
    let project = insert_test_project(&state, "p");
    state.world.borrow_mut().spawn_fails = true;
    let names = [("project_name", text("p")), ("spec_name", text("auth"))];
    let lines = streamed(request("7", "spec.new", &names), &state);
    let failed: Vec<&Line> =
        lines.iter().filter(|l| l.status == ResponseStatus::Error).collect();
    assert_eq!(failed.len(), 1);
    assert_eq!(failed[0].data["message"], "failed to spawn agent: program not found");
    assert!(!state.spec(project, "auth").unwrap().session_active);
}

/// The last line of a session, and whether the spec's session is active after it.
fn session_end(code: Option<i32>, written: bool) -> (Value, bool) {
    let state = make_db_state();
    let project = insert_test_project(&state, "p");
    {
        let mut world = state.world.borrow_mut();
        world.scripts = vec![vec![result("done")]];
        world.exit_code = code;
        if written {
            let path = "/home/user/.nflow/projects/p/specs/auth.md".to_string();
            world.files.insert(path, "# Login".to_string());
        }
    }
    let names = [("project_name", text("p")), ("spec_name", text("auth"))];
    let lines = streamed(request("8", "spec.new", &names), &state);
    let active = state.spec(project, "auth").unwrap().session_active;
    (lines.last().unwrap().data.clone(), active)
}

#[test]
fn a_session_is_completed_by_a_run_that_ends_well_and_leaves_the_file() {
    let (last, active) = session_end(Some(0), true);
    assert_eq!(last["session_id"], "session-1");
    assert_eq!(last["completed"], true);
    assert!(!active);
    for (code, written) in [(Some(0), false), (Some(1), true), (None, true), (Some(-1), false)] {
        let (last, active) = session_end(code, written);
        assert_eq!(last["completed"], false, "{:?} {}", code, written);
        assert!(active);
    }
}

#[test]
fn an_answer_needs_a_session_to_resume() {
    let state = make_db_state();
    let project = insert_test_project(&state, "p");
    insert_test_spec_with_session(&state, project, "s", "draft", true, None);
    let spec = state.spec(project, "s").unwrap().id;
    let members = [("spec_id", Json::Str(spec.to_text())), ("answer_text", text("Rust"))];
    let resp = single(request("9", "spec.answer", &members), &state);
    assert_eq!(message(&resp), "INVALID_STATE: spec has no agent session to resume");
}

// ---- plans ----

const DECOMPOSITION: &str = "Here it is:\n```json\n{\"epics\": [{\"id\": \"E1\", \"title\": \"One\",
    \"stories\": [
        {\"id\": \"S1\", \"title\": \"First\", \"tasks\": [{\"title\": \"Do\"}, {\"id\": \"T9\"}]},
        {\"title\": \"Second\", \"depends_on\": [\"S1\"], \"acceptance_criteria\": \"works\"}
    ]}]}\n```\nThat is all.";

fn decomposed(state: &State, script: Vec<StreamItem>) -> Vec<Line> {
    state.world.borrow_mut().scripts = vec![script];
    let lines = streamed(request("20", "plan.generate", &[("project_name", text("p"))]), state);
    assert!(lines.iter().all(|l| l.id == "20"));
    lines
}

fn state_with_approved_spec() -> (State, Uuid) {
    let state = make_db_state();
    let project = insert_test_project(&state, "p");
    insert_test_spec(&state, project, "auth", "approved", false);
    let path = "/tmp/specs/auth.md".to_string();
    state.world.borrow_mut().files.insert(path, "# Login".to_string());
    (state, project)
}

#[test]
fn a_decomposition_becomes_work_items() {
    let (state, project) = state_with_approved_spec();
    let lines = decomposed(&state, vec![said("thinking"), result(DECOMPOSITION)]);
    let last = lines.last().unwrap();
    assert!(last.done);
    assert_eq!(last.status, ResponseStatus::Success);
    assert_eq!(last.data["wave_number"], 1);
    assert_eq!(last.data["epic_count"], 1);
    assert_eq!(last.data["story_count"], 2);
    // two tasks, and one that verifies each
    assert_eq!(last.data["task_count"], 4);

    assert_eq!(state.spec(project, "auth").unwrap().status, SpecStatus::Decomposed);
    let world = state.world.borrow();
    let ids: Vec<&str> = world.items.iter().map(|i| i.short_id.as_str()).collect();
    assert_eq!(ids, vec!["E1", "S1", "T1", "T9", "S2", "T1v", "T9v"]);
    let orders: Vec<i32> = world.items.iter().map(|i| i.sort_order).collect();
    assert_eq!(orders, vec![0, 0, 0, 2, 1, 1, 3]);
    assert_eq!(world.items[2].title, "Do");
    assert_eq!(world.items[3].title, "Untitled Task");
    assert_eq!(world.items[4].acceptance_criteria, Some("works".to_string()));
    assert_eq!(world.dependencies.len(), 1);
    assert_eq!(world.dependencies[0].blocker_id, world.items[1].id);
    assert_eq!(world.dependencies[0].blocked_id, world.items[4].id);
    assert_eq!(world.sessions[0].claude_session_id, Some("session-1".to_string()));
    assert_eq!(world.links.len(), 1);
    assert_eq!(world.rendered[0]["specs_content"], "# Login");
    assert_eq!(world.rendered[0]["project_name"], "p");
    assert_eq!(world.spawned[0].kind, RunKind::Decompose { with_codebase: true });
    assert!(world.notices.contains(&Notice::DecompositionCompleted {
        session: world.sessions[0].id,
        project,
        wave: 1,
    }));
}

#[test]
fn a_generated_wave_is_shown_with_one_wave_prefix() {
    let (state, _) = state_with_approved_spec();
    decomposed(&state, vec![result(DECOMPOSITION)]);
    let shown = [("project_name", text("p"))];
    let resp = single(request("22", "plan.show", &shown), &state);
    let stories = resp.data["epics"][0]["stories"].as_array().unwrap();
    assert_eq!(stories[0]["short_id"], "W1-S1");
    assert_eq!(stories[1]["short_id"], "W1-S2");
    assert_eq!(stories[1]["depends_on"][0], "W1-S1");
    assert_eq!(resp.data["epics"][0]["short_id"], "W1-E1");
    assert_eq!(stories[0]["tasks"][0]["short_id"], "W1-T1");
}

#[test]
fn the_tree_and_the_graph_of_a_wave_agree() {
    let state = make_db_state();
    let project = insert_test_project(&state, "p");
    let session = insert_session(&state, project, 3, DecompositionStatus::InProgress);
    let epics = [
        new_epic(session, "One", "desc", "E1", 0),
        new_epic(session, "Two", "desc", "E2", 1),
    ];
    let stories = [
        new_story(epics[0].id, session, "A", "desc", "ac", "S1", 0),
        new_story(epics[0].id, session, "B", "desc", "ac", "S2", 1),
        new_story(epics[1].id, session, "C", "desc", "ac", "S3", 2),
    ];
    epics.iter().for_each(|e| state.insert_item(e));
    stories.iter().for_each(|s| state.insert_item(s));
    for (from, to) in [(0, 1), (0, 2), (1, 2)] {
        let dependency =
            Dependency { blocker_id: stories[from].id, blocked_id: stories[to].id };
        state.insert_dependency(&dependency);
    }
    let shown = [("project_name", text("p"))];
    let tree = single(request("23", "plan.show", &shown), &state).data;
    let shown = [("project_name", text("p")), ("dag", truth(true))];
    let dag = single(request("24", "plan.show", &shown), &state).data;
    assert_eq!(tree["wave_number"], 3);
    assert_eq!(dag["wave_number"], tree["wave_number"]);
    assert_eq!(dag["status"], tree["status"]);

    let nodes: Vec<&Value> = tree["epics"]
        .as_array()
        .unwrap()
        .iter()
        .flat_map(|e| e["stories"].as_array().unwrap())
        .collect();
    let ids: Vec<&Value> = nodes.iter().map(|n| &n["short_id"]).collect();
    assert_eq!(ids, vec!["W3-S1", "W3-S2", "W3-S3"]);
    let adjacency = dag["adjacency"].as_object().unwrap();
    assert_eq!(adjacency.len(), 3);
    let mut links = 0;
    for a in &nodes {
        let held_up = adjacency[a["short_id"].as_str().unwrap()].as_array().unwrap();
        for b in &nodes {
            let needed = b["depends_on"].as_array().unwrap();
            assert_eq!(held_up.contains(&b["short_id"]), needed.contains(&a["short_id"]));
            links += u32::from(held_up.contains(&b["short_id"]));
        }
    }
    assert_eq!(links, 3);
}

#[test]
fn what_an_agent_leaves_may_be_no_decomposition() {
    let cases = [
        (vec![], "agent process exited without producing a result"),
        (vec![result("no json")], "Failed to parse agent output as JSON: "),
        (vec![result("{\"stories\": []}")], "Failed to build work items: JSON missing 'epics'"),
        (
            vec![result("{\"epics\": [{\"stories\": [{\"depends_on\": [\"S7\"]}]}]}")],
            "Failed to build work items: dependency: unknown blocker story 'S7'",
        ),
        (
            vec![result(
                "{\"epics\": [{\"stories\": [{\"depends_on\": [\"S2\"]}, {\"depends_on\": [\"S1\"]}]}]}",
            )],
            "Failed to build work items: DAG validation failed: cycle detected",
        ),
    ];
    for (script, expected) in cases {
        let (state, project) = state_with_approved_spec();
        let lines = decomposed(&state, script);
        let last = lines.last().unwrap();
        assert_eq!(last.status, ResponseStatus::Error);
        let told = last.data["message"].as_str().unwrap();
        assert!(told.starts_with(expected), "{}", told);
        let noted = state.world.borrow().sessions[0].error_message.clone();
        assert_eq!(noted.as_deref(), Some(told));
        assert_eq!(state.spec(project, "auth").unwrap().status, SpecStatus::Approved);
    }
}

#[test]
fn a_second_draft_wave_is_refused() {
    let (state, project) = state_with_approved_spec();
    insert_session(&state, project, 1, DecompositionStatus::InProgress);
    let resp = single(request("21", "plan.generate", &[("project_name", text("p"))]), &state);
    assert!(message(&resp).starts_with("INVALID_STATE: project already has a draft wave"));
}

#[test]
fn a_wave_needs_approved_specs() {
    let state = make_db_state();
    let project = insert_test_project(&state, "p");
    insert_test_spec(&state, project, "auth", "draft", false);
    let resp = single(request("22", "plan.generate", &[("project_name", text("p"))]), &state);
    assert_eq!(message(&resp), "NOT_FOUND: no approved specs available for decomposition");
    let named = [
        ("project_name", text("p")),
        ("spec_names", Json::Arr(vec![text("auth")])),
    ];
    let resp = single(request("23", "plan.generate", &named), &state);
    assert_eq!(message(&resp), "INVALID_STATE: spec 'auth' is draft (must be approved)");
}

#[test]
fn feedback_is_decomposed_anew() {
    let (state, project) = state_with_approved_spec();
    decomposed(&state, vec![result(DECOMPOSITION)]);
    state.world.borrow_mut().scripts =
        vec![vec![result("{\"epics\": [{\"title\": \"Only\"}]}")]];
    let members = [("project_name", text("p")), ("message", text("make it small"))];
    let lines = streamed(request("24", "plan.feedback", &members), &state);
    let last = lines.last().unwrap();
    assert_eq!(last.data["epic_count"], 1);
    assert_eq!(last.data["story_count"], 0);
    assert_eq!(state.spec(project, "auth").unwrap().status, SpecStatus::Decomposed);
    let world = state.world.borrow();
    assert_eq!(world.items.len(), 1);
    assert_eq!(world.items[0].title, "Only");
    assert_eq!(world.spawned[1].prompt, "make it small");
    assert_eq!(world.spawned[1].resume_session, Some("session-1".to_string()));
}

#[test]
fn a_wave_is_approved_once() {
    let state = make_db_state();
    let project = insert_test_project(&state, "p");
    insert_session(&state, project, 1, DecompositionStatus::InProgress);
    let members = [("project_name", text("p")), ("auto_execute", truth(true))];
    let resp = single(request("25", "plan.approve", &members), &state);
    assert_eq!(resp.status, ResponseStatus::Success);
    assert_eq!(resp.data["wave_number"], 1);
    assert_eq!(resp.data["status"], "approved");
    assert_eq!(resp.data["execution_enabled"], true);
    let again = [("project_name", text("p")), ("wave_number", number(1))];
    let resp = single(request("26", "plan.approve", &again), &state);
    assert_eq!(
        message(&resp),
        "INVALID_STATE: wave W1 is approved (must be in_progress for approval)"
    );
}

#[test]
fn a_discarded_wave_loses_its_items() {
    let (state, project) = state_with_approved_spec();
    decomposed(&state, vec![result(DECOMPOSITION)]);
    let resp = single(request("27", "plan.discard", &[("project_name", text("p"))]), &state);
    assert_eq!(resp.status, ResponseStatus::Success, "{:?}", resp.data);
    assert_eq!(resp.data["status"], "discarded");
    assert!(state.world.borrow().items.is_empty());
    assert_eq!(state.spec(project, "auth").unwrap().status, SpecStatus::Approved);
    let again = [("project_name", text("p")), ("wave_number", number(1))];
    let resp = single(request("28", "plan.discard", &again), &state);
    assert_eq!(message(&resp), "INVALID_STATE: wave W1 is already discarded");
}

#[test]
fn a_wave_under_way_is_not_discarded() {
    let state = make_db_state();
    let project = insert_test_project(&state, "p");
    let session = insert_session(&state, project, 1, DecompositionStatus::InProgress);
    insert_story_with_task(
        &state,
        session,
        WorkItemStatus::InProgress,
        WorkItemStatus::Pending,
    );
    let resp = single(request("29", "plan.discard", &[("project_name", text("p"))]), &state);
    assert_eq!(message(&resp), "INVALID_STATE: wave W1 has stories in progress (stop them first)");
}

// ---- tasks and stories ----

#[test]
fn a_failed_task_is_retried() {
    let state = make_db_state();
    let project = insert_test_project(&state, "p");
    let session = insert_session(&state, project, 1, DecompositionStatus::Approved);
    let (_, task, _) = insert_story_with_task(
        &state,
        session,
        WorkItemStatus::Failed,
        WorkItemStatus::Failed,
    );
    insert_run(&state, task, "failed", 11, None);
    state.world.borrow_mut().repos.insert(
        "/tmp/wt/s1".to_string(),
        Repo { head: Some("abc123\ndef456".to_string()), remote: None },
    );
    let resp = single(request("30", "exec.retry", &[("task_id", text("W1-T1"))]), &state);
    assert_eq!(resp.status, ResponseStatus::Success, "{:?}", resp.data);
    assert_eq!(resp.data["task_id"], "W1-T1");
    assert_eq!(resp.data["retry_count"], 2);
    assert!(resp.data["warning"].is_null());
    assert_eq!(state.item_status(task), "in_progress");
    let world = state.world.borrow();
    assert_eq!(world.resets.len(), 1);
    assert_eq!(world.runs.len(), 2);
    assert_eq!(world.runs[1].pid, Some(4242));
    assert_eq!(world.runs[1].pid_start_time, Some(777));
    assert_eq!(
        world.runs[1].log_path,
        Some("/home/user/.nflow/projects/p/agent-logs/T1.log".to_string())
    );
    assert_eq!(
        world.spawned[0].prompt,
        "Implement the task as described in the system prompt file. Task: [T1] Task"
    );
    assert_eq!(world.spawned[0].working_dir, Some("/tmp/wt/s1".to_string()));
}

#[test]
fn a_task_retried_often_gets_a_warning() {
    let state = make_db_state();
    let project = insert_test_project(&state, "p");
    let session = insert_session(&state, project, 1, DecompositionStatus::Approved);
    let (_, task, _) = insert_story_with_task(
        &state,
        session,
        WorkItemStatus::Failed,
        WorkItemStatus::Failed,
    );
    for _ in 0..4 {
        insert_run(&state, task, "failed", 11, None);
    }
    state.world.borrow_mut().repos.insert(
        "/tmp/wt/s1".to_string(),
        Repo { head: Some("abc123".to_string()), remote: None },
    );
    let resp = single(request("31", "exec.retry", &[("task_id", text("W1-T1"))]), &state);
    assert_eq!(resp.data["retry_count"], 5);
    assert_eq!(resp.data["warning"], "task has been retried 4 times already");
}

#[test]
fn a_story_is_continued_where_it_stopped() {
    let state = make_db_state();
    let project = insert_test_project(&state, "p");
    let session = insert_session(&state, project, 1, DecompositionStatus::Approved);
    let (story, task, _) = insert_story_with_task(
        &state,
        session,
        WorkItemStatus::Cancelled,
        WorkItemStatus::Cancelled,
    );
    let resp = single(request("32", "exec.continue", &[("story_id", text("W1-S1"))]), &state);
    assert_eq!(resp.status, ResponseStatus::Success, "{:?}", resp.data);
    assert_eq!(resp.data["story_id"], "W1-S1");
    assert_eq!(resp.data["resumed"], true);
    assert_eq!(resp.data["next_task_id"], "T1");
    assert_eq!(state.item_status(story), "in_progress");
    assert_eq!(state.item_status(task), "in_progress");
}

#[test]
fn a_cancelled_story_with_dependents_is_continued_by_force_only() {
    let state = make_db_state();
    let project = insert_test_project(&state, "p");
    let session = insert_session(&state, project, 1, DecompositionStatus::Approved);
    let (story, _, _) = insert_story_with_task(
        &state,
        session,
        WorkItemStatus::Cancelled,
        WorkItemStatus::Cancelled,
    );
    let other = new_story(new_id(), session, "Other", "desc", "ac", "S2", 1);
    state.insert_item(&other);
    state.insert_dependency(&Dependency { blocker_id: story, blocked_id: other.id });
    let resp = single(request("33", "exec.continue", &[("story_id", text("W1-S1"))]), &state);
    assert_eq!(
        message(&resp),
        "INVALID_STATE: story 'W1-S1' has 1 dependent(s) that may be affected. Use --force to \
         skip this check"
    );
    let forced = [("story_id", text("W1-S1")), ("force", truth(true))];
    let resp = single(request("34", "exec.continue", &forced), &state);
    assert_eq!(resp.status, ResponseStatus::Success, "{:?}", resp.data);
}

#[test]
fn a_story_that_has_not_begun_is_cancelled() {
    let state = make_db_state();
    let project = insert_test_project(&state, "p");
    let session = insert_session(&state, project, 1, DecompositionStatus::Approved);
    let (story, task, verify) = insert_story_with_task(
        &state,
        session,
        WorkItemStatus::Pending,
        WorkItemStatus::Pending,
    );
    let other = new_story(new_id(), session, "Other", "desc", "ac", "S2", 1);
    state.insert_item(&other);
    state.insert_dependency(&Dependency { blocker_id: story, blocked_id: other.id });
    let resp = single(request("35", "exec.cancel", &[("story_id", text("W1-S1"))]), &state);
    assert_eq!(resp.status, ResponseStatus::Success, "{:?}", resp.data);
    assert_eq!(resp.data["cancelled"], true);
    assert_eq!(
        resp.data["warning"],
        "story has 1 dependent(s) that will be blocked: S2"
    );
    assert_eq!(resp.data["blocked_dependents"][0], "S2");
    assert_eq!(state.item_status(story), "cancelled");
    assert_eq!(state.item_status(task), "cancelled");
    assert_eq!(state.item_status(verify), "cancelled");

    let resp = single(request("36", "exec.cancel", &[("story_id", text("W1-S1"))]), &state);
    assert!(message(&resp).contains("is in 'cancelled' state, expected 'pending' or 'ready'"));
}

#[test]
fn stopping_ends_each_agent_and_each_story_once() {
    let state = make_db_state();
    let project = insert_test_project(&state, "p");
    let session = insert_session(&state, project, 1, DecompositionStatus::Approved);
    let (story, task, verify) = insert_story_with_task(
        &state,
        session,
        WorkItemStatus::InProgress,
        WorkItemStatus::InProgress,
    );
    let first = insert_run(&state, task, "running", 11, None);
    let second = insert_run(&state, verify, "running", 12, None);
    let resp = single(request("37", "exec.stop", &[("project_name", text("p"))]), &state);
    assert_eq!(resp.status, ResponseStatus::Success, "{:?}", resp.data);
    assert_eq!(resp.data["agents_stopped"], 2);
    assert_eq!(resp.data["stories_cancelled"], 1);
    assert_eq!(state.item_status(story), "cancelled");
    let world = state.world.borrow();
    assert_eq!(world.terminated, vec![11, 12]);
    for run in [first, second] {
        let r = world.runs.iter().find(|r| r.id == run).unwrap();
        assert_eq!(r.status, AgentRunStatus::Cancelled);
        assert_eq!(r.error_message.as_deref(), Some("stopped by user"));
    }
}

#[test]
fn one_story_is_stopped() {
    let state = make_db_state();
    let project = insert_test_project(&state, "p");
    let session = insert_session(&state, project, 1, DecompositionStatus::Approved);
    let (story, task, verify) = insert_story_with_task(
        &state,
        session,
        WorkItemStatus::InProgress,
        WorkItemStatus::InProgress,
    );
    insert_run(&state, task, "running", 11, None);
    let resp = single(request("38", "exec.stop", &[("story_id", text("W1-S1"))]), &state);
    assert_eq!(resp.data["story_id"], "W1-S1");
    assert_eq!(resp.data["agents_stopped"], 1);
    assert_eq!(state.item_status(story), "cancelled");
    assert_eq!(state.item_status(task), "failed");
    assert_eq!(state.item_status(verify), "cancelled");
}

#[test]
fn what_is_to_be_stopped_must_be_said() {
    let state = make_db_state();
    let resp = single(request("39", "exec.stop", &[]), &state);
    assert_eq!(
        message(&resp),
        "missing required parameter: project_name (or provide story_id, --wave, or --all)"
    );
    let resp = single(request("40", "exec.stop", &[("wave", number(1))]), &state);
    assert_eq!(
        message(&resp),
        "missing required parameter: project_name (required with --wave)"
    );
}

// ---- logs ----

fn state_with_log(lines: &str, status: &str) -> State {
    let state = make_db_state();
    let project = insert_test_project(&state, "p");
    let session = insert_session(&state, project, 1, DecompositionStatus::Approved);
    let (_, task, _) = insert_story_with_task(
        &state,
        session,
        WorkItemStatus::InProgress,
        WorkItemStatus::InProgress,
    );
    insert_run(&state, task, status, 11, Some("/logs/t1.log"));
    state.world.borrow_mut().files.insert("/logs/t1.log".to_string(), lines.to_string());
    state
}

#[test]
fn a_log_is_told_line_by_line() {
    let state = state_with_log("{\"text\": \"a\"}\n\n{\"text\": \"b\"}\n", "succeeded");
    let resp = single(request("41", "exec.log", &[("task_id", text("W1-T1"))]), &state);
    assert_eq!(resp.status, ResponseStatus::Success, "{:?}", resp.data);
    assert_eq!(resp.data["task_id"], "W1-T1");
    assert_eq!(resp.data["log_path"], "/logs/t1.log");
    let events = resp.data["events"].as_array().unwrap();
    assert_eq!(events.len(), 2);
    assert_eq!(events[0]["text"], "a");
    assert_eq!(events[1]["text"], "b");
}

#[test]
fn a_log_that_is_missing_is_reported() {
    let state = state_with_log("", "succeeded");
    state.world.borrow_mut().files.clear();
    let resp = single(request("42", "exec.log", &[("task_id", text("W1-T1"))]), &state);
    assert_eq!(message(&resp), "NOT_FOUND: log file does not exist: /logs/t1.log");
    let resp = single(request("43", "exec.log", &[("task_id", text("W1-T1v"))]), &state);
    assert_eq!(message(&resp), "NOT_FOUND: no agent run found for task 'W1-T1v'");
    let resp = single(request("44", "exec.log", &[("task_id", text("W1-S1"))]), &state);
    assert_eq!(message(&resp), "INVALID_PARAMS: 'W1-S1' is not a task");
}

#[test]
fn a_followed_log_ends_when_nothing_comes() {
    let state = state_with_log("{\"text\": \"a\"}\n", "running");
    let members = [("task_id", text("W1-T1")), ("follow", truth(true))];
    let lines = streamed(request("45", "exec.log", &members), &state);
    assert_eq!(lines[0].data["text"], "a");
    let last = lines.last().unwrap();
    assert!(last.done);
    assert!(last.data["reason"].is_string());
}

// ---- worktrees and log files ----

#[test]
fn all_worktrees_are_cleaned_when_asked_to() {
    let state = make_db_state();
    let project = insert_test_project(&state, "p");
    let session = insert_session(&state, project, 1, DecompositionStatus::Approved);
    let (story, _, _) = insert_story_with_task(
        &state,
        session,
        WorkItemStatus::InProgress,
        WorkItemStatus::Pending,
    );
    let members = [("project", text("p")), ("all", truth(true))];
    let resp = single(request("46", "worktree.clean", &members), &state);
    assert_eq!(resp.data["count"], 1);
    assert_eq!(resp.data["removed"][0]["story_id"], "W1-S1");
    assert_eq!(
        resp.data["warning"],
        "removed worktrees for stories that are still active"
    );
    assert_eq!(state.item(story).worktree_path, None);
}

fn log_file(name: &str, size: u64, age: u64) -> FileEntry {
    FileEntry { name: name.to_string(), is_file: true, size: Some(size), age: Some(age) }
}

fn state_with_logs() -> State {
    let state = make_db_state();
    insert_test_project(&state, "p");
    {
        let mut world = state.world.borrow_mut();
        world.dirs.insert("/home/user/.nflow/projects/p/agent-logs".to_string());
        world.listed = vec![
            log_file("old.log", 100, 8 * 86400),
            log_file("new.log", 50, 3600),
            log_file("edge.log", 7, 7 * 86400),
        ];
    }
    state
}

#[test]
fn old_logs_are_removed() {
    let state = state_with_logs();
    let members = [("project", text("p")), ("older_than", text("7d"))];
    let resp = single(request("47", "cleanup.logs", &members), &state);
    assert_eq!(resp.status, ResponseStatus::Success, "{:?}", resp.data);
    let freed = resp.data["total_size"].as_u64().unwrap();
    let count = resp.data["count"].as_u64().unwrap();
    let left: u64 = state.world.borrow().listed.iter().map(|f| f.size.unwrap()).sum();
    assert_eq!(freed + left, 157);
    assert_eq!(count as usize + state.world.borrow().listed.len(), 3);
    assert!(state.world.borrow().listed.iter().all(|f| f.name != "old.log"));
    assert!(state.world.borrow().listed.iter().any(|f| f.name == "new.log"));
}

#[test]
fn a_dry_run_removes_nothing() {
    let state = state_with_logs();
    let members = [("project", text("p")), ("all", truth(true)), ("dry_run", truth(true))];
    let resp = single(request("48", "cleanup.logs", &members), &state);
    assert_eq!(resp.data["count"], 3);
    assert_eq!(resp.data["total_size"], 157);
    assert_eq!(resp.data["dry_run"], true);
    assert_eq!(state.world.borrow().listed.len(), 3);
}

// ---- settings ----

#[test]
fn the_settings_of_a_project_go_before_the_global_ones() {
    let state = make_db_state();
    insert_test_project(&state, "p");
    let members = [("key", text("base_branch")), ("value", text("trunk"))];
    single(request("49", "config.set", &members), &state);
    let members = [
        ("key", text("base_branch")),
        ("value", text("develop")),
        ("project_name", text("p")),
    ];
    let resp = single(request("50", "config.set", &members), &state);
    assert_eq!(resp.data["layer"], "project");
    let resp = single(request("51", "config.show", &[("project_name", text("p"))]), &state);
    assert_eq!(resp.data["config"]["base_branch"]["value"], "develop");
    assert_eq!(resp.data["config"]["base_branch"]["layer"], "project");
    assert_eq!(resp.data["config"]["log_level"]["layer"], "default");
    let resp = single(request("52", "config.show", &[]), &state);
    assert_eq!(resp.data["config"]["base_branch"]["value"], "trunk");
    assert_eq!(resp.data["config"].as_object().unwrap().len(), 10);
}

// ---- limits of the execution ----

#[test]
fn exec_run_hands_on_its_limits() {
    let state = make_db_state();
    let project = insert_test_project(&state, "p");
    let members = [("project_name", text("p")), ("parallel", number(2)), ("story", text("W1-S1"))];
    let resp = single(request("53", "exec.run", &members), &state);
    assert_eq!(resp.data["execution_enabled"], true);
    single(request("54", "exec.run", &[("project_name", text("p"))]), &state);
    single(request("55", "exec.pause", &members), &state);
    let world = state.world.borrow();
    assert_eq!(
        world.limits,
        vec![(project, Some(2), Some("W1-S1".to_string())), (project, None, None)]
    );
}

// ---- the handler ----

#[test]
fn the_handler_answers_as_dispatch_does() {
    let state = make_db_state();
    insert_test_project(&state, "p");
    for (command, members) in [
        ("project.list", vec![]),
        ("exec.status", vec![("project_name", text("p"))]),
        ("exec.retry", vec![]),
        ("no.such", vec![]),
    ] {
        let dispatched = single(request("56", command, &members), &state);
        let handled = begin(request("56", command, &members), &state).unwrap();
        assert_eq!(handled.id, dispatched.id);
        assert_eq!(handled.status, dispatched.status);
        assert_eq!(handled.data, dispatched.data);
    }
}

// ---- pipelines ----

const PLAN: &str = "{\"success\": true, \"summary\": \"planned\", \"plan\": {\"steps\": []}}";
const IMPLEMENTED: &str = "{\"success\": true, \"summary\": \"done\", \"implementation\": {}}";
const REVIEW_FAILED: &str = "{\"success\": true, \"summary\": \"no\", \"review\": {\"passed\": false, \
     \"issues\": [], \"feedback\": \"more tests\"}}";
const REVIEW_PASSED: &str = "{\"success\": true, \"summary\": \"yes\", \"review\": {\"passed\": true, \
     \"issues\": [], \"feedback\": \"\"}}";

fn pipeline_request(id: &str) -> Request {
    request(
        id,
        "pipeline.start",
        &[
            ("project_name", text("p")),
            ("name", text("login")),
            ("goal", text("let users in")),
            ("max_iterations", number(3)),
        ],
    )
}

#[test]
fn a_pipeline_loops_until_its_review_passes() {
    let state = make_db_state();
    insert_test_project(&state, "p");
    {
        let mut world = state.world.borrow_mut();
        world.scripts = vec![
            vec![result(PLAN)],
            vec![result(IMPLEMENTED)],
            vec![result(REVIEW_FAILED)],
            vec![result(PLAN)],
            vec![result(IMPLEMENTED)],
            vec![result(REVIEW_PASSED)],
        ];
        world.decisions = vec![
            PipelineDecision::LoopBack { feedback: "more tests".to_string() },
            PipelineDecision::Complete,
        ];
    }
    let lines = streamed(pipeline_request("60"), &state);
    assert!(lines.iter().all(|l| l.id == "60"));
    let kinds: Vec<&str> =
        lines.iter().filter_map(|l| l.data["type"].as_str()).collect();
    assert_eq!(kinds.iter().filter(|k| **k == "stage_start").count(), 6);
    assert_eq!(kinds.iter().filter(|k| **k == "stage_complete").count(), 6);
    let back: Vec<&Line> = lines.iter().filter(|l| l.data["type"] == "loop_back").collect();
    assert_eq!(back.len(), 1);
    assert_eq!(back[0].data["feedback"], "more tests");
    let last = lines.last().unwrap();
    assert!(last.done);
    assert_eq!(last.data["status"], "completed");
    assert_eq!(last.data["iterations"], 2);
    let world = state.world.borrow();
    assert_eq!(world.pipelines[0].run.status, PipelineStatus::Completed);
    let stages: Vec<(&str, u32)> = world.pipelines[0]
        .stages
        .iter()
        .map(|s| (s.stage_type.as_str(), s.iteration))
        .collect();
    assert_eq!(
        stages,
        vec![
            ("plan", 1),
            ("implement", 1),
            ("review", 1),
            ("plan", 2),
            ("implement", 2),
            ("review", 2),
        ]
    );
    assert!(world.rendered.iter().all(|r| r["goal"] == "let users in"));
}

#[test]
fn a_stage_ends_with_the_session_of_its_last_result() {
    let named = |text: &str, session: &str| StreamItem {
        event: StreamEvent::Result { text: text.to_string(), session_id: session.to_string() },
        asks_user: false,
    };
    let cases = [
        (vec![named("{}", "session-1"), said("more"), named(PLAN, "session-2")], Some("session-2")),
        (vec![named(PLAN, "session-1")], Some("session-1")),
        (vec![said("nothing")], None),
    ];
    for (script, expected) in cases {
        let state = make_db_state();
        let run = PipelineRun {
            id: new_id(),
            project_id: new_id(),
            name: "login".to_string(),
            goal: "let users in".to_string(),
            status: PipelineStatus::Running,
            current_stage: None,
            iteration: 1,
            max_iterations: 3,
            created_at: now(),
            updated_at: now(),
        };
        let (id, project) = (run.id, run.project_id);
        {
            let mut world = state.world.borrow_mut();
            world.scripts = vec![script];
            world.pipelines.push(Pipeline { run, stages: Vec::new() });
        }
        let job = StageJob {
            id: "61".to_string(),
            run: id,
            project,
            project_path: "/tmp/p".to_string(),
            goal: "let users in".to_string(),
            stage_type: StageType::Plan,
            iteration: 1,
            history: Vec::new(),
            plan: None,
            implementation: None,
        };
        let mut next = StageRun::start(job);
        loop {
            match next {
                StageNext::Act(stage, action) => {
                    let event = state.world.borrow_mut().perform(action);
                    next = stage.step(event);
                }
                StageNext::Finished(_, output, session) => {
                    assert_eq!(session.as_deref(), expected);
                    let summary = if expected.is_some() { "planned" } else { "" };
                    assert_eq!(output.summary, summary);
                    assert!(output.success);
                    break;
                }
                StageNext::Failed(_, message) => panic!("the stage failed: {}", message),
            }
        }
    }
}

#[test]
fn a_pipeline_that_runs_out_of_iterations_has_failed() {
    let state = make_db_state();
    insert_test_project(&state, "p");
    {
        let mut world = state.world.borrow_mut();
        world.scripts =
            vec![vec![result(PLAN)], vec![result(IMPLEMENTED)], vec![result(REVIEW_FAILED)]];
        world.decisions = vec![PipelineDecision::MaxIterationsReached];
    }
    let lines = streamed(pipeline_request("61"), &state);
    let last = lines.last().unwrap();
    assert_eq!(last.data["status"], "failed");
    assert_eq!(last.data["reason"], "max_iterations_reached");
}

#[test]
fn a_stage_that_does_not_start_ends_the_pipeline() {
    let state = make_db_state();
    insert_test_project(&state, "p");
    state.world.borrow_mut().spawn_fails = true;
    let lines = streamed(pipeline_request("62"), &state);
    let last = lines.last().unwrap();
    assert_eq!(last.status, ResponseStatus::Error);
    assert_eq!(
        last.data["message"],
        "plan stage failed: failed to spawn agent: program not found"
    );
    assert_eq!(state.world.borrow().pipelines[0].run.status, PipelineStatus::Failed);
}

fn insert_pipeline(state: &State, project: Uuid, status: PipelineStatus) -> Uuid {
    let run = PipelineRun {
        id: new_id(),
        project_id: project,
        name: "login".to_string(),
        goal: "let users in".to_string(),
        status,
        current_stage: Some(StageType::Review),
        iteration: 2,
        max_iterations: 3,
        created_at: now(),
        updated_at: now(),
    };
    let id = run.id;
    let stage = PipelineStage {
        id: new_id(),
        pipeline_run_id: id,
        stage_type: StageType::Plan,
        iteration: 1,
        status: StageStatus::Completed,
        input_context: None,
        output_result: Some("planned".to_string()),
        started_at: Some(now()),
        finished_at: None,
    };
    state.world.borrow_mut().pipelines.push(Pipeline { run, stages: vec![stage] });
    id
}

#[test]
fn a_second_pipeline_is_refused() {
    let state = make_db_state();
    let project = insert_test_project(&state, "p");
    insert_pipeline(&state, project, PipelineStatus::Running);
    let resp = single(pipeline_request("63"), &state);
    assert_eq!(
        message(&resp),
        "INVALID_STATE: a pipeline run is already active for this project"
    );
}

#[test]
fn a_pipeline_is_shown_with_its_stages() {
    let state = make_db_state();
    let project = insert_test_project(&state, "p");
    let run = insert_pipeline(&state, project, PipelineStatus::Completed);
    let members = [("pipeline_run_id", Json::Str(run.to_text()))];
    let resp = single(request("64", "pipeline.status", &members), &state);
    assert_eq!(resp.status, ResponseStatus::Success, "{:?}", resp.data);
    assert_eq!(resp.data["run"]["id"], run.to_text());
    assert_eq!(resp.data["run"]["project_id"], project.to_text());
    assert_eq!(resp.data["run"]["status"], "completed");
    assert_eq!(resp.data["run"]["current_stage"], "review");
    assert_eq!(resp.data["run"]["created_at"], "2024-06-01T12:00:00+00:00");
    assert_eq!(resp.data["stages"][0]["stage_type"], "plan");
    assert_eq!(resp.data["stages"][0]["output_result"], "planned");
    assert!(resp.data["stages"][0]["finished_at"].is_null());

    let resp = single(request("65", "pipeline.list", &[("project_name", text("p"))]), &state);
    assert_eq!(resp.data["runs"][0]["id"], run.to_text());
}

#[test]
fn only_a_running_pipeline_is_cancelled() {
    let state = make_db_state();
    let project = insert_test_project(&state, "p");
    let done = insert_pipeline(&state, project, PipelineStatus::Completed);
    let running = insert_pipeline(&state, project, PipelineStatus::Running);
    let members = [("pipeline_run_id", Json::Str(done.to_text()))];
    let resp = single(request("66", "pipeline.cancel", &members), &state);
    assert_eq!(
        message(&resp),
        "INVALID_STATE: pipeline run is not running (status: completed)"
    );
    let members = [("pipeline_run_id", Json::Str(running.to_text()))];
    let resp = single(request("67", "pipeline.cancel", &members), &state);
    assert_eq!(resp.data["status"], "cancelled");
    assert_eq!(state.world.borrow().pipelines[1].run.status, PipelineStatus::Cancelled);
}

#[test]
fn the_logs_of_a_pipeline_are_told() {
    let state = make_db_state();
    let project = insert_test_project(&state, "p");
    let run = insert_pipeline(&state, project, PipelineStatus::Completed);
    let path = format!("/home/user/.nflow/logs/pipeline/{}_plan_1.log", run.to_text());
    state.world.borrow_mut().files.insert(path.clone(), "said".to_string());
    let members = [("pipeline_run_id", Json::Str(run.to_text()))];
    let resp = single(request("68", "pipeline.log", &members), &state);
    assert_eq!(resp.status, ResponseStatus::Success, "{:?}", resp.data);
    assert_eq!(resp.data["logs"][0]["log_path"], path);
    assert_eq!(resp.data["logs"][0]["content"], "said");
    let members =
        [("pipeline_run_id", Json::Str(run.to_text())), ("stage_type", text("review"))];
    let resp = single(request("69", "pipeline.log", &members), &state);
    assert_eq!(message(&resp), "NOT_FOUND: no matching pipeline stages found");
    let members = [("pipeline_run_id", text("nonsense"))];
    let resp = single(request("70", "pipeline.log", &members), &state);
    assert_eq!(message(&resp), "INVALID_PARAMS: invalid pipeline_run_id format");
    let members = [("pipeline_run_id", Json::Str(new_id().to_text()))];
    let resp = single(request("71", "pipeline.status", &members), &state);
    assert!(message(&resp).starts_with("NOT_FOUND: pipeline run '"));
}
