//! What the daemon asks of the world around it, and what the world answers.
//!
//! A command is carried out by a machine: it asks for one action at a time and is told the
//! outcome, until it replies. The database is opened by the first action on it, and a
//! failure to open it is the failure of that action.
use vstd::prelude::*;
use crate::claude::{RunConfig, StreamEvent, StreamItem};
use crate::config::{Config, PartialConfig};
use crate::ident::{Timestamp, Uuid};
use crate::json::{Json, JsonV};
use crate::model::{
    AgentRun, AgentRunStatus, CreateProjectParams, DecompositionSession, DecompositionStatus,
    Dependency, FileEntry, NewItem, Project, Spec, SpecChange, SpecStatus, WaveStory, WorkItem,
    WorkItemStatus,
};
use crate::pipeline_data::{
    IterationRecord, PipelineDecision, PipelineRun, PipelineStage, PipelineStatus, StageOutput,
    StageStatus, StageType, TemplateVar,
};
use crate::protocol::{Response, StreamingResponseLine};
use crate::recovery::ProcessState;
use crate::text::cat;

verus! {

/// The outcome of an action that can fail, with the text of the failure.
pub type Outcome<T> = Result<T, String>;

/// What a run of `git` left.
#[derive(Debug, PartialEq)]
pub struct GitOutput {
    pub success: bool,
    pub stdout: String,
}

/// How a command ended, and what it complained of.
#[derive(Debug, PartialEq)]
pub struct CommandOutput {
    pub success: bool,
    pub stderr: String,
}

/// What all connected clients are told.
#[derive(Debug, PartialEq)]
#[allow(inconsistent_fields)]
pub enum Notice {
    DecompositionCompleted { session: Uuid, project: Uuid, wave: u32 },
    PipelineStageChange {
        run: Uuid,
        project: Uuid,
        stage_type: StageType,
        iteration: u32,
        status: StageStatus,
    },
    PipelineAgentOutput { run: Uuid, stage_type: StageType, iteration: u32, line: String },
    PipelineCompleted { run: Uuid, project: Uuid, status: PipelineStatus, iterations: u32 },
}

/// What reading a line of a log gave.
#[derive(Debug, PartialEq)]
pub enum LogLine {
    Line(String),
    End,
    Failed,
    Timeout,
}

/// The prompt templates.
#[derive(Debug, Clone, Copy, PartialEq, Eq, Structural)]
pub enum Template {
    SpecSession,
    Decompose,
    ImplTask,
    VerifyTask,
    PipelinePlan,
    PipelineImplement,
    PipelineReview,
}

/// One action on the world.
#[derive(Debug, PartialEq)]
#[allow(inconsistent_fields)]
pub enum Action {
    /// Whether something exists at the path.
    PathExists { path: String },
    /// `git rev-parse --is-inside-work-tree` in the directory.
    GitIsWorkTree { dir: String },
    /// `git remote get-url origin` in the directory.
    GitRemoteUrl { dir: String },
    /// `git symbolic-ref --short HEAD` in the directory.
    GitHeadRef { dir: String },
    /// Remove a worktree of the repository by force, then prune.
    RemoveWorktree { repo: String, worktree: String },
    /// The daemon's home directory.
    NflowHome,
    /// Make a directory and its parents.
    CreateDir { path: String },
    /// Remove a directory and what is in it.
    RemoveDir { path: String },
    ProjectNameExists { name: String },
    /// Check and make a project, with a new identifier and the present time.
    CreateProject { params: CreateProjectParams },
    InsertProject { project: Project },
    ListProjects,
    CountSpecs { project: Uuid },
    CountStories { project: Uuid },
    FindRunningAgents { project: Uuid },
    GetProjectByName { name: String },
    CancelInProgressItems { project: Uuid },
    CancelRunningAgents { project: Uuid },
    ListWorktreePaths { project: Uuid },
    DeleteProject { project: Uuid },
    /// Whether there is a directory at the path.
    IsDir { path: String },
    ReadFile { path: String },
    /// Open the database anew.
    OpenDb,
    GetProjectById { project: Uuid },
    GetSpecByName { project: Uuid, name: String },
    GetSpecById { spec: Uuid },
    FindLatestDraftSpec { project: Uuid },
    ListSpecs { project: Uuid },
    HasActiveSpecSession { project: Uuid },
    /// Make a draft spec with a started session, a new identifier and the present time.
    NewSpec { project: Uuid, name: String, file_path: String },
    InsertSpec { spec: Spec },
    /// Check a change of a spec's status: the new status, or why it is refused.
    ChangeSpec { spec: Spec, change: SpecChange },
    UpdateSpecStatus { spec: Uuid, status: SpecStatus },
    UpdateSpecSession { spec: Uuid, active: bool, claude_session_id: Option<String> },
    /// Load a prompt template, from the directory where it has one of that name.
    LoadTemplate { template: Template, dir: Option<String> },
    /// Fill a template with what it says of a spec and its project.
    RenderSpecPrompt { template: String, spec: Spec, project: Project },
    /// Answer the request by a stream of lines from here on.
    OpenStream,
    /// Start a run of the agent.
    SpawnClaude { config: RunConfig },
    /// The next event that the run prints, none at its end.
    NextClaudeEvent,
    /// The session that the run printed, if any.
    ClaudeSessionId,
    /// Wait for the run to end: its exit code, if it has one.
    AwaitExit,
    ListSessions { project: Uuid },
    GetSessionByWave { project: Uuid, wave: u32 },
    /// The wave of the project that is in progress.
    FindDraftSession { project: Uuid },
    ListItems { session: Uuid },
    ListDependencies { session: Uuid },
    /// Check that a wave can be approved: its new status, or why it is refused.
    ApproveSession { session: DecompositionSession },
    UpdateSessionStatus { session: Uuid, status: DecompositionStatus },
    /// The present time.
    Now,
    UpdateProject { project: Project },
    HasInProgressStories { session: Uuid },
    ListSpecIds { session: Uuid },
    DeleteItems { session: Uuid },
    CountPendingStories { project: Uuid },
    /// For as long as the daemon runs, let no more than so many agents work for the project, and
    /// only on the story, where they are given; what was set before no longer holds.
    LimitExecution { project: Uuid, parallel: Option<u32>, story: Option<String> },
    FindUnassignedApprovedSpecs { project: Uuid },
    NextWaveNumber { project: Uuid },
    /// Make a wave with the number after `previous`, a new identifier and the present time.
    NewSession { project: Uuid, previous: u32 },
    InsertSession { session: DecompositionSession },
    LinkSpec { session: Uuid, spec: Uuid },
    /// The specs, each with its content, as one text.
    DescribeSpecs { specs: Vec<Spec>, contents: Vec<String> },
    UpdateSessionError { session: Uuid, message: String },
    UpdateSessionClaudeId { session: Uuid, claude_session_id: String },
    /// Read a JSON text.
    ParseJson { text: String },
    /// Make a pending work item with a new identifier and the present time.
    NewWorkItem { item: NewItem },
    InsertWorkItem { item: WorkItem },
    /// Make the tasks that verify the given ones.
    VerifyTasks { tasks: Vec<WorkItem> },
    InsertDependency { dependency: Dependency },
    /// Check that the dependencies between the stories have no cycle.
    CheckDag { stories: Vec<WorkItem>, dependencies: Vec<Dependency> },
    /// Tell all connected clients.
    Broadcast { notice: Notice },
    /// The item with this identifier and wave, as it is shown.
    FindItemByWaveId { text: String },
    GetItem { item: Uuid },
    ListChildren { parent: Uuid },
    ListStories { session: Uuid },
    UpdateItemStatus { item: Uuid, status: WorkItemStatus },
    CountAgentRuns { task: Uuid },
    FindLatestRun { task: Uuid },
    FindAllRunningAgents,
    FindRunningAgentsOfStory { story: Uuid },
    GetSession { session: Uuid },
    /// The task of the story that is to be done next, if any is pending.
    NextPendingTask { story: Uuid, tasks: Vec<WorkItem> },
    ListDependents { story: Uuid },
    ListBlockers { story: Uuid },
    /// `git reflog show HEAD --format=%H` in the directory.
    GitReflog { dir: String },
    /// `git reset --hard` to the target in the directory.
    GitReset { dir: String, target: String },
    /// `git clean -fd` in the directory.
    GitClean { dir: String },
    /// Fill a template with what it says of a task that verifies another.
    RenderVerifyPrompt {
        template: String,
        task: WorkItem,
        impl_task: WorkItem,
        project_name: String,
    },
    /// Fill a template with what it says of a task and of those completed before it.
    RenderTaskPrompt {
        template: String,
        task: WorkItem,
        project_name: String,
        completed: Vec<WorkItem>,
        previous_error: String,
    },
    WriteFile { path: String, content: String },
    /// Start an agent in the background: its process id.
    SpawnAgent { config: RunConfig },
    /// What `/proc` says of a process, if it can be read.
    ReadProcStat { pid: u32 },
    /// A new identifier and the present time.
    Stamp,
    InsertAgentRun { run: AgentRun },
    /// Copy what the agent prints to its log, and note its exit code in the end if asked to.
    PipeAgent { run: Uuid, log_path: String, record_exit: bool },
    /// Ask a process to terminate.
    Terminate { pid: u32 },
    FinishRun { run: Uuid, status: AgentRunStatus, message: String, at: Timestamp },
    /// Verify a process by its id and its recorded start time.
    VerifyProcess { pid: u32, expected: Option<i64> },
    /// What a line of a run's output says.
    ParseLine { line: String },
    /// The content of a file, none if there is no such file.
    ReadLog { path: String },
    /// Open a log from its beginning.
    OpenLog { path: String },
    /// The next line of the open log.
    ReadLogLine,
    /// Open the log anew, at its present end.
    SeekLogEnd { path: String },
    /// The next line of the open log, waited for at most so long.
    PollLog { millis: u64 },
    /// Wait.
    Sleep { millis: u64 },
    /// The stories of the project that have a worktree, each with its wave.
    ListWorktreeStories { project: Uuid },
    /// Forget the worktree of a story.
    ClearWorktree { story: Uuid },
    /// What is in a directory.
    ListFiles { dir: String },
    /// Remove a file.
    RemoveFile { path: String },
    /// The home directory of the user, if it is known.
    HomeDir,
    /// The settings in a file, if they can be read.
    ReadConfig { path: String },
    /// Write settings to a file, and make its directory where there is none.
    WriteConfig { path: String, config: PartialConfig },
    /// The settings in the environment.
    EnvConfig,
    /// The settings that hold, of the layers and the defaults.
    ResolveConfig { global: PartialConfig, project: PartialConfig, env: PartialConfig },
    /// Check that settings can hold.
    ValidateConfig { config: Config },
    /// The run of the project that is under way, if any.
    GetActiveRun { project: Uuid },
    /// Make a pipeline run with a new identifier and the present time.
    NewPipelineRun { project: Uuid, name: String, goal: String, max_iterations: u32 },
    InsertPipelineRun { run: PipelineRun },
    UpdatePipelineRun {
        run: Uuid,
        status: PipelineStatus,
        stage: Option<StageType>,
        iteration: u32,
    },
    GetPipelineRun { run: Uuid },
    ListPipelineRuns { project: Uuid },
    ListPipelineStages { run: Uuid },
    /// The stages of a run, of the type and the iteration if they are given.
    FindPipelineStages { run: Uuid, stage_type: Option<String>, iteration: Option<u32> },
    /// Make a running stage with a new identifier and the present time, and write down what it
    /// is given.
    NewStage {
        run: Uuid,
        stage_type: StageType,
        iteration: u32,
        goal: String,
        history: Vec<IterationRecord>,
    },
    InsertStage { stage: PipelineStage },
    /// Note that a stage has started.
    MarkStageStarted { stage: Uuid },
    /// Note how a stage ended and what it left.
    FinishStage { stage: Uuid, status: StageStatus, output: StageOutput, at: Timestamp },
    /// The records as JSON text on several lines.
    PrettyHistory { history: Vec<IterationRecord> },
    /// The output as JSON text on several lines.
    PrettyOutput { output: StageOutput },
    /// The output as JSON.
    OutputValue { output: StageOutput },
    /// Read the output of a stage.
    ParseStageOutput { text: String },
    /// Fill a template.
    RenderTemplate { template: String, vars: Vec<TemplateVar> },
    /// Make an empty log.
    CreateLog { path: String },
    /// Write a line to the log.
    WriteLog { line: String },
    /// Close the log and wait for the end of the run.
    CloseLog,
    /// The next event that the run of a stage prints, none at its end.
    NextStageEvent,
    /// Decide what follows a review.
    DecideNext {
        run: Uuid,
        project: Uuid,
        name: String,
        goal: String,
        iteration: u32,
        max_iterations: u32,
        output: StageOutput,
    },
    /// Send a line of a streamed answer.
    Send { line: StreamingResponseLine },
}

/// The outcome of an action.
#[derive(Debug, PartialEq)]
pub enum Event {
    Done(Outcome<()>),
    Flag(Outcome<bool>),
    Count(Outcome<u32>),
    Text(Outcome<String>),
    Texts(Outcome<Vec<String>>),
    Git(Option<GitOutput>),
    Project(Outcome<Project>),
    MaybeProject(Outcome<Option<Project>>),
    Projects(Outcome<Vec<Project>>),
    Spec(Spec),
    MaybeSpec(Outcome<Option<Spec>>),
    Specs(Outcome<Vec<Spec>>),
    SpecStatus(Outcome<SpecStatus>),
    AgentRuns(Outcome<Vec<AgentRun>>),
    MaybeText(Option<String>),
    Exit(Option<i32>),
    MaybeSession(Outcome<Option<DecompositionSession>>),
    Sessions(Outcome<Vec<DecompositionSession>>),
    SessionStatus(Outcome<DecompositionStatus>),
    WorkItems(Outcome<Vec<WorkItem>>),
    Dependencies(Outcome<Vec<Dependency>>),
    Uuids(Outcome<Vec<Uuid>>),
    Time(Timestamp),
    Session(Outcome<DecompositionSession>),
    WorkItem(WorkItem),
    Made(Vec<WorkItem>),
    Parsed(Outcome<Json>),
    MaybeItem(Outcome<Option<WorkItem>>),
    NextTask(Option<WorkItem>),
    MaybeRun(Outcome<Option<AgentRun>>),
    Command(Outcome<CommandOutput>),
    Pid(Outcome<u32>),
    Stamp(Uuid, Timestamp),
    Process(ProcessState),
    Line(StreamEvent),
    MaybeFile(Outcome<Option<String>>),
    LogLine(LogLine),
    WaveStories(Outcome<Vec<WaveStory>>),
    Files(Outcome<Vec<FileEntry>>),
    MaybePartial(Option<PartialConfig>),
    Partial(PartialConfig),
    Config(Config),
    MaybePipeline(Outcome<Option<PipelineRun>>),
    Pipeline(PipelineRun),
    Pipelines(Outcome<Vec<PipelineRun>>),
    Stages(Outcome<Vec<PipelineStage>>),
    Stage(PipelineStage),
    Written(String),
    Value(Json),
    MaybeOutput(Option<StageOutput>),
    Decision(PipelineDecision),
    Claude(Outcome<Option<StreamItem>>),
}

impl Action {
    /// Whether `event` is an outcome of this action.
    pub open spec fn answered_by(self, event: Event) -> bool {
        match self {
            Action::PathExists { .. } => event is Flag,
            Action::GitIsWorkTree { .. } => event is Git,
            Action::GitRemoteUrl { .. } => event is Git,
            Action::GitHeadRef { .. } => event is Git,
            Action::RemoveWorktree { .. } => event is Done,
            Action::NflowHome => event is Text,
            Action::CreateDir { .. } => event is Done,
            Action::RemoveDir { .. } => event is Done,
            Action::ProjectNameExists { .. } => event is Flag,
            Action::CreateProject { .. } => event is Project,
            Action::InsertProject { .. } => event is Done,
            Action::ListProjects => event is Projects,
            Action::CountSpecs { .. } => event is Count,
            Action::CountStories { .. } => event is Count,
            Action::FindRunningAgents { .. } => event is AgentRuns,
            Action::GetProjectByName { .. } => event is MaybeProject,
            Action::CancelInProgressItems { .. } => event is Done,
            Action::CancelRunningAgents { .. } => event is Done,
            Action::ListWorktreePaths { .. } => event is Texts,
            Action::DeleteProject { .. } => event is Done,
            Action::IsDir { .. } => event is Flag,
            Action::ReadFile { .. } => event is Text,
            Action::OpenDb => event is Done,
            Action::GetProjectById { .. } => event is MaybeProject,
            Action::GetSpecByName { .. } => event is MaybeSpec,
            Action::GetSpecById { .. } => event is MaybeSpec,
            Action::FindLatestDraftSpec { .. } => event is MaybeSpec,
            Action::ListSpecs { .. } => event is Specs,
            Action::HasActiveSpecSession { .. } => event is Flag,
            Action::NewSpec { .. } => event is Spec,
            Action::InsertSpec { .. } => event is Done,
            Action::ChangeSpec { .. } => event is SpecStatus,
            Action::UpdateSpecStatus { .. } => event is Done,
            Action::UpdateSpecSession { .. } => event is Done,
            Action::LoadTemplate { .. } => event is Text,
            Action::RenderSpecPrompt { .. } => event is Text,
            Action::OpenStream => event is Done,
            Action::SpawnClaude { .. } => event is Done,
            Action::NextClaudeEvent => event is Claude,
            Action::ClaudeSessionId => event is MaybeText,
            Action::AwaitExit => event is Exit,
            Action::ListSessions { .. } => event is Sessions,
            Action::GetSessionByWave { .. } => event is MaybeSession,
            Action::FindDraftSession { .. } => event is MaybeSession,
            Action::ListItems { .. } => event is WorkItems,
            Action::ListDependencies { .. } => event is Dependencies,
            Action::ApproveSession { .. } => event is SessionStatus,
            Action::UpdateSessionStatus { .. } => event is Done,
            Action::Now => event is Time,
            Action::UpdateProject { .. } => event is Done,
            Action::HasInProgressStories { .. } => event is Flag,
            Action::ListSpecIds { .. } => event is Uuids,
            Action::DeleteItems { .. } => event is Done,
            Action::CountPendingStories { .. } => event is Count,
            Action::LimitExecution { .. } => event is Done,
            Action::FindUnassignedApprovedSpecs { .. } => event is Specs,
            Action::NextWaveNumber { .. } => event matches Event::Count(r) && (r matches Ok(n)
                ==> n >= 1),
            Action::NewSession { .. } => event is Session,
            Action::InsertSession { .. } => event is Done,
            Action::LinkSpec { .. } => event is Done,
            Action::DescribeSpecs { .. } => event is Written,
            Action::UpdateSessionError { .. } => event is Done,
            Action::UpdateSessionClaudeId { .. } => event is Done,
            Action::ParseJson { .. } => event matches Event::Parsed(r) && (r matches Ok(parsed)
                ==> crate::drafts::can_read(parsed@)),
            Action::NewWorkItem { .. } => event is WorkItem,
            Action::InsertWorkItem { .. } => event is Done,
            Action::VerifyTasks { .. } => event is Made,
            Action::InsertDependency { .. } => event is Done,
            Action::CheckDag { .. } => event is Done,
            Action::Broadcast { .. } => event is Done,
            Action::FindItemByWaveId { .. } => event is MaybeItem,
            Action::GetItem { .. } => event is MaybeItem,
            Action::ListChildren { .. } => event is WorkItems,
            Action::ListStories { .. } => event is WorkItems,
            Action::UpdateItemStatus { .. } => event is Done,
            Action::CountAgentRuns { .. } => event matches Event::Count(r) && (r matches Ok(n)
                ==> n < u32::MAX),
            Action::FindLatestRun { .. } => event is MaybeRun,
            Action::FindAllRunningAgents => event is AgentRuns,
            Action::FindRunningAgentsOfStory { .. } => event is AgentRuns,
            Action::GetSession { .. } => event is MaybeSession,
            Action::NextPendingTask { .. } => event is NextTask,
            Action::ListDependents { .. } => event is Dependencies,
            Action::ListBlockers { .. } => event is Dependencies,
            Action::GitReflog { .. } => event is Git,
            Action::GitReset { .. } => event is Command,
            Action::GitClean { .. } => event is Done,
            Action::RenderVerifyPrompt { .. } => event is Text,
            Action::RenderTaskPrompt { .. } => event is Text,
            Action::WriteFile { .. } => event is Done,
            Action::SpawnAgent { .. } => event is Pid,
            Action::ReadProcStat { .. } => event is MaybeText,
            Action::Stamp => event is Stamp,
            Action::InsertAgentRun { .. } => event is Done,
            Action::PipeAgent { .. } => event is Done,
            Action::Terminate { .. } => event is Done,
            Action::FinishRun { .. } => event is Done,
            Action::VerifyProcess { .. } => event is Process,
            Action::ParseLine { .. } => event is Line,
            Action::ReadLog { .. } => event is MaybeFile,
            Action::OpenLog { .. } => event is Done,
            Action::ReadLogLine => event is LogLine,
            Action::SeekLogEnd { .. } => event is Done,
            Action::PollLog { .. } => event is LogLine,
            Action::Sleep { .. } => event is Done,
            Action::ListWorktreeStories { .. } => event is WaveStories,
            Action::ClearWorktree { .. } => event is Done,
            Action::ListFiles { .. } => event matches Event::Files(r) && (r matches Ok(files)
                ==> crate::model::total_size(files@) <= u64::MAX),
            Action::RemoveFile { .. } => event is Done,
            Action::HomeDir => event is MaybeText,
            Action::ReadConfig { .. } => event is MaybePartial,
            Action::WriteConfig { .. } => event is Done,
            Action::EnvConfig => event is Partial,
            Action::ResolveConfig { .. } => event is Config,
            Action::ValidateConfig { .. } => event is Done,
            Action::GetActiveRun { .. } => event is MaybePipeline,
            Action::NewPipelineRun { .. } => event is Pipeline,
            Action::InsertPipelineRun { .. } => event is Done,
            Action::UpdatePipelineRun { .. } => event is Done,
            Action::GetPipelineRun { .. } => event is MaybePipeline,
            Action::ListPipelineRuns { .. } => event is Pipelines,
            Action::ListPipelineStages { .. } => event is Stages,
            Action::FindPipelineStages { .. } => event is Stages,
            Action::NewStage { .. } => event is Stage,
            Action::InsertStage { .. } => event is Done,
            Action::MarkStageStarted { .. } => event is Done,
            Action::FinishStage { .. } => event is Done,
            Action::PrettyHistory { .. } => event is Written,
            Action::PrettyOutput { .. } => event is Written,
            Action::OutputValue { .. } => event is Value,
            Action::ParseStageOutput { .. } => event is MaybeOutput,
            Action::RenderTemplate { .. } => event is Text,
            Action::CreateLog { .. } => event is Done,
            Action::WriteLog { .. } => event is Done,
            Action::CloseLog => event is Done,
            Action::NextStageEvent => event matches Event::Claude(r) && (r matches Ok(Some(item))
                ==> crate::stage_output::can_log(item.event)),
            Action::DecideNext { .. } => event is Decision,
            Action::Send { .. } => event is Done,
        }
    }
}

/// A command under way: what it was asked to do, and the action whose outcome it awaits.
pub struct Run<J, P> {
    pub job: J,
    pub at: P,
}

/// What a machine does next: an action, after which it is in the given state, the answer to
/// the request, or nothing more.
pub enum Next<S> {
    Act(S, Action),
    Reply(Response),
    End,
}

impl<J, P> Next<Run<J, P>> {
    /// Asks for `action` and awaits its outcome at `at`.
    pub open spec fn goes(self, job: J, at: P, action: Action) -> bool {
        self == Next::Act(Run { job, at }, action)
    }

    /// Sends a line with `data` and awaits that it was sent at `at`.
    pub open spec fn shows(self, job: J, at: P, id: String, data: JsonV) -> bool {
        &&& self matches Next::Act(s, Action::Send { line })
        &&& s == Run { job, at }
        &&& line.is_data(id, data)
    }

    /// Sends the last line of a stream that went well.
    pub open spec fn finishes(self, job: J, at: P, id: String, data: JsonV) -> bool {
        &&& self matches Next::Act(s, Action::Send { line })
        &&& s == Run { job, at }
        &&& line.is_done(id, data)
    }

    /// Sends an error line.
    pub open spec fn reports(self, job: J, at: P, id: String, message: Seq<char>) -> bool {
        &&& self matches Next::Act(s, Action::Send { line })
        &&& s == Run { job, at }
        &&& line.is_error(id, message)
    }

    pub fn go(job: J, at: P, action: Action) -> (r: Next<Run<J, P>>)
        ensures
            r.goes(job, at, action),
    {
        Next::Act(Run { job, at }, action)
    }
}

impl<S> Next<S> {
    pub open spec fn fails(self, id: String, message: Seq<char>) -> bool {
        self matches Next::Reply(r) && r.is_error(id, message)
    }

    pub open spec fn replies(self, id: String, data: JsonV) -> bool {
        self matches Next::Reply(r) && r.is_ok(id, data)
    }

    pub fn reply(id: String, data: Json) -> (r: Next<S>)
        ensures
            r.replies(id, data@),
    {
        Next::Reply(Response::ok(id, data))
    }

    pub fn fail(id: String, message: &str) -> (r: Next<S>)
        ensures
            r.fails(id, message@),
    {
        Next::Reply(Response::error(id, message))
    }

    pub fn database_error(id: String, e: &str) -> (r: Next<S>)
        ensures
            r.fails(id, database_message(e@)),
    {
        Next::Reply(Response::error(id, cat("database error: ", e).as_str()))
    }
}

pub open spec fn database_message(e: Seq<char>) -> Seq<char> {
    "database error: "@ + e
}

pub open spec fn no_project_message(name: Seq<char>) -> Seq<char> {
    "NOT_FOUND: project '"@ + name + "' not found"@
}

pub open spec fn no_spec_message(name: Seq<char>) -> Seq<char> {
    "NOT_FOUND: spec '"@ + name + "' not found"@
}

pub fn no_spec<S>(id: String, name: &str) -> (r: Next<S>)
    ensures
        r.fails(id, no_spec_message(name@)),
{
    Next::fail(id, crate::text::cat3("NOT_FOUND: spec '", name, "' not found").as_str())
}

pub open spec fn missing_message(name: Seq<char>) -> Seq<char> {
    "missing required parameter: "@ + name
}

pub fn missing_parameter<S>(id: String, name: &str) -> (r: Next<S>)
    ensures
        r.fails(id, missing_message(name@)),
{
    Next::fail(id, cat("missing required parameter: ", name).as_str())
}

pub fn no_project<S>(id: String, name: &str) -> (r: Next<S>)
    ensures
        r.fails(id, no_project_message(name@)),
{
    Next::fail(id, crate::text::cat3("NOT_FOUND: project '", name, "' not found").as_str())
}

} // verus!
