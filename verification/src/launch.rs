//! Starting an agent on a task of a story.
use vstd::prelude::*;
use crate::claude::{RunConfig, RunKind};
use crate::effects::{Action, Event, Template};
use crate::ident::Uuid;
use crate::model::{AgentRun, AgentRunStatus, ItemType, Project, TaskKind, WorkItem, WorkItemStatus};
use crate::platform::get_pid_start_time;
use crate::projects::project_dir;
use crate::text::{cat, cat4, join};

verus! {

// ---- tasks that belong together ----

/// The first task of the kind in the same story that stands `offset` places after `task`.
pub open spec fn partner(
    tasks: Seq<WorkItem>,
    task: WorkItem,
    kind: TaskKind,
    offset: int,
) -> Option<WorkItem> {
    crate::seqs::first_where(
        tasks,
        |t: WorkItem|
            t.item_type == ItemType::Task && t.kind == Some(kind) && t.parent_id == task.parent_id
                && t.sort_order == task.sort_order + offset,
    )
}

pub fn is_kind(kind: &Option<TaskKind>, wanted: TaskKind) -> (r: bool)
    ensures
        r == (*kind == Some(wanted)),
{
    match kind {
        Some(k) => *k == wanted,
        None => false,
    }
}

fn same_parent(a: &Option<Uuid>, b: &Option<Uuid>) -> (r: bool)
    ensures
        r == (*a == *b),
{
    match (a, b) {
        (Some(x), Some(y)) => *x == *y,
        (None, None) => true,
        _ => false,
    }
}

pub fn find_partner<'a>(
    tasks: &'a Vec<WorkItem>,
    task: &WorkItem,
    kind: TaskKind,
    offset: i64,
) -> (r: Option<&'a WorkItem>)
    requires
        -1 <= offset <= 1,
    ensures
        match r {
            Some(t) => partner(tasks@, *task, kind, offset as int) == Some(*t),
            None => partner(tasks@, *task, kind, offset as int) is None,
        },
{
    let ghost wanted = |t: WorkItem|
        t.item_type == ItemType::Task && t.kind == Some(kind) && t.parent_id == task.parent_id
            && t.sort_order == task.sort_order + offset as int;
    let mut i: usize = 0;
    while i < tasks.len()
        invariant
            i <= tasks@.len(),
            -1 <= offset <= 1,
            wanted == (|t: WorkItem|
                t.item_type == ItemType::Task && t.kind == Some(kind) && t.parent_id
                    == task.parent_id && t.sort_order == task.sort_order + offset as int),
            forall|k: int| 0 <= k < i ==> !wanted(#[trigger] tasks@[k]),
        decreases tasks.len() - i,
    {
        let t = &tasks[i];
        if t.item_type == ItemType::Task && is_kind(&t.kind, kind) && same_parent(
            &t.parent_id,
            &task.parent_id,
        ) && t.sort_order as i64 == task.sort_order as i64 + offset {
            proof {
                crate::seqs::first_at(tasks@, i as int, wanted);
            }
            return Some(t);
        }
        i += 1;
    }
    proof {
        crate::seqs::first_nowhere(tasks@, wanted);
    }
    None
}

/// The implementation tasks that are done, in their order, without the one that is left out.
pub open spec fn completed_tasks(tasks: Seq<WorkItem>, left_out: Option<Uuid>) -> Seq<WorkItem> {
    tasks.filter(
        |t: WorkItem|
            t.item_type == ItemType::Task && t.kind == Some(TaskKind::Impl) && t.status
                == WorkItemStatus::Done && Some(t.id) != left_out,
    )
}

pub fn collect_completed(tasks: &Vec<WorkItem>, left_out: Option<Uuid>) -> (r: Vec<WorkItem>)
    ensures
        r@ == completed_tasks(tasks@, left_out),
{
    let mut out: Vec<WorkItem> = Vec::new();
    let mut i: usize = 0;
    let ghost keep = |t: WorkItem|
        t.item_type == ItemType::Task && t.kind == Some(TaskKind::Impl) && t.status
            == WorkItemStatus::Done && Some(t.id) != left_out;
    proof {
        crate::seqs::filter_none(tasks@, keep);
    }
    while i < tasks.len()
        invariant
            i <= tasks@.len(),
            keep == (|t: WorkItem|
                t.item_type == ItemType::Task && t.kind == Some(TaskKind::Impl) && t.status
                    == WorkItemStatus::Done && Some(t.id) != left_out),
            out@ == tasks@.take(i as int).filter(keep),
        decreases tasks.len() - i,
    {
        proof {
            crate::seqs::filter_step(tasks@, i as int, keep);
        }
        let t = &tasks[i];
        let left = match left_out {
            Some(u) => u == t.id,
            None => false,
        };
        if t.item_type == ItemType::Task && is_kind(&t.kind, TaskKind::Impl) && t.status
            == WorkItemStatus::Done && !left {
            out.push(t.copy());
        }
        i += 1;
    }
    assert(tasks@.take(i as int) =~= tasks@);
    out
}

// ---- the start of an agent ----

/// What an agent is started for.
#[derive(Debug, Clone, Copy, PartialEq, Eq, Structural)]
pub enum LaunchMode {
    Retry,
    Skip,
    Continue,
}

/// The task that an agent is started on, with its story, the worktree of the story, and the
/// wave that tells the project.
pub struct Launch {
    pub task: WorkItem,
    pub session: Uuid,
    pub story: Uuid,
    pub worktree: Option<String>,
    pub mode: LaunchMode,
}

pub enum LaunchStep {
    Session,
    Project,
    Home { project: Project },
    Prompts { project: Project, home: String },
    Load { project: Project, home: String },
    Siblings { project: Project, home: String, template: String },
    /// The error of the latest run is told to the next one.
    LatestRun { project: Project, home: String, template: String, completed: Vec<WorkItem> },
    Render { project: Project, home: String },
    LogsDir { dir: String, prompt: String },
    WritePrompt { dir: String, file: String },
    Spawn { dir: String },
    ProcStat { dir: String, pid: u32 },
    Stamp { dir: String, pid: u32, start: Option<i64> },
    Insert { run: Uuid, log_path: String },
    Pipe,
}

pub struct Launching {
    pub launch: Launch,
    pub at: LaunchStep,
}

/// What follows in the start of an agent.
pub enum LaunchNext {
    Act(Launching, Action),
    Started,
    /// The story has no worktree to work in.
    NoWorktree,
    /// The agent was not started; `spawning` tells whether that failed in the end.
    Failed { message: String, spawning: bool },
}

impl LaunchNext {
    pub open spec fn goes(self, launch: Launch, at: LaunchStep, action: Action) -> bool {
        self == LaunchNext::Act(Launching { launch, at }, action)
    }

    pub open spec fn stops(self, message: Seq<char>, spawning: bool) -> bool {
        self matches LaunchNext::Failed { message: m, spawning: s } && m@ == message && s == spawning
    }

    pub fn go(launch: Launch, at: LaunchStep, action: Action) -> (n: LaunchNext)
        ensures
            n.goes(launch, at, action),
    {
        LaunchNext::Act(Launching { launch, at }, action)
    }

    pub fn stop(a: &str, b: &str) -> (n: LaunchNext)
        ensures
            n.stops(a@ + b@, false),
    {
        LaunchNext::Failed { message: cat(a, b), spawning: false }
    }
}

/// Where the agents of a project leave their logs.
pub open spec fn logs_dir(project: Project, home: Seq<char>) -> Seq<char> {
    crate::text::joined(
        crate::projects::project_dir_path(home, project.name@),
        "agent-logs"@,
    )
}

/// How an agent is told of its task.
pub open spec fn task_prompt(task: WorkItem) -> Seq<char> {
    "Implement the task as described in the system prompt file. Task: ["@ + task.short_id@ + "] "@
        + task.title@
}

impl Launch {
    pub open spec fn is_verify(self) -> bool {
        self.task.kind == Some(TaskKind::Verify)
    }

    /// A retried task is not left out of the completed ones; it is not done.
    pub open spec fn left_out(self) -> Option<Uuid> {
        if self.mode == LaunchMode::Retry {
            None
        } else {
            Some(self.task.id)
        }
    }

    /// How it is reported that something is missing.
    pub open spec fn absent(self, what: Seq<char>) -> Seq<char> {
        if self.mode == LaunchMode::Continue {
            ""@ + what
        } else {
            "NOT_FOUND: "@ + what
        }
    }

    fn missing(&self, what: &str) -> (n: LaunchNext)
        ensures
            n.stops(self.absent(what@), false),
    {
        if self.mode == LaunchMode::Continue {
            LaunchNext::stop("", what)
        } else {
            LaunchNext::stop("NOT_FOUND: ", what)
        }
    }
}

impl Launching {
    pub open spec fn accepts(self, ev: Event) -> bool {
        match self.at {
            LaunchStep::Session => ev is MaybeSession,
            LaunchStep::Project => ev is MaybeProject,
            LaunchStep::Home { .. } | LaunchStep::Load { .. } | LaunchStep::Render { .. } => {
                ev is Text
            },
            LaunchStep::Prompts { .. } => ev is Flag,
            LaunchStep::Siblings { .. } => ev is WorkItems,
            LaunchStep::LatestRun { .. } => ev is MaybeRun,
            LaunchStep::Spawn { .. } => ev is Pid,
            LaunchStep::ProcStat { .. } => ev is MaybeText,
            LaunchStep::Stamp { .. } => ev is Stamp,
            _ => ev is Done,
        }
    }

    /// How the start of an agent begins.
    pub open spec fn begins(launch: Launch, n: LaunchNext) -> bool {
        n.goes(
            launch,
            LaunchStep::Session,
            Action::GetSession { session: launch.session },
        )
    }

    pub fn start(launch: Launch) -> (n: LaunchNext)
        ensures
            Launching::begins(launch, n),
            n matches LaunchNext::Act(s, a) ==> forall|e: Event| a.answered_by(e) ==> s.accepts(e),
    {
        let session = launch.session;
        LaunchNext::go(launch, LaunchStep::Session, Action::GetSession { session })
    }

    /// Has the prompt of a task that implements something filled in.
    pub open spec fn renders(
        launch: Launch,
        project: Project,
        home: String,
        template: String,
        completed: Seq<WorkItem>,
        previous_error: Seq<char>,
        n: LaunchNext,
    ) -> bool {
        &&& n matches LaunchNext::Act(
            s,
            Action::RenderTaskPrompt {
                template: t,
                task,
                project_name,
                completed: c,
                previous_error: e,
            },
        )
        &&& s == Launching { launch, at: LaunchStep::Render { project, home } }
        &&& t == template
        &&& task == launch.task
        &&& project_name == project.name
        &&& c@ == completed
        &&& e@ == previous_error
    }

    pub open spec fn follows(self, ev: Event, n: LaunchNext) -> bool {
        let launch = self.launch;
        let task = launch.task;
        match (self.at, ev) {
            (LaunchStep::Session, Event::MaybeSession(r)) => match r {
                Err(e) => n.stops("database error: "@ + e@, false),
                Ok(None) => n.stops(launch.absent("decomposition session not found"@), false),
                Ok(Some(session)) => n.goes(
                    launch,
                    LaunchStep::Project,
                    Action::GetProjectById { project: session.project_id },
                ),
            },
            (LaunchStep::Project, Event::MaybeProject(r)) => match r {
                Err(e) => n.stops("database error: "@ + e@, false),
                Ok(None) => n.stops(launch.absent("project not found"@), false),
                Ok(Some(project)) => if launch.worktree is None {
                    n is NoWorktree
                } else {
                    n.goes(launch, LaunchStep::Home { project }, Action::NflowHome)
                },
            },
            (LaunchStep::Home { project }, Event::Text(r)) => match r {
                Err(e) => n.stops("failed to get nflow home: "@ + e@, false),
                Ok(home) => {
                    &&& n matches LaunchNext::Act(s, Action::IsDir { path })
                    &&& path@ == crate::text::joined(home@, "prompts"@)
                    &&& s == Launching { launch, at: LaunchStep::Prompts { project, home } }
                },
            },
            (LaunchStep::Prompts { project, home }, Event::Flag(r)) => {
                &&& n matches LaunchNext::Act(s, Action::LoadTemplate { template, dir })
                &&& template == if launch.is_verify() {
                    Template::VerifyTask
                } else {
                    Template::ImplTask
                }
                &&& s == Launching { launch, at: LaunchStep::Load { project, home } }
                &&& if r == Ok::<bool, String>(true) {
                    dir matches Some(d) && d@ == crate::text::joined(home@, "prompts"@)
                } else {
                    dir is None
                }
            },
            (LaunchStep::Load { project, home }, Event::Text(r)) => match r {
                Err(e) => n.stops("failed to load prompt template: "@ + e@, false),
                Ok(template) => n.goes(
                    launch,
                    LaunchStep::Siblings { project, home, template },
                    Action::ListChildren { parent: launch.story },
                ),
            },
            (LaunchStep::Siblings { project, home, template }, Event::WorkItems(r)) => match r {
                Err(e) => n.stops("database error: "@ + e@, false),
                Ok(siblings) => if launch.is_verify() {
                    n.goes(
                        launch,
                        LaunchStep::Render { project, home },
                        Action::RenderVerifyPrompt {
                            template,
                            task,
                            impl_task: match partner(siblings@, task, TaskKind::Impl, -1) {
                                Some(t) => t,
                                None => task,
                            },
                            project_name: project.name,
                        },
                    )
                } else if launch.mode == LaunchMode::Retry {
                    &&& n matches LaunchNext::Act(s, a)
                    &&& s.at matches LaunchStep::LatestRun {
                        project: p,
                        home: h,
                        template: t,
                        completed,
                    }
                    &&& p == project && h == home && t == template
                    &&& completed@ == completed_tasks(siblings@, launch.left_out())
                    &&& n.goes(launch, s.at, Action::FindLatestRun { task: task.id })
                } else {
                    Launching::renders(
                        launch,
                        project,
                        home,
                        template,
                        completed_tasks(siblings@, launch.left_out()),
                        ""@,
                        n,
                    )
                },
            },
            (
                LaunchStep::LatestRun { project, home, template, completed },
                Event::MaybeRun(r),
            ) => Launching::renders(
                launch,
                project,
                home,
                template,
                completed@,
                match r {
                    Ok(Some(run)) => match run.error_message {
                        Some(e) => e@,
                        None => ""@,
                    },
                    _ => ""@,
                },
                n,
            ),
            (LaunchStep::Render { project, home }, Event::Text(r)) => match r {
                Err(e) => n.stops("failed to render prompt: "@ + e@, false),
                Ok(prompt) => {
                    &&& n matches LaunchNext::Act(s, Action::CreateDir { path })
                    &&& path@ == logs_dir(project, home@)
                    &&& s == Launching { launch, at: LaunchStep::LogsDir { dir: path, prompt } }
                },
            },
            (LaunchStep::LogsDir { dir, prompt }, Event::Done(r)) => match r {
                Err(e) => n.stops("failed to create agent-logs dir: "@ + e@, false),
                Ok(_) => {
                    &&& n matches LaunchNext::Act(s, Action::WriteFile { path, content })
                    &&& path@ == crate::text::joined(dir@, task.short_id@ + ".prompt.md"@)
                    &&& content == prompt
                    &&& s == Launching { launch, at: LaunchStep::WritePrompt { dir, file: path } }
                },
            },
            (LaunchStep::WritePrompt { dir, file }, Event::Done(r)) => match r {
                Err(e) => n.stops("failed to write prompt file: "@ + e@, false),
                Ok(_) => {
                    &&& n matches LaunchNext::Act(s, Action::SpawnAgent { config })
                    &&& s == Launching { launch, at: LaunchStep::Spawn { dir } }
                    &&& config.kind == if launch.is_verify() {
                        RunKind::Verify
                    } else {
                        RunKind::Impl
                    }
                    &&& config.prompt@ == task_prompt(task)
                    &&& config.resume_session is None
                    &&& config.working_dir == launch.worktree
                    &&& config.system_prompt_file == Some(file)
                },
            },
            (LaunchStep::Spawn { dir }, Event::Pid(r)) => match r {
                Err(e) => n.stops("failed to spawn agent: "@ + e@, true),
                Ok(pid) => n.goes(
                    launch,
                    LaunchStep::ProcStat { dir, pid },
                    Action::ReadProcStat { pid },
                ),
            },
            (LaunchStep::ProcStat { dir, pid }, Event::MaybeText(stat)) => n.goes(
                launch,
                LaunchStep::Stamp {
                    dir,
                    pid,
                    start: match stat {
                        Some(s) => crate::platform::start_time(s@),
                        None => None,
                    },
                },
                Action::Stamp,
            ),
            (LaunchStep::Stamp { dir, pid, start }, Event::Stamp(id, now)) => {
                &&& n matches LaunchNext::Act(s, Action::InsertAgentRun { run })
                &&& run.id == id
                &&& run.work_item_id == task.id
                &&& run.pid == Some(pid)
                &&& run.session_id is None
                &&& run.pid_start_time == start
                &&& run.status == AgentRunStatus::Running
                &&& run.exit_code is None
                &&& run.log_path matches Some(log_path)
                &&& log_path@ == crate::text::joined(dir@, task.short_id@ + ".log"@)
                &&& run.error_message is None
                &&& run.started_at == now
                &&& run.finished_at is None
                &&& s == Launching { launch, at: LaunchStep::Insert { run: id, log_path } }
            },
            (LaunchStep::Insert { run, log_path }, Event::Done(r)) => match r {
                Err(e) => n.stops("database error: "@ + e@, false),
                Ok(_) => n.goes(
                    launch,
                    LaunchStep::Pipe,
                    Action::PipeAgent {
                        run,
                        log_path,
                        record_exit: launch.mode != LaunchMode::Skip,
                    },
                ),
            },
            (LaunchStep::Pipe, Event::Done(_)) => n is Started,
            _ => false,
        }
    }

    pub fn step(self, ev: Event) -> (n: LaunchNext)
        requires
            self.accepts(ev),
        ensures
            self.follows(ev, n),
            n matches LaunchNext::Act(s, a) ==> forall|e: Event| a.answered_by(e) ==> s.accepts(e),
    {
        let Launching { launch, at } = self;
        let is_verify = is_kind(&launch.task.kind, TaskKind::Verify);
        match (at, ev) {
            (LaunchStep::Session, Event::MaybeSession(r)) => match r {
                Err(e) => LaunchNext::stop("database error: ", e.as_str()),
                Ok(None) => launch.missing("decomposition session not found"),
                Ok(Some(session)) => LaunchNext::go(
                    launch,
                    LaunchStep::Project,
                    Action::GetProjectById { project: session.project_id },
                ),
            },
            (LaunchStep::Project, Event::MaybeProject(r)) => match r {
                Err(e) => LaunchNext::stop("database error: ", e.as_str()),
                Ok(None) => launch.missing("project not found"),
                Ok(Some(project)) => if launch.worktree.is_none() {
                    LaunchNext::NoWorktree
                } else {
                    LaunchNext::go(launch, LaunchStep::Home { project }, Action::NflowHome)
                },
            },
            (LaunchStep::Home { project }, Event::Text(r)) => match r {
                Err(e) => LaunchNext::stop("failed to get nflow home: ", e.as_str()),
                Ok(home) => {
                    let path = join(home.as_str(), "prompts");
                    LaunchNext::go(
                        launch,
                        LaunchStep::Prompts { project, home },
                        Action::IsDir { path },
                    )
                },
            },
            (LaunchStep::Prompts { project, home }, Event::Flag(r)) => {
                let dir = match r {
                    Ok(true) => Some(join(home.as_str(), "prompts")),
                    _ => None,
                };
                let template = if is_verify {
                    Template::VerifyTask
                } else {
                    Template::ImplTask
                };
                LaunchNext::go(
                    launch,
                    LaunchStep::Load { project, home },
                    Action::LoadTemplate { template, dir },
                )
            },
            (LaunchStep::Load { project, home }, Event::Text(r)) => match r {
                Err(e) => LaunchNext::stop("failed to load prompt template: ", e.as_str()),
                Ok(template) => {
                    let parent = launch.story;
                    LaunchNext::go(
                        launch,
                        LaunchStep::Siblings { project, home, template },
                        Action::ListChildren { parent },
                    )
                },
            },
            (LaunchStep::Siblings { project, home, template }, Event::WorkItems(r)) => match r {
                Err(e) => LaunchNext::stop("database error: ", e.as_str()),
                Ok(siblings) => {
                    let task = launch.task.copy();
                    if is_verify {
                        let impl_task = match find_partner(&siblings, &task, TaskKind::Impl, -1) {
                            Some(t) => t.copy(),
                            None => launch.task.copy(),
                        };
                        let project_name = project.name.clone();
                        return LaunchNext::go(
                            launch,
                            LaunchStep::Render { project, home },
                            Action::RenderVerifyPrompt { template, task, impl_task, project_name },
                        );
                    }
                    if launch.mode == LaunchMode::Retry {
                        let completed = collect_completed(&siblings, None);
                        let asked = task.id;
                        LaunchNext::go(
                            launch,
                            LaunchStep::LatestRun { project, home, template, completed },
                            Action::FindLatestRun { task: asked },
                        )
                    } else {
                        let completed = collect_completed(&siblings, Some(task.id));
                        render(launch, project, home, template, completed, "".to_owned())
                    }
                },
            },
            (
                LaunchStep::LatestRun { project, home, template, completed },
                Event::MaybeRun(r),
            ) => {
                let previous_error = match r {
                    Ok(Some(run)) => match run.error_message {
                        Some(e) => e,
                        None => "".to_owned(),
                    },
                    _ => "".to_owned(),
                };
                render(launch, project, home, template, completed, previous_error)
            },
            (LaunchStep::Render { project, home }, Event::Text(r)) => match r {
                Err(e) => LaunchNext::stop("failed to render prompt: ", e.as_str()),
                Ok(prompt) => {
                    let dir = join(
                        project_dir(home.as_str(), project.name.as_str()).as_str(),
                        "agent-logs",
                    );
                    let path = dir.clone();
                    LaunchNext::go(
                        launch,
                        LaunchStep::LogsDir { dir, prompt },
                        Action::CreateDir { path },
                    )
                },
            },
            (LaunchStep::LogsDir { dir, prompt }, Event::Done(r)) => match r {
                Err(e) => LaunchNext::stop("failed to create agent-logs dir: ", e.as_str()),
                Ok(_) => {
                    let file = join(
                        dir.as_str(),
                        cat(launch.task.short_id.as_str(), ".prompt.md").as_str(),
                    );
                    let path = file.clone();
                    LaunchNext::go(
                        launch,
                        LaunchStep::WritePrompt { dir, file },
                        Action::WriteFile { path, content: prompt },
                    )
                },
            },
            (LaunchStep::WritePrompt { dir, file }, Event::Done(r)) => match r {
                Err(e) => LaunchNext::stop("failed to write prompt file: ", e.as_str()),
                Ok(_) => {
                    let prompt = cat4(
                        "Implement the task as described in the system prompt file. Task: [",
                        launch.task.short_id.as_str(),
                        "] ",
                        launch.task.title.as_str(),
                    );
                    let config = RunConfig {
                        kind: if is_verify {
                            RunKind::Verify
                        } else {
                            RunKind::Impl
                        },
                        prompt,
                        resume_session: None,
                        working_dir: crate::model::copy_text(&launch.worktree),
                        system_prompt_file: Some(file),
                    };
                    LaunchNext::go(launch, LaunchStep::Spawn { dir }, Action::SpawnAgent { config })
                },
            },
            (LaunchStep::Spawn { dir }, Event::Pid(r)) => match r {
                Err(e) => LaunchNext::Failed {
                    message: cat("failed to spawn agent: ", e.as_str()),
                    spawning: true,
                },
                Ok(pid) => LaunchNext::go(
                    launch,
                    LaunchStep::ProcStat { dir, pid },
                    Action::ReadProcStat { pid },
                ),
            },
            (LaunchStep::ProcStat { dir, pid }, Event::MaybeText(stat)) => {
                let start = match &stat {
                    Some(s) => get_pid_start_time(Some(s.as_str())),
                    None => None,
                };
                LaunchNext::go(launch, LaunchStep::Stamp { dir, pid, start }, Action::Stamp)
            },
            (LaunchStep::Stamp { dir, pid, start }, Event::Stamp(id, now)) => {
                let log_path = join(
                    dir.as_str(),
                    cat(launch.task.short_id.as_str(), ".log").as_str(),
                );
                let run = AgentRun {
                    id,
                    work_item_id: launch.task.id,
                    pid: Some(pid),
                    session_id: None,
                    pid_start_time: start,
                    status: AgentRunStatus::Running,
                    exit_code: None,
                    log_path: Some(log_path.clone()),
                    error_message: None,
                    started_at: now,
                    finished_at: None,
                };
                LaunchNext::go(
                    launch,
                    LaunchStep::Insert { run: id, log_path },
                    Action::InsertAgentRun { run },
                )
            },
            (LaunchStep::Insert { run, log_path }, Event::Done(r)) => match r {
                Err(e) => LaunchNext::stop("database error: ", e.as_str()),
                Ok(_) => {
                    let record_exit = launch.mode != LaunchMode::Skip;
                    LaunchNext::go(
                        launch,
                        LaunchStep::Pipe,
                        Action::PipeAgent { run, log_path, record_exit },
                    )
                },
            },
            _ => LaunchNext::Started,
        }
    }
}

fn render(
    launch: Launch,
    project: Project,
    home: String,
    template: String,
    completed: Vec<WorkItem>,
    previous_error: String,
) -> (n: LaunchNext)
    ensures
        Launching::renders(
            launch,
            project,
            home,
            template,
            completed@,
            previous_error@,
            n,
        ),
{
    let task = launch.task.copy();
    let project_name = project.name.clone();
    LaunchNext::go(
        launch,
        LaunchStep::Render { project, home },
        Action::RenderTaskPrompt { template, task, project_name, completed, previous_error },
    )
}

} // verus!
