//! `project.init`, `project.list` and `project.delete`.
use vstd::prelude::*;
use crate::effects::{missing_parameter, no_project, Action, Event, GitOutput, Next, Run};
use crate::json::{Json, JsonV};
use crate::model::{git_provider_str, parse_git_provider, CreateProjectParams, GitProvider, Project};
use crate::protocol::Request;
use crate::text::{cat, cat3, cat5, join, trim, u64_text};

verus! {

/// What a run of `git` printed, without white space at the ends, if it succeeded and printed
/// something.
pub open spec fn git_answer(out: Option<GitOutput>) -> Option<Seq<char>> {
    match out {
        Some(o) => if o.success && crate::text::trimmed(o.stdout@).len() > 0 {
            Some(crate::text::trimmed(o.stdout@))
        } else {
            None
        },
        None => None,
    }
}

pub fn git_answer_text(out: &Option<GitOutput>) -> (r: Option<String>)
    ensures
        crate::text::is_text(r, git_answer(*out)),
{
    match out {
        Some(o) => {
            if o.success {
                let t = trim(o.stdout.as_str());
                if t.is_empty() {
                    None
                } else {
                    Some(t.to_owned())
                }
            } else {
                None
            }
        },
        None => None,
    }
}

/// The directory of a project below the daemon's home.
pub open spec fn project_dir_path(home: Seq<char>, name: Seq<char>) -> Seq<char> {
    crate::text::joined(crate::text::joined(home, "projects"@), name)
}

pub fn project_dir(home: &str, name: &str) -> (r: String)
    ensures
        r@ == project_dir_path(home@, name@),
{
    join(join(home, "projects").as_str(), name)
}

// ---- project.init ----

/// A `project.init` request.
pub struct InitJob {
    pub id: String,
    pub name: String,
    pub path: String,
    pub base_branch: Option<String>,
    pub provider: Option<GitProvider>,
}

pub enum InitStep {
    Exists,
    WorkTree,
    Remote,
    Head { remote_url: Option<String> },
    NameTaken { remote_url: Option<String>, head_ref: Option<String> },
    Create,
    Home { project: Project },
    SpecsDir { project: Project, dir: String },
    LogsDir { project: Project },
    Insert { project: Project },
}

pub type ProjectInit = Run<InitJob, InitStep>;

/// The data that answers a `project.init`.
pub open spec fn project_created(p: Project) -> JsonV {
    JsonV::object().with("project_id"@, JsonV::Str(p.id.text())).with(
        "name"@,
        JsonV::Str(p.name@),
    ).with("path"@, JsonV::Str(p.path@)).with("base_branch"@, JsonV::Str(p.base_branch@)).with(
        "git_provider"@,
        JsonV::Str(p.git_provider.name()),
    )
}

pub open spec fn not_a_repository(path: Seq<char>) -> Seq<char> {
    "INVALID_PARAMS: path '"@ + path + "' is not a git repository"@
}

pub open spec fn no_directories(why: Seq<char>) -> Seq<char> {
    "failed to create project directories: "@ + why
}

impl Run<InitJob, InitStep> {
    pub open spec fn accepts(self, ev: Event) -> bool {
        match self.at {
            InitStep::Exists | InitStep::NameTaken { .. } => ev is Flag,
            InitStep::WorkTree | InitStep::Remote | InitStep::Head { .. } => ev is Git,
            InitStep::Create => ev is Project,
            InitStep::Home { .. } => ev is Text,
            _ => ev is Done,
        }
    }

    /// How a `project.init` request begins.
    pub open spec fn begins(req: Request, n: Next<ProjectInit>) -> bool {
        let p = req.params@;
        match (p.text_field("name"@), p.text_field("path"@)) {
            (None, _) => n.fails(req.id, crate::effects::missing_message("name"@)),
            (Some(_), None) => n.fails(req.id, crate::effects::missing_message("path"@)),
            (Some(name), Some(path)) => {
                &&& n matches Next::Act(s, a)
                &&& n.goes(s.job, InitStep::Exists, Action::PathExists { path: s.job.path })
                &&& s.job.id == req.id
                &&& s.job.name@ == name
                &&& s.job.path@ == path
                &&& crate::text::is_text(s.job.base_branch, p.text_field("base_branch"@))
                &&& s.job.provider == match p.text_field("git_provider"@) {
                    Some(g) => crate::model::named_provider(g),
                    None => None,
                }
            },
        }
    }

    pub fn start(req: Request) -> (n: Next<ProjectInit>)
        ensures
            ProjectInit::begins(req, n),
            n matches Next::Act(s, a) ==> forall|e: Event| a.answered_by(e) ==> s.accepts(e),
    {
        let name = match req.params.str_field("name") {
            Some(v) => v,
            None => return missing_parameter(req.id, "name"),
        };
        let path = match req.params.str_field("path") {
            Some(v) => v,
            None => return missing_parameter(req.id, "path"),
        };
        let base_branch = req.params.str_field("base_branch");
        let provider = match req.params.str_field("git_provider") {
            Some(g) => parse_git_provider(g.as_str()),
            None => None,
        };
        let asked = path.clone();
        Next::go(
            InitJob { id: req.id, name, path, base_branch, provider },
            InitStep::Exists,
            Action::PathExists { path: asked },
        )
    }

    /// What follows the outcome of the awaited action.
    pub open spec fn follows(self, ev: Event, n: Next<ProjectInit>) -> bool {
        let job = self.job;
        match (self.at, ev) {
            (InitStep::Exists, Event::Flag(r)) => if r == Ok::<bool, String>(true) {
                n.goes(job, InitStep::WorkTree, Action::GitIsWorkTree { dir: job.path })
            } else {
                n.fails(job.id, not_a_repository(job.path@))
            },
            (InitStep::WorkTree, Event::Git(out)) => if out matches Some(o) && o.success {
                n.goes(job, InitStep::Remote, Action::GitRemoteUrl { dir: job.path })
            } else {
                n.fails(job.id, not_a_repository(job.path@))
            },
            (InitStep::Remote, Event::Git(out)) => {
                &&& n matches Next::Act(s, a)
                &&& if job.base_branch is Some {
                    &&& s.at matches InitStep::NameTaken { remote_url, head_ref }
                    &&& head_ref == job.base_branch
                    &&& crate::text::is_text(remote_url, git_answer(out))
                    &&& n.goes(job, s.at, Action::ProjectNameExists { name: job.name })
                } else {
                    &&& s.at matches InitStep::Head { remote_url }
                    &&& crate::text::is_text(remote_url, git_answer(out))
                    &&& n.goes(job, s.at, Action::GitHeadRef { dir: job.path })
                }
            },
            (InitStep::Head { remote_url }, Event::Git(out)) => {
                &&& n matches Next::Act(s, a)
                &&& s.at matches InitStep::NameTaken { remote_url: url, head_ref }
                &&& url == remote_url
                &&& crate::text::is_text(head_ref, git_answer(out))
                &&& n.goes(job, s.at, Action::ProjectNameExists { name: job.name })
            },
            (InitStep::NameTaken { remote_url, head_ref }, Event::Flag(r)) => match r {
                Err(e) => n.fails(job.id, crate::effects::database_message(e@)),
                Ok(true) => n.fails(
                    job.id,
                    "ALREADY_EXISTS: project with name '"@ + job.name@ + "' already exists"@,
                ),
                Ok(false) => n.goes(
                    job,
                    InitStep::Create,
                    Action::CreateProject {
                        params: CreateProjectParams {
                            name: job.name,
                            path: job.path,
                            remote_url,
                            git_provider_override: job.provider,
                            head_ref,
                        },
                    },
                ),
            },
            (InitStep::Create, Event::Project(r)) => match r {
                Err(e) => n.fails(job.id, e@),
                Ok(project) => n.goes(job, InitStep::Home { project }, Action::NflowHome),
            },
            (InitStep::Home { project }, Event::Text(r)) => match r {
                Err(e) => n.fails(job.id, no_directories("failed to get nflow home: "@ + e@)),
                Ok(home) => {
                    &&& n matches Next::Act(s, Action::CreateDir { path })
                    &&& s.at matches InitStep::SpecsDir { project: p, dir }
                    &&& s.job == job
                    &&& p == project
                    &&& dir@ == project_dir_path(home@, job.name@)
                    &&& path@ == crate::text::joined(dir@, "specs"@)
                },
            },
            (InitStep::SpecsDir { project, dir }, Event::Done(r)) => match r {
                Err(e) => n.fails(job.id, no_directories(e@)),
                Ok(_) => {
                    &&& n matches Next::Act(s, Action::CreateDir { path })
                    &&& path@ == crate::text::joined(dir@, "agent-logs"@)
                    &&& s.job == job && s.at == InitStep::LogsDir { project }
                },
            },
            (InitStep::LogsDir { project }, Event::Done(r)) => match r {
                Err(e) => n.fails(job.id, no_directories(e@)),
                Ok(_) => n.goes(
                    job,
                    InitStep::Insert { project },
                    Action::InsertProject { project },
                ),
            },
            (InitStep::Insert { project }, Event::Done(r)) => match r {
                Err(e) => n.fails(job.id, crate::effects::database_message(e@)),
                Ok(_) => n.replies(job.id, project_created(project)),
            },
            _ => false,
        }
    }

    pub fn step(self, ev: Event) -> (n: Next<ProjectInit>)
        requires
            self.accepts(ev),
        ensures
            self.follows(ev, n),
            n matches Next::Act(s, a) ==> forall|e: Event| a.answered_by(e) ==> s.accepts(e),
    {
        let Run { job, at } = self;
        match (at, ev) {
            (InitStep::Exists, Event::Flag(r)) => match r {
                Ok(true) => {
                    let dir = job.path.clone();
                    Next::go(job, InitStep::WorkTree, Action::GitIsWorkTree { dir })
                },
                _ => no_repository(job),
            },
            (InitStep::WorkTree, Event::Git(out)) => {
                let inside = match out {
                    Some(o) => o.success,
                    None => false,
                };
                if !inside {
                    return no_repository(job);
                }
                let dir = job.path.clone();
                Next::go(job, InitStep::Remote, Action::GitRemoteUrl { dir })
            },
            (InitStep::Remote, Event::Git(out)) => {
                let remote_url = git_answer_text(&out);
                match &job.base_branch {
                    Some(b) => {
                        let name = job.name.clone();
                        let head_ref = Some(b.clone());
                        Next::go(
                            job,
                            InitStep::NameTaken { remote_url, head_ref },
                            Action::ProjectNameExists { name },
                        )
                    },
                    None => {
                        let dir = job.path.clone();
                        Next::go(job, InitStep::Head { remote_url }, Action::GitHeadRef { dir })
                    },
                }
            },
            (InitStep::Head { remote_url }, Event::Git(out)) => {
                let head_ref = git_answer_text(&out);
                let name = job.name.clone();
                Next::go(
                    job,
                    InitStep::NameTaken { remote_url, head_ref },
                    Action::ProjectNameExists { name },
                )
            },
            (InitStep::NameTaken { remote_url, head_ref }, Event::Flag(r)) => match r {
                Err(e) => Next::database_error(job.id, e.as_str()),
                Ok(true) => Next::fail(
                    job.id,
                    cat3(
                        "ALREADY_EXISTS: project with name '",
                        job.name.as_str(),
                        "' already exists",
                    ).as_str(),
                ),
                Ok(false) => {
                    let params = CreateProjectParams {
                        name: job.name.clone(),
                        path: job.path.clone(),
                        remote_url,
                        git_provider_override: job.provider,
                        head_ref,
                    };
                    Next::go(job, InitStep::Create, Action::CreateProject { params })
                },
            },
            (InitStep::Create, Event::Project(r)) => match r {
                Err(e) => Next::fail(job.id, e.as_str()),
                Ok(project) => Next::go(job, InitStep::Home { project }, Action::NflowHome),
            },
            (InitStep::Home { project }, Event::Text(r)) => match r {
                Err(e) => no_dirs(job, cat("failed to get nflow home: ", e.as_str()).as_str()),
                Ok(home) => {
                    let dir = project_dir(home.as_str(), job.name.as_str());
                    let path = join(dir.as_str(), "specs");
                    Next::go(job, InitStep::SpecsDir { project, dir }, Action::CreateDir { path })
                },
            },
            (InitStep::SpecsDir { project, dir }, Event::Done(r)) => match r {
                Err(e) => no_dirs(job, e.as_str()),
                Ok(_) => {
                    let path = join(dir.as_str(), "agent-logs");
                    Next::go(job, InitStep::LogsDir { project }, Action::CreateDir { path })
                },
            },
            (InitStep::LogsDir { project }, Event::Done(r)) => match r {
                Err(e) => no_dirs(job, e.as_str()),
                Ok(_) => {
                    let stored = project.copy();
                    Next::go(
                        job,
                        InitStep::Insert { project },
                        Action::InsertProject { project: stored },
                    )
                },
            },
            (InitStep::Insert { project }, Event::Done(r)) => match r {
                Err(e) => Next::database_error(job.id, e.as_str()),
                Ok(_) => Next::reply(
                    job.id,
                    Json::object().with("project_id", Json::Str(project.id.to_text())).with(
                        "name",
                        Json::Str(project.name),
                    ).with("path", Json::Str(project.path)).with(
                        "base_branch",
                        Json::Str(project.base_branch),
                    ).with("git_provider", Json::text(git_provider_str(project.git_provider))),
                ),
            },
            _ => Next::End,
        }
    }
}

fn no_repository(job: InitJob) -> (n: Next<ProjectInit>)
    ensures
        n.fails(job.id, not_a_repository(job.path@)),
{
    Next::fail(
        job.id,
        cat3("INVALID_PARAMS: path '", job.path.as_str(), "' is not a git repository").as_str(),
    )
}

fn no_dirs(job: InitJob, why: &str) -> (n: Next<ProjectInit>)
    ensures
        n.fails(job.id, no_directories(why@)),
{
    Next::fail(job.id, cat("failed to create project directories: ", why).as_str())
}

// ---- project.list ----

/// A `project.list` request.
pub struct ListJob {
    pub id: String,
}

/// The projects still to be counted begin at `next`; `done` holds the answers of the others.
pub enum ListStep {
    Projects,
    Specs { projects: Vec<Project>, done: Vec<Json> },
    Stories { projects: Vec<Project>, done: Vec<Json>, specs: u32 },
    Agents { projects: Vec<Project>, done: Vec<Json>, specs: u32, stories: u32 },
}

pub type ProjectList = Run<ListJob, ListStep>;

/// A project in the answer of a `project.list`.
pub open spec fn project_entry(p: Project, specs: u32, stories: u32, agents: u32) -> JsonV {
    JsonV::object().with("name"@, JsonV::Str(p.name@)).with("path"@, JsonV::Str(p.path@)).with(
        "base_branch"@,
        JsonV::Str(p.base_branch@),
    ).with("git_provider"@, JsonV::Str(p.git_provider.name())).with(
        "execution_enabled"@,
        JsonV::Bool(p.execution_enabled),
    ).with("spec_count"@, JsonV::Int(specs as int)).with(
        "story_count"@,
        JsonV::Int(stories as int),
    ).with("active_agent_count"@, JsonV::Int(agents as int))
}

/// A count, or zero where it could not be had.
pub open spec fn count_or_zero(r: Result<u32, String>) -> u32 {
    match r {
        Ok(c) => c,
        Err(_) => 0,
    }
}

fn counted(r: Result<u32, String>) -> (c: u32)
    ensures
        c == count_or_zero(r),
{
    match r {
        Ok(c) => c,
        Err(_) => 0,
    }
}

impl Run<ListJob, ListStep> {
    pub open spec fn accepts(self, ev: Event) -> bool {
        &&& self.valid()
        &&& match self.at {
            ListStep::Projects => ev is Projects,
            ListStep::Agents { .. } => ev is AgentRuns,
            _ => ev is Count,
        }
    }

    /// While projects are counted, one is left to count.
    pub open spec fn valid(self) -> bool {
        match self.at {
            ListStep::Projects => true,
            ListStep::Specs { projects, done } => done@.len() < projects@.len(),
            ListStep::Stories { projects, done, .. } => done@.len() < projects@.len(),
            ListStep::Agents { projects, done, .. } => done@.len() < projects@.len(),
        }
    }

    pub open spec fn begins(req: Request, n: Next<ProjectList>) -> bool {
        n.goes(ListJob { id: req.id }, ListStep::Projects, Action::ListProjects)
    }

    pub fn start(req: Request) -> (n: Next<ProjectList>)
        ensures
            ProjectList::begins(req, n),
            n matches Next::Act(s, a) ==> forall|e: Event| a.answered_by(e) ==> s.accepts(e),
    {
        Next::go(ListJob { id: req.id }, ListStep::Projects, Action::ListProjects)
    }

    /// Counts for the next project, or answers once every project has its entry.
    pub open spec fn continues(
        job: ListJob,
        projects: Seq<Project>,
        done: Seq<JsonV>,
        n: Next<ProjectList>,
    ) -> bool {
        if done.len() < projects.len() {
            &&& n matches Next::Act(s, a)
            &&& s.at matches ListStep::Specs { projects: ps, done: d }
            &&& ps@ == projects
            &&& crate::json::json_views(d@) == done
            &&& n.goes(job, s.at, Action::CountSpecs { project: projects[done.len() as int].id })
        } else {
            n.replies(job.id, JsonV::object().with("projects"@, JsonV::Arr(done)))
        }
    }

    pub open spec fn follows(self, ev: Event, n: Next<ProjectList>) -> bool {
        let job = self.job;
        match (self.at, ev) {
            (ListStep::Projects, Event::Projects(r)) => match r {
                Err(e) => n.fails(job.id, crate::effects::database_message(e@)),
                Ok(projects) => ProjectList::continues(job, projects@, Seq::empty(), n),
            },
            (ListStep::Specs { projects, done }, Event::Count(r)) => n.goes(
                job,
                ListStep::Stories { projects, done, specs: count_or_zero(r) },
                Action::CountStories { project: projects@[done@.len() as int].id },
            ),
            (ListStep::Stories { projects, done, specs }, Event::Count(r)) => n.goes(
                job,
                ListStep::Agents { projects, done, specs, stories: count_or_zero(r) },
                Action::FindRunningAgents { project: projects@[done@.len() as int].id },
            ),
            (ListStep::Agents { projects, done, specs, stories }, Event::AgentRuns(r)) => {
                ProjectList::continues(
                    job,
                    projects@,
                    crate::json::json_views(done@).push(
                        project_entry(
                            projects@[done@.len() as int],
                            specs,
                            stories,
                            match r {
                                Ok(runs) => runs@.len() as u32,
                                Err(_) => 0,
                            },
                        ),
                    ),
                    n,
                )
            },
            _ => false,
        }
    }

    pub fn step(self, ev: Event) -> (n: Next<ProjectList>)
        requires
            self.accepts(ev),
        ensures
            self.follows(ev, n),
            n matches Next::Act(s, a) ==> forall|e: Event| a.answered_by(e) ==> s.accepts(e),
    {
        let Run { job, at } = self;
        match (at, ev) {
            (ListStep::Projects, Event::Projects(r)) => match r {
                Err(e) => Next::database_error(job.id, e.as_str()),
                Ok(projects) => {
                    let done: Vec<Json> = Vec::new();
                    assert(crate::json::json_views(done@) =~= Seq::empty());
                    count_next(job, projects, done)
                },
            },
            (ListStep::Specs { projects, done }, Event::Count(r)) => {
                let project = projects[done.len()].id;
                Next::go(
                    job,
                    ListStep::Stories { projects, done, specs: counted(r) },
                    Action::CountStories { project },
                )
            },
            (ListStep::Stories { projects, done, specs }, Event::Count(r)) => {
                let project = projects[done.len()].id;
                Next::go(
                    job,
                    ListStep::Agents { projects, done, specs, stories: counted(r) },
                    Action::FindRunningAgents { project },
                )
            },
            (ListStep::Agents { projects, done, specs, stories }, Event::AgentRuns(r)) => {
                let agents: u32 = match r {
                    Ok(runs) => runs.len() as u32,
                    Err(_) => 0,
                };
                let mut done = done;
                let ghost before = crate::json::json_views(done@);
                let p = &projects[done.len()];
                let entry = Json::object().with("name", Json::Str(p.name.clone())).with(
                    "path",
                    Json::Str(p.path.clone()),
                ).with("base_branch", Json::Str(p.base_branch.clone())).with(
                    "git_provider",
                    Json::text(git_provider_str(p.git_provider)),
                ).with("execution_enabled", Json::Bool(p.execution_enabled)).with(
                    "spec_count",
                    Json::U64(specs as u64),
                ).with("story_count", Json::U64(stories as u64)).with(
                    "active_agent_count",
                    Json::U64(agents as u64),
                );
                done.push(entry);
                assert(crate::json::json_views(done@) =~= before.push(entry@));
                count_next(job, projects, done)
            },
            _ => Next::End,
        }
    }
}

fn count_next(job: ListJob, projects: Vec<Project>, done: Vec<Json>) -> (n: Next<ProjectList>)
    requires
        done@.len() <= projects@.len(),
    ensures
        ProjectList::continues(job, projects@, crate::json::json_views(done@), n),
        n matches Next::Act(s, a) ==> forall|e: Event| a.answered_by(e) ==> s.accepts(e),
{
    if done.len() < projects.len() {
        let project = projects[done.len()].id;
        Next::go(job, ListStep::Specs { projects, done }, Action::CountSpecs { project })
    } else {
        Next::reply(job.id, Json::object().with("projects", Json::array(done)))
    }
}

// ---- project.delete ----

/// A `project.delete` request.
pub struct DeleteJob {
    pub id: String,
    pub name: String,
    pub force: bool,
}

pub enum DeleteStep {
    Find,
    Agents { project: Project },
    CancelItems { project: Project },
    CancelAgents { project: Project },
    Worktrees { project: Project },
    Delete { project: Project, worktrees: Vec<String> },
    /// The first `gone` worktrees have been removed, and the next is being removed.
    RemoveWorktree { project: Project, worktrees: Vec<String>, gone: usize },
    Home { worktrees: Vec<String> },
    RemoveDir { worktrees: Vec<String> },
}

pub type ProjectDelete = Run<DeleteJob, DeleteStep>;

/// The data that answers a `project.delete`.
pub open spec fn project_deleted(name: Seq<char>, worktrees: nat) -> JsonV {
    JsonV::object().with("name"@, JsonV::Str(name)).with("deleted"@, JsonV::Bool(true)).with(
        "worktrees_removed"@,
        JsonV::Int(worktrees as int),
    )
}

impl Run<DeleteJob, DeleteStep> {
    pub open spec fn accepts(self, ev: Event) -> bool {
        match self.at {
            DeleteStep::Find => ev is MaybeProject,
            DeleteStep::Agents { .. } => ev is AgentRuns,
            DeleteStep::Worktrees { .. } => ev is Texts,
            DeleteStep::RemoveWorktree { worktrees, gone, .. } => ev is Done && gone
                < worktrees.len(),
            DeleteStep::Home { .. } => ev is Text,
            _ => ev is Done,
        }
    }

    pub open spec fn begins(req: Request, n: Next<ProjectDelete>) -> bool {
        let p = req.params@;
        match p.text_field("name"@) {
            None => n.fails(req.id, crate::effects::missing_message("name"@)),
            Some(name) => {
                &&& n matches Next::Act(s, a)
                &&& n.goes(s.job, DeleteStep::Find, Action::GetProjectByName { name: s.job.name })
                &&& s.job.id == req.id
                &&& s.job.name@ == name
                &&& s.job.force == (p.truth_field("force"@) == Some(true))
            },
        }
    }

    pub fn start(req: Request) -> (n: Next<ProjectDelete>)
        ensures
            ProjectDelete::begins(req, n),
            n matches Next::Act(s, a) ==> forall|e: Event| a.answered_by(e) ==> s.accepts(e),
    {
        let name = match req.params.str_field("name") {
            Some(v) => v,
            None => return missing_parameter(req.id, "name"),
        };
        let force = match req.params.bool_field("force") {
            Some(b) => b,
            None => false,
        };
        let asked = name.clone();
        Next::go(
            DeleteJob { id: req.id, name, force },
            DeleteStep::Find,
            Action::GetProjectByName { name: asked },
        )
    }

    /// Removes the worktrees from index `gone` on, one by one, and then the directories.
    pub open spec fn removes(
        job: DeleteJob,
        project: Project,
        worktrees: Vec<String>,
        gone: int,
        n: Next<ProjectDelete>,
    ) -> bool {
        if gone < worktrees@.len() {
            n.goes(
                job,
                DeleteStep::RemoveWorktree { project, worktrees, gone: gone as usize },
                Action::RemoveWorktree { repo: project.path, worktree: worktrees@[gone] },
            )
        } else {
            n.goes(job, DeleteStep::Home { worktrees }, Action::NflowHome)
        }
    }

    pub open spec fn follows(self, ev: Event, n: Next<ProjectDelete>) -> bool {
        let job = self.job;
        match (self.at, ev) {
            (DeleteStep::Find, Event::MaybeProject(r)) => match r {
                Err(e) => n.fails(job.id, crate::effects::database_message(e@)),
                Ok(None) => n.fails(job.id, crate::effects::no_project_message(job.name@)),
                Ok(Some(project)) => n.goes(
                    job,
                    DeleteStep::Agents { project },
                    Action::FindRunningAgents { project: project.id },
                ),
            },
            (DeleteStep::Agents { project }, Event::AgentRuns(r)) => match r {
                Err(e) => n.fails(job.id, crate::effects::database_message(e@)),
                Ok(running) => if running@.len() == 0 {
                    n.goes(
                        job,
                        DeleteStep::Worktrees { project },
                        Action::ListWorktreePaths { project: project.id },
                    )
                } else if job.force {
                    n.goes(
                        job,
                        DeleteStep::CancelItems { project },
                        Action::CancelInProgressItems { project: project.id },
                    )
                } else {
                    n.fails(
                        job.id,
                        "INVALID_STATE: project '"@ + job.name@ + "' has "@ + crate::text::decimal(
                            running@.len(),
                        ) + " running agent(s). Use force=true to override"@,
                    )
                },
            },
            (DeleteStep::CancelItems { project }, Event::Done(r)) => match r {
                Err(e) => n.fails(job.id, "database error while cancelling items: "@ + e@),
                Ok(_) => n.goes(
                    job,
                    DeleteStep::CancelAgents { project },
                    Action::CancelRunningAgents { project: project.id },
                ),
            },
            (DeleteStep::CancelAgents { project }, Event::Done(r)) => match r {
                Err(e) => n.fails(job.id, "database error while cancelling agents: "@ + e@),
                Ok(_) => n.goes(
                    job,
                    DeleteStep::Worktrees { project },
                    Action::ListWorktreePaths { project: project.id },
                ),
            },
            (DeleteStep::Worktrees { project }, Event::Texts(r)) => {
                &&& n matches Next::Act(s, a)
                &&& s.at matches DeleteStep::Delete { project: p, worktrees }
                &&& p == project
                &&& match r {
                    Ok(found) => worktrees == found,
                    Err(_) => worktrees@.len() == 0,
                }
                &&& n.goes(job, s.at, Action::DeleteProject { project: project.id })
            },
            (DeleteStep::Delete { project, worktrees }, Event::Done(r)) => match r {
                Err(e) => n.fails(job.id, crate::effects::database_message(e@)),
                Ok(_) => ProjectDelete::removes(job, project, worktrees, 0, n),
            },
            (DeleteStep::RemoveWorktree { project, worktrees, gone }, Event::Done(_)) => {
                ProjectDelete::removes(job, project, worktrees, gone + 1, n)
            },
            (DeleteStep::Home { worktrees }, Event::Text(r)) => match r {
                Ok(home) => {
                    &&& n matches Next::Act(s, Action::RemoveDir { path })
                    &&& s.job == job && s.at == DeleteStep::RemoveDir { worktrees }
                    &&& path@ == project_dir_path(home@, job.name@)
                },
                Err(_) => n.replies(job.id, project_deleted(job.name@, worktrees@.len())),
            },
            (DeleteStep::RemoveDir { worktrees }, Event::Done(_)) => {
                n.replies(job.id, project_deleted(job.name@, worktrees@.len()))
            },
            _ => false,
        }
    }

    pub fn step(self, ev: Event) -> (n: Next<ProjectDelete>)
        requires
            self.accepts(ev),
        ensures
            self.follows(ev, n),
            n matches Next::Act(s, a) ==> forall|e: Event| a.answered_by(e) ==> s.accepts(e),
    {
        let Run { job, at } = self;
        match (at, ev) {
            (DeleteStep::Find, Event::MaybeProject(r)) => match r {
                Err(e) => Next::database_error(job.id, e.as_str()),
                Ok(None) => no_project(job.id, job.name.as_str()),
                Ok(Some(project)) => {
                    let asked = project.id;
                    Next::go(
                        job,
                        DeleteStep::Agents { project },
                        Action::FindRunningAgents { project: asked },
                    )
                },
            },
            (DeleteStep::Agents { project }, Event::AgentRuns(r)) => match r {
                Err(e) => Next::database_error(job.id, e.as_str()),
                Ok(running) => {
                    let asked = project.id;
                    if running.len() == 0 {
                        Next::go(
                            job,
                            DeleteStep::Worktrees { project },
                            Action::ListWorktreePaths { project: asked },
                        )
                    } else if job.force {
                        Next::go(
                            job,
                            DeleteStep::CancelItems { project },
                            Action::CancelInProgressItems { project: asked },
                        )
                    } else {
                        Next::fail(
                            job.id,
                            cat5(
                                "INVALID_STATE: project '",
                                job.name.as_str(),
                                "' has ",
                                u64_text(running.len() as u64).as_str(),
                                " running agent(s). Use force=true to override",
                            ).as_str(),
                        )
                    }
                },
            },
            (DeleteStep::CancelItems { project }, Event::Done(r)) => match r {
                Err(e) => Next::fail(
                    job.id,
                    cat("database error while cancelling items: ", e.as_str()).as_str(),
                ),
                Ok(_) => {
                    let asked = project.id;
                    Next::go(
                        job,
                        DeleteStep::CancelAgents { project },
                        Action::CancelRunningAgents { project: asked },
                    )
                },
            },
            (DeleteStep::CancelAgents { project }, Event::Done(r)) => match r {
                Err(e) => Next::fail(
                    job.id,
                    cat("database error while cancelling agents: ", e.as_str()).as_str(),
                ),
                Ok(_) => {
                    let asked = project.id;
                    Next::go(
                        job,
                        DeleteStep::Worktrees { project },
                        Action::ListWorktreePaths { project: asked },
                    )
                },
            },
            (DeleteStep::Worktrees { project }, Event::Texts(r)) => {
                let worktrees = match r {
                    Ok(found) => found,
                    Err(_) => Vec::new(),
                };
                let asked = project.id;
                Next::go(
                    job,
                    DeleteStep::Delete { project, worktrees },
                    Action::DeleteProject { project: asked },
                )
            },
            (DeleteStep::Delete { project, worktrees }, Event::Done(r)) => match r {
                Err(e) => Next::database_error(job.id, e.as_str()),
                Ok(_) => remove_next(job, project, worktrees, 0),
            },
            (DeleteStep::RemoveWorktree { project, worktrees, gone }, Event::Done(_)) => {
                remove_next(job, project, worktrees, gone + 1)
            },
            (DeleteStep::Home { worktrees }, Event::Text(r)) => match r {
                Ok(home) => {
                    let path = project_dir(home.as_str(), job.name.as_str());
                    Next::go(job, DeleteStep::RemoveDir { worktrees }, Action::RemoveDir { path })
                },
                Err(_) => deleted(job, worktrees),
            },
            (DeleteStep::RemoveDir { worktrees }, Event::Done(_)) => deleted(job, worktrees),
            _ => Next::End,
        }
    }
}

fn remove_next(job: DeleteJob, project: Project, worktrees: Vec<String>, gone: usize) -> (n: Next<
    ProjectDelete,
>)
    ensures
        ProjectDelete::removes(job, project, worktrees, gone as int, n),
        n matches Next::Act(s, a) ==> forall|e: Event| a.answered_by(e) ==> s.accepts(e),
{
    if gone < worktrees.len() {
        let repo = project.path.clone();
        let worktree = worktrees[gone].clone();
        Next::go(
            job,
            DeleteStep::RemoveWorktree { project, worktrees, gone },
            Action::RemoveWorktree { repo, worktree },
        )
    } else {
        Next::go(job, DeleteStep::Home { worktrees }, Action::NflowHome)
    }
}

fn deleted(job: DeleteJob, worktrees: Vec<String>) -> (n: Next<ProjectDelete>)
    ensures
        n.replies(job.id, project_deleted(job.name@, worktrees@.len())),
{
    let data = Json::object().with("name", Json::Str(job.name)).with(
        "deleted",
        Json::Bool(true),
    ).with("worktrees_removed", Json::U64(worktrees.len() as u64));
    Next::reply(job.id, data)
}

} // verus!
