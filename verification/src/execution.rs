//! `exec.run` and `exec.pause`: whether a project's stories are scheduled.
use vstd::prelude::*;
use crate::effects::{missing_parameter, no_project, Action, Event, Next, Run};
use crate::json::{Json, JsonV};
use crate::model::Project;
use crate::plans::wave_param;
use crate::protocol::Request;

verus! {

/// A request to enable or disable execution; where it is enabled, with as many agents as asked
/// for and on the story asked for.
pub struct SwitchJob {
    pub id: String,
    pub project_name: String,
    pub enable: bool,
    pub parallel: Option<u32>,
    pub story: Option<String>,
}

pub enum SwitchStep {
    Project,
    Now { project: Project },
    Update { project: Project },
    Limit { project: Project },
    Running { project: Project },
    Pending { running: u32 },
}

pub type ExecSwitch = Run<SwitchJob, SwitchStep>;

/// The data that answers an `exec.run` or an `exec.pause`.
pub open spec fn switched(enabled: bool, running: u32, pending: u32) -> JsonV {
    JsonV::object().with("execution_enabled"@, JsonV::Bool(enabled)).with(
        "running_count"@,
        JsonV::Int(running as int),
    ).with("pending_count"@, JsonV::Int(pending as int))
}

impl Run<SwitchJob, SwitchStep> {
    pub open spec fn accepts(self, ev: Event) -> bool {
        match self.at {
            SwitchStep::Project => ev is MaybeProject,
            SwitchStep::Now { .. } => ev is Time,
            SwitchStep::Update { .. } | SwitchStep::Limit { .. } => ev is Done,
            SwitchStep::Running { .. } => ev is AgentRuns,
            SwitchStep::Pending { .. } => ev is Count,
        }
    }

    pub open spec fn begins(req: Request, enable: bool, n: Next<ExecSwitch>) -> bool {
        match req.params@.text_field("project_name"@) {
            None => n.fails(req.id, crate::effects::missing_message("project_name"@)),
            Some(name) => {
                &&& n matches Next::Act(s, a)
                &&& n.goes(
                    s.job,
                    SwitchStep::Project,
                    Action::GetProjectByName { name: s.job.project_name },
                )
                &&& s.job.id == req.id
                &&& s.job.project_name@ == name
                &&& s.job.enable == enable
                &&& s.job.parallel == if enable {
                    crate::plans::wave_of(req.params@, "parallel"@)
                } else {
                    None
                }
                &&& crate::text::is_text(
                    s.job.story,
                    if enable {
                        req.params@.text_field("story"@)
                    } else {
                        None
                    },
                )
            },
        }
    }

    /// What comes once the project is switched as asked: the limits of its execution, where it
    /// is enabled, and the counts that are told.
    pub open spec fn proceeds(job: SwitchJob, project: Project, n: Next<ExecSwitch>) -> bool {
        if job.enable {
            n.goes(
                job,
                SwitchStep::Limit { project },
                Action::LimitExecution {
                    project: project.id,
                    parallel: job.parallel,
                    story: job.story,
                },
            )
        } else {
            n.goes(
                job,
                SwitchStep::Running { project },
                Action::FindRunningAgents { project: project.id },
            )
        }
    }

    pub fn start(req: Request, enable: bool) -> (n: Next<ExecSwitch>)
        ensures
            ExecSwitch::begins(req, enable, n),
            n matches Next::Act(s, a) ==> forall|e: Event| a.answered_by(e) ==> s.accepts(e),
    {
        let project_name = match req.params.str_field("project_name") {
            Some(v) => v,
            None => return missing_parameter(req.id, "project_name"),
        };
        let (parallel, story) = if enable {
            (wave_param(&req.params, "parallel"), req.params.str_field("story"))
        } else {
            (None, None)
        };
        let name = project_name.clone();
        Next::go(
            SwitchJob { id: req.id, project_name, enable, parallel, story },
            SwitchStep::Project,
            Action::GetProjectByName { name },
        )
    }

    /// A project that is switched as asked is left alone; another one is updated.
    pub open spec fn follows(self, ev: Event, n: Next<ExecSwitch>) -> bool {
        let job = self.job;
        match (self.at, ev) {
            (SwitchStep::Project, Event::MaybeProject(r)) => match r {
                Err(e) => n.fails(job.id, crate::effects::database_message(e@)),
                Ok(None) => n.fails(job.id, crate::effects::no_project_message(job.project_name@)),
                Ok(Some(project)) => if project.execution_enabled == job.enable {
                    ExecSwitch::proceeds(job, project, n)
                } else {
                    n.goes(job, SwitchStep::Now { project }, Action::Now)
                },
            },
            (SwitchStep::Now { project }, Event::Time(now)) => {
                let updated = Project { execution_enabled: job.enable, updated_at: now, ..project };
                n.goes(
                    job,
                    SwitchStep::Update { project: updated },
                    Action::UpdateProject { project: updated },
                )
            },
            (SwitchStep::Update { project }, Event::Done(r)) => match r {
                Err(e) => n.fails(job.id, crate::effects::database_message(e@)),
                Ok(_) => ExecSwitch::proceeds(job, project, n),
            },
            (SwitchStep::Limit { project }, Event::Done(_)) => n.goes(
                job,
                SwitchStep::Running { project },
                Action::FindRunningAgents { project: project.id },
            ),
            (SwitchStep::Running { project }, Event::AgentRuns(r)) => match r {
                Err(e) => n.fails(job.id, crate::effects::database_message(e@)),
                Ok(runs) => n.goes(
                    job,
                    SwitchStep::Pending { running: runs@.len() as u32 },
                    Action::CountPendingStories { project: project.id },
                ),
            },
            (SwitchStep::Pending { running }, Event::Count(r)) => match r {
                Err(e) => n.fails(job.id, crate::effects::database_message(e@)),
                Ok(pending) => n.replies(job.id, switched(job.enable, running, pending)),
            },
            _ => false,
        }
    }

    pub fn step(self, ev: Event) -> (n: Next<ExecSwitch>)
        requires
            self.accepts(ev),
        ensures
            self.follows(ev, n),
            n matches Next::Act(s, a) ==> forall|e: Event| a.answered_by(e) ==> s.accepts(e),
    {
        let Run { job, at } = self;
        match (at, ev) {
            (SwitchStep::Project, Event::MaybeProject(r)) => match r {
                Err(e) => Next::database_error(job.id, e.as_str()),
                Ok(None) => no_project(job.id, job.project_name.as_str()),
                Ok(Some(project)) => if project.execution_enabled == job.enable {
                    proceed(job, project)
                } else {
                    Next::go(job, SwitchStep::Now { project }, Action::Now)
                },
            },
            (SwitchStep::Now { project }, Event::Time(now)) => {
                let mut project = project;
                project.execution_enabled = job.enable;
                project.updated_at = now;
                let stored = project.copy();
                Next::go(
                    job,
                    SwitchStep::Update { project },
                    Action::UpdateProject { project: stored },
                )
            },
            (SwitchStep::Update { project }, Event::Done(r)) => match r {
                Err(e) => Next::database_error(job.id, e.as_str()),
                Ok(_) => proceed(job, project),
            },
            (SwitchStep::Limit { project }, Event::Done(_)) => {
                let asked = project.id;
                Next::go(
                    job,
                    SwitchStep::Running { project },
                    Action::FindRunningAgents { project: asked },
                )
            },
            (SwitchStep::Running { project }, Event::AgentRuns(r)) => match r {
                Err(e) => Next::database_error(job.id, e.as_str()),
                Ok(runs) => Next::go(
                    job,
                    SwitchStep::Pending { running: runs.len() as u32 },
                    Action::CountPendingStories { project: project.id },
                ),
            },
            (SwitchStep::Pending { running }, Event::Count(r)) => match r {
                Err(e) => Next::database_error(job.id, e.as_str()),
                Ok(pending) => Next::reply(
                    job.id,
                    Json::object().with("execution_enabled", Json::Bool(job.enable)).with(
                        "running_count",
                        Json::U64(running as u64),
                    ).with("pending_count", Json::U64(pending as u64)),
                ),
            },
            _ => Next::End,
        }
    }
}

fn proceed(job: SwitchJob, project: Project) -> (n: Next<ExecSwitch>)
    ensures
        ExecSwitch::proceeds(job, project, n),
        n matches Next::Act(s, a) ==> forall|e: Event| a.answered_by(e) ==> s.accepts(e),
{
    let asked = project.id;
    if job.enable {
        let parallel = job.parallel;
        let story = crate::model::copy_text(&job.story);
        Next::go(
            job,
            SwitchStep::Limit { project },
            Action::LimitExecution { project: asked, parallel, story },
        )
    } else {
        Next::go(
            job,
            SwitchStep::Running { project },
            Action::FindRunningAgents { project: asked },
        )
    }
}

/// Switching a project the way it is already switched stores nothing.
pub proof fn law_switching_again_stores_nothing(
    job: SwitchJob,
    project: Project,
    n: Next<ExecSwitch>,
)
    requires
        (Run { job, at: SwitchStep::Project }).follows(
            Event::MaybeProject(Ok(Some(project))),
            n,
        ),
        project.execution_enabled == job.enable,
    ensures
        ExecSwitch::proceeds(job, project, n),
        !(n matches Next::Act(_, Action::UpdateProject { .. })),
{
}

/// What is stored of a project that is switched is the project itself, but for the switch and
/// the time of the change.
pub proof fn law_switching_keeps_the_rest(
    job: SwitchJob,
    project: Project,
    now: crate::ident::Timestamp,
    n: Next<ExecSwitch>,
)
    requires
        (Run { job, at: SwitchStep::Now { project } }).follows(Event::Time(now), n),
    ensures
        n matches Next::Act(s, Action::UpdateProject { project: p }) && p.execution_enabled
            == job.enable && p == (Project {
            execution_enabled: p.execution_enabled,
            updated_at: p.updated_at,
            ..project
        }),
{
}

/// Enabling execution and disabling it again stores the project as it was, but for the time of
/// the change.
pub proof fn law_switching_there_and_back(
    there: SwitchJob,
    back: SwitchJob,
    project: Project,
    stored: Project,
    restored: Project,
    first: crate::ident::Timestamp,
    second: crate::ident::Timestamp,
    m: Next<ExecSwitch>,
    n: Next<ExecSwitch>,
)
    requires
        project.execution_enabled == back.enable,
        (Run { job: there, at: SwitchStep::Now { project } }).follows(Event::Time(first), m),
        m matches Next::Act(_, Action::UpdateProject { project: p }) && p == stored,
        (Run { job: back, at: SwitchStep::Now { project: stored } }).follows(
            Event::Time(second),
            n,
        ),
        n matches Next::Act(_, Action::UpdateProject { project: p }) && p == restored,
    ensures
        restored == (Project { updated_at: second, ..project }),
{
}

/// The limits that `exec.run` is given are handed on for its project, and stored nowhere: of all
/// that follows they stand in one action only, which keeps them in memory.
pub proof fn law_limits_are_kept_in_memory(s: ExecSwitch, ev: Event, n: Next<ExecSwitch>)
    requires
        s.follows(ev, n),
        s.job.enable,
    ensures
        n matches Next::Act(t, a) ==> t.job == s.job,
        n matches Next::Act(t, Action::LimitExecution { project, parallel, story }) ==> parallel
            == s.job.parallel && story == s.job.story && (t.at matches SwitchStep::Limit {
            project: p,
        } && project == p.id),
        n matches Next::Act(t, Action::FindRunningAgents { .. }) ==> s.at is Limit,
{
}

} // verus!
