//! The commands: which machine carries one out, and what holds of all of them.
use vstd::prelude::*;
use crate::cleanup::{can_take, LogCleanup};
use crate::config::{ConfigSet, ConfigShow};
use crate::decompose::PlanTalk;
use crate::effects::{Event, Next};
use crate::execution::ExecSwitch;
use crate::json::str_eq;
use crate::logs::ExecLog;
use crate::pipeline::PipelineStart;
use crate::pipeline_queries::{PipelineList, PipelineQuery, QueryVerb};
use crate::plans::{handle_plan_approve, PlanShow, WaveCommand, WaveVerb};
use crate::projects::{ProjectDelete, ProjectInit, ProjectList};
use crate::protocol::Request;
use crate::sessions::SpecTalk;
use crate::specs::{handle_spec_delete, SpecCommand, SpecList, SpecVerb};
use crate::status::ExecStatus;
use crate::stop::ExecStop;
use crate::stories::{StoryCancel, StoryContinue};
use crate::tasks::{TaskRetry, TaskSkip};
use crate::text::cat;
use crate::worktrees::{WorktreeClean, WorktreeList};

verus! {

// ---- commands ----

/// The commands that the daemon knows.
#[derive(Debug, Clone, Copy, PartialEq, Eq, Structural)]
pub enum Command {
    ProjectInit,
    ProjectList,
    ProjectDelete,
    SpecNew,
    SpecAnswer,
    SpecList,
    SpecView,
    SpecApprove,
    SpecReopen,
    SpecDelete,
    SpecDeactivate,
    SpecResume,
    PlanGenerate,
    PlanShow,
    PlanFeedback,
    PlanApprove,
    PlanDiscard,
    ExecRun,
    ExecPause,
    ExecStatus,
    ExecRetry,
    ExecSkip,
    ExecContinue,
    ExecStop,
    ExecCancel,
    ExecLog,
    WorktreeList,
    WorktreeClean,
    CleanupLogs,
    ConfigShow,
    ConfigSet,
    PipelineStart,
    PipelineStatus,
    PipelineList,
    PipelineCancel,
    PipelineLog,
}

impl Command {
    pub open spec fn name(self) -> Seq<char> {
        match self {
            Command::ProjectInit => "project.init"@,
            Command::ProjectList => "project.list"@,
            Command::ProjectDelete => "project.delete"@,
            Command::SpecNew => "spec.new"@,
            Command::SpecAnswer => "spec.answer"@,
            Command::SpecList => "spec.list"@,
            Command::SpecView => "spec.view"@,
            Command::SpecApprove => "spec.approve"@,
            Command::SpecReopen => "spec.reopen"@,
            Command::SpecDelete => "spec.delete"@,
            Command::SpecDeactivate => "spec.deactivate"@,
            Command::SpecResume => "spec.resume"@,
            Command::PlanGenerate => "plan.generate"@,
            Command::PlanShow => "plan.show"@,
            Command::PlanFeedback => "plan.feedback"@,
            Command::PlanApprove => "plan.approve"@,
            Command::PlanDiscard => "plan.discard"@,
            Command::ExecRun => "exec.run"@,
            Command::ExecPause => "exec.pause"@,
            Command::ExecStatus => "exec.status"@,
            Command::ExecRetry => "exec.retry"@,
            Command::ExecSkip => "exec.skip"@,
            Command::ExecContinue => "exec.continue"@,
            Command::ExecStop => "exec.stop"@,
            Command::ExecCancel => "exec.cancel"@,
            Command::ExecLog => "exec.log"@,
            Command::WorktreeList => "worktree.list"@,
            Command::WorktreeClean => "worktree.clean"@,
            Command::CleanupLogs => "cleanup.logs"@,
            Command::ConfigShow => "config.show"@,
            Command::ConfigSet => "config.set"@,
            Command::PipelineStart => "pipeline.start"@,
            Command::PipelineStatus => "pipeline.status"@,
            Command::PipelineList => "pipeline.list"@,
            Command::PipelineCancel => "pipeline.cancel"@,
            Command::PipelineLog => "pipeline.log"@,
        }
    }

    /// The command with the name, if there is one.
    pub open spec fn of_name(name: Seq<char>) -> Option<Command> {
        if name == "project.init"@ {
            Some(Command::ProjectInit)
        } else if name == "project.list"@ {
            Some(Command::ProjectList)
        } else if name == "project.delete"@ {
            Some(Command::ProjectDelete)
        } else if name == "spec.new"@ {
            Some(Command::SpecNew)
        } else if name == "spec.answer"@ {
            Some(Command::SpecAnswer)
        } else if name == "spec.list"@ {
            Some(Command::SpecList)
        } else if name == "spec.view"@ {
            Some(Command::SpecView)
        } else if name == "spec.approve"@ {
            Some(Command::SpecApprove)
        } else if name == "spec.reopen"@ {
            Some(Command::SpecReopen)
        } else if name == "spec.delete"@ {
            Some(Command::SpecDelete)
        } else if name == "spec.deactivate"@ {
            Some(Command::SpecDeactivate)
        } else if name == "spec.resume"@ {
            Some(Command::SpecResume)
        } else if name == "plan.generate"@ {
            Some(Command::PlanGenerate)
        } else if name == "plan.show"@ {
            Some(Command::PlanShow)
        } else if name == "plan.feedback"@ {
            Some(Command::PlanFeedback)
        } else if name == "plan.approve"@ {
            Some(Command::PlanApprove)
        } else if name == "plan.discard"@ {
            Some(Command::PlanDiscard)
        } else if name == "exec.run"@ {
            Some(Command::ExecRun)
        } else if name == "exec.pause"@ {
            Some(Command::ExecPause)
        } else if name == "exec.status"@ {
            Some(Command::ExecStatus)
        } else if name == "exec.retry"@ {
            Some(Command::ExecRetry)
        } else if name == "exec.skip"@ {
            Some(Command::ExecSkip)
        } else if name == "exec.continue"@ {
            Some(Command::ExecContinue)
        } else if name == "exec.stop"@ {
            Some(Command::ExecStop)
        } else if name == "exec.cancel"@ {
            Some(Command::ExecCancel)
        } else if name == "exec.log"@ {
            Some(Command::ExecLog)
        } else if name == "worktree.list"@ {
            Some(Command::WorktreeList)
        } else if name == "worktree.clean"@ {
            Some(Command::WorktreeClean)
        } else if name == "cleanup.logs"@ {
            Some(Command::CleanupLogs)
        } else if name == "config.show"@ {
            Some(Command::ConfigShow)
        } else if name == "config.set"@ {
            Some(Command::ConfigSet)
        } else if name == "pipeline.start"@ {
            Some(Command::PipelineStart)
        } else if name == "pipeline.status"@ {
            Some(Command::PipelineStatus)
        } else if name == "pipeline.list"@ {
            Some(Command::PipelineList)
        } else if name == "pipeline.cancel"@ {
            Some(Command::PipelineCancel)
        } else if name == "pipeline.log"@ {
            Some(Command::PipelineLog)
        } else {
            None
        }
    }

    pub fn named(name: &str) -> (r: Option<Command>)
        ensures
            r == Command::of_name(name@),
    {
        if str_eq(name, "project.init") {
            Some(Command::ProjectInit)
        } else if str_eq(name, "project.list") {
            Some(Command::ProjectList)
        } else if str_eq(name, "project.delete") {
            Some(Command::ProjectDelete)
        } else if str_eq(name, "spec.new") {
            Some(Command::SpecNew)
        } else if str_eq(name, "spec.answer") {
            Some(Command::SpecAnswer)
        } else if str_eq(name, "spec.list") {
            Some(Command::SpecList)
        } else if str_eq(name, "spec.view") {
            Some(Command::SpecView)
        } else if str_eq(name, "spec.approve") {
            Some(Command::SpecApprove)
        } else if str_eq(name, "spec.reopen") {
            Some(Command::SpecReopen)
        } else if str_eq(name, "spec.delete") {
            Some(Command::SpecDelete)
        } else if str_eq(name, "spec.deactivate") {
            Some(Command::SpecDeactivate)
        } else if str_eq(name, "spec.resume") {
            Some(Command::SpecResume)
        } else if str_eq(name, "plan.generate") {
            Some(Command::PlanGenerate)
        } else if str_eq(name, "plan.show") {
            Some(Command::PlanShow)
        } else if str_eq(name, "plan.feedback") {
            Some(Command::PlanFeedback)
        } else if str_eq(name, "plan.approve") {
            Some(Command::PlanApprove)
        } else if str_eq(name, "plan.discard") {
            Some(Command::PlanDiscard)
        } else if str_eq(name, "exec.run") {
            Some(Command::ExecRun)
        } else if str_eq(name, "exec.pause") {
            Some(Command::ExecPause)
        } else if str_eq(name, "exec.status") {
            Some(Command::ExecStatus)
        } else if str_eq(name, "exec.retry") {
            Some(Command::ExecRetry)
        } else if str_eq(name, "exec.skip") {
            Some(Command::ExecSkip)
        } else if str_eq(name, "exec.continue") {
            Some(Command::ExecContinue)
        } else if str_eq(name, "exec.stop") {
            Some(Command::ExecStop)
        } else if str_eq(name, "exec.cancel") {
            Some(Command::ExecCancel)
        } else if str_eq(name, "exec.log") {
            Some(Command::ExecLog)
        } else if str_eq(name, "worktree.list") {
            Some(Command::WorktreeList)
        } else if str_eq(name, "worktree.clean") {
            Some(Command::WorktreeClean)
        } else if str_eq(name, "cleanup.logs") {
            Some(Command::CleanupLogs)
        } else if str_eq(name, "config.show") {
            Some(Command::ConfigShow)
        } else if str_eq(name, "config.set") {
            Some(Command::ConfigSet)
        } else if str_eq(name, "pipeline.start") {
            Some(Command::PipelineStart)
        } else if str_eq(name, "pipeline.status") {
            Some(Command::PipelineStatus)
        } else if str_eq(name, "pipeline.list") {
            Some(Command::PipelineList)
        } else if str_eq(name, "pipeline.cancel") {
            Some(Command::PipelineCancel)
        } else if str_eq(name, "pipeline.log") {
            Some(Command::PipelineLog)
        } else {
            None
        }
    }
}

// ---- machines ----

/// A command under way.
pub enum Job {
    ProjectInit(ProjectInit),
    ProjectList(ProjectList),
    ProjectDelete(ProjectDelete),
    SpecTalk(SpecTalk),
    SpecList(SpecList),
    SpecCommand(SpecCommand),
    PlanTalk(PlanTalk),
    PlanShow(PlanShow),
    WaveCommand(WaveCommand),
    ExecSwitch(ExecSwitch),
    ExecStatus(ExecStatus),
    TaskRetry(TaskRetry),
    TaskSkip(TaskSkip),
    StoryContinue(StoryContinue),
    StoryCancel(StoryCancel),
    ExecStop(ExecStop),
    ExecLog(ExecLog),
    WorktreeList(WorktreeList),
    WorktreeClean(WorktreeClean),
    LogCleanup(LogCleanup),
    ConfigShow(ConfigShow),
    ConfigSet(ConfigSet),
    PipelineStart(PipelineStart),
    PipelineList(PipelineList),
    PipelineQuery(PipelineQuery),
}

/// What a command under way is made of.
pub trait IntoJob: Sized {
    spec fn job(self) -> Job;

    fn into_job(self) -> (r: Job)
        ensures
            r == self.job(),
    ;
}

impl IntoJob for ProjectInit {
    open spec fn job(self) -> Job {
        Job::ProjectInit(self)
    }

    fn into_job(self) -> (r: Job) {
        Job::ProjectInit(self)
    }
}

impl IntoJob for ProjectList {
    open spec fn job(self) -> Job {
        Job::ProjectList(self)
    }

    fn into_job(self) -> (r: Job) {
        Job::ProjectList(self)
    }
}

impl IntoJob for ProjectDelete {
    open spec fn job(self) -> Job {
        Job::ProjectDelete(self)
    }

    fn into_job(self) -> (r: Job) {
        Job::ProjectDelete(self)
    }
}

impl IntoJob for SpecTalk {
    open spec fn job(self) -> Job {
        Job::SpecTalk(self)
    }

    fn into_job(self) -> (r: Job) {
        Job::SpecTalk(self)
    }
}

impl IntoJob for SpecList {
    open spec fn job(self) -> Job {
        Job::SpecList(self)
    }

    fn into_job(self) -> (r: Job) {
        Job::SpecList(self)
    }
}

impl IntoJob for SpecCommand {
    open spec fn job(self) -> Job {
        Job::SpecCommand(self)
    }

    fn into_job(self) -> (r: Job) {
        Job::SpecCommand(self)
    }
}

impl IntoJob for PlanTalk {
    open spec fn job(self) -> Job {
        Job::PlanTalk(self)
    }

    fn into_job(self) -> (r: Job) {
        Job::PlanTalk(self)
    }
}

impl IntoJob for PlanShow {
    open spec fn job(self) -> Job {
        Job::PlanShow(self)
    }

    fn into_job(self) -> (r: Job) {
        Job::PlanShow(self)
    }
}

impl IntoJob for WaveCommand {
    open spec fn job(self) -> Job {
        Job::WaveCommand(self)
    }

    fn into_job(self) -> (r: Job) {
        Job::WaveCommand(self)
    }
}

impl IntoJob for ExecSwitch {
    open spec fn job(self) -> Job {
        Job::ExecSwitch(self)
    }

    fn into_job(self) -> (r: Job) {
        Job::ExecSwitch(self)
    }
}

impl IntoJob for ExecStatus {
    open spec fn job(self) -> Job {
        Job::ExecStatus(self)
    }

    fn into_job(self) -> (r: Job) {
        Job::ExecStatus(self)
    }
}

impl IntoJob for TaskRetry {
    open spec fn job(self) -> Job {
        Job::TaskRetry(self)
    }

    fn into_job(self) -> (r: Job) {
        Job::TaskRetry(self)
    }
}

impl IntoJob for TaskSkip {
    open spec fn job(self) -> Job {
        Job::TaskSkip(self)
    }

    fn into_job(self) -> (r: Job) {
        Job::TaskSkip(self)
    }
}

impl IntoJob for StoryContinue {
    open spec fn job(self) -> Job {
        Job::StoryContinue(self)
    }

    fn into_job(self) -> (r: Job) {
        Job::StoryContinue(self)
    }
}

impl IntoJob for StoryCancel {
    open spec fn job(self) -> Job {
        Job::StoryCancel(self)
    }

    fn into_job(self) -> (r: Job) {
        Job::StoryCancel(self)
    }
}

impl IntoJob for ExecStop {
    open spec fn job(self) -> Job {
        Job::ExecStop(self)
    }

    fn into_job(self) -> (r: Job) {
        Job::ExecStop(self)
    }
}

impl IntoJob for ExecLog {
    open spec fn job(self) -> Job {
        Job::ExecLog(self)
    }

    fn into_job(self) -> (r: Job) {
        Job::ExecLog(self)
    }
}

impl IntoJob for WorktreeList {
    open spec fn job(self) -> Job {
        Job::WorktreeList(self)
    }

    fn into_job(self) -> (r: Job) {
        Job::WorktreeList(self)
    }
}

impl IntoJob for WorktreeClean {
    open spec fn job(self) -> Job {
        Job::WorktreeClean(self)
    }

    fn into_job(self) -> (r: Job) {
        Job::WorktreeClean(self)
    }
}

impl IntoJob for LogCleanup {
    open spec fn job(self) -> Job {
        Job::LogCleanup(self)
    }

    fn into_job(self) -> (r: Job) {
        Job::LogCleanup(self)
    }
}

impl IntoJob for ConfigShow {
    open spec fn job(self) -> Job {
        Job::ConfigShow(self)
    }

    fn into_job(self) -> (r: Job) {
        Job::ConfigShow(self)
    }
}

impl IntoJob for ConfigSet {
    open spec fn job(self) -> Job {
        Job::ConfigSet(self)
    }

    fn into_job(self) -> (r: Job) {
        Job::ConfigSet(self)
    }
}

impl IntoJob for PipelineStart {
    open spec fn job(self) -> Job {
        Job::PipelineStart(self)
    }

    fn into_job(self) -> (r: Job) {
        Job::PipelineStart(self)
    }
}

impl IntoJob for PipelineList {
    open spec fn job(self) -> Job {
        Job::PipelineList(self)
    }

    fn into_job(self) -> (r: Job) {
        Job::PipelineList(self)
    }
}

impl IntoJob for PipelineQuery {
    open spec fn job(self) -> Job {
        Job::PipelineQuery(self)
    }

    fn into_job(self) -> (r: Job) {
        Job::PipelineQuery(self)
    }
}

/// `n` is what follows in `m`, as the same of a command.
pub open spec fn wraps<S: IntoJob>(m: Next<S>, n: Next<Job>) -> bool {
    match m {
        Next::Act(s, action) => n == Next::Act(s.job(), action),
        Next::Reply(r) => n == Next::<Job>::Reply(r),
        Next::End => n is End,
    }
}

fn lift<S: IntoJob>(m: Next<S>) -> (n: Next<Job>)
    ensures
        wraps(m, n),
{
    match m {
        Next::Act(s, action) => Next::Act(s.into_job(), action),
        Next::Reply(r) => Next::Reply(r),
        Next::End => Next::End,
    }
}

impl Job {
    pub open spec fn accepts(self, ev: Event) -> bool {
        match self {
            Job::ProjectInit(s) => s.accepts(ev),
            Job::ProjectList(s) => s.accepts(ev),
            Job::ProjectDelete(s) => s.accepts(ev),
            Job::SpecTalk(s) => s.accepts(ev),
            Job::SpecList(s) => s.accepts(ev),
            Job::SpecCommand(s) => s.accepts(ev),
            Job::PlanTalk(s) => s.accepts(ev),
            Job::PlanShow(s) => s.accepts(ev),
            Job::WaveCommand(s) => s.accepts(ev),
            Job::ExecSwitch(s) => s.accepts(ev),
            Job::ExecStatus(s) => s.accepts(ev),
            Job::TaskRetry(s) => s.accepts(ev),
            Job::TaskSkip(s) => s.accepts(ev),
            Job::StoryContinue(s) => s.accepts(ev),
            Job::StoryCancel(s) => s.accepts(ev),
            Job::ExecStop(s) => s.accepts(ev),
            Job::ExecLog(s) => s.accepts(ev),
            Job::WorktreeList(s) => s.accepts(ev),
            Job::WorktreeClean(s) => s.accepts(ev),
            Job::LogCleanup(s) => s.accepts(ev),
            Job::ConfigShow(s) => s.accepts(ev),
            Job::ConfigSet(s) => s.accepts(ev),
            Job::PipelineStart(s) => s.accepts(ev),
            Job::PipelineList(s) => s.accepts(ev),
            Job::PipelineQuery(s) => s.accepts(ev),
        }
    }

    /// What follows when the action that was asked for has the outcome.
    pub open spec fn follows(self, ev: Event, n: Next<Job>) -> bool {
        match self {
            Job::ProjectInit(s) => exists|m: Next<ProjectInit>|
                s.follows(ev, m) && #[trigger] wraps(m, n),
            Job::ProjectList(s) => exists|m: Next<ProjectList>|
                s.follows(ev, m) && #[trigger] wraps(m, n),
            Job::ProjectDelete(s) => exists|m: Next<ProjectDelete>|
                s.follows(ev, m) && #[trigger] wraps(m, n),
            Job::SpecTalk(s) => exists|m: Next<SpecTalk>|
                s.follows(ev, m) && #[trigger] wraps(m, n),
            Job::SpecList(s) => exists|m: Next<SpecList>|
                s.follows(ev, m) && #[trigger] wraps(m, n),
            Job::SpecCommand(s) => exists|m: Next<SpecCommand>|
                s.follows(ev, m) && #[trigger] wraps(m, n),
            Job::PlanTalk(s) => exists|m: Next<PlanTalk>|
                s.follows(ev, m) && #[trigger] wraps(m, n),
            Job::PlanShow(s) => exists|m: Next<PlanShow>|
                s.follows(ev, m) && #[trigger] wraps(m, n),
            Job::WaveCommand(s) => exists|m: Next<WaveCommand>|
                s.follows(ev, m) && #[trigger] wraps(m, n),
            Job::ExecSwitch(s) => exists|m: Next<ExecSwitch>|
                s.follows(ev, m) && #[trigger] wraps(m, n),
            Job::ExecStatus(s) => exists|m: Next<ExecStatus>|
                s.follows(ev, m) && #[trigger] wraps(m, n),
            Job::TaskRetry(s) => exists|m: Next<TaskRetry>|
                s.follows(ev, m) && #[trigger] wraps(m, n),
            Job::TaskSkip(s) => exists|m: Next<TaskSkip>|
                s.follows(ev, m) && #[trigger] wraps(m, n),
            Job::StoryContinue(s) => exists|m: Next<StoryContinue>|
                s.follows(ev, m) && #[trigger] wraps(m, n),
            Job::StoryCancel(s) => exists|m: Next<StoryCancel>|
                s.follows(ev, m) && #[trigger] wraps(m, n),
            Job::ExecStop(s) => exists|m: Next<ExecStop>|
                s.follows(ev, m) && #[trigger] wraps(m, n),
            Job::ExecLog(s) => exists|m: Next<ExecLog>| s.follows(ev, m) && #[trigger] wraps(m, n),
            Job::WorktreeList(s) => exists|m: Next<WorktreeList>|
                s.follows(ev, m) && #[trigger] wraps(m, n),
            Job::WorktreeClean(s) => exists|m: Next<WorktreeClean>|
                s.follows(ev, m) && #[trigger] wraps(m, n),
            Job::LogCleanup(s) => exists|m: Next<LogCleanup>|
                s.follows(ev, m) && #[trigger] wraps(m, n),
            Job::ConfigShow(s) => exists|m: Next<ConfigShow>|
                s.follows(ev, m) && #[trigger] wraps(m, n),
            Job::ConfigSet(s) => exists|m: Next<ConfigSet>|
                s.follows(ev, m) && #[trigger] wraps(m, n),
            Job::PipelineStart(s) => exists|m: Next<PipelineStart>|
                s.follows(ev, m) && #[trigger] wraps(m, n),
            Job::PipelineList(s) => exists|m: Next<PipelineList>|
                s.follows(ev, m) && #[trigger] wraps(m, n),
            Job::PipelineQuery(s) => exists|m: Next<PipelineQuery>|
                s.follows(ev, m) && #[trigger] wraps(m, n),
        }
    }

    pub fn step(self, ev: Event) -> (n: Next<Job>)
        requires
            self.accepts(ev),
        ensures
            self.follows(ev, n),
            n matches Next::Act(s, a) ==> forall|e: Event| a.answered_by(e) ==> s.accepts(e),
    {
        match self {
            Job::ProjectInit(s) => lift(s.step(ev)),
            Job::ProjectList(s) => lift(s.step(ev)),
            Job::ProjectDelete(s) => lift(s.step(ev)),
            Job::SpecTalk(s) => lift(s.step(ev)),
            Job::SpecList(s) => lift(s.step(ev)),
            Job::SpecCommand(s) => lift(s.step(ev)),
            Job::PlanTalk(s) => lift(s.step(ev)),
            Job::PlanShow(s) => lift(s.step(ev)),
            Job::WaveCommand(s) => lift(s.step(ev)),
            Job::ExecSwitch(s) => lift(s.step(ev)),
            Job::ExecStatus(s) => lift(s.step(ev)),
            Job::TaskRetry(s) => lift(s.step(ev)),
            Job::TaskSkip(s) => lift(s.step(ev)),
            Job::StoryContinue(s) => lift(s.step(ev)),
            Job::StoryCancel(s) => lift(s.step(ev)),
            Job::ExecStop(s) => lift(s.step(ev)),
            Job::ExecLog(s) => lift(s.step(ev)),
            Job::WorktreeList(s) => lift(s.step(ev)),
            Job::WorktreeClean(s) => lift(s.step(ev)),
            Job::LogCleanup(s) => lift(s.step(ev)),
            Job::ConfigShow(s) => lift(s.step(ev)),
            Job::ConfigSet(s) => lift(s.step(ev)),
            Job::PipelineStart(s) => lift(s.step(ev)),
            Job::PipelineList(s) => lift(s.step(ev)),
            Job::PipelineQuery(s) => lift(s.step(ev)),
        }
    }

    /// The request that is answered.
    pub open spec fn id(self) -> String {
        match self {
            Job::ProjectInit(s) => s.job.id,
            Job::ProjectList(s) => s.job.id,
            Job::ProjectDelete(s) => s.job.id,
            Job::SpecTalk(s) => s.job.id,
            Job::SpecList(s) => s.job.id,
            Job::SpecCommand(s) => s.job.id,
            Job::PlanTalk(s) => s.job.id,
            Job::PlanShow(s) => s.job.id,
            Job::WaveCommand(s) => s.job.id,
            Job::ExecSwitch(s) => s.job.id,
            Job::ExecStatus(s) => s.job.id,
            Job::TaskRetry(s) => s.job.id,
            Job::TaskSkip(s) => s.job.id,
            Job::StoryContinue(s) => s.job.id,
            Job::StoryCancel(s) => s.job.id,
            Job::ExecStop(s) => s.job.id,
            Job::ExecLog(s) => s.job.id,
            Job::WorktreeList(s) => s.job.id,
            Job::WorktreeClean(s) => s.job.id,
            Job::LogCleanup(s) => s.job.id,
            Job::ConfigShow(s) => s.job.id,
            Job::ConfigSet(s) => s.job.id,
            Job::PipelineStart(s) => s.job.id,
            Job::PipelineList(s) => s.job.id,
            Job::PipelineQuery(s) => s.job.id,
        }
    }

    /// How the command begins.
    pub open spec fn begins(command: Command, req: Request, n: Next<Job>) -> bool {
        match command {
            Command::ProjectInit => exists|m: Next<ProjectInit>|
                ProjectInit::begins(req, m) && #[trigger] wraps(m, n),
            Command::ProjectList => exists|m: Next<ProjectList>|
                ProjectList::begins(req, m) && #[trigger] wraps(m, n),
            Command::ProjectDelete => exists|m: Next<ProjectDelete>|
                ProjectDelete::begins(req, m) && #[trigger] wraps(m, n),
            Command::SpecNew => exists|m: Next<SpecTalk>|
                SpecTalk::begins_new(req, m) && #[trigger] wraps(m, n),
            Command::SpecAnswer => exists|m: Next<SpecTalk>|
                SpecTalk::begins_answer(req, m) && #[trigger] wraps(m, n),
            Command::SpecList => exists|m: Next<SpecList>|
                SpecList::begins(req, m) && #[trigger] wraps(m, n),
            Command::SpecView => exists|m: Next<SpecCommand>|
                SpecCommand::begins(req, SpecVerb::View, m) && #[trigger] wraps(m, n),
            Command::SpecApprove => exists|m: Next<SpecCommand>|
                SpecCommand::begins(req, SpecVerb::Approve, m) && #[trigger] wraps(m, n),
            Command::SpecReopen => exists|m: Next<SpecCommand>|
                SpecCommand::begins(req, SpecVerb::Reopen, m) && #[trigger] wraps(m, n),
            Command::SpecDelete => exists|m: Next<SpecCommand>|
                SpecCommand::begins(
                    req,
                    SpecVerb::Delete { force: req.params@.truth_field("force"@) == Some(true) },
                    m,
                ) && #[trigger] wraps(m, n),
            Command::SpecDeactivate => exists|m: Next<SpecCommand>|
                SpecCommand::begins(req, SpecVerb::Deactivate, m) && #[trigger] wraps(m, n),
            Command::SpecResume => exists|m: Next<SpecTalk>|
                SpecTalk::begins_resume(req, m) && #[trigger] wraps(m, n),
            Command::PlanGenerate => exists|m: Next<PlanTalk>|
                PlanTalk::begins_generate(req, m) && #[trigger] wraps(m, n),
            Command::PlanShow => exists|m: Next<PlanShow>|
                PlanShow::begins(req, m) && #[trigger] wraps(m, n),
            Command::PlanFeedback => exists|m: Next<PlanTalk>|
                PlanTalk::begins_feedback(req, m) && #[trigger] wraps(m, n),
            Command::PlanApprove => exists|m: Next<WaveCommand>|
                WaveCommand::begins(
                    req,
                    WaveVerb::Approve {
                        auto_execute: crate::sessions::flagged(
                            req.params@,
                            "auto_execute"@,
                            false,
                        ),
                    },
                    m,
                ) && #[trigger] wraps(m, n),
            Command::PlanDiscard => exists|m: Next<WaveCommand>|
                WaveCommand::begins(req, WaveVerb::Discard, m) && #[trigger] wraps(m, n),
            Command::ExecRun => exists|m: Next<ExecSwitch>|
                ExecSwitch::begins(req, true, m) && #[trigger] wraps(m, n),
            Command::ExecPause => exists|m: Next<ExecSwitch>|
                ExecSwitch::begins(req, false, m) && #[trigger] wraps(m, n),
            Command::ExecStatus => exists|m: Next<ExecStatus>|
                ExecStatus::begins(req, m) && #[trigger] wraps(m, n),
            Command::ExecRetry => exists|m: Next<TaskRetry>|
                TaskRetry::begins(req, m) && #[trigger] wraps(m, n),
            Command::ExecSkip => exists|m: Next<TaskSkip>|
                TaskSkip::begins(req, m) && #[trigger] wraps(m, n),
            Command::ExecContinue => exists|m: Next<StoryContinue>|
                StoryContinue::begins(req, m) && #[trigger] wraps(m, n),
            Command::ExecStop => exists|m: Next<ExecStop>|
                ExecStop::begins(req, m) && #[trigger] wraps(m, n),
            Command::ExecCancel => exists|m: Next<StoryCancel>|
                StoryCancel::begins(req, m) && #[trigger] wraps(m, n),
            Command::ExecLog => exists|m: Next<ExecLog>|
                ExecLog::begins(req, m) && #[trigger] wraps(m, n),
            Command::WorktreeList => exists|m: Next<WorktreeList>|
                WorktreeList::begins(req, m) && #[trigger] wraps(m, n),
            Command::WorktreeClean => exists|m: Next<WorktreeClean>|
                WorktreeClean::begins(req, m) && #[trigger] wraps(m, n),
            Command::CleanupLogs => exists|m: Next<LogCleanup>|
                LogCleanup::begins(req, m) && #[trigger] wraps(m, n),
            Command::ConfigShow => exists|m: Next<ConfigShow>|
                ConfigShow::begins(req, m) && #[trigger] wraps(m, n),
            Command::ConfigSet => exists|m: Next<ConfigSet>|
                ConfigSet::begins(req, m) && #[trigger] wraps(m, n),
            Command::PipelineStart => exists|m: Next<PipelineStart>|
                PipelineStart::begins(req, m) && #[trigger] wraps(m, n),
            Command::PipelineStatus => exists|m: Next<PipelineQuery>|
                PipelineQuery::begins(req, QueryVerb::Status, m) && #[trigger] wraps(m, n),
            Command::PipelineList => exists|m: Next<PipelineList>|
                PipelineList::begins(req, m) && #[trigger] wraps(m, n),
            Command::PipelineCancel => exists|m: Next<PipelineQuery>|
                PipelineQuery::begins(req, QueryVerb::Cancel, m) && #[trigger] wraps(m, n),
            Command::PipelineLog => exists|m: Next<PipelineQuery>|
                PipelineQuery::begins_log(req, m) && #[trigger] wraps(m, n),
        }
    }

    /// Begins the command.
    pub fn start(command: Command, req: Request) -> (n: Next<Job>)
        requires
            command == Command::CleanupLogs ==> crate::cleanup::is_taken(req.params@),
        ensures
            Job::begins(command, req, n),
            n matches Next::Act(s, a) ==> forall|e: Event| a.answered_by(e) ==> s.accepts(e),
    {
        match command {
            Command::ProjectInit => lift(ProjectInit::start(req)),
            Command::ProjectList => lift(ProjectList::start(req)),
            Command::ProjectDelete => lift(ProjectDelete::start(req)),
            Command::SpecNew => lift(SpecTalk::start_new(req)),
            Command::SpecAnswer => lift(SpecTalk::start_answer(req)),
            Command::SpecList => lift(SpecList::start(req)),
            Command::SpecView => lift(SpecCommand::start(req, SpecVerb::View)),
            Command::SpecApprove => lift(SpecCommand::start(req, SpecVerb::Approve)),
            Command::SpecReopen => lift(SpecCommand::start(req, SpecVerb::Reopen)),
            Command::SpecDelete => lift(handle_spec_delete(req)),
            Command::SpecDeactivate => lift(SpecCommand::start(req, SpecVerb::Deactivate)),
            Command::SpecResume => lift(SpecTalk::start_resume(req)),
            Command::PlanGenerate => lift(PlanTalk::start_generate(req)),
            Command::PlanShow => lift(PlanShow::start(req)),
            Command::PlanFeedback => lift(PlanTalk::start_feedback(req)),
            Command::PlanApprove => lift(handle_plan_approve(req)),
            Command::PlanDiscard => lift(WaveCommand::start(req, WaveVerb::Discard)),
            Command::ExecRun => lift(ExecSwitch::start(req, true)),
            Command::ExecPause => lift(ExecSwitch::start(req, false)),
            Command::ExecStatus => lift(ExecStatus::start(req)),
            Command::ExecRetry => lift(TaskRetry::start(req)),
            Command::ExecSkip => lift(TaskSkip::start(req)),
            Command::ExecContinue => lift(StoryContinue::start(req)),
            Command::ExecStop => lift(ExecStop::start(req)),
            Command::ExecCancel => lift(StoryCancel::start(req)),
            Command::ExecLog => lift(ExecLog::start(req)),
            Command::WorktreeList => lift(WorktreeList::start(req)),
            Command::WorktreeClean => lift(WorktreeClean::start(req)),
            Command::CleanupLogs => lift(LogCleanup::start(req)),
            Command::ConfigShow => lift(ConfigShow::start(req)),
            Command::ConfigSet => lift(ConfigSet::start(req)),
            Command::PipelineStart => lift(PipelineStart::start(req)),
            Command::PipelineStatus => lift(PipelineQuery::start_status(req)),
            Command::PipelineList => lift(PipelineList::start(req)),
            Command::PipelineCancel => lift(PipelineQuery::start_cancel(req)),
            Command::PipelineLog => lift(PipelineQuery::start_log(req)),
        }
    }
}

// ---- dispatch ----

/// What the handlers share.
pub struct HandlerState {
    /// Path to the database file.
    pub db_path: String,
}

/// Whether a request is taken.
pub open spec fn is_taken(req: Request) -> bool {
    Command::of_name(req.command@) == Some(Command::CleanupLogs) ==> crate::cleanup::is_taken(
        req.params@,
    )
}

/// Whether a request is taken.
pub fn can_dispatch(req: &Request) -> (r: bool)
    ensures
        r == is_taken(*req),
{
    match Command::named(req.command.as_str()) {
        Some(Command::CleanupLogs) => can_take(&req.params),
        _ => true,
    }
}

/// How a request is taken up: a command that is not known is refused.
pub open spec fn dispatched(req: Request, n: Next<Job>) -> bool {
    match Command::of_name(req.command@) {
        Some(command) => Job::begins(command, req, n),
        None => n.fails(req.id, "unknown command: "@ + req.command@),
    }
}

/// Dispatch a request to the machine that carries it out.
pub fn dispatch(req: Request, _state: &HandlerState) -> (n: Next<Job>)
    requires
        is_taken(req),
    ensures
        dispatched(req, n),
        n matches Next::Act(s, a) ==> forall|e: Event| a.answered_by(e) ==> s.accepts(e),
{
    match Command::named(req.command.as_str()) {
        Some(command) => Job::start(command, req),
        None => {
            let message = cat("unknown command: ", req.command.as_str());
            Next::fail(req.id, message.as_str())
        },
    }
}

/// Takes up requests.
pub struct CommandHandler {
    pub state: HandlerState,
}

/// Creates the main command handler that dispatches to specific machines.
pub fn create_handler(state: HandlerState) -> (r: CommandHandler)
    ensures
        r.state == state,
{
    CommandHandler { state }
}

impl CommandHandler {
    /// Whether `n` is how the handler takes the request up.
    pub open spec fn answers(self, req: Request, n: Next<Job>) -> bool {
        call_ensures(dispatch, (req, &self.state), n)
    }

    pub fn handle(&self, req: Request) -> (n: Next<Job>)
        requires
            is_taken(req),
        ensures
            self.answers(req, n),
            dispatched(req, n),
            n matches Next::Act(s, a) ==> forall|e: Event| a.answered_by(e) ==> s.accepts(e),
    {
        dispatch(req, &self.state)
    }
}

// ---- laws ----

/// The handler that is made of a state takes every request up as `dispatch` does under that
/// state, each time that it is asked.
pub proof fn law_the_handler_dispatches(state: HandlerState, h: CommandHandler)
    requires
        call_ensures(create_handler, (state,), h),
    ensures
        h.state == state,
        forall|req: Request, n: Next<Job>|
            #![trigger call_ensures(CommandHandler::handle, (&h, req), n)]
            call_ensures(CommandHandler::handle, (&h, req), n) ==> call_ensures(
                dispatch,
                (req, &state),
                n,
            ) && dispatched(req, n),
{
}

/// Every command is known by its own name.
pub proof fn law_commands_are_told_apart(command: Command)
    ensures
        Command::of_name(command.name()) == Some(command),
{
    reveal_strlit("project.init");
    reveal_strlit("project.list");
    reveal_strlit("project.delete");
    reveal_strlit("spec.new");
    reveal_strlit("spec.answer");
    reveal_strlit("spec.list");
    reveal_strlit("spec.view");
    reveal_strlit("spec.approve");
    reveal_strlit("spec.reopen");
    reveal_strlit("spec.delete");
    reveal_strlit("spec.deactivate");
    reveal_strlit("spec.resume");
    reveal_strlit("plan.generate");
    reveal_strlit("plan.show");
    reveal_strlit("plan.feedback");
    reveal_strlit("plan.approve");
    reveal_strlit("plan.discard");
    reveal_strlit("exec.run");
    reveal_strlit("exec.pause");
    reveal_strlit("exec.status");
    reveal_strlit("exec.retry");
    reveal_strlit("exec.skip");
    reveal_strlit("exec.continue");
    reveal_strlit("exec.stop");
    reveal_strlit("exec.cancel");
    reveal_strlit("exec.log");
    reveal_strlit("worktree.list");
    reveal_strlit("worktree.clean");
    reveal_strlit("cleanup.logs");
    reveal_strlit("config.show");
    reveal_strlit("config.set");
    reveal_strlit("pipeline.start");
    reveal_strlit("pipeline.status");
    reveal_strlit("pipeline.list");
    reveal_strlit("pipeline.cancel");
    reveal_strlit("pipeline.log");
    assert("project.init"@.len() == 12);
    assert("project.list"@.len() == 12);
    assert("project.delete"@.len() == 14);
    assert("spec.new"@.len() == 8);
    assert("spec.answer"@.len() == 11);
    assert("spec.list"@.len() == 9);
    assert("spec.view"@.len() == 9);
    assert("spec.approve"@.len() == 12);
    assert("spec.reopen"@.len() == 11);
    assert("spec.delete"@.len() == 11);
    assert("spec.deactivate"@.len() == 15);
    assert("spec.resume"@.len() == 11);
    assert("plan.generate"@.len() == 13);
    assert("plan.show"@.len() == 9);
    assert("plan.feedback"@.len() == 13);
    assert("plan.approve"@.len() == 12);
    assert("plan.discard"@.len() == 12);
    assert("exec.run"@.len() == 8);
    assert("exec.pause"@.len() == 10);
    assert("exec.status"@.len() == 11);
    assert("exec.retry"@.len() == 10);
    assert("exec.skip"@.len() == 9);
    assert("exec.continue"@.len() == 13);
    assert("exec.stop"@.len() == 9);
    assert("exec.cancel"@.len() == 11);
    assert("exec.log"@.len() == 8);
    assert("worktree.list"@.len() == 13);
    assert("worktree.clean"@.len() == 14);
    assert("cleanup.logs"@.len() == 12);
    assert("config.show"@.len() == 11);
    assert("config.set"@.len() == 10);
    assert("pipeline.start"@.len() == 14);
    assert("pipeline.status"@.len() == 15);
    assert("pipeline.list"@.len() == 13);
    assert("pipeline.cancel"@.len() == 15);
    assert("pipeline.log"@.len() == 12);
    assert("project.init"@[0] == 'p');
    assert("project.init"@[1] == 'r');
    assert("project.init"@[8] == 'i');
    assert("project.list"@[0] == 'p');
    assert("project.list"@[1] == 'r');
    assert("project.list"@[8] == 'l');
    assert("project.delete"@[0] == 'p');
    assert("project.delete"@[1] == 'r');
    assert("spec.new"@[0] == 's');
    assert("spec.answer"@[0] == 's');
    assert("spec.answer"@[5] == 'a');
    assert("spec.list"@[0] == 's');
    assert("spec.list"@[5] == 'l');
    assert("spec.view"@[0] == 's');
    assert("spec.view"@[5] == 'v');
    assert("spec.approve"@[0] == 's');
    assert("spec.reopen"@[0] == 's');
    assert("spec.reopen"@[5] == 'r');
    assert("spec.reopen"@[7] == 'o');
    assert("spec.delete"@[0] == 's');
    assert("spec.delete"@[5] == 'd');
    assert("spec.deactivate"@[0] == 's');
    assert("spec.resume"@[0] == 's');
    assert("spec.resume"@[5] == 'r');
    assert("spec.resume"@[7] == 's');
    assert("plan.generate"@[0] == 'p');
    assert("plan.generate"@[1] == 'l');
    assert("plan.generate"@[5] == 'g');
    assert("plan.show"@[0] == 'p');
    assert("plan.feedback"@[0] == 'p');
    assert("plan.feedback"@[1] == 'l');
    assert("plan.feedback"@[5] == 'f');
    assert("plan.approve"@[0] == 'p');
    assert("plan.approve"@[1] == 'l');
    assert("plan.approve"@[5] == 'a');
    assert("plan.discard"@[0] == 'p');
    assert("plan.discard"@[1] == 'l');
    assert("plan.discard"@[5] == 'd');
    assert("exec.run"@[0] == 'e');
    assert("exec.run"@[5] == 'r');
    assert("exec.pause"@[0] == 'e');
    assert("exec.pause"@[5] == 'p');
    assert("exec.status"@[0] == 'e');
    assert("exec.status"@[5] == 's');
    assert("exec.retry"@[0] == 'e');
    assert("exec.retry"@[5] == 'r');
    assert("exec.skip"@[0] == 'e');
    assert("exec.skip"@[6] == 'k');
    assert("exec.continue"@[0] == 'e');
    assert("exec.stop"@[0] == 'e');
    assert("exec.stop"@[6] == 't');
    assert("exec.cancel"@[0] == 'e');
    assert("exec.cancel"@[5] == 'c');
    assert("exec.log"@[0] == 'e');
    assert("exec.log"@[5] == 'l');
    assert("worktree.list"@[0] == 'w');
    assert("worktree.clean"@[0] == 'w');
    assert("cleanup.logs"@[0] == 'c');
    assert("config.show"@[0] == 'c');
    assert("config.set"@[0] == 'c');
    assert("pipeline.start"@[0] == 'p');
    assert("pipeline.start"@[1] == 'i');
    assert("pipeline.status"@[0] == 'p');
    assert("pipeline.status"@[9] == 's');
    assert("pipeline.list"@[0] == 'p');
    assert("pipeline.list"@[1] == 'i');
    assert("pipeline.cancel"@[0] == 'p');
    assert("pipeline.cancel"@[9] == 'c');
    assert("pipeline.log"@[0] == 'p');
    assert("pipeline.log"@[1] == 'i');
}

} // verus!
