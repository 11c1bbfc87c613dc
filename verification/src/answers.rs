//! What holds of the answers to every request.
use vstd::prelude::*;
use crate::cleanup::LogCleanup;
use crate::config::{ConfigSet, ConfigShow};
use crate::decompose::PlanTalk;
use crate::dispatch::{Command, Job};
use crate::effects::{Action, Event, Next, Run};
use crate::execution::ExecSwitch;
use crate::logs::ExecLog;
use crate::pipeline::PipelineStart;
use crate::pipeline_queries::{PipelineList, PipelineQuery, QueryVerb};
use crate::plans::{PlanShow, WaveCommand, WaveVerb};
use crate::projects::{ProjectDelete, ProjectInit, ProjectList};
use crate::protocol::Request;
use crate::sessions::SpecTalk;
use crate::specs::{SpecCommand, SpecList, SpecVerb};
use crate::status::ExecStatus;
use crate::stop::ExecStop;
use crate::stories::{StoryCancel, StoryContinue};
use crate::tasks::{TaskRetry, TaskSkip};
use crate::worktrees::{WorktreeClean, WorktreeList};

verus! {

/// Whether what is sent, if anything is, is an answer to the request.
pub open spec fn sent_to(action: Action, id: String) -> bool {
    action matches Action::Send { line } ==> line.id == id
}

/// Whether the next step is one in the answer to the request.
pub open spec fn answers(n: Next<Job>, id: String) -> bool {
    match n {
        Next::Act(job, action) => job.id() == id && sent_to(action, id),
        Next::Reply(r) => r.id == id,
        Next::End => true,
    }
}

proof fn id_of_project_init(s: ProjectInit, ev: Event, n: Next<ProjectInit>)
    requires
        s.accepts(ev),
        s.follows(ev, n),
    ensures
        match n {
            Next::Act(t, a) => t.job.id == s.job.id && sent_to(a, s.job.id),
            Next::Reply(r) => r.id == s.job.id,
            Next::End => true,
        },
{
}

proof fn id_of_project_list(s: ProjectList, ev: Event, n: Next<ProjectList>)
    requires
        s.accepts(ev),
        s.follows(ev, n),
    ensures
        match n {
            Next::Act(t, a) => t.job.id == s.job.id && sent_to(a, s.job.id),
            Next::Reply(r) => r.id == s.job.id,
            Next::End => true,
        },
{
}

proof fn id_of_project_delete(s: ProjectDelete, ev: Event, n: Next<ProjectDelete>)
    requires
        s.accepts(ev),
        s.follows(ev, n),
    ensures
        match n {
            Next::Act(t, a) => t.job.id == s.job.id && sent_to(a, s.job.id),
            Next::Reply(r) => r.id == s.job.id,
            Next::End => true,
        },
{
}

proof fn id_of_spec_talk(s: SpecTalk, ev: Event, n: Next<SpecTalk>)
    requires
        s.accepts(ev),
        s.follows(ev, n),
    ensures
        match n {
            Next::Act(t, a) => t.job.id == s.job.id && sent_to(a, s.job.id),
            Next::Reply(r) => r.id == s.job.id,
            Next::End => true,
        },
{
}

proof fn id_of_spec_list(s: SpecList, ev: Event, n: Next<SpecList>)
    requires
        s.accepts(ev),
        s.follows(ev, n),
    ensures
        match n {
            Next::Act(t, a) => t.job.id == s.job.id && sent_to(a, s.job.id),
            Next::Reply(r) => r.id == s.job.id,
            Next::End => true,
        },
{
}

proof fn id_of_spec_command(s: SpecCommand, ev: Event, n: Next<SpecCommand>)
    requires
        s.accepts(ev),
        s.follows(ev, n),
    ensures
        match n {
            Next::Act(t, a) => t.job.id == s.job.id && sent_to(a, s.job.id),
            Next::Reply(r) => r.id == s.job.id,
            Next::End => true,
        },
{
}

proof fn id_of_plan_talk(s: PlanTalk, ev: Event, n: Next<PlanTalk>)
    requires
        s.accepts(ev),
        s.follows(ev, n),
    ensures
        match n {
            Next::Act(t, a) => t.job.id == s.job.id && sent_to(a, s.job.id),
            Next::Reply(r) => r.id == s.job.id,
            Next::End => true,
        },
{
}

proof fn id_of_plan_show(s: PlanShow, ev: Event, n: Next<PlanShow>)
    requires
        s.accepts(ev),
        s.follows(ev, n),
    ensures
        match n {
            Next::Act(t, a) => t.job.id == s.job.id && sent_to(a, s.job.id),
            Next::Reply(r) => r.id == s.job.id,
            Next::End => true,
        },
{
}

proof fn id_of_wave_command(s: WaveCommand, ev: Event, n: Next<WaveCommand>)
    requires
        s.accepts(ev),
        s.follows(ev, n),
    ensures
        match n {
            Next::Act(t, a) => t.job.id == s.job.id && sent_to(a, s.job.id),
            Next::Reply(r) => r.id == s.job.id,
            Next::End => true,
        },
{
}

proof fn id_of_exec_switch(s: ExecSwitch, ev: Event, n: Next<ExecSwitch>)
    requires
        s.accepts(ev),
        s.follows(ev, n),
    ensures
        match n {
            Next::Act(t, a) => t.job.id == s.job.id && sent_to(a, s.job.id),
            Next::Reply(r) => r.id == s.job.id,
            Next::End => true,
        },
{
}

proof fn id_of_exec_status(s: ExecStatus, ev: Event, n: Next<ExecStatus>)
    requires
        s.accepts(ev),
        s.follows(ev, n),
    ensures
        match n {
            Next::Act(t, a) => t.job.id == s.job.id && sent_to(a, s.job.id),
            Next::Reply(r) => r.id == s.job.id,
            Next::End => true,
        },
{
}

proof fn id_of_task_retry(s: TaskRetry, ev: Event, n: Next<TaskRetry>)
    requires
        s.accepts(ev),
        s.follows(ev, n),
    ensures
        match n {
            Next::Act(t, a) => t.job.id == s.job.id && sent_to(a, s.job.id),
            Next::Reply(r) => r.id == s.job.id,
            Next::End => true,
        },
{
}

proof fn id_of_task_skip(s: TaskSkip, ev: Event, n: Next<TaskSkip>)
    requires
        s.accepts(ev),
        s.follows(ev, n),
    ensures
        match n {
            Next::Act(t, a) => t.job.id == s.job.id && sent_to(a, s.job.id),
            Next::Reply(r) => r.id == s.job.id,
            Next::End => true,
        },
{
}

proof fn id_of_story_continue(s: StoryContinue, ev: Event, n: Next<StoryContinue>)
    requires
        s.accepts(ev),
        s.follows(ev, n),
    ensures
        match n {
            Next::Act(t, a) => t.job.id == s.job.id && sent_to(a, s.job.id),
            Next::Reply(r) => r.id == s.job.id,
            Next::End => true,
        },
{
}

proof fn id_of_story_cancel(s: StoryCancel, ev: Event, n: Next<StoryCancel>)
    requires
        s.accepts(ev),
        s.follows(ev, n),
    ensures
        match n {
            Next::Act(t, a) => t.job.id == s.job.id && sent_to(a, s.job.id),
            Next::Reply(r) => r.id == s.job.id,
            Next::End => true,
        },
{
}

proof fn id_of_exec_stop(s: ExecStop, ev: Event, n: Next<ExecStop>)
    requires
        s.accepts(ev),
        s.follows(ev, n),
    ensures
        match n {
            Next::Act(t, a) => t.job.id == s.job.id && sent_to(a, s.job.id),
            Next::Reply(r) => r.id == s.job.id,
            Next::End => true,
        },
{
}

proof fn id_of_exec_log(s: ExecLog, ev: Event, n: Next<ExecLog>)
    requires
        s.accepts(ev),
        s.follows(ev, n),
    ensures
        match n {
            Next::Act(t, a) => t.job.id == s.job.id && sent_to(a, s.job.id),
            Next::Reply(r) => r.id == s.job.id,
            Next::End => true,
        },
{
}

proof fn id_of_worktree_list(s: WorktreeList, ev: Event, n: Next<WorktreeList>)
    requires
        s.accepts(ev),
        s.follows(ev, n),
    ensures
        match n {
            Next::Act(t, a) => t.job.id == s.job.id && sent_to(a, s.job.id),
            Next::Reply(r) => r.id == s.job.id,
            Next::End => true,
        },
{
}

proof fn id_of_worktree_clean(s: WorktreeClean, ev: Event, n: Next<WorktreeClean>)
    requires
        s.accepts(ev),
        s.follows(ev, n),
    ensures
        match n {
            Next::Act(t, a) => t.job.id == s.job.id && sent_to(a, s.job.id),
            Next::Reply(r) => r.id == s.job.id,
            Next::End => true,
        },
{
}

proof fn id_of_log_cleanup(s: LogCleanup, ev: Event, n: Next<LogCleanup>)
    requires
        s.accepts(ev),
        s.follows(ev, n),
    ensures
        match n {
            Next::Act(t, a) => t.job.id == s.job.id && sent_to(a, s.job.id),
            Next::Reply(r) => r.id == s.job.id,
            Next::End => true,
        },
{
}

proof fn id_of_config_show(s: ConfigShow, ev: Event, n: Next<ConfigShow>)
    requires
        s.accepts(ev),
        s.follows(ev, n),
    ensures
        match n {
            Next::Act(t, a) => t.job.id == s.job.id && sent_to(a, s.job.id),
            Next::Reply(r) => r.id == s.job.id,
            Next::End => true,
        },
{
}

proof fn id_of_config_set(s: ConfigSet, ev: Event, n: Next<ConfigSet>)
    requires
        s.accepts(ev),
        s.follows(ev, n),
    ensures
        match n {
            Next::Act(t, a) => t.job.id == s.job.id && sent_to(a, s.job.id),
            Next::Reply(r) => r.id == s.job.id,
            Next::End => true,
        },
{
}

proof fn id_of_pipeline_start(s: PipelineStart, ev: Event, n: Next<PipelineStart>)
    requires
        s.accepts(ev),
        s.follows(ev, n),
    ensures
        match n {
            Next::Act(t, a) => t.job.id == s.job.id && sent_to(a, s.job.id),
            Next::Reply(r) => r.id == s.job.id,
            Next::End => true,
        },
{
}

proof fn id_of_pipeline_list(s: PipelineList, ev: Event, n: Next<PipelineList>)
    requires
        s.accepts(ev),
        s.follows(ev, n),
    ensures
        match n {
            Next::Act(t, a) => t.job.id == s.job.id && sent_to(a, s.job.id),
            Next::Reply(r) => r.id == s.job.id,
            Next::End => true,
        },
{
}

proof fn id_of_pipeline_query(s: PipelineQuery, ev: Event, n: Next<PipelineQuery>)
    requires
        s.accepts(ev),
        s.follows(ev, n),
    ensures
        match n {
            Next::Act(t, a) => t.job.id == s.job.id && sent_to(a, s.job.id),
            Next::Reply(r) => r.id == s.job.id,
            Next::End => true,
        },
{
}

/// Every answer, and every line of a streamed answer, carries the identifier of the request
/// that it answers.
pub proof fn law_answers_carry_the_id(job: Job, ev: Event, n: Next<Job>)
    requires
        job.accepts(ev),
        job.follows(ev, n),
    ensures
        answers(n, job.id()),
{
    match job {
        Job::ProjectInit(s) => {
            let m = choose|m: Next<ProjectInit>|
                s.follows(ev, m) && #[trigger] crate::dispatch::wraps(m, n);
            id_of_project_init(s, ev, m);
        },
        Job::ProjectList(s) => {
            let m = choose|m: Next<ProjectList>|
                s.follows(ev, m) && #[trigger] crate::dispatch::wraps(m, n);
            id_of_project_list(s, ev, m);
        },
        Job::ProjectDelete(s) => {
            let m = choose|m: Next<ProjectDelete>|
                s.follows(ev, m) && #[trigger] crate::dispatch::wraps(m, n);
            id_of_project_delete(s, ev, m);
        },
        Job::SpecTalk(s) => {
            let m = choose|m: Next<SpecTalk>|
                s.follows(ev, m) && #[trigger] crate::dispatch::wraps(m, n);
            id_of_spec_talk(s, ev, m);
        },
        Job::SpecList(s) => {
            let m = choose|m: Next<SpecList>|
                s.follows(ev, m) && #[trigger] crate::dispatch::wraps(m, n);
            id_of_spec_list(s, ev, m);
        },
        Job::SpecCommand(s) => {
            let m = choose|m: Next<SpecCommand>|
                s.follows(ev, m) && #[trigger] crate::dispatch::wraps(m, n);
            id_of_spec_command(s, ev, m);
        },
        Job::PlanTalk(s) => {
            let m = choose|m: Next<PlanTalk>|
                s.follows(ev, m) && #[trigger] crate::dispatch::wraps(m, n);
            id_of_plan_talk(s, ev, m);
        },
        Job::PlanShow(s) => {
            let m = choose|m: Next<PlanShow>|
                s.follows(ev, m) && #[trigger] crate::dispatch::wraps(m, n);
            id_of_plan_show(s, ev, m);
        },
        Job::WaveCommand(s) => {
            let m = choose|m: Next<WaveCommand>|
                s.follows(ev, m) && #[trigger] crate::dispatch::wraps(m, n);
            id_of_wave_command(s, ev, m);
        },
        Job::ExecSwitch(s) => {
            let m = choose|m: Next<ExecSwitch>|
                s.follows(ev, m) && #[trigger] crate::dispatch::wraps(m, n);
            id_of_exec_switch(s, ev, m);
        },
        Job::ExecStatus(s) => {
            let m = choose|m: Next<ExecStatus>|
                s.follows(ev, m) && #[trigger] crate::dispatch::wraps(m, n);
            id_of_exec_status(s, ev, m);
        },
        Job::TaskRetry(s) => {
            let m = choose|m: Next<TaskRetry>|
                s.follows(ev, m) && #[trigger] crate::dispatch::wraps(m, n);
            id_of_task_retry(s, ev, m);
        },
        Job::TaskSkip(s) => {
            let m = choose|m: Next<TaskSkip>|
                s.follows(ev, m) && #[trigger] crate::dispatch::wraps(m, n);
            id_of_task_skip(s, ev, m);
        },
        Job::StoryContinue(s) => {
            let m = choose|m: Next<StoryContinue>|
                s.follows(ev, m) && #[trigger] crate::dispatch::wraps(m, n);
            id_of_story_continue(s, ev, m);
        },
        Job::StoryCancel(s) => {
            let m = choose|m: Next<StoryCancel>|
                s.follows(ev, m) && #[trigger] crate::dispatch::wraps(m, n);
            id_of_story_cancel(s, ev, m);
        },
        Job::ExecStop(s) => {
            let m = choose|m: Next<ExecStop>|
                s.follows(ev, m) && #[trigger] crate::dispatch::wraps(m, n);
            id_of_exec_stop(s, ev, m);
        },
        Job::ExecLog(s) => {
            let m = choose|m: Next<ExecLog>|
                s.follows(ev, m) && #[trigger] crate::dispatch::wraps(m, n);
            id_of_exec_log(s, ev, m);
        },
        Job::WorktreeList(s) => {
            let m = choose|m: Next<WorktreeList>|
                s.follows(ev, m) && #[trigger] crate::dispatch::wraps(m, n);
            id_of_worktree_list(s, ev, m);
        },
        Job::WorktreeClean(s) => {
            let m = choose|m: Next<WorktreeClean>|
                s.follows(ev, m) && #[trigger] crate::dispatch::wraps(m, n);
            id_of_worktree_clean(s, ev, m);
        },
        Job::LogCleanup(s) => {
            let m = choose|m: Next<LogCleanup>|
                s.follows(ev, m) && #[trigger] crate::dispatch::wraps(m, n);
            id_of_log_cleanup(s, ev, m);
        },
        Job::ConfigShow(s) => {
            let m = choose|m: Next<ConfigShow>|
                s.follows(ev, m) && #[trigger] crate::dispatch::wraps(m, n);
            id_of_config_show(s, ev, m);
        },
        Job::ConfigSet(s) => {
            let m = choose|m: Next<ConfigSet>|
                s.follows(ev, m) && #[trigger] crate::dispatch::wraps(m, n);
            id_of_config_set(s, ev, m);
        },
        Job::PipelineStart(s) => {
            let m = choose|m: Next<PipelineStart>|
                s.follows(ev, m) && #[trigger] crate::dispatch::wraps(m, n);
            id_of_pipeline_start(s, ev, m);
        },
        Job::PipelineList(s) => {
            let m = choose|m: Next<PipelineList>|
                s.follows(ev, m) && #[trigger] crate::dispatch::wraps(m, n);
            id_of_pipeline_list(s, ev, m);
        },
        Job::PipelineQuery(s) => {
            let m = choose|m: Next<PipelineQuery>|
                s.follows(ev, m) && #[trigger] crate::dispatch::wraps(m, n);
            id_of_pipeline_query(s, ev, m);
        },
    }
}

/// A request is answered under its own identifier from the beginning.
pub proof fn law_requests_are_answered(req: Request, n: Next<Job>)
    requires
        crate::dispatch::dispatched(req, n),
    ensures
        answers(n, req.id),
        n !is End,
{
    match Command::of_name(req.command@) {
        Some(command) => begun(command, req, n),
        None => {},
    }
}

/// Whether a machine is begun in the answer to the request.
spec fn set_out<J, P>(m: Next<Run<J, P>>, id: String, of: spec_fn(J) -> String) -> bool {
    match m {
        Next::Act(t, a) => of(t.job) == id && sent_to(a, id),
        Next::Reply(r) => r.id == id,
        Next::End => false,
    }
}

proof fn begun(command: Command, req: Request, n: Next<Job>)
    requires
        Job::begins(command, req, n),
    ensures
        answers(n, req.id),
        n !is End,
{
    match command {
        Command::ProjectInit => {
            let m = choose|m: Next<ProjectInit>|
                ProjectInit::begins(req, m) && #[trigger] crate::dispatch::wraps(m, n);
            assert(set_out(m, req.id, |j: crate::projects::InitJob| j.id));
        },
        Command::ProjectList => {
            let m = choose|m: Next<ProjectList>|
                ProjectList::begins(req, m) && #[trigger] crate::dispatch::wraps(m, n);
            assert(set_out(m, req.id, |j: crate::projects::ListJob| j.id));
        },
        Command::ProjectDelete => {
            let m = choose|m: Next<ProjectDelete>|
                ProjectDelete::begins(req, m) && #[trigger] crate::dispatch::wraps(m, n);
            assert(set_out(m, req.id, |j: crate::projects::DeleteJob| j.id));
        },
        Command::SpecNew => {
            let m = choose|m: Next<SpecTalk>|
                SpecTalk::begins_new(req, m) && #[trigger] crate::dispatch::wraps(m, n);
            assert(set_out(m, req.id, |j: crate::sessions::TalkJob| j.id));
        },
        Command::SpecAnswer => {
            let m = choose|m: Next<SpecTalk>|
                SpecTalk::begins_answer(req, m) && #[trigger] crate::dispatch::wraps(m, n);
            assert(set_out(m, req.id, |j: crate::sessions::TalkJob| j.id));
        },
        Command::SpecList => {
            let m = choose|m: Next<SpecList>|
                SpecList::begins(req, m) && #[trigger] crate::dispatch::wraps(m, n);
            assert(set_out(m, req.id, |j: crate::specs::SpecListJob| j.id));
        },
        Command::SpecView => {
            let m = choose|m: Next<SpecCommand>|
                SpecCommand::begins(req, SpecVerb::View, m)
                    && #[trigger] crate::dispatch::wraps(m, n);
            assert(set_out(m, req.id, |j: crate::specs::SpecJob| j.id));
        },
        Command::SpecApprove => {
            let m = choose|m: Next<SpecCommand>|
                SpecCommand::begins(req, SpecVerb::Approve, m)
                    && #[trigger] crate::dispatch::wraps(m, n);
            assert(set_out(m, req.id, |j: crate::specs::SpecJob| j.id));
        },
        Command::SpecReopen => {
            let m = choose|m: Next<SpecCommand>|
                SpecCommand::begins(req, SpecVerb::Reopen, m)
                    && #[trigger] crate::dispatch::wraps(m, n);
            assert(set_out(m, req.id, |j: crate::specs::SpecJob| j.id));
        },
        Command::SpecDelete => {
            let m = choose|m: Next<SpecCommand>|
                SpecCommand::begins(
                    req,
                    SpecVerb::Delete { force: req.params@.truth_field("force"@) == Some(true) },
                    m,
                ) && #[trigger] crate::dispatch::wraps(m, n);
            assert(set_out(m, req.id, |j: crate::specs::SpecJob| j.id));
        },
        Command::SpecDeactivate => {
            let m = choose|m: Next<SpecCommand>|
                SpecCommand::begins(req, SpecVerb::Deactivate, m)
                    && #[trigger] crate::dispatch::wraps(m, n);
            assert(set_out(m, req.id, |j: crate::specs::SpecJob| j.id));
        },
        Command::SpecResume => {
            let m = choose|m: Next<SpecTalk>|
                SpecTalk::begins_resume(req, m) && #[trigger] crate::dispatch::wraps(m, n);
            assert(set_out(m, req.id, |j: crate::sessions::TalkJob| j.id));
        },
        Command::PlanGenerate => {
            let m = choose|m: Next<PlanTalk>|
                PlanTalk::begins_generate(req, m) && #[trigger] crate::dispatch::wraps(m, n);
            assert(set_out(m, req.id, |j: crate::decompose::PlanJob| j.id));
        },
        Command::PlanShow => {
            let m = choose|m: Next<PlanShow>|
                PlanShow::begins(req, m) && #[trigger] crate::dispatch::wraps(m, n);
            assert(set_out(m, req.id, |j: crate::plans::ShowJob| j.id));
        },
        Command::PlanFeedback => {
            let m = choose|m: Next<PlanTalk>|
                PlanTalk::begins_feedback(req, m) && #[trigger] crate::dispatch::wraps(m, n);
            assert(set_out(m, req.id, |j: crate::decompose::PlanJob| j.id));
        },
        Command::PlanApprove => {
            let m = choose|m: Next<WaveCommand>|
                WaveCommand::begins(
                    req,
                    WaveVerb::Approve {
                        auto_execute: crate::sessions::flagged(
                            req.params@,
                            "auto_execute"@,
                            false,
                        ),
                    },
                    m,
                ) && #[trigger] crate::dispatch::wraps(m, n);
            assert(set_out(m, req.id, |j: crate::plans::WaveJob| j.id));
        },
        Command::PlanDiscard => {
            let m = choose|m: Next<WaveCommand>|
                WaveCommand::begins(req, WaveVerb::Discard, m)
                    && #[trigger] crate::dispatch::wraps(m, n);
            assert(set_out(m, req.id, |j: crate::plans::WaveJob| j.id));
        },
        Command::ExecRun => {
            let m = choose|m: Next<ExecSwitch>|
                ExecSwitch::begins(req, true, m) && #[trigger] crate::dispatch::wraps(m, n);
            assert(set_out(m, req.id, |j: crate::execution::SwitchJob| j.id));
        },
        Command::ExecPause => {
            let m = choose|m: Next<ExecSwitch>|
                ExecSwitch::begins(req, false, m) && #[trigger] crate::dispatch::wraps(m, n);
            assert(set_out(m, req.id, |j: crate::execution::SwitchJob| j.id));
        },
        Command::ExecStatus => {
            let m = choose|m: Next<ExecStatus>|
                ExecStatus::begins(req, m) && #[trigger] crate::dispatch::wraps(m, n);
            assert(set_out(m, req.id, |j: crate::status::StatusJob| j.id));
        },
        Command::ExecRetry => {
            let m = choose|m: Next<TaskRetry>|
                TaskRetry::begins(req, m) && #[trigger] crate::dispatch::wraps(m, n);
            assert(set_out(m, req.id, |j: crate::tasks::TaskJob| j.id));
        },
        Command::ExecSkip => {
            let m = choose|m: Next<TaskSkip>|
                TaskSkip::begins(req, m) && #[trigger] crate::dispatch::wraps(m, n);
            assert(set_out(m, req.id, |j: crate::tasks::TaskJob| j.id));
        },
        Command::ExecContinue => {
            let m = choose|m: Next<StoryContinue>|
                StoryContinue::begins(req, m) && #[trigger] crate::dispatch::wraps(m, n);
            assert(set_out(m, req.id, |j: crate::stories::ContinueJob| j.id));
        },
        Command::ExecStop => {
            let m = choose|m: Next<ExecStop>|
                ExecStop::begins(req, m) && #[trigger] crate::dispatch::wraps(m, n);
            assert(set_out(m, req.id, |j: crate::stop::StopJob| j.id));
        },
        Command::ExecCancel => {
            let m = choose|m: Next<StoryCancel>|
                StoryCancel::begins(req, m) && #[trigger] crate::dispatch::wraps(m, n);
            assert(set_out(m, req.id, |j: crate::stories::CancelJob| j.id));
        },
        Command::ExecLog => {
            let m = choose|m: Next<ExecLog>|
                ExecLog::begins(req, m) && #[trigger] crate::dispatch::wraps(m, n);
            assert(set_out(m, req.id, |j: crate::logs::LogJob| j.id));
        },
        Command::WorktreeList => {
            let m = choose|m: Next<WorktreeList>|
                WorktreeList::begins(req, m) && #[trigger] crate::dispatch::wraps(m, n);
            assert(set_out(m, req.id, |j: crate::worktrees::ListJob| j.id));
        },
        Command::WorktreeClean => {
            let m = choose|m: Next<WorktreeClean>|
                WorktreeClean::begins(req, m) && #[trigger] crate::dispatch::wraps(m, n);
            assert(set_out(m, req.id, |j: crate::worktrees::CleanJob| j.id));
        },
        Command::CleanupLogs => {
            let m = choose|m: Next<LogCleanup>|
                LogCleanup::begins(req, m) && #[trigger] crate::dispatch::wraps(m, n);
            assert(set_out(m, req.id, |j: crate::cleanup::CleanupJob| j.id));
        },
        Command::ConfigShow => {
            let m = choose|m: Next<ConfigShow>|
                ConfigShow::begins(req, m) && #[trigger] crate::dispatch::wraps(m, n);
            assert(set_out(m, req.id, |j: crate::config::ShowJob| j.id));
        },
        Command::ConfigSet => {
            let m = choose|m: Next<ConfigSet>|
                ConfigSet::begins(req, m) && #[trigger] crate::dispatch::wraps(m, n);
            assert(set_out(m, req.id, |j: crate::config::SetJob| j.id));
        },
        Command::PipelineStart => {
            let m = choose|m: Next<PipelineStart>|
                PipelineStart::begins(req, m) && #[trigger] crate::dispatch::wraps(m, n);
            assert(set_out(m, req.id, |j: crate::pipeline::PipelineJob| j.id));
        },
        Command::PipelineStatus => {
            let m = choose|m: Next<PipelineQuery>|
                PipelineQuery::begins(req, QueryVerb::Status, m)
                    && #[trigger] crate::dispatch::wraps(m, n);
            assert(set_out(m, req.id, |j: crate::pipeline_queries::QueryJob| j.id));
        },
        Command::PipelineList => {
            let m = choose|m: Next<PipelineList>|
                PipelineList::begins(req, m) && #[trigger] crate::dispatch::wraps(m, n);
            assert(set_out(m, req.id, |j: crate::pipeline_queries::RunsJob| j.id));
        },
        Command::PipelineCancel => {
            let m = choose|m: Next<PipelineQuery>|
                PipelineQuery::begins(req, QueryVerb::Cancel, m)
                    && #[trigger] crate::dispatch::wraps(m, n);
            assert(set_out(m, req.id, |j: crate::pipeline_queries::QueryJob| j.id));
        },
        Command::PipelineLog => {
            let m = choose|m: Next<PipelineQuery>|
                PipelineQuery::begins_log(req, m) && #[trigger] crate::dispatch::wraps(m, n);
            assert(set_out(m, req.id, |j: crate::pipeline_queries::QueryJob| j.id));
        },
    }
}

/// A command that is not known is refused by its name.
pub proof fn law_unknown_commands_are_refused(req: Request, n: Next<Job>)
    requires
        crate::dispatch::dispatched(req, n),
        forall|c: Command| #[trigger] c.name() != req.command@,
    ensures
        n.fails(req.id, "unknown command: "@ + req.command@),
{
    match Command::of_name(req.command@) {
        Some(command) => {
            crate::dispatch::law_commands_are_told_apart(command);
            assert(command.name() == req.command@);
        },
        None => {},
    }
}

// ---- streamed answers ----

/// Whether the answer of the machine is streamed from here on.
pub open spec fn streams_spec_talk(s: SpecTalk) -> bool {
    ||| s.at is Open
    ||| s.at is First
    ||| s.at is Spawn
    ||| s.at is SpawnFailed
    ||| s.at is GiveUp
    ||| s.at is Listen
    ||| s.at is Show
    ||| s.at is Broken
    ||| s.at is Session
    ||| s.at is Exit
    ||| s.at is Written
    ||| s.at is OpenDb
    ||| s.at is Existing
    ||| s.at is Store
    ||| s.at is Last
}

/// Whether the answer of the machine is streamed from here on.
pub open spec fn streams_plan_talk(s: PlanTalk) -> bool {
    ||| s.at is Open
    ||| s.at is First
    ||| s.at is Spawn
    ||| s.at is Listen
    ||| s.at is Show
    ||| s.at is Broken
    ||| s.at is ClaudeId
    ||| s.at is StoreId
    ||| s.at is Parse
    ||| s.at is OpenDb
    ||| s.at is Make
    ||| s.at is Store
    ||| s.at is Verify
    ||| s.at is StoreVerify
    ||| s.at is Depend
    ||| s.at is Dag
    ||| s.at is Mark
    ||| s.at is Announce
    ||| s.at is Report
    ||| s.at is Last
}

/// Whether the answer of the machine is streamed from here on.
pub open spec fn streams_exec_log(s: ExecLog) -> bool {
    ||| s.at is Open
    ||| s.at is OpenFile
    ||| s.at is Existing
    ||| s.at is ShowExisting
    ||| s.at is SentExisting
    ||| s.at is Seek
    ||| s.at is Poll
    ||| s.at is ShowNew
    ||| s.at is SentNew
    ||| s.at is Pause
    ||| s.at is Last
}

/// Whether the answer of the machine is streamed from here on.
pub open spec fn streams_pipeline_start(s: PipelineStart) -> bool {
    ||| s.at is Open
    ||| s.at is First
    ||| s.at is Mark
    ||| s.at is Stage
    ||| s.at is Pretty
    ||| s.at is Decide
    ||| s.at is LoopBack
    ||| s.at is Report
    ||| s.at is MarkFailed
    ||| s.at is MarkEnd
    ||| s.at is Tell
    ||| s.at is Last
}

/// Whether the answer of the command is streamed from here on.
pub open spec fn streams(job: Job) -> bool {
    match job {
        Job::SpecTalk(s) => streams_spec_talk(s),
        Job::PlanTalk(s) => streams_plan_talk(s),
        Job::ExecLog(s) => streams_exec_log(s),
        Job::PipelineStart(s) => streams_pipeline_start(s),
        _ => false,
    }
}

/// Whether a step keeps to the manner of the answer: lines are sent in a stream that was opened
/// before, and a stream ends without a single answer.
pub open spec fn keeps_manner(before: bool, after: bool, action: Action) -> bool {
    &&& action is Send ==> before
    &&& action is OpenStream <==> !before && after
    &&& before ==> after
}

proof fn manner_of_project_init(s: ProjectInit, ev: Event, n: Next<ProjectInit>)
    requires
        s.accepts(ev),
        s.follows(ev, n),
    ensures
        match n {
            Next::Act(_, a) => a !is Send && a !is OpenStream,
            Next::Reply(_) => true,
            Next::End => false,
        },
{
}

proof fn manner_of_project_list(s: ProjectList, ev: Event, n: Next<ProjectList>)
    requires
        s.accepts(ev),
        s.follows(ev, n),
    ensures
        match n {
            Next::Act(_, a) => a !is Send && a !is OpenStream,
            Next::Reply(_) => true,
            Next::End => false,
        },
{
}

proof fn manner_of_project_delete(s: ProjectDelete, ev: Event, n: Next<ProjectDelete>)
    requires
        s.accepts(ev),
        s.follows(ev, n),
    ensures
        match n {
            Next::Act(_, a) => a !is Send && a !is OpenStream,
            Next::Reply(_) => true,
            Next::End => false,
        },
{
}

proof fn manner_of_spec_talk(s: SpecTalk, ev: Event, n: Next<SpecTalk>)
    requires
        s.accepts(ev),
        s.follows(ev, n),
    ensures
        match n {
            Next::Act(t, a) => keeps_manner(streams_spec_talk(s), streams_spec_talk(t), a),
            Next::Reply(_) => !streams_spec_talk(s),
            Next::End => streams_spec_talk(s),
        },
{
}

proof fn manner_of_spec_list(s: SpecList, ev: Event, n: Next<SpecList>)
    requires
        s.accepts(ev),
        s.follows(ev, n),
    ensures
        match n {
            Next::Act(_, a) => a !is Send && a !is OpenStream,
            Next::Reply(_) => true,
            Next::End => false,
        },
{
}

proof fn manner_of_spec_command(s: SpecCommand, ev: Event, n: Next<SpecCommand>)
    requires
        s.accepts(ev),
        s.follows(ev, n),
    ensures
        match n {
            Next::Act(_, a) => a !is Send && a !is OpenStream,
            Next::Reply(_) => true,
            Next::End => false,
        },
{
}

proof fn manner_of_plan_talk(s: PlanTalk, ev: Event, n: Next<PlanTalk>)
    requires
        s.accepts(ev),
        s.follows(ev, n),
    ensures
        match n {
            Next::Act(t, a) => keeps_manner(streams_plan_talk(s), streams_plan_talk(t), a),
            Next::Reply(_) => !streams_plan_talk(s),
            Next::End => streams_plan_talk(s),
        },
{
}

proof fn manner_of_plan_show(s: PlanShow, ev: Event, n: Next<PlanShow>)
    requires
        s.accepts(ev),
        s.follows(ev, n),
    ensures
        match n {
            Next::Act(_, a) => a !is Send && a !is OpenStream,
            Next::Reply(_) => true,
            Next::End => false,
        },
{
}

proof fn manner_of_wave_command(s: WaveCommand, ev: Event, n: Next<WaveCommand>)
    requires
        s.accepts(ev),
        s.follows(ev, n),
    ensures
        match n {
            Next::Act(_, a) => a !is Send && a !is OpenStream,
            Next::Reply(_) => true,
            Next::End => false,
        },
{
}

proof fn manner_of_exec_switch(s: ExecSwitch, ev: Event, n: Next<ExecSwitch>)
    requires
        s.accepts(ev),
        s.follows(ev, n),
    ensures
        match n {
            Next::Act(_, a) => a !is Send && a !is OpenStream,
            Next::Reply(_) => true,
            Next::End => false,
        },
{
}

proof fn manner_of_exec_status(s: ExecStatus, ev: Event, n: Next<ExecStatus>)
    requires
        s.accepts(ev),
        s.follows(ev, n),
    ensures
        match n {
            Next::Act(_, a) => a !is Send && a !is OpenStream,
            Next::Reply(_) => true,
            Next::End => false,
        },
{
}

proof fn manner_of_task_retry(s: TaskRetry, ev: Event, n: Next<TaskRetry>)
    requires
        s.accepts(ev),
        s.follows(ev, n),
    ensures
        match n {
            Next::Act(_, a) => a !is Send && a !is OpenStream,
            Next::Reply(_) => true,
            Next::End => false,
        },
{
}

proof fn manner_of_task_skip(s: TaskSkip, ev: Event, n: Next<TaskSkip>)
    requires
        s.accepts(ev),
        s.follows(ev, n),
    ensures
        match n {
            Next::Act(_, a) => a !is Send && a !is OpenStream,
            Next::Reply(_) => true,
            Next::End => false,
        },
{
}

proof fn manner_of_story_continue(s: StoryContinue, ev: Event, n: Next<StoryContinue>)
    requires
        s.accepts(ev),
        s.follows(ev, n),
    ensures
        match n {
            Next::Act(_, a) => a !is Send && a !is OpenStream,
            Next::Reply(_) => true,
            Next::End => false,
        },
{
}

proof fn manner_of_story_cancel(s: StoryCancel, ev: Event, n: Next<StoryCancel>)
    requires
        s.accepts(ev),
        s.follows(ev, n),
    ensures
        match n {
            Next::Act(_, a) => a !is Send && a !is OpenStream,
            Next::Reply(_) => true,
            Next::End => false,
        },
{
}

proof fn manner_of_exec_stop(s: ExecStop, ev: Event, n: Next<ExecStop>)
    requires
        s.accepts(ev),
        s.follows(ev, n),
    ensures
        match n {
            Next::Act(_, a) => a !is Send && a !is OpenStream,
            Next::Reply(_) => true,
            Next::End => false,
        },
{
}

proof fn manner_of_exec_log(s: ExecLog, ev: Event, n: Next<ExecLog>)
    requires
        s.accepts(ev),
        s.follows(ev, n),
    ensures
        match n {
            Next::Act(t, a) => keeps_manner(streams_exec_log(s), streams_exec_log(t), a),
            Next::Reply(_) => !streams_exec_log(s),
            Next::End => streams_exec_log(s),
        },
{
}

proof fn manner_of_worktree_list(s: WorktreeList, ev: Event, n: Next<WorktreeList>)
    requires
        s.accepts(ev),
        s.follows(ev, n),
    ensures
        match n {
            Next::Act(_, a) => a !is Send && a !is OpenStream,
            Next::Reply(_) => true,
            Next::End => false,
        },
{
}

proof fn manner_of_worktree_clean(s: WorktreeClean, ev: Event, n: Next<WorktreeClean>)
    requires
        s.accepts(ev),
        s.follows(ev, n),
    ensures
        match n {
            Next::Act(_, a) => a !is Send && a !is OpenStream,
            Next::Reply(_) => true,
            Next::End => false,
        },
{
}

proof fn manner_of_log_cleanup(s: LogCleanup, ev: Event, n: Next<LogCleanup>)
    requires
        s.accepts(ev),
        s.follows(ev, n),
    ensures
        match n {
            Next::Act(_, a) => a !is Send && a !is OpenStream,
            Next::Reply(_) => true,
            Next::End => false,
        },
{
}

proof fn manner_of_config_show(s: ConfigShow, ev: Event, n: Next<ConfigShow>)
    requires
        s.accepts(ev),
        s.follows(ev, n),
    ensures
        match n {
            Next::Act(_, a) => a !is Send && a !is OpenStream,
            Next::Reply(_) => true,
            Next::End => false,
        },
{
}

proof fn manner_of_config_set(s: ConfigSet, ev: Event, n: Next<ConfigSet>)
    requires
        s.accepts(ev),
        s.follows(ev, n),
    ensures
        match n {
            Next::Act(_, a) => a !is Send && a !is OpenStream,
            Next::Reply(_) => true,
            Next::End => false,
        },
{
}

proof fn manner_of_pipeline_start(s: PipelineStart, ev: Event, n: Next<PipelineStart>)
    requires
        s.accepts(ev),
        s.follows(ev, n),
    ensures
        match n {
            Next::Act(t, a) => keeps_manner(streams_pipeline_start(s), streams_pipeline_start(t), a),
            Next::Reply(_) => !streams_pipeline_start(s),
            Next::End => streams_pipeline_start(s),
        },
{
}

proof fn manner_of_pipeline_list(s: PipelineList, ev: Event, n: Next<PipelineList>)
    requires
        s.accepts(ev),
        s.follows(ev, n),
    ensures
        match n {
            Next::Act(_, a) => a !is Send && a !is OpenStream,
            Next::Reply(_) => true,
            Next::End => false,
        },
{
}

proof fn manner_of_pipeline_query(s: PipelineQuery, ev: Event, n: Next<PipelineQuery>)
    requires
        s.accepts(ev),
        s.follows(ev, n),
    ensures
        match n {
            Next::Act(_, a) => a !is Send && a !is OpenStream,
            Next::Reply(_) => true,
            Next::End => false,
        },
{
}

/// A request is answered once: by one response, or by a stream that is opened before the first
/// line and closed without a response.
pub proof fn law_a_request_is_answered_in_one_manner(job: Job, ev: Event, n: Next<Job>)
    requires
        job.accepts(ev),
        job.follows(ev, n),
    ensures
        match n {
            Next::Act(next, action) => keeps_manner(streams(job), streams(next), action),
            Next::Reply(_) => !streams(job),
            Next::End => streams(job),
        },
{
    match job {
        Job::ProjectInit(s) => {
            let m = choose|m: Next<ProjectInit>|
                s.follows(ev, m) && #[trigger] crate::dispatch::wraps(m, n);
            manner_of_project_init(s, ev, m);
        },
        Job::ProjectList(s) => {
            let m = choose|m: Next<ProjectList>|
                s.follows(ev, m) && #[trigger] crate::dispatch::wraps(m, n);
            manner_of_project_list(s, ev, m);
        },
        Job::ProjectDelete(s) => {
            let m = choose|m: Next<ProjectDelete>|
                s.follows(ev, m) && #[trigger] crate::dispatch::wraps(m, n);
            manner_of_project_delete(s, ev, m);
        },
        Job::SpecTalk(s) => {
            let m = choose|m: Next<SpecTalk>|
                s.follows(ev, m) && #[trigger] crate::dispatch::wraps(m, n);
            manner_of_spec_talk(s, ev, m);
        },
        Job::SpecList(s) => {
            let m = choose|m: Next<SpecList>|
                s.follows(ev, m) && #[trigger] crate::dispatch::wraps(m, n);
            manner_of_spec_list(s, ev, m);
        },
        Job::SpecCommand(s) => {
            let m = choose|m: Next<SpecCommand>|
                s.follows(ev, m) && #[trigger] crate::dispatch::wraps(m, n);
            manner_of_spec_command(s, ev, m);
        },
        Job::PlanTalk(s) => {
            let m = choose|m: Next<PlanTalk>|
                s.follows(ev, m) && #[trigger] crate::dispatch::wraps(m, n);
            manner_of_plan_talk(s, ev, m);
        },
        Job::PlanShow(s) => {
            let m = choose|m: Next<PlanShow>|
                s.follows(ev, m) && #[trigger] crate::dispatch::wraps(m, n);
            manner_of_plan_show(s, ev, m);
        },
        Job::WaveCommand(s) => {
            let m = choose|m: Next<WaveCommand>|
                s.follows(ev, m) && #[trigger] crate::dispatch::wraps(m, n);
            manner_of_wave_command(s, ev, m);
        },
        Job::ExecSwitch(s) => {
            let m = choose|m: Next<ExecSwitch>|
                s.follows(ev, m) && #[trigger] crate::dispatch::wraps(m, n);
            manner_of_exec_switch(s, ev, m);
        },
        Job::ExecStatus(s) => {
            let m = choose|m: Next<ExecStatus>|
                s.follows(ev, m) && #[trigger] crate::dispatch::wraps(m, n);
            manner_of_exec_status(s, ev, m);
        },
        Job::TaskRetry(s) => {
            let m = choose|m: Next<TaskRetry>|
                s.follows(ev, m) && #[trigger] crate::dispatch::wraps(m, n);
            manner_of_task_retry(s, ev, m);
        },
        Job::TaskSkip(s) => {
            let m = choose|m: Next<TaskSkip>|
                s.follows(ev, m) && #[trigger] crate::dispatch::wraps(m, n);
            manner_of_task_skip(s, ev, m);
        },
        Job::StoryContinue(s) => {
            let m = choose|m: Next<StoryContinue>|
                s.follows(ev, m) && #[trigger] crate::dispatch::wraps(m, n);
            manner_of_story_continue(s, ev, m);
        },
        Job::StoryCancel(s) => {
            let m = choose|m: Next<StoryCancel>|
                s.follows(ev, m) && #[trigger] crate::dispatch::wraps(m, n);
            manner_of_story_cancel(s, ev, m);
        },
        Job::ExecStop(s) => {
            let m = choose|m: Next<ExecStop>|
                s.follows(ev, m) && #[trigger] crate::dispatch::wraps(m, n);
            manner_of_exec_stop(s, ev, m);
        },
        Job::ExecLog(s) => {
            let m = choose|m: Next<ExecLog>|
                s.follows(ev, m) && #[trigger] crate::dispatch::wraps(m, n);
            manner_of_exec_log(s, ev, m);
        },
        Job::WorktreeList(s) => {
            let m = choose|m: Next<WorktreeList>|
                s.follows(ev, m) && #[trigger] crate::dispatch::wraps(m, n);
            manner_of_worktree_list(s, ev, m);
        },
        Job::WorktreeClean(s) => {
            let m = choose|m: Next<WorktreeClean>|
                s.follows(ev, m) && #[trigger] crate::dispatch::wraps(m, n);
            manner_of_worktree_clean(s, ev, m);
        },
        Job::LogCleanup(s) => {
            let m = choose|m: Next<LogCleanup>|
                s.follows(ev, m) && #[trigger] crate::dispatch::wraps(m, n);
            manner_of_log_cleanup(s, ev, m);
        },
        Job::ConfigShow(s) => {
            let m = choose|m: Next<ConfigShow>|
                s.follows(ev, m) && #[trigger] crate::dispatch::wraps(m, n);
            manner_of_config_show(s, ev, m);
        },
        Job::ConfigSet(s) => {
            let m = choose|m: Next<ConfigSet>|
                s.follows(ev, m) && #[trigger] crate::dispatch::wraps(m, n);
            manner_of_config_set(s, ev, m);
        },
        Job::PipelineStart(s) => {
            let m = choose|m: Next<PipelineStart>|
                s.follows(ev, m) && #[trigger] crate::dispatch::wraps(m, n);
            manner_of_pipeline_start(s, ev, m);
        },
        Job::PipelineList(s) => {
            let m = choose|m: Next<PipelineList>|
                s.follows(ev, m) && #[trigger] crate::dispatch::wraps(m, n);
            manner_of_pipeline_list(s, ev, m);
        },
        Job::PipelineQuery(s) => {
            let m = choose|m: Next<PipelineQuery>|
                s.follows(ev, m) && #[trigger] crate::dispatch::wraps(m, n);
            manner_of_pipeline_query(s, ev, m);
        },
    }
}

// ---- parameters ----

/// The texts that a command needs, in the order in which they are looked for.
pub open spec fn needed(command: Command) -> Seq<Seq<char>> {
    match command {
        Command::ProjectInit => seq!["name"@, "path"@],
        Command::ProjectList
        | Command::ExecStop
        | Command::ConfigShow => Seq::empty(),
        Command::ProjectDelete => seq!["name"@],
        Command::SpecNew
        | Command::SpecView
        | Command::SpecApprove
        | Command::SpecReopen
        | Command::SpecDelete
        | Command::SpecDeactivate => seq!["project_name"@, "spec_name"@],
        Command::SpecAnswer => seq!["spec_id"@, "answer_text"@],
        Command::SpecList
        | Command::SpecResume
        | Command::PlanGenerate
        | Command::PlanShow
        | Command::PlanApprove
        | Command::PlanDiscard
        | Command::ExecRun
        | Command::ExecPause
        | Command::ExecStatus
        | Command::PipelineList => seq!["project_name"@],
        Command::PlanFeedback => seq!["project_name"@, "message"@],
        Command::ExecRetry
        | Command::ExecSkip
        | Command::ExecLog => seq!["task_id"@],
        Command::ExecContinue
        | Command::ExecCancel => seq!["story_id"@],
        Command::WorktreeList
        | Command::WorktreeClean
        | Command::CleanupLogs => seq!["project"@],
        Command::ConfigSet => seq!["key"@],
        Command::PipelineStart => seq!["project_name"@, "name"@, "goal"@],
        Command::PipelineStatus
        | Command::PipelineCancel
        | Command::PipelineLog => seq!["pipeline_run_id"@],
    }
}

/// The first text that a command needs and that is not there is named in the refusal, before
/// anything is done.
pub proof fn law_missing_parameters_are_named(
    command: Command,
    req: Request,
    n: Next<Job>,
    i: int,
)
    requires
        Command::of_name(req.command@) == Some(command),
        crate::dispatch::dispatched(req, n),
        0 <= i < needed(command).len(),
        req.params@.text_field(needed(command)[i]) is None,
        forall|k: int|
            0 <= k < i ==> req.params@.text_field(#[trigger] needed(command)[k]) is Some,
    ensures
        n.fails(req.id, crate::effects::missing_message(needed(command)[i])),
{
    assert(i > 0 ==> req.params@.text_field(needed(command)[0]) is Some);
    assert(i > 1 ==> req.params@.text_field(needed(command)[1]) is Some);
    match command {
        Command::ProjectInit => {
            let m = choose|m: Next<ProjectInit>|
                ProjectInit::begins(req, m) && #[trigger] crate::dispatch::wraps(m, n);
            assert(m.fails(req.id, crate::effects::missing_message(needed(command)[i])));
        },
        Command::ProjectList => {},
        Command::ProjectDelete => {
            let m = choose|m: Next<ProjectDelete>|
                ProjectDelete::begins(req, m) && #[trigger] crate::dispatch::wraps(m, n);
            assert(m.fails(req.id, crate::effects::missing_message(needed(command)[i])));
        },
        Command::SpecNew => {
            let m = choose|m: Next<SpecTalk>|
                SpecTalk::begins_new(req, m) && #[trigger] crate::dispatch::wraps(m, n);
            assert(m.fails(req.id, crate::effects::missing_message(needed(command)[i])));
        },
        Command::SpecAnswer => {
            let m = choose|m: Next<SpecTalk>|
                SpecTalk::begins_answer(req, m) && #[trigger] crate::dispatch::wraps(m, n);
            assert(m.fails(req.id, crate::effects::missing_message(needed(command)[i])));
        },
        Command::SpecList => {
            let m = choose|m: Next<SpecList>|
                SpecList::begins(req, m) && #[trigger] crate::dispatch::wraps(m, n);
            assert(m.fails(req.id, crate::effects::missing_message(needed(command)[i])));
        },
        Command::SpecView => {
            let m = choose|m: Next<SpecCommand>|
                SpecCommand::begins(req, SpecVerb::View, m)
                    && #[trigger] crate::dispatch::wraps(m, n);
            assert(m.fails(req.id, crate::effects::missing_message(needed(command)[i])));
        },
        Command::SpecApprove => {
            let m = choose|m: Next<SpecCommand>|
                SpecCommand::begins(req, SpecVerb::Approve, m)
                    && #[trigger] crate::dispatch::wraps(m, n);
            assert(m.fails(req.id, crate::effects::missing_message(needed(command)[i])));
        },
        Command::SpecReopen => {
            let m = choose|m: Next<SpecCommand>|
                SpecCommand::begins(req, SpecVerb::Reopen, m)
                    && #[trigger] crate::dispatch::wraps(m, n);
            assert(m.fails(req.id, crate::effects::missing_message(needed(command)[i])));
        },
        Command::SpecDelete => {
            let m = choose|m: Next<SpecCommand>|
                SpecCommand::begins(
                    req,
                    SpecVerb::Delete { force: req.params@.truth_field("force"@) == Some(true) },
                    m,
                ) && #[trigger] crate::dispatch::wraps(m, n);
            assert(m.fails(req.id, crate::effects::missing_message(needed(command)[i])));
        },
        Command::SpecDeactivate => {
            let m = choose|m: Next<SpecCommand>|
                SpecCommand::begins(req, SpecVerb::Deactivate, m)
                    && #[trigger] crate::dispatch::wraps(m, n);
            assert(m.fails(req.id, crate::effects::missing_message(needed(command)[i])));
        },
        Command::SpecResume => {
            let m = choose|m: Next<SpecTalk>|
                SpecTalk::begins_resume(req, m) && #[trigger] crate::dispatch::wraps(m, n);
            assert(m.fails(req.id, crate::effects::missing_message(needed(command)[i])));
        },
        Command::PlanGenerate => {
            let m = choose|m: Next<PlanTalk>|
                PlanTalk::begins_generate(req, m) && #[trigger] crate::dispatch::wraps(m, n);
            assert(m.fails(req.id, crate::effects::missing_message(needed(command)[i])));
        },
        Command::PlanShow => {
            let m = choose|m: Next<PlanShow>|
                PlanShow::begins(req, m) && #[trigger] crate::dispatch::wraps(m, n);
            assert(m.fails(req.id, crate::effects::missing_message(needed(command)[i])));
        },
        Command::PlanFeedback => {
            let m = choose|m: Next<PlanTalk>|
                PlanTalk::begins_feedback(req, m) && #[trigger] crate::dispatch::wraps(m, n);
            assert(m.fails(req.id, crate::effects::missing_message(needed(command)[i])));
        },
        Command::PlanApprove => {
            let m = choose|m: Next<WaveCommand>|
                WaveCommand::begins(
                    req,
                    WaveVerb::Approve {
                        auto_execute: crate::sessions::flagged(
                            req.params@,
                            "auto_execute"@,
                            false,
                        ),
                    },
                    m,
                ) && #[trigger] crate::dispatch::wraps(m, n);
            assert(m.fails(req.id, crate::effects::missing_message(needed(command)[i])));
        },
        Command::PlanDiscard => {
            let m = choose|m: Next<WaveCommand>|
                WaveCommand::begins(req, WaveVerb::Discard, m)
                    && #[trigger] crate::dispatch::wraps(m, n);
            assert(m.fails(req.id, crate::effects::missing_message(needed(command)[i])));
        },
        Command::ExecRun => {
            let m = choose|m: Next<ExecSwitch>|
                ExecSwitch::begins(req, true, m) && #[trigger] crate::dispatch::wraps(m, n);
            assert(m.fails(req.id, crate::effects::missing_message(needed(command)[i])));
        },
        Command::ExecPause => {
            let m = choose|m: Next<ExecSwitch>|
                ExecSwitch::begins(req, false, m) && #[trigger] crate::dispatch::wraps(m, n);
            assert(m.fails(req.id, crate::effects::missing_message(needed(command)[i])));
        },
        Command::ExecStatus => {
            let m = choose|m: Next<ExecStatus>|
                ExecStatus::begins(req, m) && #[trigger] crate::dispatch::wraps(m, n);
            assert(m.fails(req.id, crate::effects::missing_message(needed(command)[i])));
        },
        Command::ExecRetry => {
            let m = choose|m: Next<TaskRetry>|
                TaskRetry::begins(req, m) && #[trigger] crate::dispatch::wraps(m, n);
            assert(m.fails(req.id, crate::effects::missing_message(needed(command)[i])));
        },
        Command::ExecSkip => {
            let m = choose|m: Next<TaskSkip>|
                TaskSkip::begins(req, m) && #[trigger] crate::dispatch::wraps(m, n);
            assert(m.fails(req.id, crate::effects::missing_message(needed(command)[i])));
        },
        Command::ExecContinue => {
            let m = choose|m: Next<StoryContinue>|
                StoryContinue::begins(req, m) && #[trigger] crate::dispatch::wraps(m, n);
            assert(m.fails(req.id, crate::effects::missing_message(needed(command)[i])));
        },
        Command::ExecStop => {},
        Command::ExecCancel => {
            let m = choose|m: Next<StoryCancel>|
                StoryCancel::begins(req, m) && #[trigger] crate::dispatch::wraps(m, n);
            assert(m.fails(req.id, crate::effects::missing_message(needed(command)[i])));
        },
        Command::ExecLog => {
            let m = choose|m: Next<ExecLog>|
                ExecLog::begins(req, m) && #[trigger] crate::dispatch::wraps(m, n);
            assert(m.fails(req.id, crate::effects::missing_message(needed(command)[i])));
        },
        Command::WorktreeList => {
            let m = choose|m: Next<WorktreeList>|
                WorktreeList::begins(req, m) && #[trigger] crate::dispatch::wraps(m, n);
            assert(m.fails(req.id, crate::effects::missing_message(needed(command)[i])));
        },
        Command::WorktreeClean => {
            let m = choose|m: Next<WorktreeClean>|
                WorktreeClean::begins(req, m) && #[trigger] crate::dispatch::wraps(m, n);
            assert(m.fails(req.id, crate::effects::missing_message(needed(command)[i])));
        },
        Command::CleanupLogs => {
            let m = choose|m: Next<LogCleanup>|
                LogCleanup::begins(req, m) && #[trigger] crate::dispatch::wraps(m, n);
            assert(m.fails(req.id, crate::effects::missing_message(needed(command)[i])));
        },
        Command::ConfigShow => {},
        Command::ConfigSet => {
            let m = choose|m: Next<ConfigSet>|
                ConfigSet::begins(req, m) && #[trigger] crate::dispatch::wraps(m, n);
            assert(m.fails(req.id, crate::effects::missing_message(needed(command)[i])));
        },
        Command::PipelineStart => {
            let m = choose|m: Next<PipelineStart>|
                PipelineStart::begins(req, m) && #[trigger] crate::dispatch::wraps(m, n);
            assert(m.fails(req.id, crate::effects::missing_message(needed(command)[i])));
        },
        Command::PipelineStatus => {
            let m = choose|m: Next<PipelineQuery>|
                PipelineQuery::begins(req, QueryVerb::Status, m)
                    && #[trigger] crate::dispatch::wraps(m, n);
            assert(m.fails(req.id, crate::effects::missing_message(needed(command)[i])));
        },
        Command::PipelineList => {
            let m = choose|m: Next<PipelineList>|
                PipelineList::begins(req, m) && #[trigger] crate::dispatch::wraps(m, n);
            assert(m.fails(req.id, crate::effects::missing_message(needed(command)[i])));
        },
        Command::PipelineCancel => {
            let m = choose|m: Next<PipelineQuery>|
                PipelineQuery::begins(req, QueryVerb::Cancel, m)
                    && #[trigger] crate::dispatch::wraps(m, n);
            assert(m.fails(req.id, crate::effects::missing_message(needed(command)[i])));
        },
        Command::PipelineLog => {
            let m = choose|m: Next<PipelineQuery>|
                PipelineQuery::begins_log(req, m) && #[trigger] crate::dispatch::wraps(m, n);
            assert(m.fails(req.id, crate::effects::missing_message(needed(command)[i])));
        },
    }
}

} // verus!
