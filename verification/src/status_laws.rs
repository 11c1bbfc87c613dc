//! What `exec.status` is for, over the whole course of a request.
use vstd::prelude::*;
use crate::effects::{Action, Event, Next};
use crate::histories::{had, reaches, Machine};
use crate::ident::Uuid;
use crate::json::JsonV;
use crate::model::{AgentRun, DecompositionSession, ItemType, Project, WorkItem};
use crate::protocol::{Request, ResponseStatus};
use crate::status::{ExecStatus, Shown, StatusJob, StatusStep, TaskRuns};
use crate::stop_laws::is_named_project;

verus! {

impl Machine for ExecStatus {
    open spec fn takes_up(req: Request, n: Next<ExecStatus>) -> bool {
        ExecStatus::begins(req, n)
    }

    open spec fn leads(self, ev: Event, n: Next<ExecStatus>) -> bool {
        self.follows(ev, n)
    }
}

/// Whether the waves are those to be told of: all of the project, or the first with the given
/// number.
pub open spec fn are_told(
    req: Request,
    log: Seq<(Action, Event)>,
    project: Project,
    sessions: Seq<DecompositionSession>,
) -> bool {
    &&& is_named_project(req, log, project)
    &&& exists|v: Vec<DecompositionSession>| #[trigger]
        had(log, Action::ListSessions { project: project.id }, Event::Sessions(Ok(v))) && if req.params@.natural_field(
            "wave"@,
        ) is Some {
            sessions.len() == 1 && crate::show_laws::is_shown_of(req, v@, sessions[0])
        } else {
            sessions == v@
        }
}

/// Whether so many agents work on the project.
pub open spec fn so_many_work(log: Seq<(Action, Event)>, project: Project, running: u32) -> bool {
    exists|v: Vec<AgentRun>| #[trigger]
        had(
            log,
            Action::FindRunningAgents { project: project.id },
            Event::AgentRuns(Ok(v)),
        ) && running == v@.len() as u32
}

/// Whether this is what is known of the runs of the task.
pub open spec fn is_known_of(log: Seq<(Action, Event)>, task: Uuid, known: TaskRuns) -> bool {
    &&& exists|r: Result<u32, String>| #[trigger]
        had(log, Action::CountAgentRuns { task }, Event::Count(r)) && known.count == match r {
            Ok(c) => c,
            Err(_) => 0,
        }
    &&& exists|r: Result<Option<AgentRun>, String>| #[trigger]
        had(log, Action::FindLatestRun { task }, Event::MaybeRun(r)) && known.latest == match r {
            Ok(run) => run,
            Err(_) => None,
        }
}

/// The tasks among the items.
pub open spec fn tasks_of(items: Seq<WorkItem>) -> Seq<Uuid> {
    items.filter(|i: WorkItem| i.item_type == ItemType::Task).map_values(|i: WorkItem| i.id)
}

spec fn runs_so_far(log: Seq<(Action, Event)>, ids: Seq<Uuid>, runs: Seq<TaskRuns>) -> bool {
    &&& runs.len() <= ids.len()
    &&& forall|i: int| 0 <= i < runs.len() ==> is_known_of(log, ids[i], #[trigger] runs[i])
}

/// Whether the entry is that of the wave, with its items and with what is known of their runs.
pub open spec fn tells_wave(
    log: Seq<(Action, Event)>,
    session: DecompositionSession,
    entry: JsonV,
) -> bool {
    exists|items: Vec<WorkItem>, runs: Seq<TaskRuns>|
        #[trigger] had(
            log,
            Action::ListItems { session: session.id },
            Event::WorkItems(Ok(items)),
        ) && #[trigger] are_known(log, tasks_of(items@), runs) && entry
            == crate::status::wave_status(session, items@, runs)
}

/// Whether this is what is known of the runs of each of the tasks.
pub open spec fn are_known(log: Seq<(Action, Event)>, ids: Seq<Uuid>, runs: Seq<TaskRuns>) -> bool {
    &&& runs.len() == ids.len()
    &&& forall|i: int| 0 <= i < runs.len() ==> is_known_of(log, ids[i], #[trigger] runs[i])
}

spec fn waves_so_far(
    log: Seq<(Action, Event)>,
    sessions: Seq<DecompositionSession>,
    done: Seq<JsonV>,
) -> bool {
    &&& done.len() <= sessions.len()
    &&& forall|i: int| 0 <= i < done.len() ==> tells_wave(log, sessions[i], #[trigger] done[i])
}

spec fn shown_holds(req: Request, log: Seq<(Action, Event)>, shown: Shown) -> bool {
    let done = crate::json::json_views(shown.done@);
    &&& are_told(req, log, shown.project, shown.sessions@)
    &&& so_many_work(log, shown.project, shown.running)
    &&& waves_so_far(log, shown.sessions@, done)
    &&& done.len() == shown.done@.len() < shown.sessions@.len()
}

spec fn status_holds(req: Request, log: Seq<(Action, Event)>, s: ExecStatus, a: Action) -> bool {
    &&& s.job.id == req.id
    &&& req.params@.text_field("project_name"@) == Some(s.job.project_name@)
    &&& s.job.wave == match req.params@.natural_field("wave"@) {
        Some(w) => Some(w as u32),
        None => None,
    }
    &&& match s.at {
        StatusStep::Project => a == Action::GetProjectByName { name: s.job.project_name },
        StatusStep::Sessions { project } => is_named_project(req, log, project) && a == (
        Action::ListSessions { project: project.id }),
        StatusStep::Running { project, sessions } => are_told(req, log, project, sessions@) && a
            == (Action::FindRunningAgents { project: project.id }),
        StatusStep::Items { shown } => shown_holds(req, log, shown) && a == (Action::ListItems {
            session: shown.sessions@[shown.done@.len() as int].id,
        }),
        StatusStep::Count { shown, items, ids, runs } => {
            &&& shown_holds(req, log, shown)
            &&& had(
                log,
                Action::ListItems { session: shown.sessions@[shown.done@.len() as int].id },
                Event::WorkItems(Ok(items)),
            )
            &&& ids@ == tasks_of(items@)
            &&& runs_so_far(log, ids@, runs@)
            &&& runs@.len() < ids@.len()
            &&& a == Action::CountAgentRuns { task: ids@[runs@.len() as int] }
        },
        StatusStep::Latest { shown, items, ids, runs, count } => {
            &&& shown_holds(req, log, shown)
            &&& had(
                log,
                Action::ListItems { session: shown.sessions@[shown.done@.len() as int].id },
                Event::WorkItems(Ok(items)),
            )
            &&& ids@ == tasks_of(items@)
            &&& runs_so_far(log, ids@, runs@)
            &&& runs@.len() < ids@.len()
            &&& exists|r: Result<u32, String>| #[trigger]
                had(
                    log,
                    Action::CountAgentRuns { task: ids@[runs@.len() as int] },
                    Event::Count(r),
                ) && count == match r {
                    Ok(c) => c,
                    Err(_) => 0,
                }
            &&& a == Action::FindLatestRun { task: ids@[runs@.len() as int] }
        },
    }
}

proof fn status_facts_stay(req: Request, log: Seq<(Action, Event)>)
    requires
        log.len() > 0,
    ensures
        forall|p: Project| #[trigger]
            is_named_project(req, log.drop_last(), p) ==> is_named_project(req, log, p),
        forall|p: Project, v: Seq<DecompositionSession>| #[trigger]
            are_told(req, log.drop_last(), p, v) ==> are_told(req, log, p, v),
        forall|v: Seq<Uuid>, r: Seq<TaskRuns>| #[trigger]
            runs_so_far(log.drop_last(), v, r) ==> runs_so_far(log, v, r),
        forall|v: Seq<DecompositionSession>, d: Seq<JsonV>| #[trigger]
            waves_so_far(log.drop_last(), v, d) ==> waves_so_far(log, v, d),
        forall|h: Shown| #[trigger]
            shown_holds(req, log.drop_last(), h) ==> shown_holds(req, log, h),
{
    crate::histories::had_more(log);
    let init = log.drop_last();
    assert forall|p: Project| #[trigger] is_named_project(req, init, p) implies is_named_project(
        req,
        log,
        p,
    ) by {}
    assert forall|p: Project, v: Seq<DecompositionSession>| #[trigger]
        are_told(req, init, p, v) implies are_told(req, log, p, v) by {
        assert(is_named_project(req, init, p));
    }
    assert forall|u: Uuid, k: TaskRuns| #[trigger] is_known_of(init, u, k) implies is_known_of(
        log,
        u,
        k,
    ) by {}
    assert forall|v: Seq<Uuid>, r: Seq<TaskRuns>| #[trigger]
        runs_so_far(init, v, r) implies runs_so_far(log, v, r) by {
        assert forall|i: int| 0 <= i < r.len() implies is_known_of(log, v[i], #[trigger] r[i]) by {
            assert(is_known_of(init, v[i], r[i]));
        }
    }
    assert forall|v: Seq<DecompositionSession>, d: Seq<JsonV>| #[trigger]
        waves_so_far(init, v, d) implies waves_so_far(log, v, d) by {
        assert forall|i: int| 0 <= i < d.len() implies tells_wave(log, v[i], #[trigger] d[i]) by {
            assert(tells_wave(init, v[i], d[i]));
            let (items, runs) = choose|items: Vec<WorkItem>, runs: Seq<TaskRuns>|
                #[trigger] had(
                    init,
                    Action::ListItems { session: v[i].id },
                    Event::WorkItems(Ok(items)),
                ) && #[trigger] are_known(init, tasks_of(items@), runs) && d[i]
                    == crate::status::wave_status(v[i], items@, runs);
            assert(had(
                log,
                Action::ListItems { session: v[i].id },
                Event::WorkItems(Ok(items)),
            ));
            assert forall|k: int| 0 <= k < runs.len() implies is_known_of(
                log,
                tasks_of(items@)[k],
                #[trigger] runs[k],
            ) by {
                assert(is_known_of(init, tasks_of(items@)[k], runs[k]));
            }
            assert(are_known(log, tasks_of(items@), runs));
        }
    }
    assert forall|h: Shown| #[trigger] shown_holds(req, init, h) implies shown_holds(
        req,
        log,
        h,
    ) by {
        assert(are_told(req, init, h.project, h.sessions@));
        assert(waves_so_far(init, h.sessions@, crate::json::json_views(h.done@)));
        assert(so_many_work(init, h.project, h.running));
    }
}

proof fn status_keeps(req: Request, log: Seq<(Action, Event)>, s: ExecStatus, a: Action)
    requires
        reaches(req, log, Next::Act(s, a)),
    ensures
        status_holds(req, log, s, a),
    decreases log.len(),
{
    if log.len() > 0 {
        let (b, ev) = log.last();
        let before = crate::histories::before_last::<ExecStatus>(req, log, Next::Act(s, a));
        status_keeps(req, log.drop_last(), before, b);
        status_step(req, log, before, Next::Act(s, a));
    }
}

/// What an answer about the execution of a project says: each of the waves that are asked for.
pub open spec fn tells_status(req: Request, log: Seq<(Action, Event)>, data: JsonV) -> bool {
    exists|project: Project, sessions: Seq<DecompositionSession>, running: u32|
        #[trigger] are_told(req, log, project, sessions) && #[trigger] so_many_work(
            log,
            project,
            running,
        ) && tells_waves(log, project, sessions, running, data)
}

pub open spec fn tells_waves(
    log: Seq<(Action, Event)>,
    project: Project,
    sessions: Seq<DecompositionSession>,
    running: u32,
    data: JsonV,
) -> bool {
    &&& data.text_field("project_name"@) == Some(project.name@)
    &&& data.truth_field("execution_enabled"@) == Some(project.execution_enabled)
    &&& data.field("running_count"@) == Some(JsonV::Int(running as int))
    &&& data.field("waves"@) matches Some(JsonV::Arr(entries))
    &&& entries.len() == sessions.len()
    &&& forall|i: int|
        0 <= i < sessions.len() ==> tells_wave(log, sessions[i], #[trigger] entries[i])
}

proof fn status_shows(
    req: Request,
    log: Seq<(Action, Event)>,
    job: StatusJob,
    project: Project,
    sessions: Seq<DecompositionSession>,
    running: u32,
    done: Seq<JsonV>,
    n: Next<ExecStatus>,
)
    requires
        job.id == req.id,
        req.params@.text_field("project_name"@) == Some(job.project_name@),
        job.wave == (match req.params@.natural_field("wave"@) {
            Some(w) => Some(w as u32),
            None => None,
        }),
        are_told(req, log, project, sessions),
        so_many_work(log, project, running),
        waves_so_far(log, sessions, done),
        ExecStatus::shows_next(job, project, sessions, running, done, n),
    ensures
        n matches Next::Act(s, a) ==> status_holds(req, log, s, a),
        n matches Next::Reply(r) ==> r.id == req.id && r.status == ResponseStatus::Success
            && tells_status(req, log, r.data@),
        !(n is End),
{
    broadcast use crate::histories::field_of_with;

    if done.len() == sessions.len() {
        reveal_strlit("project_name");
        reveal_strlit("execution_enabled");
        reveal_strlit("running_count");
        reveal_strlit("waves");
        assert("project_name"@.len() == 12);
        assert("execution_enabled"@.len() == 17);
        assert("running_count"@.len() == 13);
        assert("waves"@.len() == 5);
        assert(tells_waves(log, project, sessions, running, n->Reply_0.data@));
        assert(are_told(req, log, project, sessions));
        assert(so_many_work(log, project, running));
    } else {
        let shown = n->Act_0.at->Items_shown;
        assert(crate::json::json_views(shown.done@).len() == shown.done@.len());
        assert(shown_holds(req, log, shown));
    }
}

proof fn status_looks(
    req: Request,
    log: Seq<(Action, Event)>,
    job: StatusJob,
    shown: Shown,
    items: Vec<WorkItem>,
    runs: Seq<TaskRuns>,
    n: Next<ExecStatus>,
)
    requires
        job.id == req.id,
        req.params@.text_field("project_name"@) == Some(job.project_name@),
        job.wave == (match req.params@.natural_field("wave"@) {
            Some(w) => Some(w as u32),
            None => None,
        }),
        shown_holds(req, log, shown),
        had(
            log,
            Action::ListItems { session: shown.sessions@[shown.done@.len() as int].id },
            Event::WorkItems(Ok(items)),
        ),
        runs_so_far(log, tasks_of(items@), runs),
        ExecStatus::looks_next(job, shown, items, runs, n),
    ensures
        n matches Next::Act(s, a) ==> status_holds(req, log, s, a),
        n matches Next::Reply(r) ==> r.id == req.id && r.status == ResponseStatus::Success
            && tells_status(req, log, r.data@),
        !(n is End),
{
    assert(crate::status::task_ids(items@) == tasks_of(items@));
    if runs.len() == tasks_of(items@).len() {
        let done = crate::json::json_views(shown.done@);
        let session = shown.sessions@[shown.done@.len() as int];
        let entry = crate::status::wave_status(session, items@, runs);
        assert(are_known(log, tasks_of(items@), runs));
        assert(tells_wave(log, session, entry));
        assert(waves_so_far(log, shown.sessions@, done.push(entry)));
        status_shows(
            req,
            log,
            job,
            shown.project,
            shown.sessions@,
            shown.running,
            done.push(entry),
            n,
        );
    }
}

/// Why nothing is told after this outcome: there is no such project or wave, or the database
/// failed to list something.
pub open spec fn refuses_status(req: Request, ev: Event) -> bool {
    match ev {
        Event::MaybeProject(r) => !(r matches Ok(Some(_))),
        Event::Sessions(r) => match r {
            Ok(v) => req.params@.natural_field("wave"@) is Some && crate::show_laws::shows_none_of(
                req,
                v@,
            ),
            Err(_) => true,
        },
        Event::AgentRuns(r) => r is Err,
        Event::WorkItems(r) => r is Err,
        _ => false,
    }
}

/// One step of telling the state of the execution.
#[verifier::rlimit(40)]
proof fn status_step(
    req: Request,
    log: Seq<(Action, Event)>,
    before: ExecStatus,
    n: Next<ExecStatus>,
)
    requires
        log.len() > 0,
        status_holds(req, log.drop_last(), before, log.last().0),
        before.follows(log.last().1, n),
    ensures
        n matches Next::Act(s, a) ==> status_holds(req, log, s, a),
        n matches Next::Reply(r) ==> r.id == req.id && (r.status == ResponseStatus::Success
            ==> tells_status(req, log, r.data@)),
        refuses_status(req, log.last().1) <==> n is Reply && n->Reply_0.status
            == ResponseStatus::Error,
        !(n is End),
{
    let (b, ev) = log.last();
    let init = log.drop_last();
    let job = before.job;
    crate::histories::had_more(log);
    status_facts_stay(req, log);
    assert(had(log, b, ev));
    match (before.at, ev) {
        (StatusStep::Project, Event::MaybeProject(Ok(Some(project)))) => {
            assert(is_named_project(req, log, project));
        },
        (StatusStep::Sessions { project }, Event::Sessions(Ok(v))) => {
            assert(had(
                log,
                Action::ListSessions { project: project.id },
                Event::Sessions(Ok(v)),
            ));
            if job.wave is Some {
                crate::show_laws::wave_is_found(v@, job.wave->0);
                match crate::plans::find_wave(v@, job.wave->0) {
                    Some(session) => {
                        assert(crate::show_laws::is_shown_of(req, v@, session));
                        let i = choose|i: int| 0 <= i < v@.len() && #[trigger] v@[i] == session;
                        assert(v@[i].wave_number == job.wave->0);
                        assert(n->Act_0.at->Running_sessions@[0] == session);
                    },
                    None => {},
                }
            }
            if n is Act {
                assert(are_told(req, log, project, n->Act_0.at->Running_sessions@));
            }
        },
        (StatusStep::Running { project, sessions }, Event::AgentRuns(Ok(v))) => {
            assert(had(
                log,
                Action::FindRunningAgents { project: project.id },
                Event::AgentRuns(Ok(v)),
            ));
            assert(so_many_work(log, project, v@.len() as u32));
            status_shows(
                req,
                log,
                job,
                project,
                sessions@,
                v@.len() as u32,
                Seq::empty(),
                n,
            );
        },
        (StatusStep::Items { shown }, Event::WorkItems(Ok(items))) => {
            assert(shown_holds(req, log, shown));
            status_looks(req, log, job, shown, items, Seq::empty(), n);
        },
        (StatusStep::Count { shown, items, ids, runs }, Event::Count(r)) => {
            assert(shown_holds(req, log, shown));
            assert(runs_so_far(log, ids@, runs@));
            assert(had(
                log,
                Action::CountAgentRuns { task: ids@[runs@.len() as int] },
                Event::Count(r),
            ));
        },
        (StatusStep::Latest { shown, items, ids, runs, count }, Event::MaybeRun(r)) => {
            let task = ids@[runs@.len() as int];
            let latest = match r {
                Ok(run) => run,
                Err(_) => None,
            };
            let known = TaskRuns { count, latest };
            assert(shown_holds(req, log, shown));
            assert(runs_so_far(log, ids@, runs@));
            let c = choose|c: Result<u32, String>| #[trigger]
                had(init, Action::CountAgentRuns { task }, Event::Count(c)) && count == match c {
                    Ok(k) => k,
                    Err(_) => 0,
                };
            assert(had(log, Action::CountAgentRuns { task }, Event::Count(c)));
            assert(had(log, Action::FindLatestRun { task }, Event::MaybeRun(r)));
            assert(is_known_of(log, task, known));
            assert(runs_so_far(log, ids@, runs@.push(known)));
            status_looks(req, log, job, shown, items, runs@.push(known), n);
        },
        _ => {},
    }
}

/// Telling the state of the execution only looks, and only at what belongs to the named project.
pub proof fn law_what_telling_the_status_does(
    req: Request,
    log: Seq<(Action, Event)>,
    s: ExecStatus,
    a: Action,
)
    requires
        reaches(req, log, Next::Act(s, a)),
    ensures
        match a {
            Action::GetProjectByName { name } => req.params@.text_field("project_name"@) == Some(
                name@,
            ),
            Action::ListSessions { project } => exists|p: Project| #[trigger]
                is_named_project(req, log, p) && p.id == project,
            Action::FindRunningAgents { project } => exists|p: Project| #[trigger]
                is_named_project(req, log, p) && p.id == project,
            Action::ListItems { .. } => true,
            Action::CountAgentRuns { .. } => true,
            Action::FindLatestRun { .. } => true,
            _ => false,
        },
{
    status_keeps(req, log, s, a);
    match s.at {
        StatusStep::Sessions { project } => {
            assert(is_named_project(req, log, project));
        },
        StatusStep::Running { project, sessions } => {
            assert(is_named_project(req, log, project));
        },
        _ => {},
    }
}

/// The state is told of each wave that is asked for, with its items and with what is known of the
/// runs of each task, unless an outcome refuses it.
pub proof fn law_what_telling_the_status_comes_to(
    req: Request,
    log: Seq<(Action, Event)>,
    n: Next<ExecStatus>,
)
    requires
        reaches(req, log, n),
    ensures
        !(n is End),
        log.len() > 0 ==> (refuses_status(req, log.last().1) <==> n is Reply && n->Reply_0.status
            == ResponseStatus::Error),
        n matches Next::Reply(r) ==> r.id == req.id && (r.status == ResponseStatus::Success
            ==> tells_status(req, log, r.data@)),
{
    if log.len() > 0 {
        let before = crate::histories::before_last::<ExecStatus>(req, log, n);
        status_keeps(req, log.drop_last(), before, log.last().0);
        status_step(req, log, before, n);
    }
}

} // verus!
