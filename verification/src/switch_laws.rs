//! What `exec.run` and `exec.pause` are for, over the whole course of a request.
use vstd::prelude::*;
use crate::effects::{Action, Event, Next};
use crate::execution::{ExecSwitch, SwitchStep};
use crate::histories::{had, just, reaches, Machine};
use crate::ident::Timestamp;
use crate::json::JsonV;
use crate::model::{AgentRun, Project};
use crate::project_laws::went_well;
use crate::protocol::{Request, ResponseStatus};
use crate::stop_laws::is_named_project;

verus! {

impl Machine for ExecSwitch {
    open spec fn takes_up(req: Request, n: Next<ExecSwitch>) -> bool {
        exists|enable: bool| #[trigger] ExecSwitch::begins(req, enable, n)
    }

    open spec fn leads(self, ev: Event, n: Next<ExecSwitch>) -> bool {
        self.follows(ev, n)
    }
}

/// The project with its execution switched, and nothing else changed but the time.
pub open spec fn is_turned(p: Project, q: Project, enable: bool, at: Timestamp) -> bool {
    q == Project { execution_enabled: enable, updated_at: at, ..p }
}

/// Whether the project is as it was asked for: it was so, or it was stored so.
pub open spec fn is_switched(
    req: Request,
    log: Seq<(Action, Event)>,
    enable: bool,
    p: Project,
) -> bool {
    &&& is_named_project(req, log, p)
    &&& p.execution_enabled == enable || exists|q: Project, at: Timestamp|
        #[trigger] is_turned(p, q, enable, at) && went_well(
            log,
            Action::UpdateProject { project: q },
        )
}

/// Whether the action limits the execution of the project as the request says.
pub open spec fn is_limit(req: Request, p: Project, a: Action) -> bool {
    &&& a matches Action::LimitExecution { project, parallel, story }
    &&& project == p.id
    &&& match req.params@.natural_field("parallel"@) {
        Some(k) => parallel == Some(k as u32),
        None => parallel is None,
    }
    &&& match req.params@.text_field("story"@) {
        Some(t) => story is Some && story->0@ == t,
        None => story is None,
    }
}

/// Whether the execution goes on as it was asked for, with its limits where it is enabled.
pub open spec fn is_under_way(
    req: Request,
    log: Seq<(Action, Event)>,
    enable: bool,
    p: Project,
) -> bool {
    &&& is_switched(req, log, enable, p)
    &&& enable ==> exists|a: Action, ev: Event| #[trigger] had(log, a, ev) && is_limit(req, p, a)
}

spec fn switch_holds(req: Request, log: Seq<(Action, Event)>, s: ExecSwitch, a: Action) -> bool {
    let on = s.job.enable;
    &&& s.job.id == req.id
    &&& req.params@.text_field("project_name"@) == Some(s.job.project_name@)
    &&& on ==> s.job.parallel == match req.params@.natural_field("parallel"@) {
        Some(k) => Some(k as u32),
        None => None,
    }
    &&& on ==> crate::text::is_text(s.job.story, req.params@.text_field("story"@))
    &&& match s.at {
        SwitchStep::Project => a == Action::GetProjectByName { name: s.job.project_name },
        SwitchStep::Now { project } => {
            &&& is_named_project(req, log, project)
            &&& project.execution_enabled != on
            &&& a == Action::Now
        },
        SwitchStep::Update { project: q } => {
            &&& a == Action::UpdateProject { project: q }
            &&& exists|p: Project, at: Timestamp|
                #[trigger] is_turned(p, q, on, at) && is_named_project(req, log, p)
                    && p.execution_enabled != on && just(log, Action::Now, Event::Time(at))
        },
        SwitchStep::Limit { project } => {
            &&& on
            &&& exists|p: Project| #[trigger]
                is_switched(req, log, on, p) && p.id == project.id && is_limit(req, p, a)
        },
        SwitchStep::Running { project } => {
            &&& a == Action::FindRunningAgents { project: project.id }
            &&& exists|p: Project| #[trigger] is_under_way(req, log, on, p) && p.id == project.id
        },
        SwitchStep::Pending { running } => exists|p: Project, v: Vec<AgentRun>|
            is_under_way(req, log, on, p) && #[trigger] had(
                log,
                Action::FindRunningAgents { project: p.id },
                Event::AgentRuns(Ok(v)),
            ) && running == v@.len() as u32 && a == (Action::CountPendingStories {
                project: p.id,
            }),
    }
}

proof fn switch_facts_stay(req: Request, log: Seq<(Action, Event)>)
    requires
        log.len() > 0,
    ensures
        forall|p: Project| #[trigger]
            is_named_project(req, log.drop_last(), p) ==> is_named_project(req, log, p),
        forall|b: bool, p: Project| #[trigger]
            is_switched(req, log.drop_last(), b, p) ==> is_switched(req, log, b, p),
        forall|b: bool, p: Project| #[trigger]
            is_under_way(req, log.drop_last(), b, p) ==> is_under_way(req, log, b, p),
{
    crate::histories::had_more(log);
    let init = log.drop_last();
    assert forall|p: Project| #[trigger] is_named_project(req, init, p) implies is_named_project(
        req,
        log,
        p,
    ) by {}
    assert forall|b: bool, p: Project| #[trigger] is_switched(req, init, b, p) implies is_switched(
        req,
        log,
        b,
        p,
    ) by {
        if p.execution_enabled != b {
            let (q, at) = choose|q: Project, at: Timestamp|
                #[trigger] is_turned(p, q, b, at) && went_well(
                    init,
                    Action::UpdateProject { project: q },
                );
            assert(is_turned(p, q, b, at));
        }
    }
    assert forall|b: bool, p: Project| #[trigger]
        is_under_way(req, init, b, p) implies is_under_way(req, log, b, p) by {
        assert(is_switched(req, init, b, p));
        if b {
            let (a, ev) = choose|a: Action, ev: Event| #[trigger]
                had(init, a, ev) && is_limit(req, p, a);
            assert(had(log, a, ev));
        }
    }
}

proof fn switch_keeps(req: Request, log: Seq<(Action, Event)>, s: ExecSwitch, a: Action)
    requires
        reaches(req, log, Next::Act(s, a)),
    ensures
        switch_holds(req, log, s, a),
    decreases log.len(),
{
    if log.len() > 0 {
        let (b, ev) = log.last();
        let before = crate::histories::before_last::<ExecSwitch>(req, log, Next::Act(s, a));
        switch_keeps(req, log.drop_last(), before, b);
        switch_step(req, log, before, Next::Act(s, a));
    }
}

/// What an answer of a switching that went well says.
pub open spec fn tells_of_switching(
    req: Request,
    log: Seq<(Action, Event)>,
    enable: bool,
    data: JsonV,
) -> bool {
    exists|p: Project, v: Vec<AgentRun>, pending: u32|
        is_under_way(req, log, enable, p) && #[trigger] had(
            log,
            Action::FindRunningAgents { project: p.id },
            Event::AgentRuns(Ok(v)),
        ) && #[trigger] had(
            log,
            Action::CountPendingStories { project: p.id },
            Event::Count(Ok(pending)),
        ) && data.truth_field("execution_enabled"@) == Some(enable) && data.field(
            "running_count"@,
        ) == Some(JsonV::Int((v@.len() as u32) as int)) && data.field("pending_count"@) == Some(
            JsonV::Int(pending as int),
        )
}

/// Why a switching fails after this outcome: there is no such project, or the database failed.
pub open spec fn refuses_switching(a: Action, ev: Event) -> bool {
    match ev {
        Event::MaybeProject(r) => !(r matches Ok(Some(_))),
        Event::Done(r) => r is Err && a is UpdateProject,
        Event::AgentRuns(r) => r is Err,
        Event::Count(r) => r is Err,
        _ => false,
    }
}

proof fn switched_fields(enabled: bool, running: u32, pending: u32)
    ensures
        crate::execution::switched(enabled, running, pending).truth_field("execution_enabled"@)
            == Some(enabled),
        crate::execution::switched(enabled, running, pending).field("running_count"@) == Some(
            JsonV::Int(running as int),
        ),
        crate::execution::switched(enabled, running, pending).field("pending_count"@) == Some(
            JsonV::Int(pending as int),
        ),
{
    broadcast use crate::histories::field_of_with;

    reveal_strlit("execution_enabled");
    reveal_strlit("running_count");
    reveal_strlit("pending_count");
    assert("execution_enabled"@.len() == 17);
    assert("running_count"@.len() == 13 && "running_count"@[0] == 'r');
    assert("pending_count"@.len() == 13 && "pending_count"@[0] == 'p');
}

proof fn switch_goes_on(
    req: Request,
    log: Seq<(Action, Event)>,
    before: ExecSwitch,
    p: Project,
    q: Project,
    n: Next<ExecSwitch>,
)
    requires
        before.job.id == req.id,
        req.params@.text_field("project_name"@) == Some(before.job.project_name@),
        before.job.enable ==> before.job.parallel == match req.params@.natural_field(
            "parallel"@,
        ) {
            Some(k) => Some(k as u32),
            None => None,
        },
        before.job.enable ==> crate::text::is_text(
            before.job.story,
            req.params@.text_field("story"@),
        ),
        is_switched(req, log, before.job.enable, p),
        q.id == p.id,
        ExecSwitch::proceeds(before.job, q, n),
    ensures
        n matches Next::Act(s, a) && switch_holds(req, log, s, a) && s.job == before.job,
{
    if before.job.enable {
        assert(is_limit(req, p, n->Act_1));
    } else {
        assert(is_under_way(req, log, before.job.enable, p));
    }
}

/// One step of a switching.
proof fn switch_step(
    req: Request,
    log: Seq<(Action, Event)>,
    before: ExecSwitch,
    n: Next<ExecSwitch>,
)
    requires
        log.len() > 0,
        switch_holds(req, log.drop_last(), before, log.last().0),
        before.follows(log.last().1, n),
    ensures
        n matches Next::Act(s, a) ==> switch_holds(req, log, s, a) && s.job == before.job,
        n matches Next::Reply(r) ==> r.id == req.id && (r.status == ResponseStatus::Success
            ==> tells_of_switching(req, log, before.job.enable, r.data@)),
        refuses_switching(log.last().0, log.last().1) <==> n is Reply && n->Reply_0.status
            == ResponseStatus::Error,
        !(n is End),
{
    let (b, ev) = log.last();
    let init = log.drop_last();
    let on = before.job.enable;
    crate::histories::had_more(log);
    switch_facts_stay(req, log);
    assert(had(log, b, ev));
    match (before.at, ev) {
        (SwitchStep::Project, Event::MaybeProject(Ok(Some(project)))) => {
            assert(is_named_project(req, log, project));
            if project.execution_enabled == on {
                assert(is_switched(req, log, on, project));
                switch_goes_on(req, log, before, project, project, n);
            }
        },
        (SwitchStep::Now { project }, Event::Time(now)) => {
            let q = Project { execution_enabled: on, updated_at: now, ..project };
            assert(is_turned(project, q, on, now));
            assert(is_turned(project, n->Act_0.at->Update_project, on, now));
        },
        (SwitchStep::Update { project: q }, Event::Done(Ok(_))) => {
            let (p, at) = choose|p: Project, at: Timestamp|
                #[trigger] is_turned(p, q, on, at) && is_named_project(req, init, p)
                    && p.execution_enabled != on && just(init, Action::Now, Event::Time(at));
            assert(is_named_project(req, log, p));
            assert(is_turned(p, q, on, at));
            assert(is_switched(req, log, on, p));
            switch_goes_on(req, log, before, p, q, n);
        },
        (SwitchStep::Limit { project }, Event::Done(_)) => {
            let p = choose|p: Project| #[trigger]
                is_switched(req, init, on, p) && p.id == project.id && is_limit(req, p, b);
            assert(is_switched(req, log, on, p));
            assert(is_under_way(req, log, on, p));
        },
        (SwitchStep::Running { project }, Event::AgentRuns(Ok(v))) => {
            let p = choose|p: Project| #[trigger]
                is_under_way(req, init, on, p) && p.id == project.id;
            assert(is_under_way(req, log, on, p));
            assert(had(
                log,
                Action::FindRunningAgents { project: p.id },
                Event::AgentRuns(Ok(v)),
            ));
        },
        (SwitchStep::Pending { running }, Event::Count(Ok(pending))) => {
            let (p, v) = choose|p: Project, v: Vec<AgentRun>|
                is_under_way(req, init, on, p) && #[trigger] had(
                    init,
                    Action::FindRunningAgents { project: p.id },
                    Event::AgentRuns(Ok(v)),
                ) && running == v@.len() as u32 && b == (Action::CountPendingStories {
                    project: p.id,
                });
            assert(is_under_way(req, log, on, p));
            assert(had(
                log,
                Action::FindRunningAgents { project: p.id },
                Event::AgentRuns(Ok(v)),
            ));
            assert(had(
                log,
                Action::CountPendingStories { project: p.id },
                Event::Count(Ok(pending)),
            ));
            switched_fields(on, running, pending);
        },
        _ => {},
    }
}

/// A switching stores the named project only where its execution is not yet as asked for, and
/// then with nothing else changed but the time. Where execution is enabled, it is limited as the
/// request says.
pub proof fn law_what_a_switching_does(
    req: Request,
    log: Seq<(Action, Event)>,
    s: ExecSwitch,
    a: Action,
)
    requires
        reaches(req, log, Next::Act(s, a)),
    ensures
        match a {
            Action::GetProjectByName { name } => req.params@.text_field("project_name"@) == Some(
                name@,
            ),
            Action::Now => exists|p: Project| #[trigger]
                is_named_project(req, log, p) && p.execution_enabled != s.job.enable,
            Action::UpdateProject { project: q } => exists|p: Project, at: Timestamp|
                #[trigger] is_turned(p, q, s.job.enable, at) && is_named_project(req, log, p)
                    && p.execution_enabled != s.job.enable && just(
                    log,
                    Action::Now,
                    Event::Time(at),
                ),
            Action::LimitExecution { .. } => s.job.enable && exists|p: Project| #[trigger]
                is_switched(req, log, s.job.enable, p) && is_limit(req, p, a),
            Action::FindRunningAgents { project } => exists|p: Project| #[trigger]
                is_under_way(req, log, s.job.enable, p) && p.id == project,
            Action::CountPendingStories { project } => exists|p: Project| #[trigger]
                is_under_way(req, log, s.job.enable, p) && p.id == project,
            _ => false,
        },
{
    switch_keeps(req, log, s, a);
    match s.at {
        SwitchStep::Now { project } => {
            assert(is_named_project(req, log, project));
        },
        SwitchStep::Update { project: q } => {
            let (p, at) = choose|p: Project, at: Timestamp|
                #[trigger] is_turned(p, q, s.job.enable, at) && is_named_project(req, log, p)
                    && p.execution_enabled != s.job.enable && just(
                    log,
                    Action::Now,
                    Event::Time(at),
                );
            assert(is_turned(p, a->UpdateProject_project, s.job.enable, at));
        },
        _ => {},
    }
}

/// A switching fails just where an outcome refuses it. One that goes well has left the project as
/// asked for, and tells how many agents work and how many stories wait.
pub proof fn law_what_a_switching_comes_to(
    req: Request,
    log: Seq<(Action, Event)>,
    s: ExecSwitch,
    a: Action,
    ev: Event,
    n: Next<ExecSwitch>,
)
    requires
        reaches(req, log, Next::Act(s, a)),
        a.answered_by(ev),
        s.follows(ev, n),
    ensures
        !(n is End),
        n matches Next::Act(t, b) ==> t.job == s.job,
        refuses_switching(a, ev) <==> n is Reply && n->Reply_0.status == ResponseStatus::Error,
        n matches Next::Reply(r) ==> r.id == req.id && (r.status == ResponseStatus::Success
            ==> tells_of_switching(req, log.push((a, ev)), s.job.enable, r.data@)),
{
    switch_keeps(req, log, s, a);
    let more = log.push((a, ev));
    assert(more.drop_last() =~= log);
    switch_step(req, more, s, n);
}

} // verus!
