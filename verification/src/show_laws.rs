//! What `plan.show` and the listings are for.
use vstd::prelude::*;
use crate::effects::{Action, Event, Next};
use crate::histories::{had, reaches, Machine};
use crate::json::JsonV;
use crate::model::{DecompositionSession, Dependency, Project, Spec, SpecStatus, WorkItem};
use crate::plans::{PlanShow, ShowStep};
use crate::protocol::{Request, ResponseStatus};
use crate::stop_laws::is_named_project;

verus! {

impl Machine for PlanShow {
    open spec fn takes_up(req: Request, n: Next<PlanShow>) -> bool {
        PlanShow::begins(req, n)
    }

    open spec fn leads(self, ev: Event, n: Next<PlanShow>) -> bool {
        self.follows(ev, n)
    }
}

/// Whether the wave is the one to be shown of these: the first with the given number, or the last
/// of all where no number is given.
pub open spec fn is_shown_of(
    req: Request,
    sessions: Seq<DecompositionSession>,
    session: DecompositionSession,
) -> bool {
    match req.params@.natural_field("wave"@) {
        Some(w) => exists|i: int|
            0 <= i < sessions.len() && #[trigger] sessions[i] == session && session.wave_number
                == w as u32 && forall|k: int|
                0 <= k < i ==> (#[trigger] sessions[k]).wave_number != w as u32,
        None => sessions.len() > 0 && session == sessions[sessions.len() - 1],
    }
}

/// Whether there is no wave to be shown among these.
pub open spec fn shows_none_of(req: Request, sessions: Seq<DecompositionSession>) -> bool {
    match req.params@.natural_field("wave"@) {
        Some(w) => forall|k: int|
            0 <= k < sessions.len() ==> (#[trigger] sessions[k]).wave_number != w as u32,
        None => sessions.len() == 0,
    }
}

/// The wave that is found is the first with the number, and none is found where there is none.
pub proof fn wave_is_found(sessions: Seq<DecompositionSession>, wave: u32)
    ensures
        match crate::plans::find_wave(sessions, wave) {
            Some(session) => exists|i: int|
                0 <= i < sessions.len() && #[trigger] sessions[i] == session && session.wave_number
                    == wave && forall|k: int|
                    0 <= k < i ==> (#[trigger] sessions[k]).wave_number != wave,
            None => forall|k: int|
                0 <= k < sessions.len() ==> (#[trigger] sessions[k]).wave_number != wave,
        },
    decreases sessions.len(),
{
    if sessions.len() > 0 && sessions[0].wave_number == wave {
        assert(sessions[0] == sessions[0]);
    } else if sessions.len() > 0 {
        let rest = sessions.drop_first();
        wave_is_found(rest, wave);
        match crate::plans::find_wave(rest, wave) {
            Some(session) => {
                let i = choose|i: int|
                    0 <= i < rest.len() && #[trigger] rest[i] == session && session.wave_number
                        == wave && forall|k: int|
                        0 <= k < i ==> (#[trigger] rest[k]).wave_number != wave;
                assert(sessions[i + 1] == session);
                assert forall|k: int| 0 <= k < i + 1 implies (#[trigger] sessions[k]).wave_number
                    != wave by {
                    if k > 0 {
                        assert(rest[k - 1].wave_number != wave);
                    }
                }
            },
            None => {
                assert forall|k: int| 0 <= k < sessions.len() implies (
                #[trigger] sessions[k]).wave_number != wave by {
                    if k > 0 {
                        assert(rest[k - 1].wave_number != wave);
                    }
                }
            },
        }
    }
}

/// Whether the wave is the one that the request is about.
pub open spec fn is_shown(
    req: Request,
    log: Seq<(Action, Event)>,
    session: DecompositionSession,
) -> bool {
    exists|project: Project, v: Vec<DecompositionSession>|
        is_named_project(req, log, project) && #[trigger] had(
            log,
            Action::ListSessions { project: project.id },
            Event::Sessions(Ok(v)),
        ) && is_shown_of(req, v@, session)
}

spec fn show_holds(req: Request, log: Seq<(Action, Event)>, s: PlanShow, a: Action) -> bool {
    &&& s.job.id == req.id
    &&& req.params@.text_field("project_name"@) == Some(s.job.project_name@)
    &&& s.job.wave == match req.params@.natural_field("wave"@) {
        Some(w) => Some(w as u32),
        None => None,
    }
    &&& s.job.dag == (req.params@.truth_field("dag"@) == Some(true))
    &&& match s.at {
        ShowStep::Project => a == Action::GetProjectByName { name: s.job.project_name },
        ShowStep::Sessions => exists|project: Project| #[trigger]
            is_named_project(req, log, project) && a == (Action::ListSessions {
                project: project.id,
            }),
        ShowStep::Items { session } => is_shown(req, log, session) && a == (Action::ListItems {
            session: session.id,
        }),
        ShowStep::Dependencies { session, items } => {
            &&& is_shown(req, log, session)
            &&& had(log, Action::ListItems { session: session.id }, Event::WorkItems(Ok(items)))
            &&& a == Action::ListDependencies { session: session.id }
        },
    }
}

proof fn show_facts_stay(req: Request, log: Seq<(Action, Event)>)
    requires
        log.len() > 0,
    ensures
        forall|p: Project| #[trigger]
            is_named_project(req, log.drop_last(), p) ==> is_named_project(req, log, p),
        forall|w: DecompositionSession| #[trigger]
            is_shown(req, log.drop_last(), w) ==> is_shown(req, log, w),
{
    crate::histories::had_more(log);
    let init = log.drop_last();
    assert forall|p: Project| #[trigger] is_named_project(req, init, p) implies is_named_project(
        req,
        log,
        p,
    ) by {}
    assert forall|w: DecompositionSession| #[trigger] is_shown(req, init, w) implies is_shown(
        req,
        log,
        w,
    ) by {
        let (project, v) = choose|project: Project, v: Vec<DecompositionSession>|
            is_named_project(req, init, project) && #[trigger] had(
                init,
                Action::ListSessions { project: project.id },
                Event::Sessions(Ok(v)),
            ) && is_shown_of(req, v@, w);
        assert(had(
            log,
            Action::ListSessions { project: project.id },
            Event::Sessions(Ok(v)),
        ));
    }
}

proof fn show_keeps(req: Request, log: Seq<(Action, Event)>, s: PlanShow, a: Action)
    requires
        reaches(req, log, Next::Act(s, a)),
    ensures
        show_holds(req, log, s, a),
    decreases log.len(),
{
    if log.len() > 0 {
        let (b, ev) = log.last();
        let before = crate::histories::before_last::<PlanShow>(req, log, Next::Act(s, a));
        show_keeps(req, log.drop_last(), before, b);
        show_step(req, log, before, Next::Act(s, a));
    }
}

/// What an answer that shows a plan says: the graph or the tree of the wave, with its items and
/// its dependencies.
pub open spec fn shows_plan(req: Request, log: Seq<(Action, Event)>, data: JsonV) -> bool {
    exists|session: DecompositionSession, items: Vec<WorkItem>, deps: Vec<Dependency>|
        is_shown(req, log, session) && #[trigger] had(
            log,
            Action::ListItems { session: session.id },
            Event::WorkItems(Ok(items)),
        ) && #[trigger] had(
            log,
            Action::ListDependencies { session: session.id },
            Event::Dependencies(Ok(deps)),
        ) && data == if req.params@.truth_field("dag"@) == Some(true) {
            crate::plan_view::dag_view(session, items@, deps@)
        } else {
            crate::plan_view::tree_view(session, items@, deps@)
        }
}

/// Why a plan is not shown after this outcome: there is no such project or wave, or the database
/// failed.
pub open spec fn refuses_showing(req: Request, ev: Event) -> bool {
    match ev {
        Event::MaybeProject(r) => !(r matches Ok(Some(_))),
        Event::Sessions(r) => match r {
            Ok(v) => shows_none_of(req, v@),
            Err(_) => true,
        },
        Event::WorkItems(r) => r is Err,
        Event::Dependencies(r) => r is Err,
        _ => false,
    }
}

/// One step of a showing.
proof fn show_step(req: Request, log: Seq<(Action, Event)>, before: PlanShow, n: Next<PlanShow>)
    requires
        log.len() > 0,
        show_holds(req, log.drop_last(), before, log.last().0),
        before.follows(log.last().1, n),
    ensures
        n matches Next::Act(s, a) ==> show_holds(req, log, s, a),
        n matches Next::Reply(r) ==> r.id == req.id && (r.status == ResponseStatus::Success
            ==> shows_plan(req, log, r.data@)),
        refuses_showing(req, log.last().1) <==> n is Reply && n->Reply_0.status
            == ResponseStatus::Error,
        !(n is End),
{
    let (b, ev) = log.last();
    let init = log.drop_last();
    crate::histories::had_more(log);
    show_facts_stay(req, log);
    assert(had(log, b, ev));
    match (before.at, ev) {
        (ShowStep::Project, Event::MaybeProject(Ok(Some(project)))) => {
            assert(is_named_project(req, log, project));
        },
        (ShowStep::Sessions, Event::Sessions(Ok(v))) => {
            let project = choose|project: Project| #[trigger]
                is_named_project(req, init, project) && b == (Action::ListSessions {
                    project: project.id,
                });
            assert(is_named_project(req, log, project));
            assert(had(
                log,
                Action::ListSessions { project: project.id },
                Event::Sessions(Ok(v)),
            ));
            if before.job.wave is Some {
                wave_is_found(v@, before.job.wave->0);
            }
            if n is Act {
                assert(is_shown_of(req, v@, n->Act_0.at->Items_session));
                assert(is_shown(req, log, n->Act_0.at->Items_session));
                if req.params@.natural_field("wave"@) is Some {
                    let i = choose|i: int|
                        0 <= i < v@.len() && #[trigger] v@[i] == n->Act_0.at->Items_session;
                    assert(!shows_none_of(req, v@));
                }
            }
        },
        (ShowStep::Dependencies { session, items }, Event::Dependencies(Ok(deps))) => {
            assert(is_shown(req, log, session));
            assert(had(
                log,
                Action::ListItems { session: session.id },
                Event::WorkItems(Ok(items)),
            ));
            assert(had(
                log,
                Action::ListDependencies { session: session.id },
                Event::Dependencies(Ok(deps)),
            ));
        },
        _ => {},
    }
}

/// A showing only looks: at the named project, at its waves, and at the items and dependencies of
/// the wave that is asked for.
pub proof fn law_what_a_showing_does(req: Request, log: Seq<(Action, Event)>, s: PlanShow, a: Action)
    requires
        reaches(req, log, Next::Act(s, a)),
    ensures
        match a {
            Action::GetProjectByName { name } => req.params@.text_field("project_name"@) == Some(
                name@,
            ),
            Action::ListSessions { project } => exists|p: Project| #[trigger]
                is_named_project(req, log, p) && p.id == project,
            Action::ListItems { session } => exists|w: DecompositionSession| #[trigger]
                is_shown(req, log, w) && w.id == session,
            Action::ListDependencies { session } => exists|w: DecompositionSession| #[trigger]
                is_shown(req, log, w) && w.id == session,
            _ => false,
        },
{
    show_keeps(req, log, s, a);
    match s.at {
        ShowStep::Items { session } => {
            assert(is_shown(req, log, session));
        },
        ShowStep::Dependencies { session, items } => {
            assert(is_shown(req, log, session));
        },
        _ => {},
    }
}

/// A showing fails just where an outcome refuses it, and else shows the wave that is asked for.
pub proof fn law_what_a_showing_comes_to(
    req: Request,
    log: Seq<(Action, Event)>,
    n: Next<PlanShow>,
)
    requires
        reaches(req, log, n),
    ensures
        !(n is End),
        log.len() > 0 ==> (refuses_showing(req, log.last().1) <==> n is Reply && n->Reply_0.status
            == ResponseStatus::Error),
        n matches Next::Reply(r) ==> r.id == req.id && (r.status == ResponseStatus::Success
            ==> shows_plan(req, log, r.data@)),
{
    if log.len() > 0 {
        let before = crate::histories::before_last::<PlanShow>(req, log, n);
        show_keeps(req, log.drop_last(), before, log.last().0);
        show_step(req, log, before, n);
    }
}

/// A listing of specs has one entry for each that is not deleted, in their order, and the entry
/// tells of that spec.
pub proof fn law_a_listing_tells_of_each_spec(specs: Seq<Spec>, i: int)
    requires
        0 <= i < crate::specs::spec_entries(specs).len(),
    ensures
        crate::specs::spec_entries(specs).len() == specs.filter(
            |s: Spec| s.status != SpecStatus::Deleted,
        ).len(),
        ({
            let s = specs.filter(|s: Spec| s.status != SpecStatus::Deleted)[i];
            let entry = crate::specs::spec_entries(specs)[i];
            &&& entry.text_field("name"@) == Some(s.name@)
            &&& entry.text_field("status"@) == Some(s.status.name())
            &&& entry.truth_field("session_active"@) == Some(s.session_active)
            &&& entry.text_field("created_at"@) == Some(s.created_at.text())
        }),
{
    broadcast use crate::histories::field_of_with;

    reveal_strlit("name");
    reveal_strlit("status");
    reveal_strlit("session_active");
    reveal_strlit("created_at");
    assert("name"@.len() == 4);
    assert("status"@.len() == 6);
    assert("session_active"@.len() == 14);
    assert("created_at"@.len() == 10);
}

} // verus!
