//! What `plan.approve` and `plan.discard` are for, over the whole course of a request.
use vstd::prelude::*;
use crate::effects::{Action, Event, Next};
use crate::histories::{had, just, reaches, Machine};
use crate::ident::{Timestamp, Uuid};
use crate::json::JsonV;
use crate::model::{DecompositionSession, DecompositionStatus, Project, SpecStatus};
use crate::plans::{WaveCommand, WaveStep, WaveVerb};
use crate::protocol::{Request, ResponseStatus};
use crate::stop_laws::is_named_project;

verus! {

impl Machine for WaveCommand {
    open spec fn takes_up(req: Request, n: Next<WaveCommand>) -> bool {
        exists|verb: WaveVerb| #[trigger] WaveCommand::begins(req, verb, n)
    }

    open spec fn leads(self, ev: Event, n: Next<WaveCommand>) -> bool {
        self.follows(ev, n)
    }
}

/// How the wave is looked up: by its number where there is one, else as the one in progress.
pub open spec fn seeks_wave(req: Request, project: Project, a: Action) -> bool {
    match req.params@.natural_field("wave_number"@) {
        Some(w) => a == Action::GetSessionByWave { project: project.id, wave: w as u32 },
        None => a == Action::FindDraftSession { project: project.id },
    }
}

/// Whether the wave is the one that the request is about, and the project is its project.
pub open spec fn is_wave_of(
    req: Request,
    log: Seq<(Action, Event)>,
    project: Project,
    session: DecompositionSession,
) -> bool {
    &&& is_named_project(req, log, project)
    &&& exists|a: Action| #[trigger]
        had(log, a, Event::MaybeSession(Ok(Some(session)))) && seeks_wave(req, project, a)
}

/// Whether the wave was in progress and may be approved, with this status.
pub open spec fn is_approvable(
    req: Request,
    log: Seq<(Action, Event)>,
    project: Project,
    session: DecompositionSession,
    status: DecompositionStatus,
) -> bool {
    &&& is_wave_of(req, log, project, session)
    &&& session.status == DecompositionStatus::InProgress
    &&& had(log, Action::ApproveSession { session }, Event::SessionStatus(Ok(status)))
}

/// Whether the new status of the wave was stored.
pub open spec fn is_approved(
    req: Request,
    log: Seq<(Action, Event)>,
    project: Project,
    session: DecompositionSession,
    status: DecompositionStatus,
) -> bool {
    &&& is_approvable(req, log, project, session, status)
    &&& had(
        log,
        Action::UpdateSessionStatus { session: session.id, status },
        Event::Done(Ok(())),
    )
}

/// The project, with its execution enabled.
pub open spec fn is_enabled(project: Project, enabled: Project, at: Timestamp) -> bool {
    enabled == Project { execution_enabled: true, updated_at: at, ..project }
}

/// Whether the wave may be discarded: it is not yet, and no story of it is in progress.
pub open spec fn is_idle(
    req: Request,
    log: Seq<(Action, Event)>,
    project: Project,
    session: DecompositionSession,
) -> bool {
    &&& is_wave_of(req, log, project, session)
    &&& session.status != DecompositionStatus::Discarded
    &&& had(log, Action::HasInProgressStories { session: session.id }, Event::Flag(Ok(false)))
}

/// Whether the items of the wave are deleted, and the specs were listed before.
pub open spec fn is_emptied(
    req: Request,
    log: Seq<(Action, Event)>,
    project: Project,
    session: DecompositionSession,
    specs: Vec<Uuid>,
) -> bool {
    &&& is_idle(req, log, project, session)
    &&& had(log, Action::ListSpecIds { session: session.id }, Event::Uuids(Ok(specs)))
    &&& had(log, Action::DeleteItems { session: session.id }, Event::Done(Ok(())))
}

/// Whether the spec is approved again.
pub open spec fn is_freed(log: Seq<(Action, Event)>, spec: Uuid) -> bool {
    had(log, Action::UpdateSpecStatus { spec, status: SpecStatus::Approved }, Event::Done(Ok(())))
}

/// Whether the wave is undone: its items are deleted, and every spec of it is approved again.
pub open spec fn is_undone(
    req: Request,
    log: Seq<(Action, Event)>,
    project: Project,
    session: DecompositionSession,
    specs: Vec<Uuid>,
) -> bool {
    &&& is_emptied(req, log, project, session, specs)
    &&& forall|i: int| 0 <= i < specs@.len() ==> is_freed(log, #[trigger] specs@[i])
}

spec fn wave_holds(req: Request, log: Seq<(Action, Event)>, s: WaveCommand, a: Action) -> bool {
    &&& s.job.id == req.id
    &&& req.params@.text_field("project_name"@) == Some(s.job.project_name@)
    &&& s.job.wave == match req.params@.natural_field("wave_number"@) {
        Some(w) => Some(w as u32),
        None => None,
    }
    &&& match s.at {
        WaveStep::Project => log.len() == 0 && a == (Action::GetProjectByName {
            name: s.job.project_name,
        }),
        WaveStep::Session { project } => is_named_project(req, log, project) && seeks_wave(
            req,
            project,
            a,
        ),
        WaveStep::Approve { project, session } => {
            &&& s.job.verb is Approve
            &&& is_wave_of(req, log, project, session)
            &&& session.status == DecompositionStatus::InProgress
            &&& a == Action::ApproveSession { session }
        },
        WaveStep::Approved { project, wave, status } => {
            &&& s.job.verb is Approve
            &&& exists|session: DecompositionSession| #[trigger]
                is_approvable(req, log, project, session, status) && session.wave_number == wave
                    && a == (Action::UpdateSessionStatus { session: session.id, status })
        },
        WaveStep::Now { project, wave, status } => {
            &&& s.job.verb == WaveVerb::Approve { auto_execute: true }
            &&& exists|session: DecompositionSession| #[trigger]
                is_approved(req, log, project, session, status) && session.wave_number == wave
            &&& a == Action::Now
        },
        WaveStep::Enable { wave, status } => {
            &&& s.job.verb == WaveVerb::Approve { auto_execute: true }
            &&& exists|project: Project, session: DecompositionSession, at: Timestamp|
                #[trigger] is_approved(req, log, project, session, status) && session.wave_number
                    == wave && #[trigger] just(log, Action::Now, Event::Time(at)) && a is UpdateProject
                    && is_enabled(project, a->UpdateProject_project, at)
        },
        WaveStep::Busy { session } => {
            &&& s.job.verb is Discard
            &&& exists|project: Project| #[trigger] is_wave_of(req, log, project, session)
            &&& session.status != DecompositionStatus::Discarded
            &&& a == Action::HasInProgressStories { session: session.id }
        },
        WaveStep::Specs { session } => {
            &&& s.job.verb is Discard
            &&& exists|project: Project| #[trigger] is_idle(req, log, project, session)
            &&& a == Action::ListSpecIds { session: session.id }
        },
        WaveStep::Delete { session, specs } => {
            &&& s.job.verb is Discard
            &&& exists|project: Project| #[trigger] is_idle(req, log, project, session)
            &&& had(log, Action::ListSpecIds { session: session.id }, Event::Uuids(Ok(specs)))
            &&& a == Action::DeleteItems { session: session.id }
        },
        WaveStep::Revert { session, specs, done } => {
            &&& s.job.verb is Discard
            &&& exists|project: Project| #[trigger] is_emptied(req, log, project, session, specs)
            &&& done < specs@.len()
            &&& forall|i: int| 0 <= i < done ==> is_freed(log, #[trigger] specs@[i])
            &&& a == Action::UpdateSpecStatus {
                spec: specs@[done as int],
                status: SpecStatus::Approved,
            }
        },
        WaveStep::Discarded { wave } => {
            &&& s.job.verb is Discard
            &&& exists|project: Project, session: DecompositionSession, specs: Vec<Uuid>|
                #[trigger] is_undone(req, log, project, session, specs) && session.wave_number
                    == wave && a == (Action::UpdateSessionStatus {
                    session: session.id,
                    status: DecompositionStatus::Discarded,
                })
        },
    }
}

proof fn wave_facts_stay(req: Request, log: Seq<(Action, Event)>)
    requires
        log.len() > 0,
    ensures
        forall|p: Project| #[trigger]
            is_named_project(req, log.drop_last(), p) ==> is_named_project(req, log, p),
        forall|p: Project, w: DecompositionSession| #[trigger]
            is_wave_of(req, log.drop_last(), p, w) ==> is_wave_of(req, log, p, w),
        forall|p: Project, w: DecompositionSession, t: DecompositionStatus| #[trigger]
            is_approvable(req, log.drop_last(), p, w, t) ==> is_approvable(req, log, p, w, t),
        forall|p: Project, w: DecompositionSession, t: DecompositionStatus| #[trigger]
            is_approved(req, log.drop_last(), p, w, t) ==> is_approved(req, log, p, w, t),
        forall|p: Project, w: DecompositionSession| #[trigger]
            is_idle(req, log.drop_last(), p, w) ==> is_idle(req, log, p, w),
        forall|p: Project, w: DecompositionSession, v: Vec<Uuid>| #[trigger]
            is_emptied(req, log.drop_last(), p, w, v) ==> is_emptied(req, log, p, w, v),
        forall|u: Uuid| #[trigger] is_freed(log.drop_last(), u) ==> is_freed(log, u),
        forall|p: Project, w: DecompositionSession, v: Vec<Uuid>| #[trigger]
            is_undone(req, log.drop_last(), p, w, v) ==> is_undone(req, log, p, w, v),
{
    crate::histories::had_more(log);
    let init = log.drop_last();
    assert forall|p: Project| #[trigger] is_named_project(req, init, p) implies is_named_project(
        req,
        log,
        p,
    ) by {}
    assert forall|p: Project, w: DecompositionSession| #[trigger]
        is_wave_of(req, init, p, w) implies is_wave_of(req, log, p, w) by {
        let a = choose|a: Action| #[trigger]
            had(init, a, Event::MaybeSession(Ok(Some(w)))) && seeks_wave(req, p, a);
        assert(had(log, a, Event::MaybeSession(Ok(Some(w)))));
    }
    assert forall|p: Project, w: DecompositionSession, v: Vec<Uuid>| #[trigger]
        is_undone(req, init, p, w, v) implies is_undone(req, log, p, w, v) by {
        assert(is_emptied(req, init, p, w, v));
        assert forall|i: int| 0 <= i < v@.len() implies is_freed(log, #[trigger] v@[i]) by {
            assert(is_freed(init, v@[i]));
        }
    }
}

proof fn wave_keeps(req: Request, log: Seq<(Action, Event)>, s: WaveCommand, a: Action)
    requires
        reaches(req, log, Next::Act(s, a)),
    ensures
        wave_holds(req, log, s, a),
    decreases log.len(),
{
    if log.len() > 0 {
        let (b, ev) = log.last();
        let before = crate::histories::before_last::<WaveCommand>(req, log, Next::Act(s, a));
        wave_keeps(req, log.drop_last(), before, b);
        wave_step(req, log, before, Next::Act(s, a));
    }
}

/// What an answer of a command on a wave that went well says.
pub open spec fn tells_of_wave(
    req: Request,
    log: Seq<(Action, Event)>,
    verb: WaveVerb,
    data: JsonV,
) -> bool {
    match verb {
        WaveVerb::Approve { auto_execute } => exists|
            project: Project,
            session: DecompositionSession,
            status: DecompositionStatus,
        |
            #[trigger] is_approved(req, log, project, session, status) && data.field(
                "wave_number"@,
            ) == Some(JsonV::Int(session.wave_number as int)) && data.text_field("status"@) == Some(
                status.name(),
            ) && data.truth_field("execution_enabled"@) == Some(
                auto_execute || project.execution_enabled,
            ) && (auto_execute ==> was_enabled(log, project)),
        WaveVerb::Discard => exists|
            project: Project,
            session: DecompositionSession,
            specs: Vec<Uuid>,
        |
            #[trigger] is_undone(req, log, project, session, specs) && had(
                log,
                Action::UpdateSessionStatus {
                    session: session.id,
                    status: DecompositionStatus::Discarded,
                },
                Event::Done(Ok(())),
            ) && data.field("wave_number"@) == Some(JsonV::Int(session.wave_number as int))
                && data.text_field("status"@) == Some("discarded"@),
    }
}

/// Whether the project was stored with its execution enabled, and nothing else changed but the
/// time.
pub open spec fn was_enabled(log: Seq<(Action, Event)>, project: Project) -> bool {
    exists|enabled: Project, at: Timestamp|
        #[trigger] is_enabled(project, enabled, at) && had(
            log,
            Action::UpdateProject { project: enabled },
            Event::Done(Ok(())),
        )
}

/// Why a command on a wave fails after this outcome: something was not found, the wave is in
/// another state, or the database failed.
pub open spec fn refuses_wave(verb: WaveVerb, ev: Event) -> bool {
    match ev {
        Event::MaybeProject(r) => !(r matches Ok(Some(_))),
        Event::MaybeSession(r) => match r {
            Ok(Some(session)) => if verb is Discard {
                session.status == DecompositionStatus::Discarded
            } else {
                session.status != DecompositionStatus::InProgress
            },
            _ => true,
        },
        Event::SessionStatus(r) => r is Err,
        Event::Flag(r) => r != Ok::<bool, String>(false),
        Event::Uuids(r) => r is Err,
        Event::Done(r) => r is Err,
        _ => false,
    }
}

proof fn wave_fields(wave: u32, status: DecompositionStatus, enabled: bool)
    ensures
        crate::plans::wave_approved(wave, status, enabled).field("wave_number"@) == Some(
            JsonV::Int(wave as int),
        ),
        crate::plans::wave_approved(wave, status, enabled).text_field("status"@) == Some(
            status.name(),
        ),
        crate::plans::wave_approved(wave, status, enabled).truth_field("execution_enabled"@)
            == Some(enabled),
        crate::plans::wave_discarded(wave).field("wave_number"@) == Some(JsonV::Int(wave as int)),
        crate::plans::wave_discarded(wave).text_field("status"@) == Some("discarded"@),
{
    broadcast use crate::histories::field_of_with;

    reveal_strlit("wave_number");
    reveal_strlit("status");
    reveal_strlit("execution_enabled");
    assert("wave_number"@.len() == 11);
    assert("status"@.len() == 6);
    assert("execution_enabled"@.len() == 17);
}

/// One step of a command on a wave.
#[verifier::rlimit(40)]
proof fn wave_step(
    req: Request,
    log: Seq<(Action, Event)>,
    before: WaveCommand,
    n: Next<WaveCommand>,
)
    requires
        log.len() > 0,
        wave_holds(req, log.drop_last(), before, log.last().0),
        before.follows(log.last().1, n),
    ensures
        n matches Next::Act(s, a) ==> wave_holds(req, log, s, a) && s.job.verb == before.job.verb,
        n matches Next::Reply(r) ==> r.id == req.id && (r.status == ResponseStatus::Success
            ==> tells_of_wave(req, log, before.job.verb, r.data@)),
        refuses_wave(before.job.verb, log.last().1) <==> n is Reply && n->Reply_0.status
            == ResponseStatus::Error,
        !(n is End),
{
    let (b, ev) = log.last();
    let init = log.drop_last();
    crate::histories::had_more(log);
    wave_facts_stay(req, log);
    assert(had(log, b, ev));
    match (before.at, ev) {
        (WaveStep::Project, Event::MaybeProject(Ok(Some(project)))) => {
            assert(is_named_project(req, log, project));
        },
        (WaveStep::Session { project }, Event::MaybeSession(Ok(Some(session)))) => {
            assert(is_wave_of(req, log, project, session));
        },
        (WaveStep::Approve { project, session }, Event::SessionStatus(Ok(status))) => {
            assert(is_approvable(req, log, project, session, status));
            assert(is_approvable(
                req,
                log,
                n->Act_0.at->Approved_project,
                session,
                n->Act_0.at->Approved_status,
            ));
        },
        (WaveStep::Approved { project, wave, status }, Event::Done(Ok(_))) => {
            let session = choose|session: DecompositionSession| #[trigger]
                is_approvable(req, init, project, session, status) && session.wave_number == wave
                    && b == (Action::UpdateSessionStatus { session: session.id, status });
            assert(is_approved(req, log, project, session, status));
            wave_fields(wave, status, project.execution_enabled);
            if before.job.verb == (WaveVerb::Approve { auto_execute: true }) {
                assert(is_approved(
                    req,
                    log,
                    n->Act_0.at->Now_project,
                    session,
                    n->Act_0.at->Now_status,
                ));
            } else {
                assert(!before.job.verb->auto_execute);
            }
        },
        (WaveStep::Now { project, wave, status }, Event::Time(now)) => {
            let session = choose|session: DecompositionSession| #[trigger]
                is_approved(req, init, project, session, status) && session.wave_number == wave;
            assert(is_approved(req, log, project, session, status));
            assert(just(log, Action::Now, Event::Time(now)));
            assert(is_approved(req, log, project, session, n->Act_0.at->Enable_status));
        },
        (WaveStep::Enable { wave, status }, Event::Done(Ok(_))) => {
            let (project, session, at) = choose|
                project: Project,
                session: DecompositionSession,
                at: Timestamp,
            |
                #[trigger] is_approved(req, init, project, session, status) && session.wave_number
                    == wave && #[trigger] just(init, Action::Now, Event::Time(at)) && b is UpdateProject
                    && is_enabled(project, b->UpdateProject_project, at);
            assert(is_approved(req, log, project, session, status));
            assert(is_enabled(project, b->UpdateProject_project, at));
            wave_fields(wave, status, true);
        },
        (WaveStep::Busy { session }, Event::Flag(Ok(false))) => {
            let project = choose|project: Project| #[trigger]
                is_wave_of(req, init, project, session);
            assert(is_idle(req, log, project, session));
            assert(is_idle(req, log, project, n->Act_0.at->Specs_session));
        },
        (WaveStep::Specs { session }, Event::Uuids(Ok(specs))) => {
            let project = choose|project: Project| #[trigger] is_idle(req, init, project, session);
            assert(is_idle(req, log, project, session));
            assert(is_idle(req, log, project, n->Act_0.at->Delete_session));
        },
        (WaveStep::Delete { session, specs }, Event::Done(Ok(_))) => {
            let project = choose|project: Project| #[trigger] is_idle(req, init, project, session);
            assert(is_idle(req, log, project, session));
            assert(is_emptied(req, log, project, session, specs));
            if specs@.len() > 0 {
                assert(is_emptied(
                    req,
                    log,
                    project,
                    n->Act_0.at->Revert_session,
                    n->Act_0.at->Revert_specs,
                ));
            } else {
                assert(is_undone(req, log, project, session, specs));
            }
        },
        (WaveStep::Revert { session, specs, done }, Event::Done(Ok(_))) => {
            let project = choose|project: Project| #[trigger]
                is_emptied(req, init, project, session, specs);
            assert(is_emptied(req, log, project, session, specs));
            assert(is_freed(log, specs@[done as int]));
            assert forall|i: int| 0 <= i < done + 1 implies is_freed(log, #[trigger] specs@[i]) by {
                if i < done {
                    assert(is_freed(init, specs@[i]));
                }
            }
            assert(specs.len() == specs@.len());
            if done + 1 < specs@.len() {
                assert(is_emptied(
                    req,
                    log,
                    project,
                    n->Act_0.at->Revert_session,
                    n->Act_0.at->Revert_specs,
                ));
            } else {
                assert(is_undone(req, log, project, session, specs));
            }
        },
        (WaveStep::Discarded { wave }, Event::Done(Ok(_))) => {
            let (project, session, specs) = choose|
                project: Project,
                session: DecompositionSession,
                specs: Vec<Uuid>,
            |
                #[trigger] is_undone(req, init, project, session, specs) && session.wave_number
                    == wave && b == (Action::UpdateSessionStatus {
                    session: session.id,
                    status: DecompositionStatus::Discarded,
                });
            assert(is_undone(req, log, project, session, specs));
            wave_fields(wave, DecompositionStatus::Discarded, true);
        },
        _ => {},
    }
}

/// A command on a wave looks up the named project and the wave that the request is about. An
/// approval stores nothing but the status that a wave in progress may take, and then, if asked
/// to, that the project is executed. A discarding touches only a wave without stories in
/// progress: it deletes its items, approves its specs again, and last of all marks it as
/// discarded, when every spec is approved again.
pub proof fn law_what_a_wave_command_does(
    req: Request,
    log: Seq<(Action, Event)>,
    s: WaveCommand,
    a: Action,
)
    requires
        reaches(req, log, Next::Act(s, a)),
    ensures
        match a {
            Action::GetProjectByName { name } => req.params@.text_field("project_name"@) == Some(
                name@,
            ),
            Action::GetSessionByWave { .. } => exists|project: Project| #[trigger]
                is_named_project(req, log, project) && seeks_wave(req, project, a),
            Action::FindDraftSession { .. } => exists|project: Project| #[trigger]
                is_named_project(req, log, project) && seeks_wave(req, project, a),
            Action::ApproveSession { session } => s.job.verb is Approve && session.status
                == DecompositionStatus::InProgress && exists|project: Project| #[trigger]
                is_wave_of(req, log, project, session),
            Action::UpdateSessionStatus { session, status } => if s.job.verb is Approve {
                exists|project: Project, found: DecompositionSession| #[trigger]
                    is_approvable(req, log, project, found, status) && found.id == session
            } else {
                status == DecompositionStatus::Discarded && exists|
                    project: Project,
                    found: DecompositionSession,
                    specs: Vec<Uuid>,
                | #[trigger]
                    is_undone(req, log, project, found, specs) && found.id == session
            },
            Action::Now => s.job.verb == (WaveVerb::Approve { auto_execute: true }),
            Action::UpdateProject { project: enabled } => s.job.verb == (WaveVerb::Approve {
                auto_execute: true,
            }) && exists|
                project: Project,
                session: DecompositionSession,
                status: DecompositionStatus,
                at: Timestamp,
            |
                #[trigger] is_approved(req, log, project, session, status) && #[trigger] is_enabled(
                    project,
                    enabled,
                    at,
                ) && just(log, Action::Now, Event::Time(at)),
            Action::HasInProgressStories { session } => s.job.verb is Discard && exists|
                project: Project,
                found: DecompositionSession,
            | #[trigger]
                is_wave_of(req, log, project, found) && found.id == session && found.status
                    != DecompositionStatus::Discarded,
            Action::ListSpecIds { session } => s.job.verb is Discard && exists|
                project: Project,
                found: DecompositionSession,
            | #[trigger]
                is_idle(req, log, project, found) && found.id == session,
            Action::DeleteItems { session } => s.job.verb is Discard && exists|
                project: Project,
                found: DecompositionSession,
                specs: Vec<Uuid>,
            |
                #[trigger] is_idle(req, log, project, found) && found.id == session && #[trigger] had(
                    log,
                    Action::ListSpecIds { session },
                    Event::Uuids(Ok(specs)),
                ),
            Action::UpdateSpecStatus { spec, status } => s.job.verb is Discard && status
                == SpecStatus::Approved && exists|
                project: Project,
                found: DecompositionSession,
                specs: Vec<Uuid>,
            | #[trigger]
                is_emptied(req, log, project, found, specs) && specs@.contains(spec),
            _ => false,
        },
{
    wave_keeps(req, log, s, a);
    match s.at {
        WaveStep::Session { project } => {
            assert(is_named_project(req, log, project));
        },
        WaveStep::Approve { project, session } => {
            assert(is_wave_of(req, log, project, session));
        },
        WaveStep::Enable { wave, status } => {
            let (project, session, at) = choose|
                project: Project,
                session: DecompositionSession,
                at: Timestamp,
            |
                #[trigger] is_approved(req, log, project, session, status) && session.wave_number
                    == wave && #[trigger] just(log, Action::Now, Event::Time(at)) && a is UpdateProject
                    && is_enabled(project, a->UpdateProject_project, at);
            assert(is_approved(req, log, project, session, status));
            assert(is_enabled(project, a->UpdateProject_project, at));
        },
        WaveStep::Approved { project, wave, status } => {
            let session = choose|session: DecompositionSession| #[trigger]
                is_approvable(req, log, project, session, status) && session.wave_number == wave
                    && a == (Action::UpdateSessionStatus { session: session.id, status });
            assert(is_approvable(req, log, project, session, a->UpdateSessionStatus_status));
        },
        WaveStep::Busy { session } => {
            let project = choose|project: Project| #[trigger]
                is_wave_of(req, log, project, session);
            assert(is_wave_of(req, log, project, session));
        },
        WaveStep::Specs { session } => {
            let project = choose|project: Project| #[trigger] is_idle(req, log, project, session);
            assert(is_idle(req, log, project, session));
        },
        WaveStep::Delete { session, specs } => {
            let project = choose|project: Project| #[trigger] is_idle(req, log, project, session);
            assert(is_idle(req, log, project, session));
            assert(had(
                log,
                Action::ListSpecIds { session: a->DeleteItems_session },
                Event::Uuids(Ok(specs)),
            ));
        },
        WaveStep::Revert { session, specs, done } => {
            let project = choose|project: Project| #[trigger]
                is_emptied(req, log, project, session, specs);
            assert(is_emptied(req, log, project, session, specs));
            assert(specs@.contains(specs@[done as int]));
        },
        _ => {},
    }
}

/// A command on a wave fails just where an outcome refuses it, and an answer that it went well
/// tells what became of the wave.
pub proof fn law_what_a_wave_command_comes_to(
    req: Request,
    log: Seq<(Action, Event)>,
    s: WaveCommand,
    a: Action,
    ev: Event,
    n: Next<WaveCommand>,
)
    requires
        reaches(req, log, Next::Act(s, a)),
        a.answered_by(ev),
        s.follows(ev, n),
    ensures
        !(n is End),
        n matches Next::Act(t, b) ==> t.job.verb == s.job.verb,
        refuses_wave(s.job.verb, ev) <==> n is Reply && n->Reply_0.status == ResponseStatus::Error,
        n matches Next::Reply(r) ==> r.id == req.id && (r.status == ResponseStatus::Success
            ==> tells_of_wave(req, log.push((a, ev)), s.job.verb, r.data@)),
{
    wave_keeps(req, log, s, a);
    let more = log.push((a, ev));
    assert(more.drop_last() =~= log);
    wave_step(req, more, s, n);
}

} // verus!
