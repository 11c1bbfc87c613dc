//! What the commands on one named spec are for, over the whole course of a request.
use vstd::prelude::*;
use crate::effects::{Action, Event, Next};
use crate::histories::{had, just, reaches, Machine};
use crate::json::JsonV;
use crate::model::{Project, Spec, SpecChange, SpecStatus};
use crate::protocol::{Request, ResponseStatus};
use crate::specs::{SpecCommand, SpecStep, SpecVerb};
use crate::stop_laws::is_named_project;

verus! {

impl Machine for SpecCommand {
    open spec fn takes_up(req: Request, n: Next<SpecCommand>) -> bool {
        exists|verb: SpecVerb| #[trigger] SpecCommand::begins(req, verb, n)
    }

    open spec fn leads(self, ev: Event, n: Next<SpecCommand>) -> bool {
        self.follows(ev, n)
    }
}

/// Whether the spec is the named one of the named project.
pub open spec fn is_named_spec(req: Request, log: Seq<(Action, Event)>, spec: Spec) -> bool {
    exists|project: Project, name: String|
        is_named_project(req, log, project) && req.params@.text_field("spec_name"@) == Some(name@)
            && #[trigger] had(
            log,
            Action::GetSpecByName { project: project.id, name },
            Event::MaybeSpec(Ok(Some(spec))),
        )
}

/// Whether the command may take the spec as it is: one that is approved is deleted only by force.
pub open spec fn may_take(verb: SpecVerb, spec: Spec) -> bool {
    verb matches SpecVerb::Delete { force } ==> force || spec.status != SpecStatus::Approved
}

/// Whether the session of the spec was closed, and remembered.
pub open spec fn is_laid_down(log: Seq<(Action, Event)>, spec: Spec) -> bool {
    had(
        log,
        Action::UpdateSpecSession {
            spec: spec.id,
            active: false,
            claude_session_id: spec.claude_session_id,
        },
        Event::Done(Ok(())),
    )
}

/// Whether the change is what the command asks for.
pub open spec fn asks_for(verb: SpecVerb, change: SpecChange) -> bool {
    match verb {
        SpecVerb::Approve => change == SpecChange::Approve,
        SpecVerb::Reopen => change == SpecChange::Reopen,
        SpecVerb::Delete { .. } => change == SpecChange::Delete,
        _ => false,
    }
}

/// Whether `now` is the spec as the change finds it: its session is closed first, but for a
/// reopening.
pub open spec fn is_settled_spec(
    req: Request,
    log: Seq<(Action, Event)>,
    verb: SpecVerb,
    spec: Spec,
    now: Spec,
) -> bool {
    &&& is_named_spec(req, log, spec)
    &&& may_take(verb, spec)
    &&& if spec.session_active && !(verb is Reopen) {
        is_laid_down(log, spec) && now == (Spec { session_active: false, ..spec })
    } else {
        now == spec
    }
}

/// Whether the change was allowed, and gives the spec this status.
pub open spec fn is_allowed(
    req: Request,
    log: Seq<(Action, Event)>,
    verb: SpecVerb,
    spec: Spec,
    now: Spec,
    status: SpecStatus,
) -> bool {
    &&& is_settled_spec(req, log, verb, spec, now)
    &&& exists|change: SpecChange|
        asks_for(verb, change) && #[trigger] had(
            log,
            Action::ChangeSpec { spec: now, change },
            Event::SpecStatus(Ok(status)),
        )
}

spec fn spec_holds(req: Request, log: Seq<(Action, Event)>, s: SpecCommand, a: Action) -> bool {
    let verb = s.job.verb;
    &&& s.job.id == req.id
    &&& req.params@.text_field("project_name"@) == Some(s.job.project_name@)
    &&& req.params@.text_field("spec_name"@) == Some(s.job.spec_name@)
    &&& match s.at {
        SpecStep::Project => log.len() == 0 && a == (Action::GetProjectByName {
            name: s.job.project_name,
        }),
        SpecStep::Spec => exists|project: Project| #[trigger]
            is_named_project(req, log, project) && a == (Action::GetSpecByName {
                project: project.id,
                name: s.job.spec_name,
            }),
        SpecStep::Read { spec } => {
            &&& verb is View
            &&& is_named_spec(req, log, spec)
            &&& a == Action::ReadFile { path: spec.file_path }
        },
        SpecStep::Stop { spec } => {
            &&& verb is Approve || verb is Deactivate || verb is Delete
            &&& is_named_spec(req, log, spec)
            &&& may_take(verb, spec)
            &&& spec.session_active
            &&& a == Action::UpdateSpecSession {
                spec: spec.id,
                active: false,
                claude_session_id: spec.claude_session_id,
            }
        },
        SpecStep::Change { spec: now } => {
            &&& exists|spec: Spec| #[trigger] is_settled_spec(req, log, verb, spec, now)
            &&& a matches Action::ChangeSpec { spec: asked, change }
            &&& asked == now
            &&& asks_for(verb, change)
        },
        SpecStep::Store { spec: now, status } => {
            &&& asks_for(verb, verb.change())
            &&& exists|spec: Spec| #[trigger] is_allowed(req, log, verb, spec, now, status)
            &&& a == Action::UpdateSpecStatus { spec: now.id, status }
        },
    }
}

proof fn spec_facts_stay(req: Request, log: Seq<(Action, Event)>)
    requires
        log.len() > 0,
    ensures
        forall|p: Project| #[trigger]
            is_named_project(req, log.drop_last(), p) ==> is_named_project(req, log, p),
        forall|c: Spec| #[trigger]
            is_named_spec(req, log.drop_last(), c) ==> is_named_spec(req, log, c),
        forall|v: SpecVerb, c: Spec, d: Spec| #[trigger]
            is_settled_spec(req, log.drop_last(), v, c, d) ==> is_settled_spec(req, log, v, c, d),
        forall|v: SpecVerb, c: Spec, d: Spec, t: SpecStatus| #[trigger]
            is_allowed(req, log.drop_last(), v, c, d, t) ==> is_allowed(req, log, v, c, d, t),
{
    crate::histories::had_more(log);
    let init = log.drop_last();
    assert forall|p: Project| #[trigger] is_named_project(req, init, p) implies is_named_project(
        req,
        log,
        p,
    ) by {}
    assert forall|c: Spec| #[trigger] is_named_spec(req, init, c) implies is_named_spec(
        req,
        log,
        c,
    ) by {
        let (project, name) = choose|project: Project, name: String|
            is_named_project(req, init, project) && req.params@.text_field("spec_name"@) == Some(
                name@,
            ) && #[trigger] had(
                init,
                Action::GetSpecByName { project: project.id, name },
                Event::MaybeSpec(Ok(Some(c))),
            );
        assert(had(
            log,
            Action::GetSpecByName { project: project.id, name },
            Event::MaybeSpec(Ok(Some(c))),
        ));
    }
    assert forall|v: SpecVerb, c: Spec, d: Spec| #[trigger]
        is_settled_spec(req, init, v, c, d) implies is_settled_spec(req, log, v, c, d) by {}
    assert forall|v: SpecVerb, c: Spec, d: Spec, t: SpecStatus| #[trigger]
        is_allowed(req, init, v, c, d, t) implies is_allowed(req, log, v, c, d, t) by {
        let change = choose|change: SpecChange|
            asks_for(v, change) && #[trigger] had(
                init,
                Action::ChangeSpec { spec: d, change },
                Event::SpecStatus(Ok(t)),
            );
        assert(is_settled_spec(req, init, v, c, d));
        assert(had(log, Action::ChangeSpec { spec: d, change }, Event::SpecStatus(Ok(t))));
    }
}

proof fn spec_keeps(req: Request, log: Seq<(Action, Event)>, s: SpecCommand, a: Action)
    requires
        reaches(req, log, Next::Act(s, a)),
    ensures
        spec_holds(req, log, s, a),
    decreases log.len(),
{
    if log.len() > 0 {
        let (b, ev) = log.last();
        let before = crate::histories::before_last::<SpecCommand>(req, log, Next::Act(s, a));
        spec_keeps(req, log.drop_last(), before, b);
        spec_step(req, log, before, Next::Act(s, a));
    }
}

/// What an answer of a command on a spec that went well says.
pub open spec fn tells_of_spec(
    req: Request,
    log: Seq<(Action, Event)>,
    verb: SpecVerb,
    data: JsonV,
) -> bool {
    match verb {
        SpecVerb::View => exists|spec: Spec, content: String|
            is_named_spec(req, log, spec) && #[trigger] just(
                log,
                Action::ReadFile { path: spec.file_path },
                Event::Text(Ok(content)),
            ) && data.text_field("name"@) == Some(spec.name@) && data.text_field("status"@) == Some(
                spec.status.name(),
            ) && data.text_field("content"@) == Some(content@),
        SpecVerb::Deactivate => exists|spec: Spec|
            #[trigger] is_named_spec(req, log, spec) && (spec.session_active ==> is_laid_down(
                log,
                spec,
            )) && data.text_field("name"@) == Some(spec.name@) && data.truth_field(
                "session_active"@,
            ) == Some(false),
        _ => exists|spec: Spec, now: Spec, status: SpecStatus|
            #[trigger] is_allowed(req, log, verb, spec, now, status) && had(
                log,
                Action::UpdateSpecStatus { spec: spec.id, status },
                Event::Done(Ok(())),
            ) && data.text_field("name"@) == Some(spec.name@) && data.text_field("status"@) == Some(
                status.name(),
            ) && data.truth_field("deleted"@) == (if verb is Delete {
                Some(true)
            } else {
                None
            }),
    }
}

/// Why a command on a spec fails after this outcome: something was not found, the spec is in
/// another state, or the disk or the database failed.
pub open spec fn refuses_spec(verb: SpecVerb, ev: Event) -> bool {
    match ev {
        Event::MaybeProject(r) => !(r matches Ok(Some(_))),
        Event::MaybeSpec(r) => match r {
            Ok(Some(spec)) => !may_take(verb, spec),
            _ => true,
        },
        Event::Text(r) => r is Err,
        Event::SpecStatus(r) => r is Err,
        Event::Done(r) => r is Err,
        _ => false,
    }
}

proof fn spec_fields(verb: SpecVerb, spec: Spec, status: SpecStatus, content: Seq<char>)
    ensures
        crate::specs::spec_content(spec, content).text_field("name"@) == Some(spec.name@),
        crate::specs::spec_content(spec, content).text_field("status"@) == Some(
            spec.status.name(),
        ),
        crate::specs::spec_content(spec, content).text_field("content"@) == Some(content),
        crate::specs::spec_inactive(spec).text_field("name"@) == Some(spec.name@),
        crate::specs::spec_inactive(spec).truth_field("session_active"@) == Some(false),
        crate::specs::spec_changed(verb, spec, status).text_field("name"@) == Some(spec.name@),
        crate::specs::spec_changed(verb, spec, status).text_field("status"@) == Some(
            status.name(),
        ),
        crate::specs::spec_changed(verb, spec, status).truth_field("deleted"@) == (if verb
            is Delete {
            Some(true)
        } else {
            None
        }),
{
    broadcast use crate::histories::field_of_with;

    reveal_strlit("name");
    reveal_strlit("status");
    reveal_strlit("content");
    reveal_strlit("deleted");
    reveal_strlit("session_active");
    assert("name"@.len() == 4);
    assert("status"@.len() == 6);
    assert("content"@.len() == 7 && "content"@[0] == 'c');
    assert("deleted"@.len() == 7 && "deleted"@[0] == 'd');
    assert("session_active"@.len() == 14);
}

/// One step of a command on a spec.
#[verifier::rlimit(40)]
proof fn spec_step(
    req: Request,
    log: Seq<(Action, Event)>,
    before: SpecCommand,
    n: Next<SpecCommand>,
)
    requires
        log.len() > 0,
        spec_holds(req, log.drop_last(), before, log.last().0),
        before.follows(log.last().1, n),
    ensures
        n matches Next::Act(s, a) ==> spec_holds(req, log, s, a) && s.job.verb == before.job.verb,
        n matches Next::Reply(r) ==> r.id == req.id && (r.status == ResponseStatus::Success
            ==> tells_of_spec(req, log, before.job.verb, r.data@)),
        refuses_spec(before.job.verb, log.last().1) <==> n is Reply && n->Reply_0.status
            == ResponseStatus::Error,
        !(n is End),
{
    let (b, ev) = log.last();
    let init = log.drop_last();
    let verb = before.job.verb;
    crate::histories::had_more(log);
    spec_facts_stay(req, log);
    assert(had(log, b, ev));
    match (before.at, ev) {
        (SpecStep::Project, Event::MaybeProject(Ok(Some(project)))) => {
            assert(is_named_project(req, log, project));
        },
        (SpecStep::Spec, Event::MaybeSpec(Ok(Some(spec)))) => {
            let project = choose|project: Project| #[trigger]
                is_named_project(req, init, project) && b == (Action::GetSpecByName {
                    project: project.id,
                    name: before.job.spec_name,
                });
            assert(is_named_project(req, log, project));
            assert(had(
                log,
                Action::GetSpecByName { project: project.id, name: before.job.spec_name },
                Event::MaybeSpec(Ok(Some(spec))),
            ));
            assert(is_named_spec(req, log, spec));
            spec_fields(verb, spec, spec.status, Seq::empty());
            if n is Act && n->Act_0.at is Change {
                assert(is_settled_spec(req, log, verb, spec, spec));
                assert(is_settled_spec(req, log, verb, spec, n->Act_0.at->Change_spec));
            }
        },
        (SpecStep::Read { spec }, Event::Text(Ok(content))) => {
            spec_fields(verb, spec, spec.status, content@);
            assert(just(
                log,
                Action::ReadFile { path: spec.file_path },
                Event::Text(Ok(content)),
            ));
        },
        (SpecStep::Stop { spec }, Event::Done(Ok(_))) => {
            assert(is_laid_down(log, spec));
            spec_fields(verb, spec, spec.status, Seq::empty());
            assert(is_named_spec(req, log, spec));
            if n is Act {
                let now = Spec { session_active: false, ..spec };
                assert(is_settled_spec(req, log, verb, spec, now));
                assert(is_settled_spec(req, log, verb, spec, n->Act_0.at->Change_spec));
            }
        },
        (SpecStep::Change { spec: now }, Event::SpecStatus(Ok(status))) => {
            let spec = choose|spec: Spec| #[trigger] is_settled_spec(req, init, verb, spec, now);
            assert(is_settled_spec(req, log, verb, spec, now));
            assert(had(
                log,
                Action::ChangeSpec { spec: now, change: b->ChangeSpec_change },
                Event::SpecStatus(Ok(status)),
            ));
            assert(is_allowed(req, log, verb, spec, now, status));
            assert(is_allowed(
                req,
                log,
                verb,
                spec,
                n->Act_0.at->Store_spec,
                n->Act_0.at->Store_status,
            ));
        },
        (SpecStep::Store { spec: now, status }, Event::Done(Ok(_))) => {
            let spec = choose|spec: Spec| #[trigger]
                is_allowed(req, init, verb, spec, now, status);
            assert(is_allowed(req, log, verb, spec, now, status));
            spec_fields(verb, now, status, Seq::empty());
        },
        _ => {},
    }
}

/// A command on a spec looks up the named spec of the named project. A viewing reads its file. An
/// approval, a deactivation and a deletion close an open session, which stays known. What is
/// stored is the status that the change allows, and an approved spec is deleted only by force.
pub proof fn law_what_a_spec_command_does(
    req: Request,
    log: Seq<(Action, Event)>,
    s: SpecCommand,
    a: Action,
)
    requires
        reaches(req, log, Next::Act(s, a)),
    ensures
        match a {
            Action::GetProjectByName { name } => req.params@.text_field("project_name"@) == Some(
                name@,
            ),
            Action::GetSpecByName { project, name } => req.params@.text_field("spec_name"@) == Some(
                name@,
            ) && exists|p: Project| #[trigger] is_named_project(req, log, p) && p.id == project,
            Action::ReadFile { path } => s.job.verb is View && exists|spec: Spec| #[trigger]
                is_named_spec(req, log, spec) && spec.file_path == path,
            Action::UpdateSpecSession { spec, active, claude_session_id } => !active && (
            s.job.verb is Approve || s.job.verb is Deactivate || s.job.verb is Delete) && exists|
                found: Spec,
            | #[trigger]
                is_named_spec(req, log, found) && found.id == spec && found.session_active
                    && may_take(s.job.verb, found) && claude_session_id == found.claude_session_id,
            Action::ChangeSpec { spec: now, change } => asks_for(s.job.verb, change) && exists|
                spec: Spec,
            | #[trigger]
                is_settled_spec(req, log, s.job.verb, spec, now),
            Action::UpdateSpecStatus { spec: id, status } => exists|spec: Spec, now: Spec|
                #[trigger] is_allowed(req, log, s.job.verb, spec, now, status) && spec.id == id,
            _ => false,
        },
{
    spec_keeps(req, log, s, a);
    let verb = s.job.verb;
    match s.at {
        SpecStep::Read { spec } => {
            assert(is_named_spec(req, log, spec));
        },
        SpecStep::Stop { spec } => {
            assert(is_named_spec(req, log, spec));
        },
        SpecStep::Change { spec: now } => {
            let spec = choose|spec: Spec| #[trigger] is_settled_spec(req, log, verb, spec, now);
            assert(is_settled_spec(req, log, verb, spec, a->ChangeSpec_spec));
        },
        SpecStep::Store { spec: now, status } => {
            let spec = choose|spec: Spec| #[trigger] is_allowed(req, log, verb, spec, now, status);
            assert(is_allowed(req, log, verb, spec, now, a->UpdateSpecStatus_status));
        },
        _ => {},
    }
}

/// A command on a spec fails just where an outcome refuses it, and an answer that it went well
/// tells what became of the spec.
pub proof fn law_what_a_spec_command_comes_to(
    req: Request,
    log: Seq<(Action, Event)>,
    s: SpecCommand,
    a: Action,
    ev: Event,
    n: Next<SpecCommand>,
)
    requires
        reaches(req, log, Next::Act(s, a)),
        a.answered_by(ev),
        s.follows(ev, n),
    ensures
        !(n is End),
        n matches Next::Act(t, b) ==> t.job.verb == s.job.verb,
        refuses_spec(s.job.verb, ev) <==> n is Reply && n->Reply_0.status == ResponseStatus::Error,
        n matches Next::Reply(r) ==> r.id == req.id && (r.status == ResponseStatus::Success
            ==> tells_of_spec(req, log.push((a, ev)), s.job.verb, r.data@)),
{
    spec_keeps(req, log, s, a);
    let more = log.push((a, ev));
    assert(more.drop_last() =~= log);
    spec_step(req, more, s, n);
}

} // verus!
