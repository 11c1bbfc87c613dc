//! What `spec.new`, `spec.answer` and `spec.resume` are for, over the whole course of a request.
use vstd::prelude::*;
use crate::claude::{RunConfig, RunKind, StreamItem};
use crate::effects::{Action, Event, Next, Template};
use crate::histories::{had, just, reaches, Machine};
use crate::ident::Uuid;
use crate::json::JsonV;
use crate::model::{Project, Spec, SpecStatus};
use crate::project_laws::{place_of, went_well};
use crate::protocol::{Request, ResponseStatus};
use crate::sessions::{Setup, SpecTalk, Talk, TalkStep};
use crate::stop_laws::is_named_project;

verus! {

impl Machine for SpecTalk {
    open spec fn takes_up(req: Request, n: Next<SpecTalk>) -> bool {
        ||| SpecTalk::begins_new(req, n)
        ||| SpecTalk::begins_answer(req, n)
        ||| SpecTalk::begins_resume(req, n)
    }

    open spec fn leads(self, ev: Event, n: Next<SpecTalk>) -> bool {
        self.follows(ev, n)
    }
}

/// Whether the agent may look at the code of the project: unless the request forbids it.
pub open spec fn sees_code(req: Request) -> bool {
    req.params@.truth_field("with_codebase"@) != Some(false)
}

/// Whether the action makes the spec that is asked for, in the named project, which has no
/// active session.
pub open spec fn is_making(req: Request, log: Seq<(Action, Event)>, a: Action) -> bool {
    exists|p: Project, home: String|
        #[trigger] is_named_project(req, log, p) && had(
            log,
            Action::HasActiveSpecSession { project: p.id },
            Event::Flag(Ok(false)),
        ) && #[trigger] had(log, Action::NflowHome, Event::Text(Ok(home))) && makes_in(
            req,
            p,
            home@,
            a,
        )
}

pub open spec fn makes_in(req: Request, p: Project, home: Seq<char>, a: Action) -> bool {
    &&& a matches Action::NewSpec { project, name, file_path }
    &&& project == p.id
    &&& req.params@.text_field("spec_name"@) == Some(name@)
    &&& file_path@ == crate::text::joined(
        crate::text::joined(place_of(home, p.name@), "specs"@),
        name@ + ".md"@,
    )
}

/// Whether the spec was made anew.
pub open spec fn is_new_spec(req: Request, log: Seq<(Action, Event)>, spec: Spec) -> bool {
    exists|a: Action| #[trigger] had(log, a, Event::Spec(spec)) && is_making(req, log, a)
}

/// How the spec to resume is looked up: by its name if there is one, else as the latest draft.
pub open spec fn seeks_spec(req: Request, p: Project, a: Action) -> bool {
    match req.params@.text_field("spec_name"@) {
        Some(t) => a matches Action::GetSpecByName { project, name } && project == p.id && name@
            == t,
        None => a == Action::FindLatestDraftSpec { project: p.id },
    }
}

/// Whether the spec may be resumed: it is a draft without an active session, and its last
/// session is known.
pub open spec fn may_resume(spec: Spec) -> bool {
    spec.status == SpecStatus::Draft && !spec.session_active && spec.claude_session_id is Some
}

pub open spec fn is_resumed(req: Request, log: Seq<(Action, Event)>, spec: Spec) -> bool {
    &&& may_resume(spec)
    &&& exists|p: Project, a: Action|
        #[trigger] is_named_project(req, log, p) && #[trigger] had(
            log,
            a,
            Event::MaybeSpec(Ok(Some(spec))),
        ) && seeks_spec(req, p, a)
}

/// Whether the spec is the one that is answered: its session is active and known.
pub open spec fn is_answered(req: Request, log: Seq<(Action, Event)>, spec: Spec) -> bool {
    &&& spec.session_active
    &&& spec.claude_session_id is Some
    &&& exists|id: Uuid|
        req.params@.text_field("spec_id"@) is Some && crate::ident::parsed_uuid(
            req.params@.text_field("spec_id"@)->0,
        ) == Some(id.value) && #[trigger] had(
            log,
            Action::GetSpecById { spec: id },
            Event::MaybeSpec(Ok(Some(spec))),
        )
}

/// Whether the talk is about this spec: one that was stored anew, one that was marked active
/// again, or one that is active.
pub open spec fn is_subject(
    req: Request,
    log: Seq<(Action, Event)>,
    talk: Talk,
    spec: Spec,
) -> bool {
    match talk {
        Talk::New { .. } => is_new_spec(req, log, spec) && went_well(
            log,
            Action::InsertSpec { spec },
        ),
        Talk::Resume { .. } => is_resumed(req, log, spec) && went_well(
            log,
            Action::UpdateSpecSession {
                spec: spec.id,
                active: true,
                claude_session_id: spec.claude_session_id,
            },
        ),
        Talk::Answer { .. } => is_answered(req, log, spec),
    }
}

/// Whether prompts are kept in this directory; none where there is no such directory.
pub open spec fn is_prompt_dir(
    log: Seq<(Action, Event)>,
    home: Seq<char>,
    dir: Option<String>,
) -> bool {
    exists|path: String, ev: Event|
        #[trigger] had(log, Action::IsDir { path }, ev) && path@ == crate::text::joined(
            home,
            "prompts"@,
        ) && (dir is Some <==> ev == Event::Flag(Ok(true))) && (dir is Some ==> dir->0@ == path@)
}

/// Whether the prompt is that of a session on the spec.
pub open spec fn is_prompted(
    log: Seq<(Action, Event)>,
    p: Project,
    spec: Spec,
    dir: Option<String>,
    prompt: String,
) -> bool {
    exists|template: String|
        had(
            log,
            Action::LoadTemplate { template: Template::SpecSession, dir },
            Event::Text(Ok(template)),
        ) && #[trigger] had(
            log,
            Action::RenderSpecPrompt { template, spec, project: p },
            Event::Text(Ok(prompt)),
        )
}

/// Whether the run continues the right session, at the right place, with the right prompt.
pub open spec fn is_session(
    req: Request,
    log: Seq<(Action, Event)>,
    talk: Talk,
    spec: Spec,
    config: RunConfig,
) -> bool {
    if talk is Answer {
        &&& config.kind == RunKind::Spec { with_codebase: true }
        &&& req.params@.text_field("answer_text"@) == Some(config.prompt@)
        &&& config.resume_session == spec.claude_session_id
        &&& config.system_prompt_file is None
        &&& exists|p: Project| #[trigger]
            had(
                log,
                Action::GetProjectById { project: spec.project_id },
                Event::MaybeProject(Ok(Some(p))),
            ) && config.working_dir == Some(p.path)
    } else {
        &&& config.kind == RunKind::Spec { with_codebase: sees_code(req) }
        &&& config.resume_session == if talk is New {
            None
        } else {
            spec.claude_session_id
        }
        &&& exists|p: Project, home: String, dir: Option<String>|
            is_named_project(req, log, p) && had(
                log,
                Action::NflowHome,
                Event::Text(Ok(home)),
            ) && #[trigger] is_prompt_dir(log, home@, dir) && #[trigger] is_prompted(
                log,
                p,
                spec,
                dir,
                config.prompt,
            ) && works_at(req, config, p, home@, dir)
    }
}

/// Whether the run is in the code of the project, or among its specs where the code is not to be
/// seen, with the rules of its prompt directory.
pub open spec fn works_at(
    req: Request,
    config: RunConfig,
    p: Project,
    home: Seq<char>,
    dir: Option<String>,
) -> bool {
    &&& config.working_dir is Some
    &&& config.working_dir->0@ == if sees_code(req) {
        p.path@
    } else {
        crate::text::joined(place_of(home, p.name@), "specs"@)
    }
    &&& config.system_prompt_file is Some <==> dir is Some
    &&& dir is Some ==> config.system_prompt_file->0@ == crate::text::joined(
        dir->0@,
        "spec_session.md"@,
    )
}

/// Whether the answer is a stream by now.
pub open spec fn is_streaming(log: Seq<(Action, Event)>) -> bool
    decreases log.len(),
{
    log.len() > 0 && (log.last().0 is OpenStream || is_streaming(log.drop_last()))
}

/// Whether the run of the session has ended so: it was completed if it ended well and the file of
/// the spec is there.
pub open spec fn is_ended(
    log: Seq<(Action, Event)>,
    spec: Spec,
    session: Option<String>,
    completed: bool,
) -> bool {
    exists|code: Option<i32>, r: Result<bool, String>|
        had(log, Action::ClaudeSessionId, Event::MaybeText(session)) && #[trigger] had(
            log,
            Action::AwaitExit,
            Event::Exit(code),
        ) && #[trigger] had(log, Action::PathExists { path: spec.file_path }, Event::Flag(r)) && (
        completed <==> code == Some(0i32) && r == Ok::<bool, String>(true))
}

/// Whether the session is what is known of it: what the run printed, or else, where it is not
/// completed, what is stored.
pub open spec fn is_known(
    log: Seq<(Action, Event)>,
    spec: Spec,
    session: Option<String>,
    completed: bool,
    kept: Option<String>,
) -> bool {
    if completed || session is Some {
        kept == session
    } else {
        exists|ev: Event| #[trigger]
            just(log, Action::GetSpecById { spec: spec.id }, ev) && kept == (match ev {
                Event::MaybeSpec(Ok(Some(stored))) => stored.claude_session_id,
                _ => None,
            })
    }
}

spec fn is_talk(req: Request, talk: Talk) -> bool {
    let p = req.params@;
    match talk {
        Talk::New { project_name, spec_name, with_codebase } => p.text_field("project_name"@)
            == Some(project_name@) && p.text_field("spec_name"@) == Some(spec_name@)
            && with_codebase == sees_code(req),
        Talk::Resume { project_name, spec_name, with_codebase } => p.text_field("project_name"@)
            == Some(project_name@) && crate::text::is_text(spec_name, p.text_field("spec_name"@))
            && with_codebase == sees_code(req),
        Talk::Answer { spec, spec_text, answer } => p.text_field("spec_id"@) == Some(spec_text@)
            && p.text_field("answer_text"@) == Some(answer@) && crate::ident::parsed_uuid(
            spec_text@,
        ) == Some(spec.value),
    }
}

spec fn is_setup(req: Request, log: Seq<(Action, Event)>, talk: Talk, setup: Setup) -> bool {
    &&& !(talk is Answer)
    &&& is_subject(req, log, talk, setup.spec)
    &&& is_named_project(req, log, setup.project)
    &&& had(log, Action::NflowHome, Event::Text(Ok(setup.home)))
    &&& setup.resume == if talk is New {
        None
    } else {
        setup.spec.claude_session_id
    }
}

/// Whether the run of the session was started.
pub open spec fn is_begun(
    req: Request,
    log: Seq<(Action, Event)>,
    talk: Talk,
    spec: Spec,
) -> bool {
    &&& is_subject(req, log, talk, spec)
    &&& exists|config: RunConfig, ev: Event|
        #[trigger] had(log, Action::SpawnClaude { config }, ev) && is_session(
            req,
            log,
            talk,
            spec,
            config,
        )
}

/// What the first line of a new or resumed session says.
pub open spec fn opens(talk: Talk, spec: Spec, name: Seq<char>, data: JsonV) -> bool {
    &&& data.text_field("spec_id"@) == Some(spec.id.text())
    &&& data.text_field("name"@) == Some(name)
    &&& data.text_field("status"@) == Some("draft"@)
    &&& data.truth_field("resumed"@) == (if talk is Resume {
        Some(true)
    } else {
        None
    })
}

/// What the last line of a session says.
pub open spec fn closes(
    spec: Spec,
    session: Option<String>,
    completed: bool,
    data: JsonV,
) -> bool {
    &&& data.text_field("spec_id"@) == Some(spec.id.text())
    &&& data.field("session_id"@) == Some(JsonV::optional_text(session))
    &&& data.truth_field("completed"@) == Some(completed)
}

spec fn before_stream(req: Request, log: Seq<(Action, Event)>, s: SpecTalk, a: Action) -> bool {
    let talk = s.job.talk;
    match s.at {
        TalkStep::Project => {
            &&& !(talk is Answer)
            &&& a matches Action::GetProjectByName { name }
            &&& req.params@.text_field("project_name"@) == Some(name@)
        },
        TalkStep::Busy { project } => {
            &&& talk is New
            &&& is_named_project(req, log, project)
            &&& a == Action::HasActiveSpecSession { project: project.id }
        },
        TalkStep::NewHome { project } => {
            &&& talk is New
            &&& is_named_project(req, log, project)
            &&& had(
                log,
                Action::HasActiveSpecSession { project: project.id },
                Event::Flag(Ok(false)),
            )
            &&& a == Action::NflowHome
        },
        TalkStep::Create { project, home } => {
            &&& talk is New
            &&& is_named_project(req, log, project)
            &&& had(log, Action::NflowHome, Event::Text(Ok(home)))
            &&& is_making(req, log, a)
        },
        TalkStep::Insert { project, home, spec } => {
            &&& talk is New
            &&& is_named_project(req, log, project)
            &&& had(log, Action::NflowHome, Event::Text(Ok(home)))
            &&& is_new_spec(req, log, spec)
            &&& a == Action::InsertSpec { spec }
        },
        TalkStep::Find { project } => {
            &&& talk is Resume
            &&& is_named_project(req, log, project)
            &&& seeks_spec(req, project, a)
        },
        TalkStep::Activate { project, spec, session } => {
            &&& talk is Resume
            &&& is_named_project(req, log, project)
            &&& is_resumed(req, log, spec)
            &&& spec.claude_session_id == Some(session)
            &&& a == Action::UpdateSpecSession {
                spec: spec.id,
                active: true,
                claude_session_id: spec.claude_session_id,
            }
        },
        TalkStep::ResumeHome { project, spec, session } => {
            &&& talk is Resume
            &&& is_named_project(req, log, project)
            &&& is_subject(req, log, talk, spec)
            &&& spec.claude_session_id == Some(session)
            &&& a == Action::NflowHome
        },
        TalkStep::Prompts { setup } => {
            &&& is_setup(req, log, talk, setup)
            &&& a matches Action::IsDir { path }
            &&& path@ == crate::text::joined(setup.home@, "prompts"@)
        },
        TalkStep::Load { setup, dir } => {
            &&& is_setup(req, log, talk, setup)
            &&& is_prompt_dir(log, setup.home@, dir)
            &&& a == Action::LoadTemplate { template: Template::SpecSession, dir }
        },
        TalkStep::Render { setup, dir } => {
            &&& is_setup(req, log, talk, setup)
            &&& is_prompt_dir(log, setup.home@, dir)
            &&& a matches Action::RenderSpecPrompt { template, spec, project }
            &&& spec == setup.spec && project == setup.project
            &&& had(
                log,
                Action::LoadTemplate { template: Template::SpecSession, dir },
                Event::Text(Ok(template)),
            )
        },
        TalkStep::AnswerSpec => {
            &&& talk is Answer
            &&& a matches Action::GetSpecById { spec }
            &&& req.params@.text_field("spec_id"@) is Some
            &&& crate::ident::parsed_uuid(req.params@.text_field("spec_id"@)->0) == Some(
                spec.value,
            )
        },
        TalkStep::AnswerProject { spec, session } => {
            &&& talk is Answer
            &&& is_subject(req, log, talk, spec)
            &&& spec.claude_session_id == Some(session)
            &&& a == Action::GetProjectById { project: spec.project_id }
        },
        TalkStep::Open { config, spec } => {
            &&& is_subject(req, log, talk, spec)
            &&& is_session(req, log, talk, spec, config)
            &&& a == Action::OpenStream
        },
        _ => false,
    }
}

spec fn in_stream(req: Request, log: Seq<(Action, Event)>, s: SpecTalk, a: Action) -> bool {
    let talk = s.job.talk;
    match s.at {
        TalkStep::First { config, spec } => {
            &&& !(talk is Answer)
            &&& is_subject(req, log, talk, spec)
            &&& is_session(req, log, talk, spec, config)
            &&& a matches Action::Send { line }
            &&& line.id == req.id && !line.done && line.status == ResponseStatus::Success
            &&& opens(
                talk,
                spec,
                if talk is New {
                    req.params@.text_field("spec_name"@)->0
                } else {
                    spec.name@
                },
                line.data@,
            )
        },
        TalkStep::Spawn { spec } => {
            &&& is_subject(req, log, talk, spec)
            &&& a matches Action::SpawnClaude { config }
            &&& is_session(req, log, talk, spec, config)
        },
        TalkStep::SpawnFailed { spec } => {
            &&& is_begun(req, log, talk, spec)
            &&& exists|config: RunConfig, e: String| #[trigger]
                just(log, Action::SpawnClaude { config }, Event::Done(Err(e)))
            &&& a matches Action::Send { line }
            &&& line.id == req.id && line.done && line.status == ResponseStatus::Error
        },
        TalkStep::GiveUp => exists|spec: Spec, config: RunConfig, e: String|
            #[trigger] is_begun(req, log, talk, spec) && #[trigger] had(
                log,
                Action::SpawnClaude { config },
                Event::Done(Err(e)),
            ) && a == (Action::UpdateSpecSession {
                spec: spec.id,
                active: false,
                claude_session_id: None,
            }),
        TalkStep::Listen { spec } => is_begun(req, log, talk, spec) && a
            == Action::NextClaudeEvent,
        TalkStep::Show { spec } => {
            &&& is_begun(req, log, talk, spec)
            &&& a matches Action::Send { line }
            &&& line.id == req.id && !line.done && line.status == ResponseStatus::Success
            &&& exists|item: StreamItem| #[trigger]
                just(log, Action::NextClaudeEvent, Event::Claude(Ok(Some(item)))) && line.data@
                    == item.shown()
        },
        TalkStep::Broken { spec } => {
            &&& is_begun(req, log, talk, spec)
            &&& a matches Action::Send { line }
            &&& line.id == req.id && line.done && line.status == ResponseStatus::Error
            &&& exists|e: String| #[trigger]
                just(log, Action::NextClaudeEvent, Event::Claude(Err(e)))
        },
        TalkStep::Session { spec } => is_begun(req, log, talk, spec) && a
            == Action::ClaudeSessionId,
        TalkStep::Exit { spec, session } => {
            &&& is_begun(req, log, talk, spec)
            &&& had(log, Action::ClaudeSessionId, Event::MaybeText(session))
            &&& a == Action::AwaitExit
        },
        TalkStep::Written { spec, session, code } => {
            &&& is_begun(req, log, talk, spec)
            &&& had(log, Action::ClaudeSessionId, Event::MaybeText(session))
            &&& had(log, Action::AwaitExit, Event::Exit(code))
            &&& a == Action::PathExists { path: spec.file_path }
        },
        TalkStep::OpenDb { spec, session, completed } => {
            &&& is_begun(req, log, talk, spec)
            &&& is_ended(log, spec, session, completed)
            &&& a == Action::OpenDb
        },
        TalkStep::Existing { spec } => {
            &&& is_begun(req, log, talk, spec)
            &&& is_ended(log, spec, None, false)
            &&& went_well(log, Action::OpenDb)
            &&& a == Action::GetSpecById { spec: spec.id }
        },
        TalkStep::Store { spec, session, completed } => {
            &&& is_begun(req, log, talk, spec)
            &&& is_ended(log, spec, session, completed)
            &&& went_well(log, Action::OpenDb)
            &&& a matches Action::UpdateSpecSession { spec: id, active, claude_session_id }
            &&& id == spec.id
            &&& active == !completed
            &&& is_known(log, spec, session, completed, claude_session_id)
        },
        TalkStep::Last => {
            &&& a matches Action::Send { line }
            &&& line.id == req.id && line.done && line.status == ResponseStatus::Success
            &&& exists|spec: Spec, session: Option<String>, completed: bool|
                #[trigger] is_begun(req, log, talk, spec) && #[trigger] is_ended(
                    log,
                    spec,
                    session,
                    completed,
                ) && closes(spec, session, completed, line.data@) && was_kept(log, spec, completed)
        },
        _ => false,
    }
}

/// Whether it was stored that the session is over, or that it goes on, where the database could
/// be opened.
pub open spec fn was_kept(log: Seq<(Action, Event)>, spec: Spec, completed: bool) -> bool {
    ||| exists|e: String| #[trigger] had(log, Action::OpenDb, Event::Done(Err(e)))
    ||| exists|a: Action, ev: Event| #[trigger] had(log, a, ev) && is_keeping(a, spec, completed)
}

/// Whether the action stores that the session is over, or that it goes on.
pub open spec fn is_keeping(a: Action, spec: Spec, completed: bool) -> bool {
    a matches Action::UpdateSpecSession { spec: id, active, claude_session_id } && id == spec.id
        && active == !completed
}

spec fn talk_holds(req: Request, log: Seq<(Action, Event)>, s: SpecTalk, a: Action) -> bool {
    &&& s.job.id == req.id
    &&& is_talk(req, s.job.talk)
    &&& if is_streaming(log) {
        in_stream(req, log, s, a)
    } else {
        before_stream(req, log, s, a)
    }
}

proof fn talk_facts_stay(req: Request, log: Seq<(Action, Event)>, talk: Talk)
    requires
        log.len() > 0,
    ensures
        forall|p: Project| #[trigger]
            is_named_project(req, log.drop_last(), p) ==> is_named_project(req, log, p),
        forall|c: Spec| #[trigger]
            is_new_spec(req, log.drop_last(), c) ==> is_new_spec(req, log, c),
        forall|c: Spec| #[trigger]
            is_resumed(req, log.drop_last(), c) ==> is_resumed(req, log, c),
        forall|c: Spec| #[trigger]
            is_subject(req, log.drop_last(), talk, c) ==> is_subject(req, log, talk, c),
        forall|u: Setup| #[trigger]
            is_setup(req, log.drop_last(), talk, u) ==> is_setup(req, log, talk, u),
        forall|h: Seq<char>, d: Option<String>| #[trigger]
            is_prompt_dir(log.drop_last(), h, d) ==> is_prompt_dir(log, h, d),
        forall|c: Spec, k: RunConfig| #[trigger]
            is_session(req, log.drop_last(), talk, c, k) ==> is_session(req, log, talk, c, k),
        forall|c: Spec| #[trigger]
            is_begun(req, log.drop_last(), talk, c) ==> is_begun(req, log, talk, c),
        forall|c: Spec, t: Option<String>, b: bool| #[trigger]
            is_ended(log.drop_last(), c, t, b) ==> is_ended(log, c, t, b),
{
    crate::histories::had_more(log);
    let init = log.drop_last();
    assert forall|p: Project| #[trigger] is_named_project(req, init, p) implies is_named_project(
        req,
        log,
        p,
    ) by {}
    assert forall|c: Spec| #[trigger] is_new_spec(req, init, c) implies is_new_spec(
        req,
        log,
        c,
    ) by {
        let a = choose|a: Action| #[trigger]
            had(init, a, Event::Spec(c)) && is_making(req, init, a);
        let (p, home) = choose|p: Project, home: String|
            #[trigger] is_named_project(req, init, p) && had(
                init,
                Action::HasActiveSpecSession { project: p.id },
                Event::Flag(Ok(false)),
            ) && #[trigger] had(init, Action::NflowHome, Event::Text(Ok(home))) && makes_in(
                req,
                p,
                home@,
                a,
            );
        assert(is_named_project(req, log, p));
        assert(had(log, Action::NflowHome, Event::Text(Ok(home))));
        assert(is_making(req, log, a));
        assert(had(log, a, Event::Spec(c)));
    }
    assert forall|c: Spec| #[trigger] is_resumed(req, init, c) implies is_resumed(req, log, c) by {
        let (p, a) = choose|p: Project, a: Action|
            #[trigger] is_named_project(req, init, p) && #[trigger] had(
                init,
                a,
                Event::MaybeSpec(Ok(Some(c))),
            ) && seeks_spec(req, p, a);
        assert(is_named_project(req, log, p));
        assert(had(log, a, Event::MaybeSpec(Ok(Some(c)))));
    }
    assert forall|c: Spec| #[trigger] is_subject(req, init, talk, c) implies is_subject(
        req,
        log,
        talk,
        c,
    ) by {
        if talk is Answer {
            assert(is_answered(req, log, c));
        } else if talk is New {
            assert(is_new_spec(req, init, c));
        } else {
            assert(is_resumed(req, init, c));
        }
    }
    assert forall|h: Seq<char>, d: Option<String>| #[trigger]
        is_prompt_dir(init, h, d) implies is_prompt_dir(log, h, d) by {}
    assert forall|c: Spec, k: RunConfig| #[trigger]
        is_session(req, init, talk, c, k) implies is_session(req, log, talk, c, k) by {
        if !(talk is Answer) {
            let (p, home, dir) = choose|p: Project, home: String, dir: Option<String>|
                is_named_project(req, init, p) && had(
                    init,
                    Action::NflowHome,
                    Event::Text(Ok(home)),
                ) && #[trigger] is_prompt_dir(init, home@, dir) && #[trigger] is_prompted(
                    init,
                    p,
                    c,
                    dir,
                    k.prompt,
                ) && works_at(req, k, p, home@, dir);
            assert(is_named_project(req, log, p));
            assert(is_prompt_dir(log, home@, dir));
            let template = choose|template: String|
                had(
                    init,
                    Action::LoadTemplate { template: Template::SpecSession, dir },
                    Event::Text(Ok(template)),
                ) && #[trigger] had(
                    init,
                    Action::RenderSpecPrompt { template, spec: c, project: p },
                    Event::Text(Ok(k.prompt)),
                );
            assert(had(
                log,
                Action::RenderSpecPrompt { template, spec: c, project: p },
                Event::Text(Ok(k.prompt)),
            ));
            assert(is_prompted(log, p, c, dir, k.prompt));
        }
    }
    assert forall|c: Spec| #[trigger] is_begun(req, init, talk, c) implies is_begun(
        req,
        log,
        talk,
        c,
    ) by {
        let (config, ev) = choose|config: RunConfig, ev: Event|
            #[trigger] had(init, Action::SpawnClaude { config }, ev) && is_session(
                req,
                init,
                talk,
                c,
                config,
            );
        assert(is_subject(req, init, talk, c));
        assert(had(log, Action::SpawnClaude { config }, ev));
        assert(is_session(req, init, talk, c, config));
    }
    assert forall|c: Spec, t: Option<String>, b: bool| #[trigger]
        is_ended(init, c, t, b) implies is_ended(log, c, t, b) by {
        let (code, r) = choose|code: Option<i32>, r: Result<bool, String>|
            had(init, Action::ClaudeSessionId, Event::MaybeText(t)) && #[trigger] had(
                init,
                Action::AwaitExit,
                Event::Exit(code),
            ) && #[trigger] had(init, Action::PathExists { path: c.file_path }, Event::Flag(r)) && (
            b <==> code == Some(0i32) && r == Ok::<bool, String>(true));
        assert(had(log, Action::AwaitExit, Event::Exit(code)));
        assert(had(log, Action::PathExists { path: c.file_path }, Event::Flag(r)));
    }
}

proof fn talk_keeps(req: Request, log: Seq<(Action, Event)>, s: SpecTalk, a: Action)
    requires
        reaches(req, log, Next::Act(s, a)),
    ensures
        talk_holds(req, log, s, a),
    decreases log.len(),
{
    if log.len() > 0 {
        let (b, ev) = log.last();
        let before = crate::histories::before_last::<SpecTalk>(req, log, Next::Act(s, a));
        talk_keeps(req, log.drop_last(), before, b);
        talk_step(req, log, before, Next::Act(s, a));
    }
}

proof fn talk_fields(talk: Talk, spec: Spec, session: Option<String>, completed: bool)
    ensures
        talk matches Talk::New { spec_name, .. } ==> opens(
            talk,
            spec,
            spec_name@,
            crate::sessions::session_opened(talk, spec),
        ),
        talk is Resume ==> opens(
            talk,
            spec,
            spec.name@,
            crate::sessions::session_opened(talk, spec),
        ),
        closes(
            spec,
            session,
            completed,
            crate::sessions::session_closed(spec, session, completed),
        ),
{
    broadcast use crate::histories::field_of_with;

    reveal_strlit("spec_id");
    reveal_strlit("name");
    reveal_strlit("status");
    reveal_strlit("resumed");
    reveal_strlit("session_id");
    reveal_strlit("completed");
    assert("spec_id"@.len() == 7 && "spec_id"@[0] == 's');
    assert("resumed"@.len() == 7 && "resumed"@[0] == 'r');
    assert("name"@.len() == 4);
    assert("status"@.len() == 6);
    assert("session_id"@.len() == 10);
    assert("completed"@.len() == 9);
}

/// Why a talk is refused before it becomes a stream: something was not found or is in another
/// state, or the disk or the database failed.
pub open spec fn refuses_talk(talk: Talk, a: Action, ev: Event) -> bool {
    match ev {
        Event::MaybeProject(r) => !(r matches Ok(Some(_))),
        Event::MaybeSpec(r) => match r {
            Ok(Some(spec)) => if talk is Answer {
                !spec.session_active || spec.claude_session_id is None
            } else {
                !may_resume(spec)
            },
            _ => true,
        },
        Event::Flag(r) => a is HasActiveSpecSession && r != Ok::<bool, String>(false),
        Event::Text(r) => r is Err,
        Event::Done(r) => r is Err && !(a is OpenStream),
        _ => false,
    }
}

/// One step of a talk before it becomes a stream.
#[verifier::rlimit(60)]
proof fn talk_step_before(
    req: Request,
    log: Seq<(Action, Event)>,
    before: SpecTalk,
    n: Next<SpecTalk>,
)
    requires
        log.len() > 0,
        talk_holds(req, log.drop_last(), before, log.last().0),
        !is_streaming(log.drop_last()),
        before.follows(log.last().1, n),
    ensures
        n matches Next::Act(s, a) ==> talk_holds(req, log, s, a) && s.job == before.job,
        n matches Next::Reply(r) ==> r.id == req.id && r.status == ResponseStatus::Error,
        n is Reply <==> refuses_talk(before.job.talk, log.last().0, log.last().1),
        !(n is End),
{
    let (b, ev) = log.last();
    let init = log.drop_last();
    let talk = before.job.talk;
    crate::histories::had_more(log);
    talk_facts_stay(req, log, talk);
    assert(had(log, b, ev));
    match (before.at, ev) {
        (TalkStep::Project, Event::MaybeProject(Ok(Some(project)))) => {
            assert(is_named_project(req, log, project));
        },
        (TalkStep::NewHome { project }, Event::Text(Ok(home))) => {
            assert(had(log, Action::NflowHome, Event::Text(Ok(home))));
            assert(is_named_project(req, log, project));
            assert(makes_in(req, project, home@, n->Act_1));
            assert(is_making(req, log, n->Act_1));
        },
        (TalkStep::Create { project, home }, Event::Spec(spec)) => {
            let (p, h) = choose|p: Project, h: String|
                #[trigger] is_named_project(req, init, p) && had(
                    init,
                    Action::HasActiveSpecSession { project: p.id },
                    Event::Flag(Ok(false)),
                ) && #[trigger] had(init, Action::NflowHome, Event::Text(Ok(h))) && makes_in(
                    req,
                    p,
                    h@,
                    b,
                );
            assert(is_named_project(req, log, p));
            assert(had(log, Action::NflowHome, Event::Text(Ok(h))));
            assert(is_making(req, log, b));
            assert(is_new_spec(req, log, spec));
        },
        (TalkStep::Insert { project, home, spec }, Event::Done(Ok(_))) => {
            assert(is_subject(req, log, talk, spec));
        },
        (TalkStep::Find { project }, Event::MaybeSpec(Ok(Some(spec)))) => {
            assert(is_named_project(req, log, project));
            if may_resume(spec) {
                assert(is_resumed(req, log, spec));
            }
        },
        (TalkStep::Activate { project, spec, session }, Event::Done(Ok(_))) => {
            assert(is_subject(req, log, talk, spec));
        },
        (TalkStep::ResumeHome { project, spec, session }, Event::Text(Ok(home))) => {
            assert(is_subject(req, log, talk, spec));
            assert(is_setup(
                req,
                log,
                talk,
                Setup { project, home, spec, resume: Some(session) },
            ));
        },
        (TalkStep::Prompts { setup }, Event::Flag(r)) => {
            assert(had(log, Action::IsDir { path: b->IsDir_path }, ev));
            assert(is_prompt_dir(log, setup.home@, n->Act_0.at->Load_dir));
        },
        (TalkStep::Render { setup, dir }, Event::Text(Ok(prompt))) => {
            let config = n->Act_0.at->Open_config;
            assert(had(
                log,
                Action::RenderSpecPrompt {
                    template: b->RenderSpecPrompt_template,
                    spec: setup.spec,
                    project: setup.project,
                },
                Event::Text(Ok(prompt)),
            ));
            assert(is_prompted(log, setup.project, setup.spec, dir, prompt));
            assert(is_prompted(log, setup.project, setup.spec, dir, config.prompt));
            assert(is_prompt_dir(log, setup.home@, dir));
            assert(works_at(req, config, setup.project, setup.home@, dir));
            assert(is_session(req, log, talk, setup.spec, config));
        },
        (TalkStep::AnswerSpec, Event::MaybeSpec(Ok(Some(spec)))) => {
            assert(had(
                log,
                Action::GetSpecById { spec: b->GetSpecById_spec },
                Event::MaybeSpec(Ok(Some(spec))),
            ));
            if spec.session_active && spec.claude_session_id is Some {
                assert(is_answered(req, log, spec));
            }
        },
        (TalkStep::AnswerProject { spec, session }, Event::MaybeProject(Ok(Some(project)))) => {
            assert(had(
                log,
                Action::GetProjectById { project: spec.project_id },
                Event::MaybeProject(Ok(Some(project))),
            ));
            assert(is_session(req, log, talk, spec, n->Act_0.at->Open_config));
        },
        (TalkStep::Open { config, spec }, Event::Done(_)) => {
            talk_fields(talk, spec, None, false);
            assert(is_session(req, log, talk, spec, config));
            assert(is_streaming(log));
        },
        _ => {},
    }
}

/// Whether the last thing that was done can end a talk: its last line was sent, or it was stored
/// that there is no session.
pub open spec fn ends_talk(log: Seq<(Action, Event)>) -> bool {
    match log.last().0 {
        Action::Send { line } => line.done && line.status == ResponseStatus::Success,
        Action::UpdateSpecSession { active, claude_session_id, .. } => !active && claude_session_id
            is None,
        _ => false,
    }
}

/// One step of a talk that is a stream.
#[verifier::rlimit(60)]
proof fn talk_step_in(
    req: Request,
    log: Seq<(Action, Event)>,
    before: SpecTalk,
    n: Next<SpecTalk>,
)
    requires
        log.len() > 0,
        talk_holds(req, log.drop_last(), before, log.last().0),
        is_streaming(log.drop_last()),
        before.follows(log.last().1, n),
    ensures
        n matches Next::Act(s, a) ==> talk_holds(req, log, s, a) && s.job == before.job,
        !(n is Reply),
        n is End ==> ends_talk(log),
{
    let (b, ev) = log.last();
    let init = log.drop_last();
    let talk = before.job.talk;
    crate::histories::had_more(log);
    talk_facts_stay(req, log, talk);
    assert(had(log, b, ev));
    assert(is_streaming(log));
    match (before.at, ev) {
        (TalkStep::Spawn { spec }, Event::Done(r)) => {
            assert(had(log, Action::SpawnClaude { config: b->SpawnClaude_config }, ev));
            assert(is_session(req, log, talk, spec, b->SpawnClaude_config));
            assert(is_begun(req, log, talk, spec));
            match r {
                Err(e) => {
                    assert(just(
                        log,
                        Action::SpawnClaude { config: b->SpawnClaude_config },
                        Event::Done(Err(e)),
                    ));
                },
                Ok(_) => {},
            }
        },
        (TalkStep::SpawnFailed { spec }, Event::Done(_)) => {
            let (config, e) = choose|config: RunConfig, e: String| #[trigger]
                just(init, Action::SpawnClaude { config }, Event::Done(Err(e)));
            crate::histories::had_more(init);
            assert(had(log, Action::SpawnClaude { config }, Event::Done(Err(e))));
            assert(is_begun(req, log, talk, spec));
        },
        (TalkStep::GiveUp, Event::Done(_)) => {},
        (TalkStep::Listen { spec }, Event::Claude(r)) => {
            assert(just(log, Action::NextClaudeEvent, ev));
            match r {
                Ok(Some(item)) => {
                    assert(just(log, Action::NextClaudeEvent, Event::Claude(Ok(Some(item)))));
                },
                Ok(None) => {},
                Err(e) => {
                    assert(just(log, Action::NextClaudeEvent, Event::Claude(Err(e))));
                },
            }
        },
        (TalkStep::Written { spec, session, code }, Event::Flag(r)) => {
            assert(had(log, Action::AwaitExit, Event::Exit(code)));
            assert(had(log, Action::PathExists { path: spec.file_path }, Event::Flag(r)));
            assert(is_ended(log, spec, session, crate::sessions::is_completed(code, r)));
        },
        (TalkStep::OpenDb { spec, session, completed }, Event::Done(r)) => {
            assert(is_ended(log, spec, session, completed));
            assert(is_begun(req, log, talk, spec));
            talk_fields(talk, spec, session, completed);
            match r {
                Err(e) => {
                    assert(had(log, Action::OpenDb, Event::Done(Err(e))));
                },
                Ok(_) => {},
            }
        },
        (TalkStep::Existing { spec }, Event::MaybeSpec(r)) => {
            assert(just(log, Action::GetSpecById { spec: spec.id }, ev));
            assert(is_ended(log, spec, None, false));
        },
        (TalkStep::Store { spec, session, completed }, Event::Done(_)) => {
            assert(is_ended(log, spec, session, completed));
            assert(is_begun(req, log, talk, spec));
            talk_fields(talk, spec, session, completed);
            assert(is_keeping(b, spec, completed));
            assert(was_kept(log, spec, completed));
        },
        _ => {},
    }
}

proof fn talk_step(req: Request, log: Seq<(Action, Event)>, before: SpecTalk, n: Next<SpecTalk>)
    requires
        log.len() > 0,
        talk_holds(req, log.drop_last(), before, log.last().0),
        before.follows(log.last().1, n),
    ensures
        n matches Next::Act(s, a) ==> talk_holds(req, log, s, a) && s.job == before.job,
        n matches Next::Reply(r) ==> r.id == req.id && r.status == ResponseStatus::Error,
        n is Reply <==> !is_streaming(log.drop_last()) && refuses_talk(
            before.job.talk,
            log.last().0,
            log.last().1,
        ),
        n is End ==> is_streaming(log.drop_last()) && ends_talk(log),
{
    if is_streaming(log.drop_last()) {
        talk_step_in(req, log, before, n);
    } else {
        talk_step_before(req, log, before, n);
    }
}

/// Whether the change of the session of a spec is due in a talk. One that is resumed becomes
/// active with the session that it had. Later it stays active unless it was completed, with the
/// session that is known; one that could not be started has none.
pub open spec fn is_session_change(
    req: Request,
    log: Seq<(Action, Event)>,
    talk: Talk,
    spec: Spec,
    active: bool,
    session: Option<String>,
) -> bool {
    if !is_streaming(log) {
        &&& talk is Resume
        &&& is_resumed(req, log, spec)
        &&& active
        &&& session == spec.claude_session_id
    } else {
        &&& is_begun(req, log, talk, spec)
        &&& {
            ||| !active && session is None && exists|config: RunConfig, e: String| #[trigger]
                had(log, Action::SpawnClaude { config }, Event::Done(Err(e)))
            ||| exists|told: Option<String>, completed: bool| #[trigger]
                is_ended(log, spec, told, completed) && active == !completed && is_known(
                    log,
                    spec,
                    told,
                    completed,
                    session,
                )
        }
    }
}

/// What a line of a talk says: of the session that begins, what the agent printed, how the
/// session ended, or that something failed.
pub open spec fn is_line(
    req: Request,
    log: Seq<(Action, Event)>,
    talk: Talk,
    spec: Spec,
    line: crate::protocol::StreamingResponseLine,
) -> bool {
    &&& line.id == req.id
    &&& is_subject(req, log, talk, spec)
    &&& if line.status == ResponseStatus::Error {
        line.done && is_begun(req, log, talk, spec)
    } else if line.done {
        is_begun(req, log, talk, spec) && exists|session: Option<String>, completed: bool|
            #[trigger] is_ended(log, spec, session, completed) && closes(
                spec,
                session,
                completed,
                line.data@,
            ) && was_kept(log, spec, completed)
    } else {
        ||| !(talk is Answer) && opens(
            talk,
            spec,
            if talk is New {
                req.params@.text_field("spec_name"@)->0
            } else {
                spec.name@
            },
            line.data@,
        )
        ||| is_begun(req, log, talk, spec) && exists|item: StreamItem| #[trigger]
            just(log, Action::NextClaudeEvent, Event::Claude(Ok(Some(item)))) && line.data@
                == item.shown()
    }
}

/// A talk makes the spec that is asked for only in a project without an active session, and
/// resumes or answers only a spec that allows it. It starts one run, of the session of the spec
/// with the right prompt, and passes on what it prints. In the end it stores whether the session
/// is completed.
pub proof fn law_what_a_talk_does(req: Request, log: Seq<(Action, Event)>, s: SpecTalk, a: Action)
    requires
        reaches(req, log, Next::Act(s, a)),
    ensures
        match a {
            Action::GetProjectByName { name } => req.params@.text_field("project_name"@) == Some(
                name@,
            ),
            Action::HasActiveSpecSession { project } => s.job.talk is New && exists|p: Project|
                #[trigger] is_named_project(req, log, p) && p.id == project,
            Action::NflowHome => exists|p: Project| #[trigger] is_named_project(req, log, p),
            Action::NewSpec { .. } => s.job.talk is New && is_making(req, log, a),
            Action::InsertSpec { spec } => s.job.talk is New && is_new_spec(req, log, spec),
            Action::GetSpecByName { .. } => s.job.talk is Resume && exists|p: Project| #[trigger]
                is_named_project(req, log, p) && seeks_spec(req, p, a),
            Action::FindLatestDraftSpec { .. } => s.job.talk is Resume && exists|p: Project|
                #[trigger] is_named_project(req, log, p) && seeks_spec(req, p, a),
            Action::UpdateSpecSession { spec: id, active, claude_session_id } => exists|spec: Spec|
                #[trigger] is_session_change(
                    req,
                    log,
                    s.job.talk,
                    spec,
                    active,
                    claude_session_id,
                ) && spec.id == id,
            Action::IsDir { .. } => !is_streaming(log),
            Action::LoadTemplate { template, .. } => template == Template::SpecSession,
            Action::RenderSpecPrompt { template, spec, project } => is_subject(
                req,
                log,
                s.job.talk,
                spec,
            ) && is_named_project(req, log, project) && exists|dir: Option<String>| #[trigger]
                had(
                    log,
                    Action::LoadTemplate { template: Template::SpecSession, dir },
                    Event::Text(Ok(template)),
                ),
            Action::GetSpecById { spec: id } => if is_streaming(log) {
                exists|spec: Spec| #[trigger]
                    is_begun(req, log, s.job.talk, spec) && spec.id == id
            } else {
                s.job.talk is Answer && req.params@.text_field("spec_id"@) is Some
                    && crate::ident::parsed_uuid(req.params@.text_field("spec_id"@)->0) == Some(
                    id.value,
                )
            },
            Action::GetProjectById { project } => s.job.talk is Answer && exists|spec: Spec|
                #[trigger] is_subject(req, log, s.job.talk, spec) && spec.project_id == project,
            Action::OpenStream => !is_streaming(log) && exists|spec: Spec| #[trigger]
                is_subject(req, log, s.job.talk, spec),
            Action::SpawnClaude { config } => is_streaming(log) && exists|spec: Spec|
                is_subject(req, log, s.job.talk, spec) && #[trigger] is_session(
                    req,
                    log,
                    s.job.talk,
                    spec,
                    config,
                ),
            Action::NextClaudeEvent => exists|spec: Spec| #[trigger]
                is_begun(req, log, s.job.talk, spec),
            Action::ClaudeSessionId => exists|spec: Spec| #[trigger]
                is_begun(req, log, s.job.talk, spec),
            Action::AwaitExit => exists|spec: Spec| #[trigger]
                is_begun(req, log, s.job.talk, spec),
            Action::OpenDb => exists|spec: Spec| #[trigger]
                is_begun(req, log, s.job.talk, spec),
            Action::PathExists { path } => exists|spec: Spec| #[trigger]
                is_begun(req, log, s.job.talk, spec) && path == spec.file_path,
            Action::Send { line } => is_streaming(log) && exists|spec: Spec| #[trigger]
                is_line(req, log, s.job.talk, spec, line),
            _ => false,
        },
{
    talk_keeps(req, log, s, a);
    let talk = s.job.talk;
    match s.at {
        TalkStep::Busy { project } => {
            assert(is_named_project(req, log, project));
        },
        TalkStep::NewHome { project } => {
            assert(is_named_project(req, log, project));
        },
        TalkStep::Find { project } => {
            assert(is_named_project(req, log, project));
        },
        TalkStep::Activate { project, spec, session } => {
            assert(is_session_change(
                req,
                log,
                talk,
                spec,
                a->UpdateSpecSession_active,
                a->UpdateSpecSession_claude_session_id,
            ));
        },
        TalkStep::ResumeHome { project, spec, session } => {
            assert(is_named_project(req, log, project));
        },
        TalkStep::Render { setup, dir } => {
            assert(had(
                log,
                Action::LoadTemplate { template: Template::SpecSession, dir },
                Event::Text(Ok(a->RenderSpecPrompt_template)),
            ));
        },
        TalkStep::AnswerProject { spec, session } => {
            assert(is_subject(req, log, talk, spec));
        },
        TalkStep::Open { config, spec } => {
            assert(is_subject(req, log, talk, spec));
        },
        TalkStep::First { config, spec } => {
            assert(is_line(req, log, talk, spec, a->Send_line));
        },
        TalkStep::Spawn { spec } => {
            assert(is_session(req, log, talk, spec, a->SpawnClaude_config));
        },
        TalkStep::SpawnFailed { spec } => {
            assert(is_line(req, log, talk, spec, a->Send_line));
        },
        TalkStep::GiveUp => {
            let (spec, config, e) = choose|spec: Spec, config: RunConfig, e: String|
                #[trigger] is_begun(req, log, talk, spec) && #[trigger] had(
                    log,
                    Action::SpawnClaude { config },
                    Event::Done(Err(e)),
                ) && a == (Action::UpdateSpecSession {
                    spec: spec.id,
                    active: false,
                    claude_session_id: None,
                });
            assert(is_session_change(req, log, talk, spec, false, None));
            assert(is_session_change(
                req,
                log,
                talk,
                spec,
                a->UpdateSpecSession_active,
                a->UpdateSpecSession_claude_session_id,
            ));
        },
        TalkStep::Listen { spec } => {
            assert(is_begun(req, log, talk, spec));
        },
        TalkStep::Show { spec } => {
            assert(is_line(req, log, talk, spec, a->Send_line));
        },
        TalkStep::Broken { spec } => {
            assert(is_line(req, log, talk, spec, a->Send_line));
        },
        TalkStep::Session { spec } => {
            assert(is_begun(req, log, talk, spec));
        },
        TalkStep::Exit { spec, .. } => {
            assert(is_begun(req, log, talk, spec));
        },
        TalkStep::Written { spec, .. } => {
            assert(is_begun(req, log, talk, spec));
        },
        TalkStep::OpenDb { spec, .. } => {
            assert(is_begun(req, log, talk, spec));
        },
        TalkStep::Existing { spec } => {
            assert(is_begun(req, log, talk, spec));
        },
        TalkStep::Store { spec, session, completed } => {
            assert(is_ended(log, spec, session, completed));
            assert(is_session_change(
                req,
                log,
                talk,
                spec,
                a->UpdateSpecSession_active,
                a->UpdateSpecSession_claude_session_id,
            ));
        },
        TalkStep::Last => {
            let line = a->Send_line;
            let (spec, session, completed) = choose|
                spec: Spec,
                session: Option<String>,
                completed: bool,
            |
                #[trigger] is_begun(req, log, talk, spec) && #[trigger] is_ended(
                    log,
                    spec,
                    session,
                    completed,
                ) && closes(spec, session, completed, line.data@) && was_kept(log, spec, completed);
            assert(is_line(req, log, talk, spec, line));
        },
        _ => {},
    }
}

/// A talk is refused just where an outcome refuses it before there is a stream, and a stream ends
/// with its last line, or where its run could not be started.
pub proof fn law_what_a_talk_comes_to(
    req: Request,
    log: Seq<(Action, Event)>,
    s: SpecTalk,
    a: Action,
    ev: Event,
    n: Next<SpecTalk>,
)
    requires
        reaches(req, log, Next::Act(s, a)),
        a.answered_by(ev),
        s.follows(ev, n),
    ensures
        n matches Next::Act(t, b) ==> t.job == s.job,
        n is Reply <==> !is_streaming(log) && refuses_talk(s.job.talk, a, ev),
        n matches Next::Reply(r) ==> r.id == req.id && r.status == ResponseStatus::Error,
        n is End ==> is_streaming(log) && ends_talk(log.push((a, ev))),
{
    talk_keeps(req, log, s, a);
    let more = log.push((a, ev));
    assert(more.drop_last() =~= log);
    talk_step(req, more, s, n);
}

} // verus!
