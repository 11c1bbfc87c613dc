//! Spec sessions: `spec.new`, `spec.answer` and `spec.resume`, which stream what the agent says
//! in a conversation about a spec.
use vstd::prelude::*;
use crate::claude::{RunConfig, RunKind};
use crate::effects::{missing_parameter, no_project, no_spec, Action, Event, Next, Run, Template};
use crate::ident::Uuid;
use crate::json::{Json, JsonV};
use crate::model::{Project, Spec, SpecStatus};
use crate::projects::project_dir;
use crate::protocol::{Request, StreamingResponseLine};
use crate::text::{cat, cat3, cat5, join};

verus! {

/// What the session is asked for.
#[allow(inconsistent_fields)]
pub enum Talk {
    New { project_name: String, spec_name: String, with_codebase: bool },
    Answer { spec: Uuid, spec_text: String, answer: String },
    Resume { project_name: String, spec_name: Option<String>, with_codebase: bool },
}

pub struct TalkJob {
    pub id: String,
    pub talk: Talk,
}

/// What the prompt of a new or resumed session is made from.
pub struct Setup {
    pub project: Project,
    pub home: String,
    pub spec: Spec,
    pub resume: Option<String>,
}

#[allow(inconsistent_fields)]
pub enum TalkStep {
    Project,
    /// `spec.new`: whether the project has an active session.
    Busy { project: Project },
    NewHome { project: Project },
    Create { project: Project, home: String },
    Insert { project: Project, home: String, spec: Spec },
    /// `spec.resume`: the named spec, or the latest draft.
    Find { project: Project },
    Activate { project: Project, spec: Spec, session: String },
    ResumeHome { project: Project, spec: Spec, session: String },
    Prompts { setup: Setup },
    Load { setup: Setup, dir: Option<String> },
    Render { setup: Setup, dir: Option<String> },
    /// `spec.answer`.
    AnswerSpec,
    AnswerProject { spec: Spec, session: String },
    Open { config: RunConfig, spec: Spec },
    First { config: RunConfig, spec: Spec },
    Spawn { spec: Spec },
    SpawnFailed { spec: Spec },
    GiveUp,
    Listen { spec: Spec },
    Show { spec: Spec },
    Broken { spec: Spec },
    Session { spec: Spec },
    Exit { spec: Spec, session: Option<String> },
    Written { spec: Spec, session: Option<String>, code: Option<i32> },
    OpenDb { spec: Spec, session: Option<String>, completed: bool },
    Existing { spec: Spec },
    Store { spec: Spec, session: Option<String>, completed: bool },
    Last,
}

pub type SpecTalk = Run<TalkJob, TalkStep>;

impl Talk {
    pub open spec fn with_codebase(self) -> bool {
        match self {
            Talk::New { with_codebase, .. } => with_codebase,
            Talk::Resume { with_codebase, .. } => with_codebase,
            Talk::Answer { .. } => true,
        }
    }

    fn codebase(&self) -> (r: bool)
        ensures
            r == self.with_codebase(),
    {
        match self {
            Talk::New { with_codebase, .. } => *with_codebase,
            Talk::Resume { with_codebase, .. } => *with_codebase,
            Talk::Answer { .. } => true,
        }
    }
}

/// The file that a new spec is written to.
pub open spec fn spec_file(home: Seq<char>, project: Seq<char>, name: Seq<char>) -> Seq<char> {
    crate::text::joined(
        crate::text::joined(crate::projects::project_dir_path(home, project), "specs"@),
        name + ".md"@,
    )
}

/// Where the agent works: in the project's code, or else among its specs.
pub open spec fn working_directory(p: Project, home: Seq<char>, with_codebase: bool) -> Seq<char> {
    if with_codebase {
        p.path@
    } else {
        crate::text::joined(crate::projects::project_dir_path(home, p.name@), "specs"@)
    }
}

pub fn working_dir(p: &Project, home: &str, with_codebase: bool) -> (r: String)
    ensures
        r@ == working_directory(*p, home@, with_codebase),
{
    if with_codebase {
        p.path.clone()
    } else {
        join(project_dir(home, p.name.as_str()).as_str(), "specs")
    }
}

/// Whether `c` starts the session that `setup` describes, with the given prompt.
pub open spec fn session_config(
    c: RunConfig,
    setup: Setup,
    dir: Option<String>,
    prompt: String,
    with_codebase: bool,
) -> bool {
    &&& c.kind == RunKind::Spec { with_codebase }
    &&& c.prompt == prompt
    &&& c.resume_session == setup.resume
    &&& c.working_dir matches Some(w)
    &&& w@ == working_directory(setup.project, setup.home@, with_codebase)
    &&& crate::text::is_text(
        c.system_prompt_file,
        match dir {
            Some(d) => Some(crate::text::joined(d@, "spec_session.md"@)),
            None => None,
        },
    )
}

/// The first line of a new or resumed session.
pub open spec fn session_opened(talk: Talk, spec: Spec) -> JsonV {
    let data = JsonV::object().with("spec_id"@, JsonV::Str(spec.id.text()));
    match talk {
        Talk::New { spec_name, .. } => data.with("name"@, JsonV::Str(spec_name@)).with(
            "status"@,
            JsonV::Str("draft"@),
        ),
        _ => data.with("name"@, JsonV::Str(spec.name@)).with("status"@, JsonV::Str("draft"@)).with(
            "resumed"@,
            JsonV::Bool(true),
        ),
    }
}

/// Whether a session is completed: its run ended well, and the spec's file is written.
pub open spec fn is_completed(code: Option<i32>, exists: Result<bool, String>) -> bool {
    code == Some(0i32) && exists == Ok::<bool, String>(true)
}

/// The last line of a session.
pub open spec fn session_closed(spec: Spec, session: Option<String>, completed: bool) -> JsonV {
    JsonV::object().with("spec_id"@, JsonV::Str(spec.id.text())).with(
        "session_id"@,
        JsonV::optional_text(session),
    ).with("completed"@, JsonV::Bool(completed))
}

pub open spec fn flagged(p: JsonV, key: Seq<char>, default: bool) -> bool {
    match p.truth_field(key) {
        Some(b) => b,
        None => default,
    }
}

pub fn flag_or(p: &Json, key: &str, default: bool) -> (r: bool)
    ensures
        r == flagged(p@, key@, default),
{
    match p.bool_field(key) {
        Some(b) => b,
        None => default,
    }
}

impl Run<TalkJob, TalkStep> {
    /// Which requests come to which step.
    pub open spec fn fits(self) -> bool {
        match self.at {
            TalkStep::Project => !(self.job.talk is Answer),
            TalkStep::Busy { .. } | TalkStep::NewHome { .. } => self.job.talk is New,
            TalkStep::Find { .. } => self.job.talk is Resume,
            TalkStep::AnswerSpec | TalkStep::AnswerProject { .. } => self.job.talk is Answer,
            _ => true,
        }
    }

    pub open spec fn accepts(self, ev: Event) -> bool {
        &&& self.fits()
        &&& match self.at {
            TalkStep::Project | TalkStep::AnswerProject { .. } => ev is MaybeProject,
            TalkStep::Busy { .. } | TalkStep::Prompts { .. } | TalkStep::Written { .. } => {
                ev is Flag
            },
            TalkStep::NewHome { .. } | TalkStep::ResumeHome { .. } | TalkStep::Load { .. }
            | TalkStep::Render { .. } => ev is Text,
            TalkStep::Create { .. } => ev is Spec,
            TalkStep::Find { .. } | TalkStep::AnswerSpec | TalkStep::Existing { .. } => {
                ev is MaybeSpec
            },
            TalkStep::Listen { .. } => ev is Claude,
            TalkStep::Session { .. } => ev is MaybeText,
            TalkStep::Exit { .. } => ev is Exit,
            _ => ev is Done,
        }
    }

    /// How a `spec.new` request begins.
    pub open spec fn begins_new(req: Request, n: Next<SpecTalk>) -> bool {
        let p = req.params@;
        match (p.text_field("project_name"@), p.text_field("spec_name"@)) {
            (None, _) => n.fails(req.id, crate::effects::missing_message("project_name"@)),
            (Some(_), None) => n.fails(req.id, crate::effects::missing_message("spec_name"@)),
            (Some(project), Some(spec)) => {
                &&& n matches Next::Act(s, a)
                &&& s.job.id == req.id
                &&& s.job.talk matches Talk::New { project_name, spec_name, with_codebase }
                &&& project_name@ == project
                &&& spec_name@ == spec
                &&& with_codebase == flagged(p, "with_codebase"@, true)
                &&& n.goes(
                    s.job,
                    TalkStep::Project,
                    Action::GetProjectByName { name: project_name },
                )
            },
        }
    }

    pub fn start_new(req: Request) -> (n: Next<SpecTalk>)
        ensures
            SpecTalk::begins_new(req, n),
            n matches Next::Act(s, a) ==> forall|e: Event| a.answered_by(e) ==> s.accepts(e),
    {
        let project_name = match req.params.str_field("project_name") {
            Some(v) => v,
            None => return missing_parameter(req.id, "project_name"),
        };
        let spec_name = match req.params.str_field("spec_name") {
            Some(v) => v,
            None => return missing_parameter(req.id, "spec_name"),
        };
        let with_codebase = flag_or(&req.params, "with_codebase", true);
        let name = project_name.clone();
        Next::go(
            TalkJob { id: req.id, talk: Talk::New { project_name, spec_name, with_codebase } },
            TalkStep::Project,
            Action::GetProjectByName { name },
        )
    }

    /// How a `spec.answer` request begins.
    pub open spec fn begins_answer(req: Request, n: Next<SpecTalk>) -> bool {
        let p = req.params@;
        match (p.text_field("spec_id"@), p.text_field("answer_text"@)) {
            (None, _) => n.fails(req.id, crate::effects::missing_message("spec_id"@)),
            (Some(_), None) => n.fails(req.id, crate::effects::missing_message("answer_text"@)),
            (Some(id_text), Some(text)) => match crate::ident::parsed_uuid(id_text) {
                None => n.fails(req.id, "INVALID_PARAMS: invalid spec_id format"@),
                Some(value) => {
                    &&& n matches Next::Act(s, a)
                    &&& s.job.id == req.id
                    &&& s.job.talk matches Talk::Answer { spec, spec_text, answer }
                    &&& spec == Uuid { value }
                    &&& spec_text@ == id_text
                    &&& answer@ == text
                    &&& n.goes(s.job, TalkStep::AnswerSpec, Action::GetSpecById { spec })
                },
            },
        }
    }

    /// How a `spec.answer` request goes on when it is known which spec it names, if it names one.
    pub open spec fn answers(
        id: String,
        spec_text: String,
        spec: Option<Uuid>,
        answer: String,
        n: Next<SpecTalk>,
    ) -> bool {
        match spec {
            None => n.fails(id, "INVALID_PARAMS: invalid spec_id format"@),
            Some(spec) => n.goes(
                TalkJob { id, talk: Talk::Answer { spec, spec_text, answer } },
                TalkStep::AnswerSpec,
                Action::GetSpecById { spec },
            ),
        }
    }

    /// Goes on when it is known which spec the request names, if it names one.
    pub fn answer(
        id: String,
        spec_text: String,
        spec: Option<Uuid>,
        answer: String,
    ) -> (n: Next<SpecTalk>)
        ensures
            SpecTalk::answers(id, spec_text, spec, answer, n),
            n matches Next::Act(s, a) ==> forall|e: Event| a.answered_by(e) ==> s.accepts(e),
    {
        match spec {
            None => Next::fail(id, "INVALID_PARAMS: invalid spec_id format"),
            Some(spec) => Next::go(
                TalkJob { id, talk: Talk::Answer { spec, spec_text, answer } },
                TalkStep::AnswerSpec,
                Action::GetSpecById { spec },
            ),
        }
    }

    pub fn start_answer(req: Request) -> (n: Next<SpecTalk>)
        ensures
            SpecTalk::begins_answer(req, n),
            n matches Next::Act(s, a) ==> forall|e: Event| a.answered_by(e) ==> s.accepts(e),
    {
        let spec_text = match req.params.str_field("spec_id") {
            Some(v) => v,
            None => return missing_parameter(req.id, "spec_id"),
        };
        let answer = match req.params.str_field("answer_text") {
            Some(v) => v,
            None => return missing_parameter(req.id, "answer_text"),
        };
        let spec = Uuid::parse(spec_text.as_str());
        SpecTalk::answer(req.id, spec_text, spec, answer)
    }

    /// How a `spec.resume` request begins.
    pub open spec fn begins_resume(req: Request, n: Next<SpecTalk>) -> bool {
        let p = req.params@;
        match p.text_field("project_name"@) {
            None => n.fails(req.id, crate::effects::missing_message("project_name"@)),
            Some(project) => {
                &&& n matches Next::Act(s, a)
                &&& s.job.id == req.id
                &&& s.job.talk matches Talk::Resume { project_name, spec_name, with_codebase }
                &&& project_name@ == project
                &&& crate::text::is_text(spec_name, p.text_field("spec_name"@))
                &&& with_codebase == flagged(p, "with_codebase"@, true)
                &&& n.goes(
                    s.job,
                    TalkStep::Project,
                    Action::GetProjectByName { name: project_name },
                )
            },
        }
    }

    pub fn start_resume(req: Request) -> (n: Next<SpecTalk>)
        ensures
            SpecTalk::begins_resume(req, n),
            n matches Next::Act(s, a) ==> forall|e: Event| a.answered_by(e) ==> s.accepts(e),
    {
        let project_name = match req.params.str_field("project_name") {
            Some(v) => v,
            None => return missing_parameter(req.id, "project_name"),
        };
        let spec_name = req.params.str_field("spec_name");
        let with_codebase = flag_or(&req.params, "with_codebase", true);
        let name = project_name.clone();
        Next::go(
            TalkJob { id: req.id, talk: Talk::Resume { project_name, spec_name, with_codebase } },
            TalkStep::Project,
            Action::GetProjectByName { name },
        )
    }

    /// What is done once the project of a new or resumed session is found.
    pub open spec fn enters(job: TalkJob, project: Project, n: Next<SpecTalk>) -> bool {
        match job.talk {
            Talk::New { .. } => n.goes(
                job,
                TalkStep::Busy { project },
                Action::HasActiveSpecSession { project: project.id },
            ),
            Talk::Resume { spec_name, .. } => n.goes(
                job,
                TalkStep::Find { project },
                match spec_name {
                    Some(name) => Action::GetSpecByName { project: project.id, name },
                    None => Action::FindLatestDraftSpec { project: project.id },
                },
            ),
            Talk::Answer { .. } => false,
        }
    }

    /// What is done with the spec to resume: it must be a draft without an active session,
    /// and there must be a session to resume.
    pub open spec fn reawakens(
        job: TalkJob,
        project: Project,
        spec: Spec,
        n: Next<SpecTalk>,
    ) -> bool {
        if spec.status != SpecStatus::Draft {
            n.fails(
                job.id,
                "INVALID_STATE: spec '"@ + spec.name@ + "' is "@ + spec.status.name()
                    + " (must be draft to resume)"@,
            )
        } else if spec.session_active {
            n.fails(
                job.id,
                "INVALID_STATE: spec '"@ + spec.name@ + "' already has an active session"@,
            )
        } else {
            match spec.claude_session_id {
                None => n.fails(
                    job.id,
                    "INVALID_STATE: spec '"@ + spec.name@ + "' has no previous session to resume"@,
                ),
                Some(session) => n.goes(
                    job,
                    TalkStep::Activate { project, spec, session },
                    Action::UpdateSpecSession {
                        spec: spec.id,
                        active: true,
                        claude_session_id: Some(session),
                    },
                ),
            }
        }
    }

    /// Looks for the directory of template overrides.
    pub open spec fn prepares(job: TalkJob, setup: Setup, n: Next<SpecTalk>) -> bool {
        &&& n matches Next::Act(s, Action::IsDir { path })
        &&& path@ == crate::text::joined(setup.home@, "prompts"@)
        &&& s == Run { job, at: TalkStep::Prompts { setup } }
    }

    /// Stores what is known of the session: the answer is written last.
    pub open spec fn stores(
        job: TalkJob,
        spec: Spec,
        session: Option<String>,
        told: Option<String>,
        completed: bool,
        n: Next<SpecTalk>,
    ) -> bool {
        n.goes(
            job,
            TalkStep::Store { spec, session: told, completed },
            Action::UpdateSpecSession {
                spec: spec.id,
                active: !completed,
                claude_session_id: session,
            },
        )
    }

    pub open spec fn follows(self, ev: Event, n: Next<SpecTalk>) -> bool {
        let job = self.job;
        match (self.at, ev) {
            (TalkStep::Project, Event::MaybeProject(r)) => match r {
                Err(e) => n.fails(job.id, crate::effects::database_message(e@)),
                Ok(None) => match job.talk {
                    Talk::New { project_name, .. } => n.fails(
                        job.id,
                        crate::effects::no_project_message(project_name@),
                    ),
                    Talk::Resume { project_name, .. } => n.fails(
                        job.id,
                        crate::effects::no_project_message(project_name@),
                    ),
                    Talk::Answer { .. } => false,
                },
                Ok(Some(project)) => SpecTalk::enters(job, project, n),
            },
            (TalkStep::Busy { project }, Event::Flag(r)) => match r {
                Err(e) => n.fails(job.id, crate::effects::database_message(e@)),
                Ok(true) => n.fails(
                    job.id,
                    "INVALID_STATE: a spec session is already active for this project"@,
                ),
                Ok(false) => n.goes(job, TalkStep::NewHome { project }, Action::NflowHome),
            },
            (TalkStep::NewHome { project }, Event::Text(r)) => match r {
                Err(e) => n.fails(job.id, "failed to get nflow home: "@ + e@),
                Ok(home) => match job.talk {
                    Talk::New { spec_name, .. } => {
                        &&& n matches Next::Act(s, Action::NewSpec { project: asked, name, file_path })
                        &&& s == Run { job, at: TalkStep::Create { project, home } }
                        &&& asked == project.id
                        &&& name == spec_name
                        &&& file_path@ == spec_file(home@, project.name@, spec_name@)
                    },
                    _ => false,
                },
            },
            (TalkStep::Create { project, home }, Event::Spec(spec)) => n.goes(
                job,
                TalkStep::Insert { project, home, spec },
                Action::InsertSpec { spec },
            ),
            (TalkStep::Insert { project, home, spec }, Event::Done(r)) => match r {
                Err(e) => n.fails(job.id, crate::effects::database_message(e@)),
                Ok(_) => SpecTalk::prepares(job, Setup { project, home, spec, resume: None }, n),
            },
            (TalkStep::Find { project }, Event::MaybeSpec(r)) => match r {
                Err(e) => n.fails(job.id, crate::effects::database_message(e@)),
                Ok(None) => match job.talk {
                    Talk::Resume { spec_name: Some(name), .. } => n.fails(
                        job.id,
                        crate::effects::no_spec_message(name@),
                    ),
                    _ => n.fails(job.id, "NOT_FOUND: no draft spec found for this project"@),
                },
                Ok(Some(spec)) => SpecTalk::reawakens(job, project, spec, n),
            },
            (TalkStep::Activate { project, spec, session }, Event::Done(r)) => match r {
                Err(e) => n.fails(job.id, crate::effects::database_message(e@)),
                Ok(_) => n.goes(
                    job,
                    TalkStep::ResumeHome { project, spec, session },
                    Action::NflowHome,
                ),
            },
            (TalkStep::ResumeHome { project, spec, session }, Event::Text(r)) => match r {
                Err(e) => n.fails(job.id, "failed to get nflow home: "@ + e@),
                Ok(home) => SpecTalk::prepares(
                    job,
                    Setup { project, home, spec, resume: Some(session) },
                    n,
                ),
            },
            (TalkStep::Prompts { setup }, Event::Flag(r)) => {
                &&& n matches Next::Act(s, Action::LoadTemplate { template, dir })
                &&& template == Template::SpecSession
                &&& s == Run { job, at: TalkStep::Load { setup, dir } }
                &&& if r == Ok::<bool, String>(true) {
                    dir matches Some(d) && d@ == crate::text::joined(setup.home@, "prompts"@)
                } else {
                    dir is None
                }
            },
            (TalkStep::Load { setup, dir }, Event::Text(r)) => match r {
                Err(e) => n.fails(job.id, "failed to load template: "@ + e@),
                Ok(template) => n.goes(
                    job,
                    TalkStep::Render { setup, dir },
                    Action::RenderSpecPrompt {
                        template,
                        spec: setup.spec,
                        project: setup.project,
                    },
                ),
            },
            (TalkStep::Render { setup, dir }, Event::Text(r)) => match r {
                Err(e) => n.fails(job.id, "failed to render template: "@ + e@),
                Ok(prompt) => {
                    &&& n matches Next::Act(s, a)
                    &&& s.at matches TalkStep::Open { config, spec }
                    &&& spec == setup.spec
                    &&& session_config(config, setup, dir, prompt, job.talk.with_codebase())
                    &&& n.goes(job, s.at, Action::OpenStream)
                },
            },
            (TalkStep::AnswerSpec, Event::MaybeSpec(r)) => match r {
                Err(e) => n.fails(job.id, crate::effects::database_message(e@)),
                Ok(None) => match job.talk {
                    Talk::Answer { spec_text, .. } => n.fails(
                        job.id,
                        crate::effects::no_spec_message(spec_text@),
                    ),
                    _ => false,
                },
                Ok(Some(spec)) => if !spec.session_active {
                    n.fails(job.id, "INVALID_STATE: no active session for this spec"@)
                } else {
                    match spec.claude_session_id {
                        None => n.fails(
                            job.id,
                            "INVALID_STATE: spec has no agent session to resume"@,
                        ),
                        Some(session) => n.goes(
                            job,
                            TalkStep::AnswerProject { spec, session },
                            Action::GetProjectById { project: spec.project_id },
                        ),
                    }
                },
            },
            (TalkStep::AnswerProject { spec, session }, Event::MaybeProject(r)) => match r {
                Err(e) => n.fails(job.id, crate::effects::database_message(e@)),
                Ok(None) => n.fails(job.id, "NOT_FOUND: project for this spec not found"@),
                Ok(Some(project)) => match job.talk {
                    Talk::Answer { answer, .. } => n.goes(
                        job,
                        TalkStep::Open {
                            config: RunConfig {
                                kind: RunKind::Spec { with_codebase: true },
                                prompt: answer,
                                resume_session: Some(session),
                                working_dir: Some(project.path),
                                system_prompt_file: None,
                            },
                            spec,
                        },
                        Action::OpenStream,
                    ),
                    _ => false,
                },
            },
            (TalkStep::Open { config, spec }, Event::Done(_)) => if job.talk is Answer {
                n.goes(job, TalkStep::Spawn { spec }, Action::SpawnClaude { config })
            } else {
                n.shows(
                    job,
                    TalkStep::First { config, spec },
                    job.id,
                    session_opened(job.talk, spec),
                )
            },
            (TalkStep::First { config, spec }, Event::Done(_)) => n.goes(
                job,
                TalkStep::Spawn { spec },
                Action::SpawnClaude { config },
            ),
            (TalkStep::Spawn { spec }, Event::Done(r)) => match r {
                Err(e) => n.reports(
                    job,
                    TalkStep::SpawnFailed { spec },
                    job.id,
                    "failed to spawn agent: "@ + e@,
                ),
                Ok(_) => n.goes(job, TalkStep::Listen { spec }, Action::NextClaudeEvent),
            },
            (TalkStep::SpawnFailed { spec }, Event::Done(_)) => n.goes(
                job,
                TalkStep::GiveUp,
                Action::UpdateSpecSession { spec: spec.id, active: false, claude_session_id: None },
            ),
            (TalkStep::GiveUp, Event::Done(_)) => n is End,
            (TalkStep::Listen { spec }, Event::Claude(r)) => match r {
                Ok(Some(item)) => n.shows(job, TalkStep::Show { spec }, job.id, item.shown()),
                Ok(None) => n.goes(job, TalkStep::Session { spec }, Action::ClaudeSessionId),
                Err(e) => n.reports(
                    job,
                    TalkStep::Broken { spec },
                    job.id,
                    "stream error: "@ + e@,
                ),
            },
            (TalkStep::Show { spec }, Event::Done(r)) => match r {
                Ok(_) => n.goes(job, TalkStep::Listen { spec }, Action::NextClaudeEvent),
                Err(_) => n.goes(job, TalkStep::Session { spec }, Action::ClaudeSessionId),
            },
            (TalkStep::Broken { spec }, Event::Done(_)) => n.goes(
                job,
                TalkStep::Session { spec },
                Action::ClaudeSessionId,
            ),
            (TalkStep::Session { spec }, Event::MaybeText(session)) => n.goes(
                job,
                TalkStep::Exit { spec, session },
                Action::AwaitExit,
            ),
            (TalkStep::Exit { spec, session }, Event::Exit(code)) => n.goes(
                job,
                TalkStep::Written { spec, session, code },
                Action::PathExists { path: spec.file_path },
            ),
            (TalkStep::Written { spec, session, code }, Event::Flag(r)) => n.goes(
                job,
                TalkStep::OpenDb { spec, session, completed: is_completed(code, r) },
                Action::OpenDb,
            ),
            (TalkStep::OpenDb { spec, session, completed }, Event::Done(r)) => match r {
                Err(_) => n.finishes(
                    job,
                    TalkStep::Last,
                    job.id,
                    session_closed(spec, session, completed),
                ),
                Ok(_) => if completed || session is Some {
                    SpecTalk::stores(job, spec, session, session, completed, n)
                } else {
                    n.goes(job, TalkStep::Existing { spec }, Action::GetSpecById { spec: spec.id })
                },
            },
            (TalkStep::Existing { spec }, Event::MaybeSpec(r)) => SpecTalk::stores(
                job,
                spec,
                match r {
                    Ok(Some(stored)) => stored.claude_session_id,
                    _ => None,
                },
                None,
                false,
                n,
            ),
            (TalkStep::Store { spec, session, completed }, Event::Done(_)) => n.finishes(
                job,
                TalkStep::Last,
                job.id,
                session_closed(spec, session, completed),
            ),
            (TalkStep::Last, Event::Done(_)) => n is End,
            _ => false,
        }
    }

    pub fn step(self, ev: Event) -> (n: Next<SpecTalk>)
        requires
            self.accepts(ev),
        ensures
            self.follows(ev, n),
            n matches Next::Act(s, a) ==> forall|e: Event| a.answered_by(e) ==> s.accepts(e),
    {
        let Run { job, at } = self;
        match (at, ev) {
            (TalkStep::Project, Event::MaybeProject(r)) => match r {
                Err(e) => Next::database_error(job.id, e.as_str()),
                Ok(None) => match job.talk {
                    Talk::New { project_name, .. } => no_project(job.id, project_name.as_str()),
                    Talk::Resume { project_name, .. } => no_project(job.id, project_name.as_str()),
                    Talk::Answer { .. } => Next::End,
                },
                Ok(Some(project)) => enter(job, project),
            },
            (TalkStep::Busy { project }, Event::Flag(r)) => match r {
                Err(e) => Next::database_error(job.id, e.as_str()),
                Ok(true) => Next::fail(
                    job.id,
                    "INVALID_STATE: a spec session is already active for this project",
                ),
                Ok(false) => Next::go(job, TalkStep::NewHome { project }, Action::NflowHome),
            },
            (TalkStep::NewHome { project }, Event::Text(r)) => match r {
                Err(e) => Next::fail(
                    job.id,
                    cat("failed to get nflow home: ", e.as_str()).as_str(),
                ),
                Ok(home) => match &job.talk {
                    Talk::New { spec_name, .. } => {
                        let specs = join(
                            project_dir(home.as_str(), project.name.as_str()).as_str(),
                            "specs",
                        );
                        let file_path = join(specs.as_str(), cat(spec_name.as_str(), ".md").as_str());
                        let asked = project.id;
                        let name = spec_name.clone();
                        Next::go(
                            job,
                            TalkStep::Create { project, home },
                            Action::NewSpec { project: asked, name, file_path },
                        )
                    },
                    _ => Next::End,
                },
            },
            (TalkStep::Create { project, home }, Event::Spec(spec)) => {
                let stored = spec.copy();
                Next::go(
                    job,
                    TalkStep::Insert { project, home, spec },
                    Action::InsertSpec { spec: stored },
                )
            },
            (TalkStep::Insert { project, home, spec }, Event::Done(r)) => match r {
                Err(e) => Next::database_error(job.id, e.as_str()),
                Ok(_) => prepare(job, Setup { project, home, spec, resume: None }),
            },
            (TalkStep::Find { project }, Event::MaybeSpec(r)) => match r {
                Err(e) => Next::database_error(job.id, e.as_str()),
                Ok(None) => match job.talk {
                    Talk::Resume { spec_name: Some(name), .. } => no_spec(job.id, name.as_str()),
                    _ => Next::fail(job.id, "NOT_FOUND: no draft spec found for this project"),
                },
                Ok(Some(spec)) => reawaken(job, project, spec),
            },
            (TalkStep::Activate { project, spec, session }, Event::Done(r)) => match r {
                Err(e) => Next::database_error(job.id, e.as_str()),
                Ok(_) => Next::go(
                    job,
                    TalkStep::ResumeHome { project, spec, session },
                    Action::NflowHome,
                ),
            },
            (TalkStep::ResumeHome { project, spec, session }, Event::Text(r)) => match r {
                Err(e) => Next::fail(
                    job.id,
                    cat("failed to get nflow home: ", e.as_str()).as_str(),
                ),
                Ok(home) => prepare(job, Setup { project, home, spec, resume: Some(session) }),
            },
            (TalkStep::Prompts { setup }, Event::Flag(r)) => {
                let dir = match r {
                    Ok(true) => Some(join(setup.home.as_str(), "prompts")),
                    _ => None,
                };
                let asked = crate::model::copy_text(&dir);
                Next::go(
                    job,
                    TalkStep::Load { setup, dir },
                    Action::LoadTemplate { template: Template::SpecSession, dir: asked },
                )
            },
            (TalkStep::Load { setup, dir }, Event::Text(r)) => match r {
                Err(e) => Next::fail(job.id, cat("failed to load template: ", e.as_str()).as_str()),
                Ok(template) => {
                    let spec = setup.spec.copy();
                    let project = setup.project.copy();
                    Next::go(
                        job,
                        TalkStep::Render { setup, dir },
                        Action::RenderSpecPrompt { template, spec, project },
                    )
                },
            },
            (TalkStep::Render { setup, dir }, Event::Text(r)) => match r {
                Err(e) => Next::fail(
                    job.id,
                    cat("failed to render template: ", e.as_str()).as_str(),
                ),
                Ok(prompt) => {
                    let with_codebase = job.talk.codebase();
                    let working = working_dir(&setup.project, setup.home.as_str(), with_codebase);
                    let system_prompt_file = match dir {
                        Some(d) => Some(join(d.as_str(), "spec_session.md")),
                        None => None,
                    };
                    let config = RunConfig {
                        kind: RunKind::Spec { with_codebase },
                        prompt,
                        resume_session: setup.resume,
                        working_dir: Some(working),
                        system_prompt_file,
                    };
                    Next::go(job, TalkStep::Open { config, spec: setup.spec }, Action::OpenStream)
                },
            },
            (TalkStep::AnswerSpec, Event::MaybeSpec(r)) => match r {
                Err(e) => Next::database_error(job.id, e.as_str()),
                Ok(None) => match job.talk {
                    Talk::Answer { spec_text, .. } => no_spec(job.id, spec_text.as_str()),
                    _ => Next::End,
                },
                Ok(Some(spec)) => {
                    if !spec.session_active {
                        return Next::fail(
                            job.id,
                            "INVALID_STATE: no active session for this spec",
                        );
                    }
                    match &spec.claude_session_id {
                        None => Next::fail(
                            job.id,
                            "INVALID_STATE: spec has no agent session to resume",
                        ),
                        Some(sid) => {
                            let session = sid.clone();
                            let project = spec.project_id;
                            Next::go(
                                job,
                                TalkStep::AnswerProject { spec, session },
                                Action::GetProjectById { project },
                            )
                        },
                    }
                },
            },
            (TalkStep::AnswerProject { spec, session }, Event::MaybeProject(r)) => match r {
                Err(e) => Next::database_error(job.id, e.as_str()),
                Ok(None) => Next::fail(job.id, "NOT_FOUND: project for this spec not found"),
                Ok(Some(project)) => match &job.talk {
                    Talk::Answer { answer, .. } => {
                        let config = RunConfig {
                            kind: RunKind::Spec { with_codebase: true },
                            prompt: answer.clone(),
                            resume_session: Some(session),
                            working_dir: Some(project.path),
                            system_prompt_file: None,
                        };
                        Next::go(job, TalkStep::Open { config, spec }, Action::OpenStream)
                    },
                    _ => Next::End,
                },
            },
            (TalkStep::Open { config, spec }, Event::Done(_)) => {
                let data = match &job.talk {
                    Talk::Answer { .. } => {
                        return Next::go(
                            job,
                            TalkStep::Spawn { spec },
                            Action::SpawnClaude { config },
                        );
                    },
                    Talk::New { spec_name, .. } => opened(&spec, spec_name),
                    Talk::Resume { .. } => opened(&spec, &spec.name).with(
                        "resumed",
                        Json::Bool(true),
                    ),
                };
                let line = StreamingResponseLine::data(job.id.clone(), data);
                Next::go(job, TalkStep::First { config, spec }, Action::Send { line })
            },
            (TalkStep::First { config, spec }, Event::Done(_)) => Next::go(
                job,
                TalkStep::Spawn { spec },
                Action::SpawnClaude { config },
            ),
            (TalkStep::Spawn { spec }, Event::Done(r)) => match r {
                Err(e) => {
                    let line = StreamingResponseLine::error(
                        job.id.clone(),
                        cat("failed to spawn agent: ", e.as_str()).as_str(),
                    );
                    Next::go(job, TalkStep::SpawnFailed { spec }, Action::Send { line })
                },
                Ok(_) => Next::go(job, TalkStep::Listen { spec }, Action::NextClaudeEvent),
            },
            (TalkStep::SpawnFailed { spec }, Event::Done(_)) => Next::go(
                job,
                TalkStep::GiveUp,
                Action::UpdateSpecSession { spec: spec.id, active: false, claude_session_id: None },
            ),
            (TalkStep::GiveUp, Event::Done(_)) => Next::End,
            (TalkStep::Listen { spec }, Event::Claude(r)) => match r {
                Ok(Some(item)) => {
                    let line = StreamingResponseLine::data(job.id.clone(), item.to_json());
                    Next::go(job, TalkStep::Show { spec }, Action::Send { line })
                },
                Ok(None) => Next::go(job, TalkStep::Session { spec }, Action::ClaudeSessionId),
                Err(e) => {
                    let line = StreamingResponseLine::error(
                        job.id.clone(),
                        cat("stream error: ", e.as_str()).as_str(),
                    );
                    Next::go(job, TalkStep::Broken { spec }, Action::Send { line })
                },
            },
            (TalkStep::Show { spec }, Event::Done(r)) => match r {
                Ok(_) => Next::go(job, TalkStep::Listen { spec }, Action::NextClaudeEvent),
                Err(_) => Next::go(job, TalkStep::Session { spec }, Action::ClaudeSessionId),
            },
            (TalkStep::Broken { spec }, Event::Done(_)) => Next::go(
                job,
                TalkStep::Session { spec },
                Action::ClaudeSessionId,
            ),
            (TalkStep::Session { spec }, Event::MaybeText(session)) => Next::go(
                job,
                TalkStep::Exit { spec, session },
                Action::AwaitExit,
            ),
            (TalkStep::Exit { spec, session }, Event::Exit(code)) => {
                let path = spec.file_path.clone();
                Next::go(
                    job,
                    TalkStep::Written { spec, session, code },
                    Action::PathExists { path },
                )
            },
            (TalkStep::Written { spec, session, code }, Event::Flag(r)) => {
                let completed = match (code, r) {
                    (Some(0), Ok(true)) => true,
                    _ => false,
                };
                Next::go(job, TalkStep::OpenDb { spec, session, completed }, Action::OpenDb)
            },
            (TalkStep::OpenDb { spec, session, completed }, Event::Done(r)) => match r {
                Err(_) => finish(job, spec, session, completed),
                Ok(_) => {
                    let asked = spec.id;
                    if completed || session.is_some() {
                        let claude_session_id = crate::model::copy_text(&session);
                        Next::go(
                            job,
                            TalkStep::Store { spec, session, completed },
                            Action::UpdateSpecSession {
                                spec: asked,
                                active: !completed,
                                claude_session_id,
                            },
                        )
                    } else {
                        Next::go(
                            job,
                            TalkStep::Existing { spec },
                            Action::GetSpecById { spec: asked },
                        )
                    }
                },
            },
            (TalkStep::Existing { spec }, Event::MaybeSpec(r)) => {
                let asked = spec.id;
                let claude_session_id = match r {
                    Ok(Some(stored)) => stored.claude_session_id,
                    _ => None,
                };
                Next::go(
                    job,
                    TalkStep::Store { spec, session: None, completed: false },
                    Action::UpdateSpecSession { spec: asked, active: true, claude_session_id },
                )
            },
            (TalkStep::Store { spec, session, completed }, Event::Done(_)) => {
                finish(job, spec, session, completed)
            },
            _ => Next::End,
        }
    }
}

fn enter(job: TalkJob, project: Project) -> (n: Next<SpecTalk>)
    requires
        !(job.talk is Answer),
    ensures
        SpecTalk::enters(job, project, n),
        n matches Next::Act(s, a) ==> forall|e: Event| a.answered_by(e) ==> s.accepts(e),
{
    let asked = project.id;
    match &job.talk {
        Talk::New { .. } => Next::go(
            job,
            TalkStep::Busy { project },
            Action::HasActiveSpecSession { project: asked },
        ),
        Talk::Resume { spec_name: Some(name), .. } => {
            let name = name.clone();
            Next::go(
                job,
                TalkStep::Find { project },
                Action::GetSpecByName { project: asked, name },
            )
        },
        Talk::Resume { spec_name: None, .. } => Next::go(
            job,
            TalkStep::Find { project },
            Action::FindLatestDraftSpec { project: asked },
        ),
        Talk::Answer { .. } => Next::End,
    }
}

fn reawaken(job: TalkJob, project: Project, spec: Spec) -> (n: Next<SpecTalk>)
    ensures
        SpecTalk::reawakens(job, project, spec, n),
        n matches Next::Act(s, a) ==> forall|e: Event| a.answered_by(e) ==> s.accepts(e),
{
    if spec.status != SpecStatus::Draft {
        return Next::fail(
            job.id,
            cat5(
                "INVALID_STATE: spec '",
                spec.name.as_str(),
                "' is ",
                spec.status.as_str(),
                " (must be draft to resume)",
            ).as_str(),
        );
    }
    if spec.session_active {
        return Next::fail(
            job.id,
            cat3(
                "INVALID_STATE: spec '",
                spec.name.as_str(),
                "' already has an active session",
            ).as_str(),
        );
    }
    match &spec.claude_session_id {
        None => Next::fail(
            job.id,
            cat3(
                "INVALID_STATE: spec '",
                spec.name.as_str(),
                "' has no previous session to resume",
            ).as_str(),
        ),
        Some(sid) => {
            let session = sid.clone();
            let claude_session_id = Some(sid.clone());
            let asked = spec.id;
            Next::go(
                job,
                TalkStep::Activate { project, spec, session },
                Action::UpdateSpecSession { spec: asked, active: true, claude_session_id },
            )
        },
    }
}

fn prepare(job: TalkJob, setup: Setup) -> (n: Next<SpecTalk>)
    ensures
        SpecTalk::prepares(job, setup, n),
{
    let path = join(setup.home.as_str(), "prompts");
    Next::go(job, TalkStep::Prompts { setup }, Action::IsDir { path })
}

fn opened(spec: &Spec, name: &String) -> (r: Json)
    ensures
        r@ == JsonV::object().with("spec_id"@, JsonV::Str(spec.id.text())).with(
            "name"@,
            JsonV::Str(name@),
        ).with("status"@, JsonV::Str("draft"@)),
{
    Json::object().with("spec_id", Json::Str(spec.id.to_text())).with(
        "name",
        Json::Str(name.clone()),
    ).with("status", Json::text("draft"))
}

fn finish(job: TalkJob, spec: Spec, session: Option<String>, completed: bool) -> (n: Next<SpecTalk>)
    ensures
        n.finishes(job, TalkStep::Last, job.id, session_closed(spec, session, completed)),
{
    let data = Json::object().with("spec_id", Json::Str(spec.id.to_text())).with(
        "session_id",
        Json::optional(&session),
    ).with("completed", Json::Bool(completed));
    let line = StreamingResponseLine::done(job.id.clone(), data);
    Next::go(job, TalkStep::Last, Action::Send { line })
}

/// Once a run has ended, its spec's session is closed exactly if the run ended with the exit
/// code 0 and the spec's file exists, and the last line tells which.
pub proof fn law_a_session_is_closed_when_completed(
    job: TalkJob,
    spec: Spec,
    session: Option<String>,
    code: Option<i32>,
    exists: Result<bool, String>,
    first: Next<SpecTalk>,
    opened: Next<SpecTalk>,
    found: Event,
    stored: Next<SpecTalk>,
    written: Event,
    last: Next<SpecTalk>,
)
    requires
        (Run { job, at: TalkStep::Written { spec, session, code } }).follows(
            Event::Flag(exists),
            first,
        ),
        first matches Next::Act(s, _) && s.follows(Event::Done(Ok(())), opened),
        // Where neither the run nor the file tells, the stored session is looked up first.
        opened matches Next::Act(s, _) && if s.at is Existing {
            s.follows(found, stored)
        } else {
            stored == opened
        },
        stored matches Next::Act(s, _) && s.follows(written, last),
    ensures
        stored matches Next::Act(_, Action::UpdateSpecSession { spec: id, active, .. }) && id
            == spec.id && active == !(code == Some(0i32) && exists == Ok::<bool, String>(true)),
        last matches Next::Act(s, Action::Send { line }) && line.is_done(
            job.id,
            session_closed(
                spec,
                session,
                code == Some(0i32) && exists == Ok::<bool, String>(true),
            ),
        ),
{
}

} // verus!
