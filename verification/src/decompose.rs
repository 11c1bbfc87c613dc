//! `plan.generate` and `plan.feedback`: the agent decomposes specs into the work items of a wave.
use vstd::prelude::*;
use crate::building::{dependency_links, find_named, Batch, Builder};
use crate::claude::{RunConfig, RunKind, StreamEvent};
use crate::drafts::{read_drafts, string_items};
use crate::effects::{
    missing_parameter, no_project, no_spec, Action, Event, Next, Notice, Run, Template,
};
use crate::extract::{extract_json_from_text, first_chars};
use crate::ident::Uuid;
use crate::json::{Json, JsonV};
use crate::model::{
    copy_items, DecompositionSession, DecompositionStatus, Dependency, Project, Spec, SpecStatus,
    WorkItem,
};
use crate::pipeline_data::TemplateVar;
use crate::plans::{no_wave, wave_param};
use crate::protocol::{Request, StreamingResponseLine};
use crate::sessions::{flag_or, working_dir};
use crate::text::{cat, cat3, cat4, cat5, join, u64_text};

verus! {

/// What is asked for: a new wave, or a draft wave once more with a remark.
#[allow(inconsistent_fields)]
pub enum Ask {
    Generate { project_name: String, spec_names: Option<Vec<String>>, with_codebase: bool },
    Feedback { project_name: String, message: String, wave: Option<u32> },
}

pub struct PlanJob {
    pub id: String,
    pub ask: Ask,
}

/// The specs to decompose; `contents` holds what their files say, as far as they are read.
pub struct Wanted {
    pub project: Project,
    pub specs: Vec<Spec>,
    pub contents: Vec<String>,
}

/// How many work items were made.
#[derive(Debug, Clone, Copy, PartialEq, Eq, Structural)]
pub struct Counts {
    pub epics: usize,
    pub stories: usize,
    pub tasks: usize,
}

#[allow(inconsistent_fields)]
pub enum PlanStep {
    Project,
    Draft { project: Project },
    /// The spec named next is being looked up.
    Named { project: Project, found: Vec<Spec> },
    Unassigned { project: Project },
    Read { wanted: Wanted },
    Wave { wanted: Wanted },
    Create { wanted: Wanted, wave: u32 },
    Insert { wanted: Wanted, wave: u32, session: DecompositionSession },
    /// The first `done` specs are linked to the wave, and the next is being linked.
    Link { wanted: Wanted, wave: u32, session: DecompositionSession, done: usize },
    Home { wanted: Wanted, wave: u32, session: DecompositionSession },
    Prompts { wanted: Wanted, wave: u32, session: DecompositionSession, home: String },
    Load { wanted: Wanted, wave: u32, session: DecompositionSession, home: String },
    Describe { project: Project, batch: Batch, home: String, template: String },
    Render { project: Project, batch: Batch, home: String },
    /// `plan.feedback`.
    Session { project: Project },
    Specs { project: Project, session: DecompositionSession, resume: String },
    Clear { project: Project, resume: String, batch: Batch },
    Revert { project: Project, resume: String, batch: Batch, done: usize },
    Open { batch: Batch, config: RunConfig },
    First { batch: Batch, config: RunConfig },
    Spawn { batch: Batch },
    /// `text` is the latest result that the agent gave.
    Listen { batch: Batch, text: String },
    Show { batch: Batch, text: String },
    Broken { batch: Batch, text: String },
    ClaudeId { batch: Batch, text: String },
    StoreId { batch: Batch, text: String },
    Parse { batch: Batch, text: String },
    OpenDb { batch: Batch, parsed: Json },
    Make { builder: Builder },
    Store { builder: Builder, item: WorkItem },
    Verify { builder: Builder },
    StoreVerify { builder: Builder, tasks: usize, verify: Vec<WorkItem>, done: usize },
    Depend {
        builder: Builder,
        tasks: usize,
        links: Vec<(String, String)>,
        deps: Vec<Dependency>,
        next: Dependency,
    },
    Dag { batch: Batch, counts: Counts },
    Mark { batch: Batch, counts: Counts, done: usize },
    Announce { batch: Batch, counts: Counts },
    /// The failure is noted, and is then reported.
    Report { message: String },
    Last,
}

pub type PlanTalk = Run<PlanJob, PlanStep>;

/// The ids of the specs.
pub open spec fn ids_of(specs: Seq<Spec>) -> Seq<Uuid> {
    specs.map_values(|s: Spec| s.id)
}

fn spec_ids(specs: &Vec<Spec>) -> (r: Vec<Uuid>)
    ensures
        r@ == ids_of(specs@),
{
    let mut out: Vec<Uuid> = Vec::new();
    let mut i: usize = 0;
    while i < specs.len()
        invariant
            i <= specs@.len(),
            out@ == ids_of(specs@.take(i as int)),
        decreases specs.len() - i,
    {
        out.push(specs[i].id);
        assert(ids_of(specs@.take(i + 1)) =~= ids_of(specs@.take(i as int)).push(
            specs@[i as int].id,
        ));
        i += 1;
    }
    assert(specs@.take(i as int) =~= specs@);
    out
}

/// The names of the specs that are asked for, if they are named.
pub open spec fn names_of(p: JsonV) -> Option<Seq<Seq<char>>> {
    match p.field("spec_names"@) {
        Some(v) => match v.elements() {
            Some(items) => Some(crate::drafts::strings(items)),
            None => None,
        },
        None => None,
    }
}

fn names_param(p: &Json) -> (r: Option<Vec<String>>)
    ensures
        match r {
            Some(names) => names_of(p@) == Some(crate::text::texts_view(names@)),
            None => names_of(p@) is None,
        },
{
    match p.field("spec_names") {
        Some(v) => match v.as_array() {
            Some(items) => Some(string_items(items)),
            None => None,
        },
        None => None,
    }
}

pub open spec fn no_specs_message() -> Seq<char> {
    "NOT_FOUND: no approved specs available for decomposition"@
}

/// The first line of the stream.
pub open spec fn wave_opened(ask: Ask, batch: Batch) -> JsonV {
    let data = JsonV::object().with("session_id"@, JsonV::Str(batch.session.text())).with(
        "wave_number"@,
        JsonV::Int(batch.wave as int),
    ).with("spec_count"@, JsonV::Int(batch.specs@.len() as int));
    if ask is Feedback {
        data.with("feedback"@, JsonV::Bool(true))
    } else {
        data
    }
}

/// The last line of the stream.
pub open spec fn wave_filled(batch: Batch, counts: Counts) -> JsonV {
    JsonV::object().with("session_id"@, JsonV::Str(batch.session.text())).with(
        "wave_number"@,
        JsonV::Int(batch.wave as int),
    ).with("epic_count"@, JsonV::Int(counts.epics as int)).with(
        "story_count"@,
        JsonV::Int(counts.stories as int),
    ).with("task_count"@, JsonV::Int(counts.tasks as int))
}

/// The text that the agent's result is taken from after `event`.
pub open spec fn heard(text: String, event: StreamEvent) -> String {
    match event {
        StreamEvent::Result { text: t, .. } => t,
        _ => text,
    }
}

pub open spec fn unparsed_message(e: Seq<char>, text: Seq<char>) -> Seq<char> {
    "Failed to parse agent output as JSON: "@ + e + ". First 500 chars: "@ + if text.len() <= 500 {
        text
    } else {
        text.take(500)
    }
}

impl Run<PlanJob, PlanStep> {
    /// Which requests come to which step.
    pub open spec fn fits(self) -> bool {
        match self.at {
            PlanStep::Session { .. } | PlanStep::Specs { .. } | PlanStep::Clear { .. }
            | PlanStep::Revert { .. } => self.job.ask is Feedback,
            PlanStep::Draft { .. } | PlanStep::Named { .. } | PlanStep::Unassigned { .. }
            | PlanStep::Read { .. } | PlanStep::Wave { .. } | PlanStep::Create { .. }
            | PlanStep::Insert { .. } | PlanStep::Link { .. } | PlanStep::Home { .. }
            | PlanStep::Prompts { .. } | PlanStep::Load { .. } | PlanStep::Describe { .. }
            | PlanStep::Render { .. } => {
                self.job.ask is Generate
            },
            _ => true,
        }
    }

    /// What is left to do where one thing is done after another, and that what was read can be
    /// numbered.
    pub open spec fn has_more(self) -> bool {
        match self.at {
            PlanStep::Named { found, .. } => match self.job.ask {
                Ask::Generate { spec_names: Some(names), .. } => found.len() < names.len(),
                _ => false,
            },
            PlanStep::Read { wanted } => wanted.contents.len() < wanted.specs.len(),
            PlanStep::Link { wanted, done, .. } => done < wanted.specs.len(),
            PlanStep::Revert { batch, done, .. } => done < batch.specs.len(),
            PlanStep::Make { builder } => builder.valid() && builder.made < builder.drafts.len(),
            PlanStep::Store { builder, .. } => builder.valid() && builder.made
                < builder.drafts.len(),
            PlanStep::StoreVerify { verify, done, .. } => done < verify.len(),
            PlanStep::Depend { links, deps, .. } => deps.len() < links.len(),
            PlanStep::Mark { batch, done, .. } => done < batch.specs.len(),
            PlanStep::OpenDb { parsed, .. } => crate::drafts::can_read(parsed@),
            _ => true,
        }
    }

    pub open spec fn accepts(self, ev: Event) -> bool {
        &&& self.fits()
        &&& self.has_more()
        &&& match self.at {
            PlanStep::Project => ev is MaybeProject,
            PlanStep::Draft { .. } | PlanStep::Session { .. } => ev is MaybeSession,
            PlanStep::Named { .. } => ev is MaybeSpec,
            PlanStep::Unassigned { .. } => ev is Specs,
            PlanStep::Read { .. } | PlanStep::Home { .. } | PlanStep::Load { .. }
            | PlanStep::Render { .. } => ev is Text,
            PlanStep::Describe { .. } => ev is Written,
            PlanStep::Wave { .. } => ev matches Event::Count(r) && (r matches Ok(n) ==> n >= 1),
            PlanStep::Create { .. } => ev is Session,
            PlanStep::Prompts { .. } => ev is Flag,
            PlanStep::Specs { .. } => ev is Uuids,
            PlanStep::Listen { .. } => ev is Claude,
            PlanStep::ClaudeId { .. } => ev is MaybeText,
            PlanStep::Parse { .. } => ev matches Event::Parsed(r) && (r matches Ok(parsed)
                ==> crate::drafts::can_read(parsed@)),
            PlanStep::Make { .. } => ev is WorkItem,
            PlanStep::Verify { .. } => ev is Made,
            _ => ev is Done,
        }
    }

    /// How a `plan.generate` request begins.
    pub open spec fn begins_generate(req: Request, n: Next<PlanTalk>) -> bool {
        let p = req.params@;
        match p.text_field("project_name"@) {
            None => n.fails(req.id, crate::effects::missing_message("project_name"@)),
            Some(name) => {
                &&& n matches Next::Act(s, a)
                &&& s.job.id == req.id
                &&& s.job.ask matches Ask::Generate { project_name, spec_names, with_codebase }
                &&& project_name@ == name
                &&& match spec_names {
                    Some(names) => names_of(p) == Some(crate::text::texts_view(names@)),
                    None => names_of(p) is None,
                }
                &&& with_codebase == crate::sessions::flagged(p, "with_codebase"@, true)
                &&& n.goes(
                    s.job,
                    PlanStep::Project,
                    Action::GetProjectByName { name: project_name },
                )
            },
        }
    }

    pub fn start_generate(req: Request) -> (n: Next<PlanTalk>)
        ensures
            PlanTalk::begins_generate(req, n),
            n matches Next::Act(s, a) ==> forall|e: Event| a.answered_by(e) ==> s.accepts(e),
    {
        let project_name = match req.params.str_field("project_name") {
            Some(v) => v,
            None => return missing_parameter(req.id, "project_name"),
        };
        let spec_names = names_param(&req.params);
        let with_codebase = flag_or(&req.params, "with_codebase", true);
        let name = project_name.clone();
        Next::go(
            PlanJob { id: req.id, ask: Ask::Generate { project_name, spec_names, with_codebase } },
            PlanStep::Project,
            Action::GetProjectByName { name },
        )
    }

    /// How a `plan.feedback` request begins.
    pub open spec fn begins_feedback(req: Request, n: Next<PlanTalk>) -> bool {
        let p = req.params@;
        match (p.text_field("project_name"@), p.text_field("message"@)) {
            (None, _) => n.fails(req.id, crate::effects::missing_message("project_name"@)),
            (Some(_), None) => n.fails(req.id, crate::effects::missing_message("message"@)),
            (Some(name), Some(text)) => {
                &&& n matches Next::Act(s, a)
                &&& s.job.id == req.id
                &&& s.job.ask matches Ask::Feedback { project_name, message, wave }
                &&& project_name@ == name
                &&& message@ == text
                &&& wave == crate::plans::wave_of(p, "wave_number"@)
                &&& n.goes(
                    s.job,
                    PlanStep::Project,
                    Action::GetProjectByName { name: project_name },
                )
            },
        }
    }

    pub fn start_feedback(req: Request) -> (n: Next<PlanTalk>)
        ensures
            PlanTalk::begins_feedback(req, n),
            n matches Next::Act(s, a) ==> forall|e: Event| a.answered_by(e) ==> s.accepts(e),
    {
        let project_name = match req.params.str_field("project_name") {
            Some(v) => v,
            None => return missing_parameter(req.id, "project_name"),
        };
        let message = match req.params.str_field("message") {
            Some(v) => v,
            None => return missing_parameter(req.id, "message"),
        };
        let wave = wave_param(&req.params, "wave_number");
        let name = project_name.clone();
        Next::go(
            PlanJob { id: req.id, ask: Ask::Feedback { project_name, message, wave } },
            PlanStep::Project,
            Action::GetProjectByName { name },
        )
    }

    /// Looks up the next named spec, or reads the files once all are found.
    pub open spec fn looks_up(
        job: PlanJob,
        project: Project,
        names: Seq<String>,
        found: Seq<Spec>,
        n: Next<PlanTalk>,
    ) -> bool {
        if found.len() < names.len() {
            &&& n matches Next::Act(s, a)
            &&& s.at matches PlanStep::Named { project: p, found: f }
            &&& p == project
            &&& f@ == found
            &&& n.goes(
                job,
                s.at,
                Action::GetSpecByName { project: project.id, name: names[found.len() as int] },
            )
        } else {
            PlanTalk::reads(job, project, found, n)
        }
    }

    /// Reads the files of the specs, if there are any.
    pub open spec fn reads(
        job: PlanJob,
        project: Project,
        specs: Seq<Spec>,
        n: Next<PlanTalk>,
    ) -> bool {
        if specs.len() == 0 {
            n.fails(job.id, no_specs_message())
        } else {
            &&& n matches Next::Act(s, a)
            &&& s.at matches PlanStep::Read { wanted }
            &&& wanted.project == project
            &&& wanted.specs@ == specs
            &&& wanted.contents@.len() == 0
            &&& n.goes(job, s.at, Action::ReadFile { path: specs[0].file_path })
        }
    }

    /// Links the specs from index `done` on to the wave, and then goes on to the prompt.
    pub open spec fn links_up(
        job: PlanJob,
        wanted: Wanted,
        wave: u32,
        session: DecompositionSession,
        done: int,
        n: Next<PlanTalk>,
    ) -> bool {
        if done < wanted.specs@.len() {
            n.goes(
                job,
                PlanStep::Link { wanted, wave, session, done: done as usize },
                Action::LinkSpec { session: session.id, spec: wanted.specs@[done].id },
            )
        } else {
            n.goes(job, PlanStep::Home { wanted, wave, session }, Action::NflowHome)
        }
    }

    /// Approves the specs from index `done` on again, and then starts the agent.
    pub open spec fn reverts(
        job: PlanJob,
        project: Project,
        resume: String,
        batch: Batch,
        done: int,
        n: Next<PlanTalk>,
    ) -> bool {
        if done < batch.specs@.len() {
            n.goes(
                job,
                PlanStep::Revert { project, resume, batch, done: done as usize },
                Action::UpdateSpecStatus { spec: batch.specs@[done], status: SpecStatus::Approved },
            )
        } else {
            n.goes(
                job,
                PlanStep::Open {
                    batch,
                    config: RunConfig {
                        kind: RunKind::Decompose { with_codebase: true },
                        prompt: job.ask->message,
                        resume_session: Some(resume),
                        working_dir: Some(project.path),
                        system_prompt_file: None,
                    },
                },
                Action::OpenStream,
            )
        }
    }

    /// Notes the failure `message` of the wave, to report it afterwards.
    pub open spec fn notes(
        job: PlanJob,
        session: Uuid,
        message: Seq<char>,
        n: Next<PlanTalk>,
    ) -> bool {
        &&& n matches Next::Act(s, Action::UpdateSessionError { session: noted, message: m })
        &&& noted == session
        &&& m@ == message
        &&& s == Run { job, at: PlanStep::Report { message: m } }
    }

    pub open spec fn gives_up(
        job: PlanJob,
        session: Uuid,
        why: Seq<char>,
        n: Next<PlanTalk>,
    ) -> bool {
        PlanTalk::notes(job, session, "Failed to build work items: "@ + why, n)
    }

    /// What is done with the text that the agent gave, once it is done.
    pub open spec fn concludes(
        job: PlanJob,
        batch: Batch,
        text: String,
        n: Next<PlanTalk>,
    ) -> bool {
        if text@.len() == 0 {
            PlanTalk::notes(
                job,
                batch.session,
                "agent process exited without producing a result"@,
                n,
            )
        } else {
            &&& n matches Next::Act(s, Action::ParseJson { text: part })
            &&& part@ == crate::extract::json_part(text@)
            &&& s == Run { job, at: PlanStep::Parse { batch, text: part } }
        }
    }

    /// Has the next draft of `builder` made, or the tasks that verify.
    pub open spec fn builds(job: PlanJob, builder: Builder, n: Next<PlanTalk>) -> bool {
        &&& n matches Next::Act(s, a)
        &&& s.job == job
        &&& if builder.made < builder.drafts@.len() {
            &&& s.at == PlanStep::Make { builder }
            &&& a matches Action::NewWorkItem { item }
            &&& builder.wants(item)
        } else {
            &&& s.at == PlanStep::Verify { builder }
            &&& a matches Action::VerifyTasks { tasks }
            &&& tasks@ == builder.tasks@
        }
    }

    /// The builder that `n` goes on with.
    pub open spec fn builder_of(n: Next<PlanTalk>) -> Builder {
        match n {
            Next::Act(Run { at: PlanStep::Make { builder }, .. }, _) => builder,
            Next::Act(Run { at: PlanStep::Verify { builder }, .. }, _) => builder,
            _ => arbitrary(),
        }
    }

    /// Stores the verifying tasks from index `done` on, and then the dependencies.
    pub open spec fn stores_verify(
        job: PlanJob,
        builder: Builder,
        tasks: usize,
        verify: Vec<WorkItem>,
        done: int,
        n: Next<PlanTalk>,
    ) -> bool {
        if done < verify@.len() {
            n.goes(
                job,
                PlanStep::StoreVerify { builder, tasks, verify, done: done as usize },
                Action::InsertWorkItem { item: verify@[done] },
            )
        } else {
            PlanTalk::depends(
                job,
                builder,
                tasks,
                crate::building::links(crate::drafts::draft_views(builder.drafts@)),
                Seq::empty(),
                n,
            )
        }
    }

    /// Stores the dependency after `deps`, or has the graph checked once all are stored.
    pub open spec fn depends(
        job: PlanJob,
        builder: Builder,
        tasks: usize,
        links: Seq<(Seq<char>, Seq<char>)>,
        deps: Seq<Dependency>,
        n: Next<PlanTalk>,
    ) -> bool {
        let session = builder.batch.session;
        if deps.len() < links.len() {
            let (blocked, blocker) = links[deps.len() as int];
            match crate::building::named_story(builder.names@, blocked) {
                None => PlanTalk::gives_up(
                    job,
                    session,
                    "dependency: unknown story '"@ + blocked + "'"@,
                    n,
                ),
                Some(blocked_id) => match crate::building::named_story(builder.names@, blocker) {
                    None => PlanTalk::gives_up(
                        job,
                        session,
                        "dependency: unknown blocker story '"@ + blocker + "'"@,
                        n,
                    ),
                    Some(blocker_id) => {
                        let dependency = Dependency { blocker_id, blocked_id };
                        &&& n matches Next::Act(s, a)
                        &&& s.at matches PlanStep::Depend {
                            builder: b,
                            tasks: t,
                            links: l,
                            deps: d,
                            next,
                        }
                        &&& b == builder
                        &&& t == tasks
                        &&& crate::building::link_views(l@) == links
                        &&& d@ == deps
                        &&& next == dependency
                        &&& n.goes(job, s.at, Action::InsertDependency { dependency })
                    },
                },
            }
        } else {
            &&& n matches Next::Act(s, Action::CheckDag { stories, dependencies })
            &&& stories == builder.stories
            &&& dependencies@ == deps
            &&& s == Run {
                job,
                at: PlanStep::Dag {
                    batch: builder.batch,
                    counts: Counts {
                        epics: builder.epics,
                        stories: builder.stories@.len() as usize,
                        tasks,
                    },
                },
            }
        }
    }

    /// Marks the specs from index `done` on as decomposed, and then tells everyone.
    pub open spec fn marks(
        job: PlanJob,
        batch: Batch,
        counts: Counts,
        done: int,
        n: Next<PlanTalk>,
    ) -> bool {
        if done < batch.specs@.len() {
            n.goes(
                job,
                PlanStep::Mark { batch, counts, done: done as usize },
                Action::UpdateSpecStatus {
                    spec: batch.specs@[done],
                    status: SpecStatus::Decomposed,
                },
            )
        } else {
            n.goes(
                job,
                PlanStep::Announce { batch, counts },
                Action::Broadcast {
                    notice: Notice::DecompositionCompleted {
                        session: batch.session,
                        project: batch.project,
                        wave: batch.wave,
                    },
                },
            )
        }
    }

    pub open spec fn follows(self, ev: Event, n: Next<PlanTalk>) -> bool {
        let job = self.job;
        match (self.at, ev) {
            (PlanStep::Project, Event::MaybeProject(r)) => match r {
                Err(e) => n.fails(job.id, crate::effects::database_message(e@)),
                Ok(None) => n.fails(
                    job.id,
                    crate::effects::no_project_message(
                        match job.ask {
                            Ask::Generate { project_name, .. } => project_name@,
                            Ask::Feedback { project_name, .. } => project_name@,
                        },
                    ),
                ),
                Ok(Some(project)) => match job.ask {
                    Ask::Generate { .. } => n.goes(
                        job,
                        PlanStep::Draft { project },
                        Action::FindDraftSession { project: project.id },
                    ),
                    Ask::Feedback { wave, .. } => n.goes(
                        job,
                        PlanStep::Session { project },
                        match wave {
                            Some(wave) => Action::GetSessionByWave { project: project.id, wave },
                            None => Action::FindDraftSession { project: project.id },
                        },
                    ),
                },
            },
            (PlanStep::Draft { project }, Event::MaybeSession(r)) => match r {
                Err(e) => n.fails(job.id, crate::effects::database_message(e@)),
                Ok(Some(_)) => n.fails(
                    job.id,
                    "INVALID_STATE: project already has a draft wave (in_progress). Approve or discard it first."@,
                ),
                Ok(None) => match job.ask {
                    Ask::Generate { spec_names: Some(names), .. } => PlanTalk::looks_up(
                        job,
                        project,
                        names@,
                        Seq::empty(),
                        n,
                    ),
                    _ => n.goes(
                        job,
                        PlanStep::Unassigned { project },
                        Action::FindUnassignedApprovedSpecs { project: project.id },
                    ),
                },
            },
            (PlanStep::Named { project, found }, Event::MaybeSpec(r)) => match job.ask {
                Ask::Generate { spec_names: Some(names), .. } => match r {
                    Err(e) => n.fails(job.id, crate::effects::database_message(e@)),
                    Ok(None) => n.fails(
                        job.id,
                        crate::effects::no_spec_message(names@[found@.len() as int]@),
                    ),
                    Ok(Some(spec)) => if spec.status != SpecStatus::Approved {
                        n.fails(
                            job.id,
                            "INVALID_STATE: spec '"@ + spec.name@ + "' is "@ + spec.status.name()
                                + " (must be approved)"@,
                        )
                    } else {
                        PlanTalk::looks_up(job, project, names@, found@.push(spec), n)
                    },
                },
                _ => false,
            },
            (PlanStep::Unassigned { project }, Event::Specs(r)) => match r {
                Err(e) => n.fails(job.id, crate::effects::database_message(e@)),
                Ok(specs) => PlanTalk::reads(job, project, specs@, n),
            },
            (PlanStep::Read { wanted }, Event::Text(r)) => match r {
                Err(e) => n.fails(
                    job.id,
                    crate::specs::unreadable_message(
                        wanted.specs@[wanted.contents@.len() as int].file_path@,
                        e@,
                    ),
                ),
                Ok(content) => {
                    let contents = wanted.contents@.push(content);
                    &&& n matches Next::Act(s, a)
                    &&& if contents.len() < wanted.specs@.len() {
                        &&& s.at matches PlanStep::Read { wanted: w }
                        &&& w.project == wanted.project && w.specs == wanted.specs
                        &&& w.contents@ == contents
                        &&& n.goes(
                            job,
                            s.at,
                            Action::ReadFile {
                                path: wanted.specs@[contents.len() as int].file_path,
                            },
                        )
                    } else {
                        &&& s.at matches PlanStep::Wave { wanted: w }
                        &&& w.project == wanted.project && w.specs == wanted.specs
                        &&& w.contents@ == contents
                        &&& n.goes(
                            job,
                            s.at,
                            Action::NextWaveNumber { project: wanted.project.id },
                        )
                    }
                },
            },
            (PlanStep::Wave { wanted }, Event::Count(r)) => match r {
                Err(e) => n.fails(job.id, crate::effects::database_message(e@)),
                Ok(wave) => n.goes(
                    job,
                    PlanStep::Create { wanted, wave },
                    Action::NewSession { project: wanted.project.id, previous: (wave - 1) as u32 },
                ),
            },
            (PlanStep::Create { wanted, wave }, Event::Session(r)) => match r {
                Err(e) => n.fails(job.id, "failed to create session: "@ + e@),
                Ok(session) => n.goes(
                    job,
                    PlanStep::Insert { wanted, wave, session },
                    Action::InsertSession { session },
                ),
            },
            (PlanStep::Insert { wanted, wave, session }, Event::Done(r)) => match r {
                Err(e) => n.fails(job.id, crate::effects::database_message(e@)),
                Ok(_) => PlanTalk::links_up(job, wanted, wave, session, 0, n),
            },
            (PlanStep::Link { wanted, wave, session, done }, Event::Done(r)) => match r {
                Err(e) => n.fails(job.id, crate::effects::database_message(e@)),
                Ok(_) => PlanTalk::links_up(job, wanted, wave, session, done + 1, n),
            },
            (PlanStep::Home { wanted, wave, session }, Event::Text(r)) => match r {
                Err(e) => n.fails(job.id, "failed to get nflow home: "@ + e@),
                Ok(home) => {
                    &&& n matches Next::Act(s, Action::IsDir { path })
                    &&& path@ == crate::text::joined(home@, "prompts"@)
                    &&& s == Run { job, at: PlanStep::Prompts { wanted, wave, session, home } }
                },
            },
            (PlanStep::Prompts { wanted, wave, session, home }, Event::Flag(r)) => {
                &&& n matches Next::Act(s, Action::LoadTemplate { template, dir })
                &&& template == Template::Decompose
                &&& s == Run { job, at: PlanStep::Load { wanted, wave, session, home } }
                &&& if r == Ok::<bool, String>(true) {
                    dir matches Some(d) && d@ == crate::text::joined(home@, "prompts"@)
                } else {
                    dir is None
                }
            },
            (PlanStep::Load { wanted, wave, session, home }, Event::Text(r)) => match r {
                Err(e) => n.fails(job.id, "failed to load template: "@ + e@),
                Ok(template) => {
                    &&& n matches Next::Act(s, a)
                    &&& s.at matches PlanStep::Describe { project, batch, home: h, template: t }
                    &&& project == wanted.project && h == home && t == template
                    &&& batch.session == session.id
                    &&& batch.wave == wave
                    &&& batch.specs@ == ids_of(wanted.specs@)
                    &&& batch.project == wanted.project.id
                    &&& n.goes(
                        job,
                        s.at,
                        Action::DescribeSpecs { specs: wanted.specs, contents: wanted.contents },
                    )
                },
            },
            (PlanStep::Describe { project, batch, home, template }, Event::Written(text)) => {
                &&& n matches Next::Act(s, Action::RenderTemplate { template: t, vars })
                &&& s == Run { job, at: PlanStep::Render { project, batch, home } }
                &&& t == template
                &&& crate::pipeline_data::var_views(vars@) == seq![
                    ("specs_content"@, text@),
                    ("project_name"@, project.name@),
                ]
            },
            (PlanStep::Render { project, batch, home }, Event::Text(r)) => match r {
                Err(e) => n.fails(job.id, "failed to render template: "@ + e@),
                Ok(prompt) => match job.ask {
                    Ask::Generate { with_codebase, .. } => {
                        &&& n matches Next::Act(s, a)
                        &&& s.at matches PlanStep::Open { batch: b, config }
                        &&& b == batch
                        &&& config.kind == RunKind::Decompose { with_codebase }
                        &&& config.prompt == prompt
                        &&& config.resume_session is None
                        &&& config.working_dir matches Some(w)
                        &&& w@ == crate::sessions::working_directory(project, home@, with_codebase)
                        &&& config.system_prompt_file is None
                        &&& n.goes(job, s.at, Action::OpenStream)
                    },
                    _ => false,
                },
            },
            (PlanStep::Session { project }, Event::MaybeSession(r)) => match job.ask {
                Ask::Feedback { wave, .. } => match r {
                    Err(e) => n.fails(job.id, crate::effects::database_message(e@)),
                    Ok(None) => match wave {
                        Some(w) => n.fails(job.id, crate::plans::no_wave_message(w)),
                        None => n.fails(job.id, "NOT_FOUND: no draft wave found for this project"@),
                    },
                    Ok(Some(session)) => if session.status != DecompositionStatus::InProgress {
                        n.fails(
                            job.id,
                            "INVALID_STATE: wave W"@ + crate::text::decimal(
                                session.wave_number as nat,
                            ) + " is "@ + session.status.name()
                                + " (must be in_progress for feedback)"@,
                        )
                    } else {
                        match session.claude_session_id {
                            None => n.fails(
                                job.id,
                                "INVALID_STATE: wave W"@ + crate::text::decimal(
                                    session.wave_number as nat,
                                ) + " has no agent session ID (cannot resume)"@,
                            ),
                            Some(resume) => n.goes(
                                job,
                                PlanStep::Specs { project, session, resume },
                                Action::ListSpecIds { session: session.id },
                            ),
                        }
                    },
                },
                _ => false,
            },
            (PlanStep::Specs { project, session, resume }, Event::Uuids(r)) => match r {
                Err(e) => n.fails(job.id, crate::effects::database_message(e@)),
                Ok(specs) => n.goes(
                    job,
                    PlanStep::Clear {
                        project,
                        resume,
                        batch: Batch {
                            session: session.id,
                            wave: session.wave_number,
                            specs,
                            project: project.id,
                        },
                    },
                    Action::DeleteItems { session: session.id },
                ),
            },
            (PlanStep::Clear { project, resume, batch }, Event::Done(r)) => match r {
                Err(e) => n.fails(job.id, crate::effects::database_message(e@)),
                Ok(_) => PlanTalk::reverts(job, project, resume, batch, 0, n),
            },
            (PlanStep::Revert { project, resume, batch, done }, Event::Done(r)) => match r {
                Err(e) => n.fails(job.id, crate::effects::database_message(e@)),
                Ok(_) => PlanTalk::reverts(job, project, resume, batch, done + 1, n),
            },
            (PlanStep::Open { batch, config }, Event::Done(_)) => n.shows(
                job,
                PlanStep::First { batch, config },
                job.id,
                wave_opened(job.ask, batch),
            ),
            (PlanStep::First { batch, config }, Event::Done(_)) => n.goes(
                job,
                PlanStep::Spawn { batch },
                Action::SpawnClaude { config },
            ),
            (PlanStep::Spawn { batch }, Event::Done(r)) => match r {
                Err(e) => PlanTalk::notes(
                    job,
                    batch.session,
                    "Failed to spawn agent process: "@ + e@,
                    n,
                ),
                Ok(_) => {
                    &&& n matches Next::Act(s, a)
                    &&& s.at matches PlanStep::Listen { batch: b, text }
                    &&& b == batch && text@.len() == 0
                    &&& n.goes(job, s.at, Action::NextClaudeEvent)
                },
            },
            (PlanStep::Listen { batch, text }, Event::Claude(r)) => match r {
                Ok(Some(item)) => n.shows(
                    job,
                    PlanStep::Show { batch, text: heard(text, item.event) },
                    job.id,
                    item.event.shown(),
                ),
                Ok(None) => n.goes(
                    job,
                    PlanStep::ClaudeId { batch, text },
                    Action::ClaudeSessionId,
                ),
                Err(e) => n.reports(
                    job,
                    PlanStep::Broken { batch, text },
                    job.id,
                    "stream error: "@ + e@,
                ),
            },
            (PlanStep::Show { batch, text }, Event::Done(r)) => match r {
                Ok(_) => n.goes(job, PlanStep::Listen { batch, text }, Action::NextClaudeEvent),
                Err(_) => n.goes(job, PlanStep::ClaudeId { batch, text }, Action::ClaudeSessionId),
            },
            (PlanStep::Broken { batch, text }, Event::Done(_)) => n.goes(
                job,
                PlanStep::ClaudeId { batch, text },
                Action::ClaudeSessionId,
            ),
            (PlanStep::ClaudeId { batch, text }, Event::MaybeText(id)) => match id {
                Some(claude_session_id) => n.goes(
                    job,
                    PlanStep::StoreId { batch, text },
                    Action::UpdateSessionClaudeId { session: batch.session, claude_session_id },
                ),
                None => PlanTalk::concludes(job, batch, text, n),
            },
            (PlanStep::StoreId { batch, text }, Event::Done(_)) => {
                PlanTalk::concludes(job, batch, text, n)
            },
            (PlanStep::Parse { batch, text }, Event::Parsed(r)) => match r {
                Err(e) => PlanTalk::notes(job, batch.session, unparsed_message(e@, text@), n),
                Ok(parsed) => n.goes(job, PlanStep::OpenDb { batch, parsed }, Action::OpenDb),
            },
            (PlanStep::OpenDb { batch, parsed }, Event::Done(r)) => match r {
                Err(e) => n.reports(
                    job,
                    PlanStep::Last,
                    job.id,
                    crate::effects::database_message(e@),
                ),
                Ok(_) => match parsed@.field("epics"@) {
                    Some(JsonV::Arr(epics)) => {
                        &&& PlanTalk::builder_of(n).fresh(batch, crate::drafts::epic_drafts(epics))
                        &&& PlanTalk::builds(job, PlanTalk::builder_of(n), n)
                    },
                    _ => PlanTalk::gives_up(job, batch.session, "JSON missing 'epics' array"@, n),
                },
            },
            (PlanStep::Make { builder }, Event::WorkItem(item)) => n.goes(
                job,
                PlanStep::Store { builder, item },
                Action::InsertWorkItem { item },
            ),
            (PlanStep::Store { builder, item }, Event::Done(r)) => match r {
                Err(e) => PlanTalk::gives_up(
                    job,
                    builder.batch.session,
                    builder.insert_error() + e@,
                    n,
                ),
                Ok(_) => {
                    &&& builder.took(item, PlanTalk::builder_of(n))
                    &&& PlanTalk::builds(job, PlanTalk::builder_of(n), n)
                },
            },
            (PlanStep::Verify { builder }, Event::Made(verify)) => exists|tasks: usize|
                tasks == builder.tasks@.len() + verify@.len() && #[trigger] PlanTalk::stores_verify(
                    job,
                    builder,
                    tasks,
                    verify,
                    0,
                    n,
                ),
            (PlanStep::StoreVerify { builder, tasks, verify, done }, Event::Done(r)) => match r {
                Err(e) => PlanTalk::gives_up(
                    job,
                    builder.batch.session,
                    "failed to insert verify task: "@ + e@,
                    n,
                ),
                Ok(_) => PlanTalk::stores_verify(job, builder, tasks, verify, done + 1, n),
            },
            (PlanStep::Depend { builder, tasks, links, deps, next }, Event::Done(r)) => match r {
                Err(e) => PlanTalk::gives_up(
                    job,
                    builder.batch.session,
                    "failed to insert dependency: "@ + e@,
                    n,
                ),
                Ok(_) => PlanTalk::depends(
                    job,
                    builder,
                    tasks,
                    crate::building::link_views(links@),
                    deps@.push(next),
                    n,
                ),
            },
            (PlanStep::Dag { batch, counts }, Event::Done(r)) => match r {
                Err(e) => PlanTalk::gives_up(
                    job,
                    batch.session,
                    "DAG validation failed: "@ + e@,
                    n,
                ),
                Ok(_) => PlanTalk::marks(job, batch, counts, 0, n),
            },
            (PlanStep::Mark { batch, counts, done }, Event::Done(r)) => match r {
                Err(e) => PlanTalk::gives_up(
                    job,
                    batch.session,
                    "failed to update spec status: "@ + e@,
                    n,
                ),
                Ok(_) => PlanTalk::marks(job, batch, counts, done + 1, n),
            },
            (PlanStep::Announce { batch, counts }, Event::Done(_)) => n.finishes(
                job,
                PlanStep::Last,
                job.id,
                wave_filled(batch, counts),
            ),
            (PlanStep::Report { message }, Event::Done(_)) => n.reports(
                job,
                PlanStep::Last,
                job.id,
                message@,
            ),
            (PlanStep::Last, Event::Done(_)) => n is End,
            _ => false,
        }
    }

    pub fn step(self, ev: Event) -> (n: Next<PlanTalk>)
        requires
            self.accepts(ev),
        ensures
            self.follows(ev, n),
            n matches Next::Act(s, a) ==> forall|e: Event| a.answered_by(e) ==> s.accepts(e),
    {
        let Run { job, at } = self;
        match (at, ev) {
            (PlanStep::Project, Event::MaybeProject(r)) => match r {
                Err(e) => Next::database_error(job.id, e.as_str()),
                Ok(None) => match job.ask {
                    Ask::Generate { project_name, .. } => no_project(job.id, project_name.as_str()),
                    Ask::Feedback { project_name, .. } => no_project(job.id, project_name.as_str()),
                },
                Ok(Some(project)) => {
                    let asked = project.id;
                    match job.ask {
                        Ask::Generate { .. } => Next::go(
                            job,
                            PlanStep::Draft { project },
                            Action::FindDraftSession { project: asked },
                        ),
                        Ask::Feedback { wave, .. } => {
                            let action = match wave {
                                Some(wave) => Action::GetSessionByWave { project: asked, wave },
                                None => Action::FindDraftSession { project: asked },
                            };
                            Next::go(job, PlanStep::Session { project }, action)
                        },
                    }
                },
            },
            (PlanStep::Draft { project }, Event::MaybeSession(r)) => match r {
                Err(e) => Next::database_error(job.id, e.as_str()),
                Ok(Some(_)) => Next::fail(
                    job.id,
                    "INVALID_STATE: project already has a draft wave (in_progress). Approve or discard it first.",
                ),
                Ok(None) => {
                    let named = match &job.ask {
                        Ask::Generate { spec_names, .. } => spec_names.is_some(),
                        _ => false,
                    };
                    if named {
                        look_up(job, project, Vec::new())
                    } else {
                        let asked = project.id;
                        Next::go(
                            job,
                            PlanStep::Unassigned { project },
                            Action::FindUnassignedApprovedSpecs { project: asked },
                        )
                    }
                },
            },
            (PlanStep::Named { project, found }, Event::MaybeSpec(r)) => match r {
                Err(e) => Next::database_error(job.id, e.as_str()),
                Ok(None) => match job.ask {
                    Ask::Generate { spec_names: Some(names), .. } => no_spec(
                        job.id,
                        names[found.len()].as_str(),
                    ),
                    _ => Next::End,
                },
                Ok(Some(spec)) => {
                    if spec.status != SpecStatus::Approved {
                        return Next::fail(
                            job.id,
                            cat5(
                                "INVALID_STATE: spec '",
                                spec.name.as_str(),
                                "' is ",
                                spec.status.as_str(),
                                " (must be approved)",
                            ).as_str(),
                        );
                    }
                    let mut found = found;
                    found.push(spec);
                    look_up(job, project, found)
                },
            },
            (PlanStep::Unassigned { project }, Event::Specs(r)) => match r {
                Err(e) => Next::database_error(job.id, e.as_str()),
                Ok(specs) => read(job, project, specs),
            },
            (PlanStep::Read { wanted }, Event::Text(r)) => match r {
                Err(e) => Next::fail(
                    job.id,
                    cat4(
                        "failed to read spec file '",
                        wanted.specs[wanted.contents.len()].file_path.as_str(),
                        "': ",
                        e.as_str(),
                    ).as_str(),
                ),
                Ok(content) => {
                    let mut wanted = wanted;
                    wanted.contents.push(content);
                    if wanted.contents.len() < wanted.specs.len() {
                        let path = wanted.specs[wanted.contents.len()].file_path.clone();
                        Next::go(job, PlanStep::Read { wanted }, Action::ReadFile { path })
                    } else {
                        let project = wanted.project.id;
                        Next::go(job, PlanStep::Wave { wanted }, Action::NextWaveNumber { project })
                    }
                },
            },
            (PlanStep::Wave { wanted }, Event::Count(r)) => match r {
                Err(e) => Next::database_error(job.id, e.as_str()),
                Ok(wave) => {
                    let project = wanted.project.id;
                    Next::go(
                        job,
                        PlanStep::Create { wanted, wave },
                        Action::NewSession { project, previous: wave - 1 },
                    )
                },
            },
            (PlanStep::Create { wanted, wave }, Event::Session(r)) => match r {
                Err(e) => Next::fail(
                    job.id,
                    cat("failed to create session: ", e.as_str()).as_str(),
                ),
                Ok(session) => {
                    let stored = session.copy();
                    Next::go(
                        job,
                        PlanStep::Insert { wanted, wave, session },
                        Action::InsertSession { session: stored },
                    )
                },
            },
            (PlanStep::Insert { wanted, wave, session }, Event::Done(r)) => match r {
                Err(e) => Next::database_error(job.id, e.as_str()),
                Ok(_) => link_next(job, wanted, wave, session, 0),
            },
            (PlanStep::Link { wanted, wave, session, done }, Event::Done(r)) => match r {
                Err(e) => Next::database_error(job.id, e.as_str()),
                Ok(_) => link_next(job, wanted, wave, session, done + 1),
            },
            (PlanStep::Home { wanted, wave, session }, Event::Text(r)) => match r {
                Err(e) => Next::fail(
                    job.id,
                    cat("failed to get nflow home: ", e.as_str()).as_str(),
                ),
                Ok(home) => {
                    let path = join(home.as_str(), "prompts");
                    Next::go(
                        job,
                        PlanStep::Prompts { wanted, wave, session, home },
                        Action::IsDir { path },
                    )
                },
            },
            (PlanStep::Prompts { wanted, wave, session, home }, Event::Flag(r)) => {
                let dir = match r {
                    Ok(true) => Some(join(home.as_str(), "prompts")),
                    _ => None,
                };
                Next::go(
                    job,
                    PlanStep::Load { wanted, wave, session, home },
                    Action::LoadTemplate { template: Template::Decompose, dir },
                )
            },
            (PlanStep::Load { wanted, wave, session, home }, Event::Text(r)) => match r {
                Err(e) => Next::fail(job.id, cat("failed to load template: ", e.as_str()).as_str()),
                Ok(template) => {
                    let batch = Batch {
                        session: session.id,
                        wave,
                        specs: spec_ids(&wanted.specs),
                        project: wanted.project.id,
                    };
                    let Wanted { project, specs, contents } = wanted;
                    Next::go(
                        job,
                        PlanStep::Describe { project, batch, home, template },
                        Action::DescribeSpecs { specs, contents },
                    )
                },
            },
            (PlanStep::Describe { project, batch, home, template }, Event::Written(text)) => {
                let mut vars: Vec<TemplateVar> = Vec::new();
                vars.push(TemplateVar { name: "specs_content".to_owned(), value: text });
                vars.push(
                    TemplateVar { name: "project_name".to_owned(), value: project.name.clone() },
                );
                assert(crate::pipeline_data::var_views(vars@) =~= seq![
                    ("specs_content"@, text@),
                    ("project_name"@, project.name@),
                ]);
                Next::go(
                    job,
                    PlanStep::Render { project, batch, home },
                    Action::RenderTemplate { template, vars },
                )
            },
            (PlanStep::Render { project, batch, home }, Event::Text(r)) => match r {
                Err(e) => Next::fail(
                    job.id,
                    cat("failed to render template: ", e.as_str()).as_str(),
                ),
                Ok(prompt) => match job.ask {
                    Ask::Generate { with_codebase, .. } => {
                        let working = working_dir(&project, home.as_str(), with_codebase);
                        let config = RunConfig {
                            kind: RunKind::Decompose { with_codebase },
                            prompt,
                            resume_session: None,
                            working_dir: Some(working),
                            system_prompt_file: None,
                        };
                        Next::go(job, PlanStep::Open { batch, config }, Action::OpenStream)
                    },
                    _ => Next::End,
                },
            },
            (PlanStep::Session { project }, Event::MaybeSession(r)) => match r {
                Err(e) => Next::database_error(job.id, e.as_str()),
                Ok(None) => match job.ask {
                    Ask::Feedback { wave: Some(w), .. } => no_wave(job.id, w),
                    _ => Next::fail(job.id, "NOT_FOUND: no draft wave found for this project"),
                },
                Ok(Some(session)) => {
                    if session.status != DecompositionStatus::InProgress {
                        return Next::fail(
                            job.id,
                            cat5(
                                "INVALID_STATE: wave W",
                                u64_text(session.wave_number as u64).as_str(),
                                " is ",
                                session.status.as_str(),
                                " (must be in_progress for feedback)",
                            ).as_str(),
                        );
                    }
                    match &session.claude_session_id {
                        None => Next::fail(
                            job.id,
                            cat3(
                                "INVALID_STATE: wave W",
                                u64_text(session.wave_number as u64).as_str(),
                                " has no agent session ID (cannot resume)",
                            ).as_str(),
                        ),
                        Some(sid) => {
                            let resume = sid.clone();
                            let asked = session.id;
                            Next::go(
                                job,
                                PlanStep::Specs { project, session, resume },
                                Action::ListSpecIds { session: asked },
                            )
                        },
                    }
                },
            },
            (PlanStep::Specs { project, session, resume }, Event::Uuids(r)) => match r {
                Err(e) => Next::database_error(job.id, e.as_str()),
                Ok(specs) => {
                    let batch = Batch {
                        session: session.id,
                        wave: session.wave_number,
                        specs,
                        project: project.id,
                    };
                    Next::go(
                        job,
                        PlanStep::Clear { project, resume, batch },
                        Action::DeleteItems { session: session.id },
                    )
                },
            },
            (PlanStep::Clear { project, resume, batch }, Event::Done(r)) => match r {
                Err(e) => Next::database_error(job.id, e.as_str()),
                Ok(_) => revert_next(job, project, resume, batch, 0),
            },
            (PlanStep::Revert { project, resume, batch, done }, Event::Done(r)) => match r {
                Err(e) => Next::database_error(job.id, e.as_str()),
                Ok(_) => revert_next(job, project, resume, batch, done + 1),
            },
            (PlanStep::Open { batch, config }, Event::Done(_)) => {
                let data = Json::object().with(
                    "session_id",
                    Json::Str(batch.session.to_text()),
                ).with("wave_number", Json::U64(batch.wave as u64)).with(
                    "spec_count",
                    Json::U64(batch.specs.len() as u64),
                );
                let data = match &job.ask {
                    Ask::Feedback { .. } => data.with("feedback", Json::Bool(true)),
                    _ => data,
                };
                let line = StreamingResponseLine::data(job.id.clone(), data);
                Next::go(job, PlanStep::First { batch, config }, Action::Send { line })
            },
            (PlanStep::First { batch, config }, Event::Done(_)) => Next::go(
                job,
                PlanStep::Spawn { batch },
                Action::SpawnClaude { config },
            ),
            (PlanStep::Spawn { batch }, Event::Done(r)) => match r {
                Err(e) => note(
                    job,
                    batch.session,
                    cat("Failed to spawn agent process: ", e.as_str()),
                ),
                Ok(_) => Next::go(
                    job,
                    PlanStep::Listen { batch, text: String::new() },
                    Action::NextClaudeEvent,
                ),
            },
            (PlanStep::Listen { batch, text }, Event::Claude(r)) => match r {
                Ok(Some(item)) => {
                    let line = StreamingResponseLine::data(job.id.clone(), item.event.to_json());
                    let text = match item.event {
                        StreamEvent::Result { text: t, .. } => t,
                        _ => text,
                    };
                    Next::go(job, PlanStep::Show { batch, text }, Action::Send { line })
                },
                Ok(None) => Next::go(
                    job,
                    PlanStep::ClaudeId { batch, text },
                    Action::ClaudeSessionId,
                ),
                Err(e) => {
                    let line = StreamingResponseLine::error(
                        job.id.clone(),
                        cat("stream error: ", e.as_str()).as_str(),
                    );
                    Next::go(job, PlanStep::Broken { batch, text }, Action::Send { line })
                },
            },
            (PlanStep::Show { batch, text }, Event::Done(r)) => match r {
                Ok(_) => Next::go(job, PlanStep::Listen { batch, text }, Action::NextClaudeEvent),
                Err(_) => Next::go(
                    job,
                    PlanStep::ClaudeId { batch, text },
                    Action::ClaudeSessionId,
                ),
            },
            (PlanStep::Broken { batch, text }, Event::Done(_)) => Next::go(
                job,
                PlanStep::ClaudeId { batch, text },
                Action::ClaudeSessionId,
            ),
            (PlanStep::ClaudeId { batch, text }, Event::MaybeText(id)) => match id {
                Some(claude_session_id) => {
                    let session = batch.session;
                    Next::go(
                        job,
                        PlanStep::StoreId { batch, text },
                        Action::UpdateSessionClaudeId { session, claude_session_id },
                    )
                },
                None => conclude(job, batch, text),
            },
            (PlanStep::StoreId { batch, text }, Event::Done(_)) => conclude(job, batch, text),
            (PlanStep::Parse { batch, text }, Event::Parsed(r)) => match r {
                Err(e) => note(
                    job,
                    batch.session,
                    cat4(
                        "Failed to parse agent output as JSON: ",
                        e.as_str(),
                        ". First 500 chars: ",
                        first_chars(text.as_str(), 500),
                    ),
                ),
                Ok(parsed) => Next::go(job, PlanStep::OpenDb { batch, parsed }, Action::OpenDb),
            },
            (PlanStep::OpenDb { batch, parsed }, Event::Done(r)) => match r {
                Err(e) => {
                    let line = StreamingResponseLine::error(
                        job.id.clone(),
                        cat("database error: ", e.as_str()).as_str(),
                    );
                    Next::go(job, PlanStep::Last, Action::Send { line })
                },
                Ok(_) => {
                    let epics = match parsed.field("epics") {
                        Some(v) => v.as_array(),
                        None => None,
                    };
                    match epics {
                        Some(epics) => build(job, Builder::new(batch, read_drafts(epics))),
                        None => give_up(job, batch.session, "JSON missing 'epics' array"),
                    }
                },
            },
            (PlanStep::Make { builder }, Event::WorkItem(item)) => {
                let stored = item.copy();
                Next::go(
                    job,
                    PlanStep::Store { builder, item },
                    Action::InsertWorkItem { item: stored },
                )
            },
            (PlanStep::Store { builder, item }, Event::Done(r)) => match r {
                Err(e) => give_up(
                    job,
                    builder.batch.session,
                    cat(builder.error_prefix(), e.as_str()).as_str(),
                ),
                Ok(_) => build(job, builder.take(item)),
            },
            (PlanStep::Verify { builder }, Event::Made(verify)) => {
                let tasks = count_tasks(&builder.tasks, &verify);
                let n = store_verify(job, builder, tasks, verify, 0);
                assert(tasks == builder.tasks@.len() + verify@.len() && PlanTalk::stores_verify(
                    job,
                    builder,
                    tasks,
                    verify,
                    0,
                    n,
                ));
                n
            },
            (PlanStep::StoreVerify { builder, tasks, verify, done }, Event::Done(r)) => match r {
                Err(e) => give_up(
                    job,
                    builder.batch.session,
                    cat("failed to insert verify task: ", e.as_str()).as_str(),
                ),
                Ok(_) => store_verify(job, builder, tasks, verify, done + 1),
            },
            (PlanStep::Depend { builder, tasks, links, deps, next }, Event::Done(r)) => match r {
                Err(e) => give_up(
                    job,
                    builder.batch.session,
                    cat("failed to insert dependency: ", e.as_str()).as_str(),
                ),
                Ok(_) => {
                    let mut deps = deps;
                    deps.push(next);
                    depend(job, builder, tasks, links, deps)
                },
            },
            (PlanStep::Dag { batch, counts }, Event::Done(r)) => match r {
                Err(e) => give_up(
                    job,
                    batch.session,
                    cat("DAG validation failed: ", e.as_str()).as_str(),
                ),
                Ok(_) => mark_next(job, batch, counts, 0),
            },
            (PlanStep::Mark { batch, counts, done }, Event::Done(r)) => match r {
                Err(e) => give_up(
                    job,
                    batch.session,
                    cat("failed to update spec status: ", e.as_str()).as_str(),
                ),
                Ok(_) => mark_next(job, batch, counts, done + 1),
            },
            (PlanStep::Announce { batch, counts }, Event::Done(_)) => {
                let data = Json::object().with(
                    "session_id",
                    Json::Str(batch.session.to_text()),
                ).with("wave_number", Json::U64(batch.wave as u64)).with(
                    "epic_count",
                    Json::U64(counts.epics as u64),
                ).with("story_count", Json::U64(counts.stories as u64)).with(
                    "task_count",
                    Json::U64(counts.tasks as u64),
                );
                let line = StreamingResponseLine::done(job.id.clone(), data);
                Next::go(job, PlanStep::Last, Action::Send { line })
            },
            (PlanStep::Report { message }, Event::Done(_)) => {
                let line = StreamingResponseLine::error(job.id.clone(), message.as_str());
                Next::go(job, PlanStep::Last, Action::Send { line })
            },
            _ => Next::End,
        }
    }
}

fn look_up(job: PlanJob, project: Project, found: Vec<Spec>) -> (n: Next<PlanTalk>)
    requires
        job.ask matches Ask::Generate { spec_names: Some(names), .. } && found@.len() <= names@.len(),
    ensures
        job.ask matches Ask::Generate { spec_names: Some(names), .. } && PlanTalk::looks_up(
            job,
            project,
            names@,
            found@,
            n,
        ),
        n matches Next::Act(s, a) ==> forall|e: Event| a.answered_by(e) ==> s.accepts(e),
{
    let name = match &job.ask {
        Ask::Generate { spec_names: Some(names), .. } => {
            if found.len() < names.len() {
                Some(names[found.len()].clone())
            } else {
                None
            }
        },
        _ => None,
    };
    match name {
        Some(name) => {
            let asked = project.id;
            Next::go(
                job,
                PlanStep::Named { project, found },
                Action::GetSpecByName { project: asked, name },
            )
        },
        None => read(job, project, found),
    }
}

fn read(job: PlanJob, project: Project, specs: Vec<Spec>) -> (n: Next<PlanTalk>)
    requires
        job.ask is Generate,
    ensures
        PlanTalk::reads(job, project, specs@, n),
        n matches Next::Act(s, a) ==> forall|e: Event| a.answered_by(e) ==> s.accepts(e),
{
    if specs.len() == 0 {
        return Next::fail(job.id, "NOT_FOUND: no approved specs available for decomposition");
    }
    let path = specs[0].file_path.clone();
    let contents: Vec<String> = Vec::new();
    Next::go(
        job,
        PlanStep::Read { wanted: Wanted { project, specs, contents } },
        Action::ReadFile { path },
    )
}

fn link_next(
    job: PlanJob,
    wanted: Wanted,
    wave: u32,
    session: DecompositionSession,
    done: usize,
) -> (n: Next<PlanTalk>)
    requires
        job.ask is Generate,
    ensures
        PlanTalk::links_up(job, wanted, wave, session, done as int, n),
        n matches Next::Act(s, a) ==> forall|e: Event| a.answered_by(e) ==> s.accepts(e),
{
    if done < wanted.specs.len() {
        let asked = session.id;
        let spec = wanted.specs[done].id;
        Next::go(
            job,
            PlanStep::Link { wanted, wave, session, done },
            Action::LinkSpec { session: asked, spec },
        )
    } else {
        Next::go(job, PlanStep::Home { wanted, wave, session }, Action::NflowHome)
    }
}

fn revert_next(
    job: PlanJob,
    project: Project,
    resume: String,
    batch: Batch,
    done: usize,
) -> (n: Next<PlanTalk>)
    requires
        job.ask is Feedback,
    ensures
        PlanTalk::reverts(job, project, resume, batch, done as int, n),
        n matches Next::Act(s, a) ==> forall|e: Event| a.answered_by(e) ==> s.accepts(e),
{
    if done < batch.specs.len() {
        let spec = batch.specs[done];
        Next::go(
            job,
            PlanStep::Revert { project, resume, batch, done },
            Action::UpdateSpecStatus { spec, status: SpecStatus::Approved },
        )
    } else {
        let prompt = match &job.ask {
            Ask::Feedback { message, .. } => message.clone(),
            _ => String::new(),
        };
        let config = RunConfig {
            kind: RunKind::Decompose { with_codebase: true },
            prompt,
            resume_session: Some(resume),
            working_dir: Some(project.path),
            system_prompt_file: None,
        };
        Next::go(job, PlanStep::Open { batch, config }, Action::OpenStream)
    }
}

fn note(job: PlanJob, session: Uuid, message: String) -> (n: Next<PlanTalk>)
    ensures
        PlanTalk::notes(job, session, message@, n),
        n matches Next::Act(s, a) ==> forall|e: Event| a.answered_by(e) ==> s.accepts(e),
{
    let noted = message.clone();
    Next::go(
        job,
        PlanStep::Report { message },
        Action::UpdateSessionError { session, message: noted },
    )
}

fn give_up(job: PlanJob, session: Uuid, why: &str) -> (n: Next<PlanTalk>)
    ensures
        PlanTalk::gives_up(job, session, why@, n),
        n matches Next::Act(s, a) ==> forall|e: Event| a.answered_by(e) ==> s.accepts(e),
{
    note(job, session, cat("Failed to build work items: ", why))
}

fn conclude(job: PlanJob, batch: Batch, text: String) -> (n: Next<PlanTalk>)
    ensures
        PlanTalk::concludes(job, batch, text, n),
        n matches Next::Act(s, a) ==> forall|e: Event| a.answered_by(e) ==> s.accepts(e),
{
    if text.as_str().is_empty() {
        return note(
            job,
            batch.session,
            "agent process exited without producing a result".to_owned(),
        );
    }
    let part = extract_json_from_text(text.as_str()).to_owned();
    let asked = part.clone();
    Next::go(job, PlanStep::Parse { batch, text: part }, Action::ParseJson { text: asked })
}

fn build(job: PlanJob, builder: Builder) -> (n: Next<PlanTalk>)
    requires
        builder.valid(),
    ensures
        PlanTalk::builds(job, builder, n),
        PlanTalk::builder_of(n) == builder,
        n matches Next::Act(s, a) ==> forall|e: Event| a.answered_by(e) ==> s.accepts(e),
{
    if builder.made < builder.drafts.len() {
        let item = builder.next_item();
        Next::go(job, PlanStep::Make { builder }, Action::NewWorkItem { item })
    } else {
        let tasks = copy_items(&builder.tasks);
        Next::go(job, PlanStep::Verify { builder }, Action::VerifyTasks { tasks })
    }
}

fn count_tasks(tasks: &Vec<WorkItem>, verify: &Vec<WorkItem>) -> (r: usize)
    ensures
        r == tasks@.len() + verify@.len(),
{
    let mut all = copy_items(tasks);
    let mut i: usize = 0;
    while i < verify.len()
        invariant
            i <= verify@.len(),
            all@.len() == tasks@.len() + i,
        decreases verify.len() - i,
    {
        all.push(verify[i].copy());
        i += 1;
    }
    all.len()
}

fn store_verify(
    job: PlanJob,
    builder: Builder,
    tasks: usize,
    verify: Vec<WorkItem>,
    done: usize,
) -> (n: Next<PlanTalk>)
    ensures
        PlanTalk::stores_verify(job, builder, tasks, verify, done as int, n),
        n matches Next::Act(s, a) ==> forall|e: Event| a.answered_by(e) ==> s.accepts(e),
{
    if done < verify.len() {
        let item = verify[done].copy();
        Next::go(
            job,
            PlanStep::StoreVerify { builder, tasks, verify, done },
            Action::InsertWorkItem { item },
        )
    } else {
        let links = dependency_links(&builder.drafts);
        let deps: Vec<Dependency> = Vec::new();
        assert(deps@ =~= Seq::empty());
        depend(job, builder, tasks, links, deps)
    }
}

fn depend(
    job: PlanJob,
    builder: Builder,
    tasks: usize,
    links: Vec<(String, String)>,
    deps: Vec<Dependency>,
) -> (n: Next<PlanTalk>)
    ensures
        PlanTalk::depends(job, builder, tasks, crate::building::link_views(links@), deps@, n),
        n matches Next::Act(s, a) ==> forall|e: Event| a.answered_by(e) ==> s.accepts(e),
{
    if deps.len() < links.len() {
        let ghost view = crate::building::link_views(links@);
        let link = &links[deps.len()];
        assert(view[deps@.len() as int] == (link.0@, link.1@));
        let blocked_id = match find_named(&builder.names, link.0.as_str()) {
            Some(u) => u,
            None => return give_up(
                job,
                builder.batch.session,
                cat3("dependency: unknown story '", link.0.as_str(), "'").as_str(),
            ),
        };
        let blocker_id = match find_named(&builder.names, link.1.as_str()) {
            Some(u) => u,
            None => return give_up(
                job,
                builder.batch.session,
                cat3("dependency: unknown blocker story '", link.1.as_str(), "'").as_str(),
            ),
        };
        let next = Dependency { blocker_id, blocked_id };
        Next::go(
            job,
            PlanStep::Depend { builder, tasks, links, deps, next },
            Action::InsertDependency { dependency: next },
        )
    } else {
        let Builder { batch, epics, stories, .. } = builder;
        let counts = Counts { epics, stories: stories.len(), tasks };
        Next::go(
            job,
            PlanStep::Dag { batch, counts },
            Action::CheckDag { stories, dependencies: deps },
        )
    }
}

fn mark_next(job: PlanJob, batch: Batch, counts: Counts, done: usize) -> (n: Next<PlanTalk>)
    ensures
        PlanTalk::marks(job, batch, counts, done as int, n),
        n matches Next::Act(s, a) ==> forall|e: Event| a.answered_by(e) ==> s.accepts(e),
{
    if done < batch.specs.len() {
        let spec = batch.specs[done];
        Next::go(
            job,
            PlanStep::Mark { batch, counts, done },
            Action::UpdateSpecStatus { spec, status: SpecStatus::Decomposed },
        )
    } else {
        let notice = Notice::DecompositionCompleted {
            session: batch.session,
            project: batch.project,
            wave: batch.wave,
        };
        Next::go(job, PlanStep::Announce { batch, counts }, Action::Broadcast { notice })
    }
}

} // verus!
