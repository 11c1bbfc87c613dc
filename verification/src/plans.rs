//! `plan.show`, `plan.approve` and `plan.discard`.
use vstd::prelude::*;
use crate::effects::{missing_parameter, no_project, Action, Event, Next, Run};
use crate::ident::Uuid;
use crate::json::{Json, JsonV};
use crate::model::{DecompositionSession, DecompositionStatus, Project, SpecStatus, WorkItem};
use crate::plan_view::{plan_dag, plan_tree};
use crate::protocol::Request;
use crate::text::{cat, cat3, u64_text};

verus! {

/// A wave number among the parameters.
pub open spec fn wave_of(p: JsonV, key: Seq<char>) -> Option<u32> {
    match p.natural_field(key) {
        Some(n) => Some(n as u32),
        None => None,
    }
}

pub fn wave_param(p: &Json, key: &str) -> (r: Option<u32>)
    ensures
        r == wave_of(p@, key@),
{
    match p.u64_field(key) {
        Some(n) => Some(n as u32),
        None => None,
    }
}

pub open spec fn no_wave_message(wave: u32) -> Seq<char> {
    "NOT_FOUND: wave W"@ + crate::text::decimal(wave as nat) + " not found"@
}

pub fn no_wave<S>(id: String, wave: u32) -> (n: Next<S>)
    ensures
        n.fails(id, no_wave_message(wave)),
{
    Next::fail(id, cat3("NOT_FOUND: wave W", u64_text(wave as u64).as_str(), " not found").as_str())
}

// ---- plan.show ----

/// A `plan.show` request.
pub struct ShowJob {
    pub id: String,
    pub project_name: String,
    pub wave: Option<u32>,
    pub dag: bool,
}

pub enum ShowStep {
    Project,
    Sessions,
    Items { session: DecompositionSession },
    Dependencies { session: DecompositionSession, items: Vec<WorkItem> },
}

pub type PlanShow = Run<ShowJob, ShowStep>;

/// The first wave with the number `wave`.
pub open spec fn find_wave(sessions: Seq<DecompositionSession>, wave: u32) -> Option<
    DecompositionSession,
>
    decreases sessions.len(),
{
    if sessions.len() == 0 {
        None
    } else if sessions[0].wave_number == wave {
        Some(sessions[0])
    } else {
        find_wave(sessions.drop_first(), wave)
    }
}

pub fn session_of_wave(sessions: &Vec<DecompositionSession>, wave: u32) -> (r: Option<
    DecompositionSession,
>)
    ensures
        r == find_wave(sessions@, wave),
{
    let mut i: usize = 0;
    assert(sessions@.skip(0) =~= sessions@);
    while i < sessions.len()
        invariant
            i <= sessions@.len(),
            find_wave(sessions@, wave) == find_wave(sessions@.skip(i as int), wave),
        decreases sessions.len() - i,
    {
        assert(sessions@.skip(i as int)[0] == sessions@[i as int]);
        assert(sessions@.skip(i as int).drop_first() =~= sessions@.skip(i + 1));
        if sessions[i].wave_number == wave {
            return Some(sessions[i].copy());
        }
        i += 1;
    }
    assert(sessions@.skip(i as int).len() == 0);
    None
}

impl Run<ShowJob, ShowStep> {
    pub open spec fn accepts(self, ev: Event) -> bool {
        match self.at {
            ShowStep::Project => ev is MaybeProject,
            ShowStep::Sessions => ev is Sessions,
            ShowStep::Items { .. } => ev is WorkItems,
            ShowStep::Dependencies { .. } => ev is Dependencies,
        }
    }

    pub open spec fn begins(req: Request, n: Next<PlanShow>) -> bool {
        let p = req.params@;
        match p.text_field("project_name"@) {
            None => n.fails(req.id, crate::effects::missing_message("project_name"@)),
            Some(name) => {
                &&& n matches Next::Act(s, a)
                &&& n.goes(
                    s.job,
                    ShowStep::Project,
                    Action::GetProjectByName { name: s.job.project_name },
                )
                &&& s.job.id == req.id
                &&& s.job.project_name@ == name
                &&& s.job.wave == wave_of(p, "wave"@)
                &&& s.job.dag == crate::sessions::flagged(p, "dag"@, false)
            },
        }
    }

    pub fn start(req: Request) -> (n: Next<PlanShow>)
        ensures
            PlanShow::begins(req, n),
            n matches Next::Act(s, a) ==> forall|e: Event| a.answered_by(e) ==> s.accepts(e),
    {
        let project_name = match req.params.str_field("project_name") {
            Some(v) => v,
            None => return missing_parameter(req.id, "project_name"),
        };
        let wave = wave_param(&req.params, "wave");
        let dag = crate::sessions::flag_or(&req.params, "dag", false);
        let name = project_name.clone();
        Next::go(
            ShowJob { id: req.id, project_name, wave, dag },
            ShowStep::Project,
            Action::GetProjectByName { name },
        )
    }

    pub open spec fn follows(self, ev: Event, n: Next<PlanShow>) -> bool {
        let job = self.job;
        match (self.at, ev) {
            (ShowStep::Project, Event::MaybeProject(r)) => match r {
                Err(e) => n.fails(job.id, crate::effects::database_message(e@)),
                Ok(None) => n.fails(job.id, crate::effects::no_project_message(job.project_name@)),
                Ok(Some(p)) => n.goes(
                    job,
                    ShowStep::Sessions,
                    Action::ListSessions { project: p.id },
                ),
            },
            (ShowStep::Sessions, Event::Sessions(r)) => match r {
                Err(e) => n.fails(job.id, crate::effects::database_message(e@)),
                Ok(sessions) => if sessions@.len() == 0 {
                    n.fails(
                        job.id,
                        "NOT_FOUND: project '"@ + job.project_name@
                            + "' has no decomposition waves"@,
                    )
                } else {
                    let chosen = match job.wave {
                        Some(wave) => find_wave(sessions@, wave),
                        None => Some(sessions@.last()),
                    };
                    match chosen {
                        None => n.fails(job.id, no_wave_message(job.wave->0)),
                        Some(session) => n.goes(
                            job,
                            ShowStep::Items { session },
                            Action::ListItems { session: session.id },
                        ),
                    }
                },
            },
            (ShowStep::Items { session }, Event::WorkItems(r)) => match r {
                Err(e) => n.fails(job.id, crate::effects::database_message(e@)),
                Ok(items) => n.goes(
                    job,
                    ShowStep::Dependencies { session, items },
                    Action::ListDependencies { session: session.id },
                ),
            },
            (ShowStep::Dependencies { session, items }, Event::Dependencies(r)) => match r {
                Err(e) => n.fails(job.id, crate::effects::database_message(e@)),
                Ok(deps) => n.replies(
                    job.id,
                    if job.dag {
                        crate::plan_view::dag_view(session, items@, deps@)
                    } else {
                        crate::plan_view::tree_view(session, items@, deps@)
                    },
                ),
            },
            _ => false,
        }
    }

    pub fn step(self, ev: Event) -> (n: Next<PlanShow>)
        requires
            self.accepts(ev),
        ensures
            self.follows(ev, n),
            n matches Next::Act(s, a) ==> forall|e: Event| a.answered_by(e) ==> s.accepts(e),
    {
        let Run { job, at } = self;
        match (at, ev) {
            (ShowStep::Project, Event::MaybeProject(r)) => match r {
                Err(e) => Next::database_error(job.id, e.as_str()),
                Ok(None) => no_project(job.id, job.project_name.as_str()),
                Ok(Some(p)) => Next::go(
                    job,
                    ShowStep::Sessions,
                    Action::ListSessions { project: p.id },
                ),
            },
            (ShowStep::Sessions, Event::Sessions(r)) => match r {
                Err(e) => Next::database_error(job.id, e.as_str()),
                Ok(sessions) => {
                    if sessions.len() == 0 {
                        return Next::fail(
                            job.id,
                            cat3(
                                "NOT_FOUND: project '",
                                job.project_name.as_str(),
                                "' has no decomposition waves",
                            ).as_str(),
                        );
                    }
                    let session = match job.wave {
                        Some(wave) => match session_of_wave(&sessions, wave) {
                            Some(s) => s,
                            None => return no_wave(job.id, wave),
                        },
                        None => sessions[sessions.len() - 1].copy(),
                    };
                    let asked = session.id;
                    Next::go(job, ShowStep::Items { session }, Action::ListItems { session: asked })
                },
            },
            (ShowStep::Items { session }, Event::WorkItems(r)) => match r {
                Err(e) => Next::database_error(job.id, e.as_str()),
                Ok(items) => {
                    let asked = session.id;
                    Next::go(
                        job,
                        ShowStep::Dependencies { session, items },
                        Action::ListDependencies { session: asked },
                    )
                },
            },
            (ShowStep::Dependencies { session, items }, Event::Dependencies(r)) => match r {
                Err(e) => Next::database_error(job.id, e.as_str()),
                Ok(deps) => {
                    let data = if job.dag {
                        plan_dag(&session, &items, &deps)
                    } else {
                        plan_tree(&session, &items, &deps)
                    };
                    Next::reply(job.id, data)
                },
            },
            _ => Next::End,
        }
    }
}

// ---- plan.approve and plan.discard ----

/// What is done to the wave.
#[derive(Debug, Clone, Copy, PartialEq, Eq, Structural)]
pub enum WaveVerb {
    Approve { auto_execute: bool },
    Discard,
}

/// A command on one wave of a project: the numbered one, or the one in progress.
pub struct WaveJob {
    pub id: String,
    pub project_name: String,
    pub wave: Option<u32>,
    pub verb: WaveVerb,
}

pub enum WaveStep {
    Project,
    Session { project: Project },
    Approve { project: Project, session: DecompositionSession },
    Approved { project: Project, wave: u32, status: DecompositionStatus },
    Now { project: Project, wave: u32, status: DecompositionStatus },
    Enable { wave: u32, status: DecompositionStatus },
    Busy { session: DecompositionSession },
    Specs { session: DecompositionSession },
    Delete { session: DecompositionSession, specs: Vec<Uuid> },
    /// The first `done` specs are approved again, and the next one is being changed.
    Revert { session: DecompositionSession, specs: Vec<Uuid>, done: usize },
    Discarded { wave: u32 },
}

pub type WaveCommand = Run<WaveJob, WaveStep>;

/// The data that answers a `plan.approve`.
pub open spec fn wave_approved(wave: u32, status: DecompositionStatus, enabled: bool) -> JsonV {
    JsonV::object().with("wave_number"@, JsonV::Int(wave as int)).with(
        "status"@,
        JsonV::Str(status.name()),
    ).with("execution_enabled"@, JsonV::Bool(enabled))
}

/// The data that answers a `plan.discard`.
pub open spec fn wave_discarded(wave: u32) -> JsonV {
    JsonV::object().with("wave_number"@, JsonV::Int(wave as int)).with(
        "status"@,
        JsonV::Str("discarded"@),
    )
}

pub open spec fn wave_is(wave: u32, what: Seq<char>) -> Seq<char> {
    "INVALID_STATE: wave W"@ + crate::text::decimal(wave as nat) + what
}

fn wave_refused<S>(id: String, wave: u32, what: &str) -> (n: Next<S>)
    ensures
        n.fails(id, wave_is(wave, what@)),
{
    Next::fail(id, cat3("INVALID_STATE: wave W", u64_text(wave as u64).as_str(), what).as_str())
}

impl Run<WaveJob, WaveStep> {
    pub open spec fn accepts(self, ev: Event) -> bool {
        match self.at {
            WaveStep::Project => ev is MaybeProject,
            WaveStep::Session { .. } => ev is MaybeSession,
            WaveStep::Approve { .. } => ev is SessionStatus,
            WaveStep::Now { .. } => ev is Time,
            WaveStep::Busy { .. } => ev is Flag,
            WaveStep::Specs { .. } => ev is Uuids,
            WaveStep::Revert { specs, done, .. } => ev is Done && done < specs.len(),
            _ => ev is Done,
        }
    }

    pub open spec fn begins(req: Request, verb: WaveVerb, n: Next<WaveCommand>) -> bool {
        let p = req.params@;
        match p.text_field("project_name"@) {
            None => n.fails(req.id, crate::effects::missing_message("project_name"@)),
            Some(name) => {
                &&& n matches Next::Act(s, a)
                &&& n.goes(
                    s.job,
                    WaveStep::Project,
                    Action::GetProjectByName { name: s.job.project_name },
                )
                &&& s.job.id == req.id
                &&& s.job.project_name@ == name
                &&& s.job.wave == wave_of(p, "wave_number"@)
                &&& s.job.verb == verb
            },
        }
    }

    pub fn start(req: Request, verb: WaveVerb) -> (n: Next<WaveCommand>)
        ensures
            WaveCommand::begins(req, verb, n),
            n matches Next::Act(s, a) ==> forall|e: Event| a.answered_by(e) ==> s.accepts(e),
    {
        let project_name = match req.params.str_field("project_name") {
            Some(v) => v,
            None => return missing_parameter(req.id, "project_name"),
        };
        let wave = wave_param(&req.params, "wave_number");
        let name = project_name.clone();
        Next::go(
            WaveJob { id: req.id, project_name, wave, verb },
            WaveStep::Project,
            Action::GetProjectByName { name },
        )
    }

    /// What is done once the wave is found.
    pub open spec fn treats(
        job: WaveJob,
        project: Project,
        session: DecompositionSession,
        n: Next<WaveCommand>,
    ) -> bool {
        match job.verb {
            WaveVerb::Approve { .. } => if session.status != DecompositionStatus::InProgress {
                n.fails(
                    job.id,
                    wave_is(
                        session.wave_number,
                        " is "@ + session.status.name() + " (must be in_progress for approval)"@,
                    ),
                )
            } else {
                n.goes(
                    job,
                    WaveStep::Approve { project, session },
                    Action::ApproveSession { session },
                )
            },
            WaveVerb::Discard => if session.status == DecompositionStatus::Discarded {
                n.fails(job.id, wave_is(session.wave_number, " is already discarded"@))
            } else {
                n.goes(
                    job,
                    WaveStep::Busy { session },
                    Action::HasInProgressStories { session: session.id },
                )
            },
        }
    }

    /// Approves the specs from index `done` on again, one by one, and then discards the wave.
    pub open spec fn reverts(
        job: WaveJob,
        session: DecompositionSession,
        specs: Vec<Uuid>,
        done: int,
        n: Next<WaveCommand>,
    ) -> bool {
        if done < specs@.len() {
            n.goes(
                job,
                WaveStep::Revert { session, specs, done: done as usize },
                Action::UpdateSpecStatus { spec: specs@[done], status: SpecStatus::Approved },
            )
        } else {
            n.goes(
                job,
                WaveStep::Discarded { wave: session.wave_number },
                Action::UpdateSessionStatus {
                    session: session.id,
                    status: DecompositionStatus::Discarded,
                },
            )
        }
    }

    pub open spec fn follows(self, ev: Event, n: Next<WaveCommand>) -> bool {
        let job = self.job;
        match (self.at, ev) {
            (WaveStep::Project, Event::MaybeProject(r)) => match r {
                Err(e) => n.fails(job.id, crate::effects::database_message(e@)),
                Ok(None) => n.fails(job.id, crate::effects::no_project_message(job.project_name@)),
                Ok(Some(project)) => n.goes(
                    job,
                    WaveStep::Session { project },
                    match job.wave {
                        Some(wave) => Action::GetSessionByWave { project: project.id, wave },
                        None => Action::FindDraftSession { project: project.id },
                    },
                ),
            },
            (WaveStep::Session { project }, Event::MaybeSession(r)) => match r {
                Err(e) => n.fails(job.id, crate::effects::database_message(e@)),
                Ok(None) => match job.wave {
                    Some(wave) => n.fails(job.id, no_wave_message(wave)),
                    None => n.fails(job.id, "NOT_FOUND: no draft wave found for this project"@),
                },
                Ok(Some(session)) => WaveCommand::treats(job, project, session, n),
            },
            (WaveStep::Approve { project, session }, Event::SessionStatus(r)) => match r {
                Err(e) => n.fails(job.id, "INVALID_STATE: "@ + e@),
                Ok(status) => n.goes(
                    job,
                    WaveStep::Approved { project, wave: session.wave_number, status },
                    Action::UpdateSessionStatus { session: session.id, status },
                ),
            },
            (WaveStep::Approved { project, wave, status }, Event::Done(r)) => match r {
                Err(e) => n.fails(job.id, crate::effects::database_message(e@)),
                Ok(_) => if job.verb == (WaveVerb::Approve { auto_execute: true }) {
                    n.goes(job, WaveStep::Now { project, wave, status }, Action::Now)
                } else {
                    n.replies(job.id, wave_approved(wave, status, project.execution_enabled))
                },
            },
            (WaveStep::Now { project, wave, status }, Event::Time(now)) => n.goes(
                job,
                WaveStep::Enable { wave, status },
                Action::UpdateProject {
                    project: Project { execution_enabled: true, updated_at: now, ..project },
                },
            ),
            (WaveStep::Enable { wave, status }, Event::Done(r)) => match r {
                Err(e) => n.fails(job.id, crate::effects::database_message(e@)),
                Ok(_) => n.replies(job.id, wave_approved(wave, status, true)),
            },
            (WaveStep::Busy { session }, Event::Flag(r)) => match r {
                Err(e) => n.fails(job.id, crate::effects::database_message(e@)),
                Ok(true) => n.fails(
                    job.id,
                    wave_is(session.wave_number, " has stories in progress (stop them first)"@),
                ),
                Ok(false) => n.goes(
                    job,
                    WaveStep::Specs { session },
                    Action::ListSpecIds { session: session.id },
                ),
            },
            (WaveStep::Specs { session }, Event::Uuids(r)) => match r {
                Err(e) => n.fails(job.id, crate::effects::database_message(e@)),
                Ok(specs) => n.goes(
                    job,
                    WaveStep::Delete { session, specs },
                    Action::DeleteItems { session: session.id },
                ),
            },
            (WaveStep::Delete { session, specs }, Event::Done(r)) => match r {
                Err(e) => n.fails(job.id, crate::effects::database_message(e@)),
                Ok(_) => WaveCommand::reverts(job, session, specs, 0, n),
            },
            (WaveStep::Revert { session, specs, done }, Event::Done(r)) => match r {
                Err(e) => n.fails(job.id, crate::effects::database_message(e@)),
                Ok(_) => WaveCommand::reverts(job, session, specs, done + 1, n),
            },
            (WaveStep::Discarded { wave }, Event::Done(r)) => match r {
                Err(e) => n.fails(job.id, crate::effects::database_message(e@)),
                Ok(_) => n.replies(job.id, wave_discarded(wave)),
            },
            _ => false,
        }
    }

    pub fn step(self, ev: Event) -> (n: Next<WaveCommand>)
        requires
            self.accepts(ev),
        ensures
            self.follows(ev, n),
            n matches Next::Act(s, a) ==> forall|e: Event| a.answered_by(e) ==> s.accepts(e),
    {
        let Run { job, at } = self;
        match (at, ev) {
            (WaveStep::Project, Event::MaybeProject(r)) => match r {
                Err(e) => Next::database_error(job.id, e.as_str()),
                Ok(None) => no_project(job.id, job.project_name.as_str()),
                Ok(Some(project)) => {
                    let action = match job.wave {
                        Some(wave) => Action::GetSessionByWave { project: project.id, wave },
                        None => Action::FindDraftSession { project: project.id },
                    };
                    Next::go(job, WaveStep::Session { project }, action)
                },
            },
            (WaveStep::Session { project }, Event::MaybeSession(r)) => match r {
                Err(e) => Next::database_error(job.id, e.as_str()),
                Ok(None) => match job.wave {
                    Some(wave) => no_wave(job.id, wave),
                    None => Next::fail(job.id, "NOT_FOUND: no draft wave found for this project"),
                },
                Ok(Some(session)) => treat(job, project, session),
            },
            (WaveStep::Approve { project, session }, Event::SessionStatus(r)) => match r {
                Err(e) => Next::fail(job.id, cat("INVALID_STATE: ", e.as_str()).as_str()),
                Ok(status) => Next::go(
                    job,
                    WaveStep::Approved { project, wave: session.wave_number, status },
                    Action::UpdateSessionStatus { session: session.id, status },
                ),
            },
            (WaveStep::Approved { project, wave, status }, Event::Done(r)) => match r {
                Err(e) => Next::database_error(job.id, e.as_str()),
                Ok(_) => if job.verb == (WaveVerb::Approve { auto_execute: true }) {
                    Next::go(job, WaveStep::Now { project, wave, status }, Action::Now)
                } else {
                    approved(job, wave, status, project.execution_enabled)
                },
            },
            (WaveStep::Now { project, wave, status }, Event::Time(now)) => {
                let mut project = project;
                project.execution_enabled = true;
                project.updated_at = now;
                Next::go(job, WaveStep::Enable { wave, status }, Action::UpdateProject { project })
            },
            (WaveStep::Enable { wave, status }, Event::Done(r)) => match r {
                Err(e) => Next::database_error(job.id, e.as_str()),
                Ok(_) => approved(job, wave, status, true),
            },
            (WaveStep::Busy { session }, Event::Flag(r)) => match r {
                Err(e) => Next::database_error(job.id, e.as_str()),
                Ok(true) => wave_refused(
                    job.id,
                    session.wave_number,
                    " has stories in progress (stop them first)",
                ),
                Ok(false) => {
                    let asked = session.id;
                    Next::go(
                        job,
                        WaveStep::Specs { session },
                        Action::ListSpecIds { session: asked },
                    )
                },
            },
            (WaveStep::Specs { session }, Event::Uuids(r)) => match r {
                Err(e) => Next::database_error(job.id, e.as_str()),
                Ok(specs) => {
                    let asked = session.id;
                    Next::go(
                        job,
                        WaveStep::Delete { session, specs },
                        Action::DeleteItems { session: asked },
                    )
                },
            },
            (WaveStep::Delete { session, specs }, Event::Done(r)) => match r {
                Err(e) => Next::database_error(job.id, e.as_str()),
                Ok(_) => revert_next(job, session, specs, 0),
            },
            (WaveStep::Revert { session, specs, done }, Event::Done(r)) => match r {
                Err(e) => Next::database_error(job.id, e.as_str()),
                Ok(_) => revert_next(job, session, specs, done + 1),
            },
            (WaveStep::Discarded { wave }, Event::Done(r)) => match r {
                Err(e) => Next::database_error(job.id, e.as_str()),
                Ok(_) => Next::reply(
                    job.id,
                    Json::object().with("wave_number", Json::U64(wave as u64)).with(
                        "status",
                        Json::text("discarded"),
                    ),
                ),
            },
            _ => Next::End,
        }
    }
}

fn treat(job: WaveJob, project: Project, session: DecompositionSession) -> (n: Next<WaveCommand>)
    ensures
        WaveCommand::treats(job, project, session, n),
        n matches Next::Act(s, a) ==> forall|e: Event| a.answered_by(e) ==> s.accepts(e),
{
    match job.verb {
        WaveVerb::Approve { .. } => if session.status != DecompositionStatus::InProgress {
            wave_refused(
                job.id,
                session.wave_number,
                cat3(
                    " is ",
                    session.status.as_str(),
                    " (must be in_progress for approval)",
                ).as_str(),
            )
        } else {
            let asked = session.copy();
            Next::go(
                job,
                WaveStep::Approve { project, session },
                Action::ApproveSession { session: asked },
            )
        },
        WaveVerb::Discard => if session.status == DecompositionStatus::Discarded {
            wave_refused(job.id, session.wave_number, " is already discarded")
        } else {
            let asked = session.id;
            Next::go(
                job,
                WaveStep::Busy { session },
                Action::HasInProgressStories { session: asked },
            )
        },
    }
}

fn approved(job: WaveJob, wave: u32, status: DecompositionStatus, enabled: bool) -> (n: Next<
    WaveCommand,
>)
    ensures
        n.replies(job.id, wave_approved(wave, status, enabled)),
{
    Next::reply(
        job.id,
        Json::object().with("wave_number", Json::U64(wave as u64)).with(
            "status",
            Json::text(status.as_str()),
        ).with("execution_enabled", Json::Bool(enabled)),
    )
}

fn revert_next(
    job: WaveJob,
    session: DecompositionSession,
    specs: Vec<Uuid>,
    done: usize,
) -> (n: Next<WaveCommand>)
    ensures
        WaveCommand::reverts(job, session, specs, done as int, n),
        n matches Next::Act(s, a) ==> forall|e: Event| a.answered_by(e) ==> s.accepts(e),
{
    if done < specs.len() {
        let spec = specs[done];
        Next::go(
            job,
            WaveStep::Revert { session, specs, done },
            Action::UpdateSpecStatus { spec, status: SpecStatus::Approved },
        )
    } else {
        let asked = session.id;
        Next::go(
            job,
            WaveStep::Discarded { wave: session.wave_number },
            Action::UpdateSessionStatus {
                session: asked,
                status: DecompositionStatus::Discarded,
            },
        )
    }
}

/// Begins a `plan.approve`.
pub fn handle_plan_approve(req: Request) -> (n: Next<WaveCommand>)
    ensures
        WaveCommand::begins(
            req,
            WaveVerb::Approve {
                auto_execute: crate::sessions::flagged(req.params@, "auto_execute"@, false),
            },
            n,
        ),
        n matches Next::Act(s, a) ==> forall|e: Event| a.answered_by(e) ==> s.accepts(e),
{
    let auto_execute = crate::sessions::flag_or(&req.params, "auto_execute", false);
    WaveCommand::start(req, WaveVerb::Approve { auto_execute })
}

} // verus!
