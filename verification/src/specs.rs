//! `spec.list`, and the commands on one named spec: `spec.view`, `spec.approve`,
//! `spec.reopen`, `spec.deactivate` and `spec.delete`.
use vstd::prelude::*;
use crate::effects::{missing_parameter, no_project, no_spec, Action, Event, Next, Run};
use crate::json::{Json, JsonV};
use crate::model::{copy_text, Spec, SpecChange, SpecStatus};
use crate::protocol::Request;
use crate::text::{cat, cat4};

verus! {

// ---- spec.list ----

/// A `spec.list` request.
pub struct SpecListJob {
    pub id: String,
    pub project_name: String,
}

pub enum SpecListStep {
    Project,
    Specs,
}

pub type SpecList = Run<SpecListJob, SpecListStep>;

/// A spec in the answer of a `spec.list`.
pub open spec fn spec_entry(s: Spec) -> JsonV {
    JsonV::object().with("name"@, JsonV::Str(s.name@)).with(
        "status"@,
        JsonV::Str(s.status.name()),
    ).with("session_active"@, JsonV::Bool(s.session_active)).with(
        "created_at"@,
        JsonV::Str(s.created_at.text()),
    )
}

/// The specs that listings show, in their order: those that are not deleted.
pub open spec fn listed(specs: Seq<Spec>) -> Seq<Spec> {
    specs.filter(|s: Spec| s.status != SpecStatus::Deleted)
}

pub open spec fn spec_entries(specs: Seq<Spec>) -> Seq<JsonV> {
    listed(specs).map_values(|s: Spec| spec_entry(s))
}

pub fn list_entries(specs: &Vec<Spec>) -> (r: Vec<Json>)
    ensures
        crate::json::json_views(r@) == spec_entries(specs@),
{
    let mut out: Vec<Json> = Vec::new();
    let mut i: usize = 0;
    proof {
        reveal(Seq::filter);
        assert(crate::json::json_views(out@) =~= spec_entries(specs@.take(0)));
    }
    while i < specs.len()
        invariant
            i <= specs@.len(),
            crate::json::json_views(out@) == spec_entries(specs@.take(i as int)),
        decreases specs.len() - i,
    {
        let s = &specs[i];
        let ghost before = crate::json::json_views(out@);
        proof {
            reveal(Seq::filter);
            assert(specs@.take(i + 1).drop_last() =~= specs@.take(i as int));
            assert(specs@.take(i + 1).last() == *s);
        }
        if s.status != SpecStatus::Deleted {
            let entry = Json::object().with("name", Json::Str(s.name.clone())).with(
                "status",
                Json::text(s.status.as_str()),
            ).with("session_active", Json::Bool(s.session_active)).with(
                "created_at",
                Json::Str(s.created_at.to_rfc3339()),
            );
            out.push(entry);
            assert(crate::json::json_views(out@) =~= before.push(spec_entry(*s)));
            assert(spec_entries(specs@.take(i + 1)) =~= before.push(spec_entry(*s)));
        } else {
            assert(listed(specs@.take(i + 1)) =~= listed(specs@.take(i as int)));
        }
        i += 1;
    }
    assert(specs@.take(i as int) =~= specs@);
    out
}

impl Run<SpecListJob, SpecListStep> {
    pub open spec fn accepts(self, ev: Event) -> bool {
        match self.at {
            SpecListStep::Project => ev is MaybeProject,
            SpecListStep::Specs => ev is Specs,
        }
    }

    pub open spec fn begins(req: Request, n: Next<SpecList>) -> bool {
        match req.params@.text_field("project_name"@) {
            None => n.fails(req.id, crate::effects::missing_message("project_name"@)),
            Some(name) => {
                &&& n matches Next::Act(s, a)
                &&& n.goes(
                    s.job,
                    SpecListStep::Project,
                    Action::GetProjectByName { name: s.job.project_name },
                )
                &&& s.job.id == req.id
                &&& s.job.project_name@ == name
            },
        }
    }

    pub fn start(req: Request) -> (n: Next<SpecList>)
        ensures
            SpecList::begins(req, n),
            n matches Next::Act(s, a) ==> forall|e: Event| a.answered_by(e) ==> s.accepts(e),
    {
        let project_name = match req.params.str_field("project_name") {
            Some(v) => v,
            None => return missing_parameter(req.id, "project_name"),
        };
        let name = project_name.clone();
        Next::go(
            SpecListJob { id: req.id, project_name },
            SpecListStep::Project,
            Action::GetProjectByName { name },
        )
    }

    pub open spec fn follows(self, ev: Event, n: Next<SpecList>) -> bool {
        let job = self.job;
        match (self.at, ev) {
            (SpecListStep::Project, Event::MaybeProject(r)) => match r {
                Err(e) => n.fails(job.id, crate::effects::database_message(e@)),
                Ok(None) => n.fails(job.id, crate::effects::no_project_message(job.project_name@)),
                Ok(Some(p)) => n.goes(
                    job,
                    SpecListStep::Specs,
                    Action::ListSpecs { project: p.id },
                ),
            },
            (SpecListStep::Specs, Event::Specs(r)) => match r {
                Err(e) => n.fails(job.id, crate::effects::database_message(e@)),
                Ok(specs) => n.replies(
                    job.id,
                    JsonV::object().with("specs"@, JsonV::Arr(spec_entries(specs@))),
                ),
            },
            _ => false,
        }
    }

    pub fn step(self, ev: Event) -> (n: Next<SpecList>)
        requires
            self.accepts(ev),
        ensures
            self.follows(ev, n),
            n matches Next::Act(s, a) ==> forall|e: Event| a.answered_by(e) ==> s.accepts(e),
    {
        let Run { job, at } = self;
        match (at, ev) {
            (SpecListStep::Project, Event::MaybeProject(r)) => match r {
                Err(e) => Next::database_error(job.id, e.as_str()),
                Ok(None) => no_project(job.id, job.project_name.as_str()),
                Ok(Some(p)) => Next::go(
                    job,
                    SpecListStep::Specs,
                    Action::ListSpecs { project: p.id },
                ),
            },
            (SpecListStep::Specs, Event::Specs(r)) => match r {
                Err(e) => Next::database_error(job.id, e.as_str()),
                Ok(specs) => Next::reply(
                    job.id,
                    Json::object().with("specs", Json::array(list_entries(&specs))),
                ),
            },
            _ => Next::End,
        }
    }
}

/// No deleted spec is listed, and every other one is.
pub proof fn law_deleted_specs_are_hidden(specs: Seq<Spec>, s: Spec)
    ensures
        listed(specs).contains(s) <==> specs.contains(s) && s.status != SpecStatus::Deleted,
    decreases specs.len(),
{
    reveal(Seq::filter);
    if specs.len() > 0 {
        let init = specs.drop_last();
        law_deleted_specs_are_hidden(init, s);
        assert(specs =~= init.push(specs.last()));
        crate::seqs::push_contains(init, specs.last(), s);
        crate::seqs::push_contains(listed(init), specs.last(), s);
    }
}

// ---- commands on one spec ----

/// What is done to the spec.
#[derive(Debug, Clone, Copy, PartialEq, Eq, Structural)]
pub enum SpecVerb {
    View,
    Approve,
    Reopen,
    Deactivate,
    Delete { force: bool },
}

/// A command on one spec of a project.
pub struct SpecJob {
    pub id: String,
    pub project_name: String,
    pub spec_name: String,
    pub verb: SpecVerb,
}

pub enum SpecStep {
    Project,
    Spec,
    Read { spec: Spec },
    /// The spec's session is being marked inactive.
    Stop { spec: Spec },
    Change { spec: Spec },
    Store { spec: Spec, status: SpecStatus },
}

pub type SpecCommand = Run<SpecJob, SpecStep>;

/// The data that answers a `spec.deactivate`.
pub open spec fn spec_inactive(s: Spec) -> JsonV {
    JsonV::object().with("name"@, JsonV::Str(s.name@)).with("session_active"@, JsonV::Bool(false))
}

/// The data that answers a change of a spec's status.
pub open spec fn spec_changed(verb: SpecVerb, s: Spec, status: SpecStatus) -> JsonV {
    let data = JsonV::object().with("name"@, JsonV::Str(s.name@)).with(
        "status"@,
        JsonV::Str(status.name()),
    );
    if verb is Delete {
        data.with("deleted"@, JsonV::Bool(true))
    } else {
        data
    }
}

pub open spec fn spec_content(s: Spec, content: Seq<char>) -> JsonV {
    JsonV::object().with("name"@, JsonV::Str(s.name@)).with(
        "status"@,
        JsonV::Str(s.status.name()),
    ).with("content"@, JsonV::Str(content))
}

pub open spec fn unreadable_message(path: Seq<char>, why: Seq<char>) -> Seq<char> {
    "failed to read spec file '"@ + path + "': "@ + why
}

impl SpecVerb {
    /// The change of status that the verb asks for.
    pub open spec fn change(self) -> SpecChange {
        match self {
            SpecVerb::Reopen => SpecChange::Reopen,
            SpecVerb::Delete { .. } => SpecChange::Delete,
            _ => SpecChange::Approve,
        }
    }
}

impl Run<SpecJob, SpecStep> {
    pub open spec fn accepts(self, ev: Event) -> bool {
        match self.at {
            SpecStep::Project => ev is MaybeProject,
            SpecStep::Spec => ev is MaybeSpec,
            SpecStep::Read { .. } => ev is Text,
            SpecStep::Change { .. } => ev is SpecStatus,
            _ => ev is Done,
        }
    }

    pub open spec fn begins(req: Request, verb: SpecVerb, n: Next<SpecCommand>) -> bool {
        let p = req.params@;
        match (p.text_field("project_name"@), p.text_field("spec_name"@)) {
            (None, _) => n.fails(req.id, crate::effects::missing_message("project_name"@)),
            (Some(_), None) => n.fails(req.id, crate::effects::missing_message("spec_name"@)),
            (Some(project), Some(spec)) => {
                &&& n matches Next::Act(s, a)
                &&& n.goes(
                    s.job,
                    SpecStep::Project,
                    Action::GetProjectByName { name: s.job.project_name },
                )
                &&& s.job.id == req.id
                &&& s.job.project_name@ == project
                &&& s.job.spec_name@ == spec
                &&& s.job.verb == verb
            },
        }
    }

    pub fn start(req: Request, verb: SpecVerb) -> (n: Next<SpecCommand>)
        ensures
            SpecCommand::begins(req, verb, n),
            n matches Next::Act(s, a) ==> forall|e: Event| a.answered_by(e) ==> s.accepts(e),
    {
        let project_name = match req.params.str_field("project_name") {
            Some(v) => v,
            None => return missing_parameter(req.id, "project_name"),
        };
        let spec_name = match req.params.str_field("spec_name") {
            Some(v) => v,
            None => return missing_parameter(req.id, "spec_name"),
        };
        let name = project_name.clone();
        Next::go(
            SpecJob { id: req.id, project_name, spec_name, verb },
            SpecStep::Project,
            Action::GetProjectByName { name },
        )
    }

    /// Marks the session of `spec` inactive.
    pub open spec fn stops(job: SpecJob, spec: Spec, n: Next<SpecCommand>) -> bool {
        n.goes(
            job,
            SpecStep::Stop { spec },
            Action::UpdateSpecSession {
                spec: spec.id,
                active: false,
                claude_session_id: spec.claude_session_id,
            },
        )
    }

    /// Has the change of status checked.
    pub open spec fn changes(job: SpecJob, spec: Spec, n: Next<SpecCommand>) -> bool {
        n.goes(
            job,
            SpecStep::Change { spec },
            Action::ChangeSpec { spec, change: job.verb.change() },
        )
    }

    /// What is done once the spec is found.
    pub open spec fn treats(job: SpecJob, spec: Spec, n: Next<SpecCommand>) -> bool {
        match job.verb {
            SpecVerb::View => n.goes(
                job,
                SpecStep::Read { spec },
                Action::ReadFile { path: spec.file_path },
            ),
            SpecVerb::Reopen => SpecCommand::changes(job, spec, n),
            SpecVerb::Approve => if spec.session_active {
                SpecCommand::stops(job, spec, n)
            } else {
                SpecCommand::changes(job, spec, n)
            },
            SpecVerb::Deactivate => if spec.session_active {
                SpecCommand::stops(job, spec, n)
            } else {
                n.replies(job.id, spec_inactive(spec))
            },
            SpecVerb::Delete { force } => if spec.status == SpecStatus::Approved && !force {
                n.fails(
                    job.id,
                    "INVALID_STATE: spec is approved; use force=true to confirm deletion"@,
                )
            } else if spec.session_active {
                SpecCommand::stops(job, spec, n)
            } else {
                SpecCommand::changes(job, spec, n)
            },
        }
    }

    pub open spec fn follows(self, ev: Event, n: Next<SpecCommand>) -> bool {
        let job = self.job;
        match (self.at, ev) {
            (SpecStep::Project, Event::MaybeProject(r)) => match r {
                Err(e) => n.fails(job.id, crate::effects::database_message(e@)),
                Ok(None) => n.fails(job.id, crate::effects::no_project_message(job.project_name@)),
                Ok(Some(p)) => n.goes(
                    job,
                    SpecStep::Spec,
                    Action::GetSpecByName { project: p.id, name: job.spec_name },
                ),
            },
            (SpecStep::Spec, Event::MaybeSpec(r)) => match r {
                Err(e) => n.fails(job.id, crate::effects::database_message(e@)),
                Ok(None) => n.fails(job.id, crate::effects::no_spec_message(job.spec_name@)),
                Ok(Some(spec)) => SpecCommand::treats(job, spec, n),
            },
            (SpecStep::Read { spec }, Event::Text(r)) => match r {
                Err(e) => n.fails(job.id, unreadable_message(spec.file_path@, e@)),
                Ok(content) => n.replies(job.id, spec_content(spec, content@)),
            },
            (SpecStep::Stop { spec }, Event::Done(r)) => match r {
                Err(e) => n.fails(job.id, crate::effects::database_message(e@)),
                Ok(_) => if job.verb == SpecVerb::Deactivate {
                    n.replies(job.id, spec_inactive(spec))
                } else {
                    SpecCommand::changes(job, Spec { session_active: false, ..spec }, n)
                },
            },
            (SpecStep::Change { spec }, Event::SpecStatus(r)) => match r {
                Err(e) => n.fails(job.id, "INVALID_STATE: "@ + e@),
                Ok(status) => n.goes(
                    job,
                    SpecStep::Store { spec, status },
                    Action::UpdateSpecStatus { spec: spec.id, status },
                ),
            },
            (SpecStep::Store { spec, status }, Event::Done(r)) => match r {
                Err(e) => n.fails(job.id, crate::effects::database_message(e@)),
                Ok(_) => n.replies(job.id, spec_changed(job.verb, spec, status)),
            },
            _ => false,
        }
    }

    pub fn step(self, ev: Event) -> (n: Next<SpecCommand>)
        requires
            self.accepts(ev),
        ensures
            self.follows(ev, n),
            n matches Next::Act(s, a) ==> forall|e: Event| a.answered_by(e) ==> s.accepts(e),
    {
        let Run { job, at } = self;
        match (at, ev) {
            (SpecStep::Project, Event::MaybeProject(r)) => match r {
                Err(e) => Next::database_error(job.id, e.as_str()),
                Ok(None) => no_project(job.id, job.project_name.as_str()),
                Ok(Some(p)) => {
                    let name = job.spec_name.clone();
                    Next::go(job, SpecStep::Spec, Action::GetSpecByName { project: p.id, name })
                },
            },
            (SpecStep::Spec, Event::MaybeSpec(r)) => match r {
                Err(e) => Next::database_error(job.id, e.as_str()),
                Ok(None) => no_spec(job.id, job.spec_name.as_str()),
                Ok(Some(spec)) => treat(job, spec),
            },
            (SpecStep::Read { spec }, Event::Text(r)) => match r {
                Err(e) => Next::fail(
                    job.id,
                    cat4(
                        "failed to read spec file '",
                        spec.file_path.as_str(),
                        "': ",
                        e.as_str(),
                    ).as_str(),
                ),
                Ok(content) => Next::reply(
                    job.id,
                    Json::object().with("name", Json::Str(spec.name)).with(
                        "status",
                        Json::text(spec.status.as_str()),
                    ).with("content", Json::Str(content)),
                ),
            },
            (SpecStep::Stop { spec }, Event::Done(r)) => match r {
                Err(e) => Next::database_error(job.id, e.as_str()),
                Ok(_) => {
                    if job.verb == SpecVerb::Deactivate {
                        return inactive(job, spec);
                    }
                    let mut spec = spec;
                    spec.session_active = false;
                    change(job, spec)
                },
            },
            (SpecStep::Change { spec }, Event::SpecStatus(r)) => match r {
                Err(e) => Next::fail(job.id, cat("INVALID_STATE: ", e.as_str()).as_str()),
                Ok(status) => {
                    let asked = spec.id;
                    Next::go(
                        job,
                        SpecStep::Store { spec, status },
                        Action::UpdateSpecStatus { spec: asked, status },
                    )
                },
            },
            (SpecStep::Store { spec, status }, Event::Done(r)) => match r {
                Err(e) => Next::database_error(job.id, e.as_str()),
                Ok(_) => {
                    let data = Json::object().with("name", Json::Str(spec.name)).with(
                        "status",
                        Json::text(status.as_str()),
                    );
                    match job.verb {
                        SpecVerb::Delete { .. } => Next::reply(
                            job.id,
                            data.with("deleted", Json::Bool(true)),
                        ),
                        _ => Next::reply(job.id, data),
                    }
                },
            },
            _ => Next::End,
        }
    }
}

fn stop(job: SpecJob, spec: Spec) -> (n: Next<SpecCommand>)
    ensures
        SpecCommand::stops(job, spec, n),
{
    let asked = spec.id;
    let claude_session_id = copy_text(&spec.claude_session_id);
    Next::go(
        job,
        SpecStep::Stop { spec },
        Action::UpdateSpecSession { spec: asked, active: false, claude_session_id },
    )
}

fn change(job: SpecJob, spec: Spec) -> (n: Next<SpecCommand>)
    ensures
        SpecCommand::changes(job, spec, n),
{
    let change = match job.verb {
        SpecVerb::Reopen => SpecChange::Reopen,
        SpecVerb::Delete { .. } => SpecChange::Delete,
        _ => SpecChange::Approve,
    };
    let asked = spec.copy();
    Next::go(job, SpecStep::Change { spec }, Action::ChangeSpec { spec: asked, change })
}

fn inactive(job: SpecJob, spec: Spec) -> (n: Next<SpecCommand>)
    ensures
        n.replies(job.id, spec_inactive(spec)),
{
    Next::reply(
        job.id,
        Json::object().with("name", Json::Str(spec.name)).with("session_active", Json::Bool(false)),
    )
}

fn treat(job: SpecJob, spec: Spec) -> (n: Next<SpecCommand>)
    ensures
        SpecCommand::treats(job, spec, n),
        n matches Next::Act(s, a) ==> forall|e: Event| a.answered_by(e) ==> s.accepts(e),
{
    match job.verb {
        SpecVerb::View => {
            let path = spec.file_path.clone();
            Next::go(job, SpecStep::Read { spec }, Action::ReadFile { path })
        },
        SpecVerb::Reopen => change(job, spec),
        SpecVerb::Approve => if spec.session_active {
            stop(job, spec)
        } else {
            change(job, spec)
        },
        SpecVerb::Deactivate => if spec.session_active {
            stop(job, spec)
        } else {
            inactive(job, spec)
        },
        SpecVerb::Delete { force } => if spec.status == SpecStatus::Approved && !force {
            Next::fail(
                job.id,
                "INVALID_STATE: spec is approved; use force=true to confirm deletion",
            )
        } else if spec.session_active {
            stop(job, spec)
        } else {
            change(job, spec)
        },
    }
}

/// Begins a `spec.delete`, which takes an approved spec only with `force`.
pub fn handle_spec_delete(req: Request) -> (n: Next<SpecCommand>)
    ensures
        SpecCommand::begins(
            req,
            SpecVerb::Delete { force: req.params@.truth_field("force"@) == Some(true) },
            n,
        ),
        n matches Next::Act(s, a) ==> forall|e: Event| a.answered_by(e) ==> s.accepts(e),
{
    let force = match req.params.bool_field("force") {
        Some(b) => b,
        None => false,
    };
    SpecCommand::start(req, SpecVerb::Delete { force })
}

} // verus!
