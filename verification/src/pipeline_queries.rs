//! `pipeline.list`, `pipeline.status`, `pipeline.cancel` and `pipeline.log`.
use vstd::prelude::*;
use crate::effects::{missing_parameter, no_project, Action, Event, Next, Notice, Run};
use crate::ident::Uuid;
use crate::json::{Json, JsonV};
use crate::model::copy_text;
use crate::pipeline_data::{stage_json, PipelineRun, PipelineStage, PipelineStatus};
use crate::protocol::Request;
use crate::stage_run::{stage_log_dir, stage_log_name};
use crate::status::time_json;
use crate::text::{cat, cat3, join};

verus! {

// ---- pipeline.list ----

/// A `pipeline.list` request.
pub struct RunsJob {
    pub id: String,
    pub project_name: String,
}

pub enum RunsStep {
    Project,
    Runs,
}

pub type PipelineList = Run<RunsJob, RunsStep>;

/// What is told of a run, after what identifies it.
pub open spec fn with_details(data: JsonV, r: PipelineRun) -> JsonV {
    data.with("name"@, JsonV::Str(r.name@)).with("goal"@, JsonV::Str(r.goal@)).with(
        "status"@,
        JsonV::Str(r.status.name()),
    ).with("current_stage"@, crate::pipeline_data::optional_stage(r.current_stage)).with(
        "iteration"@,
        JsonV::Int(r.iteration as int),
    ).with("max_iterations"@, JsonV::Int(r.max_iterations as int)).with(
        "created_at"@,
        JsonV::Str(r.created_at.text()),
    ).with("updated_at"@, JsonV::Str(r.updated_at.text()))
}

fn add_details(data: Json, r: &PipelineRun) -> (j: Json)
    ensures
        j@ == with_details(data@, *r),
{
    data.with("name", Json::Str(r.name.clone())).with("goal", Json::Str(r.goal.clone())).with(
        "status",
        Json::text(r.status.as_str()),
    ).with("current_stage", stage_json(&r.current_stage)).with(
        "iteration",
        Json::U64(r.iteration as u64),
    ).with("max_iterations", Json::U64(r.max_iterations as u64)).with(
        "created_at",
        Json::Str(r.created_at.to_rfc3339()),
    ).with("updated_at", Json::Str(r.updated_at.to_rfc3339()))
}

/// How a run is listed.
pub open spec fn run_entry(r: PipelineRun) -> JsonV {
    with_details(JsonV::object().with("id"@, JsonV::Str(r.id.text())), r)
}

fn list_runs(runs: &Vec<PipelineRun>) -> (r: Vec<Json>)
    ensures
        crate::json::json_views(r@) == runs@.map_values(|r: PipelineRun| run_entry(r)),
{
    let ghost node = |r: PipelineRun| run_entry(r);
    let mut out: Vec<Json> = Vec::new();
    let mut i: usize = 0;
    while i < runs.len()
        invariant
            i <= runs@.len(),
            node == (|r: PipelineRun| run_entry(r)),
            crate::json::json_views(out@) == runs@.take(i as int).map_values(node),
        decreases runs.len() - i,
    {
        let ghost before = crate::json::json_views(out@);
        let entry = add_details(
            Json::object().with("id", Json::Str(runs[i].id.to_text())),
            &runs[i],
        );
        let ghost shown = entry@;
        out.push(entry);
        proof {
            assert(crate::json::json_views(out@) =~= before.push(shown));
            assert(runs@.take(i + 1) =~= runs@.take(i as int).push(runs@[i as int]));
            crate::seqs::map_push(runs@.take(i as int), runs@[i as int], node);
        }
        i += 1;
    }
    assert(runs@.take(i as int) =~= runs@);
    out
}

impl Run<RunsJob, RunsStep> {
    pub open spec fn accepts(self, ev: Event) -> bool {
        match self.at {
            RunsStep::Project => ev is MaybeProject,
            RunsStep::Runs => ev is Pipelines,
        }
    }

    pub open spec fn begins(req: Request, n: Next<PipelineList>) -> bool {
        match req.params@.text_field("project_name"@) {
            None => n.fails(req.id, crate::effects::missing_message("project_name"@)),
            Some(name) => {
                &&& n matches Next::Act(s, a)
                &&& n.goes(
                    s.job,
                    RunsStep::Project,
                    Action::GetProjectByName { name: s.job.project_name },
                )
                &&& s.job.id == req.id
                &&& s.job.project_name@ == name
            },
        }
    }

    pub fn start(req: Request) -> (n: Next<PipelineList>)
        ensures
            PipelineList::begins(req, n),
            n matches Next::Act(s, a) ==> forall|e: Event| a.answered_by(e) ==> s.accepts(e),
    {
        let project_name = match req.params.str_field("project_name") {
            Some(v) => v,
            None => return missing_parameter(req.id, "project_name"),
        };
        let name = project_name.clone();
        Next::go(
            RunsJob { id: req.id, project_name },
            RunsStep::Project,
            Action::GetProjectByName { name },
        )
    }

    pub open spec fn follows(self, ev: Event, n: Next<PipelineList>) -> bool {
        let job = self.job;
        match (self.at, ev) {
            (RunsStep::Project, Event::MaybeProject(r)) => match r {
                Err(e) => n.fails(job.id, crate::effects::database_message(e@)),
                Ok(None) => n.fails(job.id, crate::effects::no_project_message(job.project_name@)),
                Ok(Some(project)) => n.goes(
                    job,
                    RunsStep::Runs,
                    Action::ListPipelineRuns { project: project.id },
                ),
            },
            (RunsStep::Runs, Event::Pipelines(r)) => match r {
                Err(e) => n.fails(job.id, crate::effects::database_message(e@)),
                Ok(runs) => n.replies(
                    job.id,
                    JsonV::object().with(
                        "runs"@,
                        JsonV::Arr(runs@.map_values(|r: PipelineRun| run_entry(r))),
                    ),
                ),
            },
            _ => false,
        }
    }

    pub fn step(self, ev: Event) -> (n: Next<PipelineList>)
        requires
            self.accepts(ev),
        ensures
            self.follows(ev, n),
            n matches Next::Act(s, a) ==> forall|e: Event| a.answered_by(e) ==> s.accepts(e),
    {
        let Run { job, at } = self;
        match (at, ev) {
            (RunsStep::Project, Event::MaybeProject(r)) => match r {
                Err(e) => Next::database_error(job.id, e.as_str()),
                Ok(None) => no_project(job.id, job.project_name.as_str()),
                Ok(Some(project)) => Next::go(
                    job,
                    RunsStep::Runs,
                    Action::ListPipelineRuns { project: project.id },
                ),
            },
            (RunsStep::Runs, Event::Pipelines(r)) => match r {
                Err(e) => Next::database_error(job.id, e.as_str()),
                Ok(runs) => Next::reply(
                    job.id,
                    Json::object().with("runs", Json::array(list_runs(&runs))),
                ),
            },
            _ => Next::End,
        }
    }
}

// ---- one run ----

/// What is asked about a run.
pub enum QueryVerb {
    Status,
    Cancel,
    Log { stage_type: Option<String>, iteration: Option<u32> },
}

/// A request about a run.
pub struct QueryJob {
    pub id: String,
    /// The run as the request names it.
    pub run_text: String,
    pub run: Uuid,
    pub verb: QueryVerb,
}

#[allow(inconsistent_fields)]
pub enum QueryStep {
    Run,
    // pipeline.status
    Stages { run: PipelineRun },
    // pipeline.cancel
    Update { run: PipelineRun },
    Tell,
    // pipeline.log
    Find,
    Home { stages: Vec<PipelineStage> },
    Exists { path: String, home: String, stages: Vec<PipelineStage>, done: usize, logs: Vec<Json> },
    Read { path: String, home: String, stages: Vec<PipelineStage>, done: usize, logs: Vec<Json> },
}

pub type PipelineQuery = Run<QueryJob, QueryStep>;

pub open spec fn no_run_message(run: Seq<char>) -> Seq<char> {
    "NOT_FOUND: pipeline run '"@ + run + "' not found"@
}

/// How a stage is shown.
pub open spec fn stage_entry(s: PipelineStage) -> JsonV {
    JsonV::object().with("id"@, JsonV::Str(s.id.text())).with(
        "stage_type"@,
        JsonV::Str(s.stage_type.name()),
    ).with("iteration"@, JsonV::Int(s.iteration as int)).with(
        "status"@,
        JsonV::Str(s.status.name()),
    ).with("output_result"@, JsonV::optional_text(s.output_result)).with(
        "started_at"@,
        crate::status::optional_time(s.started_at),
    ).with("finished_at"@, crate::status::optional_time(s.finished_at))
}

/// The data that answers a `pipeline.status`.
pub open spec fn run_status(run: PipelineRun, stages: Seq<PipelineStage>) -> JsonV {
    JsonV::object().with(
        "run"@,
        with_details(
            JsonV::object().with("id"@, JsonV::Str(run.id.text())).with(
                "project_id"@,
                JsonV::Str(run.project_id.text()),
            ),
            run,
        ),
    ).with("stages"@, JsonV::Arr(stages.map_values(|s: PipelineStage| stage_entry(s))))
}

fn list_stages(stages: &Vec<PipelineStage>) -> (r: Vec<Json>)
    ensures
        crate::json::json_views(r@) == stages@.map_values(|s: PipelineStage| stage_entry(s)),
{
    let ghost node = |s: PipelineStage| stage_entry(s);
    let mut out: Vec<Json> = Vec::new();
    let mut i: usize = 0;
    while i < stages.len()
        invariant
            i <= stages@.len(),
            node == (|s: PipelineStage| stage_entry(s)),
            crate::json::json_views(out@) == stages@.take(i as int).map_values(node),
        decreases stages.len() - i,
    {
        let s = &stages[i];
        let ghost before = crate::json::json_views(out@);
        let entry = Json::object().with("id", Json::Str(s.id.to_text())).with(
            "stage_type",
            Json::text(s.stage_type.as_str()),
        ).with("iteration", Json::U64(s.iteration as u64)).with(
            "status",
            Json::text(s.status.as_str()),
        ).with("output_result", Json::optional(&s.output_result)).with(
            "started_at",
            time_json(&s.started_at),
        ).with("finished_at", time_json(&s.finished_at));
        let ghost shown = entry@;
        out.push(entry);
        proof {
            assert(crate::json::json_views(out@) =~= before.push(shown));
            assert(stages@.take(i + 1) =~= stages@.take(i as int).push(*s));
            crate::seqs::map_push(stages@.take(i as int), *s, node);
        }
        i += 1;
    }
    assert(stages@.take(i as int) =~= stages@);
    out
}

/// Where the log of a stage is.
pub open spec fn log_path(run: Uuid, home: Seq<char>, s: PipelineStage) -> Seq<char> {
    crate::text::joined(
        crate::stage_run::log_dir(home),
        crate::stage_run::log_name(run, s.stage_type, s.iteration),
    )
}

/// How the log of a stage is told.
pub open spec fn log_entry(s: PipelineStage, path: Seq<char>, content: Seq<char>) -> JsonV {
    JsonV::object().with("stage_id"@, JsonV::Str(s.id.text())).with(
        "stage_type"@,
        JsonV::Str(s.stage_type.name()),
    ).with("iteration"@, JsonV::Int(s.iteration as int)).with(
        "status"@,
        JsonV::Str(s.status.name()),
    ).with("log_path"@, JsonV::Str(path)).with("content"@, JsonV::Str(content))
}

fn log_json(s: &PipelineStage, path: String, content: String) -> (r: Json)
    ensures
        r@ == log_entry(*s, path@, content@),
{
    Json::object().with("stage_id", Json::Str(s.id.to_text())).with(
        "stage_type",
        Json::text(s.stage_type.as_str()),
    ).with("iteration", Json::U64(s.iteration as u64)).with(
        "status",
        Json::text(s.status.as_str()),
    ).with("log_path", Json::Str(path)).with("content", Json::Str(content))
}

impl Run<QueryJob, QueryStep> {
    pub open spec fn accepts(self, ev: Event) -> bool {
        match self.at {
            QueryStep::Run => ev is MaybePipeline,
            QueryStep::Stages { .. } | QueryStep::Find => ev is Stages,
            QueryStep::Update { .. } | QueryStep::Tell => ev is Done,
            QueryStep::Home { .. } => ev is Text,
            QueryStep::Exists { stages, done, .. } => ev is Flag && done < stages.len(),
            QueryStep::Read { stages, done, .. } => ev is Text && done < stages.len(),
        }
    }

    /// How a request goes on when it is known which run it names, if it names one.
    pub open spec fn asks(
        id: String,
        run_text: String,
        run: Option<Uuid>,
        verb: QueryVerb,
        n: Next<PipelineQuery>,
    ) -> bool {
        match run {
            None => n.fails(id, "INVALID_PARAMS: invalid pipeline_run_id format"@),
            Some(run) => n.goes(
                QueryJob { id, run_text, run, verb },
                QueryStep::Run,
                Action::GetPipelineRun { run },
            ),
        }
    }

    /// Goes on when it is known which run the request names, if it names one.
    pub fn ask(
        id: String,
        run_text: String,
        run: Option<Uuid>,
        verb: QueryVerb,
    ) -> (n: Next<PipelineQuery>)
        ensures
            PipelineQuery::asks(id, run_text, run, verb, n),
            n matches Next::Act(s, a) ==> forall|e: Event| a.answered_by(e) ==> s.accepts(e),
    {
        match run {
            None => Next::fail(id, "INVALID_PARAMS: invalid pipeline_run_id format"),
            Some(run) => Next::go(
                QueryJob { id, run_text, run, verb },
                QueryStep::Run,
                Action::GetPipelineRun { run },
            ),
        }
    }

    pub open spec fn begins(req: Request, verb: QueryVerb, n: Next<PipelineQuery>) -> bool {
        match req.params@.text_field("pipeline_run_id"@) {
            None => n.fails(req.id, crate::effects::missing_message("pipeline_run_id"@)),
            Some(text) => exists|run_text: String|
                run_text@ == text && #[trigger] PipelineQuery::asks(
                    req.id,
                    run_text,
                    Uuid::denoted(text),
                    verb,
                    n,
                ),
        }
    }

    fn start(req: Request, verb: QueryVerb) -> (n: Next<PipelineQuery>)
        ensures
            PipelineQuery::begins(req, verb, n),
            n matches Next::Act(s, a) ==> forall|e: Event| a.answered_by(e) ==> s.accepts(e),
    {
        let run_text = match req.params.str_field("pipeline_run_id") {
            Some(v) => v,
            None => return missing_parameter(req.id, "pipeline_run_id"),
        };
        let run = Uuid::parse(run_text.as_str());
        PipelineQuery::ask(req.id, run_text, run, verb)
    }

    pub fn start_status(req: Request) -> (n: Next<PipelineQuery>)
        ensures
            PipelineQuery::begins(req, QueryVerb::Status, n),
            n matches Next::Act(s, a) ==> forall|e: Event| a.answered_by(e) ==> s.accepts(e),
    {
        PipelineQuery::start(req, QueryVerb::Status)
    }

    pub fn start_cancel(req: Request) -> (n: Next<PipelineQuery>)
        ensures
            PipelineQuery::begins(req, QueryVerb::Cancel, n),
            n matches Next::Act(s, a) ==> forall|e: Event| a.answered_by(e) ==> s.accepts(e),
    {
        PipelineQuery::start(req, QueryVerb::Cancel)
    }

    /// How a `pipeline.log` request begins.
    pub open spec fn begins_log(req: Request, n: Next<PipelineQuery>) -> bool {
        exists|stage_type: Option<String>|
            crate::text::is_text(stage_type, req.params@.text_field("stage_type"@))
                && #[trigger] PipelineQuery::begins(
                req,
                QueryVerb::Log {
                    stage_type,
                    iteration: crate::plans::wave_of(req.params@, "iteration"@),
                },
                n,
            )
    }

    pub fn start_log(req: Request) -> (n: Next<PipelineQuery>)
        ensures
            PipelineQuery::begins_log(req, n),
            n matches Next::Act(s, a) ==> forall|e: Event| a.answered_by(e) ==> s.accepts(e),
    {
        let stage_type = req.params.str_field("stage_type");
        let iteration = crate::plans::wave_param(&req.params, "iteration");
        PipelineQuery::start(req, QueryVerb::Log { stage_type, iteration })
    }

    /// Looks for the log of the stage at `done`, or answers after the last one.
    pub open spec fn reads(
        job: QueryJob,
        home: String,
        stages: Vec<PipelineStage>,
        done: int,
        logs: Seq<JsonV>,
        n: Next<PipelineQuery>,
    ) -> bool {
        if done < stages@.len() {
            &&& n matches Next::Act(s, Action::PathExists { path })
            &&& path@ == log_path(job.run, home@, stages@[done])
            &&& s.job == job
            &&& s.at matches QueryStep::Exists { path: p, home: h, stages: st, done: d, logs: l }
            &&& p == path && h == home && st == stages && d == done
            &&& crate::json::json_views(l@) == logs
        } else {
            n.replies(
                job.id,
                JsonV::object().with("pipeline_run_id"@, JsonV::Str(job.run_text@)).with(
                    "logs"@,
                    JsonV::Arr(logs),
                ),
            )
        }
    }

    pub open spec fn follows(self, ev: Event, n: Next<PipelineQuery>) -> bool {
        let job = self.job;
        match (self.at, ev) {
            (QueryStep::Run, Event::MaybePipeline(r)) => match r {
                Err(e) => n.fails(job.id, crate::effects::database_message(e@)),
                Ok(None) => n.fails(job.id, no_run_message(job.run_text@)),
                Ok(Some(run)) => match job.verb {
                    QueryVerb::Status => n.goes(
                        job,
                        QueryStep::Stages { run },
                        Action::ListPipelineStages { run: job.run },
                    ),
                    QueryVerb::Cancel => if run.status == PipelineStatus::Running {
                        n.goes(
                            job,
                            QueryStep::Update { run },
                            Action::UpdatePipelineRun {
                                run: job.run,
                                status: PipelineStatus::Cancelled,
                                stage: None,
                                iteration: run.iteration,
                            },
                        )
                    } else {
                        n.fails(
                            job.id,
                            "INVALID_STATE: pipeline run is not running (status: "@
                                + run.status.name() + ")"@,
                        )
                    },
                    QueryVerb::Log { stage_type, iteration } => n.goes(
                        job,
                        QueryStep::Find,
                        Action::FindPipelineStages { run: job.run, stage_type, iteration },
                    ),
                },
            },
            (QueryStep::Stages { run }, Event::Stages(r)) => match r {
                Err(e) => n.fails(job.id, crate::effects::database_message(e@)),
                Ok(stages) => n.replies(job.id, run_status(run, stages@)),
            },
            (QueryStep::Update { run }, Event::Done(r)) => match r {
                Err(e) => n.fails(job.id, crate::effects::database_message(e@)),
                Ok(_) => n.goes(
                    job,
                    QueryStep::Tell,
                    Action::Broadcast {
                        notice: Notice::PipelineCompleted {
                            run: job.run,
                            project: run.project_id,
                            status: PipelineStatus::Cancelled,
                            iterations: run.iteration,
                        },
                    },
                ),
            },
            (QueryStep::Tell, Event::Done(_)) => n.replies(
                job.id,
                JsonV::object().with("pipeline_run_id"@, JsonV::Str(job.run.text())).with(
                    "status"@,
                    JsonV::Str("cancelled"@),
                ),
            ),
            (QueryStep::Find, Event::Stages(r)) => match r {
                Err(e) => n.fails(job.id, crate::effects::database_message(e@)),
                Ok(stages) => if stages@.len() == 0 {
                    n.fails(job.id, "NOT_FOUND: no matching pipeline stages found"@)
                } else {
                    n.goes(job, QueryStep::Home { stages }, Action::NflowHome)
                },
            },
            (QueryStep::Home { stages }, Event::Text(r)) => match r {
                Err(e) => n.fails(job.id, "failed to get nflow home: "@ + e@),
                Ok(home) => PipelineQuery::reads(job, home, stages, 0, Seq::empty(), n),
            },
            (QueryStep::Exists { path, home, stages, done, logs }, Event::Flag(r)) => if r == Ok::<
                bool,
                String,
            >(true) {
                &&& n matches Next::Act(s, Action::ReadFile { path: p })
                &&& p == path
                &&& s == Run { job, at: QueryStep::Read { path, home, stages, done, logs } }
            } else {
                PipelineQuery::reads(
                    job,
                    home,
                    stages,
                    done + 1,
                    crate::json::json_views(logs@).push(
                        log_entry(stages@[done as int], path@, ""@),
                    ),
                    n,
                )
            },
            (QueryStep::Read { path, home, stages, done, logs }, Event::Text(r)) => {
                PipelineQuery::reads(
                    job,
                    home,
                    stages,
                    done + 1,
                    crate::json::json_views(logs@).push(
                        log_entry(
                            stages@[done as int],
                            path@,
                            match r {
                                Ok(content) => content@,
                                Err(_) => ""@,
                            },
                        ),
                    ),
                    n,
                )
            },
            _ => false,
        }
    }

    pub fn step(self, ev: Event) -> (n: Next<PipelineQuery>)
        requires
            self.accepts(ev),
        ensures
            self.follows(ev, n),
            n matches Next::Act(s, a) ==> forall|e: Event| a.answered_by(e) ==> s.accepts(e),
    {
        let Run { job, at } = self;
        match (at, ev) {
            (QueryStep::Run, Event::MaybePipeline(r)) => match r {
                Err(e) => Next::database_error(job.id, e.as_str()),
                Ok(None) => Next::fail(
                    job.id,
                    cat3(
                        "NOT_FOUND: pipeline run '",
                        job.run_text.as_str(),
                        "' not found",
                    ).as_str(),
                ),
                Ok(Some(run)) => {
                    let asked = job.run;
                    match &job.verb {
                        QueryVerb::Status => Next::go(
                            job,
                            QueryStep::Stages { run },
                            Action::ListPipelineStages { run: asked },
                        ),
                        QueryVerb::Cancel => if run.status == PipelineStatus::Running {
                            let iteration: u32 = run.iteration;
                            Next::go(
                                job,
                                QueryStep::Update { run },
                                Action::UpdatePipelineRun {
                                    run: asked,
                                    status: PipelineStatus::Cancelled,
                                    stage: None,
                                    iteration,
                                },
                            )
                        } else {
                            Next::fail(
                                job.id,
                                cat3(
                                    "INVALID_STATE: pipeline run is not running (status: ",
                                    run.status.as_str(),
                                    ")",
                                ).as_str(),
                            )
                        },
                        QueryVerb::Log { stage_type, iteration } => {
                            let action = Action::FindPipelineStages {
                                run: asked,
                                stage_type: copy_text(stage_type),
                                iteration: *iteration,
                            };
                            Next::go(job, QueryStep::Find, action)
                        },
                    }
                },
            },
            (QueryStep::Stages { run }, Event::Stages(r)) => match r {
                Err(e) => Next::database_error(job.id, e.as_str()),
                Ok(stages) => {
                    let shown = add_details(
                        Json::object().with("id", Json::Str(run.id.to_text())).with(
                            "project_id",
                            Json::Str(run.project_id.to_text()),
                        ),
                        &run,
                    );
                    Next::reply(
                        job.id,
                        Json::object().with("run", shown).with(
                            "stages",
                            Json::array(list_stages(&stages)),
                        ),
                    )
                },
            },
            (QueryStep::Update { run }, Event::Done(r)) => match r {
                Err(e) => Next::database_error(job.id, e.as_str()),
                Ok(_) => {
                    let notice = Notice::PipelineCompleted {
                        run: job.run,
                        project: run.project_id,
                        status: PipelineStatus::Cancelled,
                        iterations: run.iteration,
                    };
                    Next::go(job, QueryStep::Tell, Action::Broadcast { notice })
                },
            },
            (QueryStep::Tell, Event::Done(_)) => {
                let text = job.run.to_text();
                Next::reply(
                    job.id,
                    Json::object().with("pipeline_run_id", Json::Str(text)).with(
                        "status",
                        Json::text("cancelled"),
                    ),
                )
            },
            (QueryStep::Find, Event::Stages(r)) => match r {
                Err(e) => Next::database_error(job.id, e.as_str()),
                Ok(stages) => if stages.len() == 0 {
                    Next::fail(job.id, "NOT_FOUND: no matching pipeline stages found")
                } else {
                    Next::go(job, QueryStep::Home { stages }, Action::NflowHome)
                },
            },
            (QueryStep::Home { stages }, Event::Text(r)) => match r {
                Err(e) => Next::fail(
                    job.id,
                    cat("failed to get nflow home: ", e.as_str()).as_str(),
                ),
                Ok(home) => {
                    let logs: Vec<Json> = Vec::new();
                    assert(crate::json::json_views(logs@) =~= Seq::<JsonV>::empty());
                    read_next(job, home, stages, 0, logs)
                },
            },
            (QueryStep::Exists { path, home, stages, done, logs }, Event::Flag(r)) => match r {
                Ok(true) => {
                    let asked = path.clone();
                    Next::go(
                        job,
                        QueryStep::Read { path, home, stages, done, logs },
                        Action::ReadFile { path: asked },
                    )
                },
                _ => note_log(job, path, home, stages, done, logs, "".to_owned()),
            },
            (QueryStep::Read { path, home, stages, done, logs }, Event::Text(r)) => {
                let content = match r {
                    Ok(content) => content,
                    Err(_) => "".to_owned(),
                };
                note_log(job, path, home, stages, done, logs, content)
            },
            _ => Next::End,
        }
    }
}

fn read_next(
    job: QueryJob,
    home: String,
    stages: Vec<PipelineStage>,
    done: usize,
    logs: Vec<Json>,
) -> (n: Next<PipelineQuery>)
    ensures
        PipelineQuery::reads(
            job,
            home,
            stages,
            done as int,
            crate::json::json_views(logs@),
            n,
        ),
        n matches Next::Act(s, a) ==> forall|e: Event| a.answered_by(e) ==> s.accepts(e),
{
    if done < stages.len() {
        let name = stage_log_name(&job.run, stages[done].stage_type, stages[done].iteration);
        let path = join(stage_log_dir(home.as_str()).as_str(), name.as_str());
        let asked = path.clone();
        return Next::go(
            job,
            QueryStep::Exists { path, home, stages, done, logs },
            Action::PathExists { path: asked },
        );
    }
    Next::reply(
        job.id,
        Json::object().with("pipeline_run_id", Json::Str(job.run_text)).with(
            "logs",
            Json::array(logs),
        ),
    )
}

fn note_log(
    job: QueryJob,
    path: String,
    home: String,
    stages: Vec<PipelineStage>,
    done: usize,
    logs: Vec<Json>,
    content: String,
) -> (n: Next<PipelineQuery>)
    requires
        done < stages.len(),
    ensures
        PipelineQuery::reads(
            job,
            home,
            stages,
            done + 1,
            crate::json::json_views(logs@).push(
                log_entry(stages@[done as int], path@, content@),
            ),
            n,
        ),
        n matches Next::Act(s, a) ==> forall|e: Event| a.answered_by(e) ==> s.accepts(e),
{
    let mut logs = logs;
    let ghost before = crate::json::json_views(logs@);
    let entry = log_json(&stages[done], path, content);
    let ghost shown = entry@;
    logs.push(entry);
    assert(crate::json::json_views(logs@) =~= before.push(shown));
    read_next(job, home, stages, done + 1, logs)
}

/// Only a run that is running can be cancelled.
pub proof fn law_only_a_running_run_is_cancelled(
    job: QueryJob,
    run: PipelineRun,
    n: Next<PipelineQuery>,
)
    requires
        job.verb is Cancel,
        (Run { job, at: QueryStep::Run }).follows(Event::MaybePipeline(Ok(Some(run))), n),
    ensures
        n is Act <==> run.status == PipelineStatus::Running,
{
}

} // verus!
