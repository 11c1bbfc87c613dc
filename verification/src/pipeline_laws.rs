//! What `pipeline.start` is for, over the whole course of a run.
use vstd::prelude::*;
use crate::claude::RunKind;
use crate::effects::{Action, Event, Next, Template};
use crate::histories::{had, reaches, Machine};
use crate::ident::Uuid;
use crate::model::Project;
use crate::pipeline::{Course, PipelineStart, PipelineStep};
use crate::pipeline_data::{
    IterationRecord, OutputV, PipelineDecision, PipelineRun, PipelineStatus, RecordV, StageOutput,
    StageStatus, StageType, TemplateVar,
};
use crate::protocol::{Request, ResponseStatus};
use crate::stage_run::{StageJob, StageNext, StageRun, StageStep};

verus! {

impl Machine for PipelineStart {
    open spec fn takes_up(req: Request, n: Next<PipelineStart>) -> bool {
        PipelineStart::begins(req, n)
    }

    open spec fn leads(self, ev: Event, n: Next<PipelineStart>) -> bool {
        self.follows(ev, n)
    }
}

/// What a run has come to, as what was done tells it: the iteration and the stage that it is
/// marked to be in, what the stages of the iteration left, each with its JSON text, and what the
/// earlier iterations left.
pub struct Told {
    pub iteration: u32,
    pub stage: Option<StageType>,
    pub plan: Option<(OutputV, Seq<char>)>,
    pub implementation: Option<(OutputV, Seq<char>)>,
    pub review: Option<OutputV>,
    pub history: Seq<RecordV>,
}

impl Told {
    pub open spec fn nothing() -> Told {
        Told {
            iteration: 0,
            stage: None,
            plan: None,
            implementation: None,
            review: None,
            history: Seq::empty(),
        }
    }

    /// What an iteration that was reviewed leaves to the later ones.
    pub open spec fn record(self) -> Seq<RecordV> {
        match self.review {
            Some(review) => self.history.push(
                RecordV {
                    iteration: self.iteration,
                    plan: match self.plan {
                        Some(p) => p.0.plan,
                        None => None,
                    },
                    implementation: match self.implementation {
                        Some(p) => p.0.implementation,
                        None => None,
                    },
                    review: review.review,
                },
            ),
            None => self.history,
        }
    }

    pub open spec fn after(self, action: Action, ev: Event) -> Told {
        match action {
            Action::UpdatePipelineRun { stage: Some(stage), iteration, .. } => {
                if stage == StageType::Plan {
                    Told {
                        iteration,
                        stage: Some(stage),
                        history: self.record(),
                        ..Told::nothing()
                    }
                } else {
                    Told { iteration, stage: Some(stage), ..self }
                }
            },
            Action::PrettyOutput { output } => match ev {
                Event::Written(text) => if self.stage == Some(StageType::Plan) {
                    Told { plan: Some((output@, text@)), ..self }
                } else {
                    Told { implementation: Some((output@, text@)), ..self }
                },
                _ => self,
            },
            Action::DecideNext { output, .. } => Told { review: Some(output@), ..self },
            _ => self,
        }
    }
}

pub open spec fn told(log: Seq<(Action, Event)>) -> Told
    decreases log.len(),
{
    if log.len() == 0 {
        Told::nothing()
    } else {
        told(log.drop_last()).after(log.last().0, log.last().1)
    }
}

// ---- a stage ----

/// Whether the prompt of a stage is filled as it should be: with the goal, the iteration, what
/// the earlier iterations left, and, for the later stages, with what the earlier stages of this
/// iteration left.
pub open spec fn fills(log: Seq<(Action, Event)>, job: StageJob, vars: Seq<TemplateVar>) -> bool {
    let v = crate::pipeline_data::var_views(vars);
    &&& v.len() == 3 + (match job.stage_type {
        StageType::Plan => 0int,
        StageType::Implement => 1int,
        StageType::Review => 2int,
    })
    &&& v[0] == ("goal"@, job.goal@)
    &&& v[1] == ("iteration"@, crate::text::decimal(job.iteration as nat))
    &&& v[2].0 == "previous_context"@
    &&& if job.history@.len() == 0 {
        v[2].1 == ""@
    } else {
        exists|h: Vec<IterationRecord>, text: String| #[trigger]
            had(log, Action::PrettyHistory { history: h }, Event::Written(text))
                && crate::pipeline_data::records(h@) == crate::pipeline_data::records(job.history@)
                && v[2].1 == "## Previous Iterations\n\n```json\n"@ + text@ + "\n```"@
    }
    &&& job.stage_type != StageType::Plan ==> v[3] == ("plan_json"@, match job.plan {
        Some(t) => t@,
        None => ""@,
    })
    &&& job.stage_type == StageType::Review ==> v[4] == (
        "implementation_json"@,
        match job.implementation {
            Some(t) => t@,
            None => ""@,
        },
    )
}

/// Whether the agent of a stage is given the filled prompt, in the directory of the project.
pub open spec fn is_prompted(
    log: Seq<(Action, Event)>,
    job: StageJob,
    config: crate::claude::RunConfig,
) -> bool {
    &&& config.kind == match job.stage_type {
        StageType::Plan => RunKind::PipelinePlan,
        StageType::Implement => RunKind::PipelineImplement,
        StageType::Review => RunKind::PipelineReview,
    }
    &&& config.working_dir == Some(job.project_path)
    &&& config.resume_session is None
    &&& config.system_prompt_file is None
    &&& exists|template: String, vars: Vec<TemplateVar>| #[trigger]
        had(log, Action::RenderTemplate { template, vars }, Event::Text(Ok(config.prompt)))
            && fills(log, job, vars@) && is_template(log, job, template)
}

/// Whether the template is that of the stage.
pub open spec fn is_template(log: Seq<(Action, Event)>, job: StageJob, template: String) -> bool {
    match job.stage_type {
        StageType::Plan => exists|dir: Option<String>| #[trigger] had(
            log,
            Action::LoadTemplate { template: Template::PipelinePlan, dir },
            Event::Text(Ok(template)),
        ),
        StageType::Implement => exists|dir: Option<String>| #[trigger] had(
            log,
            Action::LoadTemplate { template: Template::PipelineImplement, dir },
            Event::Text(Ok(template)),
        ),
        StageType::Review => exists|dir: Option<String>| #[trigger] had(
            log,
            Action::LoadTemplate { template: Template::PipelineReview, dir },
            Event::Text(Ok(template)),
        ),
    }
}

/// Whether the stage was recorded as completed with the output.
pub open spec fn is_recorded(log: Seq<(Action, Event)>, output: OutputV) -> bool {
    exists|stage: Uuid, o: StageOutput, at: crate::ident::Timestamp, ev: Event| #[trigger]
        had(
            log,
            Action::FinishStage { stage, status: StageStatus::Completed, output: o, at },
            ev,
        ) && o@ == output
}

/// What holds while a stage is run.
pub open spec fn stage_holds(log: Seq<(Action, Event)>, s: StageRun, a: Action) -> bool {
    let job = s.job;
    &&& !(a is UpdatePipelineRun || a is PrettyOutput || a is DecideNext)
    &&& match s.at {
        StageStep::New => {
            &&& a matches Action::NewStage { run, stage_type, iteration, goal, history }
            &&& run == job.run && stage_type == job.stage_type && iteration == job.iteration
            &&& goal == job.goal
            &&& crate::pipeline_data::records(history@) == crate::pipeline_data::records(
                job.history@,
            )
        },
        StageStep::Load { .. } => a matches Action::LoadTemplate { template, .. } && template
            == match job.stage_type {
            StageType::Plan => Template::PipelinePlan,
            StageType::Implement => Template::PipelineImplement,
            StageType::Review => Template::PipelineReview,
        },
        StageStep::History { template, .. } => {
            &&& is_template(log, job, template)
            &&& job.history@.len() > 0
            &&& a matches Action::PrettyHistory { history }
            &&& crate::pipeline_data::records(history@) == crate::pipeline_data::records(
                job.history@,
            )
        },
        StageStep::Render { .. } => a matches Action::RenderTemplate { template, vars } && fills(
            log,
            job,
            vars@,
        ) && is_template(log, job, template),
        StageStep::Spawn { .. } => a matches Action::SpawnClaude { config } && is_prompted(
            log,
            job,
            config,
        ),
        StageStep::Finish { output, .. } => {
            &&& a matches Action::FinishStage { status, output: o, .. }
            &&& status == StageStatus::Completed
            &&& o@ == output@
        },
        StageStep::Done { output, .. } => a is Broadcast && is_recorded(log, output@),
        StageStep::Value { output, .. } => is_recorded(log, output@),
        StageStep::Complete { output, .. } => is_recorded(log, output@),
        _ => !(a is SpawnClaude || a is RenderTemplate || a is NewStage),
    }
}

proof fn stage_facts_stay(log: Seq<(Action, Event)>, job: StageJob)
    requires
        log.len() > 0,
    ensures
        forall|v: Seq<TemplateVar>| #[trigger]
            fills(log.drop_last(), job, v) ==> fills(log, job, v),
        forall|t: String| #[trigger]
            is_template(log.drop_last(), job, t) ==> is_template(log, job, t),
        forall|o: OutputV| #[trigger] is_recorded(log.drop_last(), o) ==> is_recorded(log, o),
{
    crate::histories::had_more(log);
}

/// A stage keeps what holds, and is finished only with an output that was recorded.
pub proof fn law_a_stage_is_told_of_the_earlier_ones(
    log: Seq<(Action, Event)>,
    s: StageRun,
    n: StageNext,
)
    requires
        log.len() > 0,
        stage_holds(log.drop_last(), s, log.last().0),
        s.follows(log.last().1, n),
    ensures
        match n {
            StageNext::Act(t, a) => t.job == s.job && stage_holds(log, t, a),
            StageNext::Finished(job, output, _) => job == s.job && is_recorded(log, output@),
            StageNext::Failed(job, _) => true,
        },
        log.last().1 matches Event::MaybeOutput(Some(o)) ==> (n matches StageNext::Act(t, _)
            && t.at matches StageStep::Time { output, .. } && output@ == o@),
{
    let (b, ev) = log.last();
    let job = s.job;
    crate::histories::had_more(log);
    stage_facts_stay(log, job);
    match (s.at, ev) {
        (StageStep::Load { .. }, Event::Text(Ok(template))) => {
            let dir = b->LoadTemplate_dir;
            match job.stage_type {
                StageType::Plan => {
                    assert(had(
                        log,
                        Action::LoadTemplate { template: Template::PipelinePlan, dir },
                        ev,
                    ));
                },
                StageType::Implement => {
                    assert(had(
                        log,
                        Action::LoadTemplate { template: Template::PipelineImplement, dir },
                        ev,
                    ));
                },
                StageType::Review => {
                    assert(had(
                        log,
                        Action::LoadTemplate { template: Template::PipelineReview, dir },
                        ev,
                    ));
                },
            }
            assert(is_template(log, job, template));
        },
        (StageStep::History { .. }, Event::Written(text)) => {
            let h = b->PrettyHistory_history;
            assert(had(log, Action::PrettyHistory { history: h }, Event::Written(text)));
        },
        (StageStep::Render { .. }, Event::Text(Ok(prompt))) => {
            let template = b->RenderTemplate_template;
            let vars = b->RenderTemplate_vars;
            assert(had(log, Action::RenderTemplate { template, vars }, ev));
        },
        (StageStep::Finish { output, .. }, Event::Done(_)) => {
            let stage = b->FinishStage_stage;
            let at = b->FinishStage_at;
            let o = b->FinishStage_output;
            assert(had(
                log,
                Action::FinishStage { stage, status: StageStatus::Completed, output: o, at },
                ev,
            ));
            assert(is_recorded(log, output@));
        },
        _ => {},
    }
}

// ---- a run ----

/// Whether the run was made for the request, and is that of the project that it names.
pub open spec fn is_run_of(
    req: Request,
    log: Seq<(Action, Event)>,
    run: Uuid,
    project: Uuid,
    path: String,
) -> bool {
    exists|p: Project, r: PipelineRun|
        is_project_named(req, log, p) && p.id == project && p.path == path && r.id == run && r.status
            == PipelineStatus::Running && #[trigger] is_project_named(req, log, p) && #[trigger] had(
            log,
            Action::InsertPipelineRun { run: r },
            Event::Done(Ok(())),
        )
}

/// Whether the run was made for the request.
pub open spec fn is_run(req: Request, log: Seq<(Action, Event)>, run: Uuid) -> bool {
    exists|r: PipelineRun|
        r.id == run && r.status == PipelineStatus::Running && #[trigger] had(
            log,
            Action::InsertPipelineRun { run: r },
            Event::Done(Ok(())),
        )
}

pub open spec fn is_project_named(req: Request, log: Seq<(Action, Event)>, p: Project) -> bool {
    exists|name: String|
        req.params@.text_field("project_name"@) == Some(name@) && #[trigger] had(
            log,
            Action::GetProjectByName { name },
            Event::MaybeProject(Ok(Some(p))),
        )
}

/// Whether what a run goes by is what was told of it.
pub open spec fn agrees(t: Told, course: Course, history: Seq<RecordV>) -> bool {
    &&& t.iteration == course.iteration
    &&& t.stage == Some(course.stage)
    &&& t.history == history
    &&& t.plan == match course.plan {
        Some(l) => Some((l.output@, l.text@)),
        None => None,
    }
    &&& t.implementation == match course.implementation {
        Some(l) => Some((l.output@, l.text@)),
        None => None,
    }
    &&& course.stage == StageType::Plan <==> course.plan is None
    &&& course.stage == StageType::Review <==> course.implementation is Some
}

/// How often a run may go round: as often as the request says, or else five times.
pub open spec fn rounds(req: Request) -> u32 {
    match req.params@.natural_field("max_iterations"@) {
        Some(m) => m as u32,
        None => 5,
    }
}

spec fn pipeline_holds(
    req: Request,
    log: Seq<(Action, Event)>,
    s: PipelineStart,
    a: Action,
) -> bool {
    let job = s.job;
    let t = told(log);
    &&& job.id == req.id
    &&& req.params@.text_field("project_name"@) == Some(job.project_name@)
    &&& req.params@.text_field("name"@) == Some(job.name@)
    &&& req.params@.text_field("goal"@) == Some(job.goal@)
    &&& job.max_iterations == rounds(req)
    &&& match s.at {
        PipelineStep::Project => t == Told::nothing() && a == Action::GetProjectByName {
            name: job.project_name,
        },
        PipelineStep::Active { project } => {
            &&& t == Told::nothing()
            &&& is_project_named(req, log, project)
            &&& a == Action::GetActiveRun { project: project.id }
        },
        PipelineStep::New { project } => {
            &&& t == Told::nothing()
            &&& is_project_named(req, log, project)
            &&& had(
                log,
                Action::GetActiveRun { project: project.id },
                Event::MaybePipeline(Ok(None)),
            )
            &&& a == Action::NewPipelineRun {
                project: project.id,
                name: job.name,
                goal: job.goal,
                max_iterations: job.max_iterations,
            }
        },
        PipelineStep::Insert { run, project } => {
            &&& t == Told::nothing()
            &&& is_project_named(req, log, project)
            &&& a matches Action::InsertPipelineRun { run: r }
            &&& r.id == run
            &&& r.status == PipelineStatus::Running
        },
        PipelineStep::Open { run, project, project_path } => t == Told::nothing() && is_run_of(
            req,
            log,
            run,
            project,
            project_path,
        ) && a is OpenStream,
        PipelineStep::First { run, project, project_path } => t == Told::nothing() && is_run_of(
            req,
            log,
            run,
            project,
            project_path,
        ) && a is Send,
        PipelineStep::Mark { course, history } => {
            &&& is_run_of(req, log, course.run, course.project, course.project_path)
            &&& 1 <= course.iteration <= job.max_iterations
            &&& a == Action::UpdatePipelineRun {
                run: course.run,
                status: PipelineStatus::Running,
                stage: Some(course.stage),
                iteration: course.iteration,
            }
            &&& agrees(
                t.after(a, Event::Done(Ok(()))),
                course,
                crate::pipeline_data::records(history@),
            )
            &&& course.stage != StageType::Plan ==> t.review is None
            &&& match course.stage {
                StageType::Plan => course.iteration == t.iteration + 1 && (t == Told::nothing()
                    || t.review is Some),
                StageType::Implement => t.stage == Some(StageType::Plan) && t.plan is Some
                    && course.iteration == t.iteration,
                StageType::Review => t.stage == Some(StageType::Implement) && t.implementation
                    is Some && course.iteration == t.iteration,
            }
        },
        PipelineStep::Stage { course, running } => {
            &&& is_run_of(req, log, course.run, course.project, course.project_path)
            &&& 1 <= course.iteration <= job.max_iterations
            &&& agrees(t, course, crate::pipeline_data::records(running.job.history@))
            &&& t.review is None
            &&& is_stage_of(req, t, course, running.job)
            &&& stage_holds(log, running, a)
        },
        PipelineStep::Pretty { course, history, output } => {
            &&& is_run_of(req, log, course.run, course.project, course.project_path)
            &&& 1 <= course.iteration <= job.max_iterations
            &&& agrees(t, course, crate::pipeline_data::records(history@))
            &&& t.review is None
            &&& course.stage != StageType::Review
            &&& is_recorded(log, output@)
            &&& a matches Action::PrettyOutput { output: o }
            &&& o@ == output@
        },
        PipelineStep::Decide { course, history, output } => {
            &&& is_run_of(req, log, course.run, course.project, course.project_path)
            &&& 1 <= course.iteration <= job.max_iterations
            &&& agrees(t, course, crate::pipeline_data::records(history@))
            &&& t.review is None
            &&& course.stage == StageType::Review
            &&& is_recorded(log, output@)
            &&& a matches Action::DecideNext {
                run,
                project,
                name,
                goal,
                iteration,
                max_iterations,
                output: o,
            }
            &&& run == course.run && project == course.project && name == job.name && goal
                == job.goal
            &&& iteration == course.iteration && max_iterations == job.max_iterations
            &&& o@ == output@
        },
        PipelineStep::LoopBack { course, history, output } => {
            &&& is_run_of(req, log, course.run, course.project, course.project_path)
            &&& 1 <= course.iteration <= job.max_iterations
            &&& agrees(t, course, crate::pipeline_data::records(history@))
            &&& t.review == Some(output@)
            &&& a is Send
        },
        PipelineStep::Report { run, iteration } => a is Send && is_run(req, log, run),
        PipelineStep::MarkFailed => exists|run: Uuid, iteration: u32|
            is_run(req, log, run) && #[trigger] is_ending(
                a,
                run,
                PipelineStatus::Failed,
                iteration,
            ),
        PipelineStep::MarkEnd { run, project, status, iterations } => {
            &&& is_run(req, log, run)
            &&& is_ending(a, run, status, iterations)
            &&& ends_rightly(req, log, status, iterations)
        },
        PipelineStep::Tell { run, status, iterations } => {
            &&& status == PipelineStatus::Completed || status == PipelineStatus::Failed
            &&& a matches Action::Broadcast { notice }
            &&& notice matches crate::effects::Notice::PipelineCompleted {
                run: r,
                status: st,
                iterations: i,
                ..
            }
            &&& r == run && st == status && i == iterations
            &&& had_end(log, run, status, iterations)
        },
        PipelineStep::Last => exists|run: Uuid, status: PipelineStatus, iterations: u32|
            #[trigger] had_end(log, run, status, iterations) && (a matches Action::Send { line }
                && line.is_done(req.id, crate::pipeline::over(run, status, iterations))),
    }
}

pub open spec fn is_ending(a: Action, run: Uuid, status: PipelineStatus, iterations: u32) -> bool {
    a == Action::UpdatePipelineRun { run, status, stage: None, iteration: iterations }
}

pub open spec fn had_end(
    log: Seq<(Action, Event)>,
    run: Uuid,
    status: PipelineStatus,
    iterations: u32,
) -> bool {
    exists|ev: Event| #[trigger] had(
        log,
        Action::UpdatePipelineRun { run, status, stage: None, iteration: iterations },
        ev,
    )
}

/// Whether a run ends so rightly: it is completed exactly where that was decided after a review,
/// and has failed where the iterations ran out.
pub open spec fn ends_rightly(
    req: Request,
    log: Seq<(Action, Event)>,
    status: PipelineStatus,
    iterations: u32,
) -> bool {
    &&& log.len() > 0
    &&& if log.last().0 is DecideNext && log.last().1 == Event::Decision(
        PipelineDecision::Complete,
    ) {
        status == PipelineStatus::Completed && iterations == told(log).iteration
    } else {
        &&& status == PipelineStatus::Failed
        &&& if log.last().1 == Event::Decision(PipelineDecision::MaxIterationsReached) {
            iterations == told(log).iteration
        } else {
            iterations == rounds(req) && told(log).iteration >= rounds(req)
        }
    }
}

/// Whether the stage is what the run is in: told of the goal, and, by their JSON text, of what
/// the earlier stages of the iteration left.
pub open spec fn is_stage_of(req: Request, t: Told, course: Course, stage: StageJob) -> bool {
    &&& stage.id == req.id
    &&& Some(stage.goal@) == req.params@.text_field("goal"@)
    &&& stage.run == course.run
    &&& stage.project == course.project
    &&& stage.project_path == course.project_path
    &&& t.stage == Some(stage.stage_type)
    &&& t.iteration == stage.iteration
    &&& t.history == crate::pipeline_data::records(stage.history@)
    &&& is_text_of(stage.plan, t.plan)
    &&& is_text_of(stage.implementation, t.implementation)
    &&& stage.stage_type == StageType::Plan <==> t.plan is None
    &&& stage.stage_type == StageType::Review <==> t.implementation is Some
}

pub open spec fn is_text_of(given: Option<String>, left: Option<(OutputV, Seq<char>)>) -> bool {
    match (given, left) {
        (Some(text), Some((_, written))) => text@ == written,
        (None, None) => true,
        _ => false,
    }
}

proof fn pipeline_facts_stay(req: Request, log: Seq<(Action, Event)>)
    requires
        log.len() > 0,
    ensures
        forall|p: Project| #[trigger]
            is_project_named(req, log.drop_last(), p) ==> is_project_named(req, log, p),
        forall|run: Uuid, p: Uuid, path: String| #[trigger]
            is_run_of(req, log.drop_last(), run, p, path) ==> is_run_of(req, log, run, p, path),
        forall|run: Uuid, p: Uuid, path: String| #[trigger]
            is_run_of(req, log, run, p, path) ==> is_run(req, log, run),
        forall|run: Uuid| #[trigger]
            is_run(req, log.drop_last(), run) ==> is_run(req, log, run),
        forall|o: OutputV| #[trigger] is_recorded(log.drop_last(), o) ==> is_recorded(log, o),
        forall|run: Uuid, st: PipelineStatus, i: u32| #[trigger]
            had_end(log.drop_last(), run, st, i) ==> had_end(log, run, st, i),
{
    crate::histories::had_more(log);
    let init = log.drop_last();
    assert forall|run: Uuid, project: Uuid, path: String| #[trigger]
        is_run_of(req, init, run, project, path) implies is_run_of(
        req,
        log,
        run,
        project,
        path,
    ) by {
        let (p, r) = choose|p: Project, r: PipelineRun|
            is_project_named(req, init, p) && p.id == project && p.path == path && r.id == run
                && r.status == PipelineStatus::Running && #[trigger] is_project_named(
                req,
                init,
                p,
            ) && #[trigger] had(
                init,
                Action::InsertPipelineRun { run: r },
                Event::Done(Ok(())),
            );
        assert(is_project_named(req, log, p) && had(
            log,
            Action::InsertPipelineRun { run: r },
            Event::Done(Ok(())),
        ));
    }
}

proof fn pipeline_keeps(req: Request, log: Seq<(Action, Event)>, s: PipelineStart, a: Action)
    requires
        reaches(req, log, Next::Act(s, a)),
    ensures
        pipeline_holds(req, log, s, a),
    decreases log.len(),
{
    if log.len() > 0 {
        let before = crate::histories::before_last::<PipelineStart>(req, log, Next::Act(s, a));
        pipeline_keeps(req, log.drop_last(), before, log.last().0);
        pipeline_step(req, log, before, Next::Act(s, a));
    }
}

/// What the beginning of a round comes to.
proof fn round_begins(
    req: Request,
    log: Seq<(Action, Event)>,
    job: crate::pipeline::PipelineJob,
    run: Uuid,
    project: Uuid,
    path: String,
    iteration: int,
    history: Seq<RecordV>,
    n: Next<PipelineStart>,
)
    requires
        PipelineStart::goes_round(job, run, project, path, iteration, history, n),
        job.id == req.id,
        req.params@.text_field("project_name"@) == Some(job.project_name@),
        req.params@.text_field("name"@) == Some(job.name@),
        req.params@.text_field("goal"@) == Some(job.goal@),
        job.max_iterations == rounds(req),
        is_run_of(req, log, run, project, path),
        told(log).record() == history,
        iteration == told(log).iteration + 1,
        told(log) == Told::nothing() || told(log).review is Some,
        log.len() > 0,
        !(log.last().1 matches Event::Decision(PipelineDecision::Complete)),
        !(log.last().1 matches Event::Decision(PipelineDecision::MaxIterationsReached)),
    ensures
        n matches Next::Act(s, a) ==> pipeline_holds(req, log, s, a),
{
    if iteration <= job.max_iterations {
        assert(n is Act);
        let s = n->Act_0;
        let a = n->Act_1;
        let course = s.at->Mark_course;
        let h = s.at->Mark_history;
        assert(agrees(
            told(log).after(a, Event::Done(Ok(()))),
            course,
            crate::pipeline_data::records(h@),
        ));
        assert(course.stage == StageType::Plan);
        assert(told(log).stage is None || told(log).review is Some);
        assert(pipeline_holds(req, log, s, a));
    } else {
        let a = n->Act_1;
        pipeline_facts_stay(req, log);
        assert(is_run(req, log, run));
        assert(is_ending(a, run, PipelineStatus::Failed, job.max_iterations));
        assert(ends_rightly(req, log, PipelineStatus::Failed, job.max_iterations));
        assert(pipeline_holds(req, log, n->Act_0, a));
    }
}

proof fn pipeline_step(
    req: Request,
    log: Seq<(Action, Event)>,
    before: PipelineStart,
    n: Next<PipelineStart>,
)
    requires
        log.len() > 0,
        pipeline_holds(req, log.drop_last(), before, log.last().0),
        before.follows(log.last().1, n),
    ensures
        n matches Next::Act(s, a) ==> pipeline_holds(req, log, s, a),
{
    let (b, ev) = log.last();
    crate::histories::had_more(log);
    pipeline_facts_stay(req, log);
    match (before.at, ev) {
        (PipelineStep::Project, Event::MaybeProject(Ok(Some(project)))) => {
            assert(had(log, b, ev));
        },
        (PipelineStep::Active { project }, Event::MaybePipeline(Ok(None))) => {
            assert(had(log, b, ev));
        },
        (PipelineStep::Insert { run, project }, Event::Done(Ok(_))) => {
            let r = b->InsertPipelineRun_run;
            assert(had(log, Action::InsertPipelineRun { run: r }, Event::Done(Ok(()))));
            assert(is_project_named(req, log, project));
        },
        (PipelineStep::First { run, project, project_path }, _) => {
            assert(told(log) == Told::nothing());
            assert(is_run_of(req, log, run, project, project_path));
            round_begins(
                req,
                log,
                before.job,
                run,
                project,
                project_path,
                1,
                Seq::empty(),
                n,
            );
        },
        (PipelineStep::Mark { course, history }, Event::Done(_)) => {
            assert(told(log) == told(log.drop_last()).after(b, Event::Done(Ok(()))));
        },
        (PipelineStep::Stage { course, running }, _) => {
            let m = choose|m: StageNext| #[trigger]
                running.follows(ev, m) && PipelineStart::carries(before.job, course, m, n);
            law_a_stage_is_told_of_the_earlier_ones(log, running, m);
            assert(told(log) == told(log.drop_last()));
            assert(is_run_of(req, log, course.run, course.project, course.project_path));
        },
        (PipelineStep::Decide { course, history, output }, Event::Decision(_)) => {
            assert(is_run_of(req, log, course.run, course.project, course.project_path));
            let t = told(log);
            assert(t.review == Some(output@));
            let history = crate::pipeline_data::records(history@);
            assert(t.record() == history.push(crate::pipeline::record_of(course, output)));
            if ev == Event::Decision(PipelineDecision::StartStage) {
                round_begins(
                    req,
                    log,
                    before.job,
                    course.run,
                    course.project,
                    course.project_path,
                    course.iteration + 1,
                    t.record(),
                    n,
                );
            }
        },
        (PipelineStep::LoopBack { course, history, output }, Event::Done(_)) => {
            assert(is_run_of(req, log, course.run, course.project, course.project_path));
            assert(told(log) == told(log.drop_last()));
            let history = crate::pipeline_data::records(history@);
            assert(told(log).record() == history.push(
                crate::pipeline::record_of(course, output),
            ));
            round_begins(
                req,
                log,
                before.job,
                course.run,
                course.project,
                course.project_path,
                course.iteration + 1,
                told(log).record(),
                n,
            );
        },
        (PipelineStep::Report { run, iteration }, Event::Done(_)) => {
            assert(is_run(req, log, run));
            assert(n matches Next::Act(_, a) && is_ending(
                a,
                run,
                PipelineStatus::Failed,
                iteration,
            ));
        },
        (PipelineStep::MarkEnd { run, project, status, iterations }, Event::Done(_)) => {
            assert(had(
                log,
                Action::UpdatePipelineRun { run, status, stage: None, iteration: iterations },
                ev,
            ));
            assert(had_end(log, run, status, iterations));
        },
        (PipelineStep::Tell { run, status, iterations }, Event::Done(_)) => {
            assert(had_end(log, run, status, iterations));
        },
        _ => {},
    }
}

/// Whether the prompt is filled as what was told of the run has it: the implementation is told of
/// the plan of its iteration, and the review of both.
pub open spec fn tells_the_stage(
    req: Request,
    log: Seq<(Action, Event)>,
    vars: Seq<TemplateVar>,
) -> bool {
    let t = told(log);
    let v = crate::pipeline_data::var_views(vars);
    &&& v.len() >= 3
    &&& Some(v[0].1) == req.params@.text_field("goal"@)
    &&& v[0].0 == "goal"@
    &&& v[1] == ("iteration"@, crate::text::decimal(t.iteration as nat))
    &&& v[2].0 == "previous_context"@
    &&& if t.history.len() == 0 {
        v[2].1 == ""@
    } else {
        exists|h: Vec<IterationRecord>, text: String| #[trigger]
            had(log, Action::PrettyHistory { history: h }, Event::Written(text))
                && crate::pipeline_data::records(h@) == t.history && v[2].1
                == "## Previous Iterations\n\n```json\n"@ + text@ + "\n```"@
    }
    &&& match t.stage {
        Some(StageType::Plan) => v.len() == 3,
        Some(StageType::Implement) => v.len() == 4 && t.plan is Some && v[3] == (
            "plan_json"@,
            (t.plan->0).1,
        ),
        Some(StageType::Review) => v.len() == 5 && t.plan is Some && t.implementation is Some
            && v[3] == ("plan_json"@, (t.plan->0).1) && v[4] == (
            "implementation_json"@,
            (t.implementation->0).1,
        ),
        None => false,
    }
}

/// What a pipeline does. Its run is made only where none is under way, for the goal of the
/// request. A round is a plan, its implementation and their review, each stage being begun only
/// once the one before it has left something; the next round begins only after a review, and
/// there are no more rounds than allowed. Each stage is told the goal, what the earlier rounds
/// left, and what the earlier stages of its round left. What is decided on is what the review
/// left. The run is completed exactly if that is decided, and has otherwise failed.
pub proof fn law_what_a_pipeline_does(
    req: Request,
    log: Seq<(Action, Event)>,
    s: PipelineStart,
    a: Action,
)
    requires
        reaches(req, log, Next::Act(s, a)),
    ensures
        a matches Action::NewPipelineRun { project, name, goal, max_iterations } ==> {
            &&& had(log, Action::GetActiveRun { project }, Event::MaybePipeline(Ok(None)))
            &&& req.params@.text_field("name"@) == Some(name@)
            &&& req.params@.text_field("goal"@) == Some(goal@)
            &&& max_iterations == rounds(req)
            &&& exists|p: Project| #[trigger] is_project_named(req, log, p) && p.id == project
        },
        a matches Action::NewStage { run, stage_type, iteration, goal, history } ==> {
            &&& is_run(req, log, run)
            &&& told(log).stage == Some(stage_type)
            &&& told(log).iteration == iteration
            &&& 1 <= iteration <= rounds(req)
            &&& req.params@.text_field("goal"@) == Some(goal@)
            &&& crate::pipeline_data::records(history@) == told(log).history
        },
        a matches Action::RenderTemplate { vars, .. } ==> tells_the_stage(req, log, vars@),
        a matches Action::SpawnClaude { config } ==> exists|p: Project, stage: StageJob|
            #[trigger] is_project_named(req, log, p) && config.working_dir == Some(p.path)
                && told(log).stage == Some(stage.stage_type) && #[trigger] is_prompted(
                log,
                stage,
                config,
            ),
        a matches Action::PrettyOutput { output } ==> (told(log).stage == Some(StageType::Plan)
            || told(log).stage == Some(StageType::Implement)) && is_recorded(log, output@),
        a matches Action::DecideNext { run, name, goal, iteration, max_iterations, output, .. }
            ==> {
            &&& is_run(req, log, run)
            &&& told(log).stage == Some(StageType::Review)
            &&& told(log).iteration == iteration
            &&& req.params@.text_field("name"@) == Some(name@)
            &&& req.params@.text_field("goal"@) == Some(goal@)
            &&& max_iterations == rounds(req)
            &&& is_recorded(log, output@)
        },
        a matches Action::UpdatePipelineRun { run, status, stage, iteration } ==> {
            &&& is_run(req, log, run)
            &&& match stage {
                Some(stage) => status == PipelineStatus::Running && 1 <= iteration <= rounds(req)
                    && follows_rightly(told(log), stage, iteration),
                None => ends_rightly(req, log, status, iteration) || (status
                    == PipelineStatus::Failed && log.last().0 is Send),
            }
        },
        !(a is InsertWorkItem || a is UpdateItemStatus || a is DeleteItems || a is SpawnAgent || a
            is GitReset),
{
    pipeline_keeps(req, log, s, a);
    pipeline_facts_now(req, log);
    match s.at {
        PipelineStep::Stage { course, running } => {
            let job = running.job;
            if a is SpawnClaude {
                let (p, r) = choose|p: Project, r: PipelineRun|
                    is_project_named(req, log, p) && p.id == course.project && p.path
                        == course.project_path && r.id == course.run && r.status
                        == PipelineStatus::Running && #[trigger] is_project_named(req, log, p)
                        && #[trigger] had(
                        log,
                        Action::InsertPipelineRun { run: r },
                        Event::Done(Ok(())),
                    );
                assert(is_project_named(req, log, p));
                assert(is_prompted(log, job, a->SpawnClaude_config));
            }
            assert(told(log).history.len() == job.history@.len());
        },
        PipelineStep::MarkFailed => {
            if log.len() > 0 {
                let before = crate::histories::before_last::<PipelineStart>(
                    req,
                    log,
                    Next::Act(s, a),
                );
                pipeline_keeps(req, log.drop_last(), before, log.last().0);
            }
        },
        _ => {},
    }
}

/// Whether the stage follows what was told: a plan the review before it, if there was one, an
/// implementation the plan that it carries out, and a review what it looks at.
pub open spec fn follows_rightly(t: Told, stage: StageType, iteration: u32) -> bool {
    match stage {
        StageType::Plan => iteration == t.iteration + 1 && (t.iteration > 0 ==> t.review is Some),
        StageType::Implement => iteration == t.iteration && t.stage == Some(StageType::Plan)
            && t.plan is Some,
        StageType::Review => iteration == t.iteration && t.stage == Some(StageType::Implement)
            && t.plan is Some && t.implementation is Some,
    }
}

proof fn pipeline_facts_now(req: Request, log: Seq<(Action, Event)>)
    ensures
        forall|run: Uuid, p: Uuid, path: String| #[trigger]
            is_run_of(req, log, run, p, path) ==> is_run(req, log, run),
{
}

/// What a pipeline comes to: it is refused where a run is under way; after a plan its
/// implementation begins, and after that its review; and what is decided then is done.
pub proof fn law_what_a_pipeline_comes_to(
    req: Request,
    log: Seq<(Action, Event)>,
    n: Next<PipelineStart>,
)
    requires
        reaches(req, log, n),
    ensures
        log.len() > 0 ==> (log.last() matches (
            Action::GetActiveRun { .. },
            Event::MaybePipeline(Ok(r)),
        ) ==> (n is Act <==> r is None) && (r is Some ==> (n matches Next::Reply(e) && e.status
            == ResponseStatus::Error))),
        log.len() > 0 && log.last().0 is PrettyOutput ==> (n matches Next::Act(
            _,
            Action::UpdatePipelineRun { stage, iteration, .. },
        ) && iteration == told(log).iteration && stage == (if told(log).implementation is Some {
            Some(StageType::Review)
        } else {
            Some(StageType::Implement)
        })),
        log.len() > 0 ==> (log.last() matches (Action::DecideNext { run, .. }, Event::Decision(d))
            ==> (n matches Next::Act(_, a) && match d {
            PipelineDecision::Complete => a == (Action::UpdatePipelineRun {
                run,
                status: PipelineStatus::Completed,
                stage: None,
                iteration: told(log).iteration,
            }),
            PipelineDecision::MaxIterationsReached => a == (Action::UpdatePipelineRun {
                run,
                status: PipelineStatus::Failed,
                stage: None,
                iteration: told(log).iteration,
            }),
            PipelineDecision::LoopBack { .. } => a is Send,
            PipelineDecision::StartStage => a matches Action::UpdatePipelineRun { stage, status, .. }
                && if told(log).iteration < rounds(req) {
                stage == Some(StageType::Plan)
            } else {
                status == PipelineStatus::Failed
            },
        })),
        n matches Next::Reply(r) ==> r.id == req.id && r.status == ResponseStatus::Error,
{
    if log.len() > 0 {
        let (b, ev) = log.last();
        let before = crate::histories::before_last::<PipelineStart>(req, log, n);
        pipeline_keeps(req, log.drop_last(), before, b);
        match (before.at, ev) {
            (PipelineStep::Stage { course, running }, _) => {
                let m = choose|m: StageNext| #[trigger]
                    running.follows(ev, m) && PipelineStart::carries(before.job, course, m, n);
            },
            _ => {},
        }
    }
}

} // verus!
