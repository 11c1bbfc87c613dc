//! `pipeline.start`: iterations of plan, implementation and review towards a goal.
use vstd::prelude::*;
use crate::claude::typed_json;
use crate::effects::{missing_parameter, no_project, Action, Event, Next, Notice, Run};
use crate::ident::Uuid;
use crate::json::{Json, JsonV};
use crate::model::Project;
use crate::pipeline_data::{
    IterationRecord, PipelineDecision, PipelineRun, PipelineStatus, StageOutput, StageType,
};
use crate::protocol::{Request, StreamingResponseLine};
use crate::stage_run::{StageJob, StageNext, StageRun};
use crate::text::cat3;

verus! {

/// A `pipeline.start` request.
pub struct PipelineJob {
    pub id: String,
    pub project_name: String,
    pub name: String,
    pub goal: String,
    pub max_iterations: u32,
}

/// What a stage left, with its JSON text.
pub struct Left {
    pub output: StageOutput,
    pub text: String,
}

/// Where a run stands: the iteration, the stage, and what the earlier stages of the iteration
/// left.
pub struct Course {
    pub run: Uuid,
    pub project: Uuid,
    pub project_path: String,
    pub iteration: u32,
    pub stage: StageType,
    pub plan: Option<Left>,
    pub implementation: Option<Left>,
}

#[allow(inconsistent_fields)]
pub enum PipelineStep {
    Project,
    Active { project: Project },
    New { project: Project },
    Insert { run: Uuid, project: Project },
    Open { run: Uuid, project: Uuid, project_path: String },
    First { run: Uuid, project: Uuid, project_path: String },
    /// The run is marked as being in the stage.
    Mark { course: Course, history: Vec<IterationRecord> },
    Stage { course: Course, running: StageRun },
    Pretty { course: Course, history: Vec<IterationRecord>, output: StageOutput },
    Decide { course: Course, history: Vec<IterationRecord>, output: StageOutput },
    LoopBack { course: Course, history: Vec<IterationRecord>, output: StageOutput },
    // A stage failed.
    Report { run: Uuid, iteration: u32 },
    MarkFailed,
    // The run is over.
    MarkEnd { run: Uuid, project: Uuid, status: PipelineStatus, iterations: u32 },
    Tell { run: Uuid, status: PipelineStatus, iterations: u32 },
    Last,
}

pub type PipelineStart = Run<PipelineJob, PipelineStep>;

/// How often a pipeline goes round, unless the request says it.
pub const DEFAULT_ITERATIONS: u64 = 5;

pub open spec fn left_text(left: Option<Left>) -> Option<Seq<char>> {
    match left {
        Some(l) => Some(l.text@),
        None => None,
    }
}

fn text_of(left: &Option<Left>) -> (r: Option<String>)
    ensures
        crate::text::is_text(r, left_text(*left)),
{
    match left {
        Some(l) => Some(l.text.clone()),
        None => None,
    }
}

/// The first line of the stream.
pub open spec fn started(job: PipelineJob, run: Uuid) -> JsonV {
    JsonV::object().with("pipeline_run_id"@, JsonV::Str(run.text())).with(
        "name"@,
        JsonV::Str(job.name@),
    ).with("status"@, JsonV::Str("running"@)).with(
        "max_iterations"@,
        JsonV::Int(job.max_iterations as int),
    )
}

/// The last line of the stream: a run that is not completed went round too often.
pub open spec fn over(run: Uuid, status: PipelineStatus, iterations: u32) -> JsonV {
    let data = JsonV::object().with("pipeline_run_id"@, JsonV::Str(run.text())).with(
        "status"@,
        JsonV::Str(status.name()),
    );
    let data = if status == PipelineStatus::Completed {
        data
    } else {
        data.with("reason"@, JsonV::Str("max_iterations_reached"@))
    };
    data.with("iterations"@, JsonV::Int(iterations as int))
}

/// What an iteration leaves for those after it.
pub open spec fn record_of(course: Course, review: StageOutput) -> crate::pipeline_data::RecordV {
    crate::pipeline_data::RecordV {
        iteration: course.iteration,
        plan: match course.plan {
            Some(l) => crate::pipeline_data::optional_value(l.output.plan),
            None => None,
        },
        implementation: match course.implementation {
            Some(l) => crate::pipeline_data::optional_value(l.output.implementation),
            None => None,
        },
        review: crate::pipeline_data::optional_review(review.review),
    }
}

impl Run<PipelineJob, PipelineStep> {
    pub open spec fn accepts(self, ev: Event) -> bool {
        match self.at {
            PipelineStep::Project => ev is MaybeProject,
            PipelineStep::Active { .. } => ev is MaybePipeline,
            PipelineStep::New { .. } => ev is Pipeline,
            PipelineStep::Stage { running, .. } => running.accepts(ev) && running.job.id
                == self.job.id,
            PipelineStep::Pretty { .. } => ev is Written,
            PipelineStep::Decide { .. } => ev is Decision,
            _ => ev is Done,
        }
    }

    pub open spec fn begins(req: Request, n: Next<PipelineStart>) -> bool {
        let p = req.params@;
        match (p.text_field("project_name"@), p.text_field("name"@), p.text_field("goal"@)) {
            (None, _, _) => n.fails(req.id, crate::effects::missing_message("project_name"@)),
            (_, None, _) => n.fails(req.id, crate::effects::missing_message("name"@)),
            (_, _, None) => n.fails(req.id, crate::effects::missing_message("goal"@)),
            (Some(project_name), Some(name), Some(goal)) => {
                &&& n matches Next::Act(s, a)
                &&& n.goes(
                    s.job,
                    PipelineStep::Project,
                    Action::GetProjectByName { name: s.job.project_name },
                )
                &&& s.job.id == req.id
                &&& s.job.project_name@ == project_name
                &&& s.job.name@ == name
                &&& s.job.goal@ == goal
                &&& s.job.max_iterations == (match p.natural_field("max_iterations"@) {
                    Some(m) => m,
                    None => DEFAULT_ITERATIONS,
                }) as u32
            },
        }
    }

    pub fn start(req: Request) -> (n: Next<PipelineStart>)
        ensures
            PipelineStart::begins(req, n),
            n matches Next::Act(s, a) ==> forall|e: Event| a.answered_by(e) ==> s.accepts(e),
    {
        let project_name = match req.params.str_field("project_name") {
            Some(v) => v,
            None => return missing_parameter(req.id, "project_name"),
        };
        let name = match req.params.str_field("name") {
            Some(v) => v,
            None => return missing_parameter(req.id, "name"),
        };
        let goal = match req.params.str_field("goal") {
            Some(v) => v,
            None => return missing_parameter(req.id, "goal"),
        };
        let max: u64 = match req.params.u64_field("max_iterations") {
            Some(m) => m,
            None => DEFAULT_ITERATIONS,
        };
        let asked = project_name.clone();
        Next::go(
            PipelineJob { id: req.id, project_name, name, goal, max_iterations: max as u32 },
            PipelineStep::Project,
            Action::GetProjectByName { name: asked },
        )
    }

    /// The run is over.
    pub open spec fn ends(
        job: PipelineJob,
        run: Uuid,
        project: Uuid,
        status: PipelineStatus,
        iterations: u32,
        n: Next<PipelineStart>,
    ) -> bool {
        n.goes(
            job,
            PipelineStep::MarkEnd { run, project, status, iterations },
            Action::UpdatePipelineRun { run, status, stage: None, iteration: iterations },
        )
    }

    /// Begins the iteration with a plan, unless there were as many as are allowed.
    pub open spec fn goes_round(
        job: PipelineJob,
        run: Uuid,
        project: Uuid,
        project_path: String,
        iteration: int,
        history: Seq<crate::pipeline_data::RecordV>,
        n: Next<PipelineStart>,
    ) -> bool {
        if iteration <= job.max_iterations {
            &&& n matches Next::Act(s, a)
            &&& s.at matches PipelineStep::Mark { course, history: h }
            &&& course == Course {
                run,
                project,
                project_path,
                iteration: iteration as u32,
                stage: StageType::Plan,
                plan: None,
                implementation: None,
            }
            &&& crate::pipeline_data::records(h@) == history
            &&& n.goes(
                job,
                s.at,
                Action::UpdatePipelineRun {
                    run,
                    status: PipelineStatus::Running,
                    stage: Some(StageType::Plan),
                    iteration: iteration as u32,
                },
            )
        } else {
            PipelineStart::ends(
                job,
                run,
                project,
                PipelineStatus::Failed,
                job.max_iterations,
                n,
            )
        }
    }

    /// Goes round again, and remembers what this iteration left.
    pub open spec fn loops(
        job: PipelineJob,
        course: Course,
        history: Seq<crate::pipeline_data::RecordV>,
        review: StageOutput,
        n: Next<PipelineStart>,
    ) -> bool {
        PipelineStart::goes_round(
            job,
            course.run,
            course.project,
            course.project_path,
            course.iteration + 1,
            history.push(record_of(course, review)),
            n,
        )
    }

    /// The stage that is run: it is told what the earlier ones left.
    pub open spec fn stages(
        job: PipelineJob,
        course: Course,
        history: Vec<IterationRecord>,
        stage: StageJob,
    ) -> bool {
        &&& stage.id == job.id
        &&& stage.run == course.run
        &&& stage.project == course.project
        &&& stage.project_path == course.project_path
        &&& stage.goal == job.goal
        &&& stage.stage_type == course.stage
        &&& stage.iteration == course.iteration
        &&& stage.history == history
        &&& crate::text::is_text(stage.plan, left_text(course.plan))
        &&& crate::text::is_text(stage.implementation, left_text(course.implementation))
    }

    /// What follows from a step in a stage: a plan or an implementation is written down for
    /// the next stage, and after a review it is decided how to go on.
    pub open spec fn carries(
        job: PipelineJob,
        course: Course,
        m: StageNext,
        n: Next<PipelineStart>,
    ) -> bool {
        match m {
            StageNext::Act(running, action) => n.goes(
                job,
                PipelineStep::Stage { course, running },
                action,
            ),
            StageNext::Finished(stage, output, _) => if course.stage == StageType::Review {
                &&& n matches Next::Act(
                    s,
                    Action::DecideNext {
                        run,
                        project,
                        name,
                        goal,
                        iteration,
                        max_iterations,
                        output: o,
                    },
                )
                &&& run == course.run && project == course.project
                &&& name == job.name && goal == job.goal
                &&& iteration == course.iteration && max_iterations == job.max_iterations
                &&& o@ == output@
                &&& s == Run {
                    job,
                    at: PipelineStep::Decide { course, history: stage.history, output },
                }
            } else {
                &&& n matches Next::Act(s, Action::PrettyOutput { output: o })
                &&& o@ == output@
                &&& s == Run {
                    job,
                    at: PipelineStep::Pretty { course, history: stage.history, output },
                }
            },
            StageNext::Failed(_, message) => n.reports(
                job,
                PipelineStep::Report { run: course.run, iteration: course.iteration },
                job.id,
                course.stage.name() + " stage failed: "@ + message@,
            ),
        }
    }

    pub open spec fn follows(self, ev: Event, n: Next<PipelineStart>) -> bool {
        let job = self.job;
        match (self.at, ev) {
            (PipelineStep::Project, Event::MaybeProject(r)) => match r {
                Err(e) => n.fails(job.id, crate::effects::database_message(e@)),
                Ok(None) => n.fails(job.id, crate::effects::no_project_message(job.project_name@)),
                Ok(Some(project)) => n.goes(
                    job,
                    PipelineStep::Active { project },
                    Action::GetActiveRun { project: project.id },
                ),
            },
            (PipelineStep::Active { project }, Event::MaybePipeline(r)) => match r {
                Err(e) => n.fails(job.id, crate::effects::database_message(e@)),
                Ok(Some(_)) => n.fails(
                    job.id,
                    "INVALID_STATE: a pipeline run is already active for this project"@,
                ),
                Ok(None) => n.goes(
                    job,
                    PipelineStep::New { project },
                    Action::NewPipelineRun {
                        project: project.id,
                        name: job.name,
                        goal: job.goal,
                        max_iterations: job.max_iterations,
                    },
                ),
            },
            (PipelineStep::New { project }, Event::Pipeline(run)) => n.goes(
                job,
                PipelineStep::Insert { run: run.id, project },
                Action::InsertPipelineRun {
                    run: PipelineRun {
                        status: PipelineStatus::Running,
                        iteration: 1,
                        current_stage: Some(StageType::Plan),
                        ..run
                    },
                },
            ),
            (PipelineStep::Insert { run, project }, Event::Done(r)) => match r {
                Err(e) => n.fails(job.id, crate::effects::database_message(e@)),
                Ok(_) => n.goes(
                    job,
                    PipelineStep::Open { run, project: project.id, project_path: project.path },
                    Action::OpenStream,
                ),
            },
            (PipelineStep::Open { run, project, project_path }, Event::Done(_)) => n.shows(
                job,
                PipelineStep::First { run, project, project_path },
                job.id,
                started(job, run),
            ),
            (PipelineStep::First { run, project, project_path }, Event::Done(_)) => {
                PipelineStart::goes_round(
                    job,
                    run,
                    project,
                    project_path,
                    1,
                    Seq::empty(),
                    n,
                )
            },
            (PipelineStep::Mark { course, history }, Event::Done(_)) => {
                &&& n matches Next::Act(s, a)
                &&& s.job == job
                &&& s.at matches PipelineStep::Stage { course: c, running }
                &&& c == course
                &&& PipelineStart::stages(job, course, history, running.job)
                &&& StageRun::begins(running.job, StageNext::Act(running, a))
            },
            (PipelineStep::Stage { course, running }, _) => exists|m: StageNext| #[trigger]
                running.follows(ev, m) && PipelineStart::carries(job, course, m, n),
            (PipelineStep::Pretty { course, history, output }, Event::Written(text)) => {
                let left = Some(Left { output, text });
                let next = if course.stage == StageType::Plan {
                    Course { stage: StageType::Implement, plan: left, ..course }
                } else {
                    Course { stage: StageType::Review, implementation: left, ..course }
                };
                n.goes(
                    job,
                    PipelineStep::Mark { course: next, history },
                    Action::UpdatePipelineRun {
                        run: course.run,
                        status: PipelineStatus::Running,
                        stage: Some(next.stage),
                        iteration: course.iteration,
                    },
                )
            },
            (PipelineStep::Decide { course, history, output }, Event::Decision(d)) => match d {
                PipelineDecision::Complete => PipelineStart::ends(
                    job,
                    course.run,
                    course.project,
                    PipelineStatus::Completed,
                    course.iteration,
                    n,
                ),
                PipelineDecision::MaxIterationsReached => PipelineStart::ends(
                    job,
                    course.run,
                    course.project,
                    PipelineStatus::Failed,
                    course.iteration,
                    n,
                ),
                PipelineDecision::LoopBack { feedback } => n.shows(
                    job,
                    PipelineStep::LoopBack { course, history, output },
                    job.id,
                    crate::claude::typed("loop_back"@).with(
                        "iteration"@,
                        JsonV::Int(course.iteration as int),
                    ).with("feedback"@, JsonV::Str(feedback@)),
                ),
                PipelineDecision::StartStage => PipelineStart::loops(
                    job,
                    course,
                    crate::pipeline_data::records(history@),
                    output,
                    n,
                ),
            },
            (PipelineStep::LoopBack { course, history, output }, Event::Done(_)) => {
                PipelineStart::loops(
                    job,
                    course,
                    crate::pipeline_data::records(history@),
                    output,
                    n,
                )
            },
            (PipelineStep::Report { run, iteration }, Event::Done(_)) => n.goes(
                job,
                PipelineStep::MarkFailed,
                Action::UpdatePipelineRun {
                    run,
                    status: PipelineStatus::Failed,
                    stage: None,
                    iteration,
                },
            ),
            (PipelineStep::MarkFailed, Event::Done(_)) => n is End,
            (PipelineStep::MarkEnd { run, project, status, iterations }, Event::Done(_)) => n.goes(
                job,
                PipelineStep::Tell { run, status, iterations },
                Action::Broadcast {
                    notice: Notice::PipelineCompleted { run, project, status, iterations },
                },
            ),
            (PipelineStep::Tell { run, status, iterations }, Event::Done(_)) => n.finishes(
                job,
                PipelineStep::Last,
                job.id,
                over(run, status, iterations),
            ),
            (PipelineStep::Last, Event::Done(_)) => n is End,
            _ => false,
        }
    }

    pub fn step(self, ev: Event) -> (n: Next<PipelineStart>)
        requires
            self.accepts(ev),
        ensures
            self.follows(ev, n),
            n matches Next::Act(s, a) ==> forall|e: Event| a.answered_by(e) ==> s.accepts(e),
    {
        let Run { job, at } = self;
        match (at, ev) {
            (PipelineStep::Project, Event::MaybeProject(r)) => match r {
                Err(e) => Next::database_error(job.id, e.as_str()),
                Ok(None) => no_project(job.id, job.project_name.as_str()),
                Ok(Some(project)) => {
                    let asked = project.id;
                    Next::go(
                        job,
                        PipelineStep::Active { project },
                        Action::GetActiveRun { project: asked },
                    )
                },
            },
            (PipelineStep::Active { project }, Event::MaybePipeline(r)) => match r {
                Err(e) => Next::database_error(job.id, e.as_str()),
                Ok(Some(_)) => Next::fail(
                    job.id,
                    "INVALID_STATE: a pipeline run is already active for this project",
                ),
                Ok(None) => {
                    let action = Action::NewPipelineRun {
                        project: project.id,
                        name: job.name.clone(),
                        goal: job.goal.clone(),
                        max_iterations: job.max_iterations,
                    };
                    Next::go(job, PipelineStep::New { project }, action)
                },
            },
            (PipelineStep::New { project }, Event::Pipeline(run)) => {
                let id = run.id;
                let mut run = run;
                run.status = PipelineStatus::Running;
                run.iteration = 1;
                run.current_stage = Some(StageType::Plan);
                Next::go(
                    job,
                    PipelineStep::Insert { run: id, project },
                    Action::InsertPipelineRun { run },
                )
            },
            (PipelineStep::Insert { run, project }, Event::Done(r)) => match r {
                Err(e) => Next::database_error(job.id, e.as_str()),
                Ok(_) => Next::go(
                    job,
                    PipelineStep::Open { run, project: project.id, project_path: project.path },
                    Action::OpenStream,
                ),
            },
            (PipelineStep::Open { run, project, project_path }, Event::Done(_)) => {
                let data = Json::object().with("pipeline_run_id", Json::Str(run.to_text())).with(
                    "name",
                    Json::Str(job.name.clone()),
                ).with("status", Json::text("running")).with(
                    "max_iterations",
                    Json::U64(job.max_iterations as u64),
                );
                let line = StreamingResponseLine::data(job.id.clone(), data);
                Next::go(
                    job,
                    PipelineStep::First { run, project, project_path },
                    Action::Send { line },
                )
            },
            (PipelineStep::First { run, project, project_path }, Event::Done(_)) => {
                let history: Vec<IterationRecord> = Vec::new();
                assert(crate::pipeline_data::records(history@) =~= Seq::empty());
                go_round(job, run, project, project_path, 0, history)
            },
            (PipelineStep::Mark { course, history }, Event::Done(_)) => {
                let stage = StageJob {
                    id: job.id.clone(),
                    run: course.run,
                    project: course.project,
                    project_path: course.project_path.clone(),
                    goal: job.goal.clone(),
                    stage_type: course.stage,
                    iteration: course.iteration,
                    history,
                    plan: text_of(&course.plan),
                    implementation: text_of(&course.implementation),
                };
                match StageRun::start(stage) {
                    StageNext::Act(running, action) => Next::go(
                        job,
                        PipelineStep::Stage { course, running },
                        action,
                    ),
                    _ => Next::End,
                }
            },
            (PipelineStep::Stage { course, running }, ev) => {
                match running.step(ev) {
                    StageNext::Act(running, action) => Next::go(
                        job,
                        PipelineStep::Stage { course, running },
                        action,
                    ),
                    StageNext::Finished(stage, output, _) => {
                        let asked = output.copy();
                        if course.stage == StageType::Review {
                            let action = Action::DecideNext {
                                run: course.run,
                                project: course.project,
                                name: job.name.clone(),
                                goal: job.goal.clone(),
                                iteration: course.iteration,
                                max_iterations: job.max_iterations,
                                output: asked,
                            };
                            Next::go(
                                job,
                                PipelineStep::Decide { course, history: stage.history, output },
                                action,
                            )
                        } else {
                            Next::go(
                                job,
                                PipelineStep::Pretty { course, history: stage.history, output },
                                Action::PrettyOutput { output: asked },
                            )
                        }
                    },
                    StageNext::Failed(_, message) => {
                        let line = StreamingResponseLine::error(
                            job.id.clone(),
                            cat3(
                                course.stage.as_str(),
                                " stage failed: ",
                                message.as_str(),
                            ).as_str(),
                        );
                        Next::go(
                            job,
                            PipelineStep::Report { run: course.run, iteration: course.iteration },
                            Action::Send { line },
                        )
                    },
                }
            },
            (PipelineStep::Pretty { course, history, output }, Event::Written(text)) => {
                let mut course = course;
                let left = Some(Left { output, text });
                if course.stage == StageType::Plan {
                    course.stage = StageType::Implement;
                    course.plan = left;
                } else {
                    course.stage = StageType::Review;
                    course.implementation = left;
                }
                let action = Action::UpdatePipelineRun {
                    run: course.run,
                    status: PipelineStatus::Running,
                    stage: Some(course.stage),
                    iteration: course.iteration,
                };
                Next::go(job, PipelineStep::Mark { course, history }, action)
            },
            (PipelineStep::Decide { course, history, output }, Event::Decision(d)) => match d {
                PipelineDecision::Complete => end(
                    job,
                    course.run,
                    course.project,
                    PipelineStatus::Completed,
                    course.iteration,
                ),
                PipelineDecision::MaxIterationsReached => end(
                    job,
                    course.run,
                    course.project,
                    PipelineStatus::Failed,
                    course.iteration,
                ),
                PipelineDecision::LoopBack { feedback } => {
                    let data = typed_json("loop_back").with(
                        "iteration",
                        Json::U64(course.iteration as u64),
                    ).with("feedback", Json::Str(feedback));
                    let line = StreamingResponseLine::data(job.id.clone(), data);
                    Next::go(
                        job,
                        PipelineStep::LoopBack { course, history, output },
                        Action::Send { line },
                    )
                },
                PipelineDecision::StartStage => loop_again(job, course, history, output),
            },
            (PipelineStep::LoopBack { course, history, output }, Event::Done(_)) => {
                loop_again(job, course, history, output)
            },
            (PipelineStep::Report { run, iteration }, Event::Done(_)) => Next::go(
                job,
                PipelineStep::MarkFailed,
                Action::UpdatePipelineRun {
                    run,
                    status: PipelineStatus::Failed,
                    stage: None,
                    iteration,
                },
            ),
            (PipelineStep::MarkEnd { run, project, status, iterations }, Event::Done(_)) => {
                let notice = Notice::PipelineCompleted { run, project, status, iterations };
                Next::go(
                    job,
                    PipelineStep::Tell { run, status, iterations },
                    Action::Broadcast { notice },
                )
            },
            (PipelineStep::Tell { run, status, iterations }, Event::Done(_)) => {
                let mut data = Json::object().with(
                    "pipeline_run_id",
                    Json::Str(run.to_text()),
                ).with("status", Json::text(status.as_str()));
                if status != PipelineStatus::Completed {
                    data = data.with("reason", Json::text("max_iterations_reached"));
                }
                let line = StreamingResponseLine::done(
                    job.id.clone(),
                    data.with("iterations", Json::U64(iterations as u64)),
                );
                Next::go(job, PipelineStep::Last, Action::Send { line })
            },
            _ => Next::End,
        }
    }
}

fn end(
    job: PipelineJob,
    run: Uuid,
    project: Uuid,
    status: PipelineStatus,
    iterations: u32,
) -> (n: Next<PipelineStart>)
    ensures
        PipelineStart::ends(job, run, project, status, iterations, n),
{
    Next::go(
        job,
        PipelineStep::MarkEnd { run, project, status, iterations },
        Action::UpdatePipelineRun { run, status, stage: None, iteration: iterations },
    )
}

/// Goes round after the iteration `before`.
fn go_round(
    job: PipelineJob,
    run: Uuid,
    project: Uuid,
    project_path: String,
    before: u32,
    history: Vec<IterationRecord>,
) -> (n: Next<PipelineStart>)
    ensures
        PipelineStart::goes_round(
            job,
            run,
            project,
            project_path,
            before + 1,
            crate::pipeline_data::records(history@),
            n,
        ),
        n matches Next::Act(s, a) ==> forall|e: Event| a.answered_by(e) ==> s.accepts(e),
{
    if before >= job.max_iterations {
        let max = job.max_iterations;
        return end(job, run, project, PipelineStatus::Failed, max);
    }
    let iteration: u32 = before + 1;
    let course = Course {
        run,
        project,
        project_path,
        iteration,
        stage: StageType::Plan,
        plan: None,
        implementation: None,
    };
    Next::go(
        job,
        PipelineStep::Mark { course, history },
        Action::UpdatePipelineRun {
            run,
            status: PipelineStatus::Running,
            stage: Some(StageType::Plan),
            iteration,
        },
    )
}

fn loop_again(
    job: PipelineJob,
    course: Course,
    history: Vec<IterationRecord>,
    review: StageOutput,
) -> (n: Next<PipelineStart>)
    ensures
        PipelineStart::loops(
            job,
            course,
            crate::pipeline_data::records(history@),
            review,
            n,
        ),
        n matches Next::Act(s, a) ==> forall|e: Event| a.answered_by(e) ==> s.accepts(e),
{
    let ghost before = history@;
    let ghost said = record_of(course, review);
    let record = IterationRecord {
        iteration: course.iteration,
        plan: match course.plan {
            Some(l) => l.output.plan,
            None => None,
        },
        implementation: match course.implementation {
            Some(l) => l.output.implementation,
            None => None,
        },
        review: review.review,
    };
    assert(record@ == said);
    let mut history = history;
    proof {
        crate::seqs::map_push(before, record, |r: IterationRecord| r@);
    }
    history.push(record);
    go_round(job, course.run, course.project, course.project_path, course.iteration, history)
}

// ---- laws ----

/// There are never more iterations than allowed, and after the last one the run has failed.
pub proof fn law_iterations_are_bounded(
    job: PipelineJob,
    course: Course,
    history: Vec<IterationRecord>,
    output: StageOutput,
    n: Next<PipelineStart>,
)
    requires
        (Run { job, at: PipelineStep::LoopBack { course, history, output } }).follows(
            Event::Done(Ok(())),
            n,
        ),
    ensures
        course.iteration < job.max_iterations ==> (n matches Next::Act(s, _) && s.at matches
            PipelineStep::Mark { course: c, .. } && c.iteration == course.iteration + 1
            && c.iteration <= job.max_iterations && c.stage == StageType::Plan),
        course.iteration >= job.max_iterations ==> PipelineStart::ends(
            job,
            course.run,
            course.project,
            PipelineStatus::Failed,
            job.max_iterations,
            n,
        ),
{
}

/// A plan is followed by the implementation and that by the review, in the same iteration.
pub proof fn law_stages_follow_each_other(
    job: PipelineJob,
    course: Course,
    history: Vec<IterationRecord>,
    output: StageOutput,
    text: String,
    n: Next<PipelineStart>,
)
    requires
        (Run { job, at: PipelineStep::Pretty { course, history, output } }).follows(
            Event::Written(text),
            n,
        ),
    ensures
        n matches Next::Act(s, _) && s.at matches PipelineStep::Mark { course: c, .. }
            && c.iteration == course.iteration && c.stage == if course.stage == StageType::Plan {
            StageType::Implement
        } else {
            StageType::Review
        },
{
}

} // verus!
