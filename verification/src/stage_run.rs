//! One stage of a pipeline: its prompt, its run, its log and its output.
use vstd::prelude::*;
use crate::claude::{typed_json, RunConfig, RunKind, StreamEvent};
use crate::effects::{Action, Event, Notice, Template};
use crate::ident::Uuid;
use crate::json::{Json, JsonV};
use crate::pipeline_data::{
    copy_records, IterationRecord, StageOutput, StageStatus, StageType, TemplateVar,
};
use crate::protocol::StreamingResponseLine;
use crate::stage_output::{extract_pipeline_json_from_text, fallback_output, logged_line};
use crate::text::{cat, cat3, cat5, join, u64_text};

verus! {

/// A stage that is to be run.
pub struct StageJob {
    /// The request that is answered.
    pub id: String,
    pub run: Uuid,
    pub project: Uuid,
    pub project_path: String,
    pub goal: String,
    pub stage_type: StageType,
    pub iteration: u32,
    pub history: Vec<IterationRecord>,
    /// What the earlier stages of the iteration left, as JSON text.
    pub plan: Option<String>,
    pub implementation: Option<String>,
}

/// What a run has printed so far as its result, and the session that it named with it.
pub struct Heard {
    pub text: String,
    pub session: Option<String>,
}

#[allow(inconsistent_fields)]
pub enum StageStep {
    New,
    Insert { stage: Uuid },
    Announce { stage: Uuid },
    Start { stage: Uuid },
    // The prompt.
    Home { stage: Uuid },
    Prompts { stage: Uuid, home: String },
    Load { stage: Uuid },
    History { stage: Uuid, template: String },
    Render { stage: Uuid },
    // The run and its log; `result` is what the run printed last as its result.
    Spawn { stage: Uuid },
    LogHome { stage: Uuid },
    LogDir { stage: Uuid, dir: String },
    LogFile { stage: Uuid },
    Mark { stage: Uuid },
    Run { stage: Uuid, result: Heard },
    Log { stage: Uuid, result: Heard, event: StreamEvent },
    Text { stage: Uuid, result: Heard, text: String },
    Told { stage: Uuid, result: Heard },
    Broken { stage: Uuid, result: Heard },
    Close { stage: Uuid, result: Heard },
    // The output, and the session of the run.
    Parse { stage: Uuid, result: Heard },
    Time { stage: Uuid, output: StageOutput, session: Option<String> },
    Finish { output: StageOutput, session: Option<String> },
    Done { output: StageOutput, session: Option<String> },
    Value { output: StageOutput, session: Option<String> },
    Complete { output: StageOutput, session: Option<String> },
}

pub struct StageRun {
    pub job: StageJob,
    pub at: StageStep,
}

/// What follows in a stage.
pub enum StageNext {
    Act(StageRun, Action),
    /// The stage has an output; the run named the session with its last result, if it printed one.
    Finished(StageJob, StageOutput, Option<String>),
    Failed(StageJob, String),
}

impl StageNext {
    pub open spec fn goes(self, job: StageJob, at: StageStep, action: Action) -> bool {
        self == StageNext::Act(StageRun { job, at }, action)
    }

    pub open spec fn stops(self, job: StageJob, message: Seq<char>) -> bool {
        self matches StageNext::Failed(j, m) && j == job && m@ == message
    }

    /// Sends a line with `data`.
    pub open spec fn shows(self, job: StageJob, at: StageStep, data: JsonV) -> bool {
        &&& self matches StageNext::Act(s, Action::Send { line })
        &&& s == StageRun { job, at }
        &&& line.is_data(job.id, data)
    }

    pub fn go(job: StageJob, at: StageStep, action: Action) -> (n: StageNext)
        ensures
            n.goes(job, at, action),
    {
        StageNext::Act(StageRun { job, at }, action)
    }

    pub fn stop(job: StageJob, a: &str, b: &str) -> (n: StageNext)
        ensures
            n.stops(job, a@ + b@),
    {
        StageNext::Failed(job, cat(a, b))
    }

    fn show(job: StageJob, at: StageStep, data: Json) -> (n: StageNext)
        ensures
            n.shows(job, at, data@),
    {
        let line = StreamingResponseLine::data(job.id.clone(), data);
        StageNext::go(job, at, Action::Send { line })
    }
}

pub open spec fn text_or_none(t: Option<String>) -> Seq<char> {
    match t {
        Some(s) => s@,
        None => ""@,
    }
}

fn text_or_empty(t: &Option<String>) -> (r: String)
    ensures
        r@ == text_or_none(*t),
{
    match t {
        Some(s) => s.clone(),
        None => "".to_owned(),
    }
}

/// What is told of the earlier iterations, given their records as JSON text.
pub open spec fn previous_context(records: Seq<char>) -> Seq<char> {
    "## Previous Iterations\n\n```json\n"@ + records + "\n```"@
}

/// Where the log of a stage is, below the daemon's home.
pub open spec fn log_dir(home: Seq<char>) -> Seq<char> {
    crate::text::joined(crate::text::joined(home, "logs"@), "pipeline"@)
}

/// The name of the log of a stage.
pub open spec fn log_name(run: Uuid, stage: StageType, iteration: u32) -> Seq<char> {
    run.text() + "_"@ + stage.name() + "_"@ + (crate::text::decimal(iteration as nat) + ".log"@)
}

pub fn stage_log_dir(home: &str) -> (r: String)
    ensures
        r@ == log_dir(home@),
{
    join(join(home, "logs").as_str(), "pipeline")
}

pub fn stage_log_name(run: &Uuid, stage: StageType, iteration: u32) -> (r: String)
    ensures
        r@ == log_name(*run, stage, iteration),
{
    let end = cat(u64_text(iteration as u64).as_str(), ".log");
    cat5(run.to_text().as_str(), "_", stage.as_str(), "_", end.as_str())
}

impl StageJob {
    pub open spec fn template(self) -> Template {
        match self.stage_type {
            StageType::Plan => Template::PipelinePlan,
            StageType::Implement => Template::PipelineImplement,
            StageType::Review => Template::PipelineReview,
        }
    }

    pub open spec fn kind(self) -> RunKind {
        match self.stage_type {
            StageType::Plan => RunKind::PipelinePlan,
            StageType::Implement => RunKind::PipelineImplement,
            StageType::Review => RunKind::PipelineReview,
        }
    }

    /// What the prompt is filled with: a later stage is told what the earlier ones left.
    pub open spec fn vars(self, context: Seq<char>) -> Seq<(Seq<char>, Seq<char>)> {
        let all = seq![
            ("goal"@, self.goal@),
            ("iteration"@, crate::text::decimal(self.iteration as nat)),
            ("previous_context"@, context),
        ];
        match self.stage_type {
            StageType::Plan => all,
            StageType::Implement => all.push(("plan_json"@, text_or_none(self.plan))),
            StageType::Review => all.push(("plan_json"@, text_or_none(self.plan))).push(
                ("implementation_json"@, text_or_none(self.implementation)),
            ),
        }
    }

    fn template_vars(&self, context: String) -> (r: Vec<TemplateVar>)
        ensures
            crate::pipeline_data::var_views(r@) == self.vars(context@),
    {
        let mut vars: Vec<TemplateVar> = Vec::new();
        vars.push(TemplateVar { name: "goal".to_owned(), value: self.goal.clone() });
        vars.push(
            TemplateVar {
                name: "iteration".to_owned(),
                value: u64_text(self.iteration as u64),
            },
        );
        vars.push(TemplateVar { name: "previous_context".to_owned(), value: context });
        if self.stage_type != StageType::Plan {
            vars.push(
                TemplateVar { name: "plan_json".to_owned(), value: text_or_empty(&self.plan) },
            );
        }
        if self.stage_type == StageType::Review {
            vars.push(
                TemplateVar {
                    name: "implementation_json".to_owned(),
                    value: text_or_empty(&self.implementation),
                },
            );
        }
        assert(crate::pipeline_data::var_views(vars@) =~= self.vars(context@));
        vars
    }

    /// A line about the stage.
    pub open spec fn shown(self, kind: Seq<char>) -> JsonV {
        crate::claude::typed(kind).with("stage_type"@, JsonV::Str(self.stage_type.name())).with(
            "iteration"@,
            JsonV::Int(self.iteration as int),
        )
    }

    fn line(&self, kind: &str) -> (r: Json)
        ensures
            r@ == self.shown(kind@),
    {
        typed_json(kind).with("stage_type", Json::text(self.stage_type.as_str())).with(
            "iteration",
            Json::U64(self.iteration as u64),
        )
    }

    /// The notice that the stage has the status.
    pub open spec fn change(self, status: StageStatus) -> Notice {
        Notice::PipelineStageChange {
            run: self.run,
            project: self.project,
            stage_type: self.stage_type,
            iteration: self.iteration,
            status,
        }
    }

    fn notice(&self, status: StageStatus) -> (r: Notice)
        ensures
            r == self.change(status),
    {
        Notice::PipelineStageChange {
            run: self.run,
            project: self.project,
            stage_type: self.stage_type,
            iteration: self.iteration,
            status,
        }
    }
}

impl StageRun {
    pub open spec fn accepts(self, ev: Event) -> bool {
        match self.at {
            StageStep::New => ev is Stage,
            StageStep::Home { .. } | StageStep::Load { .. } | StageStep::Render { .. } => {
                ev is Text
            },
            StageStep::LogHome { .. } => ev is Text,
            StageStep::Prompts { .. } => ev is Flag,
            StageStep::History { .. } => ev is Written,
            StageStep::Run { .. } => ev matches Event::Claude(r) && (r matches Ok(Some(item))
                ==> crate::stage_output::can_log(item.event)),
            StageStep::Parse { .. } => ev is MaybeOutput,
            StageStep::Time { .. } => ev is Time,
            StageStep::Value { .. } => ev is Value,
            _ => ev is Done,
        }
    }

    /// How a stage begins.
    pub open spec fn begins(job: StageJob, n: StageNext) -> bool {
        &&& n matches StageNext::Act(
            s,
            Action::NewStage { run, stage_type, iteration, goal, history },
        )
        &&& s == StageRun { job, at: StageStep::New }
        &&& run == job.run
        &&& stage_type == job.stage_type
        &&& iteration == job.iteration
        &&& goal == job.goal
        &&& crate::pipeline_data::records(history@) == crate::pipeline_data::records(job.history@)
    }

    pub fn start(job: StageJob) -> (n: StageNext)
        ensures
            StageRun::begins(job, n),
            n matches StageNext::Act(s, a) ==> forall|e: Event| a.answered_by(e) ==> s.accepts(e),
    {
        let action = Action::NewStage {
            run: job.run,
            stage_type: job.stage_type,
            iteration: job.iteration,
            goal: job.goal.clone(),
            history: copy_records(&job.history),
        };
        StageNext::go(job, StageStep::New, action)
    }

    /// Has the prompt filled in.
    pub open spec fn renders(
        job: StageJob,
        stage: Uuid,
        template: String,
        context: Seq<char>,
        n: StageNext,
    ) -> bool {
        &&& n matches StageNext::Act(s, Action::RenderTemplate { template: t, vars })
        &&& s == StageRun { job, at: StageStep::Render { stage } }
        &&& t == template
        &&& crate::pipeline_data::var_views(vars@) == job.vars(context)
    }

    /// Waits for the next event of the run.
    pub open spec fn awaits(
        job: StageJob,
        stage: Uuid,
        text: Seq<char>,
        session: Option<String>,
        n: StageNext,
    ) -> bool {
        &&& n matches StageNext::Act(s, a)
        &&& s.at matches StageStep::Run { stage: st, result }
        &&& st == stage && result.text@ == text && result.session == session
        &&& n.goes(job, s.at, Action::NextStageEvent)
    }

    /// What follows an event, after it was logged.
    pub open spec fn reacts(
        job: StageJob,
        stage: Uuid,
        result: Heard,
        event: StreamEvent,
        n: StageNext,
    ) -> bool {
        match event {
            StreamEvent::TextDelta { text } => n.shows(
                job,
                StageStep::Text { stage, result, text },
                job.shown("text"@).with("text"@, JsonV::Str(text@)),
            ),
            StreamEvent::Result { text, session_id } => StageRun::awaits(
                job,
                stage,
                text@,
                Some(session_id),
                n,
            ),
            StreamEvent::Error { message } => n.shows(
                job,
                StageStep::Told { stage, result },
                job.shown("stage_error"@).with("message"@, JsonV::Str(message@)),
            ),
            _ => StageRun::awaits(job, stage, result.text@, result.session, n),
        }
    }

    /// The stage has an output.
    pub open spec fn completes(
        job: StageJob,
        stage: Uuid,
        output: crate::pipeline_data::OutputV,
        session: Option<String>,
        n: StageNext,
    ) -> bool {
        &&& n matches StageNext::Act(s, a)
        &&& s.at matches StageStep::Time { stage: st, output: o, session: named }
        &&& st == stage && o@ == output && named == session
        &&& n.goes(job, s.at, Action::Now)
    }

    pub open spec fn follows(self, ev: Event, n: StageNext) -> bool {
        let job = self.job;
        match (self.at, ev) {
            (StageStep::New, Event::Stage(stage)) => n.goes(
                job,
                StageStep::Insert { stage: stage.id },
                Action::InsertStage { stage },
            ),
            (StageStep::Insert { stage }, Event::Done(_)) => n.goes(
                job,
                StageStep::Announce { stage },
                Action::Broadcast { notice: job.change(StageStatus::Running) },
            ),
            (StageStep::Announce { stage }, Event::Done(_)) => n.shows(
                job,
                StageStep::Start { stage },
                job.shown("stage_start"@),
            ),
            (StageStep::Start { stage }, Event::Done(_)) => n.goes(
                job,
                StageStep::Home { stage },
                Action::NflowHome,
            ),
            (StageStep::Home { stage }, Event::Text(r)) => match r {
                Err(e) => n.stops(job, ""@ + e@),
                Ok(home) => {
                    &&& n matches StageNext::Act(s, Action::IsDir { path })
                    &&& path@ == crate::text::joined(home@, "prompts"@)
                    &&& s == StageRun { job, at: StageStep::Prompts { stage, home } }
                },
            },
            (StageStep::Prompts { stage, home }, Event::Flag(r)) => {
                &&& n matches StageNext::Act(s, Action::LoadTemplate { template, dir })
                &&& template == job.template()
                &&& s == StageRun { job, at: StageStep::Load { stage } }
                &&& if r == Ok::<bool, String>(true) {
                    dir matches Some(d) && d@ == crate::text::joined(home@, "prompts"@)
                } else {
                    dir is None
                }
            },
            (StageStep::Load { stage }, Event::Text(r)) => match r {
                Err(e) => n.stops(job, "failed to load template: "@ + e@),
                Ok(template) => if job.history@.len() == 0 {
                    StageRun::renders(job, stage, template, ""@, n)
                } else {
                    &&& n matches StageNext::Act(s, Action::PrettyHistory { history })
                    &&& crate::pipeline_data::records(history@) == crate::pipeline_data::records(
                        job.history@,
                    )
                    &&& s == StageRun { job, at: StageStep::History { stage, template } }
                },
            },
            (StageStep::History { stage, template }, Event::Written(records)) => {
                StageRun::renders(job, stage, template, previous_context(records@), n)
            },
            (StageStep::Render { stage }, Event::Text(r)) => match r {
                Err(e) => n.stops(job, "failed to render template: "@ + e@),
                Ok(prompt) => n.goes(
                    job,
                    StageStep::Spawn { stage },
                    Action::SpawnClaude {
                        config: RunConfig {
                            kind: job.kind(),
                            prompt,
                            resume_session: None,
                            working_dir: Some(job.project_path),
                            system_prompt_file: None,
                        },
                    },
                ),
            },
            (StageStep::Spawn { stage }, Event::Done(r)) => match r {
                Err(e) => n.stops(job, "failed to spawn agent: "@ + e@),
                Ok(_) => n.goes(job, StageStep::LogHome { stage }, Action::NflowHome),
            },
            (StageStep::LogHome { stage }, Event::Text(r)) => match r {
                Err(e) => n.stops(job, ""@ + e@),
                Ok(home) => {
                    &&& n matches StageNext::Act(s, Action::CreateDir { path })
                    &&& path@ == log_dir(home@)
                    &&& s == StageRun { job, at: StageStep::LogDir { stage, dir: path } }
                },
            },
            (StageStep::LogDir { stage, dir }, Event::Done(r)) => match r {
                Err(e) => n.stops(job, "failed to create log dir: "@ + e@),
                Ok(_) => {
                    &&& n matches StageNext::Act(s, Action::CreateLog { path })
                    &&& path@ == crate::text::joined(
                        dir@,
                        log_name(job.run, job.stage_type, job.iteration),
                    )
                    &&& s == StageRun { job, at: StageStep::LogFile { stage } }
                },
            },
            (StageStep::LogFile { stage }, Event::Done(r)) => match r {
                Err(e) => n.stops(job, "failed to create log file: "@ + e@),
                Ok(_) => n.goes(
                    job,
                    StageStep::Mark { stage },
                    Action::MarkStageStarted { stage },
                ),
            },
            (StageStep::Mark { stage }, Event::Done(_)) => StageRun::awaits(
                job,
                stage,
                ""@,
                None,
                n,
            ),
            (StageStep::Run { stage, result }, Event::Claude(r)) => match r {
                Ok(Some(item)) => match crate::stage_output::log_line(item.event) {
                    Some(line) => {
                        &&& n matches StageNext::Act(s, Action::WriteLog { line: l })
                        &&& l@ == line
                        &&& s == StageRun {
                            job,
                            at: StageStep::Log { stage, result, event: item.event },
                        }
                    },
                    None => StageRun::reacts(job, stage, result, item.event, n),
                },
                Ok(None) => n.goes(job, StageStep::Close { stage, result }, Action::CloseLog),
                Err(e) => n.shows(
                    job,
                    StageStep::Broken { stage, result },
                    job.shown("stage_error"@).with(
                        "message"@,
                        JsonV::Str("stream error: "@ + e@),
                    ),
                ),
            },
            (StageStep::Log { stage, result, event }, Event::Done(_)) => StageRun::reacts(
                job,
                stage,
                result,
                event,
                n,
            ),
            (StageStep::Text { stage, result, text }, Event::Done(_)) => n.goes(
                job,
                StageStep::Told { stage, result },
                Action::Broadcast {
                    notice: Notice::PipelineAgentOutput {
                        run: job.run,
                        stage_type: job.stage_type,
                        iteration: job.iteration,
                        line: text,
                    },
                },
            ),
            (StageStep::Told { stage, result }, Event::Done(_)) => StageRun::awaits(
                job,
                stage,
                result.text@,
                result.session,
                n,
            ),
            (StageStep::Broken { stage, result }, Event::Done(_)) => n.goes(
                job,
                StageStep::Close { stage, result },
                Action::CloseLog,
            ),
            (StageStep::Close { stage, result }, Event::Done(_)) => {
                match crate::stage_output::pipeline_json(result.text@) {
                    Some(json) => {
                        &&& n matches StageNext::Act(s, Action::ParseStageOutput { text })
                        &&& text@ == json
                        &&& s == StageRun { job, at: StageStep::Parse { stage, result } }
                    },
                    None => StageRun::completes(
                        job,
                        stage,
                        crate::stage_output::fallback(job.stage_type, result.text@),
                        result.session,
                        n,
                    ),
                }
            },
            (StageStep::Parse { stage, result }, Event::MaybeOutput(read)) => StageRun::completes(
                job,
                stage,
                match read {
                    Some(output) => output@,
                    None => crate::stage_output::fallback(job.stage_type, result.text@),
                },
                result.session,
                n,
            ),
            (StageStep::Time { stage, output, session }, Event::Time(now)) => {
                &&& n matches StageNext::Act(
                    s,
                    Action::FinishStage { stage: st, status, output: o, at },
                )
                &&& st == stage && status == StageStatus::Completed && o@ == output@ && at == now
                &&& s == StageRun { job, at: StageStep::Finish { output, session } }
            },
            (StageStep::Finish { output, session }, Event::Done(_)) => n.goes(
                job,
                StageStep::Done { output, session },
                Action::Broadcast { notice: job.change(StageStatus::Completed) },
            ),
            (StageStep::Done { output, session }, Event::Done(_)) => {
                &&& n matches StageNext::Act(s, Action::OutputValue { output: o })
                &&& o@ == output@
                &&& s == StageRun { job, at: StageStep::Value { output, session } }
            },
            (StageStep::Value { output, session }, Event::Value(value)) => n.shows(
                job,
                StageStep::Complete { output, session },
                job.shown("stage_complete"@).with("output"@, value@),
            ),
            (StageStep::Complete { output, session }, Event::Done(_)) => n == StageNext::Finished(
                job,
                output,
                session,
            ),
            _ => false,
        }
    }

    pub fn step(self, ev: Event) -> (n: StageNext)
        requires
            self.accepts(ev),
        ensures
            self.follows(ev, n),
            n matches StageNext::Act(s, a) ==> forall|e: Event| a.answered_by(e) ==> s.accepts(e),
    {
        let StageRun { job, at } = self;
        match (at, ev) {
            (StageStep::New, Event::Stage(stage)) => {
                let id = stage.id;
                StageNext::go(job, StageStep::Insert { stage: id }, Action::InsertStage { stage })
            },
            (StageStep::Insert { stage }, Event::Done(_)) => {
                let notice = job.notice(StageStatus::Running);
                StageNext::go(job, StageStep::Announce { stage }, Action::Broadcast { notice })
            },
            (StageStep::Announce { stage }, Event::Done(_)) => {
                let data = job.line("stage_start");
                StageNext::show(job, StageStep::Start { stage }, data)
            },
            (StageStep::Start { stage }, Event::Done(_)) => StageNext::go(
                job,
                StageStep::Home { stage },
                Action::NflowHome,
            ),
            (StageStep::Home { stage }, Event::Text(r)) => match r {
                Err(e) => StageNext::stop(job, "", e.as_str()),
                Ok(home) => {
                    let path = join(home.as_str(), "prompts");
                    StageNext::go(job, StageStep::Prompts { stage, home }, Action::IsDir { path })
                },
            },
            (StageStep::Prompts { stage, home }, Event::Flag(r)) => {
                let dir = match r {
                    Ok(true) => Some(join(home.as_str(), "prompts")),
                    _ => None,
                };
                let template = match job.stage_type {
                    StageType::Plan => Template::PipelinePlan,
                    StageType::Implement => Template::PipelineImplement,
                    StageType::Review => Template::PipelineReview,
                };
                StageNext::go(
                    job,
                    StageStep::Load { stage },
                    Action::LoadTemplate { template, dir },
                )
            },
            (StageStep::Load { stage }, Event::Text(r)) => match r {
                Err(e) => StageNext::stop(job, "failed to load template: ", e.as_str()),
                Ok(template) => if job.history.len() == 0 {
                    render(job, stage, template, "".to_owned())
                } else {
                    let history = copy_records(&job.history);
                    StageNext::go(
                        job,
                        StageStep::History { stage, template },
                        Action::PrettyHistory { history },
                    )
                },
            },
            (StageStep::History { stage, template }, Event::Written(records)) => {
                let context = cat3(
                    "## Previous Iterations\n\n```json\n",
                    records.as_str(),
                    "\n```",
                );
                render(job, stage, template, context)
            },
            (StageStep::Render { stage }, Event::Text(r)) => match r {
                Err(e) => StageNext::stop(job, "failed to render template: ", e.as_str()),
                Ok(prompt) => {
                    let kind = match job.stage_type {
                        StageType::Plan => RunKind::PipelinePlan,
                        StageType::Implement => RunKind::PipelineImplement,
                        StageType::Review => RunKind::PipelineReview,
                    };
                    let config = RunConfig {
                        kind,
                        prompt,
                        resume_session: None,
                        working_dir: Some(job.project_path.clone()),
                        system_prompt_file: None,
                    };
                    StageNext::go(job, StageStep::Spawn { stage }, Action::SpawnClaude { config })
                },
            },
            (StageStep::Spawn { stage }, Event::Done(r)) => match r {
                Err(e) => StageNext::stop(job, "failed to spawn agent: ", e.as_str()),
                Ok(_) => StageNext::go(job, StageStep::LogHome { stage }, Action::NflowHome),
            },
            (StageStep::LogHome { stage }, Event::Text(r)) => match r {
                Err(e) => StageNext::stop(job, "", e.as_str()),
                Ok(home) => {
                    let dir = stage_log_dir(home.as_str());
                    let path = dir.clone();
                    StageNext::go(job, StageStep::LogDir { stage, dir }, Action::CreateDir { path })
                },
            },
            (StageStep::LogDir { stage, dir }, Event::Done(r)) => match r {
                Err(e) => StageNext::stop(job, "failed to create log dir: ", e.as_str()),
                Ok(_) => {
                    let name = stage_log_name(&job.run, job.stage_type, job.iteration);
                    let path = join(dir.as_str(), name.as_str());
                    StageNext::go(job, StageStep::LogFile { stage }, Action::CreateLog { path })
                },
            },
            (StageStep::LogFile { stage }, Event::Done(r)) => match r {
                Err(e) => StageNext::stop(job, "failed to create log file: ", e.as_str()),
                Ok(_) => StageNext::go(
                    job,
                    StageStep::Mark { stage },
                    Action::MarkStageStarted { stage },
                ),
            },
            (StageStep::Mark { stage }, Event::Done(_)) => StageNext::go(
                job,
                StageStep::Run { stage, result: Heard { text: "".to_owned(), session: None } },
                Action::NextStageEvent,
            ),
            (StageStep::Run { stage, result }, Event::Claude(r)) => match r {
                Ok(Some(item)) => {
                    let event = item.event;
                    match logged_line(&event) {
                        Some(line) => StageNext::go(
                            job,
                            StageStep::Log { stage, result, event },
                            Action::WriteLog { line },
                        ),
                        None => react(job, stage, result, event),
                    }
                },
                Ok(None) => StageNext::go(
                    job,
                    StageStep::Close { stage, result },
                    Action::CloseLog,
                ),
                Err(e) => {
                    let data = job.line("stage_error").with(
                        "message",
                        Json::Str(cat("stream error: ", e.as_str())),
                    );
                    StageNext::show(job, StageStep::Broken { stage, result }, data)
                },
            },
            (StageStep::Log { stage, result, event }, Event::Done(_)) => react(
                job,
                stage,
                result,
                event,
            ),
            (StageStep::Text { stage, result, text }, Event::Done(_)) => {
                let notice = Notice::PipelineAgentOutput {
                    run: job.run,
                    stage_type: job.stage_type,
                    iteration: job.iteration,
                    line: text,
                };
                StageNext::go(job, StageStep::Told { stage, result }, Action::Broadcast { notice })
            },
            (StageStep::Told { stage, result }, Event::Done(_)) => StageNext::go(
                job,
                StageStep::Run { stage, result },
                Action::NextStageEvent,
            ),
            (StageStep::Broken { stage, result }, Event::Done(_)) => StageNext::go(
                job,
                StageStep::Close { stage, result },
                Action::CloseLog,
            ),
            (StageStep::Close { stage, result }, Event::Done(_)) => {
                match extract_pipeline_json_from_text(result.text.as_str()) {
                    Some(text) => StageNext::go(
                        job,
                        StageStep::Parse { stage, result },
                        Action::ParseStageOutput { text },
                    ),
                    None => {
                        let output = fallback_output(job.stage_type, result.text.as_str());
                        StageNext::go(
                    job,
                    StageStep::Time { stage, output, session: result.session },
                    Action::Now,
                )
                    },
                }
            },
            (StageStep::Parse { stage, result }, Event::MaybeOutput(read)) => {
                let output = match read {
                    Some(output) => output,
                    None => fallback_output(job.stage_type, result.text.as_str()),
                };
                StageNext::go(
                    job,
                    StageStep::Time { stage, output, session: result.session },
                    Action::Now,
                )
            },
            (StageStep::Time { stage, output, session }, Event::Time(now)) => {
                let stored = output.copy();
                StageNext::go(
                    job,
                    StageStep::Finish { output, session },
                    Action::FinishStage {
                        stage,
                        status: StageStatus::Completed,
                        output: stored,
                        at: now,
                    },
                )
            },
            (StageStep::Finish { output, session }, Event::Done(_)) => {
                let notice = job.notice(StageStatus::Completed);
                StageNext::go(job, StageStep::Done { output, session }, Action::Broadcast { notice })
            },
            (StageStep::Done { output, session }, Event::Done(_)) => {
                let asked = output.copy();
                StageNext::go(
                    job,
                    StageStep::Value { output, session },
                    Action::OutputValue { output: asked },
                )
            },
            (StageStep::Value { output, session }, Event::Value(value)) => {
                let data = job.line("stage_complete").with("output", value);
                StageNext::show(job, StageStep::Complete { output, session }, data)
            },
            (StageStep::Complete { output, session }, Event::Done(_)) => StageNext::Finished(
                job,
                output,
                session,
            ),
            _ => StageNext::stop(job, "", ""),
        }
    }
}

fn render(job: StageJob, stage: Uuid, template: String, context: String) -> (n: StageNext)
    ensures
        StageRun::renders(job, stage, template, context@, n),
{
    let vars = job.template_vars(context);
    StageNext::go(job, StageStep::Render { stage }, Action::RenderTemplate { template, vars })
}

fn react(job: StageJob, stage: Uuid, result: Heard, event: StreamEvent) -> (n: StageNext)
    ensures
        StageRun::reacts(job, stage, result, event, n),
        n matches StageNext::Act(s, a) ==> forall|e: Event| a.answered_by(e) ==> s.accepts(e),
{
    match event {
        StreamEvent::TextDelta { text } => {
            let data = job.line("text").with("text", Json::Str(text.clone()));
            StageNext::show(job, StageStep::Text { stage, result, text }, data)
        },
        StreamEvent::Result { text, session_id } => StageNext::go(
            job,
            StageStep::Run { stage, result: Heard { text, session: Some(session_id) } },
            Action::NextStageEvent,
        ),
        StreamEvent::Error { message } => {
            let data = job.line("stage_error").with("message", Json::Str(message));
            StageNext::show(job, StageStep::Told { stage, result }, data)
        },
        _ => StageNext::go(job, StageStep::Run { stage, result }, Action::NextStageEvent),
    }
}

/// The last result among the events: its text and its session.
pub open spec fn last_result(events: Seq<StreamEvent>) -> Option<(String, String)>
    decreases events.len(),
{
    if events.len() == 0 {
        None
    } else {
        match events.last() {
            StreamEvent::Result { text, session_id } => Some((text, session_id)),
            _ => last_result(events.drop_last()),
        }
    }
}

impl Heard {
    /// Whether this is what the events of a run left: the last result, or nothing without one.
    pub open spec fn of(self, events: Seq<StreamEvent>) -> bool {
        match last_result(events) {
            Some((text, session)) => self.text@ == text@ && self.session == Some(session),
            None => self.text@ == ""@ && self.session is None,
        }
    }
}

impl StageStep {
    /// What the run has left so far, while it is listened to and until its output is read.
    pub open spec fn heard(self) -> Option<Heard> {
        match self {
            StageStep::Run { result, .. } => Some(result),
            StageStep::Log { result, .. } => Some(result),
            StageStep::Text { result, .. } => Some(result),
            StageStep::Told { result, .. } => Some(result),
            StageStep::Broken { result, .. } => Some(result),
            StageStep::Close { result, .. } => Some(result),
            StageStep::Parse { result, .. } => Some(result),
            _ => None,
        }
    }

    /// The session that the stage ends with.
    pub open spec fn named(self) -> Option<String> {
        match self {
            StageStep::Time { session, .. } => session,
            StageStep::Finish { session, .. } => session,
            StageStep::Done { session, .. } => session,
            StageStep::Value { session, .. } => session,
            StageStep::Complete { session, .. } => session,
            _ => None,
        }
    }
}

/// The last result that a run prints is what its stage goes by: at first there is none, an
/// event that is a result takes the place of the one before, nothing else changes it, and in
/// the end it is the output's text and the session that the stage ends with.
pub proof fn law_the_last_result_counts(
    s: StageRun,
    ev: Event,
    n: StageNext,
    events: Seq<StreamEvent>,
)
    requires
        s.follows(ev, n),
    ensures
        s.at is Mark ==> (n matches StageNext::Act(t, _) && t.at.heard() matches Some(h) && h.of(
            Seq::empty(),
        )),
        s.at matches StageStep::Log { result, event, .. } ==> result.of(events) ==> (n matches
            StageNext::Act(t, _) && t.at.heard() matches Some(h) && h.of(events.push(event))),
        s.at matches StageStep::Run { result, .. } ==> result.of(events) ==> (n matches
            StageNext::Act(t, _) && t.at.heard() matches Some(h) && match ev {
            Event::Claude(Ok(Some(item))) => h.of(events.push(item.event)) || (t.at matches
                StageStep::Log { event, .. } && event == item.event && h.of(events)),
            _ => h.of(events),
        }),
        s.at is Text || s.at is Told || s.at is Broken ==> (n matches StageNext::Act(t, _)
            && t.at.heard() matches Some(h) && s.at.heard() matches Some(before) && h.text@
            == before.text@ && h.session == before.session),
        s.at is Close || s.at is Parse ==> (n matches StageNext::Act(t, _) && s.at.heard() matches
            Some(before) && (t.at is Time ==> t.at.named() == before.session) && (t.at is Parse
            ==> t.at.heard() == Some(before))),
        s.at is Time || s.at is Finish || s.at is Done || s.at is Value ==> (n matches
            StageNext::Act(t, _) && t.at.named() == s.at.named()),
        s.at is Complete ==> (n matches StageNext::Finished(_, _, session) && session
            == s.at.named()),
{
    match s.at {
        StageStep::Log { event, .. } => {
            assert(events.push(event).drop_last() =~= events);
        },
        StageStep::Run { .. } => match ev {
            Event::Claude(Ok(Some(item))) => {
                assert(events.push(item.event).drop_last() =~= events);
            },
            _ => {},
        },
        _ => {},
    }
}

} // verus!
