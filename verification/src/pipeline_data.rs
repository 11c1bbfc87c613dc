//! Pipeline runs, their stages, and what a stage leaves.
use vstd::prelude::*;
use crate::ident::{Timestamp, Uuid};
use crate::json::{Json, JsonV};

verus! {

/// The stages of an iteration, in their order.
#[derive(Debug, Clone, Copy, PartialEq, Eq, Structural)]
pub enum StageType {
    Plan,
    Implement,
    Review,
}

impl StageType {
    pub open spec fn name(self) -> Seq<char> {
        match self {
            StageType::Plan => "plan"@,
            StageType::Implement => "implement"@,
            StageType::Review => "review"@,
        }
    }

    pub fn as_str(&self) -> (r: &'static str)
        ensures
            r@ == self.name(),
    {
        match self {
            StageType::Plan => "plan",
            StageType::Implement => "implement",
            StageType::Review => "review",
        }
    }
}

/// The stage as it is shown, if there is one.
pub open spec fn optional_stage(stage: Option<StageType>) -> JsonV {
    match stage {
        Some(s) => JsonV::Str(s.name()),
        None => JsonV::Null,
    }
}

pub fn stage_json(stage: &Option<StageType>) -> (r: Json)
    ensures
        r@ == optional_stage(*stage),
{
    match stage {
        Some(s) => Json::text(s.as_str()),
        None => Json::Null,
    }
}

#[derive(Debug, Clone, Copy, PartialEq, Eq, Structural)]
pub enum PipelineStatus {
    Pending,
    Running,
    Completed,
    Failed,
    Cancelled,
}

impl PipelineStatus {
    pub open spec fn name(self) -> Seq<char> {
        match self {
            PipelineStatus::Pending => "pending"@,
            PipelineStatus::Running => "running"@,
            PipelineStatus::Completed => "completed"@,
            PipelineStatus::Failed => "failed"@,
            PipelineStatus::Cancelled => "cancelled"@,
        }
    }

    pub fn as_str(&self) -> (r: &'static str)
        ensures
            r@ == self.name(),
    {
        match self {
            PipelineStatus::Pending => "pending",
            PipelineStatus::Running => "running",
            PipelineStatus::Completed => "completed",
            PipelineStatus::Failed => "failed",
            PipelineStatus::Cancelled => "cancelled",
        }
    }
}

#[derive(Debug, Clone, Copy, PartialEq, Eq, Structural)]
pub enum StageStatus {
    Pending,
    Running,
    Completed,
    Failed,
}

impl StageStatus {
    pub open spec fn name(self) -> Seq<char> {
        match self {
            StageStatus::Pending => "pending"@,
            StageStatus::Running => "running"@,
            StageStatus::Completed => "completed"@,
            StageStatus::Failed => "failed"@,
        }
    }

    pub fn as_str(&self) -> (r: &'static str)
        ensures
            r@ == self.name(),
    {
        match self {
            StageStatus::Pending => "pending",
            StageStatus::Running => "running",
            StageStatus::Completed => "completed",
            StageStatus::Failed => "failed",
        }
    }
}

/// A run of the pipeline towards a goal.
#[derive(Debug, PartialEq)]
pub struct PipelineRun {
    pub id: Uuid,
    pub project_id: Uuid,
    pub name: String,
    pub goal: String,
    pub status: PipelineStatus,
    pub current_stage: Option<StageType>,
    pub iteration: u32,
    pub max_iterations: u32,
    pub created_at: Timestamp,
    pub updated_at: Timestamp,
}

impl PipelineRun {
    pub fn copy(&self) -> (r: PipelineRun)
        ensures
            r == *self,
    {
        PipelineRun {
            id: self.id,
            project_id: self.project_id,
            name: self.name.clone(),
            goal: self.goal.clone(),
            status: self.status,
            current_stage: self.current_stage,
            iteration: self.iteration,
            max_iterations: self.max_iterations,
            created_at: self.created_at,
            updated_at: self.updated_at,
        }
    }
}

/// One stage of one iteration of a run.
#[derive(Debug, PartialEq)]
pub struct PipelineStage {
    pub id: Uuid,
    pub pipeline_run_id: Uuid,
    pub stage_type: StageType,
    pub iteration: u32,
    pub status: StageStatus,
    pub input_context: Option<String>,
    pub output_result: Option<String>,
    pub started_at: Option<Timestamp>,
    pub finished_at: Option<Timestamp>,
}

/// The verdict of a review.
#[derive(Debug, PartialEq)]
pub struct ReviewOutput {
    pub passed: bool,
    pub issues: Vec<Json>,
    pub feedback: String,
}

/// What a review says.
pub struct ReviewV {
    pub passed: bool,
    pub issues: Seq<JsonV>,
    pub feedback: Seq<char>,
}

impl View for ReviewOutput {
    type V = ReviewV;

    open spec fn view(&self) -> ReviewV {
        ReviewV {
            passed: self.passed,
            issues: crate::json::json_views(self.issues@),
            feedback: self.feedback@,
        }
    }
}

/// What a stage leaves.
#[derive(Debug, PartialEq)]
pub struct StageOutput {
    pub success: bool,
    pub summary: String,
    pub plan: Option<Json>,
    pub implementation: Option<Json>,
    pub review: Option<ReviewOutput>,
}

/// What the output of a stage says.
pub struct OutputV {
    pub success: bool,
    pub summary: Seq<char>,
    pub plan: Option<JsonV>,
    pub implementation: Option<JsonV>,
    pub review: Option<ReviewV>,
}

impl View for StageOutput {
    type V = OutputV;

    open spec fn view(&self) -> OutputV {
        OutputV {
            success: self.success,
            summary: self.summary@,
            plan: optional_value(self.plan),
            implementation: optional_value(self.implementation),
            review: optional_review(self.review),
        }
    }
}

/// What an iteration left for those after it.
#[derive(Debug, PartialEq)]
pub struct IterationRecord {
    pub iteration: u32,
    pub plan: Option<Json>,
    pub implementation: Option<Json>,
    pub review: Option<ReviewOutput>,
}

/// What the record of an iteration says.
pub struct RecordV {
    pub iteration: u32,
    pub plan: Option<JsonV>,
    pub implementation: Option<JsonV>,
    pub review: Option<ReviewV>,
}

impl View for IterationRecord {
    type V = RecordV;

    open spec fn view(&self) -> RecordV {
        RecordV {
            iteration: self.iteration,
            plan: optional_value(self.plan),
            implementation: optional_value(self.implementation),
            review: optional_review(self.review),
        }
    }
}

pub open spec fn optional_value(v: Option<Json>) -> Option<JsonV> {
    match v {
        Some(j) => Some(j@),
        None => None,
    }
}

pub open spec fn optional_review(v: Option<ReviewOutput>) -> Option<ReviewV> {
    match v {
        Some(r) => Some(r@),
        None => None,
    }
}

pub open spec fn records(v: Seq<IterationRecord>) -> Seq<RecordV> {
    v.map_values(|r: IterationRecord| r@)
}

fn copy_value(v: &Option<Json>) -> (r: Option<Json>)
    ensures
        optional_value(r) == optional_value(*v),
{
    match v {
        Some(j) => Some(j.copy()),
        None => None,
    }
}

fn copy_values(v: &Vec<Json>) -> (r: Vec<Json>)
    ensures
        crate::json::json_views(r@) == crate::json::json_views(v@),
{
    let mut out: Vec<Json> = Vec::new();
    let mut i: usize = 0;
    let ghost views = crate::json::json_views(v@);
    assert(crate::json::json_views(out@) =~= views.take(0));
    while i < v.len()
        invariant
            i <= v@.len(),
            views == crate::json::json_views(v@),
            crate::json::json_views(out@) == views.take(i as int),
        decreases v.len() - i,
    {
        let ghost before = crate::json::json_views(out@);
        let entry = v[i].copy();
        let ghost shown = entry@;
        out.push(entry);
        assert(crate::json::json_views(out@) =~= before.push(shown));
        assert(views.take(i + 1) =~= views.take(i as int).push(views[i as int]));
        i += 1;
    }
    assert(views.take(i as int) =~= views);
    out
}

fn copy_review(v: &Option<ReviewOutput>) -> (r: Option<ReviewOutput>)
    ensures
        optional_review(r) == optional_review(*v),
{
    match v {
        Some(r) => Some(
            ReviewOutput {
                passed: r.passed,
                issues: copy_values(&r.issues),
                feedback: r.feedback.clone(),
            },
        ),
        None => None,
    }
}

impl StageOutput {
    pub fn copy(&self) -> (r: StageOutput)
        ensures
            r@ == self@,
    {
        StageOutput {
            success: self.success,
            summary: self.summary.clone(),
            plan: copy_value(&self.plan),
            implementation: copy_value(&self.implementation),
            review: copy_review(&self.review),
        }
    }
}

pub fn copy_records(v: &Vec<IterationRecord>) -> (r: Vec<IterationRecord>)
    ensures
        records(r@) == records(v@),
{
    let mut out: Vec<IterationRecord> = Vec::new();
    let mut i: usize = 0;
    let ghost views = records(v@);
    assert(records(out@) =~= views.take(0));
    while i < v.len()
        invariant
            i <= v@.len(),
            views == records(v@),
            records(out@) == views.take(i as int),
        decreases v.len() - i,
    {
        let ghost before = records(out@);
        let entry = IterationRecord {
            iteration: v[i].iteration,
            plan: copy_value(&v[i].plan),
            implementation: copy_value(&v[i].implementation),
            review: copy_review(&v[i].review),
        };
        let ghost said = entry@;
        out.push(entry);
        assert(records(out@) =~= before.push(said));
        assert(views.take(i + 1) =~= views.take(i as int).push(views[i as int]));
        i += 1;
    }
    assert(views.take(i as int) =~= views);
    out
}

/// What is decided after a review.
#[derive(Debug, PartialEq)]
pub enum PipelineDecision {
    Complete,
    MaxIterationsReached,
    LoopBack { feedback: String },
    StartStage,
}

/// A name in a template and what stands for it.
#[derive(Debug, PartialEq)]
pub struct TemplateVar {
    pub name: String,
    pub value: String,
}

impl View for TemplateVar {
    type V = (Seq<char>, Seq<char>);

    open spec fn view(&self) -> (Seq<char>, Seq<char>) {
        (self.name@, self.value@)
    }
}

pub open spec fn var_views(v: Seq<TemplateVar>) -> Seq<(Seq<char>, Seq<char>)> {
    v.map_values(|t: TemplateVar| t@)
}

} // verus!
