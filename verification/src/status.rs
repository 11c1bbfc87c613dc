//! `exec.status`: every wave of a project with its epics, stories and tasks, and how far each
//! one is.
use vstd::prelude::*;
use crate::effects::{missing_parameter, no_project, Action, Event, Next, Run};
use crate::ident::{Timestamp, Uuid};
use crate::json::{Json, JsonV};
use crate::model::{AgentRun, DecompositionSession, ItemType, Project, WorkItem, WorkItemStatus};
use crate::plan_view::{is_child, wave_short_id};
use crate::plans::{no_wave, session_of_wave, wave_param};
use crate::protocol::Request;

verus! {

/// What is known of the agent runs of a task.
pub struct TaskRuns {
    pub count: u32,
    pub latest: Option<AgentRun>,
}

// ---- the summary of a wave ----

/// How many of the items have the status.
pub open spec fn count_of(items: Seq<WorkItem>, status: WorkItemStatus) -> nat {
    items.filter(|i: WorkItem| i.status == status).len()
}

/// How many stories of the wave there are, and how many of them are in each state.
pub open spec fn summary_view(stories: Seq<WorkItem>) -> JsonV {
    JsonV::object().with("total"@, JsonV::Int((stories.len() as u32) as int)).with(
        "pending"@,
        JsonV::Int(count_of(stories, WorkItemStatus::Pending) as int),
    ).with("ready"@, JsonV::Int(count_of(stories, WorkItemStatus::Ready) as int)).with(
        "running"@,
        JsonV::Int(count_of(stories, WorkItemStatus::InProgress) as int),
    ).with("done"@, JsonV::Int(count_of(stories, WorkItemStatus::Done) as int)).with(
        "failed"@,
        JsonV::Int(count_of(stories, WorkItemStatus::Failed) as int),
    ).with("cancelled"@, JsonV::Int(count_of(stories, WorkItemStatus::Cancelled) as int))
}

/// Every story is counted in exactly one state.
pub proof fn law_counts_add_up(stories: Seq<WorkItem>)
    ensures
        stories.len() == count_of(stories, WorkItemStatus::Pending) + count_of(
            stories,
            WorkItemStatus::Ready,
        ) + count_of(stories, WorkItemStatus::InProgress) + count_of(
            stories,
            WorkItemStatus::Done,
        ) + count_of(stories, WorkItemStatus::Failed) + count_of(
            stories,
            WorkItemStatus::Cancelled,
        ),
    decreases stories.len(),
{
    reveal(Seq::filter);
    if stories.len() > 0 {
        law_counts_add_up(stories.drop_last());
    }
}

fn count_stories(items: &Vec<WorkItem>, status: WorkItemStatus) -> (r: usize)
    ensures
        r == count_of(crate::plan_view::stories(items@), status),
        r <= items@.len(),
{
    let mut n: usize = 0;
    let mut i: usize = 0;
    let ghost keep = |i: WorkItem| i.item_type == ItemType::Story;
    let ghost is = |i: WorkItem| i.status == status;
    proof {
        crate::seqs::filter_none(items@, keep);
        reveal(Seq::filter);
    }
    while i < items.len()
        invariant
            i <= items@.len(),
            keep == (|i: WorkItem| i.item_type == ItemType::Story),
            is == (|i: WorkItem| i.status == status),
            n == items@.take(i as int).filter(keep).filter(is).len(),
            n <= i,
        decreases items.len() - i,
    {
        let ghost before = items@.take(i as int).filter(keep);
        proof {
            crate::seqs::filter_step(items@, i as int, keep);
            reveal(Seq::filter);
            assert(before.push(items@[i as int]).drop_last() =~= before);
        }
        if items[i].item_type == ItemType::Story && items[i].status == status {
            n += 1;
        }
        i += 1;
    }
    assert(items@.take(i as int) =~= items@);
    n
}

fn total_stories(items: &Vec<WorkItem>) -> (r: usize)
    ensures
        r == crate::plan_view::stories(items@).len(),
{
    let mut n: usize = 0;
    let mut i: usize = 0;
    let ghost keep = |i: WorkItem| i.item_type == ItemType::Story;
    proof {
        crate::seqs::filter_none(items@, keep);
    }
    while i < items.len()
        invariant
            i <= items@.len(),
            keep == (|i: WorkItem| i.item_type == ItemType::Story),
            n == items@.take(i as int).filter(keep).len(),
            n <= i,
        decreases items.len() - i,
    {
        proof {
            crate::seqs::filter_step(items@, i as int, keep);
        }
        if items[i].item_type == ItemType::Story {
            n += 1;
        }
        i += 1;
    }
    assert(items@.take(i as int) =~= items@);
    n
}

fn summary_json(items: &Vec<WorkItem>) -> (r: Json)
    ensures
        r@ == summary_view(crate::plan_view::stories(items@)),
{
    let total: u32 = total_stories(items) as u32;
    Json::object().with("total", Json::U64(total as u64)).with(
        "pending",
        Json::U64(count_stories(items, WorkItemStatus::Pending) as u64),
    ).with("ready", Json::U64(count_stories(items, WorkItemStatus::Ready) as u64)).with(
        "running",
        Json::U64(count_stories(items, WorkItemStatus::InProgress) as u64),
    ).with("done", Json::U64(count_stories(items, WorkItemStatus::Done) as u64)).with(
        "failed",
        Json::U64(count_stories(items, WorkItemStatus::Failed) as u64),
    ).with("cancelled", Json::U64(count_stories(items, WorkItemStatus::Cancelled) as u64))
}

// ---- the tree of a wave ----

/// The tasks among the items, in their order.
pub open spec fn task_ids(items: Seq<WorkItem>) -> Seq<Uuid> {
    items.filter(|i: WorkItem| i.item_type == ItemType::Task).map_values(|i: WorkItem| i.id)
}

pub fn ids_of_tasks(items: &Vec<WorkItem>) -> (r: Vec<Uuid>)
    ensures
        r@ == task_ids(items@),
{
    let mut out: Vec<Uuid> = Vec::new();
    let mut i: usize = 0;
    let ghost keep = |i: WorkItem| i.item_type == ItemType::Task;
    let ghost pick = |i: WorkItem| i.id;
    proof {
        crate::seqs::filter_none(items@, keep);
        assert(out@ =~= Seq::<WorkItem>::empty().map_values(pick));
    }
    while i < items.len()
        invariant
            i <= items@.len(),
            keep == (|i: WorkItem| i.item_type == ItemType::Task),
            pick == (|i: WorkItem| i.id),
            out@ == items@.take(i as int).filter(keep).map_values(pick),
        decreases items.len() - i,
    {
        proof {
            crate::seqs::filter_step(items@, i as int, keep);
            crate::seqs::map_push(items@.take(i as int).filter(keep), items@[i as int], pick);
        }
        if items[i].item_type == ItemType::Task {
            out.push(items[i].id);
        }
        i += 1;
    }
    assert(items@.take(i as int) =~= items@);
    out
}

/// Where `id` first occurs.
pub open spec fn index_of(ids: Seq<Uuid>, id: Uuid) -> Option<nat>
    decreases ids.len(),
{
    if ids.len() == 0 {
        None
    } else if ids[0] == id {
        Some(0)
    } else {
        match index_of(ids.drop_first(), id) {
            Some(i) => Some(i + 1),
            None => None,
        }
    }
}

/// What is known of the runs of the task `id`, where `runs` is of the tasks `ids`.
pub open spec fn runs_of(ids: Seq<Uuid>, runs: Seq<TaskRuns>, id: Uuid) -> Option<TaskRuns> {
    match index_of(ids, id) {
        Some(i) => if i < runs.len() {
            Some(runs[i as int])
        } else {
            None
        },
        None => None,
    }
}

fn find_runs<'a>(ids: &Vec<Uuid>, runs: &'a Vec<TaskRuns>, id: Uuid) -> (r: Option<&'a TaskRuns>)
    ensures
        match r {
            Some(t) => runs_of(ids@, runs@, id) == Some(*t),
            None => runs_of(ids@, runs@, id) is None,
        },
{
    let mut i: usize = 0;
    assert(ids@.skip(0) =~= ids@);
    while i < ids.len()
        invariant
            i <= ids@.len(),
            index_of(ids@, id) == match index_of(ids@.skip(i as int), id) {
                Some(k) => Some(k + i as nat),
                None => None,
            },
        decreases ids.len() - i,
    {
        assert(ids@.skip(i as int)[0] == ids@[i as int]);
        assert(ids@.skip(i as int).drop_first() =~= ids@.skip(i + 1));
        if ids[i] == id {
            if i < runs.len() {
                return Some(&runs[i]);
            }
            return None;
        }
        i += 1;
    }
    assert(ids@.skip(i as int).len() == 0);
    None
}

pub open spec fn optional_time(t: Option<Timestamp>) -> JsonV {
    match t {
        Some(t) => JsonV::Str(t.text()),
        None => JsonV::Null,
    }
}

pub fn time_json(t: &Option<Timestamp>) -> (r: Json)
    ensures
        r@ == optional_time(*t),
{
    match t {
        Some(t) => Json::Str(t.to_rfc3339()),
        None => Json::Null,
    }
}

/// A task in the answer, with what its latest run shows.
pub open spec fn task_status(t: WorkItem, known: Option<TaskRuns>, wave: u32) -> JsonV {
    let latest = match known {
        Some(k) => k.latest,
        None => None,
    };
    JsonV::object().with(
        "short_id"@,
        JsonV::Str(crate::plan_view::wave_id(wave, t.short_id@)),
    ).with("title"@, JsonV::Str(t.title@)).with("status"@, JsonV::Str(t.status.name())).with(
        "kind"@,
        match t.kind {
            Some(k) => JsonV::Str(k.name()),
            None => JsonV::Null,
        },
    ).with(
        "exit_code"@,
        match latest {
            Some(r) => match r.exit_code {
                Some(c) => JsonV::Int(c as int),
                None => JsonV::Null,
            },
            None => JsonV::Null,
        },
    ).with(
        "retry_count"@,
        JsonV::Int(
            match known {
                Some(k) => k.count as int,
                None => 0,
            },
        ),
    ).with(
        "started_at"@,
        optional_time(
            match latest {
                Some(r) => Some(r.started_at),
                None => None,
            },
        ),
    ).with(
        "finished_at"@,
        optional_time(
            match latest {
                Some(r) => r.finished_at,
                None => None,
            },
        ),
    ).with("error_message"@, JsonV::optional_text(t.error_message))
}

/// When an item was finished, if it is.
pub open spec fn end_of(i: WorkItem) -> Option<Timestamp> {
    if i.status == WorkItemStatus::Done || i.status == WorkItemStatus::Failed || i.status
        == WorkItemStatus::Cancelled {
        Some(i.updated_at)
    } else {
        None
    }
}

fn end_time(i: &WorkItem) -> (r: Option<Timestamp>)
    ensures
        r == end_of(*i),
{
    match i.status {
        WorkItemStatus::Done | WorkItemStatus::Failed | WorkItemStatus::Cancelled => Some(
            i.updated_at,
        ),
        _ => None,
    }
}

/// A story in the answer.
pub open spec fn story_status(
    s: WorkItem,
    items: Seq<WorkItem>,
    runs: Seq<TaskRuns>,
    wave: u32,
) -> JsonV {
    JsonV::object().with(
        "short_id"@,
        JsonV::Str(crate::plan_view::wave_id(wave, s.short_id@)),
    ).with("title"@, JsonV::Str(s.title@)).with("status"@, JsonV::Str(s.status.name())).with(
        "branch_name"@,
        JsonV::optional_text(s.branch_name),
    ).with("mr_url"@, JsonV::optional_text(s.mr_url)).with(
        "worktree_path"@,
        JsonV::optional_text(s.worktree_path),
    ).with("started_at"@, JsonV::Str(s.created_at.text())).with(
        "finished_at"@,
        optional_time(end_of(s)),
    ).with(
        "tasks"@,
        JsonV::Arr(
            crate::plan_view::children(items, ItemType::Task, s.id).map_values(
                |t: WorkItem| task_status(t, runs_of(task_ids(items), runs, t.id), wave),
            ),
        ),
    ).with("error_message"@, JsonV::optional_text(s.error_message))
}

/// An epic in the answer.
pub open spec fn epic_status(
    e: WorkItem,
    items: Seq<WorkItem>,
    runs: Seq<TaskRuns>,
    wave: u32,
) -> JsonV {
    JsonV::object().with(
        "short_id"@,
        JsonV::Str(crate::plan_view::wave_id(wave, e.short_id@)),
    ).with("title"@, JsonV::Str(e.title@)).with("status"@, JsonV::Str(e.status.name())).with(
        "started_at"@,
        JsonV::Str(e.created_at.text()),
    ).with("finished_at"@, optional_time(end_of(e))).with(
        "stories"@,
        JsonV::Arr(
            crate::plan_view::children(items, ItemType::Story, e.id).map_values(
                |s: WorkItem| story_status(s, items, runs, wave),
            ),
        ),
    ).with("error_message"@, JsonV::optional_text(e.error_message))
}

/// A wave in the answer; `runs` is of the tasks of the wave, in their order.
pub open spec fn wave_status(
    session: DecompositionSession,
    items: Seq<WorkItem>,
    runs: Seq<TaskRuns>,
) -> JsonV {
    JsonV::object().with("wave_number"@, JsonV::Int(session.wave_number as int)).with(
        "status"@,
        JsonV::Str(session.status.name()),
    ).with("error_message"@, JsonV::optional_text(session.error_message)).with(
        "summary"@,
        summary_view(crate::plan_view::stories(items)),
    ).with(
        "epics"@,
        JsonV::Arr(
            crate::plan_view::epics(items).map_values(
                |e: WorkItem| epic_status(e, items, runs, session.wave_number),
            ),
        ),
    )
}

fn task_json(t: &WorkItem, known: Option<&TaskRuns>, wave: u32) -> (r: Json)
    ensures
        r@ == task_status(
            *t,
            match known {
                Some(k) => Some(*k),
                None => None,
            },
            wave,
        ),
{
    let (exit_code, started, finished, count) = match known {
        Some(k) => match &k.latest {
            Some(run) => (
                match run.exit_code {
                    Some(c) => Json::I64(c as i64),
                    None => Json::Null,
                },
                Json::Str(run.started_at.to_rfc3339()),
                time_json(&run.finished_at),
                k.count,
            ),
            None => (Json::Null, Json::Null, Json::Null, k.count),
        },
        None => (Json::Null, Json::Null, Json::Null, 0u32),
    };
    Json::object().with("short_id", Json::Str(wave_short_id(wave, t.short_id.as_str()))).with(
        "title",
        Json::Str(t.title.clone()),
    ).with("status", Json::text(t.status.as_str())).with(
        "kind",
        match &t.kind {
            Some(k) => Json::text(k.as_str()),
            None => Json::Null,
        },
    ).with("exit_code", exit_code).with("retry_count", Json::U64(count as u64)).with(
        "started_at",
        started,
    ).with("finished_at", finished).with("error_message", Json::optional(&t.error_message))
}

fn story_json(
    s: &WorkItem,
    items: &Vec<WorkItem>,
    ids: &Vec<Uuid>,
    runs: &Vec<TaskRuns>,
    wave: u32,
) -> (r: Json)
    requires
        ids@ == task_ids(items@),
    ensures
        r@ == story_status(*s, items@, runs@, wave),
{
    let mut nodes: Vec<Json> = Vec::new();
    let mut i: usize = 0;
    let ghost parent = s.id;
    let ghost keep = |i: WorkItem| i.item_type == ItemType::Task && i.parent_id == Some(parent);
    let ghost node = |t: WorkItem| task_status(t, runs_of(task_ids(items@), runs@, t.id), wave);
    proof {
        crate::seqs::filter_none(items@, keep);
        assert(crate::json::json_views(nodes@) =~= Seq::<WorkItem>::empty().map_values(node));
    }
    while i < items.len()
        invariant
            i <= items@.len(),
            parent == s.id,
            ids@ == task_ids(items@),
            keep == (|i: WorkItem| i.item_type == ItemType::Task && i.parent_id == Some(parent)),
            node == (|t: WorkItem| task_status(t, runs_of(task_ids(items@), runs@, t.id), wave)),
            crate::json::json_views(nodes@) == items@.take(i as int).filter(keep).map_values(node),
        decreases items.len() - i,
    {
        let t = &items[i];
        proof {
            crate::seqs::filter_step(items@, i as int, keep);
            crate::seqs::map_push(items@.take(i as int).filter(keep), *t, node);
        }
        if is_child(t, ItemType::Task, s.id) {
            let ghost views = crate::json::json_views(nodes@);
            let entry = task_json(t, find_runs(ids, runs, t.id), wave);
            nodes.push(entry);
            assert(crate::json::json_views(nodes@) =~= views.push(entry@));
        }
        i += 1;
    }
    assert(items@.take(i as int) =~= items@);
    Json::object().with("short_id", Json::Str(wave_short_id(wave, s.short_id.as_str()))).with(
        "title",
        Json::Str(s.title.clone()),
    ).with("status", Json::text(s.status.as_str())).with(
        "branch_name",
        Json::optional(&s.branch_name),
    ).with("mr_url", Json::optional(&s.mr_url)).with(
        "worktree_path",
        Json::optional(&s.worktree_path),
    ).with("started_at", Json::Str(s.created_at.to_rfc3339())).with(
        "finished_at",
        time_json(&end_time(s)),
    ).with("tasks", Json::array(nodes)).with("error_message", Json::optional(&s.error_message))
}

fn epic_json(
    e: &WorkItem,
    items: &Vec<WorkItem>,
    ids: &Vec<Uuid>,
    runs: &Vec<TaskRuns>,
    wave: u32,
) -> (r: Json)
    requires
        ids@ == task_ids(items@),
    ensures
        r@ == epic_status(*e, items@, runs@, wave),
{
    let mut nodes: Vec<Json> = Vec::new();
    let mut i: usize = 0;
    let ghost parent = e.id;
    let ghost keep = |i: WorkItem| i.item_type == ItemType::Story && i.parent_id == Some(parent);
    let ghost node = |s: WorkItem| story_status(s, items@, runs@, wave);
    proof {
        crate::seqs::filter_none(items@, keep);
        assert(crate::json::json_views(nodes@) =~= Seq::<WorkItem>::empty().map_values(node));
    }
    while i < items.len()
        invariant
            i <= items@.len(),
            parent == e.id,
            ids@ == task_ids(items@),
            keep == (|i: WorkItem| i.item_type == ItemType::Story && i.parent_id == Some(parent)),
            node == (|s: WorkItem| story_status(s, items@, runs@, wave)),
            crate::json::json_views(nodes@) == items@.take(i as int).filter(keep).map_values(node),
        decreases items.len() - i,
    {
        let s = &items[i];
        proof {
            crate::seqs::filter_step(items@, i as int, keep);
            crate::seqs::map_push(items@.take(i as int).filter(keep), *s, node);
        }
        if is_child(s, ItemType::Story, e.id) {
            let ghost views = crate::json::json_views(nodes@);
            let entry = story_json(s, items, ids, runs, wave);
            nodes.push(entry);
            assert(crate::json::json_views(nodes@) =~= views.push(entry@));
        }
        i += 1;
    }
    assert(items@.take(i as int) =~= items@);
    Json::object().with("short_id", Json::Str(wave_short_id(wave, e.short_id.as_str()))).with(
        "title",
        Json::Str(e.title.clone()),
    ).with("status", Json::text(e.status.as_str())).with(
        "started_at",
        Json::Str(e.created_at.to_rfc3339()),
    ).with("finished_at", time_json(&end_time(e))).with("stories", Json::array(nodes)).with(
        "error_message",
        Json::optional(&e.error_message),
    )
}

/// A wave in the answer of `exec.status`.
pub fn wave_json(
    session: &DecompositionSession,
    items: &Vec<WorkItem>,
    ids: &Vec<Uuid>,
    runs: &Vec<TaskRuns>,
) -> (r: Json)
    requires
        ids@ == task_ids(items@),
    ensures
        r@ == wave_status(*session, items@, runs@),
{
    let wave = session.wave_number;
    let mut nodes: Vec<Json> = Vec::new();
    let mut i: usize = 0;
    let ghost keep = |i: WorkItem| i.item_type == ItemType::Epic;
    let ghost node = |e: WorkItem| epic_status(e, items@, runs@, wave);
    proof {
        crate::seqs::filter_none(items@, keep);
        assert(crate::json::json_views(nodes@) =~= Seq::<WorkItem>::empty().map_values(node));
    }
    while i < items.len()
        invariant
            i <= items@.len(),
            ids@ == task_ids(items@),
            keep == (|i: WorkItem| i.item_type == ItemType::Epic),
            node == (|e: WorkItem| epic_status(e, items@, runs@, wave)),
            crate::json::json_views(nodes@) == items@.take(i as int).filter(keep).map_values(node),
        decreases items.len() - i,
    {
        let e = &items[i];
        proof {
            crate::seqs::filter_step(items@, i as int, keep);
            crate::seqs::map_push(items@.take(i as int).filter(keep), *e, node);
        }
        if e.item_type == ItemType::Epic {
            let ghost views = crate::json::json_views(nodes@);
            let entry = epic_json(e, items, ids, runs, wave);
            nodes.push(entry);
            assert(crate::json::json_views(nodes@) =~= views.push(entry@));
        }
        i += 1;
    }
    assert(items@.take(i as int) =~= items@);
    Json::object().with("wave_number", Json::U64(wave as u64)).with(
        "status",
        Json::text(session.status.as_str()),
    ).with("error_message", Json::optional(&session.error_message)).with(
        "summary",
        summary_json(items),
    ).with("epics", Json::array(nodes))
}

// ---- the command ----

/// An `exec.status` request.
pub struct StatusJob {
    pub id: String,
    pub project_name: String,
    pub wave: Option<u32>,
}

/// The project and its waves that are shown; `done` holds what is ready of the answer.
pub struct Shown {
    pub project: Project,
    pub sessions: Vec<DecompositionSession>,
    pub running: u32,
    pub done: Vec<Json>,
}

pub enum StatusStep {
    Project,
    Sessions { project: Project },
    Running { project: Project, sessions: Vec<DecompositionSession> },
    Items { shown: Shown },
    /// The runs of the task after `runs` are being counted.
    Count { shown: Shown, items: Vec<WorkItem>, ids: Vec<Uuid>, runs: Vec<TaskRuns> },
    Latest { shown: Shown, items: Vec<WorkItem>, ids: Vec<Uuid>, runs: Vec<TaskRuns>, count: u32 },
}

pub type ExecStatus = Run<StatusJob, StatusStep>;

/// The whole answer.
pub open spec fn project_status(project: Project, running: u32, waves: Seq<JsonV>) -> JsonV {
    JsonV::object().with("project_name"@, JsonV::Str(project.name@)).with(
        "execution_enabled"@,
        JsonV::Bool(project.execution_enabled),
    ).with("running_count"@, JsonV::Int(running as int)).with("waves"@, JsonV::Arr(waves))
}

impl Shown {
    pub open spec fn session(self) -> DecompositionSession {
        self.sessions@[self.done@.len() as int]
    }
}

impl Run<StatusJob, StatusStep> {
    /// While waves are shown, one is left to show, and while tasks are looked at, one is left.
    pub open spec fn has_more(self) -> bool {
        match self.at {
            StatusStep::Items { shown } => shown.done.len() < shown.sessions.len(),
            StatusStep::Count { shown, items, ids, runs } => {
                &&& shown.done.len() < shown.sessions.len()
                &&& ids@ == task_ids(items@)
                &&& runs.len() < ids.len()
            },
            StatusStep::Latest { shown, items, ids, runs, .. } => {
                &&& shown.done.len() < shown.sessions.len()
                &&& ids@ == task_ids(items@)
                &&& runs.len() < ids.len()
            },
            _ => true,
        }
    }

    pub open spec fn accepts(self, ev: Event) -> bool {
        &&& self.has_more()
        &&& match self.at {
            StatusStep::Project => ev is MaybeProject,
            StatusStep::Sessions { .. } => ev is Sessions,
            StatusStep::Running { .. } => ev is AgentRuns,
            StatusStep::Items { .. } => ev is WorkItems,
            StatusStep::Count { .. } => ev is Count,
            StatusStep::Latest { .. } => ev is MaybeRun,
        }
    }

    pub open spec fn begins(req: Request, n: Next<ExecStatus>) -> bool {
        let p = req.params@;
        match p.text_field("project_name"@) {
            None => n.fails(req.id, crate::effects::missing_message("project_name"@)),
            Some(name) => {
                &&& n matches Next::Act(s, a)
                &&& n.goes(
                    s.job,
                    StatusStep::Project,
                    Action::GetProjectByName { name: s.job.project_name },
                )
                &&& s.job.id == req.id
                &&& s.job.project_name@ == name
                &&& s.job.wave == crate::plans::wave_of(p, "wave"@)
            },
        }
    }

    pub fn start(req: Request) -> (n: Next<ExecStatus>)
        ensures
            ExecStatus::begins(req, n),
            n matches Next::Act(s, a) ==> forall|e: Event| a.answered_by(e) ==> s.accepts(e),
    {
        let project_name = match req.params.str_field("project_name") {
            Some(v) => v,
            None => return missing_parameter(req.id, "project_name"),
        };
        let wave = wave_param(&req.params, "wave");
        let name = project_name.clone();
        Next::go(
            StatusJob { id: req.id, project_name, wave },
            StatusStep::Project,
            Action::GetProjectByName { name },
        )
    }

    /// Asks for the items of the next wave, or answers once every wave is ready.
    pub open spec fn shows_next(
        job: StatusJob,
        project: Project,
        sessions: Seq<DecompositionSession>,
        running: u32,
        done: Seq<JsonV>,
        n: Next<ExecStatus>,
    ) -> bool {
        if done.len() < sessions.len() {
            &&& n matches Next::Act(s, a)
            &&& s.at matches StatusStep::Items { shown }
            &&& shown.project == project
            &&& shown.sessions@ == sessions
            &&& shown.running == running
            &&& crate::json::json_views(shown.done@) == done
            &&& n.goes(job, s.at, Action::ListItems { session: sessions[done.len() as int].id })
        } else {
            n.replies(job.id, project_status(project, running, done))
        }
    }

    /// Looks at the task after `runs`, or has the wave ready once all are looked at.
    pub open spec fn looks_next(
        job: StatusJob,
        shown: Shown,
        items: Vec<WorkItem>,
        runs: Seq<TaskRuns>,
        n: Next<ExecStatus>,
    ) -> bool {
        let ids = task_ids(items@);
        if runs.len() < ids.len() {
            &&& n matches Next::Act(s, a)
            &&& s.at matches StatusStep::Count { shown: sh, items: it, ids: i, runs: r }
            &&& sh == shown
            &&& it == items
            &&& i@ == ids
            &&& r@ == runs
            &&& n.goes(job, s.at, Action::CountAgentRuns { task: ids[runs.len() as int] })
        } else {
            ExecStatus::shows_next(
                job,
                shown.project,
                shown.sessions@,
                shown.running,
                crate::json::json_views(shown.done@).push(
                    wave_status(shown.session(), items@, runs),
                ),
                n,
            )
        }
    }

    pub open spec fn follows(self, ev: Event, n: Next<ExecStatus>) -> bool {
        let job = self.job;
        match (self.at, ev) {
            (StatusStep::Project, Event::MaybeProject(r)) => match r {
                Err(e) => n.fails(job.id, crate::effects::database_message(e@)),
                Ok(None) => n.fails(job.id, crate::effects::no_project_message(job.project_name@)),
                Ok(Some(project)) => n.goes(
                    job,
                    StatusStep::Sessions { project },
                    Action::ListSessions { project: project.id },
                ),
            },
            (StatusStep::Sessions { project }, Event::Sessions(r)) => match r {
                Err(e) => n.fails(job.id, crate::effects::database_message(e@)),
                Ok(all) => match job.wave {
                    None => n.goes(
                        job,
                        StatusStep::Running { project, sessions: all },
                        Action::FindRunningAgents { project: project.id },
                    ),
                    Some(wave) => match crate::plans::find_wave(all@, wave) {
                        None => n.fails(job.id, crate::plans::no_wave_message(wave)),
                        Some(session) => {
                            &&& n matches Next::Act(s, a)
                            &&& s.at matches StatusStep::Running { project: p, sessions }
                            &&& p == project
                            &&& sessions@ == seq![session]
                            &&& n.goes(
                                job,
                                s.at,
                                Action::FindRunningAgents { project: project.id },
                            )
                        },
                    },
                },
            },
            (StatusStep::Running { project, sessions }, Event::AgentRuns(r)) => match r {
                Err(e) => n.fails(job.id, crate::effects::database_message(e@)),
                Ok(runs) => ExecStatus::shows_next(
                    job,
                    project,
                    sessions@,
                    runs@.len() as u32,
                    Seq::empty(),
                    n,
                ),
            },
            (StatusStep::Items { shown }, Event::WorkItems(r)) => match r {
                Err(e) => n.fails(job.id, crate::effects::database_message(e@)),
                Ok(items) => ExecStatus::looks_next(job, shown, items, Seq::empty(), n),
            },
            (StatusStep::Count { shown, items, ids, runs }, Event::Count(r)) => n.goes(
                job,
                StatusStep::Latest {
                    shown,
                    items,
                    ids,
                    runs,
                    count: crate::projects::count_or_zero(r),
                },
                Action::FindLatestRun { task: ids@[runs@.len() as int] },
            ),
            (StatusStep::Latest { shown, items, ids, runs, count }, Event::MaybeRun(r)) => {
                let latest = match r {
                    Ok(run) => run,
                    Err(_) => None,
                };
                ExecStatus::looks_next(job, shown, items, runs@.push(TaskRuns { count, latest }), n)
            },
            _ => false,
        }
    }

    pub fn step(self, ev: Event) -> (n: Next<ExecStatus>)
        requires
            self.accepts(ev),
        ensures
            self.follows(ev, n),
            n matches Next::Act(s, a) ==> forall|e: Event| a.answered_by(e) ==> s.accepts(e),
    {
        let Run { job, at } = self;
        match (at, ev) {
            (StatusStep::Project, Event::MaybeProject(r)) => match r {
                Err(e) => Next::database_error(job.id, e.as_str()),
                Ok(None) => no_project(job.id, job.project_name.as_str()),
                Ok(Some(project)) => {
                    let asked = project.id;
                    Next::go(
                        job,
                        StatusStep::Sessions { project },
                        Action::ListSessions { project: asked },
                    )
                },
            },
            (StatusStep::Sessions { project }, Event::Sessions(r)) => match r {
                Err(e) => Next::database_error(job.id, e.as_str()),
                Ok(all) => {
                    let asked = project.id;
                    let sessions = match job.wave {
                        None => all,
                        Some(wave) => match session_of_wave(&all, wave) {
                            None => return no_wave(job.id, wave),
                            Some(session) => {
                                let mut one: Vec<DecompositionSession> = Vec::new();
                                one.push(session);
                                assert(one@ =~= seq![session]);
                                one
                            },
                        },
                    };
                    Next::go(
                        job,
                        StatusStep::Running { project, sessions },
                        Action::FindRunningAgents { project: asked },
                    )
                },
            },
            (StatusStep::Running { project, sessions }, Event::AgentRuns(r)) => match r {
                Err(e) => Next::database_error(job.id, e.as_str()),
                Ok(runs) => {
                    let done: Vec<Json> = Vec::new();
                    assert(crate::json::json_views(done@) =~= Seq::empty());
                    show_next(
                        job,
                        Shown { project, sessions, running: runs.len() as u32, done },
                    )
                },
            },
            (StatusStep::Items { shown }, Event::WorkItems(r)) => match r {
                Err(e) => Next::database_error(job.id, e.as_str()),
                Ok(items) => {
                    let ids = ids_of_tasks(&items);
                    let runs: Vec<TaskRuns> = Vec::new();
                    assert(runs@ =~= Seq::empty());
                    look_next(job, shown, items, ids, runs)
                },
            },
            (StatusStep::Count { shown, items, ids, runs }, Event::Count(r)) => {
                let task = ids[runs.len()];
                let count: u32 = match r {
                    Ok(c) => c,
                    Err(_) => 0,
                };
                Next::go(
                    job,
                    StatusStep::Latest { shown, items, ids, runs, count },
                    Action::FindLatestRun { task },
                )
            },
            (StatusStep::Latest { shown, items, ids, runs, count }, Event::MaybeRun(r)) => {
                let latest = match r {
                    Ok(run) => run,
                    Err(_) => None,
                };
                let mut runs = runs;
                runs.push(TaskRuns { count, latest });
                look_next(job, shown, items, ids, runs)
            },
            _ => Next::End,
        }
    }
}

fn show_next(job: StatusJob, shown: Shown) -> (n: Next<ExecStatus>)
    requires
        shown.done@.len() <= shown.sessions@.len(),
    ensures
        ExecStatus::shows_next(
            job,
            shown.project,
            shown.sessions@,
            shown.running,
            crate::json::json_views(shown.done@),
            n,
        ),
        n matches Next::Act(s, a) ==> forall|e: Event| a.answered_by(e) ==> s.accepts(e),
{
    if shown.done.len() < shown.sessions.len() {
        let session = shown.sessions[shown.done.len()].id;
        Next::go(job, StatusStep::Items { shown }, Action::ListItems { session })
    } else {
        Next::reply(
            job.id,
            Json::object().with("project_name", Json::Str(shown.project.name)).with(
                "execution_enabled",
                Json::Bool(shown.project.execution_enabled),
            ).with("running_count", Json::U64(shown.running as u64)).with(
                "waves",
                Json::array(shown.done),
            ),
        )
    }
}

fn look_next(
    job: StatusJob,
    shown: Shown,
    items: Vec<WorkItem>,
    ids: Vec<Uuid>,
    runs: Vec<TaskRuns>,
) -> (n: Next<ExecStatus>)
    requires
        shown.done.len() < shown.sessions.len(),
        ids@ == task_ids(items@),
    ensures
        ExecStatus::looks_next(job, shown, items, runs@, n),
        n matches Next::Act(s, a) ==> forall|e: Event| a.answered_by(e) ==> s.accepts(e),
{
    if runs.len() < ids.len() {
        let task = ids[runs.len()];
        Next::go(
            job,
            StatusStep::Count { shown, items, ids, runs },
            Action::CountAgentRuns { task },
        )
    } else {
        let entry = wave_json(&shown.sessions[shown.done.len()], &items, &ids, &runs);
        let mut shown = shown;
        let ghost views = crate::json::json_views(shown.done@);
        shown.done.push(entry);
        assert(crate::json::json_views(shown.done@) =~= views.push(entry@));
        show_next(job, shown)
    }
}

} // verus!
