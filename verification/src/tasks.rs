//! `exec.retry` and `exec.skip`: what becomes of a failed task.
use vstd::prelude::*;
use crate::effects::{missing_parameter, Action, Event, Next, Run};
use crate::ident::Uuid;
use crate::json::{Json, JsonV};
use crate::launch::{find_partner, is_kind, Launch, Launching, LaunchMode, LaunchNext, LaunchStep};
use crate::model::{copy_items, copy_text, ItemType, TaskKind, WorkItem, WorkItemStatus};
use crate::protocol::Request;
use crate::text::{after_last, cat, cat3, cat5, trim, u64_text};

verus! {

/// A request about a failed task.
pub struct TaskJob {
    pub id: String,
    pub task_id: String,
}

pub open spec fn no_task_message(task_id: Seq<char>) -> Seq<char> {
    "NOT_FOUND: task '"@ + task_id + "' not found"@
}

pub open spec fn no_story_message(task_id: Seq<char>) -> Seq<char> {
    "NOT_FOUND: parent story for task '"@ + task_id + "' not found"@
}

/// Why an item cannot be retried or skipped, if it cannot.
pub open spec fn task_problem(task: WorkItem, task_id: Seq<char>) -> Option<Seq<char>> {
    if task.status != WorkItemStatus::Failed {
        Some(
            "INVALID_STATE: task '"@ + task_id + "' is in '"@ + task.status.name()
                + "' state, expected 'failed'"@,
        )
    } else if task.item_type != ItemType::Task {
        Some("INVALID_PARAMS: '"@ + task_id + "' is not a task"@)
    } else if task.parent_id is None {
        Some("INVALID_STATE: task '"@ + task_id + "' has no parent story"@)
    } else {
        None
    }
}

/// The story of a failed task, or why it cannot be retried or skipped.
fn check_task(task: &WorkItem, task_id: &str) -> (r: Result<Uuid, String>)
    ensures
        match r {
            Ok(story) => task_problem(*task, task_id@) is None && task.parent_id == Some(story),
            Err(m) => task_problem(*task, task_id@) == Some(m@),
        },
{
    if task.status != WorkItemStatus::Failed {
        return Err(
            cat5(
                "INVALID_STATE: task '",
                task_id,
                "' is in '",
                task.status.as_str(),
                "' state, expected 'failed'",
            ),
        );
    }
    if task.item_type != ItemType::Task {
        return Err(cat3("INVALID_PARAMS: '", task_id, "' is not a task"));
    }
    match task.parent_id {
        Some(story) => Ok(story),
        None => Err(cat3("INVALID_STATE: task '", task_id, "' has no parent story")),
    }
}

// ---- exec.retry ----

/// The last of the items that stand furthest back in their order.
pub open spec fn latest(items: Seq<WorkItem>) -> Option<WorkItem>
    decreases items.len(),
{
    if items.len() == 0 {
        None
    } else {
        match latest(items.drop_last()) {
            Some(best) => if best.sort_order > items.last().sort_order {
                Some(best)
            } else {
                Some(items.last())
            },
            None => Some(items.last()),
        }
    }
}

/// The commit of the implementation task that was done before `task`, if it has one.
pub open spec fn previous_commit(tasks: Seq<WorkItem>, task: WorkItem) -> Option<String> {
    match latest(
        tasks.filter(
            |t: WorkItem|
                t.item_type == ItemType::Task && t.kind == Some(TaskKind::Impl) && t.sort_order
                    < task.sort_order && t.status == WorkItemStatus::Done,
        ),
    ) {
        Some(t) => t.commit_hash,
        None => None,
    }
}

fn find_previous_commit(tasks: &Vec<WorkItem>, task: &WorkItem) -> (r: Option<String>)
    ensures
        r == previous_commit(tasks@, *task),
{
    let ghost keep = |t: WorkItem|
        t.item_type == ItemType::Task && t.kind == Some(TaskKind::Impl) && t.sort_order
            < task.sort_order && t.status == WorkItemStatus::Done;
    proof {
        crate::seqs::filter_none(tasks@, keep);
    }
    let mut best: Option<usize> = None;
    let mut i: usize = 0;
    while i < tasks.len()
        invariant
            i <= tasks@.len(),
            keep == (|t: WorkItem|
                t.item_type == ItemType::Task && t.kind == Some(TaskKind::Impl) && t.sort_order
                    < task.sort_order && t.status == WorkItemStatus::Done),
            match best {
                Some(b) => b < i && latest(tasks@.take(i as int).filter(keep)) == Some(
                    tasks@[b as int],
                ),
                None => latest(tasks@.take(i as int).filter(keep)) is None,
            },
        decreases tasks.len() - i,
    {
        let t = &tasks[i];
        proof {
            crate::seqs::filter_step(tasks@, i as int, keep);
            let before = tasks@.take(i as int).filter(keep);
            if keep(*t) {
                assert(before.push(*t).drop_last() =~= before);
            }
        }
        if t.item_type == ItemType::Task && is_kind(&t.kind, TaskKind::Impl) && t.sort_order
            < task.sort_order && t.status == WorkItemStatus::Done {
            best = match best {
                Some(b) => if tasks[b].sort_order > t.sort_order {
                    Some(b)
                } else {
                    Some(i)
                },
                None => Some(i),
            };
        }
        i += 1;
    }
    assert(tasks@.take(i as int) =~= tasks@);
    match best {
        Some(b) => copy_text(&tasks[b].commit_hash),
        None => None,
    }
}

/// The last line of what `git reflog` printed, if it printed anything.
pub open spec fn last_line(out: Seq<char>) -> Option<Seq<char>> {
    let text = crate::text::trimmed(out);
    if text.len() == 0 {
        None
    } else {
        Some(
            crate::text::trimmed(
                match crate::text::last_position(text, '\n') {
                    Some(p) => text.skip(p + 1),
                    None => text,
                },
            ),
        )
    }
}

fn read_last_line(out: &str) -> (r: Option<String>)
    ensures
        crate::text::is_text(r, last_line(out@)),
{
    let text = trim(out);
    if text.is_empty() {
        return None;
    }
    let line = match after_last(text, '\n') {
        Some(rest) => rest,
        None => text,
    };
    Some(trim(line).to_owned())
}

#[allow(inconsistent_fields)]
pub enum RetryStep {
    Find,
    Story { task: WorkItem },
    Siblings { task: WorkItem, story: WorkItem, worktree: String },
    Reflog { task: WorkItem, story: WorkItem, worktree: String },
    Reset { task: WorkItem, story: WorkItem, worktree: String },
    Clean { task: WorkItem, story: WorkItem },
    Count { task: WorkItem, story: WorkItem },
    MarkTask { task: WorkItem, story: WorkItem, count: u32 },
    MarkStory { task: WorkItem, story: WorkItem, count: u32 },
    Launch { launching: Launching, count: u32 },
    /// The agent could not be started, and the task is failed again.
    Revert { message: String },
}

pub type TaskRetry = Run<TaskJob, RetryStep>;

/// The data that answers an `exec.retry`.
pub open spec fn retried(task_id: Seq<char>, count: u32) -> JsonV {
    let data = JsonV::object().with("task_id"@, JsonV::Str(task_id)).with(
        "retry_count"@,
        JsonV::Int(count + 1),
    );
    if count >= 3 {
        data.with(
            "warning"@,
            JsonV::Str(
                "task has been retried "@ + crate::text::decimal(count as nat)
                    + " times already"@,
            ),
        )
    } else {
        data
    }
}

fn retry_data(task_id: String, count: u32) -> (r: Json)
    requires
        count < u32::MAX,
    ensures
        r@ == retried(task_id@, count),
{
    let data = Json::object().with("task_id", Json::Str(task_id)).with(
        "retry_count",
        Json::U64(count as u64 + 1),
    );
    if count >= 3 {
        let n = u64_text(count as u64);
        data.with(
            "warning",
            Json::Str(cat3("task has been retried ", n.as_str(), " times already")),
        )
    } else {
        data
    }
}

impl Run<TaskJob, RetryStep> {
    pub open spec fn accepts(self, ev: Event) -> bool {
        match self.at {
            RetryStep::Find | RetryStep::Story { .. } => ev is MaybeItem,
            RetryStep::Siblings { .. } => ev is WorkItems,
            RetryStep::Reflog { .. } => ev is Git,
            RetryStep::Reset { .. } => ev is Command,
            RetryStep::Count { .. } => ev matches Event::Count(r) && (r matches Ok(n) ==> n
                < u32::MAX),
            RetryStep::MarkTask { count, .. } => ev is Done && count < u32::MAX,
            RetryStep::MarkStory { count, .. } => ev is Done && count < u32::MAX,
            RetryStep::Launch { launching, count } => launching.accepts(ev) && count < u32::MAX,
            _ => ev is Done,
        }
    }

    pub open spec fn begins(req: Request, n: Next<TaskRetry>) -> bool {
        match req.params@.text_field("task_id"@) {
            None => n.fails(req.id, crate::effects::missing_message("task_id"@)),
            Some(task_id) => {
                &&& n matches Next::Act(s, a)
                &&& n.goes(
                    s.job,
                    RetryStep::Find,
                    Action::FindItemByWaveId { text: s.job.task_id },
                )
                &&& s.job.id == req.id
                &&& s.job.task_id@ == task_id
            },
        }
    }

    pub fn start(req: Request) -> (n: Next<TaskRetry>)
        ensures
            TaskRetry::begins(req, n),
            n matches Next::Act(s, a) ==> forall|e: Event| a.answered_by(e) ==> s.accepts(e),
    {
        let task_id = match req.params.str_field("task_id") {
            Some(v) => v,
            None => return missing_parameter(req.id, "task_id"),
        };
        let text = task_id.clone();
        Next::go(
            TaskJob { id: req.id, task_id },
            RetryStep::Find,
            Action::FindItemByWaveId { text },
        )
    }

    /// Resets the worktree to the target.
    pub open spec fn resets(
        job: TaskJob,
        task: WorkItem,
        story: WorkItem,
        worktree: String,
        target: Seq<char>,
        n: Next<TaskRetry>,
    ) -> bool {
        &&& n matches Next::Act(s, Action::GitReset { dir, target: t })
        &&& dir == worktree
        &&& t@ == target
        &&& s == Run { job, at: RetryStep::Reset { task, story, worktree } }
    }

    /// Starts the agent on the task.
    pub open spec fn launches(
        job: TaskJob,
        task: WorkItem,
        story: WorkItem,
        count: u32,
        n: Next<TaskRetry>,
    ) -> bool {
        let launch = Launch {
            task,
            session: task.decomposition_session_id,
            story: story.id,
            worktree: story.worktree_path,
            mode: LaunchMode::Retry,
        };
        n.goes(
            job,
            RetryStep::Launch { launching: Launching { launch, at: LaunchStep::Session }, count },
            Action::GetSession { session: launch.session },
        )
    }

    /// What follows from a step in the start of the agent.
    pub open spec fn carries(
        job: TaskJob,
        task: WorkItem,
        count: u32,
        m: LaunchNext,
        n: Next<TaskRetry>,
    ) -> bool {
        match m {
            LaunchNext::Act(launching, action) => n.goes(
                job,
                RetryStep::Launch { launching, count },
                action,
            ),
            LaunchNext::Started => n.replies(job.id, retried(job.task_id@, count)),
            LaunchNext::NoWorktree => n.fails(
                job.id,
                "INVALID_STATE: story has no worktree, cannot retry task '"@ + job.task_id@
                    + "'"@,
            ),
            LaunchNext::Failed { message, spawning } => if spawning {
                n.goes(
                    job,
                    RetryStep::Revert { message },
                    Action::UpdateItemStatus { item: task.id, status: WorkItemStatus::Failed },
                )
            } else {
                n.fails(job.id, message@)
            },
        }
    }

    pub open spec fn follows(self, ev: Event, n: Next<TaskRetry>) -> bool {
        let job = self.job;
        match (self.at, ev) {
            (RetryStep::Find, Event::MaybeItem(r)) => match r {
                Err(e) => n.fails(job.id, crate::effects::database_message(e@)),
                Ok(None) => n.fails(job.id, no_task_message(job.task_id@)),
                Ok(Some(task)) => match task_problem(task, job.task_id@) {
                    Some(message) => n.fails(job.id, message),
                    None => n.goes(
                        job,
                        RetryStep::Story { task },
                        Action::GetItem { item: task.parent_id.unwrap() },
                    ),
                },
            },
            (RetryStep::Story { task }, Event::MaybeItem(r)) => match r {
                Err(e) => n.fails(job.id, crate::effects::database_message(e@)),
                Ok(None) => n.fails(job.id, no_story_message(job.task_id@)),
                Ok(Some(story)) => match story.worktree_path {
                    Some(worktree) => if task.kind == Some(TaskKind::Impl) {
                        n.goes(
                            job,
                            RetryStep::Siblings { task, story, worktree },
                            Action::ListChildren { parent: story.id },
                        )
                    } else {
                        n.goes(
                            job,
                            RetryStep::Count { task, story },
                            Action::CountAgentRuns { task: task.id },
                        )
                    },
                    None => n.goes(
                        job,
                        RetryStep::Count { task, story },
                        Action::CountAgentRuns { task: task.id },
                    ),
                },
            },
            (RetryStep::Siblings { task, story, worktree }, Event::WorkItems(r)) => match r {
                Err(e) => n.fails(job.id, crate::effects::database_message(e@)),
                Ok(siblings) => match previous_commit(siblings@, task) {
                    Some(commit) => TaskRetry::resets(job, task, story, worktree, commit@, n),
                    None => n.goes(
                        job,
                        RetryStep::Reflog { task, story, worktree },
                        Action::GitReflog { dir: worktree },
                    ),
                },
            },
            (RetryStep::Reflog { task, story, worktree }, Event::Git(out)) => {
                let base = match out {
                    Some(o) => if o.success {
                        last_line(o.stdout@)
                    } else {
                        None
                    },
                    None => None,
                };
                match base {
                    Some(hash) => TaskRetry::resets(job, task, story, worktree, hash, n),
                    None => n.fails(
                        job.id,
                        "failed to determine base commit for worktree reset"@,
                    ),
                }
            },
            (RetryStep::Reset { task, story, worktree }, Event::Command(r)) => match r {
                Err(e) => n.fails(job.id, "failed to reset worktree: "@ + e@),
                Ok(out) => if out.success {
                    n.goes(
                        job,
                        RetryStep::Clean { task, story },
                        Action::GitClean { dir: worktree },
                    )
                } else {
                    n.fails(
                        job.id,
                        "failed to reset worktree: "@ + crate::text::trimmed(out.stderr@),
                    )
                },
            },
            (RetryStep::Clean { task, story }, Event::Done(_)) => n.goes(
                job,
                RetryStep::Count { task, story },
                Action::CountAgentRuns { task: task.id },
            ),
            (RetryStep::Count { task, story }, Event::Count(r)) => match r {
                Err(e) => n.fails(job.id, crate::effects::database_message(e@)),
                Ok(count) => n.goes(
                    job,
                    RetryStep::MarkTask { task, story, count },
                    Action::UpdateItemStatus { item: task.id, status: WorkItemStatus::InProgress },
                ),
            },
            (RetryStep::MarkTask { task, story, count }, Event::Done(r)) => match r {
                Err(e) => n.fails(job.id, crate::effects::database_message(e@)),
                Ok(_) => if story.status == WorkItemStatus::Failed {
                    n.goes(
                        job,
                        RetryStep::MarkStory { task, story, count },
                        Action::UpdateItemStatus {
                            item: story.id,
                            status: WorkItemStatus::InProgress,
                        },
                    )
                } else {
                    TaskRetry::launches(job, task, story, count, n)
                },
            },
            (RetryStep::MarkStory { task, story, count }, Event::Done(r)) => match r {
                Err(e) => n.fails(job.id, crate::effects::database_message(e@)),
                Ok(_) => TaskRetry::launches(job, task, story, count, n),
            },
            (RetryStep::Launch { launching, count }, _) => exists|m: LaunchNext| #[trigger]
                launching.follows(ev, m) && TaskRetry::carries(
                    job,
                    launching.launch.task,
                    count,
                    m,
                    n,
                ),
            (RetryStep::Revert { message }, Event::Done(_)) => n.fails(job.id, message@),
            _ => false,
        }
    }

    pub fn step(self, ev: Event) -> (n: Next<TaskRetry>)
        requires
            self.accepts(ev),
        ensures
            self.follows(ev, n),
            n matches Next::Act(s, a) ==> forall|e: Event| a.answered_by(e) ==> s.accepts(e),
    {
        let Run { job, at } = self;
        match (at, ev) {
            (RetryStep::Find, Event::MaybeItem(r)) => match r {
                Err(e) => Next::database_error(job.id, e.as_str()),
                Ok(None) => Next::fail(
                    job.id,
                    cat3("NOT_FOUND: task '", job.task_id.as_str(), "' not found").as_str(),
                ),
                Ok(Some(task)) => match check_task(&task, job.task_id.as_str()) {
                    Err(m) => Next::fail(job.id, m.as_str()),
                    Ok(item) => Next::go(job, RetryStep::Story { task }, Action::GetItem { item }),
                },
            },
            (RetryStep::Story { task }, Event::MaybeItem(r)) => match r {
                Err(e) => Next::database_error(job.id, e.as_str()),
                Ok(None) => Next::fail(
                    job.id,
                    cat3(
                        "NOT_FOUND: parent story for task '",
                        job.task_id.as_str(),
                        "' not found",
                    ).as_str(),
                ),
                Ok(Some(story)) => match copy_text(&story.worktree_path) {
                    Some(worktree) => if is_kind(&task.kind, TaskKind::Impl) {
                        let parent = story.id;
                        Next::go(
                            job,
                            RetryStep::Siblings { task, story, worktree },
                            Action::ListChildren { parent },
                        )
                    } else {
                        count_runs(job, task, story)
                    },
                    None => count_runs(job, task, story),
                },
            },
            (RetryStep::Siblings { task, story, worktree }, Event::WorkItems(r)) => match r {
                Err(e) => Next::database_error(job.id, e.as_str()),
                Ok(siblings) => match find_previous_commit(&siblings, &task) {
                    Some(commit) => reset_worktree(job, task, story, worktree, commit),
                    None => {
                        let dir = worktree.clone();
                        Next::go(
                            job,
                            RetryStep::Reflog { task, story, worktree },
                            Action::GitReflog { dir },
                        )
                    },
                },
            },
            (RetryStep::Reflog { task, story, worktree }, Event::Git(out)) => {
                let base = match out {
                    Some(o) => if o.success {
                        read_last_line(o.stdout.as_str())
                    } else {
                        None
                    },
                    None => None,
                };
                match base {
                    Some(hash) => reset_worktree(job, task, story, worktree, hash),
                    None => Next::fail(
                        job.id,
                        "failed to determine base commit for worktree reset",
                    ),
                }
            },
            (RetryStep::Reset { task, story, worktree }, Event::Command(r)) => match r {
                Err(e) => Next::fail(
                    job.id,
                    cat("failed to reset worktree: ", e.as_str()).as_str(),
                ),
                Ok(out) => if out.success {
                    Next::go(
                        job,
                        RetryStep::Clean { task, story },
                        Action::GitClean { dir: worktree },
                    )
                } else {
                    Next::fail(
                        job.id,
                        cat("failed to reset worktree: ", trim(out.stderr.as_str())).as_str(),
                    )
                },
            },
            (RetryStep::Clean { task, story }, Event::Done(_)) => count_runs(job, task, story),
            (RetryStep::Count { task, story }, Event::Count(r)) => match r {
                Err(e) => Next::database_error(job.id, e.as_str()),
                Ok(count) => {
                    let item = task.id;
                    Next::go(
                        job,
                        RetryStep::MarkTask { task, story, count },
                        Action::UpdateItemStatus { item, status: WorkItemStatus::InProgress },
                    )
                },
            },
            (RetryStep::MarkTask { task, story, count }, Event::Done(r)) => match r {
                Err(e) => Next::database_error(job.id, e.as_str()),
                Ok(_) => if story.status == WorkItemStatus::Failed {
                    let item = story.id;
                    Next::go(
                        job,
                        RetryStep::MarkStory { task, story, count },
                        Action::UpdateItemStatus { item, status: WorkItemStatus::InProgress },
                    )
                } else {
                    launch_retry(job, task, story, count)
                },
            },
            (RetryStep::MarkStory { task, story, count }, Event::Done(r)) => match r {
                Err(e) => Next::database_error(job.id, e.as_str()),
                Ok(_) => launch_retry(job, task, story, count),
            },
            (RetryStep::Launch { launching, count }, ev) => {
                let task = launching.launch.task.id;
                match launching.step(ev) {
                    LaunchNext::Act(launching, action) => Next::go(
                        job,
                        RetryStep::Launch { launching, count },
                        action,
                    ),
                    LaunchNext::Started => Next::reply(job.id, retry_data(job.task_id, count)),
                    LaunchNext::NoWorktree => Next::fail(
                        job.id,
                        cat3(
                            "INVALID_STATE: story has no worktree, cannot retry task '",
                            job.task_id.as_str(),
                            "'",
                        ).as_str(),
                    ),
                    LaunchNext::Failed { message, spawning } => if spawning {
                        Next::go(
                            job,
                            RetryStep::Revert { message },
                            Action::UpdateItemStatus { item: task, status: WorkItemStatus::Failed },
                        )
                    } else {
                        Next::fail(job.id, message.as_str())
                    },
                }
            },
            (RetryStep::Revert { message }, Event::Done(_)) => {
                Next::fail(job.id, message.as_str())
            },
            _ => Next::End,
        }
    }
}

fn count_runs(job: TaskJob, task: WorkItem, story: WorkItem) -> (n: Next<TaskRetry>)
    ensures
        n.goes(
            job,
            RetryStep::Count { task, story },
            Action::CountAgentRuns { task: task.id },
        ),
{
    let asked = task.id;
    Next::go(job, RetryStep::Count { task, story }, Action::CountAgentRuns { task: asked })
}

fn reset_worktree(
    job: TaskJob,
    task: WorkItem,
    story: WorkItem,
    worktree: String,
    target: String,
) -> (n: Next<TaskRetry>)
    ensures
        TaskRetry::resets(job, task, story, worktree, target@, n),
{
    let dir = worktree.clone();
    Next::go(job, RetryStep::Reset { task, story, worktree }, Action::GitReset { dir, target })
}

fn launch_retry(job: TaskJob, task: WorkItem, story: WorkItem, count: u32) -> (n: Next<TaskRetry>)
    ensures
        TaskRetry::launches(job, task, story, count, n),
{
    let session = task.decomposition_session_id;
    let launch = Launch {
        task,
        session,
        story: story.id,
        worktree: story.worktree_path,
        mode: LaunchMode::Retry,
    };
    Next::go(
        job,
        RetryStep::Launch { launching: Launching { launch, at: LaunchStep::Session }, count },
        Action::GetSession { session },
    )
}

/// The latest of the items is one of them, and none stands further back.
pub proof fn law_the_latest_is_last(items: Seq<WorkItem>)
    ensures
        items.len() > 0 <==> latest(items) is Some,
        latest(items) matches Some(t) ==> items.contains(t) && forall|i: int|
            0 <= i < items.len() ==> (#[trigger] items[i]).sort_order <= t.sort_order,
    decreases items.len(),
{
    if items.len() > 0 {
        let init = items.drop_last();
        law_the_latest_is_last(init);
        assert(items == init.push(items.last()));
        match latest(init) {
            Some(b) => crate::seqs::push_contains(init, items.last(), b),
            None => {},
        }
        assert(items.contains(items.last()));
        assert forall|i: int| 0 <= i < items.len() implies (#[trigger] items[i]).sort_order
            <= latest(items)->0.sort_order by {
            if i < init.len() {
                assert(init[i] == items[i]);
            }
        }
    }
}

// ---- exec.skip ----

/// What becomes of the task that would have verified a skipped one, if it changes.
pub open spec fn skipped_status(status: WorkItemStatus) -> Option<WorkItemStatus> {
    match status {
        WorkItemStatus::Pending => Some(WorkItemStatus::Cancelled),
        WorkItemStatus::Failed => Some(WorkItemStatus::Done),
        _ => None,
    }
}

pub fn status_when_skipped(status: WorkItemStatus) -> (r: Option<WorkItemStatus>)
    ensures
        r == skipped_status(status),
{
    match status {
        WorkItemStatus::Pending => Some(WorkItemStatus::Cancelled),
        WorkItemStatus::Failed => Some(WorkItemStatus::Done),
        _ => None,
    }
}

/// The task that verifies `task`, with the status that it gets, if that changes.
pub open spec fn verify_change(
    tasks: Seq<WorkItem>,
    task: WorkItem,
) -> Option<(WorkItem, WorkItemStatus)> {
    match crate::launch::partner(tasks, task, TaskKind::Verify, 1) {
        Some(v) => match skipped_status(v.status) {
            Some(status) => Some((v, status)),
            None => None,
        },
        None => None,
    }
}

pub fn find_verify_change<'a>(tasks: &'a Vec<WorkItem>, task: &WorkItem) -> (r: Option<
    (&'a WorkItem, WorkItemStatus),
>)
    ensures
        match r {
            Some((v, status)) => verify_change(tasks@, *task) == Some((*v, status)),
            None => verify_change(tasks@, *task) is None,
        },
{
    match find_partner(tasks, task, TaskKind::Verify, 1) {
        Some(v) => match status_when_skipped(v.status) {
            Some(status) => Some((v, status)),
            None => None,
        },
        None => None,
    }
}

/// With a skipped task only the task of the same story that follows and verifies it changes, and
/// it is then no longer pending or failed.
pub proof fn law_a_skipped_task_is_not_verified(tasks: Seq<WorkItem>, task: WorkItem)
    ensures
        verify_change(tasks, task) matches Some((v, status)) ==> v.kind == Some(
            TaskKind::Verify,
        ) && v.parent_id == task.parent_id && v.sort_order == task.sort_order + 1 && tasks.contains(
            v,
        ) && status != v.status && (status == WorkItemStatus::Done || status
            == WorkItemStatus::Cancelled),
{
    crate::seqs::first_is_wanted(
        tasks,
        |t: WorkItem|
            t.item_type == ItemType::Task && t.kind == Some(TaskKind::Verify) && t.parent_id
                == task.parent_id && t.sort_order == task.sort_order + 1,
    );
}

/// Whether every task is done or cancelled.
pub open spec fn all_finished(tasks: Seq<WorkItem>) -> bool {
    forall|i: int|
        0 <= i < tasks.len() && (#[trigger] tasks[i]).item_type == ItemType::Task ==> (
        tasks[i].status == WorkItemStatus::Done || tasks[i].status == WorkItemStatus::Cancelled)
}

pub fn are_finished(tasks: &Vec<WorkItem>) -> (r: bool)
    ensures
        r == all_finished(tasks@),
{
    let mut i: usize = 0;
    while i < tasks.len()
        invariant
            i <= tasks@.len(),
            forall|k: int|
                0 <= k < i && (#[trigger] tasks@[k]).item_type == ItemType::Task ==> (
                tasks@[k].status == WorkItemStatus::Done || tasks@[k].status
                    == WorkItemStatus::Cancelled),
        decreases tasks.len() - i,
    {
        let t = &tasks[i];
        if t.item_type == ItemType::Task && t.status != WorkItemStatus::Done && t.status
            != WorkItemStatus::Cancelled {
            return false;
        }
        i += 1;
    }
    true
}

#[allow(inconsistent_fields)]
pub enum SkipStep {
    Find,
    Story { task: WorkItem },
    MarkDone { task: WorkItem, story: WorkItem },
    Siblings { task: WorkItem, story: WorkItem },
    MarkVerify { task: WorkItem, story: WorkItem, verify: String },
    Tasks { task: WorkItem, story: WorkItem, verify: Option<String> },
    NextTask { task: WorkItem, story: WorkItem, verify: Option<String>, tasks: Vec<WorkItem> },
    MarkNext { task: WorkItem, story: WorkItem, verify: Option<String>, next: WorkItem },
    MarkStory { task: WorkItem, story: WorkItem, verify: Option<String>, next: WorkItem },
    Launch { launching: Launching, verify: Option<String> },
    /// The agent could not be started, and the next task is pending again.
    Revert { message: String },
    /// The story is marked as done.
    Finish { verify: Option<String> },
}

pub type TaskSkip = Run<TaskJob, SkipStep>;

/// The data that answers an `exec.skip`.
pub open spec fn skipped(
    task_id: Seq<char>,
    next: Option<Seq<char>>,
    completed: bool,
    verify: Option<String>,
) -> JsonV {
    let data = JsonV::object().with("task_id"@, JsonV::Str(task_id));
    let data = match next {
        Some(short_id) => data.with("next_task_id"@, JsonV::Str(short_id)),
        None => data,
    };
    let data = if completed {
        data.with("story_completed"@, JsonV::Bool(true))
    } else {
        data
    };
    match verify {
        Some(v) => data.with("skipped_verify"@, JsonV::Str(v@)),
        None => data,
    }
}

fn skip_reply(
    job: TaskJob,
    next: Option<String>,
    completed: bool,
    verify: Option<String>,
) -> (n: Next<TaskSkip>)
    ensures
        n.replies(
            job.id,
            skipped(
                job.task_id@,
                match next {
                    Some(s) => Some(s@),
                    None => None,
                },
                completed,
                verify,
            ),
        ),
{
    let mut data = Json::object().with("task_id", Json::Str(job.task_id));
    if let Some(short_id) = next {
        data = data.with("next_task_id", Json::Str(short_id));
    }
    if completed {
        data = data.with("story_completed", Json::Bool(true));
    }
    if let Some(v) = verify {
        data = data.with("skipped_verify", Json::Str(v));
    }
    Next::reply(job.id, data)
}

impl Run<TaskJob, SkipStep> {
    pub open spec fn accepts(self, ev: Event) -> bool {
        match self.at {
            SkipStep::Find | SkipStep::Story { .. } => ev is MaybeItem,
            SkipStep::Siblings { .. } | SkipStep::Tasks { .. } => ev is WorkItems,
            SkipStep::NextTask { .. } => ev is NextTask,
            SkipStep::Launch { launching, .. } => launching.accepts(ev),
            _ => ev is Done,
        }
    }

    pub open spec fn begins(req: Request, n: Next<TaskSkip>) -> bool {
        match req.params@.text_field("task_id"@) {
            None => n.fails(req.id, crate::effects::missing_message("task_id"@)),
            Some(task_id) => {
                &&& n matches Next::Act(s, a)
                &&& n.goes(
                    s.job,
                    SkipStep::Find,
                    Action::FindItemByWaveId { text: s.job.task_id },
                )
                &&& s.job.id == req.id
                &&& s.job.task_id@ == task_id
            },
        }
    }

    pub fn start(req: Request) -> (n: Next<TaskSkip>)
        ensures
            TaskSkip::begins(req, n),
            n matches Next::Act(s, a) ==> forall|e: Event| a.answered_by(e) ==> s.accepts(e),
    {
        let task_id = match req.params.str_field("task_id") {
            Some(v) => v,
            None => return missing_parameter(req.id, "task_id"),
        };
        let text = task_id.clone();
        Next::go(
            TaskJob { id: req.id, task_id },
            SkipStep::Find,
            Action::FindItemByWaveId { text },
        )
    }

    /// Starts the agent on the next task.
    pub open spec fn launches(
        job: TaskJob,
        task: WorkItem,
        story: WorkItem,
        verify: Option<String>,
        next: WorkItem,
        n: Next<TaskSkip>,
    ) -> bool {
        let launch = Launch {
            task: next,
            session: task.decomposition_session_id,
            story: story.id,
            worktree: story.worktree_path,
            mode: LaunchMode::Skip,
        };
        n.goes(
            job,
            SkipStep::Launch { launching: Launching { launch, at: LaunchStep::Session }, verify },
            Action::GetSession { session: launch.session },
        )
    }

    /// What follows from a step in the start of the agent.
    pub open spec fn carries(
        job: TaskJob,
        next: WorkItem,
        verify: Option<String>,
        m: LaunchNext,
        n: Next<TaskSkip>,
    ) -> bool {
        match m {
            LaunchNext::Act(launching, action) => n.goes(
                job,
                SkipStep::Launch { launching, verify },
                action,
            ),
            LaunchNext::Started | LaunchNext::NoWorktree => n.replies(
                job.id,
                skipped(job.task_id@, Some(next.short_id@), false, verify),
            ),
            LaunchNext::Failed { message, spawning } => if spawning {
                n.goes(
                    job,
                    SkipStep::Revert { message },
                    Action::UpdateItemStatus { item: next.id, status: WorkItemStatus::Pending },
                )
            } else {
                n.fails(job.id, message@)
            },
        }
    }

    pub open spec fn follows(self, ev: Event, n: Next<TaskSkip>) -> bool {
        let job = self.job;
        match (self.at, ev) {
            (SkipStep::Find, Event::MaybeItem(r)) => match r {
                Err(e) => n.fails(job.id, crate::effects::database_message(e@)),
                Ok(None) => n.fails(job.id, no_task_message(job.task_id@)),
                Ok(Some(task)) => match task_problem(task, job.task_id@) {
                    Some(message) => n.fails(job.id, message),
                    None => n.goes(
                        job,
                        SkipStep::Story { task },
                        Action::GetItem { item: task.parent_id.unwrap() },
                    ),
                },
            },
            (SkipStep::Story { task }, Event::MaybeItem(r)) => match r {
                Err(e) => n.fails(job.id, crate::effects::database_message(e@)),
                Ok(None) => n.fails(job.id, no_story_message(job.task_id@)),
                Ok(Some(story)) => n.goes(
                    job,
                    SkipStep::MarkDone { task, story },
                    Action::UpdateItemStatus { item: task.id, status: WorkItemStatus::Done },
                ),
            },
            (SkipStep::MarkDone { task, story }, Event::Done(r)) => match r {
                Err(e) => n.fails(job.id, crate::effects::database_message(e@)),
                Ok(_) => if task.kind == Some(TaskKind::Impl) {
                    n.goes(
                        job,
                        SkipStep::Siblings { task, story },
                        Action::ListChildren { parent: story.id },
                    )
                } else {
                    n.goes(
                        job,
                        SkipStep::Tasks { task, story, verify: None },
                        Action::ListChildren { parent: story.id },
                    )
                },
            },
            (SkipStep::Siblings { task, story }, Event::WorkItems(r)) => match r {
                Err(e) => n.fails(job.id, crate::effects::database_message(e@)),
                Ok(siblings) => match verify_change(siblings@, task) {
                    Some((v, status)) => n.goes(
                        job,
                        SkipStep::MarkVerify { task, story, verify: v.short_id },
                        Action::UpdateItemStatus { item: v.id, status },
                    ),
                    None => n.goes(
                        job,
                        SkipStep::Tasks { task, story, verify: None },
                        Action::ListChildren { parent: story.id },
                    ),
                },
            },
            (SkipStep::MarkVerify { task, story, verify }, Event::Done(r)) => match r {
                Err(e) => n.fails(job.id, crate::effects::database_message(e@)),
                Ok(_) => n.goes(
                    job,
                    SkipStep::Tasks { task, story, verify: Some(verify) },
                    Action::ListChildren { parent: story.id },
                ),
            },
            (SkipStep::Tasks { task, story, verify }, Event::WorkItems(r)) => match r {
                Err(e) => n.fails(job.id, crate::effects::database_message(e@)),
                Ok(tasks) => {
                    &&& n matches Next::Act(s, Action::NextPendingTask { story: of, tasks: asked })
                    &&& of == story.id
                    &&& asked@ == tasks@
                    &&& s == Run { job, at: SkipStep::NextTask { task, story, verify, tasks } }
                },
            },
            (SkipStep::NextTask { task, story, verify, tasks }, Event::NextTask(next)) => {
                match next {
                    Some(next) => n.goes(
                        job,
                        SkipStep::MarkNext { task, story, verify, next },
                        Action::UpdateItemStatus {
                            item: next.id,
                            status: WorkItemStatus::InProgress,
                        },
                    ),
                    None => if all_finished(tasks@) {
                        n.goes(
                            job,
                            SkipStep::Finish { verify },
                            Action::UpdateItemStatus {
                                item: story.id,
                                status: WorkItemStatus::Done,
                            },
                        )
                    } else {
                        n.replies(job.id, skipped(job.task_id@, None, false, verify))
                    },
                }
            },
            (SkipStep::MarkNext { task, story, verify, next }, Event::Done(r)) => match r {
                Err(e) => n.fails(job.id, crate::effects::database_message(e@)),
                Ok(_) => if story.status == WorkItemStatus::Failed {
                    n.goes(
                        job,
                        SkipStep::MarkStory { task, story, verify, next },
                        Action::UpdateItemStatus {
                            item: story.id,
                            status: WorkItemStatus::InProgress,
                        },
                    )
                } else {
                    TaskSkip::launches(job, task, story, verify, next, n)
                },
            },
            (SkipStep::MarkStory { task, story, verify, next }, Event::Done(r)) => match r {
                Err(e) => n.fails(job.id, crate::effects::database_message(e@)),
                Ok(_) => TaskSkip::launches(job, task, story, verify, next, n),
            },
            (SkipStep::Launch { launching, verify }, _) => exists|m: LaunchNext| #[trigger]
                launching.follows(ev, m) && TaskSkip::carries(
                    job,
                    launching.launch.task,
                    verify,
                    m,
                    n,
                ),
            (SkipStep::Revert { message }, Event::Done(_)) => n.fails(job.id, message@),
            (SkipStep::Finish { verify }, Event::Done(r)) => match r {
                Err(e) => n.fails(job.id, crate::effects::database_message(e@)),
                Ok(_) => n.replies(job.id, skipped(job.task_id@, None, true, verify)),
            },
            _ => false,
        }
    }

    pub fn step(self, ev: Event) -> (n: Next<TaskSkip>)
        requires
            self.accepts(ev),
        ensures
            self.follows(ev, n),
            n matches Next::Act(s, a) ==> forall|e: Event| a.answered_by(e) ==> s.accepts(e),
    {
        let Run { job, at } = self;
        match (at, ev) {
            (SkipStep::Find, Event::MaybeItem(r)) => match r {
                Err(e) => Next::database_error(job.id, e.as_str()),
                Ok(None) => Next::fail(
                    job.id,
                    cat3("NOT_FOUND: task '", job.task_id.as_str(), "' not found").as_str(),
                ),
                Ok(Some(task)) => match check_task(&task, job.task_id.as_str()) {
                    Err(m) => Next::fail(job.id, m.as_str()),
                    Ok(item) => Next::go(job, SkipStep::Story { task }, Action::GetItem { item }),
                },
            },
            (SkipStep::Story { task }, Event::MaybeItem(r)) => match r {
                Err(e) => Next::database_error(job.id, e.as_str()),
                Ok(None) => Next::fail(
                    job.id,
                    cat3(
                        "NOT_FOUND: parent story for task '",
                        job.task_id.as_str(),
                        "' not found",
                    ).as_str(),
                ),
                Ok(Some(story)) => {
                    let item = task.id;
                    Next::go(
                        job,
                        SkipStep::MarkDone { task, story },
                        Action::UpdateItemStatus { item, status: WorkItemStatus::Done },
                    )
                },
            },
            (SkipStep::MarkDone { task, story }, Event::Done(r)) => match r {
                Err(e) => Next::database_error(job.id, e.as_str()),
                Ok(_) => {
                    let parent = story.id;
                    let at = if is_kind(&task.kind, TaskKind::Impl) {
                        SkipStep::Siblings { task, story }
                    } else {
                        SkipStep::Tasks { task, story, verify: None }
                    };
                    Next::go(job, at, Action::ListChildren { parent })
                },
            },
            (SkipStep::Siblings { task, story }, Event::WorkItems(r)) => match r {
                Err(e) => Next::database_error(job.id, e.as_str()),
                Ok(siblings) => match find_verify_change(&siblings, &task) {
                    Some((v, status)) => Next::go(
                        job,
                        SkipStep::MarkVerify { task, story, verify: v.short_id.clone() },
                        Action::UpdateItemStatus { item: v.id, status },
                    ),
                    None => {
                        let parent = story.id;
                        Next::go(
                            job,
                            SkipStep::Tasks { task, story, verify: None },
                            Action::ListChildren { parent },
                        )
                    },
                },
            },
            (SkipStep::MarkVerify { task, story, verify }, Event::Done(r)) => match r {
                Err(e) => Next::database_error(job.id, e.as_str()),
                Ok(_) => {
                    let parent = story.id;
                    Next::go(
                        job,
                        SkipStep::Tasks { task, story, verify: Some(verify) },
                        Action::ListChildren { parent },
                    )
                },
            },
            (SkipStep::Tasks { task, story, verify }, Event::WorkItems(r)) => match r {
                Err(e) => Next::database_error(job.id, e.as_str()),
                Ok(tasks) => {
                    let of = story.id;
                    let asked = copy_items(&tasks);
                    Next::go(
                        job,
                        SkipStep::NextTask { task, story, verify, tasks },
                        Action::NextPendingTask { story: of, tasks: asked },
                    )
                },
            },
            (SkipStep::NextTask { task, story, verify, tasks }, Event::NextTask(next)) => {
                match next {
                    Some(next) => {
                        let item = next.id;
                        Next::go(
                            job,
                            SkipStep::MarkNext { task, story, verify, next },
                            Action::UpdateItemStatus { item, status: WorkItemStatus::InProgress },
                        )
                    },
                    None => if are_finished(&tasks) {
                        Next::go(
                            job,
                            SkipStep::Finish { verify },
                            Action::UpdateItemStatus {
                                item: story.id,
                                status: WorkItemStatus::Done,
                            },
                        )
                    } else {
                        skip_reply(job, None, false, verify)
                    },
                }
            },
            (SkipStep::MarkNext { task, story, verify, next }, Event::Done(r)) => match r {
                Err(e) => Next::database_error(job.id, e.as_str()),
                Ok(_) => if story.status == WorkItemStatus::Failed {
                    let item = story.id;
                    Next::go(
                        job,
                        SkipStep::MarkStory { task, story, verify, next },
                        Action::UpdateItemStatus { item, status: WorkItemStatus::InProgress },
                    )
                } else {
                    launch_next(job, task, story, verify, next)
                },
            },
            (SkipStep::MarkStory { task, story, verify, next }, Event::Done(r)) => match r {
                Err(e) => Next::database_error(job.id, e.as_str()),
                Ok(_) => launch_next(job, task, story, verify, next),
            },
            (SkipStep::Launch { launching, verify }, ev) => {
                let next = launching.launch.task.id;
                let short_id = launching.launch.task.short_id.clone();
                match launching.step(ev) {
                    LaunchNext::Act(launching, action) => Next::go(
                        job,
                        SkipStep::Launch { launching, verify },
                        action,
                    ),
                    LaunchNext::Started | LaunchNext::NoWorktree => skip_reply(
                        job,
                        Some(short_id),
                        false,
                        verify,
                    ),
                    LaunchNext::Failed { message, spawning } => if spawning {
                        Next::go(
                            job,
                            SkipStep::Revert { message },
                            Action::UpdateItemStatus {
                                item: next,
                                status: WorkItemStatus::Pending,
                            },
                        )
                    } else {
                        Next::fail(job.id, message.as_str())
                    },
                }
            },
            (SkipStep::Revert { message }, Event::Done(_)) => Next::fail(job.id, message.as_str()),
            (SkipStep::Finish { verify }, Event::Done(r)) => match r {
                Err(e) => Next::database_error(job.id, e.as_str()),
                Ok(_) => skip_reply(job, None, true, verify),
            },
            _ => Next::End,
        }
    }
}

fn launch_next(
    job: TaskJob,
    task: WorkItem,
    story: WorkItem,
    verify: Option<String>,
    next: WorkItem,
) -> (n: Next<TaskSkip>)
    ensures
        TaskSkip::launches(job, task, story, verify, next, n),
{
    let session = task.decomposition_session_id;
    let launch = Launch {
        task: next,
        session,
        story: story.id,
        worktree: story.worktree_path,
        mode: LaunchMode::Skip,
    };
    Next::go(
        job,
        SkipStep::Launch { launching: Launching { launch, at: LaunchStep::Session }, verify },
        Action::GetSession { session },
    )
}

} // verus!
