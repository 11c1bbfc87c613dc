//! `exec.continue` and `exec.cancel`: taking a story up again, and calling one off.
use vstd::prelude::*;
use crate::effects::{missing_parameter, Action, Event, Next, Run};
use crate::ident::Uuid;
use crate::json::{Json, JsonV};
use crate::launch::{is_kind, Launch, Launching, LaunchMode, LaunchNext, LaunchStep};
use crate::model::{copy_items, Dependency, ItemType, TaskKind, WorkItem, WorkItemStatus};
use crate::protocol::Request;
use crate::tasks::{are_finished, find_verify_change};
use crate::text::{cat, cat3, cat4, cat5, join_texts, u64_text};

verus! {

pub open spec fn no_story_message(story_id: Seq<char>) -> Seq<char> {
    "NOT_FOUND: story '"@ + story_id + "' not found"@
}

pub fn no_story<S>(id: String, story_id: &str) -> (n: Next<S>)
    ensures
        n.fails(id, no_story_message(story_id@)),
{
    Next::fail(id, cat3("NOT_FOUND: story '", story_id, "' not found").as_str())
}

pub open spec fn not_a_story_message(story_id: Seq<char>) -> Seq<char> {
    "INVALID_PARAMS: '"@ + story_id + "' is not a story"@
}

pub fn not_a_story<S>(id: String, story_id: &str) -> (n: Next<S>)
    ensures
        n.fails(id, not_a_story_message(story_id@)),
{
    Next::fail(id, cat3("INVALID_PARAMS: '", story_id, "' is not a story").as_str())
}

pub open spec fn wrong_state_message(
    story_id: Seq<char>,
    status: WorkItemStatus,
    expected: Seq<char>,
) -> Seq<char> {
    "INVALID_STATE: story '"@ + story_id + "' is in '"@ + status.name() + (
    "' state, expected "@ + expected)
}

pub fn wrong_state<S>(
    id: String,
    story_id: &str,
    status: WorkItemStatus,
    expected: &str,
) -> (n: Next<S>)
    ensures
        n.fails(id, wrong_state_message(story_id@, status, expected@)),
{
    Next::fail(
        id,
        cat5(
            "INVALID_STATE: story '",
            story_id,
            "' is in '",
            status.as_str(),
            cat("' state, expected ", expected).as_str(),
        ).as_str(),
    )
}

/// The tasks with the status.
pub open spec fn tasks_in(items: Seq<WorkItem>, status: WorkItemStatus) -> Seq<Uuid> {
    items.filter(|t: WorkItem| t.item_type == ItemType::Task && t.status == status).map_values(
        |t: WorkItem| t.id,
    )
}

pub fn collect_tasks(items: &Vec<WorkItem>, status: WorkItemStatus) -> (r: Vec<Uuid>)
    ensures
        r@ == tasks_in(items@, status),
{
    let ghost keep = |t: WorkItem| t.item_type == ItemType::Task && t.status == status;
    let ghost id = |t: WorkItem| t.id;
    let mut out: Vec<Uuid> = Vec::new();
    let mut i: usize = 0;
    proof {
        crate::seqs::filter_none(items@, keep);
    }
    while i < items.len()
        invariant
            i <= items@.len(),
            keep == (|t: WorkItem| t.item_type == ItemType::Task && t.status == status),
            id == (|t: WorkItem| t.id),
            out@ == items@.take(i as int).filter(keep).map_values(id),
        decreases items.len() - i,
    {
        let t = &items[i];
        proof {
            crate::seqs::filter_step(items@, i as int, keep);
            crate::seqs::map_push(items@.take(i as int).filter(keep), *t, id);
        }
        if t.item_type == ItemType::Task && t.status == status {
            out.push(t.id);
        }
        i += 1;
    }
    assert(items@.take(i as int) =~= items@);
    out
}

// ---- exec.continue ----

/// An `exec.continue` request.
pub struct ContinueJob {
    pub id: String,
    pub story_id: String,
    pub force: bool,
}

#[allow(inconsistent_fields)]
pub enum ContinueStep {
    Find,
    Dependents { story: WorkItem },
    // A failed story.
    Failed { story: WorkItem },
    MarkDone { story: WorkItem, tasks: Vec<WorkItem>, failed: WorkItem },
    MarkVerify { story: WorkItem },
    Tasks { story: WorkItem },
    NextTask { story: WorkItem, tasks: Vec<WorkItem> },
    MarkNext { story: WorkItem, next: WorkItem },
    MarkStory { story: WorkItem, next: WorkItem },
    Launch { launching: Launching },
    Revert { message: String },
    Finish,
    // A cancelled story with a worktree.
    Resume { story: WorkItem },
    // A cancelled story without a worktree.
    Blockers { story: WorkItem },
    Blocker { story: WorkItem, blockers: Vec<Dependency>, done: usize },
    // A cancelled story; `ready` tells whether it is ready, where it has no worktree.
    Cancelled { story: WorkItem, ready: Option<bool> },
    Restore { story: WorkItem, ready: Option<bool>, tasks: Vec<Uuid>, done: usize },
    Restored { story: WorkItem },
    NextRestored { story: WorkItem },
    MarkRestored { next: WorkItem },
    SetStatus,
}

pub type StoryContinue = Run<ContinueJob, ContinueStep>;

/// The data that answers an `exec.continue`.
pub open spec fn continued(
    story_id: Seq<char>,
    next: Option<Seq<char>>,
    resumed: bool,
) -> JsonV {
    let data = JsonV::object().with("story_id"@, JsonV::Str(story_id));
    let data = match next {
        Some(short_id) => data.with("next_task_id"@, JsonV::Str(short_id)),
        None => data,
    };
    data.with("resumed"@, JsonV::Bool(resumed))
}

fn continue_reply(job: ContinueJob, next: Option<String>, resumed: bool) -> (n: Next<
    StoryContinue,
>)
    ensures
        n.replies(
            job.id,
            continued(
                job.story_id@,
                match next {
                    Some(s) => Some(s@),
                    None => None,
                },
                resumed,
            ),
        ),
{
    let mut data = Json::object().with("story_id", Json::Str(job.story_id));
    if let Some(short_id) = next {
        data = data.with("next_task_id", Json::Str(short_id));
    }
    Next::reply(job.id, data.with("resumed", Json::Bool(resumed)))
}

/// The first task that failed.
pub open spec fn failed_task(tasks: Seq<WorkItem>) -> Option<WorkItem> {
    crate::seqs::first_where(
        tasks,
        |t: WorkItem| t.item_type == ItemType::Task && t.status == WorkItemStatus::Failed,
    )
}

fn find_failed_task(tasks: &Vec<WorkItem>) -> (r: Option<WorkItem>)
    ensures
        r == failed_task(tasks@),
{
    let ghost wanted = |t: WorkItem|
        t.item_type == ItemType::Task && t.status == WorkItemStatus::Failed;
    let mut i: usize = 0;
    while i < tasks.len()
        invariant
            i <= tasks@.len(),
            wanted == (|t: WorkItem|
                t.item_type == ItemType::Task && t.status == WorkItemStatus::Failed),
            forall|k: int| 0 <= k < i ==> !wanted(#[trigger] tasks@[k]),
        decreases tasks.len() - i,
    {
        if tasks[i].item_type == ItemType::Task && tasks[i].status == WorkItemStatus::Failed {
            proof {
                crate::seqs::first_at(tasks@, i as int, wanted);
            }
            return Some(tasks[i].copy());
        }
        i += 1;
    }
    proof {
        crate::seqs::first_nowhere(tasks@, wanted);
    }
    None
}

/// Whether a story no longer blocks others.
pub open spec fn unblocks(r: crate::effects::Outcome<Option<WorkItem>>) -> bool {
    r matches Ok(Some(story)) && (story.status == WorkItemStatus::Done || story.status
        == WorkItemStatus::Cancelled)
}

impl Run<ContinueJob, ContinueStep> {
    pub open spec fn accepts(self, ev: Event) -> bool {
        match self.at {
            ContinueStep::Find => ev is MaybeItem,
            ContinueStep::Dependents { .. } | ContinueStep::Blockers { .. } => ev is Dependencies,
            ContinueStep::Failed { .. } | ContinueStep::Tasks { .. } => ev is WorkItems,
            ContinueStep::Cancelled { .. } | ContinueStep::Restored { .. } => ev is WorkItems,
            ContinueStep::NextTask { .. } | ContinueStep::NextRestored { .. } => ev is NextTask,
            ContinueStep::Launch { launching } => launching.accepts(ev),
            ContinueStep::Blocker { blockers, done, .. } => ev is MaybeItem && done
                < blockers.len(),
            ContinueStep::Restore { tasks, done, .. } => ev is Done && done < tasks.len(),
            _ => ev is Done,
        }
    }

    pub open spec fn begins(req: Request, n: Next<StoryContinue>) -> bool {
        match req.params@.text_field("story_id"@) {
            None => n.fails(req.id, crate::effects::missing_message("story_id"@)),
            Some(story_id) => {
                &&& n matches Next::Act(s, a)
                &&& n.goes(
                    s.job,
                    ContinueStep::Find,
                    Action::FindItemByWaveId { text: s.job.story_id },
                )
                &&& s.job.id == req.id
                &&& s.job.story_id@ == story_id
                &&& s.job.force == (req.params@.truth_field("force"@) == Some(true))
            },
        }
    }

    pub fn start(req: Request) -> (n: Next<StoryContinue>)
        ensures
            StoryContinue::begins(req, n),
            n matches Next::Act(s, a) ==> forall|e: Event| a.answered_by(e) ==> s.accepts(e),
    {
        let story_id = match req.params.str_field("story_id") {
            Some(v) => v,
            None => return missing_parameter(req.id, "story_id"),
        };
        let force = match req.params.bool_field("force") {
            Some(b) => b,
            None => false,
        };
        let text = story_id.clone();
        Next::go(
            ContinueJob { id: req.id, story_id, force },
            ContinueStep::Find,
            Action::FindItemByWaveId { text },
        )
    }

    /// Goes on with a story that may be continued.
    pub open spec fn continues(job: ContinueJob, story: WorkItem, n: Next<StoryContinue>) -> bool {
        if story.status == WorkItemStatus::Failed {
            n.goes(
                job,
                ContinueStep::Failed { story },
                Action::ListChildren { parent: story.id },
            )
        } else if story.worktree_path is Some {
            n.goes(
                job,
                ContinueStep::Resume { story },
                Action::UpdateItemStatus { item: story.id, status: WorkItemStatus::InProgress },
            )
        } else {
            n.goes(
                job,
                ContinueStep::Blockers { story },
                Action::ListBlockers { story: story.id },
            )
        }
    }

    /// Reads the tasks of the story anew.
    pub open spec fn rereads(job: ContinueJob, story: WorkItem, n: Next<StoryContinue>) -> bool {
        n.goes(job, ContinueStep::Tasks { story }, Action::ListChildren { parent: story.id })
    }

    /// Asks for the blocker at `done`, or goes on with a story that is ready.
    pub open spec fn looks_at(
        job: ContinueJob,
        story: WorkItem,
        blockers: Vec<Dependency>,
        done: int,
        n: Next<StoryContinue>,
    ) -> bool {
        if done < blockers@.len() {
            n.goes(
                job,
                ContinueStep::Blocker { story, blockers, done: done as usize },
                Action::GetItem { item: blockers@[done].blocker_id },
            )
        } else {
            n.goes(
                job,
                ContinueStep::Cancelled { story, ready: Some(true) },
                Action::ListChildren { parent: story.id },
            )
        }
    }

    /// What follows when the cancelled tasks are pending again.
    pub open spec fn recovers(
        job: ContinueJob,
        story: WorkItem,
        ready: Option<bool>,
        n: Next<StoryContinue>,
    ) -> bool {
        match ready {
            None => n.goes(
                job,
                ContinueStep::Restored { story },
                Action::ListChildren { parent: story.id },
            ),
            Some(ready) => n.goes(
                job,
                ContinueStep::SetStatus,
                Action::UpdateItemStatus {
                    item: story.id,
                    status: if ready {
                        WorkItemStatus::Ready
                    } else {
                        WorkItemStatus::Pending
                    },
                },
            ),
        }
    }

    /// Makes the task at `done` pending again, or goes on after the last one.
    pub open spec fn restores(
        job: ContinueJob,
        story: WorkItem,
        ready: Option<bool>,
        tasks: Seq<Uuid>,
        done: int,
        n: Next<StoryContinue>,
    ) -> bool {
        if done < tasks.len() {
            &&& n matches Next::Act(s, a)
            &&& s.at matches ContinueStep::Restore { story: st, ready: r, tasks: t, done: d }
            &&& st == story && r == ready && t@ == tasks && d == done
            &&& n.goes(
                job,
                s.at,
                Action::UpdateItemStatus { item: tasks[done], status: WorkItemStatus::Pending },
            )
        } else {
            StoryContinue::recovers(job, story, ready, n)
        }
    }

    /// The agent was not started: the task is pending again before that is reported.
    pub open spec fn reverts(
        job: ContinueJob,
        task: WorkItem,
        why: Seq<char>,
        n: Next<StoryContinue>,
    ) -> bool {
        &&& n matches Next::Act(s, a)
        &&& s.at matches ContinueStep::Revert { message }
        &&& message@ == "failed to spawn agent: "@ + why
        &&& n.goes(
            job,
            s.at,
            Action::UpdateItemStatus { item: task.id, status: WorkItemStatus::Pending },
        )
    }

    /// What follows from a step in the start of the agent.
    pub open spec fn carries(
        job: ContinueJob,
        task: WorkItem,
        m: LaunchNext,
        n: Next<StoryContinue>,
    ) -> bool {
        match m {
            LaunchNext::Act(launching, action) => n.goes(
                job,
                ContinueStep::Launch { launching },
                action,
            ),
            LaunchNext::Started => n.replies(
                job.id,
                continued(job.story_id@, Some(task.short_id@), true),
            ),
            LaunchNext::NoWorktree => StoryContinue::reverts(
                job,
                task,
                "story has no worktree"@,
                n,
            ),
            LaunchNext::Failed { message, .. } => StoryContinue::reverts(job, task, message@, n),
        }
    }

    pub open spec fn follows(self, ev: Event, n: Next<StoryContinue>) -> bool {
        let job = self.job;
        match (self.at, ev) {
            (ContinueStep::Find, Event::MaybeItem(r)) => match r {
                Err(e) => n.fails(job.id, crate::effects::database_message(e@)),
                Ok(None) => n.fails(job.id, no_story_message(job.story_id@)),
                Ok(Some(story)) => if story.item_type != ItemType::Story {
                    n.fails(job.id, not_a_story_message(job.story_id@))
                } else if story.status != WorkItemStatus::Failed && story.status
                    != WorkItemStatus::Cancelled {
                    n.fails(
                        job.id,
                        wrong_state_message(
                            job.story_id@,
                            story.status,
                            "'failed' or 'cancelled'"@,
                        ),
                    )
                } else if story.status == WorkItemStatus::Cancelled && !job.force {
                    n.goes(
                        job,
                        ContinueStep::Dependents { story },
                        Action::ListDependents { story: story.id },
                    )
                } else {
                    StoryContinue::continues(job, story, n)
                },
            },
            (ContinueStep::Dependents { story }, Event::Dependencies(r)) => match r {
                Err(e) => n.fails(job.id, crate::effects::database_message(e@)),
                Ok(dependents) => if dependents@.len() > 0 {
                    n.fails(
                        job.id,
                        "INVALID_STATE: story '"@ + job.story_id@ + "' has "@
                            + crate::text::decimal(dependents@.len())
                            + " dependent(s) that may be affected. Use --force to skip this check"@,
                    )
                } else {
                    StoryContinue::continues(job, story, n)
                },
            },
            (ContinueStep::Failed { story }, Event::WorkItems(r)) => match r {
                Err(e) => n.fails(job.id, crate::effects::database_message(e@)),
                Ok(tasks) => match failed_task(tasks@) {
                    Some(failed) => n.goes(
                        job,
                        ContinueStep::MarkDone { story, tasks, failed },
                        Action::UpdateItemStatus { item: failed.id, status: WorkItemStatus::Done },
                    ),
                    None => StoryContinue::rereads(job, story, n),
                },
            },
            (ContinueStep::MarkDone { story, tasks, failed }, Event::Done(r)) => match r {
                Err(e) => n.fails(job.id, crate::effects::database_message(e@)),
                Ok(_) => match crate::tasks::verify_change(tasks@, failed) {
                    Some((v, status)) => if failed.kind == Some(TaskKind::Impl) {
                        n.goes(
                            job,
                            ContinueStep::MarkVerify { story },
                            Action::UpdateItemStatus { item: v.id, status },
                        )
                    } else {
                        StoryContinue::rereads(job, story, n)
                    },
                    None => StoryContinue::rereads(job, story, n),
                },
            },
            (ContinueStep::MarkVerify { story }, Event::Done(_)) => StoryContinue::rereads(
                job,
                story,
                n,
            ),
            (ContinueStep::Tasks { story }, Event::WorkItems(r)) => match r {
                Err(e) => n.fails(job.id, crate::effects::database_message(e@)),
                Ok(tasks) => {
                    &&& n matches Next::Act(s, Action::NextPendingTask { story: of, tasks: asked })
                    &&& of == story.id
                    &&& asked@ == tasks@
                    &&& s == Run { job, at: ContinueStep::NextTask { story, tasks } }
                },
            },
            (ContinueStep::NextTask { story, tasks }, Event::NextTask(next)) => match next {
                Some(next) => n.goes(
                    job,
                    ContinueStep::MarkNext { story, next },
                    Action::UpdateItemStatus { item: next.id, status: WorkItemStatus::InProgress },
                ),
                None => if crate::tasks::all_finished(tasks@) {
                    n.goes(
                        job,
                        ContinueStep::Finish,
                        Action::UpdateItemStatus { item: story.id, status: WorkItemStatus::Done },
                    )
                } else {
                    n.replies(job.id, continued(job.story_id@, None, false))
                },
            },
            (ContinueStep::MarkNext { story, next }, Event::Done(r)) => match r {
                Err(e) => n.fails(job.id, crate::effects::database_message(e@)),
                Ok(_) => n.goes(
                    job,
                    ContinueStep::MarkStory { story, next },
                    Action::UpdateItemStatus { item: story.id, status: WorkItemStatus::InProgress },
                ),
            },
            (ContinueStep::MarkStory { story, next }, Event::Done(r)) => match r {
                Err(e) => n.fails(job.id, crate::effects::database_message(e@)),
                Ok(_) => if story.worktree_path is Some {
                    let launch = Launch {
                        task: next,
                        session: next.decomposition_session_id,
                        story: story.id,
                        worktree: story.worktree_path,
                        mode: LaunchMode::Continue,
                    };
                    n.goes(
                        job,
                        ContinueStep::Launch {
                            launching: Launching { launch, at: LaunchStep::Session },
                        },
                        Action::GetSession { session: launch.session },
                    )
                } else {
                    n.replies(job.id, continued(job.story_id@, Some(next.short_id@), true))
                },
            },
            (ContinueStep::Launch { launching }, _) => exists|m: LaunchNext| #[trigger]
                launching.follows(ev, m) && StoryContinue::carries(
                    job,
                    launching.launch.task,
                    m,
                    n,
                ),
            (ContinueStep::Revert { message }, Event::Done(_)) => n.fails(job.id, message@),
            (ContinueStep::Finish, Event::Done(r)) => match r {
                Err(e) => n.fails(job.id, crate::effects::database_message(e@)),
                Ok(_) => n.replies(job.id, continued(job.story_id@, None, true)),
            },
            (ContinueStep::Resume { story }, Event::Done(r)) => match r {
                Err(e) => n.fails(job.id, crate::effects::database_message(e@)),
                Ok(_) => n.goes(
                    job,
                    ContinueStep::Cancelled { story, ready: None },
                    Action::ListChildren { parent: story.id },
                ),
            },
            (ContinueStep::Blockers { story }, Event::Dependencies(r)) => match r {
                Err(e) => n.fails(job.id, crate::effects::database_message(e@)),
                Ok(blockers) => StoryContinue::looks_at(job, story, blockers, 0, n),
            },
            (ContinueStep::Blocker { story, blockers, done }, Event::MaybeItem(r)) => if unblocks(
                r,
            ) {
                StoryContinue::looks_at(job, story, blockers, done + 1, n)
            } else {
                n.goes(
                    job,
                    ContinueStep::Cancelled { story, ready: Some(false) },
                    Action::ListChildren { parent: story.id },
                )
            },
            (ContinueStep::Cancelled { story, ready }, Event::WorkItems(r)) => match r {
                Err(e) => n.fails(job.id, crate::effects::database_message(e@)),
                Ok(tasks) => StoryContinue::restores(
                    job,
                    story,
                    ready,
                    tasks_in(tasks@, WorkItemStatus::Cancelled),
                    0,
                    n,
                ),
            },
            (ContinueStep::Restore { story, ready, tasks, done }, Event::Done(_)) => {
                StoryContinue::restores(job, story, ready, tasks@, done + 1, n)
            },
            (ContinueStep::Restored { story }, Event::WorkItems(r)) => match r {
                Err(e) => n.fails(job.id, crate::effects::database_message(e@)),
                Ok(tasks) => n.goes(
                    job,
                    ContinueStep::NextRestored { story },
                    Action::NextPendingTask { story: story.id, tasks },
                ),
            },
            (ContinueStep::NextRestored { story }, Event::NextTask(next)) => match next {
                Some(next) => n.goes(
                    job,
                    ContinueStep::MarkRestored { next },
                    Action::UpdateItemStatus { item: next.id, status: WorkItemStatus::InProgress },
                ),
                None => n.replies(job.id, continued(job.story_id@, None, true)),
            },
            (ContinueStep::MarkRestored { next }, Event::Done(r)) => match r {
                Err(e) => n.fails(job.id, crate::effects::database_message(e@)),
                Ok(_) => n.replies(
                    job.id,
                    continued(job.story_id@, Some(next.short_id@), true),
                ),
            },
            (ContinueStep::SetStatus, Event::Done(r)) => match r {
                Err(e) => n.fails(job.id, crate::effects::database_message(e@)),
                Ok(_) => n.replies(job.id, continued(job.story_id@, None, false)),
            },
            _ => false,
        }
    }

    pub fn step(self, ev: Event) -> (n: Next<StoryContinue>)
        requires
            self.accepts(ev),
        ensures
            self.follows(ev, n),
            n matches Next::Act(s, a) ==> forall|e: Event| a.answered_by(e) ==> s.accepts(e),
    {
        let Run { job, at } = self;
        match (at, ev) {
            (ContinueStep::Find, Event::MaybeItem(r)) => match r {
                Err(e) => Next::database_error(job.id, e.as_str()),
                Ok(None) => no_story(job.id, job.story_id.as_str()),
                Ok(Some(story)) => {
                    if story.item_type != ItemType::Story {
                        return not_a_story(job.id, job.story_id.as_str());
                    }
                    if story.status != WorkItemStatus::Failed && story.status
                        != WorkItemStatus::Cancelled {
                        return wrong_state(
                            job.id,
                            job.story_id.as_str(),
                            story.status,
                            "'failed' or 'cancelled'",
                        );
                    }
                    if story.status == WorkItemStatus::Cancelled && !job.force {
                        let of = story.id;
                        Next::go(
                            job,
                            ContinueStep::Dependents { story },
                            Action::ListDependents { story: of },
                        )
                    } else {
                        go_on(job, story)
                    }
                },
            },
            (ContinueStep::Dependents { story }, Event::Dependencies(r)) => match r {
                Err(e) => Next::database_error(job.id, e.as_str()),
                Ok(dependents) => if dependents.len() > 0 {
                    let count = u64_text(dependents.len() as u64);
                    Next::fail(
                        job.id,
                        cat5(
                            "INVALID_STATE: story '",
                            job.story_id.as_str(),
                            "' has ",
                            count.as_str(),
                            " dependent(s) that may be affected. Use --force to skip this check",
                        ).as_str(),
                    )
                } else {
                    go_on(job, story)
                },
            },
            (ContinueStep::Failed { story }, Event::WorkItems(r)) => match r {
                Err(e) => Next::database_error(job.id, e.as_str()),
                Ok(tasks) => match find_failed_task(&tasks) {
                    Some(failed) => {
                        let item = failed.id;
                        Next::go(
                            job,
                            ContinueStep::MarkDone { story, tasks, failed },
                            Action::UpdateItemStatus { item, status: WorkItemStatus::Done },
                        )
                    },
                    None => reread(job, story),
                },
            },
            (ContinueStep::MarkDone { story, tasks, failed }, Event::Done(r)) => match r {
                Err(e) => Next::database_error(job.id, e.as_str()),
                Ok(_) => match find_verify_change(&tasks, &failed) {
                    Some((v, status)) => if is_kind(&failed.kind, TaskKind::Impl) {
                        Next::go(
                            job,
                            ContinueStep::MarkVerify { story },
                            Action::UpdateItemStatus { item: v.id, status },
                        )
                    } else {
                        reread(job, story)
                    },
                    None => reread(job, story),
                },
            },
            (ContinueStep::MarkVerify { story }, Event::Done(_)) => reread(job, story),
            (ContinueStep::Tasks { story }, Event::WorkItems(r)) => match r {
                Err(e) => Next::database_error(job.id, e.as_str()),
                Ok(tasks) => {
                    let of = story.id;
                    let asked = copy_items(&tasks);
                    Next::go(
                        job,
                        ContinueStep::NextTask { story, tasks },
                        Action::NextPendingTask { story: of, tasks: asked },
                    )
                },
            },
            (ContinueStep::NextTask { story, tasks }, Event::NextTask(next)) => match next {
                Some(next) => {
                    let item = next.id;
                    Next::go(
                        job,
                        ContinueStep::MarkNext { story, next },
                        Action::UpdateItemStatus { item, status: WorkItemStatus::InProgress },
                    )
                },
                None => if are_finished(&tasks) {
                    Next::go(
                        job,
                        ContinueStep::Finish,
                        Action::UpdateItemStatus { item: story.id, status: WorkItemStatus::Done },
                    )
                } else {
                    continue_reply(job, None, false)
                },
            },
            (ContinueStep::MarkNext { story, next }, Event::Done(r)) => match r {
                Err(e) => Next::database_error(job.id, e.as_str()),
                Ok(_) => {
                    let item = story.id;
                    Next::go(
                        job,
                        ContinueStep::MarkStory { story, next },
                        Action::UpdateItemStatus { item, status: WorkItemStatus::InProgress },
                    )
                },
            },
            (ContinueStep::MarkStory { story, next }, Event::Done(r)) => match r {
                Err(e) => Next::database_error(job.id, e.as_str()),
                Ok(_) => if story.worktree_path.is_some() {
                    let session = next.decomposition_session_id;
                    let launch = Launch {
                        task: next,
                        session,
                        story: story.id,
                        worktree: story.worktree_path,
                        mode: LaunchMode::Continue,
                    };
                    Next::go(
                        job,
                        ContinueStep::Launch {
                            launching: Launching { launch, at: LaunchStep::Session },
                        },
                        Action::GetSession { session },
                    )
                } else {
                    continue_reply(job, Some(next.short_id), true)
                },
            },
            (ContinueStep::Launch { launching }, ev) => {
                let task = launching.launch.task.id;
                let short_id = launching.launch.task.short_id.clone();
                match launching.step(ev) {
                    LaunchNext::Act(launching, action) => Next::go(
                        job,
                        ContinueStep::Launch { launching },
                        action,
                    ),
                    LaunchNext::Started => continue_reply(job, Some(short_id), true),
                    LaunchNext::NoWorktree => revert(job, task, "story has no worktree"),
                    LaunchNext::Failed { message, .. } => revert(job, task, message.as_str()),
                }
            },
            (ContinueStep::Revert { message }, Event::Done(_)) => Next::fail(
                job.id,
                message.as_str(),
            ),
            (ContinueStep::Finish, Event::Done(r)) => match r {
                Err(e) => Next::database_error(job.id, e.as_str()),
                Ok(_) => continue_reply(job, None, true),
            },
            (ContinueStep::Resume { story }, Event::Done(r)) => match r {
                Err(e) => Next::database_error(job.id, e.as_str()),
                Ok(_) => {
                    let parent = story.id;
                    Next::go(
                        job,
                        ContinueStep::Cancelled { story, ready: None },
                        Action::ListChildren { parent },
                    )
                },
            },
            (ContinueStep::Blockers { story }, Event::Dependencies(r)) => match r {
                Err(e) => Next::database_error(job.id, e.as_str()),
                Ok(blockers) => look_at(job, story, blockers, 0),
            },
            (ContinueStep::Blocker { story, blockers, done }, Event::MaybeItem(r)) => {
                let open = match &r {
                    Ok(Some(b)) => b.status == WorkItemStatus::Done || b.status
                        == WorkItemStatus::Cancelled,
                    _ => false,
                };
                if open {
                    look_at(job, story, blockers, done + 1)
                } else {
                    let parent = story.id;
                    Next::go(
                        job,
                        ContinueStep::Cancelled { story, ready: Some(false) },
                        Action::ListChildren { parent },
                    )
                }
            },
            (ContinueStep::Cancelled { story, ready }, Event::WorkItems(r)) => match r {
                Err(e) => Next::database_error(job.id, e.as_str()),
                Ok(tasks) => {
                    let cancelled = collect_tasks(&tasks, WorkItemStatus::Cancelled);
                    restore(job, story, ready, cancelled, 0)
                },
            },
            (ContinueStep::Restore { story, ready, tasks, done }, Event::Done(_)) => {
                restore(job, story, ready, tasks, done + 1)
            },
            (ContinueStep::Restored { story }, Event::WorkItems(r)) => match r {
                Err(e) => Next::database_error(job.id, e.as_str()),
                Ok(tasks) => {
                    let of = story.id;
                    Next::go(
                        job,
                        ContinueStep::NextRestored { story },
                        Action::NextPendingTask { story: of, tasks },
                    )
                },
            },
            (ContinueStep::NextRestored { .. }, Event::NextTask(next)) => match next {
                Some(next) => {
                    let item = next.id;
                    Next::go(
                        job,
                        ContinueStep::MarkRestored { next },
                        Action::UpdateItemStatus { item, status: WorkItemStatus::InProgress },
                    )
                },
                None => continue_reply(job, None, true),
            },
            (ContinueStep::MarkRestored { next }, Event::Done(r)) => match r {
                Err(e) => Next::database_error(job.id, e.as_str()),
                Ok(_) => continue_reply(job, Some(next.short_id), true),
            },
            (ContinueStep::SetStatus, Event::Done(r)) => match r {
                Err(e) => Next::database_error(job.id, e.as_str()),
                Ok(_) => continue_reply(job, None, false),
            },
            _ => Next::End,
        }
    }
}

fn go_on(job: ContinueJob, story: WorkItem) -> (n: Next<StoryContinue>)
    ensures
        StoryContinue::continues(job, story, n),
{
    let item = story.id;
    if story.status == WorkItemStatus::Failed {
        Next::go(job, ContinueStep::Failed { story }, Action::ListChildren { parent: item })
    } else if story.worktree_path.is_some() {
        Next::go(
            job,
            ContinueStep::Resume { story },
            Action::UpdateItemStatus { item, status: WorkItemStatus::InProgress },
        )
    } else {
        Next::go(job, ContinueStep::Blockers { story }, Action::ListBlockers { story: item })
    }
}

fn reread(job: ContinueJob, story: WorkItem) -> (n: Next<StoryContinue>)
    ensures
        StoryContinue::rereads(job, story, n),
{
    let parent = story.id;
    Next::go(job, ContinueStep::Tasks { story }, Action::ListChildren { parent })
}

fn look_at(
    job: ContinueJob,
    story: WorkItem,
    blockers: Vec<Dependency>,
    done: usize,
) -> (n: Next<StoryContinue>)
    ensures
        StoryContinue::looks_at(job, story, blockers, done as int, n),
        n matches Next::Act(s, a) ==> forall|e: Event| a.answered_by(e) ==> s.accepts(e),
{
    if done < blockers.len() {
        let item = blockers[done].blocker_id;
        Next::go(job, ContinueStep::Blocker { story, blockers, done }, Action::GetItem { item })
    } else {
        let parent = story.id;
        Next::go(
            job,
            ContinueStep::Cancelled { story, ready: Some(true) },
            Action::ListChildren { parent },
        )
    }
}

fn restore(
    job: ContinueJob,
    story: WorkItem,
    ready: Option<bool>,
    tasks: Vec<Uuid>,
    done: usize,
) -> (n: Next<StoryContinue>)
    ensures
        StoryContinue::restores(job, story, ready, tasks@, done as int, n),
        n matches Next::Act(s, a) ==> forall|e: Event| a.answered_by(e) ==> s.accepts(e),
{
    if done < tasks.len() {
        let item = tasks[done];
        return Next::go(
            job,
            ContinueStep::Restore { story, ready, tasks, done },
            Action::UpdateItemStatus { item, status: WorkItemStatus::Pending },
        );
    }
    let item = story.id;
    match ready {
        None => Next::go(
            job,
            ContinueStep::Restored { story },
            Action::ListChildren { parent: item },
        ),
        Some(ready) => {
            let status = if ready {
                WorkItemStatus::Ready
            } else {
                WorkItemStatus::Pending
            };
            Next::go(job, ContinueStep::SetStatus, Action::UpdateItemStatus { item, status })
        },
    }
}

fn revert(job: ContinueJob, task: Uuid, why: &str) -> (n: Next<StoryContinue>)
    ensures
        n matches Next::Act(s, a) && (s.at matches ContinueStep::Revert { message } && message@
            == "failed to spawn agent: "@ + why@ && n.goes(
            job,
            s.at,
            Action::UpdateItemStatus { item: task, status: WorkItemStatus::Pending },
        )),
{
    Next::go(
        job,
        ContinueStep::Revert { message: cat("failed to spawn agent: ", why) },
        Action::UpdateItemStatus { item: task, status: WorkItemStatus::Pending },
    )
}

// ---- exec.cancel ----

/// An `exec.cancel` request.
pub struct CancelJob {
    pub id: String,
    pub story_id: String,
}

#[allow(inconsistent_fields)]
pub enum CancelStep {
    Find,
    Dependents { story: WorkItem },
    Mark { story: WorkItem, dependents: Vec<Dependency> },
    Tasks { dependents: Vec<Dependency> },
    Cancel { dependents: Vec<Dependency>, tasks: Vec<Uuid>, done: usize },
    /// The names of the stories that depend on this one, as far as they are known.
    Name { dependents: Vec<Dependency>, done: usize, names: Vec<String> },
}

pub type StoryCancel = Run<CancelJob, CancelStep>;

/// The data that answers an `exec.cancel`.
pub open spec fn cancelled(
    story_id: Seq<char>,
    dependents: nat,
    names: Seq<Seq<char>>,
) -> JsonV {
    let data = JsonV::object().with("story_id"@, JsonV::Str(story_id)).with(
        "cancelled"@,
        JsonV::Bool(true),
    );
    if dependents > 0 {
        data.with(
            "warning"@,
            JsonV::Str(
                "story has "@ + crate::text::decimal(dependents)
                    + " dependent(s) that will be blocked: "@ + crate::text::separated(
                    names,
                    ", "@,
                ),
            ),
        ).with("blocked_dependents"@, JsonV::texts(names))
    } else {
        data
    }
}

impl Run<CancelJob, CancelStep> {
    pub open spec fn accepts(self, ev: Event) -> bool {
        match self.at {
            CancelStep::Find => ev is MaybeItem,
            CancelStep::Dependents { .. } => ev is Dependencies,
            CancelStep::Mark { .. } => ev is Done,
            CancelStep::Tasks { .. } => ev is WorkItems,
            CancelStep::Cancel { tasks, done, .. } => ev is Done && done < tasks.len(),
            CancelStep::Name { dependents, done, .. } => ev is MaybeItem && done
                < dependents.len(),
        }
    }

    pub open spec fn begins(req: Request, n: Next<StoryCancel>) -> bool {
        match req.params@.text_field("story_id"@) {
            None => n.fails(req.id, crate::effects::missing_message("story_id"@)),
            Some(story_id) => {
                &&& n matches Next::Act(s, a)
                &&& n.goes(
                    s.job,
                    CancelStep::Find,
                    Action::FindItemByWaveId { text: s.job.story_id },
                )
                &&& s.job.id == req.id
                &&& s.job.story_id@ == story_id
            },
        }
    }

    pub fn start(req: Request) -> (n: Next<StoryCancel>)
        ensures
            StoryCancel::begins(req, n),
            n matches Next::Act(s, a) ==> forall|e: Event| a.answered_by(e) ==> s.accepts(e),
    {
        let story_id = match req.params.str_field("story_id") {
            Some(v) => v,
            None => return missing_parameter(req.id, "story_id"),
        };
        let text = story_id.clone();
        Next::go(
            CancelJob { id: req.id, story_id },
            CancelStep::Find,
            Action::FindItemByWaveId { text },
        )
    }

    /// Asks for the name of the dependent at `done`, or answers after the last one.
    pub open spec fn names(
        job: CancelJob,
        dependents: Vec<Dependency>,
        done: int,
        names: Seq<Seq<char>>,
        n: Next<StoryCancel>,
    ) -> bool {
        if done < dependents@.len() {
            &&& n matches Next::Act(s, a)
            &&& s.at matches CancelStep::Name { dependents: d, done: i, names: so_far }
            &&& d == dependents && i == done && crate::text::texts_view(so_far@) == names
            &&& n.goes(job, s.at, Action::GetItem { item: dependents@[done].blocked_id })
        } else {
            n.replies(job.id, cancelled(job.story_id@, dependents@.len(), names))
        }
    }

    /// Cancels the task at `done`, or goes on after the last one.
    pub open spec fn cancels(
        job: CancelJob,
        dependents: Vec<Dependency>,
        tasks: Seq<Uuid>,
        done: int,
        n: Next<StoryCancel>,
    ) -> bool {
        if done < tasks.len() {
            &&& n matches Next::Act(s, a)
            &&& s.at matches CancelStep::Cancel { dependents: d, tasks: t, done: i }
            &&& d == dependents && t@ == tasks && i == done
            &&& n.goes(
                job,
                s.at,
                Action::UpdateItemStatus { item: tasks[done], status: WorkItemStatus::Cancelled },
            )
        } else {
            StoryCancel::names(job, dependents, 0, Seq::empty(), n)
        }
    }

    pub open spec fn follows(self, ev: Event, n: Next<StoryCancel>) -> bool {
        let job = self.job;
        match (self.at, ev) {
            (CancelStep::Find, Event::MaybeItem(r)) => match r {
                Err(e) => n.fails(job.id, crate::effects::database_message(e@)),
                Ok(None) => n.fails(job.id, no_story_message(job.story_id@)),
                Ok(Some(story)) => if story.item_type != ItemType::Story {
                    n.fails(job.id, not_a_story_message(job.story_id@))
                } else if story.status != WorkItemStatus::Pending && story.status
                    != WorkItemStatus::Ready {
                    n.fails(
                        job.id,
                        wrong_state_message(
                            job.story_id@,
                            story.status,
                            "'pending' or 'ready'"@,
                        ),
                    )
                } else {
                    n.goes(
                        job,
                        CancelStep::Dependents { story },
                        Action::ListDependents { story: story.id },
                    )
                },
            },
            (CancelStep::Dependents { story }, Event::Dependencies(r)) => match r {
                Err(e) => n.fails(job.id, crate::effects::database_message(e@)),
                Ok(dependents) => n.goes(
                    job,
                    CancelStep::Mark { story, dependents },
                    Action::UpdateItemStatus { item: story.id, status: WorkItemStatus::Cancelled },
                ),
            },
            (CancelStep::Mark { story, dependents }, Event::Done(r)) => match r {
                Err(e) => n.fails(job.id, crate::effects::database_message(e@)),
                Ok(_) => n.goes(
                    job,
                    CancelStep::Tasks { dependents },
                    Action::ListChildren { parent: story.id },
                ),
            },
            (CancelStep::Tasks { dependents }, Event::WorkItems(r)) => StoryCancel::cancels(
                job,
                dependents,
                match r {
                    Ok(tasks) => tasks_in(tasks@, WorkItemStatus::Pending),
                    Err(_) => Seq::empty(),
                },
                0,
                n,
            ),
            (CancelStep::Cancel { dependents, tasks, done }, Event::Done(_)) => {
                StoryCancel::cancels(job, dependents, tasks@, done + 1, n)
            },
            (CancelStep::Name { dependents, done, names }, Event::MaybeItem(r)) => {
                let names = crate::text::texts_view(names@);
                StoryCancel::names(
                    job,
                    dependents,
                    done + 1,
                    match r {
                        Ok(Some(story)) => names.push(story.short_id@),
                        _ => names,
                    },
                    n,
                )
            },
            _ => false,
        }
    }

    pub fn step(self, ev: Event) -> (n: Next<StoryCancel>)
        requires
            self.accepts(ev),
        ensures
            self.follows(ev, n),
            n matches Next::Act(s, a) ==> forall|e: Event| a.answered_by(e) ==> s.accepts(e),
    {
        let Run { job, at } = self;
        match (at, ev) {
            (CancelStep::Find, Event::MaybeItem(r)) => match r {
                Err(e) => Next::database_error(job.id, e.as_str()),
                Ok(None) => no_story(job.id, job.story_id.as_str()),
                Ok(Some(story)) => {
                    if story.item_type != ItemType::Story {
                        return not_a_story(job.id, job.story_id.as_str());
                    }
                    if story.status != WorkItemStatus::Pending && story.status
                        != WorkItemStatus::Ready {
                        return wrong_state(
                            job.id,
                            job.story_id.as_str(),
                            story.status,
                            "'pending' or 'ready'",
                        );
                    }
                    let of = story.id;
                    Next::go(
                        job,
                        CancelStep::Dependents { story },
                        Action::ListDependents { story: of },
                    )
                },
            },
            (CancelStep::Dependents { story }, Event::Dependencies(r)) => match r {
                Err(e) => Next::database_error(job.id, e.as_str()),
                Ok(dependents) => {
                    let item = story.id;
                    Next::go(
                        job,
                        CancelStep::Mark { story, dependents },
                        Action::UpdateItemStatus { item, status: WorkItemStatus::Cancelled },
                    )
                },
            },
            (CancelStep::Mark { story, dependents }, Event::Done(r)) => match r {
                Err(e) => Next::database_error(job.id, e.as_str()),
                Ok(_) => Next::go(
                    job,
                    CancelStep::Tasks { dependents },
                    Action::ListChildren { parent: story.id },
                ),
            },
            (CancelStep::Tasks { dependents }, Event::WorkItems(r)) => {
                let tasks = match r {
                    Ok(tasks) => collect_tasks(&tasks, WorkItemStatus::Pending),
                    Err(_) => Vec::new(),
                };
                cancel_tasks(job, dependents, tasks, 0)
            },
            (CancelStep::Cancel { dependents, tasks, done }, Event::Done(_)) => {
                cancel_tasks(job, dependents, tasks, done + 1)
            },
            (CancelStep::Name { dependents, done, names }, Event::MaybeItem(r)) => {
                let mut names = names;
                let ghost before = names@;
                if let Ok(Some(story)) = r {
                    proof {
                        crate::seqs::map_push(before, story.short_id, |s: String| s@);
                    }
                    names.push(story.short_id);
                }
                name_dependents(job, dependents, done + 1, names)
            },
            _ => Next::End,
        }
    }
}

fn name_dependents(
    job: CancelJob,
    dependents: Vec<Dependency>,
    done: usize,
    names: Vec<String>,
) -> (n: Next<StoryCancel>)
    ensures
        StoryCancel::names(
            job,
            dependents,
            done as int,
            crate::text::texts_view(names@),
            n,
        ),
        n matches Next::Act(s, a) ==> forall|e: Event| a.answered_by(e) ==> s.accepts(e),
{
    if done < dependents.len() {
        let item = dependents[done].blocked_id;
        return Next::go(
            job,
            CancelStep::Name { dependents, done, names },
            Action::GetItem { item },
        );
    }
    let mut data = Json::object().with("story_id", Json::Str(job.story_id)).with(
        "cancelled",
        Json::Bool(true),
    );
    if dependents.len() > 0 {
        let count = u64_text(dependents.len() as u64);
        let list = join_texts(&names, ", ");
        let warning = cat4(
            "story has ",
            count.as_str(),
            " dependent(s) that will be blocked: ",
            list.as_str(),
        );
        data = data.with("warning", Json::Str(warning)).with(
            "blocked_dependents",
            Json::texts(&names),
        );
    }
    Next::reply(job.id, data)
}

fn cancel_tasks(
    job: CancelJob,
    dependents: Vec<Dependency>,
    tasks: Vec<Uuid>,
    done: usize,
) -> (n: Next<StoryCancel>)
    ensures
        StoryCancel::cancels(job, dependents, tasks@, done as int, n),
        n matches Next::Act(s, a) ==> forall|e: Event| a.answered_by(e) ==> s.accepts(e),
{
    if done < tasks.len() {
        let item = tasks[done];
        return Next::go(
            job,
            CancelStep::Cancel { dependents, tasks, done },
            Action::UpdateItemStatus { item, status: WorkItemStatus::Cancelled },
        );
    }
    let names: Vec<String> = Vec::new();
    assert(crate::text::texts_view(names@) =~= Seq::<Seq<char>>::empty());
    name_dependents(job, dependents, 0, names)
}

} // verus!
