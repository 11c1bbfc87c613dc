//! What `exec.continue` is for, over the whole course of a request.
use vstd::prelude::*;
use crate::effects::{Action, Event, Next};
use crate::histories::{had, just, reaches, Machine};
use crate::ident::Uuid;
use crate::json::JsonV;
use crate::launch::{Launch, LaunchNext};
use crate::launch_laws::{is_at_work, is_set_on, launch_holds};
use crate::model::{Dependency, ItemType, TaskKind, WorkItem, WorkItemStatus};
use crate::protocol::{Request, ResponseStatus};
use crate::stories::{ContinueStep, StoryContinue};
use crate::task_laws::{
    comes_next, completes, is_spared, none_is_spared, nothing_is_left, was_set, were_listed,
};

verus! {

impl Machine for StoryContinue {
    open spec fn takes_up(req: Request, n: Next<StoryContinue>) -> bool {
        StoryContinue::begins(req, n)
    }

    open spec fn leads(self, ev: Event, n: Next<StoryContinue>) -> bool {
        self.follows(ev, n)
    }
}

/// Whether the action was done, whatever came of it.
pub open spec fn was_tried(log: Seq<(Action, Event)>, action: Action) -> bool {
    exists|ev: Event| #[trigger] had(log, action, ev)
}

/// Whether the request names the story, and it failed or was cancelled; a cancelled one must have
/// no dependents, unless the request forces it.
pub open spec fn may_continue(
    req: Request,
    log: Seq<(Action, Event)>,
    story: WorkItem,
) -> bool {
    &&& is_named(req, log, story)
    &&& story.status == WorkItemStatus::Cancelled && req.params@.truth_field("force"@) != Some(
        true,
    ) ==> exists|v: Vec<Dependency>|
        v@.len() == 0 && #[trigger] had(
            log,
            Action::ListDependents { story: story.id },
            Event::Dependencies(Ok(v)),
        )
}

pub open spec fn is_named(req: Request, log: Seq<(Action, Event)>, story: WorkItem) -> bool {
    &&& exists|text: String|
        req.params@.text_field("story_id"@) == Some(text@) && #[trigger] had(
            log,
            Action::FindItemByWaveId { text },
            Event::MaybeItem(Ok(Some(story))),
        )
    &&& story.item_type == ItemType::Story
    &&& story.status == WorkItemStatus::Failed || story.status == WorkItemStatus::Cancelled
}

// ---- a failed story ----

pub open spec fn is_failed_task(t: WorkItem) -> bool {
    t.item_type == ItemType::Task && t.status == WorkItemStatus::Failed
}

/// Whether the task is the first of the listing that failed.
pub open spec fn is_first_failed(tasks: Seq<WorkItem>, task: WorkItem) -> bool {
    exists|i: int|
        0 <= i < tasks.len() && #[trigger] tasks[i] == task && is_failed_task(task) && forall|
            k: int,
        |
            0 <= k < i ==> !is_failed_task(#[trigger] tasks[k])
}

pub open spec fn none_failed(tasks: Seq<WorkItem>) -> bool {
    forall|t: WorkItem| #[trigger] tasks.contains(t) ==> !is_failed_task(t)
}

/// Whether the failure of the story is behind it: the task that failed first counts as done, and
/// the one that would have verified it is spared that.
pub open spec fn is_past_failure(log: Seq<(Action, Event)>, story: WorkItem) -> bool {
    exists|tasks: Seq<WorkItem>| #[trigger]
        were_listed(log, story, tasks) && (none_failed(tasks) || exists|task: WorkItem| #[trigger]
            is_first_failed(tasks, task) && was_set(log, task.id, WorkItemStatus::Done) && (
            task.kind == Some(TaskKind::Impl) ==> is_seen_to(log, tasks, task)))
}

pub open spec fn is_seen_to(
    log: Seq<(Action, Event)>,
    tasks: Seq<WorkItem>,
    task: WorkItem,
) -> bool {
    ||| none_is_spared(tasks, task)
    ||| exists|v: WorkItem, status: WorkItemStatus| #[trigger]
        is_spared(tasks, task, v, status) && was_tried(
            log,
            Action::UpdateItemStatus { item: v.id, status },
        )
}

proof fn failed_is_first(tasks: Seq<WorkItem>)
    ensures
        match crate::stories::failed_task(tasks) {
            Some(t) => is_first_failed(tasks, t),
            None => none_failed(tasks),
        },
{
    let wanted = |t: WorkItem| t.item_type == ItemType::Task && t.status == WorkItemStatus::Failed;
    crate::seqs::law_the_first_is_first(tasks, wanted);
    match crate::seqs::first_where(tasks, wanted) {
        Some(x) => {
            let i = choose|i: int|
                0 <= i < tasks.len() && #[trigger] tasks[i] == x && wanted(x) && forall|k: int|
                    0 <= k < i ==> !wanted(#[trigger] tasks[k]);
            assert forall|k: int| 0 <= k < i implies !is_failed_task(#[trigger] tasks[k]) by {
                assert(!wanted(tasks[k]));
            }
            assert(tasks[i] == x);
        },
        None => {
            assert forall|t: WorkItem| #[trigger] tasks.contains(t) implies !is_failed_task(t) by {
                assert(!wanted(t));
            }
        },
    }
}

// ---- a cancelled story ----

pub open spec fn is_cancelled_task(t: WorkItem) -> bool {
    t.item_type == ItemType::Task && t.status == WorkItemStatus::Cancelled
}

/// Whether the cancelled tasks of the story wait again, each of them and no others.
pub open spec fn are_restored(log: Seq<(Action, Event)>, story: WorkItem) -> bool {
    exists|tasks: Seq<WorkItem>| #[trigger]
        were_listed(log, story, tasks) && forall|t: WorkItem| #[trigger]
            tasks.contains(t) && is_cancelled_task(t) ==> was_tried(
                log,
                Action::UpdateItemStatus { item: t.id, status: WorkItemStatus::Pending },
            )
}

/// Whether the identifiers are those of the cancelled tasks of the listing.
pub open spec fn are_cancelled(tasks: Seq<WorkItem>, ids: Seq<Uuid>) -> bool {
    forall|id: Uuid| #[trigger]
        ids.contains(id) <==> exists|t: WorkItem| #[trigger]
            tasks.contains(t) && is_cancelled_task(t) && t.id == id
}

proof fn collected_are_cancelled(tasks: Seq<WorkItem>)
    ensures
        are_cancelled(tasks, crate::stories::tasks_in(tasks, WorkItemStatus::Cancelled)),
{
    let status = WorkItemStatus::Cancelled;
    let keep = |t: WorkItem| t.item_type == ItemType::Task && t.status == status;
    let pick = |t: WorkItem| t.id;
    assert forall|id: Uuid| #[trigger]
        crate::stories::tasks_in(tasks, status).contains(id) <==> exists|t: WorkItem| #[trigger]
            tasks.contains(t) && is_cancelled_task(t) && t.id == id by {
        crate::seqs::map_contains(tasks.filter(keep), pick, id);
        assert forall|t: WorkItem| #[trigger] tasks.filter(keep).contains(t) <==> tasks.contains(t)
            && is_cancelled_task(t) by {
            crate::seqs::filter_contains(tasks, keep, t);
        }
        if exists|t: WorkItem| #[trigger]
            tasks.contains(t) && is_cancelled_task(t) && t.id == id {
            let t = choose|t: WorkItem| #[trigger]
                tasks.contains(t) && is_cancelled_task(t) && t.id == id;
            assert(tasks.filter(keep).contains(t));
        }
    }
}

/// Whether a story is no longer in the way of others.
pub open spec fn is_out_of_the_way(log: Seq<(Action, Event)>, id: Uuid) -> bool {
    exists|b: WorkItem|
        #[trigger] had(log, Action::GetItem { item: id }, Event::MaybeItem(Ok(Some(b)))) && (
        b.status == WorkItemStatus::Done || b.status == WorkItemStatus::Cancelled)
}

/// Whether everything that blocks the story is out of its way.
pub open spec fn is_unblocked(log: Seq<(Action, Event)>, story: WorkItem) -> bool {
    exists|v: Vec<Dependency>| #[trigger]
        had(log, Action::ListBlockers { story: story.id }, Event::Dependencies(Ok(v)))
            && forall|k: int|
            0 <= k < v@.len() ==> is_out_of_the_way(log, (#[trigger] v@[k]).blocker_id)
}

/// Whether something that blocks the story was found in its way.
pub open spec fn is_blocked(log: Seq<(Action, Event)>, story: WorkItem) -> bool {
    exists|v: Vec<Dependency>, k: int, ev: Event|
        had(log, Action::ListBlockers { story: story.id }, Event::Dependencies(Ok(v))) && 0 <= k
            < v@.len() && #[trigger] had(
            log,
            Action::GetItem { item: (#[trigger] v@[k]).blocker_id },
            ev,
        ) && !(ev matches Event::MaybeItem(Ok(Some(b))) && (b.status == WorkItemStatus::Done
            || b.status == WorkItemStatus::Cancelled))
}

pub open spec fn is_as_told(log: Seq<(Action, Event)>, story: WorkItem, ready: Option<bool>) -> bool {
    &&& story.status == WorkItemStatus::Cancelled
    &&& match ready {
        None => story.worktree_path is Some && was_set(log, story.id, WorkItemStatus::InProgress),
        Some(true) => story.worktree_path is None && is_unblocked(log, story),
        Some(false) => story.worktree_path is None && is_blocked(log, story),
    }
}

// ---- the course ----

/// Whether the agent is started on the task that comes next in the story, once both are in
/// progress.
pub open spec fn continue_launches(
    req: Request,
    log: Seq<(Action, Event)>,
    launch: Launch,
) -> bool {
    exists|story: WorkItem| #[trigger]
        may_continue(req, log, story) && story.status == WorkItemStatus::Failed
            && is_past_failure(log, story) && comes_next(log, story, Some(launch.task)) && was_set(
            log,
            launch.task.id,
            WorkItemStatus::InProgress,
        ) && was_set(log, story.id, WorkItemStatus::InProgress) && launch.session
            == launch.task.decomposition_session_id && launch.story == story.id && launch.worktree
            == story.worktree_path && story.worktree_path is Some
}

spec fn continue_holds(
    req: Request,
    log: Seq<(Action, Event)>,
    s: StoryContinue,
    a: Action,
) -> bool {
    &&& s.job.id == req.id
    &&& req.params@.text_field("story_id"@) == Some(s.job.story_id@)
    &&& s.job.force == (req.params@.truth_field("force"@) == Some(true))
    &&& match s.at {
        ContinueStep::Find => a == Action::FindItemByWaveId { text: s.job.story_id },
        ContinueStep::Dependents { story } => is_named(req, log, story) && story.status
            == WorkItemStatus::Cancelled && a == Action::ListDependents { story: story.id },
        ContinueStep::Failed { story } => may_continue(req, log, story) && story.status
            == WorkItemStatus::Failed && a == Action::ListChildren { parent: story.id },
        ContinueStep::MarkDone { story, tasks, failed } => {
            &&& may_continue(req, log, story)
            &&& story.status == WorkItemStatus::Failed
            &&& were_listed(log, story, tasks@)
            &&& just(log, Action::ListChildren { parent: story.id }, Event::WorkItems(Ok(tasks)))
            &&& is_first_failed(tasks@, failed)
            &&& a == Action::UpdateItemStatus { item: failed.id, status: WorkItemStatus::Done }
        },
        ContinueStep::MarkVerify { story } => {
            &&& may_continue(req, log, story)
            &&& story.status == WorkItemStatus::Failed
            &&& exists|tasks: Seq<WorkItem>, task: WorkItem, v: WorkItem, status: WorkItemStatus|
                were_listed(log, story, tasks) && is_first_failed(tasks, task) && was_set(
                    log,
                    task.id,
                    WorkItemStatus::Done,
                ) && task.kind == Some(TaskKind::Impl) && #[trigger] is_spared(
                    tasks,
                    task,
                    v,
                    status,
                ) && a == (Action::UpdateItemStatus { item: v.id, status })
        },
        ContinueStep::Tasks { story } => {
            &&& may_continue(req, log, story)
            &&& story.status == WorkItemStatus::Failed
            &&& is_past_failure(log, story)
            &&& a == Action::ListChildren { parent: story.id }
        },
        ContinueStep::NextTask { story, tasks } => {
            &&& may_continue(req, log, story)
            &&& story.status == WorkItemStatus::Failed
            &&& is_past_failure(log, story)
            &&& just(log, Action::ListChildren { parent: story.id }, Event::WorkItems(Ok(tasks)))
            &&& a matches Action::NextPendingTask { story: of, tasks: asked }
            &&& of == story.id
            &&& asked@ == tasks@
        },
        ContinueStep::MarkNext { story, next } => {
            &&& may_continue(req, log, story)
            &&& story.status == WorkItemStatus::Failed
            &&& is_past_failure(log, story)
            &&& comes_next(log, story, Some(next))
            &&& exists|tasks: Vec<WorkItem>| #[trigger]
                just(
                    log,
                    Action::NextPendingTask { story: story.id, tasks },
                    Event::NextTask(Some(next)),
                )
            &&& a == Action::UpdateItemStatus { item: next.id, status: WorkItemStatus::InProgress }
        },
        ContinueStep::MarkStory { story, next } => {
            &&& may_continue(req, log, story)
            &&& story.status == WorkItemStatus::Failed
            &&& is_past_failure(log, story)
            &&& comes_next(log, story, Some(next))
            &&& was_set(log, next.id, WorkItemStatus::InProgress)
            &&& just(
                log,
                Action::UpdateItemStatus { item: next.id, status: WorkItemStatus::InProgress },
                Event::Done(Ok(())),
            )
            &&& a == Action::UpdateItemStatus { item: story.id, status: WorkItemStatus::InProgress }
        },
        ContinueStep::Launch { launching } => continue_launches(req, log, launching.launch)
            && launch_holds(log, launching, a),
        ContinueStep::Revert { .. } => exists|launch: Launch|
            #[trigger] continue_launches(req, log, launch) && a == (Action::UpdateItemStatus {
                item: launch.task.id,
                status: WorkItemStatus::Pending,
            }),
        ContinueStep::Finish => exists|story: WorkItem|
            #[trigger] may_continue(req, log, story) && story.status == WorkItemStatus::Failed
                && is_past_failure(log, story) && completes(log, story) && (exists|
                tasks: Vec<WorkItem>,
            |
                #[trigger] just(
                    log,
                    Action::NextPendingTask { story: story.id, tasks },
                    Event::NextTask(None),
                ) && were_listed(log, story, tasks@) && nothing_is_left(tasks@)) && a
                == (Action::UpdateItemStatus { item: story.id, status: WorkItemStatus::Done }),
        ContinueStep::Resume { story } => {
            &&& may_continue(req, log, story)
            &&& story.status == WorkItemStatus::Cancelled
            &&& story.worktree_path is Some
            &&& a == Action::UpdateItemStatus { item: story.id, status: WorkItemStatus::InProgress }
        },
        ContinueStep::Blockers { story } => {
            &&& may_continue(req, log, story)
            &&& story.status == WorkItemStatus::Cancelled
            &&& story.worktree_path is None
            &&& a == Action::ListBlockers { story: story.id }
        },
        ContinueStep::Blocker { story, blockers, done } => {
            &&& may_continue(req, log, story)
            &&& story.status == WorkItemStatus::Cancelled
            &&& story.worktree_path is None
            &&& had(
                log,
                Action::ListBlockers { story: story.id },
                Event::Dependencies(Ok(blockers)),
            )
            &&& done < blockers@.len()
            &&& forall|k: int|
                0 <= k < done ==> is_out_of_the_way(log, (#[trigger] blockers@[k]).blocker_id)
            &&& a == Action::GetItem { item: blockers@[done as int].blocker_id }
        },
        ContinueStep::Cancelled { story, ready } => {
            &&& may_continue(req, log, story)
            &&& is_as_told(log, story, ready)
            &&& a == Action::ListChildren { parent: story.id }
        },
        ContinueStep::Restore { story, ready, tasks, done } => {
            &&& may_continue(req, log, story)
            &&& is_as_told(log, story, ready)
            &&& exists|v: Seq<WorkItem>| #[trigger]
                were_listed(log, story, v) && are_cancelled(v, tasks@)
            &&& done < tasks@.len()
            &&& forall|k: int|
                0 <= k < done ==> was_tried(
                    log,
                    Action::UpdateItemStatus {
                        item: #[trigger] tasks@[k],
                        status: WorkItemStatus::Pending,
                    },
                )
            &&& a == Action::UpdateItemStatus {
                item: tasks@[done as int],
                status: WorkItemStatus::Pending,
            }
        },
        ContinueStep::Restored { story } => {
            &&& may_continue(req, log, story)
            &&& is_as_told(log, story, None)
            &&& are_restored(log, story)
            &&& a == Action::ListChildren { parent: story.id }
        },
        ContinueStep::NextRestored { story } => {
            &&& may_continue(req, log, story)
            &&& is_as_told(log, story, None)
            &&& are_restored(log, story)
            &&& a matches Action::NextPendingTask { story: of, tasks }
            &&& of == story.id
            &&& just(log, Action::ListChildren { parent: story.id }, Event::WorkItems(Ok(tasks)))
        },
        ContinueStep::MarkRestored { next } => exists|story: WorkItem|
            #[trigger] may_continue(req, log, story) && is_as_told(log, story, None)
                && are_restored(log, story) && comes_next(log, story, Some(next)) && (exists|
                tasks: Vec<WorkItem>,
            | #[trigger]
                just(
                    log,
                    Action::NextPendingTask { story: story.id, tasks },
                    Event::NextTask(Some(next)),
                )) && a == (Action::UpdateItemStatus {
                item: next.id,
                status: WorkItemStatus::InProgress,
            }),
        ContinueStep::SetStatus => exists|story: WorkItem|
            #[trigger] may_continue(req, log, story) && are_restored(log, story) && {
                ||| is_as_told(log, story, Some(true)) && a == (Action::UpdateItemStatus {
                    item: story.id,
                    status: WorkItemStatus::Ready,
                })
                ||| is_as_told(log, story, Some(false)) && a == (Action::UpdateItemStatus {
                    item: story.id,
                    status: WorkItemStatus::Pending,
                })
            },
    }
}

proof fn continue_facts_stay(req: Request, log: Seq<(Action, Event)>)
    requires
        log.len() > 0,
    ensures
        forall|a: Action| #[trigger] was_tried(log.drop_last(), a) ==> was_tried(log, a),
        forall|s: WorkItem| #[trigger]
            is_named(req, log.drop_last(), s) ==> is_named(req, log, s),
        forall|s: WorkItem| #[trigger]
            may_continue(req, log.drop_last(), s) ==> may_continue(req, log, s),
        forall|s: WorkItem| #[trigger]
            is_past_failure(log.drop_last(), s) ==> is_past_failure(log, s),
        forall|s: WorkItem| #[trigger]
            are_restored(log.drop_last(), s) ==> are_restored(log, s),
        forall|i: Uuid| #[trigger]
            is_out_of_the_way(log.drop_last(), i) ==> is_out_of_the_way(log, i),
        forall|s: WorkItem, r: Option<bool>| #[trigger]
            is_as_told(log.drop_last(), s, r) ==> is_as_told(log, s, r),
        forall|l: Launch| #[trigger]
            continue_launches(req, log.drop_last(), l) ==> continue_launches(req, log, l),
{
    crate::histories::had_more(log);
    crate::task_laws::facts_stay(req, log);
    let init = log.drop_last();
    assert forall|a: Action| #[trigger] was_tried(init, a) implies was_tried(log, a) by {}
    assert forall|tasks: Seq<WorkItem>, t: WorkItem| #[trigger]
        is_seen_to(init, tasks, t) implies is_seen_to(log, tasks, t) by {}
    assert forall|s: WorkItem| #[trigger] is_past_failure(init, s) implies is_past_failure(
        log,
        s,
    ) by {
        let tasks = choose|tasks: Seq<WorkItem>| #[trigger]
            were_listed(init, s, tasks) && (none_failed(tasks) || exists|task: WorkItem| #[trigger]
                is_first_failed(tasks, task) && was_set(init, task.id, WorkItemStatus::Done) && (
                task.kind == Some(TaskKind::Impl) ==> is_seen_to(init, tasks, task)));
        assert(were_listed(log, s, tasks));
    }
    assert forall|s: WorkItem| #[trigger] are_restored(init, s) implies are_restored(log, s) by {
        let tasks = choose|tasks: Seq<WorkItem>| #[trigger]
            were_listed(init, s, tasks) && forall|t: WorkItem| #[trigger]
                tasks.contains(t) && is_cancelled_task(t) ==> was_tried(
                    init,
                    Action::UpdateItemStatus { item: t.id, status: WorkItemStatus::Pending },
                );
        assert(were_listed(log, s, tasks));
    }
    assert forall|s: WorkItem| #[trigger] is_unblocked(init, s) implies is_unblocked(log, s) by {
        let v = choose|v: Vec<Dependency>| #[trigger]
            had(init, Action::ListBlockers { story: s.id }, Event::Dependencies(Ok(v)))
                && forall|k: int|
                0 <= k < v@.len() ==> is_out_of_the_way(init, (#[trigger] v@[k]).blocker_id);
        assert(had(log, Action::ListBlockers { story: s.id }, Event::Dependencies(Ok(v))));
    }
    assert forall|s: WorkItem| #[trigger] is_blocked(init, s) implies is_blocked(log, s) by {}
    assert forall|l: Launch| #[trigger] continue_launches(req, init, l) implies continue_launches(
        req,
        log,
        l,
    ) by {
        let story = choose|story: WorkItem| #[trigger]
            may_continue(req, init, story) && story.status == WorkItemStatus::Failed
                && is_past_failure(init, story) && comes_next(init, story, Some(l.task)) && was_set(
                init,
                l.task.id,
                WorkItemStatus::InProgress,
            ) && was_set(init, story.id, WorkItemStatus::InProgress) && l.session
                == l.task.decomposition_session_id && l.story == story.id && l.worktree
                == story.worktree_path && story.worktree_path is Some;
        assert(may_continue(req, log, story));
    }
}

proof fn continue_keeps(req: Request, log: Seq<(Action, Event)>, s: StoryContinue, a: Action)
    requires
        reaches(req, log, Next::Act(s, a)),
    ensures
        continue_holds(req, log, s, a),
    decreases log.len(),
{
    if log.len() > 0 {
        let before = crate::histories::before_last::<StoryContinue>(req, log, Next::Act(s, a));
        continue_keeps(req, log.drop_last(), before, log.last().0);
        continue_step(req, log, before, Next::Act(s, a));
    }
}

/// What the cancelled tasks come to, those before `done` being restored.
proof fn restoring(
    req: Request,
    log: Seq<(Action, Event)>,
    job: crate::stories::ContinueJob,
    story: WorkItem,
    ready: Option<bool>,
    v: Seq<WorkItem>,
    tasks: Seq<Uuid>,
    done: int,
    n: Next<StoryContinue>,
)
    requires
        StoryContinue::restores(job, story, ready, tasks, done, n),
        job.id == req.id,
        req.params@.text_field("story_id"@) == Some(job.story_id@),
        job.force == (req.params@.truth_field("force"@) == Some(true)),
        may_continue(req, log, story),
        is_as_told(log, story, ready),
        were_listed(log, story, v),
        are_cancelled(v, tasks),
        0 <= done <= tasks.len(),
        forall|k: int|
            0 <= k < done ==> was_tried(
                log,
                Action::UpdateItemStatus {
                    item: #[trigger] tasks[k],
                    status: WorkItemStatus::Pending,
                },
            ),
    ensures
        n matches Next::Act(s, a) && continue_holds(req, log, s, a),
{
    if done == tasks.len() {
        assert forall|t: WorkItem| #[trigger] v.contains(t) && is_cancelled_task(t) implies was_tried(
            log,
            Action::UpdateItemStatus { item: t.id, status: WorkItemStatus::Pending },
        ) by {
            assert(tasks.contains(t.id));
            let k = choose|k: int| 0 <= k < tasks.len() && tasks[k] == t.id;
            assert(tasks[k] == t.id);
        }
        assert(are_restored(log, story));
    }
}

proof fn continue_step(
    req: Request,
    log: Seq<(Action, Event)>,
    before: StoryContinue,
    n: Next<StoryContinue>,
)
    requires
        log.len() > 0,
        continue_holds(req, log.drop_last(), before, log.last().0),
        before.follows(log.last().1, n),
    ensures
        n matches Next::Act(s, a) ==> continue_holds(req, log, s, a),
{
    let (b, ev) = log.last();
    crate::histories::had_more(log);
    crate::task_laws::facts_stay(req, log);
    continue_facts_stay(req, log);
    match (before.at, ev) {
        (ContinueStep::Find, Event::MaybeItem(Ok(Some(story)))) => {
            assert(had(log, b, ev));
        },
        (ContinueStep::Dependents { story }, Event::Dependencies(Ok(v))) => {
            assert(had(log, b, ev));
        },
        (ContinueStep::Failed { story }, Event::WorkItems(Ok(v))) => {
            failed_is_first(v@);
            assert(had(log, b, ev));
            assert(were_listed(log, story, v@));
        },
        (ContinueStep::MarkDone { story, tasks, failed }, Event::Done(Ok(_))) => {
            crate::task_laws::spared_is_verify_change(tasks@, failed);
            assert(was_set(log, failed.id, WorkItemStatus::Done));
            assert(were_listed(log, story, tasks@));
            match crate::tasks::verify_change(tasks@, failed) {
                Some((v, status)) => {
                    assert(is_spared(tasks@, failed, v, status));
                },
                None => {
                    assert(is_seen_to(log, tasks@, failed));
                },
            }
            if failed.kind != Some(TaskKind::Impl) {
                assert(is_past_failure(log, story));
            }
        },
        (ContinueStep::MarkVerify { story }, Event::Done(_)) => {
            let (tasks, task, v, status) = choose|
                tasks: Seq<WorkItem>,
                task: WorkItem,
                v: WorkItem,
                status: WorkItemStatus,
            |
                were_listed(log.drop_last(), story, tasks) && is_first_failed(tasks, task)
                    && was_set(log.drop_last(), task.id, WorkItemStatus::Done) && task.kind
                    == Some(TaskKind::Impl) && #[trigger] is_spared(tasks, task, v, status) && b
                    == (Action::UpdateItemStatus { item: v.id, status });
            assert(had(log, Action::UpdateItemStatus { item: v.id, status }, ev));
            assert(is_spared(tasks, task, v, status));
            assert(is_seen_to(log, tasks, task));
            assert(were_listed(log, story, tasks));
            assert(is_past_failure(log, story));
        },
        (ContinueStep::NextTask { story, tasks }, Event::NextTask(next)) => {
            let asked = b->NextPendingTask_tasks;
            crate::task_laws::finished_is_nothing_left(tasks@);
            assert(had(
                log.drop_last(),
                Action::ListChildren { parent: story.id },
                Event::WorkItems(Ok(tasks)),
            )) by {
                crate::histories::had_more(log.drop_last());
            }
            assert(were_listed(log, story, asked@));
            assert(had(
                log,
                Action::NextPendingTask { story: story.id, tasks: asked },
                Event::NextTask(next),
            ));
            assert(comes_next(log, story, next));
            assert(just(
                log,
                Action::NextPendingTask { story: story.id, tasks: asked },
                Event::NextTask(next),
            ));
            if next is None && crate::tasks::all_finished(tasks@) {
                assert(completes(log, story));
                assert(may_continue(req, log, story));
            }
        },
        (ContinueStep::MarkStory { story, next }, Event::Done(Ok(_))) => {
            assert(was_set(log, story.id, WorkItemStatus::InProgress));
            assert(may_continue(req, log, story));
        },
        (ContinueStep::Launch { launching }, _) => {
            let m = choose|m: LaunchNext| #[trigger]
                launching.follows(ev, m) && StoryContinue::carries(
                    before.job,
                    launching.launch.task,
                    m,
                    n,
                );
            crate::launch_laws::law_an_agent_is_set_on_its_task(log, launching, m);
            assert(continue_launches(req, log, launching.launch));
        },
        (ContinueStep::Blockers { story }, Event::Dependencies(Ok(v))) => {
            assert(had(log, b, ev));
            if v@.len() == 0 {
                assert(is_unblocked(log, story));
            }
        },
        (ContinueStep::Blocker { story, blockers, done }, Event::MaybeItem(r)) => {
            let id = blockers@[done as int].blocker_id;
            assert(had(log, Action::GetItem { item: id }, ev));
            assert(had(
                log,
                Action::ListBlockers { story: story.id },
                Event::Dependencies(Ok(blockers)),
            ));
            if crate::stories::unblocks(r) {
                assert(is_out_of_the_way(log, id));
                assert forall|k: int| 0 <= k < done + 1 implies is_out_of_the_way(
                    log,
                    (#[trigger] blockers@[k]).blocker_id,
                ) by {
                    if k < done {
                        assert(is_out_of_the_way(log.drop_last(), blockers@[k].blocker_id));
                    }
                }
                assert(blockers@.len() == blockers.len());
                if done + 1 == blockers@.len() {
                    assert(is_unblocked(log, story));
                }
            } else {
                assert(is_blocked(log, story));
            }
        },
        (ContinueStep::Resume { story }, Event::Done(Ok(_))) => {
            assert(was_set(log, story.id, WorkItemStatus::InProgress));
        },
        (ContinueStep::Cancelled { story, ready }, Event::WorkItems(Ok(v))) => {
            assert(had(log, b, ev));
            assert(were_listed(log, story, v@));
            collected_are_cancelled(v@);
            restoring(
                req,
                log,
                before.job,
                story,
                ready,
                v@,
                crate::stories::tasks_in(v@, WorkItemStatus::Cancelled),
                0,
                n,
            );
        },
        (ContinueStep::Restore { story, ready, tasks, done }, Event::Done(_)) => {
            let v = choose|v: Seq<WorkItem>| #[trigger]
                were_listed(log.drop_last(), story, v) && are_cancelled(v, tasks@);
            assert(were_listed(log, story, v));
            assert(had(
                log,
                Action::UpdateItemStatus {
                    item: tasks@[done as int],
                    status: WorkItemStatus::Pending,
                },
                ev,
            ));
            assert forall|k: int| 0 <= k < done + 1 implies was_tried(
                log,
                Action::UpdateItemStatus {
                    item: #[trigger] tasks@[k],
                    status: WorkItemStatus::Pending,
                },
            ) by {
                if k == done {
                }
            }
            restoring(req, log, before.job, story, ready, v, tasks@, done + 1, n);
        },
        (ContinueStep::NextRestored { story }, Event::NextTask(next)) => {
            let tasks = b->NextPendingTask_tasks;
            assert(had(
                log.drop_last(),
                Action::ListChildren { parent: story.id },
                Event::WorkItems(Ok(tasks)),
            )) by {
                crate::histories::had_more(log.drop_last());
            }
            assert(were_listed(log, story, tasks@));
            assert(had(
                log,
                Action::NextPendingTask { story: story.id, tasks },
                Event::NextTask(next),
            ));
            assert(comes_next(log, story, next));
            assert(just(
                log,
                Action::NextPendingTask { story: story.id, tasks },
                Event::NextTask(next),
            ));
            assert(may_continue(req, log, story));
        },
        _ => {},
    }
}

/// Whether continuing a story may change the status of the item so. Of a failed story, the task
/// that failed first counts as done, and the one that would have verified it is spared that; the
/// task that comes next is taken up, and the story with it; where nothing comes next and nothing
/// is left the story is done; and a task on which no agent could be started waits again. Of a
/// cancelled story, the tasks that were cancelled wait again, and no others; the story is in
/// progress where it has a worktree, and is otherwise ready or waits, as what blocks it tells.
pub open spec fn continue_may_set(
    log: Seq<(Action, Event)>,
    story: WorkItem,
    item: Uuid,
    status: WorkItemStatus,
) -> bool {
    if story.status == WorkItemStatus::Failed {
        ||| exists|tasks: Vec<WorkItem>, task: WorkItem|
            just(log, Action::ListChildren { parent: story.id }, Event::WorkItems(Ok(tasks)))
                && #[trigger] is_first_failed(tasks@, task) && item == task.id && status
                == WorkItemStatus::Done
        ||| exists|tasks: Seq<WorkItem>, task: WorkItem, v: WorkItem|
            were_listed(log, story, tasks) && is_first_failed(tasks, task) && was_set(
                log,
                task.id,
                WorkItemStatus::Done,
            ) && task.kind == Some(TaskKind::Impl) && #[trigger] is_spared(tasks, task, v, status)
                && item == v.id
        ||| is_past_failure(log, story) && exists|tasks: Vec<WorkItem>, next: WorkItem|
            #[trigger] just(
                log,
                Action::NextPendingTask { story: story.id, tasks },
                Event::NextTask(Some(next)),
            ) && item == next.id && status == WorkItemStatus::InProgress
        ||| is_past_failure(log, story) && exists|tasks: Vec<WorkItem>|
            #[trigger] just(
                log,
                Action::NextPendingTask { story: story.id, tasks },
                Event::NextTask(None),
            ) && were_listed(log, story, tasks@) && nothing_is_left(tasks@) && item == story.id
                && status == WorkItemStatus::Done
        ||| exists|next: WorkItem|
            #[trigger] comes_next(log, story, Some(next)) && just(
                log,
                Action::UpdateItemStatus { item: next.id, status: WorkItemStatus::InProgress },
                Event::Done(Ok(())),
            ) && item == story.id && status == WorkItemStatus::InProgress
        ||| exists|next: WorkItem|
            #[trigger] comes_next(log, story, Some(next)) && was_set(
                log,
                next.id,
                WorkItemStatus::InProgress,
            ) && item == next.id && status == WorkItemStatus::Pending
    } else {
        ||| item == story.id && status == WorkItemStatus::InProgress && story.worktree_path is Some
        ||| status == WorkItemStatus::Pending && exists|tasks: Seq<WorkItem>, t: WorkItem|
            were_listed(log, story, tasks) && #[trigger] tasks.contains(t) && is_cancelled_task(t)
                && item == t.id
        ||| are_restored(log, story) && story.worktree_path is Some && exists|
            tasks: Vec<WorkItem>,
            next: WorkItem,
        |
            #[trigger] just(
                log,
                Action::NextPendingTask { story: story.id, tasks },
                Event::NextTask(Some(next)),
            ) && item == next.id && status == WorkItemStatus::InProgress
        ||| are_restored(log, story) && story.worktree_path is None && item == story.id && (status
            == WorkItemStatus::Ready && is_unblocked(log, story) || status
            == WorkItemStatus::Pending && is_blocked(log, story))
    }
}

/// What continuing a story does to the world: it changes statuses as it may. The next task of a
/// failed story is sought only once the failure is behind it, among the tasks as they then are,
/// and that of a cancelled one only once its tasks wait again. An agent is started only for a
/// failed story with a worktree, and only on the task that comes next.
pub proof fn law_what_continuing_does(
    req: Request,
    log: Seq<(Action, Event)>,
    s: StoryContinue,
    a: Action,
)
    requires
        reaches(req, log, Next::Act(s, a)),
    ensures
        a matches Action::UpdateItemStatus { item, status } ==> exists|story: WorkItem| #[trigger]
            may_continue(req, log, story) && continue_may_set(log, story, item, status),
        a matches Action::NextPendingTask { story: of, tasks } ==> exists|story: WorkItem|
            #[trigger] may_continue(req, log, story) && of == story.id && log.last().0
                == (Action::ListChildren { parent: story.id }) && (log.last().1
                matches Event::WorkItems(Ok(v)) && v@ == tasks@) && (if story.status
                == WorkItemStatus::Failed {
                is_past_failure(log, story)
            } else {
                are_restored(log, story)
            }),
        a matches Action::SpawnAgent { config } ==> exists|launch: Launch| #[trigger]
            continue_launches(req, log, launch) && is_set_on(log, launch, config),
        !(a is GitReset || a is GitClean || a is Terminate || a is FinishRun || a is ClearWorktree
            || a is RemoveWorktree || a is DeleteItems || a is InsertWorkItem || a
            is UpdateProject),
{
    continue_keeps(req, log, s, a);
    match s.at {
        ContinueStep::Restore { story, ready, tasks, done } => {
            let v = choose|v: Seq<WorkItem>| #[trigger]
                were_listed(log, story, v) && are_cancelled(v, tasks@);
            assert(tasks@.contains(tasks@[done as int]));
            let t = choose|t: WorkItem| #[trigger]
                v.contains(t) && is_cancelled_task(t) && t.id == tasks@[done as int];
            assert(v.contains(t));
            assert(may_continue(req, log, story));
        },
        ContinueStep::Revert { .. } => {
            let launch = choose|launch: Launch|
                #[trigger] continue_launches(req, log, launch) && a == (Action::UpdateItemStatus {
                    item: launch.task.id,
                    status: WorkItemStatus::Pending,
                });
            let story = choose|story: WorkItem| #[trigger]
                may_continue(req, log, story) && story.status == WorkItemStatus::Failed
                    && is_past_failure(log, story) && comes_next(log, story, Some(launch.task))
                    && was_set(log, launch.task.id, WorkItemStatus::InProgress);
            assert(may_continue(req, log, story));
        },
        ContinueStep::MarkDone { story, .. } => {
            assert(may_continue(req, log, story));
        },
        ContinueStep::MarkVerify { story } => {
            assert(may_continue(req, log, story));
        },
        ContinueStep::MarkNext { story, .. } => {
            assert(may_continue(req, log, story));
        },
        ContinueStep::MarkStory { story, next } => {
            assert(may_continue(req, log, story) && comes_next(log, story, Some(next)));
        },
        ContinueStep::Resume { story } => {
            assert(may_continue(req, log, story));
        },
        ContinueStep::NextTask { story, .. } => {
            assert(may_continue(req, log, story));
        },
        ContinueStep::NextRestored { story } => {
            assert(may_continue(req, log, story));
        },
        _ => {},
    }
}

/// What continuing a story comes to. It is refused where the item is no story that failed or was
/// cancelled, and where a cancelled one has dependents and the request does not force it. A task
/// that comes next is taken up at once; where none comes next, a failed story is done if nothing
/// of it is left. The answer names the story and the task that was taken up.
pub proof fn law_what_continuing_comes_to(
    req: Request,
    log: Seq<(Action, Event)>,
    n: Next<StoryContinue>,
)
    requires
        reaches(req, log, n),
    ensures
        log.len() > 0 ==> (log.last().0 is FindItemByWaveId ==> (log.last().1
            matches Event::MaybeItem(Ok(Some(t))) ==> (n is Act <==> t.item_type == ItemType::Story
            && (t.status == WorkItemStatus::Failed || t.status == WorkItemStatus::Cancelled)))),
        log.len() > 0 ==> (log.last().0 is ListDependents ==> (log.last().1
            matches Event::Dependencies(Ok(v)) ==> (n is Act <==> v@.len() == 0))),
        log.len() > 0 ==> (log.last().1 matches Event::NextTask(Some(next)) ==> (n matches Next::Act(
            _,
            a,
        ) && a == (Action::UpdateItemStatus {
            item: next.id,
            status: WorkItemStatus::InProgress,
        }))),
        n matches Next::Reply(r) ==> r.id == req.id && (r.status == ResponseStatus::Success
            ==> exists|story: WorkItem| #[trigger]
            may_continue(req, log, story) && is_continue_answer(req, log, story, r.data@)),
        !(n is End),
{
    if log.len() > 0 {
        let (b, ev) = log.last();
        let before = crate::histories::before_last::<StoryContinue>(req, log, n);
        continue_keeps(req, log.drop_last(), before, b);
        crate::histories::had_more(log);
        crate::task_laws::facts_stay(req, log);
        continue_facts_stay(req, log);
        let id = before.job.story_id@;
        match (before.at, ev) {
            (ContinueStep::NextTask { story, tasks }, Event::NextTask(next)) => {
                crate::task_laws::finished_is_nothing_left(tasks@);
                let asked = b->NextPendingTask_tasks;
                assert(had(
                    log.drop_last(),
                    Action::ListChildren { parent: story.id },
                    Event::WorkItems(Ok(tasks)),
                )) by {
                    crate::histories::had_more(log.drop_last());
                }
                assert(were_listed(log, story, asked@));
                assert(had(
                    log,
                    Action::NextPendingTask { story: story.id, tasks: asked },
                    Event::NextTask(next),
                ));
                continue_answer_fields(id, None, false);
                assert(may_continue(req, log, story));
                if next is None && !crate::tasks::all_finished(tasks@) {
                    assert(!nothing_is_left(asked@));
                    assert(is_unfinished(log, story));
                }
            },
            (ContinueStep::MarkStory { story, next }, Event::Done(Ok(_))) => {
                continue_answer_fields(id, Some(next.short_id@), true);
                assert(was_set(log, story.id, WorkItemStatus::InProgress));
                assert(may_continue(req, log, story));
                assert(comes_next(log, story, Some(next)));
            },
            (ContinueStep::Launch { launching }, _) => {
                let m = choose|m: LaunchNext| #[trigger]
                    launching.follows(ev, m) && StoryContinue::carries(
                        before.job,
                        launching.launch.task,
                        m,
                        n,
                    );
                crate::launch_laws::law_an_agent_is_set_on_its_task(log, launching, m);
                let launch = launching.launch;
                assert(continue_launches(req, log, launch));
                let story = choose|story: WorkItem| #[trigger]
                    may_continue(req, log, story) && story.status == WorkItemStatus::Failed
                        && is_past_failure(log, story) && comes_next(
                        log,
                        story,
                        Some(launch.task),
                    ) && was_set(log, launch.task.id, WorkItemStatus::InProgress) && was_set(
                        log,
                        story.id,
                        WorkItemStatus::InProgress,
                    ) && launch.session == launch.task.decomposition_session_id && launch.story
                        == story.id && launch.worktree == story.worktree_path
                        && story.worktree_path is Some;
                continue_answer_fields(id, Some(launch.task.short_id@), true);
                if m is Started {
                    assert(is_at_work(log, launch));
                    assert(may_continue(req, log, story));
                    assert(comes_next(log, story, Some(launch.task)));
                }
            },
            (ContinueStep::Finish, Event::Done(Ok(_))) => {
                continue_answer_fields(id, None, true);
                let story = choose|story: WorkItem|
                    #[trigger] may_continue(req, log.drop_last(), story) && story.status
                        == WorkItemStatus::Failed && is_past_failure(log.drop_last(), story)
                        && completes(log.drop_last(), story) && b == (Action::UpdateItemStatus {
                        item: story.id,
                        status: WorkItemStatus::Done,
                    });
                assert(may_continue(req, log, story));
                assert(was_set(log, story.id, WorkItemStatus::Done));
            },
            (ContinueStep::NextRestored { story }, Event::NextTask(next)) => {
                continue_step(req, log, before, n);
                let tasks = b->NextPendingTask_tasks;
                assert(had(
                    log.drop_last(),
                    Action::ListChildren { parent: story.id },
                    Event::WorkItems(Ok(tasks)),
                )) by {
                    crate::histories::had_more(log.drop_last());
                }
                assert(were_listed(log, story, tasks@));
                assert(had(
                    log,
                    Action::NextPendingTask { story: story.id, tasks },
                    Event::NextTask(next),
                ));
                continue_answer_fields(id, None, true);
                assert(may_continue(req, log, story));
            },
            (ContinueStep::MarkRestored { next }, Event::Done(Ok(_))) => {
                continue_answer_fields(id, Some(next.short_id@), true);
                let story = choose|story: WorkItem|
                    #[trigger] may_continue(req, log.drop_last(), story) && is_as_told(
                        log.drop_last(),
                        story,
                        None,
                    ) && are_restored(log.drop_last(), story) && comes_next(
                        log.drop_last(),
                        story,
                        Some(next),
                    ) && b == (Action::UpdateItemStatus {
                        item: next.id,
                        status: WorkItemStatus::InProgress,
                    });
                assert(may_continue(req, log, story));
                assert(was_set(log, next.id, WorkItemStatus::InProgress));
                assert(comes_next(log, story, Some(next)));
            },
            (ContinueStep::SetStatus, Event::Done(Ok(_))) => {
                continue_answer_fields(id, None, false);
                let story = choose|story: WorkItem|
                    #[trigger] may_continue(req, log.drop_last(), story) && are_restored(
                        log.drop_last(),
                        story,
                    ) && {
                        ||| is_as_told(log.drop_last(), story, Some(true)) && b
                            == (Action::UpdateItemStatus {
                            item: story.id,
                            status: WorkItemStatus::Ready,
                        })
                        ||| is_as_told(log.drop_last(), story, Some(false)) && b
                            == (Action::UpdateItemStatus {
                            item: story.id,
                            status: WorkItemStatus::Pending,
                        })
                    };
                assert(may_continue(req, log, story));
            },
            _ => {},
        }
    }
}

/// Whether no task comes next in the story, though it is not finished.
pub open spec fn is_unfinished(log: Seq<(Action, Event)>, story: WorkItem) -> bool {
    exists|tasks: Vec<WorkItem>| #[trigger]
        had(log, Action::NextPendingTask { story: story.id, tasks }, Event::NextTask(None))
            && were_listed(log, story, tasks@) && !nothing_is_left(tasks@)
}

/// Whether the data tells what became of the story.
pub open spec fn is_continue_answer(
    req: Request,
    log: Seq<(Action, Event)>,
    story: WorkItem,
    data: JsonV,
) -> bool {
    &&& data.field("story_id"@) == Some(JsonV::Str(req.params@.text_field("story_id"@)->0))
    &&& match (data.field("next_task_id"@), data.field("resumed"@)) {
        (Some(next), Some(JsonV::Bool(true))) => exists|task: WorkItem| #[trigger]
            comes_next(log, story, Some(task)) && next == JsonV::Str(task.short_id@) && was_set(
                log,
                task.id,
                WorkItemStatus::InProgress,
            ) && was_set(log, story.id, WorkItemStatus::InProgress) && (story.status
                == WorkItemStatus::Failed && story.worktree_path is Some ==> exists|launch: Launch|
                launch.task == task && launch.worktree == story.worktree_path
                    && #[trigger] is_at_work(log, launch)),
        (None, Some(JsonV::Bool(true))) => if story.status == WorkItemStatus::Failed {
            completes(log, story) && was_set(log, story.id, WorkItemStatus::Done)
        } else {
            comes_next(log, story, None) && was_set(log, story.id, WorkItemStatus::InProgress)
        },
        (None, Some(JsonV::Bool(false))) => if story.status == WorkItemStatus::Failed {
            is_unfinished(log, story)
        } else {
            story.worktree_path is None && are_restored(log, story) && (was_set(
                log,
                story.id,
                WorkItemStatus::Ready,
            ) && is_unblocked(log, story) || was_set(log, story.id, WorkItemStatus::Pending)
                && is_blocked(log, story))
        },
        _ => false,
    }
}

proof fn continue_answer_fields(story_id: Seq<char>, next: Option<Seq<char>>, resumed: bool)
    ensures
        ({
            let data = crate::stories::continued(story_id, next, resumed);
            &&& data.field("story_id"@) == Some(JsonV::Str(story_id))
            &&& data.field("next_task_id"@) == match next {
                Some(t) => Some(JsonV::Str(t)),
                None => None,
            }
            &&& data.field("resumed"@) == Some(JsonV::Bool(resumed))
        }),
{
    broadcast use crate::histories::field_of_with;

    reveal_strlit("story_id");
    assert("story_id"@.len() == 8);
    reveal_strlit("next_task_id");
    assert("next_task_id"@.len() == 12);
    reveal_strlit("resumed");
    assert("resumed"@.len() == 7);
}

} // verus!
