//! What `exec.skip` and `exec.retry` are for, over the whole course of a request.
use vstd::prelude::*;
use crate::effects::{Action, Event, Next};
use crate::histories::{had, just, reaches, Machine};
use crate::json::JsonV;
use crate::launch::{Launch, LaunchMode, LaunchNext};
use crate::launch_laws::{is_at_work, is_set_on, launch_holds};
use crate::model::{ItemType, TaskKind, WorkItem, WorkItemStatus};
use crate::protocol::{Request, ResponseStatus};
use crate::tasks::{RetryStep, SkipStep, TaskRetry, TaskSkip};

verus! {

impl Machine for TaskSkip {
    open spec fn takes_up(req: Request, n: Next<TaskSkip>) -> bool {
        TaskSkip::begins(req, n)
    }

    open spec fn leads(self, ev: Event, n: Next<TaskSkip>) -> bool {
        self.follows(ev, n)
    }
}

impl Machine for TaskRetry {
    open spec fn takes_up(req: Request, n: Next<TaskRetry>) -> bool {
        TaskRetry::begins(req, n)
    }

    open spec fn leads(self, ev: Event, n: Next<TaskRetry>) -> bool {
        self.follows(ev, n)
    }
}

// ---- what both go by ----

/// Whether the request names the task, which is a failed task of the story.
pub open spec fn is_about(
    req: Request,
    log: Seq<(Action, Event)>,
    task: WorkItem,
    story: WorkItem,
) -> bool {
    &&& is_failed_task(req, log, task)
    &&& had(
        log,
        Action::GetItem { item: task.parent_id->0 },
        Event::MaybeItem(Ok(Some(story))),
    )
}

pub open spec fn is_failed_task(req: Request, log: Seq<(Action, Event)>, task: WorkItem) -> bool {
    &&& exists|text: String|
        req.params@.text_field("task_id"@) == Some(text@) && #[trigger] had(
            log,
            Action::FindItemByWaveId { text },
            Event::MaybeItem(Ok(Some(task))),
        )
    &&& task.item_type == ItemType::Task
    &&& task.status == WorkItemStatus::Failed
    &&& task.parent_id is Some
}

/// Whether the status of the item was changed.
pub open spec fn was_set(
    log: Seq<(Action, Event)>,
    item: crate::ident::Uuid,
    status: WorkItemStatus,
) -> bool {
    had(log, Action::UpdateItemStatus { item, status }, Event::Done(Ok(())))
}

/// Whether the tasks of the story were listed so.
pub open spec fn were_listed(
    log: Seq<(Action, Event)>,
    story: WorkItem,
    tasks: Seq<WorkItem>,
) -> bool {
    exists|v: Vec<WorkItem>|
        v@ == tasks && #[trigger] had(
            log,
            Action::ListChildren { parent: story.id },
            Event::WorkItems(Ok(v)),
        )
}

/// Whether every task among the items is done or cancelled.
pub open spec fn nothing_is_left(items: Seq<WorkItem>) -> bool {
    forall|t: WorkItem| #[trigger]
        items.contains(t) && t.item_type == ItemType::Task ==> t.status == WorkItemStatus::Done
            || t.status == WorkItemStatus::Cancelled
}

pub proof fn finished_is_nothing_left(items: Seq<WorkItem>)
    ensures
        crate::tasks::all_finished(items) <==> nothing_is_left(items),
{
    if crate::tasks::all_finished(items) {
        assert forall|t: WorkItem| #[trigger]
            items.contains(t) && t.item_type == ItemType::Task implies t.status
            == WorkItemStatus::Done || t.status == WorkItemStatus::Cancelled by {
            let i = choose|i: int| 0 <= i < items.len() && items[i] == t;
            assert(items[i].item_type == ItemType::Task);
        }
    }
    if nothing_is_left(items) {
        assert forall|i: int|
            0 <= i < items.len() && (#[trigger] items[i]).item_type == ItemType::Task implies (
        items[i].status == WorkItemStatus::Done || items[i].status
            == WorkItemStatus::Cancelled) by {
            assert(items.contains(items[i]));
        }
    }
}

/// Whether `v` verifies the task, and `status` spares it that: one that waits is cancelled, and
/// one that failed counts as done.
pub open spec fn is_spared(
    tasks: Seq<WorkItem>,
    task: WorkItem,
    v: WorkItem,
    status: WorkItemStatus,
) -> bool {
    &&& tasks.contains(v)
    &&& v.item_type == ItemType::Task
    &&& v.kind == Some(TaskKind::Verify)
    &&& v.parent_id == task.parent_id
    &&& v.sort_order == task.sort_order + 1
    &&& (v.status == WorkItemStatus::Pending && status == WorkItemStatus::Cancelled) || (v.status
        == WorkItemStatus::Failed && status == WorkItemStatus::Done)
}

/// Whether there is no task that is to be spared verifying.
pub open spec fn none_is_spared(tasks: Seq<WorkItem>, task: WorkItem) -> bool {
    ||| exists|v: WorkItem| #[trigger]
        tasks.contains(v) && v.item_type == ItemType::Task && v.kind == Some(TaskKind::Verify)
            && v.parent_id == task.parent_id && v.sort_order == task.sort_order + 1 && v.status
            != WorkItemStatus::Pending && v.status != WorkItemStatus::Failed
    ||| forall|v: WorkItem| #[trigger]
        tasks.contains(v) ==> !(v.item_type == ItemType::Task && v.kind == Some(TaskKind::Verify)
            && v.parent_id == task.parent_id && v.sort_order == task.sort_order + 1)
}

pub proof fn spared_is_verify_change(tasks: Seq<WorkItem>, task: WorkItem)
    ensures
        match crate::tasks::verify_change(tasks, task) {
            Some((v, status)) => is_spared(tasks, task, v, status),
            None => none_is_spared(tasks, task),
        },
{
    let wanted = |t: WorkItem|
        t.item_type == ItemType::Task && t.kind == Some(TaskKind::Verify) && t.parent_id
            == task.parent_id && t.sort_order == task.sort_order + 1;
    crate::seqs::first_is_wanted(tasks, wanted);
    crate::seqs::law_the_first_is_first(tasks, wanted);
}

// ---- exec.skip ----

/// Whether the task is the next one of the story, as the listing of its tasks gives it.
pub open spec fn comes_next(
    log: Seq<(Action, Event)>,
    story: WorkItem,
    next: Option<WorkItem>,
) -> bool {
    exists|tasks: Vec<WorkItem>| #[trigger]
        had(
            log,
            Action::NextPendingTask { story: story.id, tasks },
            Event::NextTask(next),
        ) && were_listed(log, story, tasks@)
}

/// What is told of the task that would have verified the skipped one: that it was spared.
pub open spec fn tells_of_spared(
    log: Seq<(Action, Event)>,
    task: WorkItem,
    story: WorkItem,
    verify: Option<Seq<char>>,
) -> bool {
    match verify {
        Some(name) => task.kind == Some(TaskKind::Impl) && exists|
            tasks: Seq<WorkItem>,
            v: WorkItem,
            status: WorkItemStatus,
        |
            #[trigger] is_spared(tasks, task, v, status) && were_listed(log, story, tasks)
                && was_set(log, v.id, status) && v.short_id@ == name,
        None => task.kind == Some(TaskKind::Impl) ==> exists|tasks: Seq<WorkItem>|
            #[trigger] none_is_spared(tasks, task) && were_listed(log, story, tasks),
    }
}

pub open spec fn name_of(verify: Option<String>) -> Option<Seq<char>> {
    match verify {
        Some(v) => Some(v@),
        None => None,
    }
}

spec fn skip_holds(req: Request, log: Seq<(Action, Event)>, s: TaskSkip, a: Action) -> bool {
    &&& s.job.id == req.id
    &&& req.params@.text_field("task_id"@) == Some(s.job.task_id@)
    &&& match s.at {
        SkipStep::Find => a == Action::FindItemByWaveId { text: s.job.task_id },
        SkipStep::Story { task } => is_failed_task(req, log, task) && a == Action::GetItem {
            item: task.parent_id->0,
        },
        SkipStep::MarkDone { task, story } => is_about(req, log, task, story) && a
            == Action::UpdateItemStatus { item: task.id, status: WorkItemStatus::Done },
        SkipStep::Siblings { task, story } => {
            &&& is_about(req, log, task, story)
            &&& was_set(log, task.id, WorkItemStatus::Done)
            &&& task.kind == Some(TaskKind::Impl)
            &&& a == Action::ListChildren { parent: story.id }
        },
        SkipStep::MarkVerify { task, story, verify } => {
            &&& is_about(req, log, task, story)
            &&& was_set(log, task.id, WorkItemStatus::Done)
            &&& task.kind == Some(TaskKind::Impl)
            &&& exists|tasks: Seq<WorkItem>, v: WorkItem, status: WorkItemStatus|
                #[trigger] is_spared(tasks, task, v, status) && were_listed(log, story, tasks)
                    && v.short_id == verify && a == (Action::UpdateItemStatus {
                    item: v.id,
                    status,
                })
        },
        SkipStep::Tasks { task, story, verify } => {
            &&& is_about(req, log, task, story)
            &&& was_set(log, task.id, WorkItemStatus::Done)
            &&& tells_of_spared(log, task, story, name_of(verify))
            &&& a == Action::ListChildren { parent: story.id }
        },
        SkipStep::NextTask { task, story, verify, tasks } => {
            &&& is_about(req, log, task, story)
            &&& was_set(log, task.id, WorkItemStatus::Done)
            &&& tells_of_spared(log, task, story, name_of(verify))
            &&& just(log, Action::ListChildren { parent: story.id }, Event::WorkItems(Ok(tasks)))
            &&& a matches Action::NextPendingTask { story: of, tasks: asked }
            &&& of == story.id
            &&& asked@ == tasks@
        },
        SkipStep::MarkNext { task, story, verify, next } => {
            &&& is_about(req, log, task, story)
            &&& was_set(log, task.id, WorkItemStatus::Done)
            &&& tells_of_spared(log, task, story, name_of(verify))
            &&& comes_next(log, story, Some(next))
            &&& a == Action::UpdateItemStatus { item: next.id, status: WorkItemStatus::InProgress }
        },
        SkipStep::MarkStory { task, story, verify, next } => {
            &&& is_about(req, log, task, story)
            &&& was_set(log, task.id, WorkItemStatus::Done)
            &&& tells_of_spared(log, task, story, name_of(verify))
            &&& comes_next(log, story, Some(next))
            &&& was_set(log, next.id, WorkItemStatus::InProgress)
            &&& story.status == WorkItemStatus::Failed
            &&& a == Action::UpdateItemStatus { item: story.id, status: WorkItemStatus::InProgress }
        },
        SkipStep::Launch { launching, verify } => {
            &&& skip_launches(req, log, launching.launch, Some(name_of(verify)))
            &&& launch_holds(log, launching, a)
        },
        SkipStep::Revert { .. } => exists|launch: Launch|
            #[trigger] skip_launches(req, log, launch, None) && a == (Action::UpdateItemStatus {
                item: launch.task.id,
                status: WorkItemStatus::Pending,
            }),
        SkipStep::Finish { verify } => exists|task: WorkItem, story: WorkItem|
            #[trigger] is_about(req, log, task, story) && was_set(
                log,
                task.id,
                WorkItemStatus::Done,
            ) && tells_of_spared(log, task, story, name_of(verify)) && completes(log, story) && a
                == (Action::UpdateItemStatus { item: story.id, status: WorkItemStatus::Done }),
    }
}

/// Whether nothing comes next in the story, and nothing of it is left.
pub open spec fn completes(log: Seq<(Action, Event)>, story: WorkItem) -> bool {
    exists|tasks: Vec<WorkItem>| #[trigger]
        had(log, Action::NextPendingTask { story: story.id, tasks }, Event::NextTask(None))
            && were_listed(log, story, tasks@) && nothing_is_left(tasks@)
}

/// Whether the agent is started on the task that comes next, in the worktree of the story, once
/// that task is in progress. `verify` is left open where nothing is told of it.
pub open spec fn skip_launches(
    req: Request,
    log: Seq<(Action, Event)>,
    launch: Launch,
    verify: Option<Option<Seq<char>>>,
) -> bool {
    exists|task: WorkItem, story: WorkItem| #[trigger]
        is_about(req, log, task, story) && was_set(log, task.id, WorkItemStatus::Done) && (verify
            is Some ==> tells_of_spared(log, task, story, verify->0)) && comes_next(
            log,
            story,
            Some(launch.task),
        ) && was_set(log, launch.task.id, WorkItemStatus::InProgress) && (story.status
            == WorkItemStatus::Failed ==> was_set(log, story.id, WorkItemStatus::InProgress))
            && launch.session == task.decomposition_session_id && launch.story == story.id
            && launch.worktree == story.worktree_path
}

pub proof fn facts_stay(req: Request, log: Seq<(Action, Event)>)
    requires
        log.len() > 0,
    ensures
        forall|t: WorkItem| #[trigger]
            is_failed_task(req, log.drop_last(), t) ==> is_failed_task(req, log, t),
        forall|t: WorkItem, s: WorkItem| #[trigger]
            is_about(req, log.drop_last(), t, s) ==> is_about(req, log, t, s),
        forall|s: WorkItem, v: Seq<WorkItem>| #[trigger]
            were_listed(log.drop_last(), s, v) ==> were_listed(log, s, v),
        forall|i: crate::ident::Uuid, s: WorkItemStatus| #[trigger]
            was_set(log.drop_last(), i, s) ==> was_set(log, i, s),
        forall|s: WorkItem, t: Option<WorkItem>| #[trigger]
            comes_next(log.drop_last(), s, t) ==> comes_next(log, s, t),
        forall|s: WorkItem| #[trigger] completes(log.drop_last(), s) ==> completes(log, s),
        forall|t: WorkItem, s: WorkItem, v: Option<Seq<char>>| #[trigger]
            tells_of_spared(log.drop_last(), t, s, v) ==> tells_of_spared(log, t, s, v),
        forall|l: Launch, v: Option<Option<Seq<char>>>| #[trigger]
            skip_launches(req, log.drop_last(), l, v) ==> skip_launches(req, log, l, v),
{
    crate::histories::had_more(log);
    let init = log.drop_last();
    assert forall|s: WorkItem, v: Seq<WorkItem>| #[trigger]
        were_listed(init, s, v) implies were_listed(log, s, v) by {}
    assert forall|t: WorkItem, s: WorkItem, v: Option<Seq<char>>| #[trigger]
        tells_of_spared(init, t, s, v) implies tells_of_spared(log, t, s, v) by {}
    assert forall|l: Launch, v: Option<Option<Seq<char>>>| #[trigger]
        skip_launches(req, init, l, v) implies skip_launches(req, log, l, v) by {
        let (task, story) = choose|task: WorkItem, story: WorkItem| #[trigger]
            is_about(req, init, task, story) && was_set(init, task.id, WorkItemStatus::Done) && (v
                is Some ==> tells_of_spared(init, task, story, v->0)) && comes_next(
                init,
                story,
                Some(l.task),
            ) && was_set(init, l.task.id, WorkItemStatus::InProgress) && (story.status
                == WorkItemStatus::Failed ==> was_set(init, story.id, WorkItemStatus::InProgress))
                && l.session == task.decomposition_session_id && l.story == story.id && l.worktree
                == story.worktree_path;
        assert(is_about(req, log, task, story));
    }
}

proof fn skip_keeps(req: Request, log: Seq<(Action, Event)>, s: TaskSkip, a: Action)
    requires
        reaches(req, log, Next::Act(s, a)),
    ensures
        skip_holds(req, log, s, a),
    decreases log.len(),
{
    if log.len() > 0 {
        let (b, ev) = log.last();
        let before = crate::histories::before_last::<TaskSkip>(req, log, Next::Act(s, a));
        skip_keeps(req, log.drop_last(), before, b);
        crate::histories::had_more(log);
        facts_stay(req, log);
        skip_step(req, log, before, Next::Act(s, a));
    }
}

/// One step of a skip.
proof fn skip_step(req: Request, log: Seq<(Action, Event)>, before: TaskSkip, n: Next<TaskSkip>)
    requires
        log.len() > 0,
        skip_holds(req, log.drop_last(), before, log.last().0),
        before.follows(log.last().1, n),
    ensures
        n matches Next::Act(s, a) ==> skip_holds(req, log, s, a),
{
    let (b, ev) = log.last();
    crate::histories::had_more(log);
    facts_stay(req, log);
    match (before.at, ev) {
        (SkipStep::Find, Event::MaybeItem(Ok(Some(task)))) => {
            assert(had(log, b, ev));
        },
        (SkipStep::Siblings { task, story }, Event::WorkItems(Ok(v))) => {
            spared_is_verify_change(v@, task);
            assert(had(log, b, ev));
            assert(were_listed(log, story, v@));
            match crate::tasks::verify_change(v@, task) {
                Some((w, status)) => {
                    assert(is_spared(v@, task, w, status));
                },
                None => {
                    assert(none_is_spared(v@, task));
                },
            }
        },
        (SkipStep::MarkVerify { task, story, verify }, Event::Done(Ok(_))) => {
            let (tasks, v, status) = choose|
                tasks: Seq<WorkItem>,
                v: WorkItem,
                status: WorkItemStatus,
            |
                #[trigger] is_spared(tasks, task, v, status) && were_listed(
                    log.drop_last(),
                    story,
                    tasks,
                ) && v.short_id == verify && b == (Action::UpdateItemStatus {
                    item: v.id,
                    status,
                });
            assert(is_spared(tasks, task, v, status) && were_listed(log, story, tasks) && was_set(
                log,
                v.id,
                status,
            ));
        },
        (SkipStep::NextTask { task, story, verify, tasks }, Event::NextTask(next)) => {
            let asked = b->NextPendingTask_tasks;
            finished_is_nothing_left(tasks@);
            assert(had(
                log.drop_last(),
                Action::ListChildren { parent: story.id },
                Event::WorkItems(Ok(tasks)),
            )) by {
                crate::histories::had_more(log.drop_last());
            }
            assert(were_listed(log, story, asked@));
            assert(had(
                log,
                Action::NextPendingTask { story: story.id, tasks: asked },
                Event::NextTask(next),
            ));
            assert(comes_next(log, story, next));
            if next is None && crate::tasks::all_finished(tasks@) {
                assert(completes(log, story));
                assert(is_about(req, log, task, story));
            }
        },
        (SkipStep::MarkNext { task, story, verify, next }, Event::Done(Ok(_))) => {
            assert(was_set(log, next.id, WorkItemStatus::InProgress));
            assert(is_about(req, log, task, story));
        },
        (SkipStep::MarkStory { task, story, verify, next }, Event::Done(Ok(_))) => {
            assert(was_set(log, story.id, WorkItemStatus::InProgress));
            assert(is_about(req, log, task, story));
        },
        (SkipStep::Launch { launching, verify }, _) => {
            let m = choose|m: LaunchNext| #[trigger]
                launching.follows(ev, m) && TaskSkip::carries(
                    before.job,
                    launching.launch.task,
                    verify,
                    m,
                    n,
                );
            crate::launch_laws::law_an_agent_is_set_on_its_task(log, launching, m);
            assert(skip_launches(req, log, launching.launch, Some(name_of(verify))));
            assert(skip_launches(req, log, launching.launch, None));
        },
        _ => {},
    }
}

/// Whether a skip may change the status of the item so: the skipped task counts as done; the task
/// that would have verified it is spared that; the task that comes next is taken up, and its story
/// with it, where that had failed; where nothing comes next and nothing is left the story is
/// done; and a task on which no agent could be started waits again.
pub open spec fn skip_may_set(
    req: Request,
    log: Seq<(Action, Event)>,
    task: WorkItem,
    story: WorkItem,
    item: crate::ident::Uuid,
    status: WorkItemStatus,
) -> bool {
    ||| item == task.id && status == WorkItemStatus::Done && just(
        log,
        Action::GetItem { item: task.parent_id->0 },
        Event::MaybeItem(Ok(Some(story))),
    )
    ||| exists|tasks: Vec<WorkItem>, v: WorkItem|
        just(log, Action::ListChildren { parent: story.id }, Event::WorkItems(Ok(tasks)))
            && task.kind == Some(TaskKind::Impl) && #[trigger] is_spared(tasks@, task, v, status)
            && item == v.id
    ||| exists|tasks: Vec<WorkItem>, next: WorkItem|
        #[trigger] just(
            log,
            Action::NextPendingTask { story: story.id, tasks },
            Event::NextTask(Some(next)),
        ) && item == next.id && status == WorkItemStatus::InProgress
    ||| exists|tasks: Vec<WorkItem>|
        #[trigger] just(
            log,
            Action::NextPendingTask { story: story.id, tasks },
            Event::NextTask(None),
        ) && were_listed(log, story, tasks@) && nothing_is_left(tasks@) && item == story.id
            && status == WorkItemStatus::Done
    ||| exists|next: WorkItem|
        #[trigger] comes_next(log, story, Some(next)) && just(
            log,
            Action::UpdateItemStatus { item: next.id, status: WorkItemStatus::InProgress },
            Event::Done(Ok(())),
        ) && story.status == WorkItemStatus::Failed && item == story.id && status
            == WorkItemStatus::InProgress
    ||| exists|next: WorkItem|
        #[trigger] comes_next(log, story, Some(next)) && item == next.id && status
            == WorkItemStatus::Pending && log.len() > 0 && log.last().0 is SpawnAgent && (
        log.last().1 matches Event::Pid(Err(_)))
}

/// What a skip does to the world: it changes statuses as it may, it asks for the next task only
/// once the skipped one counts as done, among the tasks as they then are, and it starts an agent
/// only on the task that comes next. It resets no worktree and ends no agent.
pub proof fn law_what_a_skip_does(
    req: Request,
    log: Seq<(Action, Event)>,
    s: TaskSkip,
    a: Action,
)
    requires
        reaches(req, log, Next::Act(s, a)),
    ensures
        a matches Action::UpdateItemStatus { item, status } ==> exists|
            task: WorkItem,
            story: WorkItem,
        | #[trigger]
            is_about(req, log, task, story) && skip_may_set(req, log, task, story, item, status),
        a matches Action::NextPendingTask { story: of, tasks } ==> exists|
            task: WorkItem,
            story: WorkItem,
        | #[trigger]
            is_about(req, log, task, story) && of == story.id && was_set(
                log,
                task.id,
                WorkItemStatus::Done,
            ) && log.last().0 == (Action::ListChildren { parent: story.id }) && (log.last().1
                matches Event::WorkItems(Ok(v)) && v@ == tasks@),
        a matches Action::SpawnAgent { config } ==> exists|launch: Launch| #[trigger]
            skip_launches(req, log, launch, None) && is_set_on(log, launch, config),
        !(a is GitReset || a is GitClean || a is Terminate || a is FinishRun || a is ClearWorktree
            || a is RemoveWorktree || a is DeleteItems || a is InsertWorkItem || a
            is UpdateProject),
{
    skip_keeps(req, log, s, a);
    if log.len() > 0 {
        let (b, ev) = log.last();
        let n = Next::Act(s, a);
        let before = crate::histories::before_last::<TaskSkip>(req, log, n);
        skip_keeps(req, log.drop_last(), before, b);
        crate::histories::had_more(log);
        facts_stay(req, log);
        match (before.at, ev) {
            (SkipStep::Siblings { task, story }, Event::WorkItems(Ok(v))) => {
                spared_is_verify_change(v@, task);
                assert(is_about(req, log, task, story));
            },
            (SkipStep::NextTask { task, story, verify, tasks }, Event::NextTask(next)) => {
                skip_step(req, log, before, n);
                finished_is_nothing_left(tasks@);
                let asked = b->NextPendingTask_tasks;
                assert(just(
                    log,
                    Action::NextPendingTask { story: story.id, tasks: asked },
                    Event::NextTask(next),
                ));
                assert(had(
                    log.drop_last(),
                    Action::ListChildren { parent: story.id },
                    Event::WorkItems(Ok(tasks)),
                )) by {
                    crate::histories::had_more(log.drop_last());
                }
                assert(were_listed(log, story, asked@));
                assert(is_about(req, log, task, story));
            },
            (SkipStep::MarkNext { task, story, verify, next }, Event::Done(_)) => {
                assert(is_about(req, log, task, story) && comes_next(log, story, Some(next)));
            },
            (SkipStep::Launch { launching, verify }, _) => {
                let m = choose|m: LaunchNext| #[trigger]
                    launching.follows(ev, m) && TaskSkip::carries(
                        before.job,
                        launching.launch.task,
                        verify,
                        m,
                        n,
                    );
                crate::launch_laws::law_an_agent_is_set_on_its_task(log, launching, m);
                let launch = launching.launch;
                assert(skip_launches(req, log, launch, None));
                let (task, story) = choose|task: WorkItem, story: WorkItem| #[trigger]
                    is_about(req, log, task, story) && was_set(
                        log,
                        task.id,
                        WorkItemStatus::Done,
                    ) && comes_next(log, story, Some(launch.task));
                assert(is_about(req, log, task, story));
            },
            (SkipStep::Story { task }, Event::MaybeItem(Ok(Some(story)))) => {
                assert(is_about(req, log, task, story));
            },
            (SkipStep::Tasks { task, story, .. }, _) => {
                assert(is_about(req, log, task, story));
            },
            _ => {},
        }
    }
}

proof fn skip_answer_fields(
    task_id: Seq<char>,
    next: Option<Seq<char>>,
    completed: bool,
    verify: Option<String>,
)
    ensures
        ({
            let data = crate::tasks::skipped(task_id, next, completed, verify);
            &&& data.field("task_id"@) == Some(JsonV::Str(task_id))
            &&& data.field("next_task_id"@) == match next {
                Some(t) => Some(JsonV::Str(t)),
                None => None,
            }
            &&& data.field("story_completed"@) == if completed {
                Some(JsonV::Bool(true))
            } else {
                None
            }
            &&& told_verify(data) == name_of(verify)
        }),
{
    broadcast use crate::histories::field_of_with;

    reveal_strlit("task_id");
    assert("task_id"@.len() == 7);
    reveal_strlit("next_task_id");
    assert("next_task_id"@.len() == 12);
    reveal_strlit("story_completed");
    assert("story_completed"@.len() == 15);
    reveal_strlit("skipped_verify");
    assert("skipped_verify"@.len() == 14);
}

/// What a skip comes to. It is refused where the item is no failed task of a story. A task that
/// comes next is taken up at once, and an agent is started on it where the story has a worktree.
/// Where none comes next, the story is done if nothing of it is left, and otherwise stays as it
/// is. The answer names the task, the one that was taken up, and the one that was spared, and it
/// says that the story is completed exactly if it is.
pub proof fn law_what_a_skip_comes_to(req: Request, log: Seq<(Action, Event)>, n: Next<TaskSkip>)
    requires
        reaches(req, log, n),
    ensures
        log.len() > 0 ==> (log.last().0 is FindItemByWaveId ==> (log.last().1
            matches Event::MaybeItem(Ok(Some(t))) ==> (n is Act <==> t.status
            == WorkItemStatus::Failed && t.item_type == ItemType::Task && t.parent_id is Some))),
        log.len() > 0 ==> (log.last().1 matches Event::NextTask(Some(next)) ==> (n matches Next::Act(
            _,
            a,
        ) && a == (Action::UpdateItemStatus {
            item: next.id,
            status: WorkItemStatus::InProgress,
        }))),
        log.len() > 0 ==> (log.last() matches (
            Action::NextPendingTask { story, tasks },
            Event::NextTask(None),
        ) ==> if nothing_is_left(tasks@) {
            n matches Next::Act(_, a) && a == (Action::UpdateItemStatus {
                item: story,
                status: WorkItemStatus::Done,
            })
        } else {
            n matches Next::Reply(r) && r.status == ResponseStatus::Success
        }),
        log.len() > 0 && log.last().0 is SpawnAgent ==> (log.last().1 matches Event::Pid(Err(_))
            ==> (n matches Next::Act(_, a) && (a matches Action::UpdateItemStatus { status, .. }
            && status == WorkItemStatus::Pending))),
        n matches Next::Reply(r) ==> r.id == req.id && (r.status == ResponseStatus::Success
            ==> is_skip_answer(req, log, r.data@)),
        !(n is End),
{
    if log.len() > 0 {
        let (b, ev) = log.last();
        let before = crate::histories::before_last::<TaskSkip>(req, log, n);
        skip_keeps(req, log.drop_last(), before, b);
        crate::histories::had_more(log);
        facts_stay(req, log);
        match (before.at, ev) {
            (SkipStep::NextTask { task, story, verify, tasks }, Event::NextTask(next)) => {
                finished_is_nothing_left(tasks@);
                let asked = b->NextPendingTask_tasks;
                assert(had(
                    log.drop_last(),
                    Action::ListChildren { parent: story.id },
                    Event::WorkItems(Ok(tasks)),
                )) by {
                    crate::histories::had_more(log.drop_last());
                }
                assert(were_listed(log, story, asked@));
                assert(had(
                    log,
                    Action::NextPendingTask { story: story.id, tasks: asked },
                    Event::NextTask(next),
                ));
                assert(comes_next(log, story, next));
                assert(is_about(req, log, task, story));
                skip_answer_fields(before.job.task_id@, None, false, verify);
            },
            (SkipStep::Launch { launching, verify }, _) => {
                let m = choose|m: LaunchNext| #[trigger]
                    launching.follows(ev, m) && TaskSkip::carries(
                        before.job,
                        launching.launch.task,
                        verify,
                        m,
                        n,
                    );
                crate::launch_laws::law_an_agent_is_set_on_its_task(log, launching, m);
                assert(skip_launches(req, log, launching.launch, Some(name_of(verify))));
                skip_answer_fields(
                    before.job.task_id@,
                    Some(launching.launch.task.short_id@),
                    false,
                    verify,
                );
            },
            (SkipStep::Finish { verify }, Event::Done(_)) => {
                skip_answer_fields(before.job.task_id@, None, true, verify);
                let (task, story) = choose|task: WorkItem, story: WorkItem|
                    #[trigger] is_about(req, log.drop_last(), task, story) && was_set(
                        log.drop_last(),
                        task.id,
                        WorkItemStatus::Done,
                    ) && tells_of_spared(log.drop_last(), task, story, name_of(verify))
                        && completes(log.drop_last(), story) && b == (Action::UpdateItemStatus {
                        item: story.id,
                        status: WorkItemStatus::Done,
                    });
                assert(is_about(req, log, task, story));
            },
            _ => {},
        }
    }
}

/// Whether the data tells what became of the skipped task and its story.
pub open spec fn is_skip_answer(req: Request, log: Seq<(Action, Event)>, data: JsonV) -> bool {
    &&& data.field("task_id"@) == Some(JsonV::Str(req.params@.text_field("task_id"@)->0))
    &&& match (data.field("next_task_id"@), data.field("story_completed"@)) {
        (Some(next), None) => exists|launch: Launch| #[trigger]
            skip_launches(req, log, launch, Some(told_verify(data))) && next == JsonV::Str(
                launch.task.short_id@,
            ) && (is_at_work(log, launch) || launch.worktree is None),
        (None, Some(done)) => done == JsonV::Bool(true) && exists|task: WorkItem, story: WorkItem|
            #[trigger] is_about(req, log, task, story) && was_set(
                log,
                task.id,
                WorkItemStatus::Done,
            ) && tells_of_spared(log, task, story, told_verify(data)) && completes(log, story)
                && just(
                log,
                Action::UpdateItemStatus { item: story.id, status: WorkItemStatus::Done },
                Event::Done(Ok(())),
            ),
        (None, None) => exists|task: WorkItem, story: WorkItem| #[trigger]
            is_about(req, log, task, story) && was_set(log, task.id, WorkItemStatus::Done)
                && tells_of_spared(log, task, story, told_verify(data)) && comes_next(
                log,
                story,
                None,
            ) && log.last().1 == Event::NextTask(None),
        _ => false,
    }
}

pub open spec fn told_verify(data: JsonV) -> Option<Seq<char>> {
    match data.field("skipped_verify"@) {
        Some(JsonV::Str(v)) => Some(v),
        _ => None,
    }
}

// ---- exec.retry ----

/// Whether `t` is the last implementation of the listing that is done and stands before the task.
pub open spec fn is_last_done_before(tasks: Seq<WorkItem>, task: WorkItem, t: WorkItem) -> bool {
    exists|i: int|
        0 <= i < tasks.len() && #[trigger] tasks[i] == t && is_done_before(t, task) && forall|
            k: int,
        |
            0 <= k < tasks.len() && is_done_before(#[trigger] tasks[k], task) ==> tasks[k].sort_order
                <= t.sort_order && (k > i ==> tasks[k].sort_order < t.sort_order)
}

pub open spec fn is_done_before(t: WorkItem, task: WorkItem) -> bool {
    t.item_type == ItemType::Task && t.kind == Some(TaskKind::Impl) && t.status
        == WorkItemStatus::Done && t.sort_order < task.sort_order
}

proof fn latest_is_last_done(tasks: Seq<WorkItem>, task: WorkItem)
    ensures
        match crate::tasks::latest(
            tasks.filter(
                |t: WorkItem|
                    t.item_type == ItemType::Task && t.kind == Some(TaskKind::Impl) && t.sort_order
                        < task.sort_order && t.status == WorkItemStatus::Done,
            ),
        ) {
            Some(t) => is_last_done_before(tasks, task, t),
            None => forall|t: WorkItem| #[trigger]
                tasks.contains(t) ==> !is_done_before(t, task),
        },
    decreases tasks.len(),
{
    let keep = |t: WorkItem|
        t.item_type == ItemType::Task && t.kind == Some(TaskKind::Impl) && t.sort_order
            < task.sort_order && t.status == WorkItemStatus::Done;
    reveal(Seq::filter);
    if tasks.len() > 0 {
        let init = tasks.drop_last();
        let last = tasks.last();
        latest_is_last_done(init, task);
        let before = init.filter(keep);
        assert(keep(last) ==> before.push(last).drop_last() =~= before);
        assert(keep(last) == is_done_before(last, task));
        match crate::tasks::latest(before) {
            Some(t) => {
                let i = choose|i: int|
                    0 <= i < init.len() && #[trigger] init[i] == t && is_done_before(t, task)
                        && forall|k: int|
                        0 <= k < init.len() && is_done_before(#[trigger] init[k], task)
                            ==> init[k].sort_order <= t.sort_order && (k > i ==> init[k].sort_order
                            < t.sort_order);
                let n = tasks.len() - 1;
                assert(tasks[i] == t);
                assert(tasks[n] == last);
                assert forall|k: int| 0 <= k < n implies tasks[k] == #[trigger] init[k] by {}
                if keep(last) && !(t.sort_order > last.sort_order) {
                    assert forall|k: int|
                        0 <= k < tasks.len() && is_done_before(
                            #[trigger] tasks[k],
                            task,
                        ) implies tasks[k].sort_order <= last.sort_order && (k > n
                        ==> tasks[k].sort_order < last.sort_order) by {
                        if k < n {
                            assert(init[k] == tasks[k]);
                        }
                    }
                    assert(is_last_done_before(tasks, task, last));
                } else {
                    assert forall|k: int|
                        0 <= k < tasks.len() && is_done_before(
                            #[trigger] tasks[k],
                            task,
                        ) implies tasks[k].sort_order <= t.sort_order && (k > i
                        ==> tasks[k].sort_order < t.sort_order) by {
                        if k < n {
                            assert(init[k] == tasks[k]);
                        }
                    }
                    assert(is_last_done_before(tasks, task, t));
                }
            },
            None => {
                let n = tasks.len() - 1;
                assert forall|k: int| 0 <= k < n implies !is_done_before(
                    #[trigger] tasks[k],
                    task,
                ) by {
                    assert(init.contains(init[k]));
                    assert(init[k] == tasks[k]);
                }
                if keep(last) {
                    assert(tasks[n] == last);
                    assert(is_last_done_before(tasks, task, last));
                } else {
                    assert forall|t: WorkItem| #[trigger] tasks.contains(t) implies !is_done_before(
                        t,
                        task,
                    ) by {
                        let k = choose|k: int| 0 <= k < tasks.len() && tasks[k] == t;
                        assert(tasks[k] == t);
                    }
                }
            },
        }
    }
}

/// Whether the tasks leave no commit to go back to: none before the task is done, or the last of
/// those has no commit.
pub open spec fn has_no_commit_before(tasks: Seq<WorkItem>, task: WorkItem) -> bool {
    ||| forall|t: WorkItem| #[trigger] tasks.contains(t) ==> !is_done_before(t, task)
    ||| exists|t: WorkItem| #[trigger]
        is_last_done_before(tasks, task, t) && t.commit_hash is None
}

/// Whether the line is the last of the text, without the white space around it.
pub open spec fn ends_with_line(text: Seq<char>, line: Seq<char>) -> bool {
    let t = crate::text::trimmed(text);
    t.len() > 0 && exists|from: int|
        0 <= from <= t.len() && (from == 0 || t[from - 1] == '\n') && !(
        #[trigger] t.skip(from)).contains('\n') && line == crate::text::trimmed(t.skip(from))
}

proof fn last_line_ends(text: Seq<char>)
    ensures
        crate::tasks::last_line(text) matches Some(line) ==> ends_with_line(text, line),
        crate::tasks::last_line(text) is None <==> crate::text::trimmed(text).len() == 0,
{
    let t = crate::text::trimmed(text);
    if t.len() > 0 {
        last_position_is_last(t, '\n');
        match crate::text::last_position(t, '\n') {
            Some(p) => {
                assert(t.skip(p + 1).len() >= 0);
            },
            None => {
                assert(t.skip(0) =~= t);
            },
        }
    }
}

proof fn last_position_is_last(s: Seq<char>, c: char)
    ensures
        match crate::text::last_position(s, c) {
            Some(p) => 0 <= p < s.len() && s[p] == c && !s.skip(p + 1).contains(c),
            None => !s.contains(c),
        },
    decreases s.len(),
{
    if s.len() > 0 && s.last() != c {
        let init = s.drop_last();
        last_position_is_last(init, c);
        match crate::text::last_position(init, c) {
            Some(p) => {
                let rest = s.skip(p + 1);
                let part = init.skip(p + 1);
                assert forall|i: int| 0 <= i < rest.len() implies #[trigger] rest[i] != c by {
                    if i < part.len() {
                        assert(part[i] == rest[i]);
                        assert(part.contains(part[i]));
                    }
                }
            },
            None => {
                assert forall|i: int| 0 <= i < s.len() implies s[i] != c by {
                    if i < init.len() {
                        assert(init.contains(init[i]));
                    }
                }
            },
        }
    }
}

/// Whether the worktree of the story is to be put back to the target: to the commit of the last
/// implementation that was done before the task, or, where there is none, to where the worktree
/// began.
pub open spec fn is_target(
    log: Seq<(Action, Event)>,
    task: WorkItem,
    story: WorkItem,
    target: Seq<char>,
) -> bool {
    exists|tasks: Seq<WorkItem>| #[trigger]
        were_listed(log, story, tasks) && {
            ||| exists|t: WorkItem| #[trigger]
                is_last_done_before(tasks, task, t) && (t.commit_hash matches Some(c) && c@
                    == target)
            ||| has_no_commit_before(tasks, task) && exists|out: crate::effects::GitOutput|
                #[trigger] had(
                    log,
                    Action::GitReflog { dir: story.worktree_path->0 },
                    Event::Git(Some(out)),
                ) && out.success && ends_with_line(out.stdout@, target)
        }
}

/// Whether the worktree was put back for the task.
pub open spec fn was_put_back(
    log: Seq<(Action, Event)>,
    task: WorkItem,
    story: WorkItem,
) -> bool {
    exists|target: String, out: crate::effects::CommandOutput| #[trigger]
        had(
            log,
            Action::GitReset { dir: story.worktree_path->0, target },
            Event::Command(Ok(out)),
        ) && out.success && is_target(log, task, story, target@)
}

/// Whether a retry must put the worktree back before it goes on.
pub open spec fn has_work(task: WorkItem, story: WorkItem) -> bool {
    task.kind == Some(TaskKind::Impl) && story.worktree_path is Some
}

spec fn is_ready(
    req: Request,
    log: Seq<(Action, Event)>,
    task: WorkItem,
    story: WorkItem,
) -> bool {
    &&& is_about(req, log, task, story)
    &&& has_work(task, story) ==> was_put_back(log, task, story) && was_cleaned(log, story)
}

/// Whether what is not part of the commit was removed from the worktree.
pub open spec fn was_cleaned(log: Seq<(Action, Event)>, story: WorkItem) -> bool {
    exists|ev: Event| #[trigger]
        had(log, Action::GitClean { dir: story.worktree_path->0 }, ev)
}

pub open spec fn was_counted(log: Seq<(Action, Event)>, task: WorkItem, count: u32) -> bool {
    had(log, Action::CountAgentRuns { task: task.id }, Event::Count(Ok(count)))
}

spec fn retry_launches(
    req: Request,
    log: Seq<(Action, Event)>,
    launch: Launch,
    count: u32,
) -> bool {
    exists|story: WorkItem| #[trigger]
        is_ready(req, log, launch.task, story) && was_counted(log, launch.task, count) && was_set(
            log,
            launch.task.id,
            WorkItemStatus::InProgress,
        ) && (story.status == WorkItemStatus::Failed ==> was_set(
            log,
            story.id,
            WorkItemStatus::InProgress,
        )) && launch.session == launch.task.decomposition_session_id && launch.story == story.id
            && launch.worktree == story.worktree_path && launch.mode == LaunchMode::Retry
}

spec fn retry_holds(req: Request, log: Seq<(Action, Event)>, s: TaskRetry, a: Action) -> bool {
    &&& s.job.id == req.id
    &&& req.params@.text_field("task_id"@) == Some(s.job.task_id@)
    &&& match s.at {
        RetryStep::Find => a == Action::FindItemByWaveId { text: s.job.task_id },
        RetryStep::Story { task } => is_failed_task(req, log, task) && a == Action::GetItem {
            item: task.parent_id->0,
        },
        RetryStep::Siblings { task, story, worktree } => {
            &&& is_about(req, log, task, story)
            &&& has_work(task, story)
            &&& story.worktree_path == Some(worktree)
            &&& a == Action::ListChildren { parent: story.id }
        },
        RetryStep::Reflog { task, story, worktree } => {
            &&& is_about(req, log, task, story)
            &&& has_work(task, story)
            &&& story.worktree_path == Some(worktree)
            &&& exists|tasks: Seq<WorkItem>| #[trigger]
                were_listed(log, story, tasks) && has_no_commit_before(tasks, task)
            &&& a == Action::GitReflog { dir: worktree }
        },
        RetryStep::Reset { task, story, worktree } => {
            &&& is_about(req, log, task, story)
            &&& has_work(task, story)
            &&& story.worktree_path == Some(worktree)
            &&& a matches Action::GitReset { dir, target }
            &&& dir == worktree
            &&& is_target(log, task, story, target@)
        },
        RetryStep::Clean { task, story } => {
            &&& is_about(req, log, task, story)
            &&& has_work(task, story)
            &&& was_put_back(log, task, story)
            &&& a == Action::GitClean { dir: story.worktree_path->0 }
        },
        RetryStep::Count { task, story } => is_ready(req, log, task, story) && a
            == Action::CountAgentRuns { task: task.id },
        RetryStep::MarkTask { task, story, count } => {
            &&& is_ready(req, log, task, story)
            &&& was_counted(log, task, count)
            &&& a == Action::UpdateItemStatus { item: task.id, status: WorkItemStatus::InProgress }
        },
        RetryStep::MarkStory { task, story, count } => {
            &&& is_ready(req, log, task, story)
            &&& was_counted(log, task, count)
            &&& was_set(log, task.id, WorkItemStatus::InProgress)
            &&& story.status == WorkItemStatus::Failed
            &&& a == Action::UpdateItemStatus { item: story.id, status: WorkItemStatus::InProgress }
        },
        RetryStep::Launch { launching, count } => {
            &&& retry_launches(req, log, launching.launch, count)
            &&& launch_holds(log, launching, a)
        },
        RetryStep::Revert { .. } => exists|launch: Launch, count: u32|
            #[trigger] retry_launches(req, log, launch, count) && a == (Action::UpdateItemStatus {
                item: launch.task.id,
                status: WorkItemStatus::Failed,
            }),
    }
}

proof fn retry_facts_stay(req: Request, log: Seq<(Action, Event)>)
    requires
        log.len() > 0,
    ensures
        forall|t: WorkItem, s: WorkItem, target: Seq<char>| #[trigger]
            is_target(log.drop_last(), t, s, target) ==> is_target(log, t, s, target),
        forall|t: WorkItem, s: WorkItem| #[trigger]
            was_put_back(log.drop_last(), t, s) ==> was_put_back(log, t, s),
        forall|s: WorkItem| #[trigger] was_cleaned(log.drop_last(), s) ==> was_cleaned(log, s),
        forall|t: WorkItem, s: WorkItem| #[trigger]
            is_ready(req, log.drop_last(), t, s) ==> is_ready(req, log, t, s),
        forall|t: WorkItem, c: u32| #[trigger]
            was_counted(log.drop_last(), t, c) ==> was_counted(log, t, c),
        forall|l: Launch, c: u32| #[trigger]
            retry_launches(req, log.drop_last(), l, c) ==> retry_launches(req, log, l, c),
{
    crate::histories::had_more(log);
    facts_stay(req, log);
    let init = log.drop_last();
    assert forall|t: WorkItem, s: WorkItem, target: Seq<char>| #[trigger]
        is_target(init, t, s, target) implies is_target(log, t, s, target) by {
        let tasks = choose|tasks: Seq<WorkItem>| #[trigger]
            were_listed(init, s, tasks) && {
                ||| exists|u: WorkItem| #[trigger]
                    is_last_done_before(tasks, t, u) && (u.commit_hash matches Some(c) && c@
                        == target)
                ||| has_no_commit_before(tasks, t) && exists|out: crate::effects::GitOutput|
                    #[trigger] had(
                        init,
                        Action::GitReflog { dir: s.worktree_path->0 },
                        Event::Git(Some(out)),
                    ) && out.success && ends_with_line(out.stdout@, target)
            };
        assert(were_listed(log, s, tasks));
    }
    assert forall|t: WorkItem, s: WorkItem| #[trigger]
        was_put_back(init, t, s) implies was_put_back(log, t, s) by {}
    assert forall|t: WorkItem, s: WorkItem| #[trigger]
        is_ready(req, init, t, s) implies is_ready(req, log, t, s) by {}
    assert forall|l: Launch, c: u32| #[trigger]
        retry_launches(req, init, l, c) implies retry_launches(req, log, l, c) by {
        let story = choose|story: WorkItem| #[trigger]
            is_ready(req, init, l.task, story) && was_counted(init, l.task, c) && was_set(
                init,
                l.task.id,
                WorkItemStatus::InProgress,
            ) && (story.status == WorkItemStatus::Failed ==> was_set(
                init,
                story.id,
                WorkItemStatus::InProgress,
            )) && l.session == l.task.decomposition_session_id && l.story == story.id
                && l.worktree == story.worktree_path && l.mode == LaunchMode::Retry;
        assert(is_ready(req, log, l.task, story));
    }
}

proof fn retry_keeps(req: Request, log: Seq<(Action, Event)>, s: TaskRetry, a: Action)
    requires
        reaches(req, log, Next::Act(s, a)),
    ensures
        retry_holds(req, log, s, a),
    decreases log.len(),
{
    if log.len() > 0 {
        let before = crate::histories::before_last::<TaskRetry>(req, log, Next::Act(s, a));
        retry_keeps(req, log.drop_last(), before, log.last().0);
        retry_step(req, log, before, Next::Act(s, a));
    }
}

proof fn retry_step(
    req: Request,
    log: Seq<(Action, Event)>,
    before: TaskRetry,
    n: Next<TaskRetry>,
)
    requires
        log.len() > 0,
        retry_holds(req, log.drop_last(), before, log.last().0),
        before.follows(log.last().1, n),
    ensures
        n matches Next::Act(s, a) ==> retry_holds(req, log, s, a),
{
    let (b, ev) = log.last();
    crate::histories::had_more(log);
    facts_stay(req, log);
    retry_facts_stay(req, log);
    match (before.at, ev) {
        (RetryStep::Siblings { task, story, worktree }, Event::WorkItems(Ok(v))) => {
            latest_is_last_done(v@, task);
            assert(had(log, b, ev));
            assert(were_listed(log, story, v@));
            match crate::tasks::latest(
                v@.filter(
                    |t: WorkItem|
                        t.item_type == ItemType::Task && t.kind == Some(TaskKind::Impl)
                            && t.sort_order < task.sort_order && t.status == WorkItemStatus::Done,
                ),
            ) {
                Some(t) => {
                    assert(is_last_done_before(v@, task, t));
                },
                None => {},
            }
        },
        (RetryStep::Reflog { task, story, worktree }, Event::Git(Some(out))) => {
            last_line_ends(out.stdout@);
            assert(had(log, Action::GitReflog { dir: story.worktree_path->0 }, ev));
            let tasks = choose|tasks: Seq<WorkItem>| #[trigger]
                were_listed(log.drop_last(), story, tasks) && has_no_commit_before(tasks, task);
            assert(were_listed(log, story, tasks));
        },
        (RetryStep::Reset { task, story, worktree }, Event::Command(Ok(out))) => {
            let target = b->GitReset_target;
            assert(had(
                log,
                Action::GitReset { dir: story.worktree_path->0, target },
                Event::Command(Ok(out)),
            ));
            assert(out.success ==> was_put_back(log, task, story));
        },
        (RetryStep::Story { task }, Event::MaybeItem(Ok(Some(story)))) => {
            assert(is_about(req, log, task, story));
            assert(!has_work(task, story) ==> is_ready(req, log, task, story));
        },
        (RetryStep::Clean { task, story }, Event::Done(_)) => {
            assert(had(log, Action::GitClean { dir: story.worktree_path->0 }, ev));
            assert(is_ready(req, log, task, story));
        },
        (RetryStep::MarkTask { task, story, count }, Event::Done(Ok(_))) => {
            assert(was_set(log, task.id, WorkItemStatus::InProgress));
            assert(is_ready(req, log, task, story));
        },
        (RetryStep::MarkStory { task, story, count }, Event::Done(Ok(_))) => {
            assert(was_set(log, story.id, WorkItemStatus::InProgress));
            assert(is_ready(req, log, task, story));
        },
        (RetryStep::Launch { launching, count }, _) => {
            let m = choose|m: LaunchNext| #[trigger]
                launching.follows(ev, m) && TaskRetry::carries(
                    before.job,
                    launching.launch.task,
                    count,
                    m,
                    n,
                );
            crate::launch_laws::law_an_agent_is_set_on_its_task(log, launching, m);
            assert(retry_launches(req, log, launching.launch, count));
        },
        _ => {},
    }
}

/// Whether a retry goes on with the task of the request, with its worktree put back where it has
/// one.
pub open spec fn is_retried(
    req: Request,
    log: Seq<(Action, Event)>,
    task: WorkItem,
    story: WorkItem,
) -> bool {
    &&& is_about(req, log, task, story)
    &&& has_work(task, story) ==> was_put_back(log, task, story) && was_cleaned(log, story)
}

/// What a retry does to the world. The worktree of the story is put back for an implementation,
/// and that to the commit of the last implementation that was done before it, or else to where
/// the worktree began. Only then the task is taken up again, and its story with it, where that
/// had failed, and an agent is started on it. A task on which no agent could be started has
/// failed again. Nothing else changes.
pub proof fn law_what_a_retry_does(
    req: Request,
    log: Seq<(Action, Event)>,
    s: TaskRetry,
    a: Action,
)
    requires
        reaches(req, log, Next::Act(s, a)),
    ensures
        a matches Action::GitReset { dir, target } ==> exists|task: WorkItem, story: WorkItem|
            #[trigger] is_about(req, log, task, story) && has_work(task, story)
                && story.worktree_path == Some(dir) && is_target(log, task, story, target@),
        a matches Action::GitClean { dir } ==> exists|task: WorkItem, story: WorkItem|
            #[trigger] is_about(req, log, task, story) && has_work(task, story)
                && story.worktree_path == Some(dir) && was_put_back(log, task, story),
        a matches Action::UpdateItemStatus { item, status } ==> exists|
            task: WorkItem,
            story: WorkItem,
        | #[trigger]
            is_retried(req, log, task, story) && {
                ||| item == task.id && status == WorkItemStatus::InProgress && log.last().0
                    == (Action::CountAgentRuns { task: task.id })
                ||| item == story.id && status == WorkItemStatus::InProgress && story.status
                    == WorkItemStatus::Failed && was_set(
                    log,
                    task.id,
                    WorkItemStatus::InProgress,
                )
                ||| item == task.id && status == WorkItemStatus::Failed && log.last().0
                    is SpawnAgent && (log.last().1 matches Event::Pid(Err(_)))
            },
        a matches Action::SpawnAgent { config } ==> exists|story: WorkItem, launch: Launch|
            #[trigger] is_retried(req, log, launch.task, story) && was_set(
                log,
                launch.task.id,
                WorkItemStatus::InProgress,
            ) && launch.worktree == story.worktree_path && launch.story == story.id && #[trigger]
                is_set_on(log, launch, config),
        !(a is NextPendingTask || a is Terminate || a is FinishRun || a is ClearWorktree || a
            is RemoveWorktree || a is DeleteItems || a is InsertWorkItem || a is UpdateProject),
{
    retry_keeps(req, log, s, a);
    if log.len() > 0 {
        let (b, ev) = log.last();
        let n = Next::Act(s, a);
        let before = crate::histories::before_last::<TaskRetry>(req, log, n);
        retry_keeps(req, log.drop_last(), before, b);
        crate::histories::had_more(log);
        facts_stay(req, log);
        retry_facts_stay(req, log);
        match (before.at, ev) {
            (RetryStep::Siblings { task, story, .. }, _) => {
                assert(is_about(req, log, task, story));
            },
            (RetryStep::Reflog { task, story, .. }, _) => {
                assert(is_about(req, log, task, story));
            },
            (RetryStep::Reset { task, story, .. }, _) => {
                assert(is_about(req, log, task, story));
            },
            (RetryStep::Count { task, story }, _) => {
                assert(is_ready(req, log, task, story));
                assert(is_retried(req, log, task, story));
            },
            (RetryStep::MarkTask { task, story, count }, Event::Done(Ok(_))) => {
                assert(is_ready(req, log, task, story));
                assert(is_retried(req, log, task, story));
            },
            (RetryStep::Launch { launching, count }, _) => {
                let m = choose|m: LaunchNext| #[trigger]
                    launching.follows(ev, m) && TaskRetry::carries(
                        before.job,
                        launching.launch.task,
                        count,
                        m,
                        n,
                    );
                crate::launch_laws::law_an_agent_is_set_on_its_task(log, launching, m);
                let launch = launching.launch;
                assert(retry_launches(req, log, launch, count));
                let story = choose|story: WorkItem| #[trigger]
                    is_ready(req, log, launch.task, story) && was_counted(log, launch.task, count)
                        && was_set(log, launch.task.id, WorkItemStatus::InProgress) && (
                    story.status == WorkItemStatus::Failed ==> was_set(
                        log,
                        story.id,
                        WorkItemStatus::InProgress,
                    )) && launch.session == launch.task.decomposition_session_id && launch.story
                        == story.id && launch.worktree == story.worktree_path && launch.mode
                        == LaunchMode::Retry;
                assert(is_retried(req, log, launch.task, story));
            },
            _ => {},
        }
    }
}

/// What a retry comes to: it is refused where the item is no failed task of a story, it is
/// answered well only with an agent at work on the task, and the answer names the task and counts
/// the attempts, with a warning from the third repetition on.
pub proof fn law_what_a_retry_comes_to(
    req: Request,
    log: Seq<(Action, Event)>,
    n: Next<TaskRetry>,
)
    requires
        reaches(req, log, n),
    ensures
        log.len() > 0 ==> (log.last().0 is FindItemByWaveId ==> (log.last().1
            matches Event::MaybeItem(Ok(Some(t))) ==> (n is Act <==> t.status
            == WorkItemStatus::Failed && t.item_type == ItemType::Task && t.parent_id is Some))),
        log.len() > 0 && log.last().0 is SpawnAgent ==> (log.last().1 matches Event::Pid(Err(_))
            ==> (n matches Next::Act(_, a) && (a matches Action::UpdateItemStatus { status, .. }
            && status == WorkItemStatus::Failed))),
        log.len() > 0 && log.last().0 is GitReset && !(log.last().1 matches Event::Command(Ok(o))
            && o.success) ==> (n matches Next::Reply(r) && r.status == ResponseStatus::Error),
        n matches Next::Reply(r) ==> r.id == req.id && (r.status == ResponseStatus::Success
            ==> exists|story: WorkItem, launch: Launch, count: u32|
            #[trigger] is_retried(req, log, launch.task, story) && launch.story == story.id
                && launch.worktree == story.worktree_path && #[trigger] is_at_work(log, launch) && was_set(
                log,
                launch.task.id,
                WorkItemStatus::InProgress,
            ) && #[trigger] was_counted(log, launch.task, count) && is_retry_answer(
                req,
                r.data@,
                count,
            )),
        !(n is End),
{
    if log.len() > 0 {
        let (b, ev) = log.last();
        let before = crate::histories::before_last::<TaskRetry>(req, log, n);
        retry_keeps(req, log.drop_last(), before, b);
        crate::histories::had_more(log);
        facts_stay(req, log);
        retry_facts_stay(req, log);
        match (before.at, ev) {
            (RetryStep::Launch { launching, count }, _) => {
                let m = choose|m: LaunchNext| #[trigger]
                    launching.follows(ev, m) && TaskRetry::carries(
                        before.job,
                        launching.launch.task,
                        count,
                        m,
                        n,
                    );
                crate::launch_laws::law_an_agent_is_set_on_its_task(log, launching, m);
                let launch = launching.launch;
                assert(retry_launches(req, log, launch, count));
                let story = choose|story: WorkItem| #[trigger]
                    is_ready(req, log, launch.task, story) && was_counted(log, launch.task, count)
                        && was_set(log, launch.task.id, WorkItemStatus::InProgress) && (
                    story.status == WorkItemStatus::Failed ==> was_set(
                        log,
                        story.id,
                        WorkItemStatus::InProgress,
                    )) && launch.session == launch.task.decomposition_session_id && launch.story
                        == story.id && launch.worktree == story.worktree_path && launch.mode
                        == LaunchMode::Retry;
                assert(is_retried(req, log, launch.task, story));
                retry_answer_fields(before.job.task_id@, count);
                if m is Started {
                    assert(was_counted(log, launch.task, count) && is_retry_answer(
                        req,
                        (n->Reply_0).data@,
                        count,
                    ));
                }
            },
            _ => {},
        }
    }
}

/// Whether the data names the task and counts the attempts.
pub open spec fn is_retry_answer(req: Request, data: JsonV, count: u32) -> bool {
    &&& data.field("task_id"@) == Some(JsonV::Str(req.params@.text_field("task_id"@)->0))
    &&& data.field("retry_count"@) == Some(JsonV::Int(count + 1))
    &&& data.field("warning"@) is Some <==> count >= 3
}

proof fn retry_answer_fields(task_id: Seq<char>, count: u32)
    ensures
        ({
            let data = crate::tasks::retried(task_id, count);
            &&& data.field("task_id"@) == Some(JsonV::Str(task_id))
            &&& data.field("retry_count"@) == Some(JsonV::Int(count + 1))
            &&& data.field("warning"@) is Some <==> count >= 3
        }),
{
    broadcast use crate::histories::field_of_with;

    reveal_strlit("task_id");
    assert("task_id"@.len() == 7);
    assert("task_id"@[0] == 't');
    reveal_strlit("retry_count");
    assert("retry_count"@.len() == 11);
    reveal_strlit("warning");
    assert("warning"@.len() == 7);
    assert("warning"@[0] == 'w');
}

} // verus!
