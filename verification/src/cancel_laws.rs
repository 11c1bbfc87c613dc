//! What `exec.cancel` is for, over the whole course of a request.
use vstd::prelude::*;
use crate::effects::{Action, Event, Next};
use crate::histories::{had, reaches, Machine};
use crate::ident::Uuid;
use crate::json::JsonV;
use crate::model::{Dependency, ItemType, WorkItem, WorkItemStatus};
use crate::protocol::{Request, ResponseStatus};
use crate::stories::{CancelStep, StoryCancel};
use crate::task_laws::was_set;

verus! {

impl Machine for StoryCancel {
    open spec fn takes_up(req: Request, n: Next<StoryCancel>) -> bool {
        StoryCancel::begins(req, n)
    }

    open spec fn leads(self, ev: Event, n: Next<StoryCancel>) -> bool {
        self.follows(ev, n)
    }
}

/// Whether the request names the item and it was looked up.
pub open spec fn is_found(req: Request, log: Seq<(Action, Event)>, item: WorkItem) -> bool {
    exists|text: String|
        req.params@.text_field("story_id"@) == Some(text@) && #[trigger] had(
            log,
            Action::FindItemByWaveId { text },
            Event::MaybeItem(Ok(Some(item))),
        )
}

/// Whether the item is a story on which no work was begun.
pub open spec fn is_unbegun(item: WorkItem) -> bool {
    &&& item.item_type == ItemType::Story
    &&& item.status == WorkItemStatus::Pending || item.status == WorkItemStatus::Ready
}

/// Whether the task is among the items and waits.
pub open spec fn waits(items: Seq<WorkItem>, task: WorkItem) -> bool {
    items.contains(task) && task.item_type == ItemType::Task && task.status
        == WorkItemStatus::Pending
}

/// Whether it was tried to cancel the item.
pub open spec fn was_called_off(log: Seq<(Action, Event)>, item: Uuid) -> bool {
    exists|ev: Event| #[trigger]
        had(log, Action::UpdateItemStatus { item, status: WorkItemStatus::Cancelled }, ev)
}

/// Whether the identifiers are those of the waiting tasks among the items.
pub open spec fn are_waiting(items: Seq<WorkItem>, ids: Seq<Uuid>) -> bool {
    forall|id: Uuid| #[trigger]
        ids.contains(id) <==> exists|t: WorkItem| #[trigger] waits(items, t) && t.id == id
}

/// The waiting tasks are those that are picked.
pub proof fn picked_are_waiting(items: Seq<WorkItem>)
    ensures
        are_waiting(items, crate::stories::tasks_in(items, WorkItemStatus::Pending)),
{
    let keep = |t: WorkItem| t.item_type == ItemType::Task && t.status == WorkItemStatus::Pending;
    let of = |t: WorkItem| t.id;
    let kept = items.filter(keep);
    let ids = crate::stories::tasks_in(items, WorkItemStatus::Pending);
    assert(ids == kept.map_values(of));
    assert forall|id: Uuid| #[trigger]
        ids.contains(id) <==> exists|t: WorkItem| #[trigger] waits(items, t) && t.id == id by {
        crate::seqs::map_contains(kept, of, id);
        if ids.contains(id) {
            let t = choose|t: WorkItem| #[trigger] kept.contains(t) && of(t) == id;
            crate::seqs::filter_contains(items, keep, t);
            assert(waits(items, t));
        }
        if exists|t: WorkItem| #[trigger] waits(items, t) && t.id == id {
            let t = choose|t: WorkItem| #[trigger] waits(items, t) && t.id == id;
            crate::seqs::filter_contains(items, keep, t);
            assert(kept.contains(t) && of(t) == id);
        }
    }
}

/// Whether `ids` are the tasks of the story that waited, as far as they could be listed.
pub open spec fn were_waiting(log: Seq<(Action, Event)>, story: Uuid, ids: Seq<Uuid>) -> bool {
    ||| exists|v: Vec<WorkItem>| #[trigger]
        had(log, Action::ListChildren { parent: story }, Event::WorkItems(Ok(v))) && are_waiting(
            v@,
            ids,
        )
    ||| exists|e: String| #[trigger]
        had(log, Action::ListChildren { parent: story }, Event::WorkItems(Err(e))) && ids.len()
            == 0
}

/// Whether the waiting tasks of the story were called off.
pub open spec fn is_cleared(log: Seq<(Action, Event)>, story: Uuid) -> bool {
    exists|ids: Seq<Uuid>| #[trigger]
        were_waiting(log, story, ids) && forall|i: int|
            0 <= i < ids.len() ==> was_called_off(log, #[trigger] ids[i])
}

/// Whether the stories that wait for this one were listed.
pub open spec fn holds_up(
    log: Seq<(Action, Event)>,
    story: Uuid,
    dependents: Vec<Dependency>,
) -> bool {
    had(log, Action::ListDependents { story }, Event::Dependencies(Ok(dependents)))
}

/// Whether the dependent was looked up, and is named if it was found.
pub open spec fn is_named(log: Seq<(Action, Event)>, d: Dependency, names: Seq<Seq<char>>) -> bool {
    exists|ev: Event| #[trigger]
        had(log, Action::GetItem { item: d.blocked_id }, ev) && (ev matches Event::MaybeItem(
            Ok(Some(s)),
        ) ==> names.contains(s.short_id@))
}

/// Whether the name is that of a story that waits for this one.
pub open spec fn names_one(
    log: Seq<(Action, Event)>,
    dependents: Seq<Dependency>,
    name: Seq<char>,
) -> bool {
    exists|d: Dependency, s: WorkItem|
        dependents.contains(d) && #[trigger] had(
            log,
            Action::GetItem { item: d.blocked_id },
            Event::MaybeItem(Ok(Some(s))),
        ) && s.short_id@ == name
}

spec fn names_so_far(
    log: Seq<(Action, Event)>,
    dependents: Seq<Dependency>,
    done: int,
    names: Seq<Seq<char>>,
) -> bool {
    &&& forall|i: int| 0 <= i < done ==> is_named(log, #[trigger] dependents[i], names)
    &&& forall|j: int| 0 <= j < names.len() ==> names_one(log, dependents, #[trigger] names[j])
}

/// Whether the story is cancelled, and the stories that wait for it were listed before.
pub open spec fn is_given_up(
    req: Request,
    log: Seq<(Action, Event)>,
    story: WorkItem,
    dependents: Vec<Dependency>,
) -> bool {
    &&& is_found(req, log, story)
    &&& is_unbegun(story)
    &&& holds_up(log, story.id, dependents)
    &&& was_set(log, story.id, WorkItemStatus::Cancelled)
}

spec fn cancel_holds(req: Request, log: Seq<(Action, Event)>, s: StoryCancel, a: Action) -> bool {
    &&& s.job.id == req.id
    &&& req.params@.text_field("story_id"@) == Some(s.job.story_id@)
    &&& match s.at {
        CancelStep::Find => log.len() == 0 && a == (Action::FindItemByWaveId {
            text: s.job.story_id,
        }),
        CancelStep::Dependents { story } => {
            &&& is_found(req, log, story)
            &&& is_unbegun(story)
            &&& a == Action::ListDependents { story: story.id }
        },
        CancelStep::Mark { story, dependents } => {
            &&& is_found(req, log, story)
            &&& is_unbegun(story)
            &&& holds_up(log, story.id, dependents)
            &&& a == Action::UpdateItemStatus { item: story.id, status: WorkItemStatus::Cancelled }
        },
        CancelStep::Tasks { dependents } => exists|story: WorkItem| #[trigger]
            is_given_up(req, log, story, dependents) && a == (Action::ListChildren {
                parent: story.id,
            }),
        CancelStep::Cancel { dependents, tasks, done } => exists|story: WorkItem| #[trigger]
            is_given_up(req, log, story, dependents) && were_waiting(log, story.id, tasks@) && done
                < tasks@.len() && (forall|i: int|
                0 <= i < done ==> was_called_off(log, #[trigger] tasks@[i])) && a == (
            Action::UpdateItemStatus {
                item: tasks@[done as int],
                status: WorkItemStatus::Cancelled,
            }),
        CancelStep::Name { dependents, done, names } => exists|story: WorkItem| #[trigger]
            is_given_up(req, log, story, dependents) && is_cleared(log, story.id) && done
                < dependents@.len() && names_so_far(
                log,
                dependents@,
                done as int,
                crate::text::texts_view(names@),
            ) && a == (Action::GetItem { item: dependents@[done as int].blocked_id }),
    }
}

proof fn cancel_facts_stay(req: Request, log: Seq<(Action, Event)>)
    requires
        log.len() > 0,
    ensures
        forall|s: WorkItem| #[trigger] is_found(req, log.drop_last(), s) ==> is_found(req, log, s),
        forall|s: Uuid, d: Vec<Dependency>| #[trigger]
            holds_up(log.drop_last(), s, d) ==> holds_up(log, s, d),
        forall|s: WorkItem, d: Vec<Dependency>|
            #![trigger is_given_up(req, log.drop_last(), s, d)]
            #![trigger is_given_up(req, log, s, d)]
            is_given_up(req, log.drop_last(), s, d) ==> is_given_up(req, log, s, d),
        forall|s: Uuid, v: Seq<Uuid>| #[trigger]
            were_waiting(log.drop_last(), s, v) ==> were_waiting(log, s, v),
        forall|i: Uuid|
            #![trigger was_called_off(log.drop_last(), i)]
            #![trigger was_called_off(log, i)]
            was_called_off(log.drop_last(), i) ==> was_called_off(log, i),
        forall|s: Uuid| #[trigger] is_cleared(log.drop_last(), s) ==> is_cleared(log, s),
        forall|ds: Seq<Dependency>, k: int, v: Seq<Seq<char>>| #[trigger]
            names_so_far(log.drop_last(), ds, k, v) ==> names_so_far(log, ds, k, v),
{
    crate::histories::had_more(log);
    let init = log.drop_last();
    assert forall|i: Uuid|
        #![trigger was_called_off(init, i)]
        #![trigger was_called_off(log, i)]
        was_called_off(init, i) implies was_called_off(log, i) by {}
    assert forall|s: Uuid, v: Seq<Uuid>| #[trigger]
        were_waiting(init, s, v) implies were_waiting(log, s, v) by {}
    assert forall|s: Uuid| #[trigger] is_cleared(init, s) implies is_cleared(log, s) by {
        let ids = choose|ids: Seq<Uuid>| #[trigger]
            were_waiting(init, s, ids) && forall|i: int|
                0 <= i < ids.len() ==> was_called_off(init, #[trigger] ids[i]);
        assert(were_waiting(log, s, ids));
        assert forall|i: int| 0 <= i < ids.len() implies was_called_off(
            log,
            #[trigger] ids[i],
        ) by {
            assert(was_called_off(init, ids[i]));
        }
    }
    assert forall|ds: Seq<Dependency>, k: int, v: Seq<Seq<char>>| #[trigger]
        names_so_far(init, ds, k, v) implies names_so_far(log, ds, k, v) by {
        assert forall|i: int| 0 <= i < k implies is_named(log, #[trigger] ds[i], v) by {
            assert(is_named(init, ds[i], v));
        }
        assert forall|j: int| 0 <= j < v.len() implies names_one(log, ds, #[trigger] v[j]) by {
            assert(names_one(init, ds, v[j]));
        }
    }
}

proof fn cancel_keeps(req: Request, log: Seq<(Action, Event)>, s: StoryCancel, a: Action)
    requires
        reaches(req, log, Next::Act(s, a)),
    ensures
        cancel_holds(req, log, s, a),
    decreases log.len(),
{
    if log.len() > 0 {
        let (b, ev) = log.last();
        let before = crate::histories::before_last::<StoryCancel>(req, log, Next::Act(s, a));
        cancel_keeps(req, log.drop_last(), before, b);
        cancel_step(req, log, before, Next::Act(s, a));
    }
}

/// What an answer of a cancelling that went well says.
pub open spec fn tells_of_cancelling(
    req: Request,
    log: Seq<(Action, Event)>,
    story: WorkItem,
    dependents: Vec<Dependency>,
    data: JsonV,
) -> bool {
    &&& is_given_up(req, log, story, dependents)
    &&& is_cleared(log, story.id)
    &&& req.params@.text_field("story_id"@) == data.text_field("story_id"@)
    &&& data.truth_field("cancelled"@) == Some(true)
    &&& data.field("blocked_dependents"@) is Some <==> dependents@.len() > 0
    &&& data.field("warning"@) is Some <==> dependents@.len() > 0
    &&& dependents@.len() > 0 ==> exists|names: Seq<Seq<char>>|
        #[trigger] JsonV::texts(names) == data.field("blocked_dependents"@)->0 && data.text_field(
            "warning"@,
        ) == Some(
            "story has "@ + crate::text::decimal(dependents@.len())
                + " dependent(s) that will be blocked: "@ + crate::text::separated(names, ", "@),
        ) && (forall|d: Dependency|
            #[trigger] dependents@.contains(d) ==> is_named(log, d, names)) && (forall|j: int|
            0 <= j < names.len() ==> names_one(log, dependents@, #[trigger] names[j]))
}

proof fn cancel_names(
    req: Request,
    log: Seq<(Action, Event)>,
    s: StoryCancel,
    story: WorkItem,
    dependents: Vec<Dependency>,
    done: int,
    names: Seq<Seq<char>>,
    n: Next<StoryCancel>,
)
    requires
        s.job.id == req.id,
        req.params@.text_field("story_id"@) == Some(s.job.story_id@),
        is_given_up(req, log, story, dependents),
        is_cleared(log, story.id),
        0 <= done <= dependents@.len(),
        names_so_far(log, dependents@, done, names),
        StoryCancel::names(s.job, dependents, done, names, n),
    ensures
        n matches Next::Act(t, a) ==> cancel_holds(req, log, t, a),
        n matches Next::Reply(r) ==> r.status == ResponseStatus::Success
            && tells_of_cancelling(req, log, story, dependents, r.data@),
        !(n is End),
{
    broadcast use crate::histories::field_of_with;

    if done == dependents@.len() {
        reveal_strlit("story_id");
        reveal_strlit("cancelled");
        reveal_strlit("warning");
        reveal_strlit("blocked_dependents");
        assert("story_id"@.len() == 8);
        assert("cancelled"@.len() == 9);
        assert("warning"@.len() == 7);
        assert("blocked_dependents"@.len() == 18);
        let data = crate::stories::cancelled(s.job.story_id@, dependents@.len(), names);
        assert forall|d: Dependency| #[trigger] dependents@.contains(d) implies is_named(
            log,
            d,
            names,
        ) by {
            let i = choose|i: int| 0 <= i < dependents@.len() && dependents@[i] == d;
            assert(is_named(log, dependents@[i], names));
        }
        if dependents@.len() > 0 {
            assert(JsonV::texts(names) == data.field("blocked_dependents"@)->0);
        }
    }
}

proof fn cancel_tasks(
    req: Request,
    log: Seq<(Action, Event)>,
    s: StoryCancel,
    story: WorkItem,
    dependents: Vec<Dependency>,
    tasks: Seq<Uuid>,
    done: int,
    n: Next<StoryCancel>,
)
    requires
        s.job.id == req.id,
        req.params@.text_field("story_id"@) == Some(s.job.story_id@),
        is_given_up(req, log, story, dependents),
        were_waiting(log, story.id, tasks),
        0 <= done <= tasks.len(),
        forall|i: int| 0 <= i < done ==> was_called_off(log, #[trigger] tasks[i]),
        StoryCancel::cancels(s.job, dependents, tasks, done, n),
    ensures
        n matches Next::Act(t, a) ==> cancel_holds(req, log, t, a),
        n matches Next::Reply(r) ==> r.status == ResponseStatus::Success
            && tells_of_cancelling(req, log, story, dependents, r.data@),
        !(n is End),
{
    if done == tasks.len() {
        assert(is_cleared(log, story.id));
        cancel_names(req, log, s, story, dependents, 0, Seq::empty(), n);
    } else {
        assert(is_given_up(req, log, story, dependents));
    }
}

/// Whether the outcome is that of a failure.
pub open spec fn is_failure(ev: Event) -> bool {
    match ev {
        Event::Done(r) => r is Err,
        Event::MaybeItem(r) => r is Err,
        Event::Dependencies(r) => r is Err,
        _ => false,
    }
}

/// One step of a cancelling.
proof fn cancel_step(
    req: Request,
    log: Seq<(Action, Event)>,
    before: StoryCancel,
    n: Next<StoryCancel>,
)
    requires
        log.len() > 0,
        cancel_holds(req, log.drop_last(), before, log.last().0),
        before.follows(log.last().1, n),
    ensures
        n matches Next::Act(s, a) ==> cancel_holds(req, log, s, a),
        n matches Next::Reply(r) ==> r.id == req.id && match r.status {
            ResponseStatus::Success => exists|
                story: WorkItem,
                dependents: Vec<Dependency>,
            | #[trigger]
                tells_of_cancelling(req, log, story, dependents, r.data@),
            ResponseStatus::Error => {
                ||| log.len() == 1 && is_failure(log.last().1)
                ||| log.len() == 1 && (log.last().1 matches Event::MaybeItem(Ok(found)) && (
                found matches Some(story) ==> !is_unbegun(story)))
                ||| is_failure(log.last().1) && !(log.last().0 is ListChildren || log.last().0
                    is GetItem)
            },
        },
        !(n is End),
{
    let (b, ev) = log.last();
    let init = log.drop_last();
    crate::histories::had_more(log);
    cancel_facts_stay(req, log);
    match (before.at, ev) {
        (CancelStep::Find, Event::MaybeItem(r)) => {
            assert(had(log, b, ev));
            match r {
                Ok(Some(story)) => {
                    assert(is_found(req, log, story));
                },
                _ => {},
            }
        },
        (CancelStep::Dependents { story }, Event::Dependencies(r)) => {
            assert(had(log, b, ev));
        },
        (CancelStep::Mark { story, dependents }, Event::Done(r)) => {
            assert(had(log, b, ev));
            match r {
                Ok(_) => {
                    assert(was_set(log, story.id, WorkItemStatus::Cancelled));
                    assert(is_given_up(req, log, story, dependents));
                    assert(is_given_up(req, log, story, n->Act_0.at->Tasks_dependents));
                },
                Err(_) => {},
            }
        },
        (CancelStep::Tasks { dependents }, Event::WorkItems(r)) => {
            let story = choose|story: WorkItem| #[trigger]
                is_given_up(req, init, story, dependents) && b == (Action::ListChildren {
                    parent: story.id,
                });
            assert(is_given_up(req, log, story, dependents));
            assert(had(log, b, ev));
            let ids = match r {
                Ok(v) => crate::stories::tasks_in(v@, WorkItemStatus::Pending),
                Err(_) => Seq::empty(),
            };
            match r {
                Ok(v) => {
                    picked_are_waiting(v@);
                    assert(had(
                        log,
                        Action::ListChildren { parent: story.id },
                        Event::WorkItems(Ok(v)),
                    ) && are_waiting(v@, ids));
                },
                Err(e) => {
                    assert(had(
                        log,
                        Action::ListChildren { parent: story.id },
                        Event::WorkItems(Err(e)),
                    ));
                },
            }
            assert(were_waiting(log, story.id, ids));
            cancel_tasks(req, log, before, story, dependents, ids, 0, n);
        },
        (CancelStep::Cancel { dependents, tasks, done }, Event::Done(_)) => {
            let story = choose|story: WorkItem| #[trigger]
                is_given_up(req, init, story, dependents) && were_waiting(init, story.id, tasks@)
                    && done < tasks@.len() && (forall|i: int|
                    0 <= i < done ==> was_called_off(init, #[trigger] tasks@[i])) && b == (
                Action::UpdateItemStatus {
                    item: tasks@[done as int],
                    status: WorkItemStatus::Cancelled,
                });
            assert(is_given_up(req, log, story, dependents));
            assert(had(log, b, ev));
            assert(was_called_off(log, tasks@[done as int]));
            assert forall|i: int| 0 <= i < done + 1 implies was_called_off(
                log,
                #[trigger] tasks@[i],
            ) by {
                if i < done {
                    assert(was_called_off(init, tasks@[i]));
                }
            }
            cancel_tasks(req, log, before, story, dependents, tasks@, done + 1, n);
        },
        (CancelStep::Name { dependents, done, names }, Event::MaybeItem(r)) => {
            let old_names = crate::text::texts_view(names@);
            let story = choose|story: WorkItem| #[trigger]
                is_given_up(req, init, story, dependents) && is_cleared(init, story.id) && done
                    < dependents@.len() && names_so_far(init, dependents@, done as int, old_names)
                    && b == (Action::GetItem { item: dependents@[done as int].blocked_id });
            assert(is_given_up(req, log, story, dependents));
            assert(had(log, b, ev));
            let d = dependents@[done as int];
            let more = match r {
                Ok(Some(found)) => old_names.push(found.short_id@),
                _ => old_names,
            };
            assert(names_so_far(log, dependents@, done as int, old_names));
            assert(dependents@.contains(d));
            assert forall|i: int| 0 <= i < done + 1 implies is_named(
                log,
                #[trigger] dependents@[i],
                more,
            ) by {
                if i < done {
                    assert(is_named(log, dependents@[i], old_names));
                    let e = choose|e: Event| #[trigger]
                        had(log, Action::GetItem { item: dependents@[i].blocked_id }, e) && (e
                            matches Event::MaybeItem(Ok(Some(s))) ==> old_names.contains(
                            s.short_id@,
                        ));
                    match e {
                        Event::MaybeItem(Ok(Some(s))) => {
                            let k = choose|k: int|
                                0 <= k < old_names.len() && old_names[k] == s.short_id@;
                            assert(more[k] == s.short_id@);
                        },
                        _ => {},
                    }
                }
            }
            assert forall|j: int| 0 <= j < more.len() implies names_one(
                log,
                dependents@,
                #[trigger] more[j],
            ) by {
                if j < old_names.len() {
                    assert(names_one(log, dependents@, old_names[j]));
                }
            }
            cancel_names(req, log, before, story, dependents, done + 1, more, n);
        },
        _ => {},
    }
}

/// Cancelling changes nothing but statuses, and each to cancelled: that of the named story, on
/// which no work was begun and of which it was asked which stories wait for it, and then those
/// of its tasks that wait.
pub proof fn law_what_cancelling_does(
    req: Request,
    log: Seq<(Action, Event)>,
    s: StoryCancel,
    a: Action,
)
    requires
        reaches(req, log, Next::Act(s, a)),
    ensures
        match a {
            Action::FindItemByWaveId { text } => log.len() == 0
                && req.params@.text_field("story_id"@) == Some(text@),
            Action::ListDependents { story } => exists|found: WorkItem| #[trigger]
                is_found(req, log, found) && is_unbegun(found) && found.id == story,
            Action::UpdateItemStatus { item, status } => {
                &&& status == WorkItemStatus::Cancelled
                &&& exists|story: WorkItem, dependents: Vec<Dependency>|
                    is_found(req, log, story) && is_unbegun(story) && #[trigger] holds_up(
                        log,
                        story.id,
                        dependents,
                    ) && (item == story.id || (is_given_up(req, log, story, dependents) && exists|
                        ids: Seq<Uuid>,
                    | #[trigger]
                        were_waiting(log, story.id, ids) && ids.contains(item)))
            },
            Action::ListChildren { parent } => exists|story: WorkItem, dependents: Vec<Dependency>|
                #[trigger] is_given_up(req, log, story, dependents) && parent == story.id,
            Action::GetItem { item } => exists|story: WorkItem, dependents: Vec<Dependency>|
                #[trigger] is_given_up(req, log, story, dependents) && is_cleared(log, story.id)
                    && exists|d: Dependency| #[trigger]
                    dependents@.contains(d) && d.blocked_id == item,
            _ => false,
        },
{
    cancel_keeps(req, log, s, a);
    match s.at {
        CancelStep::Dependents { story } => {
            assert(is_found(req, log, story));
        },
        CancelStep::Mark { story, dependents } => {
            assert(holds_up(log, story.id, dependents));
        },
        CancelStep::Cancel { dependents, tasks, done } => {
            let story = choose|story: WorkItem| #[trigger]
                is_given_up(req, log, story, dependents) && were_waiting(log, story.id, tasks@);
            assert(holds_up(log, story.id, dependents));
            assert(tasks@.contains(tasks@[done as int]));
        },
        CancelStep::Name { dependents, done, names } => {
            assert(dependents@.contains(dependents@[done as int]));
        },
        _ => {},
    }
}

/// A cancelling that goes well has cancelled the story, has called off each of its waiting
/// tasks, and names the stories that wait for it. It fails only where the story was not found,
/// where work on it was begun, or where the database failed.
pub proof fn law_what_cancelling_comes_to(
    req: Request,
    log: Seq<(Action, Event)>,
    n: Next<StoryCancel>,
)
    requires
        reaches(req, log, n),
    ensures
        !(n is End),
        n matches Next::Reply(r) ==> r.id == req.id && match r.status {
            ResponseStatus::Success => exists|
                story: WorkItem,
                dependents: Vec<Dependency>,
            | #[trigger]
                tells_of_cancelling(req, log, story, dependents, r.data@),
            ResponseStatus::Error => {
                ||| log.len() == 0 && req.params@.text_field("story_id"@) is None
                ||| log.len() == 1 && is_failure(log.last().1)
                ||| log.len() == 1 && (log.last().1 matches Event::MaybeItem(Ok(found)) && (
                found matches Some(story) ==> !is_unbegun(story)))
                ||| is_failure(log.last().1) && !(log.last().0 is ListChildren || log.last().0
                    is GetItem)
            },
        },
{
    if log.len() > 0 {
        let before = crate::histories::before_last::<StoryCancel>(req, log, n);
        cancel_keeps(req, log.drop_last(), before, log.last().0);
        cancel_step(req, log, before, n);
    }
}

} // verus!
