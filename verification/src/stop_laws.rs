//! What `exec.stop` is for, over the whole course of a request.
use vstd::prelude::*;
use crate::cancel_laws::{is_cleared, was_called_off, were_waiting};
use crate::effects::{Action, Event, Next};
use crate::histories::{had, just, reaches, Machine};
use crate::ident::Uuid;
use crate::json::JsonV;
use crate::model::{
    AgentRun, AgentRunStatus, DecompositionSession, ItemType, Project, WorkItem, WorkItemStatus,
};
use crate::protocol::{Request, ResponseStatus};
use crate::stop::{ExecStop, StopJob, StopStep, StopTarget, Sweep};

verus! {

impl Machine for ExecStop {
    open spec fn takes_up(req: Request, n: Next<ExecStop>) -> bool {
        ExecStop::begins(req, n)
    }

    open spec fn leads(self, ev: Event, n: Next<ExecStop>) -> bool {
        self.follows(ev, n)
    }
}

// ---- what is to be stopped ----

/// Whether all agents are to be stopped.
pub open spec fn wants_all(req: Request) -> bool {
    req.params@.truth_field("all"@) == Some(true)
}

/// Whether the agents of one story are.
pub open spec fn wants_story(req: Request) -> bool {
    !wants_all(req) && req.params@.text_field("story_id"@) is Some
}

/// Whether those of a wave are.
pub open spec fn wants_wave(req: Request) -> bool {
    !wants_all(req) && req.params@.text_field("story_id"@) is None && req.params@.natural_field(
        "wave"@,
    ) is Some
}

/// Whether the project is the named one.
pub open spec fn is_named_project(
    req: Request,
    log: Seq<(Action, Event)>,
    project: Project,
) -> bool {
    exists|name: String|
        req.params@.text_field("project_name"@) == Some(name@) && #[trigger] had(
            log,
            Action::GetProjectByName { name },
            Event::MaybeProject(Ok(Some(project))),
        )
}

/// Whether the wave is the numbered one of the named project.
pub open spec fn is_named_wave(
    req: Request,
    log: Seq<(Action, Event)>,
    session: DecompositionSession,
) -> bool {
    exists|project: Project, wave: u32|
        is_named_project(req, log, project) && req.params@.natural_field("wave"@) is Some && wave
            == req.params@.natural_field("wave"@)->0 as u32 && #[trigger] had(
            log,
            Action::GetSessionByWave { project: project.id, wave },
            Event::MaybeSession(Ok(Some(session))),
        )
}

/// Whether the agents were found that work, on all projects or on the named one.
pub open spec fn were_at_work(
    req: Request,
    log: Seq<(Action, Event)>,
    runs: Vec<AgentRun>,
) -> bool {
    if wants_all(req) {
        had(log, Action::FindAllRunningAgents, Event::AgentRuns(Ok(runs)))
    } else {
        !wants_story(req) && !wants_wave(req) && exists|project: Project| #[trigger]
            is_named_project(req, log, project) && had(
                log,
                Action::FindRunningAgents { project: project.id },
                Event::AgentRuns(Ok(runs)),
            )
    }
}

/// Whether the story is the named one, which is ready or in progress.
pub open spec fn is_named_story(req: Request, log: Seq<(Action, Event)>, story: WorkItem) -> bool {
    &&& crate::cancel_laws::is_found(req, log, story)
    &&& story.item_type == ItemType::Story
    &&& story.status == WorkItemStatus::InProgress || story.status == WorkItemStatus::Ready
}

/// Whether the identifiers are those of the stories that are in progress.
pub open spec fn are_in_progress(stories: Seq<WorkItem>, ids: Seq<Uuid>) -> bool {
    forall|id: Uuid| #[trigger]
        ids.contains(id) <==> exists|s: WorkItem| #[trigger]
            stories.contains(s) && s.status == WorkItemStatus::InProgress && s.id == id
}

proof fn active_are_in_progress(stories: Seq<WorkItem>)
    ensures
        are_in_progress(stories, crate::stop::active_stories(stories)),
{
    let keep = |s: WorkItem| s.status == WorkItemStatus::InProgress;
    let of = |s: WorkItem| s.id;
    let kept = stories.filter(keep);
    let ids = crate::stop::active_stories(stories);
    assert(ids == kept.map_values(of));
    assert forall|id: Uuid| #[trigger]
        ids.contains(id) <==> exists|s: WorkItem| #[trigger]
            stories.contains(s) && s.status == WorkItemStatus::InProgress && s.id == id by {
        crate::seqs::map_contains(kept, of, id);
        if ids.contains(id) {
            let s = choose|s: WorkItem| #[trigger] kept.contains(s) && of(s) == id;
            crate::seqs::filter_contains(stories, keep, s);
            assert(stories.contains(s));
        }
        if exists|s: WorkItem| #[trigger]
            stories.contains(s) && s.status == WorkItemStatus::InProgress && s.id == id {
            let s = choose|s: WorkItem| #[trigger]
                stories.contains(s) && s.status == WorkItemStatus::InProgress && s.id == id;
            crate::seqs::filter_contains(stories, keep, s);
            assert(kept.contains(s) && of(s) == id);
        }
    }
}

/// Whether the stories are those to be stopped, where stories are: the named one, or those of
/// the wave that are in progress.
pub open spec fn are_to_stop(req: Request, log: Seq<(Action, Event)>, ids: Seq<Uuid>) -> bool {
    if wants_story(req) {
        exists|story: WorkItem| #[trigger] is_named_story(req, log, story) && ids == seq![story.id]
    } else {
        wants_wave(req) && exists|session: DecompositionSession, v: Vec<WorkItem>|
            is_named_wave(req, log, session) && #[trigger] had(
                log,
                Action::ListStories { session: session.id },
                Event::WorkItems(Ok(v)),
            ) && are_in_progress(v@, ids)
    }
}

// ---- one agent ----

/// Whether the process of the agent, if it is known, was asked to terminate.
pub open spec fn was_told_to_end(log: Seq<(Action, Event)>, run: AgentRun) -> bool {
    run.pid matches Some(pid) ==> exists|ev: Event| #[trigger]
        had(log, Action::Terminate { pid }, ev)
}

/// Whether the action notes that the agent was stopped.
pub open spec fn is_note(a: Action, run: AgentRun) -> bool {
    a matches Action::FinishRun { run: id, status, message, at } && id == run.id && status
        == AgentRunStatus::Cancelled && message@ == "stopped by user"@
}

pub open spec fn was_noted(log: Seq<(Action, Event)>, run: AgentRun) -> bool {
    exists|a: Action, ev: Event| #[trigger] had(log, a, ev) && is_note(a, run)
}

/// Whether the agent was stopped: its process was asked to terminate, its run was noted as
/// cancelled, and its task as failed.
pub open spec fn was_stopped(log: Seq<(Action, Event)>, run: AgentRun) -> bool {
    &&& was_told_to_end(log, run)
    &&& was_noted(log, run)
    &&& exists|ev: Event| #[trigger]
        had(
            log,
            Action::UpdateItemStatus { item: run.work_item_id, status: WorkItemStatus::Failed },
            ev,
        )
}

/// Whether the story is that of the task of one of the agents.
pub open spec fn is_of_one(log: Seq<(Action, Event)>, runs: Seq<AgentRun>, story: Uuid) -> bool {
    exists|run: AgentRun, task: WorkItem|
        runs.contains(run) && #[trigger] had(
            log,
            Action::GetItem { item: run.work_item_id },
            Event::MaybeItem(Ok(Some(task))),
        ) && task.parent_id == Some(story)
}

/// Whether the task of the agent was looked up, and its story is among those to be cancelled.
pub open spec fn story_is_counted(
    log: Seq<(Action, Event)>,
    run: AgentRun,
    stories: Seq<Uuid>,
) -> bool {
    exists|ev: Event| #[trigger]
        had(log, Action::GetItem { item: run.work_item_id }, ev) && (ev matches Event::MaybeItem(
            Ok(Some(task)),
        ) ==> task.parent_id is Some ==> stories.contains(task.parent_id->0))
}

/// Whether the story was called off, with its waiting tasks.
pub open spec fn is_closed(log: Seq<(Action, Event)>, story: Uuid) -> bool {
    was_called_off(log, story) && is_cleared(log, story)
}

/// Whether the agents of the story were stopped and the story was closed, if its agents could
/// be found.
pub open spec fn is_stopped(log: Seq<(Action, Event)>, story: Uuid) -> bool {
    ||| exists|e: String| #[trigger]
        had(log, Action::FindRunningAgentsOfStory { story }, Event::AgentRuns(Err(e)))
    ||| is_closed(log, story) && exists|v: Vec<AgentRun>| #[trigger]
        had(log, Action::FindRunningAgentsOfStory { story }, Event::AgentRuns(Ok(v))) && forall|i: int|
            0 <= i < v@.len() ==> was_stopped(log, #[trigger] v@[i])
}

/// The number of runs that were noted as stopped.
pub open spec fn notes(log: Seq<(Action, Event)>) -> nat
    decreases log.len(),
{
    if log.len() == 0 {
        0
    } else {
        notes(log.drop_last()) + if log.last().0 is FinishRun {
            1nat
        } else {
            0nat
        }
    }
}

// ---- the course ----

spec fn agents_so_far(log: Seq<(Action, Event)>, runs: Seq<AgentRun>, done: int) -> bool {
    0 <= done <= runs.len() && forall|i: int|
        0 <= i < done ==> was_stopped(log, #[trigger] runs[i])
}

spec fn stories_so_far(log: Seq<(Action, Event)>, stories: Seq<Uuid>, at: int) -> bool {
    0 <= at <= stories.len() && forall|i: int|
        0 <= i < at ==> is_stopped(log, #[trigger] stories[i])
}

spec fn closed_so_far(log: Seq<(Action, Event)>, stories: Seq<Uuid>, at: int) -> bool {
    0 <= at <= stories.len() && forall|i: int|
        0 <= i < at ==> is_closed(log, #[trigger] stories[i])
}

spec fn gathered(
    log: Seq<(Action, Event)>,
    runs: Seq<AgentRun>,
    done: int,
    stories: Seq<Uuid>,
) -> bool {
    &&& stories.no_duplicates()
    &&& forall|j: int| 0 <= j < stories.len() ==> is_of_one(log, runs, #[trigger] stories[j])
    &&& forall|i: int| 0 <= i < done ==> story_is_counted(log, #[trigger] runs[i], stories)
}

/// What holds between two agents or two stories.
spec fn sweeps(
    req: Request,
    log: Seq<(Action, Event)>,
    by_story: bool,
    runs: Vec<AgentRun>,
    done: int,
    stories: Seq<Uuid>,
    at: int,
) -> bool {
    &&& agents_so_far(log, runs@, done)
    &&& if by_story {
        &&& are_to_stop(req, log, stories)
        &&& stories_so_far(log, stories, at)
        &&& at < stories.len()
        &&& had(
            log,
            Action::FindRunningAgentsOfStory { story: stories[at] },
            Event::AgentRuns(Ok(runs)),
        )
    } else {
        &&& were_at_work(req, log, runs)
        &&& gathered(log, runs@, done, stories)
        &&& closed_so_far(log, stories, at)
    }
}

spec fn counts(log: Seq<(Action, Event)>, by_story: bool, stopped: u64, done: int) -> bool {
    notes(log) <= u64::MAX ==> notes(log) == done + if by_story {
        stopped as int
    } else {
        0
    }
}

spec fn stop_holds(req: Request, log: Seq<(Action, Event)>, s: ExecStop, a: Action) -> bool {
    let by = s.job.target.by_story();
    &&& s.job.id == req.id
    &&& ExecStop::asks(req.params@, s.job.target)
    &&& match s.at {
        StopStep::Open => log.len() == 0 && a == Action::OpenDb,
        StopStep::Story => {
            &&& wants_story(req)
            &&& notes(log) == 0
            &&& a matches Action::FindItemByWaveId { text }
            &&& req.params@.text_field("story_id"@) == Some(text@)
        },
        StopStep::Project => {
            &&& !wants_all(req) && !wants_story(req)
            &&& notes(log) == 0
            &&& a matches Action::GetProjectByName { name }
            &&& req.params@.text_field("project_name"@) == Some(name@)
        },
        StopStep::Session => {
            &&& wants_wave(req)
            &&& notes(log) == 0
            &&& a matches Action::GetSessionByWave { project, wave }
            &&& wave == req.params@.natural_field("wave"@)->0 as u32
            &&& exists|p: Project| #[trigger] is_named_project(req, log, p) && p.id == project
        },
        StopStep::Stories => {
            &&& wants_wave(req)
            &&& notes(log) == 0
            &&& exists|session: DecompositionSession| #[trigger]
                is_named_wave(req, log, session) && a == (Action::ListStories {
                    session: session.id,
                })
        },
        StopStep::Running => {
            &&& notes(log) == 0
            &&& !wants_story(req) && !wants_wave(req)
            &&& if wants_all(req) {
                a == Action::FindAllRunningAgents
            } else {
                exists|p: Project| #[trigger]
                    is_named_project(req, log, p) && a == (Action::FindRunningAgents {
                        project: p.id,
                    })
            }
        },
        StopStep::StoryRuns { sweep } => {
            &&& by
            &&& are_to_stop(req, log, sweep.stories@)
            &&& stories_so_far(log, sweep.stories@, sweep.at as int)
            &&& sweep.has_story()
            &&& counts(log, true, sweep.stopped, 0)
            &&& a == Action::FindRunningAgentsOfStory { story: sweep.stories@[sweep.at as int] }
        },
        StopStep::Kill { sweep } => {
            &&& holds_sweep(req, log, by, sweep)
            &&& sweep.has_run()
            &&& counts(log, by, sweep.stopped, sweep.done as int)
            &&& sweep.runs@[sweep.done as int].pid matches Some(pid)
            &&& a == Action::Terminate { pid }
        },
        StopStep::Time { sweep } => {
            &&& holds_sweep(req, log, by, sweep)
            &&& sweep.has_run()
            &&& counts(log, by, sweep.stopped, sweep.done as int)
            &&& was_told_to_end(log, sweep.runs@[sweep.done as int])
            &&& a == Action::Now
        },
        StopStep::Finish { sweep } => {
            &&& holds_sweep(req, log, by, sweep)
            &&& sweep.has_run()
            &&& counts(log, by, sweep.stopped, sweep.done as int)
            &&& was_told_to_end(log, sweep.runs@[sweep.done as int])
            &&& is_note(a, sweep.runs@[sweep.done as int])
            &&& just(log, Action::Now, Event::Time(a->FinishRun_at))
        },
        StopStep::Fail { sweep } => {
            &&& holds_sweep(req, log, by, sweep)
            &&& sweep.has_run()
            &&& counts(log, by, sweep.stopped, sweep.done + 1)
            &&& was_told_to_end(log, sweep.runs@[sweep.done as int])
            &&& was_noted(log, sweep.runs@[sweep.done as int])
            &&& a == Action::UpdateItemStatus {
                item: sweep.runs@[sweep.done as int].work_item_id,
                status: WorkItemStatus::Failed,
            }
        },
        StopStep::Parent { sweep } => {
            &&& !by
            &&& holds_sweep(req, log, by, sweep)
            &&& sweep.has_run()
            &&& counts(log, by, sweep.stopped, sweep.done + 1)
            &&& was_stopped(log, sweep.runs@[sweep.done as int])
            &&& a == Action::GetItem { item: sweep.runs@[sweep.done as int].work_item_id }
        },
        StopStep::Mark { sweep } => {
            &&& closing(req, log, by, sweep)
            &&& a == Action::UpdateItemStatus {
                item: sweep.stories@[sweep.at as int],
                status: WorkItemStatus::Cancelled,
            }
        },
        StopStep::Tasks { sweep } => {
            &&& closing(req, log, by, sweep)
            &&& was_called_off(log, sweep.stories@[sweep.at as int])
            &&& a == Action::ListChildren { parent: sweep.stories@[sweep.at as int] }
        },
        StopStep::Cancel { sweep, tasks, done } => {
            &&& closing(req, log, by, sweep)
            &&& was_called_off(log, sweep.stories@[sweep.at as int])
            &&& were_waiting(log, sweep.stories@[sweep.at as int], tasks@)
            &&& done < tasks@.len()
            &&& forall|i: int| 0 <= i < done ==> was_called_off(log, #[trigger] tasks@[i])
            &&& a == Action::UpdateItemStatus {
                item: tasks@[done as int],
                status: WorkItemStatus::Cancelled,
            }
        },
    }
}

spec fn holds_sweep(req: Request, log: Seq<(Action, Event)>, by: bool, w: Sweep) -> bool {
    sweeps(req, log, by, w.runs, w.done as int, w.stories@, w.at as int)
}

spec fn closing(req: Request, log: Seq<(Action, Event)>, by: bool, w: Sweep) -> bool {
    &&& holds_sweep(req, log, by, w)
    &&& w.done == w.runs@.len()
    &&& w.has_story()
    &&& counts(log, by, w.stopped, w.done as int)
}

proof fn stop_facts_stay(req: Request, log: Seq<(Action, Event)>)
    requires
        log.len() > 0,
    ensures
        forall|p: Project| #[trigger]
            is_named_project(req, log.drop_last(), p) ==> is_named_project(req, log, p),
        forall|w: DecompositionSession| #[trigger]
            is_named_wave(req, log.drop_last(), w) ==> is_named_wave(req, log, w),
        forall|v: Seq<Uuid>| #[trigger]
            are_to_stop(req, log.drop_last(), v) ==> are_to_stop(req, log, v),
        forall|v: Vec<AgentRun>| #[trigger]
            were_at_work(req, log.drop_last(), v) ==> were_at_work(req, log, v),
        forall|r: AgentRun| #[trigger]
            was_told_to_end(log.drop_last(), r) ==> was_told_to_end(log, r),
        forall|r: AgentRun| #[trigger] was_noted(log.drop_last(), r) ==> was_noted(log, r),
        forall|r: AgentRun| #[trigger] was_stopped(log.drop_last(), r) ==> was_stopped(log, r),
        forall|i: Uuid| #[trigger] was_called_off(log.drop_last(), i) ==> was_called_off(log, i),
        forall|s: Uuid, v: Seq<Uuid>| #[trigger]
            were_waiting(log.drop_last(), s, v) ==> were_waiting(log, s, v),
        forall|v: Seq<AgentRun>, k: int| #[trigger]
            agents_so_far(log.drop_last(), v, k) ==> agents_so_far(log, v, k),
        forall|v: Seq<Uuid>, k: int| #[trigger]
            stories_so_far(log.drop_last(), v, k) ==> stories_so_far(log, v, k),
        forall|v: Seq<Uuid>, k: int| #[trigger]
            closed_so_far(log.drop_last(), v, k) ==> closed_so_far(log, v, k),
        forall|v: Seq<AgentRun>, k: int, u: Seq<Uuid>| #[trigger]
            gathered(log.drop_last(), v, k, u) ==> gathered(log, v, k, u),
        forall|b: bool, v: Vec<AgentRun>, k: int, u: Seq<Uuid>, l: int| #[trigger]
            sweeps(req, log.drop_last(), b, v, k, u, l) ==> sweeps(req, log, b, v, k, u, l),
{
    crate::histories::had_more(log);
    let init = log.drop_last();
    assert forall|p: Project| #[trigger] is_named_project(req, init, p) implies is_named_project(
        req,
        log,
        p,
    ) by {}
    assert forall|w: DecompositionSession| #[trigger]
        is_named_wave(req, init, w) implies is_named_wave(req, log, w) by {
        let (project, wave) = choose|project: Project, wave: u32|
            is_named_project(req, init, project) && req.params@.natural_field("wave"@) is Some
                && wave == req.params@.natural_field("wave"@)->0 as u32 && #[trigger] had(
                init,
                Action::GetSessionByWave { project: project.id, wave },
                Event::MaybeSession(Ok(Some(w))),
            );
        assert(had(
            log,
            Action::GetSessionByWave { project: project.id, wave },
            Event::MaybeSession(Ok(Some(w))),
        ));
    }
    assert forall|v: Seq<Uuid>| #[trigger] are_to_stop(req, init, v) implies are_to_stop(
        req,
        log,
        v,
    ) by {
        if wants_story(req) {
            let story = choose|story: WorkItem| #[trigger]
                is_named_story(req, init, story) && v == seq![story.id];
            assert(is_named_story(req, log, story));
        }
    }
    assert forall|v: Vec<AgentRun>| #[trigger] were_at_work(req, init, v) implies were_at_work(
        req,
        log,
        v,
    ) by {
        if !wants_all(req) {
            let p = choose|p: Project| #[trigger]
                is_named_project(req, init, p) && had(
                    init,
                    Action::FindRunningAgents { project: p.id },
                    Event::AgentRuns(Ok(v)),
                );
            assert(is_named_project(req, log, p));
        }
    }
    assert forall|r: AgentRun| #[trigger] was_stopped(init, r) implies was_stopped(log, r) by {}
    assert forall|i: Uuid| #[trigger] was_called_off(init, i) implies was_called_off(log, i) by {}
    assert forall|s: Uuid, v: Seq<Uuid>| #[trigger]
        were_waiting(init, s, v) implies were_waiting(log, s, v) by {}
    assert forall|s: Uuid| #[trigger] is_closed(init, s) implies is_closed(log, s) by {
        let ids = choose|ids: Seq<Uuid>| #[trigger]
            were_waiting(init, s, ids) && forall|i: int|
                0 <= i < ids.len() ==> was_called_off(init, #[trigger] ids[i]);
        assert(were_waiting(log, s, ids));
        assert forall|i: int| 0 <= i < ids.len() implies was_called_off(
            log,
            #[trigger] ids[i],
        ) by {
            assert(was_called_off(init, ids[i]));
        }
        assert(is_cleared(log, s));
    }
    assert forall|s: Uuid| #[trigger] is_stopped(init, s) implies is_stopped(log, s) by {
        if !(exists|e: String| #[trigger]
            had(init, Action::FindRunningAgentsOfStory { story: s }, Event::AgentRuns(Err(e)))) {
            assert(is_closed(init, s));
            let v = choose|v: Vec<AgentRun>| #[trigger]
                had(init, Action::FindRunningAgentsOfStory { story: s }, Event::AgentRuns(Ok(v)))
                    && forall|i: int|
                    0 <= i < v@.len() ==> was_stopped(init, #[trigger] v@[i]);
            assert(had(
                log,
                Action::FindRunningAgentsOfStory { story: s },
                Event::AgentRuns(Ok(v)),
            ));
            assert forall|i: int| 0 <= i < v@.len() implies was_stopped(
                log,
                #[trigger] v@[i],
            ) by {
                assert(was_stopped(init, v@[i]));
            }
        }
    }
    assert forall|v: Seq<AgentRun>, k: int| #[trigger]
        agents_so_far(init, v, k) implies agents_so_far(log, v, k) by {
        assert forall|i: int| 0 <= i < k implies was_stopped(log, #[trigger] v[i]) by {
            assert(was_stopped(init, v[i]));
        }
    }
    assert forall|v: Seq<Uuid>, k: int| #[trigger]
        stories_so_far(init, v, k) implies stories_so_far(log, v, k) by {
        assert forall|i: int| 0 <= i < k implies is_stopped(log, #[trigger] v[i]) by {
            assert(is_stopped(init, v[i]));
        }
    }
    assert forall|v: Seq<Uuid>, k: int| #[trigger]
        closed_so_far(init, v, k) implies closed_so_far(log, v, k) by {
        assert forall|i: int| 0 <= i < k implies is_closed(log, #[trigger] v[i]) by {
            assert(is_closed(init, v[i]));
        }
    }
    assert forall|v: Seq<AgentRun>, k: int, u: Seq<Uuid>| #[trigger]
        gathered(init, v, k, u) implies gathered(log, v, k, u) by {
        assert forall|j: int| 0 <= j < u.len() implies is_of_one(log, v, #[trigger] u[j]) by {
            assert(is_of_one(init, v, u[j]));
        }
        assert forall|i: int| 0 <= i < k implies story_is_counted(log, #[trigger] v[i], u) by {
            assert(story_is_counted(init, v[i], u));
        }
    }
}

proof fn stop_keeps(req: Request, log: Seq<(Action, Event)>, s: ExecStop, a: Action)
    requires
        reaches(req, log, Next::Act(s, a)),
    ensures
        stop_holds(req, log, s, a),
    decreases log.len(),
{
    if log.len() > 0 {
        let (b, ev) = log.last();
        let before = crate::histories::before_last::<ExecStop>(req, log, Next::Act(s, a));
        stop_keeps(req, log.drop_last(), before, b);
        stop_step(req, log, before, Next::Act(s, a));
    }
}

/// What an answer of a stopping that went well says: the number of runs that were noted as
/// stopped, and that of the stories.
pub open spec fn tells_of_stopping(req: Request, log: Seq<(Action, Event)>, data: JsonV) -> bool {
    &&& notes(log) <= u64::MAX ==> data.field("agents_stopped"@) == Some(
        JsonV::Int(notes(log) as int),
    )
    &&& if wants_story(req) || wants_wave(req) {
        exists|ids: Seq<Uuid>| #[trigger]
            are_to_stop(req, log, ids) && (forall|i: int|
                0 <= i < ids.len() ==> is_stopped(log, #[trigger] ids[i])) && (wants_wave(req)
                ==> data.field("stories_cancelled"@) == Some(JsonV::Int(ids.len() as int)))
    } else {
        exists|runs: Vec<AgentRun>, ids: Seq<Uuid>|
            #[trigger] stops_all(req, log, runs, ids) && data.field("stories_cancelled"@) == Some(
                JsonV::Int(ids.len() as int),
            )
    }
    &&& wants_story(req) ==> data.text_field("story_id"@) == req.params@.text_field("story_id"@)
    &&& wants_wave(req) ==> data.field("wave"@) == Some(
        JsonV::Int((req.params@.natural_field("wave"@)->0 as u32) as int),
    )
}

/// Whether the agents that were found are stopped, and the stories of their tasks are closed,
/// each once.
pub open spec fn stops_all(
    req: Request,
    log: Seq<(Action, Event)>,
    runs: Vec<AgentRun>,
    ids: Seq<Uuid>,
) -> bool {
    &&& were_at_work(req, log, runs)
    &&& forall|i: int|
        0 <= i < runs@.len() ==> was_stopped(log, #[trigger] runs@[i]) && story_is_counted(
            log,
            runs@[i],
            ids,
        )
    &&& ids.no_duplicates()
    &&& forall|j: int|
        0 <= j < ids.len() ==> is_of_one(log, runs@, #[trigger] ids[j]) && is_closed(log, ids[j])
}

spec fn goes_well(req: Request, log: Seq<(Action, Event)>, n: Next<ExecStop>) -> bool {
    &&& n matches Next::Act(t, a) ==> stop_holds(req, log, t, a)
    &&& n matches Next::Reply(r) ==> r.id == req.id && r.status == ResponseStatus::Success
        && tells_of_stopping(req, log, r.data@)
    &&& !(n is End)
}

proof fn stop_fields(target: StopTarget, stopped: int, stories: nat)
    ensures
        crate::stop::stop_data(target, stopped, stories).field("agents_stopped"@) == Some(
            JsonV::Int(stopped),
        ),
        !(target is Story) ==> crate::stop::stop_data(target, stopped, stories).field(
            "stories_cancelled"@,
        ) == Some(JsonV::Int(stories as int)),
        target is Story ==> crate::stop::stop_data(target, stopped, stories).text_field(
            "story_id"@,
        ) == Some(target->Story_story_id@),
        target is Wave ==> crate::stop::stop_data(target, stopped, stories).field("wave"@) == Some(
            JsonV::Int(target->Wave_wave as int),
        ),
{
    broadcast use crate::histories::field_of_with;

    reveal_strlit("agents_stopped");
    reveal_strlit("stories_cancelled");
    reveal_strlit("story_id");
    reveal_strlit("wave");
    assert("agents_stopped"@.len() == 14);
    assert("stories_cancelled"@.len() == 17);
    assert("story_id"@.len() == 8);
    assert("wave"@.len() == 4);
}

proof fn stop_visits(
    req: Request,
    log: Seq<(Action, Event)>,
    job: StopJob,
    stories: Seq<Uuid>,
    at: int,
    stopped: u64,
    n: Next<ExecStop>,
)
    requires
        job.id == req.id,
        ExecStop::asks(req.params@, job.target),
        job.target.by_story(),
        are_to_stop(req, log, stories),
        stories_so_far(log, stories, at),
        counts(log, true, stopped, 0),
        ExecStop::visits(job, stories, at, stopped, n),
    ensures
        goes_well(req, log, n),
{
    if at == stories.len() {
        stop_fields(job.target, stopped as int, stories.len());
    }
}

proof fn stop_closes(
    req: Request,
    log: Seq<(Action, Event)>,
    job: StopJob,
    runs: Vec<AgentRun>,
    done: int,
    stories: Seq<Uuid>,
    at: int,
    stopped: u64,
    n: Next<ExecStop>,
)
    requires
        job.id == req.id,
        ExecStop::asks(req.params@, job.target),
        done == runs@.len(),
        0 <= at,
        sweeps(req, log, job.target.by_story(), runs, done, stories, at),
        counts(log, job.target.by_story(), stopped, done),
        ExecStop::closes(job, runs, done, stories, at, stopped, n),
    ensures
        goes_well(req, log, n),
{
    if at == stories.len() {
        stop_fields(job.target, runs@.len() as int, stories.len());
        assert forall|i: int| 0 <= i < runs@.len() implies was_stopped(log, #[trigger] runs@[i])
            && story_is_counted(log, runs@[i], stories) by {}
        assert forall|j: int| 0 <= j < stories.len() implies is_of_one(
            log,
            runs@,
            #[trigger] stories[j],
        ) && is_closed(log, stories[j]) by {}
        assert(stops_all(req, log, runs, stories));
    }
}

proof fn stop_stops(
    req: Request,
    log: Seq<(Action, Event)>,
    job: StopJob,
    runs: Vec<AgentRun>,
    done: int,
    stories: Seq<Uuid>,
    at: int,
    stopped: u64,
    n: Next<ExecStop>,
)
    requires
        job.id == req.id,
        ExecStop::asks(req.params@, job.target),
        0 <= at,
        sweeps(req, log, job.target.by_story(), runs, done, stories, at),
        counts(log, job.target.by_story(), stopped, done),
        ExecStop::stops(job, runs, done, stories, at, stopped, n),
    ensures
        goes_well(req, log, n),
{
    if done == runs@.len() {
        stop_closes(req, log, job, runs, done, stories, at, stopped, n);
    }
}

proof fn stop_cancels(
    req: Request,
    log: Seq<(Action, Event)>,
    job: StopJob,
    sweep: Sweep,
    tasks: Seq<Uuid>,
    done: int,
    n: Next<ExecStop>,
)
    requires
        job.id == req.id,
        ExecStop::asks(req.params@, job.target),
        closing(req, log, job.target.by_story(), sweep),
        was_called_off(log, sweep.stories@[sweep.at as int]),
        were_waiting(log, sweep.stories@[sweep.at as int], tasks),
        0 <= done <= tasks.len(),
        forall|i: int| 0 <= i < done ==> was_called_off(log, #[trigger] tasks[i]),
        ExecStop::cancels(job, sweep, tasks, done, n),
    ensures
        goes_well(req, log, n),
{
    if done == tasks.len() {
        let story = sweep.stories@[sweep.at as int];
        assert(is_cleared(log, story));
        assert(is_closed(log, story));
        if job.target.by_story() {
            assert(had(
                log,
                Action::FindRunningAgentsOfStory { story },
                Event::AgentRuns(Ok(sweep.runs)),
            ));
            assert(is_stopped(log, story));
            stop_visits(
                req,
                log,
                job,
                sweep.stories@,
                sweep.at + 1,
                crate::stop::counted(sweep.stopped, sweep.runs@.len()),
                n,
            );
        } else {
            assert(closed_so_far(log, sweep.stories@, sweep.at + 1));
            stop_closes(
                req,
                log,
                job,
                sweep.runs,
                sweep.done as int,
                sweep.stories@,
                sweep.at + 1,
                sweep.stopped,
                n,
            );
        }
    }
}

/// Why a stopping fails: nothing tells what is to be stopped, it was not found, it is not at
/// work, or the database failed.
pub open spec fn may_fail(req: Request, log: Seq<(Action, Event)>) -> bool {
    match log.last() {
        (Action::OpenDb, Event::Done(r)) => r is Err || (!wants_all(req) && !wants_story(req)
            && req.params@.text_field("project_name"@) is None),
        (Action::FindItemByWaveId { .. }, Event::MaybeItem(r)) => r matches Ok(Some(story))
            ==> story.item_type != ItemType::Story || (story.status != WorkItemStatus::InProgress
            && story.status != WorkItemStatus::Ready),
        (Action::GetProjectByName { .. }, Event::MaybeProject(r)) => !(r matches Ok(Some(_))),
        (Action::GetSessionByWave { .. }, Event::MaybeSession(r)) => !(r matches Ok(Some(_))),
        (Action::ListStories { .. }, Event::WorkItems(r)) => r is Err,
        (Action::FindAllRunningAgents, Event::AgentRuns(r)) => r is Err,
        (Action::FindRunningAgents { .. }, Event::AgentRuns(r)) => r is Err,
        _ => false,
    }
}

/// One step of a stopping.
#[verifier::rlimit(40)]
proof fn stop_step(req: Request, log: Seq<(Action, Event)>, before: ExecStop, n: Next<ExecStop>)
    requires
        log.len() > 0,
        stop_holds(req, log.drop_last(), before, log.last().0),
        before.follows(log.last().1, n),
    ensures
        if n is Reply && n->Reply_0.status == ResponseStatus::Error {
            n->Reply_0.id == req.id && may_fail(req, log)
        } else {
            goes_well(req, log, n) && !may_fail(req, log)
        },
{
    let (b, ev) = log.last();
    let init = log.drop_last();
    let job = before.job;
    let by = job.target.by_story();
    crate::histories::had_more(log);
    stop_facts_stay(req, log);
    assert(had(log, b, ev));
    match (before.at, ev) {
        (StopStep::Story, Event::MaybeItem(r)) => {
            match r {
                Ok(Some(story)) => {
                    assert(crate::cancel_laws::is_found(req, log, story));
                    if story.item_type == ItemType::Story && (story.status
                        == WorkItemStatus::InProgress || story.status == WorkItemStatus::Ready) {
                        assert(is_named_story(req, log, story));
                        stop_visits(req, log, job, seq![story.id], 0, 0, n);
                    }
                },
                _ => {},
            }
        },
        (StopStep::Project, Event::MaybeProject(r)) => {
            match r {
                Ok(Some(project)) => {
                    assert(is_named_project(req, log, project));
                },
                _ => {},
            }
        },
        (StopStep::Session, Event::MaybeSession(r)) => {
            match r {
                Ok(Some(session)) => {
                    let p = choose|p: Project| #[trigger]
                        is_named_project(req, init, p) && p.id == b->GetSessionByWave_project;
                    assert(is_named_project(req, log, p));
                    assert(had(
                        log,
                        Action::GetSessionByWave { project: p.id, wave: b->GetSessionByWave_wave },
                        Event::MaybeSession(Ok(Some(session))),
                    ));
                    assert(is_named_wave(req, log, session));
                },
                _ => {},
            }
        },
        (StopStep::Stories, Event::WorkItems(r)) => {
            match r {
                Ok(v) => {
                    let session = choose|session: DecompositionSession| #[trigger]
                        is_named_wave(req, init, session) && b == (Action::ListStories {
                            session: session.id,
                        });
                    assert(is_named_wave(req, log, session));
                    active_are_in_progress(v@);
                    assert(had(
                        log,
                        Action::ListStories { session: session.id },
                        Event::WorkItems(Ok(v)),
                    ));
                    stop_visits(
                        req,
                        log,
                        job,
                        crate::stop::active_stories(v@),
                        0,
                        0,
                        n,
                    );
                },
                Err(_) => {},
            }
        },
        (StopStep::Running, Event::AgentRuns(r)) => {
            match r {
                Ok(runs) => {
                    if !wants_all(req) {
                        let p = choose|p: Project| #[trigger]
                            is_named_project(req, init, p) && b == (Action::FindRunningAgents {
                                project: p.id,
                            });
                        assert(is_named_project(req, log, p));
                    }
                    assert(were_at_work(req, log, runs));
                    stop_stops(req, log, job, runs, 0, Seq::empty(), 0, 0, n);
                },
                Err(_) => {},
            }
        },
        (StopStep::StoryRuns { sweep }, Event::AgentRuns(r)) => {
            let story = sweep.stories@[sweep.at as int];
            match r {
                Ok(runs) => {
                    stop_stops(
                        req,
                        log,
                        job,
                        runs,
                        0,
                        sweep.stories@,
                        sweep.at as int,
                        sweep.stopped,
                        n,
                    );
                },
                Err(e) => {
                    assert(had(
                        log,
                        Action::FindRunningAgentsOfStory { story },
                        Event::AgentRuns(Err(e)),
                    ));
                    assert(is_stopped(log, story));
                    stop_visits(
                        req,
                        log,
                        job,
                        sweep.stories@,
                        sweep.at + 1,
                        sweep.stopped,
                        n,
                    );
                },
            }
        },
        (StopStep::Kill { sweep }, Event::Done(_)) => {
            let run = sweep.runs@[sweep.done as int];
            assert(was_told_to_end(log, run));
        },
        (StopStep::Finish { sweep }, Event::Done(_)) => {
            let run = sweep.runs@[sweep.done as int];
            assert(was_noted(log, run));
        },
        (StopStep::Fail { sweep }, Event::Done(_)) => {
            let run = sweep.runs@[sweep.done as int];
            assert(had(
                log,
                Action::UpdateItemStatus { item: run.work_item_id, status: WorkItemStatus::Failed },
                ev,
            ));
            assert(was_stopped(log, run));
            if by {
                assert(agents_so_far(log, sweep.runs@, sweep.done + 1));
                stop_stops(
                    req,
                    log,
                    job,
                    sweep.runs,
                    sweep.done + 1,
                    sweep.stories@,
                    sweep.at as int,
                    sweep.stopped,
                    n,
                );
            }
        },
        (StopStep::Parent { sweep }, Event::MaybeItem(r)) => {
            let run = sweep.runs@[sweep.done as int];
            let more = match r {
                Ok(Some(task)) => match task.parent_id {
                    Some(story) => crate::stop::with_story(sweep.stories@, story),
                    None => sweep.stories@,
                },
                _ => sweep.stories@,
            };
            stop_gathers(log, sweep.runs@, sweep.done as int, sweep.stories@, r);
            assert(agents_so_far(log, sweep.runs@, sweep.done + 1));
            assert(closed_so_far(log, more, sweep.at as int));
            stop_stops(
                req,
                log,
                job,
                sweep.runs,
                sweep.done + 1,
                more,
                sweep.at as int,
                sweep.stopped,
                n,
            );
        },
        (StopStep::Mark { sweep }, Event::Done(_)) => {
            let story = sweep.stories@[sweep.at as int];
            assert(had(
                log,
                Action::UpdateItemStatus { item: story, status: WorkItemStatus::Cancelled },
                ev,
            ));
            assert(was_called_off(log, story));
        },
        (StopStep::Tasks { sweep }, Event::WorkItems(r)) => {
            let story = sweep.stories@[sweep.at as int];
            let ids = match r {
                Ok(v) => crate::stories::tasks_in(v@, WorkItemStatus::Pending),
                Err(_) => Seq::empty(),
            };
            match r {
                Ok(v) => {
                    crate::cancel_laws::picked_are_waiting(v@);
                    assert(had(
                        log,
                        Action::ListChildren { parent: story },
                        Event::WorkItems(Ok(v)),
                    ));
                },
                Err(e) => {
                    assert(had(
                        log,
                        Action::ListChildren { parent: story },
                        Event::WorkItems(Err(e)),
                    ));
                },
            }
            assert(were_waiting(log, story, ids));
            stop_cancels(req, log, job, sweep, ids, 0, n);
        },
        (StopStep::Cancel { sweep, tasks, done }, Event::Done(_)) => {
            assert(had(
                log,
                Action::UpdateItemStatus {
                    item: tasks@[done as int],
                    status: WorkItemStatus::Cancelled,
                },
                ev,
            ));
            assert(was_called_off(log, tasks@[done as int]));
            assert forall|i: int| 0 <= i < done + 1 implies was_called_off(
                log,
                #[trigger] tasks@[i],
            ) by {
                if i < done {
                    assert(was_called_off(init, tasks@[i]));
                }
            }
            stop_cancels(req, log, job, sweep, tasks@, done + 1, n);
        },
        _ => {},
    }
}

proof fn stop_gathers(
    log: Seq<(Action, Event)>,
    runs: Seq<AgentRun>,
    done: int,
    stories: Seq<Uuid>,
    r: Result<Option<WorkItem>, String>,
)
    requires
        0 <= done < runs.len(),
        gathered(log, runs, done, stories),
        had(log, Action::GetItem { item: runs[done].work_item_id }, Event::MaybeItem(r)),
    ensures
        gathered(
            log,
            runs,
            done + 1,
            match r {
                Ok(Some(task)) => match task.parent_id {
                    Some(story) => crate::stop::with_story(stories, story),
                    None => stories,
                },
                _ => stories,
            },
        ),
{
    let more = match r {
        Ok(Some(task)) => match task.parent_id {
            Some(story) => crate::stop::with_story(stories, story),
            None => stories,
        },
        _ => stories,
    };
    assert(runs.contains(runs[done]));
    match r {
        Ok(Some(task)) => {
            match task.parent_id {
                Some(story) => {
                    crate::stop::law_stories_are_cancelled_once(stories, story);
                    assert(is_of_one(log, runs, story));
                },
                None => {},
            }
        },
        _ => {},
    }
    assert forall|j: int| 0 <= j < more.len() implies is_of_one(log, runs, #[trigger] more[j]) by {
        if j < stories.len() {
            assert(is_of_one(log, runs, stories[j]));
        }
    }
    assert forall|i: int| 0 <= i < done + 1 implies story_is_counted(
        log,
        #[trigger] runs[i],
        more,
    ) by {
        if i < done {
            assert(story_is_counted(log, runs[i], stories));
            let e = choose|e: Event| #[trigger]
                had(log, Action::GetItem { item: runs[i].work_item_id }, e) && (e
                    matches Event::MaybeItem(Ok(Some(task))) ==> task.parent_id is Some
                    ==> stories.contains(task.parent_id->0));
            match e {
                Event::MaybeItem(Ok(Some(task))) => {
                    if task.parent_id is Some {
                        let k = choose|k: int|
                            0 <= k < stories.len() && stories[k] == task.parent_id->0;
                        assert(more[k] == task.parent_id->0);
                    }
                },
                _ => {},
            }
        } else {
            assert(had(
                log,
                Action::GetItem { item: runs[done].work_item_id },
                Event::MaybeItem(r),
            ));
        }
    }
}

/// Whether the agent is one of those to be stopped.
pub open spec fn is_to_end(req: Request, log: Seq<(Action, Event)>, run: AgentRun) -> bool {
    ||| exists|runs: Vec<AgentRun>| #[trigger] were_at_work(req, log, runs) && runs@.contains(run)
    ||| exists|ids: Seq<Uuid>, story: Uuid, runs: Vec<AgentRun>|
        are_to_stop(req, log, ids) && #[trigger] ids.contains(story) && #[trigger] had(
            log,
            Action::FindRunningAgentsOfStory { story },
            Event::AgentRuns(Ok(runs)),
        ) && runs@.contains(run)
}

/// Whether the story is one of those to be cancelled: one that was asked for, the agents of which
/// are stopped, or one that a stopped agent worked on.
pub open spec fn is_to_close(req: Request, log: Seq<(Action, Event)>, story: Uuid) -> bool {
    ||| exists|ids: Seq<Uuid>, runs: Vec<AgentRun>|
        are_to_stop(req, log, ids) && #[trigger] ids.contains(story) && #[trigger] had(
            log,
            Action::FindRunningAgentsOfStory { story },
            Event::AgentRuns(Ok(runs)),
        ) && forall|i: int| 0 <= i < runs@.len() ==> was_stopped(log, #[trigger] runs@[i])
    ||| exists|runs: Vec<AgentRun>| #[trigger]
        were_at_work(req, log, runs) && is_of_one(log, runs@, story) && forall|i: int|
            0 <= i < runs@.len() ==> was_stopped(log, #[trigger] runs@[i])
}

/// Stopping touches nothing but the agents that are to be stopped, their tasks, and the stories
/// that they are stopped for: a process is asked to terminate, then its run is noted as
/// cancelled, then its task as failed, and when all agents are stopped the stories are
/// cancelled, with those of their tasks that wait.
pub proof fn law_what_a_stop_does(req: Request, log: Seq<(Action, Event)>, s: ExecStop, a: Action)
    requires
        reaches(req, log, Next::Act(s, a)),
    ensures
        match a {
            Action::OpenDb => log.len() == 0,
            Action::FindItemByWaveId { text } => wants_story(req)
                && req.params@.text_field("story_id"@) == Some(text@),
            Action::GetProjectByName { name } => !wants_all(req) && !wants_story(req)
                && req.params@.text_field("project_name"@) == Some(name@),
            Action::GetSessionByWave { project, wave } => wants_wave(req) && wave
                == req.params@.natural_field("wave"@)->0 as u32 && exists|p: Project| #[trigger]
                is_named_project(req, log, p) && p.id == project,
            Action::ListStories { session } => wants_wave(req) && exists|w: DecompositionSession|
                #[trigger] is_named_wave(req, log, w) && w.id == session,
            Action::FindAllRunningAgents => wants_all(req),
            Action::FindRunningAgents { project } => !wants_all(req) && !wants_story(req)
                && !wants_wave(req) && exists|p: Project| #[trigger]
                is_named_project(req, log, p) && p.id == project,
            Action::FindRunningAgentsOfStory { story } => exists|ids: Seq<Uuid>| #[trigger]
                are_to_stop(req, log, ids) && ids.contains(story),
            Action::Terminate { pid } => exists|run: AgentRun| #[trigger]
                is_to_end(req, log, run) && run.pid == Some(pid),
            Action::Now => true,
            Action::FinishRun { at, .. } => just(log, Action::Now, Event::Time(at)) && exists|
                run: AgentRun,
            | #[trigger]
                is_to_end(req, log, run) && is_note(a, run) && was_told_to_end(log, run),
            Action::GetItem { item } => exists|run: AgentRun| #[trigger]
                is_to_end(req, log, run) && run.work_item_id == item && was_stopped(log, run),
            Action::UpdateItemStatus { item, status } => {
                ||| status == WorkItemStatus::Failed && exists|run: AgentRun| #[trigger]
                    is_to_end(req, log, run) && run.work_item_id == item && was_told_to_end(
                        log,
                        run,
                    ) && was_noted(log, run)
                ||| status == WorkItemStatus::Cancelled && exists|story: Uuid| #[trigger]
                    is_to_close(req, log, story) && (item == story || (was_called_off(log, story)
                        && exists|ids: Seq<Uuid>| #[trigger]
                        were_waiting(log, story, ids) && ids.contains(item)))
            },
            Action::ListChildren { parent } => is_to_close(req, log, parent) && was_called_off(
                log,
                parent,
            ),
            _ => false,
        },
{
    stop_keeps(req, log, s, a);
    let by = s.job.target.by_story();
    match s.at {
        StopStep::StoryRuns { sweep } => {
            assert(sweep.stories@.contains(sweep.stories@[sweep.at as int]));
        },
        StopStep::Kill { sweep } => {
            stop_run_is_to_end(req, log, by, sweep);
        },
        StopStep::Finish { sweep } => {
            stop_run_is_to_end(req, log, by, sweep);
        },
        StopStep::Fail { sweep } => {
            stop_run_is_to_end(req, log, by, sweep);
        },
        StopStep::Parent { sweep } => {
            stop_run_is_to_end(req, log, by, sweep);
        },
        StopStep::Mark { sweep } => {
            stop_story_is_to_close(req, log, by, sweep);
        },
        StopStep::Tasks { sweep } => {
            stop_story_is_to_close(req, log, by, sweep);
        },
        StopStep::Cancel { sweep, tasks, done } => {
            stop_story_is_to_close(req, log, by, sweep);
            assert(tasks@.contains(tasks@[done as int]));
        },
        _ => {},
    }
}

proof fn stop_run_is_to_end(req: Request, log: Seq<(Action, Event)>, by: bool, sweep: Sweep)
    requires
        holds_sweep(req, log, by, sweep),
        sweep.has_run(),
    ensures
        is_to_end(req, log, sweep.runs@[sweep.done as int]),
{
    let run = sweep.runs@[sweep.done as int];
    assert(sweep.runs@.contains(run));
    if by {
        let story = sweep.stories@[sweep.at as int];
        assert(sweep.stories@.contains(story));
        assert(had(
            log,
            Action::FindRunningAgentsOfStory { story },
            Event::AgentRuns(Ok(sweep.runs)),
        ));
    }
}

proof fn stop_story_is_to_close(req: Request, log: Seq<(Action, Event)>, by: bool, sweep: Sweep)
    requires
        closing(req, log, by, sweep),
    ensures
        is_to_close(req, log, sweep.stories@[sweep.at as int]),
{
    let story = sweep.stories@[sweep.at as int];
    if by {
        assert(sweep.stories@.contains(story));
        assert(had(
            log,
            Action::FindRunningAgentsOfStory { story },
            Event::AgentRuns(Ok(sweep.runs)),
        ));
    } else {
        assert(is_of_one(log, sweep.runs@, story));
        assert(were_at_work(req, log, sweep.runs));
    }
}

/// A stopping that goes well has stopped every agent that was found, has closed every story that
/// is to be closed, and tells how many. It fails only where nothing tells what is to be stopped,
/// where that was not found or is not at work, or where the database failed to say so.
pub proof fn law_what_a_stop_comes_to(req: Request, log: Seq<(Action, Event)>, n: Next<ExecStop>)
    requires
        reaches(req, log, n),
    ensures
        !(n is End),
        log.len() > 0 ==> (may_fail(req, log) <==> n is Reply && n->Reply_0.status
            == ResponseStatus::Error),
        n matches Next::Reply(r) ==> r.id == req.id && (r.status == ResponseStatus::Success
            ==> tells_of_stopping(req, log, r.data@)),
{
    if log.len() > 0 {
        let before = crate::histories::before_last::<ExecStop>(req, log, n);
        stop_keeps(req, log.drop_last(), before, log.last().0);
        stop_step(req, log, before, n);
    }
}

} // verus!
