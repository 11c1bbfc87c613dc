//! What holds of every start of an agent, whichever command asks for it.
use vstd::prelude::*;
use crate::claude::{RunConfig, RunKind};
use crate::effects::{Action, Event, Template};
use crate::histories::had;
use crate::launch::{Launch, LaunchMode, LaunchNext, LaunchStep, Launching};
use crate::model::{AgentRun, AgentRunStatus, ItemType, Project, TaskKind, WorkItem, WorkItemStatus};

verus! {

/// Whether the project is that of the wave.
pub open spec fn is_project_of(
    log: Seq<(Action, Event)>,
    session: crate::ident::Uuid,
    project: Project,
) -> bool {
    exists|s: crate::model::DecompositionSession|
        had(log, Action::GetSession { session }, Event::MaybeSession(Ok(Some(s)))) && #[trigger] had(
            log,
            Action::GetProjectById { project: s.project_id },
            Event::MaybeProject(Ok(Some(project))),
        )
}

/// Whether the action fills a template for the launched task: one that verifies is told of the one
/// before it, and one that implements is told of exactly those implementations of the story that are
/// done.
pub open spec fn tells_of(
    log: Seq<(Action, Event)>,
    launch: Launch,
    action: Action,
) -> bool {
    match action {
        Action::RenderVerifyPrompt { task, impl_task, template, project_name } => {
            &&& launch.task.kind == Some(TaskKind::Verify)
            &&& task == launch.task
            &&& exists|project: Project|
                #[trigger] is_project_of(log, launch.session, project) && project_name
                    == project.name
            &&& exists|dir: Option<String>| #[trigger] had(
                log,
                Action::LoadTemplate { template: Template::VerifyTask, dir },
                Event::Text(Ok(template)),
            )
            &&& exists|v: Vec<WorkItem>| #[trigger] had(
                log,
                Action::ListChildren { parent: launch.story },
                Event::WorkItems(Ok(v)),
            ) && verifies(v@, task, impl_task)
        },
        Action::RenderTaskPrompt { template, task, completed, project_name, previous_error } => {
            &&& launch.task.kind != Some(TaskKind::Verify)
            &&& task == launch.task
            &&& exists|project: Project|
                #[trigger] is_project_of(log, launch.session, project) && project_name
                    == project.name
            &&& exists|dir: Option<String>| #[trigger] had(
                log,
                Action::LoadTemplate { template: Template::ImplTask, dir },
                Event::Text(Ok(template)),
            )
            &&& exists|v: Vec<WorkItem>| #[trigger] had(
                log,
                Action::ListChildren { parent: launch.story },
                Event::WorkItems(Ok(v)),
            ) && forall|t: WorkItem| #[trigger]
                completed@.contains(t) <==> v@.contains(t) && is_done_impl(t) && (launch.mode
                    == LaunchMode::Retry || t.id != task.id)
            &&& launch.mode != LaunchMode::Retry ==> previous_error@ == ""@
            &&& launch.mode == LaunchMode::Retry ==> exists|
                r: crate::effects::Outcome<Option<AgentRun>>,
            | #[trigger] had(
                log,
                Action::FindLatestRun { task: task.id },
                Event::MaybeRun(r),
            ) && previous_error@ == match r {
                Ok(Some(AgentRun { error_message: Some(e), .. })) => e@,
                _ => ""@,
            }
        },
        _ => false,
    }
}

/// Whether the task is an implementation that is done.
pub open spec fn is_done_impl(t: WorkItem) -> bool {
    t.item_type == ItemType::Task && t.kind == Some(TaskKind::Impl) && t.status
        == WorkItemStatus::Done
}

/// Whether `checked` is what `task` verifies: an implementation of the same story that stands one
/// place before it, or the task itself where there is none.
pub open spec fn verifies(tasks: Seq<WorkItem>, task: WorkItem, checked: WorkItem) -> bool {
    ||| {
        &&& tasks.contains(checked)
        &&& checked.item_type == ItemType::Task
        &&& checked.kind == Some(TaskKind::Impl)
        &&& checked.parent_id == task.parent_id
        &&& checked.sort_order + 1 == task.sort_order
    }
    ||| {
        &&& checked == task
        &&& forall|t: WorkItem| #[trigger]
            tasks.contains(t) ==> !(t.item_type == ItemType::Task && t.kind == Some(TaskKind::Impl)
                && t.parent_id == task.parent_id && t.sort_order + 1 == task.sort_order)
    }
}

/// Whether the agent is set to work on the task: in the worktree of the story, with the prompt
/// that was made for the task and written to a file.
pub open spec fn is_set_on(log: Seq<(Action, Event)>, launch: Launch, config: RunConfig) -> bool {
    &&& launch.worktree is Some
    &&& config.working_dir == launch.worktree
    &&& config.resume_session is None
    &&& config.kind == (if launch.task.kind == Some(TaskKind::Verify) {
        RunKind::Verify
    } else {
        RunKind::Impl
    })
    &&& config.prompt@ == "Implement the task as described in the system prompt file. Task: ["@
        + launch.task.short_id@ + "] "@ + launch.task.title@
    &&& config.system_prompt_file matches Some(path) && is_prompt_file(log, launch, path)
}

/// Whether the file holds the prompt of the task.
pub open spec fn is_prompt_file(log: Seq<(Action, Event)>, launch: Launch, path: String) -> bool {
    exists|asked: Action, content: String|
        had(log, Action::WriteFile { path, content }, Event::Done(Ok(()))) && #[trigger] had(
            log,
            asked,
            Event::Text(Ok(content)),
        ) && tells_of(log, launch, asked)
}

/// Whether the run is noted for the task, with the process that was started for it.
pub open spec fn is_noted(log: Seq<(Action, Event)>, launch: Launch, run: AgentRun) -> bool {
    &&& run.work_item_id == launch.task.id
    &&& run.status == AgentRunStatus::Running
    &&& run.exit_code is None
    &&& run.error_message is None
    &&& run.finished_at is None
    &&& run.pid matches Some(pid) && exists|config: RunConfig| #[trigger]
        had(log, Action::SpawnAgent { config }, Event::Pid(Ok(pid))) && is_set_on(
            log,
            launch,
            config,
        )
}

/// Whether an agent is at work on the task: it was started for it, and its run is recorded.
pub open spec fn is_at_work(log: Seq<(Action, Event)>, launch: Launch) -> bool {
    exists|run: AgentRun|
        #[trigger] had(log, Action::InsertAgentRun { run }, Event::Done(Ok(()))) && is_noted(
            log,
            launch,
            run,
        )
}

/// What holds while an agent is being started.
pub open spec fn launch_holds(log: Seq<(Action, Event)>, l: Launching, a: Action) -> bool {
    let launch = l.launch;
    match l.at {
        LaunchStep::Session => a == Action::GetSession { session: launch.session },
        LaunchStep::Project => exists|s: crate::model::DecompositionSession|
            #[trigger] had(
                log,
                Action::GetSession { session: launch.session },
                Event::MaybeSession(Ok(Some(s))),
            ) && a == (Action::GetProjectById { project: s.project_id }),
        LaunchStep::Home { project } => a is NflowHome && launch.worktree is Some && is_project_of(
            log,
            launch.session,
            project,
        ),
        LaunchStep::Prompts { project, .. } => a is IsDir && launch.worktree is Some
            && is_project_of(log, launch.session, project),
        LaunchStep::Load { project, .. } => {
            &&& launch.worktree is Some
            &&& is_project_of(log, launch.session, project)
            &&& a matches Action::LoadTemplate { template, .. }
            &&& template == if launch.task.kind == Some(TaskKind::Verify) {
                Template::VerifyTask
            } else {
                Template::ImplTask
            }
        },
        LaunchStep::Siblings { project, template, .. } => {
            &&& launch.worktree is Some
            &&& is_project_of(log, launch.session, project)
            &&& is_loaded(log, launch, template)
            &&& a == Action::ListChildren { parent: launch.story }
        },
        LaunchStep::LatestRun { project, template, completed, .. } => {
            &&& launch.worktree is Some
            &&& is_project_of(log, launch.session, project)
            &&& is_loaded(log, launch, template)
            &&& launch.mode == LaunchMode::Retry
            &&& launch.task.kind != Some(TaskKind::Verify)
            &&& are_completed(log, launch, completed@)
            &&& a == Action::FindLatestRun { task: launch.task.id }
        },
        LaunchStep::Render { project, home } => {
            &&& launch.worktree is Some
            &&& tells_of(log, launch, a)
        },
        LaunchStep::LogsDir { prompt, .. } => {
            &&& launch.worktree is Some
            &&& a is CreateDir
            &&& exists|asked: Action|
                #[trigger] had(log, asked, Event::Text(Ok(prompt))) && tells_of(log, launch, asked)
        },
        LaunchStep::WritePrompt { file, .. } => {
            &&& launch.worktree is Some
            &&& a matches Action::WriteFile { path, content }
            &&& path == file
            &&& exists|asked: Action|
                #[trigger] had(log, asked, Event::Text(Ok(content))) && tells_of(log, launch, asked)
        },
        LaunchStep::Spawn { .. } => a matches Action::SpawnAgent { config } && is_set_on(
            log,
            launch,
            config,
        ),
        LaunchStep::ProcStat { pid, .. } => a == (Action::ReadProcStat { pid }) && is_spawned(
            log,
            launch,
            pid,
        ),
        LaunchStep::Stamp { pid, .. } => a is Stamp && is_spawned(log, launch, pid),
        LaunchStep::Insert { .. } => a matches Action::InsertAgentRun { run } && is_noted(
            log,
            launch,
            run,
        ),
        LaunchStep::Pipe => a is PipeAgent && is_at_work(log, launch),
    }
}

pub open spec fn is_loaded(log: Seq<(Action, Event)>, launch: Launch, template: String) -> bool {
    if launch.task.kind == Some(TaskKind::Verify) {
        exists|dir: Option<String>| #[trigger] had(
            log,
            Action::LoadTemplate { template: Template::VerifyTask, dir },
            Event::Text(Ok(template)),
        )
    } else {
        exists|dir: Option<String>| #[trigger] had(
            log,
            Action::LoadTemplate { template: Template::ImplTask, dir },
            Event::Text(Ok(template)),
        )
    }
}

pub open spec fn are_completed(
    log: Seq<(Action, Event)>,
    launch: Launch,
    completed: Seq<WorkItem>,
) -> bool {
    exists|v: Vec<WorkItem>| #[trigger] had(
        log,
        Action::ListChildren { parent: launch.story },
        Event::WorkItems(Ok(v)),
    ) && forall|t: WorkItem| #[trigger]
        completed.contains(t) <==> v@.contains(t) && is_done_impl(t) && (launch.mode
            == LaunchMode::Retry || t.id != launch.task.id)
}

pub open spec fn is_spawned(log: Seq<(Action, Event)>, launch: Launch, pid: u32) -> bool {
    exists|config: RunConfig| #[trigger]
        had(log, Action::SpawnAgent { config }, Event::Pid(Ok(pid))) && is_set_on(
            log,
            launch,
            config,
        )
}

/// What is told stays told.
proof fn told_more(log: Seq<(Action, Event)>, launch: Launch)
    requires
        log.len() > 0,
    ensures
        forall|p: Project| #[trigger]
            is_project_of(log.drop_last(), launch.session, p) ==> is_project_of(
                log,
                launch.session,
                p,
            ),
        forall|t: String| #[trigger]
            is_loaded(log.drop_last(), launch, t) ==> is_loaded(log, launch, t),
        forall|c: Seq<WorkItem>| #[trigger]
            are_completed(log.drop_last(), launch, c) ==> are_completed(log, launch, c),
        forall|a: Action| #[trigger]
            tells_of(log.drop_last(), launch, a) ==> tells_of(log, launch, a),
        forall|c: RunConfig| #[trigger]
            is_set_on(log.drop_last(), launch, c) ==> is_set_on(log, launch, c),
        forall|r: AgentRun| #[trigger]
            is_noted(log.drop_last(), launch, r) ==> is_noted(log, launch, r),
        forall|pid: u32| #[trigger]
            is_spawned(log.drop_last(), launch, pid) ==> is_spawned(log, launch, pid),
        is_at_work(log.drop_last(), launch) ==> is_at_work(log, launch),
{
    crate::histories::had_more(log);
    let init = log.drop_last();
    assert forall|p: Project| #[trigger] is_project_of(init, launch.session, p) implies is_project_of(
        log,
        launch.session,
        p,
    ) by {
        let s = choose|s: crate::model::DecompositionSession|
            had(
                init,
                Action::GetSession { session: launch.session },
                Event::MaybeSession(Ok(Some(s))),
            ) && #[trigger] had(
                init,
                Action::GetProjectById { project: s.project_id },
                Event::MaybeProject(Ok(Some(p))),
            );
        assert(had(
            log,
            Action::GetProjectById { project: s.project_id },
            Event::MaybeProject(Ok(Some(p))),
        ));
    }
    assert forall|a: Action| #[trigger] tells_of(init, launch, a) implies tells_of(
        log,
        launch,
        a,
    ) by {
        told_prompt_more(log, launch, a);
    }
    assert forall|path: String| #[trigger] is_prompt_file(init, launch, path) implies is_prompt_file(
        log,
        launch,
        path,
    ) by {
        let (asked, content) = choose|asked: Action, content: String|
            had(init, Action::WriteFile { path, content }, Event::Done(Ok(()))) && #[trigger] had(
                init,
                asked,
                Event::Text(Ok(content)),
            ) && tells_of(init, launch, asked);
        assert(had(log, asked, Event::Text(Ok(content))));
        assert(had(log, Action::WriteFile { path, content }, Event::Done(Ok(()))));
    }
    assert forall|c: RunConfig| #[trigger] is_set_on(init, launch, c) implies is_set_on(
        log,
        launch,
        c,
    ) by {}
    assert forall|pid: u32| #[trigger] is_spawned(init, launch, pid) implies is_spawned(
        log,
        launch,
        pid,
    ) by {
        let config = choose|config: RunConfig| #[trigger]
            had(init, Action::SpawnAgent { config }, Event::Pid(Ok(pid))) && is_set_on(
                init,
                launch,
                config,
            );
        assert(had(log, Action::SpawnAgent { config }, Event::Pid(Ok(pid))));
    }
    assert forall|r: AgentRun| #[trigger] is_noted(init, launch, r) implies is_noted(
        log,
        launch,
        r,
    ) by {
        assert(is_spawned(init, launch, r.pid->0));
    }
}

proof fn told_prompt_more(log: Seq<(Action, Event)>, launch: Launch, a: Action)
    requires
        log.len() > 0,
        tells_of(log.drop_last(), launch, a),
    ensures
        tells_of(log, launch, a),
{
    crate::histories::had_more(log);
    let init = log.drop_last();
    assert forall|p: Project| #[trigger] is_project_of(init, launch.session, p) implies is_project_of(
        log,
        launch.session,
        p,
    ) by {
        let s = choose|s: crate::model::DecompositionSession|
            had(
                init,
                Action::GetSession { session: launch.session },
                Event::MaybeSession(Ok(Some(s))),
            ) && #[trigger] had(
                init,
                Action::GetProjectById { project: s.project_id },
                Event::MaybeProject(Ok(Some(p))),
            );
        assert(had(
            log,
            Action::GetProjectById { project: s.project_id },
            Event::MaybeProject(Ok(Some(p))),
        ));
    }
}

proof fn partner_is_checked(tasks: Seq<WorkItem>, task: WorkItem)
    ensures
        verifies(
            tasks,
            task,
            match crate::launch::partner(tasks, task, TaskKind::Impl, -1) {
                Some(t) => t,
                None => task,
            },
        ),
{
    let wanted = |t: WorkItem|
        t.item_type == ItemType::Task && t.kind == Some(TaskKind::Impl) && t.parent_id
            == task.parent_id && t.sort_order == task.sort_order + -1;
    crate::seqs::first_is_wanted(tasks, wanted);
    crate::seqs::law_the_first_is_first(tasks, wanted);
}

/// Every step in the start of an agent keeps what holds, and it ends with an agent at work, or is
/// given up: without a worktree exactly where the story has none, and as failed in the end only
/// where the agent itself did not start.
pub proof fn law_an_agent_is_set_on_its_task(
    log: Seq<(Action, Event)>,
    l: Launching,
    n: LaunchNext,
)
    requires
        log.len() > 0,
        launch_holds(log.drop_last(), l, log.last().0),
        l.follows(log.last().1, n),
    ensures
        match n {
            LaunchNext::Act(m, a) => m.launch == l.launch && launch_holds(log, m, a),
            LaunchNext::Started => is_at_work(log, l.launch),
            LaunchNext::NoWorktree => l.launch.worktree is None,
            LaunchNext::Failed { spawning, .. } => spawning <==> log.last().0 is SpawnAgent,
        },
        log.last().1 matches Event::MaybeProject(Ok(Some(_))) ==> (n is NoWorktree
            <==> l.launch.worktree is None),
        log.last().1 matches Event::Pid(Err(_)) ==> n is Failed,
{
    let (a, ev) = log.last();
    let launch = l.launch;
    crate::histories::had_more(log);
    told_more(log, launch);
    match (l.at, ev) {
        (LaunchStep::Siblings { project, template, .. }, Event::WorkItems(Ok(v))) => {
            partner_is_checked(v@, launch.task);
            assert(had(log, a, ev));
            let keep = |t: WorkItem|
                t.item_type == ItemType::Task && t.kind == Some(TaskKind::Impl) && t.status
                    == WorkItemStatus::Done && Some(t.id) != launch.left_out();
            assert forall|t: WorkItem| #[trigger]
                crate::launch::completed_tasks(v@, launch.left_out()).contains(t) <==> v@.contains(
                    t,
                ) && is_done_impl(t) && (launch.mode == LaunchMode::Retry || t.id
                    != launch.task.id) by {
                crate::seqs::filter_contains(v@, keep, t);
            }
            assert(are_completed(
                log,
                launch,
                crate::launch::completed_tasks(v@, launch.left_out()),
            ));
        },
        (LaunchStep::Project, Event::MaybeProject(Ok(Some(p)))) => {
            assert(had(log, a, ev));
        },
        (LaunchStep::LogsDir { prompt, .. }, Event::Done(Ok(_))) => {
            let asked = choose|asked: Action| #[trigger]
                had(log.drop_last(), asked, Event::Text(Ok(prompt))) && tells_of(
                    log.drop_last(),
                    launch,
                    asked,
                );
            assert(had(log, asked, Event::Text(Ok(prompt))) && tells_of(log, launch, asked));
        },
        (LaunchStep::WritePrompt { dir, file }, Event::Done(Ok(_))) => {
            let content = a->WriteFile_content;
            let asked = choose|asked: Action| #[trigger]
                had(log.drop_last(), asked, Event::Text(Ok(content))) && tells_of(
                    log.drop_last(),
                    launch,
                    asked,
                );
            assert(had(log, asked, Event::Text(Ok(content))) && tells_of(log, launch, asked));
            assert(had(log, Action::WriteFile { path: file, content }, Event::Done(Ok(()))));
            assert(is_prompt_file(log, launch, file));
        },
        (LaunchStep::Spawn { .. }, Event::Pid(Ok(pid))) => {
            assert(is_spawned(log, launch, pid));
        },
        (LaunchStep::Load { .. }, Event::Text(Ok(template))) => {
            let dir = a->LoadTemplate_dir;
            if launch.task.kind == Some(TaskKind::Verify) {
                assert(had(
                    log,
                    Action::LoadTemplate { template: Template::VerifyTask, dir },
                    Event::Text(Ok(template)),
                ));
            } else {
                assert(had(
                    log,
                    Action::LoadTemplate { template: Template::ImplTask, dir },
                    Event::Text(Ok(template)),
                ));
            }
        },
        _ => {},
    }
}

} // verus!
