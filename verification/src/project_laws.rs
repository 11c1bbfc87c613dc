//! What `project.init` and `project.delete` are for, over the whole course of a request.
use vstd::prelude::*;
use crate::effects::{Action, Event, GitOutput, Next};
use crate::histories::{had, reaches, Machine};
use crate::json::JsonV;
use crate::model::{AgentRun, CreateProjectParams, Project};
use crate::projects::{DeleteStep, InitStep, ProjectDelete, ProjectInit};
use crate::protocol::{Request, ResponseStatus};

verus! {

impl Machine for ProjectInit {
    open spec fn takes_up(req: Request, n: Next<ProjectInit>) -> bool {
        ProjectInit::begins(req, n)
    }

    open spec fn leads(self, ev: Event, n: Next<ProjectInit>) -> bool {
        self.follows(ev, n)
    }
}

impl Machine for ProjectDelete {
    open spec fn takes_up(req: Request, n: Next<ProjectDelete>) -> bool {
        ProjectDelete::begins(req, n)
    }

    open spec fn leads(self, ev: Event, n: Next<ProjectDelete>) -> bool {
        self.follows(ev, n)
    }
}

/// Where the daemon keeps what belongs to a project of this name.
pub open spec fn place_of(home: Seq<char>, name: Seq<char>) -> Seq<char> {
    crate::text::joined(crate::text::joined(home, "projects"@), name)
}

// ---- project.delete ----

/// Whether the project is the named one.
pub open spec fn is_doomed(req: Request, log: Seq<(Action, Event)>, project: Project) -> bool {
    exists|name: String|
        req.params@.text_field("name"@) == Some(name@) && #[trigger] had(
            log,
            Action::GetProjectByName { name },
            Event::MaybeProject(Ok(Some(project))),
        )
}

pub open spec fn is_forced(req: Request) -> bool {
    req.params@.truth_field("force"@) == Some(true)
}

/// Whether so many agents work on the project.
pub open spec fn has_agents(log: Seq<(Action, Event)>, project: Project, some: bool) -> bool {
    exists|v: Vec<AgentRun>| #[trigger]
        had(
            log,
            Action::FindRunningAgents { project: project.id },
            Event::AgentRuns(Ok(v)),
        ) && (v@.len() > 0) == some
}

pub open spec fn went_well(log: Seq<(Action, Event)>, a: Action) -> bool {
    had(log, a, Event::Done(Ok(())))
}

/// Whether the project may be deleted: no agent works on it, or it is forced, and what was in
/// progress is cancelled.
pub open spec fn may_go(req: Request, log: Seq<(Action, Event)>, project: Project) -> bool {
    &&& is_doomed(req, log, project)
    &&& has_agents(log, project, false) || {
        &&& has_agents(log, project, true)
        &&& is_forced(req)
        &&& went_well(log, Action::CancelInProgressItems { project: project.id })
        &&& went_well(log, Action::CancelRunningAgents { project: project.id })
    }
}

/// Whether the worktrees of the project are these, as far as they could be listed.
pub open spec fn has_worktrees(
    log: Seq<(Action, Event)>,
    project: Project,
    worktrees: Vec<String>,
) -> bool {
    ||| had(
        log,
        Action::ListWorktreePaths { project: project.id },
        Event::Texts(Ok(worktrees)),
    )
    ||| worktrees@.len() == 0 && exists|e: String| #[trigger]
        had(log, Action::ListWorktreePaths { project: project.id }, Event::Texts(Err(e)))
}

/// Whether the project is gone from the database, and its worktrees were listed before.
pub open spec fn is_gone(
    req: Request,
    log: Seq<(Action, Event)>,
    project: Project,
    worktrees: Vec<String>,
) -> bool {
    &&& may_go(req, log, project)
    &&& has_worktrees(log, project, worktrees)
    &&& went_well(log, Action::DeleteProject { project: project.id })
}

/// Whether it was tried to remove the worktree.
pub open spec fn was_taken_away(
    log: Seq<(Action, Event)>,
    project: Project,
    worktree: String,
) -> bool {
    exists|ev: Event| #[trigger]
        had(log, Action::RemoveWorktree { repo: project.path, worktree }, ev)
}

/// Whether the project is gone, with its worktrees.
pub open spec fn is_cleared_away(
    req: Request,
    log: Seq<(Action, Event)>,
    project: Project,
    worktrees: Vec<String>,
) -> bool {
    &&& is_gone(req, log, project, worktrees)
    &&& forall|i: int|
        0 <= i < worktrees@.len() ==> was_taken_away(log, project, #[trigger] worktrees@[i])
}

spec fn delete_holds(req: Request, log: Seq<(Action, Event)>, s: ProjectDelete, a: Action) -> bool {
    &&& s.job.id == req.id
    &&& req.params@.text_field("name"@) == Some(s.job.name@)
    &&& s.job.force == is_forced(req)
    &&& match s.at {
        DeleteStep::Find => log.len() == 0 && a == (Action::GetProjectByName {
            name: s.job.name,
        }),
        DeleteStep::Agents { project } => is_doomed(req, log, project) && a == (
        Action::FindRunningAgents { project: project.id }),
        DeleteStep::CancelItems { project } => {
            &&& is_doomed(req, log, project) && has_agents(log, project, true) && is_forced(req)
            &&& a == Action::CancelInProgressItems { project: project.id }
        },
        DeleteStep::CancelAgents { project } => {
            &&& is_doomed(req, log, project) && has_agents(log, project, true) && is_forced(req)
            &&& went_well(log, Action::CancelInProgressItems { project: project.id })
            &&& a == Action::CancelRunningAgents { project: project.id }
        },
        DeleteStep::Worktrees { project } => may_go(req, log, project) && a == (
        Action::ListWorktreePaths { project: project.id }),
        DeleteStep::Delete { project, worktrees } => {
            &&& may_go(req, log, project)
            &&& has_worktrees(log, project, worktrees)
            &&& a == Action::DeleteProject { project: project.id }
        },
        DeleteStep::RemoveWorktree { project, worktrees, gone } => {
            &&& is_gone(req, log, project, worktrees)
            &&& gone < worktrees@.len()
            &&& forall|i: int|
                0 <= i < gone ==> was_taken_away(log, project, #[trigger] worktrees@[i])
            &&& a == Action::RemoveWorktree {
                repo: project.path,
                worktree: worktrees@[gone as int],
            }
        },
        DeleteStep::Home { worktrees } => {
            &&& exists|project: Project| #[trigger] is_cleared_away(req, log, project, worktrees)
            &&& a == Action::NflowHome
        },
        DeleteStep::RemoveDir { worktrees } => {
            &&& exists|project: Project| #[trigger] is_cleared_away(req, log, project, worktrees)
            &&& a matches Action::RemoveDir { path }
            &&& exists|home: String| #[trigger]
                had(log, Action::NflowHome, Event::Text(Ok(home))) && path@ == place_of(
                    home@,
                    s.job.name@,
                )
        },
    }
}

proof fn delete_facts_stay(req: Request, log: Seq<(Action, Event)>)
    requires
        log.len() > 0,
    ensures
        forall|p: Project| #[trigger] is_doomed(req, log.drop_last(), p) ==> is_doomed(req, log, p),
        forall|p: Project, b: bool| #[trigger]
            has_agents(log.drop_last(), p, b) ==> has_agents(log, p, b),
        forall|a: Action| #[trigger] went_well(log.drop_last(), a) ==> went_well(log, a),
        forall|p: Project| #[trigger] may_go(req, log.drop_last(), p) ==> may_go(req, log, p),
        forall|p: Project, v: Vec<String>| #[trigger]
            has_worktrees(log.drop_last(), p, v) ==> has_worktrees(log, p, v),
        forall|p: Project, v: Vec<String>| #[trigger]
            is_gone(req, log.drop_last(), p, v) ==> is_gone(req, log, p, v),
        forall|p: Project, w: String| #[trigger]
            was_taken_away(log.drop_last(), p, w) ==> was_taken_away(log, p, w),
        forall|p: Project, v: Vec<String>| #[trigger]
            is_cleared_away(req, log.drop_last(), p, v) ==> is_cleared_away(req, log, p, v),
{
    crate::histories::had_more(log);
    let init = log.drop_last();
    assert forall|p: Project, b: bool| #[trigger] has_agents(init, p, b) implies has_agents(
        log,
        p,
        b,
    ) by {}
    assert forall|p: Project, w: String| #[trigger]
        was_taken_away(init, p, w) implies was_taken_away(log, p, w) by {}
    assert forall|p: Project, v: Vec<String>| #[trigger]
        is_cleared_away(req, init, p, v) implies is_cleared_away(req, log, p, v) by {
        assert(is_gone(req, init, p, v));
        assert forall|i: int| 0 <= i < v@.len() implies was_taken_away(
            log,
            p,
            #[trigger] v@[i],
        ) by {
            assert(was_taken_away(init, p, v@[i]));
        }
    }
}

proof fn delete_keeps(req: Request, log: Seq<(Action, Event)>, s: ProjectDelete, a: Action)
    requires
        reaches(req, log, Next::Act(s, a)),
    ensures
        delete_holds(req, log, s, a),
    decreases log.len(),
{
    if log.len() > 0 {
        let (b, ev) = log.last();
        let before = crate::histories::before_last::<ProjectDelete>(req, log, Next::Act(s, a));
        delete_keeps(req, log.drop_last(), before, b);
        delete_step(req, log, before, Next::Act(s, a));
    }
}

/// What an answer of a deletion that went well says.
pub open spec fn tells_of_deletion(req: Request, log: Seq<(Action, Event)>, data: JsonV) -> bool {
    exists|project: Project, worktrees: Vec<String>|
        #[trigger] is_cleared_away(req, log, project, worktrees) && data.text_field("name"@)
            == req.params@.text_field("name"@) && data.truth_field("deleted"@) == Some(true)
            && data.field("worktrees_removed"@) == Some(JsonV::Int(worktrees@.len() as int))
}

/// Why a deletion fails after this outcome: there is no such project, agents work on it and it
/// is not forced, or the database failed. What is left on disk is no reason.
pub open spec fn refuses_deletion(req: Request, a: Action, ev: Event) -> bool {
    match ev {
        Event::MaybeProject(r) => !(r matches Ok(Some(_))),
        Event::AgentRuns(r) => match r {
            Ok(v) => v@.len() > 0 && !is_forced(req),
            Err(_) => true,
        },
        Event::Done(r) => r is Err && (a is CancelInProgressItems || a is CancelRunningAgents || a
            is DeleteProject),
        _ => false,
    }
}

proof fn deleted_fields(name: Seq<char>, worktrees: nat)
    ensures
        crate::projects::project_deleted(name, worktrees).text_field("name"@) == Some(name),
        crate::projects::project_deleted(name, worktrees).truth_field("deleted"@) == Some(true),
        crate::projects::project_deleted(name, worktrees).field("worktrees_removed"@) == Some(
            JsonV::Int(worktrees as int),
        ),
{
    broadcast use crate::histories::field_of_with;

    reveal_strlit("name");
    reveal_strlit("deleted");
    reveal_strlit("worktrees_removed");
    assert("name"@.len() == 4);
    assert("deleted"@.len() == 7);
    assert("worktrees_removed"@.len() == 17);
}

/// One step of a deletion.
proof fn delete_step(
    req: Request,
    log: Seq<(Action, Event)>,
    before: ProjectDelete,
    n: Next<ProjectDelete>,
)
    requires
        log.len() > 0,
        delete_holds(req, log.drop_last(), before, log.last().0),
        before.follows(log.last().1, n),
    ensures
        n matches Next::Act(s, a) ==> delete_holds(req, log, s, a),
        n matches Next::Reply(r) ==> r.id == req.id && (r.status == ResponseStatus::Success
            ==> tells_of_deletion(req, log, r.data@)),
        refuses_deletion(req, log.last().0, log.last().1) <==> n is Reply && n->Reply_0.status
            == ResponseStatus::Error,
        !(n is End),
{
    let (b, ev) = log.last();
    let init = log.drop_last();
    crate::histories::had_more(log);
    delete_facts_stay(req, log);
    assert(had(log, b, ev));
    match (before.at, ev) {
        (DeleteStep::Find, Event::MaybeProject(Ok(Some(project)))) => {
            assert(is_doomed(req, log, project));
        },
        (DeleteStep::Agents { project }, Event::AgentRuns(Ok(v))) => {
            assert(has_agents(log, project, v@.len() > 0));
        },
        (DeleteStep::CancelItems { project }, Event::Done(Ok(_))) => {
            assert(went_well(log, b));
        },
        (DeleteStep::CancelAgents { project }, Event::Done(Ok(_))) => {
            assert(went_well(log, b));
            assert(may_go(req, log, project));
        },
        (DeleteStep::Worktrees { project }, Event::Texts(r)) => {
            match r {
                Ok(found) => {
                    assert(had(
                        log,
                        Action::ListWorktreePaths { project: project.id },
                        Event::Texts(Ok(found)),
                    ));
                },
                Err(e) => {
                    assert(had(
                        log,
                        Action::ListWorktreePaths { project: project.id },
                        Event::Texts(Err(e)),
                    ));
                },
            }
            assert(has_worktrees(log, project, n->Act_0.at->Delete_worktrees));
        },
        (DeleteStep::Delete { project, worktrees }, Event::Done(Ok(_))) => {
            assert(went_well(log, b));
            assert(is_gone(req, log, project, worktrees));
            assert(worktrees.len() == worktrees@.len());
            if worktrees@.len() == 0 {
                assert(is_cleared_away(req, log, project, worktrees));
                assert(is_cleared_away(req, log, project, n->Act_0.at->Home_worktrees));
            }
        },
        (DeleteStep::RemoveWorktree { project, worktrees, gone }, Event::Done(_)) => {
            assert(is_gone(req, log, project, worktrees));
            assert(was_taken_away(log, project, worktrees@[gone as int]));
            assert forall|i: int| 0 <= i < gone + 1 implies was_taken_away(
                log,
                project,
                #[trigger] worktrees@[i],
            ) by {
                if i < gone {
                    assert(was_taken_away(init, project, worktrees@[i]));
                }
            }
            assert(worktrees.len() == worktrees@.len());
            if gone + 1 == worktrees@.len() {
                assert(is_cleared_away(req, log, project, worktrees));
                assert(is_cleared_away(req, log, project, n->Act_0.at->Home_worktrees));
            }
        },
        (DeleteStep::Home { worktrees }, Event::Text(r)) => {
            let project = choose|project: Project| #[trigger]
                is_cleared_away(req, init, project, worktrees);
            assert(is_cleared_away(req, log, project, worktrees));
            deleted_fields(before.job.name@, worktrees@.len());
            match r {
                Ok(home) => {
                    assert(is_cleared_away(req, log, project, n->Act_0.at->RemoveDir_worktrees));
                    assert(had(log, Action::NflowHome, Event::Text(Ok(home))));
                },
                Err(_) => {},
            }
        },
        (DeleteStep::RemoveDir { worktrees }, Event::Done(_)) => {
            let project = choose|project: Project| #[trigger]
                is_cleared_away(req, init, project, worktrees);
            assert(is_cleared_away(req, log, project, worktrees));
            deleted_fields(before.job.name@, worktrees@.len());
        },
        _ => {},
    }
}

/// A deletion looks up the named project and its agents. It cancels what is in progress only
/// where agents work on the project and it is forced, and the items before the agents. It
/// deletes the project only where it may go, takes away the worktrees that were listed before,
/// and last of all removes the place of the project.
pub proof fn law_what_a_deletion_does(
    req: Request,
    log: Seq<(Action, Event)>,
    s: ProjectDelete,
    a: Action,
)
    requires
        reaches(req, log, Next::Act(s, a)),
    ensures
        match a {
            Action::GetProjectByName { name } => req.params@.text_field("name"@) == Some(name@),
            Action::FindRunningAgents { project } => exists|p: Project| #[trigger]
                is_doomed(req, log, p) && p.id == project,
            Action::CancelInProgressItems { project } => is_forced(req) && exists|p: Project|
                #[trigger] is_doomed(req, log, p) && p.id == project && has_agents(log, p, true),
            Action::CancelRunningAgents { project } => is_forced(req) && exists|p: Project|
                #[trigger] is_doomed(req, log, p) && p.id == project && has_agents(log, p, true)
                    && went_well(log, Action::CancelInProgressItems { project }),
            Action::ListWorktreePaths { project } => exists|p: Project| #[trigger]
                may_go(req, log, p) && p.id == project,
            Action::DeleteProject { project } => exists|p: Project, worktrees: Vec<String>|
                may_go(req, log, p) && p.id == project && #[trigger] has_worktrees(
                    log,
                    p,
                    worktrees,
                ),
            Action::RemoveWorktree { repo, worktree } => exists|
                p: Project,
                worktrees: Vec<String>,
            | #[trigger]
                is_gone(req, log, p, worktrees) && repo == p.path && worktrees@.contains(worktree),
            Action::NflowHome => exists|p: Project, worktrees: Vec<String>| #[trigger]
                is_cleared_away(req, log, p, worktrees),
            Action::RemoveDir { path } => (exists|p: Project, worktrees: Vec<String>| #[trigger]
                is_cleared_away(req, log, p, worktrees)) && exists|home: String| #[trigger]
                had(log, Action::NflowHome, Event::Text(Ok(home))) && path@ == place_of(
                    home@,
                    req.params@.text_field("name"@)->0,
                ),
            _ => false,
        },
{
    delete_keeps(req, log, s, a);
    match s.at {
        DeleteStep::Agents { project } => {
            assert(is_doomed(req, log, project));
        },
        DeleteStep::CancelItems { project } => {
            assert(is_doomed(req, log, project));
        },
        DeleteStep::CancelAgents { project } => {
            assert(is_doomed(req, log, project));
        },
        DeleteStep::Worktrees { project } => {
            assert(may_go(req, log, project));
        },
        DeleteStep::Delete { project, worktrees } => {
            assert(has_worktrees(log, project, worktrees));
        },
        DeleteStep::RemoveWorktree { project, worktrees, gone } => {
            assert(is_gone(req, log, project, worktrees));
            assert(worktrees@.contains(worktrees@[gone as int]));
        },
        DeleteStep::Home { worktrees } => {
            let project = choose|project: Project| #[trigger]
                is_cleared_away(req, log, project, worktrees);
            assert(is_cleared_away(req, log, project, worktrees));
        },
        DeleteStep::RemoveDir { worktrees } => {
            let project = choose|project: Project| #[trigger]
                is_cleared_away(req, log, project, worktrees);
            assert(is_cleared_away(req, log, project, worktrees));
        },
        _ => {},
    }
}

/// A deletion fails just where an outcome refuses it. One that goes well has deleted the project
/// and taken away each of its worktrees, and tells how many.
pub proof fn law_what_a_deletion_comes_to(
    req: Request,
    log: Seq<(Action, Event)>,
    n: Next<ProjectDelete>,
)
    requires
        reaches(req, log, n),
    ensures
        !(n is End),
        log.len() > 0 ==> (refuses_deletion(req, log.last().0, log.last().1) <==> n is Reply
            && n->Reply_0.status == ResponseStatus::Error),
        n matches Next::Reply(r) ==> r.id == req.id && (r.status == ResponseStatus::Success
            ==> tells_of_deletion(req, log, r.data@)),
{
    if log.len() > 0 {
        let before = crate::histories::before_last::<ProjectDelete>(req, log, n);
        delete_keeps(req, log.drop_last(), before, log.last().0);
        delete_step(req, log, before, n);
    }
}

// ---- project.init ----

/// Whether the action was answered with this text, without the white space around it; none
/// where it failed or said nothing.
pub open spec fn is_said(log: Seq<(Action, Event)>, a: Action, text: Option<String>) -> bool {
    exists|out: Option<GitOutput>| #[trigger]
        had(log, a, Event::Git(out)) && match text {
            Some(t) => out is Some && out->0.success && t@ == crate::text::trimmed(out->0.stdout@)
                && t@.len() > 0,
            None => out is Some && out->0.success ==> crate::text::trimmed(
                out->0.stdout@,
            ).len() == 0,
        }
}

/// Whether there is a repository at the path.
pub open spec fn is_repository(log: Seq<(Action, Event)>, path: String) -> bool {
    &&& had(log, Action::PathExists { path }, Event::Flag(Ok(true)))
    &&& exists|out: GitOutput| #[trigger]
        had(log, Action::GitIsWorkTree { dir: path }, Event::Git(Some(out))) && out.success
}

/// Whether the branch is the one that is asked for, or else the one that is checked out.
pub open spec fn is_branch(
    req: Request,
    log: Seq<(Action, Event)>,
    path: String,
    branch: Option<String>,
) -> bool {
    match req.params@.text_field("base_branch"@) {
        Some(b) => branch is Some && branch->0@ == b,
        None => is_said(log, Action::GitHeadRef { dir: path }, branch),
    }
}

/// Whether a project with these parameters is to be made.
pub open spec fn is_wanted(
    req: Request,
    log: Seq<(Action, Event)>,
    p: CreateProjectParams,
) -> bool {
    &&& req.params@.text_field("name"@) == Some(p.name@)
    &&& req.params@.text_field("path"@) == Some(p.path@)
    &&& is_repository(log, p.path)
    &&& is_said(log, Action::GitRemoteUrl { dir: p.path }, p.remote_url)
    &&& is_branch(req, log, p.path, p.head_ref)
    &&& p.git_provider_override == match req.params@.text_field("git_provider"@) {
        Some(g) => crate::model::named_provider(g),
        None => None,
    }
    &&& had(log, Action::ProjectNameExists { name: p.name }, Event::Flag(Ok(false)))
}

/// Whether the project was made as it is wanted.
pub open spec fn is_made(req: Request, log: Seq<(Action, Event)>, project: Project) -> bool {
    exists|p: CreateProjectParams|
        is_wanted(req, log, p) && #[trigger] had(
            log,
            Action::CreateProject { params: p },
            Event::Project(Ok(project)),
        )
}

/// Whether the path is that of a directory of the project.
pub open spec fn is_place(
    req: Request,
    log: Seq<(Action, Event)>,
    path: Seq<char>,
    leaf: Seq<char>,
) -> bool {
    exists|home: String| #[trigger]
        had(log, Action::NflowHome, Event::Text(Ok(home))) && path == crate::text::joined(
            place_of(home@, req.params@.text_field("name"@)->0),
            leaf,
        )
}

/// Whether the directory of the project was made.
pub open spec fn has_place(req: Request, log: Seq<(Action, Event)>, leaf: Seq<char>) -> bool {
    exists|path: String| #[trigger]
        had(log, Action::CreateDir { path }, Event::Done(Ok(()))) && is_place(
            req,
            log,
            path@,
            leaf,
        )
}

spec fn init_holds(req: Request, log: Seq<(Action, Event)>, s: ProjectInit, a: Action) -> bool {
    let job = s.job;
    &&& job.id == req.id
    &&& req.params@.text_field("name"@) == Some(job.name@)
    &&& req.params@.text_field("path"@) == Some(job.path@)
    &&& crate::text::is_text(job.base_branch, req.params@.text_field("base_branch"@))
    &&& job.provider == match req.params@.text_field("git_provider"@) {
        Some(g) => crate::model::named_provider(g),
        None => None,
    }
    &&& match s.at {
        InitStep::Exists => log.len() == 0 && a == (Action::PathExists { path: job.path }),
        InitStep::WorkTree => {
            &&& had(log, Action::PathExists { path: job.path }, Event::Flag(Ok(true)))
            &&& a == Action::GitIsWorkTree { dir: job.path }
        },
        InitStep::Remote => is_repository(log, job.path) && a == (Action::GitRemoteUrl {
            dir: job.path,
        }),
        InitStep::Head { remote_url } => {
            &&& is_repository(log, job.path)
            &&& is_said(log, Action::GitRemoteUrl { dir: job.path }, remote_url)
            &&& job.base_branch is None
            &&& a == Action::GitHeadRef { dir: job.path }
        },
        InitStep::NameTaken { remote_url, head_ref } => {
            &&& is_repository(log, job.path)
            &&& is_said(log, Action::GitRemoteUrl { dir: job.path }, remote_url)
            &&& is_branch(req, log, job.path, head_ref)
            &&& a == Action::ProjectNameExists { name: job.name }
        },
        InitStep::Create => a is CreateProject && is_wanted(req, log, a->CreateProject_params),
        InitStep::Home { project } => is_made(req, log, project) && a == Action::NflowHome,
        InitStep::SpecsDir { project, dir } => {
            &&& is_made(req, log, project)
            &&& exists|home: String| #[trigger]
                had(log, Action::NflowHome, Event::Text(Ok(home))) && dir@ == place_of(
                    home@,
                    job.name@,
                )
            &&& a matches Action::CreateDir { path }
            &&& is_place(req, log, path@, "specs"@)
        },
        InitStep::LogsDir { project } => {
            &&& is_made(req, log, project)
            &&& has_place(req, log, "specs"@)
            &&& a matches Action::CreateDir { path }
            &&& is_place(req, log, path@, "agent-logs"@)
        },
        InitStep::Insert { project } => {
            &&& is_made(req, log, project)
            &&& has_place(req, log, "specs"@)
            &&& has_place(req, log, "agent-logs"@)
            &&& a == Action::InsertProject { project }
        },
    }
}

proof fn init_facts_stay(req: Request, log: Seq<(Action, Event)>)
    requires
        log.len() > 0,
    ensures
        forall|p: String| #[trigger]
            is_repository(log.drop_last(), p) ==> is_repository(log, p),
        forall|a: Action, t: Option<String>| #[trigger]
            is_said(log.drop_last(), a, t) ==> is_said(log, a, t),
        forall|p: String, b: Option<String>| #[trigger]
            is_branch(req, log.drop_last(), p, b) ==> is_branch(req, log, p, b),
        forall|p: CreateProjectParams| #[trigger]
            is_wanted(req, log.drop_last(), p) ==> is_wanted(req, log, p),
        forall|p: Project| #[trigger] is_made(req, log.drop_last(), p) ==> is_made(req, log, p),
        forall|p: Seq<char>, l: Seq<char>| #[trigger]
            is_place(req, log.drop_last(), p, l) ==> is_place(req, log, p, l),
        forall|l: Seq<char>| #[trigger]
            has_place(req, log.drop_last(), l) ==> has_place(req, log, l),
{
    crate::histories::had_more(log);
    let init = log.drop_last();
    assert forall|p: String| #[trigger] is_repository(init, p) implies is_repository(log, p) by {}
    assert forall|a: Action, t: Option<String>| #[trigger] is_said(init, a, t) implies is_said(
        log,
        a,
        t,
    ) by {}
    assert forall|p: Project| #[trigger] is_made(req, init, p) implies is_made(req, log, p) by {}
    assert forall|p: Seq<char>, l: Seq<char>| #[trigger]
        is_place(req, init, p, l) implies is_place(req, log, p, l) by {}
    assert forall|l: Seq<char>| #[trigger] has_place(req, init, l) implies has_place(
        req,
        log,
        l,
    ) by {}
}

proof fn init_keeps(req: Request, log: Seq<(Action, Event)>, s: ProjectInit, a: Action)
    requires
        reaches(req, log, Next::Act(s, a)),
    ensures
        init_holds(req, log, s, a),
    decreases log.len(),
{
    if log.len() > 0 {
        let (b, ev) = log.last();
        let before = crate::histories::before_last::<ProjectInit>(req, log, Next::Act(s, a));
        init_keeps(req, log.drop_last(), before, b);
        init_step(req, log, before, Next::Act(s, a));
    }
}

/// What an answer of a registration that went well says: the project that was stored.
pub open spec fn tells_of_project(req: Request, log: Seq<(Action, Event)>, data: JsonV) -> bool {
    exists|p: Project|
        #[trigger] is_made(req, log, p) && has_place(req, log, "specs"@) && has_place(
            req,
            log,
            "agent-logs"@,
        ) && went_well(log, Action::InsertProject { project: p }) && data.text_field(
            "project_id"@,
        ) == Some(p.id.text()) && data.text_field("name"@) == Some(p.name@) && data.text_field(
            "path"@,
        ) == Some(p.path@) && data.text_field("base_branch"@) == Some(p.base_branch@)
            && data.text_field("git_provider"@) == Some(p.git_provider.name())
}

/// Why a registration fails after this outcome: there is no repository, the name is taken, the
/// project cannot be made, or the disk or the database failed.
pub open spec fn refuses_project(a: Action, ev: Event) -> bool {
    match (a, ev) {
        (Action::PathExists { .. }, Event::Flag(r)) => r != Ok::<bool, String>(true),
        (Action::GitIsWorkTree { .. }, Event::Git(out)) => !(out is Some && out->0.success),
        (Action::ProjectNameExists { .. }, Event::Flag(r)) => r != Ok::<bool, String>(false),
        (_, Event::Project(r)) => r is Err,
        (_, Event::Text(r)) => r is Err,
        (_, Event::Done(r)) => r is Err,
        _ => false,
    }
}

proof fn created_fields(p: Project)
    ensures
        crate::projects::project_created(p).text_field("project_id"@) == Some(p.id.text()),
        crate::projects::project_created(p).text_field("name"@) == Some(p.name@),
        crate::projects::project_created(p).text_field("path"@) == Some(p.path@),
        crate::projects::project_created(p).text_field("base_branch"@) == Some(p.base_branch@),
        crate::projects::project_created(p).text_field("git_provider"@) == Some(
            p.git_provider.name(),
        ),
{
    broadcast use crate::histories::field_of_with;

    reveal_strlit("project_id");
    reveal_strlit("name");
    reveal_strlit("path");
    reveal_strlit("base_branch");
    reveal_strlit("git_provider");
    assert("project_id"@.len() == 10);
    assert("name"@.len() == 4 && "name"@[0] == 'n');
    assert("path"@.len() == 4 && "path"@[0] == 'p');
    assert("base_branch"@.len() == 11);
    assert("git_provider"@.len() == 12);
}

/// One step of a registration.
#[verifier::rlimit(40)]
proof fn init_step(
    req: Request,
    log: Seq<(Action, Event)>,
    before: ProjectInit,
    n: Next<ProjectInit>,
)
    requires
        log.len() > 0,
        init_holds(req, log.drop_last(), before, log.last().0),
        before.follows(log.last().1, n),
    ensures
        n matches Next::Act(s, a) ==> init_holds(req, log, s, a),
        n matches Next::Reply(r) ==> r.id == req.id && (r.status == ResponseStatus::Success
            ==> tells_of_project(req, log, r.data@)),
        refuses_project(log.last().0, log.last().1) <==> n is Reply && n->Reply_0.status
            == ResponseStatus::Error,
        !(n is End),
{
    let (b, ev) = log.last();
    let init = log.drop_last();
    let job = before.job;
    crate::histories::had_more(log);
    init_facts_stay(req, log);
    assert(had(log, b, ev));
    match (before.at, ev) {
        (InitStep::WorkTree, Event::Git(out)) => {
            if out is Some && out->0.success {
                assert(had(
                    log,
                    Action::GitIsWorkTree { dir: job.path },
                    Event::Git(Some(out->0)),
                ));
                assert(is_repository(log, job.path));
            }
        },
        (InitStep::Remote, Event::Git(out)) => {
            assert(had(log, Action::GitRemoteUrl { dir: job.path }, Event::Git(out)));
            let url = if job.base_branch is Some {
                n->Act_0.at->NameTaken_remote_url
            } else {
                n->Act_0.at->Head_remote_url
            };
            assert(is_said(log, Action::GitRemoteUrl { dir: job.path }, url));
        },
        (InitStep::Head { remote_url }, Event::Git(out)) => {
            assert(had(log, Action::GitHeadRef { dir: job.path }, Event::Git(out)));
            assert(is_said(
                log,
                Action::GitHeadRef { dir: job.path },
                n->Act_0.at->NameTaken_head_ref,
            ));
        },
        (InitStep::Create, Event::Project(Ok(project))) => {
            assert(had(
                log,
                Action::CreateProject { params: b->CreateProject_params },
                Event::Project(Ok(project)),
            ));
            assert(is_made(req, log, project));
        },
        (InitStep::Home { project }, Event::Text(Ok(home))) => {
            assert(had(log, Action::NflowHome, Event::Text(Ok(home))));
        },
        (InitStep::SpecsDir { project, dir }, Event::Done(Ok(_))) => {
            assert(had(
                log,
                Action::CreateDir { path: b->CreateDir_path },
                Event::Done(Ok(())),
            ));
            assert(has_place(req, log, "specs"@));
            let home = choose|home: String| #[trigger]
                had(init, Action::NflowHome, Event::Text(Ok(home))) && dir@ == place_of(
                    home@,
                    job.name@,
                );
            assert(had(log, Action::NflowHome, Event::Text(Ok(home))));
        },
        (InitStep::LogsDir { project }, Event::Done(Ok(_))) => {
            assert(had(
                log,
                Action::CreateDir { path: b->CreateDir_path },
                Event::Done(Ok(())),
            ));
            assert(has_place(req, log, "agent-logs"@));
        },
        (InitStep::Insert { project }, Event::Done(Ok(_))) => {
            assert(went_well(log, b));
            created_fields(project);
            assert(is_made(req, log, project));
        },
        _ => {},
    }
}

/// A registration makes a project of the given name at the given path: one with a repository,
/// under a name that is not taken, with the remote and the branch that the repository tells of
/// or that are asked for. It stores just the project that was made, when its directories stand.
pub proof fn law_what_a_registration_does(
    req: Request,
    log: Seq<(Action, Event)>,
    s: ProjectInit,
    a: Action,
)
    requires
        reaches(req, log, Next::Act(s, a)),
    ensures
        match a {
            Action::PathExists { path } => req.params@.text_field("path"@) == Some(path@),
            Action::GitIsWorkTree { dir } => req.params@.text_field("path"@) == Some(dir@) && had(
                log,
                Action::PathExists { path: dir },
                Event::Flag(Ok(true)),
            ),
            Action::GitRemoteUrl { dir } => req.params@.text_field("path"@) == Some(dir@)
                && is_repository(log, dir),
            Action::GitHeadRef { dir } => req.params@.text_field("path"@) == Some(dir@)
                && is_repository(log, dir) && req.params@.text_field("base_branch"@) is None,
            Action::ProjectNameExists { name } => req.params@.text_field("name"@) == Some(name@),
            Action::CreateProject { params } => is_wanted(req, log, params),
            Action::NflowHome => exists|p: Project| #[trigger] is_made(req, log, p),
            Action::CreateDir { path } => (exists|p: Project| #[trigger] is_made(req, log, p)) && (
            is_place(req, log, path@, "specs"@) || (has_place(req, log, "specs"@) && is_place(
                req,
                log,
                path@,
                "agent-logs"@,
            ))),
            Action::InsertProject { project } => is_made(req, log, project) && has_place(
                req,
                log,
                "specs"@,
            ) && has_place(req, log, "agent-logs"@),
            _ => false,
        },
{
    init_keeps(req, log, s, a);
    match s.at {
        InitStep::Home { project } => {
            assert(is_made(req, log, project));
        },
        InitStep::SpecsDir { project, dir } => {
            assert(is_made(req, log, project));
        },
        InitStep::LogsDir { project } => {
            assert(is_made(req, log, project));
        },
        _ => {},
    }
}

/// A registration fails just where an outcome refuses it, and one that goes well tells of the
/// project that was stored.
pub proof fn law_what_a_registration_comes_to(
    req: Request,
    log: Seq<(Action, Event)>,
    n: Next<ProjectInit>,
)
    requires
        reaches(req, log, n),
    ensures
        !(n is End),
        log.len() > 0 ==> (refuses_project(log.last().0, log.last().1) <==> n is Reply
            && n->Reply_0.status == ResponseStatus::Error),
        n matches Next::Reply(r) ==> r.id == req.id && (r.status == ResponseStatus::Success
            ==> tells_of_project(req, log, r.data@)),
{
    if log.len() > 0 {
        let before = crate::histories::before_last::<ProjectInit>(req, log, n);
        init_keeps(req, log.drop_last(), before, log.last().0);
        init_step(req, log, before, n);
    }
}

} // verus!
