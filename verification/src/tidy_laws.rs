//! What `worktree.clean` and `cleanup.logs` are for, over the whole course of a request.
use vstd::prelude::*;
use crate::cleanup::{CleanupStep, LogCleanup};
use crate::effects::{Action, Event, Next};
use crate::histories::{had, reaches, Machine};
use crate::json::JsonV;
use crate::model::{FileEntry, Project, WaveStory, WorkItemStatus};
use crate::project_laws::{place_of, went_well};
use crate::protocol::{Request, ResponseStatus};
use crate::worktrees::{CleanStep, WorktreeClean};

verus! {

impl Machine for WorktreeClean {
    open spec fn takes_up(req: Request, n: Next<WorktreeClean>) -> bool {
        WorktreeClean::begins(req, n)
    }

    open spec fn leads(self, ev: Event, n: Next<WorktreeClean>) -> bool {
        self.follows(ev, n)
    }
}

impl Machine for LogCleanup {
    open spec fn takes_up(req: Request, n: Next<LogCleanup>) -> bool {
        LogCleanup::begins(req, n)
    }

    open spec fn leads(self, ev: Event, n: Next<LogCleanup>) -> bool {
        self.follows(ev, n)
    }
}

/// Whether everything is to be removed, whatever its state.
pub open spec fn takes_all(req: Request) -> bool {
    req.params@.truth_field("all"@) == Some(true)
}

// ---- worktree.clean ----

/// Whether the stories are those of the named project that have a worktree.
pub open spec fn have_worktrees(
    req: Request,
    log: Seq<(Action, Event)>,
    project: Project,
    stories: Vec<WaveStory>,
) -> bool {
    &&& exists|name: String|
        req.params@.text_field("project"@) == Some(name@) && #[trigger] had(
            log,
            Action::GetProjectByName { name },
            Event::MaybeProject(Ok(Some(project))),
        )
    &&& had(
        log,
        Action::ListWorktreeStories { project: project.id },
        Event::WaveStories(Ok(stories)),
    )
}

/// Whether work on the story is over.
pub open spec fn is_past(s: WaveStory) -> bool {
    s.story.status == WorkItemStatus::Done || s.story.status == WorkItemStatus::Cancelled
}

/// Whether the worktree of the story is to be removed.
pub open spec fn is_litter(req: Request, s: WaveStory) -> bool {
    s.story.worktree_path is Some && (takes_all(req) || is_past(s))
}

pub open spec fn litter(req: Request, stories: Seq<WaveStory>) -> Seq<WaveStory> {
    stories.filter(|s: WaveStory| is_litter(req, s))
}

proof fn litter_is_cleaned(req: Request, stories: Seq<WaveStory>)
    ensures
        crate::worktrees::to_clean(stories, takes_all(req)) == litter(req, stories),
        forall|i: int|
            0 <= i < litter(req, stories).len() ==> is_litter(
                req,
                #[trigger] litter(req, stories)[i],
            ) && stories.contains(litter(req, stories)[i]),
        crate::worktrees::some_active(stories) <==> exists|s: WaveStory| #[trigger]
            stories.contains(s) && !is_past(s),
{
    let all = takes_all(req);
    let keep = |s: WaveStory|
        (all || crate::worktrees::is_over(s)) && s.story.worktree_path is Some;
    let wanted = |s: WaveStory| is_litter(req, s);
    assert(keep =~= wanted);
    crate::seqs::filter_bound(stories, wanted);
    assert forall|i: int| 0 <= i < litter(req, stories).len() implies is_litter(
        req,
        #[trigger] litter(req, stories)[i],
    ) && stories.contains(litter(req, stories)[i]) by {
        crate::seqs::filter_contains(stories, wanted, litter(req, stories)[i]);
        assert(litter(req, stories).contains(litter(req, stories)[i]));
    }
    if crate::worktrees::some_active(stories) {
        let i = choose|i: int|
            0 <= i < stories.len() && !crate::worktrees::is_over(#[trigger] stories[i]);
        assert(stories.contains(stories[i]));
    }
    if exists|s: WaveStory| #[trigger] stories.contains(s) && !is_past(s) {
        let s = choose|s: WaveStory| #[trigger] stories.contains(s) && !is_past(s);
        let i = choose|i: int| 0 <= i < stories.len() && stories[i] == s;
        assert(!crate::worktrees::is_over(stories[i]));
    }
}

/// Whether the action removes the worktree of the story from the repository of the project.
pub open spec fn is_removal(a: Action, project: Project, s: WaveStory) -> bool {
    &&& a matches Action::RemoveWorktree { repo, worktree }
    &&& repo == project.path
    &&& s.story.worktree_path is Some
    &&& worktree@ == s.story.worktree_path->0@
}

/// Whether it was tried to remove the worktree of the story.
pub open spec fn was_removed(log: Seq<(Action, Event)>, project: Project, s: WaveStory) -> bool {
    exists|a: Action, ev: Event| #[trigger] had(log, a, ev) && is_removal(a, project, s)
}

/// Whether the worktree of the story was removed and forgotten.
pub open spec fn is_swept(log: Seq<(Action, Event)>, project: Project, s: WaveStory) -> bool {
    was_removed(log, project, s) && went_well(log, Action::ClearWorktree { story: s.story.id })
}

spec fn clean_state(
    req: Request,
    log: Seq<(Action, Event)>,
    repo: String,
    stories: Seq<WaveStory>,
    done: int,
    active: bool,
    project: Project,
    found: Vec<WaveStory>,
) -> bool {
    &&& have_worktrees(req, log, project, found)
    &&& repo == project.path
    &&& stories == litter(req, found@)
    &&& active == crate::worktrees::some_active(found@)
    &&& 0 <= done <= stories.len()
    &&& forall|i: int| 0 <= i < done ==> is_swept(log, project, #[trigger] stories[i])
}

spec fn clean_holds(req: Request, log: Seq<(Action, Event)>, s: WorktreeClean, a: Action) -> bool {
    &&& s.job.id == req.id
    &&& req.params@.text_field("project"@) == Some(s.job.project_name@)
    &&& s.job.all == takes_all(req)
    &&& match s.at {
        CleanStep::Project => log.len() == 0 && a == (Action::GetProjectByName {
            name: s.job.project_name,
        }),
        CleanStep::Stories { repo } => exists|name: String, project: Project|
            req.params@.text_field("project"@) == Some(name@) && #[trigger] had(
                log,
                Action::GetProjectByName { name },
                Event::MaybeProject(Ok(Some(project))),
            ) && repo == project.path && a == (Action::ListWorktreeStories {
                project: project.id,
            }),
        CleanStep::Remove { repo, stories, done, active } => exists|
            project: Project,
            found: Vec<WaveStory>,
        |
            #[trigger] clean_state(
                req,
                log,
                repo,
                stories@,
                done as int,
                active,
                project,
                found,
            ) && done < stories@.len() && is_removal(a, project, stories@[done as int]),
        CleanStep::Clear { repo, stories, done, active } => exists|
            project: Project,
            found: Vec<WaveStory>,
        |
            #[trigger] clean_state(
                req,
                log,
                repo,
                stories@,
                done as int,
                active,
                project,
                found,
            ) && done < stories@.len() && was_removed(log, project, stories@[done as int]) && a
                == (Action::ClearWorktree { story: stories@[done as int].story.id }),
    }
}

proof fn clean_state_stays(
    req: Request,
    log: Seq<(Action, Event)>,
    repo: String,
    stories: Seq<WaveStory>,
    done: int,
    active: bool,
    project: Project,
    found: Vec<WaveStory>,
)
    requires
        log.len() > 0,
        clean_state(req, log.drop_last(), repo, stories, done, active, project, found),
    ensures
        clean_state(req, log, repo, stories, done, active, project, found),
        forall|s: WaveStory| #[trigger]
            was_removed(log.drop_last(), project, s) ==> was_removed(log, project, s),
{
    crate::histories::had_more(log);
    let init = log.drop_last();
    assert forall|s: WaveStory| #[trigger] was_removed(init, project, s) implies was_removed(
        log,
        project,
        s,
    ) by {}
    assert forall|i: int| 0 <= i < done implies is_swept(log, project, #[trigger] stories[i]) by {
        assert(is_swept(init, project, stories[i]));
    }
}

proof fn clean_keeps(req: Request, log: Seq<(Action, Event)>, s: WorktreeClean, a: Action)
    requires
        reaches(req, log, Next::Act(s, a)),
    ensures
        clean_holds(req, log, s, a),
    decreases log.len(),
{
    if log.len() > 0 {
        let (b, ev) = log.last();
        let before = crate::histories::before_last::<WorktreeClean>(req, log, Next::Act(s, a));
        clean_keeps(req, log.drop_last(), before, b);
        clean_step(req, log, before, Next::Act(s, a));
    }
}

/// What an answer of a cleaning that went well says: each worktree that was removed.
pub open spec fn tells_of_cleaning(req: Request, log: Seq<(Action, Event)>, data: JsonV) -> bool {
    exists|project: Project, found: Vec<WaveStory>|
        #[trigger] have_worktrees(req, log, project, found) && lists_litter(
            req,
            log,
            project,
            found@,
            data,
        )
}

pub open spec fn lists_litter(
    req: Request,
    log: Seq<(Action, Event)>,
    project: Project,
    found: Seq<WaveStory>,
    data: JsonV,
) -> bool {
    let gone = litter(req, found);
    &&& forall|s: WaveStory| #[trigger]
        found.contains(s) && is_litter(req, s) ==> is_swept(log, project, s)
    &&& data.text_field("project"@) == req.params@.text_field("project"@)
    &&& data.field("count"@) == Some(JsonV::Int(gone.len() as int))
    &&& data.field("removed"@) matches Some(JsonV::Arr(entries))
    &&& entries.len() == gone.len()
    &&& forall|i: int|
        0 <= i < gone.len() ==> (#[trigger] entries[i]).text_field("path"@) == Some(
            gone[i].story.worktree_path->0@,
        ) && entries[i].text_field("story_id"@) == Some(
            crate::plan_view::wave_id(gone[i].wave, gone[i].story.short_id@),
        )
    &&& data.field("warning"@) is Some <==> takes_all(req) && exists|s: WaveStory| #[trigger]
        found.contains(s) && !is_past(s)
}

proof fn cleaned_fields(
    req: Request,
    log: Seq<(Action, Event)>,
    name: Seq<char>,
    project: Project,
    found: Seq<WaveStory>,
)
    requires
        req.params@.text_field("project"@) == Some(name),
        forall|i: int|
            0 <= i < litter(req, found).len() ==> is_swept(
                log,
                project,
                #[trigger] litter(req, found)[i],
            ),
    ensures
        lists_litter(
            req,
            log,
            project,
            found,
            crate::worktrees::cleaned(
                name,
                litter(req, found),
                takes_all(req) && crate::worktrees::some_active(found),
            ),
        ),
{
    broadcast use crate::histories::field_of_with;

    reveal_strlit("project");
    reveal_strlit("removed");
    reveal_strlit("count");
    reveal_strlit("warning");
    reveal_strlit("path");
    reveal_strlit("story_id");
    assert("project"@.len() == 7 && "project"@[0] == 'p');
    assert("removed"@.len() == 7 && "removed"@[0] == 'r');
    assert("warning"@.len() == 7 && "warning"@[0] == 'w');
    assert("count"@.len() == 5);
    assert("path"@.len() == 4);
    assert("story_id"@.len() == 8);
    litter_is_cleaned(req, found);
    let gone = litter(req, found);
    let wanted = |s: WaveStory| is_litter(req, s);
    assert forall|s: WaveStory| #[trigger]
        found.contains(s) && is_litter(req, s) implies is_swept(log, project, s) by {
        crate::seqs::filter_contains(found, wanted, s);
        let i = choose|i: int| 0 <= i < gone.len() && gone[i] == s;
        assert(is_swept(log, project, gone[i]));
    }
    let entries = gone.map_values(|s: WaveStory| crate::worktrees::removed_entry(s));
    assert forall|i: int| 0 <= i < gone.len() implies (#[trigger] entries[i]).text_field("path"@)
        == Some(gone[i].story.worktree_path->0@) && entries[i].text_field("story_id"@) == Some(
        crate::plan_view::wave_id(gone[i].wave, gone[i].story.short_id@),
    ) by {
        assert(is_litter(req, gone[i]));
        assert(entries[i] == crate::worktrees::removed_entry(gone[i]));
    }
}

proof fn clean_goes_on(
    req: Request,
    log: Seq<(Action, Event)>,
    before: WorktreeClean,
    repo: String,
    stories: Seq<WaveStory>,
    done: int,
    active: bool,
    project: Project,
    found: Vec<WaveStory>,
    n: Next<WorktreeClean>,
)
    requires
        before.job.id == req.id,
        req.params@.text_field("project"@) == Some(before.job.project_name@),
        before.job.all == takes_all(req),
        clean_state(req, log, repo, stories, done, active, project, found),
        WorktreeClean::removes(before.job, repo, stories, done, active, n),
    ensures
        n matches Next::Act(s, a) ==> clean_holds(req, log, s, a),
        n matches Next::Reply(r) ==> r.id == req.id && r.status == ResponseStatus::Success
            && tells_of_cleaning(req, log, r.data@),
        !(n is End),
{
    litter_is_cleaned(req, found@);
    if done == stories.len() {
        cleaned_fields(req, log, before.job.project_name@, project, found@);
        assert(have_worktrees(req, log, project, found));
    } else {
        assert(is_litter(req, litter(req, found@)[done]));
        assert(clean_state(
            req,
            log,
            n->Act_0.at->Remove_repo,
            n->Act_0.at->Remove_stories@,
            n->Act_0.at->Remove_done as int,
            n->Act_0.at->Remove_active,
            project,
            found,
        ));
    }
}

/// Why a cleaning fails after this outcome: there is no such project, or the database failed. A
/// worktree that cannot be removed is no reason.
pub open spec fn refuses_cleaning(a: Action, ev: Event) -> bool {
    match ev {
        Event::MaybeProject(r) => !(r matches Ok(Some(_))),
        Event::WaveStories(r) => r is Err,
        Event::Done(r) => r is Err && a is ClearWorktree,
        _ => false,
    }
}

/// One step of a cleaning.
proof fn clean_step(
    req: Request,
    log: Seq<(Action, Event)>,
    before: WorktreeClean,
    n: Next<WorktreeClean>,
)
    requires
        log.len() > 0,
        clean_holds(req, log.drop_last(), before, log.last().0),
        before.follows(log.last().1, n),
    ensures
        n matches Next::Act(s, a) ==> clean_holds(req, log, s, a),
        n matches Next::Reply(r) ==> r.id == req.id && (r.status == ResponseStatus::Success
            ==> tells_of_cleaning(req, log, r.data@)),
        refuses_cleaning(log.last().0, log.last().1) <==> n is Reply && n->Reply_0.status
            == ResponseStatus::Error,
        !(n is End),
{
    let (b, ev) = log.last();
    let init = log.drop_last();
    crate::histories::had_more(log);
    assert(had(log, b, ev));
    match (before.at, ev) {
        (CleanStep::Project, Event::MaybeProject(Ok(Some(project)))) => {
            assert(had(
                log,
                Action::GetProjectByName { name: before.job.project_name },
                Event::MaybeProject(Ok(Some(project))),
            ));
        },
        (CleanStep::Stories { repo }, Event::WaveStories(Ok(found))) => {
            let (name, project) = choose|name: String, project: Project|
                req.params@.text_field("project"@) == Some(name@) && #[trigger] had(
                    init,
                    Action::GetProjectByName { name },
                    Event::MaybeProject(Ok(Some(project))),
                ) && repo == project.path && b == (Action::ListWorktreeStories {
                    project: project.id,
                });
            assert(had(
                log,
                Action::GetProjectByName { name },
                Event::MaybeProject(Ok(Some(project))),
            ));
            assert(have_worktrees(req, log, project, found));
            litter_is_cleaned(req, found@);
            clean_goes_on(
                req,
                log,
                before,
                repo,
                litter(req, found@),
                0,
                crate::worktrees::some_active(found@),
                project,
                found,
                n,
            );
        },
        (CleanStep::Remove { repo, stories, done, active }, Event::Done(_)) => {
            let (project, found) = choose|project: Project, found: Vec<WaveStory>|
                #[trigger] clean_state(
                    req,
                    init,
                    repo,
                    stories@,
                    done as int,
                    active,
                    project,
                    found,
                ) && done < stories@.len() && is_removal(b, project, stories@[done as int]);
            clean_state_stays(req, log, repo, stories@, done as int, active, project, found);
            assert(was_removed(log, project, stories@[done as int]));
            assert(clean_state(
                req,
                log,
                n->Act_0.at->Clear_repo,
                n->Act_0.at->Clear_stories@,
                n->Act_0.at->Clear_done as int,
                n->Act_0.at->Clear_active,
                project,
                found,
            ));
        },
        (CleanStep::Clear { repo, stories, done, active }, Event::Done(Ok(_))) => {
            let (project, found) = choose|project: Project, found: Vec<WaveStory>|
                #[trigger] clean_state(
                    req,
                    init,
                    repo,
                    stories@,
                    done as int,
                    active,
                    project,
                    found,
                ) && done < stories@.len() && was_removed(init, project, stories@[done as int])
                    && b == (Action::ClearWorktree { story: stories@[done as int].story.id });
            clean_state_stays(req, log, repo, stories@, done as int, active, project, found);
            assert(is_swept(log, project, stories@[done as int]));
            assert(clean_state(req, log, repo, stories@, done + 1, active, project, found));
            clean_goes_on(
                req,
                log,
                before,
                repo,
                stories@,
                done + 1,
                active,
                project,
                found,
                n,
            );
        },
        _ => {},
    }
}

/// A cleaning removes only worktrees of stories of the named project: of those whose work is
/// over, unless all are asked for. It forgets a worktree just after it removed it.
pub proof fn law_what_a_cleaning_does(
    req: Request,
    log: Seq<(Action, Event)>,
    s: WorktreeClean,
    a: Action,
)
    requires
        reaches(req, log, Next::Act(s, a)),
    ensures
        match a {
            Action::GetProjectByName { name } => req.params@.text_field("project"@) == Some(name@),
            Action::ListWorktreeStories { project } => exists|name: String, p: Project|
                req.params@.text_field("project"@) == Some(name@) && #[trigger] had(
                    log,
                    Action::GetProjectByName { name },
                    Event::MaybeProject(Ok(Some(p))),
                ) && p.id == project,
            Action::RemoveWorktree { .. } => exists|
                project: Project,
                found: Vec<WaveStory>,
                story: WaveStory,
            |
                #[trigger] have_worktrees(req, log, project, found) && #[trigger] found@.contains(
                    story,
                ) && is_litter(req, story) && is_removal(a, project, story),
            Action::ClearWorktree { story: id } => exists|
                project: Project,
                found: Vec<WaveStory>,
                story: WaveStory,
            |
                #[trigger] have_worktrees(req, log, project, found) && #[trigger] found@.contains(
                    story,
                ) && is_litter(req, story) && id == story.story.id && was_removed(
                    log,
                    project,
                    story,
                ),
            _ => false,
        },
{
    clean_keeps(req, log, s, a);
    match s.at {
        CleanStep::Remove { repo, stories, done, active } => {
            let (project, found) = choose|project: Project, found: Vec<WaveStory>|
                #[trigger] clean_state(
                    req,
                    log,
                    repo,
                    stories@,
                    done as int,
                    active,
                    project,
                    found,
                ) && done < stories@.len() && is_removal(a, project, stories@[done as int]);
            litter_is_cleaned(req, found@);
            assert(is_litter(req, litter(req, found@)[done as int]));
            assert(have_worktrees(req, log, project, found) && found@.contains(
                stories@[done as int],
            ));
        },
        CleanStep::Clear { repo, stories, done, active } => {
            let (project, found) = choose|project: Project, found: Vec<WaveStory>|
                #[trigger] clean_state(
                    req,
                    log,
                    repo,
                    stories@,
                    done as int,
                    active,
                    project,
                    found,
                ) && done < stories@.len() && was_removed(log, project, stories@[done as int]) && a
                    == (Action::ClearWorktree { story: stories@[done as int].story.id });
            litter_is_cleaned(req, found@);
            assert(is_litter(req, litter(req, found@)[done as int]));
            assert(have_worktrees(req, log, project, found) && found@.contains(
                stories@[done as int],
            ));
        },
        _ => {},
    }
}

/// A cleaning that goes well has removed and forgotten every worktree that is to be removed, and
/// tells of each.
pub proof fn law_what_a_cleaning_comes_to(
    req: Request,
    log: Seq<(Action, Event)>,
    n: Next<WorktreeClean>,
)
    requires
        reaches(req, log, n),
    ensures
        !(n is End),
        log.len() > 0 ==> (refuses_cleaning(log.last().0, log.last().1) <==> n is Reply
            && n->Reply_0.status == ResponseStatus::Error),
        n matches Next::Reply(r) ==> r.id == req.id && (r.status == ResponseStatus::Success
            ==> tells_of_cleaning(req, log, r.data@)),
{
    if log.len() > 0 {
        let before = crate::histories::before_last::<WorktreeClean>(req, log, n);
        clean_keeps(req, log.drop_last(), before, log.last().0);
        clean_step(req, log, before, n);
    }
}

// ---- cleanup.logs ----

/// Whether nothing is to be removed.
pub open spec fn only_looks(req: Request) -> bool {
    req.params@.truth_field("dry_run"@) == Some(true)
}

/// Whether the file is a log that is to be removed: one of the given age, or any.
pub open spec fn is_stale(req: Request, f: FileEntry) -> bool {
    &&& f.is_file
    &&& f.size is Some
    &&& f.name@.len() > 4
    &&& f.name@[f.name@.len() - 4] == '.' && f.name@[f.name@.len() - 3] == 'l'
        && f.name@[f.name@.len() - 2] == 'o' && f.name@[f.name@.len() - 1] == 'g'
    &&& takes_all(req) || {
        &&& f.age is Some
        &&& req.params@.text_field("older_than"@) is Some
        &&& crate::cleanup::duration(req.params@.text_field("older_than"@)->0) is Some
        &&& f.age->0 >= crate::cleanup::duration(req.params@.text_field("older_than"@)->0)->0
    }
}

pub open spec fn stale(req: Request, files: Seq<FileEntry>) -> Seq<FileEntry> {
    files.filter(|f: FileEntry| is_stale(req, f))
}

spec fn is_age(req: Request, max_age: Option<u64>) -> bool {
    match (max_age, req.params@.text_field("older_than"@)) {
        (Some(a), Some(t)) => crate::cleanup::duration(t) == Some(a as int),
        (None, None) => true,
        _ => false,
    }
}

proof fn stale_is_due(req: Request, files: Seq<FileEntry>, max_age: Option<u64>)
    requires
        is_age(req, max_age),
    ensures
        crate::cleanup::due(files, max_age, takes_all(req)) == stale(req, files),
        forall|i: int|
            0 <= i < stale(req, files).len() ==> is_stale(req, #[trigger] stale(req, files)[i])
                && files.contains(stale(req, files)[i]),
{
    let all = takes_all(req);
    let keep = |f: FileEntry| crate::cleanup::is_due(f, max_age, all);
    let wanted = |f: FileEntry| is_stale(req, f);
    assert forall|f: FileEntry| #[trigger] keep(f) == wanted(f) by {
        let name = f.name@;
        if name.len() > 4 {
            let tail = name.skip(name.len() - 4);
            assert(tail[0] == name[name.len() - 4] && tail[1] == name[name.len() - 3] && tail[2]
                == name[name.len() - 2] && tail[3] == name[name.len() - 1]);
            if tail[0] == '.' && tail[1] == 'l' && tail[2] == 'o' && tail[3] == 'g' {
                assert(tail =~= seq!['.', 'l', 'o', 'g']);
            }
        }
    }
    assert(keep =~= wanted);
    crate::seqs::filter_bound(files, wanted);
    assert forall|i: int| 0 <= i < stale(req, files).len() implies is_stale(
        req,
        #[trigger] stale(req, files)[i],
    ) && files.contains(stale(req, files)[i]) by {
        crate::seqs::filter_contains(files, wanted, stale(req, files)[i]);
        assert(stale(req, files).contains(stale(req, files)[i]));
    }
}

/// Whether the directory is that of the logs of the named project.
pub open spec fn is_logs_dir(req: Request, log: Seq<(Action, Event)>, dir: String) -> bool {
    exists|home: String| #[trigger]
        had(log, Action::NflowHome, Event::Text(Ok(home))) && dir@ == crate::text::joined(
            place_of(home@, req.params@.text_field("project"@)->0),
            "agent-logs"@,
        )
}

/// Whether the files are those in the directory of the logs.
pub open spec fn are_there(
    req: Request,
    log: Seq<(Action, Event)>,
    dir: String,
    files: Vec<FileEntry>,
) -> bool {
    &&& is_logs_dir(req, log, dir)
    &&& had(log, Action::PathExists { path: dir }, Event::Flag(Ok(true)))
    &&& had(log, Action::ListFiles { dir }, Event::Files(Ok(files)))
}

/// Whether the action removes the file.
pub open spec fn is_disposal(a: Action, dir: String, f: FileEntry) -> bool {
    a matches Action::RemoveFile { path } && path@ == crate::text::joined(dir@, f.name@)
}

pub open spec fn was_disposed_of(log: Seq<(Action, Event)>, dir: String, f: FileEntry) -> bool {
    exists|a: Action, ev: Event| #[trigger] had(log, a, ev) && is_disposal(a, dir, f)
}

spec fn logs_state(
    req: Request,
    log: Seq<(Action, Event)>,
    dir: String,
    files: Seq<FileEntry>,
    done: int,
    found: Vec<FileEntry>,
) -> bool {
    &&& are_there(req, log, dir, found)
    &&& files == stale(req, found@)
    &&& !only_looks(req)
    &&& 0 <= done <= files.len()
    &&& forall|i: int| 0 <= i < done ==> was_disposed_of(log, dir, #[trigger] files[i])
}

spec fn logs_holds(req: Request, log: Seq<(Action, Event)>, s: LogCleanup, a: Action) -> bool {
    &&& s.job.id == req.id
    &&& req.params@.text_field("project"@) == Some(s.job.project_name@)
    &&& s.job.all == takes_all(req)
    &&& s.job.dry_run == only_looks(req)
    &&& is_age(req, s.job.max_age)
    &&& s.job.max_age is Some || s.job.all
    &&& match s.at {
        CleanupStep::Home => log.len() == 0 && a == Action::NflowHome,
        CleanupStep::Exists { dir } => is_logs_dir(req, log, dir) && a == (Action::PathExists {
            path: dir,
        }),
        CleanupStep::List { dir } => {
            &&& is_logs_dir(req, log, dir)
            &&& had(log, Action::PathExists { path: dir }, Event::Flag(Ok(true)))
            &&& a == Action::ListFiles { dir }
        },
        CleanupStep::Remove { dir, files, done } => exists|found: Vec<FileEntry>|
            #[trigger] logs_state(req, log, dir, files@, done as int, found) && done < files@.len()
                && is_disposal(a, dir, files@[done as int]),
    }
}

proof fn logs_keeps(req: Request, log: Seq<(Action, Event)>, s: LogCleanup, a: Action)
    requires
        reaches(req, log, Next::Act(s, a)),
    ensures
        logs_holds(req, log, s, a),
    decreases log.len(),
{
    if log.len() > 0 {
        let (b, ev) = log.last();
        let before = crate::histories::before_last::<LogCleanup>(req, log, Next::Act(s, a));
        logs_keeps(req, log.drop_last(), before, b);
        logs_step(req, log, before, Next::Act(s, a));
    }
}

/// What an answer of a clearing of logs says of these files.
pub open spec fn lists_logs(req: Request, gone: Seq<FileEntry>, data: JsonV) -> bool {
    &&& data.text_field("project"@) == req.params@.text_field("project"@)
    &&& data.field("count"@) == Some(JsonV::Int(gone.len() as int))
    &&& data.field("total_size"@) == Some(JsonV::Int(crate::model::total_size(gone) as int))
    &&& data.truth_field("dry_run"@) == Some(only_looks(req))
    &&& data.field("files"@) matches Some(JsonV::Arr(entries))
    &&& entries.len() == gone.len()
    &&& forall|i: int|
        0 <= i < gone.len() ==> (#[trigger] entries[i]).text_field("path"@) == Some(gone[i].name@)
            && entries[i].field("size"@) == Some(JsonV::Int(gone[i].bytes() as int))
}

/// What an answer of a clearing of logs that went well says: each log that was removed, or would
/// be.
pub open spec fn tells_of_logs(req: Request, log: Seq<(Action, Event)>, data: JsonV) -> bool {
    ||| lists_logs(req, Seq::empty(), data) && exists|dir: String, ev: Event|
        is_logs_dir(req, log, dir) && #[trigger] had(log, Action::PathExists { path: dir }, ev)
            && ev != Event::Flag(Ok(true))
    ||| exists|dir: String, found: Vec<FileEntry>|
        #[trigger] are_there(req, log, dir, found) && lists_logs(req, stale(req, found@), data) && (
        !only_looks(req) ==> forall|f: FileEntry| #[trigger]
            found@.contains(f) && is_stale(req, f) ==> was_disposed_of(log, dir, f))
}

proof fn logs_fields(req: Request, name: Seq<char>, gone: Seq<FileEntry>, dry: bool)
    requires
        req.params@.text_field("project"@) == Some(name),
        dry == only_looks(req),
    ensures
        lists_logs(req, gone, crate::cleanup::cleaned(name, gone, dry)),
{
    broadcast use crate::histories::field_of_with;

    reveal_strlit("project");
    reveal_strlit("files");
    reveal_strlit("count");
    reveal_strlit("total_size");
    reveal_strlit("dry_run");
    reveal_strlit("path");
    reveal_strlit("size");
    assert("project"@.len() == 7 && "project"@[0] == 'p');
    assert("dry_run"@.len() == 7 && "dry_run"@[0] == 'd');
    assert("files"@.len() == 5 && "files"@[0] == 'f');
    assert("count"@.len() == 5 && "count"@[0] == 'c');
    assert("total_size"@.len() == 10);
    assert("path"@.len() == 4 && "path"@[0] == 'p');
    assert("size"@.len() == 4 && "size"@[0] == 's');
    let entries = gone.map_values(|f: FileEntry| crate::cleanup::file_entry(f));
    assert forall|i: int| 0 <= i < gone.len() implies (#[trigger] entries[i]).text_field("path"@)
        == Some(gone[i].name@) && entries[i].field("size"@) == Some(
        JsonV::Int(gone[i].bytes() as int),
    ) by {
        assert(entries[i] == crate::cleanup::file_entry(gone[i]));
    }
}

proof fn logs_go_on(
    req: Request,
    log: Seq<(Action, Event)>,
    before: LogCleanup,
    dir: String,
    files: Seq<FileEntry>,
    done: int,
    found: Vec<FileEntry>,
    n: Next<LogCleanup>,
)
    requires
        before.job.id == req.id,
        req.params@.text_field("project"@) == Some(before.job.project_name@),
        before.job.all == takes_all(req),
        before.job.dry_run == only_looks(req),
        is_age(req, before.job.max_age),
        before.job.max_age is Some || before.job.all,
        logs_state(req, log, dir, files, done, found),
        LogCleanup::removes(before.job, dir, files, done, n),
    ensures
        n matches Next::Act(s, a) ==> logs_holds(req, log, s, a),
        n matches Next::Reply(r) ==> r.id == req.id && r.status == ResponseStatus::Success
            && tells_of_logs(req, log, r.data@),
        !(n is End),
{
    if done == files.len() {
        logs_fields(req, before.job.project_name@, files, before.job.dry_run);
        assert forall|f: FileEntry| #[trigger]
            found@.contains(f) && is_stale(req, f) implies was_disposed_of(log, dir, f) by {
            crate::seqs::filter_contains(found@, |f: FileEntry| is_stale(req, f), f);
            let i = choose|i: int| 0 <= i < files.len() && files[i] == f;
            assert(was_disposed_of(log, dir, files[i]));
        }
        assert(are_there(req, log, dir, found));
    } else {
        assert(logs_state(
            req,
            log,
            n->Act_0.at->Remove_dir,
            n->Act_0.at->Remove_files@,
            n->Act_0.at->Remove_done as int,
            found,
        ));
    }
}

/// One step of a clearing of logs.
proof fn logs_step(req: Request, log: Seq<(Action, Event)>, before: LogCleanup, n: Next<LogCleanup>)
    requires
        log.len() > 0,
        logs_holds(req, log.drop_last(), before, log.last().0),
        before.follows(log.last().1, n),
    ensures
        n matches Next::Act(s, a) ==> logs_holds(req, log, s, a),
        n matches Next::Reply(r) ==> r.id == req.id && (r.status == ResponseStatus::Success
            ==> tells_of_logs(req, log, r.data@)),
        n is Reply && n->Reply_0.status == ResponseStatus::Error <==> match log.last().1 {
            Event::Text(r) => r is Err,
            Event::Files(r) => r is Err,
            _ => false,
        },
        !(n is End),
{
    let (b, ev) = log.last();
    let init = log.drop_last();
    let job = before.job;
    crate::histories::had_more(log);
    assert(had(log, b, ev));
    assert forall|d: String| #[trigger] is_logs_dir(req, init, d) implies is_logs_dir(
        req,
        log,
        d,
    ) by {}
    match (before.at, ev) {
        (CleanupStep::Home, Event::Text(Ok(home))) => {
            assert(had(log, Action::NflowHome, Event::Text(Ok(home))));
        },
        (CleanupStep::Exists { dir }, Event::Flag(r)) => {
            assert(is_logs_dir(req, log, dir));
            logs_fields(req, job.project_name@, Seq::empty(), job.dry_run);
            assert(had(log, Action::PathExists { path: dir }, ev));
        },
        (CleanupStep::List { dir }, Event::Files(Ok(found))) => {
            assert(is_logs_dir(req, log, dir));
            assert(are_there(req, log, dir, found));
            stale_is_due(req, found@, job.max_age);
            if job.dry_run {
                logs_fields(req, job.project_name@, stale(req, found@), true);
            } else {
                logs_go_on(req, log, before, dir, stale(req, found@), 0, found, n);
            }
        },
        (CleanupStep::Remove { dir, files, done }, Event::Done(_)) => {
            let found = choose|found: Vec<FileEntry>|
                #[trigger] logs_state(req, init, dir, files@, done as int, found) && done
                    < files@.len() && is_disposal(b, dir, files@[done as int]);
            assert(is_logs_dir(req, log, dir));
            assert(are_there(req, log, dir, found));
            assert(was_disposed_of(log, dir, files@[done as int]));
            assert forall|i: int| 0 <= i < done + 1 implies was_disposed_of(
                log,
                dir,
                #[trigger] files@[i],
            ) by {
                if i < done {
                    assert(was_disposed_of(init, dir, files@[i]));
                }
            }
            logs_go_on(req, log, before, dir, files@, done + 1, found, n);
        },
        _ => {},
    }
}

/// A clearing of logs looks into the directory of the logs of the named project, and removes
/// nothing from it but logs that are old enough, or all logs if asked to; a dry run removes
/// nothing.
pub proof fn law_what_a_clearing_of_logs_does(
    req: Request,
    log: Seq<(Action, Event)>,
    s: LogCleanup,
    a: Action,
)
    requires
        reaches(req, log, Next::Act(s, a)),
    ensures
        match a {
            Action::NflowHome => log.len() == 0,
            Action::PathExists { path } => is_logs_dir(req, log, path),
            Action::ListFiles { dir } => is_logs_dir(req, log, dir),
            Action::RemoveFile { .. } => !only_looks(req) && exists|
                dir: String,
                found: Vec<FileEntry>,
                f: FileEntry,
            |
                #[trigger] are_there(req, log, dir, found) && #[trigger] found@.contains(f)
                    && is_stale(req, f) && is_disposal(a, dir, f),
            _ => false,
        },
{
    logs_keeps(req, log, s, a);
    match s.at {
        CleanupStep::Remove { dir, files, done } => {
            let found = choose|found: Vec<FileEntry>|
                #[trigger] logs_state(req, log, dir, files@, done as int, found) && done
                    < files@.len() && is_disposal(a, dir, files@[done as int]);
            stale_is_due(req, found@, s.job.max_age);
            assert(is_stale(req, stale(req, found@)[done as int]));
            assert(are_there(req, log, dir, found) && found@.contains(files@[done as int]));
        },
        _ => {},
    }
}

/// A clearing of logs that goes well has tried to remove every log that is to be removed, unless
/// it only looks, and tells of each. It fails only where the logs cannot be found or listed.
pub proof fn law_what_a_clearing_of_logs_comes_to(
    req: Request,
    log: Seq<(Action, Event)>,
    n: Next<LogCleanup>,
)
    requires
        reaches(req, log, n),
    ensures
        !(n is End),
        log.len() > 0 ==> (n is Reply && n->Reply_0.status == ResponseStatus::Error
            <==> match log.last().1 {
            Event::Text(r) => r is Err,
            Event::Files(r) => r is Err,
            _ => false,
        }),
        n matches Next::Reply(r) ==> r.id == req.id && (r.status == ResponseStatus::Success
            ==> tells_of_logs(req, log, r.data@)),
{
    if log.len() > 0 {
        let before = crate::histories::before_last::<LogCleanup>(req, log, n);
        logs_keeps(req, log.drop_last(), before, log.last().0);
        logs_step(req, log, before, n);
    }
}

} // verus!
