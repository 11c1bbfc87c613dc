//! `worktree.list` and `worktree.clean`: the worktrees of a project's stories.
use vstd::prelude::*;
use crate::effects::{missing_parameter, no_project, Action, Event, Next, Run};
use crate::json::{Json, JsonV};
use crate::model::{WaveStory, WorkItemStatus};
use crate::plan_view::wave_short_id;
use crate::protocol::Request;
use crate::text::cat;

verus! {

/// A `worktree.list` request.
pub struct ListJob {
    pub id: String,
    pub project_name: String,
}

pub enum ListStep {
    Project,
    Stories,
}

pub type WorktreeList = Run<ListJob, ListStep>;

/// A text, or the empty one.
pub open spec fn or_empty(t: Option<String>) -> Seq<char> {
    match t {
        Some(s) => s@,
        None => ""@,
    }
}

fn text_or_empty(t: &Option<String>) -> (r: Json)
    ensures
        r@ == JsonV::Str(or_empty(*t)),
{
    match t {
        Some(s) => Json::Str(s.clone()),
        None => Json::text(""),
    }
}

/// How a story with a worktree is listed.
pub open spec fn worktree_entry(s: WaveStory) -> JsonV {
    JsonV::object().with("path"@, JsonV::Str(or_empty(s.story.worktree_path))).with(
        "branch"@,
        JsonV::Str(or_empty(s.story.branch_name)),
    ).with(
        "story_id"@,
        JsonV::Str(crate::plan_view::wave_id(s.wave, s.story.short_id@)),
    ).with("status"@, JsonV::Str(s.story.status.name()))
}

/// The data that answers a `worktree.list`.
pub open spec fn listed(project: Seq<char>, stories: Seq<WaveStory>) -> JsonV {
    JsonV::object().with("project"@, JsonV::Str(project)).with(
        "worktrees"@,
        JsonV::Arr(stories.map_values(|s: WaveStory| worktree_entry(s))),
    ).with("count"@, JsonV::Int(stories.len() as int))
}

fn list_entries(stories: &Vec<WaveStory>) -> (r: Vec<Json>)
    ensures
        crate::json::json_views(r@) == stories@.map_values(|s: WaveStory| worktree_entry(s)),
{
    let ghost node = |s: WaveStory| worktree_entry(s);
    let mut out: Vec<Json> = Vec::new();
    let mut i: usize = 0;
    while i < stories.len()
        invariant
            i <= stories@.len(),
            node == (|s: WaveStory| worktree_entry(s)),
            crate::json::json_views(out@) == stories@.take(i as int).map_values(node),
        decreases stories.len() - i,
    {
        let s = &stories[i];
        let ghost before = crate::json::json_views(out@);
        let entry = Json::object().with("path", text_or_empty(&s.story.worktree_path)).with(
            "branch",
            text_or_empty(&s.story.branch_name),
        ).with(
            "story_id",
            Json::Str(wave_short_id(s.wave, s.story.short_id.as_str())),
        ).with("status", Json::text(s.story.status.as_str()));
        let ghost shown = entry@;
        out.push(entry);
        proof {
            assert(crate::json::json_views(out@) =~= before.push(shown));
            assert(stories@.take(i + 1) =~= stories@.take(i as int).push(*s));
            crate::seqs::map_push(stories@.take(i as int), *s, node);
        }
        i += 1;
    }
    assert(stories@.take(i as int) =~= stories@);
    out
}

impl Run<ListJob, ListStep> {
    pub open spec fn accepts(self, ev: Event) -> bool {
        match self.at {
            ListStep::Project => ev is MaybeProject,
            ListStep::Stories => ev is WaveStories,
        }
    }

    pub open spec fn begins(req: Request, n: Next<WorktreeList>) -> bool {
        match req.params@.text_field("project"@) {
            None => n.fails(req.id, crate::effects::missing_message("project"@)),
            Some(name) => {
                &&& n matches Next::Act(s, a)
                &&& n.goes(
                    s.job,
                    ListStep::Project,
                    Action::GetProjectByName { name: s.job.project_name },
                )
                &&& s.job.id == req.id
                &&& s.job.project_name@ == name
            },
        }
    }

    pub fn start(req: Request) -> (n: Next<WorktreeList>)
        ensures
            WorktreeList::begins(req, n),
            n matches Next::Act(s, a) ==> forall|e: Event| a.answered_by(e) ==> s.accepts(e),
    {
        let project_name = match req.params.str_field("project") {
            Some(v) => v,
            None => return missing_parameter(req.id, "project"),
        };
        let name = project_name.clone();
        Next::go(
            ListJob { id: req.id, project_name },
            ListStep::Project,
            Action::GetProjectByName { name },
        )
    }

    pub open spec fn follows(self, ev: Event, n: Next<WorktreeList>) -> bool {
        let job = self.job;
        match (self.at, ev) {
            (ListStep::Project, Event::MaybeProject(r)) => match r {
                Err(e) => n.fails(job.id, crate::effects::database_message(e@)),
                Ok(None) => n.fails(job.id, crate::effects::no_project_message(job.project_name@)),
                Ok(Some(project)) => n.goes(
                    job,
                    ListStep::Stories,
                    Action::ListWorktreeStories { project: project.id },
                ),
            },
            (ListStep::Stories, Event::WaveStories(r)) => match r {
                Err(e) => n.fails(job.id, crate::effects::database_message(e@)),
                Ok(stories) => n.replies(job.id, listed(job.project_name@, stories@)),
            },
            _ => false,
        }
    }

    pub fn step(self, ev: Event) -> (n: Next<WorktreeList>)
        requires
            self.accepts(ev),
        ensures
            self.follows(ev, n),
            n matches Next::Act(s, a) ==> forall|e: Event| a.answered_by(e) ==> s.accepts(e),
    {
        let Run { job, at } = self;
        match (at, ev) {
            (ListStep::Project, Event::MaybeProject(r)) => match r {
                Err(e) => Next::database_error(job.id, e.as_str()),
                Ok(None) => no_project(job.id, job.project_name.as_str()),
                Ok(Some(project)) => Next::go(
                    job,
                    ListStep::Stories,
                    Action::ListWorktreeStories { project: project.id },
                ),
            },
            (ListStep::Stories, Event::WaveStories(r)) => match r {
                Err(e) => Next::database_error(job.id, e.as_str()),
                Ok(stories) => {
                    let entries = list_entries(&stories);
                    Next::reply(
                        job.id,
                        Json::object().with("project", Json::Str(job.project_name)).with(
                            "worktrees",
                            Json::array(entries),
                        ).with("count", Json::U64(stories.len() as u64)),
                    )
                },
            },
            _ => Next::End,
        }
    }
}

// ---- worktree.clean ----

/// A `worktree.clean` request.
pub struct CleanJob {
    pub id: String,
    pub project_name: String,
    pub all: bool,
}

pub enum CleanStep {
    Project,
    Stories { repo: String },
    /// The worktrees of the stories before `done` are gone; `active` tells whether some story
    /// is still at work.
    Remove { repo: String, stories: Vec<WaveStory>, done: usize, active: bool },
    Clear { repo: String, stories: Vec<WaveStory>, done: usize, active: bool },
}

pub type WorktreeClean = Run<CleanJob, CleanStep>;

/// Whether nothing more is done on a story.
pub open spec fn is_over(s: WaveStory) -> bool {
    s.story.status == WorkItemStatus::Done || s.story.status == WorkItemStatus::Cancelled
}

fn story_over(s: &WaveStory) -> (r: bool)
    ensures
        r == is_over(*s),
{
    s.story.status == WorkItemStatus::Done || s.story.status == WorkItemStatus::Cancelled
}

/// The stories whose worktrees are removed: those that are over, or all of them.
pub open spec fn to_clean(stories: Seq<WaveStory>, all: bool) -> Seq<WaveStory> {
    stories.filter(|s: WaveStory| (all || is_over(s)) && s.story.worktree_path is Some)
}

fn collect_to_clean(stories: &Vec<WaveStory>, all: bool) -> (r: Vec<WaveStory>)
    ensures
        r@ == to_clean(stories@, all),
{
    let ghost keep = |s: WaveStory| (all || is_over(s)) && s.story.worktree_path is Some;
    let mut out: Vec<WaveStory> = Vec::new();
    let mut i: usize = 0;
    proof {
        crate::seqs::filter_none(stories@, keep);
    }
    while i < stories.len()
        invariant
            i <= stories@.len(),
            keep == (|s: WaveStory| (all || is_over(s)) && s.story.worktree_path is Some),
            out@ == stories@.take(i as int).filter(keep),
        decreases stories.len() - i,
    {
        proof {
            crate::seqs::filter_step(stories@, i as int, keep);
        }
        let s = &stories[i];
        if (all || story_over(s)) && s.story.worktree_path.is_some() {
            out.push(s.copy());
        }
        i += 1;
    }
    assert(stories@.take(i as int) =~= stories@);
    out
}

/// Whether some story is not over.
pub open spec fn some_active(stories: Seq<WaveStory>) -> bool {
    exists|i: int| 0 <= i < stories.len() && !is_over(#[trigger] stories[i])
}

fn find_active(stories: &Vec<WaveStory>) -> (r: bool)
    ensures
        r == some_active(stories@),
{
    let mut i: usize = 0;
    while i < stories.len()
        invariant
            i <= stories@.len(),
            forall|k: int| 0 <= k < i ==> is_over(#[trigger] stories@[k]),
        decreases stories.len() - i,
    {
        if !story_over(&stories[i]) {
            return true;
        }
        i += 1;
    }
    false
}

/// How a removed worktree is told.
pub open spec fn removed_entry(s: WaveStory) -> JsonV {
    JsonV::object().with("path"@, JsonV::Str(or_empty(s.story.worktree_path))).with(
        "story_id"@,
        JsonV::Str(crate::plan_view::wave_id(s.wave, s.story.short_id@)),
    )
}

/// The data that answers a `worktree.clean`.
pub open spec fn cleaned(project: Seq<char>, stories: Seq<WaveStory>, warn: bool) -> JsonV {
    let data = JsonV::object().with("project"@, JsonV::Str(project)).with(
        "removed"@,
        JsonV::Arr(stories.map_values(|s: WaveStory| removed_entry(s))),
    ).with("count"@, JsonV::Int(stories.len() as int));
    if warn {
        data.with(
            "warning"@,
            JsonV::Str("removed worktrees for stories that are still active"@),
        )
    } else {
        data
    }
}

fn removed_entries(stories: &Vec<WaveStory>) -> (r: Vec<Json>)
    ensures
        crate::json::json_views(r@) == stories@.map_values(|s: WaveStory| removed_entry(s)),
{
    let ghost node = |s: WaveStory| removed_entry(s);
    let mut out: Vec<Json> = Vec::new();
    let mut i: usize = 0;
    while i < stories.len()
        invariant
            i <= stories@.len(),
            node == (|s: WaveStory| removed_entry(s)),
            crate::json::json_views(out@) == stories@.take(i as int).map_values(node),
        decreases stories.len() - i,
    {
        let s = &stories[i];
        let ghost before = crate::json::json_views(out@);
        let entry = Json::object().with("path", text_or_empty(&s.story.worktree_path)).with(
            "story_id",
            Json::Str(wave_short_id(s.wave, s.story.short_id.as_str())),
        );
        let ghost shown = entry@;
        out.push(entry);
        proof {
            assert(crate::json::json_views(out@) =~= before.push(shown));
            assert(stories@.take(i + 1) =~= stories@.take(i as int).push(*s));
            crate::seqs::map_push(stories@.take(i as int), *s, node);
        }
        i += 1;
    }
    assert(stories@.take(i as int) =~= stories@);
    out
}

impl Run<CleanJob, CleanStep> {
    pub open spec fn accepts(self, ev: Event) -> bool {
        match self.at {
            CleanStep::Project => ev is MaybeProject,
            CleanStep::Stories { .. } => ev is WaveStories,
            CleanStep::Remove { stories, done, .. } => ev is Done && done < stories.len(),
            CleanStep::Clear { stories, done, .. } => ev is Done && done < stories.len(),
        }
    }

    pub open spec fn begins(req: Request, n: Next<WorktreeClean>) -> bool {
        match req.params@.text_field("project"@) {
            None => n.fails(req.id, crate::effects::missing_message("project"@)),
            Some(name) => {
                &&& n matches Next::Act(s, a)
                &&& n.goes(
                    s.job,
                    CleanStep::Project,
                    Action::GetProjectByName { name: s.job.project_name },
                )
                &&& s.job.id == req.id
                &&& s.job.project_name@ == name
                &&& s.job.all == (req.params@.truth_field("all"@) == Some(true))
            },
        }
    }

    pub fn start(req: Request) -> (n: Next<WorktreeClean>)
        ensures
            WorktreeClean::begins(req, n),
            n matches Next::Act(s, a) ==> forall|e: Event| a.answered_by(e) ==> s.accepts(e),
    {
        let project_name = match req.params.str_field("project") {
            Some(v) => v,
            None => return missing_parameter(req.id, "project"),
        };
        let all = match req.params.bool_field("all") {
            Some(b) => b,
            None => false,
        };
        let name = project_name.clone();
        Next::go(
            CleanJob { id: req.id, project_name, all },
            CleanStep::Project,
            Action::GetProjectByName { name },
        )
    }

    /// Removes the worktree of the story at `done`, or answers after the last one.
    pub open spec fn removes(
        job: CleanJob,
        repo: String,
        stories: Seq<WaveStory>,
        done: int,
        active: bool,
        n: Next<WorktreeClean>,
    ) -> bool {
        if done < stories.len() {
            &&& n matches Next::Act(s, Action::RemoveWorktree { repo: r, worktree })
            &&& r == repo
            &&& worktree@ == or_empty(stories[done].story.worktree_path)
            &&& s.job == job
            &&& s.at matches CleanStep::Remove { repo: p, stories: v, done: d, active: a }
            &&& p == repo && v@ == stories && d == done && a == active
        } else {
            n.replies(job.id, cleaned(job.project_name@, stories, job.all && active))
        }
    }

    pub open spec fn follows(self, ev: Event, n: Next<WorktreeClean>) -> bool {
        let job = self.job;
        match (self.at, ev) {
            (CleanStep::Project, Event::MaybeProject(r)) => match r {
                Err(e) => n.fails(job.id, crate::effects::database_message(e@)),
                Ok(None) => n.fails(job.id, crate::effects::no_project_message(job.project_name@)),
                Ok(Some(project)) => n.goes(
                    job,
                    CleanStep::Stories { repo: project.path },
                    Action::ListWorktreeStories { project: project.id },
                ),
            },
            (CleanStep::Stories { repo }, Event::WaveStories(r)) => match r {
                Err(e) => n.fails(job.id, crate::effects::database_message(e@)),
                Ok(stories) => WorktreeClean::removes(
                    job,
                    repo,
                    to_clean(stories@, job.all),
                    0,
                    some_active(stories@),
                    n,
                ),
            },
            (CleanStep::Remove { repo, stories, done, active }, Event::Done(_)) => n.goes(
                job,
                CleanStep::Clear { repo, stories, done, active },
                Action::ClearWorktree { story: stories@[done as int].story.id },
            ),
            (CleanStep::Clear { repo, stories, done, active }, Event::Done(r)) => match r {
                Err(e) => n.fails(
                    job.id,
                    "database error clearing worktree for story: "@ + e@,
                ),
                Ok(_) => WorktreeClean::removes(job, repo, stories@, done + 1, active, n),
            },
            _ => false,
        }
    }

    pub fn step(self, ev: Event) -> (n: Next<WorktreeClean>)
        requires
            self.accepts(ev),
        ensures
            self.follows(ev, n),
            n matches Next::Act(s, a) ==> forall|e: Event| a.answered_by(e) ==> s.accepts(e),
    {
        let Run { job, at } = self;
        match (at, ev) {
            (CleanStep::Project, Event::MaybeProject(r)) => match r {
                Err(e) => Next::database_error(job.id, e.as_str()),
                Ok(None) => no_project(job.id, job.project_name.as_str()),
                Ok(Some(project)) => Next::go(
                    job,
                    CleanStep::Stories { repo: project.path },
                    Action::ListWorktreeStories { project: project.id },
                ),
            },
            (CleanStep::Stories { repo }, Event::WaveStories(r)) => match r {
                Err(e) => Next::database_error(job.id, e.as_str()),
                Ok(stories) => {
                    let chosen = collect_to_clean(&stories, job.all);
                    let active = find_active(&stories);
                    remove_next(job, repo, chosen, 0, active)
                },
            },
            (CleanStep::Remove { repo, stories, done, active }, Event::Done(_)) => {
                let story = stories[done].story.id;
                Next::go(
                    job,
                    CleanStep::Clear { repo, stories, done, active },
                    Action::ClearWorktree { story },
                )
            },
            (CleanStep::Clear { repo, stories, done, active }, Event::Done(r)) => match r {
                Err(e) => Next::fail(
                    job.id,
                    cat("database error clearing worktree for story: ", e.as_str()).as_str(),
                ),
                Ok(_) => remove_next(job, repo, stories, done + 1, active),
            },
            _ => Next::End,
        }
    }
}

fn remove_next(
    job: CleanJob,
    repo: String,
    stories: Vec<WaveStory>,
    done: usize,
    active: bool,
) -> (n: Next<WorktreeClean>)
    ensures
        WorktreeClean::removes(job, repo, stories@, done as int, active, n),
        n matches Next::Act(s, a) ==> forall|e: Event| a.answered_by(e) ==> s.accepts(e),
{
    if done < stories.len() {
        let worktree = match &stories[done].story.worktree_path {
            Some(p) => p.clone(),
            None => "".to_owned(),
        };
        let asked = repo.clone();
        return Next::go(
            job,
            CleanStep::Remove { repo, stories, done, active },
            Action::RemoveWorktree { repo: asked, worktree },
        );
    }
    let entries = removed_entries(&stories);
    let mut data = Json::object().with("project", Json::Str(job.project_name)).with(
        "removed",
        Json::array(entries),
    ).with("count", Json::U64(stories.len() as u64));
    if job.all && active {
        data = data.with(
            "warning",
            Json::text("removed worktrees for stories that are still active"),
        );
    }
    Next::reply(job.id, data)
}

/// Unless all worktrees are asked for, only those of stories that are over are removed.
pub proof fn law_work_in_progress_is_kept(stories: Seq<WaveStory>, i: int)
    requires
        0 <= i < to_clean(stories, false).len(),
    ensures
        is_over(to_clean(stories, false)[i]),
{
    crate::seqs::filter_bound(
        stories,
        |s: WaveStory| (false || is_over(s)) && s.story.worktree_path is Some,
    );
}

} // verus!
