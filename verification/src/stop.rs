//! `exec.stop`: stopping agents, and cancelling the stories that they worked on.
use vstd::prelude::*;
use crate::effects::{no_project, Action, Event, Next, Run};
use crate::ident::Uuid;
use crate::json::{Json, JsonV};
use crate::model::{AgentRun, AgentRunStatus, ItemType, WorkItem, WorkItemStatus};
use crate::plans::{no_wave, wave_param};
use crate::protocol::Request;
use crate::stories::{collect_tasks, no_story, not_a_story, wrong_state};

verus! {

/// Which agents are to be stopped.
#[allow(inconsistent_fields)]
pub enum StopTarget {
    /// Those of all projects.
    All,
    Story { story_id: String },
    Wave { wave: u32, project_name: Option<String> },
    Project { project_name: Option<String> },
}

/// An `exec.stop` request.
pub struct StopJob {
    pub id: String,
    pub target: StopTarget,
}

impl StopTarget {
    /// Whether the stories are given, and their agents are sought; otherwise the agents are,
    /// and their stories.
    pub open spec fn by_story(self) -> bool {
        self is Story || self is Wave
    }

    fn is_by_story(&self) -> (r: bool)
        ensures
            r == self.by_story(),
    {
        match self {
            StopTarget::Story { .. } | StopTarget::Wave { .. } => true,
            _ => false,
        }
    }
}

/// The agents that are being stopped and the stories that are being cancelled: the first
/// `done` of the agents are stopped, the first `at` of the stories are cancelled, and
/// `stopped` agents of earlier stories were stopped.
pub struct Sweep {
    pub runs: Vec<AgentRun>,
    pub done: usize,
    pub stories: Vec<Uuid>,
    pub at: usize,
    pub stopped: u64,
}

impl Sweep {
    pub open spec fn is(
        self,
        runs: Vec<AgentRun>,
        done: int,
        stories: Seq<Uuid>,
        at: int,
        stopped: u64,
    ) -> bool {
        &&& self.runs == runs
        &&& self.done == done
        &&& self.stories@ == stories
        &&& self.at == at
        &&& self.stopped == stopped
    }

    pub open spec fn has_run(self) -> bool {
        self.done < self.runs.len()
    }

    pub open spec fn has_story(self) -> bool {
        self.at < self.stories.len()
    }
}

#[allow(inconsistent_fields)]
pub enum StopStep {
    Open,
    Story,
    Project,
    Session,
    Stories,
    Running,
    StoryRuns { sweep: Sweep },
    // One agent.
    Kill { sweep: Sweep },
    Time { sweep: Sweep },
    Finish { sweep: Sweep },
    Fail { sweep: Sweep },
    Parent { sweep: Sweep },
    // One story.
    Mark { sweep: Sweep },
    Tasks { sweep: Sweep },
    Cancel { sweep: Sweep, tasks: Vec<Uuid>, done: usize },
}

pub type ExecStop = Run<StopJob, StopStep>;

/// The stories with one more, which is not added twice.
pub open spec fn with_story(stories: Seq<Uuid>, story: Uuid) -> Seq<Uuid> {
    if stories.contains(story) {
        stories
    } else {
        stories.push(story)
    }
}

fn add_story(stories: Vec<Uuid>, story: Uuid) -> (r: Vec<Uuid>)
    ensures
        r@ == with_story(stories@, story),
{
    let mut i: usize = 0;
    while i < stories.len()
        invariant
            i <= stories@.len(),
            forall|k: int| 0 <= k < i ==> stories@[k] != story,
        decreases stories.len() - i,
    {
        if stories[i] == story {
            return stories;
        }
        i += 1;
    }
    let mut stories = stories;
    stories.push(story);
    stories
}

/// The number of agents, with those of one more story; it stays at the largest number that
/// can be told.
pub open spec fn counted(stopped: u64, more: nat) -> u64 {
    if stopped + more <= u64::MAX {
        (stopped + more) as u64
    } else {
        u64::MAX
    }
}

fn count_more(stopped: u64, more: usize) -> (r: u64)
    ensures
        r == counted(stopped, more as nat),
{
    if more as u64 <= u64::MAX - stopped {
        stopped + more as u64
    } else {
        u64::MAX
    }
}

/// The data that answers an `exec.stop`.
pub open spec fn stop_data(target: StopTarget, stopped: int, stories: nat) -> JsonV {
    let stopped = JsonV::Int(stopped);
    let stories = JsonV::Int(stories as int);
    match target {
        StopTarget::Story { story_id } => JsonV::object().with(
            "story_id"@,
            JsonV::Str(story_id@),
        ).with("agents_stopped"@, stopped),
        StopTarget::Wave { wave, .. } => JsonV::object().with(
            "wave"@,
            JsonV::Int(wave as int),
        ).with("agents_stopped"@, stopped).with("stories_cancelled"@, stories),
        _ => JsonV::object().with("agents_stopped"@, stopped).with("stories_cancelled"@, stories),
    }
}

fn stop_reply(job: StopJob, stopped: u64, stories: usize) -> (n: Next<ExecStop>)
    ensures
        n.replies(job.id, stop_data(job.target, stopped as int, stories as nat)),
{
    let stopped = Json::U64(stopped);
    let stories = Json::U64(stories as u64);
    let data = match job.target {
        StopTarget::Story { story_id } => Json::object().with("story_id", Json::Str(story_id)).with(
            "agents_stopped",
            stopped,
        ),
        StopTarget::Wave { wave, .. } => Json::object().with("wave", Json::U64(wave as u64)).with(
            "agents_stopped",
            stopped,
        ).with("stories_cancelled", stories),
        _ => Json::object().with("agents_stopped", stopped).with("stories_cancelled", stories),
    };
    Next::reply(job.id, data)
}

/// The stories in progress.
pub open spec fn active_stories(stories: Seq<WorkItem>) -> Seq<Uuid> {
    stories.filter(|s: WorkItem| s.status == WorkItemStatus::InProgress).map_values(
        |s: WorkItem| s.id,
    )
}

fn collect_active(stories: &Vec<WorkItem>) -> (r: Vec<Uuid>)
    ensures
        r@ == active_stories(stories@),
{
    let ghost keep = |s: WorkItem| s.status == WorkItemStatus::InProgress;
    let ghost id = |s: WorkItem| s.id;
    let mut out: Vec<Uuid> = Vec::new();
    let mut i: usize = 0;
    proof {
        crate::seqs::filter_none(stories@, keep);
    }
    while i < stories.len()
        invariant
            i <= stories@.len(),
            keep == (|s: WorkItem| s.status == WorkItemStatus::InProgress),
            id == (|s: WorkItem| s.id),
            out@ == stories@.take(i as int).filter(keep).map_values(id),
        decreases stories.len() - i,
    {
        let s = &stories[i];
        proof {
            crate::seqs::filter_step(stories@, i as int, keep);
            crate::seqs::map_push(stories@.take(i as int).filter(keep), *s, id);
        }
        if s.status == WorkItemStatus::InProgress {
            out.push(s.id);
        }
        i += 1;
    }
    assert(stories@.take(i as int) =~= stories@);
    out
}

/// What is said when a wave is to be stopped and its project is not named.
pub open spec fn wave_needs_project() -> Seq<char> {
    "missing required parameter: project_name (required with --wave)"@
}

/// What is said when nothing tells which agents are to be stopped.
pub open spec fn nothing_to_stop() -> Seq<char> {
    "missing required parameter: project_name (or provide story_id, --wave, or --all)"@
}

impl Run<StopJob, StopStep> {
    pub open spec fn accepts(self, ev: Event) -> bool {
        match self.at {
            StopStep::Story => ev is MaybeItem && self.job.target is Story,
            StopStep::Project => ev is MaybeProject && match self.job.target {
                StopTarget::Wave { project_name, .. } => project_name is Some,
                StopTarget::Project { project_name } => project_name is Some,
                _ => false,
            },
            StopStep::Session => ev is MaybeSession && self.job.target is Wave,
            StopStep::Stories => ev is WorkItems,
            StopStep::Running => ev is AgentRuns && !self.job.target.by_story(),
            StopStep::StoryRuns { sweep } => ev is AgentRuns && sweep.has_story(),
            StopStep::Kill { sweep } => ev is Done && sweep.has_run() && self.fits(sweep),
            StopStep::Time { sweep } => ev is Time && sweep.has_run() && self.fits(sweep),
            StopStep::Finish { sweep } => ev is Done && sweep.has_run() && self.fits(sweep),
            StopStep::Fail { sweep } => ev is Done && sweep.has_run() && self.fits(sweep),
            StopStep::Parent { sweep } => ev is MaybeItem && sweep.has_run() && self.fits(sweep),
            StopStep::Mark { sweep } => ev is Done && sweep.has_story(),
            StopStep::Tasks { sweep } => ev is WorkItems && sweep.has_story(),
            StopStep::Cancel { sweep, tasks, done } => ev is Done && sweep.has_story() && done
                < tasks.len(),
            StopStep::Open => ev is Done,
        }
    }

    /// Where the stories are given, agents are stopped for one of them.
    pub open spec fn fits(self, sweep: Sweep) -> bool {
        self.job.target.by_story() ==> sweep.has_story()
    }

    /// What the request asks for: all agents, else one story, else a wave, else a project.
    pub open spec fn asks(p: JsonV, target: StopTarget) -> bool {
        if p.truth_field("all"@) == Some(true) {
            target is All
        } else if p.text_field("story_id"@) is Some {
            target matches StopTarget::Story { story_id } && Some(story_id@) == p.text_field(
                "story_id"@,
            )
        } else if crate::plans::wave_of(p, "wave"@) is Some {
            target matches StopTarget::Wave { wave, project_name } && Some(wave)
                == crate::plans::wave_of(p, "wave"@) && crate::text::is_text(
                project_name,
                p.text_field("project_name"@),
            )
        } else {
            target matches StopTarget::Project { project_name } && crate::text::is_text(
                project_name,
                p.text_field("project_name"@),
            )
        }
    }

    pub open spec fn begins(req: Request, n: Next<ExecStop>) -> bool {
        &&& n matches Next::Act(s, a)
        &&& n.goes(s.job, StopStep::Open, Action::OpenDb)
        &&& s.job.id == req.id
        &&& ExecStop::asks(req.params@, s.job.target)
    }

    pub fn start(req: Request) -> (n: Next<ExecStop>)
        ensures
            ExecStop::begins(req, n),
            n matches Next::Act(s, a) ==> forall|e: Event| a.answered_by(e) ==> s.accepts(e),
    {
        let all = match req.params.bool_field("all") {
            Some(b) => b,
            None => false,
        };
        let target = if all {
            StopTarget::All
        } else {
            match req.params.str_field("story_id") {
                Some(story_id) => StopTarget::Story { story_id },
                None => {
                    let project_name = req.params.str_field("project_name");
                    match wave_param(&req.params, "wave") {
                        Some(wave) => StopTarget::Wave { wave, project_name },
                        None => StopTarget::Project { project_name },
                    }
                },
            }
        };
        Next::go(StopJob { id: req.id, target }, StopStep::Open, Action::OpenDb)
    }

    /// Asks for the agents of the story at `at`, or answers after the last one.
    pub open spec fn visits(
        job: StopJob,
        stories: Seq<Uuid>,
        at: int,
        stopped: u64,
        n: Next<ExecStop>,
    ) -> bool {
        if at < stories.len() {
            &&& n matches Next::Act(s, a)
            &&& s.at matches StopStep::StoryRuns { sweep }
            &&& sweep.stories@ == stories && sweep.at == at && sweep.stopped == stopped
            &&& n.goes(job, s.at, Action::FindRunningAgentsOfStory { story: stories[at] })
        } else {
            n.replies(job.id, stop_data(job.target, stopped as int, stories.len()))
        }
    }

    /// Cancels the story at `at`, or answers after the last one.
    pub open spec fn closes(
        job: StopJob,
        runs: Vec<AgentRun>,
        done: int,
        stories: Seq<Uuid>,
        at: int,
        stopped: u64,
        n: Next<ExecStop>,
    ) -> bool {
        if at < stories.len() {
            &&& n matches Next::Act(s, a)
            &&& s.at matches StopStep::Mark { sweep }
            &&& sweep.is(runs, done, stories, at, stopped)
            &&& n.goes(
                job,
                s.at,
                Action::UpdateItemStatus { item: stories[at], status: WorkItemStatus::Cancelled },
            )
        } else {
            n.replies(job.id, stop_data(job.target, runs@.len() as int, stories.len()))
        }
    }

    /// Stops the agent at `done`, or goes on to the stories after the last one.
    pub open spec fn stops(
        job: StopJob,
        runs: Vec<AgentRun>,
        done: int,
        stories: Seq<Uuid>,
        at: int,
        stopped: u64,
        n: Next<ExecStop>,
    ) -> bool {
        if done < runs@.len() {
            match runs@[done].pid {
                Some(pid) => {
                    &&& n matches Next::Act(s, a)
                    &&& s.at matches StopStep::Kill { sweep }
                    &&& sweep.is(runs, done, stories, at, stopped)
                    &&& n.goes(job, s.at, Action::Terminate { pid })
                },
                None => {
                    &&& n matches Next::Act(s, a)
                    &&& s.at matches StopStep::Time { sweep }
                    &&& sweep.is(runs, done, stories, at, stopped)
                    &&& n.goes(job, s.at, Action::Now)
                },
            }
        } else {
            ExecStop::closes(job, runs, done, stories, at, stopped, n)
        }
    }

    /// Cancels the task at `done`, or goes on to the next story after the last one.
    pub open spec fn cancels(
        job: StopJob,
        sweep: Sweep,
        tasks: Seq<Uuid>,
        done: int,
        n: Next<ExecStop>,
    ) -> bool {
        if done < tasks.len() {
            &&& n matches Next::Act(s, a)
            &&& s.at matches StopStep::Cancel { sweep: w, tasks: t, done: d }
            &&& w == sweep && t@ == tasks && d == done
            &&& n.goes(
                job,
                s.at,
                Action::UpdateItemStatus { item: tasks[done], status: WorkItemStatus::Cancelled },
            )
        } else if job.target.by_story() {
            ExecStop::visits(
                job,
                sweep.stories@,
                sweep.at + 1,
                counted(sweep.stopped, sweep.runs@.len()),
                n,
            )
        } else {
            ExecStop::closes(
                job,
                sweep.runs,
                sweep.done as int,
                sweep.stories@,
                sweep.at + 1,
                sweep.stopped,
                n,
            )
        }
    }

    pub open spec fn follows(self, ev: Event, n: Next<ExecStop>) -> bool {
        let job = self.job;
        match (self.at, ev) {
            (StopStep::Open, Event::Done(r)) => match r {
                Err(e) => n.fails(job.id, crate::effects::database_message(e@)),
                Ok(_) => match job.target {
                    StopTarget::All => n.goes(
                        job,
                        StopStep::Running,
                        Action::FindAllRunningAgents,
                    ),
                    StopTarget::Story { story_id } => n.goes(
                        job,
                        StopStep::Story,
                        Action::FindItemByWaveId { text: story_id },
                    ),
                    StopTarget::Wave { project_name, .. } => match project_name {
                        None => n.fails(job.id, wave_needs_project()),
                        Some(name) => n.goes(
                            job,
                            StopStep::Project,
                            Action::GetProjectByName { name },
                        ),
                    },
                    StopTarget::Project { project_name } => match project_name {
                        None => n.fails(job.id, nothing_to_stop()),
                        Some(name) => n.goes(
                            job,
                            StopStep::Project,
                            Action::GetProjectByName { name },
                        ),
                    },
                },
            },
            (StopStep::Story, Event::MaybeItem(r)) => {
                let story_id = job.target->Story_story_id;
                match r {
                    Err(e) => n.fails(job.id, crate::effects::database_message(e@)),
                    Ok(None) => n.fails(job.id, crate::stories::no_story_message(story_id@)),
                    Ok(Some(story)) => if story.item_type != ItemType::Story {
                        n.fails(job.id, crate::stories::not_a_story_message(story_id@))
                    } else if story.status != WorkItemStatus::InProgress && story.status
                        != WorkItemStatus::Ready {
                        n.fails(
                            job.id,
                            crate::stories::wrong_state_message(
                                story_id@,
                                story.status,
                                "'in_progress' or 'ready'"@,
                            ),
                        )
                    } else {
                        ExecStop::visits(job, seq![story.id], 0, 0, n)
                    },
                }
            },
            (StopStep::Project, Event::MaybeProject(r)) => match r {
                Err(e) => n.fails(job.id, crate::effects::database_message(e@)),
                Ok(None) => n.fails(
                    job.id,
                    crate::effects::no_project_message(
                        match job.target {
                            StopTarget::Wave { project_name: Some(name), .. } => name@,
                            StopTarget::Project { project_name: Some(name) } => name@,
                            _ => ""@,
                        },
                    ),
                ),
                Ok(Some(project)) => match job.target {
                    StopTarget::Wave { wave, .. } => n.goes(
                        job,
                        StopStep::Session,
                        Action::GetSessionByWave { project: project.id, wave },
                    ),
                    _ => n.goes(
                        job,
                        StopStep::Running,
                        Action::FindRunningAgents { project: project.id },
                    ),
                },
            },
            (StopStep::Session, Event::MaybeSession(r)) => match r {
                Err(e) => n.fails(job.id, crate::effects::database_message(e@)),
                Ok(None) => n.fails(
                    job.id,
                    crate::plans::no_wave_message(job.target->Wave_wave),
                ),
                Ok(Some(session)) => n.goes(
                    job,
                    StopStep::Stories,
                    Action::ListStories { session: session.id },
                ),
            },
            (StopStep::Stories, Event::WorkItems(r)) => match r {
                Err(e) => n.fails(job.id, crate::effects::database_message(e@)),
                Ok(stories) => ExecStop::visits(job, active_stories(stories@), 0, 0, n),
            },
            (StopStep::Running, Event::AgentRuns(r)) => match r {
                Err(e) => n.fails(job.id, crate::effects::database_message(e@)),
                Ok(runs) => ExecStop::stops(job, runs, 0, Seq::empty(), 0, 0, n),
            },
            (StopStep::StoryRuns { sweep }, Event::AgentRuns(r)) => match r {
                Err(_) => ExecStop::visits(
                    job,
                    sweep.stories@,
                    sweep.at + 1,
                    sweep.stopped,
                    n,
                ),
                Ok(runs) => ExecStop::stops(
                    job,
                    runs,
                    0,
                    sweep.stories@,
                    sweep.at as int,
                    sweep.stopped,
                    n,
                ),
            },
            (StopStep::Kill { sweep }, Event::Done(_)) => n.goes(
                job,
                StopStep::Time { sweep },
                Action::Now,
            ),
            (StopStep::Time { sweep }, Event::Time(now)) => {
                &&& n matches Next::Act(s, Action::FinishRun { run, status, message, at })
                &&& run == sweep.runs@[sweep.done as int].id
                &&& status == AgentRunStatus::Cancelled
                &&& message@ == "stopped by user"@
                &&& at == now
                &&& s == Run { job, at: StopStep::Finish { sweep } }
            },
            (StopStep::Finish { sweep }, Event::Done(_)) => n.goes(
                job,
                StopStep::Fail { sweep },
                Action::UpdateItemStatus {
                    item: sweep.runs@[sweep.done as int].work_item_id,
                    status: WorkItemStatus::Failed,
                },
            ),
            (StopStep::Fail { sweep }, Event::Done(_)) => if job.target.by_story() {
                ExecStop::stops(
                    job,
                    sweep.runs,
                    sweep.done + 1,
                    sweep.stories@,
                    sweep.at as int,
                    sweep.stopped,
                    n,
                )
            } else {
                n.goes(
                    job,
                    StopStep::Parent { sweep },
                    Action::GetItem { item: sweep.runs@[sweep.done as int].work_item_id },
                )
            },
            (StopStep::Parent { sweep }, Event::MaybeItem(r)) => ExecStop::stops(
                job,
                sweep.runs,
                sweep.done + 1,
                match r {
                    Ok(Some(task)) => match task.parent_id {
                        Some(story) => with_story(sweep.stories@, story),
                        None => sweep.stories@,
                    },
                    _ => sweep.stories@,
                },
                sweep.at as int,
                sweep.stopped,
                n,
            ),
            (StopStep::Mark { sweep }, Event::Done(_)) => n.goes(
                job,
                StopStep::Tasks { sweep },
                Action::ListChildren { parent: sweep.stories@[sweep.at as int] },
            ),
            (StopStep::Tasks { sweep }, Event::WorkItems(r)) => ExecStop::cancels(
                job,
                sweep,
                match r {
                    Ok(tasks) => crate::stories::tasks_in(tasks@, WorkItemStatus::Pending),
                    Err(_) => Seq::empty(),
                },
                0,
                n,
            ),
            (StopStep::Cancel { sweep, tasks, done }, Event::Done(_)) => ExecStop::cancels(
                job,
                sweep,
                tasks@,
                done + 1,
                n,
            ),
            _ => false,
        }
    }

    pub fn step(self, ev: Event) -> (n: Next<ExecStop>)
        requires
            self.accepts(ev),
        ensures
            self.follows(ev, n),
            n matches Next::Act(s, a) ==> forall|e: Event| a.answered_by(e) ==> s.accepts(e),
    {
        let Run { job, at } = self;
        match (at, ev) {
            (StopStep::Open, Event::Done(r)) => match r {
                Err(e) => Next::database_error(job.id, e.as_str()),
                Ok(_) => open_next(job),
            },
            (StopStep::Story, Event::MaybeItem(r)) => {
                let story_id = match &job.target {
                    StopTarget::Story { story_id } => story_id.clone(),
                    _ => return Next::End,
                };
                match r {
                    Err(e) => Next::database_error(job.id, e.as_str()),
                    Ok(None) => no_story(job.id, story_id.as_str()),
                    Ok(Some(story)) => {
                        if story.item_type != ItemType::Story {
                            return not_a_story(job.id, story_id.as_str());
                        }
                        if story.status != WorkItemStatus::InProgress && story.status
                            != WorkItemStatus::Ready {
                            return wrong_state(
                                job.id,
                                story_id.as_str(),
                                story.status,
                                "'in_progress' or 'ready'",
                            );
                        }
                        let stories: Vec<Uuid> = vec![story.id];
                        assert(stories@ =~= seq![story.id]);
                        visit(job, stories, 0, 0)
                    },
                }
            },
            (StopStep::Project, Event::MaybeProject(r)) => match r {
                Err(e) => Next::database_error(job.id, e.as_str()),
                Ok(None) => match job.target {
                    StopTarget::Wave { project_name: Some(name), .. } => no_project(
                        job.id,
                        name.as_str(),
                    ),
                    StopTarget::Project { project_name: Some(name) } => no_project(
                        job.id,
                        name.as_str(),
                    ),
                    _ => no_project(job.id, ""),
                },
                Ok(Some(project)) => match &job.target {
                    StopTarget::Wave { wave, .. } => {
                        let wave: u32 = *wave;
                        Next::go(
                            job,
                            StopStep::Session,
                            Action::GetSessionByWave { project: project.id, wave },
                        )
                    },
                    _ => Next::go(
                        job,
                        StopStep::Running,
                        Action::FindRunningAgents { project: project.id },
                    ),
                },
            },
            (StopStep::Session, Event::MaybeSession(r)) => match r {
                Err(e) => Next::database_error(job.id, e.as_str()),
                Ok(None) => match job.target {
                    StopTarget::Wave { wave, .. } => no_wave(job.id, wave),
                    _ => Next::End,
                },
                Ok(Some(session)) => Next::go(
                    job,
                    StopStep::Stories,
                    Action::ListStories { session: session.id },
                ),
            },
            (StopStep::Stories, Event::WorkItems(r)) => match r {
                Err(e) => Next::database_error(job.id, e.as_str()),
                Ok(stories) => {
                    let active = collect_active(&stories);
                    visit(job, active, 0, 0)
                },
            },
            (StopStep::Running, Event::AgentRuns(r)) => match r {
                Err(e) => Next::database_error(job.id, e.as_str()),
                Ok(runs) => {
                    let stories: Vec<Uuid> = Vec::new();
                    assert(stories@ =~= Seq::<Uuid>::empty());
                    stop_run(job, Sweep { runs, done: 0, stories, at: 0, stopped: 0 })
                },
            },
            (StopStep::StoryRuns { sweep }, Event::AgentRuns(r)) => match r {
                Err(_) => visit(job, sweep.stories, sweep.at + 1, sweep.stopped),
                Ok(runs) => {
                    let Sweep { stories, at, stopped, .. } = sweep;
                    stop_run(job, Sweep { runs, done: 0, stories, at, stopped })
                },
            },
            (StopStep::Kill { sweep }, Event::Done(_)) => Next::go(
                job,
                StopStep::Time { sweep },
                Action::Now,
            ),
            (StopStep::Time { sweep }, Event::Time(now)) => {
                let run = sweep.runs[sweep.done].id;
                Next::go(
                    job,
                    StopStep::Finish { sweep },
                    Action::FinishRun {
                        run,
                        status: AgentRunStatus::Cancelled,
                        message: "stopped by user".to_owned(),
                        at: now,
                    },
                )
            },
            (StopStep::Finish { sweep }, Event::Done(_)) => {
                let item = sweep.runs[sweep.done].work_item_id;
                Next::go(
                    job,
                    StopStep::Fail { sweep },
                    Action::UpdateItemStatus { item, status: WorkItemStatus::Failed },
                )
            },
            (StopStep::Fail { sweep }, Event::Done(_)) => if job.target.is_by_story() {
                let mut sweep = sweep;
                sweep.done = sweep.done + 1;
                stop_run(job, sweep)
            } else {
                let item = sweep.runs[sweep.done].work_item_id;
                Next::go(job, StopStep::Parent { sweep }, Action::GetItem { item })
            },
            (StopStep::Parent { sweep }, Event::MaybeItem(r)) => {
                let Sweep { runs, done, stories, at, stopped } = sweep;
                let parent = match r {
                    Ok(Some(task)) => task.parent_id,
                    _ => None,
                };
                let stories = match parent {
                    Some(story) => add_story(stories, story),
                    None => stories,
                };
                stop_run(job, Sweep { runs, done: done + 1, stories, at, stopped })
            },
            (StopStep::Mark { sweep }, Event::Done(_)) => {
                let parent = sweep.stories[sweep.at];
                Next::go(job, StopStep::Tasks { sweep }, Action::ListChildren { parent })
            },
            (StopStep::Tasks { sweep }, Event::WorkItems(r)) => {
                let tasks = match r {
                    Ok(tasks) => collect_tasks(&tasks, WorkItemStatus::Pending),
                    Err(_) => Vec::new(),
                };
                cancel_task(job, sweep, tasks, 0)
            },
            (StopStep::Cancel { sweep, tasks, done }, Event::Done(_)) => {
                cancel_task(job, sweep, tasks, done + 1)
            },
            _ => Next::End,
        }
    }
}

fn open_next(job: StopJob) -> (n: Next<ExecStop>)
    ensures
        (Run { job, at: StopStep::Open }).follows(Event::Done(Ok(())), n),
        n matches Next::Act(s, a) ==> forall|e: Event| a.answered_by(e) ==> s.accepts(e),
{
    match &job.target {
        StopTarget::All => Next::go(job, StopStep::Running, Action::FindAllRunningAgents),
        StopTarget::Story { story_id } => {
            let text = story_id.clone();
            Next::go(job, StopStep::Story, Action::FindItemByWaveId { text })
        },
        StopTarget::Wave { project_name, .. } => match project_name {
            None => Next::fail(
                job.id,
                "missing required parameter: project_name (required with --wave)",
            ),
            Some(name) => {
                let name = name.clone();
                Next::go(job, StopStep::Project, Action::GetProjectByName { name })
            },
        },
        StopTarget::Project { project_name } => match project_name {
            None => Next::fail(
                job.id,
                "missing required parameter: project_name (or provide story_id, --wave, or --all)",
            ),
            Some(name) => {
                let name = name.clone();
                Next::go(job, StopStep::Project, Action::GetProjectByName { name })
            },
        },
    }
}

fn visit(job: StopJob, stories: Vec<Uuid>, at: usize, stopped: u64) -> (n: Next<ExecStop>)
    ensures
        ExecStop::visits(job, stories@, at as int, stopped, n),
        n matches Next::Act(s, a) ==> forall|e: Event| a.answered_by(e) ==> s.accepts(e),
{
    if at < stories.len() {
        let story = stories[at];
        let sweep = Sweep { runs: Vec::new(), done: 0, stories, at, stopped };
        Next::go(job, StopStep::StoryRuns { sweep }, Action::FindRunningAgentsOfStory { story })
    } else {
        let cancelled = stories.len();
        stop_reply(job, stopped, cancelled)
    }
}

fn close(job: StopJob, sweep: Sweep) -> (n: Next<ExecStop>)
    ensures
        ExecStop::closes(
            job,
            sweep.runs,
            sweep.done as int,
            sweep.stories@,
            sweep.at as int,
            sweep.stopped,
            n,
        ),
        n matches Next::Act(s, a) ==> forall|e: Event| a.answered_by(e) ==> s.accepts(e),
{
    if sweep.at < sweep.stories.len() {
        let item = sweep.stories[sweep.at];
        Next::go(
            job,
            StopStep::Mark { sweep },
            Action::UpdateItemStatus { item, status: WorkItemStatus::Cancelled },
        )
    } else {
        stop_reply(job, sweep.runs.len() as u64, sweep.stories.len())
    }
}

fn stop_run(job: StopJob, sweep: Sweep) -> (n: Next<ExecStop>)
    requires
        job.target.by_story() ==> sweep.has_story(),
    ensures
        ExecStop::stops(
            job,
            sweep.runs,
            sweep.done as int,
            sweep.stories@,
            sweep.at as int,
            sweep.stopped,
            n,
        ),
        n matches Next::Act(s, a) ==> forall|e: Event| a.answered_by(e) ==> s.accepts(e),
{
    if sweep.done < sweep.runs.len() {
        match sweep.runs[sweep.done].pid {
            Some(pid) => Next::go(job, StopStep::Kill { sweep }, Action::Terminate { pid }),
            None => Next::go(job, StopStep::Time { sweep }, Action::Now),
        }
    } else {
        close(job, sweep)
    }
}

fn cancel_task(job: StopJob, sweep: Sweep, tasks: Vec<Uuid>, done: usize) -> (n: Next<ExecStop>)
    requires
        sweep.has_story(),
    ensures
        ExecStop::cancels(job, sweep, tasks@, done as int, n),
        n matches Next::Act(s, a) ==> forall|e: Event| a.answered_by(e) ==> s.accepts(e),
{
    if done < tasks.len() {
        let item = tasks[done];
        return Next::go(
            job,
            StopStep::Cancel { sweep, tasks, done },
            Action::UpdateItemStatus { item, status: WorkItemStatus::Cancelled },
        );
    }
    if job.target.is_by_story() {
        let stopped = count_more(sweep.stopped, sweep.runs.len());
        visit(job, sweep.stories, sweep.at + 1, stopped)
    } else {
        let mut sweep = sweep;
        sweep.at = sweep.at + 1;
        close(job, sweep)
    }
}

/// A story is cancelled once, however many of its agents are stopped.
pub proof fn law_stories_are_cancelled_once(stories: Seq<Uuid>, story: Uuid)
    requires
        stories.no_duplicates(),
    ensures
        with_story(stories, story).no_duplicates(),
        with_story(stories, story).contains(story),
        with_story(with_story(stories, story), story) == with_story(stories, story),
{
    crate::seqs::push_contains(stories, story, story);
}

} // verus!
