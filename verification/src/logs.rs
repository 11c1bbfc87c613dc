//! `exec.log`: what the agent of a task printed, once or as it is written.
use vstd::prelude::*;
use crate::effects::{missing_parameter, Action, Event, LogLine, Next, Run};
use crate::json::{Json, JsonV};
use crate::model::ItemType;
use crate::protocol::{Request, StreamingResponseLine};
use crate::text::{cat, cat3, split_lines, trim};

verus! {

/// An `exec.log` request.
pub struct LogJob {
    pub id: String,
    pub task_id: String,
    pub follow: bool,
}

#[allow(inconsistent_fields)]
pub enum LogStep {
    Find,
    Latest,
    // The log as it is.
    Read { path: String },
    Parse { path: String, lines: Vec<String>, done: usize, events: Vec<Json> },
    // The log as it is written.
    Open { path: String },
    OpenFile { path: String },
    Existing { path: String },
    ShowExisting { path: String },
    SentExisting { path: String },
    Seek,
    Poll { idle: u32 },
    ShowNew,
    SentNew,
    Pause { idle: u32 },
    /// The last line is sent.
    Last,
}

pub type ExecLog = Run<LogJob, LogStep>;

/// How long a line is waited for, and how long after the end of a log.
pub const POLL_MILLIS: u64 = 500;

/// How often in a row nothing new may be found.
pub const MAX_IDLE: u32 = 120;

/// The lines of a log that say something.
pub open spec fn log_lines(content: Seq<char>) -> Seq<Seq<char>> {
    crate::text::lines(content).filter(|l: Seq<char>| crate::text::trimmed(l).len() > 0)
}

/// The lines of a log that say something.
pub fn split_log(content: &str) -> (r: Vec<String>)
    ensures
        crate::text::texts_view(r@) == log_lines(content@),
{
    let lines = split_lines(content);
    let ghost views = crate::text::texts_view(lines@);
    let ghost keep = |l: Seq<char>| crate::text::trimmed(l).len() > 0;
    let mut out: Vec<String> = Vec::new();
    let mut i: usize = 0;
    proof {
        crate::seqs::filter_none(views, keep);
        assert(crate::text::texts_view(out@) =~= Seq::<Seq<char>>::empty());
    }
    while i < lines.len()
        invariant
            i <= lines@.len(),
            views == crate::text::texts_view(lines@),
            keep == (|l: Seq<char>| crate::text::trimmed(l).len() > 0),
            crate::text::texts_view(out@) == views.take(i as int).filter(keep),
        decreases lines.len() - i,
    {
        let line = &lines[i];
        proof {
            crate::seqs::filter_step(views, i as int, keep);
            crate::seqs::map_push(out@, *line, |s: String| s@);
        }
        let said = trim(line.as_str());
        if !said.is_empty() {
            out.push(line.clone());
        }
        i += 1;
    }
    assert(views.take(i as int) =~= views);
    out
}

/// The data that answers an `exec.log` that does not follow.
pub open spec fn logged(task_id: Seq<char>, path: Seq<char>, events: Seq<JsonV>) -> JsonV {
    JsonV::object().with("task_id"@, JsonV::Str(task_id)).with("log_path"@, JsonV::Str(path)).with(
        "events"@,
        JsonV::Arr(events),
    )
}

/// Why a stream ended.
pub open spec fn ended(reason: Seq<char>) -> JsonV {
    JsonV::object().with("reason"@, JsonV::Str(reason))
}

impl Run<LogJob, LogStep> {
    pub open spec fn accepts(self, ev: Event) -> bool {
        match self.at {
            LogStep::Find => ev is MaybeItem,
            LogStep::Latest => ev is MaybeRun,
            LogStep::Read { .. } => ev is MaybeFile,
            LogStep::Parse { lines, done, .. } => ev is Line && done < lines.len(),
            LogStep::Existing { .. } => ev is LogLine,
            LogStep::Poll { idle } => ev is LogLine && idle <= MAX_IDLE,
            LogStep::ShowExisting { .. } | LogStep::ShowNew => ev is Line,
            LogStep::Pause { idle } => ev is Done && idle <= MAX_IDLE,
            _ => ev is Done,
        }
    }

    pub open spec fn begins(req: Request, n: Next<ExecLog>) -> bool {
        match req.params@.text_field("task_id"@) {
            None => n.fails(req.id, crate::effects::missing_message("task_id"@)),
            Some(task_id) => {
                &&& n matches Next::Act(s, a)
                &&& n.goes(
                    s.job,
                    LogStep::Find,
                    Action::FindItemByWaveId { text: s.job.task_id },
                )
                &&& s.job.id == req.id
                &&& s.job.task_id@ == task_id
                &&& s.job.follow == (req.params@.truth_field("follow"@) == Some(true))
            },
        }
    }

    pub fn start(req: Request) -> (n: Next<ExecLog>)
        ensures
            ExecLog::begins(req, n),
            n matches Next::Act(s, a) ==> forall|e: Event| a.answered_by(e) ==> s.accepts(e),
    {
        let task_id = match req.params.str_field("task_id") {
            Some(v) => v,
            None => return missing_parameter(req.id, "task_id"),
        };
        let follow = match req.params.bool_field("follow") {
            Some(b) => b,
            None => false,
        };
        let text = task_id.clone();
        Next::go(
            LogJob { id: req.id, task_id, follow },
            LogStep::Find,
            Action::FindItemByWaveId { text },
        )
    }

    /// Has the line at `done` read, or answers after the last one.
    pub open spec fn parses(
        job: LogJob,
        path: String,
        lines: Seq<Seq<char>>,
        done: int,
        events: Seq<JsonV>,
        n: Next<ExecLog>,
    ) -> bool {
        if done < lines.len() {
            &&& n matches Next::Act(s, Action::ParseLine { line })
            &&& line@ == lines[done]
            &&& s.job == job
            &&& s.at matches LogStep::Parse { path: p, lines: l, done: d, events: e }
            &&& p == path && crate::text::texts_view(l@) == lines && d == done
            &&& crate::json::json_views(e@) == events
        } else {
            n.replies(job.id, logged(job.task_id@, path@, events))
        }
    }

    /// Nothing new was found `idle` times in a row, and is looked for again unless that was too
    /// often.
    pub open spec fn idles(job: LogJob, idle: int, pause: bool, n: Next<ExecLog>) -> bool {
        if idle > MAX_IDLE {
            n.finishes(job, LogStep::Last, job.id, ended("stream timeout"@))
        } else if pause {
            n.goes(
                job,
                LogStep::Pause { idle: idle as u32 },
                Action::Sleep { millis: POLL_MILLIS },
            )
        } else {
            n.goes(
                job,
                LogStep::Poll { idle: idle as u32 },
                Action::PollLog { millis: POLL_MILLIS },
            )
        }
    }

    pub open spec fn follows(self, ev: Event, n: Next<ExecLog>) -> bool {
        let job = self.job;
        match (self.at, ev) {
            (LogStep::Find, Event::MaybeItem(r)) => match r {
                Err(e) => n.fails(job.id, crate::effects::database_message(e@)),
                Ok(None) => n.fails(job.id, crate::tasks::no_task_message(job.task_id@)),
                Ok(Some(task)) => if task.item_type != ItemType::Task {
                    n.fails(job.id, "INVALID_PARAMS: '"@ + job.task_id@ + "' is not a task"@)
                } else {
                    n.goes(job, LogStep::Latest, Action::FindLatestRun { task: task.id })
                },
            },
            (LogStep::Latest, Event::MaybeRun(r)) => match r {
                Err(e) => n.fails(job.id, crate::effects::database_message(e@)),
                Ok(None) => n.fails(
                    job.id,
                    "NOT_FOUND: no agent run found for task '"@ + job.task_id@ + "'"@,
                ),
                Ok(Some(run)) => match run.log_path {
                    None => n.fails(
                        job.id,
                        "NOT_FOUND: no log file for task '"@ + job.task_id@ + "'"@,
                    ),
                    Some(path) => if job.follow {
                        n.goes(job, LogStep::Open { path }, Action::OpenStream)
                    } else {
                        n.goes(job, LogStep::Read { path }, Action::ReadLog { path })
                    },
                },
            },
            (LogStep::Read { path }, Event::MaybeFile(r)) => match r {
                Err(e) => n.fails(job.id, "failed to read log file: "@ + e@),
                Ok(None) => n.fails(job.id, "NOT_FOUND: log file does not exist: "@ + path@),
                Ok(Some(content)) => ExecLog::parses(
                    job,
                    path,
                    log_lines(content@),
                    0,
                    Seq::empty(),
                    n,
                ),
            },
            (LogStep::Parse { path, lines, done, events }, Event::Line(event)) => ExecLog::parses(
                job,
                path,
                crate::text::texts_view(lines@),
                done + 1,
                crate::json::json_views(events@).push(event.shown()),
                n,
            ),
            (LogStep::Open { path }, Event::Done(_)) => n.goes(
                job,
                LogStep::OpenFile { path },
                Action::OpenLog { path },
            ),
            (LogStep::OpenFile { path }, Event::Done(r)) => match r {
                Err(e) => n.reports(
                    job,
                    LogStep::Last,
                    job.id,
                    "failed to open log file: "@ + e@,
                ),
                Ok(_) => n.goes(job, LogStep::Existing { path }, Action::ReadLogLine),
            },
            (LogStep::Existing { path }, Event::LogLine(l)) => match l {
                LogLine::Line(line) => n.goes(
                    job,
                    LogStep::ShowExisting { path },
                    Action::ParseLine { line },
                ),
                _ => n.goes(job, LogStep::Seek, Action::SeekLogEnd { path }),
            },
            (LogStep::ShowExisting { path }, Event::Line(event)) => n.shows(
                job,
                LogStep::SentExisting { path },
                job.id,
                event.shown(),
            ),
            (LogStep::SentExisting { path }, Event::Done(r)) => match r {
                Err(_) => n is End,
                Ok(_) => n.goes(job, LogStep::Existing { path }, Action::ReadLogLine),
            },
            (LogStep::Seek, Event::Done(r)) => match r {
                Err(_) => n.finishes(job, LogStep::Last, job.id, ended("log file closed"@)),
                Ok(_) => n.goes(
                    job,
                    LogStep::Poll { idle: 0 },
                    Action::PollLog { millis: POLL_MILLIS },
                ),
            },
            (LogStep::Poll { idle }, Event::LogLine(l)) => match l {
                LogLine::Line(line) => n.goes(job, LogStep::ShowNew, Action::ParseLine { line }),
                LogLine::End => ExecLog::idles(job, idle + 1, true, n),
                LogLine::Timeout => ExecLog::idles(job, idle + 1, false, n),
                LogLine::Failed => n.finishes(job, LogStep::Last, job.id, ended("read error"@)),
            },
            (LogStep::ShowNew, Event::Line(event)) => n.shows(
                job,
                LogStep::SentNew,
                job.id,
                event.shown(),
            ),
            (LogStep::SentNew, Event::Done(r)) => match r {
                Err(_) => n is End,
                Ok(_) => n.goes(
                    job,
                    LogStep::Poll { idle: 0 },
                    Action::PollLog { millis: POLL_MILLIS },
                ),
            },
            (LogStep::Pause { idle }, Event::Done(_)) => n.goes(
                job,
                LogStep::Poll { idle },
                Action::PollLog { millis: POLL_MILLIS },
            ),
            (LogStep::Last, Event::Done(_)) => n is End,
            _ => false,
        }
    }

    pub fn step(self, ev: Event) -> (n: Next<ExecLog>)
        requires
            self.accepts(ev),
        ensures
            self.follows(ev, n),
            n matches Next::Act(s, a) ==> forall|e: Event| a.answered_by(e) ==> s.accepts(e),
    {
        let Run { job, at } = self;
        match (at, ev) {
            (LogStep::Find, Event::MaybeItem(r)) => match r {
                Err(e) => Next::database_error(job.id, e.as_str()),
                Ok(None) => Next::fail(
                    job.id,
                    cat3("NOT_FOUND: task '", job.task_id.as_str(), "' not found").as_str(),
                ),
                Ok(Some(task)) => if task.item_type != ItemType::Task {
                    Next::fail(
                        job.id,
                        cat3("INVALID_PARAMS: '", job.task_id.as_str(), "' is not a task").as_str(),
                    )
                } else {
                    Next::go(job, LogStep::Latest, Action::FindLatestRun { task: task.id })
                },
            },
            (LogStep::Latest, Event::MaybeRun(r)) => match r {
                Err(e) => Next::database_error(job.id, e.as_str()),
                Ok(None) => Next::fail(
                    job.id,
                    cat3(
                        "NOT_FOUND: no agent run found for task '",
                        job.task_id.as_str(),
                        "'",
                    ).as_str(),
                ),
                Ok(Some(run)) => match run.log_path {
                    None => Next::fail(
                        job.id,
                        cat3(
                            "NOT_FOUND: no log file for task '",
                            job.task_id.as_str(),
                            "'",
                        ).as_str(),
                    ),
                    Some(path) => if job.follow {
                        Next::go(job, LogStep::Open { path }, Action::OpenStream)
                    } else {
                        let asked = path.clone();
                        Next::go(job, LogStep::Read { path }, Action::ReadLog { path: asked })
                    },
                },
            },
            (LogStep::Read { path }, Event::MaybeFile(r)) => match r {
                Err(e) => Next::fail(
                    job.id,
                    cat("failed to read log file: ", e.as_str()).as_str(),
                ),
                Ok(None) => Next::fail(
                    job.id,
                    cat("NOT_FOUND: log file does not exist: ", path.as_str()).as_str(),
                ),
                Ok(Some(content)) => {
                    let lines = split_log(content.as_str());
                    let events: Vec<Json> = Vec::new();
                    assert(crate::json::json_views(events@) =~= Seq::<JsonV>::empty());
                    parse_next(job, path, lines, 0, events)
                },
            },
            (LogStep::Parse { path, lines, done, events }, Event::Line(event)) => {
                let mut events = events;
                let ghost before = crate::json::json_views(events@);
                let entry = event.to_json();
                let ghost shown = entry@;
                events.push(entry);
                assert(crate::json::json_views(events@) =~= before.push(shown));
                parse_next(job, path, lines, done + 1, events)
            },
            (LogStep::Open { path }, Event::Done(_)) => {
                let asked = path.clone();
                Next::go(job, LogStep::OpenFile { path }, Action::OpenLog { path: asked })
            },
            (LogStep::OpenFile { path }, Event::Done(r)) => match r {
                Err(e) => {
                    let line = StreamingResponseLine::error(
                        job.id.clone(),
                        cat("failed to open log file: ", e.as_str()).as_str(),
                    );
                    Next::go(job, LogStep::Last, Action::Send { line })
                },
                Ok(_) => Next::go(job, LogStep::Existing { path }, Action::ReadLogLine),
            },
            (LogStep::Existing { path }, Event::LogLine(l)) => match l {
                LogLine::Line(line) => Next::go(
                    job,
                    LogStep::ShowExisting { path },
                    Action::ParseLine { line },
                ),
                _ => Next::go(job, LogStep::Seek, Action::SeekLogEnd { path }),
            },
            (LogStep::ShowExisting { path }, Event::Line(event)) => {
                let line = StreamingResponseLine::data(job.id.clone(), event.to_json());
                Next::go(job, LogStep::SentExisting { path }, Action::Send { line })
            },
            (LogStep::SentExisting { path }, Event::Done(r)) => match r {
                Err(_) => Next::End,
                Ok(_) => Next::go(job, LogStep::Existing { path }, Action::ReadLogLine),
            },
            (LogStep::Seek, Event::Done(r)) => match r {
                Err(_) => end_stream(job, "log file closed"),
                Ok(_) => Next::go(
                    job,
                    LogStep::Poll { idle: 0 },
                    Action::PollLog { millis: POLL_MILLIS },
                ),
            },
            (LogStep::Poll { idle }, Event::LogLine(l)) => match l {
                LogLine::Line(line) => Next::go(job, LogStep::ShowNew, Action::ParseLine { line }),
                LogLine::End => idle_again(job, idle + 1, true),
                LogLine::Timeout => idle_again(job, idle + 1, false),
                LogLine::Failed => end_stream(job, "read error"),
            },
            (LogStep::ShowNew, Event::Line(event)) => {
                let line = StreamingResponseLine::data(job.id.clone(), event.to_json());
                Next::go(job, LogStep::SentNew, Action::Send { line })
            },
            (LogStep::SentNew, Event::Done(r)) => match r {
                Err(_) => Next::End,
                Ok(_) => Next::go(
                    job,
                    LogStep::Poll { idle: 0 },
                    Action::PollLog { millis: POLL_MILLIS },
                ),
            },
            (LogStep::Pause { idle }, Event::Done(_)) => Next::go(
                job,
                LogStep::Poll { idle },
                Action::PollLog { millis: POLL_MILLIS },
            ),
            _ => Next::End,
        }
    }
}

fn parse_next(
    job: LogJob,
    path: String,
    lines: Vec<String>,
    done: usize,
    events: Vec<Json>,
) -> (n: Next<ExecLog>)
    ensures
        ExecLog::parses(
            job,
            path,
            crate::text::texts_view(lines@),
            done as int,
            crate::json::json_views(events@),
            n,
        ),
        n matches Next::Act(s, a) ==> forall|e: Event| a.answered_by(e) ==> s.accepts(e),
{
    if done < lines.len() {
        let line = lines[done].clone();
        Next::go(job, LogStep::Parse { path, lines, done, events }, Action::ParseLine { line })
    } else {
        Next::reply(
            job.id,
            Json::object().with("task_id", Json::Str(job.task_id)).with(
                "log_path",
                Json::Str(path),
            ).with("events", Json::array(events)),
        )
    }
}

fn end_stream(job: LogJob, reason: &str) -> (n: Next<ExecLog>)
    ensures
        n.finishes(job, LogStep::Last, job.id, ended(reason@)),
{
    let line = StreamingResponseLine::done(
        job.id.clone(),
        Json::object().with("reason", Json::text(reason)),
    );
    Next::go(job, LogStep::Last, Action::Send { line })
}

fn idle_again(job: LogJob, idle: u32, pause: bool) -> (n: Next<ExecLog>)
    ensures
        ExecLog::idles(job, idle as int, pause, n),
        n matches Next::Act(s, a) ==> forall|e: Event| a.answered_by(e) ==> s.accepts(e),
{
    if idle > MAX_IDLE {
        end_stream(job, "stream timeout")
    } else if pause {
        Next::go(job, LogStep::Pause { idle }, Action::Sleep { millis: POLL_MILLIS })
    } else {
        Next::go(job, LogStep::Poll { idle }, Action::PollLog { millis: POLL_MILLIS })
    }
}

} // verus!
