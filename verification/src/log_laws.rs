//! What `exec.log` is for, over the whole course of a request.
use vstd::prelude::*;
use crate::claude::StreamEvent;
use crate::effects::{Action, Event, LogLine, Next};
use crate::histories::{had, just, reaches, Machine};
use crate::json::JsonV;
use crate::logs::{ExecLog, LogJob, LogStep};
use crate::model::{AgentRun, ItemType, WorkItem};
use crate::protocol::{Request, ResponseStatus};

verus! {

impl Machine for ExecLog {
    open spec fn takes_up(req: Request, n: Next<ExecLog>) -> bool {
        ExecLog::begins(req, n)
    }

    open spec fn leads(self, ev: Event, n: Next<ExecLog>) -> bool {
        self.follows(ev, n)
    }
}

/// Whether the log is to be followed.
pub open spec fn is_followed(req: Request) -> bool {
    req.params@.truth_field("follow"@) == Some(true)
}

/// Whether the task is the named one.
pub open spec fn is_named_task(req: Request, log: Seq<(Action, Event)>, task: WorkItem) -> bool {
    &&& task.item_type == ItemType::Task
    &&& exists|text: String|
        req.params@.text_field("task_id"@) == Some(text@) && #[trigger] had(
            log,
            Action::FindItemByWaveId { text },
            Event::MaybeItem(Ok(Some(task))),
        )
}

/// Whether the path is that of the log of the latest run of the named task.
pub open spec fn is_latest_log(req: Request, log: Seq<(Action, Event)>, path: String) -> bool {
    exists|task: WorkItem, run: AgentRun|
        is_named_task(req, log, task) && #[trigger] had(
            log,
            Action::FindLatestRun { task: task.id },
            Event::MaybeRun(Ok(Some(run))),
        ) && run.log_path == Some(path)
}

/// The lines of the content that are not blank.
pub open spec fn spoken(content: Seq<char>) -> Seq<Seq<char>> {
    crate::text::lines(content).filter(|l: Seq<char>| crate::text::trimmed(l).len() > 0)
}

/// Whether the event is what the line says.
pub open spec fn is_read(log: Seq<(Action, Event)>, line: Seq<char>, shown: JsonV) -> bool {
    exists|text: String, event: StreamEvent|
        #[trigger] had(log, Action::ParseLine { line: text }, Event::Line(event)) && text@ == line
            && shown == event.shown()
}

spec fn are_read(
    log: Seq<(Action, Event)>,
    lines: Seq<Seq<char>>,
    events: Seq<JsonV>,
) -> bool {
    &&& events.len() <= lines.len()
    &&& forall|i: int| 0 <= i < events.len() ==> is_read(log, lines[i], #[trigger] events[i])
}

/// Whether the lines are those of the log.
pub open spec fn are_lines(
    req: Request,
    log: Seq<(Action, Event)>,
    path: String,
    lines: Seq<Seq<char>>,
) -> bool {
    &&& is_latest_log(req, log, path)
    &&& !is_followed(req)
    &&& exists|content: String| #[trigger]
        had(log, Action::ReadLog { path }, Event::MaybeFile(Ok(Some(content)))) && lines == spoken(
            content@,
        )
}

/// How often in a row, lately, nothing new was in the log.
pub open spec fn quiet(log: Seq<(Action, Event)>) -> nat
    decreases log.len(),
{
    if log.len() == 0 {
        0
    } else if log.last().0 is PollLog {
        match log.last().1 {
            Event::LogLine(LogLine::Line(_)) => 0,
            _ => quiet(log.drop_last()) + 1,
        }
    } else {
        quiet(log.drop_last())
    }
}

spec fn log_holds(req: Request, log: Seq<(Action, Event)>, s: ExecLog, a: Action) -> bool {
    &&& s.job.id == req.id
    &&& req.params@.text_field("task_id"@) == Some(s.job.task_id@)
    &&& s.job.follow == is_followed(req)
    &&& match s.at {
        LogStep::Find => log.len() == 0 && a == (Action::FindItemByWaveId {
            text: s.job.task_id,
        }),
        LogStep::Latest => quiet(log) == 0 && exists|task: WorkItem| #[trigger]
            is_named_task(req, log, task) && a == (Action::FindLatestRun { task: task.id }),
        LogStep::Read { path } => {
            &&& is_latest_log(req, log, path)
            &&& !is_followed(req)
            &&& a == Action::ReadLog { path }
        },
        LogStep::Parse { path, lines, done, events } => {
            &&& are_lines(req, log, path, crate::text::texts_view(lines@))
            &&& are_read(
                log,
                crate::text::texts_view(lines@),
                crate::json::json_views(events@),
            )
            &&& done == crate::json::json_views(events@).len()
            &&& done < crate::text::texts_view(lines@).len()
            &&& a matches Action::ParseLine { line }
            &&& line@ == crate::text::texts_view(lines@)[done as int]
        },
        LogStep::Open { path } => quiet(log) == 0 && is_followed(req) && is_latest_log(
            req,
            log,
            path,
        ) && a == Action::OpenStream,
        LogStep::OpenFile { path } => quiet(log) == 0 && is_followed(req) && is_latest_log(
            req,
            log,
            path,
        ) && a == (Action::OpenLog { path }),
        LogStep::Existing { path } => quiet(log) == 0 && is_followed(req) && is_latest_log(
            req,
            log,
            path,
        ) && a == Action::ReadLogLine,
        LogStep::ShowExisting { path } => {
            &&& quiet(log) == 0
            &&& is_followed(req)
            &&& is_latest_log(req, log, path)
            &&& a matches Action::ParseLine { line }
            &&& just(log, Action::ReadLogLine, Event::LogLine(LogLine::Line(line)))
        },
        LogStep::SentExisting { path } => {
            &&& quiet(log) == 0
            &&& is_followed(req)
            &&& is_latest_log(req, log, path)
            &&& sends_event(req, log, a)
        },
        LogStep::Seek => {
            &&& quiet(log) == 0
            &&& is_followed(req)
            &&& a matches Action::SeekLogEnd { path }
            &&& is_latest_log(req, log, path)
        },
        LogStep::Poll { idle } => {
            &&& is_followed(req)
            &&& quiet(log) == idle
            &&& idle <= 120
            &&& a == Action::PollLog { millis: 500 }
        },
        LogStep::ShowNew => {
            &&& is_followed(req)
            &&& quiet(log) == 0
            &&& a matches Action::ParseLine { line }
            &&& just(log, Action::PollLog { millis: 500 }, Event::LogLine(LogLine::Line(line)))
        },
        LogStep::SentNew => is_followed(req) && quiet(log) == 0 && sends_event(req, log, a),
        LogStep::Pause { idle } => {
            &&& is_followed(req)
            &&& quiet(log) == idle
            &&& idle <= 120
            &&& a == Action::Sleep { millis: 500 }
        },
        LogStep::Last => {
            &&& is_followed(req)
            &&& a matches Action::Send { line }
            &&& line.id == req.id && line.done
            &&& line.status == ResponseStatus::Success ==> closes_log(log, line.data@)
        },
    }
}

/// Whether the action sends what the last line was found to say.
pub open spec fn sends_event(req: Request, log: Seq<(Action, Event)>, a: Action) -> bool {
    &&& a matches Action::Send { line }
    &&& line.id == req.id && !line.done && line.status == ResponseStatus::Success
    &&& exists|text: String, event: StreamEvent| #[trigger]
        just(log, Action::ParseLine { line: text }, Event::Line(event)) && line.data@
            == event.shown()
}

/// Why a stream of a log ends: its end was not found, it could not be read, or nothing came for
/// too long.
pub open spec fn closes_log(log: Seq<(Action, Event)>, data: JsonV) -> bool {
    ||| log.last().0 is SeekLogEnd && data.text_field("reason"@) == Some("log file closed"@)
    ||| log.last().1 == Event::LogLine(LogLine::Failed) && data.text_field("reason"@) == Some(
        "read error"@,
    )
    ||| quiet(log) > 120 && data.text_field("reason"@) == Some("stream timeout"@)
}

proof fn log_facts_stay(req: Request, log: Seq<(Action, Event)>)
    requires
        log.len() > 0,
    ensures
        forall|t: WorkItem| #[trigger]
            is_named_task(req, log.drop_last(), t) ==> is_named_task(req, log, t),
        forall|p: String| #[trigger]
            is_latest_log(req, log.drop_last(), p) ==> is_latest_log(req, log, p),
        forall|p: String, l: Seq<Seq<char>>| #[trigger]
            are_lines(req, log.drop_last(), p, l) ==> are_lines(req, log, p, l),
        forall|l: Seq<Seq<char>>, e: Seq<JsonV>| #[trigger]
            are_read(log.drop_last(), l, e) ==> are_read(log, l, e),
{
    crate::histories::had_more(log);
    let init = log.drop_last();
    assert forall|t: WorkItem| #[trigger] is_named_task(req, init, t) implies is_named_task(
        req,
        log,
        t,
    ) by {}
    assert forall|p: String| #[trigger] is_latest_log(req, init, p) implies is_latest_log(
        req,
        log,
        p,
    ) by {
        let (task, run) = choose|task: WorkItem, run: AgentRun|
            is_named_task(req, init, task) && #[trigger] had(
                init,
                Action::FindLatestRun { task: task.id },
                Event::MaybeRun(Ok(Some(run))),
            ) && run.log_path == Some(p);
        assert(is_named_task(req, log, task));
        assert(had(
            log,
            Action::FindLatestRun { task: task.id },
            Event::MaybeRun(Ok(Some(run))),
        ));
    }
    assert forall|p: String, l: Seq<Seq<char>>| #[trigger]
        are_lines(req, init, p, l) implies are_lines(req, log, p, l) by {
        assert(is_latest_log(req, init, p));
    }
    assert forall|l: Seq<Seq<char>>, e: Seq<JsonV>| #[trigger]
        are_read(init, l, e) implies are_read(log, l, e) by {
        assert forall|i: int| 0 <= i < e.len() implies is_read(log, l[i], #[trigger] e[i]) by {
            assert(is_read(init, l[i], e[i]));
        }
    }
}

proof fn log_keeps(req: Request, log: Seq<(Action, Event)>, s: ExecLog, a: Action)
    requires
        reaches(req, log, Next::Act(s, a)),
    ensures
        log_holds(req, log, s, a),
    decreases log.len(),
{
    if log.len() > 0 {
        let (b, ev) = log.last();
        let before = crate::histories::before_last::<ExecLog>(req, log, Next::Act(s, a));
        log_keeps(req, log.drop_last(), before, b);
        log_step(req, log, before, Next::Act(s, a));
    }
}

/// What an answer that shows a log says: what each of its lines says, in their order.
pub open spec fn shows_log(req: Request, log: Seq<(Action, Event)>, data: JsonV) -> bool {
    exists|path: String, lines: Seq<Seq<char>>|
        #[trigger] are_lines(req, log, path, lines) && tells_lines(req, log, path, lines, data)
}

pub open spec fn tells_lines(
    req: Request,
    log: Seq<(Action, Event)>,
    path: String,
    lines: Seq<Seq<char>>,
    data: JsonV,
) -> bool {
    &&& data.text_field("task_id"@) == req.params@.text_field("task_id"@)
    &&& data.text_field("log_path"@) == Some(path@)
    &&& data.field("events"@) matches Some(JsonV::Arr(events))
    &&& events.len() == lines.len()
    &&& forall|i: int| 0 <= i < lines.len() ==> is_read(log, lines[i], #[trigger] events[i])
}

proof fn log_parses(
    req: Request,
    log: Seq<(Action, Event)>,
    job: LogJob,
    path: String,
    lines: Seq<Seq<char>>,
    events: Seq<JsonV>,
    n: Next<ExecLog>,
)
    requires
        job.id == req.id,
        req.params@.text_field("task_id"@) == Some(job.task_id@),
        job.follow == is_followed(req),
        are_lines(req, log, path, lines),
        are_read(log, lines, events),
        ExecLog::parses(job, path, lines, events.len() as int, events, n),
    ensures
        n matches Next::Act(s, a) ==> log_holds(req, log, s, a),
        n matches Next::Reply(r) ==> r.id == req.id && r.status == ResponseStatus::Success
            && shows_log(req, log, r.data@),
        !(n is End),
{
    broadcast use crate::histories::field_of_with;

    if events.len() == lines.len() {
        reveal_strlit("task_id");
        reveal_strlit("log_path");
        reveal_strlit("events");
        assert("task_id"@.len() == 7);
        assert("log_path"@.len() == 8);
        assert("events"@.len() == 6);
        assert(tells_lines(req, log, path, lines, n->Reply_0.data@));
        assert(are_lines(req, log, path, lines));
    }
}

/// Why a log is not shown after this outcome.
pub open spec fn refuses_log(ev: Event) -> bool {
    match ev {
        Event::MaybeItem(r) => r matches Ok(Some(task)) ==> task.item_type != ItemType::Task,
        Event::MaybeRun(r) => r matches Ok(Some(run)) ==> run.log_path is None,
        Event::MaybeFile(r) => !(r matches Ok(Some(_))),
        _ => false,
    }
}

/// One step of showing a log.
#[verifier::rlimit(40)]
proof fn log_step(req: Request, log: Seq<(Action, Event)>, before: ExecLog, n: Next<ExecLog>)
    requires
        log.len() > 0,
        log_holds(req, log.drop_last(), before, log.last().0),
        before.follows(log.last().1, n),
    ensures
        n matches Next::Act(s, a) ==> log_holds(req, log, s, a),
        n matches Next::Reply(r) ==> r.id == req.id && (r.status == ResponseStatus::Success
            ==> shows_log(req, log, r.data@)),
        refuses_log(log.last().1) <==> n is Reply && n->Reply_0.status == ResponseStatus::Error,
        n is End ==> is_followed(req) && log.last().0 is Send,
{
    broadcast use crate::histories::field_of_with;

    let (b, ev) = log.last();
    let init = log.drop_last();
    crate::histories::had_more(log);
    log_facts_stay(req, log);
    assert(had(log, b, ev));
    reveal_strlit("reason");
    match (before.at, ev) {
        (LogStep::Find, Event::MaybeItem(Ok(Some(task)))) => {
            assert(had(
                log,
                Action::FindItemByWaveId { text: before.job.task_id },
                Event::MaybeItem(Ok(Some(task))),
            ));
            if task.item_type == ItemType::Task {
                assert(is_named_task(req, log, task));
            }
            assert(quiet(init) == 0);
        },
        (LogStep::Latest, Event::MaybeRun(Ok(Some(run)))) => {
            let task = choose|task: WorkItem| #[trigger]
                is_named_task(req, init, task) && b == (Action::FindLatestRun { task: task.id });
            assert(is_named_task(req, log, task));
            assert(had(
                log,
                Action::FindLatestRun { task: task.id },
                Event::MaybeRun(Ok(Some(run))),
            ));
            if run.log_path is Some {
                assert(is_latest_log(req, log, run.log_path->0));
            }
        },
        (LogStep::Read { path }, Event::MaybeFile(Ok(Some(content)))) => {
            assert(had(
                log,
                Action::ReadLog { path },
                Event::MaybeFile(Ok(Some(content))),
            ));
            assert(are_lines(req, log, path, spoken(content@)));
            log_parses(req, log, before.job, path, spoken(content@), Seq::empty(), n);
        },
        (LogStep::Parse { path, lines, done, events }, Event::Line(event)) => {
            let ls = crate::text::texts_view(lines@);
            let es = crate::json::json_views(events@);
            assert(had(
                log,
                Action::ParseLine { line: b->ParseLine_line },
                Event::Line(event),
            ));
            assert(is_read(log, ls[done as int], event.shown()));
            assert(are_read(log, ls, es));
            assert(are_read(log, ls, es.push(event.shown())));
            log_parses(req, log, before.job, path, ls, es.push(event.shown()), n);
        },
        (LogStep::Existing { path }, Event::LogLine(l)) => {
            match l {
                LogLine::Line(line) => {
                    assert(just(
                        log,
                        Action::ReadLogLine,
                        Event::LogLine(LogLine::Line(line)),
                    ));
                },
                _ => {},
            }
        },
        (LogStep::ShowExisting { path }, Event::Line(event)) => {
            assert(just(
                log,
                Action::ParseLine { line: b->ParseLine_line },
                Event::Line(event),
            ));
            assert(sends_event(req, log, n->Act_1));
        },
        (LogStep::Poll { idle }, Event::LogLine(l)) => {
            match l {
                LogLine::Line(line) => {
                    assert(just(
                        log,
                        Action::PollLog { millis: 500 },
                        Event::LogLine(LogLine::Line(line)),
                    ));
                },
                _ => {},
            }
        },
        (LogStep::ShowNew, Event::Line(event)) => {
            assert(just(
                log,
                Action::ParseLine { line: b->ParseLine_line },
                Event::Line(event),
            ));
            assert(sends_event(req, log, n->Act_1));
        },
        _ => {},
    }
}

/// A log is shown of the latest run of the named task. What is sent of a log that is followed is
/// what each line says, as it is read. The stream is polled, and given up only when it was quiet
/// for too long or cannot be read.
pub proof fn law_what_showing_a_log_does(
    req: Request,
    log: Seq<(Action, Event)>,
    s: ExecLog,
    a: Action,
)
    requires
        reaches(req, log, Next::Act(s, a)),
    ensures
        match a {
            Action::FindItemByWaveId { text } => req.params@.text_field("task_id"@) == Some(text@),
            Action::FindLatestRun { task } => exists|t: WorkItem| #[trigger]
                is_named_task(req, log, t) && t.id == task,
            Action::ReadLog { path } => !is_followed(req) && is_latest_log(req, log, path),
            Action::ParseLine { line } => if is_followed(req) {
                ||| just(log, Action::ReadLogLine, Event::LogLine(LogLine::Line(line)))
                ||| just(
                    log,
                    Action::PollLog { millis: 500 },
                    Event::LogLine(LogLine::Line(line)),
                )
            } else {
                exists|path: String, lines: Seq<Seq<char>>| #[trigger]
                    are_lines(req, log, path, lines) && lines.contains(line@)
            },
            Action::OpenStream => is_followed(req),
            Action::OpenLog { path } => is_followed(req) && is_latest_log(req, log, path),
            Action::ReadLogLine => is_followed(req),
            Action::SeekLogEnd { path } => is_followed(req) && is_latest_log(req, log, path),
            Action::PollLog { millis } => is_followed(req) && millis == 500 && quiet(log) <= 120,
            Action::Sleep { millis } => is_followed(req) && millis == 500 && quiet(log) <= 120,
            Action::Send { line } => is_followed(req) && line.id == req.id && (line.done
                || sends_event(req, log, a)) && (line.done && line.status
                == ResponseStatus::Success ==> closes_log(log, line.data@)),
            _ => false,
        },
{
    log_keeps(req, log, s, a);
    match s.at {
        LogStep::Parse { path, lines, done, events } => {
            let ls = crate::text::texts_view(lines@);
            assert(are_lines(req, log, path, ls));
            assert(ls.contains(ls[done as int]));
        },
        _ => {},
    }
}

/// A log that is not followed is shown line by line, each as what it says, unless there is no
/// such task, run or log.
pub proof fn law_what_showing_a_log_comes_to(
    req: Request,
    log: Seq<(Action, Event)>,
    n: Next<ExecLog>,
)
    requires
        reaches(req, log, n),
    ensures
        n is End ==> log.len() > 0 && is_followed(req) && log.last().0 is Send,
        log.len() > 0 ==> (refuses_log(log.last().1) <==> n is Reply && n->Reply_0.status
            == ResponseStatus::Error),
        n matches Next::Reply(r) ==> r.id == req.id && (r.status == ResponseStatus::Success
            ==> shows_log(req, log, r.data@)),
{
    if log.len() > 0 {
        let before = crate::histories::before_last::<ExecLog>(req, log, n);
        log_keeps(req, log.drop_last(), before, log.last().0);
        log_step(req, log, before, n);
    }
}

} // verus!
