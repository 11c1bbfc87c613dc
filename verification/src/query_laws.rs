//! What `pipeline.status`, `pipeline.cancel` and `pipeline.log` are for, over the whole course of a
//! request.
use vstd::prelude::*;
use crate::effects::{Action, Event, Next, Notice};
use crate::histories::{had, just, reaches, Machine};
use crate::ident::Uuid;
use crate::json::JsonV;
use crate::pipeline_data::{PipelineRun, PipelineStage, PipelineStatus};
use crate::pipeline_queries::{PipelineQuery, QueryJob, QueryStep, QueryVerb};
use crate::project_laws::went_well;
use crate::protocol::{Request, ResponseStatus};

verus! {

impl Machine for PipelineQuery {
    open spec fn takes_up(req: Request, n: Next<PipelineQuery>) -> bool {
        exists|verb: QueryVerb| #[trigger] PipelineQuery::begins(req, verb, n)
    }

    open spec fn leads(self, ev: Event, n: Next<PipelineQuery>) -> bool {
        self.follows(ev, n)
    }
}

/// Whether the request names this run.
pub open spec fn names_run(req: Request, id: Uuid) -> bool {
    &&& req.params@.text_field("pipeline_run_id"@) is Some
    &&& crate::ident::parsed_uuid(req.params@.text_field("pipeline_run_id"@)->0) == Some(id.value)
}

/// Whether the run is the named one.
pub open spec fn is_named_run(
    req: Request,
    log: Seq<(Action, Event)>,
    id: Uuid,
    run: PipelineRun,
) -> bool {
    names_run(req, id) && had(
        log,
        Action::GetPipelineRun { run: id },
        Event::MaybePipeline(Ok(Some(run))),
    )
}

/// Whether the action marks the run as cancelled, at the iteration that it is in.
pub open spec fn is_cancelling(id: Uuid, run: PipelineRun, a: Action) -> bool {
    a == (Action::UpdatePipelineRun {
        run: id,
        status: PipelineStatus::Cancelled,
        stage: None,
        iteration: run.iteration,
    })
}

/// Whether the run was running and is cancelled.
pub open spec fn is_called_off(
    req: Request,
    log: Seq<(Action, Event)>,
    id: Uuid,
    run: PipelineRun,
) -> bool {
    &&& is_named_run(req, log, id, run)
    &&& run.status == PipelineStatus::Running
    &&& exists|a: Action| #[trigger] went_well(log, a) && is_cancelling(id, run, a)
}

/// Whether the stages of the run were found that are asked for.
pub open spec fn are_asked_for(
    req: Request,
    log: Seq<(Action, Event)>,
    verb: QueryVerb,
    id: Uuid,
    stages: Vec<PipelineStage>,
) -> bool {
    &&& names_run(req, id)
    &&& exists|run: PipelineRun| #[trigger] is_named_run(req, log, id, run)
    &&& verb matches QueryVerb::Log { stage_type, iteration } && had(
        log,
        Action::FindPipelineStages { run: id, stage_type, iteration },
        Event::Stages(Ok(stages)),
    )
    &&& stages@.len() > 0
}

/// Whether the path is that of the log of the stage.
pub open spec fn is_log_of(
    log: Seq<(Action, Event)>,
    id: Uuid,
    home: String,
    s: PipelineStage,
    path: Seq<char>,
) -> bool {
    &&& had(log, Action::NflowHome, Event::Text(Ok(home)))
    &&& path == crate::text::joined(
        crate::stage_run::log_dir(home@),
        crate::stage_run::log_name(id, s.stage_type, s.iteration),
    )
}

/// Whether the file holds this: nothing where there is none, or where it cannot be read.
pub open spec fn holds(log: Seq<(Action, Event)>, path: String, content: Seq<char>) -> bool {
    ||| content == ""@ && exists|ev: Event| #[trigger]
        had(log, Action::PathExists { path }, ev) && ev != Event::Flag(Ok(true))
    ||| exists|r: Result<String, String>| #[trigger]
        had(log, Action::ReadFile { path }, Event::Text(r)) && content == match r {
            Ok(t) => t@,
            Err(_) => ""@,
        }
}

/// What is told of a stage and its log.
pub open spec fn tells_of_log(
    log: Seq<(Action, Event)>,
    id: Uuid,
    home: String,
    s: PipelineStage,
    entry: JsonV,
) -> bool {
    &&& entry.text_field("stage_id"@) == Some(s.id.text())
    &&& entry.text_field("stage_type"@) == Some(s.stage_type.name())
    &&& entry.field("iteration"@) == Some(JsonV::Int(s.iteration as int))
    &&& entry.text_field("status"@) == Some(s.status.name())
    &&& exists|path: String, content: Seq<char>|
        #[trigger] holds(log, path, content) && is_log_of(log, id, home, s, path@)
            && entry.text_field("log_path"@) == Some(path@) && entry.text_field("content"@) == Some(
            content,
        )
}

spec fn logs_so_far(
    log: Seq<(Action, Event)>,
    id: Uuid,
    home: String,
    stages: Seq<PipelineStage>,
    entries: Seq<JsonV>,
) -> bool {
    &&& had(log, Action::NflowHome, Event::Text(Ok(home)))
    &&& entries.len() <= stages.len()
    &&& forall|i: int|
        0 <= i < entries.len() ==> tells_of_log(log, id, home, stages[i], #[trigger] entries[i])
}

spec fn query_holds(req: Request, log: Seq<(Action, Event)>, s: PipelineQuery, a: Action) -> bool {
    let id = s.job.run;
    let verb = s.job.verb;
    &&& s.job.id == req.id
    &&& names_run(req, id)
    &&& req.params@.text_field("pipeline_run_id"@) == Some(s.job.run_text@)
    &&& match s.at {
        QueryStep::Run => a == Action::GetPipelineRun { run: id },
        QueryStep::Stages { run } => {
            &&& verb is Status
            &&& is_named_run(req, log, id, run)
            &&& a == Action::ListPipelineStages { run: id }
        },
        QueryStep::Update { run } => {
            &&& verb is Cancel
            &&& is_named_run(req, log, id, run)
            &&& run.status == PipelineStatus::Running
            &&& is_cancelling(id, run, a)
        },
        QueryStep::Tell => {
            &&& verb is Cancel
            &&& exists|run: PipelineRun| #[trigger]
                is_called_off(req, log, id, run) && a == (Action::Broadcast {
                    notice: Notice::PipelineCompleted {
                        run: id,
                        project: run.project_id,
                        status: PipelineStatus::Cancelled,
                        iterations: run.iteration,
                    },
                })
        },
        QueryStep::Find => {
            &&& exists|run: PipelineRun| #[trigger] is_named_run(req, log, id, run)
            &&& verb matches QueryVerb::Log { stage_type, iteration }
            &&& a == Action::FindPipelineStages { run: id, stage_type, iteration }
        },
        QueryStep::Home { stages } => are_asked_for(req, log, verb, id, stages) && a
            == Action::NflowHome,
        QueryStep::Exists { path, home, stages, done, logs } => {
            &&& are_asked_for(req, log, verb, id, stages)
            &&& logs_so_far(log, id, home, stages@, crate::json::json_views(logs@))
            &&& done == crate::json::json_views(logs@).len() < stages@.len()
            &&& is_log_of(log, id, home, stages@[done as int], path@)
            &&& a == Action::PathExists { path }
        },
        QueryStep::Read { path, home, stages, done, logs } => {
            &&& are_asked_for(req, log, verb, id, stages)
            &&& logs_so_far(log, id, home, stages@, crate::json::json_views(logs@))
            &&& done == crate::json::json_views(logs@).len() < stages@.len()
            &&& is_log_of(log, id, home, stages@[done as int], path@)
            &&& just(log, Action::PathExists { path }, Event::Flag(Ok(true)))
            &&& a == Action::ReadFile { path }
        },
    }
}

proof fn query_facts_stay(req: Request, log: Seq<(Action, Event)>, verb: QueryVerb)
    requires
        log.len() > 0,
    ensures
        forall|i: Uuid, r: PipelineRun| #[trigger]
            is_named_run(req, log.drop_last(), i, r) ==> is_named_run(req, log, i, r),
        forall|i: Uuid, r: PipelineRun| #[trigger]
            is_called_off(req, log.drop_last(), i, r) ==> is_called_off(req, log, i, r),
        forall|i: Uuid, v: Vec<PipelineStage>| #[trigger]
            are_asked_for(req, log.drop_last(), verb, i, v) ==> are_asked_for(
                req,
                log,
                verb,
                i,
                v,
            ),
        forall|i: Uuid, h: String, v: Seq<PipelineStage>, l: Seq<JsonV>| #[trigger]
            logs_so_far(log.drop_last(), i, h, v, l) ==> logs_so_far(log, i, h, v, l),
        forall|i: Uuid, h: String, s: PipelineStage, p: Seq<char>| #[trigger]
            is_log_of(log.drop_last(), i, h, s, p) ==> is_log_of(log, i, h, s, p),
{
    crate::histories::had_more(log);
    let init = log.drop_last();
    assert forall|i: Uuid, r: PipelineRun| #[trigger]
        is_called_off(req, init, i, r) implies is_called_off(req, log, i, r) by {
        let a = choose|a: Action| #[trigger] went_well(init, a) && is_cancelling(i, r, a);
        assert(went_well(log, a));
    }
    assert forall|i: Uuid, v: Vec<PipelineStage>| #[trigger]
        are_asked_for(req, init, verb, i, v) implies are_asked_for(req, log, verb, i, v) by {
        let run = choose|run: PipelineRun| #[trigger] is_named_run(req, init, i, run);
        assert(is_named_run(req, log, i, run));
    }
    assert forall|p: String, c: Seq<char>| #[trigger] holds(init, p, c) implies holds(
        log,
        p,
        c,
    ) by {}
    assert forall|i: Uuid, h: String, v: Seq<PipelineStage>, l: Seq<JsonV>| #[trigger]
        logs_so_far(init, i, h, v, l) implies logs_so_far(log, i, h, v, l) by {
        assert forall|k: int| 0 <= k < l.len() implies tells_of_log(
            log,
            i,
            h,
            v[k],
            #[trigger] l[k],
        ) by {
            assert(tells_of_log(init, i, h, v[k], l[k]));
            let (path, content) = choose|path: String, content: Seq<char>|
                #[trigger] holds(init, path, content) && is_log_of(init, i, h, v[k], path@)
                    && l[k].text_field("log_path"@) == Some(path@) && l[k].text_field("content"@)
                    == Some(content);
            assert(holds(log, path, content));
        }
    }
}

proof fn query_keeps(req: Request, log: Seq<(Action, Event)>, s: PipelineQuery, a: Action)
    requires
        reaches(req, log, Next::Act(s, a)),
    ensures
        query_holds(req, log, s, a),
    decreases log.len(),
{
    if log.len() > 0 {
        let (b, ev) = log.last();
        let before = crate::histories::before_last::<PipelineQuery>(req, log, Next::Act(s, a));
        query_keeps(req, log.drop_last(), before, b);
        query_step(req, log, before, Next::Act(s, a));
    }
}

/// What is told of a run.
pub open spec fn tells_of_run(run: PipelineRun, data: JsonV) -> bool {
    &&& data.text_field("id"@) == Some(run.id.text())
    &&& data.text_field("project_id"@) == Some(run.project_id.text())
    &&& data.text_field("name"@) == Some(run.name@)
    &&& data.text_field("goal"@) == Some(run.goal@)
    &&& data.text_field("status"@) == Some(run.status.name())
    &&& data.field("iteration"@) == Some(JsonV::Int(run.iteration as int))
    &&& data.field("max_iterations"@) == Some(JsonV::Int(run.max_iterations as int))
}

/// What is told of a stage.
pub open spec fn tells_of_stage(s: PipelineStage, data: JsonV) -> bool {
    &&& data.text_field("id"@) == Some(s.id.text())
    &&& data.text_field("stage_type"@) == Some(s.stage_type.name())
    &&& data.field("iteration"@) == Some(JsonV::Int(s.iteration as int))
    &&& data.text_field("status"@) == Some(s.status.name())
    &&& data.field("output_result"@) == Some(JsonV::optional_text(s.output_result))
}

/// What an answer about a run says: its stages, that it is cancelled, or its logs.
pub open spec fn answers_query(
    req: Request,
    log: Seq<(Action, Event)>,
    verb: QueryVerb,
    id: Uuid,
    data: JsonV,
) -> bool {
    match verb {
        QueryVerb::Status => exists|run: PipelineRun, stages: Vec<PipelineStage>|
            #[trigger] is_named_run(req, log, id, run) && #[trigger] had(
                log,
                Action::ListPipelineStages { run: id },
                Event::Stages(Ok(stages)),
            ) && lists_stages(run, stages@, data),
        QueryVerb::Cancel => {
            &&& exists|run: PipelineRun| #[trigger] is_called_off(req, log, id, run)
            &&& data.text_field("pipeline_run_id"@) == Some(id.text())
            &&& data.text_field("status"@) == Some("cancelled"@)
        },
        QueryVerb::Log { .. } => exists|stages: Vec<PipelineStage>, home: String|
            #[trigger] are_asked_for(req, log, verb, id, stages) && #[trigger] had(
                log,
                Action::NflowHome,
                Event::Text(Ok(home)),
            ) && lists_stage_logs(req, log, id, home, stages@, data),
    }
}

pub open spec fn lists_stages(
    run: PipelineRun,
    stages: Seq<PipelineStage>,
    data: JsonV,
) -> bool {
    &&& data.field("run"@) is Some && tells_of_run(run, data.field("run"@)->0)
    &&& data.field("stages"@) matches Some(JsonV::Arr(entries))
    &&& entries.len() == stages.len()
    &&& forall|i: int| 0 <= i < stages.len() ==> tells_of_stage(stages[i], #[trigger] entries[i])
}

pub open spec fn lists_stage_logs(
    req: Request,
    log: Seq<(Action, Event)>,
    id: Uuid,
    home: String,
    stages: Seq<PipelineStage>,
    data: JsonV,
) -> bool {
    &&& data.text_field("pipeline_run_id"@) == req.params@.text_field("pipeline_run_id"@)
    &&& data.field("logs"@) matches Some(JsonV::Arr(entries))
    &&& entries.len() == stages.len()
    &&& forall|i: int|
        0 <= i < stages.len() ==> tells_of_log(log, id, home, stages[i], #[trigger] entries[i])
}

proof fn status_fields(run: PipelineRun, stages: Seq<PipelineStage>)
    ensures
        lists_stages(run, stages, crate::pipeline_queries::run_status(run, stages)),
{
    broadcast use crate::histories::field_of_with;

    reveal_strlit("run");
    reveal_strlit("stages");
    assert("run"@.len() == 3);
    assert("stages"@.len() == 6);
    let entries = stages.map_values(|s: PipelineStage| crate::pipeline_queries::stage_entry(s));
    assert forall|i: int| 0 <= i < stages.len() implies tells_of_stage(
        stages[i],
        #[trigger] entries[i],
    ) by {
        assert(entries[i] == crate::pipeline_queries::stage_entry(stages[i]));
        stage_fields(stages[i]);
    }
    run_fields(run);
}

proof fn stage_fields(s: PipelineStage)
    ensures
        tells_of_stage(s, crate::pipeline_queries::stage_entry(s)),
{
    broadcast use crate::histories::field_of_with;

    reveal_strlit("id");
    reveal_strlit("stage_type");
    reveal_strlit("iteration");
    reveal_strlit("status");
    reveal_strlit("output_result");
    assert("id"@.len() == 2);
    assert("stage_type"@.len() == 10);
    assert("iteration"@.len() == 9);
    assert("status"@.len() == 6);
    assert("output_result"@.len() == 13);
}

proof fn run_fields(run: PipelineRun)
    ensures
        tells_of_run(
            run,
            crate::pipeline_queries::with_details(
                JsonV::object().with("id"@, JsonV::Str(run.id.text())).with(
                    "project_id"@,
                    JsonV::Str(run.project_id.text()),
                ),
                run,
            ),
        ),
{
    broadcast use crate::histories::field_of_with;

    reveal_strlit("id");
    reveal_strlit("project_id");
    reveal_strlit("name");
    reveal_strlit("goal");
    reveal_strlit("status");
    reveal_strlit("current_stage");
    reveal_strlit("iteration");
    reveal_strlit("max_iterations");
    assert("id"@.len() == 2);
    assert("project_id"@.len() == 10);
    assert("name"@.len() == 4 && "name"@[0] == 'n');
    assert("goal"@.len() == 4 && "goal"@[0] == 'g');
    assert("status"@.len() == 6);
    assert("current_stage"@.len() == 13);
    assert("iteration"@.len() == 9);
    assert("max_iterations"@.len() == 14);
}

proof fn log_fields(s: PipelineStage, path: Seq<char>, content: Seq<char>)
    ensures
        ({
            let entry = crate::pipeline_queries::log_entry(s, path, content);
            &&& entry.text_field("stage_id"@) == Some(s.id.text())
            &&& entry.text_field("stage_type"@) == Some(s.stage_type.name())
            &&& entry.field("iteration"@) == Some(JsonV::Int(s.iteration as int))
            &&& entry.text_field("status"@) == Some(s.status.name())
            &&& entry.text_field("log_path"@) == Some(path)
            &&& entry.text_field("content"@) == Some(content)
        }),
{
    broadcast use crate::histories::field_of_with;

    reveal_strlit("stage_id");
    reveal_strlit("stage_type");
    reveal_strlit("iteration");
    reveal_strlit("status");
    reveal_strlit("log_path");
    reveal_strlit("content");
    assert("stage_id"@.len() == 8 && "stage_id"@[0] == 's');
    assert("stage_type"@.len() == 10);
    assert("iteration"@.len() == 9);
    assert("status"@.len() == 6);
    assert("log_path"@.len() == 8 && "log_path"@[0] == 'l');
    assert("content"@.len() == 7);
}

proof fn query_reads(
    req: Request,
    log: Seq<(Action, Event)>,
    job: QueryJob,
    home: String,
    stages: Vec<PipelineStage>,
    logs: Seq<JsonV>,
    n: Next<PipelineQuery>,
)
    requires
        job.id == req.id,
        names_run(req, job.run),
        req.params@.text_field("pipeline_run_id"@) == Some(job.run_text@),
        are_asked_for(req, log, job.verb, job.run, stages),
        logs_so_far(log, job.run, home, stages@, logs),
        PipelineQuery::reads(job, home, stages, logs.len() as int, logs, n),
    ensures
        n matches Next::Act(s, a) ==> query_holds(req, log, s, a) && s.job == job,
        n matches Next::Reply(r) ==> r.id == req.id && r.status == ResponseStatus::Success
            && answers_query(req, log, job.verb, job.run, r.data@),
        !(n is End),
{
    broadcast use crate::histories::field_of_with;

    if logs.len() == stages@.len() {
        reveal_strlit("pipeline_run_id");
        reveal_strlit("logs");
        assert("pipeline_run_id"@.len() == 15);
        assert("logs"@.len() == 4);
        assert(had(log, Action::NflowHome, Event::Text(Ok(home))));
        assert(lists_stage_logs(req, log, job.run, home, stages@, n->Reply_0.data@));
        assert(are_asked_for(req, log, job.verb, job.run, stages));
    }
}

/// Why a request about a run fails after this outcome: there is no such run, it is not running
/// where it is to be cancelled, no stage matches, or the database failed.
pub open spec fn refuses_query(verb: QueryVerb, a: Action, ev: Event) -> bool {
    match ev {
        Event::MaybePipeline(r) => match r {
            Ok(Some(run)) => verb is Cancel && run.status != PipelineStatus::Running,
            _ => true,
        },
        Event::Stages(r) => match r {
            Ok(stages) => verb is Log && stages@.len() == 0,
            Err(_) => true,
        },
        Event::Done(r) => r is Err && a is UpdatePipelineRun,
        Event::Text(r) => r is Err && a is NflowHome,
        _ => false,
    }
}

/// One step of a request about a run.
#[verifier::rlimit(40)]
proof fn query_step(
    req: Request,
    log: Seq<(Action, Event)>,
    before: PipelineQuery,
    n: Next<PipelineQuery>,
)
    requires
        log.len() > 0,
        query_holds(req, log.drop_last(), before, log.last().0),
        before.follows(log.last().1, n),
    ensures
        n matches Next::Act(s, a) ==> query_holds(req, log, s, a) && s.job == before.job,
        n matches Next::Reply(r) ==> r.id == req.id && (r.status == ResponseStatus::Success
            ==> answers_query(req, log, before.job.verb, before.job.run, r.data@)),
        refuses_query(before.job.verb, log.last().0, log.last().1) <==> n is Reply
            && n->Reply_0.status == ResponseStatus::Error,
        !(n is End),
{
    let (b, ev) = log.last();
    let init = log.drop_last();
    let job = before.job;
    let id = job.run;
    crate::histories::had_more(log);
    query_facts_stay(req, log, job.verb);
    assert(had(log, b, ev));
    match (before.at, ev) {
        (QueryStep::Run, Event::MaybePipeline(Ok(Some(run)))) => {
            assert(is_named_run(req, log, id, run));
        },
        (QueryStep::Stages { run }, Event::Stages(Ok(stages))) => {
            assert(is_named_run(req, log, id, run));
            assert(had(
                log,
                Action::ListPipelineStages { run: id },
                Event::Stages(Ok(stages)),
            ));
            status_fields(run, stages@);
        },
        (QueryStep::Update { run }, Event::Done(Ok(_))) => {
            assert(went_well(log, b));
            assert(is_called_off(req, log, id, run));
        },
        (QueryStep::Tell, Event::Done(_)) => {
            broadcast use crate::histories::field_of_with;

            let run = choose|run: PipelineRun| #[trigger]
                is_called_off(req, init, id, run) && b == (Action::Broadcast {
                    notice: Notice::PipelineCompleted {
                        run: id,
                        project: run.project_id,
                        status: PipelineStatus::Cancelled,
                        iterations: run.iteration,
                    },
                });
            assert(is_called_off(req, log, id, run));
            reveal_strlit("pipeline_run_id");
            reveal_strlit("status");
            assert("pipeline_run_id"@.len() == 15);
            assert("status"@.len() == 6);
        },
        (QueryStep::Find, Event::Stages(Ok(stages))) => {
            let run = choose|run: PipelineRun| #[trigger] is_named_run(req, init, id, run);
            assert(is_named_run(req, log, id, run));
            if stages@.len() > 0 {
                assert(are_asked_for(req, log, job.verb, id, stages));
            }
        },
        (QueryStep::Home { stages }, Event::Text(Ok(home))) => {
            assert(had(log, Action::NflowHome, Event::Text(Ok(home))));
            query_reads(req, log, job, home, stages, Seq::empty(), n);
        },
        (QueryStep::Exists { path, home, stages, done, logs }, Event::Flag(r)) => {
            if r != Ok::<bool, String>(true) {
                let old_logs = crate::json::json_views(logs@);
                let s = stages@[done as int];
                let entry = crate::pipeline_queries::log_entry(s, path@, ""@);
                log_fields(s, path@, ""@);
                assert(had(log, Action::PathExists { path }, ev));
                assert(holds(log, path, ""@));
                assert(tells_of_log(log, id, home, s, entry));
                assert(logs_so_far(log, id, home, stages@, old_logs.push(entry)));
                query_reads(req, log, job, home, stages, old_logs.push(entry), n);
            } else {
                assert(just(log, Action::PathExists { path }, Event::Flag(Ok(true))));
            }
        },
        (QueryStep::Read { path, home, stages, done, logs }, Event::Text(r)) => {
            let old_logs = crate::json::json_views(logs@);
            let s = stages@[done as int];
            let content = match r {
                Ok(t) => t@,
                Err(_) => ""@,
            };
            let entry = crate::pipeline_queries::log_entry(s, path@, content);
            log_fields(s, path@, content);
            assert(had(log, Action::ReadFile { path }, Event::Text(r)));
            assert(holds(log, path, content));
            assert(tells_of_log(log, id, home, s, entry));
            assert(logs_so_far(log, id, home, stages@, old_logs.push(entry)));
            query_reads(req, log, job, home, stages, old_logs.push(entry), n);
        },
        _ => {},
    }
}

/// A request about a run looks up the named run. A cancelling marks only a run that is running,
/// keeps its iteration, and then tells all clients that the run is over. The logs that are read
/// are those of the stages that are asked for.
pub proof fn law_what_a_query_does(
    req: Request,
    log: Seq<(Action, Event)>,
    s: PipelineQuery,
    a: Action,
)
    requires
        reaches(req, log, Next::Act(s, a)),
    ensures
        match a {
            Action::GetPipelineRun { run } => names_run(req, run),
            Action::ListPipelineStages { run } => s.job.verb is Status && names_run(req, run),
            Action::UpdatePipelineRun { run: id, .. } => s.job.verb is Cancel && exists|
                run: PipelineRun,
            | #[trigger]
                is_named_run(req, log, id, run) && run.status == PipelineStatus::Running
                    && is_cancelling(id, run, a),
            Action::Broadcast { notice } => s.job.verb is Cancel && exists|
                id: Uuid,
                run: PipelineRun,
            | #[trigger]
                is_called_off(req, log, id, run) && notice == (Notice::PipelineCompleted {
                    run: id,
                    project: run.project_id,
                    status: PipelineStatus::Cancelled,
                    iterations: run.iteration,
                }),
            Action::FindPipelineStages { run, stage_type, iteration } => names_run(req, run)
                && s.job.verb == (QueryVerb::Log { stage_type, iteration }),
            Action::NflowHome => exists|id: Uuid, stages: Vec<PipelineStage>| #[trigger]
                are_asked_for(req, log, s.job.verb, id, stages),
            Action::PathExists { path } => exists|
                id: Uuid,
                stages: Vec<PipelineStage>,
                stage: PipelineStage,
                home: String,
            |
                are_asked_for(req, log, s.job.verb, id, stages) && #[trigger] stages@.contains(
                    stage,
                ) && #[trigger] is_log_of(log, id, home, stage, path@),
            Action::ReadFile { path } => just(
                log,
                Action::PathExists { path },
                Event::Flag(Ok(true)),
            ),
            _ => false,
        },
{
    query_keeps(req, log, s, a);
    match s.at {
        QueryStep::Update { run } => {
            assert(is_named_run(req, log, a->UpdatePipelineRun_run, run));
        },
        QueryStep::Tell => {
            let run = choose|run: PipelineRun| #[trigger]
                is_called_off(req, log, s.job.run, run) && a == (Action::Broadcast {
                    notice: Notice::PipelineCompleted {
                        run: s.job.run,
                        project: run.project_id,
                        status: PipelineStatus::Cancelled,
                        iterations: run.iteration,
                    },
                });
            assert(is_called_off(req, log, s.job.run, run));
        },
        QueryStep::Home { stages } => {
            assert(are_asked_for(req, log, s.job.verb, s.job.run, stages));
        },
        QueryStep::Exists { path, home, stages, done, logs } => {
            assert(stages@.contains(stages@[done as int]));
            assert(is_log_of(
                log,
                s.job.run,
                home,
                stages@[done as int],
                a->PathExists_path@,
            ));
        },
        _ => {},
    }
}

/// A request about a run fails just where an outcome refuses it, and an answer that it went well
/// tells of the named run.
pub proof fn law_what_a_query_comes_to(
    req: Request,
    log: Seq<(Action, Event)>,
    s: PipelineQuery,
    a: Action,
    ev: Event,
    n: Next<PipelineQuery>,
)
    requires
        reaches(req, log, Next::Act(s, a)),
        a.answered_by(ev),
        s.follows(ev, n),
    ensures
        !(n is End),
        n matches Next::Act(t, b) ==> t.job == s.job,
        refuses_query(s.job.verb, a, ev) <==> n is Reply && n->Reply_0.status
            == ResponseStatus::Error,
        n matches Next::Reply(r) ==> r.id == req.id && (r.status == ResponseStatus::Success
            ==> answers_query(req, log.push((a, ev)), s.job.verb, s.job.run, r.data@)),
{
    query_keeps(req, log, s, a);
    let more = log.push((a, ev));
    assert(more.drop_last() =~= log);
    query_step(req, more, s, n);
}

} // verus!
