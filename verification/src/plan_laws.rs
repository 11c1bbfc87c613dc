//! What `plan.generate` and `plan.feedback` are for, over the whole course of a request.
use vstd::prelude::*;
use crate::building::{Batch, Builder};
use crate::claude::{RunConfig, RunKind};
use crate::decompose::{Ask, Counts, PlanStep, PlanTalk, Wanted};
use crate::drafts::DraftV;
use crate::effects::{Action, Event, Next};
use crate::histories::{had, reaches, Machine};
use crate::ident::Uuid;
use crate::json::{Json, JsonV};
use crate::model::{
    DecompositionSession, DecompositionStatus, Dependency, ItemType, NewItem, Project, Spec,
    SpecStatus, WorkItem,
};
use crate::protocol::{Request, ResponseStatus};

verus! {

impl Machine for PlanTalk {
    open spec fn takes_up(req: Request, n: Next<PlanTalk>) -> bool {
        PlanTalk::begins_generate(req, n) || PlanTalk::begins_feedback(req, n)
    }

    open spec fn leads(self, ev: Event, n: Next<PlanTalk>) -> bool {
        self.follows(ev, n)
    }
}

// ---- making the work items ----

pub open spec fn is_stored(log: Seq<(Action, Event)>, item: WorkItem) -> bool {
    had(log, Action::InsertWorkItem { item }, Event::Done(Ok(())))
}

/// The identifier of the latest item that was made of an epic's draft.
pub open spec fn latest_epic(drafts: Seq<DraftV>, made: Seq<WorkItem>) -> Option<Uuid>
    decreases made.len(),
{
    if made.len() == 0 {
        None
    } else if drafts[made.len() - 1] is Epic {
        Some(made.last().id)
    } else {
        latest_epic(drafts, made.drop_last())
    }
}

/// The identifier of the latest item that was made of a story's draft.
pub open spec fn latest_story(drafts: Seq<DraftV>, made: Seq<WorkItem>) -> Option<Uuid>
    decreases made.len(),
{
    if made.len() == 0 {
        None
    } else if drafts[made.len() - 1] is Story {
        Some(made.last().id)
    } else {
        latest_story(drafts, made.drop_last())
    }
}

/// Whether the item was asked for as its draft has it: an epic on its own, a story below the
/// epic before it, and a task below the story before it.
pub open spec fn is_as_drafted(
    session: Uuid,
    drafts: Seq<DraftV>,
    made: Seq<WorkItem>,
    k: int,
    item: NewItem,
) -> bool {
    &&& item.session == session
    &&& match drafts[k] {
        DraftV::Epic { short_id, title, description, sort_order } => {
            &&& item.item_type == ItemType::Epic
            &&& item.parent is None
            &&& item.short_id@ == short_id && item.title@ == title && item.description@
                == description
            &&& item.sort_order == sort_order
            &&& item.acceptance is None
        },
        DraftV::Story { short_id, title, description, acceptance, sort_order, .. } => {
            &&& item.item_type == ItemType::Story
            &&& item.parent == latest_epic(drafts, made.take(k))
            &&& item.short_id@ == short_id && item.title@ == title && item.description@
                == description
            &&& item.sort_order == sort_order
            &&& item.acceptance matches Some(t) && t@ == acceptance
        },
        DraftV::Task { short_id, title, description, acceptance, sort_order } => {
            &&& item.item_type == ItemType::Task
            &&& item.parent == latest_story(drafts, made.take(k))
            &&& item.short_id@ == short_id && item.title@ == title && item.description@
                == description
            &&& item.sort_order == sort_order
            &&& item.acceptance matches Some(t) && t@ == acceptance
        },
    }
}

/// Whether the item of the draft `k` was made for it and stored.
pub open spec fn is_made(
    log: Seq<(Action, Event)>,
    session: Uuid,
    drafts: Seq<DraftV>,
    made: Seq<WorkItem>,
    k: int,
) -> bool {
    &&& is_stored(log, made[k])
    &&& exists|item: NewItem| #[trigger]
        had(log, Action::NewWorkItem { item }, Event::WorkItem(made[k])) && is_as_drafted(
            session,
            drafts,
            made,
            k,
            item,
        )
}

/// Whether the items are those of the first drafts, in their order.
pub open spec fn are_made(
    log: Seq<(Action, Event)>,
    session: Uuid,
    drafts: Seq<DraftV>,
    made: Seq<WorkItem>,
) -> bool {
    &&& made.len() <= drafts.len()
    &&& forall|k: int|
        0 <= k < made.len() ==> #[trigger] is_made(log, session, drafts, made, k)
}

spec fn names_made(drafts: Seq<DraftV>, made: Seq<WorkItem>) -> Seq<(Seq<char>, Uuid)>
    decreases made.len(),
{
    if made.len() == 0 {
        Seq::empty()
    } else {
        let before = names_made(drafts, made.drop_last());
        match drafts[made.len() - 1] {
            DraftV::Story { short_id, .. } => before.push((short_id, made.last().id)),
            _ => before,
        }
    }
}

/// The items that were made of tasks' drafts, in their order.
pub open spec fn tasks_made(drafts: Seq<DraftV>, made: Seq<WorkItem>) -> Seq<WorkItem>
    decreases made.len(),
{
    if made.len() == 0 {
        Seq::empty()
    } else {
        let before = tasks_made(drafts, made.drop_last());
        if drafts[made.len() - 1] is Task {
            before.push(made.last())
        } else {
            before
        }
    }
}

/// The items that were made of stories' drafts, in their order.
pub open spec fn stories_made(drafts: Seq<DraftV>, made: Seq<WorkItem>) -> Seq<WorkItem>
    decreases made.len(),
{
    if made.len() == 0 {
        Seq::empty()
    } else {
        let before = stories_made(drafts, made.drop_last());
        if drafts[made.len() - 1] is Story {
            before.push(made.last())
        } else {
            before
        }
    }
}

pub open spec fn epics_made(drafts: Seq<DraftV>, made: Seq<WorkItem>) -> nat
    decreases made.len(),
{
    if made.len() == 0 {
        0
    } else {
        epics_made(drafts, made.drop_last()) + if drafts[made.len() - 1] is Epic {
            1nat
        } else {
            0nat
        }
    }
}

/// Whether the identifier is that of the last story of the name.
pub open spec fn is_story_named(
    drafts: Seq<DraftV>,
    made: Seq<WorkItem>,
    name: Seq<char>,
    id: Uuid,
) -> bool {
    exists|k: int|
        0 <= k < made.len() && #[trigger] is_draft_named(drafts[k], name) && made[k].id == id
            && forall|l: int|
            k < l < made.len() ==> !#[trigger] is_draft_named(drafts[l], name)
}

pub open spec fn is_draft_named(d: DraftV, name: Seq<char>) -> bool {
    d matches DraftV::Story { short_id, .. } && short_id == name
}

spec fn views_of(names: Seq<(String, Uuid)>) -> Seq<(Seq<char>, Uuid)> {
    names.map_values(|n: (String, Uuid)| (n.0@, n.1))
}

proof fn named_is_made(
    names: Seq<(String, Uuid)>,
    drafts: Seq<DraftV>,
    made: Seq<WorkItem>,
    name: Seq<char>,
)
    requires
        views_of(names) == names_made(drafts, made),
    ensures
        crate::building::named_story(names, name) matches Some(id) ==> is_story_named(
            drafts,
            made,
            name,
            id,
        ),
    decreases made.len(),
{
    if made.len() > 0 {
        let m = made.drop_last();
        let n = made.len() - 1;
        match drafts[n] {
            DraftV::Story { short_id, .. } => {
                let all = names_made(drafts, made);
                assert(views_of(names).len() == names.len());
                assert(views_of(names)[names.len() - 1] == (names.last().0@, names.last().1));
                assert(all.last() == (short_id, made.last().id));
                assert(views_of(names.drop_last()) =~= names_made(drafts, m)) by {
                    assert(all.drop_last() =~= names_made(drafts, m));
                    assert(views_of(names.drop_last()) =~= views_of(names).drop_last());
                }
                if names.last().0@ == name {
                    assert(is_draft_named(drafts[n], name));
                    assert(made[n].id == names.last().1);
                } else {
                    named_is_made(names.drop_last(), drafts, m, name);
                    assert(!is_draft_named(drafts[n], name));
                    extend_named(drafts, made, name);
                }
            },
            _ => {
                named_is_made(names, drafts, m, name);
                assert(!is_draft_named(drafts[n], name));
                extend_named(drafts, made, name);
            },
        }
    } else {
        assert(names.len() == views_of(names).len());
    }
}

proof fn extend_named(drafts: Seq<DraftV>, made: Seq<WorkItem>, name: Seq<char>)
    requires
        made.len() > 0,
        !is_draft_named(drafts[made.len() - 1], name),
    ensures
        forall|id: Uuid| #[trigger]
            is_story_named(drafts, made.drop_last(), name, id) ==> is_story_named(
                drafts,
                made,
                name,
                id,
            ),
{
    let m = made.drop_last();
    assert forall|id: Uuid| #[trigger] is_story_named(drafts, m, name, id) implies is_story_named(
        drafts,
        made,
        name,
        id,
    ) by {
        let k = choose|k: int|
            0 <= k < m.len() && #[trigger] is_draft_named(drafts[k], name) && m[k].id == id
                && forall|l: int|
                k < l < m.len() ==> !#[trigger] is_draft_named(drafts[l], name);
        assert(made[k] == m[k]);
        assert(is_draft_named(drafts[k], name));
    }
}

/// Whether the dependency is that of the link.
pub open spec fn is_dependency_of(
    drafts: Seq<DraftV>,
    made: Seq<WorkItem>,
    link: (Seq<char>, Seq<char>),
    d: Dependency,
) -> bool {
    is_story_named(drafts, made, link.0, d.blocked_id) && is_story_named(
        drafts,
        made,
        link.1,
        d.blocker_id,
    )
}

pub open spec fn is_kept(log: Seq<(Action, Event)>, d: Dependency) -> bool {
    had(log, Action::InsertDependency { dependency: d }, Event::Done(Ok(())))
}

spec fn builder_agrees(
    log: Seq<(Action, Event)>,
    b: Builder,
    drafts: Seq<DraftV>,
    made: Seq<WorkItem>,
) -> bool {
    &&& crate::drafts::draft_views(b.drafts@) == drafts
    &&& b.made == made.len()
    &&& are_made(log, b.batch.session, drafts, made)
    &&& b.epic == latest_epic(drafts, made)
    &&& b.story == latest_story(drafts, made)
    &&& b.epics == epics_made(drafts, made)
    &&& b.stories@ == stories_made(drafts, made)
    &&& views_of(b.names@) == names_made(drafts, made)
    &&& b.tasks@ == tasks_made(drafts, made)
}

/// Whether the drafts are those of the epics that the agent's result holds, and that for the
/// wave of the request.
pub open spec fn are_drafted(log: Seq<(Action, Event)>, drafts: Seq<DraftV>) -> bool {
    exists|text: String, parsed: Json| #[trigger]
        had(log, Action::ParseJson { text }, Event::Parsed(Ok(parsed))) && are_drafts_of(
            parsed@,
            drafts,
        )
}

pub open spec fn are_drafts_of(parsed: JsonV, drafts: Seq<DraftV>) -> bool {
    parsed.field("epics"@) matches Some(JsonV::Arr(epics)) && drafts == crate::drafts::epic_drafts(
        epics,
    )
}

spec fn all_agrees(log: Seq<(Action, Event)>, b: Builder, made: Seq<WorkItem>) -> bool {
    let drafts = crate::drafts::draft_views(b.drafts@);
    &&& are_drafted(log, drafts)
    &&& builder_agrees(log, b, drafts, made)
}

/// Whether the tasks that verify the made ones are stored.
pub open spec fn are_verified(
    log: Seq<(Action, Event)>,
    tasks: Seq<WorkItem>,
    verify: Seq<WorkItem>,
) -> bool {
    &&& exists|t: Vec<WorkItem>, v: Vec<WorkItem>|
        t@ == tasks && v@ == verify && #[trigger] had(
            log,
            Action::VerifyTasks { tasks: t },
            Event::Made(v),
        )
    &&& forall|i: int| 0 <= i < verify.len() ==> is_stored(log, #[trigger] verify[i])
}

/// Whether the wave is built: of every draft an item was made and stored, and every dependency
/// that the drafts name is kept, the last story of each name being meant.
pub open spec fn is_built(
    log: Seq<(Action, Event)>,
    session: Uuid,
    drafts: Seq<DraftV>,
    made: Seq<WorkItem>,
    deps: Seq<Dependency>,
) -> bool {
    &&& are_drafted(log, drafts)
    &&& are_made(log, session, drafts, made)
    &&& made.len() == drafts.len()
    &&& deps.len() == crate::building::depends_total(drafts)
    &&& forall|i: int| 0 <= i < deps.len() ==> is_kept(log, #[trigger] deps[i])
    &&& forall|k: int, j: int|
        0 <= k < drafts.len() && drafts[k] is Story && 0 <= j < drafts[k]->depends_on.len()
            ==> has_dependency(
            drafts,
            made,
            deps,
            drafts[k]->Story_short_id,
            #[trigger] drafts[k]->depends_on[j],
        )
}

/// Whether a dependency is among them that holds up the story of one name by that of the other.
pub open spec fn has_dependency(
    drafts: Seq<DraftV>,
    made: Seq<WorkItem>,
    deps: Seq<Dependency>,
    blocked: Seq<char>,
    blocker: Seq<char>,
) -> bool {
    exists|i: int|
        0 <= i < deps.len() && is_dependency_of(
            drafts,
            made,
            (blocked, blocker),
            #[trigger] deps[i],
        )
}

spec fn deps_agree(
    log: Seq<(Action, Event)>,
    drafts: Seq<DraftV>,
    made: Seq<WorkItem>,
    deps: Seq<Dependency>,
) -> bool {
    let links = crate::building::links(drafts);
    &&& deps.len() <= links.len()
    &&& forall|i: int|
        0 <= i < deps.len() ==> is_kept(log, #[trigger] deps[i]) && is_dependency_of(
            drafts,
            made,
            links[i],
            deps[i],
        )
}

/// Whether the wave was built and found to have no cycle, with so many items.
pub open spec fn is_settled(
    log: Seq<(Action, Event)>,
    batch: Batch,
    counts: Counts,
) -> bool {
    exists|
        drafts: Seq<DraftV>,
        made: Seq<WorkItem>,
        deps: Seq<Dependency>,
        verify: Seq<WorkItem>,
    |
        #[trigger] is_built(log, batch.session, drafts, made, deps) && #[trigger] are_verified(
            log,
            tasks_made(drafts, made),
            verify,
        ) && counts.epics == epics_made(drafts, made) && counts.stories == stories_made(
            drafts,
            made,
        ).len() && counts.tasks == tasks_made(drafts, made).len() + verify.len()
}

proof fn all_linked(
    log: Seq<(Action, Event)>,
    session: Uuid,
    drafts: Seq<DraftV>,
    made: Seq<WorkItem>,
    deps: Seq<Dependency>,
)
    requires
        are_drafted(log, drafts),
        are_made(log, session, drafts, made),
        made.len() == drafts.len(),
        deps_agree(log, drafts, made, deps),
        deps.len() == crate::building::links(drafts).len(),
    ensures
        is_built(log, session, drafts, made, deps),
{
    let links = crate::building::links(drafts);
    crate::building::law_every_dependency_is_linked(drafts);
    assert forall|k: int, j: int|
        0 <= k < drafts.len() && drafts[k] is Story && 0 <= j
            < drafts[k]->depends_on.len() implies has_dependency(
        drafts,
        made,
        deps,
        drafts[k]->Story_short_id,
        #[trigger] drafts[k]->depends_on[j],
    ) by {
        let l = (drafts[k]->Story_short_id, drafts[k]->depends_on[j]);
        assert(links.contains(l));
        let i = choose|i: int| 0 <= i < links.len() && links[i] == l;
        assert(is_dependency_of(drafts, made, links[i], deps[i]));
    }
}

// ---- the specs of a wave ----

pub open spec fn is_project(req: Request, log: Seq<(Action, Event)>, p: Project) -> bool {
    exists|name: String|
        req.params@.text_field("project_name"@) == Some(name@) && #[trigger] had(
            log,
            Action::GetProjectByName { name },
            Event::MaybeProject(Ok(Some(p))),
        )
}

/// Whether the spec was found by the name that the request gives at that place.
pub open spec fn is_spec_named(
    log: Seq<(Action, Event)>,
    project: Project,
    names: Seq<String>,
    specs: Seq<Spec>,
    i: int,
) -> bool {
    specs[i].status == SpecStatus::Approved && had(
        log,
        Action::GetSpecByName { project: project.id, name: names[i] },
        Event::MaybeSpec(Ok(Some(specs[i]))),
    )
}

/// Whether the specs are those that are asked for: the named ones, all approved, in the order of
/// their names, or else all approved ones that belong to no wave.
pub open spec fn are_asked_for(
    log: Seq<(Action, Event)>,
    ask: Ask,
    project: Project,
    specs: Seq<Spec>,
) -> bool {
    &&& specs.len() > 0
    &&& ask is Generate
    &&& had(
        log,
        Action::FindDraftSession { project: project.id },
        Event::MaybeSession(Ok(None)),
    )
    &&& match ask->spec_names {
        Some(names) => specs.len() == names@.len() && forall|i: int|
            0 <= i < specs.len() ==> #[trigger] is_spec_named(log, project, names@, specs, i),
        None => exists|v: Vec<Spec>|
            v@ == specs && #[trigger] had(
                log,
                Action::FindUnassignedApprovedSpecs { project: project.id },
                Event::Specs(Ok(v)),
            ),
    }
}

/// Whether the content is that of the spec's file.
pub open spec fn is_content(log: Seq<(Action, Event)>, spec: Spec, content: String) -> bool {
    had(log, Action::ReadFile { path: spec.file_path }, Event::Text(Ok(content)))
}

spec fn wanted_agrees(log: Seq<(Action, Event)>, ask: Ask, wanted: Wanted) -> bool {
    &&& are_asked_for(log, ask, wanted.project, wanted.specs@)
    &&& wanted.contents@.len() <= wanted.specs@.len()
    &&& forall|i: int|
        0 <= i < wanted.contents@.len() ==> is_content(
            log,
            wanted.specs@[i],
            #[trigger] wanted.contents@[i],
        )
}

/// Whether the wave is new, with the number that comes next in the project.
pub open spec fn is_new_wave(
    log: Seq<(Action, Event)>,
    project: Project,
    session: DecompositionSession,
    wave: u32,
) -> bool {
    &&& had(
        log,
        Action::NextWaveNumber { project: project.id },
        Event::Count(Ok(wave)),
    )
    &&& had(
        log,
        Action::NewSession { project: project.id, previous: (wave - 1) as u32 },
        Event::Session(Ok(session)),
    )
    &&& wave >= 1
}

pub open spec fn is_linked(
    log: Seq<(Action, Event)>,
    session: Uuid,
    specs: Seq<Spec>,
    i: int,
) -> bool {
    had(log, Action::LinkSpec { session, spec: specs[i].id }, Event::Done(Ok(())))
}

/// Whether the wave of a `plan.generate` stands: it is stored and linked to its specs.
pub open spec fn is_opened(
    req: Request,
    log: Seq<(Action, Event)>,
    ask: Ask,
    project: Project,
    specs: Seq<Spec>,
    session: DecompositionSession,
    wave: u32,
) -> bool {
    &&& is_project(req, log, project)
    &&& are_asked_for(log, ask, project, specs)
    &&& is_new_wave(log, project, session, wave)
    &&& had(log, Action::InsertSession { session }, Event::Done(Ok(())))
    &&& forall|i: int|
        0 <= i < specs.len() ==> #[trigger] is_linked(log, session.id, specs, i)
}

/// Whether the batch is that of an opened wave.
pub open spec fn is_fresh_batch(
    req: Request,
    log: Seq<(Action, Event)>,
    ask: Ask,
    batch: Batch,
) -> bool {
    exists|project: Project, specs: Seq<Spec>, session: DecompositionSession|
        #[trigger] is_opened(req, log, ask, project, specs, session, batch.wave) && batch.session
            == session.id && batch.project == project.id && batch.specs@
            == crate::decompose::ids_of(specs)
}

/// Whether the batch is that of a draft wave whose items were taken away, to be made anew.
pub open spec fn is_cleared_batch(
    req: Request,
    log: Seq<(Action, Event)>,
    ask: Ask,
    batch: Batch,
) -> bool {
    exists|project: Project, session: DecompositionSession|
        #[trigger] is_redone(req, log, ask, project, session) && batch.session == session.id
            && batch.wave == session.wave_number && batch.project == project.id && had(
            log,
            Action::ListSpecIds { session: session.id },
            Event::Uuids(Ok(batch.specs)),
        ) && had(log, Action::DeleteItems { session: session.id }, Event::Done(Ok(())))
}

/// Whether the wave is a draft of the project that can be talked about again.
pub open spec fn is_redone(
    req: Request,
    log: Seq<(Action, Event)>,
    ask: Ask,
    project: Project,
    session: DecompositionSession,
) -> bool {
    &&& ask is Feedback
    &&& is_project(req, log, project)
    &&& session.status == DecompositionStatus::InProgress
    &&& session.claude_session_id is Some
    &&& match ask->wave {
        Some(wave) => had(
            log,
            Action::GetSessionByWave { project: project.id, wave },
            Event::MaybeSession(Ok(Some(session))),
        ),
        None => had(
            log,
            Action::FindDraftSession { project: project.id },
            Event::MaybeSession(Ok(Some(session))),
        ),
    }
}

spec fn is_batch(req: Request, log: Seq<(Action, Event)>, ask: Ask, batch: Batch) -> bool {
    is_fresh_batch(req, log, ask, batch) || (is_cleared_batch(req, log, ask, batch) && forall|
        i: int,
    |
        0 <= i < batch.specs@.len() ==> is_spec_set(
            log,
            #[trigger] batch.specs@[i],
            SpecStatus::Approved,
        ))
}

pub open spec fn is_spec_set(log: Seq<(Action, Event)>, spec: Uuid, status: SpecStatus) -> bool {
    had(log, Action::UpdateSpecStatus { spec, status }, Event::Done(Ok(())))
}

spec fn asks_right(req: Request, ask: Ask) -> bool {
    match ask {
        Ask::Generate { project_name, spec_names, .. } => {
            &&& req.params@.text_field("project_name"@) == Some(project_name@)
            &&& match spec_names {
                Some(names) => req.params@.field("spec_names"@) matches Some(JsonV::Arr(items))
                    && crate::text::texts_view(names@) == crate::drafts::strings(items),
                None => !(req.params@.field("spec_names"@) matches Some(JsonV::Arr(_))),
            }
        },
        Ask::Feedback { project_name, message, .. } => req.params@.text_field("project_name"@)
            == Some(project_name@) && req.params@.text_field("message"@) == Some(message@),
    }
}

/// Whether the agent is set to decompose the specs: the prompt is made of what their files say,
/// or it is the remark, for the agent that made the wave.
pub open spec fn is_asked_to_decompose(
    req: Request,
    log: Seq<(Action, Event)>,
    ask: Ask,
    config: RunConfig,
) -> bool {
    match ask {
        Ask::Generate { with_codebase, .. } => config.kind == RunKind::Decompose { with_codebase }
            && config.resume_session is None && is_decompose_prompt(req, log, ask, config.prompt),
        Ask::Feedback { message, .. } => config.prompt == message && exists|
            project: Project,
            session: DecompositionSession,
        |
            #[trigger] is_redone(req, log, ask, project, session) && config.resume_session
                == session.claude_session_id && config.working_dir == Some(project.path),
    }
}

pub open spec fn is_decompose_prompt(
    req: Request,
    log: Seq<(Action, Event)>,
    ask: Ask,
    prompt: String,
) -> bool {
    exists|template: String, vars: Vec<crate::pipeline_data::TemplateVar>| #[trigger]
        had(log, Action::RenderTemplate { template, vars }, Event::Text(Ok(prompt)))
            && tells_the_specs(req, log, ask, crate::pipeline_data::var_views(vars@))
}

/// Whether the prompt is filled with what the files of all specs of the wave say.
pub open spec fn tells_the_specs(
    req: Request,
    log: Seq<(Action, Event)>,
    ask: Ask,
    vars: Seq<(Seq<char>, Seq<char>)>,
) -> bool {
    &&& vars.len() == 2
    &&& vars[0].0 == "specs_content"@
    &&& vars[1].0 == "project_name"@
    &&& exists|specs: Vec<Spec>, contents: Vec<String>, text: String, project: Project|
        #[trigger] had(
            log,
            Action::DescribeSpecs { specs, contents },
            Event::Written(text),
        ) && vars[0].1 == text@ && #[trigger] is_project(req, log, project) && vars[1].1
            == project.name@ && are_asked_for(log, ask, project, specs@) && are_contents(
            log,
            specs@,
            contents@,
        )
}

pub open spec fn are_contents(
    log: Seq<(Action, Event)>,
    specs: Seq<Spec>,
    contents: Seq<String>,
) -> bool {
    contents.len() == specs.len() && forall|i: int|
        0 <= i < specs.len() ==> is_content(log, specs[i], #[trigger] contents[i])
}

/// Whether the agent to go on with is the one that made the wave.
pub open spec fn is_resumed(
    req: Request,
    log: Seq<(Action, Event)>,
    ask: Ask,
    project: Project,
    resume: String,
) -> bool {
    exists|session: DecompositionSession| #[trigger]
        is_redone(req, log, ask, project, session) && session.claude_session_id == Some(resume)
}

pub open spec fn was_checked(log: Seq<(Action, Event)>) -> bool {
    exists|stories: Vec<WorkItem>, dependencies: Vec<Dependency>| #[trigger]
        had(log, Action::CheckDag { stories, dependencies }, Event::Done(Ok(())))
}

spec fn is_depending(
    log: Seq<(Action, Event)>,
    b: Builder,
    tasks: usize,
    deps: Seq<Dependency>,
    made: Seq<WorkItem>,
    verify: Seq<WorkItem>,
) -> bool {
    let drafts = crate::drafts::draft_views(b.drafts@);
    &&& all_agrees(log, b, made)
    &&& made.len() == drafts.len()
    &&& are_verified(log, tasks_made(drafts, made), verify)
    &&& tasks == tasks_made(drafts, made).len() + verify.len()
    &&& deps_agree(log, drafts, made, deps)
}

spec fn is_storing_verify(
    log: Seq<(Action, Event)>,
    b: Builder,
    tasks: usize,
    made: Seq<WorkItem>,
    verify: Vec<WorkItem>,
    done: int,
) -> bool {
    let drafts = crate::drafts::draft_views(b.drafts@);
    &&& all_agrees(log, b, made)
    &&& made.len() == drafts.len()
    &&& exists|t: Vec<WorkItem>|
        t@ == tasks_made(drafts, made) && #[trigger] had(
            log,
            Action::VerifyTasks { tasks: t },
            Event::Made(verify),
        )
    &&& tasks == tasks_made(drafts, made).len() + verify@.len()
    &&& 0 <= done <= verify@.len()
    &&& forall|i: int| 0 <= i < done ==> is_stored(log, #[trigger] verify@[i])
}

spec fn is_storing(
    log: Seq<(Action, Event)>,
    b: Builder,
    tasks: usize,
    verify: Vec<WorkItem>,
    done: int,
) -> bool {
    exists|made: Seq<WorkItem>| #[trigger]
        is_storing_verify(log, b, tasks, made, verify, done)
}

/// Whether the wave is complete: it was built, has no cycle, and its specs count as decomposed.
pub open spec fn is_complete(log: Seq<(Action, Event)>, batch: Batch, counts: Counts) -> bool {
    &&& is_settled(log, batch, counts)
    &&& was_checked(log)
    &&& forall|i: int|
        0 <= i < batch.specs@.len() ==> is_spec_set(
            log,
            #[trigger] batch.specs@[i],
            SpecStatus::Decomposed,
        )
}

spec fn plan_holds(req: Request, log: Seq<(Action, Event)>, s: PlanTalk, a: Action) -> bool {
    let ask = s.job.ask;
    &&& s.job.id == req.id
    &&& asks_right(req, ask)
    &&& match s.at {
        PlanStep::Project => a == Action::GetProjectByName {
            name: match ask {
                Ask::Generate { project_name, .. } => project_name,
                Ask::Feedback { project_name, .. } => project_name,
            },
        },
        PlanStep::Draft { project } => ask is Generate && is_project(req, log, project) && a
            == Action::FindDraftSession { project: project.id },
        PlanStep::Named { project, found } => {
            &&& is_project(req, log, project)
            &&& ask matches Ask::Generate { spec_names: Some(names), .. }
            &&& had(
                log,
                Action::FindDraftSession { project: project.id },
                Event::MaybeSession(Ok(None)),
            )
            &&& found@.len() < names@.len()
            &&& forall|i: int|
                0 <= i < found@.len() ==> #[trigger] is_spec_named(
                    log,
                    project,
                    names@,
                    found@,
                    i,
                )
            &&& a == Action::GetSpecByName {
                project: project.id,
                name: names@[found@.len() as int],
            }
        },
        PlanStep::Unassigned { project } => {
            &&& is_project(req, log, project)
            &&& ask matches Ask::Generate { spec_names: None, .. }
            &&& had(
                log,
                Action::FindDraftSession { project: project.id },
                Event::MaybeSession(Ok(None)),
            )
            &&& a == Action::FindUnassignedApprovedSpecs { project: project.id }
        },
        PlanStep::Read { wanted } => {
            &&& is_project(req, log, wanted.project)
            &&& wanted_agrees(log, ask, wanted)
            &&& wanted.contents@.len() < wanted.specs@.len()
            &&& a == Action::ReadFile {
                path: wanted.specs@[wanted.contents@.len() as int].file_path,
            }
        },
        PlanStep::Wave { wanted } => {
            &&& is_project(req, log, wanted.project)
            &&& wanted_agrees(log, ask, wanted)
            &&& wanted.contents@.len() == wanted.specs@.len()
            &&& a == Action::NextWaveNumber { project: wanted.project.id }
        },
        PlanStep::Create { wanted, wave } => {
            &&& is_project(req, log, wanted.project)
            &&& wanted_agrees(log, ask, wanted)
            &&& wanted.contents@.len() == wanted.specs@.len()
            &&& wave >= 1
            &&& had(
                log,
                Action::NextWaveNumber { project: wanted.project.id },
                Event::Count(Ok(wave)),
            )
            &&& a == Action::NewSession {
                project: wanted.project.id,
                previous: (wave - 1) as u32,
            }
        },
        PlanStep::Insert { wanted, wave, session } => {
            &&& is_project(req, log, wanted.project)
            &&& wanted_agrees(log, ask, wanted)
            &&& wanted.contents@.len() == wanted.specs@.len()
            &&& is_new_wave(log, wanted.project, session, wave)
            &&& a == Action::InsertSession { session }
        },
        PlanStep::Link { wanted, wave, session, done } => {
            &&& is_project(req, log, wanted.project)
            &&& wanted_agrees(log, ask, wanted)
            &&& wanted.contents@.len() == wanted.specs@.len()
            &&& is_new_wave(log, wanted.project, session, wave)
            &&& had(log, Action::InsertSession { session }, Event::Done(Ok(())))
            &&& done < wanted.specs@.len()
            &&& forall|i: int|
                0 <= i < done ==> #[trigger] is_linked(log, session.id, wanted.specs@, i)
            &&& a == Action::LinkSpec {
                session: session.id,
                spec: wanted.specs@[done as int].id,
            }
        },
        PlanStep::Home { wanted, wave, session } => a is NflowHome && is_ready_wave(
            req,
            log,
            ask,
            wanted,
            session,
            wave,
        ),
        PlanStep::Prompts { wanted, wave, session, .. } => a is IsDir && is_ready_wave(
            req,
            log,
            ask,
            wanted,
            session,
            wave,
        ),
        PlanStep::Load { wanted, wave, session, .. } => a is LoadTemplate && is_ready_wave(
            req,
            log,
            ask,
            wanted,
            session,
            wave,
        ),
        PlanStep::Describe { project, batch, .. } => {
            &&& is_fresh_batch(req, log, ask, batch)
            &&& is_project(req, log, project)
            &&& a matches Action::DescribeSpecs { specs, contents }
            &&& are_asked_for(log, ask, project, specs@)
            &&& are_contents(log, specs@, contents@)
        },
        PlanStep::Render { project, batch, .. } => {
            &&& is_fresh_batch(req, log, ask, batch)
            &&& is_project(req, log, project)
            &&& ask is Generate
            &&& a matches Action::RenderTemplate { vars, .. }
            &&& tells_the_specs(req, log, ask, crate::pipeline_data::var_views(vars@))
        },
        PlanStep::Session { project } => {
            &&& is_project(req, log, project)
            &&& ask matches Ask::Feedback { wave, .. }
            &&& a == match wave {
                Some(wave) => Action::GetSessionByWave { project: project.id, wave },
                None => Action::FindDraftSession { project: project.id },
            }
        },
        PlanStep::Specs { project, session, resume } => {
            &&& is_redone(req, log, ask, project, session)
            &&& session.claude_session_id == Some(resume)
            &&& a == Action::ListSpecIds { session: session.id }
        },
        PlanStep::Clear { project, resume, batch } => {
            &&& is_resumed(req, log, ask, project, resume)
            &&& exists|session: DecompositionSession|
                #[trigger] is_redone(req, log, ask, project, session) && batch.session
                    == session.id && batch.wave == session.wave_number && batch.project
                    == project.id && had(
                    log,
                    Action::ListSpecIds { session: session.id },
                    Event::Uuids(Ok(batch.specs)),
                )
            &&& a == Action::DeleteItems { session: batch.session }
        },
        PlanStep::Revert { project, resume, batch, done } => {
            &&& is_resumed(req, log, ask, project, resume)
            &&& is_cleared_batch(req, log, ask, batch)
            &&& done < batch.specs@.len()
            &&& forall|i: int|
                0 <= i < done ==> is_spec_set(
                    log,
                    #[trigger] batch.specs@[i],
                    SpecStatus::Approved,
                )
            &&& a == Action::UpdateSpecStatus {
                spec: batch.specs@[done as int],
                status: SpecStatus::Approved,
            }
        },
        PlanStep::Open { batch, config } => a is OpenStream && is_batch(req, log, ask, batch)
            && is_asked_to_decompose(req, log, ask, config),
        PlanStep::First { batch, config } => a is Send && !(a->Send_line.done) && is_batch(
            req,
            log,
            ask,
            batch,
        ) && is_asked_to_decompose(req, log, ask, config),
        PlanStep::Spawn { batch } => is_batch(req, log, ask, batch) && (a
            matches Action::SpawnClaude { config } && is_asked_to_decompose(
            req,
            log,
            ask,
            config,
        )),
        PlanStep::Listen { batch, .. } => a is NextClaudeEvent && is_batch(req, log, ask, batch),
        PlanStep::Show { batch, .. } => a is Send && !(a->Send_line.done) && is_batch(
            req,
            log,
            ask,
            batch,
        ),
        PlanStep::Broken { batch, .. } => a is Send && is_batch(req, log, ask, batch),
        PlanStep::ClaudeId { batch, .. } => a is ClaudeSessionId && is_batch(req, log, ask, batch),
        PlanStep::StoreId { batch, .. } => is_batch(req, log, ask, batch) && (a
            matches Action::UpdateSessionClaudeId { session, .. } && session == batch.session),
        PlanStep::Parse { batch, .. } => a is ParseJson && is_batch(req, log, ask, batch),
        PlanStep::OpenDb { batch, parsed } => {
            &&& is_batch(req, log, ask, batch)
            &&& a is OpenDb
            &&& exists|text: String| #[trigger]
                had(log, Action::ParseJson { text }, Event::Parsed(Ok(parsed)))
        },
        PlanStep::Make { builder } => {
            &&& is_batch(req, log, ask, builder.batch)
            &&& exists|made: Seq<WorkItem>| #[trigger] all_agrees(log, builder, made)
            &&& builder.made < builder.drafts@.len()
            &&& a matches Action::NewWorkItem { item }
            &&& builder.wants(item)
        },
        PlanStep::Store { builder, item } => {
            &&& is_batch(req, log, ask, builder.batch)
            &&& exists|made: Seq<WorkItem>| #[trigger] all_agrees(log, builder, made)
            &&& builder.made < builder.drafts@.len()
            &&& exists|asked: NewItem| #[trigger]
                had(log, Action::NewWorkItem { item: asked }, Event::WorkItem(item))
                    && builder.wants(asked)
            &&& a == Action::InsertWorkItem { item }
        },
        PlanStep::Verify { builder } => {
            &&& is_batch(req, log, ask, builder.batch)
            &&& exists|made: Seq<WorkItem>| #[trigger] all_agrees(log, builder, made)
            &&& builder.made == builder.drafts@.len()
            &&& a matches Action::VerifyTasks { tasks }
            &&& tasks@ == builder.tasks@
        },
        PlanStep::StoreVerify { builder, tasks, verify, done } => {
            &&& is_batch(req, log, ask, builder.batch)
            &&& is_storing(log, builder, tasks, verify, done as int)
            &&& done < verify@.len()
            &&& a == Action::InsertWorkItem { item: verify@[done as int] }
        },
        PlanStep::Depend { builder, tasks, links, deps, next } => {
            let drafts = crate::drafts::draft_views(builder.drafts@);
            &&& is_batch(req, log, ask, builder.batch)
            &&& crate::building::link_views(links@) == crate::building::links(drafts)
            &&& deps@.len() < links@.len()
            &&& exists|made: Seq<WorkItem>, verify: Seq<WorkItem>|
                #[trigger] is_depending(log, builder, tasks, deps@, made, verify)
                    && is_dependency_of(
                    drafts,
                    made,
                    crate::building::links(drafts)[deps@.len() as int],
                    next,
                )
            &&& a == Action::InsertDependency { dependency: next }
        },
        PlanStep::Dag { batch, counts } => is_batch(req, log, ask, batch) && is_settled(
            log,
            batch,
            counts,
        ) && (a matches Action::CheckDag { stories, dependencies } && is_whole(
            log,
            batch.session,
            stories@,
            dependencies@,
        )),
        PlanStep::Mark { batch, counts, done } => {
            &&& is_batch(req, log, ask, batch)
            &&& is_settled(log, batch, counts)
            &&& was_checked(log)
            &&& done < batch.specs@.len()
            &&& forall|i: int|
                0 <= i < done ==> is_spec_set(
                    log,
                    #[trigger] batch.specs@[i],
                    SpecStatus::Decomposed,
                )
            &&& a == Action::UpdateSpecStatus {
                spec: batch.specs@[done as int],
                status: SpecStatus::Decomposed,
            }
        },
        PlanStep::Announce { batch, counts } => a is Broadcast && is_batch(req, log, ask, batch)
            && is_complete(log, batch, counts),
        PlanStep::Report { .. } => a is UpdateSessionError,
        PlanStep::Last => a matches Action::Send { line } && (line.status
            == ResponseStatus::Success ==> exists|batch: Batch, counts: Counts|
            #[trigger] is_complete(log, batch, counts) && is_batch(req, log, ask, batch)
                && line.is_done(req.id, crate::decompose::wave_filled(batch, counts))),
    }
}

/// Whether the graph that is checked is that of the whole wave.
pub open spec fn is_whole(
    log: Seq<(Action, Event)>,
    session: Uuid,
    stories: Seq<WorkItem>,
    deps: Seq<Dependency>,
) -> bool {
    exists|drafts: Seq<DraftV>, made: Seq<WorkItem>|
        #[trigger] is_built(log, session, drafts, made, deps) && stories == stories_made(
            drafts,
            made,
        )
}

spec fn is_ready_wave(
    req: Request,
    log: Seq<(Action, Event)>,
    ask: Ask,
    wanted: Wanted,
    session: DecompositionSession,
    wave: u32,
) -> bool {
    &&& is_opened(req, log, ask, wanted.project, wanted.specs@, session, wave)
    &&& wanted_agrees(log, ask, wanted)
    &&& wanted.contents@.len() == wanted.specs@.len()
}

// ---- what stays true ----

proof fn made_stay(log: Seq<(Action, Event)>)
    requires
        log.len() > 0,
    ensures
        forall|i: WorkItem| #[trigger] is_stored(log.drop_last(), i) ==> is_stored(log, i),
        forall|d: Dependency| #[trigger] is_kept(log.drop_last(), d) ==> is_kept(log, d),
        forall|s: Uuid, d: Seq<DraftV>, m: Seq<WorkItem>| #[trigger]
            are_made(log.drop_last(), s, d, m) ==> are_made(log, s, d, m),
        forall|d: Seq<DraftV>| #[trigger] are_drafted(log.drop_last(), d) ==> are_drafted(log, d),
        forall|b: Builder, m: Seq<WorkItem>| #[trigger]
            all_agrees(log.drop_last(), b, m) ==> all_agrees(log, b, m),
        forall|t: Seq<WorkItem>, v: Seq<WorkItem>| #[trigger]
            are_verified(log.drop_last(), t, v) ==> are_verified(log, t, v),
        forall|d: Seq<DraftV>, m: Seq<WorkItem>, x: Seq<Dependency>| #[trigger]
            deps_agree(log.drop_last(), d, m, x) ==> deps_agree(log, d, m, x),
        forall|s: Uuid, d: Seq<DraftV>, m: Seq<WorkItem>, x: Seq<Dependency>| #[trigger]
            is_built(log.drop_last(), s, d, m, x) ==> is_built(log, s, d, m, x),
        forall|b: Batch, c: Counts| #[trigger]
            is_settled(log.drop_last(), b, c) ==> is_settled(log, b, c),
        was_checked(log.drop_last()) ==> was_checked(log),
{
    crate::histories::had_more(log);
    let init = log.drop_last();
    assert forall|s: Uuid, d: Seq<DraftV>, m: Seq<WorkItem>| #[trigger]
        are_made(init, s, d, m) implies are_made(log, s, d, m) by {
        assert forall|k: int| 0 <= k < m.len() implies #[trigger] is_made(log, s, d, m, k) by {
            assert(is_made(init, s, d, m, k));
        }
    }
    assert forall|t: Seq<WorkItem>, v: Seq<WorkItem>| #[trigger]
        are_verified(init, t, v) implies are_verified(log, t, v) by {}
    assert forall|b: Batch, c: Counts| #[trigger] is_settled(init, b, c) implies is_settled(
        log,
        b,
        c,
    ) by {
        let (drafts, made, deps, verify) = choose|
            drafts: Seq<DraftV>,
            made: Seq<WorkItem>,
            deps: Seq<Dependency>,
            verify: Seq<WorkItem>,
        |
            #[trigger] is_built(init, b.session, drafts, made, deps) && #[trigger] are_verified(
                init,
                tasks_made(drafts, made),
                verify,
            ) && c.epics == epics_made(drafts, made) && c.stories == stories_made(
                drafts,
                made,
            ).len() && c.tasks == tasks_made(drafts, made).len() + verify.len();
        assert(is_built(log, b.session, drafts, made, deps));
        assert(are_verified(log, tasks_made(drafts, made), verify));
    }
}

proof fn specs_stay(req: Request, log: Seq<(Action, Event)>, ask: Ask)
    requires
        log.len() > 0,
    ensures
        forall|p: Project| #[trigger] is_project(req, log.drop_last(), p) ==> is_project(req, log, p),
        forall|p: Project, s: Seq<Spec>| #[trigger]
            are_asked_for(log.drop_last(), ask, p, s) ==> are_asked_for(log, ask, p, s),
        forall|w: Wanted| #[trigger]
            wanted_agrees(log.drop_last(), ask, w) ==> wanted_agrees(log, ask, w),
        forall|s: Seq<Spec>, c: Seq<String>| #[trigger]
            are_contents(log.drop_last(), s, c) ==> are_contents(log, s, c),
        forall|w: Wanted, s: DecompositionSession, v: u32| #[trigger]
            is_ready_wave(req, log.drop_last(), ask, w, s, v) ==> is_ready_wave(
                req,
                log,
                ask,
                w,
                s,
                v,
            ),
        forall|b: Batch| #[trigger]
            is_fresh_batch(req, log.drop_last(), ask, b) ==> is_fresh_batch(req, log, ask, b),
        forall|p: Project, s: DecompositionSession| #[trigger]
            is_redone(req, log.drop_last(), ask, p, s) ==> is_redone(req, log, ask, p, s),
        forall|p: Project, r: String| #[trigger]
            is_resumed(req, log.drop_last(), ask, p, r) ==> is_resumed(req, log, ask, p, r),
        forall|b: Batch| #[trigger]
            is_cleared_batch(req, log.drop_last(), ask, b) ==> is_cleared_batch(req, log, ask, b),
        forall|b: Batch| #[trigger]
            is_batch(req, log.drop_last(), ask, b) ==> is_batch(req, log, ask, b),
        forall|c: RunConfig| #[trigger]
            is_asked_to_decompose(req, log.drop_last(), ask, c) ==> is_asked_to_decompose(
                req,
                log,
                ask,
                c,
            ),
{
    crate::histories::had_more(log);
    let init = log.drop_last();
    assert forall|p: Project, s: Seq<Spec>| #[trigger]
        are_asked_for(init, ask, p, s) implies are_asked_for(log, ask, p, s) by {
        match ask->spec_names {
            Some(names) => {
                assert forall|i: int| 0 <= i < s.len() implies #[trigger] is_spec_named(
                    log,
                    p,
                    names@,
                    s,
                    i,
                ) by {
                    assert(is_spec_named(init, p, names@, s, i));
                }
            },
            None => {},
        }
    }
    assert forall|p: Project, s: Seq<Spec>, n: DecompositionSession, v: u32| #[trigger]
        is_opened(req, init, ask, p, s, n, v) implies is_opened(req, log, ask, p, s, n, v) by {
        assert forall|i: int| 0 <= i < s.len() implies #[trigger] is_linked(log, n.id, s, i) by {
            assert(is_linked(init, n.id, s, i));
        }
    }
    assert forall|b: Batch| #[trigger] is_fresh_batch(req, init, ask, b) implies is_fresh_batch(
        req,
        log,
        ask,
        b,
    ) by {
        let (project, specs, session) = choose|
            project: Project,
            specs: Seq<Spec>,
            session: DecompositionSession,
        |
            #[trigger] is_opened(req, init, ask, project, specs, session, b.wave) && b.session
                == session.id && b.project == project.id && b.specs@ == crate::decompose::ids_of(
                specs,
            );
        assert(is_opened(req, log, ask, project, specs, session, b.wave));
    }
    assert forall|b: Batch| #[trigger] is_cleared_batch(
        req,
        init,
        ask,
        b,
    ) implies is_cleared_batch(req, log, ask, b) by {
        let (project, session) = choose|project: Project, session: DecompositionSession|
            #[trigger] is_redone(req, init, ask, project, session) && b.session == session.id
                && b.wave == session.wave_number && b.project == project.id && had(
                init,
                Action::ListSpecIds { session: session.id },
                Event::Uuids(Ok(b.specs)),
            ) && had(init, Action::DeleteItems { session: session.id }, Event::Done(Ok(())));
        assert(is_redone(req, log, ask, project, session));
    }
    assert forall|v: Seq<(Seq<char>, Seq<char>)>| #[trigger] tells_the_specs(
        req,
        init,
        ask,
        v,
    ) implies tells_the_specs(req, log, ask, v) by {
        let (specs, contents, text, project) = choose|
            specs: Vec<Spec>,
            contents: Vec<String>,
            text: String,
            project: Project,
        |
            #[trigger] had(
                init,
                Action::DescribeSpecs { specs, contents },
                Event::Written(text),
            ) && v[0].1 == text@ && #[trigger] is_project(req, init, project) && v[1].1
                == project.name@ && are_asked_for(init, ask, project, specs@) && are_contents(
                init,
                specs@,
                contents@,
            );
        assert(had(log, Action::DescribeSpecs { specs, contents }, Event::Written(text)));
        assert(is_project(req, log, project));
    }
    assert forall|c: RunConfig| #[trigger] is_asked_to_decompose(
        req,
        init,
        ask,
        c,
    ) implies is_asked_to_decompose(req, log, ask, c) by {
        match ask {
            Ask::Generate { .. } => {
                let (template, vars) = choose|
                    template: String,
                    vars: Vec<crate::pipeline_data::TemplateVar>,
                | #[trigger]
                    had(init, Action::RenderTemplate { template, vars }, Event::Text(Ok(c.prompt)))
                        && tells_the_specs(
                        req,
                        init,
                        ask,
                        crate::pipeline_data::var_views(vars@),
                    );
                assert(had(
                    log,
                    Action::RenderTemplate { template, vars },
                    Event::Text(Ok(c.prompt)),
                ));
            },
            Ask::Feedback { .. } => {
                let (project, session) = choose|project: Project, session: DecompositionSession|
                    #[trigger] is_redone(req, init, ask, project, session) && c.resume_session
                        == session.claude_session_id && c.working_dir == Some(project.path);
                assert(is_redone(req, log, ask, project, session));
            },
        }
    }
    assert forall|p: Project, r: String| #[trigger] is_resumed(
        req,
        init,
        ask,
        p,
        r,
    ) implies is_resumed(req, log, ask, p, r) by {
        let session = choose|session: DecompositionSession| #[trigger]
            is_redone(req, init, ask, p, session) && session.claude_session_id == Some(r);
        assert(is_redone(req, log, ask, p, session));
    }
}

// ---- the steps ----

proof fn plan_keeps(req: Request, log: Seq<(Action, Event)>, s: PlanTalk, a: Action)
    requires
        reaches(req, log, Next::Act(s, a)),
    ensures
        plan_holds(req, log, s, a),
    decreases log.len(),
{
    if log.len() > 0 {
        let before = crate::histories::before_last::<PlanTalk>(req, log, Next::Act(s, a));
        plan_keeps(req, log.drop_last(), before, log.last().0);
        plan_step(req, log, before, Next::Act(s, a));
    }
}

/// The builder takes the item that was made of its next draft.
proof fn item_is_taken(
    log: Seq<(Action, Event)>,
    b: Builder,
    item: WorkItem,
    asked: NewItem,
    made: Seq<WorkItem>,
    after: Builder,
)
    requires
        all_agrees(log, b, made),
        b.made < b.drafts@.len(),
        b.wants(asked),
        had(log, Action::NewWorkItem { item: asked }, Event::WorkItem(item)),
        is_stored(log, item),
        b.took(item, after),
    ensures
        all_agrees(log, after, made.push(item)),
{
    let drafts = crate::drafts::draft_views(b.drafts@);
    let k = made.len() as int;
    let more = made.push(item);
    assert(more.drop_last() =~= made);
    assert(more.take(k) =~= made);
    assert(drafts[k] == b.drafts@[k]@);
    assert forall|j: int| 0 <= j < more.len() implies #[trigger] is_made(
        log,
        b.batch.session,
        drafts,
        more,
        j,
    ) by {
        if j < k {
            assert(is_made(log, b.batch.session, drafts, made, j));
            assert(more[j] == made[j]);
            assert(more.take(j) =~= made.take(j));
            let ni = choose|ni: NewItem| #[trigger]
                had(log, Action::NewWorkItem { item: ni }, Event::WorkItem(made[j]))
                    && is_as_drafted(b.batch.session, drafts, made, j, ni);
            assert(had(log, Action::NewWorkItem { item: ni }, Event::WorkItem(more[j])));
            assert(is_as_drafted(b.batch.session, drafts, more, j, ni));
        } else {
            assert(had(log, Action::NewWorkItem { item: asked }, Event::WorkItem(more[j])));
            assert(is_as_drafted(b.batch.session, drafts, more, j, asked));
        }
    }
    assert(views_of(after.names@) =~= names_made(drafts, more)) by {
        match b.drafts@[k] {
            crate::drafts::Draft::Story { short_id, .. } => {
                assert(views_of(b.names@.push((short_id, item.id))) =~= views_of(b.names@).push(
                    (short_id@, item.id),
                ));
            },
            _ => {},
        }
    }
}

/// What storing the tasks that verify comes to.
proof fn verify_is_stored(
    req: Request,
    log: Seq<(Action, Event)>,
    job: crate::decompose::PlanJob,
    b: Builder,
    tasks: usize,
    made: Seq<WorkItem>,
    verify: Vec<WorkItem>,
    done: int,
    n: Next<PlanTalk>,
)
    requires
        job.id == req.id,
        asks_right(req, job.ask),
        is_batch(req, log, job.ask, b.batch),
        is_storing_verify(log, b, tasks, made, verify, done),
        PlanTalk::stores_verify(job, b, tasks, verify, done, n),
    ensures
        n matches Next::Act(s, a) ==> plan_holds(req, log, s, a),
{
    let drafts = crate::drafts::draft_views(b.drafts@);
    assert(verify@.len() == verify.len());
    if done == verify@.len() {
        let t = choose|t: Vec<WorkItem>|
            t@ == tasks_made(drafts, made) && #[trigger] had(
                log,
                Action::VerifyTasks { tasks: t },
                Event::Made(verify),
            );
        assert(had(log, Action::VerifyTasks { tasks: t }, Event::Made(verify)));
        assert(are_verified(log, tasks_made(drafts, made), verify@));
        assert(is_depending(log, b, tasks, Seq::empty(), made, verify@));
        links_are_kept(req, log, job, b, tasks, Seq::empty(), made, verify@, n);
    } else {
        assert(is_storing(log, b, tasks, verify, done));
        assert((done as usize) as int == done);
        let s = n->Act_0;
        assert(s.at == PlanStep::StoreVerify { builder: b, tasks, verify, done: done as usize });
        assert(plan_holds(req, log, s, n->Act_1));
    }
}

/// What storing the dependencies comes to.
proof fn links_are_kept(
    req: Request,
    log: Seq<(Action, Event)>,
    job: crate::decompose::PlanJob,
    b: Builder,
    tasks: usize,
    deps: Seq<Dependency>,
    made: Seq<WorkItem>,
    verify: Seq<WorkItem>,
    n: Next<PlanTalk>,
)
    requires
        job.id == req.id,
        asks_right(req, job.ask),
        is_batch(req, log, job.ask, b.batch),
        is_depending(log, b, tasks, deps, made, verify),
        PlanTalk::depends(
            job,
            b,
            tasks,
            crate::building::links(crate::drafts::draft_views(b.drafts@)),
            deps,
            n,
        ),
    ensures
        n matches Next::Act(s, a) ==> plan_holds(req, log, s, a),
{
    let drafts = crate::drafts::draft_views(b.drafts@);
    let links = crate::building::links(drafts);
    if deps.len() < links.len() {
        let (blocked, blocker) = links[deps.len() as int];
        named_is_made(b.names@, drafts, made, blocked);
        named_is_made(b.names@, drafts, made, blocker);
        match (
            crate::building::named_story(b.names@, blocked),
            crate::building::named_story(b.names@, blocker),
        ) {
            (Some(blocked_id), Some(blocker_id)) => {
                let d = Dependency { blocker_id, blocked_id };
                assert(is_dependency_of(drafts, made, links[deps.len() as int], d));
                let s = n->Act_0;
                let l = s.at->Depend_links;
                let stored = s.at->Depend_deps;
                assert(crate::building::link_views(l@).len() == l@.len());
                assert(is_depending(log, b, tasks, stored@, made, verify));
                assert(plan_holds(req, log, s, n->Act_1));
            },
            _ => {},
        }
    } else {
        all_linked(log, b.batch.session, drafts, made, deps);
        let s = n->Act_0;
        let counts = s.at->Dag_counts;
        assert(b.stories@.len() == b.stories.len());
        assert(counts.stories == stories_made(drafts, made).len());
        assert(is_built(log, b.batch.session, drafts, made, deps) && are_verified(
            log,
            tasks_made(drafts, made),
            verify,
        ));
        assert(is_settled(log, b.batch, counts));
        assert(is_whole(log, b.batch.session, b.stories@, deps));
    }
}

/// What marking the specs comes to.
proof fn specs_are_marked(
    req: Request,
    log: Seq<(Action, Event)>,
    job: crate::decompose::PlanJob,
    batch: Batch,
    counts: Counts,
    done: int,
    n: Next<PlanTalk>,
)
    requires
        job.id == req.id,
        asks_right(req, job.ask),
        is_batch(req, log, job.ask, batch),
        is_settled(log, batch, counts),
        was_checked(log),
        0 <= done <= batch.specs@.len(),
        forall|i: int|
            0 <= i < done ==> is_spec_set(
                log,
                #[trigger] batch.specs@[i],
                SpecStatus::Decomposed,
            ),
        PlanTalk::marks(job, batch, counts, done, n),
    ensures
        n matches Next::Act(s, a) ==> plan_holds(req, log, s, a),
{
    assert(batch.specs@.len() == batch.specs.len());
}

/// What approving the specs again comes to.
proof fn specs_are_approved_again(
    req: Request,
    log: Seq<(Action, Event)>,
    job: crate::decompose::PlanJob,
    project: Project,
    resume: String,
    batch: Batch,
    done: int,
    n: Next<PlanTalk>,
)
    requires
        job.id == req.id,
        asks_right(req, job.ask),
        job.ask is Feedback,
        is_resumed(req, log, job.ask, project, resume),
        is_cleared_batch(req, log, job.ask, batch),
        0 <= done <= batch.specs@.len(),
        forall|i: int|
            0 <= i < done ==> is_spec_set(log, #[trigger] batch.specs@[i], SpecStatus::Approved),
        PlanTalk::reverts(job, project, resume, batch, done, n),
    ensures
        n matches Next::Act(s, a) ==> plan_holds(req, log, s, a),
{
    assert(batch.specs@.len() == batch.specs.len());
    if done == batch.specs@.len() {
        let session = choose|session: DecompositionSession| #[trigger]
            is_redone(req, log, job.ask, project, session) && session.claude_session_id == Some(
                resume,
            );
        assert(is_redone(req, log, job.ask, project, session));
    }
}

/// What linking the specs comes to.
proof fn specs_are_linked(
    req: Request,
    log: Seq<(Action, Event)>,
    job: crate::decompose::PlanJob,
    wanted: Wanted,
    wave: u32,
    session: DecompositionSession,
    done: int,
    n: Next<PlanTalk>,
)
    requires
        job.id == req.id,
        asks_right(req, job.ask),
        is_project(req, log, wanted.project),
        wanted_agrees(log, job.ask, wanted),
        wanted.contents@.len() == wanted.specs@.len(),
        is_new_wave(log, wanted.project, session, wave),
        had(log, Action::InsertSession { session }, Event::Done(Ok(()))),
        0 <= done <= wanted.specs@.len(),
        forall|i: int|
            0 <= i < done ==> #[trigger] is_linked(log, session.id, wanted.specs@, i),
        PlanTalk::links_up(job, wanted, wave, session, done, n),
    ensures
        n matches Next::Act(s, a) ==> plan_holds(req, log, s, a),
{
    assert(wanted.specs@.len() == wanted.specs.len());
}

/// What looking the named specs up comes to.
proof fn names_are_looked_up(
    req: Request,
    log: Seq<(Action, Event)>,
    job: crate::decompose::PlanJob,
    project: Project,
    names: Vec<String>,
    found: Seq<Spec>,
    n: Next<PlanTalk>,
)
    requires
        job.id == req.id,
        asks_right(req, job.ask),
        is_project(req, log, project),
        job.ask is Generate,
        job.ask->spec_names == Some(names),
        had(
            log,
            Action::FindDraftSession { project: project.id },
            Event::MaybeSession(Ok(None)),
        ),
        found.len() <= names@.len(),
        forall|i: int|
            0 <= i < found.len() ==> #[trigger] is_spec_named(log, project, names@, found, i),
        PlanTalk::looks_up(job, project, names@, found, n),
    ensures
        n matches Next::Act(s, a) ==> plan_holds(req, log, s, a),
{
}

#[verifier::rlimit(40)]
proof fn plan_step(req: Request, log: Seq<(Action, Event)>, before: PlanTalk, n: Next<PlanTalk>)
    requires
        log.len() > 0,
        plan_holds(req, log.drop_last(), before, log.last().0),
        before.follows(log.last().1, n),
        log.last().0.answered_by(log.last().1),
    ensures
        n matches Next::Act(s, a) ==> plan_holds(req, log, s, a),
{
    let (b, ev) = log.last();
    let job = before.job;
    let ask = job.ask;
    let init = log.drop_last();
    crate::histories::had_more(log);
    made_stay(log);
    specs_stay(req, log, ask);
    match (before.at, ev) {
        (PlanStep::Project, Event::MaybeProject(Ok(Some(project)))) => {
            assert(had(log, b, ev));
        },
        (PlanStep::Draft { project }, Event::MaybeSession(Ok(None))) => {
            assert(had(log, b, ev));
            match ask->spec_names {
                Some(names) => {
                    names_are_looked_up(req, log, job, project, names, Seq::empty(), n);
                },
                None => {},
            }
        },
        (PlanStep::Named { project, found }, Event::MaybeSpec(Ok(Some(spec)))) => {
            let names = ask->spec_names->0;
            let more = found@.push(spec);
            assert(had(log, b, ev));
            if spec.status == SpecStatus::Approved {
                assert forall|i: int| 0 <= i < more.len() implies #[trigger] is_spec_named(
                    log,
                    project,
                    names@,
                    more,
                    i,
                ) by {
                    if i < found@.len() {
                        assert(is_spec_named(init, project, names@, found@, i));
                    }
                }
                names_are_looked_up(req, log, job, project, names, more, n);
            }
        },
        (PlanStep::Unassigned { project }, Event::Specs(Ok(v))) => {
            assert(had(log, b, ev));
            assert(v@.len() > 0 ==> are_asked_for(log, ask, project, v@));
        },
        (PlanStep::Read { wanted }, Event::Text(Ok(content))) => {
            assert(had(log, b, ev));
            let s = n->Act_0;
            let more = wanted.contents@.push(content);
            let w = match s.at {
                PlanStep::Read { wanted: w } => w,
                PlanStep::Wave { wanted: w } => w,
                _ => wanted,
            };
            assert(w.contents@ == more);
            assert forall|i: int| 0 <= i < w.contents@.len() implies is_content(
                log,
                w.specs@[i],
                #[trigger] w.contents@[i],
            ) by {
                if i < wanted.contents@.len() {
                    assert(w.contents@[i] == wanted.contents@[i]);
                    assert(is_content(init, wanted.specs@[i], wanted.contents@[i]));
                }
            }
            assert(wanted_agrees(log, ask, w));
        },
        (PlanStep::Insert { wanted, wave, session }, Event::Done(Ok(_))) => {
            specs_are_linked(req, log, job, wanted, wave, session, 0, n);
        },
        (PlanStep::Link { wanted, wave, session, done }, Event::Done(Ok(_))) => {
            assert forall|i: int| 0 <= i < done + 1 implies #[trigger] is_linked(
                log,
                session.id,
                wanted.specs@,
                i,
            ) by {
                if i < done {
                    assert(is_linked(init, session.id, wanted.specs@, i));
                }
            }
            specs_are_linked(req, log, job, wanted, wave, session, done + 1, n);
        },
        (PlanStep::Load { wanted, wave, session, .. }, Event::Text(Ok(_))) => {
            let batch = (n->Act_0).at->Describe_batch;
            assert(is_opened(
                req,
                log,
                ask,
                wanted.project,
                wanted.specs@,
                session,
                batch.wave,
            ));
            assert(is_fresh_batch(req, log, ask, batch));
        },
        (PlanStep::Describe { project, .. }, Event::Written(text)) => {
            let specs = b->DescribeSpecs_specs;
            let contents = b->DescribeSpecs_contents;
            assert(had(log, Action::DescribeSpecs { specs, contents }, Event::Written(text)));
            assert(is_project(req, log, project));
            assert(are_contents(log, specs@, contents@));
        },
        (PlanStep::Render { .. }, Event::Text(Ok(prompt))) => {
            let template = b->RenderTemplate_template;
            let vars = b->RenderTemplate_vars;
            assert(had(log, Action::RenderTemplate { template, vars }, Event::Text(Ok(prompt))));
            tells_stay(req, log, ask, crate::pipeline_data::var_views(vars@));
            assert(is_decompose_prompt(req, log, ask, prompt));
        },
        (PlanStep::Session { project }, Event::MaybeSession(Ok(Some(session)))) => {
            assert(had(log, b, ev));
        },
        (PlanStep::Specs { project, session, resume }, Event::Uuids(Ok(specs))) => {
            assert(had(log, b, ev));
            assert(is_redone(req, log, ask, project, session));
        },
        (PlanStep::Clear { project, resume, batch }, Event::Done(Ok(_))) => {
            let session = choose|session: DecompositionSession|
                #[trigger] is_redone(req, init, ask, project, session) && batch.session
                    == session.id && batch.wave == session.wave_number && batch.project
                    == project.id && had(
                    init,
                    Action::ListSpecIds { session: session.id },
                    Event::Uuids(Ok(batch.specs)),
                );
            assert(is_redone(req, log, ask, project, session));
            assert(is_cleared_batch(req, log, ask, batch));
            specs_are_approved_again(req, log, job, project, resume, batch, 0, n);
        },
        (PlanStep::Revert { project, resume, batch, done }, Event::Done(Ok(_))) => {
            assert forall|i: int| 0 <= i < done + 1 implies is_spec_set(
                log,
                #[trigger] batch.specs@[i],
                SpecStatus::Approved,
            ) by {
                if i < done {
                    assert(is_spec_set(init, batch.specs@[i], SpecStatus::Approved));
                }
            }
            specs_are_approved_again(req, log, job, project, resume, batch, done + 1, n);
        },
        (PlanStep::Parse { batch, text }, Event::Parsed(Ok(parsed))) => {
            let t = b->ParseJson_text;
            assert(had(log, Action::ParseJson { text: t }, Event::Parsed(Ok(parsed))));
        },
        (PlanStep::OpenDb { batch, parsed }, Event::Done(Ok(_))) => {
            let text = choose|text: String| #[trigger]
                had(init, Action::ParseJson { text }, Event::Parsed(Ok(parsed)));
            assert(had(log, Action::ParseJson { text }, Event::Parsed(Ok(parsed))));
            match parsed@.field("epics"@) {
                Some(JsonV::Arr(epics)) => {
                    let builder = PlanTalk::builder_of(n);
                    let drafts = crate::drafts::epic_drafts(epics);
                    assert(are_drafts_of(parsed@, drafts));
                    assert(are_drafted(log, drafts));
                    assert(views_of(builder.names@) =~= Seq::empty());
                    assert(builder.stories@ =~= Seq::empty());
                    assert(builder.tasks@ =~= Seq::empty());
                    assert(all_agrees(log, builder, Seq::empty()));
                    assert(drafts.len() == builder.drafts@.len());
                },
                _ => {},
            }
        },
        (PlanStep::Make { builder }, Event::WorkItem(item)) => {
            let asked = b->NewWorkItem_item;
            assert(had(log, Action::NewWorkItem { item: asked }, Event::WorkItem(item)));
            let made = choose|made: Seq<WorkItem>| #[trigger] all_agrees(init, builder, made);
            assert(all_agrees(log, builder, made));
        },
        (PlanStep::Store { builder, item }, Event::Done(Ok(_))) => {
            let made = choose|made: Seq<WorkItem>| #[trigger] all_agrees(init, builder, made);
            let asked = choose|asked: NewItem| #[trigger]
                had(init, Action::NewWorkItem { item: asked }, Event::WorkItem(item))
                    && builder.wants(asked);
            let after = PlanTalk::builder_of(n);
            assert(all_agrees(log, builder, made));
            assert(had(log, Action::NewWorkItem { item: asked }, Event::WorkItem(item)));
            item_is_taken(log, builder, item, asked, made, after);
            assert(all_agrees(log, after, made.push(item)));
        },
        (PlanStep::Verify { builder }, Event::Made(verify)) => {
            let made = choose|made: Seq<WorkItem>| #[trigger] all_agrees(init, builder, made);
            assert(all_agrees(log, builder, made));
            let t = b->VerifyTasks_tasks;
            let tasks = choose|tasks: usize|
                tasks == builder.tasks@.len() + verify@.len() && #[trigger] PlanTalk::stores_verify(
                    job,
                    builder,
                    tasks,
                    verify,
                    0,
                    n,
                );
            assert(had(log, Action::VerifyTasks { tasks: t }, Event::Made(verify)));
            assert(is_storing_verify(log, builder, tasks, made, verify, 0));
            verify_is_stored(req, log, job, builder, tasks, made, verify, 0, n);
        },
        (PlanStep::StoreVerify { builder, tasks, verify, done }, Event::Done(Ok(_))) => {
            let made = choose|made: Seq<WorkItem>| #[trigger]
                is_storing_verify(init, builder, tasks, made, verify, done as int);
            let drafts = crate::drafts::draft_views(builder.drafts@);
            let t = choose|t: Vec<WorkItem>|
                t@ == tasks_made(drafts, made) && #[trigger] had(
                    init,
                    Action::VerifyTasks { tasks: t },
                    Event::Made(verify),
                );
            assert(had(log, Action::VerifyTasks { tasks: t }, Event::Made(verify)));
            assert(all_agrees(log, builder, made));
            assert forall|i: int| 0 <= i < done + 1 implies is_stored(
                log,
                #[trigger] verify@[i],
            ) by {
                if i < done {
                    assert(is_stored(init, verify@[i]));
                }
            }
            assert(is_storing_verify(log, builder, tasks, made, verify, done + 1));
            verify_is_stored(req, log, job, builder, tasks, made, verify, done + 1, n);
        },
        (PlanStep::Depend { builder, tasks, links, deps, next }, Event::Done(Ok(_))) => {
            let drafts = crate::drafts::draft_views(builder.drafts@);
            let all = crate::building::links(drafts);
            let (made, verify) = choose|made: Seq<WorkItem>, verify: Seq<WorkItem>|
                #[trigger] is_depending(init, builder, tasks, deps@, made, verify)
                    && is_dependency_of(drafts, made, all[deps@.len() as int], next);
            let more = deps@.push(next);
            assert(crate::building::link_views(links@).len() == links@.len());
            assert(deps_agree(log, drafts, made, deps@));
            assert forall|i: int| 0 <= i < more.len() implies is_kept(log, #[trigger] more[i])
                && is_dependency_of(drafts, made, all[i], more[i]) by {
                if i < deps@.len() {
                    assert(more[i] == deps@[i]);
                }
            }
            assert(is_depending(log, builder, tasks, more, made, verify));
            links_are_kept(req, log, job, builder, tasks, more, made, verify, n);
        },
        (PlanStep::Dag { batch, counts }, Event::Done(Ok(_))) => {
            let stories = b->CheckDag_stories;
            let dependencies = b->CheckDag_dependencies;
            assert(had(log, Action::CheckDag { stories, dependencies }, Event::Done(Ok(()))));
            specs_are_marked(req, log, job, batch, counts, 0, n);
        },
        (PlanStep::Mark { batch, counts, done }, Event::Done(Ok(_))) => {
            assert forall|i: int| 0 <= i < done + 1 implies is_spec_set(
                log,
                #[trigger] batch.specs@[i],
                SpecStatus::Decomposed,
            ) by {
                if i < done {
                    assert(is_spec_set(init, batch.specs@[i], SpecStatus::Decomposed));
                }
            }
            specs_are_marked(req, log, job, batch, counts, done + 1, n);
        },
        (PlanStep::Announce { batch, counts }, Event::Done(_)) => {
            assert(is_complete(log, batch, counts)) by {
                assert forall|i: int| 0 <= i < batch.specs@.len() implies is_spec_set(
                    log,
                    #[trigger] batch.specs@[i],
                    SpecStatus::Decomposed,
                ) by {
                    assert(is_spec_set(init, batch.specs@[i], SpecStatus::Decomposed));
                }
            }
        },
        _ => {},
    }
}

proof fn tells_stay(
    req: Request,
    log: Seq<(Action, Event)>,
    ask: Ask,
    v: Seq<(Seq<char>, Seq<char>)>,
)
    requires
        log.len() > 0,
        tells_the_specs(req, log.drop_last(), ask, v),
    ensures
        tells_the_specs(req, log, ask, v),
{
    let init = log.drop_last();
    crate::histories::had_more(log);
    specs_stay(req, log, ask);
    let (specs, contents, text, project) = choose|
        specs: Vec<Spec>,
        contents: Vec<String>,
        text: String,
        project: Project,
    |
        #[trigger] had(
            init,
            Action::DescribeSpecs { specs, contents },
            Event::Written(text),
        ) && v[0].1 == text@ && #[trigger] is_project(req, init, project) && v[1].1
            == project.name@ && are_asked_for(init, ask, project, specs@) && are_contents(
            init,
            specs@,
            contents@,
        );
    assert(had(log, Action::DescribeSpecs { specs, contents }, Event::Written(text)));
    assert(is_project(req, log, project));
}

// ---- the laws ----

/// What a decomposition does. A wave is opened only where the project has no draft, for specs that
/// are approved, and is linked to each of them. The agent is told what their files say, or, for a
/// draft wave, the remark. Of its result every epic, story and task becomes a work item below the
/// one that it belongs to, every dependency that a story names is kept, and the whole graph is
/// checked; only then the specs count as decomposed. The items of a draft wave are taken away
/// before it is made anew, and its specs are approved again.
pub proof fn law_what_a_decomposition_does(
    req: Request,
    log: Seq<(Action, Event)>,
    s: PlanTalk,
    a: Action,
)
    requires
        reaches(req, log, Next::Act(s, a)),
    ensures
        a matches Action::InsertSession { session } ==> exists|
            project: Project,
            specs: Seq<Spec>,
            wave: u32,
        |
            is_project(req, log, project) && #[trigger] are_asked_for(
                log,
                s.job.ask,
                project,
                specs,
            ) && #[trigger] is_new_wave(log, project, session, wave),
        a matches Action::SpawnClaude { config } ==> is_asked_to_decompose(
            req,
            log,
            s.job.ask,
            config,
        ),
        a matches Action::CheckDag { stories, dependencies } ==> exists|session: Uuid|
            #[trigger] is_whole(log, session, stories@, dependencies@),
        a matches Action::UpdateSpecStatus { spec, status } ==> exists|batch: Batch|
            #[trigger] has_spec(batch, spec) && may_mark(req, log, s.job.ask, batch, status),
        a matches Action::DeleteItems { session } ==> exists|
            project: Project,
            wave: DecompositionSession,
        |
            #[trigger] is_redone(req, log, s.job.ask, project, wave) && wave.id == session,
        a matches Action::Send { line } ==> (line.done && line.status == ResponseStatus::Success
            ==> exists|batch: Batch, counts: Counts| #[trigger]
            is_complete(log, batch, counts) && (is_fresh_batch(req, log, s.job.ask, batch)
                || is_cleared_batch(req, log, s.job.ask, batch)) && tells_the_counts(
                line.data@,
                batch,
                counts,
            )),
        !(a is SpawnAgent || a is UpdateItemStatus || a is GitReset || a is UpdateProject),
{
    plan_keeps(req, log, s, a);
    match s.at {
        PlanStep::Mark { batch, counts, done } => {
            assert(has_spec(batch, batch.specs@[done as int]));
            assert(is_settled(log, batch, counts));
            assert(is_settled_somehow(log, batch));
            assert(may_mark(req, log, s.job.ask, batch, SpecStatus::Decomposed));
            assert(has_spec(batch, a->UpdateSpecStatus_spec));
        },
        PlanStep::Revert { batch, done, .. } => {
            assert(may_mark(req, log, s.job.ask, batch, SpecStatus::Approved));
            assert(has_spec(batch, a->UpdateSpecStatus_spec));
            assert(has_spec(batch, batch.specs@[done as int]));
        },
        PlanStep::Insert { wanted, wave, session } => {
            assert(are_asked_for(log, s.job.ask, wanted.project, wanted.specs@));
            assert(is_new_wave(log, wanted.project, session, wave));
        },
        PlanStep::Last => {
            match a {
                Action::Send { line } => {
                    if line.status == ResponseStatus::Success {
                        let (batch, counts) = choose|batch: Batch, counts: Counts|
                            #[trigger] is_complete(log, batch, counts) && is_batch(
                                req,
                                log,
                                s.job.ask,
                                batch,
                            ) && line.is_done(
                                req.id,
                                crate::decompose::wave_filled(batch, counts),
                            );
                        assert(is_complete(log, batch, counts));
                        filled_fields(batch, counts);
                    }
                },
                _ => {},
            }
        },
        PlanStep::Broken { .. } => {
            if log.len() > 0 {
                let before = crate::histories::before_last::<PlanTalk>(
                    req,
                    log,
                    Next::Act(s, a),
                );
            }
        },
        _ => {},
    }
}

/// Whether the specs of the wave may be marked so.
pub open spec fn may_mark(
    req: Request,
    log: Seq<(Action, Event)>,
    ask: Ask,
    batch: Batch,
    status: SpecStatus,
) -> bool {
    if status == SpecStatus::Decomposed {
        &&& was_checked(log)
        &&& is_settled_somehow(log, batch)
        &&& is_fresh_batch(req, log, ask, batch) || is_cleared_batch(req, log, ask, batch)
    } else {
        status == SpecStatus::Approved && is_cleared_batch(req, log, ask, batch)
    }
}

pub open spec fn is_settled_somehow(log: Seq<(Action, Event)>, batch: Batch) -> bool {
    exists|counts: Counts| #[trigger] is_settled(log, batch, counts)
}

pub open spec fn has_spec(batch: Batch, spec: Uuid) -> bool {
    batch.specs@.contains(spec)
}

/// Whether the data tells how many items the wave has.
pub open spec fn tells_the_counts(data: JsonV, batch: Batch, counts: Counts) -> bool {
    &&& data.field("session_id"@) == Some(JsonV::Str(batch.session.text()))
    &&& data.field("wave_number"@) == Some(JsonV::Int(batch.wave as int))
    &&& data.field("epic_count"@) == Some(JsonV::Int(counts.epics as int))
    &&& data.field("story_count"@) == Some(JsonV::Int(counts.stories as int))
    &&& data.field("task_count"@) == Some(JsonV::Int(counts.tasks as int))
}

proof fn filled_fields(batch: Batch, counts: Counts)
    ensures
        tells_the_counts(crate::decompose::wave_filled(batch, counts), batch, counts),
{
    broadcast use crate::histories::field_of_with;

    reveal_strlit("session_id");
    assert("session_id"@.len() == 10);
    assert("session_id"@[0] == 's');
    reveal_strlit("wave_number");
    assert("wave_number"@.len() == 11);
    assert("wave_number"@[0] == 'w');
    reveal_strlit("epic_count");
    assert("epic_count"@.len() == 10);
    assert("epic_count"@[0] == 'e');
    reveal_strlit("story_count");
    assert("story_count"@.len() == 11);
    assert("story_count"@[0] == 's');
    reveal_strlit("task_count");
    assert("task_count"@.len() == 10);
    assert("task_count"@[0] == 't');
}

/// What a decomposition comes to: it is refused where the project has a draft already, where a
/// spec is not approved, and where there is nothing to decompose; the agent's events are passed
/// on; and where nothing is left to do, an item is made of the next draft, the next dependency is
/// kept, or the next spec is marked.
pub proof fn law_what_a_decomposition_comes_to(
    req: Request,
    log: Seq<(Action, Event)>,
    n: Next<PlanTalk>,
)
    requires
        reaches(req, log, n),
    ensures
        log.len() > 0 ==> (log.last().0 is GetSpecByName ==> (log.last().1
            matches Event::MaybeSpec(Ok(Some(spec))) ==> (spec.status != SpecStatus::Approved
            ==> (n matches Next::Reply(r) && r.status == ResponseStatus::Error)))),
        log.len() > 0 ==> (log.last() matches (
            Action::FindUnassignedApprovedSpecs { .. },
            Event::Specs(Ok(v)),
        ) ==> (n is Act <==> v@.len() > 0)),
        log.len() > 0 ==> (log.last() matches (
            Action::NewWorkItem { .. },
            Event::WorkItem(item),
        ) ==> (n matches Next::Act(_, a) && a == (Action::InsertWorkItem { item }))),
        log.len() > 0 && log.last().0 is CheckDag ==> (log.last().1 matches Event::Done(Err(_))
            ==> (n matches Next::Act(_, a) && a is UpdateSessionError)),
        log.len() > 0 && log.last().0 is ParseJson ==> (log.last().1 matches Event::Parsed(Err(_))
            ==> (n matches Next::Act(_, a) && a is UpdateSessionError)),
        n matches Next::Reply(r) ==> r.id == req.id && r.status == ResponseStatus::Error,
{
    if log.len() > 0 {
        let (b, ev) = log.last();
        let before = crate::histories::before_last::<PlanTalk>(req, log, n);
        plan_keeps(req, log.drop_last(), before, b);
        match before.at {
            PlanStep::Verify { builder } => match ev {
                Event::Made(verify) => {
                    let tasks = choose|tasks: usize|
                        tasks == builder.tasks@.len() + verify@.len() && #[trigger]
                            PlanTalk::stores_verify(before.job, builder, tasks, verify, 0, n);
                },
                _ => {},
            },
            _ => {},
        }
    }
}

} // verus!
