//! A wave as `plan.show` answers it: a tree of epics, stories and tasks, or the graph of which
//! story holds up which.
use vstd::prelude::*;
use crate::building::Builder;
use crate::ident::Uuid;
use crate::json::{Json, JsonV};
use crate::model::{
    DecompositionSession, Dependency, ItemType, NewItem, WorkItem, WorkItemStatus,
};
use crate::text::{cat3, cat4, u64_text};

verus! {

/// An item's identifier as it is shown: with the number of its wave before it.
pub open spec fn wave_id(wave: u32, short_id: Seq<char>) -> Seq<char> {
    "W"@ + crate::text::decimal(wave as nat) + "-"@ + short_id
}

pub fn wave_short_id(wave: u32, short_id: &str) -> (r: String)
    ensures
        r@ == wave_id(wave, short_id@),
{
    cat4("W", u64_text(wave as u64).as_str(), "-", short_id)
}

/// The epics among the items, in their order.
pub open spec fn epics(items: Seq<WorkItem>) -> Seq<WorkItem> {
    items.filter(|i: WorkItem| i.item_type == ItemType::Epic)
}

/// The stories among the items, in their order.
pub open spec fn stories(items: Seq<WorkItem>) -> Seq<WorkItem> {
    items.filter(|i: WorkItem| i.item_type == ItemType::Story)
}

/// The items of one type below `parent`, in their order.
pub open spec fn children(items: Seq<WorkItem>, item_type: ItemType, parent: Uuid) -> Seq<
    WorkItem,
> {
    items.filter(|i: WorkItem| i.item_type == item_type && i.parent_id == Some(parent))
}

/// The first item with the identifier `id`.
pub open spec fn find_item(items: Seq<WorkItem>, id: Uuid) -> Option<WorkItem>
    decreases items.len(),
{
    if items.len() == 0 {
        None
    } else if items[0].id == id {
        Some(items[0])
    } else {
        find_item(items.drop_first(), id)
    }
}

pub fn find<'a>(items: &'a Vec<WorkItem>, id: Uuid) -> (r: Option<&'a WorkItem>)
    ensures
        match r {
            Some(i) => find_item(items@, id) == Some(*i),
            None => find_item(items@, id) is None,
        },
{
    let mut i: usize = 0;
    assert(items@.skip(0) =~= items@);
    while i < items.len()
        invariant
            i <= items@.len(),
            find_item(items@, id) == find_item(items@.skip(i as int), id),
        decreases items.len() - i,
    {
        assert(items@.skip(i as int)[0] == items@[i as int]);
        assert(items@.skip(i as int).drop_first() =~= items@.skip(i + 1));
        if items[i].id == id {
            return Some(&items[i]);
        }
        i += 1;
    }
    assert(items@.skip(i as int).len() == 0);
    None
}

/// The shown identifiers of those of `ids` that are items of the wave.
pub open spec fn shown_ids(ids: Seq<Uuid>, items: Seq<WorkItem>, wave: u32) -> Seq<JsonV>
    decreases ids.len(),
{
    if ids.len() == 0 {
        Seq::empty()
    } else {
        let init = shown_ids(ids.drop_last(), items, wave);
        match find_item(items, ids.last()) {
            Some(i) => init.push(JsonV::Str(wave_id(wave, i.short_id@))),
            None => init,
        }
    }
}

/// What holds up `story`, in the order of the dependencies.
pub open spec fn blockers(deps: Seq<Dependency>, story: Uuid) -> Seq<Uuid> {
    deps.filter(|d: Dependency| d.blocked_id == story).map_values(|d: Dependency| d.blocker_id)
}

/// What `story` holds up, in the order of the dependencies.
pub open spec fn blocked(deps: Seq<Dependency>, story: Uuid) -> Seq<Uuid> {
    deps.filter(|d: Dependency| d.blocker_id == story).map_values(|d: Dependency| d.blocked_id)
}

/// The shown identifiers of what holds up `story`, or of what it holds up.
fn linked_ids(
    deps: &Vec<Dependency>,
    items: &Vec<WorkItem>,
    story: Uuid,
    wave: u32,
    forward: bool,
) -> (r: Vec<Json>)
    ensures
        crate::json::json_views(r@) == shown_ids(
            if forward {
                blocked(deps@, story)
            } else {
                blockers(deps@, story)
            },
            items@,
            wave,
        ),
{
    let mut out: Vec<Json> = Vec::new();
    let mut i: usize = 0;
    let ghost keep = if forward {
        |d: Dependency| d.blocker_id == story
    } else {
        |d: Dependency| d.blocked_id == story
    };
    let ghost pick = if forward {
        |d: Dependency| d.blocked_id
    } else {
        |d: Dependency| d.blocker_id
    };
    proof {
        crate::seqs::filter_none(deps@, keep);
        assert(crate::json::json_views(out@) =~= Seq::empty());
        assert(deps@.take(0).filter(keep).map_values(pick) =~= Seq::empty());
    }
    while i < deps.len()
        invariant
            i <= deps@.len(),
            keep == (if forward {
                |d: Dependency| d.blocker_id == story
            } else {
                |d: Dependency| d.blocked_id == story
            }),
            pick == (if forward {
                |d: Dependency| d.blocked_id
            } else {
                |d: Dependency| d.blocker_id
            }),
            crate::json::json_views(out@) == shown_ids(
                deps@.take(i as int).filter(keep).map_values(pick),
                items@,
                wave,
            ),
        decreases deps.len() - i,
    {
        let d = deps[i];
        let ghost before = deps@.take(i as int).filter(keep);
        proof {
            crate::seqs::filter_step(deps@, i as int, keep);
            crate::seqs::map_push(before, d, pick);
            assert(before.map_values(pick).push(pick(d)).drop_last() =~= before.map_values(pick));
        }
        let (near, far) = if forward {
            (d.blocker_id, d.blocked_id)
        } else {
            (d.blocked_id, d.blocker_id)
        };
        if near == story {
            match find(items, far) {
                Some(item) => {
                    let ghost views = crate::json::json_views(out@);
                    let entry = Json::Str(wave_short_id(wave, item.short_id.as_str()));
                    out.push(entry);
                    assert(crate::json::json_views(out@) =~= views.push(entry@));
                },
                None => {},
            }
        }
        i += 1;
    }
    assert(deps@.take(i as int) =~= deps@);
    out
}

// ---- the graph ----

/// Each story with what it holds up; of two stories with one identifier, the later counts.
pub open spec fn adjacency(
    found: Seq<WorkItem>,
    items: Seq<WorkItem>,
    deps: Seq<Dependency>,
    wave: u32,
) -> JsonV
    decreases found.len(),
{
    if found.len() == 0 {
        JsonV::object()
    } else {
        let story = found.last();
        adjacency(found.drop_last(), items, deps, wave).put(
            wave_id(wave, story.short_id@),
            JsonV::Arr(shown_ids(blocked(deps, story.id), items, wave)),
        )
    }
}

/// The answer of `plan.show` in its graph form.
pub open spec fn dag_view(
    session: DecompositionSession,
    items: Seq<WorkItem>,
    deps: Seq<Dependency>,
) -> JsonV {
    JsonV::object().with("wave_number"@, JsonV::Int(session.wave_number as int)).with(
        "status"@,
        JsonV::Str(session.status.name()),
    ).with("adjacency"@, adjacency(stories(items), items, deps, session.wave_number))
}

pub fn plan_dag(
    session: &DecompositionSession,
    items: &Vec<WorkItem>,
    deps: &Vec<Dependency>,
) -> (r: Json)
    ensures
        r@ == dag_view(*session, items@, deps@),
{
    let wave = session.wave_number;
    let mut graph = Json::object();
    let mut i: usize = 0;
    let ghost keep = |i: WorkItem| i.item_type == ItemType::Story;
    proof {
        crate::seqs::filter_none(items@, keep);
    }
    while i < items.len()
        invariant
            i <= items@.len(),
            keep == (|i: WorkItem| i.item_type == ItemType::Story),
            graph@ == adjacency(items@.take(i as int).filter(keep), items@, deps@, wave),
        decreases items.len() - i,
    {
        let item = &items[i];
        let ghost before = items@.take(i as int).filter(keep);
        proof {
            crate::seqs::filter_step(items@, i as int, keep);
            assert(before.push(*item).drop_last() =~= before);
        }
        if item.item_type == ItemType::Story {
            let links = linked_ids(deps, items, item.id, wave, true);
            graph =
            graph.put(wave_short_id(wave, item.short_id.as_str()).as_str(), Json::array(links));
        }
        i += 1;
    }
    assert(items@.take(i as int) =~= items@);
    Json::object().with("wave_number", Json::U64(wave as u64)).with(
        "status",
        Json::text(session.status.as_str()),
    ).with("adjacency", graph)
}

// ---- the tree ----

/// A task in the tree.
pub open spec fn task_node(t: WorkItem, wave: u32) -> JsonV {
    JsonV::object().with("short_id"@, JsonV::Str(wave_id(wave, t.short_id@))).with(
        "title"@,
        JsonV::Str(t.title@),
    ).with("status"@, JsonV::Str(t.status.name())).with(
        "kind"@,
        match t.kind {
            Some(k) => JsonV::Str(k.name()),
            None => JsonV::Null,
        },
    ).with("error_message"@, JsonV::optional_text(t.error_message))
}

/// How many of the items are done, of how many.
pub open spec fn progress(tasks: Seq<WorkItem>) -> Seq<char> {
    crate::text::decimal(
        (tasks.filter(|t: WorkItem| t.status == WorkItemStatus::Done).len() as u32) as nat,
    ) + "/"@ + crate::text::decimal((tasks.len() as u32) as nat)
}

/// A story in the tree.
pub open spec fn story_node(
    s: WorkItem,
    items: Seq<WorkItem>,
    deps: Seq<Dependency>,
    wave: u32,
) -> JsonV {
    let tasks = children(items, ItemType::Task, s.id);
    JsonV::object().with("short_id"@, JsonV::Str(wave_id(wave, s.short_id@))).with(
        "title"@,
        JsonV::Str(s.title@),
    ).with("status"@, JsonV::Str(s.status.name())).with(
        "depends_on"@,
        JsonV::Arr(shown_ids(blockers(deps, s.id), items, wave)),
    ).with("progress"@, JsonV::Str(progress(tasks))).with(
        "tasks"@,
        JsonV::Arr(tasks.map_values(|t: WorkItem| task_node(t, wave))),
    ).with("error_message"@, JsonV::optional_text(s.error_message))
}

/// An epic in the tree.
pub open spec fn epic_node(
    e: WorkItem,
    items: Seq<WorkItem>,
    deps: Seq<Dependency>,
    wave: u32,
) -> JsonV {
    JsonV::object().with("short_id"@, JsonV::Str(wave_id(wave, e.short_id@))).with(
        "title"@,
        JsonV::Str(e.title@),
    ).with("status"@, JsonV::Str(e.status.name())).with(
        "stories"@,
        JsonV::Arr(
            children(items, ItemType::Story, e.id).map_values(
                |s: WorkItem| story_node(s, items, deps, wave),
            ),
        ),
    ).with("error_message"@, JsonV::optional_text(e.error_message))
}

/// The answer of `plan.show` in its tree form.
pub open spec fn tree_view(
    session: DecompositionSession,
    items: Seq<WorkItem>,
    deps: Seq<Dependency>,
) -> JsonV {
    JsonV::object().with("wave_number"@, JsonV::Int(session.wave_number as int)).with(
        "status"@,
        JsonV::Str(session.status.name()),
    ).with("error_message"@, JsonV::optional_text(session.error_message)).with(
        "epics"@,
        JsonV::Arr(
            epics(items).map_values(
                |e: WorkItem| epic_node(e, items, deps, session.wave_number),
            ),
        ),
    )
}

pub fn is_child(i: &WorkItem, item_type: ItemType, parent: Uuid) -> (r: bool)
    ensures
        r == (i.item_type == item_type && i.parent_id == Some(parent)),
{
    i.item_type == item_type && match i.parent_id {
        Some(p) => p == parent,
        None => false,
    }
}

fn story_json(s: &WorkItem, items: &Vec<WorkItem>, deps: &Vec<Dependency>, wave: u32) -> (r: Json)
    ensures
        r@ == story_node(*s, items@, deps@, wave),
{
    let mut nodes: Vec<Json> = Vec::new();
    let mut done: usize = 0;
    let mut i: usize = 0;
    let ghost parent = s.id;
    let ghost keep = |i: WorkItem| i.item_type == ItemType::Task && i.parent_id == Some(parent);
    let ghost node = |t: WorkItem| task_node(t, wave);
    let ghost is_done = |t: WorkItem| t.status == WorkItemStatus::Done;
    proof {
        crate::seqs::filter_none(items@, keep);
        reveal(Seq::filter);
        assert(crate::json::json_views(nodes@) =~= Seq::<WorkItem>::empty().map_values(node));
    }
    while i < items.len()
        invariant
            i <= items@.len(),
            parent == s.id,
            keep == (|i: WorkItem| i.item_type == ItemType::Task && i.parent_id == Some(parent)),
            node == (|t: WorkItem| task_node(t, wave)),
            is_done == (|t: WorkItem| t.status == WorkItemStatus::Done),
            crate::json::json_views(nodes@) == items@.take(i as int).filter(keep).map_values(node),
            done == items@.take(i as int).filter(keep).filter(is_done).len(),
            done <= i,
        decreases items.len() - i,
    {
        let t = &items[i];
        let ghost before = items@.take(i as int).filter(keep);
        proof {
            crate::seqs::filter_step(items@, i as int, keep);
        }
        if is_child(t, ItemType::Task, s.id) {
            proof {
                crate::seqs::map_push(before, *t, node);
                reveal(Seq::filter);
                assert(before.push(*t).drop_last() =~= before);
            }
            if t.status == WorkItemStatus::Done {
                done += 1;
            }
            let ghost views = crate::json::json_views(nodes@);
            let entry = Json::object().with(
                "short_id",
                Json::Str(wave_short_id(wave, t.short_id.as_str())),
            ).with("title", Json::Str(t.title.clone())).with(
                "status",
                Json::text(t.status.as_str()),
            ).with(
                "kind",
                match &t.kind {
                    Some(k) => Json::text(k.as_str()),
                    None => Json::Null,
                },
            ).with("error_message", Json::optional(&t.error_message));
            nodes.push(entry);
            assert(crate::json::json_views(nodes@) =~= views.push(entry@));
        }
        i += 1;
    }
    assert(items@.take(i as int) =~= items@);
    let total: u32 = nodes.len() as u32;
    let finished: u32 = done as u32;
    let progress = cat3(
        u64_text(finished as u64).as_str(),
        "/",
        u64_text(total as u64).as_str(),
    );
    Json::object().with("short_id", Json::Str(wave_short_id(wave, s.short_id.as_str()))).with(
        "title",
        Json::Str(s.title.clone()),
    ).with("status", Json::text(s.status.as_str())).with(
        "depends_on",
        Json::array(linked_ids(deps, items, s.id, wave, false)),
    ).with("progress", Json::Str(progress)).with("tasks", Json::array(nodes)).with(
        "error_message",
        Json::optional(&s.error_message),
    )
}

fn epic_json(e: &WorkItem, items: &Vec<WorkItem>, deps: &Vec<Dependency>, wave: u32) -> (r: Json)
    ensures
        r@ == epic_node(*e, items@, deps@, wave),
{
    let mut nodes: Vec<Json> = Vec::new();
    let mut i: usize = 0;
    let ghost parent = e.id;
    let ghost keep = |i: WorkItem| i.item_type == ItemType::Story && i.parent_id == Some(parent);
    let ghost node = |s: WorkItem| story_node(s, items@, deps@, wave);
    proof {
        crate::seqs::filter_none(items@, keep);
        assert(crate::json::json_views(nodes@) =~= Seq::<WorkItem>::empty().map_values(node));
    }
    while i < items.len()
        invariant
            i <= items@.len(),
            parent == e.id,
            keep == (|i: WorkItem| i.item_type == ItemType::Story && i.parent_id == Some(parent)),
            node == (|s: WorkItem| story_node(s, items@, deps@, wave)),
            crate::json::json_views(nodes@) == items@.take(i as int).filter(keep).map_values(node),
        decreases items.len() - i,
    {
        let s = &items[i];
        let ghost before = items@.take(i as int).filter(keep);
        proof {
            crate::seqs::filter_step(items@, i as int, keep);
            crate::seqs::map_push(before, *s, node);
        }
        if is_child(s, ItemType::Story, e.id) {
            let ghost views = crate::json::json_views(nodes@);
            let entry = story_json(s, items, deps, wave);
            nodes.push(entry);
            assert(crate::json::json_views(nodes@) =~= views.push(entry@));
        }
        i += 1;
    }
    assert(items@.take(i as int) =~= items@);
    Json::object().with("short_id", Json::Str(wave_short_id(wave, e.short_id.as_str()))).with(
        "title",
        Json::Str(e.title.clone()),
    ).with("status", Json::text(e.status.as_str())).with("stories", Json::array(nodes)).with(
        "error_message",
        Json::optional(&e.error_message),
    )
}

pub fn plan_tree(
    session: &DecompositionSession,
    items: &Vec<WorkItem>,
    deps: &Vec<Dependency>,
) -> (r: Json)
    ensures
        r@ == tree_view(*session, items@, deps@),
{
    let wave = session.wave_number;
    let mut nodes: Vec<Json> = Vec::new();
    let mut i: usize = 0;
    let ghost keep = |i: WorkItem| i.item_type == ItemType::Epic;
    let ghost node = |e: WorkItem| epic_node(e, items@, deps@, wave);
    proof {
        crate::seqs::filter_none(items@, keep);
        assert(crate::json::json_views(nodes@) =~= Seq::<WorkItem>::empty().map_values(node));
    }
    while i < items.len()
        invariant
            i <= items@.len(),
            keep == (|i: WorkItem| i.item_type == ItemType::Epic),
            node == (|e: WorkItem| epic_node(e, items@, deps@, wave)),
            crate::json::json_views(nodes@) == items@.take(i as int).filter(keep).map_values(node),
        decreases items.len() - i,
    {
        let e = &items[i];
        let ghost before = items@.take(i as int).filter(keep);
        proof {
            crate::seqs::filter_step(items@, i as int, keep);
            crate::seqs::map_push(before, *e, node);
        }
        if e.item_type == ItemType::Epic {
            let ghost views = crate::json::json_views(nodes@);
            let entry = epic_json(e, items, deps, wave);
            nodes.push(entry);
            assert(crate::json::json_views(nodes@) =~= views.push(entry@));
        }
        i += 1;
    }
    assert(items@.take(i as int) =~= items@);
    Json::object().with("wave_number", Json::U64(wave as u64)).with(
        "status",
        Json::text(session.status.as_str()),
    ).with("error_message", Json::optional(&session.error_message)).with(
        "epics",
        Json::array(nodes),
    )
}

// ---- the two forms agree ----

/// Whether the items and dependencies make up a wave: no two items have one identifier, no two
/// stories one short identifier, each story is below one of the epics, and each dependency joins
/// two of the stories.
pub open spec fn is_wave(items: Seq<WorkItem>, deps: Seq<Dependency>) -> bool {
    &&& forall|i: int, j: int|
        0 <= i < j < items.len() ==> (#[trigger] items[i]).id != (#[trigger] items[j]).id
    &&& forall|i: int, j: int|
        0 <= i < j < stories(items).len() ==> (#[trigger] stories(items)[i]).short_id@ != (
        #[trigger] stories(items)[j]).short_id@
    &&& forall|s: WorkItem| #[trigger]
        stories(items).contains(s) ==> exists|e: WorkItem| #[trigger]
            epics(items).contains(e) && s.parent_id == Some(e.id)
    &&& forall|d: Dependency| #[trigger]
        deps.contains(d) ==> is_story(items, d.blocker_id) && is_story(items, d.blocked_id)
}

/// Whether one of the stories has the identifier.
pub open spec fn is_story(items: Seq<WorkItem>, id: Uuid) -> bool {
    exists|s: WorkItem| #[trigger] stories(items).contains(s) && s.id == id
}

/// Whether an epic of the tree shows the node as one of its stories.
pub open spec fn epic_shows(epic: JsonV, node: JsonV) -> bool {
    epic.field("stories"@) matches Some(JsonV::Arr(below)) && below.contains(node)
}

/// Whether a tree shows the node as a story of one of its epics.
pub open spec fn shows_story(tree: JsonV, node: JsonV) -> bool {
    tree.field("epics"@) matches Some(JsonV::Arr(nodes)) && exists|e: JsonV|
        nodes.contains(e) && #[trigger] epic_shows(e, node)
}

/// Whether a node of the tree is shown under the identifier.
pub open spec fn is_named(node: JsonV, id: Seq<char>) -> bool {
    node.field("short_id"@) == Some(JsonV::Str(id))
}

/// Whether a list holds the text.
pub open spec fn lists(list: Option<JsonV>, text: Seq<char>) -> bool {
    list matches Some(JsonV::Arr(values)) && values.contains(JsonV::Str(text))
}

/// Whether an object has a member of that name.
pub open spec fn has_key(members: Seq<(Seq<char>, JsonV)>, key: Seq<char>) -> bool {
    exists|i: int| 0 <= i < members.len() && (#[trigger] members[i]).0 == key
}

proof fn wave_id_is_injective(wave: u32, a: Seq<char>, b: Seq<char>)
    requires
        wave_id(wave, a) == wave_id(wave, b),
    ensures
        a == b,
{
    let before = "W"@ + crate::text::decimal(wave as nat) + "-"@;
    assert((before + a).skip(before.len() as int) =~= a);
    assert((before + b).skip(before.len() as int) =~= b);
}

proof fn item_is_found(items: Seq<WorkItem>, k: int)
    requires
        0 <= k < items.len(),
        forall|i: int, j: int|
            0 <= i < j < items.len() ==> (#[trigger] items[i]).id != (#[trigger] items[j]).id,
    ensures
        find_item(items, items[k].id) == Some(items[k]),
    decreases items.len(),
{
    if k > 0 {
        let rest = items.drop_first();
        assert forall|i: int, j: int| 0 <= i < j < rest.len() implies (#[trigger] rest[i]).id != (
        #[trigger] rest[j]).id by {
            assert(rest[i] == items[i + 1]);
            assert(rest[j] == items[j + 1]);
        }
        item_is_found(rest, k - 1);
        assert(items[0].id != items[k].id);
        assert(rest[k - 1] == items[k]);
    }
}

/// What the shown identifiers are those of.
proof fn shown_contains(ids: Seq<Uuid>, items: Seq<WorkItem>, wave: u32, v: JsonV)
    ensures
        shown_ids(ids, items, wave).contains(v) <==> exists|id: Uuid| #[trigger]
            ids.contains(id) && (find_item(items, id) matches Some(i) && v == JsonV::Str(
                wave_id(wave, i.short_id@),
            )),
    decreases ids.len(),
{
    if ids.len() > 0 {
        let init = ids.drop_last();
        shown_contains(init, items, wave, v);
        assert(init.push(ids.last()) =~= ids);
        assert forall|id: Uuid| #[trigger]
            ids.contains(id) <==> init.contains(id) || id == ids.last() by {
            crate::seqs::push_contains(init, ids.last(), id);
        }
        match find_item(items, ids.last()) {
            Some(i) => {
                crate::seqs::push_contains(
                    shown_ids(init, items, wave),
                    JsonV::Str(wave_id(wave, i.short_id@)),
                    v,
                );
            },
            None => {},
        }
        assert(ids.contains(ids.last()));
        if exists|id: Uuid| #[trigger]
            init.contains(id) && (find_item(items, id) matches Some(i) && v == JsonV::Str(
                wave_id(wave, i.short_id@),
            )) {
            let id = choose|id: Uuid| #[trigger]
                init.contains(id) && (find_item(items, id) matches Some(i) && v == JsonV::Str(
                    wave_id(wave, i.short_id@),
                ));
            assert(ids.contains(id));
        }
    }
}

/// Among the identifiers of stories, the shown identifier of a story stands for that story.
proof fn shown_story(
    ids: Seq<Uuid>,
    items: Seq<WorkItem>,
    deps: Seq<Dependency>,
    wave: u32,
    s: WorkItem,
)
    requires
        is_wave(items, deps),
        stories(items).contains(s),
        forall|id: Uuid| #[trigger] ids.contains(id) ==> is_story(items, id),
    ensures
        shown_ids(ids, items, wave).contains(JsonV::Str(wave_id(wave, s.short_id@)))
            <==> ids.contains(s.id),
{
    let keep = |i: WorkItem| i.item_type == ItemType::Story;
    let v = JsonV::Str(wave_id(wave, s.short_id@));
    shown_contains(ids, items, wave, v);
    crate::seqs::filter_contains(items, keep, s);
    let k = choose|k: int| 0 <= k < items.len() && items[k] == s;
    item_is_found(items, k);
    if shown_ids(ids, items, wave).contains(v) {
        let id = choose|id: Uuid| #[trigger]
            ids.contains(id) && (find_item(items, id) matches Some(i) && v == JsonV::Str(
                wave_id(wave, i.short_id@),
            ));
        let t = choose|t: WorkItem| #[trigger] stories(items).contains(t) && t.id == id;
        crate::seqs::filter_contains(items, keep, t);
        let l = choose|l: int| 0 <= l < items.len() && items[l] == t;
        item_is_found(items, l);
        wave_id_is_injective(wave, t.short_id@, s.short_id@);
        let a = choose|a: int| 0 <= a < stories(items).len() && stories(items)[a] == s;
        let b = choose|b: int| 0 <= b < stories(items).len() && stories(items)[b] == t;
        assert(stories(items)[a].short_id@ == stories(items)[b].short_id@);
        assert(a == b);
    }
}

/// One story is among those that another holds up exactly if the other is among those that hold
/// up the one.
proof fn links_have_two_ends(deps: Seq<Dependency>, a: Uuid, b: Uuid)
    ensures
        blocked(deps, a).contains(b) <==> blockers(deps, b).contains(a),
        blocked(deps, a).contains(b) <==> exists|d: Dependency| #[trigger]
            deps.contains(d) && d.blocker_id == a && d.blocked_id == b,
{
    let from = |d: Dependency| d.blocker_id == a;
    let to = |d: Dependency| d.blocked_id == b;
    crate::seqs::map_contains(deps.filter(from), |d: Dependency| d.blocked_id, b);
    crate::seqs::map_contains(deps.filter(to), |d: Dependency| d.blocker_id, a);
    assert forall|d: Dependency| #[trigger]
        deps.filter(from).contains(d) <==> deps.contains(d) && d.blocker_id == a by {
        crate::seqs::filter_contains(deps, from, d);
    }
    assert forall|d: Dependency| #[trigger]
        deps.filter(to).contains(d) <==> deps.contains(d) && d.blocked_id == b by {
        crate::seqs::filter_contains(deps, to, d);
    }
    if exists|d: Dependency| #[trigger]
        deps.contains(d) && d.blocker_id == a && d.blocked_id == b {
        let d = choose|d: Dependency| #[trigger]
            deps.contains(d) && d.blocker_id == a && d.blocked_id == b;
        assert(deps.filter(from).contains(d));
        assert(deps.filter(to).contains(d));
    }
}

/// Where no two stories have one short identifier, the graph has a member for each, in order.
proof fn adjacency_members(
    found: Seq<WorkItem>,
    items: Seq<WorkItem>,
    deps: Seq<Dependency>,
    wave: u32,
)
    requires
        forall|i: int, j: int|
            0 <= i < j < found.len() ==> (#[trigger] found[i]).short_id@ != (
            #[trigger] found[j]).short_id@,
    ensures
        adjacency(found, items, deps, wave) == JsonV::Obj(
            found.map_values(
                |s: WorkItem|
                    (
                        wave_id(wave, s.short_id@),
                        JsonV::Arr(shown_ids(blocked(deps, s.id), items, wave)),
                    ),
            ),
        ),
    decreases found.len(),
{
    let entry = |s: WorkItem|
        (
            wave_id(wave, s.short_id@),
            JsonV::Arr(shown_ids(blocked(deps, s.id), items, wave)),
        );
    if found.len() > 0 {
        let init = found.drop_last();
        let last = found.last();
        adjacency_members(init, items, deps, wave);
        let members = init.map_values(entry);
        assert forall|k: int| 0 <= k < members.len() implies (#[trigger] members[k]).0 != wave_id(
            wave,
            last.short_id@,
        ) by {
            assert(found[k].short_id@ != found[found.len() - 1].short_id@);
            if members[k].0 == wave_id(wave, last.short_id@) {
                wave_id_is_injective(wave, found[k].short_id@, last.short_id@);
            }
        }
        crate::json::put_at(members, entry(last).0, entry(last).1, members.len() as int);
        crate::seqs::map_push(init, last, entry);
        assert(init.push(last) =~= found);
    } else {
        assert(found.map_values(entry) =~= Seq::empty());
    }
}

proof fn story_node_fields(s: WorkItem, items: Seq<WorkItem>, deps: Seq<Dependency>, wave: u32)
    ensures
        story_node(s, items, deps, wave).field("short_id"@) == Some(
            JsonV::Str(wave_id(wave, s.short_id@)),
        ),
        story_node(s, items, deps, wave).field("depends_on"@) == Some(
            JsonV::Arr(shown_ids(blockers(deps, s.id), items, wave)),
        ),
{
    reveal_strlit("short_id");
    assert("short_id"@.len() == 8);
    reveal_strlit("title");
    assert("title"@.len() == 5);
    reveal_strlit("status");
    assert("status"@.len() == 6);
    reveal_strlit("depends_on");
    assert("depends_on"@.len() == 10);
    reveal_strlit("progress");
    assert("progress"@.len() == 8);
    reveal_strlit("tasks");
    assert("tasks"@.len() == 5);
    reveal_strlit("error_message");
    assert("error_message"@.len() == 13);
    assert("progress"@[0] != "short_id"@[0]);
    let tasks = children(items, ItemType::Task, s.id);
    let id = JsonV::Str(wave_id(wave, s.short_id@));
    let links = JsonV::Arr(shown_ids(blockers(deps, s.id), items, wave));
    let title = JsonV::Str(s.title@);
    let status = JsonV::Str(s.status.name());
    let share = JsonV::Str(progress(tasks));
    let nodes = JsonV::Arr(tasks.map_values(|t: WorkItem| task_node(t, wave)));
    let error = JsonV::optional_text(s.error_message);
    let n0 = JsonV::object();
    let n1 = n0.with("short_id"@, id);
    let n2 = n1.with("title"@, title);
    let n3 = n2.with("status"@, status);
    let n4 = n3.with("depends_on"@, links);
    let n5 = n4.with("progress"@, share);
    let n6 = n5.with("tasks"@, nodes);
    crate::json::law_with_then_get(n0, "short_id"@, id, "depends_on"@);
    crate::json::law_with_then_get(n1, "title"@, title, "short_id"@);
    crate::json::law_with_then_get(n1, "title"@, title, "depends_on"@);
    crate::json::law_with_then_get(n2, "status"@, status, "short_id"@);
    crate::json::law_with_then_get(n2, "status"@, status, "depends_on"@);
    crate::json::law_with_then_get(n3, "depends_on"@, links, "short_id"@);
    crate::json::law_with_then_get(n4, "progress"@, share, "short_id"@);
    crate::json::law_with_then_get(n4, "progress"@, share, "depends_on"@);
    crate::json::law_with_then_get(n5, "tasks"@, nodes, "short_id"@);
    crate::json::law_with_then_get(n5, "tasks"@, nodes, "depends_on"@);
    crate::json::law_with_then_get(n6, "error_message"@, error, "short_id"@);
    crate::json::law_with_then_get(n6, "error_message"@, error, "depends_on"@);
}

proof fn epic_node_fields(e: WorkItem, items: Seq<WorkItem>, deps: Seq<Dependency>, wave: u32)
    ensures
        is_named(epic_node(e, items, deps, wave), wave_id(wave, e.short_id@)),
        epic_node(e, items, deps, wave).field("stories"@) == Some(
            JsonV::Arr(
                children(items, ItemType::Story, e.id).map_values(
                    |s: WorkItem| story_node(s, items, deps, wave),
                ),
            ),
        ),
{
    reveal_strlit("short_id");
    assert("short_id"@.len() == 8);
    reveal_strlit("title");
    assert("title"@.len() == 5);
    reveal_strlit("status");
    assert("status"@.len() == 6);
    reveal_strlit("stories");
    assert("stories"@.len() == 7);
    reveal_strlit("error_message");
    assert("error_message"@.len() == 13);
    let id = JsonV::Str(wave_id(wave, e.short_id@));
    let title = JsonV::Str(e.title@);
    let status = JsonV::Str(e.status.name());
    let nodes = JsonV::Arr(
        children(items, ItemType::Story, e.id).map_values(
            |s: WorkItem| story_node(s, items, deps, wave),
        ),
    );
    let error = JsonV::optional_text(e.error_message);
    let n0 = JsonV::object();
    let n1 = n0.with("short_id"@, id);
    let n2 = n1.with("title"@, title);
    let n3 = n2.with("status"@, status);
    let n4 = n3.with("stories"@, nodes);
    crate::json::law_with_then_get(n0, "short_id"@, id, "stories"@);
    crate::json::law_with_then_get(n1, "title"@, title, "stories"@);
    crate::json::law_with_then_get(n2, "status"@, status, "stories"@);
    crate::json::law_with_then_get(n3, "stories"@, nodes, "stories"@);
    crate::json::law_with_then_get(n4, "error_message"@, error, "stories"@);
    crate::json::law_with_then_get(n1, "title"@, title, "short_id"@);
    crate::json::law_with_then_get(n2, "status"@, status, "short_id"@);
    crate::json::law_with_then_get(n3, "stories"@, nodes, "short_id"@);
    crate::json::law_with_then_get(n4, "error_message"@, error, "short_id"@);
}

proof fn task_node_is_named(t: WorkItem, wave: u32)
    ensures
        is_named(task_node(t, wave), wave_id(wave, t.short_id@)),
{
    reveal_strlit("short_id");
    assert("short_id"@.len() == 8);
    reveal_strlit("title");
    assert("title"@.len() == 5);
    reveal_strlit("status");
    assert("status"@.len() == 6);
    reveal_strlit("kind");
    assert("kind"@.len() == 4);
    reveal_strlit("error_message");
    assert("error_message"@.len() == 13);
    let id = JsonV::Str(wave_id(wave, t.short_id@));
    let title = JsonV::Str(t.title@);
    let status = JsonV::Str(t.status.name());
    let kind = match t.kind {
        Some(k) => JsonV::Str(k.name()),
        None => JsonV::Null,
    };
    let error = JsonV::optional_text(t.error_message);
    let n0 = JsonV::object();
    let n1 = n0.with("short_id"@, id);
    let n2 = n1.with("title"@, title);
    let n3 = n2.with("status"@, status);
    let n4 = n3.with("kind"@, kind);
    crate::json::law_with_then_get(n0, "short_id"@, id, "short_id"@);
    crate::json::law_with_then_get(n1, "title"@, title, "short_id"@);
    crate::json::law_with_then_get(n2, "status"@, status, "short_id"@);
    crate::json::law_with_then_get(n3, "kind"@, kind, "short_id"@);
    crate::json::law_with_then_get(n4, "error_message"@, error, "short_id"@);
}

proof fn view_fields(
    session: DecompositionSession,
    items: Seq<WorkItem>,
    deps: Seq<Dependency>,
)
    ensures
        tree_view(session, items, deps).field("wave_number"@) == Some(
            JsonV::Int(session.wave_number as int),
        ),
        tree_view(session, items, deps).field("status"@) == Some(
            JsonV::Str(session.status.name()),
        ),
        tree_view(session, items, deps).field("epics"@) == Some(
            JsonV::Arr(
                epics(items).map_values(
                    |e: WorkItem| epic_node(e, items, deps, session.wave_number),
                ),
            ),
        ),
        dag_view(session, items, deps).field("wave_number"@) == Some(
            JsonV::Int(session.wave_number as int),
        ),
        dag_view(session, items, deps).field("status"@) == Some(JsonV::Str(session.status.name())),
        dag_view(session, items, deps).field("adjacency"@) == Some(
            adjacency(stories(items), items, deps, session.wave_number),
        ),
{
    reveal_strlit("wave_number");
    assert("wave_number"@.len() == 11);
    reveal_strlit("status");
    assert("status"@.len() == 6);
    reveal_strlit("error_message");
    assert("error_message"@.len() == 13);
    reveal_strlit("epics");
    assert("epics"@.len() == 5);
    reveal_strlit("adjacency");
    assert("adjacency"@.len() == 9);
    let number = JsonV::Int(session.wave_number as int);
    let status = JsonV::Str(session.status.name());
    let error = JsonV::optional_text(session.error_message);
    let nodes = JsonV::Arr(
        epics(items).map_values(|e: WorkItem| epic_node(e, items, deps, session.wave_number)),
    );
    let graph = adjacency(stories(items), items, deps, session.wave_number);
    let n0 = JsonV::object();
    let n1 = n0.with("wave_number"@, number);
    let n2 = n1.with("status"@, status);
    let n3 = n2.with("error_message"@, error);
    crate::json::law_with_then_get(n0, "wave_number"@, number, "status"@);
    crate::json::law_with_then_get(n0, "wave_number"@, number, "epics"@);
    crate::json::law_with_then_get(n0, "wave_number"@, number, "adjacency"@);
    crate::json::law_with_then_get(n1, "status"@, status, "wave_number"@);
    crate::json::law_with_then_get(n1, "status"@, status, "epics"@);
    crate::json::law_with_then_get(n1, "status"@, status, "adjacency"@);
    crate::json::law_with_then_get(n2, "error_message"@, error, "wave_number"@);
    crate::json::law_with_then_get(n2, "error_message"@, error, "status"@);
    crate::json::law_with_then_get(n2, "error_message"@, error, "epics"@);
    crate::json::law_with_then_get(n3, "epics"@, nodes, "wave_number"@);
    crate::json::law_with_then_get(n3, "epics"@, nodes, "status"@);
    crate::json::law_with_then_get(n2, "adjacency"@, graph, "wave_number"@);
    crate::json::law_with_then_get(n2, "adjacency"@, graph, "status"@);
}

/// The tree of a wave shows each story, and no others.
proof fn tree_stories(
    session: DecompositionSession,
    items: Seq<WorkItem>,
    deps: Seq<Dependency>,
    node: JsonV,
)
    requires
        is_wave(items, deps),
    ensures
        shows_story(tree_view(session, items, deps), node) <==> exists|s: WorkItem| #[trigger]
            stories(items).contains(s) && node == story_node(
                s,
                items,
                deps,
                session.wave_number,
            ),
{
    let wave = session.wave_number;
    let is_epic = |i: WorkItem| i.item_type == ItemType::Epic;
    let of_epic = |e: WorkItem| epic_node(e, items, deps, wave);
    let of_story = |s: WorkItem| story_node(s, items, deps, wave);
    let nodes = epics(items).map_values(of_epic);
    view_fields(session, items, deps);
    if shows_story(tree_view(session, items, deps), node) {
        let e = choose|e: JsonV| nodes.contains(e) && #[trigger] epic_shows(e, node);
        crate::seqs::map_contains(epics(items), of_epic, e);
        let epic = choose|x: WorkItem| #[trigger] epics(items).contains(x) && of_epic(x) == e;
        epic_node_fields(epic, items, deps, wave);
        let below = children(items, ItemType::Story, epic.id);
        crate::seqs::map_contains(below, of_story, node);
        let s = choose|x: WorkItem| #[trigger] below.contains(x) && of_story(x) == node;
        story_is_below(items, epic.id, s);
        assert(stories(items).contains(s) && node == story_node(s, items, deps, wave));
    }
    if exists|s: WorkItem| #[trigger] stories(items).contains(s) && node == of_story(s) {
        let s = choose|s: WorkItem| #[trigger] stories(items).contains(s) && node == of_story(s);
        let epic = choose|e: WorkItem| #[trigger]
            epics(items).contains(e) && s.parent_id == Some(e.id);
        crate::seqs::map_contains(epics(items), of_epic, of_epic(epic));
        epic_node_fields(epic, items, deps, wave);
        let below = children(items, ItemType::Story, epic.id);
        story_is_below(items, epic.id, s);
        crate::seqs::map_contains(below, of_story, node);
        assert(below.contains(s) && of_story(s) == node);
        assert(nodes.contains(of_epic(epic)) && epic_shows(of_epic(epic), node));
    }
}

proof fn story_is_below(items: Seq<WorkItem>, epic: Uuid, s: WorkItem)
    ensures
        children(items, ItemType::Story, epic).contains(s) <==> stories(items).contains(s)
            && s.parent_id == Some(epic),
{
    crate::seqs::filter_contains(items, |i: WorkItem| i.item_type == ItemType::Story, s);
    crate::seqs::filter_contains(
        items,
        |i: WorkItem| i.item_type == ItemType::Story && i.parent_id == Some(epic),
        s,
    );
}

/// The two forms of `plan.show` agree on a wave. They give one wave number and one status. The
/// graph has exactly one member for each story, named by the identifier that the tree shows. One
/// story stands among those that another holds up exactly if the other stands among those that
/// the one depends on.
pub proof fn law_tree_and_graph_agree(
    session: DecompositionSession,
    items: Seq<WorkItem>,
    deps: Seq<Dependency>,
)
    requires
        is_wave(items, deps),
    ensures
        ({
            let tree = tree_view(session, items, deps);
            let dag = dag_view(session, items, deps);
            &&& dag.field("wave_number"@) is Some
            &&& dag.field("wave_number"@) == tree.field("wave_number"@)
            &&& dag.field("status"@) is Some
            &&& dag.field("status"@) == tree.field("status"@)
            &&& dag.field("adjacency"@) matches Some(JsonV::Obj(members))
            &&& members.len() == stories(items).len()
            &&& forall|i: int, j: int|
                0 <= i < j < members.len() ==> (#[trigger] members[i]).0 != (
                #[trigger] members[j]).0
            &&& forall|id: Seq<char>| #[trigger]
                has_key(members, id) <==> exists|s: JsonV| #[trigger]
                    shows_story(tree, s) && is_named(s, id)
            &&& forall|a: JsonV, b: JsonV, from: Seq<char>, to: Seq<char>|
                shows_story(tree, a) && shows_story(tree, b) && #[trigger] is_named(a, from)
                    && #[trigger] is_named(b, to) ==> (lists(
                    JsonV::Obj(members).field(from),
                    to,
                ) <==> lists(b.field("depends_on"@), from))
        }),
{
    let wave = session.wave_number;
    let tree = tree_view(session, items, deps);
    let found = stories(items);
    let entry = |s: WorkItem|
        (
            wave_id(wave, s.short_id@),
            JsonV::Arr(shown_ids(blocked(deps, s.id), items, wave)),
        );
    let members = found.map_values(entry);
    view_fields(session, items, deps);
    adjacency_members(found, items, deps, wave);
    assert forall|i: int, j: int| 0 <= i < j < members.len() implies (#[trigger] members[i]).0 != (
    #[trigger] members[j]).0 by {
        assert(found[i].short_id@ != found[j].short_id@);
        if members[i].0 == members[j].0 {
            wave_id_is_injective(wave, found[i].short_id@, found[j].short_id@);
        }
    }
    assert forall|id: Seq<char>| #[trigger]
        has_key(members, id) <==> exists|s: JsonV| #[trigger]
            shows_story(tree, s) && is_named(s, id) by {
        if has_key(members, id) {
            let i = choose|i: int| 0 <= i < members.len() && (#[trigger] members[i]).0 == id;
            let node = story_node(found[i], items, deps, wave);
            assert(found.contains(found[i]));
            tree_stories(session, items, deps, node);
            story_node_fields(found[i], items, deps, wave);
            assert(shows_story(tree, node));
        }
        if exists|s: JsonV| #[trigger]
            shows_story(tree, s) && is_named(s, id) {
            let node = choose|s: JsonV| #[trigger]
                shows_story(tree, s) && is_named(s, id);
            tree_stories(session, items, deps, node);
            let s = choose|s: WorkItem| #[trigger]
                found.contains(s) && node == story_node(s, items, deps, wave);
            story_node_fields(s, items, deps, wave);
            let i = choose|i: int| 0 <= i < found.len() && found[i] == s;
            assert(members[i].0 == id);
        }
    }
    assert forall|a: JsonV, b: JsonV, from: Seq<char>, to: Seq<char>|
        shows_story(tree, a) && shows_story(tree, b) && #[trigger] is_named(a, from)
            && #[trigger] is_named(b, to) implies (lists(
        JsonV::Obj(members).field(from),
        to,
    ) <==> lists(b.field("depends_on"@), from)) by {
        tree_stories(session, items, deps, a);
        tree_stories(session, items, deps, b);
        let s = choose|s: WorkItem| #[trigger]
            found.contains(s) && a == story_node(s, items, deps, wave);
        let t = choose|t: WorkItem| #[trigger]
            found.contains(t) && b == story_node(t, items, deps, wave);
        story_node_fields(s, items, deps, wave);
        story_node_fields(t, items, deps, wave);
        let i = choose|i: int| 0 <= i < found.len() && found[i] == s;
        crate::json::member_at(members, i);
        assert(members[i] == entry(s));
        assert forall|id: Uuid| #[trigger] blocked(deps, s.id).contains(id) implies is_story(
            items,
            id,
        ) by {
            links_have_two_ends(deps, s.id, id);
        }
        assert forall|id: Uuid| #[trigger] blockers(deps, t.id).contains(id) implies is_story(
            items,
            id,
        ) by {
            links_have_two_ends(deps, id, t.id);
        }
        shown_story(blocked(deps, s.id), items, deps, wave, t);
        shown_story(blockers(deps, t.id), items, deps, wave, s);
        links_have_two_ends(deps, s.id, t.id);
    }
}

/// What is stored for a part of a decomposition is shown under the identifier that the part
/// gives itself, with the number of the wave before it, and that once: an epic, a story and a
/// task alike. `made` is what was stored when `b` came to the draft of `source`; it keeps the
/// short identifier that it was asked for with. Where it is a story of the wave that is shown, the
/// tree shows it so.
pub proof fn law_an_identifier_is_shown_with_one_prefix(
    b: Builder,
    item: NewItem,
    made: WorkItem,
    source: JsonV,
    position: nat,
    id: Seq<char>,
    session: DecompositionSession,
    items: Seq<WorkItem>,
    deps: Seq<Dependency>,
)
    requires
        session.wave_number == b.batch.wave,
        b.made < b.drafts@.len(),
        b.wants(item),
        made.short_id == item.short_id,
        source.text_field("id"@) == Some(id),
    ensures
        b.drafts@[b.made as int]@ == crate::drafts::epic_draft(source, position) ==> item.item_type
            == ItemType::Epic && is_named(
            epic_node(made, items, deps, b.batch.wave),
            wave_id(b.batch.wave, id),
        ),
        b.drafts@[b.made as int]@ == crate::drafts::story_draft(source, position)
            ==> item.item_type == ItemType::Story && is_named(
            story_node(made, items, deps, b.batch.wave),
            wave_id(b.batch.wave, id),
        ),
        b.drafts@[b.made as int]@ == crate::drafts::task_draft(source, position) ==> item.item_type
            == ItemType::Task && is_named(
            task_node(made, b.batch.wave),
            wave_id(b.batch.wave, id),
        ),
        b.drafts@[b.made as int]@ == crate::drafts::story_draft(source, position) && is_wave(
            items,
            deps,
        ) && stories(items).contains(made) ==> exists|node: JsonV| #[trigger]
            shows_story(tree_view(session, items, deps), node) && is_named(
                node,
                wave_id(b.batch.wave, id),
            ),
{
    if is_wave(items, deps) {
        tree_stories(session, items, deps, story_node(made, items, deps, b.batch.wave));
    }
    epic_node_fields(made, items, deps, b.batch.wave);
    story_node_fields(made, items, deps, b.batch.wave);
    task_node_is_named(made, b.batch.wave);
}

} // verus!
