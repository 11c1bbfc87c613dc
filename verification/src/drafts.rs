//! Reading a decomposition: the epics, stories and tasks that the agent proposes, in the order in
//! which they are stored.
use vstd::prelude::*;
use crate::json::{Json, JsonV};
use crate::text::{cat, u64_text};

verus! {

/// A work item that is yet to be made.
#[derive(Debug, PartialEq)]
pub enum Draft {
    Epic { short_id: String, title: String, description: String, sort_order: i32 },
    Story {
        short_id: String,
        title: String,
        description: String,
        acceptance: String,
        depends_on: Vec<String>,
        sort_order: i32,
    },
    Task {
        short_id: String,
        title: String,
        description: String,
        acceptance: String,
        sort_order: i32,
    },
}

/// The value of a [`Draft`].
pub enum DraftV {
    Epic { short_id: Seq<char>, title: Seq<char>, description: Seq<char>, sort_order: int },
    Story {
        short_id: Seq<char>,
        title: Seq<char>,
        description: Seq<char>,
        acceptance: Seq<char>,
        depends_on: Seq<Seq<char>>,
        sort_order: int,
    },
    Task {
        short_id: Seq<char>,
        title: Seq<char>,
        description: Seq<char>,
        acceptance: Seq<char>,
        sort_order: int,
    },
}

impl View for Draft {
    type V = DraftV;

    open spec fn view(&self) -> DraftV {
        match *self {
            Draft::Epic { short_id, title, description, sort_order } => DraftV::Epic {
                short_id: short_id@,
                title: title@,
                description: description@,
                sort_order: sort_order as int,
            },
            Draft::Story { short_id, title, description, acceptance, depends_on, sort_order } => {
                DraftV::Story {
                    short_id: short_id@,
                    title: title@,
                    description: description@,
                    acceptance: acceptance@,
                    depends_on: crate::text::texts_view(depends_on@),
                    sort_order: sort_order as int,
                }
            },
            Draft::Task { short_id, title, description, acceptance, sort_order } => DraftV::Task {
                short_id: short_id@,
                title: title@,
                description: description@,
                acceptance: acceptance@,
                sort_order: sort_order as int,
            },
        }
    }
}

pub open spec fn draft_views(v: Seq<Draft>) -> Seq<DraftV> {
    v.map_values(|d: Draft| d@)
}

/// The text of the member `key`, or `default` where it is no string.
pub open spec fn text_or(v: JsonV, key: Seq<char>, default: Seq<char>) -> Seq<char> {
    match v.text_field(key) {
        Some(t) => t,
        None => default,
    }
}

pub fn str_or(v: &Json, key: &str, default: &str) -> (r: String)
    ensures
        r@ == text_or(v@, key@, default@),
{
    match v.str_field(key) {
        Some(t) => t,
        None => default.to_owned(),
    }
}

/// The elements of the member `key`, none where it is no array.
pub open spec fn list_of(v: JsonV, key: Seq<char>) -> Seq<JsonV> {
    match v.field(key) {
        Some(JsonV::Arr(items)) => items,
        _ => Seq::empty(),
    }
}

/// The strings among the elements, in their order.
pub open spec fn strings(items: Seq<JsonV>) -> Seq<Seq<char>>
    decreases items.len(),
{
    if items.len() == 0 {
        Seq::empty()
    } else {
        match items.last().text() {
            Some(t) => strings(items.drop_last()).push(t),
            None => strings(items.drop_last()),
        }
    }
}

pub fn string_items(items: &Vec<Json>) -> (r: Vec<String>)
    ensures
        crate::text::texts_view(r@) == strings(crate::json::json_views(items@)),
{
    let ghost views = crate::json::json_views(items@);
    let mut out: Vec<String> = Vec::new();
    let mut i: usize = 0;
    assert(crate::text::texts_view(out@) =~= strings(views.take(0)));
    while i < items.len()
        invariant
            i <= items@.len(),
            views == crate::json::json_views(items@),
            crate::text::texts_view(out@) == strings(views.take(i as int)),
        decreases items.len() - i,
    {
        assert(views.take(i + 1).drop_last() =~= views.take(i as int));
        assert(views.take(i + 1).last() == items@[i as int]@);
        match items[i].as_str() {
            Some(s) => {
                let ghost before = crate::text::texts_view(out@);
                out.push(s.clone());
                assert(crate::text::texts_view(out@) =~= before.push(s@));
            },
            None => {},
        }
        i += 1;
    }
    assert(views.take(i as int) =~= views);
    out
}

// ---- what a decomposition says ----

/// The epic at position `i`.
pub open spec fn epic_draft(v: JsonV, i: nat) -> DraftV {
    DraftV::Epic {
        short_id: text_or(v, "id"@, "E"@ + crate::text::decimal(i + 1)),
        title: text_or(v, "title"@, "Untitled Epic"@),
        description: text_or(v, "description"@, ""@),
        sort_order: i as int,
    }
}

/// The story at position `i` among all stories.
pub open spec fn story_draft(v: JsonV, i: nat) -> DraftV {
    DraftV::Story {
        short_id: text_or(v, "id"@, "S"@ + crate::text::decimal(i + 1)),
        title: text_or(v, "title"@, "Untitled Story"@),
        description: text_or(v, "description"@, ""@),
        acceptance: text_or(v, "acceptance_criteria"@, ""@),
        depends_on: strings(list_of(v, "depends_on"@)),
        sort_order: i as int,
    }
}

/// The task at position `k` of its story; every second place is left to verification.
pub open spec fn task_draft(v: JsonV, k: nat) -> DraftV {
    DraftV::Task {
        short_id: text_or(v, "id"@, "T"@ + crate::text::decimal(k + 1)),
        title: text_or(v, "title"@, "Untitled Task"@),
        description: text_or(v, "description"@, ""@),
        acceptance: text_or(v, "acceptance_criteria"@, ""@),
        sort_order: 2 * k as int,
    }
}

pub open spec fn task_drafts(tasks: Seq<JsonV>) -> Seq<DraftV> {
    Seq::new(tasks.len(), |k: int| task_draft(tasks[k], k as nat))
}

/// Each story, followed by its tasks; the first story has position `first`.
pub open spec fn story_drafts(stories: Seq<JsonV>, first: nat) -> Seq<DraftV>
    decreases stories.len(),
{
    if stories.len() == 0 {
        Seq::empty()
    } else {
        let init = stories.drop_last();
        story_drafts(init, first).push(story_draft(stories.last(), first + init.len()))
            + task_drafts(list_of(stories.last(), "tasks"@))
    }
}

pub open spec fn story_count(epics: Seq<JsonV>) -> nat
    decreases epics.len(),
{
    if epics.len() == 0 {
        0
    } else {
        story_count(epics.drop_last()) + list_of(epics.last(), "stories"@).len()
    }
}

/// Each epic, followed by its stories with their tasks.
pub open spec fn epic_drafts(epics: Seq<JsonV>) -> Seq<DraftV>
    decreases epics.len(),
{
    if epics.len() == 0 {
        Seq::empty()
    } else {
        let init = epics.drop_last();
        epic_drafts(init).push(epic_draft(epics.last(), init.len())) + story_drafts(
            list_of(epics.last(), "stories"@),
            story_count(init),
        )
    }
}

/// Whether the stories have few enough tasks for 32-bit positions.
pub open spec fn stories_fit(stories: Seq<JsonV>) -> bool {
    forall|i: int|
        0 <= i < stories.len() ==> list_of(#[trigger] stories[i], "tasks"@).len() <= 0x3fff_ffff
}

/// Whether every position is a 32-bit number.
pub open spec fn fits(epics: Seq<JsonV>) -> bool {
    &&& epics.len() <= i32::MAX
    &&& story_count(epics) <= i32::MAX
    &&& forall|i: int|
        0 <= i < epics.len() ==> stories_fit(list_of(#[trigger] epics[i], "stories"@))
}

/// Every epic of a decomposition is drafted, every story with its position among all stories,
/// and every task with its position in its story.
pub proof fn law_every_item_is_drafted(epics: Seq<JsonV>, e: int)
    requires
        0 <= e < epics.len(),
    ensures
        epic_drafts(epics).contains(epic_draft(epics[e], e as nat)),
        forall|s: int|
            0 <= s < list_of(epics[e], "stories"@).len() ==> {
                let story = #[trigger] list_of(epics[e], "stories"@)[s];
                &&& epic_drafts(epics).contains(
                    story_draft(story, story_count(epics.take(e)) + s as nat),
                )
                &&& forall|k: int|
                    0 <= k < list_of(story, "tasks"@).len() ==> epic_drafts(epics).contains(
                        task_draft(#[trigger] list_of(story, "tasks"@)[k], k as nat),
                    )
            },
    decreases epics.len(),
{
    let init = epics.drop_last();
    let n = init.len();
    let before = epic_drafts(init);
    let stories = list_of(epics.last(), "stories"@);
    let below = story_drafts(stories, story_count(init));
    let own = epic_draft(epics.last(), n);
    let all = epic_drafts(epics);
    assert(all == before.push(own) + below);
    if e < n {
        law_every_item_is_drafted(init, e);
        assert(init.take(e) =~= epics.take(e));
        assert forall|d: DraftV| before.contains(d) implies #[trigger] all.contains(d) by {
            let i = choose|i: int| 0 <= i < before.len() && before[i] == d;
            assert(all[i] == d);
        }
    } else {
        assert(epics.take(e) =~= init);
        assert(all[before.len() as int] == own);
        assert forall|s: int| 0 <= s < stories.len() implies ({
            let story = #[trigger] stories[s];
            &&& all.contains(story_draft(story, story_count(init) + s as nat))
            &&& forall|k: int|
                0 <= k < list_of(story, "tasks"@).len() ==> all.contains(
                    task_draft(#[trigger] list_of(story, "tasks"@)[k], k as nat),
                )
        }) by {
            story_is_drafted(stories, story_count(init), s);
            assert forall|d: DraftV| below.contains(d) implies #[trigger] all.contains(d) by {
                let i = choose|i: int| 0 <= i < below.len() && below[i] == d;
                assert(all[before.len() + 1 + i] == d);
            }
        }
    }
}

proof fn story_is_drafted(stories: Seq<JsonV>, first: nat, s: int)
    requires
        0 <= s < stories.len(),
    ensures
        story_drafts(stories, first).contains(story_draft(stories[s], first + s as nat)),
        forall|k: int|
            0 <= k < list_of(stories[s], "tasks"@).len() ==> story_drafts(stories, first).contains(
                task_draft(#[trigger] list_of(stories[s], "tasks"@)[k], k as nat),
            ),
    decreases stories.len(),
{
    let init = stories.drop_last();
    let before = story_drafts(init, first);
    let own = story_draft(stories.last(), first + init.len());
    let tasks = list_of(stories.last(), "tasks"@);
    let all = story_drafts(stories, first);
    assert(all == before.push(own) + task_drafts(tasks));
    if s < init.len() {
        story_is_drafted(init, first, s);
        assert forall|d: DraftV| before.contains(d) implies #[trigger] all.contains(d) by {
            let i = choose|i: int| 0 <= i < before.len() && before[i] == d;
            assert(all[i] == d);
        }
    } else {
        assert(all[before.len() as int] == own);
        assert forall|k: int| 0 <= k < tasks.len() implies all.contains(
            task_draft(#[trigger] tasks[k], k as nat),
        ) by {
            assert(all[before.len() + 1 + k] == task_draft(tasks[k], k as nat));
        }
    }
}

// ---- reading it ----

/// The elements of the member `key`, if it is an array.
fn list_field<'a>(v: &'a Json, key: &str) -> (r: Option<&'a Vec<Json>>)
    ensures
        match r {
            Some(items) => list_of(v@, key@) == crate::json::json_views(items@),
            None => list_of(v@, key@) == Seq::<JsonV>::empty(),
        },
{
    match v.field(key) {
        Some(x) => x.as_array(),
        None => None,
    }
}

fn numbered(letter: &str, n: i32) -> (r: String)
    requires
        n >= 0,
    ensures
        r@ == letter@ + crate::text::decimal(n as nat),
{
    cat(letter, u64_text(n as u64).as_str())
}

proof fn views_push(v: Seq<Draft>, d: Draft)
    ensures
        draft_views(v.push(d)) == draft_views(v).push(d@),
{
    assert(draft_views(v.push(d)) =~= draft_views(v).push(d@));
}

fn push_tasks(out: &mut Vec<Draft>, tasks: &Vec<Json>)
    requires
        tasks@.len() <= 0x3fff_ffff,
    ensures
        draft_views(final(out)@) == draft_views(old(out)@) + task_drafts(
            crate::json::json_views(tasks@),
        ),
{
    let ghost views = crate::json::json_views(tasks@);
    let ghost all = task_drafts(views);
    let ghost start = draft_views(out@);
    let mut k: usize = 0;
    assert(start =~= start + all.take(0));
    while k < tasks.len()
        invariant
            k <= tasks@.len() <= 0x3fff_ffff,
            views == crate::json::json_views(tasks@),
            all == task_drafts(views),
            draft_views(out@) == start + all.take(k as int),
        decreases tasks.len() - k,
    {
        let v = &tasks[k];
        let position: i32 = k as i32;
        let d = Draft::Task {
            short_id: str_or(v, "id", numbered("T", position + 1).as_str()),
            title: str_or(v, "title", "Untitled Task"),
            description: str_or(v, "description", ""),
            acceptance: str_or(v, "acceptance_criteria", ""),
            sort_order: 2 * position,
        };
        proof {
            views_push(out@, d);
            assert(d@ == all[k as int]);
            assert((start + all.take(k as int)).push(d@) =~= start + all.take(k + 1));
        }
        out.push(d);
        k += 1;
    }
    assert(all.take(k as int) =~= all);
}

fn push_stories(out: &mut Vec<Draft>, stories: &Vec<Json>, first: i32)
    requires
        first >= 0,
        first + stories@.len() <= i32::MAX,
        stories_fit(crate::json::json_views(stories@)),
    ensures
        draft_views(final(out)@) == draft_views(old(out)@) + story_drafts(
            crate::json::json_views(stories@),
            first as nat,
        ),
{
    let ghost views = crate::json::json_views(stories@);
    let ghost start = draft_views(out@);
    let mut i: usize = 0;
    assert(start =~= start + story_drafts(views.take(0), first as nat));
    while i < stories.len()
        invariant
            first >= 0,
            first + stories@.len() <= i32::MAX,
            i <= stories@.len(),
            views == crate::json::json_views(stories@),
            stories_fit(views),
            draft_views(out@) == start + story_drafts(views.take(i as int), first as nat),
        decreases stories.len() - i,
    {
        let v = &stories[i];
        let ghost before = story_drafts(views.take(i as int), first as nat);
        assert(views.take(i + 1).drop_last() =~= views.take(i as int));
        assert(views.take(i + 1).last() == v@);
        assert(views[i as int] == v@);
        let position: i32 = first + i as i32;
        let depends_on = match list_field(v, "depends_on") {
            Some(items) => string_items(items),
            None => {
                let none: Vec<String> = Vec::new();
                assert(crate::text::texts_view(none@) =~= strings(Seq::empty()));
                none
            },
        };
        let d = Draft::Story {
            short_id: str_or(v, "id", numbered("S", position + 1).as_str()),
            title: str_or(v, "title", "Untitled Story"),
            description: str_or(v, "description", ""),
            acceptance: str_or(v, "acceptance_criteria", ""),
            depends_on,
            sort_order: position,
        };
        proof {
            views_push(out@, d);
            assert(d@ == story_draft(v@, (first + i) as nat));
        }
        out.push(d);
        let ghost with_story = before.push(d@);
        assert(draft_views(out@) =~= start + with_story);
        match list_field(v, "tasks") {
            Some(tasks) => {
                push_tasks(out, tasks);
            },
            None => {
                assert(task_drafts(Seq::empty()) =~= Seq::empty());
                assert(with_story =~= with_story + task_drafts(Seq::empty()));
            },
        }
        assert(draft_views(out@) =~= start + (with_story + task_drafts(list_of(v@, "tasks"@))));
        i += 1;
    }
    assert(views.take(i as int) =~= views);
}

proof fn counts_grow(epics: Seq<JsonV>, i: int)
    requires
        0 <= i < epics.len(),
    ensures
        story_count(epics.take(i)) + list_of(epics[i], "stories"@).len() <= story_count(epics),
        story_count(epics.take(i + 1)) == story_count(epics.take(i)) + list_of(
            epics[i],
            "stories"@,
        ).len(),
    decreases epics.len(),
{
    assert(epics.take(i + 1).drop_last() =~= epics.take(i));
    assert(epics.take(i + 1).last() == epics[i]);
    if i == epics.len() - 1 {
        assert(epics.take(i + 1) =~= epics);
    } else {
        let init = epics.drop_last();
        counts_grow(init, i);
        assert(init.take(i) =~= epics.take(i));
        assert(init[i] == epics[i]);
    }
}

/// The epics, stories and tasks of a decomposition, in the order in which they are stored.
pub fn read_drafts(epics: &Vec<Json>) -> (r: Vec<Draft>)
    requires
        fits(crate::json::json_views(epics@)),
    ensures
        draft_views(r@) == epic_drafts(crate::json::json_views(epics@)),
{
    let ghost views = crate::json::json_views(epics@);
    let mut out: Vec<Draft> = Vec::new();
    let mut stories_before: i32 = 0;
    let mut i: usize = 0;
    assert(draft_views(out@) =~= epic_drafts(views.take(0)));
    while i < epics.len()
        invariant
            i <= epics@.len(),
            views == crate::json::json_views(epics@),
            fits(views),
            stories_before == story_count(views.take(i as int)),
            draft_views(out@) == epic_drafts(views.take(i as int)),
        decreases epics.len() - i,
    {
        let v = &epics[i];
        let ghost before = epic_drafts(views.take(i as int));
        assert(views.take(i + 1).drop_last() =~= views.take(i as int));
        assert(views.take(i + 1).last() == v@);
        assert(views[i as int] == v@);
        proof {
            counts_grow(views, i as int);
        }
        let position: i32 = i as i32;
        let d = Draft::Epic {
            short_id: str_or(v, "id", numbered("E", position + 1).as_str()),
            title: str_or(v, "title", "Untitled Epic"),
            description: str_or(v, "description", ""),
            sort_order: position,
        };
        proof {
            views_push(out@, d);
            assert(d@ == epic_draft(v@, i as nat));
        }
        out.push(d);
        match list_field(v, "stories") {
            Some(stories) => {
                push_stories(&mut out, stories, stories_before);
                stories_before = stories_before + stories.len() as i32;
            },
            None => {
                assert(before.push(d@) =~= before.push(d@) + story_drafts(
                    Seq::empty(),
                    stories_before as nat,
                ));
            },
        }
        i += 1;
    }
    assert(views.take(i as int) =~= views);
    out
}

/// Whether the epics of a decomposition, if it has any, can be numbered.
pub open spec fn can_read(parsed: JsonV) -> bool {
    match parsed.field("epics"@) {
        Some(JsonV::Arr(epics)) => fits(epics),
        _ => true,
    }
}

/// Whether the epics of a decomposition, if it has any, can be numbered.
pub fn can_number(parsed: &Json) -> (r: bool)
    ensures
        r == can_read(parsed@),
{
    match list_field(parsed, "epics") {
        Some(epics) => drafts_fit(epics),
        None => true,
    }
}

/// Whether the epics can be numbered.
fn drafts_fit(epics: &Vec<Json>) -> (r: bool)
    ensures
        r == fits(crate::json::json_views(epics@)),
{
    let ghost views = crate::json::json_views(epics@);
    if epics.len() > i32::MAX as usize {
        return false;
    }
    let mut count: usize = 0;
    let mut i: usize = 0;
    while i < epics.len()
        invariant
            i <= epics@.len() <= i32::MAX,
            views == crate::json::json_views(epics@),
            count == story_count(views.take(i as int)),
            count <= i32::MAX,
            forall|k: int|
                0 <= k < i ==> stories_fit(list_of(#[trigger] views[k], "stories"@)),
        decreases epics.len() - i,
    {
        let v = &epics[i];
        assert(views[i as int] == v@);
        proof {
            counts_grow(views, i as int);
        }
        match list_field(v, "stories") {
            Some(stories) => {
                if stories.len() > i32::MAX as usize - count {
                    return false;
                }
                count = count + stories.len();
                let ghost inner = crate::json::json_views(stories@);
                let mut j: usize = 0;
                while j < stories.len()
                    invariant
                        j <= stories@.len(),
                        views == crate::json::json_views(epics@),
                        inner == crate::json::json_views(stories@),
                        inner == list_of(views[i as int], "stories"@),
                        i < views.len(),
                        forall|k: int|
                            0 <= k < j ==> list_of(#[trigger] inner[k], "tasks"@).len()
                                <= 0x3fff_ffff,
                    decreases stories.len() - j,
                {
                    assert(inner[j as int] == stories@[j as int]@);
                    match list_field(&stories[j], "tasks") {
                        Some(tasks) => {
                            if tasks.len() > 0x3fff_ffff {
                                assert(!stories_fit(inner));
                                return false;
                            }
                        },
                        None => {},
                    }
                    j += 1;
                }
                assert(stories_fit(inner));
            },
            None => {
                assert(stories_fit(list_of(v@, "stories"@)));
            },
        }
        i += 1;
    }
    assert(views.take(i as int) =~= views);
    true
}

/// The strings among the elements are read, each of them and nothing else.
pub proof fn law_every_string_is_read(items: Seq<JsonV>, t: Seq<char>)
    ensures
        strings(items).contains(t) <==> items.contains(JsonV::Str(t)),
        strings(items).len() == items.filter(|v: JsonV| v is Str).len(),
    decreases items.len(),
{
    reveal(Seq::filter);
    if items.len() > 0 {
        let init = items.drop_last();
        law_every_string_is_read(init, t);
        assert(items =~= init.push(items.last()));
        crate::seqs::push_contains(init, items.last(), JsonV::Str(t));
        match items.last().text() {
            Some(own) => {
                crate::seqs::push_contains(strings(init), own, t);
            },
            None => {},
        }
    }
}

/// A draft says what was proposed, and what it is called where nothing was.
pub proof fn law_a_draft_says_what_was_proposed(v: JsonV, i: nat)
    ensures
        epic_draft(v, i) matches DraftV::Epic { short_id, title, description, sort_order }
            && short_id == match v.field("id"@) {
            Some(JsonV::Str(t)) => t,
            _ => "E"@ + crate::text::decimal(i + 1),
        } && title == match v.field("title"@) {
            Some(JsonV::Str(t)) => t,
            _ => "Untitled Epic"@,
        } && description == match v.field("description"@) {
            Some(JsonV::Str(t)) => t,
            _ => ""@,
        } && sort_order == i,
        story_draft(v, i) matches DraftV::Story {
            short_id,
            title,
            description,
            acceptance,
            depends_on,
            sort_order,
        } && short_id == match v.field("id"@) {
            Some(JsonV::Str(t)) => t,
            _ => "S"@ + crate::text::decimal(i + 1),
        } && title == match v.field("title"@) {
            Some(JsonV::Str(t)) => t,
            _ => "Untitled Story"@,
        } && description == match v.field("description"@) {
            Some(JsonV::Str(t)) => t,
            _ => ""@,
        } && acceptance == match v.field("acceptance_criteria"@) {
            Some(JsonV::Str(t)) => t,
            _ => ""@,
        } && (forall|t: Seq<char>| #[trigger]
            depends_on.contains(t) <==> match v.field("depends_on"@) {
                Some(JsonV::Arr(items)) => items.contains(JsonV::Str(t)),
                _ => false,
            }) && sort_order == i,
        task_draft(v, i) matches DraftV::Task {
            short_id,
            title,
            description,
            acceptance,
            sort_order,
        } && short_id == match v.field("id"@) {
            Some(JsonV::Str(t)) => t,
            _ => "T"@ + crate::text::decimal(i + 1),
        } && title == match v.field("title"@) {
            Some(JsonV::Str(t)) => t,
            _ => "Untitled Task"@,
        } && description == match v.field("description"@) {
            Some(JsonV::Str(t)) => t,
            _ => ""@,
        } && acceptance == match v.field("acceptance_criteria"@) {
            Some(JsonV::Str(t)) => t,
            _ => ""@,
        } && sort_order == 2 * i,
{
    let named = story_draft(v, i)->Story_depends_on;
    assert forall|t: Seq<char>| #[trigger]
        named.contains(t) <==> match v.field("depends_on"@) {
            Some(JsonV::Arr(items)) => items.contains(JsonV::Str(t)),
            _ => false,
        } by {
        law_every_string_is_read(list_of(v, "depends_on"@), t);
    }
}

/// How many drafts the stories take, with their tasks.
pub open spec fn room_of_stories(stories: Seq<JsonV>) -> nat
    decreases stories.len(),
{
    if stories.len() == 0 {
        0
    } else {
        room_of_stories(stories.drop_last()) + 1 + list_of(stories.last(), "tasks"@).len()
    }
}

/// How many drafts the epics take, with their stories and tasks.
pub open spec fn room_of_epics(epics: Seq<JsonV>) -> nat
    decreases epics.len(),
{
    if epics.len() == 0 {
        0
    } else {
        room_of_epics(epics.drop_last()) + 1 + room_of_stories(list_of(epics.last(), "stories"@))
    }
}

proof fn stories_have_their_place(stories: Seq<JsonV>, first: nat, s: int)
    requires
        0 <= s < stories.len(),
    ensures
        story_drafts(stories, first).len() == room_of_stories(stories),
        room_of_stories(stories.take(s)) + 1 + list_of(stories[s], "tasks"@).len()
            <= room_of_stories(stories),
        story_drafts(stories, first)[room_of_stories(stories.take(s)) as int] == story_draft(
            stories[s],
            first + s as nat,
        ),
        forall|k: int|
            0 <= k < list_of(stories[s], "tasks"@).len() ==> #[trigger] story_drafts(
                stories,
                first,
            )[room_of_stories(stories.take(s)) + 1 + k] == task_draft(
                list_of(stories[s], "tasks"@)[k],
                k as nat,
            ),
    decreases stories.len(),
{
    let init = stories.drop_last();
    rooms_of_stories(init, first);
    if s < init.len() {
        stories_have_their_place(init, first, s);
        assert(init.take(s) =~= stories.take(s));
    } else {
        assert(stories.take(s) =~= init);
    }
}

proof fn rooms_of_stories(stories: Seq<JsonV>, first: nat)
    ensures
        story_drafts(stories, first).len() == room_of_stories(stories),
    decreases stories.len(),
{
    if stories.len() > 0 {
        rooms_of_stories(stories.drop_last(), first);
    }
}

proof fn rooms_of_epics(epics: Seq<JsonV>)
    ensures
        epic_drafts(epics).len() == room_of_epics(epics),
    decreases epics.len(),
{
    if epics.len() > 0 {
        rooms_of_epics(epics.drop_last());
        rooms_of_stories(
            list_of(epics.last(), "stories"@),
            story_count(epics.drop_last()),
        );
    }
}

/// The drafts are as many as there are epics, stories and tasks. Each epic comes before its
/// stories and after all that belongs to the epics before it, and each story just before its
/// tasks.
pub proof fn law_every_item_has_its_place(epics: Seq<JsonV>, e: int)
    requires
        0 <= e < epics.len(),
    ensures
        epic_drafts(epics).len() == room_of_epics(epics),
        epic_drafts(epics)[room_of_epics(epics.take(e)) as int] == epic_draft(epics[e], e as nat),
        forall|s: int|
            0 <= s < list_of(epics[e], "stories"@).len() ==> {
                let story = #[trigger] list_of(epics[e], "stories"@)[s];
                let place = room_of_epics(epics.take(e)) + 1 + room_of_stories(
                    list_of(epics[e], "stories"@).take(s),
                );
                &&& epic_drafts(epics)[place as int] == story_draft(
                    story,
                    story_count(epics.take(e)) + s as nat,
                )
                &&& forall|k: int|
                    0 <= k < list_of(story, "tasks"@).len() ==> #[trigger] epic_drafts(epics)[place
                        + 1 + k] == task_draft(list_of(story, "tasks"@)[k], k as nat)
            },
    decreases epics.len(),
{
    let init = epics.drop_last();
    let stories = list_of(epics[e], "stories"@);
    rooms_of_epics(init);
    rooms_of_epics(epics);
    if e < init.len() {
        law_every_item_has_its_place(init, e);
        assert(init.take(e) =~= epics.take(e));
        rooms_are_within(init, e);
    } else {
        assert(epics.take(e) =~= init);
    }
    assert forall|s: int| 0 <= s < stories.len() implies ({
        let story = #[trigger] stories[s];
        let place = room_of_epics(epics.take(e)) + 1 + room_of_stories(stories.take(s));
        &&& epic_drafts(epics)[place as int] == story_draft(
            story,
            story_count(epics.take(e)) + s as nat,
        )
        &&& forall|k: int|
            0 <= k < list_of(story, "tasks"@).len() ==> #[trigger] epic_drafts(epics)[place + 1 + k]
                == task_draft(list_of(story, "tasks"@)[k], k as nat)
    }) by {
        let story = stories[s];
        let tasks = list_of(story, "tasks"@);
        let place = room_of_epics(epics.take(e)) + 1 + room_of_stories(stories.take(s));
        stories_have_their_place(stories, story_count(epics.take(e)), s);
        if e < init.len() {
            assert(list_of(init[e], "stories"@)[s] == story);
            assert(epic_drafts(epics)[place as int] == epic_drafts(init)[place as int]);
            assert forall|k: int| 0 <= k < tasks.len() implies #[trigger] epic_drafts(epics)[place
                + 1 + k] == task_draft(tasks[k], k as nat) by {
                assert(epic_drafts(init)[place + 1 + k] == task_draft(tasks[k], k as nat));
            }
        } else {
            let below = story_drafts(stories, story_count(init));
            let before = epic_drafts(init).push(epic_draft(epics.last(), init.len()));
            assert(epic_drafts(epics) == before + below);
            assert(epic_drafts(epics)[place as int] == below[place - before.len()]);
            assert forall|k: int| 0 <= k < tasks.len() implies #[trigger] epic_drafts(epics)[place
                + 1 + k] == task_draft(tasks[k], k as nat) by {
                assert(epic_drafts(epics)[place + 1 + k] == below[room_of_stories(stories.take(s))
                    + 1 + k]);
            }
        }
    }
}

proof fn rooms_are_within(epics: Seq<JsonV>, e: int)
    requires
        0 <= e < epics.len(),
    ensures
        room_of_epics(epics.take(e)) + 1 + room_of_stories(list_of(epics[e], "stories"@))
            <= room_of_epics(epics),
    decreases epics.len(),
{
    let init = epics.drop_last();
    if e < init.len() {
        rooms_are_within(init, e);
        assert(init.take(e) =~= epics.take(e));
    } else {
        assert(epics.take(e) =~= init);
    }
}

} // verus!
