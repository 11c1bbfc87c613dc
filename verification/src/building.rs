//! Making the work items of a wave out of its drafts.
use vstd::prelude::*;
use crate::drafts::{Draft, DraftV};
use crate::ident::Uuid;
use crate::model::{ItemType, NewItem, WorkItem};

verus! {

/// The wave that is being filled.
pub struct Batch {
    pub session: Uuid,
    pub wave: u32,
    pub specs: Vec<Uuid>,
    pub project: Uuid,
}

/// The drafts, of which the first `made` are stored, and what was made of those.
pub struct Builder {
    pub batch: Batch,
    pub drafts: Vec<Draft>,
    pub made: usize,
    /// The latest epic and the latest story.
    pub epic: Option<Uuid>,
    pub story: Option<Uuid>,
    pub epics: usize,
    pub stories: Vec<WorkItem>,
    /// Each story by the identifier that its draft has.
    pub names: Vec<(String, Uuid)>,
    pub tasks: Vec<WorkItem>,
}

impl Builder {
    pub open spec fn valid(self) -> bool {
        self.epics <= self.made <= self.drafts.len()
    }

    /// Whether nothing has been made of the drafts yet.
    pub open spec fn fresh(self, batch: Batch, drafts: Seq<DraftV>) -> bool {
        &&& self.batch == batch
        &&& crate::drafts::draft_views(self.drafts@) == drafts
        &&& self.made == 0
        &&& self.epic is None
        &&& self.story is None
        &&& self.epics == 0
        &&& self.stories@.len() == 0
        &&& self.names@.len() == 0
        &&& self.tasks@.len() == 0
    }

    pub fn new(batch: Batch, drafts: Vec<Draft>) -> (b: Builder)
        ensures
            b.fresh(batch, crate::drafts::draft_views(drafts@)),
            b.valid(),
            b.drafts == drafts,
    {
        Builder {
            batch,
            drafts,
            made: 0,
            epic: None,
            story: None,
            epics: 0,
            stories: Vec::new(),
            names: Vec::new(),
            tasks: Vec::new(),
        }
    }

    /// Whether `item` is what the next draft is to become: below the latest epic or story.
    pub open spec fn wants(self, item: NewItem) -> bool {
        &&& item.session == self.batch.session
        &&& match self.drafts@[self.made as int] {
            Draft::Epic { short_id, title, description, sort_order } => {
                &&& item.item_type == ItemType::Epic
                &&& item.parent is None
                &&& item.title == title
                &&& item.description == description
                &&& item.acceptance is None
                &&& item.short_id == short_id
                &&& item.sort_order == sort_order
            },
            Draft::Story { short_id, title, description, acceptance, sort_order, .. } => {
                &&& item.item_type == ItemType::Story
                &&& item.parent == self.epic
                &&& item.title == title
                &&& item.description == description
                &&& item.acceptance == Some(acceptance)
                &&& item.short_id == short_id
                &&& item.sort_order == sort_order
            },
            Draft::Task { short_id, title, description, acceptance, sort_order } => {
                &&& item.item_type == ItemType::Task
                &&& item.parent == self.story
                &&& item.title == title
                &&& item.description == description
                &&& item.acceptance == Some(acceptance)
                &&& item.short_id == short_id
                &&& item.sort_order == sort_order
            },
        }
    }

    pub fn next_item(&self) -> (item: NewItem)
        requires
            self.made < self.drafts.len(),
        ensures
            self.wants(item),
    {
        let session = self.batch.session;
        match &self.drafts[self.made] {
            Draft::Epic { short_id, title, description, sort_order } => NewItem {
                session,
                parent: None,
                item_type: ItemType::Epic,
                title: title.clone(),
                description: description.clone(),
                acceptance: None,
                short_id: short_id.clone(),
                sort_order: *sort_order,
            },
            Draft::Story { short_id, title, description, acceptance, sort_order, .. } => NewItem {
                session,
                parent: self.epic,
                item_type: ItemType::Story,
                title: title.clone(),
                description: description.clone(),
                acceptance: Some(acceptance.clone()),
                short_id: short_id.clone(),
                sort_order: *sort_order,
            },
            Draft::Task { short_id, title, description, acceptance, sort_order } => NewItem {
                session,
                parent: self.story,
                item_type: ItemType::Task,
                title: title.clone(),
                description: description.clone(),
                acceptance: Some(acceptance.clone()),
                short_id: short_id.clone(),
                sort_order: *sort_order,
            },
        }
    }

    /// How a failure to store the next item is reported.
    pub open spec fn insert_error(self) -> Seq<char> {
        match self.drafts@[self.made as int] {
            Draft::Epic { .. } => "failed to insert epic: "@,
            Draft::Story { .. } => "failed to insert story: "@,
            Draft::Task { .. } => "failed to insert task: "@,
        }
    }

    pub fn error_prefix(&self) -> (r: &'static str)
        requires
            self.made < self.drafts.len(),
        ensures
            r@ == self.insert_error(),
    {
        match &self.drafts[self.made] {
            Draft::Epic { .. } => "failed to insert epic: ",
            Draft::Story { .. } => "failed to insert story: ",
            Draft::Task { .. } => "failed to insert task: ",
        }
    }

    /// Whether `after` is this builder once the next draft is stored as `item`.
    pub open spec fn took(self, item: WorkItem, after: Builder) -> bool {
        &&& after.batch == self.batch
        &&& after.drafts == self.drafts
        &&& after.made == self.made + 1
        &&& match self.drafts@[self.made as int] {
            Draft::Epic { .. } => {
                &&& after.epic == Some(item.id)
                &&& after.story == self.story
                &&& after.epics == self.epics + 1
                &&& after.stories == self.stories
                &&& after.names == self.names
                &&& after.tasks == self.tasks
            },
            Draft::Story { short_id, .. } => {
                &&& after.epic == self.epic
                &&& after.story == Some(item.id)
                &&& after.epics == self.epics
                &&& after.stories@ == self.stories@.push(item)
                &&& after.names@ == self.names@.push((short_id, item.id))
                &&& after.tasks == self.tasks
            },
            Draft::Task { .. } => {
                &&& after.epic == self.epic
                &&& after.story == self.story
                &&& after.epics == self.epics
                &&& after.stories == self.stories
                &&& after.names == self.names
                &&& after.tasks@ == self.tasks@.push(item)
            },
        }
    }

    pub fn take(self, item: WorkItem) -> (after: Builder)
        requires
            self.valid(),
            self.made < self.drafts.len(),
        ensures
            self.took(item, after),
            after.valid(),
    {
        let mut b = self;
        let kind: u8 = match &b.drafts[b.made] {
            Draft::Epic { .. } => 0,
            Draft::Story { .. } => 1,
            Draft::Task { .. } => 2,
        };
        if kind == 0 {
            b.epic = Some(item.id);
            b.epics = b.epics + 1;
        } else if kind == 1 {
            let name = match &b.drafts[b.made] {
                Draft::Story { short_id, .. } => short_id.clone(),
                _ => String::new(),
            };
            b.story = Some(item.id);
            b.names.push((name, item.id));
            b.stories.push(item);
        } else {
            b.tasks.push(item);
        }
        b.made = b.made + 1;
        b
    }
}

/// The story that has the identifier `name`; of several, the last.
pub open spec fn named_story(names: Seq<(String, Uuid)>, name: Seq<char>) -> Option<Uuid>
    decreases names.len(),
{
    if names.len() == 0 {
        None
    } else if names.last().0@ == name {
        Some(names.last().1)
    } else {
        named_story(names.drop_last(), name)
    }
}

pub fn find_named(names: &Vec<(String, Uuid)>, name: &str) -> (r: Option<Uuid>)
    ensures
        r == named_story(names@, name@),
{
    let mut i: usize = names.len();
    assert(names@.take(i as int) =~= names@);
    while i > 0
        invariant
            i <= names@.len(),
            named_story(names@, name@) == named_story(names@.take(i as int), name@),
        decreases i,
    {
        assert(names@.take(i as int).last() == names@[i - 1]);
        assert(names@.take(i as int).drop_last() =~= names@.take(i - 1));
        if crate::json::str_eq(names[i - 1].0.as_str(), name) {
            return Some(names[i - 1].1);
        }
        i -= 1;
    }
    None
}

/// Which story is held up by which, by the identifiers that the drafts give, in their order.
pub open spec fn links(drafts: Seq<DraftV>) -> Seq<(Seq<char>, Seq<char>)>
    decreases drafts.len(),
{
    if drafts.len() == 0 {
        Seq::empty()
    } else {
        links(drafts.drop_last()) + match drafts.last() {
            DraftV::Story { short_id, depends_on, .. } => depends_on.map_values(
                |d: Seq<char>| (short_id, d),
            ),
            _ => Seq::empty(),
        }
    }
}

pub open spec fn link_views(v: Seq<(String, String)>) -> Seq<(Seq<char>, Seq<char>)> {
    v.map_values(|l: (String, String)| (l.0@, l.1@))
}

pub fn dependency_links(drafts: &Vec<Draft>) -> (r: Vec<(String, String)>)
    ensures
        link_views(r@) == links(crate::drafts::draft_views(drafts@)),
{
    let ghost views = crate::drafts::draft_views(drafts@);
    let mut out: Vec<(String, String)> = Vec::new();
    let mut i: usize = 0;
    assert(link_views(out@) =~= links(views.take(0)));
    while i < drafts.len()
        invariant
            i <= drafts@.len(),
            views == crate::drafts::draft_views(drafts@),
            link_views(out@) == links(views.take(i as int)),
        decreases drafts.len() - i,
    {
        let ghost before = links(views.take(i as int));
        assert(views.take(i + 1).drop_last() =~= views.take(i as int));
        assert(views.take(i + 1).last() == drafts@[i as int]@);
        match &drafts[i] {
            Draft::Story { short_id, depends_on, .. } => {
                let ghost found = crate::text::texts_view(depends_on@).map_values(
                    |d: Seq<char>| (short_id@, d),
                );
                let mut k: usize = 0;
                assert(before =~= before + found.take(0));
                while k < depends_on.len()
                    invariant
                        k <= depends_on@.len(),
                        found == crate::text::texts_view(depends_on@).map_values(
                            |d: Seq<char>| (short_id@, d),
                        ),
                        link_views(out@) == before + found.take(k as int),
                    decreases depends_on.len() - k,
                {
                    let ghost so_far = link_views(out@);
                    out.push((short_id.clone(), depends_on[k].clone()));
                    assert(link_views(out@) =~= so_far.push(
                        (short_id@, depends_on@[k as int]@),
                    ));
                    assert(found.take(k + 1) =~= found.take(k as int).push(found[k as int]));
                    assert(link_views(out@) =~= before + found.take(k + 1));
                    k += 1;
                }
                assert(found.take(k as int) =~= found);
            },
            _ => {
                assert(before =~= before + Seq::empty());
            },
        }
        i += 1;
    }
    assert(views.take(i as int) =~= views);
    out
}

/// How many stories hold up others, counted once for each that they hold up.
pub open spec fn depends_total(drafts: Seq<DraftV>) -> nat
    decreases drafts.len(),
{
    if drafts.len() == 0 {
        0
    } else {
        depends_total(drafts.drop_last()) + match drafts.last() {
            DraftV::Story { depends_on, .. } => depends_on.len(),
            _ => 0,
        }
    }
}

/// Every story is linked with every story that it depends on, and nothing else is linked: each
/// link is of one of the drafts, and there are as many as the drafts name.
pub proof fn law_every_dependency_is_linked(drafts: Seq<DraftV>)
    ensures
        links(drafts).len() == depends_total(drafts),
        forall|i: int, j: int|
            0 <= i < drafts.len() && drafts[i] is Story && 0 <= j < drafts[i]->depends_on.len()
                ==> links(drafts).contains(
                (drafts[i]->Story_short_id, #[trigger] drafts[i]->depends_on[j]),
            ),
        forall|l: (Seq<char>, Seq<char>)| #[trigger]
            links(drafts).contains(l) ==> exists|i: int|
                0 <= i < drafts.len() && (#[trigger] drafts[i] matches DraftV::Story {
                    short_id,
                    depends_on,
                    ..
                } && short_id == l.0 && depends_on.contains(l.1)),
    decreases drafts.len(),
{
    if drafts.len() > 0 {
        let init = drafts.drop_last();
        law_every_dependency_is_linked(init);
        let before = links(init);
        let all = links(drafts);
        let more = all.skip(before.len() as int);
        assert(all =~= before + more);
        match drafts.last() {
            DraftV::Story { short_id, depends_on, .. } => {
                let f = |d: Seq<char>| (short_id, d);
                let own = depends_on.map_values(f);
                assert(all == before + own);
                assert forall|i: int, j: int|
                    0 <= i < drafts.len() && drafts[i] is Story && 0 <= j
                        < drafts[i]->depends_on.len() implies all.contains(
                    (drafts[i]->Story_short_id, #[trigger] drafts[i]->depends_on[j]),
                ) by {
                    let l = (drafts[i]->Story_short_id, drafts[i]->depends_on[j]);
                    if i < init.len() {
                        assert(init[i] == drafts[i]);
                        assert(init[i]->depends_on[j] == l.1);
                        assert(before.contains(l));
                        let k = choose|k: int| 0 <= k < before.len() && before[k] == l;
                        assert(all[k] == l);
                    } else {
                        assert(own[j] == l);
                        assert(all[before.len() + j] == l);
                    }
                }
                assert forall|l: (Seq<char>, Seq<char>)| #[trigger]
                    all.contains(l) implies exists|i: int|
                    0 <= i < drafts.len() && (#[trigger] drafts[i] matches DraftV::Story {
                        short_id: s,
                        depends_on: d,
                        ..
                    } && s == l.0 && d.contains(l.1)) by {
                    let k = choose|k: int| 0 <= k < all.len() && all[k] == l;
                    if k < before.len() {
                        assert(before[k] == l);
                        assert(before.contains(l));
                        let i = choose|i: int|
                            0 <= i < init.len() && (#[trigger] init[i] matches DraftV::Story {
                                short_id: s,
                                depends_on: d,
                                ..
                            } && s == l.0 && d.contains(l.1));
                        assert(drafts[i] == init[i]);
                    } else {
                        assert(own[k - before.len()] == l);
                        assert(depends_on[k - before.len()] == l.1);
                        assert(drafts[drafts.len() - 1] == drafts.last());
                    }
                }
            },
            _ => {
                assert(all =~= before);
                assert forall|i: int, j: int|
                    0 <= i < drafts.len() && drafts[i] is Story && 0 <= j
                        < drafts[i]->depends_on.len() implies all.contains(
                    (drafts[i]->Story_short_id, #[trigger] drafts[i]->depends_on[j]),
                ) by {
                    assert(init[i] == drafts[i]);
                    assert(init[i]->depends_on[j] == drafts[i]->depends_on[j]);
                }
                assert forall|l: (Seq<char>, Seq<char>)| #[trigger]
                    all.contains(l) implies exists|i: int|
                    0 <= i < drafts.len() && (#[trigger] drafts[i] matches DraftV::Story {
                        short_id: s,
                        depends_on: d,
                        ..
                    } && s == l.0 && d.contains(l.1)) by {
                    let i = choose|i: int|
                        0 <= i < init.len() && (#[trigger] init[i] matches DraftV::Story {
                            short_id: s,
                            depends_on: d,
                            ..
                        } && s == l.0 && d.contains(l.1));
                    assert(drafts[i] == init[i]);
                }
            },
        }
    }
}

/// The story that is found by a name has it, and no later one has it; none is found exactly if
/// none has it.
pub proof fn law_the_last_named_is_found(names: Seq<(String, Uuid)>, name: Seq<char>)
    ensures
        match named_story(names, name) {
            Some(id) => exists|i: int|
                0 <= i < names.len() && (#[trigger] names[i]).0@ == name && names[i].1 == id
                    && forall|k: int|
                    i < k < names.len() ==> (#[trigger] names[k]).0@ != name,
            None => forall|k: int| 0 <= k < names.len() ==> (#[trigger] names[k]).0@ != name,
        },
    decreases names.len(),
{
    if names.len() > 0 {
        let n = names.len() - 1;
        if names.last().0@ == name {
            assert(names[n].0@ == name);
        } else {
            let init = names.drop_last();
            law_the_last_named_is_found(init, name);
            assert forall|k: int| 0 <= k < n implies names[k] == #[trigger] init[k] by {}
            match named_story(init, name) {
                Some(id) => {
                    let i = choose|i: int|
                        0 <= i < init.len() && (#[trigger] init[i]).0@ == name && init[i].1 == id
                            && forall|k: int|
                            i < k < init.len() ==> (#[trigger] init[k]).0@ != name;
                    assert(names[i] == init[i]);
                    assert forall|k: int| i < k < names.len() implies (#[trigger] names[k]).0@
                        != name by {
                        if k < n {
                            assert(init[k] == names[k]);
                        }
                    }
                },
                None => {
                    assert forall|k: int| 0 <= k < names.len() implies (#[trigger] names[k]).0@
                        != name by {
                        if k < n {
                            assert(init[k] == names[k]);
                        }
                    }
                },
            }
        }
    }
}

} // verus!
