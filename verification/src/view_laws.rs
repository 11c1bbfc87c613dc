//! What the answers of `exec.status`, `project.list` and `worktree.list` tell.
use vstd::prelude::*;
use crate::json::JsonV;
use crate::model::{DecompositionSession, ItemType, Project, WaveStory, WorkItem, WorkItemStatus};
use crate::status::TaskRuns;

verus! {

/// How many of the items have the status.
pub open spec fn number_in(items: Seq<WorkItem>, status: WorkItemStatus) -> nat
    decreases items.len(),
{
    if items.len() == 0 {
        0
    } else {
        number_in(items.drop_last(), status) + if items.last().status == status {
            1nat
        } else {
            0nat
        }
    }
}

proof fn number_is_count(items: Seq<WorkItem>, status: WorkItemStatus)
    ensures
        crate::status::count_of(items, status) == number_in(items, status),
    decreases items.len(),
{
    reveal(Seq::filter);
    if items.len() > 0 {
        number_is_count(items.drop_last(), status);
    }
}

/// A task is told with its state, and with what is known of its runs: how many there were, and
/// how the latest one went.
pub proof fn law_a_task_is_told(t: WorkItem, known: Option<TaskRuns>, wave: u32)
    ensures
        ({
            let data = crate::status::task_status(t, known, wave);
            &&& data.text_field("short_id"@) == Some(
                crate::plan_view::wave_id(wave, t.short_id@),
            )
            &&& data.text_field("title"@) == Some(t.title@)
            &&& data.text_field("status"@) == Some(t.status.name())
            &&& data.text_field("kind"@) == (match t.kind {
                Some(k) => Some(k.name()),
                None => None,
            })
            &&& data.field("retry_count"@) == Some(
                JsonV::Int(
                    if known is Some {
                        known->0.count as int
                    } else {
                        0
                    },
                ),
            )
            &&& data.field("error_message"@) == Some(JsonV::optional_text(t.error_message))
            &&& known is Some && known->0.latest is Some ==> {
                let run = known->0.latest->0;
                &&& data.text_field("started_at"@) == Some(run.started_at.text())
                &&& run.exit_code is Some ==> data.field("exit_code"@) == Some(
                    JsonV::Int(run.exit_code->0 as int),
                )
                &&& run.finished_at is Some ==> data.text_field("finished_at"@) == Some(
                    run.finished_at->0.text(),
                )
                &&& run.exit_code is None ==> data.field("exit_code"@) == Some(JsonV::Null)
                &&& run.finished_at is None ==> data.field("finished_at"@) == Some(JsonV::Null)
            }
            &&& !(known is Some && known->0.latest is Some) ==> data.field("started_at"@) == Some(
                JsonV::Null,
            ) && data.field("exit_code"@) == Some(JsonV::Null) && data.field("finished_at"@)
                == Some(JsonV::Null)
        }),
{
    broadcast use crate::histories::field_of_with;

    reveal_strlit("short_id");
    reveal_strlit("title");
    reveal_strlit("status");
    reveal_strlit("kind");
    reveal_strlit("exit_code");
    reveal_strlit("retry_count");
    reveal_strlit("started_at");
    reveal_strlit("finished_at");
    reveal_strlit("error_message");
    assert("short_id"@.len() == 8);
    assert("title"@.len() == 5);
    assert("status"@.len() == 6);
    assert("kind"@.len() == 4);
    assert("exit_code"@.len() == 9);
    assert("retry_count"@.len() == 11 && "retry_count"@[0] == 'r');
    assert("started_at"@.len() == 10);
    assert("finished_at"@.len() == 11 && "finished_at"@[0] == 'f');
    assert("error_message"@.len() == 13);
}

/// When work on the item ended: its last change, where it is done, failed or cancelled.
pub open spec fn tells_end(item: WorkItem, end: Option<JsonV>) -> bool {
    end == Some(
        if item.status == WorkItemStatus::Done || item.status == WorkItemStatus::Failed
            || item.status == WorkItemStatus::Cancelled {
            JsonV::Str(item.updated_at.text())
        } else {
            JsonV::Null
        },
    )
}

/// A story is told with its state, and with each of its tasks.
pub proof fn law_a_story_is_told(
    s: WorkItem,
    items: Seq<WorkItem>,
    runs: Seq<TaskRuns>,
    wave: u32,
)
    ensures
        ({
            let data = crate::status::story_status(s, items, runs, wave);
            let tasks = items.filter(
                |i: WorkItem| i.item_type == ItemType::Task && i.parent_id == Some(s.id),
            );
            &&& data.text_field("short_id"@) == Some(
                crate::plan_view::wave_id(wave, s.short_id@),
            )
            &&& data.text_field("title"@) == Some(s.title@)
            &&& data.text_field("status"@) == Some(s.status.name())
            &&& data.field("branch_name"@) == Some(JsonV::optional_text(s.branch_name))
            &&& data.field("mr_url"@) == Some(JsonV::optional_text(s.mr_url))
            &&& data.field("worktree_path"@) == Some(JsonV::optional_text(s.worktree_path))
            &&& data.text_field("started_at"@) == Some(s.created_at.text())
            &&& tells_end(s, data.field("finished_at"@))
            &&& data.field("error_message"@) == Some(JsonV::optional_text(s.error_message))
            &&& data.field("tasks"@) matches Some(JsonV::Arr(entries))
            &&& entries.len() == tasks.len()
            &&& forall|i: int|
                0 <= i < tasks.len() ==> #[trigger] entries[i] == crate::status::task_status(
                    tasks[i],
                    crate::status::runs_of(crate::status::task_ids(items), runs, tasks[i].id),
                    wave,
                )
        }),
{
    broadcast use crate::histories::field_of_with;

    reveal_strlit("short_id");
    reveal_strlit("title");
    reveal_strlit("status");
    reveal_strlit("branch_name");
    reveal_strlit("mr_url");
    reveal_strlit("worktree_path");
    reveal_strlit("started_at");
    reveal_strlit("finished_at");
    reveal_strlit("tasks");
    reveal_strlit("error_message");
    assert("short_id"@.len() == 8);
    assert("title"@.len() == 5 && "title"@[1] == 'i');
    assert("tasks"@.len() == 5 && "tasks"@[1] == 'a');
    assert("status"@.len() == 6 && "status"@[0] == 's');
    assert("mr_url"@.len() == 6 && "mr_url"@[0] == 'm');
    assert("branch_name"@.len() == 11 && "branch_name"@[0] == 'b');
    assert("worktree_path"@.len() == 13 && "worktree_path"@[0] == 'w');
    assert("started_at"@.len() == 10);
    assert("finished_at"@.len() == 11 && "finished_at"@[0] == 'f');
    assert("error_message"@.len() == 13 && "error_message"@[0] == 'e');
}

/// An epic is told with its state, and with each of its stories.
pub proof fn law_an_epic_is_told(
    e: WorkItem,
    items: Seq<WorkItem>,
    runs: Seq<TaskRuns>,
    wave: u32,
)
    ensures
        ({
            let data = crate::status::epic_status(e, items, runs, wave);
            let stories = items.filter(
                |i: WorkItem| i.item_type == ItemType::Story && i.parent_id == Some(e.id),
            );
            &&& data.text_field("short_id"@) == Some(
                crate::plan_view::wave_id(wave, e.short_id@),
            )
            &&& data.text_field("title"@) == Some(e.title@)
            &&& data.text_field("status"@) == Some(e.status.name())
            &&& data.text_field("started_at"@) == Some(e.created_at.text())
            &&& tells_end(e, data.field("finished_at"@))
            &&& data.field("error_message"@) == Some(JsonV::optional_text(e.error_message))
            &&& data.field("stories"@) matches Some(JsonV::Arr(entries))
            &&& entries.len() == stories.len()
            &&& forall|i: int|
                0 <= i < stories.len() ==> #[trigger] entries[i] == crate::status::story_status(
                    stories[i],
                    items,
                    runs,
                    wave,
                )
        }),
{
    broadcast use crate::histories::field_of_with;

    reveal_strlit("short_id");
    reveal_strlit("title");
    reveal_strlit("status");
    reveal_strlit("started_at");
    reveal_strlit("finished_at");
    reveal_strlit("stories");
    reveal_strlit("error_message");
    assert("short_id"@.len() == 8);
    assert("title"@.len() == 5);
    assert("stories"@.len() == 7);
    assert("status"@.len() == 6);
    assert("started_at"@.len() == 10);
    assert("finished_at"@.len() == 11);
    assert("error_message"@.len() == 13);
}

/// A summary counts the stories, all of them and those in each state.
pub open spec fn sums_up(stories: Seq<WorkItem>, data: JsonV) -> bool {
    &&& data.field("total"@) == Some(JsonV::Int((stories.len() as u32) as int))
    &&& data.field("pending"@) == Some(
        JsonV::Int(number_in(stories, WorkItemStatus::Pending) as int),
    )
    &&& data.field("ready"@) == Some(JsonV::Int(number_in(stories, WorkItemStatus::Ready) as int))
    &&& data.field("running"@) == Some(
        JsonV::Int(number_in(stories, WorkItemStatus::InProgress) as int),
    )
    &&& data.field("done"@) == Some(JsonV::Int(number_in(stories, WorkItemStatus::Done) as int))
    &&& data.field("failed"@) == Some(JsonV::Int(number_in(stories, WorkItemStatus::Failed) as int))
    &&& data.field("cancelled"@) == Some(
        JsonV::Int(number_in(stories, WorkItemStatus::Cancelled) as int),
    )
}

pub proof fn law_a_summary_sums_up(stories: Seq<WorkItem>)
    ensures
        sums_up(stories, crate::status::summary_view(stories)),
{
    broadcast use crate::histories::field_of_with;

    reveal_strlit("total");
    reveal_strlit("pending");
    reveal_strlit("ready");
    reveal_strlit("running");
    reveal_strlit("done");
    reveal_strlit("failed");
    reveal_strlit("cancelled");
    assert("total"@.len() == 5 && "total"@[0] == 't');
    assert("ready"@.len() == 5 && "ready"@[0] == 'r');
    assert("pending"@.len() == 7 && "pending"@[0] == 'p');
    assert("running"@.len() == 7 && "running"@[0] == 'r');
    assert("done"@.len() == 4);
    assert("failed"@.len() == 6);
    assert("cancelled"@.len() == 9);
    number_is_count(stories, WorkItemStatus::Pending);
    number_is_count(stories, WorkItemStatus::Ready);
    number_is_count(stories, WorkItemStatus::InProgress);
    number_is_count(stories, WorkItemStatus::Done);
    number_is_count(stories, WorkItemStatus::Failed);
    number_is_count(stories, WorkItemStatus::Cancelled);
}

/// A wave is told with its state, a summary of its stories, and each of its epics.
pub proof fn law_a_wave_is_told(
    session: DecompositionSession,
    items: Seq<WorkItem>,
    runs: Seq<TaskRuns>,
)
    ensures
        ({
            let data = crate::status::wave_status(session, items, runs);
            let epics = items.filter(|i: WorkItem| i.item_type == ItemType::Epic);
            &&& data.field("wave_number"@) == Some(JsonV::Int(session.wave_number as int))
            &&& data.text_field("status"@) == Some(session.status.name())
            &&& data.field("error_message"@) == Some(JsonV::optional_text(session.error_message))
            &&& data.field("summary"@) is Some
            &&& sums_up(
                items.filter(|i: WorkItem| i.item_type == ItemType::Story),
                data.field("summary"@)->0,
            )
            &&& data.field("epics"@) matches Some(JsonV::Arr(entries))
            &&& entries.len() == epics.len()
            &&& forall|i: int|
                0 <= i < epics.len() ==> #[trigger] entries[i] == crate::status::epic_status(
                    epics[i],
                    items,
                    runs,
                    session.wave_number,
                )
        }),
{
    broadcast use crate::histories::field_of_with;

    reveal_strlit("wave_number");
    reveal_strlit("status");
    reveal_strlit("error_message");
    reveal_strlit("summary");
    reveal_strlit("epics");
    assert("wave_number"@.len() == 11);
    assert("status"@.len() == 6);
    assert("error_message"@.len() == 13);
    assert("summary"@.len() == 7);
    assert("epics"@.len() == 5);
    law_a_summary_sums_up(items.filter(|i: WorkItem| i.item_type == ItemType::Story));
}

/// A project is told with its settings and with what there is of it.
pub proof fn law_a_project_is_told(p: Project, specs: u32, stories: u32, agents: u32)
    ensures
        ({
            let data = crate::projects::project_entry(p, specs, stories, agents);
            &&& data.text_field("name"@) == Some(p.name@)
            &&& data.text_field("path"@) == Some(p.path@)
            &&& data.text_field("base_branch"@) == Some(p.base_branch@)
            &&& data.text_field("git_provider"@) == Some(p.git_provider.name())
            &&& data.truth_field("execution_enabled"@) == Some(p.execution_enabled)
            &&& data.field("spec_count"@) == Some(JsonV::Int(specs as int))
            &&& data.field("story_count"@) == Some(JsonV::Int(stories as int))
            &&& data.field("active_agent_count"@) == Some(JsonV::Int(agents as int))
        }),
{
    broadcast use crate::histories::field_of_with;

    reveal_strlit("name");
    reveal_strlit("path");
    reveal_strlit("base_branch");
    reveal_strlit("git_provider");
    reveal_strlit("execution_enabled");
    reveal_strlit("spec_count");
    reveal_strlit("story_count");
    reveal_strlit("active_agent_count");
    assert("name"@.len() == 4 && "name"@[0] == 'n');
    assert("path"@.len() == 4 && "path"@[0] == 'p');
    assert("base_branch"@.len() == 11 && "base_branch"@[0] == 'b');
    assert("story_count"@.len() == 11 && "story_count"@[0] == 's');
    assert("git_provider"@.len() == 12);
    assert("execution_enabled"@.len() == 17);
    assert("spec_count"@.len() == 10);
    assert("active_agent_count"@.len() == 18);
}

/// A listing of worktrees has one entry for each story, in their order, and the entry tells of
/// that story.
pub proof fn law_a_listing_tells_of_each_worktree(name: Seq<char>, stories: Seq<WaveStory>)
    ensures
        ({
            let data = crate::worktrees::listed(name, stories);
            &&& data.text_field("project"@) == Some(name)
            &&& data.field("count"@) == Some(JsonV::Int(stories.len() as int))
            &&& data.field("worktrees"@) matches Some(JsonV::Arr(entries))
            &&& entries.len() == stories.len()
            &&& forall|i: int|
                0 <= i < stories.len() ==> tells_of_worktree(stories[i], #[trigger] entries[i])
        }),
{
    broadcast use crate::histories::field_of_with;

    reveal_strlit("project");
    reveal_strlit("count");
    reveal_strlit("worktrees");
    assert("project"@.len() == 7);
    assert("count"@.len() == 5);
    assert("worktrees"@.len() == 9);
    let entries = stories.map_values(|s: WaveStory| crate::worktrees::worktree_entry(s));
    assert forall|i: int| 0 <= i < stories.len() implies tells_of_worktree(
        stories[i],
        #[trigger] entries[i],
    ) by {
        worktree_fields(stories[i]);
        assert(entries[i] == crate::worktrees::worktree_entry(stories[i]));
    }
}

pub open spec fn tells_of_worktree(s: WaveStory, entry: JsonV) -> bool {
    &&& s.story.worktree_path is Some ==> entry.text_field("path"@) == Some(
        s.story.worktree_path->0@,
    )
    &&& s.story.branch_name is Some ==> entry.text_field("branch"@) == Some(
        s.story.branch_name->0@,
    )
    &&& entry.text_field("story_id"@) == Some(
        crate::plan_view::wave_id(s.wave, s.story.short_id@),
    )
    &&& entry.text_field("status"@) == Some(s.story.status.name())
}

proof fn worktree_fields(s: WaveStory)
    ensures
        tells_of_worktree(s, crate::worktrees::worktree_entry(s)),
{
    broadcast use crate::histories::field_of_with;

    reveal_strlit("path");
    reveal_strlit("branch");
    reveal_strlit("story_id");
    reveal_strlit("status");
    assert("path"@.len() == 4);
    assert("branch"@.len() == 6 && "branch"@[0] == 'b');
    assert("status"@.len() == 6 && "status"@[0] == 's');
    assert("story_id"@.len() == 8);
}

} // verus!
