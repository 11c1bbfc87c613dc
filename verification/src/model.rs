//! The records that the daemon keeps: projects, specs, decomposition waves, work items and
//! agent runs.
use vstd::prelude::*;
use crate::ident::{Timestamp, Uuid};

verus! {

#[derive(Debug, Clone, Copy, PartialEq, Eq, Structural)]
pub enum GitProvider {
    Github,
    Gitlab,
}

/// The name of a provider in answers.
pub fn git_provider_str(provider: GitProvider) -> (r: &'static str)
    ensures
        r@ == provider.name(),
{
    match provider {
        GitProvider::Github => "github",
        GitProvider::Gitlab => "gitlab",
    }
}

impl GitProvider {
    pub open spec fn name(self) -> Seq<char> {
        match self {
            GitProvider::Github => "github"@,
            GitProvider::Gitlab => "gitlab"@,
        }
    }
}

/// The provider that `s` names, in whatever case.
pub fn parse_git_provider(s: &str) -> (r: Option<GitProvider>)
    ensures
        r == named_provider(s@),
{
    proof {
        reveal_strlit("github");
        reveal_strlit("gitlab");
        assert("github"@[3] != "gitlab"@[3]);
    }
    if crate::text::matches_word(s, "github") {
        Some(GitProvider::Github)
    } else if crate::text::matches_word(s, "gitlab") {
        Some(GitProvider::Gitlab)
    } else {
        None
    }
}

pub open spec fn named_provider(s: Seq<char>) -> Option<GitProvider> {
    if crate::text::is_word(s, "github"@) {
        Some(GitProvider::Github)
    } else if crate::text::is_word(s, "gitlab"@) {
        Some(GitProvider::Gitlab)
    } else {
        None
    }
}

#[derive(Debug, PartialEq)]
pub struct Project {
    pub id: Uuid,
    pub name: String,
    pub path: String,
    pub base_branch: String,
    pub git_provider: GitProvider,
    pub execution_enabled: bool,
    pub created_at: Timestamp,
    pub updated_at: Timestamp,
}

impl Project {
    pub fn copy(&self) -> (r: Project)
        ensures
            r == *self,
    {
        Project {
            id: self.id,
            name: self.name.clone(),
            path: self.path.clone(),
            base_branch: self.base_branch.clone(),
            git_provider: self.git_provider,
            execution_enabled: self.execution_enabled,
            created_at: self.created_at,
            updated_at: self.updated_at,
        }
    }
}

/// What a new project is made of.
#[derive(Debug, PartialEq)]
pub struct CreateProjectParams {
    pub name: String,
    pub path: String,
    pub remote_url: Option<String>,
    pub git_provider_override: Option<GitProvider>,
    pub head_ref: Option<String>,
}

#[derive(Debug, Clone, Copy, PartialEq, Eq, Structural)]
pub enum SpecStatus {
    Draft,
    Approved,
    Decomposed,
    Deleted,
}

impl SpecStatus {
    pub open spec fn name(self) -> Seq<char> {
        match self {
            SpecStatus::Draft => "draft"@,
            SpecStatus::Approved => "approved"@,
            SpecStatus::Decomposed => "decomposed"@,
            SpecStatus::Deleted => "deleted"@,
        }
    }

    pub fn as_str(&self) -> (r: &'static str)
        ensures
            r@ == self.name(),
    {
        match self {
            SpecStatus::Draft => "draft",
            SpecStatus::Approved => "approved",
            SpecStatus::Decomposed => "decomposed",
            SpecStatus::Deleted => "deleted",
        }
    }
}

#[derive(Debug, PartialEq)]
pub struct Spec {
    pub id: Uuid,
    pub project_id: Uuid,
    pub name: String,
    pub file_path: String,
    pub status: SpecStatus,
    pub session_active: bool,
    pub claude_session_id: Option<String>,
    pub created_at: Timestamp,
    pub updated_at: Timestamp,
}

impl Spec {
    pub fn copy(&self) -> (r: Spec)
        ensures
            r == *self,
    {
        Spec {
            id: self.id,
            project_id: self.project_id,
            name: self.name.clone(),
            file_path: self.file_path.clone(),
            status: self.status,
            session_active: self.session_active,
            claude_session_id: copy_text(&self.claude_session_id),
            created_at: self.created_at,
            updated_at: self.updated_at,
        }
    }
}

/// A change of a spec's status.
#[derive(Debug, Clone, Copy, PartialEq, Eq, Structural)]
pub enum SpecChange {
    Approve,
    Reopen,
    Delete,
}

#[derive(Debug, Clone, Copy, PartialEq, Eq, Structural)]
pub enum AgentRunStatus {
    Running,
    Succeeded,
    Failed,
    Cancelled,
}

/// One run of an agent on a work item.
#[derive(Debug, PartialEq)]
pub struct AgentRun {
    pub id: Uuid,
    pub work_item_id: Uuid,
    pub pid: Option<u32>,
    pub session_id: Option<String>,
    pub pid_start_time: Option<i64>,
    pub status: AgentRunStatus,
    pub exit_code: Option<i32>,
    pub log_path: Option<String>,
    pub error_message: Option<String>,
    pub started_at: Timestamp,
    pub finished_at: Option<Timestamp>,
}

#[derive(Debug, Clone, Copy, PartialEq, Eq, Structural)]
pub enum DecompositionStatus {
    InProgress,
    Approved,
    Discarded,
}

impl DecompositionStatus {
    pub open spec fn name(self) -> Seq<char> {
        match self {
            DecompositionStatus::InProgress => "in_progress"@,
            DecompositionStatus::Approved => "approved"@,
            DecompositionStatus::Discarded => "discarded"@,
        }
    }

    pub fn as_str(&self) -> (r: &'static str)
        ensures
            r@ == self.name(),
    {
        match self {
            DecompositionStatus::InProgress => "in_progress",
            DecompositionStatus::Approved => "approved",
            DecompositionStatus::Discarded => "discarded",
        }
    }
}

/// A wave: the decomposition of some specs of a project into work items.
#[derive(Debug, PartialEq)]
pub struct DecompositionSession {
    pub id: Uuid,
    pub project_id: Uuid,
    pub wave_number: u32,
    pub status: DecompositionStatus,
    pub claude_session_id: Option<String>,
    pub error_message: Option<String>,
    pub created_at: Timestamp,
    pub updated_at: Timestamp,
}

impl DecompositionSession {
    pub fn copy(&self) -> (r: DecompositionSession)
        ensures
            r == *self,
    {
        DecompositionSession {
            id: self.id,
            project_id: self.project_id,
            wave_number: self.wave_number,
            status: self.status,
            claude_session_id: copy_text(&self.claude_session_id),
            error_message: copy_text(&self.error_message),
            created_at: self.created_at,
            updated_at: self.updated_at,
        }
    }
}

#[derive(Debug, Clone, Copy, PartialEq, Eq, Structural)]
pub enum ItemType {
    Epic,
    Story,
    Task,
}

#[derive(Debug, Clone, Copy, PartialEq, Eq, Structural)]
pub enum TaskKind {
    Impl,
    Verify,
}

impl TaskKind {
    pub open spec fn name(self) -> Seq<char> {
        match self {
            TaskKind::Impl => "impl"@,
            TaskKind::Verify => "verify"@,
        }
    }

    pub fn as_str(&self) -> (r: &'static str)
        ensures
            r@ == self.name(),
    {
        match self {
            TaskKind::Impl => "impl",
            TaskKind::Verify => "verify",
        }
    }
}

#[derive(Debug, Clone, Copy, PartialEq, Eq, Structural)]
pub enum WorkItemStatus {
    Pending,
    Ready,
    InProgress,
    Done,
    Failed,
    Cancelled,
}

impl WorkItemStatus {
    pub open spec fn name(self) -> Seq<char> {
        match self {
            WorkItemStatus::Pending => "pending"@,
            WorkItemStatus::Ready => "ready"@,
            WorkItemStatus::InProgress => "in_progress"@,
            WorkItemStatus::Done => "done"@,
            WorkItemStatus::Failed => "failed"@,
            WorkItemStatus::Cancelled => "cancelled"@,
        }
    }

    pub fn as_str(&self) -> (r: &'static str)
        ensures
            r@ == self.name(),
    {
        match self {
            WorkItemStatus::Pending => "pending",
            WorkItemStatus::Ready => "ready",
            WorkItemStatus::InProgress => "in_progress",
            WorkItemStatus::Done => "done",
            WorkItemStatus::Failed => "failed",
            WorkItemStatus::Cancelled => "cancelled",
        }
    }
}

/// An epic, a story of an epic, or a task of a story.
#[derive(Debug, PartialEq)]
pub struct WorkItem {
    pub id: Uuid,
    pub parent_id: Option<Uuid>,
    pub decomposition_session_id: Uuid,
    pub item_type: ItemType,
    pub kind: Option<TaskKind>,
    pub title: String,
    pub description: String,
    pub acceptance_criteria: Option<String>,
    pub status: WorkItemStatus,
    pub short_id: String,
    pub sort_order: i32,
    pub branch_name: Option<String>,
    pub worktree_path: Option<String>,
    pub commit_hash: Option<String>,
    pub mr_url: Option<String>,
    pub error_message: Option<String>,
    pub created_at: Timestamp,
    pub updated_at: Timestamp,
}

impl WorkItem {
    pub fn copy(&self) -> (r: WorkItem)
        ensures
            r == *self,
    {
        WorkItem {
            id: self.id,
            parent_id: self.parent_id,
            decomposition_session_id: self.decomposition_session_id,
            item_type: self.item_type,
            kind: self.kind,
            title: self.title.clone(),
            description: self.description.clone(),
            acceptance_criteria: copy_text(&self.acceptance_criteria),
            status: self.status,
            short_id: self.short_id.clone(),
            sort_order: self.sort_order,
            branch_name: copy_text(&self.branch_name),
            worktree_path: copy_text(&self.worktree_path),
            commit_hash: copy_text(&self.commit_hash),
            mr_url: copy_text(&self.mr_url),
            error_message: copy_text(&self.error_message),
            created_at: self.created_at,
            updated_at: self.updated_at,
        }
    }
}

/// What a new work item is made of.
#[derive(Debug, PartialEq)]
pub struct NewItem {
    pub session: Uuid,
    pub parent: Option<Uuid>,
    pub item_type: ItemType,
    pub title: String,
    pub description: String,
    pub acceptance: Option<String>,
    pub short_id: String,
    pub sort_order: i32,
}

/// The items as another vector.
pub fn copy_items(items: &Vec<WorkItem>) -> (r: Vec<WorkItem>)
    ensures
        r@ == items@,
{
    let mut out: Vec<WorkItem> = Vec::new();
    let mut i: usize = 0;
    while i < items.len()
        invariant
            i <= items@.len(),
            out@ == items@.take(i as int),
        decreases items.len() - i,
    {
        out.push(items[i].copy());
        assert(items@.take(i + 1) =~= items@.take(i as int).push(items@[i as int]));
        i += 1;
    }
    assert(items@.take(i as int) =~= items@);
    out
}

/// A story and the number of its wave.
#[derive(Debug, PartialEq)]
pub struct WaveStory {
    pub story: WorkItem,
    pub wave: u32,
}

impl WaveStory {
    pub fn copy(&self) -> (r: WaveStory)
        ensures
            r == *self,
    {
        WaveStory { story: self.story.copy(), wave: self.wave }
    }
}

/// What is known of an entry of a directory: its size where it can be told, and its age in
/// seconds where it is known and not in the future.
#[derive(Debug, PartialEq)]
pub struct FileEntry {
    pub name: String,
    pub is_file: bool,
    pub size: Option<u64>,
    pub age: Option<u64>,
}

impl FileEntry {
    pub open spec fn bytes(self) -> nat {
        match self.size {
            Some(n) => n as nat,
            None => 0,
        }
    }

    pub fn copy(&self) -> (r: FileEntry)
        ensures
            r == *self,
    {
        FileEntry {
            name: self.name.clone(),
            is_file: self.is_file,
            size: self.size,
            age: self.age,
        }
    }
}

/// What the entries occupy together.
pub open spec fn total_size(files: Seq<FileEntry>) -> nat
    decreases files.len(),
{
    if files.len() == 0 {
        0
    } else {
        total_size(files.drop_last()) + files.last().bytes()
    }
}

/// That one story must be done before another can start.
#[derive(Debug, Clone, Copy, PartialEq, Eq, Structural)]
pub struct Dependency {
    pub blocker_id: Uuid,
    pub blocked_id: Uuid,
}

pub fn copy_text(t: &Option<String>) -> (r: Option<String>)
    ensures
        r == *t,
{
    match t {
        Some(s) => Some(s.clone()),
        None => None,
    }
}

} // verus!
