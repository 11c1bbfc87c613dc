//! The settings: their keys, the layers that give them a value, `config.show` and `config.set`.
use vstd::prelude::*;
use crate::effects::{missing_parameter, no_project, Action, Event, Next, Run};
use crate::json::{str_eq, Json, JsonV};
use crate::model::copy_text;
use crate::protocol::Request;
use crate::text::{cat, cat5, join, join_texts};

verus! {

// ---- keys ----

/// What a setting is.
#[derive(Debug, Clone, Copy, PartialEq, Eq, Structural)]
pub enum ValueKind {
    Integer,
    Text,
    Boolean,
}

impl ValueKind {
    pub open spec fn name(self) -> Seq<char> {
        match self {
            ValueKind::Integer => "integer"@,
            ValueKind::Text => "string"@,
            ValueKind::Boolean => "boolean"@,
        }
    }

    pub fn as_str(&self) -> (r: &'static str)
        ensures
            r@ == self.name(),
    {
        match self {
            ValueKind::Integer => "integer",
            ValueKind::Text => "string",
            ValueKind::Boolean => "boolean",
        }
    }

    /// Whether a value is of this kind.
    pub open spec fn admits(self, value: JsonV) -> bool {
        match self {
            ValueKind::Integer => value is Int,
            ValueKind::Text => value is Str,
            ValueKind::Boolean => value is Bool,
        }
    }

    fn takes(&self, value: &Json) -> (r: bool)
        ensures
            r == self.admits(value@),
    {
        match (self, value) {
            (ValueKind::Integer, Json::U64(_)) => true,
            (ValueKind::Integer, Json::I64(_)) => true,
            (ValueKind::Text, Json::Str(_)) => true,
            (ValueKind::Boolean, Json::Bool(_)) => true,
            _ => false,
        }
    }
}

/// What a value is called that is of the wrong kind.
pub open spec fn kind_of(value: JsonV) -> Seq<char> {
    match value {
        JsonV::Str(_) => "string"@,
        JsonV::Bool(_) => "boolean"@,
        JsonV::Int(_) | JsonV::Decimal(_) => "number"@,
        JsonV::Null => "null"@,
        _ => "unknown"@,
    }
}

fn kind_name(value: &Json) -> (r: &'static str)
    ensures
        r@ == kind_of(value@),
{
    match value {
        Json::Str(_) => "string",
        Json::Bool(_) => "boolean",
        Json::U64(_) | Json::I64(_) | Json::Decimal(_) => "number",
        Json::Null => "null",
        _ => "unknown",
    }
}

/// The settings.
#[derive(Debug, Clone, Copy, PartialEq, Eq, Structural)]
pub enum ConfigKey {
    MaxParallel,
    GitProvider,
    BaseBranch,
    CleanupWorktrees,
    MaxTurnsPerTask,
    AutoExecute,
    MaxTimePerTask,
    LogLevel,
    BranchTemplate,
    WorktreeDir,
}

/// The keys in the order in which they are told.
pub open spec fn keys() -> Seq<ConfigKey> {
    seq![
        ConfigKey::MaxParallel,
        ConfigKey::GitProvider,
        ConfigKey::BaseBranch,
        ConfigKey::CleanupWorktrees,
        ConfigKey::MaxTurnsPerTask,
        ConfigKey::AutoExecute,
        ConfigKey::MaxTimePerTask,
        ConfigKey::LogLevel,
        ConfigKey::BranchTemplate,
        ConfigKey::WorktreeDir,
    ]
}

impl ConfigKey {
    pub open spec fn name(self) -> Seq<char> {
        match self {
            ConfigKey::MaxParallel => "max_parallel"@,
            ConfigKey::GitProvider => "git_provider"@,
            ConfigKey::BaseBranch => "base_branch"@,
            ConfigKey::CleanupWorktrees => "cleanup_worktrees"@,
            ConfigKey::MaxTurnsPerTask => "max_turns_per_task"@,
            ConfigKey::AutoExecute => "auto_execute"@,
            ConfigKey::MaxTimePerTask => "max_time_per_task"@,
            ConfigKey::LogLevel => "log_level"@,
            ConfigKey::BranchTemplate => "branch_template"@,
            ConfigKey::WorktreeDir => "worktree_dir"@,
        }
    }

    pub fn as_str(&self) -> (r: &'static str)
        ensures
            r@ == self.name(),
    {
        match self {
            ConfigKey::MaxParallel => "max_parallel",
            ConfigKey::GitProvider => "git_provider",
            ConfigKey::BaseBranch => "base_branch",
            ConfigKey::CleanupWorktrees => "cleanup_worktrees",
            ConfigKey::MaxTurnsPerTask => "max_turns_per_task",
            ConfigKey::AutoExecute => "auto_execute",
            ConfigKey::MaxTimePerTask => "max_time_per_task",
            ConfigKey::LogLevel => "log_level",
            ConfigKey::BranchTemplate => "branch_template",
            ConfigKey::WorktreeDir => "worktree_dir",
        }
    }

    pub open spec fn kind(self) -> ValueKind {
        match self {
            ConfigKey::MaxParallel => ValueKind::Integer,
            ConfigKey::GitProvider => ValueKind::Text,
            ConfigKey::BaseBranch => ValueKind::Text,
            ConfigKey::CleanupWorktrees => ValueKind::Boolean,
            ConfigKey::MaxTurnsPerTask => ValueKind::Integer,
            ConfigKey::AutoExecute => ValueKind::Boolean,
            ConfigKey::MaxTimePerTask => ValueKind::Integer,
            ConfigKey::LogLevel => ValueKind::Text,
            ConfigKey::BranchTemplate => ValueKind::Text,
            ConfigKey::WorktreeDir => ValueKind::Text,
        }
    }

    pub fn value_kind(&self) -> (r: ValueKind)
        ensures
            r == self.kind(),
    {
        match self {
            ConfigKey::MaxParallel => ValueKind::Integer,
            ConfigKey::GitProvider => ValueKind::Text,
            ConfigKey::BaseBranch => ValueKind::Text,
            ConfigKey::CleanupWorktrees => ValueKind::Boolean,
            ConfigKey::MaxTurnsPerTask => ValueKind::Integer,
            ConfigKey::AutoExecute => ValueKind::Boolean,
            ConfigKey::MaxTimePerTask => ValueKind::Integer,
            ConfigKey::LogLevel => ValueKind::Text,
            ConfigKey::BranchTemplate => ValueKind::Text,
            ConfigKey::WorktreeDir => ValueKind::Text,
        }
    }

    pub fn all() -> (r: Vec<ConfigKey>)
        ensures
            r@ == keys(),
    {
        let all = vec![
            ConfigKey::MaxParallel,
            ConfigKey::GitProvider,
            ConfigKey::BaseBranch,
            ConfigKey::CleanupWorktrees,
            ConfigKey::MaxTurnsPerTask,
            ConfigKey::AutoExecute,
            ConfigKey::MaxTimePerTask,
            ConfigKey::LogLevel,
            ConfigKey::BranchTemplate,
            ConfigKey::WorktreeDir,
        ];
        assert(all@ =~= keys());
        all
    }

    /// The key with the name.
    pub fn named(name: &str) -> (r: Option<ConfigKey>)
        ensures
            match r {
                Some(k) => k.name() == name@,
                None => forall|k: ConfigKey| #[trigger] k.name() != name@,
            },
    {
        if str_eq(name, "max_parallel") {
            return Some(ConfigKey::MaxParallel);
        }
        if str_eq(name, "git_provider") {
            return Some(ConfigKey::GitProvider);
        }
        if str_eq(name, "base_branch") {
            return Some(ConfigKey::BaseBranch);
        }
        if str_eq(name, "cleanup_worktrees") {
            return Some(ConfigKey::CleanupWorktrees);
        }
        if str_eq(name, "max_turns_per_task") {
            return Some(ConfigKey::MaxTurnsPerTask);
        }
        if str_eq(name, "auto_execute") {
            return Some(ConfigKey::AutoExecute);
        }
        if str_eq(name, "max_time_per_task") {
            return Some(ConfigKey::MaxTimePerTask);
        }
        if str_eq(name, "log_level") {
            return Some(ConfigKey::LogLevel);
        }
        if str_eq(name, "branch_template") {
            return Some(ConfigKey::BranchTemplate);
        }
        if str_eq(name, "worktree_dir") {
            return Some(ConfigKey::WorktreeDir);
        }
        None
    }
}

/// The names of the keys, as a refused key is answered.
pub open spec fn key_list() -> Seq<char> {
    crate::text::separated(keys().map_values(|k: ConfigKey| k.name()), ", "@)
}

fn list_keys() -> (r: String)
    ensures
        r@ == key_list(),
{
    let all = ConfigKey::all();
    let ghost name = |k: ConfigKey| k.name();
    let mut names: Vec<String> = Vec::new();
    let mut i: usize = 0;
    assert(crate::text::texts_view(names@) =~= keys().take(0).map_values(name));
    while i < all.len()
        invariant
            i <= all@.len(),
            all@ == keys(),
            name == (|k: ConfigKey| k.name()),
            crate::text::texts_view(names@) == keys().take(i as int).map_values(name),
        decreases all.len() - i,
    {
        let ghost before = crate::text::texts_view(names@);
        let n = all[i].as_str().to_owned();
        let ghost told = n@;
        names.push(n);
        proof {
            assert(crate::text::texts_view(names@) =~= before.push(told));
            assert(keys().take(i + 1) =~= keys().take(i as int).push(keys()[i as int]));
            crate::seqs::map_push(keys().take(i as int), keys()[i as int], name);
        }
        i += 1;
    }
    assert(keys().take(i as int) =~= keys());
    join_texts(&names, ", ")
}

// ---- settings ----

/// The settings of one layer: those that it gives a value.
#[derive(Debug, PartialEq)]
pub struct PartialConfig {
    pub max_parallel: Option<u32>,
    pub git_provider: Option<String>,
    pub base_branch: Option<String>,
    pub cleanup_worktrees: Option<bool>,
    pub max_turns_per_task: Option<u32>,
    pub auto_execute: Option<bool>,
    pub max_time_per_task: Option<u64>,
    pub log_level: Option<String>,
    pub branch_template: Option<String>,
    pub worktree_dir: Option<String>,
}

impl PartialConfig {
    /// A layer that says nothing.
    pub open spec fn nothing() -> PartialConfig {
        PartialConfig {
            max_parallel: None,
            git_provider: None,
            base_branch: None,
            cleanup_worktrees: None,
            max_turns_per_task: None,
            auto_execute: None,
            max_time_per_task: None,
            log_level: None,
            branch_template: None,
            worktree_dir: None,
        }
    }

    pub fn empty() -> (r: PartialConfig)
        ensures
            r == PartialConfig::nothing(),
    {
        PartialConfig {
            max_parallel: None,
            git_provider: None,
            base_branch: None,
            cleanup_worktrees: None,
            max_turns_per_task: None,
            auto_execute: None,
            max_time_per_task: None,
            log_level: None,
            branch_template: None,
            worktree_dir: None,
        }
    }

    pub fn copy(&self) -> (r: PartialConfig)
        ensures
            r == *self,
    {
        PartialConfig {
            max_parallel: self.max_parallel,
            git_provider: copy_text(&self.git_provider),
            base_branch: copy_text(&self.base_branch),
            cleanup_worktrees: self.cleanup_worktrees,
            max_turns_per_task: self.max_turns_per_task,
            auto_execute: self.auto_execute,
            max_time_per_task: self.max_time_per_task,
            log_level: copy_text(&self.log_level),
            branch_template: copy_text(&self.branch_template),
            worktree_dir: copy_text(&self.worktree_dir),
        }
    }

    /// Whether the layer gives the setting a value.
    pub open spec fn gives(self, key: ConfigKey) -> bool {
        match key {
            ConfigKey::MaxParallel => self.max_parallel is Some,
            ConfigKey::GitProvider => self.git_provider is Some,
            ConfigKey::BaseBranch => self.base_branch is Some,
            ConfigKey::CleanupWorktrees => self.cleanup_worktrees is Some,
            ConfigKey::MaxTurnsPerTask => self.max_turns_per_task is Some,
            ConfigKey::AutoExecute => self.auto_execute is Some,
            ConfigKey::MaxTimePerTask => self.max_time_per_task is Some,
            ConfigKey::LogLevel => self.log_level is Some,
            ConfigKey::BranchTemplate => self.branch_template is Some,
            ConfigKey::WorktreeDir => self.worktree_dir is Some,
        }
    }

    pub fn has_value(&self, key: ConfigKey) -> (r: bool)
        ensures
            r == self.gives(key),
    {
        match key {
            ConfigKey::MaxParallel => self.max_parallel.is_some(),
            ConfigKey::GitProvider => self.git_provider.is_some(),
            ConfigKey::BaseBranch => self.base_branch.is_some(),
            ConfigKey::CleanupWorktrees => self.cleanup_worktrees.is_some(),
            ConfigKey::MaxTurnsPerTask => self.max_turns_per_task.is_some(),
            ConfigKey::AutoExecute => self.auto_execute.is_some(),
            ConfigKey::MaxTimePerTask => self.max_time_per_task.is_some(),
            ConfigKey::LogLevel => self.log_level.is_some(),
            ConfigKey::BranchTemplate => self.branch_template.is_some(),
            ConfigKey::WorktreeDir => self.worktree_dir.is_some(),
        }
    }

    /// `after` is this layer, but for the setting, which has the value.
    pub open spec fn becomes(self, key: ConfigKey, value: JsonV, after: PartialConfig) -> bool {
        match key {
            ConfigKey::MaxParallel => value.natural() matches Some(v) && after == (PartialConfig {
                max_parallel: Some(v as u32),
                ..self
            }),
            ConfigKey::GitProvider => crate::text::is_text(after.git_provider, value.text())
                && after.git_provider is Some && after == (PartialConfig {
                git_provider: after.git_provider,
                ..self
            }),
            ConfigKey::BaseBranch => crate::text::is_text(after.base_branch, value.text())
                && after.base_branch is Some && after == (PartialConfig {
                base_branch: after.base_branch,
                ..self
            }),
            ConfigKey::CleanupWorktrees => value.truth() matches Some(v) && after == (PartialConfig {
                cleanup_worktrees: Some(v),
                ..self
            }),
            ConfigKey::MaxTurnsPerTask => value.natural() matches Some(v) && after == (PartialConfig {
                max_turns_per_task: Some(v as u32),
                ..self
            }),
            ConfigKey::AutoExecute => value.truth() matches Some(v) && after == (PartialConfig {
                auto_execute: Some(v),
                ..self
            }),
            ConfigKey::MaxTimePerTask => value.natural() matches Some(v) && after == (PartialConfig {
                max_time_per_task: Some(v),
                ..self
            }),
            ConfigKey::LogLevel => crate::text::is_text(after.log_level, value.text())
                && after.log_level is Some && after == (PartialConfig {
                log_level: after.log_level,
                ..self
            }),
            ConfigKey::BranchTemplate => crate::text::is_text(after.branch_template, value.text())
                && after.branch_template is Some && after == (PartialConfig {
                branch_template: after.branch_template,
                ..self
            }),
            ConfigKey::WorktreeDir => crate::text::is_text(after.worktree_dir, value.text())
                && after.worktree_dir is Some && after == (PartialConfig {
                worktree_dir: after.worktree_dir,
                ..self
            }),
        }
    }

    /// Whether the setting can have the value.
    pub open spec fn can_hold(key: ConfigKey, value: JsonV) -> bool {
        match key.kind() {
            ValueKind::Integer => value.natural() is Some,
            ValueKind::Text => value.text() is Some,
            ValueKind::Boolean => value.truth() is Some,
        }
    }

    /// Gives the setting the value.
    pub fn set(self, key: ConfigKey, value: &Json) -> (r: Result<PartialConfig, String>)
        ensures
            match r {
                Ok(after) => PartialConfig::can_hold(key, value@) && self.becomes(
                    key,
                    value@,
                    after,
                ),
                Err(e) => !PartialConfig::can_hold(key, value@) && e@ == must_be(key),
            },
    {
        let mut after = self;
        match key {
            ConfigKey::MaxParallel => match value.as_u64() {
                Some(v) => after.max_parallel = Some(v as u32),
                None => return Err(refuse(key)),
            },
            ConfigKey::GitProvider => match value.as_str() {
                Some(v) => after.git_provider = Some(v.clone()),
                None => return Err(refuse(key)),
            },
            ConfigKey::BaseBranch => match value.as_str() {
                Some(v) => after.base_branch = Some(v.clone()),
                None => return Err(refuse(key)),
            },
            ConfigKey::CleanupWorktrees => match value.as_bool() {
                Some(v) => after.cleanup_worktrees = Some(v),
                None => return Err(refuse(key)),
            },
            ConfigKey::MaxTurnsPerTask => match value.as_u64() {
                Some(v) => after.max_turns_per_task = Some(v as u32),
                None => return Err(refuse(key)),
            },
            ConfigKey::AutoExecute => match value.as_bool() {
                Some(v) => after.auto_execute = Some(v),
                None => return Err(refuse(key)),
            },
            ConfigKey::MaxTimePerTask => match value.as_u64() {
                Some(v) => after.max_time_per_task = Some(v),
                None => return Err(refuse(key)),
            },
            ConfigKey::LogLevel => match value.as_str() {
                Some(v) => after.log_level = Some(v.clone()),
                None => return Err(refuse(key)),
            },
            ConfigKey::BranchTemplate => match value.as_str() {
                Some(v) => after.branch_template = Some(v.clone()),
                None => return Err(refuse(key)),
            },
            ConfigKey::WorktreeDir => match value.as_str() {
                Some(v) => after.worktree_dir = Some(v.clone()),
                None => return Err(refuse(key)),
            },
        }
        Ok(after)
    }
}

/// Why a setting cannot have a value.
pub open spec fn must_be(key: ConfigKey) -> Seq<char> {
    key.name() + match key.kind() {
        ValueKind::Integer => " must be an integer"@,
        ValueKind::Text => " must be a string"@,
        ValueKind::Boolean => " must be a boolean"@,
    }
}

fn refuse(key: ConfigKey) -> (r: String)
    ensures
        r@ == must_be(key),
{
    match key.value_kind() {
        ValueKind::Integer => cat(key.as_str(), " must be an integer"),
        ValueKind::Text => cat(key.as_str(), " must be a string"),
        ValueKind::Boolean => cat(key.as_str(), " must be a boolean"),
    }
}

/// The settings that hold.
#[derive(Debug, PartialEq)]
pub struct Config {
    pub max_parallel: u32,
    pub git_provider: String,
    pub base_branch: String,
    pub cleanup_worktrees: bool,
    pub max_turns_per_task: u32,
    pub auto_execute: bool,
    pub max_time_per_task: u64,
    pub log_level: String,
    pub branch_template: Option<String>,
    pub worktree_dir: Option<String>,
}

impl Config {
    pub open spec fn shown(self, key: ConfigKey) -> JsonV {
        match key {
            ConfigKey::MaxParallel => JsonV::Int(self.max_parallel as int),
            ConfigKey::GitProvider => JsonV::Str(self.git_provider@),
            ConfigKey::BaseBranch => JsonV::Str(self.base_branch@),
            ConfigKey::CleanupWorktrees => JsonV::Bool(self.cleanup_worktrees),
            ConfigKey::MaxTurnsPerTask => JsonV::Int(self.max_turns_per_task as int),
            ConfigKey::AutoExecute => JsonV::Bool(self.auto_execute),
            ConfigKey::MaxTimePerTask => JsonV::Int(self.max_time_per_task as int),
            ConfigKey::LogLevel => JsonV::Str(self.log_level@),
            ConfigKey::BranchTemplate => JsonV::optional_text(self.branch_template),
            ConfigKey::WorktreeDir => JsonV::optional_text(self.worktree_dir),
        }
    }

    /// The value of a setting.
    pub fn config_value(&self, key: ConfigKey) -> (r: Json)
        ensures
            r@ == self.shown(key),
    {
        match key {
            ConfigKey::MaxParallel => Json::U64(self.max_parallel as u64),
            ConfigKey::GitProvider => Json::Str(self.git_provider.clone()),
            ConfigKey::BaseBranch => Json::Str(self.base_branch.clone()),
            ConfigKey::CleanupWorktrees => Json::Bool(self.cleanup_worktrees),
            ConfigKey::MaxTurnsPerTask => Json::U64(self.max_turns_per_task as u64),
            ConfigKey::AutoExecute => Json::Bool(self.auto_execute),
            ConfigKey::MaxTimePerTask => Json::U64(self.max_time_per_task),
            ConfigKey::LogLevel => Json::Str(self.log_level.clone()),
            ConfigKey::BranchTemplate => Json::optional(&self.branch_template),
            ConfigKey::WorktreeDir => Json::optional(&self.worktree_dir),
        }
    }
}

// ---- layers ----

/// The layer that a setting has its value from: the environment before the project, the
/// project before the global settings, and those before the default.
pub open spec fn layer(
    key: ConfigKey,
    global: PartialConfig,
    project: PartialConfig,
    env: PartialConfig,
) -> Seq<char> {
    if env.gives(key) {
        "env"@
    } else if project.gives(key) {
        "project"@
    } else if global.gives(key) {
        "global"@
    } else {
        "default"@
    }
}

/// Determine which layer a setting has its value from.
pub fn determine_layer(
    key: ConfigKey,
    global: &PartialConfig,
    project: &PartialConfig,
    env: &PartialConfig,
) -> (r: &'static str)
    ensures
        r@ == layer(key, *global, *project, *env),
{
    if env.has_value(key) {
        "env"
    } else if project.has_value(key) {
        "project"
    } else if global.has_value(key) {
        "global"
    } else {
        "default"
    }
}

/// Where the settings of a project are, or the global ones.
pub open spec fn config_path(home: Seq<char>, project: Option<Seq<char>>) -> Seq<char> {
    let dir = crate::text::joined(home, ".nflow"@);
    crate::text::joined(
        match project {
            Some(name) => crate::projects::project_dir_path(dir, name),
            None => dir,
        },
        "config.toml"@,
    )
}

fn path_of(home: &str, project: Option<&str>) -> (r: String)
    ensures
        r@ == config_path(
            home@,
            match project {
                Some(name) => Some(name@),
                None => None,
            },
        ),
{
    let dir = join(home, ".nflow");
    match project {
        Some(name) => join(
            crate::projects::project_dir(dir.as_str(), name).as_str(),
            "config.toml",
        ),
        None => join(dir.as_str(), "config.toml"),
    }
}

/// A layer that could not be read says nothing.
pub open spec fn layer_or_nothing(read: Option<PartialConfig>) -> PartialConfig {
    match read {
        Some(c) => c,
        None => PartialConfig::nothing(),
    }
}

fn or_nothing(read: Option<PartialConfig>) -> (r: PartialConfig)
    ensures
        r == layer_or_nothing(read),
{
    match read {
        Some(c) => c,
        None => PartialConfig::empty(),
    }
}

/// What is said when the home directory is not known.
pub open spec fn no_home() -> Seq<char> {
    "config error: HOME environment variable not set"@
}

// ---- config.show ----

/// A `config.show` request.
pub struct ShowJob {
    pub id: String,
    pub project_name: Option<String>,
}

#[allow(inconsistent_fields)]
pub enum ShowStep {
    Project,
    Home,
    Global { home: String },
    Layer { global: PartialConfig },
    Env { global: PartialConfig, project: PartialConfig },
    Resolve { global: PartialConfig, project: PartialConfig, env: PartialConfig },
}

pub type ConfigShow = Run<ShowJob, ShowStep>;

/// How a setting is shown.
pub open spec fn setting(
    key: ConfigKey,
    global: PartialConfig,
    project: PartialConfig,
    env: PartialConfig,
    config: Config,
) -> JsonV {
    JsonV::object().with("value"@, config.shown(key)).with(
        "layer"@,
        JsonV::Str(layer(key, global, project, env)),
    ).with("type"@, JsonV::Str(key.kind().name()))
}

/// The first `n` settings.
pub open spec fn settings(
    n: nat,
    global: PartialConfig,
    project: PartialConfig,
    env: PartialConfig,
    config: Config,
) -> JsonV
    decreases n,
{
    if n == 0 {
        JsonV::object()
    } else {
        let key = keys()[n - 1];
        settings((n - 1) as nat, global, project, env, config).with(
            key.name(),
            setting(key, global, project, env, config),
        )
    }
}

fn show_settings(
    global: &PartialConfig,
    project: &PartialConfig,
    env: &PartialConfig,
    config: &Config,
) -> (r: Json)
    ensures
        r@ == settings(keys().len(), *global, *project, *env, *config),
{
    let all = ConfigKey::all();
    let mut out = Json::object();
    let mut i: usize = 0;
    while i < all.len()
        invariant
            i <= all@.len(),
            all@ == keys(),
            out@ == settings(i as nat, *global, *project, *env, *config),
        decreases all.len() - i,
    {
        let key = all[i];
        let entry = Json::object().with("value", config.config_value(key)).with(
            "layer",
            Json::text(determine_layer(key, global, project, env)),
        ).with("type", Json::text(key.value_kind().as_str()));
        out = out.with(key.as_str(), entry);
        i += 1;
    }
    out
}

impl Run<ShowJob, ShowStep> {
    pub open spec fn accepts(self, ev: Event) -> bool {
        match self.at {
            ShowStep::Project => ev is MaybeProject && self.job.project_name is Some,
            ShowStep::Home => ev is MaybeText,
            ShowStep::Global { .. } | ShowStep::Layer { .. } => ev is MaybePartial,
            ShowStep::Env { .. } => ev is Partial,
            ShowStep::Resolve { .. } => ev is Config,
        }
    }

    pub open spec fn begins(req: Request, n: Next<ConfigShow>) -> bool {
        &&& n matches Next::Act(s, a)
        &&& s.job.id == req.id
        &&& crate::text::is_text(s.job.project_name, req.params@.text_field("project_name"@))
        &&& match s.job.project_name {
            Some(name) => n.goes(s.job, ShowStep::Project, Action::GetProjectByName { name }),
            None => n.goes(s.job, ShowStep::Home, Action::HomeDir),
        }
    }

    pub fn start(req: Request) -> (n: Next<ConfigShow>)
        ensures
            ConfigShow::begins(req, n),
            n matches Next::Act(s, a) ==> forall|e: Event| a.answered_by(e) ==> s.accepts(e),
    {
        let project_name = req.params.str_field("project_name");
        match copy_text(&project_name) {
            Some(name) => Next::go(
                ShowJob { id: req.id, project_name },
                ShowStep::Project,
                Action::GetProjectByName { name },
            ),
            None => Next::go(
                ShowJob { id: req.id, project_name },
                ShowStep::Home,
                Action::HomeDir,
            ),
        }
    }

    pub open spec fn follows(self, ev: Event, n: Next<ConfigShow>) -> bool {
        let job = self.job;
        match (self.at, ev) {
            (ShowStep::Project, Event::MaybeProject(r)) => match r {
                Err(e) => n.fails(job.id, crate::effects::database_message(e@)),
                Ok(None) => n.fails(
                    job.id,
                    crate::effects::no_project_message(job.project_name->0@),
                ),
                Ok(Some(_)) => n.goes(job, ShowStep::Home, Action::HomeDir),
            },
            (ShowStep::Home, Event::MaybeText(home)) => match home {
                None => n.fails(job.id, no_home()),
                Some(home) => {
                    &&& n matches Next::Act(s, Action::ReadConfig { path })
                    &&& path@ == config_path(home@, None)
                    &&& s == Run { job, at: ShowStep::Global { home } }
                },
            },
            (ShowStep::Global { home }, Event::MaybePartial(read)) => {
                let global = layer_or_nothing(read);
                match job.project_name {
                    Some(name) => {
                        &&& n matches Next::Act(s, Action::ReadConfig { path })
                        &&& path@ == config_path(home@, Some(name@))
                        &&& s == Run { job, at: ShowStep::Layer { global } }
                    },
                    None => n.goes(
                        job,
                        ShowStep::Env { global, project: PartialConfig::nothing() },
                        Action::EnvConfig,
                    ),
                }
            },
            (ShowStep::Layer { global }, Event::MaybePartial(read)) => n.goes(
                job,
                ShowStep::Env { global, project: layer_or_nothing(read) },
                Action::EnvConfig,
            ),
            (ShowStep::Env { global, project }, Event::Partial(env)) => n.goes(
                job,
                ShowStep::Resolve { global, project, env },
                Action::ResolveConfig { global, project, env },
            ),
            (ShowStep::Resolve { global, project, env }, Event::Config(config)) => n.replies(
                job.id,
                JsonV::object().with(
                    "config"@,
                    settings(keys().len(), global, project, env, config),
                ).with("project"@, JsonV::optional_text(job.project_name)),
            ),
            _ => false,
        }
    }

    pub fn step(self, ev: Event) -> (n: Next<ConfigShow>)
        requires
            self.accepts(ev),
        ensures
            self.follows(ev, n),
            n matches Next::Act(s, a) ==> forall|e: Event| a.answered_by(e) ==> s.accepts(e),
    {
        let Run { job, at } = self;
        match (at, ev) {
            (ShowStep::Project, Event::MaybeProject(r)) => match r {
                Err(e) => Next::database_error(job.id, e.as_str()),
                Ok(None) => match job.project_name {
                    Some(name) => no_project(job.id, name.as_str()),
                    None => Next::End,
                },
                Ok(Some(_)) => Next::go(job, ShowStep::Home, Action::HomeDir),
            },
            (ShowStep::Home, Event::MaybeText(home)) => match home {
                None => Next::fail(job.id, "config error: HOME environment variable not set"),
                Some(home) => {
                    let path = path_of(home.as_str(), None);
                    Next::go(job, ShowStep::Global { home }, Action::ReadConfig { path })
                },
            },
            (ShowStep::Global { home }, Event::MaybePartial(read)) => {
                let global = or_nothing(read);
                let path = match &job.project_name {
                    Some(name) => Some(path_of(home.as_str(), Some(name.as_str()))),
                    None => None,
                };
                match path {
                    Some(path) => Next::go(
                        job,
                        ShowStep::Layer { global },
                        Action::ReadConfig { path },
                    ),
                    None => Next::go(
                        job,
                        ShowStep::Env { global, project: PartialConfig::empty() },
                        Action::EnvConfig,
                    ),
                }
            },
            (ShowStep::Layer { global }, Event::MaybePartial(read)) => Next::go(
                job,
                ShowStep::Env { global, project: or_nothing(read) },
                Action::EnvConfig,
            ),
            (ShowStep::Env { global, project }, Event::Partial(env)) => {
                let action = Action::ResolveConfig {
                    global: global.copy(),
                    project: project.copy(),
                    env: env.copy(),
                };
                Next::go(job, ShowStep::Resolve { global, project, env }, action)
            },
            (ShowStep::Resolve { global, project, env }, Event::Config(config)) => {
                let entries = show_settings(&global, &project, &env, &config);
                Next::reply(
                    job.id,
                    Json::object().with("config", entries).with(
                        "project",
                        Json::optional(&job.project_name),
                    ),
                )
            },
            _ => Next::End,
        }
    }
}

// ---- config.set ----

/// A `config.set` request.
pub struct SetJob {
    pub id: String,
    pub key: ConfigKey,
    pub value: Json,
    pub project_name: Option<String>,
}

#[allow(inconsistent_fields)]
pub enum SetStep {
    Project,
    Home,
    Read { home: String },
    Write { home: String },
    Global { home: String },
    Layer { global: PartialConfig },
    Env { global: PartialConfig, project: PartialConfig },
    Resolve,
    Validate { value: Json },
}

pub type ConfigSet = Run<SetJob, SetStep>;

impl Run<SetJob, SetStep> {
    pub open spec fn accepts(self, ev: Event) -> bool {
        match self.at {
            SetStep::Project => ev is MaybeProject && self.job.project_name is Some,
            SetStep::Home => ev is MaybeText,
            SetStep::Read { .. } | SetStep::Global { .. } => ev is MaybePartial,
            SetStep::Layer { .. } => ev is MaybePartial,
            SetStep::Write { .. } | SetStep::Validate { .. } => ev is Done,
            SetStep::Env { .. } => ev is Partial,
            SetStep::Resolve => ev is Config,
        }
    }

    /// Asks for the project, where one is named, or for the home directory.
    pub open spec fn sets_out(
        req: Request,
        key: ConfigKey,
        value: JsonV,
        n: Next<ConfigSet>,
    ) -> bool {
        &&& n matches Next::Act(s, a)
        &&& s.job.id == req.id
        &&& s.job.key == key
        &&& s.job.value@ == value
        &&& crate::text::is_text(s.job.project_name, req.params@.text_field("project_name"@))
        &&& match s.job.project_name {
            Some(name) => n.goes(s.job, SetStep::Project, Action::GetProjectByName { name }),
            None => n.goes(s.job, SetStep::Home, Action::HomeDir),
        }
    }

    /// A key and a value are needed, the key has to be known, and the value of its kind.
    pub open spec fn begins(req: Request, n: Next<ConfigSet>) -> bool {
        let p = req.params@;
        match p.text_field("key"@) {
            None => n.fails(req.id, crate::effects::missing_message("key"@)),
            Some(name) => match p.field("value"@) {
                None => n.fails(req.id, crate::effects::missing_message("value"@)),
                Some(value) => {
                    ||| (forall|k: ConfigKey| #[trigger] k.name() != name) && n.fails(
                        req.id,
                        "INVALID_PARAMS: unknown config key '"@ + name + "'. Known keys: "@
                            + key_list(),
                    )
                    ||| exists|k: ConfigKey| #[trigger]
                        k.name() == name && if k.kind().admits(value) {
                            ConfigSet::sets_out(req, k, value, n)
                        } else {
                            n.fails(
                                req.id,
                                "INVALID_PARAMS: config key '"@ + name + "' expects "@
                                    + k.kind().name() + (" but got "@ + kind_of(value)),
                            )
                        }
                },
            },
        }
    }

    pub fn start(req: Request) -> (n: Next<ConfigSet>)
        ensures
            ConfigSet::begins(req, n),
            n matches Next::Act(s, a) ==> forall|e: Event| a.answered_by(e) ==> s.accepts(e),
    {
        let name = match req.params.str_field("key") {
            Some(k) => k,
            None => return missing_parameter(req.id, "key"),
        };
        let value = match req.params.field("value") {
            Some(v) => v.copy(),
            None => return missing_parameter(req.id, "value"),
        };
        let project_name = req.params.str_field("project_name");
        let key = match ConfigKey::named(name.as_str()) {
            Some(k) => k,
            None => {
                let known = list_keys();
                return Next::fail(
                    req.id,
                    crate::text::cat4(
                        "INVALID_PARAMS: unknown config key '",
                        name.as_str(),
                        "'. Known keys: ",
                        known.as_str(),
                    ).as_str(),
                );
            },
        };
        assert(key.name() == name@);
        let kind = key.value_kind();
        if !kind.takes(&value) {
            let got = cat(" but got ", kind_name(&value));
            return Next::fail(
                req.id,
                cat5(
                    "INVALID_PARAMS: config key '",
                    name.as_str(),
                    "' expects ",
                    kind.as_str(),
                    got.as_str(),
                ).as_str(),
            );
        }
        let asked = copy_text(&project_name);
        let job = SetJob { id: req.id, key, value, project_name };
        match asked {
            Some(name) => Next::go(job, SetStep::Project, Action::GetProjectByName { name }),
            None => Next::go(job, SetStep::Home, Action::HomeDir),
        }
    }

    /// Where the setting is stored.
    pub open spec fn target(job: SetJob, home: Seq<char>) -> Seq<char> {
        config_path(
            home,
            match job.project_name {
                Some(name) => Some(name@),
                None => None,
            },
        )
    }

    /// The settings are stored before they are checked together with the other layers.
    pub open spec fn follows(self, ev: Event, n: Next<ConfigSet>) -> bool {
        let job = self.job;
        match (self.at, ev) {
            (SetStep::Project, Event::MaybeProject(r)) => match r {
                Err(e) => n.fails(job.id, crate::effects::database_message(e@)),
                Ok(None) => n.fails(
                    job.id,
                    crate::effects::no_project_message(job.project_name->0@),
                ),
                Ok(Some(_)) => n.goes(job, SetStep::Home, Action::HomeDir),
            },
            (SetStep::Home, Event::MaybeText(home)) => match home {
                None => n.fails(job.id, no_home()),
                Some(home) => {
                    &&& n matches Next::Act(s, Action::ReadConfig { path })
                    &&& path@ == ConfigSet::target(job, home@)
                    &&& s == Run { job, at: SetStep::Read { home } }
                },
            },
            (SetStep::Read { home }, Event::MaybePartial(read)) => if PartialConfig::can_hold(
                job.key,
                job.value@,
            ) {
                &&& n matches Next::Act(s, Action::WriteConfig { path, config })
                &&& path@ == ConfigSet::target(job, home@)
                &&& layer_or_nothing(read).becomes(job.key, job.value@, config)
                &&& s == Run { job, at: SetStep::Write { home } }
            } else {
                n.fails(job.id, "INVALID_PARAMS: "@ + must_be(job.key))
            },
            (SetStep::Write { home }, Event::Done(r)) => match r {
                Err(e) => n.fails(job.id, "config write error: "@ + e@),
                Ok(_) => {
                    &&& n matches Next::Act(s, Action::ReadConfig { path })
                    &&& path@ == config_path(home@, None)
                    &&& s == Run { job, at: SetStep::Global { home } }
                },
            },
            (SetStep::Global { home }, Event::MaybePartial(read)) => {
                let global = layer_or_nothing(read);
                match job.project_name {
                    Some(name) => {
                        &&& n matches Next::Act(s, Action::ReadConfig { path })
                        &&& path@ == config_path(home@, Some(name@))
                        &&& s == Run { job, at: SetStep::Layer { global } }
                    },
                    None => n.goes(
                        job,
                        SetStep::Env { global, project: PartialConfig::nothing() },
                        Action::EnvConfig,
                    ),
                }
            },
            (SetStep::Layer { global }, Event::MaybePartial(read)) => n.goes(
                job,
                SetStep::Env { global, project: layer_or_nothing(read) },
                Action::EnvConfig,
            ),
            (SetStep::Env { global, project }, Event::Partial(env)) => n.goes(
                job,
                SetStep::Resolve,
                Action::ResolveConfig { global, project, env },
            ),
            (SetStep::Resolve, Event::Config(config)) => {
                &&& n matches Next::Act(s, a)
                &&& s.at matches SetStep::Validate { value }
                &&& value@ == config.shown(job.key)
                &&& n.goes(job, s.at, Action::ValidateConfig { config })
            },
            (SetStep::Validate { value }, Event::Done(r)) => match r {
                Err(e) => n.fails(
                    job.id,
                    "INVALID_PARAMS: value would create invalid config: "@ + e@,
                ),
                Ok(_) => n.replies(
                    job.id,
                    JsonV::object().with("key"@, JsonV::Str(job.key.name())).with(
                        "value"@,
                        value@,
                    ).with(
                        "layer"@,
                        JsonV::Str(
                            if job.project_name is Some {
                                "project"@
                            } else {
                                "global"@
                            },
                        ),
                    ).with("project"@, JsonV::optional_text(job.project_name)),
                ),
            },
            _ => false,
        }
    }

    pub fn step(self, ev: Event) -> (n: Next<ConfigSet>)
        requires
            self.accepts(ev),
        ensures
            self.follows(ev, n),
            n matches Next::Act(s, a) ==> forall|e: Event| a.answered_by(e) ==> s.accepts(e),
    {
        let Run { job, at } = self;
        match (at, ev) {
            (SetStep::Project, Event::MaybeProject(r)) => match r {
                Err(e) => Next::database_error(job.id, e.as_str()),
                Ok(None) => match job.project_name {
                    Some(name) => no_project(job.id, name.as_str()),
                    None => Next::End,
                },
                Ok(Some(_)) => Next::go(job, SetStep::Home, Action::HomeDir),
            },
            (SetStep::Home, Event::MaybeText(home)) => match home {
                None => Next::fail(job.id, "config error: HOME environment variable not set"),
                Some(home) => {
                    let path = target_of(&job, home.as_str());
                    Next::go(job, SetStep::Read { home }, Action::ReadConfig { path })
                },
            },
            (SetStep::Read { home }, Event::MaybePartial(read)) => {
                let before = or_nothing(read);
                match before.set(job.key, &job.value) {
                    Ok(config) => {
                        let path = target_of(&job, home.as_str());
                        Next::go(
                            job,
                            SetStep::Write { home },
                            Action::WriteConfig { path, config },
                        )
                    },
                    Err(e) => Next::fail(job.id, cat("INVALID_PARAMS: ", e.as_str()).as_str()),
                }
            },
            (SetStep::Write { home }, Event::Done(r)) => match r {
                Err(e) => Next::fail(job.id, cat("config write error: ", e.as_str()).as_str()),
                Ok(_) => {
                    let path = path_of(home.as_str(), None);
                    Next::go(job, SetStep::Global { home }, Action::ReadConfig { path })
                },
            },
            (SetStep::Global { home }, Event::MaybePartial(read)) => {
                let global = or_nothing(read);
                let path = match &job.project_name {
                    Some(name) => Some(path_of(home.as_str(), Some(name.as_str()))),
                    None => None,
                };
                match path {
                    Some(path) => Next::go(
                        job,
                        SetStep::Layer { global },
                        Action::ReadConfig { path },
                    ),
                    None => Next::go(
                        job,
                        SetStep::Env { global, project: PartialConfig::empty() },
                        Action::EnvConfig,
                    ),
                }
            },
            (SetStep::Layer { global }, Event::MaybePartial(read)) => Next::go(
                job,
                SetStep::Env { global, project: or_nothing(read) },
                Action::EnvConfig,
            ),
            (SetStep::Env { global, project }, Event::Partial(env)) => Next::go(
                job,
                SetStep::Resolve,
                Action::ResolveConfig { global, project, env },
            ),
            (SetStep::Resolve, Event::Config(config)) => {
                let value = config.config_value(job.key);
                Next::go(job, SetStep::Validate { value }, Action::ValidateConfig { config })
            },
            (SetStep::Validate { value }, Event::Done(r)) => match r {
                Err(e) => Next::fail(
                    job.id,
                    cat("INVALID_PARAMS: value would create invalid config: ", e.as_str()).as_str(),
                ),
                Ok(_) => {
                    let layer = if job.project_name.is_some() {
                        "project"
                    } else {
                        "global"
                    };
                    Next::reply(
                        job.id,
                        Json::object().with("key", Json::text(job.key.as_str())).with(
                            "value",
                            value,
                        ).with("layer", Json::text(layer)).with(
                            "project",
                            Json::optional(&job.project_name),
                        ),
                    )
                },
            },
            _ => Next::End,
        }
    }
}

fn target_of(job: &SetJob, home: &str) -> (r: String)
    ensures
        r@ == ConfigSet::target(*job, home@),
{
    match &job.project_name {
        Some(name) => path_of(home, Some(name.as_str())),
        None => path_of(home, None),
    }
}

// ---- laws ----

/// No two settings have the same name.
pub proof fn law_names_are_distinct(a: ConfigKey, b: ConfigKey)
    requires
        a.name() == b.name(),
    ensures
        a == b,
{
    reveal_strlit("max_parallel");
    reveal_strlit("git_provider");
    reveal_strlit("base_branch");
    reveal_strlit("cleanup_worktrees");
    reveal_strlit("max_turns_per_task");
    reveal_strlit("auto_execute");
    reveal_strlit("max_time_per_task");
    reveal_strlit("log_level");
    reveal_strlit("branch_template");
    reveal_strlit("worktree_dir");
    assert("max_parallel"@.len() == 12);
    assert("git_provider"@.len() == 12);
    assert("base_branch"@.len() == 11);
    assert("cleanup_worktrees"@.len() == 17);
    assert("max_turns_per_task"@.len() == 18);
    assert("auto_execute"@.len() == 12);
    assert("max_time_per_task"@.len() == 17);
    assert("log_level"@.len() == 9);
    assert("branch_template"@.len() == 15);
    assert("worktree_dir"@.len() == 12);
    assert("max_parallel"@[0] == 'm');
    assert("git_provider"@[0] == 'g');
    assert("auto_execute"@[0] == 'a');
    assert("worktree_dir"@[0] == 'w');
    assert("cleanup_worktrees"@[0] == 'c');
    assert("max_time_per_task"@[0] == 'm');
    assert(a.name().len() == b.name().len());
    assert(a.name()[0] == b.name()[0]);
}

/// Every setting is told, once.
pub proof fn law_every_setting_is_told(key: ConfigKey)
    ensures
        keys().contains(key),
        keys().no_duplicates(),
{
    let at = match key {
        ConfigKey::MaxParallel => 0int,
        ConfigKey::GitProvider => 1,
        ConfigKey::BaseBranch => 2,
        ConfigKey::CleanupWorktrees => 3,
        ConfigKey::MaxTurnsPerTask => 4,
        ConfigKey::AutoExecute => 5,
        ConfigKey::MaxTimePerTask => 6,
        ConfigKey::LogLevel => 7,
        ConfigKey::BranchTemplate => 8,
        ConfigKey::WorktreeDir => 9,
    };
    assert(keys()[at] == key);
}

/// A layer that was given a value for a setting gives it one, and gives a value to the same
/// other settings as before.
pub proof fn law_setting_one_keeps_the_others(
    before: PartialConfig,
    key: ConfigKey,
    value: JsonV,
    after: PartialConfig,
    other: ConfigKey,
)
    requires
        before.becomes(key, value, after),
    ensures
        after.gives(key),
        other != key ==> after.gives(other) == before.gives(other),
{
}

/// A setting that was stored globally holds from there, unless the project or the environment
/// gives it another value, and one that was stored for a project unless the environment does.
pub proof fn law_a_stored_setting_holds(
    before: PartialConfig,
    key: ConfigKey,
    value: JsonV,
    after: PartialConfig,
    global: PartialConfig,
    project: PartialConfig,
    env: PartialConfig,
)
    requires
        before.becomes(key, value, after),
        !env.gives(key),
    ensures
        layer(key, global, after, env) == "project"@,
        !project.gives(key) ==> layer(key, after, project, env) == "global"@,
{
}

/// A setting of the project holds before the global one, and the environment before both.
pub proof fn law_layers_have_an_order(
    key: ConfigKey,
    global: PartialConfig,
    project: PartialConfig,
    env: PartialConfig,
)
    ensures
        env.gives(key) ==> layer(key, global, project, env) == "env"@,
        !env.gives(key) && project.gives(key) ==> layer(key, global, project, env) == "project"@,
        layer(key, PartialConfig::nothing(), PartialConfig::nothing(), PartialConfig::nothing())
            == "default"@,
{
}

} // verus!
