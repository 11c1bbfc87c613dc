//! What `config.set` is for, over the whole course of a request.
use vstd::prelude::*;
use crate::config::{Config, ConfigKey, ConfigSet, PartialConfig, SetStep};
use crate::effects::{Action, Event, Next};
use crate::histories::{had, just, reaches, Machine};
use crate::json::JsonV;
use crate::model::Project;
use crate::project_laws::place_of;
use crate::protocol::{Request, ResponseStatus};

verus! {

impl Machine for ConfigSet {
    open spec fn takes_up(req: Request, n: Next<ConfigSet>) -> bool {
        ConfigSet::begins(req, n)
    }

    open spec fn leads(self, ev: Event, n: Next<ConfigSet>) -> bool {
        self.follows(ev, n)
    }
}

pub open spec fn number(v: Option<u32>) -> Option<JsonV> {
    match v {
        Some(n) => Some(JsonV::Int(n as int)),
        None => None,
    }
}

pub open spec fn wording(v: Option<String>) -> Option<JsonV> {
    match v {
        Some(t) => Some(JsonV::Str(t@)),
        None => None,
    }
}

pub open spec fn truth(v: Option<bool>) -> Option<JsonV> {
    match v {
        Some(b) => Some(JsonV::Bool(b)),
        None => None,
    }
}

/// What a layer says of a setting.
pub open spec fn says(c: PartialConfig, key: ConfigKey) -> Option<JsonV> {
    match key {
        ConfigKey::MaxParallel => number(c.max_parallel),
        ConfigKey::GitProvider => wording(c.git_provider),
        ConfigKey::BaseBranch => wording(c.base_branch),
        ConfigKey::CleanupWorktrees => truth(c.cleanup_worktrees),
        ConfigKey::MaxTurnsPerTask => number(c.max_turns_per_task),
        ConfigKey::AutoExecute => truth(c.auto_execute),
        ConfigKey::MaxTimePerTask => match c.max_time_per_task {
            Some(n) => Some(JsonV::Int(n as int)),
            None => None,
        },
        ConfigKey::LogLevel => wording(c.log_level),
        ConfigKey::BranchTemplate => wording(c.branch_template),
        ConfigKey::WorktreeDir => wording(c.worktree_dir),
    }
}

/// Whether the number is one that every setting can hold.
pub open spec fn is_small(value: JsonV) -> bool {
    value matches JsonV::Int(n) ==> n <= u32::MAX
}

/// A setting that was given a value says that value, and the others say what they said.
pub proof fn law_a_setting_says_what_it_was_given(
    before: PartialConfig,
    key: ConfigKey,
    value: JsonV,
    after: PartialConfig,
    other: ConfigKey,
)
    requires
        before.becomes(key, value, after),
    ensures
        is_small(value) ==> says(after, key) == Some(value),
        other != key ==> says(after, other) == says(before, other),
{
}

/// The settings, where they can be read; else a layer that says nothing.
pub open spec fn is_read_as(read: Option<PartialConfig>, c: PartialConfig) -> bool {
    match read {
        Some(r) => c == r,
        None => forall|k: ConfigKey| #[trigger] says(c, k) is None,
    }
}

/// Where the settings are kept: those of the named project with it, and the global ones in the
/// directory of the daemon.
pub open spec fn settings_at(home: Seq<char>, project: Option<Seq<char>>) -> Seq<char> {
    let dir = crate::text::joined(home, ".nflow"@);
    match project {
        Some(name) => crate::text::joined(place_of(dir, name), "config.toml"@),
        None => crate::text::joined(dir, "config.toml"@),
    }
}

/// Whether the layer was read from where the settings of the project are kept, or the global ones.
pub open spec fn was_read(
    log: Seq<(Action, Event)>,
    project: Option<Seq<char>>,
    c: PartialConfig,
) -> bool {
    exists|home: String, path: String, read: Option<PartialConfig>|
        #[trigger] had(log, Action::HomeDir, Event::MaybeText(Some(home))) && #[trigger] had(
            log,
            Action::ReadConfig { path },
            Event::MaybePartial(read),
        ) && path@ == settings_at(home@, project) && is_read_as(read, c)
}

/// Whether the layer is that of the project: none where there is none.
pub open spec fn is_project_layer(
    req: Request,
    log: Seq<(Action, Event)>,
    c: PartialConfig,
) -> bool {
    match req.params@.text_field("project_name"@) {
        Some(name) => was_read(log, Some(name), c),
        None => forall|k: ConfigKey| #[trigger] says(c, k) is None,
    }
}

/// Whether the path is one of settings.
pub open spec fn is_settings(
    log: Seq<(Action, Event)>,
    project: Option<Seq<char>>,
    path: Seq<char>,
) -> bool {
    exists|home: String| #[trigger]
        had(log, Action::HomeDir, Event::MaybeText(Some(home))) && path == settings_at(
            home@,
            project,
        )
}

/// Whether the action stores the setting in the layer that the request is about, and leaves the
/// other settings of that layer as they were read.
pub open spec fn is_storing(
    req: Request,
    log: Seq<(Action, Event)>,
    key: ConfigKey,
    a: Action,
) -> bool {
    &&& a is WriteConfig
    &&& is_settings(log, req.params@.text_field("project_name"@), a->WriteConfig_path@)
    &&& req.params@.text_field("key"@) == Some(key.name())
    &&& req.params@.field("value"@) is Some
    &&& is_small(req.params@.field("value"@)->0) ==> says(a->WriteConfig_config, key)
        == req.params@.field("value"@)
    &&& exists|before: PartialConfig| #[trigger]
        was_read(log, req.params@.text_field("project_name"@), before) && forall|k: ConfigKey|
            k != key ==> says(a->WriteConfig_config, k) == #[trigger] says(before, k)
}

/// Whether the setting was stored.
pub open spec fn is_stored(req: Request, log: Seq<(Action, Event)>, key: ConfigKey) -> bool {
    exists|a: Action| #[trigger] had(log, a, Event::Done(Ok(()))) && is_storing(req, log, key, a)
}

/// Whether the project is one that there is, where one is named.
pub open spec fn is_known_project(req: Request, log: Seq<(Action, Event)>) -> bool {
    req.params@.text_field("project_name"@) matches Some(t) ==> exists|name: String, p: Project|
        name@ == t && #[trigger] had(
            log,
            Action::GetProjectByName { name },
            Event::MaybeProject(Ok(Some(p))),
        )
}

/// Whether these are the settings that hold, of all layers as they are after the storing.
pub open spec fn is_resolved(req: Request, log: Seq<(Action, Event)>, config: Config) -> bool {
    exists|global: PartialConfig, project: PartialConfig, env: PartialConfig|
        was_read(log, None, global) && is_project_layer(req, log, project) && had(
            log,
            Action::EnvConfig,
            Event::Partial(env),
        ) && #[trigger] had(
            log,
            Action::ResolveConfig { global, project, env },
            Event::Config(config),
        )
}

spec fn set_holds(req: Request, log: Seq<(Action, Event)>, s: ConfigSet, a: Action) -> bool {
    let project = req.params@.text_field("project_name"@);
    let key = s.job.key;
    &&& s.job.id == req.id
    &&& req.params@.text_field("key"@) == Some(key.name())
    &&& req.params@.field("value"@) == Some(s.job.value@)
    &&& crate::text::is_text(s.job.project_name, project)
    &&& match s.at {
        SetStep::Project => {
            &&& a matches Action::GetProjectByName { name }
            &&& project == Some(name@)
        },
        SetStep::Home => is_known_project(req, log) && a == Action::HomeDir,
        SetStep::Read { home } => {
            &&& is_known_project(req, log)
            &&& had(log, Action::HomeDir, Event::MaybeText(Some(home)))
            &&& a matches Action::ReadConfig { path }
            &&& path@ == settings_at(home@, project)
        },
        SetStep::Write { home } => {
            &&& is_known_project(req, log)
            &&& had(log, Action::HomeDir, Event::MaybeText(Some(home)))
            &&& is_storing(req, log, key, a)
        },
        SetStep::Global { home } => {
            &&& is_stored(req, log, key)
            &&& had(log, Action::HomeDir, Event::MaybeText(Some(home)))
            &&& a matches Action::ReadConfig { path }
            &&& path@ == settings_at(home@, None)
        },
        SetStep::Layer { global } => {
            &&& is_stored(req, log, key)
            &&& was_read(log, None, global)
            &&& a matches Action::ReadConfig { path }
            &&& is_settings(log, project, path@)
            &&& project is Some
        },
        SetStep::Env { global, project: own } => {
            &&& is_stored(req, log, key)
            &&& was_read(log, None, global)
            &&& is_project_layer(req, log, own)
            &&& a == Action::EnvConfig
        },
        SetStep::Resolve => {
            &&& is_stored(req, log, key)
            &&& a is ResolveConfig
            &&& was_read(log, None, a->ResolveConfig_global)
            &&& is_project_layer(req, log, a->ResolveConfig_project)
            &&& had(log, Action::EnvConfig, Event::Partial(a->ResolveConfig_env))
        },
        SetStep::Validate { value } => {
            &&& is_stored(req, log, key)
            &&& a is ValidateConfig
            &&& is_resolved(req, log, a->ValidateConfig_config)
            &&& value@ == a->ValidateConfig_config.shown(key)
        },
    }
}

proof fn set_facts_stay(req: Request, log: Seq<(Action, Event)>, key: ConfigKey)
    requires
        log.len() > 0,
    ensures
        is_known_project(req, log.drop_last()) ==> is_known_project(req, log),
        forall|p: Option<Seq<char>>, c: PartialConfig| #[trigger]
            was_read(log.drop_last(), p, c) ==> was_read(log, p, c),
        forall|c: PartialConfig| #[trigger]
            is_project_layer(req, log.drop_last(), c) ==> is_project_layer(req, log, c),
        forall|p: Option<Seq<char>>, t: Seq<char>| #[trigger]
            is_settings(log.drop_last(), p, t) ==> is_settings(log, p, t),
        forall|a: Action| #[trigger]
            is_storing(req, log.drop_last(), key, a) ==> is_storing(req, log, key, a),
        is_stored(req, log.drop_last(), key) ==> is_stored(req, log, key),
        forall|c: Config| #[trigger]
            is_resolved(req, log.drop_last(), c) ==> is_resolved(req, log, c),
{
    crate::histories::had_more(log);
    let init = log.drop_last();
    assert forall|p: Option<Seq<char>>, c: PartialConfig| #[trigger]
        was_read(init, p, c) implies was_read(log, p, c) by {
        let (home, path, read) = choose|home: String, path: String, read: Option<PartialConfig>|
            #[trigger] had(init, Action::HomeDir, Event::MaybeText(Some(home))) && #[trigger] had(
                init,
                Action::ReadConfig { path },
                Event::MaybePartial(read),
            ) && path@ == settings_at(home@, p) && is_read_as(read, c);
        assert(had(log, Action::HomeDir, Event::MaybeText(Some(home))));
        assert(had(log, Action::ReadConfig { path }, Event::MaybePartial(read)));
    }
    assert forall|p: Option<Seq<char>>, t: Seq<char>| #[trigger]
        is_settings(init, p, t) implies is_settings(log, p, t) by {}
    assert forall|a: Action| #[trigger] is_storing(req, init, key, a) implies is_storing(
        req,
        log,
        key,
        a,
    ) by {
        let before = choose|before: PartialConfig| #[trigger]
            was_read(init, req.params@.text_field("project_name"@), before) && forall|k: ConfigKey|
                k != key ==> says(a->WriteConfig_config, k) == #[trigger] says(before, k);
        assert(was_read(log, req.params@.text_field("project_name"@), before));
        assert(is_settings(
            init,
            req.params@.text_field("project_name"@),
            a->WriteConfig_path@,
        ));
    }
    if is_stored(req, init, key) {
        let a = choose|a: Action| #[trigger]
            had(init, a, Event::Done(Ok(()))) && is_storing(req, init, key, a);
        assert(had(log, a, Event::Done(Ok(()))));
        assert(is_storing(req, log, key, a));
    }
    assert forall|c: Config| #[trigger] is_resolved(req, init, c) implies is_resolved(
        req,
        log,
        c,
    ) by {
        let (global, project, env) = choose|
            global: PartialConfig,
            project: PartialConfig,
            env: PartialConfig,
        |
            was_read(init, None, global) && is_project_layer(req, init, project) && had(
                init,
                Action::EnvConfig,
                Event::Partial(env),
            ) && #[trigger] had(
                init,
                Action::ResolveConfig { global, project, env },
                Event::Config(c),
            );
        assert(was_read(log, None, global));
        assert(is_project_layer(req, log, project));
        assert(had(log, Action::ResolveConfig { global, project, env }, Event::Config(c)));
    }
}

proof fn set_keeps(req: Request, log: Seq<(Action, Event)>, s: ConfigSet, a: Action)
    requires
        reaches(req, log, Next::Act(s, a)),
    ensures
        set_holds(req, log, s, a),
    decreases log.len(),
{
    if log.len() > 0 {
        let (b, ev) = log.last();
        let before = crate::histories::before_last::<ConfigSet>(req, log, Next::Act(s, a));
        set_keeps(req, log.drop_last(), before, b);
        set_step(req, log, before, Next::Act(s, a));
    }
}

/// What an answer of a setting that went well says: the value that holds now, and the layer that
/// it was stored in.
pub open spec fn tells_of_setting(req: Request, log: Seq<(Action, Event)>, data: JsonV) -> bool {
    exists|key: ConfigKey, config: Config|
        is_stored(req, log, key) && #[trigger] just(
            log,
            Action::ValidateConfig { config },
            Event::Done(Ok(())),
        ) && is_resolved(req, log, config) && data.text_field("key"@) == Some(key.name())
            && data.field("value"@) == Some(#[trigger] config.shown(key)) && data.text_field(
            "layer"@,
        ) == Some(
            if req.params@.text_field("project_name"@) is Some {
                "project"@
            } else {
                "global"@
            },
        ) && data.text_field("project"@) == req.params@.text_field("project_name"@)
}

proof fn set_fields(key: Seq<char>, value: JsonV, layer: Seq<char>, project: Option<String>)
    ensures
        ({
            let data = JsonV::object().with("key"@, JsonV::Str(key)).with("value"@, value).with(
                "layer"@,
                JsonV::Str(layer),
            ).with("project"@, JsonV::optional_text(project));
            &&& data.text_field("key"@) == Some(key)
            &&& data.field("value"@) == Some(value)
            &&& data.text_field("layer"@) == Some(layer)
            &&& data.field("project"@) == Some(JsonV::optional_text(project))
        }),
{
    broadcast use crate::histories::field_of_with;

    reveal_strlit("key");
    reveal_strlit("value");
    reveal_strlit("layer");
    reveal_strlit("project");
    assert("key"@.len() == 3);
    assert("value"@.len() == 5 && "value"@[0] == 'v');
    assert("layer"@.len() == 5 && "layer"@[0] == 'l');
    assert("project"@.len() == 7);
}

/// One step of a setting.
#[verifier::rlimit(40)]
proof fn set_step(req: Request, log: Seq<(Action, Event)>, before: ConfigSet, n: Next<ConfigSet>)
    requires
        log.len() > 0,
        set_holds(req, log.drop_last(), before, log.last().0),
        before.follows(log.last().1, n),
    ensures
        n matches Next::Act(s, a) ==> set_holds(req, log, s, a),
        n matches Next::Reply(r) ==> r.id == req.id && (r.status == ResponseStatus::Success
            ==> tells_of_setting(req, log, r.data@)),
        !(n is End),
{
    let (b, ev) = log.last();
    let init = log.drop_last();
    let key = before.job.key;
    let project = req.params@.text_field("project_name"@);
    crate::histories::had_more(log);
    set_facts_stay(req, log, key);
    assert(had(log, b, ev));
    assert forall|k: ConfigKey| #[trigger] says(PartialConfig::nothing(), k) is None by {}
    match (before.at, ev) {
        (SetStep::Project, Event::MaybeProject(Ok(Some(p)))) => {
            assert(had(
                log,
                Action::GetProjectByName { name: b->GetProjectByName_name },
                Event::MaybeProject(Ok(Some(p))),
            ));
            assert(is_known_project(req, log));
        },
        (SetStep::Home, Event::MaybeText(Some(home))) => {
            assert(had(log, Action::HomeDir, Event::MaybeText(Some(home))));
        },
        (SetStep::Read { home }, Event::MaybePartial(read)) => {
            let old_layer = crate::config::layer_or_nothing(read);
            assert(had(log, Action::HomeDir, Event::MaybeText(Some(home))));
            assert(had(
                log,
                Action::ReadConfig { path: b->ReadConfig_path },
                Event::MaybePartial(read),
            ));
            assert(is_read_as(read, old_layer));
            assert(was_read(log, project, old_layer));
            if n is Act {
                let config = n->Act_1->WriteConfig_config;
                law_a_setting_says_what_it_was_given(
                    old_layer,
                    key,
                    before.job.value@,
                    config,
                    key,
                );
                assert forall|k: ConfigKey| k != key implies says(config, k) == #[trigger] says(
                    old_layer,
                    k,
                ) by {
                    law_a_setting_says_what_it_was_given(
                        old_layer,
                        key,
                        before.job.value@,
                        config,
                        k,
                    );
                }
                assert(is_storing(req, log, key, n->Act_1));
            }
        },
        (SetStep::Write { home }, Event::Done(Ok(_))) => {
            assert(is_storing(req, log, key, b));
            assert(is_stored(req, log, key));
            assert(had(log, Action::HomeDir, Event::MaybeText(Some(home))));
        },
        (SetStep::Global { home }, Event::MaybePartial(read)) => {
            let global = crate::config::layer_or_nothing(read);
            assert(had(log, Action::HomeDir, Event::MaybeText(Some(home))));
            assert(had(
                log,
                Action::ReadConfig { path: b->ReadConfig_path },
                Event::MaybePartial(read),
            ));
            assert(is_read_as(read, global));
            assert(was_read(log, None, global));
        },
        (SetStep::Layer { global }, Event::MaybePartial(read)) => {
            let own = crate::config::layer_or_nothing(read);
            let home = choose|home: String| #[trigger]
                had(init, Action::HomeDir, Event::MaybeText(Some(home))) && b->ReadConfig_path@
                    == settings_at(home@, project);
            assert(had(log, Action::HomeDir, Event::MaybeText(Some(home))));
            assert(had(
                log,
                Action::ReadConfig { path: b->ReadConfig_path },
                Event::MaybePartial(read),
            ));
            assert(is_read_as(read, own));
            assert(was_read(log, project, own));
            assert(was_read(log, None, global));
        },
        (SetStep::Env { global, project: own }, Event::Partial(env)) => {
            assert(was_read(log, None, global));
            assert(is_project_layer(req, log, own));
        },
        (SetStep::Resolve, Event::Config(config)) => {
            assert(had(
                log,
                Action::ResolveConfig {
                    global: b->ResolveConfig_global,
                    project: b->ResolveConfig_project,
                    env: b->ResolveConfig_env,
                },
                Event::Config(config),
            ));
            assert(was_read(log, None, b->ResolveConfig_global));
            assert(is_project_layer(req, log, b->ResolveConfig_project));
            assert(is_resolved(req, log, config));
        },
        (SetStep::Validate { value }, Event::Done(Ok(_))) => {
            let config = b->ValidateConfig_config;
            assert(just(log, Action::ValidateConfig { config }, Event::Done(Ok(()))));
            assert(is_resolved(req, log, config));
            set_fields(
                key.name(),
                value@,
                if before.job.project_name is Some {
                    "project"@
                } else {
                    "global"@
                },
                before.job.project_name,
            );
            assert(config.shown(key) == value@);
        },
        _ => {},
    }
}

/// A setting writes nothing but the layer that the request is about: it reads that layer, gives
/// the setting its value, and leaves the others as they were. Then all layers are read again, and
/// what holds of them is checked.
pub proof fn law_what_a_setting_does(req: Request, log: Seq<(Action, Event)>, s: ConfigSet, a: Action)
    requires
        reaches(req, log, Next::Act(s, a)),
    ensures
        match a {
            Action::GetProjectByName { name } => req.params@.text_field("project_name"@) == Some(
                name@,
            ),
            Action::HomeDir => is_known_project(req, log),
            Action::ReadConfig { path } => is_settings(
                log,
                req.params@.text_field("project_name"@),
                path@,
            ) || (is_stored(req, log, s.job.key) && is_settings(log, None, path@)),
            Action::WriteConfig { .. } => is_known_project(req, log) && is_storing(
                req,
                log,
                s.job.key,
                a,
            ),
            Action::EnvConfig => is_stored(req, log, s.job.key),
            Action::ResolveConfig { global, project, env } => {
                &&& is_stored(req, log, s.job.key)
                &&& was_read(log, None, global)
                &&& is_project_layer(req, log, project)
                &&& had(log, Action::EnvConfig, Event::Partial(env))
            },
            Action::ValidateConfig { config } => is_stored(req, log, s.job.key) && is_resolved(
                req,
                log,
                config,
            ),
            _ => false,
        },
{
    set_keeps(req, log, s, a);
}

/// A setting that goes well was stored and found to be valid, and the answer tells the value that
/// holds now.
pub proof fn law_what_a_setting_comes_to(
    req: Request,
    log: Seq<(Action, Event)>,
    n: Next<ConfigSet>,
)
    requires
        reaches(req, log, n),
    ensures
        !(n is End),
        n matches Next::Reply(r) ==> r.id == req.id && (r.status == ResponseStatus::Success
            ==> tells_of_setting(req, log, r.data@)),
{
    if log.len() > 0 {
        let before = crate::histories::before_last::<ConfigSet>(req, log, n);
        set_keeps(req, log.drop_last(), before, log.last().0);
        set_step(req, log, before, n);
    }
}

} // verus!
