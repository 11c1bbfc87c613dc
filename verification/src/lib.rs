use vstd::prelude::*;

pub mod answers;
pub mod building;
pub mod cancel_laws;
pub mod claude;
pub mod cleanup;
pub mod config;
pub mod config_laws;
pub mod daemon;
pub mod decompose;
pub mod dispatch;
pub mod drafts;
pub mod effects;
pub mod execution;
pub mod extract;
pub mod histories;
pub mod ident;
pub mod json;
pub mod launch;
pub mod launch_laws;
pub mod log_laws;
pub mod logs;
pub mod model;
pub mod pipeline;
pub mod pipeline_data;
pub mod pipeline_laws;
pub mod pipeline_queries;
pub mod plan_laws;
pub mod plan_view;
pub mod plans;
pub mod platform;
pub mod project_laws;
pub mod projects;
pub mod protocol;
pub mod query_laws;
pub mod recovery;
pub mod seqs;
pub mod sessions;
pub mod show_laws;
pub mod spec_laws;
pub mod specs;
pub mod stage_output;
pub mod stage_run;
pub mod status;
pub mod status_laws;
pub mod stop;
pub mod stop_laws;
pub mod stories;
pub mod story_laws;
pub mod switch_laws;
pub mod talk_laws;
pub mod task_laws;
pub mod tasks;
pub mod text;
pub mod tidy_laws;
pub mod view_laws;
pub mod wave_laws;
pub mod worktrees;

verus! {

} // verus!
