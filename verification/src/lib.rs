//! A config-driven hook-action runner: a configuration maps hook names to
//! ordered sets of actions (shell command templates with optional glob
//! file filters); for a given hook the library selects the applicable
//! actions, computes the file list each one operates on, builds the final
//! commands, and renders a pass/fail report with human-readable timings.
pub mod config;
pub mod duration;
pub mod git;
pub mod init;
pub mod install;
pub mod pattern;
pub mod report;
pub mod run;
pub mod select;
pub mod uninstall;
pub mod text;

pub use config::Action;
pub use config::ActionEntry;
pub use config::Config;
pub use config::ConfigError;
pub use config::HookDefinition;
pub use config::PatternField;
pub use config::RawConfig;
pub use config::RawEntry;
pub use config::RawHook;
pub use config::normalize;
pub use duration::format_duration;
pub use select::PlannedAction;
pub use select::applicable_files;
pub use select::build_command;
pub use select::plan_actions;
pub use select::select;
pub use report::ActionOutcome;
pub use report::ActionResult;
pub use report::executing_line;
pub use report::has_errors;
pub use report::render_report;
pub use report::running_line;
pub use git::Dir;
pub use git::is_noverify_hook;
pub use git::is_stdin_hook;
pub use git::Files;
pub use init::Init;
pub use init::sample;
pub use install::Install;
pub use install::script;
pub use run::Run;
pub use run::exec_plan;
pub use uninstall::Uninstall;
