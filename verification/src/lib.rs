//! Construct, write and run IBM Storage Scale file system policies.
//!
//! A [`types::Policy`] is a named, ordered collection of rules. It can be
//! rendered into the exact textual grammar that the `mmapplypolicy` engine
//! expects, and a full engine invocation can be planned from it: the rendered
//! policy text, the engine's argument vector, how the child's standard output
//! is to be handled, and the report paths the engine will produce. The
//! process and file system work itself is left to the caller.

pub mod args;
pub mod run;
pub mod types;
pub mod write;

pub use crate::args::{
    arg_action, arg_choice_algorithm, arg_global_work_dir, arg_information_level,
    arg_local_work_dir, arg_nodes, args_all, args_parallel, ArgSpec,
};
pub use crate::run::{
    check_prefix, command_args, engine_binary, exit_result, spawn_error, stdout_mode, wait_error,
    Error, Options, ReportPrefix, RunPlan, StdoutMode,
};
pub use crate::types::{DirectoriesPlus, Exec, Name, Policy, Rule, RuleType, Show, Where};
