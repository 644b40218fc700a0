//! Resolution of a batch-rename invocation's arguments into one immutable
//! configuration: command selection, run mode, replace mode, dump and output
//! policies.

mod arguments;
mod command;
mod config;
mod modes;
mod policy;

pub use arguments::{copy_strings, is_integer, ArgumentTable, RawArguments};
pub use command::{str_eq, AppCommand, FROM_FILE_SUBCOMMAND, TO_ASCII_SUBCOMMAND};
pub use policy::{resolve_dump, resolve_output_policy, ColorChoice, OutputPolicy};
pub use modes::{
    limit_for, resolve_replace_mode, resolve_run_mode, ConfigError, ReplaceMode, ReplaceModeView,
    RunMode, RunModeView,
};
pub use config::{Config, ConfigView};
