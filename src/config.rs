use vstd::prelude::*;
use std::sync::Arc;
use crate::arguments::{ArgumentTable, RawArguments};
use crate::command::{command_named, AppCommand};
use crate::modes::{
    replace_mode_for, replace_mode_resolves, resolve_replace_mode, resolve_run_mode,
    run_mode_for, ConfigError, ReplaceMode, ReplaceModeView, RunMode, RunModeView,
};
use crate::policy::{
    color_choice_named, dump_wanted, output_policy_for, resolve_dump, resolve_output_policy,
    ColorChoice, OutputPolicy,
};

verus! {

/// The configuration of one invocation, built once and then only read.
pub struct Config {
    pub force: bool,
    pub backup: bool,
    pub dirs: bool,
    pub dump: bool,
    pub run_mode: RunMode,
    pub replace_mode: ReplaceMode,
    pub printer: OutputPolicy,
}

/// The mathematical content of a `Config`.
pub struct ConfigView {
    pub force: bool,
    pub backup: bool,
    pub dirs: bool,
    pub dump: bool,
    pub run_mode: RunModeView,
    pub replace_mode: ReplaceModeView,
    pub printer: OutputPolicy,
}

impl View for Config {
    type V = ConfigView;

    open spec fn view(&self) -> ConfigView {
        ConfigView {
            force: self.force,
            backup: self.backup,
            dirs: self.dirs,
            dump: self.dump,
            run_mode: self.run_mode@,
            replace_mode: self.replace_mode@,
            printer: self.printer,
        }
    }
}

/// Whether a table assembles into a configuration: its sub-command is
/// registered and its replace mode resolves.
pub open spec fn assembles(a: ArgumentTable) -> bool {
    match command_named(a.subcommand) {
        Some(command) => replace_mode_resolves(command, a),
        None => false,
    }
}

/// The configuration of a table that assembles, given the terminal probes.
pub open spec fn configuration_for(
    a: ArgumentTable,
    stdout_terminal: bool,
    escapes_enabled: bool,
) -> ConfigView {
    let command = command_named(a.subcommand).unwrap();
    ConfigView {
        force: a.force,
        backup: a.backup,
        dirs: a.include_dirs,
        dump: dump_wanted(a.force, a.no_dump, a.dump),
        run_mode: run_mode_for(command, a),
        replace_mode: replace_mode_for(command, a),
        printer: output_policy_for(
            a.silent,
            color_choice_named(a.color),
            stdout_terminal,
            escapes_enabled,
        ),
    }
}

impl Config {
    /// Assembles the configuration from the argument table. `stdout_terminal`
    /// and `escapes_enabled` are the terminal probes that `auto` color reads.
    /// The first resolver that fails decides the error.
    pub fn new(args: &RawArguments, stdout_terminal: bool, escapes_enabled: bool) -> (r: Result<
        Arc<Config>,
        ConfigError,
    >)
        ensures
            r is Ok <==> assembles(args@),
            r matches Ok(c) ==> c@ == configuration_for(args@, stdout_terminal, escapes_enabled),
            command_named(args.subcommand@) is None ==> (r matches Err(e) && e matches ConfigError::UnknownCommand(n)
                && n@ == args.subcommand@),
            command_named(args.subcommand@) is Some && !assembles(args@) ==> (r matches Err(e)
                && e matches ConfigError::InvalidPattern(d) && d@ == crate::modes::pattern_diagnostic(
                args.expression@,
            )),
    {
        let command = match AppCommand::from_str(args.subcommand.as_str()) {
            Ok(command) => command,
            Err(_) => {
                return Err(ConfigError::UnknownCommand(args.subcommand.clone()));
            },
        };
        let run_mode = resolve_run_mode(command, args);
        let replace_mode = match resolve_replace_mode(command, args) {
            Ok(m) => m,
            Err(e) => {
                return Err(e);
            },
        };
        let dump = resolve_dump(args.force, args.no_dump, args.dump);
        let printer = resolve_output_policy(
            args.silent,
            ColorChoice::from_name(&args.color),
            stdout_terminal,
            escapes_enabled,
        );
        let config = Config {
            force: args.force,
            backup: args.backup,
            dirs: args.include_dirs,
            dump,
            run_mode,
            replace_mode,
            printer,
        };
        Ok(Arc::new(config))
    }
}

/// The run mode replays a dump file exactly when the command is
/// `from-file`: that command never walks or lists paths, and no other
/// command reads a dump file.
pub proof fn lemma_run_mode_follows_command(command: AppCommand, a: ArgumentTable)
    ensures
        (run_mode_for(command, a) is FromFile) <==> command == AppCommand::FromFile,
        command == AppCommand::FromFile ==> !(run_mode_for(command, a) is Recursive),
{
}

/// Transliteration is chosen exactly when the command is `to-ascii`.
pub proof fn lemma_replace_mode_follows_command(command: AppCommand, a: ArgumentTable)
    ensures
        (replace_mode_for(command, a) is ToASCII) <==> command == AppCommand::ToASCII,
{
}

/// Identical argument tables, under identical terminal probes, assemble
/// alike: either both fail or both give equal configurations.
pub proof fn lemma_assembly_deterministic(
    a: ArgumentTable,
    b: ArgumentTable,
    stdout_terminal: bool,
    escapes_enabled: bool,
)
    requires
        a == b,
    ensures
        assembles(a) == assembles(b),
        configuration_for(a, stdout_terminal, escapes_enabled) == configuration_for(
            b,
            stdout_terminal,
            escapes_enabled,
        ),
{
}

} // verus!
