use vstd::prelude::*;
use regex::Regex;
use crate::arguments::{copy_strings, strings_view, ArgumentTable, RawArguments};
use crate::command::AppCommand;

verus! {

#[verifier::external_type_specification]
#[verifier::external_body]
pub struct ExRegex(regex::Regex);

/// Whether `regex::Regex::new` accepts a pattern; this depends on the
/// pattern alone.
pub uninterp spec fn pattern_accepted(pattern: Seq<char>) -> bool;

/// The text of the error that `regex::Regex::new` reports for a pattern it
/// refuses.
pub uninterp spec fn pattern_diagnostic(pattern: Seq<char>) -> Seq<char>;

/// Relies on regex::Regex::new to compile a pattern, with its default size
/// limit; the error is turned into its displayed text.
#[verifier::external_body]
fn compile_pattern(pattern: &str) -> (r: Result<Regex, String>)
    ensures
        r is Ok <==> pattern_accepted(pattern@),
        r matches Err(m) ==> m@ == pattern_diagnostic(pattern@),
{
    Regex::new(pattern).map_err(|e| e.to_string())
}

/// Errors of configuration resolution.
#[derive(Debug)]
pub enum ConfigError {
    /// A sub-command name that no command is registered under.
    UnknownCommand(String),
    /// A match expression that does not compile, with the diagnostic.
    InvalidPattern(String),
}

/// How rename targets are selected.
pub enum RunMode {
    Simple(Vec<String>),
    Recursive { paths: Vec<String>, max_depth: Option<usize>, hidden: bool },
    FromFile { path: String, undo: bool },
}

/// The mathematical content of a `RunMode`.
pub enum RunModeView {
    Simple(Seq<Seq<char>>),
    Recursive { paths: Seq<Seq<char>>, max_depth: Option<usize>, hidden: bool },
    FromFile { path: Seq<char>, undo: bool },
}

impl View for RunMode {
    type V = RunModeView;

    open spec fn view(&self) -> RunModeView {
        match self {
            RunMode::Simple(paths) => RunModeView::Simple(strings_view(paths@)),
            RunMode::Recursive { paths, max_depth, hidden } => RunModeView::Recursive {
                paths: strings_view(paths@),
                max_depth: *max_depth,
                hidden: *hidden,
            },
            RunMode::FromFile { path, undo } => RunModeView::FromFile { path: path@, undo: *undo },
        }
    }
}

/// The run mode of a command: replay from a dump file for `from-file`;
/// otherwise a recursive walk when asked for, else the listed paths.
pub open spec fn run_mode_for(command: AppCommand, a: ArgumentTable) -> RunModeView {
    if command == AppCommand::FromFile {
        RunModeView::FromFile { path: a.dump_file, undo: a.undo }
    } else if a.recursive {
        RunModeView::Recursive { paths: a.paths, max_depth: a.max_depth, hidden: a.hidden }
    } else {
        RunModeView::Simple(a.paths)
    }
}

/// Resolves how rename targets are selected.
pub fn resolve_run_mode(command: AppCommand, args: &RawArguments) -> (r: RunMode)
    ensures
        r@ == run_mode_for(command, args@),
{
    if command == AppCommand::FromFile {
        return RunMode::FromFile { path: args.dump_file.clone(), undo: args.undo };
    }
    let paths = copy_strings(&args.paths);
    if args.recursive {
        RunMode::Recursive { paths, max_depth: args.max_depth, hidden: args.hidden }
    } else {
        RunMode::Simple(paths)
    }
}

/// How matched names are transformed. A `limit` of 0 replaces every match.
pub enum ReplaceMode {
    RegExp { expression: Regex, replacement: String, limit: usize },
    ToASCII,
}

/// The mathematical content of a `ReplaceMode`, the compiled expression
/// aside.
pub enum ReplaceModeView {
    RegExp { replacement: Seq<char>, limit: usize },
    ToASCII,
}

impl View for ReplaceMode {
    type V = ReplaceModeView;

    open spec fn view(&self) -> ReplaceModeView {
        match self {
            ReplaceMode::RegExp { replacement, limit, .. } => ReplaceModeView::RegExp {
                replacement: replacement@,
                limit: *limit,
            },
            ReplaceMode::ToASCII => ReplaceModeView::ToASCII,
        }
    }
}

/// The replacement limit: 1 when not given.
pub open spec fn limit_for(replace_limit: Option<usize>) -> usize {
    match replace_limit {
        Some(n) => n,
        None => 1,
    }
}

/// Whether the replace mode of a command can be resolved: `to-ascii` reads
/// no expression, the others need one that compiles.
pub open spec fn replace_mode_resolves(command: AppCommand, a: ArgumentTable) -> bool {
    command == AppCommand::ToASCII || pattern_accepted(a.expression)
}

/// The replace mode of a command whose mode resolves.
pub open spec fn replace_mode_for(command: AppCommand, a: ArgumentTable) -> ReplaceModeView {
    if command == AppCommand::ToASCII {
        ReplaceModeView::ToASCII
    } else {
        ReplaceModeView::RegExp { replacement: a.replacement, limit: limit_for(a.replace_limit) }
    }
}

/// Resolves how matched names are transformed.
pub fn resolve_replace_mode(command: AppCommand, args: &RawArguments) -> (r: Result<
    ReplaceMode,
    ConfigError,
>)
    ensures
        r is Ok <==> replace_mode_resolves(command, args@),
        r matches Ok(m) ==> m@ == replace_mode_for(command, args@),
        r matches Err(e) ==> (e matches ConfigError::InvalidPattern(d) && d@ == pattern_diagnostic(
            args.expression@,
        )),
{
    if command == AppCommand::ToASCII {
        return Ok(ReplaceMode::ToASCII);
    }
    let expression = match compile_pattern(args.expression.as_str()) {
        Ok(expression) => expression,
        Err(d) => {
            return Err(ConfigError::InvalidPattern(d));
        },
    };
    let limit = match args.replace_limit {
        Some(n) => n,
        None => 1,
    };
    Ok(ReplaceMode::RegExp { expression, replacement: args.replacement.clone(), limit })
}

} // verus!
