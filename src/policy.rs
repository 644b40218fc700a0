use vstd::prelude::*;
use crate::command::str_eq;

verus! {

/// Whether operations are dumped to a file: by default when changes are
/// applied, unless suppressed; in a dry run only when asked for.
pub open spec fn dump_wanted(force: bool, no_dump: bool, dump: bool) -> bool {
    if force {
        !no_dump
    } else {
        dump
    }
}

/// Decides whether the operations are dumped to a file.
pub fn resolve_dump(force: bool, no_dump: bool, dump: bool) -> (r: bool)
    ensures
        r == dump_wanted(force, no_dump, dump),
{
    if force {
        !no_dump
    } else {
        dump
    }
}

/// The requested color mode.
#[derive(Debug, PartialEq, Eq, Structural, Clone, Copy)]
pub enum ColorChoice {
    Always,
    Auto,
    Never,
}

/// The color mode that an option value names; anything but `always` and
/// `never`, or no value at all, means `auto`.
pub open spec fn color_choice_named(name: Option<Seq<char>>) -> ColorChoice {
    match name {
        Some(n) => if n == "always"@ {
            ColorChoice::Always
        } else if n == "never"@ {
            ColorChoice::Never
        } else {
            ColorChoice::Auto
        },
        None => ColorChoice::Auto,
    }
}

impl ColorChoice {
    /// Reads the color mode from an optional option value.
    pub fn from_name(name: &Option<String>) -> (r: ColorChoice)
        ensures
            r == color_choice_named(match name {
                Some(n) => Some(n@),
                None => None,
            }),
    {
        proof {
            reveal_strlit("always");
            reveal_strlit("never");
        }
        match name {
            Some(n) => if str_eq(n.as_str(), "always") {
                ColorChoice::Always
            } else if str_eq(n.as_str(), "never") {
                ColorChoice::Never
            } else {
                ColorChoice::Auto
            },
            None => ColorChoice::Auto,
        }
    }
}

/// How messages are printed.
#[derive(Debug, PartialEq, Eq, Structural, Clone, Copy)]
pub enum OutputPolicy {
    Silent,
    Color,
    NoColor,
}

/// The output policy: silence wins; `auto` colors only an interactive
/// terminal on which escape sequences are available.
pub open spec fn output_policy_for(
    silent: bool,
    color: ColorChoice,
    stdout_terminal: bool,
    escapes_enabled: bool,
) -> OutputPolicy {
    if silent {
        OutputPolicy::Silent
    } else {
        match color {
            ColorChoice::Always => OutputPolicy::Color,
            ColorChoice::Never => OutputPolicy::NoColor,
            ColorChoice::Auto => if stdout_terminal && escapes_enabled {
                OutputPolicy::Color
            } else {
                OutputPolicy::NoColor
            },
        }
    }
}

/// Decides the output policy from the flags and the probes of the terminal.
/// `escapes_enabled` reports whether escape processing is available on the
/// terminal (always so where the platform supports it natively).
pub fn resolve_output_policy(
    silent: bool,
    color: ColorChoice,
    stdout_terminal: bool,
    escapes_enabled: bool,
) -> (r: OutputPolicy)
    ensures
        r == output_policy_for(silent, color, stdout_terminal, escapes_enabled),
{
    if silent {
        OutputPolicy::Silent
    } else {
        match color {
            ColorChoice::Always => OutputPolicy::Color,
            ColorChoice::Never => OutputPolicy::NoColor,
            ColorChoice::Auto => if stdout_terminal && escapes_enabled {
                OutputPolicy::Color
            } else {
                OutputPolicy::NoColor
            },
        }
    }
}

} // verus!
