use rnr::{
    is_integer, resolve_dump, resolve_output_policy, resolve_replace_mode, resolve_run_mode,
    str_eq, AppCommand, ColorChoice, Config, ConfigError, OutputPolicy, RawArguments,
    ReplaceMode, RunMode, FROM_FILE_SUBCOMMAND, TO_ASCII_SUBCOMMAND,
};

fn table(subcommand: &str, expression: &str, replacement: &str, paths: &[&str]) -> RawArguments {
    RawArguments {
        subcommand: subcommand.to_string(),
        expression: expression.to_string(),
        replacement: replacement.to_string(),
        replace_limit: None,
        paths: paths.iter().map(|p| p.to_string()).collect(),
        dump_file: String::new(),
        force: false,
        backup: false,
        silent: false,
        dump: false,
        no_dump: false,
        recursive: false,
        include_dirs: false,
        max_depth: None,
        hidden: false,
        undo: false,
        color: None,
    }
}

#[test]
fn app_command_from_str() {
    assert_eq!(AppCommand::from_str("").unwrap(), AppCommand::Root);
    assert_eq!(
        AppCommand::from_str(FROM_FILE_SUBCOMMAND).unwrap(),
        AppCommand::FromFile
    );
    assert_eq!(
        AppCommand::from_str(TO_ASCII_SUBCOMMAND).unwrap(),
        AppCommand::ToASCII
    );
}

#[test]
#[should_panic]
fn app_command_from_str_unknown_error() {
    AppCommand::from_str("this-command-does-not-exists").unwrap();
}

#[test]
fn unknown_command_message_names_it() {
    let e = AppCommand::from_str("rename").unwrap_err();
    assert_eq!(e, "Non-registered subcommand 'rename'");
}

#[test]
fn dump_policy_table() {
    assert!(!resolve_dump(true, true, false));
    assert!(!resolve_dump(true, true, true));
    assert!(resolve_dump(true, false, false));
    assert!(resolve_dump(true, false, true));
    assert!(resolve_dump(false, false, true));
    assert!(resolve_dump(false, true, true));
    assert!(!resolve_dump(false, false, false));
    assert!(!resolve_dump(false, true, false));
}

#[test]
fn output_policy_choices() {
    assert_eq!(resolve_output_policy(true, ColorChoice::Always, true, true), OutputPolicy::Silent);
    assert_eq!(resolve_output_policy(false, ColorChoice::Always, false, false), OutputPolicy::Color);
    assert_eq!(resolve_output_policy(false, ColorChoice::Never, true, true), OutputPolicy::NoColor);
    assert_eq!(resolve_output_policy(false, ColorChoice::Auto, true, true), OutputPolicy::Color);
    assert_eq!(resolve_output_policy(false, ColorChoice::Auto, false, true), OutputPolicy::NoColor);
    assert_eq!(resolve_output_policy(false, ColorChoice::Auto, true, false), OutputPolicy::NoColor);
}

#[test]
fn color_choice_from_name() {
    assert_eq!(ColorChoice::from_name(&Some("always".to_string())), ColorChoice::Always);
    assert_eq!(ColorChoice::from_name(&Some("never".to_string())), ColorChoice::Never);
    assert_eq!(ColorChoice::from_name(&Some("auto".to_string())), ColorChoice::Auto);
    assert_eq!(ColorChoice::from_name(&Some("sometimes".to_string())), ColorChoice::Auto);
    assert_eq!(ColorChoice::from_name(&None), ColorChoice::Auto);
}

#[test]
fn invalid_pattern_is_refused() {
    let args = table("", "(", "x", &["a"]);
    match resolve_replace_mode(AppCommand::Root, &args) {
        Err(ConfigError::InvalidPattern(d)) => assert!(!d.is_empty()),
        _ => panic!("an unparsable expression must be refused"),
    }
    assert!(matches!(Config::new(&args, false, false), Err(ConfigError::InvalidPattern(_))));
}

#[test]
fn to_ascii_reads_no_expression() {
    let args = table("to-ascii", "(", "", &["a"]);
    assert!(matches!(resolve_replace_mode(AppCommand::ToASCII, &args), Ok(ReplaceMode::ToASCII)));
}

#[test]
fn replace_limit_default_and_zero() {
    let mut args = table("", "a", "b", &["x"]);
    match resolve_replace_mode(AppCommand::Root, &args) {
        Ok(ReplaceMode::RegExp { limit, .. }) => assert_eq!(limit, 1),
        _ => panic!("expected a pattern substitution"),
    }
    args.replace_limit = Some(0);
    match resolve_replace_mode(AppCommand::Root, &args) {
        Ok(ReplaceMode::RegExp { limit, .. }) => assert_eq!(limit, 0),
        _ => panic!("expected a pattern substitution"),
    }
    args.replace_limit = Some(3);
    match resolve_replace_mode(AppCommand::Root, &args) {
        Ok(ReplaceMode::RegExp { limit, .. }) => assert_eq!(limit, 3),
        _ => panic!("expected a pattern substitution"),
    }
}

#[test]
fn run_mode_follows_command() {
    let mut args = table("from-file", "", "", &["p"]);
    args.recursive = true;
    args.dump_file = "ops.log".to_string();
    assert!(matches!(resolve_run_mode(AppCommand::FromFile, &args), RunMode::FromFile { .. }));
    assert!(matches!(resolve_run_mode(AppCommand::Root, &args), RunMode::Recursive { .. }));
    args.recursive = false;
    assert!(matches!(resolve_run_mode(AppCommand::ToASCII, &args), RunMode::Simple(_)));
}

#[test]
fn scenario_plain_substitution() {
    let args = table("", "foo", "bar", &["somefile.txt"]);
    let config = Config::new(&args, false, false).unwrap();
    assert!(!config.force);
    assert!(!config.dump);
    match &config.run_mode {
        RunMode::Simple(paths) => assert_eq!(paths, &vec!["somefile.txt".to_string()]),
        _ => panic!("expected a simple run"),
    }
    match &config.replace_mode {
        ReplaceMode::RegExp { expression, replacement, limit } => {
            assert_eq!(expression.as_str(), "foo");
            assert_eq!(replacement, "bar");
            assert_eq!(*limit, 1);
        }
        _ => panic!("expected a pattern substitution"),
    }
}

#[test]
fn scenario_forced_recursive() {
    let mut args = table("", "a", "b", &["dir/"]);
    args.force = true;
    args.recursive = true;
    args.max_depth = Some(2);
    let config = Config::new(&args, false, false).unwrap();
    assert!(config.force);
    assert!(config.dump);
    match &config.run_mode {
        RunMode::Recursive { paths, max_depth, hidden } => {
            assert_eq!(paths, &vec!["dir/".to_string()]);
            assert_eq!(*max_depth, Some(2));
            assert!(!*hidden);
        }
        _ => panic!("expected a recursive run"),
    }
}

#[test]
fn scenario_undo_from_file() {
    let mut args = table("from-file", "", "", &[]);
    args.dump_file = "ops.log".to_string();
    args.undo = true;
    let config = Config::new(&args, false, false).unwrap();
    match &config.run_mode {
        RunMode::FromFile { path, undo } => {
            assert_eq!(path, "ops.log");
            assert!(*undo);
        }
        _ => panic!("expected a replay from a dump file"),
    }
}

#[test]
fn scenario_to_ascii() {
    let args = table("to-ascii", "", "", &["café.txt"]);
    let config = Config::new(&args, false, false).unwrap();
    assert!(matches!(config.replace_mode, ReplaceMode::ToASCII));
    match &config.run_mode {
        RunMode::Simple(paths) => assert_eq!(paths, &vec!["café.txt".to_string()]),
        _ => panic!("expected a simple run"),
    }
}

#[test]
fn unknown_subcommand_is_refused() {
    let args = table("rename", "a", "b", &["x"]);
    match Config::new(&args, false, false) {
        Err(ConfigError::UnknownCommand(n)) => assert_eq!(n, "rename"),
        _ => panic!("an unknown sub-command must be refused"),
    }
}

#[test]
fn identical_tables_assemble_alike() {
    let mut args = table("", "x(\\d)", "y$1", &["a", "b"]);
    args.backup = true;
    args.include_dirs = true;
    args.color = Some("never".to_string());
    let first = Config::new(&args, true, true).unwrap();
    let second = Config::new(&args, true, true).unwrap();
    assert_eq!(first.force, second.force);
    assert_eq!(first.backup, second.backup);
    assert_eq!(first.dirs, second.dirs);
    assert_eq!(first.dump, second.dump);
    assert_eq!(first.printer, second.printer);
    assert_eq!(first.printer, OutputPolicy::NoColor);
    assert!(first.backup && first.dirs);
    match (&first.run_mode, &second.run_mode) {
        (RunMode::Simple(p), RunMode::Simple(q)) => assert_eq!(p, q),
        _ => panic!("expected simple runs"),
    }
    match (&first.replace_mode, &second.replace_mode) {
        (
            ReplaceMode::RegExp { expression: e, replacement: r, limit: l },
            ReplaceMode::RegExp { expression: f, replacement: s, limit: m },
        ) => {
            assert_eq!(e.as_str(), f.as_str());
            assert_eq!(r, s);
            assert_eq!(l, m);
        }
        _ => panic!("expected pattern substitutions"),
    }
}

#[test]
fn integer_values() {
    assert!(is_integer("0".to_string()).is_ok());
    assert!(is_integer("42".to_string()).is_ok());
    assert!(is_integer("+7".to_string()).is_ok());
    assert!(is_integer("18446744073709551615".to_string()).is_ok());
    assert!(is_integer("18446744073709551616".to_string()).is_err());
    assert!(is_integer("".to_string()).is_err());
    assert!(is_integer("+".to_string()).is_err());
    assert!(is_integer("-1".to_string()).is_err());
    assert!(is_integer("4x".to_string()).is_err());
    assert_eq!(is_integer("x".to_string()).unwrap_err(), "Value provided is not an integer");
}

#[test]
fn string_equality() {
    assert!(str_eq("café", "café"));
    assert!(!str_eq("café", "cafe"));
    assert!(!str_eq("ab", "abc"));
    assert!(str_eq("", ""));
}
