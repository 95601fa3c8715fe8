use nia::cli::{
    cli_action, install_locations, join, log_filter, missing_install_message,
    pick_install_location, version_string, Args, CliAction, Command, LogFilter,
};

fn args(command: Option<Command>, foreground: bool, version: bool) -> Args {
    Args { command, debug: false, foreground, version }
}

#[test]
fn version_flag_wins() {
    let a = args(Some(Command::NowPlaying { server: "s".into() }), true, true);
    assert_eq!(cli_action(&a), CliAction::PrintVersion);
}

#[test]
fn no_command_launches_or_runs_in_foreground() {
    assert_eq!(cli_action(&args(None, false, false)), CliAction::Launch);
    assert_eq!(cli_action(&args(None, true, false)), CliAction::RunForeground);
}

#[test]
fn subcommands_do_nothing() {
    let login = Command::Login { server: "s".into(), username: "u".into(), password: "p".into() };
    assert_eq!(cli_action(&args(Some(login), true, false)), CliAction::Idle);
    let np = Command::NowPlaying { server: "s".into() };
    assert_eq!(cli_action(&args(Some(np), false, false)), CliAction::Idle);
}

#[test]
fn log_filter_choices() {
    assert!(matches!(log_filter(true, true), LogFilter::FromEnv));
    assert!(matches!(log_filter(true, false), LogFilter::FromEnv));
    match log_filter(false, true) {
        LogFilter::Directives(d) => assert_eq!(d, "nia_cli=debug"),
        LogFilter::FromEnv => panic!("expected directives"),
    }
    match log_filter(false, false) {
        LogFilter::Directives(d) => assert_eq!(d, "info"),
        LogFilter::FromEnv => panic!("expected directives"),
    }
}

#[test]
fn version_text() {
    assert_eq!(version_string(), "nia v2026.4-alpha");
}

#[test]
fn locations_in_order() {
    assert_eq!(
        install_locations(),
        vec!["../libexec/nia-music".to_string(), "../lib/nia/nia-music".to_string(), "./nia".to_string()]
    );
}

#[test]
fn missing_message_lists_every_location() {
    assert_eq!(
        missing_install_message(),
        "could not find any of: ../libexec/nia-music, ../lib/nia/nia-music, ./nia"
    );
}

#[test]
fn join_edge_cases() {
    assert_eq!(join(&vec![], ", "), "");
    assert_eq!(join(&vec!["a".to_string()], ", "), "a");
    assert_eq!(join(&vec!["a".to_string(), "".to_string(), "c".to_string()], "-"), "a--c");
}

#[test]
fn picks_first_resolved_location_other_than_cli() {
    let cli = "/usr/bin/nia".to_string();
    let resolved = vec![None, Some("/usr/bin/nia".to_string()), Some("/usr/lib/nia/nia-music".to_string())];
    assert_eq!(pick_install_location(&resolved, &cli), Some(2));
    let first = vec![Some("/usr/libexec/nia-music".to_string()), Some("/x".to_string())];
    assert_eq!(pick_install_location(&first, &cli), Some(0));
}

#[test]
fn picks_nothing_when_no_location_is_usable() {
    let cli = "/usr/bin/nia".to_string();
    assert_eq!(pick_install_location(&vec![None, Some(cli.clone()), None], &cli), None);
    assert_eq!(pick_install_location(&vec![], &cli), None);
}
