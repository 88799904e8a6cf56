use omnilan::cli::grammar::CliErrorKind;
use omnilan::cli::okproxy;
use omnilan::cli::{Cli, Commands, EngineArg};

fn args(items: &[&str]) -> Vec<String> {
    items.iter().map(|s| s.to_string()).collect()
}

#[test]
fn parse_engine_override() {
    let cli = Cli::parse_args(args(&["omnilan", "--engine", "sing-box", "status"])).expect("parse");
    assert!(matches!(cli.engine, Some(EngineArg::SingBox)));
}

#[test]
fn engine_after_subcommand_is_accepted() {
    let cli = Cli::parse_args(args(&["omnilan", "status", "--engine", "mihomo"])).expect("parse");
    assert!(matches!(cli.engine, Some(EngineArg::Mihomo)));
    assert_eq!(cli.command, Commands::Status);
    assert_eq!(cli.config, "omnilan.yaml");
}

#[test]
fn config_forms() {
    let a = Cli::parse_args(args(&["omnilan", "-c", "a.yaml", "run"])).expect("parse");
    assert_eq!(a.config, "a.yaml");
    assert_eq!(a.command, Commands::Run);
    let b = Cli::parse_args(args(&["omnilan", "--config=b.yaml", "render"])).expect("parse");
    assert_eq!(b.config, "b.yaml");
    let c = Cli::parse_args(args(&["omnilan", "-cc.yaml", "validate"])).expect("parse");
    assert_eq!(c.config, "c.yaml");
    let d = Cli::parse_args(args(&["omnilan", "init", "--config", "d.yaml"])).expect("parse");
    assert_eq!(d.config, "d.yaml");
    assert_eq!(d.command, Commands::Init);
    assert!(d.engine.is_none());
}

#[test]
fn stop_rollback_flag() {
    let a = Cli::parse_args(args(&["omnilan", "stop", "--rollback"])).expect("parse");
    assert_eq!(a.command, Commands::Stop { rollback: true });
    let b = Cli::parse_args(args(&["omnilan", "stop"])).expect("parse");
    assert_eq!(b.command, Commands::Stop { rollback: false });
    let e = Cli::parse_args(args(&["omnilan", "status", "--rollback"])).unwrap_err();
    assert_eq!(e.kind, CliErrorKind::UnknownArgument);
}

#[test]
fn all_subcommands() {
    let cases = [
        ("init", Commands::Init),
        ("validate", Commands::Validate),
        ("render", Commands::Render),
        ("run", Commands::Run),
        ("status", Commands::Status),
        ("audit", Commands::Audit),
        ("doctor", Commands::Doctor),
        ("kernel-install", Commands::KernelInstall),
        ("service-install", Commands::ServiceInstall),
        ("service-uninstall", Commands::ServiceUninstall),
        ("rollback", Commands::Rollback),
    ];
    for (word, cmd) in cases {
        let cli = Cli::parse_args(args(&["omnilan", word])).expect("parse");
        assert_eq!(cli.command, cmd);
    }
}

#[test]
fn refused_command_lines() {
    let kind = |items: &[&str]| Cli::parse_args(args(items)).unwrap_err().kind;
    assert_eq!(kind(&["omnilan"]), CliErrorKind::MissingSubcommand);
    assert_eq!(kind(&["omnilan", "--help"]), CliErrorKind::Help);
    assert_eq!(kind(&["omnilan", "status", "-h"]), CliErrorKind::Help);
    assert_eq!(kind(&["omnilan", "help"]), CliErrorKind::Help);
    assert_eq!(kind(&["omnilan", "-V"]), CliErrorKind::Version);
    assert_eq!(kind(&["omnilan", "status", "--version"]), CliErrorKind::UnknownArgument);
    assert_eq!(kind(&["omnilan", "--bogus", "status"]), CliErrorKind::UnknownArgument);
    assert_eq!(kind(&["omnilan", "launch"]), CliErrorKind::UnrecognizedSubcommand);
    assert_eq!(kind(&["omnilan", "status", "extra"]), CliErrorKind::UnexpectedArgument);
    assert_eq!(kind(&["omnilan", "--engine", "xray", "status"]), CliErrorKind::InvalidValue);
    assert_eq!(kind(&["omnilan", "--engine"]), CliErrorKind::MissingValue);
    assert_eq!(kind(&["omnilan", "-c", "--engine", "mihomo", "run"]), CliErrorKind::MissingValue);
    assert_eq!(kind(&["omnilan", "--config=", "run"]), CliErrorKind::MissingValue);
    assert_eq!(kind(&["omnilan", "-c", "a", "-c", "b", "run"]), CliErrorKind::DuplicateArgument);
    assert_eq!(kind(&["omnilan", "stop", "--rollback", "--rollback"]), CliErrorKind::DuplicateArgument);
    assert_eq!(kind(&["omnilan", "--", "run"]), CliErrorKind::UnknownArgument);
    let e = Cli::parse_args(args(&["omnilan", "--engine", "xray", "status"])).unwrap_err();
    assert_eq!(e.argument, "xray");
}

#[test]
fn okproxy_command_line() {
    let a = okproxy::Cli::parse_args(args(&["ok-proxy", "run"])).expect("parse");
    assert_eq!(a.config, "ok-proxy.yaml");
    assert_eq!(a.command, okproxy::Commands::Run);
    let b = okproxy::Cli::parse_args(args(&["ok-proxy", "--config", "x.yaml", "rollback"])).expect("parse");
    assert_eq!(b.config, "x.yaml");
    assert_eq!(b.command, okproxy::Commands::Rollback);
    let kind = |items: &[&str]| okproxy::Cli::parse_args(args(items)).unwrap_err().kind;
    assert_eq!(kind(&["ok-proxy", "run", "-c", "x.yaml"]), CliErrorKind::UnexpectedArgument);
    assert_eq!(kind(&["ok-proxy", "--engine", "mihomo", "run"]), CliErrorKind::UnknownArgument);
    assert_eq!(kind(&["ok-proxy", "stop"]), CliErrorKind::UnrecognizedSubcommand);
    assert_eq!(kind(&["ok-proxy", "doctor"]), CliErrorKind::UnrecognizedSubcommand);
}
