//! The `omnilan` command line.

use vstd::prelude::*;
use crate::command::texts;

pub mod grammar;
pub mod okproxy;

pub use grammar::{CliError, CliErrorKind, EngineArg};
use grammar::{chosen_config, chosen_engine, command_for, engine_value, index_from, initial_state, is_flag_like, parse, parse_tokens, run, step, state_view, ArgError, ArgState, CmdName, Grammar};

verus! {

/// The subcommands of `omnilan`.
#[derive(Debug, Clone, Copy, PartialEq, Eq, Structural)]
pub enum Commands {
    Init,
    Validate,
    Render,
    Run,
    Stop { rollback: bool },
    Status,
    Audit,
    Doctor,
    KernelInstall,
    ServiceInstall,
    ServiceUninstall,
    Rollback,
}

/// A parsed `omnilan` command line.
#[derive(Debug, Clone)]
pub struct Cli {
    pub config: String,
    pub engine: Option<EngineArg>,
    pub command: Commands,
}

/// The grammar of `omnilan`: `-c/--config` and `--engine` are global, and
/// every subcommand is known.
pub open spec fn omnilan_grammar() -> Grammar {
    Grammar { engine_flag: true, global_config: true, full_commands: true }
}

/// The subcommand a reading names.
pub open spec fn command_of(cmd: CmdName, rollback: bool) -> Commands {
    match cmd {
        CmdName::Init => Commands::Init,
        CmdName::Validate => Commands::Validate,
        CmdName::Render => Commands::Render,
        CmdName::Run => Commands::Run,
        CmdName::Stop => Commands::Stop { rollback },
        CmdName::Status => Commands::Status,
        CmdName::Audit => Commands::Audit,
        CmdName::Doctor => Commands::Doctor,
        CmdName::KernelInstall => Commands::KernelInstall,
        CmdName::ServiceInstall => Commands::ServiceInstall,
        CmdName::ServiceUninstall => Commands::ServiceUninstall,
        CmdName::Rollback => Commands::Rollback,
    }
}

/// `r` is the command line that reading `p` describes.
pub open spec fn describes(r: Result<Cli, CliError>, p: Result<ArgState, ArgError>) -> bool {
    match (r, p) {
        (Ok(c), Ok(s)) => {
            &&& s.command is Some
            &&& c.config@ == chosen_config(s, "omnilan.yaml"@)
            &&& c.engine == chosen_engine(s)
            &&& c.command == command_of(s.command->0, s.rollback)
        },
        (Err(e), Err((kind, arg))) => e.kind == kind && e.argument@ == arg,
        _ => false,
    }
}

/// A subcommand word that takes no flags of its own.
pub open spec fn plain_command_word(w: Seq<char>) -> bool {
    command_for(omnilan_grammar(), w) is Some && command_for(omnilan_grammar(), w) != Some(CmdName::Stop)
}

proof fn lemma_engine_token()
    ensures
        "--engine"@.len() == 8,
        "--engine"@[0] == '-',
        "--engine"@[1] == '-',
        "--engine"@.subrange(2, 8) == "engine"@,
        index_from("engine"@, '=', 0) == 6,
        "engine"@.subrange(0, 6) == "engine"@,
        "engine"@ != "help"@,
        "engine"@ != "version"@,
        "engine"@ != "config"@,
{
    reveal_strlit("--engine");
    reveal_strlit("engine");
    reveal_strlit("help");
    reveal_strlit("version");
    reveal_strlit("config");
    assert("--engine"@.subrange(2, 8) =~= "engine"@);
    assert("engine"@.subrange(0, 6) =~= "engine"@);
    reveal_with_fuel(index_from, 8);
    assert("engine"@[0] != "config"@[0]);
}

proof fn lemma_engine_values(v: Seq<char>)
    requires
        engine_value(v) is Some,
    ensures
        !is_flag_like(v),
        v.len() > 0,
{
    reveal_strlit("mihomo");
    reveal_strlit("sing-box");
}

proof fn lemma_command_words(w: Seq<char>)
    requires
        command_for(omnilan_grammar(), w) is Some,
    ensures
        !is_flag_like(w),
        !(w.len() >= 2 && w[0] == '-'),
        w != "help"@,
{
    reveal_strlit("init");
    reveal_strlit("validate");
    reveal_strlit("render");
    reveal_strlit("run");
    reveal_strlit("status");
    reveal_strlit("rollback");
    reveal_strlit("stop");
    reveal_strlit("audit");
    reveal_strlit("doctor");
    reveal_strlit("kernel-install");
    reveal_strlit("service-install");
    reveal_strlit("service-uninstall");
    reveal_strlit("help");
    assert("help"@.len() == 4);
    if w == "init"@ || w == "stop"@ {
        assert(w[0] != "help"@[0]);
    }
}

/// Law: `--engine` may stand before or after a subcommand; either way the
/// command line selects that engine and that subcommand, and keeps the
/// default configuration path.
pub proof fn law_engine_either_side(p: Seq<char>, v: Seq<char>, w: Seq<char>)
    requires
        engine_value(v) is Some,
        plain_command_word(w),
    ensures
        parse(omnilan_grammar(), seq![p, "--engine"@, v, w]) matches Ok(s1)
            && chosen_engine(s1) == engine_value(v) && s1.command == command_for(omnilan_grammar(), w)
            && chosen_config(s1, "omnilan.yaml"@) == "omnilan.yaml"@,
        parse(omnilan_grammar(), seq![p, w, "--engine"@, v]) matches Ok(s2)
            && chosen_engine(s2) == engine_value(v) && s2.command == command_for(omnilan_grammar(), w)
            && chosen_config(s2, "omnilan.yaml"@) == "omnilan.yaml"@,
{
    lemma_engine_token();
    lemma_engine_values(v);
    lemma_command_words(w);
    let g = omnilan_grammar();
    let t1 = seq![p, "--engine"@, v, w];
    let s0 = initial_state();
    let e = engine_value(v)->0;
    let sa = ArgState { engine_top: Some(e), ..s0 };
    assert(step(g, s0, t1, 1) == Ok::<(ArgState, bool), ArgError>((sa, true)));
    let sb = ArgState { command: command_for(g, w), ..sa };
    assert(step(g, sa, t1, 3) == Ok::<(ArgState, bool), ArgError>((sb, false)));
    assert(run(g, t1, 4, sb) == Ok::<ArgState, ArgError>(sb));
    assert(run(g, t1, 3, sa) == Ok::<ArgState, ArgError>(sb));
    assert(run(g, t1, 1, s0) == Ok::<ArgState, ArgError>(sb));

    let t2 = seq![p, w, "--engine"@, v];
    let sc = ArgState { command: command_for(g, w), ..s0 };
    assert(step(g, s0, t2, 1) == Ok::<(ArgState, bool), ArgError>((sc, false)));
    let sd = ArgState { engine_sub: Some(e), ..sc };
    assert(step(g, sc, t2, 2) == Ok::<(ArgState, bool), ArgError>((sd, true)));
    assert(run(g, t2, 4, sd) == Ok::<ArgState, ArgError>(sd));
    assert(run(g, t2, 2, sc) == Ok::<ArgState, ArgError>(sd));
    assert(run(g, t2, 1, s0) == Ok::<ArgState, ArgError>(sd));
}

impl Cli {
    /// Reads an `omnilan` command line, program name first.
    pub fn parse_args(args: Vec<String>) -> (r: Result<Cli, CliError>)
        ensures
            describes(r, parse(omnilan_grammar(), texts(args@))),
    {
        let g = Grammar { engine_flag: true, global_config: true, full_commands: true };
        match parse_tokens(g, &args) {
            Err(e) => Err(e),
            Ok(s) => {
                let config = match s.config_sub {
                    Some(v) => v,
                    None => match s.config_top {
                        Some(v) => v,
                        None => "omnilan.yaml".to_owned(),
                    },
                };
                let engine = match s.engine_sub {
                    Some(e) => Some(e),
                    None => s.engine_top,
                };
                let command = match s.command {
                    Some(CmdName::Init) => Commands::Init,
                    Some(CmdName::Validate) => Commands::Validate,
                    Some(CmdName::Render) => Commands::Render,
                    Some(CmdName::Run) => Commands::Run,
                    Some(CmdName::Stop) => Commands::Stop { rollback: s.rollback },
                    Some(CmdName::Status) => Commands::Status,
                    Some(CmdName::Audit) => Commands::Audit,
                    Some(CmdName::Doctor) => Commands::Doctor,
                    Some(CmdName::KernelInstall) => Commands::KernelInstall,
                    Some(CmdName::ServiceInstall) => Commands::ServiceInstall,
                    Some(CmdName::ServiceUninstall) => Commands::ServiceUninstall,
                    Some(CmdName::Rollback) => Commands::Rollback,
                    None => Commands::Init,
                };
                Ok(Cli { config, engine, command })
            },
        }
    }
}

} // verus!
