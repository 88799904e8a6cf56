//! The `ok-proxy` command line: a configuration option before one of six
//! subcommands.

use vstd::prelude::*;
use crate::command::texts;
use super::grammar::{chosen_config, initial_state, parse, parse_tokens, run, step, ArgError, ArgState, CliError, CmdName, Grammar};

verus! {

/// The subcommands of `ok-proxy`.
#[derive(Debug, Clone, Copy, PartialEq, Eq, Structural)]
pub enum Commands {
    Init,
    Validate,
    Render,
    Run,
    Status,
    Rollback,
}

/// A parsed `ok-proxy` command line.
#[derive(Debug, Clone)]
pub struct Cli {
    pub config: String,
    pub command: Commands,
}

/// The grammar of `ok-proxy`: `-c/--config` only before the subcommand, no
/// `--engine`, and only the six basic subcommands.
pub open spec fn okproxy_grammar() -> Grammar {
    Grammar { engine_flag: false, global_config: false, full_commands: false }
}

/// The `ok-proxy` subcommand a subcommand name stands for, if any.
pub open spec fn basic_command(cmd: CmdName) -> Option<Commands> {
    match cmd {
        CmdName::Init => Some(Commands::Init),
        CmdName::Validate => Some(Commands::Validate),
        CmdName::Render => Some(Commands::Render),
        CmdName::Run => Some(Commands::Run),
        CmdName::Status => Some(Commands::Status),
        CmdName::Rollback => Some(Commands::Rollback),
        _ => None,
    }
}

/// A reading in which only basic subcommands occur and no option of
/// another grammar was taken.
pub open spec fn basic_state(s: ArgState) -> bool {
    &&& (s.command matches Some(c) ==> basic_command(c) is Some)
    &&& s.config_sub is None
    &&& s.engine_top is None
    &&& s.engine_sub is None
    &&& !s.rollback
}

proof fn lemma_basic_run(toks: Seq<Seq<char>>, i: int, s: ArgState)
    requires
        basic_state(s),
    ensures
        run(okproxy_grammar(), toks, i, s) matches Ok(s2) ==> basic_state(s2),
    decreases toks.len() - i,
{
    if 0 <= i < toks.len() {
        match step(okproxy_grammar(), s, toks, i) {
            Err(_) => {},
            Ok((s2, two)) => {
                assert(basic_state(s2));
                lemma_basic_run(toks, if two { i + 2 } else { i + 1 }, s2);
            },
        }
    }
}

/// `r` is the command line that reading `p` describes.
pub open spec fn describes(r: Result<Cli, CliError>, p: Result<ArgState, ArgError>) -> bool {
    match (r, p) {
        (Ok(c), Ok(s)) => {
            &&& s.command is Some
            &&& c.config@ == chosen_config(s, "ok-proxy.yaml"@)
            &&& Some(c.command) == basic_command(s.command->0)
        },
        (Err(e), Err((kind, arg))) => e.kind == kind && e.argument@ == arg,
        _ => false,
    }
}

impl Cli {
    /// Reads an `ok-proxy` command line, program name first.
    pub fn parse_args(args: Vec<String>) -> (r: Result<Cli, CliError>)
        ensures
            describes(r, parse(okproxy_grammar(), texts(args@))),
    {
        let g = Grammar { engine_flag: false, global_config: false, full_commands: false };
        proof {
            lemma_basic_run(texts(args@), 1, initial_state());
        }
        match parse_tokens(g, &args) {
            Err(e) => Err(e),
            Ok(s) => {
                let config = match s.config_sub {
                    Some(v) => v,
                    None => match s.config_top {
                        Some(v) => v,
                        None => "ok-proxy.yaml".to_owned(),
                    },
                };
                let command = match s.command {
                    Some(CmdName::Init) => Commands::Init,
                    Some(CmdName::Validate) => Commands::Validate,
                    Some(CmdName::Render) => Commands::Render,
                    Some(CmdName::Run) => Commands::Run,
                    Some(CmdName::Status) => Commands::Status,
                    _ => Commands::Rollback,
                };
                Ok(Cli { config, command })
            },
        }
    }
}

} // verus!
