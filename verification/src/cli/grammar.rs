//! The command-line grammar shared by both front ends: global options,
//! one subcommand, and the subcommand's own flags, read left to right.

use vstd::prelude::*;
use crate::text::str_equal;

verus! {

/// Subcommand names known to the grammar.
#[derive(Debug, Clone, Copy, PartialEq, Eq, Structural)]
pub enum CmdName {
    Init,
    Validate,
    Render,
    Run,
    Stop,
    Status,
    Audit,
    Doctor,
    KernelInstall,
    ServiceInstall,
    ServiceUninstall,
    Rollback,
}

/// Engine values accepted by `--engine`.
#[derive(Debug, Clone, Copy, PartialEq, Eq, Structural)]
pub enum EngineArg {
    Mihomo,
    SingBox,
}

/// What a front end accepts.
#[derive(Debug, Clone, Copy, PartialEq, Eq, Structural)]
pub struct Grammar {
    /// `--engine` is known.
    pub engine_flag: bool,
    /// `-c/--config` may also follow the subcommand.
    pub global_config: bool,
    /// The gateway-management subcommands (stop, audit, doctor, kernel and
    /// service management) are known.
    pub full_commands: bool,
}

/// Why a command line is not a run request.
#[derive(Debug, Clone, Copy, PartialEq, Eq, Structural)]
pub enum CliErrorKind {
    Help,
    Version,
    MissingSubcommand,
    UnknownArgument,
    UnrecognizedSubcommand,
    UnexpectedArgument,
    MissingValue,
    InvalidValue,
    DuplicateArgument,
}

/// A refused command line, with the argument at fault.
#[derive(Debug, Clone)]
pub struct CliError {
    pub kind: CliErrorKind,
    pub argument: String,
}

/// The grammar's reading after some arguments.
pub struct ArgState {
    pub config_top: Option<Seq<char>>,
    pub config_sub: Option<Seq<char>>,
    pub engine_top: Option<EngineArg>,
    pub engine_sub: Option<EngineArg>,
    pub command: Option<CmdName>,
    pub rollback: bool,
}

/// A spec-level refusal: its kind and the argument at fault.
pub type ArgError = (CliErrorKind, Seq<char>);

/// The reading before any argument.
pub open spec fn initial_state() -> ArgState {
    ArgState {
        config_top: None,
        config_sub: None,
        engine_top: None,
        engine_sub: None,
        command: None,
        rollback: false,
    }
}

/// An argument that clap reads as an option or an option cluster.
pub open spec fn is_flag_like(t: Seq<char>) -> bool {
    t.len() >= 2 && t[0] == '-'
}

/// The position of the first `c` in `s` at or after `k`, or `s.len()`.
pub open spec fn index_from(s: Seq<char>, c: char, k: int) -> int
    decreases s.len() - k,
{
    if k >= s.len() {
        s.len() as int
    } else if s[k] == c {
        k
    } else {
        index_from(s, c, k + 1)
    }
}

/// The subcommand a word names in grammar `g`.
pub open spec fn command_for(g: Grammar, w: Seq<char>) -> Option<CmdName> {
    if w == "init"@ {
        Some(CmdName::Init)
    } else if w == "validate"@ {
        Some(CmdName::Validate)
    } else if w == "render"@ {
        Some(CmdName::Render)
    } else if w == "run"@ {
        Some(CmdName::Run)
    } else if w == "status"@ {
        Some(CmdName::Status)
    } else if w == "rollback"@ {
        Some(CmdName::Rollback)
    } else if !g.full_commands {
        None
    } else if w == "stop"@ {
        Some(CmdName::Stop)
    } else if w == "audit"@ {
        Some(CmdName::Audit)
    } else if w == "doctor"@ {
        Some(CmdName::Doctor)
    } else if w == "kernel-install"@ {
        Some(CmdName::KernelInstall)
    } else if w == "service-install"@ {
        Some(CmdName::ServiceInstall)
    } else if w == "service-uninstall"@ {
        Some(CmdName::ServiceUninstall)
    } else {
        None
    }
}

/// The engine a value names.
pub open spec fn engine_value(v: Seq<char>) -> Option<EngineArg> {
    if v == "mihomo"@ {
        Some(EngineArg::Mihomo)
    } else if v == "sing-box"@ {
        Some(EngineArg::SingBox)
    } else {
        None
    }
}

/// The value of an option at `i`: the attached text, or else the next
/// argument when it does not read as an option; with whether the next
/// argument was consumed.
pub open spec fn take_value(attached: Option<Seq<char>>, toks: Seq<Seq<char>>, i: int) -> Option<(Seq<char>, bool)> {
    match attached {
        Some(v) => Some((v, false)),
        None => if i + 1 < toks.len() && !is_flag_like(toks[i + 1]) {
            Some((toks[i + 1], true))
        } else {
            None
        },
    }
}

/// Reading `-c/--config` with value `v`, written as `t`.
pub open spec fn config_step(g: Grammar, s: ArgState, v: Option<(Seq<char>, bool)>, t: Seq<char>)
    -> Result<(ArgState, bool), ArgError>
{
    match v {
        None => Err((CliErrorKind::MissingValue, t)),
        Some((val, two)) => if val.len() == 0 {
            Err((CliErrorKind::MissingValue, t))
        } else if s.command is Some {
            if !g.global_config {
                Err((CliErrorKind::UnexpectedArgument, t))
            } else if s.config_sub is Some {
                Err((CliErrorKind::DuplicateArgument, t))
            } else {
                Ok((ArgState { config_sub: Some(val), ..s }, two))
            }
        } else if s.config_top is Some {
            Err((CliErrorKind::DuplicateArgument, t))
        } else {
            Ok((ArgState { config_top: Some(val), ..s }, two))
        },
    }
}

/// Reading `--engine` with value `v`, written as `t`.
pub open spec fn engine_step(s: ArgState, v: Option<(Seq<char>, bool)>, t: Seq<char>)
    -> Result<(ArgState, bool), ArgError>
{
    match v {
        None => Err((CliErrorKind::MissingValue, t)),
        Some((val, two)) => match engine_value(val) {
            None => Err((CliErrorKind::InvalidValue, val)),
            Some(e) => if s.command is Some {
                if s.engine_sub is Some {
                    Err((CliErrorKind::DuplicateArgument, t))
                } else {
                    Ok((ArgState { engine_sub: Some(e), ..s }, two))
                }
            } else if s.engine_top is Some {
                Err((CliErrorKind::DuplicateArgument, t))
            } else {
                Ok((ArgState { engine_top: Some(e), ..s }, two))
            },
        },
    }
}

/// Reading a long option `--name[=attached]`, written as `t`, at `i`.
pub open spec fn long_step(g: Grammar, s: ArgState, toks: Seq<Seq<char>>, i: int, t: Seq<char>)
    -> Result<(ArgState, bool), ArgError>
{
    let body = t.subrange(2, t.len() as int);
    let eq = index_from(body, '=', 0);
    let name = body.subrange(0, eq);
    let attached = if eq < body.len() { Some(body.subrange(eq + 1, body.len() as int)) } else { None };
    if name == "help"@ {
        if attached is None { Err((CliErrorKind::Help, t)) } else { Err((CliErrorKind::UnexpectedArgument, t)) }
    } else if name == "version"@ {
        if attached is None && s.command is None {
            Err((CliErrorKind::Version, t))
        } else {
            Err((CliErrorKind::UnknownArgument, t))
        }
    } else if name == "config"@ {
        config_step(g, s, take_value(attached, toks, i), t)
    } else if name == "engine"@ && g.engine_flag {
        engine_step(s, take_value(attached, toks, i), t)
    } else if name == "rollback"@ && s.command == Some(CmdName::Stop) && attached is None {
        if s.rollback {
            Err((CliErrorKind::DuplicateArgument, t))
        } else {
            Ok((ArgState { rollback: true, ..s }, false))
        }
    } else {
        Err((CliErrorKind::UnknownArgument, t))
    }
}

/// The value attached to a short option `-xVALUE`, without one leading `=`.
pub open spec fn short_attached(t: Seq<char>) -> Option<Seq<char>> {
    let rest = t.subrange(2, t.len() as int);
    if rest.len() == 0 {
        None
    } else if rest[0] == '=' {
        Some(rest.subrange(1, rest.len() as int))
    } else {
        Some(rest)
    }
}

/// Reading a short option cluster `-x...`, written as `t`, at `i`.
pub open spec fn short_step(g: Grammar, s: ArgState, toks: Seq<Seq<char>>, i: int, t: Seq<char>)
    -> Result<(ArgState, bool), ArgError>
{
    let c = t[1];
    if c == 'h' {
        Err((CliErrorKind::Help, t))
    } else if c == 'V' && s.command is None {
        Err((CliErrorKind::Version, t))
    } else if c == 'c' {
        config_step(g, s, take_value(short_attached(t), toks, i), t)
    } else {
        Err((CliErrorKind::UnknownArgument, t))
    }
}

/// Reading a plain word `t`.
pub open spec fn word_step(g: Grammar, s: ArgState, t: Seq<char>) -> Result<(ArgState, bool), ArgError> {
    if s.command is Some {
        Err((CliErrorKind::UnexpectedArgument, t))
    } else if t == "help"@ {
        Err((CliErrorKind::Help, t))
    } else {
        match command_for(g, t) {
            Some(cmd) => Ok((ArgState { command: Some(cmd), ..s }, false)),
            None => Err((CliErrorKind::UnrecognizedSubcommand, t)),
        }
    }
}

/// Reading the argument at `i`: the new reading, and whether the next
/// argument was consumed as a value.
pub open spec fn step(g: Grammar, s: ArgState, toks: Seq<Seq<char>>, i: int) -> Result<(ArgState, bool), ArgError> {
    let t = toks[i];
    if t.len() >= 2 && t[0] == '-' && t[1] == '-' {
        if t.len() == 2 {
            Err((CliErrorKind::UnknownArgument, t))
        } else {
            long_step(g, s, toks, i, t)
        }
    } else if t.len() >= 2 && t[0] == '-' {
        short_step(g, s, toks, i, t)
    } else {
        word_step(g, s, t)
    }
}

/// Reading the arguments from `i` on, starting from reading `s`.
pub open spec fn run(g: Grammar, toks: Seq<Seq<char>>, i: int, s: ArgState) -> Result<ArgState, ArgError>
    decreases toks.len() - i,
{
    if i < 0 || i >= toks.len() {
        Ok(s)
    } else {
        match step(g, s, toks, i) {
            Err(e) => Err(e),
            Ok((s2, two)) => run(g, toks, if two { i + 2 } else { i + 1 }, s2),
        }
    }
}

/// The reading of a whole command line, program name first.
pub open spec fn parse(g: Grammar, toks: Seq<Seq<char>>) -> Result<ArgState, ArgError> {
    match run(g, toks, 1, initial_state()) {
        Err(e) => Err(e),
        Ok(s) => if s.command is None {
            Err((CliErrorKind::MissingSubcommand, Seq::empty()))
        } else {
            Ok(s)
        },
    }
}

/// The configuration path a reading selects, given the default.
pub open spec fn chosen_config(s: ArgState, default: Seq<char>) -> Seq<char> {
    match s.config_sub {
        Some(v) => v,
        None => match s.config_top {
            Some(v) => v,
            None => default,
        },
    }
}

/// The engine a reading selects, if any.
pub open spec fn chosen_engine(s: ArgState) -> Option<EngineArg> {
    match s.engine_sub {
        Some(e) => Some(e),
        None => s.engine_top,
    }
}

/// The executable counterpart of [`ArgState`].
pub struct ArgsState {
    pub config_top: Option<String>,
    pub config_sub: Option<String>,
    pub engine_top: Option<EngineArg>,
    pub engine_sub: Option<EngineArg>,
    pub command: Option<CmdName>,
    pub rollback: bool,
}

/// The text of an optional string.
pub open spec fn opt_text(o: Option<String>) -> Option<Seq<char>> {
    match o {
        Some(s) => Some(s@),
        None => None,
    }
}

impl ArgsState {
    /// The reading this state holds.
    pub open spec fn view(&self) -> ArgState {
        ArgState {
            config_top: opt_text(self.config_top),
            config_sub: opt_text(self.config_sub),
            engine_top: self.engine_top,
            engine_sub: self.engine_sub,
            command: self.command,
            rollback: self.rollback,
        }
    }
}

/// The spec-level counterpart of a step's executable result.
pub open spec fn step_view(r: Result<(ArgsState, bool), CliError>) -> Result<(ArgState, bool), ArgError> {
    match r {
        Ok((s, two)) => Ok((s.view(), two)),
        Err(e) => Err((e.kind, e.argument@)),
    }
}

fn refuse(kind: CliErrorKind, argument: &str) -> (r: Result<(ArgsState, bool), CliError>)
    ensures
        step_view(r) == Err::<(ArgState, bool), ArgError>((kind, argument@)),
{
    Err(CliError { kind, argument: argument.to_owned() })
}

fn first_index(s: &str, c: char) -> (k: usize)
    ensures
        k as int == index_from(s@, c, 0),
        k <= s@.len(),
{
    let n = s.unicode_len();
    let mut k: usize = 0;
    while k < n
        invariant
            n == s@.len(),
            k <= n,
            index_from(s@, c, 0) == index_from(s@, c, k as int),
        decreases n - k,
    {
        if s.get_char(k) == c {
            return k;
        }
        k = k + 1;
    }
    k
}

fn command_for_exec(g: Grammar, w: &str) -> (r: Option<CmdName>)
    ensures
        r == command_for(g, w@),
{
    if str_equal(w, "init") {
        Some(CmdName::Init)
    } else if str_equal(w, "validate") {
        Some(CmdName::Validate)
    } else if str_equal(w, "render") {
        Some(CmdName::Render)
    } else if str_equal(w, "run") {
        Some(CmdName::Run)
    } else if str_equal(w, "status") {
        Some(CmdName::Status)
    } else if str_equal(w, "rollback") {
        Some(CmdName::Rollback)
    } else if !g.full_commands {
        None
    } else if str_equal(w, "stop") {
        Some(CmdName::Stop)
    } else if str_equal(w, "audit") {
        Some(CmdName::Audit)
    } else if str_equal(w, "doctor") {
        Some(CmdName::Doctor)
    } else if str_equal(w, "kernel-install") {
        Some(CmdName::KernelInstall)
    } else if str_equal(w, "service-install") {
        Some(CmdName::ServiceInstall)
    } else if str_equal(w, "service-uninstall") {
        Some(CmdName::ServiceUninstall)
    } else {
        None
    }
}

fn engine_value_exec(v: &str) -> (r: Option<EngineArg>)
    ensures
        r == engine_value(v@),
{
    if str_equal(v, "mihomo") {
        Some(EngineArg::Mihomo)
    } else if str_equal(v, "sing-box") {
        Some(EngineArg::SingBox)
    } else {
        None
    }
}

/// The spec-level counterpart of an optional value and its consumption flag.
pub open spec fn value_view(v: Option<(String, bool)>) -> Option<(Seq<char>, bool)> {
    match v {
        Some((s, two)) => Some((s@, two)),
        None => None,
    }
}

fn take_value_exec(attached: Option<String>, toks: &Vec<String>, i: usize) -> (r: Option<(String, bool)>)
    requires
        i < toks@.len(),
    ensures
        value_view(r) == take_value(opt_text(attached), toks@.map_values(|s: String| s@), i as int),
{
    match attached {
        Some(v) => Some((v, false)),
        None => {
            if i < toks.len() - 1 {
                let next = toks[i + 1].as_str();
                let n = next.unicode_len();
                let flag_like = n >= 2 && next.get_char(0) == '-';
                if !flag_like {
                    return Some((toks[i + 1].clone(), true));
                }
            }
            None
        },
    }
}

fn config_step_exec(g: Grammar, s: ArgsState, v: Option<(String, bool)>, t: &str) -> (r: Result<(ArgsState, bool), CliError>)
    ensures
        step_view(r) == config_step(g, s.view(), value_view(v), t@),
{
    match v {
        None => refuse(CliErrorKind::MissingValue, t),
        Some((val, two)) => {
            if val.as_str().is_empty() {
                refuse(CliErrorKind::MissingValue, t)
            } else if s.command.is_some() {
                if !g.global_config {
                    refuse(CliErrorKind::UnexpectedArgument, t)
                } else if s.config_sub.is_some() {
                    refuse(CliErrorKind::DuplicateArgument, t)
                } else {
                    let s2 = ArgsState { config_sub: Some(val), ..s };
                    assert(s2.view() == ArgState { config_sub: Some(val@), ..s.view() });
                    Ok((s2, two))
                }
            } else if s.config_top.is_some() {
                refuse(CliErrorKind::DuplicateArgument, t)
            } else {
                let s2 = ArgsState { config_top: Some(val), ..s };
                assert(s2.view() == ArgState { config_top: Some(val@), ..s.view() });
                Ok((s2, two))
            }
        },
    }
}

fn engine_step_exec(s: ArgsState, v: Option<(String, bool)>, t: &str) -> (r: Result<(ArgsState, bool), CliError>)
    ensures
        step_view(r) == engine_step(s.view(), value_view(v), t@),
{
    match v {
        None => refuse(CliErrorKind::MissingValue, t),
        Some((val, two)) => {
            match engine_value_exec(val.as_str()) {
                None => refuse(CliErrorKind::InvalidValue, val.as_str()),
                Some(e) => {
                    if s.command.is_some() {
                        if s.engine_sub.is_some() {
                            refuse(CliErrorKind::DuplicateArgument, t)
                        } else {
                            let s2 = ArgsState { engine_sub: Some(e), ..s };
                            assert(s2.view() == ArgState { engine_sub: Some(e), ..s.view() });
                            Ok((s2, two))
                        }
                    } else if s.engine_top.is_some() {
                        refuse(CliErrorKind::DuplicateArgument, t)
                    } else {
                        let s2 = ArgsState { engine_top: Some(e), ..s };
                        assert(s2.view() == ArgState { engine_top: Some(e), ..s.view() });
                        Ok((s2, two))
                    }
                },
            }
        },
    }
}

fn long_step_exec(g: Grammar, s: ArgsState, toks: &Vec<String>, i: usize) -> (r: Result<(ArgsState, bool), CliError>)
    requires
        i < toks@.len(),
        toks@[i as int]@.len() > 2,
    ensures
        step_view(r) == long_step(g, s.view(), toks@.map_values(|s: String| s@), i as int, toks@[i as int]@),
{
    let ghost tv = toks@.map_values(|s: String| s@);
    let t = toks[i].as_str();
    let n = t.unicode_len();
    let body = t.substring_char(2, n);
    let bn = body.unicode_len();
    let eq = first_index(body, '=');
    let name = body.substring_char(0, eq);
    let attached: Option<String> = if eq < bn {
        Some(body.substring_char(eq + 1, bn).to_owned())
    } else {
        None
    };
    assert(tv[i as int] == t@);
    if str_equal(name, "help") {
        if attached.is_none() {
            refuse(CliErrorKind::Help, t)
        } else {
            refuse(CliErrorKind::UnexpectedArgument, t)
        }
    } else if str_equal(name, "version") {
        if attached.is_none() && s.command.is_none() {
            refuse(CliErrorKind::Version, t)
        } else {
            refuse(CliErrorKind::UnknownArgument, t)
        }
    } else if str_equal(name, "config") {
        let v = take_value_exec(attached, toks, i);
        config_step_exec(g, s, v, t)
    } else if str_equal(name, "engine") && g.engine_flag {
        let v = take_value_exec(attached, toks, i);
        engine_step_exec(s, v, t)
    } else if str_equal(name, "rollback") && s.command == Some(CmdName::Stop) && attached.is_none() {
        if s.rollback {
            refuse(CliErrorKind::DuplicateArgument, t)
        } else {
            let s2 = ArgsState { rollback: true, ..s };
            assert(s2.view() == ArgState { rollback: true, ..s.view() });
            Ok((s2, false))
        }
    } else {
        refuse(CliErrorKind::UnknownArgument, t)
    }
}

fn short_step_exec(g: Grammar, s: ArgsState, toks: &Vec<String>, i: usize) -> (r: Result<(ArgsState, bool), CliError>)
    requires
        i < toks@.len(),
        toks@[i as int]@.len() >= 2,
    ensures
        step_view(r) == short_step(g, s.view(), toks@.map_values(|s: String| s@), i as int, toks@[i as int]@),
{
    let ghost tv = toks@.map_values(|s: String| s@);
    let t = toks[i].as_str();
    let n = t.unicode_len();
    assert(tv[i as int] == t@);
    let c = t.get_char(1);
    if c == 'h' {
        refuse(CliErrorKind::Help, t)
    } else if c == 'V' && s.command.is_none() {
        refuse(CliErrorKind::Version, t)
    } else if c == 'c' {
        let rest = t.substring_char(2, n);
        let rn = rest.unicode_len();
        let attached: Option<String> = if rn == 0 {
            None
        } else if rest.get_char(0) == '=' {
            Some(rest.substring_char(1, rn).to_owned())
        } else {
            Some(rest.to_owned())
        };
        assert(opt_text(attached) == short_attached(t@));
        let v = take_value_exec(attached, toks, i);
        config_step_exec(g, s, v, t)
    } else {
        refuse(CliErrorKind::UnknownArgument, t)
    }
}

fn word_step_exec(g: Grammar, s: ArgsState, t: &str) -> (r: Result<(ArgsState, bool), CliError>)
    ensures
        step_view(r) == word_step(g, s.view(), t@),
{
    if s.command.is_some() {
        refuse(CliErrorKind::UnexpectedArgument, t)
    } else if str_equal(t, "help") {
        refuse(CliErrorKind::Help, t)
    } else {
        match command_for_exec(g, t) {
            Some(cmd) => {
                let s2 = ArgsState { command: Some(cmd), ..s };
                assert(s2.view() == ArgState { command: Some(cmd), ..s.view() });
                Ok((s2, false))
            },
            None => refuse(CliErrorKind::UnrecognizedSubcommand, t),
        }
    }
}

fn step_exec(g: Grammar, s: ArgsState, toks: &Vec<String>, i: usize) -> (r: Result<(ArgsState, bool), CliError>)
    requires
        i < toks@.len(),
    ensures
        step_view(r) == step(g, s.view(), toks@.map_values(|s: String| s@), i as int),
{
    let ghost tv = toks@.map_values(|s: String| s@);
    let t = toks[i].as_str();
    assert(tv[i as int] == t@);
    let n = t.unicode_len();
    if n >= 2 && t.get_char(0) == '-' && t.get_char(1) == '-' {
        if n == 2 {
            refuse(CliErrorKind::UnknownArgument, t)
        } else {
            long_step_exec(g, s, toks, i)
        }
    } else if n >= 2 && t.get_char(0) == '-' {
        short_step_exec(g, s, toks, i)
    } else {
        word_step_exec(g, s, t)
    }
}

/// The spec-level counterpart of a whole reading's executable result.
pub open spec fn state_view(r: Result<ArgsState, CliError>) -> Result<ArgState, ArgError> {
    match r {
        Ok(s) => Ok(s.view()),
        Err(e) => Err((e.kind, e.argument@)),
    }
}

/// Reads a whole command line, program name first, in grammar `g`.
pub fn parse_tokens(g: Grammar, toks: &Vec<String>) -> (r: Result<ArgsState, CliError>)
    ensures
        state_view(r) == parse(g, toks@.map_values(|s: String| s@)),
{
    let ghost tv = toks@.map_values(|s: String| s@);
    let mut s = ArgsState {
        config_top: None,
        config_sub: None,
        engine_top: None,
        engine_sub: None,
        command: None,
        rollback: false,
    };
    let mut i: usize = 1;
    assert(s.view() == initial_state());
    while i < toks.len()
        invariant
            1 <= i,
            tv == toks@.map_values(|s: String| s@),
            run(g, tv, 1, initial_state()) == run(g, tv, i as int, s.view()),
        decreases toks.len() - i,
    {
        match step_exec(g, s, toks, i) {
            Err(e) => {
                return Err(e);
            },
            Ok((s2, two)) => {
                s = s2;
                if two {
                    i = if i + 2 <= toks.len() { i + 2 } else { toks.len() };
                } else {
                    i = i + 1;
                }
            },
        }
    }
    if s.command.is_none() {
        Err(CliError { kind: CliErrorKind::MissingSubcommand, argument: String::new() })
    } else {
        Ok(s)
    }
}

} // verus!
