//! What the commands decide: the effective configuration, the kernel to
//! install, the audit tail to show, and the rollback script to keep.

use vstd::prelude::*;
use crate::cli::EngineArg;
use crate::config::{AppConfig, EngineKind};

verus! {

/// How many audit lines `audit` shows.
pub const AUDIT_TAIL: usize = 30;

/// The engine kind an `--engine` value names.
pub open spec fn engine_kind_of(a: EngineArg) -> EngineKind {
    match a {
        EngineArg::Mihomo => EngineKind::Mihomo,
        EngineArg::SingBox => EngineKind::SingBox,
    }
}

/// The engine kind an `--engine` value names.
pub fn engine_kind(a: EngineArg) -> (k: EngineKind)
    ensures
        k == engine_kind_of(a),
{
    match a {
        EngineArg::Mihomo => EngineKind::Mihomo,
        EngineArg::SingBox => EngineKind::SingBox,
    }
}

/// The configuration with the command line's engine, if one was given, in
/// place of the file's.
pub fn apply_engine_override(cfg: AppConfig, engine_override: Option<EngineArg>) -> (r: AppConfig)
    ensures
        r == (match engine_override {
            Some(a) => AppConfig { engine: engine_kind_of(a), ..cfg },
            None => cfg,
        }),
{
    match engine_override {
        Some(a) => AppConfig { engine: engine_kind(a), ..cfg },
        None => cfg,
    }
}

/// The kernel that `kernel-install` fetches: the one named on the command
/// line, or every kernel.
pub fn kernel_target(engine_override: Option<EngineArg>) -> (r: Option<EngineKind>)
    ensures
        r == (match engine_override {
            Some(a) => Some(engine_kind_of(a)),
            None => None,
        }),
{
    match engine_override {
        Some(a) => Some(engine_kind(a)),
        None => None,
    }
}

/// The rollback commands of a run: the gateway's, then the device
/// enforcement's, each in the order their changes were made.
pub fn run_rollbacks(gateway: Vec<String>, enforcement: Vec<String>) -> (r: Vec<String>)
    ensures
        r@ == gateway@ + enforcement@,
{
    let mut r = gateway;
    let mut rest = enforcement;
    r.append(&mut rest);
    r
}

/// The last `n` lines, or all of them when there are fewer.
pub fn tail_lines(lines: Vec<String>, n: usize) -> (r: Vec<String>)
    ensures
        r@ == (if lines@.len() > n { lines@.subrange(lines@.len() - n, lines@.len() as int) } else { lines@ }),
{
    let mut lines = lines;
    if lines.len() > n {
        let at = lines.len() - n;
        lines.split_off(at)
    } else {
        lines
    }
}

/// The rollback script: a shell script that runs the rollback commands last
/// first, one per line, so that the latest change is undone first.
pub open spec fn rollback_script_text(commands: Seq<Seq<char>>) -> Seq<char>
    decreases commands.len(),
{
    if commands.len() == 0 {
        "#!/bin/sh\n"@
    } else {
        rollback_script_text(commands.drop_first()) + commands[0] + "\n"@
    }
}

/// The commands as lines, in the given order.
pub open spec fn as_lines(commands: Seq<Seq<char>>) -> Seq<char>
    decreases commands.len(),
{
    if commands.len() == 0 {
        Seq::empty()
    } else {
        commands[0] + "\n"@ + as_lines(commands.drop_first())
    }
}

proof fn lemma_lines_push(commands: Seq<Seq<char>>, c: Seq<char>)
    ensures
        as_lines(commands.push(c)) == as_lines(commands) + c + "\n"@,
    decreases commands.len(),
{
    if commands.len() == 0 {
        let p = commands.push(c);
        assert(p.drop_first() =~= Seq::<Seq<char>>::empty());
        assert(as_lines(p.drop_first()) == Seq::<char>::empty());
        assert(p[0] == c);
        assert(as_lines(p) == c + "\n"@ + Seq::<char>::empty());
        assert(as_lines(p) =~= as_lines(commands) + c + "\n"@);
    } else {
        lemma_lines_push(commands.drop_first(), c);
        let p = commands.push(c);
        assert(p.drop_first() =~= commands.drop_first().push(c));
        assert(p[0] == commands[0]);
        assert(as_lines(p) == p[0] + "\n"@ + as_lines(p.drop_first()));
        assert(as_lines(p) == commands[0] + "\n"@ + (as_lines(commands.drop_first()) + c + "\n"@));
        assert(as_lines(commands) == commands[0] + "\n"@ + as_lines(commands.drop_first()));
        assert(as_lines(p) =~= as_lines(commands) + c + "\n"@);
    }
}

/// Law: the rollback script is the shell header followed by every rollback
/// command exactly once, one per line, latest change first.
pub proof fn law_rollback_script_reverses(commands: Seq<Seq<char>>)
    ensures
        rollback_script_text(commands) == "#!/bin/sh\n"@ + as_lines(commands.reverse()),
    decreases commands.len(),
{
    if commands.len() == 0 {
        assert(commands.reverse() =~= Seq::<Seq<char>>::empty());
        assert("#!/bin/sh\n"@ + as_lines(commands.reverse()) =~= "#!/bin/sh\n"@);
    } else {
        law_rollback_script_reverses(commands.drop_first());
        assert(commands.reverse() =~= commands.drop_first().reverse().push(commands[0]));
        lemma_lines_push(commands.drop_first().reverse(), commands[0]);
        assert(rollback_script_text(commands) =~= "#!/bin/sh\n"@ + as_lines(commands.reverse()));
    }
}

/// Renders the rollback script of the given rollback commands, which are in
/// the order their changes were made.
pub fn rollback_script(commands: &Vec<String>) -> (r: String)
    ensures
        r@ == rollback_script_text(commands@.map_values(|s: String| s@)),
{
    let ghost cv = commands@.map_values(|s: String| s@);
    let n = commands.len();
    let mut r = "#!/bin/sh\n".to_owned();
    let mut i: usize = n;
    assert(cv.subrange(n as int, n as int) =~= Seq::<Seq<char>>::empty());
    while i > 0
        invariant
            n == commands@.len(),
            cv == commands@.map_values(|s: String| s@),
            i <= n,
            r@ == rollback_script_text(cv.subrange(i as int, n as int)),
        decreases i,
    {
        i = i - 1;
        r.append(commands[i].as_str());
        r.append("\n");
        assert(cv.subrange(i as int, n as int).drop_first() =~= cv.subrange(i + 1, n as int));
    }
    assert(cv.subrange(0, n as int) =~= cv);
    r
}

} // verus!
