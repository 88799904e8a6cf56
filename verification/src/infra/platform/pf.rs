//! The macOS gateway as a state machine: it says what to do next (run a
//! command, read the default interface, create the work directory, write
//! or read an anchor file), is told how that went, and keeps the rollback
//! commands of what it changed.

use vstd::prelude::*;
use crate::command::{texts, CommandSpec};
use crate::config::AppConfig;
use crate::infra::platform::macos::{
    anchor_note, anchor_paths, detect_interface_command, gateway_rules, gateway_rules_text, mac_ignored_note,
    merge_policy_rules, merge_upto, pf_dns_rule, pf_enable_command, pf_flush_rollback, pf_load_command,
    pf_tcp_rule, policy_applied_note, policy_rules,
};
use crate::plan::{copy_texts, CommandView, FailView, PlanError, PlatformApplyResult};
use crate::text::{joined, PathStyle};

verus! {

/// Where the macOS gateway stands.
#[derive(Debug, Clone, Copy, PartialEq, Eq, Structural)]
pub enum PfStage {
    Forward,
    Detect,
    MakeDir,
    WriteGateway,
    ResetPolicy,
    ReadGateway,
    ReadPolicy,
    WriteAnchor,
    Enable,
    Load,
    Done,
}

/// How the last thing asked for went.
#[derive(Debug, Clone)]
pub enum PfEvent {
    /// A command ran and exited.
    Exited { success: bool },
    /// A command could not be started.
    StartFailed,
    /// The interface command printed this, with surrounding white space
    /// removed.
    Output(String),
    /// The directory was created or the file written.
    Written,
    /// The directory could not be created or the file not written.
    WriteFailed,
    /// The file holds this text (empty where it cannot be read).
    Read(String),
}

/// Why the macOS gateway stopped.
#[derive(Debug, Clone)]
pub enum PfFailure {
    Command(PlanError),
    DetectFailed,
    NoDefaultInterface,
    CreateDir(String),
    Write(String),
    Reset(String),
}

/// What to do next.
#[derive(Debug, Clone)]
pub enum PfAction {
    /// Run this command; it must succeed.
    Run(CommandSpec),
    /// Run this command and report what it prints.
    Capture(CommandSpec),
    /// Create this directory and its parents.
    CreateDir(String),
    /// Replace this file's contents.
    Write { path: String, contents: String },
    /// Read this file.
    Read(String),
    Finished(PlatformApplyResult),
    Failed(PfFailure),
}

/// A failure as texts.
pub enum PfFailView {
    Command(FailView),
    DetectFailed,
    NoDefaultInterface,
    CreateDir(Seq<char>),
    Write(Seq<char>),
    Reset(Seq<char>),
}

/// An event as texts.
pub enum PfEventView {
    Exited(bool),
    StartFailed,
    Output(Seq<char>),
    Written,
    WriteFailed,
    Read(Seq<char>),
}

/// An action as texts.
pub enum PfActionView {
    Run(CommandView),
    Capture(CommandView),
    CreateDir(Seq<char>),
    Write(Seq<char>, Seq<char>),
    Read(Seq<char>),
    Finished { rollbacks: Seq<Seq<char>>, notes: Seq<Seq<char>> },
    Failed(PfFailView),
}

/// The state of the macOS gateway.
pub struct PfState {
    pub stage: PfStage,
    /// The interface in use, once known.
    pub iface: Seq<char>,
    /// The gateway rules file as read back.
    pub gateway_read: Seq<char>,
    /// The combined anchor text.
    pub anchor: Seq<char>,
    pub rollbacks: Seq<Seq<char>>,
    pub failure: Option<PfFailView>,
}

impl PfFailure {
    /// The failure as texts.
    pub open spec fn view(&self) -> PfFailView {
        match *self {
            PfFailure::Command(e) => PfFailView::Command(e.view()),
            PfFailure::DetectFailed => PfFailView::DetectFailed,
            PfFailure::NoDefaultInterface => PfFailView::NoDefaultInterface,
            PfFailure::CreateDir(p) => PfFailView::CreateDir(p@),
            PfFailure::Write(p) => PfFailView::Write(p@),
            PfFailure::Reset(p) => PfFailView::Reset(p@),
        }
    }
}

impl PfEvent {
    /// The event as texts.
    pub open spec fn view(&self) -> PfEventView {
        match *self {
            PfEvent::Exited { success } => PfEventView::Exited(success),
            PfEvent::StartFailed => PfEventView::StartFailed,
            PfEvent::Output(t) => PfEventView::Output(t@),
            PfEvent::Written => PfEventView::Written,
            PfEvent::WriteFailed => PfEventView::WriteFailed,
            PfEvent::Read(t) => PfEventView::Read(t@),
        }
    }
}

impl PfAction {
    /// The action as texts.
    pub open spec fn view(&self) -> PfActionView {
        match *self {
            PfAction::Run(c) => PfActionView::Run(c.spec_parts()),
            PfAction::Capture(c) => PfActionView::Capture(c.spec_parts()),
            PfAction::CreateDir(p) => PfActionView::CreateDir(p@),
            PfAction::Write { path, contents } => PfActionView::Write(path@, contents@),
            PfAction::Read(p) => PfActionView::Read(p@),
            PfAction::Finished(r) => PfActionView::Finished {
                rollbacks: texts(r.rollback_commands@),
                notes: texts(r.notes@),
            },
            PfAction::Failed(f) => PfActionView::Failed(f.view()),
        }
    }
}

/// The command that turns IPv4 forwarding on.
pub open spec fn pf_forward_command() -> CommandView {
    ("sysctl"@, seq!["-w"@, "net.inet.ip.forwarding=1"@])
}

/// The command that turns IPv4 forwarding off again.
pub open spec fn pf_forward_rollback() -> Seq<char> {
    "sysctl -w net.inet.ip.forwarding=0"@
}

/// The command that prints the default route's interface.
pub open spec fn pf_detect_command() -> CommandView {
    ("sh"@, seq!["-c"@, "route -n get default | awk '/interface:/{print $2}'"@])
}

/// The command that turns pf on.
pub open spec fn pf_enable() -> CommandView {
    ("pfctl"@, seq!["-E"@])
}

/// A file of the work directory (a macOS path).
pub open spec fn pf_file(c: AppConfig, name: Seq<char>) -> Seq<char> {
    joined(c.runtime.work_dir@, name, PathStyle::Unix)
}

/// The command that loads the combined anchor.
pub open spec fn pf_load(c: AppConfig) -> CommandView {
    ("pfctl"@, seq!["-a"@, "com.omnilan"@, "-f"@, pf_file(c, "pf.anchor.conf"@)])
}

/// The note that the anchor was loaded on `iface`.
pub open spec fn pf_loaded_note(c: AppConfig, iface: Seq<char>) -> Seq<char> {
    "pf anchor loaded: "@ + pf_file(c, "pf.anchor.conf"@) + " (iface="@ + iface + ")"@
}

/// The stage after forwarding: reading the interface unless one is
/// configured.
pub open spec fn pf_after_forward(c: AppConfig) -> PfStage {
    if c.gateway.interface is Some { PfStage::MakeDir } else { PfStage::Detect }
}

/// The state before anything was done.
pub open spec fn pf_start(c: AppConfig) -> PfState {
    PfState {
        stage: if c.gateway.auto_ip_forward { PfStage::Forward } else { pf_after_forward(c) },
        iface: match c.gateway.interface { Some(i) => i@, None => Seq::empty() },
        gateway_read: Seq::empty(),
        anchor: Seq::empty(),
        rollbacks: Seq::empty(),
        failure: None,
    }
}

/// What to do in state `s`.
pub open spec fn pf_action(c: AppConfig, s: PfState) -> PfActionView {
    match s.failure {
        Some(f) => PfActionView::Failed(f),
        None => match s.stage {
            PfStage::Forward => PfActionView::Run(pf_forward_command()),
            PfStage::Detect => PfActionView::Capture(pf_detect_command()),
            PfStage::MakeDir => PfActionView::CreateDir(c.runtime.work_dir@),
            PfStage::WriteGateway => PfActionView::Write(pf_file(c, "pf.gateway.conf"@), gateway_rules_text(c, s.iface)),
            PfStage::ResetPolicy => PfActionView::Write(pf_file(c, "pf.policy.conf"@), Seq::empty()),
            PfStage::ReadGateway => PfActionView::Read(pf_file(c, "pf.gateway.conf"@)),
            PfStage::ReadPolicy => PfActionView::Read(pf_file(c, "pf.policy.conf"@)),
            PfStage::WriteAnchor => PfActionView::Write(pf_file(c, "pf.anchor.conf"@), s.anchor),
            PfStage::Enable => PfActionView::Run(pf_enable()),
            PfStage::Load => PfActionView::Run(pf_load(c)),
            PfStage::Done => PfActionView::Finished {
                rollbacks: s.rollbacks.push("pfctl -a com.omnilan -F all"@),
                notes: seq![pf_loaded_note(c, s.iface)],
            },
        },
    }
}

/// The state after a command of stage `s` ended with `e`: on success the
/// stage `next`, else the failure of `command`.
pub open spec fn pf_command_step(s: PfState, e: PfEventView, command: CommandView, next: PfState) -> PfState {
    match e {
        PfEventView::Exited(success) => if success { next } else {
            PfState { failure: Some(PfFailView::Command((false, command))), ..s }
        },
        PfEventView::StartFailed => PfState { failure: Some(PfFailView::Command((true, command))), ..s },
        _ => s,
    }
}

/// The state after a write of stage `s` ended with `e`: on success the
/// stage `next`, else the failure `f`.
pub open spec fn pf_write_step(s: PfState, e: PfEventView, f: PfFailView, next: PfStage) -> PfState {
    match e {
        PfEventView::Written => PfState { stage: next, ..s },
        PfEventView::WriteFailed => PfState { failure: Some(f), ..s },
        _ => s,
    }
}

/// The state after what state `s` asked for went as `e`. An event that does
/// not answer the pending action changes nothing, and a finished or failed
/// run stays as it is.
pub open spec fn pf_step(c: AppConfig, s: PfState, e: PfEventView) -> PfState {
    if s.failure is Some {
        s
    } else {
        match s.stage {
            PfStage::Forward => pf_command_step(s, e, pf_forward_command(),
                PfState { stage: pf_after_forward(c), rollbacks: s.rollbacks.push(pf_forward_rollback()), ..s }),
            PfStage::Detect => match e {
                PfEventView::Output(t) => if t.len() == 0 {
                    PfState { failure: Some(PfFailView::NoDefaultInterface), ..s }
                } else {
                    PfState { stage: PfStage::MakeDir, iface: t, ..s }
                },
                PfEventView::StartFailed => PfState { failure: Some(PfFailView::DetectFailed), ..s },
                _ => s,
            },
            PfStage::MakeDir => pf_write_step(s, e, PfFailView::CreateDir(c.runtime.work_dir@), PfStage::WriteGateway),
            PfStage::WriteGateway => pf_write_step(s, e, PfFailView::Write(pf_file(c, "pf.gateway.conf"@)), PfStage::ResetPolicy),
            PfStage::ResetPolicy => pf_write_step(s, e, PfFailView::Reset(pf_file(c, "pf.policy.conf"@)), PfStage::ReadGateway),
            PfStage::ReadGateway => match e {
                PfEventView::Read(t) => PfState { stage: PfStage::ReadPolicy, gateway_read: t, ..s },
                _ => s,
            },
            PfStage::ReadPolicy => match e {
                PfEventView::Read(t) => PfState { stage: PfStage::WriteAnchor, anchor: s.gateway_read + "\n"@ + t, ..s },
                _ => s,
            },
            PfStage::WriteAnchor => pf_write_step(s, e, PfFailView::Write(pf_file(c, "pf.anchor.conf"@)), PfStage::Enable),
            PfStage::Enable => pf_command_step(s, e, pf_enable(), PfState { stage: PfStage::Load, ..s }),
            PfStage::Load => pf_command_step(s, e, pf_load(c), PfState { stage: PfStage::Done, ..s }),
            PfStage::Done => s,
        }
    }
}

/// The state after a sequence of events.
pub open spec fn pf_replay(c: AppConfig, s: PfState, events: Seq<PfEventView>) -> PfState
    decreases events.len(),
{
    if events.len() == 0 {
        s
    } else {
        pf_replay(c, pf_step(c, s, events[0]), events.drop_first())
    }
}

/// The actions asked for before each of a sequence of events.
pub open spec fn pf_trace(c: AppConfig, s: PfState, events: Seq<PfEventView>) -> Seq<PfActionView>
    decreases events.len(),
{
    if events.len() == 0 {
        Seq::empty()
    } else {
        seq![pf_action(c, s)] + pf_trace(c, pf_step(c, s, events[0]), events.drop_first())
    }
}

/// The interface a successful run uses: the configured one, else the one
/// detected.
pub open spec fn pf_iface(c: AppConfig, detected: Seq<char>) -> Seq<char> {
    match c.gateway.interface { Some(i) => i@, None => detected }
}

/// Everything going well from the work directory on: the files are written,
/// read back as written, and both `pfctl` commands succeed.
pub open spec fn pf_success_tail(c: AppConfig, iface: Seq<char>) -> Seq<PfEventView> {
    seq![
        PfEventView::Written,
        PfEventView::Written,
        PfEventView::Written,
        PfEventView::Read(gateway_rules_text(c, iface)),
        PfEventView::Read(Seq::empty()),
        PfEventView::Written,
        PfEventView::Exited(true),
        PfEventView::Exited(true),
    ]
}

/// Everything going well, the default route's interface being `detected`.
pub open spec fn pf_success_events(c: AppConfig, detected: Seq<char>) -> Seq<PfEventView> {
    (if c.gateway.auto_ip_forward { seq![PfEventView::Exited(true)] } else { Seq::empty() })
        + (if c.gateway.interface is None { seq![PfEventView::Output(detected)] } else { Seq::empty() })
        + pf_success_tail(c, pf_iface(c, detected))
}

/// What a successful run does from the work directory on.
pub open spec fn pf_success_tail_actions(c: AppConfig, iface: Seq<char>) -> Seq<PfActionView> {
    seq![
        PfActionView::CreateDir(c.runtime.work_dir@),
        PfActionView::Write(pf_file(c, "pf.gateway.conf"@), gateway_rules_text(c, iface)),
        PfActionView::Write(pf_file(c, "pf.policy.conf"@), Seq::empty()),
        PfActionView::Read(pf_file(c, "pf.gateway.conf"@)),
        PfActionView::Read(pf_file(c, "pf.policy.conf"@)),
        PfActionView::Write(pf_file(c, "pf.anchor.conf"@), gateway_rules_text(c, iface) + "\n"@),
        PfActionView::Run(pf_enable()),
        PfActionView::Run(pf_load(c)),
    ]
}

/// What a successful run does: forwarding when asked for, reading the
/// interface unless one is configured, then the files and `pfctl`.
pub open spec fn pf_success_actions(c: AppConfig, detected: Seq<char>) -> Seq<PfActionView> {
    (if c.gateway.auto_ip_forward { seq![PfActionView::Run(pf_forward_command())] } else { Seq::empty() })
        + (if c.gateway.interface is None { seq![PfActionView::Capture(pf_detect_command())] } else { Seq::empty() })
        + pf_success_tail_actions(c, pf_iface(c, detected))
}

proof fn lemma_pf_cons(c: AppConfig, s: PfState, e: PfEventView, rest: Seq<PfEventView>)
    ensures
        pf_replay(c, s, seq![e] + rest) == pf_replay(c, pf_step(c, s, e), rest),
        pf_trace(c, s, seq![e] + rest) == seq![pf_action(c, s)] + pf_trace(c, pf_step(c, s, e), rest),
{
    let es = seq![e] + rest;
    assert(es[0] == e);
    assert(es.drop_first() =~= rest);
}

proof fn lemma_pf_concat(c: AppConfig, s: PfState, a: Seq<PfEventView>, b: Seq<PfEventView>)
    ensures
        pf_replay(c, s, a + b) == pf_replay(c, pf_replay(c, s, a), b),
        pf_trace(c, s, a + b) == pf_trace(c, s, a) + pf_trace(c, pf_replay(c, s, a), b),
    decreases a.len(),
{
    if a.len() == 0 {
        assert(a + b =~= b);
        assert(pf_trace(c, s, a) + pf_trace(c, s, b) =~= pf_trace(c, s, b));
    } else {
        assert((a + b)[0] == a[0]);
        assert((a + b).drop_first() =~= a.drop_first() + b);
        lemma_pf_concat(c, pf_step(c, s, a[0]), a.drop_first(), b);
        assert(pf_trace(c, s, a + b) =~= pf_trace(c, s, a) + pf_trace(c, pf_replay(c, s, a), b));
    }
}

proof fn lemma_pf_tail(c: AppConfig, s: PfState)
    requires
        s.stage == PfStage::MakeDir,
        s.failure is None,
    ensures
        pf_replay(c, s, pf_success_tail(c, s.iface))
            == (PfState { stage: PfStage::Done, gateway_read: gateway_rules_text(c, s.iface),
                anchor: gateway_rules_text(c, s.iface) + "\n"@, ..s }),
        pf_trace(c, s, pf_success_tail(c, s.iface)) == pf_success_tail_actions(c, s.iface),
{
    let g = gateway_rules_text(c, s.iface);
    let ev = pf_success_tail(c, s.iface);
    let s1 = PfState { stage: PfStage::WriteGateway, ..s };
    let s2 = PfState { stage: PfStage::ResetPolicy, ..s };
    let s3 = PfState { stage: PfStage::ReadGateway, ..s };
    let s4 = PfState { stage: PfStage::ReadPolicy, gateway_read: g, ..s };
    let s5 = PfState { stage: PfStage::WriteAnchor, gateway_read: g, anchor: g + "\n"@ + Seq::<char>::empty(), ..s };
    let s6 = PfState { stage: PfStage::Enable, ..s5 };
    let s7 = PfState { stage: PfStage::Load, ..s5 };
    let s8 = PfState { stage: PfStage::Done, ..s5 };
    let e7 = seq![PfEventView::Exited(true)];
    let e6 = seq![PfEventView::Exited(true)] + e7;
    let e5 = seq![PfEventView::Written] + e6;
    let e4 = seq![PfEventView::Read(Seq::empty())] + e5;
    let e3 = seq![PfEventView::Read(g)] + e4;
    let e2 = seq![PfEventView::Written] + e3;
    let e1 = seq![PfEventView::Written] + e2;
    let e0 = seq![PfEventView::Written] + e1;
    assert(ev =~= e0);
    lemma_pf_cons(c, s, PfEventView::Written, e1);
    lemma_pf_cons(c, s1, PfEventView::Written, e2);
    lemma_pf_cons(c, s2, PfEventView::Written, e3);
    lemma_pf_cons(c, s3, PfEventView::Read(g), e4);
    lemma_pf_cons(c, s4, PfEventView::Read(Seq::empty()), e5);
    lemma_pf_cons(c, s5, PfEventView::Written, e6);
    lemma_pf_cons(c, s6, PfEventView::Exited(true), e7);
    lemma_pf_cons(c, s7, PfEventView::Exited(true), Seq::empty());
    assert(seq![PfEventView::Exited(true)] + Seq::<PfEventView>::empty() =~= e7);
    assert(pf_step(c, s, PfEventView::Written) == s1);
    assert(pf_step(c, s1, PfEventView::Written) == s2);
    assert(pf_step(c, s2, PfEventView::Written) == s3);
    assert(pf_step(c, s3, PfEventView::Read(g)) == s4);
    assert(pf_step(c, s4, PfEventView::Read(Seq::empty())) == s5);
    assert(pf_step(c, s5, PfEventView::Written) == s6);
    assert(pf_step(c, s6, PfEventView::Exited(true)) == s7);
    assert(pf_step(c, s7, PfEventView::Exited(true)) == s8);
    assert(g + "\n"@ + Seq::<char>::empty() =~= g + "\n"@);
    assert(pf_trace(c, s, ev) =~= pf_success_tail_actions(c, s.iface));
}

/// Law: when everything goes well, the macOS gateway turns forwarding on
/// exactly when asked to, reads the default interface unless one is
/// configured, writes the gateway rules, empties the policy rules, writes
/// the anchor as the gateway rules followed by a newline, turns pf on and
/// loads the anchor; it finishes with the forwarding rollback (when
/// forwarding was turned on) followed by the anchor flush, and the note
/// that the anchor was loaded on that interface.
pub proof fn law_pf_gateway_success(c: AppConfig, detected: Seq<char>)
    requires
        c.gateway.interface is None ==> detected.len() > 0,
    ensures
        ({
            let events = pf_success_events(c, detected);
            let end = pf_replay(c, pf_start(c), events);
            &&& pf_trace(c, pf_start(c), events) == pf_success_actions(c, detected)
            &&& pf_action(c, end) == (PfActionView::Finished {
                rollbacks: (if c.gateway.auto_ip_forward { seq![pf_forward_rollback()] } else { Seq::empty() })
                    + seq!["pfctl -a com.omnilan -F all"@],
                notes: seq![pf_loaded_note(c, pf_iface(c, detected))],
            })
        }),
{
    let s0 = pf_start(c);
    let iface = pf_iface(c, detected);
    let fwd: Seq<PfEventView> = if c.gateway.auto_ip_forward { seq![PfEventView::Exited(true)] } else { Seq::empty() };
    let det: Seq<PfEventView> = if c.gateway.interface is None { seq![PfEventView::Output(detected)] } else { Seq::empty() };
    let tail = pf_success_tail(c, iface);
    let fwd_rb: Seq<Seq<char>> = if c.gateway.auto_ip_forward { seq![pf_forward_rollback()] } else { Seq::empty() };
    // After forwarding.
    let s1 = PfState { stage: pf_after_forward(c), rollbacks: fwd_rb, ..s0 };
    lemma_pf_concat(c, s0, fwd, det + tail);
    if c.gateway.auto_ip_forward {
        lemma_pf_cons(c, s0, PfEventView::Exited(true), Seq::empty());
        assert(seq![PfEventView::Exited(true)] + Seq::<PfEventView>::empty() =~= fwd);
        assert(Seq::<Seq<char>>::empty().push(pf_forward_rollback()) =~= fwd_rb);
    }
    assert(pf_replay(c, s0, fwd) == s1);
    // After reading the interface.
    let s2 = PfState { stage: PfStage::MakeDir, iface, ..s1 };
    lemma_pf_concat(c, s1, det, tail);
    if c.gateway.interface is None {
        lemma_pf_cons(c, s1, PfEventView::Output(detected), Seq::empty());
        assert(seq![PfEventView::Output(detected)] + Seq::<PfEventView>::empty() =~= det);
    }
    assert(pf_replay(c, s1, det) == s2);
    lemma_pf_tail(c, s2);
    assert(fwd + det + tail =~= fwd + (det + tail));
    assert(pf_success_events(c, detected) == fwd + det + tail);
    let fa: Seq<PfActionView> = if c.gateway.auto_ip_forward { seq![PfActionView::Run(pf_forward_command())] } else { Seq::empty() };
    let da: Seq<PfActionView> = if c.gateway.interface is None { seq![PfActionView::Capture(pf_detect_command())] } else { Seq::empty() };
    assert(pf_trace(c, s0, fwd) =~= fa);
    assert(pf_trace(c, s1, det) =~= da);
    assert(pf_trace(c, s0, fwd + det + tail) =~= fa + da + pf_success_tail_actions(c, iface));
    assert(pf_trace(c, s0, pf_success_events(c, detected)) == pf_success_actions(c, detected));
    let end = pf_replay(c, s2, tail);
    assert(pf_replay(c, s0, fwd + (det + tail)) == pf_replay(c, s1, det + tail));
    assert(pf_replay(c, s1, det + tail) == end);
    assert(pf_replay(c, s0, pf_success_events(c, detected)) == end);
    assert(end.rollbacks == fwd_rb);
    assert(fwd_rb.push("pfctl -a com.omnilan -F all"@) =~= fwd_rb + seq!["pfctl -a com.omnilan -F all"@]);
}

/// The text of a failure.
pub open spec fn pf_failure_message(f: PfFailView) -> Seq<char> {
    match f {
        PfFailView::Command(e) => crate::plan::failure_message(e),
        PfFailView::DetectFailed => "failed to detect macOS default interface"@,
        PfFailView::NoDefaultInterface => "unable to detect default interface on macOS"@,
        PfFailView::CreateDir(p) => "failed to create "@ + p,
        PfFailView::Write(p) => "failed to write "@ + p,
        PfFailView::Reset(p) => "failed to reset "@ + p,
    }
}

impl PfFailure {
    /// A copy of the failure.
    pub fn duplicate(&self) -> (r: PfFailure)
        ensures
            r.view() == self.view(),
    {
        match self {
            PfFailure::Command(PlanError::StartFailed { command }) =>
                PfFailure::Command(PlanError::StartFailed { command: command.duplicate() }),
            PfFailure::Command(PlanError::CommandFailed { command }) =>
                PfFailure::Command(PlanError::CommandFailed { command: command.duplicate() }),
            PfFailure::DetectFailed => PfFailure::DetectFailed,
            PfFailure::NoDefaultInterface => PfFailure::NoDefaultInterface,
            PfFailure::CreateDir(p) => PfFailure::CreateDir(p.clone()),
            PfFailure::Write(p) => PfFailure::Write(p.clone()),
            PfFailure::Reset(p) => PfFailure::Reset(p.clone()),
        }
    }

    /// The human-readable text of the failure.
    pub fn message(&self) -> (r: String)
        ensures
            r@ == pf_failure_message(self.view()),
    {
        match self {
            PfFailure::Command(e) => e.message(),
            PfFailure::DetectFailed => "failed to detect macOS default interface".to_owned(),
            PfFailure::NoDefaultInterface => "unable to detect default interface on macOS".to_owned(),
            PfFailure::CreateDir(p) => {
                let mut r = "failed to create ".to_owned();
                r.append(p.as_str());
                r
            },
            PfFailure::Write(p) => {
                let mut r = "failed to write ".to_owned();
                r.append(p.as_str());
                r
            },
            PfFailure::Reset(p) => {
                let mut r = "failed to reset ".to_owned();
                r.append(p.as_str());
                r
            },
        }
    }
}

fn forward_command() -> (c: CommandSpec)
    ensures
        c.spec_parts() == pf_forward_command(),
{
    let mut args: Vec<String> = Vec::new();
    args.push("-w".to_owned());
    args.push("net.inet.ip.forwarding=1".to_owned());
    let c = CommandSpec { program: "sysctl".to_owned(), args };
    assert(texts(c.args@) =~= seq!["-w"@, "net.inet.ip.forwarding=1"@]);
    c
}

/// Applies the macOS gateway one action at a time.
pub struct PfGatewayRun {
    cfg: AppConfig,
    stage: PfStage,
    iface: String,
    gateway_read: String,
    anchor: String,
    rollbacks: Vec<String>,
    failure: Option<PfFailure>,
}

impl PfGatewayRun {
    /// The configuration being applied.
    pub closed spec fn config(&self) -> AppConfig {
        self.cfg
    }

    /// The state of the run.
    pub closed spec fn view(&self) -> PfState {
        PfState {
            stage: self.stage,
            iface: self.iface@,
            gateway_read: self.gateway_read@,
            anchor: self.anchor@,
            rollbacks: texts(self.rollbacks@),
            failure: match self.failure { Some(f) => Some(f.view()), None => None },
        }
    }

    /// Starts applying the gateway of `cfg`.
    pub fn new(cfg: AppConfig) -> (r: PfGatewayRun)
        ensures
            r.config() == cfg,
            r.view() == pf_start(cfg),
    {
        let stage = if cfg.gateway.auto_ip_forward {
            PfStage::Forward
        } else if cfg.gateway.interface.is_some() {
            PfStage::MakeDir
        } else {
            PfStage::Detect
        };
        let iface = match &cfg.gateway.interface {
            Some(i) => i.clone(),
            None => String::new(),
        };
        let r = PfGatewayRun {
            cfg,
            stage,
            iface,
            gateway_read: String::new(),
            anchor: String::new(),
            rollbacks: Vec::new(),
            failure: None,
        };
        assert(texts(r.rollbacks@) =~= Seq::<Seq<char>>::empty());
        r
    }

    /// What to do next.
    pub fn next_action(&self) -> (a: PfAction)
        ensures
            a.view() == pf_action(self.config(), self.view()),
    {
        if let Some(f) = &self.failure {
            return PfAction::Failed(f.duplicate());
        }
        let (gateway_path, policy_path, anchor_path) = anchor_paths(&self.cfg);
        match self.stage {
            PfStage::Forward => PfAction::Run(forward_command()),
            PfStage::Detect => PfAction::Capture(detect_interface_command()),
            PfStage::MakeDir => PfAction::CreateDir(self.cfg.runtime.work_dir.clone()),
            PfStage::WriteGateway => PfAction::Write {
                path: gateway_path,
                contents: gateway_rules(&self.cfg, self.iface.as_str()),
            },
            PfStage::ResetPolicy => PfAction::Write { path: policy_path, contents: String::new() },
            PfStage::ReadGateway => PfAction::Read(gateway_path),
            PfStage::ReadPolicy => PfAction::Read(policy_path),
            PfStage::WriteAnchor => PfAction::Write { path: anchor_path, contents: self.anchor.clone() },
            PfStage::Enable => PfAction::Run(pf_enable_command()),
            PfStage::Load => PfAction::Run(pf_load_command(anchor_path.as_str())),
            PfStage::Done => {
                let mut rollback_commands = copy_texts(&self.rollbacks);
                let ghost before = texts(rollback_commands@);
                rollback_commands.push(pf_flush_rollback());
                assert(texts(rollback_commands@) =~= before.push("pfctl -a com.omnilan -F all"@));
                let mut notes: Vec<String> = Vec::new();
                notes.push(anchor_note(anchor_path.as_str(), self.iface.as_str()));
                assert(texts(notes@) =~= seq![pf_loaded_note(self.cfg, self.iface@)]);
                PfAction::Finished(PlatformApplyResult { rollback_commands, notes })
            },
        }
    }

    fn fail(&mut self, f: PfFailure)
        ensures
            final(self).view() == (PfState { failure: Some(f.view()), ..old(self).view() }),
            final(self).config() == old(self).config(),
    {
        self.failure = Some(f);
    }

    /// Takes in how the last action went.
    pub fn on_event(&mut self, e: PfEvent)
        ensures
            final(self).config() == old(self).config(),
            final(self).view() == pf_step(old(self).config(), old(self).view(), e.view()),
    {
        if self.failure.is_some() {
            return;
        }
        let (gateway_path, policy_path, anchor_path) = anchor_paths(&self.cfg);
        match self.stage {
            PfStage::Forward => match e {
                PfEvent::Exited { success: true } => {
                    let ghost before = texts(self.rollbacks@);
                    self.rollbacks.push("sysctl -w net.inet.ip.forwarding=0".to_owned());
                    assert(texts(self.rollbacks@) =~= before.push(pf_forward_rollback()));
                    self.stage = if self.cfg.gateway.interface.is_some() { PfStage::MakeDir } else { PfStage::Detect };
                },
                PfEvent::Exited { success: false } =>
                    self.fail(PfFailure::Command(PlanError::CommandFailed { command: forward_command() })),
                PfEvent::StartFailed =>
                    self.fail(PfFailure::Command(PlanError::StartFailed { command: forward_command() })),
                _ => {},
            },
            PfStage::Detect => match e {
                PfEvent::Output(t) => {
                    if t.as_str().is_empty() {
                        self.fail(PfFailure::NoDefaultInterface);
                    } else {
                        self.iface = t;
                        self.stage = PfStage::MakeDir;
                    }
                },
                PfEvent::StartFailed => self.fail(PfFailure::DetectFailed),
                _ => {},
            },
            PfStage::MakeDir => match e {
                PfEvent::Written => self.stage = PfStage::WriteGateway,
                PfEvent::WriteFailed => {
                    let dir = self.cfg.runtime.work_dir.clone();
                    self.fail(PfFailure::CreateDir(dir));
                },
                _ => {},
            },
            PfStage::WriteGateway => match e {
                PfEvent::Written => self.stage = PfStage::ResetPolicy,
                PfEvent::WriteFailed => self.fail(PfFailure::Write(gateway_path)),
                _ => {},
            },
            PfStage::ResetPolicy => match e {
                PfEvent::Written => self.stage = PfStage::ReadGateway,
                PfEvent::WriteFailed => self.fail(PfFailure::Reset(policy_path)),
                _ => {},
            },
            PfStage::ReadGateway => match e {
                PfEvent::Read(t) => {
                    self.gateway_read = t;
                    self.stage = PfStage::ReadPolicy;
                },
                _ => {},
            },
            PfStage::ReadPolicy => match e {
                PfEvent::Read(t) => {
                    let mut anchor = self.gateway_read.clone();
                    anchor.append("\n");
                    anchor.append(t.as_str());
                    self.anchor = anchor;
                    self.stage = PfStage::WriteAnchor;
                },
                _ => {},
            },
            PfStage::WriteAnchor => match e {
                PfEvent::Written => self.stage = PfStage::Enable,
                PfEvent::WriteFailed => self.fail(PfFailure::Write(anchor_path)),
                _ => {},
            },
            PfStage::Enable => match e {
                PfEvent::Exited { success: true } => self.stage = PfStage::Load,
                PfEvent::Exited { success: false } =>
                    self.fail(PfFailure::Command(PlanError::CommandFailed { command: pf_enable_command() })),
                PfEvent::StartFailed =>
                    self.fail(PfFailure::Command(PlanError::StartFailed { command: pf_enable_command() })),
                _ => {},
            },
            PfStage::Load => match e {
                PfEvent::Exited { success: true } => self.stage = PfStage::Done,
                PfEvent::Exited { success: false } =>
                    self.fail(PfFailure::Command(PlanError::CommandFailed { command: pf_load_command(anchor_path.as_str()) })),
                PfEvent::StartFailed =>
                    self.fail(PfFailure::Command(PlanError::StartFailed { command: pf_load_command(anchor_path.as_str()) })),
                _ => {},
            },
            PfStage::Done => {},
        }
    }
}

/// Where the pf policy route of one device stands.
#[derive(Debug, Clone, Copy, PartialEq, Eq, Structural)]
pub enum PfPolicyStage {
    Detect,
    ReadExisting,
    WritePolicy,
    ReadGateway,
    ReadPolicy,
    WriteAnchor,
    Load,
    Done,
}

/// The state of the pf policy route of one device.
pub struct PfPolicyState {
    pub stage: PfPolicyStage,
    pub iface: Seq<char>,
    /// The policy rules file's new text.
    pub policy: Seq<char>,
    pub gateway_read: Seq<char>,
    pub anchor: Seq<char>,
    pub rollbacks: Seq<Seq<char>>,
    pub failure: Option<PfFailView>,
}

/// The two rules of device `ip` on `iface`.
pub open spec fn pf_device_rules(c: AppConfig, iface: Seq<char>, ip: Seq<char>) -> Seq<Seq<char>> {
    seq![pf_tcp_rule(c, iface, ip), pf_dns_rule(c, iface, ip)]
}

/// The notes of a device's policy route: that MAC matching is ignored when
/// a MAC address was given, then that the policy was applied.
pub open spec fn pf_policy_notes(ip: Seq<char>, mac_given: bool) -> Seq<Seq<char>> {
    (if mac_given {
        seq!["macOS pf backend ignores MAC matching for "@ + ip + ", using IP-based policy"@]
    } else {
        Seq::empty()
    }) + seq!["policy-route applied via pf for "@ + ip]
}

/// The state before anything was done.
pub open spec fn pf_policy_start(c: AppConfig) -> PfPolicyState {
    PfPolicyState {
        stage: if c.gateway.interface is Some { PfPolicyStage::ReadExisting } else { PfPolicyStage::Detect },
        iface: match c.gateway.interface { Some(i) => i@, None => Seq::empty() },
        policy: Seq::empty(),
        gateway_read: Seq::empty(),
        anchor: Seq::empty(),
        rollbacks: Seq::empty(),
        failure: None,
    }
}

/// What to do in state `s` for device `ip`.
pub open spec fn pf_policy_action(c: AppConfig, ip: Seq<char>, mac_given: bool, s: PfPolicyState) -> PfActionView {
    match s.failure {
        Some(f) => PfActionView::Failed(f),
        None => match s.stage {
            PfPolicyStage::Detect => PfActionView::Capture(pf_detect_command()),
            PfPolicyStage::ReadExisting => PfActionView::Read(pf_file(c, "pf.policy.conf"@)),
            PfPolicyStage::WritePolicy => PfActionView::Write(pf_file(c, "pf.policy.conf"@), s.policy),
            PfPolicyStage::ReadGateway => PfActionView::Read(pf_file(c, "pf.gateway.conf"@)),
            PfPolicyStage::ReadPolicy => PfActionView::Read(pf_file(c, "pf.policy.conf"@)),
            PfPolicyStage::WriteAnchor => PfActionView::Write(pf_file(c, "pf.anchor.conf"@), s.anchor),
            PfPolicyStage::Load => PfActionView::Run(pf_load(c)),
            PfPolicyStage::Done => PfActionView::Finished { rollbacks: s.rollbacks, notes: pf_policy_notes(ip, mac_given) },
        },
    }
}

/// The state after what state `s` asked for went as `e`. An event that does
/// not answer the pending action changes nothing, and a finished or failed
/// run stays as it is.
pub open spec fn pf_policy_step(c: AppConfig, ip: Seq<char>, s: PfPolicyState, e: PfEventView) -> PfPolicyState {
    if s.failure is Some {
        s
    } else {
        match s.stage {
            PfPolicyStage::Detect => match e {
                PfEventView::Output(t) => if t.len() == 0 {
                    PfPolicyState { failure: Some(PfFailView::NoDefaultInterface), ..s }
                } else {
                    PfPolicyState { stage: PfPolicyStage::ReadExisting, iface: t, ..s }
                },
                PfEventView::StartFailed => PfPolicyState { failure: Some(PfFailView::DetectFailed), ..s },
                _ => s,
            },
            PfPolicyStage::ReadExisting => match e {
                PfEventView::Read(t) => {
                    let m = merge_upto(t, pf_device_rules(c, s.iface, ip), pf_file(c, "pf.policy.conf"@), 2);
                    PfPolicyState { stage: PfPolicyStage::WritePolicy, policy: m.0, rollbacks: m.1, ..s }
                },
                _ => s,
            },
            PfPolicyStage::WritePolicy => match e {
                PfEventView::Written => PfPolicyState { stage: PfPolicyStage::ReadGateway, ..s },
                PfEventView::WriteFailed => PfPolicyState { failure: Some(PfFailView::Write(pf_file(c, "pf.policy.conf"@))), ..s },
                _ => s,
            },
            PfPolicyStage::ReadGateway => match e {
                PfEventView::Read(t) => PfPolicyState { stage: PfPolicyStage::ReadPolicy, gateway_read: t, ..s },
                _ => s,
            },
            PfPolicyStage::ReadPolicy => match e {
                PfEventView::Read(t) => PfPolicyState { stage: PfPolicyStage::WriteAnchor, anchor: s.gateway_read + "\n"@ + t, ..s },
                _ => s,
            },
            PfPolicyStage::WriteAnchor => match e {
                PfEventView::Written => PfPolicyState { stage: PfPolicyStage::Load, ..s },
                PfEventView::WriteFailed => PfPolicyState { failure: Some(PfFailView::Write(pf_file(c, "pf.anchor.conf"@))), ..s },
                _ => s,
            },
            PfPolicyStage::Load => match e {
                PfEventView::Exited(success) => if success {
                    PfPolicyState { stage: PfPolicyStage::Done, ..s }
                } else {
                    PfPolicyState { failure: Some(PfFailView::Command((false, pf_load(c)))), ..s }
                },
                PfEventView::StartFailed => PfPolicyState { failure: Some(PfFailView::Command((true, pf_load(c)))), ..s },
                _ => s,
            },
            PfPolicyStage::Done => s,
        }
    }
}

/// The state after a sequence of events.
pub open spec fn pf_policy_replay(c: AppConfig, ip: Seq<char>, s: PfPolicyState, events: Seq<PfEventView>) -> PfPolicyState
    decreases events.len(),
{
    if events.len() == 0 {
        s
    } else {
        pf_policy_replay(c, ip, pf_policy_step(c, ip, s, events[0]), events.drop_first())
    }
}

/// The actions asked for before each of a sequence of events.
pub open spec fn pf_policy_trace(c: AppConfig, ip: Seq<char>, mac_given: bool, s: PfPolicyState, events: Seq<PfEventView>)
    -> Seq<PfActionView>
    decreases events.len(),
{
    if events.len() == 0 {
        Seq::empty()
    } else {
        seq![pf_policy_action(c, ip, mac_given, s)]
            + pf_policy_trace(c, ip, mac_given, pf_policy_step(c, ip, s, events[0]), events.drop_first())
    }
}

/// The policy text and rollbacks of adding device `ip`'s rules to `existing`.
pub open spec fn pf_merged(c: AppConfig, iface: Seq<char>, ip: Seq<char>, existing: Seq<char>) -> (Seq<char>, Seq<Seq<char>>) {
    merge_upto(existing, pf_device_rules(c, iface, ip), pf_file(c, "pf.policy.conf"@), 2)
}

/// Everything going well: the interface is `detected` (unless configured),
/// the policy file holds `existing`, the gateway file holds `gateway`, files
/// read back as written, and `pfctl` succeeds.
pub open spec fn pf_policy_success_events(c: AppConfig, ip: Seq<char>, detected: Seq<char>, existing: Seq<char>, gateway: Seq<char>)
    -> Seq<PfEventView>
{
    let merged = pf_merged(c, pf_iface(c, detected), ip, existing);
    (if c.gateway.interface is None { seq![PfEventView::Output(detected)] } else { Seq::empty() })
        + seq![
            PfEventView::Read(existing),
            PfEventView::Written,
            PfEventView::Read(gateway),
            PfEventView::Read(merged.0),
            PfEventView::Written,
            PfEventView::Exited(true),
        ]
}

/// What a successful policy route of one device does.
pub open spec fn pf_policy_success_actions(c: AppConfig, ip: Seq<char>, detected: Seq<char>, existing: Seq<char>, gateway: Seq<char>)
    -> Seq<PfActionView>
{
    let merged = pf_merged(c, pf_iface(c, detected), ip, existing);
    (if c.gateway.interface is None { seq![PfActionView::Capture(pf_detect_command())] } else { Seq::empty() })
        + seq![
            PfActionView::Read(pf_file(c, "pf.policy.conf"@)),
            PfActionView::Write(pf_file(c, "pf.policy.conf"@), merged.0),
            PfActionView::Read(pf_file(c, "pf.gateway.conf"@)),
            PfActionView::Read(pf_file(c, "pf.policy.conf"@)),
            PfActionView::Write(pf_file(c, "pf.anchor.conf"@), gateway + "\n"@ + merged.0),
            PfActionView::Run(pf_load(c)),
        ]
}

proof fn lemma_pf_policy_cons(c: AppConfig, ip: Seq<char>, mac_given: bool, s: PfPolicyState, e: PfEventView, rest: Seq<PfEventView>)
    ensures
        pf_policy_replay(c, ip, s, seq![e] + rest) == pf_policy_replay(c, ip, pf_policy_step(c, ip, s, e), rest),
        pf_policy_trace(c, ip, mac_given, s, seq![e] + rest)
            == seq![pf_policy_action(c, ip, mac_given, s)] + pf_policy_trace(c, ip, mac_given, pf_policy_step(c, ip, s, e), rest),
{
    let es = seq![e] + rest;
    assert(es[0] == e);
    assert(es.drop_first() =~= rest);
}

/// Law: when everything goes well, the pf policy route of a device reads
/// the default interface unless one is configured, adds the device's two
/// rules that the policy file lacks, writes the anchor as the gateway rules,
/// a newline and the new policy rules, and loads it; it finishes with the
/// rollbacks of the rules it added and its notes.
pub proof fn law_pf_policy_success(c: AppConfig, ip: Seq<char>, mac_given: bool, detected: Seq<char>, existing: Seq<char>, gateway: Seq<char>)
    requires
        c.gateway.interface is None ==> detected.len() > 0,
    ensures
        ({
            let events = pf_policy_success_events(c, ip, detected, existing, gateway);
            let end = pf_policy_replay(c, ip, pf_policy_start(c), events);
            &&& pf_policy_trace(c, ip, mac_given, pf_policy_start(c), events)
                == pf_policy_success_actions(c, ip, detected, existing, gateway)
            &&& pf_policy_action(c, ip, mac_given, end) == (PfActionView::Finished {
                rollbacks: pf_merged(c, pf_iface(c, detected), ip, existing).1,
                notes: pf_policy_notes(ip, mac_given),
            })
        }),
{
    let s0 = pf_policy_start(c);
    let iface = pf_iface(c, detected);
    let m = pf_merged(c, iface, ip, existing);
    let s1 = PfPolicyState { stage: PfPolicyStage::ReadExisting, iface, ..s0 };
    let s2 = PfPolicyState { stage: PfPolicyStage::WritePolicy, policy: m.0, rollbacks: m.1, ..s1 };
    let s3 = PfPolicyState { stage: PfPolicyStage::ReadGateway, ..s2 };
    let s4 = PfPolicyState { stage: PfPolicyStage::ReadPolicy, gateway_read: gateway, ..s2 };
    let s5 = PfPolicyState { stage: PfPolicyStage::WriteAnchor, anchor: gateway + "\n"@ + m.0, ..s4 };
    let s6 = PfPolicyState { stage: PfPolicyStage::Load, ..s5 };
    let s7 = PfPolicyState { stage: PfPolicyStage::Done, ..s5 };
    let t5 = seq![PfEventView::Exited(true)];
    let t4 = seq![PfEventView::Written] + t5;
    let t3 = seq![PfEventView::Read(m.0)] + t4;
    let t2 = seq![PfEventView::Read(gateway)] + t3;
    let t1 = seq![PfEventView::Written] + t2;
    let t0 = seq![PfEventView::Read(existing)] + t1;
    lemma_pf_policy_cons(c, ip, mac_given, s1, PfEventView::Read(existing), t1);
    lemma_pf_policy_cons(c, ip, mac_given, s2, PfEventView::Written, t2);
    lemma_pf_policy_cons(c, ip, mac_given, s3, PfEventView::Read(gateway), t3);
    lemma_pf_policy_cons(c, ip, mac_given, s4, PfEventView::Read(m.0), t4);
    lemma_pf_policy_cons(c, ip, mac_given, s5, PfEventView::Written, t5);
    lemma_pf_policy_cons(c, ip, mac_given, s6, PfEventView::Exited(true), Seq::empty());
    assert(seq![PfEventView::Exited(true)] + Seq::<PfEventView>::empty() =~= t5);
    assert(pf_policy_step(c, ip, s1, PfEventView::Read(existing)) == s2);
    assert(pf_policy_step(c, ip, s2, PfEventView::Written) == s3);
    assert(pf_policy_step(c, ip, s3, PfEventView::Read(gateway)) == s4);
    assert(pf_policy_step(c, ip, s4, PfEventView::Read(m.0)) == s5);
    assert(pf_policy_step(c, ip, s5, PfEventView::Written) == s6);
    assert(pf_policy_step(c, ip, s6, PfEventView::Exited(true)) == s7);
    let tail_actions = seq![
        PfActionView::Read(pf_file(c, "pf.policy.conf"@)),
        PfActionView::Write(pf_file(c, "pf.policy.conf"@), m.0),
        PfActionView::Read(pf_file(c, "pf.gateway.conf"@)),
        PfActionView::Read(pf_file(c, "pf.policy.conf"@)),
        PfActionView::Write(pf_file(c, "pf.anchor.conf"@), gateway + "\n"@ + m.0),
        PfActionView::Run(pf_load(c)),
    ];
    assert(pf_policy_trace(c, ip, mac_given, s1, t0) =~= tail_actions);
    assert(pf_policy_replay(c, ip, s1, t0) == s7);
    let events = pf_policy_success_events(c, ip, detected, existing, gateway);
    if c.gateway.interface is None {
        lemma_pf_policy_cons(c, ip, mac_given, s0, PfEventView::Output(detected), t0);
        assert(events =~= seq![PfEventView::Output(detected)] + t0);
        assert(pf_policy_step(c, ip, s0, PfEventView::Output(detected)) == s1);
        assert(pf_policy_trace(c, ip, mac_given, s0, events)
            =~= pf_policy_success_actions(c, ip, detected, existing, gateway));
    } else {
        assert(events =~= t0);
        assert(s0 == s1);
        assert(pf_policy_trace(c, ip, mac_given, s0, events)
            =~= pf_policy_success_actions(c, ip, detected, existing, gateway));
    }
}

/// Applies the pf policy route of one device, one action at a time.
pub struct PfPolicyRun {
    cfg: AppConfig,
    ip: String,
    mac_given: bool,
    stage: PfPolicyStage,
    iface: String,
    policy: String,
    gateway_read: String,
    anchor: String,
    rollbacks: Vec<String>,
    failure: Option<PfFailure>,
}

impl PfPolicyRun {
    /// The configuration being applied.
    pub closed spec fn config(&self) -> AppConfig {
        self.cfg
    }

    /// The device's address.
    pub closed spec fn device(&self) -> Seq<char> {
        self.ip@
    }

    /// Whether a MAC address was given for the device.
    pub closed spec fn mac_given(&self) -> bool {
        self.mac_given
    }

    /// The state of the run.
    pub closed spec fn view(&self) -> PfPolicyState {
        PfPolicyState {
            stage: self.stage,
            iface: self.iface@,
            policy: self.policy@,
            gateway_read: self.gateway_read@,
            anchor: self.anchor@,
            rollbacks: texts(self.rollbacks@),
            failure: match self.failure { Some(f) => Some(f.view()), None => None },
        }
    }

    /// Starts the policy route of device `ip` (with `mac`, if known) under `cfg`.
    pub fn new(cfg: AppConfig, ip: &str, mac: Option<&str>) -> (r: PfPolicyRun)
        ensures
            r.config() == cfg,
            r.device() == ip@,
            r.mac_given() == (mac is Some),
            r.view() == pf_policy_start(cfg),
    {
        let stage = if cfg.gateway.interface.is_some() { PfPolicyStage::ReadExisting } else { PfPolicyStage::Detect };
        let iface = match &cfg.gateway.interface {
            Some(i) => i.clone(),
            None => String::new(),
        };
        let r = PfPolicyRun {
            cfg,
            ip: ip.to_owned(),
            mac_given: mac.is_some(),
            stage,
            iface,
            policy: String::new(),
            gateway_read: String::new(),
            anchor: String::new(),
            rollbacks: Vec::new(),
            failure: None,
        };
        assert(texts(r.rollbacks@) =~= Seq::<Seq<char>>::empty());
        r
    }

    /// What to do next.
    pub fn next_action(&self) -> (a: PfAction)
        ensures
            a.view() == pf_policy_action(self.config(), self.device(), self.mac_given(), self.view()),
    {
        if let Some(f) = &self.failure {
            return PfAction::Failed(f.duplicate());
        }
        let (gateway_path, policy_path, anchor_path) = anchor_paths(&self.cfg);
        match self.stage {
            PfPolicyStage::Detect => PfAction::Capture(detect_interface_command()),
            PfPolicyStage::ReadExisting => PfAction::Read(policy_path),
            PfPolicyStage::WritePolicy => PfAction::Write { path: policy_path, contents: self.policy.clone() },
            PfPolicyStage::ReadGateway => PfAction::Read(gateway_path),
            PfPolicyStage::ReadPolicy => PfAction::Read(policy_path),
            PfPolicyStage::WriteAnchor => PfAction::Write { path: anchor_path, contents: self.anchor.clone() },
            PfPolicyStage::Load => PfAction::Run(pf_load_command(anchor_path.as_str())),
            PfPolicyStage::Done => {
                let rollback_commands = copy_texts(&self.rollbacks);
                let mut notes: Vec<String> = Vec::new();
                if self.mac_given {
                    notes.push(mac_ignored_note(self.ip.as_str()));
                }
                notes.push(policy_applied_note(self.ip.as_str()));
                assert(texts(notes@) =~= pf_policy_notes(self.ip@, self.mac_given));
                PfAction::Finished(PlatformApplyResult { rollback_commands, notes })
            },
        }
    }

    /// Takes in how the last action went.
    pub fn on_event(&mut self, e: PfEvent)
        ensures
            final(self).config() == old(self).config(),
            final(self).device() == old(self).device(),
            final(self).mac_given() == old(self).mac_given(),
            final(self).view() == pf_policy_step(old(self).config(), old(self).device(), old(self).view(), e.view()),
    {
        if self.failure.is_some() {
            return;
        }
        let (_, policy_path, anchor_path) = anchor_paths(&self.cfg);
        match self.stage {
            PfPolicyStage::Detect => match e {
                PfEvent::Output(t) => {
                    if t.as_str().is_empty() {
                        self.failure = Some(PfFailure::NoDefaultInterface);
                    } else {
                        self.iface = t;
                        self.stage = PfPolicyStage::ReadExisting;
                    }
                },
                PfEvent::StartFailed => self.failure = Some(PfFailure::DetectFailed),
                _ => {},
            },
            PfPolicyStage::ReadExisting => match e {
                PfEvent::Read(t) => {
                    let rules = policy_rules(&self.cfg, self.iface.as_str(), self.ip.as_str());
                    let (text, rollbacks) = merge_policy_rules(t, &rules, policy_path.as_str());
                    assert(texts(rules@) =~= pf_device_rules(self.cfg, self.iface@, self.ip@));
                    self.policy = text;
                    self.rollbacks = rollbacks;
                    self.stage = PfPolicyStage::WritePolicy;
                },
                _ => {},
            },
            PfPolicyStage::WritePolicy => match e {
                PfEvent::Written => self.stage = PfPolicyStage::ReadGateway,
                PfEvent::WriteFailed => self.failure = Some(PfFailure::Write(policy_path)),
                _ => {},
            },
            PfPolicyStage::ReadGateway => match e {
                PfEvent::Read(t) => {
                    self.gateway_read = t;
                    self.stage = PfPolicyStage::ReadPolicy;
                },
                _ => {},
            },
            PfPolicyStage::ReadPolicy => match e {
                PfEvent::Read(t) => {
                    let mut anchor = self.gateway_read.clone();
                    anchor.append("\n");
                    anchor.append(t.as_str());
                    self.anchor = anchor;
                    self.stage = PfPolicyStage::WriteAnchor;
                },
                _ => {},
            },
            PfPolicyStage::WriteAnchor => match e {
                PfEvent::Written => self.stage = PfPolicyStage::Load,
                PfEvent::WriteFailed => self.failure = Some(PfFailure::Write(anchor_path)),
                _ => {},
            },
            PfPolicyStage::Load => match e {
                PfEvent::Exited { success: true } => self.stage = PfPolicyStage::Done,
                PfEvent::Exited { success: false } =>
                    self.failure = Some(PfFailure::Command(PlanError::CommandFailed { command: pf_load_command(anchor_path.as_str()) })),
                PfEvent::StartFailed =>
                    self.failure = Some(PfFailure::Command(PlanError::StartFailed { command: pf_load_command(anchor_path.as_str()) })),
                _ => {},
            },
            PfPolicyStage::Done => {},
        }
    }
}

} // verus!
