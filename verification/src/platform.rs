//! Single-file platform dispatch: the Linux rule plans, and notes for the
//! adapters that macOS and Windows do not have yet.

use vstd::prelude::*;
use crate::command::texts;
use crate::config::AppConfig;
use crate::infra::platform::{empty_plan, linux, Os};
use crate::infra::platform::linux::push_step;
use crate::plan::{step_views, ApplyPlan, PlanStep, StepView};
use crate::command::CommandSpec;

pub use crate::plan::PlatformApplyResult;

verus! {

/// Turning on IPv4 forwarding on macOS with `sysctl`, undone by turning it off.
pub open spec fn macos_forwarding_step() -> StepView {
    StepView::Run {
        command: ("sysctl"@, seq!["-w"@, "net.inet.ip.forwarding=1"@]),
        rollback: Some("sysctl -w net.inet.ip.forwarding=0"@),
    }
}

/// Builds the macOS forwarding step.
pub fn macos_forwarding() -> (s: PlanStep)
    ensures
        s.view() == macos_forwarding_step(),
{
    let mut args: Vec<String> = Vec::new();
    args.push("-w".to_owned());
    args.push("net.inet.ip.forwarding=1".to_owned());
    let command = CommandSpec { program: "sysctl".to_owned(), args };
    assert(texts(command.args@) =~= seq!["-w"@, "net.inet.ip.forwarding=1"@]);
    PlanStep::Run { command, rollback: Some("sysctl -w net.inet.ip.forwarding=0".to_owned()) }
}

/// A plan with no steps and one note.
pub fn note_plan(note: String) -> (p: ApplyPlan)
    ensures
        p.spec_steps().len() == 0,
        p.spec_notes() == seq![note@],
{
    let mut notes: Vec<String> = Vec::new();
    notes.push(note);
    let p = ApplyPlan { steps: Vec::new(), notes };
    assert(p.spec_notes() =~= seq![note@]);
    p
}

fn apply_gateway_linux(cfg: &AppConfig) -> (p: ApplyPlan)
    ensures
        p.spec_steps() == linux::linux_gateway_steps(*cfg),
        p.spec_notes().len() == 0,
{
    linux::apply_gateway(cfg)
}

fn apply_gateway_macos(cfg: &AppConfig) -> (p: ApplyPlan)
    ensures
        p.spec_steps() == (if cfg.gateway.auto_ip_forward { seq![macos_forwarding_step()] } else { Seq::empty() }),
        p.spec_notes() == seq!["macOS NAT/policy route should be applied via pf anchor (planned adapter)"@],
{
    let mut p = note_plan("macOS NAT/policy route should be applied via pf anchor (planned adapter)".to_owned());
    if cfg.gateway.auto_ip_forward {
        push_step(&mut p.steps, macos_forwarding());
    }
    assert(p.spec_steps() =~= (if cfg.gateway.auto_ip_forward { seq![macos_forwarding_step()] } else { Seq::empty() }));
    p
}

fn apply_gateway_windows(_cfg: &AppConfig) -> (p: ApplyPlan)
    ensures
        p.spec_steps().len() == 0,
        p.spec_notes() == seq!["Windows adapter: enable forwarding/NAT via netsh/HNS (planned)"@],
{
    note_plan("Windows adapter: enable forwarding/NAT via netsh/HNS (planned)".to_owned())
}

fn apply_policy_target_linux(cfg: &AppConfig, ip: &str, mac: Option<&str>) -> (p: ApplyPlan)
    ensures
        p.spec_steps() == linux::linux_policy_steps(*cfg, ip@, match mac { Some(m) => Some(m@), None => None }),
        p.spec_notes().len() == 0,
{
    linux::apply_policy_target(cfg, ip, mac)
}

/// The gateway plan for `os`: the Linux rules, macOS forwarding, or a note.
pub fn apply_gateway(cfg: &AppConfig, os: Os) -> (p: ApplyPlan)
    ensures
        os == Os::Linux ==> p.spec_steps() == linux::linux_gateway_steps(*cfg) && p.spec_notes().len() == 0,
        os == Os::MacOs ==> p.spec_steps() == (if cfg.gateway.auto_ip_forward { seq![macos_forwarding_step()] } else { Seq::empty() })
            && p.spec_notes() == seq!["macOS NAT/policy route should be applied via pf anchor (planned adapter)"@],
        os == Os::Windows ==> p.spec_steps().len() == 0
            && p.spec_notes() == seq!["Windows adapter: enable forwarding/NAT via netsh/HNS (planned)"@],
        os == Os::Other ==> p.spec_steps().len() == 0 && p.spec_notes().len() == 0,
{
    match os {
        Os::Linux => apply_gateway_linux(cfg),
        Os::MacOs => apply_gateway_macos(cfg),
        Os::Windows => apply_gateway_windows(cfg),
        Os::Other => empty_plan(),
    }
}

/// The plan that sends one device's traffic to the engine on `os`: the
/// Linux rules, or a note that the adapter is reserved.
pub fn apply_policy_target(cfg: &AppConfig, ip: &str, mac: Option<&str>, os: Os) -> (p: ApplyPlan)
    ensures
        os == Os::Linux ==> p.spec_steps() == linux::linux_policy_steps(*cfg, ip@, match mac { Some(m) => Some(m@), None => None })
            && p.spec_notes().len() == 0,
        os == Os::MacOs ==> p.spec_steps().len() == 0
            && p.spec_notes() == seq!["policy-route target "@ + ip@ + " requires pf anchor rules on macOS; adapter reserved"@],
        os == Os::Windows ==> p.spec_steps().len() == 0
            && p.spec_notes() == seq!["policy-route target "@ + ip@ + " requires WFP/HNS rules on Windows; adapter reserved"@],
        os == Os::Other ==> p.spec_steps().len() == 0 && p.spec_notes().len() == 0,
{
    match os {
        Os::Linux => apply_policy_target_linux(cfg, ip, mac),
        Os::MacOs => {
            let mut note = "policy-route target ".to_owned();
            note.append(ip);
            note.append(" requires pf anchor rules on macOS; adapter reserved");
            note_plan(note)
        },
        Os::Windows => {
            let mut note = "policy-route target ".to_owned();
            note.append(ip);
            note.append(" requires WFP/HNS rules on Windows; adapter reserved");
            note_plan(note)
        },
        Os::Other => empty_plan(),
    }
}

} // verus!
