//! Platform backends and what each platform supports.

use vstd::prelude::*;
use crate::config::AppConfig;
use crate::plan::ApplyPlan;
use crate::infra::platform::pf::{pf_policy_start, pf_start, PfGatewayRun, PfPolicyRun};

pub mod linux;
pub mod macos;
pub mod pf;
pub mod windows;

pub use crate::plan::PlatformApplyResult;

verus! {

/// The operating system the gateway runs on.
#[derive(Debug, Clone, Copy, PartialEq, Eq, Structural)]
pub enum Os {
    Linux,
    MacOs,
    Windows,
    Other,
}

/// What the gateway can do on a platform.
#[derive(Debug, Clone, Copy)]
pub struct PlatformCapabilities {
    pub os: &'static str,
    pub gateway: bool,
    pub policy_route_ip: bool,
    pub policy_route_mac: bool,
    pub service: bool,
}

/// The capabilities of `os`: its name, gateway, policy routing by address
/// and by MAC, and service management.
pub open spec fn capabilities_of(os: Os) -> (Seq<char>, bool, bool, bool, bool) {
    match os {
        Os::Linux => ("linux"@, true, true, true, true),
        Os::MacOs => ("macos"@, true, true, false, true),
        Os::Windows => ("windows"@, false, false, false, true),
        Os::Other => ("unknown"@, false, false, false, false),
    }
}

/// What the gateway can do on `os`.
pub fn capabilities(os: Os) -> (c: PlatformCapabilities)
    ensures
        (c.os@, c.gateway, c.policy_route_ip, c.policy_route_mac, c.service) == capabilities_of(os),
{
    match os {
        Os::Linux => PlatformCapabilities {
            os: "linux",
            gateway: true,
            policy_route_ip: true,
            policy_route_mac: true,
            service: true,
        },
        Os::MacOs => PlatformCapabilities {
            os: "macos",
            gateway: true,
            policy_route_ip: true,
            policy_route_mac: false,
            service: true,
        },
        Os::Windows => PlatformCapabilities {
            os: "windows",
            gateway: false,
            policy_route_ip: false,
            policy_route_mac: false,
            service: true,
        },
        Os::Other => PlatformCapabilities {
            os: "unknown",
            gateway: false,
            policy_route_ip: false,
            policy_route_mac: false,
            service: false,
        },
    }
}

/// An empty plan.
pub fn empty_plan() -> (p: ApplyPlan)
    ensures
        p.spec_steps().len() == 0,
        p.spec_notes().len() == 0,
{
    ApplyPlan { steps: Vec::new(), notes: Vec::new() }
}

/// How a platform applies a change: a plan of commands, or (on macOS) the
/// pf state machine, which reads the default interface and writes anchor
/// files as it goes.
pub enum GatewayBackend {
    Plan(ApplyPlan),
    Pf(PfGatewayRun),
}

/// How a platform redirects one device: a plan of commands, or (on macOS)
/// the pf state machine.
pub enum PolicyBackend {
    Plan(ApplyPlan),
    Pf(PfPolicyRun),
}

/// How the gateway of `cfg` is applied on `os`.
pub fn apply_gateway(cfg: AppConfig, os: Os) -> (b: GatewayBackend)
    ensures
        os == Os::MacOs <==> b is Pf,
        os == Os::MacOs ==> b->Pf_0.config() == cfg && b->Pf_0.view() == pf_start(cfg),
        os == Os::Linux ==> b->Plan_0.spec_steps() == linux::linux_gateway_steps(cfg) && b->Plan_0.spec_notes().len() == 0,
        os == Os::Windows ==> b->Plan_0.spec_steps().len() == 0
            && b->Plan_0.spec_notes() == seq!["Windows gateway adapter currently not enabled (WFP/HNS planned)"@],
        os == Os::Other ==> b->Plan_0.spec_steps().len() == 0 && b->Plan_0.spec_notes().len() == 0,
{
    match os {
        Os::Linux => GatewayBackend::Plan(linux::apply_gateway(&cfg)),
        Os::MacOs => GatewayBackend::Pf(PfGatewayRun::new(cfg)),
        Os::Windows => GatewayBackend::Plan(windows::apply_gateway(&cfg)),
        Os::Other => GatewayBackend::Plan(empty_plan()),
    }
}

/// How one device's traffic is sent to the engine on `os`.
pub fn apply_policy_target(cfg: AppConfig, ip: &str, mac: Option<&str>, os: Os) -> (b: PolicyBackend)
    ensures
        os == Os::MacOs <==> b is Pf,
        os == Os::MacOs ==> b->Pf_0.config() == cfg && b->Pf_0.device() == ip@ && b->Pf_0.mac_given() == (mac is Some)
            && b->Pf_0.view() == pf_policy_start(cfg),
        os == Os::Linux ==> b->Plan_0.spec_steps() == linux::linux_policy_steps(cfg, ip@, match mac { Some(m) => Some(m@), None => None })
            && b->Plan_0.spec_notes().len() == 0,
        os == Os::Windows ==> b->Plan_0.spec_steps().len() == 0
            && b->Plan_0.spec_notes() == seq!["policy-route target "@ + ip@ + " requires WFP/HNS rules on Windows; adapter planned"@],
        os == Os::Other ==> b->Plan_0.spec_steps().len() == 0 && b->Plan_0.spec_notes().len() == 0,
{
    match os {
        Os::Linux => PolicyBackend::Plan(linux::apply_policy_target(&cfg, ip, mac)),
        Os::MacOs => PolicyBackend::Pf(PfPolicyRun::new(cfg, ip, mac)),
        Os::Windows => PolicyBackend::Plan(windows::apply_policy_target(&cfg, ip, mac)),
        Os::Other => PolicyBackend::Plan(empty_plan()),
    }
}

/// `which::which`: whether an executable of that name or path is found. It
/// depends on `PATH` and the file system, so nothing is stated of it.
#[verifier::external_body]
pub fn command_exists(cmd: &str) -> bool {
    which::which(cmd).is_ok()
}

} // verus!
