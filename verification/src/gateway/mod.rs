//! The gateway orchestrator: IP forwarding, LAN masquerading and DNS
//! redirection, run as direct `sysctl` and `iptables` commands.

use vstd::prelude::*;
use crate::command::{texts, CommandSpec};
use crate::config::{AppConfig, EngineKind};
use crate::infra::platform::Os;
use crate::infra::platform::linux::push_step;
use crate::plan::{step_views, ApplyPlan, PlanStep, StepView};
use crate::platform::{macos_forwarding, macos_forwarding_step};
use crate::text::{decimal, decimal_text};

verus! {

/// Orchestrates the host side of the gateway.
pub struct GatewayOrchestrator;

/// The rollback commands of an applied gateway.
#[derive(Debug, Clone, Default)]
pub struct GatewayResult {
    pub rollback_commands: Vec<String>,
}

/// Turning on IPv4 forwarding on Linux, undone by turning it off.
pub open spec fn linux_forwarding_step() -> StepView {
    StepView::Run {
        command: ("sysctl"@, seq!["-w"@, "net.ipv4.ip_forward=1"@]),
        rollback: Some("sysctl -w net.ipv4.ip_forward=0"@),
    }
}

/// Arguments of an `iptables` masquerading rule operation.
pub open spec fn nat_argv(op: Seq<char>, cidr: Seq<char>) -> Seq<Seq<char>> {
    seq!["-t"@, "nat"@, op, "POSTROUTING"@, "-s"@, cidr, "-j"@, "MASQUERADE"@]
}

/// Arguments of an `iptables` DNS redirection rule operation.
pub open spec fn dns_argv(op: Seq<char>, cidr: Seq<char>, proto: Seq<char>, dns_port: u16) -> Seq<Seq<char>> {
    seq!["-t"@, "nat"@, op, "PREROUTING"@, "-s"@, cidr, "-p"@, proto, "--dport"@, "53"@, "-j"@,
        "REDIRECT"@, "--to-ports"@, decimal(dns_port as nat)]
}

/// Masquerading of the LAN range; a check that cannot start counts as an
/// absent rule.
pub open spec fn masquerade_step(cidr: Seq<char>) -> StepView {
    StepView::EnsureRule {
        check: ("iptables"@, nat_argv("-C"@, cidr)),
        add: ("iptables"@, nat_argv("-A"@, cidr)),
        rollback: "iptables -t nat -D POSTROUTING -s "@ + cidr + " -j MASQUERADE"@,
        lenient: true,
    }
}

/// DNS redirection of the LAN range over `proto`; a check that cannot
/// start counts as an absent rule.
pub open spec fn dns_hijack_step(cidr: Seq<char>, proto: Seq<char>, dns_port: u16) -> StepView {
    StepView::EnsureRule {
        check: ("iptables"@, dns_argv("-C"@, cidr, proto, dns_port)),
        add: ("iptables"@, dns_argv("-A"@, cidr, proto, dns_port)),
        rollback: "iptables -t nat -D PREROUTING -s "@ + cidr + " -p "@ + proto
            + " --dport 53 -j REDIRECT --to-ports "@ + decimal(dns_port as nat),
        lenient: true,
    }
}

/// The gateway steps on `os`.
pub open spec fn gateway_steps(c: AppConfig, os: Os) -> Seq<StepView> {
    let cidr = c.gateway.lan_cidr@;
    (if c.gateway.auto_ip_forward {
        match os {
            Os::Linux => seq![linux_forwarding_step()],
            Os::MacOs => seq![macos_forwarding_step()],
            _ => Seq::empty(),
        }
    } else {
        Seq::empty()
    }) + (if c.gateway.auto_nat && os == Os::Linux {
        seq![masquerade_step(cidr)] + (if c.engine == EngineKind::Mihomo {
            seq![dns_hijack_step(cidr, "udp"@, c.inbound.dns_port), dns_hijack_step(cidr, "tcp"@, c.inbound.dns_port)]
        } else {
            Seq::empty()
        })
    } else {
        Seq::empty()
    })
}

/// The notes of the gateway on `os`, for what it leaves to the operator.
pub open spec fn gateway_notes(c: AppConfig, os: Os) -> Seq<Seq<char>> {
    (if c.gateway.auto_ip_forward && os == Os::Windows {
        seq!["windows ip forward setup should be handled by netsh; skipping automatic setup"@]
    } else {
        Seq::empty()
    }) + (if c.gateway.auto_nat && os == Os::MacOs {
        seq!["macOS NAT is usually managed by pf; please ensure pf rules are configured if needed"@]
    } else if c.gateway.auto_nat && os == Os::Windows {
        seq!["windows NAT can be managed via netsh/HNS; auto-NAT not implemented"@]
    } else {
        Seq::empty()
    })
}

/// `s` adds an `iptables` rule masquerading traffic from `cidr`.
pub open spec fn adds_masquerade(s: StepView, cidr: Seq<char>) -> bool {
    match s {
        StepView::EnsureRule { check, add, rollback, lenient } => {
            &&& add.0 == "iptables"@
            &&& add.1.len() == 8
            &&& add.1[2] == "-A"@
            &&& add.1[3] == "POSTROUTING"@
            &&& add.1[5] == cidr
            &&& add.1[7] == "MASQUERADE"@
        },
        _ => false,
    }
}

/// `s` adds an `iptables` rule redirecting DNS queries over `proto` from
/// `cidr` to port `port`.
pub open spec fn adds_dns_redirect(s: StepView, cidr: Seq<char>, proto: Seq<char>, port: u16) -> bool {
    match s {
        StepView::EnsureRule { check, add, rollback, lenient } => {
            &&& add.0 == "iptables"@
            &&& add.1.len() == 14
            &&& add.1[2] == "-A"@
            &&& add.1[3] == "PREROUTING"@
            &&& add.1[5] == cidr
            &&& add.1[7] == proto
            &&& add.1[9] == "53"@
            &&& add.1[11] == "REDIRECT"@
            &&& add.1[13] == decimal(port as nat)
        },
        _ => false,
    }
}

/// `s` turns IP forwarding on with `sysctl`.
pub open spec fn turns_forwarding_on(s: StepView) -> bool {
    match s {
        StepView::Run { command, rollback } => command.0 == "sysctl"@ && command.1.len() == 2 && command.1[0] == "-w"@,
        _ => false,
    }
}

/// Law: each gateway switch controls only its own steps. Forwarding is
/// turned on exactly when `auto_ip_forward` is set on Linux or macOS; the LAN
/// range is masqueraded exactly when `auto_nat` is set on Linux; DNS over UDP
/// and TCP is redirected to the engine's DNS port exactly when, in addition,
/// the engine is mihomo; and with `auto_nat` off no step touches
/// `iptables` at all.
pub proof fn law_gateway_switches(c: AppConfig, os: Os)
    ensures
        (exists|j: int| 0 <= j < gateway_steps(c, os).len() && #[trigger] turns_forwarding_on(gateway_steps(c, os)[j]))
            <==> (c.gateway.auto_ip_forward && (os == Os::Linux || os == Os::MacOs)),
        (exists|j: int| 0 <= j < gateway_steps(c, os).len()
            && #[trigger] adds_masquerade(gateway_steps(c, os)[j], c.gateway.lan_cidr@))
            <==> (c.gateway.auto_nat && os == Os::Linux),
        (exists|j: int| 0 <= j < gateway_steps(c, os).len()
            && #[trigger] adds_dns_redirect(gateway_steps(c, os)[j], c.gateway.lan_cidr@, "udp"@, c.inbound.dns_port))
            <==> (c.gateway.auto_nat && os == Os::Linux && c.engine == EngineKind::Mihomo),
        (exists|j: int| 0 <= j < gateway_steps(c, os).len()
            && #[trigger] adds_dns_redirect(gateway_steps(c, os)[j], c.gateway.lan_cidr@, "tcp"@, c.inbound.dns_port))
            <==> (c.gateway.auto_nat && os == Os::Linux && c.engine == EngineKind::Mihomo),
        !c.gateway.auto_nat ==> forall|j: int| 0 <= j < gateway_steps(c, os).len() ==> (#[trigger] gateway_steps(c, os)[j]) is Run,
{
    reveal_strlit("iptables");
    reveal_strlit("sysctl");
    reveal_strlit("-w");
    reveal_strlit("-A");
    reveal_strlit("-C");
    reveal_strlit("POSTROUTING");
    reveal_strlit("PREROUTING");
    reveal_strlit("MASQUERADE");
    reveal_strlit("REDIRECT");
    reveal_strlit("53");
    reveal_strlit("udp");
    reveal_strlit("tcp");
    let steps = gateway_steps(c, os);
    let cidr = c.gateway.lan_cidr@;
    let port = c.inbound.dns_port;
    let fwd: Seq<StepView> = if c.gateway.auto_ip_forward {
        match os {
            Os::Linux => seq![linux_forwarding_step()],
            Os::MacOs => seq![macos_forwarding_step()],
            _ => Seq::empty(),
        }
    } else {
        Seq::empty()
    };
    let dns: Seq<StepView> = if c.engine == EngineKind::Mihomo {
        seq![dns_hijack_step(cidr, "udp"@, port), dns_hijack_step(cidr, "tcp"@, port)]
    } else {
        Seq::empty()
    };
    let nat_steps: Seq<StepView> = if c.gateway.auto_nat && os == Os::Linux { seq![masquerade_step(cidr)] + dns } else { Seq::empty() };
    assert(steps == fwd + nat_steps);
    assert("udp"@ != "tcp"@) by { assert("udp"@[0] != "tcp"@[0]); }
    assert("-A"@ != "-C"@) by { assert("-A"@[1] != "-C"@[1]); }
    assert("-w"@ != "-A"@) by { assert("-w"@[1] != "-A"@[1]); }
    // Which steps are what.
    assert forall|j: int| 0 <= j < fwd.len() implies #[trigger] turns_forwarding_on(fwd[j]) && fwd[j] is Run by {}
    assert forall|j: int| 0 <= j < nat_steps.len() implies !(#[trigger] turns_forwarding_on(nat_steps[j])) && nat_steps[j] is EnsureRule by {
        if j > 0 {
            assert(nat_steps[j] == dns[j - 1]);
        }
    }
    assert forall|j: int| 0 <= j < steps.len() implies (#[trigger] turns_forwarding_on(steps[j])) == (j < fwd.len()) by {
        if j < fwd.len() { assert(steps[j] == fwd[j]); } else { assert(steps[j] == nat_steps[j - fwd.len()]); }
    }
    if c.gateway.auto_ip_forward && (os == Os::Linux || os == Os::MacOs) {
        assert(turns_forwarding_on(steps[0]));
    }
    if c.gateway.auto_nat && os == Os::Linux {
        assert(steps[fwd.len() as int] == masquerade_step(cidr));
        assert(adds_masquerade(steps[fwd.len() as int], cidr));
        if c.engine == EngineKind::Mihomo {
            assert(steps[fwd.len() + 1int] == dns_hijack_step(cidr, "udp"@, port));
            assert(adds_dns_redirect(steps[fwd.len() + 1int], cidr, "udp"@, port));
            assert(steps[fwd.len() + 2int] == dns_hijack_step(cidr, "tcp"@, port));
            assert(adds_dns_redirect(steps[fwd.len() + 2int], cidr, "tcp"@, port));
        }
    }
    assert forall|j: int| 0 <= j < steps.len() && #[trigger] adds_masquerade(steps[j], cidr) implies
        (c.gateway.auto_nat && os == Os::Linux) by {
        if j < fwd.len() { assert(steps[j] == fwd[j]); } else { assert(steps[j] == nat_steps[j - fwd.len()]); }
    }
    assert forall|j: int, proto: Seq<char>| 0 <= j < steps.len() && #[trigger] adds_dns_redirect(steps[j], cidr, proto, port) implies
        (c.gateway.auto_nat && os == Os::Linux && c.engine == EngineKind::Mihomo) by {
        if j < fwd.len() {
            assert(steps[j] == fwd[j]);
        } else {
            assert(steps[j] == nat_steps[j - fwd.len()]);
            if j == fwd.len() {
                assert(steps[j] == masquerade_step(cidr));
            } else {
                assert(nat_steps[j - fwd.len()] == dns[j - fwd.len() - 1]);
            }
        }
    }
    assert forall|j: int| 0 <= j < steps.len() && !c.gateway.auto_nat implies (#[trigger] steps[j]) is Run by {
        assert(steps[j] == fwd[j - 0]);
    }
}

fn text_args(items: Vec<&str>) -> (r: Vec<String>)
    ensures
        texts(r@) == items@.map_values(|s: &str| s@),
{
    let mut r: Vec<String> = Vec::new();
    let mut i: usize = 0;
    while i < items.len()
        invariant
            i <= items@.len(),
            r@.len() == i,
            forall|j: int| 0 <= j < i ==> r@[j]@ == items@[j]@,
        decreases items@.len() - i,
    {
        r.push(items[i].to_owned());
        i = i + 1;
    }
    assert(texts(r@) =~= items@.map_values(|s: &str| s@));
    r
}

fn linux_forwarding() -> (s: PlanStep)
    ensures
        s.view() == linux_forwarding_step(),
{
    let args = text_args(vec!["-w", "net.ipv4.ip_forward=1"]);
    assert(texts(args@) =~= seq!["-w"@, "net.ipv4.ip_forward=1"@]);
    PlanStep::Run {
        command: CommandSpec { program: "sysctl".to_owned(), args },
        rollback: Some("sysctl -w net.ipv4.ip_forward=0".to_owned()),
    }
}

fn nat_args(op: &str, cidr: &str) -> (r: Vec<String>)
    ensures
        texts(r@) == nat_argv(op@, cidr@),
{
    let r = text_args(vec!["-t", "nat", op, "POSTROUTING", "-s", cidr, "-j", "MASQUERADE"]);
    assert(texts(r@) =~= nat_argv(op@, cidr@));
    r
}

fn dns_args(op: &str, cidr: &str, proto: &str, dns_port: &str) -> (r: Vec<String>)
    ensures
        texts(r@) == seq!["-t"@, "nat"@, op@, "PREROUTING"@, "-s"@, cidr@, "-p"@, proto@, "--dport"@, "53"@,
            "-j"@, "REDIRECT"@, "--to-ports"@, dns_port@],
{
    let r = text_args(vec!["-t", "nat", op, "PREROUTING", "-s", cidr, "-p", proto, "--dport", "53", "-j",
        "REDIRECT", "--to-ports", dns_port]);
    assert(texts(r@) =~= seq!["-t"@, "nat"@, op@, "PREROUTING"@, "-s"@, cidr@, "-p"@, proto@, "--dport"@, "53"@,
        "-j"@, "REDIRECT"@, "--to-ports"@, dns_port@]);
    r
}

fn masquerade(cidr: &str) -> (s: PlanStep)
    ensures
        s.view() == masquerade_step(cidr@),
{
    let mut rollback = "iptables -t nat -D POSTROUTING -s ".to_owned();
    rollback.append(cidr);
    rollback.append(" -j MASQUERADE");
    PlanStep::EnsureRule {
        check: CommandSpec { program: "iptables".to_owned(), args: nat_args("-C", cidr) },
        add: CommandSpec { program: "iptables".to_owned(), args: nat_args("-A", cidr) },
        rollback,
        absent_when_check_fails_to_start: true,
    }
}

fn dns_hijack(cidr: &str, proto: &str, dns_port: u16) -> (s: PlanStep)
    ensures
        s.view() == dns_hijack_step(cidr@, proto@, dns_port),
{
    let port = decimal_text(dns_port as u64);
    let mut rollback = "iptables -t nat -D PREROUTING -s ".to_owned();
    rollback.append(cidr);
    rollback.append(" -p ");
    rollback.append(proto);
    rollback.append(" --dport 53 -j REDIRECT --to-ports ");
    rollback.append(port.as_str());
    PlanStep::EnsureRule {
        check: CommandSpec { program: "iptables".to_owned(), args: dns_args("-C", cidr, proto, port.as_str()) },
        add: CommandSpec { program: "iptables".to_owned(), args: dns_args("-A", cidr, proto, port.as_str()) },
        rollback,
        absent_when_check_fails_to_start: true,
    }
}

impl GatewayOrchestrator {
    /// The gateway plan for a configuration on `os`: forwarding when asked
    /// for (Linux and macOS), then on Linux masquerading of the LAN range
    /// and, for mihomo, DNS redirection to its DNS port; notes say what is
    /// left to the operator elsewhere.
    pub fn apply(cfg: &AppConfig, os: Os) -> (p: ApplyPlan)
        ensures
            p.spec_steps() == gateway_steps(*cfg, os),
            p.spec_notes() == gateway_notes(*cfg, os),
    {
        let mut steps: Vec<PlanStep> = Vec::new();
        let mut notes: Vec<String> = Vec::new();
        if cfg.gateway.auto_ip_forward {
            match os {
                Os::Linux => push_step(&mut steps, linux_forwarding()),
                Os::MacOs => push_step(&mut steps, macos_forwarding()),
                Os::Windows => notes.push("windows ip forward setup should be handled by netsh; skipping automatic setup".to_owned()),
                Os::Other => {},
            }
        }
        let ghost mid_steps = step_views(steps@);
        let ghost mid_notes = texts(notes@);
        if cfg.gateway.auto_nat {
            let cidr = cfg.gateway.lan_cidr.as_str();
            match os {
                Os::Linux => {
                    push_step(&mut steps, masquerade(cidr));
                    if cfg.engine == EngineKind::Mihomo {
                        push_step(&mut steps, dns_hijack(cidr, "udp", cfg.inbound.dns_port));
                        push_step(&mut steps, dns_hijack(cidr, "tcp", cfg.inbound.dns_port));
                    }
                },
                Os::MacOs => notes.push("macOS NAT is usually managed by pf; please ensure pf rules are configured if needed".to_owned()),
                Os::Windows => notes.push("windows NAT can be managed via netsh/HNS; auto-NAT not implemented".to_owned()),
                Os::Other => {},
            }
        }
        let p = ApplyPlan { steps, notes };
        assert(p.spec_steps() =~= gateway_steps(*cfg, os));
        assert(p.spec_notes() =~= gateway_notes(*cfg, os));
        p
    }
}

} // verus!
