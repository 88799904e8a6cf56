use omnilan::text::PathStyle;
use omnilan::config::{AppConfig, EngineKind};
use omnilan::gateway::GatewayOrchestrator;
use omnilan::infra::platform::macos;
use omnilan::infra::platform::{self as infra_platform, capabilities, linux, windows, GatewayBackend, Os, PolicyBackend};
use omnilan::plan::{Action, ApplyPlan, Outcome, PlanRunner, PlanStep};
use omnilan::infra::platform::pf::{PfAction, PfEvent, PfGatewayRun, PfPolicyRun};
use omnilan::platform;

fn rollbacks(plan: &ApplyPlan) -> Vec<String> {
    plan.steps
        .iter()
        .filter_map(|s| match s {
            PlanStep::Run { rollback, .. } => rollback.clone(),
            PlanStep::EnsureRule { rollback, .. } => Some(rollback.clone()),
        })
        .collect()
}

#[test]
fn capabilities_per_os() {
    let l = capabilities(Os::Linux);
    assert_eq!((l.os, l.gateway, l.policy_route_ip, l.policy_route_mac, l.service), ("linux", true, true, true, true));
    let m = capabilities(Os::MacOs);
    assert_eq!((m.os, m.gateway, m.policy_route_ip, m.policy_route_mac, m.service), ("macos", true, true, false, true));
    let w = capabilities(Os::Windows);
    assert_eq!((w.os, w.gateway, w.policy_route_ip, w.policy_route_mac, w.service), ("windows", false, false, false, true));
    let o = capabilities(Os::Other);
    assert_eq!((o.os, o.gateway, o.policy_route_ip, o.policy_route_mac, o.service), ("unknown", false, false, false, false));
}

#[test]
fn linux_policy_plan() {
    let cfg = AppConfig::default_in("/h", PathStyle::Unix);
    let p = linux::apply_policy_target(&cfg, "192.168.1.20", Some("aa:bb:cc:dd:ee:ff"));
    assert_eq!(p.steps.len(), 6);
    assert_eq!(rollbacks(&p), vec![
        "iptables -t nat -D PREROUTING -s 192.168.1.20 -p tcp -j REDIRECT --to-ports 7892",
        "iptables -t nat -D PREROUTING -s 192.168.1.20 -p udp --dport 53 -j REDIRECT --to-ports 5353",
        "iptables -t nat -D PREROUTING -s 192.168.1.20 -p tcp --dport 53 -j REDIRECT --to-ports 5353",
        "iptables -t nat -D PREROUTING -m mac --mac-source aa:bb:cc:dd:ee:ff -p tcp -j REDIRECT --to-ports 7892",
        "iptables -t nat -D PREROUTING -m mac --mac-source aa:bb:cc:dd:ee:ff -p udp --dport 53 -j REDIRECT --to-ports 5353",
        "iptables -t nat -D PREROUTING -m mac --mac-source aa:bb:cc:dd:ee:ff -p tcp --dport 53 -j REDIRECT --to-ports 5353",
    ]);
    let q = linux::apply_policy_target(&cfg, "10.0.0.2", None);
    assert_eq!(q.steps.len(), 3);
}

#[test]
fn gateway_switches() {
    let mut cfg = AppConfig::default_in("/h", PathStyle::Unix);
    cfg.gateway.auto_nat = false;
    assert_eq!(rollbacks(&linux::apply_gateway(&cfg)), vec!["sysctl -w net.ipv4.ip_forward=0"]);
    cfg.gateway.auto_ip_forward = false;
    assert!(linux::apply_gateway(&cfg).steps.is_empty());
}

#[test]
fn windows_and_dispatch_notes() {
    let cfg = AppConfig::default_in("/h", PathStyle::Unix);
    assert_eq!(windows::apply_gateway(&cfg).notes, vec!["Windows gateway adapter currently not enabled (WFP/HNS planned)"]);
    assert_eq!(
        windows::apply_policy_target(&cfg, "1.2.3.4", None).notes,
        vec!["policy-route target 1.2.3.4 requires WFP/HNS rules on Windows; adapter planned"]
    );
    assert!(matches!(infra_platform::apply_gateway(cfg.clone(), Os::MacOs), GatewayBackend::Pf(_)));
    match infra_platform::apply_gateway(cfg.clone(), Os::Linux) {
        GatewayBackend::Plan(p) => assert_eq!(p.steps.len(), 4),
        _ => panic!("expected a plan"),
    }
    match infra_platform::apply_policy_target(cfg.clone(), "1.2.3.4", None, Os::Other) {
        PolicyBackend::Plan(p) => assert!(p.steps.is_empty() && p.notes.is_empty()),
        _ => panic!("expected a plan"),
    }
    assert!(matches!(infra_platform::apply_policy_target(cfg.clone(), "1.2.3.4", None, Os::MacOs), PolicyBackend::Pf(_)));

    let mac = platform::apply_gateway(&cfg, Os::MacOs);
    assert_eq!(rollbacks(&mac), vec!["sysctl -w net.inet.ip.forwarding=0"]);
    assert_eq!(mac.notes, vec!["macOS NAT/policy route should be applied via pf anchor (planned adapter)"]);
    assert_eq!(platform::apply_gateway(&cfg, Os::Windows).notes, vec!["Windows adapter: enable forwarding/NAT via netsh/HNS (planned)"]);
    assert_eq!(
        platform::apply_policy_target(&cfg, "1.2.3.4", None, Os::MacOs).notes,
        vec!["policy-route target 1.2.3.4 requires pf anchor rules on macOS; adapter reserved"]
    );
    assert_eq!(
        platform::apply_policy_target(&cfg, "1.2.3.4", None, Os::Windows).notes,
        vec!["policy-route target 1.2.3.4 requires WFP/HNS rules on Windows; adapter reserved"]
    );
    assert_eq!(platform::apply_policy_target(&cfg, "1.2.3.4", None, Os::Linux).steps.len(), 3);
}

#[test]
fn orchestrator_plan() {
    let mut cfg = AppConfig::default_in("/h", PathStyle::Unix);
    let p = GatewayOrchestrator::apply(&cfg, Os::Linux);
    assert_eq!(p.steps.len(), 4);
    match &p.steps[0] {
        PlanStep::Run { command, .. } => {
            assert_eq!(command.program, "sysctl");
            assert_eq!(command.args, vec!["-w", "net.ipv4.ip_forward=1"]);
        }
        _ => panic!("expected sysctl"),
    }
    match &p.steps[3] {
        PlanStep::EnsureRule { check, add, rollback, absent_when_check_fails_to_start } => {
            assert_eq!(check.program, "iptables");
            assert_eq!(check.args, vec!["-t", "nat", "-C", "PREROUTING", "-s", "192.168.0.0/16", "-p", "tcp", "--dport", "53", "-j", "REDIRECT", "--to-ports", "5353"]);
            assert_eq!(add.args[2], "-A");
            assert_eq!(rollback, "iptables -t nat -D PREROUTING -s 192.168.0.0/16 -p tcp --dport 53 -j REDIRECT --to-ports 5353");
            assert!(*absent_when_check_fails_to_start);
        }
        _ => panic!("expected rule"),
    }
    cfg.engine = EngineKind::SingBox;
    assert_eq!(GatewayOrchestrator::apply(&cfg, Os::Linux).steps.len(), 2);
    let m = GatewayOrchestrator::apply(&cfg, Os::MacOs);
    assert_eq!(m.steps.len(), 1);
    assert_eq!(m.notes, vec!["macOS NAT is usually managed by pf; please ensure pf rules are configured if needed"]);
    let w = GatewayOrchestrator::apply(&cfg, Os::Windows);
    assert!(w.steps.is_empty());
    assert_eq!(w.notes.len(), 2);

    let mut runner = PlanRunner::new(GatewayOrchestrator::apply(&cfg, Os::Linux));
    runner.on_outcome(Outcome::Exited { success: true });
    runner.on_outcome(Outcome::StartFailed);
    runner.on_outcome(Outcome::Exited { success: true });
    match runner.next_action() {
        Action::Finished(r) => assert_eq!(r.rollback_commands, vec![
            "sysctl -w net.ipv4.ip_forward=0",
            "iptables -t nat -D POSTROUTING -s 192.168.0.0/16 -j MASQUERADE",
        ]),
        _ => panic!("expected finish"),
    }
}

#[test]
fn pf_anchor_pieces() {
    let mut cfg = AppConfig::default_in("/h", PathStyle::Unix);
    let (g, p, c) = macos::anchor_paths(&cfg);
    assert_eq!((g.as_str(), p.as_str(), c.as_str()), ("/h/.ok-proxy/pf.gateway.conf", "/h/.ok-proxy/pf.policy.conf", "/h/.ok-proxy/pf.anchor.conf"));
    assert_eq!(
        macos::gateway_rules(&cfg, "en0"),
        "nat on en0 from 192.168.0.0/16 to any -> (en0)\nrdr pass on en0 inet proto { tcp udp } from 192.168.0.0/16 to any port 53 -> 127.0.0.1 port 5353\n"
    );
    cfg.gateway.auto_nat = false;
    assert_eq!(macos::gateway_rules(&cfg, "en0"), "\n");
}

#[test]
fn pf_policy_merge() {
    let cfg = AppConfig::default_in("/h", PathStyle::Unix);
    let rules = macos::policy_rules(&cfg, "en0", "192.168.1.7");
    assert_eq!(rules, vec![
        "rdr pass on en0 inet proto tcp from 192.168.1.7 to any -> 127.0.0.1 port 7892",
        "rdr pass on en0 inet proto { tcp udp } from 192.168.1.7 to any port 53 -> 127.0.0.1 port 5353",
    ]);
    let (text, undo) = macos::merge_policy_rules(String::new(), &rules, "/w/pf.policy.conf");
    assert_eq!(text, format!("{}\n{}\n", rules[0], rules[1]));
    assert_eq!(undo[0], "sed -i '' '/rdr pass on en0 inet proto tcp from 192.168.1.7 to any -> 127.0.0.1 port 7892/d' /w/pf.policy.conf");
    let (again, undo2) = macos::merge_policy_rules(text.clone(), &rules, "/w/pf.policy.conf");
    assert_eq!(again, text);
    assert!(undo2.is_empty());
    assert_eq!(macos::escaped_slashes("10.0.0.0/8 a/b"), "10.0.0.0\\/8 a\\/b");
    assert!(macos::text_contains("hello world", "o w"));
    assert!(!macos::text_contains("hello", "hello!"));
    assert_eq!(macos::pf_load_command("/w/a.conf").args, vec!["-a", "com.omnilan", "-f", "/w/a.conf"]);
    assert_eq!(macos::pf_enable_command().program, "pfctl");
    assert_eq!(macos::pf_flush_rollback(), "pfctl -a com.omnilan -F all");
    assert_eq!(macos::anchor_note("/w/a.conf", "en0"), "pf anchor loaded: /w/a.conf (iface=en0)");
    assert_eq!(macos::mac_ignored_note("1.2.3.4"), "macOS pf backend ignores MAC matching for 1.2.3.4, using IP-based policy");
    assert_eq!(macos::policy_applied_note("1.2.3.4"), "policy-route applied via pf for 1.2.3.4");
    assert_eq!(macos::detect_interface_command().args[1], "route -n get default | awk '/interface:/{print $2}'");
}

#[test]
fn command_lookup() {
    assert!(infra_platform::command_exists("sh"));
    assert!(!infra_platform::command_exists("/no/such/command-here"));
}

fn drive_pf(cfg: AppConfig, detected: &str, fail_write_of: Option<&str>) -> (Vec<String>, PfAction) {
    let mut run = PfGatewayRun::new(cfg);
    let mut files: std::collections::BTreeMap<String, String> = std::collections::BTreeMap::new();
    let mut log = vec![];
    loop {
        let action = run.next_action();
        let event = match &action {
            PfAction::Run(c) => {
                log.push(format!("run {} {}", c.program, c.args.join(" ")));
                PfEvent::Exited { success: true }
            }
            PfAction::Capture(_) => {
                log.push("capture".to_string());
                PfEvent::Output(detected.to_string())
            }
            PfAction::CreateDir(d) => {
                log.push(format!("mkdir {}", d));
                PfEvent::Written
            }
            PfAction::Write { path, contents } => {
                log.push(format!("write {} {:?}", path, contents));
                if Some(path.as_str()) == fail_write_of {
                    PfEvent::WriteFailed
                } else {
                    files.insert(path.clone(), contents.clone());
                    PfEvent::Written
                }
            }
            PfAction::Read(path) => {
                log.push(format!("read {}", path));
                PfEvent::Read(files.get(path).cloned().unwrap_or_default())
            }
            PfAction::Finished(_) | PfAction::Failed(_) => return (log, action),
        };
        run.on_event(event);
    }
}

#[test]
fn pf_gateway_run_in_order() {
    let cfg = AppConfig::default_in("/h", PathStyle::Unix);
    let (log, end) = drive_pf(cfg.clone(), "en0", None);
    let gw = "nat on en0 from 192.168.0.0/16 to any -> (en0)\nrdr pass on en0 inet proto { tcp udp } from 192.168.0.0/16 to any port 53 -> 127.0.0.1 port 5353\n";
    assert_eq!(log, vec![
        "run sysctl -w net.inet.ip.forwarding=1".to_string(),
        "capture".to_string(),
        "mkdir /h/.ok-proxy".to_string(),
        format!("write /h/.ok-proxy/pf.gateway.conf {:?}", gw),
        "write /h/.ok-proxy/pf.policy.conf \"\"".to_string(),
        "read /h/.ok-proxy/pf.gateway.conf".to_string(),
        "read /h/.ok-proxy/pf.policy.conf".to_string(),
        format!("write /h/.ok-proxy/pf.anchor.conf {:?}", format!("{}\n", gw)),
        "run pfctl -E".to_string(),
        "run pfctl -a com.omnilan -f /h/.ok-proxy/pf.anchor.conf".to_string(),
    ]);
    match end {
        PfAction::Finished(r) => {
            assert_eq!(r.rollback_commands, vec!["sysctl -w net.inet.ip.forwarding=0", "pfctl -a com.omnilan -F all"]);
            assert_eq!(r.notes, vec!["pf anchor loaded: /h/.ok-proxy/pf.anchor.conf (iface=en0)"]);
        }
        _ => panic!("expected finish"),
    }
    let mut quiet = cfg.clone();
    quiet.gateway.auto_ip_forward = false;
    quiet.gateway.interface = Some("bridge0".to_string());
    let (log, end) = drive_pf(quiet, "", None);
    assert_eq!(log[0], "mkdir /h/.ok-proxy");
    match end {
        PfAction::Finished(r) => {
            assert_eq!(r.rollback_commands, vec!["pfctl -a com.omnilan -F all"]);
            assert_eq!(r.notes, vec!["pf anchor loaded: /h/.ok-proxy/pf.anchor.conf (iface=bridge0)"]);
        }
        _ => panic!("expected finish"),
    }
}

#[test]
fn pf_gateway_run_failures() {
    let cfg = AppConfig::default_in("/h", PathStyle::Unix);
    match drive_pf(cfg.clone(), "", None).1 {
        PfAction::Failed(f) => assert_eq!(f.message(), "unable to detect default interface on macOS"),
        _ => panic!("expected failure"),
    }
    match drive_pf(cfg.clone(), "en0", Some("/h/.ok-proxy/pf.policy.conf")).1 {
        PfAction::Failed(f) => assert_eq!(f.message(), "failed to reset /h/.ok-proxy/pf.policy.conf"),
        _ => panic!("expected failure"),
    }
    let mut run = PfGatewayRun::new(cfg);
    run.on_event(PfEvent::Exited { success: false });
    match run.next_action() {
        PfAction::Failed(f) => assert_eq!(
            f.message(),
            "command failed: sysctl [\"-w\", \"net.inet.ip.forwarding=1\"]"
        ),
        _ => panic!("expected failure"),
    }
}

#[test]
fn pf_policy_run_adds_missing_rules() {
    let mut cfg = AppConfig::default_in("/h", PathStyle::Unix);
    cfg.gateway.interface = Some("en0".to_string());
    let tcp = "rdr pass on en0 inet proto tcp from 192.168.1.7 to any -> 127.0.0.1 port 7892";
    let dns = "rdr pass on en0 inet proto { tcp udp } from 192.168.1.7 to any port 53 -> 127.0.0.1 port 5353";
    let mut files: std::collections::BTreeMap<String, String> = std::collections::BTreeMap::new();
    files.insert("/h/.ok-proxy/pf.policy.conf".to_string(), format!("{}\n", tcp));
    files.insert("/h/.ok-proxy/pf.gateway.conf".to_string(), "G\n".to_string());
    let mut run = PfPolicyRun::new(cfg, "192.168.1.7", Some("aa:bb:cc:dd:ee:ff"));
    let mut ran = vec![];
    let end = loop {
        let event = match run.next_action() {
            PfAction::Read(p) => PfEvent::Read(files.get(&p).cloned().unwrap_or_default()),
            PfAction::Write { path, contents } => {
                files.insert(path, contents);
                PfEvent::Written
            }
            PfAction::Run(c) => {
                ran.push(c.args.join(" "));
                PfEvent::Exited { success: true }
            }
            other => break other,
        };
        run.on_event(event);
    };
    assert_eq!(files["/h/.ok-proxy/pf.policy.conf"], format!("{}\n{}\n", tcp, dns));
    assert_eq!(files["/h/.ok-proxy/pf.anchor.conf"], format!("G\n\n{}\n{}\n", tcp, dns));
    assert_eq!(ran, vec!["-a com.omnilan -f /h/.ok-proxy/pf.anchor.conf"]);
    match end {
        PfAction::Finished(r) => {
            assert_eq!(r.rollback_commands, vec![format!("sed -i '' '/{}/d' /h/.ok-proxy/pf.policy.conf", dns)]);
            assert_eq!(r.notes, vec![
                "macOS pf backend ignores MAC matching for 192.168.1.7, using IP-based policy",
                "policy-route applied via pf for 192.168.1.7",
            ]);
        }
        _ => panic!("expected finish"),
    }
}

#[test]
fn dns_hijack_failure_names_the_protocol() {
    let cfg = AppConfig::default_in("/h", PathStyle::Unix);
    let plan = GatewayOrchestrator::apply(&cfg, Os::Linux);
    let mut runner = PlanRunner::new(plan.clone());
    let mut end = None;
    while end.is_none() {
        match runner.next_action() {
            Action::Execute(c) => {
                let dns_add = c.args.get(2).map(|a| a == "-A").unwrap_or(false) && c.args.contains(&"--dport".to_string());
                let check = c.args.get(2).map(|a| a == "-C").unwrap_or(false);
                runner.on_outcome(Outcome::Exited { success: !check && !dns_add });
            }
            other => end = Some(other),
        }
    }
    match end.unwrap() {
        Action::Failed(e) => assert_eq!(e.message(), "failed to apply dns hijack rule for proto=udp"),
        _ => panic!("expected failure"),
    }
    let mut runner = PlanRunner::new(plan);
    runner.on_outcome(Outcome::Exited { success: true });
    runner.on_outcome(Outcome::Exited { success: false });
    runner.on_outcome(Outcome::Exited { success: false });
    match runner.next_action() {
        Action::Failed(e) => assert_eq!(
            e.message(),
            "command failed: iptables [\"-t\", \"nat\", \"-A\", \"POSTROUTING\", \"-s\", \"192.168.0.0/16\", \"-j\", \"MASQUERADE\"]"
        ),
        _ => panic!("expected failure"),
    }
}
