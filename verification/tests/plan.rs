use omnilan::text::PathStyle;
use std::collections::BTreeSet;
use omnilan::command::CommandSpec;
use omnilan::config::AppConfig;
use omnilan::infra::platform::linux;
use omnilan::plan::{Action, ApplyPlan, Outcome, PlanError, PlanRunner};

fn script(c: &CommandSpec) -> String {
    assert_eq!(c.program, "sh");
    assert_eq!(c.args[0], "-c");
    c.args[1].clone()
}

fn drive(plan: ApplyPlan, mut answer: impl FnMut(&CommandSpec) -> Outcome) -> (Action, Vec<String>) {
    let mut runner = PlanRunner::new(plan);
    let mut ran = vec![];
    loop {
        match runner.next_action() {
            Action::Execute(cmd) => {
                ran.push(script(&cmd));
                let o = answer(&cmd);
                runner.on_outcome(o);
            }
            other => return (other, ran),
        }
    }
}

#[test]
fn fresh_host_gets_every_rule() {
    let cfg = AppConfig::default_in("/h", PathStyle::Unix);
    let (end, ran) = drive(linux::apply_gateway(&cfg), |c| {
        let s = script(c);
        Outcome::Exited { success: !s.contains(" -C ") }
    });
    match end {
        Action::Finished(r) => {
            assert_eq!(r.rollback_commands, vec![
                "sysctl -w net.ipv4.ip_forward=0",
                "iptables -t nat -D POSTROUTING -s 192.168.0.0/16 -j MASQUERADE",
                "iptables -t nat -D PREROUTING -s 192.168.0.0/16 -p udp --dport 53 -j REDIRECT --to-ports 5353",
                "iptables -t nat -D PREROUTING -s 192.168.0.0/16 -p tcp --dport 53 -j REDIRECT --to-ports 5353",
            ]);
            assert!(r.notes.is_empty());
        }
        _ => panic!("expected finish"),
    }
    assert_eq!(ran.len(), 7);
    assert_eq!(ran[1], "iptables -t nat -C POSTROUTING -s 192.168.0.0/16 -j MASQUERADE");
    assert_eq!(ran[2], "iptables -t nat -A POSTROUTING -s 192.168.0.0/16 -j MASQUERADE");
}

#[test]
fn present_rules_are_left_alone() {
    let mut cfg = AppConfig::default_in("/h", PathStyle::Unix);
    cfg.gateway.auto_ip_forward = false;
    let (end, ran) = drive(linux::apply_gateway(&cfg), |_| Outcome::Exited { success: true });
    match end {
        Action::Finished(r) => assert!(r.rollback_commands.is_empty()),
        _ => panic!("expected finish"),
    }
    assert_eq!(ran.len(), 3);
    assert!(ran.iter().all(|s| s.contains(" -C ")));
}

#[test]
fn failed_add_stops_the_run() {
    let cfg = AppConfig::default_in("/h", PathStyle::Unix);
    let (end, ran) = drive(linux::apply_gateway(&cfg), |c| {
        let s = script(c);
        Outcome::Exited { success: s.starts_with("sysctl") }
    });
    match end {
        Action::Failed(PlanError::CommandFailed { command }) => {
            assert_eq!(script(&command), "iptables -t nat -A POSTROUTING -s 192.168.0.0/16 -j MASQUERADE");
        }
        _ => panic!("expected failure"),
    }
    assert_eq!(ran.len(), 3);
}

#[test]
fn check_that_cannot_start_fails_strict_rules() {
    let mut cfg = AppConfig::default_in("/h", PathStyle::Unix);
    cfg.gateway.auto_ip_forward = false;
    let (end, _) = drive(linux::apply_gateway(&cfg), |_| Outcome::StartFailed);
    assert!(matches!(end, Action::Failed(PlanError::StartFailed { .. })));
}

#[test]
fn failure_is_final() {
    let cfg = AppConfig::default_in("/h", PathStyle::Unix);
    let mut runner = PlanRunner::new(linux::apply_gateway(&cfg));
    runner.on_outcome(Outcome::Exited { success: false });
    runner.on_outcome(Outcome::Exited { success: true });
    match runner.next_action() {
        Action::Failed(PlanError::CommandFailed { command }) => {
            assert_eq!(script(&command), "sysctl -w net.ipv4.ip_forward=1");
        }
        _ => panic!("expected failure"),
    }
}

#[test]
fn failed_policy_rule_message_names_the_script() {
    let cfg = AppConfig::default_in("/h", PathStyle::Unix);
    let (end, ran) = drive(linux::apply_policy_target(&cfg, "192.168.1.20", None), |c| {
        let s = script(c);
        Outcome::Exited { success: !s.contains(" -C ") && !s.contains("-p udp") }
    });
    match end {
        Action::Failed(e) => assert_eq!(
            e.message(),
            "command failed: iptables -t nat -A PREROUTING -s 192.168.1.20 -p udp --dport 53 -j REDIRECT --to-ports 5353"
        ),
        _ => panic!("expected failure"),
    }
    assert_eq!(ran.len(), 4);
}

#[test]
fn unstartable_policy_check_message() {
    let cfg = AppConfig::default_in("/h", PathStyle::Unix);
    let (end, ran) = drive(linux::apply_policy_target(&cfg, "10.0.0.2", None), |_| Outcome::StartFailed);
    match end {
        Action::Failed(e) => assert_eq!(
            e.message(),
            "failed to run shell command: iptables -t nat -C PREROUTING -s 10.0.0.2 -p tcp -j REDIRECT --to-ports 7892"
        ),
        _ => panic!("expected failure"),
    }
    assert_eq!(ran.len(), 1);
}

#[test]
fn direct_command_messages_list_their_arguments() {
    let cmd = CommandSpec {
        program: "pfctl".to_string(),
        args: vec!["-a".to_string(), "com.omnilan".to_string(), "say \"hi\"\\\n".to_string()],
    };
    assert_eq!(
        PlanError::CommandFailed { command: cmd.clone() }.message(),
        format!("command failed: {} {:?}", cmd.program, cmd.args)
    );
    assert_eq!(
        PlanError::StartFailed { command: cmd.clone() }.message(),
        "failed to run command: pfctl [\"-a\", \"com.omnilan\", \"say \\\"hi\\\"\\\\\\n\"]"
    );
    let empty = CommandSpec { program: "pfctl".to_string(), args: vec![] };
    assert_eq!(PlanError::CommandFailed { command: empty }.message(), "command failed: pfctl []");
}

#[test]
fn policy_rollback_restores_the_nat_table() {
    let cfg = AppConfig::default_in("/h", PathStyle::Unix);
    let present = "PREROUTING -s 192.168.1.9 -p udp --dport 53 -j REDIRECT --to-ports 5353".to_string();
    let other = "POSTROUTING -s 10.0.0.0/8 -j MASQUERADE".to_string();
    let before: BTreeSet<String> = [present.clone(), other.clone()].into_iter().collect();
    let mut table = before.clone();
    let (end, _) = drive(linux::apply_policy_target(&cfg, "192.168.1.9", Some("aa:bb:cc:dd:ee:ff")), |c| {
        let s = script(c);
        if let Some(body) = s.strip_prefix("iptables -t nat -C ") {
            Outcome::Exited { success: table.contains(body) }
        } else {
            let body = s.strip_prefix("iptables -t nat -A ").expect("add");
            table.insert(body.to_string());
            Outcome::Exited { success: true }
        }
    });
    let rollbacks = match end {
        Action::Finished(r) => r.rollback_commands,
        _ => panic!("expected finish"),
    };
    assert_eq!(rollbacks.len(), 5);
    assert!(!rollbacks.iter().any(|r| r.ends_with(&present)));
    for r in &rollbacks {
        let body = r.strip_prefix("iptables -t nat -D ").expect("delete");
        assert!(table.remove(body));
    }
    assert_eq!(table, before);
}

#[test]
fn control_characters_escape_as_debug_does() {
    let cmd = CommandSpec {
        program: "pfctl".to_string(),
        args: vec!["a\u{1b}b".to_string(), "\u{1}\u{7f}\t\0'x".to_string(), "é€".to_string()],
    };
    assert_eq!(
        PlanError::CommandFailed { command: cmd.clone() }.message(),
        format!("command failed: {} {:?}", cmd.program, cmd.args)
    );
}
