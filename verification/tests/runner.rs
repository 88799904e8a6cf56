use omnilan::text::PathStyle;
use omnilan::application::runner::{apply_engine_override, kernel_target, rollback_script, tail_lines, AUDIT_TAIL};
use omnilan::cli::EngineArg;
use omnilan::config::{AppConfig, DeviceRule, EngineKind, EnforcementMode};
use omnilan::enforcement::EnforcementOrchestrator;

#[test]
fn engine_override() {
    let cfg = AppConfig::default_in("/h", PathStyle::Unix);
    assert_eq!(apply_engine_override(cfg.clone(), Some(EngineArg::SingBox)).engine, EngineKind::SingBox);
    assert_eq!(apply_engine_override(cfg, None).engine, EngineKind::Mihomo);
    assert_eq!(kernel_target(Some(EngineArg::Mihomo)), Some(EngineKind::Mihomo));
    assert_eq!(kernel_target(None), None);
}

#[test]
fn audit_tail() {
    let lines: Vec<String> = (0..40).map(|i| format!("l{}", i)).collect();
    let tail = tail_lines(lines.clone(), AUDIT_TAIL);
    assert_eq!(tail.len(), 30);
    assert_eq!(tail[0], "l10");
    assert_eq!(tail_lines(lines[..5].to_vec(), AUDIT_TAIL).len(), 5);
}

#[test]
fn rollback_script_undoes_latest_first() {
    let cmds = vec!["first".to_string(), "second".to_string()];
    assert_eq!(rollback_script(&cmds), "#!/bin/sh\nsecond\nfirst\n");
    assert_eq!(rollback_script(&vec![]), "#!/bin/sh\n");
}

#[test]
fn policy_route_devices() {
    let mut cfg = AppConfig::default_in("/h", PathStyle::Unix);
    cfg.enforcement.targets = vec!["192.168.1.5".to_string(), "192.168.1.6".to_string()];
    assert!(EnforcementOrchestrator::devices(&cfg).is_empty());
    cfg.enforcement.mode = EnforcementMode::PolicyRoute;
    cfg.device_policy.allowlist.push(DeviceRule { name: "tv".into(), ip: "192.168.1.6".into(), mac: Some("aa:bb".into()) });
    let d = EnforcementOrchestrator::devices(&cfg);
    assert_eq!(d, vec![("192.168.1.5".to_string(), None), ("192.168.1.6".to_string(), Some("aa:bb".to_string()))]);
}

#[test]
fn run_rollbacks_keep_gateway_first() {
    let r = omnilan::application::runner::run_rollbacks(
        vec!["g1".to_string(), "g2".to_string()],
        vec!["e1".to_string()],
    );
    assert_eq!(r, vec!["g1", "g2", "e1"]);
}
