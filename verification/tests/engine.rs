use omnilan::text::PathStyle;
use omnilan::config::{AppConfig, EngineKind, ProxySourceMode, RouteMode};
use omnilan::engine::mihomo::render_mihomo_yaml;
use omnilan::engine::singbox::render_sing_box_json;
use omnilan::engine::{check_binary, EngineArtifacts, EngineError, MihomoEngine, SingBoxEngine};

fn cfg_for(engine: EngineKind) -> AppConfig {
    let mut cfg = AppConfig::default_in("/tmp/home", PathStyle::Unix);
    cfg.engine = engine;
    cfg.runtime.work_dir = "/tmp/home/work".to_string();
    cfg.runtime.state_file = "/tmp/home/work/state.json".to_string();
    cfg.runtime.audit_file = "/tmp/home/work/audit.log".to_string();
    cfg.source.mode = ProxySourceMode::Subscription;
    cfg.source.subscription_url = Some("https://example.com/sub".to_string());
    cfg
}

#[test]
fn mihomo_prepare_renders_file() {
    let cfg = cfg_for(EngineKind::Mihomo);
    let engine = MihomoEngine;
    assert_eq!(engine.render_path(&cfg, PathStyle::Unix), "/tmp/home/work/mihomo.generated.yaml");
    let rendered = engine.render(&cfg);
    assert!(rendered.contains("mixed-port"));
    assert!(rendered.contains("proxy-providers"));
}

#[test]
fn singbox_prepare_renders_file() {
    let cfg = cfg_for(EngineKind::SingBox);
    let engine = SingBoxEngine;
    assert_eq!(engine.render_path(&cfg, PathStyle::Unix), "/tmp/home/work/sing-box.generated.json");
    let rendered = engine.render(&cfg);
    assert!(rendered.contains("\"inbounds\""));
    assert!(rendered.contains("\"route\""));
}

#[test]
fn mihomo_profile_text() {
    let cfg = cfg_for(EngineKind::Mihomo);
    let y = render_mihomo_yaml(&cfg);
    assert!(y.starts_with("mixed-port: 7890\nredir-port: 7892\nallow-lan: true\nbind-address: \"0.0.0.0\"\nmode: rule\n"));
    assert!(y.contains("external-controller: 0.0.0.0:9090\n"));
    assert!(y.contains("  listen: 0.0.0.0:5353\n"));
    assert!(y.contains("proxy-providers:\n  default-subscription:\n    type: http\n    url: \"https://example.com/sub\"\n    interval: 1800\n    path: ./proxy_provider/default-subscription.yaml\n"));
    assert!(y.ends_with("rules:\n  - GEOIP,CN,DIRECT\n  - GEOSITE,CN,DIRECT\n  - GEOSITE,category-ads-all,REJECT\n  - MATCH,Proxy\n"));
}

#[test]
fn mihomo_profile_options() {
    let mut cfg = cfg_for(EngineKind::Mihomo);
    cfg.routing.mode = RouteMode::Global;
    cfg.routing.domestic_direct = false;
    cfg.routing.block_ads = false;
    cfg.source.mode = ProxySourceMode::LocalFile;
    cfg.source.local_file = Some("/etc/nodes.yaml".to_string());
    cfg.source.provider_name = "mine".to_string();
    let y = render_mihomo_yaml(&cfg);
    assert!(y.contains("\nmode: global\n"));
    assert!(y.contains("proxy-providers:\n  mine:\n    type: file\n    path: \"/etc/nodes.yaml\"\n\nproxy-groups:"));
    assert!(y.ends_with("rules:\n  - MATCH,Proxy\n"));
    cfg.routing.mode = RouteMode::Direct;
    assert!(render_mihomo_yaml(&cfg).contains("\nmode: direct\n"));
}

#[test]
fn singbox_profile_text() {
    let mut cfg = cfg_for(EngineKind::SingBox);
    let j = render_sing_box_json(&cfg);
    assert!(j.contains("\"listen\": \"0.0.0.0\",\n      \"listen_port\": 7890\n"));
    assert!(j.contains("\"listen_port\": 7892\n"));
    assert!(j.contains("{\"type\":\"selector\",\"tag\":\"Proxy\",\"outbounds\":[\"auto\",\"direct\"]}"));
    assert!(j.contains("{ \"inbound\": \"tun-in\", \"outbound\": \"Proxy\" }, {\"rule_set\": \"geoip-cn\""));
    assert!(j.ends_with("\"final\": \"Proxy\"\n  }\n}\n"));
    cfg.routing.mode = RouteMode::Direct;
    cfg.routing.domestic_direct = false;
    cfg.routing.block_ads = false;
    cfg.source.mode = ProxySourceMode::LocalFile;
    let j = render_sing_box_json(&cfg);
    assert!(j.contains("{\"type\":\"selector\",\"tag\":\"Proxy\",\"outbounds\":[\"direct\"]}"));
    assert!(j.contains("{ \"inbound\": \"tun-in\", \"outbound\": \"Proxy\" }\n    ],\n    \"final\": \"direct\""));
}

#[test]
fn launch_commands() {
    let cfg = cfg_for(EngineKind::Mihomo);
    let art = EngineArtifacts { render_path: "/r/m.yaml".to_string() };
    let c = MihomoEngine.command(&cfg, &art);
    assert_eq!(c.program, "mihomo");
    assert_eq!(c.args, vec!["-d", "/tmp/home/work", "-f", "/r/m.yaml"]);
    let c = SingBoxEngine.command(&cfg, &art);
    assert_eq!(c.program, "sing-box");
    assert_eq!(c.args, vec!["run", "-D", "/tmp/home/work", "-c", "/r/m.yaml"]);
    assert_eq!(MihomoEngine.name(), "mihomo");
    assert_eq!(SingBoxEngine.name(), "sing-box");
}

#[test]
fn binary_checks() {
    let bin = "/no/such/mihomo-binary".to_string();
    assert_eq!(check_binary(EngineKind::Mihomo, &bin, true), Ok(()));
    let err = check_binary(EngineKind::Mihomo, &bin, false).unwrap_err();
    assert_eq!(err.message(), "cannot find mihomo binary: /no/such/mihomo-binary (please install or adjust executables.mihomo)");
    let mut cfg = cfg_for(EngineKind::SingBox);
    cfg.executables.sing_box = "/no/such/sing-box-binary".to_string();
    assert_eq!(
        SingBoxEngine.ensure_binary(&cfg),
        Err(EngineError::BinaryNotFound { engine: EngineKind::SingBox, binary: "/no/such/sing-box-binary".to_string() })
    );
    assert_eq!(
        EngineError::BinaryNotFound { engine: EngineKind::SingBox, binary: "x".to_string() }.message(),
        "cannot find sing-box binary: x (please install or adjust executables.sing_box)"
    );
    cfg.executables.mihomo = "sh".to_string();
    assert_eq!(MihomoEngine.ensure_binary(&cfg), Ok(()));
}

#[test]
fn singbox_route_final_follows_mode() {
    let mut cfg = cfg_for(EngineKind::SingBox);
    cfg.routing.mode = RouteMode::Direct;
    assert!(render_sing_box_json(&cfg).ends_with("\n    ],\n    \"final\": \"direct\"\n  }\n}\n"));
    cfg.routing.mode = RouteMode::Rule;
    let rule = render_sing_box_json(&cfg);
    assert!(rule.ends_with("\n    ],\n    \"final\": \"Proxy\"\n  }\n}\n"));
    cfg.routing.mode = RouteMode::Global;
    assert_eq!(render_sing_box_json(&cfg), rule);
}

#[test]
fn engines_look_up_their_own_executable() {
    let mut cfg = cfg_for(EngineKind::Mihomo);
    cfg.executables.mihomo = "/opt/m".to_string();
    cfg.executables.sing_box = "sh".to_string();
    assert_eq!(MihomoEngine.binary(&cfg), "/opt/m");
    assert_eq!(SingBoxEngine.binary(&cfg), "sh");
    assert!(MihomoEngine.ensure_binary(&cfg).is_err());
    assert_eq!(SingBoxEngine.ensure_binary(&cfg), Ok(()));
}
